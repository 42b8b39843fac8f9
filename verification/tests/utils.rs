use storybook::utils::process_string_asterisks;

#[test]
fn process_string_asterisks_works() {
    let string_without = "Hello, how're you?";
    assert_eq!(
        process_string_asterisks(&string_without),
        vec![string_without]
    );

    let string_with = "This *text* has some *important* bits";
    assert_eq!(
        process_string_asterisks(&string_with),
        vec![
            "This ".to_string(),
            "text".to_string(),
            " has some ".to_string(),
            "important".to_string(),
            " bits".to_string()
        ],
    );
}

#[test]
fn empty_text_has_no_runs() {
    assert_eq!(process_string_asterisks(""), Vec::<String>::new());
}

#[test]
fn asterisks_alone_have_no_runs() {
    assert_eq!(process_string_asterisks("*"), Vec::<String>::new());
    assert_eq!(process_string_asterisks("***"), Vec::<String>::new());
}

#[test]
fn empty_runs_are_left_out() {
    assert_eq!(process_string_asterisks("*a*"), vec!["a".to_string()]);
    assert_eq!(
        process_string_asterisks("a**b"),
        vec!["a".to_string(), "b".to_string()]
    );
    assert_eq!(
        process_string_asterisks("*a* b*"),
        vec!["a".to_string(), " b".to_string()]
    );
}

#[test]
fn runs_keep_letters_beyond_ascii() {
    assert_eq!(
        process_string_asterisks("un *dragón* normal"),
        vec!["un ".to_string(), "dragón".to_string(), " normal".to_string()]
    );
}

use storybook::book::{
    default_text_styles, draw_chosen_option, get_emphasised_text, get_formatted_text, react, show_node, Beat, Book,
    Command, Event, Lifecycle, LifecycleManager, Move, Page,
};
use storybook::book_content::{
    get_book_content, BookContext, Decoration, Flag, Illustration,
    NodeChoice, SimpleContent, SimpleExtra, StateChange, Tint, WithContext,
};
use storybook::graph::Node;

const PHASES: [Lifecycle; 6] = [
    Lifecycle::ShowNode,
    Lifecycle::Choosing,
    Lifecycle::Chosen,
    Lifecycle::Transitioning,
    Lifecycle::SimpleNode,
    Lifecycle::End,
];

const BEATS: [Beat; 3] = [Beat::Fork, Beat::Passage, Beat::Ending];

const EVENTS: [Event; 5] = [
    Event::Tick,
    Event::ChoicePressed(1),
    Event::AdvancePressed,
    Event::TransitionFinished,
    Event::RestartPressed,
];

#[test]
fn each_phase_has_its_following_phase() {
    assert_eq!(Lifecycle::ShowNode.next(), Lifecycle::Choosing);
    assert_eq!(Lifecycle::Choosing.next(), Lifecycle::Chosen);
    assert_eq!(Lifecycle::Chosen.next(), Lifecycle::Transitioning);
    assert_eq!(Lifecycle::Transitioning.next(), Lifecycle::ShowNode);
    assert_eq!(Lifecycle::SimpleNode.next(), Lifecycle::Transitioning);
    assert_eq!(Lifecycle::End.next(), Lifecycle::ShowNode);
}

#[test]
fn showing_a_fork_waits_for_a_choice() {
    let reaction = react(Lifecycle::ShowNode, 3, Beat::Fork, Event::Tick);
    assert_eq!(reaction.lifecycle, Lifecycle::Choosing);
    assert_eq!(reaction.graph_move, Move::Stay);
    assert_eq!(reaction.commands, vec![Command::Show(3)]);
}

#[test]
fn showing_a_passage_moves_the_cursor_on() {
    let reaction = react(Lifecycle::ShowNode, 4, Beat::Passage, Event::Tick);
    assert_eq!(reaction.lifecycle, Lifecycle::SimpleNode);
    assert_eq!(reaction.graph_move, Move::Advance);
    assert_eq!(reaction.commands, vec![Command::Show(4)]);
}

#[test]
fn showing_an_ending_ends_the_story() {
    let reaction = react(Lifecycle::ShowNode, 7, Beat::Ending, Event::Tick);
    assert_eq!(reaction.lifecycle, Lifecycle::End);
    assert_eq!(reaction.graph_move, Move::Stay);
    assert_eq!(
        reaction.commands,
        vec![Command::StoryEnded, Command::Show(7)]
    );
}

#[test]
fn a_pressed_choice_is_taken_and_drawn() {
    for beat in BEATS {
        let reaction = react(Lifecycle::Choosing, 2, beat, Event::ChoicePressed(1));
        assert_eq!(reaction.lifecycle, Lifecycle::Chosen);
        assert_eq!(reaction.graph_move, Move::Choose(1));
        assert_eq!(
            reaction.commands,
            vec![
                Command::PlayScribble,
                Command::EraseEverything,
                Command::ShowChosen { node: 2, index: 1 },
                Command::ShowArrow,
            ]
        );
    }
}

#[test]
fn turning_the_page_starts_the_transition() {
    for phase in [Lifecycle::Chosen, Lifecycle::SimpleNode] {
        for beat in BEATS {
            let reaction = react(phase, 5, beat, Event::AdvancePressed);
            assert_eq!(reaction.lifecycle, Lifecycle::Transitioning);
            assert_eq!(reaction.graph_move, Move::Stay);
            assert_eq!(
                reaction.commands,
                vec![
                    Command::PlayPageFlip,
                    Command::StartTransition,
                    Command::EraseEverything,
                ]
            );
        }
    }
}

#[test]
fn the_finished_transition_shows_the_next_node() {
    for beat in BEATS {
        let reaction = react(Lifecycle::Transitioning, 5, beat, Event::TransitionFinished);
        assert_eq!(reaction.lifecycle, Lifecycle::ShowNode);
        assert_eq!(reaction.graph_move, Move::Stay);
        if beat == Beat::Passage {
            assert_eq!(reaction.commands, vec![Command::ShowArrow]);
        } else {
            assert_eq!(reaction.commands, vec![]);
        }
    }
}

#[test]
fn a_restart_at_the_end_starts_the_story_again() {
    for beat in BEATS {
        let reaction = react(Lifecycle::End, 7, beat, Event::RestartPressed);
        assert_eq!(reaction.lifecycle, Lifecycle::ShowNode);
        assert_eq!(reaction.graph_move, Move::Reset);
        assert_eq!(reaction.commands, vec![Command::EraseEverything]);
    }
}

fn awaited(phase: Lifecycle, event: Event) -> bool {
    matches!(
        (phase, event),
        (Lifecycle::ShowNode, Event::Tick)
            | (Lifecycle::Choosing, Event::ChoicePressed(_))
            | (Lifecycle::Chosen, Event::AdvancePressed)
            | (Lifecycle::SimpleNode, Event::AdvancePressed)
            | (Lifecycle::Transitioning, Event::TransitionFinished)
            | (Lifecycle::End, Event::RestartPressed)
    )
}

#[test]
fn a_signal_that_is_not_awaited_changes_nothing() {
    let mut ignored = 0;
    for phase in PHASES {
        for beat in BEATS {
            for event in EVENTS {
                if awaited(phase, event) {
                    continue;
                }
                let reaction = react(phase, 9, beat, event);
                assert_eq!(reaction.lifecycle, phase);
                assert_eq!(reaction.graph_move, Move::Stay);
                assert_eq!(reaction.commands, vec![]);
                ignored += 1;
            }
        }
    }
    assert_eq!(ignored, 6 * 3 * 5 - 6 * 3);
}

#[test]
fn only_a_restart_leaves_the_end() {
    for beat in BEATS {
        for event in EVENTS {
            let reaction = react(Lifecycle::End, 7, beat, event);
            if event == Event::RestartPressed {
                assert_eq!(reaction.lifecycle, Lifecycle::ShowNode);
            } else {
                assert_eq!(reaction.lifecycle, Lifecycle::End);
            }
        }
    }
}

#[test]
fn the_manager_moves_the_graph_with_the_phase() {
    let mut graph = get_book_content();
    let mut manager = LifecycleManager(Lifecycle::ShowNode);

    assert_eq!(
        manager.dispatch(&mut graph, Event::Tick),
        vec![Command::Show(0)]
    );
    assert_eq!(manager.0, Lifecycle::Choosing);
    assert_eq!(graph.current_index(), 0);

    assert_eq!(manager.dispatch(&mut graph, Event::AdvancePressed), vec![]);
    assert_eq!(manager.0, Lifecycle::Choosing);

    assert_eq!(
        manager.dispatch(&mut graph, Event::ChoicePressed(1)),
        vec![
            Command::PlayScribble,
            Command::EraseEverything,
            Command::ShowChosen { node: 0, index: 1 },
            Command::ShowArrow,
        ]
    );
    assert_eq!(manager.0, Lifecycle::Chosen);
    assert_eq!(graph.current_index(), 25);
    assert!(graph.get_context().get(Flag::DragonNormal));

    assert_eq!(
        manager.dispatch(&mut graph, Event::ChoicePressed(0)),
        vec![]
    );
    assert_eq!(manager.0, Lifecycle::Chosen);
    assert_eq!(graph.current_index(), 25);

    manager.dispatch(&mut graph, Event::AdvancePressed);
    assert_eq!(manager.0, Lifecycle::Transitioning);
    assert_eq!(
        manager.dispatch(&mut graph, Event::TransitionFinished),
        vec![Command::ShowArrow]
    );
    assert_eq!(manager.0, Lifecycle::ShowNode);
    assert_eq!(
        manager.dispatch(&mut graph, Event::TransitionFinished),
        vec![]
    );
    assert_eq!(manager.0, Lifecycle::ShowNode);

    assert_eq!(
        manager.dispatch(&mut graph, Event::Tick),
        vec![Command::Show(25)]
    );
    assert_eq!(manager.0, Lifecycle::SimpleNode);
    assert_eq!(graph.current_index(), 26);
}

fn answer(book: Book, event: Event) -> (Book, Vec<Command>) {
    let (book, answer) = book.dispatch(event);
    (book, answer.expect("the signal can be answered").commands)
}

/// Reads the book from the start, taking `choices` in turn, up to the first
/// fork for which none is left or to an ending. Returns the phases passed
/// without their repetitions, the beats shown, and the book.
fn read(choices: &[usize]) -> (Vec<Lifecycle>, Vec<usize>, Book) {
    let mut book = Book::new();
    let mut phases = vec![book.lifecycle()];
    let mut shown = Vec::new();
    let mut left = choices.iter();
    loop {
        let event = match book.lifecycle() {
            Lifecycle::ShowNode => Event::Tick,
            Lifecycle::Choosing => match left.next() {
                Some(index) => Event::ChoicePressed(*index),
                None => break,
            },
            Lifecycle::Chosen | Lifecycle::SimpleNode => Event::AdvancePressed,
            Lifecycle::Transitioning => Event::TransitionFinished,
            Lifecycle::End => break,
        };
        let (next, commands) = answer(book, event);
        book = next;
        for command in commands {
            if let Command::Show(node) = command {
                shown.push(node);
            }
        }
        if phases.last() != Some(&book.lifecycle()) {
            phases.push(book.lifecycle());
        }
    }
    (phases, shown, book)
}

#[test]
fn a_fork_goes_round_through_choosing_chosen_and_transitioning() {
    let (phases, shown, book) = read(&[0, 1]);
    assert_eq!(
        phases,
        vec![
            Lifecycle::ShowNode,
            Lifecycle::Choosing,
            Lifecycle::Chosen,
            Lifecycle::Transitioning,
            Lifecycle::ShowNode,
            Lifecycle::SimpleNode,
            Lifecycle::Transitioning,
            Lifecycle::ShowNode,
            Lifecycle::Choosing,
            Lifecycle::Chosen,
            Lifecycle::Transitioning,
            Lifecycle::ShowNode,
            Lifecycle::Choosing,
        ]
    );
    assert_eq!(shown, vec![0, 1, 2, 3]);
    assert_eq!(book.graph().current_index(), 3);
    assert!(book.graph().get_context().get(Flag::SantjordiDisfrazado));
    assert!(book.graph().get_context().get(Flag::FanDragones));
}

#[test]
fn stray_signals_leave_a_fork_waiting() {
    let (book, commands) = answer(Book::new(), Event::TransitionFinished);
    assert_eq!(commands, vec![]);
    assert_eq!(book.lifecycle(), Lifecycle::ShowNode);
    let (book, _) = answer(book, Event::Tick);
    assert_eq!(book.lifecycle(), Lifecycle::Choosing);
    for event in [
        Event::Tick,
        Event::AdvancePressed,
        Event::TransitionFinished,
        Event::RestartPressed,
    ] {
        let (same, commands) = answer(Book::new().dispatch(Event::Tick).0, event);
        assert_eq!(commands, vec![]);
        assert_eq!(same.lifecycle(), Lifecycle::Choosing);
        assert_eq!(same.graph().current_index(), 0);
    }
    let (book, _) = answer(book, Event::ChoicePressed(0));
    let (book, commands) = answer(book, Event::ChoicePressed(1));
    assert_eq!(commands, vec![]);
    assert_eq!(book.lifecycle(), Lifecycle::Chosen);
    assert_eq!(book.graph().current_index(), 1);
    assert!(!book.graph().get_context().get(Flag::DragonNormal));
}

#[test]
fn a_choice_that_is_not_offered_is_refused() {
    let (book, _) = answer(Book::new(), Event::Tick);
    let (book, refused) = book.dispatch(Event::ChoicePressed(2));
    assert!(refused.is_none());
    assert_eq!(book.lifecycle(), Lifecycle::Choosing);
    assert_eq!(book.graph().current_index(), 0);
    let (book, taken) = book.dispatch(Event::ChoicePressed(1));
    assert!(taken.is_some());
    assert_eq!(book.graph().current_index(), 25);
}

#[test]
fn an_ending_ends_the_story_and_a_restart_opens_it_again() {
    let (phases, shown, book) = read(&[0, 0, 0]);
    assert_eq!(shown, vec![0, 1, 2, 3, 4, 5, 6, 7]);
    assert_eq!(phases.last(), Some(&Lifecycle::End));
    assert_eq!(book.graph().current_index(), 7);

    let mut book = book;
    for event in [
        Event::Tick,
        Event::ChoicePressed(0),
        Event::AdvancePressed,
        Event::TransitionFinished,
    ] {
        let (same, commands) = answer(book, event);
        assert_eq!(commands, vec![]);
        assert_eq!(same.lifecycle(), Lifecycle::End);
        assert_eq!(same.graph().current_index(), 7);
        book = same;
    }

    let (book, commands) = answer(book, Event::RestartPressed);
    assert_eq!(commands, vec![Command::EraseEverything]);
    assert_eq!(book.lifecycle(), Lifecycle::ShowNode);
    assert_eq!(book.graph().current_index(), 0);
    assert!(!book.graph().get_context().get(Flag::SantjordiDisfrazado));
    assert!(!book.graph().get_context().get(Flag::PrincesaGuerrera));
    let (book, commands) = answer(book, Event::Tick);
    assert_eq!(commands, vec![Command::Show(0)]);
    assert_eq!(book.lifecycle(), Lifecycle::Choosing);
}

#[test]
fn the_last_beat_before_an_ending_is_shown_with_the_end_signal() {
    let (_, _, book) = read(&[1, 0, 2]);
    assert_eq!(book.lifecycle(), Lifecycle::Choosing);
    assert_eq!(book.graph().current_index(), 41);
    let (book, _) = answer(book, Event::ChoicePressed(0));
    let (book, _) = answer(book, Event::AdvancePressed);
    let (book, commands) = answer(book, Event::TransitionFinished);
    assert_eq!(commands, vec![]);
    let (book, given) = book.dispatch(Event::Tick);
    let given = given.unwrap();
    assert_eq!(
        given.commands,
        vec![Command::StoryEnded, Command::Show(42)]
    );
    assert!(matches!(
        given.page,
        Some(Page::Simple {
            end_button: true,
            illustration: Some(Illustration::DragonXSantJordi),
            ..
        })
    ));
    assert_eq!(book.lifecycle(), Lifecycle::End);
}

/// Every way of reading the book, as the choices taken at its forks.
fn readings() -> Vec<(Vec<usize>, usize)> {
    let mut complete = Vec::new();
    let mut open: Vec<Vec<usize>> = vec![Vec::new()];
    while let Some(choices) = open.pop() {
        let (_, _, book) = read(&choices);
        match book.lifecycle() {
            Lifecycle::End => complete.push((choices, book.graph().current_index())),
            Lifecycle::Choosing => {
                let Node::Fork { choices: offered, .. } = book.graph().get_current_node() else {
                    panic!("a choice is awaited at a fork");
                };
                for index in 0..offered.len() {
                    let mut longer = choices.clone();
                    longer.push(index);
                    open.push(longer);
                }
            }
            other => panic!("reading stopped in {:?}", other),
        }
    }
    complete
}

#[test]
fn every_reading_comes_to_an_ending() {
    let readings = readings();
    assert_eq!(readings.len(), 33);
    let mut endings: Vec<usize> = readings.iter().map(|(_, ending)| *ending).collect();
    endings.sort();
    endings.dedup();
    assert_eq!(endings, vec![7, 16, 23, 24, 30, 33, 37, 40, 42, 43]);
    for (choices, ending) in readings {
        let (_, _, book) = read(&choices);
        assert!(matches!(
            book.graph().get_current_node(),
            Node::Simple { next: None, .. }
        ));
        assert_eq!(book.graph().current_index(), ending);
    }
}

fn values(sections: &[storybook::book::TextSection]) -> Vec<&str> {
    sections.iter().map(|section| section.value.as_str()).collect()
}

#[test]
fn the_first_letter_stands_alone_and_emphasis_alternates() {
    let styles = default_text_styles(false);
    let sections = get_formatted_text("Erase *una* vez", &styles);
    assert_eq!(values(&sections), vec!["E", "rase ", "una", " vez"]);
    assert_eq!(sections[0].style, styles.first_letter);
    assert_eq!(sections[1].style, styles.normal);
    assert_eq!(sections[2].style, styles.highlighted);
    assert_eq!(sections[3].style, styles.normal);

    let single = get_formatted_text("É", &styles);
    assert_eq!(values(&single), vec!["É"]);
    assert_eq!(single[0].style, styles.first_letter);
}

#[test]
fn emphasis_starts_with_the_running_style() {
    let styles = default_text_styles(true);
    let sections = get_emphasised_text("un *dragón* normalito", &styles);
    assert_eq!(values(&sections), vec!["un ", "dragón", " normalito"]);
    assert_eq!(sections[0].style, styles.normal);
    assert_eq!(sections[1].style, styles.highlighted);
    assert_eq!(sections[2].style, styles.normal);
    assert!(get_emphasised_text("", &styles).is_empty());

    let leading = get_emphasised_text("*dragón* normalito", &styles);
    assert_eq!(values(&leading), vec!["dragón", " normalito"]);
    assert_eq!(leading[0].style, styles.normal);
    assert_eq!(leading[1].style, styles.highlighted);
}

fn option(text: &'static str, illustration: Option<Illustration>) -> NodeChoice {
    NodeChoice {
        text: WithContext::Always(text),
        illustration,
        additional_text: WithContext::Always("then"),
        state_change: StateChange::Nothing,
        next: WithContext::Always(0),
    }
}

#[test]
fn a_fork_is_shown_with_its_options_in_order() {
    let fork = Node::Fork {
        content: SimpleContent::plain(WithContext::Always("Which *one*?")),
        choices: vec![
            option("the *first*", Some(Illustration::NormalDragon)),
            option("the second", None),
            option("the third", Some(Illustration::PrincessDragon)),
        ],
    };
    let Page::Fork { text, options } = show_node(&fork, &BookContext::default()) else {
        panic!("a fork is shown as a fork");
    };
    assert_eq!(values(&text), vec!["W", "hich ", "one", "?"]);
    assert_eq!(text[0].style, default_text_styles(false).first_letter);
    assert_eq!(options.len(), 3);
    let small = default_text_styles(true);
    for (index, view) in options.iter().enumerate() {
        assert_eq!(view.option.index, index);
        assert_eq!(view.image_first, index % 2 == 0);
        assert_eq!(view.sections[0].style, small.normal);
    }
    assert_eq!(options[0].option.text, "the *first*");
    assert_eq!(values(&options[0].sections), vec!["the ", "first"]);
    assert_eq!(options[0].sections[1].style, small.highlighted);
    assert_eq!(options[0].option.image, Some(Illustration::NormalDragon));
    assert_eq!(options[1].option.image, None);
    assert_eq!(options[2].option.image, Some(Illustration::PrincessDragon));
}

#[test]
fn two_options_are_set_in_the_usual_size() {
    let fork = Node::Fork {
        content: SimpleContent::with_highlighted(
            WithContext::Always("Which?"),
            Tint::Bytes(1, 2, 3),
        ),
        choices: vec![option("one", None), option("two", None)],
    };
    let Page::Fork { text, options } = show_node(&fork, &BookContext::default()) else {
        panic!("a fork is shown as a fork");
    };
    assert_eq!(text[1].style, default_text_styles(false).normal);
    assert_eq!(options[0].sections[0].style.font_size, 30);
    assert_eq!(options[1].sections[0].style.font_size, 30);
}

#[test]
fn a_simple_beat_is_shown_with_what_stands_beside_it() {
    let mut context = BookContext::default();
    context.raise(Flag::FanDragones);
    let beat: Node<SimpleContent, SimpleExtra, NodeChoice> = Node::Simple {
        content: SimpleContent::plain(WithContext::Always("")),
        extra: SimpleExtra {
            illustration: Some(Illustration::DragonWithCow),
            additional_text: WithContext::one_of(
                storybook::book_content::Case {
                    flag: Flag::PrincesaGuerrera,
                    value: "warrior",
                },
                storybook::book_content::Case {
                    flag: Flag::FanDragones,
                    value: "admirer",
                },
                storybook::book_content::Case {
                    flag: Flag::PrincesaRechazada,
                    value: "turned away",
                },
            ),
            decorations: vec![Decoration::Cat, Decoration::SnailBoy],
        },
        next: Some(3),
    };
    let Page::Simple {
        text,
        additional_text,
        illustration,
        decorations,
        end_button,
    } = show_node(&beat, &context)
    else {
        panic!("a simple beat is shown as one");
    };
    assert!(text.is_empty());
    assert_eq!(additional_text, "admirer");
    assert_eq!(illustration, Some(Illustration::DragonWithCow));
    assert_eq!(decorations, vec![Decoration::Cat, Decoration::SnailBoy]);
    assert!(!end_button);
}

#[test]
fn the_chosen_option_is_drawn_in_the_styles_of_its_fork() {
    let blue = Tint::Bytes(0x28, 0x2c, 0x83);
    let fork = Node::Fork {
        content: SimpleContent::with_highlighted(WithContext::Always("Which?"), blue),
        choices: vec![
            option("one", None),
            option("two", Some(Illustration::SantJordiRoses)),
        ],
    };
    let chosen = draw_chosen_option(&fork, 1, "two *roses*", &BookContext::default());
    assert_eq!(values(&chosen.text), vec!["t", "wo ", "roses"]);
    assert_eq!(chosen.text[2].style.color, blue);
    assert_eq!(chosen.additional_text, "then");
    assert_eq!(chosen.image, Some(Illustration::SantJordiRoses));
    assert!(draw_chosen_option(&fork, 0, "", &BookContext::default())
        .text
        .is_empty());
}

#[test]
fn the_book_answers_with_the_page_and_the_chosen_option() {
    let (book, given) = Book::new().dispatch(Event::Tick);
    let given = given.unwrap();
    assert!(given.chosen.is_none());
    let Some(Page::Fork { text, options }) = given.page else {
        panic!("the first beat is a fork");
    };
    assert_eq!(text[0].value, "E");
    assert_eq!(text[2].value, "terrible dragón");
    assert_eq!(options.len(), 2);
    assert_eq!(options[1].option.image, Some(Illustration::NormalDragon));
    assert_eq!(values(&options[1].sections)[1], "un dragón normalito");

    let (book, given) = book.dispatch(Event::ChoicePressed(1));
    let given = given.unwrap();
    assert!(given.page.is_none());
    let chosen = given.chosen.unwrap();
    assert_eq!(chosen.text[0].value, "E");
    assert_eq!(chosen.text[2].value, "un dragón normalito");
    assert_eq!(chosen.image, Some(Illustration::NormalDragon));
    assert_eq!(
        chosen.additional_text,
        "Realmente no les hacía nada, pero un dragón gigante escupefuego era el objetivo perfecto sobre el que proyectar sus problemas."
    );

    let (_, given) = book.dispatch(Event::AdvancePressed);
    let given = given.unwrap();
    assert!(given.page.is_none());
    assert!(given.chosen.is_none());
}

#[test]
fn a_second_text_that_depends_on_the_princess_follows_her() {
    for (option, expected) in [
        (0, "Cleodolinda, todavía con ganas de algo de acción, siguió al caballero procurando que no la viera."),
        (1, "Cleodolinda, demasiado ansiosa por la posibilidad de ver un dragón real, siguió de cerca a Sant Jordi y se adentró tras él en la guarida de la criatura."),
        (2, "No creyéndose del todo al quizás algo flipado caballero, Cleodolinda le siguió de cerca y se adentró en la guarida de la bestia."),
    ] {
        let (_, _, book) = read(&[0, option, 1]);
        assert_eq!(book.graph().current_index(), 12);
        let (_, given) = book.dispatch(Event::ChoicePressed(0));
        assert_eq!(given.unwrap().chosen.unwrap().additional_text, expected);
    }
}

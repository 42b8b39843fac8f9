use storybook::graph::{ChoiceTrait, Graph, Node};

#[derive(Debug)]
struct TestContent {
    text: String,
}

type TestSimple = ();

#[derive(Debug, Clone)]
#[allow(dead_code)]
struct TestChoice {
    title: String,
    subtitle: String,
    next: usize,
}

impl ChoiceTrait<TestContext> for TestChoice {
    fn routable(&self, _: &TestContext) -> bool {
        true
    }

    fn route(&self, _: &TestContext) -> usize {
        self.next
    }

    fn effect(&self, context: TestContext) -> TestContext {
        context
    }

    fn next_node(&self, _: &TestContext) -> usize {
        self.next
    }

    fn change_state(&self, _: &mut TestContext) {}
}

#[derive(Debug, Default)]
#[allow(dead_code)]
struct TestContext {
    some_flag: bool,
}

fn simple(text: &str, next: Option<usize>) -> Node<TestContent, TestSimple, TestChoice> {
    Node::Simple {
        content: TestContent {
            text: text.to_string(),
        },
        extra: (),
        next,
    }
}

/// The graph looks like this:
///       B
///      /
/// Z - A
///      \
///       C - D
#[test]
fn simple_graph_works() {
    let mut graph = Graph::<TestContent, TestSimple, TestChoice, TestContext>::new();
    graph.add_node(0, simple("Z", Some(1)));
    graph.add_node(
        1,
        Node::Fork {
            content: TestContent {
                text: "A".to_string(),
            },
            choices: vec![
                TestChoice {
                    title: "To B".to_string(),
                    subtitle: "This choice leads to B".to_string(),
                    next: 2,
                },
                TestChoice {
                    title: "To C".to_string(),
                    subtitle: "This choice leads to C".to_string(),
                    next: 3,
                },
            ],
        },
    );
    graph.add_node(2, simple("B", None));
    graph.add_node(3, simple("C", Some(4)));
    graph.add_node(4, simple("D", None));

    let mut texts = Vec::new();
    texts.push(graph.get_content().text.clone()); // Z
    graph.advance();
    texts.push(graph.get_content().text.clone()); // A
    graph.choose_option(1);
    texts.push(graph.get_content().text.clone()); // C
    graph.advance();
    texts.push(graph.get_content().text.clone()); // D
    assert_eq!(texts, vec!["Z", "A", "C", "D"]);

    let mut texts = Vec::new();
    graph.reset();
    texts.push(graph.get_content().text.clone()); // Z
    graph.advance();
    texts.push(graph.get_content().text.clone()); // A
    graph.choose_option(0);
    texts.push(graph.get_content().text.clone()); // B
    assert_eq!(texts, vec!["Z", "A", "B"]);
}

#[derive(Debug, Default, Clone, PartialEq)]
struct Flags {
    a: bool,
    b: bool,
}

struct FlagChoice {
    sets: fn(&mut Flags),
    next: fn(&Flags) -> usize,
}

impl ChoiceTrait<Flags> for FlagChoice {
    fn routable(&self, _: &Flags) -> bool {
        true
    }

    fn route(&self, context: &Flags) -> usize {
        (self.next)(context)
    }

    fn effect(&self, context: Flags) -> Flags {
        let mut changed = context;
        (self.sets)(&mut changed);
        changed
    }

    fn next_node(&self, context: &Flags) -> usize {
        (self.next)(context)
    }

    fn change_state(&self, context: &mut Flags) {
        (self.sets)(context)
    }
}

type FlagGraph = Graph<&'static str, (), FlagChoice, Flags>;

fn passage(text: &'static str, next: Option<usize>) -> Node<&'static str, (), FlagChoice> {
    Node::Simple {
        content: text,
        extra: (),
        next,
    }
}

/// 0 forks to 1 (raising a) and 2 (raising b); both lead on to 3, whose
/// only choice leads to 4 where a is raised and to 5 where it is not.
fn flag_graph() -> FlagGraph {
    let mut graph = FlagGraph::new();
    graph.add_node(
        0,
        Node::Fork {
            content: "start",
            choices: vec![
                FlagChoice {
                    sets: |flags| flags.a = true,
                    next: |_| 1,
                },
                FlagChoice {
                    sets: |flags| flags.b = true,
                    next: |_| 2,
                },
            ],
        },
    );
    graph.add_node(1, passage("one", Some(3)));
    graph.add_node(2, passage("two", Some(3)));
    graph.add_node(
        3,
        Node::Fork {
            content: "three",
            choices: vec![FlagChoice {
                sets: |_| {},
                next: |flags| if flags.a { 4 } else { 5 },
            }],
        },
    );
    graph.add_node(4, passage("four", None));
    graph.add_node(5, passage("five", None));
    graph
}

#[test]
fn first_choice_raises_a_and_ends_on_four() {
    let mut graph = flag_graph();
    graph.choose_option(0);
    assert_eq!(graph.current_index(), 1);
    assert_eq!(graph.context, Flags { a: true, b: false });
    graph.advance();
    assert_eq!(graph.current_index(), 3);
    graph.choose_option(0);
    assert_eq!(graph.current_index(), 4);
}

#[test]
fn second_choice_raises_b_and_ends_on_five() {
    let mut graph = flag_graph();
    graph.choose_option(1);
    assert_eq!(graph.current_index(), 2);
    assert_eq!(graph.context, Flags { a: false, b: true });
    graph.advance();
    assert_eq!(graph.current_index(), 3);
    graph.choose_option(0);
    assert_eq!(graph.current_index(), 5);
}

#[test]
fn a_choice_is_routed_by_the_context_it_has_changed() {
    let mut graph = FlagGraph::new();
    graph.add_node(
        0,
        Node::Fork {
            content: "start",
            choices: vec![FlagChoice {
                sets: |flags| flags.a = true,
                next: |flags| if flags.a { 1 } else { 2 },
            }],
        },
    );
    graph.add_node(1, passage("raised", None));
    graph.add_node(2, passage("not raised", None));
    graph.choose_option(0);
    assert_eq!(graph.current_index(), 1);
    assert_eq!(*graph.get_content(), "raised");
}

fn read(graph: &mut FlagGraph) -> Vec<usize> {
    let mut visited = vec![graph.current_index()];
    graph.choose_option(0);
    visited.push(graph.current_index());
    graph.advance();
    visited.push(graph.current_index());
    graph.choose_option(0);
    visited.push(graph.current_index());
    visited
}

#[test]
fn a_reset_graph_reads_like_a_fresh_one() {
    let mut fresh = flag_graph();
    let first = read(&mut fresh);
    assert_eq!(first, vec![0, 1, 3, 4]);

    let mut again = flag_graph();
    again.choose_option(1);
    again.advance();
    again.choose_option(0);
    assert_eq!(again.current_index(), 5);
    again.reset();
    assert_eq!(again.current_index(), 0);
    assert_eq!(again.context, Flags::default());
    assert_eq!(read(&mut again), first);
}

#[test]
fn the_cursor_tells_forks_from_simple_nodes() {
    let mut graph = flag_graph();
    assert!(graph.is_fork());
    assert!(graph.get_extra().is_none());
    assert!(matches!(graph.get_current_node(), Node::Fork { .. }));
    graph.set_current_node(1);
    assert!(!graph.is_fork());
    assert_eq!(graph.get_extra(), Some(&()));
    assert!(matches!(
        graph.get_current_node(),
        Node::Simple { next: Some(3), .. }
    ));
    assert_eq!(*graph.get_content(), "one");
    assert_eq!(*graph.get_context(), Flags::default());
}

#[test]
fn nodes_are_found_by_their_index() {
    let mut graph = flag_graph();
    assert!(graph.get_node(5).is_some());
    assert!(graph.get_node(6).is_none());
    graph.add_node(6, passage("six", None));
    assert!(matches!(
        graph.get_node(6),
        Some(Node::Simple { content: "six", .. })
    ));
    graph.add_node(6, passage("sixth", None));
    assert!(matches!(
        graph.get_node(6),
        Some(Node::Simple {
            content: "sixth",
            ..
        })
    ));
}

#[test]
fn a_graph_in_shape_passes_validation() {
    assert!(flag_graph().validate());
    let mut graph = flag_graph();
    graph.set_current_node(5);
    assert!(graph.validate());
}

#[test]
fn a_graph_without_a_first_node_fails_validation() {
    let mut graph = FlagGraph::new();
    assert!(!graph.validate());
    graph.add_node(1, passage("one", None));
    assert!(!graph.validate());
    graph.add_node(0, passage("start", Some(1)));
    assert!(graph.validate());
}

#[test]
fn a_missing_successor_fails_validation() {
    let mut graph = flag_graph();
    graph.add_node(2, passage("two", Some(9)));
    assert!(!graph.validate());
    graph.add_node(9, passage("nine", None));
    assert!(graph.validate());
}

#[test]
fn a_fork_without_choices_fails_validation() {
    let mut graph = flag_graph();
    graph.add_node(
        5,
        Node::Fork {
            content: "nowhere",
            choices: Vec::new(),
        },
    );
    assert!(!graph.validate());
}

#[test]
fn a_cursor_off_the_graph_fails_validation() {
    let mut graph = flag_graph();
    graph.set_current_node(6);
    assert!(!graph.validate());
}

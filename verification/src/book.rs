//! The presentation lifecycle: which phase a beat of the story is in, what
//! each signal from the outside does to it, and what the presentation is
//! asked to do in return.

use crate::book_content::{
    get_book_content, in_step, lemma_story_step, node_sound, story_sound, story_start,
    BookContext, BookGraph, BookNode, Decoration, FontFace, Illustration, NodeChoice,
    SimpleContent, TextStyle, TextStyles, Tint,
};
use crate::utils::{process_string_asterisks, runs, texts};
use vstd::std_specs::iter::IteratorSpec;
use crate::graph::{after, allows, choices_of, ChoiceTrait, Graph, Node, Position, Step};
use vstd::prelude::*;

verus! {

/// The phase of presenting one beat.
#[derive(Clone, Copy, PartialEq, Eq, Structural, Debug)]
pub enum Lifecycle {
    /// The node under the cursor is about to be shown.
    ShowNode,
    /// A fork is on screen and waits for the reader to pick a choice.
    Choosing,
    /// A choice was taken and stays highlighted until the page is turned.
    Chosen,
    /// The page is turning.
    Transitioning,
    /// A simple node is on screen and waits for the page to be turned.
    SimpleNode,
    /// The story has reached an ending.
    End,
}

impl Lifecycle {
    /// The phase that follows this one when nothing else decides: the four
    /// phases of a fork in a circle, a simple node on to the page turn, and
    /// an ending back to showing.
    pub open spec fn following(self) -> Lifecycle {
        match self {
            Lifecycle::ShowNode => Lifecycle::Choosing,
            Lifecycle::Choosing => Lifecycle::Chosen,
            Lifecycle::Chosen => Lifecycle::Transitioning,
            Lifecycle::Transitioning => Lifecycle::ShowNode,
            Lifecycle::SimpleNode => Lifecycle::Transitioning,
            Lifecycle::End => Lifecycle::ShowNode,
        }
    }

    /// The phase that follows this one.
    pub fn next(&self) -> (phase: Self)
        ensures
            phase == self.following(),
    {
        match self {
            Lifecycle::ShowNode => Lifecycle::Choosing,
            Lifecycle::Choosing => Lifecycle::Chosen,
            Lifecycle::Chosen => Lifecycle::Transitioning,
            Lifecycle::Transitioning => Lifecycle::ShowNode,
            Lifecycle::SimpleNode => Lifecycle::Transitioning,
            Lifecycle::End => Lifecycle::ShowNode,
        }
    }
}

/// A signal from outside the story.
#[derive(Clone, Copy, PartialEq, Eq, Structural, Debug)]
pub enum Event {
    /// The host loop has come round: a node that waits to be shown is shown.
    Tick,
    /// The reader pressed the choice with this number.
    ChoicePressed(usize),
    /// The reader asked for the page to be turned.
    AdvancePressed,
    /// The page-turning animation has finished.
    TransitionFinished,
    /// The reader asked to start the story again.
    RestartPressed,
}

/// What kind of beat a node is.
#[derive(Clone, Copy, PartialEq, Eq, Structural, Debug)]
pub enum Beat {
    /// A branching node.
    Fork,
    /// A simple node with a successor.
    Passage,
    /// A simple node without a successor.
    Ending,
}

/// What a signal does to the graph.
#[derive(Clone, Copy, PartialEq, Eq, Structural, Debug)]
pub enum Move {
    /// Nothing.
    Stay,
    /// The cursor follows the simple node to its successor.
    Advance,
    /// The choice with this number is taken.
    Choose(usize),
    /// The story starts again.
    Reset,
}

/// What the presentation is asked to do.
#[derive(Clone, Copy, PartialEq, Eq, Structural, Debug)]
pub enum Command {
    /// Draw the node with this index, against the context as it stands.
    Show(usize),
    /// Draw choice `index` of fork `node` as the one that was taken.
    ShowChosen { node: usize, index: usize },
    /// Draw the arrow that turns the page.
    ShowArrow,
    /// Remove what was drawn for the beat.
    EraseEverything,
    /// Start the page-turning animation.
    StartTransition,
    /// Play the sound of a choice being written down.
    PlayScribble,
    /// Play the sound of a page being turned.
    PlayPageFlip,
    /// The story has ended.
    StoryEnded,
}

/// The phase after `event` arrives in phase `lifecycle` with a node of kind
/// `beat` under the cursor. A signal that the phase does not wait for
/// changes nothing.
pub open spec fn lifecycle_after(lifecycle: Lifecycle, beat: Beat, event: Event) -> Lifecycle {
    match (lifecycle, event) {
        (Lifecycle::ShowNode, Event::Tick) => match beat {
            Beat::Fork => Lifecycle::Choosing,
            Beat::Passage => Lifecycle::SimpleNode,
            Beat::Ending => Lifecycle::End,
        },
        (Lifecycle::Choosing, Event::ChoicePressed(_)) => Lifecycle::Chosen,
        (Lifecycle::Chosen, Event::AdvancePressed) => Lifecycle::Transitioning,
        (Lifecycle::SimpleNode, Event::AdvancePressed) => Lifecycle::Transitioning,
        (Lifecycle::Transitioning, Event::TransitionFinished) => Lifecycle::ShowNode,
        (Lifecycle::End, Event::RestartPressed) => Lifecycle::ShowNode,
        _ => lifecycle,
    }
}

/// What `event` does to the graph when it arrives in phase `lifecycle` with
/// a node of kind `beat` under the cursor.
pub open spec fn move_for(lifecycle: Lifecycle, beat: Beat, event: Event) -> Move {
    match (lifecycle, event) {
        (Lifecycle::ShowNode, Event::Tick) => match beat {
            Beat::Passage => Move::Advance,
            _ => Move::Stay,
        },
        (Lifecycle::Choosing, Event::ChoicePressed(index)) => Move::Choose(index),
        (Lifecycle::End, Event::RestartPressed) => Move::Reset,
        _ => Move::Stay,
    }
}

/// What the presentation is asked to do when `event` arrives in phase
/// `lifecycle` with node number `node`, of kind `beat`, under the cursor.
pub open spec fn commands_for(
    lifecycle: Lifecycle,
    node: usize,
    beat: Beat,
    event: Event,
) -> Seq<Command> {
    match (lifecycle, event) {
        (Lifecycle::ShowNode, Event::Tick) => match beat {
            Beat::Ending => seq![Command::StoryEnded, Command::Show(node)],
            _ => seq![Command::Show(node)],
        },
        (Lifecycle::Choosing, Event::ChoicePressed(index)) => seq![
            Command::PlayScribble,
            Command::EraseEverything,
            Command::ShowChosen { node, index },
            Command::ShowArrow,
        ],
        (Lifecycle::Chosen, Event::AdvancePressed) | (
            Lifecycle::SimpleNode,
            Event::AdvancePressed,
        ) => seq![Command::PlayPageFlip, Command::StartTransition, Command::EraseEverything],
        (Lifecycle::Transitioning, Event::TransitionFinished) => match beat {
            Beat::Passage => seq![Command::ShowArrow],
            _ => Seq::empty(),
        },
        (Lifecycle::End, Event::RestartPressed) => seq![Command::EraseEverything],
        _ => Seq::empty(),
    }
}

/// The kind of beat that `node` is.
pub open spec fn beat_of<Content, Simple, Choice>(node: Node<Content, Simple, Choice>) -> Beat {
    match node {
        Node::Fork { .. } => Beat::Fork,
        Node::Simple { next, .. } => if next is Some {
            Beat::Passage
        } else {
            Beat::Ending
        },
    }
}

/// The answer to one signal.
pub struct Reaction {
    pub lifecycle: Lifecycle,
    pub graph_move: Move,
    pub commands: Vec<Command>,
}

/// Decides what `event` does when it arrives in phase `lifecycle` with node
/// number `node`, of kind `beat`, under the cursor.
pub fn react(lifecycle: Lifecycle, node: usize, beat: Beat, event: Event) -> (reaction: Reaction)
    ensures
        reaction.lifecycle == lifecycle_after(lifecycle, beat, event),
        reaction.graph_move == move_for(lifecycle, beat, event),
        reaction.commands@ == commands_for(lifecycle, node, beat, event),
{
    let mut commands: Vec<Command> = Vec::new();
    let mut next = lifecycle;
    let mut graph_move = Move::Stay;
    match (lifecycle, event) {
        (Lifecycle::ShowNode, Event::Tick) => {
            match beat {
                Beat::Fork => {
                    next = Lifecycle::Choosing;
                },
                Beat::Passage => {
                    next = Lifecycle::SimpleNode;
                    graph_move = Move::Advance;
                },
                Beat::Ending => {
                    next = Lifecycle::End;
                    commands.push(Command::StoryEnded);
                },
            }
            commands.push(Command::Show(node));
        },
        (Lifecycle::Choosing, Event::ChoicePressed(index)) => {
            next = Lifecycle::Chosen;
            graph_move = Move::Choose(index);
            commands.push(Command::PlayScribble);
            commands.push(Command::EraseEverything);
            commands.push(Command::ShowChosen { node, index });
            commands.push(Command::ShowArrow);
        },
        (Lifecycle::Chosen, Event::AdvancePressed) | (
            Lifecycle::SimpleNode,
            Event::AdvancePressed,
        ) => {
            next = Lifecycle::Transitioning;
            commands.push(Command::PlayPageFlip);
            commands.push(Command::StartTransition);
            commands.push(Command::EraseEverything);
        },
        (Lifecycle::Transitioning, Event::TransitionFinished) => {
            next = Lifecycle::ShowNode;
            match beat {
                Beat::Passage => {
                    commands.push(Command::ShowArrow);
                },
                _ => {},
            }
        },
        (Lifecycle::End, Event::RestartPressed) => {
            next = Lifecycle::ShowNode;
            graph_move = Move::Reset;
            commands.push(Command::EraseEverything);
        },
        _ => {},
    }
    assert(commands@ =~= commands_for(lifecycle, node, beat, event));
    Reaction { lifecycle: next, graph_move, commands }
}

/// A phase together with the place in the story.
pub struct Stage<Context> {
    pub lifecycle: Lifecycle,
    pub at: Position<Context>,
}

/// Where `graph_move` leads from `at`. `fresh` is the context with which
/// the story starts again.
pub open spec fn position_after<Content, Simple, Choice: ChoiceTrait<Context>, Context>(
    nodes: Map<usize, Node<Content, Simple, Choice>>,
    fresh: Context,
    at: Position<Context>,
    graph_move: Move,
) -> Position<Context> {
    match graph_move {
        Move::Stay => at,
        Move::Advance => after(nodes, at, Step::Advance),
        Move::Choose(index) => after(nodes, at, Step::Choose(index)),
        Move::Reset => Position { node: 0, context: fresh },
    }
}

/// The stage after `event` arrives at `stage`. `fresh` is the context with
/// which the story starts again.
pub open spec fn stage_after<Content, Simple, Choice: ChoiceTrait<Context>, Context>(
    nodes: Map<usize, Node<Content, Simple, Choice>>,
    fresh: Context,
    stage: Stage<Context>,
    event: Event,
) -> Stage<Context> {
    let beat = beat_of(nodes[stage.at.node]);
    Stage {
        lifecycle: lifecycle_after(stage.lifecycle, beat, event),
        at: position_after(nodes, fresh, stage.at, move_for(stage.lifecycle, beat, event)),
    }
}

/// Whether phase and place fit together: the cursor is on a node, and on a
/// fork while a choice is awaited.
pub open spec fn fits<Content, Simple, Choice, Context>(
    nodes: Map<usize, Node<Content, Simple, Choice>>,
    stage: Stage<Context>,
) -> bool {
    &&& nodes.contains_key(stage.at.node)
    &&& stage.lifecycle is Choosing ==> nodes[stage.at.node] is Fork
}

/// Whether `event` can be answered at `stage`: a choice that is pressed
/// while one is awaited must exist and lead somewhere. Every other signal
/// can be answered.
pub open spec fn admits<Content, Simple, Choice: ChoiceTrait<Context>, Context>(
    nodes: Map<usize, Node<Content, Simple, Choice>>,
    stage: Stage<Context>,
    event: Event,
) -> bool {
    stage.lifecycle is Choosing && event is ChoicePressed ==> allows(
        nodes,
        stage.at,
        Step::Choose(event->0),
    )
}

/// Holds the phase that the presentation is in.
pub struct LifecycleManager(pub Lifecycle);

impl LifecycleManager {
    /// The phase and the place of `graph` as one stage.
    pub open spec fn stage<Content, Simple, Choice: ChoiceTrait<Context>, Context: Default>(
        &self,
        graph: &Graph<Content, Simple, Choice, Context>,
    ) -> Stage<Context> {
        Stage { lifecycle: self.0, at: graph.position() }
    }

    /// Answers one signal: moves the phase, moves `graph` as the signal
    /// asks, and returns what the presentation has to do, in order. A signal
    /// that the phase does not wait for changes nothing and asks for
    /// nothing.
    pub fn dispatch<Content, Simple, Choice: ChoiceTrait<Context>, Context: Default>(
        &mut self,
        graph: &mut Graph<Content, Simple, Choice, Context>,
        event: Event,
    ) -> (commands: Vec<Command>)
        requires
            old(graph).well_formed(),
            fits(old(graph).nodes(), old(self).stage(old(graph))),
            admits(old(graph).nodes(), old(self).stage(old(graph)), event),
        ensures
            final(self).stage(final(graph)) == stage_after(
                old(graph).nodes(),
                final(graph).context_value(),
                old(self).stage(old(graph)),
                event,
            ),
            move_for(old(self).0, beat_of(old(graph).nodes()[old(graph).current()]), event)
                is Reset ==> final(graph).at_start(),
            commands@ == commands_for(
                old(self).0,
                old(graph).current(),
                beat_of(old(graph).nodes()[old(graph).current()]),
                event,
            ),
            final(graph).nodes() == old(graph).nodes(),
            final(graph).well_formed(),
            fits(final(graph).nodes(), final(self).stage(final(graph))),
    {
        let node = graph.current_index();
        let beat = match graph.get_current_node() {
            Node::Fork { .. } => Beat::Fork,
            Node::Simple { next, .. } => if next.is_some() {
                Beat::Passage
            } else {
                Beat::Ending
            },
        };
        let reaction = react(self.0, node, beat, event);
        match reaction.graph_move {
            Move::Stay => {},
            Move::Advance => {
                graph.advance();
            },
            Move::Choose(index) => {
                graph.choose_option(index);
            },
            Move::Reset => {
                graph.reset();
            },
        }
        self.0 = reaction.lifecycle;
        reaction.commands
    }
}

/// The phases passed when `events` arrive one after the other at `stage`,
/// the phase of `stage` included.
pub open spec fn phases<Content, Simple, Choice: ChoiceTrait<Context>, Context>(
    nodes: Map<usize, Node<Content, Simple, Choice>>,
    fresh: Context,
    stage: Stage<Context>,
    events: Seq<Event>,
) -> Seq<Lifecycle>
    decreases events.len(),
{
    if events.len() == 0 {
        seq![stage.lifecycle]
    } else {
        seq![stage.lifecycle] + phases(
            nodes,
            fresh,
            stage_after(nodes, fresh, stage, events[0]),
            events.drop_first(),
        )
    }
}

/// `phases` with each run of one phase drawn together into a single entry.
pub open spec fn without_repeats(phases: Seq<Lifecycle>) -> Seq<Lifecycle>
    decreases phases.len(),
{
    if phases.len() <= 1 {
        phases
    } else if phases[0] == phases[1] {
        without_repeats(phases.drop_first())
    } else {
        seq![phases[0]] + without_repeats(phases.drop_first())
    }
}

/// The round that a fork goes through, from being shown to the next node
/// being shown.
pub open spec fn fork_round() -> Seq<Lifecycle> {
    seq![
        Lifecycle::ShowNode,
        Lifecycle::Choosing,
        Lifecycle::Chosen,
        Lifecycle::Transitioning,
        Lifecycle::ShowNode,
    ]
}

proof fn lemma_without_repeats_starts(phases: Seq<Lifecycle>)
    requires
        phases.len() >= 1,
    ensures
        without_repeats(phases).len() >= 1,
        without_repeats(phases)[0] == phases[0],
    decreases phases.len(),
{
    if phases.len() > 1 && phases[0] == phases[1] {
        lemma_without_repeats_starts(phases.drop_first());
    }
}

proof fn lemma_fork_round_from<Content, Simple, Choice: ChoiceTrait<Context>, Context>(
    nodes: Map<usize, Node<Content, Simple, Choice>>,
    fresh: Context,
    stage: Stage<Context>,
    events: Seq<Event>,
    place: int,
)
    requires
        0 <= place < 5,
        stage.lifecycle == fork_round()[place],
        place == 0 ==> nodes.contains_key(stage.at.node) && nodes[stage.at.node] is Fork,
    ensures
        forall|i: int|
            0 <= i < without_repeats(phases(nodes, fresh, stage, events)).len() && place + i < 5
                ==> #[trigger] without_repeats(phases(nodes, fresh, stage, events))[i]
                == fork_round()[place + i],
    decreases events.len(),
{
    let passed = phases(nodes, fresh, stage, events);
    lemma_without_repeats_starts(passed);
    if events.len() > 0 && place < 4 {
        let then = stage_after(nodes, fresh, stage, events[0]);
        let rest = phases(nodes, fresh, then, events.drop_first());
        assert(rest[0] == then.lifecycle);
        assert(passed.drop_first() =~= rest);
        assert(passed[1] == then.lifecycle);
        if then.lifecycle == stage.lifecycle {
            assert(then.at == stage.at);
            lemma_fork_round_from(nodes, fresh, then, events.drop_first(), place);
            assert(without_repeats(passed) == without_repeats(rest));
        } else {
            assert(then.lifecycle == fork_round()[place + 1]);
            lemma_fork_round_from(nodes, fresh, then, events.drop_first(), place + 1);
            assert forall|i: int|
                0 <= i < without_repeats(passed).len() && place + i < 5 implies #[trigger] without_repeats(
                passed,
            )[i] == fork_round()[place + i] by {
                if i > 0 {
                    assert(without_repeats(passed)[i] == without_repeats(rest)[i - 1]);
                }
            }
        }
    } else if events.len() == 0 {
        assert(without_repeats(passed) == passed);
    }
}

/// From a fork that is about to be shown, whatever signals arrive, the
/// phases change in one order only: a choice is awaited, a choice is taken,
/// the page turns, and the next node is about to be shown. Neither the page
/// turn nor the next showing is reached by any other way.
pub proof fn lemma_fork_round<Content, Simple, Choice: ChoiceTrait<Context>, Context>(
    nodes: Map<usize, Node<Content, Simple, Choice>>,
    fresh: Context,
    stage: Stage<Context>,
    events: Seq<Event>,
)
    requires
        stage.lifecycle is ShowNode,
        nodes.contains_key(stage.at.node),
        nodes[stage.at.node] is Fork,
    ensures
        forall|i: int|
            0 <= i < without_repeats(phases(nodes, fresh, stage, events)).len() && i < 5
                ==> #[trigger] without_repeats(phases(nodes, fresh, stage, events))[i]
                == fork_round()[i],
{
    lemma_fork_round_from(nodes, fresh, stage, events, 0);
}

/// Whether phase `lifecycle` waits for `event`.
pub open spec fn awaits(lifecycle: Lifecycle, event: Event) -> bool {
    match (lifecycle, event) {
        (Lifecycle::ShowNode, Event::Tick) => true,
        (Lifecycle::Choosing, Event::ChoicePressed(_)) => true,
        (Lifecycle::Chosen, Event::AdvancePressed) => true,
        (Lifecycle::SimpleNode, Event::AdvancePressed) => true,
        (Lifecycle::Transitioning, Event::TransitionFinished) => true,
        (Lifecycle::End, Event::RestartPressed) => true,
        _ => false,
    }
}

/// A signal that the phase does not wait for changes nothing and asks for
/// nothing. One that it waits for moves the phase on to the following one,
/// except that showing a simple node leads to its own phase, or to the end.
/// The graph is reset from the end only, and by a restart only.
pub proof fn lemma_signals(lifecycle: Lifecycle, node: usize, beat: Beat, event: Event)
    ensures
        !awaits(lifecycle, event) ==> {
            &&& lifecycle_after(lifecycle, beat, event) == lifecycle
            &&& move_for(lifecycle, beat, event) is Stay
            &&& commands_for(lifecycle, node, beat, event) == Seq::<Command>::empty()
        },
        awaits(lifecycle, event) && !(lifecycle is ShowNode && !(beat is Fork)) ==> lifecycle_after(
            lifecycle,
            beat,
            event,
        ) == lifecycle.following(),
        move_for(lifecycle, beat, event) is Reset ==> lifecycle is End && event is RestartPressed,
        move_for(lifecycle, beat, event) is Choose ==> lifecycle is Choosing
            && event is ChoicePressed,
        move_for(lifecycle, beat, event) is Advance ==> lifecycle is ShowNode && event is Tick
            && beat is Passage,
{
}

/// Showing a simple node without a successor ends the story. From the end
/// only a restart leads on: it brings the story back to node 0 with a fresh
/// context and to the phase in which a node is about to be shown. Every
/// other signal leaves the end as it is.
pub proof fn lemma_end_and_restart<Content, Simple, Choice: ChoiceTrait<Context>, Context>(
    nodes: Map<usize, Node<Content, Simple, Choice>>,
    fresh: Context,
    stage: Stage<Context>,
    event: Event,
)
    ensures
        stage.lifecycle is ShowNode && beat_of(nodes[stage.at.node]) is Ending ==> stage_after(
            nodes,
            fresh,
            stage,
            Event::Tick,
        ).lifecycle is End,
        stage.lifecycle is End && event is RestartPressed ==> stage_after(
            nodes,
            fresh,
            stage,
            event,
        ) == (Stage { lifecycle: Lifecycle::ShowNode, at: Position { node: 0, context: fresh } }),
        stage.lifecycle is End && !(event is RestartPressed) ==> stage_after(
            nodes,
            fresh,
            stage,
            event,
        ) == stage,
        stage_after(nodes, fresh, stage, event).lifecycle is End ==> stage.lifecycle is End || (
        stage.lifecycle is ShowNode && event is Tick && beat_of(nodes[stage.at.node]) is Ending),
{
}

/// The styles of a page that sets none of its own. Where a fork offers too
/// many options for the usual size the running text is smaller.
pub open spec fn default_styles(too_many_options: bool) -> TextStyles {
    let normal_font_size: u32 = if too_many_options {
        25
    } else {
        30
    };
    TextStyles {
        first_letter: TextStyle {
            color: Tint::Thousandths(235, 39, 337),
            font: FontFace::FirstLetter,
            font_size: 100,
        },
        normal: TextStyle {
            color: Tint::Bytes(0x3a, 0x1e, 0x0d),
            font: FontFace::Normal,
            font_size: normal_font_size,
        },
        highlighted: TextStyle {
            font: FontFace::Normal,
            font_size: normal_font_size,
            color: Tint::Thousandths(678, 47, 109),
        },
    }
}

/// The styles of a page that sets none of its own.
pub fn default_text_styles(too_many_options: bool) -> (styles: TextStyles)
    ensures
        styles == default_styles(too_many_options),
{
    let normal_font_size: u32 = if too_many_options {
        25
    } else {
        30
    };
    TextStyles {
        first_letter: TextStyle {
            color: Tint::Thousandths(235, 39, 337),
            font: FontFace::FirstLetter,
            font_size: 100,
        },
        normal: TextStyle {
            color: Tint::Bytes(0x3a, 0x1e, 0x0d),
            font: FontFace::Normal,
            font_size: normal_font_size,
        },
        highlighted: TextStyle {
            font: FontFace::Normal,
            font_size: normal_font_size,
            color: Tint::Thousandths(678, 47, 109),
        },
    }
}

/// A run of text with the style in which it is drawn.
pub struct TextSection {
    pub value: String,
    pub style: TextStyle,
}

/// The texts and styles that a vector of sections holds.
pub open spec fn sections(v: Seq<TextSection>) -> Seq<(Seq<char>, TextStyle)> {
    Seq::new(v.len(), |i: int| (v[i].value@, v[i].style))
}

/// The runs of `text` between asterisks, the first, third, ... in the
/// running style and the second, fourth, ... in the emphasised one.
pub open spec fn emphasised(text: Seq<char>, styles: TextStyles) -> Seq<(Seq<char>, TextStyle)> {
    Seq::new(
        runs(text).len(),
        |i: int|
            (
                runs(text)[i],
                if i % 2 == 0 {
                    styles.normal
                } else {
                    styles.highlighted
                },
            ),
    )
}

/// The first letter of `text` in the style of first letters, then the rest
/// with its emphasis.
pub open spec fn formatted(text: Seq<char>, styles: TextStyles) -> Seq<(Seq<char>, TextStyle)> {
    seq![(seq![text[0]], styles.first_letter)] + emphasised(text.drop_first(), styles)
}

/// Cuts `text` at its asterisks and gives the runs the running and the
/// emphasised style in turn, starting with the running one.
pub fn get_emphasised_text(text: &str, text_styles: &TextStyles) -> (result: Vec<TextSection>)
    ensures
        sections(result@) == emphasised(text@, *text_styles),
{
    let pieces = process_string_asterisks(text);
    let mut result: Vec<TextSection> = Vec::new();
    let mut index: usize = 0;
    while index < pieces.len()
        invariant
            index <= pieces.len(),
            texts(pieces@) == runs(text@),
            result.len() == index,
            forall|i: int|
                0 <= i < index ==> (#[trigger] result[i]).value@ == pieces[i]@ && result[i].style
                    == (if i % 2 == 0 {
                    text_styles.normal
                } else {
                    text_styles.highlighted
                }),
        decreases pieces.len() - index,
    {
        let style = if index % 2 == 0 {
            text_styles.normal
        } else {
            text_styles.highlighted
        };
        result.push(TextSection { value: pieces[index].clone(), style });
        index += 1;
    }
    proof {
        assert forall|i: int| 0 <= i < pieces.len() implies pieces[i]@ == runs(text@)[i] by {
            assert(texts(pieces@)[i] == pieces[i]@);
        }
        assert(sections(result@) =~= emphasised(text@, *text_styles));
    }
    result
}

/// Lays out the main text of a beat: its first letter stands alone in the
/// style of first letters, the rest follows with its emphasis. The text
/// must not be empty.
pub fn get_formatted_text(text: &str, text_styles: &TextStyles) -> (result: Vec<TextSection>)
    requires
        text@.len() > 0,
    ensures
        sections(result@) == formatted(text@, *text_styles),
{
    broadcast use vstd::string::group_string_axioms;

    let mut chars = text.chars();
    let mut first_letter = String::new();
    match chars.next() {
        Some(letter) => {
            first_letter.push(letter);
        },
        None => {},
    }
    let mut rest = String::new();
    let ghost mut left: Seq<char> = text@.drop_first();
    assert(rest@ + left =~= text@.drop_first());
    loop
        invariant
            left == chars.remaining(),
            rest@ + left == text@.drop_first(),
        ensures
            rest@ == text@.drop_first(),
        decreases left.len(),
    {
        let ghost before = rest@;
        match chars.next() {
            None => {
                assert(before + left =~= before);
                break ;
            },
            Some(c) => {
                rest.push(c);
                proof {
                    assert(rest@ + left.drop_first() =~= before + left);
                    left = left.drop_first();
                }
            },
        }
    }
    let mut result: Vec<TextSection> = Vec::new();
    result.push(TextSection { value: first_letter, style: text_styles.first_letter });
    let mut tail = get_emphasised_text(rest.as_str(), text_styles);
    let ghost tail_sections = sections(tail@);
    result.append(&mut tail);
    assert(sections(result@) =~= formatted(text@, *text_styles)) by {
        assert(first_letter@ =~= seq![text@[0]]);
        assert forall|i: int| 1 <= i < result.len() implies sections(result@)[i]
            == tail_sections[i - 1] by {}
    }
    result
}

/// One option of a fork as it is offered to the reader.
pub struct ChoicesOption {
    pub index: usize,
    pub image: Option<Illustration>,
    pub text: String,
}

/// An option together with how it is laid out: its label cut into runs,
/// and whether the picture stands before the label or after it.
pub struct OptionView {
    pub option: ChoicesOption,
    pub sections: Vec<TextSection>,
    pub image_first: bool,
}

/// What is drawn for a beat.
pub enum Page {
    /// A fork: its text on the first page, its options on the second.
    Fork { text: Vec<TextSection>, options: Vec<OptionView> },
    /// A simple beat: its text on the first page; the second text, the
    /// picture and the decorations on the second, with the button that
    /// ends the story where the beat is an ending.
    Simple {
        text: Vec<TextSection>,
        additional_text: &'static str,
        illustration: Option<Illustration>,
        decorations: Vec<Decoration>,
        end_button: bool,
    },
}

/// What is drawn for the option that the reader took.
pub struct ChosenOption {
    pub text: Vec<TextSection>,
    pub additional_text: &'static str,
    pub image: Option<Illustration>,
}

/// The styles in which `content` is drawn: its own, or else the default
/// ones.
pub open spec fn styles_of(content: SimpleContent) -> TextStyles {
    match content.text_styles {
        Some(styles) => styles,
        None => default_styles(false),
    }
}

/// A main text as it is laid out; an empty text gives nothing to draw.
pub open spec fn main_text(text: Seq<char>, styles: TextStyles) -> Seq<(Seq<char>, TextStyle)> {
    if text.len() == 0 {
        Seq::empty()
    } else {
        formatted(text, styles)
    }
}

/// Whether `node` can be shown in `context`: its texts and the labels of
/// its choices have values there.
pub open spec fn showable(node: BookNode, context: BookContext) -> bool {
    match node {
        Node::Fork { content, choices } => {
            &&& content.text.defined(&context)
            &&& forall|k: int|
                0 <= k < choices.len() ==> (#[trigger] choices[k]).text.defined(&context)
        },
        Node::Simple { content, extra, .. } => {
            &&& content.text.defined(&context)
            &&& extra.additional_text.defined(&context)
        },
    }
}

/// Whether `view` is option number `k` of `count`, made of `choice` in
/// `context`. With three options the label is set smaller; the picture
/// stands first in the options with an even number.
pub open spec fn offers(
    view: OptionView,
    k: int,
    count: nat,
    choice: NodeChoice,
    context: BookContext,
) -> bool {
    &&& view.option.index == k
    &&& view.option.image == choice.illustration
    &&& view.option.text@ == choice.text.value(&context)@
    &&& sections(view.sections@) == emphasised(
        choice.text.value(&context)@,
        default_styles(count == 3),
    )
    &&& view.image_first == (k % 2 == 0)
}

/// Whether `page` is what is drawn for `node` in `context`.
pub open spec fn shows(page: Page, node: BookNode, context: BookContext) -> bool {
    match node {
        Node::Fork { content, choices } => {
            &&& page matches Page::Fork { text, options }
            &&& sections(text@) == main_text(content.text.value(&context)@, styles_of(content))
            &&& options.len() == choices.len()
            &&& forall|k: int|
                0 <= k < choices.len() ==> offers(
                    #[trigger] options[k],
                    k,
                    choices.len() as nat,
                    choices[k],
                    context,
                )
        },
        Node::Simple { content, extra, next } => {
            &&& page matches Page::Simple {
                text,
                additional_text,
                illustration,
                decorations,
                end_button,
            }
            &&& sections(text@) == main_text(content.text.value(&context)@, styles_of(content))
            &&& additional_text@ == extra.additional_text.value(&context)@
            &&& illustration == extra.illustration
            &&& decorations@ == extra.decorations@
            &&& end_button == (next is None)
        },
    }
}

fn lay_out_main_text(content: &SimpleContent, context: &BookContext) -> (result: Vec<TextSection>)
    requires
        content.text.defined(context),
    ensures
        sections(result@) == main_text(content.text.value(context)@, styles_of(*content)),
{
    let text: &'static str = *content.text.evaluate(context);
    let styles = match content.text_styles {
        Some(styles) => styles,
        None => default_text_styles(false),
    };
    if text.is_empty() {
        let result: Vec<TextSection> = Vec::new();
        assert(sections(result@) =~= Seq::<(Seq<char>, TextStyle)>::empty());
        result
    } else {
        get_formatted_text(text, &styles)
    }
}

/// Works out what is drawn for `node` in `context`. The node must be
/// showable there.
pub fn show_node(node: &BookNode, context: &BookContext) -> (page: Page)
    requires
        showable(*node, *context),
    ensures
        shows(page, *node, *context),
{
    match node {
        Node::Fork { content, choices } => {
            let text = lay_out_main_text(content, context);
            let number_of_choices = choices.len();
            let styles = default_text_styles(number_of_choices == 3);
            let mut options: Vec<OptionView> = Vec::new();
            let mut index: usize = 0;
            while index < number_of_choices
                invariant
                    index <= number_of_choices,
                    number_of_choices == choices.len(),
                    options.len() == index,
                    styles == default_styles(number_of_choices == 3),
                    forall|k: int|
                        0 <= k < choices.len() ==> (#[trigger] choices[k]).text.defined(context),
                    forall|k: int|
                        0 <= k < index ==> offers(
                            #[trigger] options[k],
                            k,
                            choices.len() as nat,
                            choices[k],
                            *context,
                        ),
                decreases number_of_choices - index,
            {
                let choice = &choices[index];
                let label: &'static str = *choice.text.evaluate(context);
                options.push(
                    OptionView {
                        option: ChoicesOption {
                            index,
                            image: choice.illustration,
                            text: label.to_owned(),
                        },
                        sections: get_emphasised_text(label, &styles),
                        image_first: index % 2 == 0,
                    },
                );
                index += 1;
            }
            Page::Fork { text, options }
        },
        Node::Simple { content, extra, next } => {
            let text = lay_out_main_text(content, context);
            let additional_text: &'static str = *extra.additional_text.evaluate(context);
            let mut decorations: Vec<Decoration> = Vec::new();
            let mut index: usize = 0;
            while index < extra.decorations.len()
                invariant
                    index <= extra.decorations.len(),
                    decorations@ == extra.decorations@.subrange(0, index as int),
                decreases extra.decorations.len() - index,
            {
                decorations.push(extra.decorations[index]);
                assert(decorations@ =~= extra.decorations@.subrange(0, index + 1));
                index += 1;
            }
            assert(decorations@ =~= extra.decorations@);
            Page::Simple {
                text,
                additional_text,
                illustration: extra.illustration,
                decorations,
                end_button: next.is_none(),
            }
        },
    }
}

/// Whether `chosen` is what is drawn for option `index` of `fork` once it
/// was taken: the label `text` laid out as a main text in the styles of
/// the fork, and the second text and picture of the option.
pub open spec fn draws(
    chosen: ChosenOption,
    fork: BookNode,
    index: int,
    text: Seq<char>,
    context: BookContext,
) -> bool {
    &&& fork matches Node::Fork { content, choices }
    &&& sections(chosen.text@) == main_text(text, styles_of(content))
    &&& chosen.additional_text@ == choices[index].additional_text.value(&context)@
    &&& chosen.image == choices[index].illustration
}

/// Works out what is drawn for option `index` of `fork`, whose label is
/// `text`, once the reader took it. `fork` must be a fork that offers the
/// option, and the option's second text must have a value in `context`.
pub fn draw_chosen_option(fork: &BookNode, index: usize, text: &str, context: &BookContext) -> (chosen:
    ChosenOption)
    requires
        index < choices_of(*fork).len(),
        choices_of(*fork)[index as int].additional_text.defined(context),
    ensures
        draws(chosen, *fork, index as int, text@, *context),
{
    match fork {
        Node::Fork { content, choices } => {
            let styles = match content.text_styles {
                Some(styles) => styles,
                None => default_text_styles(false),
            };
            let laid_out = if text.is_empty() {
                let nothing: Vec<TextSection> = Vec::new();
                assert(sections(nothing@) =~= Seq::<(Seq<char>, TextStyle)>::empty());
                nothing
            } else {
                get_formatted_text(text, &styles)
            };
            let chosen_option = &choices[index];
            ChosenOption {
                text: laid_out,
                additional_text: *chosen_option.additional_text.evaluate(context),
                image: chosen_option.illustration,
            }
        },
        Node::Simple { .. } => ChosenOption {
            text: Vec::new(),
            additional_text: "",
            image: None,
        },
    }
}

/// The book in the reader's hands: the story and the phase of its
/// presentation, kept in step with each other.
pub struct Book {
    graph: BookGraph,
    manager: LifecycleManager,
}

impl Book {
    #[verifier::type_invariant]
    spec fn kept(self) -> bool {
        &&& story_sound(self.graph.nodes())
        &&& self.graph.well_formed()
        &&& in_step(self.graph.position())
        &&& fits(self.graph.nodes(), self.manager.stage(&self.graph))
    }

    /// The beats of the book.
    pub closed spec fn nodes(&self) -> Map<usize, BookNode> {
        self.graph.nodes()
    }

    /// The phase, and the place in the story.
    pub closed spec fn stage(&self) -> Stage<BookContext> {
        self.manager.stage(&self.graph)
    }

    /// The book, closed: the first beat is about to be shown and no
    /// decision is taken.
    pub fn new() -> (book: Self)
        ensures
            book.stage() == (Stage { lifecycle: Lifecycle::ShowNode, at: story_start() }),
            story_sound(book.nodes()),
    {
        Book { graph: get_book_content(), manager: LifecycleManager(Lifecycle::ShowNode) }
    }

    /// The phase that the presentation is in.
    pub fn lifecycle(&self) -> (lifecycle: Lifecycle)
        ensures
            lifecycle == self.stage().lifecycle,
    {
        self.manager.0
    }

    /// The story, to read from. It is sound and well formed, its place and
    /// context belong together, and a fork is under the cursor while a
    /// choice is awaited.
    pub fn graph(&self) -> (graph: &BookGraph)
        ensures
            graph.nodes() == self.nodes(),
            graph.position() == self.stage().at,
            graph.well_formed(),
            story_sound(graph.nodes()),
            in_step(graph.position()),
            fits(self.nodes(), self.stage()),
    {
        proof {
            use_type_invariant(self);
        }
        &self.graph
    }

    /// Whether `event` can be answered: a choice that is pressed while one
    /// is awaited must be one that the fork offers.
    pub open spec fn answers(&self, event: Event) -> bool {
        self.stage().lifecycle is Choosing && event is ChoicePressed ==> event->0 < choices_of(
            self.nodes()[self.stage().at.node],
        ).len()
    }

    /// Answers one signal, as `LifecycleManager::dispatch` does, and
    /// returns the book as the signal leaves it together with the answer:
    /// what the presentation has to do, the page to draw where a node is
    /// shown, and the option to draw where one was taken. The page is worked
    /// out before the cursor moves on; the chosen option's second text
    /// after the choice has changed the context. A press on a choice that
    /// the fork does not offer is answered with `None` and leaves the book
    /// as it was.
    pub fn dispatch(self, event: Event) -> (answer: (Self, Option<Answer>))
        ensures
            answer.0.nodes() == self.nodes(),
            answer.1 is Some <==> self.answers(event),
            !self.answers(event) ==> answer.0.stage() == self.stage(),
            self.answers(event) ==> {
                let node = self.nodes()[self.stage().at.node];
                let given = answer.1->0;
                &&& answer.0.stage() == stage_after(
                    self.nodes(),
                    BookContext::blank(),
                    self.stage(),
                    event,
                )
                &&& given.commands@ == commands_for(
                    self.stage().lifecycle,
                    self.stage().at.node,
                    beat_of(node),
                    event,
                )
                &&& given.page is Some <==> self.stage().lifecycle is ShowNode && event is Tick
                &&& given.page is Some ==> shows(given.page->0, node, self.stage().at.context)
                &&& given.chosen is Some <==> self.stage().lifecycle is Choosing
                    && event is ChoicePressed
                &&& given.chosen is Some ==> draws(
                    given.chosen->0,
                    node,
                    event->0 as int,
                    choices_of(node)[event->0 as int].text.value(&self.stage().at.context)@,
                    answer.0.stage().at.context,
                )
            },
    {
        proof {
            use_type_invariant(&self);
        }
        let ghost nodes = self.graph.nodes();
        let ghost at = self.graph.position();
        let ghost before = self.manager.0;
        assert(node_sound(at.node, nodes[at.node]));
        let shown = self.graph.current_index();
        let mut page: Option<Page> = None;
        let mut label: Option<&'static str> = None;
        match (self.manager.0, event) {
            (Lifecycle::ShowNode, Event::Tick) => {
                page = Some(show_node(self.graph.get_current_node(), self.graph.get_context()));
            },
            (Lifecycle::Choosing, Event::ChoicePressed(index)) => {
                match self.graph.get_current_node() {
                    Node::Fork { choices, .. } => {
                        if index >= choices.len() {
                            return (self, None);
                        }
                        proof {
                            lemma_story_step(nodes, at, Step::Choose(index));
                        }
                        label = Some(*choices[index].text.evaluate(self.graph.get_context()));
                    },
                    Node::Simple { .. } => {
                        return (self, None);
                    },
                }
            },
            _ => {},
        }
        let Book { mut graph, mut manager } = self;
        let commands = manager.dispatch(&mut graph, event);
        proof {
            match move_for(before, beat_of(nodes[at.node]), event) {
                Move::Stay => {},
                Move::Advance => {
                    lemma_story_step(nodes, at, Step::Advance);
                },
                Move::Choose(index) => {
                    lemma_story_step(nodes, at, Step::Choose(index));
                },
                Move::Reset => {},
            }
        }
        let chosen = match (label, event, graph.get_node(shown)) {
            (Some(text), Event::ChoicePressed(index), Some(fork)) => Some(
                draw_chosen_option(fork, index, text, graph.get_context()),
            ),
            _ => None,
        };
        (Book { graph, manager }, Some(Answer { commands, page, chosen }))
    }
}

/// The answer of the book to one signal.
pub struct Answer {
    /// What the presentation has to do, in order.
    pub commands: Vec<Command>,
    /// The page to draw, where the commands ask for a node to be shown.
    pub page: Option<Page>,
    /// The option to draw, where the commands ask for the chosen one.
    pub chosen: Option<ChosenOption>,
}

} // verus!

//! The story graph: numbered nodes, a cursor, and the context that choices
//! change and routes read.

use std::collections::HashMap;
use vstd::prelude::*;
use vstd::std_specs::iter::IteratorSpec;

verus! {

/// One beat of the story.
#[derive(Debug)]
pub enum Node<Content, Simple, Choice> {
    /// A linear beat: `next` is the beat that follows, or `None` at an ending.
    Simple { content: Content, extra: Simple, next: Option<usize> },
    /// A branching beat: the story goes on only through one of `choices`.
    Fork { content: Content, choices: Vec<Choice> },
}

/// The content of a node, whichever kind it is.
pub open spec fn content_of<Content, Simple, Choice>(
    node: Node<Content, Simple, Choice>,
) -> Content {
    match node {
        Node::Simple { content, .. } => content,
        Node::Fork { content, .. } => content,
    }
}

/// What a simple node shows beside its content; `None` for a fork.
pub open spec fn extra_of<Content, Simple, Choice>(node: Node<Content, Simple, Choice>) -> Option<
    Simple,
> {
    match node {
        Node::Simple { extra, .. } => Some(extra),
        Node::Fork { .. } => None,
    }
}

/// The node that follows a simple node; `None` for an ending and for a fork.
pub open spec fn successor<Content, Simple, Choice>(
    node: Node<Content, Simple, Choice>,
) -> Option<usize> {
    match node {
        Node::Simple { next, .. } => next,
        Node::Fork { .. } => None,
    }
}

/// The choices of a fork, in the order in which they are offered; none for a
/// simple node.
pub open spec fn choices_of<Content, Simple, Choice>(
    node: Node<Content, Simple, Choice>,
) -> Seq<Choice> {
    match node {
        Node::Simple { .. } => Seq::empty(),
        Node::Fork { choices, .. } => choices@,
    }
}

/// What a fork's choice does when it is taken.
pub trait ChoiceTrait<Context> {
    /// Whether the choice leads anywhere from `context`.
    spec fn routable(&self, context: &Context) -> bool;

    /// The node that the choice leads to from `context`.
    spec fn route(&self, context: &Context) -> usize;

    /// The context that taking the choice in `context` leaves behind.
    spec fn effect(&self, context: Context) -> Context;

    /// The node that the choice leads to from `context`. The choice must
    /// lead somewhere from there.
    fn next_node(&self, context: &Context) -> (next: usize)
        requires
            self.routable(context),
        ensures
            next == self.route(context),
    ;

    /// Changes `context` as taking the choice does.
    fn change_state(&self, context: &mut Context)
        ensures
            *final(context) == self.effect(*old(context)),
    ;
}

/// One move through the story.
pub enum Step {
    /// Follow a simple node to its successor.
    Advance,
    /// Take the choice with this number at a fork.
    Choose(usize),
}

/// Where a reader stands: on a node, with the context gathered so far.
pub struct Position<Context> {
    pub node: usize,
    pub context: Context,
}

/// Whether `step` can be taken at `at`: the node exists and is of the kind
/// that the step needs, a simple node has a successor, and the chosen
/// choice exists and leads somewhere once it has changed the context.
pub open spec fn allows<Content, Simple, Choice: ChoiceTrait<Context>, Context>(
    nodes: Map<usize, Node<Content, Simple, Choice>>,
    at: Position<Context>,
    step: Step,
) -> bool {
    &&& nodes.contains_key(at.node)
    &&& match step {
        Step::Advance => successor(nodes[at.node]) is Some,
        Step::Choose(index) => {
            let choices = choices_of(nodes[at.node]);
            &&& index < choices.len()
            &&& choices[index as int].routable(&choices[index as int].effect(at.context))
        },
    }
}

/// Where `step` leads from `at`. A choice first changes the context; the
/// changed context then decides the destination.
pub open spec fn after<Content, Simple, Choice: ChoiceTrait<Context>, Context>(
    nodes: Map<usize, Node<Content, Simple, Choice>>,
    at: Position<Context>,
    step: Step,
) -> Position<Context> {
    match step {
        Step::Advance => Position { node: successor(nodes[at.node])->0, context: at.context },
        Step::Choose(index) => {
            let choice = choices_of(nodes[at.node])[index as int];
            let context = choice.effect(at.context);
            Position { node: choice.route(&context), context }
        },
    }
}

/// The positions passed when `steps` are taken one after the other from
/// `at`, `at` included. The walk ends before the first step that cannot be
/// taken.
pub open spec fn walk<Content, Simple, Choice: ChoiceTrait<Context>, Context>(
    nodes: Map<usize, Node<Content, Simple, Choice>>,
    at: Position<Context>,
    steps: Seq<Step>,
) -> Seq<Position<Context>>
    decreases steps.len(),
{
    if steps.len() == 0 || !allows(nodes, at, steps[0]) {
        seq![at]
    } else {
        seq![at] + walk(nodes, after(nodes, at, steps[0]), steps.drop_first())
    }
}

/// Graph where nodes are added along with their indices. The starting node
/// has index 0.
pub struct Graph<Content, Simple, Choice, Context> {
    nodes: HashMap<usize, Node<Content, Simple, Choice>>,
    current_node: usize,
    pub context: Context,
}

impl<Content, Simple, Choice: ChoiceTrait<Context>, Context: Default> Graph<
    Content,
    Simple,
    Choice,
    Context,
> {
    /// The node table.
    pub closed spec fn nodes(&self) -> Map<usize, Node<Content, Simple, Choice>> {
        self.nodes@
    }

    /// The index of the node that the cursor is on.
    pub closed spec fn current(&self) -> usize {
        self.current_node
    }

    /// The context as it stands.
    pub closed spec fn context_value(&self) -> Context {
        self.context
    }

    /// Whether everything that `node` can lead to is in `nodes`: the
    /// successor of a simple node, and, from every context from which it
    /// leads anywhere, the destination of each choice of a fork. A fork
    /// offers at least one choice.
    pub open spec fn node_closed(
        nodes: Map<usize, Node<Content, Simple, Choice>>,
        node: Node<Content, Simple, Choice>,
    ) -> bool {
        match node {
            Node::Simple { next, .. } => next is Some ==> nodes.contains_key(next->0),
            Node::Fork { choices, .. } => {
                &&& choices.len() >= 1
                &&& forall|k: int, context: Context|
                    0 <= k < choices.len() && (#[trigger] choices[k].routable(&context))
                        ==> nodes.contains_key(choices[k].route(&context))
            },
        }
    }

    /// A graph is well formed when node 0 exists, the cursor is on a node,
    /// and every node is closed.
    pub open spec fn well_formed(&self) -> bool {
        &&& self.nodes().contains_key(0)
        &&& self.nodes().contains_key(self.current())
        &&& all_closed::<Content, Simple, Choice, Context>(self.nodes())
    }

    /// Where the graph stands.
    pub open spec fn position(&self) -> Position<Context> {
        Position { node: self.current(), context: self.context_value() }
    }

    /// Whether the graph stands at the start of the story: the cursor on
    /// node 0 and the context fresh.
    pub open spec fn at_start(&self) -> bool {
        &&& self.current() == 0
        &&& call_ensures(Context::default, (), self.context_value())
    }

    /// An empty graph with the cursor on node 0 and a fresh context.
    pub fn new() -> (graph: Self)
        ensures
            graph.nodes() == Map::<usize, Node<Content, Simple, Choice>>::empty(),
            graph.at_start(),
    {
        Self { nodes: HashMap::new(), current_node: 0, context: Context::default() }
    }

    /// Puts `node` at `index`, in place of any node that was there.
    pub fn add_node(&mut self, index: usize, node: Node<Content, Simple, Choice>)
        ensures
            final(self).nodes() == old(self).nodes().insert(index, node),
            final(self).current() == old(self).current(),
            final(self).context_value() == old(self).context_value(),
    {
        self.nodes.insert(index, node);
    }

    /// Whether `node` passes what can be seen of it without asking its
    /// choices: the successor of a simple node is in `nodes`, and a fork
    /// offers at least one choice.
    pub open spec fn node_in_shape(
        nodes: Map<usize, Node<Content, Simple, Choice>>,
        node: Node<Content, Simple, Choice>,
    ) -> bool {
        match node {
            Node::Simple { next, .. } => next is Some ==> nodes.contains_key(next->0),
            Node::Fork { choices, .. } => choices.len() >= 1,
        }
    }

    /// Whether the graph is in shape: node 0 exists, the cursor is on a
    /// node, and every node is in shape. A well-formed graph is in shape;
    /// what is left to well-formedness is where the choices lead.
    pub open spec fn in_shape(&self) -> bool {
        &&& self.nodes().contains_key(0)
        &&& self.nodes().contains_key(self.current())
        &&& forall|i: usize|
            self.nodes().contains_key(i) ==> Self::node_in_shape(
                self.nodes(),
                #[trigger] self.nodes()[i],
            )
    }

    /// Looks the whole graph over and says whether it is in shape.
    pub fn validate(&self) -> (sound: bool)
        ensures
            sound == self.in_shape(),
    {
        broadcast use vstd::std_specs::hash::group_hash_axioms;

        if !self.nodes.contains_key(&0) || !self.nodes.contains_key(&self.current_node) {
            return false;
        }
        let ghost nodes = self.nodes@;
        let ghost all = self.nodes.values().remaining();
        let ghost mut done: int = 0;
        for node in it: self.nodes.values()
            invariant
                nodes == self.nodes@,
                all == it.seq(),
                done == it.index(),
                all.unref().to_set() == nodes.values(),
                forall|j: int| 0 <= j < done ==> Self::node_in_shape(nodes, *(#[trigger] all[j])),
        {
            let passes = match node {
                Node::Simple { next: Some(next), .. } => self.nodes.contains_key(next),
                Node::Simple { next: None, .. } => true,
                Node::Fork { choices, .. } => choices.len() >= 1,
            };
            assert(node == all[done]);
            if !passes {
                proof {
                    assert(all.unref()[done] == *node);
                    assert(all.unref().to_set().contains(*node));
                    assert(nodes.values().contains(*node));
                }
                return false;
            }
            proof {
                done = done + 1;
            }
        }
        assert(done == all.len());
        proof {
            assert forall|i: usize| nodes.contains_key(i) implies Self::node_in_shape(
                nodes,
                #[trigger] nodes[i],
            ) by {
                assert(nodes.values().contains(nodes[i]));
                assert(all.unref().to_set().contains(nodes[i]));
                let j = choose|j: int| 0 <= j < all.unref().len() && all.unref()[j] == nodes[i];
                assert(*all[j] == nodes[i]);
            }
        }
        true
    }

    /// The node under the cursor.
    pub fn get_current_node(&self) -> (node: &Node<Content, Simple, Choice>)
        requires
            self.nodes().contains_key(self.current()),
        ensures
            *node == self.nodes()[self.current()],
    {
        self.nodes.get(&self.current_node).unwrap()
    }

    /// The index of the node under the cursor.
    pub fn current_index(&self) -> (index: usize)
        ensures
            index == self.current(),
    {
        self.current_node
    }

    /// The node at `index`, if there is one.
    pub fn get_node(&self, index: usize) -> (node: Option<&Node<Content, Simple, Choice>>)
        ensures
            node is Some <==> self.nodes().contains_key(index),
            node is Some ==> *node->0 == self.nodes()[index],
    {
        self.nodes.get(&index)
    }

    /// The context as it stands.
    pub fn get_context(&self) -> (context: &Context)
        ensures
            *context == self.context_value(),
    {
        &self.context
    }

    /// What the simple node under the cursor shows beside its content;
    /// `None` on a fork.
    pub fn get_extra(&self) -> (extra: Option<&Simple>)
        requires
            self.nodes().contains_key(self.current()),
        ensures
            extra is Some <==> extra_of(self.nodes()[self.current()]) is Some,
            extra is Some ==> *extra->0 == extra_of(self.nodes()[self.current()])->0,
    {
        match self.get_current_node() {
            Node::Simple { extra, .. } => Some(extra),
            Node::Fork { .. } => None,
        }
    }

    /// Moves the cursor to `index`.
    pub fn set_current_node(&mut self, index: usize)
        ensures
            final(self).current() == index,
            final(self).nodes() == old(self).nodes(),
            final(self).context_value() == old(self).context_value(),
    {
        self.current_node = index;
    }

    /// Back to the start of the story: the cursor on node 0, the context
    /// fresh.
    pub fn reset(&mut self)
        ensures
            final(self).at_start(),
            final(self).nodes() == old(self).nodes(),
            old(self).well_formed() ==> final(self).well_formed(),
    {
        self.current_node = 0;
        self.context = Context::default();
    }

    /// The content of the node under the cursor.
    pub fn get_content(&mut self) -> (content: &Content)
        requires
            old(self).nodes().contains_key(old(self).current()),
        ensures
            *content == content_of(old(self).nodes()[old(self).current()]),
            *final(self) == *old(self),
    {
        match self.get_current_node() {
            Node::Simple { content, .. } => content,
            Node::Fork { content, .. } => content,
        }
    }

    /// Returns whether or not the current node is a fork.
    pub fn is_fork(&mut self) -> (fork: bool)
        requires
            old(self).nodes().contains_key(old(self).current()),
        ensures
            fork == (old(self).nodes()[old(self).current()] is Fork),
            *final(self) == *old(self),
    {
        matches!(self.get_current_node(), Node::Fork { .. })
    }

    /// Moves the cursor along a linear beat. The current node must be
    /// simple and must have a successor.
    pub fn advance(&mut self)
        requires
            allows(old(self).nodes(), old(self).position(), Step::Advance),
        ensures
            final(self).current() == successor(old(self).nodes()[old(self).current()])->0,
            final(self).nodes() == old(self).nodes(),
            final(self).context_value() == old(self).context_value(),
            final(self).position() == after(old(self).nodes(), old(self).position(), Step::Advance),
            old(self).well_formed() ==> final(self).well_formed(),
    {
        match self.get_current_node() {
            Node::Simple { next, .. } => {
                if let Some(next_index) = next {
                    self.current_node = *next_index;
                }
            },
            _ => {},
        }
    }

    /// Takes choice number `index` of the fork under the cursor: first the
    /// choice changes the context, then the changed context decides where
    /// the cursor goes. The current node must be a fork.
    pub fn choose_option(&mut self, index: usize)
        requires
            allows(old(self).nodes(), old(self).position(), Step::Choose(index)),
        ensures
            final(self).context_value() == choices_of(
                old(self).nodes()[old(self).current()],
            )[index as int].effect(old(self).context_value()),
            final(self).current() == choices_of(
                old(self).nodes()[old(self).current()],
            )[index as int].route(&final(self).context_value()),
            final(self).nodes() == old(self).nodes(),
            final(self).position() == after(
                old(self).nodes(),
                old(self).position(),
                Step::Choose(index),
            ),
            old(self).well_formed() ==> final(self).well_formed(),
    {
        let next_node = match self.nodes.get(&self.current_node) {
            Some(Node::Fork { choices, .. }) => {
                let choice = &choices[index];
                choice.change_state(&mut self.context);
                choice.next_node(&self.context)
            },
            _ => self.current_node,
        };
        self.current_node = next_node;
    }
}

/// Whether every node of `nodes` is closed.
pub open spec fn all_closed<Content, Simple, Choice: ChoiceTrait<Context>, Context: Default>(
    nodes: Map<usize, Node<Content, Simple, Choice>>,
) -> bool {
    forall|i: usize| #[trigger]
        nodes.contains_key(i) ==> Graph::<Content, Simple, Choice, Context>::node_closed(
            nodes,
            nodes[i],
        )
}

/// Whether `holds` goes on holding after every step that can be taken from
/// a position at which it holds.
pub open spec fn kept_by_steps<Content, Simple, Choice: ChoiceTrait<Context>, Context>(
    nodes: Map<usize, Node<Content, Simple, Choice>>,
    holds: spec_fn(Position<Context>) -> bool,
) -> bool {
    forall|at: Position<Context>, step: Step|
        holds(at) && #[trigger] allows(nodes, at, step) ==> holds(after(nodes, at, step))
}

/// In a graph whose nodes are all closed, a walk that starts on a node of
/// the graph never leaves the graph.
pub proof fn lemma_walk_stays_in_graph<
    Content,
    Simple,
    Choice: ChoiceTrait<Context>,
    Context: Default,
>(nodes: Map<usize, Node<Content, Simple, Choice>>, at: Position<Context>, steps: Seq<Step>)
    requires
        all_closed::<Content, Simple, Choice, Context>(nodes),
        nodes.contains_key(at.node),
    ensures
        forall|i: int|
            0 <= i < walk(nodes, at, steps).len() ==> nodes.contains_key(
                (#[trigger] walk(nodes, at, steps)[i]).node,
            ),
    decreases steps.len(),
{
    if steps.len() == 0 || !allows(nodes, at, steps[0]) {
    } else {
        let then = after(nodes, at, steps[0]);
        assert(nodes.contains_key(then.node)) by {
            assert(Graph::<Content, Simple, Choice, Context>::node_closed(nodes, nodes[at.node]));
            match steps[0] {
                Step::Advance => {},
                Step::Choose(index) => {
                    let choice = choices_of(nodes[at.node])[index as int];
                    assert(choice.routable(&choice.effect(at.context)));
                },
            }
        }
        lemma_walk_stays_in_graph::<Content, Simple, Choice, Context>(
            nodes,
            then,
            steps.drop_first(),
        );
        let rest = walk(nodes, then, steps.drop_first());
        assert forall|i: int| 0 <= i < walk(nodes, at, steps).len() implies nodes.contains_key(
            (#[trigger] walk(nodes, at, steps)[i]).node,
        ) by {
            if i > 0 {
                assert(walk(nodes, at, steps)[i] == rest[i - 1]);
            }
        }
    }
}

/// What holds at the start of a walk and is kept by every step holds at
/// every position of the walk.
pub proof fn lemma_kept_along_walk<Content, Simple, Choice: ChoiceTrait<Context>, Context>(
    nodes: Map<usize, Node<Content, Simple, Choice>>,
    holds: spec_fn(Position<Context>) -> bool,
    at: Position<Context>,
    steps: Seq<Step>,
)
    requires
        holds(at),
        kept_by_steps(nodes, holds),
    ensures
        forall|i: int|
            0 <= i < walk(nodes, at, steps).len() ==> holds(#[trigger] walk(nodes, at, steps)[i]),
    decreases steps.len(),
{
    if steps.len() == 0 || !allows(nodes, at, steps[0]) {
    } else {
        let then = after(nodes, at, steps[0]);
        lemma_kept_along_walk(nodes, holds, then, steps.drop_first());
        let rest = walk(nodes, then, steps.drop_first());
        assert forall|i: int| 0 <= i < walk(nodes, at, steps).len() implies holds(
            #[trigger] walk(nodes, at, steps)[i],
        ) by {
            if i > 0 {
                assert(walk(nodes, at, steps)[i] == rest[i - 1]);
            }
        }
    }
}

/// A graph that was reset reads like a fresh one: where the context type
/// has a single default value, two graphs with the same nodes that both
/// stand at the start pass the same positions under the same steps.
pub proof fn lemma_reset_replays<Content, Simple, Choice: ChoiceTrait<Context>, Context: Default>(
    fresh: Graph<Content, Simple, Choice, Context>,
    again: Graph<Content, Simple, Choice, Context>,
    steps: Seq<Step>,
)
    requires
        fresh.nodes() == again.nodes(),
        fresh.at_start(),
        again.at_start(),
        forall|a: Context, b: Context|
            call_ensures(Context::default, (), a) && call_ensures(Context::default, (), b) ==> a
                == b,
    ensures
        walk(fresh.nodes(), fresh.position(), steps) == walk(
            again.nodes(),
            again.position(),
            steps,
        ),
{
}

/// A well-formed graph is in shape.
pub proof fn lemma_well_formed_in_shape<
    Content,
    Simple,
    Choice: ChoiceTrait<Context>,
    Context: Default,
>(graph: Graph<Content, Simple, Choice, Context>)
    requires
        graph.well_formed(),
    ensures
        graph.in_shape(),
{
    assert forall|i: usize| graph.nodes().contains_key(i) implies Graph::<
        Content,
        Simple,
        Choice,
        Context,
    >::node_in_shape(graph.nodes(), #[trigger] graph.nodes()[i]) by {
        assert(Graph::<Content, Simple, Choice, Context>::node_closed(
            graph.nodes(),
            graph.nodes()[i],
        ));
    }
}

} // verus!

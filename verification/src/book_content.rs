//! The story of the book: what the reader's decisions are remembered as,
//! how texts and routes depend on them, and the table of beats itself.

use crate::book::{default_styles, default_text_styles};
use crate::graph::{
    after, all_closed, allows, choices_of, lemma_kept_along_walk, successor, walk, ChoiceTrait,
    Graph, Node, Position, Step,
};
use vstd::prelude::*;

verus! {

/// A decision that the story remembers.
#[derive(Clone, Copy, PartialEq, Eq, Structural, Debug)]
pub enum Flag {
    SantjordiDisfrazado,
    DragonNormal,
    PrincesaGuerrera,
    FanDragones,
    PrincesaRechazada,
    EncuentraSantjordiDisfrazado,
    EncuentraSantjordiFlipado,
    EncuentraSantjordiEnamorado,
    EntrarCueva,
    SalirCueva,
}

/// The decisions taken so far, one flag each. A flag that was raised stays
/// raised until the story starts again.
#[derive(Clone, Copy, Debug)]
pub struct BookContext {
    santjordi_disfrazado: bool,
    dragon_normal: bool,
    princesa_guerrera: bool,
    fan_dragones: bool,
    princesa_rechazada: bool,
    encuentra_santjordi_disfrazado: bool,
    encuentra_santjordi_flipado: bool,
    encuentra_santjordi_enamorado: bool,
    entrar_cueva: bool,
    salir_cueva: bool,
}

impl BookContext {
    /// Whether `flag` is raised.
    pub closed spec fn has(self, flag: Flag) -> bool {
        match flag {
            Flag::SantjordiDisfrazado => self.santjordi_disfrazado,
            Flag::DragonNormal => self.dragon_normal,
            Flag::PrincesaGuerrera => self.princesa_guerrera,
            Flag::FanDragones => self.fan_dragones,
            Flag::PrincesaRechazada => self.princesa_rechazada,
            Flag::EncuentraSantjordiDisfrazado => self.encuentra_santjordi_disfrazado,
            Flag::EncuentraSantjordiFlipado => self.encuentra_santjordi_flipado,
            Flag::EncuentraSantjordiEnamorado => self.encuentra_santjordi_enamorado,
            Flag::EntrarCueva => self.entrar_cueva,
            Flag::SalirCueva => self.salir_cueva,
        }
    }

    /// The context with no flag raised.
    pub closed spec fn blank() -> BookContext {
        BookContext {
            santjordi_disfrazado: false,
            dragon_normal: false,
            princesa_guerrera: false,
            fan_dragones: false,
            princesa_rechazada: false,
            encuentra_santjordi_disfrazado: false,
            encuentra_santjordi_flipado: false,
            encuentra_santjordi_enamorado: false,
            entrar_cueva: false,
            salir_cueva: false,
        }
    }

    /// This context with `flag` raised.
    pub closed spec fn with(self, flag: Flag) -> BookContext {
        match flag {
            Flag::SantjordiDisfrazado => BookContext { santjordi_disfrazado: true, ..self },
            Flag::DragonNormal => BookContext { dragon_normal: true, ..self },
            Flag::PrincesaGuerrera => BookContext { princesa_guerrera: true, ..self },
            Flag::FanDragones => BookContext { fan_dragones: true, ..self },
            Flag::PrincesaRechazada => BookContext { princesa_rechazada: true, ..self },
            Flag::EncuentraSantjordiDisfrazado => BookContext {
                encuentra_santjordi_disfrazado: true,
                ..self
            },
            Flag::EncuentraSantjordiFlipado => BookContext {
                encuentra_santjordi_flipado: true,
                ..self
            },
            Flag::EncuentraSantjordiEnamorado => BookContext {
                encuentra_santjordi_enamorado: true,
                ..self
            },
            Flag::EntrarCueva => BookContext { entrar_cueva: true, ..self },
            Flag::SalirCueva => BookContext { salir_cueva: true, ..self },
        }
    }

    /// No flag is raised in the blank context, and raising a flag raises
    /// that flag and leaves the others as they were.
    pub proof fn lemma_flags(self, flag: Flag, raised: Flag)
        ensures
            !BookContext::blank().has(flag),
            self.with(raised).has(flag) == (flag == raised || self.has(flag)),
    {
    }

    /// Two contexts with the same flags raised are the same context.
    pub proof fn lemma_same_flags(self, other: BookContext)
        requires
            forall|flag: Flag| self.has(flag) == other.has(flag),
        ensures
            self == other,
    {
        assert(self.has(Flag::SantjordiDisfrazado) == other.has(Flag::SantjordiDisfrazado));
        assert(self.has(Flag::DragonNormal) == other.has(Flag::DragonNormal));
        assert(self.has(Flag::PrincesaGuerrera) == other.has(Flag::PrincesaGuerrera));
        assert(self.has(Flag::FanDragones) == other.has(Flag::FanDragones));
        assert(self.has(Flag::PrincesaRechazada) == other.has(Flag::PrincesaRechazada));
        assert(self.has(Flag::EncuentraSantjordiDisfrazado) == other.has(
            Flag::EncuentraSantjordiDisfrazado,
        ));
        assert(self.has(Flag::EncuentraSantjordiFlipado) == other.has(
            Flag::EncuentraSantjordiFlipado,
        ));
        assert(self.has(Flag::EncuentraSantjordiEnamorado) == other.has(
            Flag::EncuentraSantjordiEnamorado,
        ));
        assert(self.has(Flag::EntrarCueva) == other.has(Flag::EntrarCueva));
        assert(self.has(Flag::SalirCueva) == other.has(Flag::SalirCueva));
    }

    /// Whether `flag` is raised.
    pub fn get(&self, flag: Flag) -> (raised: bool)
        ensures
            raised == self.has(flag),
    {
        match flag {
            Flag::SantjordiDisfrazado => self.santjordi_disfrazado,
            Flag::DragonNormal => self.dragon_normal,
            Flag::PrincesaGuerrera => self.princesa_guerrera,
            Flag::FanDragones => self.fan_dragones,
            Flag::PrincesaRechazada => self.princesa_rechazada,
            Flag::EncuentraSantjordiDisfrazado => self.encuentra_santjordi_disfrazado,
            Flag::EncuentraSantjordiFlipado => self.encuentra_santjordi_flipado,
            Flag::EncuentraSantjordiEnamorado => self.encuentra_santjordi_enamorado,
            Flag::EntrarCueva => self.entrar_cueva,
            Flag::SalirCueva => self.salir_cueva,
        }
    }

    /// Raises `flag`.
    pub fn raise(&mut self, flag: Flag)
        ensures
            *final(self) == old(self).with(flag),
    {
        match flag {
            Flag::SantjordiDisfrazado => {
                self.santjordi_disfrazado = true;
            },
            Flag::DragonNormal => {
                self.dragon_normal = true;
            },
            Flag::PrincesaGuerrera => {
                self.princesa_guerrera = true;
            },
            Flag::FanDragones => {
                self.fan_dragones = true;
            },
            Flag::PrincesaRechazada => {
                self.princesa_rechazada = true;
            },
            Flag::EncuentraSantjordiDisfrazado => {
                self.encuentra_santjordi_disfrazado = true;
            },
            Flag::EncuentraSantjordiFlipado => {
                self.encuentra_santjordi_flipado = true;
            },
            Flag::EncuentraSantjordiEnamorado => {
                self.encuentra_santjordi_enamorado = true;
            },
            Flag::EntrarCueva => {
                self.entrar_cueva = true;
            },
            Flag::SalirCueva => {
                self.salir_cueva = true;
            },
        }
    }
}

impl Default for BookContext {
    fn default() -> (context: Self)
        ensures
            context == BookContext::blank(),
    {
        BookContext {
            santjordi_disfrazado: false,
            dragon_normal: false,
            princesa_guerrera: false,
            fan_dragones: false,
            princesa_rechazada: false,
            encuentra_santjordi_disfrazado: false,
            encuentra_santjordi_flipado: false,
            encuentra_santjordi_enamorado: false,
            entrar_cueva: false,
            salir_cueva: false,
        }
    }
}

/// One alternative of a value that depends on the context: `value` is
/// taken when `flag` is raised.
#[derive(Debug)]
pub struct Case<T> {
    pub flag: Flag,
    pub value: T,
}

/// A value that may depend on the decisions taken so far.
#[derive(Debug)]
pub enum WithContext<T> {
    /// The same value whatever was decided.
    Always(T),
    /// The value of the first case whose flag is raised. Where none is
    /// raised there is no value: the story never gets there.
    FirstOf(Vec<Case<T>>),
}

/// The index, at or after `from`, of the first case whose flag is raised in
/// `context`; `cases.len()` if there is none.
pub open spec fn first_raised<T>(cases: Seq<Case<T>>, context: BookContext, from: int) -> int
    decreases cases.len() - from,
{
    if from < 0 || from >= cases.len() {
        cases.len() as int
    } else if context.has(cases[from].flag) {
        from
    } else {
        first_raised(cases, context, from + 1)
    }
}

/// `first_raised` lies between `from` and the number of cases; the case it
/// points at has its flag raised, and no case before it, from `from` on,
/// has.
pub proof fn lemma_first_raised<T>(cases: Seq<Case<T>>, context: BookContext, from: int)
    requires
        0 <= from <= cases.len(),
    ensures
        from <= first_raised(cases, context, from) <= cases.len(),
        first_raised(cases, context, from) < cases.len() ==> context.has(
            cases[first_raised(cases, context, from)].flag,
        ),
        forall|i: int|
            from <= i < first_raised(cases, context, from) ==> !context.has(
                (#[trigger] cases[i]).flag,
            ),
    decreases cases.len() - from,
{
    if from < cases.len() && !context.has(cases[from].flag) {
        lemma_first_raised(cases, context, from + 1);
    }
}

impl<T> WithContext<T> {
    /// Whether there is a value in `context`.
    pub open spec fn defined(&self, context: &BookContext) -> bool {
        match self {
            WithContext::Always(_) => true,
            WithContext::FirstOf(cases) => first_raised(cases@, *context, 0) < cases.len(),
        }
    }

    /// The value in `context`, where there is one.
    pub open spec fn value(&self, context: &BookContext) -> T {
        match self {
            WithContext::Always(value) => *value,
            WithContext::FirstOf(cases) => cases[first_raised(cases@, *context, 0)].value,
        }
    }

    /// Whether there is a value in `context`.
    pub fn is_defined(&self, context: &BookContext) -> (defined: bool)
        ensures
            defined == self.defined(context),
    {
        match self {
            WithContext::Always(_) => true,
            WithContext::FirstOf(cases) => Self::find(cases, context) < cases.len(),
        }
    }

    /// The value in `context`. There must be one.
    pub fn evaluate(&self, context: &BookContext) -> (value: &T)
        requires
            self.defined(context),
        ensures
            *value == self.value(context),
    {
        match self {
            WithContext::Always(value) => value,
            WithContext::FirstOf(cases) => {
                let index = Self::find(cases, context);
                &cases[index].value
            },
        }
    }

    /// The value of the first of three cases whose flag is raised.
    pub fn one_of(first: Case<T>, second: Case<T>, third: Case<T>) -> (value: Self)
        ensures
            value matches WithContext::FirstOf(cases) && cases@ == seq![first, second, third],
            forall|context: BookContext| #[trigger]
                value.defined(&context) == (context.has(first.flag) || context.has(second.flag)
                    || context.has(third.flag)),
            forall|context: BookContext|
                value.defined(&context) ==> #[trigger] value.value(&context) == (if context.has(
                    first.flag,
                ) {
                    first.value
                } else if context.has(second.flag) {
                    second.value
                } else {
                    third.value
                }),
    {
        let mut cases: Vec<Case<T>> = Vec::new();
        cases.push(first);
        cases.push(second);
        cases.push(third);
        proof {
            reveal_with_fuel(first_raised, 4);
            assert(cases@ =~= seq![first, second, third]);
        }
        WithContext::FirstOf(cases)
    }

    fn find(cases: &Vec<Case<T>>, context: &BookContext) -> (index: usize)
        ensures
            index == first_raised(cases@, *context, 0),
    {
        let mut index: usize = 0;
        while index < cases.len() && !context.get(cases[index].flag)
            invariant
                index <= cases.len(),
                first_raised(cases@, *context, 0) == first_raised(cases@, *context, index as int),
            decreases cases.len() - index,
        {
            index += 1;
        }
        index
    }
}

/// What taking a choice does to the context.
#[derive(Clone, Copy, PartialEq, Eq, Structural, Debug)]
pub enum StateChange {
    /// The context stays as it is.
    Nothing,
    /// The flag is raised.
    Raise(Flag),
}

impl StateChange {
    /// The context that the change makes of `context`.
    pub open spec fn applied(self, context: BookContext) -> BookContext {
        match self {
            StateChange::Nothing => context,
            StateChange::Raise(flag) => context.with(flag),
        }
    }

    /// Changes `context`.
    pub fn apply(&self, context: &mut BookContext)
        ensures
            *final(context) == self.applied(*old(context)),
    {
        match self {
            StateChange::Nothing => {},
            StateChange::Raise(flag) => {
                context.raise(*flag);
            },
        }
    }
}

/// The pictures that illustrate the story.
#[derive(Clone, Copy, PartialEq, Eq, Structural, Debug)]
pub enum Illustration {
    DragonAndJordiDragonGoToScotland,
    DragonChasesJordiDragon,
    DragonReturnsFromHolidays,
    DragonWithCow,
    DragonXJordiDragon,
    DragonXSantJordi,
    JordiDragonAcceptsPrincess,
    JordiDragonConfesses,
    JordiDragonRejectsPrincess,
    JordiDragonWithCow,
    KingPicksPrincess,
    NormalDragon,
    PrincessAnalyzingJordiDragon,
    PrincessDragon,
    PrincessExcitedToBePicked,
    PrincessGoKillDragon,
    PrincessPunchesJordiDragon,
    PrincessThinking,
    PrincessUnmasksJordiDragon,
    PrincessXDragon,
    SantJordiDisguisedAsDragon,
    SantJordiFightingAlone,
    SantJordiMakingMarshmallows,
    SantJordiRoses,
    SantJordiWarrior,
    SantJordiWithDragonHead,
    SensualDragonComingOutOfCave,
}

/// The small pictures that decorate a page.
#[derive(Clone, Copy, PartialEq, Eq, Structural, Debug)]
pub enum Decoration {
    RabbitTroubadour,
    GreenFancyUnderline,
    Cat,
    SnailBoy,
}

/// The typefaces of the book.
#[derive(Clone, Copy, PartialEq, Eq, Structural, Debug)]
pub enum FontFace {
    Normal,
    FirstLetter,
}

/// A colour, in one of the two ways in which the book writes colours down.
#[derive(Clone, Copy, PartialEq, Eq, Structural, Debug)]
pub enum Tint {
    /// Red, green and blue in thousandths of the full intensity.
    Thousandths(u16, u16, u16),
    /// Red, green and blue as bytes, 255 being the full intensity.
    Bytes(u8, u8, u8),
}

/// How a run of text is drawn. The size is in points.
#[derive(Clone, Copy, PartialEq, Eq, Structural, Debug)]
pub struct TextStyle {
    pub color: Tint,
    pub font: FontFace,
    pub font_size: u32,
}

/// The three styles of a page: running text, emphasised text, and the
/// large first letter.
#[derive(Clone, Copy, PartialEq, Eq, Structural, Debug)]
pub struct TextStyles {
    pub normal: TextStyle,
    pub highlighted: TextStyle,
    pub first_letter: TextStyle,
}

/// The main text of a beat.
#[derive(Debug)]
pub struct SimpleContent {
    pub text: WithContext<&'static str>,
    pub text_styles: Option<TextStyles>,
    /// Decoration images that go below the text.
    pub decorations: Vec<Decoration>,
}

impl Default for SimpleContent {
    fn default() -> (content: Self)
        ensures
            content.text == WithContext::Always(""),
            content.text_styles is None,
            content.decorations@ == Seq::<Decoration>::empty(),
    {
        SimpleContent { text: WithContext::Always(""), text_styles: None, decorations: Vec::new() }
    }
}

impl SimpleContent {
    /// A text in the default styles, without decorations.
    pub fn plain(text: WithContext<&'static str>) -> (content: Self)
        ensures
            content.text == text,
            content.text_styles is None,
            content.decorations@ == Seq::<Decoration>::empty(),
    {
        SimpleContent { text, text_styles: None, decorations: Vec::new() }
    }

    /// A text in the default styles, with decorations below it.
    pub fn decorated(text: WithContext<&'static str>, decorations: Vec<Decoration>) -> (content:
        Self)
        ensures
            content.text == text,
            content.text_styles is None,
            content.decorations == decorations,
    {
        SimpleContent { text, text_styles: None, decorations }
    }

    /// A text whose first letter has a colour of its own.
    pub fn with_first_letter(
        text: WithContext<&'static str>,
        color: Tint,
        too_many_options: bool,
        decorations: Vec<Decoration>,
    ) -> (content: Self)
        ensures
            content.text == text,
            content.text_styles == Some(
                TextStyles {
                    first_letter: TextStyle { font: FontFace::FirstLetter, font_size: 100, color },
                    ..default_styles(too_many_options)
                },
            ),
            content.decorations == decorations,
    {
        SimpleContent {
            text,
            text_styles: Some(
                TextStyles {
                    first_letter: TextStyle { font: FontFace::FirstLetter, font_size: 100, color },
                    ..default_text_styles(too_many_options)
                },
            ),
            decorations,
        }
    }

    /// A text whose emphasised runs have a colour of their own.
    pub fn with_highlighted(text: WithContext<&'static str>, color: Tint) -> (content: Self)
        ensures
            content.text == text,
            content.text_styles == Some(
                TextStyles {
                    highlighted: TextStyle { font: FontFace::Normal, font_size: 30, color },
                    ..default_styles(false)
                },
            ),
            content.decorations@ == Seq::<Decoration>::empty(),
    {
        SimpleContent {
            text,
            text_styles: Some(
                TextStyles {
                    highlighted: TextStyle { font: FontFace::Normal, font_size: 30, color },
                    ..default_text_styles(false)
                },
            ),
            decorations: Vec::new(),
        }
    }
}

/// What a simple beat shows beside its main text.
#[derive(Debug)]
pub struct SimpleExtra {
    pub illustration: Option<Illustration>,
    pub additional_text: WithContext<&'static str>,
    pub decorations: Vec<Decoration>,
}

impl Default for SimpleExtra {
    fn default() -> (extra: Self)
        ensures
            extra.illustration is None,
            extra.additional_text == WithContext::Always(""),
            extra.decorations@ == Seq::<Decoration>::empty(),
    {
        SimpleExtra {
            illustration: None,
            additional_text: WithContext::Always(""),
            decorations: Vec::new(),
        }
    }
}

/// One choice of a fork.
#[derive(Debug)]
pub struct NodeChoice {
    pub text: WithContext<&'static str>,
    pub illustration: Option<Illustration>,
    pub additional_text: WithContext<&'static str>,
    pub state_change: StateChange,
    pub next: WithContext<usize>,
}

impl ChoiceTrait<BookContext> for NodeChoice {
    open spec fn routable(&self, context: &BookContext) -> bool {
        self.next.defined(context)
    }

    open spec fn route(&self, context: &BookContext) -> usize {
        self.next.value(context)
    }

    open spec fn effect(&self, context: BookContext) -> BookContext {
        self.state_change.applied(context)
    }

    fn next_node(&self, context: &BookContext) -> (next: usize) {
        *self.next.evaluate(context)
    }

    fn change_state(&self, context: &mut BookContext) {
        self.state_change.apply(context);
    }
}

/// A beat of the book.
pub type BookNode = Node<SimpleContent, SimpleExtra, NodeChoice>;

/// The graph of the book.
pub type BookGraph = Graph<SimpleContent, SimpleExtra, NodeChoice, BookContext>;

impl WithContext<usize> {
    /// Whether every value that there can be is below `bound`.
    pub open spec fn all_below(&self, bound: usize) -> bool {
        match self {
            WithContext::Always(value) => *value < bound,
            WithContext::FirstOf(cases) => forall|i: int|
                0 <= i < cases.len() ==> (#[trigger] cases[i]).value < bound,
        }
    }

    /// Where every value that there can be is below `bound`, so is the
    /// value in any context in which there is one.
    pub proof fn lemma_value_below(&self, bound: usize, context: &BookContext)
        requires
            self.all_below(bound),
            self.defined(context),
        ensures
            self.value(context) < bound,
    {
        match self {
            WithContext::Always(_) => {},
            WithContext::FirstOf(cases) => {
                lemma_first_raised(cases@, *context, 0);
            },
        }
    }
}

/// The number of beats of the book. They are numbered from 0.
pub const BEATS: usize = 44;

/// Whether it is known in `context` how the princess takes the dragon: as a
/// warrior, as an admirer of dragons, or as one who was turned away.
pub open spec fn princess_known(context: BookContext) -> bool {
    ||| context.has(Flag::PrincesaGuerrera)
    ||| context.has(Flag::FanDragones)
    ||| context.has(Flag::PrincesaRechazada)
}

/// Whether beat `node` comes before the princess is introduced, on either
/// branch of the story.
pub open spec fn before_princess(node: usize) -> bool {
    node <= 2 || node == 25 || node == 26
}

/// Whether place and context belong together: the beat exists, and once
/// the princess has been introduced it is known how she takes the dragon.
pub open spec fn in_step(at: Position<BookContext>) -> bool {
    &&& at.node < BEATS
    &&& before_princess(at.node) || princess_known(at.context)
}

/// Whether `choice`, offered at beat `node`, can be shown and taken in
/// every context that belongs to that beat: its label has a value, and,
/// once it has changed the context, so have its second text and its
/// destination, which belongs together with the changed context. Whatever
/// the context, a destination that it has is a beat of the book.
pub open spec fn choice_sound(node: usize, choice: NodeChoice) -> bool {
    &&& choice.next.all_below(BEATS)
    &&& forall|context: BookContext| #[trigger]
        in_step(Position { node, context }) ==> {
            let changed = choice.state_change.applied(context);
            &&& choice.text.defined(&context)
            &&& choice.additional_text.defined(&changed)
            &&& choice.next.defined(&changed)
            &&& in_step(Position { node: choice.next.value(&changed), context: changed })
        }
}

/// Whether `node`, standing at `index`, can be shown and left in every
/// context that belongs to it: its texts have values, its successor belongs
/// together with the same context, and each of its choices is sound. A fork
/// offers at least one choice.
pub open spec fn node_sound(index: usize, node: BookNode) -> bool {
    match node {
        Node::Simple { content, extra, next } => {
            &&& next is Some ==> next->0 < BEATS
            &&& forall|context: BookContext| #[trigger]
                in_step(Position { node: index, context }) ==> {
                    &&& content.text.defined(&context)
                    &&& extra.additional_text.defined(&context)
                    &&& next is Some ==> in_step(Position { node: next->0, context })
                }
        },
        Node::Fork { content, choices } => {
            &&& choices.len() >= 1
            &&& forall|context: BookContext| #[trigger]
                in_step(Position { node: index, context }) ==> content.text.defined(&context)
            &&& forall|k: int| 0 <= k < choices.len() ==> choice_sound(index, #[trigger] choices[k])
        },
    }
}

fn beat_0() -> (node: BookNode)
    ensures
        node_sound(0, node),
        planned(0, node),
{
    Node::Fork {
        content: SimpleContent::decorated(
            WithContext::Always("Erase una vez, un *terrible dragón* que atemorizaba la villa de Montblanc..."),
            vec![Decoration::RabbitTroubadour],
        ),
        choices: vec![
            NodeChoice {
                text: WithContext::Always("Erase una vez, *un hombre claramente disfrazado de dragón* que, por algún motivo, atemorizaba la villa de Montblanc..."),
                illustration: Some(Illustration::SantJordiDisguisedAsDragon),
                additional_text: WithContext::Always("Quizás fuera que se veían pocos dragones o que realmente tenían ganas de poder decir que habían visto uno, pero sea como fuere, la villa entera parecía convencida de ello."),
                state_change: StateChange::Raise(Flag::SantjordiDisfrazado),
                next: WithContext::Always(1),
            },
            NodeChoice {
                text: WithContext::Always("Erase una vez, *un dragón normalito*, con sus problemas y sus cosas, cuya presencia atemorizaba la villa de Montblanc..."),
                illustration: Some(Illustration::NormalDragon),
                additional_text: WithContext::Always("Realmente no les hacía nada, pero un dragón gigante escupefuego era el objetivo perfecto sobre el que proyectar sus problemas."),
                state_change: StateChange::Raise(Flag::DragonNormal),
                next: WithContext::Always(25),
            },
        ],
    }
}

fn beat_1() -> (node: BookNode)
    ensures
        node_sound(1, node),
        planned(1, node),
{
    Node::Simple {
        content: SimpleContent::with_highlighted(
            WithContext::Always("Todavía inmersos en sus delirios, los habitantes de la villa empezaron a mandarle reses y animales, esperando que eso saciara su \"ira\". Sin embargo, *no tuvo mucho efecto*..."),
            Tint::Bytes(0x28, 0x2c, 0x83),
        ),
        extra: SimpleExtra {
            illustration: Some(Illustration::JordiDragonWithCow),
            additional_text: WithContext::Always("De hecho, algunas reses eran casi tan grandes como el \"dragón\"..."),
            decorations: Vec::new(),
        },
        next: Some(2),
    }
}

fn beat_2() -> (node: BookNode)
    ensures
        node_sound(2, node),
        planned(2, node),
{
    Node::Fork {
        content: SimpleContent::with_first_letter(
            WithContext::Always("Con la villa desesperada, el rey no tuvo más alternativa que hacer un *sorteo* para ofrecerle a la bestia sacrificios humanos, ignorando que el destino, confuso y sibilino, se conjuraría en su contra con el sacrificio de su propia hija..."),
            Tint::Bytes(0x3d, 0x79, 0x3a),
            true,
            vec![Decoration::GreenFancyUnderline],
        ),
        choices: vec![
            NodeChoice {
                text: WithContext::Always("La princesa Cleodolinda, cansada de los inútiles intentos de la gente de la villa por calmar la situación, se ofreció para *matar al dragón*"),
                illustration: Some(Illustration::PrincessGoKillDragon),
                additional_text: WithContext::Always("Espada en mano y paso decididio, se dirigió a la cueva donde se escondía el dragón."),
                state_change: StateChange::Raise(Flag::PrincesaGuerrera),
                next: WithContext::Always(3),
            },
            NodeChoice {
                text: WithContext::Always("La princesa Cleodolinda, *deseosa por conocer a un dragón de verdad*, se ofreció voluntaria para solventar la situación"),
                illustration: Some(Illustration::PrincessExcitedToBePicked),
                additional_text: WithContext::Always("Con su enciclopedia favorita de dragones bajo el brazo, se dirigió a la cueva de la bestia sin ningún temor."),
                state_change: StateChange::Raise(Flag::FanDragones),
                next: WithContext::Always(3),
            },
            NodeChoice {
                text: WithContext::Always("Pero cuando vió que él mismo fue el escogido en el sorteo, les dijo a todos que la princesa Cleodolinda, su propia hija, fue la *desaventurada víctima de la fortuna...*"),
                illustration: Some(Illustration::KingPicksPrincess),
                additional_text: WithContext::Always("No fue una gran sorpresa para Cleodolinda, pero aún asi aceptó su destino y se encaminó hacia la guarida del dragón."),
                state_change: StateChange::Raise(Flag::PrincesaRechazada),
                next: WithContext::Always(3),
            },
        ],
    }
}

fn beat_3() -> (node: BookNode)
    ensures
        node_sound(3, node),
        planned(3, node),
{
    Node::Fork {
        content: SimpleContent::plain(
            WithContext::Always("Cleodolinda aceptó su destino valientemente y tras un corto viaje llegó a la guarida del dragón, donde *se encontró...*"),
        ),
        choices: vec![
            NodeChoice {
                text: WithContext::Always("Con un misterioso hombre disfrazado de dragón asando malvaviscos."),
                illustration: Some(Illustration::SantJordiMakingMarshmallows),
                additional_text: WithContext::Always("Es bien sabido que no hay nada que un dragón disfrute más que sentarse como un humano a asar dulces delante del fuego..."),
                state_change: StateChange::Raise(Flag::EncuentraSantjordiDisfrazado),
                next: WithContext::one_of(
                    Case { flag: Flag::PrincesaGuerrera, value: 4 },
                    Case { flag: Flag::FanDragones, value: 8 },
                    Case { flag: Flag::PrincesaRechazada, value: 10 },
                ),
            },
            NodeChoice {
                text: WithContext::Always("Con un apuesto caballero haciéndose pinturas tribales de guerra, alentándose a sí mismo..."),
                illustration: Some(Illustration::SantJordiWarrior),
                additional_text: WithContext::Always("Su libro favorito era \"El arte de la guerra\" y especulaba con terrenos"),
                state_change: StateChange::Raise(Flag::EncuentraSantjordiFlipado),
                next: WithContext::Always(12),
            },
            NodeChoice {
                text: WithContext::Always("Con un apuesto caballero frente a la guarida de la temible bestia sosteniendo ferozmente un... ¿ramo de flores?"),
                illustration: Some(Illustration::SantJordiRoses),
                additional_text: WithContext::Always("No todos los caballeros tienen que ser agresivos, seguramente Sant Jordi tendría sus \"métodos\"..."),
                state_change: StateChange::Raise(Flag::EncuentraSantjordiEnamorado),
                next: WithContext::Always(19),
            },
        ],
    }
}

fn beat_4() -> (node: BookNode)
    ensures
        node_sound(4, node),
        planned(4, node),
{
    Node::Simple {
        content: SimpleContent::plain(
            WithContext::Always("Algo decepcionada ante el inocente y algo adorable dragonzuelo que se encontraba ante ella, Cleodolinda no se amilanó y le atizó a la bestia tremendo capón en la sesera..."),
        ),
        extra: SimpleExtra {
            illustration: Some(Illustration::PrincessPunchesJordiDragon),
            additional_text: WithContext::Always("Estaba claro que la princesa no había hecho todo este viaje para quedarse ahora de brazos cruzados."),
            decorations: Vec::new(),
        },
        next: Some(5),
    }
}

fn beat_5() -> (node: BookNode)
    ensures
        node_sound(5, node),
        planned(5, node),
{
    Node::Simple {
        content: SimpleContent::plain(
            WithContext::Always("Tal fue la contundencia del mamporrazo que la cabeza del \"dragón\" salió volando, revelando al hombre que se había estado haciendo pasar por la bestia todo este tiempo: ¡Sant Jordi!"),
        ),
        extra: SimpleExtra {
            illustration: Some(Illustration::JordiDragonConfesses),
            additional_text: WithContext::Always("La princesa, iracunda, exigió explicaciones a Sant Jordi, indignada ante semejante deshonra a la caballería."),
            decorations: Vec::new(),
        },
        next: Some(6),
    }
}

fn beat_6() -> (node: BookNode)
    ensures
        node_sound(6, node),
        planned(6, node),
{
    Node::Simple {
        content: SimpleContent::plain(
            WithContext::Always("Sant Jordi confesó que durante todo este tiempo había estado disfrazándose de dragón, aprovechándose de la gente de Montblanc que, aterrada, no paraba de darle regalos y cosas gratis."),
        ),
        extra: SimpleExtra {
            illustration: Some(Illustration::DragonReturnsFromHolidays),
            additional_text: WithContext::Always("Pero antes de poder terminar sus explicaciones y justificarse, el dragón (que se ve que había estado de vacaciones) regresó, dejando helado al pobre caballero."),
            decorations: Vec::new(),
        },
        next: Some(7),
    }
}

fn beat_7() -> (node: BookNode)
    ensures
        node_sound(7, node),
        planned(7, node),
{
    Node::Simple {
        content: SimpleContent::plain(
            WithContext::Always("Al final, el dragón y la princesa se vieron convertidos en unos improbables aliados ante la idiotez de Sant Jordi y el pueblo, por lo que acordaron una manera que, por fin, pondría un final a la disputa..."),
        ),
        extra: SimpleExtra {
            illustration: Some(Illustration::PrincessXDragon),
            additional_text: WithContext::Always("Y así, la villa de Montblanc regresó a la normalidad y tranquilidad que la caracterizaba... Al menos, hasta que apareciese el siguiente \"dragón\"..."),
            decorations: Vec::new(),
        },
        next: None,
    }
}

fn beat_8() -> (node: BookNode)
    ensures
        node_sound(8, node),
        planned(8, node),
{
    Node::Simple {
        content: SimpleContent::plain(
            WithContext::Always("Fascinada por el extraño ejemplar ante el que se econtraba, empezó a examinarlo exhaustivamente"),
        ),
        extra: SimpleExtra {
            illustration: Some(Illustration::PrincessAnalyzingJordiDragon),
            additional_text: WithContext::Always("Mientras que a cualquier otro habitante de la villa le temblarían las manos de pavor, a ella le temblaban de pura emoción."),
            decorations: Vec::new(),
        },
        next: Some(9),
    }
}

fn beat_9() -> (node: BookNode)
    ensures
        node_sound(9, node),
        planned(9, node),
{
    Node::Simple {
        content: SimpleContent::plain(
            WithContext::Always("Tras su concienzudo análisis, para su decepción, vio claramente que se encontraba ante un disfraz. ¡Nunca hubo dragón! La princesa, triste, acusó a la bestia, quien resultó ser... ¿Sant Jordi?"),
        ),
        extra: SimpleExtra {
            illustration: Some(Illustration::JordiDragonConfesses),
            additional_text: WithContext::Always("Oscilando entre el puchero y la ira, Cleodolinda exigió explicaciones al vil caballero."),
            decorations: Vec::new(),
        },
        next: Some(6),
    }
}

fn beat_10() -> (node: BookNode)
    ensures
        node_sound(10, node),
        planned(10, node),
{
    Node::Simple {
        content: SimpleContent::plain(
            WithContext::Always("A diferencia del resto de la villa, Cleodolinda tenía alguna que otra luz en la sesera y reconoció rápidamente que lo que tenía delante de ella no era un dragón..."),
        ),
        extra: SimpleExtra {
            illustration: Some(Illustration::PrincessUnmasksJordiDragon),
            additional_text: WithContext::Always("De hecho, fijándose bien, se podían ver claramente las marcas de costura en el traje de dragón."),
            decorations: Vec::new(),
        },
        next: Some(11),
    }
}

fn beat_11() -> (node: BookNode)
    ensures
        node_sound(11, node),
        planned(11, node),
{
    Node::Simple {
        content: SimpleContent::plain(
            WithContext::Always("La princesa, cansada ya un poco de tanta tontería, le arrancó la máscara al falso dragón y reveló que detrás de toda esta farsa estaba... ¡Sant Jordi!"),
        ),
        extra: SimpleExtra {
            illustration: Some(Illustration::JordiDragonConfesses),
            additional_text: WithContext::Always("Lejos de enfadarse o indignarse, Cleodolinda se vio inundada por una terrible ola de frustración."),
            decorations: Vec::new(),
        },
        next: Some(6),
    }
}

fn beat_12() -> (node: BookNode)
    ensures
        node_sound(12, node),
        planned(12, node),
{
    Node::Fork {
        content: SimpleContent::plain(
            WithContext::Always("Sant Jordi, sacando pecho y guiñándole un ojo, le dijo a Cleodolinda: \"tranquila princesa, yo me encargo del dragoncito\". Y sin esperar respuesta, el caballero se adentró en las profundidades de la cueva de la bestia. Entonces, Cleodolinda decidió..."),
        ),
        choices: vec![
            NodeChoice {
                text: WithContext::Always("Cleodolinda decidió entrar con Sant Jordi en la cueva."),
                illustration: None,
                additional_text: WithContext::one_of(
                    Case { flag: Flag::PrincesaGuerrera, value: "Cleodolinda, todavía con ganas de algo de acción, siguió al caballero procurando que no la viera." },
                    Case { flag: Flag::FanDragones, value: "Cleodolinda, demasiado ansiosa por la posibilidad de ver un dragón real, siguió de cerca a Sant Jordi y se adentró tras él en la guarida de la criatura." },
                    Case { flag: Flag::PrincesaRechazada, value: "No creyéndose del todo al quizás algo flipado caballero, Cleodolinda le siguió de cerca y se adentró en la guarida de la bestia." },
                ),
                state_change: StateChange::Raise(Flag::EntrarCueva),
                next: WithContext::Always(13),
            },
            NodeChoice {
                text: WithContext::Always("Cleodolinda decidió esperar fuera."),
                illustration: None,
                additional_text: WithContext::one_of(
                    Case { flag: Flag::PrincesaGuerrera, value: "Cleodolinda, sabiendo que Sant Jordi no podría acabar con un dragón él solo, se quedó fuera esperando a que saliera despavorido en busca de ayuda." },
                    Case { flag: Flag::FanDragones, value: "Siendo consciente del peligro que tenía exponerse a un dragón real, Cleodolinda perefirió esperar a que el caballero cumpliera su cometido. Ya podría examinarlo bien después." },
                    Case { flag: Flag::PrincesaRechazada, value: "Cleodolinda esperó fuera de la cueva a que Sant Jordi finalizara su deber, si es que era tan machote como decía ser..." },
                ),
                state_change: StateChange::Raise(Flag::SalirCueva),
                next: WithContext::Always(17),
            },
        ],
    }
}

fn beat_13() -> (node: BookNode)
    ensures
        node_sound(13, node),
        planned(13, node),
{
    Node::Simple {
        content: SimpleContent::plain(
            WithContext::Always("Para sorpresa de Cleodolinda (aunque tampoco mucha siendo sinceros) lo único que encontró dentro de la cueva fue a Sant Jordi, solo, gritando y gruñendo, luchando contra su propia sombra..."),
        ),
        extra: SimpleExtra {
            illustration: Some(Illustration::SantJordiFightingAlone),
            additional_text: WithContext::Always("Si bien lo que estaba haciendo Sant Jordi no estaba muy claro, sobre lo que no cabía duda era que allí dentro no había dragón alguno."),
            decorations: Vec::new(),
        },
        next: Some(14),
    }
}

fn beat_14() -> (node: BookNode)
    ensures
        node_sound(14, node),
        planned(14, node),
{
    Node::Simple {
        content: SimpleContent::plain(
            WithContext::Always("Cleodolinda, se dio cuenta de que algo no cuadraba, sobretodo cuando en un rincón de la guarida vio lo que parecía ser un disfraz de dragón algo cutre tirado en el suelo... ¡Sant Jordi había sido el dragón todo ese tiempo!"),
        ),
        extra: SimpleExtra {
            illustration: None,
            additional_text: WithContext::Always("El caballero claramente le había estado tomando el pelo pero... ¿por qué?"),
            decorations: vec![Decoration::Cat],
        },
        next: Some(15),
    }
}

fn beat_15() -> (node: BookNode)
    ensures
        node_sound(15, node),
        planned(15, node),
{
    Node::Simple {
        content: SimpleContent::plain(
            WithContext::Always("La princesa acusó a Sant Jordi, quien confesó que durante todo este tiempo había estado disfrazándose de dragón, para luego darse caza él mismo y llevarse la fama. Cleodolinda empezó a reñir severamente al caballero que, sorprendentemente, parecía aterrado..."),
        ),
        extra: SimpleExtra {
            illustration: Some(Illustration::DragonReturnsFromHolidays),
            additional_text: WithContext::Always("Aunque no precisamente de ella..."),
            decorations: Vec::new(),
        },
        next: Some(16),
    }
}

fn beat_16() -> (node: BookNode)
    ensures
        node_sound(16, node),
        planned(16, node),
{
    Node::Simple {
        content: SimpleContent::plain(
            WithContext::Always("Tras unas arduas negociaciones, al final dragón y princesa acordaron con Sant Jordi una resolución que definitivamente resolvería la situación..."),
        ),
        extra: SimpleExtra {
            illustration: Some(Illustration::PrincessXDragon),
            additional_text: WithContext::Always("Y así, la villa de Montblanc regresó a la normalidad y tranquilidad que la caracterizaba... Al menos, hasta que apareciese el siguiente \"dragón\"..."),
            decorations: Vec::new(),
        },
        next: None,
    }
}

fn beat_17() -> (node: BookNode)
    ensures
        node_sound(17, node),
        planned(17, node),
{
    Node::Simple {
        content: SimpleContent::plain(
            WithContext::Always("Al poco tiempo, Sant Jordi, jadeante y sucio, salió de la cueva sujetando... ¡la cabeza del dragón!"),
        ),
        extra: SimpleExtra {
            illustration: Some(Illustration::SantJordiWithDragonHead),
            additional_text: WithContext::Always("Así a la luz del día tampoco parecía gran cosa, pero bueno, a Sant Jordi se le veía orgulloso."),
            decorations: Vec::new(),
        },
        next: Some(18),
    }
}

fn beat_18() -> (node: BookNode)
    ensures
        node_sound(18, node),
        planned(18, node),
{
    Node::Simple {
        content: SimpleContent::plain(
            WithContext::Always("Cleodolinda, algo escéptica, se dio cuenta de que algo no terminaba de encajar..."),
        ),
        extra: SimpleExtra {
            illustration: None,
            additional_text: WithContext::Always("De hecho, se podían ver las marcas de costura en la \"cabeza del dragón\"... ¿Qué pretendía Sant Jordi con todo esto?"),
            decorations: vec![Decoration::RabbitTroubadour],
        },
        next: Some(15),
    }
}

fn beat_19() -> (node: BookNode)
    ensures
        node_sound(19, node),
        planned(19, node),
{
    Node::Simple {
        content: SimpleContent::plain(
            WithContext::Always("Sant Jordi, notablemente incómodo, le contó a Cleodolinda que las rosas habían salido de la sangre del dragón cuando lo mató..."),
        ),
        extra: SimpleExtra {
            illustration: None,
            additional_text: WithContext::Always("Cleodolinda, algo escéptica ante el más que evidente nerviosismo del caballero, le pidió pruebas de la muerte del dragón."),
            decorations: vec![Decoration::SnailBoy],
        },
        next: Some(20),
    }
}

fn beat_20() -> (node: BookNode)
    ensures
        node_sound(20, node),
        planned(20, node),
{
    Node::Simple {
        content: SimpleContent::plain(
            WithContext::Always("Sant Jordi, viéndose obligado a improvisar, se metió dentro de la guarida del dragón y, pasado un buen rato, emergió de nuevo sosteniendo... ¡La cabeza del dragón!"),
        ),
        extra: SimpleExtra {
            illustration: Some(Illustration::SantJordiWithDragonHead),
            additional_text: WithContext::one_of(
                Case { flag: Flag::PrincesaRechazada, value: "Cleodolinda, algo escéptica, se dio cuenta de que algo no terminaba de encajar..." },
                Case { flag: Flag::PrincesaGuerrera, value: "Cleodolinda, algo escéptica, se dio cuenta de que algo no terminaba de encajar..." },
                Case { flag: Flag::FanDragones, value: "Cleodolinda, que de dragones sabía un rato, reconoció que claramente esa cabeza no era real..." },
            ),
            decorations: Vec::new(),
        },
        next: Some(21),
    }
}

fn beat_21() -> (node: BookNode)
    ensures
        node_sound(21, node),
        planned(21, node),
{
    Node::Simple {
        content: SimpleContent::plain(
            WithContext::Always("Si cabía todavía alguna duda de que Sant Jordi no estaba siendo del todo sincero..."),
        ),
        extra: SimpleExtra {
            illustration: Some(Illustration::SensualDragonComingOutOfCave),
            additional_text: WithContext::Always("Digamos que de pronto se esclareció todo..."),
            decorations: Vec::new(),
        },
        next: Some(22),
    }
}

fn beat_22() -> (node: BookNode)
    ensures
        node_sound(22, node),
        planned(22, node),
{
    Node::Fork {
        content: SimpleContent::plain(
            WithContext::Always("La princesa, escandalizada, decidió..."),
        ),
        choices: vec![
            NodeChoice {
                text: WithContext::Always("Chivarse del romance al resto de la villa."),
                illustration: None,
                additional_text: WithContext::Always("Cotilla y morbosa, Cleodolinda corrió a la villa para compartir con el todo el mundo la aberrante y cómica relación contra natura que dragón y caballero estaban manteniendo."),
                state_change: StateChange::Nothing,
                next: WithContext::Always(23),
            },
            NodeChoice {
                text: WithContext::Always("Guardar el secreto y contar en la villa una leyenda inventada para cubrirles."),
                illustration: None,
                additional_text: WithContext::Always("Conmovida por semejante muestra de amor en contra de toda clase de prejuicios, la princesa decidió ayudarles y mantener su tórrido romance en secreto."),
                state_change: StateChange::Nothing,
                next: WithContext::Always(24),
            },
        ],
    }
}

fn beat_23() -> (node: BookNode)
    ensures
        node_sound(23, node),
        planned(23, node),
{
    Node::Simple {
        content: SimpleContent::plain(
            WithContext::Always("La villa se enteró del romance prohibido del dragón y Sant Jordi, lo que obligó a la pareja a vivir su luna de miel en Escocia"),
        ),
        extra: SimpleExtra {
            illustration: Some(Illustration::DragonAndJordiDragonGoToScotland),
            additional_text: WithContext::Always("Seguro que allí serían más tolerantes..."),
            decorations: Vec::new(),
        },
        next: None,
    }
}

fn beat_24() -> (node: BookNode)
    ensures
        node_sound(24, node),
        planned(24, node),
{
    Node::Simple {
        content: SimpleContent::plain(
            WithContext::Always("Cleodolinda contó en la villa la gran hazaña del caballero Sant Jordi, quien venció al dragón y de cuya sangre brotaron rosas."),
        ),
        extra: SimpleExtra {
            illustration: None,
            additional_text: WithContext::Always("Y así, una vez más, el amor prevaleció por encima de todo."),
            decorations: Vec::new(),
        },
        next: None,
    }
}

fn beat_25() -> (node: BookNode)
    ensures
        node_sound(25, node),
        planned(25, node),
{
    Node::Simple {
        content: SimpleContent::plain(
            WithContext::Always("Convencidos de que el dragón albergaba perversas intenciones, trataron de adelantarse a la desgracia ofreciéndole numerosas reses y animales, ignorando por completo que la bestia era vegana..."),
        ),
        extra: SimpleExtra {
            illustration: Some(Illustration::DragonWithCow),
            additional_text: WithContext::Always("Al menos el dragón tendría compañía..."),
            decorations: Vec::new(),
        },
        next: Some(26),
    }
}

fn beat_26() -> (node: BookNode)
    ensures
        node_sound(26, node),
        planned(26, node),
{
    Node::Fork {
        content: SimpleContent::plain(
            WithContext::Always("Con la villa desesperada, el rey no tuvo más alternativa que hacer un sorteo para ofrecerle a la bestia sacrificios humanos, ignorando que el destino, confuso y sibilino, se conjuraría en su contra con el sacrificio de su propia hija..."),
        ),
        choices: vec![
            NodeChoice {
                text: WithContext::Always("La princesa Cleodolinda, cansada de los inútiles intentos de la gente de la villa por calmar la situación, se ofreció voluntaria para matar al dragón."),
                illustration: Some(Illustration::PrincessGoKillDragon),
                additional_text: WithContext::Always("Espada en mano y paso decidido, se dirigió a la cueva donde se escondía el dragón."),
                state_change: StateChange::Raise(Flag::PrincesaGuerrera),
                next: WithContext::Always(27),
            },
            NodeChoice {
                text: WithContext::Always("La princesa Cleodolinda, deseosa por conocer a un dragón de verdad, se ofreció voluntaria para utilizar sus extensos conocimientos de dragones para solventar la situación."),
                illustration: Some(Illustration::PrincessExcitedToBePicked),
                additional_text: WithContext::Always("Con su enciclopedia favorita de dragones bajo el brazo, se dirigió a la cueva de la bestia sin ningún temor."),
                state_change: StateChange::Raise(Flag::FanDragones),
                next: WithContext::Always(27),
            },
            NodeChoice {
                text: WithContext::Always("Pero cuando vió que él mismo fue el escogido en el sorteo, preso de su propia cobardía, les dijo a todos que la princesa Cleodolinda, su propia hija, fue la desaventurada víctima de la fortuna..."),
                illustration: Some(Illustration::KingPicksPrincess),
                additional_text: WithContext::Always("No fue una gran sorpresa para Cleodolinda, pero aún así aceptó su destino y se encaminó hacia la guarida del dragón."),
                state_change: StateChange::Raise(Flag::PrincesaRechazada),
                next: WithContext::Always(27),
            },
        ],
    }
}

fn beat_27() -> (node: BookNode)
    ensures
        node_sound(27, node),
        planned(27, node),
{
    Node::Fork {
        content: SimpleContent::plain(
            WithContext::Always("Cleodolinda aceptó su destino valientemente y tras un corto viaje llegó a la guarida del dragón, donde se encontró..."),
        ),
        choices: vec![
            NodeChoice {
                text: WithContext::Always("Con un misterioso hombre disfrazado de dragón asando malvaviscos."),
                illustration: Some(Illustration::SantJordiMakingMarshmallows),
                additional_text: WithContext::Always("Es bien sabido que no hay nada que un dragón disfrute más que sentarse como un humano a asar dulces delante del fuego..."),
                state_change: StateChange::Raise(Flag::EncuentraSantjordiDisfrazado),
                next: WithContext::Always(28),
            },
            NodeChoice {
                text: WithContext::Always("Con un apuesto caballero haciéndose pinturas tribales de guerra, alentándose a sí mismo..."),
                illustration: Some(Illustration::SantJordiWarrior),
                additional_text: WithContext::Always("Su libro favorito era \"El arte de la guerra\" y especulaba con terrenos"),
                state_change: StateChange::Raise(Flag::EncuentraSantjordiFlipado),
                next: WithContext::Always(34),
            },
            NodeChoice {
                text: WithContext::Always("Con un apuesto caballero frente a la guarida de la temible bestia sosteniendo ferozmente un... ¿ramo de flores?"),
                illustration: Some(Illustration::SantJordiRoses),
                additional_text: WithContext::Always("No todos los caballeros tienen que ser agresivos, seguramente Sant Jordi tendría sus \"métodos\"..."),
                state_change: StateChange::Raise(Flag::EncuentraSantjordiEnamorado),
                next: WithContext::Always(41),
            },
        ],
    }
}

fn beat_28() -> (node: BookNode)
    ensures
        node_sound(28, node),
        planned(28, node),
{
    Node::Fork {
        content: SimpleContent::plain(
            WithContext::Always("Cleodolinda, intrigada por el extraño dragón, decidió acercarse para \"tantear\" el terreno, a lo que el dragón respondió..."),
        ),
        choices: vec![
            NodeChoice {
                text: WithContext::Always("Dejándose llevar."),
                illustration: Some(Illustration::JordiDragonAcceptsPrincess),
                additional_text: WithContext::Always("El amor funciona de manera misteriosa... ¿Quiénes somos nosotros para juzgar?"),
                state_change: StateChange::Nothing,
                next: WithContext::Always(29),
            },
            NodeChoice {
                text: WithContext::Always("Rechazando, incómodo, el extraño acercamiento de Cleodolinda."),
                illustration: Some(Illustration::JordiDragonRejectsPrincess),
                additional_text: WithContext::Always("Se ve que no era su tipo... Ni su especie..."),
                state_change: StateChange::Nothing,
                next: WithContext::Always(31),
            },
        ],
    }
}

fn beat_29() -> (node: BookNode)
    ensures
        node_sound(29, node),
        planned(29, node),
{
    Node::Simple {
        content: SimpleContent::plain(
            WithContext::Always("Viendo que el extraño dragonzuelo respondía a su acercamiento, Cleodolinda decidió que era el momento de revelar su verdadera forma: ¡Ella era el dragón!"),
        ),
        extra: SimpleExtra {
            illustration: Some(Illustration::PrincessDragon),
            additional_text: WithContext::Always("¡Rayos y centellas! ¡Quién se lo hubiera imaginado! ¿La hija del Rey... el dragón?"),
            decorations: Vec::new(),
        },
        next: Some(30),
    }
}

fn beat_30() -> (node: BookNode)
    ensures
        node_sound(30, node),
        planned(30, node),
{
    Node::Simple {
        content: SimpleContent::plain(
            WithContext::Always("Cleodolinda y el extraño dragón, que claramente era un humano disfrazado, fueron ambos víctimas de las flechas del caótico Cupido e iniciaron un romance que desafiaba a toda lógica y raciocinio."),
        ),
        extra: SimpleExtra {
            illustration: Some(Illustration::DragonXJordiDragon),
            additional_text: WithContext::Always("Y así, vivieron felices para siempre demostrando una vez más que el amor es ciego."),
            decorations: Vec::new(),
        },
        next: None,
    }
}

fn beat_31() -> (node: BookNode)
    ensures
        node_sound(31, node),
        planned(31, node),
{
    Node::Simple {
        content: SimpleContent::plain(
            WithContext::Always("Cleodolinda no se amilanó y prosiguió con sus acercamientos, asumiendo que solo se estaba haciendo el difícil. Sin embargo el dragón, sintiéndose acosado por los continuos e inexplicables avances de la princesa, reveló su verdadera identidad. ¡Era Sant Jordi todo este tiempo!"),
        ),
        extra: SimpleExtra {
            illustration: Some(Illustration::JordiDragonConfesses),
            additional_text: WithContext::Always("El reputado caballero disfrazado de dragón... ¿acaso ya no quedaba gente honrada?"),
            decorations: Vec::new(),
        },
        next: Some(32),
    }
}

fn beat_32() -> (node: BookNode)
    ensures
        node_sound(32, node),
        planned(32, node),
{
    Node::Simple {
        content: SimpleContent::plain(
            WithContext::Always("Cleodolina, sintiéndose engañada y despechada, reveló su verdadera forma. ¡Ella era el dragón!"),
        ),
        extra: SimpleExtra {
            illustration: Some(Illustration::PrincessDragon),
            additional_text: WithContext::Always("Sant Jordi no lo sabía pero todo este tiempo había estado jugando con fuego..."),
            decorations: Vec::new(),
        },
        next: Some(33),
    }
}

fn beat_33() -> (node: BookNode)
    ensures
        node_sound(33, node),
        planned(33, node),
{
    Node::Simple {
        content: SimpleContent::plain(
            WithContext::Always("Cleodolinda, como reprimenda, chamuscó un poco a Sant Jordi que huyó despavorido. La princesa, habiéndose ya quitado del medio al problemático falso dragón que le hacía un flaco favor a los suyos, celebró con el resto de la villa la vuelta a la normalidad."),
        ),
        extra: SimpleExtra {
            illustration: Some(Illustration::DragonChasesJordiDragon),
            additional_text: WithContext::Always(""),
            decorations: Vec::new(),
        },
        next: None,
    }
}

fn beat_34() -> (node: BookNode)
    ensures
        node_sound(34, node),
        planned(34, node),
{
    Node::Fork {
        content: SimpleContent::plain(
            WithContext::Always("Sant Jordi, sacando pecho y guiñándole un ojo, le dijo a Cleodolinda: \"tranquila princesa, yo me encargo del dragoncito\". Y sin esperar respuesta, el caballero se adentró en las profundidades de la cueva de la bestia. Mientras tanto, Cleodolinda decidió..."),
        ),
        choices: vec![
            NodeChoice {
                text: WithContext::Always("entrar con Sant Jordi a la cueva."),
                illustration: None,
                additional_text: WithContext::one_of(
                    Case { flag: Flag::PrincesaGuerrera, value: "Cleodolinda, todavía con ganas de algo de acción, siguió al caballero procurando que no la viera." },
                    Case { flag: Flag::FanDragones, value: "Cleodolinda, demasiado ansiosa por la posibilidad de ver un dragón real, siguió de cerca a Sant Jordi y se adentró tras él en la guarida de la criatura." },
                    Case { flag: Flag::PrincesaRechazada, value: "No creyéndose del todo al quizás algo flipado caballero, Cleodolinda le siguió de cerca y se adentró en la guarida de la bestia." },
                ),
                state_change: StateChange::Nothing,
                next: WithContext::Always(35),
            },
            NodeChoice {
                text: WithContext::Always("esperar fuera."),
                illustration: None,
                additional_text: WithContext::one_of(
                    Case { flag: Flag::PrincesaGuerrera, value: "Cleodolinda, sabiendo que Sant Jordi no podría acabar con un dragón él solo, se quedó fuera esperando a que saliera despavorido en busca de ayuda." },
                    Case { flag: Flag::FanDragones, value: "Siendo consciente del peligro que tenía exponerse a un dragón real, Cleodolinda perefirió esperar a que el caballero cumpliera su cometido. Ya podría examinarlo bien después." },
                    Case { flag: Flag::PrincesaRechazada, value: "Cleodolinda esperó fuera de la cueva a que Sant Jordi finalizara su deber, si es que era tan machote como decía ser..." },
                ),
                state_change: StateChange::Nothing,
                next: WithContext::Always(38),
            },
        ],
    }
}

fn beat_35() -> (node: BookNode)
    ensures
        node_sound(35, node),
        planned(35, node),
{
    Node::Simple {
        content: SimpleContent::plain(
            WithContext::Always("Para sorpresa de Cleodolinda (aunque tampoco mucha siendo sinceros) lo único que encontró dentro de la cueva fue a Sant Jordi, solo, gritando y gruñendo, luchando contra su propia sombra...."),
        ),
        extra: SimpleExtra {
            illustration: Some(Illustration::SantJordiFightingAlone),
            additional_text: WithContext::Always("Si bien lo que estaba haciendo Sant Jordi no estaba muy claro, sobre lo que no cabía duda era que allí dentro no había dragón alguno."),
            decorations: Vec::new(),
        },
        next: Some(36),
    }
}

fn beat_36() -> (node: BookNode)
    ensures
        node_sound(36, node),
        planned(36, node),
{
    Node::Simple {
        content: SimpleContent::plain(
            WithContext::Always("Entonces Cleodolina, irritada, reveló su verdadera forma. ¡Ella era el dragón!"),
        ),
        extra: SimpleExtra {
            illustration: Some(Illustration::PrincessDragon),
            additional_text: WithContext::Always("Sant Jordi no lo sabía pero todo este tiempo había estado jugando con fuego..."),
            decorations: Vec::new(),
        },
        next: Some(37),
    }
}

fn beat_37() -> (node: BookNode)
    ensures
        node_sound(37, node),
        planned(37, node),
{
    Node::Simple {
        content: SimpleContent::plain(
            WithContext::Always("Cleodolinda, como reprimenda, chamuscó un poco a Sant Jordi que huyó despavorido del reino. La Princesa volvió a la villa y todos celebraron su victoria."),
        ),
        extra: SimpleExtra {
            illustration: Some(Illustration::DragonChasesJordiDragon),
            additional_text: WithContext::Always(""),
            decorations: Vec::new(),
        },
        next: None,
    }
}

fn beat_38() -> (node: BookNode)
    ensures
        node_sound(38, node),
        planned(38, node),
{
    Node::Simple {
        content: SimpleContent::plain(
            WithContext::Always("Al poco tiempo, Sant Jordi, jadeante y sucio, salió de la cueva sujetando... ¡la cabeza del dragón! "),
        ),
        extra: SimpleExtra {
            illustration: Some(Illustration::SantJordiWithDragonHead),
            additional_text: WithContext::Always("Así a la luz del día tampoco parecía gran cosa, pero bueno, a Sant Jordi se le veía orgulloso."),
            decorations: Vec::new(),
        },
        next: Some(39),
    }
}

fn beat_39() -> (node: BookNode)
    ensures
        node_sound(39, node),
        planned(39, node),
{
    Node::Simple {
        content: SimpleContent::plain(
            WithContext::Always("Entonces Cleodolina, irritada, reveló su verdadera forma. ¡Ella era el dragón!"),
        ),
        extra: SimpleExtra {
            illustration: Some(Illustration::PrincessDragon),
            additional_text: WithContext::Always("Sant Jordi no lo sabía pero todo este tiempo había estado jugando con fuego..."),
            decorations: Vec::new(),
        },
        next: Some(40),
    }
}

fn beat_40() -> (node: BookNode)
    ensures
        node_sound(40, node),
        planned(40, node),
{
    Node::Simple {
        content: SimpleContent::plain(
            WithContext::Always("Cleodolinda, como reprimenda, chamuscó un poco a Sant Jordi que huyó despavorido del reino. La Princesa volvió a la villa y todos celebraron su victoria."),
        ),
        extra: SimpleExtra {
            illustration: Some(Illustration::DragonChasesJordiDragon),
            additional_text: WithContext::Always(""),
            decorations: Vec::new(),
        },
        next: None,
    }
}

fn beat_41() -> (node: BookNode)
    ensures
        node_sound(41, node),
        planned(41, node),
{
    Node::Fork {
        content: SimpleContent::plain(
            WithContext::Always("La princesa, escandalizada, decidió..."),
        ),
        choices: vec![
            NodeChoice {
                text: WithContext::Always("Chivarse del romance al resto de la villa."),
                illustration: Some(Illustration::PrincessThinking),
                additional_text: WithContext::Always("Cotilla y morbosa, Cleodolinda corrió a la villa para compartir con el todo el mundo la aberrante y cómica relación contra natura que dragón y caballero estaban manteniendo."),
                state_change: StateChange::Nothing,
                next: WithContext::Always(42),
            },
            NodeChoice {
                text: WithContext::Always("Guardar el secreto."),
                illustration: Some(Illustration::PrincessThinking),
                additional_text: WithContext::Always("Conmovida por semejante muestra de amor en contra de toda clase de prejuicios, la princesa decidió ayudarles a mantener su tórrido romance en secreto."),
                state_change: StateChange::Nothing,
                next: WithContext::Always(43),
            },
        ],
    }
}

fn beat_42() -> (node: BookNode)
    ensures
        node_sound(42, node),
        planned(42, node),
{
    Node::Simple {
        content: SimpleContent::plain(
            WithContext::Always("La villa se enteró del romance prohibido del dragón y Sant Jordi, lo que obligó a la pareja a vivir su luna de miel en Escocia"),
        ),
        extra: SimpleExtra {
            illustration: Some(Illustration::DragonXSantJordi),
            additional_text: WithContext::Always("Seguro que allí serían más tolerantes... "),
            decorations: Vec::new(),
        },
        next: None,
    }
}

fn beat_43() -> (node: BookNode)
    ensures
        node_sound(43, node),
        planned(43, node),
{
    Node::Simple {
        content: SimpleContent::plain(
            WithContext::Always("Cleodolinda contó en la villa la gran hazaña del caballero Sant Jordi, quien venció al dragón y de cuya sangre brotaron rosas."),
        ),
        extra: SimpleExtra {
            illustration: Some(Illustration::PrincessThinking),
            additional_text: WithContext::Always("Y así, una vez más, el amor prevaleció por encima de todo."),
            decorations: Vec::new(),
        },
        next: None,
    }
}

/// Whether `choice` changes the context by `change` and then leads to
/// `to`, whatever the context.
pub open spec fn turns(choice: NodeChoice, change: StateChange, to: usize) -> bool {
    &&& choice.state_change == change
    &&& choice.next == WithContext::Always(to)
}

/// Whether `choice` changes the context by `change` and then leads where
/// the first of `cases` with a raised flag says.
pub open spec fn turns_by(choice: NodeChoice, change: StateChange, cases: Seq<Case<usize>>) -> bool {
    &&& choice.state_change == change
    &&& choice.next matches WithContext::FirstOf(given)
    &&& given@ == cases
}

/// The plan of the book: whether `node` is of the kind that stands at
/// `index` and leads where the beat at `index` leads. The story splits at
/// its first fork, on what the dragon is; both halves introduce the
/// princess and then split on how the knight is met.
pub open spec fn planned(index: usize, node: BookNode) -> bool {
    match index {
        0 => {
            &&& node is Fork
            &&& choices_of(node).len() == 2
            &&& turns(choices_of(node)[0], StateChange::Raise(Flag::SantjordiDisfrazado), 1)
            &&& turns(choices_of(node)[1], StateChange::Raise(Flag::DragonNormal), 25)
        },
        1 => successor(node) == Some(2usize),
        2 => {
            &&& node is Fork
            &&& choices_of(node).len() == 3
            &&& turns(choices_of(node)[0], StateChange::Raise(Flag::PrincesaGuerrera), 3)
            &&& turns(choices_of(node)[1], StateChange::Raise(Flag::FanDragones), 3)
            &&& turns(choices_of(node)[2], StateChange::Raise(Flag::PrincesaRechazada), 3)
        },
        3 => {
            &&& node is Fork
            &&& choices_of(node).len() == 3
            &&& turns_by(
                choices_of(node)[0],
                StateChange::Raise(Flag::EncuentraSantjordiDisfrazado),
                seq![
                    Case { flag: Flag::PrincesaGuerrera, value: 4 },
                    Case { flag: Flag::FanDragones, value: 8 },
                    Case { flag: Flag::PrincesaRechazada, value: 10 },
                ],
            )
            &&& turns(choices_of(node)[1], StateChange::Raise(Flag::EncuentraSantjordiFlipado), 12)
            &&& turns(choices_of(node)[2], StateChange::Raise(Flag::EncuentraSantjordiEnamorado), 19)
        },
        4 => successor(node) == Some(5usize),
        5 => successor(node) == Some(6usize),
        6 => successor(node) == Some(7usize),
        7 => node is Simple && successor(node) is None,
        8 => successor(node) == Some(9usize),
        9 => successor(node) == Some(6usize),
        10 => successor(node) == Some(11usize),
        11 => successor(node) == Some(6usize),
        12 => {
            &&& node is Fork
            &&& choices_of(node).len() == 2
            &&& turns(choices_of(node)[0], StateChange::Raise(Flag::EntrarCueva), 13)
            &&& turns(choices_of(node)[1], StateChange::Raise(Flag::SalirCueva), 17)
        },
        13 => successor(node) == Some(14usize),
        14 => successor(node) == Some(15usize),
        15 => successor(node) == Some(16usize),
        16 => node is Simple && successor(node) is None,
        17 => successor(node) == Some(18usize),
        18 => successor(node) == Some(15usize),
        19 => successor(node) == Some(20usize),
        20 => successor(node) == Some(21usize),
        21 => successor(node) == Some(22usize),
        22 => {
            &&& node is Fork
            &&& choices_of(node).len() == 2
            &&& turns(choices_of(node)[0], StateChange::Nothing, 23)
            &&& turns(choices_of(node)[1], StateChange::Nothing, 24)
        },
        23 => node is Simple && successor(node) is None,
        24 => node is Simple && successor(node) is None,
        25 => successor(node) == Some(26usize),
        26 => {
            &&& node is Fork
            &&& choices_of(node).len() == 3
            &&& turns(choices_of(node)[0], StateChange::Raise(Flag::PrincesaGuerrera), 27)
            &&& turns(choices_of(node)[1], StateChange::Raise(Flag::FanDragones), 27)
            &&& turns(choices_of(node)[2], StateChange::Raise(Flag::PrincesaRechazada), 27)
        },
        27 => {
            &&& node is Fork
            &&& choices_of(node).len() == 3
            &&& turns(choices_of(node)[0], StateChange::Raise(Flag::EncuentraSantjordiDisfrazado), 28)
            &&& turns(choices_of(node)[1], StateChange::Raise(Flag::EncuentraSantjordiFlipado), 34)
            &&& turns(choices_of(node)[2], StateChange::Raise(Flag::EncuentraSantjordiEnamorado), 41)
        },
        28 => {
            &&& node is Fork
            &&& choices_of(node).len() == 2
            &&& turns(choices_of(node)[0], StateChange::Nothing, 29)
            &&& turns(choices_of(node)[1], StateChange::Nothing, 31)
        },
        29 => successor(node) == Some(30usize),
        30 => node is Simple && successor(node) is None,
        31 => successor(node) == Some(32usize),
        32 => successor(node) == Some(33usize),
        33 => node is Simple && successor(node) is None,
        34 => {
            &&& node is Fork
            &&& choices_of(node).len() == 2
            &&& turns(choices_of(node)[0], StateChange::Nothing, 35)
            &&& turns(choices_of(node)[1], StateChange::Nothing, 38)
        },
        35 => successor(node) == Some(36usize),
        36 => successor(node) == Some(37usize),
        37 => node is Simple && successor(node) is None,
        38 => successor(node) == Some(39usize),
        39 => successor(node) == Some(40usize),
        40 => node is Simple && successor(node) is None,
        41 => {
            &&& node is Fork
            &&& choices_of(node).len() == 2
            &&& turns(choices_of(node)[0], StateChange::Nothing, 42)
            &&& turns(choices_of(node)[1], StateChange::Nothing, 43)
        },
        42 => node is Simple && successor(node) is None,
        43 => node is Simple && successor(node) is None,
        _ => false,
    }
}

/// Whether `nodes` holds the beats numbered below `count`, and no others,
/// each of them sound and as the plan has it.
pub open spec fn sound_up_to(nodes: Map<usize, BookNode>, count: usize) -> bool {
    &&& forall|i: usize| #[trigger] nodes.contains_key(i) <==> i < count
    &&& forall|i: usize|
        i < count ==> node_sound(i, #[trigger] nodes[i]) && planned(i, nodes[i])
}

/// Whether `nodes` is a whole book whose every beat is sound and as the
/// plan has it.
pub open spec fn story_sound(nodes: Map<usize, BookNode>) -> bool {
    sound_up_to(nodes, BEATS)
}

fn add_beat(graph: &mut BookGraph, index: usize, node: BookNode)
    requires
        index < BEATS,
        node_sound(index, node),
        planned(index, node),
        sound_up_to(old(graph).nodes(), index),
    ensures
        sound_up_to(final(graph).nodes(), (index + 1) as usize),
        final(graph).position() == old(graph).position(),
{
    graph.add_node(index, node);
}

/// In a sound book every destination is a beat of the book, whatever the
/// context, and every fork offers a choice.
pub proof fn lemma_story_closed(nodes: Map<usize, BookNode>)
    requires
        story_sound(nodes),
    ensures
        all_closed::<SimpleContent, SimpleExtra, NodeChoice, BookContext>(nodes),
{
    assert forall|i: usize| #[trigger] nodes.contains_key(i) implies BookGraph::node_closed(
        nodes,
        nodes[i],
    ) by {
        assert(node_sound(i, nodes[i]));
        match nodes[i] {
            Node::Simple { .. } => {},
            Node::Fork { choices, .. } => {
                assert forall|k: int, context: BookContext|
                    0 <= k < choices.len() && (#[trigger] choices[k].routable(
                        &context,
                    )) implies nodes.contains_key(choices[k].route(&context)) by {
                    assert(choice_sound(i, choices[k]));
                    choices[k].next.lemma_value_below(BEATS, &context);
                }
            },
        }
    }
}

/// In a sound book, from a place and a context that belong together, a
/// simple beat with a successor can be followed and every choice of a fork
/// can be taken, and the place and context reached belong together again.
pub proof fn lemma_story_step(nodes: Map<usize, BookNode>, at: Position<BookContext>, step: Step)
    requires
        story_sound(nodes),
        in_step(at),
    ensures
        allows(nodes, at, step) <==> match step {
            Step::Advance => successor(nodes[at.node]) is Some,
            Step::Choose(index) => index < choices_of(nodes[at.node]).len(),
        },
        allows(nodes, at, step) ==> in_step(after(nodes, at, step)),
{
    assert(nodes.contains_key(at.node));
    assert(node_sound(at.node, nodes[at.node]));
    match step {
        Step::Advance => {},
        Step::Choose(index) => {
            if index < choices_of(nodes[at.node]).len() {
                assert(choice_sound(at.node, choices_of(nodes[at.node])[index as int]));
            }
        },
    }
}

/// In a sound book, place and context belong together all along every
/// walk that starts from the first beat with no decision taken: the story
/// never comes to a text or a destination without a value.
pub proof fn lemma_story_walk(nodes: Map<usize, BookNode>, steps: Seq<Step>)
    requires
        story_sound(nodes),
    ensures
        forall|i: int|
            0 <= i < walk(nodes, story_start(), steps).len() ==> in_step(
                #[trigger] walk(nodes, story_start(), steps)[i],
            ),
{
    let holds = |at: Position<BookContext>| in_step(at);
    assert forall|at: Position<BookContext>, step: Step|
        holds(at) && #[trigger] allows(nodes, at, step) implies holds(after(nodes, at, step)) by {
        lemma_story_step(nodes, at, step);
    }
    lemma_kept_along_walk(nodes, holds, story_start(), steps);
}

/// The book read again after a reset reads like a fresh one: two graphs of
/// the book with the same beats that both stand at the start pass the same
/// positions under the same steps.
pub proof fn lemma_book_replays(fresh: BookGraph, again: BookGraph, steps: Seq<Step>)
    requires
        fresh.nodes() == again.nodes(),
        fresh.at_start(),
        again.at_start(),
    ensures
        fresh.position() == story_start(),
        walk(fresh.nodes(), fresh.position(), steps) == walk(
            again.nodes(),
            again.position(),
            steps,
        ),
{
}

/// Where the story starts: on the first beat, with no decision taken.
pub open spec fn story_start() -> Position<BookContext> {
    Position { node: 0, context: BookContext::blank() }
}

/// The book: its 44 beats, the cursor on the first, no decision taken yet.
pub fn get_book_content() -> (graph: BookGraph)
    ensures
        story_sound(graph.nodes()),
        graph.position() == story_start(),
        graph.at_start(),
        graph.well_formed(),
{
    let mut graph = BookGraph::new();
    add_beat(&mut graph, 0, beat_0());
    add_beat(&mut graph, 1, beat_1());
    add_beat(&mut graph, 2, beat_2());
    add_beat(&mut graph, 3, beat_3());
    add_beat(&mut graph, 4, beat_4());
    add_beat(&mut graph, 5, beat_5());
    add_beat(&mut graph, 6, beat_6());
    add_beat(&mut graph, 7, beat_7());
    add_beat(&mut graph, 8, beat_8());
    add_beat(&mut graph, 9, beat_9());
    add_beat(&mut graph, 10, beat_10());
    add_beat(&mut graph, 11, beat_11());
    add_beat(&mut graph, 12, beat_12());
    add_beat(&mut graph, 13, beat_13());
    add_beat(&mut graph, 14, beat_14());
    add_beat(&mut graph, 15, beat_15());
    add_beat(&mut graph, 16, beat_16());
    add_beat(&mut graph, 17, beat_17());
    add_beat(&mut graph, 18, beat_18());
    add_beat(&mut graph, 19, beat_19());
    add_beat(&mut graph, 20, beat_20());
    add_beat(&mut graph, 21, beat_21());
    add_beat(&mut graph, 22, beat_22());
    add_beat(&mut graph, 23, beat_23());
    add_beat(&mut graph, 24, beat_24());
    add_beat(&mut graph, 25, beat_25());
    add_beat(&mut graph, 26, beat_26());
    add_beat(&mut graph, 27, beat_27());
    add_beat(&mut graph, 28, beat_28());
    add_beat(&mut graph, 29, beat_29());
    add_beat(&mut graph, 30, beat_30());
    add_beat(&mut graph, 31, beat_31());
    add_beat(&mut graph, 32, beat_32());
    add_beat(&mut graph, 33, beat_33());
    add_beat(&mut graph, 34, beat_34());
    add_beat(&mut graph, 35, beat_35());
    add_beat(&mut graph, 36, beat_36());
    add_beat(&mut graph, 37, beat_37());
    add_beat(&mut graph, 38, beat_38());
    add_beat(&mut graph, 39, beat_39());
    add_beat(&mut graph, 40, beat_40());
    add_beat(&mut graph, 41, beat_41());
    add_beat(&mut graph, 42, beat_42());
    add_beat(&mut graph, 43, beat_43());
    proof {
        lemma_story_closed(graph.nodes());
    }
    graph
}

} // verus!

//! The strict state machine of the book: every transition is named, and a
//! transition that the state does not permit is a fault of the caller.

use vstd::prelude::*;

verus! {

/// What the book is doing.
#[derive(Clone, Copy, PartialEq, Eq, Structural, Debug)]
pub enum BookState {
    Start,
    ShowingFirstTalk,
    Choosing,
    ShowingChoice { chosen_option: usize },
    PageFlipStarted { chosen_option: usize },
    PageFlipEnded { chosen_option: usize },
    DrawingOptions,
}

impl Default for BookState {
    fn default() -> (state: Self)
        ensures
            state == BookState::Start,
    {
        BookState::Start
    }
}

/// A named transition of the book.
#[derive(Clone, Copy, PartialEq, Eq, Structural, Debug)]
pub enum BookTransition {
    ShowFirstTalk,
    StartChoosing,
    ChooseOption { index: usize },
    StartPageFlip,
    EndPageFlip,
    Redraw,
    OptionsDrawn,
}

impl BookState {
    /// The state that `transition` leads to from this one, or `None` where
    /// this state does not permit it. The option that was chosen is carried
    /// along until the page has been flipped.
    pub open spec fn target(self, transition: BookTransition) -> Option<BookState> {
        match (self, transition) {
            (BookState::Start, BookTransition::ShowFirstTalk) => Some(BookState::ShowingFirstTalk),
            (BookState::ShowingFirstTalk, BookTransition::StartChoosing) => Some(
                BookState::Choosing,
            ),
            (BookState::Choosing, BookTransition::ChooseOption { index }) => Some(
                BookState::ShowingChoice { chosen_option: index },
            ),
            (BookState::ShowingChoice { chosen_option }, BookTransition::StartPageFlip) => Some(
                BookState::PageFlipStarted { chosen_option },
            ),
            (BookState::PageFlipStarted { chosen_option }, BookTransition::EndPageFlip) => Some(
                BookState::PageFlipEnded { chosen_option },
            ),
            (BookState::PageFlipEnded { .. }, BookTransition::Redraw) => Some(
                BookState::DrawingOptions,
            ),
            (BookState::DrawingOptions, BookTransition::OptionsDrawn) => Some(BookState::Choosing),
            _ => None,
        }
    }

    /// The state that `transition` leads to from this one, if this state
    /// permits it.
    pub fn after(&self, transition: &BookTransition) -> (state: Option<BookState>)
        ensures
            state == self.target(*transition),
    {
        match (*self, *transition) {
            (BookState::Start, BookTransition::ShowFirstTalk) => Some(BookState::ShowingFirstTalk),
            (BookState::ShowingFirstTalk, BookTransition::StartChoosing) => Some(
                BookState::Choosing,
            ),
            (BookState::Choosing, BookTransition::ChooseOption { index }) => Some(
                BookState::ShowingChoice { chosen_option: index },
            ),
            (BookState::ShowingChoice { chosen_option }, BookTransition::StartPageFlip) => Some(
                BookState::PageFlipStarted { chosen_option },
            ),
            (BookState::PageFlipStarted { chosen_option }, BookTransition::EndPageFlip) => Some(
                BookState::PageFlipEnded { chosen_option },
            ),
            (BookState::PageFlipEnded { .. }, BookTransition::Redraw) => Some(
                BookState::DrawingOptions,
            ),
            (BookState::DrawingOptions, BookTransition::OptionsDrawn) => Some(BookState::Choosing),
            _ => None,
        }
    }
}

/// The book's state machine.
pub struct BookStateMachine {
    pub state: BookState,
}

impl Default for BookStateMachine {
    fn default() -> (machine: Self)
        ensures
            machine.state == BookState::Start,
    {
        BookStateMachine { state: BookState::Start }
    }
}

impl BookStateMachine {
    /// The state transition function of the state machine. The state must
    /// permit `transition`.
    pub fn transition(&mut self, transition: &BookTransition)
        requires
            old(self).state.target(*transition) is Some,
        ensures
            final(self).state == old(self).state.target(*transition)->0,
    {
        if let Some(state) = self.state.after(transition) {
            self.state = state;
        }
    }
}

/// Once the first talk has been shown the book never returns to the start,
/// and a chosen option stays the same from the choice to the end of the page
/// flip.
pub proof fn lemma_book_states(state: BookState, transition: BookTransition)
    ensures
        !(state.target(transition) matches Some(BookState::Start)),
        state.target(transition) matches Some(BookState::PageFlipStarted { chosen_option })
            ==> state == (BookState::ShowingChoice { chosen_option }),
        state.target(transition) matches Some(BookState::PageFlipEnded { chosen_option })
            ==> state == (BookState::PageFlipStarted { chosen_option }),
{
}

} // verus!

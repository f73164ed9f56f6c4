//! The closing page: it shows how the run ended and offers a retry after
//! a failure or a cancellation.

use vstd::prelude::*;

use crate::error::Error;
use crate::ui::app::{AppMessage, PageTransition};

verus! {

/// How the run this page closes out ended.
#[derive(Clone, Copy, Debug, PartialEq, Eq, Structural)]
pub enum FinishState {
    /// The run finished with every requested stage done.
    Clean,
    /// The run failed with the originating stage's classification.
    Error(Error),
    /// The run was cancelled; deliberately distinct from `Error`, so the
    /// user is not told something broke.
    Cancelled,
}

/// The page's whole state: what it reports.
#[derive(Clone, Copy, Debug, PartialEq, Eq, Structural)]
pub struct FinishPage {
    pub state: FinishState,
}

/// What the user can ask of the closing page.
#[derive(Clone, Copy, Debug, PartialEq, Eq, Structural)]
pub enum FinishPageMessage {
    Exit,
    Retry,
}

impl FinishPage {
    /// A closing page reporting the given outcome.
    pub fn new(state: FinishState) -> (p: FinishPage)
        ensures
            p.state == state,
    {
        FinishPage { state }
    }

    /// Decides the page's reaction to one message: a retry returns to the
    /// main page for a fresh run, an exit closes the program, and a
    /// message for another page changes nothing.
    pub fn update(&mut self, message: AppMessage) -> (t: Option<PageTransition>)
        ensures
            *final(self) == *old(self),
            t == (match message {
                AppMessage::Finish(FinishPageMessage::Exit) => Some(PageTransition::Exit),
                AppMessage::Finish(FinishPageMessage::Retry) => Some(PageTransition::ToMain),
                _ => None::<PageTransition>,
            }),
    {
        match message {
            AppMessage::Finish(FinishPageMessage::Exit) => Some(PageTransition::Exit),
            AppMessage::Finish(FinishPageMessage::Retry) => Some(PageTransition::ToMain),
            _ => None,
        }
    }
}

} // verus!

//! What a pass over a manifest asks of its surroundings, one action at a
//! time, and what it is told of the outcome of each.

use crate::artifact::BuildError;
use vstd::prelude::*;

verus! {

/// Why a pass was given up.
#[derive(Debug, Clone, Copy, PartialEq, Eq, Structural)]
pub enum Failure {
    /// The last action failed.
    Io,
    /// No artifact could be made of a file that was read.
    Build(BuildError),
    /// The outcome that was reported does not fit the action that was
    /// asked for.
    Unexpected,
}

/// What is to be done next.
#[derive(Debug, Clone, PartialEq, Eq)]
pub enum Action {
    /// Create the directory at `path`, with its parents; one that exists is
    /// left as it is.
    CreateDir { path: String },
    /// Get the body of the response to a request for `url`.
    Fetch { url: String },
    /// Read the file at `path` to its end.
    ReadFile { path: String },
    /// Write `bytes` to the file at `path`, in place of what it holds.
    WriteFile { path: String, bytes: Vec<u8> },
    /// Remove the file at `path`.
    RemoveFile { path: String },
    /// Nothing is left to do: the pass has ended well.
    Finish,
    /// Nothing more is done: the pass is given up.
    Abort { reason: Failure },
}

/// The outcome of an action.
#[derive(Debug, Clone, PartialEq, Eq)]
pub enum Event {
    /// The action was done; it yields nothing.
    Done,
    /// The action was done, and these are the bytes that were got or read.
    Data { bytes: Vec<u8> },
    /// The action failed.
    Failed,
}

/// Mathematical value of an [`Action`].
pub enum ActionView {
    CreateDir { path: Seq<char> },
    Fetch { url: Seq<char> },
    ReadFile { path: Seq<char> },
    WriteFile { path: Seq<char>, bytes: Seq<u8> },
    RemoveFile { path: Seq<char> },
    Finish,
    Abort { reason: Failure },
}

/// Mathematical value of an [`Event`].
pub enum EventView {
    Done,
    Data { bytes: Seq<u8> },
    Failed,
}

impl View for Action {
    type V = ActionView;

    open spec fn view(&self) -> ActionView {
        match self {
            Action::CreateDir { path } => ActionView::CreateDir { path: path@ },
            Action::Fetch { url } => ActionView::Fetch { url: url@ },
            Action::ReadFile { path } => ActionView::ReadFile { path: path@ },
            Action::WriteFile { path, bytes } => ActionView::WriteFile {
                path: path@,
                bytes: bytes@,
            },
            Action::RemoveFile { path } => ActionView::RemoveFile { path: path@ },
            Action::Finish => ActionView::Finish,
            Action::Abort { reason } => ActionView::Abort { reason: *reason },
        }
    }
}

impl View for Event {
    type V = EventView;

    open spec fn view(&self) -> EventView {
        match self {
            Event::Done => EventView::Done,
            Event::Data { bytes } => EventView::Data { bytes: bytes@ },
            Event::Failed => EventView::Failed,
        }
    }
}

/// The reason for which a pass is given up when `event` comes where an
/// outcome of another kind was due: the failure of the action, or an
/// outcome that does not fit it.
pub open spec fn misfit(event: EventView) -> Failure {
    match event {
        EventView::Failed => Failure::Io,
        _ => Failure::Unexpected,
    }
}

/// Computes [`misfit`].
pub fn misfit_of(event: &Event) -> (reason: Failure)
    ensures
        reason == misfit(event@),
{
    match event {
        Event::Failed => Failure::Io,
        _ => Failure::Unexpected,
    }
}

} // verus!

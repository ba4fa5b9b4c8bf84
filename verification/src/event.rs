//! What the front-end hands to the state machine, and what the state machine
//! asks of the front-end in return.

use crate::text::texts;
use vstd::prelude::*;

verus! {

/// A key press, as far as the state machine tells keys apart.
#[derive(Debug, Clone, Copy, PartialEq, Eq, Structural)]
pub enum Key {
    /// A key that writes a character.
    Char(char),
    Tab,
    /// Tab with Shift.
    BackTab,
    Left,
    Right,
    Up,
    Down,
    PageUp,
    PageDown,
    Enter,
    Backspace,
    Esc,
    /// Any other key.
    Other,
}

/// How a run of the multiplexer ended.
#[derive(Debug, PartialEq, Eq)]
pub enum CommandOutcome {
    /// It ran: whether it succeeded, and what it wrote to its standard output
    /// and to its standard error.
    Finished { success: bool, stdout: String, stderr: String },
    /// It could not be started; the words say why.
    Failed(String),
}

/// What the front-end has to do after the state machine has taken an event.
#[derive(Debug, PartialEq, Eq)]
pub enum Request {
    /// Nothing: wait for the next key.
    Continue,
    /// Leave the front-end and start the multiplexer with these arguments.
    Launch(Vec<String>),
    /// List the sessions and the files again and hand them to
    /// `App::refresh`.
    Refresh,
    /// Run the multiplexer with these arguments and hand the outcome to
    /// `App::finish_action`.
    Run(Vec<String>),
    /// List the sessions again and hand the listing to
    /// `App::fetch_sessions`.
    ListSessions,
}

/// What a `CommandOutcome` holds.
pub enum OutcomeView {
    Finished { success: bool, stdout: Seq<char>, stderr: Seq<char> },
    Failed(Seq<char>),
}

/// What a `Request` holds.
pub enum RequestView {
    Continue,
    Launch(Seq<Seq<char>>),
    Refresh,
    Run(Seq<Seq<char>>),
    ListSessions,
}

impl View for CommandOutcome {
    type V = OutcomeView;

    open spec fn view(&self) -> OutcomeView {
        match self {
            CommandOutcome::Finished { success, stdout, stderr } => OutcomeView::Finished {
                success: *success,
                stdout: stdout@,
                stderr: stderr@,
            },
            CommandOutcome::Failed(why) => OutcomeView::Failed(why@),
        }
    }
}

impl View for Request {
    type V = RequestView;

    open spec fn view(&self) -> RequestView {
        match self {
            Request::Continue => RequestView::Continue,
            Request::Launch(args) => RequestView::Launch(texts(args@)),
            Request::Refresh => RequestView::Refresh,
            Request::Run(args) => RequestView::Run(texts(args@)),
            Request::ListSessions => RequestView::ListSessions,
        }
    }
}

} // verus!

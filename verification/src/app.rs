//! The application state: the current action, the three lists with their
//! cursors, the focus and the input mode.

use crate::action::Action;
use crate::model::{lemma_visible_prefix, lemma_visible_take, visible, AppView, ModeView};
use crate::session::{file_views, session_views, KdlFile, Session, SessionView};
use vstd::prelude::*;

verus! {

/// The list that the navigation keys move in.
#[derive(Debug, Clone, Copy, PartialEq, Eq, Structural)]
pub enum ListType {
    Layout,
    Config,
    Session,
}

/// How keys are read.
#[derive(Debug, PartialEq, Eq)]
pub enum InputMode {
    /// Keys navigate and act.
    Normal,
    /// Keys edit the position to go to.
    GoToIndex,
    /// A status is shown, and the next key puts it away.
    Status(String),
}

/// The application state.
#[derive(Debug)]
pub struct App {
    /// The current action.
    pub action: Action,
    /// Every session that the multiplexer listed.
    pub sessions: Vec<Session>,
    /// The layout files.
    pub layouts: Vec<KdlFile>,
    /// The configuration files.
    pub configs: Vec<KdlFile>,
    /// The cursor in the visible sessions.
    pub selected_session: usize,
    /// The cursor in the layouts.
    pub selected_layout: usize,
    /// The cursor in the configurations.
    pub selected_config: usize,
    /// The list that the navigation keys move in.
    pub focused_list: ListType,
    /// How keys are read.
    pub input_mode: InputMode,
    /// The position that is being typed in, as far as it has been typed.
    pub goto_buffer: String,
    /// How the last kill or delete ended.
    pub status_message: String,
    /// Whether the run is over.
    pub exit: bool,
}

impl View for InputMode {
    type V = ModeView;

    open spec fn view(&self) -> ModeView {
        match self {
            InputMode::Normal => ModeView::Normal,
            InputMode::GoToIndex => ModeView::GoToIndex,
            InputMode::Status(message) => ModeView::Status(message@),
        }
    }
}

impl View for App {
    type V = AppView;

    open spec fn view(&self) -> AppView {
        AppView {
            action: self.action,
            sessions: session_views(self.sessions@),
            layouts: file_views(self.layouts@),
            configs: file_views(self.configs@),
            selected_session: self.selected_session as int,
            selected_layout: self.selected_layout as int,
            selected_config: self.selected_config as int,
            focused_list: self.focused_list,
            input_mode: self.input_mode@,
            goto_buffer: self.goto_buffer@,
            status_message: self.status_message@,
            exit: self.exit,
        }
    }
}

impl Default for ListType {
    fn default() -> (list: ListType)
        ensures
            list == ListType::Layout,
    {
        ListType::Layout
    }
}

impl Default for InputMode {
    fn default() -> (mode: InputMode)
        ensures
            mode@ == ModeView::Normal,
    {
        InputMode::Normal
    }
}

impl Default for App {
    /// The state at the start, before anything was listed.
    fn default() -> (app: App)
        ensures
            app@ == AppView::initial(),
            app@.wf(),
    {
        App {
            action: Action::attach(),
            sessions: Vec::new(),
            layouts: Vec::new(),
            configs: Vec::new(),
            selected_session: 0,
            selected_layout: 0,
            selected_config: 0,
            focused_list: ListType::Session,
            input_mode: InputMode::Normal,
            goto_buffer: String::new(),
            status_message: String::new(),
            exit: false,
        }
    }
}

/// What each session of a list of borrowed sessions holds.
pub open spec fn borrowed_views(v: Seq<&Session>) -> Seq<SessionView> {
    Seq::new(v.len(), |i: int| v[i]@)
}

impl App {
    /// How many sessions the current action is about.
    pub fn visible_count(&self) -> (n: usize)
        ensures
            n == self@.visible_sessions().len(),
    {
        let ghost all = session_views(self.sessions@);
        let mut n: usize = 0;
        let mut i: usize = 0;
        while i < self.sessions.len()
            invariant
                i <= self.sessions.len(),
                all == session_views(self.sessions@),
                n <= i,
                n == visible(self.action.code, all.take(i as int)).len(),
            decreases self.sessions.len() - i,
        {
            proof {
                lemma_visible_take(self.action.code, all, i as int);
            }
            if self.action.shows(self.sessions[i].exited) {
                n += 1;
            }
            i += 1;
        }
        assert(all.take(i as int) =~= all);
        n
    }

    /// The sessions that the current action is about, in their order: the
    /// exited ones for Attach and Delete, the running ones for Kill, and all
    /// of them for any other action.
    pub fn get_visible_sessions(&self) -> (shown: Vec<&Session>)
        ensures
            borrowed_views(shown@) == self@.visible_sessions(),
    {
        let ghost all = session_views(self.sessions@);
        let mut shown: Vec<&Session> = Vec::new();
        let mut i: usize = 0;
        while i < self.sessions.len()
            invariant
                i <= self.sessions.len(),
                all == session_views(self.sessions@),
                borrowed_views(shown@) == visible(self.action.code, all.take(i as int)),
            decreases self.sessions.len() - i,
        {
            proof {
                lemma_visible_take(self.action.code, all, i as int);
            }
            if self.action.shows(self.sessions[i].exited) {
                shown.push(&self.sessions[i]);
            }
            i += 1;
        }
        assert(all.take(i as int) =~= all);
        shown
    }

    /// The session under the cursor, if there is one.
    pub fn selected(&self) -> (found: Option<&Session>)
        ensures
            match found {
                Some(session) => self@.selected_visible() == Some(session@),
                None => self@.selected_visible() is None,
            },
    {
        let ghost all = session_views(self.sessions@);
        let mut n: usize = 0;
        let mut i: usize = 0;
        while i < self.sessions.len()
            invariant
                i <= self.sessions.len(),
                all == session_views(self.sessions@),
                n <= i,
                n == visible(self.action.code, all.take(i as int)).len(),
                n <= self.selected_session,
            decreases self.sessions.len() - i,
        {
            proof {
                lemma_visible_take(self.action.code, all, i as int);
            }
            if self.action.shows(self.sessions[i].exited) {
                if n == self.selected_session {
                    proof {
                        lemma_visible_prefix(self.action.code, all, i + 1, all.len() as int);
                        assert(all.take(all.len() as int) =~= all);
                        let upto = visible(self.action.code, all.take(i + 1));
                        assert(upto[n as int] == all[i as int]);
                    }
                    return Some(&self.sessions[i]);
                }
                n += 1;
            }
            i += 1;
        }
        assert(all.take(i as int) =~= all);
        None
    }
}

} // verus!

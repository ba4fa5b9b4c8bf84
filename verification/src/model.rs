//! The state machine as mathematics: what an `App` holds, which states are
//! well formed, and the state after each event.

use crate::action::{
    entry, position, shortcut_entry, shows, Action, ATTACH, DELETE, KILL, NEW_SESSION,
};
use crate::app::ListType;
use crate::event::{Key, OutcomeView, RequestView};
use crate::number::{all_digits, is_digit, unsigned_decimal};
use crate::selection::{
    clamp_index, in_bounds, next_index, page_down_index, page_up_index, previous_index,
};
use crate::session::{listed_sessions, KdlFileView, SessionView};
use crate::text::trimmed;
use vstd::prelude::*;

verus! {

/// What an `InputMode` holds.
pub enum ModeView {
    Normal,
    GoToIndex,
    Status(Seq<char>),
}

/// What an `App` holds.
#[verifier::ext_equal]
pub struct AppView {
    pub action: Action,
    pub sessions: Seq<SessionView>,
    pub layouts: Seq<KdlFileView>,
    pub configs: Seq<KdlFileView>,
    pub selected_session: int,
    pub selected_layout: int,
    pub selected_config: int,
    pub focused_list: ListType,
    pub input_mode: ModeView,
    pub goto_buffer: Seq<char>,
    pub status_message: Seq<char>,
    pub exit: bool,
}

/// The sessions that the action with this code is about, in their order.
pub open spec fn visible(code: u8, sessions: Seq<SessionView>) -> Seq<SessionView>
    decreases sessions.len(),
{
    if sessions.len() == 0 {
        Seq::empty()
    } else if shows(code, sessions.last().exited) {
        visible(code, sessions.drop_last()).push(sessions.last())
    } else {
        visible(code, sessions.drop_last())
    }
}

/// The sessions that are not called `name`, in their order.
pub open spec fn without_name(sessions: Seq<SessionView>, name: Seq<char>) -> Seq<SessionView>
    decreases sessions.len(),
{
    if sessions.len() == 0 {
        Seq::empty()
    } else if sessions.last().name == name {
        without_name(sessions.drop_last(), name)
    } else {
        without_name(sessions.drop_last(), name).push(sessions.last())
    }
}

/// The index of the first file at or after `from` that is called `name`.
pub open spec fn first_named(files: Seq<KdlFileView>, name: Seq<char>, from: int) -> Option<int>
    decreases files.len() - from,
{
    if from < 0 || from >= files.len() {
        None
    } else if files[from].name == name {
        Some(from)
    } else {
        first_named(files, name, from + 1)
    }
}

/// The cursor for a list that was read again: on the file called
/// `default.kdl` where there is one, and otherwise where it was.
pub open spec fn default_index(files: Seq<KdlFileView>, cursor: int) -> int {
    match first_named(files, "default.kdl"@, 0) {
        Some(i) => i,
        None => cursor,
    }
}

/// The one-based position that the go-to buffer holds: a decimal number that
/// is positive and that a `usize` can hold.
pub open spec fn goto_position(buffer: Seq<char>) -> Option<int> {
    match unsigned_decimal(buffer) {
        Some(n) => if 0 < n <= usize::MAX {
            Some(n)
        } else {
            None
        },
        None => None,
    }
}

/// The list that one of the arrow keys to the side moves the focus to.
pub open spec fn other_list(list: ListType) -> ListType {
    match list {
        ListType::Layout => ListType::Config,
        ListType::Config => ListType::Layout,
        ListType::Session => ListType::Session,
    }
}

/// The list that has the focus when the action with this code is chosen.
pub open spec fn home_list(code: u8) -> ListType {
    if code == NEW_SESSION {
        ListType::Layout
    } else {
        ListType::Session
    }
}

/// The status line after a kill or a delete of the session `name`: what the
/// multiplexer wrote, without the spaces at its ends (its standard output
/// after a success, its standard error after a failure); where that is
/// nothing, a sentence that names the session; and where the multiplexer
/// could not be started, the reason.
pub open spec fn status_text(code: u8, name: Seq<char>, outcome: OutcomeView) -> Seq<char> {
    match outcome {
        OutcomeView::Failed(why) => "Error: "@ + why,
        OutcomeView::Finished { success, stdout, stderr } => {
            let said = trimmed(
                if success {
                    stdout
                } else {
                    stderr
                },
            );
            if said.len() > 0 {
                said
            } else if code == KILL {
                "Killed session: "@ + name
            } else {
                "Deleted session: "@ + name
            }
        },
    }
}

impl AppView {
    /// The state at the start: the first action of the catalog, nothing
    /// listed yet, and normal mode.
    pub open spec fn initial() -> AppView {
        AppView {
            action: entry(0),
            sessions: Seq::empty(),
            layouts: Seq::empty(),
            configs: Seq::empty(),
            selected_session: 0,
            selected_layout: 0,
            selected_config: 0,
            focused_list: ListType::Session,
            input_mode: ModeView::Normal,
            goto_buffer: Seq::empty(),
            status_message: Seq::empty(),
            exit: false,
        }
    }

    /// The sessions that the current action is about.
    pub open spec fn visible_sessions(self) -> Seq<SessionView> {
        visible(self.action.code, self.sessions)
    }

    /// The session under the cursor, if there is one.
    pub open spec fn selected_visible(self) -> Option<SessionView> {
        if 0 <= self.selected_session < self.visible_sessions().len() {
            Some(self.visible_sessions()[self.selected_session])
        } else {
            None
        }
    }

    /// Whether each cursor is a valid selection in its list; the list of the
    /// session cursor is the list of visible sessions.
    pub open spec fn cursors_in_bounds(self) -> bool {
        &&& in_bounds(self.selected_session, self.visible_sessions().len() as int)
        &&& in_bounds(self.selected_layout, self.layouts.len() as int)
        &&& in_bounds(self.selected_config, self.configs.len() as int)
    }

    /// Whether the state is well formed: the action is an entry of the
    /// catalog, each cursor is in bounds, the go-to buffer holds digits only,
    /// and the focus is on the sessions exactly when the action is about
    /// sessions.
    pub open spec fn wf(self) -> bool {
        &&& self.action.cataloged()
        &&& self.cursors_in_bounds()
        &&& all_digits(self.goto_buffer)
        &&& (self.focused_list == ListType::Session) == (self.action.code != NEW_SESSION)
    }

    /// The state with each cursor brought back into its list.
    pub open spec fn clamp_selection(self) -> AppView {
        AppView {
            selected_session: clamp_index(
                self.selected_session,
                self.visible_sessions().len() as int,
            ),
            selected_layout: clamp_index(self.selected_layout, self.layouts.len() as int),
            selected_config: clamp_index(self.selected_config, self.configs.len() as int),
            ..self
        }
    }

    /// The state after a step forward in the focused list.
    pub open spec fn next_item(self) -> AppView {
        if self.action.code != NEW_SESSION {
            AppView {
                selected_session: next_index(
                    self.selected_session,
                    self.visible_sessions().len() as int,
                ),
                ..self
            }
        } else {
            match self.focused_list {
                ListType::Layout => AppView {
                    selected_layout: next_index(self.selected_layout, self.layouts.len() as int),
                    ..self
                },
                ListType::Config => AppView {
                    selected_config: next_index(self.selected_config, self.configs.len() as int),
                    ..self
                },
                ListType::Session => self,
            }
        }
    }

    /// The state after a step backward in the focused list.
    pub open spec fn previous_item(self) -> AppView {
        if self.action.code != NEW_SESSION {
            AppView {
                selected_session: previous_index(
                    self.selected_session,
                    self.visible_sessions().len() as int,
                ),
                ..self
            }
        } else {
            match self.focused_list {
                ListType::Layout => AppView {
                    selected_layout: previous_index(
                        self.selected_layout,
                        self.layouts.len() as int,
                    ),
                    ..self
                },
                ListType::Config => AppView {
                    selected_config: previous_index(
                        self.selected_config,
                        self.configs.len() as int,
                    ),
                    ..self
                },
                ListType::Session => self,
            }
        }
    }

    /// The state after a page up; only the session list has pages.
    pub open spec fn page_up(self) -> AppView {
        if self.action.code != NEW_SESSION {
            AppView {
                selected_session: page_up_index(
                    self.selected_session,
                    self.visible_sessions().len() as int,
                ),
                ..self
            }
        } else {
            self
        }
    }

    /// The state after a page down; only the session list has pages.
    pub open spec fn page_down(self) -> AppView {
        if self.action.code != NEW_SESSION {
            AppView {
                selected_session: page_down_index(
                    self.selected_session,
                    self.visible_sessions().len() as int,
                ),
                ..self
            }
        } else {
            self
        }
    }

    /// The state after `action` was chosen: the focus goes to the list that
    /// the action is about, and the cursors are clamped.
    pub open spec fn select_action(self, action: Action) -> AppView {
        AppView { action, focused_list: home_list(action.code), ..self }.clamp_selection()
    }

    /// The state after the next action of the catalog was chosen.
    pub open spec fn next_action(self) -> AppView {
        self.select_action(entry((position(self.action.code) + 1) % 4))
    }

    /// The state after the previous action of the catalog was chosen.
    pub open spec fn previous_action(self) -> AppView {
        self.select_action(entry((position(self.action.code) + 3) % 4))
    }

    /// The state after the key `c` was pressed where it is an action's
    /// shortcut.
    pub open spec fn do_action(self, c: char) -> AppView {
        match shortcut_entry(c) {
            Some(action) => self.select_action(action),
            None => self,
        }
    }

    /// The state after the focus moved to the other file list.
    pub open spec fn switch_list(self) -> AppView {
        AppView { focused_list: other_list(self.focused_list), ..self }
    }

    /// The state after the position in the go-to buffer was applied to the
    /// cursor of the focused list. Nothing changes where the buffer holds no
    /// position.
    pub open spec fn go_to(self) -> AppView {
        match goto_position(self.goto_buffer) {
            None => self,
            Some(position) => if self.action.code != NEW_SESSION {
                AppView {
                    selected_session: clamp_index(
                        position - 1,
                        self.visible_sessions().len() as int,
                    ),
                    ..self
                }
            } else {
                match self.focused_list {
                    ListType::Layout => AppView {
                        selected_layout: clamp_index(position - 1, self.layouts.len() as int),
                        ..self
                    },
                    ListType::Config => AppView {
                        selected_config: clamp_index(position - 1, self.configs.len() as int),
                        ..self
                    },
                    ListType::Session => self,
                }
            },
        }
    }

    /// The arguments that start a new session: the layout flag and the path
    /// of the selected layout, then the configuration flag and the path of
    /// the selected configuration, each pair only where its list has a
    /// selection.
    pub open spec fn launch_args(self) -> Seq<Seq<char>> {
        let layout = if 0 <= self.selected_layout < self.layouts.len() {
            seq!["-l"@, self.layouts[self.selected_layout].path]
        } else {
            Seq::empty()
        };
        let config = if 0 <= self.selected_config < self.configs.len() {
            seq!["-c"@, self.configs[self.selected_config].path]
        } else {
            Seq::empty()
        };
        layout + config
    }

    /// What Enter asks of the front-end: to start a new session; to attach to
    /// the selected session; to run the kill or the delete of the selected
    /// session; or nothing, where no session is selected.
    pub open spec fn trigger_request(self) -> RequestView {
        if self.action.code == NEW_SESSION {
            RequestView::Launch(self.launch_args())
        } else {
            match self.selected_visible() {
                None => RequestView::Continue,
                Some(session) => if self.action.code == ATTACH {
                    RequestView::Launch(seq!["attach"@, session.name])
                } else if self.action.code == KILL {
                    RequestView::Run(seq!["kill-session"@, session.name])
                } else if self.action.code == DELETE {
                    RequestView::Run(seq!["delete-session"@, session.name])
                } else {
                    RequestView::Continue
                },
            }
        }
    }

    /// The state after Enter: the run ends where a new session or an attach
    /// is asked for, and nothing changes otherwise.
    pub open spec fn trigger_action(self) -> AppView {
        if self.trigger_request() is Launch {
            AppView { exit: true, ..self }
        } else {
            self
        }
    }

    /// Whether a kill or a delete of the selected session is under way.
    pub open spec fn acts_on_session(self) -> bool {
        (self.action.code == KILL || self.action.code == DELETE) && self.selected_visible() is Some
    }

    /// The state after the kill or the delete of the selected session has
    /// ended with `outcome`: after a success the sessions of that name are
    /// gone and the cursors are clamped; in every case the status line says
    /// how it ended, and the input mode shows it.
    pub open spec fn finish_action(self, outcome: OutcomeView) -> AppView {
        if self.acts_on_session() {
            let name = self.selected_visible()->0.name;
            let text = status_text(self.action.code, name, outcome);
            let kept = if outcome matches OutcomeView::Finished { success: true, .. } {
                AppView { sessions: without_name(self.sessions, name), ..self }.clamp_selection()
            } else {
                self
            };
            AppView { status_message: text, input_mode: ModeView::Status(text), ..kept }
        } else {
            self
        }
    }

    /// What the front-end has to do after that: list the sessions again.
    pub open spec fn finish_request(self) -> RequestView {
        if self.acts_on_session() {
            RequestView::ListSessions
        } else {
            RequestView::Continue
        }
    }

    /// The state after the sessions were listed again: the sessions are those
    /// of the listing, or none where the listing could not be had, and the
    /// cursors are clamped.
    pub open spec fn fetch_sessions(self, listing: Option<Seq<char>>) -> AppView {
        AppView {
            sessions: match listing {
                Some(text) => listed_sessions(text),
                None => Seq::empty(),
            },
            ..self
        }.clamp_selection()
    }

    /// The state after the files were listed again: each file cursor goes to
    /// the file called `default.kdl` where there is one, and the cursors are
    /// clamped.
    pub open spec fn fetch_files(
        self,
        layouts: Seq<KdlFileView>,
        configs: Seq<KdlFileView>,
    ) -> AppView {
        AppView {
            layouts,
            configs,
            selected_layout: default_index(layouts, self.selected_layout),
            selected_config: default_index(configs, self.selected_config),
            ..self
        }.clamp_selection()
    }

    /// The state after sessions and files were listed again; `files` is
    /// `None` where there is no directory to list.
    pub open spec fn refresh(
        self,
        listing: Option<Seq<char>>,
        files: Option<(Seq<KdlFileView>, Seq<KdlFileView>)>,
    ) -> AppView {
        match files {
            Some((layouts, configs)) => self.fetch_sessions(listing).fetch_files(layouts, configs),
            None => self.fetch_sessions(listing),
        }
    }

    /// The state after a key in normal mode.
    pub open spec fn normal_key(self, key: Key) -> AppView {
        match key {
            Key::Char(c) => if c == 'q' || c == 'Q' {
                AppView { exit: true, ..self }
            } else if c == 'r' || c == 'R' {
                self
            } else if c == 'g' || c == 'G' {
                AppView { input_mode: ModeView::GoToIndex, goto_buffer: Seq::empty(), ..self }
            } else {
                self.do_action(c)
            },
            Key::Tab => self.next_action(),
            Key::BackTab => self.previous_action(),
            Key::Left => self.switch_list(),
            Key::Right => self.switch_list(),
            Key::Up => self.previous_item(),
            Key::Down => self.next_item(),
            Key::PageUp => self.page_up(),
            Key::PageDown => self.page_down(),
            Key::Enter => self.trigger_action(),
            _ => self,
        }
    }

    /// The state after a key while a position is typed in.
    pub open spec fn goto_key(self, key: Key) -> AppView {
        match key {
            Key::Char(c) => if is_digit(c) {
                AppView { goto_buffer: self.goto_buffer.push(c), ..self }
            } else {
                self
            },
            Key::Backspace => if self.goto_buffer.len() > 0 {
                AppView { goto_buffer: self.goto_buffer.drop_last(), ..self }
            } else {
                self
            },
            Key::Esc => AppView {
                input_mode: ModeView::Normal,
                goto_buffer: Seq::empty(),
                ..self
            },
            Key::Enter => AppView { input_mode: ModeView::Normal, ..self.go_to() },
            _ => self,
        }
    }

    /// The state after a key: in normal mode the key's own effect; while a
    /// position is typed in, the editing of the buffer; and while a status is
    /// shown, the return to normal mode, whatever the key.
    pub open spec fn handle_key(self, key: Key) -> AppView {
        match self.input_mode {
            ModeView::Normal => self.normal_key(key),
            ModeView::GoToIndex => self.goto_key(key),
            ModeView::Status(_) => AppView { input_mode: ModeView::Normal, ..self },
        }
    }

    /// What a key asks of the front-end: in normal mode `r` asks for a
    /// refresh and Enter for what the action needs; every other key, and
    /// every key in another mode, asks for nothing.
    pub open spec fn key_request(self, key: Key) -> RequestView {
        match self.input_mode {
            ModeView::Normal => match key {
                Key::Char(c) => if c == 'r' || c == 'R' {
                    RequestView::Refresh
                } else {
                    RequestView::Continue
                },
                Key::Enter => self.trigger_request(),
                _ => RequestView::Continue,
            },
            _ => RequestView::Continue,
        }
    }
}

/// One session more at the end: it is visible or not, and the visible ones
/// before it stay.
pub proof fn lemma_visible_take(code: u8, sessions: Seq<SessionView>, i: int)
    requires
        0 <= i < sessions.len(),
    ensures
        visible(code, sessions.take(i + 1)) == if shows(code, sessions[i].exited) {
            visible(code, sessions.take(i)).push(sessions[i])
        } else {
            visible(code, sessions.take(i))
        },
{
    assert(sessions.take(i + 1).drop_last() =~= sessions.take(i));
}

/// The visible sessions among the first `i` are the first of the visible
/// sessions among the first `k >= i`.
pub proof fn lemma_visible_prefix(code: u8, sessions: Seq<SessionView>, i: int, k: int)
    requires
        0 <= i <= k <= sessions.len(),
    ensures
        visible(code, sessions.take(i)).len() <= visible(code, sessions.take(k)).len(),
        visible(code, sessions.take(i)) == visible(code, sessions.take(k)).take(
            visible(code, sessions.take(i)).len() as int,
        ),
    decreases k - i,
{
    if i < k {
        lemma_visible_prefix(code, sessions, i, k - 1);
        lemma_visible_take(code, sessions, k - 1);
    }
}

/// One session more at the end: it is dropped or kept, and what was kept
/// before it stays.
pub proof fn lemma_without_name_take(sessions: Seq<SessionView>, name: Seq<char>, i: int)
    requires
        0 <= i < sessions.len(),
    ensures
        without_name(sessions.take(i + 1), name) == if sessions[i].name == name {
            without_name(sessions.take(i), name)
        } else {
            without_name(sessions.take(i), name).push(sessions[i])
        },
{
    assert(sessions.take(i + 1).drop_last() =~= sessions.take(i));
}

} // verus!

//! What the front-end draws: the key line, and each list with its title and
//! its rows. Everything here is derived from the state and changes nothing.

use crate::action::{entry, Action};
use crate::app::{App, InputMode, ListType};
use crate::model::{lemma_visible_take, visible, AppView, ModeView};
use crate::session::{file_views, session_views, KdlFile, KdlFileView, Session, SessionView};
use crate::number::{decimal, decimal_text, signed_decimal_of, signed_text};
use vstd::prelude::*;

verus! {

/// The key line is compact on a screen with fewer columns than this.
pub const WIDE: u16 = 172;

/// A piece of the key line: a caption, or the name of a key.
#[derive(Debug, PartialEq, Eq)]
pub struct Hint {
    pub text: String,
    /// Whether the text names a key.
    pub key: bool,
}

/// A row of a list.
#[derive(Debug, PartialEq, Eq)]
pub struct Row {
    pub text: String,
    /// Whether the cursor is on this row.
    pub selected: bool,
}

/// A list as it is shown.
#[derive(Debug, PartialEq, Eq)]
pub struct Pane {
    pub title: String,
    /// Whether the title shows the position that is being typed in.
    pub typing: bool,
    /// Whether the navigation keys move in this list.
    pub focused: bool,
    pub rows: Vec<Row>,
    /// What is shown in place of the rows where there are none to show.
    pub note: String,
}

/// What a `Hint` holds.
pub struct HintView {
    pub text: Seq<char>,
    pub key: bool,
}

/// What a `Row` holds.
pub struct RowView {
    pub text: Seq<char>,
    pub selected: bool,
}

/// What a `Pane` holds.
pub struct PaneView {
    pub title: Seq<char>,
    pub typing: bool,
    pub focused: bool,
    pub rows: Seq<RowView>,
    pub note: Seq<char>,
}

impl View for Hint {
    type V = HintView;

    open spec fn view(&self) -> HintView {
        HintView { text: self.text@, key: self.key }
    }
}

impl View for Row {
    type V = RowView;

    open spec fn view(&self) -> RowView {
        RowView { text: self.text@, selected: self.selected }
    }
}

impl View for Pane {
    type V = PaneView;

    open spec fn view(&self) -> PaneView {
        PaneView {
            title: self.title@,
            typing: self.typing,
            focused: self.focused,
            rows: row_views(self.rows@),
            note: self.note@,
        }
    }
}

/// What each hint of a list holds.
pub open spec fn hint_views(v: Seq<Hint>) -> Seq<HintView> {
    Seq::new(v.len(), |i: int| v[i]@)
}

/// What each row of a list holds.
pub open spec fn row_views(v: Seq<Row>) -> Seq<RowView> {
    Seq::new(v.len(), |i: int| v[i]@)
}

/// The upper-case form of an ASCII small letter; every other character is
/// itself.
pub open spec fn upper(c: char) -> char {
    if 'a' <= c <= 'z' {
        ((c as u32) - 32) as char
    } else {
        c
    }
}

/// A caption of the key line.
pub open spec fn caption(text: Seq<char>) -> HintView {
    HintView { text, key: false }
}

/// The name of a key in the key line.
pub open spec fn key_name(text: Seq<char>) -> HintView {
    HintView { text, key: true }
}

/// The part of the key line that does not depend on the catalog.
pub open spec fn fixed_hints(compact: bool) -> Seq<HintView> {
    if compact {
        seq![
            caption("Nav: "@),
            key_name("<Tab>"@),
            key_name("<L/R>"@),
            key_name("<Q> "@),
            caption(" Actions: "@),
        ]
    } else {
        seq![
            caption(" Switch Action "@),
            key_name("<Tab>"@),
            caption(" Switch List "@),
            key_name("<Left/Right>"@),
            caption(" Select Item "@),
            key_name("<Up/Down>"@),
            caption(" Go to "@),
            key_name("<G>"@),
            caption(" Execute "@),
            key_name("<Enter>"@),
            caption(" Refresh "@),
            key_name("<R>"@),
            caption(" Quit "@),
            key_name("<Q> "@),
        ]
    }
}

/// The part of the key line for one action: its shortcut in upper case, and
/// before that its title where the line is not compact.
pub open spec fn action_hints(action: Action, compact: bool) -> Seq<HintView> {
    let key = key_name(seq!['<', upper(action.shortcut), '>']);
    if compact {
        seq![key]
    } else {
        seq![caption(" "@ + action.title@ + " "@), key]
    }
}

/// The key line for a screen of `width` columns.
pub open spec fn key_line(width: u16) -> Seq<HintView> {
    let compact = width < WIDE;
    fixed_hints(compact) + action_hints(entry(0), compact) + action_hints(entry(1), compact)
        + action_hints(entry(2), compact) + action_hints(entry(3), compact)
}

/// The title of a list while a position is typed in.
pub open spec fn typing_title(buffer: Seq<char>) -> Seq<char> {
    " Go to index: "@ + buffer + "_ "@
}

/// The row text of the session at `index` of the visible sessions: its
/// one-based position, its name, its age, and a mark where it has exited.
pub open spec fn session_label(index: int, session: SessionView) -> Seq<char> {
    decimal_text((index + 1) as nat) + ". "@ + session.name + " - "@ + signed_text(
        session.time as int,
    ) + "s ago"@ + if session.exited {
        " (EXITED)"@
    } else {
        Seq::empty()
    }
}

/// The row text of the file at `index`: its one-based position and its name.
pub open spec fn file_label(index: int, file: KdlFileView) -> Seq<char> {
    decimal_text((index + 1) as nat) + ". "@ + file.name
}

/// The rows of a list of sessions with the cursor at `selected`.
pub open spec fn session_rows(shown: Seq<SessionView>, selected: int) -> Seq<RowView> {
    Seq::new(
        shown.len(),
        |i: int| RowView { text: session_label(i, shown[i]), selected: i == selected },
    )
}

/// The rows of a list of files with the cursor at `selected`.
pub open spec fn file_rows(files: Seq<KdlFileView>, selected: int) -> Seq<RowView> {
    Seq::new(
        files.len(),
        |i: int| RowView { text: file_label(i, files[i]), selected: i == selected },
    )
}

impl AppView {
    /// The list of the visible sessions as it is shown. Where there are
    /// none, a note stands in their place, under the plain title.
    pub open spec fn session_pane(self) -> PaneView {
        if self.visible_sessions().len() == 0 {
            PaneView {
                title: " Zellij Sessions "@,
                typing: false,
                focused: true,
                rows: Seq::empty(),
                note: "There are no sessions for this action"@,
            }
        } else {
            PaneView {
                title: if self.input_mode is GoToIndex {
                    typing_title(self.goto_buffer)
                } else {
                    " Zellij Sessions "@
                },
                typing: self.input_mode is GoToIndex,
                focused: true,
                rows: session_rows(self.visible_sessions(), self.selected_session),
                note: Seq::empty(),
            }
        }
    }

    /// The list of the layouts as it is shown.
    pub open spec fn layout_pane(self) -> PaneView {
        let focused = self.focused_list == ListType::Layout;
        PaneView {
            title: if focused && self.input_mode is GoToIndex {
                typing_title(self.goto_buffer)
            } else {
                " Zellij Layouts "@
            },
            typing: focused && self.input_mode is GoToIndex,
            focused,
            rows: file_rows(self.layouts, self.selected_layout),
            note: Seq::empty(),
        }
    }

    /// The list of the configurations as it is shown.
    pub open spec fn config_pane(self) -> PaneView {
        let focused = self.focused_list == ListType::Config;
        PaneView {
            title: if focused && self.input_mode is GoToIndex {
                typing_title(self.goto_buffer)
            } else {
                " Zellij Configs "@
            },
            typing: focused && self.input_mode is GoToIndex,
            focused,
            rows: file_rows(self.configs, self.selected_config),
            note: Seq::empty(),
        }
    }

    /// The status that is shown, if one is.
    pub open spec fn shown_status(self) -> Option<Seq<char>> {
        match self.input_mode {
            ModeView::Status(message) => Some(message),
            _ => None,
        }
    }
}

/// Upper-cases an ASCII small letter.
pub fn to_upper(c: char) -> (u: char)
    ensures
        u == upper(c),
{
    if c >= 'a' && c <= 'z' {
        ((c as u8) - 32) as char
    } else {
        c
    }
}

fn caption_of(text: &str) -> (hint: Hint)
    ensures
        hint@ == caption(text@),
{
    Hint { text: String::from_str(text), key: false }
}

fn key_of(text: &str) -> (hint: Hint)
    ensures
        hint@ == key_name(text@),
{
    Hint { text: String::from_str(text), key: true }
}

/// Adds the part of the key line for one action.
fn push_action_hints(hints: &mut Vec<Hint>, action: Action, compact: bool)
    ensures
        hint_views(final(hints)@) == hint_views(old(hints)@) + action_hints(action, compact),
{
    if !compact {
        let mut title = String::from_str(" ");
        title.append(action.title);
        title.append(" ");
        hints.push(Hint { text: title, key: false });
    }
    let mut key = String::from_str("<");
    key.push(to_upper(action.shortcut));
    key.append(">");
    proof {
        reveal_strlit("<");
        reveal_strlit(">");
        assert(key@ =~= seq!['<', upper(action.shortcut), '>']);
    }
    hints.push(Hint { text: key, key: true });
}

/// The key line for a screen of `width` columns: compact below 172 columns,
/// and with every caption from there on.
pub fn key_hints(width: u16) -> (hints: Vec<Hint>)
    ensures
        hint_views(hints@) == key_line(width),
{
    let compact = width < WIDE;
    let mut hints: Vec<Hint> = Vec::new();
    if compact {
        hints.push(caption_of("Nav: "));
        hints.push(key_of("<Tab>"));
        hints.push(key_of("<L/R>"));
        hints.push(key_of("<Q> "));
        hints.push(caption_of(" Actions: "));
    } else {
        hints.push(caption_of(" Switch Action "));
        hints.push(key_of("<Tab>"));
        hints.push(caption_of(" Switch List "));
        hints.push(key_of("<Left/Right>"));
        hints.push(caption_of(" Select Item "));
        hints.push(key_of("<Up/Down>"));
        hints.push(caption_of(" Go to "));
        hints.push(key_of("<G>"));
        hints.push(caption_of(" Execute "));
        hints.push(key_of("<Enter>"));
        hints.push(caption_of(" Refresh "));
        hints.push(key_of("<R>"));
        hints.push(caption_of(" Quit "));
        hints.push(key_of("<Q> "));
    }
    push_action_hints(&mut hints, Action::attach(), compact);
    push_action_hints(&mut hints, Action::kill(), compact);
    push_action_hints(&mut hints, Action::delete(), compact);
    push_action_hints(&mut hints, Action::new_session(), compact);
    hints
}

/// The title of a list while a position is typed in.
fn typing_title_of(buffer: &String) -> (title: String)
    ensures
        title@ == typing_title(buffer@),
{
    let mut title = String::from_str(" Go to index: ");
    title.append(buffer.as_str());
    title.append("_ ");
    title
}

/// The row text of the session at `index` of the visible sessions.
fn session_label_of(index: usize, session: &Session) -> (text: String)
    requires
        index < usize::MAX,
    ensures
        text@ == session_label(index as int, session@),
{
    let mut text = decimal((index + 1) as u64);
    text.append(". ");
    text.append(session.name.as_str());
    text.append(" - ");
    text.append(signed_decimal_of(session.time).as_str());
    text.append("s ago");
    if session.exited {
        text.append(" (EXITED)");
    }
    text
}

/// The row text of the file at `index`.
fn file_label_of(index: usize, file: &KdlFile) -> (text: String)
    requires
        index < usize::MAX,
    ensures
        text@ == file_label(index as int, file@),
{
    let mut text = decimal((index + 1) as u64);
    text.append(". ");
    text.append(file.name.as_str());
    text
}

/// The rows of a list of files with the cursor at `selected`.
fn file_rows_of(files: &Vec<KdlFile>, selected: usize) -> (rows: Vec<Row>)
    ensures
        row_views(rows@) == file_rows(file_views(files@), selected as int),
{
    let mut rows: Vec<Row> = Vec::new();
    let mut i: usize = 0;
    while i < files.len()
        invariant
            i <= files.len(),
            rows.len() == i,
            row_views(rows@) == file_rows(file_views(files@).take(i as int), selected as int),
        decreases files.len() - i,
    {
        let ghost before = rows@;
        rows.push(Row { text: file_label_of(i, &files[i]), selected: i == selected });
        proof {
            let shorter = file_views(files@).take(i as int);
            let longer = file_views(files@).take(i + 1);
            assert forall|j: int| 0 <= j < longer.len() implies row_views(rows@)[j] == file_rows(
                longer,
                selected as int,
            )[j] by {
                if j < i {
                    assert(row_views(before)[j] == file_rows(shorter, selected as int)[j]);
                }
            }
        }
        i += 1;
    }
    rows
}

impl App {
    /// The list of the visible sessions as it is shown: a row for each, with
    /// its one-based position, and the cursor's row marked.
    pub fn session_pane(&self) -> (pane: Pane)
        ensures
            pane@ == self@.session_pane(),
    {
        let ghost all = session_views(self.sessions@);
        let mut rows: Vec<Row> = Vec::new();
        let mut i: usize = 0;
        while i < self.sessions.len()
            invariant
                i <= self.sessions.len(),
                all == session_views(self.sessions@),
                rows.len() <= i,
                rows.len() == visible(self.action.code, all.take(i as int)).len(),
                row_views(rows@) == session_rows(
                    visible(self.action.code, all.take(i as int)),
                    self.selected_session as int,
                ),
            decreases self.sessions.len() - i,
        {
            proof {
                lemma_visible_take(self.action.code, all, i as int);
            }
            if self.action.shows(self.sessions[i].exited) {
                let at = rows.len();
                let ghost before = rows@;
                rows.push(
                    Row {
                        text: session_label_of(at, &self.sessions[i]),
                        selected: at == self.selected_session,
                    },
                );
                proof {
                    let shorter = visible(self.action.code, all.take(i as int));
                    let longer = visible(self.action.code, all.take(i + 1));
                    let cursor = self.selected_session as int;
                    assert forall|j: int| 0 <= j < longer.len() implies row_views(rows@)[j]
                        == session_rows(longer, cursor)[j] by {
                        if j < at {
                            assert(row_views(before)[j] == session_rows(shorter, cursor)[j]);
                        }
                    }
                }
            }
            i += 1;
        }
        assert(all.take(i as int) =~= all);
        let typing = match self.input_mode {
            InputMode::GoToIndex => true,
            _ => false,
        };
        if rows.len() == 0 {
            assert(row_views(rows@) =~= Seq::<RowView>::empty());
            Pane {
                title: String::from_str(" Zellij Sessions "),
                typing: false,
                focused: true,
                rows,
                note: String::from_str("There are no sessions for this action"),
            }
        } else {
            Pane {
                title: if typing {
                    typing_title_of(&self.goto_buffer)
                } else {
                    String::from_str(" Zellij Sessions ")
                },
                typing,
                focused: true,
                rows,
                note: String::new(),
            }
        }
    }

    /// The list of the layouts as it is shown.
    pub fn layout_pane(&self) -> (pane: Pane)
        ensures
            pane@ == self@.layout_pane(),
    {
        let focused = self.focused_list == ListType::Layout;
        let typing = focused && match self.input_mode {
            InputMode::GoToIndex => true,
            _ => false,
        };
        Pane {
            title: if typing {
                typing_title_of(&self.goto_buffer)
            } else {
                String::from_str(" Zellij Layouts ")
            },
            typing,
            focused,
            rows: file_rows_of(&self.layouts, self.selected_layout),
            note: String::new(),
        }
    }

    /// The list of the configurations as it is shown.
    pub fn config_pane(&self) -> (pane: Pane)
        ensures
            pane@ == self@.config_pane(),
    {
        let focused = self.focused_list == ListType::Config;
        let typing = focused && match self.input_mode {
            InputMode::GoToIndex => true,
            _ => false,
        };
        Pane {
            title: if typing {
                typing_title_of(&self.goto_buffer)
            } else {
                String::from_str(" Zellij Configs ")
            },
            typing,
            focused,
            rows: file_rows_of(&self.configs, self.selected_config),
            note: String::new(),
        }
    }

    /// The status that is shown, if one is.
    pub fn shown_status(&self) -> (status: Option<&String>)
        ensures
            match status {
                Some(message) => self@.shown_status() == Some(message@),
                None => self@.shown_status() is None,
            },
    {
        match &self.input_mode {
            InputMode::Status(message) => Some(message),
            _ => None,
        }
    }
}

} // verus!

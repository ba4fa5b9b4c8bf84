//! The action catalog: four actions in a fixed order, each with a shortcut
//! key and a title, and the rule that says which sessions an action is about.

use vstd::prelude::*;

verus! {

/// The code of the action that attaches to a session.
pub const ATTACH: u8 = 0;

/// The code of the action that kills a session.
pub const KILL: u8 = 1;

/// The code of the action that deletes a session.
pub const DELETE: u8 = 2;

/// The code of the action that starts a new session.
pub const NEW_SESSION: u8 = 3;

/// How many actions the catalog holds.
pub const ACTION_COUNT: usize = 4;

/// One entry of the catalog. Two actions are equal when their codes are.
#[derive(Debug, Clone, Copy)]
pub struct Action {
    /// What tells the action from the others.
    pub code: u8,
    /// The key that chooses the action.
    pub shortcut: char,
    /// The name that is shown.
    pub title: &'static str,
}

impl PartialEq for Action {
    fn eq(&self, other: &Action) -> (same: bool) {
        self.code == other.code
    }
}

impl vstd::std_specs::cmp::PartialEqSpecImpl for Action {
    open spec fn obeys_eq_spec() -> bool {
        true
    }

    open spec fn eq_spec(&self, other: &Action) -> bool {
        self.code == other.code
    }
}

/// An action equals a character when the character is its shortcut, letter
/// for letter.
impl PartialEq<char> for Action {
    fn eq(&self, other: &char) -> (same: bool) {
        self.shortcut == *other
    }
}

impl vstd::std_specs::cmp::PartialEqSpecImpl<char> for Action {
    open spec fn obeys_eq_spec() -> bool {
        true
    }

    open spec fn eq_spec(&self, other: &char) -> bool {
        self.shortcut == *other
    }
}

impl PartialEq<Action> for char {
    fn eq(&self, other: &Action) -> (same: bool) {
        *self == other.shortcut
    }
}

impl vstd::std_specs::cmp::PartialEqSpecImpl<Action> for char {
    open spec fn obeys_eq_spec() -> bool {
        true
    }

    open spec fn eq_spec(&self, other: &Action) -> bool {
        *self == other.shortcut
    }
}

/// The catalog entry at `index`; the entries at 0 to 3 are Attach, Kill,
/// Delete and New Session. Every other index stands for the first entry.
pub open spec fn entry(index: int) -> Action {
    if index == 1 {
        Action { code: KILL, shortcut: 'k', title: "Kill" }
    } else if index == 2 {
        Action { code: DELETE, shortcut: 'd', title: "Delete" }
    } else if index == 3 {
        Action { code: NEW_SESSION, shortcut: 'n', title: "New Session" }
    } else {
        Action { code: ATTACH, shortcut: 'a', title: "Attach" }
    }
}

/// Where the action with this code stands in the catalog; an unknown code
/// counts as the first entry.
pub open spec fn position(code: u8) -> int {
    if code < ACTION_COUNT {
        code as int
    } else {
        0
    }
}

/// The lower-case form of an ASCII capital; every other character is itself.
pub open spec fn lower(c: char) -> char {
    if 'A' <= c <= 'Z' {
        ((c as u32) + 32) as char
    } else {
        c
    }
}

/// The catalog entry whose shortcut is `c`, whatever its case.
pub open spec fn shortcut_entry(c: char) -> Option<Action> {
    if lower(c) == 'a' {
        Some(entry(0))
    } else if lower(c) == 'k' {
        Some(entry(1))
    } else if lower(c) == 'd' {
        Some(entry(2))
    } else if lower(c) == 'n' {
        Some(entry(3))
    } else {
        None
    }
}

/// Whether the action with this code is about a session that has exited
/// (`exited`) or is still running: Attach and Delete are about exited
/// sessions, Kill is about running ones, and every other action leaves the
/// sessions unfiltered.
pub open spec fn shows(code: u8, exited: bool) -> bool {
    if code == ATTACH || code == DELETE {
        exited
    } else if code == KILL {
        !exited
    } else {
        true
    }
}

/// The catalog, in its fixed order.
pub fn actions() -> (all: [Action; 4])
    ensures
        forall|i: int| 0 <= i < 4 ==> all@[i] == entry(i),
{
    [Action::attach(), Action::kill(), Action::delete(), Action::new_session()]
}

/// Lower-cases an ASCII capital.
pub fn to_lower(c: char) -> (l: char)
    ensures
        l == lower(c),
{
    if c >= 'A' && c <= 'Z' {
        ((c as u8) + 32) as char
    } else {
        c
    }
}

impl Action {
    /// Whether this is an entry of the catalog, with that entry's shortcut and
    /// title.
    pub open spec fn cataloged(self) -> bool {
        self.code < ACTION_COUNT && self == entry(self.code as int)
    }

    /// Attach to an exited session.
    pub fn attach() -> (a: Action)
        ensures
            a == entry(0),
    {
        Action { code: ATTACH, shortcut: 'a', title: "Attach" }
    }

    /// Kill a running session.
    pub fn kill() -> (a: Action)
        ensures
            a == entry(1),
    {
        Action { code: KILL, shortcut: 'k', title: "Kill" }
    }

    /// Delete an exited session.
    pub fn delete() -> (a: Action)
        ensures
            a == entry(2),
    {
        Action { code: DELETE, shortcut: 'd', title: "Delete" }
    }

    /// Start a new session from a layout and a configuration.
    pub fn new_session() -> (a: Action)
        ensures
            a == entry(3),
    {
        Action { code: NEW_SESSION, shortcut: 'n', title: "New Session" }
    }

    /// The catalog entry at `index`.
    pub fn at(index: usize) -> (a: Action)
        ensures
            a == entry(index as int),
    {
        if index == 1 {
            Action::kill()
        } else if index == 2 {
            Action::delete()
        } else if index == 3 {
            Action::new_session()
        } else {
            Action::attach()
        }
    }

    /// The action after this one in the catalog; after the last comes the
    /// first.
    pub fn next(self) -> (a: Action)
        ensures
            a == entry((position(self.code) + 1) % 4),
            a.cataloged(),
    {
        let at: usize = if self.code < 4 {
            self.code as usize
        } else {
            0
        };
        Action::at((at + 1) % ACTION_COUNT)
    }

    /// The action before this one in the catalog; before the first comes the
    /// last.
    pub fn previous(self) -> (a: Action)
        ensures
            a == entry((position(self.code) + 3) % 4),
            a.cataloged(),
    {
        let at: usize = if self.code < 4 {
            self.code as usize
        } else {
            0
        };
        Action::at((at + ACTION_COUNT - 1) % ACTION_COUNT)
    }

    /// The catalog entry whose shortcut is `c`, whatever its case.
    pub fn of_shortcut(c: char) -> (a: Option<Action>)
        ensures
            a == shortcut_entry(c),
            a matches Some(found) ==> found.cataloged() && found.shortcut == lower(c),
    {
        let l = to_lower(c);
        if l == 'a' {
            Some(Action::attach())
        } else if l == 'k' {
            Some(Action::kill())
        } else if l == 'd' {
            Some(Action::delete())
        } else if l == 'n' {
            Some(Action::new_session())
        } else {
            None
        }
    }

    /// Whether this action works on the two file lists, not on the sessions.
    pub fn picks_files(&self) -> (b: bool)
        ensures
            b == (self.code == NEW_SESSION),
    {
        self.code == NEW_SESSION
    }

    /// Whether this action is about a session that has exited (`exited`) or is
    /// still running.
    pub fn shows(&self, exited: bool) -> (b: bool)
        ensures
            b == shows(self.code, exited),
    {
        if self.code == ATTACH || self.code == DELETE {
            exited
        } else if self.code == KILL {
            !exited
        } else {
            true
        }
    }
}

} // verus!

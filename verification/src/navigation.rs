//! Moving the cursors and choosing the action.

use crate::action::Action;
use crate::app::{App, ListType};
use crate::model::AppView;
use crate::selection::{clamp, next, page_down, page_up, previous};
use vstd::prelude::*;

verus! {

impl App {
    /// Brings each cursor back into its list: to zero in an empty list, and to
    /// the last item where it stands past the end. Call it after a list has
    /// changed.
    pub fn clamp_selection(&mut self)
        ensures
            final(self)@ == old(self)@.clamp_selection(),
            final(self)@.cursors_in_bounds(),
    {
        self.selected_session = clamp(self.selected_session, self.visible_count());
        self.selected_layout = clamp(self.selected_layout, self.layouts.len());
        self.selected_config = clamp(self.selected_config, self.configs.len());
    }

    /// Moves the cursor of the focused list one item back; before the first
    /// item comes the last. Nothing moves in an empty list.
    pub fn previous_item(&mut self)
        ensures
            final(self)@ == old(self)@.previous_item(),
            old(self)@.wf() ==> final(self)@.wf(),
    {
        if !self.action.picks_files() {
            self.selected_session = previous(self.selected_session, self.visible_count());
        } else {
            match self.focused_list {
                ListType::Layout => {
                    self.selected_layout = previous(self.selected_layout, self.layouts.len());
                },
                ListType::Config => {
                    self.selected_config = previous(self.selected_config, self.configs.len());
                },
                ListType::Session => {},
            }
        }
    }

    /// Moves the cursor of the focused list one item on; after the last item
    /// comes the first. Nothing moves in an empty list.
    pub fn next_item(&mut self)
        ensures
            final(self)@ == old(self)@.next_item(),
            old(self)@.wf() ==> final(self)@.wf(),
    {
        if !self.action.picks_files() {
            self.selected_session = next(self.selected_session, self.visible_count());
        } else {
            match self.focused_list {
                ListType::Layout => {
                    self.selected_layout = next(self.selected_layout, self.layouts.len());
                },
                ListType::Config => {
                    self.selected_config = next(self.selected_config, self.configs.len());
                },
                ListType::Session => {},
            }
        }
    }

    /// Moves the session cursor ten items back, but not before the first. The
    /// file lists have no pages.
    pub fn page_up(&mut self)
        ensures
            final(self)@ == old(self)@.page_up(),
            old(self)@.wf() ==> final(self)@.wf(),
    {
        if !self.action.picks_files() {
            self.selected_session = page_up(self.selected_session, self.visible_count());
        }
    }

    /// Moves the session cursor ten items on, but not past the last. The file
    /// lists have no pages.
    pub fn page_down(&mut self)
        ensures
            final(self)@ == old(self)@.page_down(),
            old(self)@.wf() ==> final(self)@.wf(),
    {
        if !self.action.picks_files() {
            self.selected_session = page_down(self.selected_session, self.visible_count());
        }
    }

    /// Makes `action` the current action, moves the focus to the list that the
    /// action is about, and clamps the cursors.
    pub fn select_action(&mut self, action: Action)
        ensures
            final(self)@ == old(self)@.select_action(action),
            old(self)@.wf() && action.cataloged() ==> final(self)@.wf(),
    {
        self.action = action;
        self.focused_list = if action.picks_files() {
            ListType::Layout
        } else {
            ListType::Session
        };
        self.clamp_selection();
    }

    /// Chooses the action before the current one; before the first comes the
    /// last.
    pub fn previous_action(&mut self)
        ensures
            final(self)@ == old(self)@.previous_action(),
            old(self)@.wf() ==> final(self)@.wf(),
    {
        self.select_action(self.action.previous());
    }

    /// Chooses the action after the current one; after the last comes the
    /// first.
    pub fn next_action(&mut self)
        ensures
            final(self)@ == old(self)@.next_action(),
            old(self)@.wf() ==> final(self)@.wf(),
    {
        self.select_action(self.action.next());
    }

    /// Chooses the action whose shortcut is `c`, in either case; nothing
    /// changes where `c` is no action's shortcut.
    pub fn do_action(&mut self, c: char)
        ensures
            final(self)@ == old(self)@.do_action(c),
            old(self)@.wf() ==> final(self)@.wf(),
    {
        match Action::of_shortcut(c) {
            Some(action) => {
                self.select_action(action);
            },
            None => {},
        }
    }

    /// Moves the focus from one file list to the other; nothing changes while
    /// the focus is on the sessions.
    pub fn switch_list(&mut self)
        ensures
            final(self)@ == old(self)@.switch_list(),
            old(self)@.wf() ==> final(self)@.wf(),
    {
        self.focused_list = match self.focused_list {
            ListType::Layout => ListType::Config,
            ListType::Config => ListType::Layout,
            ListType::Session => ListType::Session,
        };
    }

    /// Ends the run.
    pub fn exit(&mut self)
        ensures
            final(self)@ == (AppView { exit: true, ..old(self)@ }),
    {
        self.exit = true;
    }
}

} // verus!

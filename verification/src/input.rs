//! Reading keys: the three input modes and what each key does in them.

use crate::app::{App, InputMode, ListType};
use crate::event::{Key, Request};
use crate::model::goto_position;
use crate::number::read_unsigned;
use crate::selection::clamp;
use crate::text::chars_of;
use vstd::prelude::*;

verus! {

/// The one-based position that `buffer` holds, if it holds one.
pub fn read_position(buffer: &str) -> (position: Option<usize>)
    ensures
        match position {
            Some(p) => goto_position(buffer@) == Some(p as int),
            None => goto_position(buffer@) is None,
        },
{
    let chars = chars_of(buffer);
    // One more than the largest position.
    let cap: u128 = usize::MAX as u128 + 1;
    assert(chars@.subrange(0, chars.len() as int) =~= chars@);
    match read_unsigned(&chars, 0, chars.len(), cap) {
        Some(n) => if 0 < n && n < cap {
            Some(n as usize)
        } else {
            None
        },
        None => None,
    }
}

impl App {
    /// Moves the cursor of the focused list to the position that the go-to
    /// buffer holds, or to the last item where the position is past the end.
    /// Nothing moves where the buffer holds no position.
    pub fn go_to(&mut self)
        ensures
            final(self)@ == old(self)@.go_to(),
            old(self)@.wf() ==> final(self)@.wf(),
    {
        let position = match read_position(self.goto_buffer.as_str()) {
            Some(p) => p,
            None => {
                return ;
            },
        };
        if !self.action.picks_files() {
            self.selected_session = clamp(position - 1, self.visible_count());
        } else {
            match self.focused_list {
                ListType::Layout => {
                    self.selected_layout = clamp(position - 1, self.layouts.len());
                },
                ListType::Config => {
                    self.selected_config = clamp(position - 1, self.configs.len());
                },
                ListType::Session => {},
            }
        }
    }

    /// Takes a key in normal mode.
    fn normal_key(&mut self, key: Key) -> (request: Request)
        requires
            old(self)@.input_mode is Normal,
        ensures
            final(self)@ == old(self)@.normal_key(key),
            request@ == old(self)@.key_request(key),
            old(self)@.wf() ==> final(self)@.wf(),
    {
        match key {
            Key::Char(c) => {
                if c == 'q' || c == 'Q' {
                    self.exit();
                } else if c == 'r' || c == 'R' {
                    return Request::Refresh;
                } else if c == 'g' || c == 'G' {
                    self.input_mode = InputMode::GoToIndex;
                    self.goto_buffer = String::new();
                } else {
                    self.do_action(c);
                }
                Request::Continue
            },
            Key::Tab => {
                self.next_action();
                Request::Continue
            },
            Key::BackTab => {
                self.previous_action();
                Request::Continue
            },
            Key::Left => {
                self.switch_list();
                Request::Continue
            },
            Key::Right => {
                self.switch_list();
                Request::Continue
            },
            Key::Up => {
                self.previous_item();
                Request::Continue
            },
            Key::Down => {
                self.next_item();
                Request::Continue
            },
            Key::PageUp => {
                self.page_up();
                Request::Continue
            },
            Key::PageDown => {
                self.page_down();
                Request::Continue
            },
            Key::Enter => self.trigger_action(),
            _ => Request::Continue,
        }
    }

    /// Takes a key while a position is typed in.
    fn goto_key(&mut self, key: Key)
        ensures
            final(self)@ == old(self)@.goto_key(key),
            old(self)@.wf() ==> final(self)@.wf(),
    {
        match key {
            Key::Char(c) => {
                if c >= '0' && c <= '9' {
                    self.goto_buffer.push(c);
                }
            },
            Key::Backspace => {
                self.goto_buffer.pop();
            },
            Key::Esc => {
                self.input_mode = InputMode::Normal;
                self.goto_buffer = String::new();
            },
            Key::Enter => {
                self.go_to();
                self.input_mode = InputMode::Normal;
            },
            _ => {},
        }
    }

    /// Takes one key press and says what the front-end has to do next.
    ///
    /// In normal mode `q` ends the run, `r` asks for a refresh, `g` opens the
    /// go-to buffer, Tab and Shift+Tab choose the next and the previous
    /// action, Left and Right move the focus between the two file lists, Up,
    /// Down, PageUp and PageDown move the cursor, Enter acts on the selection,
    /// and an action's shortcut chooses that action; letters count in either
    /// case. While a position is typed in, a digit joins the buffer,
    /// Backspace takes the last one away, Esc gives up, and Enter moves the
    /// cursor there. While a status is shown, any key puts it away and does
    /// nothing else. Every other key does nothing.
    pub fn handle_key_event(&mut self, key: Key) -> (request: Request)
        ensures
            final(self)@ == old(self)@.handle_key(key),
            request@ == old(self)@.key_request(key),
            old(self)@.wf() ==> final(self)@.wf(),
    {
        let normal = match self.input_mode {
            InputMode::Normal => true,
            _ => false,
        };
        let typing = match self.input_mode {
            InputMode::GoToIndex => true,
            _ => false,
        };
        if normal {
            self.normal_key(key)
        } else if typing {
            self.goto_key(key);
            Request::Continue
        } else {
            self.input_mode = InputMode::Normal;
            Request::Continue
        }
    }
}

} // verus!

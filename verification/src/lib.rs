//! The state machine behind a terminal front-end for a session multiplexer:
//! selectable lists, input modes, the action catalog, and the commands that
//! the front-end hands to the multiplexer.
//!
//! The front-end feeds key presses to [`App::handle_key_event`] and does what
//! the returned [`Request`] asks for; the state machine itself reads no key,
//! starts no process and draws nothing.

pub mod action;
pub mod app;
pub mod command;
pub mod duration;
pub mod event;
pub mod files;
pub mod input;
pub mod laws;
pub mod model;
pub mod navigation;
pub mod number;
pub mod screen;
pub mod selection;
pub mod session;
pub mod text;

pub use action::{actions, Action};
pub use app::{App, InputMode, ListType};
pub use duration::parse_time;
pub use event::{CommandOutcome, Key, Request};
pub use session::{parse_sessions, KdlFile, Session};

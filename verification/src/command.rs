//! Acting on the selection, and taking in what the multiplexer answers.

use crate::action::{ATTACH, DELETE, KILL};
use crate::app::{App, InputMode};
use crate::event::{CommandOutcome, Request};
use crate::model::{first_named, lemma_without_name_take, status_text, without_name};
use crate::session::{file_views, parse_sessions, session_views, KdlFile, Session};
use crate::text::{chars_of, string_of, texts, trim_bounds};
use vstd::prelude::*;

verus! {

/// The sessions that are not called `name`, in their order.
pub fn sessions_without(sessions: &Vec<Session>, name: &String) -> (kept: Vec<Session>)
    ensures
        session_views(kept@) == without_name(session_views(sessions@), name@),
{
    let ghost all = session_views(sessions@);
    let mut kept: Vec<Session> = Vec::new();
    let mut i: usize = 0;
    while i < sessions.len()
        invariant
            i <= sessions.len(),
            all == session_views(sessions@),
            session_views(kept@) == without_name(all.take(i as int), name@),
        decreases sessions.len() - i,
    {
        proof {
            lemma_without_name_take(all, name@, i as int);
        }
        if sessions[i].name != *name {
            kept.push(sessions[i].clone());
        }
        i += 1;
    }
    assert(all.take(i as int) =~= all);
    kept
}

/// The index of the first file that is called `name`.
pub fn position_named(files: &Vec<KdlFile>, name: &String) -> (found: Option<usize>)
    ensures
        match found {
            Some(i) => first_named(file_views(files@), name@, 0) == Some(i as int) && i
                < files.len(),
            None => first_named(file_views(files@), name@, 0) is None,
        },
{
    let mut i: usize = 0;
    while i < files.len()
        invariant
            i <= files.len(),
            first_named(file_views(files@), name@, 0) == first_named(
                file_views(files@),
                name@,
                i as int,
            ),
        decreases files.len() - i,
    {
        if files[i].name == *name {
            return Some(i);
        }
        i += 1;
    }
    None
}

/// The status line after a kill or a delete of the session `name`.
pub fn status_line(code: u8, name: &String, outcome: &CommandOutcome) -> (line: String)
    ensures
        line@ == status_text(code, name@, outcome@),
{
    match outcome {
        CommandOutcome::Failed(why) => {
            let mut line = String::from_str("Error: ");
            line.append(why.as_str());
            line
        },
        CommandOutcome::Finished { success, stdout, stderr } => {
            let chars = if *success {
                chars_of(stdout.as_str())
            } else {
                chars_of(stderr.as_str())
            };
            let (from, to) = trim_bounds(&chars);
            if from < to {
                string_of(&chars, from, to)
            } else {
                let mut line = if code == KILL {
                    String::from_str("Killed session: ")
                } else {
                    String::from_str("Deleted session: ")
                };
                line.append(name.as_str());
                line
            }
        },
    }
}

impl App {
    /// The arguments that start a new session.
    fn launch_args(&self) -> (args: Vec<String>)
        ensures
            texts(args@) == self@.launch_args(),
    {
        let mut args: Vec<String> = Vec::new();
        if self.selected_layout < self.layouts.len() {
            args.push(String::from_str("-l"));
            args.push(self.layouts[self.selected_layout].path.clone());
        }
        let ghost layout = args@;
        if self.selected_config < self.configs.len() {
            args.push(String::from_str("-c"));
            args.push(self.configs[self.selected_config].path.clone());
        }
        proof {
            let config = args@.subrange(layout.len() as int, args@.len() as int);
            assert(texts(args@) =~= texts(layout) + texts(config));
            if self.selected_layout < self.layouts.len() {
                assert(texts(layout) =~= seq![
                    "-l"@,
                    self@.layouts[self.selected_layout as int].path,
                ]);
            }
            if self.selected_config < self.configs.len() {
                assert(texts(config) =~= seq![
                    "-c"@,
                    self@.configs[self.selected_config as int].path,
                ]);
            }
        }
        args
    }

    /// Acts on the selection, as Enter does in normal mode.
    ///
    /// For New Session the run ends, and the front-end is to start the
    /// multiplexer with the selected layout and configuration. For Attach the
    /// run ends, and the front-end is to attach to the selected session. For
    /// Kill and Delete nothing changes yet: the front-end is to run the
    /// command and to hand its outcome to `finish_action`. Where no session is
    /// selected, nothing happens.
    pub fn trigger_action(&mut self) -> (request: Request)
        ensures
            final(self)@ == old(self)@.trigger_action(),
            request@ == old(self)@.trigger_request(),
            old(self)@.wf() ==> final(self)@.wf(),
    {
        if self.action.picks_files() {
            let args = self.launch_args();
            self.exit = true;
            return Request::Launch(args);
        }
        let name = match self.selected() {
            Some(session) => session.name.clone(),
            None => {
                return Request::Continue;
            },
        };
        let code = self.action.code;
        if code == ATTACH {
            let mut args: Vec<String> = Vec::new();
            args.push(String::from_str("attach"));
            args.push(name);
            assert(texts(args@) =~= seq!["attach"@, name@]);
            self.exit = true;
            Request::Launch(args)
        } else if code == KILL {
            let mut args: Vec<String> = Vec::new();
            args.push(String::from_str("kill-session"));
            args.push(name);
            assert(texts(args@) =~= seq!["kill-session"@, name@]);
            Request::Run(args)
        } else if code == DELETE {
            let mut args: Vec<String> = Vec::new();
            args.push(String::from_str("delete-session"));
            args.push(name);
            assert(texts(args@) =~= seq!["delete-session"@, name@]);
            Request::Run(args)
        } else {
            Request::Continue
        }
    }

    /// Takes in how the kill or the delete of the selected session ended.
    ///
    /// After a success the sessions of that name leave the list and the
    /// cursors are clamped; after a failure the list stays. In every case the
    /// status line says how the command ended, the input mode shows it, and
    /// the front-end is to list the sessions again. The run goes on.
    pub fn finish_action(&mut self, outcome: &CommandOutcome) -> (request: Request)
        ensures
            final(self)@ == old(self)@.finish_action(outcome@),
            request@ == old(self)@.finish_request(),
            old(self)@.wf() ==> final(self)@.wf(),
    {
        let code = self.action.code;
        if code != KILL && code != DELETE {
            return Request::Continue;
        }
        let name = match self.selected() {
            Some(session) => session.name.clone(),
            None => {
                return Request::Continue;
            },
        };
        let line = status_line(code, &name, outcome);
        let succeeded = match outcome {
            CommandOutcome::Finished { success, .. } => *success,
            CommandOutcome::Failed(_) => false,
        };
        if succeeded {
            self.sessions = sessions_without(&self.sessions, &name);
            self.clamp_selection();
        }
        self.status_message = line.clone();
        self.input_mode = InputMode::Status(line);
        Request::ListSessions
    }

    /// Takes in a new listing of the sessions, or `None` where the listing
    /// could not be had: the sessions are those of the listing, or none, and
    /// the cursors are clamped.
    pub fn fetch_sessions(&mut self, listing: Option<&str>)
        ensures
            final(self)@ == old(self)@.fetch_sessions(
                match listing {
                    Some(text) => Some(text@),
                    None => None,
                },
            ),
            final(self)@.cursors_in_bounds(),
            old(self)@.wf() ==> final(self)@.wf(),
    {
        self.sessions = match listing {
            Some(text) => parse_sessions(text),
            None => Vec::new(),
        };
        self.clamp_selection();
    }

    /// Takes in new lists of the layout files and of the configuration files:
    /// each cursor goes to the file called `default.kdl` where there is one,
    /// and the cursors are clamped.
    pub fn fetch_files(&mut self, layouts: Vec<KdlFile>, configs: Vec<KdlFile>)
        ensures
            final(self)@ == old(self)@.fetch_files(file_views(layouts@), file_views(configs@)),
            final(self)@.cursors_in_bounds(),
            old(self)@.wf() ==> final(self)@.wf(),
    {
        let default_name = String::from_str("default.kdl");
        self.layouts = layouts;
        self.configs = configs;
        match position_named(&self.layouts, &default_name) {
            Some(i) => {
                self.selected_layout = i;
            },
            None => {},
        }
        match position_named(&self.configs, &default_name) {
            Some(i) => {
                self.selected_config = i;
            },
            None => {},
        }
        self.clamp_selection();
    }

    /// Takes in new lists of everything: the sessions, and the files where
    /// there is a directory to list.
    pub fn refresh(&mut self, listing: Option<&str>, files: Option<(Vec<KdlFile>, Vec<KdlFile>)>)
        ensures
            final(self)@ == old(self)@.refresh(
                match listing {
                    Some(text) => Some(text@),
                    None => None,
                },
                match files {
                    Some((layouts, configs)) => Some(
                        (file_views(layouts@), file_views(configs@)),
                    ),
                    None => None,
                },
            ),
            final(self)@.cursors_in_bounds(),
            old(self)@.wf() ==> final(self)@.wf(),
    {
        self.fetch_sessions(listing);
        match files {
            Some((layouts, configs)) => {
                self.fetch_files(layouts, configs);
            },
            None => {},
        }
    }
}

} // verus!

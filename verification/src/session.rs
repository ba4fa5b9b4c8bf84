//! Sessions and definition files, and the multiplexer's session listing.

use crate::duration::{duration_seconds, seconds_of};
use crate::text::{chars_of, find, find_from, next_word, slice_of, string_of, words};
use vstd::prelude::*;
use vstd::wrapping::i64_specs::signed_crop;

verus! {

/// A session of the multiplexer.
#[derive(Debug, PartialEq, Eq)]
pub struct Session {
    /// The name that the multiplexer knows the session by.
    pub name: String,
    /// Seconds since the session was created.
    pub time: i64,
    /// Whether the session has exited.
    pub exited: bool,
}

/// A layout or configuration file.
#[derive(Debug, PartialEq, Eq)]
pub struct KdlFile {
    /// The file's name, as it is shown.
    pub name: String,
    /// The file's absolute path.
    pub path: String,
}

/// What a `Session` holds.
pub struct SessionView {
    pub name: Seq<char>,
    pub time: i64,
    pub exited: bool,
}

/// What a `KdlFile` holds.
pub struct KdlFileView {
    pub name: Seq<char>,
    pub path: Seq<char>,
}

impl View for Session {
    type V = SessionView;

    open spec fn view(&self) -> SessionView {
        SessionView { name: self.name@, time: self.time, exited: self.exited }
    }
}

impl View for KdlFile {
    type V = KdlFileView;

    open spec fn view(&self) -> KdlFileView {
        KdlFileView { name: self.name@, path: self.path@ }
    }
}

impl Clone for Session {
    fn clone(&self) -> (copy: Session)
        ensures
            copy@ == self@,
    {
        Session { name: self.name.clone(), time: self.time, exited: self.exited }
    }
}

impl Clone for KdlFile {
    fn clone(&self) -> (copy: KdlFile)
        ensures
            copy@ == self@,
    {
        KdlFile { name: self.name.clone(), path: self.path.clone() }
    }
}

/// What each session of a list holds.
pub open spec fn session_views(v: Seq<Session>) -> Seq<SessionView> {
    Seq::new(v.len(), |i: int| v[i]@)
}

/// What each file of a list holds.
pub open spec fn file_views(v: Seq<KdlFile>) -> Seq<KdlFileView> {
    Seq::new(v.len(), |i: int| v[i]@)
}

/// The first index at or after `i` that holds a line feed, or the length of
/// `s`.
pub open spec fn line_end(s: Seq<char>, i: int) -> int
    decreases s.len() - i,
{
    if 0 <= i < s.len() && s[i] != '\n' {
        line_end(s, i + 1)
    } else {
        i
    }
}

/// A line without the carriage return that stood before its line feed.
pub open spec fn without_return(line: Seq<char>) -> Seq<char> {
    if line.len() > 0 && line.last() == '\r' {
        line.drop_last()
    } else {
        line
    }
}

/// The lines of `s` that begin at or after `i`. A line ends with a line feed,
/// or with a carriage return and a line feed, neither of which belongs to it;
/// the last line may end with the text.
pub open spec fn lines_from(s: Seq<char>, i: int) -> Seq<Seq<char>>
    decreases s.len() - i,
{
    if i < 0 || i >= s.len() {
        Seq::empty()
    } else {
        proof {
            lemma_line_end_bounds(s, i);
        }
        if line_end(s, i) < s.len() {
            seq![without_return(s.subrange(i, line_end(s, i)))] + lines_from(
                s,
                line_end(s, i) + 1,
            )
        } else {
            seq![s.subrange(i, s.len() as int)]
        }
    }
}

/// The lines of `s`.
pub open spec fn lines(s: Seq<char>) -> Seq<Seq<char>> {
    lines_from(s, 0)
}

/// The name on a line of the listing: its first word, or nothing on a line of
/// spaces.
pub open spec fn line_name(line: Seq<char>) -> Seq<char> {
    if words(line).len() > 0 {
        words(line)[0]
    } else {
        Seq::empty()
    }
}

/// The elapsed time on a line of the listing: what stands between the first
/// `[Created ` and the first ` ago]` after it, or nothing where either is
/// missing.
pub open spec fn line_created(line: Seq<char>) -> Seq<char> {
    match find_from(line, "[Created "@, 0) {
        None => Seq::empty(),
        Some(open) => match find_from(line, " ago]"@, open + "[Created "@.len()) {
            None => Seq::empty(),
            Some(close) => line.subrange(open + "[Created "@.len(), close),
        },
    }
}

/// The session that a line of the listing describes.
pub open spec fn line_session(line: Seq<char>) -> SessionView {
    SessionView {
        name: line_name(line),
        time: signed_crop(duration_seconds(line_created(line))),
        exited: find_from(line, "EXITED"@, 0) is Some,
    }
}

/// The sessions that the lines describe: one for each line that is not empty,
/// in the order of the lines.
pub open spec fn lines_sessions(lines: Seq<Seq<char>>) -> Seq<SessionView>
    decreases lines.len(),
{
    if lines.len() == 0 {
        Seq::empty()
    } else if lines.last().len() == 0 {
        lines_sessions(lines.drop_last())
    } else {
        lines_sessions(lines.drop_last()).push(line_session(lines.last()))
    }
}

/// The sessions that the listing `text` describes.
pub open spec fn listed_sessions(text: Seq<char>) -> Seq<SessionView> {
    lines_sessions(lines(text))
}

/// `line_end` moves forward and stops inside the text.
pub proof fn lemma_line_end_bounds(s: Seq<char>, i: int)
    requires
        0 <= i <= s.len(),
    ensures
        i <= line_end(s, i) <= s.len(),
        line_end(s, i) < s.len() ==> s[line_end(s, i)] == '\n',
    decreases s.len() - i,
{
    if i < s.len() && s[i] != '\n' {
        lemma_line_end_bounds(s, i + 1);
    }
}

/// Reads one line of the listing, which is not empty.
pub fn parse_line(line: &Vec<char>) -> (session: Session)
    ensures
        session@ == line_session(line@),
{
    let name = match next_word(line, 0) {
        Some((a, b)) => string_of(line, a, b),
        None => String::new(),
    };
    let open_mark = chars_of("[Created ");
    let close_mark = chars_of(" ago]");
    let exited_mark = chars_of("EXITED");
    let exited = find(line, &exited_mark, 0).is_some();
    let time = match find(line, &open_mark, 0) {
        None => 0,
        Some(open) => {
            // `open + open_mark.len() <= line.len()`, since the mark stands there.
            let after = open + open_mark.len();
            match find(line, &close_mark, after) {
                None => 0,
                Some(close) => {
                    let created = slice_of(line, after, close);
                    seconds_of(&created)
                },
            }
        },
    };
    Session { name, time, exited }
}

/// Reads the multiplexer's session listing: one session on each line that is
/// not empty.
pub fn parse_sessions(text: &str) -> (sessions: Vec<Session>)
    ensures
        session_views(sessions@) == listed_sessions(text@),
{
    let chars = chars_of(text);
    let n = chars.len();
    let mut sessions: Vec<Session> = Vec::new();
    let mut pos: usize = 0;
    let ghost mut done: Seq<Seq<char>> = Seq::empty();
    while pos < n
        invariant
            pos <= n == chars.len(),
            chars@ == text@,
            lines(chars@) == done + lines_from(chars@, pos as int),
            session_views(sessions@) == lines_sessions(done),
        decreases n - pos,
    {
        let mut end: usize = pos;
        while end < n && chars[end] != '\n'
            invariant
                pos <= end <= n == chars.len(),
                line_end(chars@, pos as int) == line_end(chars@, end as int),
            decreases n - end,
        {
            end += 1;
        }
        let stop: usize = if end < n && end > pos && chars[end - 1] == '\r' {
            end - 1
        } else {
            end
        };
        let next: usize = if end < n {
            end + 1
        } else {
            end
        };
        let ghost line = chars@.subrange(pos as int, stop as int);
        proof {
            let whole = chars@.subrange(pos as int, end as int);
            if end < n {
                assert(stop < end ==> whole.drop_last() =~= line);
                assert(lines_from(chars@, pos as int) == seq![line] + lines_from(
                    chars@,
                    next as int,
                ));
            }
            assert(done + (seq![line] + lines_from(chars@, next as int)) =~= done.push(line)
                + lines_from(chars@, next as int));
            assert(done.push(line).drop_last() =~= done);
        }
        if stop > pos {
            let line_chars = slice_of(&chars, pos, stop);
            sessions.push(parse_line(&line_chars));
        }
        proof {
            done = done.push(line);
        }
        pos = next;
    }
    sessions
}

} // verus!

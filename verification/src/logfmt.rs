//! The layout of a log line: a coloured level mark, the time of day, and a shortened
//! target, around the message that the caller writes.

use vstd::prelude::*;
use crate::text::{chars_of, pieces_of, same_text, split, split_seq, string_of};

verus! {

/// How severe a log event is.
#[derive(Clone, Copy, Debug, PartialEq, Eq, Structural)]
pub enum LogLevel {
    Trace,
    Debug,
    Info,
    Warn,
    Error,
}

/// The terminal colour of a level.
pub open spec fn level_color(level: LogLevel) -> Seq<char> {
    match level {
        LogLevel::Trace => "\x1B[36m"@,
        LogLevel::Debug => "\x1B[34m"@,
        LogLevel::Info => "\x1B[32m"@,
        LogLevel::Warn => "\x1B[33m"@,
        LogLevel::Error => "\x1B[31m"@,
    }
}

/// The one-letter mark of a level, in the level's colour.
pub open spec fn level_mark(level: LogLevel) -> Seq<char> {
    match level {
        LogLevel::Trace => "\x1B[36mT\x1B[0m"@,
        LogLevel::Debug => "\x1B[34mD\x1B[0m"@,
        LogLevel::Info => "\x1B[32mI\x1B[0m"@,
        LogLevel::Warn => "\x1B[33mW\x1B[0m"@,
        LogLevel::Error => "\x1B[31mE\x1B[0m"@,
    }
}

/// At most the first two characters of `text`.
pub open spec fn first_two(text: Seq<char>) -> Seq<char> {
    if text.len() > 2 {
        text.take(2)
    } else {
        text
    }
}

/// A module path, shortened. A path of three or more components keeps its last two,
/// after the first two characters of its first component in brackets; a path of two
/// components keeps the last; a single name stays as it is.
pub open spec fn simplified_target(target: Seq<char>) -> Seq<char> {
    let parts = split_seq(target, "::"@);
    if parts.len() > 2 {
        "["@ + first_two(parts[0]) + "] "@ + parts[parts.len() - 2] + "::"@ + parts[parts.len()
            - 1]
    } else if parts.len() == 2 {
        parts[1]
    } else {
        target
    }
}

/// Whether events of `target` are shown as bare messages in the level's colour.
pub open spec fn is_bare_target(target: Seq<char>) -> bool {
    target == "slogger"@
}

/// What stands before the message of a log line.
pub open spec fn line_prefix(level: LogLevel, time: Seq<char>, target: Seq<char>) -> Seq<char> {
    level_mark(level) + " "@ + "\x1B[38;5;246m("@ + time + ")\x1B[0m "@ + (if is_bare_target(
        target,
    ) {
        level_color(level)
    } else {
        "\x1B[3;90m"@ + simplified_target(target) + "\x1B[0m: "@
    })
}

/// What stands after the message of a log line.
pub open spec fn line_suffix(target: Seq<char>) -> Seq<char> {
    if is_bare_target(target) {
        "\x1B[0m\n"@
    } else {
        "\n"@
    }
}

/// Appends the characters of `more` to `out`.
fn push_all(out: &mut Vec<char>, more: &Vec<char>)
    ensures
        final(out)@ == old(out)@ + more@,
{
    let ghost start = out@;
    let mut i: usize = 0;
    while i < more.len()
        invariant
            i <= more.len(),
            out@ == start + more@.take(i as int),
        decreases more.len() - i,
    {
        out.push(more[i]);
        assert(more@.take(i as int).push(more@[i as int]) =~= more@.take(i as int + 1));
        i += 1;
    }
    assert(more@.take(more.len() as int) =~= more@);
}

/// Appends the characters of `text` to `out`.
fn push_text(out: &mut Vec<char>, text: &str)
    ensures
        final(out)@ == old(out)@ + text@,
{
    let more = chars_of(text);
    push_all(out, &more);
}

impl LogLevel {
    /// The terminal colour of this level.
    pub fn color(&self) -> (code: &'static str)
        ensures
            code@ == level_color(*self),
    {
        match self {
            LogLevel::Trace => "\x1B[36m",
            LogLevel::Debug => "\x1B[34m",
            LogLevel::Info => "\x1B[32m",
            LogLevel::Warn => "\x1B[33m",
            LogLevel::Error => "\x1B[31m",
        }
    }

    /// The one-letter mark of this level, in its colour.
    pub fn mark(&self) -> (mark: &'static str)
        ensures
            mark@ == level_mark(*self),
    {
        match self {
            LogLevel::Trace => "\x1B[36mT\x1B[0m",
            LogLevel::Debug => "\x1B[34mD\x1B[0m",
            LogLevel::Info => "\x1B[32mI\x1B[0m",
            LogLevel::Warn => "\x1B[33mW\x1B[0m",
            LogLevel::Error => "\x1B[31mE\x1B[0m",
        }
    }
}

/// Shortens a module path.
pub fn simplify_target(target: &str) -> (short: String)
    ensures
        short@ == simplified_target(target@),
{
    let whole = chars_of(target);
    let sep = chars_of("::");
    let parts = split(&whole, &sep);
    assert(pieces_of(parts@).len() == parts@.len());
    let n = parts.len();
    if n > 2 {
        assert(pieces_of(parts@)[0] == parts@[0]@);
        assert(pieces_of(parts@)[n - 2] == parts@[n - 2]@);
        assert(pieces_of(parts@)[n - 1] == parts@[n - 1]@);
        let mut out: Vec<char> = Vec::new();
        push_text(&mut out, "[");
        let first = &parts[0];
        let ghost opened = out@;
        if first.len() > 0 {
            out.push(first[0]);
        }
        if first.len() > 1 {
            out.push(first[1]);
        }
        assert(out@ =~= opened + first_two(first@));
        push_text(&mut out, "] ");
        push_all(&mut out, &parts[n - 2]);
        push_text(&mut out, "::");
        push_all(&mut out, &parts[n - 1]);
        assert(out@ =~= simplified_target(target@));
        string_of(&out)
    } else if n == 2 {
        assert(pieces_of(parts@)[1] == parts@[1]@);
        string_of(&parts[1])
    } else {
        string_of(&whole)
    }
}

/// What stands before the message of a log line for an event of `level` and `target`,
/// written at the time of day `time`.
pub fn format_prefix(level: LogLevel, time: &str, target: &str) -> (prefix: String)
    ensures
        prefix@ == line_prefix(level, time@, target@),
{
    let mut out: Vec<char> = Vec::new();
    push_text(&mut out, level.mark());
    push_text(&mut out, " ");
    push_text(&mut out, "\x1B[38;5;246m(");
    push_text(&mut out, time);
    push_text(&mut out, ")\x1B[0m ");
    if same_text(target, "slogger") {
        push_text(&mut out, level.color());
    } else {
        let short = simplify_target(target);
        push_text(&mut out, "\x1B[3;90m");
        push_text(&mut out, short.as_str());
        push_text(&mut out, "\x1B[0m: ");
    }
    assert(out@ =~= line_prefix(level, time@, target@));
    string_of(&out)
}

/// What stands after the message of a log line for an event of `target`.
pub fn format_suffix(target: &str) -> (suffix: String)
    ensures
        suffix@ == line_suffix(target@),
{
    if same_text(target, "slogger") {
        "\x1B[0m\n".to_owned()
    } else {
        "\n".to_owned()
    }
}

} // verus!

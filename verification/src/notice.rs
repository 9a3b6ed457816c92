//! What is said on the terminal, and what goes to the log.

use crate::args::DaemonArgs;
use vstd::prelude::*;

verus! {

/// How grave a line for the log is.
#[derive(Clone, Copy, Debug, PartialEq, Eq, Structural)]
pub enum LogLevel {
    Info,
    Warn,
    Error,
}

/// A line for the log.
#[derive(Debug)]
pub struct LogLine {
    pub level: LogLevel,
    pub text: String,
}

/// The texts of strings.
pub open spec fn texts(lines: Seq<String>) -> Seq<Seq<char>> {
    lines.map_values(|line: String| line@)
}

/// The level and the text of a line for the log.
pub open spec fn log_text(log: Option<LogLine>) -> Option<(LogLevel, Seq<char>)> {
    match log {
        Some(line) => Some((line.level, line.text@)),
        None => None,
    }
}

/// The level and the text of an optional text.
pub open spec fn optional_log(level: LogLevel, text: Option<Seq<char>>) -> Option<
    (LogLevel, Seq<char>),
> {
    match text {
        Some(text) => Some((level, text)),
        None => None,
    }
}

/// The lines that are said: all of them, or none where the daemon is quiet.
pub open spec fn told(args: DaemonArgs, lines: Seq<Seq<char>>) -> Seq<Seq<char>> {
    if args.quiet {
        seq![]
    } else {
        lines
    }
}

/// Adds a line to what is said, unless the daemon is quiet.
pub(crate) fn say(args: &DaemonArgs, notices: &mut Vec<String>, line: String)
    ensures
        texts(final(notices)@) == texts(old(notices)@) + told(*args, seq![line@]),
{
    if !args.quiet {
        notices.push(line);
        assert(texts(notices@) =~= texts(old(notices)@) + told(*args, seq![line@]));
    } else {
        assert(texts(notices@) =~= texts(old(notices)@) + told(*args, seq![line@]));
    }
}

/// One text after the other.
pub(crate) fn joined(prefix: &str, rest: &str) -> (res: String)
    ensures
        res@ == prefix@ + rest@,
{
    let mut text = prefix.to_string();
    text.append(rest);
    text
}

} // verus!

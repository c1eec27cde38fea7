//! The one-line replies the plain-text debugger prints after a command.
use vstd::prelude::*;
use crate::num::{int_str, push_int};
use crate::render::or_text;
use crate::text::{append, owned};

verus! {

/// What a command reports, with the fields of its answer that the reply
/// shows (`None` where the answer lacks one).
#[derive(Debug, Clone, PartialEq, Eq)]
pub enum PlainReply {
    /// `clear`: one line of a file, or the whole file.
    Cleared { path: Option<String>, line: Option<i64> },
    CurrentFrame(i64),
    CurrentThread(i64),
    /// The smart-step setting after the change.
    SmartStep(Option<bool>),
    /// A watch expression and its value.
    WatchValue { expression: Option<String>, result: Option<String> },
    RemovedWatch(String),
    /// The way a `goto` was carried out.
    GotoVia(String),
    /// An installed function breakpoint and the line it resolved to.
    FunctionBreakpoint { name: Option<String>, resolved_line: Option<i64> },
    /// Whether the new data watch is emulated.
    DataWatchAdded(Option<bool>),
    RemovedDataWatch(String),
    /// The way a frame restart was carried out.
    RestartVia(Option<String>),
    /// A variable after `set var`.
    Assignment { name: Option<String>, value: Option<String> },
    /// A log point message.
    Log(String),
}

/// The text of a reply.
pub open spec fn plain_reply_text(r: PlainReply) -> Seq<char> {
    match r {
        PlainReply::Cleared { path, line } => match line {
            Some(l) => "Cleared breakpoint at "@ + or_text(path, "?"@) + ":"@ + int_str(l as int),
            None => "Cleared all breakpoints in "@ + or_text(path, "?"@),
        },
        PlainReply::CurrentFrame(id) => "Current frame: "@ + int_str(id as int),
        PlainReply::CurrentThread(id) => "Current thread: "@ + int_str(id as int),
        PlainReply::SmartStep(on) => "smart-step "@ + if on == Some(true) {
            "on"@
        } else {
            "off"@
        },
        PlainReply::WatchValue { expression, result } => or_text(expression, "?"@) + " = "@
            + or_text(result, "?"@),
        PlainReply::RemovedWatch(e) => "removed watch: "@ + e@,
        PlainReply::GotoVia(m) => "goto via "@ + m@,
        PlainReply::FunctionBreakpoint { name, resolved_line } => "function breakpoint: "@
            + or_text(name, "?"@) + match resolved_line {
            Some(l) => " @ line "@ + int_str(l as int),
            None => Seq::empty(),
        },
        PlainReply::DataWatchAdded(emulated) => "data watch added (emulated="@ + if emulated
            == Some(true) {
            "true"@
        } else {
            "false"@
        } + ")"@,
        PlainReply::RemovedDataWatch(e) => "removed data watch: "@ + e@,
        PlainReply::RestartVia(m) => "restart via "@ + or_text(m, "restart"@),
        PlainReply::Assignment { name, value } => or_text(name, "?"@) + " = "@ + or_text(
            value,
            "?"@,
        ),
        PlainReply::Log(m) => "LOG: "@ + m@,
    }
}

fn push_or(out: &mut String, o: &Option<String>, d: &str)
    ensures
        final(out)@ == old(out)@ + or_text(*o, d@),
{
    match o {
        Some(s) => append(out, s.as_str()),
        None => append(out, d),
    }
}

/// The line printed for a reply (without its line break).
pub fn plain_reply(r: &PlainReply) -> (s: String)
    ensures
        s@ == plain_reply_text(*r),
{
    match r {
        PlainReply::Cleared { path, line } => match line {
            Some(l) => {
                let mut s = owned("Cleared breakpoint at ");
                push_or(&mut s, path, "?");
                append(&mut s, ":");
                push_int(&mut s, *l);
                s
            },
            None => {
                let mut s = owned("Cleared all breakpoints in ");
                push_or(&mut s, path, "?");
                s
            },
        },
        PlainReply::CurrentFrame(id) => {
            let mut s = owned("Current frame: ");
            push_int(&mut s, *id);
            s
        },
        PlainReply::CurrentThread(id) => {
            let mut s = owned("Current thread: ");
            push_int(&mut s, *id);
            s
        },
        PlainReply::SmartStep(on) => {
            let mut s = owned("smart-step ");
            let enabled = match on {
                Some(b) => *b,
                None => false,
            };
            if enabled {
                append(&mut s, "on");
            } else {
                append(&mut s, "off");
            }
            s
        },
        PlainReply::WatchValue { expression, result } => {
            let mut s = String::new();
            push_or(&mut s, expression, "?");
            append(&mut s, " = ");
            push_or(&mut s, result, "?");
            s
        },
        PlainReply::RemovedWatch(e) => {
            let mut s = owned("removed watch: ");
            append(&mut s, e.as_str());
            s
        },
        PlainReply::GotoVia(m) => {
            let mut s = owned("goto via ");
            append(&mut s, m.as_str());
            s
        },
        PlainReply::FunctionBreakpoint { name, resolved_line } => {
            let mut s = owned("function breakpoint: ");
            push_or(&mut s, name, "?");
            match resolved_line {
                Some(l) => {
                    append(&mut s, " @ line ");
                    push_int(&mut s, *l);
                },
                None => {},
            }
            s
        },
        PlainReply::DataWatchAdded(emulated) => {
            let mut s = owned("data watch added (emulated=");
            let e = match emulated {
                Some(b) => *b,
                None => false,
            };
            if e {
                append(&mut s, "true");
            } else {
                append(&mut s, "false");
            }
            append(&mut s, ")");
            s
        },
        PlainReply::RemovedDataWatch(e) => {
            let mut s = owned("removed data watch: ");
            append(&mut s, e.as_str());
            s
        },
        PlainReply::RestartVia(m) => {
            let mut s = owned("restart via ");
            push_or(&mut s, m, "restart");
            s
        },
        PlainReply::Assignment { name, value } => {
            let mut s = String::new();
            push_or(&mut s, name, "?");
            append(&mut s, " = ");
            push_or(&mut s, value, "?");
            s
        },
        PlainReply::Log(m) => {
            let mut s = owned("LOG: ");
            append(&mut s, m.as_str());
            s
        },
    }
}

} // verus!

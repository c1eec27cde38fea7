//! Reverse requests from the adapter that the proxy answers itself:
//! `startDebugging` is declined, and `runInTerminal` starts the process the
//! adapter asks for.
use vstd::prelude::*;
use crate::num::{int_str, push_int};
use crate::text::{append, owned, str_eq};

verus! {

/// What the proxy does with a reverse request.
#[derive(Debug, Clone, Copy, PartialEq, Eq)]
pub enum ReverseAction {
    /// Answer `startDebugging` with a refusal.
    DeclineStartDebugging,
    /// Start the process of a `runInTerminal` request.
    RunInTerminal,
    /// Leave it to the clients.
    PassThrough,
}

/// The action for a reverse request with this command.
pub fn reverse_request_action(command: &str) -> (r: ReverseAction)
    ensures
        r == if command@ == "startDebugging"@ {
            ReverseAction::DeclineStartDebugging
        } else if command@ == "runInTerminal"@ {
            ReverseAction::RunInTerminal
        } else {
            ReverseAction::PassThrough
        },
{
    if str_eq(command, "startDebugging") {
        ReverseAction::DeclineStartDebugging
    } else if str_eq(command, "runInTerminal") {
        ReverseAction::RunInTerminal
    } else {
        ReverseAction::PassThrough
    }
}

/// Where a message from the adapter goes in the proxy's bridge.
#[derive(Debug, Clone, Copy, PartialEq, Eq)]
pub enum BackendRoute {
    /// A `startDebugging` request handed to the child-session handler.
    ChildSession,
    /// A reverse request the proxy answers itself (see `ReverseAction`).
    AnswerHere(ReverseAction),
    /// Everything else goes on to the clients.
    Forward,
}

/// The route of a message from the adapter: a `startDebugging` request
/// goes to the child-session handler when there is one; otherwise a
/// reverse request the proxy handles is answered by it; everything else,
/// responses and events included, is forwarded.
pub fn backend_route(is_request: bool, command: &str, has_child_sessions: bool) -> (r: BackendRoute)
    ensures
        r == if is_request && command@ == "startDebugging"@ && has_child_sessions {
            BackendRoute::ChildSession
        } else if is_request && command@ == "startDebugging"@ {
            BackendRoute::AnswerHere(ReverseAction::DeclineStartDebugging)
        } else if is_request && command@ == "runInTerminal"@ {
            BackendRoute::AnswerHere(ReverseAction::RunInTerminal)
        } else {
            BackendRoute::Forward
        },
{
    if !is_request {
        return BackendRoute::Forward;
    }
    match reverse_request_action(command) {
        ReverseAction::DeclineStartDebugging => {
            if has_child_sessions {
                BackendRoute::ChildSession
            } else {
                BackendRoute::AnswerHere(ReverseAction::DeclineStartDebugging)
            }
        },
        ReverseAction::RunInTerminal => BackendRoute::AnswerHere(ReverseAction::RunInTerminal),
        ReverseAction::PassThrough => BackendRoute::Forward,
    }
}

/// The arguments of a `runInTerminal` request as the proxy reads them: each
/// element of `args` as text when it is a string, `cwd` when it is a
/// string, and each `env` entry with its value when that is a string.
#[derive(Debug, Clone, PartialEq, Eq)]
pub struct RunInTerminalArgs {
    pub args: Option<Vec<Option<String>>>,
    pub cwd: Option<String>,
    pub env: Vec<(String, Option<String>)>,
}

/// The process to start for a `runInTerminal` request.
#[derive(Debug, Clone, PartialEq, Eq)]
pub struct TerminalCommand {
    pub program: String,
    pub args: Vec<String>,
    pub cwd: Option<String>,
    pub env: Vec<(String, String)>,
}

/// The string elements of `s`, in order.
pub open spec fn strings_only(s: Seq<Option<String>>) -> Seq<String>
    decreases s.len(),
{
    if s.len() == 0 {
        Seq::empty()
    } else {
        match s.last() {
            Some(x) => strings_only(s.drop_last()).push(x),
            None => strings_only(s.drop_last()),
        }
    }
}

/// The entries of `s` whose value is a string.
pub open spec fn string_entries(s: Seq<(String, Option<String>)>) -> Seq<(String, String)>
    decreases s.len(),
{
    if s.len() == 0 {
        Seq::empty()
    } else {
        match s.last().1 {
            Some(v) => string_entries(s.drop_last()).push((s.last().0, v)),
            None => string_entries(s.drop_last()),
        }
    }
}

/// Why a `runInTerminal` request cannot be served, or `None` when it can.
pub open spec fn terminal_error(a: RunInTerminalArgs) -> Option<Seq<char>> {
    match a.args {
        None => Some("runInTerminal missing args"@),
        Some(args) => if args@.len() == 0 {
            Some("runInTerminal missing args"@)
        } else {
            match args@[0] {
                Some(p) => if p@.len() > 0 {
                    None
                } else {
                    Some("runInTerminal args[0] must be a command"@)
                },
                None => Some("runInTerminal args[0] must be a command"@),
            }
        },
    }
}

/// The process a `runInTerminal` request asks for: the first argument is
/// the program and must be a non-empty string; later arguments and
/// environment values that are not strings are skipped.
pub fn run_in_terminal_command(a: &RunInTerminalArgs) -> (r: Result<TerminalCommand, String>)
    ensures
        match r {
            Ok(c) => terminal_error(*a) is None && (a.args matches Some(args) && args@[0] == Some(
                c.program,
            ) && c.args@ == strings_only(args@.skip(1))) && c.cwd == a.cwd && c.env@
                == string_entries(a.env@),
            Err(e) => terminal_error(*a) == Some(e@),
        },
{
    let args = match &a.args {
        Some(args) => args,
        None => return Err(owned("runInTerminal missing args")),
    };
    if args.len() == 0 {
        return Err(owned("runInTerminal missing args"));
    }
    let program = match &args[0] {
        Some(p) => {
            if p.as_str().is_empty() {
                return Err(owned("runInTerminal args[0] must be a command"));
            }
            p.clone()
        },
        None => return Err(owned("runInTerminal args[0] must be a command")),
    };
    let mut rest: Vec<String> = Vec::new();
    let mut i: usize = 1;
    while i < args.len()
        invariant
            1 <= i <= args.len(),
            rest@ == strings_only(args@.subrange(1, i as int)),
        decreases args.len() - i,
    {
        assert(args@.subrange(1, (i + 1) as int).drop_last() =~= args@.subrange(1, i as int));
        match &args[i] {
            Some(x) => rest.push(x.clone()),
            None => {},
        }
        i = i + 1;
    }
    assert(args@.subrange(1, args.len() as int) =~= args@.skip(1));
    let mut env: Vec<(String, String)> = Vec::new();
    let mut k: usize = 0;
    while k < a.env.len()
        invariant
            k <= a.env.len(),
            env@ == string_entries(a.env@.take(k as int)),
        decreases a.env.len() - k,
    {
        assert(a.env@.take((k + 1) as int).drop_last() =~= a.env@.take(k as int));
        match &a.env[k].1 {
            Some(v) => env.push((a.env[k].0.clone(), v.clone())),
            None => {},
        }
        k = k + 1;
    }
    assert(a.env@.take(a.env.len() as int) =~= a.env@);
    let cwd = match &a.cwd {
        Some(c) => Some(c.clone()),
        None => None,
    };
    Ok(TerminalCommand { program, args: rest, cwd, env })
}

/// The name of the log file that captures the output of the process
/// started for request `seq`.
pub fn run_in_terminal_log_name(seq: i64) -> (r: String)
    ensures
        r@ == int_str(seq as int) + ".log"@,
{
    let mut s = String::new();
    push_int(&mut s, seq);
    append(&mut s, ".log");
    s
}

/// The answer the proxy sends to a reverse request it handles itself.
#[derive(Debug, Clone, PartialEq, Eq)]
pub struct ReverseResponse {
    pub request_seq: i64,
    pub success: bool,
    pub command: String,
    pub message: Option<String>,
}

/// The `Debug` text of a string: `format!("{:?}", s)`.
pub uninterp spec fn str_debug_text(s: Seq<char>) -> Seq<char>;

/// `format!("{:?}", s)` for a string slice: the string quoted, with the
/// characters that `str`'s `Debug` escapes escaped. Its result is named
/// `str_debug_text`; nothing more is stated of it.
#[verifier::external_body]
fn debug_text(s: &str) -> (r: String)
    ensures
        r@ == str_debug_text(s@),
{
    format!("{:?}", s)
}

/// Refuses a reverse request the proxy does not support: a failed answer
/// to request `request_seq` whose message names the command in its `Debug`
/// form.
pub fn decline_reverse_request(request_seq: i64, command: &str) -> (r: ReverseResponse)
    ensures
        r.request_seq == request_seq,
        !r.success,
        r.command@ == command@,
        r.message matches Some(m) && m@ == "reverse request "@ + str_debug_text(command@)
            + " is not supported"@,
{
    let mut message = owned("reverse request ");
    let quoted = debug_text(command);
    append(&mut message, quoted.as_str());
    append(&mut message, " is not supported");
    ReverseResponse { request_seq, success: false, command: owned(command), message: Some(message) }
}

} // verus!

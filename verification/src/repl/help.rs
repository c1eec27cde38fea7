//! Help for the interactive debugger: the command overview and the text
//! shown by `help <cmd>`.
use vstd::prelude::*;
use crate::text::{ascii_lower, chars_of, eq_lit, lower_chars, owned};

verus! {

/// The command overview.
pub const HELP_TEXT: &'static str = r#"Commands (gdb-style). Type `help <cmd>` for one command.

Execution:
  run, continue, cont, c       Resume execution
  next, n, step-over           Step over
  step, s, step-in             Step in
  finish, step-out             Step out

Breakpoints:
  break, b <file>:<line>       Set breakpoint [if EXPR] [hit N] [log MSG]
  trace, tbreak <file>:<line>  Logpoint [log MSG]
  clear <file>                 Clear all breakpoints in file
  clear <file>:<line>          Remove one breakpoint
  info break, info breakpoints List breakpoints (numbered)

Stack and source:
  bt, backtrace, stack, where  Stack trace (`bt full` for all frames)
  show, src, code [N]          Source around current line (N lines context)
  frame, f <id>                Select stack frame
  thread, t <id>               Select thread

Data:
  print, p, eval, expr <e>     Evaluate expression
  pp <expr>                    Pretty-print (with type when available)
  watch <expr>                 Add client-side watch (evaluated on stop)
  unwatch <expr>               Remove watch
  watch                        List watch expressions
  locals, info locals          Locals table for current frame
  scopes, info scopes          List scopes for current frame
  set <name> = <val>           Assign variable in current frame

Threads and filters:
  threads, info threads        List threads
  catch <filter> [if EXPR]     Enable exception breakpoint filter
  catch clear [filter]         Clear exception breakpoints
  info catch                   List exception filters and catches
  skip [list]                  List skip-path patterns
  skip add <pattern>           Auto-continue in matching sources
  skip clear [pattern]         Remove skip patterns
  smart-step [on|off]          Auto-continue through runtime/stdlib frames
  goto, jump <file>:<line>     Jump to source line (native or emulated)
  break function <name>        Function breakpoint (emulated via line BP)
  data-watch [add] <expr>      Emulated data breakpoint on expression
  data-watch remove <expr>     Remove data watch
  data-watch list              List data watches
  restart [frame <id>]         Restart from stack frame
  disasm <ref> [off] [count]   Disassemble memory at reference

Session:
  status                       Show remembered execution status
  sync                         Refresh state from session (late-join)
  capabilities, caps           Show adapter capabilities (JSON)
  colors, color [on|off]       Toggle syntax/ANSI colors (default off)
  version, ver                 Show dap-cli version
  help, h, ? [cmd]             Show this help or `help <cmd>`
  quit, q, exit                End session (attach: detach only)

Tips: Up/Down = command history. Prompt shows file:line when stopped.
NDJSON: dap-cli debug repl --ndjson [program]
Attach: dap-cli debug repl
"#;

/// Help of `break`.
pub const TOPIC_BREAK: &'static str = "break, b <file>:<line> [if EXPR] [hit N] [log MSG]\n  \
             Set a source breakpoint. Modifiers are emulated client-side when the adapter lacks support.";

/// Help of `trace`.
pub const TOPIC_TRACE: &'static str = "trace, tbreak <file>:<line> [log MSG]\n  Logpoint: prints MSG when hit (may auto-continue).";

/// Help of `clear`.
pub const TOPIC_CLEAR: &'static str = "clear <file> or clear <file>:<line>\n  Remove breakpoints in a file or at one line.";

/// Help of `info`.
pub const TOPIC_INFO: &'static str = "info break, info breakpoints\n  List tracked breakpoints with numbers.";

/// Help of `bt`.
pub const TOPIC_BT: &'static str = "bt, stack, where [full]\n  Stack trace. Runtime frames (site-packages, runpy, …) are hidden unless `full`.";

/// Help of `show`.
pub const TOPIC_SHOW: &'static str = "show, src, code [N]\n  Source listing with N lines of context (default 2).";

/// Help of `print`.
pub const TOPIC_PRINT: &'static str = "print, p, eval, expr <expression>\n  Evaluate an expression in the current frame.";

/// Help of `pp`.
pub const TOPIC_PP: &'static str = "pp <expression>\n  Like print, with type annotation when colors are on.";

/// Help of `locals`.
pub const TOPIC_LOCALS: &'static str = "locals, info locals\n  Show locals for the current frame in a table.";

/// Help of `scopes`.
pub const TOPIC_SCOPES: &'static str = "scopes, info scopes\n  List scopes for the current frame.";

/// Help of `set`.
pub const TOPIC_SET: &'static str = "set <name> = <value>\n  Assign a variable in the current frame (not `s`, which steps).";

/// Help of `colors`.
pub const TOPIC_COLORS: &'static str = "colors, color [on|off]\n  Toggle ANSI colors and light source highlighting (default off).";

/// Help of `next`.
pub const TOPIC_NEXT: &'static str = "next, n\n  Step over the current line.";

/// Help of `step`.
pub const TOPIC_STEP: &'static str = "step, s\n  Step into the current line.";

/// Help of `finish`.
pub const TOPIC_FINISH: &'static str = "finish, step-out\n  Step out of the current function.";

/// Help of `continue`.
pub const TOPIC_CONTINUE: &'static str = "continue, run, c\n  Resume until the next stop.";

/// Help of `threads`.
pub const TOPIC_THREADS: &'static str = "threads, info threads\n  List threads.";

/// Help of `frame`.
pub const TOPIC_FRAME: &'static str = "frame, f <id>\n  Select a stack frame.";

/// Help of `thread`.
pub const TOPIC_THREAD: &'static str = "thread, t <id>\n  Select a thread.";

/// Help of `catch`.
pub const TOPIC_CATCH: &'static str = "catch <filter> [if EXPR] | catch clear [filter]\n  Exception breakpoints. `info catch` lists filters.";

/// Help of `skip`.
pub const TOPIC_SKIP: &'static str = "skip [list] | skip add <pattern> | skip clear [pattern]\n  Auto-continue in matching sources.";

/// Help of `goto`.
pub const TOPIC_GOTO: &'static str = "goto, jump <file>:<line>\n  Jump execution to a source line.";

/// Help of `break function`.
pub const TOPIC_BREAK_FUNCTION: &'static str = "break function <name> | break function clear <name>\n  Function breakpoints (emulated when unsupported).";

/// Help of `data-watch`.
pub const TOPIC_DATA_WATCH: &'static str = "data-watch [add] <expr> | data-watch remove <expr> | data-watch list\n  Emulated data breakpoints.";

/// Help of `restart`.
pub const TOPIC_RESTART: &'static str = "restart [frame <id>]\n  Restart execution from a stack frame.";

/// Help of `disasm`.
pub const TOPIC_DISASM: &'static str = "disasm <memory-reference> [offset] [count]\n  Disassemble instructions at a memory reference.";

/// Help of `watch`.
pub const TOPIC_WATCH: &'static str = "watch <expr> | unwatch <expr> | watch\n  Client-side watches evaluated on each stop.";

/// Help of `smart-step`.
pub const TOPIC_SMART_STEP: &'static str = "smart-step [on|off]\n  Auto-continue through runtime/stdlib frames.";

/// Help of `status`.
pub const TOPIC_STATUS: &'static str = "status\n  Show remembered execution status.";

/// Help of `sync`.
pub const TOPIC_SYNC: &'static str = "sync\n  Refresh state from session (useful when attaching late).";

/// Help of `capabilities`.
pub const TOPIC_CAPABILITIES: &'static str = "capabilities, caps\n  Show adapter capabilities JSON.";

/// Help of `version`.
pub const TOPIC_VERSION: &'static str = "version, ver\n  Show dap-cli version.";

/// Help of `quit`.
pub const TOPIC_QUIT: &'static str = "quit, q, exit\n  End session (attach mode: detach only, editor keeps running).";

/// Help of `help`.
pub const TOPIC_HELP: &'static str = "help, h, ? [cmd]\n  Show command list or `help <cmd>` for one command.";

/// The help of one command, looked up case-insensitively by any of its
/// names.
pub open spec fn help_topic_spec(topic: Seq<char>) -> Option<Seq<char>> {
    let k = ascii_lower(topic);
    if k == "break"@ || k == "b"@ {
        Some(TOPIC_BREAK@)
    } else if k == "trace"@ || k == "tbreak"@ {
        Some(TOPIC_TRACE@)
    } else if k == "clear"@ {
        Some(TOPIC_CLEAR@)
    } else if k == "info"@ || k == "info break"@ || k == "info breakpoints"@ {
        Some(TOPIC_INFO@)
    } else if k == "bt"@ || k == "stack"@ || k == "backtrace"@ || k == "where"@ {
        Some(TOPIC_BT@)
    } else if k == "show"@ || k == "src"@ || k == "code"@ {
        Some(TOPIC_SHOW@)
    } else if k == "print"@ || k == "p"@ || k == "eval"@ || k == "expr"@ {
        Some(TOPIC_PRINT@)
    } else if k == "pp"@ {
        Some(TOPIC_PP@)
    } else if k == "locals"@ || k == "info locals"@ {
        Some(TOPIC_LOCALS@)
    } else if k == "scopes"@ || k == "info scopes"@ {
        Some(TOPIC_SCOPES@)
    } else if k == "set"@ {
        Some(TOPIC_SET@)
    } else if k == "colors"@ || k == "color"@ || k == "syntax-color"@ || k == "syntax-colors"@ {
        Some(TOPIC_COLORS@)
    } else if k == "next"@ || k == "n"@ || k == "step-over"@ || k == "stepover"@ {
        Some(TOPIC_NEXT@)
    } else if k == "step"@ || k == "s"@ || k == "step-in"@ || k == "stepin"@ {
        Some(TOPIC_STEP@)
    } else if k == "finish"@ || k == "step-out"@ || k == "stepout"@ {
        Some(TOPIC_FINISH@)
    } else if k == "continue"@ || k == "cont"@ || k == "c"@ || k == "run"@ {
        Some(TOPIC_CONTINUE@)
    } else if k == "threads"@ || k == "info threads"@ {
        Some(TOPIC_THREADS@)
    } else if k == "frame"@ || k == "f"@ {
        Some(TOPIC_FRAME@)
    } else if k == "thread"@ || k == "t"@ {
        Some(TOPIC_THREAD@)
    } else if k == "catch"@ || k == "info catch"@ {
        Some(TOPIC_CATCH@)
    } else if k == "skip"@ {
        Some(TOPIC_SKIP@)
    } else if k == "goto"@ || k == "jump"@ {
        Some(TOPIC_GOTO@)
    } else if k == "break function"@ || k == "function"@ {
        Some(TOPIC_BREAK_FUNCTION@)
    } else if k == "data-watch"@ || k == "dwatch"@ {
        Some(TOPIC_DATA_WATCH@)
    } else if k == "restart"@ {
        Some(TOPIC_RESTART@)
    } else if k == "disasm"@ || k == "disassemble"@ {
        Some(TOPIC_DISASM@)
    } else if k == "watch"@ || k == "unwatch"@ {
        Some(TOPIC_WATCH@)
    } else if k == "smart-step"@ || k == "smartstep"@ {
        Some(TOPIC_SMART_STEP@)
    } else if k == "status"@ {
        Some(TOPIC_STATUS@)
    } else if k == "sync"@ {
        Some(TOPIC_SYNC@)
    } else if k == "capabilities"@ || k == "caps"@ {
        Some(TOPIC_CAPABILITIES@)
    } else if k == "version"@ || k == "ver"@ {
        Some(TOPIC_VERSION@)
    } else if k == "quit"@ || k == "q"@ || k == "exit"@ {
        Some(TOPIC_QUIT@)
    } else if k == "help"@ || k == "h"@ || k == "?"@ {
        Some(TOPIC_HELP@)
    } else {
        None
    }
}

/// The command overview shown by `help`.
pub fn help_text() -> (r: &'static str)
    ensures
        r@ == HELP_TEXT@,
{
    HELP_TEXT
}

/// The help of one command, or `None` for an unknown topic. Topics are
/// matched ignoring ASCII case.
pub fn help_topic(topic: &str) -> (r: Option<String>)
    ensures
        match r {
            Some(s) => help_topic_spec(topic@) == Some(s@),
            None => help_topic_spec(topic@) is None,
        },
{
    let k = lower_chars(&chars_of(topic));
    let text =     if eq_lit(&k, "break") || eq_lit(&k, "b") {
        TOPIC_BREAK
    } else if eq_lit(&k, "trace") || eq_lit(&k, "tbreak") {
        TOPIC_TRACE
    } else if eq_lit(&k, "clear") {
        TOPIC_CLEAR
    } else if eq_lit(&k, "info") || eq_lit(&k, "info break") || eq_lit(&k, "info breakpoints") {
        TOPIC_INFO
    } else if eq_lit(&k, "bt") || eq_lit(&k, "stack") || eq_lit(&k, "backtrace") || eq_lit(&k, "where") {
        TOPIC_BT
    } else if eq_lit(&k, "show") || eq_lit(&k, "src") || eq_lit(&k, "code") {
        TOPIC_SHOW
    } else if eq_lit(&k, "print") || eq_lit(&k, "p") || eq_lit(&k, "eval") || eq_lit(&k, "expr") {
        TOPIC_PRINT
    } else if eq_lit(&k, "pp") {
        TOPIC_PP
    } else if eq_lit(&k, "locals") || eq_lit(&k, "info locals") {
        TOPIC_LOCALS
    } else if eq_lit(&k, "scopes") || eq_lit(&k, "info scopes") {
        TOPIC_SCOPES
    } else if eq_lit(&k, "set") {
        TOPIC_SET
    } else if eq_lit(&k, "colors") || eq_lit(&k, "color") || eq_lit(&k, "syntax-color") || eq_lit(&k, "syntax-colors") {
        TOPIC_COLORS
    } else if eq_lit(&k, "next") || eq_lit(&k, "n") || eq_lit(&k, "step-over") || eq_lit(&k, "stepover") {
        TOPIC_NEXT
    } else if eq_lit(&k, "step") || eq_lit(&k, "s") || eq_lit(&k, "step-in") || eq_lit(&k, "stepin") {
        TOPIC_STEP
    } else if eq_lit(&k, "finish") || eq_lit(&k, "step-out") || eq_lit(&k, "stepout") {
        TOPIC_FINISH
    } else if eq_lit(&k, "continue") || eq_lit(&k, "cont") || eq_lit(&k, "c") || eq_lit(&k, "run") {
        TOPIC_CONTINUE
    } else if eq_lit(&k, "threads") || eq_lit(&k, "info threads") {
        TOPIC_THREADS
    } else if eq_lit(&k, "frame") || eq_lit(&k, "f") {
        TOPIC_FRAME
    } else if eq_lit(&k, "thread") || eq_lit(&k, "t") {
        TOPIC_THREAD
    } else if eq_lit(&k, "catch") || eq_lit(&k, "info catch") {
        TOPIC_CATCH
    } else if eq_lit(&k, "skip") {
        TOPIC_SKIP
    } else if eq_lit(&k, "goto") || eq_lit(&k, "jump") {
        TOPIC_GOTO
    } else if eq_lit(&k, "break function") || eq_lit(&k, "function") {
        TOPIC_BREAK_FUNCTION
    } else if eq_lit(&k, "data-watch") || eq_lit(&k, "dwatch") {
        TOPIC_DATA_WATCH
    } else if eq_lit(&k, "restart") {
        TOPIC_RESTART
    } else if eq_lit(&k, "disasm") || eq_lit(&k, "disassemble") {
        TOPIC_DISASM
    } else if eq_lit(&k, "watch") || eq_lit(&k, "unwatch") {
        TOPIC_WATCH
    } else if eq_lit(&k, "smart-step") || eq_lit(&k, "smartstep") {
        TOPIC_SMART_STEP
    } else if eq_lit(&k, "status") {
        TOPIC_STATUS
    } else if eq_lit(&k, "sync") {
        TOPIC_SYNC
    } else if eq_lit(&k, "capabilities") || eq_lit(&k, "caps") {
        TOPIC_CAPABILITIES
    } else if eq_lit(&k, "version") || eq_lit(&k, "ver") {
        TOPIC_VERSION
    } else if eq_lit(&k, "quit") || eq_lit(&k, "q") || eq_lit(&k, "exit") {
        TOPIC_QUIT
    } else if eq_lit(&k, "help") || eq_lit(&k, "h") || eq_lit(&k, "?") {
        TOPIC_HELP
    } else {
        return None;
    };
    Some(owned(text))
}

/// The command words the overview lists, as a user types them.
pub open spec fn help_command_words() -> Seq<Seq<char>> {
    seq![
        "run"@,
        "continue"@,
        "cont"@,
        "c"@,
        "next"@,
        "n"@,
        "step-over"@,
        "step"@,
        "s"@,
        "step-in"@,
        "finish"@,
        "step-out"@,
        "break"@,
        "b"@,
        "trace"@,
        "tbreak"@,
        "clear"@,
        "info break"@,
        "info breakpoints"@,
        "bt"@,
        "backtrace"@,
        "stack"@,
        "where"@,
        "show"@,
        "src"@,
        "code"@,
        "frame"@,
        "f"@,
        "thread"@,
        "t"@,
        "print"@,
        "p"@,
        "eval"@,
        "expr"@,
        "pp"@,
        "watch"@,
        "unwatch"@,
        "locals"@,
        "info locals"@,
        "scopes"@,
        "info scopes"@,
        "set"@,
        "threads"@,
        "info threads"@,
        "catch"@,
        "info catch"@,
        "skip"@,
        "smart-step"@,
        "goto"@,
        "jump"@,
        "break function"@,
        "data-watch"@,
        "restart"@,
        "disasm"@,
        "status"@,
        "sync"@,
        "capabilities"@,
        "caps"@,
        "colors"@,
        "color"@,
        "version"@,
        "ver"@,
        "help"@,
        "h"@,
        "?"@,
        "quit"@,
        "q"@,
        "exit"@
    ]
}

proof fn lemma_help_words_0()
    ensures
        help_topic_spec("run"@) is Some,
        help_topic_spec("continue"@) is Some,
        help_topic_spec("cont"@) is Some,
        help_topic_spec("c"@) is Some,
        help_topic_spec("next"@) is Some,
        help_topic_spec("n"@) is Some,
        help_topic_spec("step-over"@) is Some,
        help_topic_spec("step"@) is Some,
        help_topic_spec("s"@) is Some,
        help_topic_spec("step-in"@) is Some,
        help_topic_spec("finish"@) is Some,
        help_topic_spec("step-out"@) is Some,
{
    reveal_strlit("run");
    assert(ascii_lower("run"@) =~= "run"@);
    assert(help_topic_spec("run"@) is Some);
    reveal_strlit("continue");
    assert(ascii_lower("continue"@) =~= "continue"@);
    assert(help_topic_spec("continue"@) is Some);
    reveal_strlit("cont");
    assert(ascii_lower("cont"@) =~= "cont"@);
    assert(help_topic_spec("cont"@) is Some);
    reveal_strlit("c");
    assert(ascii_lower("c"@) =~= "c"@);
    assert(help_topic_spec("c"@) is Some);
    reveal_strlit("next");
    assert(ascii_lower("next"@) =~= "next"@);
    assert(help_topic_spec("next"@) is Some);
    reveal_strlit("n");
    assert(ascii_lower("n"@) =~= "n"@);
    assert(help_topic_spec("n"@) is Some);
    reveal_strlit("step-over");
    assert(ascii_lower("step-over"@) =~= "step-over"@);
    assert(help_topic_spec("step-over"@) is Some);
    reveal_strlit("step");
    assert(ascii_lower("step"@) =~= "step"@);
    assert(help_topic_spec("step"@) is Some);
    reveal_strlit("s");
    assert(ascii_lower("s"@) =~= "s"@);
    assert(help_topic_spec("s"@) is Some);
    reveal_strlit("step-in");
    assert(ascii_lower("step-in"@) =~= "step-in"@);
    assert(help_topic_spec("step-in"@) is Some);
    reveal_strlit("finish");
    assert(ascii_lower("finish"@) =~= "finish"@);
    assert(help_topic_spec("finish"@) is Some);
    reveal_strlit("step-out");
    assert(ascii_lower("step-out"@) =~= "step-out"@);
    assert(help_topic_spec("step-out"@) is Some);
}

proof fn lemma_help_words_1()
    ensures
        help_topic_spec("break"@) is Some,
        help_topic_spec("b"@) is Some,
        help_topic_spec("trace"@) is Some,
        help_topic_spec("tbreak"@) is Some,
        help_topic_spec("clear"@) is Some,
        help_topic_spec("info break"@) is Some,
        help_topic_spec("info breakpoints"@) is Some,
        help_topic_spec("bt"@) is Some,
        help_topic_spec("backtrace"@) is Some,
        help_topic_spec("stack"@) is Some,
        help_topic_spec("where"@) is Some,
        help_topic_spec("show"@) is Some,
{
    reveal_strlit("break");
    assert(ascii_lower("break"@) =~= "break"@);
    assert(help_topic_spec("break"@) is Some);
    reveal_strlit("b");
    assert(ascii_lower("b"@) =~= "b"@);
    assert(help_topic_spec("b"@) is Some);
    reveal_strlit("trace");
    assert(ascii_lower("trace"@) =~= "trace"@);
    assert(help_topic_spec("trace"@) is Some);
    reveal_strlit("tbreak");
    assert(ascii_lower("tbreak"@) =~= "tbreak"@);
    assert(help_topic_spec("tbreak"@) is Some);
    reveal_strlit("clear");
    assert(ascii_lower("clear"@) =~= "clear"@);
    assert(help_topic_spec("clear"@) is Some);
    reveal_strlit("info break");
    assert(ascii_lower("info break"@) =~= "info break"@);
    assert(help_topic_spec("info break"@) is Some);
    reveal_strlit("info breakpoints");
    assert(ascii_lower("info breakpoints"@) =~= "info breakpoints"@);
    assert(help_topic_spec("info breakpoints"@) is Some);
    reveal_strlit("bt");
    assert(ascii_lower("bt"@) =~= "bt"@);
    assert(help_topic_spec("bt"@) is Some);
    reveal_strlit("backtrace");
    assert(ascii_lower("backtrace"@) =~= "backtrace"@);
    assert(help_topic_spec("backtrace"@) is Some);
    reveal_strlit("stack");
    assert(ascii_lower("stack"@) =~= "stack"@);
    assert(help_topic_spec("stack"@) is Some);
    reveal_strlit("where");
    assert(ascii_lower("where"@) =~= "where"@);
    assert(help_topic_spec("where"@) is Some);
    reveal_strlit("show");
    assert(ascii_lower("show"@) =~= "show"@);
    assert(help_topic_spec("show"@) is Some);
}

proof fn lemma_help_words_2()
    ensures
        help_topic_spec("src"@) is Some,
        help_topic_spec("code"@) is Some,
        help_topic_spec("frame"@) is Some,
        help_topic_spec("f"@) is Some,
        help_topic_spec("thread"@) is Some,
        help_topic_spec("t"@) is Some,
        help_topic_spec("print"@) is Some,
        help_topic_spec("p"@) is Some,
        help_topic_spec("eval"@) is Some,
        help_topic_spec("expr"@) is Some,
        help_topic_spec("pp"@) is Some,
        help_topic_spec("watch"@) is Some,
{
    reveal_strlit("src");
    assert(ascii_lower("src"@) =~= "src"@);
    assert(help_topic_spec("src"@) is Some);
    reveal_strlit("code");
    assert(ascii_lower("code"@) =~= "code"@);
    assert(help_topic_spec("code"@) is Some);
    reveal_strlit("frame");
    assert(ascii_lower("frame"@) =~= "frame"@);
    assert(help_topic_spec("frame"@) is Some);
    reveal_strlit("f");
    assert(ascii_lower("f"@) =~= "f"@);
    assert(help_topic_spec("f"@) is Some);
    reveal_strlit("thread");
    assert(ascii_lower("thread"@) =~= "thread"@);
    assert(help_topic_spec("thread"@) is Some);
    reveal_strlit("t");
    assert(ascii_lower("t"@) =~= "t"@);
    assert(help_topic_spec("t"@) is Some);
    reveal_strlit("print");
    assert(ascii_lower("print"@) =~= "print"@);
    assert(help_topic_spec("print"@) is Some);
    reveal_strlit("p");
    assert(ascii_lower("p"@) =~= "p"@);
    assert(help_topic_spec("p"@) is Some);
    reveal_strlit("eval");
    assert(ascii_lower("eval"@) =~= "eval"@);
    assert(help_topic_spec("eval"@) is Some);
    reveal_strlit("expr");
    assert(ascii_lower("expr"@) =~= "expr"@);
    assert(help_topic_spec("expr"@) is Some);
    reveal_strlit("pp");
    assert(ascii_lower("pp"@) =~= "pp"@);
    assert(help_topic_spec("pp"@) is Some);
    reveal_strlit("watch");
    assert(ascii_lower("watch"@) =~= "watch"@);
    assert(help_topic_spec("watch"@) is Some);
}

proof fn lemma_help_words_3()
    ensures
        help_topic_spec("unwatch"@) is Some,
        help_topic_spec("locals"@) is Some,
        help_topic_spec("info locals"@) is Some,
        help_topic_spec("scopes"@) is Some,
        help_topic_spec("info scopes"@) is Some,
        help_topic_spec("set"@) is Some,
        help_topic_spec("threads"@) is Some,
        help_topic_spec("info threads"@) is Some,
        help_topic_spec("catch"@) is Some,
        help_topic_spec("info catch"@) is Some,
        help_topic_spec("skip"@) is Some,
        help_topic_spec("smart-step"@) is Some,
{
    reveal_strlit("unwatch");
    assert(ascii_lower("unwatch"@) =~= "unwatch"@);
    assert(help_topic_spec("unwatch"@) is Some);
    reveal_strlit("locals");
    assert(ascii_lower("locals"@) =~= "locals"@);
    assert(help_topic_spec("locals"@) is Some);
    reveal_strlit("info locals");
    assert(ascii_lower("info locals"@) =~= "info locals"@);
    assert(help_topic_spec("info locals"@) is Some);
    reveal_strlit("scopes");
    assert(ascii_lower("scopes"@) =~= "scopes"@);
    assert(help_topic_spec("scopes"@) is Some);
    reveal_strlit("info scopes");
    assert(ascii_lower("info scopes"@) =~= "info scopes"@);
    assert(help_topic_spec("info scopes"@) is Some);
    reveal_strlit("set");
    assert(ascii_lower("set"@) =~= "set"@);
    assert(help_topic_spec("set"@) is Some);
    reveal_strlit("threads");
    assert(ascii_lower("threads"@) =~= "threads"@);
    assert(help_topic_spec("threads"@) is Some);
    reveal_strlit("info threads");
    assert(ascii_lower("info threads"@) =~= "info threads"@);
    assert(help_topic_spec("info threads"@) is Some);
    reveal_strlit("catch");
    assert(ascii_lower("catch"@) =~= "catch"@);
    assert(help_topic_spec("catch"@) is Some);
    reveal_strlit("info catch");
    assert(ascii_lower("info catch"@) =~= "info catch"@);
    assert(help_topic_spec("info catch"@) is Some);
    reveal_strlit("skip");
    assert(ascii_lower("skip"@) =~= "skip"@);
    assert(help_topic_spec("skip"@) is Some);
    reveal_strlit("smart-step");
    assert(ascii_lower("smart-step"@) =~= "smart-step"@);
    assert(help_topic_spec("smart-step"@) is Some);
}

proof fn lemma_help_words_4()
    ensures
        help_topic_spec("goto"@) is Some,
        help_topic_spec("jump"@) is Some,
        help_topic_spec("break function"@) is Some,
        help_topic_spec("data-watch"@) is Some,
        help_topic_spec("restart"@) is Some,
        help_topic_spec("disasm"@) is Some,
        help_topic_spec("status"@) is Some,
        help_topic_spec("sync"@) is Some,
        help_topic_spec("capabilities"@) is Some,
        help_topic_spec("caps"@) is Some,
        help_topic_spec("colors"@) is Some,
        help_topic_spec("color"@) is Some,
{
    reveal_strlit("goto");
    assert(ascii_lower("goto"@) =~= "goto"@);
    assert(help_topic_spec("goto"@) is Some);
    reveal_strlit("jump");
    assert(ascii_lower("jump"@) =~= "jump"@);
    assert(help_topic_spec("jump"@) is Some);
    reveal_strlit("break function");
    assert(ascii_lower("break function"@) =~= "break function"@);
    assert(help_topic_spec("break function"@) is Some);
    reveal_strlit("data-watch");
    assert(ascii_lower("data-watch"@) =~= "data-watch"@);
    assert(help_topic_spec("data-watch"@) is Some);
    reveal_strlit("restart");
    assert(ascii_lower("restart"@) =~= "restart"@);
    assert(help_topic_spec("restart"@) is Some);
    reveal_strlit("disasm");
    assert(ascii_lower("disasm"@) =~= "disasm"@);
    assert(help_topic_spec("disasm"@) is Some);
    reveal_strlit("status");
    assert(ascii_lower("status"@) =~= "status"@);
    assert(help_topic_spec("status"@) is Some);
    reveal_strlit("sync");
    assert(ascii_lower("sync"@) =~= "sync"@);
    assert(help_topic_spec("sync"@) is Some);
    reveal_strlit("capabilities");
    assert(ascii_lower("capabilities"@) =~= "capabilities"@);
    assert(help_topic_spec("capabilities"@) is Some);
    reveal_strlit("caps");
    assert(ascii_lower("caps"@) =~= "caps"@);
    assert(help_topic_spec("caps"@) is Some);
    reveal_strlit("colors");
    assert(ascii_lower("colors"@) =~= "colors"@);
    assert(help_topic_spec("colors"@) is Some);
    reveal_strlit("color");
    assert(ascii_lower("color"@) =~= "color"@);
    assert(help_topic_spec("color"@) is Some);
}

proof fn lemma_help_words_5()
    ensures
        help_topic_spec("version"@) is Some,
        help_topic_spec("ver"@) is Some,
        help_topic_spec("help"@) is Some,
        help_topic_spec("h"@) is Some,
        help_topic_spec("?"@) is Some,
        help_topic_spec("quit"@) is Some,
        help_topic_spec("q"@) is Some,
        help_topic_spec("exit"@) is Some,
{
    reveal_strlit("version");
    assert(ascii_lower("version"@) =~= "version"@);
    assert(help_topic_spec("version"@) is Some);
    reveal_strlit("ver");
    assert(ascii_lower("ver"@) =~= "ver"@);
    assert(help_topic_spec("ver"@) is Some);
    reveal_strlit("help");
    assert(ascii_lower("help"@) =~= "help"@);
    assert(help_topic_spec("help"@) is Some);
    reveal_strlit("h");
    assert(ascii_lower("h"@) =~= "h"@);
    assert(help_topic_spec("h"@) is Some);
    reveal_strlit("?");
    assert(ascii_lower("?"@) =~= "?"@);
    assert(help_topic_spec("?"@) is Some);
    reveal_strlit("quit");
    assert(ascii_lower("quit"@) =~= "quit"@);
    assert(help_topic_spec("quit"@) is Some);
    reveal_strlit("q");
    assert(ascii_lower("q"@) =~= "q"@);
    assert(help_topic_spec("q"@) is Some);
    reveal_strlit("exit");
    assert(ascii_lower("exit"@) =~= "exit"@);
    assert(help_topic_spec("exit"@) is Some);
}

/// Every command word the overview lists has its own help, and help is
/// looked up without regard to ASCII case.
pub proof fn lemma_help_covers_listed_commands()
    ensures
        forall|i: int|
            0 <= i < help_command_words().len() ==> (#[trigger] help_topic_spec(
                help_command_words()[i],
            )) is Some,
        forall|a: Seq<char>, b: Seq<char>|
            ascii_lower(a) == ascii_lower(b) ==> #[trigger] help_topic_spec(a) == #[trigger] help_topic_spec(b),
{
    lemma_help_words_0();
    lemma_help_words_1();
    lemma_help_words_2();
    lemma_help_words_3();
    lemma_help_words_4();
    lemma_help_words_5();
    assert forall|i: int| 0 <= i < help_command_words().len() implies (#[trigger] help_topic_spec(
        help_command_words()[i],
    )) is Some by {
        assert(help_command_words()[i] == help_command_words()[i]);
    }
}

} // verus!

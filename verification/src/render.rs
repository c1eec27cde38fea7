//! Plain-text rendering of debugger answers: threads, stack traces, scopes,
//! variables, evaluation results, watches, data watches, breakpoints,
//! exception breakpoints and filters, the stop location and the status line
//! after a step.
//! Each renderer takes the fields of the adapter's answer that it reads;
//! a missing field shows as its default (`?`, `-1`, `false`).
use vstd::prelude::*;
use crate::num::{int_str, push_int, push_u64};
use crate::paths::{file_name_of, short_filename};
use crate::text::{append, opt_view, owned, push_char};

verus! {

/// The text of `o`, or `d` when it is missing.
pub open spec fn or_text(o: Option<String>, d: Seq<char>) -> Seq<char> {
    match o {
        Some(s) => s@,
        None => d,
    }
}

pub open spec fn bool_text(b: bool) -> Seq<char> {
    if b {
        "true"@
    } else {
        "false"@
    }
}

fn push_or(out: &mut String, o: &Option<String>, d: &str)
    ensures
        final(out)@ == old(out)@ + or_text(*o, d@),
{
    match o {
        Some(s) => append(out, s.as_str()),
        None => append(out, d),
    }
}

fn push_bool(out: &mut String, b: bool)
    ensures
        final(out)@ == old(out)@ + bool_text(b),
{
    if b {
        append(out, "true");
    } else {
        append(out, "false");
    }
}

// ---------------------------------------------------------------------------
// Threads
// ---------------------------------------------------------------------------
/// A thread of a `threads` answer.
#[derive(Debug, Clone, PartialEq, Eq)]
pub struct ThreadSummary {
    pub id: Option<i64>,
    pub name: Option<String>,
}

pub open spec fn thread_line(t: ThreadSummary) -> Seq<char> {
    let id = match t.id {
        Some(i) => i as int,
        None => -1,
    };
    "  ["@ + int_str(id) + "] "@ + or_text(t.name, "?"@) + "\n"@
}

pub open spec fn thread_lines(s: Seq<ThreadSummary>) -> Seq<char>
    decreases s.len(),
{
    if s.len() == 0 {
        Seq::empty()
    } else {
        thread_lines(s.drop_last()) + thread_line(s.last())
    }
}

/// Renders the threads of a `threads` answer (`None` when the answer has
/// no thread list).
pub fn format_threads(threads: Option<&Vec<ThreadSummary>>) -> (r: String)
    ensures
        r@ == "Threads:\n"@ + match threads {
            Some(ts) => if ts@.len() > 0 {
                thread_lines(ts@)
            } else {
                "  (none)\n"@
            },
            None => "  (none)\n"@,
        },
{
    let mut out = owned("Threads:\n");
    match threads {
        Some(ts) => {
            if ts.len() > 0 {
                let ghost head = out@;
                let mut i: usize = 0;
                while i < ts.len()
                    invariant
                        i <= ts.len(),
                        out@ == head + thread_lines(ts@.take(i as int)),
                    decreases ts.len() - i,
                {
                    let t = &ts[i];
                    append(&mut out, "  [");
                    push_int(
                        &mut out,
                        match t.id {
                            Some(id) => id,
                            None => -1,
                        },
                    );
                    append(&mut out, "] ");
                    push_or(&mut out, &t.name, "?");
                    append(&mut out, "\n");
                    assert(ts@.take((i + 1) as int).drop_last() =~= ts@.take(i as int));
                    i = i + 1;
                }
                assert(ts@.take(ts.len() as int) =~= ts@);
            } else {
                append(&mut out, "  (none)\n");
            }
        },
        None => append(&mut out, "  (none)\n"),
    }
    out
}

// ---------------------------------------------------------------------------
// Scopes
// ---------------------------------------------------------------------------
/// A scope of a `scopes` answer.
#[derive(Debug, Clone, PartialEq, Eq)]
pub struct ScopeSummary {
    pub name: Option<String>,
    pub variables_reference: Option<i64>,
    pub expensive: Option<bool>,
}

pub open spec fn scope_line(s: ScopeSummary) -> Seq<char> {
    let v = match s.variables_reference {
        Some(i) => i as int,
        None => -1,
    };
    let e = match s.expensive {
        Some(b) => b,
        None => false,
    };
    "  "@ + or_text(s.name, "?"@) + " (variablesReference="@ + int_str(v) + ", expensive="@
        + bool_text(e) + ")\n"@
}

pub open spec fn scope_lines(s: Seq<ScopeSummary>) -> Seq<char>
    decreases s.len(),
{
    if s.len() == 0 {
        Seq::empty()
    } else {
        scope_lines(s.drop_last()) + scope_line(s.last())
    }
}

fn scope_text(s: &ScopeSummary) -> (r: String)
    ensures
        r@ == scope_line(*s),
{
    let mut out = owned("  ");
    push_or(&mut out, &s.name, "?");
    append(&mut out, " (variablesReference=");
    push_int(
        &mut out,
        match s.variables_reference {
            Some(v) => v,
            None => -1,
        },
    );
    append(&mut out, ", expensive=");
    push_bool(
        &mut out,
        match s.expensive {
            Some(b) => b,
            None => false,
        },
    );
    append(&mut out, ")\n");
    out
}

/// Renders the scopes of a `scopes` answer.
pub fn format_scopes(scopes: Option<&Vec<ScopeSummary>>) -> (r: String)
    ensures
        r@ == "Scopes:\n"@ + match scopes {
            Some(ss) => if ss@.len() > 0 {
                scope_lines(ss@)
            } else {
                "  (none)\n"@
            },
            None => "  (none)\n"@,
        },
{
    let mut out = owned("Scopes:\n");
    match scopes {
        Some(ss) => {
            if ss.len() > 0 {
                let ghost head = out@;
                let mut i: usize = 0;
                while i < ss.len()
                    invariant
                        i <= ss.len(),
                        out@ == head + scope_lines(ss@.take(i as int)),
                    decreases ss.len() - i,
                {
                    let line = scope_text(&ss[i]);
                    append(&mut out, line.as_str());
                    assert(ss@.take((i + 1) as int).drop_last() =~= ss@.take(i as int));
                    i = i + 1;
                }
                assert(ss@.take(ss.len() as int) =~= ss@);
            } else {
                append(&mut out, "  (none)\n");
            }
        },
        None => append(&mut out, "  (none)\n"),
    }
    out
}

// ---------------------------------------------------------------------------
// Watches and data watches
// ---------------------------------------------------------------------------
/// A watch expression with its last value.
#[derive(Debug, Clone, PartialEq, Eq)]
pub struct WatchValue {
    pub expression: Option<String>,
    pub result: Option<String>,
}

pub open spec fn watch_line(w: WatchValue) -> Seq<char> {
    "  "@ + or_text(w.expression, "?"@) + " = "@ + or_text(w.result, "?"@) + "\n"@
}

pub open spec fn watch_lines(s: Seq<WatchValue>) -> Seq<char>
    decreases s.len(),
{
    if s.len() == 0 {
        Seq::empty()
    } else {
        watch_lines(s.drop_last()) + watch_line(s.last())
    }
}

/// Renders client-side watch values.
pub fn format_watches(watches: Option<&Vec<WatchValue>>) -> (r: String)
    ensures
        r@ == "Watches:\n"@ + match watches {
            Some(ws) => if ws@.len() > 0 {
                watch_lines(ws@)
            } else {
                "  (none)\n"@
            },
            None => "  (none)\n"@,
        },
{
    let mut out = owned("Watches:\n");
    match watches {
        Some(ws) => {
            if ws.len() > 0 {
                let ghost head = out@;
                let mut i: usize = 0;
                while i < ws.len()
                    invariant
                        i <= ws.len(),
                        out@ == head + watch_lines(ws@.take(i as int)),
                    decreases ws.len() - i,
                {
                    append(&mut out, "  ");
                    push_or(&mut out, &ws[i].expression, "?");
                    append(&mut out, " = ");
                    push_or(&mut out, &ws[i].result, "?");
                    append(&mut out, "\n");
                    assert(ws@.take((i + 1) as int).drop_last() =~= ws@.take(i as int));
                    i = i + 1;
                }
                assert(ws@.take(ws.len() as int) =~= ws@);
            } else {
                append(&mut out, "  (none)\n");
            }
        },
        None => append(&mut out, "  (none)\n"),
    }
    out
}

/// A data watch as reported to the user.
#[derive(Debug, Clone, PartialEq, Eq)]
pub struct DataWatchSummary {
    pub expression: Option<String>,
    pub baseline: Option<String>,
}

pub open spec fn data_watch_line(w: DataWatchSummary) -> Seq<char> {
    "  "@ + or_text(w.expression, "?"@) + match w.baseline {
        Some(b) => " baseline="@ + b@,
        None => Seq::empty(),
    } + "\n"@
}

pub open spec fn data_watch_lines(s: Seq<DataWatchSummary>) -> Seq<char>
    decreases s.len(),
{
    if s.len() == 0 {
        Seq::empty()
    } else {
        data_watch_lines(s.drop_last()) + data_watch_line(s.last())
    }
}

/// Renders emulated data watches.
pub fn format_data_watches(entries: Option<&Vec<DataWatchSummary>>) -> (r: String)
    ensures
        r@ == "Data watches:\n"@ + match entries {
            Some(es) => if es@.len() > 0 {
                data_watch_lines(es@)
            } else {
                "  (none)\n"@
            },
            None => "  (none)\n"@,
        },
{
    let mut out = owned("Data watches:\n");
    match entries {
        Some(es) => {
            if es.len() > 0 {
                let ghost head = out@;
                let mut i: usize = 0;
                while i < es.len()
                    invariant
                        i <= es.len(),
                        out@ == head + data_watch_lines(es@.take(i as int)),
                    decreases es.len() - i,
                {
                    append(&mut out, "  ");
                    push_or(&mut out, &es[i].expression, "?");
                    match &es[i].baseline {
                        Some(b) => {
                            append(&mut out, " baseline=");
                            append(&mut out, b.as_str());
                        },
                        None => {},
                    }
                    append(&mut out, "\n");
                    assert(es@.take((i + 1) as int).drop_last() =~= es@.take(i as int));
                    i = i + 1;
                }
                assert(es@.take(es.len() as int) =~= es@);
            } else {
                append(&mut out, "  (none)\n");
            }
        },
        None => append(&mut out, "  (none)\n"),
    }
    out
}

// ---------------------------------------------------------------------------
// Exception breakpoints and filters
// ---------------------------------------------------------------------------
/// An installed exception breakpoint.
#[derive(Debug, Clone, PartialEq, Eq)]
pub struct ExceptionBreakpointSummary {
    pub filter: Option<String>,
    pub condition: Option<String>,
}

pub open spec fn exception_breakpoint_line(e: ExceptionBreakpointSummary) -> Seq<char> {
    "  "@ + or_text(e.filter, "?"@) + match e.condition {
        Some(c) => " if "@ + c@,
        None => Seq::empty(),
    } + "\n"@
}

pub open spec fn exception_breakpoint_lines(s: Seq<ExceptionBreakpointSummary>) -> Seq<char>
    decreases s.len(),
{
    if s.len() == 0 {
        Seq::empty()
    } else {
        exception_breakpoint_lines(s.drop_last()) + exception_breakpoint_line(s.last())
    }
}

/// Renders installed exception breakpoint filters.
pub fn format_exception_breakpoints(entries: &Vec<ExceptionBreakpointSummary>) -> (r: String)
    ensures
        r@ == "Exception breakpoints:\n"@ + if entries@.len() > 0 {
            exception_breakpoint_lines(entries@)
        } else {
            "  (none)\n"@
        },
{
    let mut out = owned("Exception breakpoints:\n");
    if entries.len() == 0 {
        append(&mut out, "  (none)\n");
        return out;
    }
    let ghost head = out@;
    let mut i: usize = 0;
    while i < entries.len()
        invariant
            i <= entries.len(),
            out@ == head + exception_breakpoint_lines(entries@.take(i as int)),
        decreases entries.len() - i,
    {
        append(&mut out, "  ");
        push_or(&mut out, &entries[i].filter, "?");
        match &entries[i].condition {
            Some(c) => {
                append(&mut out, " if ");
                append(&mut out, c.as_str());
            },
            None => {},
        }
        append(&mut out, "\n");
        assert(entries@.take((i + 1) as int).drop_last() =~= entries@.take(i as int));
        i = i + 1;
    }
    assert(entries@.take(entries.len() as int) =~= entries@);
    out
}

/// An exception filter the adapter advertises.
#[derive(Debug, Clone, PartialEq, Eq)]
pub struct ExceptionFilterSummary {
    pub filter: Option<String>,
    pub label: Option<String>,
    pub default: Option<bool>,
}

pub open spec fn exception_filter_line(f: ExceptionFilterSummary) -> Seq<char> {
    let id = or_text(f.filter, "?"@);
    let d = match f.default {
        Some(b) => b,
        None => false,
    };
    "  "@ + id + " ("@ + or_text(f.label, id) + ") default="@ + bool_text(d) + "\n"@
}

pub open spec fn exception_filter_lines(s: Seq<ExceptionFilterSummary>) -> Seq<char>
    decreases s.len(),
{
    if s.len() == 0 {
        Seq::empty()
    } else {
        exception_filter_lines(s.drop_last()) + exception_filter_line(s.last())
    }
}

fn exception_filter_text(f: &ExceptionFilterSummary) -> (r: String)
    ensures
        r@ == exception_filter_line(*f),
{
    let id: &str = match &f.filter {
        Some(s) => s.as_str(),
        None => "?",
    };
    let mut out = owned("  ");
    append(&mut out, id);
    append(&mut out, " (");
    push_or(&mut out, &f.label, id);
    append(&mut out, ") default=");
    push_bool(
        &mut out,
        match f.default {
            Some(b) => b,
            None => false,
        },
    );
    append(&mut out, "\n");
    out
}

/// Renders the exception filters advertised by the adapter; a filter
/// without a label shows its id as label.
pub fn format_exception_filters(filters: &Vec<ExceptionFilterSummary>) -> (r: String)
    ensures
        r@ == "Exception filters:\n"@ + if filters@.len() > 0 {
            exception_filter_lines(filters@)
        } else {
            "  (none advertised)\n"@
        },
{
    let mut out = owned("Exception filters:\n");
    if filters.len() == 0 {
        append(&mut out, "  (none advertised)\n");
        return out;
    }
    let ghost head = out@;
    let mut i: usize = 0;
    while i < filters.len()
        invariant
            i <= filters.len(),
            out@ == head + exception_filter_lines(filters@.take(i as int)),
        decreases filters.len() - i,
    {
        let line = exception_filter_text(&filters[i]);
        append(&mut out, line.as_str());
        assert(filters@.take((i + 1) as int).drop_last() =~= filters@.take(i as int));
        i = i + 1;
    }
    assert(filters@.take(filters.len() as int) =~= filters@);
    out
}

// ---------------------------------------------------------------------------
// Stop location
// ---------------------------------------------------------------------------
/// The fields of a stack frame that traces and locations are shown from.
#[derive(Debug, Clone, PartialEq, Eq)]
pub struct FrameSummary {
    pub id: Option<i64>,
    pub name: Option<String>,
    pub line: Option<i64>,
    pub path: Option<String>,
}

/// Compact location of the top frame (`None` without a top frame, or when
/// it lacks a path or a line).
pub open spec fn stop_location_spec(top: Option<&FrameSummary>) -> Option<Seq<char>> {
    match top {
        Some(f) => match (f.path, f.line) {
            (Some(p), Some(l)) => Some(
                short_name(p@) + ":"@ + int_str(l as int) + " in "@ + or_text(f.name, "?"@),
            ),
            _ => None,
        },
        None => None,
    }
}

/// Compact location of the top frame, e.g. `main.py:75 in validate_config`;
/// `None` without a top frame, or when it lacks a path or a line.
pub fn format_stop_location(top: Option<&FrameSummary>) -> (r: Option<String>)
    ensures
        opt_view(r) == stop_location_spec(top),
{
    match top {
        Some(f) => match (&f.path, f.line) {
            (Some(p), Some(l)) => {
                let mut s = short_filename(p.as_str());
                append(&mut s, ":");
                push_int(&mut s, l);
                append(&mut s, " in ");
                push_or(&mut s, &f.name, "?");
                Some(s)
            },
            _ => None,
        },
        None => None,
    }
}

/// A path shortened to its file name, when it has one.
pub open spec fn short_name(p: Seq<char>) -> Seq<char> {
    match file_name_of(p) {
        Some(n) => n,
        None => p,
    }
}

/// Line of frame number `n` of a stack trace.
pub open spec fn frame_line(f: FrameSummary, n: nat) -> Seq<char> {
    let id = match f.id {
        Some(i) => i as int,
        None => -1,
    };
    let line = match f.line {
        Some(l) => l as int,
        None => 0,
    };
    "  #"@ + int_str(n as int) + " ["@ + int_str(id) + "] "@ + or_text(f.name, "?"@) + " ("@
        + short_name(or_text(f.path, "?"@)) + ":"@ + int_str(line) + ")\n"@
}

pub open spec fn frame_lines(s: Seq<FrameSummary>) -> Seq<char>
    decreases s.len(),
{
    if s.len() == 0 {
        Seq::empty()
    } else {
        frame_lines(s.drop_last()) + frame_line(s.last(), (s.len() - 1) as nat)
    }
}

fn frame_text(f: &FrameSummary, n: usize) -> (r: String)
    ensures
        r@ == frame_line(*f, n as nat),
{
    let mut out = owned("  #");
    push_u64(&mut out, n as u64);
    append(&mut out, " [");
    push_int(
        &mut out,
        match f.id {
            Some(i) => i,
            None => -1,
        },
    );
    append(&mut out, "] ");
    push_or(&mut out, &f.name, "?");
    append(&mut out, " (");
    let path: &str = match &f.path {
        Some(p) => p.as_str(),
        None => "?",
    };
    let short = short_filename(path);
    append(&mut out, short.as_str());
    append(&mut out, ":");
    push_int(
        &mut out,
        match f.line {
            Some(l) => l,
            None => 0,
        },
    );
    append(&mut out, ")\n");
    out
}

/// Renders every frame of a `stackTrace` answer, without colours: frame
/// number, frame id, name, and file name with line (`None` when the answer
/// has no frame list).
pub fn format_stack_trace(frames: Option<&Vec<FrameSummary>>) -> (r: String)
    ensures
        r@ == "Stack trace:\n"@ + match frames {
            Some(fs) => if fs@.len() > 0 {
                frame_lines(fs@)
            } else {
                "  (no frames)\n"@
            },
            None => "  (no frames)\n"@,
        },
{
    let mut out = owned("Stack trace:\n");
    match frames {
        Some(fs) => {
            if fs.len() > 0 {
                let ghost head = out@;
                let mut i: usize = 0;
                while i < fs.len()
                    invariant
                        i <= fs.len(),
                        out@ == head + frame_lines(fs@.take(i as int)),
                    decreases fs.len() - i,
                {
                    let line = frame_text(&fs[i], i);
                    append(&mut out, line.as_str());
                    assert(fs@.take((i + 1) as int).drop_last() =~= fs@.take(i as int));
                    i = i + 1;
                }
                assert(fs@.take(fs.len() as int) =~= fs@);
            } else {
                append(&mut out, "  (no frames)\n");
            }
        },
        None => append(&mut out, "  (no frames)\n"),
    }
    out
}

/// The fields of a navigation answer that its status line shows.
#[derive(Debug, Clone, PartialEq, Eq)]
pub struct NavigateSummary {
    pub navigation_type: Option<String>,
    pub stop_reason: Option<String>,
    pub thread_id: Option<i64>,
}

/// One-line status after a step or continue, without colours:
/// `→ main.py:75 in validate_config (step, step, thread 1)`, with `?` for
/// an unknown location.
pub fn format_navigate_status(nav: &NavigateSummary, top: Option<&FrameSummary>) -> (r: String)
    ensures
        r@ == "→ "@ + match stop_location_spec(top) {
            Some(l) => l,
            None => "?"@,
        } + " ("@ + or_text(nav.navigation_type, "?"@) + ", "@ + or_text(nav.stop_reason, "?"@)
            + ", thread "@ + int_str(
            match nav.thread_id {
                Some(t) => t as int,
                None => 0,
            },
        ) + ")"@,
{
    let mut out = owned("→ ");
    match format_stop_location(top) {
        Some(l) => append(&mut out, l.as_str()),
        None => append(&mut out, "?"),
    }
    append(&mut out, " (");
    push_or(&mut out, &nav.navigation_type, "?");
    append(&mut out, ", ");
    push_or(&mut out, &nav.stop_reason, "?");
    append(&mut out, ", thread ");
    push_int(
        &mut out,
        match nav.thread_id {
            Some(t) => t,
            None => 0,
        },
    );
    append(&mut out, ")");
    out
}

// ---------------------------------------------------------------------------
// Evaluation results
// ---------------------------------------------------------------------------
/// An `evaluate` answer: its `result` and `type` when those are strings,
/// and the whole answer as JSON text.
#[derive(Debug, Clone, PartialEq, Eq)]
pub struct EvaluateBody {
    pub result: Option<String>,
    /// Its `type`, when that is a string.
    pub result_type: Option<String>,
    pub json: String,
}

/// The text shown for an `evaluate` answer: its result, or the whole answer
/// when it has no string result.
pub fn format_evaluate(body: &EvaluateBody) -> (r: String)
    ensures
        r@ == match body.result {
            Some(x) => x@,
            None => body.json@,
        },
{
    match &body.result {
        Some(x) => x.clone(),
        None => body.json.clone(),
    }
}

/// The text shown for `pp`: the evaluation result followed by its type in
/// parentheses when the answer gives a non-empty one, without colours.
pub fn format_evaluate_pretty(body: &EvaluateBody) -> (r: String)
    ensures
        r@ == match body.result {
            Some(x) => x@,
            None => body.json@,
        } + match body.result_type {
            Some(t) => if t@.len() > 0 {
                " ("@ + t@ + ")"@
            } else {
                Seq::empty()
            },
            None => Seq::empty(),
        },
{
    let mut out = format_evaluate(body);
    let ghost base = out@;
    match &body.result_type {
        Some(t) => {
            if !t.as_str().is_empty() {
                append(&mut out, " (");
                append(&mut out, t.as_str());
                append(&mut out, ")");
            }
        },
        None => {},
    }
    assert(out@ =~= base + match body.result_type {
        Some(t) => if t@.len() > 0 {
            " ("@ + t@ + ")"@
        } else {
            Seq::empty()
        },
        None => Seq::empty(),
    });
    out
}

// ---------------------------------------------------------------------------
// Variables
// ---------------------------------------------------------------------------
/// A variable of a `variables` answer.
#[derive(Debug, Clone, PartialEq, Eq)]
pub struct VariableSummary {
    pub name: Option<String>,
    pub value: Option<String>,
    pub var_type: Option<String>,
}

/// `str::len`: the length of the UTF-8 encoding of `s`, as `usize`.
pub open spec fn str_len(s: Seq<char>) -> nat {
    (vstd::utf8::encode_utf8(s).len() as usize) as nat
}

/// Width of the name column: the longest name in bytes, at least 4.
pub open spec fn name_width(s: Seq<VariableSummary>) -> nat
    decreases s.len(),
{
    if s.len() == 0 {
        4
    } else {
        let w = name_width(s.drop_last());
        match s.last().name {
            Some(n) => if str_len(n@) > w {
                str_len(n@)
            } else {
                w
            },
            None => w,
        }
    }
}

/// `text` left-aligned in a field of `width` characters (`{:<width$}`).
pub open spec fn pad_right(text: Seq<char>, width: nat) -> Seq<char> {
    if text.len() >= width {
        text
    } else {
        text + Seq::new((width - text.len()) as nat, |i: int| ' ')
    }
}

pub open spec fn variable_line(v: VariableSummary, width: nat) -> Seq<char> {
    let ty = or_text(v.var_type, Seq::empty());
    "  "@ + pad_right(or_text(v.name, "?"@), width) + " = "@ + or_text(v.value, "?"@) + if ty.len()
        == 0 {
        "\n"@
    } else {
        " ("@ + ty + ")\n"@
    }
}

pub open spec fn variable_lines(s: Seq<VariableSummary>, width: nat) -> Seq<char>
    decreases s.len(),
{
    if s.len() == 0 {
        Seq::empty()
    } else {
        variable_lines(s.drop_last(), width) + variable_line(s.last(), width)
    }
}

fn char_count(s: &str) -> (n: usize)
    ensures
        n == s@.len(),
{
    let v = crate::text::chars_of(s);
    v.len()
}

fn variable_text(v: &VariableSummary, width: usize) -> (r: String)
    ensures
        r@ == variable_line(*v, width as nat),
{
    let mut out = owned("  ");
    let name: &str = match &v.name {
        Some(n) => n.as_str(),
        None => "?",
    };
    append(&mut out, name);
    let count = char_count(name);
    if count < width {
        let ghost before = out@;
        let mut k: usize = count;
        while k < width
            invariant
                count <= k <= width,
                out@ == before + Seq::new((k - count) as nat, |i: int| ' '),
            decreases width - k,
        {
            push_char(&mut out, ' ');
            assert(out@ =~= before + Seq::new((k + 1 - count) as nat, |i: int| ' '));
            k = k + 1;
        }
    }
    append(&mut out, " = ");
    push_or(&mut out, &v.value, "?");
    match &v.var_type {
        Some(t) => {
            if char_count(t.as_str()) == 0 {
                append(&mut out, "\n");
            } else {
                append(&mut out, " (");
                append(&mut out, t.as_str());
                append(&mut out, ")\n");
            }
        },
        None => append(&mut out, "\n"),
    }
    out
}

/// The aligned table of variables.
pub open spec fn variables_table(vars: Option<&Vec<VariableSummary>>) -> Seq<char> {
    "Locals:\n"@ + match vars {
        Some(vs) => if vs@.len() > 0 {
            variable_lines(vs@, name_width(vs@))
        } else {
            "  (none)\n"@
        },
        None => "  (none)\n"@,
    }
}

/// Renders the variables of a `variables` answer.
pub fn format_variables(vars: Option<&Vec<VariableSummary>>) -> (r: String)
    ensures
        r@ == variables_table(vars),
{
    format_variables_table(vars)
}

/// Renders the variables of a `variables` answer as an aligned table
/// without colours: names padded to the longest name (at least 4 wide),
/// the value, and the type in parentheses when there is one.
#[verifier::spinoff_prover]
pub fn format_variables_table(vars: Option<&Vec<VariableSummary>>) -> (r: String)
    ensures
        r@ == variables_table(vars),
{
    let mut out = owned("Locals:\n");
    match vars {
        Some(vs) => {
            if vs.len() > 0 {
                let mut width: usize = 4;
                let mut j: usize = 0;
                while j < vs.len()
                    invariant
                        j <= vs.len(),
                        width == name_width(vs@.take(j as int)),
                    decreases vs.len() - j,
                {
                    assert(vs@.take((j + 1) as int).drop_last() =~= vs@.take(j as int));
                    match &vs[j].name {
                        Some(n) => {
                            let b = n.as_str().len();
                            if b > width {
                                width = b;
                            }
                        },
                        None => {},
                    }
                    j = j + 1;
                }
                assert(vs@.take(vs.len() as int) =~= vs@);
                let ghost head = out@;
                let mut i: usize = 0;
                while i < vs.len()
                    invariant
                        i <= vs.len(),
                        out@ == head + variable_lines(vs@.take(i as int), width as nat),
                    decreases vs.len() - i,
                {
                    let line = variable_text(&vs[i], width);
                    append(&mut out, line.as_str());
                    assert(vs@.take((i + 1) as int).drop_last() =~= vs@.take(i as int));
                    i = i + 1;
                }
                assert(vs@.take(vs.len() as int) =~= vs@);
            } else {
                append(&mut out, "  (none)\n");
            }
        },
        None => append(&mut out, "  (none)\n"),
    }
    out
}

// ---------------------------------------------------------------------------
// Breakpoints
// ---------------------------------------------------------------------------
/// A tracked breakpoint line with its modifiers.
#[derive(Debug, Clone, PartialEq, Eq)]
pub struct BreakpointLine {
    pub line: Option<i64>,
    pub condition: Option<String>,
    pub hit_condition: Option<String>,
    pub log_message: Option<String>,
}

/// The breakpoints of one file; `None` when the file's entry is not a list.
#[derive(Debug, Clone, PartialEq, Eq)]
pub struct BreakpointFile {
    pub path: String,
    pub entries: Option<Vec<BreakpointLine>>,
}

/// ` if C hit H log L`, each part when present.
pub open spec fn breakpoint_extras(b: BreakpointLine) -> Seq<char> {
    let c = match b.condition {
        Some(x) => " if "@ + x@,
        None => Seq::empty(),
    };
    let h = match b.hit_condition {
        Some(x) => " hit "@ + x@,
        None => Seq::empty(),
    };
    let l = match b.log_message {
        Some(x) => " log "@ + x@,
        None => Seq::empty(),
    };
    c + h + l
}

pub open spec fn breakpoint_line(path: Seq<char>, b: BreakpointLine, number: Option<nat>) -> Seq<char> {
    let line = match b.line {
        Some(l) => l as int,
        None => 0,
    };
    let location = path + ":"@ + int_str(line);
    "  "@ + match number {
        Some(n) => int_str(n as int) + ": "@,
        None => Seq::empty(),
    } + location + breakpoint_extras(b) + "\n"@
}

/// The lines of the breakpoints `s` of `path`, numbered from `first` when
/// numbering.
pub open spec fn breakpoint_lines(path: Seq<char>, s: Seq<BreakpointLine>, numbered: bool, first: nat) -> Seq<char>
    decreases s.len(),
{
    if s.len() == 0 {
        Seq::empty()
    } else {
        breakpoint_lines(path, s.drop_last(), numbered, first) + breakpoint_line(
            path,
            s.last(),
            if numbered {
                Some((first + s.len() - 1) as nat)
            } else {
                None
            },
        )
    }
}

/// Number of breakpoint lines of the files `s`.
pub open spec fn breakpoint_count(s: Seq<BreakpointFile>) -> nat
    decreases s.len(),
{
    if s.len() == 0 {
        0
    } else {
        breakpoint_count(s.drop_last()) + match s.last().entries {
            Some(e) => e@.len(),
            None => 0,
        }
    }
}

pub open spec fn file_block(f: BreakpointFile, numbered: bool, first: nat) -> Seq<char> {
    match f.entries {
        Some(e) => if e@.len() > 0 {
            breakpoint_lines(f.path@, e@, numbered, first)
        } else {
            "  "@ + f.path@ + ": (none)\n"@
        },
        None => "  "@ + f.path@ + ": (none)\n"@,
    }
}

pub open spec fn file_blocks(s: Seq<BreakpointFile>, numbered: bool) -> Seq<char>
    decreases s.len(),
{
    if s.len() == 0 {
        Seq::empty()
    } else {
        file_blocks(s.drop_last(), numbered) + file_block(
            s.last(),
            numbered,
            (breakpoint_count(s.drop_last()) + 1) as nat,
        )
    }
}

fn extras_text(b: &BreakpointLine) -> (r: String)
    ensures
        r@ == breakpoint_extras(*b),
{
    let mut out = String::new();
    match &b.condition {
        Some(x) => {
            append(&mut out, " if ");
            append(&mut out, x.as_str());
        },
        None => {},
    }
    match &b.hit_condition {
        Some(x) => {
            append(&mut out, " hit ");
            append(&mut out, x.as_str());
        },
        None => {},
    }
    match &b.log_message {
        Some(x) => {
            append(&mut out, " log ");
            append(&mut out, x.as_str());
        },
        None => {},
    }
    out
}

fn breakpoint_text(path: &str, b: &BreakpointLine, number: Option<u64>) -> (r: String)
    ensures
        r@ == breakpoint_line(
            path@,
            *b,
            match number {
                Some(n) => Some(n as nat),
                None => None,
            },
        ),
{
    let mut out = owned("  ");
    match number {
        Some(n) => {
            crate::num::push_u64(&mut out, n);
            append(&mut out, ": ");
        },
        None => {},
    }
    append(&mut out, path);
    append(&mut out, ":");
    push_int(
        &mut out,
        match b.line {
            Some(l) => l,
            None => 0,
        },
    );
    let extras = extras_text(b);
    append(&mut out, extras.as_str());
    append(&mut out, "\n");
    out
}

/// Appends the block of one file, numbering its lines from `first`;
/// returns the next number.
#[verifier::spinoff_prover]
fn push_file_block(out: &mut String, f: &BreakpointFile, numbered: bool, first: u64) -> (next: u64)
    requires
        first + match f.entries {
            Some(e) => e@.len(),
            None => 0,
        } <= u64::MAX,
    ensures
        final(out)@ == old(out)@ + file_block(*f, numbered, first as nat),
        next == first + match f.entries {
            Some(e) => e@.len(),
            None => 0,
        },
{
    let ghost block_start = out@;
    let mut number: u64 = first;
    match &f.entries {
        Some(entries) => {
            if entries.len() > 0 {
                let mut k: usize = 0;
                while k < entries.len()
                    invariant
                        k <= entries.len(),
                        first + entries.len() <= u64::MAX,
                        number == first + k,
                        out@ == block_start + breakpoint_lines(
                            f.path@,
                            entries@.take(k as int),
                            numbered,
                            first as nat,
                        ),
                    decreases entries.len() - k,
                {
                    assert(entries@.take((k + 1) as int).drop_last() =~= entries@.take(k as int));
                    let line = breakpoint_text(
                        f.path.as_str(),
                        &entries[k],
                        if numbered {
                            Some(number)
                        } else {
                            None
                        },
                    );
                    append(out, line.as_str());
                    number = number + 1;
                    k = k + 1;
                }
                assert(entries@.take(entries.len() as int) =~= entries@);
            } else {
                append(out, "  ");
                append(out, f.path.as_str());
                append(out, ": (none)\n");
            }
        },
        None => {
            append(out, "  ");
            append(out, f.path.as_str());
            append(out, ": (none)\n");
        },
    }
    number
}

/// Renders breakpoints per file, gdb-style, without colours; numbered from
/// 1 across files when `numbered`. `None` stands for an answer that is not
/// a map of files.
#[verifier::spinoff_prover]
pub fn format_breakpoints_table(files: Option<&Vec<BreakpointFile>>, numbered: bool) -> (r: String)
    requires
        files matches Some(fs) ==> breakpoint_count(fs@) < u64::MAX,
    ensures
        r@ == "Breakpoints:\n"@ + match files {
            Some(fs) => if fs@.len() > 0 {
                file_blocks(fs@, numbered)
            } else {
                "  (none)\n"@
            },
            None => "  (none)\n"@,
        },
{
    let mut out = owned("Breakpoints:\n");
    match files {
        None => {
            append(&mut out, "  (none)\n");
        },
        Some(fs) => {
            if fs.len() == 0 {
                append(&mut out, "  (none)\n");
                return out;
            }
            let ghost head = out@;
            let mut number: u64 = 1;
            let mut i: usize = 0;
            while i < fs.len()
                invariant
                    i <= fs.len(),
                    breakpoint_count(fs@) < u64::MAX,
                    number == breakpoint_count(fs@.take(i as int)) + 1,
                    out@ == head + file_blocks(fs@.take(i as int), numbered),
                decreases fs.len() - i,
            {
                proof {
                    lemma_count_prefix(fs@, i as int);
                }
                assert(fs@.take((i + 1) as int).drop_last() =~= fs@.take(i as int));
                number = push_file_block(&mut out, &fs[i], numbered, number);
                i = i + 1;
            }
            assert(fs@.take(fs.len() as int) =~= fs@);
        },
    }
    out
}

proof fn lemma_count_prefix(s: Seq<BreakpointFile>, i: int)
    requires
        0 <= i < s.len(),
    ensures
        breakpoint_count(s.take(i + 1)) == breakpoint_count(s.take(i)) + match s[i].entries {
            Some(e) => e@.len(),
            None => 0,
        },
        breakpoint_count(s.take(i + 1)) <= breakpoint_count(s),
    decreases s.len() - i,
{
    assert(s.take(i + 1).drop_last() =~= s.take(i));
    if i + 1 < s.len() {
        lemma_count_prefix(s, i + 1);
    } else {
        assert(s.take(i + 1) =~= s);
    }
}

/// Renders tracked source breakpoints, unnumbered and without colours.
pub fn format_breakpoints(files: Option<&Vec<BreakpointFile>>) -> (r: String)
    requires
        files matches Some(fs) ==> breakpoint_count(fs@) < u64::MAX,
    ensures
        r@ == "Breakpoints:\n"@ + match files {
            Some(fs) => if fs@.len() > 0 {
                file_blocks(fs@, false)
            } else {
                "  (none)\n"@
            },
            None => "  (none)\n"@,
        },
{
    format_breakpoints_table(files, false)
}

// ---------------------------------------------------------------------------
// Execution status
// ---------------------------------------------------------------------------
/// What is remembered about the execution of a session.
#[derive(Debug, Clone, PartialEq, Eq)]
pub struct ExecutionStateSummary {
    /// The status as it is named (`Running`, `Stopped`, …).
    pub status: String,
    pub stop_reason: Option<String>,
    pub thread_id: Option<i64>,
    pub description: Option<String>,
}

/// An execution summary with the version it was recorded at.
#[derive(Debug, Clone, PartialEq, Eq)]
pub struct VersionedExecutionState {
    pub version: u64,
    pub state: ExecutionStateSummary,
}

/// The status block: the status, then the stop reason, thread and
/// description, each on its own line when known.
pub open spec fn status_text(s: ExecutionStateSummary) -> Seq<char> {
    "Status: "@ + s.status@ + "\n"@ + match s.stop_reason {
        Some(r) => "Stop reason: "@ + r@ + "\n"@,
        None => Seq::empty(),
    } + match s.thread_id {
        Some(t) => "Thread: "@ + int_str(t as int) + "\n"@,
        None => Seq::empty(),
    } + match s.description {
        Some(d) => "Description: "@ + d@ + "\n"@,
        None => Seq::empty(),
    }
}

/// Renders the execution status summary.
pub fn format_status(summary: &VersionedExecutionState) -> (r: String)
    ensures
        r@ == status_text(summary.state),
{
    let state = &summary.state;
    let mut out = owned("Status: ");
    append(&mut out, state.status.as_str());
    append(&mut out, "\n");
    match &state.stop_reason {
        Some(reason) => {
            append(&mut out, "Stop reason: ");
            append(&mut out, reason.as_str());
            append(&mut out, "\n");
        },
        None => {},
    }
    match state.thread_id {
        Some(tid) => {
            append(&mut out, "Thread: ");
            push_int(&mut out, tid);
            append(&mut out, "\n");
        },
        None => {},
    }
    match &state.description {
        Some(desc) => {
            append(&mut out, "Description: ");
            append(&mut out, desc.as_str());
            append(&mut out, "\n");
        },
        None => {},
    }
    out
}

} // verus!

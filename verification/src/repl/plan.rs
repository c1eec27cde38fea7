//! What the interactive debugger asks of the session for a parsed command,
//! where the command does not say it outright.
use vstd::prelude::*;
use crate::repl::actions::{BreakpointAction, ExceptionBreakpointAction, FunctionBreakpointAction};
use crate::repl::breakpoint::{BreakpointOptions, BreakpointRequest};
use crate::render::{FrameSummary, ScopeSummary};
use crate::text::{ascii_lower, chars_of, eq_lit, lower_chars, owned};

verus! {

/// The action of `catch`: clearing one filter removes it, clearing without
/// a filter clears all, otherwise the filter is added.
pub fn catch_action(clear: bool, has_filter: bool) -> (r: ExceptionBreakpointAction)
    ensures
        r == if clear {
            if has_filter {
                ExceptionBreakpointAction::Remove
            } else {
                ExceptionBreakpointAction::Clear
            }
        } else {
            ExceptionBreakpointAction::Add
        },
{
    if clear {
        if has_filter {
            ExceptionBreakpointAction::Remove
        } else {
            ExceptionBreakpointAction::Clear
        }
    } else {
        ExceptionBreakpointAction::Add
    }
}

/// The function a `break function` command names: none for `clear` or an
/// empty name.
pub fn function_breakpoint_target(name: String, action: FunctionBreakpointAction) -> (r: Option<String>)
    ensures
        r == if action == FunctionBreakpointAction::Clear || name@.len() == 0 {
            None
        } else {
            Some(name)
        },
{
    let clearing = match action {
        FunctionBreakpointAction::Clear => true,
        _ => false,
    };
    if clearing || name.as_str().is_empty() {
        None
    } else {
        Some(name)
    }
}

/// `smart-step` without an argument turns it on.
pub fn smart_step_setting(enable: Option<bool>) -> (r: bool)
    ensures
        r == match enable {
            Some(b) => b,
            None => true,
        },
{
    match enable {
        Some(b) => b,
        None => true,
    }
}

/// The request a `break` command makes.
pub fn break_request(path: String, line: i64, options: BreakpointOptions) -> (r: BreakpointRequest)
    ensures
        r == (BreakpointRequest { path, line, action: BreakpointAction::Add, options }),
{
    BreakpointRequest { path, line, action: BreakpointAction::Add, options }
}

/// The request a `trace` command makes: a breakpoint that only logs.
pub fn trace_request(path: String, line: i64, message: String) -> (r: BreakpointRequest)
    ensures
        r.path == path,
        r.line == line,
        r.action == BreakpointAction::Add,
        r.options.condition is None,
        r.options.hit_condition is None,
        r.options.log_message == Some(message),
{
    BreakpointRequest {
        path,
        line,
        action: BreakpointAction::Add,
        options: BreakpointOptions { condition: None, hit_condition: None, log_message: Some(message) },
    }
}

/// Whether a scope is named `locals`, ignoring ASCII case.
pub open spec fn is_locals(s: ScopeSummary) -> bool {
    s.name matches Some(n) && ascii_lower(n@) == "locals"@
}

/// The scope whose variables are the locals: the first one named
/// `locals`, else the first one.
pub open spec fn locals_scope_index(scopes: Seq<ScopeSummary>) -> Option<int> {
    if exists|i: int| 0 <= i < scopes.len() && is_locals(scopes[i]) {
        Some(choose|i: int| 0 <= i < scopes.len() && is_locals(scopes[i]) && forall|j: int| 0 <= j < i ==> !is_locals(scopes[j]))
    } else if scopes.len() > 0 {
        Some(0)
    } else {
        None
    }
}

/// The variables reference of the locals scope of a `scopes` answer.
pub fn locals_reference(scopes: Option<&Vec<ScopeSummary>>) -> (r: Result<i64, String>)
    ensures
        match r {
            Ok(v) => scopes matches Some(ss) && locals_scope_index(ss@) matches Some(i)
                && ss@[i].variables_reference == Some(v),
            Err(e) => e@ == "no scope with variables found"@ && match scopes {
                Some(ss) => match locals_scope_index(ss@) {
                    Some(i) => ss@[i].variables_reference is None,
                    None => true,
                },
                None => true,
            },
        },
{
    let ss = match scopes {
        Some(ss) => ss,
        None => return Err(owned("no scope with variables found")),
    };
    let mut i: usize = 0;
    let mut found: Option<usize> = None;
    while i < ss.len()
        invariant_except_break
            found is None,
        invariant
            i <= ss.len(),
            forall|j: int| 0 <= j < i ==> !is_locals(#[trigger] ss@[j]),
        ensures
            match found {
                Some(k) => k < ss.len() && is_locals(ss@[k as int]) && forall|j: int|
                    0 <= j < k ==> !is_locals(#[trigger] ss@[j]),
                None => forall|j: int| 0 <= j < ss.len() ==> !is_locals(#[trigger] ss@[j]),
            },
        decreases ss.len() - i,
    {
        let hit = match &ss[i].name {
            Some(n) => eq_lit(&lower_chars(&chars_of(n.as_str())), "locals"),
            None => false,
        };
        if hit {
            found = Some(i);
            break;
        }
        i = i + 1;
    }
    let index = match found {
        Some(k) => {
            proof {
                let w = choose|w: int| 0 <= w < ss@.len() && is_locals(ss@[w]) && forall|j: int|
                    0 <= j < w ==> !is_locals(ss@[j]);
                assert(w == k as int) by {
                    if w < k as int {
                        assert(!is_locals(ss@[w]));
                    } else if w > k as int {
                        assert(!is_locals(ss@[k as int]));
                    }
                }
            }
            k
        },
        None => {
            if ss.len() == 0 {
                return Err(owned("no scope with variables found"));
            }
            0
        },
    };
    match ss[index].variables_reference {
        Some(v) => Ok(v),
        None => Err(owned("no scope with variables found")),
    }
}

/// Deepest stack fetched per thread for a thread snapshot.
pub const MAX_THREAD_SNAPSHOT_STACK_DEPTH: i64 = 512;

/// Most threads shown in a thread snapshot.
pub const MAX_THREAD_SNAPSHOT_THREADS: usize = 500;

/// Stack depth of a thread snapshot when none is asked for.
pub const DEFAULT_THREAD_SNAPSHOT_STACK_DEPTH: i64 = 10;

/// Thread count of a thread snapshot when none is asked for.
pub const DEFAULT_THREAD_SNAPSHOT_MAX_THREADS: i64 = 50;

/// The stack depth and thread count a thread snapshot uses: the asked (or
/// default) depth clamped to `1..=512`, and the asked (or default) count,
/// at least 1, converted to `usize` and capped at 500.
pub fn thread_snapshot_limits(stack_depth: Option<i64>, max_threads: Option<i64>) -> (r: (i64, usize))
    ensures
        ({
            let d = match stack_depth {
                Some(d) => d,
                None => DEFAULT_THREAD_SNAPSHOT_STACK_DEPTH,
            };
            r.0 == if d < 1 {
                1
            } else if d > MAX_THREAD_SNAPSHOT_STACK_DEPTH {
                MAX_THREAD_SNAPSHOT_STACK_DEPTH
            } else {
                d
            }
        }),
        ({
            let n = match max_threads {
                Some(n) => n,
                None => DEFAULT_THREAD_SNAPSHOT_MAX_THREADS,
            };
            let m = if n < 1 {
                1
            } else {
                n
            };
            r.1 == if (m as usize) < MAX_THREAD_SNAPSHOT_THREADS {
                m as usize
            } else {
                MAX_THREAD_SNAPSHOT_THREADS
            }
        }),
{
    let d = match stack_depth {
        Some(d) => d,
        None => DEFAULT_THREAD_SNAPSHOT_STACK_DEPTH,
    };
    let depth = if d < 1 {
        1
    } else if d > MAX_THREAD_SNAPSHOT_STACK_DEPTH {
        MAX_THREAD_SNAPSHOT_STACK_DEPTH
    } else {
        d
    };
    let n = match max_threads {
        Some(n) => n,
        None => DEFAULT_THREAD_SNAPSHOT_MAX_THREADS,
    };
    let m: i64 = if n < 1 {
        1
    } else {
        n
    };
    let c: usize = m as usize;
    let count = if c < MAX_THREAD_SNAPSHOT_THREADS {
        c
    } else {
        MAX_THREAD_SNAPSHOT_THREADS
    };
    (depth, count)
}

/// The id of the top frame of a stack trace, when it has frames and the top
/// one has an id.
pub fn top_frame_id(frames: Option<&Vec<FrameSummary>>) -> (r: Option<i64>)
    ensures
        r == match frames {
            Some(fs) => if fs@.len() > 0 {
                fs@[0].id
            } else {
                None
            },
            None => None,
        },
{
    match frames {
        Some(fs) => if fs.len() > 0 {
            fs[0].id
        } else {
            None
        },
        None => None,
    }
}

/// The instruction count of a `disassemble` request: the asked count
/// clamped to `1..=256`.
pub fn disassemble_count(count: i64) -> (r: i64)
    ensures
        r == if count < 1 {
            1
        } else if count > 256 {
            256
        } else {
            count
        },
{
    if count < 1 {
        1
    } else if count > 256 {
        256
    } else {
        count
    }
}

/// The index of the first frame with id `frame_id`.
pub open spec fn frame_index(frames: Seq<FrameSummary>, frame_id: i64) -> Option<int>
    decreases frames.len(),
{
    if frames.len() == 0 {
        None
    } else {
        match frame_index(frames.drop_last(), frame_id) {
            Some(i) => Some(i),
            None => if frames.last().id == Some(frame_id) {
                Some(frames.len() - 1)
            } else {
                None
            },
        }
    }
}

/// Where a frame restart is emulated by a jump: the source path and line
/// of the first frame with id `frame_id` in the stack trace.
pub fn restart_location(frames: Option<&Vec<FrameSummary>>, frame_id: i64) -> (r: Result<
    (String, i64),
    String,
>)
    ensures
        match frames {
            None => r matches Err(e) && e@ == "frame not found in stack trace"@,
            Some(fs) => match frame_index(fs@, frame_id) {
                None => r matches Err(e) && e@ == "frame not found in stack trace"@,
                Some(i) => match (fs@[i].path, fs@[i].line) {
                    (None, _) => r matches Err(e) && e@ == "frame missing source path"@,
                    (Some(_), None) => r matches Err(e) && e@ == "frame missing line"@,
                    (Some(p), Some(l)) => r matches Ok(t) && t.0@ == p@ && t.1 == l,
                },
            },
        },
{
    let fs = match frames {
        Some(fs) => fs,
        None => return Err(owned("frame not found in stack trace")),
    };
    let mut i: usize = 0;
    while i < fs.len()
        invariant
            i <= fs.len(),
            frames == Some(fs),
            frame_index(fs@.take(i as int), frame_id) is None,
        decreases fs.len() - i,
    {
        proof {
            assert(fs@.take((i + 1) as int).drop_last() =~= fs@.take(i as int));
        }
        if fs[i].id == Some(frame_id) {
            proof {
                assert(fs@.take((i + 1) as int).last() == fs@[i as int]);
                assert(frame_index(fs@.take((i + 1) as int), frame_id) == Some(i as int));
                lemma_frame_index_prefix(fs@, frame_id, (i + 1) as int);
            }
            return match (&fs[i].path, fs[i].line) {
                (None, _) => Err(owned("frame missing source path")),
                (Some(_), None) => Err(owned("frame missing line")),
                (Some(p), Some(l)) => Ok((p.clone(), l)),
            };
        }
        i = i + 1;
    }
    proof {
        assert(fs@.take(fs.len() as int) =~= fs@);
    }
    Err(owned("frame not found in stack trace"))
}

/// Once the first `n` frames hold a match, the whole stack has the same
/// first match.
proof fn lemma_frame_index_prefix(frames: Seq<FrameSummary>, frame_id: i64, n: int)
    requires
        0 <= n <= frames.len(),
        frame_index(frames.take(n), frame_id) is Some,
    ensures
        frame_index(frames, frame_id) == frame_index(frames.take(n), frame_id),
    decreases frames.len() - n,
{
    if n < frames.len() {
        assert(frames.take(n + 1).drop_last() =~= frames.take(n));
        lemma_frame_index_prefix(frames, frame_id, n + 1);
    } else {
        assert(frames.take(n) =~= frames);
    }
}

/// How an instruction breakpoint is carried out.
#[derive(Debug, Clone, Copy, PartialEq, Eq)]
pub enum InstructionBreakpointPlan {
    /// The adapter sets it (or, when disabling, clears all).
    Native,
    /// Neither instruction breakpoints nor disassembly are supported.
    Unsupported,
    /// Drop the source breakpoint that stood in for it, if any.
    RemoveEmulated,
    /// Disassemble the instruction and break at its source line instead.
    AddEmulated,
}

/// The way to set or clear an instruction breakpoint, from what the adapter
/// supports.
pub fn instruction_breakpoint_plan(
    supports_instruction_breakpoints: bool,
    supports_disassemble: bool,
    enabled: bool,
) -> (r: InstructionBreakpointPlan)
    ensures
        r == if supports_instruction_breakpoints {
            InstructionBreakpointPlan::Native
        } else if !supports_disassemble {
            InstructionBreakpointPlan::Unsupported
        } else if !enabled {
            InstructionBreakpointPlan::RemoveEmulated
        } else {
            InstructionBreakpointPlan::AddEmulated
        },
{
    if supports_instruction_breakpoints {
        InstructionBreakpointPlan::Native
    } else if !supports_disassemble {
        InstructionBreakpointPlan::Unsupported
    } else if !enabled {
        InstructionBreakpointPlan::RemoveEmulated
    } else {
        InstructionBreakpointPlan::AddEmulated
    }
}

/// The request that changes a variable's value.
#[derive(Debug, Clone, Copy, PartialEq, Eq)]
pub enum SetVariableMethod {
    SetVariable,
    /// Emulated with `setExpression` on the current frame.
    SetExpression,
}

/// How to change a variable: `setVariable` when the adapter has it, else
/// `setExpression`; an error when it has neither.
pub fn set_variable_method(supports_set_variable: bool, supports_set_expression: bool) -> (r: Result<
    SetVariableMethod,
    String,
>)
    ensures
        supports_set_variable ==> r == Ok::<SetVariableMethod, String>(SetVariableMethod::SetVariable),
        !supports_set_variable && supports_set_expression ==> r == Ok::<SetVariableMethod, String>(
            SetVariableMethod::SetExpression,
        ),
        !supports_set_variable && !supports_set_expression ==> (r matches Err(e) && e@
            == "adapter does not support setVariable or setExpression"@),
{
    if supports_set_variable {
        Ok(SetVariableMethod::SetVariable)
    } else if supports_set_expression {
        Ok(SetVariableMethod::SetExpression)
    } else {
        Err(owned("adapter does not support setVariable or setExpression"))
    }
}

} // verus!

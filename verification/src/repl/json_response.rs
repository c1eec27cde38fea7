//! Answers of the NDJSON protocol: one JSON object per line, with the
//! request's id, whether it succeeded, and its result or error.
use vstd::prelude::*;
use crate::json_text::{json_string, json_string_text};
use crate::repl::json_plan::JsonOp;
use crate::text::{append, owned};

verus! {

/// An answer to an NDJSON request. `id` and `result` are JSON text.
#[derive(Debug, Clone, PartialEq, Eq)]
pub struct JsonResponse {
    pub id: Option<String>,
    pub ok: bool,
    pub result: Option<String>,
    pub error: Option<String>,
}

/// The line an answer is written as: its fields in order, each left out
/// when absent, with no white space.
pub open spec fn response_line(r: JsonResponse) -> Seq<char> {
    "{"@ + match r.id {
        Some(id) => "\"id\":"@ + id@ + ","@,
        None => Seq::empty(),
    } + "\"ok\":"@ + (if r.ok {
        "true"@
    } else {
        "false"@
    }) + match r.result {
        Some(v) => ",\"result\":"@ + v@,
        None => Seq::empty(),
    } + match r.error {
        Some(e) => ",\"error\":"@ + json_string_text(e@),
        None => Seq::empty(),
    } + "}"@
}

impl JsonResponse {
    /// A successful answer carrying `result`.
    pub fn success(id: Option<String>, result: String) -> (r: Self)
        ensures
            r.id == id,
            r.ok,
            r.result == Some(result),
            r.error is None,
    {
        JsonResponse { id, ok: true, result: Some(result), error: None }
    }

    /// A failed answer carrying the message `error`.
    pub fn failure(id: Option<String>, error: &str) -> (r: Self)
        ensures
            r.id == id,
            !r.ok,
            r.result is None,
            r.error matches Some(e) && e@ == error@,
    {
        JsonResponse { id, ok: false, result: None, error: Some(owned(error)) }
    }

    /// The answer as one line of JSON.
    pub fn to_line(&self) -> (line: String)
        ensures
            line@ == response_line(*self),
    {
        let mut out = owned("{");
        match &self.id {
            Some(id) => {
                append(&mut out, "\"id\":");
                append(&mut out, id.as_str());
                append(&mut out, ",");
            },
            None => {},
        }
        append(&mut out, "\"ok\":");
        if self.ok {
            append(&mut out, "true");
        } else {
            append(&mut out, "false");
        }
        match &self.result {
            Some(v) => {
                append(&mut out, ",\"result\":");
                append(&mut out, v.as_str());
            },
            None => {},
        }
        match &self.error {
            Some(e) => {
                append(&mut out, ",\"error\":");
                let quoted = json_string(e.as_str());
                append(&mut out, quoted.as_str());
            },
            None => {},
        }
        append(&mut out, "}");
        out
    }
}

/// The result of `help`: every operation with example arguments, and how
/// the protocol is framed (JSON text, object keys in order).
pub const HELP_RESULT: &'static str = "{\"ops\":[{\"op\":\"continue\"},{\"op\":\"step_over\"},{\"op\":\"step_in\"},{\"op\":\"step_out\"},{\"condition\":\"x > 5\",\"hit_condition\":\"3\",\"line\":10,\"log_message\":\"here\",\"op\":\"breakpoint\",\"path\":\"main.rs\"},{\"line\":10,\"log_message\":\"value={x}\",\"op\":\"trace\",\"path\":\"main.rs\"},{\"line\":10,\"op\":\"clear\",\"path\":\"main.rs\"},{\"op\":\"skip_list\"},{\"op\":\"skip_add\",\"pattern\":\"/vendor/\"},{\"op\":\"skip_clear\"},{\"op\":\"sync\"},{\"op\":\"show\"},{\"context_lines\":3,\"op\":\"show\"},{\"op\":\"capabilities\"},{\"op\":\"config\"},{\"count\":16,\"memory_reference\":\"0x1000\",\"op\":\"read_memory\"},{\"data\":\"48656C6C6F\",\"memory_reference\":\"0x1000\",\"op\":\"write_memory\"},{\"include_stacks\":true,\"op\":\"thread_snapshot\",\"stack_depth\":5},{\"op\":\"thread\",\"thread_id\":1},{\"frame_id\":1,\"op\":\"frame\"},{\"op\":\"threads\"},{\"op\":\"stack\"},{\"op\":\"status\"},{\"op\":\"scopes\"},{\"op\":\"locals\"},{\"op\":\"variables\",\"variables_reference\":1},{\"expression\":\"x + 1\",\"op\":\"evaluate\"},{\"name\":\"x\",\"op\":\"set_variable\",\"value\":\"1\"},{\"op\":\"breakpoints\"},{\"action\":\"add\",\"filter\":\"uncaught\",\"op\":\"catch\"},{\"op\":\"exception_filters\"},{\"expression\":\"x\",\"op\":\"watch_add\"},{\"op\":\"watch_list\"},{\"expression\":\"x\",\"op\":\"watch_remove\"},{\"op\":\"smart_step\",\"value\":\"true\"},{\"op\":\"suppress_entry_stop\",\"value\":\"true\"},{\"action\":\"add\",\"name\":\"accumulate\",\"op\":\"function_breakpoint\"},{\"line\":50,\"op\":\"goto\",\"path\":\"main.py\"},{\"line\":50,\"op\":\"goto_targets\",\"path\":\"main.py\"},{\"expression\":\"acc\",\"op\":\"completions\"},{\"expression\":\"x\",\"op\":\"data_watch_add\"},{\"op\":\"data_watch_list\"},{\"frame_id\":1,\"op\":\"restart_frame\"},{\"count\":4,\"memory_reference\":\"0x1000\",\"offset\":0,\"op\":\"disassemble\"},{\"memory_reference\":\"0x1000\",\"offset\":0,\"op\":\"instruction_breakpoint\",\"value\":\"true\"},{\"arguments\":{},\"command\":\"threads\",\"op\":\"dap\"},{\"op\":\"context\"},{\"op\":\"quit\"}],\"protocol\":\"one JSON object per line on stdin; one JSON response per line on stdout\"}";

/// The result of `quit`, `exit` and `stop`.
pub const DISCONNECTED_RESULT: &'static str = "{\"disconnected\":true}";

/// The result an operation gets without the debug session: the help for
/// `help`, the disconnect notice for `quit`; other operations need the
/// session.
pub open spec fn local_result_spec(op: JsonOp) -> Option<Seq<char>> {
    match op {
        JsonOp::Help => Some(HELP_RESULT@),
        JsonOp::Disconnect => Some(DISCONNECTED_RESULT@),
        _ => None,
    }
}

/// The answer to a request whose operation needs no debug session: a
/// success with the request's id and the operation's result.
pub fn local_answer(id: Option<String>, op: &JsonOp) -> (r: Option<JsonResponse>)
    ensures
        match local_result_spec(*op) {
            Some(v) => r matches Some(a) && (a.id == id && a.ok && a.error is None && (a.result matches Some(
                t) && t@ == v)),
            None => r is None,
        },
{
    match op {
        JsonOp::Help => Some(JsonResponse::success(id, owned(HELP_RESULT))),
        JsonOp::Disconnect => Some(JsonResponse::success(id, owned(DISCONNECTED_RESULT))),
        _ => None,
    }
}

} // verus!

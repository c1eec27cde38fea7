//! Bounds on `variables` answers handed to agents: at most so many
//! variables, and values cut to at most so many bytes.
use vstd::prelude::*;
use vstd::utf8::{decode_utf8, encode_utf8, encode_utf8_decode_utf8, is_char_boundary};
use crate::render::str_len;
use crate::text::{owned, push_char};

verus! {

/// Variables kept by default.
pub const DEFAULT_MAX_VARIABLES: usize = 200;

/// Bytes of a value kept by default.
pub const DEFAULT_MAX_VALUE_CHARS: usize = 4096;

/// An entry of a `variables` answer: its `value` when that is a string.
#[derive(Debug, Clone, PartialEq, Eq)]
pub struct VariableEntry {
    pub value: Option<String>,
}

/// An entry after bounding: its value, and whether the value was cut (the
/// entry then gets `"truncated": true`).
#[derive(Debug, Clone, PartialEq, Eq)]
pub struct BoundedEntry {
    pub value: Option<String>,
    pub truncated: bool,
}

/// The fields that bounding reads from a `variables` answer.
#[derive(Debug, Clone, PartialEq, Eq)]
pub struct VariablesBody {
    /// Whether the answer is a JSON object (only then is it rewritten).
    pub is_object: bool,
    /// Its `variables` when that is an array.
    pub variables: Option<Vec<VariableEntry>>,
}

/// What bounding writes into the answer: the kept variables, how many there
/// were, and whether some were dropped.
#[derive(Debug, Clone, PartialEq, Eq)]
pub struct BoundedVariables {
    pub variables: Vec<BoundedEntry>,
    pub variable_count: usize,
    pub truncated: bool,
}

/// The characters whose UTF-8 encoding is the first `n` bytes of that of `s`.
pub open spec fn byte_prefix(s: Seq<char>, n: nat) -> Seq<char> {
    decode_utf8(encode_utf8(s).take(n as int))
}

/// A value longer than `max` bytes can be cut there: byte `max` starts a
/// character.
pub open spec fn cut_ok(s: Seq<char>, max: nat) -> bool {
    str_len(s) > max ==> is_char_boundary(encode_utf8(s), max as int)
}

/// A value cut to its first `max` bytes followed by `…`, or the value itself
/// when it is not longer.
pub open spec fn bounded_value(s: Seq<char>, max: nat) -> (Seq<char>, bool) {
    if str_len(s) > max {
        (byte_prefix(s, max) + seq!['…'], true)
    } else {
        (s, false)
    }
}

/// The entry after bounding its value to `max` bytes.
pub open spec fn bounded_entry_spec(e: VariableEntry, max: nat, b: BoundedEntry) -> bool {
    match e.value {
        Some(v) => b.value matches Some(w) && w@ == bounded_value(v@, max).0 && b.truncated
            == bounded_value(v@, max).1,
        None => b.value is None && !b.truncated,
    }
}

/// Every value that is kept can be cut where it must be.
pub open spec fn cuts_ok(vars: Seq<VariableEntry>, max_variables: nat, max_value_chars: nat) -> bool {
    forall|i: int|
        0 <= i < vars.len() && i < max_variables ==> match #[trigger] vars[i].value {
            Some(v) => cut_ok(v@, max_value_chars),
            None => true,
        }
}

/// The variables of an answer (none when it has no `variables` array).
pub open spec fn body_variables(body: VariablesBody) -> Seq<VariableEntry> {
    match body.variables {
        Some(vs) => vs@,
        None => Seq::empty(),
    }
}

/// `b` is `vars` bounded to `max_variables` variables and `max_value_chars`
/// bytes per value.
pub open spec fn bounded_spec(
    vars: Seq<VariableEntry>,
    max_variables: nat,
    max_value_chars: nat,
    b: BoundedVariables,
) -> bool {
    let kept = if vars.len() < max_variables {
        vars.len()
    } else {
        max_variables
    };
    &&& b.variable_count == vars.len()
    &&& b.truncated == (vars.len() > max_variables)
    &&& b.variables@.len() == kept
    &&& forall|i: int|
        0 <= i < kept ==> bounded_entry_spec(vars[i], max_value_chars, #[trigger] b.variables@[i])
}

fn bound_entry(e: &VariableEntry, max: usize) -> (r: BoundedEntry)
    requires
        e.value matches Some(v) ==> cut_ok(v@, max as nat),
    ensures
        bounded_entry_spec(*e, max as nat, r),
{
    match &e.value {
        Some(v) => {
            let s: &str = v.as_str();
            if s.len() > max {
                let (head, _) = s.split_at(max);
                proof {
                    encode_utf8_decode_utf8(head@);
                    assert(encode_utf8(head@) =~= encode_utf8(v@).take(max as int));
                }
                let mut out = owned(head);
                push_char(&mut out, '…');
                assert(head@ == byte_prefix(v@, max as nat));
                assert(out@ =~= byte_prefix(v@, max as nat) + seq!['…']);
                BoundedEntry { value: Some(out), truncated: true }
            } else {
                BoundedEntry { value: Some(v.clone()), truncated: false }
            }
        },
        None => BoundedEntry { value: None, truncated: false },
    }
}

/// Bounds a `variables` answer for agents: keeps the first `max_variables`
/// variables, cuts each kept string value longer than `max_value_chars`
/// bytes to that many bytes followed by `…` and marks the entry truncated,
/// and records the number of variables and whether some were dropped. An
/// answer that is not an object is left as it is (`None`). A value is cut
/// only where a character starts (`requires`).
pub fn truncate_variables_response(
    body: &VariablesBody,
    max_variables: usize,
    max_value_chars: usize,
) -> (r: Option<BoundedVariables>)
    requires
        body.variables matches Some(vs) ==> cuts_ok(vs@, max_variables as nat, max_value_chars as nat),
    ensures
        !body.is_object ==> r is None,
        body.is_object ==> (r matches Some(b) && bounded_spec(
            body_variables(*body),
            max_variables as nat,
            max_value_chars as nat,
            b,
        )),
{
    if !body.is_object {
        return None;
    }
    let mut out: Vec<BoundedEntry> = Vec::new();
    let mut total: usize = 0;
    match &body.variables {
        Some(vs) => {
            total = vs.len();
            let kept: usize = if vs.len() < max_variables {
                vs.len()
            } else {
                max_variables
            };
            let mut i: usize = 0;
            while i < kept
                invariant
                    kept <= vs.len(),
                    kept <= max_variables,
                    i <= kept,
                    cuts_ok(vs@, max_variables as nat, max_value_chars as nat),
                    out@.len() == i,
                    forall|j: int|
                        0 <= j < i ==> bounded_entry_spec(
                            vs@[j],
                            max_value_chars as nat,
                            #[trigger] out@[j],
                        ),
                decreases kept - i,
            {
                assert(match vs@[i as int].value {
                    Some(v) => cut_ok(v@, max_value_chars as nat),
                    None => true,
                });
                let e = bound_entry(&vs[i], max_value_chars);
                out.push(e);
                i = i + 1;
            }
        },
        None => {},
    }
    Some(BoundedVariables { variables: out, variable_count: total, truncated: total > max_variables })
}

} // verus!

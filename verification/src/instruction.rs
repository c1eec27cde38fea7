//! Emulated instruction breakpoints.
use vstd::prelude::*;
use crate::num::{int_str, push_int};
use crate::text::{append, owned};

verus! {

/// Stable key for tracking an emulated instruction breakpoint:
/// `memory_reference:offset`.
pub fn instruction_breakpoint_key(memory_reference: &str, offset: i64) -> (r: String)
    ensures
        r@ == memory_reference@ + ":"@ + int_str(offset as int),
{
    let mut r = owned(memory_reference);
    append(&mut r, ":");
    push_int(&mut r, offset);
    r
}

/// The fields of a disassembled instruction that locate it in source.
#[derive(Debug, Clone, PartialEq, Eq)]
pub struct InstructionSummary {
    pub line: Option<i64>,
    pub path: Option<String>,
}

/// The source location of the first instruction of a `disassemble`
/// answer, used to emulate an instruction breakpoint: its path and line,
/// when it has both and the path is not empty.
pub fn resolve_instruction_location(first: Option<&InstructionSummary>) -> (r: Option<(String, i64)>)
    ensures
        match first {
            Some(i) => match (i.line, i.path) {
                (Some(l), Some(p)) => if p@.len() > 0 {
                    r matches Some(x) && x.0@ == p@ && x.1 == l
                } else {
                    r is None
                },
                _ => r is None,
            },
            None => r is None,
        },
{
    match first {
        Some(i) => match (i.line, &i.path) {
            (Some(l), Some(p)) => {
                if p.as_str().is_empty() {
                    None
                } else {
                    Some((p.clone(), l))
                }
            },
            _ => None,
        },
        None => None,
    }
}

} // verus!

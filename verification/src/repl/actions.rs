//! Breakpoint actions and their textual names, and the parsers of the
//! `action`/`value` fields of NDJSON requests.
use vstd::prelude::*;
use crate::text::{ascii_lower, chars_of, concat_lit_range, eq_lit, lower_chars, owned};

verus! {

/// What to do with a source breakpoint.
#[derive(Debug, Clone, Copy, PartialEq, Eq)]
pub enum BreakpointAction {
    Add,
    Remove,
    Toggle,
}

/// What to do with a function breakpoint.
#[derive(Debug, Clone, Copy, PartialEq, Eq)]
pub enum FunctionBreakpointAction {
    Add,
    Remove,
    Clear,
}

/// What to do with an exception breakpoint.
#[derive(Debug, Clone, Copy, PartialEq, Eq)]
pub enum ExceptionBreakpointAction {
    Add,
    Remove,
    Clear,
}

pub open spec fn breakpoint_action_name_spec(action: BreakpointAction) -> Seq<char> {
    match action {
        BreakpointAction::Add => "add"@,
        BreakpointAction::Remove => "remove"@,
        BreakpointAction::Toggle => "toggle"@,
    }
}

pub open spec fn function_breakpoint_action_name_spec(action: FunctionBreakpointAction) -> Seq<
    char,
> {
    match action {
        FunctionBreakpointAction::Add => "add"@,
        FunctionBreakpointAction::Remove => "remove"@,
        FunctionBreakpointAction::Clear => "clear"@,
    }
}

pub open spec fn exception_breakpoint_action_name_spec(action: ExceptionBreakpointAction) -> Seq<
    char,
> {
    match action {
        ExceptionBreakpointAction::Add => "add"@,
        ExceptionBreakpointAction::Remove => "remove"@,
        ExceptionBreakpointAction::Clear => "clear"@,
    }
}

/// The name reported for a breakpoint action.
pub fn breakpoint_action_name(action: BreakpointAction) -> (s: &'static str)
    ensures
        s@ == breakpoint_action_name_spec(action),
{
    match action {
        BreakpointAction::Add => "add",
        BreakpointAction::Remove => "remove",
        BreakpointAction::Toggle => "toggle",
    }
}

/// The name reported for a function breakpoint action.
pub fn function_breakpoint_action_name(action: FunctionBreakpointAction) -> (s: &'static str)
    ensures
        s@ == function_breakpoint_action_name_spec(action),
{
    match action {
        FunctionBreakpointAction::Add => "add",
        FunctionBreakpointAction::Remove => "remove",
        FunctionBreakpointAction::Clear => "clear",
    }
}

/// The name reported for an exception breakpoint action.
pub fn exception_breakpoint_action_name(action: ExceptionBreakpointAction) -> (s: &'static str)
    ensures
        s@ == exception_breakpoint_action_name_spec(action),
{
    match action {
        ExceptionBreakpointAction::Add => "add",
        ExceptionBreakpointAction::Remove => "remove",
        ExceptionBreakpointAction::Clear => "clear",
    }
}

/// `action` parsed as a source breakpoint action, case-insensitively;
/// absent means `Add`, and `clear` means `Remove`.
pub open spec fn parse_breakpoint_action_spec(action: Option<Seq<char>>) -> Result<
    BreakpointAction,
    Seq<char>,
> {
    match action {
        None => Ok(BreakpointAction::Add),
        Some(a) => {
            let l = ascii_lower(a);
            if l == "add"@ || l == "set"@ {
                Ok(BreakpointAction::Add)
            } else if l == "remove"@ || l == "delete"@ {
                Ok(BreakpointAction::Remove)
            } else if l == "toggle"@ {
                Ok(BreakpointAction::Toggle)
            } else if l == "clear"@ {
                Ok(BreakpointAction::Remove)
            } else {
                Err("unknown breakpoint action: "@ + l)
            }
        },
    }
}

/// `action` parsed as a function breakpoint action, case-insensitively; absent means `Add`.
pub open spec fn parse_function_breakpoint_action_spec(action: Option<Seq<char>>) -> Result<
    FunctionBreakpointAction,
    Seq<char>,
> {
    match action {
        None => Ok(FunctionBreakpointAction::Add),
        Some(a) => {
            let l = ascii_lower(a);
            if l == "add"@ || l == "set"@ {
                Ok(FunctionBreakpointAction::Add)
            } else if l == "remove"@ || l == "delete"@ {
                Ok(FunctionBreakpointAction::Remove)
            } else if l == "clear"@ {
                Ok(FunctionBreakpointAction::Clear)
            } else {
                Err("unknown function breakpoint action: "@ + l)
            }
        },
    }
}

/// `action` parsed as an exception breakpoint action, case-insensitively;
/// absent means `Add`, and `catch` is a synonym of `add`.
pub open spec fn parse_exception_breakpoint_action_spec(action: Option<Seq<char>>) -> Result<
    ExceptionBreakpointAction,
    Seq<char>,
> {
    match action {
        None => Ok(ExceptionBreakpointAction::Add),
        Some(a) => {
            let l = ascii_lower(a);
            if l == "add"@ || l == "set"@ || l == "catch"@ {
                Ok(ExceptionBreakpointAction::Add)
            } else if l == "remove"@ || l == "delete"@ {
                Ok(ExceptionBreakpointAction::Remove)
            } else if l == "clear"@ {
                Ok(ExceptionBreakpointAction::Clear)
            } else {
                Err("unknown exception breakpoint action: "@ + l)
            }
        },
    }
}

/// A boolean flag value, case-insensitively.
pub open spec fn parse_bool_spec(value: Seq<char>) -> Result<bool, Seq<char>> {
    let l = ascii_lower(value);
    if l == "1"@ || l == "true"@ || l == "yes"@ || l == "on"@ {
        Ok(true)
    } else if l == "0"@ || l == "false"@ || l == "no"@ || l == "off"@ {
        Ok(false)
    } else {
        Err("expected boolean value, got '"@ + l + "'"@)
    }
}

pub open spec fn str_result_view<T>(r: Result<T, String>) -> Result<T, Seq<char>> {
    match r {
        Ok(x) => Ok(x),
        Err(e) => Err(e@),
    }
}

pub open spec fn opt_str_view(o: Option<&str>) -> Option<Seq<char>> {
    match o {
        Some(s) => Some(s@),
        None => None,
    }
}

/// Parses the `action` field of a breakpoint request.
pub fn parse_breakpoint_action(action: Option<&str>) -> (r: Result<BreakpointAction, String>)
    ensures
        str_result_view(r) == parse_breakpoint_action_spec(opt_str_view(action)),
{
    match action {
        None => Ok(BreakpointAction::Add),
        Some(a) => {
            let l = lower_chars(&chars_of(a));
            if eq_lit(&l, "add") || eq_lit(&l, "set") {
                Ok(BreakpointAction::Add)
            } else if eq_lit(&l, "remove") || eq_lit(&l, "delete") {
                Ok(BreakpointAction::Remove)
            } else if eq_lit(&l, "toggle") {
                Ok(BreakpointAction::Toggle)
            } else if eq_lit(&l, "clear") {
                Ok(BreakpointAction::Remove)
            } else {
                let e = concat_lit_range("unknown breakpoint action: ", &l, 0, l.len());
                assert(l@.subrange(0, l.len() as int) =~= l@);
                Err(e)
            }
        },
    }
}

/// Parses the `action` field of a function breakpoint request.
pub fn parse_function_breakpoint_action(action: Option<&str>) -> (r: Result<
    FunctionBreakpointAction,
    String,
>)
    ensures
        str_result_view(r) == parse_function_breakpoint_action_spec(opt_str_view(action)),
{
    match action {
        None => Ok(FunctionBreakpointAction::Add),
        Some(a) => {
            let l = lower_chars(&chars_of(a));
            if eq_lit(&l, "add") || eq_lit(&l, "set") {
                Ok(FunctionBreakpointAction::Add)
            } else if eq_lit(&l, "remove") || eq_lit(&l, "delete") {
                Ok(FunctionBreakpointAction::Remove)
            } else if eq_lit(&l, "clear") {
                Ok(FunctionBreakpointAction::Clear)
            } else {
                let e = concat_lit_range("unknown function breakpoint action: ", &l, 0, l.len());
                assert(l@.subrange(0, l.len() as int) =~= l@);
                Err(e)
            }
        },
    }
}

/// Parses the `action` field of an exception breakpoint request.
pub fn parse_exception_breakpoint_action(action: Option<&str>) -> (r: Result<
    ExceptionBreakpointAction,
    String,
>)
    ensures
        str_result_view(r) == parse_exception_breakpoint_action_spec(opt_str_view(action)),
{
    match action {
        None => Ok(ExceptionBreakpointAction::Add),
        Some(a) => {
            let l = lower_chars(&chars_of(a));
            if eq_lit(&l, "add") || eq_lit(&l, "set") || eq_lit(&l, "catch") {
                Ok(ExceptionBreakpointAction::Add)
            } else if eq_lit(&l, "remove") || eq_lit(&l, "delete") {
                Ok(ExceptionBreakpointAction::Remove)
            } else if eq_lit(&l, "clear") {
                Ok(ExceptionBreakpointAction::Clear)
            } else {
                let e = concat_lit_range("unknown exception breakpoint action: ", &l, 0, l.len());
                assert(l@.subrange(0, l.len() as int) =~= l@);
                Err(e)
            }
        },
    }
}

/// Parses a boolean flag (`1/true/yes/on`, `0/false/no/off`).
pub fn parse_bool(value: &str) -> (r: Result<bool, String>)
    ensures
        str_result_view(r) == parse_bool_spec(value@),
{
    let l = lower_chars(&chars_of(value));
    if eq_lit(&l, "1") || eq_lit(&l, "true") || eq_lit(&l, "yes") || eq_lit(&l, "on") {
        Ok(true)
    } else if eq_lit(&l, "0") || eq_lit(&l, "false") || eq_lit(&l, "no") || eq_lit(&l, "off") {
        Ok(false)
    } else {
        let mut e = concat_lit_range("expected boolean value, got '", &l, 0, l.len());
        e.append("'");
        assert(l@.subrange(0, l.len() as int) =~= l@);
        Err(e)
    }
}

/// Source paths skipped by default when stopping (runtime and dependency code).
pub open spec fn default_skip_paths_spec() -> Seq<Seq<char>> {
    seq!["/rustc/"@, "/target/deps/"@, "site-packages"@]
}

pub fn default_skip_paths() -> (r: Vec<String>)
    ensures
        r.deep_view() == default_skip_paths_spec(),
{
    let mut r: Vec<String> = Vec::new();
    r.push(owned("/rustc/"));
    r.push(owned("/target/deps/"));
    r.push(owned("site-packages"));
    assert(r.deep_view() =~= default_skip_paths_spec());
    r
}

/// Parsing the name of a source breakpoint action gives the action back.
pub proof fn lemma_breakpoint_action_round_trip(a: BreakpointAction)
    ensures
        parse_breakpoint_action_spec(Some(breakpoint_action_name_spec(a)))
            == Ok::<BreakpointAction, Seq<char>>(a),
{
    reveal_strlit("add");
    reveal_strlit("set");
    reveal_strlit("remove");
    reveal_strlit("delete");
    reveal_strlit("toggle");
    let n = breakpoint_action_name_spec(a);
    assert(ascii_lower(n) =~= n);
    match a {
        BreakpointAction::Add => {},
        BreakpointAction::Remove => {
            assert("remove"@.len() == 6 && "add"@.len() == 3 && "set"@.len() == 3);
        },
        BreakpointAction::Toggle => {
            assert("toggle"@[0] != "remove"@[0] && "toggle"@[0] != "delete"@[0]);
        },
    }
}

/// Parsing the name of a function breakpoint action gives the action back.
pub proof fn lemma_function_breakpoint_action_round_trip(a: FunctionBreakpointAction)
    ensures
        parse_function_breakpoint_action_spec(Some(function_breakpoint_action_name_spec(a)))
            == Ok::<FunctionBreakpointAction, Seq<char>>(a),
{
    reveal_strlit("add");
    reveal_strlit("set");
    reveal_strlit("remove");
    reveal_strlit("delete");
    reveal_strlit("clear");
    let n = function_breakpoint_action_name_spec(a);
    assert(ascii_lower(n) =~= n);
    assert("clear"@.len() == 5 && "add"@.len() == 3 && "remove"@.len() == 6);
}

/// Parsing the name of an exception breakpoint action gives the action back.
pub proof fn lemma_exception_breakpoint_action_round_trip(a: ExceptionBreakpointAction)
    ensures
        parse_exception_breakpoint_action_spec(Some(exception_breakpoint_action_name_spec(a)))
            == Ok::<ExceptionBreakpointAction, Seq<char>>(a),
{
    reveal_strlit("add");
    reveal_strlit("set");
    reveal_strlit("catch");
    reveal_strlit("remove");
    reveal_strlit("delete");
    reveal_strlit("clear");
    let n = exception_breakpoint_action_name_spec(a);
    assert(ascii_lower(n) =~= n);
    assert("clear"@[0] != "catch"@[1]);
    assert("clear"@[1] != "catch"@[1]);
    assert("clear"@.len() == 5 && "add"@.len() == 3 && "remove"@.len() == 6 && "catch"@.len() == 5);
}

} // verus!

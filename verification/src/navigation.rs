//! Navigation commands of the control plane (continue, step, pause, …),
//! their DAP request names and their textual forms.
use vstd::prelude::*;
use crate::num::{int_str, push_int};
use crate::text::{ascii_lower, chars_of, eq_lit, lower_char_exec, owned, push_range};

verus! {

/// Debugger navigation commands exposed by the control plane.
#[derive(Debug, Clone, Copy, PartialEq, Eq)]
pub enum NavigationType {
    Continue,
    StepOver,
    StepIn,
    StepOut,
    Pause,
    StepBack,
    ReverseContinue,
}

/// Result of a navigation command.
#[derive(Debug, Clone)]
pub struct NavigateResult {
    pub navigation_type: NavigationType,
    pub success: bool,
    pub stop_reason: Option<String>,
    pub thread_id: Option<i64>,
}

pub open spec fn dap_command_spec(t: NavigationType) -> Seq<char> {
    match t {
        NavigationType::Continue => "continue"@,
        NavigationType::StepOver => "next"@,
        NavigationType::StepIn => "stepIn"@,
        NavigationType::StepOut => "stepOut"@,
        NavigationType::Pause => "pause"@,
        NavigationType::StepBack => "stepBack"@,
        NavigationType::ReverseContinue => "reverseContinue"@,
    }
}

pub open spec fn name_spec(t: NavigationType) -> Seq<char> {
    match t {
        NavigationType::Continue => "continue"@,
        NavigationType::StepOver => "step_over"@,
        NavigationType::StepIn => "step_in"@,
        NavigationType::StepOut => "step_out"@,
        NavigationType::Pause => "pause"@,
        NavigationType::StepBack => "step_back"@,
        NavigationType::ReverseContinue => "reverse_continue"@,
    }
}

/// `s.replace('-', "_")`.
pub open spec fn dash_to_underscore(s: Seq<char>) -> Seq<char> {
    s.map_values(|c: char| if c == '-' { '_' } else { c })
}

/// The key a navigation name is looked up by: dashes become underscores,
/// ASCII letters become lower case.
pub open spec fn navigation_key(s: Seq<char>) -> Seq<char> {
    ascii_lower(dash_to_underscore(s))
}

/// The answer of `parse_navigation_type`.
pub open spec fn parse_navigation_spec(s: Seq<char>) -> Result<NavigationType, Seq<char>> {
    let k = navigation_key(s);
    if k == "continue"@ {
        Ok(NavigationType::Continue)
    } else if k == "next"@ || k == "step_over"@ || k == "stepover"@ {
        Ok(NavigationType::StepOver)
    } else if k == "step_in"@ || k == "stepin"@ {
        Ok(NavigationType::StepIn)
    } else if k == "step_out"@ || k == "stepout"@ {
        Ok(NavigationType::StepOut)
    } else if k == "pause"@ {
        Ok(NavigationType::Pause)
    } else if k == "step_back"@ || k == "stepback"@ {
        Ok(NavigationType::StepBack)
    } else if k == "reverse_continue"@ || k == "reversecontinue"@ {
        Ok(NavigationType::ReverseContinue)
    } else {
        Err("unknown navigation type: "@ + k)
    }
}

impl NavigationType {
    /// The DAP request that performs this navigation.
    pub fn dap_command(self) -> (r: &'static str)
        ensures
            r@ == dap_command_spec(self),
    {
        match self {
            NavigationType::Continue => "continue",
            NavigationType::StepOver => "next",
            NavigationType::StepIn => "stepIn",
            NavigationType::StepOut => "stepOut",
            NavigationType::Pause => "pause",
            NavigationType::StepBack => "stepBack",
            NavigationType::ReverseContinue => "reverseContinue",
        }
    }

    /// Whether the command runs until the next `stopped` event.
    pub fn waits_for_stop(self) -> (r: bool)
        ensures
            r == (self == NavigationType::Continue || self == NavigationType::Pause || self
                == NavigationType::ReverseContinue),
    {
        match self {
            NavigationType::Continue | NavigationType::Pause | NavigationType::ReverseContinue => true,
            _ => false,
        }
    }

    /// The JSON arguments of the request for `thread_id`: every navigation
    /// names just the thread.
    pub fn arguments(self, thread_id: i64) -> (r: String)
        ensures
            r@ == "{\"threadId\":"@ + int_str(thread_id as int) + "}"@,
    {
        let mut out = owned("{\"threadId\":");
        push_int(&mut out, thread_id);
        crate::text::append(&mut out, "}");
        out
    }

    /// The snake-case name shown to users (`step_over`, …).
    pub fn name(self) -> (r: &'static str)
        ensures
            r@ == name_spec(self),
    {
        match self {
            NavigationType::Continue => "continue",
            NavigationType::StepOver => "step_over",
            NavigationType::StepIn => "step_in",
            NavigationType::StepOut => "step_out",
            NavigationType::Pause => "pause",
            NavigationType::StepBack => "step_back",
            NavigationType::ReverseContinue => "reverse_continue",
        }
    }
}

/// Parses a navigation name; dashes and underscores are interchangeable and
/// case is ignored. Accepts the snake-case names, their forms without
/// underscores, and `next`.
pub fn parse_navigation_type(s: &str) -> (r: Result<NavigationType, String>)
    ensures
        match r {
            Ok(t) => parse_navigation_spec(s@) == Ok::<NavigationType, Seq<char>>(t),
            Err(e) => parse_navigation_spec(s@) == Err::<NavigationType, Seq<char>>(e@),
        },
{
    let v = chars_of(s);
    let mut k: Vec<char> = Vec::new();
    let mut i: usize = 0;
    while i < v.len()
        invariant
            i <= v.len(),
            k@ == navigation_key(v@.take(i as int)),
        decreases v.len() - i,
    {
        let c = v[i];
        let d = if c == '-' {
            '_'
        } else {
            c
        };
        let l = lower_char_exec(d);
        k.push(l);
        assert(navigation_key(v@.take((i + 1) as int)) =~= navigation_key(v@.take(i as int)).push(
            l,
        ));
        i = i + 1;
    }
    assert(v@.take(v.len() as int) =~= v@);
    if eq_lit(&k, "continue") {
        Ok(NavigationType::Continue)
    } else if eq_lit(&k, "next") || eq_lit(&k, "step_over") || eq_lit(&k, "stepover") {
        Ok(NavigationType::StepOver)
    } else if eq_lit(&k, "step_in") || eq_lit(&k, "stepin") {
        Ok(NavigationType::StepIn)
    } else if eq_lit(&k, "step_out") || eq_lit(&k, "stepout") {
        Ok(NavigationType::StepOut)
    } else if eq_lit(&k, "pause") {
        Ok(NavigationType::Pause)
    } else if eq_lit(&k, "step_back") || eq_lit(&k, "stepback") {
        Ok(NavigationType::StepBack)
    } else if eq_lit(&k, "reverse_continue") || eq_lit(&k, "reversecontinue") {
        Ok(NavigationType::ReverseContinue)
    } else {
        let mut e = owned("unknown navigation type: ");
        push_range(&mut e, &k, 0, k.len());
        assert(k@.subrange(0, k.len() as int) =~= k@);
        Err(e)
    }
}

/// Parsing the user-facing name of a navigation gives it back.
pub proof fn lemma_name_round_trip(t: NavigationType)
    ensures
        parse_navigation_spec(name_spec(t)) == Ok::<NavigationType, Seq<char>>(t),
{
    reveal_strlit("continue");
    reveal_strlit("next");
    reveal_strlit("step_over");
    reveal_strlit("stepover");
    reveal_strlit("step_in");
    reveal_strlit("stepin");
    reveal_strlit("step_out");
    reveal_strlit("stepout");
    reveal_strlit("pause");
    reveal_strlit("step_back");
    reveal_strlit("stepback");
    reveal_strlit("reverse_continue");
    reveal_strlit("reversecontinue");
    reveal_strlit("stepIn");
    reveal_strlit("stepOut");
    reveal_strlit("stepBack");
    reveal_strlit("reverseContinue");
    match t {
        NavigationType::Continue => {
            assert(navigation_key("continue"@) =~= "continue"@);
        },
        NavigationType::StepOver => {
            assert(navigation_key("step_over"@) =~= "step_over"@);
            assert("step_over"@ != "continue"@);
            assert("step_over"@ != "next"@);
        },
        NavigationType::StepIn => {
            assert(navigation_key("step_in"@) =~= "step_in"@);
            assert("step_in"@ != "continue"@);
            assert("step_in"@ != "next"@);
            assert("step_in"@ != "step_over"@);
            assert("step_in"@ != "stepover"@);
        },
        NavigationType::StepOut => {
            assert(navigation_key("step_out"@) =~= "step_out"@);
            assert("step_out"@[0] != "continue"@[0]);
            assert("step_out"@ != "continue"@);
            assert("step_out"@ != "next"@);
            assert("step_out"@ != "step_over"@);
            assert("step_out"@[4] != "stepover"@[4]);
            assert("step_out"@ != "stepover"@);
            assert("step_out"@ != "step_in"@);
            assert("step_out"@ != "stepin"@);
        },
        NavigationType::Pause => {
            assert(navigation_key("pause"@) =~= "pause"@);
            assert("pause"@ != "continue"@);
            assert("pause"@ != "next"@);
            assert("pause"@ != "step_over"@);
            assert("pause"@ != "stepover"@);
            assert("pause"@ != "step_in"@);
            assert("pause"@ != "stepin"@);
            assert("pause"@ != "step_out"@);
            assert("pause"@ != "stepout"@);
        },
        NavigationType::StepBack => {
            assert(navigation_key("step_back"@) =~= "step_back"@);
            assert("step_back"@ != "continue"@);
            assert("step_back"@ != "next"@);
            assert("step_back"@[5] != "step_over"@[5]);
            assert("step_back"@ != "step_over"@);
            assert("step_back"@ != "stepover"@);
            assert("step_back"@ != "step_in"@);
            assert("step_back"@ != "stepin"@);
            assert("step_back"@ != "step_out"@);
            assert("step_back"@ != "stepout"@);
            assert("step_back"@ != "pause"@);
        },
        NavigationType::ReverseContinue => {
            assert(navigation_key("reverse_continue"@) =~= "reverse_continue"@);
            assert("reverse_continue"@ != "continue"@);
            assert("reverse_continue"@ != "next"@);
            assert("reverse_continue"@ != "step_over"@);
            assert("reverse_continue"@ != "stepover"@);
            assert("reverse_continue"@ != "step_in"@);
            assert("reverse_continue"@ != "stepin"@);
            assert("reverse_continue"@ != "step_out"@);
            assert("reverse_continue"@ != "stepout"@);
            assert("reverse_continue"@ != "pause"@);
            assert("reverse_continue"@ != "step_back"@);
            assert("reverse_continue"@ != "stepback"@);
        },
    }
}

/// Parsing the DAP request name of a navigation gives it back.
pub proof fn lemma_dap_command_round_trip(t: NavigationType)
    ensures
        parse_navigation_spec(dap_command_spec(t)) == Ok::<NavigationType, Seq<char>>(t),
{
    reveal_strlit("continue");
    reveal_strlit("next");
    reveal_strlit("step_over");
    reveal_strlit("stepover");
    reveal_strlit("step_in");
    reveal_strlit("stepin");
    reveal_strlit("step_out");
    reveal_strlit("stepout");
    reveal_strlit("pause");
    reveal_strlit("step_back");
    reveal_strlit("stepback");
    reveal_strlit("reverse_continue");
    reveal_strlit("reversecontinue");
    reveal_strlit("stepIn");
    reveal_strlit("stepOut");
    reveal_strlit("stepBack");
    reveal_strlit("reverseContinue");
    match t {
        NavigationType::Continue => {
            assert(navigation_key("continue"@) =~= "continue"@);
        },
        NavigationType::StepOver => {
            assert(navigation_key("next"@) =~= "next"@);
            assert("next"@ != "continue"@);
        },
        NavigationType::StepIn => {
            assert(navigation_key("stepIn"@) =~= "stepin"@);
            assert("stepin"@ != "continue"@);
            assert("stepin"@ != "next"@);
            assert("stepin"@ != "step_over"@);
            assert("stepin"@ != "stepover"@);
            assert("stepin"@ != "step_in"@);
        },
        NavigationType::StepOut => {
            assert(navigation_key("stepOut"@) =~= "stepout"@);
            assert("stepout"@ != "continue"@);
            assert("stepout"@ != "next"@);
            assert("stepout"@ != "step_over"@);
            assert("stepout"@ != "stepover"@);
            assert("stepout"@[4] != "step_in"@[4]);
            assert("stepout"@ != "step_in"@);
            assert("stepout"@ != "stepin"@);
            assert("stepout"@ != "step_out"@);
        },
        NavigationType::Pause => {
            assert(navigation_key("pause"@) =~= "pause"@);
            assert("pause"@ != "continue"@);
            assert("pause"@ != "next"@);
            assert("pause"@ != "step_over"@);
            assert("pause"@ != "stepover"@);
            assert("pause"@ != "step_in"@);
            assert("pause"@ != "stepin"@);
            assert("pause"@ != "step_out"@);
            assert("pause"@ != "stepout"@);
        },
        NavigationType::StepBack => {
            assert(navigation_key("stepBack"@) =~= "stepback"@);
            assert("stepback"@[0] != "continue"@[0]);
            assert("stepback"@ != "continue"@);
            assert("stepback"@ != "next"@);
            assert("stepback"@ != "step_over"@);
            assert("stepback"@[4] != "stepover"@[4]);
            assert("stepback"@ != "stepover"@);
            assert("stepback"@ != "step_in"@);
            assert("stepback"@ != "stepin"@);
            assert("stepback"@[4] != "step_out"@[4]);
            assert("stepback"@ != "step_out"@);
            assert("stepback"@ != "stepout"@);
            assert("stepback"@ != "pause"@);
            assert("stepback"@ != "step_back"@);
        },
        NavigationType::ReverseContinue => {
            assert(navigation_key("reverseContinue"@) =~= "reversecontinue"@);
            assert("reversecontinue"@ != "continue"@);
            assert("reversecontinue"@ != "next"@);
            assert("reversecontinue"@ != "step_over"@);
            assert("reversecontinue"@ != "stepover"@);
            assert("reversecontinue"@ != "step_in"@);
            assert("reversecontinue"@ != "stepin"@);
            assert("reversecontinue"@ != "step_out"@);
            assert("reversecontinue"@ != "stepout"@);
            assert("reversecontinue"@ != "pause"@);
            assert("reversecontinue"@ != "step_back"@);
            assert("reversecontinue"@ != "stepback"@);
            assert("reversecontinue"@ != "reverse_continue"@);
        },
    }
}

impl std::str::FromStr for NavigationType {
    type Err = String;

    fn from_str(s: &str) -> (r: Result<NavigationType, String>)
        ensures
            match r {
                Ok(t) => parse_navigation_spec(s@) == Ok::<NavigationType, Seq<char>>(t),
                Err(e) => parse_navigation_spec(s@) == Err::<NavigationType, Seq<char>>(e@),
            },
    {
        parse_navigation_type(s)
    }
}

} // verus!

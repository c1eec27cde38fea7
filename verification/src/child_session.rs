//! Child debug sessions started by `startDebugging` reverse requests: the
//! configuration, the declarative profiles, and the built-in presets.
use vstd::prelude::*;
use crate::text::{append, eq_lit, chars_of, owned};

verus! {

/// Message given when the lldb-dap profile meets a stdio parent backend.
pub const LLDB_DAP_STDIO_UNSUPPORTED_MESSAGE: &'static str = "startDebugging unsupported for lldb-dap profile with stdio parent backend; lldb-dap session handoff requires a reusable tcp server endpoint";

/// Default limit on live child sessions.
pub fn default_max_children() -> (r: u32)
    ensures
        r == 16,
{
    16
}

/// Default limit on child-session nesting.
pub fn default_max_depth() -> (r: u32)
    ensures
        r == 1,
{
    1
}

/// How the parent session reaches its adapter.
#[derive(Debug, Clone, Copy, PartialEq, Eq)]
pub enum ParentBackendKind {
    Stdio,
    Tcp,
}

/// When a rule applies: the reverse request's `request` field, paths that
/// must exist in it, and the parent backends it is for (empty: any).
#[derive(Debug, Clone, PartialEq, Eq)]
pub struct RuleCondition {
    pub request: Option<String>,
    pub exists: Vec<String>,
    pub parent_backend: Vec<ParentBackendKind>,
}

/// A port given as a number or as a `${…}` template.
#[derive(Debug, Clone, PartialEq, Eq)]
pub enum PortTemplate {
    Number(u16),
    Template(String),
}

/// The backend a child session connects to.
#[derive(Debug, Clone, PartialEq, Eq)]
pub enum ChildBackendTemplate {
    Stdio { cmd: String, args: Vec<String> },
    Tcp { host: String, port: PortTemplate },
    ParentBackend,
    InheritParentStdio,
}

/// The value of the `arguments` of a child's debug request: a `${…}`
/// template string, or a JSON document kept as its text.
#[derive(Debug, Clone, PartialEq, Eq)]
pub enum ArgumentsTemplate {
    Text(String),
    Json(String),
}

/// The debug request a child session is started with.
#[derive(Debug, Clone, PartialEq, Eq)]
pub struct DebugRequestTemplate {
    pub request: String,
    pub arguments: ArgumentsTemplate,
}

/// One rule of a profile.
#[derive(Debug, Clone, PartialEq, Eq)]
pub struct ChildSessionRule {
    pub when: RuleCondition,
    pub child_backend: ChildBackendTemplate,
    pub debug_request: DebugRequestTemplate,
}

/// Declarative profile mapping reverse requests to child backends.
#[derive(Debug, Clone, PartialEq, Eq)]
pub struct ChildSessionProfile {
    pub rules: Vec<ChildSessionRule>,
    pub unsupported_message: Option<String>,
}

/// Whether and how a proxy spawns child sessions.
#[derive(Debug, Clone, PartialEq, Eq)]
pub struct ChildSessionConfig {
    pub auto_spawn: bool,
    pub max_children: u32,
    pub max_depth: u32,
    pub profile: ChildSessionProfile,
}

impl Default for ChildSessionProfile {
    fn default() -> (r: Self)
        ensures
            r.rules@.len() == 0,
            r.unsupported_message is None,
    {
        ChildSessionProfile { rules: Vec::new(), unsupported_message: None }
    }
}

impl Default for ChildSessionConfig {
    fn default() -> (r: Self)
        ensures
            !r.auto_spawn,
            r.max_children == 16,
            r.max_depth == 1,
            r.profile.rules@.len() == 0,
            r.profile.unsupported_message is None,
    {
        ChildSessionConfig {
            auto_spawn: false,
            max_children: default_max_children(),
            max_depth: default_max_depth(),
            profile: ChildSessionProfile::default(),
        }
    }
}

/// The debug request every preset starts children with.
fn forwarded_request() -> (r: DebugRequestTemplate)
    ensures
        r.request@ == "${request}"@,
        r.arguments matches ArgumentsTemplate::Text(t) && t@ == "${configuration}"@,
{
    DebugRequestTemplate {
        request: owned("${request}"),
        arguments: ArgumentsTemplate::Text(owned("${configuration}")),
    }
}

/// The names of the built-in presets.
pub open spec fn is_preset_name(name: Seq<char>) -> bool {
    name == "fake"@ || name == "debugpy"@ || name == "lldb-dap"@
}

/// Which rule a preset has, described by its condition and backend.
pub open spec fn preset_shape(name: Seq<char>, p: ChildSessionProfile) -> bool {
    &&& p.rules@.len() == 1
    &&& p.rules@[0].debug_request.request@ == "${request}"@
    &&& if name == "fake"@ {
        &&& p.rules@[0].when.request matches Some(r) && r@ == "launch"@
        &&& p.rules@[0].when.exists@.len() == 0
        &&& p.rules@[0].when.parent_backend@.len() == 0
        &&& p.rules@[0].child_backend == ChildBackendTemplate::InheritParentStdio
        &&& p.unsupported_message is None
    } else if name == "debugpy"@ {
        &&& p.rules@[0].when.request matches Some(r) && r@ == "attach"@
        &&& p.rules@[0].when.exists@.len() == 2
        &&& p.rules@[0].when.parent_backend@.len() == 0
        &&& p.rules@[0].child_backend is Tcp
        &&& p.unsupported_message is None
    } else {
        &&& p.rules@[0].when.request is None
        &&& p.rules@[0].when.parent_backend@ == seq![ParentBackendKind::Tcp]
        &&& p.rules@[0].child_backend == ChildBackendTemplate::ParentBackend
        &&& p.unsupported_message matches Some(m) && m@ == LLDB_DAP_STDIO_UNSUPPORTED_MESSAGE@
    }
}

impl ChildSessionProfile {
    /// Fake adapter: inherit the parent's stdio adapter on `launch`.
    pub fn fake_preset() -> (r: Self)
        ensures
            preset_shape("fake"@, r),
    {
        let when = RuleCondition { request: Some(owned("launch")), exists: Vec::new(), parent_backend: Vec::new() };
        let mut rules: Vec<ChildSessionRule> = Vec::new();
        rules.push(ChildSessionRule {
            when,
            child_backend: ChildBackendTemplate::InheritParentStdio,
            debug_request: forwarded_request(),
        });
        ChildSessionProfile { rules, unsupported_message: None }
    }

    /// debugpy subprocess connect-back: attach via TCP to
    /// `configuration.connect`.
    pub fn debugpy_preset() -> (r: Self)
        ensures
            preset_shape("debugpy"@, r),
    {
        let mut exists: Vec<String> = Vec::new();
        exists.push(owned("configuration.connect.host"));
        exists.push(owned("configuration.connect.port"));
        let when = RuleCondition { request: Some(owned("attach")), exists, parent_backend: Vec::new() };
        let mut rules: Vec<ChildSessionRule> = Vec::new();
        rules.push(ChildSessionRule {
            when,
            child_backend: ChildBackendTemplate::Tcp {
                host: owned("${configuration.connect.host}"),
                port: PortTemplate::Template(owned("${configuration.connect.port}")),
            },
            debug_request: forwarded_request(),
        });
        proof {
            reveal_strlit("fake");
            reveal_strlit("debugpy");
            reveal_strlit("lldb-dap");
            assert("fake"@.len() == 4 && "debugpy"@.len() == 7 && "lldb-dap"@.len() == 8);
        }
        ChildSessionProfile { rules, unsupported_message: None }
    }

    /// lldb-dap handoff: reuse the parent's TCP endpoint; a stdio parent has
    /// no matching rule.
    pub fn lldb_dap_preset() -> (r: Self)
        ensures
            preset_shape("lldb-dap"@, r),
    {
        let mut backends: Vec<ParentBackendKind> = Vec::new();
        backends.push(ParentBackendKind::Tcp);
        let when = RuleCondition { request: None, exists: Vec::new(), parent_backend: backends };
        let mut rules: Vec<ChildSessionRule> = Vec::new();
        rules.push(ChildSessionRule {
            when,
            child_backend: ChildBackendTemplate::ParentBackend,
            debug_request: forwarded_request(),
        });
        proof {
            reveal_strlit("fake");
            reveal_strlit("debugpy");
            reveal_strlit("lldb-dap");
            assert("fake"@.len() == 4 && "debugpy"@.len() == 7 && "lldb-dap"@.len() == 8);
        }
        ChildSessionProfile { rules, unsupported_message: Some(owned(LLDB_DAP_STDIO_UNSUPPORTED_MESSAGE)) }
    }

    /// The preset of that name: `fake`, `debugpy` or `lldb-dap`.
    pub fn from_preset(name: &str) -> (r: Option<Self>)
        ensures
            match r {
                Some(p) => is_preset_name(name@) && preset_shape(name@, p),
                None => !is_preset_name(name@),
            },
    {
        let v = chars_of(name);
        if eq_lit(&v, "fake") {
            Some(ChildSessionProfile::fake_preset())
        } else if eq_lit(&v, "debugpy") {
            Some(ChildSessionProfile::debugpy_preset())
        } else if eq_lit(&v, "lldb-dap") {
            Some(ChildSessionProfile::lldb_dap_preset())
        } else {
            None
        }
    }
}

/// The error for a profile given as an unknown preset name.
pub open spec fn unknown_preset_message(name: Seq<char>) -> Seq<char> {
    "unknown child-session profile preset '"@ + name
        + "'; expected \"fake\", \"debugpy\", \"lldb-dap\", or an explicit rules object"@
}

/// A profile given by preset name, as in a configuration file.
pub fn profile_from_name(name: &str) -> (r: Result<ChildSessionProfile, String>)
    ensures
        match r {
            Ok(p) => is_preset_name(name@) && preset_shape(name@, p),
            Err(e) => !is_preset_name(name@) && e@ == unknown_preset_message(name@),
        },
{
    match ChildSessionProfile::from_preset(name) {
        Some(p) => Ok(p),
        None => {
            let mut e = owned("unknown child-session profile preset '");
            append(&mut e, name);
            append(
                &mut e,
                "'; expected \"fake\", \"debugpy\", \"lldb-dap\", or an explicit rules object",
            );
            Err(e)
        },
    }
}

} // verus!

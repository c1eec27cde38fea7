//! Inputs available when resolving a route, and its result.
use vstd::prelude::*;
use crate::text::owned;

verus! {

/// Inputs available when resolving a route (protocol-agnostic).
#[derive(Debug, Clone)]
pub struct RouteContext {
    /// Explicit plugin id from user/config (highest priority).
    pub explicit_plugin: Option<String>,
    /// Protocol-specific launch `type` field (e.g. DAP `debugpy`).
    pub launch_type: Option<String>,
    /// Primary target path (source file, binary, workspace root, …).
    pub program_path: Option<String>,
    /// Optional scope for multi-tenant routing.
    pub scope: Option<String>,
}

/// Result of a successful route resolution.
#[derive(Debug, Clone, PartialEq, Eq)]
pub struct RouteMatch {
    pub plugin_id: String,
}

impl RouteContext {
    /// A context with no inputs.
    pub fn new() -> (r: Self)
        ensures
            r.explicit_plugin is None,
            r.launch_type is None,
            r.program_path is None,
            r.scope is None,
    {
        RouteContext { explicit_plugin: None, launch_type: None, program_path: None, scope: None }
    }

    /// The same context with an explicit plugin id.
    pub fn with_explicit_plugin(self, id: &str) -> (r: Self)
        ensures
            r.explicit_plugin matches Some(v) && v@ == id@,
            r.launch_type == self.launch_type,
            r.program_path == self.program_path,
            r.scope == self.scope,
    {
        RouteContext { explicit_plugin: Some(owned(id)), ..self }
    }

    /// The same context with a launch type.
    pub fn with_launch_type(self, t: &str) -> (r: Self)
        ensures
            r.launch_type matches Some(v) && v@ == t@,
            r.explicit_plugin == self.explicit_plugin,
            r.program_path == self.program_path,
            r.scope == self.scope,
    {
        RouteContext { launch_type: Some(owned(t)), ..self }
    }

    /// The same context with a program path.
    pub fn with_program_path(self, path: &str) -> (r: Self)
        ensures
            r.program_path matches Some(v) && v@ == path@,
            r.explicit_plugin == self.explicit_plugin,
            r.launch_type == self.launch_type,
            r.scope == self.scope,
    {
        RouteContext { program_path: Some(owned(path)), ..self }
    }
}

impl Default for RouteContext {
    fn default() -> (r: Self)
        ensures
            r.explicit_plugin is None,
            r.launch_type is None,
            r.program_path is None,
            r.scope is None,
    {
        RouteContext::new()
    }
}

} // verus!

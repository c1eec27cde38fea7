//! Options of the proxy that sits between an editor and a debug adapter,
//! and the routing result it starts a session from.
use vstd::prelude::*;
use crate::plugin::manifest::PluginManifest;

verus! {

/// Options for spawning a stdio debug adapter subprocess.
#[derive(Debug, Clone, Copy)]
pub struct AdapterSpawnOptions {
    /// Start the adapter in a new session so it and its debuggee cannot
    /// steal the terminal's foreground process group.
    pub new_session: bool,
}

impl Default for AdapterSpawnOptions {
    fn default() -> (r: Self)
        ensures
            !r.new_session,
    {
        AdapterSpawnOptions { new_session: false }
    }
}

/// Options for a multiplexed proxy session.
#[derive(Debug, Clone)]
pub struct MultiplexOptions {
    /// TCP port for control-plane attach (`0` = ephemeral); `None` disables
    /// the listener.
    pub control_port: Option<u16>,
    /// Close the editor client when no inbound message arrives within this
    /// window; `None` disables the idle watchdog.
    pub client_idle_timeout: Option<std::time::Duration>,
}

impl Default for MultiplexOptions {
    fn default() -> (r: Self)
        ensures
            r.control_port == Some(0u16),
            r.client_idle_timeout is None,
    {
        MultiplexOptions { control_port: Some(0), client_idle_timeout: None }
    }
}

/// Runtime info returned after a multiplexed session ends.
#[derive(Debug, Clone)]
pub struct MultiplexedSessionInfo {
    pub control_port: Option<u16>,
}

/// Result of routing a launch request to an adapter plugin.
#[derive(Debug, Clone)]
pub struct RouteMatch {
    pub adapter_id: String,
    pub manifest: PluginManifest,
}

/// Routes launch requests through the gateway.
#[derive(Debug, Clone, Copy, Default)]
pub struct Router;

impl Router {
    pub fn new() -> (r: Self)
        ensures
            r == Router,
    {
        Router
    }
}

} // verus!

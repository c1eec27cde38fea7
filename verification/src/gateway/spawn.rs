//! How to reach an upstream server process or socket.
use vstd::prelude::*;

verus! {

/// How to reach an upstream server process or socket.
#[derive(Debug, Clone, PartialEq, Eq)]
pub enum SpawnSpec {
    Stdio { command: String, args: Vec<String> },
    Tcp { host: String, port: u16 },
    Builtin { id: String },
}

/// The kind of a [`SpawnSpec`].
#[derive(Debug, Clone, Copy, PartialEq, Eq)]
pub enum SpawnTransport {
    Stdio,
    Tcp,
    Builtin,
}

pub open spec fn transport_of(spec: SpawnSpec) -> SpawnTransport {
    match spec {
        SpawnSpec::Stdio { .. } => SpawnTransport::Stdio,
        SpawnSpec::Tcp { .. } => SpawnTransport::Tcp,
        SpawnSpec::Builtin { .. } => SpawnTransport::Builtin,
    }
}

impl SpawnSpec {
    /// A process started with `command` and `args`, spoken to over stdio.
    pub fn stdio(command: String, args: Vec<String>) -> (r: Self)
        ensures
            r == (SpawnSpec::Stdio { command, args }),
    {
        SpawnSpec::Stdio { command, args }
    }

    /// The kind of this spec.
    pub fn transport(&self) -> (r: SpawnTransport)
        ensures
            r == transport_of(*self),
    {
        match self {
            SpawnSpec::Stdio { .. } => SpawnTransport::Stdio,
            SpawnSpec::Tcp { .. } => SpawnTransport::Tcp,
            SpawnSpec::Builtin { .. } => SpawnTransport::Builtin,
        }
    }
}

} // verus!

//! Conversions between plugin manifests and gateway spawn specs.
use vstd::prelude::*;
use crate::gateway::route::RouteContext;
use crate::gateway::spawn::SpawnSpec;
use crate::routing::{cargo_binary_spec, looks_like_cargo_binary};
use crate::num::{int_str, parse_unsigned, parse_unsigned_in, push_u64};
use crate::plugin::manifest::{clone_strings, AdapterSpawn, PluginManifest, SpawnTransport};
use crate::text::{append, chars_of, find_char, find_char_in, opt_view, owned, string_of_range};

verus! {

/// A plugin as the gateway registry sees it.
#[derive(Debug, Clone)]
pub struct StaticPlugin {
    pub id: String,
    pub name: String,
    pub launch_types: Vec<String>,
    pub file_extensions: Vec<String>,
    pub spawn: SpawnSpec,
}

/// The host and port of a `host:port` command: split at the first `:`, the
/// port parsed as `u16`; the whole command and port 0 when that fails.
pub open spec fn tcp_endpoint(command: Seq<char>) -> (Seq<char>, nat) {
    match find_char(command, ':') {
        Some(k) => match parse_unsigned(command.skip(k + 1), 10, 0xFFFF) {
            Some(p) => (command.take(k), p),
            None => (command, 0),
        },
        None => (command, 0),
    }
}

/// The gateway spawn spec of an adapter.
pub open spec fn spawn_spec_matches(adapter: AdapterSpawn, r: SpawnSpec) -> bool {
    match adapter.transport {
        SpawnTransport::Stdio => r matches SpawnSpec::Stdio { command, args } && command@
            == adapter.command@ && args@ == adapter.args@,
        SpawnTransport::Tcp => r matches SpawnSpec::Tcp { host, port } && host@ == tcp_endpoint(
            adapter.command@,
        ).0 && port == tcp_endpoint(adapter.command@).1,
    }
}

/// Converts an adapter spawn to a gateway spawn spec.
pub fn adapter_to_spawn_spec(adapter: &AdapterSpawn) -> (r: SpawnSpec)
    ensures
        spawn_spec_matches(*adapter, r),
{
    match adapter.transport {
        SpawnTransport::Stdio => SpawnSpec::stdio(adapter.command.clone(), clone_strings(&adapter.args)),
        SpawnTransport::Tcp => {
            let v = chars_of(adapter.command.as_str());
            assert(v@.subrange(0, v.len() as int) =~= v@);
            match find_char_in(&v, 0, v.len(), ':') {
                Some(k) => {
                    assert(v@.skip(k + 1) =~= v@.subrange(k + 1, v.len() as int));
                    match parse_unsigned_in(&v, k + 1, v.len(), 10, 0xFFFF) {
                        Some(p) => {
                            assert(v@.take(k as int) =~= v@.subrange(0, k as int));
                            SpawnSpec::Tcp { host: string_of_range(&v, 0, k), port: p as u16 }
                        },
                        None => SpawnSpec::Tcp { host: adapter.command.clone(), port: 0 },
                    }
                },
                None => SpawnSpec::Tcp { host: adapter.command.clone(), port: 0 },
            }
        },
    }
}

/// Converts a plugin manifest to the gateway's static plugin.
pub fn manifest_to_static_plugin(manifest: &PluginManifest) -> (r: StaticPlugin)
    ensures
        r.id == manifest.id,
        r.name == manifest.name,
        r.launch_types@ == manifest.launch_types@,
        r.file_extensions@ == manifest.file_extensions@,
        spawn_spec_matches(manifest.adapter, r.spawn),
{
    StaticPlugin {
        id: manifest.id.clone(),
        name: manifest.name.clone(),
        launch_types: clone_strings(&manifest.launch_types),
        file_extensions: clone_strings(&manifest.file_extensions),
        spawn: adapter_to_spawn_spec(&manifest.adapter),
    }
}

/// Converts a gateway spawn spec back to an adapter spawn; a TCP endpoint
/// becomes the command `host:port`.
pub fn spawn_spec_to_adapter(spec: &SpawnSpec) -> (r: AdapterSpawn)
    requires
        !(spec is Builtin),
    ensures
        match *spec {
            SpawnSpec::Stdio { command, args } => r.transport == SpawnTransport::Stdio
                && r.command == command && r.args@ == args@,
            SpawnSpec::Tcp { host, port } => r.transport == SpawnTransport::Tcp && r.command@
                == host@ + ":"@ + int_str(port as int) && r.args@.len() == 0,
            SpawnSpec::Builtin { .. } => false,
        },
{
    match spec {
        SpawnSpec::Stdio { command, args } => AdapterSpawn {
            transport: SpawnTransport::Stdio,
            command: command.clone(),
            args: clone_strings(args),
        },
        SpawnSpec::Tcp { host, port } => {
            let mut c = host.clone();
            append(&mut c, ":");
            push_u64(&mut c, *port as u64);
            AdapterSpawn { transport: SpawnTransport::Tcp, command: c, args: Vec::new() }
        },
        SpawnSpec::Builtin { .. } => {
            assert(false);
            AdapterSpawn { transport: SpawnTransport::Stdio, command: String::new(), args: Vec::new() }
        },
    }
}

/// The parts of a client's launch or attach request that routing reads.
#[derive(Debug, Clone)]
pub struct LaunchOptions {
    pub request: String,
    pub program: Option<String>,
    pub adapter: Option<String>,
    /// The request's `type` field, when it is a string.
    pub launch_type: Option<String>,
}

/// The route inputs of a launch: the explicit adapter, the program, and the
/// launch type given by the request, or `rust` for a Cargo binary when the
/// request names neither an adapter nor a type.
pub open spec fn route_context_spec(launch: LaunchOptions, ctx: RouteContext) -> bool {
    &&& opt_view(ctx.explicit_plugin) == opt_view(launch.adapter)
    &&& opt_view(ctx.program_path) == opt_view(launch.program)
    &&& opt_view(ctx.launch_type) == match launch.launch_type {
        Some(t) => Some(t@),
        None => match launch.program {
            Some(p) => if launch.adapter is None && cargo_binary_spec(p@) {
                Some("rust"@)
            } else {
                None
            },
            None => None,
        },
    }
    &&& ctx.scope is None
}

/// Builds the route inputs of a launch request.
pub fn launch_to_route_context(launch: &LaunchOptions) -> (ctx: RouteContext)
    ensures
        route_context_spec(*launch, ctx),
{
    let mut ctx = RouteContext::new();
    match &launch.adapter {
        Some(adapter) => {
            ctx = ctx.with_explicit_plugin(adapter.as_str());
        },
        None => {},
    }
    match &launch.program {
        Some(program) => {
            ctx = ctx.with_program_path(program.as_str());
            if launch.adapter.is_none() && launch.launch_type.is_none() && looks_like_cargo_binary(
                program.as_str(),
            ) {
                ctx = ctx.with_launch_type("rust");
            }
        },
        None => {},
    }
    match &launch.launch_type {
        Some(t) => {
            ctx = ctx.with_launch_type(t.as_str());
        },
        None => {},
    }
    ctx
}

/// The adapter given on the command line as a command and its arguments,
/// spoken to over stdio.
pub fn explicit_adapter_spawn(cmd: &Vec<String>) -> (r: Result<AdapterSpawn, String>)
    ensures
        match r {
            Ok(a) => cmd@.len() > 0 && a.transport == SpawnTransport::Stdio && a.command == cmd@[0]
                && a.args@ == cmd@.skip(1),
            Err(e) => cmd@.len() == 0 && e@ == "--adapter-cmd requires a command"@,
        },
{
    if cmd.len() == 0 {
        return Err(owned("--adapter-cmd requires a command"));
    }
    let command = cmd[0].clone();
    let mut args: Vec<String> = Vec::new();
    let mut i: usize = 1;
    while i < cmd.len()
        invariant
            1 <= i <= cmd.len(),
            args@ == cmd@.subrange(1, i as int),
        decreases cmd.len() - i,
    {
        args.push(cmd[i].clone());
        assert(args@ =~= cmd@.subrange(1, (i + 1) as int));
        i = i + 1;
    }
    assert(cmd@.subrange(1, cmd.len() as int) =~= cmd@.skip(1));
    Ok(AdapterSpawn { transport: SpawnTransport::Stdio, command, args })
}

/// The default plugin of a gateway registry built from plugins with these
/// ids: the fake adapter when it is among them, else none.
pub fn gateway_default(ids: &Vec<String>) -> (r: Option<String>)
    ensures
        opt_view(r) == if exists|i: int| 0 <= i < ids@.len() && #[trigger] ids@[i]@ == "fake"@ {
            Some("fake"@)
        } else {
            None
        },
{
    let mut i: usize = 0;
    while i < ids.len()
        invariant
            i <= ids.len(),
            forall|j: int| 0 <= j < i ==> #[trigger] ids@[j]@ != "fake"@,
        decreases ids.len() - i,
    {
        if crate::text::str_eq(ids[i].as_str(), "fake") {
            return Some(owned("fake"));
        }
        i = i + 1;
    }
    None
}

} // verus!

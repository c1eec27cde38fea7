//! Headless session initialisation: its configuration and results, and the
//! decisions it takes about the `initialize` and `launch` requests.
use vstd::prelude::*;
use crate::routing::{
    cargo_binary_spec, just_my_code_spec, python_launch_arguments, python_launch_fixed,
    python_paths_spec, wants_python_launch_hints, wants_rust_launch_hints, PythonLaunchArguments,
};
use crate::text::{opt_view, owned};

verus! {

/// Configuration for a headless DAP initialization sequence.
#[derive(Debug, Clone)]
pub struct SessionInitConfig {
    pub program: String,
    pub adapter_id: Option<String>,
    pub client_id: String,
}

/// Known entry location after init.
#[derive(Debug, Clone)]
pub struct SessionEntryLocation {
    pub path: String,
    pub line: i64,
    pub frame_id: Option<i64>,
}

/// Result of a completed headless initialization.
#[derive(Debug, Clone)]
pub struct SessionInitResult {
    pub ready: bool,
    pub stop_reason: Option<String>,
    pub thread_id: Option<i64>,
    pub entry_location: Option<SessionEntryLocation>,
    /// The capabilities object of the adapter's `initialize` response, as
    /// JSON text.
    pub capabilities: String,
}

impl SessionInitConfig {
    /// A configuration for `program`, with no adapter and client id
    /// `dap-core`.
    pub fn new(program: &str) -> (r: Self)
        ensures
            r.program@ == program@,
            r.adapter_id is None,
            r.client_id@ == "dap-core"@,
    {
        SessionInitConfig { program: owned(program), adapter_id: None, client_id: owned("dap-core") }
    }

    /// The same configuration with an explicit adapter id.
    pub fn with_adapter_id(self, adapter_id: &str) -> (r: Self)
        ensures
            opt_view(r.adapter_id) == Some(adapter_id@),
            r.program == self.program,
            r.client_id == self.client_id,
    {
        SessionInitConfig { adapter_id: Some(owned(adapter_id)), ..self }
    }
}

/// The `adapterID` sent in `initialize`.
pub open spec fn initialize_adapter_id_spec(adapter_id: Option<Seq<char>>) -> Seq<char> {
    match adapter_id {
        Some(a) => if a == "python"@ {
            "debugpy"@
        } else {
            a
        },
        None => "dap-proxy"@,
    }
}

/// The `adapterID` sent in `initialize`: `debugpy` for the Python adapter,
/// the adapter id otherwise, `dap-proxy` when none is configured.
pub fn initialize_adapter_id(config: &SessionInitConfig) -> (r: String)
    ensures
        r@ == initialize_adapter_id_spec(opt_view(config.adapter_id)),
{
    match &config.adapter_id {
        Some(a) => {
            if crate::text::str_eq(a.as_str(), "python") {
                owned("debugpy")
            } else {
                a.clone()
            }
        },
        None => owned("dap-proxy"),
    }
}

/// The shape of the `launch` arguments built for a configuration.
#[derive(Debug, Clone, Copy, PartialEq, Eq)]
pub enum LaunchShape {
    /// debugpy's own launch arguments.
    Python,
    /// `{ "program": … }`, with `"sourceLanguages": ["rust"]` when asked.
    Plain { rust_source_language: bool },
}

pub open spec fn adapter_is(config: SessionInitConfig, lit: Seq<char>) -> bool {
    opt_view(config.adapter_id) == Some(lit)
}

/// Which `launch` arguments a configuration gets.
pub open spec fn launch_shape_spec(config: SessionInitConfig) -> LaunchShape {
    if adapter_is(config, "python"@) {
        LaunchShape::Python
    } else {
        LaunchShape::Plain {
            rust_source_language: adapter_is(config, "rust"@) || adapter_is(config, "lldb-dap"@)
                || cargo_binary_spec(config.program@),
        }
    }
}

/// Which `launch` arguments a configuration gets: debugpy's for the Python
/// adapter; otherwise the program, with the Rust source language when the
/// adapter is the Rust one or the program is a Cargo binary.
pub fn launch_shape(config: &SessionInitConfig) -> (r: LaunchShape)
    ensures
        r == launch_shape_spec(*config),
{
    let adapter: Option<&str> = match &config.adapter_id {
        Some(a) => Some(a.as_str()),
        None => None,
    };
    if wants_python_launch_hints(adapter) {
        LaunchShape::Python
    } else {
        LaunchShape::Plain { rust_source_language: wants_rust_launch_hints(adapter, config.program.as_str()) }
    }
}

/// The arguments of the `initialize` request.
#[derive(Debug, Clone, PartialEq, Eq)]
pub struct InitializeArguments {
    pub client_id: String,
    pub adapter_id: String,
    pub lines_start_at1: bool,
    pub columns_start_at1: bool,
    pub path_format: String,
    /// The proxy answers `runInTerminal` on behalf of headless clients.
    pub supports_run_in_terminal_request: bool,
}

/// The `initialize` arguments for a configuration: its client id, the
/// adapter id of `initialize_adapter_id`, one-based lines and columns,
/// `path` as the path format, and support for `runInTerminal`.
pub fn build_initialize_arguments(config: &SessionInitConfig) -> (r: InitializeArguments)
    ensures
        r.client_id@ == config.client_id@,
        r.adapter_id@ == initialize_adapter_id_spec(opt_view(config.adapter_id)),
        r.lines_start_at1,
        r.columns_start_at1,
        r.path_format@ == "path"@,
        r.supports_run_in_terminal_request,
{
    InitializeArguments {
        client_id: config.client_id.clone(),
        adapter_id: initialize_adapter_id(config),
        lines_start_at1: true,
        columns_start_at1: true,
        path_format: owned("path"),
        supports_run_in_terminal_request: true,
    }
}

/// The arguments of the `launch` request.
#[derive(Debug, Clone, PartialEq, Eq)]
pub enum LaunchArguments {
    /// debugpy's own launch arguments.
    Python(PythonLaunchArguments),
    /// `{ "program": … }`, with `"sourceLanguages": ["rust"]` when given.
    Plain { program: String, source_languages: Option<Vec<String>> },
}

/// The `launch` arguments for a configuration, given the `PYTHON` and
/// `DAP_PYTHON_JUST_MY_CODE` settings (read only for the Python adapter):
/// debugpy's for the Python adapter; otherwise the program, with `rust` as
/// source language as `launch_shape` decides.
pub fn build_launch_arguments(
    config: &SessionInitConfig,
    python: Option<&str>,
    just_my_code_setting: Option<&str>,
) -> (r: LaunchArguments)
    ensures
        match launch_shape_spec(*config) {
            LaunchShape::Python => r matches LaunchArguments::Python(a) && {
                &&& python_launch_fixed(a)
                &&& exists|cp: Option<Seq<char>>, cd: Option<Seq<char>>|
                    (a.program@, opt_view(a.cwd)) == #[trigger] python_paths_spec(
                        config.program@,
                        cp,
                        cd,
                    )
                &&& a.just_my_code == just_my_code_spec(
                    match just_my_code_setting {
                        Some(v) => Some(v@),
                        None => None,
                    },
                )
                &&& opt_view(a.python) == match python {
                    Some(p) => Some(p@),
                    None => None,
                }
            },
            LaunchShape::Plain { rust_source_language } => r matches LaunchArguments::Plain {
                program,
                source_languages,
            } && program@ == config.program@ && if rust_source_language {
                source_languages matches Some(l) && l@.len() == 1 && l@[0]@ == "rust"@
            } else {
                source_languages is None
            },
        },
{
    match launch_shape(config) {
        LaunchShape::Python => LaunchArguments::Python(
            python_launch_arguments(config.program.as_str(), python, just_my_code_setting),
        ),
        LaunchShape::Plain { rust_source_language } => {
            let source_languages = if rust_source_language {
                let mut l: Vec<String> = Vec::new();
                l.push(owned("rust"));
                Some(l)
            } else {
                None
            };
            LaunchArguments::Plain { program: config.program.clone(), source_languages }
        },
    }
}

/// A step of the headless initialisation sequence.
#[derive(Debug, Clone, PartialEq, Eq)]
pub enum InitStep {
    /// Send `initialize` with `build_initialize_arguments` and read the
    /// adapter's capabilities from the answer.
    Initialize,
    /// Send the launch or attach request and wait for its answer.
    Request(String),
    /// Send the launch or attach request and wait for the `initialized`
    /// event (debugpy answers the request only after configuration).
    RequestUntilInitialized(String),
    /// Wait for an event.
    WaitEvent(String),
    /// Set a breakpoint at line 1 of the program, to stop at entry.
    EntryBreakpoint(String),
    /// Send `configurationDone`.
    ConfigurationDone,
    /// Wait for the answer to the launch or attach request.
    WaitResponse(String),
}

/// The steps of initialising a session with `request` (`launch` or
/// `attach`): for the Python adapter the request is sent first, an entry
/// breakpoint is set at line 1 of `program_path` before configuration is
/// done, and the request's answer is awaited after; otherwise the request
/// is answered before `initialized` and configuration. Both end waiting
/// for the first `stopped` event.
pub open spec fn init_steps_spec(python: bool, request: Seq<char>, program_path: Seq<char>) -> Seq<
    (nat, Seq<char>),
> {
    if python {
        seq![
            (0nat, Seq::empty()),
            (2nat, request),
            (4nat, program_path),
            (5nat, Seq::empty()),
            (6nat, request),
            (3nat, "stopped"@),
        ]
    } else {
        seq![
            (0nat, Seq::empty()),
            (1nat, request),
            (3nat, "initialized"@),
            (5nat, Seq::empty()),
            (3nat, "stopped"@),
        ]
    }
}

/// A step as (kind, text): the kinds numbered in the order of `InitStep`.
pub open spec fn step_view(s: InitStep) -> (nat, Seq<char>) {
    match s {
        InitStep::Initialize => (0, Seq::empty()),
        InitStep::Request(r) => (1, r@),
        InitStep::RequestUntilInitialized(r) => (2, r@),
        InitStep::WaitEvent(e) => (3, e@),
        InitStep::EntryBreakpoint(p) => (4, p@),
        InitStep::ConfigurationDone => (5, Seq::empty()),
        InitStep::WaitResponse(r) => (6, r@),
    }
}

/// The program path the entry breakpoint is set in: the `program` of the
/// launch arguments when it is a string, else the configured program.
pub open spec fn entry_program(config: SessionInitConfig, launch_program: Option<Seq<char>>) -> Seq<
    char,
> {
    match launch_program {
        Some(p) => p,
        None => config.program@,
    }
}

/// The initialisation steps for `config` and `request`, given the
/// `program` of the request's arguments when it is a string.
pub fn init_steps(config: &SessionInitConfig, request: &str, launch_program: Option<&str>) -> (r: Vec<
    InitStep,
>)
    ensures
        r@.map_values(|s: InitStep| step_view(s)) == init_steps_spec(
            adapter_is(*config, "python"@),
            request@,
            entry_program(
                *config,
                match launch_program {
                    Some(p) => Some(p@),
                    None => None,
                },
            ),
        ),
{
    let adapter: Option<&str> = match &config.adapter_id {
        Some(a) => Some(a.as_str()),
        None => None,
    };
    let mut steps: Vec<InitStep> = Vec::new();
    steps.push(InitStep::Initialize);
    if wants_python_launch_hints(adapter) {
        let program = match launch_program {
            Some(p) => owned(p),
            None => config.program.clone(),
        };
        steps.push(InitStep::RequestUntilInitialized(owned(request)));
        steps.push(InitStep::EntryBreakpoint(program));
        steps.push(InitStep::ConfigurationDone);
        steps.push(InitStep::WaitResponse(owned(request)));
        steps.push(InitStep::WaitEvent(owned("stopped")));
    } else {
        steps.push(InitStep::Request(owned(request)));
        steps.push(InitStep::WaitEvent(owned("initialized")));
        steps.push(InitStep::ConfigurationDone);
        steps.push(InitStep::WaitEvent(owned("stopped")));
    }
    proof {
        assert(steps@.map_values(|s: InitStep| step_view(s)) =~= init_steps_spec(
            adapter_is(*config, "python"@),
            request@,
            entry_program(
                *config,
                match launch_program {
                    Some(p) => Some(p@),
                    None => None,
                },
            ),
        ));
    }
    steps
}

/// The result of initialisation once the first `stopped` event came: the
/// adapter's capabilities as its `initialize` response gave them, the
/// `reason` and `threadId` of the stop when present, and, for the Python
/// adapter, the entry location at the entry breakpoint (line 1 of the
/// program the breakpoint was set in, frame 1).
pub fn init_result(
    config: &SessionInitConfig,
    launch_program: Option<&str>,
    capabilities: String,
    stop_reason: Option<String>,
    thread_id: Option<i64>,
) -> (r: SessionInitResult)
    ensures
        r.ready,
        r.capabilities == capabilities,
        r.stop_reason == stop_reason,
        r.thread_id == thread_id,
        adapter_is(*config, "python"@) ==> (r.entry_location matches Some(l) && l.path@
            == entry_program(
            *config,
            match launch_program {
                Some(p) => Some(p@),
                None => None,
            },
        ) && l.line == 1 && l.frame_id == Some(1i64)),
        !adapter_is(*config, "python"@) ==> r.entry_location is None,
{
    let adapter: Option<&str> = match &config.adapter_id {
        Some(a) => Some(a.as_str()),
        None => None,
    };
    let entry_location = if wants_python_launch_hints(adapter) {
        let path = match launch_program {
            Some(p) => owned(p),
            None => config.program.clone(),
        };
        Some(SessionEntryLocation { path, line: 1, frame_id: Some(1) })
    } else {
        None
    };
    SessionInitResult { ready: true, stop_reason, thread_id, entry_location, capabilities }
}

/// The adapter a headless session asks for: the one given, else the
/// gdb-remote adapter when an RSP target is given, else none (routing
/// decides).
pub fn headless_adapter_id(adapter: Option<&str>, target: Option<&str>) -> (r: Option<String>)
    ensures
        opt_view(r) == match adapter {
            Some(a) => Some(a@),
            None => match target {
                Some(_) => Some("gdb-remote"@),
                None => None,
            },
        },
{
    match adapter {
        Some(a) => Some(owned(a)),
        None => match target {
            Some(_) => Some(owned("gdb-remote")),
            None => None,
        },
    }
}

/// Whether a headless session talks to the adapter directly over stdio
/// (the Python adapter) instead of through the multiplexing proxy.
pub fn uses_direct_stdio(adapter_id: &str) -> (r: bool)
    ensures
        r == (adapter_id@ == "python"@),
{
    crate::text::str_eq(adapter_id, "python")
}

} // verus!

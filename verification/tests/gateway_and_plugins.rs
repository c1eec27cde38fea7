use dap::cli::{mcp_agent_args, repl_options, stop_message, DebugCommands, GlobalOpts};
use dap::display::{ReplDisplay, StackTraceOptions, TerminalStyle};
use dap::gateway::bridge::{adapter_to_spawn_spec, manifest_to_static_plugin, spawn_spec_to_adapter};
use dap::gateway::route::RouteContext;
use dap::gateway::spawn::SpawnSpec;
use dap::navigation::NavigationType;
use dap::plugin::loader::{manifest_in_plugin_dir, target_manifest_in_dir};
use dap::plugin::manifest::{AdapterSpawn, PluginManifest, SpawnTransport};
use dap::plugin::target::{PluginError, TargetConnect, TargetManifest, TargetSpawn};
use dap::repl::help::{help_text, help_topic};
use dap::session_init::{initialize_adapter_id, launch_shape, LaunchShape, SessionInitConfig};

fn tcp_adapter(command: &str) -> AdapterSpawn {
    AdapterSpawn {
        transport: SpawnTransport::Tcp,
        command: command.into(),
        args: vec![],
    }
}

#[test]
fn tcp_adapter_command_splits_into_host_and_port() {
    assert_eq!(
        adapter_to_spawn_spec(&tcp_adapter("127.0.0.1:4711")),
        SpawnSpec::Tcp {
            host: "127.0.0.1".into(),
            port: 4711
        }
    );
    assert_eq!(
        adapter_to_spawn_spec(&tcp_adapter("localhost:notaport")),
        SpawnSpec::Tcp {
            host: "localhost:notaport".into(),
            port: 0
        }
    );
    assert_eq!(
        adapter_to_spawn_spec(&tcp_adapter("nohost")),
        SpawnSpec::Tcp {
            host: "nohost".into(),
            port: 0
        }
    );
    assert_eq!(
        adapter_to_spawn_spec(&tcp_adapter("h:70000")),
        SpawnSpec::Tcp {
            host: "h:70000".into(),
            port: 0
        }
    );
}

#[test]
fn spawn_specs_convert_back_to_adapters() {
    let tcp = spawn_spec_to_adapter(&SpawnSpec::Tcp {
        host: "10.0.0.2".into(),
        port: 9229,
    });
    assert_eq!(tcp.transport, SpawnTransport::Tcp);
    assert_eq!(tcp.command, "10.0.0.2:9229");
    assert!(tcp.args.is_empty());
    let stdio = spawn_spec_to_adapter(&SpawnSpec::stdio("debugpy".into(), vec!["--x".into()]));
    assert_eq!(stdio.transport, SpawnTransport::Stdio);
    assert_eq!(stdio.command, "debugpy");
    assert_eq!(stdio.args, vec!["--x".to_string()]);
}

#[test]
fn manifests_become_static_plugins() {
    let manifest = PluginManifest {
        id: "python".into(),
        name: "Python".into(),
        launch_types: vec!["debugpy".into(), "python".into()],
        file_extensions: vec!["py".into()],
        adapter: AdapterSpawn {
            transport: SpawnTransport::Stdio,
            command: "python3".into(),
            args: vec!["-m".into(), "debugpy.adapter".into()],
        },
    };
    let plugin = manifest_to_static_plugin(&manifest);
    assert_eq!(plugin.id, "python");
    assert_eq!(plugin.name, "Python");
    assert_eq!(plugin.launch_types, vec!["debugpy".to_string(), "python".to_string()]);
    assert_eq!(plugin.file_extensions, vec!["py".to_string()]);
    assert_eq!(
        plugin.spawn,
        SpawnSpec::Stdio {
            command: "python3".into(),
            args: vec!["-m".into(), "debugpy.adapter".into()]
        }
    );
}

#[test]
fn route_context_builders_set_one_field_each() {
    let ctx = RouteContext::new()
        .with_explicit_plugin("rust")
        .with_launch_type("lldb")
        .with_program_path("target/debug/app");
    assert_eq!(ctx.explicit_plugin.as_deref(), Some("rust"));
    assert_eq!(ctx.launch_type.as_deref(), Some("lldb"));
    assert_eq!(ctx.program_path.as_deref(), Some("target/debug/app"));
    assert_eq!(ctx.scope, None);
    let d = RouteContext::default();
    assert!(d.explicit_plugin.is_none() && d.launch_type.is_none() && d.program_path.is_none());
}

fn target(id: &str, name: &str, version: &str, types: Vec<&str>, spawn: Option<&str>) -> TargetManifest {
    TargetManifest {
        id: id.into(),
        name: name.into(),
        version: version.into(),
        target_types: types.into_iter().map(String::from).collect(),
        description: None,
        spawn: spawn.map(|c| TargetSpawn {
            command: c.into(),
            args: vec![],
        }),
        connect: Some(TargetConnect::default()),
    }
}

fn invalid(msg: &str) -> Result<(), PluginError> {
    Err(PluginError::InvalidManifest(msg.into()))
}

#[test]
fn target_manifests_are_validated_in_order() {
    assert_eq!(target("gdb", "GDB", "0.1", vec!["gdb-remote"], Some("gdbserver")).validate(), Ok(()));
    assert_eq!(target("gdb", "GDB", "0.1", vec!["gdb-remote"], None).validate(), Ok(()));
    assert_eq!(target("  ", "GDB", "0.1", vec!["x"], None).validate(), invalid("id must not be empty"));
    assert_eq!(target("g", "", "0.1", vec!["x"], None).validate(), invalid("name must not be empty"));
    assert_eq!(target("g", "G", "\t", vec!["x"], None).validate(), invalid("version must not be empty"));
    assert_eq!(
        target("g", "G", "1", vec![], None).validate(),
        invalid("at least one targetType is required")
    );
    assert_eq!(
        target("g", "G", "1", vec!["x"], Some(" ")).validate(),
        invalid("spawn.command must not be empty")
    );
    let connect = TargetConnect::default();
    assert_eq!(connect.host, "127.0.0.1");
    assert_eq!(connect.port, 1234);
}

#[test]
fn manifest_lookup_in_missing_dir_finds_nothing() {
    assert_eq!(manifest_in_plugin_dir("/nonexistent-dap-plugins-dir/demo"), None);
    assert_eq!(target_manifest_in_dir("/nonexistent-dap-plugins-dir/demo"), None);
}

#[test]
fn session_init_config_defaults_and_adapter_ids() {
    let config = SessionInitConfig::new("main.py");
    assert_eq!(config.program, "main.py");
    assert_eq!(config.client_id, "dap-core");
    assert_eq!(config.adapter_id, None);
    assert_eq!(initialize_adapter_id(&config), "dap-proxy");
    let py = SessionInitConfig::new("main.py").with_adapter_id("python");
    assert_eq!(initialize_adapter_id(&py), "debugpy");
    let rust = SessionInitConfig::new("app").with_adapter_id("rust");
    assert_eq!(initialize_adapter_id(&rust), "rust");
}

#[test]
fn launch_shape_follows_adapter_and_program() {
    let py = SessionInitConfig::new("main.py").with_adapter_id("python");
    assert_eq!(launch_shape(&py), LaunchShape::Python);
    let cargo = SessionInitConfig::new("target/debug/app");
    assert_eq!(launch_shape(&cargo), LaunchShape::Plain { rust_source_language: true });
    let plain = SessionInitConfig::new("main.js").with_adapter_id("fake");
    assert_eq!(launch_shape(&plain), LaunchShape::Plain { rust_source_language: false });
}

#[test]
fn help_topics_are_case_insensitive() {
    assert!(help_text().starts_with("Commands (gdb-style)."));
    assert!(help_text().contains("data-watch remove <expr>"));
    let b = help_topic("B").unwrap();
    assert!(b.starts_with("break, b <file>:<line> [if EXPR] [hit N] [log MSG]\n  Set a source breakpoint."));
    assert_eq!(help_topic("break"), help_topic("b"));
    assert_eq!(
        help_topic("Info Break").unwrap(),
        "info break, info breakpoints\n  List tracked breakpoints with numbers."
    );
    assert_eq!(help_topic("?").unwrap(), help_topic("help").unwrap());
    assert_eq!(help_topic("nonsense"), None);
    assert!(help_topic("unwatch").unwrap().contains("unwatch"));
    assert_eq!(help_topic("UNWATCH"), help_topic("unwatch"));
}

#[test]
fn display_toggles_colors() {
    let mut display = ReplDisplay::new();
    assert!(!display.style().enabled);
    assert_eq!(display.set_colors(None), "Syntax colors on");
    assert!(display.style().enabled);
    assert_eq!(display.set_colors(Some(false)), "Syntax colors off");
    assert_eq!(display.set_colors(Some(false)), "Syntax colors off");
    let user = StackTraceOptions::user(TerminalStyle { enabled: true });
    assert!(!user.full);
    assert_eq!(user.style, Some(TerminalStyle { enabled: true }));
    let all = StackTraceOptions::all();
    assert!(all.full && all.style.is_none());
}

#[test]
fn debug_commands_map_to_navigation_and_options() {
    assert_eq!(
        DebugCommands::StepIn { thread_id: 7 }.navigation(),
        Some((NavigationType::StepIn, 7))
    );
    assert_eq!(DebugCommands::Threads.navigation(), None);
    let globals = GlobalOpts {
        json: true,
        control_port: Some(4711),
        scope: Some("ws".into()),
    };
    assert_eq!(
        mcp_agent_args(&globals),
        vec!["--control-port", "4711", "--scope", "ws"]
    );
    let options = repl_options(Some("main.py".into()), None, false, globals);
    assert!(options.ndjson);
    assert_eq!(options.target, None);
    let quiet = GlobalOpts {
        json: false,
        control_port: None,
        scope: None,
    };
    assert!(mcp_agent_args(&quiet).is_empty());
    assert!(!repl_options(None, None, false, quiet).ndjson);
    assert_eq!(stop_message(true), "Disconnected and terminated debuggee.");
    assert_eq!(stop_message(false), "Disconnected.");
}

use dap::gateway::bridge::{explicit_adapter_spawn, launch_to_route_context, LaunchOptions};

fn launch(program: Option<&str>, adapter: Option<&str>, launch_type: Option<&str>) -> LaunchOptions {
    LaunchOptions {
        request: "launch".into(),
        program: program.map(String::from),
        adapter: adapter.map(String::from),
        launch_type: launch_type.map(String::from),
    }
}

#[test]
fn launch_requests_become_route_inputs() {
    let ctx = launch_to_route_context(&launch(Some("target/debug/app"), None, None));
    assert_eq!(ctx.launch_type.as_deref(), Some("rust"));
    assert_eq!(ctx.program_path.as_deref(), Some("target/debug/app"));
    assert_eq!(ctx.explicit_plugin, None);
    let ctx = launch_to_route_context(&launch(Some("target/debug/app"), Some("fake"), None));
    assert_eq!(ctx.launch_type, None);
    assert_eq!(ctx.explicit_plugin.as_deref(), Some("fake"));
    let ctx = launch_to_route_context(&launch(Some("target/debug/app"), None, Some("debugpy")));
    assert_eq!(ctx.launch_type.as_deref(), Some("debugpy"));
    let ctx = launch_to_route_context(&launch(Some("main.py"), None, None));
    assert_eq!(ctx.launch_type, None);
    let ctx = launch_to_route_context(&launch(None, None, Some("python")));
    assert_eq!(ctx.launch_type.as_deref(), Some("python"));
    assert_eq!(ctx.program_path, None);
}

#[test]
fn resolve_adapter_spawn_prefers_explicit_cmd() {
    let spawn = explicit_adapter_spawn(&vec!["/bin/echo".to_string(), "hello".to_string()]).unwrap();
    assert_eq!(spawn.command, "/bin/echo");
    assert_eq!(spawn.args, vec!["hello".to_string()]);
    assert_eq!(spawn.transport, SpawnTransport::Stdio);
    assert_eq!(
        explicit_adapter_spawn(&vec![]).unwrap_err(),
        "--adapter-cmd requires a command"
    );
}

use dap::reverse_request::{
    reverse_request_action, run_in_terminal_command, run_in_terminal_log_name, ReverseAction,
    RunInTerminalArgs,
};

#[test]
fn reverse_requests_are_sorted_out_by_command() {
    assert_eq!(reverse_request_action("startDebugging"), ReverseAction::DeclineStartDebugging);
    assert_eq!(reverse_request_action("runInTerminal"), ReverseAction::RunInTerminal);
    assert_eq!(reverse_request_action("handshake"), ReverseAction::PassThrough);
    assert_eq!(run_in_terminal_log_name(12), "12.log");
}

#[test]
fn run_in_terminal_builds_the_command() {
    let args = RunInTerminalArgs {
        args: Some(vec![Some("python3".into()), None, Some("main.py".into())]),
        cwd: Some("/work".into()),
        env: vec![("A".into(), Some("1".into())), ("B".into(), None)],
    };
    let cmd = run_in_terminal_command(&args).unwrap();
    assert_eq!(cmd.program, "python3");
    assert_eq!(cmd.args, vec!["main.py".to_string()]);
    assert_eq!(cmd.cwd.as_deref(), Some("/work"));
    assert_eq!(cmd.env, vec![("A".to_string(), "1".to_string())]);
    let missing = RunInTerminalArgs {
        args: Some(vec![]),
        cwd: None,
        env: vec![],
    };
    assert_eq!(run_in_terminal_command(&missing).unwrap_err(), "runInTerminal missing args");
    let blank = RunInTerminalArgs {
        args: Some(vec![Some(String::new())]),
        cwd: None,
        env: vec![],
    };
    assert_eq!(
        run_in_terminal_command(&blank).unwrap_err(),
        "runInTerminal args[0] must be a command"
    );
}

use dap::plugin::loader::load_target_defaults;

#[test]
fn target_defaults_are_sorted_by_id_and_user_overrides() {
    let builtin = vec![
        target("qemu", "QEMU", "1", vec!["gdb-remote"], None),
        target("gdbserver", "GDB", "1", vec!["gdb-remote"], Some("gdbserver")),
    ];
    let user = vec![target("qemu", "My QEMU", "2", vec!["gdb-remote"], None)];
    let merged = load_target_defaults(builtin, Some(user));
    let ids: Vec<(&str, &str)> = merged.iter().map(|m| (m.id.as_str(), m.name.as_str())).collect();
    assert_eq!(ids, vec![("gdbserver", "GDB"), ("qemu", "My QEMU")]);
    assert!(load_target_defaults(vec![], None).is_empty());
}

use dap::plugin::loader::first_existing_path;

#[test]
fn first_existing_path_takes_the_first_found_name() {
    let names = vec!["plugin.yaml", "plugin.yml", "manifest.yaml"];
    let picked = first_existing_path("/plugins/python", &names, &vec![false, true, true]);
    assert!(picked.as_deref().unwrap().ends_with("plugin.yml"));
    assert!(picked.unwrap().starts_with("/plugins/python"));
    assert_eq!(first_existing_path("/p", &names, &vec![false, false, false]), None);
    assert_eq!(first_existing_path("/p", &names, &vec![false]), None);
    assert_eq!(first_existing_path("/p", &names, &vec![]), None);
}

use dap::gateway::bridge::gateway_default;
use dap::plugin::loader::{is_plugin_manifest, is_target_manifest, is_yaml_extension};

#[test]
fn manifest_files_are_recognised_by_extension_and_keys() {
    assert!(is_yaml_extension(Some("yaml")) && is_yaml_extension(Some("yml")));
    assert!(!is_yaml_extension(Some("json")) && !is_yaml_extension(None));
    assert!(is_plugin_manifest(Some("yaml"), true, true));
    assert!(!is_plugin_manifest(Some("yaml"), true, false));
    assert!(!is_plugin_manifest(Some("toml"), true, true));
    assert!(is_target_manifest(Some("yml"), true, true, false));
    assert!(!is_target_manifest(Some("yml"), true, true, true));
    assert!(!is_target_manifest(Some("yml"), false, true, false));
}

#[test]
fn fake_adapter_becomes_the_gateway_default() {
    assert_eq!(gateway_default(&vec!["python".into(), "fake".into()]), Some("fake".to_string()));
    assert_eq!(gateway_default(&vec!["python".into(), "rust".into()]), None);
    assert_eq!(gateway_default(&vec![]), None);
}

#[test]
fn every_listed_command_has_help() {
    let words = [
        "run", "continue", "cont", "c", "next", "n", "step-over", "step", "s", "step-in", "finish",
        "step-out", "break", "b", "trace", "tbreak", "clear", "info break", "info breakpoints", "bt",
        "backtrace", "stack", "where", "show", "src", "code", "frame", "f", "thread", "t", "print",
        "p", "eval", "expr", "pp", "watch", "unwatch", "locals", "info locals", "scopes",
        "info scopes", "set", "threads", "info threads", "catch", "info catch", "skip", "smart-step",
        "goto", "jump", "break function", "data-watch", "restart", "disasm", "status", "sync",
        "capabilities", "caps", "colors", "color", "version", "ver", "help", "h", "?", "quit", "q",
        "exit",
    ];
    for w in words {
        assert!(help_text().contains(w), "{w}");
        assert!(help_topic(w).is_some(), "{w}");
        assert_eq!(help_topic(&w.to_ascii_uppercase()), help_topic(w), "{w}");
    }
}

use dap::reverse_request::{backend_route, BackendRoute};

#[test]
fn adapter_messages_are_routed() {
    assert_eq!(backend_route(true, "startDebugging", true), BackendRoute::ChildSession);
    assert_eq!(
        backend_route(true, "startDebugging", false),
        BackendRoute::AnswerHere(ReverseAction::DeclineStartDebugging)
    );
    assert_eq!(
        backend_route(true, "runInTerminal", true),
        BackendRoute::AnswerHere(ReverseAction::RunInTerminal)
    );
    assert_eq!(backend_route(true, "threads", true), BackendRoute::Forward);
    assert_eq!(backend_route(false, "startDebugging", true), BackendRoute::Forward);
}

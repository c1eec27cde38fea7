use dap::child_session::{
    default_max_children, default_max_depth, profile_from_name, ChildBackendTemplate,
    ChildSessionConfig, ChildSessionProfile, ParentBackendKind, PortTemplate,
    LLDB_DAP_STDIO_UNSUPPORTED_MESSAGE,
};
use dap::grammar::{find_parser_library, first_parser_library, language_setup_hint};
use dap::memory::{format_memory_read, render_memory_dump, MemoryReadBody};
use dap::plugin::loader::load_defaults;
use dap::plugin::manifest::{AdapterSpawn, PluginManifest, SpawnTransport};
use dap::proxy::{AdapterSpawnOptions, MultiplexOptions, Router};
use dap::routing::{python_paths_from, python_program_path};

fn manifest(id: &str, command: &str) -> PluginManifest {
    PluginManifest {
        id: id.into(),
        name: id.to_uppercase(),
        launch_types: vec![id.into()],
        file_extensions: vec![],
        adapter: AdapterSpawn {
            transport: SpawnTransport::Stdio,
            command: command.into(),
            args: vec![],
        },
    }
}

fn summary(list: &[PluginManifest]) -> Vec<(String, String)> {
    list.iter()
        .map(|m| (m.id.clone(), m.adapter.command.clone()))
        .collect()
}

fn pairs(items: &[(&str, &str)]) -> Vec<(String, String)> {
    items
        .iter()
        .map(|(a, b)| (a.to_string(), b.to_string()))
        .collect()
}

#[test]
fn defaults_are_sorted_by_id_and_user_overrides() {
    let builtin = vec![
        manifest("python", "debugpy"),
        manifest("fake", "fake-adapter"),
        manifest("rust", "lldb-dap"),
    ];
    let user = vec![manifest("python", "my-debugpy"), manifest("go", "dlv")];
    let merged = load_defaults(builtin, Some(user));
    assert_eq!(
        summary(&merged),
        pairs(&[
            ("fake", "fake-adapter"),
            ("go", "dlv"),
            ("python", "my-debugpy"),
            ("rust", "lldb-dap"),
        ])
    );
}

#[test]
fn defaults_without_user_dir_keep_last_duplicate() {
    let builtin = vec![
        manifest("b", "first"),
        manifest("a", "a"),
        manifest("b", "second"),
        manifest("ab", "ab"),
    ];
    let merged = load_defaults(builtin, None);
    assert_eq!(
        summary(&merged),
        pairs(&[("a", "a"), ("ab", "ab"), ("b", "second")])
    );
    assert!(load_defaults(vec![], Some(vec![])).is_empty());
}

#[test]
fn dump_of_hello_at_hex_address() {
    assert_eq!(
        render_memory_dump("0x1000", &b"Hello".to_vec(), None),
        "Memory at 0x1000 (5 bytes):\n0x0000000000001000: 48 65 6C 6C 6F                                    Hello\n"
    );
}

#[test]
fn dump_uses_offsets_for_symbolic_addresses() {
    let data: Vec<u8> = (0x41..0x41 + 17).collect();
    assert_eq!(
        render_memory_dump("buf", &data, Some(3)),
        "Memory at buf (17 bytes):\n(3 byte(s) unreadable)\n+0x00000000:        41 42 43 44 45 46 47 48  49 4A 4B 4C 4D 4E 4F 50  ABCDEFGHIJKLMNOP\n+0x00000010:        51                                                Q\n"
    );
}

#[test]
fn dump_addresses_wrap_around() {
    assert_eq!(
        render_memory_dump("0xFFFFFFFFFFFFFFF8", &vec![0u8; 18], None),
        "Memory at 0xFFFFFFFFFFFFFFF8 (18 bytes):\n0xFFFFFFFFFFFFFFF8: 00 00 00 00 00 00 00 00  00 00 00 00 00 00 00 00  ................\n0x0000000000000008: 00 00                                             ..\n"
    );
}

#[test]
fn format_memory_read_renders_dump() {
    let body = MemoryReadBody {
        address: Some("0x1000".into()),
        data: Some("SGVsbG8=".into()),
        unreadable_bytes: None,
    };
    let text = format_memory_read(&body).unwrap();
    assert!(text.contains("Memory at 0x1000"));
    assert!(text.contains("Hello"));
}

#[test]
fn format_memory_read_without_data_or_with_bad_data() {
    let none = MemoryReadBody {
        address: None,
        data: None,
        unreadable_bytes: None,
    };
    assert_eq!(format_memory_read(&none).unwrap(), "Address: ?\nNo data returned.");
    let unreadable = MemoryReadBody {
        address: Some("0x10".into()),
        data: None,
        unreadable_bytes: Some(8),
    };
    assert_eq!(
        format_memory_read(&unreadable).unwrap(),
        "Address: 0x10\n8 byte(s) unreadable."
    );
    let bad = MemoryReadBody {
        address: Some("0x10".into()),
        data: Some("!!!".into()),
        unreadable_bytes: None,
    };
    let err = format_memory_read(&bad).unwrap_err();
    assert!(err.starts_with("decode memory data at 0x10: "));
    assert!(err.len() > "decode memory data at 0x10: ".len());
    let bad_symbol = MemoryReadBody {
        address: Some("0x10".into()),
        data: Some("AA!A".into()),
        unreadable_bytes: None,
    };
    assert_eq!(
        format_memory_read(&bad_symbol).unwrap_err(),
        "decode memory data at 0x10: Invalid symbol 33, offset 2."
    );
    let big = MemoryReadBody {
        address: Some("buf".into()),
        data: Some("QUJDREVGR0hJSktMTU5PUFE=".into()),
        unreadable_bytes: Some(3),
    };
    assert_eq!(
        format_memory_read(&big).unwrap(),
        render_memory_dump("buf", &(0x41..0x41 + 17).collect(), Some(3))
    );
}

#[test]
fn python_paths_prefer_canonical_forms() {
    assert_eq!(
        python_paths_from("main.py", Some("/work/app/main.py".into()), None),
        ("/work/app/main.py".to_string(), Some("/work/app".to_string()))
    );
    assert_eq!(
        python_paths_from("app/main.py", None, Some("/work/app".into())),
        ("/work/app/main.py".to_string(), Some("/work/app".to_string()))
    );
    assert_eq!(python_paths_from("main.py", None, Some("/ignored".into())), ("main.py".to_string(), None));
    assert_eq!(
        python_paths_from("/abs/missing.py", None, Some("/abs".into())),
        ("/abs/missing.py".to_string(), Some("/abs".to_string()))
    );
    assert_eq!(python_paths_from("gone/x.py", None, None), ("gone/x.py".to_string(), None));
    assert_eq!(python_program_path("/nonexistent-dir-for-dap/x.py"), "/nonexistent-dir-for-dap/x.py");
}

#[test]
fn grammar_hints_and_lookup() {
    assert_eq!(
        language_setup_hint("python", "directory not found", "/data/ts"),
        "tree-sitter grammar for 'python' unavailable (directory not found).\n  Install under /data/ts/python/:\n    libtree-sitter-python.so (or parser.so)\n    queries/highlights.scm\n  Or set DAP_TREE_SITTER_DIR to another root. Basic syntax highlighting will be used."
    );
    assert_eq!(
        find_parser_library("/nonexistent-ts", "rust").unwrap_err(),
        "no tree-sitter parser library found in /nonexistent-ts for language rust"
    );
}

#[test]
fn parser_library_is_the_first_found_candidate() {
    assert_eq!(
        first_parser_library("/ts/rust", "rust", &vec![false, true, true]).unwrap(),
        "/ts/rust/tree-sitter-rust.so"
    );
    assert_eq!(
        first_parser_library("/ts/go", "go", &vec![false, false, false, false, false, true]).unwrap(),
        "/ts/go/parser.dylib"
    );
    assert_eq!(
        first_parser_library("/ts/go", "go", &vec![false; 6]).unwrap_err(),
        "no tree-sitter parser library found in /ts/go for language go"
    );
    assert!(first_parser_library("/ts/go", "go", &vec![]).is_err());
}

#[test]
fn child_session_presets() {
    let config = ChildSessionConfig::default();
    assert!(!config.auto_spawn);
    assert_eq!(config.max_children, 16);
    assert_eq!(config.max_depth, 1);
    assert_eq!(default_max_children(), 16);
    assert_eq!(default_max_depth(), 1);
    let fake = ChildSessionProfile::from_preset("fake").unwrap();
    assert_eq!(fake.rules[0].child_backend, ChildBackendTemplate::InheritParentStdio);
    let debugpy = profile_from_name("debugpy").unwrap();
    assert_eq!(debugpy, ChildSessionProfile::debugpy_preset());
    assert_eq!(
        debugpy.rules[0].child_backend,
        ChildBackendTemplate::Tcp {
            host: "${configuration.connect.host}".into(),
            port: PortTemplate::Template("${configuration.connect.port}".into())
        }
    );
    let lldb = ChildSessionProfile::from_preset("lldb-dap").unwrap();
    assert_eq!(lldb.rules[0].when.parent_backend, vec![ParentBackendKind::Tcp]);
    assert_eq!(lldb.unsupported_message.as_deref(), Some(LLDB_DAP_STDIO_UNSUPPORTED_MESSAGE));
    assert!(ChildSessionProfile::from_preset("gdb").is_none());
    assert_eq!(
        profile_from_name("gdb").unwrap_err(),
        "unknown child-session profile preset 'gdb'; expected \"fake\", \"debugpy\", \"lldb-dap\", or an explicit rules object"
    );
}

#[test]
fn proxy_option_defaults() {
    assert!(!AdapterSpawnOptions::default().new_session);
    let m = MultiplexOptions::default();
    assert_eq!(m.control_port, Some(0));
    assert!(m.client_idle_timeout.is_none());
    let _router = Router::new();
}

use dap::attach::{merge_debug_request_arguments, merge_default_attach_arguments, AttachArguments};
use dap::text_map::TextMap;

fn object(fields: &[(&str, &str)]) -> AttachArguments {
    let mut m = TextMap::new();
    for (k, v) in fields {
        m.insert(k.to_string(), v.to_string());
    }
    AttachArguments::Object(m)
}

fn field<'a>(args: &'a AttachArguments, key: &str) -> Option<&'a str> {
    match args {
        AttachArguments::Object(m) => m.get(key).map(String::as_str),
        _ => None,
    }
}

#[test]
fn merge_default_attach_arguments_preserves_client_values() {
    let mut client = object(&[("host", "\"10.0.0.5\""), ("program", "\"/tmp/app\"")]);
    let defaults = object(&[
        ("host", "\"127.0.0.1\""),
        ("port", "1234"),
        ("program", "\"/other/app\""),
        ("stopAtEntry", "true"),
    ]);
    merge_default_attach_arguments(&mut client, &defaults);
    assert_eq!(field(&client, "host"), Some("\"10.0.0.5\""));
    assert_eq!(field(&client, "port"), Some("1234"));
    assert_eq!(field(&client, "program"), Some("\"/tmp/app\""));
    assert_eq!(field(&client, "stopAtEntry"), Some("true"));
}

#[test]
fn merge_debug_request_arguments_updates_attach_body() {
    let mut arguments = Some(object(&[("program", "\"/tmp/app\"")]));
    merge_debug_request_arguments(
        "attach",
        &mut arguments,
        &object(&[("host", "\"127.0.0.1\""), ("port", "2331")]),
    );
    let args = arguments.as_ref().expect("attach args");
    assert_eq!(field(args, "host"), Some("\"127.0.0.1\""));
    assert_eq!(field(args, "port"), Some("2331"));
    assert_eq!(field(args, "program"), Some("\"/tmp/app\""));
}

#[test]
fn merge_handles_null_scalars_and_other_requests() {
    let defaults = object(&[("port", "1")]);
    let mut null = AttachArguments::Null;
    merge_default_attach_arguments(&mut null, &defaults);
    assert_eq!(field(&null, "port"), Some("1"));
    let mut scalar = AttachArguments::Other("42".into());
    merge_default_attach_arguments(&mut scalar, &defaults);
    assert_eq!(field(&scalar, "extra"), Some("42"));
    assert_eq!(field(&scalar, "port"), Some("1"));
    let mut untouched = AttachArguments::Other("7".into());
    merge_default_attach_arguments(&mut untouched, &AttachArguments::Null);
    assert!(matches!(untouched, AttachArguments::Other(ref t) if t == "7"));
    let mut none = None;
    merge_debug_request_arguments("launch", &mut none, &defaults);
    assert_eq!(field(none.as_ref().unwrap(), "port"), Some("1"));
    let mut skipped = None;
    merge_debug_request_arguments("threads", &mut skipped, &defaults);
    assert!(skipped.is_none());
}

use dap::data_watch::{data_watch_should_stop, uses_emulated_data_breakpoints, DataWatchEntry};
use dap::gateway::spawn::{SpawnSpec, SpawnTransport};
use dap::instance::record::{filter_by_scope, SessionCleanupGuard, SessionRecord};
use dap::instance::spec::{now_unix, unix_seconds, InstanceId, InstanceSpec};
use dap::text_map::TextMap;
use dap::instruction::instruction_breakpoint_key;
use dap::memory::{hex_string_to_bytes, parse_address, validate_read_count};
use dap::navigation::{parse_navigation_type, NavigationType};
use dap::routing::{
    is_python_adapter, is_rust_adapter, looks_like_cargo_binary, wants_python_launch_hints,
    wants_rust_launch_hints,
};

fn record(id: &str, port: u16, scope: Option<&str>) -> SessionRecord {
    SessionRecord {
        instance_id: id.into(),
        pid: 1,
        control_port: port,
        adapter_id: "fake".into(),
        program: None,
        scope: scope.map(|s| s.to_string()),
        parent_id: None,
        started_at_unix: 0,
    }
}

#[test]
fn filter_by_scope_returns_all_without_filter() {
    let sessions = vec![SessionRecord {
        instance_id: "a".into(),
        pid: 1,
        control_port: 1,
        adapter_id: "fake".into(),
        program: None,
        scope: None,
        parent_id: None,
        started_at_unix: 0,
    }];
    assert_eq!(filter_by_scope(sessions, &None).len(), 1);
}

#[test]
fn filter_by_scope_keeps_matching_sessions() {
    let sessions = vec![
        SessionRecord {
            instance_id: "a".into(),
            pid: 1,
            control_port: 1,
            adapter_id: "fake".into(),
            program: None,
            scope: Some("ws".into()),
            parent_id: None,
            started_at_unix: 0,
        },
        SessionRecord {
            instance_id: "b".into(),
            pid: 1,
            control_port: 2,
            adapter_id: "fake".into(),
            program: None,
            scope: None,
            parent_id: None,
            started_at_unix: 0,
        },
    ];
    let filtered = filter_by_scope(sessions, &Some("ws".into()));
    assert_eq!(filtered.len(), 1);
    assert_eq!(filtered[0].instance_id, "a");
}

#[test]
fn filter_by_scope_keeps_order_and_drops_other_scopes() {
    let sessions = vec![
        record("a", 1, Some("ws")),
        record("b", 2, Some("other")),
        record("c", 3, Some("ws")),
        record("d", 4, None),
    ];
    let filtered = filter_by_scope(sessions, &Some("ws".into()));
    let ids: Vec<&str> = filtered.iter().map(|r| r.instance_id.as_str()).collect();
    assert_eq!(ids, vec!["a", "c"]);
    assert!(filter_by_scope(vec![record("x", 1, None)], &Some("ws".into())).is_empty());
}

#[test]
fn navigation_type_parses_aliases() {
    assert_eq!("step-over".parse::<NavigationType>().unwrap(), NavigationType::StepOver);
    assert_eq!("next".parse::<NavigationType>().unwrap(), NavigationType::StepOver);
    assert_eq!(
        "reverse_continue".parse::<NavigationType>().unwrap(),
        NavigationType::ReverseContinue
    );
}

#[test]
fn navigation_names_round_trip_and_unknown_is_rejected() {
    let all = [
        NavigationType::Continue,
        NavigationType::StepOver,
        NavigationType::StepIn,
        NavigationType::StepOut,
        NavigationType::Pause,
        NavigationType::StepBack,
        NavigationType::ReverseContinue,
    ];
    for t in all {
        assert_eq!(parse_navigation_type(t.name()).unwrap(), t);
        assert_eq!(parse_navigation_type(t.dap_command()).unwrap(), t);
    }
    assert_eq!(NavigationType::StepOver.dap_command(), "next");
    assert_eq!(NavigationType::StepIn.name(), "step_in");
    assert_eq!(parse_navigation_type("Step-In").unwrap(), NavigationType::StepIn);
    assert_eq!(
        parse_navigation_type("Jump-Around").unwrap_err(),
        "unknown navigation type: jump_around"
    );
    assert!(NavigationType::Continue.waits_for_stop());
    assert!(NavigationType::Pause.waits_for_stop());
    assert!(NavigationType::ReverseContinue.waits_for_stop());
    assert!(!NavigationType::StepOver.waits_for_stop());
}

#[test]
fn now_unix_is_positive() {
    assert!(now_unix() > 0);
}

#[test]
fn unix_seconds_takes_whole_seconds() {
    assert_eq!(unix_seconds(Some((1_700_000_000, 999))), 1_700_000_000);
    assert_eq!(unix_seconds(None), 0);
}

#[test]
fn builder_sets_metadata_fields() {
    let parent = InstanceId::generate();
    let spec = InstanceSpec::new("debug")
        .with_label("session-a")
        .with_scope("workspace")
        .with_control_port(4711)
        .with_parent_id(parent.clone())
        .with_tag("env", "test");
    assert_eq!(spec.label.as_deref(), Some("session-a"));
    assert_eq!(spec.scope.as_deref(), Some("workspace"));
    assert_eq!(spec.control_port, Some(4711));
    assert_eq!(spec.parent_id, Some(parent));
    assert_eq!(spec.tags.get("env").map(String::as_str), Some("test"));
}

#[test]
fn instance_id_from_clock_is_fixed_width_hex() {
    let id = InstanceId::from_clock(0x1F, 0xA);
    assert_eq!(id.as_str(), "inst-000000000000001F-0000000A");
    assert_eq!(InstanceId::from_reading(None).as_str(), "inst-0000000000000000-00000000");
}

#[test]
fn instance_spec_takes_id_and_time_from_one_reading() {
    let spec = InstanceSpec::at_clock("debug", Some((1_700_000_000, 5)));
    assert_eq!(spec.id.as_str(), "inst-000000006553F100-00000005");
    assert_eq!(spec.created_at_unix, 1_700_000_000);
    assert_eq!(spec.kind, "debug");
    assert!(spec.label.is_none() && spec.parent_id.is_none() && spec.pid.is_none());
    assert_eq!(spec.tags.len(), 0);
    let fresh = InstanceSpec::new("debug");
    assert!(fresh.created_at_unix > 0);
    assert!(fresh.id.as_str().starts_with("inst-"));
}

#[test]
fn tags_insert_replaces_and_get_reads_back() {
    let mut tags = TextMap::new();
    assert_eq!(tags.insert("env".into(), "test".into()), None);
    assert_eq!(tags.insert("team".into(), "core".into()), None);
    assert_eq!(tags.insert("env".into(), "prod".into()), Some("test".to_string()));
    assert_eq!(tags.get("env").map(String::as_str), Some("prod"));
    assert_eq!(tags.get("team").map(String::as_str), Some("core"));
    assert_eq!(tags.get("missing"), None);
    assert_eq!(tags.len(), 2);
    let copy = tags.clone();
    assert_eq!(copy.get("env").map(String::as_str), Some("prod"));
}

#[test]
fn cleanup_guard_tracks_armed_instance() {
    let mut guard = SessionCleanupGuard::new();
    assert_eq!(guard.pending_deletion(), None);
    guard.arm("test-instance".into());
    assert_eq!(guard.pending_deletion(), Some("test-instance"));
    guard.disarm();
    assert_eq!(guard.pending_deletion(), None);
}

#[test]
fn stdio_spec_reports_transport() {
    let spec = SpawnSpec::stdio("echo".into(), vec!["hi".into()]);
    assert_eq!(spec.transport(), SpawnTransport::Stdio);
}

#[test]
fn tcp_spec_reports_transport() {
    let spec = SpawnSpec::Tcp {
        host: "127.0.0.1".into(),
        port: 1234,
    };
    assert_eq!(spec.transport(), SpawnTransport::Tcp);
}

#[test]
fn builtin_spec_reports_transport() {
    let spec = SpawnSpec::Builtin { id: "fake".into() };
    assert_eq!(spec.transport(), SpawnTransport::Builtin);
}

#[test]
fn data_watch_arms_then_fires_on_change() {
    let mut entry = DataWatchEntry::new("x".into(), true);
    assert!(!data_watch_should_stop(&mut entry, "1"));
    assert!(!data_watch_should_stop(&mut entry, "1"));
    assert!(data_watch_should_stop(&mut entry, "2"));
}

#[test]
fn data_watch_rebaselines_after_firing() {
    let mut entry = DataWatchEntry::new("y".into(), false);
    assert!(!data_watch_should_stop(&mut entry, "a"));
    assert!(entry.armed);
    assert!(data_watch_should_stop(&mut entry, "b"));
    assert_eq!(entry.baseline.as_deref(), Some("b"));
    assert!(!data_watch_should_stop(&mut entry, "b"));
    assert!(data_watch_should_stop(&mut entry, "a"));
    assert!(uses_emulated_data_breakpoints(false));
    assert!(!uses_emulated_data_breakpoints(true));
}

#[test]
fn hex_string_to_bytes_parses_pairs() {
    assert_eq!(hex_string_to_bytes("48656C6C6F").unwrap(), b"Hello");
}

#[test]
fn hex_string_rejects_odd_length() {
    assert!(hex_string_to_bytes("ABC").is_err());
}

#[test]
fn hex_string_errors_name_the_problem() {
    assert_eq!(hex_string_to_bytes("  ").unwrap_err(), "data must not be empty");
    assert_eq!(
        hex_string_to_bytes("ABC").unwrap_err(),
        "hex data must have an even number of characters"
    );
    assert_eq!(hex_string_to_bytes("0GFF").unwrap_err(), "invalid hex byte '0G'");
    assert_eq!(hex_string_to_bytes(" 00ff\n").unwrap(), vec![0x00, 0xFF]);
    assert_eq!(hex_string_to_bytes("+F").unwrap(), vec![0x0F]);
    assert_eq!(hex_string_to_bytes("00+F").unwrap(), vec![0x00, 0x0F]);
    assert_eq!(hex_string_to_bytes("-F").unwrap_err(), "invalid hex byte '-F'");
    assert_eq!(hex_string_to_bytes("é").unwrap_err(), "invalid hex byte 'é'");
}

#[test]
fn hex_string_rejects_oversized_payload() {
    let data = "00".repeat(1_048_577);
    assert_eq!(
        hex_string_to_bytes(&data).unwrap_err(),
        "write payload 1048577 bytes exceeds maximum of 1048576 bytes"
    );
    assert_eq!(hex_string_to_bytes(&"ab".repeat(1_048_576)).unwrap().len(), 1_048_576);
}

#[test]
fn read_count_is_bounded() {
    assert_eq!(validate_read_count(256).unwrap(), 256);
    assert_eq!(validate_read_count(1_048_576).unwrap(), 1_048_576);
    assert_eq!(validate_read_count(0).unwrap_err(), "count must be > 0, got 0");
    assert_eq!(validate_read_count(-3).unwrap_err(), "count must be > 0, got -3");
    assert_eq!(
        validate_read_count(1_048_577).unwrap_err(),
        "count 1048577 exceeds maximum of 1048576 bytes"
    );
}

#[test]
fn addresses_parse_in_hex_and_decimal() {
    assert_eq!(parse_address("0x1000"), Some(4096));
    assert_eq!(parse_address("0XfF"), Some(255));
    assert_eq!(parse_address("4096"), Some(4096));
    assert_eq!(parse_address("0x"), None);
    assert_eq!(parse_address("zz"), None);
    assert_eq!(parse_address("0xFFFFFFFFFFFFFFFF"), Some(u64::MAX));
    assert_eq!(parse_address("18446744073709551616"), None);
}

#[test]
fn instruction_keys_join_reference_and_offset() {
    assert_eq!(instruction_breakpoint_key("0x1000", -4), "0x1000:-4");
    assert_eq!(instruction_breakpoint_key("mem", 16), "mem:16");
}

#[test]
fn python_hints_follow_adapter_id() {
    assert!(wants_python_launch_hints(Some("python")));
    assert!(!wants_python_launch_hints(Some("fake")));
    assert!(!wants_python_launch_hints(None));
}

#[test]
fn detects_cargo_binary_paths() {
    assert!(looks_like_cargo_binary("./target/debug/myapp"));
    assert!(looks_like_cargo_binary("target/release/foo"));
    assert!(looks_like_cargo_binary(r"crates\foo\target\debug\bar"));
    assert!(!looks_like_cargo_binary("main.py"));
    assert!(!looks_like_cargo_binary("/usr/bin/python3"));
}

#[test]
fn rust_launch_hints_follow_adapter_or_path() {
    assert!(wants_rust_launch_hints(Some("rust"), "main.py"));
    assert!(wants_rust_launch_hints(None, "target/debug/app"));
    assert!(!wants_rust_launch_hints(None, "main.py"));
}

#[test]
fn adapter_ids_are_matched_exactly() {
    assert!(is_rust_adapter(Some("lldb-dap")));
    assert!(!is_rust_adapter(Some("Rust")));
    assert!(is_python_adapter(Some("python")));
    assert!(!is_python_adapter(Some("python3")));
}

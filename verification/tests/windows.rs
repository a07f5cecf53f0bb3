use jsentinel::foundation::{
    CapabilitySupportStatus, ReadOnlyBackendError, ReadOnlyBackendErrorKind, SystemPlatform,
};
use jsentinel::json::{member, JsonMember, JsonNumber, JsonValue};
use jsentinel::windows::{
    detect_file_lockers, empty_snapshot, get_process_details, snapshot_payload, list_network_connections, list_processes,
    list_startup_entries, parse_network_connections, parse_processes, parse_startup_entries, plan,
    system_capabilities, unsupported_capabilities, WindowsCapability,
};

fn text(s: &str) -> JsonValue {
    JsonValue::Str(s.to_string())
}

fn num(n: u64) -> JsonValue {
    JsonValue::Number(JsonNumber::PosInt(n))
}

fn obj(members: Vec<JsonMember>) -> JsonValue {
    JsonValue::Object(members)
}

fn demo_process_snapshot() -> JsonValue {
    obj(vec![
        member("ProcessId", num(100)),
        member("ParentProcessId", num(4)),
        member("Name", text("demo.exe")),
        member("ExecutablePath", text("C:\\Demo\\demo.exe")),
        member("CommandLine", text("demo.exe --flag")),
        member("CreationDate", text("20260101000000.000000+000")),
    ])
}

fn demo_network_snapshot() -> JsonValue {
    obj(vec![
        member("Protocol", text("TCP")),
        member("LocalAddress", text("127.0.0.1")),
        member("LocalPort", num(5000)),
        member("RemoteAddress", text("127.0.0.1")),
        member("RemotePort", num(443)),
        member("State", text("Established")),
        member("OwningProcess", num(100)),
    ])
}

#[test]
fn parses_process_snapshot() {
    let value = demo_process_snapshot();

    let processes = parse_processes(&value);

    assert_eq!(processes.len(), 1);
    assert_eq!(processes[0].pid, 100);
    assert_eq!(processes[0].name, "demo.exe");
}

#[test]
fn parses_network_snapshot_and_maps_process() {
    let processes = parse_processes(&obj(vec![
        member("ProcessId", num(100)),
        member("Name", text("demo.exe")),
    ]));
    let value = demo_network_snapshot();

    let connections = parse_network_connections(&value, &processes);

    assert_eq!(connections.len(), 1);
    assert_eq!(connections[0].protocol, "TCP");
    assert_eq!(connections[0].process_name.as_deref(), Some("demo.exe"));
}

#[test]
fn parses_startup_snapshot() {
    let value = obj(vec![
        member("Id", text("HKCU Run:Demo")),
        member("Name", text("Demo")),
        member("Source", text("HKCU Run")),
        member("Command", text("demo.exe")),
        member("Path", JsonValue::Null),
        member("Enabled", JsonValue::Bool(true)),
        member("Scope", text("CurrentUser")),
        member("Limitation", text("Read-only registry Run key snapshot.")),
    ]);

    let entries = parse_startup_entries(&value);

    assert_eq!(entries.len(), 1);
    assert_eq!(entries[0].source, "HKCU Run");
    assert_eq!(entries[0].enabled, Some(true));
}

#[test]
fn file_locker_detection_is_honest_unsupported_contract() {
    let result = detect_file_lockers("C:\\Demo\\locked.txt", false);

    assert!(!result.capability.supported);
    assert_eq!(result.items.len(), 1);
    assert_eq!(result.items[0].confidence, "unsupported");
}

// ---------------------------------------------------------------------------
// Further cases
// ---------------------------------------------------------------------------

#[test]
fn process_records_default_blank_and_missing_fields() {
    let value = JsonValue::Array(vec![
        obj(vec![member("ProcessId", num(7)), member("ExecutablePath", text("   "))]),
        obj(vec![member("Name", text("no-pid.exe"))]),
        obj(vec![member("ProcessId", text("oops"))]),
        obj(vec![member("ProcessId", num(5_000_000_000))]),
        JsonValue::Null,
        JsonValue::Array(vec![
            num(9),
            JsonValue::Null,
            text("arr.exe"),
            JsonValue::Null,
            JsonValue::Null,
            JsonValue::Null,
        ]),
        JsonValue::Array(vec![num(10)]),
    ]);

    let processes = parse_processes(&value);

    assert_eq!(processes.len(), 2);
    assert_eq!(processes[0].pid, 7);
    assert_eq!(processes[0].name, "pid-7");
    assert_eq!(processes[0].path, None);
    assert_eq!(processes[0].source, "windows_backend");
    assert_eq!(processes[0].confidence, "best_effort");
    assert_eq!(processes[0].limitations.len(), 1);
    assert_eq!(processes[1].pid, 9);
    assert_eq!(processes[1].name, "arr.exe");
    assert_eq!(processes[1].parent_pid, None);
}

#[test]
fn null_snapshot_has_no_records() {
    assert!(parse_processes(&JsonValue::Null).is_empty());
    assert!(parse_startup_entries(&JsonValue::Null).is_empty());
    assert!(parse_network_connections(&JsonValue::Null, &[]).is_empty());
}

#[test]
fn network_ports_and_owners_are_checked() {
    let processes = parse_processes(&JsonValue::Array(vec![
        obj(vec![member("ProcessId", num(1)), member("Name", text("first.exe"))]),
        obj(vec![member("ProcessId", num(1)), member("Name", text("second.exe"))]),
    ]));
    let value = JsonValue::Array(vec![
        obj(vec![
            member("Protocol", text("UDP")),
            member("LocalPort", num(70000)),
            member("RemoteAddress", text(" ")),
            member("OwningProcess", num(1)),
        ]),
        obj(vec![member("OwningProcess", num(2))]),
        obj(vec![member("LocalPort", text("80"))]),
    ]);

    let connections = parse_network_connections(&value, &processes);

    assert_eq!(connections.len(), 2);
    assert_eq!(connections[0].protocol, "UDP");
    assert_eq!(connections[0].local_addr, "unknown");
    assert_eq!(connections[0].local_port, None);
    assert_eq!(connections[0].remote_addr, None);
    assert_eq!(connections[0].pid, Some(1));
    assert_eq!(connections[0].process_name.as_deref(), Some("first.exe"));
    assert_eq!(connections[1].protocol, "unknown");
    assert_eq!(connections[1].pid, Some(2));
    assert_eq!(connections[1].process_name, None);
    assert_eq!(connections[1].process_path, None);
}

#[test]
fn startup_records_need_an_id() {
    let value = JsonValue::Array(vec![
        obj(vec![member("Name", text("No id"))]),
        obj(vec![member("Id", text("x")), member("Enabled", text("yes"))]),
        obj(vec![member("Id", text("y")), member("Command", text(""))]),
    ]);

    let entries = parse_startup_entries(&value);

    assert_eq!(entries.len(), 1);
    assert_eq!(entries[0].id, "y");
    assert_eq!(entries[0].name, "Startup entry");
    assert_eq!(entries[0].source, "Unknown");
    assert_eq!(entries[0].scope, "Unknown");
    assert_eq!(entries[0].command, None);
    assert_eq!(entries[0].enabled, None);
    assert_eq!(entries[0].risk.as_deref(), Some("unknown"));
}

#[test]
fn queries_off_windows_are_unsupported() {
    let processes = list_processes(None);
    assert_eq!(processes.platform, SystemPlatform::Unsupported);
    assert_eq!(processes.provider, "windows_read_only");
    assert!(!processes.capability.supported);
    assert_eq!(
        processes.capability.limitation.as_deref(),
        Some("Windows process inventory is unsupported on this platform.")
    );
    assert!(list_network_connections(None).items.is_empty());
    assert!(list_startup_entries(None).items.is_empty());
    assert_eq!(get_process_details(1, None).capability.id, "process_details");
    assert_eq!(detect_file_lockers("a", true).platform, SystemPlatform::Windows);
}

#[test]
fn snapshot_queries_report_partial_capabilities() {
    let processes = list_processes(Some(Ok(demo_process_snapshot())));
    assert_eq!(processes.platform, SystemPlatform::Windows);
    assert_eq!(processes.capability.status, CapabilitySupportStatus::Partial);
    assert_eq!(processes.items.len(), 1);
    assert!(processes.error.is_none());

    let connections = list_network_connections(Some((
        Ok(demo_process_snapshot()),
        Ok(demo_network_snapshot()),
    )));
    assert_eq!(connections.items.len(), 1);
    assert_eq!(connections.items[0].process_path.as_deref(), Some("C:\\Demo\\demo.exe"));
}

#[test]
fn failed_snapshot_is_a_query_error() {
    let failed = list_startup_entries(Some(Err(ReadOnlyBackendError::new(
        ReadOnlyBackendErrorKind::ParseError,
        "bad json",
    ))));
    assert_eq!(failed.platform, SystemPlatform::Windows);
    assert!(!failed.capability.supported);
    assert_eq!(
        failed.capability.limitation.as_deref(),
        Some("Failed to query Windows startup entries: bad json")
    );
    let error = failed.error.expect("the diagnostic is kept");
    assert_eq!(error.kind, ReadOnlyBackendErrorKind::ParseError);
    assert!(failed.items.is_empty());
}

#[test]
fn process_details_filter_by_pid() {
    let found = get_process_details(100, Some(Ok(demo_process_snapshot())));
    assert_eq!(found.capability.id, "process_details");
    assert_eq!(found.capability.label, "Process details");
    assert_eq!(found.items.len(), 1);

    let missing = get_process_details(5, Some(Ok(demo_process_snapshot())));
    assert!(missing.items.is_empty());
    assert_eq!(
        missing.capability.limitation.as_deref(),
        Some("Process 5 was not found or could not be read at snapshot time.")
    );
}

#[test]
fn capabilities_follow_the_host() {
    let off = system_capabilities(false);
    assert_eq!(off.len(), 5);
    assert!(off.iter().all(|c| !c.supported));
    let on = system_capabilities(true);
    assert!(on[0].supported && on[1].supported && on[2].supported);
    assert_eq!(on[3].status, CapabilitySupportStatus::Partial);
    assert!(!on[4].supported);
    let all = unsupported_capabilities("why");
    assert!(all.iter().all(|c| c.limitation.as_deref() == Some("why")));
}

#[test]
fn backend_plan_is_user_mode() {
    let p = plan();
    assert!(p.primary_platform);
    assert!(!p.requires_kernel_driver);
    assert!(p.implemented);
    assert_eq!(p.planned_capabilities.len(), 4);
    assert_eq!(p.planned_capabilities[0], WindowsCapability::ProcessInventory);
}

#[test]
fn command_output_is_trimmed_and_blank_output_has_no_records() {
    assert_eq!(snapshot_payload("  [1]\r\n").as_deref(), Some("[1]"));
    assert_eq!(snapshot_payload(" \n\t"), None);
    assert!(parse_processes(&empty_snapshot()).is_empty());
}

use jsentinel::db::{
    action_history_filter, action_result_from_row, action_result_to_row, dashboard_summary,
    event_filter, event_from_row, event_to_row, startup_backup_filter, v1_database_plan,
    EventCounts, EventQuery, RowError, StorageMode,
};
use jsentinel::events::{
    mock_demo_events, mock_network_event, mock_process_event, EventKind, EventParseError,
    EventSeverity, EventSource,
};
use jsentinel::policy::{
    ActionHistoryQuery, ActionKind, ActionParseError, ActionRequest, ActionResult, ActionStatus,
    PolicyEngine, StartupBackupQuery,
};

fn counts_of_demo_timeline() -> EventCounts {
    let events = mock_demo_events(1);
    let count = |f: &dyn Fn(&jsentinel::events::AccessEvent) -> bool| {
        events.iter().filter(|e| f(e)).count() as u64
    };
    EventCounts {
        total: events.len() as u64,
        warnings: count(&|e| e.severity == EventSeverity::Warning),
        critical: count(&|e| e.severity == EventSeverity::Critical),
        process: count(&|e| e.kind == EventKind::Process),
        network: count(&|e| e.kind == EventKind::Network),
        file: count(&|e| e.kind == EventKind::File),
        startup: count(&|e| e.kind == EventKind::Startup),
        device_access: count(&|e| e.kind == EventKind::DeviceAccess),
        locked_file: count(&|e| e.kind == EventKind::LockedFile),
        security: count(&|e| e.kind == EventKind::Security),
        not_mock: count(&|e| e.source != EventSource::Mock),
    }
}

#[test]
fn dashboard_summary_counts_the_demo_timeline() {
    let summary = dashboard_summary(&counts_of_demo_timeline(), Some("unix:1".to_string()));

    assert_eq!(summary.total_events, 7);
    assert_eq!(summary.warnings, 3);
    assert_eq!(summary.critical, 1);
    assert_eq!(summary.process_events, 1);
    assert!(summary.demo_data_only);
}

#[test]
fn event_row_reads_back_as_the_stored_event() {
    let event = mock_process_event(1);
    let row = event_to_row(&event);
    assert_eq!(row.kind, "process");
    assert_eq!(row.source, "mock");
    assert_eq!(row.process_pid, Some(4242));

    let back = event_from_row(row, None).expect("a stored row reads back");

    assert_eq!(back.kind, EventKind::Process);
    assert_eq!(back.source, EventSource::Mock);
    assert_eq!(back.id, event.id);
    assert_eq!(back.process, event.process);
    assert_eq!(back.confidence, None);
}

#[test]
fn event_filter_by_kind_and_severity() {
    let filter = event_filter(&EventQuery {
        kind: Some(EventKind::Network),
        severity: Some(EventSeverity::Warning),
        text: None,
        limit: Some(10),
    });

    assert_eq!(filter.kind.as_deref(), Some("network"));
    assert_eq!(filter.severity.as_deref(), Some("warning"));
    assert_eq!(filter.text_pattern, None);
    assert_eq!(filter.limit, 10);
}

#[test]
fn event_filter_searches_trimmed_text() {
    let filter = event_filter(&EventQuery {
        kind: None,
        severity: None,
        text: Some("example.invalid".to_string()),
        limit: Some(10),
    });

    assert_eq!(filter.text_pattern.as_deref(), Some("%example.invalid%"));
    let network = mock_network_event(1);
    assert!(network.target.as_deref().unwrap_or("").contains("example.invalid")
        || network.summary.contains("example.invalid")
        || network.title.contains("example.invalid"));
}

#[test]
fn action_history_row_reads_back_as_the_recorded_result() {
    let request = ActionRequest::new(ActionKind::RevealPath, "C:\\Demo", "Demo folder", "files", 1);
    let plan = PolicyEngine::plan_action(request);
    let result = ActionResult::from_plan(&plan, ActionStatus::DryRun, "Dry run only.");

    let row = action_result_to_row(&result);
    assert_eq!(row.action_type, "reveal_path");
    assert_eq!(row.risk_level, "safe");
    assert_eq!(row.result, "dry_run");
    let fetched = action_result_from_row(row, None).expect("a recorded row reads back");

    assert_eq!(fetched.kind, ActionKind::RevealPath);
    assert_eq!(fetched.status, ActionStatus::DryRun);
    assert_eq!(fetched, result);
}

#[test]
fn action_history_filter_by_kind_status_and_text() {
    let filter = action_history_filter(&ActionHistoryQuery {
        kind: Some(ActionKind::RevealPath),
        status: Some(ActionStatus::DryRun),
        text: Some("Demo".to_string()),
        limit: Some(10),
    });

    assert_eq!(filter.kind.as_deref(), Some("reveal_path"));
    assert_eq!(filter.status.as_deref(), Some("dry_run"));
    assert_eq!(filter.text_pattern.as_deref(), Some("%Demo%"));
    assert_eq!(filter.limit, 10);
}

#[test]
fn action_history_rows_keep_each_status() {
    for (kind, status, message) in [
        (ActionKind::RevealPath, ActionStatus::Succeeded, "Opened local path."),
        (ActionKind::KillProcess, ActionStatus::Denied, "Denied by policy."),
        (ActionKind::DetectFileLockers, ActionStatus::Unsupported, "Unsupported in this package."),
    ] {
        let request = ActionRequest::new(kind, kind.as_str(), kind.as_str(), "tests", 1);
        let plan = PolicyEngine::plan_action(request);
        let result = ActionResult::from_plan(&plan, status, message);
        let back = action_result_from_row(action_result_to_row(&result), None)
            .expect("a recorded row reads back");
        assert_eq!(back.status, status);
        assert_eq!(back.kind, kind);
        assert_eq!(back.message, message);
    }
}

#[test]
fn startup_backup_filter_by_entry() {
    let filter = startup_backup_filter(&StartupBackupQuery {
        entry_id: Some("entry-2".to_string()),
        source: None,
        limit: Some(10),
    });

    assert_eq!(filter.entry_id.as_deref(), Some("entry-2"));
    assert_eq!(filter.source, None);
    assert_eq!(filter.limit, 10);
}

// ---------------------------------------------------------------------------
// Further cases
// ---------------------------------------------------------------------------

#[test]
fn storage_is_local_only_without_user_identifiers() {
    let plan = v1_database_plan();
    assert_eq!(plan.mode, StorageMode::LocalOnly);
    assert!(plan.stores_events);
    assert!(!plan.stores_user_identifiers);
}

#[test]
fn limits_default_and_are_clamped() {
    assert_eq!(event_filter(&EventQuery::default()).limit, 100);
    let q = |limit| EventQuery { kind: None, severity: None, text: None, limit };
    assert_eq!(event_filter(&q(Some(0))).limit, 1);
    assert_eq!(event_filter(&q(Some(9999))).limit, 500);
    assert_eq!(action_history_filter(&ActionHistoryQuery::default()).limit, 50);
    assert_eq!(startup_backup_filter(&StartupBackupQuery::default()).limit, 50);
}

#[test]
fn blank_text_is_no_search_and_text_is_trimmed() {
    let q = |text: &str| EventQuery {
        kind: None,
        severity: None,
        text: Some(text.to_string()),
        limit: None,
    };
    assert_eq!(event_filter(&q("   ")).text_pattern, None);
    assert_eq!(event_filter(&q("  svc  ")).text_pattern.as_deref(), Some("%svc%"));
    let backups = startup_backup_filter(&StartupBackupQuery {
        entry_id: Some("  entry-1 ".to_string()),
        source: Some("\t".to_string()),
        limit: None,
    });
    assert_eq!(backups.entry_id.as_deref(), Some("entry-1"));
    assert_eq!(backups.source, None);
}

#[test]
fn summary_with_live_events_is_not_demo_only() {
    let mut counts = counts_of_demo_timeline();
    counts.not_mock = 2;
    let summary = dashboard_summary(&counts, None);
    assert!(!summary.demo_data_only);
    assert!(summary.latest_event_timestamp.is_none());
}

#[test]
fn unknown_names_in_rows_are_reported_by_column() {
    let mut row = event_to_row(&mock_process_event(1));
    row.severity = "loud".to_string();
    assert_eq!(
        event_from_row(row.clone(), None),
        Err(RowError::Event { column: 3, error: EventParseError::UnknownSeverity("loud".to_string()) })
    );
    row.kind = "weird".to_string();
    assert_eq!(
        event_from_row(row, None),
        Err(RowError::Event { column: 2, error: EventParseError::UnknownKind("weird".to_string()) })
    );

    let plan = PolicyEngine::plan_action(ActionRequest::new(
        ActionKind::RevealPath,
        "C:\\Demo",
        "Demo",
        "files",
        1,
    ));
    let mut action_row = action_result_to_row(&ActionResult::from_plan(
        &plan,
        ActionStatus::Failed,
        "x",
    ));
    action_row.result = "exploded".to_string();
    assert_eq!(
        action_result_from_row(action_row, None),
        Err(RowError::Action {
            column: 5,
            error: ActionParseError::UnknownStatus("exploded".to_string())
        })
    );
}

#[test]
fn rows_without_times_or_message_read_with_defaults() {
    let plan = PolicyEngine::plan_action(ActionRequest::new(
        ActionKind::RevealPath,
        "C:\\Demo",
        "Demo",
        "files",
        1,
    ));
    let mut row =
        action_result_to_row(&ActionResult::from_plan(&plan, ActionStatus::Succeeded, "ok"));
    row.started_at = None;
    row.finished_at = None;
    row.message = None;
    let back = action_result_from_row(row, None).expect("readable");
    assert_eq!(back.started_at, back.finished_at);
    assert!(back.started_at.starts_with("unix:"));
    assert_eq!(back.message, "");
}

#[test]
fn out_of_range_pid_reads_as_unknown() {
    let mut row = event_to_row(&mock_process_event(1));
    row.process_pid = Some(-5);
    let back = event_from_row(row, None).expect("readable");
    let process = back.process.expect("the process name is stored");
    assert_eq!(process.pid, None);
    assert_eq!(process.name, "demo-browser.exe");
}

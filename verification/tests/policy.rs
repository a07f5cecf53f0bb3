use jsentinel::json::{member, JsonNumber, JsonValue};
use jsentinel::policy::{
    action_id_at, cancellation_result, evaluate_placeholder, request_has_pid_metadata,
    request_has_startup_backup_available, ActionAvailability, ActionDecision, ActionKind,
    ActionParseError, ActionRequest, ActionResult, ActionRisk, ActionRiskLevel, ActionStatus,
    PolicyEngine, StartupEntryTarget, FILE_LOCKERS_REASON, FUTURE_ACTION_REASON,
    KILL_WITHOUT_PID_REASON, STARTUP_DISABLE_PLANNED_REASON, STARTUP_RESTORE_PLANNED_REASON,
};

fn demo_target() -> StartupEntryTarget {
    StartupEntryTarget {
        entry_id: "entry-1".to_string(),
        name: "Demo".to_string(),
        source: "HKCU Run".to_string(),
        scope: "CurrentUser".to_string(),
        command: Some("demo.exe".to_string()),
        path: Some("C:\\Demo\\demo.exe".to_string()),
        enabled: Some(true),
        original_location: Some("HKCU Run".to_string()),
        metadata_json: None,
    }
}

#[test]
fn classify_risk_for_safe_and_dangerous_actions() {
    assert_eq!(PolicyEngine::classify_risk(ActionKind::RevealPath), ActionRiskLevel::Safe);
    assert_eq!(PolicyEngine::classify_risk(ActionKind::KillProcess), ActionRiskLevel::Dangerous);
}

#[test]
fn safe_action_requires_confirmation() {
    let request = ActionRequest::new(ActionKind::RevealPath, "C:\\Demo", "Demo folder", "files", 1);
    let plan = PolicyEngine::plan_action(request);

    assert_eq!(plan.availability, ActionAvailability::Available);
    assert!(plan.requires_confirmation);
    assert!(!plan.irreversible);
}

#[test]
fn dangerous_action_is_planned_not_executable() {
    let request = ActionRequest::new(ActionKind::BlockNetwork, "tcp:443", "TCP 443", "network", 1);
    let plan = PolicyEngine::plan_action(request);

    assert_eq!(plan.availability, ActionAvailability::Planned);
    assert!(!plan.requires_confirmation);
    assert!(plan.disabled_reason.is_some());
}

#[test]
fn kill_process_requires_pid_metadata() {
    let request = ActionRequest::new(ActionKind::KillProcess, "42", "PID 42", "processes", 1);
    let plan = PolicyEngine::plan_action(request);

    assert_eq!(plan.availability, ActionAvailability::Disabled);
    assert!(!plan.requires_confirmation);
    assert!(plan.disabled_reason.is_some());
}

#[test]
fn kill_process_with_pid_metadata_requires_confirmation() {
    let mut request =
        ActionRequest::new(ActionKind::KillProcess, "42", "Demo process", "processes", 1);
    request.metadata_json = Some(JsonValue::Object(vec![
        member("pid", JsonValue::Number(JsonNumber::PosInt(42))),
        member("process_name", JsonValue::Str("demo.exe".to_string())),
    ]));
    let plan = PolicyEngine::plan_action(request);

    assert_eq!(plan.request.risk_level, ActionRiskLevel::Dangerous);
    assert_eq!(plan.availability, ActionAvailability::RequiresConfirmation);
    assert!(plan.requires_confirmation);
    assert!(plan.irreversible);
    assert!(!plan.can_undo);
}

#[test]
fn startup_actions_are_caution_and_planned() {
    let disable_request =
        ActionRequest::new(ActionKind::DisableStartup, "entry-1", "Demo", "startup", 1);
    let restore_request =
        ActionRequest::new(ActionKind::RestoreStartup, "entry-1", "Demo", "startup", 2);
    let disable_plan = PolicyEngine::plan_action(disable_request);
    let restore_plan = PolicyEngine::plan_action(restore_request);

    assert_eq!(disable_plan.request.risk_level, ActionRiskLevel::Caution);
    assert_eq!(restore_plan.request.risk_level, ActionRiskLevel::Caution);
    assert_eq!(disable_plan.availability, ActionAvailability::Planned);
    assert_eq!(restore_plan.availability, ActionAvailability::Planned);
    assert!(disable_plan.requires_confirmation);
    assert!(restore_plan.requires_confirmation);
    assert!(disable_plan.disabled_reason.is_some());
    assert!(restore_plan.disabled_reason.is_some());
}

#[test]
fn startup_specific_plan_tracks_backup_requirements() {
    let target = demo_target();
    let disable =
        PolicyEngine::plan_startup_action(target.clone(), ActionKind::DisableStartup, false);
    let restore = PolicyEngine::plan_startup_action(target, ActionKind::RestoreStartup, true);

    assert!(disable.backup_required);
    assert!(!disable.backup_available);
    assert!(!restore.backup_required);
    assert!(restore.backup_available);
    assert!(disable.disabled_reason.is_some());
    assert!(restore.disabled_reason.is_some());
}

// ---------------------------------------------------------------------------
// Further cases
// ---------------------------------------------------------------------------

#[test]
fn only_three_kinds_are_enabled() {
    let all = [
        ActionKind::RevealPath,
        ActionKind::OpenWindowsSettings,
        ActionKind::KillProcess,
        ActionKind::BlockNetwork,
        ActionKind::DisableStartup,
        ActionKind::RestoreStartup,
        ActionKind::QuarantineFile,
        ActionKind::DetectFileLockers,
    ];
    let enabled: Vec<ActionKind> =
        all.iter().copied().filter(|k| PolicyEngine::is_action_enabled(*k)).collect();
    assert_eq!(
        enabled,
        vec![ActionKind::RevealPath, ActionKind::OpenWindowsSettings, ActionKind::KillProcess]
    );
}

#[test]
fn disabled_reasons_follow_the_kind() {
    let lockers = PolicyEngine::plan_action(ActionRequest::new(
        ActionKind::DetectFileLockers,
        "C:\\a.txt",
        "a",
        "files",
        1,
    ));
    assert_eq!(lockers.availability, ActionAvailability::Unsupported);
    assert_eq!(lockers.disabled_reason.as_deref(), Some(FILE_LOCKERS_REASON));

    let quarantine = PolicyEngine::plan_action(ActionRequest::new(
        ActionKind::QuarantineFile,
        "C:\\a.txt",
        "a",
        "files",
        2,
    ));
    assert_eq!(quarantine.disabled_reason.as_deref(), Some(FUTURE_ACTION_REASON));

    let kill = PolicyEngine::plan_action(ActionRequest::new(
        ActionKind::KillProcess,
        "42",
        "PID 42",
        "processes",
        3,
    ));
    assert_eq!(kill.disabled_reason.as_deref(), Some(KILL_WITHOUT_PID_REASON));

    let disable = PolicyEngine::plan_action(ActionRequest::new(
        ActionKind::DisableStartup,
        "entry-1",
        "Demo",
        "startup",
        4,
    ));
    assert_eq!(disable.disabled_reason.as_deref(), Some(STARTUP_DISABLE_PLANNED_REASON));
    let restore = PolicyEngine::plan_startup_action(demo_target(), ActionKind::RestoreStartup, false);
    assert_eq!(restore.disabled_reason.as_deref(), Some(STARTUP_RESTORE_PLANNED_REASON));
}

#[test]
fn names_round_trip_and_unknown_names_are_rejected() {
    for kind in [ActionKind::RevealPath, ActionKind::KillProcess, ActionKind::DetectFileLockers] {
        assert_eq!(ActionKind::parse(kind.as_str()), Ok(kind));
    }
    assert_eq!(ActionKind::KillProcess.as_str(), "kill_process");
    assert_eq!(ActionStatus::parse("dry_run"), Ok(ActionStatus::DryRun));
    assert_eq!(ActionRiskLevel::parse("caution"), Ok(ActionRiskLevel::Caution));
    assert_eq!(
        ActionKind::parse("format_disk"),
        Err(ActionParseError::UnknownKind("format_disk".to_string()))
    );
    assert_eq!(
        ActionStatus::parse("maybe"),
        Err(ActionParseError::UnknownStatus("maybe".to_string()))
    );
    assert_eq!(
        ActionRiskLevel::parse("extreme"),
        Err(ActionParseError::UnknownRisk("extreme".to_string()))
    );
    assert_eq!(
        ActionParseError::UnknownKind("x".to_string()).message(),
        "unknown action kind: x"
    );
}

#[test]
fn action_ids_are_numbered() {
    assert_eq!(action_id_at(1700000000, 7), "action-1700000000-7");
    let request = ActionRequest::new(ActionKind::RevealPath, "C:\\Demo", "Demo", "files", 12);
    assert!(request.id.starts_with("action-"));
    assert!(request.id.ends_with("-12"));
    assert!(request.requested_at.starts_with("unix:"));
}

#[test]
fn results_record_the_plan_and_status() {
    let plan = PolicyEngine::plan_action(ActionRequest::new(
        ActionKind::RevealPath,
        "C:\\Demo",
        "Demo folder",
        "files",
        1,
    ));
    let result = ActionResult::from_plan(&plan, ActionStatus::DryRun, "Dry run only.");
    assert_eq!(result.request_id, plan.request.id);
    assert_eq!(result.kind, ActionKind::RevealPath);
    assert_eq!(result.target, "C:\\Demo");
    assert_eq!(result.status, ActionStatus::DryRun);
    assert_eq!(result.message, "Dry run only.");
    assert_eq!(result.started_at, result.finished_at);
    assert!(result.error.is_none());

    let cancelled = cancellation_result("action-1-1");
    assert_eq!(cancelled.request_id, "action-1-1");
    assert_eq!(cancelled.status, ActionStatus::Cancelled);
}

#[test]
fn metadata_flags_are_read_from_the_request() {
    let mut request = ActionRequest::new(ActionKind::RestoreStartup, "entry-1", "Demo", "startup", 1);
    assert!(!request_has_pid_metadata(&request));
    assert!(!request_has_startup_backup_available(&request));
    request.metadata_json = Some(JsonValue::Object(vec![
        member("pid", JsonValue::Number(JsonNumber::PosInt(7))),
        member("backup_available", JsonValue::Bool(true)),
    ]));
    assert!(request_has_pid_metadata(&request));
    assert!(request_has_startup_backup_available(&request));
}

#[test]
fn placeholder_policy_blocks_destructive_actions() {
    assert_eq!(evaluate_placeholder(ActionRisk::ReadOnly).decision, ActionDecision::AllowReadOnly);
    assert_eq!(
        evaluate_placeholder(ActionRisk::Reversible).decision,
        ActionDecision::RequireConfirmation
    );
    assert_eq!(evaluate_placeholder(ActionRisk::Destructive).decision, ActionDecision::BlockInV1);
    assert_eq!(evaluate_placeholder(ActionRisk::Privileged).decision, ActionDecision::BlockInV1);
}

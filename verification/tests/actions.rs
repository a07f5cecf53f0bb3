use jsentinel::actions::{
    allowed_windows_settings_uris, evaluate_kill_process_safety,
    finish_reveal_validation, is_allowed_windows_settings_uri, is_hard_denied_process_name,
    is_self_or_parent_process, is_windows_directory_path, is_windows_system_path,
    kill_process_target_from_request, settings_uri_from_request, KillProcessSafetyCheck,
    KillProcessTarget, PathInspection, SafeActionAdapter, SafeActionError, SafeActionExecutor,
    ValidatedRevealPath,
};
use jsentinel::actions::{after_precheck, validate_reveal_path};
use jsentinel::policy::{PolicyEngine};
use jsentinel::json::{json_str, member, JsonNumber, JsonValue};
use jsentinel::policy::{
    ActionAvailability, ActionKind, ActionRequest, ActionRiskLevel, ActionStatus,
};
use std::cell::RefCell;

#[derive(Default)]
struct MockAdapter {
    revealed: RefCell<Vec<String>>,
    settings: RefCell<Vec<String>>,
    killed: RefCell<Vec<u32>>,
}

#[derive(Default)]
struct FailingKillAdapter;

impl SafeActionAdapter for MockAdapter {
    fn inspect_path(&self, path: &str) -> PathInspection {
        PathInspection::Resolved { canonical: path.to_string(), is_file: false }
    }

    fn reveal_path(&self, target: &ValidatedRevealPath) -> Result<(), SafeActionError> {
        self.revealed.borrow_mut().push(target.path.clone());
        Ok(())
    }

    fn open_windows_settings(&self, uri: &str) -> Result<(), SafeActionError> {
        self.settings.borrow_mut().push(uri.to_string());
        Ok(())
    }

    fn precheck_kill_process(&self, target: &KillProcessTarget) -> KillProcessSafetyCheck {
        evaluate_kill_process_safety(target, 9000, Some(9001))
    }

    fn kill_process(
        &self,
        target: &KillProcessTarget,
    ) -> Result<KillProcessSafetyCheck, SafeActionError> {
        self.killed.borrow_mut().push(target.pid);
        Ok(self.precheck_kill_process(target))
    }
}

impl SafeActionAdapter for FailingKillAdapter {
    fn inspect_path(&self, path: &str) -> PathInspection {
        PathInspection::Resolved { canonical: path.to_string(), is_file: false }
    }

    fn reveal_path(&self, _target: &ValidatedRevealPath) -> Result<(), SafeActionError> {
        Ok(())
    }

    fn open_windows_settings(&self, _uri: &str) -> Result<(), SafeActionError> {
        Ok(())
    }

    fn precheck_kill_process(&self, target: &KillProcessTarget) -> KillProcessSafetyCheck {
        evaluate_kill_process_safety(target, 9000, Some(9001))
    }

    fn kill_process(
        &self,
        _target: &KillProcessTarget,
    ) -> Result<KillProcessSafetyCheck, SafeActionError> {
        Err(SafeActionError::OsError("mock terminate process failure".to_string()))
    }
}

/// An adapter over a filesystem that holds nothing.
struct EmptyFilesystem;

impl SafeActionAdapter for EmptyFilesystem {
    fn inspect_path(&self, _path: &str) -> PathInspection {
        PathInspection::Missing
    }

    fn reveal_path(&self, _target: &ValidatedRevealPath) -> Result<(), SafeActionError> {
        Ok(())
    }

    fn open_windows_settings(&self, _uri: &str) -> Result<(), SafeActionError> {
        Ok(())
    }

    fn precheck_kill_process(&self, target: &KillProcessTarget) -> KillProcessSafetyCheck {
        evaluate_kill_process_safety(target, 9000, Some(9001))
    }

    fn kill_process(
        &self,
        _target: &KillProcessTarget,
    ) -> Result<KillProcessSafetyCheck, SafeActionError> {
        Err(SafeActionError::OsError("nothing to kill".to_string()))
    }
}

fn object(members: Vec<jsentinel::json::JsonMember>) -> JsonValue {
    JsonValue::Object(members)
}

fn number(n: u64) -> JsonValue {
    JsonValue::Number(JsonNumber::PosInt(n))
}


#[test]
fn policy_marks_safe_actions_available_with_confirmation() {
    let executor = SafeActionExecutor::new(MockAdapter::default());
    let reveal_plan = executor.plan_action(ActionRequest::new(
        ActionKind::RevealPath,
        ".",
        "Current directory",
        "files",
        1,
    ));
    let settings_plan = executor.plan_action(ActionRequest::new(
        ActionKind::OpenWindowsSettings,
        "ms-settings:privacy",
        "Privacy settings",
        "settings",
        2,
    ));

    assert_eq!(reveal_plan.availability, ActionAvailability::Available);
    assert_eq!(settings_plan.availability, ActionAvailability::Available);
    assert!(reveal_plan.requires_confirmation);
    assert!(settings_plan.requires_confirmation);
    assert_eq!(reveal_plan.request.risk_level, ActionRiskLevel::Safe);
}

#[test]
fn dangerous_actions_stay_planned_and_disabled() {
    let executor = SafeActionExecutor::new(MockAdapter::default());
    let result = executor.execute(ActionRequest::new(
        ActionKind::BlockNetwork,
        "tcp:443",
        "TCP 443",
        "network",
        1,
    ));

    assert_eq!(result.status, ActionStatus::Denied);
    assert!(result.error.is_some());
}

#[test]
fn kill_process_missing_pid_metadata_is_denied() {
    let executor = SafeActionExecutor::new(MockAdapter::default());
    let result = executor.execute(ActionRequest::new(
        ActionKind::KillProcess,
        "demo.exe",
        "Demo process",
        "processes",
        1,
    ));

    assert_eq!(result.status, ActionStatus::Denied);
}

#[test]
fn settings_allowlist_accepts_known_pages() {
    assert!(is_allowed_windows_settings_uri("ms-settings:privacy"));
    assert!(is_allowed_windows_settings_uri("MS-SETTINGS:PRIVACY-MICROPHONE"));
}

#[test]
fn settings_allowlist_rejects_arbitrary_urls_and_commands() {
    for value in [
        "http://example.com",
        "https://example.com",
        "file:///C:/Windows/System32/cmd.exe",
        "cmd.exe",
        "powershell.exe",
        "powershell",
        "ms-settings:../../cmd",
        "ms-settings:privacy;cmd",
        "shell:AppsFolder",
        "javascript:alert(1)",
        " ms-settings:privacy",
        "ms-settings:privacy ",
        "ms-settings:privacy\0",
    ] {
        assert!(!is_allowed_windows_settings_uri(value));
    }
}

#[test]
fn reveal_path_validation_rejects_empty_target() {
    let error = validate_reveal_path(&MockAdapter::default(), "")
        .expect_err("empty path must be rejected");

    assert!(matches!(error, SafeActionError::InvalidTarget(_)));
}

#[test]
fn reveal_path_validation_rejects_url_targets() {
    for target in [
        "http://example.com",
        "https://example.com",
        "file:///C:/Windows/System32/cmd.exe",
        "ms-settings:privacy",
        "shell:AppsFolder",
        "cmd.exe",
        "powershell.exe",
        "cmd:dir",
        "powershell:Start-Process",
        "javascript:alert(1)",
    ] {
        let error = validate_reveal_path(&MockAdapter::default(), target)
            .expect_err("URL target must be rejected");

        assert!(matches!(error, SafeActionError::InvalidTarget(_)));
    }
}

#[test]
fn reveal_path_validation_rejects_unc_and_null_targets() {
    for target in ["\\\\server\\share", "//server/share", "C:\\Temp\0file.txt"] {
        let error = validate_reveal_path(&MockAdapter::default(), target)
            .expect_err("target must be rejected");

        assert!(matches!(error, SafeActionError::InvalidTarget(_)));
    }
}

#[test]
fn reveal_path_validation_rejects_nonexistent_path() {
    let error = validate_reveal_path(&EmptyFilesystem, "C:\\Temp\\jsentinel-definitely-missing-path-for-test")
        .expect_err("missing path must be rejected");

    assert!(matches!(error, SafeActionError::InvalidTarget(_)));
}

#[test]
fn executor_opens_allowlisted_settings_with_mock_adapter() {
    let executor = SafeActionExecutor::new(MockAdapter::default());
    let mut request =
        ActionRequest::new(ActionKind::OpenWindowsSettings, "", "Privacy settings", "settings", 1);
    request.metadata_json =
        Some(object(vec![member("settings_page", json_str("ms-settings:privacy"))]));

    let result = executor.execute(request);

    assert_eq!(result.status, ActionStatus::Succeeded);
}

#[test]
fn executor_denies_non_allowlisted_settings_target() {
    let executor = SafeActionExecutor::new(MockAdapter::default());
    let result = executor.execute(ActionRequest::new(
        ActionKind::OpenWindowsSettings,
        "https://example.com",
        "External URL",
        "settings",
        1,
    ));

    assert_eq!(result.status, ActionStatus::Denied);
}

#[test]
fn executor_denies_whitespace_padded_settings_metadata() {
    let executor = SafeActionExecutor::new(MockAdapter::default());
    let mut request =
        ActionRequest::new(ActionKind::OpenWindowsSettings, "", "Privacy settings", "settings", 1);
    request.metadata_json =
        Some(object(vec![member("settings_page", json_str(" ms-settings:privacy "))]));

    let result = executor.execute(request);

    assert_eq!(result.status, ActionStatus::Denied);
}

#[test]
fn executor_returns_unsupported_for_unsupported_action() {
    let executor = SafeActionExecutor::new(MockAdapter::default());
    let result = executor.execute(ActionRequest::new(
        ActionKind::DetectFileLockers,
        "C:\\Demo\\locked.txt",
        "Locked file",
        "files",
        1,
    ));

    assert_eq!(result.status, ActionStatus::Unsupported);
    assert!(result.error.is_some());
}

#[test]
fn kill_safety_denies_pid_zero_current_and_parent() {
    let target = KillProcessTarget {
        pid: 0,
        process_name: Some("demo.exe".to_string()),
        process_path: Some("C:\\Users\\Demo\\demo.exe".to_string()),
        command_line: None,
    };
    assert!(!evaluate_kill_process_safety(&target, 100, Some(200)).allowed);

    let target = KillProcessTarget { pid: 100, ..target };
    assert!(!evaluate_kill_process_safety(&target, 100, Some(200)).allowed);

    let target = KillProcessTarget { pid: 200, ..target };
    assert!(!evaluate_kill_process_safety(&target, 100, Some(200)).allowed);
}

#[test]
fn kill_safety_denies_critical_names_and_system_paths() {
    for name in ["System", "lsass.exe", "svchost.exe", "conhost.exe", "explorer.exe"] {
        let target = KillProcessTarget {
            pid: 42,
            process_name: Some(name.to_string()),
            process_path: Some(format!("C:\\Users\\Demo\\{name}")),
            command_line: None,
        };

        assert!(!evaluate_kill_process_safety(&target, 100, None).allowed);
    }

    let system_path_target = KillProcessTarget {
        pid: 42,
        process_name: Some("demo.exe".to_string()),
        process_path: Some("C:\\Windows\\System32\\demo.exe".to_string()),
        command_line: None,
    };
    assert!(!evaluate_kill_process_safety(&system_path_target, 100, None).allowed);

    let windows_path_target = KillProcessTarget {
        pid: 42,
        process_name: Some("demo.exe".to_string()),
        process_path: Some("C:\\Windows\\Temp\\demo.exe".to_string()),
        command_line: None,
    };
    assert!(!evaluate_kill_process_safety(&windows_path_target, 100, None).allowed);
}

#[test]
fn kill_safety_denies_unknown_or_unverified_target() {
    for target in [
        KillProcessTarget {
            pid: 42,
            process_name: None,
            process_path: Some("C:\\Users\\Demo\\demo.exe".to_string()),
            command_line: None,
        },
        KillProcessTarget {
            pid: 42,
            process_name: Some("pid-42".to_string()),
            process_path: Some("C:\\Users\\Demo\\demo.exe".to_string()),
            command_line: None,
        },
        KillProcessTarget {
            pid: 42,
            process_name: Some("unknown".to_string()),
            process_path: Some("C:\\Users\\Demo\\demo.exe".to_string()),
            command_line: None,
        },
        KillProcessTarget {
            pid: 42,
            process_name: Some("demo.exe".to_string()),
            process_path: None,
            command_line: None,
        },
    ] {
        assert!(!evaluate_kill_process_safety(&target, 100, None).allowed);
    }
}

#[test]
fn kill_safety_allows_mock_user_process() {
    let target = KillProcessTarget {
        pid: 42,
        process_name: Some("demo.exe".to_string()),
        process_path: Some("C:\\Users\\Demo\\AppData\\Local\\Demo\\demo.exe".to_string()),
        command_line: Some("demo.exe".to_string()),
    };

    assert!(evaluate_kill_process_safety(&target, 100, Some(200)).allowed);
}

#[test]
fn executor_kill_process_success_with_mock_adapter() {
    let executor = SafeActionExecutor::new(MockAdapter::default());
    let mut request =
        ActionRequest::new(ActionKind::KillProcess, "42", "Demo process", "processes", 1);
    request.metadata_json = Some(object(vec![
        member("pid", number(42)),
        member("process_name", json_str("demo.exe")),
        member("process_path", json_str("C:\\Users\\Demo\\demo.exe")),
        member("command_line", json_str("demo.exe --sensitive-token-placeholder")),
    ]));

    let result = executor.execute(request);

    assert_eq!(result.status, ActionStatus::Succeeded);
    let metadata = result.metadata_json.expect("kill metadata is recorded");
    assert_eq!(metadata.get("pid").and_then(|v| v.as_u64()), Some(42));
    assert!(metadata.get("command_line").is_none());
}

#[test]
fn executor_kill_process_denied_path_writes_denied_result() {
    let executor = SafeActionExecutor::new(MockAdapter::default());
    let mut request = ActionRequest::new(ActionKind::KillProcess, "0", "PID 0", "processes", 1);
    request.metadata_json = Some(object(vec![
        member("pid", number(0)),
        member("process_name", json_str("System")),
        member("process_path", json_str("C:\\Windows\\System32\\System")),
    ]));

    let result = executor.execute(request);

    assert_eq!(result.status, ActionStatus::Denied);
    assert!(result.error.is_some());
    assert!(result.metadata_json.is_some());
    let safety = result.metadata_json.as_ref().and_then(|m| m.get("safety")).expect("safety recorded");
    assert_eq!(safety.get("allowed").and_then(|v| v.as_bool()), Some(false));
}

#[test]
fn executor_kill_process_os_error_writes_failed_result() {
    let executor = SafeActionExecutor::new(FailingKillAdapter);
    let mut request =
        ActionRequest::new(ActionKind::KillProcess, "42", "Demo process", "processes", 1);
    request.metadata_json = Some(object(vec![
        member("pid", number(42)),
        member("process_name", json_str("demo.exe")),
        member("process_path", json_str("C:\\Users\\Demo\\demo.exe")),
    ]));

    let result = executor.execute(request);

    assert_eq!(result.status, ActionStatus::Failed);
    assert!(result.error.is_some());
    assert!(result.metadata_json.is_some());
}

#[test]
fn executor_reveals_existing_path_with_mock_adapter() {
    let adapter = MockAdapter::default();
    let executor = SafeActionExecutor::new(adapter);
    let result = executor.execute(ActionRequest::new(
        ActionKind::RevealPath,
        "C:\\Users\\Demo\\Documents",
        "Temp directory",
        "files",
        1,
    ));

    assert_eq!(result.status, ActionStatus::Succeeded);
}

// ---------------------------------------------------------------------------
// Further cases
// ---------------------------------------------------------------------------

#[test]
fn allowlist_lists_the_privacy_pages() {
    let uris = allowed_windows_settings_uris();
    assert!(uris.contains(&"ms-settings:privacy"));
    assert!(uris.contains(&"ms-settings:privacy-microphone"));
    for uri in uris {
        assert!(is_allowed_windows_settings_uri(uri));
    }
}

#[test]
fn self_and_parent_processes_are_recognised() {
    assert!(is_self_or_parent_process(100, 100, None));
    assert!(is_self_or_parent_process(200, 100, Some(200)));
    assert!(!is_self_or_parent_process(300, 100, Some(200)));
}

#[test]
fn critical_names_are_matched_without_case_or_path() {
    assert!(is_hard_denied_process_name("LSASS.EXE"));
    assert!(is_hard_denied_process_name("  winlogon.exe  "));
    assert!(!is_hard_denied_process_name("notepad.exe"));
}

#[test]
fn windows_paths_are_recognised_with_either_separator() {
    assert!(is_windows_system_path("c:/windows/system32/demo.exe"));
    assert!(is_windows_directory_path("C:\\Windows\\Temp\\demo.exe"));
    assert!(!is_windows_system_path("C:\\Windows\\Temp\\demo.exe"));
    assert!(!is_windows_directory_path("C:\\Users\\Demo\\demo.exe"));
}

#[test]
fn denied_kill_check_explains_and_stays_dangerous() {
    let target = KillProcessTarget {
        pid: 0,
        process_name: Some("demo.exe".to_string()),
        process_path: Some("C:\\Users\\Demo\\demo.exe".to_string()),
        command_line: None,
    };
    let check = evaluate_kill_process_safety(&target, 100, None);
    assert!(!check.allowed);
    assert!(check.requires_confirmation);
    assert_eq!(check.risk_level, ActionRiskLevel::Dangerous);
    assert_eq!(check.reason, check.protected_reason);
    assert!(check.reason.is_some());
}

#[test]
fn settings_page_is_read_from_metadata_before_target() {
    let mut request = ActionRequest::new(
        ActionKind::OpenWindowsSettings,
        "ms-settings:privacy-webcam",
        "Camera",
        "settings",
        1,
    );
    assert_eq!(
        settings_uri_from_request(&request).as_deref(),
        Some("ms-settings:privacy-webcam")
    );
    request.metadata_json =
        Some(object(vec![member("settings_page", json_str("ms-settings:privacy"))]));
    assert_eq!(settings_uri_from_request(&request).as_deref(), Some("ms-settings:privacy"));
}

#[test]
fn kill_target_is_read_from_metadata() {
    let mut request =
        ActionRequest::new(ActionKind::KillProcess, "42", "Demo process", "processes", 1);
    assert!(kill_process_target_from_request(&request).is_none());
    request.metadata_json = Some(object(vec![
        member("pid", number(42)),
        member("process_name", json_str("demo.exe")),
        member("command_line", json_str("demo.exe --flag")),
    ]));
    let target = kill_process_target_from_request(&request).expect("target");
    assert_eq!(target.pid, 42);
    assert_eq!(target.process_name.as_deref(), Some("demo.exe"));
    assert_eq!(target.process_path, None);
    assert_eq!(target.command_line.as_deref(), Some("demo.exe --flag"));
}

#[test]
fn reveal_validation_reports_each_inspection_outcome() {
    assert!(matches!(
        finish_reveal_validation(PathInspection::CanonicalizeFailed("no access".to_string())),
        Err(SafeActionError::InvalidTarget(_))
    ));
    assert!(matches!(
        finish_reveal_validation(PathInspection::MetadataFailed("no access".to_string())),
        Err(SafeActionError::InvalidTarget(_))
    ));
    let validated = finish_reveal_validation(PathInspection::Resolved {
        canonical: "C:\\Demo\\a.txt".to_string(),
        is_file: true,
    })
    .expect("resolved path is valid");
    assert_eq!(validated.path, "C:\\Demo\\a.txt");
    assert!(validated.select_file);
}

#[test]
fn reveal_of_unsafe_target_fails_without_calling_adapter() {
    let adapter = MockAdapter::default();
    let executor = SafeActionExecutor::new(adapter);
    let result = executor.execute(ActionRequest::new(
        ActionKind::RevealPath,
        "https://example.com",
        "URL",
        "files",
        1,
    ));
    assert_eq!(result.status, ActionStatus::Failed);
    assert_eq!(result.error.as_deref(), Some(result.message.as_str()));
}

#[test]
fn error_messages_are_the_carried_text() {
    assert_eq!(SafeActionError::Denied("no".to_string()).message(), "no");
    assert_eq!(SafeActionError::OsError("boom".to_string()).message(), "boom");
}

#[test]
fn explorer_selects_files_and_opens_folders() {
    let file = ValidatedRevealPath { path: "C:\\Demo\\a.txt".to_string(), select_file: true };
    assert_eq!(jsentinel::actions::explorer_argument(&file), "/select,C:\\Demo\\a.txt");
    let folder = ValidatedRevealPath { path: "C:\\Demo".to_string(), select_file: false };
    assert_eq!(jsentinel::actions::explorer_argument(&folder), "C:\\Demo");
}

#[test]
fn a_denying_precheck_ends_the_attempt_and_an_allowing_one_does_not() {
    let plan = PolicyEngine::plan_action(ActionRequest::new(
        ActionKind::KillProcess,
        "4",
        "System",
        "processes",
        1,
    ));
    let target = KillProcessTarget {
        pid: 4,
        process_name: Some("System".to_string()),
        process_path: None,
        command_line: Some("secret".to_string()),
    };
    let denied = evaluate_kill_process_safety(&target, 100, None);
    let result = after_precheck(&plan, &target, &denied).expect("a denial ends the attempt");
    assert_eq!(result.status, ActionStatus::Denied);
    assert_eq!(Some(result.message.clone()), denied.reason);
    assert_eq!(result.error, denied.reason);
    let metadata = result.metadata_json.expect("the check is recorded");
    assert_eq!(metadata.get("pid").and_then(|v| v.as_u64()), Some(4));
    assert!(metadata.get("command_line").is_none());
    assert_eq!(
        metadata.get("safety").and_then(|s| s.get("allowed")).and_then(|v| v.as_bool()),
        Some(false)
    );

    let allowed = KillProcessSafetyCheck::allowed();
    assert!(after_precheck(&plan, &target, &allowed).is_none());
}

#[test]
fn validation_goes_to_the_filesystem_only_for_plain_paths() {
    let ok = validate_reveal_path(&MockAdapter::default(), "C:\\Demo").expect("plain path");
    assert_eq!(ok.path, "C:\\Demo");
    assert!(!ok.select_file);
    assert!(matches!(
        validate_reveal_path(&EmptyFilesystem, "C:\\Demo"),
        Err(SafeActionError::InvalidTarget(m)) if m == "Path does not exist; JSentinel will not create it."
    ));
    assert!(matches!(
        validate_reveal_path(&EmptyFilesystem, " C:\\Demo"),
        Err(SafeActionError::InvalidTarget(m)) if m != "Path does not exist; JSentinel will not create it."
    ));
}

/// An adapter that records every call made to it.
#[derive(Default)]
struct Recorder {
    inspected: RefCell<Vec<String>>,
    revealed: RefCell<Vec<(String, bool)>>,
    settings: RefCell<Vec<String>>,
    prechecked: RefCell<Vec<u32>>,
    killed: RefCell<Vec<u32>>,
}

impl SafeActionAdapter for &Recorder {
    fn inspect_path(&self, path: &str) -> PathInspection {
        self.inspected.borrow_mut().push(path.to_string());
        PathInspection::Resolved { canonical: format!("{path}\\canonical"), is_file: false }
    }

    fn reveal_path(&self, target: &ValidatedRevealPath) -> Result<(), SafeActionError> {
        self.revealed.borrow_mut().push((target.path.clone(), target.select_file));
        Ok(())
    }

    fn open_windows_settings(&self, uri: &str) -> Result<(), SafeActionError> {
        self.settings.borrow_mut().push(uri.to_string());
        Ok(())
    }

    fn precheck_kill_process(&self, target: &KillProcessTarget) -> KillProcessSafetyCheck {
        self.prechecked.borrow_mut().push(target.pid);
        evaluate_kill_process_safety(target, 9000, Some(9001))
    }

    fn kill_process(
        &self,
        target: &KillProcessTarget,
    ) -> Result<KillProcessSafetyCheck, SafeActionError> {
        self.killed.borrow_mut().push(target.pid);
        Ok(KillProcessSafetyCheck::allowed())
    }
}

fn kill_request(pid: u64, name: &str, path: &str, sequence: u64) -> ActionRequest {
    let mut request =
        ActionRequest::new(ActionKind::KillProcess, &pid.to_string(), name, "processes", sequence);
    request.metadata_json = Some(object(vec![
        member("pid", number(pid)),
        member("process_name", json_str(name)),
        member("process_path", json_str(path)),
    ]));
    request
}

#[test]
fn the_adapter_gets_exactly_the_requested_page_and_path() {
    let recorder = Recorder::default();
    let executor = SafeActionExecutor::new(&recorder);
    let mut settings =
        ActionRequest::new(ActionKind::OpenWindowsSettings, "", "Privacy settings", "settings", 1);
    settings.metadata_json =
        Some(object(vec![member("settings_page", json_str("ms-settings:privacy"))]));
    assert_eq!(executor.execute(settings).status, ActionStatus::Succeeded);
    let reveal =
        executor.execute(ActionRequest::new(ActionKind::RevealPath, "C:\\Demo", "Demo", "files", 2));
    assert_eq!(reveal.status, ActionStatus::Succeeded);
    let denied = executor.execute(ActionRequest::new(
        ActionKind::OpenWindowsSettings,
        "https://example.com",
        "External URL",
        "settings",
        3,
    ));
    assert_eq!(denied.status, ActionStatus::Denied);

    assert_eq!(*recorder.settings.borrow(), vec!["ms-settings:privacy".to_string()]);
    assert_eq!(*recorder.inspected.borrow(), vec!["C:\\Demo".to_string()]);
    assert_eq!(
        *recorder.revealed.borrow(),
        vec![("C:\\Demo\\canonical".to_string(), false)]
    );
}

#[test]
fn a_kill_reaches_the_adapter_only_after_an_allowing_precheck() {
    let recorder = Recorder::default();
    let executor = SafeActionExecutor::new(&recorder);
    let denied = executor.execute(kill_request(0, "System", "C:\\Windows\\System32\\System", 1));
    assert_eq!(denied.status, ActionStatus::Denied);
    let without_pid = executor.execute(ActionRequest::new(
        ActionKind::KillProcess,
        "demo.exe",
        "Demo process",
        "processes",
        2,
    ));
    assert_eq!(without_pid.status, ActionStatus::Denied);
    let blocked = executor.execute(ActionRequest::new(
        ActionKind::BlockNetwork,
        "tcp:443",
        "TCP 443",
        "network",
        3,
    ));
    assert_eq!(blocked.status, ActionStatus::Denied);
    assert_eq!(*recorder.prechecked.borrow(), vec![0]);
    assert!(recorder.killed.borrow().is_empty());

    let done = executor.execute(kill_request(42, "demo.exe", "C:\\Users\\Demo\\demo.exe", 4));
    assert_eq!(done.status, ActionStatus::Succeeded);
    assert_eq!(*recorder.prechecked.borrow(), vec![0, 42]);
    assert_eq!(*recorder.killed.borrow(), vec![42]);
}

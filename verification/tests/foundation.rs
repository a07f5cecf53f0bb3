use jsentinel::foundation::{
    foundation_principles, CapabilityStatus, CapabilitySupportStatus, MockSystemProvider,
    ReadOnlyBackendError, ReadOnlyBackendErrorKind, ReadOnlyQueryResult, ReadOnlySystemProvider,
    SystemPlatform, ADMIN_HINT, UNSUPPORTED_BACKEND_MESSAGE,
};
use jsentinel::foundation::ProcessInfo;

#[test]
fn mock_provider_reports_unsupported_read_only_capability() {
    let provider = MockSystemProvider;
    let result = provider.list_processes();

    assert_eq!(provider.platform(), SystemPlatform::Unsupported);
    assert!(!result.capability.supported);
    assert!(result.items.is_empty());
}

#[test]
fn mock_provider_answers_every_query_without_reading_the_system() {
    let provider = MockSystemProvider;
    assert_eq!(provider.provider_name(), "mock");
    let caps = provider.capabilities();
    assert_eq!(caps.len(), 1);
    assert_eq!(caps[0].status, CapabilitySupportStatus::Unsupported);
    assert!(provider.get_process_details(42).items.is_empty());
    assert!(provider.list_network_connections().items.is_empty());
    assert!(provider.list_startup_entries().items.is_empty());
    let lockers = provider.detect_file_lockers("C:\\Demo\\a.txt");
    assert_eq!(lockers.items.len(), 1);
    assert_eq!(lockers.items[0].path, "C:\\Demo\\a.txt");
    assert_eq!(lockers.items[0].confidence, "unsupported");
    assert_eq!(provider.collect_snapshot_events(1).len(), 7);
    let error = provider.list_processes().error.expect("an unsupported answer carries an error");
    assert_eq!(error.kind, ReadOnlyBackendErrorKind::UnsupportedPlatform);
    assert_eq!(error.message, UNSUPPORTED_BACKEND_MESSAGE);
}

#[test]
fn partial_capability_is_supported_best_effort() {
    let capability = CapabilityStatus::partial(
        "startup_entries",
        "Startup entries",
        "Scheduled tasks are not parsed yet.",
    );

    assert_eq!(capability.status, CapabilitySupportStatus::Partial);
    assert!(capability.supported);
    assert!(capability.read_only);
    assert_eq!(capability.data_source, "local_os_snapshot");
    assert_eq!(capability.limitation.as_deref(), Some("Scheduled tasks are not parsed yet."));
}

#[test]
fn supported_capability_has_no_limitation() {
    let capability = CapabilityStatus::supported("process_inventory", "Process inventory");
    assert!(capability.supported);
    assert_eq!(capability.status, CapabilitySupportStatus::Supported);
    assert!(capability.read_only);
    assert!(!capability.requires_admin);
    assert!(capability.limitation.is_none());
}

#[test]
fn admin_hint_is_appended_to_a_limitation() {
    let plain = CapabilityStatus::supported("a", "A").admin_may_improve_results();
    assert_eq!(plain.limitation.as_deref(), Some(ADMIN_HINT));
    let limited = CapabilityStatus::partial("a", "A", "Partial.").admin_may_improve_results();
    assert_eq!(limited.limitation, Some(format!("Partial. {ADMIN_HINT}")));
    let moved = CapabilityStatus::supported("a", "A")
        .with_data_source("wmi")
        .with_limitation("Slow.");
    assert_eq!(moved.data_source, "wmi");
    assert_eq!(moved.limitation.as_deref(), Some("Slow."));
}

#[test]
fn unsupported_result_is_empty_and_explains_itself() {
    let result: ReadOnlyQueryResult<ProcessInfo> =
        ReadOnlyQueryResult::unsupported("p", "id", "Label", "Not here.");
    assert_eq!(result.platform, SystemPlatform::Unsupported);
    assert_eq!(result.provider, "p");
    assert!(!result.capability.supported);
    assert_eq!(result.capability.data_source, "not_available");
    assert_eq!(result.capability.limitation.as_deref(), Some("Not here."));
    assert!(result.items.is_empty());
}

#[test]
fn backend_error_keeps_kind_and_message() {
    let error = ReadOnlyBackendError::new(
        ReadOnlyBackendErrorKind::PermissionDenied,
        "Some fields are unavailable.",
    );
    assert_eq!(error.kind, ReadOnlyBackendErrorKind::PermissionDenied);
    assert_eq!(error.message, "Some fields are unavailable.");
}

#[test]
fn principles_are_local_first_without_telemetry() {
    let principles = foundation_principles();
    let keys: Vec<&str> = principles.iter().map(|p| p.key).collect();
    assert_eq!(keys, vec!["local_first", "no_telemetry", "confirm_dangerous_actions"]);
}

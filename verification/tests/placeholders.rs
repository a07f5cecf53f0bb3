use jsentinel::device_access::{DeviceAccessObservation, DeviceKind};
use jsentinel::files::FileObservation;
use jsentinel::linux::{plan, LinuxSupportLevel};
use jsentinel::network::NetworkObservation;
use jsentinel::quarantine::{v1_plan, QuarantineStatus};
use jsentinel::startup::{StartupEntry, StartupSource};

#[test]
fn device_observation_collects_nothing_yet() {
    let o = DeviceAccessObservation::placeholder(DeviceKind::Camera);
    assert_eq!(o.device_kind, DeviceKind::Camera);
    assert_eq!(o.process_name, "not-collected-yet");
    assert!(!o.observed_locally);
}

#[test]
fn file_observation_is_a_read_only_placeholder() {
    let o = FileObservation::placeholder("C:\\Demo\\a.txt");
    assert_eq!(o.path_display, "C:\\Demo\\a.txt");
    assert!(o.attention_kind.is_none());
    assert!(o.read_only_placeholder);
}

#[test]
fn linux_backend_is_planned() {
    let p = plan();
    assert_eq!(p.support_level, LinuxSupportLevel::Planned);
    assert!(!p.implemented);
}

#[test]
fn network_observation_collects_nothing_yet() {
    let o = NetworkObservation::placeholder();
    assert_eq!(o.remote_endpoint, "local-placeholder");
    assert_eq!(o.protocol, "unknown");
    assert!(o.attention_hint.is_none());
}

#[test]
fn quarantine_is_reversible_and_never_force_deletes() {
    let p = v1_plan();
    assert_eq!(p.status, QuarantineStatus::Planned);
    assert!(p.reversible_by_design);
    assert!(!p.force_delete_supported);
}

#[test]
fn startup_entry_placeholder_is_disabled() {
    let e = StartupEntry::placeholder("Demo");
    assert_eq!(e.name, "Demo");
    assert_eq!(e.source, StartupSource::Unknown);
    assert!(!e.enabled);
}

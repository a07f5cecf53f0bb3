//! Platform-neutral domain types: safety principles, capability status,
//! read-only query results and the read-only system provider boundary.
use vstd::prelude::*;
use crate::events::AccessEvent;
use crate::text::{concat, owned};

verus! {

#[derive(Debug, Clone, Copy, PartialEq, Eq, Structural)]
pub enum PlatformTarget {
    Windows,
    Linux,
    Unknown,
}

#[derive(Debug, Clone, Copy, PartialEq, Eq, Structural)]
pub enum ComponentState {
    Planned,
    Stub,
    Ready,
    Disabled,
}

#[derive(Debug, Clone, PartialEq, Eq)]
pub struct ComponentStatus {
    pub name: &'static str,
    pub state: ComponentState,
    pub notes: &'static str,
}

#[derive(Debug, Clone, PartialEq, Eq)]
pub struct SafetyPrinciple {
    pub key: &'static str,
    pub description: &'static str,
}

/// The keys of the foundation principles, in order.
pub open spec fn principle_keys() -> Seq<Seq<char>> {
    seq!["local_first"@, "no_telemetry"@, "confirm_dangerous_actions"@]
}

/// The safety principles every part of the application follows.
pub fn foundation_principles() -> (r: Vec<SafetyPrinciple>)
    ensures
        r@.len() == 3,
        forall|i: int| 0 <= i < 3 ==> (#[trigger] r@[i]).key@ == principle_keys()[i],
        r@[0].description@ == "JSentinel works locally by default and does not require cloud services."@,
        r@[1].description@ == "The application must not collect telemetry, tracking IDs, or analytics."@,
        r@[2].description@
            == "Potentially destructive or privileged actions require explicit confirmation."@,
{
    vec![
        SafetyPrinciple {
            key: "local_first",
            description: "JSentinel works locally by default and does not require cloud services.",
        },
        SafetyPrinciple {
            key: "no_telemetry",
            description: "The application must not collect telemetry, tracking IDs, or analytics.",
        },
        SafetyPrinciple {
            key: "confirm_dangerous_actions",
            description: "Potentially destructive or privileged actions require explicit confirmation.",
        },
    ]
}

#[derive(Debug, Clone, PartialEq, Eq)]
pub struct ProviderCapability {
    pub key: String,
    pub description: String,
}

#[derive(Debug, Clone, Copy, PartialEq, Eq, Structural)]
pub enum CapabilitySupportStatus {
    Supported,
    Partial,
    Unsupported,
}

#[derive(Debug, Clone, Copy, PartialEq, Eq, Structural)]
pub enum SystemPlatform {
    Windows,
    Linux,
    Unsupported,
}

#[derive(Debug, Clone, Copy, PartialEq, Eq, Structural)]
pub enum ReadOnlyBackendErrorKind {
    UnsupportedPlatform,
    PermissionDenied,
    Unavailable,
    ParseError,
    OsError,
    Unknown,
}

/// A structured diagnostic from a read-only backend.
#[derive(Debug, Clone, PartialEq, Eq)]
pub struct ReadOnlyBackendError {
    pub kind: ReadOnlyBackendErrorKind,
    pub message: String,
}

impl ReadOnlyBackendError {
    pub fn new(kind: ReadOnlyBackendErrorKind, message: &str) -> (r: Self)
        ensures
            r.kind == kind,
            r.message@ == message@,
    {
        ReadOnlyBackendError { kind, message: owned(message) }
    }
}

/// What a backend can report for one capability, and how well.
#[derive(Debug, Clone, PartialEq, Eq)]
pub struct CapabilityStatus {
    pub id: String,
    pub label: String,
    pub supported: bool,
    pub status: CapabilitySupportStatus,
    pub requires_admin: bool,
    pub data_source: String,
    pub read_only: bool,
    pub limitation: Option<String>,
}

pub const ADMIN_HINT: &'static str = "Admin rights may improve visibility for protected data.";

impl CapabilityStatus {
    /// The fields shared by every capability built here.
    pub open spec fn describes(
        self,
        id: Seq<char>,
        label: Seq<char>,
        status: CapabilitySupportStatus,
        data_source: Seq<char>,
        limitation: Option<Seq<char>>,
    ) -> bool {
        &&& self.id@ == id
        &&& self.label@ == label
        &&& self.supported == !(status is Unsupported)
        &&& self.status == status
        &&& !self.requires_admin
        &&& self.data_source@ == data_source
        &&& self.read_only
        &&& crate::actions::opt_view(self.limitation) == limitation
    }

    /// A fully supported capability read from a local OS snapshot.
    pub fn supported(id: &str, label: &str) -> (r: Self)
        ensures
            r.describes(id@, label@, CapabilitySupportStatus::Supported, "local_os_snapshot"@, None),
    {
        CapabilityStatus {
            id: owned(id),
            label: owned(label),
            supported: true,
            status: CapabilitySupportStatus::Supported,
            requires_admin: false,
            data_source: owned("local_os_snapshot"),
            read_only: true,
            limitation: None,
        }
    }

    /// A best-effort capability, with its limitation.
    pub fn partial(id: &str, label: &str, limitation: &str) -> (r: Self)
        ensures
            r.describes(
                id@,
                label@,
                CapabilitySupportStatus::Partial,
                "local_os_snapshot"@,
                Some(limitation@),
            ),
    {
        CapabilityStatus {
            id: owned(id),
            label: owned(label),
            supported: true,
            status: CapabilitySupportStatus::Partial,
            requires_admin: false,
            data_source: owned("local_os_snapshot"),
            read_only: true,
            limitation: Some(owned(limitation)),
        }
    }

    /// The same capability with another data source.
    pub fn with_data_source(self, data_source: &str) -> (r: Self)
        ensures
            r == (CapabilityStatus { data_source: r.data_source, ..self }),
            r.data_source@ == data_source@,
    {
        let mut s = self;
        s.data_source = owned(data_source);
        s
    }

    /// The same capability with a limitation (replacing any earlier one).
    pub fn with_limitation(self, limitation: &str) -> (r: Self)
        ensures
            r == (CapabilityStatus { limitation: r.limitation, ..self }),
            crate::actions::opt_view(r.limitation) == Some(limitation@),
    {
        let mut s = self;
        s.limitation = Some(owned(limitation));
        s
    }

    /// The same capability, noting that admin rights may show more.
    pub fn admin_may_improve_results(self) -> (r: Self)
        ensures
            r == (CapabilityStatus { limitation: r.limitation, ..self }),
            crate::actions::opt_view(r.limitation) == Some(
                match self.limitation {
                    Some(existing) => existing@ + " "@ + ADMIN_HINT@,
                    None => ADMIN_HINT@,
                },
            ),
    {
        let mut s = self;
        let text = match &s.limitation {
            Some(existing) => crate::text::concat3(existing.as_str(), " ", ADMIN_HINT),
            None => owned(ADMIN_HINT),
        };
        s.limitation = Some(text);
        s
    }

    /// A capability this platform or backend cannot provide.
    pub fn unsupported(id: &str, label: &str, limitation: &str) -> (r: Self)
        ensures
            r.describes(
                id@,
                label@,
                CapabilitySupportStatus::Unsupported,
                "not_available"@,
                Some(limitation@),
            ),
    {
        CapabilityStatus {
            id: owned(id),
            label: owned(label),
            supported: false,
            status: CapabilitySupportStatus::Unsupported,
            requires_admin: false,
            data_source: owned("not_available"),
            read_only: true,
            limitation: Some(owned(limitation)),
        }
    }
}

/// The answer of one read-only query: where it ran, what capability it
/// used, the items it found and an optional structured error.
#[derive(Debug, Clone, PartialEq, Eq)]
pub struct ReadOnlyQueryResult<T> {
    pub platform: SystemPlatform,
    pub provider: String,
    pub capability: CapabilityStatus,
    pub items: Vec<T>,
    pub error: Option<ReadOnlyBackendError>,
}

pub const UNSUPPORTED_BACKEND_MESSAGE: &'static str =
    "This read-only backend is unsupported on the current platform.";

/// An empty result from a backend that is unsupported on this platform.
pub open spec fn is_unsupported_result<T>(
    r: ReadOnlyQueryResult<T>,
    provider: Seq<char>,
    id: Seq<char>,
    label: Seq<char>,
    limitation: Seq<char>,
) -> bool {
    &&& r.platform == SystemPlatform::Unsupported
    &&& r.provider@ == provider
    &&& r.capability.describes(
        id,
        label,
        CapabilitySupportStatus::Unsupported,
        "not_available"@,
        Some(limitation),
    )
    &&& r.items@.len() == 0
    &&& r.error matches Some(e) && e.kind == ReadOnlyBackendErrorKind::UnsupportedPlatform
        && e.message@ == UNSUPPORTED_BACKEND_MESSAGE@
}

impl<T> ReadOnlyQueryResult<T> {
    pub fn unsupported(provider: &str, capability_id: &str, capability_label: &str, limitation: &str) -> (r: Self)
        ensures
            is_unsupported_result(r, provider@, capability_id@, capability_label@, limitation@),
    {
        ReadOnlyQueryResult {
            platform: SystemPlatform::Unsupported,
            provider: owned(provider),
            capability: CapabilityStatus::unsupported(capability_id, capability_label, limitation),
            items: Vec::new(),
            error: Some(
                ReadOnlyBackendError::new(
                    ReadOnlyBackendErrorKind::UnsupportedPlatform,
                    UNSUPPORTED_BACKEND_MESSAGE,
                ),
            ),
        }
    }
}

#[derive(Debug, Clone, PartialEq, Eq)]
pub struct ProcessInfo {
    pub pid: u32,
    pub name: String,
    pub path: Option<String>,
    pub parent_pid: Option<u32>,
    pub command_line: Option<String>,
    pub started_at: Option<String>,
    pub owner: Option<String>,
    pub source: String,
    pub confidence: String,
    pub limitations: Vec<String>,
}

#[derive(Debug, Clone, PartialEq, Eq)]
pub struct NetworkConnectionInfo {
    pub protocol: String,
    pub local_addr: String,
    pub local_port: Option<u16>,
    pub remote_addr: Option<String>,
    pub remote_port: Option<u16>,
    pub state: Option<String>,
    pub pid: Option<u32>,
    pub process_name: Option<String>,
    pub process_path: Option<String>,
}

#[derive(Debug, Clone, PartialEq, Eq)]
pub struct StartupEntryInfo {
    pub id: String,
    pub name: String,
    pub source: String,
    pub command: Option<String>,
    pub path: Option<String>,
    pub enabled: Option<bool>,
    pub scope: String,
    pub publisher: Option<String>,
    pub risk: Option<String>,
    pub limitation: Option<String>,
}

#[derive(Debug, Clone, PartialEq, Eq)]
pub struct FileLockerInfo {
    pub pid: Option<u32>,
    pub process_name: Option<String>,
    pub process_path: Option<String>,
    pub path: String,
    pub confidence: String,
    pub limitation: Option<String>,
}

/// The read-only boundary every OS backend implements.
pub trait ReadOnlySystemProvider {
    fn provider_name(&self) -> &'static str;

    fn platform(&self) -> SystemPlatform;

    fn capabilities(&self) -> Vec<CapabilityStatus>;

    fn list_processes(&self) -> ReadOnlyQueryResult<ProcessInfo>;

    fn get_process_details(&self, pid: u32) -> ReadOnlyQueryResult<ProcessInfo>;

    fn list_network_connections(&self) -> ReadOnlyQueryResult<NetworkConnectionInfo>;

    fn list_startup_entries(&self) -> ReadOnlyQueryResult<StartupEntryInfo>;

    fn detect_file_lockers(&self, path: &str) -> ReadOnlyQueryResult<FileLockerInfo>;

    /// Events from the provider's snapshot, numbered from `first_sequence` on.
    fn collect_snapshot_events(&self, first_sequence: u64) -> Vec<AccessEvent>;
}

/// A provider that reads no OS state and reports every capability as unsupported.
pub struct MockSystemProvider;

impl ReadOnlySystemProvider for MockSystemProvider {
    fn provider_name(&self) -> (r: &'static str)
        ensures
            r@ == "mock"@,
    {
        "mock"
    }

    fn platform(&self) -> (r: SystemPlatform)
        ensures
            r == SystemPlatform::Unsupported,
    {
        SystemPlatform::Unsupported
    }

    fn capabilities(&self) -> (r: Vec<CapabilityStatus>)
        ensures
            r@.len() == 1,
            r@[0].describes(
                "mock_snapshot_events"@,
                "Mock snapshot events"@,
                CapabilitySupportStatus::Unsupported,
                "not_available"@,
                Some("Returns demo-only events without reading real OS state."@),
            ),
    {
        vec![
            CapabilityStatus::unsupported(
                "mock_snapshot_events",
                "Mock snapshot events",
                "Returns demo-only events without reading real OS state.",
            ),
        ]
    }

    fn list_processes(&self) -> (r: ReadOnlyQueryResult<ProcessInfo>)
        ensures
            is_unsupported_result(
                r,
                "mock"@,
                "process_inventory"@,
                "Process inventory"@,
                "Mock provider does not inspect real processes."@,
            ),
    {
        ReadOnlyQueryResult::unsupported(
            self.provider_name(),
            "process_inventory",
            "Process inventory",
            "Mock provider does not inspect real processes.",
        )
    }

    fn get_process_details(&self, pid: u32) -> (r: ReadOnlyQueryResult<ProcessInfo>)
        ensures
            is_unsupported_result(
                r,
                "mock"@,
                "process_details"@,
                "Process details"@,
                "Mock provider does not inspect real processes."@,
            ),
    {
        ReadOnlyQueryResult::unsupported(
            self.provider_name(),
            "process_details",
            "Process details",
            "Mock provider does not inspect real processes.",
        )
    }

    fn list_network_connections(&self) -> (r: ReadOnlyQueryResult<NetworkConnectionInfo>)
        ensures
            is_unsupported_result(
                r,
                "mock"@,
                "network_connections"@,
                "Network connections"@,
                "Mock provider does not inspect real network state."@,
            ),
    {
        ReadOnlyQueryResult::unsupported(
            self.provider_name(),
            "network_connections",
            "Network connections",
            "Mock provider does not inspect real network state.",
        )
    }

    fn list_startup_entries(&self) -> (r: ReadOnlyQueryResult<StartupEntryInfo>)
        ensures
            is_unsupported_result(
                r,
                "mock"@,
                "startup_entries"@,
                "Startup entries"@,
                "Mock provider does not inspect startup sources."@,
            ),
    {
        ReadOnlyQueryResult::unsupported(
            self.provider_name(),
            "startup_entries",
            "Startup entries",
            "Mock provider does not inspect startup sources.",
        )
    }

    fn detect_file_lockers(&self, path: &str) -> (r: ReadOnlyQueryResult<FileLockerInfo>)
        ensures
            r.platform == SystemPlatform::Unsupported,
            r.provider@ == "mock"@,
            r.capability.describes(
                "file_lockers"@,
                "File locker detection"@,
                CapabilitySupportStatus::Unsupported,
                "not_available"@,
                Some("Mock provider does not inspect file handles."@),
            ),
            r.items@.len() == 1,
            r.items@[0].pid is None,
            r.items@[0].process_name is None,
            r.items@[0].process_path is None,
            r.items@[0].path@ == path@,
            r.items@[0].confidence@ == "unsupported"@,
            crate::actions::opt_view(r.items@[0].limitation) == Some("No handle inspection was performed."@),
            r.error is None,
    {
        ReadOnlyQueryResult {
            platform: self.platform(),
            provider: owned(self.provider_name()),
            capability: CapabilityStatus::unsupported(
                "file_lockers",
                "File locker detection",
                "Mock provider does not inspect file handles.",
            ),
            items: vec![
                FileLockerInfo {
                    pid: None,
                    process_name: None,
                    process_path: None,
                    path: owned(path),
                    confidence: owned("unsupported"),
                    limitation: Some(owned("No handle inspection was performed.")),
                },
            ],
            error: None,
        }
    }

    fn collect_snapshot_events(&self, first_sequence: u64) -> (r: Vec<AccessEvent>)
        ensures
            r@.len() == 7,
            forall|i: int| 0 <= i < 7 ==> crate::events::is_demo_event(
                #[trigger] r@[i],
                crate::events::demo_event_shapes()[i].0,
                crate::events::demo_event_shapes()[i].1,
            ),
    {
        crate::events::mock_demo_events(first_sequence)
    }
}

} // verus!

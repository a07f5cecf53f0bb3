//! The local event model: identifiers, timestamps, categories and the demo
//! events used to exercise the timeline.
use vstd::prelude::*;
use crate::clock::{unix_stamp, unix_time_nanos, nanos_or_zero, current_timestamp, is_unix_stamp};
use crate::json::{JsonValue, member, json_str};
use crate::text::{decimal, owned, push_decimal, str_eq};

verus! {

/// A stable event identifier.
#[derive(Debug, Clone, PartialEq, Eq, Hash)]
pub struct EventId(pub String);

/// `<prefix>-<nanoseconds>-<sequence>`.
pub open spec fn event_id_text(prefix: Seq<char>, nanos: nat, sequence: nat) -> Seq<char> {
    prefix + "-"@ + decimal(nanos) + "-"@ + decimal(sequence)
}

impl EventId {
    pub fn new(value: &str) -> (r: EventId)
        ensures
            r.0@ == value@,
    {
        EventId(owned(value))
    }

    /// The identifier for an event with the given prefix, observed at
    /// `nanos` nanoseconds after the epoch, with the caller's sequence number.
    pub fn at(prefix: &str, nanos: u128, sequence: u64) -> (r: EventId)
        ensures
            r.0@ == event_id_text(prefix@, nanos as nat, sequence as nat),
    {
        let mut out = owned(prefix);
        out.append("-");
        push_decimal(&mut out, nanos);
        out.append("-");
        push_decimal(&mut out, sequence as u128);
        EventId(out)
    }

    /// A fresh identifier from the clock and the caller's sequence number.
    pub fn generated(prefix: &str, sequence: u64) -> (r: EventId)
        ensures
            exists|nanos: u128| r.0@ == #[trigger] event_id_text(prefix@, nanos as nat, sequence as nat),
    {
        let nanos = nanos_or_zero(unix_time_nanos());
        let r = EventId::at(prefix, nanos, sequence);
        assert(r.0@ == event_id_text(prefix@, nanos as nat, sequence as nat));
        r
    }

    pub fn as_str(&self) -> (r: &str)
        ensures
            r@ == self.0@,
    {
        self.0.as_str()
    }
}

/// A textual event timestamp.
#[derive(Debug, Clone, PartialEq, Eq, Hash)]
pub struct EventTimestamp(pub String);

impl EventTimestamp {
    pub fn new(value: &str) -> (r: EventTimestamp)
        ensures
            r.0@ == value@,
    {
        EventTimestamp(owned(value))
    }

    /// The current time as `unix:<seconds>`.
    pub fn now_utc_best_effort() -> (r: EventTimestamp)
        ensures
            is_unix_stamp(r.0@),
    {
        EventTimestamp(current_timestamp())
    }

    pub fn as_str(&self) -> (r: &str)
        ensures
            r@ == self.0@,
    {
        self.0.as_str()
    }
}

/// Errors from parsing the textual form of an event field.
#[derive(Debug, Clone, PartialEq, Eq)]
pub enum EventParseError {
    UnknownSeverity(String),
    UnknownKind(String),
    UnknownSource(String),
}

impl EventParseError {
    pub fn message(&self) -> (r: String)
        ensures
            r@ == match self {
                EventParseError::UnknownSeverity(v) => "unknown event severity: "@ + v@,
                EventParseError::UnknownKind(v) => "unknown event kind: "@ + v@,
                EventParseError::UnknownSource(v) => "unknown event source: "@ + v@,
            },
    {
        match self {
            EventParseError::UnknownSeverity(v) => crate::text::concat("unknown event severity: ", v.as_str()),
            EventParseError::UnknownKind(v) => crate::text::concat("unknown event kind: ", v.as_str()),
            EventParseError::UnknownSource(v) => crate::text::concat("unknown event source: ", v.as_str()),
        }
    }
}

#[derive(Debug, Clone, Copy, PartialEq, Eq, Structural)]
pub enum EventSeverity {
    Info,
    Warning,
    Critical,
}

impl EventSeverity {
    pub open spec fn name(self) -> Seq<char> {
        match self {
            EventSeverity::Info => "info"@,
            EventSeverity::Warning => "warning"@,
            EventSeverity::Critical => "critical"@,
        }
    }

    pub open spec fn from_name(t: Seq<char>) -> Option<EventSeverity> {
        if t == "info"@ {
            Some(EventSeverity::Info)
        } else if t == "warning"@ {
            Some(EventSeverity::Warning)
        } else if t == "critical"@ {
            Some(EventSeverity::Critical)
        } else {
            None
        }
    }

    pub fn as_str(self) -> (r: &'static str)
        ensures
            r@ == self.name(),
    {
        match self {
            EventSeverity::Info => "info",
            EventSeverity::Warning => "warning",
            EventSeverity::Critical => "critical",
        }
    }

    pub fn parse(value: &str) -> (r: Result<EventSeverity, EventParseError>)
        ensures
            r matches Ok(k) ==> EventSeverity::from_name(value@) == Some(k),
            r matches Err(e) ==> (EventSeverity::from_name(value@) is None && (e matches EventParseError::UnknownSeverity(v) && v@ == value@)),
    {
        if str_eq(value, "info") {
            Ok(EventSeverity::Info)
        } else if str_eq(value, "warning") {
            Ok(EventSeverity::Warning)
        } else if str_eq(value, "critical") {
            Ok(EventSeverity::Critical)
        } else {
            Err(EventParseError::UnknownSeverity(owned(value)))
        }
    }
}

impl std::str::FromStr for EventSeverity {
    type Err = EventParseError;

    fn from_str(value: &str) -> (r: Result<Self, Self::Err>)
        ensures
            r matches Ok(k) ==> EventSeverity::from_name(value@) == Some(k),
            r matches Err(e) ==> (EventSeverity::from_name(value@) is None && (e matches EventParseError::UnknownSeverity(v) && v@ == value@)),
    {
        EventSeverity::parse(value)
    }
}

/// The name of every severity parses back to that severity.
pub proof fn lemma_severity_round_trip(k: EventSeverity)
    ensures
        EventSeverity::from_name(k.name()) == Some(k),
{
    reveal_strlit("info");
    reveal_strlit("warning");
    reveal_strlit("critical");
    assert("info"@.len() == 4);
    assert("warning"@.len() == 7);
    assert("critical"@.len() == 8);
}

#[derive(Debug, Clone, Copy, PartialEq, Eq, Structural)]
pub enum EventKind {
    Process,
    Network,
    File,
    Startup,
    DeviceAccess,
    LockedFile,
    Security,
    System,
}

impl EventKind {
    pub open spec fn name(self) -> Seq<char> {
        match self {
            EventKind::Process => "process"@,
            EventKind::Network => "network"@,
            EventKind::File => "file"@,
            EventKind::Startup => "startup"@,
            EventKind::DeviceAccess => "device_access"@,
            EventKind::LockedFile => "locked_file"@,
            EventKind::Security => "security"@,
            EventKind::System => "system"@,
        }
    }

    pub open spec fn from_name(t: Seq<char>) -> Option<EventKind> {
        if t == "process"@ {
            Some(EventKind::Process)
        } else if t == "network"@ {
            Some(EventKind::Network)
        } else if t == "file"@ {
            Some(EventKind::File)
        } else if t == "startup"@ {
            Some(EventKind::Startup)
        } else if t == "device_access"@ {
            Some(EventKind::DeviceAccess)
        } else if t == "locked_file"@ {
            Some(EventKind::LockedFile)
        } else if t == "security"@ {
            Some(EventKind::Security)
        } else if t == "system"@ {
            Some(EventKind::System)
        } else {
            None
        }
    }

    pub fn as_str(self) -> (r: &'static str)
        ensures
            r@ == self.name(),
    {
        match self {
            EventKind::Process => "process",
            EventKind::Network => "network",
            EventKind::File => "file",
            EventKind::Startup => "startup",
            EventKind::DeviceAccess => "device_access",
            EventKind::LockedFile => "locked_file",
            EventKind::Security => "security",
            EventKind::System => "system",
        }
    }

    pub fn parse(value: &str) -> (r: Result<EventKind, EventParseError>)
        ensures
            r matches Ok(k) ==> EventKind::from_name(value@) == Some(k),
            r matches Err(e) ==> (EventKind::from_name(value@) is None && (e matches EventParseError::UnknownKind(v) && v@ == value@)),
    {
        if str_eq(value, "process") {
            Ok(EventKind::Process)
        } else if str_eq(value, "network") {
            Ok(EventKind::Network)
        } else if str_eq(value, "file") {
            Ok(EventKind::File)
        } else if str_eq(value, "startup") {
            Ok(EventKind::Startup)
        } else if str_eq(value, "device_access") {
            Ok(EventKind::DeviceAccess)
        } else if str_eq(value, "locked_file") {
            Ok(EventKind::LockedFile)
        } else if str_eq(value, "security") {
            Ok(EventKind::Security)
        } else if str_eq(value, "system") {
            Ok(EventKind::System)
        } else {
            Err(EventParseError::UnknownKind(owned(value)))
        }
    }
}

impl std::str::FromStr for EventKind {
    type Err = EventParseError;

    fn from_str(value: &str) -> (r: Result<Self, Self::Err>)
        ensures
            r matches Ok(k) ==> EventKind::from_name(value@) == Some(k),
            r matches Err(e) ==> (EventKind::from_name(value@) is None && (e matches EventParseError::UnknownKind(v) && v@ == value@)),
    {
        EventKind::parse(value)
    }
}

/// The name of every event kind parses back to that kind.
pub proof fn lemma_event_kind_round_trip(k: EventKind)
    ensures
        EventKind::from_name(k.name()) == Some(k),
{
    reveal_strlit("process");
    reveal_strlit("network");
    reveal_strlit("file");
    reveal_strlit("startup");
    reveal_strlit("device_access");
    reveal_strlit("locked_file");
    reveal_strlit("security");
    reveal_strlit("system");
    assert("process"@.len() == 7);
    assert("network"@.len() == 7);
    assert("file"@.len() == 4);
    assert("startup"@.len() == 7);
    assert("device_access"@.len() == 13);
    assert("locked_file"@.len() == 11);
    assert("security"@.len() == 8);
    assert("system"@.len() == 6);
    assert("process"@[0] == 'p');
    assert("network"@[0] == 'n');
    assert("startup"@[0] == 's');
    assert("security"@[0] == 's');
    assert("security"@[1] == 'e');
}

#[derive(Debug, Clone, Copy, PartialEq, Eq, Structural)]
pub enum EventSource {
    Mock,
    User,
    Core,
    WindowsBackend,
    LinuxBackend,
}

impl EventSource {
    pub open spec fn name(self) -> Seq<char> {
        match self {
            EventSource::Mock => "mock"@,
            EventSource::User => "user"@,
            EventSource::Core => "core"@,
            EventSource::WindowsBackend => "windows_backend"@,
            EventSource::LinuxBackend => "linux_backend"@,
        }
    }

    pub open spec fn from_name(t: Seq<char>) -> Option<EventSource> {
        if t == "mock"@ {
            Some(EventSource::Mock)
        } else if t == "user"@ {
            Some(EventSource::User)
        } else if t == "core"@ {
            Some(EventSource::Core)
        } else if t == "windows_backend"@ {
            Some(EventSource::WindowsBackend)
        } else if t == "linux_backend"@ {
            Some(EventSource::LinuxBackend)
        } else {
            None
        }
    }

    pub fn as_str(self) -> (r: &'static str)
        ensures
            r@ == self.name(),
    {
        match self {
            EventSource::Mock => "mock",
            EventSource::User => "user",
            EventSource::Core => "core",
            EventSource::WindowsBackend => "windows_backend",
            EventSource::LinuxBackend => "linux_backend",
        }
    }

    pub fn parse(value: &str) -> (r: Result<EventSource, EventParseError>)
        ensures
            r matches Ok(k) ==> EventSource::from_name(value@) == Some(k),
            r matches Err(e) ==> (EventSource::from_name(value@) is None && (e matches EventParseError::UnknownSource(v) && v@ == value@)),
    {
        if str_eq(value, "mock") {
            Ok(EventSource::Mock)
        } else if str_eq(value, "user") {
            Ok(EventSource::User)
        } else if str_eq(value, "core") {
            Ok(EventSource::Core)
        } else if str_eq(value, "windows_backend") {
            Ok(EventSource::WindowsBackend)
        } else if str_eq(value, "linux_backend") {
            Ok(EventSource::LinuxBackend)
        } else {
            Err(EventParseError::UnknownSource(owned(value)))
        }
    }
}

impl std::str::FromStr for EventSource {
    type Err = EventParseError;

    fn from_str(value: &str) -> (r: Result<Self, Self::Err>)
        ensures
            r matches Ok(k) ==> EventSource::from_name(value@) == Some(k),
            r matches Err(e) ==> (EventSource::from_name(value@) is None && (e matches EventParseError::UnknownSource(v) && v@ == value@)),
    {
        EventSource::parse(value)
    }
}

/// The name of every event source parses back to that source.
pub proof fn lemma_event_source_round_trip(k: EventSource)
    ensures
        EventSource::from_name(k.name()) == Some(k),
{
    reveal_strlit("mock");
    reveal_strlit("user");
    reveal_strlit("core");
    reveal_strlit("windows_backend");
    reveal_strlit("linux_backend");
    assert("mock"@.len() == 4);
    assert("user"@.len() == 4);
    assert("core"@.len() == 4);
    assert("windows_backend"@.len() == 15);
    assert("linux_backend"@.len() == 13);
    assert("mock"@[0] == 'm');
    assert("user"@[0] == 'u');
    assert("core"@[0] == 'c');
}

/// The process an event refers to.
#[derive(Debug, Clone, PartialEq, Eq)]
pub struct ProcessRef {
    pub pid: Option<u32>,
    pub name: String,
    pub path: Option<String>,
}

impl ProcessRef {
    pub fn new(pid: Option<u32>, name: &str, path: Option<String>) -> (r: ProcessRef)
        ensures
            r.pid == pid,
            r.name@ == name@,
            r.path == path,
    {
        ProcessRef { pid, name: owned(name), path }
    }
}

/// One entry of the local timeline.
#[derive(Debug, Clone, PartialEq)]
pub struct AccessEvent {
    pub id: EventId,
    pub timestamp: EventTimestamp,
    pub kind: EventKind,
    pub severity: EventSeverity,
    pub source: EventSource,
    pub process: Option<ProcessRef>,
    pub title: String,
    pub summary: String,
    pub target: Option<String>,
    pub metadata_json: Option<JsonValue>,
    pub confidence: Option<String>,
}

impl AccessEvent {
    /// A demo event: generated identifier and current timestamp, source
    /// `mock`, confidence `demo_only`.
    pub fn mock(
        kind: EventKind,
        severity: EventSeverity,
        process: Option<ProcessRef>,
        title: &str,
        summary: &str,
        target: Option<String>,
        metadata_json: Option<JsonValue>,
        sequence: u64,
    ) -> (r: AccessEvent)
        ensures
            exists|nanos: u128| r.id.0@ == #[trigger] event_id_text(kind.name(), nanos as nat, sequence as nat),
            is_unix_stamp(r.timestamp.0@),
            r.kind == kind,
            r.severity == severity,
            r.source == EventSource::Mock,
            r.process == process,
            r.title@ == title@,
            r.summary@ == summary@,
            r.target == target,
            r.metadata_json == metadata_json,
            r.confidence matches Some(c) && c@ == "demo_only"@,
    {
        AccessEvent {
            id: EventId::generated(kind.as_str(), sequence),
            timestamp: EventTimestamp::now_utc_best_effort(),
            kind,
            severity,
            source: EventSource::Mock,
            process,
            title: owned(title),
            summary: owned(summary),
            target,
            metadata_json,
            confidence: Some(owned("demo_only")),
        }
    }
}

/// A demo event's identifier: its kind's name, a clock reading in
/// nanoseconds, and its sequence number.
pub open spec fn demo_id(e: AccessEvent, kind: EventKind, sequence: u64) -> bool {
    exists|nanos: u128| e.id.0@ == #[trigger] event_id_text(kind.name(), nanos as nat, sequence as nat)
}

/// A demo event of the given kind and severity: source `mock`, confidence
/// `demo_only`, metadata marked `"demo": true`.
pub open spec fn is_demo_event(e: AccessEvent, kind: EventKind, severity: EventSeverity) -> bool {
    &&& e.kind == kind
    &&& e.severity == severity
    &&& e.source == EventSource::Mock
    &&& e.confidence matches Some(c) && c@ == "demo_only"@
    &&& is_unix_stamp(e.timestamp.0@)
    &&& e.metadata_json matches Some(md) && md.spec_get("demo"@) == Some(JsonValue::Bool(true))
}

fn demo_flag_first(members: Vec<crate::json::JsonMember>) -> (r: Option<JsonValue>)
    requires
        members@.len() >= 1,
        members@[0].key@ == "demo"@,
        members@[0].value == JsonValue::Bool(true),
    ensures
        r matches Some(md) && md.spec_get("demo"@) == Some(JsonValue::Bool(true)),
{
    proof {
        crate::json::lemma_find_key_is(members@, "demo"@, 0);
    }
    Some(JsonValue::Object(members))
}

pub fn mock_process_event(sequence: u64) -> (r: AccessEvent)
    ensures
        demo_id(r, EventKind::Process, sequence),
        is_demo_event(r, EventKind::Process, EventSeverity::Info),
        r.title@ == "Demo process observed"@,
        r.summary@ == "A mock process event used to validate the local timeline."@,
        r.process matches Some(p) && p.pid == Some(4242u32) && p.name@ == "demo-browser.exe"@ && (
        p.path matches Some(path) && path@ == "C:\\Program Files\\Demo Browser\\demo-browser.exe"@),
        r.target matches Some(t) && t@ == "demo-browser.exe"@,
{
    let md = demo_flag_first(
        vec![member("demo", JsonValue::Bool(true)), member("collector", json_str("mock_provider"))],
    );
    AccessEvent::mock(
        EventKind::Process,
        EventSeverity::Info,
        Some(
            ProcessRef::new(
                Some(4242),
                "demo-browser.exe",
                Some(owned("C:\\Program Files\\Demo Browser\\demo-browser.exe")),
            ),
        ),
        "Demo process observed",
        "A mock process event used to validate the local timeline.",
        Some(owned("demo-browser.exe")),
        md,
        sequence,
    )
}

pub fn mock_network_event(sequence: u64) -> (r: AccessEvent)
    ensures
        demo_id(r, EventKind::Network, sequence),
        is_demo_event(r, EventKind::Network, EventSeverity::Warning),
        r.title@ == "Demo network connection"@,
        r.summary@ == "A mock network event. No real network scan or outbound request occurred."@,
        r.process matches Some(p) && p.pid == Some(4242u32) && p.name@ == "demo-browser.exe"@ && p.path is None,
        r.target matches Some(t) && t@ == "example.invalid:443"@,
{
    let md = demo_flag_first(
        vec![
            member("demo", JsonValue::Bool(true)),
            member("protocol", json_str("tcp")),
            member("direction", json_str("outbound")),
        ],
    );
    AccessEvent::mock(
        EventKind::Network,
        EventSeverity::Warning,
        Some(ProcessRef::new(Some(4242), "demo-browser.exe", None)),
        "Demo network connection",
        "A mock network event. No real network scan or outbound request occurred.",
        Some(owned("example.invalid:443")),
        md,
        sequence,
    )
}

pub fn mock_file_event(sequence: u64) -> (r: AccessEvent)
    ensures
        demo_id(r, EventKind::File, sequence),
        is_demo_event(r, EventKind::File, EventSeverity::Info),
        r.title@ == "Demo file activity"@,
        r.summary@ == "A mock file event. JSentinel did not watch or read a real file."@,
        r.process matches Some(p) && p.pid == Some(3110u32) && p.name@ == "demo-editor.exe"@ && p.path is None,
        r.target matches Some(t) && t@ == "C:\\Users\\Example\\Documents\\demo.txt"@,
{
    let md = demo_flag_first(
        vec![member("demo", JsonValue::Bool(true)), member("operation", json_str("metadata_only_demo"))],
    );
    AccessEvent::mock(
        EventKind::File,
        EventSeverity::Info,
        Some(ProcessRef::new(Some(3110), "demo-editor.exe", None)),
        "Demo file activity",
        "A mock file event. JSentinel did not watch or read a real file.",
        Some(owned("C:\\Users\\Example\\Documents\\demo.txt")),
        md,
        sequence,
    )
}

pub fn mock_startup_event(sequence: u64) -> (r: AccessEvent)
    ensures
        demo_id(r, EventKind::Startup, sequence),
        is_demo_event(r, EventKind::Startup, EventSeverity::Warning),
        r.title@ == "Demo startup entry"@,
        r.summary@ == "A mock startup entry used for UI and database validation only."@,
        r.process is None,
        r.target matches Some(t) && t@ == "Demo Helper"@,
{
    let md = demo_flag_first(
        vec![member("demo", JsonValue::Bool(true)), member("source", json_str("mock_startup_list"))],
    );
    AccessEvent::mock(
        EventKind::Startup,
        EventSeverity::Warning,
        None,
        "Demo startup entry",
        "A mock startup entry used for UI and database validation only.",
        Some(owned("Demo Helper")),
        md,
        sequence,
    )
}

pub fn mock_device_access_event(sequence: u64) -> (r: AccessEvent)
    ensures
        demo_id(r, EventKind::DeviceAccess, sequence),
        is_demo_event(r, EventKind::DeviceAccess, EventSeverity::Info),
        r.title@ == "Demo device access"@,
        r.summary@ == "A mock camera/microphone style event. No real device monitoring is implemented."@,
        r.process matches Some(p) && p.pid == Some(9001u32) && p.name@ == "demo-meeting.exe"@ && p.path is None,
        r.target matches Some(t) && t@ == "camera"@,
{
    let md = demo_flag_first(
        vec![member("demo", JsonValue::Bool(true)), member("device", json_str("camera"))],
    );
    AccessEvent::mock(
        EventKind::DeviceAccess,
        EventSeverity::Info,
        Some(ProcessRef::new(Some(9001), "demo-meeting.exe", None)),
        "Demo device access",
        "A mock camera/microphone style event. No real device monitoring is implemented.",
        Some(owned("camera")),
        md,
        sequence,
    )
}

pub fn mock_locked_file_event(sequence: u64) -> (r: AccessEvent)
    ensures
        demo_id(r, EventKind::LockedFile, sequence),
        is_demo_event(r, EventKind::LockedFile, EventSeverity::Warning),
        r.title@ == "Demo locked file"@,
        r.summary@ == "A mock locked-file event. JSentinel did not inspect real file handles."@,
        r.process matches Some(p) && p.pid == Some(777u32) && p.name@ == "demo-sync.exe"@ && p.path is None,
        r.target matches Some(t) && t@ == "C:\\Users\\Example\\Documents\\locked-demo.dat"@,
{
    let md = demo_flag_first(
        vec![member("demo", JsonValue::Bool(true)), member("lock_state", json_str("mocked"))],
    );
    AccessEvent::mock(
        EventKind::LockedFile,
        EventSeverity::Warning,
        Some(ProcessRef::new(Some(777), "demo-sync.exe", None)),
        "Demo locked file",
        "A mock locked-file event. JSentinel did not inspect real file handles.",
        Some(owned("C:\\Users\\Example\\Documents\\locked-demo.dat")),
        md,
        sequence,
    )
}

pub fn mock_security_event(sequence: u64) -> (r: AccessEvent)
    ensures
        demo_id(r, EventKind::Security, sequence),
        is_demo_event(r, EventKind::Security, EventSeverity::Critical),
        r.title@ == "Demo security attention item"@,
        r.summary@ == "A mock attention item for validating critical severity rendering."@,
        r.process is None,
        r.target matches Some(t) && t@ == "Local policy demo"@,
{
    let md = demo_flag_first(
        vec![member("demo", JsonValue::Bool(true)), member("attention", json_str("demo_only"))],
    );
    AccessEvent::mock(
        EventKind::Security,
        EventSeverity::Critical,
        None,
        "Demo security attention item",
        "A mock attention item for validating critical severity rendering.",
        Some(owned("Local policy demo")),
        md,
        sequence,
    )
}

/// The kinds and severities of the demo timeline, in order.
pub open spec fn demo_event_shapes() -> Seq<(EventKind, EventSeverity)> {
    seq![
        (EventKind::Process, EventSeverity::Info),
        (EventKind::Network, EventSeverity::Warning),
        (EventKind::File, EventSeverity::Info),
        (EventKind::Startup, EventSeverity::Warning),
        (EventKind::DeviceAccess, EventSeverity::Info),
        (EventKind::LockedFile, EventSeverity::Warning),
        (EventKind::Security, EventSeverity::Critical),
    ]
}

/// The seven demo events, numbered from `first_sequence` on (wrapping).
pub fn mock_demo_events(first_sequence: u64) -> (r: Vec<AccessEvent>)
    ensures
        r@.len() == 7,
        forall|i: int| 0 <= i < 7 ==> is_demo_event(
            #[trigger] r@[i],
            demo_event_shapes()[i].0,
            demo_event_shapes()[i].1,
        ),
        forall|i: int|
            0 <= i < 7 ==> demo_id(
                #[trigger] r@[i],
                demo_event_shapes()[i].0,
                first_sequence.wrapping_add(i as u64),
            ),
        forall|i: int, j: int| 0 <= i < 7 && 0 <= j < 7 && i != j ==> r@[i].id.0@ != r@[j].id.0@,
{
    let v = vec![
        mock_process_event(first_sequence),
        mock_network_event(first_sequence.wrapping_add(1)),
        mock_file_event(first_sequence.wrapping_add(2)),
        mock_startup_event(first_sequence.wrapping_add(3)),
        mock_device_access_event(first_sequence.wrapping_add(4)),
        mock_locked_file_event(first_sequence.wrapping_add(5)),
        mock_security_event(first_sequence.wrapping_add(6)),
    ];
    proof {
        assert(first_sequence.wrapping_add(0) == first_sequence);
        assert forall|i: int| 0 <= i < 7 implies demo_id(
            #[trigger] v@[i],
            demo_event_shapes()[i].0,
            first_sequence.wrapping_add(i as u64),
        ) by {
            if i == 0 {
            } else if i == 1 {
            } else if i == 2 {
            } else if i == 3 {
            } else if i == 4 {
            } else if i == 5 {
            } else {
            }
        }
        assert forall|i: int, j: int| 0 <= i < 7 && 0 <= j < 7 && i != j implies v@[i].id.0@
            != v@[j].id.0@ by {
            assert(demo_id(v@[i], demo_event_shapes()[i].0, first_sequence.wrapping_add(i as u64)));
            assert(demo_id(v@[j], demo_event_shapes()[j].0, first_sequence.wrapping_add(j as u64)));
            lemma_demo_kind_names_differ_early(i, j);
            let ni = demo_event_shapes()[i].0.name();
            let nj = demo_event_shapes()[j].0.name();
            let a = choose|nanos: u128| v@[i].id.0@ == #[trigger] event_id_text(
                ni,
                nanos as nat,
                first_sequence.wrapping_add(i as u64) as nat,
            );
            let b = choose|nanos: u128| v@[j].id.0@ == #[trigger] event_id_text(
                nj,
                nanos as nat,
                first_sequence.wrapping_add(j as u64) as nat,
            );
            assert(v@[i].id.0@[0] == ni[0] && v@[i].id.0@[1] == ni[1]);
            assert(v@[j].id.0@[0] == nj[0] && v@[j].id.0@[1] == nj[1]);
        }
    }
    v
}

/// The kind names of the demo timeline differ in their first two characters.
proof fn lemma_demo_kind_names_differ_early(i: int, j: int)
    requires
        0 <= i < 7,
        0 <= j < 7,
        i != j,
    ensures
        demo_event_shapes()[i].0.name().len() >= 2,
        demo_event_shapes()[j].0.name().len() >= 2,
        demo_event_shapes()[i].0.name()[0] != demo_event_shapes()[j].0.name()[0]
            || demo_event_shapes()[i].0.name()[1] != demo_event_shapes()[j].0.name()[1],
{
    reveal_strlit("process");
    reveal_strlit("network");
    reveal_strlit("file");
    reveal_strlit("startup");
    reveal_strlit("device_access");
    reveal_strlit("locked_file");
    reveal_strlit("security");
}

/// Every demo event is marked as mock data with `demo_only` confidence, and
/// the demo timeline holds three warnings, one critical item and one event
/// of each of the seven kinds it covers.
pub proof fn law_demo_events_are_marked_mock(events: Seq<AccessEvent>)
    requires
        events.len() == 7,
        forall|i: int| 0 <= i < 7 ==> is_demo_event(
            #[trigger] events[i],
            demo_event_shapes()[i].0,
            demo_event_shapes()[i].1,
        ),
    ensures
        forall|i: int| 0 <= i < events.len() ==> (#[trigger] events[i]).source == EventSource::Mock
            && (events[i].confidence matches Some(c) && c@ == "demo_only"@),
        events.filter(|e: AccessEvent| e.severity == EventSeverity::Warning).len() == 3,
        events.filter(|e: AccessEvent| e.severity == EventSeverity::Critical).len() == 1,
        events.filter(|e: AccessEvent| e.kind == EventKind::Process).len() == 1,
{
    assert forall|i: int| 0 <= i < events.len() implies (#[trigger] events[i]).source == EventSource::Mock
        && (events[i].confidence matches Some(c) && c@ == "demo_only"@) by {
        assert(is_demo_event(events[i], demo_event_shapes()[i].0, demo_event_shapes()[i].1));
    }
    assert(is_demo_event(events[0], demo_event_shapes()[0].0, demo_event_shapes()[0].1));
    assert(is_demo_event(events[1], demo_event_shapes()[1].0, demo_event_shapes()[1].1));
    assert(is_demo_event(events[2], demo_event_shapes()[2].0, demo_event_shapes()[2].1));
    assert(is_demo_event(events[3], demo_event_shapes()[3].0, demo_event_shapes()[3].1));
    assert(is_demo_event(events[4], demo_event_shapes()[4].0, demo_event_shapes()[4].1));
    assert(is_demo_event(events[5], demo_event_shapes()[5].0, demo_event_shapes()[5].1));
    assert(is_demo_event(events[6], demo_event_shapes()[6].0, demo_event_shapes()[6].1));
    reveal_with_fuel(Seq::filter, 8);
    assert(events =~= seq![events[0], events[1], events[2], events[3], events[4], events[5], events[6]]);
}

} // verus!

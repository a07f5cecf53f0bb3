//! The Windows read-only backend: capability reporting and the decoding of
//! read-only snapshots (processes, network endpoints, startup entries).
//!
//! Taking a snapshot is I/O and happens outside the library; the snapshot
//! arrives here as a JSON document, or as the diagnostic that taking it
//! produced.  A missing snapshot means the host is not Windows.
use vstd::prelude::*;
use crate::actions::opt_view;
use crate::foundation::{
    CapabilityStatus, CapabilitySupportStatus, FileLockerInfo, NetworkConnectionInfo, ProcessInfo,
    ReadOnlyBackendError, ReadOnlyBackendErrorKind, ReadOnlyQueryResult, StartupEntryInfo,
    SystemPlatform, is_unsupported_result,
};
use crate::json::{JsonNumber, JsonValue, members_get};
use crate::text::{concat, decimal, is_blank, is_blank_exec, owned, texts, trim, trim_exec, with_decimal};

verus! {

pub const PROVIDER_NAME: &'static str = "windows_read_only";

#[derive(Debug, Clone, Copy, PartialEq, Eq, Structural)]
pub enum WindowsCapability {
    ProcessInventory,
    NetworkInventory,
    StartupInventory,
    EventCollection,
}

#[derive(Debug, Clone, PartialEq, Eq)]
pub struct WindowsBackendPlan {
    pub primary_platform: bool,
    pub requires_kernel_driver: bool,
    pub implemented: bool,
    pub planned_capabilities: Vec<WindowsCapability>,
}

/// The shape of the Windows backend: primary, user mode, implemented.
pub fn plan() -> (r: WindowsBackendPlan)
    ensures
        r.primary_platform,
        !r.requires_kernel_driver,
        r.implemented,
        r.planned_capabilities@ == seq![
            WindowsCapability::ProcessInventory,
            WindowsCapability::NetworkInventory,
            WindowsCapability::StartupInventory,
            WindowsCapability::EventCollection,
        ],
{
    let caps = vec![
        WindowsCapability::ProcessInventory,
        WindowsCapability::NetworkInventory,
        WindowsCapability::StartupInventory,
        WindowsCapability::EventCollection,
    ];
    assert(caps@ =~= seq![
        WindowsCapability::ProcessInventory,
        WindowsCapability::NetworkInventory,
        WindowsCapability::StartupInventory,
        WindowsCapability::EventCollection,
    ]);
    WindowsBackendPlan {
        primary_platform: true,
        requires_kernel_driver: false,
        implemented: true,
        planned_capabilities: caps,
    }
}

/// The capability ids the backend reports, in order.
pub open spec fn capability_ids() -> Seq<Seq<char>> {
    seq![
        "process_inventory"@,
        "process_details"@,
        "network_connections"@,
        "startup_entries"@,
        "file_lockers"@,
    ]
}

/// The labels of those capabilities, in the same order.
pub open spec fn capability_labels() -> Seq<Seq<char>> {
    seq![
        "Process inventory"@,
        "Process details"@,
        "Network connections"@,
        "Startup entries"@,
        "File locker detection"@,
    ]
}

/// Every capability of the backend, each unsupported for the same reason.
pub fn unsupported_capabilities(limitation: &str) -> (r: Vec<CapabilityStatus>)
    ensures
        r@.len() == 5,
        forall|i: int|
            0 <= i < 5 ==> (#[trigger] r@[i]).describes(
                capability_ids()[i],
                capability_labels()[i],
                CapabilitySupportStatus::Unsupported,
                "not_available"@,
                Some(limitation@),
            ),
{
    vec![
        CapabilityStatus::unsupported("process_inventory", "Process inventory", limitation),
        CapabilityStatus::unsupported("process_details", "Process details", limitation),
        CapabilityStatus::unsupported("network_connections", "Network connections", limitation),
        CapabilityStatus::unsupported("startup_entries", "Startup entries", limitation),
        CapabilityStatus::unsupported("file_lockers", "File locker detection", limitation),
    ]
}

pub const NOT_WINDOWS_LIMITATION: &'static str =
    "Windows read-only backend is only available on Windows.";

pub const STARTUP_CAPABILITY_LIMITATION: &'static str =
    "Registry Run keys and Startup folders are read best-effort; scheduled tasks are not parsed yet.";

pub const FILE_LOCKER_CAPABILITY_LIMITATION: &'static str =
    "Restart Manager based locker detection is planned; no handles are inspected or closed in this package.";

/// What the backend can report on this host.
pub fn system_capabilities(is_windows_host: bool) -> (r: Vec<CapabilityStatus>)
    ensures
        r@.len() == 5,
        forall|i: int| 0 <= i < 5 ==> (#[trigger] r@[i]).id@ == capability_ids()[i],
        forall|i: int| 0 <= i < 5 ==> (#[trigger] r@[i]).label@ == capability_labels()[i],
        !is_windows_host ==> forall|i: int|
            0 <= i < 5 ==> (#[trigger] r@[i]).describes(
                capability_ids()[i],
                capability_labels()[i],
                CapabilitySupportStatus::Unsupported,
                "not_available"@,
                Some(NOT_WINDOWS_LIMITATION@),
            ),
        is_windows_host ==> {
            &&& forall|i: int|
                0 <= i < 3 ==> (#[trigger] r@[i]).describes(
                    capability_ids()[i],
                    capability_labels()[i],
                    CapabilitySupportStatus::Supported,
                    "local_os_snapshot"@,
                    None,
                )
            &&& r@[3].describes(
                "startup_entries"@,
                "Startup entries"@,
                CapabilitySupportStatus::Partial,
                "local_os_snapshot"@,
                Some(STARTUP_CAPABILITY_LIMITATION@),
            )
            &&& r@[4].describes(
                "file_lockers"@,
                "File locker detection"@,
                CapabilitySupportStatus::Unsupported,
                "not_available"@,
                Some(FILE_LOCKER_CAPABILITY_LIMITATION@),
            )
        },
{
    if !is_windows_host {
        return unsupported_capabilities(NOT_WINDOWS_LIMITATION);
    }
    vec![
        CapabilityStatus::supported("process_inventory", "Process inventory"),
        CapabilityStatus::supported("process_details", "Process details"),
        CapabilityStatus::supported("network_connections", "Network connections"),
        CapabilityStatus::partial("startup_entries", "Startup entries", STARTUP_CAPABILITY_LIMITATION),
        CapabilityStatus::unsupported(
            "file_lockers",
            "File locker detection",
            FILE_LOCKER_CAPABILITY_LIMITATION,
        ),
    ]
}

/// The answer to a snapshot that could not be taken on Windows.
pub open spec fn is_query_error<T>(
    r: ReadOnlyQueryResult<T>,
    id: Seq<char>,
    label: Seq<char>,
    kind: ReadOnlyBackendErrorKind,
    limitation: Seq<char>,
) -> bool {
    &&& r.platform == SystemPlatform::Windows
    &&& r.provider@ == PROVIDER_NAME@
    &&& r.capability.describes(
        id,
        label,
        CapabilitySupportStatus::Unsupported,
        "not_available"@,
        Some(limitation),
    )
    &&& r.items@.len() == 0
    &&& r.error matches Some(e) && e.kind == kind && e.message@ == limitation
}

fn query_error<T>(
    capability_id: &str,
    capability_label: &str,
    kind: ReadOnlyBackendErrorKind,
    limitation: String,
) -> (r: ReadOnlyQueryResult<T>)
    ensures
        is_query_error(r, capability_id@, capability_label@, kind, limitation@),
{
    ReadOnlyQueryResult {
        platform: SystemPlatform::Windows,
        provider: owned(PROVIDER_NAME),
        capability: CapabilityStatus::unsupported(
            capability_id,
            capability_label,
            limitation.as_str(),
        ),
        items: Vec::new(),
        error: Some(ReadOnlyBackendError::new(kind, limitation.as_str())),
    }
}

pub const FILE_LOCKER_LIMITATION: &'static str =
    "Best-effort Restart Manager support is planned, but this package does not inspect or close handles.";

pub const FILE_LOCKER_ITEM_LIMITATION: &'static str =
    "No file handle inspection, unlock, process termination, or delete-on-reboot action was performed.";

/// File locker detection is an explicit, honest "unsupported" answer: one
/// item naming the path and saying that nothing was inspected.
pub fn detect_file_lockers(path: &str, is_windows_host: bool) -> (r: ReadOnlyQueryResult<FileLockerInfo>)
    ensures
        r.platform == (if is_windows_host {
            SystemPlatform::Windows
        } else {
            SystemPlatform::Unsupported
        }),
        r.provider@ == PROVIDER_NAME@,
        r.capability.describes(
            "file_lockers"@,
            "File locker detection"@,
            CapabilitySupportStatus::Unsupported,
            "not_available"@,
            Some(FILE_LOCKER_LIMITATION@),
        ),
        r.items@.len() == 1,
        r.items@[0].pid is None,
        r.items@[0].process_name is None,
        r.items@[0].process_path is None,
        r.items@[0].path@ == path@,
        r.items@[0].confidence@ == "unsupported"@,
        opt_view(r.items@[0].limitation) == Some(FILE_LOCKER_ITEM_LIMITATION@),
        r.error is None,
{
    ReadOnlyQueryResult {
        platform: if is_windows_host {
            SystemPlatform::Windows
        } else {
            SystemPlatform::Unsupported
        },
        provider: owned(PROVIDER_NAME),
        capability: CapabilityStatus::unsupported(
            "file_lockers",
            "File locker detection",
            FILE_LOCKER_LIMITATION,
        ),
        items: vec![
            FileLockerInfo {
                pid: None,
                process_name: None,
                process_path: None,
                path: owned(path),
                confidence: owned("unsupported"),
                limitation: Some(owned(FILE_LOCKER_ITEM_LIMITATION)),
            },
        ],
        error: None,
    }
}

// ---------------------------------------------------------------------------
// Reading snapshot records.
//
// A snapshot is an array of records, a single record, or `null` for none.
// A record is an object whose members are named in PascalCase, or an array
// that lists every field in order.  A field that is absent or `null` is
// empty; a field of the wrong kind makes the whole record unreadable, and an
// unreadable record is skipped.
// ---------------------------------------------------------------------------

/// The records of a snapshot document.
pub open spec fn json_records(v: JsonValue) -> Seq<JsonValue> {
    match v {
        JsonValue::Array(items) => items@,
        JsonValue::Null => Seq::empty(),
        _ => seq![v],
    }
}

/// The records of a snapshot document, by reference.
fn parse_json_array(value: &JsonValue) -> (r: Vec<&JsonValue>)
    ensures
        r@.len() == json_records(*value).len(),
        forall|i: int| 0 <= i < r@.len() ==> *r@[i] == json_records(*value)[i],
{
    match value {
        JsonValue::Array(items) => {
            let mut out: Vec<&JsonValue> = Vec::new();
            let n = items.len();
            let mut i: usize = 0;
            while i < n
                invariant
                    n == items@.len(),
                    i <= n,
                    out@.len() == i,
                    forall|j: int| 0 <= j < i ==> *out@[j] == items@[j],
                decreases n - i,
            {
                out.push(&items[i]);
                i = i + 1;
            }
            out
        },
        JsonValue::Null => Vec::new(),
        _ => vec![value],
    }
}

/// The JSON text of a snapshot command's output: the output without
/// surrounding whitespace, or `None` when the command printed nothing but
/// whitespace, which stands for a snapshot with no records.
pub fn snapshot_payload(output: &str) -> (r: Option<String>)
    ensures
        opt_view(r) == (if is_blank(output@) {
            None
        } else {
            Some(trim(output@))
        }),
{
    if is_blank_exec(output) {
        None
    } else {
        Some(trim_exec(output))
    }
}

/// The snapshot of a command that printed nothing: no records.
pub fn empty_snapshot() -> (r: JsonValue)
    ensures
        r matches JsonValue::Array(items) && items@.len() == 0,
        json_records(r).len() == 0,
{
    JsonValue::Array(Vec::new())
}

/// Whether a value can hold a record of `n` fields.
pub open spec fn record_shape(rec: JsonValue, n: nat) -> bool {
    match rec {
        JsonValue::Object(_) => true,
        JsonValue::Array(a) => a@.len() == n,
        _ => false,
    }
}

/// Field number `index`, named `name`, of a record.
pub open spec fn record_field(rec: JsonValue, name: Seq<char>, index: int) -> Option<JsonValue> {
    match rec {
        JsonValue::Object(m) => members_get(m@, name),
        JsonValue::Array(a) => if 0 <= index < a@.len() {
            Some(a@[index])
        } else {
            None
        },
        _ => None,
    }
}

/// An optional unsigned 32-bit field: `Some(None)` when empty, `None`
/// when the value cannot be one.
pub open spec fn u32_field(v: Option<JsonValue>) -> Option<Option<u32>> {
    match v {
        None => Some(None),
        Some(JsonValue::Null) => Some(None),
        Some(JsonValue::Number(JsonNumber::PosInt(n))) => if n <= u32::MAX {
            Some(Some(n as u32))
        } else {
            None
        },
        Some(JsonValue::Number(JsonNumber::NegInt(n))) => if 0 <= n <= u32::MAX {
            Some(Some(n as u32))
        } else {
            None
        },
        _ => None,
    }
}

/// An optional text field.
pub open spec fn text_field(v: Option<JsonValue>) -> Option<Option<Seq<char>>> {
    match v {
        None => Some(None),
        Some(JsonValue::Null) => Some(None),
        Some(JsonValue::Str(s)) => Some(Some(s@)),
        _ => None,
    }
}

/// An optional boolean field.
pub open spec fn bool_field(v: Option<JsonValue>) -> Option<Option<bool>> {
    match v {
        None => Some(None),
        Some(JsonValue::Null) => Some(None),
        Some(JsonValue::Bool(b)) => Some(Some(b)),
        _ => None,
    }
}

/// The content of a field that was read, empty otherwise.
pub open spec fn got<A>(f: Option<Option<A>>) -> Option<A> {
    match f {
        Some(x) => x,
        None => None,
    }
}

/// Text that is not blank, `None` otherwise.
pub open spec fn nonblank(s: Option<Seq<char>>) -> Option<Seq<char>> {
    match s {
        Some(t) => if is_blank(t) {
            None
        } else {
            Some(t)
        },
        None => None,
    }
}

/// Text, or a default when it is empty.
pub open spec fn or_default(s: Option<Seq<char>>, d: Seq<char>) -> Seq<char> {
    match s {
        Some(t) => t,
        None => d,
    }
}

pub open spec fn deref_opt(v: Option<&JsonValue>) -> Option<JsonValue> {
    match v {
        Some(x) => Some(*x),
        None => None,
    }
}

pub open spec fn opt_opt_view(v: Option<Option<String>>) -> Option<Option<Seq<char>>> {
    match v {
        Some(x) => Some(opt_view(x)),
        None => None,
    }
}

fn has_shape(rec: &JsonValue, n: usize) -> (r: bool)
    ensures
        r == record_shape(*rec, n as nat),
{
    match rec {
        JsonValue::Object(_) => true,
        JsonValue::Array(a) => a.len() == n,
        _ => false,
    }
}

fn field<'a>(rec: &'a JsonValue, name: &str, index: usize) -> (r: Option<&'a JsonValue>)
    ensures
        deref_opt(r) == record_field(*rec, name@, index as int),
{
    match rec {
        JsonValue::Object(_) => rec.get(name),
        JsonValue::Array(a) => if index < a.len() {
            Some(&a[index])
        } else {
            None
        },
        _ => None,
    }
}

fn read_u32(v: Option<&JsonValue>) -> (r: Option<Option<u32>>)
    ensures
        r == u32_field(deref_opt(v)),
{
    match v {
        None => Some(None),
        Some(JsonValue::Null) => Some(None),
        Some(JsonValue::Number(JsonNumber::PosInt(n))) => if *n <= 0xffff_ffffu64 {
            Some(Some(*n as u32))
        } else {
            None
        },
        Some(JsonValue::Number(JsonNumber::NegInt(n))) => if 0 <= *n && *n <= 0xffff_ffffi64 {
            Some(Some(*n as u32))
        } else {
            None
        },
        _ => None,
    }
}

fn read_text(v: Option<&JsonValue>) -> (r: Option<Option<String>>)
    ensures
        opt_opt_view(r) == text_field(deref_opt(v)),
{
    match v {
        None => Some(None),
        Some(JsonValue::Null) => Some(None),
        Some(JsonValue::Str(s)) => Some(Some(s.clone())),
        _ => None,
    }
}

fn read_bool(v: Option<&JsonValue>) -> (r: Option<Option<bool>>)
    ensures
        r == bool_field(deref_opt(v)),
{
    match v {
        None => Some(None),
        Some(JsonValue::Null) => Some(None),
        Some(JsonValue::Bool(b)) => Some(Some(*b)),
        _ => None,
    }
}

/// `Option::filter` that drops blank text.
fn keep_nonblank(s: Option<String>) -> (r: Option<String>)
    ensures
        opt_view(r) == nonblank(opt_view(s)),
{
    match s {
        Some(t) => if is_blank_exec(t.as_str()) {
            None
        } else {
            Some(t)
        },
        None => None,
    }
}

fn text_or(s: Option<String>, default: &str) -> (r: String)
    ensures
        r@ == or_default(opt_view(s), default@),
{
    match s {
        Some(t) => t,
        None => owned(default),
    }
}

/// `u16::try_from(value).ok()`.
fn to_u16(value: u32) -> (r: Option<u16>)
    ensures
        r == (if value <= u16::MAX {
            Some(value as u16)
        } else {
            None::<u16>
        }),
{
    if value <= 0xffffu32 {
        Some(value as u16)
    } else {
        None
    }
}

/// Filtering the first `i + 1` items adds at most the item at `i`.
proof fn lemma_filter_take_step<A>(s: Seq<A>, p: spec_fn(A) -> bool, i: int)
    requires
        0 <= i < s.len(),
    ensures
        s.take(i + 1).filter(p) == (if p(s[i]) {
            s.take(i).filter(p).push(s[i])
        } else {
            s.take(i).filter(p)
        }),
{
    reveal(Seq::filter);
    assert(s.take(i + 1).drop_last() =~= s.take(i));
    assert(s.take(i + 1).last() == s[i]);
}

/// Filtering two sequences that correspond item by item, with predicates
/// that agree on corresponding items, keeps corresponding items.
pub proof fn lemma_filter_corresponds<A, B>(
    a: Seq<A>,
    b: Seq<B>,
    pa: spec_fn(A) -> bool,
    pb: spec_fn(B) -> bool,
    rel: spec_fn(A, B) -> bool,
)
    requires
        a.len() == b.len(),
        forall|i: int| 0 <= i < a.len() ==> #[trigger] rel(a[i], b[i]),
        forall|i: int| 0 <= i < a.len() ==> (pa(#[trigger] a[i]) <==> pb(b[i])),
    ensures
        a.filter(pa).len() == b.filter(pb).len(),
        forall|i: int| 0 <= i < a.filter(pa).len() ==> #[trigger] rel(a.filter(pa)[i], b.filter(pb)[i]),
    decreases a.len(),
{
    reveal(Seq::filter);
    if a.len() > 0 {
        let a0 = a.drop_last();
        let b0 = b.drop_last();
        assert forall|i: int| 0 <= i < a0.len() implies #[trigger] rel(a0[i], b0[i]) by {
            assert(rel(a[i], b[i]));
        }
        assert forall|i: int| 0 <= i < a0.len() implies (pa(#[trigger] a0[i]) <==> pb(b0[i])) by {
            assert(pa(a[i]) <==> pb(b[i]));
        }
        lemma_filter_corresponds(a0, b0, pa, pb, rel);
        assert(rel(a[a.len() - 1], b[b.len() - 1]));
        assert(pa(a[a.len() - 1]) <==> pb(b[b.len() - 1]));
    }
}

// ---------------------------------------------------------------------------
// Processes.
// ---------------------------------------------------------------------------

pub const PROCESS_ITEM_LIMITATION: &'static str =
    "Read-only Win32_Process snapshot; protected process details may be unavailable.";

/// Whether a record is a readable process record.
pub open spec fn process_record_ok(rec: JsonValue) -> bool {
    &&& record_shape(rec, 6)
    &&& u32_field(record_field(rec, "ProcessId"@, 0)) is Some
    &&& u32_field(record_field(rec, "ParentProcessId"@, 1)) is Some
    &&& text_field(record_field(rec, "Name"@, 2)) is Some
    &&& text_field(record_field(rec, "ExecutablePath"@, 3)) is Some
    &&& text_field(record_field(rec, "CommandLine"@, 4)) is Some
    &&& text_field(record_field(rec, "CreationDate"@, 5)) is Some
}

/// The process id a process record carries, if any.
pub open spec fn record_pid(rec: JsonValue) -> Option<u32> {
    got(u32_field(record_field(rec, "ProcessId"@, 0)))
}

/// A record becomes a process when it is readable and carries a process id.
pub open spec fn process_kept(rec: JsonValue) -> bool {
    process_record_ok(rec) && record_pid(rec) is Some
}

/// The name of the process a record describes: its name, or `pid-<id>`.
pub open spec fn record_process_name(rec: JsonValue) -> Seq<char> {
    match got(text_field(record_field(rec, "Name"@, 2))) {
        Some(n) => n,
        None => "pid-"@ + decimal(record_pid(rec).unwrap() as nat),
    }
}

/// The executable path of the process a record describes, when not blank.
pub open spec fn record_process_path(rec: JsonValue) -> Option<Seq<char>> {
    nonblank(got(text_field(record_field(rec, "ExecutablePath"@, 3))))
}

/// The process that a kept record describes.
pub open spec fn process_from_record(rec: JsonValue, p: ProcessInfo) -> bool {
    &&& record_pid(rec) == Some(p.pid)
    &&& p.name@ == record_process_name(rec)
    &&& opt_view(p.path) == record_process_path(rec)
    &&& p.parent_pid == got(u32_field(record_field(rec, "ParentProcessId"@, 1)))
    &&& opt_view(p.command_line) == nonblank(got(text_field(record_field(rec, "CommandLine"@, 4))))
    &&& opt_view(p.started_at) == nonblank(got(text_field(record_field(rec, "CreationDate"@, 5))))
    &&& p.owner is None
    &&& p.source@ == "windows_backend"@
    &&& p.confidence@ == "best_effort"@
    &&& texts(p.limitations@) == seq![PROCESS_ITEM_LIMITATION@]
}

/// The records of a process snapshot that become processes, in order.
pub open spec fn kept_processes(v: JsonValue) -> Seq<JsonValue> {
    json_records(v).filter(|rec: JsonValue| process_kept(rec))
}

/// `items` are the processes that `recs` describe, one for one, in order.
pub open spec fn processes_match(recs: Seq<JsonValue>, items: Seq<ProcessInfo>) -> bool {
    &&& items.len() == recs.len()
    &&& forall|i: int| 0 <= i < recs.len() ==> #[trigger] process_from_record(recs[i], items[i])
}

/// The process a record describes, if it is kept.
fn decode_process(rec: &JsonValue) -> (r: Option<ProcessInfo>)
    ensures
        r is Some <==> process_kept(*rec),
        r matches Some(p) ==> process_from_record(*rec, p),
{
    if !has_shape(rec, 6) {
        return None;
    }
    let process_id = match read_u32(field(rec, "ProcessId", 0)) {
        Some(v) => v,
        None => return None,
    };
    let parent_process_id = match read_u32(field(rec, "ParentProcessId", 1)) {
        Some(v) => v,
        None => return None,
    };
    let name = match read_text(field(rec, "Name", 2)) {
        Some(v) => v,
        None => return None,
    };
    let executable_path = match read_text(field(rec, "ExecutablePath", 3)) {
        Some(v) => v,
        None => return None,
    };
    let command_line = match read_text(field(rec, "CommandLine", 4)) {
        Some(v) => v,
        None => return None,
    };
    let creation_date = match read_text(field(rec, "CreationDate", 5)) {
        Some(v) => v,
        None => return None,
    };
    let pid = match process_id {
        Some(pid) => pid,
        None => return None,
    };
    let name = match name {
        Some(n) => n,
        None => with_decimal("pid-", pid as u128),
    };
    let limitations = vec![owned(PROCESS_ITEM_LIMITATION)];
    assert(texts(limitations@) =~= seq![PROCESS_ITEM_LIMITATION@]);
    Some(
        ProcessInfo {
            pid,
            name,
            path: keep_nonblank(executable_path),
            parent_pid: parent_process_id,
            command_line: keep_nonblank(command_line),
            started_at: keep_nonblank(creation_date),
            owner: None,
            source: owned("windows_backend"),
            confidence: owned("best_effort"),
            limitations,
        },
    )
}

/// The processes of a snapshot: one for each readable record that carries
/// a process id, in snapshot order.
pub fn parse_processes(value: &JsonValue) -> (r: Vec<ProcessInfo>)
    ensures
        processes_match(kept_processes(*value), r@),
{
    let records = parse_json_array(value);
    let ghost recs = json_records(*value);
    let ghost keep = |rec: JsonValue| process_kept(rec);
    let mut out: Vec<ProcessInfo> = Vec::new();
    let n = records.len();
    let mut i: usize = 0;
    while i < n
        invariant
            n == records@.len(),
            n == recs.len(),
            forall|j: int| 0 <= j < n ==> *records@[j] == recs[j],
            keep == (|rec: JsonValue| process_kept(rec)),
            i <= n,
            processes_match(recs.take(i as int).filter(keep), out@),
        decreases n - i,
    {
        proof {
            lemma_filter_take_step(recs, keep, i as int);
        }
        let ghost before = out@;
        match decode_process(records[i]) {
            Some(p) => {
                out.push(p);
                assert(processes_match(recs.take(i + 1).filter(keep), out@)) by {
                    assert(out@ == before.push(p));
                }
            },
            None => {},
        }
        i = i + 1;
    }
    assert(recs.take(n as int) =~= recs);
    out
}

// ---------------------------------------------------------------------------
// Network endpoints.
// ---------------------------------------------------------------------------

/// What a connection needs to know of a process: its id, name and path.
pub type ProcessView = (u32, Seq<char>, Option<Seq<char>>);

/// The views of a list of processes.
pub open spec fn process_views(items: Seq<ProcessInfo>) -> Seq<ProcessView> {
    items.map_values(|p: ProcessInfo| (p.pid, p.name@, opt_view(p.path)))
}

/// The views of the processes that a list of kept records describe.
pub open spec fn record_process_views(recs: Seq<JsonValue>) -> Seq<ProcessView> {
    recs.map_values(|rec: JsonValue| (record_pid(rec).unwrap(), record_process_name(rec), record_process_path(rec)))
}

/// The processes of a snapshot have the views that their records give.
pub proof fn lemma_process_views_match(recs: Seq<JsonValue>, items: Seq<ProcessInfo>)
    requires
        processes_match(recs, items),
    ensures
        process_views(items) == record_process_views(recs),
{
    assert forall|i: int| 0 <= i < recs.len() implies #[trigger] process_views(items)[i]
        == record_process_views(recs)[i] by {
        assert(process_from_record(recs[i], items[i]));
    }
    assert(process_views(items) =~= record_process_views(recs));
}

/// Index of the first process at or after `from` with process id `pid`, or
/// the length.
pub open spec fn owner_index(ps: Seq<ProcessView>, pid: u32, from: int) -> int
    decreases ps.len() - from,
{
    if from < 0 || from >= ps.len() {
        ps.len() as int
    } else if ps[from].0 == pid {
        from
    } else {
        owner_index(ps, pid, from + 1)
    }
}

/// The process that owns an endpoint: the first one with its process id.
pub open spec fn owner_of(ps: Seq<ProcessView>, pid: Option<u32>) -> Option<ProcessView> {
    match pid {
        Some(p) => {
            let k = owner_index(ps, p, 0);
            if k < ps.len() {
                Some(ps[k])
            } else {
                None
            }
        },
        None => None,
    }
}

/// Whether a record is a readable network endpoint record.
pub open spec fn connection_record_ok(rec: JsonValue) -> bool {
    &&& record_shape(rec, 7)
    &&& text_field(record_field(rec, "Protocol"@, 0)) is Some
    &&& text_field(record_field(rec, "LocalAddress"@, 1)) is Some
    &&& u32_field(record_field(rec, "LocalPort"@, 2)) is Some
    &&& text_field(record_field(rec, "RemoteAddress"@, 3)) is Some
    &&& u32_field(record_field(rec, "RemotePort"@, 4)) is Some
    &&& text_field(record_field(rec, "State"@, 5)) is Some
    &&& u32_field(record_field(rec, "OwningProcess"@, 6)) is Some
}

/// A port number, when it fits in 16 bits.
pub open spec fn port_of(v: Option<u32>) -> Option<u16> {
    match v {
        Some(x) => if x <= u16::MAX {
            Some(x as u16)
        } else {
            None
        },
        None => None,
    }
}

/// The endpoint that a readable record describes, given the processes of
/// the same moment.
pub open spec fn connection_from_record(
    rec: JsonValue,
    ps: Seq<ProcessView>,
    c: NetworkConnectionInfo,
) -> bool {
    let owning = got(u32_field(record_field(rec, "OwningProcess"@, 6)));
    &&& c.protocol@ == or_default(got(text_field(record_field(rec, "Protocol"@, 0))), "unknown"@)
    &&& c.local_addr@ == or_default(
        got(text_field(record_field(rec, "LocalAddress"@, 1))),
        "unknown"@,
    )
    &&& c.local_port == port_of(got(u32_field(record_field(rec, "LocalPort"@, 2))))
    &&& opt_view(c.remote_addr) == nonblank(got(text_field(record_field(rec, "RemoteAddress"@, 3))))
    &&& c.remote_port == port_of(got(u32_field(record_field(rec, "RemotePort"@, 4))))
    &&& opt_view(c.state) == nonblank(got(text_field(record_field(rec, "State"@, 5))))
    &&& c.pid == owning
    &&& match owner_of(ps, owning) {
        Some(v) => opt_view(c.process_name) == Some(v.1) && opt_view(c.process_path) == v.2,
        None => c.process_name is None && c.process_path is None,
    }
}

/// The readable records of a network snapshot, in order.
pub open spec fn kept_connections(v: JsonValue) -> Seq<JsonValue> {
    json_records(v).filter(|rec: JsonValue| connection_record_ok(rec))
}

/// `items` are the endpoints that `recs` describe, one for one, in order.
pub open spec fn connections_match(
    recs: Seq<JsonValue>,
    ps: Seq<ProcessView>,
    items: Seq<NetworkConnectionInfo>,
) -> bool {
    &&& items.len() == recs.len()
    &&& forall|i: int| 0 <= i < recs.len() ==> #[trigger] connection_from_record(recs[i], ps, items[i])
}

/// The first process with process id `pid`, by index into `processes`.
fn find_owner(processes: &[ProcessInfo], pid: u32) -> (r: Option<usize>)
    ensures
        r matches Some(k) ==> k < processes@.len() && owner_index(process_views(processes@), pid, 0) == k,
        r is None ==> owner_index(process_views(processes@), pid, 0) == processes@.len(),
{
    let ghost ps = process_views(processes@);
    let n = processes.len();
    let mut i: usize = 0;
    while i < n
        invariant
            n == processes@.len(),
            ps == process_views(processes@),
            i <= n,
            owner_index(ps, pid, 0) == owner_index(ps, pid, i as int),
        decreases n - i,
    {
        if processes[i].pid == pid {
            assert(ps[i as int].0 == pid);
            return Some(i);
        }
        assert(owner_index(ps, pid, i as int) == owner_index(ps, pid, i + 1));
        i = i + 1;
    }
    None
}

/// The endpoint a record describes, if it is readable.
fn decode_connection(rec: &JsonValue, processes: &[ProcessInfo]) -> (r: Option<NetworkConnectionInfo>)
    ensures
        r is Some <==> connection_record_ok(*rec),
        r matches Some(c) ==> connection_from_record(*rec, process_views(processes@), c),
{
    if !has_shape(rec, 7) {
        return None;
    }
    let protocol = match read_text(field(rec, "Protocol", 0)) {
        Some(v) => v,
        None => return None,
    };
    let local_address = match read_text(field(rec, "LocalAddress", 1)) {
        Some(v) => v,
        None => return None,
    };
    let local_port = match read_u32(field(rec, "LocalPort", 2)) {
        Some(v) => v,
        None => return None,
    };
    let remote_address = match read_text(field(rec, "RemoteAddress", 3)) {
        Some(v) => v,
        None => return None,
    };
    let remote_port = match read_u32(field(rec, "RemotePort", 4)) {
        Some(v) => v,
        None => return None,
    };
    let state = match read_text(field(rec, "State", 5)) {
        Some(v) => v,
        None => return None,
    };
    let owning_process = match read_u32(field(rec, "OwningProcess", 6)) {
        Some(v) => v,
        None => return None,
    };
    let owner = match owning_process {
        Some(pid) => find_owner(processes, pid),
        None => None,
    };
    let (process_name, process_path) = match owner {
        Some(k) => (Some(processes[k].name.clone()), processes[k].path.clone()),
        None => (None, None),
    };
    let local_port = match local_port {
        Some(p) => to_u16(p),
        None => None,
    };
    let remote_port = match remote_port {
        Some(p) => to_u16(p),
        None => None,
    };
    Some(
        NetworkConnectionInfo {
            protocol: text_or(protocol, "unknown"),
            local_addr: text_or(local_address, "unknown"),
            local_port,
            remote_addr: keep_nonblank(remote_address),
            remote_port,
            state: keep_nonblank(state),
            pid: owning_process,
            process_name,
            process_path,
        },
    )
}

/// The endpoints of a network snapshot: one for each readable record, in
/// snapshot order, each mapped to the first process with its owning id.
pub fn parse_network_connections(value: &JsonValue, processes: &[ProcessInfo]) -> (r: Vec<
    NetworkConnectionInfo,
>)
    ensures
        connections_match(kept_connections(*value), process_views(processes@), r@),
{
    let records = parse_json_array(value);
    let ghost recs = json_records(*value);
    let ghost ps = process_views(processes@);
    let ghost keep = |rec: JsonValue| connection_record_ok(rec);
    let mut out: Vec<NetworkConnectionInfo> = Vec::new();
    let n = records.len();
    let mut i: usize = 0;
    while i < n
        invariant
            n == records@.len(),
            n == recs.len(),
            forall|j: int| 0 <= j < n ==> *records@[j] == recs[j],
            keep == (|rec: JsonValue| connection_record_ok(rec)),
            ps == process_views(processes@),
            i <= n,
            connections_match(recs.take(i as int).filter(keep), ps, out@),
        decreases n - i,
    {
        proof {
            lemma_filter_take_step(recs, keep, i as int);
        }
        let ghost before = out@;
        match decode_connection(records[i], processes) {
            Some(c) => {
                out.push(c);
                assert(connections_match(recs.take(i + 1).filter(keep), ps, out@)) by {
                    assert(out@ == before.push(c));
                }
            },
            None => {},
        }
        i = i + 1;
    }
    assert(recs.take(n as int) =~= recs);
    out
}

// ---------------------------------------------------------------------------
// Startup entries.
// ---------------------------------------------------------------------------

/// Whether a record is a readable startup entry record.
pub open spec fn startup_record_ok(rec: JsonValue) -> bool {
    &&& record_shape(rec, 8)
    &&& text_field(record_field(rec, "Id"@, 0)) is Some
    &&& text_field(record_field(rec, "Name"@, 1)) is Some
    &&& text_field(record_field(rec, "Source"@, 2)) is Some
    &&& text_field(record_field(rec, "Command"@, 3)) is Some
    &&& text_field(record_field(rec, "Path"@, 4)) is Some
    &&& bool_field(record_field(rec, "Enabled"@, 5)) is Some
    &&& text_field(record_field(rec, "Scope"@, 6)) is Some
    &&& text_field(record_field(rec, "Limitation"@, 7)) is Some
}

/// A record becomes a startup entry when it is readable and has an id.
pub open spec fn startup_kept(rec: JsonValue) -> bool {
    startup_record_ok(rec) && got(text_field(record_field(rec, "Id"@, 0))) is Some
}

/// The startup entry that a kept record describes.
pub open spec fn startup_from_record(rec: JsonValue, e: StartupEntryInfo) -> bool {
    &&& Some(e.id@) == got(text_field(record_field(rec, "Id"@, 0)))
    &&& e.name@ == or_default(got(text_field(record_field(rec, "Name"@, 1))), "Startup entry"@)
    &&& e.source@ == or_default(got(text_field(record_field(rec, "Source"@, 2))), "Unknown"@)
    &&& opt_view(e.command) == nonblank(got(text_field(record_field(rec, "Command"@, 3))))
    &&& opt_view(e.path) == nonblank(got(text_field(record_field(rec, "Path"@, 4))))
    &&& e.enabled == got(bool_field(record_field(rec, "Enabled"@, 5)))
    &&& e.scope@ == or_default(got(text_field(record_field(rec, "Scope"@, 6))), "Unknown"@)
    &&& e.publisher is None
    &&& opt_view(e.risk) == Some("unknown"@)
    &&& opt_view(e.limitation) == got(text_field(record_field(rec, "Limitation"@, 7)))
}

/// The records of a startup snapshot that become entries, in order.
pub open spec fn kept_startup_entries(v: JsonValue) -> Seq<JsonValue> {
    json_records(v).filter(|rec: JsonValue| startup_kept(rec))
}

/// `items` are the startup entries that `recs` describe, one for one, in order.
pub open spec fn startup_entries_match(recs: Seq<JsonValue>, items: Seq<StartupEntryInfo>) -> bool {
    &&& items.len() == recs.len()
    &&& forall|i: int| 0 <= i < recs.len() ==> #[trigger] startup_from_record(recs[i], items[i])
}

/// The startup entry a record describes, if it is kept.
fn decode_startup_entry(rec: &JsonValue) -> (r: Option<StartupEntryInfo>)
    ensures
        r is Some <==> startup_kept(*rec),
        r matches Some(e) ==> startup_from_record(*rec, e),
{
    if !has_shape(rec, 8) {
        return None;
    }
    let id = match read_text(field(rec, "Id", 0)) {
        Some(v) => v,
        None => return None,
    };
    let name = match read_text(field(rec, "Name", 1)) {
        Some(v) => v,
        None => return None,
    };
    let source = match read_text(field(rec, "Source", 2)) {
        Some(v) => v,
        None => return None,
    };
    let command = match read_text(field(rec, "Command", 3)) {
        Some(v) => v,
        None => return None,
    };
    let path = match read_text(field(rec, "Path", 4)) {
        Some(v) => v,
        None => return None,
    };
    let enabled = match read_bool(field(rec, "Enabled", 5)) {
        Some(v) => v,
        None => return None,
    };
    let scope = match read_text(field(rec, "Scope", 6)) {
        Some(v) => v,
        None => return None,
    };
    let limitation = match read_text(field(rec, "Limitation", 7)) {
        Some(v) => v,
        None => return None,
    };
    let id = match id {
        Some(v) => v,
        None => return None,
    };
    Some(
        StartupEntryInfo {
            id,
            name: text_or(name, "Startup entry"),
            source: text_or(source, "Unknown"),
            command: keep_nonblank(command),
            path: keep_nonblank(path),
            enabled,
            scope: text_or(scope, "Unknown"),
            publisher: None,
            risk: Some(owned("unknown")),
            limitation,
        },
    )
}

/// The startup entries of a snapshot: one for each readable record that
/// has an id, in snapshot order.
pub fn parse_startup_entries(value: &JsonValue) -> (r: Vec<StartupEntryInfo>)
    ensures
        startup_entries_match(kept_startup_entries(*value), r@),
{
    let records = parse_json_array(value);
    let ghost recs = json_records(*value);
    let ghost keep = |rec: JsonValue| startup_kept(rec);
    let mut out: Vec<StartupEntryInfo> = Vec::new();
    let n = records.len();
    let mut i: usize = 0;
    while i < n
        invariant
            n == records@.len(),
            n == recs.len(),
            forall|j: int| 0 <= j < n ==> *records@[j] == recs[j],
            keep == (|rec: JsonValue| startup_kept(rec)),
            i <= n,
            startup_entries_match(recs.take(i as int).filter(keep), out@),
        decreases n - i,
    {
        proof {
            lemma_filter_take_step(recs, keep, i as int);
        }
        let ghost before = out@;
        match decode_startup_entry(records[i]) {
            Some(e) => {
                out.push(e);
                assert(startup_entries_match(recs.take(i + 1).filter(keep), out@)) by {
                    assert(out@ == before.push(e));
                }
            },
            None => {},
        }
        i = i + 1;
    }
    assert(recs.take(n as int) =~= recs);
    out
}

// ---------------------------------------------------------------------------
// Queries.
// ---------------------------------------------------------------------------

/// A snapshot answer from Windows: the capability it used, no error.
pub open spec fn is_snapshot_result<T>(
    r: ReadOnlyQueryResult<T>,
    id: Seq<char>,
    label: Seq<char>,
    limitation: Seq<char>,
) -> bool {
    &&& r.platform == SystemPlatform::Windows
    &&& r.provider@ == PROVIDER_NAME@
    &&& r.capability.describes(
        id,
        label,
        CapabilitySupportStatus::Partial,
        "local_os_snapshot"@,
        Some(limitation),
    )
    &&& r.error is None
}

/// A read-only answer that does not pretend: it is marked read-only, and
/// when its capability is unsupported it holds no items and says why.
pub open spec fn is_honest_result<T>(r: ReadOnlyQueryResult<T>) -> bool {
    &&& r.capability.read_only
    &&& !r.capability.supported ==> r.items@.len() == 0 && r.error is Some
}

pub const PROCESS_INVENTORY_LIMITATION: &'static str =
    "Executable path, command line, owner, and start time are best-effort and may be unavailable.";

pub const PROCESS_INVENTORY_UNSUPPORTED: &'static str =
    "Windows process inventory is unsupported on this platform.";

pub const PROCESS_QUERY_FAILED: &'static str = "Failed to query Windows process inventory: ";

/// The process inventory: unsupported off Windows, the processes of the
/// snapshot when it was taken, a query error when it could not be.
pub fn list_processes(snapshot: Option<Result<JsonValue, ReadOnlyBackendError>>) -> (r:
    ReadOnlyQueryResult<ProcessInfo>)
    ensures
        is_honest_result(r),
        snapshot is None ==> is_unsupported_result(
            r,
            PROVIDER_NAME@,
            "process_inventory"@,
            "Process inventory"@,
            PROCESS_INVENTORY_UNSUPPORTED@,
        ),
        snapshot matches Some(Ok(v)) ==> is_snapshot_result(
            r,
            "process_inventory"@,
            "Process inventory"@,
            PROCESS_INVENTORY_LIMITATION@,
        ) && processes_match(kept_processes(v), r.items@),
        snapshot matches Some(Err(e)) ==> is_query_error(
            r,
            "process_inventory"@,
            "Process inventory"@,
            e.kind,
            PROCESS_QUERY_FAILED@ + e.message@,
        ),
{
    match snapshot {
        None => ReadOnlyQueryResult::unsupported(
            PROVIDER_NAME,
            "process_inventory",
            "Process inventory",
            PROCESS_INVENTORY_UNSUPPORTED,
        ),
        Some(Ok(value)) => ReadOnlyQueryResult {
            platform: SystemPlatform::Windows,
            provider: owned(PROVIDER_NAME),
            capability: CapabilityStatus::partial(
                "process_inventory",
                "Process inventory",
                PROCESS_INVENTORY_LIMITATION,
            ),
            items: parse_processes(&value),
            error: None,
        },
        Some(Err(error)) => query_error(
            "process_inventory",
            "Process inventory",
            error.kind,
            concat(PROCESS_QUERY_FAILED, error.message.as_str()),
        ),
    }
}

/// The processes of a list whose id is `pid`, in order.
fn retain_pid(items: Vec<ProcessInfo>, pid: u32) -> (r: Vec<ProcessInfo>)
    ensures
        r@ == items@.filter(|p: ProcessInfo| p.pid == pid),
{
    let ghost s = items@;
    let ghost keep = |p: ProcessInfo| p.pid == pid;
    let mut out: Vec<ProcessInfo> = Vec::new();
    for p in it: items.into_iter()
        invariant
            it.seq() == s,
            keep == (|p: ProcessInfo| p.pid == pid),
            out@ == s.take(it.index() as int).filter(keep),
    {
        proof {
            lemma_filter_take_step(s, keep, it.index() as int);
        }
        if p.pid == pid {
            out.push(p);
        }
    }
    assert(s.take(s.len() as int) =~= s);
    out
}

pub const PROCESS_DETAILS_UNSUPPORTED: &'static str =
    "Windows process details are unsupported on this platform.";

/// The limitation given when no process with the requested id was read.
pub open spec fn process_not_found(pid: u32) -> Seq<char> {
    "Process "@ + decimal(pid as nat) + " was not found or could not be read at snapshot time."@
}

/// The details of one process: the processes of the inventory whose id is
/// `pid`, under the "process details" capability; the limitation says so
/// when none was read.
pub fn get_process_details(pid: u32, snapshot: Option<Result<JsonValue, ReadOnlyBackendError>>) -> (r:
    ReadOnlyQueryResult<ProcessInfo>)
    ensures
        is_honest_result(r),
        snapshot is None ==> is_unsupported_result(
            r,
            PROVIDER_NAME@,
            "process_details"@,
            "Process details"@,
            PROCESS_DETAILS_UNSUPPORTED@,
        ),
        snapshot matches Some(Ok(v)) ==> {
            &&& is_snapshot_result(
                r,
                "process_details"@,
                "Process details"@,
                if r.items@.len() == 0 {
                    process_not_found(pid)
                } else {
                    PROCESS_INVENTORY_LIMITATION@
                },
            )
            &&& processes_match(
                kept_processes(v).filter(|rec: JsonValue| record_pid(rec) == Some(pid)),
                r.items@,
            )
        },
        forall|i: int| 0 <= i < r.items@.len() ==> (#[trigger] r.items@[i]).pid == pid,
        snapshot matches Some(Err(e)) ==> {
            &&& r.platform == SystemPlatform::Windows
            &&& r.provider@ == PROVIDER_NAME@
            &&& r.capability.describes(
                "process_details"@,
                "Process details"@,
                CapabilitySupportStatus::Unsupported,
                "not_available"@,
                Some(process_not_found(pid)),
            )
            &&& r.items@.len() == 0
            &&& r.error matches Some(x) && x.kind == e.kind && x.message@ == PROCESS_QUERY_FAILED@
                + e.message@
        },
{
    match snapshot {
        None => ReadOnlyQueryResult::unsupported(
            PROVIDER_NAME,
            "process_details",
            "Process details",
            PROCESS_DETAILS_UNSUPPORTED,
        ),
        Some(s) => {
            let ghost sn = s;
            let ReadOnlyQueryResult { platform, provider, capability, items, error } =
                list_processes(Some(s));
            let ghost all = items@;
            let kept = retain_pid(items, pid);
            proof {
                let pb = |p: ProcessInfo| p.pid == pid;
                assert forall|i: int| 0 <= i < kept@.len() implies (#[trigger] kept@[i]).pid == pid by {
                    all.lemma_filter_pred(pb, i);
                }
            }
            proof {
                if sn is Ok {
                    let recs = kept_processes(sn->Ok_0);
                    let pa = |rec: JsonValue| record_pid(rec) == Some(pid);
                    let pb = |p: ProcessInfo| p.pid == pid;
                    let rel = |rec: JsonValue, p: ProcessInfo| process_from_record(rec, p);
                    assert forall|i: int| 0 <= i < recs.len() implies #[trigger] rel(recs[i], all[i]) by {
                        assert(process_from_record(recs[i], all[i]));
                    }
                    assert forall|i: int| 0 <= i < recs.len() implies (pa(#[trigger] recs[i]) <==> pb(
                        all[i],
                    )) by {
                        assert(process_from_record(recs[i], all[i]));
                    }
                    lemma_filter_corresponds(recs, all, pa, pb, rel);
                    let fa = recs.filter(pa);
                    let fb = all.filter(pb);
                    assert forall|i: int| 0 <= i < fa.len() implies #[trigger] process_from_record(
                        fa[i],
                        fb[i],
                    ) by {
                        assert(rel(fa[i], fb[i]));
                    }
                    assert(recs.filter(pa) == kept_processes(sn->Ok_0).filter(
                        |rec: JsonValue| record_pid(rec) == Some(pid),
                    ));
                    assert(all.filter(pb) == all.filter(|p: ProcessInfo| p.pid == pid));
                } else {
                    assert(all.filter(|p: ProcessInfo| p.pid == pid).len() <= all.len()) by {
                        all.lemma_filter_len(|p: ProcessInfo| p.pid == pid);
                    }
                }
            }
            let mut capability = capability;
            capability.id = owned("process_details");
            capability.label = owned("Process details");
            if kept.len() == 0 {
                let head = with_decimal("Process ", pid as u128);
                capability.limitation = Some(
                    concat(
                        head.as_str(),
                        " was not found or could not be read at snapshot time.",
                    ),
                );
            }
            ReadOnlyQueryResult { platform, provider, capability, items: kept, error }
        },
    }
}

pub const NETWORK_LIMITATION: &'static str =
    "Connection data is a point-in-time read-only snapshot. Process mapping is best-effort.";

pub const NETWORK_UNSUPPORTED: &'static str =
    "Windows network connection inventory is unsupported on this platform.";

pub const NETWORK_QUERY_FAILED: &'static str = "Failed to query Windows network connections: ";

/// The process views a process snapshot gives: those of its processes, or
/// none when it could not be taken.
pub open spec fn snapshot_process_views(s: Result<JsonValue, ReadOnlyBackendError>) -> Seq<ProcessView> {
    match s {
        Ok(v) => record_process_views(kept_processes(v)),
        Err(_) => Seq::empty(),
    }
}

/// The network endpoints: unsupported off Windows; otherwise the endpoints
/// of the network snapshot, each mapped to a process of the process
/// snapshot taken with it, or a query error when the network snapshot could
/// not be taken.
pub fn list_network_connections(
    snapshots: Option<(Result<JsonValue, ReadOnlyBackendError>, Result<JsonValue, ReadOnlyBackendError>)>,
) -> (r: ReadOnlyQueryResult<NetworkConnectionInfo>)
    ensures
        is_honest_result(r),
        snapshots is None ==> is_unsupported_result(
            r,
            PROVIDER_NAME@,
            "network_connections"@,
            "Network connections"@,
            NETWORK_UNSUPPORTED@,
        ),
        snapshots matches Some((ps, Ok(v))) ==> is_snapshot_result(
            r,
            "network_connections"@,
            "Network connections"@,
            NETWORK_LIMITATION@,
        ) && connections_match(kept_connections(v), snapshot_process_views(ps), r.items@),
        snapshots matches Some((_, Err(e))) ==> is_query_error(
            r,
            "network_connections"@,
            "Network connections"@,
            e.kind,
            NETWORK_QUERY_FAILED@ + e.message@,
        ),
{
    match snapshots {
        None => ReadOnlyQueryResult::unsupported(
            PROVIDER_NAME,
            "network_connections",
            "Network connections",
            NETWORK_UNSUPPORTED,
        ),
        Some((process_snapshot, network_snapshot)) => {
            let ghost ps = process_snapshot;
            let processes = list_processes(Some(process_snapshot)).items;
            proof {
                if ps is Ok {
                    lemma_process_views_match(kept_processes(ps->Ok_0), processes@);
                } else {
                    assert(process_views(processes@) =~= Seq::<ProcessView>::empty());
                }
            }
            match network_snapshot {
                Ok(value) => ReadOnlyQueryResult {
                    platform: SystemPlatform::Windows,
                    provider: owned(PROVIDER_NAME),
                    capability: CapabilityStatus::partial(
                        "network_connections",
                        "Network connections",
                        NETWORK_LIMITATION,
                    ),
                    items: parse_network_connections(&value, processes.as_slice()),
                    error: None,
                },
                Err(error) => query_error(
                    "network_connections",
                    "Network connections",
                    error.kind,
                    concat(NETWORK_QUERY_FAILED, error.message.as_str()),
                ),
            }
        },
    }
}

pub const STARTUP_LIMITATION: &'static str =
    "Registry Run keys and Startup folders are read-only best-effort; scheduled tasks are not parsed yet.";

pub const STARTUP_UNSUPPORTED: &'static str =
    "Windows startup inventory is unsupported on this platform.";

pub const STARTUP_QUERY_FAILED: &'static str = "Failed to query Windows startup entries: ";

/// The startup entries: unsupported off Windows, the entries of the
/// snapshot when it was taken, a query error when it could not be.
pub fn list_startup_entries(snapshot: Option<Result<JsonValue, ReadOnlyBackendError>>) -> (r:
    ReadOnlyQueryResult<StartupEntryInfo>)
    ensures
        is_honest_result(r),
        snapshot is None ==> is_unsupported_result(
            r,
            PROVIDER_NAME@,
            "startup_entries"@,
            "Startup entries"@,
            STARTUP_UNSUPPORTED@,
        ),
        snapshot matches Some(Ok(v)) ==> is_snapshot_result(
            r,
            "startup_entries"@,
            "Startup entries"@,
            STARTUP_LIMITATION@,
        ) && startup_entries_match(kept_startup_entries(v), r.items@),
        snapshot matches Some(Err(e)) ==> is_query_error(
            r,
            "startup_entries"@,
            "Startup entries"@,
            e.kind,
            STARTUP_QUERY_FAILED@ + e.message@,
        ),
{
    match snapshot {
        None => ReadOnlyQueryResult::unsupported(
            PROVIDER_NAME,
            "startup_entries",
            "Startup entries",
            STARTUP_UNSUPPORTED,
        ),
        Some(Ok(value)) => ReadOnlyQueryResult {
            platform: SystemPlatform::Windows,
            provider: owned(PROVIDER_NAME),
            capability: CapabilityStatus::partial(
                "startup_entries",
                "Startup entries",
                STARTUP_LIMITATION,
            ),
            items: parse_startup_entries(&value),
            error: None,
        },
        Some(Err(error)) => query_error(
            "startup_entries",
            "Startup entries",
            error.kind,
            concat(STARTUP_QUERY_FAILED, error.message.as_str()),
        ),
    }
}

} // verus!

verus! {

/// What a process of the inventory holds, read off the JSON object of its
/// record: the `ProcessId`; the `ParentProcessId` when it is a number, none
/// when it is absent or null; the `Name`, or `pid-<id>` without one; the
/// `ExecutablePath`, `CommandLine` and `CreationDate` unless blank; no
/// owner; the backend's source, confidence and limitation.
pub proof fn law_process_fields(value: JsonValue, items: Seq<ProcessInfo>, i: int)
    requires
        processes_match(kept_processes(value), items),
        0 <= i < items.len(),
        kept_processes(value)[i] is Object,
    ensures
        ({
            let rec = kept_processes(value)[i];
            let p = items[i];
            &&& match rec.spec_get("ProcessId"@) {
                Some(JsonValue::Number(JsonNumber::PosInt(n))) => p.pid as int == n as int,
                _ => true,
            }
            &&& match rec.spec_get("ParentProcessId"@) {
                Some(JsonValue::Number(JsonNumber::PosInt(n))) => p.parent_pid == Some(n as u32)
                    && n <= u32::MAX,
                Some(JsonValue::Null) => p.parent_pid is None,
                None => p.parent_pid is None,
                _ => true,
            }
            &&& match rec.spec_get("Name"@) {
                Some(JsonValue::Str(s)) => p.name@ == s@,
                Some(JsonValue::Null) => p.name@ == "pid-"@ + decimal(p.pid as nat),
                None => p.name@ == "pid-"@ + decimal(p.pid as nat),
                _ => true,
            }
            &&& match rec.spec_get("ExecutablePath"@) {
                Some(JsonValue::Str(s)) => opt_view(p.path) == if trim(s@).len() == 0 {
                    None
                } else {
                    Some(s@)
                },
                Some(JsonValue::Null) => p.path is None,
                None => p.path is None,
                _ => true,
            }
            &&& match rec.spec_get("CommandLine"@) {
                Some(JsonValue::Str(s)) => opt_view(p.command_line) == if trim(s@).len() == 0 {
                    None
                } else {
                    Some(s@)
                },
                Some(JsonValue::Null) => p.command_line is None,
                None => p.command_line is None,
                _ => true,
            }
            &&& match rec.spec_get("CreationDate"@) {
                Some(JsonValue::Str(s)) => opt_view(p.started_at) == if trim(s@).len() == 0 {
                    None
                } else {
                    Some(s@)
                },
                Some(JsonValue::Null) => p.started_at is None,
                None => p.started_at is None,
                _ => true,
            }
            &&& p.owner is None
            &&& p.source@ == "windows_backend"@
            &&& p.confidence@ == "best_effort"@
            &&& texts(p.limitations@) == seq![PROCESS_ITEM_LIMITATION@]
        }),
{
    let rec = kept_processes(value)[i];
    assert(process_from_record(rec, items[i]));
}

/// Which object records become processes: one whose `ProcessId` is a
/// number that fits in 32 bits, and whose other fields are each absent,
/// null or of their kind (a 32-bit number for `ParentProcessId`, text for
/// the rest), is kept; one without a `ProcessId` is not.
pub proof fn law_process_records_kept(rec: JsonValue)
    requires
        rec is Object,
    ensures
        (rec.spec_get("ProcessId"@) is None || rec.spec_get("ProcessId"@) == Some(JsonValue::Null))
            ==> !process_kept(rec),
        ({
            &&& rec.spec_get("ProcessId"@) matches Some(JsonValue::Number(JsonNumber::PosInt(n)))
                && n <= u32::MAX
            &&& match rec.spec_get("ParentProcessId"@) {
                None | Some(JsonValue::Null) => true,
                Some(JsonValue::Number(JsonNumber::PosInt(n))) => n <= u32::MAX,
                _ => false,
            }
            &&& match rec.spec_get("Name"@) {
                None | Some(JsonValue::Null) | Some(JsonValue::Str(_)) => true,
                _ => false,
            }
            &&& match rec.spec_get("ExecutablePath"@) {
                None | Some(JsonValue::Null) | Some(JsonValue::Str(_)) => true,
                _ => false,
            }
            &&& match rec.spec_get("CommandLine"@) {
                None | Some(JsonValue::Null) | Some(JsonValue::Str(_)) => true,
                _ => false,
            }
            &&& match rec.spec_get("CreationDate"@) {
                None | Some(JsonValue::Null) | Some(JsonValue::Str(_)) => true,
                _ => false,
            }
        }) ==> process_kept(rec),
{
}

} // verus!

verus! {

proof fn lemma_owner_index(ps: Seq<ProcessView>, pid: u32, from: int)
    requires
        0 <= from <= ps.len(),
    ensures
        from <= owner_index(ps, pid, from) <= ps.len(),
        owner_index(ps, pid, from) < ps.len() ==> ps[owner_index(ps, pid, from)].0 == pid,
        forall|k: int| from <= k < owner_index(ps, pid, from) ==> ps[k].0 != pid,
    decreases ps.len() - from,
{
    if from < ps.len() && ps[from].0 != pid {
        lemma_owner_index(ps, pid, from + 1);
    }
}

/// Text that is kept only when it is not blank.
pub open spec fn unless_blank(s: Seq<char>) -> Option<Seq<char>> {
    if trim(s).len() == 0 {
        None
    } else {
        Some(s)
    }
}

/// What a network endpoint holds, read off the JSON object of its record:
/// the `Protocol` and `LocalAddress` (`unknown` without one); the ports
/// when they fit in 16 bits; the `RemoteAddress` and `State` unless blank;
/// the `OwningProcess`, and the name and path of the first process of the
/// same moment with that id, or none when no process has it.
pub proof fn law_connection_fields(
    value: JsonValue,
    ps: Seq<ProcessView>,
    items: Seq<NetworkConnectionInfo>,
    i: int,
)
    requires
        connections_match(kept_connections(value), ps, items),
        0 <= i < items.len(),
        kept_connections(value)[i] is Object,
    ensures
        ({
            let rec = kept_connections(value)[i];
            let c = items[i];
            &&& match rec.spec_get("Protocol"@) {
                Some(JsonValue::Str(s)) => c.protocol@ == s@,
                None | Some(JsonValue::Null) => c.protocol@ == "unknown"@,
                _ => true,
            }
            &&& match rec.spec_get("LocalAddress"@) {
                Some(JsonValue::Str(s)) => c.local_addr@ == s@,
                None | Some(JsonValue::Null) => c.local_addr@ == "unknown"@,
                _ => true,
            }
            &&& match rec.spec_get("LocalPort"@) {
                Some(JsonValue::Number(JsonNumber::PosInt(n))) => if n <= 0xffff {
                    c.local_port == Some(n as u16)
                } else {
                    c.local_port is None
                },
                None | Some(JsonValue::Null) => c.local_port is None,
                _ => true,
            }
            &&& match rec.spec_get("RemotePort"@) {
                Some(JsonValue::Number(JsonNumber::PosInt(n))) => if n <= 0xffff {
                    c.remote_port == Some(n as u16)
                } else {
                    c.remote_port is None
                },
                None | Some(JsonValue::Null) => c.remote_port is None,
                _ => true,
            }
            &&& match rec.spec_get("RemoteAddress"@) {
                Some(JsonValue::Str(s)) => opt_view(c.remote_addr) == unless_blank(s@),
                None | Some(JsonValue::Null) => c.remote_addr is None,
                _ => true,
            }
            &&& match rec.spec_get("State"@) {
                Some(JsonValue::Str(s)) => opt_view(c.state) == unless_blank(s@),
                None | Some(JsonValue::Null) => c.state is None,
                _ => true,
            }
            &&& match rec.spec_get("OwningProcess"@) {
                Some(JsonValue::Number(JsonNumber::PosInt(n))) => {
                    &&& c.pid == Some(n as u32)
                    &&& n <= u32::MAX
                    &&& if exists|k: int| 0 <= k < ps.len() && ps[k].0 == n {
                        exists|k: int|
                            0 <= k < ps.len() && #[trigger] ps[k].0 == n && (forall|j: int|
                                0 <= j < k ==> ps[j].0 != n) && opt_view(c.process_name) == Some(ps[k].1)
                                && opt_view(c.process_path) == ps[k].2
                    } else {
                        c.process_name is None && c.process_path is None
                    }
                },
                None | Some(JsonValue::Null) => c.pid is None && c.process_name is None
                    && c.process_path is None,
                _ => true,
            }
        }),
{
    let rec = kept_connections(value)[i];
    assert(connection_from_record(rec, ps, items[i]));
    if let Some(JsonValue::Number(JsonNumber::PosInt(n))) = rec.spec_get("OwningProcess"@) {
        if n <= u32::MAX {
            lemma_owner_index(ps, n as u32, 0);
            let k = owner_index(ps, n as u32, 0);
            if k < ps.len() {
                assert(ps[k].0 == n);
            }
        }
    }
}

/// What a startup entry holds, read off the JSON object of its record: the
/// `Id`; the `Name` (`Startup entry` without one), `Source` and `Scope`
/// (`Unknown` without one); the `Command` and `Path` unless blank; the
/// `Enabled` flag and `Limitation` as given; no publisher; an unknown risk.
pub proof fn law_startup_entry_fields(value: JsonValue, items: Seq<StartupEntryInfo>, i: int)
    requires
        startup_entries_match(kept_startup_entries(value), items),
        0 <= i < items.len(),
        kept_startup_entries(value)[i] is Object,
    ensures
        ({
            let rec = kept_startup_entries(value)[i];
            let e = items[i];
            &&& rec.spec_get("Id"@) matches Some(JsonValue::Str(s)) && e.id@ == s@
            &&& match rec.spec_get("Name"@) {
                Some(JsonValue::Str(s)) => e.name@ == s@,
                None | Some(JsonValue::Null) => e.name@ == "Startup entry"@,
                _ => true,
            }
            &&& match rec.spec_get("Source"@) {
                Some(JsonValue::Str(s)) => e.source@ == s@,
                None | Some(JsonValue::Null) => e.source@ == "Unknown"@,
                _ => true,
            }
            &&& match rec.spec_get("Scope"@) {
                Some(JsonValue::Str(s)) => e.scope@ == s@,
                None | Some(JsonValue::Null) => e.scope@ == "Unknown"@,
                _ => true,
            }
            &&& match rec.spec_get("Command"@) {
                Some(JsonValue::Str(s)) => opt_view(e.command) == unless_blank(s@),
                None | Some(JsonValue::Null) => e.command is None,
                _ => true,
            }
            &&& match rec.spec_get("Path"@) {
                Some(JsonValue::Str(s)) => opt_view(e.path) == unless_blank(s@),
                None | Some(JsonValue::Null) => e.path is None,
                _ => true,
            }
            &&& match rec.spec_get("Enabled"@) {
                Some(JsonValue::Bool(b)) => e.enabled == Some(b),
                None | Some(JsonValue::Null) => e.enabled is None,
                _ => true,
            }
            &&& match rec.spec_get("Limitation"@) {
                Some(JsonValue::Str(s)) => opt_view(e.limitation) == Some(s@),
                None | Some(JsonValue::Null) => e.limitation is None,
                _ => true,
            }
            &&& e.publisher is None
            &&& opt_view(e.risk) == Some("unknown"@)
        }),
{
    let rec = kept_startup_entries(value)[i];
    assert(startup_from_record(rec, items[i]));
    reveal(Seq::filter);
    json_records(value).lemma_filter_pred(|rec: JsonValue| startup_kept(rec), i);
}

} // verus!

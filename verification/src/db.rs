//! The local event and audit store: its plan, the normalisation of list
//! queries, the dashboard summary, and the conversion between domain values
//! and table rows.
//!
//! The SQLite file itself is opened, written and queried outside the
//! library; rows cross the boundary as plain values, and JSON metadata as a
//! parsed document.
use vstd::prelude::*;
use crate::actions::opt_view;
use crate::clock::is_unix_stamp;
use crate::events::{
    AccessEvent, EventId, EventKind, EventParseError, EventSeverity, EventSource, EventTimestamp,
    ProcessRef,
};
use crate::json::JsonValue;
use crate::policy::{
    ActionHistoryQuery, ActionKind, ActionParseError, ActionResult, ActionStatus, PolicyEngine,
    StartupBackupQuery, classify_risk,
};
use crate::text::{concat3, is_blank, is_blank_exec, owned, trim, trim_exec};

verus! {

#[derive(Debug, Clone, Copy, PartialEq, Eq, Structural)]
pub enum StorageMode {
    LocalOnly,
    Disabled,
}

#[derive(Debug, Clone, PartialEq, Eq)]
pub struct DatabasePlan {
    pub mode: StorageMode,
    pub stores_events: bool,
    pub stores_user_identifiers: bool,
    pub notes: &'static str,
}

/// Storage is local only, keeps events and keeps no user identifiers.
pub fn v1_database_plan() -> (r: DatabasePlan)
    ensures
        r.mode == StorageMode::LocalOnly,
        r.stores_events,
        !r.stores_user_identifiers,
        r.notes@ == "JSentinel stores event data locally with explicit retention controls planned."@,
{
    DatabasePlan {
        mode: StorageMode::LocalOnly,
        stores_events: true,
        stores_user_identifiers: false,
        notes: "JSentinel stores event data locally with explicit retention controls planned.",
    }
}

// ---------------------------------------------------------------------------
// List queries
// ---------------------------------------------------------------------------

/// A query over the event timeline.
#[derive(Debug, Clone)]
pub struct EventQuery {
    pub kind: Option<EventKind>,
    pub severity: Option<EventSeverity>,
    pub text: Option<String>,
    pub limit: Option<u32>,
}

impl Default for EventQuery {
    fn default() -> (r: Self)
        ensures
            r.kind is None,
            r.severity is None,
            r.text is None,
            r.limit == Some(100u32),
    {
        EventQuery { kind: None, severity: None, text: None, limit: Some(100) }
    }
}

/// The number of rows a list returns: the requested limit, or the default,
/// kept within 1 to 500.
pub open spec fn row_limit(limit: Option<u32>, default: u32) -> u32 {
    let n = match limit {
        Some(n) => n,
        None => default,
    };
    if n < 1 {
        1
    } else if n > 500 {
        500
    } else {
        n
    }
}

fn clamp_limit(limit: Option<u32>, default: u32) -> (r: u32)
    ensures
        r == row_limit(limit, default),
{
    let n = match limit {
        Some(n) => n,
        None => default,
    };
    if n < 1 {
        1
    } else if n > 500 {
        500
    } else {
        n
    }
}

/// The `LIKE` pattern of a free-text search: the trimmed text between `%`
/// signs, or no search when the text is absent or blank.
pub open spec fn search_pattern(text: Option<Seq<char>>) -> Option<Seq<char>> {
    match text {
        Some(t) => if is_blank(t) {
            None
        } else {
            Some("%"@ + trim(t) + "%"@)
        },
        None => None,
    }
}

fn search_pattern_exec(text: &Option<String>) -> (r: Option<String>)
    ensures
        opt_view(r) == search_pattern(opt_view(*text)),
{
    match text {
        Some(t) => if is_blank_exec(t.as_str()) {
            None
        } else {
            let trimmed = trim_exec(t.as_str());
            Some(concat3("%", trimmed.as_str(), "%"))
        },
        None => None,
    }
}

/// A text filter that matches whole values: the trimmed text, or no
/// filter when it is absent or blank.
pub open spec fn exact_filter(text: Option<Seq<char>>) -> Option<Seq<char>> {
    match text {
        Some(t) => if is_blank(t) {
            None
        } else {
            Some(trim(t))
        },
        None => None,
    }
}

fn exact_filter_exec(text: &Option<String>) -> (r: Option<String>)
    ensures
        opt_view(r) == exact_filter(opt_view(*text)),
{
    match text {
        Some(t) => if is_blank_exec(t.as_str()) {
            None
        } else {
            Some(trim_exec(t.as_str()))
        },
        None => None,
    }
}

/// The parameters of an event list: rows whose kind and severity have
/// these names (when given) and whose title, summary, process name or
/// target contains the pattern, newest first, at most `limit` of them.
#[derive(Debug, Clone, PartialEq, Eq)]
pub struct EventFilter {
    pub kind: Option<String>,
    pub severity: Option<String>,
    pub text_pattern: Option<String>,
    pub limit: u32,
}

/// The parameters that an event query asks for.
pub fn event_filter(query: &EventQuery) -> (r: EventFilter)
    ensures
        opt_view(r.kind) == (match query.kind {
            Some(k) => Some(k.name()),
            None => None,
        }),
        opt_view(r.severity) == (match query.severity {
            Some(s) => Some(s.name()),
            None => None,
        }),
        opt_view(r.text_pattern) == search_pattern(opt_view(query.text)),
        r.limit == row_limit(query.limit, 100),
{
    EventFilter {
        kind: match query.kind {
            Some(k) => Some(owned(k.as_str())),
            None => None,
        },
        severity: match query.severity {
            Some(s) => Some(owned(s.as_str())),
            None => None,
        },
        text_pattern: search_pattern_exec(&query.text),
        limit: clamp_limit(query.limit, 100),
    }
}

/// The parameters of an action history list: rows of this action type and
/// result (when given) whose type, target or message contains the pattern,
/// newest first, at most `limit` of them.
#[derive(Debug, Clone, PartialEq, Eq)]
pub struct ActionHistoryFilter {
    pub kind: Option<String>,
    pub status: Option<String>,
    pub text_pattern: Option<String>,
    pub limit: u32,
}

/// The parameters that an action history query asks for.
pub fn action_history_filter(query: &ActionHistoryQuery) -> (r: ActionHistoryFilter)
    ensures
        opt_view(r.kind) == (match query.kind {
            Some(k) => Some(k.name()),
            None => None,
        }),
        opt_view(r.status) == (match query.status {
            Some(s) => Some(s.name()),
            None => None,
        }),
        opt_view(r.text_pattern) == search_pattern(opt_view(query.text)),
        r.limit == row_limit(query.limit, 50),
{
    ActionHistoryFilter {
        kind: match query.kind {
            Some(k) => Some(owned(k.as_str())),
            None => None,
        },
        status: match query.status {
            Some(s) => Some(owned(s.as_str())),
            None => None,
        },
        text_pattern: search_pattern_exec(&query.text),
        limit: clamp_limit(query.limit, 50),
    }
}

/// The parameters of a startup backup list: backups of this entry and
/// source (when given), newest first, at most `limit` of them.
#[derive(Debug, Clone, PartialEq, Eq)]
pub struct StartupBackupFilter {
    pub entry_id: Option<String>,
    pub source: Option<String>,
    pub limit: u32,
}

/// The parameters that a startup backup query asks for.
pub fn startup_backup_filter(query: &StartupBackupQuery) -> (r: StartupBackupFilter)
    ensures
        opt_view(r.entry_id) == exact_filter(opt_view(query.entry_id)),
        opt_view(r.source) == exact_filter(opt_view(query.source)),
        r.limit == row_limit(query.limit, 50),
{
    StartupBackupFilter {
        entry_id: exact_filter_exec(&query.entry_id),
        source: exact_filter_exec(&query.source),
        limit: clamp_limit(query.limit, 50),
    }
}

// ---------------------------------------------------------------------------
// Dashboard
// ---------------------------------------------------------------------------

/// Counts of stored events, as the store reports them.
#[derive(Debug, Clone, Copy, PartialEq, Eq)]
pub struct EventCounts {
    pub total: u64,
    pub warnings: u64,
    pub critical: u64,
    pub process: u64,
    pub network: u64,
    pub file: u64,
    pub startup: u64,
    pub device_access: u64,
    pub locked_file: u64,
    pub security: u64,
    /// Events whose source is not `mock`.
    pub not_mock: u64,
}

#[derive(Debug, Clone, PartialEq, Eq)]
pub struct DashboardSummary {
    pub total_events: u64,
    pub warnings: u64,
    pub critical: u64,
    pub process_events: u64,
    pub network_events: u64,
    pub file_events: u64,
    pub startup_events: u64,
    pub device_access_events: u64,
    pub locked_file_events: u64,
    pub security_events: u64,
    pub latest_event_timestamp: Option<EventTimestamp>,
    pub demo_data_only: bool,
}

/// The dashboard of a store with these counts and this latest timestamp;
/// it shows demo data only when no stored event has a source other than
/// `mock`.
pub fn dashboard_summary(counts: &EventCounts, latest_timestamp: Option<String>) -> (r: DashboardSummary)
    ensures
        r.total_events == counts.total,
        r.warnings == counts.warnings,
        r.critical == counts.critical,
        r.process_events == counts.process,
        r.network_events == counts.network,
        r.file_events == counts.file,
        r.startup_events == counts.startup,
        r.device_access_events == counts.device_access,
        r.locked_file_events == counts.locked_file,
        r.security_events == counts.security,
        r.latest_event_timestamp == (match latest_timestamp {
            Some(t) => Some(EventTimestamp(t)),
            None => None,
        }),
        r.demo_data_only == (counts.not_mock == 0),
{
    DashboardSummary {
        total_events: counts.total,
        warnings: counts.warnings,
        critical: counts.critical,
        process_events: counts.process,
        network_events: counts.network,
        file_events: counts.file,
        startup_events: counts.startup,
        device_access_events: counts.device_access,
        locked_file_events: counts.locked_file,
        security_events: counts.security,
        latest_event_timestamp: match latest_timestamp {
            Some(t) => Some(EventTimestamp(t)),
            None => None,
        },
        demo_data_only: counts.not_mock == 0,
    }
}

// ---------------------------------------------------------------------------
// Rows
// ---------------------------------------------------------------------------

/// A column of a stored row that does not hold a known name.
#[derive(Debug, Clone, PartialEq, Eq)]
pub enum RowError {
    Event { column: usize, error: EventParseError },
    Action { column: usize, error: ActionParseError },
}

/// A row of the `events` table, without its JSON metadata.
#[derive(Debug, Clone, PartialEq, Eq)]
pub struct EventRow {
    pub id: String,
    pub timestamp: String,
    pub kind: String,
    pub severity: String,
    pub source: String,
    pub process_pid: Option<i64>,
    pub process_name: Option<String>,
    pub process_path: Option<String>,
    pub title: String,
    pub summary: String,
    pub target: Option<String>,
}

/// The row under which an event is stored.
pub open spec fn row_of_event(row: EventRow, e: AccessEvent) -> bool {
    &&& row.id@ == e.id.0@
    &&& row.timestamp@ == e.timestamp.0@
    &&& row.kind@ == e.kind.name()
    &&& row.severity@ == e.severity.name()
    &&& row.source@ == e.source.name()
    &&& row.process_pid == (match e.process {
        Some(p) => match p.pid {
            Some(pid) => Some(pid as i64),
            None => None,
        },
        None => None,
    })
    &&& opt_view(row.process_name) == (match e.process {
        Some(p) => Some(p.name@),
        None => None,
    })
    &&& opt_view(row.process_path) == (match e.process {
        Some(p) => opt_view(p.path),
        None => None,
    })
    &&& row.title@ == e.title@
    &&& row.summary@ == e.summary@
    &&& opt_view(row.target) == opt_view(e.target)
}

/// The row of an event.
pub fn event_to_row(event: &AccessEvent) -> (r: EventRow)
    ensures
        row_of_event(r, *event),
{
    let (process_pid, process_name, process_path) = match &event.process {
        Some(p) => (
            match p.pid {
                Some(pid) => Some(pid as i64),
                None => None,
            },
            Some(p.name.clone()),
            p.path.clone(),
        ),
        None => (None, None, None),
    };
    EventRow {
        id: event.id.0.clone(),
        timestamp: event.timestamp.0.clone(),
        kind: owned(event.kind.as_str()),
        severity: owned(event.severity.as_str()),
        source: owned(event.source.as_str()),
        process_pid,
        process_name,
        process_path,
        title: event.title.clone(),
        summary: event.summary.clone(),
        target: event.target.clone(),
    }
}

/// Whether every name in an event row is known.
pub open spec fn event_row_readable(row: EventRow) -> bool {
    &&& EventKind::from_name(row.kind@) is Some
    &&& EventSeverity::from_name(row.severity@) is Some
    &&& EventSource::from_name(row.source@) is Some
}

/// A stored process id, when it is a valid one.
pub open spec fn stored_pid(pid: Option<i64>) -> Option<u32> {
    match pid {
        Some(p) => if 0 <= p <= u32::MAX {
            Some(p as u32)
        } else {
            None
        },
        None => None,
    }
}

/// The event that a readable row and its metadata hold: the process is
/// there when the row names one; confidence is not stored.
pub open spec fn event_of_row(row: EventRow, metadata: Option<JsonValue>, e: AccessEvent) -> bool {
    &&& e.id.0@ == row.id@
    &&& e.timestamp.0@ == row.timestamp@
    &&& Some(e.kind) == EventKind::from_name(row.kind@)
    &&& Some(e.severity) == EventSeverity::from_name(row.severity@)
    &&& Some(e.source) == EventSource::from_name(row.source@)
    &&& match row.process_name {
        Some(name) => e.process matches Some(p) && p.pid == stored_pid(row.process_pid) && p.name@
            == name@ && opt_view(p.path) == opt_view(row.process_path),
        None => e.process is None,
    }
    &&& e.title@ == row.title@
    &&& e.summary@ == row.summary@
    &&& opt_view(e.target) == opt_view(row.target)
    &&& e.metadata_json == metadata
    &&& e.confidence is None
}

/// The event stored in a row: an error naming the first column (kind,
/// severity, source) whose name is unknown.
pub fn event_from_row(row: EventRow, metadata: Option<JsonValue>) -> (r: Result<AccessEvent, RowError>)
    ensures
        r is Ok <==> event_row_readable(row),
        r matches Ok(e) ==> event_of_row(row, metadata, e),
        EventKind::from_name(row.kind@) is None ==> (r matches Err(RowError::Event {
            column: 2,
            error: EventParseError::UnknownKind(v),
        }) && v@ == row.kind@),
        EventKind::from_name(row.kind@) is Some && EventSeverity::from_name(row.severity@) is None
            ==> (r matches Err(RowError::Event { column: 3, error: EventParseError::UnknownSeverity(v) })
            && v@ == row.severity@),
        EventKind::from_name(row.kind@) is Some && EventSeverity::from_name(row.severity@) is Some
            && EventSource::from_name(row.source@) is None ==> (r matches Err(RowError::Event {
            column: 4,
            error: EventParseError::UnknownSource(v),
        }) && v@ == row.source@),
{
    let kind = match EventKind::parse(row.kind.as_str()) {
        Ok(k) => k,
        Err(error) => return Err(RowError::Event { column: 2, error }),
    };
    let severity = match EventSeverity::parse(row.severity.as_str()) {
        Ok(s) => s,
        Err(error) => return Err(RowError::Event { column: 3, error }),
    };
    let source = match EventSource::parse(row.source.as_str()) {
        Ok(s) => s,
        Err(error) => return Err(RowError::Event { column: 4, error }),
    };
    let pid = match row.process_pid {
        Some(p) => if 0 <= p && p <= 0xffff_ffffi64 {
            Some(p as u32)
        } else {
            None
        },
        None => None,
    };
    let process = match row.process_name {
        Some(name) => Some(ProcessRef { pid, name, path: row.process_path }),
        None => None,
    };
    Ok(
        AccessEvent {
            id: EventId(row.id),
            timestamp: EventTimestamp(row.timestamp),
            kind,
            severity,
            source,
            process,
            title: row.title,
            summary: row.summary,
            target: row.target,
            metadata_json: metadata,
            confidence: None,
        },
    )
}

/// What an event is after it is stored and read back: the same event,
/// without confidence, with the metadata read back.
pub open spec fn same_event_as_stored(back: AccessEvent, e: AccessEvent, metadata: Option<JsonValue>) -> bool {
    &&& back.id.0@ == e.id.0@
    &&& back.timestamp.0@ == e.timestamp.0@
    &&& back.kind == e.kind
    &&& back.severity == e.severity
    &&& back.source == e.source
    &&& match e.process {
        Some(p) => back.process matches Some(q) && q.pid == p.pid && q.name@ == p.name@ && opt_view(
            q.path,
        ) == opt_view(p.path),
        None => back.process is None,
    }
    &&& back.title@ == e.title@
    &&& back.summary@ == e.summary@
    &&& opt_view(back.target) == opt_view(e.target)
    &&& back.metadata_json == metadata
    &&& back.confidence is None
}

/// An event stored as a row reads back as the same event: every name in
/// the row is known, and the event read back differs from the stored one
/// only in its confidence, which is not stored.
pub proof fn law_event_row_round_trip(
    e: AccessEvent,
    row: EventRow,
    metadata: Option<JsonValue>,
    back: AccessEvent,
)
    requires
        row_of_event(row, e),
    ensures
        event_row_readable(row),
        event_of_row(row, metadata, back) ==> same_event_as_stored(back, e, metadata),
{
    crate::events::lemma_event_kind_round_trip(e.kind);
    crate::events::lemma_severity_round_trip(e.severity);
    crate::events::lemma_event_source_round_trip(e.source);
}

/// A row of the `action_history` table, without its JSON metadata.
#[derive(Debug, Clone, PartialEq, Eq)]
pub struct ActionHistoryRow {
    pub id: String,
    pub timestamp: String,
    pub action_type: String,
    pub target: String,
    pub risk_level: String,
    pub result: String,
    pub error: Option<String>,
    pub message: Option<String>,
    pub started_at: Option<String>,
    pub finished_at: Option<String>,
}

/// The row under which an action result is recorded; it is dated by the
/// end of the action and records the policy's risk for its kind.
pub open spec fn row_of_action_result(row: ActionHistoryRow, r: ActionResult) -> bool {
    &&& row.id@ == r.request_id@
    &&& row.timestamp@ == r.finished_at@
    &&& row.action_type@ == r.kind.name()
    &&& row.target@ == r.target@
    &&& row.risk_level@ == classify_risk(r.kind).name()
    &&& row.result@ == r.status.name()
    &&& opt_view(row.error) == opt_view(r.error)
    &&& opt_view(row.message) == Some(r.message@)
    &&& opt_view(row.started_at) == Some(r.started_at@)
    &&& opt_view(row.finished_at) == Some(r.finished_at@)
}

/// The row of an action result.
pub fn action_result_to_row(result: &ActionResult) -> (r: ActionHistoryRow)
    ensures
        row_of_action_result(r, *result),
{
    let risk = PolicyEngine::classify_risk(result.kind);
    ActionHistoryRow {
        id: result.request_id.clone(),
        timestamp: result.finished_at.clone(),
        action_type: owned(result.kind.as_str()),
        target: result.target.clone(),
        risk_level: owned(risk.as_str()),
        result: owned(result.status.as_str()),
        error: result.error.clone(),
        message: Some(result.message.clone()),
        started_at: Some(result.started_at.clone()),
        finished_at: Some(result.finished_at.clone()),
    }
}

/// Whether the action type and result of a row are known names.
pub open spec fn action_row_readable(row: ActionHistoryRow) -> bool {
    &&& ActionKind::from_name(row.action_type@) is Some
    &&& ActionStatus::from_name(row.result@) is Some
}

/// The action result that a readable row and its metadata hold; a missing
/// start or end time reads as `now`, a missing message as empty text.
pub open spec fn action_result_of_row(
    row: ActionHistoryRow,
    metadata: Option<JsonValue>,
    now: Seq<char>,
    r: ActionResult,
) -> bool {
    &&& r.request_id@ == row.id@
    &&& Some(r.kind) == ActionKind::from_name(row.action_type@)
    &&& r.target@ == row.target@
    &&& r.started_at@ == (match row.started_at {
        Some(t) => t@,
        None => now,
    })
    &&& r.finished_at@ == (match row.finished_at {
        Some(t) => t@,
        None => now,
    })
    &&& Some(r.status) == ActionStatus::from_name(row.result@)
    &&& r.message@ == (match row.message {
        Some(m) => m@,
        None => Seq::empty(),
    })
    &&& opt_view(r.error) == opt_view(row.error)
    &&& r.metadata_json == metadata
}

/// The action result recorded in a row: an error naming the first column
/// (action type, result) whose name is unknown.
pub fn action_result_from_row(row: ActionHistoryRow, metadata: Option<JsonValue>) -> (r: Result<
    ActionResult,
    RowError,
>)
    ensures
        r is Ok <==> action_row_readable(row),
        r matches Ok(a) ==> exists|now: Seq<char>|
            is_unix_stamp(now) && #[trigger] action_result_of_row(row, metadata, now, a),
        ActionKind::from_name(row.action_type@) is None ==> (r matches Err(RowError::Action {
            column: 1,
            error: ActionParseError::UnknownKind(v),
        }) && v@ == row.action_type@),
        ActionKind::from_name(row.action_type@) is Some && ActionStatus::from_name(row.result@) is None
            ==> (r matches Err(RowError::Action { column: 5, error: ActionParseError::UnknownStatus(v) })
            && v@ == row.result@),
{
    let kind = match ActionKind::parse(row.action_type.as_str()) {
        Ok(k) => k,
        Err(error) => return Err(RowError::Action { column: 1, error }),
    };
    let status = match ActionStatus::parse(row.result.as_str()) {
        Ok(s) => s,
        Err(error) => return Err(RowError::Action { column: 5, error }),
    };
    let timestamp = EventTimestamp::now_utc_best_effort().0;
    let ghost now = timestamp@;
    let started_at = match row.started_at {
        Some(t) => t,
        None => timestamp.clone(),
    };
    let finished_at = match row.finished_at {
        Some(t) => t,
        None => timestamp,
    };
    let message = match row.message {
        Some(m) => m,
        None => String::new(),
    };
    let a = ActionResult {
        request_id: row.id,
        kind,
        target: row.target,
        started_at,
        finished_at,
        status,
        message,
        error: row.error,
        metadata_json: metadata,
    };
    assert(action_result_of_row(row, metadata, now, a));
    Ok(a)
}

/// What an action result is after it is recorded and read back: the same
/// result, with the metadata read back.
pub open spec fn same_action_result_as_recorded(
    back: ActionResult,
    r: ActionResult,
    metadata: Option<JsonValue>,
) -> bool {
    &&& back.request_id@ == r.request_id@
    &&& back.kind == r.kind
    &&& back.target@ == r.target@
    &&& back.started_at@ == r.started_at@
    &&& back.finished_at@ == r.finished_at@
    &&& back.status == r.status
    &&& back.message@ == r.message@
    &&& opt_view(back.error) == opt_view(r.error)
    &&& back.metadata_json == metadata
}

/// A recorded action result reads back unchanged: both names in its row
/// are known, and whatever time it is read at, the result read back has
/// the recorded times, status, message and error.
pub proof fn law_action_history_round_trip(
    r: ActionResult,
    row: ActionHistoryRow,
    metadata: Option<JsonValue>,
    now: Seq<char>,
    back: ActionResult,
)
    requires
        row_of_action_result(row, r),
    ensures
        action_row_readable(row),
        action_result_of_row(row, metadata, now, back) ==> same_action_result_as_recorded(
            back,
            r,
            metadata,
        ),
{
    crate::policy::lemma_action_kind_round_trip(r.kind);
    crate::policy::lemma_action_status_round_trip(r.status);
}
} // verus!

//! Action policy: risk classification, availability and action planning.
//!
//! Every user-visible action is described as data first.  The policy engine
//! decides its risk level, whether it is available, what confirmation text is
//! shown and why it may be disabled.  Only `reveal_path`,
//! `open_windows_settings` and `kill_process` can ever be executed.
use vstd::prelude::*;
use crate::clock::{current_timestamp, is_unix_stamp, seconds_or_zero, unix_stamp, unix_time_seconds};
use crate::json::{
    JsonMember, JsonValue, members_get, members_insert, members_insert_exec, member,
    lemma_find_key_bounds, find_key,
};
use crate::text::{decimal, owned, push_decimal, str_eq, clone_opt};

verus! {

// ---------------------------------------------------------------------------
// Placeholder risk model
// ---------------------------------------------------------------------------

#[derive(Debug, Clone, Copy, PartialEq, Eq, Structural)]
pub enum ActionRisk {
    ReadOnly,
    Reversible,
    Destructive,
    Privileged,
}

#[derive(Debug, Clone, Copy, PartialEq, Eq, Structural)]
pub enum ActionDecision {
    AllowReadOnly,
    RequireConfirmation,
    BlockInV1,
}

#[derive(Debug, Clone, PartialEq, Eq)]
pub struct PolicyEvaluation {
    pub risk: ActionRisk,
    pub decision: ActionDecision,
    pub reason: &'static str,
}

/// The decision the placeholder policy takes for a risk class.
pub open spec fn placeholder_decision(risk: ActionRisk) -> ActionDecision {
    match risk {
        ActionRisk::ReadOnly => ActionDecision::AllowReadOnly,
        ActionRisk::Reversible => ActionDecision::RequireConfirmation,
        ActionRisk::Destructive | ActionRisk::Privileged => ActionDecision::BlockInV1,
    }
}

/// Placeholder policy: read-only actions are allowed, reversible ones need
/// confirmation, destructive and privileged ones are blocked.
pub fn evaluate_placeholder(risk: ActionRisk) -> (r: PolicyEvaluation)
    ensures
        r.risk == risk,
        r.decision == placeholder_decision(risk),
        r.reason@
            == "Package 4B allows only safe non-destructive actions; privileged actions are not implemented."@,
{
    let decision = match risk {
        ActionRisk::ReadOnly => ActionDecision::AllowReadOnly,
        ActionRisk::Reversible => ActionDecision::RequireConfirmation,
        ActionRisk::Destructive | ActionRisk::Privileged => ActionDecision::BlockInV1,
    };
    PolicyEvaluation {
        risk,
        decision,
        reason: "Package 4B allows only safe non-destructive actions; privileged actions are not implemented.",
    }
}

// ---------------------------------------------------------------------------
// Action kinds, risk levels, availability and status
// ---------------------------------------------------------------------------

#[derive(Debug, Clone, Copy, PartialEq, Eq, Structural)]
pub enum ActionKind {
    RevealPath,
    OpenWindowsSettings,
    KillProcess,
    BlockNetwork,
    UnblockNetwork,
    DisableStartup,
    RestoreStartup,
    QuarantineFile,
    RestoreQuarantine,
    ScheduleDeleteOnReboot,
    DetectFileLockers,
}

/// Errors from parsing the textual form of an action field.
#[derive(Debug, Clone, PartialEq, Eq)]
pub enum ActionParseError {
    UnknownKind(String),
    UnknownRisk(String),
    UnknownStatus(String),
}

impl ActionParseError {
    /// The human-readable message of the error.
    pub fn message(&self) -> (r: String)
        ensures
            r@ == match self {
                ActionParseError::UnknownKind(v) => "unknown action kind: "@ + v@,
                ActionParseError::UnknownRisk(v) => "unknown action risk level: "@ + v@,
                ActionParseError::UnknownStatus(v) => "unknown action status: "@ + v@,
            },
    {
        match self {
            ActionParseError::UnknownKind(v) => crate::text::concat("unknown action kind: ", v.as_str()),
            ActionParseError::UnknownRisk(v) => crate::text::concat("unknown action risk level: ", v.as_str()),
            ActionParseError::UnknownStatus(v) => crate::text::concat("unknown action status: ", v.as_str()),
        }
    }
}

impl ActionKind {
    /// The snake_case name of the kind.
    pub open spec fn name(self) -> Seq<char> {
        match self {
            ActionKind::RevealPath => "reveal_path"@,
            ActionKind::OpenWindowsSettings => "open_windows_settings"@,
            ActionKind::KillProcess => "kill_process"@,
            ActionKind::BlockNetwork => "block_network"@,
            ActionKind::UnblockNetwork => "unblock_network"@,
            ActionKind::DisableStartup => "disable_startup"@,
            ActionKind::RestoreStartup => "restore_startup"@,
            ActionKind::QuarantineFile => "quarantine_file"@,
            ActionKind::RestoreQuarantine => "restore_quarantine"@,
            ActionKind::ScheduleDeleteOnReboot => "schedule_delete_on_reboot"@,
            ActionKind::DetectFileLockers => "detect_file_lockers"@,
        }
    }

    /// The kind whose name is `t`, if any.
    pub open spec fn from_name(t: Seq<char>) -> Option<ActionKind> {
        if t == "reveal_path"@ {
            Some(ActionKind::RevealPath)
        } else if t == "open_windows_settings"@ {
            Some(ActionKind::OpenWindowsSettings)
        } else if t == "kill_process"@ {
            Some(ActionKind::KillProcess)
        } else if t == "block_network"@ {
            Some(ActionKind::BlockNetwork)
        } else if t == "unblock_network"@ {
            Some(ActionKind::UnblockNetwork)
        } else if t == "disable_startup"@ {
            Some(ActionKind::DisableStartup)
        } else if t == "restore_startup"@ {
            Some(ActionKind::RestoreStartup)
        } else if t == "quarantine_file"@ {
            Some(ActionKind::QuarantineFile)
        } else if t == "restore_quarantine"@ {
            Some(ActionKind::RestoreQuarantine)
        } else if t == "schedule_delete_on_reboot"@ {
            Some(ActionKind::ScheduleDeleteOnReboot)
        } else if t == "detect_file_lockers"@ {
            Some(ActionKind::DetectFileLockers)
        } else {
            None
        }
    }

    pub fn as_str(self) -> (r: &'static str)
        ensures
            r@ == self.name(),
    {
        match self {
            ActionKind::RevealPath => "reveal_path",
            ActionKind::OpenWindowsSettings => "open_windows_settings",
            ActionKind::KillProcess => "kill_process",
            ActionKind::BlockNetwork => "block_network",
            ActionKind::UnblockNetwork => "unblock_network",
            ActionKind::DisableStartup => "disable_startup",
            ActionKind::RestoreStartup => "restore_startup",
            ActionKind::QuarantineFile => "quarantine_file",
            ActionKind::RestoreQuarantine => "restore_quarantine",
            ActionKind::ScheduleDeleteOnReboot => "schedule_delete_on_reboot",
            ActionKind::DetectFileLockers => "detect_file_lockers",
        }
    }

    /// Parses the snake_case name of a kind.
    pub fn parse(value: &str) -> (r: Result<ActionKind, ActionParseError>)
        ensures
            r matches Ok(k) ==> ActionKind::from_name(value@) == Some(k),
            r matches Err(e) ==> (ActionKind::from_name(value@) is None && (e matches ActionParseError::UnknownKind(v) && v@ == value@)),
    {
        if str_eq(value, "reveal_path") {
            Ok(ActionKind::RevealPath)
        } else if str_eq(value, "open_windows_settings") {
            Ok(ActionKind::OpenWindowsSettings)
        } else if str_eq(value, "kill_process") {
            Ok(ActionKind::KillProcess)
        } else if str_eq(value, "block_network") {
            Ok(ActionKind::BlockNetwork)
        } else if str_eq(value, "unblock_network") {
            Ok(ActionKind::UnblockNetwork)
        } else if str_eq(value, "disable_startup") {
            Ok(ActionKind::DisableStartup)
        } else if str_eq(value, "restore_startup") {
            Ok(ActionKind::RestoreStartup)
        } else if str_eq(value, "quarantine_file") {
            Ok(ActionKind::QuarantineFile)
        } else if str_eq(value, "restore_quarantine") {
            Ok(ActionKind::RestoreQuarantine)
        } else if str_eq(value, "schedule_delete_on_reboot") {
            Ok(ActionKind::ScheduleDeleteOnReboot)
        } else if str_eq(value, "detect_file_lockers") {
            Ok(ActionKind::DetectFileLockers)
        } else {
            Err(ActionParseError::UnknownKind(owned(value)))
        }
    }
}

impl std::str::FromStr for ActionKind {
    type Err = ActionParseError;

    fn from_str(value: &str) -> (r: Result<Self, Self::Err>)
        ensures
            r matches Ok(k) ==> ActionKind::from_name(value@) == Some(k),
            r matches Err(e) ==> (ActionKind::from_name(value@) is None && (e matches ActionParseError::UnknownKind(v) && v@ == value@)),
    {
        ActionKind::parse(value)
    }
}

/// The name of every action kind parses back to that kind.
pub proof fn lemma_action_kind_round_trip(k: ActionKind)
    ensures
        ActionKind::from_name(k.name()) == Some(k),
{
    reveal_strlit("reveal_path");
    reveal_strlit("open_windows_settings");
    reveal_strlit("kill_process");
    reveal_strlit("block_network");
    reveal_strlit("unblock_network");
    reveal_strlit("disable_startup");
    reveal_strlit("restore_startup");
    reveal_strlit("quarantine_file");
    reveal_strlit("restore_quarantine");
    reveal_strlit("schedule_delete_on_reboot");
    reveal_strlit("detect_file_lockers");
    assert("reveal_path"@.len() == 11);
    assert("open_windows_settings"@.len() == 21);
    assert("kill_process"@.len() == 12);
    assert("block_network"@.len() == 13);
    assert("unblock_network"@.len() == 15);
    assert("disable_startup"@.len() == 15);
    assert("restore_startup"@.len() == 15);
    assert("quarantine_file"@.len() == 15);
    assert("restore_quarantine"@.len() == 18);
    assert("schedule_delete_on_reboot"@.len() == 25);
    assert("detect_file_lockers"@.len() == 19);
    assert("unblock_network"@[0] == 'u');
    assert("disable_startup"@[0] == 'd');
    assert("restore_startup"@[0] == 'r');
    assert("quarantine_file"@[0] == 'q');
}

#[derive(Debug, Clone, Copy, PartialEq, Eq, Structural)]
pub enum ActionRiskLevel {
    Safe,
    Caution,
    Dangerous,
}

impl ActionRiskLevel {
    pub open spec fn name(self) -> Seq<char> {
        match self {
            ActionRiskLevel::Safe => "safe"@,
            ActionRiskLevel::Caution => "caution"@,
            ActionRiskLevel::Dangerous => "dangerous"@,
        }
    }

    pub open spec fn from_name(t: Seq<char>) -> Option<ActionRiskLevel> {
        if t == "safe"@ {
            Some(ActionRiskLevel::Safe)
        } else if t == "caution"@ {
            Some(ActionRiskLevel::Caution)
        } else if t == "dangerous"@ {
            Some(ActionRiskLevel::Dangerous)
        } else {
            None
        }
    }

    pub fn as_str(self) -> (r: &'static str)
        ensures
            r@ == self.name(),
    {
        match self {
            ActionRiskLevel::Safe => "safe",
            ActionRiskLevel::Caution => "caution",
            ActionRiskLevel::Dangerous => "dangerous",
        }
    }

    pub fn parse(value: &str) -> (r: Result<ActionRiskLevel, ActionParseError>)
        ensures
            r matches Ok(k) ==> ActionRiskLevel::from_name(value@) == Some(k),
            r matches Err(e) ==> (ActionRiskLevel::from_name(value@) is None && (e matches ActionParseError::UnknownRisk(v) && v@ == value@)),
    {
        if str_eq(value, "safe") {
            Ok(ActionRiskLevel::Safe)
        } else if str_eq(value, "caution") {
            Ok(ActionRiskLevel::Caution)
        } else if str_eq(value, "dangerous") {
            Ok(ActionRiskLevel::Dangerous)
        } else {
            Err(ActionParseError::UnknownRisk(owned(value)))
        }
    }
}

impl std::str::FromStr for ActionRiskLevel {
    type Err = ActionParseError;

    fn from_str(value: &str) -> (r: Result<Self, Self::Err>)
        ensures
            r matches Ok(k) ==> ActionRiskLevel::from_name(value@) == Some(k),
            r matches Err(e) ==> (ActionRiskLevel::from_name(value@) is None && (e matches ActionParseError::UnknownRisk(v) && v@ == value@)),
    {
        ActionRiskLevel::parse(value)
    }
}

/// The name of every risk level parses back to that level.
pub proof fn lemma_risk_level_round_trip(k: ActionRiskLevel)
    ensures
        ActionRiskLevel::from_name(k.name()) == Some(k),
{
    reveal_strlit("safe");
    reveal_strlit("caution");
    reveal_strlit("dangerous");
    assert("safe"@.len() == 4);
    assert("caution"@.len() == 7);
    assert("dangerous"@.len() == 9);
}

#[derive(Debug, Clone, Copy, PartialEq, Eq, Structural)]
pub enum ActionAvailability {
    Available,
    Disabled,
    Unsupported,
    Planned,
    RequiresAdmin,
    RequiresConfirmation,
}

impl ActionAvailability {
    pub open spec fn name(self) -> Seq<char> {
        match self {
            ActionAvailability::Available => "available"@,
            ActionAvailability::Disabled => "disabled"@,
            ActionAvailability::Unsupported => "unsupported"@,
            ActionAvailability::Planned => "planned"@,
            ActionAvailability::RequiresAdmin => "requires_admin"@,
            ActionAvailability::RequiresConfirmation => "requires_confirmation"@,
        }
    }

    pub fn as_str(self) -> (r: &'static str)
        ensures
            r@ == self.name(),
    {
        match self {
            ActionAvailability::Available => "available",
            ActionAvailability::Disabled => "disabled",
            ActionAvailability::Unsupported => "unsupported",
            ActionAvailability::Planned => "planned",
            ActionAvailability::RequiresAdmin => "requires_admin",
            ActionAvailability::RequiresConfirmation => "requires_confirmation",
        }
    }
}

#[derive(Debug, Clone, Copy, PartialEq, Eq, Structural)]
pub enum ActionStatus {
    Succeeded,
    Failed,
    Denied,
    Cancelled,
    Unsupported,
    DryRun,
}

impl ActionStatus {
    pub open spec fn name(self) -> Seq<char> {
        match self {
            ActionStatus::Succeeded => "succeeded"@,
            ActionStatus::Failed => "failed"@,
            ActionStatus::Denied => "denied"@,
            ActionStatus::Cancelled => "cancelled"@,
            ActionStatus::Unsupported => "unsupported"@,
            ActionStatus::DryRun => "dry_run"@,
        }
    }

    pub open spec fn from_name(t: Seq<char>) -> Option<ActionStatus> {
        if t == "succeeded"@ {
            Some(ActionStatus::Succeeded)
        } else if t == "failed"@ {
            Some(ActionStatus::Failed)
        } else if t == "denied"@ {
            Some(ActionStatus::Denied)
        } else if t == "cancelled"@ {
            Some(ActionStatus::Cancelled)
        } else if t == "unsupported"@ {
            Some(ActionStatus::Unsupported)
        } else if t == "dry_run"@ {
            Some(ActionStatus::DryRun)
        } else {
            None
        }
    }

    pub fn as_str(self) -> (r: &'static str)
        ensures
            r@ == self.name(),
    {
        match self {
            ActionStatus::Succeeded => "succeeded",
            ActionStatus::Failed => "failed",
            ActionStatus::Denied => "denied",
            ActionStatus::Cancelled => "cancelled",
            ActionStatus::Unsupported => "unsupported",
            ActionStatus::DryRun => "dry_run",
        }
    }

    pub fn parse(value: &str) -> (r: Result<ActionStatus, ActionParseError>)
        ensures
            r matches Ok(k) ==> ActionStatus::from_name(value@) == Some(k),
            r matches Err(e) ==> (ActionStatus::from_name(value@) is None && (e matches ActionParseError::UnknownStatus(v) && v@ == value@)),
    {
        if str_eq(value, "succeeded") {
            Ok(ActionStatus::Succeeded)
        } else if str_eq(value, "failed") {
            Ok(ActionStatus::Failed)
        } else if str_eq(value, "denied") {
            Ok(ActionStatus::Denied)
        } else if str_eq(value, "cancelled") {
            Ok(ActionStatus::Cancelled)
        } else if str_eq(value, "unsupported") {
            Ok(ActionStatus::Unsupported)
        } else if str_eq(value, "dry_run") {
            Ok(ActionStatus::DryRun)
        } else {
            Err(ActionParseError::UnknownStatus(owned(value)))
        }
    }
}

impl std::str::FromStr for ActionStatus {
    type Err = ActionParseError;

    fn from_str(value: &str) -> (r: Result<Self, Self::Err>)
        ensures
            r matches Ok(k) ==> ActionStatus::from_name(value@) == Some(k),
            r matches Err(e) ==> (ActionStatus::from_name(value@) is None && (e matches ActionParseError::UnknownStatus(v) && v@ == value@)),
    {
        ActionStatus::parse(value)
    }
}

/// The name of every status parses back to that status.
pub proof fn lemma_action_status_round_trip(k: ActionStatus)
    ensures
        ActionStatus::from_name(k.name()) == Some(k),
{
    reveal_strlit("succeeded");
    reveal_strlit("failed");
    reveal_strlit("denied");
    reveal_strlit("cancelled");
    reveal_strlit("unsupported");
    reveal_strlit("dry_run");
    assert("succeeded"@.len() == 9);
    assert("failed"@.len() == 6);
    assert("denied"@.len() == 6);
    assert("cancelled"@.len() == 9);
    assert("unsupported"@.len() == 11);
    assert("dry_run"@.len() == 7);
    assert("succeeded"@[0] == 's');
    assert("failed"@[0] == 'f');
    assert("denied"@[0] == 'd');
    assert("cancelled"@[0] == 'c');
}

#[derive(Debug, Clone, Copy, PartialEq, Eq, Structural)]
pub enum PolicyDecision {
    Allowed,
    RequiresConfirmation,
    Denied,
}

} // verus!

verus! {

// ---------------------------------------------------------------------------
// Requests, plans, startup DTOs and results
// ---------------------------------------------------------------------------

/// What the UI asks for: an action kind on a target, with optional metadata.
#[derive(Debug, Clone, PartialEq)]
pub struct ActionRequest {
    pub id: String,
    pub kind: ActionKind,
    pub target: String,
    pub target_display_name: String,
    pub risk_level: ActionRiskLevel,
    pub requested_at: String,
    pub source_screen: String,
    pub metadata_json: Option<JsonValue>,
}

/// The policy's answer to a request: availability, confirmation copy,
/// expected effects, warnings and the reason an action is disabled.
#[derive(Debug, Clone, PartialEq)]
pub struct ActionPlan {
    pub request: ActionRequest,
    pub availability: ActionAvailability,
    pub requires_confirmation: bool,
    pub confirmation_title: String,
    pub confirmation_message: String,
    pub irreversible: bool,
    pub can_undo: bool,
    pub disabled_reason: Option<String>,
    pub expected_effects: Vec<String>,
    pub warnings: Vec<String>,
}

#[derive(Debug, Clone, PartialEq)]
pub struct StartupEntryTarget {
    pub entry_id: String,
    pub name: String,
    pub source: String,
    pub scope: String,
    pub command: Option<String>,
    pub path: Option<String>,
    pub enabled: Option<bool>,
    pub original_location: Option<String>,
    pub metadata_json: Option<JsonValue>,
}

#[derive(Debug, Clone, PartialEq)]
pub struct StartupBackupRecord {
    pub backup_id: String,
    pub entry_id: String,
    pub created_at: String,
    pub source: String,
    pub original_name: String,
    pub original_command: String,
    pub original_path: Option<String>,
    pub original_enabled_state: String,
    pub restore_strategy: String,
    pub metadata_json: Option<JsonValue>,
}

#[derive(Debug, Clone)]
pub struct StartupBackupQuery {
    pub entry_id: Option<String>,
    pub source: Option<String>,
    pub limit: Option<u32>,
}

impl Default for StartupBackupQuery {
    fn default() -> (r: Self)
        ensures
            r.entry_id is None,
            r.source is None,
            r.limit == Some(50u32),
    {
        StartupBackupQuery { entry_id: None, source: None, limit: Some(50) }
    }
}

#[derive(Debug, Clone, PartialEq)]
pub struct StartupActionPlan {
    pub action_kind: ActionKind,
    pub target: StartupEntryTarget,
    pub risk_level: ActionRiskLevel,
    pub requires_confirmation: bool,
    pub backup_required: bool,
    pub backup_available: bool,
    pub expected_effects: Vec<String>,
    pub warnings: Vec<String>,
    pub disabled_reason: Option<String>,
}

/// The local audit record of one execution attempt.
#[derive(Debug, Clone, PartialEq)]
pub struct ActionResult {
    pub request_id: String,
    pub kind: ActionKind,
    pub target: String,
    pub started_at: String,
    pub finished_at: String,
    pub status: ActionStatus,
    pub message: String,
    pub error: Option<String>,
    pub metadata_json: Option<JsonValue>,
}

#[derive(Debug, Clone)]
pub struct ActionHistoryQuery {
    pub kind: Option<ActionKind>,
    pub status: Option<ActionStatus>,
    pub text: Option<String>,
    pub limit: Option<u32>,
}

impl Default for ActionHistoryQuery {
    fn default() -> (r: Self)
        ensures
            r.kind is None,
            r.status is None,
            r.text is None,
            r.limit == Some(50u32),
    {
        ActionHistoryQuery { kind: None, status: None, text: None, limit: Some(50) }
    }
}

// ---------------------------------------------------------------------------
// Identifiers and timestamps
// ---------------------------------------------------------------------------

/// `action-<seconds>-<sequence>`.
pub open spec fn action_id_text(secs: nat, sequence: nat) -> Seq<char> {
    "action-"@ + decimal(secs) + "-"@ + decimal(sequence)
}

/// The identifier of an action taken at `secs` with the given sequence number.
pub fn action_id_at(secs: u64, sequence: u64) -> (r: String)
    ensures
        r@ == action_id_text(secs as nat, sequence as nat),
{
    let mut out = owned("action-");
    push_decimal(&mut out, secs as u128);
    out.append("-");
    push_decimal(&mut out, sequence as u128);
    out
}

/// A fresh action identifier from the clock and the caller's sequence number.
pub fn generated_action_id(sequence: u64) -> (r: String)
    ensures
        exists|secs: u64| r@ == #[trigger] action_id_text(secs as nat, sequence as nat),
{
    let secs = timestamp_seconds();
    let r = action_id_at(secs, sequence);
    assert(r@ == action_id_text(secs as nat, sequence as nat));
    r
}

/// Seconds since the Unix epoch, or 0 when the clock is before it.
pub fn timestamp_seconds() -> (r: u64) {
    seconds_or_zero(unix_time_seconds())
}

/// The current time as `unix:<seconds>`.
pub fn now_timestamp() -> (r: String)
    ensures
        is_unix_stamp(r@),
{
    current_timestamp()
}

impl ActionRequest {
    /// A request for `kind` on `target`, classified by the policy, stamped
    /// with the current time and a fresh identifier built from `sequence`.
    pub fn new(
        kind: ActionKind,
        target: &str,
        target_display_name: &str,
        source_screen: &str,
        sequence: u64,
    ) -> (r: ActionRequest)
        ensures
            r.kind == kind,
            r.target@ == target@,
            r.target_display_name@ == target_display_name@,
            r.source_screen@ == source_screen@,
            r.risk_level == classify_risk(kind),
            r.metadata_json is None,
            exists|secs: u64| r.id@ == #[trigger] action_id_text(secs as nat, sequence as nat),
            is_unix_stamp(r.requested_at@),
    {
        let risk_level = PolicyEngine::classify_risk(kind);
        ActionRequest {
            id: generated_action_id(sequence),
            kind,
            target: owned(target),
            target_display_name: owned(target_display_name),
            risk_level,
            requested_at: now_timestamp(),
            source_screen: owned(source_screen),
            metadata_json: None,
        }
    }
}

impl ActionResult {
    /// A result for `plan` with the given status and message, stamped now.
    pub fn from_plan(plan: &ActionPlan, status: ActionStatus, message: &str) -> (r: ActionResult)
        ensures
            r.request_id == plan.request.id,
            r.kind == plan.request.kind,
            r.target == plan.request.target,
            r.started_at@ == r.finished_at@,
            is_unix_stamp(r.started_at@),
            r.status == status,
            r.message@ == message@,
            r.error is None,
            r.metadata_json is None,
    {
        let timestamp = now_timestamp();
        ActionResult {
            request_id: plan.request.id.clone(),
            kind: plan.request.kind,
            target: plan.request.target.clone(),
            started_at: timestamp.clone(),
            finished_at: timestamp,
            status,
            message: owned(message),
            error: None,
            metadata_json: None,
        }
    }
}

/// The audit record of an action the user cancelled before execution.
pub fn cancellation_result(request_id: &str) -> (r: ActionResult)
    ensures
        r.request_id@ == request_id@,
        r.kind == ActionKind::RevealPath,
        r.target@.len() == 0,
        r.started_at@ == r.finished_at@,
        is_unix_stamp(r.started_at@),
        r.status == ActionStatus::Cancelled,
        r.message@ == "Action was cancelled before execution."@,
        r.error is None,
        r.metadata_json is None,
{
    let timestamp = now_timestamp();
    ActionResult {
        request_id: owned(request_id),
        kind: ActionKind::RevealPath,
        target: String::new(),
        started_at: timestamp.clone(),
        finished_at: timestamp,
        status: ActionStatus::Cancelled,
        message: owned("Action was cancelled before execution."),
        error: None,
        metadata_json: None,
    }
}

} // verus!

verus! {

// ---------------------------------------------------------------------------
// Policy texts
// ---------------------------------------------------------------------------

pub const FUTURE_ACTION_REASON: &'static str =
    "Action framework is prepared, implementation will come in a later package.";

pub const STARTUP_DISABLE_PLANNED_REASON: &'static str =
    "Startup disable is planned but not implemented in Package 4D.";

pub const STARTUP_RESTORE_PLANNED_REASON: &'static str =
    "Startup restore is planned but not implemented in Package 4D.";

pub const KILL_WITHOUT_PID_REASON: &'static str =
    "Kill process requires explicit PID metadata and cannot use a name-only target.";

pub const FILE_LOCKERS_REASON: &'static str =
    "File locker detection is planned but not implemented in Package 4C.";

pub open spec fn safe_effects() -> Seq<Seq<char>> {
    seq!["No files, processes, registry keys, firewall rules, or startup entries are modified."@]
}

pub open spec fn safe_warnings() -> Seq<Seq<char>> {
    seq!["The action is limited to opening Explorer or an allowlisted Windows Settings page."@]
}

pub open spec fn kill_effects() -> Seq<Seq<char>> {
    seq![
        "Terminates one running process by PID."@,
        "Unsaved work in that process may be lost."@,
        "This does not delete files."@,
        "This does not remove startup entries."@,
        "This does not block network access."@,
    ]
}

pub open spec fn kill_warnings() -> Seq<Seq<char>> {
    seq!["Do not terminate system processes."@, "Terminating apps can cause data loss."@]
}

pub open spec fn disable_effects() -> Seq<Seq<char>> {
    seq![
        "Would create local backup metadata before any future disable."@,
        "Would mark one startup entry as disabled in a later package."@,
        "Package 4D does not write the registry, modify services, or change scheduled tasks."@,
    ]
}

pub open spec fn disable_warnings() -> Seq<Seq<char>> {
    seq![
        "Startup changes can affect app launch behavior after sign-in."@,
        "This package only prepares the plan and backup model."@,
    ]
}

pub open spec fn restore_effects() -> Seq<Seq<char>> {
    seq![
        "Would use a local startup backup record in a later package."@,
        "Would restore one startup entry if a matching backup is available."@,
        "Package 4D does not write the registry, modify services, or change scheduled tasks."@,
    ]
}

pub open spec fn restore_warnings() -> Seq<Seq<char>> {
    seq![
        "Restore requires a trusted backup record from before the disable action."@,
        "This package only previews the restore plan."@,
    ]
}

// ---------------------------------------------------------------------------
// Metadata the policy reads
// ---------------------------------------------------------------------------

/// The PID in request metadata: a `"pid"` member holding a non-negative
/// integer that fits in `u32`.
pub open spec fn metadata_pid(md: Option<JsonValue>) -> Option<u32> {
    match md {
        Some(v) => match v.spec_get("pid"@) {
            Some(p) => match p.spec_as_u64() {
                Some(n) => if n <= u32::MAX {
                    Some(n as u32)
                } else {
                    None
                },
                None => None,
            },
            None => None,
        },
        None => None,
    }
}

/// The `"backup_available"` flag of request metadata, `false` when absent or not a boolean.
pub open spec fn metadata_backup_available(md: Option<JsonValue>) -> bool {
    match md {
        Some(v) => match v.spec_get("backup_available"@) {
            Some(b) => match b.spec_as_bool() {
                Some(x) => x,
                None => false,
            },
            None => false,
        },
        None => false,
    }
}

/// The members of object metadata, empty for anything else.
pub open spec fn metadata_members(md: Option<JsonValue>) -> Seq<JsonMember> {
    match md {
        Some(JsonValue::Object(m)) => m@,
        _ => Seq::empty(),
    }
}

/// Startup plans record `backup_required` and `backup_available` in the
/// request metadata: missing metadata becomes an object holding both flags,
/// object metadata gains (or overwrites) the two flags and keeps every other
/// member, and metadata that is not an object is kept as it is.
pub open spec fn backup_flags_set(
    old: Option<JsonValue>,
    required: bool,
    available: bool,
    new: Option<JsonValue>,
) -> bool {
    if old matches Some(v) && !(v is Object) {
        new == old
    } else {
        new matches Some(JsonValue::Object(m)) && forall|k: Seq<char>|
            #[trigger] members_get(m@, k) == if k == "backup_available"@ {
                Some(JsonValue::Bool(available))
            } else if k == "backup_required"@ {
                Some(JsonValue::Bool(required))
            } else {
                members_get(metadata_members(old), k)
            }
    }
}

// ---------------------------------------------------------------------------
// Policy decisions
// ---------------------------------------------------------------------------

/// Risk classification of every action kind.
pub open spec fn classify_risk(kind: ActionKind) -> ActionRiskLevel {
    match kind {
        ActionKind::RevealPath | ActionKind::OpenWindowsSettings => ActionRiskLevel::Safe,
        ActionKind::DetectFileLockers | ActionKind::DisableStartup | ActionKind::RestoreStartup => {
            ActionRiskLevel::Caution
        },
        ActionKind::KillProcess | ActionKind::BlockNetwork | ActionKind::UnblockNetwork
        | ActionKind::QuarantineFile | ActionKind::RestoreQuarantine
        | ActionKind::ScheduleDeleteOnReboot => ActionRiskLevel::Dangerous,
    }
}

/// The kinds the executor may run.
pub open spec fn action_enabled(kind: ActionKind) -> bool {
    kind is RevealPath || kind is OpenWindowsSettings || kind is KillProcess
}

/// The request inside a plan: the same request, with the policy's risk level
/// and, for startup actions, the backup flags recorded in its metadata.
pub open spec fn planned_request(old: ActionRequest, new: ActionRequest) -> bool {
    &&& new.id == old.id
    &&& new.kind == old.kind
    &&& new.target == old.target
    &&& new.target_display_name == old.target_display_name
    &&& new.risk_level == classify_risk(old.kind)
    &&& new.requested_at == old.requested_at
    &&& new.source_screen == old.source_screen
    &&& match old.kind {
        ActionKind::DisableStartup => backup_flags_set(
            old.metadata_json,
            true,
            false,
            new.metadata_json,
        ),
        ActionKind::RestoreStartup => backup_flags_set(
            old.metadata_json,
            false,
            metadata_backup_available(old.metadata_json),
            new.metadata_json,
        ),
        _ => new.metadata_json == old.metadata_json,
    }
}

/// The shape of a plan for an action that cannot run.
pub open spec fn is_unavailable_plan(p: ActionPlan, availability: ActionAvailability, reason: Seq<char>) -> bool {
    &&& p.availability == availability
    &&& !p.requires_confirmation
    &&& p.irreversible
    &&& !p.can_undo
    &&& p.confirmation_title@ == "Action unavailable"@
    &&& p.confirmation_message@ == reason
    &&& p.disabled_reason matches Some(r) && r@ == reason
    &&& crate::text::texts(p.expected_effects@) == seq!["No action will be executed in Package 4B."@]
    &&& crate::text::texts(p.warnings@) == seq![reason]
}

/// The shape of a plan for the safe local actions.
pub open spec fn is_safe_plan(p: ActionPlan) -> bool {
    &&& p.availability == ActionAvailability::Available
    &&& p.requires_confirmation
    &&& !p.irreversible
    &&& !p.can_undo
    &&& p.confirmation_title@ == "Confirm safe local action"@
    &&& p.confirmation_message@
        == "This opens a local Windows UI/path only. It does not modify files or settings."@
    &&& p.disabled_reason is None
    &&& crate::text::texts(p.expected_effects@) == safe_effects()
    &&& crate::text::texts(p.warnings@) == safe_warnings()
}

/// The shape of a plan for terminating one process by PID.
pub open spec fn is_kill_plan(p: ActionPlan) -> bool {
    &&& p.availability == ActionAvailability::RequiresConfirmation
    &&& p.requires_confirmation
    &&& p.irreversible
    &&& !p.can_undo
    &&& p.confirmation_title@ == "Confirm process termination"@
    &&& p.confirmation_message@
        == "This terminates one running process by PID. Unsaved work in that process may be lost."@
    &&& p.disabled_reason is None
    &&& crate::text::texts(p.expected_effects@) == kill_effects()
    &&& crate::text::texts(p.warnings@) == kill_warnings()
}

/// The shape of a planned (not yet executable) Startup Guard plan.
pub open spec fn is_startup_plan(
    p: ActionPlan,
    reason: Seq<char>,
    effects: Seq<Seq<char>>,
    warnings: Seq<Seq<char>>,
) -> bool {
    &&& p.availability == ActionAvailability::Planned
    &&& p.requires_confirmation
    &&& !p.irreversible
    &&& !p.can_undo
    &&& p.confirmation_title@ == "Startup Guard action planned"@
    &&& p.confirmation_message@ == reason
    &&& p.disabled_reason matches Some(r) && r@ == reason
    &&& crate::text::texts(p.expected_effects@) == effects
    &&& crate::text::texts(p.warnings@) == warnings
}

/// The complete policy: what `PolicyEngine::plan_action` answers for a request.
pub open spec fn plan_follows_policy(request: ActionRequest, p: ActionPlan) -> bool {
    &&& planned_request(request, p.request)
    &&& match request.kind {
        ActionKind::RevealPath | ActionKind::OpenWindowsSettings => is_safe_plan(p),
        ActionKind::KillProcess => if metadata_pid(request.metadata_json) is Some {
            is_kill_plan(p)
        } else {
            is_unavailable_plan(p, ActionAvailability::Disabled, KILL_WITHOUT_PID_REASON@)
        },
        ActionKind::DisableStartup => is_startup_plan(
            p,
            STARTUP_DISABLE_PLANNED_REASON@,
            disable_effects(),
            disable_warnings(),
        ),
        ActionKind::RestoreStartup => is_startup_plan(
            p,
            STARTUP_RESTORE_PLANNED_REASON@,
            restore_effects(),
            restore_warnings(),
        ),
        ActionKind::DetectFileLockers => is_unavailable_plan(
            p,
            ActionAvailability::Unsupported,
            FILE_LOCKERS_REASON@,
        ),
        _ => is_unavailable_plan(p, ActionAvailability::Planned, FUTURE_ACTION_REASON@),
    }
}

/// Whether request metadata carries a PID that fits in `u32`.
pub fn request_has_pid_metadata(request: &ActionRequest) -> (r: bool)
    ensures
        r == (metadata_pid(request.metadata_json) is Some),
{
    match &request.metadata_json {
        Some(metadata) => match metadata.get("pid") {
            Some(pid) => match pid.as_u64() {
                Some(n) => n <= 0xffff_ffffu64,
                None => false,
            },
            None => false,
        },
        None => false,
    }
}

/// The `"backup_available"` flag of the request metadata, `false` by default.
pub fn request_has_startup_backup_available(request: &ActionRequest) -> (r: bool)
    ensures
        r == metadata_backup_available(request.metadata_json),
{
    match &request.metadata_json {
        Some(metadata) => match metadata.get("backup_available") {
            Some(flag) => match flag.as_bool() {
                Some(b) => b,
                None => false,
            },
            None => false,
        },
        None => false,
    }
}

/// Records the two backup flags in request metadata.
fn with_backup_flags(metadata: Option<JsonValue>, required: bool, available: bool) -> (r: Option<JsonValue>)
    ensures
        backup_flags_set(metadata, required, available, r),
{
    let ghost old_md = metadata;
    let md = match metadata {
        Some(v) => v,
        None => JsonValue::empty_object(),
    };
    match md {
        JsonValue::Object(mut m) => {
            let ghost m0 = m@;
            assert(m0 == metadata_members(old_md));
            let k1 = owned("backup_required");
            let ghost key1 = k1;
            members_insert_exec(&mut m, k1, JsonValue::Bool(required));
            let ghost m1 = m@;
            let k2 = owned("backup_available");
            let ghost key2 = k2;
            members_insert_exec(&mut m, k2, JsonValue::Bool(available));
            assert forall|k: Seq<char>|
                #[trigger] members_get(m@, k) == if k == "backup_available"@ {
                    Some(JsonValue::Bool(available))
                } else if k == "backup_required"@ {
                    Some(JsonValue::Bool(required))
                } else {
                    members_get(metadata_members(old_md), k)
                } by {
                crate::json::lemma_members_insert_get(m0, key1, JsonValue::Bool(required), k);
                crate::json::lemma_members_insert_get(m1, key2, JsonValue::Bool(available), k);
            }
            Some(JsonValue::Object(m))
        },
        other => Some(other),
    }
}

fn startup_action_plan(
    request: ActionRequest,
    reason: &str,
    backup_required: bool,
    backup_available: bool,
    expected_effects: Vec<String>,
    warnings: Vec<String>,
) -> (p: ActionPlan)
    ensures
        p.request.id == request.id,
        p.request.kind == request.kind,
        p.request.target == request.target,
        p.request.target_display_name == request.target_display_name,
        p.request.risk_level == request.risk_level,
        p.request.requested_at == request.requested_at,
        p.request.source_screen == request.source_screen,
        backup_flags_set(request.metadata_json, backup_required, backup_available, p.request.metadata_json),
        is_startup_plan(p, reason@, crate::text::texts(expected_effects@), crate::text::texts(warnings@)),
{
    let mut request = request;
    let metadata = request.metadata_json.take();
    request.metadata_json = with_backup_flags(metadata, backup_required, backup_available);
    ActionPlan {
        confirmation_title: owned("Startup Guard action planned"),
        confirmation_message: owned(reason),
        request,
        availability: ActionAvailability::Planned,
        requires_confirmation: true,
        irreversible: false,
        can_undo: false,
        disabled_reason: Some(owned(reason)),
        expected_effects,
        warnings,
    }
}

fn planned_plan(request: ActionRequest, availability: ActionAvailability, reason: &str) -> (p: ActionPlan)
    ensures
        p.request == request,
        is_unavailable_plan(p, availability, reason@),
{
    let warnings = crate::text::text_vec(&[reason]);
    let effects = crate::text::text_vec(&["No action will be executed in Package 4B."]);
    assert(crate::text::texts(warnings@) =~= seq![reason@]);
    assert(crate::text::texts(effects@) =~= seq!["No action will be executed in Package 4B."@]);
    ActionPlan {
        confirmation_title: owned("Action unavailable"),
        confirmation_message: owned(reason),
        request,
        availability,
        requires_confirmation: false,
        irreversible: true,
        can_undo: false,
        disabled_reason: Some(owned(reason)),
        expected_effects: effects,
        warnings,
    }
}

/// The action policy engine.
pub struct PolicyEngine;

impl PolicyEngine {
    /// Plans a request: classifies its risk, decides availability and
    /// builds the confirmation copy, effects, warnings and disabled reason.
    pub fn plan_action(request: ActionRequest) -> (p: ActionPlan)
        ensures
            plan_follows_policy(request, p),
    {
        let risk_level = Self::classify_risk(request.kind);
        let mut req = request;
        req.risk_level = risk_level;

        match req.kind {
            ActionKind::RevealPath | ActionKind::OpenWindowsSettings => {
                let effects = crate::text::text_vec(
                    &["No files, processes, registry keys, firewall rules, or startup entries are modified."],
                );
                let warnings = crate::text::text_vec(
                    &["The action is limited to opening Explorer or an allowlisted Windows Settings page."],
                );
                assert(crate::text::texts(effects@) =~= safe_effects());
                assert(crate::text::texts(warnings@) =~= safe_warnings());
                let p = ActionPlan {
                confirmation_title: owned("Confirm safe local action"),
                confirmation_message: owned(
                    "This opens a local Windows UI/path only. It does not modify files or settings.",
                ),
                request: req,
                availability: ActionAvailability::Available,
                requires_confirmation: true,
                irreversible: false,
                can_undo: false,
                disabled_reason: None,
                expected_effects: effects,
                warnings,
            };
                p
            },
            ActionKind::KillProcess => {
                if !request_has_pid_metadata(&req) {
                    return planned_plan(req, ActionAvailability::Disabled, KILL_WITHOUT_PID_REASON);
                }
                let effects = crate::text::text_vec(
                    &[
                        "Terminates one running process by PID.",
                        "Unsaved work in that process may be lost.",
                        "This does not delete files.",
                        "This does not remove startup entries.",
                        "This does not block network access.",
                    ],
                );
                let warnings = crate::text::text_vec(
                    &["Do not terminate system processes.", "Terminating apps can cause data loss."],
                );
                assert(crate::text::texts(effects@) =~= kill_effects());
                assert(crate::text::texts(warnings@) =~= kill_warnings());
                ActionPlan {
                    confirmation_title: owned("Confirm process termination"),
                    confirmation_message: owned(
                        "This terminates one running process by PID. Unsaved work in that process may be lost.",
                    ),
                    request: req,
                    availability: ActionAvailability::RequiresConfirmation,
                    requires_confirmation: true,
                    irreversible: true,
                    can_undo: false,
                    disabled_reason: None,
                    expected_effects: effects,
                    warnings,
                }
            },
            ActionKind::DisableStartup => {
                let effects = crate::text::text_vec(
                    &[
                        "Would create local backup metadata before any future disable.",
                        "Would mark one startup entry as disabled in a later package.",
                        "Package 4D does not write the registry, modify services, or change scheduled tasks.",
                    ],
                );
                let warnings = crate::text::text_vec(
                    &[
                        "Startup changes can affect app launch behavior after sign-in.",
                        "This package only prepares the plan and backup model.",
                    ],
                );
                assert(crate::text::texts(effects@) =~= disable_effects());
                assert(crate::text::texts(warnings@) =~= disable_warnings());
                startup_action_plan(req, STARTUP_DISABLE_PLANNED_REASON, true, false, effects, warnings)
            },
            ActionKind::RestoreStartup => {
                let available = request_has_startup_backup_available(&req);
                let effects = crate::text::text_vec(
                    &[
                        "Would use a local startup backup record in a later package.",
                        "Would restore one startup entry if a matching backup is available.",
                        "Package 4D does not write the registry, modify services, or change scheduled tasks.",
                    ],
                );
                let warnings = crate::text::text_vec(
                    &[
                        "Restore requires a trusted backup record from before the disable action.",
                        "This package only previews the restore plan.",
                    ],
                );
                assert(crate::text::texts(effects@) =~= restore_effects());
                assert(crate::text::texts(warnings@) =~= restore_warnings());
                startup_action_plan(req, STARTUP_RESTORE_PLANNED_REASON, false, available, effects, warnings)
            },
            ActionKind::DetectFileLockers => planned_plan(
                req,
                ActionAvailability::Unsupported,
                FILE_LOCKERS_REASON,
            ),
            _ => planned_plan(req, ActionAvailability::Planned, FUTURE_ACTION_REASON),
        }
    }

    /// The risk level of an action kind.
    pub fn classify_risk(kind: ActionKind) -> (r: ActionRiskLevel)
        ensures
            r == classify_risk(kind),
    {
        match kind {
            ActionKind::RevealPath | ActionKind::OpenWindowsSettings => ActionRiskLevel::Safe,
            ActionKind::DetectFileLockers | ActionKind::DisableStartup | ActionKind::RestoreStartup => {
                ActionRiskLevel::Caution
            },
            ActionKind::KillProcess | ActionKind::BlockNetwork | ActionKind::UnblockNetwork
            | ActionKind::QuarantineFile | ActionKind::RestoreQuarantine
            | ActionKind::ScheduleDeleteOnReboot => ActionRiskLevel::Dangerous,
        }
    }

    /// Whether the executor may run actions of this kind.
    pub fn is_action_enabled(kind: ActionKind) -> (r: bool)
        ensures
            r == action_enabled(kind),
    {
        match kind {
            ActionKind::RevealPath | ActionKind::OpenWindowsSettings | ActionKind::KillProcess => true,
            _ => false,
        }
    }
}

} // verus!

verus! {

/// The Startup Guard plan the policy prepares for `action_kind` on an entry.
pub open spec fn startup_plan_follows_policy(
    target: StartupEntryTarget,
    action_kind: ActionKind,
    backup_available: bool,
    p: StartupActionPlan,
) -> bool {
    &&& p.action_kind == action_kind
    &&& p.target == target
    &&& p.risk_level == classify_risk(action_kind)
    &&& p.backup_available == backup_available
    &&& match action_kind {
        ActionKind::DisableStartup => {
            &&& p.requires_confirmation
            &&& p.backup_required
            &&& crate::text::texts(p.expected_effects@) == seq![
                "Would prepare backup metadata before a future disable."@,
                "Would disable one startup entry only in a later implementation package."@,
            ]
            &&& crate::text::texts(p.warnings@) == seq![
                STARTUP_DISABLE_PLANNED_REASON@,
                "No registry, scheduled task, service, or startup folder modification is performed."@,
            ]
            &&& p.disabled_reason matches Some(r) && r@ == STARTUP_DISABLE_PLANNED_REASON@
        },
        ActionKind::RestoreStartup => {
            &&& p.requires_confirmation
            &&& !p.backup_required
            &&& crate::text::texts(p.expected_effects@) == seq![
                "Would restore one startup entry from local backup metadata in a later package."@,
            ]
            &&& crate::text::texts(p.warnings@) == seq![
                STARTUP_RESTORE_PLANNED_REASON@,
                "Restore requires a matching trusted backup record."@,
            ]
            &&& p.disabled_reason matches Some(r) && r@ == STARTUP_RESTORE_PLANNED_REASON@
        },
        _ => {
            &&& !p.requires_confirmation
            &&& !p.backup_required
            &&& crate::text::texts(p.expected_effects@) == seq!["No startup action will be executed."@]
            &&& crate::text::texts(p.warnings@) == seq!["Unsupported startup action kind."@]
            &&& p.disabled_reason matches Some(r) && r@ == "Unsupported startup action kind."@
        },
    }
}

impl PolicyEngine {
    /// Plans a Startup Guard action on one startup entry.  No startup action
    /// is executable yet: every plan carries a disabled reason.
    pub fn plan_startup_action(
        target: StartupEntryTarget,
        action_kind: ActionKind,
        backup_available: bool,
    ) -> (p: StartupActionPlan)
        ensures
            startup_plan_follows_policy(target, action_kind, backup_available, p),
    {
        let risk_level = Self::classify_risk(action_kind);
        match action_kind {
            ActionKind::DisableStartup => {
                let effects = crate::text::text_vec(
                    &[
                        "Would prepare backup metadata before a future disable.",
                        "Would disable one startup entry only in a later implementation package.",
                    ],
                );
                let warnings = crate::text::text_vec(
                    &[
                        STARTUP_DISABLE_PLANNED_REASON,
                        "No registry, scheduled task, service, or startup folder modification is performed.",
                    ],
                );
                assert(crate::text::texts(effects@) =~= seq![
                    "Would prepare backup metadata before a future disable."@,
                    "Would disable one startup entry only in a later implementation package."@,
                ]);
                assert(crate::text::texts(warnings@) =~= seq![
                    STARTUP_DISABLE_PLANNED_REASON@,
                    "No registry, scheduled task, service, or startup folder modification is performed."@,
                ]);
                StartupActionPlan {
                    action_kind,
                    target,
                    risk_level,
                    requires_confirmation: true,
                    backup_required: true,
                    backup_available,
                    expected_effects: effects,
                    warnings,
                    disabled_reason: Some(owned(STARTUP_DISABLE_PLANNED_REASON)),
                }
            },
            ActionKind::RestoreStartup => {
                let effects = crate::text::text_vec(
                    &["Would restore one startup entry from local backup metadata in a later package."],
                );
                let warnings = crate::text::text_vec(
                    &[STARTUP_RESTORE_PLANNED_REASON, "Restore requires a matching trusted backup record."],
                );
                assert(crate::text::texts(effects@) =~= seq![
                    "Would restore one startup entry from local backup metadata in a later package."@,
                ]);
                assert(crate::text::texts(warnings@) =~= seq![
                    STARTUP_RESTORE_PLANNED_REASON@,
                    "Restore requires a matching trusted backup record."@,
                ]);
                StartupActionPlan {
                    action_kind,
                    target,
                    risk_level,
                    requires_confirmation: true,
                    backup_required: false,
                    backup_available,
                    expected_effects: effects,
                    warnings,
                    disabled_reason: Some(owned(STARTUP_RESTORE_PLANNED_REASON)),
                }
            },
            _ => {
                let effects = crate::text::text_vec(&["No startup action will be executed."]);
                let warnings = crate::text::text_vec(&["Unsupported startup action kind."]);
                assert(crate::text::texts(effects@) =~= seq!["No startup action will be executed."@]);
                assert(crate::text::texts(warnings@) =~= seq!["Unsupported startup action kind."@]);
                StartupActionPlan {
                    action_kind,
                    target,
                    risk_level,
                    requires_confirmation: false,
                    backup_required: false,
                    backup_available,
                    expected_effects: effects,
                    warnings,
                    disabled_reason: Some(owned("Unsupported startup action kind.")),
                }
            },
        }
    }
}

// ---------------------------------------------------------------------------
// Laws of the policy
// ---------------------------------------------------------------------------

/// A plan can only be executable (available, or available after confirmation)
/// for the three enabled kinds, and every executable plan requires explicit
/// confirmation and carries no disabled reason.
pub proof fn law_only_enabled_kinds_are_executable(request: ActionRequest, p: ActionPlan)
    requires
        plan_follows_policy(request, p),
        p.availability is Available || p.availability is RequiresConfirmation,
    ensures
        action_enabled(request.kind),
        p.requires_confirmation,
        p.disabled_reason is None,
{
}

/// A dangerous action is never offered as directly available: at best it
/// requires confirmation, and only `kill_process` with PID metadata gets that far.
pub proof fn law_dangerous_actions_never_directly_available(request: ActionRequest, p: ActionPlan)
    requires
        plan_follows_policy(request, p),
        classify_risk(request.kind) is Dangerous,
    ensures
        !(p.availability is Available),
        p.availability is RequiresConfirmation ==> request.kind is KillProcess && metadata_pid(
            request.metadata_json,
        ) is Some,
        !(request.kind is KillProcess) ==> p.disabled_reason is Some,
{
}

/// `kill_process` is never planned as executable by name alone: without a PID
/// in the metadata it is disabled.
pub proof fn law_kill_requires_pid_metadata(request: ActionRequest, p: ActionPlan)
    requires
        plan_follows_policy(request, p),
        request.kind is KillProcess,
        metadata_pid(request.metadata_json) is None,
    ensures
        p.availability is Disabled,
        !p.requires_confirmation,
        p.disabled_reason is Some,
{
}

/// The plan's request always carries the policy's risk level, whatever risk
/// level the caller put in the request.
pub proof fn law_plan_risk_is_policy_risk(request: ActionRequest, p: ActionPlan)
    requires
        plan_follows_policy(request, p),
    ensures
        p.request.risk_level == classify_risk(request.kind),
        p.request.kind == request.kind,
        p.request.id == request.id,
{
}

/// Startup Guard actions are never executable: both are planned and carry a
/// disabled reason, and the restore plan reports the metadata's backup flag.
pub proof fn law_startup_actions_stay_planned(request: ActionRequest, p: ActionPlan)
    requires
        plan_follows_policy(request, p),
        request.kind is DisableStartup || request.kind is RestoreStartup,
    ensures
        p.availability is Planned,
        p.requires_confirmation,
        p.disabled_reason is Some,
        p.request.metadata_json matches Some(JsonValue::Object(m)) ==> members_get(m@, "backup_available"@)
            == Some(JsonValue::Bool(request.kind is RestoreStartup && metadata_backup_available(request.metadata_json))),
{
    reveal_strlit("backup_available");
    reveal_strlit("backup_required");
    assert("backup_available"@.len() == 16);
    assert("backup_required"@.len() == 15);
}

/// Only the three safe or guarded kinds are enabled, and they are exactly the
/// kinds whose plans can become executable.
pub proof fn law_enabled_kinds(kind: ActionKind)
    ensures
        action_enabled(kind) <==> (kind is RevealPath || kind is OpenWindowsSettings || kind is KillProcess),
        action_enabled(kind) && !(kind is KillProcess) ==> classify_risk(kind) is Safe,
{
}

} // verus!

verus! {

/// The risk classes: revealing a path and opening a settings page are the
/// only safe actions; file-locker detection and disabling or restoring a
/// startup entry call for caution; killing a process, blocking or
/// unblocking network access, quarantining a file, restoring it from
/// quarantine and deleting on reboot are dangerous.
pub proof fn law_risk_levels(kind: ActionKind)
    ensures
        (classify_risk(kind) == ActionRiskLevel::Safe) <==> (kind == ActionKind::RevealPath || kind
            == ActionKind::OpenWindowsSettings),
        (classify_risk(kind) == ActionRiskLevel::Caution) <==> (kind == ActionKind::DetectFileLockers
            || kind == ActionKind::DisableStartup || kind == ActionKind::RestoreStartup),
        (classify_risk(kind) == ActionRiskLevel::Dangerous) <==> (kind == ActionKind::KillProcess || kind
            == ActionKind::BlockNetwork || kind == ActionKind::UnblockNetwork || kind
            == ActionKind::QuarantineFile || kind == ActionKind::RestoreQuarantine || kind
            == ActionKind::ScheduleDeleteOnReboot),
{
}

/// Every Startup Guard plan keeps its target and kind, records whether a
/// backup is available, and is never executable (it always carries a
/// disabled reason).  Disabling or restoring an entry is a caution-level
/// action that requires confirmation; only disabling requires a backup.
pub proof fn law_startup_guard_plans(
    target: StartupEntryTarget,
    action_kind: ActionKind,
    backup_available: bool,
    p: StartupActionPlan,
)
    requires
        startup_plan_follows_policy(target, action_kind, backup_available, p),
    ensures
        p.target == target,
        p.action_kind == action_kind,
        p.backup_available == backup_available,
        p.disabled_reason is Some,
        p.backup_required <==> action_kind == ActionKind::DisableStartup,
        (action_kind == ActionKind::DisableStartup || action_kind == ActionKind::RestoreStartup) ==> {
            &&& p.requires_confirmation
            &&& p.risk_level == ActionRiskLevel::Caution
        },
{
}

} // verus!

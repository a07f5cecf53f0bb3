//! Safe actions: target validation, the kill-process safety check and the
//! executor that runs planned actions through an OS adapter.
use vstd::prelude::*;
use crate::json::{JsonMember, JsonNumber, JsonValue, member, json_opt_str, json_str};
use crate::policy::{ActionRiskLevel, ActionRequest};
use crate::text::{
    clone_opt, concat, contains_char, eq_ignore_case, eq_ignore_case_exec, has_prefix, is_blank,
    is_blank_exec, lower, lower_exec, owned, replace_char, replace_char_exec, starts_with, str_eq,
    trim, trim_exec, is_ws, lower_char, start_idx, end_idx,
};

verus! {

// ---------------------------------------------------------------------------
// Errors and targets
// ---------------------------------------------------------------------------

/// Why a safe action could not run.
#[derive(Debug, Clone, PartialEq, Eq)]
pub enum SafeActionError {
    InvalidTarget(String),
    UnsupportedPlatform(String),
    OsError(String),
    Denied(String),
}

impl SafeActionError {
    /// The message carried by the error.
    pub open spec fn text(self) -> Seq<char> {
        match self {
            SafeActionError::InvalidTarget(m) => m@,
            SafeActionError::UnsupportedPlatform(m) => m@,
            SafeActionError::OsError(m) => m@,
            SafeActionError::Denied(m) => m@,
        }
    }

    /// The human-readable message of the error (what `Display` shows).
    pub fn message(&self) -> (r: String)
        ensures
            r@ == self.text(),
    {
        match self {
            SafeActionError::InvalidTarget(m) => m.clone(),
            SafeActionError::UnsupportedPlatform(m) => m.clone(),
            SafeActionError::OsError(m) => m.clone(),
            SafeActionError::Denied(m) => m.clone(),
        }
    }
}

/// A local path that passed validation: its canonical form, and whether it
/// names a file (shown selected in its folder) or a folder (opened).
#[derive(Debug, Clone, PartialEq, Eq)]
pub struct ValidatedRevealPath {
    pub path: String,
    pub select_file: bool,
}

/// What the filesystem says about a reveal target.
#[derive(Debug, Clone, PartialEq, Eq)]
pub enum PathInspection {
    /// The path does not exist.
    Missing,
    /// The path exists but could not be canonicalized; the OS error text.
    CanonicalizeFailed(String),
    /// The canonical path's metadata could not be read; the OS error text.
    MetadataFailed(String),
    /// The canonical path, and whether it is a regular file.
    Resolved { canonical: String, is_file: bool },
}

/// The process a kill request names, as given in the request metadata.
#[derive(Debug, Clone, PartialEq, Eq)]
pub struct KillProcessTarget {
    pub pid: u32,
    pub process_name: Option<String>,
    pub process_path: Option<String>,
    pub command_line: Option<String>,
}

/// The outcome of the kill-process safety check.
#[derive(Debug, Clone, PartialEq, Eq)]
pub struct KillProcessSafetyCheck {
    pub allowed: bool,
    pub reason: Option<String>,
    pub risk_level: ActionRiskLevel,
    pub requires_confirmation: bool,
    pub protected_reason: Option<String>,
}

/// The view of an optional string.
pub open spec fn opt_view(s: Option<String>) -> Option<Seq<char>> {
    match s {
        Some(v) => Some(v@),
        None => None,
    }
}

impl KillProcessSafetyCheck {
    /// Whether this check denies with the given reason.
    pub open spec fn is_denial(self, reason: Seq<char>) -> bool {
        &&& !self.allowed
        &&& opt_view(self.reason) == Some(reason)
        &&& self.risk_level == ActionRiskLevel::Dangerous
        &&& self.requires_confirmation
        &&& opt_view(self.protected_reason) == Some(reason)
    }

    /// Whether this check allows the kill.
    pub open spec fn is_permission(self) -> bool {
        &&& self.allowed
        &&& self.reason is None
        &&& self.risk_level == ActionRiskLevel::Dangerous
        &&& self.requires_confirmation
        &&& self.protected_reason is None
    }

    pub fn allowed() -> (r: Self)
        ensures
            r.is_permission(),
    {
        KillProcessSafetyCheck {
            allowed: true,
            reason: None,
            risk_level: ActionRiskLevel::Dangerous,
            requires_confirmation: true,
            protected_reason: None,
        }
    }

    pub fn denied(reason: &str) -> (r: Self)
        ensures
            r.is_denial(reason@),
    {
        KillProcessSafetyCheck {
            allowed: false,
            reason: Some(owned(reason)),
            risk_level: ActionRiskLevel::Dangerous,
            requires_confirmation: true,
            protected_reason: Some(owned(reason)),
        }
    }
}

// ---------------------------------------------------------------------------
// Protected processes and paths
// ---------------------------------------------------------------------------

/// Process names that are never terminated (compared after trimming and
/// ASCII lower-casing).
pub open spec fn hard_denied_names() -> Seq<Seq<char>> {
    seq![
        "system"@,
        "idle"@,
        "registry"@,
        "smss.exe"@,
        "csrss.exe"@,
        "wininit.exe"@,
        "winlogon.exe"@,
        "services.exe"@,
        "lsass.exe"@,
        "lsm.exe"@,
        "svchost.exe"@,
        "fontdrvhost.exe"@,
        "dwm.exe"@,
        "conhost.exe"@,
        "explorer.exe"@,
    ]
}

pub open spec fn hard_denied(name: Seq<char>) -> bool {
    hard_denied_names().contains(lower(trim(name)))
}

/// A path with `/` turned into `\` and ASCII letters lower-cased.
pub open spec fn normalized_path(path: Seq<char>) -> Seq<char> {
    lower(replace_char(path, '/', '\\'))
}

pub open spec fn windows_system_path(path: Seq<char>) -> bool {
    let n = normalized_path(path);
    ||| has_prefix(n, "c:\\windows\\system32\\"@)
    ||| n == "c:\\windows\\system32"@
    ||| has_prefix(n, "c:\\windows\\syswow64\\"@)
    ||| n == "c:\\windows\\syswow64"@
}

pub open spec fn windows_directory_path(path: Seq<char>) -> bool {
    let n = normalized_path(path);
    has_prefix(n, "c:\\windows\\"@) || n == "c:\\windows"@
}

pub fn is_self_or_parent_process(pid: u32, current_pid: u32, parent_pid: Option<u32>) -> (r: bool)
    ensures
        r == (pid == current_pid || parent_pid == Some(pid)),
{
    pid == current_pid || match parent_pid {
        Some(p) => p == pid,
        None => false,
    }
}

/// Whether a process name is on the hard-deny list.
pub fn is_hard_denied_process_name(name: &str) -> (r: bool)
    ensures
        r == hard_denied(name@),
{
    let t = trim_exec(name);
    let normalized = lower_exec(t.as_str());
    let names: [&str; 15] = [
        "system",
        "idle",
        "registry",
        "smss.exe",
        "csrss.exe",
        "wininit.exe",
        "winlogon.exe",
        "services.exe",
        "lsass.exe",
        "lsm.exe",
        "svchost.exe",
        "fontdrvhost.exe",
        "dwm.exe",
        "conhost.exe",
        "explorer.exe",
    ];
    assert(crate::text::str_texts(names@) =~= hard_denied_names());
    let mut i: usize = 0;
    while i < 15
        invariant
            i <= 15,
            crate::text::str_texts(names@) == hard_denied_names(),
            normalized@ == lower(trim(name@)),
            forall|k: int| 0 <= k < i ==> hard_denied_names()[k] != normalized@,
        decreases 15 - i,
    {
        if str_eq(normalized.as_str(), names[i]) {
            assert(hard_denied_names()[i as int] == normalized@);
            return true;
        }
        i = i + 1;
    }
    false
}

/// Whether a path lies in (or is) `C:\Windows\System32` or `C:\Windows\SysWOW64`.
pub fn is_windows_system_path(path: &str) -> (r: bool)
    ensures
        r == windows_system_path(path@),
{
    let replaced = replace_char_exec(path, '/', '\\');
    let n = lower_exec(replaced.as_str());
    starts_with(n.as_str(), "c:\\windows\\system32\\") || str_eq(n.as_str(), "c:\\windows\\system32")
        || starts_with(n.as_str(), "c:\\windows\\syswow64\\") || str_eq(
        n.as_str(),
        "c:\\windows\\syswow64",
    )
}

/// Whether a path lies in (or is) `C:\Windows`.
pub fn is_windows_directory_path(path: &str) -> (r: bool)
    ensures
        r == windows_directory_path(path@),
{
    let replaced = replace_char_exec(path, '/', '\\');
    let n = lower_exec(replaced.as_str());
    starts_with(n.as_str(), "c:\\windows\\") || str_eq(n.as_str(), "c:\\windows")
}

/// Every Windows system directory lies inside the Windows directory.
pub proof fn law_system_paths_are_windows_paths(path: Seq<char>)
    ensures
        windows_system_path(path) ==> windows_directory_path(path),
{
    let n = normalized_path(path);
    reveal_strlit("c:\\windows\\");
    reveal_strlit("c:\\windows\\system32\\");
    reveal_strlit("c:\\windows\\system32");
    reveal_strlit("c:\\windows\\syswow64\\");
    reveal_strlit("c:\\windows\\syswow64");
    let w = "c:\\windows\\"@;
    let a = "c:\\windows\\system32\\"@;
    let b = "c:\\windows\\system32"@;
    let c = "c:\\windows\\syswow64\\"@;
    let d = "c:\\windows\\syswow64"@;
    assert(a.subrange(0, w.len() as int) =~= w);
    assert(b.subrange(0, w.len() as int) =~= w);
    assert(c.subrange(0, w.len() as int) =~= w);
    assert(d.subrange(0, w.len() as int) =~= w);
    if windows_system_path(path) {
        if has_prefix(n, a) {
            assert(n.subrange(0, w.len() as int) =~= n.subrange(0, a.len() as int).subrange(0, w.len() as int));
        } else if n == b {
        } else if has_prefix(n, c) {
            assert(n.subrange(0, w.len() as int) =~= n.subrange(0, c.len() as int).subrange(0, w.len() as int));
        } else {
        }
        assert(has_prefix(n, w));
    }
}

// ---------------------------------------------------------------------------
// Kill-process safety
// ---------------------------------------------------------------------------

/// The trimmed text of an optional string, unless it is blank.
pub open spec fn present_text(s: Option<String>) -> Option<Seq<char>> {
    match s {
        Some(v) => if trim(v@).len() > 0 {
            Some(trim(v@))
        } else {
            None
        },
        None => None,
    }
}

pub const NAME_UNAVAILABLE_REASON: &'static str =
    "Process name is unavailable; Package 4C requires verified process details.";

pub const NAME_UNVERIFIED_REASON: &'static str =
    "Process name is not verified; Package 4C refuses kill-by-PID without details.";

pub const PATH_UNAVAILABLE_REASON: &'static str =
    "Process path is unavailable; Package 4C requires verified process details.";

pub const HARD_DENY_SUFFIX: &'static str = " is protected by the Package 4C hard-deny process list.";

/// The reason the safety policy refuses to terminate `target`, or `None`
/// when termination is allowed.  The rules apply in order: PID 0, the
/// current process, its parent, a missing name, an unverified name
/// (`pid-…` or `unknown`), a hard-denied name, a missing path, a Windows
/// system directory, the Windows directory.
pub open spec fn kill_denial(target: KillProcessTarget, current_pid: u32, parent_pid: Option<u32>) -> Option<Seq<char>> {
    if target.pid == 0 {
        Some("PID 0 cannot be terminated."@)
    } else if target.pid == current_pid {
        Some("JSentinel will not terminate its own process."@)
    } else if parent_pid == Some(target.pid) {
        Some("JSentinel will not terminate its parent desktop process."@)
    } else {
        match present_text(target.process_name) {
            None => Some(NAME_UNAVAILABLE_REASON@),
            Some(name) => if has_prefix(lower(name), "pid-"@) || eq_ignore_case(name, "unknown"@) {
                Some(NAME_UNVERIFIED_REASON@)
            } else if hard_denied(name) {
                Some(name + HARD_DENY_SUFFIX@)
            } else {
                match present_text(target.process_path) {
                    None => Some(PATH_UNAVAILABLE_REASON@),
                    Some(path) => if windows_system_path(path) {
                        Some(
                            "Processes under Windows system directories are denied in Package 4C."@,
                        )
                    } else if windows_directory_path(path) {
                        Some("Processes under the Windows directory are denied in Package 4C."@)
                    } else {
                        None
                    },
                }
            },
        }
    }
}

/// The trimmed text of an optional string, unless it is blank.
fn present_text_exec(s: &Option<String>) -> (r: Option<String>)
    ensures
        opt_view(r) == present_text(*s),
{
    match s {
        Some(v) => {
            let t = trim_exec(v.as_str());
            if t.unicode_len() > 0 {
                Some(t)
            } else {
                None
            }
        },
        None => None,
    }
}

/// Decides whether one process may be terminated.
pub fn evaluate_kill_process_safety(
    target: &KillProcessTarget,
    current_pid: u32,
    parent_pid: Option<u32>,
) -> (r: KillProcessSafetyCheck)
    ensures
        match kill_denial(*target, current_pid, parent_pid) {
            Some(reason) => r.is_denial(reason),
            None => r.is_permission(),
        },
{
    if target.pid == 0 {
        return KillProcessSafetyCheck::denied("PID 0 cannot be terminated.");
    }
    if is_self_or_parent_process(target.pid, current_pid, parent_pid) {
        if target.pid == current_pid {
            return KillProcessSafetyCheck::denied("JSentinel will not terminate its own process.");
        }
        return KillProcessSafetyCheck::denied(
            "JSentinel will not terminate its parent desktop process.",
        );
    }
    let name = match present_text_exec(&target.process_name) {
        Some(n) => n,
        None => {
            return KillProcessSafetyCheck::denied(NAME_UNAVAILABLE_REASON);
        },
    };
    let lowered = lower_exec(name.as_str());
    if starts_with(lowered.as_str(), "pid-") || eq_ignore_case_exec(name.as_str(), "unknown") {
        return KillProcessSafetyCheck::denied(NAME_UNVERIFIED_REASON);
    }
    if is_hard_denied_process_name(name.as_str()) {
        let reason = concat(name.as_str(), HARD_DENY_SUFFIX);
        return KillProcessSafetyCheck::denied(reason.as_str());
    }
    let path = match present_text_exec(&target.process_path) {
        Some(p) => p,
        None => {
            return KillProcessSafetyCheck::denied(PATH_UNAVAILABLE_REASON);
        },
    };
    if is_windows_system_path(path.as_str()) {
        return KillProcessSafetyCheck::denied(
            "Processes under Windows system directories are denied in Package 4C.",
        );
    }
    if is_windows_directory_path(path.as_str()) {
        return KillProcessSafetyCheck::denied(
            "Processes under the Windows directory are denied in Package 4C.",
        );
    }
    KillProcessSafetyCheck::allowed()
}

/// A process the safety check allows is never PID 0, never this process or
/// its parent, always has a verified, non-protected name and a path outside
/// the Windows directory; every allowed or denied check is dangerous and
/// requires confirmation.
pub proof fn law_kill_safety_allows_only_unprotected_processes(
    target: KillProcessTarget,
    current_pid: u32,
    parent_pid: Option<u32>,
    check: KillProcessSafetyCheck,
)
    requires
        match kill_denial(target, current_pid, parent_pid) {
            Some(reason) => check.is_denial(reason),
            None => check.is_permission(),
        },
    ensures
        check.risk_level == ActionRiskLevel::Dangerous,
        check.requires_confirmation,
        !check.allowed ==> check.reason is Some && opt_view(check.reason) == opt_view(check.protected_reason),
        check.allowed ==> {
            &&& target.pid != 0
            &&& target.pid != current_pid
            &&& parent_pid != Some(target.pid)
            &&& present_text(target.process_name) matches Some(name) && !hard_denied(name)
                && !has_prefix(lower(name), "pid-"@) && !eq_ignore_case(name, "unknown"@)
            &&& present_text(target.process_path) matches Some(path) && !windows_directory_path(path)
                && !windows_system_path(path)
        },
{
    match kill_denial(target, current_pid, parent_pid) {
        Some(reason) => {},
        None => {
            if let Some(path) = present_text(target.process_path) {
                law_system_paths_are_windows_paths(path);
            }
        },
    }
}

} // verus!

verus! {

// ---------------------------------------------------------------------------
// Windows Settings allowlist
// ---------------------------------------------------------------------------

/// The Windows Settings pages a safe action may open.
pub open spec fn allowed_settings_pages() -> Seq<Seq<char>> {
    seq![
        "ms-settings:privacy"@,
        "ms-settings:privacy-microphone"@,
        "ms-settings:privacy-webcam"@,
        "ms-settings:appsfeatures"@,
        "ms-settings:startupapps"@,
        "ms-settings:network-status"@,
        "ms-settings:windowsdefender"@,
    ]
}

/// A settings URI is accepted when it is non-empty, has no NUL character,
/// no surrounding whitespace, and equals an allowlisted page up to ASCII case.
pub open spec fn settings_uri_allowed(uri: Seq<char>) -> bool {
    &&& uri.len() > 0
    &&& !uri.contains('\0')
    &&& trim(uri) == uri
    &&& exists|i: int| 0 <= i < allowed_settings_pages().len() && eq_ignore_case(uri, #[trigger] allowed_settings_pages()[i])
}

/// Every character of an allowlisted page is neither whitespace nor NUL.
proof fn lemma_allowed_page_chars(i: int)
    requires
        0 <= i < allowed_settings_pages().len(),
    ensures
        allowed_settings_pages()[i].len() > 0,
        forall|k: int|
            0 <= k < allowed_settings_pages()[i].len() ==> #[trigger] allowed_settings_pages()[i][k]
                != '\0' && !is_ws(allowed_settings_pages()[i][k]),
{
    reveal_strlit("ms-settings:privacy");
    reveal_strlit("ms-settings:privacy-microphone");
    reveal_strlit("ms-settings:privacy-webcam");
    reveal_strlit("ms-settings:appsfeatures");
    reveal_strlit("ms-settings:startupapps");
    reveal_strlit("ms-settings:network-status");
    reveal_strlit("ms-settings:windowsdefender");
}

/// Text that equals an allowlisted page up to ASCII case has no NUL and no
/// whitespace, since the page has none.
proof fn lemma_like_allowed_page(uri: Seq<char>, i: int)
    requires
        0 <= i < allowed_settings_pages().len(),
        eq_ignore_case(uri, allowed_settings_pages()[i]),
    ensures
        uri.len() > 0,
        forall|k: int| 0 <= k < uri.len() ==> #[trigger] uri[k] != '\0' && !is_ws(uri[k]),
{
    let page = allowed_settings_pages()[i];
    lemma_allowed_page_chars(i);
    assert(lower(uri).len() == uri.len());
    assert(lower(page).len() == page.len());
    assert forall|k: int| 0 <= k < uri.len() implies #[trigger] uri[k] != '\0' && !is_ws(uri[k]) by {
        assert(lower(uri)[k] == lower_char(uri[k]));
        assert(lower(page)[k] == lower_char(page[k]));
        assert(page[k] != '\0' && !is_ws(page[k]));
    }
}

/// A settings page may be opened exactly when it equals an allowlisted page
/// up to ASCII case.
pub proof fn law_settings_allowlist(uri: Seq<char>)
    ensures
        settings_uri_allowed(uri) <==> exists|i: int|
            0 <= i < allowed_settings_pages().len() && eq_ignore_case(
                uri,
                #[trigger] allowed_settings_pages()[i],
            ),
{
    if exists|i: int|
        0 <= i < allowed_settings_pages().len() && eq_ignore_case(uri, #[trigger] allowed_settings_pages()[i]) {
        let i = choose|i: int|
            0 <= i < allowed_settings_pages().len() && eq_ignore_case(uri, #[trigger] allowed_settings_pages()[i]);
        lemma_like_allowed_page(uri, i);
        assert(!uri.contains('\0'));
        assert(start_idx(uri, 0) == 0);
        assert(end_idx(uri, uri.len() as int, 0) == uri.len());
        assert(uri.subrange(0, uri.len() as int) =~= uri);
    }
}

/// The allowlisted Windows Settings pages.
pub fn allowed_windows_settings_uris() -> (r: Vec<&'static str>)
    ensures
        crate::text::str_texts(r@) == allowed_settings_pages(),
{
    let v = vec![
        "ms-settings:privacy",
        "ms-settings:privacy-microphone",
        "ms-settings:privacy-webcam",
        "ms-settings:appsfeatures",
        "ms-settings:startupapps",
        "ms-settings:network-status",
        "ms-settings:windowsdefender",
    ];
    assert(crate::text::str_texts(v@) =~= allowed_settings_pages());
    v
}

/// Whether a Windows Settings URI may be opened.
pub fn is_allowed_windows_settings_uri(uri: &str) -> (r: bool)
    ensures
        r == settings_uri_allowed(uri@),
{
    if uri.unicode_len() == 0 || contains_char(uri, '\0') {
        return false;
    }
    let t = trim_exec(uri);
    if !str_eq(t.as_str(), uri) {
        return false;
    }
    let pages = allowed_windows_settings_uris();
    let n = pages.len();
    let mut i: usize = 0;
    while i < n
        invariant
            n == pages@.len(),
            n == allowed_settings_pages().len(),
            i <= n,
            uri@.len() > 0,
            !uri@.contains('\0'),
            trim(uri@) == uri@,
            crate::text::str_texts(pages@) == allowed_settings_pages(),
            forall|k: int| 0 <= k < i ==> !eq_ignore_case(uri@, allowed_settings_pages()[k]),
        decreases n - i,
    {
        if eq_ignore_case_exec(uri, pages[i]) {
            assert(eq_ignore_case(uri@, allowed_settings_pages()[i as int]));
            return true;
        }
        i = i + 1;
    }
    false
}

// ---------------------------------------------------------------------------
// Reveal-path validation
// ---------------------------------------------------------------------------

/// Bare shell names that are never treated as paths.
pub open spec fn raw_command_names() -> Seq<Seq<char>> {
    seq!["cmd"@, "cmd.exe"@, "powershell"@, "powershell.exe"@, "pwsh"@, "pwsh.exe"@]
}

/// URL-like and shell-like schemes that are never treated as local paths.
pub open spec fn rejected_schemes() -> Seq<Seq<char>> {
    seq![
        "http://"@,
        "https://"@,
        "file://"@,
        "ms-settings:"@,
        "shell:"@,
        "cmd:"@,
        "powershell:"@,
        "javascript:"@,
    ]
}

/// The textual checks on a reveal target, in order; the message of the first
/// one that fails, or `None` when the text is an acceptable local path.
pub open spec fn reveal_target_problem(target: Seq<char>) -> Option<Seq<char>> {
    let trimmed = trim(target);
    let lowered = lower(trimmed);
    if trimmed.len() == 0 {
        Some("Path target is empty."@)
    } else if trimmed.contains('\0') {
        Some("Path target contains an embedded null character."@)
    } else if trimmed != target {
        Some("Path target must not contain leading or trailing whitespace."@)
    } else if has_prefix(trimmed, "\\\\"@) || has_prefix(trimmed, "//"@) {
        Some("UNC/network paths are not supported by safe actions yet."@)
    } else if raw_command_names().contains(lowered) {
        Some("Raw command names are not valid local path targets."@)
    } else if exists|i: int| 0 <= i < rejected_schemes().len() && has_prefix(lowered, #[trigger] rejected_schemes()[i]) {
        Some("Only local filesystem paths are allowed."@)
    } else {
        None
    }
}

fn is_raw_command_name(lowered: &str) -> (r: bool)
    ensures
        r == raw_command_names().contains(lowered@),
{
    let names: [&str; 6] = ["cmd", "cmd.exe", "powershell", "powershell.exe", "pwsh", "pwsh.exe"];
    assert(crate::text::str_texts(names@) =~= raw_command_names());
    let mut i: usize = 0;
    while i < 6
        invariant
            i <= 6,
            crate::text::str_texts(names@) == raw_command_names(),
            forall|k: int| 0 <= k < i ==> raw_command_names()[k] != lowered@,
        decreases 6 - i,
    {
        if str_eq(lowered, names[i]) {
            assert(raw_command_names()[i as int] == lowered@);
            return true;
        }
        i = i + 1;
    }
    false
}

fn has_rejected_scheme(lowered: &str) -> (r: bool)
    ensures
        r == exists|i: int| 0 <= i < rejected_schemes().len() && has_prefix(lowered@, #[trigger] rejected_schemes()[i]),
{
    let schemes: [&str; 8] = [
        "http://",
        "https://",
        "file://",
        "ms-settings:",
        "shell:",
        "cmd:",
        "powershell:",
        "javascript:",
    ];
    assert(crate::text::str_texts(schemes@) =~= rejected_schemes());
    let mut i: usize = 0;
    while i < 8
        invariant
            i <= 8,
            crate::text::str_texts(schemes@) == rejected_schemes(),
            forall|k: int| 0 <= k < i ==> !has_prefix(lowered@, rejected_schemes()[k]),
        decreases 8 - i,
    {
        if starts_with(lowered, schemes[i]) {
            assert(has_prefix(lowered@, rejected_schemes()[i as int]));
            return true;
        }
        i = i + 1;
    }
    false
}

/// The textual part of reveal-path validation: rejects empty, NUL-carrying,
/// whitespace-padded, UNC, bare-command and URL-like targets before the
/// filesystem is touched.
pub fn check_reveal_target(target: &str) -> (r: Result<(), SafeActionError>)
    ensures
        match reveal_target_problem(target@) {
            None => r is Ok,
            Some(message) => r matches Err(SafeActionError::InvalidTarget(m)) && m@ == message,
        },
{
    let trimmed = trim_exec(target);
    if trimmed.unicode_len() == 0 {
        return Err(SafeActionError::InvalidTarget(owned("Path target is empty.")));
    }
    if contains_char(trimmed.as_str(), '\0') {
        return Err(
            SafeActionError::InvalidTarget(owned("Path target contains an embedded null character.")),
        );
    }
    if !str_eq(trimmed.as_str(), target) {
        return Err(
            SafeActionError::InvalidTarget(
                owned("Path target must not contain leading or trailing whitespace."),
            ),
        );
    }
    if starts_with(trimmed.as_str(), "\\\\") || starts_with(trimmed.as_str(), "//") {
        return Err(
            SafeActionError::InvalidTarget(
                owned("UNC/network paths are not supported by safe actions yet."),
            ),
        );
    }
    let lowered = lower_exec(trimmed.as_str());
    if is_raw_command_name(lowered.as_str()) {
        return Err(
            SafeActionError::InvalidTarget(owned("Raw command names are not valid local path targets.")),
        );
    }
    if has_rejected_scheme(lowered.as_str()) {
        return Err(SafeActionError::InvalidTarget(owned("Only local filesystem paths are allowed.")));
    }
    Ok(())
}

/// The Explorer argument that shows a validated path: a file is selected in
/// its folder, a folder is opened.
pub fn explorer_argument(target: &ValidatedRevealPath) -> (r: String)
    ensures
        r@ == (if target.select_file {
            "/select,"@ + target.path@
        } else {
            target.path@
        }),
{
    if target.select_file {
        concat("/select,", target.path.as_str())
    } else {
        target.path.clone()
    }
}

/// The outcome of reveal-path validation given what the filesystem
/// reported about the target.
pub open spec fn validated_from(
    inspection: PathInspection,
    r: Result<ValidatedRevealPath, SafeActionError>,
) -> bool {
    match inspection {
        PathInspection::Missing => r matches Err(SafeActionError::InvalidTarget(m))
            && m@ == "Path does not exist; JSentinel will not create it."@,
        PathInspection::CanonicalizeFailed(e) => r matches Err(SafeActionError::InvalidTarget(m))
            && m@ == "Path cannot be canonicalized: "@ + e@,
        PathInspection::MetadataFailed(e) => r matches Err(SafeActionError::InvalidTarget(m))
            && m@ == "Path metadata is unavailable: "@ + e@,
        PathInspection::Resolved { canonical, is_file } => r matches Ok(v) && v.path == canonical
            && v.select_file == is_file,
    }
}

/// The filesystem part of reveal-path validation, from what the filesystem
/// reported about the target.
pub fn finish_reveal_validation(inspection: PathInspection) -> (r: Result<ValidatedRevealPath, SafeActionError>)
    ensures
        validated_from(inspection, r),
{
    match inspection {
        PathInspection::Missing => Err(
            SafeActionError::InvalidTarget(owned("Path does not exist; JSentinel will not create it.")),
        ),
        PathInspection::CanonicalizeFailed(e) => Err(
            SafeActionError::InvalidTarget(concat("Path cannot be canonicalized: ", e.as_str())),
        ),
        PathInspection::MetadataFailed(e) => Err(
            SafeActionError::InvalidTarget(concat("Path metadata is unavailable: ", e.as_str())),
        ),
        PathInspection::Resolved { canonical, is_file } => Ok(
            ValidatedRevealPath { path: canonical, select_file: is_file },
        ),
    }
}

// ---------------------------------------------------------------------------
// Reading action targets from request metadata
// ---------------------------------------------------------------------------

/// A non-blank string member of metadata (kept as written, not trimmed).
pub open spec fn metadata_text(md: JsonValue, key: Seq<char>) -> Option<Seq<char>> {
    match md.spec_get(key) {
        Some(v) => match v.spec_as_str() {
            Some(s) => if is_blank(s) {
                None
            } else {
                Some(s)
            },
            None => None,
        },
        None => None,
    }
}

/// The Windows Settings page a request asks for: the `"settings_page"`
/// string of its metadata, else its non-empty target.
pub open spec fn requested_settings_uri(request: ActionRequest) -> Option<Seq<char>> {
    let from_metadata = match request.metadata_json {
        Some(md) => match md.spec_get("settings_page"@) {
            Some(v) => v.spec_as_str(),
            None => None,
        },
        None => None,
    };
    match from_metadata {
        Some(s) => Some(s),
        None => if request.target@.len() > 0 {
            Some(request.target@)
        } else {
            None
        },
    }
}

pub fn settings_uri_from_request(request: &ActionRequest) -> (r: Option<String>)
    ensures
        opt_view(r) == requested_settings_uri(*request),
{
    if let Some(metadata) = &request.metadata_json {
        if let Some(page) = metadata.get("settings_page") {
            if let Some(s) = page.as_str() {
                return Some(owned(s));
            }
        }
    }
    if request.target.unicode_len() > 0 {
        Some(request.target.clone())
    } else {
        None
    }
}

fn metadata_text_exec(metadata: &JsonValue, key: &str) -> (r: Option<String>)
    ensures
        opt_view(r) == metadata_text(*metadata, key@),
{
    match metadata.get(key) {
        Some(v) => match v.as_str() {
            Some(s) => if is_blank_exec(s) {
                None
            } else {
                Some(owned(s))
            },
            None => None,
        },
        None => None,
    }
}

/// The kill target a request names: its metadata must hold a `"pid"` that
/// fits in `u32`; name, path and command line are taken when non-blank.
pub fn kill_process_target_from_request(request: &ActionRequest) -> (r: Option<KillProcessTarget>)
    ensures
        match crate::policy::metadata_pid(request.metadata_json) {
            None => r is None,
            Some(pid) => r matches Some(t) && t.pid == pid && opt_view(t.process_name) == metadata_text(
                request.metadata_json->0,
                "process_name"@,
            ) && opt_view(t.process_path) == metadata_text(request.metadata_json->0, "process_path"@)
                && opt_view(t.command_line) == metadata_text(
                request.metadata_json->0,
                "command_line"@,
            ),
        },
{
    let metadata = match &request.metadata_json {
        Some(m) => m,
        None => {
            return None;
        },
    };
    let pid = match metadata.get("pid") {
        Some(p) => match p.as_u64() {
            Some(n) => if n <= 0xffff_ffffu64 {
                n as u32
            } else {
                return None;
            },
            None => {
                return None;
            },
        },
        None => {
            return None;
        },
    };
    Some(
        KillProcessTarget {
            pid,
            process_name: metadata_text_exec(metadata, "process_name"),
            process_path: metadata_text_exec(metadata, "process_path"),
            command_line: metadata_text_exec(metadata, "command_line"),
        },
    )
}

} // verus!

verus! {

// ---------------------------------------------------------------------------
// Audit results
// ---------------------------------------------------------------------------

pub const DISABLED_BY_POLICY_REASON: &'static str =
    "Action is disabled by Package 4B policy and was not executed.";

pub const REVEAL_SUCCEEDED_MESSAGE: &'static str =
    "Opened local filesystem path without modifying files or settings.";

pub const SETTINGS_SUCCEEDED_MESSAGE: &'static str =
    "Opened allowlisted Windows settings page without changing settings.";

pub const KILL_SUCCEEDED_MESSAGE: &'static str =
    "Terminated one process by PID. No files, startup entries, firewall rules, or child processes were changed.";

pub const MISSING_PID_REASON: &'static str =
    "Missing PID metadata. Package 4C requires an explicit single process PID.";

pub const MISSING_SETTINGS_PAGE_MESSAGE: &'static str = "Missing allowlisted Windows settings page.";

pub const SETTINGS_NOT_ALLOWLISTED_MESSAGE: &'static str =
    "Windows settings page is not in the Package 4B allowlist.";

pub const KILL_DENIED_DEFAULT_REASON: &'static str = "Kill process was denied by safety policy.";

pub const KILL_METADATA_NOTE: &'static str =
    "process_name/process_path are request context; Windows backend re-queries PID before execution. Command line is intentionally not stored in audit metadata.";

/// A result records the plan's request and one timestamp for start and finish.
pub open spec fn result_for(request: ActionRequest, r: crate::policy::ActionResult) -> bool {
    &&& r.request_id == request.id
    &&& r.kind == request.kind
    &&& r.target == request.target
    &&& r.started_at@ == r.finished_at@
    &&& crate::clock::is_unix_stamp(r.started_at@)
}

/// The audit status an error maps to.
pub open spec fn error_status(e: SafeActionError) -> crate::policy::ActionStatus {
    match e {
        SafeActionError::UnsupportedPlatform(_) => crate::policy::ActionStatus::Unsupported,
        SafeActionError::Denied(_) => crate::policy::ActionStatus::Denied,
        SafeActionError::InvalidTarget(_) | SafeActionError::OsError(_) => {
            crate::policy::ActionStatus::Failed
        },
    }
}

/// A failed attempt: status, message and error come from the error.
pub open spec fn is_error_result(r: crate::policy::ActionResult, e: SafeActionError) -> bool {
    &&& r.status == error_status(e)
    &&& r.message@ == e.text()
    &&& opt_view(r.error) == Some(e.text())
}

/// A JSON value holding an optional text: `null` or that string.
pub open spec fn json_opt_text(v: JsonValue, s: Option<Seq<char>>) -> bool {
    match s {
        None => v is Null,
        Some(t) => v.spec_as_str() == Some(t),
    }
}

/// The serialized form of a safety check.
pub open spec fn safety_json(v: JsonValue, s: KillProcessSafetyCheck) -> bool {
    &&& v matches JsonValue::Object(m)
    &&& m@.len() == 5
    &&& m@[0].key@ == "allowed"@ && m@[0].value == JsonValue::Bool(s.allowed)
    &&& m@[1].key@ == "reason"@ && json_opt_text(m@[1].value, opt_view(s.reason))
    &&& m@[2].key@ == "risk_level"@ && m@[2].value.spec_as_str() == Some(s.risk_level.name())
    &&& m@[3].key@ == "requires_confirmation"@ && m@[3].value == JsonValue::Bool(s.requires_confirmation)
    &&& m@[4].key@ == "protected_reason"@ && json_opt_text(m@[4].value, opt_view(s.protected_reason))
}

/// The audit metadata of a kill attempt: PID, the request's name and path,
/// a note, and the safety check.  The command line is never recorded.
pub open spec fn kill_metadata_of(v: JsonValue, t: KillProcessTarget, s: KillProcessSafetyCheck) -> bool {
    &&& v matches JsonValue::Object(m)
    &&& m@.len() == 5
    &&& m@[0].key@ == "pid"@ && m@[0].value == JsonValue::Number(JsonNumber::PosInt(t.pid as u64))
    &&& m@[1].key@ == "process_name"@ && json_opt_text(m@[1].value, opt_view(t.process_name))
    &&& m@[2].key@ == "process_path"@ && json_opt_text(m@[2].value, opt_view(t.process_path))
    &&& m@[3].key@ == "metadata_note"@ && m@[3].value.spec_as_str() == Some(KILL_METADATA_NOTE@)
    &&& m@[4].key@ == "safety"@ && safety_json(m@[4].value, s)
}

/// Serializes a safety check.
pub fn safety_to_json(s: &KillProcessSafetyCheck) -> (v: JsonValue)
    ensures
        safety_json(v, *s),
{
    let members = vec![
        member("allowed", JsonValue::Bool(s.allowed)),
        member("reason", json_opt_str(&s.reason)),
        member("risk_level", json_str(s.risk_level.as_str())),
        member("requires_confirmation", JsonValue::Bool(s.requires_confirmation)),
        member("protected_reason", json_opt_str(&s.protected_reason)),
    ];
    JsonValue::Object(members)
}

/// The audit metadata recorded for a kill attempt.
pub fn kill_metadata(target: &KillProcessTarget, safety: &KillProcessSafetyCheck) -> (v: JsonValue)
    ensures
        kill_metadata_of(v, *target, *safety),
{
    let members = vec![
        member("pid", JsonValue::Number(JsonNumber::PosInt(target.pid as u64))),
        member("process_name", json_opt_str(&target.process_name)),
        member("process_path", json_opt_str(&target.process_path)),
        member("metadata_note", json_str(KILL_METADATA_NOTE)),
        member("safety", safety_to_json(safety)),
    ];
    JsonValue::Object(members)
}

/// Kill audit metadata names the PID and never holds the command line.
pub proof fn law_kill_metadata_omits_command_line(v: JsonValue, t: KillProcessTarget, s: KillProcessSafetyCheck)
    requires
        kill_metadata_of(v, t, s),
    ensures
        v.spec_get("command_line"@) is None,
        v.spec_get("pid"@) == Some(JsonValue::Number(JsonNumber::PosInt(t.pid as u64))),
{
    reveal_strlit("command_line");
    reveal_strlit("pid");
    reveal_strlit("process_name");
    reveal_strlit("process_path");
    reveal_strlit("metadata_note");
    reveal_strlit("safety");
    let m = v->Object_0@;
    assert("command_line"@[0] == 'c');
    assert("pid"@.len() == 3);
    assert("process_name"@[0] == 'p');
    assert("process_path"@[0] == 'p');
    assert("metadata_note"@.len() == 13);
    assert("command_line"@.len() == 12);
    assert("safety"@.len() == 6);
    assert(m[0].key@ != "command_line"@);
    assert(m[1].key@ != "command_line"@);
    assert(m[2].key@ != "command_line"@);
    assert(m[3].key@ != "command_line"@);
    assert(m[4].key@ != "command_line"@);
    crate::json::lemma_find_key_is(m, "command_line"@, 5);
    crate::json::lemma_find_key_is(m, "pid"@, 0);
}

fn result_from(plan: &crate::policy::ActionPlan, status: crate::policy::ActionStatus, message: &str, error: Option<String>) -> (r: crate::policy::ActionResult)
    ensures
        result_for(plan.request, r),
        r.status == status,
        r.message@ == message@,
        r.error == error,
        r.metadata_json is None,
{
    let mut result = crate::policy::ActionResult::from_plan(plan, status, message);
    result.error = error;
    result
}

/// The result of an action the policy keeps disabled.
pub fn denied_result(plan: &crate::policy::ActionPlan) -> (r: crate::policy::ActionResult)
    ensures
        result_for(plan.request, r),
        r.status == if plan.availability is Unsupported {
            crate::policy::ActionStatus::Unsupported
        } else {
            crate::policy::ActionStatus::Denied
        },
        r.message@ == match plan.disabled_reason {
            Some(reason) => reason@,
            None => DISABLED_BY_POLICY_REASON@,
        },
        opt_view(r.error) == Some(DISABLED_BY_POLICY_REASON@),
        r.metadata_json is None,
{
    let status = if plan.availability == crate::policy::ActionAvailability::Unsupported {
        crate::policy::ActionStatus::Unsupported
    } else {
        crate::policy::ActionStatus::Denied
    };
    let message = match &plan.disabled_reason {
        Some(reason) => reason.clone(),
        None => owned(DISABLED_BY_POLICY_REASON),
    };
    result_from(plan, status, message.as_str(), Some(owned(DISABLED_BY_POLICY_REASON)))
}

/// A denial with a reason as both message and error.
pub fn denied_action_result(plan: &crate::policy::ActionPlan, reason: &str) -> (r: crate::policy::ActionResult)
    ensures
        result_for(plan.request, r),
        r.status == crate::policy::ActionStatus::Denied,
        r.message@ == reason@,
        opt_view(r.error) == Some(reason@),
        r.metadata_json is None,
{
    result_from(plan, crate::policy::ActionStatus::Denied, reason, Some(owned(reason)))
}

/// The reason recorded when a kill is denied.
pub open spec fn kill_denial_text(safety: KillProcessSafetyCheck) -> Seq<char> {
    match opt_view(safety.reason) {
        Some(r) => r,
        None => KILL_DENIED_DEFAULT_REASON@,
    }
}

/// A kill denied by a safety check, with its audit metadata.
pub fn denied_kill_result(
    plan: &crate::policy::ActionPlan,
    target: &KillProcessTarget,
    safety: &KillProcessSafetyCheck,
) -> (r: crate::policy::ActionResult)
    ensures
        result_for(plan.request, r),
        r.status == crate::policy::ActionStatus::Denied,
        r.message@ == kill_denial_text(*safety),
        opt_view(r.error) == Some(kill_denial_text(*safety)),
        r.metadata_json matches Some(v) && kill_metadata_of(v, *target, *safety),
{
    let reason = match &safety.reason {
        Some(reason) => reason.clone(),
        None => owned(KILL_DENIED_DEFAULT_REASON),
    };
    let mut result = result_from(plan, crate::policy::ActionStatus::Denied, reason.as_str(), Some(reason.clone()));
    result.metadata_json = Some(kill_metadata(target, safety));
    result
}

/// A failed attempt, its status and message taken from the error.
pub fn error_result(plan: &crate::policy::ActionPlan, error: SafeActionError) -> (r: crate::policy::ActionResult)
    ensures
        result_for(plan.request, r),
        is_error_result(r, error),
        r.metadata_json is None,
{
    let status = match &error {
        SafeActionError::UnsupportedPlatform(_) => crate::policy::ActionStatus::Unsupported,
        SafeActionError::Denied(_) => crate::policy::ActionStatus::Denied,
        SafeActionError::InvalidTarget(_) | SafeActionError::OsError(_) => {
            crate::policy::ActionStatus::Failed
        },
    };
    let message = error.message();
    result_from(plan, status, message.as_str(), Some(message.clone()))
}

/// How a reveal or settings attempt is recorded from the adapter's answer.
pub open spec fn open_outcome(
    r: crate::policy::ActionResult,
    o: Result<(), SafeActionError>,
    success_message: Seq<char>,
) -> bool {
    match o {
        Ok(()) => r.status == crate::policy::ActionStatus::Succeeded && r.message@ == success_message
            && r.error is None,
        Err(e) => is_error_result(r, e),
    }
}

/// An allowlisted settings page is handed to the adapter as requested, and
/// the adapter's answer decides the result.
pub open spec fn settings_attempt<A: SafeActionAdapter>(
    adapter: A,
    request: ActionRequest,
    r: crate::policy::ActionResult,
) -> bool {
    match requested_settings_uri(request) {
        Some(u) => settings_uri_allowed(u) ==> exists|p: &str, o: Result<(), SafeActionError>|
            #![trigger call_ensures(A::open_windows_settings, (&adapter, p), o)]
            p@ == u && call_ensures(A::open_windows_settings, (&adapter, p), o) && open_outcome(
                r,
                o,
                SETTINGS_SUCCEEDED_MESSAGE@,
            ),
        None => true,
    }
}

/// A target that passes the textual checks is inspected through the
/// adapter; only the path that inspection resolved is handed to
/// `reveal_path`, and the adapter's answers decide the result.
pub open spec fn reveal_attempt<A: SafeActionAdapter>(
    adapter: A,
    request: ActionRequest,
    r: crate::policy::ActionResult,
) -> bool {
    match reveal_target_problem(request.target@) {
        Some(_) => true,
        None => exists|p: &str, i: PathInspection|
            #![trigger call_ensures(A::inspect_path, (&adapter, p), i)]
            p@ == request.target@ && call_ensures(A::inspect_path, (&adapter, p), i) && match i {
                PathInspection::Resolved { canonical, is_file } => exists|
                    v: ValidatedRevealPath,
                    o: Result<(), SafeActionError>,
                |
                    #![trigger call_ensures(A::reveal_path, (&adapter, &v), o)]
                    v.path == canonical && v.select_file == is_file && call_ensures(
                        A::reveal_path,
                        (&adapter, &v),
                        o,
                    ) && open_outcome(r, o, REVEAL_SUCCEEDED_MESSAGE@),
                _ => exists|e: SafeActionError| validated_from(i, Err(e)) && #[trigger] is_error_result(r, e),
            },
    }
}

/// The result of a reveal or settings attempt, from the first error met or
/// success.
pub fn open_result(
    plan: &crate::policy::ActionPlan,
    outcome: Result<(), SafeActionError>,
    success_message: &str,
) -> (r: crate::policy::ActionResult)
    ensures
        result_for(plan.request, r),
        r.metadata_json is None,
        match outcome {
            Ok(()) => r.status == crate::policy::ActionStatus::Succeeded && r.message@ == success_message@
                && r.error is None,
            Err(e) => is_error_result(r, e),
        },
{
    match outcome {
        Ok(()) => result_from(plan, crate::policy::ActionStatus::Succeeded, success_message, None),
        Err(error) => error_result(plan, error),
    }
}

/// The kill target that a request names (see `kill_process_target_from_request`).
pub open spec fn requested_kill_target(request: ActionRequest, t: KillProcessTarget) -> bool {
    &&& crate::policy::metadata_pid(request.metadata_json) == Some(t.pid)
    &&& opt_view(t.process_name) == metadata_text(request.metadata_json->0, "process_name"@)
    &&& opt_view(t.process_path) == metadata_text(request.metadata_json->0, "process_path"@)
    &&& opt_view(t.command_line) == metadata_text(request.metadata_json->0, "command_line"@)
}

/// How a kill attempt is recorded, given the safety check recorded with it:
/// a check that does not allow the kill gives a denial with its reason; a
/// success is only ever recorded with an allowing check.
pub open spec fn kill_outcome(r: crate::policy::ActionResult, s: KillProcessSafetyCheck) -> bool {
    if !s.allowed {
        &&& r.status is Denied
        &&& r.message@ == kill_denial_text(s)
        &&& opt_view(r.error) == Some(kill_denial_text(s))
    } else if r.status is Succeeded {
        r.message@ == KILL_SUCCEEDED_MESSAGE@ && r.error is None
    } else {
        is_recorded_failure(r)
    }
}

/// What the safety precheck's answer decides: a denial ends the attempt
/// with a denied result that records the check; an allowing check lets the
/// kill go ahead (`None`).
pub fn after_precheck(
    plan: &crate::policy::ActionPlan,
    target: &KillProcessTarget,
    precheck: &KillProcessSafetyCheck,
) -> (r: Option<crate::policy::ActionResult>)
    ensures
        precheck.allowed ==> r is None,
        !precheck.allowed ==> (r matches Some(res) && {
            &&& result_for(plan.request, res)
            &&& res.status == crate::policy::ActionStatus::Denied
            &&& res.message@ == kill_denial_text(*precheck)
            &&& opt_view(res.error) == Some(kill_denial_text(*precheck))
            &&& res.metadata_json matches Some(v) && kill_metadata_of(v, *target, *precheck)
        }),
{
    if precheck.allowed {
        None
    } else {
        Some(denied_kill_result(plan, target, precheck))
    }
}

/// A kill denied by a safety check: a denial with the check's reason, and
/// the check recorded with the target.
pub open spec fn denied_by_check(
    r: crate::policy::ActionResult,
    t: KillProcessTarget,
    s: KillProcessSafetyCheck,
) -> bool {
    &&& r.status == crate::policy::ActionStatus::Denied
    &&& r.message@ == kill_denial_text(s)
    &&& opt_view(r.error) == Some(kill_denial_text(s))
    &&& r.metadata_json matches Some(v) && kill_metadata_of(v, t, s)
}

/// How a kill attempt whose precheck passed is recorded from what the kill
/// reported: its final check decides success or denial; an error is
/// recorded with the precheck.
pub open spec fn killed_as(
    r: crate::policy::ActionResult,
    t: KillProcessTarget,
    precheck: KillProcessSafetyCheck,
    outcome: Result<KillProcessSafetyCheck, SafeActionError>,
) -> bool {
    match outcome {
        Ok(f) => if f.allowed {
            &&& r.status == crate::policy::ActionStatus::Succeeded
            &&& r.message@ == KILL_SUCCEEDED_MESSAGE@
            &&& r.error is None
            &&& r.metadata_json matches Some(v) && kill_metadata_of(v, t, f)
        } else {
            denied_by_check(r, t, f)
        },
        Err(e) => is_error_result(r, e) && (r.metadata_json matches Some(v) && kill_metadata_of(
            v,
            t,
            precheck,
        )),
    }
}

/// A kill request that names a PID is prechecked through the adapter on
/// the requested target; a denying precheck ends the attempt as a denial
/// that records it; only after an allowing precheck is the same target
/// handed to `kill_process`, whose answer decides the result.
pub open spec fn kill_attempt<A: SafeActionAdapter>(
    adapter: A,
    request: ActionRequest,
    r: crate::policy::ActionResult,
) -> bool {
    crate::policy::metadata_pid(request.metadata_json) is Some ==> exists|
        t: KillProcessTarget,
        s: KillProcessSafetyCheck,
    |
        #![trigger call_ensures(A::precheck_kill_process, (&adapter, &t), s)]
        requested_kill_target(request, t) && call_ensures(A::precheck_kill_process, (&adapter, &t), s)
            && if !s.allowed {
            denied_by_check(r, t, s)
        } else {
            exists|o: Result<KillProcessSafetyCheck, SafeActionError>|
                #![trigger call_ensures(A::kill_process, (&adapter, &t), o)]
                call_ensures(A::kill_process, (&adapter, &t), o) && killed_as(r, t, s, o)
        }
}

/// The result of a kill whose safety precheck passed, from what the kill
/// attempt reported: a final safety check, or an error.
pub fn kill_result(
    plan: &crate::policy::ActionPlan,
    target: &KillProcessTarget,
    precheck: &KillProcessSafetyCheck,
    outcome: Result<KillProcessSafetyCheck, SafeActionError>,
) -> (r: crate::policy::ActionResult)
    ensures
        result_for(plan.request, r),
        killed_as(r, *target, *precheck, outcome),
{
    match outcome {
        Ok(final_safety) => {
            if final_safety.allowed {
                let mut result = result_from(
                    plan,
                    crate::policy::ActionStatus::Succeeded,
                    KILL_SUCCEEDED_MESSAGE,
                    None,
                );
                result.metadata_json = Some(kill_metadata(target, &final_safety));
                result
            } else {
                denied_kill_result(plan, target, &final_safety)
            }
        },
        Err(error) => {
            let mut result = error_result(plan, error);
            result.metadata_json = Some(kill_metadata(target, precheck));
            result
        },
    }
}

} // verus!

verus! {

// ---------------------------------------------------------------------------
// The executor
// ---------------------------------------------------------------------------

/// The OS side of safe actions.  The executor decides which calls are made
/// and with which arguments; an adapter performs them.
pub trait SafeActionAdapter {
    /// Reports what the filesystem knows about a reveal target.  Only called
    /// with targets that passed the textual checks.
    fn inspect_path(&self, path: &str) -> PathInspection
        requires
            reveal_target_problem(path@) is None,
    ;

    /// Shows a validated local path.  Only called with a path that an
    /// inspection by this adapter resolved.
    fn reveal_path(&self, target: &ValidatedRevealPath) -> Result<(), SafeActionError>
        requires
            exists|p: &str, i: PathInspection|
                #[trigger] call_ensures(Self::inspect_path, (self, p), i) && validated_from(
                    i,
                    Ok(*target),
                ),
    ;

    /// Opens a Windows Settings page.  Only called with allowlisted pages.
    fn open_windows_settings(&self, uri: &str) -> Result<(), SafeActionError>
        requires
            settings_uri_allowed(uri@),
    ;

    /// The safety check for a kill target, with live process details.
    fn precheck_kill_process(&self, target: &KillProcessTarget) -> KillProcessSafetyCheck;

    /// Terminates the process; reports the final safety check it ran, or an
    /// error.  Only called for a target whose safety precheck by this
    /// adapter allowed the kill.
    fn kill_process(&self, target: &KillProcessTarget) -> Result<KillProcessSafetyCheck, SafeActionError>
        requires
            exists|s: KillProcessSafetyCheck|
                #[trigger] call_ensures(Self::precheck_kill_process, (self, target), s) && s.allowed,
    ;
}

/// Validates a reveal target: the textual checks first; only a target that
/// passes them is inspected through the adapter, and the inspection decides
/// the rest.
pub fn validate_reveal_path<A: SafeActionAdapter>(adapter: &A, target: &str) -> (r: Result<
    ValidatedRevealPath,
    SafeActionError,
>)
    ensures
        match reveal_target_problem(target@) {
            Some(message) => r matches Err(SafeActionError::InvalidTarget(m)) && m@ == message,
            None => exists|inspection: PathInspection|
                call_ensures(A::inspect_path, (adapter, target), inspection) && #[trigger] validated_from(
                    inspection,
                    r,
                ),
        },
{
    match check_reveal_target(target) {
        Err(error) => Err(error),
        Ok(()) => {
            let inspection = adapter.inspect_path(target);
            let ghost i = inspection;
            let r = finish_reveal_validation(inspection);
            assert(validated_from(i, r));
            r
        },
    }
}

/// The disabled reason the policy gives a kind that cannot run.
pub open spec fn disabled_reason_for(kind: crate::policy::ActionKind) -> Seq<char> {
    match kind {
        crate::policy::ActionKind::DetectFileLockers => crate::policy::FILE_LOCKERS_REASON@,
        crate::policy::ActionKind::DisableStartup => crate::policy::STARTUP_DISABLE_PLANNED_REASON@,
        crate::policy::ActionKind::RestoreStartup => crate::policy::STARTUP_RESTORE_PLANNED_REASON@,
        _ => crate::policy::FUTURE_ACTION_REASON@,
    }
}

/// A non-successful attempt records an error equal to its message.
pub open spec fn is_recorded_failure(r: crate::policy::ActionResult) -> bool {
    &&& (r.status is Failed || r.status is Denied || r.status is Unsupported)
    &&& opt_view(r.error) == Some(r.message@)
}

/// What executing a request yields, whatever the adapter reports.
pub open spec fn execution_follows_policy(request: ActionRequest, r: crate::policy::ActionResult) -> bool {
    &&& result_for(request, r)
    &&& match request.kind {
        crate::policy::ActionKind::RevealPath => {
            &&& r.metadata_json is None
            &&& match reveal_target_problem(request.target@) {
                Some(message) => r.status is Failed && r.message@ == message && opt_view(r.error) == Some(
                    message,
                ),
                None => if r.status is Succeeded {
                    r.message@ == REVEAL_SUCCEEDED_MESSAGE@ && r.error is None
                } else {
                    is_recorded_failure(r)
                },
            }
        },
        crate::policy::ActionKind::OpenWindowsSettings => {
            &&& r.metadata_json is None
            &&& match requested_settings_uri(request) {
                None => r.status is Failed && r.message@ == MISSING_SETTINGS_PAGE_MESSAGE@ && opt_view(
                    r.error,
                ) == Some(MISSING_SETTINGS_PAGE_MESSAGE@),
                Some(uri) => if !settings_uri_allowed(uri) {
                    r.status is Denied && r.message@ == SETTINGS_NOT_ALLOWLISTED_MESSAGE@ && opt_view(
                        r.error,
                    ) == Some(SETTINGS_NOT_ALLOWLISTED_MESSAGE@)
                } else if r.status is Succeeded {
                    r.message@ == SETTINGS_SUCCEEDED_MESSAGE@ && r.error is None
                } else {
                    is_recorded_failure(r)
                },
            }
        },
        crate::policy::ActionKind::KillProcess => match crate::policy::metadata_pid(request.metadata_json) {
            None => r.status is Denied && r.message@ == MISSING_PID_REASON@ && opt_view(r.error) == Some(
                MISSING_PID_REASON@,
            ) && r.metadata_json is None,
            Some(pid) => r.metadata_json matches Some(v) && exists|t: KillProcessTarget, s: KillProcessSafetyCheck|
                t.pid == pid && requested_kill_target(request, t) && #[trigger] kill_metadata_of(v, t, s)
                && kill_outcome(r, s),
        },
        _ => {
            &&& r.status == if request.kind is DetectFileLockers {
                crate::policy::ActionStatus::Unsupported
            } else {
                crate::policy::ActionStatus::Denied
            }
            &&& r.message@ == disabled_reason_for(request.kind)
            &&& opt_view(r.error) == Some(DISABLED_BY_POLICY_REASON@)
            &&& r.metadata_json is None
        },
    }
}

/// What executing a request handed to the adapter, and how its answers
/// were recorded, for the kinds that reach the adapter.
pub open spec fn adapter_use<A: SafeActionAdapter>(
    adapter: A,
    request: ActionRequest,
    r: crate::policy::ActionResult,
) -> bool {
    match request.kind {
        crate::policy::ActionKind::RevealPath => reveal_attempt(adapter, request, r),
        crate::policy::ActionKind::OpenWindowsSettings => settings_attempt(adapter, request, r),
        crate::policy::ActionKind::KillProcess => kill_attempt(adapter, request, r),
        _ => true,
    }
}

/// Runs planned actions through an adapter, recording every attempt.
pub struct SafeActionExecutor<A> {
    adapter: A,
}

impl<A: SafeActionAdapter> SafeActionExecutor<A> {
    pub fn new(adapter: A) -> (r: Self)
        ensures
            r.adapter() == adapter,
    {
        SafeActionExecutor { adapter }
    }

    /// The adapter the executor runs actions through.
    pub closed spec fn adapter(&self) -> A {
        self.adapter
    }

    /// The policy's plan for a request.
    pub fn plan_action(&self, request: ActionRequest) -> (p: crate::policy::ActionPlan)
        ensures
            crate::policy::plan_follows_policy(request, p),
    {
        crate::policy::PolicyEngine::plan_action(request)
    }

    /// Plans and, when the policy allows it, executes a request.
    pub fn execute(&self, request: ActionRequest) -> (r: crate::policy::ActionResult)
        ensures
            execution_follows_policy(request, r),
            adapter_use(self.adapter(), request, r),
    {
        let plan = crate::policy::PolicyEngine::plan_action(request);
        if !crate::policy::PolicyEngine::is_action_enabled(plan.request.kind) {
            return denied_result(&plan);
        }
        match plan.request.kind {
            crate::policy::ActionKind::RevealPath => self.execute_reveal_path(&plan),
            crate::policy::ActionKind::OpenWindowsSettings => self.execute_open_windows_settings(&plan),
            crate::policy::ActionKind::KillProcess => self.execute_kill_process(&plan),
            _ => denied_result(&plan),
        }
    }

    fn execute_reveal_path(&self, plan: &crate::policy::ActionPlan) -> (r: crate::policy::ActionResult)
        requires
            plan.request.kind is RevealPath,
        ensures
            result_for(plan.request, r),
            r.metadata_json is None,
            match reveal_target_problem(plan.request.target@) {
                Some(message) => r.status is Failed && r.message@ == message && opt_view(r.error) == Some(
                    message,
                ),
                None => if r.status is Succeeded {
                    r.message@ == REVEAL_SUCCEEDED_MESSAGE@ && r.error is None
                } else {
                    is_recorded_failure(r)
                },
            },
            reveal_attempt(self.adapter(), plan.request, r),
    {
        let path = plan.request.target.as_str();
        let validation = validate_reveal_path(&self.adapter, path);
        let ghost validated = validation;
        match validation {
            Err(error) => {
                let ghost e = error;
                let r = open_result(plan, Err(error), REVEAL_SUCCEEDED_MESSAGE);
                proof {
                    if reveal_target_problem(plan.request.target@) is None {
                        let i = choose|i: PathInspection|
                            call_ensures(A::inspect_path, (&self.adapter, path), i) && #[trigger] validated_from(
                                i,
                                validated,
                            );
                        assert(validated_from(i, Err(e)) && is_error_result(r, e));
                    }
                }
                r
            },
            Ok(target) => {
                let ghost v = target;
                let outcome = self.adapter.reveal_path(&target);
                let r = open_result(plan, outcome, REVEAL_SUCCEEDED_MESSAGE);
                proof {
                    let i = choose|i: PathInspection|
                        call_ensures(A::inspect_path, (&self.adapter, path), i) && #[trigger] validated_from(
                            i,
                            validated,
                        );
                    assert(call_ensures(A::inspect_path, (&self.adapter, path), i));
                    assert(call_ensures(A::reveal_path, (&self.adapter, &v), outcome));
                    assert(open_outcome(r, outcome, REVEAL_SUCCEEDED_MESSAGE@));
                }
                r
            },
        }
    }

    fn execute_open_windows_settings(&self, plan: &crate::policy::ActionPlan) -> (r: crate::policy::ActionResult)
        requires
            plan.request.kind is OpenWindowsSettings,
        ensures
            result_for(plan.request, r),
            r.metadata_json is None,
            match requested_settings_uri(plan.request) {
                None => r.status is Failed && r.message@ == MISSING_SETTINGS_PAGE_MESSAGE@ && opt_view(
                    r.error,
                ) == Some(MISSING_SETTINGS_PAGE_MESSAGE@),
                Some(uri) => if !settings_uri_allowed(uri) {
                    r.status is Denied && r.message@ == SETTINGS_NOT_ALLOWLISTED_MESSAGE@ && opt_view(
                        r.error,
                    ) == Some(SETTINGS_NOT_ALLOWLISTED_MESSAGE@)
                } else if r.status is Succeeded {
                    r.message@ == SETTINGS_SUCCEEDED_MESSAGE@ && r.error is None
                } else {
                    is_recorded_failure(r)
                },
            },
            settings_attempt(self.adapter(), plan.request, r),
    {
        let uri = match settings_uri_from_request(&plan.request) {
            Some(uri) => uri,
            None => {
                return error_result(
                    plan,
                    SafeActionError::InvalidTarget(owned(MISSING_SETTINGS_PAGE_MESSAGE)),
                );
            },
        };
        if !is_allowed_windows_settings_uri(uri.as_str()) {
            return error_result(plan, SafeActionError::Denied(owned(SETTINGS_NOT_ALLOWLISTED_MESSAGE)));
        }
        let page = uri.as_str();
        let outcome = self.adapter.open_windows_settings(page);
        let r = open_result(plan, outcome, SETTINGS_SUCCEEDED_MESSAGE);
        assert(call_ensures(A::open_windows_settings, (&self.adapter, page), outcome) && open_outcome(
            r,
            outcome,
            SETTINGS_SUCCEEDED_MESSAGE@,
        ));
        r
    }

    fn execute_kill_process(&self, plan: &crate::policy::ActionPlan) -> (r: crate::policy::ActionResult)
        requires
            plan.request.kind is KillProcess,
        ensures
            result_for(plan.request, r),
            match crate::policy::metadata_pid(plan.request.metadata_json) {
                None => r.status is Denied && r.message@ == MISSING_PID_REASON@ && opt_view(r.error)
                    == Some(MISSING_PID_REASON@) && r.metadata_json is None,
                Some(pid) => r.metadata_json matches Some(v) && exists|t: KillProcessTarget, s: KillProcessSafetyCheck|
                    t.pid == pid && requested_kill_target(plan.request, t) && #[trigger] kill_metadata_of(v, t, s)
                    && kill_outcome(r, s),
            },
            kill_attempt(self.adapter(), plan.request, r),
    {
        let target = match kill_process_target_from_request(&plan.request) {
            Some(target) => target,
            None => {
                return denied_action_result(plan, MISSING_PID_REASON);
            },
        };
        let safety = self.adapter.precheck_kill_process(&target);
        if let Some(r) = after_precheck(plan, &target, &safety) {
            assert(kill_metadata_of(r.metadata_json->0, target, safety));
            assert(call_ensures(A::precheck_kill_process, (&self.adapter, &target), safety));
            assert(denied_by_check(r, target, safety));
            return r;
        }
        let outcome = self.adapter.kill_process(&target);
        let ghost o = outcome;
        let r = kill_result(plan, &target, &safety, outcome);
        assert(call_ensures(A::precheck_kill_process, (&self.adapter, &target), safety));
        assert(call_ensures(A::kill_process, (&self.adapter, &target), o));
        proof {
            match o {
                Ok(f) => {
                    assert(kill_metadata_of(r.metadata_json->0, target, f));
                },
                Err(e) => {
                    assert(kill_metadata_of(r.metadata_json->0, target, safety));
                },
            }
        }
        r
    }
}

// ---------------------------------------------------------------------------
// Laws of execution
// ---------------------------------------------------------------------------

/// An attempt only succeeds for an enabled kind whose target passed the
/// library's own checks: a reveal target that passed the textual checks, an
/// allowlisted settings page, or a kill request that names a PID.
pub proof fn law_success_only_for_permitted_requests(request: ActionRequest, r: crate::policy::ActionResult)
    requires
        execution_follows_policy(request, r),
        r.status is Succeeded,
    ensures
        crate::policy::action_enabled(request.kind),
        request.kind is RevealPath ==> reveal_target_problem(request.target@) is None,
        request.kind is OpenWindowsSettings ==> (requested_settings_uri(request) matches Some(u)
            && settings_uri_allowed(u)),
        request.kind is KillProcess ==> crate::policy::metadata_pid(request.metadata_json) is Some,
        r.error is None,
{
}

/// Every attempt that does not succeed is recorded as failed, denied or
/// unsupported, with an error.
pub proof fn law_failures_are_recorded(request: ActionRequest, r: crate::policy::ActionResult)
    requires
        execution_follows_policy(request, r),
        !(r.status is Succeeded),
    ensures
        r.status is Failed || r.status is Denied || r.status is Unsupported,
        r.error is Some,
{
}

/// The safety check recorded in kill audit metadata says whether it allowed
/// the kill.
pub open spec fn recorded_allowed(v: JsonValue) -> Option<JsonValue> {
    match v.spec_get("safety"@) {
        Some(sj) => sj.spec_get("allowed"@),
        None => None,
    }
}

proof fn lemma_recorded_allowed(v: JsonValue, t: KillProcessTarget, s: KillProcessSafetyCheck)
    requires
        kill_metadata_of(v, t, s),
    ensures
        recorded_allowed(v) == Some(JsonValue::Bool(s.allowed)),
{
    reveal_strlit("pid");
    reveal_strlit("process_name");
    reveal_strlit("process_path");
    reveal_strlit("metadata_note");
    reveal_strlit("safety");
    reveal_strlit("allowed");
    let m = v->Object_0;
    assert("pid"@.len() == 3);
    assert("process_name"@.len() == 12);
    assert("process_path"@.len() == 12);
    assert("metadata_note"@.len() == 13);
    assert("safety"@.len() == 6);
    assert("allowed"@.len() == 7);
    crate::json::lemma_find_key_is(m@, "safety"@, 4);
    let sj = m@[4].value;
    crate::json::lemma_find_key_is(sj->Object_0@, "allowed"@, 0);
}

/// A kill is recorded as a success only with a safety check that allowed
/// it; a recorded check that denied it makes the attempt a denial.
pub proof fn law_kill_success_needs_allowing_check(request: ActionRequest, r: crate::policy::ActionResult)
    requires
        execution_follows_policy(request, r),
        request.kind is KillProcess,
    ensures
        r.status is Succeeded ==> (r.metadata_json matches Some(v) && recorded_allowed(v) == Some(
            JsonValue::Bool(true),
        )),
        (r.metadata_json matches Some(v) && recorded_allowed(v) == Some(JsonValue::Bool(false)))
            ==> r.status is Denied,
{
    if crate::policy::metadata_pid(request.metadata_json) is Some {
        let v = r.metadata_json->0;
        let pid = crate::policy::metadata_pid(request.metadata_json)->0;
        let (t, s) = choose|t: KillProcessTarget, s: KillProcessSafetyCheck|
            t.pid == pid && requested_kill_target(request, t) && #[trigger] kill_metadata_of(v, t, s)
                && kill_outcome(r, s);
        lemma_recorded_allowed(v, t, s);
    }
}

/// The audit metadata of a kill attempt names the requested PID and never
/// holds the command line.
pub proof fn law_kill_audit_omits_command_line(request: ActionRequest, r: crate::policy::ActionResult)
    requires
        execution_follows_policy(request, r),
        request.kind is KillProcess,
        r.metadata_json is Some,
    ensures
        r.metadata_json->0.spec_get("command_line"@) is None,
        crate::policy::metadata_pid(request.metadata_json) matches Some(pid) && (r.metadata_json->0.spec_get("pid"@)
            == Some(JsonValue::Number(JsonNumber::PosInt(pid as u64)))),
{
    let v = r.metadata_json->0;
    let pid = crate::policy::metadata_pid(request.metadata_json)->0;
    let (t, s) = choose|t: KillProcessTarget, s: KillProcessSafetyCheck| t.pid == pid && #[trigger] kill_metadata_of(v, t, s);
    law_kill_metadata_omits_command_line(v, t, s);
}

} // verus!

verus! {

/// A kill is only reported as done when the adapter prechecked the
/// requested target and allowed the kill, and then killed that same target
/// with a final check that allowed it too.
pub proof fn law_kill_only_after_allowing_precheck<A: SafeActionAdapter>(
    adapter: A,
    request: ActionRequest,
    r: crate::policy::ActionResult,
)
    requires
        execution_follows_policy(request, r),
        adapter_use(adapter, request, r),
        request.kind is KillProcess,
        r.status is Succeeded,
    ensures
        exists|t: KillProcessTarget, s: KillProcessSafetyCheck, f: KillProcessSafetyCheck|
            #![trigger call_ensures(A::precheck_kill_process, (&adapter, &t), s), call_ensures(A::kill_process, (&adapter, &t), Ok::<KillProcessSafetyCheck, SafeActionError>(f))]
            requested_kill_target(request, t) && call_ensures(A::precheck_kill_process, (&adapter, &t), s)
                && s.allowed && call_ensures(
                A::kill_process,
                (&adapter, &t),
                Ok::<KillProcessSafetyCheck, SafeActionError>(f),
            ) && f.allowed,
{
    let (t, s) = choose|t: KillProcessTarget, s: KillProcessSafetyCheck|
        #![trigger call_ensures(A::precheck_kill_process, (&adapter, &t), s)]
        requested_kill_target(request, t) && call_ensures(A::precheck_kill_process, (&adapter, &t), s)
            && if !s.allowed {
            denied_by_check(r, t, s)
        } else {
            exists|o: Result<KillProcessSafetyCheck, SafeActionError>|
                #![trigger call_ensures(A::kill_process, (&adapter, &t), o)]
                call_ensures(A::kill_process, (&adapter, &t), o) && killed_as(r, t, s, o)
        };
    let o = choose|o: Result<KillProcessSafetyCheck, SafeActionError>|
        #![trigger call_ensures(A::kill_process, (&adapter, &t), o)]
        call_ensures(A::kill_process, (&adapter, &t), o) && killed_as(r, t, s, o);
    let f = o->Ok_0;
    assert(call_ensures(A::kill_process, (&adapter, &t), Ok::<KillProcessSafetyCheck, SafeActionError>(f)));
}

} // verus!

verus! {

/// The hard-deny list: a process name is protected exactly when, trimmed
/// and lower-cased, it is one of the fifteen Windows system process names.
pub proof fn law_hard_deny_list(name: Seq<char>)
    ensures
        hard_denied(name) <==> {
            let n = lower(trim(name));
            ||| n == "system"@
            ||| n == "idle"@
            ||| n == "registry"@
            ||| n == "smss.exe"@
            ||| n == "csrss.exe"@
            ||| n == "wininit.exe"@
            ||| n == "winlogon.exe"@
            ||| n == "services.exe"@
            ||| n == "lsass.exe"@
            ||| n == "lsm.exe"@
            ||| n == "svchost.exe"@
            ||| n == "fontdrvhost.exe"@
            ||| n == "dwm.exe"@
            ||| n == "conhost.exe"@
            ||| n == "explorer.exe"@
        },
{
    let n = lower(trim(name));
    let l = hard_denied_names();
    if l.contains(n) {
        let i = choose|i: int| 0 <= i < l.len() && l[i] == n;
        assert(0 <= i < 15);
    }
    assert(l[0] == "system"@);
    assert(l[12] == "dwm.exe"@);
    if n == "system"@ { assert(l[0] == n); }
    if n == "idle"@ { assert(l[1] == n); }
    if n == "registry"@ { assert(l[2] == n); }
    if n == "smss.exe"@ { assert(l[3] == n); }
    if n == "csrss.exe"@ { assert(l[4] == n); }
    if n == "wininit.exe"@ { assert(l[5] == n); }
    if n == "winlogon.exe"@ { assert(l[6] == n); }
    if n == "services.exe"@ { assert(l[7] == n); }
    if n == "lsass.exe"@ { assert(l[8] == n); }
    if n == "lsm.exe"@ { assert(l[9] == n); }
    if n == "svchost.exe"@ { assert(l[10] == n); }
    if n == "fontdrvhost.exe"@ { assert(l[11] == n); }
    if n == "dwm.exe"@ { assert(l[12] == n); }
    if n == "conhost.exe"@ { assert(l[13] == n); }
    if n == "explorer.exe"@ { assert(l[14] == n); }
}

/// What the kill-process safety check refuses, whatever the order of its
/// rules: PID 0, the current process and its parent; a target without a
/// name or path; a name that is a placeholder (`pid-…`, `unknown`) or on
/// the hard-deny list (whatever the path); a path under the Windows
/// directory.  A refusal is never allowed, and a target that passes the PID
/// and placeholder rules but has a hard-denied name is refused with that
/// name's protection as the reason.
pub proof fn law_kill_refusals(
    target: KillProcessTarget,
    current_pid: u32,
    parent_pid: Option<u32>,
    check: KillProcessSafetyCheck,
)
    requires
        match kill_denial(target, current_pid, parent_pid) {
            Some(reason) => check.is_denial(reason),
            None => check.is_permission(),
        },
    ensures
        target.pid == 0 ==> !check.allowed,
        target.pid == current_pid ==> !check.allowed,
        parent_pid == Some(target.pid) ==> !check.allowed,
        (match target.process_name {
            None => true,
            Some(n) => trim(n@).len() == 0,
        }) ==> !check.allowed,
        (match target.process_path {
            None => true,
            Some(p) => trim(p@).len() == 0,
        }) ==> !check.allowed,
        match target.process_name {
            Some(n) => hard_denied(n@) ==> !check.allowed,
            None => true,
        },
        match target.process_name {
            Some(n) => (has_prefix(lower(trim(n@)), "pid-"@) || lower(trim(n@)) == lower("unknown"@))
                ==> !check.allowed,
            None => true,
        },
        match target.process_path {
            Some(p) => (has_prefix(lower(replace_char(trim(p@), '/', '\\')), "c:\\windows\\"@) || lower(
                replace_char(trim(p@), '/', '\\'),
            ) == "c:\\windows"@) ==> !check.allowed,
            None => true,
        },
        match target.process_name {
            Some(n) => (target.pid != 0 && target.pid != current_pid && parent_pid != Some(target.pid)
                && hard_denied(n@)) ==> opt_view(check.reason) == Some(trim(n@) + HARD_DENY_SUFFIX@),
            None => true,
        },
{
    if let Some(n) = target.process_name {
        if hard_denied(n@) {
            lemma_hard_denied_not_placeholder(n@);
            crate::text::lemma_trim_idempotent(n@);
            assert(present_text(target.process_name) == Some(trim(n@)));
            assert(hard_denied(trim(n@)));
        }
    }
    if let Some(p) = target.process_path {
        if trim(p@).len() > 0 {
            law_system_paths_are_windows_paths(trim(p@));
        }
    }
}

/// No hard-denied name is a placeholder name.
proof fn lemma_hard_denied_not_placeholder(name: Seq<char>)
    requires
        hard_denied(name),
    ensures
        trim(name).len() > 0,
        !has_prefix(lower(trim(name)), "pid-"@),
        !eq_ignore_case(trim(name), "unknown"@),
{
    let n = lower(trim(name));
    law_hard_deny_list(name);
    reveal_strlit("pid-");
    reveal_strlit("unknown");
    reveal_strlit("system");
    reveal_strlit("idle");
    reveal_strlit("registry");
    reveal_strlit("smss.exe");
    reveal_strlit("csrss.exe");
    reveal_strlit("wininit.exe");
    reveal_strlit("winlogon.exe");
    reveal_strlit("services.exe");
    reveal_strlit("lsass.exe");
    reveal_strlit("lsm.exe");
    reveal_strlit("svchost.exe");
    reveal_strlit("fontdrvhost.exe");
    reveal_strlit("dwm.exe");
    reveal_strlit("conhost.exe");
    reveal_strlit("explorer.exe");
    assert(lower(trim(name)).len() == trim(name).len());
    assert(n.len() > 0);
    assert(lower("unknown"@)[0] == lower_char('u'));
    assert(lower("unknown"@).len() == 7);
    assert(n.subrange(0, 4) == n.subrange(0, 4));
    if has_prefix(n, "pid-"@) {
        assert(n.subrange(0, 4)[0] == n[0]);
        assert("pid-"@[0] == 'p');
        assert(n[0] == 'p');
    }
    if n == lower("unknown"@) {
        assert(n[0] == 'u');
    }
}

/// The settings allowlist is exactly these seven pages, and each of them may
/// be opened.
pub proof fn law_settings_allowlist_pages()
    ensures
        allowed_settings_pages() == seq![
            "ms-settings:privacy"@, "ms-settings:privacy-microphone"@,
            "ms-settings:privacy-webcam"@, "ms-settings:appsfeatures"@,
            "ms-settings:startupapps"@, "ms-settings:network-status"@,
            "ms-settings:windowsdefender"@,
        ],
        settings_uri_allowed("ms-settings:privacy"@),
        settings_uri_allowed("ms-settings:privacy-microphone"@),
        settings_uri_allowed("ms-settings:privacy-webcam"@),
        settings_uri_allowed("ms-settings:appsfeatures"@),
        settings_uri_allowed("ms-settings:startupapps"@),
        settings_uri_allowed("ms-settings:network-status"@),
        settings_uri_allowed("ms-settings:windowsdefender"@),
{
    let l = allowed_settings_pages();
    assert forall|i: int| 0 <= i < 7 implies #[trigger] settings_uri_allowed(l[i]) by {
        assert(eq_ignore_case(l[i], l[i]));
        law_settings_allowlist(l[i]);
    }
    assert(settings_uri_allowed(l[0]));
    assert(settings_uri_allowed(l[1]));
    assert(settings_uri_allowed(l[2]));
    assert(settings_uri_allowed(l[3]));
    assert(settings_uri_allowed(l[4]));
    assert(settings_uri_allowed(l[5]));
    assert(settings_uri_allowed(l[6]));
}

} // verus!

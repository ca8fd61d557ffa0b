//! The configuration record the monitor consumes.
//!
//! Argument parsing happens outside the library; what arrives here is the
//! resolved record: user name, icon URL, notification target, and verbosity.
//! An empty notification target disables all outbound notifications. The
//! verbosity name is mapped to its level ASCII-case-insensitively, with
//! unknown names falling back to `Info`.

use vstd::prelude::*;

verus! {

/// The fixed, ordered set of log verbosity levels.
#[derive(Clone, Copy, Debug, PartialEq, Eq)]
pub enum LogLevel {
    Error,
    Warn,
    Info,
    Debug,
    Trace,
}

/// The resolved configuration record.
pub struct Config {
    /// Display name sent in each notification.
    pub user_name: String,
    /// Icon URL sent in each notification.
    pub user_icon: String,
    /// Notification target; empty means notifications are disabled.
    pub server_url: String,
    /// Log verbosity.
    pub log_level: LogLevel,
}

impl Config {
    /// Bundle the resolved settings.
    pub fn new(user_name: String, user_icon: String, server_url: String, log_level: LogLevel) -> (c:
        Config)
        ensures
            c.user_name == user_name,
            c.user_icon == user_icon,
            c.server_url == server_url,
            c.log_level == log_level,
    {
        Config { user_name, user_icon, server_url, log_level }
    }

    /// Notifications are enabled exactly when the target URL is non-empty.
    pub fn notifications_enabled(&self) -> (r: bool)
        ensures
            r == (self.server_url@.len() != 0),
    {
        !self.server_url.as_str().is_empty()
    }
}

/// The defaults the monitor runs with when nothing is supplied: user name
/// `user`, a fixed placeholder icon, no notification target (notifications
/// disabled), and `Info` verbosity.
pub fn default_config() -> (c: Config)
    ensures
        c.user_name@ == "user"@,
        c.user_icon@ == "https://cdn.iconscout.com/icon/free/png-256/avatar-370-456322.png"@,
        c.server_url@.len() == 0,
        c.log_level == LogLevel::Info,
{
    Config {
        user_name: String::from_str("user"),
        user_icon: String::from_str(
            "https://cdn.iconscout.com/icon/free/png-256/avatar-370-456322.png",
        ),
        server_url: String::new(),
        log_level: LogLevel::Info,
    }
}

/// One character of the input matches one lowercase reference character,
/// ignoring ASCII case.
pub open spec fn char_eq_ci(a: char, b: char) -> bool {
    a == b || ('a' <= b && b <= 'z' && a as u32 + 32 == b as u32)
}

/// The input equals the lowercase reference word, ignoring ASCII case.
pub open spec fn str_eq_ci(s: Seq<char>, lower: Seq<char>) -> bool {
    s.len() == lower.len() && (forall|i: int|
        0 <= i < s.len() ==> char_eq_ci(s[i], #[trigger] lower[i]))
}

/// The level a verbosity name denotes; anything unrecognized means `Info`.
pub open spec fn level_of(s: Seq<char>) -> LogLevel {
    if str_eq_ci(s, "error"@) {
        LogLevel::Error
    } else if str_eq_ci(s, "warn"@) {
        LogLevel::Warn
    } else if str_eq_ci(s, "debug"@) {
        LogLevel::Debug
    } else if str_eq_ci(s, "trace"@) {
        LogLevel::Trace
    } else {
        LogLevel::Info
    }
}

/// Compare the input against a lowercase reference word, ignoring ASCII case.
fn eq_ignore_case(s: &str, lower: &str) -> (r: bool)
    requires
        forall|i: int| 0 <= i < lower@.len() ==> 'a' <= #[trigger] lower@[i] && lower@[i] <= 'z',
    ensures
        r == str_eq_ci(s@, lower@),
{
    let n = s.unicode_len();
    let m = lower.unicode_len();
    if n != m {
        return false;
    }
    let mut i: usize = 0;
    while i < n
        invariant
            i <= n,
            n == s@.len(),
            n == lower@.len(),
            forall|j: int| 0 <= j < lower@.len() ==> 'a' <= #[trigger] lower@[j] && lower@[j] <= 'z',
            forall|j: int| 0 <= j < i ==> char_eq_ci(s@[j], #[trigger] lower@[j]),
        decreases n - i,
    {
        let a = s.get_char(i);
        let b = lower.get_char(i);
        if !(a == b || (a as u32) + 32 == (b as u32)) {
            assert(!char_eq_ci(s@[i as int], lower@[i as int]));
            return false;
        }
        i = i + 1;
    }
    true
}

/// Map a verbosity name to its level, ignoring ASCII case; unknown names
/// fall back to `Info`.
pub fn level_from_str(s: &str) -> (l: LogLevel)
    ensures
        l == level_of(s@),
{
    proof {
        reveal_strlit("error");
        reveal_strlit("warn");
        reveal_strlit("debug");
        reveal_strlit("trace");
    }
    if eq_ignore_case(s, "error") {
        LogLevel::Error
    } else if eq_ignore_case(s, "warn") {
        LogLevel::Warn
    } else if eq_ignore_case(s, "debug") {
        LogLevel::Debug
    } else if eq_ignore_case(s, "trace") {
        LogLevel::Trace
    } else {
        LogLevel::Info
    }
}

} // verus!

//! State shared by the graphical front end: pages, notifications, forms and confirmations.
use vstd::prelude::*;

verus! {

/// How long a notification stays on screen, in milliseconds.
pub const NOTIFICATION_LIFETIME_MS: u64 = 5000;

/// The pages of the front end.
#[derive(Debug, Clone, Copy, PartialEq, Eq, Structural)]
pub enum Page {
    Dashboard,
    Zone,
    Dns,
    Ssl,
    Firewall,
    Cache,
    PageRules,
    Workers,
    Analytics,
    AiAssistant,
    Config,
}

/// How a notification is shown.
#[derive(Debug, Clone, Copy, PartialEq, Eq, Structural)]
pub enum NotifLevel {
    Success,
    Error,
    Warning,
    Info,
}

/// A notification, stamped with the time it was made on a monotonic clock, in milliseconds.
#[derive(Debug, Clone, PartialEq)]
pub struct Notification {
    pub message: String,
    pub level: NotifLevel,
    pub created_at_ms: u64,
}

impl Notification {
    /// A notification made at `now_ms`.
    pub fn new(message: String, level: NotifLevel, now_ms: u64) -> (r: Notification)
        ensures
            r.message == message,
            r.level == level,
            r.created_at_ms == now_ms,
    {
        Notification { message, level, created_at_ms: now_ms }
    }

    /// Whether the notification has been shown for longer than its lifetime at `now_ms`.
    pub fn is_expired(&self, now_ms: u64) -> (r: bool)
        ensures
            r == (now_ms as int - self.created_at_ms as int > NOTIFICATION_LIFETIME_MS as int),
    {
        now_ms > self.created_at_ms && now_ms - self.created_at_ms > NOTIFICATION_LIFETIME_MS
    }
}

/// What the assistant page asks of the model.
#[derive(Debug, Clone, Copy, PartialEq, Eq, Structural)]
pub enum AiMode {
    Ask,
    AnalyzeDns,
    AnalyzeSecurity,
    AnalyzePerformance,
    Troubleshoot,
    AutoConfig,
}

/// The form for adding a DNS record.
#[derive(Debug, Clone, PartialEq)]
pub struct DnsAddForm {
    pub record_type: String,
    pub name: String,
    pub content: String,
    pub ttl: String,
    pub proxied: bool,
    pub priority: String,
    pub comment: String,
}

impl Default for DnsAddForm {
    /// An `A` record, proxied, with the automatic TTL and everything else empty.
    fn default() -> (r: DnsAddForm)
        ensures
            r.record_type@ == "A"@,
            r.name@.len() == 0,
            r.content@.len() == 0,
            r.ttl@ == "1"@,
            r.proxied,
            r.priority@.len() == 0,
            r.comment@.len() == 0,
    {
        DnsAddForm {
            record_type: "A".to_owned(),
            name: String::new(),
            content: String::new(),
            ttl: "1".to_owned(),
            proxied: true,
            priority: String::new(),
            comment: String::new(),
        }
    }
}

/// The form for editing a DNS record.
#[derive(Debug, Clone, PartialEq)]
pub struct DnsEditForm {
    pub record_id: String,
    pub record_type: String,
    pub name: String,
    pub content: String,
    pub ttl: String,
    pub proxied: bool,
    pub priority: String,
    pub comment: String,
}

/// The form for a redirect page rule.
#[derive(Debug, Clone, PartialEq)]
pub struct RedirectForm {
    pub url_pattern: String,
    pub redirect_url: String,
    pub status_code: u16,
}

impl Default for RedirectForm {
    /// Empty addresses and a permanent redirect.
    fn default() -> (r: RedirectForm)
        ensures
            r.url_pattern@.len() == 0,
            r.redirect_url@.len() == 0,
            r.status_code == 301,
    {
        RedirectForm { url_pattern: String::new(), redirect_url: String::new(), status_code: 301 }
    }
}

/// The tabs of the workers page.
#[derive(Debug, Clone, Copy, PartialEq, Eq, Structural)]
pub enum WorkersTab {
    Scripts,
    Routes,
    Kv,
    Domains,
}

/// A question put to the user before a destructive action.
#[derive(Debug, Clone, PartialEq)]
pub struct ConfirmDialog {
    pub title: String,
    pub message: String,
    pub action: ConfirmAction,
}

/// The destructive actions that need a confirmation.
#[derive(Debug, Clone, PartialEq)]
pub enum ConfirmAction {
    DeleteZone(String),
    DeleteDnsRecord(String, String),
    DeletePageRule(String, String),
    DeleteWorker(String),
    PurgeAllCache(String),
    DeleteIpRule(String, String),
}

} // verus!

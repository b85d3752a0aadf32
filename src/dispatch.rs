//! Checking an action's parameters and turning it into the one remote operation it asks for.
use vstd::prelude::*;
use crate::action::{Action, ActionKind, ActionView, KindView};
use crate::json::{
    as_boolean, as_elements, as_text, as_unsigned, get_member, is_null, json_contents, member,
    JsonModel,
};
use crate::models::{DnsRecordRequest, DnsRequestView};
use crate::format::{decimal, decimal_text};
use crate::text::{chars_of, eq_ignoring_case, same_ignoring_case, text_eq};

verus! {

/// The parameter keys that actions use.
#[derive(Debug, Clone, Copy, PartialEq, Eq, Structural)]
pub enum ParamKey {
    Setting,
    Value,
    Enable,
    SettingId,
    Type,
    Name,
    Content,
    RecordId,
    Ttl,
    Proxied,
    Priority,
    Comment,
    Urls,
    Tags,
    Hosts,
    Ip,
    Note,
    Level,
}

/// The text of a parameter key.
pub open spec fn key_text(k: ParamKey) -> Seq<char> {
    match k {
        ParamKey::Setting => "setting"@,
        ParamKey::Value => "value"@,
        ParamKey::Enable => "enable"@,
        ParamKey::SettingId => "setting_id"@,
        ParamKey::Type => "type"@,
        ParamKey::Name => "name"@,
        ParamKey::Content => "content"@,
        ParamKey::RecordId => "record_id"@,
        ParamKey::Ttl => "ttl"@,
        ParamKey::Proxied => "proxied"@,
        ParamKey::Priority => "priority"@,
        ParamKey::Comment => "comment"@,
        ParamKey::Urls => "urls"@,
        ParamKey::Tags => "tags"@,
        ParamKey::Hosts => "hosts"@,
        ParamKey::Ip => "ip"@,
        ParamKey::Note => "note"@,
        ParamKey::Level => "level"@,
    }
}

impl ParamKey {
    /// The text of the key.
    pub fn name(&self) -> (r: &'static str)
        ensures
            r@ == key_text(*self),
    {
        match self {
            ParamKey::Setting => "setting",
            ParamKey::Value => "value",
            ParamKey::Enable => "enable",
            ParamKey::SettingId => "setting_id",
            ParamKey::Type => "type",
            ParamKey::Name => "name",
            ParamKey::Content => "content",
            ParamKey::RecordId => "record_id",
            ParamKey::Ttl => "ttl",
            ParamKey::Proxied => "proxied",
            ParamKey::Priority => "priority",
            ParamKey::Comment => "comment",
            ParamKey::Urls => "urls",
            ParamKey::Tags => "tags",
            ParamKey::Hosts => "hosts",
            ParamKey::Ip => "ip",
            ParamKey::Note => "note",
            ParamKey::Level => "level",
        }
    }
}

/// Why an action cannot be dispatched.
#[derive(Debug, Clone, PartialEq)]
pub enum ValidationError {
    /// The action's `type` token is not in the table.
    UnsupportedKind(String),
    /// A required parameter is absent or is not of the kind asked for.
    MissingParam(ParamKey),
    /// A parameter is present with a value of the wrong shape.
    InvalidParam(ParamKey),
    /// A switch parameter holds a string that is none of the on and off tokens.
    UnreadableSwitch(ParamKey, String),
    /// A TLS change names a setting outside the fixed set.
    UnknownSetting(String),
    /// A cache purge names a variant outside the fixed set.
    UnknownPurgeType(String),
    /// An access rule change names a variant outside the fixed set.
    UnknownRuleType(String),
}

pub enum ErrorView {
    UnsupportedKind(Seq<char>),
    MissingParam(ParamKey),
    InvalidParam(ParamKey),
    UnreadableSwitch(ParamKey, Seq<char>),
    UnknownSetting(Seq<char>),
    UnknownPurgeType(Seq<char>),
    UnknownRuleType(Seq<char>),
}

impl View for ValidationError {
    type V = ErrorView;

    open spec fn view(&self) -> ErrorView {
        match self {
            ValidationError::UnsupportedKind(t) => ErrorView::UnsupportedKind(t@),
            ValidationError::MissingParam(k) => ErrorView::MissingParam(*k),
            ValidationError::InvalidParam(k) => ErrorView::InvalidParam(*k),
            ValidationError::UnreadableSwitch(k, t) => ErrorView::UnreadableSwitch(*k, t@),
            ValidationError::UnknownSetting(t) => ErrorView::UnknownSetting(t@),
            ValidationError::UnknownPurgeType(t) => ErrorView::UnknownPurgeType(t@),
            ValidationError::UnknownRuleType(t) => ErrorView::UnknownRuleType(t@),
        }
    }
}

/// The remote operation that one action asks for, with its arguments checked.
#[derive(Debug, Clone, PartialEq)]
pub enum RemoteOp {
    SetSslMode(String),
    SetAlwaysHttps(bool),
    SetMinTlsVersion(String),
    SetOpportunisticEncryption(bool),
    SetAutomaticHttpsRewrites(bool),
    UpdateSetting { setting_id: String, value: serde_json::Value },
    CreateDnsRecord(DnsRecordRequest),
    UpdateDnsRecord { record_id: String, request: DnsRecordRequest },
    DeleteDnsRecord(String),
    PurgeAll,
    PurgeUrls(Vec<String>),
    PurgeTags(Vec<String>),
    PurgeHosts(Vec<String>),
    BlockIp { ip: String, note: Option<String> },
    AllowIp { ip: String, note: Option<String> },
    SetSecurityLevel(String),
    SetUnderAttack(bool),
    SetBrowserCheck(bool),
}

pub enum OpView {
    SetSslMode(Seq<char>),
    SetAlwaysHttps(bool),
    SetMinTlsVersion(Seq<char>),
    SetOpportunisticEncryption(bool),
    SetAutomaticHttpsRewrites(bool),
    UpdateSetting { setting_id: Seq<char>, value: JsonModel },
    CreateDnsRecord(DnsRequestView),
    UpdateDnsRecord { record_id: Seq<char>, request: DnsRequestView },
    DeleteDnsRecord(Seq<char>),
    PurgeAll,
    PurgeUrls(Seq<Seq<char>>),
    PurgeTags(Seq<Seq<char>>),
    PurgeHosts(Seq<Seq<char>>),
    BlockIp { ip: Seq<char>, note: Option<Seq<char>> },
    AllowIp { ip: Seq<char>, note: Option<Seq<char>> },
    SetSecurityLevel(Seq<char>),
    SetUnderAttack(bool),
    SetBrowserCheck(bool),
}

/// The texts of a list of strings.
pub open spec fn texts(xs: Seq<String>) -> Seq<Seq<char>> {
    xs.map_values(|s: String| s@)
}

/// The text of an optional string.
pub open spec fn opt_text(x: Option<String>) -> Option<Seq<char>> {
    match x {
        Some(s) => Some(s@),
        None => None,
    }
}

impl View for RemoteOp {
    type V = OpView;

    open spec fn view(&self) -> OpView {
        match self {
            RemoteOp::SetSslMode(v) => OpView::SetSslMode(v@),
            RemoteOp::SetAlwaysHttps(b) => OpView::SetAlwaysHttps(*b),
            RemoteOp::SetMinTlsVersion(v) => OpView::SetMinTlsVersion(v@),
            RemoteOp::SetOpportunisticEncryption(b) => OpView::SetOpportunisticEncryption(*b),
            RemoteOp::SetAutomaticHttpsRewrites(b) => OpView::SetAutomaticHttpsRewrites(*b),
            RemoteOp::UpdateSetting { setting_id, value } => OpView::UpdateSetting {
                setting_id: setting_id@,
                value: json_contents(*value),
            },
            RemoteOp::CreateDnsRecord(r) => OpView::CreateDnsRecord(r@),
            RemoteOp::UpdateDnsRecord { record_id, request } => OpView::UpdateDnsRecord {
                record_id: record_id@,
                request: request@,
            },
            RemoteOp::DeleteDnsRecord(id) => OpView::DeleteDnsRecord(id@),
            RemoteOp::PurgeAll => OpView::PurgeAll,
            RemoteOp::PurgeUrls(xs) => OpView::PurgeUrls(texts(xs@)),
            RemoteOp::PurgeTags(xs) => OpView::PurgeTags(texts(xs@)),
            RemoteOp::PurgeHosts(xs) => OpView::PurgeHosts(texts(xs@)),
            RemoteOp::BlockIp { ip, note } => OpView::BlockIp { ip: ip@, note: opt_text(*note) },
            RemoteOp::AllowIp { ip, note } => OpView::AllowIp { ip: ip@, note: opt_text(*note) },
            RemoteOp::SetSecurityLevel(l) => OpView::SetSecurityLevel(l@),
            RemoteOp::SetUnderAttack(b) => OpView::SetUnderAttack(*b),
            RemoteOp::SetBrowserCheck(b) => OpView::SetBrowserCheck(*b),
        }
    }
}

// ---------------------------------------------------------------------------------------------
// Parameters, as the model reads them
// ---------------------------------------------------------------------------------------------

/// A required string parameter.
pub open spec fn required_text(p: JsonModel, k: ParamKey) -> Result<Seq<char>, ErrorView> {
    match member(p, key_text(k)) {
        Some(JsonModel::Str(s)) => Ok(s),
        _ => Err(ErrorView::MissingParam(k)),
    }
}

/// Whether a parameter is absent or null.
pub open spec fn unset(p: JsonModel, k: ParamKey) -> bool {
    member(p, key_text(k)) matches None || member(p, key_text(k)) == Some(JsonModel::Null)
}

/// An optional string parameter.
pub open spec fn optional_text(p: JsonModel, k: ParamKey) -> Result<Option<Seq<char>>, ErrorView> {
    if unset(p, k) {
        Ok(None)
    } else {
        match member(p, key_text(k)) {
            Some(JsonModel::Str(s)) => Ok(Some(s)),
            _ => Err(ErrorView::InvalidParam(k)),
        }
    }
}

/// An optional boolean parameter.
pub open spec fn optional_bool(p: JsonModel, k: ParamKey) -> Result<Option<bool>, ErrorView> {
    if unset(p, k) {
        Ok(None)
    } else {
        match member(p, key_text(k)) {
            Some(JsonModel::Bool(b)) => Ok(Some(b)),
            _ => Err(ErrorView::InvalidParam(k)),
        }
    }
}

/// An optional integer parameter no larger than `max`.
pub open spec fn optional_int(p: JsonModel, k: ParamKey, max: int) -> Result<Option<int>, ErrorView> {
    if unset(p, k) {
        Ok(None)
    } else {
        match member(p, key_text(k)) {
            Some(JsonModel::Int(n)) => if 0 <= n <= max {
                Ok(Some(n))
            } else {
                Err(ErrorView::InvalidParam(k))
            },
            _ => Err(ErrorView::InvalidParam(k)),
        }
    }
}

/// The tokens that switch a setting on.
pub open spec fn on_token(s: Seq<char>) -> bool {
    same_ignoring_case(s, "true"@) || same_ignoring_case(s, "on"@) || same_ignoring_case(s, "yes"@)
        || same_ignoring_case(s, "1"@)
}

/// The tokens that switch a setting off.
pub open spec fn off_token(s: Seq<char>) -> bool {
    same_ignoring_case(s, "false"@) || same_ignoring_case(s, "off"@) || same_ignoring_case(s, "no"@)
        || same_ignoring_case(s, "0"@)
}

/// A switch: a boolean, or one of the on and off tokens in any case; on where it is absent.
/// Another string is refused with the key and the string itself.
pub open spec fn switch_value(p: JsonModel, k: ParamKey) -> Result<bool, ErrorView> {
    if unset(p, k) {
        Ok(true)
    } else {
        match member(p, key_text(k)) {
            Some(JsonModel::Bool(b)) => Ok(b),
            Some(JsonModel::Str(s)) => if on_token(s) {
                Ok(true)
            } else if off_token(s) {
                Ok(false)
            } else {
                Err(ErrorView::UnreadableSwitch(k, s))
            },
            _ => Err(ErrorView::InvalidParam(k)),
        }
    }
}

/// The strings among the elements of an array, in order; other elements are passed over.
pub open spec fn strings_in(xs: Seq<JsonModel>) -> Seq<Seq<char>>
    decreases xs.len(),
{
    if xs.len() == 0 {
        Seq::empty()
    } else {
        match xs.last() {
            JsonModel::Str(s) => strings_in(xs.drop_last()).push(s),
            _ => strings_in(xs.drop_last()),
        }
    }
}

/// A required list parameter: the strings of an array.
pub open spec fn string_list(p: JsonModel, k: ParamKey) -> Result<Seq<Seq<char>>, ErrorView> {
    match member(p, key_text(k)) {
        Some(JsonModel::Array(xs)) => Ok(strings_in(xs)),
        _ => Err(ErrorView::MissingParam(k)),
    }
}


// ---------------------------------------------------------------------------------------------
// The operation each action asks for, as the model reads it
// ---------------------------------------------------------------------------------------------

/// A TLS setting change.
pub open spec fn tls_request(p: JsonModel) -> Result<OpView, ErrorView> {
    match required_text(p, ParamKey::Setting) {
        Err(e) => Err(e),
        Ok(s) => if s == "tls-mode"@ {
            match required_text(p, ParamKey::Value) {
                Ok(v) => Ok(OpView::SetSslMode(v)),
                Err(e) => Err(e),
            }
        } else if s == "force-https"@ {
            match switch_value(p, ParamKey::Enable) {
                Ok(b) => Ok(OpView::SetAlwaysHttps(b)),
                Err(e) => Err(e),
            }
        } else if s == "min-tls-version"@ {
            match required_text(p, ParamKey::Value) {
                Ok(v) => Ok(OpView::SetMinTlsVersion(v)),
                Err(e) => Err(e),
            }
        } else if s == "opportunistic-encryption"@ {
            match switch_value(p, ParamKey::Enable) {
                Ok(b) => Ok(OpView::SetOpportunisticEncryption(b)),
                Err(e) => Err(e),
            }
        } else if s == "https-rewrites"@ {
            match switch_value(p, ParamKey::Enable) {
                Ok(b) => Ok(OpView::SetAutomaticHttpsRewrites(b)),
                Err(e) => Err(e),
            }
        } else {
            Err(ErrorView::UnknownSetting(s))
        },
    }
}

/// A generic setting update: its id, and its value passed on as it is.
pub open spec fn setting_request(p: JsonModel) -> Result<OpView, ErrorView> {
    match required_text(p, ParamKey::SettingId) {
        Err(e) => Err(e),
        Ok(id) => match member(p, key_text(ParamKey::Value)) {
            Some(v) => Ok(OpView::UpdateSetting { setting_id: id, value: v }),
            None => Err(ErrorView::MissingParam(ParamKey::Value)),
        },
    }
}

/// The record that a DNS create or update writes.
pub open spec fn dns_fields(p: JsonModel) -> Result<DnsRequestView, ErrorView> {
    match (
        required_text(p, ParamKey::Type),
        required_text(p, ParamKey::Name),
        required_text(p, ParamKey::Content),
        optional_int(p, ParamKey::Ttl, u32::MAX as int),
        optional_bool(p, ParamKey::Proxied),
        optional_int(p, ParamKey::Priority, u16::MAX as int),
        optional_text(p, ParamKey::Comment),
    ) {
        (Err(e), _, _, _, _, _, _) => Err(e),
        (Ok(_), Err(e), _, _, _, _, _) => Err(e),
        (Ok(_), Ok(_), Err(e), _, _, _, _) => Err(e),
        (Ok(_), Ok(_), Ok(_), Err(e), _, _, _) => Err(e),
        (Ok(_), Ok(_), Ok(_), Ok(_), Err(e), _, _) => Err(e),
        (Ok(_), Ok(_), Ok(_), Ok(_), Ok(_), Err(e), _) => Err(e),
        (Ok(_), Ok(_), Ok(_), Ok(_), Ok(_), Ok(_), Err(e)) => Err(e),
        (Ok(t), Ok(n), Ok(c), Ok(ttl), Ok(proxied), Ok(priority), Ok(comment)) => Ok(
            DnsRequestView {
                record_type: t,
                name: n,
                content: c,
                ttl: match ttl {
                    Some(x) => Some(x as u32),
                    None => None,
                },
                proxied: proxied,
                priority: match priority {
                    Some(x) => Some(x as u16),
                    None => None,
                },
                comment: comment,
                tags: None,
            },
        ),
    }
}

/// A cache purge.
pub open spec fn cache_request(p: JsonModel) -> Result<OpView, ErrorView> {
    match required_text(p, ParamKey::Type) {
        Err(e) => Err(e),
        Ok(t) => if t == "purge-all"@ {
            Ok(OpView::PurgeAll)
        } else if t == "purge-by-urls"@ {
            match string_list(p, ParamKey::Urls) {
                Ok(xs) => Ok(OpView::PurgeUrls(xs)),
                Err(e) => Err(e),
            }
        } else if t == "purge-by-tags"@ {
            match string_list(p, ParamKey::Tags) {
                Ok(xs) => Ok(OpView::PurgeTags(xs)),
                Err(e) => Err(e),
            }
        } else if t == "purge-by-hosts"@ {
            match string_list(p, ParamKey::Hosts) {
                Ok(xs) => Ok(OpView::PurgeHosts(xs)),
                Err(e) => Err(e),
            }
        } else {
            Err(ErrorView::UnknownPurgeType(t))
        },
    }
}

/// An address with its optional note, for the two address rules.
pub open spec fn address_rule(p: JsonModel, block: bool) -> Result<OpView, ErrorView> {
    match required_text(p, ParamKey::Ip) {
        Err(e) => Err(e),
        Ok(ip) => match optional_text(p, ParamKey::Note) {
            Err(e) => Err(e),
            Ok(note) => if block {
                Ok(OpView::BlockIp { ip: ip, note: note })
            } else {
                Ok(OpView::AllowIp { ip: ip, note: note })
            },
        },
    }
}

/// An access rule change.
pub open spec fn access_request(p: JsonModel) -> Result<OpView, ErrorView> {
    match required_text(p, ParamKey::Type) {
        Err(e) => Err(e),
        Ok(t) => if t == "block-ip"@ {
            address_rule(p, true)
        } else if t == "allow-ip"@ {
            address_rule(p, false)
        } else if t == "set-security-level"@ {
            match required_text(p, ParamKey::Level) {
                Ok(l) => Ok(OpView::SetSecurityLevel(l)),
                Err(e) => Err(e),
            }
        } else if t == "toggle-attack-mode"@ {
            match switch_value(p, ParamKey::Enable) {
                Ok(b) => Ok(OpView::SetUnderAttack(b)),
                Err(e) => Err(e),
            }
        } else if t == "toggle-browser-check"@ {
            match switch_value(p, ParamKey::Enable) {
                Ok(b) => Ok(OpView::SetBrowserCheck(b)),
                Err(e) => Err(e),
            }
        } else {
            Err(ErrorView::UnknownRuleType(t))
        },
    }
}

/// The remote operation an action asks for, or why it cannot be dispatched.
pub open spec fn request_of(a: ActionView) -> Result<OpView, ErrorView> {
    let p = a.params;
    match a.kind {
        KindView::TlsSettingChange => tls_request(p),
        KindView::ResourceSettingChange => setting_request(p),
        KindView::DnsRecordCreate => match dns_fields(p) {
            Ok(r) => Ok(OpView::CreateDnsRecord(r)),
            Err(e) => Err(e),
        },
        KindView::DnsRecordUpdate => match required_text(p, ParamKey::RecordId) {
            Err(e) => Err(e),
            Ok(id) => match dns_fields(p) {
                Ok(r) => Ok(OpView::UpdateDnsRecord { record_id: id, request: r }),
                Err(e) => Err(e),
            },
        },
        KindView::DnsRecordDelete => match required_text(p, ParamKey::RecordId) {
            Ok(id) => Ok(OpView::DeleteDnsRecord(id)),
            Err(e) => Err(e),
        },
        KindView::CachePurge => cache_request(p),
        KindView::AccessRuleChange => access_request(p),
        KindView::Unsupported(t) => Err(ErrorView::UnsupportedKind(t)),
    }
}

/// The view of a dispatch result.
pub open spec fn op_result(r: Result<RemoteOp, ValidationError>) -> Result<OpView, ErrorView> {
    match r {
        Ok(op) => Ok(op@),
        Err(e) => Err(e@),
    }
}

/// The view of a string parameter read.
pub open spec fn text_result(r: Result<String, ValidationError>) -> Result<Seq<char>, ErrorView> {
    match r {
        Ok(s) => Ok(s@),
        Err(e) => Err(e@),
    }
}

// ---------------------------------------------------------------------------------------------
// Parameter readers
// ---------------------------------------------------------------------------------------------

/// A required string parameter.
pub fn required_string(p: &serde_json::Value, k: ParamKey) -> (r: Result<String, ValidationError>)
    ensures
        text_result(r) == required_text(json_contents(*p), k),
{
    match get_member(p, k.name()) {
        Some(x) => match as_text(x) {
            Some(s) => Ok(s.to_owned()),
            None => Err(ValidationError::MissingParam(k)),
        },
        None => Err(ValidationError::MissingParam(k)),
    }
}

/// Whether a parameter is absent or null.
fn is_unset(p: &serde_json::Value, k: ParamKey) -> (r: bool)
    ensures
        r == unset(json_contents(*p), k),
{
    match get_member(p, k.name()) {
        Some(x) => is_null(x),
        None => true,
    }
}

/// An optional string parameter.
pub fn optional_string(p: &serde_json::Value, k: ParamKey) -> (r: Result<Option<String>, ValidationError>)
    ensures
        match r {
            Ok(x) => optional_text(json_contents(*p), k) == Ok::<_, ErrorView>(opt_text(x)),
            Err(e) => optional_text(json_contents(*p), k) == Err::<Option<Seq<char>>, _>(e@),
        },
{
    if is_unset(p, k) {
        return Ok(None);
    }
    match get_member(p, k.name()) {
        Some(x) => match as_text(x) {
            Some(s) => Ok(Some(s.to_owned())),
            None => Err(ValidationError::InvalidParam(k)),
        },
        None => Err(ValidationError::InvalidParam(k)),
    }
}

/// An optional boolean parameter.
pub fn optional_flag(p: &serde_json::Value, k: ParamKey) -> (r: Result<Option<bool>, ValidationError>)
    ensures
        match r {
            Ok(x) => optional_bool(json_contents(*p), k) == Ok::<_, ErrorView>(x),
            Err(e) => optional_bool(json_contents(*p), k) == Err::<Option<bool>, _>(e@),
        },
{
    if is_unset(p, k) {
        return Ok(None);
    }
    match get_member(p, k.name()) {
        Some(x) => match as_boolean(x) {
            Some(b) => Ok(Some(b)),
            None => Err(ValidationError::InvalidParam(k)),
        },
        None => Err(ValidationError::InvalidParam(k)),
    }
}

/// An optional integer parameter no larger than `max`.
pub fn optional_number(p: &serde_json::Value, k: ParamKey, max: u64) -> (r: Result<Option<u64>, ValidationError>)
    ensures
        match r {
            Ok(Some(n)) => optional_int(json_contents(*p), k, max as int) == Ok::<_, ErrorView>(Some(n as int)),
            Ok(None) => optional_int(json_contents(*p), k, max as int) == Ok::<Option<int>, ErrorView>(None),
            Err(e) => optional_int(json_contents(*p), k, max as int) == Err::<Option<int>, _>(e@),
        },
{
    if is_unset(p, k) {
        return Ok(None);
    }
    match get_member(p, k.name()) {
        Some(x) => match as_unsigned(x) {
            Some(n) => if n <= max {
                Ok(Some(n))
            } else {
                Err(ValidationError::InvalidParam(k))
            },
            None => Err(ValidationError::InvalidParam(k)),
        },
        None => Err(ValidationError::InvalidParam(k)),
    }
}

/// Whether `s` is one of the tokens that switch a setting on.
fn is_on_token(s: &str) -> (r: bool)
    ensures
        r == on_token(s@),
{
    let cs = chars_of(s);
    eq_ignoring_case(&cs, &chars_of("true")) || eq_ignoring_case(&cs, &chars_of("on"))
        || eq_ignoring_case(&cs, &chars_of("yes")) || eq_ignoring_case(&cs, &chars_of("1"))
}

/// Whether `s` is one of the tokens that switch a setting off.
fn is_off_token(s: &str) -> (r: bool)
    ensures
        r == off_token(s@),
{
    let cs = chars_of(s);
    eq_ignoring_case(&cs, &chars_of("false")) || eq_ignoring_case(&cs, &chars_of("off"))
        || eq_ignoring_case(&cs, &chars_of("no")) || eq_ignoring_case(&cs, &chars_of("0"))
}

/// A switch: a boolean, or one of the on and off tokens in any case; on where it is absent.
pub fn switch_param(p: &serde_json::Value, k: ParamKey) -> (r: Result<bool, ValidationError>)
    ensures
        match r {
            Ok(b) => switch_value(json_contents(*p), k) == Ok::<_, ErrorView>(b),
            Err(e) => switch_value(json_contents(*p), k) == Err::<bool, _>(e@),
        },
{
    if is_unset(p, k) {
        return Ok(true);
    }
    match get_member(p, k.name()) {
        Some(x) => match as_boolean(x) {
            Some(b) => Ok(b),
            None => match as_text(x) {
                Some(s) => if is_on_token(s) {
                    Ok(true)
                } else if is_off_token(s) {
                    Ok(false)
                } else {
                    Err(ValidationError::UnreadableSwitch(k, s.to_owned()))
                },
                None => Err(ValidationError::InvalidParam(k)),
            },
        },
        None => Err(ValidationError::InvalidParam(k)),
    }
}

/// A required list parameter: the strings of an array, in order.
pub fn string_list_param(p: &serde_json::Value, k: ParamKey) -> (r: Result<Vec<String>, ValidationError>)
    ensures
        match r {
            Ok(xs) => string_list(json_contents(*p), k) == Ok::<_, ErrorView>(texts(xs@)),
            Err(e) => string_list(json_contents(*p), k) == Err::<Seq<Seq<char>>, _>(e@),
        },
{
    let arr = match get_member(p, k.name()) {
        Some(x) => as_elements(x),
        None => None,
    };
    match arr {
        None => Err(ValidationError::MissingParam(k)),
        Some(xs) => {
            let ghost ms = xs@.map_values(|x: serde_json::Value| json_contents(x));
            let mut out: Vec<String> = Vec::new();
            let mut i: usize = 0;
            while i < xs.len()
                invariant
                    i <= xs.len(),
                    ms == xs@.map_values(|x: serde_json::Value| json_contents(x)),
                    strings_in(ms.subrange(0, i as int)) == texts(out@),
                decreases xs.len() - i,
            {
                assert(ms.subrange(0, i + 1).drop_last() =~= ms.subrange(0, i as int));
                assert(ms.subrange(0, i + 1).last() == json_contents(xs@[i as int]));
                match as_text(&xs[i]) {
                    Some(s) => {
                        let ghost prev = out@;
                        out.push(s.to_owned());
                        assert(texts(out@) =~= texts(prev).push(s@));
                    },
                    None => {},
                }
                i += 1;
            }
            assert(ms.subrange(0, i as int) =~= ms);
            Ok(out)
        },
    }
}


// ---------------------------------------------------------------------------------------------
// Building the operation
// ---------------------------------------------------------------------------------------------

/// A TLS setting change.
pub fn tls_op(p: &serde_json::Value) -> (r: Result<RemoteOp, ValidationError>)
    ensures
        op_result(r) == tls_request(json_contents(*p)),
{
    let s = match required_string(p, ParamKey::Setting) {
        Ok(s) => s,
        Err(e) => return Err(e),
    };
    let s = s.as_str();
    if text_eq(s, "tls-mode") {
        match required_string(p, ParamKey::Value) {
            Ok(v) => Ok(RemoteOp::SetSslMode(v)),
            Err(e) => Err(e),
        }
    } else if text_eq(s, "force-https") {
        match switch_param(p, ParamKey::Enable) {
            Ok(b) => Ok(RemoteOp::SetAlwaysHttps(b)),
            Err(e) => Err(e),
        }
    } else if text_eq(s, "min-tls-version") {
        match required_string(p, ParamKey::Value) {
            Ok(v) => Ok(RemoteOp::SetMinTlsVersion(v)),
            Err(e) => Err(e),
        }
    } else if text_eq(s, "opportunistic-encryption") {
        match switch_param(p, ParamKey::Enable) {
            Ok(b) => Ok(RemoteOp::SetOpportunisticEncryption(b)),
            Err(e) => Err(e),
        }
    } else if text_eq(s, "https-rewrites") {
        match switch_param(p, ParamKey::Enable) {
            Ok(b) => Ok(RemoteOp::SetAutomaticHttpsRewrites(b)),
            Err(e) => Err(e),
        }
    } else {
        Err(ValidationError::UnknownSetting(s.to_owned()))
    }
}

/// A generic setting update.
pub fn setting_op(p: &serde_json::Value) -> (r: Result<RemoteOp, ValidationError>)
    ensures
        op_result(r) == setting_request(json_contents(*p)),
{
    let id = match required_string(p, ParamKey::SettingId) {
        Ok(s) => s,
        Err(e) => return Err(e),
    };
    match get_member(p, ParamKey::Value.name()) {
        Some(v) => Ok(RemoteOp::UpdateSetting { setting_id: id, value: v.clone() }),
        None => Err(ValidationError::MissingParam(ParamKey::Value)),
    }
}

/// The record that a DNS create or update writes.
pub fn dns_request(p: &serde_json::Value) -> (r: Result<DnsRecordRequest, ValidationError>)
    ensures
        match r {
            Ok(x) => dns_fields(json_contents(*p)) == Ok::<_, ErrorView>(x@),
            Err(e) => dns_fields(json_contents(*p)) == Err::<DnsRequestView, _>(e@),
        },
{
    let record_type = match required_string(p, ParamKey::Type) {
        Ok(s) => s,
        Err(e) => return Err(e),
    };
    let name = match required_string(p, ParamKey::Name) {
        Ok(s) => s,
        Err(e) => return Err(e),
    };
    let content = match required_string(p, ParamKey::Content) {
        Ok(s) => s,
        Err(e) => return Err(e),
    };
    let ttl = match optional_number(p, ParamKey::Ttl, u32::MAX as u64) {
        Ok(Some(n)) => Some(n as u32),
        Ok(None) => None,
        Err(e) => return Err(e),
    };
    let proxied = match optional_flag(p, ParamKey::Proxied) {
        Ok(b) => b,
        Err(e) => return Err(e),
    };
    let priority = match optional_number(p, ParamKey::Priority, u16::MAX as u64) {
        Ok(Some(n)) => Some(n as u16),
        Ok(None) => None,
        Err(e) => return Err(e),
    };
    let comment = match optional_string(p, ParamKey::Comment) {
        Ok(c) => c,
        Err(e) => return Err(e),
    };
    Ok(DnsRecordRequest { record_type, name, content, ttl, proxied, priority, comment, tags: None })
}

/// A cache purge.
pub fn cache_op(p: &serde_json::Value) -> (r: Result<RemoteOp, ValidationError>)
    ensures
        op_result(r) == cache_request(json_contents(*p)),
{
    let t = match required_string(p, ParamKey::Type) {
        Ok(s) => s,
        Err(e) => return Err(e),
    };
    let t = t.as_str();
    if text_eq(t, "purge-all") {
        Ok(RemoteOp::PurgeAll)
    } else if text_eq(t, "purge-by-urls") {
        match string_list_param(p, ParamKey::Urls) {
            Ok(xs) => Ok(RemoteOp::PurgeUrls(xs)),
            Err(e) => Err(e),
        }
    } else if text_eq(t, "purge-by-tags") {
        match string_list_param(p, ParamKey::Tags) {
            Ok(xs) => Ok(RemoteOp::PurgeTags(xs)),
            Err(e) => Err(e),
        }
    } else if text_eq(t, "purge-by-hosts") {
        match string_list_param(p, ParamKey::Hosts) {
            Ok(xs) => Ok(RemoteOp::PurgeHosts(xs)),
            Err(e) => Err(e),
        }
    } else {
        Err(ValidationError::UnknownPurgeType(t.to_owned()))
    }
}

/// An address rule: block the address where `block` holds, allow it otherwise.
fn address_op(p: &serde_json::Value, block: bool) -> (r: Result<RemoteOp, ValidationError>)
    ensures
        op_result(r) == address_rule(json_contents(*p), block),
{
    let ip = match required_string(p, ParamKey::Ip) {
        Ok(s) => s,
        Err(e) => return Err(e),
    };
    let note = match optional_string(p, ParamKey::Note) {
        Ok(n) => n,
        Err(e) => return Err(e),
    };
    if block {
        Ok(RemoteOp::BlockIp { ip, note })
    } else {
        Ok(RemoteOp::AllowIp { ip, note })
    }
}

/// An access rule change.
pub fn access_op(p: &serde_json::Value) -> (r: Result<RemoteOp, ValidationError>)
    ensures
        op_result(r) == access_request(json_contents(*p)),
{
    let t = match required_string(p, ParamKey::Type) {
        Ok(s) => s,
        Err(e) => return Err(e),
    };
    let t = t.as_str();
    if text_eq(t, "block-ip") {
        address_op(p, true)
    } else if text_eq(t, "allow-ip") {
        address_op(p, false)
    } else if text_eq(t, "set-security-level") {
        match required_string(p, ParamKey::Level) {
            Ok(l) => Ok(RemoteOp::SetSecurityLevel(l)),
            Err(e) => Err(e),
        }
    } else if text_eq(t, "toggle-attack-mode") {
        match switch_param(p, ParamKey::Enable) {
            Ok(b) => Ok(RemoteOp::SetUnderAttack(b)),
            Err(e) => Err(e),
        }
    } else if text_eq(t, "toggle-browser-check") {
        match switch_param(p, ParamKey::Enable) {
            Ok(b) => Ok(RemoteOp::SetBrowserCheck(b)),
            Err(e) => Err(e),
        }
    } else {
        Err(ValidationError::UnknownRuleType(t.to_owned()))
    }
}

/// The remote operation an action asks for, or why it cannot be dispatched. Nothing is sent:
/// an action that fails here never reaches the remote client.
pub fn plan_request(action: &Action) -> (r: Result<RemoteOp, ValidationError>)
    ensures
        op_result(r) == request_of(action@),
{
    let p = &action.params;
    match &action.kind {
        ActionKind::TlsSettingChange => tls_op(p),
        ActionKind::ResourceSettingChange => setting_op(p),
        ActionKind::DnsRecordCreate => match dns_request(p) {
            Ok(r) => Ok(RemoteOp::CreateDnsRecord(r)),
            Err(e) => Err(e),
        },
        ActionKind::DnsRecordUpdate => {
            let id = match required_string(p, ParamKey::RecordId) {
                Ok(s) => s,
                Err(e) => return Err(e),
            };
            match dns_request(p) {
                Ok(r) => Ok(RemoteOp::UpdateDnsRecord { record_id: id, request: r }),
                Err(e) => Err(e),
            }
        },
        ActionKind::DnsRecordDelete => match required_string(p, ParamKey::RecordId) {
            Ok(id) => Ok(RemoteOp::DeleteDnsRecord(id)),
            Err(e) => Err(e),
        },
        ActionKind::CachePurge => cache_op(p),
        ActionKind::AccessRuleChange => access_op(p),
        ActionKind::Unsupported(t) => Err(ValidationError::UnsupportedKind(t.clone())),
    }
}

// ---------------------------------------------------------------------------------------------
// Describing what was done
// ---------------------------------------------------------------------------------------------

/// `on` or `off`.
pub open spec fn switch_word(b: bool) -> Seq<char> {
    if b {
        "on"@
    } else {
        "off"@
    }
}

/// The message that reports an operation done; `created_id` is the id the remote side gave a
/// new DNS record, where it gave one.
pub open spec fn message_of(op: OpView, created_id: Option<Seq<char>>) -> Seq<char> {
    match op {
        OpView::SetSslMode(v) => "TLS mode set to "@ + v,
        OpView::SetAlwaysHttps(b) => "Always HTTPS turned "@ + switch_word(b),
        OpView::SetMinTlsVersion(v) => "minimum TLS version set to "@ + v,
        OpView::SetOpportunisticEncryption(b) => "Opportunistic Encryption turned "@ + switch_word(b),
        OpView::SetAutomaticHttpsRewrites(b) => "Automatic HTTPS Rewrites turned "@ + switch_word(b),
        OpView::UpdateSetting { setting_id, value } => "setting "@ + setting_id + " updated"@,
        OpView::CreateDnsRecord(r) => "DNS record created: "@ + r.record_type + " "@ + r.name + " -> "@
            + r.content + " (id "@ + match created_id {
            Some(id) => id,
            None => Seq::empty(),
        } + ")"@,
        OpView::UpdateDnsRecord { record_id, request } => "DNS record updated: "@ + request.record_type
            + " "@ + request.name + " -> "@ + request.content,
        OpView::DeleteDnsRecord(id) => "DNS record deleted: "@ + id,
        OpView::PurgeAll => "whole cache purged"@,
        OpView::PurgeUrls(xs) => "cache purged for "@ + decimal(xs.len()) + " URLs"@,
        OpView::PurgeTags(xs) => "cache purged for "@ + decimal(xs.len()) + " tags"@,
        OpView::PurgeHosts(xs) => "cache purged for "@ + decimal(xs.len()) + " hosts"@,
        OpView::BlockIp { ip, note } => "address blocked: "@ + ip,
        OpView::AllowIp { ip, note } => "address allowed: "@ + ip,
        OpView::SetSecurityLevel(l) => "security level set to "@ + l,
        OpView::SetUnderAttack(b) => "Under Attack mode turned "@ + switch_word(b),
        OpView::SetBrowserCheck(b) => "browser integrity check turned "@ + switch_word(b),
    }
}

fn switch_text(b: bool) -> (r: &'static str)
    ensures
        r@ == switch_word(b),
{
    if b {
        "on"
    } else {
        "off"
    }
}

impl RemoteOp {
    /// The message that reports this operation done; `created_id` is the id the remote side
    /// gave a new DNS record, where it gave one.
    pub fn success_message(&self, created_id: Option<&str>) -> (r: String)
        ensures
            r@ == message_of(self@, match created_id {
                Some(id) => Some(id@),
                None => None,
            }),
    {
        let mut s = String::new();
        match self {
            RemoteOp::SetSslMode(v) => {
                s.append("TLS mode set to ");
                s.append(v.as_str());
            },
            RemoteOp::SetAlwaysHttps(b) => {
                s.append("Always HTTPS turned ");
                s.append(switch_text(*b));
            },
            RemoteOp::SetMinTlsVersion(v) => {
                s.append("minimum TLS version set to ");
                s.append(v.as_str());
            },
            RemoteOp::SetOpportunisticEncryption(b) => {
                s.append("Opportunistic Encryption turned ");
                s.append(switch_text(*b));
            },
            RemoteOp::SetAutomaticHttpsRewrites(b) => {
                s.append("Automatic HTTPS Rewrites turned ");
                s.append(switch_text(*b));
            },
            RemoteOp::UpdateSetting { setting_id, value: _ } => {
                s.append("setting ");
                s.append(setting_id.as_str());
                s.append(" updated");
            },
            RemoteOp::CreateDnsRecord(r) => {
                s.append("DNS record created: ");
                s.append(r.record_type.as_str());
                s.append(" ");
                s.append(r.name.as_str());
                s.append(" -> ");
                s.append(r.content.as_str());
                s.append(" (id ");
                match created_id {
                    Some(id) => s.append(id),
                    None => {
                        assert(s@ + Seq::<char>::empty() =~= s@);
                    },
                }
                s.append(")");
            },
            RemoteOp::UpdateDnsRecord { record_id: _, request } => {
                s.append("DNS record updated: ");
                s.append(request.record_type.as_str());
                s.append(" ");
                s.append(request.name.as_str());
                s.append(" -> ");
                s.append(request.content.as_str());
            },
            RemoteOp::DeleteDnsRecord(id) => {
                s.append("DNS record deleted: ");
                s.append(id.as_str());
            },
            RemoteOp::PurgeAll => {
                s.append("whole cache purged");
            },
            RemoteOp::PurgeUrls(xs) => {
                s.append("cache purged for ");
                s.append(decimal_text(xs.len() as u64).as_str());
                s.append(" URLs");
            },
            RemoteOp::PurgeTags(xs) => {
                s.append("cache purged for ");
                s.append(decimal_text(xs.len() as u64).as_str());
                s.append(" tags");
            },
            RemoteOp::PurgeHosts(xs) => {
                s.append("cache purged for ");
                s.append(decimal_text(xs.len() as u64).as_str());
                s.append(" hosts");
            },
            RemoteOp::BlockIp { ip, note: _ } => {
                s.append("address blocked: ");
                s.append(ip.as_str());
            },
            RemoteOp::AllowIp { ip, note: _ } => {
                s.append("address allowed: ");
                s.append(ip.as_str());
            },
            RemoteOp::SetSecurityLevel(l) => {
                s.append("security level set to ");
                s.append(l.as_str());
            },
            RemoteOp::SetUnderAttack(b) => {
                s.append("Under Attack mode turned ");
                s.append(switch_text(*b));
            },
            RemoteOp::SetBrowserCheck(b) => {
                s.append("browser integrity check turned ");
                s.append(switch_text(*b));
            },
        }
        s
    }
}

} // verus!

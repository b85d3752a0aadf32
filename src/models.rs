//! The records that the remote management API exchanges.
use vstd::prelude::*;
use crate::text::{chars_of, eq_ignoring_case, same_ignoring_case};

verus! {

/// A DNS record to create, or to write over an existing one.
#[derive(Debug, Clone, PartialEq)]
pub struct DnsRecordRequest {
    pub record_type: String,
    pub name: String,
    pub content: String,
    pub ttl: Option<u32>,
    pub proxied: Option<bool>,
    pub priority: Option<u16>,
    pub comment: Option<String>,
    pub tags: Option<Vec<String>>,
}

pub struct DnsRequestView {
    pub record_type: Seq<char>,
    pub name: Seq<char>,
    pub content: Seq<char>,
    pub ttl: Option<u32>,
    pub proxied: Option<bool>,
    pub priority: Option<u16>,
    pub comment: Option<Seq<char>>,
    pub tags: Option<Seq<Seq<char>>>,
}

impl View for DnsRecordRequest {
    type V = DnsRequestView;

    open spec fn view(&self) -> DnsRequestView {
        DnsRequestView {
            record_type: self.record_type@,
            name: self.name@,
            content: self.content@,
            ttl: self.ttl,
            proxied: self.proxied,
            priority: self.priority,
            comment: match self.comment {
                Some(c) => Some(c@),
                None => None,
            },
            tags: match self.tags {
                Some(t) => Some(t@.map_values(|s: String| s@)),
                None => None,
            },
        }
    }
}

/// The envelope every API response comes in.
#[derive(Debug, Clone, PartialEq)]
pub struct CfResponse<T> {
    pub success: bool,
    pub errors: Vec<CfError>,
    pub messages: Vec<CfMessage>,
    pub result: Option<T>,
    pub result_info: Option<ResultInfo>,
}

/// An error the API reports.
#[derive(Debug, Clone, PartialEq)]
pub struct CfError {
    pub code: i64,
    pub message: String,
}

/// A message the API attaches to a response.
#[derive(Debug, Clone, PartialEq)]
pub struct CfMessage {
    pub code: Option<i64>,
    pub message: String,
}

/// Paging information of a list response.
#[derive(Debug, Clone, PartialEq)]
pub struct ResultInfo {
    pub page: Option<u32>,
    pub per_page: Option<u32>,
    pub total_pages: Option<u32>,
    pub count: Option<u32>,
    pub total_count: Option<u32>,
}

/// Paging of a list request.
#[derive(Debug, Clone, PartialEq)]
pub struct PaginationParams {
    pub page: Option<u32>,
    pub per_page: Option<u32>,
}

/// The order of a sorted list.
#[derive(Debug, Clone, Copy, PartialEq, Eq, Structural)]
pub enum SortDirection {
    Asc,
    Desc,
}

/// What a cache purge removes.
#[derive(Debug, Clone, PartialEq)]
pub struct PurgeCacheRequest {
    pub purge_everything: Option<bool>,
    pub files: Option<Vec<String>>,
    pub tags: Option<Vec<String>>,
    pub hosts: Option<Vec<String>>,
    pub prefixes: Option<Vec<String>>,
}

/// How much of a site the cache keeps.
#[derive(Debug, Clone, Copy, PartialEq, Eq, Structural)]
pub enum CacheLevel {
    Aggressive,
    Basic,
    Simplified,
}

/// How long browsers keep cached content, in seconds.
#[derive(Debug, Clone, PartialEq)]
pub struct BrowserCacheTtl {
    pub value: u32,
}

/// Switches development mode on or off.
#[derive(Debug, Clone, PartialEq)]
pub struct DevModeRequest {
    pub value: String,
}

/// The type of a DNS record.
#[derive(Debug, Clone, Copy, PartialEq, Eq, Structural)]
pub enum DnsRecordType {
    A,
    AAAA,
    CNAME,
    TXT,
    MX,
    NS,
    SRV,
    CAA,
    LOC,
    SPF,
    CERT,
    DNSKEY,
    DS,
    NAPTR,
    SMIMEA,
    SSHFP,
    TLSA,
    URI,
}

/// A DNS record as the API returns it.
#[derive(Debug, Clone, PartialEq)]
pub struct DnsRecord {
    pub id: Option<String>,
    pub record_type: String,
    pub name: String,
    pub content: String,
    pub proxied: Option<bool>,
    pub proxiable: Option<bool>,
    pub ttl: Option<u32>,
    pub priority: Option<u16>,
    pub locked: Option<bool>,
    pub zone_id: Option<String>,
    pub zone_name: Option<String>,
    pub created_on: Option<String>,
    pub modified_on: Option<String>,
    pub comment: Option<String>,
    pub tags: Option<Vec<String>>,
}

/// Filters for listing DNS records.
#[derive(Debug, Clone, PartialEq)]
pub struct DnsListParams {
    pub record_type: Option<String>,
    pub name: Option<String>,
    pub content: Option<String>,
    pub proxied: Option<bool>,
    pub page: Option<u32>,
    pub per_page: Option<u32>,
    pub order: Option<String>,
    pub direction: Option<String>,
    pub comment: Option<String>,
    pub tag: Option<String>,
}

/// The counts of a DNS zone-file import.
#[derive(Debug, Clone, PartialEq)]
pub struct DnsImportResult {
    pub recs_added: Option<u32>,
    pub total_records_parsed: Option<u32>,
}

/// A firewall rule.
#[derive(Debug, Clone, PartialEq)]
pub struct FirewallRule {
    pub id: Option<String>,
    pub paused: Option<bool>,
    pub description: Option<String>,
    pub action: Option<String>,
    pub priority: Option<i32>,
    pub filter: Option<FirewallFilter>,
    pub created_on: Option<String>,
    pub modified_on: Option<String>,
}

/// The filter expression of a firewall rule.
#[derive(Debug, Clone, PartialEq)]
pub struct FirewallFilter {
    pub id: Option<String>,
    pub expression: Option<String>,
    pub paused: Option<bool>,
    pub description: Option<String>,
}

/// A group of managed firewall rules.
#[derive(Debug, Clone, PartialEq)]
pub struct WafRuleGroup {
    pub id: Option<String>,
    pub name: Option<String>,
    pub description: Option<String>,
    pub rules_count: Option<u32>,
    pub modified_rules_count: Option<u32>,
    pub mode: Option<String>,
}

/// An address-based access rule.
#[derive(Debug, Clone, PartialEq)]
pub struct IpAccessRule {
    pub id: Option<String>,
    pub mode: Option<String>,
    pub notes: Option<String>,
    pub configuration: Option<IpAccessConfig>,
    pub created_on: Option<String>,
    pub modified_on: Option<String>,
    pub scope: Option<IpAccessScope>,
}

/// What an access rule matches.
#[derive(Debug, Clone, PartialEq)]
pub struct IpAccessConfig {
    pub target: Option<String>,
    pub value: Option<String>,
}

/// Where an access rule applies.
#[derive(Debug, Clone, PartialEq)]
pub struct IpAccessScope {
    pub id: Option<String>,
    pub scope_type: Option<String>,
}

/// A new address-based access rule.
#[derive(Debug, Clone, PartialEq)]
pub struct CreateIpAccessRuleRequest {
    pub mode: String,
    pub configuration: IpAccessRuleConfig,
    pub notes: Option<String>,
}

/// What a new access rule matches.
#[derive(Debug, Clone, PartialEq)]
pub struct IpAccessRuleConfig {
    pub target: String,
    pub value: String,
}

/// A rule on the user agent of requests.
#[derive(Debug, Clone, PartialEq)]
pub struct UserAgentRule {
    pub id: Option<String>,
    pub description: Option<String>,
    pub mode: Option<String>,
    pub paused: Option<bool>,
    pub configuration: Option<UserAgentConfig>,
}

/// What a user-agent rule matches.
#[derive(Debug, Clone, PartialEq)]
pub struct UserAgentConfig {
    pub target: Option<String>,
    pub value: Option<String>,
}

/// A rate limit.
#[derive(Debug, Clone, PartialEq)]
pub struct RateLimitRule {
    pub id: Option<String>,
    pub disabled: Option<bool>,
    pub description: Option<String>,
    pub threshold: Option<u32>,
    pub period: Option<u32>,
    pub action: Option<RateLimitAction>,
    pub match_config: Option<RateLimitMatch>,
}

/// What happens when a rate limit is exceeded.
#[derive(Debug, Clone, PartialEq)]
pub struct RateLimitAction {
    pub mode: Option<String>,
    pub timeout: Option<u32>,
}

/// The traffic a rate limit counts.
#[derive(Debug, Clone, PartialEq)]
pub struct RateLimitMatch {
    pub request: Option<RateLimitMatchRequest>,
    pub response: Option<RateLimitMatchResponse>,
}

/// The requests a rate limit counts.
#[derive(Debug, Clone, PartialEq)]
pub struct RateLimitMatchRequest {
    pub methods: Option<Vec<String>>,
    pub schemes: Option<Vec<String>>,
    pub url: Option<String>,
}

/// The responses a rate limit counts.
#[derive(Debug, Clone, PartialEq)]
pub struct RateLimitMatchResponse {
    pub status: Option<Vec<u32>>,
    pub origin_traffic: Option<bool>,
}

/// How strictly visitors are challenged.
#[derive(Debug, Clone, Copy, PartialEq, Eq, Structural)]
pub enum SecurityLevel {
    Off,
    EssentiallyOff,
    Low,
    Medium,
    High,
    UnderAttack,
}

/// What a page rule applies to.
#[derive(Debug, Clone, PartialEq)]
pub struct PageRuleTarget {
    pub target: Option<String>,
    pub constraint: Option<PageRuleConstraint>,
}

/// The address pattern of a page rule target.
#[derive(Debug, Clone, PartialEq)]
pub struct PageRuleConstraint {
    pub operator: Option<String>,
    pub value: Option<String>,
}

/// The TLS mode between visitors, the edge and the origin.
#[derive(Debug, Clone, Copy, PartialEq, Eq, Structural)]
pub enum SslMode {
    Off,
    Flexible,
    Full,
    Strict,
}

/// A certificate installed for a zone.
#[derive(Debug, Clone, PartialEq)]
pub struct SslCertificate {
    pub id: Option<String>,
    pub hosts: Option<Vec<String>>,
    pub issuer: Option<String>,
    pub signature: Option<String>,
    pub status: Option<String>,
    pub bundle_method: Option<String>,
    pub uploaded_on: Option<String>,
    pub modified_on: Option<String>,
    pub expires_on: Option<String>,
    pub priority: Option<i32>,
}

/// A request for an origin certificate.
#[derive(Debug, Clone, PartialEq)]
pub struct OriginCertificateRequest {
    pub hostnames: Vec<String>,
    pub requested_validity: Option<u32>,
    pub request_type: Option<String>,
    pub csr: Option<String>,
}

/// An origin certificate.
#[derive(Debug, Clone, PartialEq)]
pub struct OriginCertificate {
    pub id: Option<String>,
    pub certificate: Option<String>,
    pub hostnames: Option<Vec<String>>,
    pub expires_on: Option<String>,
    pub request_type: Option<String>,
    pub requested_validity: Option<u32>,
    pub private_key: Option<String>,
}

/// The Always Use HTTPS setting.
#[derive(Debug, Clone, PartialEq)]
pub struct AlwaysUseHttps {
    pub value: String,
}

/// The oldest TLS version accepted.
#[derive(Debug, Clone, Copy, PartialEq, Eq, Structural)]
pub enum MinTlsVersion {
    Tls10,
    Tls11,
    Tls12,
    Tls13,
}

/// A worker script.
#[derive(Debug, Clone, PartialEq)]
pub struct WorkerScript {
    pub id: Option<String>,
    pub tag: Option<String>,
    pub etag: Option<String>,
    pub handlers: Option<Vec<String>>,
    pub modified_on: Option<String>,
    pub created_on: Option<String>,
    pub usage_model: Option<String>,
    pub logpush: Option<bool>,
}

/// A route that sends requests to a worker.
#[derive(Debug, Clone, PartialEq)]
pub struct WorkerRoute {
    pub id: Option<String>,
    pub pattern: Option<String>,
    pub script: Option<String>,
}

/// A new worker route.
#[derive(Debug, Clone, PartialEq)]
pub struct CreateWorkerRouteRequest {
    pub pattern: String,
    pub script: Option<String>,
}

/// A key-value namespace.
#[derive(Debug, Clone, PartialEq)]
pub struct KvNamespace {
    pub id: Option<String>,
    pub title: Option<String>,
    pub supports_url_encoding: Option<bool>,
}

/// A custom domain served by a worker.
#[derive(Debug, Clone, PartialEq)]
pub struct WorkerDomain {
    pub id: Option<String>,
    pub zone_id: Option<String>,
    pub zone_name: Option<String>,
    pub hostname: Option<String>,
    pub service: Option<String>,
    pub environment: Option<String>,
}

/// The account a zone belongs to.
#[derive(Debug, Clone, PartialEq)]
pub struct ZoneAccount {
    pub id: Option<String>,
    pub name: Option<String>,
}

/// A new zone.
#[derive(Debug, Clone, PartialEq)]
pub struct CreateZoneRequest {
    pub name: String,
    pub account: Option<CreateZoneAccount>,
    pub zone_type: Option<String>,
    pub jump_start: Option<bool>,
}

/// The account a new zone is created in.
#[derive(Debug, Clone, PartialEq)]
pub struct CreateZoneAccount {
    pub id: String,
}

/// Filters for listing zones.
#[derive(Debug, Clone, PartialEq)]
pub struct ZoneListParams {
    pub name: Option<String>,
    pub status: Option<String>,
    pub page: Option<u32>,
    pub per_page: Option<u32>,
    pub order: Option<String>,
    pub direction: Option<String>,
}

/// Requests split by encryption.
#[derive(Debug, Clone, PartialEq)]
pub struct AnalyticsSslRequests {
    pub encrypted: Option<u64>,
    pub unencrypted: Option<u64>,
}

/// Bytes split by encryption.
#[derive(Debug, Clone, PartialEq)]
pub struct AnalyticsSslBandwidth {
    pub encrypted: Option<u64>,
    pub unencrypted: Option<u64>,
}

/// Unique visitors.
#[derive(Debug, Clone, PartialEq)]
pub struct AnalyticsUniques {
    pub all: Option<u64>,
}

/// The time range of an analytics query.
#[derive(Debug, Clone, PartialEq)]
pub struct AnalyticsParams {
    pub since: Option<String>,
    pub until: Option<String>,
    pub continuous: Option<bool>,
}


/// The word for a SslMode value.
pub open spec fn ssl_mode_text(x: SslMode) -> Seq<char> {
    match x {
        SslMode::Off => "off"@,
        SslMode::Flexible => "flexible"@,
        SslMode::Full => "full"@,
        SslMode::Strict => "strict"@,
    }
}

/// The SslMode value a word names, compared without regard to the case of ASCII letters.
pub open spec fn ssl_mode_of(s: Seq<char>) -> Option<SslMode> {
    if same_ignoring_case(s, "off"@) {
        Some(SslMode::Off)
    } else if same_ignoring_case(s, "flexible"@) {
        Some(SslMode::Flexible)
    } else if same_ignoring_case(s, "full"@) {
        Some(SslMode::Full)
    } else if same_ignoring_case(s, "strict"@) {
        Some(SslMode::Strict)
    } else {
        None
    }
}

impl SslMode {
    /// The word for this value.
    pub fn as_str(&self) -> (r: &'static str)
        ensures
            r@ == ssl_mode_text(*self),
    {
        match self {
            SslMode::Off => "off",
            SslMode::Flexible => "flexible",
            SslMode::Full => "full",
            SslMode::Strict => "strict",
        }
    }

    /// The value a word names, compared without regard to the case of ASCII letters.
    pub fn parse(s: &str) -> (r: Option<SslMode>)
        ensures
            r == ssl_mode_of(s@),
    {
        let cs = chars_of(s);
        if eq_ignoring_case(&cs, &chars_of("off")) {
            Some(SslMode::Off)
        } else if eq_ignoring_case(&cs, &chars_of("flexible")) {
            Some(SslMode::Flexible)
        } else if eq_ignoring_case(&cs, &chars_of("full")) {
            Some(SslMode::Full)
        } else if eq_ignoring_case(&cs, &chars_of("strict")) {
            Some(SslMode::Strict)
        } else {
            None
        }
    }
}


/// The word for a MinTlsVersion value.
pub open spec fn min_tls_version_text(x: MinTlsVersion) -> Seq<char> {
    match x {
        MinTlsVersion::Tls10 => "1.0"@,
        MinTlsVersion::Tls11 => "1.1"@,
        MinTlsVersion::Tls12 => "1.2"@,
        MinTlsVersion::Tls13 => "1.3"@,
    }
}

/// The MinTlsVersion value a word names, compared without regard to the case of ASCII letters.
pub open spec fn min_tls_version_of(s: Seq<char>) -> Option<MinTlsVersion> {
    if same_ignoring_case(s, "1.0"@) {
        Some(MinTlsVersion::Tls10)
    } else if same_ignoring_case(s, "1.1"@) {
        Some(MinTlsVersion::Tls11)
    } else if same_ignoring_case(s, "1.2"@) {
        Some(MinTlsVersion::Tls12)
    } else if same_ignoring_case(s, "1.3"@) {
        Some(MinTlsVersion::Tls13)
    } else {
        None
    }
}

impl MinTlsVersion {
    /// The word for this value.
    pub fn as_str(&self) -> (r: &'static str)
        ensures
            r@ == min_tls_version_text(*self),
    {
        match self {
            MinTlsVersion::Tls10 => "1.0",
            MinTlsVersion::Tls11 => "1.1",
            MinTlsVersion::Tls12 => "1.2",
            MinTlsVersion::Tls13 => "1.3",
        }
    }

    /// The value a word names, compared without regard to the case of ASCII letters.
    pub fn parse(s: &str) -> (r: Option<MinTlsVersion>)
        ensures
            r == min_tls_version_of(s@),
    {
        let cs = chars_of(s);
        if eq_ignoring_case(&cs, &chars_of("1.0")) {
            Some(MinTlsVersion::Tls10)
        } else if eq_ignoring_case(&cs, &chars_of("1.1")) {
            Some(MinTlsVersion::Tls11)
        } else if eq_ignoring_case(&cs, &chars_of("1.2")) {
            Some(MinTlsVersion::Tls12)
        } else if eq_ignoring_case(&cs, &chars_of("1.3")) {
            Some(MinTlsVersion::Tls13)
        } else {
            None
        }
    }
}


/// The word for a SecurityLevel value.
pub open spec fn security_level_text(x: SecurityLevel) -> Seq<char> {
    match x {
        SecurityLevel::Off => "off"@,
        SecurityLevel::EssentiallyOff => "essentially_off"@,
        SecurityLevel::Low => "low"@,
        SecurityLevel::Medium => "medium"@,
        SecurityLevel::High => "high"@,
        SecurityLevel::UnderAttack => "under_attack"@,
    }
}

/// The SecurityLevel value a word names, compared without regard to the case of ASCII letters.
pub open spec fn security_level_of(s: Seq<char>) -> Option<SecurityLevel> {
    if same_ignoring_case(s, "off"@) {
        Some(SecurityLevel::Off)
    } else if same_ignoring_case(s, "essentially_off"@) {
        Some(SecurityLevel::EssentiallyOff)
    } else if same_ignoring_case(s, "low"@) {
        Some(SecurityLevel::Low)
    } else if same_ignoring_case(s, "medium"@) {
        Some(SecurityLevel::Medium)
    } else if same_ignoring_case(s, "high"@) {
        Some(SecurityLevel::High)
    } else if same_ignoring_case(s, "under_attack"@) {
        Some(SecurityLevel::UnderAttack)
    } else {
        None
    }
}

impl SecurityLevel {
    /// The word for this value.
    pub fn as_str(&self) -> (r: &'static str)
        ensures
            r@ == security_level_text(*self),
    {
        match self {
            SecurityLevel::Off => "off",
            SecurityLevel::EssentiallyOff => "essentially_off",
            SecurityLevel::Low => "low",
            SecurityLevel::Medium => "medium",
            SecurityLevel::High => "high",
            SecurityLevel::UnderAttack => "under_attack",
        }
    }

    /// The value a word names, compared without regard to the case of ASCII letters.
    pub fn parse(s: &str) -> (r: Option<SecurityLevel>)
        ensures
            r == security_level_of(s@),
    {
        let cs = chars_of(s);
        if eq_ignoring_case(&cs, &chars_of("off")) {
            Some(SecurityLevel::Off)
        } else if eq_ignoring_case(&cs, &chars_of("essentially_off")) {
            Some(SecurityLevel::EssentiallyOff)
        } else if eq_ignoring_case(&cs, &chars_of("low")) {
            Some(SecurityLevel::Low)
        } else if eq_ignoring_case(&cs, &chars_of("medium")) {
            Some(SecurityLevel::Medium)
        } else if eq_ignoring_case(&cs, &chars_of("high")) {
            Some(SecurityLevel::High)
        } else if eq_ignoring_case(&cs, &chars_of("under_attack")) {
            Some(SecurityLevel::UnderAttack)
        } else {
            None
        }
    }
}


/// The word for a CacheLevel value.
pub open spec fn cache_level_text(x: CacheLevel) -> Seq<char> {
    match x {
        CacheLevel::Aggressive => "aggressive"@,
        CacheLevel::Basic => "basic"@,
        CacheLevel::Simplified => "simplified"@,
    }
}

/// The CacheLevel value a word names, compared without regard to the case of ASCII letters.
pub open spec fn cache_level_of(s: Seq<char>) -> Option<CacheLevel> {
    if same_ignoring_case(s, "aggressive"@) {
        Some(CacheLevel::Aggressive)
    } else if same_ignoring_case(s, "basic"@) {
        Some(CacheLevel::Basic)
    } else if same_ignoring_case(s, "simplified"@) {
        Some(CacheLevel::Simplified)
    } else {
        None
    }
}

impl CacheLevel {
    /// The word for this value.
    pub fn as_str(&self) -> (r: &'static str)
        ensures
            r@ == cache_level_text(*self),
    {
        match self {
            CacheLevel::Aggressive => "aggressive",
            CacheLevel::Basic => "basic",
            CacheLevel::Simplified => "simplified",
        }
    }

    /// The value a word names, compared without regard to the case of ASCII letters.
    pub fn parse(s: &str) -> (r: Option<CacheLevel>)
        ensures
            r == cache_level_of(s@),
    {
        let cs = chars_of(s);
        if eq_ignoring_case(&cs, &chars_of("aggressive")) {
            Some(CacheLevel::Aggressive)
        } else if eq_ignoring_case(&cs, &chars_of("basic")) {
            Some(CacheLevel::Basic)
        } else if eq_ignoring_case(&cs, &chars_of("simplified")) {
            Some(CacheLevel::Simplified)
        } else {
            None
        }
    }
}


/// The word for a DnsRecordType value.
pub open spec fn dns_record_type_text(x: DnsRecordType) -> Seq<char> {
    match x {
        DnsRecordType::A => "A"@,
        DnsRecordType::AAAA => "AAAA"@,
        DnsRecordType::CNAME => "CNAME"@,
        DnsRecordType::TXT => "TXT"@,
        DnsRecordType::MX => "MX"@,
        DnsRecordType::NS => "NS"@,
        DnsRecordType::SRV => "SRV"@,
        DnsRecordType::CAA => "CAA"@,
        DnsRecordType::LOC => "LOC"@,
        DnsRecordType::SPF => "SPF"@,
        DnsRecordType::CERT => "CERT"@,
        DnsRecordType::DNSKEY => "DNSKEY"@,
        DnsRecordType::DS => "DS"@,
        DnsRecordType::NAPTR => "NAPTR"@,
        DnsRecordType::SMIMEA => "SMIMEA"@,
        DnsRecordType::SSHFP => "SSHFP"@,
        DnsRecordType::TLSA => "TLSA"@,
        DnsRecordType::URI => "URI"@,
    }
}

/// The DnsRecordType value a word names, compared without regard to the case of ASCII letters.
pub open spec fn dns_record_type_of(s: Seq<char>) -> Option<DnsRecordType> {
    if same_ignoring_case(s, "A"@) {
        Some(DnsRecordType::A)
    } else if same_ignoring_case(s, "AAAA"@) {
        Some(DnsRecordType::AAAA)
    } else if same_ignoring_case(s, "CNAME"@) {
        Some(DnsRecordType::CNAME)
    } else if same_ignoring_case(s, "TXT"@) {
        Some(DnsRecordType::TXT)
    } else if same_ignoring_case(s, "MX"@) {
        Some(DnsRecordType::MX)
    } else if same_ignoring_case(s, "NS"@) {
        Some(DnsRecordType::NS)
    } else if same_ignoring_case(s, "SRV"@) {
        Some(DnsRecordType::SRV)
    } else if same_ignoring_case(s, "CAA"@) {
        Some(DnsRecordType::CAA)
    } else if same_ignoring_case(s, "LOC"@) {
        Some(DnsRecordType::LOC)
    } else if same_ignoring_case(s, "SPF"@) {
        Some(DnsRecordType::SPF)
    } else if same_ignoring_case(s, "CERT"@) {
        Some(DnsRecordType::CERT)
    } else if same_ignoring_case(s, "DNSKEY"@) {
        Some(DnsRecordType::DNSKEY)
    } else if same_ignoring_case(s, "DS"@) {
        Some(DnsRecordType::DS)
    } else if same_ignoring_case(s, "NAPTR"@) {
        Some(DnsRecordType::NAPTR)
    } else if same_ignoring_case(s, "SMIMEA"@) {
        Some(DnsRecordType::SMIMEA)
    } else if same_ignoring_case(s, "SSHFP"@) {
        Some(DnsRecordType::SSHFP)
    } else if same_ignoring_case(s, "TLSA"@) {
        Some(DnsRecordType::TLSA)
    } else if same_ignoring_case(s, "URI"@) {
        Some(DnsRecordType::URI)
    } else {
        None
    }
}

impl DnsRecordType {
    /// The word for this value.
    pub fn as_str(&self) -> (r: &'static str)
        ensures
            r@ == dns_record_type_text(*self),
    {
        match self {
            DnsRecordType::A => "A",
            DnsRecordType::AAAA => "AAAA",
            DnsRecordType::CNAME => "CNAME",
            DnsRecordType::TXT => "TXT",
            DnsRecordType::MX => "MX",
            DnsRecordType::NS => "NS",
            DnsRecordType::SRV => "SRV",
            DnsRecordType::CAA => "CAA",
            DnsRecordType::LOC => "LOC",
            DnsRecordType::SPF => "SPF",
            DnsRecordType::CERT => "CERT",
            DnsRecordType::DNSKEY => "DNSKEY",
            DnsRecordType::DS => "DS",
            DnsRecordType::NAPTR => "NAPTR",
            DnsRecordType::SMIMEA => "SMIMEA",
            DnsRecordType::SSHFP => "SSHFP",
            DnsRecordType::TLSA => "TLSA",
            DnsRecordType::URI => "URI",
        }
    }

    /// The value a word names, compared without regard to the case of ASCII letters.
    pub fn parse(s: &str) -> (r: Option<DnsRecordType>)
        ensures
            r == dns_record_type_of(s@),
    {
        let cs = chars_of(s);
        if eq_ignoring_case(&cs, &chars_of("A")) {
            Some(DnsRecordType::A)
        } else if eq_ignoring_case(&cs, &chars_of("AAAA")) {
            Some(DnsRecordType::AAAA)
        } else if eq_ignoring_case(&cs, &chars_of("CNAME")) {
            Some(DnsRecordType::CNAME)
        } else if eq_ignoring_case(&cs, &chars_of("TXT")) {
            Some(DnsRecordType::TXT)
        } else if eq_ignoring_case(&cs, &chars_of("MX")) {
            Some(DnsRecordType::MX)
        } else if eq_ignoring_case(&cs, &chars_of("NS")) {
            Some(DnsRecordType::NS)
        } else if eq_ignoring_case(&cs, &chars_of("SRV")) {
            Some(DnsRecordType::SRV)
        } else if eq_ignoring_case(&cs, &chars_of("CAA")) {
            Some(DnsRecordType::CAA)
        } else if eq_ignoring_case(&cs, &chars_of("LOC")) {
            Some(DnsRecordType::LOC)
        } else if eq_ignoring_case(&cs, &chars_of("SPF")) {
            Some(DnsRecordType::SPF)
        } else if eq_ignoring_case(&cs, &chars_of("CERT")) {
            Some(DnsRecordType::CERT)
        } else if eq_ignoring_case(&cs, &chars_of("DNSKEY")) {
            Some(DnsRecordType::DNSKEY)
        } else if eq_ignoring_case(&cs, &chars_of("DS")) {
            Some(DnsRecordType::DS)
        } else if eq_ignoring_case(&cs, &chars_of("NAPTR")) {
            Some(DnsRecordType::NAPTR)
        } else if eq_ignoring_case(&cs, &chars_of("SMIMEA")) {
            Some(DnsRecordType::SMIMEA)
        } else if eq_ignoring_case(&cs, &chars_of("SSHFP")) {
            Some(DnsRecordType::SSHFP)
        } else if eq_ignoring_case(&cs, &chars_of("TLSA")) {
            Some(DnsRecordType::TLSA)
        } else if eq_ignoring_case(&cs, &chars_of("URI")) {
            Some(DnsRecordType::URI)
        } else {
            None
        }
    }
}


/// The word for a SortDirection value.
pub open spec fn sort_direction_text(x: SortDirection) -> Seq<char> {
    match x {
        SortDirection::Asc => "asc"@,
        SortDirection::Desc => "desc"@,
    }
}

/// The SortDirection value a word names, compared without regard to the case of ASCII letters.
pub open spec fn sort_direction_of(s: Seq<char>) -> Option<SortDirection> {
    if same_ignoring_case(s, "asc"@) {
        Some(SortDirection::Asc)
    } else if same_ignoring_case(s, "desc"@) {
        Some(SortDirection::Desc)
    } else {
        None
    }
}

impl SortDirection {
    /// The word for this value.
    pub fn as_str(&self) -> (r: &'static str)
        ensures
            r@ == sort_direction_text(*self),
    {
        match self {
            SortDirection::Asc => "asc",
            SortDirection::Desc => "desc",
        }
    }

    /// The value a word names, compared without regard to the case of ASCII letters.
    pub fn parse(s: &str) -> (r: Option<SortDirection>)
        ensures
            r == sort_direction_of(s@),
    {
        let cs = chars_of(s);
        if eq_ignoring_case(&cs, &chars_of("asc")) {
            Some(SortDirection::Asc)
        } else if eq_ignoring_case(&cs, &chars_of("desc")) {
            Some(SortDirection::Desc)
        } else {
            None
        }
    }
}


/// Totals and a time series of a zone's traffic.
#[derive(Debug, Clone, PartialEq)]
pub struct AnalyticsDashboard {
    pub totals: Option<AnalyticsTotals>,
    pub timeseries: Option<Vec<AnalyticsTimeseries>>,
}

/// A zone's traffic over a period.
#[derive(Debug, Clone, PartialEq)]
pub struct AnalyticsTotals {
    pub requests: Option<AnalyticsRequests>,
    pub bandwidth: Option<AnalyticsBandwidth>,
    pub threats: Option<AnalyticsThreats>,
    pub pageviews: Option<AnalyticsPageviews>,
    pub uniques: Option<AnalyticsUniques>,
}

/// Request counts.
#[derive(Debug, Clone, PartialEq)]
pub struct AnalyticsRequests {
    pub all: Option<u64>,
    pub cached: Option<u64>,
    pub uncached: Option<u64>,
    pub ssl: Option<AnalyticsSslRequests>,
    pub http_status: Option<serde_json::Value>,
    pub content_type: Option<serde_json::Value>,
    pub country: Option<serde_json::Value>,
}

/// Byte counts.
#[derive(Debug, Clone, PartialEq)]
pub struct AnalyticsBandwidth {
    pub all: Option<u64>,
    pub cached: Option<u64>,
    pub uncached: Option<u64>,
    pub ssl: Option<AnalyticsSslBandwidth>,
    pub content_type: Option<serde_json::Value>,
    pub country: Option<serde_json::Value>,
}

/// Threat counts.
#[derive(Debug, Clone, PartialEq)]
pub struct AnalyticsThreats {
    pub all: Option<u64>,
    pub country: Option<serde_json::Value>,
    pub threat_type: Option<serde_json::Value>,
}

/// Page view counts.
#[derive(Debug, Clone, PartialEq)]
pub struct AnalyticsPageviews {
    pub all: Option<u64>,
    pub search_engines: Option<serde_json::Value>,
}

/// A zone's traffic over one interval.
#[derive(Debug, Clone, PartialEq)]
pub struct AnalyticsTimeseries {
    pub since: Option<String>,
    pub until: Option<String>,
    pub requests: Option<AnalyticsRequests>,
    pub bandwidth: Option<AnalyticsBandwidth>,
    pub threats: Option<AnalyticsThreats>,
    pub pageviews: Option<AnalyticsPageviews>,
    pub uniques: Option<AnalyticsUniques>,
}

} // verus!

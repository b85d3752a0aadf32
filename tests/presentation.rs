use cfai::format::{format_number, normalize_version, status_badge, BadgeColor};
use cfai::models::{DnsRecordType, MinTlsVersion, SecurityLevel, SslMode};
use cfai::settings::{AuthMethod, CloudflareConfig, OutputFormat};
use cfai::ui::{DnsAddForm, NotifLevel, Notification, RedirectForm};

#[test]
fn numbers_get_thousands_separators() {
    assert_eq!(format_number(0), "0");
    assert_eq!(format_number(999), "999");
    assert_eq!(format_number(1000), "1,000");
    assert_eq!(format_number(1234567), "1,234,567");
    assert_eq!(format_number(u64::MAX), "18,446,744,073,709,551,615");
}

#[test]
fn versions_lose_leading_v() {
    assert_eq!(normalize_version("v1.2.3"), "1.2.3");
    assert_eq!(normalize_version("vv2"), "2");
    assert_eq!(normalize_version("1.0"), "1.0");
    assert_eq!(normalize_version(""), "");
}

#[test]
fn badges_by_status() {
    let b = status_badge("ACTIVE");
    assert_eq!(b.text, "\u{25cf} active");
    assert_eq!(b.color, BadgeColor::Green);
    assert_eq!(status_badge("Disabled").text, "\u{25cf} OFF");
    assert_eq!(status_badge("enabled").color, BadgeColor::Green);
    assert_eq!(status_badge("pending").color, BadgeColor::Yellow);
    let other = status_badge("Weird");
    assert_eq!(other.text, "Weird");
    assert_eq!(other.color, BadgeColor::Plain);
}

#[test]
fn notifications_expire_after_five_seconds() {
    let n = Notification::new("saved".to_string(), NotifLevel::Success, 1_000);
    assert!(!n.is_expired(1_000));
    assert!(!n.is_expired(6_000));
    assert!(n.is_expired(6_001));
    assert!(!n.is_expired(0));
}

#[test]
fn output_formats() {
    assert_eq!(OutputFormat::parse("JSON"), Some(OutputFormat::Json));
    assert_eq!(OutputFormat::parse("text"), Some(OutputFormat::Plain));
    assert_eq!(OutputFormat::parse("table"), Some(OutputFormat::Table));
    assert_eq!(OutputFormat::parse("yaml"), None);
}

#[test]
fn form_defaults() {
    let f = DnsAddForm::default();
    assert_eq!(f.record_type, "A");
    assert_eq!(f.ttl, "1");
    assert!(f.proxied);
    assert_eq!(RedirectForm::default().status_code, 301);
}

#[test]
fn credentials_choose_the_authentication() {
    let mut c = CloudflareConfig { api_token: None, email: Some("a@b".to_string()), api_key: Some("k".to_string()), account_id: None };
    assert!(c.has_credentials());
    assert_eq!(c.auth_method(), AuthMethod::ApiKey { email: "a@b".to_string(), key: "k".to_string() });
    c.api_token = Some("t".to_string());
    assert_eq!(c.auth_method(), AuthMethod::ApiToken("t".to_string()));
    let none = CloudflareConfig { api_token: None, email: Some("a@b".to_string()), api_key: None, account_id: None };
    assert!(!none.has_credentials());
    assert_eq!(none.auth_method(), AuthMethod::ApiToken(String::new()));
}

#[test]
fn model_words() {
    assert_eq!(SslMode::parse("STRICT"), Some(SslMode::Strict));
    assert_eq!(SslMode::parse("auto"), None);
    assert_eq!(SecurityLevel::parse("Under_Attack"), Some(SecurityLevel::UnderAttack));
    assert_eq!(SecurityLevel::EssentiallyOff.as_str(), "essentially_off");
    assert_eq!(MinTlsVersion::Tls12.as_str(), "1.2");
    assert_eq!(DnsRecordType::parse("cname"), Some(DnsRecordType::CNAME));
    assert_eq!(DnsRecordType::parse("BOGUS"), None);
}

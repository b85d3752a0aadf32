use cfai::action::{Action, ActionKind, Risk};
use cfai::dispatch::{plan_request, ParamKey, RemoteOp, ValidationError};
use cfai::models::DnsRecordRequest;

fn action(kind: ActionKind, params: &str) -> Action {
    Action {
        kind,
        description: "test".to_string(),
        params: serde_json::from_str(params).unwrap(),
        risk: Risk::Low,
    }
}

#[test]
fn block_ip_without_ip_is_refused() {
    let a = action(ActionKind::AccessRuleChange, "{\"type\":\"block-ip\"}");
    assert_eq!(plan_request(&a), Err(ValidationError::MissingParam(ParamKey::Ip)));
    assert_eq!(ParamKey::Ip.name(), "ip");
}

#[test]
fn absent_enable_means_on() {
    let a = action(ActionKind::TlsSettingChange, "{\"setting\":\"force-https\"}");
    assert_eq!(plan_request(&a), Ok(RemoteOp::SetAlwaysHttps(true)));
}

#[test]
fn enable_tokens_in_any_case() {
    for (tok, want) in [("ON", true), ("Yes", true), ("1", true), ("true", true), ("OFF", false), ("no", false), ("0", false), ("False", false)] {
        let a = action(ActionKind::TlsSettingChange, &format!("{{\"setting\":\"https-rewrites\",\"enable\":\"{}\"}}", tok));
        assert_eq!(plan_request(&a), Ok(RemoteOp::SetAutomaticHttpsRewrites(want)), "{}", tok);
    }
    let a = action(ActionKind::AccessRuleChange, "{\"type\":\"toggle-attack-mode\",\"enable\":false}");
    assert_eq!(plan_request(&a), Ok(RemoteOp::SetUnderAttack(false)));
}

#[test]
fn unreadable_enable_is_refused() {
    let a = action(ActionKind::AccessRuleChange, "{\"type\":\"toggle-browser-check\",\"enable\":\"maybe\"}");
    assert_eq!(plan_request(&a), Err(ValidationError::UnreadableSwitch(ParamKey::Enable, "maybe".to_string())));
    let b = action(ActionKind::AccessRuleChange, "{\"type\":\"toggle-browser-check\",\"enable\":3}");
    assert_eq!(plan_request(&b), Err(ValidationError::InvalidParam(ParamKey::Enable)));
}

#[test]
fn dns_create_with_optional_fields() {
    let a = action(
        ActionKind::DnsRecordCreate,
        "{\"type\":\"MX\",\"name\":\"@\",\"content\":\"mail.example.com\",\"ttl\":3600,\"proxied\":false,\"priority\":10,\"comment\":\"mail\"}",
    );
    let want = DnsRecordRequest {
        record_type: "MX".to_string(),
        name: "@".to_string(),
        content: "mail.example.com".to_string(),
        ttl: Some(3600),
        proxied: Some(false),
        priority: Some(10),
        comment: Some("mail".to_string()),
        tags: None,
    };
    assert_eq!(plan_request(&a), Ok(RemoteOp::CreateDnsRecord(want)));
}

#[test]
fn dns_create_missing_content() {
    let a = action(ActionKind::DnsRecordCreate, "{\"type\":\"A\",\"name\":\"www\"}");
    assert_eq!(plan_request(&a), Err(ValidationError::MissingParam(ParamKey::Content)));
}

#[test]
fn non_numeric_ttl_is_refused() {
    let a = action(ActionKind::DnsRecordCreate, "{\"type\":\"A\",\"name\":\"www\",\"content\":\"1.2.3.4\",\"ttl\":\"auto\"}");
    assert_eq!(plan_request(&a), Err(ValidationError::InvalidParam(ParamKey::Ttl)));
    let b = action(ActionKind::DnsRecordCreate, "{\"type\":\"A\",\"name\":\"www\",\"content\":\"1.2.3.4\",\"priority\":70000}");
    assert_eq!(plan_request(&b), Err(ValidationError::InvalidParam(ParamKey::Priority)));
}

#[test]
fn dns_update_needs_record_id() {
    let a = action(ActionKind::DnsRecordUpdate, "{\"type\":\"A\",\"name\":\"www\",\"content\":\"1.2.3.4\"}");
    assert_eq!(plan_request(&a), Err(ValidationError::MissingParam(ParamKey::RecordId)));
    let b = action(ActionKind::DnsRecordUpdate, "{\"record_id\":\"r9\",\"type\":\"A\",\"name\":\"www\",\"content\":\"1.2.3.4\"}");
    match plan_request(&b) {
        Ok(RemoteOp::UpdateDnsRecord { record_id, request }) => {
            assert_eq!(record_id, "r9");
            assert_eq!(request.ttl, None);
        }
        other => panic!("unexpected {:?}", other),
    }
}

#[test]
fn dns_delete_reads_record_id() {
    let a = action(ActionKind::DnsRecordDelete, "{\"record_id\":\"abc\"}");
    assert_eq!(plan_request(&a), Ok(RemoteOp::DeleteDnsRecord("abc".to_string())));
}

#[test]
fn cache_purge_lists_keep_strings_only() {
    let a = action(ActionKind::CachePurge, "{\"type\":\"purge-by-urls\",\"urls\":[\"https://a/x\",5,\"https://a/y\"]}");
    assert_eq!(plan_request(&a), Ok(RemoteOp::PurgeUrls(vec!["https://a/x".to_string(), "https://a/y".to_string()])));
    let b = action(ActionKind::CachePurge, "{\"type\":\"purge-by-tags\"}");
    assert_eq!(plan_request(&b), Err(ValidationError::MissingParam(ParamKey::Tags)));
    let c = action(ActionKind::CachePurge, "{\"type\":\"purge-all\"}");
    assert_eq!(plan_request(&c), Ok(RemoteOp::PurgeAll));
    let d = action(ActionKind::CachePurge, "{\"type\":\"purge_everything\"}");
    assert_eq!(plan_request(&d), Err(ValidationError::UnknownPurgeType("purge_everything".to_string())));
    let e = action(ActionKind::CachePurge, "{\"hosts\":[\"a\"]}");
    assert_eq!(plan_request(&e), Err(ValidationError::MissingParam(ParamKey::Type)));
}

#[test]
fn setting_update_passes_value_through() {
    let a = action(ActionKind::ResourceSettingChange, "{\"setting_id\":\"brotli\",\"value\":\"on\"}");
    assert_eq!(
        plan_request(&a),
        Ok(RemoteOp::UpdateSetting { setting_id: "brotli".to_string(), value: serde_json::Value::String("on".to_string()) })
    );
    let b = action(ActionKind::ResourceSettingChange, "{\"setting_id\":\"brotli\"}");
    assert_eq!(plan_request(&b), Err(ValidationError::MissingParam(ParamKey::Value)));
}

#[test]
fn tls_settings_and_unknown_setting() {
    let a = action(ActionKind::TlsSettingChange, "{\"setting\":\"tls-mode\",\"value\":\"strict\"}");
    assert_eq!(plan_request(&a), Ok(RemoteOp::SetSslMode("strict".to_string())));
    let b = action(ActionKind::TlsSettingChange, "{\"setting\":\"min-tls-version\",\"value\":\"1.2\"}");
    assert_eq!(plan_request(&b), Ok(RemoteOp::SetMinTlsVersion("1.2".to_string())));
    let c = action(ActionKind::TlsSettingChange, "{\"setting\":\"opportunistic-encryption\",\"enable\":\"off\"}");
    assert_eq!(plan_request(&c), Ok(RemoteOp::SetOpportunisticEncryption(false)));
    let d = action(ActionKind::TlsSettingChange, "{\"setting\":\"hsts\"}");
    assert_eq!(plan_request(&d), Err(ValidationError::UnknownSetting("hsts".to_string())));
    let e = action(ActionKind::TlsSettingChange, "{}");
    assert_eq!(plan_request(&e), Err(ValidationError::MissingParam(ParamKey::Setting)));
}

#[test]
fn access_rules() {
    let a = action(ActionKind::AccessRuleChange, "{\"type\":\"allow-ip\",\"ip\":\"10.0.0.1\",\"note\":\"office\"}");
    assert_eq!(plan_request(&a), Ok(RemoteOp::AllowIp { ip: "10.0.0.1".to_string(), note: Some("office".to_string()) }));
    let b = action(ActionKind::AccessRuleChange, "{\"type\":\"block-ip\",\"ip\":\"1.1.1.1\"}");
    assert_eq!(plan_request(&b), Ok(RemoteOp::BlockIp { ip: "1.1.1.1".to_string(), note: None }));
    let c = action(ActionKind::AccessRuleChange, "{\"type\":\"set-security-level\",\"level\":\"high\"}");
    assert_eq!(plan_request(&c), Ok(RemoteOp::SetSecurityLevel("high".to_string())));
    let d = action(ActionKind::AccessRuleChange, "{\"type\":\"rate_limit\"}");
    assert_eq!(plan_request(&d), Err(ValidationError::UnknownRuleType("rate_limit".to_string())));
}

#[test]
fn unsupported_kind_is_refused() {
    let a = action(ActionKind::Unsupported("reboot".to_string()), "{}");
    assert_eq!(plan_request(&a), Err(ValidationError::UnsupportedKind("reboot".to_string())));
}

#[test]
fn only_the_fixed_sub_type_tokens_pass() {
    for setting in ["ssl_mode", "always_https", "min_tls_version", "opportunistic_encryption", "automatic_https_rewrites"] {
        let a = action(ActionKind::TlsSettingChange, &format!("{{\"setting\":\"{}\",\"value\":\"full\"}}", setting));
        assert_eq!(plan_request(&a), Err(ValidationError::UnknownSetting(setting.to_string())));
    }
    for t in ["purge_all", "purge_urls", "purge_tags", "purge_hosts"] {
        let a = action(ActionKind::CachePurge, &format!("{{\"type\":\"{}\",\"urls\":[]}}", t));
        assert_eq!(plan_request(&a), Err(ValidationError::UnknownPurgeType(t.to_string())));
    }
    for t in ["block_ip", "whitelist_ip", "security_level", "under_attack", "browser_check"] {
        let a = action(ActionKind::AccessRuleChange, &format!("{{\"type\":\"{}\",\"ip\":\"1.1.1.1\"}}", t));
        assert_eq!(plan_request(&a), Err(ValidationError::UnknownRuleType(t.to_string())));
    }
}

#[test]
fn success_messages() {
    let create = RemoteOp::CreateDnsRecord(DnsRecordRequest {
        record_type: "A".to_string(),
        name: "www".to_string(),
        content: "1.2.3.4".to_string(),
        ttl: None,
        proxied: None,
        priority: None,
        comment: None,
        tags: None,
    });
    assert_eq!(create.success_message(Some("r1")), "DNS record created: A www -> 1.2.3.4 (id r1)");
    assert_eq!(create.success_message(None), "DNS record created: A www -> 1.2.3.4 (id )");
    assert_eq!(RemoteOp::PurgeUrls(vec!["a".to_string(); 12]).success_message(None), "cache purged for 12 URLs");
    assert_eq!(RemoteOp::SetAlwaysHttps(false).success_message(None), "Always HTTPS turned off");
    assert_eq!(RemoteOp::SetSecurityLevel("high".to_string()).success_message(None), "security level set to high");
}

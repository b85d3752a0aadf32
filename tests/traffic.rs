use cfai::analytics::{parse_timeseries, parse_totals};
use cfai::models::{AnalyticsSslBandwidth, AnalyticsSslRequests, AnalyticsUniques};

fn value(s: &str) -> serde_json::Value {
    serde_json::from_str(s).unwrap()
}

#[test]
fn totals_from_first_daily_group() {
    let zone = value(
        r#"{"httpRequests1dGroups":[{"sum":{"requests":100,"cachedRequests":30,"encryptedRequests":90,"bytes":1000,"cachedBytes":1200,"encryptedBytes":400,"threats":2,"pageViews":50},"uniq":{"uniques":7}},{"sum":{"requests":1}}]}"#,
    );
    let t = parse_totals(&zone).unwrap();
    let q = t.requests.unwrap();
    assert_eq!((q.all, q.cached, q.uncached), (Some(100), Some(30), Some(70)));
    assert_eq!(q.ssl, Some(AnalyticsSslRequests { encrypted: Some(90), unencrypted: Some(10) }));
    let b = t.bandwidth.unwrap();
    assert_eq!(b.uncached, Some(0));
    assert_eq!(b.ssl, Some(AnalyticsSslBandwidth { encrypted: Some(400), unencrypted: Some(600) }));
    assert_eq!(t.threats.unwrap().all, Some(2));
    assert_eq!(t.pageviews.unwrap().all, Some(50));
    assert_eq!(t.uniques, Some(AnalyticsUniques { all: Some(7) }));
}

#[test]
fn totals_need_a_group_with_sum() {
    assert!(parse_totals(&value(r#"{"httpRequests1dGroups":[]}"#)).is_none());
    assert!(parse_totals(&value(r#"{"httpRequests1dGroups":[{"uniq":{}}]}"#)).is_none());
    assert!(parse_totals(&value(r#"{}"#)).is_none());
    let t = parse_totals(&value(r#"{"httpRequests1dGroups":[{"sum":{}}]}"#)).unwrap();
    assert_eq!(t.uniques, None);
    assert_eq!(t.requests.unwrap().uncached, Some(0));
}

#[test]
fn hourly_series_keeps_complete_groups() {
    let zone = value(
        r#"{"httpRequests1hGroups":[
            {"dimensions":{"datetime":"2024-01-01T00:00:00Z"},"sum":{"requests":5,"cachedRequests":2,"bytes":10,"cachedBytes":4,"threats":1}},
            {"sum":{"requests":9}},
            {"dimensions":{},"sum":{"requests":3}}
        ]}"#,
    );
    let s = parse_timeseries(&zone).unwrap();
    assert_eq!(s.len(), 2);
    assert_eq!(s[0].since.as_deref(), Some("2024-01-01T00:00:00Z"));
    assert_eq!(s[0].until, s[0].since);
    assert_eq!(s[0].requests.as_ref().unwrap().uncached, Some(3));
    assert_eq!(s[0].bandwidth.as_ref().unwrap().uncached, Some(6));
    assert_eq!(s[1].since, None);
    assert_eq!(s[1].requests.as_ref().unwrap().all, Some(3));
    assert!(parse_timeseries(&value(r#"{"httpRequests1hGroups":[{"sum":{}}]}"#)).is_none());
}

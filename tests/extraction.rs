use cfai::action::{ActionKind, Risk};
use cfai::extract::{extract, fenced_json};

const SCENARIO_A: &str = "Sure, here: ```json\n{\"actions\":[{\"type\":\"dns_create\",\"description\":\"add www\",\"params\":{\"type\":\"A\",\"name\":\"www\",\"content\":\"1.2.3.4\"},\"risk\":\"low\"}]}\n```\nDone.";

#[test]
fn fenced_plan_is_read() {
    let plan = extract(SCENARIO_A);
    assert_eq!(plan.actions.len(), 1);
    let a = &plan.actions[0];
    assert_eq!(a.kind, ActionKind::DnsRecordCreate);
    assert_eq!(a.risk, Risk::Low);
    assert_eq!(a.description, "add www");
    assert_eq!(a.params["content"].as_str(), Some("1.2.3.4"));
    assert_eq!(plan.explanation, None);
}

#[test]
fn plain_conversation_gives_empty_plan() {
    let plan = extract("DNS looks fine, nothing to change.");
    assert!(plan.actions.is_empty());
    assert_eq!(plan.explanation, None);
}

#[test]
fn empty_text_gives_empty_plan() {
    let plan = extract("");
    assert!(plan.actions.is_empty());
    assert_eq!(plan.explanation, None);
}

#[test]
fn whole_text_json_is_read() {
    let text = "{\"actions\":[{\"type\":\"cache_purge\",\"description\":\"purge\",\"params\":{\"type\":\"purge_all\"},\"risk\":\"medium\"}],\"explanation\":\"stale\"}";
    let plan = extract(text);
    assert_eq!(plan.actions.len(), 1);
    assert_eq!(plan.actions[0].kind, ActionKind::CachePurge);
    assert_eq!(plan.actions[0].risk, Risk::Medium);
    assert_eq!(plan.explanation, Some("stale".to_string()));
}

#[test]
fn order_and_explanation_are_kept() {
    let text = "x ```json\n {\"actions\":[\
        {\"type\":\"dns_delete\",\"description\":\"one\",\"params\":{\"record_id\":\"r1\"},\"risk\":\"high\"},\
        {\"type\":\"ssl_set\",\"description\":\"two\",\"params\":{\"setting\":\"ssl_mode\",\"value\":\"full\"},\"risk\":\"low\"},\
        {\"type\":\"reboot\",\"description\":\"three\",\"params\":null,\"risk\":\"critical\"}],\
        \"explanation\":\"why\"} \n``` y";
    let plan = extract(text);
    assert_eq!(plan.actions.len(), 3);
    assert_eq!(plan.actions[0].description, "one");
    assert_eq!(plan.actions[0].risk, Risk::High);
    assert_eq!(plan.actions[1].kind, ActionKind::TlsSettingChange);
    assert_eq!(plan.actions[2].kind, ActionKind::Unsupported("reboot".to_string()));
    assert_eq!(plan.actions[2].risk, Risk::Unknown("critical".to_string()));
    assert_eq!(plan.explanation, Some("why".to_string()));
}

#[test]
fn unknown_risk_is_not_low() {
    let text = "{\"actions\":[{\"type\":\"dns_delete\",\"description\":\"d\",\"params\":{},\"risk\":\"LOW\"}]}";
    let plan = extract(text);
    assert_eq!(plan.actions[0].risk, Risk::Unknown("LOW".to_string()));
    assert_ne!(plan.actions[0].risk, Risk::Low);
}

#[test]
fn malformed_fence_falls_back_to_whole_text() {
    let text = "```json\n{\"actions\": [oops]}\n```";
    let plan = extract(text);
    assert!(plan.actions.is_empty());
    assert_eq!(plan.explanation, None);
}

#[test]
fn only_first_fence_is_considered() {
    let text = "```json\nnot json\n```\n```json\n{\"actions\":[{\"type\":\"dns_delete\",\"description\":\"d\",\"params\":{},\"risk\":\"low\"}]}\n```";
    let plan = extract(text);
    assert!(plan.actions.is_empty());
}

#[test]
fn unclosed_fence_is_not_a_block() {
    assert_eq!(fenced_json("a ```json {}"), None);
    let body: String = fenced_json("a ```json{}```").unwrap().into_iter().collect();
    assert_eq!(body, "{}");
}

#[test]
fn action_missing_a_field_spoils_the_plan() {
    let text = "{\"actions\":[{\"type\":\"dns_delete\",\"description\":\"d\",\"risk\":\"low\"}]}";
    assert!(extract(text).actions.is_empty());
}

#[test]
fn explanation_of_wrong_shape_spoils_the_plan() {
    let text = "{\"actions\":[],\"explanation\":5}";
    let plan = extract(text);
    assert!(plan.actions.is_empty());
    assert_eq!(plan.explanation, None);
}

#[test]
fn plan_without_actions_keeps_explanation() {
    let plan = extract("{\"explanation\":\"nothing to do\"}");
    assert!(plan.actions.is_empty());
    assert_eq!(plan.explanation, Some("nothing to do".to_string()));
}

#[test]
fn fenced_content_is_trimmed() {
    let text = "```json\u{a0}\n{\"actions\":null}\u{3000}```";
    let plan = extract(text);
    assert!(plan.actions.is_empty());
    let text2 = "```json\u{a0}{\"actions\":[],\"explanation\":\"e\"}\u{a0}```";
    assert_eq!(extract(text2).explanation, Some("e".to_string()));
}

#[test]
fn extraction_is_repeatable() {
    let a = extract(SCENARIO_A);
    let b = extract(SCENARIO_A);
    assert_eq!(a, b);
}

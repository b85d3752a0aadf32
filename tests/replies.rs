use cfai::action::ActionKind;
use cfai::analysis::{analysis_of_reply, chat_messages};
use cfai::release::{build_release_api_url, detect_patterns, select_best_asset, ReleaseAsset};

#[test]
fn reply_text_tokens_and_plan() {
    let body = r#"{"choices":[{"message":{"role":"assistant","content":"Do this ```json\n{\"actions\":[{\"type\":\"dns_delete\",\"description\":\"drop\",\"params\":{\"record_id\":\"r1\"},\"risk\":\"medium\"}]}\n```"},"finish_reason":"stop"}],"usage":{"prompt_tokens":10,"completion_tokens":5,"total_tokens":15}}"#;
    let a = analysis_of_reply(body).unwrap();
    assert!(a.content.starts_with("Do this"));
    assert_eq!(a.tokens_used, Some(15));
    assert_eq!(a.actions.actions.len(), 1);
    assert_eq!(a.actions.actions[0].kind, ActionKind::DnsRecordDelete);
}

#[test]
fn reply_without_choices_content_is_empty() {
    let a = analysis_of_reply(r#"{"choices":[]}"#).unwrap();
    assert_eq!(a.content, "");
    assert_eq!(a.tokens_used, None);
    assert!(a.actions.actions.is_empty());
}

#[test]
fn malformed_replies_are_refused() {
    assert!(analysis_of_reply("not json").is_none());
    assert!(analysis_of_reply(r#"{"usage":null}"#).is_none());
    assert!(analysis_of_reply(r#"{"choices":[{"message":{"content":"x"}}]}"#).is_none());
    assert!(analysis_of_reply(r#"{"choices":[],"usage":{"total_tokens":-1}}"#).is_none());
    assert!(analysis_of_reply(r#"{"choices":[],"usage":{"total_tokens":5000000000}}"#).is_none());
}

#[test]
fn exchange_messages() {
    let m = chat_messages("role text", "question");
    assert_eq!(m.len(), 2);
    assert_eq!((m[0].role.as_str(), m[0].content.as_str()), ("system", "role text"));
    assert_eq!((m[1].role.as_str(), m[1].content.as_str()), ("user", "question"));
}

#[test]
fn release_urls() {
    assert_eq!(build_release_api_url("o/r", None), "https://api.github.com/repos/o/r/releases/latest");
    assert_eq!(build_release_api_url("o/r", Some("v1.2")), "https://api.github.com/repos/o/r/releases/tags/v1.2");
}

fn asset(name: &str, size: u64) -> ReleaseAsset {
    ReleaseAsset { name: name.to_string(), browser_download_url: format!("https://dl/{}", name), size }
}

#[test]
fn best_asset_prefers_platform_then_size() {
    let (os, arch) = detect_patterns("linux", "x86_64");
    let assets = vec![
        asset("cfai-aarch64-linux.tar.gz", 900),
        asset("CFAI-x86_64-unknown-linux-gnu.tar.gz", 100),
        asset("cfai-x86_64-linux-musl.tar.gz", 100),
        asset("other-x86_64-linux.tar.gz", 5000),
    ];
    let best = select_best_asset(&assets, &os, &arch).unwrap();
    assert_eq!(best.name, "cfai-x86_64-linux-musl.tar.gz");
}

#[test]
fn best_asset_falls_back_to_any_of_ours() {
    let (os, arch) = detect_patterns("windows", "riscv64");
    assert_eq!(arch, vec!["riscv64".to_string()]);
    let assets = vec![asset("cfai-linux.tar.gz", 10), asset("cfai-macos.zip", 20), asset("readme.txt", 99)];
    assert_eq!(select_best_asset(&assets, &os, &arch).unwrap().name, "cfai-macos.zip");
    assert!(select_best_asset(&vec![asset("readme.txt", 1)], &os, &arch).is_none());
}

#[test]
fn asset_names_are_compared_in_lower_case() {
    let (os, arch) = detect_patterns("macos", "aarch64");
    let assets = vec![asset("CFAI-ARM64-DARWIN.zip", 5), asset("cfai-x86_64-linux.tgz", 50)];
    assert_eq!(select_best_asset(&assets, &os, &arch).unwrap().name, "CFAI-ARM64-DARWIN.zip");
}

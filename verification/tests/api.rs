use chat_merge::catalog::{classify_choice_field, classify_top_level, FieldClass};
use chat_merge::chat::Chat;
use chat_merge::codec::{
    finish_reason_from_str, finish_reason_name, severity_from_str, severity_name, tier_from_str,
    tier_name,
};
use chat_merge::json::{find_key, first_dup_key, Json};
use chat_merge::types::chat::{FinishReason, ServiceTierResponse};
use chat_merge::types::content_filtering::Severity;
use chat_merge::ClientExt;

struct LocalClient;

impl ClientExt for LocalClient {
    fn chat(&self) -> Chat {
        Chat::new()
    }
}

#[test]
fn catalog_classifies_top_level_fields() {
    assert_eq!(classify_top_level(&"id".to_string()), FieldClass::BaseOnly);
    assert_eq!(classify_top_level(&"choices".to_string()), FieldClass::BaseOnly);
    assert_eq!(classify_top_level(&"usage".to_string()), FieldClass::BaseOnly);
    assert_eq!(
        classify_top_level(&"prompt_filter_results".to_string()),
        FieldClass::ExtensionOnly
    );
    assert_eq!(classify_top_level(&"beta_flag".to_string()), FieldClass::Unknown);
}

#[test]
fn catalog_classifies_choice_fields() {
    assert_eq!(classify_choice_field(&"index".to_string()), FieldClass::BaseOnly);
    assert_eq!(classify_choice_field(&"message".to_string()), FieldClass::BaseOnly);
    assert_eq!(
        classify_choice_field(&"content_filter_results".to_string()),
        FieldClass::ExtensionOnly
    );
    assert_eq!(classify_choice_field(&"text".to_string()), FieldClass::Unknown);
}

#[test]
fn finish_reason_literals_round_trip() {
    for f in [
        FinishReason::Stop,
        FinishReason::Length,
        FinishReason::ToolCalls,
        FinishReason::ContentFilter,
        FinishReason::FunctionCall,
    ] {
        assert_eq!(finish_reason_from_str(&finish_reason_name(&f)), Some(f));
    }
    assert_eq!(finish_reason_name(&FinishReason::ToolCalls), "tool_calls");
    assert_eq!(finish_reason_from_str(&"banana".to_string()), None);
}

#[test]
fn severity_literals_round_trip() {
    for s in [Severity::Safe, Severity::Low, Severity::Medium, Severity::High] {
        assert_eq!(severity_from_str(&severity_name(&s)), Some(s));
    }
    assert_eq!(severity_name(&Severity::Safe), "safe");
    assert_eq!(severity_from_str(&"extreme".to_string()), None);
}

#[test]
fn tier_literals_round_trip() {
    for t in [ServiceTierResponse::Scale, ServiceTierResponse::Default] {
        assert_eq!(tier_from_str(&tier_name(&t)), Some(t));
    }
    assert_eq!(tier_from_str(&"bronze".to_string()), None);
}

#[test]
fn chat_gates_stream_requests() {
    let chat = LocalClient.chat();
    assert!(chat.accepts_request(None));
    assert!(chat.accepts_request(Some(false)));
    assert!(!chat.accepts_request(Some(true)));
}

#[test]
fn find_key_returns_first_binding() {
    let es = vec![
        ("a".to_string(), Json::Int(1)),
        ("b".to_string(), Json::Int(2)),
        ("a".to_string(), Json::Int(3)),
    ];
    assert_eq!(find_key(&es, "a"), Some(&Json::Int(1)));
    assert_eq!(find_key(&es, "b"), Some(&Json::Int(2)));
    assert_eq!(find_key(&es, "c"), None);
}

#[test]
fn first_dup_key_reports_first_repeat() {
    let es = vec![
        ("a".to_string(), Json::Int(1)),
        ("b".to_string(), Json::Int(2)),
        ("b".to_string(), Json::Int(3)),
        ("a".to_string(), Json::Int(4)),
    ];
    assert_eq!(first_dup_key(&es), Some("b".to_string()));
    let distinct = vec![("a".to_string(), Json::Null), ("b".to_string(), Json::Null)];
    assert_eq!(first_dup_key(&distinct), None);
}

#[test]
fn deep_clone_preserves_trees() {
    let t = Json::Obj(vec![
        ("xs".to_string(), Json::Arr(vec![Json::Int(1), Json::Str("two".to_string())])),
        ("flag".to_string(), Json::Bool(true)),
        ("nothing".to_string(), Json::Null),
    ]);
    assert_eq!(t.deep_clone(), t);
}

use chat_merge::codec::{decode, encode, zip_choices};
use chat_merge::errors::{DecodeError, ExpectedKind};
use chat_merge::json::Json;
use chat_merge::types::chat::{ChatChoice as BaseChatChoice, CompletionUsage, FinishReason};
use chat_merge::types::content_filtering::{
    BaseResults, ChoiceResults, ContentFilteringResults, Error, PromptFilterResults,
    PromptResults, Severity, SeverityResult,
};
use chat_merge::types::merged::{ChatChoice, CreateChatCompletionResponse};

fn key(k: &str, v: Json) -> (String, Json) {
    (k.to_string(), v)
}

fn jstr(v: &str) -> Json {
    Json::Str(v.to_string())
}

fn message_hi() -> Json {
    Json::Obj(vec![key("role", jstr("assistant")), key("content", jstr("hi"))])
}

fn hate_safe_filter() -> Json {
    Json::Obj(vec![key(
        "hate",
        Json::Obj(vec![key("filtered", Json::Bool(false)), key("severity", jstr("safe"))]),
    )])
}

fn base_doc_entries() -> Vec<(String, Json)> {
    vec![
        key("id", jstr("c1")),
        key("object", jstr("chat.completion")),
        key("created", Json::Int(1700000000)),
        key("model", jstr("m")),
        key(
            "choices",
            Json::Arr(vec![Json::Obj(vec![
                key("index", Json::Int(0)),
                key("message", message_hi()),
                key("content_filter_results", hate_safe_filter()),
            ])]),
        ),
    ]
}

fn obj_keys(j: &Json) -> Vec<String> {
    match j {
        Json::Obj(es) => es.iter().map(|e| e.0.clone()).collect(),
        _ => panic!("expected an object"),
    }
}

fn obj_get<'a>(j: &'a Json, k: &str) -> &'a Json {
    match j {
        Json::Obj(es) => &es.iter().find(|e| e.0 == k).expect("key absent").1,
        _ => panic!("expected an object"),
    }
}

#[test]
fn concrete_scenario_decodes_and_reencodes() {
    let doc = Json::Obj(base_doc_entries());
    let r = decode(&doc).expect("document decodes");
    assert_eq!(r.id, "c1");
    assert_eq!(r.object, "chat.completion");
    assert_eq!(r.created, 1700000000);
    assert_eq!(r.model, "m");
    assert_eq!(r.choices.len(), 1);
    let c = &r.choices[0];
    assert_eq!(c.index, 0);
    match &c.content_filter_results {
        Some(ContentFilteringResults::Success(cr)) => {
            assert_eq!(
                cr.results.hate,
                Some(SeverityResult { filtered: false, severity: Some(Severity::Safe) })
            );
            assert_eq!(cr.results.sexual, None);
            assert_eq!(cr.protected_material_text, None);
        },
        other => panic!("expected a severity report, got {:?}", other),
    }
    let e = encode(&r);
    let choices = obj_get(&e, "choices");
    let first = match choices {
        Json::Arr(v) => &v[0],
        _ => panic!("choices must be an array"),
    };
    let cfr = obj_get(first, "content_filter_results");
    assert!(matches!(cfr, Json::Obj(_)));
    assert!(!obj_keys(&e).contains(&"content_filter_results".to_string()));
    assert_eq!(decode(&e).expect("re-decodes"), r);
}

#[test]
fn round_trip_from_valid_components() {
    let r = CreateChatCompletionResponse {
        id: "abc".to_string(),
        choices: vec![
            ChatChoice {
                index: 0,
                message: message_hi(),
                finish_reason: Some(FinishReason::Stop),
                logprobs: Some(Json::Obj(vec![key("content", Json::Null)])),
                content_filter_results: Some(ContentFilteringResults::Success(ChoiceResults {
                    results: BaseResults {
                        sexual: Some(SeverityResult { filtered: true, severity: Some(Severity::High) }),
                        violence: None,
                        hate: None,
                        self_harm: None,
                        profanity: None,
                    },
                    protected_material_text: None,
                    protected_material_code: None,
                })),
            },
            ChatChoice {
                index: 1,
                message: message_hi(),
                finish_reason: None,
                logprobs: None,
                content_filter_results: Some(ContentFilteringResults::Failure(Error {
                    code: "429".to_string(),
                    message: "throttled".to_string(),
                })),
            },
        ],
        created: 42,
        model: "m2".to_string(),
        service_tier: None,
        system_fingerprint: Some("fp".to_string()),
        object: "chat.completion".to_string(),
        usage: Some(CompletionUsage { prompt_tokens: 1, completion_tokens: 2, total_tokens: 3 }),
        prompt_filter_results: Some(vec![PromptFilterResults {
            prompt_index: 0,
            content_filter_results: ContentFilteringResults::Success(PromptResults {
                results: BaseResults {
                    sexual: None,
                    violence: None,
                    hate: None,
                    self_harm: None,
                    profanity: None,
                },
                jailbreak: None,
            }),
        }]),
    };
    let e = encode(&r);
    assert_eq!(decode(&e).expect("round-trips"), r);
}

#[test]
fn encode_is_idempotent_after_decode() {
    let r = CreateChatCompletionResponse {
        id: "x".to_string(),
        choices: vec![],
        created: 7,
        model: "m".to_string(),
        service_tier: None,
        system_fingerprint: None,
        object: "chat.completion".to_string(),
        usage: None,
        prompt_filter_results: None,
    };
    let e1 = encode(&r);
    let d = decode(&e1).expect("decodes");
    let e2 = encode(&d);
    assert_eq!(e1, e2);
}

#[test]
fn cardinality_mismatch_reports_both_lengths() {
    // Two base choices, but only one carries the extension field.
    let doc = Json::Obj(vec![
        key("id", jstr("c1")),
        key("object", jstr("chat.completion")),
        key("created", Json::Int(1)),
        key("model", jstr("m")),
        key(
            "choices",
            Json::Arr(vec![
                Json::Obj(vec![
                    key("index", Json::Int(0)),
                    key("message", message_hi()),
                    key("content_filter_results", hate_safe_filter()),
                ]),
                Json::Obj(vec![key("index", Json::Int(1)), key("message", message_hi())]),
            ]),
        ),
    ]);
    assert_eq!(
        decode(&doc),
        Err(DecodeError::CardinalityMismatch { base_len: 2, extension_len: 1 })
    );
}

#[test]
fn zipper_rejects_length_disagreement() {
    let bases = vec![
        BaseChatChoice { index: 0, message: message_hi(), finish_reason: None, logprobs: None },
        BaseChatChoice { index: 1, message: message_hi(), finish_reason: None, logprobs: None },
    ];
    let exts = vec![ContentFilteringResults::Failure(Error {
        code: "e".to_string(),
        message: "m".to_string(),
    })];
    assert_eq!(
        zip_choices(bases, Some(exts)),
        Err(DecodeError::CardinalityMismatch { base_len: 2, extension_len: 1 })
    );
}

#[test]
fn zipper_without_extension_list_leaves_slots_empty() {
    let bases = vec![BaseChatChoice {
        index: 0,
        message: message_hi(),
        finish_reason: Some(FinishReason::Length),
        logprobs: None,
    }];
    let merged = zip_choices(bases, None).expect("zips");
    assert_eq!(merged.len(), 1);
    assert_eq!(merged[0].content_filter_results, None);
    assert_eq!(merged[0].finish_reason, Some(FinishReason::Length));
}

#[test]
fn no_extension_fields_tolerated() {
    let doc = Json::Obj(vec![
        key("id", jstr("c1")),
        key("object", jstr("chat.completion")),
        key("created", Json::Int(1)),
        key("model", jstr("m")),
        key(
            "choices",
            Json::Arr(vec![Json::Obj(vec![
                key("index", Json::Int(0)),
                key("message", message_hi()),
            ])]),
        ),
    ]);
    let r = decode(&doc).expect("decodes without extension fields");
    assert!(r.choices.iter().all(|c| c.content_filter_results.is_none()));
    assert_eq!(r.prompt_filter_results, None);
}

#[test]
fn duplicate_id_key_is_rejected() {
    let mut es = base_doc_entries();
    es.push(key("id", jstr("c2")));
    let doc = Json::Obj(es);
    assert_eq!(decode(&doc), Err(DecodeError::DuplicateField("id".to_string())));
}

#[test]
fn null_fingerprint_equals_absent_fingerprint() {
    let mut with_null = base_doc_entries();
    with_null.push(key("system_fingerprint", Json::Null));
    let r1 = decode(&Json::Obj(with_null)).expect("decodes");
    let r2 = decode(&Json::Obj(base_doc_entries())).expect("decodes");
    assert_eq!(r1.system_fingerprint, None);
    assert_eq!(r1, r2);
}

#[test]
fn unknown_top_level_key_is_ignored_and_not_reencoded() {
    let mut es = base_doc_entries();
    es.push(key("beta_flag", Json::Bool(true)));
    let r = decode(&Json::Obj(es)).expect("decodes with unknown key");
    let e = encode(&r);
    assert!(!obj_keys(&e).contains(&"beta_flag".to_string()));
    assert_eq!(decode(&e).expect("re-decodes"), r);
}

#[test]
fn missing_required_field_is_reported() {
    let es: Vec<(String, Json)> = base_doc_entries()
        .into_iter()
        .filter(|e| e.0 != "id")
        .collect();
    assert_eq!(
        decode(&Json::Obj(es)),
        Err(DecodeError::MissingRequiredField("id".to_string()))
    );
}

#[test]
fn wrong_kind_for_created_is_reported() {
    let es: Vec<(String, Json)> = base_doc_entries()
        .into_iter()
        .map(|e| if e.0 == "created" { key("created", jstr("soon")) } else { e })
        .collect();
    assert_eq!(
        decode(&Json::Obj(es)),
        Err(DecodeError::TypeMismatch {
            field: "created".to_string(),
            expected_kind: ExpectedKind::Int,
        })
    );
}

#[test]
fn unsupported_filter_shape_is_reported() {
    let es: Vec<(String, Json)> = base_doc_entries()
        .into_iter()
        .map(|e| {
            if e.0 == "choices" {
                key(
                    "choices",
                    Json::Arr(vec![Json::Obj(vec![
                        key("index", Json::Int(0)),
                        key("message", message_hi()),
                        key(
                            "content_filter_results",
                            Json::Obj(vec![key("code", jstr("500"))]),
                        ),
                    ])]),
                )
            } else {
                e
            }
        })
        .collect();
    assert_eq!(decode(&Json::Obj(es)), Err(DecodeError::UnsupportedSchemaShape));
}

#[test]
fn filter_error_shape_decodes_as_failure() {
    let es: Vec<(String, Json)> = base_doc_entries()
        .into_iter()
        .map(|e| {
            if e.0 == "choices" {
                key(
                    "choices",
                    Json::Arr(vec![Json::Obj(vec![
                        key("index", Json::Int(0)),
                        key("message", message_hi()),
                        key(
                            "content_filter_results",
                            Json::Obj(vec![
                                key("code", jstr("content_filter_error")),
                                key("message", jstr("backend failed")),
                            ]),
                        ),
                    ])]),
                )
            } else {
                e
            }
        })
        .collect();
    let r = decode(&Json::Obj(es)).expect("decodes");
    assert_eq!(
        r.choices[0].content_filter_results,
        Some(ContentFilteringResults::Failure(Error {
            code: "content_filter_error".to_string(),
            message: "backend failed".to_string(),
        }))
    );
}

#[test]
fn prompt_filter_results_decode_independently() {
    let mut es = base_doc_entries();
    es.push(key(
        "prompt_filter_results",
        Json::Arr(vec![Json::Obj(vec![
            key("prompt_index", Json::Int(0)),
            key(
                "content_filter_results",
                Json::Obj(vec![key(
                    "jailbreak",
                    Json::Obj(vec![
                        key("filtered", Json::Bool(true)),
                        key("detected", Json::Bool(true)),
                    ]),
                )]),
            ),
        ])]),
    ));
    let r = decode(&Json::Obj(es)).expect("decodes");
    let pfr = r.prompt_filter_results.expect("prompt filter results present");
    assert_eq!(pfr.len(), 1);
    assert_eq!(pfr[0].prompt_index, 0);
    match &pfr[0].content_filter_results {
        ContentFilteringResults::Success(p) => {
            assert_eq!(
                p.jailbreak,
                Some(chat_merge::types::content_filtering::DetectedResult {
                    filtered: true,
                    detected: true,
                })
            );
        },
        other => panic!("expected a prompt report, got {:?}", other),
    }
}

#[test]
fn invalid_finish_reason_literal_is_reported() {
    let es: Vec<(String, Json)> = base_doc_entries()
        .into_iter()
        .map(|e| {
            if e.0 == "choices" {
                key(
                    "choices",
                    Json::Arr(vec![Json::Obj(vec![
                        key("index", Json::Int(0)),
                        key("message", message_hi()),
                        key("finish_reason", jstr("banana")),
                    ])]),
                )
            } else {
                e
            }
        })
        .collect();
    assert_eq!(
        decode(&Json::Obj(es)),
        Err(DecodeError::TypeMismatch {
            field: "finish_reason".to_string(),
            expected_kind: ExpectedKind::FinishReasonName,
        })
    );
}

#[test]
fn usage_missing_total_tokens_is_reported() {
    let mut es = base_doc_entries();
    es.push(key(
        "usage",
        Json::Obj(vec![
            key("prompt_tokens", Json::Int(1)),
            key("completion_tokens", Json::Int(2)),
        ]),
    ));
    assert_eq!(
        decode(&Json::Obj(es)),
        Err(DecodeError::MissingRequiredField("total_tokens".to_string()))
    );
}

#[test]
fn usage_and_tier_decode_to_values() {
    let mut es = base_doc_entries();
    es.push(key(
        "usage",
        Json::Obj(vec![
            key("prompt_tokens", Json::Int(10)),
            key("completion_tokens", Json::Int(20)),
            key("total_tokens", Json::Int(30)),
        ]),
    ));
    es.push(key("service_tier", jstr("scale")));
    let r = decode(&Json::Obj(es)).expect("decodes");
    assert_eq!(
        r.usage,
        Some(CompletionUsage { prompt_tokens: 10, completion_tokens: 20, total_tokens: 30 })
    );
    assert_eq!(
        r.service_tier,
        Some(chat_merge::types::chat::ServiceTierResponse::Scale)
    );
}

#[test]
fn non_object_document_is_rejected() {
    assert_eq!(
        decode(&Json::Int(3)),
        Err(DecodeError::TypeMismatch {
            field: "$".to_string(),
            expected_kind: ExpectedKind::Obj,
        })
    );
}

#[test]
fn duplicate_key_inside_choice_is_rejected() {
    let es: Vec<(String, Json)> = base_doc_entries()
        .into_iter()
        .map(|e| {
            if e.0 == "choices" {
                key(
                    "choices",
                    Json::Arr(vec![Json::Obj(vec![
                        key("index", Json::Int(0)),
                        key("message", message_hi()),
                        key("index", Json::Int(1)),
                    ])]),
                )
            } else {
                e
            }
        })
        .collect();
    assert_eq!(
        decode(&Json::Obj(es)),
        Err(DecodeError::DuplicateField("index".to_string()))
    );
}

#[test]
fn non_object_choice_element_is_rejected() {
    let es: Vec<(String, Json)> = base_doc_entries()
        .into_iter()
        .map(|e| if e.0 == "choices" { key("choices", Json::Arr(vec![Json::Int(1)])) } else { e })
        .collect();
    assert_eq!(
        decode(&Json::Obj(es)),
        Err(DecodeError::TypeMismatch {
            field: "choices".to_string(),
            expected_kind: ExpectedKind::Obj,
        })
    );
}

#[test]
fn unknown_key_inside_choice_is_ignored() {
    let es: Vec<(String, Json)> = base_doc_entries()
        .into_iter()
        .map(|e| {
            if e.0 == "choices" {
                key(
                    "choices",
                    Json::Arr(vec![Json::Obj(vec![
                        key("index", Json::Int(0)),
                        key("message", message_hi()),
                        key("delta_hint", jstr("x")),
                    ])]),
                )
            } else {
                e
            }
        })
        .collect();
    let r = decode(&Json::Obj(es)).expect("decodes");
    assert_eq!(r.choices.len(), 1);
    assert_eq!(r.choices[0].content_filter_results, None);
}

#[test]
fn null_optionals_read_as_absent() {
    let es: Vec<(String, Json)> = base_doc_entries()
        .into_iter()
        .map(|e| {
            if e.0 == "choices" {
                key(
                    "choices",
                    Json::Arr(vec![Json::Obj(vec![
                        key("index", Json::Int(0)),
                        key("message", message_hi()),
                        key("finish_reason", Json::Null),
                        key("logprobs", Json::Null),
                        key("content_filter_results", Json::Null),
                    ])]),
                )
            } else {
                e
            }
        })
        .collect();
    let mut top = es;
    top.push(key("service_tier", Json::Null));
    top.push(key("usage", Json::Null));
    top.push(key("prompt_filter_results", Json::Null));
    let r = decode(&Json::Obj(top)).expect("decodes");
    assert_eq!(r.choices[0].finish_reason, None);
    assert_eq!(r.choices[0].logprobs, None);
    assert_eq!(r.choices[0].content_filter_results, None);
    assert_eq!(r.service_tier, None);
    assert_eq!(r.usage, None);
    assert_eq!(r.prompt_filter_results, None);
}

#[test]
fn invalid_service_tier_literal_is_reported() {
    let mut es = base_doc_entries();
    es.push(key("service_tier", jstr("bronze")));
    assert_eq!(
        decode(&Json::Obj(es)),
        Err(DecodeError::TypeMismatch {
            field: "service_tier".to_string(),
            expected_kind: ExpectedKind::ServiceTierName,
        })
    );
}

#[test]
fn canonical_encoding_carries_every_recognized_field() {
    let doc = Json::Obj(base_doc_entries());
    let r = decode(&doc).expect("decodes");
    let e = encode(&r);
    let keys = obj_keys(&e);
    for k in [
        "id",
        "choices",
        "created",
        "model",
        "object",
        "service_tier",
        "system_fingerprint",
        "usage",
        "prompt_filter_results",
    ] {
        assert!(keys.contains(&k.to_string()), "missing {}", k);
    }
    assert_eq!(keys.len(), 9);
}

//! The dual-schema decoder and the Merged-Record serializer.
//!
//! `decode` walks one tokenized document, routes every recognized field to
//! its slot in the Merged Record, ignores unknown fields, rejects duplicate
//! keys, and validates the cardinality agreement between the base choice
//! list and the extension choice list. `encode` is its inverse: it flattens
//! a Merged Record back to the single-object wire shape. In the canonical
//! encoded form every recognized optional field is present, with `null`
//! standing for an absent value; the decoder treats `null` and absence
//! alike for all plain-optional fields.

use vstd::prelude::*;
use crate::errors::{opt_view, result_view, DecodeError, DecodeErrorV, ExpectedKind};
use crate::json::{
    first_dup, first_dup_key, find_key, json_view_entries, json_view_seq, lookup, str_eq_lit,
    Json, JsonV,
};
use crate::json::group_json_view;
use crate::types::chat::{ChatChoice as BaseChatChoice, ChatChoiceV as BaseChatChoiceV, CompletionUsage, FinishReason, ServiceTierResponse};
use crate::types::merged;
use crate::types::merged::{seq_view, CreateChatCompletionResponseV};
use crate::types::content_filtering::{
    BaseResults, ChoiceResults, ContentFilteringResults, ContentFilteringResultsV, DetectedResult,
    Error, ErrorV, PromptFilterResults, PromptFilterResultsV, PromptResults, Severity,
    SeverityResult,
};

verus! {

// ---------------------------------------------------------------------------
// Closed string sets
// ---------------------------------------------------------------------------

pub open spec fn sp_finish_reason_of(s: Seq<char>) -> Option<FinishReason> {
    if s == "stop"@ {
        Some(FinishReason::Stop)
    } else if s == "length"@ {
        Some(FinishReason::Length)
    } else if s == "tool_calls"@ {
        Some(FinishReason::ToolCalls)
    } else if s == "content_filter"@ {
        Some(FinishReason::ContentFilter)
    } else if s == "function_call"@ {
        Some(FinishReason::FunctionCall)
    } else {
        None
    }
}

pub open spec fn sp_finish_reason_name(f: FinishReason) -> Seq<char> {
    match f {
        FinishReason::Stop => "stop"@,
        FinishReason::Length => "length"@,
        FinishReason::ToolCalls => "tool_calls"@,
        FinishReason::ContentFilter => "content_filter"@,
        FinishReason::FunctionCall => "function_call"@,
    }
}

pub open spec fn sp_tier_of(s: Seq<char>) -> Option<ServiceTierResponse> {
    if s == "scale"@ {
        Some(ServiceTierResponse::Scale)
    } else if s == "default"@ {
        Some(ServiceTierResponse::Default)
    } else {
        None
    }
}

pub open spec fn sp_tier_name(t: ServiceTierResponse) -> Seq<char> {
    match t {
        ServiceTierResponse::Scale => "scale"@,
        ServiceTierResponse::Default => "default"@,
    }
}

pub open spec fn sp_severity_of(s: Seq<char>) -> Option<Severity> {
    if s == "safe"@ {
        Some(Severity::Safe)
    } else if s == "low"@ {
        Some(Severity::Low)
    } else if s == "medium"@ {
        Some(Severity::Medium)
    } else if s == "high"@ {
        Some(Severity::High)
    } else {
        None
    }
}

pub open spec fn sp_severity_name(s: Severity) -> Seq<char> {
    match s {
        Severity::Safe => "safe"@,
        Severity::Low => "low"@,
        Severity::Medium => "medium"@,
        Severity::High => "high"@,
    }
}

pub fn finish_reason_from_str(s: &String) -> (r: Option<FinishReason>)
    ensures
        r == sp_finish_reason_of(s@),
{
    if str_eq_lit(s, "stop") {
        Some(FinishReason::Stop)
    } else if str_eq_lit(s, "length") {
        Some(FinishReason::Length)
    } else if str_eq_lit(s, "tool_calls") {
        Some(FinishReason::ToolCalls)
    } else if str_eq_lit(s, "content_filter") {
        Some(FinishReason::ContentFilter)
    } else if str_eq_lit(s, "function_call") {
        Some(FinishReason::FunctionCall)
    } else {
        None
    }
}

pub fn finish_reason_name(f: &FinishReason) -> (r: String)
    ensures
        r@ == sp_finish_reason_name(*f),
{
    match f {
        FinishReason::Stop => "stop".to_owned(),
        FinishReason::Length => "length".to_owned(),
        FinishReason::ToolCalls => "tool_calls".to_owned(),
        FinishReason::ContentFilter => "content_filter".to_owned(),
        FinishReason::FunctionCall => "function_call".to_owned(),
    }
}

pub fn tier_from_str(s: &String) -> (r: Option<ServiceTierResponse>)
    ensures
        r == sp_tier_of(s@),
{
    if str_eq_lit(s, "scale") {
        Some(ServiceTierResponse::Scale)
    } else if str_eq_lit(s, "default") {
        Some(ServiceTierResponse::Default)
    } else {
        None
    }
}

pub fn tier_name(t: &ServiceTierResponse) -> (r: String)
    ensures
        r@ == sp_tier_name(*t),
{
    match t {
        ServiceTierResponse::Scale => "scale".to_owned(),
        ServiceTierResponse::Default => "default".to_owned(),
    }
}

pub fn severity_from_str(s: &String) -> (r: Option<Severity>)
    ensures
        r == sp_severity_of(s@),
{
    if str_eq_lit(s, "safe") {
        Some(Severity::Safe)
    } else if str_eq_lit(s, "low") {
        Some(Severity::Low)
    } else if str_eq_lit(s, "medium") {
        Some(Severity::Medium)
    } else if str_eq_lit(s, "high") {
        Some(Severity::High)
    } else {
        None
    }
}

pub fn severity_name(s: &Severity) -> (r: String)
    ensures
        r@ == sp_severity_name(*s),
{
    match s {
        Severity::Safe => "safe".to_owned(),
        Severity::Low => "low".to_owned(),
        Severity::Medium => "medium".to_owned(),
        Severity::High => "high".to_owned(),
    }
}

// ---------------------------------------------------------------------------
// Field extraction
// ---------------------------------------------------------------------------

pub open spec fn sp_req_str(es: Seq<(Seq<char>, JsonV)>, k: Seq<char>) -> Result<
    Seq<char>,
    DecodeErrorV,
> {
    match lookup(es, k) {
        None => Err(DecodeErrorV::MissingRequiredField(k)),
        Some(JsonV::Str(s)) => Ok(s),
        Some(_) => Err(DecodeErrorV::TypeMismatch { field: k, expected_kind: ExpectedKind::Str }),
    }
}

pub open spec fn sp_req_u32(es: Seq<(Seq<char>, JsonV)>, k: Seq<char>) -> Result<
    u32,
    DecodeErrorV,
> {
    match lookup(es, k) {
        None => Err(DecodeErrorV::MissingRequiredField(k)),
        Some(JsonV::Int(i)) => if 0 <= i <= u32::MAX {
            Ok(i as u32)
        } else {
            Err(DecodeErrorV::TypeMismatch { field: k, expected_kind: ExpectedKind::Int })
        },
        Some(_) => Err(DecodeErrorV::TypeMismatch { field: k, expected_kind: ExpectedKind::Int }),
    }
}

pub open spec fn sp_opt_str(es: Seq<(Seq<char>, JsonV)>, k: Seq<char>) -> Result<
    Option<Seq<char>>,
    DecodeErrorV,
> {
    match lookup(es, k) {
        None => Ok(None),
        Some(JsonV::Null) => Ok(None),
        Some(JsonV::Str(s)) => Ok(Some(s)),
        Some(_) => Err(DecodeErrorV::TypeMismatch { field: k, expected_kind: ExpectedKind::Str }),
    }
}

pub open spec fn sp_req_obj(es: Seq<(Seq<char>, JsonV)>, k: Seq<char>) -> Result<
    JsonV,
    DecodeErrorV,
> {
    match lookup(es, k) {
        None => Err(DecodeErrorV::MissingRequiredField(k)),
        Some(JsonV::Obj(o)) => Ok(JsonV::Obj(o)),
        Some(_) => Err(DecodeErrorV::TypeMismatch { field: k, expected_kind: ExpectedKind::Obj }),
    }
}

pub open spec fn sp_opt_obj(es: Seq<(Seq<char>, JsonV)>, k: Seq<char>) -> Result<
    Option<JsonV>,
    DecodeErrorV,
> {
    match lookup(es, k) {
        None => Ok(None),
        Some(JsonV::Null) => Ok(None),
        Some(JsonV::Obj(o)) => Ok(Some(JsonV::Obj(o))),
        Some(_) => Err(DecodeErrorV::TypeMismatch { field: k, expected_kind: ExpectedKind::Obj }),
    }
}

pub fn req_str(es: &Vec<(String, Json)>, k: &str) -> (r: Result<String, DecodeError>)
    ensures
        result_view(r) == sp_req_str(json_view_entries(es@), k@),
{
    match find_key(es, k) {
        None => Err(DecodeError::MissingRequiredField(k.to_owned())),
        Some(v) => match v {
            Json::Str(s) => Ok(s.clone()),
            _ => Err(DecodeError::TypeMismatch {
                field: k.to_owned(),
                expected_kind: ExpectedKind::Str,
            }),
        },
    }
}

pub fn req_u32(es: &Vec<(String, Json)>, k: &str) -> (r: Result<u32, DecodeError>)
    ensures
        result_view(r) == sp_req_u32(json_view_entries(es@), k@),
{
    match find_key(es, k) {
        None => Err(DecodeError::MissingRequiredField(k.to_owned())),
        Some(v) => match v {
            Json::Int(i) => if 0 <= *i && *i <= 0xffff_ffffi64 {
                Ok(*i as u32)
            } else {
                Err(DecodeError::TypeMismatch {
                    field: k.to_owned(),
                    expected_kind: ExpectedKind::Int,
                })
            },
            _ => Err(DecodeError::TypeMismatch {
                field: k.to_owned(),
                expected_kind: ExpectedKind::Int,
            }),
        },
    }
}

pub fn opt_str(es: &Vec<(String, Json)>, k: &str) -> (r: Result<Option<String>, DecodeError>)
    ensures
        match r {
            Ok(o) => sp_opt_str(json_view_entries(es@), k@) == Ok::<_, DecodeErrorV>(opt_view(o)),
            Err(e) => sp_opt_str(json_view_entries(es@), k@) == Err::<Option<Seq<char>>, _>(e@),
        },
{
    match find_key(es, k) {
        None => Ok(None),
        Some(v) => match v {
            Json::Null => Ok(None),
            Json::Str(s) => Ok(Some(s.clone())),
            _ => Err(DecodeError::TypeMismatch {
                field: k.to_owned(),
                expected_kind: ExpectedKind::Str,
            }),
        },
    }
}

pub fn req_obj(es: &Vec<(String, Json)>, k: &str) -> (r: Result<Json, DecodeError>)
    ensures
        result_view(r) == sp_req_obj(json_view_entries(es@), k@),
{
    match find_key(es, k) {
        None => Err(DecodeError::MissingRequiredField(k.to_owned())),
        Some(v) => match v {
            Json::Obj(_) => Ok(v.deep_clone()),
            _ => Err(DecodeError::TypeMismatch {
                field: k.to_owned(),
                expected_kind: ExpectedKind::Obj,
            }),
        },
    }
}

pub fn opt_obj(es: &Vec<(String, Json)>, k: &str) -> (r: Result<Option<Json>, DecodeError>)
    ensures
        match r {
            Ok(o) => sp_opt_obj(json_view_entries(es@), k@) == Ok::<_, DecodeErrorV>(opt_view(o)),
            Err(e) => sp_opt_obj(json_view_entries(es@), k@) == Err::<Option<JsonV>, _>(e@),
        },
{
    match find_key(es, k) {
        None => Ok(None),
        Some(v) => match v {
            Json::Null => Ok(None),
            Json::Obj(_) => Ok(Some(v.deep_clone())),
            _ => Err(DecodeError::TypeMismatch {
                field: k.to_owned(),
                expected_kind: ExpectedKind::Obj,
            }),
        },
    }
}

// ---------------------------------------------------------------------------
// The filtering-outcome union
// ---------------------------------------------------------------------------

/// The success shape of a severity category: an object holding only the
/// `filtered` flag (required) and an optional `severity` literal.
pub open spec fn sp_severity_result(j: JsonV) -> Option<SeverityResult> {
    match j {
        JsonV::Obj(es) => if first_dup(es) is None && (forall|i: int|
            0 <= i < es.len() ==> (#[trigger] es[i]).0 == "filtered"@ || es[i].0 == "severity"@) {
            match lookup(es, "filtered"@) {
                Some(JsonV::Bool(f)) => match lookup(es, "severity"@) {
                    None => Some(SeverityResult { filtered: f, severity: None }),
                    Some(JsonV::Null) => Some(SeverityResult { filtered: f, severity: None }),
                    Some(JsonV::Str(s)) => match sp_severity_of(s) {
                        Some(sv) => Some(SeverityResult { filtered: f, severity: Some(sv) }),
                        None => None,
                    },
                    Some(_) => None,
                },
                _ => None,
            }
        } else {
            None
        },
        _ => None,
    }
}

/// The success shape of a detection category: an object holding exactly the
/// `filtered` and `detected` flags.
pub open spec fn sp_detected_result(j: JsonV) -> Option<DetectedResult> {
    match j {
        JsonV::Obj(es) => if first_dup(es) is None && (forall|i: int|
            0 <= i < es.len() ==> (#[trigger] es[i]).0 == "filtered"@ || es[i].0 == "detected"@) {
            match (lookup(es, "filtered"@), lookup(es, "detected"@)) {
                (Some(JsonV::Bool(f)), Some(JsonV::Bool(d))) => Some(
                    DetectedResult { filtered: f, detected: d },
                ),
                _ => None,
            }
        } else {
            None
        },
        _ => None,
    }
}

/// The failure shape of the filtering-outcome union: an object holding
/// exactly a `code` string and a `message` string.
pub open spec fn sp_error_shape(j: JsonV) -> Option<ErrorV> {
    match j {
        JsonV::Obj(es) => if first_dup(es) is None && (forall|i: int|
            0 <= i < es.len() ==> (#[trigger] es[i]).0 == "code"@ || es[i].0 == "message"@) {
            match (lookup(es, "code"@), lookup(es, "message"@)) {
                (Some(JsonV::Str(c)), Some(JsonV::Str(m))) => Some(ErrorV { code: c, message: m }),
                _ => None,
            }
        } else {
            None
        },
        _ => None,
    }
}

/// One optional severity category inside a report object; `None` means the
/// category's value did not match the severity shape.
pub open spec fn sp_sev_cat(es: Seq<(Seq<char>, JsonV)>, k: Seq<char>) -> Option<
    Option<SeverityResult>,
> {
    match lookup(es, k) {
        None => Some(None),
        Some(JsonV::Null) => Some(None),
        Some(v) => match sp_severity_result(v) {
            Some(r) => Some(Some(r)),
            None => None,
        },
    }
}

/// One optional detection category inside a report object.
pub open spec fn sp_det_cat(es: Seq<(Seq<char>, JsonV)>, k: Seq<char>) -> Option<
    Option<DetectedResult>,
> {
    match lookup(es, k) {
        None => Some(None),
        Some(JsonV::Null) => Some(None),
        Some(v) => match sp_detected_result(v) {
            Some(r) => Some(Some(r)),
            None => None,
        },
    }
}

/// The categories shared by prompt-level and choice-level reports.
pub open spec fn sp_base_results(es: Seq<(Seq<char>, JsonV)>) -> Option<BaseResults> {
    match (
        sp_sev_cat(es, "sexual"@),
        sp_sev_cat(es, "violence"@),
        sp_sev_cat(es, "hate"@),
        sp_sev_cat(es, "self_harm"@),
        sp_det_cat(es, "profanity"@),
    ) {
        (Some(sexual), Some(violence), Some(hate), Some(self_harm), Some(profanity)) => Some(
            BaseResults { sexual, violence, hate, self_harm, profanity },
        ),
        _ => None,
    }
}

/// Whether `k` is a recognized choice-level report category.
pub open spec fn sp_is_choice_cat(k: Seq<char>) -> bool {
    k == "sexual"@ || k == "violence"@ || k == "hate"@ || k == "self_harm"@ || k == "profanity"@
        || k == "protected_material_text"@ || k == "protected_material_code"@
}

/// Whether `k` is a recognized prompt-level report category.
pub open spec fn sp_is_prompt_cat(k: Seq<char>) -> bool {
    k == "sexual"@ || k == "violence"@ || k == "hate"@ || k == "self_harm"@ || k == "profanity"@
        || k == "jailbreak"@
}

/// The success shape of a choice-level report: every key is a recognized
/// category, no key repeats, and every category value matches its shape.
pub open spec fn sp_choice_results(j: JsonV) -> Option<ChoiceResults> {
    match j {
        JsonV::Obj(es) => if first_dup(es) is None && (forall|i: int|
            0 <= i < es.len() ==> sp_is_choice_cat((#[trigger] es[i]).0)) {
            match (
                sp_base_results(es),
                sp_det_cat(es, "protected_material_text"@),
                sp_det_cat(es, "protected_material_code"@),
            ) {
                (Some(results), Some(t), Some(c)) => Some(
                    ChoiceResults {
                        results,
                        protected_material_text: t,
                        protected_material_code: c,
                    },
                ),
                _ => None,
            }
        } else {
            None
        },
        _ => None,
    }
}

/// The success shape of a prompt-level report.
pub open spec fn sp_prompt_results(j: JsonV) -> Option<PromptResults> {
    match j {
        JsonV::Obj(es) => if first_dup(es) is None && (forall|i: int|
            0 <= i < es.len() ==> sp_is_prompt_cat((#[trigger] es[i]).0)) {
            match (sp_base_results(es), sp_det_cat(es, "jailbreak"@)) {
                (Some(results), Some(jailbreak)) => Some(PromptResults { results, jailbreak }),
                _ => None,
            }
        } else {
            None
        },
        _ => None,
    }
}

/// The choice-level filtering outcome: the success shape is tried first,
/// then the failure shape; an object matching neither is unsupported.
pub open spec fn sp_cfr_choice(j: JsonV) -> Result<
    ContentFilteringResultsV<ChoiceResults>,
    DecodeErrorV,
> {
    if !(j is Obj) {
        Err(DecodeErrorV::TypeMismatch {
            field: "content_filter_results"@,
            expected_kind: ExpectedKind::Obj,
        })
    } else {
        match sp_choice_results(j) {
            Some(r) => Ok(ContentFilteringResultsV::Success(r)),
            None => match sp_error_shape(j) {
                Some(e) => Ok(ContentFilteringResultsV::Failure(e)),
                None => Err(DecodeErrorV::UnsupportedSchemaShape),
            },
        }
    }
}

/// The prompt-level filtering outcome.
pub open spec fn sp_cfr_prompt(j: JsonV) -> Result<
    ContentFilteringResultsV<PromptResults>,
    DecodeErrorV,
> {
    if !(j is Obj) {
        Err(DecodeErrorV::TypeMismatch {
            field: "content_filter_results"@,
            expected_kind: ExpectedKind::Obj,
        })
    } else {
        match sp_prompt_results(j) {
            Some(r) => Ok(ContentFilteringResultsV::Success(r)),
            None => match sp_error_shape(j) {
                Some(e) => Ok(ContentFilteringResultsV::Failure(e)),
                None => Err(DecodeErrorV::UnsupportedSchemaShape),
            },
        }
    }
}

/// Checks that every key of the object is one of two allowed names.
#[verifier::loop_isolation(false)]
fn keys_within2(es: &Vec<(String, Json)>, a: &str, b: &str) -> (r: bool)
    ensures
        r == (forall|i: int| 0 <= i < json_view_entries(es@).len() ==> (#[trigger] json_view_entries(
            es@,
        )[i]).0 == a@ || json_view_entries(es@)[i].0 == b@),
{
    broadcast use group_json_view;

    let mut i: usize = 0;
    while i < es.len()
        invariant
            i <= es.len(),
            forall|j: int| 0 <= j < i ==> (#[trigger] json_view_entries(es@)[j]).0 == a@
                || json_view_entries(es@)[j].0 == b@,
        decreases es.len() - i,
    {
        let e = &es[i];
        if !(str_eq_lit(&e.0, a) || str_eq_lit(&e.0, b)) {
            proof {
                assert(json_view_entries(es@)[i as int].0 == es@[i as int].0@);
            }
            return false;
        }
        i = i + 1;
    }
    true
}

/// Checks that every key of the object is a recognized choice category.
#[verifier::loop_isolation(false)]
fn keys_choice_cats(es: &Vec<(String, Json)>) -> (r: bool)
    ensures
        r == (forall|i: int| 0 <= i < json_view_entries(es@).len() ==> sp_is_choice_cat(
            (#[trigger] json_view_entries(es@)[i]).0,
        )),
{
    broadcast use group_json_view;

    let mut i: usize = 0;
    while i < es.len()
        invariant
            i <= es.len(),
            forall|j: int| 0 <= j < i ==> sp_is_choice_cat(
                (#[trigger] json_view_entries(es@)[j]).0,
            ),
        decreases es.len() - i,
    {
        let e = &es[i];
        if !(str_eq_lit(&e.0, "sexual") || str_eq_lit(&e.0, "violence") || str_eq_lit(&e.0, "hate")
            || str_eq_lit(&e.0, "self_harm") || str_eq_lit(&e.0, "profanity") || str_eq_lit(
            &e.0,
            "protected_material_text",
        ) || str_eq_lit(&e.0, "protected_material_code")) {
            proof {
                assert(json_view_entries(es@)[i as int].0 == es@[i as int].0@);
            }
            return false;
        }
        i = i + 1;
    }
    true
}

/// Checks that every key of the object is a recognized prompt category.
#[verifier::loop_isolation(false)]
fn keys_prompt_cats(es: &Vec<(String, Json)>) -> (r: bool)
    ensures
        r == (forall|i: int| 0 <= i < json_view_entries(es@).len() ==> sp_is_prompt_cat(
            (#[trigger] json_view_entries(es@)[i]).0,
        )),
{
    broadcast use group_json_view;

    let mut i: usize = 0;
    while i < es.len()
        invariant
            i <= es.len(),
            forall|j: int| 0 <= j < i ==> sp_is_prompt_cat(
                (#[trigger] json_view_entries(es@)[j]).0,
            ),
        decreases es.len() - i,
    {
        let e = &es[i];
        if !(str_eq_lit(&e.0, "sexual") || str_eq_lit(&e.0, "violence") || str_eq_lit(&e.0, "hate")
            || str_eq_lit(&e.0, "self_harm") || str_eq_lit(&e.0, "profanity") || str_eq_lit(
            &e.0,
            "jailbreak",
        )) {
            proof {
                assert(json_view_entries(es@)[i as int].0 == es@[i as int].0@);
            }
            return false;
        }
        i = i + 1;
    }
    true
}

fn severity_result(j: &Json) -> (r: Option<SeverityResult>)
    ensures
        r == sp_severity_result(j@),
{
    match j {
        Json::Obj(es) => {
            if first_dup_key(es).is_some() {
                return None;
            }
            if !keys_within2(es, "filtered", "severity") {
                return None;
            }
            match find_key(es, "filtered") {
                Some(Json::Bool(f)) => match find_key(es, "severity") {
                    None => Some(SeverityResult { filtered: *f, severity: None }),
                    Some(Json::Null) => Some(SeverityResult { filtered: *f, severity: None }),
                    Some(Json::Str(s)) => match severity_from_str(s) {
                        Some(sv) => Some(SeverityResult { filtered: *f, severity: Some(sv) }),
                        None => None,
                    },
                    Some(_) => None,
                },
                _ => None,
            }
        },
        _ => None,
    }
}

fn detected_result(j: &Json) -> (r: Option<DetectedResult>)
    ensures
        r == sp_detected_result(j@),
{
    match j {
        Json::Obj(es) => {
            if first_dup_key(es).is_some() {
                return None;
            }
            if !keys_within2(es, "filtered", "detected") {
                return None;
            }
            match (find_key(es, "filtered"), find_key(es, "detected")) {
                (Some(Json::Bool(f)), Some(Json::Bool(d))) => Some(
                    DetectedResult { filtered: *f, detected: *d },
                ),
                _ => None,
            }
        },
        _ => None,
    }
}

fn error_shape(j: &Json) -> (r: Option<Error>)
    ensures
        opt_view(r) == sp_error_shape(j@),
{
    match j {
        Json::Obj(es) => {
            if first_dup_key(es).is_some() {
                return None;
            }
            if !keys_within2(es, "code", "message") {
                return None;
            }
            match (find_key(es, "code"), find_key(es, "message")) {
                (Some(Json::Str(c)), Some(Json::Str(m))) => Some(
                    Error { code: c.clone(), message: m.clone() },
                ),
                _ => None,
            }
        },
        _ => None,
    }
}

fn sev_cat(es: &Vec<(String, Json)>, k: &str) -> (r: Option<Option<SeverityResult>>)
    ensures
        r == sp_sev_cat(json_view_entries(es@), k@),
{
    match find_key(es, k) {
        None => Some(None),
        Some(Json::Null) => Some(None),
        Some(v) => match severity_result(v) {
            Some(sr) => Some(Some(sr)),
            None => None,
        },
    }
}

fn det_cat(es: &Vec<(String, Json)>, k: &str) -> (r: Option<Option<DetectedResult>>)
    ensures
        r == sp_det_cat(json_view_entries(es@), k@),
{
    match find_key(es, k) {
        None => Some(None),
        Some(Json::Null) => Some(None),
        Some(v) => match detected_result(v) {
            Some(dr) => Some(Some(dr)),
            None => None,
        },
    }
}

fn base_results(es: &Vec<(String, Json)>) -> (r: Option<BaseResults>)
    ensures
        r == sp_base_results(json_view_entries(es@)),
{
    match (
        sev_cat(es, "sexual"),
        sev_cat(es, "violence"),
        sev_cat(es, "hate"),
        sev_cat(es, "self_harm"),
        det_cat(es, "profanity"),
    ) {
        (Some(sexual), Some(violence), Some(hate), Some(self_harm), Some(profanity)) => Some(
            BaseResults { sexual, violence, hate, self_harm, profanity },
        ),
        _ => None,
    }
}

fn choice_results(j: &Json) -> (r: Option<ChoiceResults>)
    ensures
        r == sp_choice_results(j@),
{
    match j {
        Json::Obj(es) => {
            if first_dup_key(es).is_some() {
                return None;
            }
            if !keys_choice_cats(es) {
                return None;
            }
            match (
                base_results(es),
                det_cat(es, "protected_material_text"),
                det_cat(es, "protected_material_code"),
            ) {
                (Some(results), Some(t), Some(c)) => Some(
                    ChoiceResults {
                        results,
                        protected_material_text: t,
                        protected_material_code: c,
                    },
                ),
                _ => None,
            }
        },
        _ => None,
    }
}

fn prompt_results(j: &Json) -> (r: Option<PromptResults>)
    ensures
        r == sp_prompt_results(j@),
{
    match j {
        Json::Obj(es) => {
            if first_dup_key(es).is_some() {
                return None;
            }
            if !keys_prompt_cats(es) {
                return None;
            }
            match (base_results(es), det_cat(es, "jailbreak")) {
                (Some(results), Some(jailbreak)) => Some(PromptResults { results, jailbreak }),
                _ => None,
            }
        },
        _ => None,
    }
}

fn cfr_choice(j: &Json) -> (r: Result<ContentFilteringResults<ChoiceResults>, DecodeError>)
    ensures
        result_view(r) == sp_cfr_choice(j@),
{
    match j {
        Json::Obj(_) => match choice_results(j) {
            Some(cr) => Ok(ContentFilteringResults::Success(cr)),
            None => match error_shape(j) {
                Some(e) => Ok(ContentFilteringResults::Failure(e)),
                None => Err(DecodeError::UnsupportedSchemaShape),
            },
        },
        _ => Err(DecodeError::TypeMismatch {
            field: "content_filter_results".to_owned(),
            expected_kind: ExpectedKind::Obj,
        }),
    }
}

fn cfr_prompt(j: &Json) -> (r: Result<ContentFilteringResults<PromptResults>, DecodeError>)
    ensures
        result_view(r) == sp_cfr_prompt(j@),
{
    match j {
        Json::Obj(_) => match prompt_results(j) {
            Some(pr) => Ok(ContentFilteringResults::Success(pr)),
            None => match error_shape(j) {
                Some(e) => Ok(ContentFilteringResults::Failure(e)),
                None => Err(DecodeError::UnsupportedSchemaShape),
            },
        },
        _ => Err(DecodeError::TypeMismatch {
            field: "content_filter_results".to_owned(),
            expected_kind: ExpectedKind::Obj,
        }),
    }
}


// ---------------------------------------------------------------------------
// Choice decoding and the Collection Zipper
// ---------------------------------------------------------------------------

/// Optional `finish_reason` of a choice object.
pub open spec fn sp_opt_finish_reason(es: Seq<(Seq<char>, JsonV)>) -> Result<
    Option<FinishReason>,
    DecodeErrorV,
> {
    match lookup(es, "finish_reason"@) {
        None => Ok(None),
        Some(JsonV::Null) => Ok(None),
        Some(JsonV::Str(s)) => match sp_finish_reason_of(s) {
            Some(f) => Ok(Some(f)),
            None => Err(DecodeErrorV::TypeMismatch {
                field: "finish_reason"@,
                expected_kind: ExpectedKind::FinishReasonName,
            }),
        },
        Some(_) => Err(DecodeErrorV::TypeMismatch {
            field: "finish_reason"@,
            expected_kind: ExpectedKind::Str,
        }),
    }
}

/// Optional `service_tier` of the top-level object.
pub open spec fn sp_opt_service_tier(es: Seq<(Seq<char>, JsonV)>) -> Result<
    Option<ServiceTierResponse>,
    DecodeErrorV,
> {
    match lookup(es, "service_tier"@) {
        None => Ok(None),
        Some(JsonV::Null) => Ok(None),
        Some(JsonV::Str(s)) => match sp_tier_of(s) {
            Some(t) => Ok(Some(t)),
            None => Err(DecodeErrorV::TypeMismatch {
                field: "service_tier"@,
                expected_kind: ExpectedKind::ServiceTierName,
            }),
        },
        Some(_) => Err(DecodeErrorV::TypeMismatch {
            field: "service_tier"@,
            expected_kind: ExpectedKind::Str,
        }),
    }
}

/// Optional `content_filter_results` of a choice object.
pub open spec fn sp_opt_cfr_choice(es: Seq<(Seq<char>, JsonV)>) -> Result<
    Option<ContentFilteringResultsV<ChoiceResults>>,
    DecodeErrorV,
> {
    match lookup(es, "content_filter_results"@) {
        None => Ok(None),
        Some(JsonV::Null) => Ok(None),
        Some(v) => match sp_cfr_choice(v) {
            Ok(c) => Ok(Some(c)),
            Err(e) => Err(e),
        },
    }
}

/// Optional `usage` of the top-level object.
pub open spec fn sp_usage(es: Seq<(Seq<char>, JsonV)>) -> Result<
    Option<CompletionUsage>,
    DecodeErrorV,
> {
    match lookup(es, "usage"@) {
        None => Ok(None),
        Some(JsonV::Null) => Ok(None),
        Some(JsonV::Obj(ues)) => match first_dup(ues) {
            Some(k) => Err(DecodeErrorV::DuplicateField(k)),
            None => match sp_req_u32(ues, "prompt_tokens"@) {
                Err(e) => Err(e),
                Ok(prompt_tokens) => match sp_req_u32(ues, "completion_tokens"@) {
                    Err(e) => Err(e),
                    Ok(completion_tokens) => match sp_req_u32(ues, "total_tokens"@) {
                        Err(e) => Err(e),
                        Ok(total_tokens) => Ok(
                            Some(CompletionUsage { prompt_tokens, completion_tokens, total_tokens }),
                        ),
                    },
                },
            },
        },
        Some(_) => Err(DecodeErrorV::TypeMismatch {
            field: "usage"@,
            expected_kind: ExpectedKind::Obj,
        }),
    }
}

/// One element of the choices array: base fields and the optional extension
/// field, decoded from the same nested object.
pub open spec fn sp_choice(j: JsonV) -> Result<
    (BaseChatChoiceV, Option<ContentFilteringResultsV<ChoiceResults>>),
    DecodeErrorV,
> {
    match j {
        JsonV::Obj(es) => match first_dup(es) {
            Some(k) => Err(DecodeErrorV::DuplicateField(k)),
            None => match sp_req_u32(es, "index"@) {
                Err(e) => Err(e),
                Ok(index) => match sp_req_obj(es, "message"@) {
                    Err(e) => Err(e),
                    Ok(message) => match sp_opt_finish_reason(es) {
                        Err(e) => Err(e),
                        Ok(finish_reason) => match sp_opt_obj(es, "logprobs"@) {
                            Err(e) => Err(e),
                            Ok(logprobs) => match sp_opt_cfr_choice(es) {
                                Err(e) => Err(e),
                                Ok(cfr) => Ok(
                                    (
                                        BaseChatChoiceV { index, message, finish_reason, logprobs },
                                        cfr,
                                    ),
                                ),
                            },
                        },
                    },
                },
            },
        },
        _ => Err(DecodeErrorV::TypeMismatch {
            field: "choices"@,
            expected_kind: ExpectedKind::Obj,
        }),
    }
}

/// The pair decoded from choice element `i`, on the branch where it decodes.
pub open spec fn sp_choice_ok(j: JsonV) -> (
    BaseChatChoiceV,
    Option<ContentFilteringResultsV<ChoiceResults>>,
) {
    match sp_choice(j) {
        Ok(p) => p,
        Err(_) => arbitrary(),
    }
}

/// Decoding of the choices array from element `i` on: the first failing
/// element decides the error.
pub open spec fn sp_choices_from(a: Seq<JsonV>, i: int) -> Result<
    Seq<(BaseChatChoiceV, Option<ContentFilteringResultsV<ChoiceResults>>)>,
    DecodeErrorV,
>
    decreases a.len() - i,
{
    if i < 0 || i >= a.len() {
        Ok(Seq::empty())
    } else {
        match sp_choice(a[i]) {
            Err(e) => Err(e),
            Ok(c) => match sp_choices_from(a, i + 1) {
                Err(e) => Err(e),
                Ok(rest) => Ok(seq![c] + rest),
            },
        }
    }
}

/// The pairs decoded from the first `i` choice elements, all of which must
/// decode for this to be meaningful.
pub open spec fn sp_choice_prefix(a: Seq<JsonV>, i: int) -> Seq<
    (BaseChatChoiceV, Option<ContentFilteringResultsV<ChoiceResults>>),
> {
    Seq::new(i as nat, |j: int| sp_choice_ok(a[j]))
}

/// The base choice list: the first projection of the decoded pairs.
pub open spec fn sp_bases(
    ps: Seq<(BaseChatChoiceV, Option<ContentFilteringResultsV<ChoiceResults>>)>,
) -> Seq<BaseChatChoiceV> {
    Seq::new(ps.len(), |i: int| ps[i].0)
}

/// The extension choice list: the present extension entries, in order.
pub open spec fn sp_exts(
    ps: Seq<(BaseChatChoiceV, Option<ContentFilteringResultsV<ChoiceResults>>)>,
) -> Seq<ContentFilteringResultsV<ChoiceResults>>
    decreases ps.len(),
{
    if ps.len() == 0 {
        Seq::empty()
    } else {
        sp_exts(ps.drop_last()) + match ps.last().1 {
            Some(c) => seq![c],
            None => Seq::empty(),
        }
    }
}

/// One merged choice: the base fields with the extension slot filled.
pub open spec fn sp_merge_choice(
    b: BaseChatChoiceV,
    x: Option<ContentFilteringResultsV<ChoiceResults>>,
) -> merged::ChatChoiceV {
    merged::ChatChoiceV {
        index: b.index,
        message: b.message,
        finish_reason: b.finish_reason,
        logprobs: b.logprobs,
        content_filter_results: x,
    }
}

/// The Collection Zipper: pairs the base choice list with the extension
/// choice list element by element. An absent extension list yields merged
/// choices with empty extension slots; a present list of the wrong length
/// is a cardinality mismatch, never silently tolerated.
pub open spec fn sp_zip(
    bases: Seq<BaseChatChoiceV>,
    exts: Option<Seq<ContentFilteringResultsV<ChoiceResults>>>,
) -> Result<Seq<merged::ChatChoiceV>, DecodeErrorV> {
    match exts {
        None => Ok(Seq::new(bases.len(), |i: int| sp_merge_choice(bases[i], None))),
        Some(e) => if e.len() != bases.len() {
            Err(DecodeErrorV::CardinalityMismatch {
                base_len: bases.len() as int,
                extension_len: e.len() as int,
            })
        } else {
            Ok(Seq::new(bases.len(), |i: int| sp_merge_choice(bases[i], Some(e[i]))))
        },
    }
}

/// Decoding of the whole choices array: decode every element, split base
/// and extension views, and zip them back together.
pub open spec fn sp_decode_choices(a: Seq<JsonV>) -> Result<
    Seq<merged::ChatChoiceV>,
    DecodeErrorV,
> {
    match sp_choices_from(a, 0) {
        Err(e) => Err(e),
        Ok(ps) => if sp_exts(ps).len() == 0 {
            sp_zip(sp_bases(ps), None)
        } else {
            sp_zip(sp_bases(ps), Some(sp_exts(ps)))
        },
    }
}

proof fn lemma_choices_prefix(a: Seq<JsonV>, i: int)
    requires
        0 <= i <= a.len(),
        forall|j: int| 0 <= j < i ==> sp_choice(#[trigger] a[j]) is Ok,
    ensures
        sp_choices_from(a, i) is Ok ==> sp_choices_from(a, 0) == Ok::<_, DecodeErrorV>(
            sp_choice_prefix(a, i) + match sp_choices_from(a, i) {
                Ok(rest) => rest,
                Err(_) => arbitrary(),
            },
        ),
        sp_choices_from(a, i) is Err ==> sp_choices_from(a, 0) == sp_choices_from(a, i),
    decreases i,
{
    if i == 0 {
        if sp_choices_from(a, 0) is Ok {
            let rest = match sp_choices_from(a, 0) {
                Ok(rest) => rest,
                Err(_) => arbitrary(),
            };
            assert(sp_choice_prefix(a, 0) + rest =~= rest);
        }
    } else {
        lemma_choices_prefix(a, i - 1);
        assert(sp_choice(a[i - 1]) is Ok);
        match sp_choices_from(a, i) {
            Err(_) => {
            },
            Ok(rest) => {
                let c = sp_choice_ok(a[i - 1]);
                assert(sp_choices_from(a, i - 1) == Ok::<_, DecodeErrorV>(seq![c] + rest));
                assert(sp_choice_prefix(a, i - 1) + (seq![c] + rest) =~= sp_choice_prefix(a, i)
                    + rest);
            },
        }
    }
}

/// One element of the prompt-level filtering list.
pub open spec fn sp_pfr_elem(j: JsonV) -> Result<PromptFilterResultsV, DecodeErrorV> {
    match j {
        JsonV::Obj(es) => match first_dup(es) {
            Some(k) => Err(DecodeErrorV::DuplicateField(k)),
            None => match sp_req_u32(es, "prompt_index"@) {
                Err(e) => Err(e),
                Ok(prompt_index) => match lookup(es, "content_filter_results"@) {
                    None => Err(DecodeErrorV::MissingRequiredField("content_filter_results"@)),
                    Some(v) => match sp_cfr_prompt(v) {
                        Err(e) => Err(e),
                        Ok(content_filter_results) => Ok(
                            PromptFilterResultsV { prompt_index, content_filter_results },
                        ),
                    },
                },
            },
        },
        _ => Err(DecodeErrorV::TypeMismatch {
            field: "prompt_filter_results"@,
            expected_kind: ExpectedKind::Obj,
        }),
    }
}

pub open spec fn sp_pfr_ok(j: JsonV) -> PromptFilterResultsV {
    match sp_pfr_elem(j) {
        Ok(p) => p,
        Err(_) => arbitrary(),
    }
}

pub open spec fn sp_pfr_from(a: Seq<JsonV>, i: int) -> Result<
    Seq<PromptFilterResultsV>,
    DecodeErrorV,
>
    decreases a.len() - i,
{
    if i < 0 || i >= a.len() {
        Ok(Seq::empty())
    } else {
        match sp_pfr_elem(a[i]) {
            Err(e) => Err(e),
            Ok(p) => match sp_pfr_from(a, i + 1) {
                Err(e) => Err(e),
                Ok(rest) => Ok(seq![p] + rest),
            },
        }
    }
}

pub open spec fn sp_pfr_prefix(a: Seq<JsonV>, i: int) -> Seq<PromptFilterResultsV> {
    Seq::new(i as nat, |j: int| sp_pfr_ok(a[j]))
}

proof fn lemma_pfr_prefix(a: Seq<JsonV>, i: int)
    requires
        0 <= i <= a.len(),
        forall|j: int| 0 <= j < i ==> sp_pfr_elem(#[trigger] a[j]) is Ok,
    ensures
        sp_pfr_from(a, i) is Ok ==> sp_pfr_from(a, 0) == Ok::<_, DecodeErrorV>(
            sp_pfr_prefix(a, i) + match sp_pfr_from(a, i) {
                Ok(rest) => rest,
                Err(_) => arbitrary(),
            },
        ),
        sp_pfr_from(a, i) is Err ==> sp_pfr_from(a, 0) == sp_pfr_from(a, i),
    decreases i,
{
    if i == 0 {
        if sp_pfr_from(a, 0) is Ok {
            let rest = match sp_pfr_from(a, 0) {
                Ok(rest) => rest,
                Err(_) => arbitrary(),
            };
            assert(sp_pfr_prefix(a, 0) + rest =~= rest);
        }
    } else {
        lemma_pfr_prefix(a, i - 1);
        assert(sp_pfr_elem(a[i - 1]) is Ok);
        match sp_pfr_from(a, i) {
            Err(_) => {
            },
            Ok(rest) => {
                let p = sp_pfr_ok(a[i - 1]);
                assert(sp_pfr_from(a, i - 1) == Ok::<_, DecodeErrorV>(seq![p] + rest));
                assert(sp_pfr_prefix(a, i - 1) + (seq![p] + rest) =~= sp_pfr_prefix(a, i) + rest);
            },
        }
    }
}

/// Optional `prompt_filter_results` of the top-level object.
pub open spec fn sp_opt_pfr(es: Seq<(Seq<char>, JsonV)>) -> Result<
    Option<Seq<PromptFilterResultsV>>,
    DecodeErrorV,
> {
    match lookup(es, "prompt_filter_results"@) {
        None => Ok(None),
        Some(JsonV::Null) => Ok(None),
        Some(JsonV::Arr(a)) => match sp_pfr_from(a, 0) {
            Err(e) => Err(e),
            Ok(s) => Ok(Some(s)),
        },
        Some(_) => Err(DecodeErrorV::TypeMismatch {
            field: "prompt_filter_results"@,
            expected_kind: ExpectedKind::Arr,
        }),
    }
}

/// The Dual-Schema Decoder over a tokenized document: one walk of the
/// top-level object, routing every recognized field, ignoring unknown
/// fields, and rejecting duplicate keys; required fields are `id`,
/// `choices`, `created`, `model` and `object`. The root is reported as
/// field `$` when the document is not an object.
pub open spec fn sp_decode(d: JsonV) -> Result<CreateChatCompletionResponseV, DecodeErrorV> {
    match d {
        JsonV::Obj(es) => match first_dup(es) {
            Some(k) => Err(DecodeErrorV::DuplicateField(k)),
            None => match sp_req_str(es, "id"@) {
                Err(e) => Err(e),
                Ok(id) => match lookup(es, "choices"@) {
                    None => Err(DecodeErrorV::MissingRequiredField("choices"@)),
                    Some(JsonV::Arr(a)) => match sp_decode_choices(a) {
                        Err(e) => Err(e),
                        Ok(choices) => match sp_req_u32(es, "created"@) {
                            Err(e) => Err(e),
                            Ok(created) => match sp_req_str(es, "model"@) {
                                Err(e) => Err(e),
                                Ok(model) => match sp_req_str(es, "object"@) {
                                    Err(e) => Err(e),
                                    Ok(object) => match sp_opt_service_tier(es) {
                                        Err(e) => Err(e),
                                        Ok(service_tier) => match sp_opt_str(
                                            es,
                                            "system_fingerprint"@,
                                        ) {
                                            Err(e) => Err(e),
                                            Ok(system_fingerprint) => match sp_usage(es) {
                                                Err(e) => Err(e),
                                                Ok(usage) => match sp_opt_pfr(es) {
                                                    Err(e) => Err(e),
                                                    Ok(prompt_filter_results) => Ok(
                                                        CreateChatCompletionResponseV {
                                                            id,
                                                            choices,
                                                            created,
                                                            model,
                                                            service_tier,
                                                            system_fingerprint,
                                                            object,
                                                            usage,
                                                            prompt_filter_results,
                                                        },
                                                    ),
                                                },
                                            },
                                        },
                                    },
                                },
                            },
                        },
                    },
                    Some(_) => Err(DecodeErrorV::TypeMismatch {
                        field: "choices"@,
                        expected_kind: ExpectedKind::Arr,
                    }),
                },
            },
        },
        _ => Err(DecodeErrorV::TypeMismatch { field: "$"@, expected_kind: ExpectedKind::Obj }),
    }
}


fn opt_finish_reason(es: &Vec<(String, Json)>) -> (r: Result<Option<FinishReason>, DecodeError>)
    ensures
        match r {
            Ok(o) => sp_opt_finish_reason(json_view_entries(es@)) == Ok::<_, DecodeErrorV>(o),
            Err(e) => sp_opt_finish_reason(json_view_entries(es@)) == Err::<
                Option<FinishReason>,
                _,
            >(e@),
        },
{
    match find_key(es, "finish_reason") {
        None => Ok(None),
        Some(Json::Null) => Ok(None),
        Some(Json::Str(s)) => match finish_reason_from_str(s) {
            Some(f) => Ok(Some(f)),
            None => Err(DecodeError::TypeMismatch {
                field: "finish_reason".to_owned(),
                expected_kind: ExpectedKind::FinishReasonName,
            }),
        },
        Some(_) => Err(DecodeError::TypeMismatch {
            field: "finish_reason".to_owned(),
            expected_kind: ExpectedKind::Str,
        }),
    }
}

fn opt_service_tier(es: &Vec<(String, Json)>) -> (r: Result<
    Option<ServiceTierResponse>,
    DecodeError,
>)
    ensures
        match r {
            Ok(o) => sp_opt_service_tier(json_view_entries(es@)) == Ok::<_, DecodeErrorV>(o),
            Err(e) => sp_opt_service_tier(json_view_entries(es@)) == Err::<
                Option<ServiceTierResponse>,
                _,
            >(e@),
        },
{
    match find_key(es, "service_tier") {
        None => Ok(None),
        Some(Json::Null) => Ok(None),
        Some(Json::Str(s)) => match tier_from_str(s) {
            Some(t) => Ok(Some(t)),
            None => Err(DecodeError::TypeMismatch {
                field: "service_tier".to_owned(),
                expected_kind: ExpectedKind::ServiceTierName,
            }),
        },
        Some(_) => Err(DecodeError::TypeMismatch {
            field: "service_tier".to_owned(),
            expected_kind: ExpectedKind::Str,
        }),
    }
}

fn opt_cfr_choice(es: &Vec<(String, Json)>) -> (r: Result<
    Option<ContentFilteringResults<ChoiceResults>>,
    DecodeError,
>)
    ensures
        match r {
            Ok(o) => sp_opt_cfr_choice(json_view_entries(es@)) == Ok::<_, DecodeErrorV>(
                opt_view(o),
            ),
            Err(e) => sp_opt_cfr_choice(json_view_entries(es@)) == Err::<
                Option<ContentFilteringResultsV<ChoiceResults>>,
                _,
            >(e@),
        },
{
    match find_key(es, "content_filter_results") {
        None => Ok(None),
        Some(Json::Null) => Ok(None),
        Some(v) => match cfr_choice(v) {
            Ok(c) => Ok(Some(c)),
            Err(e) => Err(e),
        },
    }
}

fn usage_field(es: &Vec<(String, Json)>) -> (r: Result<Option<CompletionUsage>, DecodeError>)
    ensures
        match r {
            Ok(o) => sp_usage(json_view_entries(es@)) == Ok::<_, DecodeErrorV>(o),
            Err(e) => sp_usage(json_view_entries(es@)) == Err::<Option<CompletionUsage>, _>(e@),
        },
{
    match find_key(es, "usage") {
        None => Ok(None),
        Some(Json::Null) => Ok(None),
        Some(Json::Obj(ues)) => {
            match first_dup_key(ues) {
                Some(k) => {
                    return Err(DecodeError::DuplicateField(k));
                },
                None => {},
            }
            let prompt_tokens = match req_u32(ues, "prompt_tokens") {
                Ok(v) => v,
                Err(e) => {
                    return Err(e);
                },
            };
            let completion_tokens = match req_u32(ues, "completion_tokens") {
                Ok(v) => v,
                Err(e) => {
                    return Err(e);
                },
            };
            let total_tokens = match req_u32(ues, "total_tokens") {
                Ok(v) => v,
                Err(e) => {
                    return Err(e);
                },
            };
            Ok(Some(CompletionUsage { prompt_tokens, completion_tokens, total_tokens }))
        },
        Some(_) => Err(DecodeError::TypeMismatch {
            field: "usage".to_owned(),
            expected_kind: ExpectedKind::Obj,
        }),
    }
}

fn dec_choice(j: &Json) -> (r: Result<
    (BaseChatChoice, Option<ContentFilteringResults<ChoiceResults>>),
    DecodeError,
>)
    ensures
        match r {
            Ok(p) => sp_choice(j@) == Ok::<_, DecodeErrorV>((p.0@, opt_view(p.1))),
            Err(e) => sp_choice(j@) == Err::<
                (BaseChatChoiceV, Option<ContentFilteringResultsV<ChoiceResults>>),
                _,
            >(e@),
        },
{
    match j {
        Json::Obj(es) => {
            match first_dup_key(es) {
                Some(k) => {
                    return Err(DecodeError::DuplicateField(k));
                },
                None => {},
            }
            let index = match req_u32(es, "index") {
                Ok(v) => v,
                Err(e) => {
                    return Err(e);
                },
            };
            let message = match req_obj(es, "message") {
                Ok(v) => v,
                Err(e) => {
                    return Err(e);
                },
            };
            let finish_reason = match opt_finish_reason(es) {
                Ok(v) => v,
                Err(e) => {
                    return Err(e);
                },
            };
            let logprobs = match opt_obj(es, "logprobs") {
                Ok(v) => v,
                Err(e) => {
                    return Err(e);
                },
            };
            let cfr = match opt_cfr_choice(es) {
                Ok(v) => v,
                Err(e) => {
                    return Err(e);
                },
            };
            Ok((BaseChatChoice { index, message, finish_reason, logprobs }, cfr))
        },
        _ => Err(DecodeError::TypeMismatch {
            field: "choices".to_owned(),
            expected_kind: ExpectedKind::Obj,
        }),
    }
}

/// The Collection Zipper: pairs the base choice list with the extension
/// choice list element by element, validating their cardinality agreement.
#[verifier::loop_isolation(false)]
pub fn zip_choices(
    bases: Vec<BaseChatChoice>,
    exts: Option<Vec<ContentFilteringResults<ChoiceResults>>>,
) -> (r: Result<Vec<merged::ChatChoice>, DecodeError>)
    ensures
        match r {
            Ok(v) => sp_zip(
                seq_view(bases@),
                match exts {
                    Some(e) => Some(seq_view(e@)),
                    None => None,
                },
            ) == Ok::<_, DecodeErrorV>(seq_view(v@)),
            Err(err) => sp_zip(
                seq_view(bases@),
                match exts {
                    Some(e) => Some(seq_view(e@)),
                    None => None,
                },
            ) == Err::<Seq<merged::ChatChoiceV>, _>(err@),
        },
{
    let ghost b0 = seq_view(bases@);
    match exts {
        None => {
            let mut out: Vec<merged::ChatChoice> = Vec::new();
            let mut i: usize = 0;
            while i < bases.len()
                invariant
                    i <= bases.len(),
                    out@.len() == i as nat,
                    forall|jj: int| 0 <= jj < i ==> (#[trigger] out@[jj])@ == sp_merge_choice(
                        b0[jj],
                        None,
                    ),
                decreases bases.len() - i,
            {
                let b = &bases[i];
                out.push(
                    merged::ChatChoice {
                        index: b.index,
                        message: b.message.deep_clone(),
                        finish_reason: b.finish_reason,
                        logprobs: match &b.logprobs {
                            Some(l) => Some(l.deep_clone()),
                            None => None,
                        },
                        content_filter_results: None,
                    },
                );
                proof {
                    assert(out@[i as int]@ =~~= sp_merge_choice(b0[i as int], None));
                }
                i = i + 1;
            }
            proof {
                assert(seq_view(out@) =~= Seq::new(
                    b0.len(),
                    |k: int| sp_merge_choice(b0[k], None),
                ));
            }
            Ok(out)
        },
        Some(mut e) => {
            if e.len() != bases.len() {
                return Err(DecodeError::CardinalityMismatch {
                    base_len: bases.len(),
                    extension_len: e.len(),
                });
            }
            let ghost x0 = seq_view(e@);
            let mut out: Vec<merged::ChatChoice> = Vec::new();
            let mut i: usize = 0;
            while i < bases.len()
                invariant
                    i <= bases.len(),
                    out@.len() == i as nat,
                    e@.len() == bases@.len() - i,
                    forall|jj: int| 0 <= jj < e@.len() ==> (#[trigger] e@[jj])@ == x0[i + jj],
                    forall|jj: int| 0 <= jj < i ==> (#[trigger] out@[jj])@ == sp_merge_choice(
                        b0[jj],
                        Some(x0[jj]),
                    ),
                decreases bases.len() - i,
            {
                let x = e.remove(0);
                let b = &bases[i];
                out.push(
                    merged::ChatChoice {
                        index: b.index,
                        message: b.message.deep_clone(),
                        finish_reason: b.finish_reason,
                        logprobs: match &b.logprobs {
                            Some(l) => Some(l.deep_clone()),
                            None => None,
                        },
                        content_filter_results: Some(x),
                    },
                );
                proof {
                    assert(out@[i as int]@ =~~= sp_merge_choice(b0[i as int], Some(x0[i as int])));
                }
                i = i + 1;
            }
            proof {
                assert(seq_view(out@) =~= Seq::new(
                    b0.len(),
                    |k: int| sp_merge_choice(b0[k], Some(x0[k])),
                ));
            }
            Ok(out)
        },
    }
}

/// Decodes the choices array: every element is decoded once, the base and
/// extension views are split apart, and the zipper splices them together.
#[verifier::loop_isolation(false)]
fn decode_choices(a: &Vec<Json>) -> (r: Result<Vec<merged::ChatChoice>, DecodeError>)
    ensures
        match r {
            Ok(v) => sp_decode_choices(json_view_seq(a@)) == Ok::<_, DecodeErrorV>(seq_view(v@)),
            Err(e) => sp_decode_choices(json_view_seq(a@)) == Err::<Seq<merged::ChatChoiceV>, _>(
                e@,
            ),
        },
{
    broadcast use crate::json::group_json_view;

    let ghost av = json_view_seq(a@);
    let mut bases: Vec<BaseChatChoice> = Vec::new();
    let mut exts: Vec<ContentFilteringResults<ChoiceResults>> = Vec::new();
    let mut i: usize = 0;
    while i < a.len()
        invariant
            i <= a.len(),
            forall|j: int| 0 <= j < i ==> sp_choice(#[trigger] av[j]) is Ok,
            bases@.len() == i as nat,
            forall|j: int| 0 <= j < i ==> bases@[j]@ == sp_choice_ok(#[trigger] av[j]).0,
            seq_view(exts@) == sp_exts(sp_choice_prefix(av, i as int)),
        decreases a.len() - i,
    {
        match dec_choice(&a[i]) {
            Err(e) => {
                proof {
                    lemma_choices_prefix(av, i as int);
                }
                return Err(e);
            },
            Ok(p) => {
                let (b, x) = p;
                let ghost pair = (b@, opt_view(x));
                proof {
                    crate::json::lemma_json_view_seq_index(a@, i as int);
                    assert(av[i as int] == a@[i as int]@);
                    assert(sp_choice(av[i as int]) == Ok::<_, DecodeErrorV>(pair));
                    assert(sp_choice_prefix(av, i + 1).drop_last() =~= sp_choice_prefix(
                        av,
                        i as int,
                    ));
                    assert(sp_choice_prefix(av, i + 1).last() == pair);
                    assert(sp_exts(sp_choice_prefix(av, i + 1)) == sp_exts(
                        sp_choice_prefix(av, i as int),
                    ) + (match pair.1 {
                        Some(c) => seq![c],
                        None => Seq::empty(),
                    }));
                }
                bases.push(b);
                let ghost oe = exts@;
                match x {
                    Some(c) => {
                        let ghost cv = c@;
                        exts.push(c);
                        proof {
                            assert(seq_view(exts@) =~= seq_view(oe) + seq![cv]);
                            assert(seq_view(exts@) =~= sp_exts(sp_choice_prefix(av, i + 1)));
                        }
                    },
                    None => {
                        proof {
                            assert(seq_view(exts@) =~= sp_exts(sp_choice_prefix(av, i + 1)));
                        }
                    },
                }
                i = i + 1;
            },
        }
    }
    proof {
        lemma_choices_prefix(av, av.len() as int);
        assert(sp_choice_prefix(av, av.len() as int) + Seq::empty() =~= sp_choice_prefix(
            av,
            av.len() as int,
        ));
        assert(seq_view(bases@) =~= sp_bases(sp_choice_prefix(av, av.len() as int)));
    }
    if exts.len() == 0 {
        zip_choices(bases, None)
    } else {
        zip_choices(bases, Some(exts))
    }
}

fn dec_pfr_elem(j: &Json) -> (r: Result<PromptFilterResults, DecodeError>)
    ensures
        match r {
            Ok(p) => sp_pfr_elem(j@) == Ok::<_, DecodeErrorV>(p@),
            Err(e) => sp_pfr_elem(j@) == Err::<PromptFilterResultsV, _>(e@),
        },
{
    match j {
        Json::Obj(es) => {
            match first_dup_key(es) {
                Some(k) => {
                    return Err(DecodeError::DuplicateField(k));
                },
                None => {},
            }
            let prompt_index = match req_u32(es, "prompt_index") {
                Ok(v) => v,
                Err(e) => {
                    return Err(e);
                },
            };
            match find_key(es, "content_filter_results") {
                None => Err(DecodeError::MissingRequiredField(
                    "content_filter_results".to_owned(),
                )),
                Some(v) => match cfr_prompt(v) {
                    Ok(content_filter_results) => Ok(
                        PromptFilterResults { prompt_index, content_filter_results },
                    ),
                    Err(e) => Err(e),
                },
            }
        },
        _ => Err(DecodeError::TypeMismatch {
            field: "prompt_filter_results".to_owned(),
            expected_kind: ExpectedKind::Obj,
        }),
    }
}

#[verifier::loop_isolation(false)]
fn opt_pfr(es: &Vec<(String, Json)>) -> (r: Result<Option<Vec<PromptFilterResults>>, DecodeError>)
    ensures
        match r {
            Ok(o) => sp_opt_pfr(json_view_entries(es@)) == Ok::<_, DecodeErrorV>(
                match o {
                    Some(v) => Some(seq_view(v@)),
                    None => None,
                },
            ),
            Err(e) => sp_opt_pfr(json_view_entries(es@)) == Err::<
                Option<Seq<PromptFilterResultsV>>,
                _,
            >(e@),
        },
{
    broadcast use crate::json::group_json_view;

    match find_key(es, "prompt_filter_results") {
        None => Ok(None),
        Some(Json::Null) => Ok(None),
        Some(Json::Arr(a)) => {
            let ghost av = json_view_seq(a@);
            let mut out: Vec<PromptFilterResults> = Vec::new();
            let mut i: usize = 0;
            while i < a.len()
                invariant
                    i <= a.len(),
                    forall|j: int| 0 <= j < i ==> sp_pfr_elem(#[trigger] av[j]) is Ok,
                    out@.len() == i as nat,
                    forall|j: int| 0 <= j < i ==> out@[j]@ == sp_pfr_ok(#[trigger] av[j]),
                decreases a.len() - i,
            {
                match dec_pfr_elem(&a[i]) {
                    Err(e) => {
                        proof {
                            lemma_pfr_prefix(av, i as int);
                        }
                        return Err(e);
                    },
                    Ok(p) => {
                        let ghost pv = p@;
                        out.push(p);
                        proof {
                            crate::json::lemma_json_view_seq_index(a@, i as int);
                            assert(av[i as int] == a@[i as int]@);
                            assert(sp_pfr_elem(av[i as int]) == Ok::<_, DecodeErrorV>(pv));
                        }
                        i = i + 1;
                    },
                }
            }
            proof {
                lemma_pfr_prefix(av, av.len() as int);
                assert(sp_pfr_prefix(av, av.len() as int) + Seq::empty() =~= sp_pfr_prefix(
                    av,
                    av.len() as int,
                ));
                assert(seq_view(out@) =~= sp_pfr_prefix(av, av.len() as int));
            }
            Ok(Some(out))
        },
        Some(_) => Err(DecodeError::TypeMismatch {
            field: "prompt_filter_results".to_owned(),
            expected_kind: ExpectedKind::Arr,
        }),
    }
}

/// The Dual-Schema Decoder: decodes one tokenized document into a Merged
/// Record, or reports the first decode error. The whole behaviour is pinned
/// by [`sp_decode`].
pub fn decode(doc: &Json) -> (r: Result<merged::CreateChatCompletionResponse, DecodeError>)
    ensures
        match r {
            Ok(resp) => sp_decode(doc@) == Ok::<_, DecodeErrorV>(resp@),
            Err(e) => sp_decode(doc@) == Err::<CreateChatCompletionResponseV, _>(e@),
        },
{
    match doc {
        Json::Obj(es) => {
            match first_dup_key(es) {
                Some(k) => {
                    return Err(DecodeError::DuplicateField(k));
                },
                None => {},
            }
            let id = match req_str(es, "id") {
                Ok(v) => v,
                Err(e) => {
                    return Err(e);
                },
            };
            let choices = match find_key(es, "choices") {
                None => {
                    return Err(DecodeError::MissingRequiredField("choices".to_owned()));
                },
                Some(Json::Arr(a)) => match decode_choices(a) {
                    Ok(v) => v,
                    Err(e) => {
                        return Err(e);
                    },
                },
                Some(_) => {
                    return Err(DecodeError::TypeMismatch {
                        field: "choices".to_owned(),
                        expected_kind: ExpectedKind::Arr,
                    });
                },
            };
            let created = match req_u32(es, "created") {
                Ok(v) => v,
                Err(e) => {
                    return Err(e);
                },
            };
            let model = match req_str(es, "model") {
                Ok(v) => v,
                Err(e) => {
                    return Err(e);
                },
            };
            let object = match req_str(es, "object") {
                Ok(v) => v,
                Err(e) => {
                    return Err(e);
                },
            };
            let service_tier = match opt_service_tier(es) {
                Ok(v) => v,
                Err(e) => {
                    return Err(e);
                },
            };
            let system_fingerprint = match opt_str(es, "system_fingerprint") {
                Ok(v) => v,
                Err(e) => {
                    return Err(e);
                },
            };
            let usage = match usage_field(es) {
                Ok(v) => v,
                Err(e) => {
                    return Err(e);
                },
            };
            let prompt_filter_results = match opt_pfr(es) {
                Ok(v) => v,
                Err(e) => {
                    return Err(e);
                },
            };
            let resp = merged::CreateChatCompletionResponse {
                id,
                choices,
                created,
                model,
                service_tier,
                system_fingerprint,
                object,
                usage,
                prompt_filter_results,
            };
            proof {
                assert(sp_decode(doc@) is Ok);
                assert(resp@ =~~= match sp_decode(doc@) {
                    Ok(v) => v,
                    Err(_) => arbitrary(),
                });
            }
            Ok(resp)
        },
        _ => Err(DecodeError::TypeMismatch {
            field: "$".to_owned(),
            expected_kind: ExpectedKind::Obj,
        }),
    }
}


// ---------------------------------------------------------------------------
// The Merged-Record Serializer
// ---------------------------------------------------------------------------
//
// The canonical encoded form is a single flat object per nesting level, with
// every recognized field present and `null` standing for an absent optional
// value. Decoding treats `null` exactly as absence, so this form round-trips.

pub open spec fn sp_enc_opt_severity(o: Option<Severity>) -> JsonV {
    match o {
        None => JsonV::Null,
        Some(s) => JsonV::Str(sp_severity_name(s)),
    }
}

pub open spec fn sp_enc_sev_res(x: SeverityResult) -> JsonV {
    JsonV::Obj(
        seq![
            ("filtered"@, JsonV::Bool(x.filtered)),
            ("severity"@, sp_enc_opt_severity(x.severity)),
        ],
    )
}

pub open spec fn sp_enc_det_res(x: DetectedResult) -> JsonV {
    JsonV::Obj(
        seq![("filtered"@, JsonV::Bool(x.filtered)), ("detected"@, JsonV::Bool(x.detected))],
    )
}

pub open spec fn sp_enc_opt_sev(o: Option<SeverityResult>) -> JsonV {
    match o {
        None => JsonV::Null,
        Some(x) => sp_enc_sev_res(x),
    }
}

pub open spec fn sp_enc_opt_det(o: Option<DetectedResult>) -> JsonV {
    match o {
        None => JsonV::Null,
        Some(x) => sp_enc_det_res(x),
    }
}

pub open spec fn sp_enc_choice_results(c: ChoiceResults) -> JsonV {
    JsonV::Obj(
        seq![
            ("sexual"@, sp_enc_opt_sev(c.results.sexual)),
            ("violence"@, sp_enc_opt_sev(c.results.violence)),
            ("hate"@, sp_enc_opt_sev(c.results.hate)),
            ("self_harm"@, sp_enc_opt_sev(c.results.self_harm)),
            ("profanity"@, sp_enc_opt_det(c.results.profanity)),
            ("protected_material_text"@, sp_enc_opt_det(c.protected_material_text)),
            ("protected_material_code"@, sp_enc_opt_det(c.protected_material_code)),
        ],
    )
}

pub open spec fn sp_enc_prompt_results(p: PromptResults) -> JsonV {
    JsonV::Obj(
        seq![
            ("sexual"@, sp_enc_opt_sev(p.results.sexual)),
            ("violence"@, sp_enc_opt_sev(p.results.violence)),
            ("hate"@, sp_enc_opt_sev(p.results.hate)),
            ("self_harm"@, sp_enc_opt_sev(p.results.self_harm)),
            ("profanity"@, sp_enc_opt_det(p.results.profanity)),
            ("jailbreak"@, sp_enc_opt_det(p.jailbreak)),
        ],
    )
}

pub open spec fn sp_enc_error(e: ErrorV) -> JsonV {
    JsonV::Obj(seq![("code"@, JsonV::Str(e.code)), ("message"@, JsonV::Str(e.message))])
}

pub open spec fn sp_enc_cfr_choice(c: ContentFilteringResultsV<ChoiceResults>) -> JsonV {
    match c {
        ContentFilteringResultsV::Success(r) => sp_enc_choice_results(r),
        ContentFilteringResultsV::Failure(e) => sp_enc_error(e),
    }
}

pub open spec fn sp_enc_cfr_prompt(c: ContentFilteringResultsV<PromptResults>) -> JsonV {
    match c {
        ContentFilteringResultsV::Success(r) => sp_enc_prompt_results(r),
        ContentFilteringResultsV::Failure(e) => sp_enc_error(e),
    }
}

pub open spec fn sp_enc_usage(u: Option<CompletionUsage>) -> JsonV {
    match u {
        None => JsonV::Null,
        Some(u) => JsonV::Obj(
            seq![
                ("prompt_tokens"@, JsonV::Int(u.prompt_tokens as int)),
                ("completion_tokens"@, JsonV::Int(u.completion_tokens as int)),
                ("total_tokens"@, JsonV::Int(u.total_tokens as int)),
            ],
        ),
    }
}

pub open spec fn sp_enc_choice(c: merged::ChatChoiceV) -> JsonV {
    JsonV::Obj(
        seq![
            ("index"@, JsonV::Int(c.index as int)),
            ("message"@, c.message),
            (
                "finish_reason"@,
                match c.finish_reason {
                    None => JsonV::Null,
                    Some(f) => JsonV::Str(sp_finish_reason_name(f)),
                },
            ),
            (
                "logprobs"@,
                match c.logprobs {
                    None => JsonV::Null,
                    Some(l) => l,
                },
            ),
            (
                "content_filter_results"@,
                match c.content_filter_results {
                    None => JsonV::Null,
                    Some(x) => sp_enc_cfr_choice(x),
                },
            ),
        ],
    )
}

pub open spec fn sp_enc_pfr_elem(p: PromptFilterResultsV) -> JsonV {
    JsonV::Obj(
        seq![
            ("prompt_index"@, JsonV::Int(p.prompt_index as int)),
            ("content_filter_results"@, sp_enc_cfr_prompt(p.content_filter_results)),
        ],
    )
}

pub open spec fn sp_enc_pfr(o: Option<Seq<PromptFilterResultsV>>) -> JsonV {
    match o {
        None => JsonV::Null,
        Some(s) => JsonV::Arr(Seq::new(s.len(), |i: int| sp_enc_pfr_elem(s[i]))),
    }
}

pub open spec fn sp_enc_tier(o: Option<ServiceTierResponse>) -> JsonV {
    match o {
        None => JsonV::Null,
        Some(t) => JsonV::Str(sp_tier_name(t)),
    }
}

pub open spec fn sp_enc_opt_str(o: Option<Seq<char>>) -> JsonV {
    match o {
        None => JsonV::Null,
        Some(s) => JsonV::Str(s),
    }
}

/// The Merged-Record Serializer: one flat object, each choice's base and
/// extension fields merged into one object per choice, no wrapper keys.
pub open spec fn sp_encode(r: CreateChatCompletionResponseV) -> JsonV {
    JsonV::Obj(
        seq![
            ("id"@, JsonV::Str(r.id)),
            ("choices"@, JsonV::Arr(Seq::new(r.choices.len(), |i: int| sp_enc_choice(r.choices[i])))),
            ("created"@, JsonV::Int(r.created as int)),
            ("model"@, JsonV::Str(r.model)),
            ("object"@, JsonV::Str(r.object)),
            ("service_tier"@, sp_enc_tier(r.service_tier)),
            ("system_fingerprint"@, sp_enc_opt_str(r.system_fingerprint)),
            ("usage"@, sp_enc_usage(r.usage)),
            ("prompt_filter_results"@, sp_enc_pfr(r.prompt_filter_results)),
        ],
    )
}

fn enc_opt_severity(o: &Option<Severity>) -> (r: Json)
    ensures
        r@ == sp_enc_opt_severity(*o),
{
    match o {
        None => Json::Null,
        Some(s) => Json::Str(severity_name(s)),
    }
}

fn enc_sev_res(x: &SeverityResult) -> (r: Json)
    ensures
        r@ == sp_enc_sev_res(*x),
{
    broadcast use crate::json::group_json_view;

    let mut v: Vec<(String, Json)> = Vec::new();
    v.push(("filtered".to_owned(), Json::Bool(x.filtered)));
    v.push(("severity".to_owned(), enc_opt_severity(&x.severity)));
    proof {
        assert(json_view_entries(v@) =~= seq![
            ("filtered"@, JsonV::Bool(x.filtered)),
            ("severity"@, sp_enc_opt_severity(x.severity)),
        ]);
    }
    Json::Obj(v)
}

fn enc_det_res(x: &DetectedResult) -> (r: Json)
    ensures
        r@ == sp_enc_det_res(*x),
{
    broadcast use crate::json::group_json_view;

    let mut v: Vec<(String, Json)> = Vec::new();
    v.push(("filtered".to_owned(), Json::Bool(x.filtered)));
    v.push(("detected".to_owned(), Json::Bool(x.detected)));
    proof {
        assert(json_view_entries(v@) =~= seq![
            ("filtered"@, JsonV::Bool(x.filtered)),
            ("detected"@, JsonV::Bool(x.detected)),
        ]);
    }
    Json::Obj(v)
}

fn enc_opt_sev(o: &Option<SeverityResult>) -> (r: Json)
    ensures
        r@ == sp_enc_opt_sev(*o),
{
    match o {
        None => Json::Null,
        Some(x) => enc_sev_res(x),
    }
}

fn enc_opt_det(o: &Option<DetectedResult>) -> (r: Json)
    ensures
        r@ == sp_enc_opt_det(*o),
{
    match o {
        None => Json::Null,
        Some(x) => enc_det_res(x),
    }
}

fn enc_choice_results(c: &ChoiceResults) -> (r: Json)
    ensures
        r@ == sp_enc_choice_results(*c),
{
    broadcast use crate::json::group_json_view;

    let mut v: Vec<(String, Json)> = Vec::new();
    v.push(("sexual".to_owned(), enc_opt_sev(&c.results.sexual)));
    v.push(("violence".to_owned(), enc_opt_sev(&c.results.violence)));
    v.push(("hate".to_owned(), enc_opt_sev(&c.results.hate)));
    v.push(("self_harm".to_owned(), enc_opt_sev(&c.results.self_harm)));
    v.push(("profanity".to_owned(), enc_opt_det(&c.results.profanity)));
    v.push(("protected_material_text".to_owned(), enc_opt_det(&c.protected_material_text)));
    v.push(("protected_material_code".to_owned(), enc_opt_det(&c.protected_material_code)));
    proof {
        assert(json_view_entries(v@) =~= seq![
            ("sexual"@, sp_enc_opt_sev(c.results.sexual)),
            ("violence"@, sp_enc_opt_sev(c.results.violence)),
            ("hate"@, sp_enc_opt_sev(c.results.hate)),
            ("self_harm"@, sp_enc_opt_sev(c.results.self_harm)),
            ("profanity"@, sp_enc_opt_det(c.results.profanity)),
            ("protected_material_text"@, sp_enc_opt_det(c.protected_material_text)),
            ("protected_material_code"@, sp_enc_opt_det(c.protected_material_code)),
        ]);
    }
    Json::Obj(v)
}

fn enc_prompt_results(p: &PromptResults) -> (r: Json)
    ensures
        r@ == sp_enc_prompt_results(*p),
{
    broadcast use crate::json::group_json_view;

    let mut v: Vec<(String, Json)> = Vec::new();
    v.push(("sexual".to_owned(), enc_opt_sev(&p.results.sexual)));
    v.push(("violence".to_owned(), enc_opt_sev(&p.results.violence)));
    v.push(("hate".to_owned(), enc_opt_sev(&p.results.hate)));
    v.push(("self_harm".to_owned(), enc_opt_sev(&p.results.self_harm)));
    v.push(("profanity".to_owned(), enc_opt_det(&p.results.profanity)));
    v.push(("jailbreak".to_owned(), enc_opt_det(&p.jailbreak)));
    proof {
        assert(json_view_entries(v@) =~= seq![
            ("sexual"@, sp_enc_opt_sev(p.results.sexual)),
            ("violence"@, sp_enc_opt_sev(p.results.violence)),
            ("hate"@, sp_enc_opt_sev(p.results.hate)),
            ("self_harm"@, sp_enc_opt_sev(p.results.self_harm)),
            ("profanity"@, sp_enc_opt_det(p.results.profanity)),
            ("jailbreak"@, sp_enc_opt_det(p.jailbreak)),
        ]);
    }
    Json::Obj(v)
}

fn enc_error(e: &Error) -> (r: Json)
    ensures
        r@ == sp_enc_error(e@),
{
    broadcast use crate::json::group_json_view;

    let mut v: Vec<(String, Json)> = Vec::new();
    v.push(("code".to_owned(), Json::Str(e.code.clone())));
    v.push(("message".to_owned(), Json::Str(e.message.clone())));
    proof {
        assert(json_view_entries(v@) =~= seq![
            ("code"@, JsonV::Str(e.code@)),
            ("message"@, JsonV::Str(e.message@)),
        ]);
    }
    Json::Obj(v)
}

fn enc_cfr_choice(c: &ContentFilteringResults<ChoiceResults>) -> (r: Json)
    ensures
        r@ == sp_enc_cfr_choice(c@),
{
    match c {
        ContentFilteringResults::Success(x) => enc_choice_results(x),
        ContentFilteringResults::Failure(e) => enc_error(e),
    }
}

fn enc_cfr_prompt(c: &ContentFilteringResults<PromptResults>) -> (r: Json)
    ensures
        r@ == sp_enc_cfr_prompt(c@),
{
    match c {
        ContentFilteringResults::Success(x) => enc_prompt_results(x),
        ContentFilteringResults::Failure(e) => enc_error(e),
    }
}

fn enc_usage(u: &Option<CompletionUsage>) -> (r: Json)
    ensures
        r@ == sp_enc_usage(*u),
{
    broadcast use crate::json::group_json_view;

    match u {
        None => Json::Null,
        Some(u) => {
            let mut v: Vec<(String, Json)> = Vec::new();
            v.push(("prompt_tokens".to_owned(), Json::Int(u.prompt_tokens as i64)));
            v.push(("completion_tokens".to_owned(), Json::Int(u.completion_tokens as i64)));
            v.push(("total_tokens".to_owned(), Json::Int(u.total_tokens as i64)));
            proof {
                assert(json_view_entries(v@) =~= seq![
                    ("prompt_tokens"@, JsonV::Int(u.prompt_tokens as int)),
                    ("completion_tokens"@, JsonV::Int(u.completion_tokens as int)),
                    ("total_tokens"@, JsonV::Int(u.total_tokens as int)),
                ]);
            }
            Json::Obj(v)
        },
    }
}

#[verifier::rlimit(50)]
fn enc_choice(c: &merged::ChatChoice) -> (r: Json)
    ensures
        r@ == sp_enc_choice(c@),
{
    broadcast use crate::json::group_json_view;

    let mut v: Vec<(String, Json)> = Vec::new();
    v.push(("index".to_owned(), Json::Int(c.index as i64)));
    v.push(("message".to_owned(), c.message.deep_clone()));
    v.push(
        (
            "finish_reason".to_owned(),
            match &c.finish_reason {
                None => Json::Null,
                Some(f) => Json::Str(finish_reason_name(f)),
            },
        ),
    );
    v.push(
        (
            "logprobs".to_owned(),
            match &c.logprobs {
                None => Json::Null,
                Some(l) => l.deep_clone(),
            },
        ),
    );
    v.push(
        (
            "content_filter_results".to_owned(),
            match &c.content_filter_results {
                None => Json::Null,
                Some(x) => enc_cfr_choice(x),
            },
        ),
    );
    let ghost lit: Seq<(Seq<char>, JsonV)> = seq![
        ("index"@, JsonV::Int(c.index as int)),
        ("message"@, c.message@),
        (
            "finish_reason"@,
            match c@.finish_reason {
                None => JsonV::Null,
                Some(f) => JsonV::Str(sp_finish_reason_name(f)),
            },
        ),
        (
            "logprobs"@,
            match c@.logprobs {
                None => JsonV::Null,
                Some(l) => l,
            },
        ),
        (
            "content_filter_results"@,
            match c@.content_filter_results {
                None => JsonV::Null,
                Some(x) => sp_enc_cfr_choice(x),
            },
        ),
    ];
    proof {
        assert(json_view_entries(v@) =~= lit);
    }
    let ghost gv = v@;
    let r = Json::Obj(v);
    proof {
        assert(r@ == JsonV::Obj(json_view_entries(gv)));
        assert(json_view_entries(gv) == lit);
        let spec_lit = match sp_enc_choice(c@) {
            JsonV::Obj(es) => es,
            _ => arbitrary(),
        };
        assert(spec_lit =~= lit);
        assert(sp_enc_choice(c@) == JsonV::Obj(lit));
    }
    r
}

fn enc_pfr_elem(p: &PromptFilterResults) -> (r: Json)
    ensures
        r@ == sp_enc_pfr_elem(p@),
{
    broadcast use crate::json::group_json_view;

    let mut v: Vec<(String, Json)> = Vec::new();
    v.push(("prompt_index".to_owned(), Json::Int(p.prompt_index as i64)));
    v.push(("content_filter_results".to_owned(), enc_cfr_prompt(&p.content_filter_results)));
    proof {
        assert(json_view_entries(v@) =~= seq![
            ("prompt_index"@, JsonV::Int(p.prompt_index as int)),
            ("content_filter_results"@, sp_enc_cfr_prompt(p@.content_filter_results)),
        ]);
    }
    Json::Obj(v)
}

/// Serializes a Merged Record back to its tokenized wire shape. The whole
/// output is pinned by [`sp_encode`].
#[verifier::loop_isolation(false)]
pub fn encode(resp: &merged::CreateChatCompletionResponse) -> (r: Json)
    ensures
        r@ == sp_encode(resp@),
{
    broadcast use crate::json::group_json_view;

    let mut cs: Vec<Json> = Vec::new();
    let mut i: usize = 0;
    while i < resp.choices.len()
        invariant
            i <= resp.choices.len(),
            cs@.len() == i as nat,
            forall|j: int| 0 <= j < i ==> (#[trigger] cs@[j])@ == sp_enc_choice(
                resp.choices@[j]@,
            ),
        decreases resp.choices.len() - i,
    {
        cs.push(enc_choice(&resp.choices[i]));
        i = i + 1;
    }
    proof {
        assert(json_view_seq(cs@) =~= Seq::new(
            resp@.choices.len(),
            |k: int| sp_enc_choice(resp@.choices[k]),
        ));
    }
    let choices_json = Json::Arr(cs);

    let pfr_json = match &resp.prompt_filter_results {
        None => Json::Null,
        Some(ps) => {
            let mut pv: Vec<Json> = Vec::new();
            let mut k: usize = 0;
            while k < ps.len()
                invariant
                    k <= ps.len(),
                    pv@.len() == k as nat,
                    forall|j: int| 0 <= j < k ==> (#[trigger] pv@[j])@ == sp_enc_pfr_elem(
                        ps@[j]@,
                    ),
                decreases ps.len() - k,
            {
                pv.push(enc_pfr_elem(&ps[k]));
                k = k + 1;
            }
            proof {
                assert(json_view_seq(pv@) =~= Seq::new(
                    seq_view(ps@).len(),
                    |j: int| sp_enc_pfr_elem(seq_view(ps@)[j]),
                ));
            }
            Json::Arr(pv)
        },
    };

    let mut v: Vec<(String, Json)> = Vec::new();
    v.push(("id".to_owned(), Json::Str(resp.id.clone())));
    v.push(("choices".to_owned(), choices_json));
    v.push(("created".to_owned(), Json::Int(resp.created as i64)));
    v.push(("model".to_owned(), Json::Str(resp.model.clone())));
    v.push(("object".to_owned(), Json::Str(resp.object.clone())));
    v.push(
        (
            "service_tier".to_owned(),
            match &resp.service_tier {
                None => Json::Null,
                Some(t) => Json::Str(tier_name(t)),
            },
        ),
    );
    v.push(
        (
            "system_fingerprint".to_owned(),
            match &resp.system_fingerprint {
                None => Json::Null,
                Some(s) => Json::Str(s.clone()),
            },
        ),
    );
    v.push(("usage".to_owned(), enc_usage(&resp.usage)));
    v.push(("prompt_filter_results".to_owned(), pfr_json));
    proof {
        assert(json_view_entries(v@) =~= seq![
            ("id"@, JsonV::Str(resp@.id)),
            (
                "choices"@,
                JsonV::Arr(Seq::new(resp@.choices.len(), |k: int| sp_enc_choice(resp@.choices[k]))),
            ),
            ("created"@, JsonV::Int(resp@.created as int)),
            ("model"@, JsonV::Str(resp@.model)),
            ("object"@, JsonV::Str(resp@.object)),
            ("service_tier"@, sp_enc_tier(resp@.service_tier)),
            ("system_fingerprint"@, sp_enc_opt_str(resp@.system_fingerprint)),
            ("usage"@, sp_enc_usage(resp@.usage)),
            ("prompt_filter_results"@, sp_enc_pfr(resp@.prompt_filter_results)),
        ]);
    }
    Json::Obj(v)
}

} // verus!

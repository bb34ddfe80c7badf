//! The laws of the codec: round-tripping, idempotence, the cardinality
//! invariant of decoded records, no-extension tolerance, and the catalog
//! discipline of the serializer.

use vstd::prelude::*;
use crate::catalog::{spec_classify_top_level, FieldClass};
use crate::errors::DecodeErrorV;
use crate::json::{dup_at, first_dup, lookup, JsonV};
use crate::types::chat::CompletionUsage;
use crate::types::content_filtering::{
    ChoiceResults, ContentFilteringResultsV, DetectedResult, ErrorV, PromptFilterResultsV,
    PromptResults, SeverityResult,
};
use crate::types::merged;
use crate::types::merged::CreateChatCompletionResponseV;
use crate::codec::{
    sp_bases, sp_cfr_choice, sp_cfr_prompt, sp_choice, sp_choice_ok,
    sp_choice_results, sp_choices_from, sp_decode, sp_decode_choices, sp_detected_result,
    sp_enc_cfr_choice, sp_enc_cfr_prompt, sp_enc_choice, sp_enc_choice_results, sp_enc_det_res,
    sp_enc_error, sp_enc_opt_det, sp_enc_opt_sev, sp_enc_opt_severity, sp_enc_opt_str,
    sp_enc_pfr, sp_enc_pfr_elem, sp_enc_prompt_results, sp_enc_sev_res, sp_enc_tier,
    sp_enc_usage, sp_encode, sp_error_shape, sp_exts, sp_finish_reason_name,
    sp_finish_reason_of, sp_is_choice_cat, sp_is_prompt_cat,
    sp_opt_cfr_choice, sp_opt_finish_reason, sp_opt_obj, sp_opt_pfr, sp_opt_service_tier,
    sp_opt_str, sp_pfr_elem, sp_pfr_from, sp_prompt_results,
    sp_req_obj, sp_req_str, sp_req_u32, sp_severity_name, sp_severity_of, sp_severity_result,
    sp_tier_name, sp_tier_of, sp_usage, sp_zip,
};

verus! {

/// A merged choice built from valid components: its message payload is an
/// object, and its log-probability subtree, when present, is an object.
pub open spec fn wf_choice(c: merged::ChatChoiceV) -> bool {
    &&& c.message is Obj
    &&& match c.logprobs {
        Some(l) => l is Obj,
        None => true,
    }
}

/// Every per-choice extension slot is filled, or none is: the only two
/// states a decode can produce.
pub open spec fn ext_uniform(r: CreateChatCompletionResponseV) -> bool {
    ||| forall|i: int|
        0 <= i < r.choices.len() ==> (#[trigger] r.choices[i]).content_filter_results is Some
    ||| forall|i: int|
        0 <= i < r.choices.len() ==> (#[trigger] r.choices[i]).content_filter_results is None
}

/// A Merged Record built from valid components.
pub open spec fn wf_record(r: CreateChatCompletionResponseV) -> bool {
    &&& forall|i: int| 0 <= i < r.choices.len() ==> wf_choice(#[trigger] r.choices[i])
    &&& ext_uniform(r)
}

proof fn lemma_finish_reason_round(f: crate::types::chat::FinishReason)
    ensures
        sp_finish_reason_of(sp_finish_reason_name(f)) == Some(f),
{
    reveal_strlit("stop");
    reveal_strlit("length");
    reveal_strlit("tool_calls");
    reveal_strlit("content_filter");
    reveal_strlit("function_call");
    assert("stop"@.len() == 4);
    assert("length"@.len() == 6);
    assert("tool_calls"@.len() == 10);
    assert("content_filter"@.len() == 14);
    assert("function_call"@.len() == 13);
    assert("length"@ != "stop"@);
    assert("tool_calls"@ != "stop"@ && "tool_calls"@ != "length"@);
    assert("content_filter"@ != "stop"@ && "content_filter"@ != "length"@ && "content_filter"@
        != "tool_calls"@);
    assert("function_call"@ != "stop"@ && "function_call"@ != "length"@ && "function_call"@
        != "tool_calls"@ && "function_call"@ != "content_filter"@);
}

proof fn lemma_tier_round(t: crate::types::chat::ServiceTierResponse)
    ensures
        sp_tier_of(sp_tier_name(t)) == Some(t),
{
    reveal_strlit("scale");
    reveal_strlit("default");
    assert("scale"@.len() == 5);
    assert("default"@.len() == 7);
    assert("default"@ != "scale"@);
}

proof fn lemma_severity_round(s: crate::types::content_filtering::Severity)
    ensures
        sp_severity_of(sp_severity_name(s)) == Some(s),
{
    reveal_strlit("safe");
    reveal_strlit("low");
    reveal_strlit("medium");
    reveal_strlit("high");
    assert("safe"@.len() == 4);
    assert("low"@.len() == 3);
    assert("medium"@.len() == 6);
    assert("high"@.len() == 4);
    assert("safe"@[0] == 's');
    assert("high"@[0] == 'h');
    assert("low"@ != "safe"@);
    assert("medium"@ != "safe"@ && "medium"@ != "low"@);
    assert("high"@ != "safe"@ && "high"@ != "low"@ && "high"@ != "medium"@);
}

proof fn lemma_sev_res_round(x: SeverityResult)
    ensures
        sp_severity_result(sp_enc_sev_res(x)) == Some(x),
{
    reveal_strlit("filtered");
    reveal_strlit("severity");
    assert("filtered"@.len() == 8);
    assert("severity"@.len() == 8);
    assert("filtered"@[0] == 'f');
    assert("severity"@[0] == 's');
    let es = match sp_enc_sev_res(x) {
        JsonV::Obj(es) => es,
        _ => arbitrary(),
    };
    assert(es.len() == 2);
    assert(es[0].0 == "filtered"@ && es[1].0 == "severity"@);
    assert("filtered"@ != "severity"@);
    assert(!dup_at(es, 0) && !dup_at(es, 1));
    assert(first_dup(es) is None) by {
        reveal_with_fuel(crate::json::first_dup_from, 4);
    }
    assert(lookup(es, "filtered"@) == Some(JsonV::Bool(x.filtered))) by {
        reveal_with_fuel(crate::json::lookup_from, 4);
    }
    assert(lookup(es, "severity"@) == Some(sp_enc_opt_severity(x.severity))) by {
        reveal_with_fuel(crate::json::lookup_from, 4);
    }
    match x.severity {
        Some(s) => lemma_severity_round(s),
        None => {},
    }
}

proof fn lemma_det_res_round(x: DetectedResult)
    ensures
        sp_detected_result(sp_enc_det_res(x)) == Some(x),
{
    reveal_strlit("filtered");
    reveal_strlit("detected");
    assert("filtered"@.len() == 8);
    assert("detected"@.len() == 8);
    assert("filtered"@[0] == 'f');
    assert("detected"@[0] == 'd');
    let es = match sp_enc_det_res(x) {
        JsonV::Obj(es) => es,
        _ => arbitrary(),
    };
    assert(es.len() == 2);
    assert(es[0].0 == "filtered"@ && es[1].0 == "detected"@);
    assert("filtered"@ != "detected"@);
    assert(!dup_at(es, 0) && !dup_at(es, 1));
    assert(first_dup(es) is None) by {
        reveal_with_fuel(crate::json::first_dup_from, 4);
    }
    assert(lookup(es, "filtered"@) == Some(JsonV::Bool(x.filtered))) by {
        reveal_with_fuel(crate::json::lookup_from, 4);
    }
    assert(lookup(es, "detected"@) == Some(JsonV::Bool(x.detected))) by {
        reveal_with_fuel(crate::json::lookup_from, 4);
    }
}

proof fn lemma_error_round(e: ErrorV)
    ensures
        sp_error_shape(sp_enc_error(e)) == Some(e),
{
    reveal_strlit("code");
    reveal_strlit("message");
    assert("code"@.len() == 4);
    assert("message"@.len() == 7);
    let es = match sp_enc_error(e) {
        JsonV::Obj(es) => es,
        _ => arbitrary(),
    };
    assert(es.len() == 2);
    assert(es[0].0 == "code"@ && es[1].0 == "message"@);
    assert("code"@ != "message"@);
    assert(!dup_at(es, 0) && !dup_at(es, 1));
    assert(first_dup(es) is None) by {
        reveal_with_fuel(crate::json::first_dup_from, 4);
    }
    assert(lookup(es, "code"@) == Some(JsonV::Str(e.code))) by {
        reveal_with_fuel(crate::json::lookup_from, 4);
    }
    assert(lookup(es, "message"@) == Some(JsonV::Str(e.message))) by {
        reveal_with_fuel(crate::json::lookup_from, 4);
    }
}

proof fn lemma_choice_results_round(c: ChoiceResults)
    ensures
        sp_choice_results(sp_enc_choice_results(c)) == Some(c),
{
    reveal_strlit("sexual");
    reveal_strlit("violence");
    reveal_strlit("hate");
    reveal_strlit("self_harm");
    reveal_strlit("profanity");
    reveal_strlit("protected_material_text");
    reveal_strlit("protected_material_code");
    assert("sexual"@.len() == 6);
    assert("violence"@.len() == 8);
    assert("hate"@.len() == 4);
    assert("self_harm"@.len() == 9);
    assert("profanity"@.len() == 9);
    assert("protected_material_text"@.len() == 23);
    assert("protected_material_code"@.len() == 23);
    assert("self_harm"@[0] == 's');
    assert("profanity"@[0] == 'p');
    assert("protected_material_text"@[19] == 't');
    assert("protected_material_code"@[19] == 'c');
    let es = match sp_enc_choice_results(c) {
        JsonV::Obj(es) => es,
        _ => arbitrary(),
    };
    assert(es.len() == 7);
    assert(es[0].0 == "sexual"@ && es[1].0 == "violence"@ && es[2].0 == "hate"@ && es[3].0 == "self_harm"@ && es[4].0 == "profanity"@ && es[5].0 == "protected_material_text"@ && es[6].0 == "protected_material_code"@);
    assert("violence"@ != "sexual"@);
    assert("hate"@ != "sexual"@ && "hate"@ != "violence"@);
    assert("self_harm"@ != "sexual"@ && "self_harm"@ != "violence"@ && "self_harm"@ != "hate"@);
    assert("profanity"@ != "sexual"@ && "profanity"@ != "violence"@ && "profanity"@ != "hate"@ && "profanity"@ != "self_harm"@);
    assert("protected_material_text"@ != "sexual"@ && "protected_material_text"@ != "violence"@ && "protected_material_text"@ != "hate"@ && "protected_material_text"@ != "self_harm"@ && "protected_material_text"@ != "profanity"@);
    assert("protected_material_code"@ != "sexual"@ && "protected_material_code"@ != "violence"@ && "protected_material_code"@ != "hate"@ && "protected_material_code"@ != "self_harm"@ && "protected_material_code"@ != "profanity"@ && "protected_material_code"@ != "protected_material_text"@);
    assert(!dup_at(es, 0) && !dup_at(es, 1) && !dup_at(es, 2) && !dup_at(es, 3) && !dup_at(es, 4) && !dup_at(es, 5) && !dup_at(es, 6));
    assert(first_dup(es) is None) by {
        reveal_with_fuel(crate::json::first_dup_from, 9);
    }
    assert(forall|i: int| 0 <= i < es.len() ==> sp_is_choice_cat((#[trigger] es[i]).0));
    reveal_with_fuel(crate::json::lookup_from, 9);
    assert(lookup(es, "sexual"@) == Some(sp_enc_opt_sev(c.results.sexual)));
    assert(lookup(es, "violence"@) == Some(sp_enc_opt_sev(c.results.violence)));
    assert(lookup(es, "hate"@) == Some(sp_enc_opt_sev(c.results.hate)));
    assert(lookup(es, "self_harm"@) == Some(sp_enc_opt_sev(c.results.self_harm)));
    assert(lookup(es, "profanity"@) == Some(sp_enc_opt_det(c.results.profanity)));
    assert(lookup(es, "protected_material_text"@) == Some(
        sp_enc_opt_det(c.protected_material_text),
    ));
    assert(lookup(es, "protected_material_code"@) == Some(
        sp_enc_opt_det(c.protected_material_code),
    ));
    match c.results.sexual {
        Some(x) => lemma_sev_res_round(x),
        None => {},
    }
    match c.results.violence {
        Some(x) => lemma_sev_res_round(x),
        None => {},
    }
    match c.results.hate {
        Some(x) => lemma_sev_res_round(x),
        None => {},
    }
    match c.results.self_harm {
        Some(x) => lemma_sev_res_round(x),
        None => {},
    }
    match c.results.profanity {
        Some(x) => lemma_det_res_round(x),
        None => {},
    }
    match c.protected_material_text {
        Some(x) => lemma_det_res_round(x),
        None => {},
    }
    match c.protected_material_code {
        Some(x) => lemma_det_res_round(x),
        None => {},
    }
}

proof fn lemma_prompt_results_round(p: PromptResults)
    ensures
        sp_prompt_results(sp_enc_prompt_results(p)) == Some(p),
{
    reveal_strlit("sexual");
    reveal_strlit("violence");
    reveal_strlit("hate");
    reveal_strlit("self_harm");
    reveal_strlit("profanity");
    reveal_strlit("jailbreak");
    assert("sexual"@.len() == 6);
    assert("violence"@.len() == 8);
    assert("hate"@.len() == 4);
    assert("self_harm"@.len() == 9);
    assert("profanity"@.len() == 9);
    assert("jailbreak"@.len() == 9);
    assert("self_harm"@[0] == 's');
    assert("profanity"@[0] == 'p');
    assert("jailbreak"@[0] == 'j');
    let es = match sp_enc_prompt_results(p) {
        JsonV::Obj(es) => es,
        _ => arbitrary(),
    };
    assert(es.len() == 6);
    assert(es[0].0 == "sexual"@ && es[1].0 == "violence"@ && es[2].0 == "hate"@ && es[3].0 == "self_harm"@ && es[4].0 == "profanity"@ && es[5].0 == "jailbreak"@);
    assert("violence"@ != "sexual"@);
    assert("hate"@ != "sexual"@ && "hate"@ != "violence"@);
    assert("self_harm"@ != "sexual"@ && "self_harm"@ != "violence"@ && "self_harm"@ != "hate"@);
    assert("profanity"@ != "sexual"@ && "profanity"@ != "violence"@ && "profanity"@ != "hate"@ && "profanity"@ != "self_harm"@);
    assert("jailbreak"@ != "sexual"@ && "jailbreak"@ != "violence"@ && "jailbreak"@ != "hate"@ && "jailbreak"@ != "self_harm"@ && "jailbreak"@ != "profanity"@);
    assert(!dup_at(es, 0) && !dup_at(es, 1) && !dup_at(es, 2) && !dup_at(es, 3) && !dup_at(es, 4) && !dup_at(es, 5));
    assert(first_dup(es) is None) by {
        reveal_with_fuel(crate::json::first_dup_from, 8);
    }
    assert(forall|i: int| 0 <= i < es.len() ==> sp_is_prompt_cat((#[trigger] es[i]).0));
    reveal_with_fuel(crate::json::lookup_from, 8);
    assert(lookup(es, "sexual"@) == Some(sp_enc_opt_sev(p.results.sexual)));
    assert(lookup(es, "violence"@) == Some(sp_enc_opt_sev(p.results.violence)));
    assert(lookup(es, "hate"@) == Some(sp_enc_opt_sev(p.results.hate)));
    assert(lookup(es, "self_harm"@) == Some(sp_enc_opt_sev(p.results.self_harm)));
    assert(lookup(es, "profanity"@) == Some(sp_enc_opt_det(p.results.profanity)));
    assert(lookup(es, "jailbreak"@) == Some(sp_enc_opt_det(p.jailbreak)));
    match p.results.sexual {
        Some(x) => lemma_sev_res_round(x),
        None => {},
    }
    match p.results.violence {
        Some(x) => lemma_sev_res_round(x),
        None => {},
    }
    match p.results.hate {
        Some(x) => lemma_sev_res_round(x),
        None => {},
    }
    match p.results.self_harm {
        Some(x) => lemma_sev_res_round(x),
        None => {},
    }
    match p.results.profanity {
        Some(x) => lemma_det_res_round(x),
        None => {},
    }
    match p.jailbreak {
        Some(x) => lemma_det_res_round(x),
        None => {},
    }
}

proof fn lemma_cfr_choice_round(x: ContentFilteringResultsV<ChoiceResults>)
    ensures
        sp_cfr_choice(sp_enc_cfr_choice(x)) == Ok::<_, DecodeErrorV>(x),
{
    match x {
        ContentFilteringResultsV::Success(c) => {
            lemma_choice_results_round(c);
        },
        ContentFilteringResultsV::Failure(e) => {
            lemma_error_round(e);
            reveal_strlit("code");
            reveal_strlit("sexual");
            reveal_strlit("violence");
            reveal_strlit("hate");
            reveal_strlit("self_harm");
            reveal_strlit("profanity");
            reveal_strlit("protected_material_text");
            reveal_strlit("protected_material_code");
            assert("code"@.len() == 4);
            assert("sexual"@.len() == 6);
            assert("violence"@.len() == 8);
            assert("hate"@.len() == 4);
            assert("self_harm"@.len() == 9);
            assert("profanity"@.len() == 9);
            assert("protected_material_text"@.len() == 23);
            assert("protected_material_code"@.len() == 23);
            assert("code"@[0] == 'c');
            assert("hate"@[0] == 'h');
            let es = match sp_enc_error(e) {
                JsonV::Obj(es) => es,
                _ => arbitrary(),
            };
            assert(es[0].0 == "code"@);
            assert("code"@ != "sexual"@ && "code"@ != "violence"@ && "code"@ != "hate"@ && "code"@ != "self_harm"@ && "code"@ != "profanity"@ && "code"@ != "protected_material_text"@ && "code"@ != "protected_material_code"@);
            assert(!sp_is_choice_cat(es[0].0));
            assert(sp_choice_results(sp_enc_error(e)) is None);
        },
    }
}

proof fn lemma_cfr_prompt_round(x: ContentFilteringResultsV<PromptResults>)
    ensures
        sp_cfr_prompt(sp_enc_cfr_prompt(x)) == Ok::<_, DecodeErrorV>(x),
{
    match x {
        ContentFilteringResultsV::Success(p) => {
            lemma_prompt_results_round(p);
        },
        ContentFilteringResultsV::Failure(e) => {
            lemma_error_round(e);
            reveal_strlit("code");
            reveal_strlit("sexual");
            reveal_strlit("violence");
            reveal_strlit("hate");
            reveal_strlit("self_harm");
            reveal_strlit("profanity");
            reveal_strlit("jailbreak");
            assert("code"@.len() == 4);
            assert("sexual"@.len() == 6);
            assert("violence"@.len() == 8);
            assert("hate"@.len() == 4);
            assert("self_harm"@.len() == 9);
            assert("profanity"@.len() == 9);
            assert("jailbreak"@.len() == 9);
            assert("code"@[0] == 'c');
            assert("hate"@[0] == 'h');
            let es = match sp_enc_error(e) {
                JsonV::Obj(es) => es,
                _ => arbitrary(),
            };
            assert(es[0].0 == "code"@);
            assert("code"@ != "sexual"@ && "code"@ != "violence"@ && "code"@ != "hate"@ && "code"@ != "self_harm"@ && "code"@ != "profanity"@ && "code"@ != "jailbreak"@);
            assert(!sp_is_prompt_cat(es[0].0));
            assert(sp_prompt_results(sp_enc_error(e)) is None);
        },
    }
}


// ---------------------------------------------------------------------------
// Round-tripping of choices and prompt-level results
// ---------------------------------------------------------------------------

/// The pair view of a merged choice: its base part and its extension slot.
pub open spec fn sp_strip(cs: Seq<merged::ChatChoiceV>) -> Seq<
    (crate::types::chat::ChatChoiceV, Option<ContentFilteringResultsV<ChoiceResults>>),
> {
    Seq::new(cs.len(), |k: int| ((#[trigger] cs[k]).base(), cs[k].content_filter_results))
}

spec fn cfr_unwrap(o: Option<ContentFilteringResultsV<ChoiceResults>>) -> ContentFilteringResultsV<
    ChoiceResults,
> {
    match o {
        Some(c) => c,
        None => arbitrary(),
    }
}

proof fn lemma_choice_round(c: merged::ChatChoiceV)
    requires
        wf_choice(c),
    ensures
        sp_choice(sp_enc_choice(c)) == Ok::<_, DecodeErrorV>((c.base(), c.content_filter_results)),
{
    reveal_strlit("index");
    reveal_strlit("message");
    reveal_strlit("finish_reason");
    reveal_strlit("logprobs");
    reveal_strlit("content_filter_results");
    assert("index"@.len() == 5);
    assert("message"@.len() == 7);
    assert("finish_reason"@.len() == 13);
    assert("logprobs"@.len() == 8);
    assert("content_filter_results"@.len() == 22);
    let es = match sp_enc_choice(c) {
        JsonV::Obj(es) => es,
        _ => arbitrary(),
    };
    assert(es.len() == 5);
    assert(es[0].0 == "index"@ && es[1].0 == "message"@ && es[2].0 == "finish_reason"@ && es[3].0 == "logprobs"@ && es[4].0 == "content_filter_results"@);
    assert("message"@ != "index"@);
    assert("finish_reason"@ != "index"@ && "finish_reason"@ != "message"@);
    assert("logprobs"@ != "index"@ && "logprobs"@ != "message"@ && "logprobs"@ != "finish_reason"@);
    assert("content_filter_results"@ != "index"@ && "content_filter_results"@ != "message"@ && "content_filter_results"@ != "finish_reason"@ && "content_filter_results"@ != "logprobs"@);
    assert(!dup_at(es, 0) && !dup_at(es, 1) && !dup_at(es, 2) && !dup_at(es, 3) && !dup_at(es, 4));
    assert(first_dup(es) is None) by {
        reveal_with_fuel(crate::json::first_dup_from, 7);
    }
    reveal_with_fuel(crate::json::lookup_from, 7);
    assert(lookup(es, "index"@) == Some(JsonV::Int(c.index as int)));
    assert(lookup(es, "message"@) == Some(c.message));
    assert(sp_req_u32(es, "index"@) == Ok::<_, DecodeErrorV>(c.index));
    match c.message {
        JsonV::Obj(mo) => {
            assert(sp_req_obj(es, "message"@) == Ok::<_, DecodeErrorV>(c.message));
        },
        _ => {
            assert(false);
        },
    }
    match c.finish_reason {
        None => {
            assert(sp_opt_finish_reason(es) == Ok::<_, DecodeErrorV>(None::<
                crate::types::chat::FinishReason,
            >));
        },
        Some(f) => {
            lemma_finish_reason_round(f);
            assert(sp_opt_finish_reason(es) == Ok::<_, DecodeErrorV>(Some(f)));
        },
    }
    match c.logprobs {
        None => {
            assert(sp_opt_obj(es, "logprobs"@) == Ok::<_, DecodeErrorV>(None::<JsonV>));
        },
        Some(l) => {
            match l {
                JsonV::Obj(lo) => {
                    assert(sp_opt_obj(es, "logprobs"@) == Ok::<_, DecodeErrorV>(Some(l)));
                },
                _ => {
                    assert(false);
                },
            }
        },
    }
    match c.content_filter_results {
        None => {
            assert(sp_opt_cfr_choice(es) == Ok::<_, DecodeErrorV>(None::<
                ContentFilteringResultsV<ChoiceResults>,
            >));
        },
        Some(x) => {
            lemma_cfr_choice_round(x);
            assert(sp_enc_cfr_choice(x) is Obj);
            assert(sp_opt_cfr_choice(es) == Ok::<_, DecodeErrorV>(Some(x)));
        },
    }
    assert(sp_choice(sp_enc_choice(c)) == Ok::<_, DecodeErrorV>(
        (c.base(), c.content_filter_results),
    ));
}

proof fn lemma_choices_list_round(cs: Seq<merged::ChatChoiceV>, i: int)
    requires
        0 <= i <= cs.len(),
        forall|j: int| 0 <= j < cs.len() ==> wf_choice(#[trigger] cs[j]),
    ensures
        sp_choices_from(Seq::new(cs.len(), |k: int| sp_enc_choice(cs[k])), i) == Ok::<
            _,
            DecodeErrorV,
        >(sp_strip(cs).skip(i)),
    decreases cs.len() - i,
{
    let a = Seq::new(cs.len(), |k: int| sp_enc_choice(cs[k]));
    if i == cs.len() {
        assert(sp_strip(cs).skip(i) =~= Seq::empty());
    } else {
        lemma_choice_round(cs[i]);
        lemma_choices_list_round(cs, i + 1);
        assert(seq![(cs[i].base(), cs[i].content_filter_results)] + sp_strip(cs).skip(i + 1)
            =~= sp_strip(cs).skip(i));
    }
}

proof fn lemma_exts_none(
    ps: Seq<(crate::types::chat::ChatChoiceV, Option<ContentFilteringResultsV<ChoiceResults>>)>,
)
    requires
        forall|j: int| 0 <= j < ps.len() ==> (#[trigger] ps[j]).1 is None,
    ensures
        sp_exts(ps) == Seq::<ContentFilteringResultsV<ChoiceResults>>::empty(),
    decreases ps.len(),
{
    if ps.len() > 0 {
        lemma_exts_none(ps.drop_last());
        assert(sp_exts(ps) =~= Seq::<ContentFilteringResultsV<ChoiceResults>>::empty());
    }
}

proof fn lemma_exts_all(
    ps: Seq<(crate::types::chat::ChatChoiceV, Option<ContentFilteringResultsV<ChoiceResults>>)>,
)
    requires
        forall|j: int| 0 <= j < ps.len() ==> (#[trigger] ps[j]).1 is Some,
    ensures
        sp_exts(ps) == Seq::new(ps.len(), |k: int| cfr_unwrap(ps[k].1)),
    decreases ps.len(),
{
    if ps.len() == 0 {
        assert(sp_exts(ps) =~= Seq::new(ps.len(), |k: int| cfr_unwrap(ps[k].1)));
    } else {
        lemma_exts_all(ps.drop_last());
        assert(sp_exts(ps) =~= Seq::new(ps.len(), |k: int| cfr_unwrap(ps[k].1)));
    }
}

proof fn lemma_pfr_elem_round(p: PromptFilterResultsV)
    ensures
        sp_pfr_elem(sp_enc_pfr_elem(p)) == Ok::<_, DecodeErrorV>(p),
{
    reveal_strlit("prompt_index");
    reveal_strlit("content_filter_results");
    assert("prompt_index"@.len() == 12);
    assert("content_filter_results"@.len() == 22);
    let es = match sp_enc_pfr_elem(p) {
        JsonV::Obj(es) => es,
        _ => arbitrary(),
    };
    assert(es.len() == 2);
    assert(es[0].0 == "prompt_index"@ && es[1].0 == "content_filter_results"@);
    assert("content_filter_results"@ != "prompt_index"@);
    assert(!dup_at(es, 0) && !dup_at(es, 1));
    assert(first_dup(es) is None) by {
        reveal_with_fuel(crate::json::first_dup_from, 4);
    }
    reveal_with_fuel(crate::json::lookup_from, 4);
    assert(lookup(es, "prompt_index"@) == Some(JsonV::Int(p.prompt_index as int)));
    assert(lookup(es, "content_filter_results"@) == Some(
        sp_enc_cfr_prompt(p.content_filter_results),
    ));
    assert(sp_req_u32(es, "prompt_index"@) == Ok::<_, DecodeErrorV>(p.prompt_index));
    lemma_cfr_prompt_round(p.content_filter_results);
}

proof fn lemma_pfr_list_round(ss: Seq<PromptFilterResultsV>, i: int)
    requires
        0 <= i <= ss.len(),
    ensures
        sp_pfr_from(Seq::new(ss.len(), |k: int| sp_enc_pfr_elem(ss[k])), i) == Ok::<
            _,
            DecodeErrorV,
        >(ss.skip(i)),
    decreases ss.len() - i,
{
    if i == ss.len() {
        assert(ss.skip(i) =~= Seq::<PromptFilterResultsV>::empty());
    } else {
        lemma_pfr_elem_round(ss[i]);
        lemma_pfr_list_round(ss, i + 1);
        assert(seq![ss[i]] + ss.skip(i + 1) =~= ss.skip(i));
    }
}

// ---------------------------------------------------------------------------
// The laws
// ---------------------------------------------------------------------------

/// Round-trip: decoding the encoding of any Merged Record built from valid
/// components yields the record back, exactly.
pub proof fn lemma_round_trip(r: CreateChatCompletionResponseV)
    requires
        wf_record(r),
    ensures
        sp_decode(sp_encode(r)) == Ok::<_, DecodeErrorV>(r),
{
    reveal_strlit("id");
    reveal_strlit("choices");
    reveal_strlit("created");
    reveal_strlit("model");
    reveal_strlit("object");
    reveal_strlit("service_tier");
    reveal_strlit("system_fingerprint");
    reveal_strlit("usage");
    reveal_strlit("prompt_filter_results");
    assert("id"@.len() == 2);
    assert("choices"@.len() == 7);
    assert("created"@.len() == 7);
    assert("model"@.len() == 5);
    assert("object"@.len() == 6);
    assert("service_tier"@.len() == 12);
    assert("system_fingerprint"@.len() == 18);
    assert("usage"@.len() == 5);
    assert("prompt_filter_results"@.len() == 21);
    assert("choices"@[1] == 'h');
    assert("created"@[1] == 'r');
    assert("model"@[0] == 'm');
    assert("usage"@[0] == 'u');
    let es = match sp_encode(r) {
        JsonV::Obj(es) => es,
        _ => arbitrary(),
    };
    assert(es.len() == 9);
    assert(es[0].0 == "id"@ && es[1].0 == "choices"@ && es[2].0 == "created"@ && es[3].0 == "model"@ && es[4].0 == "object"@ && es[5].0 == "service_tier"@ && es[6].0 == "system_fingerprint"@ && es[7].0 == "usage"@ && es[8].0 == "prompt_filter_results"@);
    assert("choices"@ != "id"@);
    assert("created"@ != "id"@ && "created"@ != "choices"@);
    assert("model"@ != "id"@ && "model"@ != "choices"@ && "model"@ != "created"@);
    assert("object"@ != "id"@ && "object"@ != "choices"@ && "object"@ != "created"@ && "object"@ != "model"@);
    assert("service_tier"@ != "id"@ && "service_tier"@ != "choices"@ && "service_tier"@ != "created"@ && "service_tier"@ != "model"@ && "service_tier"@ != "object"@);
    assert("system_fingerprint"@ != "id"@ && "system_fingerprint"@ != "choices"@ && "system_fingerprint"@ != "created"@ && "system_fingerprint"@ != "model"@ && "system_fingerprint"@ != "object"@ && "system_fingerprint"@ != "service_tier"@);
    assert("usage"@ != "id"@ && "usage"@ != "choices"@ && "usage"@ != "created"@ && "usage"@ != "model"@ && "usage"@ != "object"@ && "usage"@ != "service_tier"@ && "usage"@ != "system_fingerprint"@);
    assert("prompt_filter_results"@ != "id"@ && "prompt_filter_results"@ != "choices"@ && "prompt_filter_results"@ != "created"@ && "prompt_filter_results"@ != "model"@ && "prompt_filter_results"@ != "object"@ && "prompt_filter_results"@ != "service_tier"@ && "prompt_filter_results"@ != "system_fingerprint"@ && "prompt_filter_results"@ != "usage"@);
    assert(!dup_at(es, 0) && !dup_at(es, 1) && !dup_at(es, 2) && !dup_at(es, 3) && !dup_at(es, 4) && !dup_at(es, 5) && !dup_at(es, 6) && !dup_at(es, 7) && !dup_at(es, 8));
    assert(first_dup(es) is None) by {
        reveal_with_fuel(crate::json::first_dup_from, 11);
    }
    reveal_with_fuel(crate::json::lookup_from, 11);
    assert(lookup(es, "id"@) == Some(JsonV::Str(r.id)));
    assert(lookup(es, "choices"@) == Some(
        JsonV::Arr(Seq::new(r.choices.len(), |k: int| sp_enc_choice(r.choices[k]))),
    ));
    assert(lookup(es, "created"@) == Some(JsonV::Int(r.created as int)));
    assert(lookup(es, "model"@) == Some(JsonV::Str(r.model)));
    assert(lookup(es, "object"@) == Some(JsonV::Str(r.object)));
    assert(lookup(es, "service_tier"@) == Some(sp_enc_tier(r.service_tier)));
    assert(lookup(es, "system_fingerprint"@) == Some(sp_enc_opt_str(r.system_fingerprint)));
    assert(lookup(es, "usage"@) == Some(sp_enc_usage(r.usage)));
    assert(lookup(es, "prompt_filter_results"@) == Some(sp_enc_pfr(r.prompt_filter_results)));

    // base scalar fields
    assert(sp_req_str(es, "id"@) == Ok::<_, DecodeErrorV>(r.id));
    assert(sp_req_u32(es, "created"@) == Ok::<_, DecodeErrorV>(r.created));
    assert(sp_req_str(es, "model"@) == Ok::<_, DecodeErrorV>(r.model));
    assert(sp_req_str(es, "object"@) == Ok::<_, DecodeErrorV>(r.object));
    match r.service_tier {
        None => {
            assert(sp_opt_service_tier(es) == Ok::<_, DecodeErrorV>(r.service_tier));
        },
        Some(t) => {
            lemma_tier_round(t);
            assert(sp_opt_service_tier(es) == Ok::<_, DecodeErrorV>(r.service_tier));
        },
    }
    assert(sp_opt_str(es, "system_fingerprint"@) == Ok::<_, DecodeErrorV>(r.system_fingerprint));

    // usage
    match r.usage {
        None => {
            assert(sp_usage(es) == Ok::<_, DecodeErrorV>(r.usage));
        },
        Some(u) => {
            reveal_strlit("prompt_tokens");
            reveal_strlit("completion_tokens");
            reveal_strlit("total_tokens");
            assert("prompt_tokens"@.len() == 13);
            assert("completion_tokens"@.len() == 17);
            assert("total_tokens"@.len() == 12);
            let ues = match sp_enc_usage(r.usage) {
                JsonV::Obj(ues) => ues,
                _ => arbitrary(),
            };
            assert(ues.len() == 3);
            assert(ues[0].0 == "prompt_tokens"@ && ues[1].0 == "completion_tokens"@ && ues[2].0
                == "total_tokens"@);
            assert("completion_tokens"@ != "prompt_tokens"@);
            assert("total_tokens"@ != "prompt_tokens"@ && "total_tokens"@
                != "completion_tokens"@);
            assert(!dup_at(ues, 0) && !dup_at(ues, 1) && !dup_at(ues, 2));
            assert(first_dup(ues) is None) by {
                reveal_with_fuel(crate::json::first_dup_from, 5);
            }
            assert(lookup(ues, "prompt_tokens"@) == Some(JsonV::Int(u.prompt_tokens as int)));
            assert(lookup(ues, "completion_tokens"@) == Some(
                JsonV::Int(u.completion_tokens as int),
            ));
            assert(lookup(ues, "total_tokens"@) == Some(JsonV::Int(u.total_tokens as int)));
            assert(sp_usage(es) == Ok::<_, DecodeErrorV>(r.usage));
        },
    }

    // prompt filter results
    match r.prompt_filter_results {
        None => {
            assert(sp_opt_pfr(es) == Ok::<_, DecodeErrorV>(r.prompt_filter_results));
        },
        Some(ss) => {
            lemma_pfr_list_round(ss, 0);
            assert(ss.skip(0) =~= ss);
            assert(sp_opt_pfr(es) == Ok::<_, DecodeErrorV>(r.prompt_filter_results));
        },
    }

    // choices
    let a = Seq::new(r.choices.len(), |k: int| sp_enc_choice(r.choices[k]));
    lemma_choices_list_round(r.choices, 0);
    let ps = sp_strip(r.choices);
    assert(ps.skip(0) =~= ps);
    assert(sp_choices_from(a, 0) == Ok::<_, DecodeErrorV>(ps));
    let n = r.choices.len() as int;
    assert(sp_bases(ps) =~= Seq::new(ps.len(), |k: int| r.choices[k].base()));
    if forall|j: int| 0 <= j < n ==> (#[trigger] r.choices[j]).content_filter_results is None {
        assert(forall|j: int| 0 <= j < ps.len() ==> (#[trigger] ps[j]).1 is None);
        lemma_exts_none(ps);
        assert(sp_decode_choices(a) == sp_zip(sp_bases(ps), None));
        let got = match sp_zip(sp_bases(ps), None) {
            Ok(v) => v,
            Err(_) => arbitrary(),
        };
        assert(got =~~= r.choices);
    } else {
        assert(forall|j: int| 0 <= j < n ==> (#[trigger] r.choices[j]).content_filter_results
            is Some);
        assert(forall|j: int| 0 <= j < ps.len() ==> (#[trigger] ps[j]).1 is Some);
        lemma_exts_all(ps);
        let exts = sp_exts(ps);
        assert(exts.len() == n);
        if n == 0 {
            assert(sp_decode_choices(a) == sp_zip(sp_bases(ps), None));
            let got = match sp_zip(sp_bases(ps), None) {
                Ok(v) => v,
                Err(_) => arbitrary(),
            };
            assert(got =~~= r.choices);
        } else {
            assert(sp_decode_choices(a) == sp_zip(sp_bases(ps), Some(exts)));
            let got = match sp_zip(sp_bases(ps), Some(exts)) {
                Ok(v) => v,
                Err(_) => arbitrary(),
            };
            assert(got =~~= r.choices);
        }
    }
    assert(sp_decode_choices(a) == Ok::<_, DecodeErrorV>(r.choices));

    let out = match sp_decode(sp_encode(r)) {
        Ok(v) => v,
        Err(_) => arbitrary(),
    };
    assert(sp_decode(sp_encode(r)) is Ok);
    assert(out =~~= r);
}

/// Idempotence: encoding, decoding, and encoding again gives the same
/// document as encoding once.
pub proof fn lemma_encode_idempotent(r: CreateChatCompletionResponseV)
    requires
        wf_record(r),
    ensures
        match sp_decode(sp_encode(r)) {
            Ok(d) => sp_encode(d) == sp_encode(r),
            Err(_) => false,
        },
{
    lemma_round_trip(r);
}


spec fn choices_unwrap(
    r: Result<
        Seq<(crate::types::chat::ChatChoiceV, Option<ContentFilteringResultsV<ChoiceResults>>)>,
        DecodeErrorV,
    >,
) -> Seq<(crate::types::chat::ChatChoiceV, Option<ContentFilteringResultsV<ChoiceResults>>)> {
    match r {
        Ok(ps) => ps,
        Err(_) => arbitrary(),
    }
}

proof fn lemma_choices_from_ok_index(a: Seq<JsonV>, i: int)
    requires
        0 <= i <= a.len(),
    ensures
        sp_choices_from(a, i) is Ok ==> {
            let ps = choices_unwrap(sp_choices_from(a, i));
            &&& ps.len() == a.len() - i
            &&& forall|j: int|
                0 <= j < ps.len() ==> sp_choice(#[trigger] a[i + j]) is Ok && ps[j]
                    == sp_choice_ok(a[i + j])
        },
    decreases a.len() - i,
{
    if i < a.len() {
        lemma_choices_from_ok_index(a, i + 1);
        if sp_choices_from(a, i) is Ok {
            let ps = choices_unwrap(sp_choices_from(a, i));
            let rest = choices_unwrap(sp_choices_from(a, i + 1));
            assert(sp_choice(a[i]) is Ok);
            assert(ps == seq![sp_choice_ok(a[i])] + rest);
            assert(ps.len() == a.len() - i);
            assert forall|j: int|
                0 <= j < ps.len() implies sp_choice(#[trigger] a[i + j]) is Ok && ps[j]
                == sp_choice_ok(a[i + j]) by {
                if j > 0 {
                    assert(ps[j] == rest[j - 1]);
                    assert(rest[j - 1] == sp_choice_ok(a[(i + 1) + (j - 1)]));
                    assert((i + 1) + (j - 1) == i + j);
                    assert(sp_choice(a[(i + 1) + (j - 1)]) is Ok);
                } else {
                    assert(ps[0] == sp_choice_ok(a[i]));
                }
            };
        }
    }
}

/// Cardinality invariant: a decoded Merged Record fills either every
/// per-choice extension slot or none of them; the base choice list and the
/// extension choice list always agree in length, or the decode fails.
pub proof fn lemma_decoded_extension_cardinality(d: JsonV, r: CreateChatCompletionResponseV)
    requires
        sp_decode(d) == Ok::<_, DecodeErrorV>(r),
    ensures
        ext_uniform(r),
{
    match d {
        JsonV::Obj(es) => {
            match lookup(es, "choices"@) {
                Some(av) => match av {
                    JsonV::Arr(a) => {
                        assert(sp_decode_choices(a) is Ok);
                        let cs = match sp_decode_choices(a) {
                            Ok(v) => v,
                            Err(_) => arbitrary(),
                        };
                        assert(r.choices == cs);
                        match sp_choices_from(a, 0) {
                            Ok(ps) => {
                                if sp_exts(ps).len() == 0 {
                                    let got = match sp_zip(sp_bases(ps), None) {
                                        Ok(v) => v,
                                        Err(_) => arbitrary(),
                                    };
                                    assert(cs == got);
                                    assert(forall|i: int|
                                        0 <= i < cs.len() ==> (#[trigger] cs[i])
                                            .content_filter_results is None);
                                } else {
                                    let exts = sp_exts(ps);
                                    let got = match sp_zip(sp_bases(ps), Some(exts)) {
                                        Ok(v) => v,
                                        Err(_) => arbitrary(),
                                    };
                                    assert(cs == got);
                                    assert(forall|i: int|
                                        0 <= i < cs.len() ==> (#[trigger] cs[i])
                                            .content_filter_results is Some);
                                }
                            },
                            Err(_) => {
                                assert(false);
                            },
                        }
                    },
                    _ => {
                        assert(false);
                    },
                },
                None => {
                    assert(false);
                },
            }
        },
        _ => {
            assert(false);
        },
    }
}

/// One element of the choices array carries no extension field.
pub open spec fn choice_no_ext(j: JsonV) -> bool {
    match j {
        JsonV::Obj(es) => lookup(es, "content_filter_results"@) is None || lookup(
            es,
            "content_filter_results"@,
        ) == Some(JsonV::Null),
        _ => true,
    }
}

/// The document carries no extension field at all: no prompt-level list and
/// no per-choice filtering outcome.
pub open spec fn no_extension_fields(d: JsonV) -> bool {
    match d {
        JsonV::Obj(es) => {
            &&& (lookup(es, "prompt_filter_results"@) is None || lookup(
                es,
                "prompt_filter_results"@,
            ) == Some(JsonV::Null))
            &&& match lookup(es, "choices"@) {
                Some(JsonV::Arr(a)) => forall|i: int|
                    0 <= i < a.len() ==> choice_no_ext(#[trigger] a[i]),
                _ => true,
            }
        },
        _ => true,
    }
}

/// No-extension tolerance: a document with zero extension fields that
/// decodes at all decodes with every extension slot absent.
pub proof fn lemma_no_extension_tolerance(d: JsonV, r: CreateChatCompletionResponseV)
    requires
        sp_decode(d) == Ok::<_, DecodeErrorV>(r),
        no_extension_fields(d),
    ensures
        r.prompt_filter_results is None,
        forall|i: int|
            0 <= i < r.choices.len() ==> (#[trigger] r.choices[i]).content_filter_results
                is None,
{
    match d {
        JsonV::Obj(es) => {
            assert(sp_opt_pfr(es) == Ok::<_, DecodeErrorV>(None::<Seq<PromptFilterResultsV>>));
            match lookup(es, "choices"@) {
                Some(av) => match av {
                    JsonV::Arr(a) => {
                        assert(sp_decode_choices(a) is Ok);
                        let cs = match sp_decode_choices(a) {
                            Ok(v) => v,
                            Err(_) => arbitrary(),
                        };
                        assert(r.choices == cs);
                        match sp_choices_from(a, 0) {
                            Ok(ps) => {
                                lemma_choices_from_ok_index(a, 0);
                                assert(ps == choices_unwrap(sp_choices_from(a, 0)));
                                assert forall|j: int| 0 <= j < ps.len() implies (#[trigger] ps[j]).1
                                    is None by {
                                    assert(sp_choice(#[trigger] a[0 + j]) is Ok && ps[j]
                                        == sp_choice_ok(a[0 + j]));
                                    assert(a[0 + j] == a[j]);
                                    assert(sp_choice(a[j]) is Ok && ps[j] == sp_choice_ok(a[j]));
                                    match a[j] {
                                        JsonV::Obj(esj) => {
                                            assert(choice_no_ext(a[j]));
                                            assert(sp_opt_cfr_choice(esj) == Ok::<
                                                _,
                                                DecodeErrorV,
                                            >(None::<ContentFilteringResultsV<ChoiceResults>>));
                                        },
                                        _ => {
                                            assert(false);
                                        },
                                    }
                                };
                                lemma_exts_none(ps);
                                let got = match sp_zip(sp_bases(ps), None) {
                                    Ok(v) => v,
                                    Err(_) => arbitrary(),
                                };
                                assert(cs == got);
                                assert(forall|i: int|
                                    0 <= i < cs.len() ==> (#[trigger] cs[i])
                                        .content_filter_results is None);
                            },
                            Err(_) => {
                                assert(false);
                            },
                        }
                    },
                    _ => {
                        assert(false);
                    },
                },
                None => {
                    assert(false);
                },
            }
        },
        _ => {
            assert(false);
        },
    }
}

/// Catalog discipline of the serializer: every key the encoder emits at the
/// top level is a recognized field, never an unknown one.
pub proof fn lemma_encode_emits_only_catalog_fields(r: CreateChatCompletionResponseV)
    ensures
        sp_encode(r) is Obj,
        match sp_encode(r) {
            JsonV::Obj(es) => forall|i: int|
                0 <= i < es.len() ==> spec_classify_top_level((#[trigger] es[i]).0)
                    != FieldClass::Unknown,
            _ => false,
        },
{
    reveal_strlit("id");
    reveal_strlit("choices");
    reveal_strlit("created");
    reveal_strlit("model");
    reveal_strlit("object");
    reveal_strlit("service_tier");
    reveal_strlit("system_fingerprint");
    reveal_strlit("usage");
    reveal_strlit("prompt_filter_results");
    assert("id"@.len() == 2);
    assert("choices"@.len() == 7);
    assert("created"@.len() == 7);
    assert("model"@.len() == 5);
    assert("object"@.len() == 6);
    assert("service_tier"@.len() == 12);
    assert("system_fingerprint"@.len() == 18);
    assert("usage"@.len() == 5);
    assert("prompt_filter_results"@.len() == 21);
    let es = match sp_encode(r) {
        JsonV::Obj(es) => es,
        _ => arbitrary(),
    };
    assert(es.len() == 9);
    assert(es[0].0 == "id"@ && es[1].0 == "choices"@ && es[2].0 == "created"@ && es[3].0
        == "model"@ && es[4].0 == "object"@ && es[5].0 == "service_tier"@ && es[6].0
        == "system_fingerprint"@ && es[7].0 == "usage"@ && es[8].0
        == "prompt_filter_results"@);
    assert(forall|i: int|
        0 <= i < es.len() ==> spec_classify_top_level((#[trigger] es[i]).0)
            != FieldClass::Unknown);
}

/// Null versus absent: for every plain-optional field, an explicit `null`
/// reads exactly as an absent key.
pub proof fn lemma_null_reads_as_absent(es: Seq<(Seq<char>, JsonV)>, k: Seq<char>)
    requires
        lookup(es, k) is None || lookup(es, k) == Some(JsonV::Null),
    ensures
        sp_opt_str(es, k) == Ok::<_, DecodeErrorV>(None::<Seq<char>>),
        sp_opt_obj(es, k) == Ok::<_, DecodeErrorV>(None::<JsonV>),
        k == "service_tier"@ ==> sp_opt_service_tier(es) == Ok::<_, DecodeErrorV>(None::<
            crate::types::chat::ServiceTierResponse,
        >),
        k == "finish_reason"@ ==> sp_opt_finish_reason(es) == Ok::<_, DecodeErrorV>(None::<
            crate::types::chat::FinishReason,
        >),
        k == "usage"@ ==> sp_usage(es) == Ok::<_, DecodeErrorV>(None::<CompletionUsage>),
        k == "prompt_filter_results"@ ==> sp_opt_pfr(es) == Ok::<_, DecodeErrorV>(None::<
            Seq<PromptFilterResultsV>,
        >),
        k == "content_filter_results"@ ==> sp_opt_cfr_choice(es) == Ok::<_, DecodeErrorV>(None::<
            ContentFilteringResultsV<ChoiceResults>,
        >),
{
}


proof fn lemma_decode_drops_entry(es: Seq<(Seq<char>, JsonV)>, idx: int)
    requires
        0 <= idx < es.len(),
        first_dup(es) is None,
        spec_classify_top_level(es[idx].0) == FieldClass::Unknown || (es[idx].0
            == "system_fingerprint"@ && es[idx].1 == JsonV::Null),
    ensures
        first_dup(es.remove(idx)) is None,
        sp_decode(JsonV::Obj(es)) == sp_decode(JsonV::Obj(es.remove(idx))),
{
    reveal_strlit("id");
    reveal_strlit("choices");
    reveal_strlit("created");
    reveal_strlit("model");
    reveal_strlit("object");
    reveal_strlit("service_tier");
    reveal_strlit("system_fingerprint");
    reveal_strlit("usage");
    reveal_strlit("prompt_filter_results");
    assert("id"@.len() == 2);
    assert("choices"@.len() == 7);
    assert("created"@.len() == 7);
    assert("model"@.len() == 5);
    assert("object"@.len() == 6);
    assert("service_tier"@.len() == 12);
    assert("system_fingerprint"@.len() == 18);
    assert("usage"@.len() == 5);
    assert("prompt_filter_results"@.len() == 21);
    assert("choices"@[1] == 'h');
    assert("created"@[1] == 'r');
    assert("model"@[0] == 'm');
    assert("usage"@[0] == 'u');
    let es2 = es.remove(idx);
    let k0 = es[idx].0;
    crate::json::lemma_first_dup_none_pointwise(es);
    assert forall|i: int, j: int| 0 <= i < j < es2.len() implies (#[trigger] es2[i]).0 != (
    #[trigger] es2[j]).0 by {
        let i0: int = if i < idx {
            i
        } else {
            i + 1
        };
        let j0: int = if j < idx {
            j
        } else {
            j + 1
        };
        assert(es2[i] == es[i0]);
        assert(es2[j] == es[j0]);
    };
    crate::json::lemma_pointwise_first_dup_none(es2);
    assert(spec_classify_top_level("system_fingerprint"@) == FieldClass::BaseOnly);
    assert(spec_classify_top_level("id"@) == FieldClass::BaseOnly);
    assert("id"@ != k0);
    crate::json::lemma_lookup_remove(es, idx, "id"@);
    assert(spec_classify_top_level("choices"@) == FieldClass::BaseOnly);
    assert("choices"@ != k0);
    crate::json::lemma_lookup_remove(es, idx, "choices"@);
    assert(spec_classify_top_level("created"@) == FieldClass::BaseOnly);
    assert("created"@ != k0);
    crate::json::lemma_lookup_remove(es, idx, "created"@);
    assert(spec_classify_top_level("model"@) == FieldClass::BaseOnly);
    assert("model"@ != k0);
    crate::json::lemma_lookup_remove(es, idx, "model"@);
    assert(spec_classify_top_level("object"@) == FieldClass::BaseOnly);
    assert("object"@ != k0);
    crate::json::lemma_lookup_remove(es, idx, "object"@);
    assert(spec_classify_top_level("service_tier"@) == FieldClass::BaseOnly);
    assert("service_tier"@ != k0);
    crate::json::lemma_lookup_remove(es, idx, "service_tier"@);
    assert(spec_classify_top_level("usage"@) == FieldClass::BaseOnly);
    assert("usage"@ != k0);
    crate::json::lemma_lookup_remove(es, idx, "usage"@);
    assert(spec_classify_top_level("prompt_filter_results"@) == FieldClass::ExtensionOnly);
    assert("prompt_filter_results"@ != k0);
    crate::json::lemma_lookup_remove(es, idx, "prompt_filter_results"@);
    if spec_classify_top_level(k0) == FieldClass::Unknown {
        assert("system_fingerprint"@ != k0);
        crate::json::lemma_lookup_remove(es, idx, "system_fingerprint"@);
        assert(lookup(es2, "system_fingerprint"@) == lookup(es, "system_fingerprint"@));
    } else {
        assert(k0 == "system_fingerprint"@);
        assert forall|i: int| 0 <= i < idx implies (#[trigger] es[i]).0 != es[idx].0 by {}
        crate::json::lemma_lookup_found_at(es, idx);
        assert(lookup(es, "system_fingerprint"@) == Some(JsonV::Null));
        assert forall|i: int| 0 <= i < es2.len() implies (#[trigger] es2[i]).0
            != "system_fingerprint"@ by {
            let i0: int = if i < idx {
                i
            } else {
                i + 1
            };
            assert(es2[i] == es[i0]);
        };
        crate::json::lemma_lookup_absent(es2, "system_fingerprint"@);
    }
    assert(sp_opt_str(es2, "system_fingerprint"@) == sp_opt_str(es, "system_fingerprint"@));
    assert(lookup(es2, "id"@) == lookup(es, "id"@));
    assert(lookup(es2, "choices"@) == lookup(es, "choices"@));
    assert(lookup(es2, "created"@) == lookup(es, "created"@));
    assert(lookup(es2, "model"@) == lookup(es, "model"@));
    assert(lookup(es2, "object"@) == lookup(es, "object"@));
    assert(lookup(es2, "service_tier"@) == lookup(es, "service_tier"@));
    assert(lookup(es2, "usage"@) == lookup(es, "usage"@));
    assert(lookup(es2, "prompt_filter_results"@) == lookup(es, "prompt_filter_results"@));
    assert(sp_req_str(es2, "id"@) == sp_req_str(es, "id"@));
    assert(sp_req_u32(es2, "created"@) == sp_req_u32(es, "created"@));
    assert(sp_req_str(es2, "model"@) == sp_req_str(es, "model"@));
    assert(sp_req_str(es2, "object"@) == sp_req_str(es, "object"@));
    assert(sp_opt_service_tier(es2) == sp_opt_service_tier(es));
    assert(sp_usage(es2) == sp_usage(es));
    assert(sp_opt_pfr(es2) == sp_opt_pfr(es));
    assert(sp_decode(JsonV::Obj(es)) == sp_decode(JsonV::Obj(es2)));
}

/// Unknown-field tolerance, decode side: removing an unrecognized top-level
/// field from a duplicate-free document changes nothing about the decode.
pub proof fn lemma_decode_ignores_unknown_field(es: Seq<(Seq<char>, JsonV)>, idx: int)
    requires
        0 <= idx < es.len(),
        first_dup(es) is None,
        spec_classify_top_level(es[idx].0) == FieldClass::Unknown,
    ensures
        sp_decode(JsonV::Obj(es)) == sp_decode(JsonV::Obj(es.remove(idx))),
{
    lemma_decode_drops_entry(es, idx);
}

/// Null versus absent, document side: a duplicate-free document binding
/// `system_fingerprint` to `null` decodes exactly as the document with the
/// key removed.
pub proof fn lemma_null_fingerprint_like_absent(es: Seq<(Seq<char>, JsonV)>, idx: int)
    requires
        0 <= idx < es.len(),
        first_dup(es) is None,
        es[idx].0 == "system_fingerprint"@,
        es[idx].1 == JsonV::Null,
    ensures
        sp_decode(JsonV::Obj(es)) == sp_decode(JsonV::Obj(es.remove(idx))),
{
    lemma_decode_drops_entry(es, idx);
}


/// Duplicate detection: a document whose top-level object repeats a key is
/// rejected with exactly that key, whatever else it holds.
pub proof fn lemma_duplicate_field_rejected(es: Seq<(Seq<char>, JsonV)>, k: Seq<char>)
    requires
        first_dup(es) == Some(k),
    ensures
        sp_decode(JsonV::Obj(es)) == Err::<CreateChatCompletionResponseV, _>(
            DecodeErrorV::DuplicateField(k),
        ),
{
}

} // verus!

use imgchat::decode::{decode_response, finish_reason_from_str, DecodeError};
use imgchat::model::{FinishReason, JsonNum};
use imgchat::output::extract_lines;

fn minimal_body() -> String {
    String::from(
        "{\"id\":\"chatcmpl-1\",\"object\":\"chat.completion\",\"created\":1700000000,\
         \"model\":\"gpt-4o\",\"system_fingerprint\":\"fp_1\",\
         \"choices\":[{\"index\":0,\"message\":{\"role\":\"assistant\",\"content\":\"A\\nB\"},\
         \"finish_reason\":\"stop\"}],\
         \"usage\":{\"prompt_tokens\":10,\"completion_tokens\":5,\"total_tokens\":15}}",
    )
}

#[test]
fn decodes_the_minimal_body() {
    let chat = decode_response(&minimal_body()).expect("the minimal body must decode");
    assert_eq!(chat.id, "chatcmpl-1");
    assert_eq!(chat.object, "chat.completion");
    assert_eq!(chat.created, 1700000000);
    assert_eq!(chat.model, "gpt-4o");
    assert_eq!(chat.system_fingerprint, "fp_1");
    assert_eq!(chat.usage.prompt_tokens, 10);
    assert_eq!(chat.usage.completion_tokens, 5);
    assert_eq!(chat.usage.total_tokens, 15);
    assert_eq!(chat.choices.len(), 1);
    assert_eq!(chat.choices[0].index, 0);
    assert_eq!(chat.choices[0].message.role, "assistant");
    assert_eq!(chat.choices[0].message.content, "A\nB");
    assert_eq!(chat.choices[0].finish_reason, FinishReason::Stop);
    assert!(chat.choices[0].logprobs.is_none());
}

#[test]
fn unknown_fields_are_tolerated_and_change_nothing() {
    let noisy = String::from(
        "{\"unknown_top\":{\"deep\":[1,2,{\"x\":null}]},\"id\":\"chatcmpl-1\",\
         \"object\":\"chat.completion\",\"created\":1700000000,\"model\":\"gpt-4o\",\
         \"system_fingerprint\":\"fp_1\",\
         \"choices\":[{\"index\":0,\"surprise\":true,\
         \"message\":{\"role\":\"assistant\",\"content\":\"A\\nB\",\"annotations\":[]},\
         \"finish_reason\":\"stop\"}],\
         \"usage\":{\"prompt_tokens\":10,\"completion_tokens\":5,\"total_tokens\":15,\
         \"completion_tokens_details\":{\"reasoning_tokens\":0}},\"service_tier\":\"default\"}",
    );
    let plain = decode_response(&minimal_body()).expect("the minimal body must decode");
    let chat = decode_response(&noisy).expect("unknown fields must not fail the decode");
    assert_eq!(chat.id, plain.id);
    assert_eq!(chat.created, plain.created);
    assert_eq!(chat.usage.total_tokens, plain.usage.total_tokens);
    assert_eq!(extract_lines(&chat), extract_lines(&plain));
    assert_eq!(extract_lines(&chat), vec!["A", "B"]);
}

#[test]
fn a_body_that_is_not_json_is_a_syntax_error() {
    assert!(matches!(decode_response("not json at all"), Err(DecodeError::Syntax)));
}

#[test]
fn a_missing_required_field_is_a_field_error() {
    let body = minimal_body().replace("\"model\":\"gpt-4o\",", "");
    assert!(matches!(decode_response(&body), Err(DecodeError::Field)));
}

#[test]
fn a_wrongly_typed_field_is_a_field_error() {
    let body = minimal_body().replace("\"created\":1700000000", "\"created\":\"yesterday\"");
    assert!(matches!(decode_response(&body), Err(DecodeError::Field)));
}

#[test]
fn an_unknown_finish_reason_is_its_own_error() {
    let body = minimal_body().replace("\"finish_reason\":\"stop\"", "\"finish_reason\":\"banana\"");
    assert!(matches!(decode_response(&body), Err(DecodeError::UnknownFinishReason)));
}

#[test]
fn an_index_beyond_32_bits_is_a_field_error() {
    let body = minimal_body().replace("\"index\":0", "\"index\":4294967296");
    assert!(matches!(decode_response(&body), Err(DecodeError::Field)));
}

#[test]
fn a_negative_counter_is_a_field_error() {
    let body = minimal_body().replace("\"prompt_tokens\":10", "\"prompt_tokens\":-1");
    assert!(matches!(decode_response(&body), Err(DecodeError::Field)));
}

#[test]
fn every_wire_finish_reason_maps_to_its_variant() {
    assert_eq!(finish_reason_from_str("stop"), Some(FinishReason::Stop));
    assert_eq!(finish_reason_from_str("length"), Some(FinishReason::Length));
    assert_eq!(finish_reason_from_str("content_filter"), Some(FinishReason::ContentFilter));
    assert_eq!(finish_reason_from_str("tool_calls"), Some(FinishReason::ToolCalls));
    assert_eq!(finish_reason_from_str("function_call"), Some(FinishReason::FunctionCall));
    assert_eq!(finish_reason_from_str(""), None);
    assert_eq!(finish_reason_from_str("Stop"), None);
    assert_eq!(finish_reason_from_str("stopped"), None);
}

#[test]
fn a_logprobs_block_is_kept_but_not_interpreted() {
    let body = minimal_body().replace(
        "\"finish_reason\":\"stop\"",
        "\"logprobs\":{\"content\":[{\"token\":\"t\",\"logprob\":-0.25,\
         \"bytes\":[227,129,130],\"top_logprobs\":[{\"token\":\"u\",\"logprob\":-1.5,\
         \"bytes\":null}]}]},\"finish_reason\":\"stop\"",
    );
    let chat = decode_response(&body).expect("a logprobs block must decode");
    let lp = chat.choices[0].logprobs.as_ref().expect("the block must be kept");
    let items = lp.content.as_ref().expect("the token list must be kept");
    assert_eq!(items.len(), 1);
    assert_eq!(items[0].token, "t");
    assert_eq!(items[0].logprob, JsonNum::Other(String::from("-0.25")));
    assert_eq!(items[0].bytes, Some(vec![227, 129, 130]));
    assert_eq!(items[0].top_logprobs.len(), 1);
    assert_eq!(items[0].top_logprobs[0].token, "u");
    assert_eq!(items[0].top_logprobs[0].logprob, JsonNum::Other(String::from("-1.5")));
    assert!(items[0].top_logprobs[0].bytes.is_none());
}

#[test]
fn a_null_logprobs_field_is_absent() {
    let body = minimal_body().replace(
        "\"finish_reason\":\"stop\"",
        "\"logprobs\":null,\"finish_reason\":\"stop\"",
    );
    let chat = decode_response(&body).expect("null logprobs must decode");
    assert!(chat.choices[0].logprobs.is_none());
}

#[test]
fn choices_may_be_empty() {
    let body = String::from(
        "{\"id\":\"x\",\"object\":\"chat.completion\",\"created\":0,\"model\":\"m\",\
         \"system_fingerprint\":\"fp\",\"choices\":[],\
         \"usage\":{\"prompt_tokens\":0,\"completion_tokens\":0,\"total_tokens\":0}}",
    );
    let chat = decode_response(&body).expect("an empty choice list must decode");
    assert_eq!(chat.choices.len(), 0);
    assert_eq!(extract_lines(&chat).len(), 0);
}

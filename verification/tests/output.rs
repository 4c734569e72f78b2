use imgchat::decode::decode_response;
use imgchat::model::{ChatCompletion, Choice, FinishReason, Message, Usage};
use imgchat::output::extract_lines;
use imgchat::text::{split_lines, str_eq};

fn choice(reason: FinishReason, content: &str) -> Choice {
    Choice {
        index: 0,
        message: Message { role: String::from("assistant"), content: String::from(content) },
        logprobs: None,
        finish_reason: reason,
    }
}

fn chat_with(choices: Vec<Choice>) -> ChatCompletion {
    ChatCompletion {
        id: String::from("x"),
        object: String::from("chat.completion"),
        created: 0,
        model: String::from("gpt-4o"),
        system_fingerprint: String::from("fp"),
        choices,
        usage: Usage { prompt_tokens: 0, completion_tokens: 0, total_tokens: 0 },
    }
}

#[test]
fn splitting_keeps_empty_segments() {
    assert_eq!(split_lines("X\n\nY"), vec!["X", "", "Y"]);
}

#[test]
fn splitting_without_newline_is_one_segment() {
    assert_eq!(split_lines("abc"), vec!["abc"]);
}

#[test]
fn splitting_the_empty_string_is_one_empty_segment() {
    assert_eq!(split_lines(""), vec![""]);
}

#[test]
fn a_trailing_newline_leaves_an_empty_segment() {
    assert_eq!(split_lines("A\n"), vec!["A", ""]);
}

#[test]
fn string_equality_is_exact() {
    assert!(str_eq("stop", "stop"));
    assert!(!str_eq("stop", "stup"));
    assert!(!str_eq("stop", "stopped"));
    assert!(str_eq("", ""));
}

#[test]
fn only_stop_choices_contribute_lines() {
    let chat = chat_with(vec![
        choice(FinishReason::Stop, "A\nB"),
        choice(FinishReason::Length, "C"),
        choice(FinishReason::Stop, "D\nE\nF"),
    ]);
    assert_eq!(extract_lines(&chat), vec!["A", "B", "D", "E", "F"]);
}

#[test]
fn the_same_filter_holds_through_a_decoded_response() {
    let body = String::from(
        "{\"id\":\"x\",\"object\":\"chat.completion\",\"created\":0,\"model\":\"gpt-4o\",\
         \"system_fingerprint\":\"fp\",\"choices\":[\
         {\"index\":0,\"message\":{\"role\":\"assistant\",\"content\":\"A\\nB\"},\"finish_reason\":\"stop\"},\
         {\"index\":1,\"message\":{\"role\":\"assistant\",\"content\":\"C\"},\"finish_reason\":\"length\"},\
         {\"index\":2,\"message\":{\"role\":\"assistant\",\"content\":\"D\\nE\\nF\"},\"finish_reason\":\"stop\"}],\
         \"usage\":{\"prompt_tokens\":0,\"completion_tokens\":0,\"total_tokens\":0}}",
    );
    let chat = decode_response(&body).expect("the synthetic response must decode");
    assert_eq!(extract_lines(&chat), vec!["A", "B", "D", "E", "F"]);
}

#[test]
fn no_finish_reason_but_stop_yields_output() {
    let chat = chat_with(vec![
        choice(FinishReason::Length, "A"),
        choice(FinishReason::ContentFilter, "B"),
        choice(FinishReason::ToolCalls, "C"),
        choice(FinishReason::FunctionCall, "D"),
    ]);
    assert_eq!(extract_lines(&chat).len(), 0);
}

#[test]
fn empty_lines_survive_extraction() {
    let chat = chat_with(vec![choice(FinishReason::Stop, "X\n\nY")]);
    assert_eq!(extract_lines(&chat), vec!["X", "", "Y"]);
}

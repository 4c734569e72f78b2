use imgchat::request::{bearer_header, build_content, build_request_body, data_url, RequestContent};

const INSTRUCTION: &str =
    "List all Japanese sentences in these images, separated by a newline. Say nothing else.";

#[test]
fn data_url_encodes_the_bytes() {
    assert_eq!(data_url(&vec![1u8, 2, 3]), "data:image/jpeg;base64,AQID");
    assert_eq!(data_url(&vec![0xffu8, 0xd8]), "data:image/jpeg;base64,/9g=");
    assert_eq!(data_url(&Vec::new()), "data:image/jpeg;base64,");
}

#[test]
fn data_url_matches_the_standard_engine() {
    let bytes: Vec<u8> = (0u8..=255).collect();
    let expected = format!(
        "data:image/jpeg;base64,{}",
        base64::Engine::encode(&base64::engine::general_purpose::STANDARD, &bytes)
    );
    assert_eq!(data_url(&bytes), expected);
}

#[test]
fn content_has_instruction_first_then_images_in_order() {
    let images = vec![vec![1u8, 2, 3], vec![0xffu8, 0xd8]];
    let content = build_content(&images);
    assert_eq!(content.len(), 3);
    match &content[0] {
        RequestContent::Text { text } => assert_eq!(text, INSTRUCTION),
        RequestContent::ImageUrl { .. } => panic!("the instruction must come first"),
    }
    match &content[1] {
        RequestContent::ImageUrl { url, detail } => {
            assert_eq!(url, "data:image/jpeg;base64,AQID");
            assert_eq!(detail, "high");
        },
        RequestContent::Text { .. } => panic!("images must follow the instruction"),
    }
    match &content[2] {
        RequestContent::ImageUrl { url, detail } => {
            assert_eq!(url, "data:image/jpeg;base64,/9g=");
            assert_eq!(detail, "high");
        },
        RequestContent::Text { .. } => panic!("images must follow the instruction"),
    }
}

#[test]
fn body_for_one_image_is_the_exact_wire_text() {
    let body = build_request_body(&vec![vec![1u8, 2, 3]]);
    let expected = String::from(
        "{\"model\":\"gpt-4o\",\"max_tokens\":600,\"messages\":[{\"role\":\"user\",\"content\":[{\"type\":\"text\",\"text\":\"",
    ) + INSTRUCTION
        + "\"},{\"type\":\"image_url\",\"image_url\":{\"url\":\"data:image/jpeg;base64,AQID\",\"detail\":\"high\"}}]}]}";
    assert_eq!(body, expected);
}

#[test]
fn body_is_valid_json_with_the_fixed_envelope() {
    let images = vec![vec![1u8, 2, 3], vec![4u8, 5]];
    let body = build_request_body(&images);
    let v: serde_json::Value = serde_json::from_str(&body).expect("the body must be valid JSON");
    assert_eq!(v.get("model").unwrap().as_str().unwrap(), "gpt-4o");
    assert_eq!(v.get("max_tokens").unwrap().as_u64().unwrap(), 600);
    let messages = v.get("messages").unwrap().as_array().unwrap();
    assert_eq!(messages.len(), 1);
    assert_eq!(messages[0].get("role").unwrap().as_str().unwrap(), "user");
    let content = messages[0].get("content").unwrap().as_array().unwrap();
    assert_eq!(content.len(), 3);
    assert_eq!(content[0].get("type").unwrap().as_str().unwrap(), "text");
    assert_eq!(content[0].get("text").unwrap().as_str().unwrap(), INSTRUCTION);
    assert_eq!(content[1].get("type").unwrap().as_str().unwrap(), "image_url");
    assert_eq!(
        content[1].get("image_url").unwrap().get("detail").unwrap().as_str().unwrap(),
        "high"
    );
    assert_eq!(
        content[2].get("image_url").unwrap().get("url").unwrap().as_str().unwrap(),
        "data:image/jpeg;base64,BAU="
    );
}

#[test]
fn bearer_header_prefixes_the_token() {
    assert_eq!(bearer_header("tok"), "Bearer tok");
}

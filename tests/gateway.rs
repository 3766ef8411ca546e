use prompty::{
    ChatCompletionResponse, Exchange, ImageAction, ImageEvent, OpenAiError, get_openai_chat,
    get_openai_image, needs_body,
};

fn chat(status: u16, body: &str) -> Result<String, OpenAiError> {
    get_openai_chat(Exchange::Answered(status, body.to_string()))
}

fn image(status: u16, body: &str) -> ImageAction {
    get_openai_image(ImageEvent::Generated(Exchange::Answered(status, body.to_string())))
}

fn finished_with(action: ImageAction, expected: OpenAiError) -> bool {
    matches!(action, ImageAction::Finish(Err(e)) if e == expected)
}

#[test]
fn chat_deserialize() {
    let response = ChatCompletionResponse::from_text(
        r#"{
            "id": "chatcmpl-6ynZ0ReyzjzMhPjLubNzx1AvPYluQ",
            "object": "chat.completion",
            "created": 1679948222,
            "model": "gpt-3.5-turbo-0301",
            "usage": {
                "prompt_tokens": 12,
                "completion_tokens": 107,
                "total_tokens": 119
            },
            "choices": [
                {
                    "message": {
                        "role": "assistant",
                        "content": "As an AI language model, I don't experience emotions. However, love is a complex and multifaceted emotion that can be experienced in many different ways. It can be a profound feeling of affection and care for someone or something, or it can be a deep sense of connection and intimacy with another person. Love can also include feelings of compassion, empathy, and respect, and it can be expressed through actions, words, and behaviors. Ultimately, love is a deeply personal and subjective experience that can mean different things to different people."
                    },
                    "finish_reason": "stop",
                    "index": 0
                }
            ]
        }"#,
    )
    .unwrap();
    assert_eq!(1, response.choices.len())
}

#[test]
fn chat_example_payload_returns_its_content() {
    let body = r#"{"id":"x","choices":[{"message":{"role":"assistant","content":"Hello \"there\"\n"},"finish_reason":"stop","index":0}],"usage":{"total_tokens":3}}"#;
    let response = ChatCompletionResponse::from_text(body).unwrap();
    assert_eq!(response.choices.len(), 1);
    assert_eq!(chat(200, body), Ok("Hello \"there\"\n".to_string()));
}

#[test]
fn chat_takes_the_last_choice() {
    let body = r#"{"choices":[
        {"message":{"role":"assistant","content":"first"}},
        {"message":{"role":"assistant","content":"second"}},
        {"message":{"role":"user","content":"third"}}]}"#;
    assert_eq!(chat(200, body), Ok("third".to_string()));
}

#[test]
fn chat_single_choice() {
    let body = r#"{"choices":[{"message":{"role":"system","content":""}}]}"#;
    assert_eq!(chat(200, body), Ok(String::new()));
}

#[test]
fn chat_empty_choices_is_malformed() {
    assert_eq!(chat(200, r#"{"choices":[]}"#), Err(OpenAiError::Malformed));
}

#[test]
fn chat_unreadable_success_is_malformed() {
    assert_eq!(chat(200, "not json"), Err(OpenAiError::Malformed));
    assert_eq!(chat(200, r#"{"data":[]}"#), Err(OpenAiError::Malformed));
    assert_eq!(chat(200, r#"{"choices":{}}"#), Err(OpenAiError::Malformed));
    assert_eq!(
        chat(200, r#"{"choices":[{"message":{"role":"robot","content":"x"}}]}"#),
        Err(OpenAiError::Malformed)
    );
    assert_eq!(
        chat(200, r#"{"choices":[{"message":{"role":"user","content":"a"}},{"message":{"role":"user"}}]}"#),
        Err(OpenAiError::Malformed)
    );
}

#[test]
fn limit_code_wins_over_message() {
    let body = r#"{"error":{"code":"billing_hard_limit_reached","message":"safety system"}}"#;
    assert_eq!(chat(400, body), Err(OpenAiError::LimitReached));
    assert!(finished_with(image(400, body), OpenAiError::LimitReached));
}

#[test]
fn safety_word_without_limit_code() {
    let body = r#"{"error":{"code":null,"message":"Your request was rejected as a result of our safety system."}}"#;
    assert_eq!(chat(400, body), Err(OpenAiError::Safety));
    assert!(finished_with(image(400, body), OpenAiError::Safety));
    let other_code = r#"{"error":{"code":"content_policy_violation","message":"safety"}}"#;
    assert_eq!(chat(400, other_code), Err(OpenAiError::Safety));
    let no_code = r#"{"error":{"message":"unsafety"}}"#;
    assert_eq!(chat(400, no_code), Err(OpenAiError::Safety));
}

#[test]
fn safety_word_is_case_sensitive() {
    let body = r#"{"error":{"code":null,"message":"Rejected by our SAFETY system"}}"#;
    assert_eq!(chat(400, body), Err(OpenAiError::BadRequest));
}

#[test]
fn other_rejection_is_bad_request() {
    let body = r#"{"error":{"code":"invalid_size","message":"size must be 1024"}}"#;
    assert_eq!(chat(400, body), Err(OpenAiError::BadRequest));
    assert!(finished_with(image(400, body), OpenAiError::BadRequest));
}

#[test]
fn unreadable_rejection_is_malformed() {
    assert_eq!(chat(400, "<html>"), Err(OpenAiError::Malformed));
    assert_eq!(chat(400, r#"{"error":{"code":7,"message":"safety"}}"#), Err(OpenAiError::Malformed));
    assert_eq!(chat(400, r#"{"error":{"code":null}}"#), Err(OpenAiError::Malformed));
    assert!(finished_with(image(400, "{}"), OpenAiError::Malformed));
}

#[test]
fn unauthorized_status() {
    assert_eq!(chat(401, ""), Err(OpenAiError::Unauthorized));
    assert!(finished_with(image(401, ""), OpenAiError::Unauthorized));
}

#[test]
fn other_status_carries_the_status() {
    for status in [201u16, 302, 403, 404, 429, 500, 503] {
        assert_eq!(chat(status, ""), Err(OpenAiError::NetworkError(Some(status))));
        assert!(finished_with(image(status, "{}"), OpenAiError::NetworkError(Some(status))));
    }
}

#[test]
fn only_success_and_rejection_bodies_are_read() {
    assert!(needs_body(200));
    assert!(needs_body(400));
    assert!(!needs_body(401));
    assert!(!needs_body(500));
}

#[test]
fn transport_failure_is_network_error() {
    assert_eq!(get_openai_chat(Exchange::Failed(None)), Err(OpenAiError::NetworkError(None)));
    assert!(finished_with(
        get_openai_image(ImageEvent::Generated(Exchange::Failed(None))),
        OpenAiError::NetworkError(None)
    ));
    assert!(finished_with(
        get_openai_image(ImageEvent::Fetched(Err(None))),
        OpenAiError::NetworkError(None)
    ));
}

#[test]
fn image_success_fetches_the_first_url() {
    let action = image(200, r#"{"created":1,"data":[{"url":"https://x/y.png"},{"url":"https://x/z.png"}]}"#);
    assert!(matches!(action, ImageAction::Fetch(url) if url == "https://x/y.png"));
}

#[test]
fn image_bytes_come_back_unchanged() {
    let action = image(200, r#"{"data":[{"url":"https://x/y.png"}]}"#);
    assert!(matches!(action, ImageAction::Fetch(url) if url == "https://x/y.png"));
    let bytes = vec![0x89u8, 0x50, 0x4E, 0x47, 0x0D, 0x0A, 0x1A, 0x0A];
    let done = get_openai_image(ImageEvent::Fetched(Ok(bytes.clone())));
    assert!(matches!(done, ImageAction::Finish(Ok(b)) if b == bytes));
}

#[test]
fn image_without_data_is_malformed() {
    assert!(finished_with(image(200, r#"{"data":[]}"#), OpenAiError::Malformed));
    assert!(finished_with(image(200, r#"{"data":[{"uri":"x"}]}"#), OpenAiError::Malformed));
    assert!(finished_with(image(200, "]"), OpenAiError::Malformed));
}

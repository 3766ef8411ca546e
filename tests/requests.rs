use prompty::{
    CHAT_MODEL, ChatCompletionMessageRole, OpenAiError, Personality, chat_request, image_request,
    personality_reply, personality_set_reply,
};

#[test]
fn chat_request_without_personality() {
    let r = chat_request(None, "Why is the sky blue?".to_string());
    assert_eq!(r.model, "gpt-3.5-turbo");
    assert_eq!(r.model, CHAT_MODEL);
    assert_eq!(r.messages.len(), 1);
    assert_eq!(r.messages[0].role, ChatCompletionMessageRole::User);
    assert_eq!(r.messages[0].content, "Why is the sky blue?");
}

#[test]
fn chat_request_with_personality() {
    let r = chat_request(Some("a pirate".to_string()), "hi".to_string());
    assert_eq!(r.messages.len(), 2);
    assert_eq!(r.messages[0].role, ChatCompletionMessageRole::System);
    assert_eq!(r.messages[0].content, "a pirate");
    assert_eq!(r.messages[1].role, ChatCompletionMessageRole::User);
    assert_eq!(r.messages[1].content, "hi");
}

#[test]
fn image_request_holds_the_prompt() {
    assert_eq!(image_request("a red fox").prompt, "a red fox");
}

#[test]
fn error_replies() {
    assert_eq!(OpenAiError::Safety.reply(), "Bonk!!! Go directly to horny jail");
    assert_eq!(OpenAiError::LimitReached.reply(), "Looks like I'm all out of paint this month :(");
    let generic = "Uh oh something went wrong while I was trying to respond!";
    assert_eq!(OpenAiError::BadRequest.reply(), generic);
    assert_eq!(OpenAiError::Unauthorized.reply(), generic);
    assert_eq!(OpenAiError::NetworkError(Some(500)).reply(), generic);
    assert_eq!(OpenAiError::NetworkError(None).reply(), generic);
    assert_eq!(OpenAiError::Malformed.reply(), generic);
}

#[test]
fn personality_starts_helpful() {
    assert_eq!(Personality::new().get(), "I'm a helpful assistant");
}

#[test]
fn last_writer_wins() {
    let mut p = Personality::new();
    p.set("A".to_string());
    p.set("B".to_string());
    assert_eq!(p.get(), "B");
    let mut q = Personality::with_text("start".to_string());
    q.set("B".to_string());
    q.set("A".to_string());
    assert_eq!(q.get(), "A");
}

#[test]
fn personality_replies() {
    let p = Personality::with_text("a pirate".to_string());
    assert_eq!(p.describe(), "My personality is: a pirate");
    assert_eq!(personality_reply(""), "My personality is: ");
    assert_eq!(personality_set_reply("calm"), "Got it! From now on my personality is: calm");
}

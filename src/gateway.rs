use vstd::prelude::*;
use crate::error::OpenAiError;
use crate::json::{Json, decode_json, json_of_text};
use crate::wire::{
    ChatCompletionMessage, ChatCompletionMessageRole, ChatCompletionRequest, ChatCompletionResponse,
    ErrorResponse, ImageGenerationRequest, ImageGenerationResponse, OpenAiErrorResponse,
    chat_response_spec, error_response_spec, image_response_spec,
};

verus! {

/// The chat model that every chat request asks for.
pub const CHAT_MODEL: &'static str = "gpt-3.5-turbo";

/// The error code with which the service reports a spent budget.
pub const LIMIT_CODE: &'static str = "billing_hard_limit_reached";

/// The word by which a rejection message reveals a content-policy refusal.
pub const SAFETY_WORD: &'static str = "safety";

/// Whether `p` occurs in `s` as a run of consecutive characters.
pub open spec fn has_infix(s: Seq<char>, p: Seq<char>) -> bool {
    exists|i: int| 0 <= i && i + p.len() <= s.len() && #[trigger] s.subrange(i, i + p.len()) == p
}

/// Relies on `str::contains` with a `&str` pattern: whether `p` matches a
/// sub-slice of `s`.
#[verifier::external_body]
fn text_contains(s: &str, p: &str) -> (r: bool)
    ensures
        r == has_infix(s@, p@),
{
    s.contains(p)
}

/// What a described rejection means: the budget code first, then the word
/// "safety" in the message, else a plain bad request.
pub open spec fn rejection_kind(e: (Option<Seq<char>>, Seq<char>)) -> OpenAiError {
    if e.0 == Some("billing_hard_limit_reached"@) {
        OpenAiError::LimitReached
    } else if has_infix(e.1, "safety"@) {
        OpenAiError::Safety
    } else {
        OpenAiError::BadRequest
    }
}

/// What a rejection with the decoded body `doc` means.
pub open spec fn rejection_spec(doc: Option<Json>) -> OpenAiError {
    match doc {
        Some(d) => match error_response_spec(d) {
            Some(e) => rejection_kind(e),
            None => OpenAiError::Malformed,
        },
        None => OpenAiError::Malformed,
    }
}

/// The error of an answer whose status is not 200.
pub open spec fn status_error(status: u16, doc: Option<Json>) -> OpenAiError {
    if status == 400 {
        rejection_spec(doc)
    } else if status == 401 {
        OpenAiError::Unauthorized
    } else {
        OpenAiError::NetworkError(Some(status))
    }
}

/// What a chat answer with this status and decoded body yields: the content of
/// the last completion, or an error.
pub open spec fn chat_result(status: u16, doc: Option<Json>) -> Result<Seq<char>, OpenAiError> {
    if status == 200 {
        match doc {
            Some(d) => match chat_response_spec(d) {
                Some(choices) => if choices.len() > 0 {
                    Ok(choices.last().1)
                } else {
                    Err(OpenAiError::Malformed)
                },
                None => Err(OpenAiError::Malformed),
            },
            None => Err(OpenAiError::Malformed),
        }
    } else {
        Err(status_error(status, doc))
    }
}

/// What an image generation answer with this status and decoded body yields:
/// the address of the first image, or an error.
pub open spec fn image_url_result(status: u16, doc: Option<Json>) -> Result<Seq<char>, OpenAiError> {
    if status == 200 {
        match doc {
            Some(d) => match image_response_spec(d) {
                Some(urls) => if urls.len() > 0 {
                    Ok(urls[0])
                } else {
                    Err(OpenAiError::Malformed)
                },
                None => Err(OpenAiError::Malformed),
            },
            None => Err(OpenAiError::Malformed),
        }
    } else {
        Err(status_error(status, doc))
    }
}

/// A text result seen through the view of its text.
pub open spec fn text_result(r: Result<String, OpenAiError>) -> Result<Seq<char>, OpenAiError> {
    match r {
        Ok(s) => Ok(s@),
        Err(e) => Err(e),
    }
}

/// Classifies a described rejection.
pub fn classify_rejection(e: &OpenAiErrorResponse) -> (r: OpenAiError)
    ensures
        r == rejection_kind(e@),
{
    let limit = LIMIT_CODE.to_owned();
    let is_limit = match &e.code {
        Some(code) => *code == limit,
        None => false,
    };
    if is_limit {
        OpenAiError::LimitReached
    } else if text_contains(e.message.as_str(), SAFETY_WORD) {
        OpenAiError::Safety
    } else {
        OpenAiError::BadRequest
    }
}

/// Whether an answer with this status is read for its body.
pub fn needs_body(status: u16) -> (r: bool)
    ensures
        r == (status == 200 || status == 400),
{
    status == 200 || status == 400
}

/// The error of an answer whose status is not 200, with its decoded body.
pub fn error_of_status(status: u16, doc: &Option<Json>) -> (r: OpenAiError)
    ensures
        r == status_error(status, *doc),
{
    if status == 400 {
        match doc {
            Some(d) => match ErrorResponse::from_json(d) {
                Some(e) => classify_rejection(&e.error),
                None => OpenAiError::Malformed,
            },
            None => OpenAiError::Malformed,
        }
    } else if status == 401 {
        OpenAiError::Unauthorized
    } else {
        OpenAiError::NetworkError(Some(status))
    }
}

/// What a chat answer with this status and decoded body yields.
pub fn chat_outcome(status: u16, doc: &Option<Json>) -> (r: Result<String, OpenAiError>)
    ensures
        text_result(r) == chat_result(status, *doc),
{
    if status != 200 {
        return Err(error_of_status(status, doc));
    }
    match doc {
        Some(d) => match ChatCompletionResponse::from_json(d) {
            Some(mut resp) => match resp.choices.pop() {
                Some(choice) => Ok(choice.message.content),
                None => Err(OpenAiError::Malformed),
            },
            None => Err(OpenAiError::Malformed),
        },
        None => Err(OpenAiError::Malformed),
    }
}

/// What an image generation answer with this status and decoded body yields.
pub fn image_url_outcome(status: u16, doc: &Option<Json>) -> (r: Result<String, OpenAiError>)
    ensures
        text_result(r) == image_url_result(status, *doc),
{
    if status != 200 {
        return Err(error_of_status(status, doc));
    }
    match doc {
        Some(d) => match ImageGenerationResponse::from_json(d) {
            Some(resp) => if resp.data.len() > 0 {
                Ok(resp.data[0].url.clone())
            } else {
                Err(OpenAiError::Malformed)
            },
            None => Err(OpenAiError::Malformed),
        },
        None => Err(OpenAiError::Malformed),
    }
}

/// How one HTTP exchange with the service ended.
#[derive(Debug)]
pub enum Exchange {
    /// The request, or the reading of the answer, failed in transport; the
    /// status is there when the transport knew one.
    Failed(Option<u16>),
    /// The service answered with a status and a body (the body is read only
    /// where `needs_body` asks for it, and empty otherwise).
    Answered(u16, String),
}

/// What a chat request ends in, given how its exchange ended: the content of
/// the last completion, or the error.
pub fn get_openai_chat(reply: Exchange) -> (r: Result<String, OpenAiError>)
    ensures
        match reply {
            Exchange::Failed(status) => r == Err::<String, OpenAiError>(OpenAiError::NetworkError(status)),
            Exchange::Answered(status, body) => text_result(r) == chat_result(status, json_of_text(body@)),
        },
{
    match reply {
        Exchange::Failed(status) => Err(OpenAiError::NetworkError(status)),
        Exchange::Answered(status, body) => {
            let doc = if needs_body(status) {
                decode_json(body.as_str())
            } else {
                None
            };
            chat_outcome(status, &doc)
        },
    }
}

/// What happened at the last step of an image request.
#[derive(Debug)]
pub enum ImageEvent {
    /// The generation exchange ended.
    Generated(Exchange),
    /// Fetching the generated image gave these bytes, or failed in transport.
    Fetched(Result<Vec<u8>, Option<u16>>),
}

/// What an image request does next.
#[derive(Debug)]
pub enum ImageAction {
    /// Fetch the image at this address, without credentials.
    Fetch(String),
    /// The request is over, with the image's bytes or an error.
    Finish(Result<Vec<u8>, OpenAiError>),
}

/// The next action of an image request, given what just happened.
pub fn get_openai_image(event: ImageEvent) -> (r: ImageAction)
    ensures
        match event {
            ImageEvent::Generated(Exchange::Failed(status)) => r == ImageAction::Finish(
                Err(OpenAiError::NetworkError(status)),
            ),
            ImageEvent::Generated(Exchange::Answered(status, body)) => match image_url_result(
                status,
                json_of_text(body@),
            ) {
                Ok(url) => r matches ImageAction::Fetch(u) && u@ == url,
                Err(e) => r == ImageAction::Finish(Err(e)),
            },
            ImageEvent::Fetched(Ok(bytes)) => r == ImageAction::Finish(Ok(bytes)),
            ImageEvent::Fetched(Err(status)) => r == ImageAction::Finish(
                Err(OpenAiError::NetworkError(status)),
            ),
        },
{
    match event {
        ImageEvent::Generated(Exchange::Failed(status)) => ImageAction::Finish(
            Err(OpenAiError::NetworkError(status)),
        ),
        ImageEvent::Generated(Exchange::Answered(status, body)) => {
            let doc = if needs_body(status) {
                decode_json(body.as_str())
            } else {
                None
            };
            match image_url_outcome(status, &doc) {
                Ok(url) => ImageAction::Fetch(url),
                Err(e) => ImageAction::Finish(Err(e)),
            }
        },
        ImageEvent::Fetched(Ok(bytes)) => ImageAction::Finish(Ok(bytes)),
        ImageEvent::Fetched(Err(status)) => ImageAction::Finish(Err(OpenAiError::NetworkError(status))),
    }
}

/// The messages of a chat request, each as its role and content.
pub open spec fn messages_view(m: Seq<ChatCompletionMessage>) -> Seq<(ChatCompletionMessageRole, Seq<char>)> {
    m.map_values(|x: ChatCompletionMessage| x@)
}

/// The chat request for `question`, led by the bot's personality as a system
/// message when there is one.
pub fn chat_request(personality: Option<String>, question: String) -> (r: ChatCompletionRequest)
    ensures
        r.model@ == CHAT_MODEL@,
        messages_view(r.messages@) == match personality {
            Some(p) => seq![
                (ChatCompletionMessageRole::System, p@),
                (ChatCompletionMessageRole::User, question@),
            ],
            None => seq![(ChatCompletionMessageRole::User, question@)],
        },
{
    let mut messages: Vec<ChatCompletionMessage> = Vec::new();
    match personality {
        Some(p) => messages.push(ChatCompletionMessage { role: ChatCompletionMessageRole::System, content: p }),
        None => {},
    }
    messages.push(ChatCompletionMessage { role: ChatCompletionMessageRole::User, content: question });
    let r = ChatCompletionRequest { model: CHAT_MODEL.to_owned(), messages };
    assert(messages_view(r.messages@) =~= match personality {
        Some(p) => seq![
            (ChatCompletionMessageRole::System, p@),
            (ChatCompletionMessageRole::User, question@),
        ],
        None => seq![(ChatCompletionMessageRole::User, question@)],
    });
    r
}

/// The image generation request for `prompt`.
pub fn image_request(prompt: &str) -> (r: ImageGenerationRequest)
    ensures
        r.prompt@ == prompt@,
{
    ImageGenerationRequest { prompt: prompt.to_owned() }
}

} // verus!

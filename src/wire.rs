use vstd::prelude::*;
use crate::json::{Json, decode_json, field, get_field, get_text, json_of_text, text_of};

verus! {

/// Who speaks in a chat message.
#[derive(Debug, Clone, Copy, PartialEq, Eq, Structural)]
pub enum ChatCompletionMessageRole {
    User,
    System,
    Assistant,
}

/// One message of a chat, as the chat endpoint sends and takes it.
#[derive(Debug)]
pub struct ChatCompletionMessage {
    pub role: ChatCompletionMessageRole,
    pub content: String,
}

impl View for ChatCompletionMessage {
    type V = (ChatCompletionMessageRole, Seq<char>);

    open spec fn view(&self) -> (ChatCompletionMessageRole, Seq<char>) {
        (self.role, self.content@)
    }
}

/// One completion that the chat endpoint offers.
#[derive(Debug)]
pub struct ChatCompletionResponseChoice {
    pub message: ChatCompletionMessage,
}

/// The body of a successful chat completion.
#[derive(Debug)]
pub struct ChatCompletionResponse {
    pub choices: Vec<ChatCompletionResponseChoice>,
}

impl View for ChatCompletionResponse {
    type V = Seq<(ChatCompletionMessageRole, Seq<char>)>;

    open spec fn view(&self) -> Seq<(ChatCompletionMessageRole, Seq<char>)> {
        self.choices@.map_values(|c: ChatCompletionResponseChoice| c.message@)
    }
}

/// The role that `v` names, when it is one of the three role strings.
pub open spec fn role_spec(v: Json) -> Option<ChatCompletionMessageRole> {
    match text_of(v) {
        Some(s) => if s == "user"@ {
            Some(ChatCompletionMessageRole::User)
        } else if s == "system"@ {
            Some(ChatCompletionMessageRole::System)
        } else if s == "assistant"@ {
            Some(ChatCompletionMessageRole::Assistant)
        } else {
            None
        },
        None => None,
    }
}

/// The message that `v` describes: an object with a role and a string content.
pub open spec fn message_spec(v: Json) -> Option<(ChatCompletionMessageRole, Seq<char>)> {
    match (field(v, "role"@), field(v, "content"@)) {
        (Some(r), Some(c)) => match (role_spec(r), text_of(c)) {
            (Some(role), Some(content)) => Some((role, content)),
            _ => None,
        },
        _ => None,
    }
}

/// The message of one completion: an object whose member `message` is a message.
pub open spec fn choice_spec(v: Json) -> Option<(ChatCompletionMessageRole, Seq<char>)> {
    match field(v, "message"@) {
        Some(m) => message_spec(m),
        None => None,
    }
}

/// The completions of a chat answer: `doc` is an object whose member
/// `choices` is an array of which every element is a completion.
pub open spec fn chat_response_spec(doc: Json) -> Option<Seq<(ChatCompletionMessageRole, Seq<char>)>> {
    match field(doc, "choices"@) {
        Some(Json::Array(items)) => if forall|i: int|
            0 <= i < items@.len() ==> (#[trigger] choice_spec(items@[i])) is Some {
            Some(items@.map_values(|c: Json| choice_spec(c).unwrap()))
        } else {
            None
        },
        _ => None,
    }
}

impl ChatCompletionMessageRole {
    /// The role that a JSON string names.
    pub fn from_json(v: &Json) -> (r: Option<ChatCompletionMessageRole>)
        ensures
            r == role_spec(*v),
    {
        match get_text(v) {
            Some(s) => {
                if *s == "user".to_owned() {
                    Some(ChatCompletionMessageRole::User)
                } else if *s == "system".to_owned() {
                    Some(ChatCompletionMessageRole::System)
                } else if *s == "assistant".to_owned() {
                    Some(ChatCompletionMessageRole::Assistant)
                } else {
                    None
                }
            },
            None => None,
        }
    }
}

impl ChatCompletionMessage {
    /// Reads a message out of a JSON object.
    pub fn from_json(v: &Json) -> (r: Option<ChatCompletionMessage>)
        ensures
            match r {
                Some(m) => message_spec(*v) == Some(m@),
                None => message_spec(*v) is None,
            },
    {
        let role = match get_field(v, "role") {
            Some(r) => ChatCompletionMessageRole::from_json(r),
            None => None,
        };
        let content = match get_field(v, "content") {
            Some(c) => get_text(c),
            None => None,
        };
        match (role, content) {
            (Some(role), Some(content)) => Some(ChatCompletionMessage { role, content: content.clone() }),
            _ => None,
        }
    }
}

impl ChatCompletionResponseChoice {
    /// Reads one completion out of a JSON object.
    pub fn from_json(v: &Json) -> (r: Option<ChatCompletionResponseChoice>)
        ensures
            match r {
                Some(c) => choice_spec(*v) == Some(c.message@),
                None => choice_spec(*v) is None,
            },
    {
        match get_field(v, "message") {
            Some(m) => match ChatCompletionMessage::from_json(m) {
                Some(message) => Some(ChatCompletionResponseChoice { message }),
                None => None,
            },
            None => None,
        }
    }
}

impl ChatCompletionResponse {
    /// Reads a chat answer out of a JSON document.
    pub fn from_json(doc: &Json) -> (r: Option<ChatCompletionResponse>)
        ensures
            match r {
                Some(resp) => chat_response_spec(*doc) == Some(resp@),
                None => chat_response_spec(*doc) is None,
            },
    {
        match get_field(doc, "choices") {
            Some(Json::Array(items)) => {
                let n = items.len();
                let mut choices: Vec<ChatCompletionResponseChoice> = Vec::new();
                let mut i: usize = 0;
                while i < n
                    invariant
                        n == items@.len(),
                        i <= n,
                        choices@.len() == i,
                        field(*doc, "choices"@) == Some(Json::Array(*items)),
                        forall|j: int| 0 <= j < i ==> #[trigger] choice_spec(items@[j]) == Some(
                            choices@[j].message@,
                        ),
                    decreases n - i,
                {
                    match ChatCompletionResponseChoice::from_json(&items[i]) {
                        Some(c) => choices.push(c),
                        None => {
                            assert(choice_spec(items@[i as int]) is None);
                            return None;
                        },
                    }
                    i = i + 1;
                }
                let resp = ChatCompletionResponse { choices };
                assert(resp@ =~= items@.map_values(|c: Json| choice_spec(c).unwrap()));
                Some(resp)
            },
            _ => None,
        }
    }

    /// Reads a chat answer out of JSON text.
    pub fn from_text(text: &str) -> (r: Option<ChatCompletionResponse>)
        ensures
            match r {
                Some(resp) => json_of_text(text@) matches Some(doc) && chat_response_spec(doc) == Some(
                    resp@,
                ),
                None => match json_of_text(text@) {
                    Some(doc) => chat_response_spec(doc) is None,
                    None => true,
                },
            },
    {
        match decode_json(text) {
            Some(doc) => ChatCompletionResponse::from_json(&doc),
            None => None,
        }
    }
}

/// The error that the service describes in the body of a rejection.
#[derive(Debug)]
pub struct OpenAiErrorResponse {
    pub code: Option<String>,
    pub message: String,
}

impl View for OpenAiErrorResponse {
    type V = (Option<Seq<char>>, Seq<char>);

    open spec fn view(&self) -> (Option<Seq<char>>, Seq<char>) {
        let code = match self.code {
            Some(c) => Some(c@),
            None => None,
        };
        (code, self.message@)
    }
}

/// The body of a rejection.
#[derive(Debug)]
pub struct ErrorResponse {
    pub error: OpenAiErrorResponse,
}

/// An optional error code: absent or `null` is no code, a string is one, and
/// anything else leaves the body unreadable (`None`).
pub open spec fn code_spec(v: Option<Json>) -> Option<Option<Seq<char>>> {
    match v {
        None => Some(None),
        Some(Json::Null) => Some(None),
        Some(Json::Text(c)) => Some(Some(c@)),
        _ => None,
    }
}

/// The error that `v` describes: an object with an optional string `code` and
/// a string `message`.
pub open spec fn api_error_spec(v: Json) -> Option<(Option<Seq<char>>, Seq<char>)> {
    match (code_spec(field(v, "code"@)), field(v, "message"@)) {
        (Some(code), Some(Json::Text(m))) => Some((code, m@)),
        _ => None,
    }
}

/// The error of a rejection body: an object whose member `error` is an error.
pub open spec fn error_response_spec(doc: Json) -> Option<(Option<Seq<char>>, Seq<char>)> {
    match field(doc, "error"@) {
        Some(e) => api_error_spec(e),
        None => None,
    }
}

impl OpenAiErrorResponse {
    /// Reads an error out of a JSON object.
    pub fn from_json(v: &Json) -> (r: Option<OpenAiErrorResponse>)
        ensures
            match r {
                Some(e) => api_error_spec(*v) == Some(e@),
                None => api_error_spec(*v) is None,
            },
    {
        let code: Option<Option<String>> = match get_field(v, "code") {
            None => Some(None),
            Some(Json::Null) => Some(None),
            Some(Json::Text(c)) => Some(Some(c.clone())),
            Some(_) => None,
        };
        match (code, get_field(v, "message")) {
            (Some(code), Some(Json::Text(m))) => Some(OpenAiErrorResponse { code, message: m.clone() }),
            _ => None,
        }
    }
}

impl ErrorResponse {
    /// Reads a rejection body out of a JSON document.
    pub fn from_json(doc: &Json) -> (r: Option<ErrorResponse>)
        ensures
            match r {
                Some(e) => error_response_spec(*doc) == Some(e.error@),
                None => error_response_spec(*doc) is None,
            },
    {
        match get_field(doc, "error") {
            Some(e) => match OpenAiErrorResponse::from_json(e) {
                Some(error) => Some(ErrorResponse { error }),
                None => None,
            },
            None => None,
        }
    }
}

/// One generated image, by the address it can be fetched from.
#[derive(Debug)]
pub struct ImageGenerationResponseData {
    pub url: String,
}

/// The body of a successful image generation.
#[derive(Debug)]
pub struct ImageGenerationResponse {
    pub data: Vec<ImageGenerationResponseData>,
}

impl View for ImageGenerationResponse {
    type V = Seq<Seq<char>>;

    open spec fn view(&self) -> Seq<Seq<char>> {
        self.data@.map_values(|d: ImageGenerationResponseData| d.url@)
    }
}

/// The address of one image: an object with a string `url`.
pub open spec fn image_data_spec(v: Json) -> Option<Seq<char>> {
    match field(v, "url"@) {
        Some(u) => text_of(u),
        None => None,
    }
}

/// The addresses of an image answer: `doc` is an object whose member `data` is
/// an array of which every element is an image address.
pub open spec fn image_response_spec(doc: Json) -> Option<Seq<Seq<char>>> {
    match field(doc, "data"@) {
        Some(Json::Array(items)) => if forall|i: int|
            0 <= i < items@.len() ==> (#[trigger] image_data_spec(items@[i])) is Some {
            Some(items@.map_values(|d: Json| image_data_spec(d).unwrap()))
        } else {
            None
        },
        _ => None,
    }
}

impl ImageGenerationResponseData {
    /// Reads an image address out of a JSON object.
    pub fn from_json(v: &Json) -> (r: Option<ImageGenerationResponseData>)
        ensures
            match r {
                Some(d) => image_data_spec(*v) == Some(d.url@),
                None => image_data_spec(*v) is None,
            },
    {
        match get_field(v, "url") {
            Some(u) => match get_text(u) {
                Some(url) => Some(ImageGenerationResponseData { url: url.clone() }),
                None => None,
            },
            None => None,
        }
    }
}

impl ImageGenerationResponse {
    /// Reads an image answer out of a JSON document.
    pub fn from_json(doc: &Json) -> (r: Option<ImageGenerationResponse>)
        ensures
            match r {
                Some(resp) => image_response_spec(*doc) == Some(resp@),
                None => image_response_spec(*doc) is None,
            },
    {
        match get_field(doc, "data") {
            Some(Json::Array(items)) => {
                let n = items.len();
                let mut data: Vec<ImageGenerationResponseData> = Vec::new();
                let mut i: usize = 0;
                while i < n
                    invariant
                        n == items@.len(),
                        i <= n,
                        data@.len() == i,
                        field(*doc, "data"@) == Some(Json::Array(*items)),
                        forall|j: int| 0 <= j < i ==> #[trigger] image_data_spec(items@[j]) == Some(
                            data@[j].url@,
                        ),
                    decreases n - i,
                {
                    match ImageGenerationResponseData::from_json(&items[i]) {
                        Some(d) => data.push(d),
                        None => {
                            assert(image_data_spec(items@[i as int]) is None);
                            return None;
                        },
                    }
                    i = i + 1;
                }
                let resp = ImageGenerationResponse { data };
                assert(resp@ =~= items@.map_values(|d: Json| image_data_spec(d).unwrap()));
                Some(resp)
            },
            _ => None,
        }
    }
}

/// The body of an image generation request.
#[derive(Debug)]
pub struct ImageGenerationRequest {
    pub prompt: String,
}

/// The body of a chat completion request.
#[derive(Debug)]
pub struct ChatCompletionRequest {
    pub model: String,
    pub messages: Vec<ChatCompletionMessage>,
}

} // verus!

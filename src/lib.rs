//! The request and answer layer of a chat bot that asks a generative-AI
//! service for images and chat completions, and turns every answer into one
//! result or one error of a closed set.

mod error;
mod gateway;
mod json;
mod laws;
mod personality;
mod wire;

pub use error::{FAILURE_REPLY, LIMIT_REPLY, OpenAiError, SAFETY_REPLY};
pub use gateway::{
    CHAT_MODEL, Exchange, ImageAction, ImageEvent, LIMIT_CODE, SAFETY_WORD, chat_outcome,
    chat_request, classify_rejection, error_of_status, get_openai_chat, get_openai_image,
    image_request, image_url_outcome, needs_body,
};
pub use json::{Json, get_field, get_text};
pub use personality::{
    CHANGED_PREFIX, CURRENT_PREFIX, DEFAULT_PERSONALITY, Personality, personality_reply,
    personality_set_reply,
};
pub use wire::{
    ChatCompletionMessage, ChatCompletionMessageRole, ChatCompletionRequest, ChatCompletionResponse,
    ChatCompletionResponseChoice, ErrorResponse, ImageGenerationRequest, ImageGenerationResponse,
    ImageGenerationResponseData, OpenAiErrorResponse,
};

use vstd::prelude::*;
use crate::error::OpenAiError;
use crate::gateway::{chat_result, has_infix, image_url_result, status_error};
use crate::json::{Json, field};
use crate::wire::{ChatCompletionMessageRole, chat_response_spec, choice_spec, error_response_spec};

verus! {

/// A chat answer with status 200 whose completions are all readable, and at
/// least one, yields the content of the last of them.
pub proof fn lemma_chat_takes_last(doc: Json)
    requires
        chat_response_spec(doc) is Some,
        chat_response_spec(doc).unwrap().len() >= 1,
    ensures
        ({
            let choices = chat_response_spec(doc).unwrap();
            chat_result(200, Some(doc)) == Ok::<Seq<char>, OpenAiError>(
                choices[choices.len() - 1].1,
            )
        }),
{
}

/// A chat answer with status 200 whose `choices` array is empty is malformed.
pub proof fn lemma_chat_without_choices(doc: Json)
    requires
        field(doc, "choices"@) matches Some(Json::Array(items)) && items@.len() == 0,
    ensures
        chat_result(200, Some(doc)) == Err::<Seq<char>, OpenAiError>(OpenAiError::Malformed),
{
    if let Some(Json::Array(items)) = field(doc, "choices"@) {
        assert(items@.map_values(|c: Json| choice_spec(c).unwrap()) =~= Seq::<
            (ChatCompletionMessageRole, Seq<char>),
        >::empty());
    }
}

/// A rejection whose code is the budget code means a spent budget, whatever
/// its message says, on both endpoints.
pub proof fn lemma_limit_code_first(doc: Json, message: Seq<char>)
    requires
        error_response_spec(doc) == Some((Some("billing_hard_limit_reached"@), message)),
    ensures
        status_error(400, Some(doc)) == OpenAiError::LimitReached,
        chat_result(400, Some(doc)) == Err::<Seq<char>, OpenAiError>(OpenAiError::LimitReached),
        image_url_result(400, Some(doc)) == Err::<Seq<char>, OpenAiError>(OpenAiError::LimitReached),
{
}

/// A rejection without the budget code whose message holds "safety" is a
/// content-policy refusal, on both endpoints.
pub proof fn lemma_safety_word(doc: Json, code: Option<Seq<char>>, message: Seq<char>)
    requires
        error_response_spec(doc) == Some((code, message)),
        code != Some("billing_hard_limit_reached"@),
        has_infix(message, "safety"@),
    ensures
        status_error(400, Some(doc)) == OpenAiError::Safety,
        chat_result(400, Some(doc)) == Err::<Seq<char>, OpenAiError>(OpenAiError::Safety),
        image_url_result(400, Some(doc)) == Err::<Seq<char>, OpenAiError>(OpenAiError::Safety),
{
}

/// A readable rejection that meets neither rule is a plain bad request, on
/// both endpoints.
pub proof fn lemma_plain_bad_request(doc: Json, code: Option<Seq<char>>, message: Seq<char>)
    requires
        error_response_spec(doc) == Some((code, message)),
        code != Some("billing_hard_limit_reached"@),
        !has_infix(message, "safety"@),
    ensures
        status_error(400, Some(doc)) == OpenAiError::BadRequest,
        chat_result(400, Some(doc)) == Err::<Seq<char>, OpenAiError>(OpenAiError::BadRequest),
        image_url_result(400, Some(doc)) == Err::<Seq<char>, OpenAiError>(OpenAiError::BadRequest),
{
}

/// Any status but 200, 400 and 401 is a network error that carries the
/// status, whatever the body, on both endpoints.
pub proof fn lemma_other_status(status: u16, doc: Option<Json>)
    requires
        status != 200,
        status != 400,
        status != 401,
    ensures
        chat_result(status, doc) == Err::<Seq<char>, OpenAiError>(OpenAiError::NetworkError(Some(status))),
        image_url_result(status, doc) == Err::<Seq<char>, OpenAiError>(
            OpenAiError::NetworkError(Some(status)),
        ),
{
}

} // verus!

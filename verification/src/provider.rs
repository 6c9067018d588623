//! The provider's request builders, as far as the bridge uses them.
//!
//! Nothing in this file is proved: each contract is taken on the word of
//! the provider's crate. The values built are opaque here; they are handed
//! on to the network client as they are.

use vstd::prelude::*;
use async_openai::error::OpenAIError;
use async_openai::types::{
    ChatCompletionRequestAssistantMessageArgs, ChatCompletionRequestMessage,
    ChatCompletionRequestSystemMessageArgs, ChatCompletionRequestUserMessageArgs,
    CreateChatCompletionRequest, CreateChatCompletionRequestArgs,
};

verus! {

/// `async_openai::types::ChatCompletionRequestMessage`: one message of a chat
/// request, in the provider's own form.
#[verifier::external_type_specification]
#[verifier::external_body]
pub struct ExChatCompletionRequestMessage(ChatCompletionRequestMessage);

/// `async_openai::types::CreateChatCompletionRequest`: a chat request, in the
/// provider's own form.
#[verifier::external_type_specification]
#[verifier::external_body]
pub struct ExCreateChatCompletionRequest(CreateChatCompletionRequest);

/// `async_openai::error::OpenAIError`: the failure of a builder or a call.
#[verifier::external_type_specification]
#[verifier::external_body]
pub struct ExOpenAIError(OpenAIError);

/// What the system-message builder answers for `content`.
pub uninterp spec fn system_message_built(content: Seq<char>) -> Result<
    ChatCompletionRequestMessage,
    OpenAIError,
>;

/// What the assistant-message builder answers for `content`.
pub uninterp spec fn assistant_message_built(content: Seq<char>) -> Result<
    ChatCompletionRequestMessage,
    OpenAIError,
>;

/// What the user-message builder answers for `content`.
pub uninterp spec fn user_message_built(content: Seq<char>) -> Result<
    ChatCompletionRequestMessage,
    OpenAIError,
>;

/// What the request builder answers for `model` and `messages` when
/// streaming is not asked for.
pub uninterp spec fn plain_request_built(
    model: Seq<char>,
    messages: Seq<ChatCompletionRequestMessage>,
) -> Result<CreateChatCompletionRequest, OpenAIError>;

/// What the request builder answers for `model` and `messages` when
/// streaming is switched on.
pub uninterp spec fn streaming_request_built(
    model: Seq<char>,
    messages: Seq<ChatCompletionRequestMessage>,
) -> Result<CreateChatCompletionRequest, OpenAIError>;

/// The line of text that a provider failure writes of itself.
pub uninterp spec fn failure_line(failure: OpenAIError) -> Seq<char>;

/// Calls `ChatCompletionRequestSystemMessageArgs`: `default`, `content`,
/// `build`, and turns a message built into a `ChatCompletionRequestMessage`.
/// Claimed: the answer, a message or a refusal, depends on the content
/// alone. Which of the two it is, is not claimed.
#[verifier::external_body]
pub(crate) fn system_message(content: &str) -> (r: Result<
    ChatCompletionRequestMessage,
    OpenAIError,
>)
    ensures
        r == system_message_built(content@),
{
    ChatCompletionRequestSystemMessageArgs::default().content(content).build().map(
        ChatCompletionRequestMessage::from,
    )
}

/// Calls `ChatCompletionRequestAssistantMessageArgs`: `default`, `content`,
/// `build`, and turns a message built into a `ChatCompletionRequestMessage`.
/// Claimed: the answer, a message or a refusal, depends on the content
/// alone. Which of the two it is, is not claimed.
#[verifier::external_body]
pub(crate) fn assistant_message(content: &str) -> (r: Result<
    ChatCompletionRequestMessage,
    OpenAIError,
>)
    ensures
        r == assistant_message_built(content@),
{
    ChatCompletionRequestAssistantMessageArgs::default().content(content).build().map(
        ChatCompletionRequestMessage::from,
    )
}

/// Calls `ChatCompletionRequestUserMessageArgs`: `default`, `content`,
/// `build`, and turns a message built into a `ChatCompletionRequestMessage`.
/// Claimed: the answer, a message or a refusal, depends on the content
/// alone. Which of the two it is, is not claimed.
#[verifier::external_body]
pub(crate) fn user_message(content: &str) -> (r: Result<ChatCompletionRequestMessage, OpenAIError>)
    ensures
        r == user_message_built(content@),
{
    ChatCompletionRequestUserMessageArgs::default().content(content).build().map(
        ChatCompletionRequestMessage::from,
    )
}

/// Calls `CreateChatCompletionRequestArgs`: `default`, `model`, `messages`,
/// `build`. Claimed: the answer, a request or a refusal, depends on the model
/// and the messages alone. Which of the two it is, is not claimed.
#[verifier::external_body]
pub(crate) fn plain_request(model: &str, messages: Vec<ChatCompletionRequestMessage>) -> (r: Result<
    CreateChatCompletionRequest,
    OpenAIError,
>)
    ensures
        r == plain_request_built(model@, messages@),
{
    CreateChatCompletionRequestArgs::default().model(model).messages(messages).build()
}

/// Calls `CreateChatCompletionRequestArgs`: `default`, `model`, `messages`,
/// `stream` with `true`, `build`. Claimed: the answer, a request or a
/// refusal, depends on the model and the messages alone. Which of the two it
/// is, is not claimed.
#[verifier::external_body]
pub(crate) fn streaming_request(model: &str, messages: Vec<ChatCompletionRequestMessage>) -> (r:
    Result<CreateChatCompletionRequest, OpenAIError>)
    ensures
        r == streaming_request_built(model@, messages@),
{
    CreateChatCompletionRequestArgs::default().model(model).messages(messages).stream(true).build()
}

/// Calls `to_string` on an `OpenAIError`, which writes it through its
/// `Display`. Claimed: the text depends on the failure alone.
#[verifier::external_body]
pub(crate) fn failure_text(failure: &OpenAIError) -> (text: String)
    ensures
        text@ == failure_line(*failure),
{
    failure.to_string()
}

} // verus!

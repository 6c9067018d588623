//! Chat: turning the host's messages into a provider request, and
//! unwrapping what the provider answers.

use vstd::prelude::*;
use async_openai::error::OpenAIError;
use async_openai::types::{ChatCompletionRequestMessage, CreateChatCompletionRequest};
use crate::error::{BridgeError, ErrorView};
use crate::provider::{
    assistant_message, assistant_message_built, failure_line, failure_text, plain_request,
    plain_request_built, streaming_request, streaming_request_built, system_message,
    system_message_built, user_message, user_message_built,
};
use crate::text::same_text;

verus! {

/// Who speaks in a message.
#[derive(Debug, Clone, Copy, PartialEq, Eq, Structural)]
pub enum Role {
    System,
    Assistant,
    User,
}

/// The role that a name stands for; any name but `system` and `assistant`
/// stands for the user.
pub open spec fn role_of(name: Seq<char>) -> Role {
    if name == "system"@ {
        Role::System
    } else if name == "assistant"@ {
        Role::Assistant
    } else {
        Role::User
    }
}

impl Role {
    /// The role that `name` stands for; any name but `system` and
    /// `assistant` stands for the user.
    pub fn from_name(name: &str) -> (role: Role)
        ensures
            role == role_of(name@),
    {
        if same_text(name, "system") {
            Role::System
        } else if same_text(name, "assistant") {
            Role::Assistant
        } else {
            Role::User
        }
    }
}

/// One message as the host supplies it: a free-form role name and the text.
#[derive(Debug, Clone, PartialEq, Eq)]
pub struct Message {
    pub role: String,
    pub content: String,
}

/// The failure that wraps a refusal of the provider's builder.
pub open spec fn refusal(failure: OpenAIError) -> ErrorView {
    ErrorView::RequestBuild(failure_line(failure))
}

/// What the provider's builder answers for a message with this role and
/// content: the variant is chosen by the role.
pub open spec fn message_built(role: Role, content: Seq<char>) -> Result<
    ChatCompletionRequestMessage,
    OpenAIError,
> {
    match role {
        Role::System => system_message_built(content),
        Role::Assistant => assistant_message_built(content),
        Role::User => user_message_built(content),
    }
}

/// What converting one message gives: the provider's message, or the
/// builder's refusal as a failure.
pub open spec fn message_outcome(message: Message) -> Result<
    ChatCompletionRequestMessage,
    ErrorView,
> {
    match message_built(role_of(message.role@), message.content@) {
        Ok(built) => Ok(built),
        Err(failure) => Err(refusal(failure)),
    }
}

/// What converting a list of messages gives: the provider's messages, one
/// for one and in order, or the failure of the first message that the
/// builder refuses.
pub open spec fn converted(messages: Seq<Message>) -> Result<
    Seq<ChatCompletionRequestMessage>,
    ErrorView,
>
    decreases messages.len(),
{
    if messages.len() == 0 {
        Ok(Seq::empty())
    } else {
        match converted(messages.drop_last()) {
            Err(failure) => Err(failure),
            Ok(front) => match message_outcome(messages.last()) {
                Err(failure) => Err(failure),
                Ok(built) => Ok(front.push(built)),
            },
        }
    }
}

/// What building a chat request gives: the provider's request for the
/// converted messages, or the failure of the first refusal met, a message's
/// before the whole request's.
pub open spec fn request_outcome(messages: Seq<Message>, model: Seq<char>, streaming: bool) -> Result<
    CreateChatCompletionRequest,
    ErrorView,
> {
    match converted(messages) {
        Err(failure) => Err(failure),
        Ok(built) => {
            let answer = if streaming {
                streaming_request_built(model, built)
            } else {
                plain_request_built(model, built)
            };
            match answer {
                Ok(request) => Ok(request),
                Err(failure) => Err(refusal(failure)),
            }
        },
    }
}

/// Wraps the builder's refusal.
fn refused(failure: &OpenAIError) -> (error: BridgeError)
    ensures
        error@ == refusal(*failure),
{
    BridgeError::RequestBuild(failure_text(failure))
}

/// Converts one message: the provider's variant is chosen by the role name,
/// the content goes over as it is. Fails where, and only where, the
/// provider's builder refuses the message.
pub fn convert_message(message: &Message) -> (r: Result<ChatCompletionRequestMessage, BridgeError>)
    ensures
        match message_outcome(*message) {
            Ok(built) => r == Ok::<ChatCompletionRequestMessage, BridgeError>(built),
            Err(failure) => r matches Err(e) && e@ == failure,
        },
{
    let built = match Role::from_name(message.role.as_str()) {
        Role::System => system_message(message.content.as_str()),
        Role::Assistant => assistant_message(message.content.as_str()),
        Role::User => user_message(message.content.as_str()),
    };
    match built {
        Ok(built) => Ok(built),
        Err(failure) => Err(refused(&failure)),
    }
}

/// Builds the provider's chat request: every message converted, in the
/// order given, under `model`, with streaming switched on where asked.
/// Fails where, and only where, the provider's builder refuses a message or
/// the whole; the first refusal met is the one reported.
pub fn build_chat_request(messages: &[Message], model: &str, streaming: bool) -> (r: Result<
    CreateChatCompletionRequest,
    BridgeError,
>)
    ensures
        match request_outcome(messages@, model@, streaming) {
            Ok(request) => r == Ok::<CreateChatCompletionRequest, BridgeError>(request),
            Err(failure) => r matches Err(e) && e@ == failure,
        },
{
    let mut built: Vec<ChatCompletionRequestMessage> = Vec::new();
    let mut i: usize = 0;
    while i < messages.len()
        invariant
            i <= messages.len(),
            converted(messages@.take(i as int)) == Ok::<
                Seq<ChatCompletionRequestMessage>,
                ErrorView,
            >(built@),
        decreases messages.len() - i,
    {
        proof {
            let next = messages@.take(i + 1);
            assert(next.drop_last() =~= messages@.take(i as int));
        }
        match convert_message(&messages[i]) {
            Ok(message) => {
                built.push(message);
            },
            Err(e) => {
                proof {
                    lemma_refusal_stays(messages@, i + 1);
                }
                return Err(e);
            },
        }
        i = i + 1;
    }
    proof {
        assert(messages@.take(messages.len() as int) =~= messages@);
    }
    let answer = if streaming {
        streaming_request(model, built)
    } else {
        plain_request(model, built)
    };
    match answer {
        Ok(request) => Ok(request),
        Err(failure) => Err(refused(&failure)),
    }
}

/// A refusal met among the first `count` messages is the refusal of the
/// whole list.
proof fn lemma_refusal_stays(messages: Seq<Message>, count: int)
    requires
        0 <= count <= messages.len(),
        converted(messages.take(count)) is Err,
    ensures
        converted(messages) == converted(messages.take(count)),
    decreases messages.len(),
{
    if count == messages.len() {
        assert(messages.take(count) =~= messages);
    } else {
        let front = messages.drop_last();
        assert(front.take(count) =~= messages.take(count));
        lemma_refusal_stays(front, count);
    }
}

/// What a completion amounts to: the content of the first choice, the empty
/// text where that choice has none, and a failure where there is no choice
/// or the exchange failed.
pub open spec fn completion(outcome: Result<Seq<Option<Seq<char>>>, Seq<char>>) -> Result<
    Seq<char>,
    ErrorView,
> {
    match outcome {
        Err(text) => Err(ErrorView::Transport(text)),
        Ok(choices) => if choices.len() == 0 {
            Err(ErrorView::EmptyResult)
        } else {
            match choices[0] {
                Some(content) => Ok(content),
                None => Ok(Seq::empty()),
            }
        },
    }
}

/// The contents of a list of choices, as mathematical values.
pub open spec fn contents(choices: Seq<Option<String>>) -> Seq<Option<Seq<char>>> {
    Seq::new(
        choices.len(),
        |i: int|
            match choices[i] {
                Some(text) => Some(text@),
                None => None,
            },
    )
}

/// What a chat exchange handed back, as mathematical values.
pub open spec fn outcome_view(outcome: Result<Vec<Option<String>>, String>) -> Result<
    Seq<Option<Seq<char>>>,
    Seq<char>,
> {
    match outcome {
        Ok(choices) => Ok(contents(choices@)),
        Err(text) => Err(text@),
    }
}

/// Unwraps a chat completion. `outcome` holds the content of each choice
/// that came back, in order, or the provider's failure text.
///
/// The answer is the content of the first choice, the empty text where that
/// choice has no content. No choice at all is an empty-result failure; a
/// failed exchange is a transport failure with the provider's text.
pub fn chat_result(outcome: Result<Vec<Option<String>>, String>) -> (r: Result<String, BridgeError>)
    ensures
        match completion(outcome_view(outcome)) {
            Ok(content) => r matches Ok(text) && text@ == content,
            Err(failure) => r matches Err(e) && e@ == failure,
        },
{
    match outcome {
        Err(text) => Err(BridgeError::Transport(text)),
        Ok(choices) => {
            if choices.len() == 0 {
                Err(BridgeError::EmptyResult)
            } else {
                match &choices[0] {
                    Some(content) => Ok(content.clone()),
                    None => Ok(String::new()),
                }
            }
        },
    }
}

/// A role name that is neither `system` nor `assistant` is read as the
/// user's, and its message is handed to the provider's user-message builder.
pub proof fn lemma_unknown_role_is_user(message: Message)
    requires
        message.role@ != "system"@,
        message.role@ != "assistant"@,
    ensures
        role_of(message.role@) == Role::User,
        message_built(role_of(message.role@), message.content@) == user_message_built(
            message.content@,
        ),
{
}

/// Where every message is converted, conversion keeps their number and
/// their order: each message of the request is the one built from the
/// message at its place.
pub proof fn lemma_conversion_keeps_order(messages: Seq<Message>)
    requires
        converted(messages) is Ok,
    ensures
        converted(messages)->Ok_0.len() == messages.len(),
        forall|i: int|
            0 <= i < messages.len() ==> message_outcome(#[trigger] messages[i]) == Ok::<
                ChatCompletionRequestMessage,
                ErrorView,
            >(converted(messages)->Ok_0[i]),
    decreases messages.len(),
{
    if messages.len() > 0 {
        let front = messages.drop_last();
        lemma_conversion_keeps_order(front);
        assert forall|i: int| 0 <= i < messages.len() implies message_outcome(
            #[trigger] messages[i],
        ) == Ok::<ChatCompletionRequestMessage, ErrorView>(converted(messages)->Ok_0[i]) by {
            if i < front.len() {
                assert(front[i] == messages[i]);
            }
        }
    }
}

} // verus!

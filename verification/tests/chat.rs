use alchemind_openai::chat::{build_chat_request, chat_result, convert_message, Message, Role};
use alchemind_openai::error::BridgeError;
use async_openai::types::{
    ChatCompletionRequestAssistantMessageContent, ChatCompletionRequestMessage,
    ChatCompletionRequestSystemMessageContent, ChatCompletionRequestUserMessageContent,
};

fn message(role: &str, content: &str) -> Message {
    Message { role: role.to_string(), content: content.to_string() }
}

fn user_text(built: &ChatCompletionRequestMessage) -> Option<String> {
    match built {
        ChatCompletionRequestMessage::User(m) => match &m.content {
            ChatCompletionRequestUserMessageContent::Text(text) => Some(text.clone()),
            _ => None,
        },
        _ => None,
    }
}

fn system_text(built: &ChatCompletionRequestMessage) -> Option<String> {
    match built {
        ChatCompletionRequestMessage::System(m) => match &m.content {
            ChatCompletionRequestSystemMessageContent::Text(text) => Some(text.clone()),
            _ => None,
        },
        _ => None,
    }
}

fn assistant_text(built: &ChatCompletionRequestMessage) -> Option<String> {
    match built {
        ChatCompletionRequestMessage::Assistant(m) => match &m.content {
            Some(ChatCompletionRequestAssistantMessageContent::Text(text)) => Some(text.clone()),
            _ => None,
        },
        _ => None,
    }
}

#[test]
fn role_names_are_read() {
    assert_eq!(Role::from_name("system"), Role::System);
    assert_eq!(Role::from_name("assistant"), Role::Assistant);
    assert_eq!(Role::from_name("user"), Role::User);
}

#[test]
fn unknown_role_names_fall_back_to_user() {
    for name in ["", "tool", "System", "ASSISTANT", "system ", "developer", "assistant\n"] {
        assert_eq!(Role::from_name(name), Role::User);
    }
}

#[test]
fn system_message_becomes_the_system_variant() {
    let built = convert_message(&message("system", "be brief")).unwrap();
    assert_eq!(system_text(&built), Some("be brief".to_string()));
}

#[test]
fn assistant_message_becomes_the_assistant_variant() {
    let built = convert_message(&message("assistant", "hello")).unwrap();
    assert_eq!(assistant_text(&built), Some("hello".to_string()));
}

#[test]
fn user_message_becomes_the_user_variant() {
    let built = convert_message(&message("user", "hi")).unwrap();
    assert_eq!(user_text(&built), Some("hi".to_string()));
}

#[test]
fn unknown_role_becomes_the_user_variant() {
    let built = convert_message(&message("narrator", "once upon a time")).unwrap();
    assert_eq!(user_text(&built), Some("once upon a time".to_string()));
}

#[test]
fn request_keeps_model_and_message_order() {
    let messages = vec![
        message("system", "one"),
        message("user", "two"),
        message("assistant", "three"),
        message("other", "four"),
    ];
    let request = build_chat_request(&messages, "gpt-4o-mini", false).unwrap();
    assert_eq!(request.model, "gpt-4o-mini");
    assert_eq!(request.messages.len(), 4);
    assert_eq!(system_text(&request.messages[0]), Some("one".to_string()));
    assert_eq!(user_text(&request.messages[1]), Some("two".to_string()));
    assert_eq!(assistant_text(&request.messages[2]), Some("three".to_string()));
    assert_eq!(user_text(&request.messages[3]), Some("four".to_string()));
    assert_eq!(request.stream, None);
}

#[test]
fn streaming_request_switches_streaming_on() {
    let messages = vec![message("user", "hi")];
    let request = build_chat_request(&messages, "gpt-4o-mini", true).unwrap();
    assert_eq!(request.stream, Some(true));
    assert_eq!(request.model, "gpt-4o-mini");
    assert_eq!(user_text(&request.messages[0]), Some("hi".to_string()));
}

#[test]
fn request_without_messages_is_built() {
    let request = build_chat_request(&[], "m", false).unwrap();
    assert!(request.messages.is_empty());
}

#[test]
fn single_choice_is_returned_exactly() {
    let messages = vec![message("user", "hello")];
    assert!(build_chat_request(&messages, "gpt-4o-mini", false).is_ok());
    let answer = chat_result(Ok(vec![Some("hi".to_string())]));
    assert_eq!(answer, Ok("hi".to_string()));
}

#[test]
fn first_choice_wins() {
    let answer = chat_result(Ok(vec![Some("a".to_string()), Some("b".to_string())]));
    assert_eq!(answer, Ok("a".to_string()));
}

#[test]
fn choice_without_content_gives_empty_text() {
    let answer = chat_result(Ok(vec![None, Some("b".to_string())]));
    assert_eq!(answer, Ok(String::new()));
}

#[test]
fn zero_choices_is_an_empty_result() {
    assert_eq!(chat_result(Ok(vec![])), Err(BridgeError::EmptyResult));
}

#[test]
fn failed_exchange_is_a_transport_failure() {
    let answer = chat_result(Err("http error: timed out".to_string()));
    assert_eq!(answer, Err(BridgeError::Transport("http error: timed out".to_string())));
}

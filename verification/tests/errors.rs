use alchemind_openai::chat::{build_chat_request, Message};
use alchemind_openai::error::BridgeError;
use alchemind_openai::text::{join_texts, render_decimal, same_text};

#[test]
fn each_failure_has_its_line() {
    assert_eq!(BridgeError::ContextCreation.describe(), "Failed to create execution context");
    assert_eq!(
        BridgeError::Lock("poisoned".to_string()).describe(),
        "Failed to lock client: poisoned"
    );
    assert_eq!(
        BridgeError::Validation { length: 9, keys: vec!["model".to_string(), "x".to_string()] }
            .describe(),
        "Audio binary too small. Audio binary length: 9, Opts: [model, x]"
    );
    assert_eq!(
        BridgeError::Decode { key: "speed".to_string(), keys: vec!["speed".to_string()] }
            .describe(),
        "Failed to decode speed. Opts: [speed]"
    );
    assert_eq!(
        BridgeError::RequestBuild("invalid args: x".to_string()).describe(),
        "Failed to build request: invalid args: x"
    );
    assert_eq!(
        BridgeError::Transport("http error: refused".to_string()).describe(),
        "API request failed: http error: refused"
    );
    assert_eq!(BridgeError::EmptyResult.describe(), "No completion choices returned");
}

#[test]
fn validation_line_without_options() {
    assert_eq!(
        BridgeError::Validation { length: 0, keys: vec![] }.describe(),
        "Audio binary too small. Audio binary length: 0, Opts: []"
    );
}

#[test]
fn decimal_numerals() {
    assert_eq!(render_decimal(0), "0");
    assert_eq!(render_decimal(7), "7");
    assert_eq!(render_decimal(10), "10");
    assert_eq!(render_decimal(909), "909");
    assert_eq!(render_decimal(1_000_000), "1000000");
    assert_eq!(render_decimal(u64::MAX), u64::MAX.to_string());
}

#[test]
fn joining() {
    assert_eq!(join_texts(&vec![]), "");
    assert_eq!(join_texts(&vec!["a".to_string()]), "a");
    assert_eq!(join_texts(&vec!["a".to_string(), "".to_string(), "c".to_string()]), "a, , c");
}

#[test]
fn text_comparison() {
    assert!(same_text("", ""));
    assert!(same_text("système", "système"));
    assert!(!same_text("system", "System"));
    assert!(!same_text("system", "system "));
}

#[test]
fn built_requests_differ_with_their_input() {
    let one = vec![Message { role: "user".to_string(), content: "a".to_string() }];
    let two = vec![Message { role: "system".to_string(), content: "a".to_string() }];
    let first = build_chat_request(&one, "m", false).unwrap();
    assert_eq!(first, build_chat_request(&one, "m", false).unwrap());
    assert_ne!(first, build_chat_request(&two, "m", false).unwrap());
    assert_ne!(first, build_chat_request(&one, "n", false).unwrap());
    assert_ne!(first, build_chat_request(&one, "m", true).unwrap());
}

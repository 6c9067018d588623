//! The classified failures that the bridge reports to its caller.

use vstd::prelude::*;
use crate::text::{decimal, join_texts, joined, render_decimal, texts};

verus! {

/// A failure of one bridge operation. Every failure reaches the immediate
/// caller as one of these; nothing is retried.
#[derive(Debug, Clone, PartialEq, Eq)]
pub enum BridgeError {
    /// The execution context for the call could not be created.
    ContextCreation,
    /// The client handle could not be acquired; the text says why.
    Lock(String),
    /// The input was refused before any request was made: an audio buffer of
    /// `length` bytes is too short. `keys` are the option names supplied.
    Validation { length: usize, keys: Vec<String> },
    /// The option `key` held a value that is not of its target type. `keys`
    /// are the option names supplied.
    Decode { key: String, keys: Vec<String> },
    /// The provider's request builder refused the fields; the text is its own.
    RequestBuild(String),
    /// The network exchange or the provider failed; the text is the provider's.
    Transport(String),
    /// A chat completion came back without a single choice.
    EmptyResult,
}

/// What a [`BridgeError`] holds, as mathematical values.
pub enum ErrorView {
    ContextCreation,
    Lock(Seq<char>),
    Validation { length: nat, keys: Seq<Seq<char>> },
    Decode { key: Seq<char>, keys: Seq<Seq<char>> },
    RequestBuild(Seq<char>),
    Transport(Seq<char>),
    EmptyResult,
}

impl View for BridgeError {
    type V = ErrorView;

    open spec fn view(&self) -> ErrorView {
        match self {
            BridgeError::ContextCreation => ErrorView::ContextCreation,
            BridgeError::Lock(text) => ErrorView::Lock(text@),
            BridgeError::Validation { length, keys } => ErrorView::Validation {
                length: *length as nat,
                keys: texts(keys@),
            },
            BridgeError::Decode { key, keys } => ErrorView::Decode { key: key@, keys: texts(keys@) },
            BridgeError::RequestBuild(text) => ErrorView::RequestBuild(text@),
            BridgeError::Transport(text) => ErrorView::Transport(text@),
            BridgeError::EmptyResult => ErrorView::EmptyResult,
        }
    }
}

/// The human-readable line for a failure.
pub open spec fn description(error: ErrorView) -> Seq<char> {
    match error {
        ErrorView::ContextCreation => "Failed to create execution context"@,
        ErrorView::Lock(text) => "Failed to lock client: "@ + text,
        ErrorView::Validation { length, keys } => "Audio binary too small. Audio binary length: "@
            + decimal(length) + ", Opts: ["@ + joined(keys) + "]"@,
        ErrorView::Decode { key, keys } => "Failed to decode "@ + key + ". Opts: ["@ + joined(keys)
            + "]"@,
        ErrorView::RequestBuild(text) => "Failed to build request: "@ + text,
        ErrorView::Transport(text) => "API request failed: "@ + text,
        ErrorView::EmptyResult => "No completion choices returned"@,
    }
}

impl BridgeError {
    /// Writes the failure as one human-readable line.
    pub fn describe(&self) -> (line: String)
        ensures
            line@ == description(self@),
    {
        match self {
            BridgeError::ContextCreation => String::from_str("Failed to create execution context"),
            BridgeError::Lock(text) => {
                let mut line = String::from_str("Failed to lock client: ");
                line.append(text.as_str());
                line
            },
            BridgeError::Validation { length, keys } => {
                let mut line = String::from_str("Audio binary too small. Audio binary length: ");
                let number = render_decimal(*length as u64);
                line.append(number.as_str());
                line.append(", Opts: [");
                let list = join_texts(keys);
                line.append(list.as_str());
                line.append("]");
                line
            },
            BridgeError::Decode { key, keys } => {
                let mut line = String::from_str("Failed to decode ");
                line.append(key.as_str());
                line.append(". Opts: [");
                let list = join_texts(keys);
                line.append(list.as_str());
                line.append("]");
                line
            },
            BridgeError::RequestBuild(text) => {
                let mut line = String::from_str("Failed to build request: ");
                line.append(text.as_str());
                line
            },
            BridgeError::Transport(text) => {
                let mut line = String::from_str("API request failed: ");
                line.append(text.as_str());
                line
            },
            BridgeError::EmptyResult => String::from_str("No completion choices returned"),
        }
    }
}

/// Classifies what a network exchange handed back: a value passes through
/// unchanged, and the provider's failure text becomes a transport failure
/// that carries it verbatim.
pub fn transport_outcome<T>(outcome: Result<T, String>) -> (r: Result<T, BridgeError>)
    ensures
        match outcome {
            Ok(value) => r == Ok::<T, BridgeError>(value),
            Err(text) => r matches Err(e) && e@ == ErrorView::Transport(text@),
        },
{
    match outcome {
        Ok(value) => Ok(value),
        Err(text) => Err(BridgeError::Transport(text)),
    }
}

} // verus!

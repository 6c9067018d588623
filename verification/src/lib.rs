//! The conversion and decision logic of a bridge between a host runtime and a
//! hosted language-model provider: chat requests, audio option decoding,
//! response unwrapping and the bounded polling pass that stands in for
//! streaming.

pub mod chat;
pub mod error;
pub mod options;
pub mod provider;
pub mod settings;
pub mod speech;
pub mod stream;
pub mod text;
pub mod transcription;

//! Verified core of a command-line client for a chat-completion service:
//! model validation, request payload framing, response decoding, choice
//! selection and output routing. Network and file access live outside.
pub mod chat;
pub mod cli;
pub mod error;
pub mod json;

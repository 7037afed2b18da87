//! A client library for a hosted generative-language service: request
//! builders for text completion, chat and embeddings, the resolution of
//! unset sampling parameters against a model's defaults, and the reading of
//! the service's status codes into a fixed set of errors.
//!
//! Real-valued sampling parameters (temperature, nucleus probability) are
//! held as the bit pattern of their IEEE-754 binary64 value, as given by
//! `f64::to_bits`; the library never computes with them.

pub mod client;
pub mod model;
pub mod request;
pub mod resolve;
pub mod response;
pub mod status;

pub use client::{create_client, create_client_with_endpoint, PalmClient, ENDPOINT};
pub use model::Model;
pub use request::{
    new_chat_body, new_message_prompt, new_text_body, ChatBody, Example, Message, MessagePrompt,
    Messages, SafetySetting, TextBody, TextPrompt, TokenBody,
};
pub use resolve::{ChatRequest, TextRequest};
pub use response::{
    ChatRes, ContentFilter, MessageRes, SafetyFeedback, SafetyRating, TextCompletion, TextRes,
};
pub use status::{classify, classify_status, ApiError, Operation, Parameter, StatusClass};

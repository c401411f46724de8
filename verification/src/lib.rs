//! Typed client library for a JSON-over-HTTP text-generation API.
//!
//! The crate builds JSON request bodies through a fluent builder, renders
//! them to wire text, and decodes JSON reply bodies into typed structures
//! with convenience accessors.

mod enums;
mod json;
mod models;
mod protocol;
mod requests;
mod responses;
mod strutil;

pub use crate::enums::{
    ContentType, FormatType, OutputType, ReasoningEffort, Role, Status, VerbosityLevel,
};
pub use crate::json::JsonValue;
pub use crate::models::Gpt5Model;
pub use crate::protocol::{classify_reply, interpret_reply, is_gpt5_model, ReplyOutcome};
pub use crate::requests::{
    Gpt5Request, Gpt5RequestBuilder, RequestReasoning, RequestText, Tool, ValidationWarning,
    WebSearchConfig,
};
pub use crate::responses::{
    DecodeFault, Gpt5Response, InputTokenDetails, OpenAiError, OpenAiErrorDetails, OutputContent,
    ResponseOutput, ResponseReasoning, ResponseText, ResponseTextFormat, ResponseTokenDetails,
    ResponseUsage,
};

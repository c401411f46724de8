//! Response structures, the strict decoder that builds them from a
//! JSON document, and read-only accessors over them.
//!
//! Decoding mirrors a strict reader: an optional field that is absent
//! or null is simply `None`, an unknown member is ignored, but a field
//! present with the wrong shape fails with a [`DecodeFault`] naming it.

use vstd::prelude::*;
use crate::enums::{
    content_type_of, effort_of, format_type_of, output_type_of, role_of, status_of, ContentType,
    FormatType, OutputType, ReasoningEffort, Role, Status,
};
use crate::json::{parse_json, spec_parse_json, JsonValue};
use crate::strutil::{all_digits, digits_val, parse_u32_dec, parse_u64_dec, str_eq};

verus! {

// ---------------------------------------------------------------------
// The data model
// ---------------------------------------------------------------------
/// Why a reply body did not fit the expected shape: the first field,
/// in declaration order, that was present with the wrong form.
#[derive(Debug, Clone, Copy, PartialEq, Eq, Structural)]
pub enum DecodeFault {
    /// The body is not valid JSON at all
    MalformedJson,
    /// The document is not an object
    NotAnObject,
    /// `id` is present but not a string
    IdField,
    /// `object` is present but not a string
    ObjectField,
    /// `created_at` is present but not an unsigned integer
    CreatedAtField,
    /// `status` is present but not a string
    StatusField,
    /// `instructions` is present but not a string
    InstructionsField,
    /// `max_output_tokens` is present but not an unsigned integer in range
    MaxOutputTokensField,
    /// `model` is present but not a string
    ModelField,
    /// `output` is present but not an array
    OutputField,
    /// `parallel_tool_calls` is present but not a boolean
    ParallelToolCallsField,
    /// `previous_response_id` is present but not a string
    PreviousResponseIdField,
    /// `reasoning` is present but not an object
    ReasoningNotAnObject,
    /// `reasoning.effort` is present but not a string
    ReasoningEffortField,
    /// `reasoning.summary` is present but not a string
    SummaryField,
    /// `store` is present but not a boolean
    StoreField,
    /// `text` is present but not an object
    TextNotAnObject,
    /// `text.format` is present but not an object
    FormatNotAnObject,
    /// `text.format.type` is missing or not a string
    FormatTypeField,
    /// `tool_choice` is present but not a string
    ToolChoiceField,
    /// `tools` is present but not an array
    ToolsField,
    /// `top_p` is present but not a number
    TopPField,
    /// `truncation` is present but not a string
    TruncationField,
    /// `usage` is present but not an object
    UsageNotAnObject,
    /// `usage.input_tokens` is missing or not an unsigned integer in range
    InputTokensField,
    /// `usage.output_tokens` is missing or not an unsigned integer in range
    OutputTokensField,
    /// `usage.total_tokens` is missing or not an unsigned integer in range
    TotalTokensField,
    /// `usage.input_tokens_details` is present but not an object
    InputTokensDetailsNotAnObject,
    /// `cached_tokens` is present but not an unsigned integer in range
    CachedTokensField,
    /// `usage.output_tokens_details` is present but not an object
    OutputTokensDetailsNotAnObject,
    /// `reasoning_tokens` is present but not an unsigned integer in range
    ReasoningTokensField,
    /// `user` is present but not a string
    UserField,
    /// `metadata` is present but not an object
    MetadataField,
    /// An output item is not an object
    OutputItemNotAnObject,
    /// An output item's `type` is missing or not a string
    OutputTypeField,
    /// An output item's `id` is present but not a string
    OutputIdField,
    /// An output item's `call_id` is present but not a string
    CallIdField,
    /// An output item's `name` is present but not a string
    NameField,
    /// An output item's `arguments` is present but not a string
    ArgumentsField,
    /// An output item's `status` is present but not a string
    OutputStatusField,
    /// An output item's `role` is present but not a string
    RoleField,
    /// An output item's `content` is present but not an array
    ContentField,
    /// A content segment is not an object
    ContentItemNotAnObject,
    /// A content segment's `type` is missing or not a string
    ContentTypeField,
    /// A content segment's `text` is present but not a string
    ContentTextField,
    /// A content segment's `annotations` is present but not an array
    AnnotationsField,
    /// The error envelope is not an object
    ErrorEnvelopeNotAnObject,
    /// The envelope's `error` member is missing or not an object
    ErrorField,
    /// The error's `message` is missing or not a string
    MessageField,
    /// The error's `type` is missing or not a string
    ErrorTypeField,
    /// The error's `param` is present but not a string
    ParamField,
    /// The error's `code` is present but not a string
    CodeField,
}

/// Content within an output message.
#[derive(Debug)]
pub struct OutputContent {
    /// Type of content (for example, `output_text`)
    pub content_type: ContentType,
    /// Textual data provided for text outputs
    pub text: Option<String>,
    /// Optional inline annotations such as citations or tool metadata
    pub annotations: Option<Vec<JsonValue>>,
}

/// The mathematical model of a content segment.
#[verifier::ext_equal]
pub struct ContentModel {
    /// Segment kind
    pub content_type: ContentType,
    /// Text payload, if any
    pub text: Option<String>,
    /// Raw annotation documents, if any
    pub annotations: Option<Seq<JsonValue>>,
}

impl View for OutputContent {
    type V = ContentModel;

    open spec fn view(&self) -> ContentModel {
        ContentModel {
            content_type: self.content_type,
            text: self.text,
            annotations: match self.annotations {
                Some(a) => Some(a@),
                None => None,
            },
        }
    }
}

/// Output content in the response: a message or a function call.
#[derive(Debug)]
pub struct ResponseOutput {
    /// Discriminator indicating whether this output is a message or tool call
    pub output_type: OutputType,
    /// Unique identifier for the output element
    pub id: Option<String>,
    /// Identifier linking tool call outputs to follow-up responses
    pub call_id: Option<String>,
    /// Function or tool name associated with this output
    pub name: Option<String>,
    /// JSON-encoded arguments supplied to a function call
    pub arguments: Option<String>,
    /// Execution status reported for this output item
    pub status: Option<Status>,
    /// Message role (`user`, `assistant`, `tool`, etc.) when applicable
    pub role: Option<Role>,
    /// Rich content segments that make up the response message
    pub content: Option<Vec<OutputContent>>,
}

/// The mathematical model of an output item.
#[verifier::ext_equal]
pub struct OutputModel {
    /// Item kind
    pub output_type: OutputType,
    /// Identifier, if any
    pub id: Option<String>,
    /// Call correlation identifier, if any
    pub call_id: Option<String>,
    /// Function name, if any
    pub name: Option<String>,
    /// Encoded function arguments, if any
    pub arguments: Option<String>,
    /// Item status, if any
    pub status: Option<Status>,
    /// Participant role, if any
    pub role: Option<Role>,
    /// Content segments, if any
    pub content: Option<Seq<ContentModel>>,
}

impl View for ResponseOutput {
    type V = OutputModel;

    open spec fn view(&self) -> OutputModel {
        OutputModel {
            output_type: self.output_type,
            id: self.id,
            call_id: self.call_id,
            name: self.name,
            arguments: self.arguments,
            status: self.status,
            role: self.role,
            content: match self.content {
                Some(c) => Some(c@.map_values(|x: OutputContent| x@)),
                None => None,
            },
        }
    }
}

/// Reasoning information in the response.
#[derive(Debug)]
pub struct ResponseReasoning {
    /// Reported level of reasoning effort spent on the request
    pub effort: Option<ReasoningEffort>,
    /// Natural language summary of the model's reasoning process
    pub summary: Option<String>,
}

/// Text format specification.
#[derive(Debug)]
pub struct ResponseTextFormat {
    /// Concrete text format such as Markdown or plain text
    pub format_type: FormatType,
}

/// Text formatting information.
#[derive(Debug)]
pub struct ResponseText {
    /// Formatting metadata describing how the client should render text output
    pub format: Option<ResponseTextFormat>,
}

/// Input token details.
#[derive(Debug)]
pub struct InputTokenDetails {
    /// Number of tokens served from cache rather than newly processed
    pub cached_tokens: Option<u32>,
}

/// Output token details.
#[derive(Debug)]
pub struct ResponseTokenDetails {
    /// Tokens allocated specifically to reasoning traces
    pub reasoning_tokens: Option<u32>,
}

/// Token usage statistics.
#[derive(Debug)]
pub struct ResponseUsage {
    /// Count of tokens consumed by input content
    pub input_tokens: u32,
    /// Detailed breakdown of input token consumption
    pub input_tokens_details: Option<InputTokenDetails>,
    /// Count of tokens generated in the output
    pub output_tokens: u32,
    /// Detailed breakdown of output token consumption
    pub output_tokens_details: Option<ResponseTokenDetails>,
    /// Total tokens billed for the interaction
    pub total_tokens: u32,
}

/// Error details returned by the endpoint.
#[derive(Debug)]
pub struct OpenAiErrorDetails {
    /// Human-readable explanation of the failure
    pub message: String,
    /// Error category identifier provided by the endpoint
    pub error_type: String,
    /// Parameter that triggered the error, if known
    pub param: Option<String>,
    /// Additional error code that can aid debugging
    pub code: Option<String>,
}

/// Error envelope returned by the endpoint.
#[derive(Debug)]
pub struct OpenAiError {
    /// Structured error payload returned by the endpoint
    pub error: OpenAiErrorDetails,
}

/// Response payload from the text-generation endpoint.
///
/// Constructed exclusively by decoding a reply body; accessors give
/// read-only projections and never fail.
#[derive(Debug)]
pub struct Gpt5Response {
    /// Unique identifier assigned by the endpoint for this response instance
    pub id: Option<String>,
    /// Type of object returned (typically "response")
    pub object: Option<String>,
    /// Unix timestamp (seconds) when the response was created
    pub created_at: Option<u64>,
    /// Current status of the response lifecycle
    pub status: Option<Status>,
    /// Raw error payload when the request fails
    pub error: Option<JsonValue>,
    /// Additional details explaining why a response may be incomplete
    pub incomplete_details: Option<JsonValue>,
    /// System instructions that were used to generate this output
    pub instructions: Option<String>,
    /// Maximum tokens that were allowed for output generation
    pub max_output_tokens: Option<u32>,
    /// Model identifier that produced the response
    pub model: Option<String>,
    /// Collection of outputs such as messages and tool invocations
    pub output: Option<Vec<ResponseOutput>>,
    /// Indicates whether the model may issue multiple tool calls in parallel
    pub parallel_tool_calls: Option<bool>,
    /// Identifier referencing a prior response in a conversation chain
    pub previous_response_id: Option<String>,
    /// Metadata describing the model's reasoning effort and summary
    pub reasoning: Option<ResponseReasoning>,
    /// Whether the endpoint stored this response server-side
    pub store: Option<bool>,
    /// Aggregated text block supplied alongside the structured output array
    pub text: Option<ResponseText>,
    /// Tool selection strategy that was applied to this response
    pub tool_choice: Option<String>,
    /// Raw tool descriptors returned alongside the response
    pub tools: Option<Vec<JsonValue>>,
    /// Top-p sampling value that was used, kept as its number text
    pub top_p: Option<String>,
    /// Reason the response may have been truncated early, if any
    pub truncation: Option<String>,
    /// Token usage and cost accounting details
    pub usage: Option<ResponseUsage>,
    /// Identifier supplied by the caller in the original request
    pub user: Option<String>,
    /// Arbitrary key/value metadata returned by the endpoint
    pub metadata: Option<Vec<(String, JsonValue)>>,
}

/// The mathematical model of a response.
#[verifier::ext_equal]
pub struct ResponseModel {
    /// Identifier, if any
    pub id: Option<String>,
    /// Object kind, if any
    pub object: Option<String>,
    /// Creation timestamp, if any
    pub created_at: Option<u64>,
    /// Lifecycle status, if any
    pub status: Option<Status>,
    /// Raw error payload, if any
    pub error: Option<JsonValue>,
    /// Raw incompleteness details, if any
    pub incomplete_details: Option<JsonValue>,
    /// Echoed instructions, if any
    pub instructions: Option<String>,
    /// Echoed output token bound, if any
    pub max_output_tokens: Option<u32>,
    /// Producing model, if any
    pub model: Option<String>,
    /// Output items, if any
    pub output: Option<Seq<OutputModel>>,
    /// Parallel tool call flag, if any
    pub parallel_tool_calls: Option<bool>,
    /// Prior response identifier, if any
    pub previous_response_id: Option<String>,
    /// Reasoning metadata, if any
    pub reasoning: Option<ResponseReasoning>,
    /// Server-side storage flag, if any
    pub store: Option<bool>,
    /// Text configuration, if any
    pub text: Option<ResponseText>,
    /// Echoed tool choice, if any
    pub tool_choice: Option<String>,
    /// Raw tool descriptors, if any
    pub tools: Option<Seq<JsonValue>>,
    /// Echoed top-p number text, if any
    pub top_p: Option<String>,
    /// Truncation reason, if any
    pub truncation: Option<String>,
    /// Usage statistics, if any
    pub usage: Option<ResponseUsage>,
    /// Caller identifier, if any
    pub user: Option<String>,
    /// Raw metadata members, if any
    pub metadata: Option<Seq<(String, JsonValue)>>,
}

impl View for Gpt5Response {
    type V = ResponseModel;

    open spec fn view(&self) -> ResponseModel {
        ResponseModel {
            id: self.id,
            object: self.object,
            created_at: self.created_at,
            status: self.status,
            error: self.error,
            incomplete_details: self.incomplete_details,
            instructions: self.instructions,
            max_output_tokens: self.max_output_tokens,
            model: self.model,
            output: match self.output {
                Some(os) => Some(output_views(os@)),
                None => None,
            },
            parallel_tool_calls: self.parallel_tool_calls,
            previous_response_id: self.previous_response_id,
            reasoning: self.reasoning,
            store: self.store,
            text: self.text,
            tool_choice: self.tool_choice,
            tools: match self.tools {
                Some(ts) => Some(ts@),
                None => None,
            },
            top_p: self.top_p,
            truncation: self.truncation,
            usage: self.usage,
            user: self.user,
            metadata: match self.metadata {
                Some(ms) => Some(ms@),
                None => None,
            },
        }
    }
}

// ---------------------------------------------------------------------
// First-occurrence member map
// ---------------------------------------------------------------------
/// The first value bound to each key among the first `i` members.
pub open spec fn first_vals_upto(s: Seq<(String, JsonValue)>, i: int) -> Map<Seq<char>, JsonValue>
    decreases i,
{
    if i <= 0 {
        Map::empty()
    } else {
        let m = first_vals_upto(s, i - 1);
        if m.dom().contains(s[i - 1].0@) {
            m
        } else {
            m.insert(s[i - 1].0@, s[i - 1].1)
        }
    }
}

/// The first value bound to each key of an object's members.
pub open spec fn first_vals(s: Seq<(String, JsonValue)>) -> Map<Seq<char>, JsonValue> {
    first_vals_upto(s, s.len() as int)
}

/// The field stored under a key, if any.
pub open spec fn field_of(m: Map<Seq<char>, JsonValue>, k: Seq<char>) -> Option<JsonValue> {
    if m.dom().contains(k) {
        Some(m[k])
    } else {
        None
    }
}

// ---------------------------------------------------------------------
// Field converters: what a slot must look like for each field shape
// ---------------------------------------------------------------------
/// An optional string field: absent or null is `None`; a string is
/// taken verbatim; anything else is a fault.
pub open spec fn spec_opt_string(v: Option<JsonValue>) -> Result<Option<String>, ()> {
    match v {
        None => Ok(None),
        Some(JsonValue::Null) => Ok(None),
        Some(JsonValue::Str(s)) => Ok(Some(s)),
        Some(_) => Err(()),
    }
}

fn take_opt_string(v: Option<JsonValue>) -> (r: Result<Option<String>, ()>)
    ensures
        r == spec_opt_string(v),
{
    match v {
        None => Ok(None),
        Some(JsonValue::Null) => Ok(None),
        Some(JsonValue::Str(s)) => Ok(Some(s)),
        Some(_) => Err(()),
    }
}

/// An optional boolean field.
pub open spec fn spec_opt_bool(v: Option<JsonValue>) -> Result<Option<bool>, ()> {
    match v {
        None => Ok(None),
        Some(JsonValue::Null) => Ok(None),
        Some(JsonValue::Bool(b)) => Ok(Some(b)),
        Some(_) => Err(()),
    }
}

fn take_opt_bool(v: Option<JsonValue>) -> (r: Result<Option<bool>, ()>)
    ensures
        r == spec_opt_bool(v),
{
    match v {
        None => Ok(None),
        Some(JsonValue::Null) => Ok(None),
        Some(JsonValue::Bool(b)) => Ok(Some(b)),
        Some(_) => Err(()),
    }
}

/// An optional unsigned integer field: the number's text must be plain
/// digits and fit the width.
pub open spec fn spec_opt_u64(v: Option<JsonValue>) -> Result<Option<u64>, ()> {
    match v {
        None => Ok(None),
        Some(JsonValue::Null) => Ok(None),
        Some(JsonValue::Num(s)) => if s@.len() > 0 && all_digits(s@) && digits_val(s@)
            <= u64::MAX {
            Ok(Some(digits_val(s@) as u64))
        } else {
            Err(())
        },
        Some(_) => Err(()),
    }
}

fn take_opt_u64(v: Option<JsonValue>) -> (r: Result<Option<u64>, ()>)
    ensures
        r == spec_opt_u64(v),
{
    match v {
        None => Ok(None),
        Some(JsonValue::Null) => Ok(None),
        Some(JsonValue::Num(s)) => match parse_u64_dec(s.as_str()) {
            Some(n) => Ok(Some(n)),
            None => Err(()),
        },
        Some(_) => Err(()),
    }
}

/// An optional 32-bit unsigned integer field.
pub open spec fn spec_opt_u32(v: Option<JsonValue>) -> Result<Option<u32>, ()> {
    match v {
        None => Ok(None),
        Some(JsonValue::Null) => Ok(None),
        Some(JsonValue::Num(s)) => if s@.len() > 0 && all_digits(s@) && digits_val(s@)
            <= u32::MAX {
            Ok(Some(digits_val(s@) as u32))
        } else {
            Err(())
        },
        Some(_) => Err(()),
    }
}

fn take_opt_u32(v: Option<JsonValue>) -> (r: Result<Option<u32>, ()>)
    ensures
        r == spec_opt_u32(v),
{
    match v {
        None => Ok(None),
        Some(JsonValue::Null) => Ok(None),
        Some(JsonValue::Num(s)) => match parse_u32_dec(s.as_str()) {
            Some(n) => Ok(Some(n)),
            None => Err(()),
        },
        Some(_) => Err(()),
    }
}

/// A required 32-bit unsigned integer field: absent counts as a fault.
pub open spec fn spec_req_u32(v: Option<JsonValue>) -> Result<u32, ()> {
    match v {
        Some(JsonValue::Num(s)) => if s@.len() > 0 && all_digits(s@) && digits_val(s@)
            <= u32::MAX {
            Ok(digits_val(s@) as u32)
        } else {
            Err(())
        },
        _ => Err(()),
    }
}

fn take_req_u32(v: Option<JsonValue>) -> (r: Result<u32, ()>)
    ensures
        r == spec_req_u32(v),
{
    match v {
        Some(JsonValue::Num(s)) => match parse_u32_dec(s.as_str()) {
            Some(n) => Ok(n),
            None => Err(()),
        },
        _ => Err(()),
    }
}

/// A raw field kept as it came: absent or null is `None`, anything
/// else is carried through untouched. Never a fault.
pub open spec fn spec_opt_raw(v: Option<JsonValue>) -> Option<JsonValue> {
    match v {
        None => None,
        Some(JsonValue::Null) => None,
        Some(w) => Some(w),
    }
}

fn take_opt_raw(v: Option<JsonValue>) -> (r: Option<JsonValue>)
    ensures
        r == spec_opt_raw(v),
{
    match v {
        None => None,
        Some(JsonValue::Null) => None,
        Some(w) => Some(w),
    }
}

/// An optional number field kept as its literal text.
pub open spec fn spec_opt_num_text(v: Option<JsonValue>) -> Result<Option<String>, ()> {
    match v {
        None => Ok(None),
        Some(JsonValue::Null) => Ok(None),
        Some(JsonValue::Num(s)) => Ok(Some(s)),
        Some(_) => Err(()),
    }
}

fn take_opt_num_text(v: Option<JsonValue>) -> (r: Result<Option<String>, ()>)
    ensures
        r == spec_opt_num_text(v),
{
    match v {
        None => Ok(None),
        Some(JsonValue::Null) => Ok(None),
        Some(JsonValue::Num(s)) => Ok(Some(s)),
        Some(_) => Err(()),
    }
}

/// An optional array field kept raw: the items untouched.
pub open spec fn spec_opt_arr_raw(v: Option<JsonValue>) -> Result<Option<Vec<JsonValue>>, ()> {
    match v {
        None => Ok(None),
        Some(JsonValue::Null) => Ok(None),
        Some(JsonValue::Arr(items)) => Ok(Some(items)),
        Some(_) => Err(()),
    }
}

fn take_opt_arr_raw(v: Option<JsonValue>) -> (r: Result<Option<Vec<JsonValue>>, ()>)
    ensures
        r == spec_opt_arr_raw(v),
{
    match v {
        None => Ok(None),
        Some(JsonValue::Null) => Ok(None),
        Some(JsonValue::Arr(items)) => Ok(Some(items)),
        Some(_) => Err(()),
    }
}

/// An optional object field kept as its raw member pairs.
pub open spec fn spec_opt_obj_raw(v: Option<JsonValue>) -> Result<
    Option<Vec<(String, JsonValue)>>,
    (),
> {
    match v {
        None => Ok(None),
        Some(JsonValue::Null) => Ok(None),
        Some(JsonValue::Obj(ms)) => Ok(Some(ms)),
        Some(_) => Err(()),
    }
}

fn take_opt_obj_raw(v: Option<JsonValue>) -> (r: Result<Option<Vec<(String, JsonValue)>>, ()>)
    ensures
        r == spec_opt_obj_raw(v),
{
    match v {
        None => Ok(None),
        Some(JsonValue::Null) => Ok(None),
        Some(JsonValue::Obj(ms)) => Ok(Some(ms)),
        Some(_) => Err(()),
    }
}

/// An optional status field: a string decodes totally, anything else
/// present is a fault.
pub open spec fn spec_opt_status(v: Option<JsonValue>) -> Result<Option<Status>, ()> {
    match v {
        None => Ok(None),
        Some(JsonValue::Null) => Ok(None),
        Some(JsonValue::Str(s)) => Ok(Some(status_of(s))),
        Some(_) => Err(()),
    }
}

fn take_opt_status(v: Option<JsonValue>) -> (r: Result<Option<Status>, ()>)
    ensures
        r == spec_opt_status(v),
{
    match v {
        None => Ok(None),
        Some(JsonValue::Null) => Ok(None),
        Some(JsonValue::Str(s)) => Ok(Some(Status::from_wire(s))),
        Some(_) => Err(()),
    }
}

/// An optional role field.
pub open spec fn spec_opt_role(v: Option<JsonValue>) -> Result<Option<Role>, ()> {
    match v {
        None => Ok(None),
        Some(JsonValue::Null) => Ok(None),
        Some(JsonValue::Str(s)) => Ok(Some(role_of(s))),
        Some(_) => Err(()),
    }
}

fn take_opt_role(v: Option<JsonValue>) -> (r: Result<Option<Role>, ()>)
    ensures
        r == spec_opt_role(v),
{
    match v {
        None => Ok(None),
        Some(JsonValue::Null) => Ok(None),
        Some(JsonValue::Str(s)) => Ok(Some(Role::from_wire(s))),
        Some(_) => Err(()),
    }
}

/// An optional reasoning effort field.
pub open spec fn spec_opt_effort(v: Option<JsonValue>) -> Result<Option<ReasoningEffort>, ()> {
    match v {
        None => Ok(None),
        Some(JsonValue::Null) => Ok(None),
        Some(JsonValue::Str(s)) => Ok(Some(effort_of(s))),
        Some(_) => Err(()),
    }
}

fn take_opt_effort(v: Option<JsonValue>) -> (r: Result<Option<ReasoningEffort>, ()>)
    ensures
        r == spec_opt_effort(v),
{
    match v {
        None => Ok(None),
        Some(JsonValue::Null) => Ok(None),
        Some(JsonValue::Str(s)) => Ok(Some(ReasoningEffort::from_wire(s))),
        Some(_) => Err(()),
    }
}

/// A required discriminator: must be a string; decodes totally.
pub open spec fn spec_req_output_type(v: Option<JsonValue>) -> Result<OutputType, ()> {
    match v {
        Some(JsonValue::Str(s)) => Ok(output_type_of(s)),
        _ => Err(()),
    }
}

fn take_req_output_type(v: Option<JsonValue>) -> (r: Result<OutputType, ()>)
    ensures
        r == spec_req_output_type(v),
{
    match v {
        Some(JsonValue::Str(s)) => Ok(OutputType::from_wire(s)),
        _ => Err(()),
    }
}

/// A required content discriminator.
pub open spec fn spec_req_content_type(v: Option<JsonValue>) -> Result<ContentType, ()> {
    match v {
        Some(JsonValue::Str(s)) => Ok(content_type_of(s)),
        _ => Err(()),
    }
}

fn take_req_content_type(v: Option<JsonValue>) -> (r: Result<ContentType, ()>)
    ensures
        r == spec_req_content_type(v),
{
    match v {
        Some(JsonValue::Str(s)) => Ok(ContentType::from_wire(s)),
        _ => Err(()),
    }
}

/// A required format discriminator.
pub open spec fn spec_req_format_type(v: Option<JsonValue>) -> Result<FormatType, ()> {
    match v {
        Some(JsonValue::Str(s)) => Ok(format_type_of(s)),
        _ => Err(()),
    }
}

fn take_req_format_type(v: Option<JsonValue>) -> (r: Result<FormatType, ()>)
    ensures
        r == spec_req_format_type(v),
{
    match v {
        Some(JsonValue::Str(s)) => Ok(FormatType::from_wire(s)),
        _ => Err(()),
    }
}

// ---------------------------------------------------------------------
// Decoding content segments and output items
// ---------------------------------------------------------------------
/// The models of a sequence of content segments.
pub open spec fn content_views(cs: Seq<OutputContent>) -> Seq<ContentModel> {
    cs.map_values(|c: OutputContent| c@)
}

/// How a content segment decodes: it must be an object; `type` is
/// required, `text` and `annotations` optional.
pub open spec fn spec_decode_content(v: JsonValue) -> Result<ContentModel, DecodeFault> {
    if !(v is Obj) {
        Err(DecodeFault::ContentItemNotAnObject)
    } else {
        let m = first_vals(v->Obj_0@);
        if spec_req_content_type(field_of(m, "type"@)) is Err {
            Err(DecodeFault::ContentTypeField)
        } else if spec_opt_string(field_of(m, "text"@)) is Err {
            Err(DecodeFault::ContentTextField)
        } else if spec_opt_arr_raw(field_of(m, "annotations"@)) is Err {
            Err(DecodeFault::AnnotationsField)
        } else {
            Ok(
                ContentModel {
                    content_type: spec_req_content_type(field_of(m, "type"@))->Ok_0,
                    text: spec_opt_string(field_of(m, "text"@))->Ok_0,
                    annotations: match spec_opt_arr_raw(field_of(m, "annotations"@))->Ok_0 {
                        Some(a) => Some(a@),
                        None => None,
                    },
                },
            )
        }
    }
}

#[verifier::loop_isolation(false)]
fn decode_content(v: JsonValue) -> (r: Result<OutputContent, DecodeFault>)
    ensures
        spec_decode_content(v) matches Ok(m) ==> r matches Ok(c) && c@ == m,
        spec_decode_content(v) matches Err(e) ==> r matches Err(f) && f == e,
{
    let ms = match v {
        JsonValue::Obj(ms) => ms,
        _ => {
            return Err(DecodeFault::ContentItemNotAnObject);
        },
    };
    let ghost orig = ms@;
    let mut rest = ms;
    let total = rest.len();
    proof {
        assert(orig.len() == total as int);
    }
    let mut i: usize = 0;
    let mut s_type: Option<JsonValue> = None;
    let mut s_text: Option<JsonValue> = None;
    let mut s_annotations: Option<JsonValue> = None;
    proof {
        reveal_strlit("type");
        reveal_strlit("text");
        reveal_strlit("annotations");
        assert("type"@.len() == 4 && "text"@.len() == 4 && "annotations"@.len() == 11);
        assert("type"@[1] == 'y' && "text"@[1] == 'e');
        assert("type"@ != "text"@);
    }
    while rest.len() > 0
        invariant
            orig.len() <= usize::MAX,
            0 <= i <= orig.len(),
            rest@ == orig.skip(i as int),
            s_type == field_of(first_vals_upto(orig, i as int), "type"@),
            s_text == field_of(first_vals_upto(orig, i as int), "text"@),
            s_annotations == field_of(first_vals_upto(orig, i as int), "annotations"@),
        decreases rest@.len(),
    {
        proof {
            assert(orig.skip(i as int)[0] == orig[i as int]);
        }
        let (key, val) = rest.remove(0);
        proof {
            assert(rest@ =~= orig.skip(i as int + 1));
        }
        let is_type = str_eq(key.as_str(), "type");
        let is_text = str_eq(key.as_str(), "text");
        let is_annotations = str_eq(key.as_str(), "annotations");
        if is_type {
            if s_type.is_none() {
                s_type = Some(val);
            }
        } else if is_text {
            if s_text.is_none() {
                s_text = Some(val);
            }
        } else if is_annotations {
            if s_annotations.is_none() {
                s_annotations = Some(val);
            }
        }
        i += 1;
    }
    let content_type = match take_req_content_type(s_type) {
        Ok(t) => t,
        Err(_) => {
            return Err(DecodeFault::ContentTypeField);
        },
    };
    let text = match take_opt_string(s_text) {
        Ok(t) => t,
        Err(_) => {
            return Err(DecodeFault::ContentTextField);
        },
    };
    let annotations = match take_opt_arr_raw(s_annotations) {
        Ok(a) => a,
        Err(_) => {
            return Err(DecodeFault::AnnotationsField);
        },
    };
    Ok(OutputContent { content_type, text, annotations })
}

/// How a sequence of content segments decodes: each in order, the
/// first fault aborting the whole.
pub open spec fn spec_decode_contents_from(items: Seq<JsonValue>, i: int) -> Result<
    Seq<ContentModel>,
    DecodeFault,
>
    decreases items.len() - i,
{
    if i < 0 || i >= items.len() {
        Ok(Seq::empty())
    } else {
        match spec_decode_content(items[i]) {
            Err(e) => Err(e),
            Ok(c) => match spec_decode_contents_from(items, i + 1) {
                Err(e) => Err(e),
                Ok(rest) => Ok(seq![c] + rest),
            },
        }
    }
}

#[verifier::loop_isolation(false)]
fn decode_contents(items: Vec<JsonValue>) -> (r: Result<Vec<OutputContent>, DecodeFault>)
    ensures
        spec_decode_contents_from(items@, 0) matches Ok(ms) ==> r matches Ok(cs) && content_views(
            cs@,
        ) == ms,
        spec_decode_contents_from(items@, 0) matches Err(e) ==> r matches Err(f) && f == e,
{
    let ghost orig = items@;
    let mut rest = items;
    let total = rest.len();
    proof {
        assert(orig.len() == total as int);
    }
    let mut out: Vec<OutputContent> = Vec::new();
    let mut i: usize = 0;
    while rest.len() > 0
        invariant
            orig.len() <= usize::MAX,
            0 <= i <= orig.len(),
            rest@ == orig.skip(i as int),
            out@.len() == i,
            spec_decode_contents_from(orig, 0) == (match spec_decode_contents_from(
                orig,
                i as int,
            ) {
                Ok(rest_ms) => Ok::<Seq<ContentModel>, DecodeFault>(
                    content_views(out@) + rest_ms,
                ),
                Err(e) => Err(e),
            }),
        decreases rest@.len(),
    {
        proof {
            assert(orig.skip(i as int)[0] == orig[i as int]);
        }
        let item = rest.remove(0);
        proof {
            assert(rest@ =~= orig.skip(i as int + 1));
        }
        let ghost prev = out@;
        match decode_content(item) {
            Ok(c) => {
                out.push(c);
                proof {
                    assert(content_views(out@) =~= content_views(prev) + seq![c@]);
                    if spec_decode_contents_from(orig, i + 1) is Ok {
                        let rest_ms = spec_decode_contents_from(orig, i + 1)->Ok_0;
                        assert(content_views(prev) + (seq![c@] + rest_ms) =~= (content_views(prev)
                            + seq![c@]) + rest_ms);
                    }
                }
            },
            Err(f) => {
                return Err(f);
            },
        }
        i += 1;
    }
    proof {
        if spec_decode_contents_from(orig, i as int) is Ok {
            let rest_ms = spec_decode_contents_from(orig, i as int)->Ok_0;
            assert(content_views(out@) + rest_ms =~= content_views(out@));
        }
    }
    Ok(out)
}

/// An optional content list: absent or null is `None`; an array must
/// decode segment by segment; anything else is a fault.
pub open spec fn spec_opt_contents(v: Option<JsonValue>) -> Result<
    Option<Seq<ContentModel>>,
    DecodeFault,
> {
    match v {
        None => Ok(None),
        Some(JsonValue::Null) => Ok(None),
        Some(JsonValue::Arr(items)) => match spec_decode_contents_from(items@, 0) {
            Ok(cs) => Ok(Some(cs)),
            Err(e) => Err(e),
        },
        Some(_) => Err(DecodeFault::ContentField),
    }
}

fn take_opt_contents(v: Option<JsonValue>) -> (r: Result<Option<Vec<OutputContent>>, DecodeFault>)
    ensures
        spec_opt_contents(v) matches Ok(ms) ==> r matches Ok(cs) && (match cs {
            Some(cv) => ms matches Some(mv) && content_views(cv@) == mv,
            None => ms is None,
        }),
        spec_opt_contents(v) matches Err(e) ==> r matches Err(f) && f == e,
{
    match v {
        None => Ok(None),
        Some(JsonValue::Null) => Ok(None),
        Some(JsonValue::Arr(items)) => match decode_contents(items) {
            Ok(cs) => Ok(Some(cs)),
            Err(e) => Err(e),
        },
        Some(_) => Err(DecodeFault::ContentField),
    }
}

/// The models of a sequence of output items.
pub open spec fn output_views(os: Seq<ResponseOutput>) -> Seq<OutputModel> {
    os.map_values(|o: ResponseOutput| o@)
}

/// How an output item decodes: it must be an object; `type` is
/// required, everything else optional.
pub open spec fn spec_decode_output(v: JsonValue) -> Result<OutputModel, DecodeFault> {
    if !(v is Obj) {
        Err(DecodeFault::OutputItemNotAnObject)
    } else {
        let m = first_vals(v->Obj_0@);
        if spec_req_output_type(field_of(m, "type"@)) is Err {
            Err(DecodeFault::OutputTypeField)
        } else if spec_opt_string(field_of(m, "id"@)) is Err {
            Err(DecodeFault::OutputIdField)
        } else if spec_opt_string(field_of(m, "call_id"@)) is Err {
            Err(DecodeFault::CallIdField)
        } else if spec_opt_string(field_of(m, "name"@)) is Err {
            Err(DecodeFault::NameField)
        } else if spec_opt_string(field_of(m, "arguments"@)) is Err {
            Err(DecodeFault::ArgumentsField)
        } else if spec_opt_status(field_of(m, "status"@)) is Err {
            Err(DecodeFault::OutputStatusField)
        } else if spec_opt_role(field_of(m, "role"@)) is Err {
            Err(DecodeFault::RoleField)
        } else if spec_opt_contents(field_of(m, "content"@)) is Err {
            Err(spec_opt_contents(field_of(m, "content"@))->Err_0)
        } else {
            Ok(
                OutputModel {
                    output_type: spec_req_output_type(field_of(m, "type"@))->Ok_0,
                    id: spec_opt_string(field_of(m, "id"@))->Ok_0,
                    call_id: spec_opt_string(field_of(m, "call_id"@))->Ok_0,
                    name: spec_opt_string(field_of(m, "name"@))->Ok_0,
                    arguments: spec_opt_string(field_of(m, "arguments"@))->Ok_0,
                    status: spec_opt_status(field_of(m, "status"@))->Ok_0,
                    role: spec_opt_role(field_of(m, "role"@))->Ok_0,
                    content: spec_opt_contents(field_of(m, "content"@))->Ok_0,
                },
            )
        }
    }
}

#[verifier::loop_isolation(false)]
fn decode_output(v: JsonValue) -> (r: Result<ResponseOutput, DecodeFault>)
    ensures
        spec_decode_output(v) matches Ok(m) ==> r matches Ok(o) && o@ == m,
        spec_decode_output(v) matches Err(e) ==> r matches Err(f) && f == e,
{
    let ms = match v {
        JsonValue::Obj(ms) => ms,
        _ => {
            return Err(DecodeFault::OutputItemNotAnObject);
        },
    };
    let ghost orig = ms@;
    let mut rest = ms;
    let total = rest.len();
    proof {
        assert(orig.len() == total as int);
    }
    let mut i: usize = 0;
    let mut s_type: Option<JsonValue> = None;
    let mut s_id: Option<JsonValue> = None;
    let mut s_call_id: Option<JsonValue> = None;
    let mut s_name: Option<JsonValue> = None;
    let mut s_arguments: Option<JsonValue> = None;
    let mut s_status: Option<JsonValue> = None;
    let mut s_role: Option<JsonValue> = None;
    let mut s_content: Option<JsonValue> = None;
    proof {
        reveal_strlit("type");
        reveal_strlit("id");
        reveal_strlit("call_id");
        reveal_strlit("name");
        reveal_strlit("arguments");
        reveal_strlit("status");
        reveal_strlit("role");
        reveal_strlit("content");
        assert("type"@.len() == 4 && "id"@.len() == 2 && "call_id"@.len() == 7);
        assert("name"@.len() == 4 && "arguments"@.len() == 9 && "status"@.len() == 6);
        assert("role"@.len() == 4 && "content"@.len() == 7);
        assert("type"@[0] == 't' && "name"@[0] == 'n' && "role"@[0] == 'r');
        assert("call_id"@[1] == 'a' && "content"@[1] == 'o');
        assert("type"@ != "name"@ && "type"@ != "role"@ && "name"@ != "role"@);
        assert("call_id"@ != "content"@);
    }
    while rest.len() > 0
        invariant
            orig.len() <= usize::MAX,
            0 <= i <= orig.len(),
            rest@ == orig.skip(i as int),
            s_type == field_of(first_vals_upto(orig, i as int), "type"@),
            s_id == field_of(first_vals_upto(orig, i as int), "id"@),
            s_call_id == field_of(first_vals_upto(orig, i as int), "call_id"@),
            s_name == field_of(first_vals_upto(orig, i as int), "name"@),
            s_arguments == field_of(first_vals_upto(orig, i as int), "arguments"@),
            s_status == field_of(first_vals_upto(orig, i as int), "status"@),
            s_role == field_of(first_vals_upto(orig, i as int), "role"@),
            s_content == field_of(first_vals_upto(orig, i as int), "content"@),
        decreases rest@.len(),
    {
        proof {
            assert(orig.skip(i as int)[0] == orig[i as int]);
        }
        let (key, val) = rest.remove(0);
        proof {
            assert(rest@ =~= orig.skip(i as int + 1));
        }
        let is_type = str_eq(key.as_str(), "type");
        let is_id = str_eq(key.as_str(), "id");
        let is_call_id = str_eq(key.as_str(), "call_id");
        let is_name = str_eq(key.as_str(), "name");
        let is_arguments = str_eq(key.as_str(), "arguments");
        let is_status = str_eq(key.as_str(), "status");
        let is_role = str_eq(key.as_str(), "role");
        let is_content = str_eq(key.as_str(), "content");
        if is_type {
            if s_type.is_none() {
                s_type = Some(val);
            }
        } else if is_id {
            if s_id.is_none() {
                s_id = Some(val);
            }
        } else if is_call_id {
            if s_call_id.is_none() {
                s_call_id = Some(val);
            }
        } else if is_name {
            if s_name.is_none() {
                s_name = Some(val);
            }
        } else if is_arguments {
            if s_arguments.is_none() {
                s_arguments = Some(val);
            }
        } else if is_status {
            if s_status.is_none() {
                s_status = Some(val);
            }
        } else if is_role {
            if s_role.is_none() {
                s_role = Some(val);
            }
        } else if is_content {
            if s_content.is_none() {
                s_content = Some(val);
            }
        }
        i += 1;
    }
    let output_type = match take_req_output_type(s_type) {
        Ok(t) => t,
        Err(_) => {
            return Err(DecodeFault::OutputTypeField);
        },
    };
    let id = match take_opt_string(s_id) {
        Ok(t) => t,
        Err(_) => {
            return Err(DecodeFault::OutputIdField);
        },
    };
    let call_id = match take_opt_string(s_call_id) {
        Ok(t) => t,
        Err(_) => {
            return Err(DecodeFault::CallIdField);
        },
    };
    let name = match take_opt_string(s_name) {
        Ok(t) => t,
        Err(_) => {
            return Err(DecodeFault::NameField);
        },
    };
    let arguments = match take_opt_string(s_arguments) {
        Ok(t) => t,
        Err(_) => {
            return Err(DecodeFault::ArgumentsField);
        },
    };
    let status = match take_opt_status(s_status) {
        Ok(t) => t,
        Err(_) => {
            return Err(DecodeFault::OutputStatusField);
        },
    };
    let role = match take_opt_role(s_role) {
        Ok(t) => t,
        Err(_) => {
            return Err(DecodeFault::RoleField);
        },
    };
    let content = match take_opt_contents(s_content) {
        Ok(t) => t,
        Err(f) => {
            return Err(f);
        },
    };
    Ok(ResponseOutput { output_type, id, call_id, name, arguments, status, role, content })
}

/// How a sequence of output items decodes: each in order, the first
/// fault aborting the whole.
pub open spec fn spec_decode_outputs_from(items: Seq<JsonValue>, i: int) -> Result<
    Seq<OutputModel>,
    DecodeFault,
>
    decreases items.len() - i,
{
    if i < 0 || i >= items.len() {
        Ok(Seq::empty())
    } else {
        match spec_decode_output(items[i]) {
            Err(e) => Err(e),
            Ok(o) => match spec_decode_outputs_from(items, i + 1) {
                Err(e) => Err(e),
                Ok(rest) => Ok(seq![o] + rest),
            },
        }
    }
}

#[verifier::loop_isolation(false)]
fn decode_outputs(items: Vec<JsonValue>) -> (r: Result<Vec<ResponseOutput>, DecodeFault>)
    ensures
        spec_decode_outputs_from(items@, 0) matches Ok(ms) ==> r matches Ok(os) && output_views(
            os@,
        ) == ms,
        spec_decode_outputs_from(items@, 0) matches Err(e) ==> r matches Err(f) && f == e,
{
    let ghost orig = items@;
    let mut rest = items;
    let total = rest.len();
    proof {
        assert(orig.len() == total as int);
    }
    let mut out: Vec<ResponseOutput> = Vec::new();
    let mut i: usize = 0;
    while rest.len() > 0
        invariant
            orig.len() <= usize::MAX,
            0 <= i <= orig.len(),
            rest@ == orig.skip(i as int),
            out@.len() == i,
            spec_decode_outputs_from(orig, 0) == (match spec_decode_outputs_from(orig, i as int) {
                Ok(rest_ms) => Ok::<Seq<OutputModel>, DecodeFault>(output_views(out@) + rest_ms),
                Err(e) => Err(e),
            }),
        decreases rest@.len(),
    {
        proof {
            assert(orig.skip(i as int)[0] == orig[i as int]);
        }
        let item = rest.remove(0);
        proof {
            assert(rest@ =~= orig.skip(i as int + 1));
        }
        let ghost prev = out@;
        match decode_output(item) {
            Ok(o) => {
                out.push(o);
                proof {
                    assert(output_views(out@) =~= output_views(prev) + seq![o@]);
                    if spec_decode_outputs_from(orig, i + 1) is Ok {
                        let rest_ms = spec_decode_outputs_from(orig, i + 1)->Ok_0;
                        assert(output_views(prev) + (seq![o@] + rest_ms) =~= (output_views(prev)
                            + seq![o@]) + rest_ms);
                    }
                }
            },
            Err(f) => {
                return Err(f);
            },
        }
        i += 1;
    }
    proof {
        if spec_decode_outputs_from(orig, i as int) is Ok {
            let rest_ms = spec_decode_outputs_from(orig, i as int)->Ok_0;
            assert(output_views(out@) + rest_ms =~= output_views(out@));
        }
    }
    Ok(out)
}

/// An optional output list: absent or null is `None`; an array must
/// decode item by item; anything else is a fault.
pub open spec fn spec_opt_outputs(v: Option<JsonValue>) -> Result<
    Option<Seq<OutputModel>>,
    DecodeFault,
> {
    match v {
        None => Ok(None),
        Some(JsonValue::Null) => Ok(None),
        Some(JsonValue::Arr(items)) => match spec_decode_outputs_from(items@, 0) {
            Ok(os) => Ok(Some(os)),
            Err(e) => Err(e),
        },
        Some(_) => Err(DecodeFault::OutputField),
    }
}

fn take_opt_outputs(v: Option<JsonValue>) -> (r: Result<Option<Vec<ResponseOutput>>, DecodeFault>)
    ensures
        spec_opt_outputs(v) matches Ok(ms) ==> r matches Ok(os) && (match os {
            Some(ov) => ms matches Some(mv) && output_views(ov@) == mv,
            None => ms is None,
        }),
        spec_opt_outputs(v) matches Err(e) ==> r matches Err(f) && f == e,
{
    match v {
        None => Ok(None),
        Some(JsonValue::Null) => Ok(None),
        Some(JsonValue::Arr(items)) => match decode_outputs(items) {
            Ok(os) => Ok(Some(os)),
            Err(e) => Err(e),
        },
        Some(_) => Err(DecodeFault::OutputField),
    }
}

/// A required string field.
pub open spec fn spec_req_string(v: Option<JsonValue>) -> Result<String, ()> {
    match v {
        Some(JsonValue::Str(s)) => Ok(s),
        _ => Err(()),
    }
}

fn take_req_string(v: Option<JsonValue>) -> (r: Result<String, ()>)
    ensures
        r == spec_req_string(v),
{
    match v {
        Some(JsonValue::Str(s)) => Ok(s),
        _ => Err(()),
    }
}

// ---------------------------------------------------------------------
// Decoding the smaller nested objects
// ---------------------------------------------------------------------
/// An optional input token breakdown: an object with an optional
/// `cached_tokens` count.
pub open spec fn spec_opt_input_details(v: Option<JsonValue>) -> Result<
    Option<InputTokenDetails>,
    DecodeFault,
> {
    match v {
        None => Ok(None),
        Some(JsonValue::Null) => Ok(None),
        Some(JsonValue::Obj(ms)) => {
            let m = first_vals(ms@);
            if spec_opt_u32(field_of(m, "cached_tokens"@)) is Err {
                Err(DecodeFault::CachedTokensField)
            } else {
                Ok(
                    Some(
                        InputTokenDetails {
                            cached_tokens: spec_opt_u32(field_of(m, "cached_tokens"@))->Ok_0,
                        },
                    ),
                )
            }
        },
        Some(_) => Err(DecodeFault::InputTokensDetailsNotAnObject),
    }
}

#[verifier::loop_isolation(false)]
fn take_opt_input_details(v: Option<JsonValue>) -> (r: Result<
    Option<InputTokenDetails>,
    DecodeFault,
>)
    ensures
        r == spec_opt_input_details(v),
{
    let ms = match v {
        None => {
            return Ok(None);
        },
        Some(JsonValue::Null) => {
            return Ok(None);
        },
        Some(JsonValue::Obj(ms)) => ms,
        Some(_) => {
            return Err(DecodeFault::InputTokensDetailsNotAnObject);
        },
    };
    let ghost orig = ms@;
    let mut rest = ms;
    let total = rest.len();
    proof {
        assert(orig.len() == total as int);
    }
    let mut i: usize = 0;
    let mut s_cached: Option<JsonValue> = None;
    while rest.len() > 0
        invariant
            orig.len() <= usize::MAX,
            0 <= i <= orig.len(),
            rest@ == orig.skip(i as int),
            s_cached == field_of(first_vals_upto(orig, i as int), "cached_tokens"@),
        decreases rest@.len(),
    {
        proof {
            assert(orig.skip(i as int)[0] == orig[i as int]);
        }
        let (key, val) = rest.remove(0);
        proof {
            assert(rest@ =~= orig.skip(i as int + 1));
        }
        if str_eq(key.as_str(), "cached_tokens") {
            if s_cached.is_none() {
                s_cached = Some(val);
            }
        }
        i += 1;
    }
    match take_opt_u32(s_cached) {
        Ok(c) => Ok(Some(InputTokenDetails { cached_tokens: c })),
        Err(_) => Err(DecodeFault::CachedTokensField),
    }
}

/// An optional output token breakdown: an object with an optional
/// `reasoning_tokens` count.
pub open spec fn spec_opt_token_details(v: Option<JsonValue>) -> Result<
    Option<ResponseTokenDetails>,
    DecodeFault,
> {
    match v {
        None => Ok(None),
        Some(JsonValue::Null) => Ok(None),
        Some(JsonValue::Obj(ms)) => {
            let m = first_vals(ms@);
            if spec_opt_u32(field_of(m, "reasoning_tokens"@)) is Err {
                Err(DecodeFault::ReasoningTokensField)
            } else {
                Ok(
                    Some(
                        ResponseTokenDetails {
                            reasoning_tokens: spec_opt_u32(field_of(m, "reasoning_tokens"@))->Ok_0,
                        },
                    ),
                )
            }
        },
        Some(_) => Err(DecodeFault::OutputTokensDetailsNotAnObject),
    }
}

#[verifier::loop_isolation(false)]
fn take_opt_token_details(v: Option<JsonValue>) -> (r: Result<
    Option<ResponseTokenDetails>,
    DecodeFault,
>)
    ensures
        r == spec_opt_token_details(v),
{
    let ms = match v {
        None => {
            return Ok(None);
        },
        Some(JsonValue::Null) => {
            return Ok(None);
        },
        Some(JsonValue::Obj(ms)) => ms,
        Some(_) => {
            return Err(DecodeFault::OutputTokensDetailsNotAnObject);
        },
    };
    let ghost orig = ms@;
    let mut rest = ms;
    let total = rest.len();
    proof {
        assert(orig.len() == total as int);
    }
    let mut i: usize = 0;
    let mut s_reasoning: Option<JsonValue> = None;
    while rest.len() > 0
        invariant
            orig.len() <= usize::MAX,
            0 <= i <= orig.len(),
            rest@ == orig.skip(i as int),
            s_reasoning == field_of(first_vals_upto(orig, i as int), "reasoning_tokens"@),
        decreases rest@.len(),
    {
        proof {
            assert(orig.skip(i as int)[0] == orig[i as int]);
        }
        let (key, val) = rest.remove(0);
        proof {
            assert(rest@ =~= orig.skip(i as int + 1));
        }
        if str_eq(key.as_str(), "reasoning_tokens") {
            if s_reasoning.is_none() {
                s_reasoning = Some(val);
            }
        }
        i += 1;
    }
    match take_opt_u32(s_reasoning) {
        Ok(c) => Ok(Some(ResponseTokenDetails { reasoning_tokens: c })),
        Err(_) => Err(DecodeFault::ReasoningTokensField),
    }
}

/// An optional usage record: an object with required token counts and
/// optional breakdowns.
pub open spec fn spec_opt_usage(v: Option<JsonValue>) -> Result<Option<ResponseUsage>, DecodeFault> {
    match v {
        None => Ok(None),
        Some(JsonValue::Null) => Ok(None),
        Some(JsonValue::Obj(ms)) => {
            let m = first_vals(ms@);
            if spec_req_u32(field_of(m, "input_tokens"@)) is Err {
                Err(DecodeFault::InputTokensField)
            } else if spec_opt_input_details(field_of(m, "input_tokens_details"@)) is Err {
                Err(spec_opt_input_details(field_of(m, "input_tokens_details"@))->Err_0)
            } else if spec_req_u32(field_of(m, "output_tokens"@)) is Err {
                Err(DecodeFault::OutputTokensField)
            } else if spec_opt_token_details(field_of(m, "output_tokens_details"@)) is Err {
                Err(spec_opt_token_details(field_of(m, "output_tokens_details"@))->Err_0)
            } else if spec_req_u32(field_of(m, "total_tokens"@)) is Err {
                Err(DecodeFault::TotalTokensField)
            } else {
                Ok(
                    Some(
                        ResponseUsage {
                            input_tokens: spec_req_u32(field_of(m, "input_tokens"@))->Ok_0,
                            input_tokens_details: spec_opt_input_details(
                                field_of(m, "input_tokens_details"@),
                            )->Ok_0,
                            output_tokens: spec_req_u32(field_of(m, "output_tokens"@))->Ok_0,
                            output_tokens_details: spec_opt_token_details(
                                field_of(m, "output_tokens_details"@),
                            )->Ok_0,
                            total_tokens: spec_req_u32(field_of(m, "total_tokens"@))->Ok_0,
                        },
                    ),
                )
            }
        },
        Some(_) => Err(DecodeFault::UsageNotAnObject),
    }
}

#[verifier::loop_isolation(false)]
fn take_opt_usage(v: Option<JsonValue>) -> (r: Result<Option<ResponseUsage>, DecodeFault>)
    ensures
        r == spec_opt_usage(v),
{
    let ms = match v {
        None => {
            return Ok(None);
        },
        Some(JsonValue::Null) => {
            return Ok(None);
        },
        Some(JsonValue::Obj(ms)) => ms,
        Some(_) => {
            return Err(DecodeFault::UsageNotAnObject);
        },
    };
    let ghost orig = ms@;
    let mut rest = ms;
    let total = rest.len();
    proof {
        assert(orig.len() == total as int);
        reveal_strlit("input_tokens");
        reveal_strlit("input_tokens_details");
        reveal_strlit("output_tokens");
        reveal_strlit("output_tokens_details");
        reveal_strlit("total_tokens");
        assert("input_tokens"@.len() == 12 && "input_tokens_details"@.len() == 20);
        assert("output_tokens"@.len() == 13 && "output_tokens_details"@.len() == 21);
        assert("total_tokens"@.len() == 12);
        assert("input_tokens"@[0] == 'i' && "total_tokens"@[0] == 't');
        assert("input_tokens"@ != "total_tokens"@);
    }
    let mut i: usize = 0;
    let mut s_input: Option<JsonValue> = None;
    let mut s_input_details: Option<JsonValue> = None;
    let mut s_output: Option<JsonValue> = None;
    let mut s_output_details: Option<JsonValue> = None;
    let mut s_total: Option<JsonValue> = None;
    while rest.len() > 0
        invariant
            orig.len() <= usize::MAX,
            0 <= i <= orig.len(),
            rest@ == orig.skip(i as int),
            s_input == field_of(first_vals_upto(orig, i as int), "input_tokens"@),
            s_input_details == field_of(first_vals_upto(orig, i as int), "input_tokens_details"@),
            s_output == field_of(first_vals_upto(orig, i as int), "output_tokens"@),
            s_output_details == field_of(
                first_vals_upto(orig, i as int),
                "output_tokens_details"@,
            ),
            s_total == field_of(first_vals_upto(orig, i as int), "total_tokens"@),
        decreases rest@.len(),
    {
        proof {
            assert(orig.skip(i as int)[0] == orig[i as int]);
        }
        let (key, val) = rest.remove(0);
        proof {
            assert(rest@ =~= orig.skip(i as int + 1));
        }
        let is_input = str_eq(key.as_str(), "input_tokens");
        let is_input_details = str_eq(key.as_str(), "input_tokens_details");
        let is_output = str_eq(key.as_str(), "output_tokens");
        let is_output_details = str_eq(key.as_str(), "output_tokens_details");
        let is_total = str_eq(key.as_str(), "total_tokens");
        if is_input {
            if s_input.is_none() {
                s_input = Some(val);
            }
        } else if is_input_details {
            if s_input_details.is_none() {
                s_input_details = Some(val);
            }
        } else if is_output {
            if s_output.is_none() {
                s_output = Some(val);
            }
        } else if is_output_details {
            if s_output_details.is_none() {
                s_output_details = Some(val);
            }
        } else if is_total {
            if s_total.is_none() {
                s_total = Some(val);
            }
        }
        i += 1;
    }
    let input_tokens = match take_req_u32(s_input) {
        Ok(t) => t,
        Err(_) => {
            return Err(DecodeFault::InputTokensField);
        },
    };
    let input_tokens_details = match take_opt_input_details(s_input_details) {
        Ok(t) => t,
        Err(f) => {
            return Err(f);
        },
    };
    let output_tokens = match take_req_u32(s_output) {
        Ok(t) => t,
        Err(_) => {
            return Err(DecodeFault::OutputTokensField);
        },
    };
    let output_tokens_details = match take_opt_token_details(s_output_details) {
        Ok(t) => t,
        Err(f) => {
            return Err(f);
        },
    };
    let total_tokens = match take_req_u32(s_total) {
        Ok(t) => t,
        Err(_) => {
            return Err(DecodeFault::TotalTokensField);
        },
    };
    Ok(
        Some(
            ResponseUsage {
                input_tokens,
                input_tokens_details,
                output_tokens,
                output_tokens_details,
                total_tokens,
            },
        ),
    )
}

/// An optional reasoning record: an object with optional `effort` and
/// `summary`.
pub open spec fn spec_opt_reasoning(v: Option<JsonValue>) -> Result<
    Option<ResponseReasoning>,
    DecodeFault,
> {
    match v {
        None => Ok(None),
        Some(JsonValue::Null) => Ok(None),
        Some(JsonValue::Obj(ms)) => {
            let m = first_vals(ms@);
            if spec_opt_effort(field_of(m, "effort"@)) is Err {
                Err(DecodeFault::ReasoningEffortField)
            } else if spec_opt_string(field_of(m, "summary"@)) is Err {
                Err(DecodeFault::SummaryField)
            } else {
                Ok(
                    Some(
                        ResponseReasoning {
                            effort: spec_opt_effort(field_of(m, "effort"@))->Ok_0,
                            summary: spec_opt_string(field_of(m, "summary"@))->Ok_0,
                        },
                    ),
                )
            }
        },
        Some(_) => Err(DecodeFault::ReasoningNotAnObject),
    }
}

#[verifier::loop_isolation(false)]
fn take_opt_reasoning(v: Option<JsonValue>) -> (r: Result<Option<ResponseReasoning>, DecodeFault>)
    ensures
        r == spec_opt_reasoning(v),
{
    let ms = match v {
        None => {
            return Ok(None);
        },
        Some(JsonValue::Null) => {
            return Ok(None);
        },
        Some(JsonValue::Obj(ms)) => ms,
        Some(_) => {
            return Err(DecodeFault::ReasoningNotAnObject);
        },
    };
    let ghost orig = ms@;
    let mut rest = ms;
    let total = rest.len();
    proof {
        assert(orig.len() == total as int);
        reveal_strlit("effort");
        reveal_strlit("summary");
        assert("effort"@.len() == 6 && "summary"@.len() == 7);
    }
    let mut i: usize = 0;
    let mut s_effort: Option<JsonValue> = None;
    let mut s_summary: Option<JsonValue> = None;
    while rest.len() > 0
        invariant
            orig.len() <= usize::MAX,
            0 <= i <= orig.len(),
            rest@ == orig.skip(i as int),
            s_effort == field_of(first_vals_upto(orig, i as int), "effort"@),
            s_summary == field_of(first_vals_upto(orig, i as int), "summary"@),
        decreases rest@.len(),
    {
        proof {
            assert(orig.skip(i as int)[0] == orig[i as int]);
        }
        let (key, val) = rest.remove(0);
        proof {
            assert(rest@ =~= orig.skip(i as int + 1));
        }
        let is_effort = str_eq(key.as_str(), "effort");
        let is_summary = str_eq(key.as_str(), "summary");
        if is_effort {
            if s_effort.is_none() {
                s_effort = Some(val);
            }
        } else if is_summary {
            if s_summary.is_none() {
                s_summary = Some(val);
            }
        }
        i += 1;
    }
    let effort = match take_opt_effort(s_effort) {
        Ok(t) => t,
        Err(_) => {
            return Err(DecodeFault::ReasoningEffortField);
        },
    };
    let summary = match take_opt_string(s_summary) {
        Ok(t) => t,
        Err(_) => {
            return Err(DecodeFault::SummaryField);
        },
    };
    Ok(Some(ResponseReasoning { effort, summary }))
}

/// An optional format record: an object whose required `type` names
/// the format.
pub open spec fn spec_opt_format(v: Option<JsonValue>) -> Result<
    Option<ResponseTextFormat>,
    DecodeFault,
> {
    match v {
        None => Ok(None),
        Some(JsonValue::Null) => Ok(None),
        Some(JsonValue::Obj(ms)) => {
            let m = first_vals(ms@);
            if spec_req_format_type(field_of(m, "type"@)) is Err {
                Err(DecodeFault::FormatTypeField)
            } else {
                Ok(
                    Some(
                        ResponseTextFormat {
                            format_type: spec_req_format_type(field_of(m, "type"@))->Ok_0,
                        },
                    ),
                )
            }
        },
        Some(_) => Err(DecodeFault::FormatNotAnObject),
    }
}

#[verifier::loop_isolation(false)]
fn take_opt_format(v: Option<JsonValue>) -> (r: Result<Option<ResponseTextFormat>, DecodeFault>)
    ensures
        r == spec_opt_format(v),
{
    let ms = match v {
        None => {
            return Ok(None);
        },
        Some(JsonValue::Null) => {
            return Ok(None);
        },
        Some(JsonValue::Obj(ms)) => ms,
        Some(_) => {
            return Err(DecodeFault::FormatNotAnObject);
        },
    };
    let ghost orig = ms@;
    let mut rest = ms;
    let total = rest.len();
    proof {
        assert(orig.len() == total as int);
    }
    let mut i: usize = 0;
    let mut s_type: Option<JsonValue> = None;
    while rest.len() > 0
        invariant
            orig.len() <= usize::MAX,
            0 <= i <= orig.len(),
            rest@ == orig.skip(i as int),
            s_type == field_of(first_vals_upto(orig, i as int), "type"@),
        decreases rest@.len(),
    {
        proof {
            assert(orig.skip(i as int)[0] == orig[i as int]);
        }
        let (key, val) = rest.remove(0);
        proof {
            assert(rest@ =~= orig.skip(i as int + 1));
        }
        if str_eq(key.as_str(), "type") {
            if s_type.is_none() {
                s_type = Some(val);
            }
        }
        i += 1;
    }
    match take_req_format_type(s_type) {
        Ok(t) => Ok(Some(ResponseTextFormat { format_type: t })),
        Err(_) => Err(DecodeFault::FormatTypeField),
    }
}

/// An optional text record: an object with an optional `format`.
pub open spec fn spec_opt_rtext(v: Option<JsonValue>) -> Result<Option<ResponseText>, DecodeFault> {
    match v {
        None => Ok(None),
        Some(JsonValue::Null) => Ok(None),
        Some(JsonValue::Obj(ms)) => {
            let m = first_vals(ms@);
            if spec_opt_format(field_of(m, "format"@)) is Err {
                Err(spec_opt_format(field_of(m, "format"@))->Err_0)
            } else {
                Ok(Some(ResponseText { format: spec_opt_format(field_of(m, "format"@))->Ok_0 }))
            }
        },
        Some(_) => Err(DecodeFault::TextNotAnObject),
    }
}

#[verifier::loop_isolation(false)]
fn take_opt_rtext(v: Option<JsonValue>) -> (r: Result<Option<ResponseText>, DecodeFault>)
    ensures
        r == spec_opt_rtext(v),
{
    let ms = match v {
        None => {
            return Ok(None);
        },
        Some(JsonValue::Null) => {
            return Ok(None);
        },
        Some(JsonValue::Obj(ms)) => ms,
        Some(_) => {
            return Err(DecodeFault::TextNotAnObject);
        },
    };
    let ghost orig = ms@;
    let mut rest = ms;
    let total = rest.len();
    proof {
        assert(orig.len() == total as int);
    }
    let mut i: usize = 0;
    let mut s_format: Option<JsonValue> = None;
    while rest.len() > 0
        invariant
            orig.len() <= usize::MAX,
            0 <= i <= orig.len(),
            rest@ == orig.skip(i as int),
            s_format == field_of(first_vals_upto(orig, i as int), "format"@),
        decreases rest@.len(),
    {
        proof {
            assert(orig.skip(i as int)[0] == orig[i as int]);
        }
        let (key, val) = rest.remove(0);
        proof {
            assert(rest@ =~= orig.skip(i as int + 1));
        }
        if str_eq(key.as_str(), "format") {
            if s_format.is_none() {
                s_format = Some(val);
            }
        }
        i += 1;
    }
    match take_opt_format(s_format) {
        Ok(t) => Ok(Some(ResponseText { format: t })),
        Err(f) => Err(f),
    }
}

// ---------------------------------------------------------------------
// Decoding the error envelope
// ---------------------------------------------------------------------
/// How the vendor error envelope decodes: an object whose required
/// `error` member is an object with required `message` and `type` and
/// optional `param` and `code`.
pub open spec fn spec_decode_openai_error(j: JsonValue) -> Result<OpenAiError, DecodeFault> {
    if !(j is Obj) {
        Err(DecodeFault::ErrorEnvelopeNotAnObject)
    } else {
        match field_of(first_vals(j->Obj_0@), "error"@) {
            Some(JsonValue::Obj(dms)) => {
                let m = first_vals(dms@);
                if spec_req_string(field_of(m, "message"@)) is Err {
                    Err(DecodeFault::MessageField)
                } else if spec_req_string(field_of(m, "type"@)) is Err {
                    Err(DecodeFault::ErrorTypeField)
                } else if spec_opt_string(field_of(m, "param"@)) is Err {
                    Err(DecodeFault::ParamField)
                } else if spec_opt_string(field_of(m, "code"@)) is Err {
                    Err(DecodeFault::CodeField)
                } else {
                    Ok(
                        OpenAiError {
                            error: OpenAiErrorDetails {
                                message: spec_req_string(field_of(m, "message"@))->Ok_0,
                                error_type: spec_req_string(field_of(m, "type"@))->Ok_0,
                                param: spec_opt_string(field_of(m, "param"@))->Ok_0,
                                code: spec_opt_string(field_of(m, "code"@))->Ok_0,
                            },
                        },
                    )
                }
            },
            _ => Err(DecodeFault::ErrorField),
        }
    }
}

#[verifier::loop_isolation(false)]
fn decode_error_details(dms: Vec<(String, JsonValue)>) -> (r: Result<
    OpenAiErrorDetails,
    DecodeFault,
>)
    ensures
        ({
            let m = first_vals(dms@);
            if spec_req_string(field_of(m, "message"@)) is Err {
                r == Err::<OpenAiErrorDetails, DecodeFault>(DecodeFault::MessageField)
            } else if spec_req_string(field_of(m, "type"@)) is Err {
                r == Err::<OpenAiErrorDetails, DecodeFault>(DecodeFault::ErrorTypeField)
            } else if spec_opt_string(field_of(m, "param"@)) is Err {
                r == Err::<OpenAiErrorDetails, DecodeFault>(DecodeFault::ParamField)
            } else if spec_opt_string(field_of(m, "code"@)) is Err {
                r == Err::<OpenAiErrorDetails, DecodeFault>(DecodeFault::CodeField)
            } else {
                r == Ok::<OpenAiErrorDetails, DecodeFault>(
                    OpenAiErrorDetails {
                        message: spec_req_string(field_of(m, "message"@))->Ok_0,
                        error_type: spec_req_string(field_of(m, "type"@))->Ok_0,
                        param: spec_opt_string(field_of(m, "param"@))->Ok_0,
                        code: spec_opt_string(field_of(m, "code"@))->Ok_0,
                    },
                )
            }
        }),
{
    let ghost orig = dms@;
    let mut rest = dms;
    let total = rest.len();
    proof {
        assert(orig.len() == total as int);
        reveal_strlit("message");
        reveal_strlit("type");
        reveal_strlit("param");
        reveal_strlit("code");
        assert("message"@.len() == 7 && "type"@.len() == 4 && "param"@.len() == 5 && "code"@.len()
            == 4);
        assert("type"@[0] == 't' && "code"@[0] == 'c');
        assert("type"@ != "code"@);
    }
    let mut i: usize = 0;
    let mut s_message: Option<JsonValue> = None;
    let mut s_type: Option<JsonValue> = None;
    let mut s_param: Option<JsonValue> = None;
    let mut s_code: Option<JsonValue> = None;
    while rest.len() > 0
        invariant
            orig.len() <= usize::MAX,
            0 <= i <= orig.len(),
            rest@ == orig.skip(i as int),
            s_message == field_of(first_vals_upto(orig, i as int), "message"@),
            s_type == field_of(first_vals_upto(orig, i as int), "type"@),
            s_param == field_of(first_vals_upto(orig, i as int), "param"@),
            s_code == field_of(first_vals_upto(orig, i as int), "code"@),
        decreases rest@.len(),
    {
        proof {
            assert(orig.skip(i as int)[0] == orig[i as int]);
        }
        let (key, val) = rest.remove(0);
        proof {
            assert(rest@ =~= orig.skip(i as int + 1));
        }
        let is_message = str_eq(key.as_str(), "message");
        let is_type = str_eq(key.as_str(), "type");
        let is_param = str_eq(key.as_str(), "param");
        let is_code = str_eq(key.as_str(), "code");
        if is_message {
            if s_message.is_none() {
                s_message = Some(val);
            }
        } else if is_type {
            if s_type.is_none() {
                s_type = Some(val);
            }
        } else if is_param {
            if s_param.is_none() {
                s_param = Some(val);
            }
        } else if is_code {
            if s_code.is_none() {
                s_code = Some(val);
            }
        }
        i += 1;
    }
    let message = match take_req_string(s_message) {
        Ok(t) => t,
        Err(_) => {
            return Err(DecodeFault::MessageField);
        },
    };
    let error_type = match take_req_string(s_type) {
        Ok(t) => t,
        Err(_) => {
            return Err(DecodeFault::ErrorTypeField);
        },
    };
    let param = match take_opt_string(s_param) {
        Ok(t) => t,
        Err(_) => {
            return Err(DecodeFault::ParamField);
        },
    };
    let code = match take_opt_string(s_code) {
        Ok(t) => t,
        Err(_) => {
            return Err(DecodeFault::CodeField);
        },
    };
    Ok(OpenAiErrorDetails { message, error_type, param, code })
}

impl OpenAiError {
    /// Decodes the vendor error envelope from a document.
    #[verifier::loop_isolation(false)]
    pub fn from_json(j: JsonValue) -> (r: Result<OpenAiError, DecodeFault>)
        ensures
            r == spec_decode_openai_error(j),
    {
        let ghost gj = j;
        let ms = match j {
            JsonValue::Obj(ms) => ms,
            _ => {
                return Err(DecodeFault::ErrorEnvelopeNotAnObject);
            },
        };
        let ghost orig = ms@;
        let mut rest = ms;
        let total = rest.len();
        proof {
            assert(orig.len() == total as int);
        }
        let mut i: usize = 0;
        let mut s_error: Option<JsonValue> = None;
        while rest.len() > 0
            invariant
                orig.len() <= usize::MAX,
                0 <= i <= orig.len(),
                rest@ == orig.skip(i as int),
                s_error == field_of(first_vals_upto(orig, i as int), "error"@),
            decreases rest@.len(),
        {
            proof {
                assert(orig.skip(i as int)[0] == orig[i as int]);
            }
            let (key, val) = rest.remove(0);
            proof {
                assert(rest@ =~= orig.skip(i as int + 1));
            }
            if str_eq(key.as_str(), "error") {
                if s_error.is_none() {
                    s_error = Some(val);
                }
            }
            i += 1;
        }
        let dms = match s_error {
            Some(JsonValue::Obj(dms)) => dms,
            _ => {
                return Err(DecodeFault::ErrorField);
            },
        };
        match decode_error_details(dms) {
            Ok(details) => Ok(OpenAiError { error: details }),
            Err(f) => Err(f),
        }
    }

    /// Parses JSON text and decodes the vendor error envelope from it;
    /// text the parser refuses is reported as malformed.
    pub fn from_json_str(body: &str) -> (r: Result<OpenAiError, DecodeFault>)
        ensures
            ({
                match spec_parse_json(body@) {
                    Err(_) => r matches Err(f) && f == DecodeFault::MalformedJson,
                    Ok(j) => r == spec_decode_openai_error(j),
                }
            }),
    {
        match parse_json(body) {
            Ok(j) => Self::from_json(j),
            Err(_) => Err(DecodeFault::MalformedJson),
        }
    }
}

// ---------------------------------------------------------------------
// Decoding the whole response
// ---------------------------------------------------------------------
/// How a reply document decodes into a response: it must be an object;
/// each known field is checked in declaration order and the first
/// wrongly-shaped one decides the fault; unknown members are ignored;
/// `error` and `incomplete_details` are kept raw and never fault.
pub open spec fn spec_decode_response(j: JsonValue) -> Result<ResponseModel, DecodeFault> {
    if !(j is Obj) {
        Err(DecodeFault::NotAnObject)
    } else {
        let m = first_vals(j->Obj_0@);
        if spec_opt_string(field_of(m, "id"@)) is Err {
            Err(DecodeFault::IdField)
        } else if spec_opt_string(field_of(m, "object"@)) is Err {
            Err(DecodeFault::ObjectField)
        } else if spec_opt_u64(field_of(m, "created_at"@)) is Err {
            Err(DecodeFault::CreatedAtField)
        } else if spec_opt_status(field_of(m, "status"@)) is Err {
            Err(DecodeFault::StatusField)
        } else if spec_opt_string(field_of(m, "instructions"@)) is Err {
            Err(DecodeFault::InstructionsField)
        } else if spec_opt_u32(field_of(m, "max_output_tokens"@)) is Err {
            Err(DecodeFault::MaxOutputTokensField)
        } else if spec_opt_string(field_of(m, "model"@)) is Err {
            Err(DecodeFault::ModelField)
        } else if spec_opt_outputs(field_of(m, "output"@)) is Err {
            Err(spec_opt_outputs(field_of(m, "output"@))->Err_0)
        } else if spec_opt_bool(field_of(m, "parallel_tool_calls"@)) is Err {
            Err(DecodeFault::ParallelToolCallsField)
        } else if spec_opt_string(field_of(m, "previous_response_id"@)) is Err {
            Err(DecodeFault::PreviousResponseIdField)
        } else if spec_opt_reasoning(field_of(m, "reasoning"@)) is Err {
            Err(spec_opt_reasoning(field_of(m, "reasoning"@))->Err_0)
        } else if spec_opt_bool(field_of(m, "store"@)) is Err {
            Err(DecodeFault::StoreField)
        } else if spec_opt_rtext(field_of(m, "text"@)) is Err {
            Err(spec_opt_rtext(field_of(m, "text"@))->Err_0)
        } else if spec_opt_string(field_of(m, "tool_choice"@)) is Err {
            Err(DecodeFault::ToolChoiceField)
        } else if spec_opt_arr_raw(field_of(m, "tools"@)) is Err {
            Err(DecodeFault::ToolsField)
        } else if spec_opt_num_text(field_of(m, "top_p"@)) is Err {
            Err(DecodeFault::TopPField)
        } else if spec_opt_string(field_of(m, "truncation"@)) is Err {
            Err(DecodeFault::TruncationField)
        } else if spec_opt_usage(field_of(m, "usage"@)) is Err {
            Err(spec_opt_usage(field_of(m, "usage"@))->Err_0)
        } else if spec_opt_string(field_of(m, "user"@)) is Err {
            Err(DecodeFault::UserField)
        } else if spec_opt_obj_raw(field_of(m, "metadata"@)) is Err {
            Err(DecodeFault::MetadataField)
        } else {
            Ok(
                ResponseModel {
                    id: spec_opt_string(field_of(m, "id"@))->Ok_0,
                    object: spec_opt_string(field_of(m, "object"@))->Ok_0,
                    created_at: spec_opt_u64(field_of(m, "created_at"@))->Ok_0,
                    status: spec_opt_status(field_of(m, "status"@))->Ok_0,
                    error: spec_opt_raw(field_of(m, "error"@)),
                    incomplete_details: spec_opt_raw(field_of(m, "incomplete_details"@)),
                    instructions: spec_opt_string(field_of(m, "instructions"@))->Ok_0,
                    max_output_tokens: spec_opt_u32(field_of(m, "max_output_tokens"@))->Ok_0,
                    model: spec_opt_string(field_of(m, "model"@))->Ok_0,
                    output: spec_opt_outputs(field_of(m, "output"@))->Ok_0,
                    parallel_tool_calls: spec_opt_bool(field_of(m, "parallel_tool_calls"@))->Ok_0,
                    previous_response_id: spec_opt_string(
                        field_of(m, "previous_response_id"@),
                    )->Ok_0,
                    reasoning: spec_opt_reasoning(field_of(m, "reasoning"@))->Ok_0,
                    store: spec_opt_bool(field_of(m, "store"@))->Ok_0,
                    text: spec_opt_rtext(field_of(m, "text"@))->Ok_0,
                    tool_choice: spec_opt_string(field_of(m, "tool_choice"@))->Ok_0,
                    tools: match spec_opt_arr_raw(field_of(m, "tools"@))->Ok_0 {
                        Some(ts) => Some(ts@),
                        None => None,
                    },
                    top_p: spec_opt_num_text(field_of(m, "top_p"@))->Ok_0,
                    truncation: spec_opt_string(field_of(m, "truncation"@))->Ok_0,
                    usage: spec_opt_usage(field_of(m, "usage"@))->Ok_0,
                    user: spec_opt_string(field_of(m, "user"@))->Ok_0,
                    metadata: match spec_opt_obj_raw(field_of(m, "metadata"@))->Ok_0 {
                        Some(ms) => Some(ms@),
                        None => None,
                    },
                },
            )
        }
    }
}

impl Gpt5Response {
    /// Decodes a response from a document, strictly: the first field
    /// present with the wrong shape decides the fault.
    #[verifier::loop_isolation(false)]
    #[verifier::rlimit(80)]
    pub fn from_json(j: JsonValue) -> (r: Result<Gpt5Response, DecodeFault>)
        ensures
            spec_decode_response(j) matches Ok(m) ==> r matches Ok(resp) && resp@ == m,
            spec_decode_response(j) matches Err(e) ==> r matches Err(f) && f == e,
    {
        let ghost gj = j;
        let ms = match j {
            JsonValue::Obj(ms) => ms,
            _ => {
                return Err(DecodeFault::NotAnObject);
            },
        };
        let ghost orig = ms@;
        let mut rest = ms;
        let total = rest.len();
        proof {
            assert(orig.len() == total as int);
            reveal_strlit("id");
            reveal_strlit("object");
            reveal_strlit("created_at");
            reveal_strlit("status");
            reveal_strlit("error");
            reveal_strlit("incomplete_details");
            reveal_strlit("instructions");
            reveal_strlit("max_output_tokens");
            reveal_strlit("model");
            reveal_strlit("output");
            reveal_strlit("parallel_tool_calls");
            reveal_strlit("previous_response_id");
            reveal_strlit("reasoning");
            reveal_strlit("store");
            reveal_strlit("text");
            reveal_strlit("tool_choice");
            reveal_strlit("tools");
            reveal_strlit("top_p");
            reveal_strlit("truncation");
            reveal_strlit("usage");
            reveal_strlit("user");
            reveal_strlit("metadata");
            assert("id"@.len() == 2 && "object"@.len() == 6 && "created_at"@.len() == 10);
            assert("status"@.len() == 6 && "error"@.len() == 5 && "incomplete_details"@.len()
                == 18);
            assert("instructions"@.len() == 12 && "max_output_tokens"@.len() == 17);
            assert("model"@.len() == 5 && "output"@.len() == 6 && "parallel_tool_calls"@.len()
                == 19);
            assert("previous_response_id"@.len() == 20 && "reasoning"@.len() == 9);
            assert("store"@.len() == 5 && "text"@.len() == 4 && "tool_choice"@.len() == 11);
            assert("tools"@.len() == 5 && "top_p"@.len() == 5 && "truncation"@.len() == 10);
            assert("usage"@.len() == 5 && "user"@.len() == 4 && "metadata"@.len() == 8);
            assert("object"@[0] == 'o' && "status"@[0] == 's' && "output"@[1] == 'u');
            assert("object"@[1] == 'b');
            assert("object"@ != "status"@ && "object"@ != "output"@ && "status"@ != "output"@);
            assert("error"@[0] == 'e' && "model"@[0] == 'm' && "store"@[0] == 's');
            assert("tools"@[0] == 't' && "top_p"@[0] == 't' && "usage"@[0] == 'u');
            assert("tools"@[2] == 'o' && "top_p"@[2] == 'p');
            assert("error"@ != "model"@ && "error"@ != "store"@ && "error"@ != "tools"@);
            assert("error"@ != "top_p"@ && "error"@ != "usage"@ && "model"@ != "store"@);
            assert("model"@ != "tools"@ && "model"@ != "top_p"@ && "model"@ != "usage"@);
            assert("store"@ != "tools"@ && "store"@ != "top_p"@ && "store"@ != "usage"@);
            assert("tools"@ != "top_p"@ && "tools"@ != "usage"@ && "top_p"@ != "usage"@);
            assert("created_at"@[0] == 'c' && "truncation"@[0] == 't');
            assert("created_at"@ != "truncation"@);
            assert("text"@[0] == 't' && "user"@[0] == 'u');
            assert("text"@ != "user"@);
        }
        let mut i: usize = 0;
        let mut s_id: Option<JsonValue> = None;
        let mut s_object: Option<JsonValue> = None;
        let mut s_created_at: Option<JsonValue> = None;
        let mut s_status: Option<JsonValue> = None;
        let mut s_error: Option<JsonValue> = None;
        let mut s_incomplete: Option<JsonValue> = None;
        let mut s_instructions: Option<JsonValue> = None;
        let mut s_max_tokens: Option<JsonValue> = None;
        let mut s_model: Option<JsonValue> = None;
        let mut s_output: Option<JsonValue> = None;
        let mut s_parallel: Option<JsonValue> = None;
        let mut s_previous: Option<JsonValue> = None;
        let mut s_reasoning: Option<JsonValue> = None;
        let mut s_store: Option<JsonValue> = None;
        let mut s_text: Option<JsonValue> = None;
        let mut s_tool_choice: Option<JsonValue> = None;
        let mut s_tools: Option<JsonValue> = None;
        let mut s_top_p: Option<JsonValue> = None;
        let mut s_truncation: Option<JsonValue> = None;
        let mut s_usage: Option<JsonValue> = None;
        let mut s_user: Option<JsonValue> = None;
        let mut s_metadata: Option<JsonValue> = None;
        while rest.len() > 0
            invariant
                orig.len() <= usize::MAX,
                0 <= i <= orig.len(),
                rest@ == orig.skip(i as int),
                s_id == field_of(first_vals_upto(orig, i as int), "id"@),
                s_object == field_of(first_vals_upto(orig, i as int), "object"@),
                s_created_at == field_of(first_vals_upto(orig, i as int), "created_at"@),
                s_status == field_of(first_vals_upto(orig, i as int), "status"@),
                s_error == field_of(first_vals_upto(orig, i as int), "error"@),
                s_incomplete == field_of(first_vals_upto(orig, i as int), "incomplete_details"@),
                s_instructions == field_of(first_vals_upto(orig, i as int), "instructions"@),
                s_max_tokens == field_of(first_vals_upto(orig, i as int), "max_output_tokens"@),
                s_model == field_of(first_vals_upto(orig, i as int), "model"@),
                s_output == field_of(first_vals_upto(orig, i as int), "output"@),
                s_parallel == field_of(first_vals_upto(orig, i as int), "parallel_tool_calls"@),
                s_previous == field_of(first_vals_upto(orig, i as int), "previous_response_id"@),
                s_reasoning == field_of(first_vals_upto(orig, i as int), "reasoning"@),
                s_store == field_of(first_vals_upto(orig, i as int), "store"@),
                s_text == field_of(first_vals_upto(orig, i as int), "text"@),
                s_tool_choice == field_of(first_vals_upto(orig, i as int), "tool_choice"@),
                s_tools == field_of(first_vals_upto(orig, i as int), "tools"@),
                s_top_p == field_of(first_vals_upto(orig, i as int), "top_p"@),
                s_truncation == field_of(first_vals_upto(orig, i as int), "truncation"@),
                s_usage == field_of(first_vals_upto(orig, i as int), "usage"@),
                s_user == field_of(first_vals_upto(orig, i as int), "user"@),
                s_metadata == field_of(first_vals_upto(orig, i as int), "metadata"@),
            decreases rest@.len(),
        {
            proof {
                assert(orig.skip(i as int)[0] == orig[i as int]);
            }
            let (key, val) = rest.remove(0);
            proof {
                assert(rest@ =~= orig.skip(i as int + 1));
            }
            let is_id = str_eq(key.as_str(), "id");
            let is_object = str_eq(key.as_str(), "object");
            let is_created_at = str_eq(key.as_str(), "created_at");
            let is_status = str_eq(key.as_str(), "status");
            let is_error = str_eq(key.as_str(), "error");
            let is_incomplete = str_eq(key.as_str(), "incomplete_details");
            let is_instructions = str_eq(key.as_str(), "instructions");
            let is_max_tokens = str_eq(key.as_str(), "max_output_tokens");
            let is_model = str_eq(key.as_str(), "model");
            let is_output = str_eq(key.as_str(), "output");
            let is_parallel = str_eq(key.as_str(), "parallel_tool_calls");
            let is_previous = str_eq(key.as_str(), "previous_response_id");
            let is_reasoning = str_eq(key.as_str(), "reasoning");
            let is_store = str_eq(key.as_str(), "store");
            let is_text = str_eq(key.as_str(), "text");
            let is_tool_choice = str_eq(key.as_str(), "tool_choice");
            let is_tools = str_eq(key.as_str(), "tools");
            let is_top_p = str_eq(key.as_str(), "top_p");
            let is_truncation = str_eq(key.as_str(), "truncation");
            let is_usage = str_eq(key.as_str(), "usage");
            let is_user = str_eq(key.as_str(), "user");
            let is_metadata = str_eq(key.as_str(), "metadata");
            if is_id {
                if s_id.is_none() {
                    s_id = Some(val);
                }
            } else if is_object {
                if s_object.is_none() {
                    s_object = Some(val);
                }
            } else if is_created_at {
                if s_created_at.is_none() {
                    s_created_at = Some(val);
                }
            } else if is_status {
                if s_status.is_none() {
                    s_status = Some(val);
                }
            } else if is_error {
                if s_error.is_none() {
                    s_error = Some(val);
                }
            } else if is_incomplete {
                if s_incomplete.is_none() {
                    s_incomplete = Some(val);
                }
            } else if is_instructions {
                if s_instructions.is_none() {
                    s_instructions = Some(val);
                }
            } else if is_max_tokens {
                if s_max_tokens.is_none() {
                    s_max_tokens = Some(val);
                }
            } else if is_model {
                if s_model.is_none() {
                    s_model = Some(val);
                }
            } else if is_output {
                if s_output.is_none() {
                    s_output = Some(val);
                }
            } else if is_parallel {
                if s_parallel.is_none() {
                    s_parallel = Some(val);
                }
            } else if is_previous {
                if s_previous.is_none() {
                    s_previous = Some(val);
                }
            } else if is_reasoning {
                if s_reasoning.is_none() {
                    s_reasoning = Some(val);
                }
            } else if is_store {
                if s_store.is_none() {
                    s_store = Some(val);
                }
            } else if is_text {
                if s_text.is_none() {
                    s_text = Some(val);
                }
            } else if is_tool_choice {
                if s_tool_choice.is_none() {
                    s_tool_choice = Some(val);
                }
            } else if is_tools {
                if s_tools.is_none() {
                    s_tools = Some(val);
                }
            } else if is_top_p {
                if s_top_p.is_none() {
                    s_top_p = Some(val);
                }
            } else if is_truncation {
                if s_truncation.is_none() {
                    s_truncation = Some(val);
                }
            } else if is_usage {
                if s_usage.is_none() {
                    s_usage = Some(val);
                }
            } else if is_user {
                if s_user.is_none() {
                    s_user = Some(val);
                }
            } else if is_metadata {
                if s_metadata.is_none() {
                    s_metadata = Some(val);
                }
            }
            i += 1;
        }
        let id = match take_opt_string(s_id) {
            Ok(t) => t,
            Err(_) => {
                return Err(DecodeFault::IdField);
            },
        };
        let object = match take_opt_string(s_object) {
            Ok(t) => t,
            Err(_) => {
                return Err(DecodeFault::ObjectField);
            },
        };
        let created_at = match take_opt_u64(s_created_at) {
            Ok(t) => t,
            Err(_) => {
                return Err(DecodeFault::CreatedAtField);
            },
        };
        let status = match take_opt_status(s_status) {
            Ok(t) => t,
            Err(_) => {
                return Err(DecodeFault::StatusField);
            },
        };
        let instructions = match take_opt_string(s_instructions) {
            Ok(t) => t,
            Err(_) => {
                return Err(DecodeFault::InstructionsField);
            },
        };
        let max_output_tokens = match take_opt_u32(s_max_tokens) {
            Ok(t) => t,
            Err(_) => {
                return Err(DecodeFault::MaxOutputTokensField);
            },
        };
        let model = match take_opt_string(s_model) {
            Ok(t) => t,
            Err(_) => {
                return Err(DecodeFault::ModelField);
            },
        };
        let output = match take_opt_outputs(s_output) {
            Ok(t) => t,
            Err(f) => {
                return Err(f);
            },
        };
        let parallel_tool_calls = match take_opt_bool(s_parallel) {
            Ok(t) => t,
            Err(_) => {
                return Err(DecodeFault::ParallelToolCallsField);
            },
        };
        let previous_response_id = match take_opt_string(s_previous) {
            Ok(t) => t,
            Err(_) => {
                return Err(DecodeFault::PreviousResponseIdField);
            },
        };
        let reasoning = match take_opt_reasoning(s_reasoning) {
            Ok(t) => t,
            Err(f) => {
                return Err(f);
            },
        };
        let store = match take_opt_bool(s_store) {
            Ok(t) => t,
            Err(_) => {
                return Err(DecodeFault::StoreField);
            },
        };
        let text = match take_opt_rtext(s_text) {
            Ok(t) => t,
            Err(f) => {
                return Err(f);
            },
        };
        let tool_choice = match take_opt_string(s_tool_choice) {
            Ok(t) => t,
            Err(_) => {
                return Err(DecodeFault::ToolChoiceField);
            },
        };
        let tools = match take_opt_arr_raw(s_tools) {
            Ok(t) => t,
            Err(_) => {
                return Err(DecodeFault::ToolsField);
            },
        };
        let top_p = match take_opt_num_text(s_top_p) {
            Ok(t) => t,
            Err(_) => {
                return Err(DecodeFault::TopPField);
            },
        };
        let truncation = match take_opt_string(s_truncation) {
            Ok(t) => t,
            Err(_) => {
                return Err(DecodeFault::TruncationField);
            },
        };
        let usage = match take_opt_usage(s_usage) {
            Ok(t) => t,
            Err(f) => {
                return Err(f);
            },
        };
        let user = match take_opt_string(s_user) {
            Ok(t) => t,
            Err(_) => {
                return Err(DecodeFault::UserField);
            },
        };
        let metadata = match take_opt_obj_raw(s_metadata) {
            Ok(t) => t,
            Err(_) => {
                return Err(DecodeFault::MetadataField);
            },
        };
        let error = take_opt_raw(s_error);
        let incomplete_details = take_opt_raw(s_incomplete);
        let resp = Gpt5Response {
            id,
            object,
            created_at,
            status,
            error,
            incomplete_details,
            instructions,
            max_output_tokens,
            model,
            output,
            parallel_tool_calls,
            previous_response_id,
            reasoning,
            store,
            text,
            tool_choice,
            tools,
            top_p,
            truncation,
            usage,
            user,
            metadata,
        };
        proof {
            assert(resp@ =~= spec_decode_response(gj)->Ok_0);
        }
        Ok(resp)
    }

    /// Parses JSON text and decodes it strictly into a response; text
    /// the parser refuses is reported as malformed.
    pub fn from_json_str(body: &str) -> (r: Result<Gpt5Response, DecodeFault>)
        ensures
            ({
                match spec_parse_json(body@) {
                    Err(_) => r matches Err(f) && f == DecodeFault::MalformedJson,
                    Ok(j) => match spec_decode_response(j) {
                        Ok(m) => r matches Ok(resp) && resp@ == m,
                        Err(e) => r matches Err(f) && f == e,
                    },
                }
            }),
    {
        match parse_json(body) {
            Ok(j) => Self::from_json(j),
            Err(_) => Err(DecodeFault::MalformedJson),
        }
    }
}

// ---------------------------------------------------------------------
// Accessors
// ---------------------------------------------------------------------
/// The first output-text segment's text among `cs[i..]`, if any.
pub open spec fn first_text_in_contents(cs: Seq<OutputContent>, i: int) -> Option<String>
    decreases cs.len() - i,
{
    if i < 0 || i >= cs.len() {
        None
    } else if cs[i].content_type is OutputText && cs[i].text is Some {
        cs[i].text
    } else {
        first_text_in_contents(cs, i + 1)
    }
}

/// The first output-text segment's text of a message item; nothing for
/// other item kinds.
pub open spec fn first_text_in_output(o: ResponseOutput) -> Option<String> {
    if o.output_type is Message && o.content is Some {
        first_text_in_contents(o.content->Some_0@, 0)
    } else {
        None
    }
}

/// The first text found scanning items `os[i..]` in order.
pub open spec fn first_text_from(os: Seq<ResponseOutput>, i: int) -> Option<String>
    decreases os.len() - i,
{
    if i < 0 || i >= os.len() {
        None
    } else {
        match first_text_in_output(os[i]) {
            Some(t) => Some(t),
            None => first_text_from(os, i + 1),
        }
    }
}

/// The first message text of a response, if any.
pub open spec fn spec_first_text(r: Gpt5Response) -> Option<String> {
    match r.output {
        Some(os) => first_text_from(os@, 0),
        None => None,
    }
}

/// The texts of all output-text segments among `cs[i..]`, in order.
pub open spec fn texts_in_contents(cs: Seq<OutputContent>, i: int) -> Seq<String>
    decreases cs.len() - i,
{
    if i < 0 || i >= cs.len() {
        Seq::empty()
    } else if cs[i].content_type is OutputText && cs[i].text is Some {
        seq![cs[i].text->Some_0] + texts_in_contents(cs, i + 1)
    } else {
        texts_in_contents(cs, i + 1)
    }
}

/// The texts of a message item's output-text segments; nothing for
/// other item kinds.
pub open spec fn texts_in_output(o: ResponseOutput) -> Seq<String> {
    if o.output_type is Message && o.content is Some {
        texts_in_contents(o.content->Some_0@, 0)
    } else {
        Seq::empty()
    }
}

/// All message texts of items `os[i..]`, in original order.
pub open spec fn texts_from(os: Seq<ResponseOutput>, i: int) -> Seq<String>
    decreases os.len() - i,
{
    if i < 0 || i >= os.len() {
        Seq::empty()
    } else {
        texts_in_output(os[i]) + texts_from(os, i + 1)
    }
}

/// All message texts of a response, in original order.
pub open spec fn spec_all_text(r: Gpt5Response) -> Seq<String> {
    match r.output {
        Some(os) => texts_from(os@, 0),
        None => Seq::empty(),
    }
}

/// The function-call items among `os[i..]`, in original order.
pub open spec fn fc_from(os: Seq<ResponseOutput>, i: int) -> Seq<ResponseOutput>
    decreases os.len() - i,
{
    if i < 0 || i >= os.len() {
        Seq::empty()
    } else if os[i].output_type is FunctionCall {
        seq![os[i]] + fc_from(os, i + 1)
    } else {
        fc_from(os, i + 1)
    }
}

/// The function-call items of a response, in original order.
pub open spec fn spec_function_calls(r: Gpt5Response) -> Seq<ResponseOutput> {
    match r.output {
        Some(os) => fc_from(os@, 0),
        None => Seq::empty(),
    }
}

/// The items a sequence of references points at.
pub open spec fn deref_outputs(s: Seq<&ResponseOutput>) -> Seq<ResponseOutput> {
    s.map_values(|o: &ResponseOutput| *o)
}

impl Gpt5Response {
    /// The text of the first output-text segment of the first message
    /// item that has one; absent when no segment matches.
    #[verifier::loop_isolation(false)]
    pub fn text(&self) -> (r: Option<String>)
        ensures
            r == spec_first_text(*self),
    {
        let outputs = match &self.output {
            Some(os) => os,
            None => {
                return None;
            },
        };
        let n = outputs.len();
        let mut i: usize = 0;
        while i < n
            invariant
                n == outputs@.len(),
                0 <= i <= n,
                first_text_from(outputs@, 0) == first_text_from(outputs@, i as int),
            decreases n - i,
        {
            let o = &outputs[i];
            match (&o.output_type, &o.content) {
                (OutputType::Message, Some(contents)) => {
                    let cn = contents.len();
                    let mut j: usize = 0;
                    while j < cn
                        invariant
                            cn == contents@.len(),
                            0 <= j <= cn,
                            first_text_in_contents(contents@, 0) == first_text_in_contents(
                                contents@,
                                j as int,
                            ),
                        decreases cn - j,
                    {
                        let c = &contents[j];
                        match (&c.content_type, &c.text) {
                            (ContentType::OutputText, Some(t)) => {
                                return Some(t.clone());
                            },
                            _ => {},
                        }
                        j += 1;
                    }
                },
                _ => {},
            }
            i += 1;
        }
        None
    }

    /// The texts of every matching output-text segment, in original
    /// order; empty when none match.
    #[verifier::loop_isolation(false)]
    pub fn all_text(&self) -> (r: Vec<String>)
        ensures
            r@ == spec_all_text(*self),
    {
        let mut out: Vec<String> = Vec::new();
        let outputs = match &self.output {
            Some(os) => os,
            None => {
                return out;
            },
        };
        let n = outputs.len();
        let mut i: usize = 0;
        while i < n
            invariant
                n == outputs@.len(),
                0 <= i <= n,
                out@ + texts_from(outputs@, i as int) == texts_from(outputs@, 0),
            decreases n - i,
        {
            let o = &outputs[i];
            match (&o.output_type, &o.content) {
                (OutputType::Message, Some(contents)) => {
                    let cn = contents.len();
                    let mut j: usize = 0;
                    while j < cn
                        invariant
                            cn == contents@.len(),
                            0 <= j <= cn,
                            out@ + texts_in_contents(contents@, j as int) + texts_from(
                                outputs@,
                                i + 1,
                            ) == texts_from(outputs@, 0),
                        decreases cn - j,
                    {
                        let c = &contents[j];
                        let ghost prev = out@;
                        match (&c.content_type, &c.text) {
                            (ContentType::OutputText, Some(t)) => {
                                out.push(t.clone());
                                proof {
                                    assert(out@ + texts_in_contents(contents@, j + 1) =~= prev + (
                                    seq![contents@[j as int].text->Some_0] + texts_in_contents(
                                        contents@,
                                        j + 1,
                                    )));
                                }
                            },
                            _ => {},
                        }
                        j += 1;
                    }
                    proof {
                        assert(out@ + texts_in_contents(contents@, cn as int) + texts_from(
                            outputs@,
                            i + 1,
                        ) =~= out@ + texts_from(outputs@, i + 1));
                    }
                },
                _ => {},
            }
            i += 1;
        }
        proof {
            assert(out@ + texts_from(outputs@, n as int) =~= out@);
        }
        out
    }

    /// The function-call items, in original order; empty when there
    /// are none.
    #[verifier::loop_isolation(false)]
    pub fn function_calls(&self) -> (r: Vec<&ResponseOutput>)
        ensures
            deref_outputs(r@) == spec_function_calls(*self),
    {
        let mut out: Vec<&ResponseOutput> = Vec::new();
        let outputs = match &self.output {
            Some(os) => os,
            None => {
                proof {
                    assert(deref_outputs(out@) =~= spec_function_calls(*self));
                }
                return out;
            },
        };
        let n = outputs.len();
        let mut i: usize = 0;
        while i < n
            invariant
                n == outputs@.len(),
                0 <= i <= n,
                deref_outputs(out@) + fc_from(outputs@, i as int) == fc_from(outputs@, 0),
            decreases n - i,
        {
            let o = &outputs[i];
            let ghost prev = out@;
            match &o.output_type {
                OutputType::FunctionCall => {
                    out.push(o);
                    proof {
                        assert(deref_outputs(out@) =~= deref_outputs(prev) + seq![
                            outputs@[i as int]
                        ]);
                        assert(deref_outputs(out@) + fc_from(outputs@, i + 1) =~= deref_outputs(
                            prev,
                        ) + (seq![outputs@[i as int]] + fc_from(outputs@, i + 1)));
                    }
                },
                _ => {},
            }
            i += 1;
        }
        proof {
            assert(deref_outputs(out@) + fc_from(outputs@, n as int) =~= deref_outputs(out@));
            assert(deref_outputs(out@) =~= spec_function_calls(*self));
        }
        out
    }

    /// The reasoning token count, when the whole chain usage,
    /// output-token details, reasoning tokens is present.
    pub fn reasoning_tokens(&self) -> (r: Option<u32>)
        ensures
            r == (match self.usage {
                Some(u) => match u.output_tokens_details {
                    Some(d) => d.reasoning_tokens,
                    None => None,
                },
                None => None,
            }),
    {
        match &self.usage {
            Some(u) => match &u.output_tokens_details {
                Some(d) => d.reasoning_tokens,
                None => None,
            },
            None => None,
        }
    }

    /// The total token count, or zero when no usage was reported.
    pub fn total_tokens(&self) -> (r: u32)
        ensures
            r == (match self.usage {
                Some(u) => u.total_tokens,
                None => 0u32,
            }),
    {
        match &self.usage {
            Some(u) => u.total_tokens,
            None => 0,
        }
    }

    /// Whether the status is exactly the completed variant; a missing
    /// status or any other value, known or not, is not completed.
    pub fn is_completed(&self) -> (r: bool)
        ensures
            r == (self.status matches Some(s) && s is Completed),
    {
        match &self.status {
            Some(Status::Completed) => true,
            _ => false,
        }
    }

    /// Whether an error payload is present and non-null.
    pub fn has_error(&self) -> (r: bool)
        ensures
            r == (self.error is Some),
    {
        self.error.is_some()
    }
}

} // verus!

//! Open enums for the endpoint's string-valued parameters.
//!
//! Each enum is a closed set of known wire strings plus a catch-all
//! variant that preserves any unrecognized string verbatim, so decoding
//! is total and new vendor-introduced values never break it.

use vstd::prelude::*;
use crate::strutil::str_eq;

verus! {

// ---------------------------------------------------------------------
// Reasoning effort
// ---------------------------------------------------------------------
/// Reasoning effort level: how much work the model spends before answering.
#[derive(Debug, Clone)]
pub enum ReasoningEffort {
    /// Low reasoning effort - fastest responses
    Low,
    /// Medium reasoning effort - balanced performance
    Medium,
    /// High reasoning effort - most thorough analysis
    High,
    /// Unknown effort level (for future compatibility)
    Unknown(String),
}

/// The wire string a value encodes to.
pub open spec fn effort_wire(e: ReasoningEffort) -> Seq<char> {
    match e {
        ReasoningEffort::Low => "low"@,
        ReasoningEffort::Medium => "medium"@,
        ReasoningEffort::High => "high"@,
        ReasoningEffort::Unknown(s) => s@,
    }
}

/// Whether a wire string is one of the known effort strings.
pub open spec fn effort_known(s: Seq<char>) -> bool {
    s == "low"@ || s == "medium"@ || s == "high"@
}

/// The value a wire string decodes to; total over all strings.
pub open spec fn effort_of(s: String) -> ReasoningEffort {
    if s@ == "low"@ {
        ReasoningEffort::Low
    } else if s@ == "medium"@ {
        ReasoningEffort::Medium
    } else if s@ == "high"@ {
        ReasoningEffort::High
    } else {
        ReasoningEffort::Unknown(s)
    }
}

impl ReasoningEffort {
    /// The wire string for this value.
    pub fn as_wire(&self) -> (r: &str)
        ensures
            r@ == effort_wire(*self),
    {
        match self {
            ReasoningEffort::Low => "low",
            ReasoningEffort::Medium => "medium",
            ReasoningEffort::High => "high",
            ReasoningEffort::Unknown(s) => s.as_str(),
        }
    }

    /// Decodes a wire string; unknown strings are preserved verbatim.
    pub fn from_wire(s: String) -> (r: Self)
        ensures
            r == effort_of(s),
    {
        if str_eq(s.as_str(), "low") {
            ReasoningEffort::Low
        } else if str_eq(s.as_str(), "medium") {
            ReasoningEffort::Medium
        } else if str_eq(s.as_str(), "high") {
            ReasoningEffort::High
        } else {
            ReasoningEffort::Unknown(s)
        }
    }
}

impl PartialEq for ReasoningEffort {
    fn eq(&self, other: &Self) -> bool {
        match (self, other) {
            (ReasoningEffort::Low, ReasoningEffort::Low) => true,
            (ReasoningEffort::Medium, ReasoningEffort::Medium) => true,
            (ReasoningEffort::High, ReasoningEffort::High) => true,
            (ReasoningEffort::Unknown(a), ReasoningEffort::Unknown(b)) => *a == *b,
            _ => false,
        }
    }
}

impl vstd::std_specs::cmp::PartialEqSpecImpl for ReasoningEffort {
    open spec fn obeys_eq_spec() -> bool {
        true
    }

    open spec fn eq_spec(&self, other: &Self) -> bool {
        match (self, other) {
            (ReasoningEffort::Low, ReasoningEffort::Low) => true,
            (ReasoningEffort::Medium, ReasoningEffort::Medium) => true,
            (ReasoningEffort::High, ReasoningEffort::High) => true,
            (ReasoningEffort::Unknown(a), ReasoningEffort::Unknown(b)) => a@ == b@,
            _ => false,
        }
    }
}

/// Law: decoding is total; a known wire string gives its named variant, any
/// other string gives the catch-all holding it, and re-encoding the decoded
/// value returns the input string unchanged.
pub proof fn lemma_effort_roundtrip(s: String)
    ensures
        effort_wire(effort_of(s)) == s@,
        effort_known(s@) ==> !(effort_of(s) is Unknown),
        !effort_known(s@) ==> effort_of(s) == ReasoningEffort::Unknown(s),
{
}

// ---------------------------------------------------------------------
// Verbosity
// ---------------------------------------------------------------------
/// Verbosity level: how detailed responses should be.
#[derive(Debug, Clone)]
pub enum VerbosityLevel {
    /// Low verbosity - concise responses
    Low,
    /// Medium verbosity - balanced detail
    Medium,
    /// High verbosity - detailed responses
    High,
    /// Unknown verbosity level (for future compatibility)
    Unknown(String),
}

/// The wire string a value encodes to.
pub open spec fn verbosity_wire(v: VerbosityLevel) -> Seq<char> {
    match v {
        VerbosityLevel::Low => "low"@,
        VerbosityLevel::Medium => "medium"@,
        VerbosityLevel::High => "high"@,
        VerbosityLevel::Unknown(s) => s@,
    }
}

/// Whether a wire string is one of the known verbosity strings.
pub open spec fn verbosity_known(s: Seq<char>) -> bool {
    s == "low"@ || s == "medium"@ || s == "high"@
}

/// The value a wire string decodes to; total over all strings.
pub open spec fn verbosity_of(s: String) -> VerbosityLevel {
    if s@ == "low"@ {
        VerbosityLevel::Low
    } else if s@ == "medium"@ {
        VerbosityLevel::Medium
    } else if s@ == "high"@ {
        VerbosityLevel::High
    } else {
        VerbosityLevel::Unknown(s)
    }
}

impl VerbosityLevel {
    /// The wire string for this value.
    pub fn as_wire(&self) -> (r: &str)
        ensures
            r@ == verbosity_wire(*self),
    {
        match self {
            VerbosityLevel::Low => "low",
            VerbosityLevel::Medium => "medium",
            VerbosityLevel::High => "high",
            VerbosityLevel::Unknown(s) => s.as_str(),
        }
    }

    /// Decodes a wire string; unknown strings are preserved verbatim.
    pub fn from_wire(s: String) -> (r: Self)
        ensures
            r == verbosity_of(s),
    {
        if str_eq(s.as_str(), "low") {
            VerbosityLevel::Low
        } else if str_eq(s.as_str(), "medium") {
            VerbosityLevel::Medium
        } else if str_eq(s.as_str(), "high") {
            VerbosityLevel::High
        } else {
            VerbosityLevel::Unknown(s)
        }
    }
}

impl PartialEq for VerbosityLevel {
    fn eq(&self, other: &Self) -> bool {
        match (self, other) {
            (VerbosityLevel::Low, VerbosityLevel::Low) => true,
            (VerbosityLevel::Medium, VerbosityLevel::Medium) => true,
            (VerbosityLevel::High, VerbosityLevel::High) => true,
            (VerbosityLevel::Unknown(a), VerbosityLevel::Unknown(b)) => *a == *b,
            _ => false,
        }
    }
}

impl vstd::std_specs::cmp::PartialEqSpecImpl for VerbosityLevel {
    open spec fn obeys_eq_spec() -> bool {
        true
    }

    open spec fn eq_spec(&self, other: &Self) -> bool {
        match (self, other) {
            (VerbosityLevel::Low, VerbosityLevel::Low) => true,
            (VerbosityLevel::Medium, VerbosityLevel::Medium) => true,
            (VerbosityLevel::High, VerbosityLevel::High) => true,
            (VerbosityLevel::Unknown(a), VerbosityLevel::Unknown(b)) => a@ == b@,
            _ => false,
        }
    }
}

/// Law: decoding is total; a known wire string gives its named variant, any
/// other string gives the catch-all holding it, and re-encoding the decoded
/// value returns the input string unchanged.
pub proof fn lemma_verbosity_roundtrip(s: String)
    ensures
        verbosity_wire(verbosity_of(s)) == s@,
        verbosity_known(s@) ==> !(verbosity_of(s) is Unknown),
        !verbosity_known(s@) ==> verbosity_of(s) == VerbosityLevel::Unknown(s),
{
}

// ---------------------------------------------------------------------
// Output kind
// ---------------------------------------------------------------------
/// The kind of an output item in a reply.
#[derive(Debug, Clone)]
pub enum OutputType {
    /// Message output - regular text content
    Message,
    /// Function call output - tool/function invocation
    FunctionCall,
    /// Unknown output type (for future compatibility)
    Unknown(String),
}

/// The wire string a value encodes to.
pub open spec fn output_type_wire(o: OutputType) -> Seq<char> {
    match o {
        OutputType::Message => "message"@,
        OutputType::FunctionCall => "function_call"@,
        OutputType::Unknown(s) => s@,
    }
}

/// Whether a wire string is one of the known output kinds.
pub open spec fn output_type_known(s: Seq<char>) -> bool {
    s == "message"@ || s == "function_call"@
}

/// The value a wire string decodes to; total over all strings.
pub open spec fn output_type_of(s: String) -> OutputType {
    if s@ == "message"@ {
        OutputType::Message
    } else if s@ == "function_call"@ {
        OutputType::FunctionCall
    } else {
        OutputType::Unknown(s)
    }
}

impl OutputType {
    /// The wire string for this value.
    pub fn as_wire(&self) -> (r: &str)
        ensures
            r@ == output_type_wire(*self),
    {
        match self {
            OutputType::Message => "message",
            OutputType::FunctionCall => "function_call",
            OutputType::Unknown(s) => s.as_str(),
        }
    }

    /// Decodes a wire string; unknown strings are preserved verbatim.
    pub fn from_wire(s: String) -> (r: Self)
        ensures
            r == output_type_of(s),
    {
        if str_eq(s.as_str(), "message") {
            OutputType::Message
        } else if str_eq(s.as_str(), "function_call") {
            OutputType::FunctionCall
        } else {
            OutputType::Unknown(s)
        }
    }
}

impl PartialEq for OutputType {
    fn eq(&self, other: &Self) -> bool {
        match (self, other) {
            (OutputType::Message, OutputType::Message) => true,
            (OutputType::FunctionCall, OutputType::FunctionCall) => true,
            (OutputType::Unknown(a), OutputType::Unknown(b)) => *a == *b,
            _ => false,
        }
    }
}

impl vstd::std_specs::cmp::PartialEqSpecImpl for OutputType {
    open spec fn obeys_eq_spec() -> bool {
        true
    }

    open spec fn eq_spec(&self, other: &Self) -> bool {
        match (self, other) {
            (OutputType::Message, OutputType::Message) => true,
            (OutputType::FunctionCall, OutputType::FunctionCall) => true,
            (OutputType::Unknown(a), OutputType::Unknown(b)) => a@ == b@,
            _ => false,
        }
    }
}

/// Law: decoding is total; a known wire string gives its named variant, any
/// other string gives the catch-all holding it, and re-encoding the decoded
/// value returns the input string unchanged.
pub proof fn lemma_output_type_roundtrip(s: String)
    ensures
        output_type_wire(output_type_of(s)) == s@,
        output_type_known(s@) ==> !(output_type_of(s) is Unknown),
        !output_type_known(s@) ==> output_type_of(s) == OutputType::Unknown(s),
{
}

// ---------------------------------------------------------------------
// Content kind
// ---------------------------------------------------------------------
/// The kind of a content segment inside a message output.
#[derive(Debug, Clone)]
pub enum ContentType {
    /// Output text content
    OutputText,
    /// Unknown content type (for future compatibility)
    Unknown(String),
}

/// The wire string a value encodes to.
pub open spec fn content_type_wire(c: ContentType) -> Seq<char> {
    match c {
        ContentType::OutputText => "output_text"@,
        ContentType::Unknown(s) => s@,
    }
}

/// Whether a wire string is one of the known content kinds.
pub open spec fn content_type_known(s: Seq<char>) -> bool {
    s == "output_text"@
}

/// The value a wire string decodes to; total over all strings.
pub open spec fn content_type_of(s: String) -> ContentType {
    if s@ == "output_text"@ {
        ContentType::OutputText
    } else {
        ContentType::Unknown(s)
    }
}

impl ContentType {
    /// The wire string for this value.
    pub fn as_wire(&self) -> (r: &str)
        ensures
            r@ == content_type_wire(*self),
    {
        match self {
            ContentType::OutputText => "output_text",
            ContentType::Unknown(s) => s.as_str(),
        }
    }

    /// Decodes a wire string; unknown strings are preserved verbatim.
    pub fn from_wire(s: String) -> (r: Self)
        ensures
            r == content_type_of(s),
    {
        if str_eq(s.as_str(), "output_text") {
            ContentType::OutputText
        } else {
            ContentType::Unknown(s)
        }
    }
}

impl PartialEq for ContentType {
    fn eq(&self, other: &Self) -> bool {
        match (self, other) {
            (ContentType::OutputText, ContentType::OutputText) => true,
            (ContentType::Unknown(a), ContentType::Unknown(b)) => *a == *b,
            _ => false,
        }
    }
}

impl vstd::std_specs::cmp::PartialEqSpecImpl for ContentType {
    open spec fn obeys_eq_spec() -> bool {
        true
    }

    open spec fn eq_spec(&self, other: &Self) -> bool {
        match (self, other) {
            (ContentType::OutputText, ContentType::OutputText) => true,
            (ContentType::Unknown(a), ContentType::Unknown(b)) => a@ == b@,
            _ => false,
        }
    }
}

/// Law: decoding is total; a known wire string gives its named variant, any
/// other string gives the catch-all holding it, and re-encoding the decoded
/// value returns the input string unchanged.
pub proof fn lemma_content_type_roundtrip(s: String)
    ensures
        content_type_wire(content_type_of(s)) == s@,
        content_type_known(s@) ==> !(content_type_of(s) is Unknown),
        !content_type_known(s@) ==> content_type_of(s) == ContentType::Unknown(s),
{
}

// ---------------------------------------------------------------------
// Status
// ---------------------------------------------------------------------
/// The lifecycle status of a reply.
#[derive(Debug, Clone)]
pub enum Status {
    /// Response is in progress
    InProgress,
    /// Response is completed
    Completed,
    /// Response requires action (e.g., function call)
    RequiresAction,
    /// Response failed
    Failed,
    /// Unknown status (for future compatibility)
    Unknown(String),
}

/// The wire string a value encodes to.
pub open spec fn status_wire(s: Status) -> Seq<char> {
    match s {
        Status::InProgress => "in_progress"@,
        Status::Completed => "completed"@,
        Status::RequiresAction => "requires_action"@,
        Status::Failed => "failed"@,
        Status::Unknown(u) => u@,
    }
}

/// Whether a wire string is one of the known statuses.
pub open spec fn status_known(s: Seq<char>) -> bool {
    s == "in_progress"@ || s == "completed"@ || s == "requires_action"@ || s == "failed"@
}

/// The value a wire string decodes to; total over all strings.
pub open spec fn status_of(s: String) -> Status {
    if s@ == "in_progress"@ {
        Status::InProgress
    } else if s@ == "completed"@ {
        Status::Completed
    } else if s@ == "requires_action"@ {
        Status::RequiresAction
    } else if s@ == "failed"@ {
        Status::Failed
    } else {
        Status::Unknown(s)
    }
}

impl Status {
    /// The wire string for this value.
    pub fn as_wire(&self) -> (r: &str)
        ensures
            r@ == status_wire(*self),
    {
        match self {
            Status::InProgress => "in_progress",
            Status::Completed => "completed",
            Status::RequiresAction => "requires_action",
            Status::Failed => "failed",
            Status::Unknown(s) => s.as_str(),
        }
    }

    /// Decodes a wire string; unknown strings are preserved verbatim.
    pub fn from_wire(s: String) -> (r: Self)
        ensures
            r == status_of(s),
    {
        if str_eq(s.as_str(), "in_progress") {
            Status::InProgress
        } else if str_eq(s.as_str(), "completed") {
            Status::Completed
        } else if str_eq(s.as_str(), "requires_action") {
            Status::RequiresAction
        } else if str_eq(s.as_str(), "failed") {
            Status::Failed
        } else {
            Status::Unknown(s)
        }
    }
}

impl PartialEq for Status {
    fn eq(&self, other: &Self) -> bool {
        match (self, other) {
            (Status::InProgress, Status::InProgress) => true,
            (Status::Completed, Status::Completed) => true,
            (Status::RequiresAction, Status::RequiresAction) => true,
            (Status::Failed, Status::Failed) => true,
            (Status::Unknown(a), Status::Unknown(b)) => *a == *b,
            _ => false,
        }
    }
}

impl vstd::std_specs::cmp::PartialEqSpecImpl for Status {
    open spec fn obeys_eq_spec() -> bool {
        true
    }

    open spec fn eq_spec(&self, other: &Self) -> bool {
        match (self, other) {
            (Status::InProgress, Status::InProgress) => true,
            (Status::Completed, Status::Completed) => true,
            (Status::RequiresAction, Status::RequiresAction) => true,
            (Status::Failed, Status::Failed) => true,
            (Status::Unknown(a), Status::Unknown(b)) => a@ == b@,
            _ => false,
        }
    }
}

/// Law: decoding is total; a known wire string gives its named variant, any
/// other string gives the catch-all holding it, and re-encoding the decoded
/// value returns the input string unchanged.
pub proof fn lemma_status_roundtrip(s: String)
    ensures
        status_wire(status_of(s)) == s@,
        status_known(s@) ==> !(status_of(s) is Unknown),
        !status_known(s@) ==> status_of(s) == Status::Unknown(s),
{
}

// ---------------------------------------------------------------------
// Role
// ---------------------------------------------------------------------
/// The role of a participant in the conversation.
#[derive(Debug, Clone)]
pub enum Role {
    /// User role
    User,
    /// Assistant role
    Assistant,
    /// Tool role
    Tool,
    /// System role
    System,
    /// Unknown role (for future compatibility)
    Unknown(String),
}

/// The wire string a value encodes to.
pub open spec fn role_wire(r: Role) -> Seq<char> {
    match r {
        Role::User => "user"@,
        Role::Assistant => "assistant"@,
        Role::Tool => "tool"@,
        Role::System => "system"@,
        Role::Unknown(s) => s@,
    }
}

/// Whether a wire string is one of the known roles.
pub open spec fn role_known(s: Seq<char>) -> bool {
    s == "user"@ || s == "assistant"@ || s == "tool"@ || s == "system"@
}

/// The value a wire string decodes to; total over all strings.
pub open spec fn role_of(s: String) -> Role {
    if s@ == "user"@ {
        Role::User
    } else if s@ == "assistant"@ {
        Role::Assistant
    } else if s@ == "tool"@ {
        Role::Tool
    } else if s@ == "system"@ {
        Role::System
    } else {
        Role::Unknown(s)
    }
}

impl Role {
    /// The wire string for this value.
    pub fn as_wire(&self) -> (r: &str)
        ensures
            r@ == role_wire(*self),
    {
        match self {
            Role::User => "user",
            Role::Assistant => "assistant",
            Role::Tool => "tool",
            Role::System => "system",
            Role::Unknown(s) => s.as_str(),
        }
    }

    /// Decodes a wire string; unknown strings are preserved verbatim.
    pub fn from_wire(s: String) -> (r: Self)
        ensures
            r == role_of(s),
    {
        if str_eq(s.as_str(), "user") {
            Role::User
        } else if str_eq(s.as_str(), "assistant") {
            Role::Assistant
        } else if str_eq(s.as_str(), "tool") {
            Role::Tool
        } else if str_eq(s.as_str(), "system") {
            Role::System
        } else {
            Role::Unknown(s)
        }
    }
}

impl PartialEq for Role {
    fn eq(&self, other: &Self) -> bool {
        match (self, other) {
            (Role::User, Role::User) => true,
            (Role::Assistant, Role::Assistant) => true,
            (Role::Tool, Role::Tool) => true,
            (Role::System, Role::System) => true,
            (Role::Unknown(a), Role::Unknown(b)) => *a == *b,
            _ => false,
        }
    }
}

impl vstd::std_specs::cmp::PartialEqSpecImpl for Role {
    open spec fn obeys_eq_spec() -> bool {
        true
    }

    open spec fn eq_spec(&self, other: &Self) -> bool {
        match (self, other) {
            (Role::User, Role::User) => true,
            (Role::Assistant, Role::Assistant) => true,
            (Role::Tool, Role::Tool) => true,
            (Role::System, Role::System) => true,
            (Role::Unknown(a), Role::Unknown(b)) => a@ == b@,
            _ => false,
        }
    }
}

/// Law: decoding is total; a known wire string gives its named variant, any
/// other string gives the catch-all holding it, and re-encoding the decoded
/// value returns the input string unchanged.
pub proof fn lemma_role_roundtrip(s: String)
    ensures
        role_wire(role_of(s)) == s@,
        role_known(s@) ==> !(role_of(s) is Unknown),
        !role_known(s@) ==> role_of(s) == Role::Unknown(s),
{
}

// ---------------------------------------------------------------------
// Text format kind
// ---------------------------------------------------------------------
/// The format of text content in a reply.
#[derive(Debug, Clone)]
pub enum FormatType {
    /// Markdown format
    Markdown,
    /// Plain text format
    PlainText,
    /// Unknown format type (for future compatibility)
    Unknown(String),
}

/// The wire string a value encodes to.
pub open spec fn format_type_wire(f: FormatType) -> Seq<char> {
    match f {
        FormatType::Markdown => "markdown"@,
        FormatType::PlainText => "plain_text"@,
        FormatType::Unknown(s) => s@,
    }
}

/// Whether a wire string is one of the known format kinds.
pub open spec fn format_type_known(s: Seq<char>) -> bool {
    s == "markdown"@ || s == "plain_text"@
}

/// The value a wire string decodes to; total over all strings.
pub open spec fn format_type_of(s: String) -> FormatType {
    if s@ == "markdown"@ {
        FormatType::Markdown
    } else if s@ == "plain_text"@ {
        FormatType::PlainText
    } else {
        FormatType::Unknown(s)
    }
}

impl FormatType {
    /// The wire string for this value.
    pub fn as_wire(&self) -> (r: &str)
        ensures
            r@ == format_type_wire(*self),
    {
        match self {
            FormatType::Markdown => "markdown",
            FormatType::PlainText => "plain_text",
            FormatType::Unknown(s) => s.as_str(),
        }
    }

    /// Decodes a wire string; unknown strings are preserved verbatim.
    pub fn from_wire(s: String) -> (r: Self)
        ensures
            r == format_type_of(s),
    {
        if str_eq(s.as_str(), "markdown") {
            FormatType::Markdown
        } else if str_eq(s.as_str(), "plain_text") {
            FormatType::PlainText
        } else {
            FormatType::Unknown(s)
        }
    }
}

impl PartialEq for FormatType {
    fn eq(&self, other: &Self) -> bool {
        match (self, other) {
            (FormatType::Markdown, FormatType::Markdown) => true,
            (FormatType::PlainText, FormatType::PlainText) => true,
            (FormatType::Unknown(a), FormatType::Unknown(b)) => *a == *b,
            _ => false,
        }
    }
}

impl vstd::std_specs::cmp::PartialEqSpecImpl for FormatType {
    open spec fn obeys_eq_spec() -> bool {
        true
    }

    open spec fn eq_spec(&self, other: &Self) -> bool {
        match (self, other) {
            (FormatType::Markdown, FormatType::Markdown) => true,
            (FormatType::PlainText, FormatType::PlainText) => true,
            (FormatType::Unknown(a), FormatType::Unknown(b)) => a@ == b@,
            _ => false,
        }
    }
}

/// Law: decoding is total; a known wire string gives its named variant, any
/// other string gives the catch-all holding it, and re-encoding the decoded
/// value returns the input string unchanged.
pub proof fn lemma_format_type_roundtrip(s: String)
    ensures
        format_type_wire(format_type_of(s)) == s@,
        format_type_known(s@) ==> !(format_type_of(s) is Unknown),
        !format_type_known(s@) ==> format_type_of(s) == FormatType::Unknown(s),
{
}

} // verus!

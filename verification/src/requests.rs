//! Request structures and the fluent builder that assembles them.

use vstd::prelude::*;
use crate::enums::{effort_wire, verbosity_wire, ReasoningEffort, VerbosityLevel};
use crate::json::{json_text, jv_equiv, JsonValue};
use crate::models::{model_wire, Gpt5Model};
use crate::strutil::{permille_to_dec, spec_dec, spec_permille, str_eq, u64_to_dec};

verus! {

/// Reasoning configuration for requests.
#[derive(Debug, Clone)]
pub struct RequestReasoning {
    /// Effort level hint that balances speed, cost, and reasoning depth
    pub effort: ReasoningEffort,
}

/// Text configuration for requests.
#[derive(Debug, Clone)]
pub struct RequestText {
    /// Requested verbosity for natural language output
    pub verbosity: Option<VerbosityLevel>,
}

/// Configuration for enabling web search assistance.
///
/// When enabled, the built request exposes the `web_search` tool. The
/// record itself is kept on the built request as metadata for the
/// caller and is never serialized to the wire.
#[derive(Debug, Clone)]
pub struct WebSearchConfig {
    /// Whether the built request should expose the `web_search` tool
    pub enabled: bool,
    /// Human-readable name to surface when presenting the tool to end-users
    pub name: Option<String>,
    /// Summary explaining what the search helper does
    pub description: Option<String>,
    /// Suggested search query to run if the tool is invoked
    pub query: Option<String>,
    /// Preferred maximum number of results the search integration should return
    pub max_results: Option<u8>,
}

impl Default for WebSearchConfig {
    /// An inert record: disabled, with every optional field absent.
    fn default() -> (r: Self)
        ensures
            !r.enabled,
            r.name is None,
            r.description is None,
            r.query is None,
            r.max_results is None,
    {
        WebSearchConfig {
            enabled: false,
            name: None,
            description: None,
            query: None,
            max_results: None,
        }
    }
}

/// Tool definition for function calling.
#[derive(Debug)]
pub struct Tool {
    /// Kind of tool being offered (the endpoint expects "function" or "web_search")
    pub tool_type: String,
    /// Public identifier for the tool, primarily used for function calling routing
    pub name: Option<String>,
    /// Optional explanation that helps the model select when to call the tool
    pub description: Option<String>,
    /// Schema document describing the arguments the tool expects
    pub parameters: Option<JsonValue>,
}

/// Request payload for the text-generation endpoint.
///
/// Built once through [`Gpt5RequestBuilder`] and immutable afterwards;
/// [`Gpt5Request::to_json`] gives the exact wire form, with absent
/// optional fields omitted entirely.
#[derive(Debug)]
pub struct Gpt5Request {
    /// Identifier for the model that should process the request
    pub model: String,
    /// Primary user input supplied to the model
    pub input: String,
    /// Optional reasoning configuration controlling effort spent on the task
    pub reasoning: Option<RequestReasoning>,
    /// Optional collection of callable tools the model may invoke
    pub tools: Option<Vec<Tool>>,
    /// Strategy directing the model to auto-select or force a specific tool
    pub tool_choice: Option<String>,
    /// Maximum number of tokens the model is allowed to emit
    pub max_output_tokens: Option<u32>,
    /// Top-p nucleus sampling value, in thousandths (900 stands for 0.9)
    pub top_p: Option<u32>,
    /// Optional response text configuration (verbosity, formatting, etc.)
    pub text: Option<RequestText>,
    /// System-level instructions that frame how the model should respond
    pub instructions: Option<String>,
    /// Derived configuration describing desired web search behaviour;
    /// caller-side metadata, never serialized
    pub web_search_config: Option<WebSearchConfig>,
    /// Additional arbitrary parameters forwarded to the endpoint
    pub parameters: Vec<(String, JsonValue)>,
}

/// Builder for requests to the text-generation endpoint.
///
/// Accumulates state through chained setters, each consuming the
/// builder; `build` assembles the immutable request.
#[derive(Debug)]
pub struct Gpt5RequestBuilder {
    /// Model the request targets
    pub model: Gpt5Model,
    /// Primary user input
    pub input: String,
    /// Optional reasoning configuration
    pub reasoning: Option<RequestReasoning>,
    /// Explicit tool list, if any
    pub tools: Option<Vec<Tool>>,
    /// Tool choice strategy, if any
    pub tool_choice: Option<String>,
    /// Output token bound, if any
    pub max_output_tokens: Option<u32>,
    /// Top-p value in thousandths, if any
    pub top_p: Option<u32>,
    /// Text configuration, if any
    pub text: Option<RequestText>,
    /// System instructions, if any
    pub instructions: Option<String>,
    /// Accumulated web search intent, if any setter touched it
    pub web_search: Option<WebSearchConfig>,
    /// Extra named parameters, in insertion order
    pub parameters: Vec<(String, JsonValue)>,
}

/// The accumulated web search intent, or an inert default when none
/// was ever set.
pub open spec fn ws_or_default(b: Gpt5RequestBuilder) -> WebSearchConfig {
    match b.web_search {
        Some(c) => c,
        None => WebSearchConfig {
            enabled: false,
            name: None,
            description: None,
            query: None,
            max_results: None,
        },
    }
}

/// Whether the builder's web search intent ended up enabled.
pub open spec fn ws_enabled(b: Gpt5RequestBuilder) -> bool {
    b.web_search matches Some(c) && c.enabled
}

/// The explicit tool list, or empty when none was set.
pub open spec fn base_tools(b: Gpt5RequestBuilder) -> Seq<Tool> {
    match b.tools {
        Some(ts) => ts@,
        None => Seq::empty(),
    }
}

/// Whether a tool is of the web-search kind.
pub open spec fn is_web_search_tool(t: Tool) -> bool {
    t.tool_type@ == "web_search"@
}

/// Whether some tool in the list is of the web-search kind.
pub open spec fn has_web_search_tool(ts: Seq<Tool>) -> bool {
    exists|i: int| 0 <= i < ts.len() && is_web_search_tool(#[trigger] ts[i])
}

/// Whether a tool is the synthesized web-search entry: web-search kind
/// with every other field unset.
pub open spec fn is_web_search_entry(t: Tool) -> bool {
    &&& is_web_search_tool(t)
    &&& t.name is None
    &&& t.description is None
    &&& t.parameters is None
}

/// Whether building appends a synthesized web-search entry.
pub open spec fn ws_appended(b: Gpt5RequestBuilder) -> bool {
    ws_enabled(b) && !has_web_search_tool(base_tools(b))
}

/// The length of the tool list a build produces.
pub open spec fn built_tools_len(b: Gpt5RequestBuilder) -> nat {
    if ws_appended(b) {
        base_tools(b).len() + 1
    } else {
        base_tools(b).len()
    }
}

/// How the built request's tool list relates to the builder: the
/// explicit tools come first, unchanged; a web-search entry is appended
/// exactly when the intent is enabled and no such tool was present; an
/// empty list is omitted entirely.
pub open spec fn build_tools_ok(b: Gpt5RequestBuilder, tools: Option<Vec<Tool>>) -> bool {
    if built_tools_len(b) == 0 {
        tools is None
    } else {
        &&& tools matches Some(ts)
        &&& ts@.len() == built_tools_len(b)
        &&& ts@.take(base_tools(b).len() as int) == base_tools(b)
        &&& (ws_appended(b) ==> is_web_search_entry(ts@.last()))
    }
}

/// The web search record a build retains: the accumulated intent when
/// it ended up enabled, nothing otherwise.
pub open spec fn built_ws(b: Gpt5RequestBuilder) -> Option<WebSearchConfig> {
    if ws_enabled(b) {
        b.web_search
    } else {
        None
    }
}

/// The position of the first pair whose key reads `k`, from `i` on;
/// negative when there is none.
pub open spec fn key_idx_from(ps: Seq<(String, JsonValue)>, k: Seq<char>, i: int) -> int
    decreases ps.len() - i,
{
    if i < 0 || i >= ps.len() {
        -1
    } else if ps[i].0@ == k {
        i
    } else {
        key_idx_from(ps, k, i + 1)
    }
}

impl Gpt5RequestBuilder {
    /// A fresh builder targeting the given model, with empty input and
    /// nothing else set.
    pub fn new(model: Gpt5Model) -> (r: Self)
        ensures
            r.model == model,
            r.input@ == Seq::<char>::empty(),
            r.reasoning is None,
            r.tools is None,
            r.tool_choice is None,
            r.max_output_tokens is None,
            r.top_p is None,
            r.text is None,
            r.instructions is None,
            r.web_search is None,
            r.parameters@ == Seq::<(String, JsonValue)>::empty(),
    {
        Gpt5RequestBuilder {
            model,
            input: String::new(),
            reasoning: None,
            tools: None,
            tool_choice: None,
            max_output_tokens: None,
            top_p: None,
            text: None,
            instructions: None,
            web_search: None,
            parameters: Vec::new(),
        }
    }

    /// Sets the input text; a later call overwrites an earlier one.
    pub fn input(self, text: &str) -> (r: Self)
        ensures
            r == (Gpt5RequestBuilder { input: r.input, ..self }),
            r.input@ == text@,
    {
        Gpt5RequestBuilder { input: text.to_owned(), ..self }
    }

    /// Sets the input text (alias for `input`).
    pub fn user_text(self, text: &str) -> (r: Self)
        ensures
            r == (Gpt5RequestBuilder { input: r.input, ..self }),
            r.input@ == text@,
    {
        self.input(text)
    }

    /// Enables or disables web search assistance, keeping any other
    /// accumulated web search preferences.
    pub fn web_search_enabled(self, enabled: bool) -> (r: Self)
        ensures
            r == (Gpt5RequestBuilder { web_search: r.web_search, ..self }),
            r.web_search == (Some(WebSearchConfig { enabled, ..ws_or_default(self) })),
    {
        let config = match self.web_search {
            Some(c) => WebSearchConfig { enabled, ..c },
            None => WebSearchConfig { enabled, ..Default::default() },
        };
        Gpt5RequestBuilder { web_search: Some(config), ..self }
    }

    /// Suggests a query for the web search tool; implies enabling it.
    pub fn web_search_query(self, query: &str) -> (r: Self)
        ensures
            r == (Gpt5RequestBuilder { web_search: r.web_search, ..self }),
            ({
                &&& r.web_search matches Some(c)
                &&& c == (WebSearchConfig { enabled: true, query: c.query, ..ws_or_default(self) })
                &&& c.query matches Some(q)
                &&& q@ == query@
            }),
    {
        let config = match self.web_search {
            Some(c) => WebSearchConfig { enabled: true, query: Some(query.to_owned()), ..c },
            None => WebSearchConfig {
                enabled: true,
                query: Some(query.to_owned()),
                ..Default::default()
            },
        };
        Gpt5RequestBuilder { web_search: Some(config), ..self }
    }

    /// Caps how many search results should be returned when fulfilling
    /// the tool call; implies enabling web search.
    pub fn web_search_max_results(self, max_results: u8) -> (r: Self)
        ensures
            r == (Gpt5RequestBuilder { web_search: r.web_search, ..self }),
            r.web_search == (Some(WebSearchConfig {
                enabled: true,
                max_results: Some(max_results),
                ..ws_or_default(self)
            })),
    {
        let config = match self.web_search {
            Some(c) => WebSearchConfig { enabled: true, max_results: Some(max_results), ..c },
            None => WebSearchConfig {
                enabled: true,
                max_results: Some(max_results),
                ..Default::default()
            },
        };
        Gpt5RequestBuilder { web_search: Some(config), ..self }
    }

    /// Sets the system instructions.
    pub fn instructions(self, instructions: &str) -> (r: Self)
        ensures
            r == (Gpt5RequestBuilder { instructions: r.instructions, ..self }),
            r.instructions matches Some(s) && s@ == instructions@,
    {
        Gpt5RequestBuilder { instructions: Some(instructions.to_owned()), ..self }
    }

    /// Sets the tool list, replacing any earlier one.
    pub fn tools(self, tools: Vec<Tool>) -> (r: Self)
        ensures
            r == (Gpt5RequestBuilder { tools: r.tools, ..self }),
            r.tools == Some(tools),
    {
        Gpt5RequestBuilder { tools: Some(tools), ..self }
    }

    /// Sets the tool choice strategy ("auto", "none", or a tool name).
    pub fn tool_choice(self, choice: &str) -> (r: Self)
        ensures
            r == (Gpt5RequestBuilder { tool_choice: r.tool_choice, ..self }),
            r.tool_choice matches Some(s) && s@ == choice@,
    {
        Gpt5RequestBuilder { tool_choice: Some(choice.to_owned()), ..self }
    }

    /// Sets the reasoning effort level.
    pub fn reasoning_effort(self, effort: ReasoningEffort) -> (r: Self)
        ensures
            r == (Gpt5RequestBuilder { reasoning: r.reasoning, ..self }),
            r.reasoning == Some(RequestReasoning { effort }),
    {
        Gpt5RequestBuilder { reasoning: Some(RequestReasoning { effort }), ..self }
    }

    /// Sets the verbosity level.
    pub fn verbosity(self, level: VerbosityLevel) -> (r: Self)
        ensures
            r == (Gpt5RequestBuilder { text: r.text, ..self }),
            r.text == Some(RequestText { verbosity: Some(level) }),
    {
        Gpt5RequestBuilder { text: Some(RequestText { verbosity: Some(level) }), ..self }
    }

    /// Sets the maximum number of output tokens.
    pub fn max_output_tokens(self, tokens: u32) -> (r: Self)
        ensures
            r == (Gpt5RequestBuilder { max_output_tokens: r.max_output_tokens, ..self }),
            r.max_output_tokens == Some(tokens),
    {
        Gpt5RequestBuilder { max_output_tokens: Some(tokens), ..self }
    }

    /// Sets the top-p sampling value, in thousandths (900 for 0.9).
    pub fn top_p(self, p: u32) -> (r: Self)
        ensures
            r == (Gpt5RequestBuilder { top_p: r.top_p, ..self }),
            r.top_p == Some(p),
    {
        Gpt5RequestBuilder { top_p: Some(p), ..self }
    }

    /// Adds a named parameter; a parameter set earlier under the same
    /// key is overwritten in place, otherwise the pair is appended.
    pub fn param(self, key: &str, value: JsonValue) -> (r: Self)
        ensures
            r == (Gpt5RequestBuilder { parameters: r.parameters, ..self }),
            ({
                let j = key_idx_from(self.parameters@, key@, 0);
                if j >= 0 {
                    r.parameters@ == self.parameters@.update(
                        j,
                        (self.parameters@[j].0, value),
                    )
                } else {
                    &&& r.parameters@.len() == self.parameters@.len() + 1
                    &&& r.parameters@.take(self.parameters@.len() as int) == self.parameters@
                    &&& r.parameters@.last().0@ == key@
                    &&& r.parameters@.last().1 == value
                }
            }),
    {
        let idx = find_key_index(&self.parameters, key);
        proof {
            lemma_key_idx_bounds(self.parameters@, key@, 0);
        }
        let mut b = self;
        match idx {
            Some(i) => {
                let pair = b.parameters.remove(i);
                b.parameters.insert(i, (pair.0, value));
                proof {
                    assert(b.parameters@ =~= self.parameters@.update(
                        i as int,
                        (self.parameters@[i as int].0, value),
                    ));
                }
            },
            None => {
                b.parameters.push((key.to_owned(), value));
                proof {
                    assert(b.parameters@.take(self.parameters@.len() as int)
                        =~= self.parameters@);
                }
            },
        }
        b
    }

    /// The advisory findings for the accumulated state; never blocks
    /// building or sending, the caller decides what to do with them.
    pub fn validate(&self) -> (r: Vec<ValidationWarning>)
        ensures
            r@ == spec_warnings(*self),
    {
        let mut out: Vec<ValidationWarning> = Vec::new();
        if is_blank_exec(self.input.as_str()) {
            out.push(ValidationWarning::EmptyInput);
        }
        proof {
            assert(out@ =~= warn_input(*self));
        }
        match self.max_output_tokens {
            Some(t) => {
                if t < 10 {
                    out.push(ValidationWarning::MaxTokensVeryLow);
                } else if t > 100000 {
                    out.push(ValidationWarning::MaxTokensVeryHigh);
                }
            },
            None => {},
        }
        proof {
            assert(out@ =~= warn_input(*self) + warn_max_tokens(*self));
        }
        match self.top_p {
            Some(p) => {
                if p > 1000 {
                    out.push(ValidationWarning::TopPOutOfRange);
                }
            },
            None => {},
        }
        proof {
            assert(out@ =~= warn_input(*self) + warn_max_tokens(*self) + warn_top_p(*self));
        }
        match (&self.reasoning, &self.text) {
            (Some(rr), Some(t)) => match (&rr.effort, &t.verbosity) {
                (ReasoningEffort::High, Some(VerbosityLevel::Low)) => {
                    out.push(ValidationWarning::HighEffortLowVerbosity);
                },
                (ReasoningEffort::Low, Some(VerbosityLevel::High)) => {
                    out.push(ValidationWarning::LowEffortHighVerbosity);
                },
                _ => {},
            },
            _ => {},
        }
        proof {
            assert(out@ =~= warn_input(*self) + warn_max_tokens(*self) + warn_top_p(*self)
                + warn_mismatch(*self));
        }
        match &self.web_search {
            Some(c) => {
                if c.max_results == Some(0u8) {
                    out.push(ValidationWarning::ZeroWebSearchResults);
                }
            },
            None => {},
        }
        proof {
            assert(out@ =~= warn_input(*self) + warn_max_tokens(*self) + warn_top_p(*self)
                + warn_mismatch(*self) + warn_web_search(*self));
        }
        match &self.tools {
            Some(ts) => {
                if ts.len() == 0 {
                    out.push(ValidationWarning::EmptyToolList);
                }
            },
            None => {},
        }
        proof {
            assert(out@ =~= spec_warnings(*self));
        }
        out
    }

    /// Builds the request.
    ///
    /// The explicit tool list is kept in order; if the web search
    /// intent ended up enabled and no web-search tool is present, a
    /// synthesized entry is appended; an empty list is omitted. The
    /// enabled intent record is retained on the request for the caller.
    /// Validation is advisory and never blocks building: the findings
    /// are those of [`Gpt5RequestBuilder::validate`], and the caller
    /// decides whether to log, ignore, or act on them.
    pub fn build(self) -> (r: Gpt5Request)
        ensures
            r.model@ == model_wire(self.model),
            r.input == self.input,
            r.reasoning == self.reasoning,
            r.tool_choice == self.tool_choice,
            r.max_output_tokens == self.max_output_tokens,
            r.top_p == self.top_p,
            r.text == self.text,
            r.instructions == self.instructions,
            r.parameters == self.parameters,
            build_tools_ok(self, r.tools),
            r.web_search_config == built_ws(self),
    {
        let model_str = self.model.as_str().to_owned();
        let Gpt5RequestBuilder {
            model: _,
            input,
            reasoning,
            tools,
            tool_choice,
            max_output_tokens,
            top_p,
            text,
            instructions,
            web_search,
            parameters,
        } = self;

        let mut tools_vec = match tools {
            Some(t) => t,
            None => Vec::new(),
        };
        let mut web_search_config: Option<WebSearchConfig> = None;

        match web_search {
            Some(config) => {
                if config.enabled {
                    let already = contains_web_search(&tools_vec);
                    if !already {
                        tools_vec.push(
                            Tool {
                                tool_type: "web_search".to_owned(),
                                name: None,
                                description: None,
                                parameters: None,
                            },
                        );
                        proof {
                            assert(tools_vec@.take(base_tools(self).len() as int) =~= base_tools(
                                self,
                            ));
                        }
                    }
                    web_search_config = Some(config);
                }
            },
            None => {},
        }

        let tools_out = if tools_vec.len() == 0 {
            None
        } else {
            proof {
                assert(tools_vec@.take(base_tools(self).len() as int) =~= base_tools(self));
            }
            Some(tools_vec)
        };

        Gpt5Request {
            model: model_str,
            input,
            reasoning,
            tools: tools_out,
            tool_choice,
            max_output_tokens,
            top_p,
            text,
            instructions,
            web_search_config,
            parameters,
        }
    }
}

proof fn lemma_key_idx_bounds(ps: Seq<(String, JsonValue)>, k: Seq<char>, i: int)
    requires
        0 <= i,
    ensures
        ({
            let j = key_idx_from(ps, k, i);
            j >= 0 ==> i <= j < ps.len() && ps[j].0@ == k
        }),
    decreases ps.len() - i,
{
    if i < ps.len() && ps[i].0@ != k {
        lemma_key_idx_bounds(ps, k, i + 1);
    }
}

/// The position of the first pair whose key reads `key`, if any.
fn find_key_index(ps: &Vec<(String, JsonValue)>, key: &str) -> (r: Option<usize>)
    ensures
        ({
            let j = key_idx_from(ps@, key@, 0);
            if j >= 0 {
                r == Some(j as usize)
            } else {
                r is None
            }
        }),
{
    let n = ps.len();
    let mut i: usize = 0;
    while i < n
        invariant
            n == ps@.len(),
            0 <= i <= n,
            key_idx_from(ps@, key@, 0) == key_idx_from(ps@, key@, i as int),
        decreases n - i,
    {
        if str_eq(ps[i].0.as_str(), key) {
            return Some(i);
        }
        i += 1;
    }
    None
}

/// Whether some tool of the list is of the web-search kind.
fn contains_web_search(ts: &Vec<Tool>) -> (r: bool)
    ensures
        r == has_web_search_tool(ts@),
{
    let n = ts.len();
    let mut i: usize = 0;
    while i < n
        invariant
            n == ts@.len(),
            0 <= i <= n,
            forall|j: int| 0 <= j < i ==> !is_web_search_tool(#[trigger] ts@[j]),
        decreases n - i,
    {
        if str_eq(ts[i].tool_type.as_str(), "web_search") {
            return true;
        }
        i += 1;
    }
    false
}

/// One advisory finding of the builder's validation.
#[derive(Debug, Clone, Copy, PartialEq, Eq, Structural)]
pub enum ValidationWarning {
    /// The input is empty or all whitespace and may produce no response
    EmptyInput,
    /// The output token bound is very low; the response may be truncated
    MaxTokensVeryLow,
    /// The output token bound is very high; the request may be expensive
    MaxTokensVeryHigh,
    /// The top-p value lies outside the meaningful range
    TopPOutOfRange,
    /// High reasoning effort with low verbosity may not produce detailed output
    HighEffortLowVerbosity,
    /// Low reasoning effort with high verbosity may not produce the expected detail
    LowEffortHighVerbosity,
    /// A zero web search result cap means search results will be ignored
    ZeroWebSearchResults,
    /// An explicitly empty tool list was provided
    EmptyToolList,
}

/// Whether a character counts as blank space for the empty-input check.
pub open spec fn is_space(c: char) -> bool {
    c == ' ' || c == '\t' || c == '\n' || c == '\r' || c == '\u{b}' || c == '\u{c}'
}

/// Whether a string holds nothing but blank space.
pub open spec fn is_blank(s: Seq<char>) -> bool {
    forall|i: int| 0 <= i < s.len() ==> is_space(s[i])
}

fn is_blank_exec(s: &str) -> (r: bool)
    ensures
        r == is_blank(s@),
{
    let n = s.unicode_len();
    let mut i: usize = 0;
    while i < n
        invariant
            n == s@.len(),
            0 <= i <= n,
            forall|j: int| 0 <= j < i ==> is_space(s@[j]),
        decreases n - i,
    {
        let c = s.get_char(i);
        if !(c == ' ' || c == '\t' || c == '\n' || c == '\r' || c == '\u{b}' || c == '\u{c}') {
            return false;
        }
        i += 1;
    }
    true
}

/// The finding for blank input, if any.
pub open spec fn warn_input(b: Gpt5RequestBuilder) -> Seq<ValidationWarning> {
    if is_blank(b.input@) {
        seq![ValidationWarning::EmptyInput]
    } else {
        Seq::empty()
    }
}

/// The finding for an extreme output token bound, if any.
pub open spec fn warn_max_tokens(b: Gpt5RequestBuilder) -> Seq<ValidationWarning> {
    match b.max_output_tokens {
        Some(t) => if t < 10 {
            seq![ValidationWarning::MaxTokensVeryLow]
        } else if t > 100000 {
            seq![ValidationWarning::MaxTokensVeryHigh]
        } else {
            Seq::empty()
        },
        None => Seq::empty(),
    }
}

/// The finding for an out-of-range top-p value, if any.
pub open spec fn warn_top_p(b: Gpt5RequestBuilder) -> Seq<ValidationWarning> {
    match b.top_p {
        Some(p) => if p > 1000 {
            seq![ValidationWarning::TopPOutOfRange]
        } else {
            Seq::empty()
        },
        None => Seq::empty(),
    }
}

/// The finding for a mismatched effort/verbosity pairing, if any.
pub open spec fn warn_mismatch(b: Gpt5RequestBuilder) -> Seq<ValidationWarning> {
    if b.reasoning is Some && b.text is Some && b.reasoning->Some_0.effort is High
        && b.text->Some_0.verbosity is Some && b.text->Some_0.verbosity->Some_0 is Low {
        seq![ValidationWarning::HighEffortLowVerbosity]
    } else if b.reasoning is Some && b.text is Some && b.reasoning->Some_0.effort is Low
        && b.text->Some_0.verbosity is Some && b.text->Some_0.verbosity->Some_0 is High {
        seq![ValidationWarning::LowEffortHighVerbosity]
    } else {
        Seq::empty()
    }
}

/// The finding for a zero web search result cap, if any.
pub open spec fn warn_web_search(b: Gpt5RequestBuilder) -> Seq<ValidationWarning> {
    if b.web_search is Some && b.web_search->Some_0.max_results == Some(0u8) {
        seq![ValidationWarning::ZeroWebSearchResults]
    } else {
        Seq::empty()
    }
}

/// The finding for an explicitly empty tool list, if any.
pub open spec fn warn_tools(b: Gpt5RequestBuilder) -> Seq<ValidationWarning> {
    if b.tools is Some && b.tools->Some_0@.len() == 0 {
        seq![ValidationWarning::EmptyToolList]
    } else {
        Seq::empty()
    }
}

/// The advisory findings for a builder state, in the order checked:
/// blank input, token bound extremes, top-p range, effort/verbosity
/// mismatch, zero search result cap, empty tool list.
pub open spec fn spec_warnings(b: Gpt5RequestBuilder) -> Seq<ValidationWarning> {
    warn_input(b) + warn_max_tokens(b) + warn_top_p(b) + warn_mismatch(b) + warn_web_search(b)
        + warn_tools(b)
}

// ---------------------------------------------------------------------
// Serialization to the wire form
// ---------------------------------------------------------------------
/// One when the option is set, zero otherwise: the room a field takes
/// in the serialized object.
pub open spec fn opt_len<T>(o: Option<T>) -> int {
    if o is Some {
        1
    } else {
        0
    }
}

/// How a reasoning configuration appears on the wire: an object with
/// the single member `effort` holding the effort's wire string.
pub open spec fn reasoning_json_rel(rr: RequestReasoning, v: JsonValue) -> bool {
    &&& v matches JsonValue::Obj(ms)
    &&& ms@.len() == 1
    &&& ms@[0].0@ == "effort"@
    &&& (ms@[0].1 matches JsonValue::Str(x) && x@ == effort_wire(rr.effort))
}

/// How a text configuration appears on the wire: an object carrying
/// `verbosity` when set, empty otherwise.
pub open spec fn text_json_rel(t: RequestText, v: JsonValue) -> bool {
    &&& v matches JsonValue::Obj(ms)
    &&& (match t.verbosity {
        Some(lvl) => ms@.len() == 1 && ms@[0].0@ == "verbosity"@ && (ms@[0].1
            matches JsonValue::Str(x) && x@ == verbosity_wire(lvl)),
        None => ms@.len() == 0,
    })
}

/// How a tool appears on the wire: `type` first, then each optional
/// field exactly when set, in declaration order.
pub open spec fn tool_json_rel(t: Tool, v: JsonValue) -> bool {
    let p_desc = 1 + opt_len(t.name);
    let p_params = p_desc + opt_len(t.description);
    &&& v matches JsonValue::Obj(ms)
    &&& ms@.len() == p_params + opt_len(t.parameters)
    &&& ms@[0].0@ == "type"@
    &&& (ms@[0].1 matches JsonValue::Str(x) && x@ == t.tool_type@)
    &&& (t.name matches Some(nm) ==> ms@[1].0@ == "name"@ && (ms@[1].1 matches JsonValue::Str(x)
        && x@ == nm@))
    &&& (t.description matches Some(d) ==> ms@[p_desc].0@ == "description"@ && (ms@[p_desc].1
        matches JsonValue::Str(x) && x@ == d@))
    &&& (t.parameters matches Some(p) ==> ms@[p_params].0@ == "parameters"@ && jv_equiv(
        ms@[p_params].1,
        p,
    ))
}

/// How a tool list appears on the wire: one object per tool, in order.
pub open spec fn tools_json_rel(ts: Seq<Tool>, arr: Seq<JsonValue>) -> bool {
    &&& arr.len() == ts.len()
    &&& (forall|i: int| 0 <= i < ts.len() ==> tool_json_rel(ts[i], #[trigger] arr[i]))
}

/// How a request's serialized object relates to the request: `model`
/// and `input` first, then each optional field exactly when set, in
/// declaration order, then the extra parameters in insertion order.
/// Absent fields take no member at all.
pub open spec fn request_members_rel(req: Gpt5Request, s: Seq<(String, JsonValue)>) -> bool {
    let p_reasoning = 2int;
    let p_tools = p_reasoning + opt_len(req.reasoning);
    let p_choice = p_tools + opt_len(req.tools);
    let p_max = p_choice + opt_len(req.tool_choice);
    let p_top = p_max + opt_len(req.max_output_tokens);
    let p_text = p_top + opt_len(req.top_p);
    let p_instr = p_text + opt_len(req.text);
    let p_params = p_instr + opt_len(req.instructions);
    &&& s.len() == p_params + req.parameters@.len()
    &&& s[0].0@ == "model"@
    &&& (s[0].1 matches JsonValue::Str(x) && x@ == req.model@)
    &&& s[1].0@ == "input"@
    &&& (s[1].1 matches JsonValue::Str(x) && x@ == req.input@)
    &&& (req.reasoning matches Some(rr) ==> s[p_reasoning].0@ == "reasoning"@
        && reasoning_json_rel(rr, s[p_reasoning].1))
    &&& (req.tools matches Some(ts) ==> s[p_tools].0@ == "tools"@ && (s[p_tools].1
        matches JsonValue::Arr(ta) && tools_json_rel(ts@, ta@)))
    &&& (req.tool_choice matches Some(c) ==> s[p_choice].0@ == "tool_choice"@ && (s[p_choice].1
        matches JsonValue::Str(x) && x@ == c@))
    &&& (req.max_output_tokens matches Some(t) ==> s[p_max].0@ == "max_output_tokens"@
        && (s[p_max].1 matches JsonValue::Num(x) && x@ == spec_dec(t as nat)))
    &&& (req.top_p matches Some(p) ==> s[p_top].0@ == "top_p"@ && (s[p_top].1
        matches JsonValue::Num(x) && x@ == spec_permille(p as nat)))
    &&& (req.text matches Some(t) ==> s[p_text].0@ == "text"@ && text_json_rel(t, s[p_text].1))
    &&& (req.instructions matches Some(ins) ==> s[p_instr].0@ == "instructions"@ && (s[p_instr].1
        matches JsonValue::Str(x) && x@ == ins@))
    &&& (forall|i: int|
        0 <= i < req.parameters@.len() ==> (#[trigger] s[p_params + i]).0@
            == req.parameters@[i].0@ && jv_equiv(s[p_params + i].1, req.parameters@[i].1))
}

/// How a request's wire document relates to the request.
pub open spec fn request_json_rel(req: Gpt5Request, j: JsonValue) -> bool {
    j matches JsonValue::Obj(ms) && request_members_rel(req, ms@)
}

fn reasoning_to_json(rr: &RequestReasoning) -> (r: JsonValue)
    ensures
        reasoning_json_rel(*rr, r),
{
    let mut ms: Vec<(String, JsonValue)> = Vec::new();
    ms.push(("effort".to_owned(), JsonValue::Str(rr.effort.as_wire().to_owned())));
    JsonValue::Obj(ms)
}

fn text_to_json(t: &RequestText) -> (r: JsonValue)
    ensures
        text_json_rel(*t, r),
{
    let mut ms: Vec<(String, JsonValue)> = Vec::new();
    match &t.verbosity {
        Some(lvl) => {
            ms.push(("verbosity".to_owned(), JsonValue::Str(lvl.as_wire().to_owned())));
        },
        None => {},
    }
    JsonValue::Obj(ms)
}

fn tool_to_json(t: &Tool) -> (r: JsonValue)
    ensures
        tool_json_rel(*t, r),
{
    let mut ms: Vec<(String, JsonValue)> = Vec::new();
    ms.push(("type".to_owned(), JsonValue::Str(t.tool_type.clone())));
    match &t.name {
        Some(nm) => {
            ms.push(("name".to_owned(), JsonValue::Str(nm.clone())));
        },
        None => {},
    }
    match &t.description {
        Some(d) => {
            ms.push(("description".to_owned(), JsonValue::Str(d.clone())));
        },
        None => {},
    }
    match &t.parameters {
        Some(p) => {
            ms.push(("parameters".to_owned(), p.duplicate()));
        },
        None => {},
    }
    JsonValue::Obj(ms)
}

fn tools_to_json(ts: &Vec<Tool>) -> (r: Vec<JsonValue>)
    ensures
        tools_json_rel(ts@, r@),
{
    let mut out: Vec<JsonValue> = Vec::new();
    let n = ts.len();
    let mut i: usize = 0;
    while i < n
        invariant
            n == ts@.len(),
            0 <= i <= n,
            out@.len() == i,
            forall|j: int| 0 <= j < i ==> tool_json_rel(ts@[j], #[trigger] out@[j]),
        decreases n - i,
    {
        out.push(tool_to_json(&ts[i]));
        i += 1;
    }
    out
}

impl Gpt5Request {
    /// The wire document for this request: absent optional fields are
    /// omitted entirely, never emitted as null.
    pub fn to_json(&self) -> (r: JsonValue)
        ensures
            request_json_rel(*self, r),
    {
        let mut ms: Vec<(String, JsonValue)> = Vec::new();
        ms.push(("model".to_owned(), JsonValue::Str(self.model.clone())));
        ms.push(("input".to_owned(), JsonValue::Str(self.input.clone())));
        match &self.reasoning {
            Some(rr) => {
                ms.push(("reasoning".to_owned(), reasoning_to_json(rr)));
            },
            None => {},
        }
        match &self.tools {
            Some(ts) => {
                ms.push(("tools".to_owned(), JsonValue::Arr(tools_to_json(ts))));
            },
            None => {},
        }
        match &self.tool_choice {
            Some(c) => {
                ms.push(("tool_choice".to_owned(), JsonValue::Str(c.clone())));
            },
            None => {},
        }
        match self.max_output_tokens {
            Some(t) => {
                ms.push(("max_output_tokens".to_owned(), JsonValue::Num(u64_to_dec(t as u64))));
            },
            None => {},
        }
        match self.top_p {
            Some(p) => {
                ms.push(("top_p".to_owned(), JsonValue::Num(permille_to_dec(p))));
            },
            None => {},
        }
        match &self.text {
            Some(t) => {
                ms.push(("text".to_owned(), text_to_json(t)));
            },
            None => {},
        }
        match &self.instructions {
            Some(ins) => {
                ms.push(("instructions".to_owned(), JsonValue::Str(ins.clone())));
            },
            None => {},
        }
        let ghost fixed = ms@;
        let n = self.parameters.len();
        let mut i: usize = 0;
        while i < n
            invariant
                n == self.parameters@.len(),
                0 <= i <= n,
                ms@.len() == fixed.len() + i,
                ms@.take(fixed.len() as int) == fixed,
                forall|j: int|
                    0 <= j < i ==> (#[trigger] ms@[fixed.len() + j]).0@
                        == self.parameters@[j].0@ && jv_equiv(
                        ms@[fixed.len() + j].1,
                        self.parameters@[j].1,
                    ),
            decreases n - i,
        {
            let p = &self.parameters[i];
            ms.push((p.0.clone(), p.1.duplicate()));
            proof {
                assert(ms@.take(fixed.len() as int) =~= fixed);
            }
            i += 1;
        }
        proof {
            assert(forall|j: int|
                0 <= j < fixed.len() ==> #[trigger] ms@[j] == fixed[j]) by {
                assert(forall|j: int|
                    0 <= j < fixed.len() ==> #[trigger] ms@[j] == ms@.take(fixed.len() as int)[j]);
            }
            assert(request_members_rel(*self, ms@));
        }
        JsonValue::Obj(ms)
    }

    /// The JSON text of this request, exactly the rendering of its
    /// wire document.
    pub fn to_json_text(&self) -> (r: String)
        ensures
            exists|j: JsonValue| request_json_rel(*self, j) && r@ == json_text(j),
    {
        let j = self.to_json();
        let t = j.to_text();
        proof {
            assert(request_json_rel(*self, j) && t@ == json_text(j));
        }
        t
    }
}

/// Law: a request carrying only model and input serializes to an
/// object with exactly those two members; every absent optional field
/// is omitted from the wire form rather than emitted as null.
pub proof fn lemma_minimal_request_members(req: Gpt5Request, j: JsonValue)
    requires
        req.reasoning is None,
        req.tools is None,
        req.tool_choice is None,
        req.max_output_tokens is None,
        req.top_p is None,
        req.text is None,
        req.instructions is None,
        req.parameters@.len() == 0,
        request_json_rel(req, j),
    ensures
        j matches JsonValue::Obj(ms) && ms@.len() == 2 && ms@[0].0@ == "model"@ && ms@[1].0@
            == "input"@,
{
}

// ---------------------------------------------------------------------
// Laws about building
// ---------------------------------------------------------------------
/// Law: enabling web search (for instance through the query setter
/// alone, which implies enabling) on a builder with no explicit tool
/// list yields exactly one tool, the synthesized web-search entry, and
/// the retained record is the accumulated intent with enabled set.
pub proof fn lemma_web_search_only_tool(b: Gpt5RequestBuilder, req: Gpt5Request)
    requires
        b.tools is None,
        b.web_search matches Some(c) && c.enabled,
        build_tools_ok(b, req.tools),
        req.web_search_config == built_ws(b),
    ensures
        req.tools matches Some(ts) && ts@.len() == 1 && is_web_search_entry(ts@[0]),
        req.web_search_config == b.web_search,
        req.web_search_config matches Some(c) && c.enabled,
{
    assert(base_tools(b) =~= Seq::<Tool>::empty());
    assert(!has_web_search_tool(base_tools(b)));
    assert(built_tools_len(b) == 1);
    let ts = req.tools->Some_0;
    assert(ts@.last() == ts@[0]);
}

/// Law: a builder whose web search intent was explicitly disabled and
/// that has no explicit tool list builds a request with no tool list
/// and no retained web search record.
pub proof fn lemma_web_search_disabled_omitted(b: Gpt5RequestBuilder, req: Gpt5Request)
    requires
        b.tools is None,
        b.web_search matches Some(c) && !c.enabled,
        build_tools_ok(b, req.tools),
        req.web_search_config == built_ws(b),
    ensures
        req.tools is None,
        req.web_search_config is None,
{
    assert(base_tools(b) =~= Seq::<Tool>::empty());
    assert(built_tools_len(b) == 0);
}

/// Law: when the explicit tool list already holds a web-search entry,
/// enabling web search does not duplicate it: the built tool list is
/// the explicit list, unchanged.
pub proof fn lemma_no_duplicate_web_search(b: Gpt5RequestBuilder, req: Gpt5Request)
    requires
        b.tools matches Some(ts) && has_web_search_tool(ts@),
        ws_enabled(b),
        build_tools_ok(b, req.tools),
    ensures
        req.tools matches Some(rt) && rt@ == b.tools->Some_0@,
{
    assert(!ws_appended(b));
    assert(built_tools_len(b) == base_tools(b).len());
    assert(base_tools(b).len() > 0) by {
        assert(has_web_search_tool(base_tools(b)));
    }
    let rt = req.tools->Some_0;
    assert(rt@ =~= base_tools(b));
}

} // verus!

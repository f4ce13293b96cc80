//! Shared semantic value types used by requests and responses.
use vstd::prelude::*;

verus! {

/// An IEEE-754 single-precision value carried by its bit pattern.
///
/// Sampling parameters are floats; the library stores their exact bit patterns and compares
/// them with IEEE equality (`NaN` equals nothing, `+0` equals `-0`).
#[derive(Clone, Copy, Debug, PartialEq, Eq, Structural)]
pub struct FloatBits {
    pub bits: u32,
}

/// Whether a bit pattern encodes a NaN.
pub open spec fn f32_is_nan(bits: u32) -> bool {
    (bits & 0x7f80_0000u32) == 0x7f80_0000u32 && (bits & 0x007f_ffffu32) != 0
}

/// Whether a bit pattern encodes positive or negative zero.
pub open spec fn f32_is_zero(bits: u32) -> bool {
    (bits & 0x7fff_ffffu32) == 0
}

/// IEEE-754 equality of two single-precision values given by their bit patterns.
pub open spec fn f32_eq(a: u32, b: u32) -> bool {
    !f32_is_nan(a) && !f32_is_nan(b) && (a == b || (f32_is_zero(a) && f32_is_zero(b)))
}

/// IEEE-754 equality of two optional floats (`None` equals only `None`).
pub open spec fn opt_f32_eq(a: Option<FloatBits>, b: Option<FloatBits>) -> bool {
    match (a, b) {
        (Some(x), Some(y)) => f32_eq(x.bits, y.bits),
        (None, None) => true,
        _ => false,
    }
}

impl FloatBits {
    /// Wraps a raw `f32` bit pattern.
    pub fn from_bits(bits: u32) -> (r: Self)
        ensures
            r.bits == bits,
    {
        FloatBits { bits }
    }

    /// IEEE-754 equality of two floats.
    pub fn float_eq(&self, other: &FloatBits) -> (r: bool)
        ensures
            r == f32_eq(self.bits, other.bits),
    {
        let a = self.bits;
        let b = other.bits;
        let a_nan = (a & 0x7f80_0000u32) == 0x7f80_0000u32 && (a & 0x007f_ffffu32) != 0;
        let b_nan = (b & 0x7f80_0000u32) == 0x7f80_0000u32 && (b & 0x007f_ffffu32) != 0;
        let a_zero = (a & 0x7fff_ffffu32) == 0;
        let b_zero = (b & 0x7fff_ffffu32) == 0;
        !a_nan && !b_nan && (a == b || (a_zero && b_zero))
    }
}

/// IEEE-754 equality of two optional floats.
pub fn opt_float_eq(a: &Option<FloatBits>, b: &Option<FloatBits>) -> (r: bool)
    ensures
        r == opt_f32_eq(*a, *b),
{
    match (a, b) {
        (Some(x), Some(y)) => x.float_eq(y),
        (None, None) => true,
        _ => false,
    }
}

/// Response-format families shared across normalized backends.
#[derive(Clone, Copy, Debug, PartialEq, Eq, Structural)]
pub enum ResponseFormatType {
    Text,
    JsonObject,
}

/// Structured response-format request.
#[derive(Clone, Copy, Debug, PartialEq, Eq, Structural)]
pub struct ResponseFormat {
    pub kind: ResponseFormatType,
}

/// Stop sequence configuration.
#[derive(Debug, PartialEq)]
pub enum StopSequence {
    Single(String),
    Multiple(Vec<String>),
}

/// Tool families currently normalized by the client layer.
#[derive(Clone, Copy, Debug, PartialEq, Eq, Structural)]
pub enum ToolType {
    Function,
}

/// Callable function schema exposed to the model.
///
/// `parameters` holds the JSON Schema as JSON text.
#[derive(Debug, PartialEq)]
pub struct FunctionDefinition {
    pub name: String,
    pub description: Option<String>,
    pub parameters: Option<String>,
    pub strict: Option<bool>,
}

/// Tool definition passed to the model.
#[derive(Debug, PartialEq)]
pub struct ToolDefinition {
    pub kind: ToolType,
    pub function: FunctionDefinition,
}

/// Named function used in a named tool-choice request.
#[derive(Debug, PartialEq)]
pub struct NamedToolChoiceFunction {
    pub name: String,
}

/// Explicit named tool-choice request.
#[derive(Debug, PartialEq)]
pub struct NamedToolChoice {
    pub kind: ToolType,
    pub function: NamedToolChoiceFunction,
}

/// Common tool-choice modes.
#[derive(Clone, Copy, Debug, PartialEq, Eq, Structural)]
pub enum ToolChoiceMode {
    /// The model must not call tools (wire value `none`).
    Disabled,
    Auto,
    Required,
}

/// Tool choice configuration.
#[derive(Debug, PartialEq)]
pub enum ToolChoice {
    Mode(ToolChoiceMode),
    Named(NamedToolChoice),
}

/// Requested reasoning effort: the union of the levels the built-in providers expose.
#[derive(Clone, Copy, Debug, PartialEq, Eq, Structural)]
pub enum ReasoningEffort {
    Low,
    Medium,
    High,
    Xhigh,
    Max,
}

/// Common completion stop reasons normalized by the client layer.
#[derive(Clone, Copy, Debug, PartialEq, Eq, Structural)]
pub enum FinishReason {
    Stop,
    Length,
    ContentFilter,
    ToolCalls,
    InsufficientSystemResource,
    /// A policy refusal stopped the response.
    Refusal,
    /// Generation hit the model's context-window limit.
    ModelContextWindowExceeded,
    /// A long-running turn was paused; resend the response as-is to continue.
    PauseTurn,
}

/// Additional completion-token details when the provider exposes them.
#[derive(Clone, Copy, Debug, PartialEq, Eq, Structural)]
pub struct CompletionTokensDetails {
    pub reasoning_tokens: Option<u32>,
}

/// Token usage metadata; cache fields are optional because some providers cannot report them.
#[derive(Clone, Copy, Debug, PartialEq, Eq, Structural)]
pub struct Usage {
    pub completion_tokens: u32,
    pub prompt_tokens: u32,
    pub cache_read_tokens: Option<u32>,
    pub cache_write_tokens: Option<u32>,
    pub total_tokens: u32,
    pub completion_tokens_details: Option<CompletionTokensDetails>,
}

// ---------------------------------------------------------------------------
// Views
// ---------------------------------------------------------------------------

pub enum StopSequenceView {
    Single(Seq<char>),
    Multiple(Seq<Seq<char>>),
}

pub struct FunctionDefinitionView {
    pub name: Seq<char>,
    pub description: Option<Seq<char>>,
    pub parameters: Option<Seq<char>>,
    pub strict: Option<bool>,
}

pub struct ToolDefinitionView {
    pub kind: ToolType,
    pub function: FunctionDefinitionView,
}

pub enum ToolChoiceView {
    Mode(ToolChoiceMode),
    Named { kind: ToolType, name: Seq<char> },
}

/// Views a sequence of strings by their characters.
pub open spec fn strings_view(s: Seq<String>) -> Seq<Seq<char>> {
    s.map_values(|x: String| x@)
}

impl View for StopSequence {
    type V = StopSequenceView;

    open spec fn view(&self) -> StopSequenceView {
        match self {
            StopSequence::Single(s) => StopSequenceView::Single(s@),
            StopSequence::Multiple(v) => StopSequenceView::Multiple(strings_view(v@)),
        }
    }
}

impl View for FunctionDefinition {
    type V = FunctionDefinitionView;

    open spec fn view(&self) -> FunctionDefinitionView {
        FunctionDefinitionView {
            name: self.name@,
            description: crate::types::message::opt_str_view(self.description),
            parameters: crate::types::message::opt_str_view(self.parameters),
            strict: self.strict,
        }
    }
}

impl View for ToolDefinition {
    type V = ToolDefinitionView;

    open spec fn view(&self) -> ToolDefinitionView {
        ToolDefinitionView { kind: self.kind, function: self.function@ }
    }
}

/// Views a sequence of tool definitions.
pub open spec fn tools_view(s: Seq<ToolDefinition>) -> Seq<ToolDefinitionView> {
    s.map_values(|t: ToolDefinition| t@)
}

impl View for ToolChoice {
    type V = ToolChoiceView;

    open spec fn view(&self) -> ToolChoiceView {
        match self {
            ToolChoice::Mode(m) => ToolChoiceView::Mode(*m),
            ToolChoice::Named(n) => ToolChoiceView::Named { kind: n.kind, name: n.function.name@ },
        }
    }
}

/// Views an optional stop sequence.
pub open spec fn opt_stop_view(o: Option<StopSequence>) -> Option<StopSequenceView> {
    match o {
        Some(s) => Some(s@),
        None => None,
    }
}

/// Views an optional tool list.
pub open spec fn opt_tools_view(o: Option<Vec<ToolDefinition>>) -> Option<Seq<ToolDefinitionView>> {
    match o {
        Some(v) => Some(tools_view(v@)),
        None => None,
    }
}

/// Views an optional tool choice.
pub open spec fn opt_choice_view(o: Option<ToolChoice>) -> Option<ToolChoiceView> {
    match o {
        Some(c) => Some(c@),
        None => None,
    }
}

// ---------------------------------------------------------------------------
// Clone and comparison
// ---------------------------------------------------------------------------

/// Clones a vector of strings, keeping its view.
pub fn clone_strings(v: &Vec<String>) -> (r: Vec<String>)
    ensures
        strings_view(r@) == strings_view(v@),
{
    let mut out: Vec<String> = Vec::new();
    let mut i: usize = 0;
    while i < v.len()
        invariant
            i <= v.len(),
            out@.len() == i,
            forall|j: int| 0 <= j < i ==> #[trigger] out@[j]@ == v@[j]@,
        decreases v.len() - i,
    {
        out.push(v[i].clone());
        i = i + 1;
    }
    assert(strings_view(out@) =~= strings_view(v@));
    out
}

/// Compares two string vectors by their views.
pub fn strings_eq(a: &Vec<String>, b: &Vec<String>) -> (r: bool)
    ensures
        r == (strings_view(a@) == strings_view(b@)),
{
    if a.len() != b.len() {
        assert(strings_view(a@).len() != strings_view(b@).len());
        return false;
    }
    let mut i: usize = 0;
    while i < a.len()
        invariant
            i <= a.len(),
            a.len() == b.len(),
            forall|j: int| 0 <= j < i ==> #[trigger] a@[j]@ == b@[j]@,
        decreases a.len() - i,
    {
        if a[i] != b[i] {
            assert(strings_view(a@)[i as int] != strings_view(b@)[i as int]);
            return false;
        }
        i = i + 1;
    }
    assert(strings_view(a@) =~= strings_view(b@));
    true
}

impl Clone for StopSequence {
    fn clone(&self) -> (r: Self)
        ensures
            r@ == self@,
    {
        match self {
            StopSequence::Single(s) => StopSequence::Single(s.clone()),
            StopSequence::Multiple(v) => StopSequence::Multiple(clone_strings(v)),
        }
    }
}

impl StopSequence {
    /// Compares two stop configurations by their views.
    pub fn same_as(&self, other: &StopSequence) -> (r: bool)
        ensures
            r == (self@ == other@),
    {
        match (self, other) {
            (StopSequence::Single(a), StopSequence::Single(b)) => *a == *b,
            (StopSequence::Multiple(a), StopSequence::Multiple(b)) => strings_eq(a, b),
            _ => false,
        }
    }
}

impl Clone for FunctionDefinition {
    fn clone(&self) -> (r: Self)
        ensures
            r@ == self@,
    {
        FunctionDefinition {
            name: self.name.clone(),
            description: crate::types::message::clone_opt_str(&self.description),
            parameters: crate::types::message::clone_opt_str(&self.parameters),
            strict: self.strict,
        }
    }
}

impl Clone for ToolDefinition {
    fn clone(&self) -> (r: Self)
        ensures
            r@ == self@,
    {
        ToolDefinition { kind: self.kind, function: self.function.clone() }
    }
}

impl ToolDefinition {
    /// Compares two tool definitions by their views.
    pub fn same_as(&self, other: &ToolDefinition) -> (r: bool)
        ensures
            r == (self@ == other@),
    {
        let strict = match (self.function.strict, other.function.strict) {
            (Some(a), Some(b)) => a == b,
            (None, None) => true,
            _ => false,
        };
        self.kind == other.kind && self.function.name == other.function.name
            && crate::types::message::opt_str_eq(
            &self.function.description,
            &other.function.description,
        ) && crate::types::message::opt_str_eq(&self.function.parameters, &other.function.parameters)
            && strict
    }
}

/// Clones a vector of tool definitions, keeping its view.
pub fn clone_tools(v: &Vec<ToolDefinition>) -> (r: Vec<ToolDefinition>)
    ensures
        tools_view(r@) == tools_view(v@),
{
    let mut out: Vec<ToolDefinition> = Vec::new();
    let mut i: usize = 0;
    while i < v.len()
        invariant
            i <= v.len(),
            out@.len() == i,
            forall|j: int| 0 <= j < i ==> #[trigger] out@[j]@ == v@[j]@,
        decreases v.len() - i,
    {
        out.push(v[i].clone());
        i = i + 1;
    }
    assert(tools_view(out@) =~= tools_view(v@));
    out
}

/// Compares two tool-definition vectors by their views.
pub fn tools_eq(a: &Vec<ToolDefinition>, b: &Vec<ToolDefinition>) -> (r: bool)
    ensures
        r == (tools_view(a@) == tools_view(b@)),
{
    if a.len() != b.len() {
        assert(tools_view(a@).len() != tools_view(b@).len());
        return false;
    }
    let mut i: usize = 0;
    while i < a.len()
        invariant
            i <= a.len(),
            a.len() == b.len(),
            forall|j: int| 0 <= j < i ==> #[trigger] a@[j]@ == b@[j]@,
        decreases a.len() - i,
    {
        if !a[i].same_as(&b[i]) {
            assert(tools_view(a@)[i as int] != tools_view(b@)[i as int]);
            return false;
        }
        i = i + 1;
    }
    assert(tools_view(a@) =~= tools_view(b@));
    true
}

impl Clone for ToolChoice {
    fn clone(&self) -> (r: Self)
        ensures
            r@ == self@,
    {
        match self {
            ToolChoice::Mode(m) => ToolChoice::Mode(*m),
            ToolChoice::Named(n) => ToolChoice::Named(
                NamedToolChoice {
                    kind: n.kind,
                    function: NamedToolChoiceFunction { name: n.function.name.clone() },
                },
            ),
        }
    }
}

impl ToolChoice {
    /// Compares two tool choices by their views.
    pub fn same_as(&self, other: &ToolChoice) -> (r: bool)
        ensures
            r == (self@ == other@),
    {
        match (self, other) {
            (ToolChoice::Mode(a), ToolChoice::Mode(b)) => *a == *b,
            (ToolChoice::Named(a), ToolChoice::Named(b)) => a.kind == b.kind && a.function.name
                == b.function.name,
            _ => false,
        }
    }
}

} // verus!

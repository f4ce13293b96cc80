//! Semantic message types.
//!
//! These are protocol-neutral client-facing types: no wire shape is privileged. Each type has a
//! mathematical view (strings become `Seq<char>`, vectors become sequences of views), and the
//! contracts of the library speak of those views.
use vstd::prelude::*;

verus! {

/// Views an optional string by its characters.
pub open spec fn opt_str_view(o: Option<String>) -> Option<Seq<char>> {
    match o {
        Some(s) => Some(s@),
        None => None,
    }
}

/// Clones an optional string, keeping its view.
pub fn clone_opt_str(o: &Option<String>) -> (r: Option<String>)
    ensures
        opt_str_view(r) == opt_str_view(*o),
{
    match o {
        Some(s) => Some(s.clone()),
        None => None,
    }
}

/// Compares two optional strings by their characters.
pub fn opt_str_eq(a: &Option<String>, b: &Option<String>) -> (r: bool)
    ensures
        r == (opt_str_view(*a) == opt_str_view(*b)),
{
    match (a, b) {
        (Some(x), Some(y)) => *x == *y,
        (None, None) => true,
        _ => false,
    }
}

/// Message text content: a plain string, or an array of content parts (multimodal).
#[derive(Debug, PartialEq)]
pub enum MessageContent {
    Text(String),
    Parts(Vec<ContentPart>),
}

/// A single multimodal content part carried by a user/system message.
#[derive(Debug, PartialEq)]
pub enum ContentPart {
    Text { text: String },
    Image { source: ImageSource, detail: Option<ImageDetail> },
}

/// Where the pixels of an image content part come from.
#[derive(Debug, PartialEq)]
pub enum ImageSource {
    Url { url: String },
    Base64 { data: String, media_type: String },
    FileId { file_id: String },
}

/// Rendering detail hint for an image input; unrecognized values are preserved verbatim.
#[derive(Debug, PartialEq)]
pub enum ImageDetail {
    Auto,
    Low,
    High,
    Original,
    Unknown(String),
}

/// Assistant message emitted by the model.
#[derive(Debug, PartialEq)]
pub struct AssistantMessage {
    pub content: Option<String>,
    pub tool_calls: Vec<ToolCall>,
    pub reasoning: Option<Reasoning>,
}

/// Model-initiated tool invocation, flattened across protocols to `(id, name, arguments)`.
#[derive(Debug, PartialEq)]
pub struct ToolCall {
    pub id: String,
    pub name: String,
    pub arguments: String,
}

/// Reasoning emitted alongside an assistant message, with protocol fidelity carriers.
#[derive(Debug, PartialEq)]
pub struct Reasoning {
    pub text: Option<String>,
    pub id: Option<String>,
    pub encrypted: Option<String>,
    pub signature: Option<String>,
    pub redacted: Option<String>,
}

/// One message in the conversation, discriminated by role.
///
/// System messages must occupy the leading block of the message list.
#[derive(Debug, PartialEq)]
pub enum Message {
    System { content: MessageContent },
    User { content: MessageContent },
    Assistant(AssistantMessage),
    Tool { tool_call_id: String, content: String },
}

// ---------------------------------------------------------------------------
// Views
// ---------------------------------------------------------------------------

pub enum MessageContentView {
    Text(Seq<char>),
    Parts(Seq<ContentPartView>),
}

pub enum ContentPartView {
    Text { text: Seq<char> },
    Image { source: ImageSourceView, detail: Option<ImageDetailView> },
}

pub enum ImageSourceView {
    Url { url: Seq<char> },
    Base64 { data: Seq<char>, media_type: Seq<char> },
    FileId { file_id: Seq<char> },
}

pub enum ImageDetailView {
    Auto,
    Low,
    High,
    Original,
    Unknown(Seq<char>),
}

pub struct AssistantMessageView {
    pub content: Option<Seq<char>>,
    pub tool_calls: Seq<ToolCallView>,
    pub reasoning: Option<ReasoningView>,
}

pub struct ToolCallView {
    pub id: Seq<char>,
    pub name: Seq<char>,
    pub arguments: Seq<char>,
}

pub struct ReasoningView {
    pub text: Option<Seq<char>>,
    pub id: Option<Seq<char>>,
    pub encrypted: Option<Seq<char>>,
    pub signature: Option<Seq<char>>,
    pub redacted: Option<Seq<char>>,
}

pub enum MessageView {
    System { content: MessageContentView },
    User { content: MessageContentView },
    Assistant(AssistantMessageView),
    Tool { tool_call_id: Seq<char>, content: Seq<char> },
}

impl View for ImageSource {
    type V = ImageSourceView;

    open spec fn view(&self) -> ImageSourceView {
        match self {
            ImageSource::Url { url } => ImageSourceView::Url { url: url@ },
            ImageSource::Base64 { data, media_type } => ImageSourceView::Base64 {
                data: data@,
                media_type: media_type@,
            },
            ImageSource::FileId { file_id } => ImageSourceView::FileId { file_id: file_id@ },
        }
    }
}

impl View for ImageDetail {
    type V = ImageDetailView;

    open spec fn view(&self) -> ImageDetailView {
        match self {
            ImageDetail::Auto => ImageDetailView::Auto,
            ImageDetail::Low => ImageDetailView::Low,
            ImageDetail::High => ImageDetailView::High,
            ImageDetail::Original => ImageDetailView::Original,
            ImageDetail::Unknown(s) => ImageDetailView::Unknown(s@),
        }
    }
}

/// Views an optional image detail.
pub open spec fn opt_detail_view(o: Option<ImageDetail>) -> Option<ImageDetailView> {
    match o {
        Some(d) => Some(d@),
        None => None,
    }
}

impl View for ContentPart {
    type V = ContentPartView;

    open spec fn view(&self) -> ContentPartView {
        match self {
            ContentPart::Text { text } => ContentPartView::Text { text: text@ },
            ContentPart::Image { source, detail } => ContentPartView::Image {
                source: source@,
                detail: opt_detail_view(*detail),
            },
        }
    }
}

/// Views a sequence of content parts.
pub open spec fn parts_view(s: Seq<ContentPart>) -> Seq<ContentPartView> {
    s.map_values(|p: ContentPart| p@)
}

impl View for MessageContent {
    type V = MessageContentView;

    open spec fn view(&self) -> MessageContentView {
        match self {
            MessageContent::Text(s) => MessageContentView::Text(s@),
            MessageContent::Parts(parts) => MessageContentView::Parts(parts_view(parts@)),
        }
    }
}

impl View for ToolCall {
    type V = ToolCallView;

    open spec fn view(&self) -> ToolCallView {
        ToolCallView { id: self.id@, name: self.name@, arguments: self.arguments@ }
    }
}

/// Views a sequence of tool calls.
pub open spec fn calls_view(s: Seq<ToolCall>) -> Seq<ToolCallView> {
    s.map_values(|c: ToolCall| c@)
}

impl View for Reasoning {
    type V = ReasoningView;

    open spec fn view(&self) -> ReasoningView {
        ReasoningView {
            text: opt_str_view(self.text),
            id: opt_str_view(self.id),
            encrypted: opt_str_view(self.encrypted),
            signature: opt_str_view(self.signature),
            redacted: opt_str_view(self.redacted),
        }
    }
}

/// Views an optional reasoning.
pub open spec fn opt_reasoning_view(o: Option<Reasoning>) -> Option<ReasoningView> {
    match o {
        Some(r) => Some(r@),
        None => None,
    }
}

impl View for AssistantMessage {
    type V = AssistantMessageView;

    open spec fn view(&self) -> AssistantMessageView {
        AssistantMessageView {
            content: opt_str_view(self.content),
            tool_calls: calls_view(self.tool_calls@),
            reasoning: opt_reasoning_view(self.reasoning),
        }
    }
}

impl View for Message {
    type V = MessageView;

    open spec fn view(&self) -> MessageView {
        match self {
            Message::System { content } => MessageView::System { content: content@ },
            Message::User { content } => MessageView::User { content: content@ },
            Message::Assistant(a) => MessageView::Assistant(a@),
            Message::Tool { tool_call_id, content } => MessageView::Tool {
                tool_call_id: tool_call_id@,
                content: content@,
            },
        }
    }
}

/// Views a sequence of messages.
pub open spec fn messages_view(s: Seq<Message>) -> Seq<MessageView> {
    s.map_values(|m: Message| m@)
}

// ---------------------------------------------------------------------------
// Clone and comparison
// ---------------------------------------------------------------------------

impl Clone for ImageSource {
    fn clone(&self) -> (r: Self)
        ensures
            r@ == self@,
    {
        match self {
            ImageSource::Url { url } => ImageSource::Url { url: url.clone() },
            ImageSource::Base64 { data, media_type } => ImageSource::Base64 {
                data: data.clone(),
                media_type: media_type.clone(),
            },
            ImageSource::FileId { file_id } => ImageSource::FileId { file_id: file_id.clone() },
        }
    }
}

impl Clone for ImageDetail {
    fn clone(&self) -> (r: Self)
        ensures
            r@ == self@,
    {
        match self {
            ImageDetail::Auto => ImageDetail::Auto,
            ImageDetail::Low => ImageDetail::Low,
            ImageDetail::High => ImageDetail::High,
            ImageDetail::Original => ImageDetail::Original,
            ImageDetail::Unknown(s) => ImageDetail::Unknown(s.clone()),
        }
    }
}

impl Clone for ContentPart {
    fn clone(&self) -> (r: Self)
        ensures
            r@ == self@,
    {
        match self {
            ContentPart::Text { text } => ContentPart::Text { text: text.clone() },
            ContentPart::Image { source, detail } => {
                let d = match detail {
                    Some(d) => Some(d.clone()),
                    None => None,
                };
                ContentPart::Image { source: source.clone(), detail: d }
            },
        }
    }
}

/// Clones a vector of content parts, keeping its view.
pub fn clone_parts(v: &Vec<ContentPart>) -> (r: Vec<ContentPart>)
    ensures
        parts_view(r@) == parts_view(v@),
{
    let mut out: Vec<ContentPart> = Vec::new();
    let mut i: usize = 0;
    while i < v.len()
        invariant
            i <= v.len(),
            out@.len() == i,
            forall|j: int| 0 <= j < i ==> #[trigger] out@[j]@ == v@[j]@,
        decreases v.len() - i,
    {
        out.push(v[i].clone());
        i = i + 1;
    }
    assert(parts_view(out@) =~= parts_view(v@));
    out
}

impl Clone for MessageContent {
    fn clone(&self) -> (r: Self)
        ensures
            r@ == self@,
    {
        match self {
            MessageContent::Text(s) => MessageContent::Text(s.clone()),
            MessageContent::Parts(p) => MessageContent::Parts(clone_parts(p)),
        }
    }
}

impl Clone for ToolCall {
    fn clone(&self) -> (r: Self)
        ensures
            r@ == self@,
    {
        ToolCall { id: self.id.clone(), name: self.name.clone(), arguments: self.arguments.clone() }
    }
}

/// Clones a vector of tool calls, keeping its view.
pub fn clone_calls(v: &Vec<ToolCall>) -> (r: Vec<ToolCall>)
    ensures
        calls_view(r@) == calls_view(v@),
{
    let mut out: Vec<ToolCall> = Vec::new();
    let mut i: usize = 0;
    while i < v.len()
        invariant
            i <= v.len(),
            out@.len() == i,
            forall|j: int| 0 <= j < i ==> #[trigger] out@[j]@ == v@[j]@,
        decreases v.len() - i,
    {
        out.push(v[i].clone());
        i = i + 1;
    }
    assert(calls_view(out@) =~= calls_view(v@));
    out
}

impl Clone for Reasoning {
    fn clone(&self) -> (r: Self)
        ensures
            r@ == self@,
    {
        Reasoning {
            text: clone_opt_str(&self.text),
            id: clone_opt_str(&self.id),
            encrypted: clone_opt_str(&self.encrypted),
            signature: clone_opt_str(&self.signature),
            redacted: clone_opt_str(&self.redacted),
        }
    }
}

impl Clone for AssistantMessage {
    fn clone(&self) -> (r: Self)
        ensures
            r@ == self@,
    {
        let reasoning = match &self.reasoning {
            Some(x) => Some(x.clone()),
            None => None,
        };
        AssistantMessage {
            content: clone_opt_str(&self.content),
            tool_calls: clone_calls(&self.tool_calls),
            reasoning,
        }
    }
}

impl Clone for Message {
    fn clone(&self) -> (r: Self)
        ensures
            r@ == self@,
    {
        match self {
            Message::System { content } => Message::System { content: content.clone() },
            Message::User { content } => Message::User { content: content.clone() },
            Message::Assistant(a) => Message::Assistant(a.clone()),
            Message::Tool { tool_call_id, content } => Message::Tool {
                tool_call_id: tool_call_id.clone(),
                content: content.clone(),
            },
        }
    }
}

/// Clones a vector of messages, keeping its view.
pub fn clone_messages(v: &Vec<Message>) -> (r: Vec<Message>)
    ensures
        messages_view(r@) == messages_view(v@),
{
    let mut out: Vec<Message> = Vec::new();
    let mut i: usize = 0;
    while i < v.len()
        invariant
            i <= v.len(),
            out@.len() == i,
            forall|j: int| 0 <= j < i ==> #[trigger] out@[j]@ == v@[j]@,
        decreases v.len() - i,
    {
        out.push(v[i].clone());
        i = i + 1;
    }
    assert(messages_view(out@) =~= messages_view(v@));
    out
}

impl ImageSource {
    /// Compares two image sources by their views.
    pub fn same_as(&self, other: &ImageSource) -> (r: bool)
        ensures
            r == (self@ == other@),
    {
        match (self, other) {
            (ImageSource::Url { url: a }, ImageSource::Url { url: b }) => *a == *b,
            (
                ImageSource::Base64 { data: a, media_type: ma },
                ImageSource::Base64 { data: b, media_type: mb },
            ) => *a == *b && *ma == *mb,
            (ImageSource::FileId { file_id: a }, ImageSource::FileId { file_id: b }) => *a == *b,
            _ => false,
        }
    }
}

impl ImageDetail {
    /// Compares two detail hints by their views.
    pub fn same_as(&self, other: &ImageDetail) -> (r: bool)
        ensures
            r == (self@ == other@),
    {
        match (self, other) {
            (ImageDetail::Auto, ImageDetail::Auto) => true,
            (ImageDetail::Low, ImageDetail::Low) => true,
            (ImageDetail::High, ImageDetail::High) => true,
            (ImageDetail::Original, ImageDetail::Original) => true,
            (ImageDetail::Unknown(a), ImageDetail::Unknown(b)) => *a == *b,
            _ => false,
        }
    }

    /// The detail hint's wire text; an unrecognized value is carried verbatim.
    pub fn wire_text(&self) -> (r: String)
        ensures
            r@ == image_detail_text(self@),
    {
        match self {
            ImageDetail::Auto => String::from_str("auto"),
            ImageDetail::Low => String::from_str("low"),
            ImageDetail::High => String::from_str("high"),
            ImageDetail::Original => String::from_str("original"),
            ImageDetail::Unknown(value) => value.clone(),
        }
    }

    /// The detail hint a wire text names; an unrecognized text is kept verbatim as `Unknown`.
    pub fn from_wire_text(text: String) -> (r: ImageDetail)
        ensures
            r@ == image_detail_of(text@),
    {
        if text == String::from_str("auto") {
            ImageDetail::Auto
        } else if text == String::from_str("low") {
            ImageDetail::Low
        } else if text == String::from_str("high") {
            ImageDetail::High
        } else if text == String::from_str("original") {
            ImageDetail::Original
        } else {
            ImageDetail::Unknown(text)
        }
    }
}

/// The wire text of a detail hint; an unrecognized value is carried verbatim.
pub open spec fn image_detail_text(d: ImageDetailView) -> Seq<char> {
    match d {
        ImageDetailView::Auto => "auto"@,
        ImageDetailView::Low => "low"@,
        ImageDetailView::High => "high"@,
        ImageDetailView::Original => "original"@,
        ImageDetailView::Unknown(v) => v,
    }
}

/// The detail hint that a wire text names.
pub open spec fn image_detail_of(t: Seq<char>) -> ImageDetailView {
    if t == "auto"@ {
        ImageDetailView::Auto
    } else if t == "low"@ {
        ImageDetailView::Low
    } else if t == "high"@ {
        ImageDetailView::High
    } else if t == "original"@ {
        ImageDetailView::Original
    } else {
        ImageDetailView::Unknown(t)
    }
}

/// Reading a detail hint from its wire text and writing it back gives the same text, so an
/// unrecognized value round-trips verbatim.
pub proof fn law_image_detail_text_round_trips(t: Seq<char>)
    ensures
        image_detail_text(image_detail_of(t)) == t,
{
}

impl ContentPart {
    /// Compares two content parts by their views.
    pub fn same_as(&self, other: &ContentPart) -> (r: bool)
        ensures
            r == (self@ == other@),
    {
        match (self, other) {
            (ContentPart::Text { text: a }, ContentPart::Text { text: b }) => *a == *b,
            (
                ContentPart::Image { source: sa, detail: da },
                ContentPart::Image { source: sb, detail: db },
            ) => {
                let details = match (da, db) {
                    (Some(x), Some(y)) => x.same_as(y),
                    (None, None) => true,
                    _ => false,
                };
                sa.same_as(sb) && details
            },
            _ => false,
        }
    }
}

/// Compares two content-part vectors by their views.
pub fn parts_eq(a: &Vec<ContentPart>, b: &Vec<ContentPart>) -> (r: bool)
    ensures
        r == (parts_view(a@) == parts_view(b@)),
{
    if a.len() != b.len() {
        assert(parts_view(a@).len() != parts_view(b@).len());
        return false;
    }
    let mut i: usize = 0;
    while i < a.len()
        invariant
            i <= a.len(),
            a.len() == b.len(),
            forall|j: int| 0 <= j < i ==> #[trigger] a@[j]@ == b@[j]@,
        decreases a.len() - i,
    {
        if !a[i].same_as(&b[i]) {
            assert(parts_view(a@)[i as int] != parts_view(b@)[i as int]);
            return false;
        }
        i = i + 1;
    }
    assert(parts_view(a@) =~= parts_view(b@));
    true
}

impl MessageContent {
    /// Compares two message contents by their views.
    pub fn same_as(&self, other: &MessageContent) -> (r: bool)
        ensures
            r == (self@ == other@),
    {
        match (self, other) {
            (MessageContent::Text(a), MessageContent::Text(b)) => *a == *b,
            (MessageContent::Parts(a), MessageContent::Parts(b)) => parts_eq(a, b),
            _ => false,
        }
    }
}

impl ToolCall {
    /// Compares two tool calls by their views.
    pub fn same_as(&self, other: &ToolCall) -> (r: bool)
        ensures
            r == (self@ == other@),
    {
        self.id == other.id && self.name == other.name && self.arguments == other.arguments
    }
}

impl Reasoning {
    /// Compares two reasonings by their views.
    pub fn same_as(&self, other: &Reasoning) -> (r: bool)
        ensures
            r == (self@ == other@),
    {
        opt_str_eq(&self.text, &other.text) && opt_str_eq(&self.id, &other.id) && opt_str_eq(
            &self.encrypted,
            &other.encrypted,
        ) && opt_str_eq(&self.signature, &other.signature) && opt_str_eq(
            &self.redacted,
            &other.redacted,
        )
    }
}

/// Compares two tool-call vectors by their views.
pub fn calls_eq(a: &Vec<ToolCall>, b: &Vec<ToolCall>) -> (r: bool)
    ensures
        r == (calls_view(a@) == calls_view(b@)),
{
    if a.len() != b.len() {
        assert(calls_view(a@).len() != calls_view(b@).len());
        return false;
    }
    let mut i: usize = 0;
    while i < a.len()
        invariant
            i <= a.len(),
            a.len() == b.len(),
            forall|j: int| 0 <= j < i ==> #[trigger] a@[j]@ == b@[j]@,
        decreases a.len() - i,
    {
        if !a[i].same_as(&b[i]) {
            assert(calls_view(a@)[i as int] != calls_view(b@)[i as int]);
            return false;
        }
        i = i + 1;
    }
    assert(calls_view(a@) =~= calls_view(b@));
    true
}

impl AssistantMessage {
    /// Compares two assistant messages by their views.
    pub fn same_as(&self, other: &AssistantMessage) -> (r: bool)
        ensures
            r == (self@ == other@),
    {
        let reasoning = match (&self.reasoning, &other.reasoning) {
            (Some(x), Some(y)) => x.same_as(y),
            (None, None) => true,
            _ => false,
        };
        opt_str_eq(&self.content, &other.content) && calls_eq(&self.tool_calls, &other.tool_calls)
            && reasoning
    }
}

impl Message {
    /// Compares two messages by their views.
    pub fn same_as(&self, other: &Message) -> (r: bool)
        ensures
            r == (self@ == other@),
    {
        match (self, other) {
            (Message::System { content: a }, Message::System { content: b }) => a.same_as(b),
            (Message::User { content: a }, Message::User { content: b }) => a.same_as(b),
            (Message::Assistant(a), Message::Assistant(b)) => a.same_as(b),
            (
                Message::Tool { tool_call_id: ia, content: ca },
                Message::Tool { tool_call_id: ib, content: cb },
            ) => *ia == *ib && *ca == *cb,
            _ => false,
        }
    }
}


impl Message {
    /// Creates a system message.
    pub fn system(content: &str) -> (r: Self)
        ensures
            r@ == (MessageView::System { content: MessageContentView::Text(content@) }),
    {
        Message::System { content: MessageContent::Text(content.to_owned()) }
    }

    /// Creates a user message with plain-text content.
    pub fn user(content: &str) -> (r: Self)
        ensures
            r@ == (MessageView::User { content: MessageContentView::Text(content@) }),
    {
        Message::User { content: MessageContent::Text(content.to_owned()) }
    }

    /// Creates a user message with multimodal content parts.
    pub fn user_parts(parts: Vec<ContentPart>) -> (r: Self)
        ensures
            r@ == (MessageView::User { content: MessageContentView::Parts(parts_view(parts@)) }),
    {
        Message::User { content: MessageContent::Parts(parts) }
    }

    /// Creates an assistant message with plain-text content.
    pub fn assistant(content: &str) -> (r: Self)
        ensures
            r@ == MessageView::Assistant(
                AssistantMessageView { content: Some(content@), tool_calls: Seq::empty(), reasoning: None },
            ),
    {
        let calls: Vec<ToolCall> = Vec::new();
        assert(calls_view(calls@) =~= Seq::<ToolCallView>::empty());
        Message::Assistant(
            AssistantMessage { content: Some(content.to_owned()), tool_calls: calls, reasoning: None },
        )
    }

    /// Creates an assistant message carrying tool calls (and optional content/reasoning).
    pub fn assistant_tool_calls(
        content: Option<String>,
        tool_calls: Vec<ToolCall>,
        reasoning: Option<Reasoning>,
    ) -> (r: Self)
        ensures
            r@ == MessageView::Assistant(
                AssistantMessageView {
                    content: opt_str_view(content),
                    tool_calls: calls_view(tool_calls@),
                    reasoning: opt_reasoning_view(reasoning),
                },
            ),
    {
        Message::Assistant(AssistantMessage { content, tool_calls, reasoning })
    }

    /// Creates a tool result message fed back to the model.
    pub fn tool(content: &str, tool_call_id: &str) -> (r: Self)
        ensures
            r@ == (MessageView::Tool { tool_call_id: tool_call_id@, content: content@ }),
    {
        Message::Tool { content: content.to_owned(), tool_call_id: tool_call_id.to_owned() }
    }

    /// Whether this message is a system message.
    pub fn is_system(&self) -> (r: bool)
        ensures
            r == (self@ is System),
    {
        match self {
            Message::System { .. } => true,
            _ => false,
        }
    }

    /// Returns the role regardless of variant.
    pub fn role(&self) -> (r: &'static str)
        ensures
            r@ == role_of(self@),
    {
        proof {
            reveal_strlit("system");
            reveal_strlit("user");
            reveal_strlit("assistant");
            reveal_strlit("tool");
        }
        match self {
            Message::System { .. } => "system",
            Message::User { .. } => "user",
            Message::Assistant(_) => "assistant",
            Message::Tool { .. } => "tool",
        }
    }

    /// Returns the text content when the variant carries one; multimodal parts yield `None`.
    pub fn content(&self) -> (r: Option<&str>)
        ensures
            r matches Some(s) ==> text_of(self@) == Some(s@),
            r is None ==> text_of(self@) is None,
    {
        match self {
            Message::System { content: MessageContent::Text(text) } => Some(text.as_str()),
            Message::User { content: MessageContent::Text(text) } => Some(text.as_str()),
            Message::Assistant(message) => match &message.content {
                Some(c) => Some(c.as_str()),
                None => None,
            },
            Message::Tool { content, .. } => Some(content.as_str()),
            _ => None,
        }
    }

    /// Returns the multimodal content parts when present.
    pub fn content_parts(&self) -> (r: Option<&[ContentPart]>)
        ensures
            r matches Some(p) ==> parts_of(self@) == Some(parts_view(p@)),
            r is None ==> parts_of(self@) is None,
    {
        match self {
            Message::System { content: MessageContent::Parts(parts) } => Some(parts.as_slice()),
            Message::User { content: MessageContent::Parts(parts) } => Some(parts.as_slice()),
            _ => None,
        }
    }

    /// Returns the tool calls carried by an assistant message.
    pub fn tool_calls(&self) -> (r: &[ToolCall])
        ensures
            calls_view(r@) == calls_of(self@),
    {
        match self {
            Message::Assistant(message) => message.tool_calls.as_slice(),
            _ => {
                let empty: &[ToolCall] = &[];
                assert(calls_view(empty@) =~= Seq::<ToolCallView>::empty());
                empty
            },
        }
    }

    /// Returns the reasoning carried by an assistant message, if any.
    pub fn reasoning(&self) -> (r: Option<&Reasoning>)
        ensures
            r matches Some(x) ==> reasoning_of(self@) == Some(x@),
            r is None ==> reasoning_of(self@) is None,
    {
        match self {
            Message::Assistant(message) => match &message.reasoning {
                Some(x) => Some(x),
                None => None,
            },
            _ => None,
        }
    }

    /// Returns the tool-call identifier for a tool result message.
    pub fn tool_call_id(&self) -> (r: Option<&str>)
        ensures
            r matches Some(s) ==> self@ matches MessageView::Tool { tool_call_id, .. } && s@ == tool_call_id,
            r is None ==> !(self@ is Tool),
    {
        match self {
            Message::Tool { tool_call_id, .. } => Some(tool_call_id.as_str()),
            _ => None,
        }
    }
}

/// The role string of a message.
pub open spec fn role_of(m: MessageView) -> Seq<char> {
    match m {
        MessageView::System { .. } => "system"@,
        MessageView::User { .. } => "user"@,
        MessageView::Assistant(_) => "assistant"@,
        MessageView::Tool { .. } => "tool"@,
    }
}

/// The plain-text content of a message, if it carries one.
pub open spec fn text_of(m: MessageView) -> Option<Seq<char>> {
    match m {
        MessageView::System { content: MessageContentView::Text(t) } => Some(t),
        MessageView::User { content: MessageContentView::Text(t) } => Some(t),
        MessageView::Assistant(a) => a.content,
        MessageView::Tool { content, .. } => Some(content),
        _ => None,
    }
}

/// The multimodal parts of a system or user message, if it carries parts.
pub open spec fn parts_of(m: MessageView) -> Option<Seq<ContentPartView>> {
    match m {
        MessageView::System { content: MessageContentView::Parts(p) } => Some(p),
        MessageView::User { content: MessageContentView::Parts(p) } => Some(p),
        _ => None,
    }
}

/// The tool calls of an assistant message (empty for other roles).
pub open spec fn calls_of(m: MessageView) -> Seq<ToolCallView> {
    match m {
        MessageView::Assistant(a) => a.tool_calls,
        _ => Seq::empty(),
    }
}

/// The reasoning of an assistant message, if any.
pub open spec fn reasoning_of(m: MessageView) -> Option<ReasoningView> {
    match m {
        MessageView::Assistant(a) => a.reasoning,
        _ => None,
    }
}

} // verus!

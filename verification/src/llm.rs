//! The provider-agnostic conversation model: messages, content parts, tool
//! calls and their results, and the events that a chat yields. Pure data;
//! each type has a view that holds its text as sequences of characters.

use crate::views::{opt_view, opt_views, views};
use vstd::prelude::*;

verus! {

/// Who speaks in a message.
#[derive(Clone, Copy, Debug, PartialEq, Eq, Structural)]
pub enum Role {
    User,
    Assistant,
    System,
    Tool,
}

/// The kind of a failure.
#[derive(Clone, Copy, Debug, PartialEq, Eq, Structural)]
pub enum ErrorCode {
    InvalidRequest,
    AuthenticationFailed,
    RateLimitExceeded,
    InternalError,
    Unsupported,
    Unknown,
}

/// Why the model stopped producing content.
#[derive(Clone, Copy, Debug, PartialEq, Eq, Structural)]
pub enum FinishReason {
    Stop,
    Length,
    ToolCalls,
    ContentFilter,
}

/// How closely the model should look at an image.
#[derive(Clone, Copy, Debug, PartialEq, Eq, Structural)]
pub enum ImageDetail {
    Low,
    High,
    Auto,
}

/// An image that lives at a URL.
#[derive(Debug, PartialEq, Eq)]
pub struct ImageUrl {
    pub url: String,
    pub detail: Option<ImageDetail>,
}

/// The view of a `ImageUrl`.
pub struct ImageUrlView {
    pub url: Seq<char>,
    pub detail: Option<ImageDetail>,
}

impl View for ImageUrl {
    type V = ImageUrlView;

    open spec fn view(&self) -> ImageUrlView {
        ImageUrlView { url: self.url@, detail: self.detail }
    }
}

impl Clone for ImageUrl {
    fn clone(&self) -> (r: Self)
        ensures
            r@ == self@,
    {
        ImageUrl { url: self.url.clone(), detail: self.detail }
    }
}

/// An image carried in the message itself.
#[derive(Debug, PartialEq, Eq)]
pub struct ImageSource {
    pub data: Vec<u8>,
    pub mime_type: String,
    pub detail: Option<ImageDetail>,
}

/// The view of a `ImageSource`.
pub struct ImageSourceView {
    pub data: Seq<u8>,
    pub mime_type: Seq<char>,
    pub detail: Option<ImageDetail>,
}

impl View for ImageSource {
    type V = ImageSourceView;

    open spec fn view(&self) -> ImageSourceView {
        ImageSourceView { data: self.data@, mime_type: self.mime_type@, detail: self.detail }
    }
}

impl Clone for ImageSource {
    fn clone(&self) -> (r: Self)
        ensures
            r@ == self@,
    {
        let data = self.data.clone();
        assert(data@ =~= self.data@);
        ImageSource { data, mime_type: self.mime_type.clone(), detail: self.detail }
    }
}

/// Where an image is to be found.
#[derive(Debug, PartialEq, Eq)]
pub enum ImageReference {
    Url(ImageUrl),
    Inline(ImageSource),
}

/// The view of a `ImageReference`.
pub enum ImageReferenceView {
    Url(ImageUrlView),
    Inline(ImageSourceView),
}

impl View for ImageReference {
    type V = ImageReferenceView;

    open spec fn view(&self) -> ImageReferenceView {
        match *self {
            ImageReference::Url(u) => ImageReferenceView::Url(u@),
            ImageReference::Inline(s) => ImageReferenceView::Inline(s@),
        }
    }
}

impl Clone for ImageReference {
    fn clone(&self) -> (r: Self)
        ensures
            r@ == self@,
    {
        match self {
            ImageReference::Url(u) => ImageReference::Url(u.clone()),
            ImageReference::Inline(s) => ImageReference::Inline(s.clone()),
        }
    }
}

/// One piece of a message's content.
#[derive(Debug, PartialEq, Eq)]
pub enum ContentPart {
    Text(String),
    Image(ImageReference),
}

/// The view of a `ContentPart`.
pub enum ContentPartView {
    Text(Seq<char>),
    Image(ImageReferenceView),
}

impl View for ContentPart {
    type V = ContentPartView;

    open spec fn view(&self) -> ContentPartView {
        match *self {
            ContentPart::Text(t) => ContentPartView::Text(t@),
            ContentPart::Image(i) => ContentPartView::Image(i@),
        }
    }
}

impl Clone for ContentPart {
    fn clone(&self) -> (r: Self)
        ensures
            r@ == self@,
    {
        match self {
            ContentPart::Text(t) => ContentPart::Text(t.clone()),
            ContentPart::Image(i) => ContentPart::Image(i.clone()),
        }
    }
}

/// One turn of a conversation. Immutable once made.
#[derive(Debug, PartialEq, Eq)]
pub struct Message {
    pub role: Role,
    pub name: Option<String>,
    pub content: Vec<ContentPart>,
}

/// The view of a `Message`.
pub struct MessageView {
    pub role: Role,
    pub name: Option<Seq<char>>,
    pub content: Seq<ContentPartView>,
}

impl View for Message {
    type V = MessageView;

    open spec fn view(&self) -> MessageView {
        MessageView {
            role: self.role,
            name: opt_view(self.name),
            content: views(self.content@),
        }
    }
}

impl Clone for Message {
    fn clone(&self) -> (r: Self)
        ensures
            r@ == self@,
    {
        let content = self.content.clone();
        assert(views(content@) =~= views(self.content@));
        Message { role: self.role, name: self.name.clone(), content }
    }
}

/// A tool that the model may ask to have called.
#[derive(Debug, PartialEq, Eq)]
pub struct ToolDefinition {
    pub name: String,
    pub description: Option<String>,
    /// The JSON schema of the tool's parameters, as text.
    pub parameters_schema: String,
}

/// The view of a `ToolDefinition`.
pub struct ToolDefinitionView {
    pub name: Seq<char>,
    pub description: Option<Seq<char>>,
    pub parameters_schema: Seq<char>,
}

impl View for ToolDefinition {
    type V = ToolDefinitionView;

    open spec fn view(&self) -> ToolDefinitionView {
        ToolDefinitionView {
            name: self.name@,
            description: opt_view(self.description),
            parameters_schema: self.parameters_schema@,
        }
    }
}

impl Clone for ToolDefinition {
    fn clone(&self) -> (r: Self)
        ensures
            r@ == self@,
    {
        ToolDefinition {
            name: self.name.clone(),
            description: self.description.clone(),
            parameters_schema: self.parameters_schema.clone(),
        }
    }
}

/// A call that the model asks for. The arguments are JSON text, not a decoded
/// structure: in the middle of a stream they may be incomplete.
#[derive(Debug, PartialEq, Eq)]
pub struct ToolCall {
    pub id: String,
    pub name: String,
    pub arguments_json: String,
}

/// The view of a `ToolCall`.
pub struct ToolCallView {
    pub id: Seq<char>,
    pub name: Seq<char>,
    pub arguments_json: Seq<char>,
}

impl View for ToolCall {
    type V = ToolCallView;

    open spec fn view(&self) -> ToolCallView {
        ToolCallView { id: self.id@, name: self.name@, arguments_json: self.arguments_json@ }
    }
}

impl Clone for ToolCall {
    fn clone(&self) -> (r: Self)
        ensures
            r@ == self@,
    {
        ToolCall {
            id: self.id.clone(),
            name: self.name.clone(),
            arguments_json: self.arguments_json.clone(),
        }
    }
}

/// What a tool returned.
#[derive(Debug, PartialEq, Eq)]
pub struct ToolSuccess {
    pub id: String,
    pub name: String,
    pub result_json: String,
    pub execution_time_ms: Option<u32>,
}

/// The view of a `ToolSuccess`.
pub struct ToolSuccessView {
    pub id: Seq<char>,
    pub name: Seq<char>,
    pub result_json: Seq<char>,
    pub execution_time_ms: Option<u32>,
}

impl View for ToolSuccess {
    type V = ToolSuccessView;

    open spec fn view(&self) -> ToolSuccessView {
        ToolSuccessView {
            id: self.id@,
            name: self.name@,
            result_json: self.result_json@,
            execution_time_ms: self.execution_time_ms,
        }
    }
}

impl Clone for ToolSuccess {
    fn clone(&self) -> (r: Self)
        ensures
            r@ == self@,
    {
        ToolSuccess {
            id: self.id.clone(),
            name: self.name.clone(),
            result_json: self.result_json.clone(),
            execution_time_ms: self.execution_time_ms,
        }
    }
}

/// How a tool failed.
#[derive(Debug, PartialEq, Eq)]
pub struct ToolFailure {
    pub id: String,
    pub name: String,
    pub error_message: String,
}

/// The view of a `ToolFailure`.
pub struct ToolFailureView {
    pub id: Seq<char>,
    pub name: Seq<char>,
    pub error_message: Seq<char>,
}

impl View for ToolFailure {
    type V = ToolFailureView;

    open spec fn view(&self) -> ToolFailureView {
        ToolFailureView { id: self.id@, name: self.name@, error_message: self.error_message@ }
    }
}

impl Clone for ToolFailure {
    fn clone(&self) -> (r: Self)
        ensures
            r@ == self@,
    {
        ToolFailure {
            id: self.id.clone(),
            name: self.name.clone(),
            error_message: self.error_message.clone(),
        }
    }
}

/// The outcome of one tool call.
#[derive(Debug, PartialEq, Eq)]
pub enum ToolResult {
    Success(ToolSuccess),
    Error(ToolFailure),
}

/// The view of a `ToolResult`.
pub enum ToolResultView {
    Success(ToolSuccessView),
    Error(ToolFailureView),
}

impl View for ToolResult {
    type V = ToolResultView;

    open spec fn view(&self) -> ToolResultView {
        match *self {
            ToolResult::Success(s) => ToolResultView::Success(s@),
            ToolResult::Error(f) => ToolResultView::Error(f@),
        }
    }
}

impl Clone for ToolResult {
    fn clone(&self) -> (r: Self)
        ensures
            r@ == self@,
    {
        match self {
            ToolResult::Success(s) => ToolResult::Success(s.clone()),
            ToolResult::Error(f) => ToolResult::Error(f.clone()),
        }
    }
}

/// A provider-specific option, as a pair of texts.
#[derive(Debug, PartialEq, Eq)]
pub struct Kv {
    pub key: String,
    pub value: String,
}

/// The view of a `Kv`.
pub struct KvView {
    pub key: Seq<char>,
    pub value: Seq<char>,
}

impl View for Kv {
    type V = KvView;

    open spec fn view(&self) -> KvView {
        KvView { key: self.key@, value: self.value@ }
    }
}

impl Clone for Kv {
    fn clone(&self) -> (r: Self)
        ensures
            r@ == self@,
    {
        Kv { key: self.key.clone(), value: self.value.clone() }
    }
}

/// How a request is to be made. The sampling temperature is a real number
/// and travels beside this value, in the caller's hands.
#[derive(Debug, PartialEq, Eq)]
pub struct Config {
    pub model: String,
    pub max_tokens: Option<u32>,
    pub stop_sequences: Option<Vec<String>>,
    pub tools: Vec<ToolDefinition>,
    pub tool_choice: Option<String>,
    pub provider_options: Vec<Kv>,
}

/// The view of a `Config`.
pub struct ConfigView {
    pub model: Seq<char>,
    pub max_tokens: Option<u32>,
    pub stop_sequences: Option<Seq<Seq<char>>>,
    pub tools: Seq<ToolDefinitionView>,
    pub tool_choice: Option<Seq<char>>,
    pub provider_options: Seq<KvView>,
}

impl View for Config {
    type V = ConfigView;

    open spec fn view(&self) -> ConfigView {
        ConfigView {
            model: self.model@,
            max_tokens: self.max_tokens,
            stop_sequences: opt_views(self.stop_sequences),
            tools: views(self.tools@),
            tool_choice: opt_view(self.tool_choice),
            provider_options: views(self.provider_options@),
        }
    }
}

impl Clone for Config {
    fn clone(&self) -> (r: Self)
        ensures
            r@ == self@,
    {
        let tools = self.tools.clone();
        assert(views(tools@) =~= views(self.tools@));
        let provider_options = self.provider_options.clone();
        assert(views(provider_options@) =~= views(self.provider_options@));
        let stop_sequences = match &self.stop_sequences {
            Some(l) => {
                let c = l.clone();
                assert(views(c@) =~= views(l@));
                Some(c)
            },
            None => None,
        };
        Config {
            model: self.model.clone(),
            max_tokens: self.max_tokens,
            stop_sequences,
            tools,
            tool_choice: self.tool_choice.clone(),
            provider_options,
        }
    }
}

/// Token counts of one exchange.
#[derive(Clone, Copy, Debug, PartialEq, Eq, Structural)]
pub struct Usage {
    pub input_tokens: Option<u32>,
    pub output_tokens: Option<u32>,
    pub total_tokens: Option<u32>,
}

/// What is known of a finished reply.
#[derive(Debug, PartialEq, Eq)]
pub struct ResponseMetadata {
    pub finish_reason: Option<FinishReason>,
    pub usage: Option<Usage>,
    pub provider_id: Option<String>,
    pub timestamp: Option<String>,
    pub provider_metadata_json: Option<String>,
}

/// The view of a `ResponseMetadata`.
pub struct ResponseMetadataView {
    pub finish_reason: Option<FinishReason>,
    pub usage: Option<Usage>,
    pub provider_id: Option<Seq<char>>,
    pub timestamp: Option<Seq<char>>,
    pub provider_metadata_json: Option<Seq<char>>,
}

impl View for ResponseMetadata {
    type V = ResponseMetadataView;

    open spec fn view(&self) -> ResponseMetadataView {
        ResponseMetadataView {
            finish_reason: self.finish_reason,
            usage: self.usage,
            provider_id: opt_view(self.provider_id),
            timestamp: opt_view(self.timestamp),
            provider_metadata_json: opt_view(self.provider_metadata_json),
        }
    }
}

impl Clone for ResponseMetadata {
    fn clone(&self) -> (r: Self)
        ensures
            r@ == self@,
    {
        ResponseMetadata {
            finish_reason: self.finish_reason,
            usage: self.usage,
            provider_id: self.provider_id.clone(),
            timestamp: self.timestamp.clone(),
            provider_metadata_json: self.provider_metadata_json.clone(),
        }
    }
}

/// A whole reply.
#[derive(Debug, PartialEq, Eq)]
pub struct CompleteResponse {
    pub id: String,
    pub content: Vec<ContentPart>,
    pub tool_calls: Vec<ToolCall>,
    pub metadata: ResponseMetadata,
}

/// The view of a `CompleteResponse`.
pub struct CompleteResponseView {
    pub id: Seq<char>,
    pub content: Seq<ContentPartView>,
    pub tool_calls: Seq<ToolCallView>,
    pub metadata: ResponseMetadataView,
}

impl View for CompleteResponse {
    type V = CompleteResponseView;

    open spec fn view(&self) -> CompleteResponseView {
        CompleteResponseView {
            id: self.id@,
            content: views(self.content@),
            tool_calls: views(self.tool_calls@),
            metadata: self.metadata@,
        }
    }
}

impl Clone for CompleteResponse {
    fn clone(&self) -> (r: Self)
        ensures
            r@ == self@,
    {
        let content = self.content.clone();
        assert(views(content@) =~= views(self.content@));
        let tool_calls = self.tool_calls.clone();
        assert(views(tool_calls@) =~= views(self.tool_calls@));
        CompleteResponse { id: self.id.clone(), content, tool_calls, metadata: self.metadata.clone() }
    }
}

/// A failure, as the caller sees it.
#[derive(Debug, PartialEq, Eq)]
pub struct Error {
    pub code: ErrorCode,
    pub message: String,
    pub provider_error_json: Option<String>,
}

/// The view of a `Error`.
pub struct ErrorView {
    pub code: ErrorCode,
    pub message: Seq<char>,
    pub provider_error_json: Option<Seq<char>>,
}

impl View for Error {
    type V = ErrorView;

    open spec fn view(&self) -> ErrorView {
        ErrorView {
            code: self.code,
            message: self.message@,
            provider_error_json: opt_view(self.provider_error_json),
        }
    }
}

impl Clone for Error {
    fn clone(&self) -> (r: Self)
        ensures
            r@ == self@,
    {
        Error {
            code: self.code,
            message: self.message.clone(),
            provider_error_json: self.provider_error_json.clone(),
        }
    }
}

/// The one event that ends a call that does not stream.
#[derive(Debug, PartialEq, Eq)]
pub enum ChatEvent {
    Message(CompleteResponse),
    /// The model produced tool calls and no text.
    ToolRequest(Vec<ToolCall>),
    Error(Error),
}

/// The view of a `ChatEvent`.
pub enum ChatEventView {
    Message(CompleteResponseView),
    ToolRequest(Seq<ToolCallView>),
    Error(ErrorView),
}

impl View for ChatEvent {
    type V = ChatEventView;

    open spec fn view(&self) -> ChatEventView {
        match *self {
            ChatEvent::Message(m) => ChatEventView::Message(m@),
            ChatEvent::ToolRequest(t) => ChatEventView::ToolRequest(views(t@)),
            ChatEvent::Error(e) => ChatEventView::Error(e@),
        }
    }
}

impl Clone for ChatEvent {
    fn clone(&self) -> (r: Self)
        ensures
            r@ == self@,
    {
        match self {
            ChatEvent::Message(m) => ChatEvent::Message(m.clone()),
            ChatEvent::ToolRequest(t) => {
                let c = t.clone();
                assert(views(c@) =~= views(t@));
                ChatEvent::ToolRequest(c)
            },
            ChatEvent::Error(e) => ChatEvent::Error(e.clone()),
        }
    }
}

/// A partial piece of a reply that is still in progress.
#[derive(Debug, PartialEq, Eq)]
pub struct StreamDelta {
    pub content: Option<Vec<ContentPart>>,
    pub tool_calls: Option<Vec<ToolCall>>,
}

/// The view of a `StreamDelta`.
pub struct StreamDeltaView {
    pub content: Option<Seq<ContentPartView>>,
    pub tool_calls: Option<Seq<ToolCallView>>,
}

impl View for StreamDelta {
    type V = StreamDeltaView;

    open spec fn view(&self) -> StreamDeltaView {
        StreamDeltaView {
            content: opt_views(self.content),
            tool_calls: opt_views(self.tool_calls),
        }
    }
}

impl Clone for StreamDelta {
    fn clone(&self) -> (r: Self)
        ensures
            r@ == self@,
    {
        let content = match &self.content {
            Some(l) => {
                let c = l.clone();
                assert(views(c@) =~= views(l@));
                Some(c)
            },
            None => None,
        };
        let tool_calls = match &self.tool_calls {
            Some(l) => {
                let c = l.clone();
                assert(views(c@) =~= views(l@));
                Some(c)
            },
            None => None,
        };
        StreamDelta { content, tool_calls }
    }
}

/// One event of a streaming call: any number of deltas, then one `Finish` or
/// one `Error`.
#[derive(Debug, PartialEq, Eq)]
pub enum StreamEvent {
    Delta(StreamDelta),
    Finish(ResponseMetadata),
    Error(Error),
}

/// The view of a `StreamEvent`.
pub enum StreamEventView {
    Delta(StreamDeltaView),
    Finish(ResponseMetadataView),
    Error(ErrorView),
}

impl View for StreamEvent {
    type V = StreamEventView;

    open spec fn view(&self) -> StreamEventView {
        match *self {
            StreamEvent::Delta(d) => StreamEventView::Delta(d@),
            StreamEvent::Finish(m) => StreamEventView::Finish(m@),
            StreamEvent::Error(e) => StreamEventView::Error(e@),
        }
    }
}

impl Clone for StreamEvent {
    fn clone(&self) -> (r: Self)
        ensures
            r@ == self@,
    {
        match self {
            StreamEvent::Delta(d) => StreamEvent::Delta(d.clone()),
            StreamEvent::Finish(m) => StreamEvent::Finish(m.clone()),
            StreamEvent::Error(e) => StreamEvent::Error(e.clone()),
        }
    }
}

} // verus!

//! The provider's wire schema for chat completions: the shapes of a request,
//! of a whole response and of one chunk of a streamed response, and what a
//! response's status line and unreadable body are reported as.

use crate::llm::{Error, ErrorCode, ErrorView};
use crate::text::{decimal, u64_to_decimal};
use crate::views::{opt_view, opt_views, views};
use vstd::prelude::*;

verus! {

/// Whether the last chunk of a stream should carry the token counts.
#[derive(Clone, Copy, Debug, PartialEq, Eq, Structural)]
pub struct StreamOptions {
    pub include_usage: bool,
}

/// A function that the model may call.
#[derive(Debug, PartialEq, Eq)]
pub struct Function {
    pub name: String,
    pub description: Option<String>,
    /// The JSON schema of the parameters, as JSON text.
    pub parameters: Option<String>,
}

/// The view of a `Function`.
pub struct FunctionView {
    pub name: Seq<char>,
    pub description: Option<Seq<char>>,
    pub parameters: Option<Seq<char>>,
}

impl View for Function {
    type V = FunctionView;

    open spec fn view(&self) -> FunctionView {
        FunctionView {
            name: self.name@,
            description: opt_view(self.description),
            parameters: opt_view(self.parameters),
        }
    }
}

impl Clone for Function {
    fn clone(&self) -> (r: Self)
        ensures
            r@ == self@,
    {
        Function {
            name: self.name.clone(),
            description: self.description.clone(),
            parameters: self.parameters.clone(),
        }
    }
}

/// A tool offered to the model.
#[derive(Debug, PartialEq, Eq)]
pub enum Tool {
    Function { function: Function },
}

/// The view of a `Tool`.
pub enum ToolView {
    Function { function: FunctionView },
}

impl View for Tool {
    type V = ToolView;

    open spec fn view(&self) -> ToolView {
        match *self {
            Tool::Function { function } => ToolView::Function { function: function@ },
        }
    }
}

impl Clone for Tool {
    fn clone(&self) -> (r: Self)
        ensures
            r@ == self@,
    {
        match self {
            Tool::Function { function } => Tool::Function { function: function.clone() },
        }
    }
}

/// How closely the model should look at an image.
#[derive(Clone, Copy, Debug, PartialEq, Eq, Structural)]
pub enum Detail {
    Auto,
    Low,
    High,
}

impl Default for Detail {
    fn default() -> (r: Self)
        ensures
            r == Detail::Auto,
    {
        Detail::Auto
    }
}

/// An image, by its URL (a `data:` URL where the image is carried inline).
#[derive(Debug, PartialEq, Eq)]
pub struct ImageUrl {
    pub url: String,
    pub detail: Option<Detail>,
}

/// The view of a `ImageUrl`.
pub struct ImageUrlView {
    pub url: Seq<char>,
    pub detail: Option<Detail>,
}

impl View for ImageUrl {
    type V = ImageUrlView;

    open spec fn view(&self) -> ImageUrlView {
        ImageUrlView { url: self.url@, detail: self.detail }
    }
}

impl Clone for ImageUrl {
    fn clone(&self) -> (r: Self)
        ensures
            r@ == self@,
    {
        ImageUrl { url: self.url.clone(), detail: self.detail }
    }
}

/// One part of a message's content.
#[derive(Debug, PartialEq, Eq)]
pub enum ContentPart {
    TextInput { text: String },
    ImageInput { image_url: ImageUrl },
}

/// The view of a `ContentPart`.
pub enum ContentPartView {
    TextInput { text: Seq<char> },
    ImageInput { image_url: ImageUrlView },
}

impl View for ContentPart {
    type V = ContentPartView;

    open spec fn view(&self) -> ContentPartView {
        match *self {
            ContentPart::TextInput { text } => ContentPartView::TextInput { text: text@ },
            ContentPart::ImageInput { image_url } => ContentPartView::ImageInput {
                image_url: image_url@,
            },
        }
    }
}

impl Clone for ContentPart {
    fn clone(&self) -> (r: Self)
        ensures
            r@ == self@,
    {
        match self {
            ContentPart::TextInput { text } => ContentPart::TextInput { text: text.clone() },
            ContentPart::ImageInput { image_url } => ContentPart::ImageInput {
                image_url: image_url.clone(),
            },
        }
    }
}

/// The content of a message: one text, or a list of parts.
#[derive(Debug, PartialEq, Eq)]
pub enum Content {
    TextInput(String),
    List(Vec<ContentPart>),
}

/// The view of a `Content`.
pub enum ContentView {
    TextInput(Seq<char>),
    List(Seq<ContentPartView>),
}

impl View for Content {
    type V = ContentView;

    open spec fn view(&self) -> ContentView {
        match *self {
            Content::TextInput(t) => ContentView::TextInput(t@),
            Content::List(l) => ContentView::List(views(l@)),
        }
    }
}

impl Clone for Content {
    fn clone(&self) -> (r: Self)
        ensures
            r@ == self@,
    {
        match self {
            Content::TextInput(t) => Content::TextInput(t.clone()),
            Content::List(l) => {
                let c = l.clone();
                assert(views(c@) =~= views(l@));
                Content::List(c)
            },
        }
    }
}

/// The name and the arguments of a call. In a stream the arguments come in
/// pieces.
#[derive(Debug, PartialEq, Eq)]
pub struct FunctionCall {
    pub arguments: String,
    pub name: String,
}

/// The view of a `FunctionCall`.
pub struct FunctionCallView {
    pub arguments: Seq<char>,
    pub name: Seq<char>,
}

impl View for FunctionCall {
    type V = FunctionCallView;

    open spec fn view(&self) -> FunctionCallView {
        FunctionCallView { arguments: self.arguments@, name: self.name@ }
    }
}

impl Clone for FunctionCall {
    fn clone(&self) -> (r: Self)
        ensures
            r@ == self@,
    {
        FunctionCall { arguments: self.arguments.clone(), name: self.name.clone() }
    }
}

/// A call that the model asks for. `index` is the call's position in the
/// assistant's list of calls; in a stream, pieces of one call share it.
#[derive(Debug, PartialEq, Eq)]
pub enum ToolCall {
    Function { function: FunctionCall, id: String, index: Option<u32> },
}

/// The view of a `ToolCall`.
pub enum ToolCallView {
    Function { function: FunctionCallView, id: Seq<char>, index: Option<u32> },
}

impl View for ToolCall {
    type V = ToolCallView;

    open spec fn view(&self) -> ToolCallView {
        match *self {
            ToolCall::Function { function, id, index } => ToolCallView::Function {
                function: function@,
                id: id@,
                index,
            },
        }
    }
}

impl Clone for ToolCall {
    fn clone(&self) -> (r: Self)
        ensures
            r@ == self@,
    {
        match self {
            ToolCall::Function { function, id, index } => ToolCall::Function {
                function: function.clone(),
                id: id.clone(),
                index: *index,
            },
        }
    }
}

/// One message of a request.
#[allow(inconsistent_fields)]
#[derive(Debug, PartialEq, Eq)]
pub enum Message {
    System { content: Content, name: Option<String> },
    User { content: Content, name: Option<String> },
    Assistant { content: Option<Content>, name: Option<String>, tool_calls: Option<Vec<ToolCall>> },
    Tool { content: Content, name: Option<String>, tool_call_id: String },
}

/// The view of a `Message`.
#[allow(inconsistent_fields)]
pub enum MessageView {
    System { content: ContentView, name: Option<Seq<char>> },
    User { content: ContentView, name: Option<Seq<char>> },
    Assistant {
        content: Option<ContentView>,
        name: Option<Seq<char>>,
        tool_calls: Option<Seq<ToolCallView>>,
    },
    Tool { content: ContentView, name: Option<Seq<char>>, tool_call_id: Seq<char> },
}

impl View for Message {
    type V = MessageView;

    open spec fn view(&self) -> MessageView {
        match *self {
            Message::System { content, name } => MessageView::System {
                content: content@,
                name: opt_view(name),
            },
            Message::User { content, name } => MessageView::User {
                content: content@,
                name: opt_view(name),
            },
            Message::Assistant { content, name, tool_calls } => MessageView::Assistant {
                content: opt_view(content),
                name: opt_view(name),
                tool_calls: opt_views(tool_calls),
            },
            Message::Tool { content, name, tool_call_id } => MessageView::Tool {
                content: content@,
                name: opt_view(name),
                tool_call_id: tool_call_id@,
            },
        }
    }
}

impl Clone for Message {
    fn clone(&self) -> (r: Self)
        ensures
            r@ == self@,
    {
        match self {
            Message::System { content, name } => Message::System {
                content: content.clone(),
                name: name.clone(),
            },
            Message::User { content, name } => Message::User {
                content: content.clone(),
                name: name.clone(),
            },
            Message::Assistant { content, name, tool_calls } => {
                let calls = match tool_calls {
                    Some(l) => {
                        let c = l.clone();
                        assert(views(c@) =~= views(l@));
                        Some(c)
                    },
                    None => None,
                };
                let body = match content {
                    Some(c) => Some(c.clone()),
                    None => None,
                };
                Message::Assistant { content: body, name: name.clone(), tool_calls: calls }
            },
            Message::Tool { content, name, tool_call_id } => Message::Tool {
                content: content.clone(),
                name: name.clone(),
                tool_call_id: tool_call_id.clone(),
            },
        }
    }
}

/// A request for a chat completion. The settings that are real numbers are
/// held as the text they were given as; the sampling temperature, which the
/// caller holds as a number, is added where the request is written out.
#[derive(Debug, PartialEq, Eq)]
pub struct CompletionsRequest {
    pub messages: Vec<Message>,
    pub model: String,
    pub frequency_penalty: Option<String>,
    pub max_completion_tokens: Option<u32>,
    pub n: Option<u32>,
    pub presence_penalty: Option<String>,
    pub seed: Option<u32>,
    pub stop: Option<Vec<String>>,
    pub stream: Option<bool>,
    pub stream_options: Option<StreamOptions>,
    pub tool_choice: Option<String>,
    pub tools: Vec<Tool>,
    pub top_logprobs: Option<u8>,
    pub top_p: Option<String>,
    pub user: Option<String>,
}

/// The view of a `CompletionsRequest`.
pub struct CompletionsRequestView {
    pub messages: Seq<MessageView>,
    pub model: Seq<char>,
    pub frequency_penalty: Option<Seq<char>>,
    pub max_completion_tokens: Option<u32>,
    pub n: Option<u32>,
    pub presence_penalty: Option<Seq<char>>,
    pub seed: Option<u32>,
    pub stop: Option<Seq<Seq<char>>>,
    pub stream: Option<bool>,
    pub stream_options: Option<StreamOptions>,
    pub tool_choice: Option<Seq<char>>,
    pub tools: Seq<ToolView>,
    pub top_logprobs: Option<u8>,
    pub top_p: Option<Seq<char>>,
    pub user: Option<Seq<char>>,
}

impl View for CompletionsRequest {
    type V = CompletionsRequestView;

    open spec fn view(&self) -> CompletionsRequestView {
        CompletionsRequestView {
            messages: views(self.messages@),
            model: self.model@,
            frequency_penalty: opt_view(self.frequency_penalty),
            max_completion_tokens: self.max_completion_tokens,
            n: self.n,
            presence_penalty: opt_view(self.presence_penalty),
            seed: self.seed,
            stop: opt_views(self.stop),
            stream: self.stream,
            stream_options: self.stream_options,
            tool_choice: opt_view(self.tool_choice),
            tools: views(self.tools@),
            top_logprobs: self.top_logprobs,
            top_p: opt_view(self.top_p),
            user: opt_view(self.user),
        }
    }
}

impl Clone for CompletionsRequest {
    fn clone(&self) -> (r: Self)
        ensures
            r@ == self@,
    {
        let messages = self.messages.clone();
        assert(views(messages@) =~= views(self.messages@));
        let tools = self.tools.clone();
        assert(views(tools@) =~= views(self.tools@));
        let stop = match &self.stop {
            Some(l) => {
                let c = l.clone();
                assert(views(c@) =~= views(l@));
                Some(c)
            },
            None => None,
        };
        CompletionsRequest {
            messages,
            model: self.model.clone(),
            frequency_penalty: self.frequency_penalty.clone(),
            max_completion_tokens: self.max_completion_tokens,
            n: self.n,
            presence_penalty: self.presence_penalty.clone(),
            seed: self.seed,
            stop,
            stream: self.stream,
            stream_options: self.stream_options,
            tool_choice: self.tool_choice.clone(),
            tools,
            top_logprobs: self.top_logprobs,
            top_p: self.top_p.clone(),
            user: self.user.clone(),
        }
    }
}

/// Why the provider's model stopped.
#[derive(Clone, Copy, Debug, PartialEq, Eq, Structural)]
pub enum FinishReason {
    Stop,
    Length,
    ToolCalls,
    ContentFilter,
}

/// Token counts, as the provider reports them.
#[derive(Clone, Copy, Debug, PartialEq, Eq, Structural)]
pub struct Usage {
    pub completion_tokens: u32,
    pub prompt_tokens: u32,
    pub total_tokens: u32,
}

/// The assistant's message in a whole response.
#[derive(Debug, PartialEq, Eq)]
pub struct ResponseMessage {
    pub content: Option<String>,
    pub refusal: Option<String>,
    pub role: String,
    pub tool_calls: Option<Vec<ToolCall>>,
}

/// The view of a `ResponseMessage`.
pub struct ResponseMessageView {
    pub content: Option<Seq<char>>,
    pub refusal: Option<Seq<char>>,
    pub role: Seq<char>,
    pub tool_calls: Option<Seq<ToolCallView>>,
}

impl View for ResponseMessage {
    type V = ResponseMessageView;

    open spec fn view(&self) -> ResponseMessageView {
        ResponseMessageView {
            content: opt_view(self.content),
            refusal: opt_view(self.refusal),
            role: self.role@,
            tool_calls: opt_views(self.tool_calls),
        }
    }
}

impl Clone for ResponseMessage {
    fn clone(&self) -> (r: Self)
        ensures
            r@ == self@,
    {
        let tool_calls = match &self.tool_calls {
            Some(l) => {
                let c = l.clone();
                assert(views(c@) =~= views(l@));
                Some(c)
            },
            None => None,
        };
        ResponseMessage {
            content: self.content.clone(),
            refusal: self.refusal.clone(),
            role: self.role.clone(),
            tool_calls,
        }
    }
}

/// One of the replies in a whole response.
#[derive(Debug, PartialEq, Eq)]
pub struct Choice {
    pub finish_reason: Option<FinishReason>,
    pub index: u32,
    pub message: ResponseMessage,
}

/// The view of a `Choice`.
pub struct ChoiceView {
    pub finish_reason: Option<FinishReason>,
    pub index: u32,
    pub message: ResponseMessageView,
}

impl View for Choice {
    type V = ChoiceView;

    open spec fn view(&self) -> ChoiceView {
        ChoiceView {
            finish_reason: self.finish_reason,
            index: self.index,
            message: self.message@,
        }
    }
}

impl Clone for Choice {
    fn clone(&self) -> (r: Self)
        ensures
            r@ == self@,
    {
        Choice {
            finish_reason: self.finish_reason,
            index: self.index,
            message: self.message.clone(),
        }
    }
}

/// A whole response.
#[derive(Debug, PartialEq, Eq)]
pub struct CompletionsResponse {
    pub choices: Vec<Choice>,
    pub created: u64,
    pub id: String,
    pub model: String,
    pub system_fingerprint: Option<String>,
    pub usage: Option<Usage>,
}

/// The view of a `CompletionsResponse`.
pub struct CompletionsResponseView {
    pub choices: Seq<ChoiceView>,
    pub created: u64,
    pub id: Seq<char>,
    pub model: Seq<char>,
    pub system_fingerprint: Option<Seq<char>>,
    pub usage: Option<Usage>,
}

impl View for CompletionsResponse {
    type V = CompletionsResponseView;

    open spec fn view(&self) -> CompletionsResponseView {
        CompletionsResponseView {
            choices: views(self.choices@),
            created: self.created,
            id: self.id@,
            model: self.model@,
            system_fingerprint: opt_view(self.system_fingerprint),
            usage: self.usage,
        }
    }
}

impl Clone for CompletionsResponse {
    fn clone(&self) -> (r: Self)
        ensures
            r@ == self@,
    {
        let choices = self.choices.clone();
        assert(views(choices@) =~= views(self.choices@));
        CompletionsResponse {
            choices,
            created: self.created,
            id: self.id.clone(),
            model: self.model.clone(),
            system_fingerprint: self.system_fingerprint.clone(),
            usage: self.usage,
        }
    }
}

/// What one chunk of a stream adds to a reply.
#[derive(Debug, PartialEq, Eq)]
pub struct ChoiceDelta {
    pub content: Option<String>,
    pub tool_calls: Option<Vec<ToolCall>>,
    pub role: Option<String>,
}

/// The view of a `ChoiceDelta`.
pub struct ChoiceDeltaView {
    pub content: Option<Seq<char>>,
    pub tool_calls: Option<Seq<ToolCallView>>,
    pub role: Option<Seq<char>>,
}

impl View for ChoiceDelta {
    type V = ChoiceDeltaView;

    open spec fn view(&self) -> ChoiceDeltaView {
        ChoiceDeltaView {
            content: opt_view(self.content),
            tool_calls: opt_views(self.tool_calls),
            role: opt_view(self.role),
        }
    }
}

impl Clone for ChoiceDelta {
    fn clone(&self) -> (r: Self)
        ensures
            r@ == self@,
    {
        let tool_calls = match &self.tool_calls {
            Some(l) => {
                let c = l.clone();
                assert(views(c@) =~= views(l@));
                Some(c)
            },
            None => None,
        };
        ChoiceDelta { content: self.content.clone(), tool_calls, role: self.role.clone() }
    }
}

/// One of the replies in a chunk.
#[derive(Debug, PartialEq, Eq)]
pub struct ChoiceChunk {
    pub index: u32,
    pub delta: ChoiceDelta,
    pub finish_reason: Option<FinishReason>,
}

/// The view of a `ChoiceChunk`.
pub struct ChoiceChunkView {
    pub index: u32,
    pub delta: ChoiceDeltaView,
    pub finish_reason: Option<FinishReason>,
}

impl View for ChoiceChunk {
    type V = ChoiceChunkView;

    open spec fn view(&self) -> ChoiceChunkView {
        ChoiceChunkView { index: self.index, delta: self.delta@, finish_reason: self.finish_reason }
    }
}

impl Clone for ChoiceChunk {
    fn clone(&self) -> (r: Self)
        ensures
            r@ == self@,
    {
        ChoiceChunk {
            index: self.index,
            delta: self.delta.clone(),
            finish_reason: self.finish_reason,
        }
    }
}

/// One chunk of a streamed response.
#[derive(Debug, PartialEq, Eq)]
pub struct ChatCompletionChunk {
    pub id: String,
    pub created: u64,
    pub model: String,
    pub choices: Vec<ChoiceChunk>,
    pub usage: Option<Usage>,
    pub system_fingerprint: Option<String>,
}

/// The view of a `ChatCompletionChunk`.
pub struct ChatCompletionChunkView {
    pub id: Seq<char>,
    pub created: u64,
    pub model: Seq<char>,
    pub choices: Seq<ChoiceChunkView>,
    pub usage: Option<Usage>,
    pub system_fingerprint: Option<Seq<char>>,
}

impl View for ChatCompletionChunk {
    type V = ChatCompletionChunkView;

    open spec fn view(&self) -> ChatCompletionChunkView {
        ChatCompletionChunkView {
            id: self.id@,
            created: self.created,
            model: self.model@,
            choices: views(self.choices@),
            usage: self.usage,
            system_fingerprint: opt_view(self.system_fingerprint),
        }
    }
}

impl Clone for ChatCompletionChunk {
    fn clone(&self) -> (r: Self)
        ensures
            r@ == self@,
    {
        let choices = self.choices.clone();
        assert(views(choices@) =~= views(self.choices@));
        ChatCompletionChunk {
            id: self.id.clone(),
            created: self.created,
            model: self.model.clone(),
            choices,
            usage: self.usage,
            system_fingerprint: self.system_fingerprint.clone(),
        }
    }
}

/// Whether a status code reports success.
pub open spec fn is_success(status: u16) -> bool {
    200 <= status <= 299
}

/// The kind of failure that a status code which reports no success stands
/// for: too many requests, a caller that is not let in, another mistake of
/// the caller, and whatever else went wrong.
pub open spec fn error_code_of(status: u16) -> ErrorCode {
    if status == 429 {
        ErrorCode::RateLimitExceeded
    } else if status == 401 || status == 403 {
        ErrorCode::AuthenticationFailed
    } else if 400 <= status <= 499 {
        ErrorCode::InvalidRequest
    } else {
        ErrorCode::InternalError
    }
}

/// The kind of failure that a status code stands for.
pub fn error_code_from_status(status: u16) -> (r: ErrorCode)
    ensures
        r == error_code_of(status),
{
    if status == 429 {
        ErrorCode::RateLimitExceeded
    } else if status == 401 || status == 403 {
        ErrorCode::AuthenticationFailed
    } else if 400 <= status && status <= 499 {
        ErrorCode::InvalidRequest
    } else {
        ErrorCode::InternalError
    }
}

/// The failure that a status line which reports no success is surfaced as.
/// `reason` is the phrase that follows the code on the status line.
pub open spec fn status_failure(status: u16, reason: Seq<char>) -> ErrorView {
    ErrorView {
        code: error_code_of(status),
        message: "OpenAI API error: HTTP "@ + decimal(status as nat) + " "@ + reason,
        provider_error_json: None,
    }
}

/// Judges the status line of a response: `None` where it reports success,
/// else the failure to surface. No body is read after a failure.
pub fn check_status(status: u16, reason: &str) -> (r: Option<Error>)
    ensures
        opt_view(r) == (if is_success(status) {
            None
        } else {
            Some(status_failure(status, reason@))
        }),
{
    if 200 <= status && status <= 299 {
        return None;
    }
    let mut message = String::from_str("OpenAI API error: HTTP ");
    let code = u64_to_decimal(status as u64);
    message.append(code.as_str());
    message.append(" ");
    message.append(reason);
    Some(Error { code: error_code_from_status(status), message, provider_error_json: None })
}

/// The failure that a response body which does not read as the expected
/// shape is surfaced as. It carries the body along.
pub open spec fn body_failure(diagnostic: Seq<char>, body: Seq<char>) -> ErrorView {
    ErrorView {
        code: ErrorCode::InternalError,
        message: "Failed to parse OpenAI API response: "@ + diagnostic,
        provider_error_json: Some(body),
    }
}

/// The failure for a response body that does not read as the expected
/// shape; `diagnostic` says why.
pub fn unreadable_body(diagnostic: &str, body: String) -> (r: Error)
    ensures
        r@ == body_failure(diagnostic@, body@),
{
    let mut message = String::from_str("Failed to parse OpenAI API response: ");
    message.append(diagnostic);
    Error { code: ErrorCode::InternalError, message, provider_error_json: Some(body) }
}

/// The failure that a missing configuration key is reported as, before any
/// request is made.
pub open spec fn missing_key_failure(key: Seq<char>) -> ErrorView {
    ErrorView {
        code: ErrorCode::InternalError,
        message: "Missing config key: "@ + key,
        provider_error_json: None,
    }
}

/// The failure for a configuration key that has no value.
pub fn missing_config_key(key: &str) -> (r: Error)
    ensures
        r@ == missing_key_failure(key@),
{
    let mut message = String::from_str("Missing config key: ");
    message.append(key);
    Error { code: ErrorCode::InternalError, message, provider_error_json: None }
}

/// The failure that trouble on the way to or from the provider is surfaced
/// as: what was being done, a colon, and the cause.
pub open spec fn transport_failure(details: Seq<char>, cause: Seq<char>) -> ErrorView {
    ErrorView {
        code: ErrorCode::InternalError,
        message: details + ": "@ + cause,
        provider_error_json: None,
    }
}

/// The failure for trouble on the way to or from the provider.
pub fn transport_error(details: &str, cause: &str) -> (r: Error)
    ensures
        r@ == transport_failure(details@, cause@),
{
    let mut message = String::from_str(details);
    message.append(": ");
    message.append(cause);
    Error { code: ErrorCode::InternalError, message, provider_error_json: None }
}

} // verus!

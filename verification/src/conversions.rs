//! The mapping between the conversation model and the provider's wire
//! schema: a request from messages and a configuration, and a chat event
//! from a whole response.

use crate::client;
use crate::client::Detail;
use crate::codec::{
    base64_fits, base64_standard, diagnose_json, encode_base64, fits_base64, json_diagnosis,
};
use crate::llm;
use crate::llm::{ErrorCode, ImageDetail, Role};
use crate::text::{decimal, parse_unsigned, same_text, u64_to_decimal, unsigned_value};
use crate::views::{lemma_views_add, lemma_views_push, opt_view, result_view, views};
use vstd::prelude::*;

verus! {

/// The wire form of an image detail has the same name.
impl From<ImageDetail> for Detail {
    fn from(value: ImageDetail) -> (r: Self) {
        match value {
            ImageDetail::Auto => Detail::Auto,
            ImageDetail::Low => Detail::Low,
            ImageDetail::High => Detail::High,
        }
    }
}

impl vstd::std_specs::convert::FromSpecImpl<ImageDetail> for Detail {
    open spec fn obeys_from_spec() -> bool {
        true
    }

    open spec fn from_spec(value: ImageDetail) -> Self {
        image_detail_of(value)
    }
}

/// The wire form of an image detail.
pub open spec fn image_detail_of(value: ImageDetail) -> Detail {
    match value {
        ImageDetail::Auto => Detail::Auto,
        ImageDetail::Low => Detail::Low,
        ImageDetail::High => Detail::High,
    }
}

/// The wire form of an optional image detail.
pub open spec fn detail_of(detail: Option<ImageDetail>) -> Option<Detail> {
    match detail {
        Some(d) => Some(image_detail_of(d)),
        None => None,
    }
}

fn convert_detail(detail: Option<ImageDetail>) -> (r: Option<Detail>)
    ensures
        r == detail_of(detail),
{
    match detail {
        Some(d) => Some(Detail::from(d)),
        None => None,
    }
}

/// The conversation model's name for a provider's finish reason.
pub open spec fn finish_reason_of(value: client::FinishReason) -> llm::FinishReason {
    match value {
        client::FinishReason::Stop => llm::FinishReason::Stop,
        client::FinishReason::Length => llm::FinishReason::Length,
        client::FinishReason::ToolCalls => llm::FinishReason::ToolCalls,
        client::FinishReason::ContentFilter => llm::FinishReason::ContentFilter,
    }
}

/// Maps a provider's finish reason to the conversation model.
pub fn convert_finish_reason(value: &client::FinishReason) -> (r: llm::FinishReason)
    ensures
        r == finish_reason_of(*value),
{
    match value {
        client::FinishReason::Stop => llm::FinishReason::Stop,
        client::FinishReason::Length => llm::FinishReason::Length,
        client::FinishReason::ToolCalls => llm::FinishReason::ToolCalls,
        client::FinishReason::ContentFilter => llm::FinishReason::ContentFilter,
    }
}

/// The provider's token counts in the conversation model: the prompt is the
/// input, the completion the output.
pub open spec fn usage_of(value: client::Usage) -> llm::Usage {
    llm::Usage {
        input_tokens: Some(value.prompt_tokens),
        output_tokens: Some(value.completion_tokens),
        total_tokens: Some(value.total_tokens),
    }
}

/// Maps the provider's token counts to the conversation model.
pub fn convert_usage(value: &client::Usage) -> (r: llm::Usage)
    ensures
        r == usage_of(*value),
{
    llm::Usage {
        input_tokens: Some(value.prompt_tokens),
        output_tokens: Some(value.completion_tokens),
        total_tokens: Some(value.total_tokens),
    }
}

/// A provider's tool call in the conversation model. The position is dropped.
pub open spec fn tool_call_of(call: client::ToolCallView) -> llm::ToolCallView {
    match call {
        client::ToolCallView::Function { function, id, index } => llm::ToolCallView {
            id,
            name: function.name,
            arguments_json: function.arguments,
        },
    }
}

/// Maps a provider's tool call to the conversation model.
pub fn convert_tool_call(tool_call: &client::ToolCall) -> (r: llm::ToolCall)
    ensures
        r@ == tool_call_of(tool_call@),
{
    match tool_call {
        client::ToolCall::Function { function, id, index } => llm::ToolCall {
            id: id.clone(),
            name: function.name.clone(),
            arguments_json: function.arguments.clone(),
        },
    }
}

/// Whether the image that a part may carry inline is small enough for its
/// base64 text to have a length that the machine can hold. No image that fits
/// in memory is larger.
pub open spec fn part_encodable(part: llm::ContentPartView) -> bool {
    match part {
        llm::ContentPartView::Image(llm::ImageReferenceView::Inline(source)) => base64_fits(
            source.data.len(),
        ),
        _ => true,
    }
}

/// Whether every inline image among the parts can be encoded.
pub open spec fn parts_encodable(parts: Seq<llm::ContentPartView>) -> bool {
    forall|i: int| 0 <= i < parts.len() ==> part_encodable(#[trigger] parts[i])
}

/// Whether every inline image in the messages can be encoded.
pub open spec fn messages_encodable(messages: Seq<llm::MessageView>) -> bool {
    forall|i: int| 0 <= i < messages.len() ==> parts_encodable((#[trigger] messages[i]).content)
}

fn part_fits(part: &llm::ContentPart) -> (r: bool)
    ensures
        r == part_encodable(part@),
{
    match part {
        llm::ContentPart::Image(llm::ImageReference::Inline(source)) => fits_base64(
            source.data.len(),
        ),
        _ => true,
    }
}

/// Whether every inline image among the parts can be encoded.
pub fn parts_fit(parts: &Vec<llm::ContentPart>) -> (r: bool)
    ensures
        r == parts_encodable(views(parts@)),
{
    let mut i: usize = 0;
    while i < parts.len()
        invariant
            i <= parts.len(),
            forall|j: int| 0 <= j < i ==> part_encodable(#[trigger] views(parts@)[j]),
        decreases parts.len() - i,
    {
        if !part_fits(&parts[i]) {
            assert(!part_encodable(views(parts@)[i as int]));
            return false;
        }
        i += 1;
    }
    true
}

/// Whether every inline image in the messages can be encoded.
pub fn messages_fit(messages: &Vec<llm::Message>) -> (r: bool)
    ensures
        r == messages_encodable(views(messages@)),
{
    let mut i: usize = 0;
    while i < messages.len()
        invariant
            i <= messages.len(),
            forall|j: int|
                0 <= j < i ==> parts_encodable((#[trigger] views(messages@)[j]).content),
        decreases messages.len() - i,
    {
        if !parts_fit(&messages[i].content) {
            assert(!parts_encodable(views(messages@)[i as int].content));
            return false;
        }
        i += 1;
    }
    true
}

/// The `data:` URL that carries an image inline.
pub open spec fn data_url(mime_type: Seq<char>, data: Seq<u8>) -> Seq<char> {
    "data:"@ + mime_type + ";base64,"@ + base64_standard(data)
}

/// The wire form of one content part. An inline image becomes a `data:` URL.
pub open spec fn content_part_of(part: llm::ContentPartView) -> client::ContentPartView {
    match part {
        llm::ContentPartView::Text(text) => client::ContentPartView::TextInput { text },
        llm::ContentPartView::Image(llm::ImageReferenceView::Url(image)) => {
            client::ContentPartView::ImageInput {
                image_url: client::ImageUrlView { url: image.url, detail: detail_of(image.detail) },
            }
        },
        llm::ContentPartView::Image(llm::ImageReferenceView::Inline(source)) => {
            client::ContentPartView::ImageInput {
                image_url: client::ImageUrlView {
                    url: data_url(source.mime_type, source.data),
                    detail: detail_of(source.detail),
                },
            }
        },
    }
}

/// The wire form of a message's content: always a list, part for part.
pub open spec fn content_of(parts: Seq<llm::ContentPartView>) -> client::ContentView {
    client::ContentView::List(Seq::new(parts.len(), |i: int| content_part_of(parts[i])))
}

fn convert_content_part(part: &llm::ContentPart) -> (r: client::ContentPart)
    requires
        part_encodable(part@),
    ensures
        r@ == content_part_of(part@),
{
    match part {
        llm::ContentPart::Text(text) => client::ContentPart::TextInput { text: text.clone() },
        llm::ContentPart::Image(llm::ImageReference::Url(image)) => client::ContentPart::ImageInput {
            image_url: client::ImageUrl {
                url: image.url.clone(),
                detail: convert_detail(image.detail),
            },
        },
        llm::ContentPart::Image(llm::ImageReference::Inline(source)) => {
            let encoded = encode_base64(&source.data);
            let mut url = String::from_str("data:");
            url.append(source.mime_type.as_str());
            url.append(";base64,");
            url.append(encoded.as_str());
            client::ContentPart::ImageInput {
                image_url: client::ImageUrl { url, detail: convert_detail(source.detail) },
            }
        },
    }
}

/// Maps the content of a message to its wire form.
pub fn convert_content_parts(contents: Vec<llm::ContentPart>) -> (r: client::Content)
    requires
        parts_encodable(views(contents@)),
    ensures
        r@ == content_of(views(contents@)),
{
    convert_parts(&contents)
}

fn convert_parts(contents: &Vec<llm::ContentPart>) -> (r: client::Content)
    requires
        parts_encodable(views(contents@)),
    ensures
        r@ == content_of(views(contents@)),
{
    let ghost parts = views(contents@);
    let mut result: Vec<client::ContentPart> = Vec::new();
    let mut i: usize = 0;
    while i < contents.len()
        invariant
            i <= contents.len(),
            parts == views(contents@),
            parts_encodable(parts),
            result.len() == i,
            forall|j: int| 0 <= j < i ==> (#[trigger] result[j])@ == content_part_of(parts[j]),
        decreases contents.len() - i,
    {
        assert(part_encodable(parts[i as int]));
        result.push(convert_content_part(&contents[i]));
        i += 1;
    }
    assert(views(result@) =~= Seq::new(parts.len(), |i: int| content_part_of(parts[i])));
    client::Content::List(result)
}

/// Whether a message of the tool role is among `messages`.
pub open spec fn holds_tool_message(messages: Seq<llm::MessageView>) -> bool {
    exists|i: int| 0 <= i < messages.len() && (#[trigger] messages[i]).role == Role::Tool
}

/// The failure that a message of the tool role in a conversation is
/// reported as. Such a message holds no id of the call that it answers, and
/// none is made up for it: the reply of a tool goes out only together with
/// its call, through `tool_results_to_messages`.
pub open spec fn tool_message_failure() -> llm::ErrorView {
    llm::ErrorView {
        code: ErrorCode::InvalidRequest,
        message: "A message of the tool role holds no tool call id: pass the results of tool calls together with their calls"@,
        provider_error_json: None,
    }
}

/// The wire form of one message; none for a message of the tool role.
pub open spec fn message_of(message: llm::MessageView) -> Option<client::MessageView> {
    match message.role {
        Role::User => Some(
            client::MessageView::User {
                name: message.name,
                content: content_of(message.content),
            },
        ),
        Role::Assistant => Some(
            client::MessageView::Assistant {
                name: message.name,
                content: Some(content_of(message.content)),
                tool_calls: None,
            },
        ),
        Role::System => Some(
            client::MessageView::System {
                name: message.name,
                content: content_of(message.content),
            },
        ),
        Role::Tool => None,
    }
}

/// The wire forms of a list of messages, message for message, where none of
/// them is of the tool role.
pub open spec fn messages_of(messages: Seq<llm::MessageView>) -> Seq<client::MessageView>
    recommends
        !holds_tool_message(messages),
{
    Seq::new(messages.len(), |i: int| message_of(messages[i])->0)
}

fn convert_message(message: &llm::Message) -> (r: Option<client::Message>)
    requires
        parts_encodable(message@.content),
    ensures
        opt_view(r) == message_of(message@),
{
    match message.role {
        Role::User => Some(
            client::Message::User {
                name: message.name.clone(),
                content: convert_parts(&message.content),
            },
        ),
        Role::Assistant => Some(
            client::Message::Assistant {
                name: message.name.clone(),
                content: Some(convert_parts(&message.content)),
                tool_calls: None,
            },
        ),
        Role::System => Some(
            client::Message::System {
                name: message.name.clone(),
                content: convert_parts(&message.content),
            },
        ),
        Role::Tool => None,
    }
}

/// Whether a message of the tool role is among `messages`: the test of what
/// `create_request` refuses.
pub fn has_tool_message(messages: &Vec<llm::Message>) -> (r: bool)
    ensures
        r == holds_tool_message(views(messages@)),
{
    let ghost given = views(messages@);
    let mut i: usize = 0;
    while i < messages.len()
        invariant
            i <= messages.len(),
            given == views(messages@),
            forall|j: int| 0 <= j < i ==> (#[trigger] given[j]).role != Role::Tool,
        decreases messages.len() - i,
    {
        match messages[i].role {
            Role::Tool => {
                assert(given[i as int].role == Role::Tool);
                return true;
            },
            _ => {},
        }
        i += 1;
    }
    false
}

/// The failure that a tool whose parameter schema is no JSON is reported as.
pub open spec fn tool_schema_failure(name: Seq<char>, diagnostic: Seq<char>) -> llm::ErrorView {
    llm::ErrorView {
        code: ErrorCode::InternalError,
        message: "Failed to parse tool parameters for "@ + name + ": "@ + diagnostic,
        provider_error_json: None,
    }
}

/// The wire form of a tool definition: a function whose parameters are the
/// schema, where the schema is JSON; else the failure.
pub open spec fn tool_of(tool: llm::ToolDefinitionView) -> Result<client::ToolView, llm::ErrorView> {
    match json_diagnosis(tool.parameters_schema) {
        None => Ok(
            client::ToolView::Function {
                function: client::FunctionView {
                    name: tool.name,
                    description: tool.description,
                    parameters: Some(tool.parameters_schema),
                },
            },
        ),
        Some(diagnostic) => Err(tool_schema_failure(tool.name, diagnostic)),
    }
}

/// The wire forms of a list of tool definitions, or the failure of the first
/// among them that fails.
pub open spec fn tools_of(tools: Seq<llm::ToolDefinitionView>) -> Result<
    Seq<client::ToolView>,
    llm::ErrorView,
>
    decreases tools.len(),
{
    if tools.len() == 0 {
        Ok(Seq::empty())
    } else {
        match tools_of(tools.drop_last()) {
            Err(e) => Err(e),
            Ok(head) => match tool_of(tools.last()) {
                Ok(tool) => Ok(head.push(tool)),
                Err(e) => Err(e),
            },
        }
    }
}

/// Maps a tool definition to its wire form. The schema must be JSON.
pub fn tool_definition_to_tool(tool: llm::ToolDefinition) -> (r: Result<client::Tool, llm::Error>)
    ensures
        result_view(r) == tool_of(tool@),
{
    match diagnose_json(tool.parameters_schema.as_str()) {
        None => Ok(
            client::Tool::Function {
                function: client::Function {
                    name: tool.name,
                    description: tool.description,
                    parameters: Some(tool.parameters_schema),
                },
            },
        ),
        Some(diagnostic) => {
            let mut message = String::from_str("Failed to parse tool parameters for ");
            message.append(tool.name.as_str());
            message.append(": ");
            message.append(diagnostic.as_str());
            Err(llm::Error { code: ErrorCode::InternalError, message, provider_error_json: None })
        },
    }
}

/// The value that the provider options give for `key`: that of the last
/// option with this key.
pub open spec fn option_value(options: Seq<llm::KvView>, key: Seq<char>) -> Option<Seq<char>>
    decreases options.len(),
{
    if options.len() == 0 {
        None
    } else if options.last().key == key {
        Some(options.last().value)
    } else {
        option_value(options.drop_last(), key)
    }
}

/// The number that the provider options give for `key`, where the value
/// reads as an unsigned decimal number no greater than `max`.
pub open spec fn option_number(options: Seq<llm::KvView>, key: Seq<char>, max: nat) -> Option<nat> {
    match option_value(options, key) {
        Some(text) => unsigned_value(text, max),
        None => None,
    }
}

fn lookup_option(options: &Vec<llm::Kv>, key: &str) -> (r: Option<String>)
    ensures
        opt_view(r) == option_value(views(options@), key@),
{
    let ghost all = views(options@);
    let mut i: usize = options.len();
    assert(all.take(i as int) =~= all);
    while i > 0
        invariant
            i <= options.len(),
            all == views(options@),
            option_value(all, key@) == option_value(all.take(i as int), key@),
        decreases i,
    {
        i -= 1;
        proof {
            assert(all.take(i + 1).drop_last() =~= all.take(i as int));
            assert(all.take(i + 1).last() == options@[i as int]@);
        }
        if same_text(options[i].key.as_str(), key) {
            return Some(options[i].value.clone());
        }
    }
    None
}

fn lookup_number(options: &Vec<llm::Kv>, key: &str, max: u32) -> (r: Option<u32>)
    ensures
        match r {
            Some(v) => option_number(views(options@), key@, max as nat) == Some(v as nat),
            None => option_number(views(options@), key@, max as nat) is None,
        },
{
    match lookup_option(options, key) {
        Some(text) => parse_unsigned(text.as_str(), max),
        None => None,
    }
}

/// A number of at most 32 bits that the options give.
pub open spec fn option_u32(options: Seq<llm::KvView>, key: Seq<char>) -> Option<u32> {
    match option_number(options, key, u32::MAX as nat) {
        Some(v) => Some(v as u32),
        None => None,
    }
}

/// A number of at most 8 bits that the options give.
pub open spec fn option_u8(options: Seq<llm::KvView>, key: Seq<char>) -> Option<u8> {
    match option_number(options, key, u8::MAX as nat) {
        Some(v) => Some(v as u8),
        None => None,
    }
}

/// The request that messages and a configuration ask for. Where a message
/// of the tool role is among the messages, that is the failure, whatever the
/// tools are. Else the failure is that of the first tool whose schema is no
/// JSON. The request does not stream. Of the provider options it takes
/// `frequency_penalty`, `presence_penalty` and `top_p` as texts, `n`, `seed`
/// and `top_logprobs` as numbers where they read as such, and `user_id` as
/// the user.
pub open spec fn request_of(messages: Seq<llm::MessageView>, config: llm::ConfigView) -> Result<
    client::CompletionsRequestView,
    llm::ErrorView,
> {
    if holds_tool_message(messages) {
        Err(tool_message_failure())
    } else {
        request_with_tools(messages, config)
    }
}

/// The request for messages none of which is of the tool role.
pub open spec fn request_with_tools(
    messages: Seq<llm::MessageView>,
    config: llm::ConfigView,
) -> Result<client::CompletionsRequestView, llm::ErrorView> {
    match tools_of(config.tools) {
        Err(e) => Err(e),
        Ok(tools) => Ok(
            client::CompletionsRequestView {
                messages: messages_of(messages),
                model: config.model,
                frequency_penalty: option_value(config.provider_options, "frequency_penalty"@),
                max_completion_tokens: config.max_tokens,
                n: option_u32(config.provider_options, "n"@),
                presence_penalty: option_value(config.provider_options, "presence_penalty"@),
                seed: option_u32(config.provider_options, "seed"@),
                stop: config.stop_sequences,
                stream: Some(false),
                stream_options: None,
                tool_choice: config.tool_choice,
                tools,
                top_logprobs: option_u8(config.provider_options, "top_logprobs"@),
                top_p: option_value(config.provider_options, "top_p"@),
                user: option_value(config.provider_options, "user_id"@),
            },
        ),
    }
}

fn convert_tools(tools: Vec<llm::ToolDefinition>) -> (r: Result<Vec<client::Tool>, llm::Error>)
    ensures
        match r {
            Ok(list) => tools_of(views(tools@)) == Ok::<Seq<client::ToolView>, llm::ErrorView>(
                views(list@),
            ),
            Err(e) => tools_of(views(tools@)) == Err::<Seq<client::ToolView>, llm::ErrorView>(e@),
        },
{
    let ghost all = views(tools@);
    let mut out: Vec<client::Tool> = Vec::new();
    let mut i: usize = 0;
    assert(all.take(0) =~= Seq::empty());
    assert(views(out@) =~= Seq::empty());
    while i < tools.len()
        invariant
            i <= tools.len(),
            all == views(tools@),
            tools_of(all.take(i as int)) == Ok::<Seq<client::ToolView>, llm::ErrorView>(
                views(out@),
            ),
        decreases tools.len() - i,
    {
        proof {
            assert(all.take(i + 1).drop_last() =~= all.take(i as int));
            assert(all.take(i + 1).last() == tools@[i as int]@);
        }
        match tool_definition_to_tool(tools[i].clone()) {
            Ok(tool) => {
                proof {
                    lemma_views_push(out@, tool);
                }
                out.push(tool);
            },
            Err(e) => {
                proof {
                    lemma_tools_of_fails(all, i as int);
                }
                return Err(e);
            },
        }
        i += 1;
    }
    assert(all.take(tools.len() as int) =~= all);
    Ok(out)
}

/// Where the tools up to and with one of them fail, all of them fail alike.
proof fn lemma_tools_of_fails(tools: Seq<llm::ToolDefinitionView>, k: int)
    requires
        0 <= k < tools.len(),
        tools_of(tools.take(k + 1)) is Err,
    ensures
        tools_of(tools) == tools_of(tools.take(k + 1)),
    decreases tools.len(),
{
    if k + 1 == tools.len() {
        assert(tools.take(k + 1) =~= tools);
    } else {
        assert(tools.drop_last().take(k + 1) =~= tools.take(k + 1));
        lemma_tools_of_fails(tools.drop_last(), k);
    }
}

/// Builds the request for a conversation. Fails where a message of the tool
/// role is among the messages; else, with the tool's name and the
/// diagnostic, where the parameter schema of a tool is no JSON.
pub fn create_request(messages: Vec<llm::Message>, config: llm::Config) -> (r: Result<
    client::CompletionsRequest,
    llm::Error,
>)
    requires
        messages_encodable(views(messages@)),
    ensures
        result_view(r) == request_of(views(messages@), config@),
{
    let ghost given = views(messages@);
    let mut completion_messages: Vec<client::Message> = Vec::new();
    let mut i: usize = 0;
    while i < messages.len()
        invariant
            i <= messages.len(),
            given == views(messages@),
            messages_encodable(given),
            completion_messages.len() == i,
            forall|j: int| 0 <= j < i ==> (#[trigger] given[j]).role != Role::Tool,
            forall|j: int|
                0 <= j < i ==> Some((#[trigger] completion_messages[j])@) == message_of(given[j]),
        decreases messages.len() - i,
    {
        assert(parts_encodable(given[i as int].content));
        match convert_message(&messages[i]) {
            Some(message) => {
                completion_messages.push(message);
            },
            None => {
                assert(given[i as int].role == Role::Tool);
                return Err(
                    llm::Error {
                        code: ErrorCode::InvalidRequest,
                        message: String::from_str(
                            "A message of the tool role holds no tool call id: pass the results of tool calls together with their calls",
                        ),
                        provider_error_json: None,
                    },
                );
            },
        }
        i += 1;
    }
    assert(!holds_tool_message(given));
    assert(views(completion_messages@) =~= messages_of(given));
    let tools = match convert_tools(config.tools) {
        Ok(tools) => tools,
        Err(e) => {
            return Err(e);
        },
    };
    let options = &config.provider_options;
    Ok(
        client::CompletionsRequest {
            messages: completion_messages,
            model: config.model,
            frequency_penalty: lookup_option(options, "frequency_penalty"),
            max_completion_tokens: config.max_tokens,
            n: lookup_number(options, "n", u32::MAX),
            presence_penalty: lookup_option(options, "presence_penalty"),
            seed: lookup_number(options, "seed", u32::MAX),
            stop: config.stop_sequences,
            stream: Some(false),
            stream_options: None,
            tool_choice: config.tool_choice,
            tools,
            top_logprobs: match lookup_number(options, "top_logprobs", 255) {
                Some(v) => Some(v as u8),
                None => None,
            },
            top_p: lookup_option(options, "top_p"),
            user: lookup_option(options, "user_id"),
        },
    )
}

/// The assistant's message that asks for a tool call.
pub open spec fn call_message(call: llm::ToolCallView) -> client::MessageView {
    client::MessageView::Assistant {
        content: None,
        name: None,
        tool_calls: Some(
            seq![
                client::ToolCallView::Function {
                    function: client::FunctionCallView {
                        arguments: call.arguments_json,
                        name: call.name,
                    },
                    id: call.id,
                    index: None,
                },
            ],
        ),
    }
}

/// What a tool's outcome reads as: the result, or the error message.
pub open spec fn result_text(result: llm::ToolResultView) -> Seq<char> {
    match result {
        llm::ToolResultView::Success(success) => success.result_json,
        llm::ToolResultView::Error(failure) => failure.error_message,
    }
}

/// The tool's message that answers a call, under the id of the call.
pub open spec fn result_message(
    call: llm::ToolCallView,
    result: llm::ToolResultView,
) -> client::MessageView {
    client::MessageView::Tool {
        name: None,
        content: client::ContentView::List(
            seq![client::ContentPartView::TextInput { text: result_text(result) }],
        ),
        tool_call_id: call.id,
    }
}

/// The messages that tool calls and their outcomes go out as: for each pair,
/// in order, the assistant's call and then the tool's answer.
pub open spec fn tool_messages(pairs: Seq<(llm::ToolCallView, llm::ToolResultView)>) -> Seq<
    client::MessageView,
> {
    Seq::new(
        2 * pairs.len(),
        |k: int|
            if k % 2 == 0 {
                call_message(pairs[k / 2].0)
            } else {
                result_message(pairs[k / 2].0, pairs[k / 2].1)
            },
    )
}

/// Maps tool calls and their outcomes to the messages that carry them.
pub fn tool_results_to_messages(tool_results: Vec<(llm::ToolCall, llm::ToolResult)>) -> (r: Vec<
    client::Message,
>)
    ensures
        views(r@) == tool_messages(views(tool_results@)),
{
    let ghost pairs = views(tool_results@);
    let mut messages: Vec<client::Message> = Vec::new();
    let mut i: usize = 0;
    while i < tool_results.len()
        invariant
            i <= tool_results.len(),
            pairs == views(tool_results@),
            messages.len() == 2 * i,
            forall|k: int|
                0 <= k < 2 * i ==> (#[trigger] messages[k])@ == tool_messages(pairs)[k],
        decreases tool_results.len() - i,
    {
        let tool_call = &tool_results[i].0;
        let tool_result = &tool_results[i].1;
        assert(pairs[i as int] == (tool_call@, tool_result@));
        let calls = vec![
            client::ToolCall::Function {
                function: client::FunctionCall {
                    arguments: tool_call.arguments_json.clone(),
                    name: tool_call.name.clone(),
                },
                id: tool_call.id.clone(),
                index: None,
            },
        ];
        assert(views(calls@) =~= call_message(tool_call@)->Assistant_tool_calls->0);
        let asks = client::Message::Assistant { content: None, name: None, tool_calls: Some(calls) };
        let text = match tool_result {
            llm::ToolResult::Success(success) => success.result_json.clone(),
            llm::ToolResult::Error(failure) => failure.error_message.clone(),
        };
        let parts = vec![client::ContentPart::TextInput { text }];
        assert(views(parts@) =~= seq![
            client::ContentPartView::TextInput { text: result_text(tool_result@) },
        ]);
        let answers = client::Message::Tool {
            name: None,
            content: client::Content::List(parts),
            tool_call_id: tool_call.id.clone(),
        };
        assert(asks@ == tool_messages(pairs)[2 * i]);
        assert(answers@ == tool_messages(pairs)[2 * i + 1]);
        messages.push(asks);
        messages.push(answers);
        i += 1;
    }
    assert(views(messages@) =~= tool_messages(pairs));
    messages
}

/// The request that continues a conversation after tool calls: the request
/// for the conversation, with the messages of the calls and their outcomes
/// at the end.
pub open spec fn continued_request_of(
    messages: Seq<llm::MessageView>,
    pairs: Seq<(llm::ToolCallView, llm::ToolResultView)>,
    config: llm::ConfigView,
) -> Result<client::CompletionsRequestView, llm::ErrorView> {
    match request_of(messages, config) {
        Ok(request) => Ok(
            client::CompletionsRequestView {
                messages: request.messages + tool_messages(pairs),
                ..request
            },
        ),
        Err(e) => Err(e),
    }
}

/// A conversation that holds a message of the tool role is refused, with
/// the failure that names the misuse, by the request and by the request that
/// continues after tool calls alike, whatever the tools and the outcomes
/// are: no request with a made-up id is built.
pub proof fn law_tool_message_is_refused(
    messages: Seq<llm::MessageView>,
    pairs: Seq<(llm::ToolCallView, llm::ToolResultView)>,
    config: llm::ConfigView,
)
    requires
        holds_tool_message(messages),
    ensures
        request_of(messages, config) == Err::<client::CompletionsRequestView, llm::ErrorView>(
            tool_message_failure(),
        ),
        continued_request_of(messages, pairs, config) == Err::<
            client::CompletionsRequestView,
            llm::ErrorView,
        >(tool_message_failure()),
{
}

/// Builds the request that hands the outcomes of tool calls back to the
/// model. Fails as `create_request` does.
pub fn create_continue_request(
    messages: Vec<llm::Message>,
    tool_results: Vec<(llm::ToolCall, llm::ToolResult)>,
    config: llm::Config,
) -> (r: Result<client::CompletionsRequest, llm::Error>)
    requires
        messages_encodable(views(messages@)),
    ensures
        result_view(r) == continued_request_of(
            views(messages@),
            views(tool_results@),
            config@,
        ),
{
    match create_request(messages, config) {
        Ok(mut request) => {
            let mut extra = tool_results_to_messages(tool_results);
            proof {
                lemma_views_add(request.messages@, extra@);
            }
            request.messages.append(&mut extra);
            Ok(request)
        },
        Err(e) => Err(e),
    }
}

/// Asks for the reply to `request` as a stream.
pub fn into_streaming(request: client::CompletionsRequest) -> (r: client::CompletionsRequest)
    ensures
        r@ == (client::CompletionsRequestView { stream: Some(true), ..request@ }),
{
    let mut request = request;
    request.stream = Some(true);
    request
}

/// The failure that a response without a choice is reported as.
pub open spec fn no_choices_failure() -> llm::ErrorView {
    llm::ErrorView {
        code: ErrorCode::InternalError,
        message: "No choices in response"@,
        provider_error_json: None,
    }
}

/// A list of the provider's tool calls in the conversation model, call for
/// call.
pub open spec fn tool_calls_of(calls: Seq<client::ToolCallView>) -> Seq<llm::ToolCallView> {
    Seq::new(calls.len(), |i: int| tool_call_of(calls[i]))
}

/// The text of a reply as content parts: one text part, or none.
pub open spec fn reply_content(message: client::ResponseMessageView) -> Seq<llm::ContentPartView> {
    match message.content {
        Some(text) => seq![llm::ContentPartView::Text(text)],
        None => Seq::empty(),
    }
}

/// The tool calls of a reply.
pub open spec fn reply_tool_calls(message: client::ResponseMessageView) -> Seq<llm::ToolCallView> {
    match message.tool_calls {
        Some(calls) => tool_calls_of(calls),
        None => Seq::empty(),
    }
}

/// What is known of a whole response once it is mapped.
pub open spec fn response_metadata(response: client::CompletionsResponseView) -> llm::ResponseMetadataView
    recommends
        response.choices.len() > 0,
{
    llm::ResponseMetadataView {
        finish_reason: match response.choices[0].finish_reason {
            Some(reason) => Some(finish_reason_of(reason)),
            None => None,
        },
        usage: match response.usage {
            Some(usage) => Some(usage_of(usage)),
            None => None,
        },
        provider_id: Some(response.id),
        timestamp: Some(decimal(response.created as nat)),
        provider_metadata_json: None,
    }
}

/// The event that a whole response is mapped to. Only the first choice is
/// read. Without a choice the event is an error. A reply of tool calls and
/// no text is a tool request; any other reply is a message.
pub open spec fn response_event(response: client::CompletionsResponseView) -> llm::ChatEventView {
    if response.choices.len() == 0 {
        llm::ChatEventView::Error(no_choices_failure())
    } else {
        let message = response.choices[0].message;
        if reply_content(message).len() == 0 && reply_tool_calls(message).len() > 0 {
            llm::ChatEventView::ToolRequest(reply_tool_calls(message))
        } else {
            llm::ChatEventView::Message(
                llm::CompleteResponseView {
                    id: response.id,
                    content: reply_content(message),
                    tool_calls: reply_tool_calls(message),
                    metadata: response_metadata(response),
                },
            )
        }
    }
}

fn convert_tool_calls(calls: &Vec<client::ToolCall>) -> (r: Vec<llm::ToolCall>)
    ensures
        views(r@) == tool_calls_of(views(calls@)),
{
    let mut out: Vec<llm::ToolCall> = Vec::new();
    let mut i: usize = 0;
    while i < calls.len()
        invariant
            i <= calls.len(),
            out.len() == i,
            forall|j: int| 0 <= j < i ==> (#[trigger] out[j])@ == tool_call_of(calls[j]@),
        decreases calls.len() - i,
    {
        out.push(convert_tool_call(&calls[i]));
        i += 1;
    }
    assert(views(out@) =~= tool_calls_of(views(calls@)));
    out
}

/// Maps a whole response to the one event of a call that does not stream.
pub fn process_response(response: client::CompletionsResponse) -> (r: llm::ChatEvent)
    ensures
        r@ == response_event(response@),
{
    if response.choices.len() == 0 {
        return llm::ChatEvent::Error(
            llm::Error {
                code: ErrorCode::InternalError,
                message: String::from_str("No choices in response"),
                provider_error_json: None,
            },
        );
    }
    let choice = &response.choices[0];
    assert(choice@ == response@.choices[0]);
    let mut contents: Vec<llm::ContentPart> = Vec::new();
    match &choice.message.content {
        Some(content) => {
            contents.push(llm::ContentPart::Text(content.clone()));
        },
        None => {},
    }
    assert(views(contents@) =~= reply_content(choice@.message));
    let tool_calls = match &choice.message.tool_calls {
        Some(calls) => convert_tool_calls(calls),
        None => Vec::new(),
    };
    assert(views(tool_calls@) =~= reply_tool_calls(choice@.message));
    if contents.len() == 0 && tool_calls.len() > 0 {
        llm::ChatEvent::ToolRequest(tool_calls)
    } else {
        let metadata = llm::ResponseMetadata {
            finish_reason: match &choice.finish_reason {
                Some(reason) => Some(convert_finish_reason(reason)),
                None => None,
            },
            usage: match &response.usage {
                Some(usage) => Some(convert_usage(usage)),
                None => None,
            },
            provider_id: Some(response.id.clone()),
            timestamp: Some(u64_to_decimal(response.created)),
            provider_metadata_json: None,
        };
        llm::ChatEvent::Message(
            llm::CompleteResponse { id: response.id, content: contents, tool_calls, metadata },
        )
    }
}

} // verus!

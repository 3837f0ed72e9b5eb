use llm_openai::client::{
    Choice, CompletionsResponse, FunctionCall, ResponseMessage, ToolCall as WireToolCall,
};
use llm_openai::conversions::process_response;
use llm_openai::llm::{
    ChatEvent, ContentPart, Error, ErrorCode, ImageReference, ImageSource, ImageUrl, ToolCall,
};
use llm_openai::render::{render_parts, render_visible_text, tool_calls_requested};

fn text(value: &str) -> ContentPart {
    ContentPart::Text(value.to_string())
}

fn response(content: Option<&str>, tool_calls: Option<Vec<WireToolCall>>) -> CompletionsResponse {
    CompletionsResponse {
        choices: vec![Choice {
            finish_reason: None,
            index: 0,
            message: ResponseMessage {
                content: content.map(str::to_string),
                refusal: None,
                role: "assistant".to_string(),
                tool_calls,
            },
        }],
        created: 1,
        id: "r".to_string(),
        model: "m".to_string(),
        system_fingerprint: None,
        usage: None,
    }
}

fn wire_call(id: &str, name: &str, arguments: &str) -> WireToolCall {
    WireToolCall::Function {
        function: FunctionCall { arguments: arguments.to_string(), name: name.to_string() },
        id: id.to_string(),
        index: None,
    }
}

fn call(id: &str, name: &str, arguments: &str) -> ToolCall {
    ToolCall { id: id.to_string(), name: name.to_string(), arguments_json: arguments.to_string() }
}

#[test]
fn parts_are_joined_with_comma_and_space() {
    assert_eq!(render_parts(&vec![]), "");
    assert_eq!(render_parts(&vec![text("one")]), "one");
    assert_eq!(render_parts(&vec![text("one"), text("two"), text("")]), "one, two, ");
}

#[test]
fn images_are_shown_by_url_or_size() {
    assert_eq!(
        render_parts(&vec![
            text("see"),
            ContentPart::Image(ImageReference::Url(ImageUrl {
                url: "https://example.com/a.png".to_string(),
                detail: None,
            })),
            ContentPart::Image(ImageReference::Inline(ImageSource {
                data: vec![0; 1234],
                mime_type: "image/png".to_string(),
                detail: None,
            })),
        ]),
        "see, [IMAGE URL: https://example.com/a.png], [INLINE IMAGE: 1234 bytes, mime: image/png]"
    );
}

#[test]
fn round_trip_of_a_text_reply() {
    let event = process_response(response(Some("Szia, világ!"), None));
    assert_eq!(render_visible_text(&event), "Szia, világ!");
    assert_eq!(tool_calls_requested(&event), vec![]);
}

#[test]
fn round_trip_of_a_tool_only_reply() {
    let event = process_response(response(
        None,
        Some(vec![wire_call("a", "f", "{\"x\":1}"), wire_call("b", "g", "{}")]),
    ));
    assert_eq!(render_visible_text(&event), "");
    assert_eq!(tool_calls_requested(&event), vec![call("a", "f", "{\"x\":1}"), call("b", "g", "{}")]);
}

#[test]
fn round_trip_of_a_reply_with_text_and_tool_calls() {
    let event = process_response(response(Some("one moment"), Some(vec![wire_call("a", "f", "{}")])));
    assert_eq!(render_visible_text(&event), "one moment");
    assert_eq!(tool_calls_requested(&event), vec![call("a", "f", "{}")]);
}

#[test]
fn an_error_shows_nothing_and_asks_for_nothing() {
    let event = ChatEvent::Error(Error {
        code: ErrorCode::Unknown,
        message: "x".to_string(),
        provider_error_json: None,
    });
    assert_eq!(render_visible_text(&event), "");
    assert_eq!(tool_calls_requested(&event), vec![]);
}

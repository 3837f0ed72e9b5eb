use llm_openai::client::{
    ChatCompletionChunk, ChoiceChunk, ChoiceDelta, FinishReason as WireFinishReason, FunctionCall,
    ToolCall as WirePiece, Usage as WireUsage,
};
use llm_openai::llm::{
    ContentPart, FinishReason, ResponseMetadata, StreamDelta, StreamEvent, ToolCall, Usage,
};
use llm_openai::stream::{deserialize_failure, OpenAIChatStream};

fn chunk(choices: Vec<ChoiceChunk>, usage: Option<WireUsage>) -> ChatCompletionChunk {
    ChatCompletionChunk {
        id: "chatcmpl-1".to_string(),
        created: 1_700_000_000,
        model: "gpt-test".to_string(),
        choices,
        usage,
        system_fingerprint: None,
    }
}

fn choice(
    content: Option<&str>,
    tool_calls: Option<Vec<WirePiece>>,
    finish_reason: Option<WireFinishReason>,
) -> ChoiceChunk {
    ChoiceChunk {
        index: 0,
        delta: ChoiceDelta { content: content.map(str::to_string), tool_calls, role: None },
        finish_reason,
    }
}

fn piece(index: Option<u32>, id: &str, name: &str, arguments: &str) -> WirePiece {
    WirePiece::Function {
        function: FunctionCall { arguments: arguments.to_string(), name: name.to_string() },
        id: id.to_string(),
        index,
    }
}

fn text_delta(text: &str) -> StreamEvent {
    StreamEvent::Delta(StreamDelta {
        content: Some(vec![ContentPart::Text(text.to_string())]),
        tool_calls: None,
    })
}

fn calls_delta(calls: Vec<(&str, &str, &str)>) -> StreamEvent {
    StreamEvent::Delta(StreamDelta {
        content: None,
        tool_calls: Some(
            calls
                .into_iter()
                .map(|(id, name, arguments)| ToolCall {
                    id: id.to_string(),
                    name: name.to_string(),
                    arguments_json: arguments.to_string(),
                })
                .collect(),
        ),
    })
}

fn usage() -> WireUsage {
    WireUsage { completion_tokens: 7, prompt_tokens: 5, total_tokens: 12 }
}

fn arguments_of(event: &Option<StreamEvent>) -> Vec<String> {
    match event {
        Some(StreamEvent::Delta(StreamDelta { tool_calls: Some(calls), .. })) => {
            calls.iter().map(|call| call.arguments_json.clone()).collect()
        }
        _ => Vec::new(),
    }
}

#[test]
fn end_frame_finishes_the_session() {
    let mut session = OpenAIChatStream::new();
    assert!(!session.is_finished());
    assert_eq!(session.accept_frame("data: [DONE]"), Ok(None));
    assert!(session.is_finished());
}

#[test]
fn end_frame_is_the_literal_sentinel_and_nothing_more() {
    for raw in ["data: [DONE] and more", "data: [DONE]x", "data: [DONE] ", "data: [DONE][DONE]"] {
        let mut session = OpenAIChatStream::new();
        session
            .decode_chunk(chunk(vec![choice(None, None, Some(WireFinishReason::Length))], None));
        let outcome = session.accept_frame(raw);
        assert!(outcome.is_err(), "frame {raw:?} gave {outcome:?}");
        assert!(!session.is_finished(), "frame {raw:?}");
        assert_eq!(session.get_finish_reason(), Some(FinishReason::Length));
    }
    let mut session = OpenAIChatStream::new();
    assert_eq!(
        session.accept_frame("data: [DONE] and more"),
        Err("Failed to parse stream event JSON: expected value at line 1 column 2".to_string())
    );
    for raw in ["data: [done]", "data:  [DONE]", " data: [DONE]"] {
        let mut session = OpenAIChatStream::new();
        session.accept_frame(raw).ok();
        assert!(!session.is_finished(), "frame {raw:?}");
    }
}

#[test]
fn failed_frame_leaves_the_fragments_as_they_were() {
    let mut session = OpenAIChatStream::new();
    session.decode_chunk(chunk(
        vec![choice(None, Some(vec![piece(Some(0), "c1", "f", "{\"x\":")]), None)],
        None,
    ));
    assert!(session.accept_frame("data: {").is_err());
    assert!(session.accept_frame("data: [DONE]x").is_err());
    assert!(!session.is_finished());
    let event = session
        .decode_chunk(chunk(vec![choice(None, Some(vec![piece(Some(0), "", "", "1}")]), None)], None));
    assert_eq!(event, Some(calls_delta(vec![("c1", "f", "{\"x\":1}")])));
}

#[test]
fn control_frames_are_passed_over() {
    let mut session = OpenAIChatStream::new();
    for raw in ["", ": keep-alive", "event: ping", "data:{}", "data", " data: {}", "DATA: {}"] {
        assert_eq!(session.accept_frame(raw), Ok(None), "frame {raw:?}");
        assert!(!session.is_finished());
    }
}

#[test]
fn data_frame_hands_out_its_payload() {
    let mut session = OpenAIChatStream::new();
    assert_eq!(
        session.accept_frame("data: {\"id\":\"x\",\"choices\":[]}"),
        Ok(Some("{\"id\":\"x\",\"choices\":[]}"))
    );
    assert!(!session.is_finished());
}

#[test]
fn data_frame_payload_keeps_text_beyond_ascii() {
    let mut session = OpenAIChatStream::new();
    assert_eq!(
        session.accept_frame("data: {\"t\":\"Vršič → 山\"}"),
        Ok(Some("{\"t\":\"Vršič → 山\"}"))
    );
}

#[test]
fn data_frame_that_is_no_json_is_a_decode_failure() {
    let mut session = OpenAIChatStream::new();
    assert_eq!(
        session.accept_frame("data: not json"),
        Err("Failed to parse stream event JSON: expected ident at line 1 column 2".to_string())
    );
    assert_eq!(
        session.accept_frame("data: {\"a\":"),
        Err("Failed to parse stream event JSON: EOF while parsing a value at line 1 column 5"
            .to_string())
    );
    assert_eq!(
        session.accept_frame("data: "),
        Err("Failed to parse stream event JSON: EOF while parsing a value at line 1 column 0"
            .to_string())
    );
    assert!(!session.is_finished());
}

#[test]
fn data_frame_with_two_values_is_a_decode_failure() {
    let mut session = OpenAIChatStream::new();
    assert_eq!(
        session.accept_frame("data: {} {}"),
        Err("Failed to parse stream event JSON: trailing characters at line 1 column 4".to_string())
    );
}

#[test]
fn chunk_that_is_json_of_another_shape_has_its_own_message() {
    assert_eq!(
        deserialize_failure("missing field `id`"),
        "Failed to deserialize stream event: missing field `id`"
    );
}

#[test]
fn text_stream_scenario() {
    let mut session = OpenAIChatStream::new();
    let mut events = Vec::new();

    assert!(session.accept_frame("data: {\"delta\":{\"content\":\"Hel\"}}").unwrap().is_some());
    events.extend(session.decode_chunk(chunk(vec![choice(Some("Hel"), None, None)], None)));
    assert!(session.accept_frame("data: {\"delta\":{\"content\":\"lo\"}}").unwrap().is_some());
    events.extend(session.decode_chunk(chunk(vec![choice(Some("lo"), None, None)], None)));
    assert!(session.accept_frame("data: {\"finish_reason\":\"stop\"}").unwrap().is_some());
    events.extend(
        session.decode_chunk(chunk(vec![choice(None, None, Some(WireFinishReason::Stop))], None)),
    );
    assert_eq!(events.len(), 2);
    assert_eq!(session.get_finish_reason(), Some(FinishReason::Stop));
    assert!(session.accept_frame("data: {\"usage\":{}}").unwrap().is_some());
    events.extend(session.decode_chunk(chunk(vec![], Some(usage()))));
    assert!(!session.is_finished());
    assert_eq!(session.accept_frame("data: [DONE]"), Ok(None));
    assert!(session.is_finished());

    assert_eq!(
        events,
        vec![
            text_delta("Hel"),
            text_delta("lo"),
            StreamEvent::Finish(ResponseMetadata {
                finish_reason: Some(FinishReason::Stop),
                usage: Some(Usage {
                    input_tokens: Some(5),
                    output_tokens: Some(7),
                    total_tokens: Some(12),
                }),
                provider_id: Some("chatcmpl-1".to_string()),
                timestamp: Some("1700000000".to_string()),
                provider_metadata_json: None,
            }),
        ]
    );

    assert_eq!(session.accept_frame("data: {\"delta\":{\"content\":\"late\"}}"), Ok(None));
    assert_eq!(session.decode_chunk(chunk(vec![choice(Some("late"), None, None)], None)), None);
    assert_eq!(session.decode_chunk(chunk(vec![], Some(usage()))), None);
}

#[test]
fn tool_call_fragments_scenario() {
    let mut session = OpenAIChatStream::new();
    let after_a = session.decode_chunk(chunk(
        vec![choice(None, Some(vec![piece(Some(0), "c1", "f", "{\"x\":")]), None)],
        None,
    ));
    assert_eq!(after_a, Some(calls_delta(vec![("c1", "f", "{\"x\":")])));
    let after_b = session
        .decode_chunk(chunk(vec![choice(None, Some(vec![piece(Some(0), "", "", "1}")]), None)], None));
    assert_eq!(after_b, Some(calls_delta(vec![("c1", "f", "{\"x\":1}")])));
}

#[test]
fn fragment_without_position_goes_to_position_zero() {
    let mut session = OpenAIChatStream::new();
    session
        .decode_chunk(chunk(vec![choice(None, Some(vec![piece(Some(0), "c1", "f", "{")]), None)], None));
    let event = session
        .decode_chunk(chunk(vec![choice(None, Some(vec![piece(None, "", "", "}")]), None)], None));
    assert_eq!(event, Some(calls_delta(vec![("c1", "f", "{}")])));
}

#[test]
fn fragments_are_merged_by_position_not_by_id() {
    let mut session = OpenAIChatStream::new();
    let first = session.decode_chunk(chunk(
        vec![choice(
            None,
            Some(vec![piece(Some(0), "c1", "f", "{\"a\""), piece(Some(1), "c2", "g", "[")]),
            None,
        )],
        None,
    ));
    assert_eq!(first, Some(calls_delta(vec![("c1", "f", "{\"a\""), ("c2", "g", "[")])));
    let second = session.decode_chunk(chunk(
        vec![choice(
            None,
            Some(vec![piece(Some(1), "other", "h", "1]"), piece(Some(0), "", "", ":2}")]),
            None,
        )],
        None,
    ));
    assert_eq!(second, Some(calls_delta(vec![("c2", "g", "[1]"), ("c1", "f", "{\"a\":2}")])));
}

#[test]
fn two_pieces_for_one_position_in_one_chunk_give_two_snapshots() {
    let mut session = OpenAIChatStream::new();
    let event = session.decode_chunk(chunk(
        vec![choice(
            None,
            Some(vec![piece(Some(3), "c", "f", "ab"), piece(Some(3), "", "", "cd")]),
            None,
        )],
        None,
    ));
    assert_eq!(event, Some(calls_delta(vec![("c", "f", "ab"), ("c", "f", "abcd")])));
}

#[test]
fn fragment_is_held_back_until_it_has_id_and_name() {
    let mut session = OpenAIChatStream::new();
    let early = session.decode_chunk(chunk(
        vec![choice(None, Some(vec![piece(Some(0), "", "", "{\"city\":")]), None)],
        None,
    ));
    assert_eq!(early, None);
    let named = session
        .decode_chunk(chunk(vec![choice(None, Some(vec![piece(Some(0), "", "f", "")]), None)], None));
    assert_eq!(named, None);
    let identified = session.decode_chunk(chunk(
        vec![choice(None, Some(vec![piece(Some(0), "c9", "ignored", "\"Oslo\"}")]), None)],
        None,
    ));
    assert_eq!(identified, Some(calls_delta(vec![("c9", "f", "{\"city\":\"Oslo\"}")])));
}

#[test]
fn held_back_fragments_let_the_finish_through() {
    let mut session = OpenAIChatStream::new();
    let event = session.decode_chunk(chunk(
        vec![choice(None, Some(vec![piece(Some(0), "", "", "{")]), Some(WireFinishReason::ToolCalls))],
        Some(usage()),
    ));
    match event {
        Some(StreamEvent::Finish(metadata)) => {
            assert_eq!(metadata.finish_reason, Some(FinishReason::ToolCalls));
        }
        other => panic!("expected the finish, got {other:?}"),
    }
}

#[test]
fn arguments_only_grow() {
    let mut session = OpenAIChatStream::new();
    let pieces = ["{\"q\":", "\"rust ", "verification", "\"", "", "}"];
    let mut shown: Vec<String> = Vec::new();
    for (n, text) in pieces.iter().enumerate() {
        let id = if n == 0 { "call_1" } else { "" };
        let name = if n == 0 { "search" } else { "" };
        let event = session.decode_chunk(chunk(
            vec![choice(None, Some(vec![piece(Some(2), id, name, text)]), None)],
            None,
        ));
        shown.extend(arguments_of(&event));
    }
    assert_eq!(shown.len(), pieces.len());
    for pair in shown.windows(2) {
        assert!(pair[1].starts_with(pair[0].as_str()), "{:?} does not begin with {:?}", pair[1], pair[0]);
    }
    assert_eq!(shown.last().unwrap(), "{\"q\":\"rust verification\"}");
}

#[test]
fn text_wins_over_tool_calls_in_one_chunk() {
    let mut session = OpenAIChatStream::new();
    let event = session.decode_chunk(chunk(
        vec![choice(Some("hi"), Some(vec![piece(Some(0), "c1", "f", "{")]), None)],
        Some(usage()),
    ));
    assert_eq!(event, Some(text_delta("hi")));
    let next = session
        .decode_chunk(chunk(vec![choice(None, Some(vec![piece(Some(0), "c1", "f", "}")]), None)], None));
    assert_eq!(next, Some(calls_delta(vec![("c1", "f", "}")])));
}

#[test]
fn empty_text_is_still_a_delta() {
    let mut session = OpenAIChatStream::new();
    let event = session.decode_chunk(chunk(vec![choice(Some(""), None, None)], Some(usage())));
    assert_eq!(event, Some(text_delta("")));
}

#[test]
fn only_the_first_choice_is_read() {
    let mut session = OpenAIChatStream::new();
    let event = session.decode_chunk(chunk(
        vec![
            choice(None, None, None),
            choice(Some("second"), None, Some(WireFinishReason::Length)),
        ],
        None,
    ));
    assert_eq!(event, None);
    assert_eq!(session.get_finish_reason(), None);
}

#[test]
fn heartbeat_chunk_yields_nothing() {
    let mut session = OpenAIChatStream::new();
    let mut role_only = choice(None, None, None);
    role_only.delta.role = Some("assistant".to_string());
    assert_eq!(session.decode_chunk(chunk(vec![role_only], None)), None);
    assert_eq!(session.decode_chunk(chunk(vec![], None)), None);
    assert_eq!(session.decode_chunk(chunk(vec![choice(None, Some(vec![]), None)], None)), None);
}

#[test]
fn finish_without_a_reason_has_none() {
    let mut session = OpenAIChatStream::new();
    let event = session.decode_chunk(chunk(vec![], Some(usage())));
    match event {
        Some(StreamEvent::Finish(metadata)) => assert_eq!(metadata.finish_reason, None),
        other => panic!("expected the finish, got {other:?}"),
    }
}

#[test]
fn finish_reason_of_the_last_writer_wins() {
    let mut session = OpenAIChatStream::new();
    session.decode_chunk(chunk(vec![choice(None, None, Some(WireFinishReason::Length))], None));
    session.decode_chunk(chunk(vec![choice(None, None, None)], None));
    session.decode_chunk(chunk(vec![choice(Some("x"), None, Some(WireFinishReason::ContentFilter))], None));
    session.decode_chunk(chunk(vec![], None));
    let event = session.decode_chunk(chunk(vec![choice(None, None, None)], Some(usage())));
    match event {
        Some(StreamEvent::Finish(metadata)) => {
            assert_eq!(metadata.finish_reason, Some(FinishReason::ContentFilter));
        }
        other => panic!("expected the finish, got {other:?}"),
    }
}

#[test]
fn finish_reason_in_the_finishing_chunk_counts() {
    let mut session = OpenAIChatStream::new();
    session.decode_chunk(chunk(vec![choice(None, None, Some(WireFinishReason::Length))], None));
    let event = session
        .decode_chunk(chunk(vec![choice(None, None, Some(WireFinishReason::Stop))], Some(usage())));
    match event {
        Some(StreamEvent::Finish(metadata)) => {
            assert_eq!(metadata.finish_reason, Some(FinishReason::Stop));
        }
        other => panic!("expected the finish, got {other:?}"),
    }
}

#[test]
fn events_never_outnumber_data_frames() {
    let frames: Vec<(&str, Option<ChatCompletionChunk>)> = vec![
        (": comment", None),
        ("data: {\"a\":1}", Some(chunk(vec![choice(Some("a"), None, None)], None))),
        ("", None),
        ("data: {\"a\":2}", Some(chunk(vec![choice(None, None, None)], None))),
        ("data: {\"a\":3}", Some(chunk(vec![choice(None, Some(vec![piece(None, "c", "f", "1")]), None)], None))),
        ("event: ping", None),
        ("data: {\"a\":4}", Some(chunk(vec![], Some(usage())))),
        ("data: [DONE]", None),
        ("data: {\"a\":5}", Some(chunk(vec![choice(Some("b"), None, None)], None))),
    ];
    let mut session = OpenAIChatStream::new();
    let mut events = 0;
    let mut data_frames = 0;
    let mut end_seen = false;
    for (raw, parsed) in frames {
        if raw == "data: [DONE]" {
            end_seen = true;
        } else if raw.starts_with("data: ") {
            data_frames += 1;
        }
        if let Some(_payload) = session.accept_frame(raw).unwrap() {
            if session.decode_chunk(parsed.unwrap()).is_some() {
                events += 1;
            }
        }
        assert!(events <= data_frames);
        assert_eq!(session.is_finished(), end_seen);
    }
    assert_eq!(events, 3);
    assert_eq!(data_frames, 5);
}

#[test]
fn session_without_end_frame_stays_open() {
    let mut session = OpenAIChatStream::new();
    session.decode_chunk(chunk(vec![choice(Some("a"), None, Some(WireFinishReason::Stop))], None));
    session.decode_chunk(chunk(vec![], Some(usage())));
    assert!(!session.is_finished());
}

#[test]
fn finish_reason_can_be_read_before_the_finish() {
    let mut session = OpenAIChatStream::new();
    assert_eq!(session.failure(), &None);
    assert_eq!(session.get_finish_reason(), None);
    let event = session
        .decode_chunk(chunk(vec![choice(None, None, Some(WireFinishReason::Length))], None));
    assert_eq!(event, None);
    assert_eq!(session.get_finish_reason(), Some(FinishReason::Length));
    session.accept_frame("data: [DONE]").unwrap();
    assert!(session.is_finished());
    assert_eq!(session.get_finish_reason(), Some(FinishReason::Length));
}

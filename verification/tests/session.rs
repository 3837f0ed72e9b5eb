use llm_openai::llm::{Error, ErrorCode, StreamEvent};
use llm_openai::stream::{decode_error, OpenAIChatStream};

fn missing_key() -> Error {
    Error {
        code: ErrorCode::InternalError,
        message: "Missing config key: OPENAI_API_KEY".to_string(),
        provider_error_json: None,
    }
}

#[test]
fn open_session_asks_for_a_poll() {
    let mut session = OpenAIChatStream::new();
    assert_eq!(session.before_poll(), None);
    assert!(!session.is_finished());
}

#[test]
fn failed_session_reports_its_failure_once() {
    let mut session = OpenAIChatStream::failed(missing_key());
    assert_eq!(session.failure(), &Some(missing_key()));
    assert!(!session.is_finished());
    assert_eq!(session.before_poll(), Some(vec![StreamEvent::Error(missing_key())]));
    assert!(session.is_finished());
    assert_eq!(session.before_poll(), Some(vec![]));
    assert_eq!(session.before_poll(), Some(vec![]));
}

#[test]
fn finished_session_yields_the_empty_batch() {
    let mut session = OpenAIChatStream::new();
    session.accept_frame("data: [DONE]").unwrap();
    assert_eq!(session.before_poll(), Some(vec![]));
}

#[test]
fn end_of_stream_finishes_with_an_empty_batch() {
    let mut session = OpenAIChatStream::new();
    assert_eq!(session.on_end_of_stream(), vec![]);
    assert!(session.is_finished());
}

#[test]
fn decode_failure_is_one_last_error() {
    let mut session = OpenAIChatStream::new();
    let message = session.accept_frame("data: {").unwrap_err();
    let batch = session.on_error(decode_error(message));
    assert_eq!(
        batch,
        vec![StreamEvent::Error(Error {
            code: ErrorCode::InternalError,
            message:
                "Failed to parse stream event JSON: EOF while parsing an object at line 1 column 1"
                    .to_string(),
            provider_error_json: None,
        })]
    );
    assert!(session.is_finished());
    assert_eq!(session.before_poll(), Some(vec![]));
    assert_eq!(session.on_error(missing_key()), vec![]);
}

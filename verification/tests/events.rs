use model_session::errors::{LoadError, NotReadyError, StreamError};
use model_session::events::TokenEvent;

#[test]
fn token_travels_with_its_text() {
    let event = TokenEvent::Token(String::from("Hel"));
    assert_eq!(event.payload(), Some(String::from("Hel")));
    assert!(!event.is_end());
}

#[test]
fn sentinel_travels_without_payload() {
    assert_eq!(TokenEvent::End.payload(), None);
    assert!(TokenEvent::End.is_end());
}

#[test]
fn empty_fragment_is_not_the_sentinel() {
    let event = TokenEvent::Token(String::new());
    assert_eq!(event.payload(), Some(String::new()));
    assert!(!event.is_end());
}

#[test]
fn payload_names_its_event() {
    assert_eq!(
        TokenEvent::from_payload(Some(String::from("lo"))),
        TokenEvent::Token(String::from("lo"))
    );
    assert_eq!(TokenEvent::from_payload(None), TokenEvent::End);
}

#[test]
fn payload_round_trip() {
    let events = vec![
        TokenEvent::Token(String::from("a")),
        TokenEvent::Token(String::from("")),
        TokenEvent::Token(String::from("héllo wörld")),
        TokenEvent::End,
    ];
    for event in events {
        assert_eq!(TokenEvent::from_payload(event.payload()), event);
    }
}

#[test]
fn event_clone_is_equal() {
    let event = TokenEvent::Token(String::from("abc"));
    assert_eq!(event.clone(), event);
    assert_eq!(TokenEvent::End.clone(), TokenEvent::End);
}

#[test]
fn not_ready_message() {
    assert_eq!(NotReadyError.message(), "no model is loaded");
    assert_eq!(StreamError::NotReady.message(), "no model is loaded");
    assert_eq!(
        StreamError::from_not_ready(NotReadyError),
        StreamError::NotReady
    );
}

#[test]
fn backend_message_is_the_diagnostic() {
    let error = StreamError::Backend(String::from("the context window is full"));
    assert_eq!(error.message(), "the context window is full");
    assert!(!error.is_not_ready());
    assert!(StreamError::NotReady.is_not_ready());
    assert_eq!(error.clone(), error);
}

#[test]
fn load_error_keeps_its_diagnostic() {
    let error = LoadError::new(String::from("invalid magic number"));
    assert_eq!(error.message(), "invalid magic number");
    assert_eq!(error.message, "invalid magic number");
    assert_eq!(error.clone(), error);
}

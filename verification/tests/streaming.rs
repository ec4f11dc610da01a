use model_session::commands::{load_model, run_inference};
use model_session::errors::{LoadError, StreamError};
use model_session::events::TokenEvent;
use model_session::family::ModelFamily;
use model_session::store::SessionStore;
use model_session::stream::{InferenceRun, RunPhase, Signal};
use std::cell::{Cell, RefCell};

type Store = SessionStore<String, Vec<String>>;

fn loaded_store() -> Store {
    let mut store = Store::new();
    let outcome = load_model(
        &mut store,
        "weights.bin",
        "llama",
        |path: &str, family: ModelFamily| -> Result<String, LoadError> {
            Ok(format!("{} as {}", path, family.tag()))
        },
        |model: &String| vec![format!("session of {}", model)],
    );
    assert_eq!(outcome, Ok(()));
    store
}

fn token(text: &str) -> TokenEvent {
    TokenEvent::Token(String::from(text))
}

#[test]
fn streaming_without_a_model_is_not_ready_and_delivers_nothing() {
    let mut store = Store::new();
    let log = RefCell::new(Vec::new());
    let deliver = |event: TokenEvent| log.borrow_mut().push(event);
    let driven = Cell::new(false);
    let result = run_inference(
        &mut store,
        "Hello",
        |_model: &String, _session: &mut Vec<String>, _prompt: &str, run: &mut InferenceRun, deliver: &_| {
            driven.set(true);
            run.forward(Signal::Produced(String::from("never")), deliver);
            Ok(())
        },
        &deliver,
    );
    assert_eq!(result, Err(StreamError::NotReady));
    assert!(!driven.get());
    assert!(log.borrow().is_empty());
    assert!(!store.is_ready());
}

#[test]
fn streaming_after_load_delivers_at_least_the_sentinel() {
    let mut store = loaded_store();
    let log = RefCell::new(Vec::new());
    let deliver = |event: TokenEvent| log.borrow_mut().push(event);
    let result = run_inference(
        &mut store,
        "",
        |_model: &String, _session: &mut Vec<String>, _prompt: &str, _run: &mut InferenceRun, _deliver: &_| {
            Ok(())
        },
        &deliver,
    );
    assert_eq!(result, Ok(()));
    assert_eq!(*log.borrow(), vec![TokenEvent::End]);
}

#[test]
fn streaming_hello_delivers_tokens_in_generation_order() {
    let mut store = loaded_store();
    let log = RefCell::new(Vec::new());
    let deliver = |event: TokenEvent| log.borrow_mut().push(event);
    let result = run_inference(
        &mut store,
        "Hello",
        |model: &String, session: &mut Vec<String>, prompt: &str, run: &mut InferenceRun, deliver: &_| {
            session.push(String::from(prompt));
            for fragment in [prompt, ",", " world", " from ", model.as_str()] {
                run.forward(Signal::Produced(String::from(fragment)), deliver);
            }
            Ok(())
        },
        &deliver,
    );
    assert_eq!(result, Ok(()));
    assert_eq!(
        *log.borrow(),
        vec![
            token("Hello"),
            token(","),
            token(" world"),
            token(" from "),
            token("weights.bin as llama"),
            TokenEvent::End
        ]
    );
    let session = store.with_active(|_model: &String, session: &mut Vec<String>| session.clone());
    assert_eq!(
        session,
        Ok(vec![
            String::from("session of weights.bin as llama"),
            String::from("Hello")
        ])
    );
}

#[test]
fn each_event_arrives_before_the_next_fragment_is_produced() {
    let mut store = loaded_store();
    let log = RefCell::new(Vec::new());
    let deliver = |event: TokenEvent| log.borrow_mut().push(event);
    let counts = RefCell::new(Vec::new());
    let result = run_inference(
        &mut store,
        "count",
        |_model: &String, _session: &mut Vec<String>, _prompt: &str, run: &mut InferenceRun, deliver: &_| {
            for fragment in ["one", "two", "three"] {
                run.forward(Signal::Produced(String::from(fragment)), deliver);
                counts.borrow_mut().push(log.borrow().len());
            }
            Ok(())
        },
        &deliver,
    );
    assert_eq!(result, Ok(()));
    assert_eq!(*counts.borrow(), vec![1, 2, 3]);
    assert_eq!(log.borrow().len(), 4);
    assert_eq!(log.borrow().last(), Some(&TokenEvent::End));
}

#[test]
fn streaming_failure_keeps_the_fragments_and_sends_no_sentinel() {
    let mut store = loaded_store();
    let log = RefCell::new(Vec::new());
    let deliver = |event: TokenEvent| log.borrow_mut().push(event);
    let result = run_inference(
        &mut store,
        "Hello",
        |_model: &String, session: &mut Vec<String>, _prompt: &str, run: &mut InferenceRun, deliver: &_| {
            run.forward(Signal::Produced(String::from("Hel")), deliver);
            run.forward(Signal::Produced(String::from("lo")), deliver);
            session.push(String::from("partial"));
            Err(String::from("the context window is full"))
        },
        &deliver,
    );
    assert_eq!(
        result,
        Err(StreamError::Backend(String::from(
            "the context window is full"
        )))
    );
    assert_eq!(*log.borrow(), vec![token("Hel"), token("lo")]);
    assert!(store.is_ready());
    let session = store.with_active(|_model: &String, session: &mut Vec<String>| session.clone());
    assert_eq!(
        session,
        Ok(vec![
            String::from("session of weights.bin as llama"),
            String::from("partial")
        ])
    );
}

#[test]
fn streaming_failure_before_any_fragment_is_not_the_not_ready_error() {
    let mut store = loaded_store();
    let log = RefCell::new(Vec::new());
    let deliver = |event: TokenEvent| log.borrow_mut().push(event);
    let result = run_inference(
        &mut store,
        "Hello",
        |_model: &String, _session: &mut Vec<String>, _prompt: &str, _run: &mut InferenceRun, _deliver: &_| {
            Err(String::from("an invalid token was encountered during tokenization"))
        },
        &deliver,
    );
    assert!(log.borrow().is_empty());
    assert_eq!(
        result,
        Err(StreamError::Backend(String::from(
            "an invalid token was encountered during tokenization"
        )))
    );
}

#[test]
fn a_driver_that_closes_the_run_does_not_double_the_sentinel() {
    let mut store = loaded_store();
    let log = RefCell::new(Vec::new());
    let deliver = |event: TokenEvent| log.borrow_mut().push(event);
    let result = run_inference(
        &mut store,
        "Hello",
        |_model: &String, _session: &mut Vec<String>, _prompt: &str, run: &mut InferenceRun, deliver: &_| {
            run.forward(Signal::Produced(String::from("a")), deliver);
            run.forward(Signal::Finished, deliver);
            run.forward(Signal::Produced(String::from("late")), deliver);
            Ok(())
        },
        &deliver,
    );
    assert_eq!(result, Ok(()));
    assert_eq!(*log.borrow(), vec![token("a"), TokenEvent::End]);
}

#[test]
fn a_failure_reported_in_the_run_wins_over_the_return_value() {
    let mut store = loaded_store();
    let log = RefCell::new(Vec::new());
    let deliver = |event: TokenEvent| log.borrow_mut().push(event);
    let result = run_inference(
        &mut store,
        "Hello",
        |_model: &String, _session: &mut Vec<String>, _prompt: &str, run: &mut InferenceRun, deliver: &_| {
            run.forward(Signal::Failed(String::from("first")), deliver);
            Ok(())
        },
        &deliver,
    );
    assert_eq!(result, Err(StreamError::Backend(String::from("first"))));
    assert!(log.borrow().is_empty());
}

#[test]
fn the_driver_gets_a_run_that_has_started() {
    let mut store = loaded_store();
    let deliver = |_event: TokenEvent| {};
    let phase = Cell::new(RunPhase::Idle);
    let result = run_inference(
        &mut store,
        "Hello",
        |_model: &String, _session: &mut Vec<String>, _prompt: &str, run: &mut InferenceRun, _deliver: &_| {
            phase.set(run.phase());
            Ok(())
        },
        &deliver,
    );
    assert_eq!(result, Ok(()));
    assert_eq!(phase.get(), RunPhase::Running);
}

#[test]
fn two_runs_in_a_row_each_end_with_their_own_sentinel() {
    let mut store = loaded_store();
    let log = RefCell::new(Vec::new());
    let deliver = |event: TokenEvent| log.borrow_mut().push(event);
    for prompt in ["one", "two"] {
        let result = run_inference(
            &mut store,
            prompt,
            |_model: &String, _session: &mut Vec<String>, prompt: &str, run: &mut InferenceRun, deliver: &_| {
                run.forward(Signal::Produced(String::from(prompt)), deliver);
                Ok(())
            },
            &deliver,
        );
        assert_eq!(result, Ok(()));
    }
    assert_eq!(
        *log.borrow(),
        vec![token("one"), TokenEvent::End, token("two"), TokenEvent::End]
    );
}

#[test]
fn forward_delivers_what_the_run_owes() {
    let log = RefCell::new(Vec::new());
    let deliver = |event: TokenEvent| log.borrow_mut().push(event);
    let mut run = InferenceRun::new();
    run.forward(Signal::Produced(String::from("early")), &deliver);
    assert!(log.borrow().is_empty());
    run.start();
    run.forward(Signal::Produced(String::from("a")), &deliver);
    run.forward(Signal::Produced(String::from("b")), &deliver);
    assert_eq!(*log.borrow(), vec![token("a"), token("b")]);
    run.forward(Signal::Finished, &deliver);
    run.forward(Signal::Finished, &deliver);
    run.forward(Signal::Produced(String::from("late")), &deliver);
    assert_eq!(*log.borrow(), vec![token("a"), token("b"), TokenEvent::End]);
    assert_eq!(run.outcome(), Some(Ok(())));
}

#[test]
fn closing_signal_tells_how_the_backend_ended() {
    assert_eq!(Signal::closing(Ok(())), Signal::Finished);
    assert_eq!(
        Signal::closing(Err(String::from("the context window is full"))),
        Signal::Failed(String::from("the context window is full"))
    );
    assert_eq!(
        Signal::closing(Err(String::new())),
        Signal::Failed(String::new())
    );
}

#[test]
fn closing_an_open_run_delivers_the_sentinel() {
    let log = RefCell::new(Vec::new());
    let deliver = |event: TokenEvent| log.borrow_mut().push(event);
    let mut run = InferenceRun::new();
    run.start();
    run.forward(Signal::Produced(String::from("a")), &deliver);
    assert_eq!(run.close(Ok(()), &deliver), Ok(()));
    assert_eq!(*log.borrow(), vec![token("a"), TokenEvent::End]);
    assert_eq!(run.phase(), RunPhase::Completed);
}

#[test]
fn closing_after_a_failure_delivers_nothing() {
    let log = RefCell::new(Vec::new());
    let deliver = |event: TokenEvent| log.borrow_mut().push(event);
    let mut run = InferenceRun::new();
    run.start();
    run.forward(Signal::Produced(String::from("a")), &deliver);
    assert_eq!(
        run.close(Err(String::from("the context window is full")), &deliver),
        Err(StreamError::Backend(String::from(
            "the context window is full"
        )))
    );
    assert_eq!(*log.borrow(), vec![token("a")]);
    assert_eq!(run.phase(), RunPhase::Failed);
}

#[test]
fn closing_an_idle_run_starts_and_completes_it() {
    let log = RefCell::new(Vec::new());
    let deliver = |event: TokenEvent| log.borrow_mut().push(event);
    let mut run = InferenceRun::new();
    assert_eq!(run.close(Ok(()), &deliver), Ok(()));
    assert_eq!(*log.borrow(), vec![TokenEvent::End]);
    assert_eq!(run.phase(), RunPhase::Completed);
}

#[test]
fn closing_an_ended_run_changes_nothing() {
    let log = RefCell::new(Vec::new());
    let deliver = |event: TokenEvent| log.borrow_mut().push(event);
    let mut completed = InferenceRun::new();
    completed.start();
    completed.forward(Signal::Finished, &deliver);
    assert_eq!(completed.close(Err(String::from("late")), &deliver), Ok(()));
    assert_eq!(completed.close(Ok(()), &deliver), Ok(()));
    assert_eq!(*log.borrow(), vec![TokenEvent::End]);
    let mut failed = InferenceRun::new();
    failed.start();
    failed.forward(Signal::Failed(String::from("first")), &deliver);
    assert_eq!(
        failed.close(Ok(()), &deliver),
        Err(StreamError::Backend(String::from("first")))
    );
    assert_eq!(*log.borrow(), vec![TokenEvent::End]);
}

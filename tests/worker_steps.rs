use inference_engine::layout::INPUT_LEN;
use inference_engine::worker::{Action, Event, Worker};

fn s(text: &str) -> String {
    text.to_string()
}

fn write(key: &str, field: &str, value: &str) -> Action {
    Action::WriteField { key: s(key), field: s(field), value: s(value) }
}

fn take_job() -> Action {
    Action::TakeJob { queue: s("queue:rust_inference") }
}

/// A worker whose model has loaded from the primary file.
fn ready_worker() -> Worker {
    let mut w = Worker::new();
    assert!(w.handle(Event::ModelLoaded));
    w
}

#[test]
fn startup_tries_primary_model_first() {
    let w = Worker::new();
    assert_eq!(w.action(), Action::LoadModel { path: s("resnet18.onnx") });
}

#[test]
fn startup_falls_back_to_second_model() {
    let mut w = Worker::new();
    assert!(w.handle(Event::ModelFailed));
    assert_eq!(w.action(), Action::LoadModel { path: s("resnet18.ot") });
    assert!(w.handle(Event::ModelLoaded));
    assert_eq!(w.action(), take_job());
}

#[test]
fn startup_fails_without_any_model() {
    let mut w = Worker::new();
    assert!(w.handle(Event::ModelFailed));
    assert!(w.handle(Event::ModelFailed));
    assert_eq!(w.action(), Action::Exit);
    assert!(!w.handle(Event::Popped(s("abc123"))));
    assert!(!w.handle(Event::ModelLoaded));
    assert_eq!(w.action(), Action::Exit);
}

#[test]
fn valid_job_is_finished() {
    let mut w = ready_worker();
    assert_eq!(w.action(), take_job());
    assert!(w.handle(Event::Popped(s("abc123"))));
    assert_eq!(
        w.action(),
        Action::FetchInput { key: s("request:abc123"), field: s("go_result") }
    );
    assert!(w.handle(Event::InputLoaded(150528)));
    assert_eq!(w.action(), Action::RunModel);
    assert!(w.handle(Event::Inferred { class_id: 281, confidence_hundredths: 8537 }));
    assert_eq!(w.action(), write("request:abc123", "prediction_id", "281"));
    assert!(w.handle(Event::Written));
    assert_eq!(w.action(), write("request:abc123", "confidence", "85.37%"));
    assert!(w.handle(Event::Written));
    assert_eq!(w.action(), write("request:abc123", "status", "finished"));
    assert!(w.handle(Event::Written));
    assert_eq!(w.action(), take_job());
}

#[test]
fn short_input_is_rejected() {
    let mut w = ready_worker();
    assert!(w.handle(Event::Popped(s("bad1"))));
    assert!(w.handle(Event::InputLoaded(100)));
    assert_eq!(w.action(), write("request:bad1", "status", "error: invalid input size"));
    assert!(w.handle(Event::Written));
    assert_eq!(w.action(), take_job());
}

#[test]
fn input_one_sample_too_long_is_rejected() {
    let mut w = ready_worker();
    assert!(w.handle(Event::Popped(s("long"))));
    assert!(w.handle(Event::InputLoaded(INPUT_LEN + 1)));
    assert_eq!(w.action(), write("request:long", "status", "error: invalid input size"));
}

#[test]
fn empty_input_is_rejected() {
    let mut w = ready_worker();
    assert!(w.handle(Event::Popped(s("empty"))));
    assert!(w.handle(Event::InputLoaded(0)));
    assert_eq!(w.action(), write("request:empty", "status", "error: invalid input size"));
}

#[test]
fn jobs_are_handled_one_after_another() {
    let mut w = ready_worker();
    let mut actions: Vec<Action> = Vec::new();
    for id in ["j1", "j2"] {
        actions.push(w.action());
        assert!(w.handle(Event::Popped(s(id))));
        actions.push(w.action());
        assert!(w.handle(Event::InputLoaded(INPUT_LEN)));
        actions.push(w.action());
        assert!(w.handle(Event::Inferred { class_id: 7, confidence_hundredths: 4200 }));
        for _ in 0..3 {
            actions.push(w.action());
            assert!(w.handle(Event::Written));
        }
    }
    actions.push(w.action());
    let j1_status = actions
        .iter()
        .position(|a| *a == write("request:j1", "status", "finished"))
        .unwrap();
    let j2_fetch = actions
        .iter()
        .position(|a| matches!(a, Action::FetchInput { key, .. } if key == "request:j2"))
        .unwrap();
    assert!(j1_status < j2_fetch);
    assert_eq!(actions[j1_status + 1], take_job());
    assert_eq!(actions.iter().filter(|a| **a == take_job()).count(), 3);
    assert_eq!(actions.last().unwrap(), &take_job());
}

#[test]
fn unreadable_input_gives_error_status() {
    let mut w = ready_worker();
    assert!(w.handle(Event::Popped(s("gone"))));
    assert!(w.handle(Event::InputFailed(s("record not found"))));
    assert_eq!(w.action(), write("request:gone", "status", "error: record not found"));
    assert!(w.handle(Event::Written));
    assert_eq!(w.action(), take_job());
}

#[test]
fn inference_failure_gives_error_status() {
    let mut w = ready_worker();
    assert!(w.handle(Event::Popped(s("x"))));
    assert!(w.handle(Event::InputLoaded(INPUT_LEN)));
    assert!(w.handle(Event::InferenceFailed(s("shape mismatch"))));
    assert_eq!(w.action(), write("request:x", "status", "error: shape mismatch"));
    assert!(w.handle(Event::WriteFailed(s("connection reset"))));
    assert_eq!(w.action(), take_job());
}

#[test]
fn failed_result_write_turns_into_error_status() {
    let mut w = ready_worker();
    assert!(w.handle(Event::Popped(s("y"))));
    assert!(w.handle(Event::InputLoaded(INPUT_LEN)));
    assert!(w.handle(Event::Inferred { class_id: 3, confidence_hundredths: 10000 }));
    assert_eq!(w.action(), write("request:y", "prediction_id", "3"));
    assert!(w.handle(Event::WriteFailed(s("broken pipe"))));
    assert_eq!(w.action(), write("request:y", "status", "error: broken pipe"));
    assert!(w.handle(Event::Written));
    assert_eq!(w.action(), take_job());
}

#[test]
fn reports_that_do_not_fit_are_refused() {
    let mut w = Worker::new();
    assert!(!w.handle(Event::Written));
    assert!(!w.handle(Event::Popped(s("early"))));
    assert_eq!(w.action(), Action::LoadModel { path: s("resnet18.onnx") });
    assert!(w.accepts(&Event::ModelLoaded));
    assert!(!w.accepts(&Event::InputLoaded(INPUT_LEN)));
    let mut w = ready_worker();
    assert!(!w.handle(Event::Written));
    assert!(!w.handle(Event::InputLoaded(INPUT_LEN)));
    assert_eq!(w.action(), take_job());
}

use pool_check::handler::{internal_error, probe_query, start, step, Action, Event, Stage};

fn run(events: Vec<Event>) -> (Stage, Action) {
    let mut state = start();
    for e in events {
        state = step(state.0, e);
    }
    state
}

fn reply(a: Action) -> Result<String, (u16, String)> {
    match a {
        Action::Reply(r) => r,
        other => panic!("no reply yet: {:?}", other),
    }
}

#[test]
fn request_starts_by_acquiring() {
    let (stage, action) = start();
    assert_eq!(stage, Stage::Checkout);
    assert!(matches!(action, Action::AcquireConnection));
}

#[test]
fn stages_follow_each_other() {
    let (s1, a1) = step(Stage::Checkout, Event::Ready);
    assert_eq!(s1, Stage::Query);
    assert!(matches!(a1, Action::RunQuery));
    let (s2, a2) = step(s1, Event::Ready);
    assert_eq!(s2, Stage::Decode);
    assert!(matches!(a2, Action::ReadColumn(0)));
}

#[test]
fn healthy_request_answers_two() {
    let (stage, action) = run(vec![Event::Ready, Event::Ready, Event::Value(2)]);
    assert_eq!(stage, Stage::Done);
    assert_eq!(reply(action), Ok("2".to_string()));
}

#[test]
fn repeated_requests_answer_two() {
    for _ in 0..20 {
        let (_, action) = run(vec![Event::Ready, Event::Ready, Event::Value(2)]);
        assert_eq!(reply(action), Ok("2".to_string()));
    }
}

#[test]
fn other_values_in_decimal() {
    let (_, a) = run(vec![Event::Ready, Event::Ready, Event::Value(-17)]);
    assert_eq!(reply(a), Ok("-17".to_string()));
    let (_, a) = run(vec![Event::Ready, Event::Ready, Event::Value(i32::MAX)]);
    assert_eq!(reply(a), Ok("2147483647".to_string()));
    let (_, a) = run(vec![Event::Ready, Event::Ready, Event::Value(i32::MIN)]);
    assert_eq!(reply(a), Ok("-2147483648".to_string()));
    let (_, a) = run(vec![Event::Ready, Event::Ready, Event::Value(0)]);
    assert_eq!(reply(a), Ok("0".to_string()));
}

#[test]
fn checkout_failure_is_500() {
    let (stage, a) = run(vec![Event::Failed("error connecting to server".to_string())]);
    assert_eq!(stage, Stage::Done);
    assert_eq!(reply(a), Err((500, "error connecting to server".to_string())));
}

#[test]
fn query_failure_is_500() {
    let (_, a) = run(vec![Event::Ready, Event::Failed("db error".to_string())]);
    assert_eq!(reply(a), Err((500, "db error".to_string())));
}

#[test]
fn column_failure_is_500() {
    let (_, a) = run(vec![
        Event::Ready,
        Event::Ready,
        Event::Failed("error deserializing column 0".to_string()),
    ]);
    assert_eq!(reply(a), Err((500, "error deserializing column 0".to_string())));
}

#[test]
fn unexpected_event_is_500() {
    let (stage, a) = step(Stage::Checkout, Event::Value(2));
    assert_eq!(stage, Stage::Done);
    assert_eq!(reply(a), Err((500, "unknown database error".to_string())));
    let (_, a) = step(Stage::Done, Event::Ready);
    assert_eq!(reply(a), Err((500, "unknown database error".to_string())));
    let (_, a) = step(Stage::Decode, Event::Ready);
    assert_eq!(reply(a), Err((500, "unknown database error".to_string())));
}

#[test]
fn internal_error_keeps_text() {
    assert_eq!(internal_error("timeout".to_string()), (500, "timeout".to_string()));
}

#[test]
fn probe_query_text() {
    assert_eq!(probe_query(), "select 1 + 1");
}

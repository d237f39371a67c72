use std::time::Duration;

use stabilityai::error::{ApiError, StabilityAIError};
use stabilityai::policy::RetryPolicy;
use stabilityai::retry::{
    after_rate_limit, classify, expects_payload, AttemptEvent, Outcome, Reply, RetryAction,
    RetryLoop,
};

fn api_error(name: &str) -> ApiError {
    ApiError { id: "abc123".to_string(), name: name.to_string(), message: "details".to_string() }
}

fn exhausted_policy() -> RetryPolicy {
    RetryPolicy::new(500, 60_000, Some(0)).unwrap()
}

#[test]
fn success_statuses() {
    assert!(expects_payload(200));
    assert!(expects_payload(299));
    assert!(!expects_payload(199));
    assert!(!expects_payload(300));
    assert!(!expects_payload(429));
}

#[test]
fn classify_each_kind_of_response() {
    assert!(matches!(classify(200, vec![], Reply::Payload(5u8)), Outcome::Success(5)));
    match classify::<u8>(429, vec![], Reply::ApiError(api_error("rate_limited"))) {
        Outcome::RateLimited(e) => assert_eq!(e.name, "rate_limited"),
        _ => panic!("429 is recoverable"),
    }
    match classify::<u8>(400, vec![], Reply::ApiError(api_error("bad_request"))) {
        Outcome::Failure(StabilityAIError::ApiError(e)) => assert_eq!(e, api_error("bad_request")),
        _ => panic!("400 is terminal"),
    }
    match classify::<u8>(500, b"oops".to_vec(), Reply::Undecodable("expected value".to_string())) {
        Outcome::Failure(StabilityAIError::JSONDeserialize { reason, body }) => {
            assert_eq!(reason, "expected value");
            assert_eq!(body, b"oops".to_vec());
        }
        _ => panic!("a malformed error body is terminal"),
    }
}

#[test]
fn rate_limited_response_is_retried() {
    let mut policy = RetryPolicy::standard();
    let mut state = RetryLoop::new();
    let action = state.step::<u8>(
        &mut policy,
        AttemptEvent::Responded {
            status: 429,
            body: b"{}".to_vec(),
            reply: Reply::ApiError(api_error("rate_limited")),
        },
    );
    assert!(matches!(action, RetryAction::Retry(_)));
    assert_eq!(state, RetryLoop { sends: 1, finished: false });
    let action = state.step(
        &mut policy,
        AttemptEvent::Responded { status: 200, body: b"7".to_vec(), reply: Reply::Payload(7u8) },
    );
    assert!(matches!(action, RetryAction::Finish(Ok(7))));
    assert_eq!(state, RetryLoop { sends: 2, finished: true });
}

#[test]
fn rate_limited_response_after_budget_is_terminal() {
    let mut policy = exhausted_policy();
    let mut state = RetryLoop::new();
    let action = state.step::<u8>(
        &mut policy,
        AttemptEvent::Responded {
            status: 429,
            body: vec![],
            reply: Reply::ApiError(api_error("rate_limited")),
        },
    );
    match action {
        RetryAction::Finish(Err(StabilityAIError::ApiError(e))) => {
            assert_eq!(e, api_error("rate_limited"))
        }
        _ => panic!("budget spent"),
    }
    assert!(state.is_finished());
    assert_eq!(state.sends, 1);
}

#[test]
fn after_rate_limit_follows_the_policy() {
    let d = Duration::from_millis(750);
    assert!(matches!(after_rate_limit::<u8>(Some(d), api_error("x")), RetryAction::Retry(w) if w == d));
    assert!(matches!(
        after_rate_limit::<u8>(None, api_error("x")),
        RetryAction::Finish(Err(StabilityAIError::ApiError(_)))
    ));
}

#[test]
fn api_error_is_terminal_after_one_send() {
    let mut policy = RetryPolicy::standard();
    let mut state = RetryLoop::new();
    let action = state.step::<u8>(
        &mut policy,
        AttemptEvent::Responded {
            status: 404,
            body: vec![],
            reply: Reply::ApiError(api_error("not_found")),
        },
    );
    match action {
        RetryAction::Finish(Err(StabilityAIError::ApiError(e))) => {
            assert_eq!(e.id, "abc123");
            assert_eq!(e.name, "not_found");
            assert_eq!(e.message, "details");
        }
        _ => panic!("terminal"),
    }
    assert_eq!(state, RetryLoop { sends: 1, finished: true });
}

#[test]
fn undecodable_payload_is_terminal_after_one_send() {
    let mut policy = RetryPolicy::standard();
    let mut state = RetryLoop::new();
    let action = state.step::<u8>(
        &mut policy,
        AttemptEvent::Responded {
            status: 200,
            body: b"not json".to_vec(),
            reply: Reply::Undecodable("expected ident".to_string()),
        },
    );
    match action {
        RetryAction::Finish(Err(StabilityAIError::JSONDeserialize { reason, body })) => {
            assert_eq!(reason, "expected ident");
            assert_eq!(body, b"not json".to_vec());
        }
        _ => panic!("terminal"),
    }
    assert_eq!(state, RetryLoop { sends: 1, finished: true });
}

#[test]
fn file_read_failure_on_second_attempt_is_not_retried() {
    let mut policy = RetryPolicy::standard();
    let mut state = RetryLoop::new();
    let first = state.step::<u8>(
        &mut policy,
        AttemptEvent::Responded {
            status: 429,
            body: vec![],
            reply: Reply::ApiError(api_error("rate_limited")),
        },
    );
    assert!(matches!(first, RetryAction::Retry(_)));
    let second = state.step::<u8>(
        &mut policy,
        AttemptEvent::BuildFailed(StabilityAIError::FileReadError("init.png: not found".to_string())),
    );
    match second {
        RetryAction::Finish(Err(StabilityAIError::FileReadError(m))) => {
            assert_eq!(m, "init.png: not found")
        }
        _ => panic!("terminal"),
    }
    assert_eq!(state, RetryLoop { sends: 1, finished: true });
}

#[test]
fn transport_failure_is_terminal() {
    let mut policy = RetryPolicy::standard();
    let mut state = RetryLoop::new();
    let action =
        state.step::<u8>(&mut policy, AttemptEvent::TransportFailed("connection reset".to_string()));
    match action {
        RetryAction::Finish(Err(e)) => assert_eq!(e.to_string(), "http error: connection reset"),
        _ => panic!("terminal"),
    }
    assert_eq!(state, RetryLoop { sends: 1, finished: true });
}

#[test]
fn policy_bounds() {
    assert!(RetryPolicy::new(0, 0, None).is_ok());
    assert!(RetryPolicy::new(2_592_000_000, 2_592_000_000, Some(2_592_000_000)).is_ok());
    for (initial, max, elapsed) in [
        (2_592_000_001, 1, None),
        (1, 2_592_000_001, None),
        (1, 1, Some(2_592_000_001)),
        (u64::MAX, u64::MAX, Some(u64::MAX)),
    ] {
        match RetryPolicy::new(initial, max, elapsed) {
            Err(StabilityAIError::InvalidArgument(m)) => {
                assert_eq!(m, "backoff durations must not exceed thirty days")
            }
            other => panic!("unexpected {:?}", other),
        }
    }
}

#[test]
fn restarted_policy_hands_out_intervals_again() {
    let mut policy = RetryPolicy::new(10, 100, Some(60_000)).unwrap();
    let first = policy.next_interval().expect("within budget");
    assert!(first >= Duration::from_millis(5) && first <= Duration::from_millis(16));
    policy.restart();
    assert!(policy.next_interval().is_some());
    let copy = policy.clone();
    let mut copy = copy;
    assert!(copy.next_interval().is_some());
}

use executor_service::retry::{RetryDecision, RetryPolicy, RetryState, RetryStatus};

#[test]
fn standard_policy_is_five_attempts_twenty_ms_apart() {
    let policy = RetryPolicy::standard();
    assert_eq!(policy.max_attempts(), 5);
    assert_eq!(policy.delay_ms(), 20);
}

#[test]
fn no_policy_of_zero_attempts() {
    assert_eq!(RetryPolicy::fixed(0, 20), None);
    let policy = RetryPolicy::fixed(2, 1).unwrap();
    assert_eq!(policy.max_attempts(), 2);
    assert_eq!(policy.delay_ms(), 1);
}

#[test]
fn success_on_third_attempt() {
    let mut state = RetryState::new(RetryPolicy::standard());
    assert_eq!(state.on_failure(), RetryDecision::RetryAfter(20));
    assert_eq!(state.on_failure(), RetryDecision::RetryAfter(20));
    state.on_success();
    assert_eq!(state.status(), RetryStatus::Succeeded);
    assert_eq!(state.attempts(), 3);
}

#[test]
fn exhaustion_after_exactly_max_attempts() {
    let mut state = RetryState::new(RetryPolicy::standard());
    let mut pauses: u64 = 0;
    let mut attempts: usize = 0;
    loop {
        attempts += 1;
        match state.on_failure() {
            RetryDecision::RetryAfter(ms) => pauses += ms,
            RetryDecision::GiveUp => break,
        }
    }
    assert_eq!(attempts, 5);
    assert_eq!(pauses, 80);
    assert_eq!(state.status(), RetryStatus::Exhausted);
    assert_eq!(state.attempts(), 5);
    assert_eq!(state.on_failure(), RetryDecision::GiveUp);
    state.on_success();
    assert_eq!(state.status(), RetryStatus::Exhausted);
    assert_eq!(state.attempts(), 5);
}

#[test]
fn single_attempt_policy_gives_up_at_once() {
    let mut state = RetryState::new(RetryPolicy::fixed(1, 1000).unwrap());
    assert_eq!(state.on_failure(), RetryDecision::GiveUp);
    assert_eq!(state.attempts(), 1);
}

#[test]
fn finished_call_stays_finished() {
    let mut state = RetryState::new(RetryPolicy::fixed(3, 0).unwrap());
    state.on_success();
    assert_eq!(state.attempts(), 1);
    assert_eq!(state.on_failure(), RetryDecision::GiveUp);
    assert_eq!(state.status(), RetryStatus::Succeeded);
    assert_eq!(state.attempts(), 1);
}

use sweettest_utils::retry::{RetryState, RetryStep, MAX_ATTEMPTS, RETRY_DELAY_MS};

/// Drives a retried call over the given outcomes, as the call sites do:
/// the result, the number of attempts, and the time spent waiting.
fn drive(outcomes: &[Option<u32>]) -> (Result<u32, ()>, usize, u64) {
    let mut state = RetryState::new();
    let mut calls = 0;
    let mut waited = 0;
    loop {
        assert!(state.may_attempt());
        let outcome = outcomes[calls];
        calls += 1;
        match state.record(outcome) {
            RetryStep::Done(v) => return (Ok(v), calls, waited),
            RetryStep::Wait { millis } => waited += millis,
            RetryStep::GiveUp { millis } => return (Err(()), calls, waited + millis),
        }
    }
}

#[test]
fn first_attempt_succeeds() {
    assert_eq!(drive(&[Some(5)]), (Ok(5), 1, 0));
}

#[test]
fn third_attempt_succeeds_after_two_waits() {
    assert_eq!(drive(&[None, None, Some(9), Some(1)]), (Ok(9), 3, 4000));
}

#[test]
fn tenth_attempt_still_counts() {
    let mut outcomes = vec![None; 9];
    outcomes.push(Some(3));
    assert_eq!(drive(&outcomes), (Ok(3), 10, 18000));
}

#[test]
fn gives_up_after_ten_failures_without_an_eleventh_call() {
    let mut outcomes = vec![None; 10];
    outcomes.push(Some(1));
    assert_eq!(drive(&outcomes), (Err(()), 10, 20000));
}

#[test]
fn steps_of_the_retry_machine() {
    assert_eq!(MAX_ATTEMPTS, 10);
    assert_eq!(RETRY_DELAY_MS, 2000);
    let mut state = RetryState::new();
    assert_eq!(state.record::<u8>(None), RetryStep::Wait { millis: 2000 });
    for _ in 1..9 {
        assert_eq!(state.record::<u8>(None), RetryStep::Wait { millis: 2000 });
    }
    assert!(state.may_attempt());
    assert_eq!(state.record::<u8>(None), RetryStep::GiveUp { millis: 2000 });
    assert!(!state.may_attempt());
}

use lego_powered_up::consts::HubType;
use lego_powered_up::error::Error;
use lego_powered_up::registry::HubController;
use lego_powered_up::retry::{
    create_hub_from_attempts, create_hub_step, RetryStep, CONNECT_RETRY_DELAY_SECS,
    MAX_CONNECT_ATTEMPTS,
};

const ADDR: &str = "90:84:2B:60:3C:B8";

fn controller() -> HubController {
    HubController {
        addr: ADDR.to_string(),
        hub_type: HubType::TechnicMediumHub,
        name: "game".to_string(),
    }
}

#[test]
fn retry_bounds_are_the_documented_policy() {
    assert_eq!(MAX_CONNECT_ATTEMPTS, 10);
    assert_eq!(CONNECT_RETRY_DELAY_SECS, 3);
}

#[test]
fn step_returns_success_immediately() {
    let r = create_hub_step(&ADDR.to_string(), 1, Ok(controller()));
    match r {
        RetryStep::Done(c) => assert_eq!(c.get_addr(), ADDR),
        _ => panic!("expected Done"),
    }
    let r = create_hub_step(&ADDR.to_string(), 10, Ok(controller()));
    assert!(matches!(r, RetryStep::Done(_)));
}

#[test]
fn step_sleeps_then_retries_while_tries_remain() {
    for attempt in 1..10 {
        let r = create_hub_step(&ADDR.to_string(), attempt, Err(Error::ConnectFailed));
        assert!(matches!(r, RetryStep::SleepThenRetry));
    }
}

#[test]
fn step_gives_up_on_the_last_failure() {
    let r = create_hub_step(&ADDR.to_string(), 10, Err(Error::ConnectFailed));
    match r {
        RetryStep::GiveUp(Error::ConnectRetriesExhausted(a, n)) => {
            assert_eq!(a, ADDR);
            assert_eq!(n, 10);
        }
        _ => panic!("expected the aggregate error"),
    }
}

#[test]
fn retry_succeeds_on_the_kth_attempt() {
    // Two failures, then a success: the third attempt wins, after two
    // three-second delays.
    let mut attempts: Vec<Result<HubController, Error>> = Vec::new();
    attempts.push(Err(Error::ConnectFailed));
    attempts.push(Err(Error::PeripheralNotFound(ADDR.to_string())));
    attempts.push(Ok(controller()));
    for _ in 3..10 {
        attempts.push(Err(Error::ConnectFailed));
    }
    let r = create_hub_from_attempts(&ADDR.to_string(), attempts);
    assert_eq!(r.attempts_used, 3);
    assert_eq!(r.delay_secs, 6);
    match r.result {
        Ok(c) => assert_eq!(c.get_addr(), ADDR),
        Err(_) => panic!("expected success"),
    }
}

#[test]
fn retry_succeeds_at_once_without_delay() {
    let mut attempts: Vec<Result<HubController, Error>> = Vec::new();
    attempts.push(Ok(controller()));
    for _ in 1..10 {
        attempts.push(Err(Error::ConnectFailed));
    }
    let r = create_hub_from_attempts(&ADDR.to_string(), attempts);
    assert_eq!(r.attempts_used, 1);
    assert_eq!(r.delay_secs, 0);
    assert!(r.result.is_ok());
}

#[test]
fn retry_exhausts_after_exactly_ten_attempts() {
    let mut attempts: Vec<Result<HubController, Error>> = Vec::new();
    for _ in 0..10 {
        attempts.push(Err(Error::ConnectFailed));
    }
    let r = create_hub_from_attempts(&ADDR.to_string(), attempts);
    assert_eq!(r.attempts_used, 10);
    assert_eq!(r.delay_secs, 30);
    match r.result {
        Err(Error::ConnectRetriesExhausted(a, n)) => {
            assert_eq!(a, ADDR);
            assert_eq!(n, 10);
        }
        _ => panic!("expected the aggregate error"),
    }
}

#[test]
fn retry_takes_the_first_success_even_on_the_last_try() {
    let mut attempts: Vec<Result<HubController, Error>> = Vec::new();
    for _ in 0..9 {
        attempts.push(Err(Error::ConnectFailed));
    }
    attempts.push(Ok(controller()));
    let r = create_hub_from_attempts(&ADDR.to_string(), attempts);
    assert_eq!(r.attempts_used, 10);
    assert_eq!(r.delay_secs, 27);
    assert!(r.result.is_ok());
}

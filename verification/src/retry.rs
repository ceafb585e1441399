//! The facade's connect-with-retry policy: up to a fixed bound of attempts,
//! each failure followed by a fixed delay, exhaustion yielding one aggregate
//! error naming the address and the attempt count.  `create_hub_step` is the
//! decision the retry loop consults after each attempt; the loop that
//! performs the attempts and the sleeps runs outside the library.
//! `create_hub_from_attempts` replays the whole policy over a given
//! sequence of attempt outcomes, and carries the policy's laws.

use vstd::prelude::*;
use crate::error::Error;
use crate::registry::HubController;

verus! {

/// The fixed bound on connect attempts.
pub const MAX_CONNECT_ATTEMPTS: usize = 10;

/// The fixed delay, in seconds, between one failed attempt and the next.
pub const CONNECT_RETRY_DELAY_SECS: u64 = 3;

/// What the retry loop must do after one attempt.
#[derive(Debug)]
pub enum RetryStep {
    /// The attempt succeeded: return its controller.
    Done(HubController),
    /// The attempt failed and tries remain: sleep the fixed delay, try again.
    SleepThenRetry,
    /// The attempt failed and the bound is exhausted: return the aggregate
    /// error.
    GiveUp(Error),
}

/// The decision after attempt number `attempt` (1-based) has returned
/// `outcome`.
pub fn create_hub_step(addr: &String, attempt: usize, outcome: Result<HubController, Error>) -> (r:
    RetryStep)
    requires
        1 <= attempt <= MAX_CONNECT_ATTEMPTS,
    ensures
        outcome matches Ok(c) ==> r == RetryStep::Done(c),
        (outcome is Err && attempt < MAX_CONNECT_ATTEMPTS) ==> r is SleepThenRetry,
        (outcome is Err && attempt == MAX_CONNECT_ATTEMPTS) ==> (r matches RetryStep::GiveUp(e)
            && e matches Error::ConnectRetriesExhausted(a, n) && a@ == addr@
            && n == MAX_CONNECT_ATTEMPTS),
{
    match outcome {
        Ok(c) => RetryStep::Done(c),
        Err(_attempt_error) => {
            if attempt < MAX_CONNECT_ATTEMPTS {
                RetryStep::SleepThenRetry
            } else {
                RetryStep::GiveUp(
                    Error::ConnectRetriesExhausted(addr.clone(), MAX_CONNECT_ATTEMPTS),
                )
            }
        },
    }
}

/// The index of the first successful outcome among the first `bound`
/// attempts, if any.
pub open spec fn spec_first_success_before(
    attempts: Seq<Result<HubController, Error>>,
    bound: int,
) -> Option<int>
    decreases bound,
{
    if bound <= 0 {
        None
    } else {
        match spec_first_success_before(attempts, bound - 1) {
            Some(i) => Some(i),
            None => if attempts[bound - 1] is Ok {
                Some(bound - 1)
            } else {
                None
            },
        }
    }
}

/// Failures all the way to `bound` mean no success before `bound`.
proof fn lemma_no_success_before(attempts: Seq<Result<HubController, Error>>, bound: int)
    requires
        forall|j: int| 0 <= j < bound ==> attempts[j] is Err,
    ensures
        spec_first_success_before(attempts, bound) is None,
    decreases bound,
{
    if bound > 0 {
        lemma_no_success_before(attempts, bound - 1);
    }
}

/// A first success at `b` stays the first success under any larger bound.
proof fn lemma_first_success_extends(
    attempts: Seq<Result<HubController, Error>>,
    b: int,
    bound: int,
)
    requires
        0 <= b < bound,
        spec_first_success_before(attempts, b) is None,
        attempts[b] is Ok,
    ensures
        spec_first_success_before(attempts, bound) == Some(b),
    decreases bound,
{
    if bound > b + 1 {
        lemma_first_success_extends(attempts, b, bound - 1);
    }
}

/// What one full run of the retry policy produced: the result handed to the
/// caller, how many attempts were made, and how long the loop slept in all.
#[derive(Debug)]
pub struct RetryOutcome {
    pub result: Result<HubController, Error>,
    pub attempts_used: usize,
    pub delay_secs: u64,
}

/// Replays `create_hub`'s retry policy over the outcomes that the connect
/// primitive yields for successive attempts: the first success within the
/// bound is returned as is, on the attempt that produced it, after a fixed
/// delay for each failure before it; without one the policy gives up after
/// exactly the bounded number of attempts with the aggregate error naming
/// the address and the attempt count.
pub fn create_hub_from_attempts(addr: &String, attempts: Vec<Result<HubController, Error>>) -> (r:
    RetryOutcome)
    requires
        attempts@.len() >= MAX_CONNECT_ATTEMPTS,
    ensures
        ({
            let first = spec_first_success_before(attempts@, MAX_CONNECT_ATTEMPTS as int);
            match first {
                Some(i) => r.result == attempts@[i] && r.attempts_used == i + 1 && r.delay_secs
                    == CONNECT_RETRY_DELAY_SECS * i,
                None => r.result matches Err(Error::ConnectRetriesExhausted(a, n)) && a@ == addr@
                    && n == MAX_CONNECT_ATTEMPTS && r.attempts_used == MAX_CONNECT_ATTEMPTS
                    && r.delay_secs == CONNECT_RETRY_DELAY_SECS * MAX_CONNECT_ATTEMPTS,
            }
        }),
{
    let mut remaining = attempts;
    let ghost orig = remaining@;
    let mut attempt: usize = 1;
    let mut delay: u64 = 0;
    loop
        invariant
            orig == attempts@,
            1 <= attempt <= MAX_CONNECT_ATTEMPTS,
            orig.len() >= MAX_CONNECT_ATTEMPTS,
            remaining@ == orig.skip(attempt - 1),
            spec_first_success_before(orig, attempt - 1) is None,
            delay == CONNECT_RETRY_DELAY_SECS * (attempt - 1),
        decreases MAX_CONNECT_ATTEMPTS - attempt,
    {
        proof {
            assert(orig.skip(attempt - 1)[0] == orig[attempt - 1]);
            assert(orig.skip(attempt - 1).remove(0) =~= orig.skip(attempt as int));
        }
        let outcome = remaining.remove(0);
        match create_hub_step(addr, attempt, outcome) {
            RetryStep::Done(c) => {
                proof {
                    if outcome is Err {
                        assert(false);
                    }
                    assert(outcome == Ok::<HubController, Error>(c));
                    assert(orig[attempt - 1] is Ok);
                    if (attempt as int) < MAX_CONNECT_ATTEMPTS as int {
                        lemma_first_success_extends(
                            orig,
                            attempt - 1,
                            MAX_CONNECT_ATTEMPTS as int,
                        );
                    } else {
                        assert(spec_first_success_before(orig, MAX_CONNECT_ATTEMPTS as int)
                            == Some(attempt as int - 1));
                    }
                }
                return RetryOutcome { result: Ok(c), attempts_used: attempt, delay_secs: delay };
            },
            RetryStep::SleepThenRetry => {
                delay = delay + CONNECT_RETRY_DELAY_SECS;
                attempt = attempt + 1;
            },
            RetryStep::GiveUp(give_up_error) => {
                proof {
                    if outcome is Ok {
                        assert(false);
                    }
                    if attempt < MAX_CONNECT_ATTEMPTS {
                        assert(false);
                    }
                    assert(spec_first_success_before(orig, MAX_CONNECT_ATTEMPTS as int) is None);
                }
                return RetryOutcome {
                    result: Err(give_up_error),
                    attempts_used: attempt,
                    delay_secs: delay + CONNECT_RETRY_DELAY_SECS,
                };
            },
        }
    }
}

/// Law: when the connect primitive fails exactly `k - 1` times and then
/// succeeds, `create_hub_from_attempts` returns that success on the `k`-th
/// attempt, after `k - 1` fixed delays.
pub proof fn lemma_retry_succeeds_on_kth(
    addr: String,
    attempts: Vec<Result<HubController, Error>>,
    r: RetryOutcome,
    k: int,
)
    requires
        call_ensures(create_hub_from_attempts, (&addr, attempts), r),
        attempts@.len() >= MAX_CONNECT_ATTEMPTS,
        1 <= k <= MAX_CONNECT_ATTEMPTS,
        forall|j: int| 0 <= j < k - 1 ==> attempts@[j] is Err,
        attempts@[k - 1] is Ok,
    ensures
        r.result == attempts@[k - 1],
        r.attempts_used == k,
        r.delay_secs == CONNECT_RETRY_DELAY_SECS * (k - 1),
{
    lemma_no_success_before(attempts@, k - 1);
    if k < MAX_CONNECT_ATTEMPTS {
        lemma_first_success_extends(attempts@, k - 1, MAX_CONNECT_ATTEMPTS as int);
    }
}

/// Law: when the connect primitive always fails, `create_hub_from_attempts`
/// gives up after exactly the bounded number of attempts, with the aggregate
/// error naming the address and the attempt count.
pub proof fn lemma_retry_exhausts(
    addr: String,
    attempts: Vec<Result<HubController, Error>>,
    r: RetryOutcome,
)
    requires
        call_ensures(create_hub_from_attempts, (&addr, attempts), r),
        attempts@.len() >= MAX_CONNECT_ATTEMPTS,
        forall|j: int| 0 <= j < MAX_CONNECT_ATTEMPTS ==> attempts@[j] is Err,
    ensures
        r.result matches Err(Error::ConnectRetriesExhausted(a, n)) && a@ == addr@ && n
            == MAX_CONNECT_ATTEMPTS,
        r.attempts_used == MAX_CONNECT_ATTEMPTS,
        r.delay_secs == CONNECT_RETRY_DELAY_SECS * MAX_CONNECT_ATTEMPTS,
{
    lemma_no_success_before(attempts@, MAX_CONNECT_ATTEMPTS as int);
}

} // verus!

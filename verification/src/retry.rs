//! Bounded retry of one mutation call, with rate-limit-aware backoff.
//!
//! One mutation (follow or unfollow) gets a fixed budget of attempts. A
//! success status ends it at once; a rate-limit status is waited out for
//! [`RATE_LIMIT_BACKOFF_SECS`]; any other failure is retried after
//! [`FAILURE_BACKOFF_SECS`]. No wait follows the final attempt. The caller
//! performs the HTTP calls and the sleeps; [`RetrySession`] makes every
//! decision.

use vstd::prelude::*;

verus! {

/// The HTTP status by which the platform signals rate limiting.
pub const RATE_LIMIT_STATUS: u16 = 403;

/// Seconds waited after a rate-limited attempt before the next one.
pub const RATE_LIMIT_BACKOFF_SECS: u64 = 60;

/// Seconds waited after any other failed attempt before the next one.
pub const FAILURE_BACKOFF_SECS: u64 = 2;

/// Seconds waited between two mutation targets, whatever their outcomes.
pub const TARGET_PACING_SECS: u64 = 2;

/// How many attempts a mutation gets by default.
pub const DEFAULT_RETRIES: u8 = 3;

/// What the HTTP status of one attempt means.
#[derive(Clone, Copy, Debug, PartialEq, Eq, Structural)]
pub enum AttemptOutcome {
    Succeeded,
    RateLimited,
    OtherFailure,
}

/// Terminal result of one whole mutation: some attempt succeeded, or the
/// entire attempt budget was spent on failures.
#[derive(Clone, Copy, Debug, PartialEq, Eq, Structural)]
pub enum RetryOutcome {
    Succeeded,
    ExhaustedRetries,
}

/// What the retry loop does after an attempt: stop with a terminal outcome,
/// or wait the given number of seconds and attempt again.
#[derive(Clone, Copy, Debug, PartialEq, Eq, Structural)]
pub enum RetryDecision {
    Finished(RetryOutcome),
    Backoff(u64),
}

/// The statuses that report success.
pub open spec fn is_success_status(status: u16) -> bool {
    200 <= status < 300
}

/// How one attempt's status is classified.
pub open spec fn outcome_of_status(status: u16) -> AttemptOutcome {
    if is_success_status(status) {
        AttemptOutcome::Succeeded
    } else if status == RATE_LIMIT_STATUS {
        AttemptOutcome::RateLimited
    } else {
        AttemptOutcome::OtherFailure
    }
}

/// Seconds to wait after a failed attempt with this status.
pub open spec fn backoff_of_status(status: u16) -> u64 {
    if status == RATE_LIMIT_STATUS {
        RATE_LIMIT_BACKOFF_SECS
    } else {
        FAILURE_BACKOFF_SECS
    }
}

/// What the retry state machine decides on seeing `status` when `remaining`
/// attempts (the one just made included) were still allowed.
pub open spec fn decision_of(status: u16, remaining: int) -> RetryDecision {
    if is_success_status(status) {
        RetryDecision::Finished(RetryOutcome::Succeeded)
    } else if remaining <= 1 {
        RetryDecision::Finished(RetryOutcome::ExhaustedRetries)
    } else {
        RetryDecision::Backoff(backoff_of_status(status))
    }
}

pub fn classify_status(status: u16) -> (c: AttemptOutcome)
    ensures
        c == outcome_of_status(status),
{
    if 200 <= status && status < 300 {
        AttemptOutcome::Succeeded
    } else if status == RATE_LIMIT_STATUS {
        AttemptOutcome::RateLimited
    } else {
        AttemptOutcome::OtherFailure
    }
}

/// The state of one mutation's bounded retry: how many attempts are still
/// allowed.
pub struct RetrySession {
    attempts_left: u8,
}

impl RetrySession {
    /// Attempts still allowed.
    pub closed spec fn remaining(&self) -> int {
        self.attempts_left as int
    }

    pub fn new(retries: u8) -> (s: Self)
        ensures
            s.remaining() == retries,
    {
        RetrySession { attempts_left: retries }
    }

    /// Consume one attempt and decide from its HTTP status whether to stop
    /// or to wait and try again.
    pub fn record(&mut self, status: u16) -> (d: RetryDecision)
        requires
            old(self).remaining() > 0,
        ensures
            final(self).remaining() == old(self).remaining() - 1,
            d == decision_of(status, old(self).remaining()),
    {
        self.attempts_left = self.attempts_left - 1;
        match classify_status(status) {
            AttemptOutcome::Succeeded => RetryDecision::Finished(RetryOutcome::Succeeded),
            AttemptOutcome::RateLimited => {
                if self.attempts_left == 0 {
                    RetryDecision::Finished(RetryOutcome::ExhaustedRetries)
                } else {
                    RetryDecision::Backoff(RATE_LIMIT_BACKOFF_SECS)
                }
            },
            AttemptOutcome::OtherFailure => {
                if self.attempts_left == 0 {
                    RetryDecision::Finished(RetryOutcome::ExhaustedRetries)
                } else {
                    RetryDecision::Backoff(FAILURE_BACKOFF_SECS)
                }
            },
        }
    }
}

/// The outcome the retry loop reaches when attempt `k` receives status
/// `statuses[k]` and at most `retries` attempts are allowed.
pub open spec fn retry_outcome_of(statuses: Seq<u16>, retries: nat) -> RetryOutcome
    decreases retries,
{
    if retries == 0 || statuses.len() == 0 {
        RetryOutcome::ExhaustedRetries
    } else if is_success_status(statuses[0]) {
        RetryOutcome::Succeeded
    } else {
        retry_outcome_of(statuses.skip(1), (retries - 1) as nat)
    }
}

/// How many attempts that loop makes: it stops at the first success, or
/// after `retries` failures.
pub open spec fn retry_attempts_of(statuses: Seq<u16>, retries: nat) -> nat
    decreases retries,
{
    if retries == 0 || statuses.len() == 0 {
        0
    } else if is_success_status(statuses[0]) {
        1
    } else {
        1 + retry_attempts_of(statuses.skip(1), (retries - 1) as nat)
    }
}

/// The backoff waits that loop performs, in order. A wait follows every
/// failed attempt except the final one.
pub open spec fn retry_delays_of(statuses: Seq<u16>, retries: nat) -> Seq<u64>
    decreases retries,
{
    if retries == 0 || statuses.len() == 0 {
        Seq::empty()
    } else if is_success_status(statuses[0]) {
        Seq::empty()
    } else if retries == 1 {
        Seq::empty()
    } else {
        seq![backoff_of_status(statuses[0])] + retry_delays_of(statuses.skip(1), (retries - 1) as nat)
    }
}

/// Everything one mutation's retry loop did: its terminal outcome, how many
/// attempts it made, and the backoff waits between them.
#[derive(Debug)]
pub struct RetryTrace {
    pub outcome: RetryOutcome,
    pub attempts: usize,
    pub delays: Vec<u64>,
}

/// Run the whole retry loop over the statuses the attempts would receive:
/// `statuses[k]` answers attempt `k`. At most `retries` attempts are made,
/// so only that prefix of `statuses` is ever read.
pub fn run_retries(statuses: &Vec<u16>, retries: u8) -> (t: RetryTrace)
    requires
        statuses@.len() >= retries,
    ensures
        t.outcome == retry_outcome_of(statuses@, retries as nat),
        t.attempts == retry_attempts_of(statuses@, retries as nat),
        t.delays@ == retry_delays_of(statuses@, retries as nat),
{
    let r = retries as usize;
    let mut session = RetrySession::new(retries);
    let mut delays: Vec<u64> = Vec::new();
    let mut i: usize = 0;
    proof {
        assert(statuses@.skip(0) =~= statuses@);
    }
    while i < r
        invariant
            r == retries as int,
            i <= r,
            statuses@.len() >= r,
            session.remaining() == r - i,
            retry_outcome_of(statuses@, retries as nat) == retry_outcome_of(
                statuses@.skip(i as int),
                (r - i) as nat,
            ),
            retry_attempts_of(statuses@, retries as nat) == i + retry_attempts_of(
                statuses@.skip(i as int),
                (r - i) as nat,
            ),
            retry_delays_of(statuses@, retries as nat) == delays@ + retry_delays_of(
                statuses@.skip(i as int),
                (r - i) as nat,
            ),
        decreases r - i,
    {
        let status = statuses[i];
        proof {
            assert(statuses@.skip(i as int)[0] == statuses@[i as int]);
            assert(statuses@.skip(i as int).skip(1) =~= statuses@.skip(i as int + 1));
        }
        let d = session.record(status);
        match d {
            RetryDecision::Finished(outcome) => {
                proof {
                    let rest = statuses@.skip(i as int);
                    assert(rest.len() == statuses@.len() - i);
                    if is_success_status(status) {
                        assert(retry_outcome_of(rest, (r - i) as nat) == RetryOutcome::Succeeded);
                        assert(retry_attempts_of(rest, (r - i) as nat) == 1);
                        assert(retry_delays_of(rest, (r - i) as nat) =~= Seq::<u64>::empty());
                    } else {
                        assert(r - i == 1);
                        assert(retry_outcome_of(rest, (r - i) as nat) == retry_outcome_of(
                            rest.skip(1),
                            0,
                        ));
                        assert(retry_attempts_of(rest, (r - i) as nat) == 1 + retry_attempts_of(
                            rest.skip(1),
                            0,
                        ));
                        assert(retry_delays_of(rest, (r - i) as nat) =~= Seq::<u64>::empty());
                    }
                    assert(retry_delays_of(statuses@, retries as nat) =~= delays@);
                }
                return RetryTrace { outcome, attempts: i + 1, delays };
            },
            RetryDecision::Backoff(secs) => {
                proof {
                    let rest = statuses@.skip(i as int);
                    assert(rest.len() == statuses@.len() - i);
                    assert(!is_success_status(status) && r - i >= 2);
                    assert(secs == backoff_of_status(status));
                    assert(retry_outcome_of(rest, (r - i) as nat) == retry_outcome_of(
                        statuses@.skip(i as int + 1),
                        (r - i - 1) as nat,
                    ));
                    assert(retry_attempts_of(rest, (r - i) as nat) == 1 + retry_attempts_of(
                        statuses@.skip(i as int + 1),
                        (r - i - 1) as nat,
                    ));
                    let restd = retry_delays_of(statuses@.skip(i as int + 1), (r - i - 1) as nat);
                    assert(retry_delays_of(rest, (r - i) as nat) == seq![secs] + restd);
                    assert(delays@ + (seq![secs] + restd) =~= delays@.push(secs) + restd);
                }
                delays.push(secs);
            },
        }
        i += 1;
    }
    proof {
        assert(retry_delays_of(statuses@, retries as nat) =~= delays@);
    }
    RetryTrace { outcome: RetryOutcome::ExhaustedRetries, attempts: i, delays }
}

} // verus!

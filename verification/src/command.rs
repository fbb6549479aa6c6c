//! Resilient process execution: the exit-status check and the
//! bounded-retry machine that every external-binary call goes through.
//!
//! Spawning itself is input/output and lives with the surrounding
//! application code; that code drives the machine here, which decides
//! — with a proved contract — whether to finish, retry after the
//! fixed delay, or give up with the last attempt's error. Only a
//! typed process failure — a non-zero exit — is ever retried;
//! failing to spawn or to wait on the process at all is fatal for
//! the whole call at once, with no sleep and no further attempt.

use vstd::prelude::*;
use crate::errors::Error;

verus! {

/// One external command: a program and its argument list.
#[derive(Clone, Debug)]
pub struct CommandSpec {
    pub program: String,
    pub args: Vec<String>,
}

/// Judges an exit status: success passes, and a non-zero or abnormal
/// exit becomes a typed process failure carrying the exit code.
pub fn check_status(success: bool, code: i32) -> (r: Result<(), Error>)
    ensures
        success ==> r == Ok::<(), Error>(()),
        !success ==> r == Err::<(), Error>(Error::ProcessFailed { code }),
{
    if success {
        Ok(())
    } else {
        Err(Error::ProcessFailed { code })
    }
}

/// The state of one bounded-retry execution: how many attempts are
/// allowed and how many have already failed.
#[derive(Clone, Copy, Debug, PartialEq, Eq, Structural)]
pub struct RetryPlan {
    pub max_attempts: u32,
    pub attempts_done: u32,
}

/// What to do after an attempt: stop successfully, wait the fixed
/// delay and try again, or give up with the last attempt's error.
#[derive(Clone, Copy, Debug, PartialEq, Eq, Structural)]
pub enum RetryStep {
    Done,
    SleepAndRetry(RetryPlan),
    GiveUp(Error),
}

/// Starting verdict of a retrying execution: zero attempts is an
/// invalid argument; otherwise no attempt has happened yet.
pub open spec fn spec_retry_start(max_attempts: u32) -> Result<RetryPlan, Error> {
    if max_attempts == 0 {
        Err(Error::InvalidRetryCount)
    } else {
        Ok(RetryPlan { max_attempts, attempts_done: 0 })
    }
}

/// The transition taken after one attempt's outcome. Only a process
/// failure — a non-zero exit — may be retried; any other error, such
/// as a failure to spawn, ends the call immediately with that error.
pub open spec fn spec_retry_next(p: RetryPlan, outcome: Result<(), Error>) -> RetryStep {
    match outcome {
        Ok(_) => RetryStep::Done,
        Err(e) => if !(e is ProcessFailed) {
            RetryStep::GiveUp(e)
        } else if p.attempts_done + 1 >= p.max_attempts {
            RetryStep::GiveUp(e)
        } else {
            RetryStep::SleepAndRetry(
                RetryPlan { max_attempts: p.max_attempts, attempts_done: (p.attempts_done + 1) as u32 },
            )
        },
    }
}

/// Begins a bounded-retry execution. Asking for zero attempts fails
/// immediately with the invalid-argument error, before any attempt is
/// made; otherwise the returned plan has performed no attempts yet.
pub fn retry_start(max_attempts: u32) -> (r: Result<RetryPlan, Error>)
    ensures
        r == spec_retry_start(max_attempts),
{
    if max_attempts == 0 {
        Err(Error::InvalidRetryCount)
    } else {
        Ok(RetryPlan { max_attempts, attempts_done: 0 })
    }
}

impl RetryPlan {
    /// Decides what follows one attempt: success short-circuits; an
    /// error other than a non-zero exit — a failure to spawn — is
    /// fatal for the call at once, returned verbatim with no further
    /// attempt; a non-zero exit before the last allowed attempt asks
    /// for a delay and a retry; one on the last allowed attempt
    /// returns that attempt's error verbatim.
    pub fn next(self, outcome: Result<(), Error>) -> (r: RetryStep)
        requires
            self.attempts_done < self.max_attempts,
        ensures
            r == spec_retry_next(self, outcome),
    {
        match outcome {
            Ok(_) => RetryStep::Done,
            Err(e) => {
                let retryable = match e {
                    Error::ProcessFailed { .. } => true,
                    _ => false,
                };
                if !retryable {
                    RetryStep::GiveUp(e)
                } else if self.attempts_done + 1 >= self.max_attempts {
                    RetryStep::GiveUp(e)
                } else {
                    RetryStep::SleepAndRetry(
                        RetryPlan {
                            max_attempts: self.max_attempts,
                            attempts_done: self.attempts_done + 1,
                        },
                    )
                }
            },
        }
    }
}

/// The whole run of the retry machine when driven by a sequence of
/// attempt outcomes: how many attempts are performed, and the final
/// result.
pub open spec fn spec_retry_run(p: RetryPlan, outcomes: Seq<Result<(), Error>>) -> (nat, Result<
    (),
    Error,
>)
    decreases outcomes.len(),
{
    if outcomes.len() == 0 {
        (0, Ok(()))
    } else {
        match spec_retry_next(p, outcomes[0]) {
            RetryStep::Done => (1, Ok(())),
            RetryStep::GiveUp(e) => (1, Err(e)),
            RetryStep::SleepAndRetry(p2) => {
                let rest = spec_retry_run(p2, outcomes.drop_first());
                ((rest.0 + 1) as nat, rest.1)
            },
        }
    }
}

/// Against a process that exits non-zero on every attempt, the
/// machine performs exactly the allowed number of attempts and
/// returns the error of the last attempt verbatim.
pub proof fn lemma_retry_exhausts_attempts(p: RetryPlan, outcomes: Seq<Result<(), Error>>)
    requires
        p.attempts_done < p.max_attempts,
        outcomes.len() == p.max_attempts - p.attempts_done,
        forall|i: int|
            0 <= i < outcomes.len() ==> outcomes[i] is Err && #[trigger] outcomes[i]->Err_0
                is ProcessFailed,
    ensures
        spec_retry_run(p, outcomes).0 == p.max_attempts - p.attempts_done,
        spec_retry_run(p, outcomes).1 == Err::<(), Error>(outcomes.last()->Err_0),
    decreases outcomes.len(),
{
    assert(outcomes[0] is Err);
    if outcomes.len() == 1 {
        assert(spec_retry_next(p, outcomes[0]) == RetryStep::GiveUp(outcomes[0]->Err_0));
    } else {
        let p2 = RetryPlan {
            max_attempts: p.max_attempts,
            attempts_done: (p.attempts_done + 1) as u32,
        };
        assert(spec_retry_next(p, outcomes[0]) == RetryStep::SleepAndRetry(p2));
        lemma_retry_exhausts_attempts(p2, outcomes.drop_first());
        assert(outcomes.drop_first().last() == outcomes.last());
    }
}

/// An attempt that succeeds ends the run at once, whatever non-zero
/// exits came before it and whatever outcomes would have followed.
pub proof fn lemma_retry_short_circuits(p: RetryPlan, outcomes: Seq<Result<(), Error>>, k: int)
    requires
        p.attempts_done < p.max_attempts,
        outcomes.len() >= p.max_attempts - p.attempts_done,
        0 <= k < p.max_attempts - p.attempts_done,
        forall|i: int|
            0 <= i < k ==> outcomes[i] is Err && #[trigger] outcomes[i]->Err_0 is ProcessFailed,
        outcomes[k] is Ok,
    ensures
        spec_retry_run(p, outcomes).0 == k + 1,
        spec_retry_run(p, outcomes).1 == Ok::<(), Error>(()),
    decreases k,
{
    if k == 0 {
        assert(spec_retry_next(p, outcomes[0]) == RetryStep::Done);
    } else {
        let p2 = RetryPlan {
            max_attempts: p.max_attempts,
            attempts_done: (p.attempts_done + 1) as u32,
        };
        assert(outcomes[0] is Err);
        assert(spec_retry_next(p, outcomes[0]) == RetryStep::SleepAndRetry(p2));
        lemma_retry_short_circuits(p2, outcomes.drop_first(), k - 1);
    }
}

/// An attempt that cannot even be spawned ends the run at once with
/// that error, whatever attempts would have been allowed: failure to
/// spawn is fatal for the call and is never retried and never slept
/// on.
pub proof fn lemma_retry_spawn_failure_fatal(p: RetryPlan, outcomes: Seq<Result<(), Error>>)
    requires
        p.attempts_done < p.max_attempts,
        outcomes.len() >= 1,
        outcomes[0] is Err,
        !(outcomes[0]->Err_0 is ProcessFailed),
    ensures
        spec_retry_run(p, outcomes).0 == 1,
        spec_retry_run(p, outcomes).1 == Err::<(), Error>(outcomes[0]->Err_0),
{
    assert(spec_retry_next(p, outcomes[0]) == RetryStep::GiveUp(outcomes[0]->Err_0));
}

} // verus!

//! The retry rule shared by the image build and the test run: run, and on
//! failure repair and run again, at most `max_retries` times.

use vstd::prelude::*;

verus! {

/// What to do after a run.
#[derive(Debug, Clone, Copy, PartialEq, Eq, Structural)]
pub enum RetryStep {
    /// The run succeeded: stop with success.
    Done,
    /// The run failed and no retry is left: stop with the failure.
    GiveUp,
    /// The run failed and a retry is left: repair, then run again.
    Repair,
}

/// How many runs have failed so far, and how many retries are allowed.
#[derive(Debug, Clone, Copy)]
pub struct RetryState {
    pub attempt: usize,
    pub max_retries: usize,
}

/// The step after a run with the given outcome.
pub open spec fn retry_step_spec(attempt: nat, max_retries: nat, success: bool) -> RetryStep {
    if success {
        RetryStep::Done
    } else if attempt >= max_retries {
        RetryStep::GiveUp
    } else {
        RetryStep::Repair
    }
}

impl RetryState {
    /// The state before the first run.
    pub fn new(max_retries: usize) -> (s: RetryState)
        ensures
            s.attempt == 0,
            s.max_retries == max_retries,
    {
        RetryState { attempt: 0, max_retries }
    }

    /// What to do after a run with the given outcome.
    pub fn step(&self, success: bool) -> (r: RetryStep)
        ensures
            r == retry_step_spec(self.attempt as nat, self.max_retries as nat, success),
    {
        if success {
            RetryStep::Done
        } else if self.attempt >= self.max_retries {
            RetryStep::GiveUp
        } else {
            RetryStep::Repair
        }
    }

    /// Moves on to the next run after a repair.
    pub fn advance(&mut self)
        requires
            old(self).attempt < old(self).max_retries,
        ensures
            final(self).attempt == old(self).attempt + 1,
            final(self).max_retries == old(self).max_retries,
    {
        self.attempt = self.attempt + 1;
    }
}

/// How many runs happen when the runs turn out as `results` says, starting
/// at failed-run count `attempt`: runs continue until one succeeds or no
/// retry is left.
pub open spec fn runs_made(attempt: nat, max_retries: nat, results: Seq<bool>) -> nat
    decreases results.len(),
{
    if results.len() == 0 {
        0
    } else {
        match retry_step_spec(attempt, max_retries, results[0]) {
            RetryStep::Repair => 1 + runs_made(attempt + 1, max_retries, results.drop_first()),
            _ => 1,
        }
    }
}

/// Whether the runs end in success.
pub open spec fn ends_in_success(attempt: nat, max_retries: nat, results: Seq<bool>) -> bool
    decreases results.len(),
{
    if results.len() == 0 {
        false
    } else {
        match retry_step_spec(attempt, max_retries, results[0]) {
            RetryStep::Done => true,
            RetryStep::GiveUp => false,
            RetryStep::Repair => ends_in_success(attempt + 1, max_retries, results.drop_first()),
        }
    }
}

/// No more than `max_retries + 1` runs are made, whatever their outcomes.
pub proof fn law_runs_bounded(attempt: nat, max_retries: nat, results: Seq<bool>)
    requires
        attempt <= max_retries,
    ensures
        runs_made(attempt, max_retries, results) <= max_retries + 1 - attempt,
    decreases results.len(),
{
    if results.len() > 0 {
        if retry_step_spec(attempt, max_retries, results[0]) == RetryStep::Repair {
            law_runs_bounded(attempt + 1, max_retries, results.drop_first());
        }
    }
}

/// The runs end in success exactly when one of the first `max_retries + 1`
/// runs succeeds.
pub proof fn law_success_iff_early_pass(attempt: nat, max_retries: nat, results: Seq<bool>)
    requires
        attempt <= max_retries,
    ensures
        ends_in_success(attempt, max_retries, results) <==> exists|i: int|
            0 <= i < results.len() && i <= max_retries - attempt && #[trigger] results[i],
    decreases results.len(),
{
    if results.len() > 0 {
        if results[0] {
        } else if attempt >= max_retries {
            assert forall|i: int|
                0 <= i < results.len() && i <= max_retries - attempt implies !#[trigger] results[i] by {
                assert(i == 0);
            }
        } else {
            let rest = results.drop_first();
            law_success_iff_early_pass(attempt + 1, max_retries, rest);
            if ends_in_success(attempt, max_retries, results) {
                let j = choose|j: int|
                    0 <= j < rest.len() && j <= max_retries - (attempt + 1) && #[trigger] rest[j];
                assert(results[j + 1] == rest[j]);
            } else {
                assert forall|i: int|
                    0 <= i < results.len() && i <= max_retries - attempt implies !#[trigger] results[i] by {
                    if i > 0 {
                        assert(rest[i - 1] == results[i]);
                    }
                }
            }
        }
    }
}

} // verus!

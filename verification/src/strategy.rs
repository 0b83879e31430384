//! Termination strategies for the agent execution loop.
//!
//! A strategy is a predicate consulted once per completed step; `true` means
//! "run another step". The capability is open for extension: any type whose
//! decision is captured by `spec_continue` can drive the loop. Because the
//! first consultation follows the first step, every loop runs at least one
//! step, whatever the strategy says.

use vstd::prelude::*;

use crate::types::FinishReason;

verus! {

/// An execution termination strategy.
pub trait RunUntil: Sized {
    /// The decision this strategy makes after the step with 0-based index
    /// `step` completes with `reason`: `true` continues the loop.
    spec fn spec_continue(&self, step: u32, reason: FinishReason) -> bool;

    /// Decides whether execution continues after step `step` completed with
    /// `reason`.
    fn should_continue(&self, step: u32, reason: &FinishReason) -> (c: bool)
        ensures
            c == self.spec_continue(step, *reason),
    ;
}

/// Stops once `max` steps have completed. The first check follows step 0,
/// so at least one step always runs: a bound of 0 still yields one step.
#[derive(Debug, Clone, Copy, PartialEq, Eq, Structural)]
pub struct MaxSteps {
    pub max: u32,
}

impl MaxSteps {
    /// A strategy that stops once `max` steps have completed.
    pub fn new(max: u32) -> (r: MaxSteps)
        ensures
            r.max == max,
    {
        MaxSteps { max }
    }
}

impl RunUntil for MaxSteps {
    /// Continues while fewer than `max` steps have completed; after step
    /// `step`, `step + 1` steps have.
    open spec fn spec_continue(&self, step: u32, reason: FinishReason) -> bool {
        step + 1 < self.max
    }

    fn should_continue(&self, step: u32, reason: &FinishReason) -> (c: bool) {
        step < self.max && step + 1 < self.max
    }
}

/// Stops on the first step whose finish reason is one of the given reasons,
/// and continues otherwise, regardless of the step count.
#[derive(Debug)]
pub struct StopOnReason {
    pub reasons: Vec<FinishReason>,
}

impl StopOnReason {
    /// A strategy that stops on any of the given reasons.
    pub fn new(reasons: Vec<FinishReason>) -> (r: StopOnReason)
        ensures
            r.reasons@ == reasons@,
    {
        StopOnReason { reasons }
    }

    /// Stops when generation ends normally.
    pub fn stop_on_finish() -> (r: StopOnReason)
        ensures
            r.reasons@ == seq![FinishReason::Stop],
    {
        let mut reasons: Vec<FinishReason> = Vec::new();
        reasons.push(FinishReason::Stop);
        StopOnReason { reasons }
    }

    /// Stops when generation hits the length limit.
    pub fn stop_on_length() -> (r: StopOnReason)
        ensures
            r.reasons@ == seq![FinishReason::Length],
    {
        let mut reasons: Vec<FinishReason> = Vec::new();
        reasons.push(FinishReason::Length);
        StopOnReason { reasons }
    }
}

impl RunUntil for StopOnReason {
    /// Continues while the current reason is not a member of the set.
    open spec fn spec_continue(&self, step: u32, reason: FinishReason) -> bool {
        !self.reasons@.contains(reason)
    }

    fn should_continue(&self, step: u32, reason: &FinishReason) -> (c: bool) {
        let n = self.reasons.len();
        let mut i: usize = 0;
        while i < n
            invariant
                0 <= i <= n,
                n == self.reasons@.len(),
                forall|j: int| 0 <= j < i ==> self.reasons@[j] != *reason,
            decreases n - i,
        {
            if self.reasons[i] == *reason {
                return false;
            }
            i = i + 1;
        }
        true
    }
}

/// Combines two strategies, stopping as soon as either would stop: the
/// logical conjunction of the two continue-decisions.
#[derive(Debug)]
pub struct RunUntilFirst<A, B> where A: RunUntil, B: RunUntil {
    pub first: A,
    pub second: B,
}

impl<A, B> RunUntilFirst<A, B> where A: RunUntil, B: RunUntil {
    /// Combines `first` and `second`, first-to-finish.
    pub fn new(first: A, second: B) -> (r: RunUntilFirst<A, B>)
        ensures
            r.first == first,
            r.second == second,
    {
        RunUntilFirst { first, second }
    }
}

impl<A: RunUntil, B: RunUntil> RunUntil for RunUntilFirst<A, B> {
    /// Continues only if both components would continue.
    open spec fn spec_continue(&self, step: u32, reason: FinishReason) -> bool {
        self.first.spec_continue(step, reason) && self.second.spec_continue(step, reason)
    }

    fn should_continue(&self, step: u32, reason: &FinishReason) -> (c: bool) {
        self.first.should_continue(step, reason) && self.second.should_continue(step, reason)
    }
}

/// A reason-set strategy is insensitive to the step index: its decision on a
/// given reason is the same at every step, and it halts exactly on the
/// reasons in its set.
pub proof fn lemma_stop_on_reason_uniform(
    s: StopOnReason,
    step1: u32,
    step2: u32,
    reason: FinishReason,
)
    ensures
        s.spec_continue(step1, reason) == !s.reasons@.contains(reason),
        s.spec_continue(step1, reason) == s.spec_continue(step2, reason),
{
}

/// A combined strategy stops at the earliest point either component would
/// stop: it continues exactly when both continue.
pub proof fn lemma_first_to_finish<A: RunUntil, B: RunUntil>(
    c: RunUntilFirst<A, B>,
    step: u32,
    reason: FinishReason,
)
    ensures
        c.spec_continue(step, reason) == (c.first.spec_continue(step, reason)
            && c.second.spec_continue(step, reason)),
        !c.first.spec_continue(step, reason) ==> !c.spec_continue(step, reason),
        !c.second.spec_continue(step, reason) ==> !c.spec_continue(step, reason),
{
}

} // verus!

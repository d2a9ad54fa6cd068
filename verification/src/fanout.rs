//! The fan-out executor: applying one operation across a resolved scope,
//! one target at a time, collecting an independent outcome per target.
//!
//! The executor owns the bookkeeping only. The surrounding binary asks for
//! the next target, performs the remote call, and records what came back;
//! a failure for one target is recorded and never aborts the remainder.

use vstd::prelude::*;

verus! {

/// The outcome of one target of a fan-out: the success value, or the
/// captured failure with the target kept for independent reporting.
pub enum FanOutOutcome<T> {
    Success { target: String, value: T },
    Failure { target: String, detail: String },
}

/// The target an outcome was recorded for.
pub open spec fn target_of<T>(o: FanOutOutcome<T>) -> Seq<char> {
    match o {
        FanOutOutcome::Success { target, .. } => target@,
        FanOutOutcome::Failure { target, .. } => target@,
    }
}

/// Whether an outcome records a success.
pub open spec fn is_success<T>(o: FanOutOutcome<T>) -> bool {
    o is Success
}

/// The outcome recording `result` for `target`.
pub open spec fn outcome_of<T>(target: String, result: Result<T, String>) -> FanOutOutcome<T> {
    match result {
        Ok(value) => FanOutOutcome::Success { target, value },
        Err(detail) => FanOutOutcome::Failure { target, detail },
    }
}

/// The outcome sequence of a completed fan-out: one outcome per target,
/// in target order.
pub open spec fn fan_out_model<T>(
    targets: Seq<String>,
    results: Seq<Result<T, String>>,
) -> Seq<FanOutOutcome<T>> {
    Seq::new(targets.len(), |i: int| outcome_of(targets[i], results[i]))
}

/// Law: fan-out order and completeness. For a scope of `n` targets whose
/// operation fails on an arbitrary subset of them, the fan-out yields
/// exactly `n` outcomes, in the scope's order, each outcome failed
/// exactly where its target's result failed — whatever the failing
/// subset is. No outcome is fabricated for a target without a result.
pub proof fn lemma_fan_out_order_and_completeness<T>(
    targets: Seq<String>,
    results: Seq<Result<T, String>>,
)
    requires
        targets.len() == results.len(),
    ensures
        fan_out_model(targets, results).len() == targets.len(),
        forall|i: int|
            0 <= i < targets.len() ==> target_of(#[trigger] fan_out_model(targets, results)[i])
                == targets[i]@,
        forall|i: int|
            0 <= i < targets.len() ==> is_success(#[trigger] fan_out_model(targets, results)[i])
                == results[i] is Ok,
{
}

/// A fan-out in progress: the resolved targets, and the outcomes of the
/// targets attempted so far.
pub struct FanOutExecutor<T> {
    targets: Vec<String>,
    outcomes: Vec<FanOutOutcome<T>>,
}

impl<T> FanOutExecutor<T> {
    /// The resolved scope this fan-out walks.
    pub closed spec fn targets(&self) -> Seq<String> {
        self.targets@
    }

    /// The outcomes recorded so far, in target order.
    pub closed spec fn outcomes(&self) -> Seq<FanOutOutcome<T>> {
        self.outcomes@
    }

    /// One outcome stands for each attempted target, in the scope's
    /// order, and never for a target that was not attempted.
    pub open spec fn wf(&self) -> bool {
        &&& self.outcomes().len() <= self.targets().len()
        &&& forall|i: int|
            0 <= i < self.outcomes().len() ==> target_of(#[trigger] self.outcomes()[i])
                == self.targets()[i]@
    }

    /// A fan-out over `targets` with nothing attempted yet.
    pub fn new(targets: Vec<String>) -> (r: Self)
        ensures
            r.wf(),
            r.targets() == targets@,
            r.outcomes() == Seq::<FanOutOutcome<T>>::empty(),
    {
        Self { targets, outcomes: Vec::new() }
    }

    /// The next target to attempt, or `None` when every target has an
    /// outcome.
    pub fn next_target(&self) -> (r: Option<&String>)
        requires
            self.wf(),
        ensures
            (r is Some) == (self.outcomes().len() < self.targets().len()),
            r matches Some(t) ==> *t == self.targets()[self.outcomes().len() as int],
    {
        if self.outcomes.len() < self.targets.len() {
            Some(&self.targets[self.outcomes.len()])
        } else {
            None
        }
    }

    /// Records that the current target's operation succeeded with `value`.
    pub fn record_success(&mut self, value: T)
        requires
            old(self).wf(),
            old(self).outcomes().len() < old(self).targets().len(),
        ensures
            final(self).wf(),
            final(self).targets() == old(self).targets(),
            final(self).outcomes() == old(self).outcomes().push(
                outcome_of(old(self).targets()[old(self).outcomes().len() as int], Ok(value)),
            ),
    {
        let target = self.targets[self.outcomes.len()].clone();
        self.outcomes.push(FanOutOutcome::Success { target, value });
    }

    /// Records that the current target's operation failed with `detail`;
    /// the fan-out moves on to the next target.
    pub fn record_failure(&mut self, detail: String)
        requires
            old(self).wf(),
            old(self).outcomes().len() < old(self).targets().len(),
        ensures
            final(self).wf(),
            final(self).targets() == old(self).targets(),
            final(self).outcomes() == old(self).outcomes().push(
                outcome_of(
                    old(self).targets()[old(self).outcomes().len() as int],
                    Err(detail),
                ),
            ),
    {
        let target = self.targets[self.outcomes.len()].clone();
        self.outcomes.push(FanOutOutcome::Failure { target, detail });
    }

    /// Whether every target has its outcome.
    pub fn is_complete(&self) -> (r: bool)
        requires
            self.wf(),
        ensures
            r == (self.outcomes().len() == self.targets().len()),
    {
        self.outcomes.len() == self.targets.len()
    }

    /// Hands out the recorded outcomes.
    pub fn into_outcomes(self) -> (r: Vec<FanOutOutcome<T>>)
        ensures
            r@ == self.outcomes(),
    {
        self.outcomes
    }
}

} // verus!

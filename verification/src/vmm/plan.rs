//! Operations that are carried out one after another until one fails.

use vstd::prelude::*;

verus! {

/// How to go on with a series of operations.
#[derive(Clone, Copy, PartialEq, Eq, Structural, Debug)]
pub enum PlanStep {
    /// Carry out the operation at this place of the series.
    Perform(usize),
    /// The series is over; the flag says whether all of it succeeded.
    Finish(bool),
}

/// The step after `done` operations have succeeded.
pub open spec fn step_at(len: nat, done: nat) -> PlanStep {
    if done < len {
        PlanStep::Perform(done as usize)
    } else {
        PlanStep::Finish(true)
    }
}

/// The step after operation `current` has succeeded or failed.
pub open spec fn step_after(len: nat, current: nat, ok: bool) -> PlanStep {
    if ok {
        step_at(len, current + 1)
    } else {
        PlanStep::Finish(false)
    }
}

/// Begins a series of `len` operations.
pub fn plan_begin(len: usize) -> (r: PlanStep)
    ensures
        r == step_at(len as nat, 0),
{
    if len == 0 {
        PlanStep::Finish(true)
    } else {
        PlanStep::Perform(0)
    }
}

/// Goes on after operation `current` of a series of `len`.
pub fn plan_next(len: usize, current: usize, ok: bool) -> (r: PlanStep)
    requires
        current < len,
    ensures
        r == step_after(len as nat, current as nat, ok),
{
    if !ok {
        PlanStep::Finish(false)
    } else if current + 1 < len {
        PlanStep::Perform(current + 1)
    } else {
        PlanStep::Finish(true)
    }
}

/// Where a series stands after the outcomes so far.
pub open spec fn run(len: nat, outcomes: Seq<bool>) -> PlanStep
    decreases outcomes.len(),
{
    if outcomes.len() == 0 {
        step_at(len, 0)
    } else {
        match run(len, outcomes.drop_last()) {
            PlanStep::Perform(current) => step_after(len, current as nat, outcomes.last()),
            PlanStep::Finish(ok) => PlanStep::Finish(ok),
        }
    }
}

/// As long as every operation succeeds they are carried out one by one, and
/// after the last of them the series has succeeded.
pub proof fn success_goes_on(len: nat, outcomes: Seq<bool>)
    requires
        len <= usize::MAX,
        outcomes.len() <= len,
        forall|i: int| 0 <= i < outcomes.len() ==> outcomes[i],
    ensures
        run(len, outcomes) == step_at(len, outcomes.len()),
    decreases outcomes.len(),
{
    if outcomes.len() > 0 {
        success_goes_on(len, outcomes.drop_last());
    }
}

/// The first operation that fails ends the series without success; nothing is
/// carried out after it.
pub proof fn failure_ends_it(len: nat, outcomes: Seq<bool>, first: int)
    requires
        len <= usize::MAX,
        0 <= first < outcomes.len(),
        first < len,
        !outcomes[first],
        forall|i: int| 0 <= i < first ==> outcomes[i],
    ensures
        run(len, outcomes) == PlanStep::Finish(false),
    decreases outcomes.len(),
{
    if first == outcomes.len() - 1 {
        success_goes_on(len, outcomes.drop_last());
    } else {
        failure_ends_it(len, outcomes.drop_last(), first);
    }
}

/// One step of a series: success leads to the next operation, or after the last
/// one to the end; failure to the end at once.
pub proof fn each_outcome_leads_on(len: nat, current: nat)
    requires
        current < len <= usize::MAX,
    ensures
        step_at(len, 0) == PlanStep::Perform(0),
        step_at(0, 0) == PlanStep::Finish(true),
        current + 1 < len ==> step_after(len, current, true) == PlanStep::Perform(
            (current + 1) as usize,
        ),
        current + 1 == len ==> step_after(len, current, true) == PlanStep::Finish(true),
        step_after(len, current, false) == PlanStep::Finish(false),
{
}

} // verus!

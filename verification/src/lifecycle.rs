use vstd::prelude::*;

verus! {

/// The life of one pass instance across the single allocate-run-readback
/// cycle. Transitions are one-directional and single-shot: a pass is never
/// taken back to an earlier stage.
#[derive(Clone, Copy, PartialEq, Eq, Structural, Debug)]
pub enum PassLifecycle {
    /// Constructed in name only; no resources yet.
    Uninitialized,
    /// Resources allocated and, for compute-bearing passes, the pipeline
    /// built.
    Resourced,
    /// Commands appended to an open command buffer, not yet submitted.
    Recorded,
    /// The one fenced submission completed.
    Submitted,
    /// The host may map and inspect the pass's readback memory.
    Readable,
}

/// The stage a pass reaches after the next step of the cycle; a readable
/// pass has nowhere further to go.
pub open spec fn spec_next_stage(s: PassLifecycle) -> PassLifecycle {
    match s {
        PassLifecycle::Uninitialized => PassLifecycle::Resourced,
        PassLifecycle::Resourced => PassLifecycle::Recorded,
        PassLifecycle::Recorded => PassLifecycle::Submitted,
        PassLifecycle::Submitted => PassLifecycle::Readable,
        PassLifecycle::Readable => PassLifecycle::Readable,
    }
}

/// Advance a tracked pass one stage, as the host's driver loop does after
/// each step of the cycle.
pub fn next_stage(s: PassLifecycle) -> (t: PassLifecycle)
    ensures
        t == spec_next_stage(s),
{
    match s {
        PassLifecycle::Uninitialized => PassLifecycle::Resourced,
        PassLifecycle::Resourced => PassLifecycle::Recorded,
        PassLifecycle::Recorded => PassLifecycle::Submitted,
        PassLifecycle::Submitted => PassLifecycle::Readable,
        PassLifecycle::Readable => PassLifecycle::Readable,
    }
}

/// Position of a stage in the cycle's order.
pub open spec fn stage_rank(s: PassLifecycle) -> int {
    match s {
        PassLifecycle::Uninitialized => 0,
        PassLifecycle::Resourced => 1,
        PassLifecycle::Recorded => 2,
        PassLifecycle::Submitted => 3,
        PassLifecycle::Readable => 4,
    }
}

/// The cycle is one-directional: each step advances a pass by exactly one
/// stage until it is readable, and never moves it backwards.
pub proof fn lemma_lifecycle_one_directional(s: PassLifecycle)
    ensures
        s == PassLifecycle::Readable ==> spec_next_stage(s) == s,
        s != PassLifecycle::Readable ==> stage_rank(spec_next_stage(s)) == stage_rank(s) + 1,
        stage_rank(spec_next_stage(s)) >= stage_rank(s),
{
}

} // verus!

//! Construction and teardown ordering of the renderer's owned components.
//!
//! The components are acquired in one fixed order — backend context,
//! presentation target, execution context, frame resource ring — and
//! released in the exact reverse order on every exit path, including early
//! failure during construction, with a device-idle wait inserted before any
//! of the ring's resources are destroyed. The chain records how far
//! construction got and derives the release plan from that alone, so a
//! partially constructed renderer tears down just as strictly as a complete
//! one, and nothing is released twice.

use vstd::prelude::*;

verus! {

/// The owned components, in construction order.
#[derive(Clone, Copy, Debug, PartialEq, Eq, Structural)]
pub enum Stage {
    /// Process-scope API context plus the diagnostic channel; created
    /// first, destroyed last.
    BackendContext,
    /// The opaque presentation-target handle.
    PresentationTarget,
    /// The logical device and its queue; every later resource is causally
    /// owned by it and must not outlive it.
    ExecutionContext,
    /// The per-frame resource ring.
    FrameRing,
}

/// One step of teardown: release a component, or block until the device is
/// idle so that no in-flight frame still uses what is about to go away.
#[derive(Clone, Copy, Debug, PartialEq, Eq, Structural)]
pub enum TeardownStep {
    WaitIdle,
    Release(Stage),
}

/// The position of a stage in the construction order.
pub open spec fn stage_index(s: Stage) -> int {
    match s {
        Stage::BackendContext => 0,
        Stage::PresentationTarget => 1,
        Stage::ExecutionContext => 2,
        Stage::FrameRing => 3,
    }
}

/// The stage constructed at position `i`.
pub open spec fn stage_at(i: int) -> Stage {
    if i == 0 {
        Stage::BackendContext
    } else if i == 1 {
        Stage::PresentationTarget
    } else if i == 2 {
        Stage::ExecutionContext
    } else {
        Stage::FrameRing
    }
}

/// The teardown plan after `k` stages were constructed: the constructed
/// stages in exact reverse order, preceded by a device-idle wait whenever
/// the frame ring exists.
pub open spec fn spec_teardown_plan(k: int) -> Seq<TeardownStep> {
    let releases = Seq::new(k as nat, |i: int| TeardownStep::Release(stage_at(k - 1 - i)));
    if k == 4 {
        seq![TeardownStep::WaitIdle] + releases
    } else {
        releases
    }
}

/// Records which components have been constructed so far.
pub struct LifecycleChain {
    pub built: Vec<Stage>,
}

impl LifecycleChain {
    /// Well-formedness: what was built is a prefix of the construction
    /// order.
    pub open spec fn wf(self) -> bool {
        &&& self.built@.len() <= 4
        &&& forall|i: int| 0 <= i < self.built@.len() ==> #[trigger] self.built@[i] == stage_at(i)
    }

    /// An empty chain: nothing constructed yet.
    pub fn new() -> (c: LifecycleChain)
        ensures
            c.wf(),
            c.built@.len() == 0,
    {
        LifecycleChain { built: Vec::new() }
    }

    /// Record that the next component in the construction order was
    /// acquired. Only the stage whose turn it is can be recorded, so a
    /// well-formed chain can never claim an out-of-order construction.
    pub fn on_constructed(&mut self, s: Stage)
        requires
            old(self).wf(),
            old(self).built@.len() < 4,
            stage_index(s) == old(self).built@.len(),
        ensures
            final (self).wf(),
            final (self).built@ == old(self).built@.push(s),
    {
        self.built.push(s);
        proof {
            assert(stage_at(stage_index(s)) == s);
        }
    }

    /// The steps of teardown, in the order they must run: every constructed
    /// component exactly once, in exact reverse construction order, with a
    /// device-idle wait first whenever the frame ring was built.
    pub fn teardown_plan(&self) -> (plan: Vec<TeardownStep>)
        requires
            self.wf(),
        ensures
            plan@ == spec_teardown_plan(self.built@.len() as int),
    {
        let mut plan: Vec<TeardownStep> = Vec::new();
        let n = self.built.len();
        if n == 4 {
            plan.push(TeardownStep::WaitIdle);
        }
        let ghost head: int = if n == 4 { 1 } else { 0 };
        let mut i: usize = 0;
        while i < n
            invariant
                i <= n,
                n == self.built@.len() <= 4,
                forall|k: int| 0 <= k < n ==> #[trigger] self.built@[k] == stage_at(k),
                head == if n == 4 { 1int } else { 0int },
                plan@.len() == head + i,
                head == 1 ==> plan@[0] == TeardownStep::WaitIdle,
                forall|p: int|
                    head <= p < plan@.len() ==> #[trigger] plan@[p] == TeardownStep::Release(
                        stage_at(n - 1 - (p - head)),
                    ),
            decreases n - i,
        {
            plan.push(TeardownStep::Release(self.built[n - 1 - i]));
            i = i + 1;
        }
        proof {
            assert(plan@ =~= spec_teardown_plan(self.built@.len() as int));
        }
        plan
    }
}

/// How many steps of the plan precede the releases: one (the device-idle
/// wait) when the frame ring was built, none otherwise.
pub open spec fn plan_head(k: int) -> int {
    if k == 4 {
        1
    } else {
        0
    }
}

/// The `i`-th release step of the teardown plan after `k` constructed
/// stages, skipping the device-idle wait if one leads the plan.
pub open spec fn release_at(k: int, i: int) -> TeardownStep {
    spec_teardown_plan(k)[plan_head(k) + i]
}

/// Law: teardown order. However far construction got — the full chain or
/// any early-failure prefix — the plan releases exactly the constructed
/// stages, in strict reverse construction order, releases none of them
/// twice, and waits for the device to go idle before the frame ring is
/// released.
pub proof fn lemma_teardown_reverse(k: int)
    requires
        0 <= k <= 4,
    ensures
        spec_teardown_plan(k).len() == plan_head(k) + k,
        forall|i: int|
            0 <= i < k ==> #[trigger] release_at(k, i) == TeardownStep::Release(stage_at(k - 1 - i)),
        forall|i: int, j: int|
            0 <= i < j < k ==> stage_index((#[trigger] release_at(k, i))->Release_0) > stage_index(
                (#[trigger] release_at(k, j))->Release_0,
            ),
        forall|i: int, j: int|
            0 <= i < k && 0 <= j < k && i != j ==> release_at(k, i) != release_at(k, j),
        k == 4 ==> spec_teardown_plan(k)[0] == TeardownStep::WaitIdle && release_at(k, 0)
            == TeardownStep::Release(Stage::FrameRing),
{
    assert forall|i: int| 0 <= i < k implies #[trigger] release_at(k, i) == TeardownStep::Release(
        stage_at(k - 1 - i),
    ) by {}
    assert forall|i: int, j: int| 0 <= i < j < k implies stage_index(
        (#[trigger] release_at(k, i))->Release_0,
    ) > stage_index((#[trigger] release_at(k, j))->Release_0) by {
        assert(release_at(k, i) == TeardownStep::Release(stage_at(k - 1 - i)));
        assert(release_at(k, j) == TeardownStep::Release(stage_at(k - 1 - j)));
    }
}

} // verus!

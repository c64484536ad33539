//! The frame resource ring: a fixed-size array of per-frame synchronization
//! and command-recording resources, cycled by a monotonically increasing
//! frame counter. The current slot index is always `counter mod ring size`.
//!
//! Each slot moves through `Idle` (frame-fence signaled) → `Recording` →
//! `Submitted` (frame-fence unsignaled) → back to `Idle` when the device
//! signals the frame-fence. The blocking fence wait itself happens outside
//! this crate; its outcome is handed to [`FrameRing::begin_frame`], which
//! decides what follows. The wait is the sole backpressure mechanism: the
//! driving thread stalls once the device falls `ring size` frames behind.

use vstd::prelude::*;

use crate::RenderError;

verus! {

/// Where one slot stands in its per-frame protocol.
#[derive(Clone, Copy, Debug, PartialEq, Eq, Structural)]
pub enum SlotState {
    /// The slot's frame-fence is signaled; its resources may be reused.
    Idle,
    /// The slot's buffer is being recorded; its frame-fence was reset.
    Recording,
    /// The slot's work was handed to the device; its frame-fence stays
    /// unsignaled until the device completes the work.
    Submitted,
}

/// One ring element: its protocol state and the handles of the resources it
/// owns. Handles are opaque to this crate; the caller maps them back to the
/// backend's objects.
#[derive(Clone, Copy, Debug, PartialEq, Eq, Structural)]
pub struct FrameData {
    pub state: SlotState,
    /// Command-recording pool.
    pub pool: u64,
    /// Primary command buffer allocated from `pool`.
    pub buffer: u64,
    /// Device-only ordering signal: acquire-complete.
    pub swapchain_sem: u64,
    /// Device-only ordering signal: render-complete.
    pub render_sem: u64,
    /// CPU-observable completion signal (frame-fence), initially signaled.
    pub render_fen: u64,
}

/// Outcome of the bounded, blocking wait on a slot's frame-fence, performed
/// by the caller against the backend.
#[derive(Clone, Copy, Debug, PartialEq, Eq, Structural)]
pub enum WaitOutcome {
    /// The fence was observed signaled within the bound.
    Signaled,
    /// The bound elapsed first: the device is presumed hung or lost.
    TimedOut,
    /// The backend reported a failure of its own.
    DeviceFailure,
}

/// The kind of one per-slot destroyable resource, in acquisition order;
/// teardown runs through them in reverse.
#[derive(Clone, Copy, Debug, PartialEq, Eq, Structural)]
pub enum ResourceKind {
    CommandPool,
    AcquireSignal,
    RenderSignal,
    FrameFence,
}

/// One step of the ring's teardown: destroy the resource of kind `kind`
/// belonging to slot `slot`, whose backend handle is `handle`.
#[derive(Clone, Copy, Debug, PartialEq, Eq, Structural)]
pub struct DestroyStep {
    pub slot: usize,
    pub kind: ResourceKind,
    pub handle: u64,
}

/// The mathematical state of a ring: its slots and its frame counter.
#[verifier::ext_equal]
pub ghost struct RingView {
    pub slots: Seq<FrameData>,
    pub counter: int,
}

impl RingView {
    pub open spec fn ring_size(self) -> int {
        self.slots.len() as int
    }

    /// The slot the next frame uses.
    pub open spec fn current(self) -> int {
        self.counter % self.ring_size()
    }

    /// Well-formedness: at least one slot, a non-negative counter, and no
    /// slot other than the current one in the middle of recording.
    pub open spec fn wf(self) -> bool {
        &&& self.ring_size() >= 1
        &&& self.counter >= 0
        &&& forall|i: int|
            0 <= i < self.ring_size() && (#[trigger] self.slots[i]).state is Recording ==> i
                == self.current()
    }

    /// The ring as first constructed: counter zero, every slot `Idle` with a
    /// pre-signaled frame-fence, so the first `ring size` frames never stall.
    pub open spec fn fresh(self) -> bool {
        &&& self.counter == 0
        &&& forall|i: int|
            0 <= i < self.ring_size() ==> (#[trigger] self.slots[i]).state is Idle
    }

    /// The slot at `i` with its state replaced, everything else unchanged.
    pub open spec fn with_slot_state(self, i: int, st: SlotState) -> RingView {
        RingView {
            slots: self.slots.update(i, (FrameData { state: st, ..self.slots[i] })),
            ..self
        }
    }

    /// Effect of entering recording: the current slot's frame-fence and pool
    /// are reset and the slot becomes `Recording`.
    pub open spec fn begun(self) -> RingView {
        self.with_slot_state(self.current(), SlotState::Recording)
    }

    /// Effect of submission: the current slot becomes `Submitted` and the
    /// counter advances, moving the ring to the next slot.
    pub open spec fn submitted(self) -> RingView {
        RingView {
            counter: self.counter + 1,
            ..self.with_slot_state(self.current(), SlotState::Submitted)
        }
    }

    /// Effect of observing slot `i`'s frame-fence signaled after submission:
    /// the device finished that slot's work, and the slot is `Idle` again.
    pub open spec fn completed(self, i: int) -> RingView {
        self.with_slot_state(i, SlotState::Idle)
    }

    /// One whole frame: begin recording, then submit.
    pub open spec fn cycled(self) -> RingView {
        self.begun().submitted()
    }

    /// `n` whole frames in a row, none of them completed by the device.
    pub open spec fn cycled_n(self, n: nat) -> RingView
        decreases n,
    {
        if n == 0 {
            self
        } else {
            self.cycled_n((n - 1) as nat).cycled()
        }
    }

    /// The next frame cannot proceed without a device-side completion: the
    /// current slot is still `Submitted`, so its frame-fence is unsignaled
    /// and the bounded wait blocks.
    pub open spec fn must_wait(self) -> bool {
        self.slots[self.current()].state is Submitted
    }

    /// Every slot is a frame in flight.
    pub open spec fn all_in_flight(self) -> bool {
        forall|i: int|
            0 <= i < self.ring_size() ==> (#[trigger] self.slots[i]).state is Submitted
    }
}

/// Configuration of the ring: how many frames may be in flight. The
/// protocol's correctness argument holds for any size of at least one.
#[derive(Clone, Copy, Debug, PartialEq, Eq, Structural)]
pub struct RingConfig {
    pub ring_size: usize,
}

impl Default for RingConfig {
    /// Two frames in flight unless the caller asks otherwise.
    fn default() -> (c: RingConfig)
        ensures
            c.ring_size == 2,
    {
        RingConfig { ring_size: 2 }
    }
}

/// The frame resource ring. Its size is fixed at construction and never
/// changes afterwards.
pub struct FrameRing {
    pub frames: Vec<FrameData>,
    pub frame_number: u64,
}

impl View for FrameRing {
    type V = RingView;

    open spec fn view(&self) -> RingView {
        RingView { slots: self.frames@, counter: self.frame_number as int }
    }
}

impl FrameData {
    /// A freshly created slot: `Idle`, holding the given resource handles.
    pub fn new(pool: u64, buffer: u64, swapchain_sem: u64, render_sem: u64, render_fen: u64) -> (f:
        FrameData)
        ensures
            f == (FrameData {
                state: SlotState::Idle,
                pool,
                buffer,
                swapchain_sem,
                render_sem,
                render_fen,
            }),
    {
        FrameData { state: SlotState::Idle, pool, buffer, swapchain_sem, render_sem, render_fen }
    }
}

impl Default for FrameData {
    /// A placeholder slot: `Idle` with null handles.
    fn default() -> (f: FrameData)
        ensures
            f == (FrameData {
                state: SlotState::Idle,
                pool: 0,
                buffer: 0,
                swapchain_sem: 0,
                render_sem: 0,
                render_fen: 0,
            }),
    {
        FrameData {
            state: SlotState::Idle,
            pool: 0,
            buffer: 0,
            swapchain_sem: 0,
            render_sem: 0,
            render_fen: 0,
        }
    }
}

impl FrameRing {
    /// Assemble the ring from its freshly created slots. The size is the
    /// number of slots handed in, at least one, and is fixed from here on.
    pub fn new(frames: Vec<FrameData>) -> (r: FrameRing)
        requires
            frames@.len() >= 1,
            forall|i: int| 0 <= i < frames@.len() ==> (#[trigger] frames@[i]).state is Idle,
        ensures
            r@.slots == frames@,
            r@.counter == 0,
            r@.wf(),
            r@.fresh(),
    {
        FrameRing { frames, frame_number: 0 }
    }

    /// The index of the slot the next frame uses.
    pub fn current_index(&self) -> (i: usize)
        requires
            self@.wf(),
        ensures
            i == self@.current(),
    {
        (self.frame_number % self.frames.len() as u64) as usize
    }

    /// The slot the next frame uses.
    pub fn get_current_frame(&self) -> (f: &FrameData)
        requires
            self@.wf(),
        ensures
            *f == self@.slots[self@.current()],
    {
        let i = self.current_index();
        &self.frames[i]
    }

    /// Whether the next frame's bounded wait will block: true exactly when
    /// the current slot is still in flight, so its frame-fence is
    /// unsignaled. This is where CPU and device rates are reconciled.
    pub fn must_wait(&self) -> (r: bool)
        requires
            self@.wf(),
        ensures
            r == self@.must_wait(),
    {
        let i = self.current_index();
        match self.frames[i].state {
            SlotState::Submitted => true,
            _ => false,
        }
    }

    /// Steps 2 and 3 of the per-frame protocol, decided from the outcome of
    /// the bounded wait on the current slot's frame-fence.
    ///
    /// On `Signaled` the device has finished whatever the slot last carried:
    /// the slot's fence and pool are reset (discarding previously recorded
    /// commands) and the slot enters `Recording`; the slot's command buffer
    /// handle is returned for the caller to record into. A timeout is a
    /// fatal synchronization failure (`SyncTimeout`, the device presumed
    /// hung or lost), never retried; a backend failure is reported as
    /// `BackendFailure`. On either failure the ring is left unchanged.
    pub fn begin_frame(&mut self, wait: WaitOutcome) -> (r: Result<u64, RenderError>)
        requires
            old(self)@.wf(),
            !(old(self)@.slots[old(self)@.current()].state is Recording),
        ensures
            final (self)@.wf(),
            wait is Signaled ==> r == Ok::<u64, RenderError>(
                old(self)@.slots[old(self)@.current()].buffer,
            ) && final (self)@ == old(self)@.begun(),
            wait is TimedOut ==> r == Err::<u64, RenderError>(RenderError::SyncTimeout)
                && final (self)@ == old(self)@,
            wait is DeviceFailure ==> r == Err::<u64, RenderError>(RenderError::BackendFailure)
                && final (self)@ == old(self)@,
    {
        match wait {
            WaitOutcome::Signaled => {
                let i = self.current_index();
                let mut slot = self.frames[i];
                let buffer = slot.buffer;
                slot.state = SlotState::Recording;
                self.frames.set(i, slot);
                proof {
                    assert(self@ =~= old(self)@.begun());
                }
                Ok(buffer)
            },
            WaitOutcome::TimedOut => Err(RenderError::SyncTimeout),
            WaitOutcome::DeviceFailure => Err(RenderError::BackendFailure),
        }
    }

    /// Steps 5 and 6 of the per-frame protocol: the recorded buffer was
    /// handed to the device, whose completion will signal the slot's
    /// frame-fence. The slot becomes `Submitted` and the counter advances,
    /// giving up to `ring size − 1` frames of CPU/device overlap before the
    /// next stall.
    pub fn end_frame(&mut self)
        requires
            old(self)@.wf(),
            old(self)@.slots[old(self)@.current()].state is Recording,
            old(self).frame_number < u64::MAX,
        ensures
            final (self)@.wf(),
            final (self)@ == old(self)@.submitted(),
    {
        let i = self.current_index();
        let mut slot = self.frames[i];
        slot.state = SlotState::Submitted;
        self.frames.set(i, slot);
        self.frame_number = self.frame_number + 1;
        proof {
            assert(self@ =~= old(self)@.submitted());
        }
    }

    /// The caller observed slot `slot`'s frame-fence signaled: the device
    /// finished that slot's work, and the slot is `Idle` again.
    pub fn note_completed(&mut self, slot: usize)
        requires
            old(self)@.wf(),
            0 <= slot < old(self)@.ring_size(),
            old(self)@.slots[slot as int].state is Submitted,
        ensures
            final (self)@.wf(),
            final (self)@ == old(self)@.completed(slot as int),
    {
        let mut s = self.frames[slot];
        s.state = SlotState::Idle;
        self.frames.set(slot, s);
        proof {
            assert(self@ =~= old(self)@.completed(slot as int));
        }
    }

    /// The order in which the ring's resources are torn down: strict
    /// reverse of acquisition. Slots were created first to last, and within
    /// a slot the pool (with its buffer), the acquire-signal, the
    /// render-signal, then the frame-fence; so the plan walks the slots
    /// last to first, and within each slot destroys the frame-fence, the
    /// render-signal, the acquire-signal, then the pool (which takes its
    /// buffer with it) — each resource exactly once. The plan does not
    /// depend on the slots' protocol states: teardown is preceded by a
    /// device-idle wait, after which every slot may be destroyed whether
    /// `Idle` or `Submitted`.
    pub fn teardown_plan(&self) -> (plan: Vec<DestroyStep>)
        ensures
            plan@.len() == 4 * self@.ring_size(),
            forall|i: int|
                0 <= i < plan@.len() ==> #[trigger] plan@[i] == spec_destroy_step(self@, i),
    {
        let plan = slot_destroy_steps(&self.frames);
        proof {
            assert forall|i: int| 0 <= i < plan@.len() implies #[trigger] plan@[i]
                == spec_destroy_step(self@, i) by {
                assert(plan@[i] == spec_destroy_step(
                    (RingView { slots: self.frames@, counter: 0 }),
                    i,
                ));
            }
        }
        plan
    }
}

/// The destroy steps for a batch of slots, last slot first and within a
/// slot in reverse creation order.
fn slot_destroy_steps(frames: &Vec<FrameData>) -> (plan: Vec<DestroyStep>)
    ensures
        plan@.len() == 4 * frames@.len(),
        forall|i: int|
            0 <= i < plan@.len() ==> #[trigger] plan@[i] == spec_destroy_step(
                (RingView { slots: frames@, counter: 0 }),
                i,
            ),
{
    let ghost v = RingView { slots: frames@, counter: 0 };
    let n = frames.len();
    let mut plan: Vec<DestroyStep> = Vec::new();
    let mut done: usize = 0;
    while done < n
        invariant
            done <= n,
            n == frames@.len(),
            v == (RingView { slots: frames@, counter: 0 }),
            plan@.len() == 4 * done,
            forall|i: int|
                0 <= i < plan@.len() ==> #[trigger] plan@[i] == spec_destroy_step(v, i),
        decreases n - done,
    {
        let s = n - 1 - done;
        let f = frames[s];
        plan.push(DestroyStep { slot: s, kind: ResourceKind::FrameFence, handle: f.render_fen });
        plan.push(DestroyStep { slot: s, kind: ResourceKind::RenderSignal, handle: f.render_sem });
        plan.push(
            DestroyStep { slot: s, kind: ResourceKind::AcquireSignal, handle: f.swapchain_sem },
        );
        plan.push(DestroyStep { slot: s, kind: ResourceKind::CommandPool, handle: f.pool });
        proof {
            assert forall|i: int| 0 <= i < plan@.len() implies #[trigger] plan@[i]
                == spec_destroy_step(v, i) by {
                if i >= 4 * done {
                    assert(i / 4 == done);
                }
            }
        }
        done = done + 1;
    }
    plan
}

/// The step at position `i` of a ring's teardown plan: the slots walked
/// last to first (slot `len − 1 − i/4`), and within a slot the reverse of
/// creation order — frame-fence, render-signal, acquire-signal, pool.
pub open spec fn spec_destroy_step(v: RingView, i: int) -> DestroyStep {
    let s = v.slots.len() - 1 - i / 4;
    let f = v.slots[s];
    if i % 4 == 0 {
        DestroyStep { slot: s as usize, kind: ResourceKind::FrameFence, handle: f.render_fen }
    } else if i % 4 == 1 {
        DestroyStep { slot: s as usize, kind: ResourceKind::RenderSignal, handle: f.render_sem }
    } else if i % 4 == 2 {
        DestroyStep { slot: s as usize, kind: ResourceKind::AcquireSignal, handle: f.swapchain_sem }
    } else {
        DestroyStep { slot: s as usize, kind: ResourceKind::CommandPool, handle: f.pool }
    }
}

/// Law: the ring's teardown destroys no resource twice — any two distinct
/// positions of the plan name distinct (slot, kind) pairs — and destroys
/// the slots in descending slot order, the reverse of their creation, each
/// slot's resources contiguously.
pub proof fn lemma_ring_teardown_no_double_free(v: RingView, i: int, j: int)
    requires
        v.ring_size() <= usize::MAX,
        0 <= i < 4 * v.ring_size(),
        0 <= j < 4 * v.ring_size(),
        i != j,
    ensures
        !(spec_destroy_step(v, i).slot == spec_destroy_step(v, j).slot && spec_destroy_step(v, i).kind
            == spec_destroy_step(v, j).kind),
        i < j ==> spec_destroy_step(v, i).slot >= spec_destroy_step(v, j).slot,
{
    assert(i == 4 * (i / 4) + i % 4);
    assert(j == 4 * (j / 4) + j % 4);
    assert(0 <= i / 4 < v.ring_size());
    assert(0 <= j / 4 < v.ring_size());
    assert(spec_destroy_step(v, i).slot == v.ring_size() - 1 - i / 4);
    assert(spec_destroy_step(v, j).slot == v.ring_size() - 1 - j / 4);
    assert(i / 4 != j / 4 || i % 4 != j % 4);
}

/// How far the creation of one slot's resources got before it failed.
/// Resources are acquired in the order pool (with its buffer),
/// acquire-signal, render-signal, frame-fence; `created` counts how many of
/// those four destroyable resources exist, and `data` holds their handles
/// (a buffer allocation failure leaves `created` at one: the buffer needs
/// no step of its own, its pool takes it along).
#[derive(Clone, Copy, Debug, PartialEq, Eq, Structural)]
pub struct PartialSlot {
    pub created: usize,
    pub data: FrameData,
}

/// The step that destroys the resource of creation rank `c` (0 pool,
/// 1 acquire-signal, 2 render-signal, 3 frame-fence) of the partial slot.
pub open spec fn spec_partial_step(slot: int, d: FrameData, c: int) -> DestroyStep {
    if c == 0 {
        DestroyStep { slot: slot as usize, kind: ResourceKind::CommandPool, handle: d.pool }
    } else if c == 1 {
        DestroyStep { slot: slot as usize, kind: ResourceKind::AcquireSignal, handle: d.swapchain_sem }
    } else if c == 2 {
        DestroyStep { slot: slot as usize, kind: ResourceKind::RenderSignal, handle: d.render_sem }
    } else {
        DestroyStep { slot: slot as usize, kind: ResourceKind::FrameFence, handle: d.render_fen }
    }
}

/// The release plan when slot creation fails partway through batch
/// construction: first whatever the failing slot already acquired, newest
/// first, then every fully created slot exactly as the ring's own teardown
/// orders them — strict reverse of acquisition on this early-error path
/// too, nothing twice. No device-idle wait is needed: nothing was
/// submitted yet.
pub fn creation_abort_plan(completed: &Vec<FrameData>, partial: &PartialSlot) -> (plan: Vec<
    DestroyStep,
>)
    requires
        partial.created <= 4,
    ensures
        plan@.len() == partial.created + 4 * completed@.len(),
        forall|i: int|
            0 <= i < partial.created ==> #[trigger] plan@[i] == spec_partial_step(
                completed@.len() as int,
                partial.data,
                partial.created - 1 - i,
            ),
        forall|i: int|
            partial.created <= i < plan@.len() ==> #[trigger] plan@[i] == spec_destroy_step(
                (RingView { slots: completed@, counter: 0 }),
                i - partial.created,
            ),
{
    let slot = completed.len();
    let d = partial.data;
    let mut plan: Vec<DestroyStep> = Vec::new();
    if partial.created >= 4 {
        plan.push(DestroyStep { slot, kind: ResourceKind::FrameFence, handle: d.render_fen });
    }
    if partial.created >= 3 {
        plan.push(DestroyStep { slot, kind: ResourceKind::RenderSignal, handle: d.render_sem });
    }
    if partial.created >= 2 {
        plan.push(DestroyStep { slot, kind: ResourceKind::AcquireSignal, handle: d.swapchain_sem });
    }
    if partial.created >= 1 {
        plan.push(DestroyStep { slot, kind: ResourceKind::CommandPool, handle: d.pool });
    }
    let mut rest = slot_destroy_steps(completed);
    plan.append(&mut rest);
    plan
}

/// Law: ring backpressure. From a fresh ring of any size, submitting one
/// frame per cycle with none completed by the device leaves the first `n`
/// slots in flight after `n` cycles. While `n` is below the ring size the
/// next frame's wait finds an `Idle` slot and never stalls; at exactly
/// `ring size` cycles every slot is in flight and the next frame's wait
/// blocks on an unsignaled frame-fence — until the device completes the
/// current slot's work, after which the wait can succeed again.
pub proof fn lemma_ring_backpressure(v: RingView, n: nat)
    requires
        v.wf(),
        v.fresh(),
        n <= v.ring_size(),
    ensures
        v.cycled_n(n).wf(),
        v.cycled_n(n).counter == n,
        v.cycled_n(n).ring_size() == v.ring_size(),
        forall|i: int| 0 <= i < n ==> (#[trigger] v.cycled_n(n).slots[i]).state is Submitted,
        forall|i: int|
            n <= i < v.ring_size() ==> (#[trigger] v.cycled_n(n).slots[i]).state is Idle,
        n < v.ring_size() ==> !v.cycled_n(n).must_wait(),
        n == v.ring_size() ==> v.cycled_n(n).all_in_flight() && v.cycled_n(n).must_wait(),
        n == v.ring_size() ==> !v.cycled_n(n).completed(v.cycled_n(n).current()).must_wait(),
    decreases n,
{
    if n == 0 {
    } else {
        let prev = v.cycled_n((n - 1) as nat);
        lemma_ring_backpressure(v, (n - 1) as nat);
        vstd::arithmetic::div_mod::lemma_small_mod((n - 1) as nat, v.ring_size() as nat);
        assert(prev.current() == n - 1);
        assert(v.cycled_n(n) =~= prev.cycled());
        if n < v.ring_size() {
            vstd::arithmetic::div_mod::lemma_small_mod(n, v.ring_size() as nat);
        }
    }
}

} // verus!

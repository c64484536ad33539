use renderer::ring::{
    creation_abort_plan, DestroyStep, FrameData, FrameRing, PartialSlot, ResourceKind, RingConfig,
    SlotState, WaitOutcome,
};
use renderer::RenderError;

fn two_slot_ring() -> FrameRing {
    FrameRing::new(vec![
        FrameData::new(10, 11, 12, 13, 14),
        FrameData::new(20, 21, 22, 23, 24),
    ])
}

#[test]
fn the_default_configuration_keeps_two_frames_in_flight() {
    assert_eq!(RingConfig::default(), RingConfig { ring_size: 2 });
}

#[test]
fn a_fresh_ring_never_stalls() {
    let ring = two_slot_ring();
    assert_eq!(ring.frame_number, 0);
    assert_eq!(ring.current_index(), 0);
    assert!(!ring.must_wait());
    assert!(matches!(ring.frames[0].state, SlotState::Idle));
    assert!(matches!(ring.frames[1].state, SlotState::Idle));
}

#[test]
fn begin_frame_hands_out_the_current_slots_buffer() {
    let mut ring = two_slot_ring();
    assert_eq!(ring.begin_frame(WaitOutcome::Signaled), Ok(11));
    assert!(matches!(ring.frames[0].state, SlotState::Recording));
    ring.end_frame();
    assert_eq!(ring.current_index(), 1);
    assert_eq!(ring.begin_frame(WaitOutcome::Signaled), Ok(21));
}

#[test]
fn slots_follow_the_per_frame_protocol() {
    let mut ring = two_slot_ring();
    assert!(matches!(ring.frames[0].state, SlotState::Idle));
    ring.begin_frame(WaitOutcome::Signaled).unwrap();
    assert!(matches!(ring.frames[0].state, SlotState::Recording));
    ring.end_frame();
    assert!(matches!(ring.frames[0].state, SlotState::Submitted));
    assert_eq!(ring.frame_number, 1);
    ring.note_completed(0);
    assert!(matches!(ring.frames[0].state, SlotState::Idle));
}

#[test]
fn backpressure_blocks_after_ring_size_frames_until_one_completes() {
    let mut ring = two_slot_ring();

    // Two frames submitted, none completed on the device side: no stall yet.
    assert!(!ring.must_wait());
    ring.begin_frame(WaitOutcome::Signaled).unwrap();
    ring.end_frame();
    assert!(!ring.must_wait());
    ring.begin_frame(WaitOutcome::Signaled).unwrap();
    ring.end_frame();

    // The ring has wrapped to slot 0, still in flight: the wait step blocks
    // on its unsignaled frame-fence.
    assert_eq!(ring.current_index(), 0);
    assert!(ring.must_wait());

    // The device completes slot 0's work; the wait can now succeed.
    ring.note_completed(0);
    assert!(!ring.must_wait());
    assert_eq!(ring.begin_frame(WaitOutcome::Signaled), Ok(11));
}

#[test]
fn a_timed_out_wait_is_a_fatal_sync_failure() {
    let mut ring = two_slot_ring();
    assert_eq!(ring.begin_frame(WaitOutcome::TimedOut), Err(RenderError::SyncTimeout));
    // The ring is left unchanged: the failure is fatal, not retried.
    assert!(matches!(ring.frames[0].state, SlotState::Idle));
    assert_eq!(ring.frame_number, 0);
}

#[test]
fn a_backend_failure_during_the_wait_is_reported_as_such() {
    let mut ring = two_slot_ring();
    assert_eq!(ring.begin_frame(WaitOutcome::DeviceFailure), Err(RenderError::BackendFailure));
    assert!(matches!(ring.frames[0].state, SlotState::Idle));
}

#[test]
fn teardown_destroys_each_resource_exactly_once_in_reverse_creation_order() {
    // Acquisition was slots first to last, each slot pool (with its
    // buffer), acquire-signal, render-signal, frame-fence; the plan is the
    // strict reverse.
    let ring = two_slot_ring();
    let plan = ring.teardown_plan();
    let expected = vec![
        DestroyStep { slot: 1, kind: ResourceKind::FrameFence, handle: 24 },
        DestroyStep { slot: 1, kind: ResourceKind::RenderSignal, handle: 23 },
        DestroyStep { slot: 1, kind: ResourceKind::AcquireSignal, handle: 22 },
        DestroyStep { slot: 1, kind: ResourceKind::CommandPool, handle: 20 },
        DestroyStep { slot: 0, kind: ResourceKind::FrameFence, handle: 14 },
        DestroyStep { slot: 0, kind: ResourceKind::RenderSignal, handle: 13 },
        DestroyStep { slot: 0, kind: ResourceKind::AcquireSignal, handle: 12 },
        DestroyStep { slot: 0, kind: ResourceKind::CommandPool, handle: 10 },
    ];
    assert_eq!(plan, expected);
    for i in 0..plan.len() {
        for j in 0..plan.len() {
            if i != j {
                assert!(!(plan[i].slot == plan[j].slot && plan[i].kind == plan[j].kind));
            }
            if i < j {
                assert!(plan[i].slot >= plan[j].slot);
            }
        }
    }
}

#[test]
fn a_failed_slot_creation_is_released_in_reverse_too() {
    // One slot was fully created; the second got its pool and its
    // acquire-signal before the render-signal was refused. The abort plan
    // releases the partial slot newest-first, then the completed slot as
    // ordinary teardown would.
    let completed = vec![FrameData::new(10, 11, 12, 13, 14)];
    let partial = PartialSlot {
        created: 2,
        data: FrameData {
            state: SlotState::Idle,
            pool: 30,
            buffer: 31,
            swapchain_sem: 32,
            render_sem: 0,
            render_fen: 0,
        },
    };
    let plan = creation_abort_plan(&completed, &partial);
    assert_eq!(plan, vec![
        DestroyStep { slot: 1, kind: ResourceKind::AcquireSignal, handle: 32 },
        DestroyStep { slot: 1, kind: ResourceKind::CommandPool, handle: 30 },
        DestroyStep { slot: 0, kind: ResourceKind::FrameFence, handle: 14 },
        DestroyStep { slot: 0, kind: ResourceKind::RenderSignal, handle: 13 },
        DestroyStep { slot: 0, kind: ResourceKind::AcquireSignal, handle: 12 },
        DestroyStep { slot: 0, kind: ResourceKind::CommandPool, handle: 10 },
    ]);
}

#[test]
fn a_failure_on_the_very_first_resource_releases_nothing() {
    let completed: Vec<FrameData> = Vec::new();
    let partial = PartialSlot { created: 0, data: FrameData::default() };
    assert_eq!(creation_abort_plan(&completed, &partial), Vec::new());
}

#[test]
fn teardown_is_the_same_whether_slots_are_idle_or_submitted() {
    // After the device-idle wait every slot may be destroyed regardless of
    // where its protocol stood; the plan must not depend on slot states.
    let idle_ring = two_slot_ring();
    let idle_plan = idle_ring.teardown_plan();

    let mut busy_ring = two_slot_ring();
    busy_ring.begin_frame(WaitOutcome::Signaled).unwrap();
    busy_ring.end_frame();
    assert!(matches!(busy_ring.frames[0].state, SlotState::Submitted));
    let busy_plan = busy_ring.teardown_plan();

    assert_eq!(idle_plan, busy_plan);
}

#[test]
fn a_single_slot_ring_stalls_after_every_frame() {
    let mut ring = FrameRing::new(vec![FrameData::new(1, 2, 3, 4, 5)]);
    assert!(!ring.must_wait());
    ring.begin_frame(WaitOutcome::Signaled).unwrap();
    ring.end_frame();
    assert!(ring.must_wait());
    ring.note_completed(0);
    assert!(!ring.must_wait());
}

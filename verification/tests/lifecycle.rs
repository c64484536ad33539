use renderer::lifecycle::{LifecycleChain, Stage, TeardownStep};

fn chain_of(stages: &[Stage]) -> LifecycleChain {
    let mut c = LifecycleChain::new();
    for s in stages {
        c.on_constructed(*s);
    }
    c
}

#[test]
fn the_full_chain_tears_down_in_reverse_after_a_device_idle_wait() {
    let c = chain_of(&[
        Stage::BackendContext,
        Stage::PresentationTarget,
        Stage::ExecutionContext,
        Stage::FrameRing,
    ]);
    let plan = c.teardown_plan();
    assert_eq!(plan, vec![
        TeardownStep::WaitIdle,
        TeardownStep::Release(Stage::FrameRing),
        TeardownStep::Release(Stage::ExecutionContext),
        TeardownStep::Release(Stage::PresentationTarget),
        TeardownStep::Release(Stage::BackendContext),
    ]);
}

#[test]
fn an_untouched_chain_releases_nothing() {
    let c = LifecycleChain::new();
    assert_eq!(c.teardown_plan(), Vec::new());
}

#[test]
fn failure_after_the_backend_context_releases_only_it() {
    let c = chain_of(&[Stage::BackendContext]);
    assert_eq!(c.teardown_plan(), vec![TeardownStep::Release(Stage::BackendContext)]);
}

#[test]
fn failure_during_selection_releases_target_then_backend() {
    // Selection owns nothing: a failure there leaves exactly the backend
    // context and the presentation target to release, newest first.
    let c = chain_of(&[Stage::BackendContext, Stage::PresentationTarget]);
    assert_eq!(c.teardown_plan(), vec![
        TeardownStep::Release(Stage::PresentationTarget),
        TeardownStep::Release(Stage::BackendContext),
    ]);
}

#[test]
fn failure_during_ring_construction_skips_the_idle_wait() {
    let c = chain_of(&[
        Stage::BackendContext,
        Stage::PresentationTarget,
        Stage::ExecutionContext,
    ]);
    let plan = c.teardown_plan();
    assert_eq!(plan, vec![
        TeardownStep::Release(Stage::ExecutionContext),
        TeardownStep::Release(Stage::PresentationTarget),
        TeardownStep::Release(Stage::BackendContext),
    ]);
    assert!(!plan.contains(&TeardownStep::WaitIdle));
}

#[test]
fn no_stage_is_released_twice_on_any_path() {
    let stages = [
        Stage::BackendContext,
        Stage::PresentationTarget,
        Stage::ExecutionContext,
        Stage::FrameRing,
    ];
    for k in 0..=stages.len() {
        let c = chain_of(&stages[..k]);
        let plan = c.teardown_plan();
        for i in 0..plan.len() {
            for j in 0..plan.len() {
                if i != j {
                    assert_ne!(plan[i], plan[j]);
                }
            }
        }
    }
}

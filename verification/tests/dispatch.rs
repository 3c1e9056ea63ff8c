use graphical_engine::dispatch::{ComputeDispatch, DispatchPhase};

#[test]
fn dispatch_walks_the_phases_in_order() {
    let mut dispatch = ComputeDispatch::record();
    assert_eq!(dispatch.phase, DispatchPhase::Recorded);

    dispatch.submit();
    assert_eq!(dispatch.phase, DispatchPhase::Submitted);

    dispatch.fence_signaled();
    assert_eq!(dispatch.phase, DispatchPhase::FenceSignaled);

    dispatch.complete();
    assert_eq!(dispatch.phase, DispatchPhase::Completed);
}

#[test]
fn dispatch_completes_only_after_the_fence_signals() {
    // The transition contracts only admit completion from the
    // fence-signaled phase; this runs the one legal path to completion.
    let mut dispatch = ComputeDispatch::record();
    dispatch.submit();
    assert_ne!(dispatch.phase, DispatchPhase::Completed);
    dispatch.fence_signaled();
    dispatch.complete();
    assert_eq!(dispatch.phase, DispatchPhase::Completed);
}

use graphene::frame_sync::{
    handle_loop_event, AcquireInfo, FrameSync, LoopAction, LoopEvent, PresentInfo, SemaphoreId,
    SubmitInfo, SyncError,
};

/// Runs one full frame on `fs`, waiting on the fence first when `wait`
/// says so, and returns what the frame's steps handed out.
fn run_frame(fs: &mut FrameSync, wait: bool, image_index: u32) -> (AcquireInfo, SubmitInfo, PresentInfo) {
    if wait {
        fs.fence_wait_completed().expect("fence wait step refused");
    }
    let acquire = fs.begin_frame().expect("begin_frame refused");
    fs.image_acquired(image_index).expect("image_acquired refused");
    let submit = fs.end_frame().expect("end_frame refused");
    let present = fs.frame_submitted().expect("frame_submitted refused");
    fs.frame_presented().expect("frame_presented refused");
    (acquire, submit, present)
}

#[test]
fn zero_slots_is_refused() {
    let r = FrameSync::new(0);
    assert_eq!(r.err(), Some(SyncError::ZeroSlots));
}

#[test]
fn one_slot_synchronizer_works() {
    let mut fs = FrameSync::new(1).unwrap();
    assert_eq!(fs.current_slot(), 0);
    let (acquire, _, _) = run_frame(&mut fs, false, 0);
    assert_eq!(acquire.slot, 0);
    // One slot: the very next frame reuses slot 0 and must wait first.
    assert_eq!(fs.current_slot(), 0);
    assert_eq!(fs.begin_frame().err(), Some(SyncError::FenceNotSignaled));
    let (acquire, _, _) = run_frame(&mut fs, true, 0);
    assert_eq!(acquire.slot, 0);
}

#[test]
fn frames_map_to_slots_mod_n() {
    // Frames 0,1,2,3 on two slots use slots 0,1,0,1.
    let mut fs = FrameSync::new(2).unwrap();
    let mut seen = Vec::new();
    for frame in 0u32..4 {
        seen.push(fs.current_slot());
        // The first two frames ride on the initially signaled fences.
        let wait = frame >= 2;
        run_frame(&mut fs, wait, frame % 3);
    }
    assert_eq!(seen, vec![0, 1, 0, 1]);
}

#[test]
fn third_frame_blocks_until_first_frames_fence_signals() {
    // Two slots: frames 0 and 1 run on the initially signaled fences;
    // frame 2 reuses slot 0 and is refused until the wait on slot 0's
    // fence is reported complete.
    let mut fs = FrameSync::new(2).unwrap();
    run_frame(&mut fs, false, 0);
    run_frame(&mut fs, false, 1);
    assert_eq!(fs.current_slot(), 0);
    assert_eq!(fs.begin_frame().err(), Some(SyncError::FenceNotSignaled));
    fs.fence_wait_completed().expect("fence wait step refused");
    let acquire = fs.begin_frame().expect("begin_frame refused after the wait");
    assert_eq!(acquire.slot, 0);
}

#[test]
fn frame_steps_hand_out_the_slots_own_objects() {
    let mut fs = FrameSync::new(2).unwrap();
    run_frame(&mut fs, false, 0);
    // Second frame: slot 1 throughout, image index 7.
    let (acquire, submit, present) = run_frame(&mut fs, false, 7);
    assert_eq!(acquire.slot, 1);
    assert_eq!(
        acquire.signal_semaphore,
        SemaphoreId::ImageAvailable { slot: 1 }
    );
    assert_eq!(submit.slot, 1);
    assert_eq!(submit.command_buffer, 1);
    assert_eq!(submit.fence, 1);
    assert_eq!(submit.image_index, 7);
    assert_eq!(submit.wait_semaphore, SemaphoreId::ImageAvailable { slot: 1 });
    assert_eq!(
        submit.signal_semaphore,
        SemaphoreId::RenderFinished { slot: 1 }
    );
    assert_eq!(present.slot, 1);
    assert_eq!(present.image_index, 7);
    assert_eq!(
        present.wait_semaphore,
        SemaphoreId::RenderFinished { slot: 1 }
    );
}

#[test]
fn out_of_order_steps_are_refused_and_change_nothing() {
    let mut fs = FrameSync::new(2).unwrap();
    assert_eq!(fs.image_acquired(0).err(), Some(SyncError::NotAcquiring));
    assert_eq!(fs.end_frame().err(), Some(SyncError::NotRecording));
    assert_eq!(fs.frame_submitted().err(), Some(SyncError::NotSubmitted));
    assert_eq!(fs.frame_presented().err(), Some(SyncError::NotPresenting));
    // The refusals left the synchronizer usable.
    let acquire = fs.begin_frame().expect("begin_frame refused");
    assert_eq!(acquire.slot, 0);
    // Mid-frame, a second begin_frame is refused.
    assert_eq!(fs.begin_frame().err(), Some(SyncError::SlotNotIdle));
    assert_eq!(fs.fence_wait_completed().err(), Some(SyncError::SlotNotIdle));
}

#[test]
fn loop_events_map_to_their_actions() {
    assert_eq!(
        handle_loop_event(&LoopEvent::CloseRequested),
        LoopAction::Exit
    );
    assert_eq!(
        handle_loop_event(&LoopEvent::KeyboardInput { escape: true, pressed: true }),
        LoopAction::Exit
    );
    assert_eq!(
        handle_loop_event(&LoopEvent::KeyboardInput { escape: true, pressed: false }),
        LoopAction::Ignore
    );
    assert_eq!(
        handle_loop_event(&LoopEvent::KeyboardInput { escape: false, pressed: true }),
        LoopAction::Ignore
    );
    assert_eq!(
        handle_loop_event(&LoopEvent::EventsCleared),
        LoopAction::RequestRedraw
    );
    assert_eq!(
        handle_loop_event(&LoopEvent::RedrawRequested),
        LoopAction::DrawFrame
    );
    assert_eq!(handle_loop_event(&LoopEvent::Destroyed), LoopAction::WaitIdle);
    assert_eq!(handle_loop_event(&LoopEvent::Other), LoopAction::Ignore);
}

use dx12_rs::frame::{BackBufferData, FramePhase, FrameSync, FRAME_COUNT};

#[test]
fn fresh_back_buffer_has_no_work_in_flight() {
    let bb = BackBufferData::new();
    assert_eq!(bb.fence_value, 0);
}

#[test]
fn new_sync_state_starts_unsynced_at_given_index() {
    let fs = FrameSync::new(1);
    assert_eq!(fs.frame_index, 1);
    assert_eq!(fs.backbuffers.len(), FRAME_COUNT);
    assert_eq!(fs.backbuffers[0].fence_value, 0);
    assert_eq!(fs.backbuffers[1].fence_value, 0);
    assert_eq!(fs.phase, FramePhase::NeedsSync);
}

#[test]
fn first_frame_needs_no_wait() {
    let mut fs = FrameSync::new(0);
    assert_eq!(fs.begin_frame(0), None);
    assert_eq!(fs.phase, FramePhase::Synced);
}

#[test]
fn two_frames_then_reuse_waits_for_the_pending_value() {
    let mut fs = FrameSync::new(0);

    // Frame on buffer 0: fence completed value is still 0, nothing pending.
    assert_eq!(fs.begin_frame(0), None);
    let s1 = fs.finish_frame(1);
    assert_eq!(s1, 0, "the newly current buffer 1 has nothing pending yet");
    assert_eq!(fs.backbuffers[0].fence_value, 1);
    assert_eq!(fs.frame_index, 1);

    // Frame on buffer 1: its pending value is 0, the fence is already there.
    assert_eq!(fs.begin_frame(0), None);
    let s2 = fs.finish_frame(0);
    assert_eq!(s2, 1, "buffer 0 is current again and has value 1 pending");
    assert_eq!(fs.backbuffers[1].fence_value, 1);

    // Reusing buffer 0 before the fence reached 1 means blocking until 1.
    assert_eq!(fs.begin_frame(0), Some(1));
    assert_eq!(fs.phase, FramePhase::NeedsSync);
    fs.wait_complete();
    assert_eq!(fs.phase, FramePhase::Synced);
    let s3 = fs.finish_frame(1);
    assert_eq!(s3, 1);
    assert_eq!(fs.backbuffers[0].fence_value, 2);
}

#[test]
fn completed_fence_lets_the_frame_proceed() {
    let mut fs = FrameSync::new(0);
    assert_eq!(fs.begin_frame(0), None);
    fs.finish_frame(0);
    // Same buffer current again; value 1 pending, fence already reports 1.
    assert_eq!(fs.begin_frame(1), None);
    assert_eq!(fs.phase, FramePhase::Synced);
}

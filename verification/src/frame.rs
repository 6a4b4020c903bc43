//! The per-frame GPU/CPU handoff: back-buffer rotation, fence values, and
//! when a back buffer's command allocator may be reused.

use vstd::prelude::*;

verus! {

/// Number of swapchain back buffers the render loop rotates through.
pub const FRAME_COUNT: usize = 2;

/// Bookkeeping for one back buffer. The GPU work submitted for this buffer
/// is tagged with `fence_value`; the command allocator and command list that
/// go with the buffer are graphics-API objects and live with the caller.
pub struct BackBufferData {
    /// Fence value that tags the most recent submission using this back buffer.
    pub fence_value: u64,
}

impl BackBufferData {
    /// A freshly created back buffer has no work in flight: its fence value is zero.
    pub fn new() -> (r: Self)
        ensures
            r.fence_value == 0,
    {
        BackBufferData { fence_value: 0 }
    }
}

/// Where the synchronization sequence stands for the current back buffer.
#[derive(PartialEq, Eq, Structural, Clone, Copy, Debug)]
pub enum FramePhase {
    /// GPU completion of the work tagged with the current back buffer's fence
    /// value is not yet confirmed: the buffer's command allocator and command
    /// list may not be reused.
    NeedsSync,
    /// Completion is confirmed: the allocator may be reset, the command list
    /// re-recorded and submitted.
    Synced,
}

/// The CPU side of the double-buffered GPU/CPU handoff: which back buffer is
/// current, the fence value pending on each buffer, and whether completion of
/// the current buffer's work has been confirmed.
///
/// The caller polls the fence, blocks on an event when told to, submits, and
/// presents; this type decides when to wait, for which value, which fence
/// value to signal after a submission, and refuses reuse of a back buffer
/// before its completion is confirmed.
pub struct FrameSync {
    pub frame_index: usize,
    pub backbuffers: Vec<BackBufferData>,
    pub phase: FramePhase,
}

impl FrameSync {
    /// One entry per swapchain buffer, and a current index inside the range.
    pub open spec fn wf(self) -> bool {
        &&& self.backbuffers.len() == FRAME_COUNT
        &&& self.frame_index < FRAME_COUNT
    }

    /// The fence value pending on back buffer `i`.
    pub open spec fn fence_value_at(self, i: int) -> u64 {
        self.backbuffers@[i].fence_value
    }

    /// The fence value pending on the current back buffer.
    pub open spec fn current_fence_value(self) -> u64 {
        self.fence_value_at(self.frame_index as int)
    }

    /// Start with no work in flight on either buffer; the swapchain says
    /// which back buffer is current first.
    pub fn new(initial_frame_index: usize) -> (r: Self)
        requires
            initial_frame_index < FRAME_COUNT,
        ensures
            r.wf(),
            r.frame_index == initial_frame_index,
            r.phase == FramePhase::NeedsSync,
            forall|i: int| 0 <= i < FRAME_COUNT ==> r.fence_value_at(i) == 0,
    {
        let mut backbuffers: Vec<BackBufferData> = Vec::new();
        backbuffers.push(BackBufferData::new());
        backbuffers.push(BackBufferData::new());
        FrameSync { frame_index: initial_frame_index, backbuffers, phase: FramePhase::NeedsSync }
    }

    /// The wait decision at the top of a frame: given the fence's completed
    /// value, the caller must block until the fence reaches the returned
    /// value, or may proceed at once when `None` comes back.
    pub fn begin_frame(&mut self, completed_value: u64) -> (wait_for: Option<u64>)
        requires
            old(self).wf(),
            old(self).phase == FramePhase::NeedsSync,
        ensures
            final(self).wf(),
            final(self).frame_index == old(self).frame_index,
            final(self).backbuffers == old(self).backbuffers,
            wait_for == (if completed_value < old(self).current_fence_value() {
                Some(old(self).current_fence_value())
            } else {
                None::<u64>
            }),
            final(self).phase == (if completed_value < old(self).current_fence_value() {
                FramePhase::NeedsSync
            } else {
                FramePhase::Synced
            }),
    {
        let cur: u64 = self.backbuffers[self.frame_index].fence_value;
        if completed_value < cur {
            Some(cur)
        } else {
            self.phase = FramePhase::Synced;
            None
        }
    }

    /// The blocking wait returned: the fence has reached the current back
    /// buffer's value, so its allocator and list may be reused.
    pub fn wait_complete(&mut self)
        requires
            old(self).wf(),
            old(self).phase == FramePhase::NeedsSync,
        ensures
            final(self).wf(),
            final(self).frame_index == old(self).frame_index,
            final(self).backbuffers == old(self).backbuffers,
            final(self).phase == FramePhase::Synced,
    {
        self.phase = FramePhase::Synced;
    }

    /// After the command list is closed, executed and the frame presented:
    /// the submitted buffer's pending fence value goes up by one, the
    /// swapchain's new back-buffer index becomes current, and the caller
    /// signals the queue with the returned value — the one pending on the
    /// newly current buffer.
    pub fn finish_frame(&mut self, next_frame_index: usize) -> (signal_value: u64)
        requires
            old(self).wf(),
            old(self).phase == FramePhase::Synced,
            next_frame_index < FRAME_COUNT,
            old(self).current_fence_value() < u64::MAX,
        ensures
            final(self).wf(),
            final(self).phase == FramePhase::NeedsSync,
            final(self).frame_index == next_frame_index,
            final(self).fence_value_at(old(self).frame_index as int)
                == old(self).current_fence_value() + 1,
            forall|i: int|
                0 <= i < FRAME_COUNT && i != old(self).frame_index as int
                    ==> final(self).fence_value_at(i) == old(self).fence_value_at(i),
            signal_value == final(self).current_fence_value(),
    {
        let idx: usize = self.frame_index;
        let bb = &mut self.backbuffers[idx];
        bb.fence_value = bb.fence_value + 1;
        self.frame_index = next_frame_index;
        self.phase = FramePhase::NeedsSync;
        self.backbuffers[next_frame_index].fence_value
    }
}

} // verus!

//! The application's own view of the renderer state: one record per back
//! buffer and the index of the buffer being rendered to.

use vstd::prelude::*;

verus! {

/// Per-back-buffer record: the fence value tagging its last submission and
/// the index of its render-target view in the descriptor heap.
pub struct BackBufferData {
    pub fence_value: u64,
    pub backbuffer_rtv: u32,
}

/// Application state for the double-buffered loop. The fence and its OS wait
/// event are graphics-API objects and live with the caller.
pub struct App {
    pub frame_index: u32,
    pub backbuffer_data: [BackBufferData; 2],
}

impl App {
    /// The current frame index names one of the two back-buffer records.
    pub open spec fn wf(self) -> bool {
        self.frame_index < 2
    }
}

} // verus!

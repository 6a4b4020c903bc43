//! The event pump's control rule: what one delivered event does to the
//! quit flag and to the pump's control flow.

use vstd::prelude::*;

verus! {

/// The events the render loop reacts to; everything else is `Other`.
#[derive(PartialEq, Eq, Structural, Clone, Copy, Debug)]
pub enum LoopEvent {
    /// The window was asked to close.
    CloseRequested,
    /// The queued events of this pump run have all been handled.
    MainEventsCleared,
    Other,
}

/// What the pump does next: keep blocking on events, or return to the caller
/// so the frame can be rendered.
#[derive(PartialEq, Eq, Structural, Clone, Copy, Debug)]
pub enum LoopControl {
    Wait,
    Exit,
}

/// One event's effect on the pump: a close request sets the quit flag, which
/// once set is never cleared; the pump returns to the render loop exactly
/// when the queued events are cleared, and blocks otherwise.
pub fn pump_step(event: LoopEvent, quit: bool) -> (r: (bool, LoopControl))
    ensures
        r.0 == (quit || event == LoopEvent::CloseRequested),
        r.1 == (if event == LoopEvent::MainEventsCleared {
            LoopControl::Exit
        } else {
            LoopControl::Wait
        }),
{
    let new_quit = match event {
        LoopEvent::CloseRequested => true,
        _ => quit,
    };
    let control = match event {
        LoopEvent::MainEventsCleared => LoopControl::Exit,
        _ => LoopControl::Wait,
    };
    (new_quit, control)
}

} // verus!

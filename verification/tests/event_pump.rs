use dx12_rs::events::{pump_step, LoopControl, LoopEvent};

#[test]
fn close_request_sets_quit_and_keeps_waiting() {
    assert_eq!(pump_step(LoopEvent::CloseRequested, false), (true, LoopControl::Wait));
}

#[test]
fn events_cleared_returns_to_the_render_loop() {
    assert_eq!(pump_step(LoopEvent::MainEventsCleared, false), (false, LoopControl::Exit));
}

#[test]
fn other_events_change_nothing() {
    assert_eq!(pump_step(LoopEvent::Other, false), (false, LoopControl::Wait));
}

#[test]
fn quit_once_set_is_kept() {
    assert_eq!(pump_step(LoopEvent::Other, true), (true, LoopControl::Wait));
    assert_eq!(pump_step(LoopEvent::MainEventsCleared, true), (true, LoopControl::Exit));
    assert_eq!(pump_step(LoopEvent::CloseRequested, true), (true, LoopControl::Wait));
}

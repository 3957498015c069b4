//! One step of the control loop: what to do with an event of the platform.

use vstd::prelude::*;
use crate::input::applied;
use crate::input::InputAggregator;
use crate::input::KeyEvent;

verus! {

/// An event of the platform, reduced to what the control loop acts on.
#[derive(Clone, Copy, PartialEq, Eq, Structural, Debug)]
pub enum ControlEvent {
    /// The window was asked to close.
    CloseRequested,
    /// A control went down or up.
    Key(KeyEvent),
    /// Anything else.
    Other,
}

/// What the control loop does after an event.
#[derive(Clone, Copy, PartialEq, Eq, Structural, Debug)]
pub enum Flow {
    /// Wait for the next event.
    Wait,
    /// Stop processing and leave.
    Exit,
}

/// The loop leaves when the fault flag was read as unhealthy or the window
/// was asked to close, and waits on otherwise. `health` is what the poll of
/// the flag gave, `None` where the flag could not be read.
pub open spec fn flow_after(health: Option<bool>, event: ControlEvent) -> Flow {
    if health == Some(false) || event == ControlEvent::CloseRequested {
        Flow::Exit
    } else {
        Flow::Wait
    }
}

/// The held controls after the event: changed by a key event, else as they
/// were.
pub open spec fn held_after_event(held: Seq<u32>, event: ControlEvent) -> Seq<u32> {
    match event {
        ControlEvent::Key(key) => applied(held, key),
        _ => held,
    }
}

/// Decides how the loop goes on after `event`, without touching the held
/// controls.
pub fn control_flow(health: Option<bool>, event: ControlEvent) -> (flow: Flow)
    ensures
        flow == flow_after(health, event),
{
    let unhealthy: bool = match health {
        Some(healthy) => !healthy,
        None => false,
    };
    let closing: bool = match event {
        ControlEvent::CloseRequested => true,
        _ => false,
    };
    if unhealthy || closing {
        Flow::Exit
    } else {
        Flow::Wait
    }
}

/// One step of the control loop: records a key event in `keys` and decides
/// how the loop goes on.
pub fn control_step(health: Option<bool>, event: ControlEvent, keys: &mut InputAggregator) -> (flow:
    Flow)
    ensures
        flow == flow_after(health, event),
        final(keys)@ == held_after_event(old(keys)@, event),
{
    match event {
        ControlEvent::Key(key) => keys.apply(key),
        _ => {},
    }
    control_flow(health, event)
}

} // verus!

//! The render loop's decisions: its phases, what the held controls ask of
//! the camera in one frame, and the limit on the camera's pitch.

use vstd::prelude::*;
use crate::scalar::Scalar;

verus! {

/// Where the render loop stands.
#[derive(Clone, Copy, PartialEq, Eq, Structural, Debug)]
pub enum RenderPhase {
    /// Setting up its resources and the camera, once.
    Initializing,
    /// Drawing frame after frame.
    Running,
    /// Ended by a failure, for good.
    Terminated,
}

/// What happened to the render loop.
#[derive(Clone, Copy, PartialEq, Eq, Structural, Debug)]
pub enum RenderEvent {
    /// The one-time setup is complete.
    SetupDone,
    /// A frame was presented.
    FramePresented,
    /// Something failed beyond repair.
    Failure,
}

/// The phase after `event`. Setup leads to running, frames keep it running,
/// a failure ends it, and nothing leads out of the end.
pub open spec fn phase_after(phase: RenderPhase, event: RenderEvent) -> RenderPhase {
    match (phase, event) {
        (RenderPhase::Terminated, _) => RenderPhase::Terminated,
        (_, RenderEvent::Failure) => RenderPhase::Terminated,
        (RenderPhase::Initializing, RenderEvent::SetupDone) => RenderPhase::Running,
        (p, _) => p,
    }
}

/// The phase after each of `events`, in order.
pub open spec fn phase_after_all(phase: RenderPhase, events: Seq<RenderEvent>) -> RenderPhase
    decreases events.len(),
{
    if events.len() == 0 {
        phase
    } else {
        phase_after(phase_after_all(phase, events.drop_last()), events.last())
    }
}

/// A terminated loop stays terminated whatever happens.
pub proof fn lemma_terminated_is_final(events: Seq<RenderEvent>)
    ensures
        phase_after_all(RenderPhase::Terminated, events) == RenderPhase::Terminated,
    decreases events.len(),
{
    if events.len() > 0 {
        lemma_terminated_is_final(events.drop_last());
    }
}

impl RenderPhase {
    /// The phase after `event`.
    pub fn next(self, event: RenderEvent) -> (phase: RenderPhase)
        ensures
            phase == phase_after(self, event),
    {
        match self {
            RenderPhase::Terminated => RenderPhase::Terminated,
            RenderPhase::Initializing => match event {
                RenderEvent::Failure => RenderPhase::Terminated,
                RenderEvent::SetupDone => RenderPhase::Running,
                RenderEvent::FramePresented => RenderPhase::Initializing,
            },
            RenderPhase::Running => match event {
                RenderEvent::Failure => RenderPhase::Terminated,
                _ => RenderPhase::Running,
            },
        }
    }
}

/// The controls that move or turn the camera, named by their keys.
#[derive(Clone, Copy, PartialEq, Eq, Structural, Debug)]
pub enum Control {
    /// Moves against the camera's left vector.
    A,
    /// Moves along the camera's left vector.
    D,
    /// Moves along the camera's front vector.
    W,
    /// Moves against the camera's front vector.
    S,
    /// Moves along the camera's up vector.
    Space,
    /// Moves against the camera's up vector.
    LShift,
    /// Raises the yaw.
    Right,
    /// Lowers the yaw.
    Left,
    /// Lowers the pitch.
    Up,
    /// Raises the pitch.
    Down,
}

impl Control {
    /// The identifier under which the control is recorded as held.
    pub open spec fn spec_id(self) -> u32 {
        match self {
            Control::A => 0,
            Control::D => 1,
            Control::W => 2,
            Control::S => 3,
            Control::Space => 4,
            Control::LShift => 5,
            Control::Right => 6,
            Control::Left => 7,
            Control::Up => 8,
            Control::Down => 9,
        }
    }

    /// The control that an identifier stands for, if it stands for one.
    pub open spec fn spec_from_id(id: u32) -> Option<Control> {
        if id == 0 {
            Some(Control::A)
        } else if id == 1 {
            Some(Control::D)
        } else if id == 2 {
            Some(Control::W)
        } else if id == 3 {
            Some(Control::S)
        } else if id == 4 {
            Some(Control::Space)
        } else if id == 5 {
            Some(Control::LShift)
        } else if id == 6 {
            Some(Control::Right)
        } else if id == 7 {
            Some(Control::Left)
        } else if id == 8 {
            Some(Control::Up)
        } else if id == 9 {
            Some(Control::Down)
        } else {
            None
        }
    }

    /// Identifiers and controls correspond one to one.
    pub proof fn lemma_id_round_trip(self)
        ensures
            Control::spec_from_id(self.spec_id()) == Some(self),
            forall|id: u32|
                Control::spec_from_id(id) == Some(self) ==> id == self.spec_id(),
    {
    }

    /// The identifier under which the control is recorded as held.
    pub fn id(self) -> (id: u32)
        ensures
            id == self.spec_id(),
    {
        match self {
            Control::A => 0,
            Control::D => 1,
            Control::W => 2,
            Control::S => 3,
            Control::Space => 4,
            Control::LShift => 5,
            Control::Right => 6,
            Control::Left => 7,
            Control::Up => 8,
            Control::Down => 9,
        }
    }

    /// The control that an identifier stands for, if it stands for one.
    pub fn from_id(id: u32) -> (control: Option<Control>)
        ensures
            control == Control::spec_from_id(id),
    {
        if id == 0 {
            Some(Control::A)
        } else if id == 1 {
            Some(Control::D)
        } else if id == 2 {
            Some(Control::W)
        } else if id == 3 {
            Some(Control::S)
        } else if id == 4 {
            Some(Control::Space)
        } else if id == 5 {
            Some(Control::LShift)
        } else if id == 6 {
            Some(Control::Right)
        } else if id == 7 {
            Some(Control::Left)
        } else if id == 8 {
            Some(Control::Up)
        } else if id == 9 {
            Some(Control::Down)
        } else {
            None
        }
    }
}

/// What the held controls ask for in one frame: for each direction the
/// number of steps, each worth the frame's time multiplied by the speed.
#[derive(Clone, Copy, PartialEq, Eq, Structural, Debug)]
pub struct Intent {
    /// Steps along the camera's left vector.
    pub left: i8,
    /// Steps along the camera's up vector.
    pub up: i8,
    /// Steps along the camera's front vector.
    pub front: i8,
    /// Steps of yaw.
    pub yaw: i8,
    /// Steps of pitch.
    pub pitch: i8,
}

/// One where `control` is among `held`, zero where it is not.
pub open spec fn weight(held: Seq<u32>, control: Control) -> int {
    if held.contains(control.spec_id()) {
        1
    } else {
        0
    }
}

/// The steps that `held` asks for: each control adds or takes one step in its
/// direction, two opposed controls cancel, and other identifiers count for
/// nothing.
pub open spec fn intent_of(held: Seq<u32>) -> Intent {
    Intent {
        left: (weight(held, Control::D) - weight(held, Control::A)) as i8,
        up: (weight(held, Control::Space) - weight(held, Control::LShift)) as i8,
        front: (weight(held, Control::W) - weight(held, Control::S)) as i8,
        yaw: (weight(held, Control::Right) - weight(held, Control::Left)) as i8,
        pitch: (weight(held, Control::Down) - weight(held, Control::Up)) as i8,
    }
}

/// Whether `id` is among `held`.
fn holds(held: &Vec<u32>, id: u32) -> (b: bool)
    ensures
        b == held@.contains(id),
{
    let mut i: usize = 0;
    while i < held.len()
        invariant
            i <= held@.len(),
            forall|j: int| 0 <= j < i ==> held@[j] != id,
        decreases held@.len() - i,
    {
        if held[i] == id {
            return true;
        }
        i = i + 1;
    }
    false
}

/// The steps along one direction: `forward` adds one, `backward` takes one.
fn axis(held: &Vec<u32>, forward: Control, backward: Control) -> (steps: i8)
    ensures
        steps == weight(held@, forward) - weight(held@, backward),
{
    let mut steps: i8 = 0;
    if holds(held, forward.id()) {
        steps = steps + 1;
    }
    if holds(held, backward.id()) {
        steps = steps - 1;
    }
    steps
}

/// Works out what the held controls ask for in this frame.
pub fn frame_intent(held: &Vec<u32>) -> (intent: Intent)
    ensures
        intent == intent_of(held@),
        -1 <= intent.left <= 1,
        -1 <= intent.up <= 1,
        -1 <= intent.front <= 1,
        -1 <= intent.yaw <= 1,
        -1 <= intent.pitch <= 1,
{
    Intent {
        left: axis(held, Control::D, Control::A),
        up: axis(held, Control::Space, Control::LShift),
        front: axis(held, Control::W, Control::S),
        yaw: axis(held, Control::Right, Control::Left),
        pitch: axis(held, Control::Down, Control::Up),
    }
}

/// The bit pattern of the single-precision number nearest to a quarter turn.
pub const QUARTER_TURN: u32 = 0x3fc9_0fdb;

/// The bit pattern of its negation.
pub const NEGATIVE_QUARTER_TURN: u32 = 0xbfc9_0fdb;

/// Whether `angle` lies strictly between minus a quarter turn and a quarter
/// turn. A NaN lies nowhere.
pub open spec fn pitch_allowed(angle: Scalar) -> bool {
    (Scalar { bits: NEGATIVE_QUARTER_TURN }).spec_lt(angle) && angle.spec_lt(
        Scalar { bits: QUARTER_TURN },
    )
}

/// Whether `angle` is a pitch the camera may take.
pub fn is_pitch_allowed(angle: Scalar) -> (b: bool)
    ensures
        b == pitch_allowed(angle),
{
    Scalar::from_bits(NEGATIVE_QUARTER_TURN).lt(angle) && angle.lt(Scalar::from_bits(QUARTER_TURN))
}

/// The pitch after a turn from `current` to `proposed` was asked for: the
/// proposed pitch where it is allowed, else the current one unchanged. A turn
/// that would pass the limit is dropped whole, never cut short.
pub fn limit_pitch(current: Scalar, proposed: Scalar) -> (pitch: Scalar)
    ensures
        pitch_allowed(proposed) ==> pitch == proposed,
        !pitch_allowed(proposed) ==> pitch == current,
{
    if is_pitch_allowed(proposed) {
        proposed
    } else {
        current
    }
}

} // verus!

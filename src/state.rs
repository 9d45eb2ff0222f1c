//! The decoded controller state.

use vstd::prelude::*;

use crate::flags::{Buttons, DPad, Sticks, Triggers};

verus! {

/// Position of a stick, each axis over the raw range 0 to 255.
#[derive(Clone, Copy, Debug, PartialEq, Eq, Structural)]
pub struct Pos {
    pub x: u8,
    pub y: u8,
}

impl Default for Pos {
    fn default() -> (r: Pos)
        ensures
            r == (Pos { x: 0, y: 0 }),
    {
        Pos { x: 0, y: 0 }
    }
}

/// A three-axis motion reading. Each axis holds the bit pattern of an
/// IEEE-754 single-precision value; `f32::from_bits` gives the number.
#[derive(Clone, Copy, Debug, PartialEq, Eq, Structural)]
pub struct Vec3 {
    pub x: u32,
    pub y: u32,
    pub z: u32,
}

impl Default for Vec3 {
    /// All three axes zero (the bit pattern of `0.0`).
    fn default() -> (r: Vec3)
        ensures
            r == (Vec3 { x: 0, y: 0, z: 0 }),
    {
        Vec3 { x: 0, y: 0, z: 0 }
    }
}

/// Everything that a report tells of the controller.
#[derive(Clone, Copy, Debug, PartialEq, Eq, Structural)]
pub struct ControllerState {
    pub stick_left: Pos,
    pub stick_right: Pos,
    pub direction: DPad,
    pub buttons: Buttons,
    pub triggers: Triggers,
    pub sticks: Sticks,
    pub trigger_z_left: u8,
    pub trigger_z_right: u8,
    pub battery: u8,
    pub angular_velocity: Vec3,
    pub acceleration: Vec3,
}

impl ControllerState {
    /// Every flag set keeps its undefined bits clear.
    pub open spec fn wf(self) -> bool {
        self.direction.wf() && self.buttons.wf() && self.triggers.wf() && self.sticks.wf()
    }

    /// The state before any report: every field zero, every flag set empty.
    pub open spec fn zero() -> ControllerState {
        ControllerState {
            stick_left: Pos { x: 0, y: 0 },
            stick_right: Pos { x: 0, y: 0 },
            direction: DPad(0),
            buttons: Buttons(0),
            triggers: Triggers(0),
            sticks: Sticks(0),
            trigger_z_left: 0,
            trigger_z_right: 0,
            battery: 0,
            angular_velocity: Vec3 { x: 0, y: 0, z: 0 },
            acceleration: Vec3 { x: 0, y: 0, z: 0 },
        }
    }
}

impl Default for ControllerState {
    fn default() -> (r: ControllerState)
        ensures
            r == ControllerState::zero(),
            r.wf(),
    {
        proof {
            assert(0u8 & !Buttons::MASK == 0 && 0u8 & !DPad::MASK == 0) by (bit_vector);
            assert(0u8 & !Triggers::MASK == 0 && 0u8 & !Sticks::MASK == 0) by (bit_vector);
        }
        ControllerState {
            stick_left: Pos { x: 0, y: 0 },
            stick_right: Pos { x: 0, y: 0 },
            direction: DPad(0),
            buttons: Buttons(0),
            triggers: Triggers(0),
            sticks: Sticks(0),
            trigger_z_left: 0,
            trigger_z_right: 0,
            battery: 0,
            angular_velocity: Vec3 { x: 0, y: 0, z: 0 },
            acceleration: Vec3 { x: 0, y: 0, z: 0 },
        }
    }
}

} // verus!

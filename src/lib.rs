//! Decoding of DualShock 4 input reports into a typed controller state.
//!
//! A report is 64 bytes as the HID transport delivers it; the decoder of the
//! transport mode turns it into a [`ControllerState`]. Opening the device and
//! reading reports is left to the caller.

mod error;
mod flags;
mod mode;
mod secret;
mod state;

pub use error::DecodeError;
pub use flags::{direction_of, Buttons, DPad, Sticks, Triggers};
pub use mode::{Bt, Mode, Usb};
pub use state::{ControllerState, Pos, Vec3};

use vstd::prelude::*;

verus! {

/// USB vendor id of the controller.
pub const DS4_VID: u16 = 0x054C;

/// USB product id of the controller.
pub const DS4_PID: u16 = 0x09CC;

} // verus!

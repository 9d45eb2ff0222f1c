//! Transport modes and the report decoder of each.

use vstd::prelude::*;

use crate::error::DecodeError;
use crate::flags::{direction_of, Buttons, DPad, Sticks, Triggers};
use crate::secret::Secret;
use crate::state::{ControllerState, Pos, Vec3};

verus! {

/// The state that follows `prev` once `packet` has been handed to the
/// decoder of mode `M`: the decoded state, or `prev` itself on a fault.
pub open spec fn state_after<M: Mode>(prev: ControllerState, packet: Seq<u8>) -> ControllerState {
    match M::decoded(prev, packet) {
        Ok(s) => s,
        Err(_) => prev,
    }
}

/// A transport mode: how a 64-byte input report is laid out.
pub trait Mode: Secret {
    /// The state that decoding `packet` over `prev` gives, or the fault.
    spec fn decoded(prev: ControllerState, packet: Seq<u8>) -> Result<ControllerState, DecodeError>;

    /// Decodes `packet` into `state`. On a fault `state` is left as it was.
    fn parse(state: &mut ControllerState, packet: [u8; 64]) -> (r: Result<(), DecodeError>)
        ensures
            match Self::decoded(*old(state), packet@) {
                Ok(s) => r is Ok && *final(state) == s,
                Err(e) => r == Err::<(), DecodeError>(e) && *final(state) == *old(state),
            },
            old(state).wf() ==> final(state).wf(),
    ;
}

/// Reports read over USB.
pub struct Usb;

/// Reports read over Bluetooth.
pub struct Bt;

impl Secret for Usb {}

impl Secret for Bt {}

impl Mode for Usb {
    /// The USB layout has no decoder.
    open spec fn decoded(prev: ControllerState, packet: Seq<u8>) -> Result<ControllerState, DecodeError> {
        Err(DecodeError::Unsupported)
    }

    fn parse(state: &mut ControllerState, packet: [u8; 64]) -> (r: Result<(), DecodeError>) {
        Err(DecodeError::Unsupported)
    }
}

/// The buttons of a Bluetooth report: the high nibble of byte 9 in bits 0
/// to 3, bits 4 and 5 of byte 10 in place, and bit 0 of byte 11 moved to
/// bit 5.
pub open spec fn bt_buttons(p: Seq<u8>) -> u8 {
    (p[9] >> 4u8) | (p[10] & 0x30u8) | ((p[11] & 0x01u8) << 5u8)
}

/// Two bytes as the high half of a big-endian 32-bit word whose low half is
/// zero.
pub open spec fn high_half(hi: u8, lo: u8) -> u32 {
    (hi * 0x100_0000 + lo * 0x1_0000) as u32
}

proof fn lemma_bt_bits(a: u8, b: u8, c: u8)
    by (bit_vector)
    ensures
        ((a >> 4u8) | (b & 0x30u8) | ((c & 0x01u8) << 5u8)) & !Buttons::MASK == 0,
        (b & Triggers::MASK) & !Triggers::MASK == 0,
        ((b & 0xc0u8) >> 6u8) & !Sticks::MASK == 0,
{
}

fn high_half_word(hi: u8, lo: u8) -> (r: u32)
    ensures
        r == high_half(hi, lo),
{
    (hi as u32) * 0x100_0000 + (lo as u32) * 0x1_0000
}

impl Mode for Bt {
    /// Bytes 5 to 8 are the sticks, byte 9 the buttons' high nibble and the
    /// d-pad code, byte 10 the triggers, option and share and the stick
    /// presses, byte 11 the PS button, bytes 12 and 13 the analog triggers,
    /// byte 16 the battery and bytes 17 to 22 the angular velocity.
    /// Acceleration is not decoded and keeps its value.
    open spec fn decoded(prev: ControllerState, p: Seq<u8>) -> Result<ControllerState, DecodeError> {
        match direction_of(p[9] & 0x0f) {
            None => Err(DecodeError::InvalidDirection(p[9] & 0x0f)),
            Some(direction) => Ok(
                ControllerState {
                    stick_left: Pos { x: p[5], y: p[6] },
                    stick_right: Pos { x: p[7], y: p[8] },
                    direction: DPad(direction),
                    buttons: Buttons(bt_buttons(p)),
                    triggers: Triggers(p[10] & Triggers::MASK),
                    sticks: Sticks((p[10] & 0xc0u8) >> 6u8),
                    trigger_z_left: p[12],
                    trigger_z_right: p[13],
                    battery: p[16],
                    angular_velocity: Vec3 {
                        x: high_half(p[17], p[18]),
                        y: high_half(p[19], p[20]),
                        z: high_half(p[21], p[22]),
                    },
                    acceleration: prev.acceleration,
                },
            ),
        }
    }

    fn parse(state: &mut ControllerState, packet: [u8; 64]) -> (r: Result<(), DecodeError>) {
        let direction = match DPad::decode(packet[9]) {
            Ok(d) => d,
            Err(e) => {
                return Err(e);
            },
        };
        proof {
            lemma_bt_bits(packet[9], packet[10], packet[11]);
        }
        let mut buttons = Buttons(packet[9] >> 4);
        buttons = buttons | Buttons(packet[10] & 0x30);
        buttons = buttons | Buttons((packet[11] & 0x01) << 5);
        state.stick_left = Pos { x: packet[5], y: packet[6] };
        state.stick_right = Pos { x: packet[7], y: packet[8] };
        state.buttons = buttons;
        state.direction = direction;
        state.triggers = Triggers::from(packet[10]);
        state.sticks = Sticks((packet[10] & 0xc0) >> 6);
        state.trigger_z_left = packet[12];
        state.trigger_z_right = packet[13];
        state.battery = packet[16];
        state.angular_velocity = Vec3 {
            x: high_half_word(packet[17], packet[18]),
            y: high_half_word(packet[19], packet[20]),
            z: high_half_word(packet[21], packet[22]),
        };
        Ok(())
    }
}

/// Decoding the same report a second time leaves the state exactly as the
/// first decoding left it, whether that decoding succeeded or faulted.
pub proof fn lemma_decode_twice(prev: ControllerState, packet: Seq<u8>)
    requires
        packet.len() == 64,
    ensures
        state_after::<Bt>(state_after::<Bt>(prev, packet), packet) == state_after::<Bt>(
            prev,
            packet,
        ),
{
}

} // verus!

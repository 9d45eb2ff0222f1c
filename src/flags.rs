//! Eight-bit flag sets for the controller's buttons, d-pad, triggers and sticks.
//!
//! Each set is one byte whose undefined bits stay clear. The constants give
//! the bit of each named flag; `|` and `&` act bit by bit on the byte.

use vstd::prelude::*;

use crate::error::DecodeError;

verus! {

/// Union, intersection and inclusion of bytes: `|` is commutative and
/// associative, and `a | b` keeps every bit of `a`.
proof fn lemma_byte_or(a: u8, b: u8, c: u8, m: u8)
    by (bit_vector)
    ensures
        a | b == b | a,
        (a | b) | c == a | (b | c),
        (a | b) & a == a,
        (a | b) & b == b,
        a & !m == 0 && b & !m == 0 ==> (a | b) & !m == 0,
        a & !m == 0 ==> (a & b) & !m == 0,
        (a & m) & !m == 0,
{
}

/// The face and menu buttons; bit 7 is reserved and always clear.
#[derive(Clone, Copy, Debug, PartialEq, Eq, Structural)]
pub struct Buttons(pub u8);

impl Buttons {
    pub const PS: u8 = 0x40;
    pub const OPTION: u8 = 0x20;
    pub const SHARE: u8 = 0x10;
    pub const TRIANGLE: u8 = 0x08;
    pub const CIRCLE: u8 = 0x04;
    pub const CROSS: u8 = 0x02;
    pub const SQUARE: u8 = 0x01;

    /// The bits that a flag of this set may occupy.
    pub const MASK: u8 = 0x7f;

    /// No undefined bit is set.
    pub open spec fn wf(self) -> bool {
        self.0 & !Buttons::MASK == 0
    }

    /// Every flag of `other` is set in `self`.
    pub open spec fn contains(self, other: Buttons) -> bool {
        self.0 & other.0 == other.0
    }

    /// The flags set in either operand.
    pub open spec fn union(self, rhs: Buttons) -> Buttons {
        Buttons(self.0 | rhs.0)
    }

    /// The flags set in both operands.
    pub open spec fn intersection(self, rhs: Buttons) -> Buttons {
        Buttons(self.0 & rhs.0)
    }

    /// `|` on flag sets is commutative and associative, keeps every flag of
    /// both operands, and keeps the sets well formed.
    pub proof fn lemma_union(a: Buttons, b: Buttons, c: Buttons)
        ensures
            a.union(b) == b.union(a),
            a.union(b).union(c) == a.union(b.union(c)),
            a.union(b).contains(a),
            a.union(b).contains(b),
            a.wf() && b.wf() ==> a.union(b).wf(),
            a.wf() ==> a.intersection(b).wf(),
    {
        lemma_byte_or(a.0, b.0, c.0, Buttons::MASK);
    }
}

impl Default for Buttons {
    /// The empty set.
    fn default() -> (r: Buttons)
        ensures
            r.0 == 0,
    {
        Buttons(0)
    }
}

impl From<u8> for Buttons {
    /// Keeps the defined bits of `value` and clears the others.
    fn from(value: u8) -> (r: Buttons)
        ensures
            r.0 == value & Buttons::MASK,
            r.wf(),
    {
        proof {
            lemma_byte_or(value, value, value, Buttons::MASK);
        }
        Buttons(value & Buttons::MASK)
    }
}

impl vstd::std_specs::convert::FromSpecImpl<u8> for Buttons {
    open spec fn obeys_from_spec() -> bool {
        true
    }

    open spec fn from_spec(value: u8) -> Buttons {
        Buttons(value & Buttons::MASK)
    }
}

impl core::ops::BitOr for Buttons {
    type Output = Buttons;

    fn bitor(self, rhs: Buttons) -> (r: Buttons)
        ensures
            r == self.union(rhs),
    {
        Buttons(self.0 | rhs.0)
    }
}

impl vstd::std_specs::ops::BitOrSpecImpl for Buttons {
    open spec fn obeys_bitor_spec() -> bool {
        true
    }

    open spec fn bitor_req(self, rhs: Buttons) -> bool {
        true
    }

    open spec fn bitor_spec(self, rhs: Buttons) -> Buttons {
        self.union(rhs)
    }
}

impl core::ops::BitAnd for Buttons {
    type Output = Buttons;

    fn bitand(self, rhs: Buttons) -> (r: Buttons)
        ensures
            r == self.intersection(rhs),
    {
        Buttons(self.0 & rhs.0)
    }
}

impl vstd::std_specs::ops::BitAndSpecImpl for Buttons {
    open spec fn obeys_bitand_spec() -> bool {
        true
    }

    open spec fn bitand_req(self, rhs: Buttons) -> bool {
        true
    }

    open spec fn bitand_spec(self, rhs: Buttons) -> Buttons {
        self.intersection(rhs)
    }
}

impl core::ops::BitOrAssign for Buttons {
    fn bitor_assign(&mut self, rhs: Buttons)
        ensures
            *final(self) == old(self).union(rhs),
    {
        self.0 = self.0 | rhs.0;
    }
}

impl core::ops::BitAndAssign for Buttons {
    fn bitand_assign(&mut self, rhs: Buttons)
        ensures
            *final(self) == old(self).intersection(rhs),
    {
        self.0 = self.0 & rhs.0;
    }
}

/// The d-pad: one of eight compass directions, as the cardinals it covers, or none.
#[derive(Clone, Copy, Debug, PartialEq, Eq, Structural)]
pub struct DPad(pub u8);

impl DPad {
    pub const UP: u8 = 0x08;
    pub const RIGHT: u8 = 0x04;
    pub const DOWN: u8 = 0x02;
    pub const LEFT: u8 = 0x01;

    /// The bits that a flag of this set may occupy.
    pub const MASK: u8 = 0x0f;

    /// No undefined bit is set.
    pub open spec fn wf(self) -> bool {
        self.0 & !DPad::MASK == 0
    }

    /// Every flag of `other` is set in `self`.
    pub open spec fn contains(self, other: DPad) -> bool {
        self.0 & other.0 == other.0
    }

    /// The flags set in either operand.
    pub open spec fn union(self, rhs: DPad) -> DPad {
        DPad(self.0 | rhs.0)
    }

    /// The flags set in both operands.
    pub open spec fn intersection(self, rhs: DPad) -> DPad {
        DPad(self.0 & rhs.0)
    }

    /// `|` on flag sets is commutative and associative, keeps every flag of
    /// both operands, and keeps the sets well formed.
    pub proof fn lemma_union(a: DPad, b: DPad, c: DPad)
        ensures
            a.union(b) == b.union(a),
            a.union(b).union(c) == a.union(b.union(c)),
            a.union(b).contains(a),
            a.union(b).contains(b),
            a.wf() && b.wf() ==> a.union(b).wf(),
            a.wf() ==> a.intersection(b).wf(),
    {
        lemma_byte_or(a.0, b.0, c.0, DPad::MASK);
    }
}

impl Default for DPad {
    /// The empty set.
    fn default() -> (r: DPad)
        ensures
            r.0 == 0,
    {
        DPad(0)
    }
}

/// The d-pad bits that a direction code stands for: codes 0 to 7 go round
/// the compass clockwise from up, diagonals covering both neighbours, and 8
/// is centered. Codes above 8 stand for nothing.
pub open spec fn direction_of(code: u8) -> Option<u8> {
    if code == 0 {
        Some(DPad::UP)
    } else if code == 1 {
        Some(DPad::UP | DPad::RIGHT)
    } else if code == 2 {
        Some(DPad::RIGHT)
    } else if code == 3 {
        Some(DPad::DOWN | DPad::RIGHT)
    } else if code == 4 {
        Some(DPad::DOWN)
    } else if code == 5 {
        Some(DPad::DOWN | DPad::LEFT)
    } else if code == 6 {
        Some(DPad::LEFT)
    } else if code == 7 {
        Some(DPad::UP | DPad::LEFT)
    } else if code == 8 {
        Some(0)
    } else {
        None
    }
}

/// A single cardinal direction.
pub open spec fn is_cardinal(bits: u8) -> bool {
    bits == DPad::UP || bits == DPad::RIGHT || bits == DPad::DOWN || bits == DPad::LEFT
}

/// `b` is `a` with one cardinal direction that `a` lacks added.
pub open spec fn adds_one_cardinal(a: u8, b: u8) -> bool {
    (a & DPad::UP == 0 && b == a | DPad::UP) || (a & DPad::RIGHT == 0 && b == a | DPad::RIGHT)
        || (a & DPad::DOWN == 0 && b == a | DPad::DOWN) || (a & DPad::LEFT == 0 && b == a
        | DPad::LEFT)
}

proof fn lemma_compass_bits()
    by (bit_vector)
    ensures
        DPad::UP | DPad::RIGHT == 0x0c,
        DPad::DOWN | DPad::RIGHT == 0x06,
        DPad::DOWN | DPad::LEFT == 0x03,
        DPad::UP | DPad::LEFT == 0x09,
        0x08u8 | 0x04u8 == 0x0c,
        0x04u8 | 0x02u8 == 0x06,
        0x02u8 | 0x01u8 == 0x03,
        0x01u8 | 0x08u8 == 0x09,
        adds_one_cardinal(0x08, 0x0c),
        adds_one_cardinal(0x04, 0x0c),
        adds_one_cardinal(0x04, 0x06),
        adds_one_cardinal(0x02, 0x06),
        adds_one_cardinal(0x02, 0x03),
        adds_one_cardinal(0x01, 0x03),
        adds_one_cardinal(0x01, 0x09),
        adds_one_cardinal(0x08, 0x09),
        0x08u8 & !DPad::MASK == 0 && 0x0cu8 & !DPad::MASK == 0 && 0x04u8 & !DPad::MASK == 0,
        0x06u8 & !DPad::MASK == 0 && 0x02u8 & !DPad::MASK == 0 && 0x03u8 & !DPad::MASK == 0,
        0x01u8 & !DPad::MASK == 0 && 0x09u8 & !DPad::MASK == 0 && 0x00u8 & !DPad::MASK == 0,
{
}

/// Codes 0 to 7 all decode; the even ones are the four cardinal directions,
/// each odd one is the union of the codes on either side of it, and two
/// neighbouring codes differ by exactly one cardinal direction.
pub proof fn lemma_compass(v: u8)
    requires
        v <= 7,
    ensures
        direction_of(v) is Some,
        v % 2 == 0 ==> is_cardinal(direction_of(v)->0),
        v % 2 == 1 ==> direction_of(v)->0 == direction_of((v - 1) as u8)->0 | direction_of(
            ((v + 1) % 8) as u8,
        )->0,
        v % 2 == 0 ==> adds_one_cardinal(
            direction_of(v)->0,
            direction_of(((v + 1) % 8) as u8)->0,
        ),
        v % 2 == 1 ==> adds_one_cardinal(
            direction_of(((v + 1) % 8) as u8)->0,
            direction_of(v)->0,
        ),
{
    lemma_compass_bits();
}

/// The centered code holds no direction, and codes above 8 do not decode.
pub proof fn lemma_compass_rest(v: u8)
    requires
        v >= 8,
    ensures
        v == 8 ==> direction_of(v) == Some(0u8),
        v > 8 ==> direction_of(v) is None,
{
}

impl DPad {
    /// Decodes the direction code in the low four bits of `value`.
    pub fn decode(value: u8) -> (r: Result<DPad, DecodeError>)
        ensures
            match direction_of(value & 0x0f) {
                Some(bits) => r == Ok::<DPad, DecodeError>(DPad(bits)),
                None => r == Err::<DPad, DecodeError>(DecodeError::InvalidDirection(value & 0x0f)),
            },
            r matches Ok(d) ==> d.wf(),
    {
        proof {
            lemma_compass_bits();
            lemma_byte_or(value, value, value, DPad::MASK);
        }
        let code = value & 0x0f;
        if code == 0 {
            Ok(DPad(DPad::UP))
        } else if code == 1 {
            Ok(DPad(DPad::UP | DPad::RIGHT))
        } else if code == 2 {
            Ok(DPad(DPad::RIGHT))
        } else if code == 3 {
            Ok(DPad(DPad::DOWN | DPad::RIGHT))
        } else if code == 4 {
            Ok(DPad(DPad::DOWN))
        } else if code == 5 {
            Ok(DPad(DPad::DOWN | DPad::LEFT))
        } else if code == 6 {
            Ok(DPad(DPad::LEFT))
        } else if code == 7 {
            Ok(DPad(DPad::UP | DPad::LEFT))
        } else if code == 8 {
            Ok(DPad(0))
        } else {
            Err(DecodeError::InvalidDirection(code))
        }
    }
}

impl core::ops::BitOr for DPad {
    type Output = DPad;

    fn bitor(self, rhs: DPad) -> (r: DPad)
        ensures
            r == self.union(rhs),
    {
        DPad(self.0 | rhs.0)
    }
}

impl vstd::std_specs::ops::BitOrSpecImpl for DPad {
    open spec fn obeys_bitor_spec() -> bool {
        true
    }

    open spec fn bitor_req(self, rhs: DPad) -> bool {
        true
    }

    open spec fn bitor_spec(self, rhs: DPad) -> DPad {
        self.union(rhs)
    }
}

impl core::ops::BitAnd for DPad {
    type Output = DPad;

    fn bitand(self, rhs: DPad) -> (r: DPad)
        ensures
            r == self.intersection(rhs),
    {
        DPad(self.0 & rhs.0)
    }
}

impl vstd::std_specs::ops::BitAndSpecImpl for DPad {
    open spec fn obeys_bitand_spec() -> bool {
        true
    }

    open spec fn bitand_req(self, rhs: DPad) -> bool {
        true
    }

    open spec fn bitand_spec(self, rhs: DPad) -> DPad {
        self.intersection(rhs)
    }
}

impl core::ops::BitOrAssign for DPad {
    fn bitor_assign(&mut self, rhs: DPad)
        ensures
            *final(self) == old(self).union(rhs),
    {
        self.0 = self.0 | rhs.0;
    }
}

impl core::ops::BitAndAssign for DPad {
    fn bitand_assign(&mut self, rhs: DPad)
        ensures
            *final(self) == old(self).intersection(rhs),
    {
        self.0 = self.0 & rhs.0;
    }
}

/// The shoulder buttons and the digital state of the triggers.
#[derive(Clone, Copy, Debug, PartialEq, Eq, Structural)]
pub struct Triggers(pub u8);

impl Triggers {
    pub const R2: u8 = 0x08;
    pub const L2: u8 = 0x04;
    pub const R1: u8 = 0x02;
    pub const L1: u8 = 0x01;

    /// The bits that a flag of this set may occupy.
    pub const MASK: u8 = 0x0f;

    /// No undefined bit is set.
    pub open spec fn wf(self) -> bool {
        self.0 & !Triggers::MASK == 0
    }

    /// Every flag of `other` is set in `self`.
    pub open spec fn contains(self, other: Triggers) -> bool {
        self.0 & other.0 == other.0
    }

    /// The flags set in either operand.
    pub open spec fn union(self, rhs: Triggers) -> Triggers {
        Triggers(self.0 | rhs.0)
    }

    /// The flags set in both operands.
    pub open spec fn intersection(self, rhs: Triggers) -> Triggers {
        Triggers(self.0 & rhs.0)
    }

    /// `|` on flag sets is commutative and associative, keeps every flag of
    /// both operands, and keeps the sets well formed.
    pub proof fn lemma_union(a: Triggers, b: Triggers, c: Triggers)
        ensures
            a.union(b) == b.union(a),
            a.union(b).union(c) == a.union(b.union(c)),
            a.union(b).contains(a),
            a.union(b).contains(b),
            a.wf() && b.wf() ==> a.union(b).wf(),
            a.wf() ==> a.intersection(b).wf(),
    {
        lemma_byte_or(a.0, b.0, c.0, Triggers::MASK);
    }
}

impl Default for Triggers {
    /// The empty set.
    fn default() -> (r: Triggers)
        ensures
            r.0 == 0,
    {
        Triggers(0)
    }
}

impl From<u8> for Triggers {
    /// Keeps the defined bits of `value` and clears the others.
    fn from(value: u8) -> (r: Triggers)
        ensures
            r.0 == value & Triggers::MASK,
            r.wf(),
    {
        proof {
            lemma_byte_or(value, value, value, Triggers::MASK);
        }
        Triggers(value & Triggers::MASK)
    }
}

impl vstd::std_specs::convert::FromSpecImpl<u8> for Triggers {
    open spec fn obeys_from_spec() -> bool {
        true
    }

    open spec fn from_spec(value: u8) -> Triggers {
        Triggers(value & Triggers::MASK)
    }
}

impl core::ops::BitOr for Triggers {
    type Output = Triggers;

    fn bitor(self, rhs: Triggers) -> (r: Triggers)
        ensures
            r == self.union(rhs),
    {
        Triggers(self.0 | rhs.0)
    }
}

impl vstd::std_specs::ops::BitOrSpecImpl for Triggers {
    open spec fn obeys_bitor_spec() -> bool {
        true
    }

    open spec fn bitor_req(self, rhs: Triggers) -> bool {
        true
    }

    open spec fn bitor_spec(self, rhs: Triggers) -> Triggers {
        self.union(rhs)
    }
}

impl core::ops::BitAnd for Triggers {
    type Output = Triggers;

    fn bitand(self, rhs: Triggers) -> (r: Triggers)
        ensures
            r == self.intersection(rhs),
    {
        Triggers(self.0 & rhs.0)
    }
}

impl vstd::std_specs::ops::BitAndSpecImpl for Triggers {
    open spec fn obeys_bitand_spec() -> bool {
        true
    }

    open spec fn bitand_req(self, rhs: Triggers) -> bool {
        true
    }

    open spec fn bitand_spec(self, rhs: Triggers) -> Triggers {
        self.intersection(rhs)
    }
}

impl core::ops::BitOrAssign for Triggers {
    fn bitor_assign(&mut self, rhs: Triggers)
        ensures
            *final(self) == old(self).union(rhs),
    {
        self.0 = self.0 | rhs.0;
    }
}

impl core::ops::BitAndAssign for Triggers {
    fn bitand_assign(&mut self, rhs: Triggers)
        ensures
            *final(self) == old(self).intersection(rhs),
    {
        self.0 = self.0 & rhs.0;
    }
}

/// Which sticks are pressed in.
#[derive(Clone, Copy, Debug, PartialEq, Eq, Structural)]
pub struct Sticks(pub u8);

impl Sticks {
    pub const RSTICK: u8 = 0x02;
    pub const LSTICK: u8 = 0x01;

    /// The bits that a flag of this set may occupy.
    pub const MASK: u8 = 0x03;

    /// No undefined bit is set.
    pub open spec fn wf(self) -> bool {
        self.0 & !Sticks::MASK == 0
    }

    /// Every flag of `other` is set in `self`.
    pub open spec fn contains(self, other: Sticks) -> bool {
        self.0 & other.0 == other.0
    }

    /// The flags set in either operand.
    pub open spec fn union(self, rhs: Sticks) -> Sticks {
        Sticks(self.0 | rhs.0)
    }

    /// The flags set in both operands.
    pub open spec fn intersection(self, rhs: Sticks) -> Sticks {
        Sticks(self.0 & rhs.0)
    }

    /// `|` on flag sets is commutative and associative, keeps every flag of
    /// both operands, and keeps the sets well formed.
    pub proof fn lemma_union(a: Sticks, b: Sticks, c: Sticks)
        ensures
            a.union(b) == b.union(a),
            a.union(b).union(c) == a.union(b.union(c)),
            a.union(b).contains(a),
            a.union(b).contains(b),
            a.wf() && b.wf() ==> a.union(b).wf(),
            a.wf() ==> a.intersection(b).wf(),
    {
        lemma_byte_or(a.0, b.0, c.0, Sticks::MASK);
    }
}

impl Default for Sticks {
    /// The empty set.
    fn default() -> (r: Sticks)
        ensures
            r.0 == 0,
    {
        Sticks(0)
    }
}

impl From<u8> for Sticks {
    /// Keeps the defined bits of `value` and clears the others.
    fn from(value: u8) -> (r: Sticks)
        ensures
            r.0 == value & Sticks::MASK,
            r.wf(),
    {
        proof {
            lemma_byte_or(value, value, value, Sticks::MASK);
        }
        Sticks(value & Sticks::MASK)
    }
}

impl vstd::std_specs::convert::FromSpecImpl<u8> for Sticks {
    open spec fn obeys_from_spec() -> bool {
        true
    }

    open spec fn from_spec(value: u8) -> Sticks {
        Sticks(value & Sticks::MASK)
    }
}

impl core::ops::BitOr for Sticks {
    type Output = Sticks;

    fn bitor(self, rhs: Sticks) -> (r: Sticks)
        ensures
            r == self.union(rhs),
    {
        Sticks(self.0 | rhs.0)
    }
}

impl vstd::std_specs::ops::BitOrSpecImpl for Sticks {
    open spec fn obeys_bitor_spec() -> bool {
        true
    }

    open spec fn bitor_req(self, rhs: Sticks) -> bool {
        true
    }

    open spec fn bitor_spec(self, rhs: Sticks) -> Sticks {
        self.union(rhs)
    }
}

impl core::ops::BitAnd for Sticks {
    type Output = Sticks;

    fn bitand(self, rhs: Sticks) -> (r: Sticks)
        ensures
            r == self.intersection(rhs),
    {
        Sticks(self.0 & rhs.0)
    }
}

impl vstd::std_specs::ops::BitAndSpecImpl for Sticks {
    open spec fn obeys_bitand_spec() -> bool {
        true
    }

    open spec fn bitand_req(self, rhs: Sticks) -> bool {
        true
    }

    open spec fn bitand_spec(self, rhs: Sticks) -> Sticks {
        self.intersection(rhs)
    }
}

impl core::ops::BitOrAssign for Sticks {
    fn bitor_assign(&mut self, rhs: Sticks)
        ensures
            *final(self) == old(self).union(rhs),
    {
        self.0 = self.0 | rhs.0;
    }
}

impl core::ops::BitAndAssign for Sticks {
    fn bitand_assign(&mut self, rhs: Sticks)
        ensures
            *final(self) == old(self).intersection(rhs),
    {
        self.0 = self.0 & rhs.0;
    }
}

} // verus!

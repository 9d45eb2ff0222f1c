use ds4::{Buttons, DPad, DecodeError, Sticks, Triggers};

#[test]
fn dpad_cardinals_and_diagonals() {
    let expected = [
        DPad::UP,
        DPad::UP | DPad::RIGHT,
        DPad::RIGHT,
        DPad::DOWN | DPad::RIGHT,
        DPad::DOWN,
        DPad::DOWN | DPad::LEFT,
        DPad::LEFT,
        DPad::UP | DPad::LEFT,
    ];
    for v in 0u8..=7 {
        assert_eq!(DPad::decode(v), Ok(DPad(expected[v as usize])));
    }
    assert_eq!(DPad::decode(1), Ok(DPad(0x0c)));
    assert_eq!(DPad::decode(3), Ok(DPad(0x06)));
    assert_eq!(DPad::decode(5), Ok(DPad(0x03)));
    assert_eq!(DPad::decode(7), Ok(DPad(0x09)));
}

#[test]
fn dpad_neighbours_differ_by_one_cardinal() {
    for v in 0u8..=7 {
        let a = DPad::decode(v).unwrap().0;
        let b = DPad::decode((v + 1) % 8).unwrap().0;
        let (small, large) = if v % 2 == 0 { (a, b) } else { (b, a) };
        let added = large & !small;
        assert_eq!(small & large, small);
        assert_eq!(added.count_ones(), 1);
    }
}

#[test]
fn dpad_centered() {
    assert_eq!(DPad::decode(8), Ok(DPad(0)));
    assert_eq!(DPad::decode(8), Ok(DPad::default()));
}

#[test]
fn dpad_invalid_codes_fault() {
    for v in 9u8..=15 {
        assert_eq!(DPad::decode(v), Err(DecodeError::InvalidDirection(v)));
    }
}

#[test]
fn dpad_reads_low_nibble_only() {
    assert_eq!(DPad::decode(0x41), Ok(DPad(DPad::UP | DPad::RIGHT)));
    assert_eq!(DPad::decode(0xf8), Ok(DPad(0)));
    assert_eq!(DPad::decode(0x0a), Err(DecodeError::InvalidDirection(0x0a)));
    assert_eq!(DPad::decode(0xfa), Err(DecodeError::InvalidDirection(0x0a)));
}

#[test]
fn from_byte_clears_undefined_bits() {
    for b in 0u8..=255 {
        assert_eq!(Buttons::from(b).0 & 0x80, 0);
        assert_eq!(Buttons::from(b).0, b & 0x7f);
        assert_eq!(Triggers::from(b).0 & 0xf0, 0);
        assert_eq!(Triggers::from(b).0, b & 0x0f);
        assert_eq!(Sticks::from(b).0 & 0xfc, 0);
        assert_eq!(Sticks::from(b).0, b & 0x03);
    }
    assert_eq!(Buttons::from(0xff), Buttons(0x7f));
    assert_eq!(Triggers::from(0xff), Triggers(0x0f));
    assert_eq!(Sticks::from(0xff), Sticks(0x03));
}

#[test]
fn or_is_commutative_and_associative() {
    let a = Buttons(Buttons::PS);
    let b = Buttons(Buttons::CROSS | Buttons::SQUARE);
    let c = Buttons(Buttons::SHARE);
    assert_eq!(a | b, b | a);
    assert_eq!((a | b) | c, a | (b | c));
    assert_eq!((a | b | c).0, 0x53);
    let t = Triggers(Triggers::R2) | Triggers(Triggers::L1);
    assert_eq!(t, Triggers(Triggers::L1) | Triggers(Triggers::R2));
    assert_eq!(t.0, 0x09);
}

#[test]
fn or_keeps_earlier_bits() {
    let mut b = Buttons(0x04);
    b |= Buttons(0x30);
    assert_eq!(b.0, 0x34);
    b |= Buttons(0x20);
    assert_eq!(b.0, 0x34);
    b |= Buttons(0x40);
    assert_eq!(b.0, 0x74);
}

#[test]
fn and_intersects() {
    let b = Buttons(0x35) & Buttons(0x14);
    assert_eq!(b.0, 0x14);
    let mut s = Sticks(0x03);
    s &= Sticks(Sticks::LSTICK);
    assert_eq!(s, Sticks(Sticks::LSTICK));
    assert_eq!((DPad(0x0c) & DPad(DPad::UP)).0, DPad::UP);
}

#[test]
fn defaults_are_empty() {
    assert_eq!(Buttons::default().0, 0);
    assert_eq!(DPad::default().0, 0);
    assert_eq!(Triggers::default().0, 0);
    assert_eq!(Sticks::default().0, 0);
}

use ds4::{Bt, Buttons, ControllerState, DPad, DecodeError, Mode, Pos, Usb, Vec3};

fn report() -> [u8; 64] {
    let mut p = [0u8; 64];
    p[9] = 0x08;
    p
}

#[test]
fn byte_nine_sets_direction_and_buttons() {
    let mut p = report();
    p[9] = 0x41;
    let mut st = ControllerState::default();
    assert_eq!(Bt::parse(&mut st, p), Ok(()));
    assert_eq!(st.direction, DPad(DPad::UP | DPad::RIGHT));
    assert_eq!(st.buttons, Buttons(Buttons::CIRCLE));
}

#[test]
fn battery_is_raw_byte() {
    let mut p = report();
    p[16] = 0x64;
    p[9] = 0xf3;
    p[10] = 0xff;
    p[11] = 0xff;
    let mut st = ControllerState::default();
    assert_eq!(Bt::parse(&mut st, p), Ok(()));
    assert_eq!(st.battery, 0x64);
    assert_eq!(st.battery, 100);
}

#[test]
fn analog_triggers_are_raw_bytes() {
    let mut p = report();
    p[12] = 0x12;
    p[13] = 0x34;
    let mut st = ControllerState::default();
    assert_eq!(Bt::parse(&mut st, p), Ok(()));
    assert_eq!(st.trigger_z_left, 0x12);
    assert_eq!(st.trigger_z_right, 0x34);
}

#[test]
fn full_report_layout() {
    let mut p = report();
    p[5] = 1;
    p[6] = 2;
    p[7] = 3;
    p[8] = 4;
    p[9] = 0xa6;
    p[10] = 0x9b;
    p[11] = 0x01;
    p[14] = 0xee;
    p[15] = 0xee;
    p[17] = 0x3f;
    p[18] = 0x80;
    p[19] = 0xc0;
    p[20] = 0x00;
    p[21] = 0x40;
    p[22] = 0x40;
    let mut st = ControllerState::default();
    assert_eq!(Bt::parse(&mut st, p), Ok(()));
    assert_eq!(st.stick_left, Pos { x: 1, y: 2 });
    assert_eq!(st.stick_right, Pos { x: 3, y: 4 });
    assert_eq!(st.direction, DPad(DPad::LEFT));
    // 0xa6 >> 4, then 0x9b & 0x30, then bit 0 of byte 11 moved to bit 5
    assert_eq!(st.buttons, Buttons(0x0a | 0x10 | 0x20));
    assert_eq!(st.triggers.0, 0x0b);
    assert_eq!(st.sticks.0, 0x02);
    assert_eq!(st.angular_velocity, Vec3 { x: 0x3f80_0000, y: 0xc000_0000, z: 0x4040_0000 });
    assert_eq!(f32::from_bits(st.angular_velocity.x), 1.0f32);
    assert_eq!(f32::from_bits(st.angular_velocity.y), -2.0f32);
    assert_eq!(f32::from_bits(st.angular_velocity.z), 3.0f32);
    assert_eq!(
        f32::from_bits(st.angular_velocity.x),
        f32::from_be_bytes([p[17], p[18], 0, 0])
    );
}

#[test]
fn ps_bit_lands_on_bit_five() {
    let mut p = report();
    p[11] = 0xff;
    let mut st = ControllerState::default();
    assert_eq!(Bt::parse(&mut st, p), Ok(()));
    assert_eq!(st.buttons.0, 0x20);
}

#[test]
fn decoding_twice_gives_same_state() {
    let mut p = report();
    for (i, b) in p.iter_mut().enumerate() {
        *b = (i as u8).wrapping_mul(37);
    }
    p[9] = 0x57;
    let mut st = ControllerState::default();
    st.acceleration = Vec3 { x: 7, y: 8, z: 9 };
    assert_eq!(Bt::parse(&mut st, p), Ok(()));
    let once = st;
    assert_eq!(Bt::parse(&mut st, p), Ok(()));
    assert_eq!(st, once);
}

#[test]
fn acceleration_keeps_its_value() {
    let mut st = ControllerState::default();
    st.acceleration = Vec3 { x: 1, y: 2, z: 3 };
    let mut p = report();
    p[30] = 0xff;
    assert_eq!(Bt::parse(&mut st, p), Ok(()));
    assert_eq!(st.acceleration, Vec3 { x: 1, y: 2, z: 3 });
}

#[test]
fn invalid_direction_leaves_state_unchanged() {
    let mut st = ControllerState::default();
    st.battery = 9;
    let mut p = report();
    p[9] = 0x3c;
    p[16] = 0x50;
    let before = st;
    assert_eq!(Bt::parse(&mut st, p), Err(DecodeError::InvalidDirection(0x0c)));
    assert_eq!(st, before);
}

#[test]
fn usb_is_unsupported() {
    let mut st = ControllerState::default();
    let p = report();
    assert_eq!(Usb::parse(&mut st, p), Err(DecodeError::Unsupported));
    assert_eq!(st, ControllerState::default());
}

#[test]
fn default_state_is_zero() {
    let st = ControllerState::default();
    assert_eq!(st.stick_left, Pos { x: 0, y: 0 });
    assert_eq!(st.buttons, Buttons(0));
    assert_eq!(st.battery, 0);
    assert_eq!(st.angular_velocity, Vec3::default());
    assert_eq!(st.acceleration, Vec3 { x: 0, y: 0, z: 0 });
}

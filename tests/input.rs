use gcfeeder::input::{
    saturate_u8, stick_range, trigger_range, Input, Rumble, Stick, StickRange,
};

#[test]
fn defaults() {
    let i = Input::default();
    assert_eq!(i.main_stick, Stick::new(0x80, 0x80));
    assert_eq!(i.c_stick, Stick::new(0x80, 0x80));
    assert_eq!((i.left_trigger, i.right_trigger), (0, 0));
    assert!(!i.button_a && !i.button_start);
    assert_eq!(Rumble::default(), Rumble::Off);
    assert_eq!(stick_range(), StickRange { center: 0x80, radius: 0x7F });
    assert_eq!((trigger_range().min, trigger_range().max), (0x00, 0xFF));
}

#[test]
fn byte_round_trip() {
    for k in 0..12 {
        let mut i = Input::default();
        let buttons = [
            &mut i.button_a, &mut i.button_b, &mut i.button_x, &mut i.button_y,
            &mut i.button_left, &mut i.button_right, &mut i.button_down, &mut i.button_up,
            &mut i.button_start, &mut i.button_z, &mut i.button_r, &mut i.button_l,
        ];
        *buttons.into_iter().nth(k).unwrap() = true;
        i.main_stick = Stick::new(k as u8, 200);
        i.right_trigger = 77;
        assert_eq!(Input::from_bytes(i.to_bytes()), i);
    }
    let mut i = Input::default();
    i.button_l = true;
    i.button_up = true;
    assert_eq!(i.to_bytes(), [0x80, 0x08, 0x80, 0x80, 0x80, 0x80, 0, 0]);
}

#[test]
fn rumble_bytes() {
    assert_eq!(Rumble::On.to_byte(), 1);
    assert_eq!(Rumble::Off.to_byte(), 0);
    assert_eq!(Rumble::from_bool(true), Rumble::On);
}

#[test]
fn saturation_and_restrict() {
    assert_eq!(saturate_u8(-5), 0);
    assert_eq!(saturate_u8(300), 255);
    assert_eq!(saturate_u8(77), 77);
    let r = StickRange::new(0x80, 0x64);
    assert_eq!(r.restrict(-3, 400), (0x1C, 0xE4));
    assert_eq!(r.restrict(0x90, 0x70), (0x90, 0x70));
    assert_eq!(StickRange::clamp(5, 7, 9), 7);
    assert_eq!(Stick::from_coords([1, 2]).to_coords(), [1, 2]);
}

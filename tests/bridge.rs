use gcfeeder::bridge::{
    apply_trigger_mode, attached_after, feed_step, hat_state, input_to_xinput, joystick_report,
    rumble_of_slot, rumble_strength, stick_coord_to_xinput, FeedStep, TriggerMode, TriggerResult,
};
use gcfeeder::input::{Input, Rumble, Stick};

#[test]
fn axis_conversion() {
    assert_eq!(stick_coord_to_xinput(0x80), 0);
    assert_eq!(stick_coord_to_xinput(0xFF), 32767);
    assert_eq!(stick_coord_to_xinput(0x01), -32767);
    assert_eq!(stick_coord_to_xinput(0x00), -32768);
    assert_eq!(stick_coord_to_xinput(0x81), 259);
    assert_eq!(stick_coord_to_xinput(0x7F), -258);
}

#[test]
fn trigger_modes() {
    let mut i = Input::default();
    i.left_trigger = 40;
    i.right_trigger = 50;
    i.button_l = true;
    assert_eq!(apply_trigger_mode(TriggerMode::Analog, &i), TriggerResult { l: 40, r: 50, ls: false, rs: false });
    assert_eq!(apply_trigger_mode(TriggerMode::Digital, &i), TriggerResult { l: 255, r: 0, ls: false, rs: false });
    assert_eq!(apply_trigger_mode(TriggerMode::Combination, &i), TriggerResult { l: 255, r: 50, ls: false, rs: false });
    assert_eq!(apply_trigger_mode(TriggerMode::StickClick, &i), TriggerResult { l: 40, r: 50, ls: true, rs: false });
}

#[test]
fn button_word_layout() {
    let mut i = Input::default();
    i.button_up = true;
    i.button_z = true;
    i.button_a = true;
    i.button_y = true;
    i.button_r = true;
    let pad = input_to_xinput(TriggerMode::StickClick, &i);
    assert_eq!(pad.buttons, 0x0001 | 0x0200 | 0x1000 | 0x8000 | 0x0080);
    let pad = input_to_xinput(TriggerMode::Analog, &i);
    assert_eq!(pad.buttons, 0x0001 | 0x0200 | 0x1000 | 0x8000);
}

#[test]
fn centered_sticks_give_zero_axes() {
    let pad = input_to_xinput(TriggerMode::Analog, &Input::default());
    assert_eq!((pad.thumb_lx, pad.thumb_ly, pad.thumb_rx, pad.thumb_ry), (0, 0, 0, 0));
}

#[test]
fn joystick_report_layout() {
    let mut i = Input::default();
    i.button_a = true;
    i.button_r = true;
    i.button_left = true;
    i.button_up = true;
    i.main_stick = Stick::new(10, 20);
    i.c_stick = Stick::new(30, 40);
    i.left_trigger = 5;
    i.right_trigger = 6;
    let r = joystick_report(&i);
    assert_eq!(r.keys, [true, false, false, false, false, false, false, true]);
    assert_eq!(r.axes, [10, 235, 30, 215, 5, 6, -1, 1]);
    assert_eq!(hat_state(true, true), 0);
}

#[test]
fn attach_and_detach() {
    let i = Some(Input::default());
    assert_eq!(feed_step(false, &i), FeedStep::PlugAndUpdate);
    assert_eq!(feed_step(true, &i), FeedStep::Update);
    assert_eq!(feed_step(true, &None), FeedStep::Unplug);
    assert_eq!(feed_step(false, &None), FeedStep::Idle);
    assert!(!attached_after(FeedStep::Unplug));
    assert!(attached_after(FeedStep::PlugAndUpdate));
}

#[test]
fn host_rumble_strength() {
    assert_eq!(rumble_strength(10, 200), 200);
    assert_eq!(rumble_strength(200, 10), 200);
    assert_eq!(rumble_of_slot(true), Rumble::On);
    assert_eq!(rumble_of_slot(false), Rumble::Off);
}

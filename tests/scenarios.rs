use gcfeeder::adapter::{parse_payload, Port};
use gcfeeder::bridge::{feed_step, input_to_xinput, joystick_report, FeedStep, TriggerMode};
use gcfeeder::calibration::{CalibrationError, SticksCalibration};
use gcfeeder::feeder::{FeedPipeline, FeederConfig};
use gcfeeder::input::Input;
use gcfeeder::poller::route_input;

fn no_sticks(_: SticksCalibration, i: Input) -> Result<Input, CalibrationError> {
    Ok(i)
}

fn payload(port_one: [u8; 9]) -> [u8; 37] {
    let mut p = [0u8; 37];
    p[0] = 0x21;
    p[1..10].copy_from_slice(&port_one);
    p
}

#[test]
fn plug_and_hold_a() {
    let inputs = parse_payload(&payload([0x10, 0x01, 0, 0x80, 0x80, 0x80, 0x80, 0, 0]), 37).unwrap();
    let mut pipeline = FeedPipeline::new(&FeederConfig::default(), None);
    let (_, _, layered) = pipeline.process(route_input(&inputs, Port::One), false, &no_sticks);
    let layered = layered.unwrap();
    assert_eq!(feed_step(false, &Some(layered)), FeedStep::PlugAndUpdate);
    assert!(joystick_report(&layered).keys[0]);
    for port in [Port::Two, Port::Three, Port::Four] {
        assert_eq!(route_input(&inputs, port), None);
    }
}

#[test]
fn disconnect_unplugs_and_clears_drift() {
    let mut pipeline = FeedPipeline::new(&FeederConfig::default(), None);
    let first = parse_payload(&payload([0x10, 0, 0, 0x70, 0x90, 0x80, 0x80, 0, 0]), 37).unwrap();
    pipeline.process(first[0], false, &no_sticks);
    let gone = parse_payload(&payload([0x00, 0, 0, 0, 0, 0, 0, 0, 0]), 37).unwrap();
    let (_, _, layered) = pipeline.process(gone[0], false, &no_sticks);
    assert_eq!(layered, None);
    assert_eq!(feed_step(true, &layered), FeedStep::Unplug);
    let back = parse_payload(&payload([0x10, 0, 0, 0x90, 0x70, 0x80, 0x80, 0, 0]), 37).unwrap();
    let (_, _, layered) = pipeline.process(back[0], false, &no_sticks);
    let s = layered.unwrap().main_stick;
    assert_eq!((s.x, s.y), (0x80, 0x80));
}

#[test]
fn scaled_rest_position_gives_zero_axes() {
    let mut config = FeederConfig::default();
    config.scale_num = 3;
    config.scale_den = 2;
    let mut pipeline = FeedPipeline::new(&config, None);
    let rest = parse_payload(&payload([0x10, 0, 0, 0x70, 0x90, 0x70, 0x90, 0, 0]), 37).unwrap();
    let (_, _, layered) = pipeline.process(rest[0], false, &no_sticks);
    let layered = layered.unwrap();
    assert_eq!((layered.main_stick.x, layered.main_stick.y), (0x80, 0x80));
    let pad = input_to_xinput(TriggerMode::Analog, &layered);
    assert_eq!((pad.thumb_lx, pad.thumb_ly, pad.thumb_rx, pad.thumb_ry), (0, 0, 0, 0));
}

use gcfeeder::calibration::{
    Calibration, CalibrationError, StickCalibration, SticksCalibration, TriggerCalibration, TriggersCalibration,
};
use gcfeeder::center::CenterCalibration;
use gcfeeder::input::{Input, Stick};
use gcfeeder::layer::{apply_layers, LayerImpl};
use gcfeeder::scaling::AnalogScaling;

fn at(main: (u8, u8), c: (u8, u8), lt: u8, rt: u8) -> Input {
    let mut i = Input::default();
    i.main_stick = Stick::new(main.0, main.1);
    i.c_stick = Stick::new(c.0, c.1);
    i.left_trigger = lt;
    i.right_trigger = rt;
    i
}

fn no_sticks(_: SticksCalibration, i: Input) -> Result<Input, CalibrationError> {
    Ok(i)
}

#[test]
fn center_calibration_captures_first_sample() {
    let mut c = CenterCalibration::new();
    let first = c.apply(Some(at((0x70, 0x90), (0x85, 0x7B), 10, 3))).unwrap();
    assert_eq!(first.main_stick, Stick::new(0x80, 0x80));
    assert_eq!(first.c_stick, Stick::new(0x80, 0x80));
    assert_eq!((first.left_trigger, first.right_trigger), (0, 0));
    let next = c.apply(Some(at((0xF8, 0x05), (0x80, 0x80), 250, 2))).unwrap();
    assert_eq!(next.main_stick, Stick::new(0xFF, 0x00));
    assert_eq!(next.c_stick, Stick::new(0x7B, 0x85));
    assert_eq!((next.left_trigger, next.right_trigger), (240, 0));
}

#[test]
fn center_calibration_cleared_by_disconnect() {
    let mut c = CenterCalibration::new();
    c.apply(Some(at((0x70, 0x70), (0x80, 0x80), 0, 0)));
    assert_eq!(c.apply(None), None);
    let again = c.apply(Some(at((0x90, 0x90), (0x80, 0x80), 0, 0))).unwrap();
    assert_eq!(again.main_stick, Stick::new(0x80, 0x80));
}

#[test]
fn unit_scale_is_identity() {
    let s = AnalogScaling::new(1, 1);
    assert!(s.is_identity());
    for n in 0..=255u8 {
        let i = at((n, 255 - n), (n, n), 7, 9);
        assert_eq!(s.apply(Some(i)), Some(i));
    }
}

#[test]
fn scaling_about_center() {
    let s = AnalogScaling::new(3, 2);
    assert!(!s.is_identity());
    let out = s.apply(Some(at((0x80, 0x90), (0x70, 0xF0), 0, 0))).unwrap();
    assert_eq!(out.main_stick, Stick::new(0x80, 0x98));
    assert_eq!(out.c_stick, Stick::new(0x68, 0xFF));
    let half = AnalogScaling::new(1, 2);
    assert_eq!(half.scale_stick(Stick::new(0x81, 0x00)), Stick::new(0x81, 0x40));
}

#[test]
fn scale_then_center_scenario() {
    let mut layers = vec![
        LayerImpl::CenterCalibration(CenterCalibration::new()),
        LayerImpl::AnalogScaling(AnalogScaling::new(3, 2)),
    ];
    let out = apply_layers(&mut layers, Some(at((0x70, 0x90), (0x70, 0x90), 0, 0)), &no_sticks);
    let out = out.unwrap();
    assert_eq!(out.main_stick, Stick::new(0x80, 0x80));
    assert_eq!(out.c_stick, Stick::new(0x80, 0x80));
}

#[test]
fn trigger_calibration_values() {
    let t = TriggerCalibration { min: 10, max: 200 };
    assert_eq!(t.map(105), Ok(128));
    assert_eq!(t.map(10), Ok(0));
    assert_eq!(t.map(200), Ok(255));
    assert_eq!(t.map(0), Ok(0));
    assert_eq!(t.map(255), Ok(255));
    let mut last = 0;
    for v in 10..=200u8 {
        let m = t.map(v).unwrap();
        assert!(m >= last);
        last = m;
    }
    assert_eq!(TriggerCalibration { min: 5, max: 5 }.map(5), Err(CalibrationError::BadCalibration));
    assert_eq!(TriggerCalibration { min: 6, max: 5 }.map(5), Err(CalibrationError::BadCalibration));
}

#[test]
fn bad_trigger_calibration_is_skipped_afterwards() {
    let bad = TriggersCalibration {
        left_trigger: TriggerCalibration { min: 9, max: 9 },
        right_trigger: TriggerCalibration::default(),
    };
    let mut c = Calibration::new(None, Some(bad));
    let i = at((1, 2), (3, 4), 50, 60);
    assert_eq!(c.apply(Some(i), None), Some(i));
    assert!(c.trigger_bad);
    assert_eq!(c.apply(Some(i), None), Some(i));
}

#[test]
fn stick_calibration_error_marks_bad() {
    let mut c = Calibration::new(Some(SticksCalibration::default()), None);
    let i = at((1, 2), (3, 4), 5, 6);
    let fail = |_: SticksCalibration, _: Input| Err(CalibrationError::BadCalibration);
    assert_eq!(c.apply_with(Some(i), &fail), Some(i));
    assert!(c.stick_bad);
    assert!(c.active_sticks().is_none());
    let moved = |_: SticksCalibration, mut i: Input| {
        i.main_stick = Stick::new(0, 0);
        Ok(i)
    };
    assert_eq!(c.apply_with(Some(i), &moved), Some(i));
}

#[test]
fn trigger_calibration_layer_remaps() {
    let t = TriggersCalibration {
        left_trigger: TriggerCalibration { min: 10, max: 200 },
        right_trigger: TriggerCalibration { min: 0, max: 255 },
    };
    let mut c = Calibration::new(None, Some(t));
    let out = c.apply(Some(at((1, 2), (3, 4), 105, 77)), None).unwrap();
    assert_eq!((out.left_trigger, out.right_trigger), (128, 77));
    assert_eq!(c.apply(None, None), None);
}

#[test]
fn pipeline_keeps_disconnects() {
    let mut layers = vec![
        LayerImpl::CenterCalibration(CenterCalibration::new()),
        LayerImpl::AnalogScaling(AnalogScaling::new(2, 1)),
        LayerImpl::Calibration(Calibration::new(None, None)),
    ];
    let x = at((0x80, 0x80), (0x80, 0x80), 0, 0);
    let stream = [None, None, Some(x), Some(x), None, Some(x)];
    let out: Vec<bool> = stream
        .iter()
        .map(|i| apply_layers(&mut layers, *i, &no_sticks).is_some())
        .collect();
    assert_eq!(out, vec![false, false, true, true, false, true]);
    assert_eq!(layers[0].name(), "Centered");
    assert_eq!(layers[1].name(), "Scaled");
    assert_eq!(layers[2].name(), "Calibrated");
}

#[test]
fn notch_sector_contains_direction() {
    let cal = StickCalibration::default();
    let angle = |x: f64, y: f64| (y - 128.0).atan2(x - 128.0);
    let notch = |i: usize| angle(cal.notch_points[i][0] as f64, cal.notch_points[i][1] as f64);
    for step in 0..360 {
        let theta = (step as f64 + 0.5) * std::f64::consts::PI / 180.0;
        let x = (128.0 + 100.0 * theta.cos()).round();
        let y = (128.0 + 100.0 * theta.sin()).round();
        let q = cal.quadrant(Stick::new(x as u8, y as u8));
        assert!(q < 8);
        let a = angle(x, y);
        let start = notch(q);
        let end = notch((q + 7) % 8);
        if start <= end {
            assert!(start <= a && a <= end, "step {step}: sector {q}");
        } else {
            assert!(a >= start || a <= end, "step {step}: wrap sector {q}");
        }
    }
    assert_eq!(cal.quadrant(Stick::new(200, 230)), 1);
    assert_eq!(cal.quadrant(Stick::new(130, 10)), 4);
}

#[test]
fn collinear_sector_is_unsolvable() {
    let mut cal = StickCalibration::default();
    assert!((0..8).all(|q| cal.sector_solvable(q)));
    cal.notch_points[1] = [0x80, 0x80];
    assert!(!cal.sector_solvable(1));
    assert!(!cal.sector_solvable(2));
    assert!(cal.sector_solvable(3));
}

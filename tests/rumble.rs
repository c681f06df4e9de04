use gcfeeder::rumble::{PatternRumbler, PatternState};

fn six_polls(strength: u8) -> Vec<bool> {
    let mut r = PatternRumbler::new();
    r.update_strength(strength);
    (0..6).map(|_| r.poll_rumble()).collect()
}

#[test]
fn strength_128_pattern() {
    assert_eq!(PatternState::new(128).index, 3);
    assert_eq!(six_polls(128), vec![true, false, true, false, true, false]);
}

#[test]
fn strength_zero_never_rumbles() {
    let mut r = PatternRumbler::new();
    r.update_strength(0);
    for _ in 0..13 {
        assert!(!r.peek_rumble());
        r.poll_rumble();
    }
}

#[test]
fn strength_full_always_rumbles() {
    let mut r = PatternRumbler::new();
    r.update_strength(255);
    for _ in 0..13 {
        assert!(r.peek_rumble());
        r.poll_rumble();
    }
}

#[test]
fn duty_cycle_matches_index() {
    for s in 0..=255u8 {
        let index = PatternState::new(s).index;
        let expected = if s == 0 { 0 } else { 1 + (s as usize - 1) * 6 / 255 };
        assert_eq!(index, expected);
        let mut r = PatternRumbler::new();
        r.update_strength(s);
        r.poll_rumble();
        r.poll_rumble();
        let on = (0..6).filter(|_| r.poll_rumble()).count();
        assert_eq!(on, index);
    }
}

#[test]
fn peek_does_not_advance() {
    let mut r = PatternRumbler::new();
    r.update_strength(1);
    assert!(r.peek_rumble());
    assert!(r.peek_rumble());
    assert!(r.poll_rumble());
    assert!(!r.peek_rumble());
}

#[test]
fn update_restarts_phase() {
    let mut r = PatternRumbler::new();
    r.update_strength(128);
    r.poll_rumble();
    r.update_strength(128);
    assert!(r.peek_rumble());
}

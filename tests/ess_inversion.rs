use gcfeeder::ess::{gc_to_n64, EssInversion, EssLayer, NormalizedMap, Quadrant, MAP_LEN};
use gcfeeder::input::{stick_range, Input, Stick, StickRange};

#[test]
fn qudrant_works() {
    let StickRange {
        center: c,
        radius: r,
    } = stick_range();

    let tests = [
        ([c + 0x30, c], [0x30, 0x00], Quadrant::One),
        ([c - 0x20, c + 0x05], [0x20, 0x05], Quadrant::Two),
        ([c, c - 0x01], [0x00, 0x01], Quadrant::Four),
        ([c - 0x01, c + 0x01], [0x01, 0x01], Quadrant::Two),
        ([c - r, c + r], [r, r], Quadrant::Two),
    ];

    for (original, expected, expected_q) in tests.into_iter() {
        let (q, coords) = Quadrant::normalize(original);
        assert_eq!(
            q, expected_q,
            "expected quadrant {q:?} of {original:?} to be {expected_q:?}"
        );
        assert_eq!(
            coords, expected,
            "expected normalized coords {coords:?} to be {expected:?}"
        );
        let coords = q.denormalize(coords);
        assert_eq!(
            coords, original,
            "expected denormalized coords {coords:?} to match original {original:?}"
        );
    }
}

#[test]
fn gc_to_n64_works() {
    let tests = [
        ([0, 0], [0, 0]),
        ([10, 5], [8, 4]),
        ([0x30, 0x00], [0x25, 0x00]),
        ([0x7F, 0x60], [0x7F, 0x7E]),
        ([0x7F, 0x7F], [0x7F, 0x7F]),
        ([60, 60], [51, 51]),
    ];

    for (coord, expected) in tests.into_iter() {
        let mapped = gc_to_n64(coord);
        assert_eq!(
            mapped, expected,
            "expected f({coord:?}) = {expected:?}, was {mapped:?}",
        );
    }
}

#[test]
fn quadrant_round_trip_every_point() {
    for x in 0..=255u8 {
        for y in 0..=255u8 {
            let (q, n) = Quadrant::normalize([x, y]);
            assert_eq!(q, Quadrant::of([x, y]));
            assert!(n[0] <= 0x80 && n[1] <= 0x80);
            assert_eq!(q.denormalize(n), [x, y]);
        }
    }
}

#[test]
fn quadrant_round_trip_at_zero_axis() {
    let (q, n) = Quadrant::normalize([0, 0x80]);
    assert_eq!(q, Quadrant::Two);
    assert_eq!(n, [0x80, 0x00]);
    assert_eq!(q.denormalize(n), [0, 0x80]);
}

#[test]
fn quadrant_of_center_axes() {
    assert_eq!(Quadrant::of([0x80, 0x80]), Quadrant::One);
    assert_eq!(Quadrant::of([0x7F, 0x80]), Quadrant::Two);
    assert_eq!(Quadrant::of([0x7F, 0x7F]), Quadrant::Three);
    assert_eq!(Quadrant::of([0x80, 0x7F]), Quadrant::Four);
}

fn identity_table() -> Vec<u8> {
    let mut t = vec![0u8; MAP_LEN];
    for y in 0..128usize {
        for x in 0..128usize {
            let i = 2 * (y * 128 + x);
            t[i] = x as u8;
            t[i + 1] = y as u8;
        }
    }
    t
}

#[test]
fn normalized_map_checks_length() {
    assert!(NormalizedMap::new(vec![0u8; 10]).is_none());
    assert!(NormalizedMap::new(vec![0u8; MAP_LEN]).is_some());
}

#[test]
fn normalized_map_reads_pairs() {
    let mut t = vec![0u8; MAP_LEN];
    let i = 2 * (5 * 128 + 3);
    t[i] = 40;
    t[i + 1] = 41;
    let map = NormalizedMap::new(t).unwrap();
    assert_eq!(map.map([3, 5]), [40, 41]);
    assert_eq!(map.map([5, 3]), [0, 0]);
}

#[test]
fn ess_layer_inverts_main_stick_only() {
    let map = NormalizedMap::new(identity_table()).unwrap();
    let layer = EssLayer {
        variant: EssInversion::Z64Gc,
        map,
    };
    let mut input = Input::default();
    input.main_stick = Stick::new(0xA0, 0x80);
    input.c_stick = Stick::new(0x12, 0x34);
    input.button_a = true;
    let out = layer.apply(Some(input)).unwrap();
    // (0xA0, 0x80) lies in quadrant one at (0x20, 0x00); no swap;
    // ceil(32 * 16/21) = 25; the identity table keeps it; back to 0x80 + 25.
    assert_eq!(out.main_stick, Stick::new(0x80 + 25, 0x80));
    assert_eq!(out.c_stick, input.c_stick);
    assert!(out.button_a);
    assert_eq!(layer.apply(None), None);
}

#[test]
fn ess_layer_swaps_on_normalized_axes() {
    let map = NormalizedMap::new(identity_table()).unwrap();
    let layer = EssLayer {
        variant: EssInversion::MmVc,
        map,
    };
    let mut input = Input::default();
    // Normalizes to (0x70, 0x10): x dominates, so no swap although y > x raw.
    input.main_stick = Stick::new(0x10, 0x70);
    let out = layer.apply(Some(input)).unwrap();
    let scaled = gc_to_n64([0x70, 0x10]);
    assert_eq!(out.main_stick, Stick::new(0x80 - scaled[0], 0x80 - scaled[1]));
}

#[test]
fn ess_layer_swaps_when_y_dominates() {
    let map = NormalizedMap::new(identity_table()).unwrap();
    let layer = EssLayer {
        variant: EssInversion::OotVc,
        map,
    };
    let mut input = Input::default();
    input.main_stick = Stick::new(0x80, 0x80 + 0x30);
    let out = layer.apply(Some(input)).unwrap();
    // swapped to (0x30, 0), scaled to (0x25, 0), swapped back.
    assert_eq!(out.main_stick, Stick::new(0x80, 0x80 + 0x25));
}

#[test]
fn ess_variant_names() {
    assert_eq!(EssInversion::OotVc.name(), "OoT VC ESS");
    assert_eq!(EssInversion::MmVc.name(), "MM VC ESS");
    assert_eq!(EssInversion::Z64Gc.name(), "Z64 GC ESS");
    assert_eq!(EssInversion::apply_scaling([10, 5]), [8, 4]);
}

use gcfeeder::adapter::{
    inputs_from_payload, is_adapter, parse_payload, pick_endpoints, reset_rumble_payload,
    rumble_payload, AdapterError, Endpoints, FromPortError, Port,
};
use gcfeeder::input::{Input, Rumble, Stick};

fn payload_with(port: usize, record: [u8; 9]) -> [u8; 37] {
    let mut p = [0u8; 37];
    p[0] = 0x21;
    p[1 + 9 * port..1 + 9 * port + 9].copy_from_slice(&record);
    p
}

#[test]
fn plugged_iff_kind_nibble_set() {
    for kind in 0..=255u8 {
        let p = payload_with(2, [kind, 0, 0, 0, 0, 0, 0, 0, 0]);
        let inputs = parse_payload(&p, 37).unwrap();
        assert_eq!(inputs[2].is_some(), kind >> 4 != 0);
        assert!(inputs[0].is_none() && inputs[1].is_none() && inputs[3].is_none());
    }
}

#[test]
fn button_bits_follow_layout() {
    let names = |i: &Input| {
        [
            i.button_a, i.button_b, i.button_x, i.button_y, i.button_left, i.button_right,
            i.button_down, i.button_up, i.button_start, i.button_z, i.button_r, i.button_l,
        ]
    };
    for k in 0..12 {
        let (b1, b2) = if k < 8 { (1u8 << k, 0u8) } else { (0u8, 1u8 << (k - 8)) };
        let p = payload_with(0, [0x10, b1, b2, 1, 2, 3, 4, 5, 6]);
        let i = inputs_from_payload(&p)[0].unwrap();
        let pressed = names(&i);
        for j in 0..12 {
            assert_eq!(pressed[j], j == k, "bit {k} set, button {j}");
        }
        assert_eq!(i.main_stick, Stick::new(1, 2));
        assert_eq!(i.c_stick, Stick::new(3, 4));
        assert_eq!((i.left_trigger, i.right_trigger), (5, 6));
    }
}

#[test]
fn hold_a_on_port_one() {
    let p = payload_with(0, [0x10, 0x01, 0x00, 0x80, 0x80, 0x80, 0x80, 0, 0]);
    let inputs = parse_payload(&p, 37).unwrap();
    assert!(inputs[0].unwrap().button_a);
    assert!(inputs[1].is_none() && inputs[2].is_none() && inputs[3].is_none());
}

#[test]
fn short_or_bad_header_is_invalid() {
    let mut p = payload_with(0, [0x10, 0, 0, 0, 0, 0, 0, 0, 0]);
    assert_eq!(parse_payload(&p, 36), Err(AdapterError::InvalidPayload));
    p[0] = 0x22;
    assert_eq!(parse_payload(&p, 37), Err(AdapterError::InvalidPayload));
}

#[test]
fn rumble_packets() {
    let r = rumble_payload([Rumble::On, Rumble::Off, Rumble::On, Rumble::Off]);
    assert_eq!(r, [0x11, 1, 0, 1, 0]);
    assert_eq!(reset_rumble_payload(), [0x11, 0, 0, 0, 0]);
}

#[test]
fn ports_and_indices() {
    let all = Port::all();
    for (i, p) in all.iter().enumerate() {
        assert_eq!(p.index(), i);
        assert_eq!(p.channel(), i);
        assert_eq!(Port::try_from_index(i), Ok(*p));
    }
    assert_eq!(Port::try_from_index(4), Err(FromPortError::OutOfRange));
}

#[test]
fn device_and_endpoints() {
    assert!(is_adapter(0x057E, 0x0337));
    assert!(!is_adapter(0x057E, 0x0338));
    let eps = vec![(true, 0x81), (false, 0x02), (true, 0x83)];
    assert_eq!(pick_endpoints(&eps), Endpoints { in_: 0x81, out: 0x02 });
    assert_eq!(pick_endpoints(&Vec::new()), Endpoints { in_: 0, out: 0 });
}

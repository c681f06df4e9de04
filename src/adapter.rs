use vstd::prelude::*;

use crate::input::{bit, Input, Rumble, Stick};

verus! {

pub const VENDOR_ID: u16 = 0x057E;

pub const PRODUCT_ID: u16 = 0x0337;

/// Length of one input interrupt transfer.
pub const PAYLOAD_LEN: usize = 37;

/// First byte of a valid input payload (the HID descriptor type).
pub const PAYLOAD_HEADER: u8 = 0x21;

/// First byte of a rumble packet.
pub const RUMBLE_HEADER: u8 = 0x11;

/// The byte written to the out endpoint when a session opens.
pub const INIT_COMMAND: u8 = 0x13;

/// Length of one port record inside an input payload.
pub const PORT_RECORD_LEN: usize = 9;

pub const PORT_COUNT: usize = 4;

/// One of the adapter's four controller ports.
#[derive(Clone, Copy, Debug, PartialEq, Eq, Structural)]
pub enum Port {
    One,
    Two,
    Three,
    Four,
}

impl Port {
    pub open spec fn index_of(self) -> nat {
        match self {
            Port::One => 0,
            Port::Two => 1,
            Port::Three => 2,
            Port::Four => 3,
        }
    }

    pub open spec fn at(i: nat) -> Port
        recommends
            i < 4,
    {
        if i == 0 {
            Port::One
        } else if i == 1 {
            Port::Two
        } else if i == 2 {
            Port::Three
        } else {
            Port::Four
        }
    }

    /// The port's fixed index, 0 to 3.
    pub fn index(self) -> (r: usize)
        ensures
            r == self.index_of(),
            r < PORT_COUNT,
    {
        match self {
            Port::One => 0,
            Port::Two => 1,
            Port::Three => 2,
            Port::Four => 3,
        }
    }

    /// The port's channel number; the same as its index.
    pub fn channel(self) -> (r: usize)
        ensures
            r == self.index_of(),
    {
        self.index()
    }

    /// The four ports in index order.
    pub fn all() -> (r: [Port; 4])
        ensures
            forall|i: int| 0 <= i < 4 ==> (#[trigger] r[i]).index_of() == i,
    {
        [Port::One, Port::Two, Port::Three, Port::Four]
    }

    /// The port with index `i`; an index past the last port is refused.
    pub fn try_from_index(i: usize) -> (r: Result<Port, FromPortError>)
        ensures
            i < PORT_COUNT <==> r is Ok,
            r is Ok ==> r->Ok_0.index_of() == i,
            r is Err ==> r->Err_0 == FromPortError::OutOfRange,
    {
        if i == 0 {
            Ok(Port::One)
        } else if i == 1 {
            Ok(Port::Two)
        } else if i == 2 {
            Ok(Port::Three)
        } else if i == 3 {
            Ok(Port::Four)
        } else {
            Err(FromPortError::OutOfRange)
        }
    }
}

#[derive(Clone, Copy, Debug, PartialEq, Eq, Structural)]
pub enum FromPortError {
    OutOfRange,
}

/// Failure of one adapter operation.
#[derive(Clone, Copy, Debug, PartialEq, Eq, Structural)]
pub enum AdapterError {
    /// The transfer did not finish within its time budget.
    Timeout,
    /// Any other transport failure.
    Transport,
    /// No device with the adapter's vendor and product id is attached.
    NoDevice,
    /// The payload had the wrong length or header byte.
    InvalidPayload,
}

/// Whether a device descriptor names the adapter.
pub fn is_adapter(vendor_id: u16, product_id: u16) -> (r: bool)
    ensures
        r == (vendor_id == VENDOR_ID && product_id == PRODUCT_ID),
{
    vendor_id == VENDOR_ID && product_id == PRODUCT_ID
}

/// The in and out endpoint addresses of an adapter session.
#[derive(Clone, Copy, Debug, PartialEq, Eq, Structural)]
pub struct Endpoints {
    pub in_: u8,
    pub out: u8,
}

/// Whether entry `j` of `eps` is the first endpoint of direction `dir_in`.
pub open spec fn first_of(eps: Seq<(bool, u8)>, dir_in: bool, j: int) -> bool {
    &&& 0 <= j < eps.len()
    &&& eps[j].0 == dir_in
    &&& forall|k: int| 0 <= k < j ==> eps[k].0 != dir_in
}

/// The address of the first endpoint of `eps` whose direction is `dir_in`,
/// or 0 if there is none.
pub open spec fn picked(eps: Seq<(bool, u8)>, dir_in: bool, a: u8) -> bool {
    if exists|j: int| 0 <= j < eps.len() && eps[j].0 == dir_in {
        exists|j: int| #[trigger] first_of(eps, dir_in, j) && a == eps[j].1
    } else {
        a == 0
    }
}

/// Picks the endpoints from the configuration's endpoint descriptors, listed
/// in order as (is-in, address): the first of each direction is taken; a
/// missing direction stays at address 0.
pub fn pick_endpoints(eps: &Vec<(bool, u8)>) -> (r: Endpoints)
    ensures
        picked(eps@, true, r.in_),
        picked(eps@, false, r.out),
{
    let mut in_: Option<u8> = None;
    let mut out: Option<u8> = None;
    let ghost mut in_at: int = 0;
    let ghost mut out_at: int = 0;
    let mut i: usize = 0;
    while i < eps.len()
        invariant
            i <= eps.len(),
            in_ is None <==> forall|k: int| 0 <= k < i ==> eps@[k].0 != true,
            in_ is Some ==> first_of(eps@, true, in_at) && in_at < i && in_.unwrap() == eps@[in_at].1,
            out is None <==> forall|k: int| 0 <= k < i ==> eps@[k].0 != false,
            out is Some ==> first_of(eps@, false, out_at) && out_at < i && out.unwrap() == eps@[out_at].1,
        decreases eps.len() - i,
    {
        let (is_in, address) = eps[i];
        if is_in && in_.is_none() {
            in_ = Some(address);
            proof { in_at = i as int; }
        } else if !is_in && out.is_none() {
            out = Some(address);
            proof { out_at = i as int; }
        }
        i = i + 1;
    }
    let r = Endpoints {
        in_: match in_ { Some(a) => a, None => 0 },
        out: match out { Some(a) => a, None => 0 },
    };
    proof {
        if in_ is Some {
            assert(first_of(eps@, true, in_at));
        }
        if out is Some {
            assert(first_of(eps@, false, out_at));
        }
    }
    r
}

/// Offset of port `i`'s record inside an input payload.
pub open spec fn record_offset(i: nat) -> nat {
    1 + 9 * i
}

/// Whether the record of port `i` reports a plugged controller (its kind
/// nibble is not zero).
pub open spec fn plugged(payload: Seq<u8>, i: nat) -> bool {
    payload[record_offset(i) as int] >> 4u8 != 0
}

/// What port `i` reports in `payload`.
pub open spec fn port_input(payload: Seq<u8>, i: nat) -> Option<Input> {
    if plugged(payload, i) {
        Some(Input::decoded(payload.subrange(record_offset(i) + 1int, record_offset(i) + 9int)))
    } else {
        None
    }
}

/// Decodes the record of port `index` from a full input payload.
pub fn port_from_payload(payload: &[u8; 37], index: usize) -> (r: Option<Input>)
    requires
        index < PORT_COUNT,
    ensures
        r == port_input(payload@, index as nat),
{
    let base: usize = 1 + 9 * index;
    let kind = payload[base] >> 4u8;
    if kind == 0 {
        return None;
    }
    let b1 = payload[base + 1];
    let b2 = payload[base + 2];
    let r = Input {
        button_a: b1 & (1u8 << 0u8) != 0,
        button_b: b1 & (1u8 << 1u8) != 0,
        button_x: b1 & (1u8 << 2u8) != 0,
        button_y: b1 & (1u8 << 3u8) != 0,
        button_left: b1 & (1u8 << 4u8) != 0,
        button_right: b1 & (1u8 << 5u8) != 0,
        button_down: b1 & (1u8 << 6u8) != 0,
        button_up: b1 & (1u8 << 7u8) != 0,
        button_start: b2 & (1u8 << 0u8) != 0,
        button_z: b2 & (1u8 << 1u8) != 0,
        button_r: b2 & (1u8 << 2u8) != 0,
        button_l: b2 & (1u8 << 3u8) != 0,
        main_stick: Stick { x: payload[base + 3], y: payload[base + 4] },
        c_stick: Stick { x: payload[base + 5], y: payload[base + 6] },
        left_trigger: payload[base + 7],
        right_trigger: payload[base + 8],
    };
    proof {
        let rec = payload@.subrange(base + 1, base + 9);
        assert(rec[0] == b1 && rec[1] == b2);
        assert(r == Input::decoded(rec));
    }
    Some(r)
}

/// Splits a full input payload into what each of the four ports reports.
pub fn inputs_from_payload(payload: &[u8; 37]) -> (r: [Option<Input>; 4])
    ensures
        forall|i: int| 0 <= i < 4 ==> #[trigger] r[i] == port_input(payload@, i as nat),
{
    let mut inputs: [Option<Input>; 4] = [None, None, None, None];
    let mut i: usize = 0;
    while i < PORT_COUNT
        invariant
            i <= PORT_COUNT,
            forall|j: int| 0 <= j < i ==> #[trigger] inputs[j] == port_input(payload@, j as nat),
        decreases PORT_COUNT - i,
    {
        let v = port_from_payload(payload, i);
        inputs[i] = v;
        i = i + 1;
    }
    inputs
}

/// Checks one completed interrupt read and splits it per port: the read must
/// have filled all 37 bytes and start with the HID header byte.
pub fn parse_payload(payload: &[u8; 37], bytes_read: usize) -> (r: Result<[Option<Input>; 4], AdapterError>)
    ensures
        (bytes_read == PAYLOAD_LEN && payload[0] == PAYLOAD_HEADER) <==> r is Ok,
        r is Ok ==> forall|i: int| 0 <= i < 4 ==> #[trigger] r->Ok_0[i] == port_input(payload@, i as nat),
        r is Ok ==> forall|i: int| 0 <= i < 4 ==> (#[trigger] r->Ok_0[i] is Some
            <==> payload[1 + 9 * i] >> 4u8 != 0),
        r is Err ==> r->Err_0 == AdapterError::InvalidPayload,
{
    if bytes_read == PAYLOAD_LEN && payload[0] == PAYLOAD_HEADER {
        Ok(inputs_from_payload(payload))
    } else {
        Err(AdapterError::InvalidPayload)
    }
}

/// The five-byte rumble packet for the four ports' commands.
pub fn rumble_payload(states: [Rumble; 4]) -> (r: [u8; 5])
    ensures
        r[0] == RUMBLE_HEADER,
        forall|i: int| 0 <= i < 4 ==> #[trigger] r[i + 1] == states[i].byte_of(),
{
    [RUMBLE_HEADER, states[0].to_byte(), states[1].to_byte(), states[2].to_byte(), states[3].to_byte()]
}

/// The packet that silences every port.
pub fn reset_rumble_payload() -> (r: [u8; 5])
    ensures
        r[0] == RUMBLE_HEADER,
        forall|i: int| 1 <= i < 5 ==> #[trigger] r[i] == 0,
{
    let states = [Rumble::Off, Rumble::Off, Rumble::Off, Rumble::Off];
    let r = rumble_payload(states);
    assert forall|i: int| 1 <= i < 5 implies #[trigger] r[i] == 0 by {
        assert(r[(i - 1) + 1] == states[i - 1].byte_of());
    }
    r
}

} // verus!

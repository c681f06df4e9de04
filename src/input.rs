use vstd::prelude::*;

verus! {

/// Center and radius of an 8-bit stick axis.
#[derive(Clone, Copy, Debug, PartialEq, Eq, Structural)]
pub struct StickRange {
    pub center: u8,
    pub radius: u8,
}

impl StickRange {
    /// The range covers only byte values: `center +- radius` stays in 0..=255.
    pub open spec fn wf(&self) -> bool {
        self.radius <= self.center && self.center + self.radius <= 255
    }

    pub fn new(center: u8, radius: u8) -> (r: StickRange)
        ensures
            r.center == center,
            r.radius == radius,
    {
        StickRange { center, radius }
    }

    /// `n` clamped into `[min, max]`.
    pub fn clamp(n: i16, min: i16, max: i16) -> (r: i16)
        requires
            min <= max,
        ensures
            r == (if n < min { min } else if n > max { max } else { n }),
    {
        if n < min {
            min
        } else if n > max {
            max
        } else {
            n
        }
    }

    /// Clamps a position to the square of half-width `radius` around the
    /// center.
    pub fn restrict(self, x: i16, y: i16) -> (r: (u8, u8))
        requires
            self.wf(),
        ensures
            r.0 == StickRange::clamp_spec(x as int, self.center - self.radius, self.center + self.radius),
            r.1 == StickRange::clamp_spec(y as int, self.center - self.radius, self.center + self.radius),
    {
        let lo = self.center as i16 - self.radius as i16;
        let hi = self.center as i16 + self.radius as i16;
        let xx = StickRange::clamp(x, lo, hi);
        let yy = StickRange::clamp(y, lo, hi);
        (xx as u8, yy as u8)
    }

    pub open spec fn clamp_spec(n: int, min: int, max: int) -> int {
        if n < min { min } else if n > max { max } else { n }
    }
}

/// Lower and upper bound of an 8-bit analog trigger.
#[derive(Clone, Copy, Debug, PartialEq, Eq, Structural)]
pub struct AnalogRange {
    pub min: u8,
    pub max: u8,
}

pub const STICK_CENTER: u8 = 0x80;

pub const STICK_RADIUS: u8 = 0x7F;

pub const TRIGGER_MIN: u8 = 0x00;

pub const TRIGGER_MAX: u8 = 0xFF;

/// The stick range every axis is mapped to: center 0x80, radius 0x7F.
pub fn stick_range() -> (r: StickRange)
    ensures
        r.center == STICK_CENTER,
        r.radius == STICK_RADIUS,
{
    StickRange { center: STICK_CENTER, radius: STICK_RADIUS }
}

/// The trigger range: 0x00 released, 0xFF fully pressed.
pub fn trigger_range() -> (r: AnalogRange)
    ensures
        r.min == TRIGGER_MIN,
        r.max == TRIGGER_MAX,
{
    AnalogRange { min: TRIGGER_MIN, max: TRIGGER_MAX }
}

/// `n` clamped into the range of a byte.
pub open spec fn clamp_u8(n: int) -> u8 {
    if n < 0 {
        0
    } else if n > 255 {
        255
    } else {
        n as u8
    }
}

/// Converts `n` to a byte, saturating at both ends.
pub fn saturate_u8(n: i32) -> (r: u8)
    ensures
        r == clamp_u8(n as int),
{
    if n < 0 {
        0
    } else if n > 255 {
        255
    } else {
        n as u8
    }
}

/// Two-valued motor command.
#[derive(Clone, Copy, Debug, PartialEq, Eq, Structural)]
pub enum Rumble {
    Off,
    On,
}

impl Rumble {
    pub open spec fn byte_of(self) -> u8 {
        match self {
            Rumble::Off => 0,
            Rumble::On => 1,
        }
    }

    /// Wire encoding of the command: 0 for off, 1 for on.
    pub fn to_byte(self) -> (r: u8)
        ensures
            r == self.byte_of(),
    {
        match self {
            Rumble::Off => 0,
            Rumble::On => 1,
        }
    }

    pub fn from_bool(b: bool) -> (r: Rumble)
        ensures
            r == (if b { Rumble::On } else { Rumble::Off }),
    {
        if b {
            Rumble::On
        } else {
            Rumble::Off
        }
    }
}

impl Default for Rumble {
    fn default() -> (r: Rumble)
        ensures
            r == Rumble::Off,
    {
        Rumble::Off
    }
}

/// Position of an analog stick, one byte per axis.
#[derive(Clone, Copy, Debug, PartialEq, Eq, Structural)]
pub struct Stick {
    pub x: u8,
    pub y: u8,
}

impl Stick {
    pub fn new(x: u8, y: u8) -> (r: Stick)
        ensures
            r == (Stick { x, y }),
    {
        Stick { x, y }
    }

    pub open spec fn centered() -> Stick {
        Stick { x: STICK_CENTER, y: STICK_CENTER }
    }

    pub fn from_coords(c: [u8; 2]) -> (r: Stick)
        ensures
            r.x == c[0],
            r.y == c[1],
    {
        Stick { x: c[0], y: c[1] }
    }

    pub fn to_coords(self) -> (r: [u8; 2])
        ensures
            r[0] == self.x,
            r[1] == self.y,
    {
        [self.x, self.y]
    }
}

impl Default for Stick {
    fn default() -> (r: Stick)
        ensures
            r == Stick::centered(),
    {
        Stick { x: STICK_CENTER, y: STICK_CENTER }
    }
}

/// Snapshot of one controller: twelve buttons, two sticks, two triggers.
#[derive(Clone, Copy, Debug, PartialEq, Eq, Structural)]
pub struct Input {
    pub button_a: bool,
    pub button_b: bool,
    pub button_x: bool,
    pub button_y: bool,
    pub button_left: bool,
    pub button_right: bool,
    pub button_down: bool,
    pub button_up: bool,
    pub button_start: bool,
    pub button_z: bool,
    pub button_r: bool,
    pub button_l: bool,
    pub main_stick: Stick,
    pub c_stick: Stick,
    pub left_trigger: u8,
    pub right_trigger: u8,
}

/// Whether bit `k` of `b` is set.
pub open spec fn bit(b: u8, k: u8) -> bool {
    b & (1u8 << k) != 0
}

impl Input {
    /// The neutral snapshot: no button held, sticks centered, triggers released.
    pub open spec fn neutral() -> Input {
        Input {
            button_a: false,
            button_b: false,
            button_x: false,
            button_y: false,
            button_left: false,
            button_right: false,
            button_down: false,
            button_up: false,
            button_start: false,
            button_z: false,
            button_r: false,
            button_l: false,
            main_stick: Stick::centered(),
            c_stick: Stick::centered(),
            left_trigger: TRIGGER_MIN,
            right_trigger: TRIGGER_MIN,
        }
    }

    /// The snapshot that a port record `[kind, b1, b2, mx, my, cx, cy, lt, rt]`
    /// describes, given its bytes after the kind byte.
    pub open spec fn decoded(b: Seq<u8>) -> Input
        recommends
            b.len() >= 8,
    {
        Input {
            button_a: bit(b[0], 0),
            button_b: bit(b[0], 1),
            button_x: bit(b[0], 2),
            button_y: bit(b[0], 3),
            button_left: bit(b[0], 4),
            button_right: bit(b[0], 5),
            button_down: bit(b[0], 6),
            button_up: bit(b[0], 7),
            button_start: bit(b[1], 0),
            button_z: bit(b[1], 1),
            button_r: bit(b[1], 2),
            button_l: bit(b[1], 3),
            main_stick: Stick { x: b[2], y: b[3] },
            c_stick: Stick { x: b[4], y: b[5] },
            left_trigger: b[6],
            right_trigger: b[7],
        }
    }
}

/// The first button byte of a port record: A, B, X, Y, left, right, down, up
/// at bits 0 to 7.
pub open spec fn buttons_low(i: Input) -> u8 {
    (if i.button_a { 1u8 } else { 0u8 }) | (if i.button_b { 2u8 } else { 0u8 })
        | (if i.button_x { 4u8 } else { 0u8 }) | (if i.button_y { 8u8 } else { 0u8 })
        | (if i.button_left { 16u8 } else { 0u8 }) | (if i.button_right { 32u8 } else { 0u8 })
        | (if i.button_down { 64u8 } else { 0u8 }) | (if i.button_up { 128u8 } else { 0u8 })
}

/// The second button byte: start, Z, R, L at bits 0 to 3.
pub open spec fn buttons_high(i: Input) -> u8 {
    (if i.button_start { 1u8 } else { 0u8 }) | (if i.button_z { 2u8 } else { 0u8 })
        | (if i.button_r { 4u8 } else { 0u8 }) | (if i.button_l { 8u8 } else { 0u8 })
}

proof fn lemma_bits8(a0: bool, a1: bool, a2: bool, a3: bool, a4: bool, a5: bool, a6: bool, a7: bool)
    ensures
        ({
            let b = (if a0 { 1u8 } else { 0u8 }) | (if a1 { 2u8 } else { 0u8 })
                | (if a2 { 4u8 } else { 0u8 }) | (if a3 { 8u8 } else { 0u8 })
                | (if a4 { 16u8 } else { 0u8 }) | (if a5 { 32u8 } else { 0u8 })
                | (if a6 { 64u8 } else { 0u8 }) | (if a7 { 128u8 } else { 0u8 });
            &&& bit(b, 0) == a0 &&& bit(b, 1) == a1 &&& bit(b, 2) == a2 &&& bit(b, 3) == a3
            &&& bit(b, 4) == a4 &&& bit(b, 5) == a5 &&& bit(b, 6) == a6 &&& bit(b, 7) == a7
        }),
{
    let b = (if a0 { 1u8 } else { 0u8 }) | (if a1 { 2u8 } else { 0u8 })
        | (if a2 { 4u8 } else { 0u8 }) | (if a3 { 8u8 } else { 0u8 })
        | (if a4 { 16u8 } else { 0u8 }) | (if a5 { 32u8 } else { 0u8 })
        | (if a6 { 64u8 } else { 0u8 }) | (if a7 { 128u8 } else { 0u8 });
    assert(
        (b & (1u8 << 0u8) != 0) == a0 && (b & (1u8 << 1u8) != 0) == a1
        && (b & (1u8 << 2u8) != 0) == a2 && (b & (1u8 << 3u8) != 0) == a3
        && (b & (1u8 << 4u8) != 0) == a4 && (b & (1u8 << 5u8) != 0) == a5
        && (b & (1u8 << 6u8) != 0) == a6 && (b & (1u8 << 7u8) != 0) == a7
    ) by (bit_vector)
        requires
            b == (if a0 { 1u8 } else { 0u8 }) | (if a1 { 2u8 } else { 0u8 })
                | (if a2 { 4u8 } else { 0u8 }) | (if a3 { 8u8 } else { 0u8 })
                | (if a4 { 16u8 } else { 0u8 }) | (if a5 { 32u8 } else { 0u8 })
                | (if a6 { 64u8 } else { 0u8 }) | (if a7 { 128u8 } else { 0u8 });
}

/// The eight bytes of a port record after its kind byte that describe `i`.
pub open spec fn encoded(i: Input) -> Seq<u8> {
    seq![
        buttons_low(i),
        buttons_high(i),
        i.main_stick.x,
        i.main_stick.y,
        i.c_stick.x,
        i.c_stick.y,
        i.left_trigger,
        i.right_trigger,
    ]
}

impl Input {
    /// Writes the snapshot in the adapter's port record layout (without the
    /// kind byte): two button bytes, the four stick axes, the two triggers.
    pub fn to_bytes(&self) -> (r: [u8; 8])
        ensures
            r@ == encoded(*self),
    {
        let lo: u8 = (if self.button_a { 1u8 } else { 0u8 }) | (if self.button_b { 2u8 } else { 0u8 })
            | (if self.button_x { 4u8 } else { 0u8 }) | (if self.button_y { 8u8 } else { 0u8 })
            | (if self.button_left { 16u8 } else { 0u8 }) | (if self.button_right { 32u8 } else { 0u8 })
            | (if self.button_down { 64u8 } else { 0u8 }) | (if self.button_up { 128u8 } else { 0u8 });
        let hi: u8 = (if self.button_start { 1u8 } else { 0u8 }) | (if self.button_z { 2u8 } else { 0u8 })
            | (if self.button_r { 4u8 } else { 0u8 }) | (if self.button_l { 8u8 } else { 0u8 });
        let r = [
            lo,
            hi,
            self.main_stick.x,
            self.main_stick.y,
            self.c_stick.x,
            self.c_stick.y,
            self.left_trigger,
            self.right_trigger,
        ];
        assert(r@ =~= encoded(*self));
        r
    }

    /// Reads a snapshot from the port record layout that `to_bytes` writes;
    /// bits 4 to 7 of the second button byte are ignored.
    pub fn from_bytes(b: [u8; 8]) -> (r: Input)
        ensures
            r == Input::decoded(b@),
    {
        let b1 = b[0];
        let b2 = b[1];
        Input {
            button_a: b1 & (1u8 << 0u8) != 0,
            button_b: b1 & (1u8 << 1u8) != 0,
            button_x: b1 & (1u8 << 2u8) != 0,
            button_y: b1 & (1u8 << 3u8) != 0,
            button_left: b1 & (1u8 << 4u8) != 0,
            button_right: b1 & (1u8 << 5u8) != 0,
            button_down: b1 & (1u8 << 6u8) != 0,
            button_up: b1 & (1u8 << 7u8) != 0,
            button_start: b2 & (1u8 << 0u8) != 0,
            button_z: b2 & (1u8 << 1u8) != 0,
            button_r: b2 & (1u8 << 2u8) != 0,
            button_l: b2 & (1u8 << 3u8) != 0,
            main_stick: Stick { x: b[2], y: b[3] },
            c_stick: Stick { x: b[4], y: b[5] },
            left_trigger: b[6],
            right_trigger: b[7],
        }
    }
}

/// Encoding a snapshot and decoding the bytes gives the snapshot back.
pub proof fn lemma_bytes_round_trip(i: Input)
    ensures
        Input::decoded(encoded(i)) == i,
{
    lemma_bits8(i.button_a, i.button_b, i.button_x, i.button_y, i.button_left, i.button_right,
        i.button_down, i.button_up);
    lemma_bits8(i.button_start, i.button_z, i.button_r, i.button_l, false, false, false, false);
    assert(buttons_high(i) == (if i.button_start { 1u8 } else { 0u8 }) | (if i.button_z { 2u8 } else { 0u8 })
        | (if i.button_r { 4u8 } else { 0u8 }) | (if i.button_l { 8u8 } else { 0u8 })
        | 0u8 | 0u8 | 0u8 | 0u8) by (bit_vector);
}

impl Default for Input {
    fn default() -> (r: Input)
        ensures
            r == Input::neutral(),
    {
        Input {
            button_a: false,
            button_b: false,
            button_x: false,
            button_y: false,
            button_left: false,
            button_right: false,
            button_down: false,
            button_up: false,
            button_start: false,
            button_z: false,
            button_r: false,
            button_l: false,
            main_stick: Stick { x: STICK_CENTER, y: STICK_CENTER },
            c_stick: Stick { x: STICK_CENTER, y: STICK_CENTER },
            left_trigger: TRIGGER_MIN,
            right_trigger: TRIGGER_MIN,
        }
    }
}

} // verus!

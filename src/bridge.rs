use vstd::prelude::*;

use crate::input::{Input, Rumble, STICK_CENTER};

verus! {

/// How the analog triggers and the L/R buttons reach the virtual pad.
#[derive(Clone, Copy, Debug, PartialEq, Eq, Structural)]
pub enum TriggerMode {
    /// Trigger bytes pass through; the L/R buttons are unused.
    Analog,
    /// Trigger bytes are 0x00 or 0xFF from the L/R buttons.
    Digital,
    /// The larger of the analog and the digital value.
    Combination,
    /// Trigger bytes pass through; L/R raise the thumb-click buttons.
    StickClick,
}

/// Kind of virtual pad presented to the host.
#[derive(Clone, Copy, Debug, PartialEq, Eq, Structural)]
pub enum Pad {
    Xbox360,
}

/// Virtual gamepad back end.
#[derive(Clone, Copy, Debug, PartialEq, Eq, Structural)]
pub enum Driver {
    ViGEm,
    UInput,
}

/// Per-profile settings of the virtual pad.
#[derive(Clone, Copy, Debug, PartialEq, Eq, Structural)]
pub struct BridgeConfig {
    pub trigger_mode: TriggerMode,
    pub pad: Pad,
}

/// Trigger bytes and thumb-click buttons after the trigger mode.
#[derive(Clone, Copy, Debug, PartialEq, Eq, Structural)]
pub struct TriggerResult {
    pub l: u8,
    pub r: u8,
    pub ls: bool,
    pub rs: bool,
}

/// State of an Xbox-360-style pad: a 16-bit button word, two trigger bytes
/// and four signed 16-bit axes.
#[derive(Clone, Copy, Debug, PartialEq, Eq, Structural)]
pub struct PadState {
    pub buttons: u16,
    pub left_trigger: u8,
    pub right_trigger: u8,
    pub thumb_lx: i16,
    pub thumb_ly: i16,
    pub thumb_rx: i16,
    pub thumb_ry: i16,
}

pub open spec fn triggers_for(mode: TriggerMode, i: Input) -> TriggerResult {
    match mode {
        TriggerMode::Analog => TriggerResult { l: i.left_trigger, r: i.right_trigger, ls: false, rs: false },
        TriggerMode::Digital => TriggerResult {
            l: if i.button_l { 255 } else { 0 },
            r: if i.button_r { 255 } else { 0 },
            ls: false,
            rs: false,
        },
        TriggerMode::Combination => TriggerResult {
            l: if i.button_l { 255 } else { i.left_trigger },
            r: if i.button_r { 255 } else { i.right_trigger },
            ls: false,
            rs: false,
        },
        TriggerMode::StickClick => TriggerResult {
            l: i.left_trigger,
            r: i.right_trigger,
            ls: i.button_l,
            rs: i.button_r,
        },
    }
}

/// `n` clamped into the range of an `i16`.
pub open spec fn clamp_i16(n: int) -> i16 {
    if n < -32768 {
        -32768i16
    } else if n > 32767 {
        32767i16
    } else {
        n as i16
    }
}

/// An 8-bit axis (center 0x80, radius 0x7F) on the signed 16-bit range:
/// `ceil((c - 0x80) / 0x7F * 32767)`, saturated.
pub open spec fn axis_16(c: u8) -> i16 {
    clamp_i16(-((-(c - STICK_CENTER) * 32767) / 127))
}

/// Whether bit `k` of the button word is set.
pub open spec fn word_bit(w: u16, k: u16) -> bool {
    w & (1u16 << k) != 0
}

/// The button word's layout: up, down, left, right, start, back, left thumb,
/// right thumb, left shoulder, right shoulder (Z), two unused, A, B, X, Y.
pub open spec fn buttons_match(w: u16, i: Input, t: TriggerResult) -> bool {
    &&& word_bit(w, 0) == i.button_up
    &&& word_bit(w, 1) == i.button_down
    &&& word_bit(w, 2) == i.button_left
    &&& word_bit(w, 3) == i.button_right
    &&& word_bit(w, 4) == i.button_start
    &&& !word_bit(w, 5)
    &&& word_bit(w, 6) == t.ls
    &&& word_bit(w, 7) == t.rs
    &&& !word_bit(w, 8)
    &&& word_bit(w, 9) == i.button_z
    &&& !word_bit(w, 10)
    &&& !word_bit(w, 11)
    &&& word_bit(w, 12) == i.button_a
    &&& word_bit(w, 13) == i.button_b
    &&& word_bit(w, 14) == i.button_x
    &&& word_bit(w, 15) == i.button_y
}

/// Applies `mode` to the triggers and L/R buttons of `input`.
pub fn apply_trigger_mode(mode: TriggerMode, input: &Input) -> (r: TriggerResult)
    ensures
        r == triggers_for(mode, *input),
{
    match mode {
        TriggerMode::Analog => TriggerResult {
            l: input.left_trigger,
            r: input.right_trigger,
            ls: false,
            rs: false,
        },
        TriggerMode::Digital => TriggerResult {
            l: if input.button_l { u8::MAX } else { u8::MIN },
            r: if input.button_r { u8::MAX } else { u8::MIN },
            ls: false,
            rs: false,
        },
        TriggerMode::Combination => TriggerResult {
            l: if input.button_l { u8::MAX } else { input.left_trigger },
            r: if input.button_r { u8::MAX } else { input.right_trigger },
            ls: false,
            rs: false,
        },
        TriggerMode::StickClick => TriggerResult {
            l: input.left_trigger,
            r: input.right_trigger,
            ls: input.button_l,
            rs: input.button_r,
        },
    }
}

/// Maps an 8-bit axis onto the signed 16-bit range, rounding away from zero
/// on the positive side (ceiling).
pub fn stick_coord_to_xinput(coord: u8) -> (r: i16)
    ensures
        r == axis_16(coord),
{
    let v: i32 = (coord as i32 - STICK_CENTER as i32) * 32767;
    let c: i32 = if v >= 0 {
        (v + 126) / 127
    } else {
        -((-v) / 127)
    };
    proof {
        let vi: int = v as int;
        if v >= 0 {
            assert((vi + 126) / 127 == -((-vi) / 127)) by (nonlinear_arith)
                requires vi >= 0;
        }
    }
    if c < -32768 {
        -32768
    } else if c > 32767 {
        32767
    } else {
        c as i16
    }
}

fn flag(b: bool, k: u16) -> (r: u16)
    requires
        k < 16,
    ensures
        r == (if b { 1u16 << k } else { 0u16 }),
{
    if b {
        1u16 << k
    } else {
        0
    }
}

/// Packs the pad's button word from `input` and the trigger-mode result.
pub fn pack_buttons(input: &Input, t: &TriggerResult) -> (r: u16)
    ensures
        buttons_match(r, *input, *t),
{
    let r = flag(input.button_up, 0) | flag(input.button_down, 1) | flag(input.button_left, 2)
        | flag(input.button_right, 3) | flag(input.button_start, 4) | flag(t.ls, 6)
        | flag(t.rs, 7) | flag(input.button_z, 9) | flag(input.button_a, 12)
        | flag(input.button_b, 13) | flag(input.button_x, 14) | flag(input.button_y, 15);
    let (a0, a1, a2, a3, a4, a6, a7, a9, a12, a13, a14, a15) = (
        input.button_up, input.button_down, input.button_left, input.button_right,
        input.button_start, t.ls, t.rs, input.button_z, input.button_a, input.button_b,
        input.button_x, input.button_y,
    );
    assert(
        (r & (1u16 << 0u16) != 0) == a0 && (r & (1u16 << 1u16) != 0) == a1
        && (r & (1u16 << 2u16) != 0) == a2 && (r & (1u16 << 3u16) != 0) == a3
        && (r & (1u16 << 4u16) != 0) == a4 && (r & (1u16 << 5u16) == 0)
        && (r & (1u16 << 6u16) != 0) == a6 && (r & (1u16 << 7u16) != 0) == a7
        && (r & (1u16 << 8u16) == 0) && (r & (1u16 << 9u16) != 0) == a9
        && (r & (1u16 << 10u16) == 0) && (r & (1u16 << 11u16) == 0)
        && (r & (1u16 << 12u16) != 0) == a12 && (r & (1u16 << 13u16) != 0) == a13
        && (r & (1u16 << 14u16) != 0) == a14 && (r & (1u16 << 15u16) != 0) == a15
    ) by (bit_vector)
        requires
            r == (if a0 { 1u16 << 0u16 } else { 0u16 }) | (if a1 { 1u16 << 1u16 } else { 0u16 })
                | (if a2 { 1u16 << 2u16 } else { 0u16 }) | (if a3 { 1u16 << 3u16 } else { 0u16 })
                | (if a4 { 1u16 << 4u16 } else { 0u16 }) | (if a6 { 1u16 << 6u16 } else { 0u16 })
                | (if a7 { 1u16 << 7u16 } else { 0u16 }) | (if a9 { 1u16 << 9u16 } else { 0u16 })
                | (if a12 { 1u16 << 12u16 } else { 0u16 }) | (if a13 { 1u16 << 13u16 } else { 0u16 })
                | (if a14 { 1u16 << 14u16 } else { 0u16 }) | (if a15 { 1u16 << 15u16 } else { 0u16 });
    r
}

pub open spec fn pad_state_of(mode: TriggerMode, i: Input) -> PadState {
    let t = triggers_for(mode, i);
    PadState {
        buttons: 0,
        left_trigger: t.l,
        right_trigger: t.r,
        thumb_lx: axis_16(i.main_stick.x),
        thumb_ly: axis_16(i.main_stick.y),
        thumb_rx: axis_16(i.c_stick.x),
        thumb_ry: axis_16(i.c_stick.y),
    }
}

/// The pad state that mirrors `input` under `mode`.
pub fn input_to_xinput(mode: TriggerMode, input: &Input) -> (r: PadState)
    ensures
        r == (PadState { buttons: r.buttons, ..pad_state_of(mode, *input) }),
        buttons_match(r.buttons, *input, triggers_for(mode, *input)),
{
    let t = apply_trigger_mode(mode, input);
    PadState {
        buttons: pack_buttons(input, &t),
        left_trigger: t.l,
        right_trigger: t.r,
        thumb_lx: stick_coord_to_xinput(input.main_stick.x),
        thumb_ly: stick_coord_to_xinput(input.main_stick.y),
        thumb_rx: stick_coord_to_xinput(input.c_stick.x),
        thumb_ry: stick_coord_to_xinput(input.c_stick.y),
    }
}

/// Value of a hat axis from its two directions: 1 for positive alone, -1 for
/// negative alone, 0 for neither or both.
pub open spec fn hat_of(pos: bool, neg: bool) -> i32 {
    if pos && !neg {
        1i32
    } else if neg && !pos {
        -1i32
    } else {
        0i32
    }
}

pub fn hat_state(pos: bool, neg: bool) -> (r: i32)
    ensures
        r == hat_of(pos, neg),
{
    if pos && !neg {
        1
    } else if neg && !pos {
        -1
    } else {
        0
    }
}

/// One report of the Linux joystick device: eight key states (A, B, X, Y,
/// Start, Z, L, R) and eight absolute axes (X, Y, RX, RY, Z, RZ, hat X,
/// hat Y). The vertical stick axes are flipped (`255 - y`), since the
/// device's y grows downwards.
pub struct JoystickReport {
    pub keys: [bool; 8],
    pub axes: [i32; 8],
}

pub open spec fn report_matches(r: JoystickReport, i: Input) -> bool {
    &&& r.keys@ == seq![i.button_a, i.button_b, i.button_x, i.button_y, i.button_start, i.button_z, i.button_l, i.button_r]
    &&& r.axes@ == seq![
        i.main_stick.x as i32,
        (255 - i.main_stick.y) as i32,
        i.c_stick.x as i32,
        (255 - i.c_stick.y) as i32,
        i.left_trigger as i32,
        i.right_trigger as i32,
        hat_of(i.button_right, i.button_left),
        hat_of(i.button_up, i.button_down),
    ]
}

/// The joystick report that mirrors `input`.
pub fn joystick_report(input: &Input) -> (r: JoystickReport)
    ensures
        report_matches(r, *input),
{
    let keys = [
        input.button_a,
        input.button_b,
        input.button_x,
        input.button_y,
        input.button_start,
        input.button_z,
        input.button_l,
        input.button_r,
    ];
    let axes = [
        input.main_stick.x as i32,
        (255 - input.main_stick.y) as i32,
        input.c_stick.x as i32,
        (255 - input.c_stick.y) as i32,
        input.left_trigger as i32,
        input.right_trigger as i32,
        hat_state(input.button_right, input.button_left),
        hat_state(input.button_up, input.button_down),
    ];
    let r = JoystickReport { keys, axes };
    assert(r.keys@ =~= seq![input.button_a, input.button_b, input.button_x, input.button_y, input.button_start, input.button_z, input.button_l, input.button_r]);
    assert(r.axes@ =~= seq![
        input.main_stick.x as i32,
        (255 - input.main_stick.y) as i32,
        input.c_stick.x as i32,
        (255 - input.c_stick.y) as i32,
        input.left_trigger as i32,
        input.right_trigger as i32,
        hat_of(input.button_right, input.button_left),
        hat_of(input.button_up, input.button_down),
    ]);
    r
}

/// What a bridge does with one fed input.
#[derive(Clone, Copy, Debug, PartialEq, Eq, Structural)]
pub enum FeedStep {
    /// Disconnected while attached: unplug the virtual device.
    Unplug,
    /// Disconnected and nothing attached: nothing to do.
    Idle,
    /// Connected with nothing attached: plug in, then mirror the input.
    PlugAndUpdate,
    /// Connected and attached: mirror the input.
    Update,
}

/// The step for feeding `input` to a bridge whose virtual device is
/// `attached` or not.
pub fn feed_step(attached: bool, input: &Option<Input>) -> (r: FeedStep)
    ensures
        r == (match *input {
            None => if attached { FeedStep::Unplug } else { FeedStep::Idle },
            Some(_) => if attached { FeedStep::Update } else { FeedStep::PlugAndUpdate },
        }),
{
    match input {
        None => if attached { FeedStep::Unplug } else { FeedStep::Idle },
        Some(_) => if attached { FeedStep::Update } else { FeedStep::PlugAndUpdate },
    }
}

/// Whether the virtual device is attached after `step`.
pub fn attached_after(step: FeedStep) -> (r: bool)
    ensures
        r == (step == FeedStep::PlugAndUpdate || step == FeedStep::Update),
{
    match step {
        FeedStep::PlugAndUpdate | FeedStep::Update => true,
        FeedStep::Unplug | FeedStep::Idle => false,
    }
}

/// The single strength a host rumble request stands for: the larger of the
/// two motor bytes.
pub fn rumble_strength(large_motor: u8, small_motor: u8) -> (r: u8)
    ensures
        r == (if large_motor >= small_motor { large_motor } else { small_motor }),
{
    if large_motor >= small_motor {
        large_motor
    } else {
        small_motor
    }
}

/// The rumble command for one slot of the pattern.
pub fn rumble_of_slot(on: bool) -> (r: Rumble)
    ensures
        r == (if on { Rumble::On } else { Rumble::Off }),
{
    Rumble::from_bool(on)
}

} // verus!

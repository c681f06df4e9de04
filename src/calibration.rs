use vstd::prelude::*;

use crate::input::{Input, Stick, STICK_CENTER, TRIGGER_MAX, TRIGGER_MIN};

verus! {

/// Number of notch points on a stick gate.
pub const NOTCHES: usize = 8;

/// A calibration whose geometry or range cannot be used.
#[derive(Clone, Copy, Debug, PartialEq, Eq, Structural)]
pub enum CalibrationError {
    BadCalibration,
}

/// The eight measured notch points of a stick, starting at +y and going
/// clockwise, and its measured center.
#[derive(Clone, Copy, Debug, PartialEq, Eq)]
pub struct StickCalibration {
    pub notch_points: [[u8; 2]; 8],
    pub center: [u8; 2],
}

/// The ideal gate: the eight points at radius 0x7F around the center 0x80,
/// from +y clockwise in 45-degree steps, rounded to the nearest byte.
pub open spec fn ideal_notches() -> Seq<[u8; 2]> {
    seq![[128u8, 255u8], [218u8, 218u8], [255u8, 128u8], [218u8, 38u8],
        [128u8, 1u8], [38u8, 38u8], [1u8, 128u8], [38u8, 218u8]]
}

impl Default for StickCalibration {
    /// The ideal gate around the stick center.
    fn default() -> (r: StickCalibration)
        ensures
            r.notch_points@ == ideal_notches(),
            r.center == [STICK_CENTER, STICK_CENTER],
    {
        let r = StickCalibration {
            notch_points: [[128, 255], [218, 218], [255, 128], [218, 38],
                [128, 1], [38, 38], [1, 128], [38, 218]],
            center: [STICK_CENTER, STICK_CENTER],
        };
        assert(r.notch_points@ =~= ideal_notches());
        r
    }
}

/// Which part of the circle a direction's `atan2` angle lies in:
/// 0 for (-pi, 0), 1 for the angle 0 (and the zero vector), 2 for (0, pi),
/// 3 for pi.
pub open spec fn dir_class(d: (int, int)) -> int {
    if d.1 < 0 {
        0
    } else if d.1 == 0 && d.0 >= 0 {
        1
    } else if d.1 > 0 {
        2
    } else {
        3
    }
}

/// Whether the `atan2` angle of `a` is smaller than that of `b`, decided
/// exactly: by class, then, inside an open half-plane, by the sign of the
/// cross product.
pub open spec fn angle_lt(a: (int, int), b: (int, int)) -> bool {
    dir_class(a) < dir_class(b) || (dir_class(a) == dir_class(b) && (dir_class(a) == 0
        || dir_class(a) == 2) && a.0 * b.1 - a.1 * b.0 > 0)
}

impl StickCalibration {
    /// Direction of notch `i` from the measured center.
    pub open spec fn notch_dir(self, i: int) -> (int, int) {
        (self.notch_points[i][0] - self.center[0], self.notch_points[i][1] - self.center[1])
    }

    /// Direction of `pos` from the measured center.
    pub open spec fn pos_dir(self, pos: Stick) -> (int, int) {
        (pos.x - self.center[0], pos.y - self.center[1])
    }

    /// The first notch of largest angle among the first `n`.
    pub open spec fn max_notch_upto(self, n: nat) -> int
        decreases n,
    {
        if n <= 1 {
            0
        } else {
            let b = self.max_notch_upto((n - 1) as nat);
            if angle_lt(self.notch_dir(b), self.notch_dir(n - 1)) {
                n - 1
            } else {
                b
            }
        }
    }

    pub open spec fn max_notch(self) -> int {
        self.max_notch_upto(8)
    }

    /// Whether the sector that starts at notch `i` and ends at notch `i - 1`
    /// (cyclically) holds the direction `p`. The sector of the notch of
    /// largest angle is the one that wraps around through +-pi.
    pub open spec fn in_sector(self, i: int, p: (int, int)) -> bool {
        let end = self.notch_dir((i + 7) % 8);
        if i == self.max_notch() {
            angle_lt(self.notch_dir(i), p) || angle_lt(p, end)
        } else {
            !angle_lt(p, self.notch_dir(i)) && !angle_lt(end, p)
        }
    }

    /// Index of the notch that starts the sector holding `pos`, as seen from
    /// the measured center. The wrap-around sector is tried first, then the
    /// others in order; if none holds the point, the wrap-around one is
    /// returned.
    pub fn quadrant(&self, pos: Stick) -> (r: usize)
        ensures
            r < NOTCHES,
            (exists|i: int| 0 <= i < 8 && #[trigger] self.in_sector(i, self.pos_dir(pos)))
                ==> self.in_sector(r as int, self.pos_dir(pos)),
            self.in_sector(self.max_notch(), self.pos_dir(pos)) ==> r == self.max_notch(),
            r != self.max_notch() ==> forall|j: int| 0 <= j < r ==> !#[trigger] self.in_sector(j, self.pos_dir(pos)),
            r == self.max_notch() ==> self.in_sector(r as int, self.pos_dir(pos))
                || forall|j: int| 0 <= j < 8 ==> !#[trigger] self.in_sector(j, self.pos_dir(pos)),
    {
        let p = (pos.x as i32 - self.center[0] as i32, pos.y as i32 - self.center[1] as i32);
        let mut m: usize = 0;
        let mut i: usize = 1;
        while i < NOTCHES
            invariant
                1 <= i <= NOTCHES,
                m as int == self.max_notch_upto(i as nat),
                m < i,
            decreases NOTCHES - i,
        {
            if angle_less(self.direction(m), self.direction(i)) {
                m = i;
            }
            i = i + 1;
        }
        let end = self.direction((m + NOTCHES - 1) % NOTCHES);
        if angle_less(self.direction(m), p) || angle_less(p, end) {
            return m;
        }
        proof {
            assert(!self.in_sector(m as int, self.pos_dir(pos)));
        }
        let mut k: usize = 0;
        while k < NOTCHES
            invariant
                k <= NOTCHES,
                m as int == self.max_notch(),
                m < NOTCHES,
                p == (self.pos_dir(pos).0 as i32, self.pos_dir(pos).1 as i32),
                !self.in_sector(m as int, self.pos_dir(pos)),
                forall|j: int| 0 <= j < k ==> !#[trigger] self.in_sector(j, self.pos_dir(pos)),
            decreases NOTCHES - k,
        {
            if k != m {
                let start = self.direction(k);
                let end = self.direction((k + NOTCHES - 1) % NOTCHES);
                if !angle_less(p, start) && !angle_less(end, p) {
                    return k;
                }
            }
            k = k + 1;
        }
        m
    }

    /// Twice the signed area of the triangle spanned by the stick center and
    /// notches `q` and `q - 1` (cyclically).
    pub open spec fn sector_area(self, q: int) -> int {
        let l = self.notch_points[q];
        let r = self.notch_points[(q + 7) % 8];
        (l[0] - STICK_CENTER) * (r[1] - STICK_CENTER) - (r[0] - STICK_CENTER) * (l[1] - STICK_CENTER)
    }

    /// Whether the remap of sector `q` can be solved: the system that sends
    /// the stick center and the sector's two notches to their ideal places
    /// is singular exactly when the three points are collinear.
    pub fn sector_solvable(&self, q: usize) -> (r: bool)
        requires
            q < NOTCHES,
        ensures
            r == (self.sector_area(q as int) != 0),
    {
        let l = self.notch_points[q];
        let rt = self.notch_points[(q + NOTCHES - 1) % NOTCHES];
        let c = STICK_CENTER as i32;
        let (lx, ly, rx, ry) = (l[0] as i32 - c, l[1] as i32 - c, rt[0] as i32 - c, rt[1] as i32 - c);
        assert(-32768 <= lx * ry <= 32768) by (nonlinear_arith)
            requires -128 <= lx <= 127, -128 <= ry <= 127;
        assert(-32768 <= rx * ly <= 32768) by (nonlinear_arith)
            requires -128 <= rx <= 127, -128 <= ly <= 127;
        lx * ry - rx * ly != 0
    }

    fn direction(&self, i: usize) -> (r: (i32, i32))
        requires
            i < NOTCHES,
        ensures
            r.0 as int == self.notch_dir(i as int).0,
            r.1 as int == self.notch_dir(i as int).1,
    {
        (
            self.notch_points[i][0] as i32 - self.center[0] as i32,
            self.notch_points[i][1] as i32 - self.center[1] as i32,
        )
    }
}

/// The sectors of the ideal gate cover every direction, so for it
/// `quadrant` always returns a sector that holds the point.
pub proof fn lemma_ideal_gate_covers(c: StickCalibration, p: (int, int))
    requires
        c.notch_points@ == ideal_notches(),
        c.center == [STICK_CENTER, STICK_CENTER],
    ensures
        c.max_notch() == 6,
        exists|i: int| 0 <= i < 8 && #[trigger] c.in_sector(i, p),
{
    assert(c.notch_dir(0) == (0int, 127int));
    assert(c.notch_dir(1) == (90int, 90int));
    assert(c.notch_dir(2) == (127int, 0int));
    assert(c.notch_dir(3) == (90int, -90int));
    assert(c.notch_dir(4) == (0int, -127int));
    assert(c.notch_dir(5) == (-90int, -90int));
    assert(c.notch_dir(6) == (-127int, 0int));
    assert(c.notch_dir(7) == (-90int, 90int));
    reveal_with_fuel(StickCalibration::max_notch_upto, 9);
    assert(c.max_notch_upto(2) == 0);
    assert(c.max_notch_upto(3) == 0);
    assert(c.max_notch_upto(4) == 0);
    assert(c.max_notch_upto(5) == 0);
    assert(c.max_notch_upto(6) == 0);
    assert(c.max_notch_upto(7) == 6);
    assert(c.max_notch() == 6);
    assert(c.in_sector(0, p) || c.in_sector(1, p) || c.in_sector(2, p) || c.in_sector(3, p)
        || c.in_sector(4, p) || c.in_sector(5, p) || c.in_sector(6, p) || c.in_sector(7, p));
}

fn dir_class_of(d: (i32, i32)) -> (r: i32)
    ensures
        r == dir_class((d.0 as int, d.1 as int)),
{
    if d.1 < 0 {
        0
    } else if d.1 == 0 && d.0 >= 0 {
        1
    } else if d.1 > 0 {
        2
    } else {
        3
    }
}

fn angle_less(a: (i32, i32), b: (i32, i32)) -> (r: bool)
    requires
        -255 <= a.0 <= 255,
        -255 <= a.1 <= 255,
        -255 <= b.0 <= 255,
        -255 <= b.1 <= 255,
    ensures
        r == angle_lt((a.0 as int, a.1 as int), (b.0 as int, b.1 as int)),
{
    let ca = dir_class_of(a);
    let cb = dir_class_of(b);
    if ca != cb {
        return ca < cb;
    }
    if ca == 1 || ca == 3 {
        return false;
    }
    assert(-65025 <= a.0 * b.1 <= 65025) by (nonlinear_arith)
        requires -255 <= a.0 <= 255, -255 <= b.1 <= 255;
    assert(-65025 <= a.1 * b.0 <= 65025) by (nonlinear_arith)
        requires -255 <= a.1 <= 255, -255 <= b.0 <= 255;
    a.0 * b.1 - a.1 * b.0 > 0
}

#[derive(Clone, Copy, Debug, PartialEq, Eq)]
pub struct SticksCalibration {
    pub main_stick: StickCalibration,
    pub c_stick: StickCalibration,
}

/// The measured resting and fully pressed values of one trigger.
#[derive(Clone, Copy, Debug, PartialEq, Eq, Structural)]
pub struct TriggerCalibration {
    pub min: u8,
    pub max: u8,
}

#[derive(Clone, Copy, Debug, PartialEq, Eq, Structural)]
pub struct TriggersCalibration {
    pub left_trigger: TriggerCalibration,
    pub right_trigger: TriggerCalibration,
}

impl Default for TriggersCalibration {
    fn default() -> (r: TriggersCalibration)
        ensures
            r.left_trigger == (TriggerCalibration { min: 0, max: 255 }),
            r.right_trigger == (TriggerCalibration { min: 0, max: 255 }),
    {
        TriggersCalibration { left_trigger: TriggerCalibration::default(), right_trigger: TriggerCalibration::default() }
    }
}

impl Default for SticksCalibration {
    fn default() -> (r: SticksCalibration)
        ensures
            r.main_stick.notch_points@ == ideal_notches(),
            r.c_stick.notch_points@ == ideal_notches(),
            r.main_stick.center == [STICK_CENTER, STICK_CENTER],
            r.c_stick.center == [STICK_CENTER, STICK_CENTER],
    {
        SticksCalibration { main_stick: StickCalibration::default(), c_stick: StickCalibration::default() }
    }
}

/// `v` remapped from `[min, max]` onto the full trigger range: the fraction
/// `(v - min) / (max - min)`, clipped to `[0, 1]`, times 255, rounded half up.
pub open spec fn trigger_mapped(min: u8, max: u8, v: u8) -> u8
    recommends
        min < max,
{
    if v <= min {
        TRIGGER_MIN
    } else if v >= max {
        TRIGGER_MAX
    } else {
        ((2 * (v - min) * 255 + (max - min)) / (2 * (max - min) as int)) as u8
    }
}

impl TriggerCalibration {
    pub open spec fn valid(self) -> bool {
        self.min < self.max
    }

    /// Remaps `value` onto the full trigger range; fails when `min >= max`.
    pub fn map(&self, value: u8) -> (r: Result<u8, CalibrationError>)
        ensures
            self.valid() <==> r is Ok,
            r is Ok ==> r->Ok_0 == trigger_mapped(self.min, self.max, value),
            r is Err ==> r->Err_0 == CalibrationError::BadCalibration,
    {
        if self.min >= self.max {
            return Err(CalibrationError::BadCalibration);
        }
        if value <= self.min {
            Ok(TRIGGER_MIN)
        } else if value >= self.max {
            Ok(TRIGGER_MAX)
        } else {
            let span = (self.max - self.min) as u32;
            let offset = (value - self.min) as u32;
            let q = (2 * offset * 255 + span) / (2 * span);
            assert(q <= 255) by (nonlinear_arith)
                requires offset < span, q == (2 * offset * 255 + span) / (2 * span), span > 0;
            Ok(q as u8)
        }
    }
}

impl Default for TriggerCalibration {
    fn default() -> (r: TriggerCalibration)
        ensures
            r.min == 0,
            r.max == 255,
    {
        TriggerCalibration { min: u8::MIN, max: u8::MAX }
    }
}

proof fn lemma_interior_bound(c: TriggerCalibration, v: u8)
    requires
        c.min < v < c.max,
    ensures
        0 <= (2 * (v - c.min) * 255 + (c.max - c.min)) / (2 * (c.max - c.min) as int) <= 255,
{
    let span: int = c.max - c.min;
    let n: int = 2 * (v - c.min) * 255 + span;
    assert(0 <= n / (2 * span) <= 255) by (nonlinear_arith)
        requires v < c.max, c.min < v, span == c.max - c.min, n == 2 * (v - c.min) * 255 + span;
}

/// A valid trigger calibration sends its endpoints to the ends of the
/// trigger range and keeps the order of the values in between.
pub proof fn lemma_trigger_monotone(c: TriggerCalibration, a: u8, b: u8)
    requires
        c.valid(),
        a <= b,
    ensures
        trigger_mapped(c.min, c.max, c.min) == TRIGGER_MIN,
        trigger_mapped(c.min, c.max, c.max) == TRIGGER_MAX,
        trigger_mapped(c.min, c.max, a) <= trigger_mapped(c.min, c.max, b),
{
    let span: int = c.max - c.min;
    if c.min < a && a < c.max {
        lemma_interior_bound(c, a);
    }
    if c.min < b && b < c.max {
        lemma_interior_bound(c, b);
    }
    if c.min < a && b < c.max {
        let na: int = 2 * (a - c.min) * 255 + span;
        let nb: int = 2 * (b - c.min) * 255 + span;
        assert(na <= nb) by (nonlinear_arith)
            requires a <= b, na == 2 * (a - c.min) * 255 + span, nb == 2 * (b - c.min) * 255 + span;
        vstd::arithmetic::div_mod::lemma_div_is_ordered(na, nb, 2 * span);
    }
}

impl TriggersCalibration {
    pub open spec fn mapped(self, input: Input) -> Result<Input, CalibrationError> {
        if self.left_trigger.valid() && self.right_trigger.valid() {
            Ok(Input {
                left_trigger: trigger_mapped(self.left_trigger.min, self.left_trigger.max, input.left_trigger),
                right_trigger: trigger_mapped(self.right_trigger.min, self.right_trigger.max, input.right_trigger),
                ..input
            })
        } else {
            Err(CalibrationError::BadCalibration)
        }
    }

    /// Remaps both triggers of `input`; fails if either calibration is bad.
    pub fn map(&self, input: Input) -> (r: Result<Input, CalibrationError>)
        ensures
            r == self.mapped(input),
    {
        let l = match self.left_trigger.map(input.left_trigger) {
            Ok(v) => v,
            Err(e) => return Err(e),
        };
        let r = match self.right_trigger.map(input.right_trigger) {
            Ok(v) => v,
            Err(e) => return Err(e),
        };
        Ok(Input { left_trigger: l, right_trigger: r, ..input })
    }
}

/// The user calibration layer. A sub-calibration that fails once is marked
/// bad and skipped for the rest of the session.
pub struct Calibration {
    pub stick_data: Option<SticksCalibration>,
    pub trigger_data: Option<TriggersCalibration>,
    pub stick_bad: bool,
    pub trigger_bad: bool,
}

/// What the layer hands on, and whether each part turned bad, given the
/// result of the stick remap (`sticks`, present when the stick part is active).
pub open spec fn calibrated(
    c: Calibration,
    input: Input,
    sticks: Option<Result<Input, CalibrationError>>,
) -> (Input, bool, bool) {
    let stick_active = !c.stick_bad && c.stick_data is Some;
    let (after_sticks, stick_bad) = if stick_active {
        match sticks {
            Some(Ok(i)) => (i, false),
            Some(Err(_)) => (input, true),
            None => (input, false),
        }
    } else {
        (input, c.stick_bad)
    };
    let trigger_active = !c.trigger_bad && c.trigger_data is Some;
    if trigger_active {
        match c.trigger_data.unwrap().mapped(after_sticks) {
            Ok(i) => (i, stick_bad, false),
            Err(_) => (after_sticks, stick_bad, true),
        }
    } else {
        (after_sticks, stick_bad, c.trigger_bad)
    }
}

impl Calibration {
    pub fn new(
        stick_data: Option<SticksCalibration>,
        trigger_data: Option<TriggersCalibration>,
    ) -> (r: Calibration)
        ensures
            r.stick_data == stick_data,
            r.trigger_data == trigger_data,
            !r.stick_bad,
            !r.trigger_bad,
    {
        Calibration { stick_data, trigger_data, stick_bad: false, trigger_bad: false }
    }

    /// The stick calibration the next input must be remapped with, if the
    /// stick part is present and not marked bad.
    pub fn active_sticks(&self) -> (r: Option<SticksCalibration>)
        ensures
            r == (if !self.stick_bad { self.stick_data } else { None }),
    {
        if !self.stick_bad {
            self.stick_data
        } else {
            None
        }
    }

    /// Applies the layer to `input`. `sticks` is the stick remap of `input`
    /// with the calibration that `active_sticks` returned (absent when it
    /// returned none); an error there marks the stick part bad.
    pub fn apply(
        &mut self,
        input: Option<Input>,
        sticks: Option<Result<Input, CalibrationError>>,
    ) -> (r: Option<Input>)
        ensures
            final(self).stick_data == old(self).stick_data,
            final(self).trigger_data == old(self).trigger_data,
            input is None ==> r is None && final(self).stick_bad == old(self).stick_bad
                && final(self).trigger_bad == old(self).trigger_bad,
            input is Some ==> ({
                let (o, sb, tb) = calibrated(*old(self), input.unwrap(), sticks);
                &&& r == Some(o)
                &&& final(self).stick_bad == sb
                &&& final(self).trigger_bad == tb
            }),
    {
        match input {
            None => None,
            Some(i) => {
                let mut cur = i;
                if !self.stick_bad && self.stick_data.is_some() {
                    match sticks {
                        Some(Ok(m)) => {
                            cur = m;
                        },
                        Some(Err(_)) => {
                            self.stick_bad = true;
                        },
                        None => {},
                    }
                }
                if !self.trigger_bad {
                    match self.trigger_data {
                        Some(t) => {
                            match t.map(cur) {
                                Ok(m) => {
                                    cur = m;
                                },
                                Err(_) => {
                                    self.trigger_bad = true;
                                },
                            }
                        },
                        None => {},
                    }
                }
                Some(cur)
            },
        }
    }

    /// Applies the layer to `input`, remapping the sticks with `stick_map`
    /// when the stick part is active.
    pub fn apply_with<F: Fn(SticksCalibration, Input) -> Result<Input, CalibrationError>>(
        &mut self,
        input: Option<Input>,
        stick_map: &F,
    ) -> (r: Option<Input>)
        requires
            forall|c: SticksCalibration, i: Input| stick_map.requires((c, i)),
        ensures
            final(self).stick_data == old(self).stick_data,
            final(self).trigger_data == old(self).trigger_data,
            input is None ==> r is None && final(self).stick_bad == old(self).stick_bad
                && final(self).trigger_bad == old(self).trigger_bad,
            input is Some ==> exists|m: Option<Result<Input, CalibrationError>>| {
                &&& (m is Some <==> (!old(self).stick_bad && old(self).stick_data is Some))
                &&& (m is Some ==> stick_map.ensures(
                    (old(self).stick_data.unwrap(), input.unwrap()),
                    m.unwrap(),
                ))
                &&& r == Some(calibrated(*old(self), input.unwrap(), m).0)
                &&& final(self).stick_bad == calibrated(*old(self), input.unwrap(), m).1
                &&& final(self).trigger_bad == calibrated(*old(self), input.unwrap(), m).2
            },
    {
        let sticks = match input {
            Some(i) => match self.active_sticks() {
                Some(c) => Some(stick_map(c, i)),
                None => None,
            },
            None => None,
        };
        let ghost before = *self;
        let r = self.apply(input, sticks);
        proof {
            if input is Some {
                let w = sticks;
                assert(w is Some ==> stick_map.ensures((before.stick_data.unwrap(), input.unwrap()), w.unwrap()));
            }
        }
        r
    }

    pub fn name(&self) -> &'static str {
        "Calibrated"
    }
}

} // verus!

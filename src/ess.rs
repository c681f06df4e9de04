use vstd::prelude::*;

use crate::input::{clamp_u8, saturate_u8, Input, Stick, STICK_CENTER};

verus! {

/// Side length of a normalized lookup table.
pub const MAP_DIM: usize = 128;

/// Number of bytes in a normalized lookup table: two per (x, y) cell.
pub const MAP_LEN: usize = 32768;

/// Denominator of the exact GC-to-N64 scale factor.
pub const SCALE_DEN: u64 = 723515625;

/// Numerator offset of the exact GC-to-N64 scale factor (80/105 of `SCALE_DEN`).
pub const SCALE_BASE: u64 = 551250000;

/// Which emulator's stick response the inversion undoes.
#[derive(Clone, Copy, Debug, PartialEq, Eq, Structural)]
pub enum EssInversion {
    OotVc,
    MmVc,
    Z64Gc,
}

/// One of the four Cartesian quadrants around the stick center.
#[derive(Clone, Copy, Debug, PartialEq, Eq, Structural)]
pub enum Quadrant {
    One,
    Two,
    Three,
    Four,
}

pub open spec fn quadrant_of(c: [u8; 2]) -> Quadrant {
    if c[0] >= STICK_CENTER {
        if c[1] >= STICK_CENTER { Quadrant::One } else { Quadrant::Four }
    } else {
        if c[1] >= STICK_CENTER { Quadrant::Two } else { Quadrant::Three }
    }
}

/// Distance of an axis value from the center, on the side that `positive`
/// names (0 to 127 on the positive side, 1 to 128 on the negative side).
pub open spec fn fold_axis(v: u8, positive: bool) -> u8 {
    if positive {
        clamp_u8(v - STICK_CENTER)
    } else {
        clamp_u8(STICK_CENTER - v)
    }
}

/// The inverse of `fold_axis`, saturating.
pub open spec fn unfold_axis(v: u8, positive: bool) -> u8 {
    if positive {
        clamp_u8(v + STICK_CENTER)
    } else {
        clamp_u8(STICK_CENTER - v)
    }
}

impl Quadrant {
    pub open spec fn x_positive(self) -> bool {
        self == Quadrant::One || self == Quadrant::Four
    }

    pub open spec fn y_positive(self) -> bool {
        self == Quadrant::One || self == Quadrant::Two
    }

    pub open spec fn normalized(c: [u8; 2]) -> (Quadrant, [u8; 2]) {
        let q = quadrant_of(c);
        (q, [fold_axis(c[0], q.x_positive()), fold_axis(c[1], q.y_positive())])
    }

    pub open spec fn denormalized(self, c: [u8; 2]) -> [u8; 2] {
        [unfold_axis(c[0], self.x_positive()), unfold_axis(c[1], self.y_positive())]
    }

    /// The quadrant that `coords` lie in; the center axes count as positive.
    pub fn of(coords: [u8; 2]) -> (r: Quadrant)
        ensures
            r == quadrant_of(coords),
    {
        if coords[0] >= STICK_CENTER {
            if coords[1] >= STICK_CENTER {
                Quadrant::One
            } else {
                Quadrant::Four
            }
        } else {
            if coords[1] >= STICK_CENTER {
                Quadrant::Two
            } else {
                Quadrant::Three
            }
        }
    }

    /// Moves `coords` into the positive quadrant: each axis becomes its
    /// distance from the center.
    pub fn normalize(coords: [u8; 2]) -> (r: (Quadrant, [u8; 2]))
        ensures
            r == Quadrant::normalized(coords),
    {
        let q = Quadrant::of(coords);
        let x = coords[0] as i32;
        let y = coords[1] as i32;
        let center = STICK_CENTER as i32;
        let nx = match q {
            Quadrant::One | Quadrant::Four => x - center,
            Quadrant::Two | Quadrant::Three => center - x,
        };
        let ny = match q {
            Quadrant::One | Quadrant::Two => y - center,
            Quadrant::Three | Quadrant::Four => center - y,
        };
        let r = (q, [saturate_u8(nx), saturate_u8(ny)]);
        assert(r.1 =~= Quadrant::normalized(coords).1);
        r
    }

    /// Moves positive-quadrant `coords` back into quadrant `self`, saturating.
    pub fn denormalize(self, coords: [u8; 2]) -> (r: [u8; 2])
        ensures
            r == self.denormalized(coords),
    {
        let x = coords[0] as i32;
        let y = coords[1] as i32;
        let center = STICK_CENTER as i32;
        let dx = match self {
            Quadrant::One | Quadrant::Four => x + center,
            Quadrant::Two | Quadrant::Three => center - x,
        };
        let dy = match self {
            Quadrant::One | Quadrant::Two => y + center,
            Quadrant::Three | Quadrant::Four => center - y,
        };
        let r = [saturate_u8(dx), saturate_u8(dy)];
        assert(r =~= self.denormalized(coords));
        r
    }
}

/// Normalizing and then denormalizing into the same quadrant gives back the
/// starting coordinates, for every 8-bit point.
pub proof fn lemma_quadrant_round_trip(c: [u8; 2])
    ensures
        Quadrant::normalized(c).0.denormalized(Quadrant::normalized(c).1) == c,
{
    let (q, n) = Quadrant::normalized(c);
    assert(q.denormalized(n) =~= c);
}

/// Numerator of the GC-to-N64 scale factor over `SCALE_DEN`:
/// `((5x + 2y) / 525)^2 * (7y / 525) * (70/75 - 80/105) + 80/105`
/// equals `(6y(5x + 2y)^2 + SCALE_BASE) / SCALE_DEN` exactly.
pub open spec fn scale_num(x: u8, y: u8) -> int {
    6 * y * (5 * x + 2 * y) * (5 * x + 2 * y) + SCALE_BASE
}

/// `ceil(v * scale(x, y))`, capped at 127.
pub open spec fn scaled_axis(v: u8, x: u8, y: u8) -> u8 {
    let c = (v * scale_num(x, y) + SCALE_DEN - 1) / (SCALE_DEN as int);
    if c > 127 { 127 } else { c as u8 }
}

pub open spec fn gc_to_n64_spec(c: [u8; 2]) -> [u8; 2] {
    [scaled_axis(c[0], c[0], c[1]), scaled_axis(c[1], c[0], c[1])]
}

fn scale_axis(v: u8, num: u64) -> (r: u8)
    requires
        num <= 6 * 255 * 1785 * 1785 + SCALE_BASE,
    ensures
        r == ({
            let c = (v * num + SCALE_DEN - 1) / (SCALE_DEN as int);
            if c > 127 { 127u8 } else { c as u8 }
        }),
{
    assert(v * num <= 255 * (6 * 255 * 1785 * 1785 + SCALE_BASE)) by (nonlinear_arith)
        requires v <= 255, num <= 6 * 255 * 1785 * 1785 + SCALE_BASE;
    let c = (v as u64 * num + SCALE_DEN - 1) / SCALE_DEN;
    if c > 127 {
        127
    } else {
        c as u8
    }
}

/// Scales positive-quadrant GameCube coordinates to the N64 response, in
/// exact rational arithmetic: each axis becomes `ceil(axis * scale)` capped at
/// 127.
pub fn gc_to_n64(coords: [u8; 2]) -> (r: [u8; 2])
    ensures
        r == gc_to_n64_spec(coords),
{
    let x = coords[0] as u64;
    let y = coords[1] as u64;
    let s = 5 * x + 2 * y;
    assert(6 * y * s <= 6 * 255 * 1785) by (nonlinear_arith)
        requires y <= 255, s <= 1785;
    assert(6 * y * s * s <= 6 * 255 * 1785 * 1785) by (nonlinear_arith)
        requires y <= 255, s <= 1785, 6 * y * s <= 6 * 255 * 1785;
    let num = 6 * y * s * s + SCALE_BASE;
    let r = [scale_axis(coords[0], num), scale_axis(coords[1], num)];
    assert(r =~= gc_to_n64_spec(coords));
    r
}

/// A 128 x 128 table of (x, y) byte pairs over the positive quadrant.
pub struct NormalizedMap {
    table: Vec<u8>,
}

impl NormalizedMap {
    pub closed spec fn view(&self) -> Seq<u8> {
        self.table@
    }

    pub open spec fn lookup(&self, c: [u8; 2]) -> [u8; 2] {
        let i = 2 * (c[1] * 128 + c[0]);
        [self@[i], self@[i + 1]]
    }

    pub open spec fn wf(&self) -> bool {
        self@.len() == MAP_LEN
    }

    /// Wraps a table of `MAP_LEN` bytes; a table of any other length is refused.
    pub fn new(table: Vec<u8>) -> (r: Option<NormalizedMap>)
        ensures
            (table@.len() == MAP_LEN) <==> r is Some,
            r is Some ==> r->Some_0@ == table@,
    {
        if table.len() == MAP_LEN {
            Some(NormalizedMap { table })
        } else {
            None
        }
    }

    /// The table's entry for positive-quadrant `coords`.
    pub fn map(&self, coords: [u8; 2]) -> (r: [u8; 2])
        requires
            self.wf(),
            coords[0] < 128,
            coords[1] < 128,
        ensures
            r == self.lookup(coords),
    {
        let index = 2 * (coords[1] as usize * MAP_DIM + coords[0] as usize);
        let r = [self.table[index], self.table[index + 1]];
        assert(r =~= self.lookup(coords));
        r
    }
}

/// The three lookup tables, one per inversion variant.
pub struct EssTables {
    pub oot_vc: NormalizedMap,
    pub mm_vc: NormalizedMap,
    pub z64_gc: NormalizedMap,
}

impl EssTables {
    pub open spec fn wf(&self) -> bool {
        self.oot_vc.wf() && self.mm_vc.wf() && self.z64_gc.wf()
    }
}

pub open spec fn swapped(c: [u8; 2]) -> [u8; 2] {
    [c[1], c[0]]
}

/// The inverted main stick: normalize into the positive quadrant, order the
/// axes so that x >= y, scale, restore the order, look up, denormalize.
pub open spec fn inverted(map: NormalizedMap, s: Stick) -> Stick {
    let c = [s.x, s.y];
    let (q, n) = Quadrant::normalized(c);
    let swap = n[1] > n[0];
    let scaled = if swap { swapped(gc_to_n64_spec(swapped(n))) } else { gc_to_n64_spec(n) };
    let d = q.denormalized(map.lookup(scaled));
    Stick { x: d[0], y: d[1] }
}

pub open spec fn ess_applied(map: NormalizedMap, input: Option<Input>) -> Option<Input> {
    match input {
        Some(i) => Some(Input { main_stick: inverted(map, i.main_stick), ..i }),
        None => None,
    }
}

impl EssInversion {
    pub open spec fn table_of(self, tables: EssTables) -> NormalizedMap {
        match self {
            EssInversion::OotVc => tables.oot_vc,
            EssInversion::MmVc => tables.mm_vc,
            EssInversion::Z64Gc => tables.z64_gc,
        }
    }

    /// The table of this variant.
    pub fn normalized_map(self, tables: &EssTables) -> (r: &NormalizedMap)
        ensures
            *r == self.table_of(*tables),
    {
        match self {
            EssInversion::OotVc => &tables.oot_vc,
            EssInversion::MmVc => &tables.mm_vc,
            EssInversion::Z64Gc => &tables.z64_gc,
        }
    }

    /// The GC-to-N64 scaling step of the inversion.
    pub fn apply_scaling(coords: [u8; 2]) -> (r: [u8; 2])
        ensures
            r == gc_to_n64_spec(coords),
    {
        gc_to_n64(coords)
    }

    /// Display name of the variant.
    pub fn name(self) -> (r: &'static str) {
        match self {
            EssInversion::OotVc => "OoT VC ESS",
            EssInversion::MmVc => "MM VC ESS",
            EssInversion::Z64Gc => "Z64 GC ESS",
        }
    }
}

/// The inversion layer: a variant with its table.
pub struct EssLayer {
    pub variant: EssInversion,
    pub map: NormalizedMap,
}

impl EssLayer {
    pub open spec fn wf(&self) -> bool {
        self.map.wf()
    }

    /// Inverts the main stick of `input`; everything else, and an absent
    /// input, passes through.
    pub fn apply(&self, input: Option<Input>) -> (r: Option<Input>)
        requires
            self.wf(),
        ensures
            r == ess_applied(self.map, input),
    {
        match input {
            None => None,
            Some(i) => {
                let coords = i.main_stick.to_coords();
                let (q, n) = Quadrant::normalize(coords);
                let should_swap = n[1] > n[0];
                let mut c = n;
                if should_swap {
                    c = [c[1], c[0]];
                }
                c = EssInversion::apply_scaling(c);
                if should_swap {
                    c = [c[1], c[0]];
                }
                let looked = self.map.map(c);
                let d = q.denormalize(looked);
                let r = Input { main_stick: Stick::from_coords(d), ..i };
                proof {
                    let c0 = [i.main_stick.x, i.main_stick.y];
                    assert(coords =~= c0);
                    if should_swap {
                        assert(swapped(n) =~= [n[1], n[0]]);
                    }
                }
                Some(r)
            }
        }
    }
}

} // verus!

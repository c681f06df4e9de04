use vstd::prelude::*;

use crate::input::{clamp_u8, Input, Stick, STICK_CENTER};

verus! {

/// `n` scaled about the stick center by `num / den`, rounded half up and
/// saturated to a byte.
pub open spec fn scaled_value(n: u8, num: i32, den: u32) -> u8 {
    clamp_u8((2 * (STICK_CENTER * den + (n - STICK_CENTER) * num) + den) / (2 * den as int))
}

pub open spec fn scaled_stick(s: Stick, num: i32, den: u32) -> Stick {
    Stick { x: scaled_value(s.x, num, den), y: scaled_value(s.y, num, den) }
}

/// Rescales both sticks about the center by the factor `num / den`.
pub struct AnalogScaling {
    pub num: i32,
    pub den: u32,
}

impl AnalogScaling {
    pub open spec fn wf(&self) -> bool {
        self.den > 0
    }

    pub open spec fn applied(&self, input: Option<Input>) -> Option<Input> {
        match input {
            Some(i) => Some(Input {
                main_stick: scaled_stick(i.main_stick, self.num, self.den),
                c_stick: scaled_stick(i.c_stick, self.num, self.den),
                ..i
            }),
            None => None,
        }
    }

    /// Scaling by the factor `num / den`.
    pub fn new(num: i32, den: u32) -> (r: AnalogScaling)
        requires
            den > 0,
        ensures
            r.wf(),
            r.num == num,
            r.den == den,
    {
        AnalogScaling { num, den }
    }

    /// Whether the factor is exactly one, so that the layer changes nothing.
    pub fn is_identity(&self) -> (r: bool)
        ensures
            r == (self.num == self.den),
    {
        self.num >= 0 && self.num as u32 == self.den
    }

    fn scale_value(&self, n: u8) -> (r: u8)
        requires
            self.wf(),
        ensures
            r == scaled_value(n, self.num, self.den),
    {
        let den = self.den as i64;
        let num = self.num as i64;
        let d = n as i64 - STICK_CENTER as i64;
        assert(-128 * 0x8000_0000 <= d * num <= 128 * 0x8000_0000) by (nonlinear_arith)
            requires -128 <= d <= 127, -0x8000_0000 <= num < 0x8000_0000;
        let t = 2 * (STICK_CENTER as i64 * den + d * num) + den;
        if t < 0 {
            assert((t as int) / (2 * (den as int)) < 0) by (nonlinear_arith)
                requires t < 0, den > 0;
            0
        } else {
            let q = t / (2 * den);
            if q > 255 {
                255
            } else {
                q as u8
            }
        }
    }

    pub fn scale_stick(&self, stick: Stick) -> (r: Stick)
        requires
            self.wf(),
        ensures
            r == scaled_stick(stick, self.num, self.den),
    {
        Stick { x: self.scale_value(stick.x), y: self.scale_value(stick.y) }
    }

    /// Rescales both sticks of `input`; an absent input passes through.
    pub fn apply(&self, input: Option<Input>) -> (r: Option<Input>)
        requires
            self.wf(),
        ensures
            r == self.applied(input),
    {
        match input {
            Some(i) => Some(Input {
                main_stick: self.scale_stick(i.main_stick),
                c_stick: self.scale_stick(i.c_stick),
                ..i
            }),
            None => None,
        }
    }

    pub fn name(&self) -> &'static str {
        "Scaled"
    }
}

/// Scaling by a factor of one passes every input through unchanged.
pub proof fn lemma_unit_scale_identity(s: AnalogScaling, input: Option<Input>)
    requires
        s.wf(),
        s.num == s.den,
    ensures
        s.applied(input) == input,
{
    assert forall|n: u8| #[trigger] scaled_value(n, s.num, s.den) == n by {
        let den: int = s.den as int;
        let t: int = 2 * (STICK_CENTER * den + (n - STICK_CENTER) * den) + den;
        assert(t == n * (2 * den) + den) by (nonlinear_arith)
            requires t == 2 * (STICK_CENTER * den + (n - STICK_CENTER) * den) + den;
        vstd::arithmetic::div_mod::lemma_fundamental_div_mod_converse(t, 2 * den, n as int, den);
    }
    if let Some(i) = input {
        assert(scaled_stick(i.main_stick, s.num, s.den) == i.main_stick);
        assert(scaled_stick(i.c_stick, s.num, s.den) == i.c_stick);
    }
}

/// Scaling leaves a centered stick centered, whatever the factor.
pub proof fn lemma_scale_keeps_center(num: i32, den: u32)
    requires
        den > 0,
    ensures
        scaled_value(STICK_CENTER, num, den) == STICK_CENTER,
{
    let d: int = den as int;
    let t: int = 2 * (STICK_CENTER * d + (STICK_CENTER - STICK_CENTER) * num) + d;
    assert(t == 128 * (2 * d) + d);
    vstd::arithmetic::div_mod::lemma_fundamental_div_mod_converse(t, 2 * d, 128, d);
}

} // verus!

use vstd::prelude::*;

verus! {

/// Number of patterns, one per duty cycle from 0/6 to 6/6.
pub const PATTERN_COUNT: usize = 7;

/// Number of slots a pattern rotates through.
pub const PATTERN_LEN: usize = 6;

/// Pattern `k` switches the motor on in `k` of its six slots.
pub open spec fn pattern_of(k: nat) -> Seq<bool> {
    if k == 0 {
        seq![false, false, false, false, false, false]
    } else if k == 1 {
        seq![true, false, false, false, false, false]
    } else if k == 2 {
        seq![true, false, false, true, false, false]
    } else if k == 3 {
        seq![true, false, true, false, true, false]
    } else if k == 4 {
        seq![true, true, false, true, true, false]
    } else if k == 5 {
        seq![true, true, true, true, true, false]
    } else {
        seq![true, true, true, true, true, true]
    }
}

/// The pattern index chosen for an 8-bit strength.
pub open spec fn index_for(strength: u8) -> nat {
    if strength > 0 {
        (1 + ((strength - 1) * 6) / 255) as nat
    } else {
        0
    }
}

/// Number of `true` slots in `s`.
pub open spec fn count_on(s: Seq<bool>) -> nat
    decreases s.len(),
{
    if s.len() == 0 {
        0
    } else {
        count_on(s.drop_last()) + if s.last() { 1nat } else { 0nat }
    }
}

/// The six slots that the polls starting at `phase` return, in order.
pub open spec fn window(k: nat, phase: nat) -> Seq<bool> {
    Seq::new(6, |j: int| pattern_of(k)[(phase + j) % 6])
}

pub open spec fn on(b: bool) -> nat {
    if b { 1 } else { 0 }
}

proof fn lemma_count_six(w: Seq<bool>)
    requires
        w.len() == 6,
    ensures
        count_on(w) == on(w[0]) + on(w[1]) + on(w[2]) + on(w[3]) + on(w[4]) + on(w[5]),
{
    reveal_with_fuel(count_on, 7);
    assert(w.drop_last().drop_last().drop_last().drop_last().drop_last().drop_last().len() == 0);
}

/// The duty cycle of the rumble stream: whatever slot a run of six polls
/// starts from, exactly `index_for(s)` of them switch the motor on. At strength
/// 0 every slot is off, at strength 255 every slot is on.
pub proof fn lemma_pattern_duty(s: u8, phase: nat)
    requires
        phase < 6,
    ensures
        index_for(s) <= 6,
        count_on(window(index_for(s), phase)) == index_for(s),
        s == 0 ==> !pattern_of(index_for(s))[phase as int],
        s == 255 ==> pattern_of(index_for(s))[phase as int],
{
    let k = index_for(s);
    assert(s > 0 ==> (s - 1) * 6 / 255 <= 5) by (nonlinear_arith)
        requires s <= 255;
    assert(s == 255 ==> k == 6);
    let w = window(k, phase);
    lemma_count_six(w);
    let p = pattern_of(k);
    assert(w[0] == p[(phase + 0) as int % 6]);
    assert(w[1] == p[(phase + 1) as int % 6]);
    assert(w[2] == p[(phase + 2) as int % 6]);
    assert(w[3] == p[(phase + 3) as int % 6]);
    assert(w[4] == p[(phase + 4) as int % 6]);
    assert(w[5] == p[(phase + 5) as int % 6]);
    assert(on(w[0]) + on(w[1]) + on(w[2]) + on(w[3]) + on(w[4]) + on(w[5])
        == on(p[0]) + on(p[1]) + on(p[2]) + on(p[3]) + on(p[4]) + on(p[5]));
}

/// Slot `phase` of pattern `index`.
pub fn pattern_slot(index: usize, phase: usize) -> (r: bool)
    requires
        index < PATTERN_COUNT,
        phase < PATTERN_LEN,
    ensures
        r == pattern_of(index as nat)[phase as int],
{
    let p: [bool; 6] = if index == 0 {
        [false, false, false, false, false, false]
    } else if index == 1 {
        [true, false, false, false, false, false]
    } else if index == 2 {
        [true, false, false, true, false, false]
    } else if index == 3 {
        [true, false, true, false, true, false]
    } else if index == 4 {
        [true, true, false, true, true, false]
    } else if index == 5 {
        [true, true, true, true, true, false]
    } else {
        [true, true, true, true, true, true]
    };
    assert(p@ =~= pattern_of(index as nat));
    p[phase]
}

/// Selected pattern and the slot the next poll reads.
#[derive(Debug)]
pub struct PatternState {
    pub index: usize,
    pub poll_count: usize,
}

impl PatternState {
    pub open spec fn wf(&self) -> bool {
        self.index < PATTERN_COUNT && self.poll_count < PATTERN_LEN
    }

    pub open spec fn current(&self) -> bool {
        pattern_of(self.index as nat)[self.poll_count as int]
    }

    /// The state for `strength`: pattern `1 + (strength - 1) * 6 / 255`
    /// (pattern 0 for strength 0), at slot 0.
    pub fn new(strength: u8) -> (r: PatternState)
        ensures
            r.wf(),
            r.index == index_for(strength),
            r.poll_count == 0,
    {
        let index: usize = if strength > 0 {
            1 + ((strength as usize - 1) * (PATTERN_COUNT - 1)) / (u8::MAX as usize)
        } else {
            0
        };
        assert(strength > 0 ==> (strength - 1) * 6 / 255 <= 5) by (nonlinear_arith)
            requires strength <= 255;
        PatternState { index, poll_count: 0 }
    }

    /// The current slot, without advancing.
    pub fn peek_rumble(&self) -> (r: bool)
        requires
            self.wf(),
        ensures
            r == self.current(),
    {
        pattern_slot(self.index, self.poll_count)
    }

    /// The current slot; the phase then advances by one, wrapping after six.
    pub fn poll_rumble(&mut self) -> (r: bool)
        requires
            old(self).wf(),
        ensures
            r == old(self).current(),
            final(self).wf(),
            final(self).index == old(self).index,
            final(self).poll_count == (old(self).poll_count + 1) % 6,
    {
        let rumble = self.peek_rumble();
        self.poll_count = (self.poll_count + 1) % (PATTERN_COUNT - 1);
        rumble
    }
}

impl Default for PatternState {
    fn default() -> (r: PatternState)
        ensures
            r.index == 0,
            r.poll_count == 0,
    {
        PatternState { index: 0, poll_count: 0 }
    }
}

/// Turns an 8-bit rumble strength into a time-sliced on/off stream.
#[derive(Debug)]
pub struct PatternRumbler {
    state: PatternState,
}

impl PatternRumbler {
    pub closed spec fn wf(&self) -> bool {
        self.state.wf()
    }

    /// Index of the selected pattern.
    pub closed spec fn index(&self) -> nat {
        self.state.index as nat
    }

    /// Slot that the next poll reads, 0 to 5.
    pub closed spec fn phase(&self) -> nat {
        self.state.poll_count as nat
    }

    pub open spec fn current(&self) -> bool {
        pattern_of(self.index())[self.phase() as int]
    }

    /// A rumbler at strength 0.
    pub fn new() -> (r: PatternRumbler)
        ensures
            r.wf(),
            r.index() == 0,
            r.phase() == 0,
    {
        PatternRumbler { state: PatternState::default() }
    }

    /// Selects the pattern for `strength` and restarts it at slot 0.
    pub fn update_strength(&mut self, strength: u8)
        ensures
            final(self).wf(),
            final(self).index() == index_for(strength),
            final(self).phase() == 0,
    {
        self.state = PatternState::new(strength);
    }

    /// The current slot, without advancing.
    pub fn peek_rumble(&self) -> (r: bool)
        requires
            self.wf(),
        ensures
            r == self.current(),
    {
        self.state.peek_rumble()
    }

    /// The current slot; the phase then advances by one, wrapping after six.
    pub fn poll_rumble(&mut self) -> (r: bool)
        requires
            old(self).wf(),
        ensures
            r == old(self).current(),
            final(self).wf(),
            final(self).index() == old(self).index(),
            final(self).phase() == (old(self).phase() + 1) % 6,
    {
        self.state.poll_rumble()
    }
}

impl Default for PatternRumbler {
    fn default() -> (r: PatternRumbler)
        ensures
            r.wf(),
            r.index() == 0,
            r.phase() == 0,
    {
        PatternRumbler::new()
    }
}

} // verus!

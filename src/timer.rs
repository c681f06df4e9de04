use vstd::prelude::*;

verus! {

/// A smoothing factor outside `[0, 1]`.
#[derive(Clone, Copy, Debug, PartialEq, Eq, Structural)]
pub enum TimerError {
    AlphaRange,
}

/// Whether a lap that ended at `t` is still inside the window that ends at
/// `now`.
pub open spec fn in_window(t: u64, now: u64, window: u64) -> bool {
    t + window > now
}

/// The laps of `frames` still inside the window, in order.
pub open spec fn kept(frames: Seq<(u64, u64)>, now: u64, window: u64) -> Seq<(u64, u64)>
    decreases frames.len(),
{
    if frames.len() == 0 {
        frames
    } else {
        let rest = kept(frames.drop_last(), now, window);
        if in_window(frames.last().0, now, window) {
            rest.push(frames.last())
        } else {
            rest
        }
    }
}

/// Sum of the lap durations of `frames`.
pub open spec fn total(frames: Seq<(u64, u64)>) -> nat
    decreases frames.len(),
{
    if frames.len() == 0 {
        0
    } else {
        total(frames.drop_last()) + frames.last().1 as nat
    }
}

/// Mean lap time over a sliding window. Time is read by the caller and
/// passed in as nanoseconds on a monotonic clock.
pub struct AverageTimer {
    started: u64,
    last_lap: u64,
    frames: Vec<(u64, u64)>,
    average: Option<u64>,
    window: u64,
}

impl AverageTimer {
    pub closed spec fn frames(&self) -> Seq<(u64, u64)> {
        self.frames@
    }

    pub closed spec fn started(&self) -> u64 {
        self.started
    }

    pub closed spec fn last_lap(&self) -> u64 {
        self.last_lap
    }

    pub closed spec fn average(&self) -> Option<u64> {
        self.average
    }

    pub closed spec fn window(&self) -> u64 {
        self.window
    }

    /// A timer started at `now` over a window of `window` nanoseconds.
    pub fn start(now: u64, window: u64) -> (r: AverageTimer)
        ensures
            r.started() == now,
            r.last_lap() == now,
            r.frames().len() == 0,
            r.average() is None,
            r.window() == window,
    {
        AverageTimer { started: now, last_lap: now, frames: Vec::new(), average: None, window }
    }

    /// Records the lap that ends at `now` and returns the mean duration of
    /// the laps that ended inside the window.
    pub fn lap(&mut self, now: u64) -> (r: u64)
        requires
            now >= old(self).last_lap(),
        ensures
            final(self).frames() == kept(old(self).frames(), now, old(self).window()).push(
                (now, (now - old(self).last_lap()) as u64),
            ),
            r as int == (total(final(self).frames()) as int) / (final(self).frames().len() as int),
            final(self).average() == Some(r),
            final(self).last_lap() == now,
            final(self).started() == old(self).started(),
            final(self).window() == old(self).window(),
    {
        let mut next: Vec<(u64, u64)> = Vec::new();
        let mut i: usize = 0;
        while i < self.frames.len()
            invariant
                i <= self.frames.len(),
                next@ == kept(self.frames@.subrange(0, i as int), now, self.window),
            decreases self.frames.len() - i,
        {
            let f = self.frames[i];
            assert(self.frames@.subrange(0, i + 1).drop_last() =~= self.frames@.subrange(0, i as int));
            if f.0 as u128 + self.window as u128 > now as u128 {
                next.push(f);
            }
            i = i + 1;
        }
        assert(self.frames@.subrange(0, self.frames.len() as int) =~= self.frames@);
        next.push((now, now - self.last_lap));
        let mut sum: u128 = 0;
        let mut j: usize = 0;
        while j < next.len()
            invariant
                j <= next.len(),
                sum == total(next@.subrange(0, j as int)),
                sum <= j * 0xFFFF_FFFF_FFFF_FFFF,
            decreases next.len() - j,
        {
            assert(next@.subrange(0, j + 1).drop_last() =~= next@.subrange(0, j as int));
            sum = sum + next[j].1 as u128;
            j = j + 1;
        }
        assert(next@.subrange(0, next.len() as int) =~= next@);
        let avg = (sum / next.len() as u128) as u64;
        assert((sum as int) / (next.len() as int) <= 0xFFFF_FFFF_FFFF_FFFF) by (nonlinear_arith)
            requires sum <= next.len() * 0xFFFF_FFFF_FFFF_FFFF, next.len() >= 1;
        self.frames = next;
        self.last_lap = now;
        self.average = Some(avg);
        avg
    }

    /// Time since the last reset, at `now`.
    pub fn read(&self, now: u64) -> (r: u64)
        requires
            now >= self.started(),
        ensures
            r == now - self.started(),
    {
        now - self.started
    }

    /// The mean that the last lap returned.
    pub fn read_avg(&self) -> (r: Option<u64>)
        ensures
            r == self.average(),
    {
        self.average
    }

    /// Starts a new epoch at `now`.
    pub fn reset(&mut self, now: u64)
        ensures
            final(self).started() == now,
            final(self).frames() == old(self).frames(),
            final(self).last_lap() == old(self).last_lap(),
            final(self).average() == old(self).average(),
            final(self).window() == old(self).window(),
    {
        self.started = now;
    }
}

/// Exponentially weighted mean lap time: `mean <- a * mean + (1 - a) * lap`
/// with the factor `a = alpha_num / alpha_den`. Time is passed in as
/// nanoseconds on a monotonic clock.
pub struct SmoothedTimer {
    started: u64,
    average: Option<u64>,
    alpha_num: u64,
    alpha_den: u64,
}

/// The smoothed mean after a lap of `sample` nanoseconds, rounded down.
pub open spec fn smoothed(prev: Option<u64>, sample: u64, num: u64, den: u64) -> u64 {
    match prev {
        None => sample,
        Some(m) => ((num * m + (den - num) * sample) / (den as int)) as u64,
    }
}

impl SmoothedTimer {
    pub closed spec fn average(&self) -> Option<u64> {
        self.average
    }

    pub closed spec fn started(&self) -> u64 {
        self.started
    }

    pub closed spec fn alpha(&self) -> (u64, u64) {
        (self.alpha_num, self.alpha_den)
    }

    pub closed spec fn wf(&self) -> bool {
        self.alpha_den > 0 && self.alpha_num <= self.alpha_den
    }

    /// A timer started at `now` with factor `alpha_num / alpha_den`; a factor
    /// above one (or a zero denominator) is refused.
    pub fn start(now: u64, alpha_num: u64, alpha_den: u64) -> (r: Result<SmoothedTimer, TimerError>)
        ensures
            (alpha_den > 0 && alpha_num <= alpha_den) <==> r is Ok,
            r is Ok ==> r->Ok_0.wf() && r->Ok_0.started() == now && r->Ok_0.average() is None
                && r->Ok_0.alpha() == (alpha_num, alpha_den),
            r is Err ==> r->Err_0 == TimerError::AlphaRange,
    {
        if alpha_den > 0 && alpha_num <= alpha_den {
            Ok(SmoothedTimer { started: now, average: None, alpha_num, alpha_den })
        } else {
            Err(TimerError::AlphaRange)
        }
    }

    /// Records the time since the last reset as a lap and returns the new
    /// mean; the first lap is taken as it is.
    pub fn lap(&mut self, now: u64) -> (r: u64)
        requires
            old(self).wf(),
            now >= old(self).started(),
        ensures
            final(self).wf(),
            r == smoothed(old(self).average(), (now - old(self).started()) as u64, old(self).alpha().0, old(self).alpha().1),
            final(self).average() == Some(r),
            final(self).started() == old(self).started(),
            final(self).alpha() == old(self).alpha(),
    {
        let sample = now - self.started;
        let r = match self.average {
            None => sample,
            Some(m) => {
                let num = self.alpha_num as u128;
                let den = self.alpha_den as u128;
                let mm = m as u128;
                let ss = sample as u128;
                assert(num * mm <= num * 0xFFFF_FFFF_FFFF_FFFF) by (nonlinear_arith)
                    requires mm <= 0xFFFF_FFFF_FFFF_FFFF;
                assert((den - num) * ss <= (den - num) * 0xFFFF_FFFF_FFFF_FFFF) by (nonlinear_arith)
                    requires num <= den, ss <= 0xFFFF_FFFF_FFFF_FFFF;
                assert(den * 0xFFFF_FFFF_FFFF_FFFF <= 0xFFFF_FFFF_FFFF_FFFF * 0xFFFF_FFFF_FFFF_FFFF) by (nonlinear_arith)
                    requires den <= 0xFFFF_FFFF_FFFF_FFFF;
                assert(num * 0xFFFF_FFFF_FFFF_FFFF + (den - num) * 0xFFFF_FFFF_FFFF_FFFF
                    == den * 0xFFFF_FFFF_FFFF_FFFF) by (nonlinear_arith)
                    requires num <= den;
                let t = num * mm + (den - num) * ss;
                assert(t / den <= 0xFFFF_FFFF_FFFF_FFFF) by (nonlinear_arith)
                    requires t <= den * 0xFFFF_FFFF_FFFF_FFFF, den > 0;
                (t / den) as u64
            },
        };
        self.average = Some(r);
        r
    }

    /// The mean that the last lap returned.
    pub fn read_avg(&self) -> (r: Option<u64>)
        ensures
            r == self.average(),
    {
        self.average
    }

    /// Time since the last reset, at `now`.
    pub fn read(&self, now: u64) -> (r: u64)
        requires
            now >= self.started(),
        ensures
            r == now - self.started(),
    {
        now - self.started
    }

    /// Starts a new epoch at `now`.
    pub fn reset(&mut self, now: u64)
        ensures
            final(self).started() == now,
            final(self).average() == old(self).average(),
            final(self).alpha() == old(self).alpha(),
            final(self).wf() == old(self).wf(),
    {
        self.started = now;
    }
}

} // verus!

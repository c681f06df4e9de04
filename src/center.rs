use vstd::prelude::*;

use crate::input::{clamp_u8, saturate_u8, Input, Stick, STICK_CENTER, TRIGGER_MIN};

verus! {

/// Offsets from the rest position captured on the first sample after a
/// controller connects: center minus each stick axis, trigger minimum minus
/// each trigger.
pub struct DriftData {
    pub main_stick: [i16; 2],
    pub c_stick: [i16; 2],
    pub trigger_left: i16,
    pub trigger_right: i16,
}

pub open spec fn drift_of(i: Input) -> DriftData {
    DriftData {
        main_stick: [(STICK_CENTER - i.main_stick.x) as i16, (STICK_CENTER - i.main_stick.y) as i16],
        c_stick: [(STICK_CENTER - i.c_stick.x) as i16, (STICK_CENTER - i.c_stick.y) as i16],
        trigger_left: (TRIGGER_MIN - i.left_trigger) as i16,
        trigger_right: (TRIGGER_MIN - i.right_trigger) as i16,
    }
}

pub open spec fn drift_ok(d: DriftData) -> bool {
    -255 <= d.main_stick[0] <= 255 && -255 <= d.main_stick[1] <= 255
        && -255 <= d.c_stick[0] <= 255 && -255 <= d.c_stick[1] <= 255
        && -255 <= d.trigger_left <= 255 && -255 <= d.trigger_right <= 255
}

pub open spec fn shifted_stick(s: Stick, d: [i16; 2]) -> Stick {
    Stick { x: clamp_u8(s.x + d[0]), y: clamp_u8(s.y + d[1]) }
}

/// `i` with the drift added to each stick axis and trigger, saturating.
pub open spec fn corrected(i: Input, d: DriftData) -> Input {
    Input {
        main_stick: shifted_stick(i.main_stick, d.main_stick),
        c_stick: shifted_stick(i.c_stick, d.c_stick),
        left_trigger: clamp_u8(i.left_trigger + d.trigger_left),
        right_trigger: clamp_u8(i.right_trigger + d.trigger_right),
        ..i
    }
}

/// One step of the layer: the captured drift after the step and the output.
pub open spec fn center_step(state: Option<DriftData>, input: Option<Input>) -> (Option<DriftData>, Option<Input>) {
    match input {
        None => (None, None),
        Some(i) => {
            let d = match state {
                Some(d) => d,
                None => drift_of(i),
            };
            (Some(d), Some(corrected(i, d)))
        },
    }
}

/// The outputs of the layer over a stream of inputs, starting from `state`.
pub open spec fn center_run(state: Option<DriftData>, inputs: Seq<Option<Input>>) -> Seq<Option<Input>>
    decreases inputs.len(),
{
    if inputs.len() == 0 {
        Seq::empty()
    } else {
        let (next, out) = center_step(state, inputs[0]);
        seq![out] + center_run(next, inputs.drop_first())
    }
}

impl DriftData {
    /// The drift that `input` shows when the controller is at rest.
    pub fn new(input: Input) -> (r: DriftData)
        ensures
            r == drift_of(input),
            drift_ok(r),
    {
        let center = STICK_CENTER as i16;
        let tmin = TRIGGER_MIN as i16;
        DriftData {
            main_stick: [center - input.main_stick.x as i16, center - input.main_stick.y as i16],
            c_stick: [center - input.c_stick.x as i16, center - input.c_stick.y as i16],
            trigger_left: tmin - input.left_trigger as i16,
            trigger_right: tmin - input.right_trigger as i16,
        }
    }

    fn copy(&self) -> (r: DriftData)
        ensures
            r == *self,
    {
        DriftData {
            main_stick: self.main_stick,
            c_stick: self.c_stick,
            trigger_left: self.trigger_left,
            trigger_right: self.trigger_right,
        }
    }
}

fn shift_stick(s: Stick, d: [i16; 2]) -> (r: Stick)
    requires
        -255 <= d[0] <= 255,
        -255 <= d[1] <= 255,
    ensures
        r == shifted_stick(s, d),
{
    Stick { x: saturate_u8(s.x as i32 + d[0] as i32), y: saturate_u8(s.y as i32 + d[1] as i32) }
}

/// Compensates stick and trigger drift: the first sample after a disconnect
/// is taken as the rest position and every sample is shifted by the same
/// offset until the next disconnect.
pub struct CenterCalibration {
    center_data: Option<DriftData>,
}

impl CenterCalibration {
    pub closed spec fn drift(&self) -> Option<DriftData> {
        self.center_data
    }

    pub closed spec fn wf(&self) -> bool {
        match self.center_data {
            Some(d) => drift_ok(d),
            None => true,
        }
    }

    /// A layer with no drift captured.
    pub fn new() -> (r: CenterCalibration)
        ensures
            r.wf(),
            r.drift() is None,
    {
        CenterCalibration { center_data: None }
    }

    pub fn apply(&mut self, input: Option<Input>) -> (r: Option<Input>)
        requires
            old(self).wf(),
        ensures
            final(self).wf(),
            (final(self).drift(), r) == center_step(old(self).drift(), input),
    {
        match input {
            None => {
                self.center_data = None;
                None
            },
            Some(i) => {
                let d = match &self.center_data {
                    Some(d) => d.copy(),
                    None => DriftData::new(i),
                };
                let r = Input {
                    main_stick: shift_stick(i.main_stick, d.main_stick),
                    c_stick: shift_stick(i.c_stick, d.c_stick),
                    left_trigger: saturate_u8(i.left_trigger as i32 + d.trigger_left as i32),
                    right_trigger: saturate_u8(i.right_trigger as i32 + d.trigger_right as i32),
                    ..i
                };
                self.center_data = Some(d);
                Some(r)
            },
        }
    }

    pub fn name(&self) -> &'static str {
        "Centered"
    }
}

impl Default for CenterCalibration {
    fn default() -> (r: CenterCalibration)
        ensures
            r.wf(),
            r.drift() is None,
    {
        CenterCalibration::new()
    }
}

proof fn lemma_run_with_drift(d: DriftData, inputs: Seq<Option<Input>>, k: int)
    requires
        0 <= k < inputs.len(),
        forall|j: int| 0 <= j <= k ==> (#[trigger] inputs[j]) is Some,
    ensures
        center_run(Some(d), inputs).len() == inputs.len(),
        center_run(Some(d), inputs)[k] == Some(corrected(inputs[k].unwrap(), d)),
    decreases k,
{
    lemma_run_len(Some(d), inputs);
    if k > 0 {
        let rest = inputs.drop_first();
        assert forall|j: int| 0 <= j <= k - 1 implies (#[trigger] rest[j]) is Some by {
            assert(rest[j] == inputs[j + 1]);
        }
        lemma_run_with_drift(d, rest, k - 1);
    }
}

proof fn lemma_run_len(state: Option<DriftData>, inputs: Seq<Option<Input>>)
    ensures
        center_run(state, inputs).len() == inputs.len(),
    decreases inputs.len(),
{
    if inputs.len() > 0 {
        lemma_run_len(center_step(state, inputs[0]).0, inputs.drop_first());
    }
}

/// Drift compensation over a stream: when the layer holds no drift (it
/// starts so, and every `None` clears it) and the stream begins with
/// `Some(x0)`, every later sample of an unbroken run of `Some` comes out as
/// itself plus `center - x0` per stick axis and `min - x0` per trigger,
/// saturated; a `None` comes out as `None` and leaves no drift behind.
pub proof fn lemma_center_stream(inputs: Seq<Option<Input>>, k: int)
    requires
        0 <= k < inputs.len(),
        forall|j: int| 0 <= j <= k ==> (#[trigger] inputs[j]) is Some,
    ensures
        center_run(None, inputs).len() == inputs.len(),
        center_run(None, inputs)[k] == Some(corrected(inputs[k].unwrap(), drift_of(inputs[0].unwrap()))),
        forall|s: Option<DriftData>| #[trigger] center_step(s, None) == (None::<DriftData>, None::<Input>),
{
    lemma_run_len(None, inputs);
    let d = drift_of(inputs[0].unwrap());
    if k > 0 {
        let rest = inputs.drop_first();
        assert forall|j: int| 0 <= j <= k - 1 implies (#[trigger] rest[j]) is Some by {
            assert(rest[j] == inputs[j + 1]);
        }
        lemma_run_with_drift(d, rest, k - 1);
    }
}

} // verus!

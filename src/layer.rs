use vstd::prelude::*;

use crate::calibration::{calibrated, Calibration, CalibrationError, SticksCalibration};
use crate::center::{center_step, CenterCalibration};
use crate::ess::{ess_applied, EssLayer};
use crate::input::Input;
use crate::scaling::AnalogScaling;

verus! {

/// What one application of a layer does: `before` turns into `after` and
/// maps `input` to `out`. A calibration layer remaps the sticks with a
/// result that `f` may return for the incoming input.
pub open spec fn layer_step<F: Fn(SticksCalibration, Input) -> Result<Input, CalibrationError>>(
    before: LayerImpl,
    after: LayerImpl,
    input: Option<Input>,
    out: Option<Input>,
    f: F,
) -> bool {
    &&& after.wf()
    &&& (out is Some <==> input is Some)
    &&& before.stepped(&after, input, out)
    &&& (before is Calibration && input is Some ==> exists|m: Option<Result<Input, CalibrationError>>|
        #![trigger calibrated(before->Calibration_0, input.unwrap(), m)]
        {
            &&& (m is Some <==> (!before->Calibration_0.stick_bad && before->Calibration_0.stick_data is Some))
            &&& (m is Some ==> f.ensures((before->Calibration_0.stick_data.unwrap(), input.unwrap()), m.unwrap()))
            &&& out == Some(calibrated(before->Calibration_0, input.unwrap(), m).0)
            &&& after->Calibration_0.stick_bad == calibrated(before->Calibration_0, input.unwrap(), m).1
            &&& after->Calibration_0.trigger_bad == calibrated(before->Calibration_0, input.unwrap(), m).2
        })
}

/// The layers `before` turn into `after`, layer `k` mapping `mids[k]` to
/// `mids[k + 1]`.
pub open spec fn chained<F: Fn(SticksCalibration, Input) -> Result<Input, CalibrationError>>(
    before: Seq<LayerImpl>,
    after: Seq<LayerImpl>,
    mids: Seq<Option<Input>>,
    f: F,
) -> bool {
    &&& before.len() == after.len()
    &&& mids.len() == before.len() + 1
    &&& forall|k: int| 0 <= k < before.len() ==> #[trigger] layer_step(before[k], after[k], mids[k], mids[k + 1], f)
}

/// Folding `input` through the layers `before` in order gives `out` and
/// leaves the layers as `after`.
pub open spec fn folded<F: Fn(SticksCalibration, Input) -> Result<Input, CalibrationError>>(
    before: Seq<LayerImpl>,
    after: Seq<LayerImpl>,
    input: Option<Input>,
    out: Option<Input>,
    f: F,
) -> bool {
    exists|mids: Seq<Option<Input>>| #[trigger] chained(before, after, mids, f) && mids[0] == input && mids.last() == out
}

/// One stage of the input transform pipeline.
pub enum LayerImpl {
    AnalogScaling(AnalogScaling),
    Calibration(Calibration),
    CenterCalibration(CenterCalibration),
    EssInversion(EssLayer),
}

impl LayerImpl {
    pub open spec fn wf(&self) -> bool {
        match self {
            LayerImpl::AnalogScaling(s) => s.wf(),
            LayerImpl::Calibration(_) => true,
            LayerImpl::CenterCalibration(c) => c.wf(),
            LayerImpl::EssInversion(e) => e.wf(),
        }
    }

    /// What one application of the layer to `input` gives and leaves
    /// behind, for the layers whose step needs no stick remap.
    pub open spec fn stepped(&self, after: &LayerImpl, input: Option<Input>, r: Option<Input>) -> bool {
        match *self {
            LayerImpl::AnalogScaling(s) => *after == *self && r == s.applied(input),
            LayerImpl::EssInversion(e) => *after == *self && r == ess_applied(e.map, input),
            LayerImpl::CenterCalibration(c) => match *after {
                LayerImpl::CenterCalibration(c2) => (c2.drift(), r) == center_step(c.drift(), input),
                _ => false,
            },
            LayerImpl::Calibration(c) => match *after {
                LayerImpl::Calibration(c2) => c2.stick_data == c.stick_data && c2.trigger_data == c.trigger_data,
                _ => false,
            },
        }
    }

    /// Applies the layer; `stick_map` remaps the sticks for a calibration
    /// layer. An absent input stays absent and a present one stays present.
    pub fn apply<F: Fn(SticksCalibration, Input) -> Result<Input, CalibrationError>>(
        &mut self,
        input: Option<Input>,
        stick_map: &F,
    ) -> (r: Option<Input>)
        requires
            old(self).wf(),
            forall|c: SticksCalibration, i: Input| stick_map.requires((c, i)),
        ensures
            layer_step(*old(self), *final(self), input, r, *stick_map),
    {
        match self {
            LayerImpl::AnalogScaling(s) => s.apply(input),
            LayerImpl::Calibration(c) => c.apply_with(input, stick_map),
            LayerImpl::CenterCalibration(c) => c.apply(input),
            LayerImpl::EssInversion(e) => e.apply(input),
        }
    }

    pub fn name(&self) -> &'static str {
        match self {
            LayerImpl::AnalogScaling(s) => s.name(),
            LayerImpl::Calibration(c) => c.name(),
            LayerImpl::CenterCalibration(c) => c.name(),
            LayerImpl::EssInversion(e) => e.variant.name(),
        }
    }
}

/// Folds `input` through `layers` in order. Disconnection propagates: the
/// result is absent exactly when the input is.
pub fn apply_layers<F: Fn(SticksCalibration, Input) -> Result<Input, CalibrationError>>(
    layers: &mut Vec<LayerImpl>,
    input: Option<Input>,
    stick_map: &F,
) -> (r: Option<Input>)
    requires
        forall|i: int| 0 <= i < old(layers).len() ==> (#[trigger] old(layers)[i]).wf(),
        forall|c: SticksCalibration, i: Input| stick_map.requires((c, i)),
    ensures
        final(layers).len() == old(layers).len(),
        forall|i: int| 0 <= i < final(layers).len() ==> (#[trigger] final(layers)[i]).wf(),
        r is Some <==> input is Some,
        folded(old(layers)@, final(layers)@, input, r, *stick_map),
{
    let mut cur = input;
    let mut i: usize = 0;
    let ghost mut mids: Seq<Option<Input>> = seq![input];
    while i < layers.len()
        invariant
            i <= layers.len(),
            layers.len() == old(layers).len(),
            forall|j: int| 0 <= j < layers.len() ==> (#[trigger] layers[j]).wf(),
            cur is Some <==> input is Some,
            forall|c: SticksCalibration, i: Input| stick_map.requires((c, i)),
            chained(old(layers)@.take(i as int), layers@.take(i as int), mids, *stick_map),
            mids[0] == input,
            mids.last() == cur,
            forall|j: int| i <= j < layers.len() ==> layers[j] == old(layers)[j],
        decreases layers.len() - i,
    {
        let ghost prev = layers@;
        let ghost prev_cur = cur;
        cur = layers[i].apply(cur, stick_map);
        proof {
            let o = old(layers)@;
            let l = layers@;
            assert(prev[i as int] == o[i as int]);
            let next = mids.push(cur);
            assert forall|k: int| 0 <= k < i + 1 implies #[trigger] layer_step(o.take(i + 1)[k], l.take(i + 1)[k], next[k], next[k + 1], *stick_map) by {
                if k < i {
                    assert(layer_step(o.take(i as int)[k], prev.take(i as int)[k], mids[k], mids[k + 1], *stick_map));
                }
            }
            mids = next;
        }
        i = i + 1;
    }
    assert(layers@.take(layers.len() as int) =~= layers@);
    assert(old(layers)@.take(layers.len() as int) =~= old(layers)@);
    assert(chained(old(layers)@, layers@, mids, *stick_map));
    cur
}

/// An empty pipeline hands its input on unchanged.
pub proof fn lemma_empty_pipeline<F: Fn(SticksCalibration, Input) -> Result<Input, CalibrationError>>(
    after: Seq<LayerImpl>,
    input: Option<Input>,
    out: Option<Input>,
    f: F,
)
    requires
        folded(Seq::empty(), after, input, out, f),
    ensures
        out == input,
        after.len() == 0,
{
    let mids = choose|mids: Seq<Option<Input>>| #[trigger] chained(Seq::empty(), after, mids, f) && mids[0] == input && mids.last() == out;
}

/// A pipeline made of one centering layer does one drift-compensation step:
/// its output and the drift it keeps are those of `center_step`.
pub proof fn lemma_center_pipeline<F: Fn(SticksCalibration, Input) -> Result<Input, CalibrationError>>(
    before: Seq<LayerImpl>,
    after: Seq<LayerImpl>,
    input: Option<Input>,
    out: Option<Input>,
    f: F,
)
    requires
        before.len() == 1,
        before[0] is CenterCalibration,
        folded(before, after, input, out, f),
    ensures
        after.len() == 1,
        after[0] is CenterCalibration,
        (after[0]->CenterCalibration_0.drift(), out) == center_step(before[0]->CenterCalibration_0.drift(), input),
{
    let mids = choose|mids: Seq<Option<Input>>| #[trigger] chained(before, after, mids, f) && mids[0] == input && mids.last() == out;
    assert(chained(before, after, mids, f));
    assert(layer_step(before[0], after[0], mids[0], mids[0int + 1], f));
    assert(mids.last() == mids[1]);
}

} // verus!

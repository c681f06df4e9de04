use vstd::prelude::*;

use crate::adapter::Port;
use crate::bridge::{BridgeConfig, Driver, Pad, TriggerMode};
use crate::calibration::{Calibration, CalibrationError, SticksCalibration, TriggersCalibration};
use crate::center::CenterCalibration;
use crate::ess::{EssInversion, EssLayer, NormalizedMap};
use crate::input::{Input, Rumble};
use crate::layer::{apply_layers, folded, LayerImpl};
use crate::scaling::AnalogScaling;

verus! {

/// How long the feeder waits for an input before it starts the next tick,
/// in milliseconds.
pub const INPUT_TIMEOUT_MS: u64 = 8;

/// Whether host rumble is passed on to the controller.
#[derive(Clone, Copy, Debug, PartialEq, Eq, Structural)]
pub enum RumbleSetting {
    On,
    Off,
}

impl Default for RumbleSetting {
    fn default() -> (r: RumbleSetting)
        ensures
            r == RumbleSetting::On,
    {
        RumbleSetting::On
    }
}

impl Default for Driver {
    fn default() -> (r: Driver)
        ensures
            r == Driver::ViGEm,
    {
        Driver::ViGEm
    }
}

#[derive(Clone, Copy, Debug, PartialEq, Eq)]
pub struct CalibrationConfig {
    pub enabled: bool,
    pub stick_data: Option<SticksCalibration>,
    pub trigger_data: Option<TriggersCalibration>,
}

impl Default for CalibrationConfig {
    fn default() -> (r: CalibrationConfig)
        ensures
            !r.enabled,
            r.stick_data is None,
            r.trigger_data is None,
    {
        CalibrationConfig { enabled: false, stick_data: None, trigger_data: None }
    }
}

#[derive(Clone, Copy, Debug, PartialEq, Eq, Structural)]
pub struct EssConfig {
    pub inversion_mapping: Option<EssInversion>,
}

impl Default for EssConfig {
    fn default() -> (r: EssConfig)
        ensures
            r.inversion_mapping is None,
    {
        EssConfig { inversion_mapping: None }
    }
}

/// One profile: everything a feeder is built from. The analog scale is the
/// exact fraction `scale_num / scale_den`.
#[derive(Clone, Copy, Debug, PartialEq, Eq)]
pub struct FeederConfig {
    pub driver: Driver,
    pub rumble: RumbleSetting,
    pub scale_num: i32,
    pub scale_den: u32,
    pub bridge: BridgeConfig,
    pub calibration: CalibrationConfig,
    pub ess: EssConfig,
}

impl FeederConfig {
    pub open spec fn wf(&self) -> bool {
        self.scale_den > 0
    }

    pub open spec fn is_default(&self) -> bool {
        &&& self.driver == Driver::ViGEm
        &&& self.rumble == RumbleSetting::On
        &&& self.scale_num == 1
        &&& self.scale_den == 1
        &&& self.bridge == (BridgeConfig { trigger_mode: TriggerMode::Analog, pad: Pad::Xbox360 })
        &&& !self.calibration.enabled
        &&& self.calibration.stick_data is None
        &&& self.calibration.trigger_data is None
        &&& self.ess.inversion_mapping is None
    }

    /// Whether the profile scales the sticks (the factor is not exactly one).
    pub open spec fn scales(&self) -> bool {
        self.scale_num != self.scale_den
    }
}

impl Default for FeederConfig {
    fn default() -> (r: FeederConfig)
        ensures
            r.wf(),
            r.is_default(),
    {
        FeederConfig {
            driver: Driver::ViGEm,
            rumble: RumbleSetting::On,
            scale_num: 1,
            scale_den: 1,
            bridge: BridgeConfig { trigger_mode: TriggerMode::Analog, pad: Pad::Xbox360 },
            calibration: CalibrationConfig::default(),
            ess: EssConfig::default(),
        }
    }
}

/// One feed tick as observers see it: the input before the user layers, the
/// input handed to the bridge, and how long the tick took.
#[derive(Clone, Copy, Debug, PartialEq, Eq, Structural)]
pub struct Record {
    pub raw_input: Option<Input>,
    pub layered_input: Option<Input>,
    pub feed_time_nanos: u64,
}

/// Layer tags: 0 scaling, 1 ESS inversion, 2 calibration, 3 centering.
pub open spec fn kind_of(l: LayerImpl) -> nat {
    match l {
        LayerImpl::AnalogScaling(_) => 0,
        LayerImpl::EssInversion(_) => 1,
        LayerImpl::Calibration(_) => 2,
        LayerImpl::CenterCalibration(_) => 3,
    }
}

/// The user layers a profile asks for, in order: scaling when the factor is
/// not one, ESS inversion when a variant is set, calibration when enabled.
pub open spec fn planned_kinds(c: FeederConfig) -> Seq<nat> {
    (if c.scales() { seq![0nat] } else { Seq::empty() })
        + (if c.ess.inversion_mapping is Some { seq![1nat] } else { Seq::empty() })
        + (if c.calibration.enabled { seq![2nat] } else { Seq::empty() })
}

/// The layer settings match the profile's.
pub open spec fn layer_matches(l: LayerImpl, c: FeederConfig) -> bool {
    match l {
        LayerImpl::AnalogScaling(s) => s.num == c.scale_num && s.den == c.scale_den,
        LayerImpl::EssInversion(e) => Some(e.variant) == c.ess.inversion_mapping,
        LayerImpl::Calibration(k) => k.stick_data == c.calibration.stick_data
            && k.trigger_data == c.calibration.trigger_data && !k.stick_bad && !k.trigger_bad,
        LayerImpl::CenterCalibration(k) => k.drift() is None,
    }
}

/// The two layer pipelines of a feeder: the internal one (centering) and the
/// one built from the profile.
pub struct FeedPipeline {
    pub internal: Vec<LayerImpl>,
    pub layers: Vec<LayerImpl>,
}

impl FeedPipeline {
    pub open spec fn wf(&self) -> bool {
        &&& forall|i: int| 0 <= i < self.internal.len() ==> (#[trigger] self.internal[i]).wf()
        &&& forall|i: int| 0 <= i < self.layers.len() ==> (#[trigger] self.layers[i]).wf()
    }

    /// Builds the pipelines for `config`. `ess_map` is the lookup table of the
    /// profile's ESS variant, needed when one is set.
    pub fn new(config: &FeederConfig, ess_map: Option<NormalizedMap>) -> (r: FeedPipeline)
        requires
            config.wf(),
            config.ess.inversion_mapping is Some ==> ess_map is Some && ess_map.unwrap().wf(),
        ensures
            r.wf(),
            r.internal.len() == 1,
            r.internal[0] is CenterCalibration,
            layer_matches(r.internal[0], *config),
            r.layers@.map_values(|l: LayerImpl| kind_of(l)) == planned_kinds(*config),
            forall|i: int| 0 <= i < r.layers.len() ==> layer_matches(#[trigger] r.layers[i], *config),
    {
        let mut internal: Vec<LayerImpl> = Vec::new();
        internal.push(LayerImpl::CenterCalibration(CenterCalibration::new()));
        let mut layers: Vec<LayerImpl> = Vec::new();
        let ghost mut kinds: Seq<nat> = Seq::empty();
        if !(config.scale_num >= 0 && config.scale_num as u32 == config.scale_den) {
            layers.push(LayerImpl::AnalogScaling(AnalogScaling::new(config.scale_num, config.scale_den)));
            proof { kinds = kinds.push(0); }
        }
        assert(layers@.map_values(|l: LayerImpl| kind_of(l)) =~= kinds);
        match config.ess.inversion_mapping {
            Some(variant) => {
                match ess_map {
                    Some(map) => {
                        layers.push(LayerImpl::EssInversion(EssLayer { variant, map }));
                        proof { kinds = kinds.push(1); }
                    },
                    None => {},
                }
            },
            None => {},
        }
        assert(layers@.map_values(|l: LayerImpl| kind_of(l)) =~= kinds);
        if config.calibration.enabled {
            layers.push(LayerImpl::Calibration(Calibration::new(
                config.calibration.stick_data,
                config.calibration.trigger_data,
            )));
            proof { kinds = kinds.push(2); }
        }
        assert(layers@.map_values(|l: LayerImpl| kind_of(l)) =~= kinds);
        assert(kinds =~= planned_kinds(*config));
        FeedPipeline { internal, layers }
    }

    /// Runs one received input through both pipelines. Returns what a
    /// calibration capture is sent (the internal pipeline folded over the
    /// input), the record's raw input (the same) and the input for the bridge
    /// (the user pipeline folded over that). While `capturing`,
    /// the last two are the neutral input, so the virtual pad rests.
    pub fn process<F: Fn(SticksCalibration, Input) -> Result<Input, CalibrationError>>(
        &mut self,
        input: Option<Input>,
        capturing: bool,
        stick_map: &F,
    ) -> (r: (Option<Input>, Option<Input>, Option<Input>))
        requires
            old(self).wf(),
            forall|c: SticksCalibration, i: Input| stick_map.requires((c, i)),
        ensures
            final(self).wf(),
            final(self).internal.len() == old(self).internal.len(),
            final(self).layers.len() == old(self).layers.len(),
            r.0 is Some <==> input is Some,
            capturing ==> r.1 == Some(Input::neutral()) && r.2 == Some(Input::neutral()),
            !capturing ==> r.1 == r.0 && (r.2 is Some <==> input is Some),
            folded(old(self).internal@, final(self).internal@, input, r.0, *stick_map),
            exists|l: Option<Input>| #[trigger] folded(old(self).layers@, final(self).layers@, r.0, l, *stick_map)
                && (!capturing ==> r.2 == l),
    {
        let pre = apply_layers(&mut self.internal, input, stick_map);
        let layered = apply_layers(&mut self.layers, pre, stick_map);
        assert(folded(old(self).layers@, self.layers@, pre, layered, *stick_map));
        if capturing {
            (pre, Some(Input::default()), Some(Input::default()))
        } else {
            (pre, pre, layered)
        }
    }
}

/// What the listener returned for one tick.
#[derive(Clone, Copy, Debug, PartialEq, Eq, Structural)]
pub enum RecvEvent {
    Received(Option<Input>),
    Timeout,
    Disconnected,
}

/// How a tick goes on after the receive.
#[derive(Clone, Copy, Debug, PartialEq, Eq, Structural)]
pub enum TickControl {
    /// Run the input through the layers and feed it.
    Process(Option<Input>),
    /// No input this tick: start the next one, with no record.
    Skip,
    /// The poller is gone: leave the loop.
    Stop,
}

pub fn on_recv(event: RecvEvent) -> (r: TickControl)
    ensures
        r == (match event {
            RecvEvent::Received(i) => TickControl::Process(i),
            RecvEvent::Timeout => TickControl::Skip,
            RecvEvent::Disconnected => TickControl::Stop,
        }),
{
    match event {
        RecvEvent::Received(i) => TickControl::Process(i),
        RecvEvent::Timeout => TickControl::Skip,
        RecvEvent::Disconnected => TickControl::Stop,
    }
}

/// The rumble command passed to the listener at the start of a tick, if
/// rumble is on.
pub fn rumble_request(setting: RumbleSetting, bridge_state: Rumble) -> (r: Option<Rumble>)
    ensures
        r == (if setting == RumbleSetting::On { Some(bridge_state) } else { None }),
{
    match setting {
        RumbleSetting::On => Some(bridge_state),
        RumbleSetting::Off => None,
    }
}

/// What the feeder knows between ticks.
#[derive(Clone, Copy, Debug, PartialEq, Eq, Structural)]
pub struct FeederState {
    /// A bridge is built and usable.
    pub bridge_up: bool,
    /// The observable connected flag.
    pub connected: bool,
}

impl FeederState {
    pub fn new() -> (r: FeederState)
        ensures
            !r.bridge_up,
            !r.connected,
    {
        FeederState { bridge_up: false, connected: false }
    }

    /// Whether the tick must build a bridge first.
    pub fn needs_bridge(&self) -> (r: bool)
        ensures
            r == !self.bridge_up,
    {
        !self.bridge_up
    }

    /// Records the outcome of building the bridge.
    pub fn after_build(&mut self, ok: bool)
        ensures
            final(self).bridge_up == ok,
            final(self).connected == ok,
    {
        self.bridge_up = ok;
        self.connected = ok;
    }

    /// Records the outcome of a feed: on success the record is published,
    /// on failure the bridge is dropped to be rebuilt on the next tick.
    pub fn after_feed(
        &mut self,
        ok: bool,
        raw: Option<Input>,
        layered: Option<Input>,
        feed_time_nanos: u64,
    ) -> (r: Option<Record>)
        ensures
            final(self).connected == old(self).connected,
            final(self).bridge_up == (old(self).bridge_up && ok),
            ok ==> r == Some(Record { raw_input: raw, layered_input: layered, feed_time_nanos }),
            !ok ==> r is None,
    {
        if ok {
            Some(Record { raw_input: raw, layered_input: layered, feed_time_nanos })
        } else {
            self.bridge_up = false;
            None
        }
    }

    /// Leaves the loop: no longer connected.
    pub fn exit(&mut self)
        ensures
            !final(self).connected,
    {
        self.connected = false;
    }
}

} // verus!

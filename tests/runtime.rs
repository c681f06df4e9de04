use gcfeeder::adapter::{AdapterError, Port};
use gcfeeder::bridge::{BridgeConfig, Driver, Pad, TriggerMode};
use gcfeeder::calibration::{CalibrationError, SticksCalibration, TriggerCalibration, TriggersCalibration};
use gcfeeder::config::{InputServerConfig, ProfileConfig};
use gcfeeder::ess::{EssInversion, NormalizedMap, MAP_LEN};
use gcfeeder::feeder::{
    on_recv, rumble_request, CalibrationConfig, EssConfig, FeedPipeline, FeederConfig,
    FeederState, Record, RecvEvent, RumbleSetting, TickControl,
};
use gcfeeder::input::{Input, Rumble, Stick};
use gcfeeder::poller::{combine_results, route_input, PollAction, PollerState, RumbleCells};
use gcfeeder::recent::RecentSlot;
use gcfeeder::timer::{AverageTimer, SmoothedTimer, TimerError};

fn no_sticks(_: SticksCalibration, i: Input) -> Result<Input, CalibrationError> {
    Ok(i)
}

#[test]
fn slot_keeps_latest_only() {
    let mut s = RecentSlot::new();
    assert_eq!(s.take(), None);
    s.store(1);
    s.store(2);
    s.store(3);
    assert!(s.is_ready());
    assert_eq!(s.take(), Some(3));
    assert_eq!(s.take(), None);
    s.store(4);
    assert_eq!(s.take(), Some(4));
}

#[test]
fn poller_reconnects_after_errors() {
    let mut s = PollerState::new();
    assert_eq!(s.next_action(false), PollAction::Open);
    assert_eq!(s.after_open(Err(AdapterError::NoDevice)), PollAction::Backoff);
    assert!(!s.connected);
    assert_eq!(s.after_open(Ok(())), PollAction::Poll);
    assert!(s.connected);
    assert!(s.after_poll(Ok(())));
    assert!(!s.after_poll(Err(AdapterError::InvalidPayload)));
    assert_eq!(s.next_action(false), PollAction::Open);
    assert_eq!(s.next_action(true), PollAction::Exit);
    s.exit();
    assert!(!s.connected);
}

#[test]
fn poller_timeouts_stay_connected() {
    let mut s = PollerState::new();
    s.after_open(Ok(()));
    for _ in 0..100 {
        assert!(!s.after_poll(Err(AdapterError::Timeout)));
        assert!(s.connected && s.adapter_open);
        assert_eq!(s.next_action(false), PollAction::Poll);
    }
}

#[test]
fn results_and_routing() {
    assert_eq!(combine_results(Err(AdapterError::Timeout), Err(AdapterError::Transport)), Err(AdapterError::Timeout));
    assert_eq!(combine_results(Ok(()), Err(AdapterError::Transport)), Err(AdapterError::Transport));
    assert_eq!(combine_results(Ok(()), Ok(())), Ok(()));
    let i = Input::default();
    let inputs = [None, Some(i), None, None];
    assert_eq!(route_input(&inputs, Port::Two), Some(i));
    assert_eq!(route_input(&inputs, Port::One), None);
}

#[test]
fn rumble_cells_per_port() {
    let mut cells = RumbleCells::new();
    cells.set_rumble(Port::Three, Rumble::On);
    cells.set_rumble(Port::One, Rumble::On);
    cells.reset_rumble(Port::One);
    assert_eq!(cells.snapshot(), [Rumble::Off, Rumble::Off, Rumble::On, Rumble::Off]);
}

fn config() -> FeederConfig {
    FeederConfig::default()
}

#[test]
fn default_profile_builds_no_user_layers() {
    let p = FeedPipeline::new(&config(), None);
    assert_eq!(p.internal.len(), 1);
    assert!(p.layers.is_empty());
}

#[test]
fn profile_layers_in_order() {
    let mut c = config();
    c.scale_num = 3;
    c.scale_den = 2;
    c.ess = EssConfig { inversion_mapping: Some(EssInversion::MmVc) };
    c.calibration = CalibrationConfig { enabled: true, stick_data: None, trigger_data: None };
    let map = NormalizedMap::new(vec![0u8; MAP_LEN]).unwrap();
    let p = FeedPipeline::new(&c, Some(map));
    let names: Vec<&str> = p.layers.iter().map(|l| l.name()).collect();
    assert_eq!(names, vec!["Scaled", "MM VC ESS", "Calibrated"]);
}

#[test]
fn feeder_stream_keeps_order_and_disconnects() {
    let mut c = config();
    c.calibration = CalibrationConfig {
        enabled: true,
        stick_data: None,
        trigger_data: Some(TriggersCalibration {
            left_trigger: TriggerCalibration { min: 0, max: 100 },
            right_trigger: TriggerCalibration::default(),
        }),
    };
    let mut p = FeedPipeline::new(&c, None);
    let mut x = Input::default();
    x.left_trigger = 0;
    let mut y = Input::default();
    y.left_trigger = 50;
    let stream = [None, None, Some(x), Some(y), None, Some(y)];
    let mut state = FeederState::new();
    state.after_build(true);
    let mut fed = Vec::new();
    let mut records: Vec<Record> = Vec::new();
    for (t, i) in stream.iter().enumerate() {
        let (_, raw, layered) = p.process(*i, false, &no_sticks);
        fed.push(layered.map(|l| l.left_trigger));
        if let Some(r) = state.after_feed(true, raw, layered, t as u64) {
            records.push(r);
        }
    }
    assert_eq!(fed, vec![None, None, Some(0), Some(128), None, Some(0)]);
    let times: Vec<u64> = records.iter().map(|r| r.feed_time_nanos).collect();
    assert_eq!(times, vec![0, 1, 2, 3, 4, 5]);
    assert_eq!(records[3].raw_input.unwrap().left_trigger, 50);
}

#[test]
fn capture_holds_pad_neutral() {
    let mut p = FeedPipeline::new(&config(), None);
    let mut x = Input::default();
    x.main_stick = Stick::new(0x20, 0x30);
    x.button_a = true;
    let (pre, raw, layered) = p.process(Some(x), true, &no_sticks);
    let mut centered = x;
    centered.main_stick = Stick::new(0x80, 0x80);
    assert_eq!(pre, Some(centered));
    assert_eq!(raw, Some(Input::default()));
    assert_eq!(layered, Some(Input::default()));
}

#[test]
fn feeder_ticks() {
    assert_eq!(on_recv(RecvEvent::Timeout), TickControl::Skip);
    assert_eq!(on_recv(RecvEvent::Disconnected), TickControl::Stop);
    assert_eq!(on_recv(RecvEvent::Received(None)), TickControl::Process(None));
    assert_eq!(rumble_request(RumbleSetting::On, Rumble::On), Some(Rumble::On));
    assert_eq!(rumble_request(RumbleSetting::Off, Rumble::On), None);
    let mut s = FeederState::new();
    assert!(s.needs_bridge());
    s.after_build(true);
    assert!(!s.needs_bridge() && s.connected);
    assert_eq!(s.after_feed(false, None, None, 1), None);
    assert!(s.needs_bridge());
    s.exit();
    assert!(!s.connected);
}

fn profiles() -> ProfileConfig {
    let mut custom = config();
    custom.rumble = RumbleSetting::Off;
    ProfileConfig {
        selected: [
            "default".to_string(),
            "custom".to_string(),
            "missing".to_string(),
            "default".to_string(),
        ],
        list: vec![("default".to_string(), config()), ("custom".to_string(), custom)],
    }
}

#[test]
fn missing_profile_falls_back_to_default() {
    let p = profiles();
    assert!(p.selected(Port::Three).is_none());
    let c = p.profile_for(Port::Three);
    assert_eq!(c, FeederConfig::default());
    assert_eq!(p.profile_for(Port::Two).rumble, RumbleSetting::Off);
    assert_eq!(p.selected_index(Port::Two), Some(1));
    let pipeline = FeedPipeline::new(&c, None);
    assert_eq!(pipeline.internal.len(), 1);
}

#[test]
fn input_server_config() {
    let c = InputServerConfig::new_disabled(4096);
    assert!(!c.enabled);
    assert_eq!(c.port, 4096);
}

#[test]
fn default_config_values() {
    let c = FeederConfig::default();
    assert_eq!(c.driver, Driver::ViGEm);
    assert_eq!(c.rumble, RumbleSetting::On);
    assert_eq!(c.bridge, BridgeConfig { trigger_mode: TriggerMode::Analog, pad: Pad::Xbox360 });
}

#[test]
fn window_average() {
    let mut t = AverageTimer::start(1_000, 100);
    assert_eq!(t.read_avg(), None);
    assert_eq!(t.lap(1_010), 10);
    assert_eq!(t.lap(1_040), 20);
    assert_eq!(t.lap(1_130), 60);
    assert_eq!(t.lap(1_200), 80);
    assert_eq!(t.read_avg(), Some(80));
    t.reset(1_300);
    assert_eq!(t.read(1_350), 50);
}

#[test]
fn smoothed_average() {
    assert_eq!(SmoothedTimer::start(0, 3, 2).err(), Some(TimerError::AlphaRange));
    let mut t = SmoothedTimer::start(0, 9, 10).unwrap();
    assert_eq!(t.lap(100), 100);
    t.reset(100);
    assert_eq!(t.lap(300), 110);
    assert_eq!(t.read_avg(), Some(110));
    assert_eq!(t.read(350), 250);
}

#[test]
fn smoothed_average_long_laps() {
    let mut t = SmoothedTimer::start(0, u64::MAX - 1, u64::MAX).unwrap();
    assert_eq!(t.lap(u64::MAX), u64::MAX);
    assert_eq!(t.lap(u64::MAX), u64::MAX);
    let mut half = SmoothedTimer::start(0, 1, 2).unwrap();
    half.lap(10_000_000_000);
    half.reset(10_000_000_000);
    assert_eq!(half.lap(10_000_000_000), 5_000_000_000);
}

#[test]
fn every_port_can_select_one_profile() {
    let p = ProfileConfig {
        selected: [
            "a".to_string(),
            "a".to_string(),
            "a".to_string(),
            "a".to_string(),
        ],
        list: vec![("a".to_string(), config())],
    };
    assert_eq!(p.selected_index(Port::Four), Some(0));
}

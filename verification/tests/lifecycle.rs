use std::collections::VecDeque;
use std::sync::mpsc;
use std::sync::{Arc, Mutex};
use std::time::Duration;

use laser_dac::backend::{
    BackendKind, BufferEstimator, DacBackend, FifoBackend, FrameSwapBackend, WriteOutcome,
};
use laser_dac::device::{DacCapabilities, DacType, OutputModel};
use laser_dac::error::Error;
use laser_dac::point::LaserPoint;
use laser_dac::presentation::driver::{
    Driver, DriverAction, DriverConfig, DriverReply, StepOutcome,
};
use laser_dac::presentation::handler::{
    command_close, handle_shutter_transition, stop_and_close_shutter, PassObjects,
};
use laser_dac::presentation::perform::{
    perform_on_backend, perform_on_control, perform_on_source, validate_candidate,
};
use laser_dac::presentation::source::{
    ContentSource, FifoContentSource, FrameContentSource, OutputAdapter, SourceOwned,
};
use laser_dac::presentation::transition::{
    OutputResetReason, ShutterState, ShutterTransition, TransitionAction, TransitionOutcome,
    TransitionReply,
};
use laser_dac::session::{ControlMsg, DesiredState, SessionControl, SessionExit};

type Events = Arc<Mutex<Vec<&'static str>>>;

struct NoEstimate;

impl BufferEstimator for NoEstimate {
    fn estimated_fullness(&self, _now_ns: u64, _pps: u32) -> u64 {
        0
    }
}

type Backend = BackendKind<Box<dyn FifoBackend<Estimator = NoEstimate>>, Box<dyn FrameSwapBackend>>;

struct LifecycleBackend {
    events: Events,
    shutter_results: VecDeque<Result<(), Error>>,
    reset_results: VecDeque<Result<(), Error>>,
    estimator: NoEstimate,
    caps: DacCapabilities,
}

impl DacBackend for LifecycleBackend {
    fn dac_type(&self) -> DacType {
        DacType::Custom("lifecycle".into())
    }
    fn caps(&self) -> &DacCapabilities {
        &self.caps
    }
    fn connect(&mut self) -> Result<(), Error> {
        Ok(())
    }
    fn disconnect(&mut self) -> Result<(), Error> {
        self.events.lock().unwrap().push("disconnect");
        Ok(())
    }
    fn is_connected(&self) -> bool {
        true
    }
    fn stop(&mut self) -> Result<(), Error> {
        Ok(())
    }
    fn set_shutter(&mut self, open: bool) -> Result<(), Error> {
        self.events
            .lock()
            .unwrap()
            .push(if open { "open" } else { "close" });
        self.shutter_results.pop_front().unwrap_or(Ok(()))
    }
}

impl FifoBackend for LifecycleBackend {
    type Estimator = NoEstimate;

    fn try_write_points(&mut self, _pps: u32, _points: &[LaserPoint]) -> Result<WriteOutcome, Error> {
        Ok(WriteOutcome::Written)
    }
    fn estimator(&self) -> &NoEstimate {
        &self.estimator
    }
    fn reset_device_buffer(&mut self) -> Result<(), Error> {
        self.events.lock().unwrap().push("device-reset");
        self.reset_results.pop_front().unwrap_or(Ok(()))
    }
}

struct Source {
    events: Events,
    arm_during_disarm: Option<SessionControl>,
    disarm_during_blank: Option<SessionControl>,
    ended: bool,
    stop_error: Option<Error>,
}

impl Source {
    fn log(&self, event: &'static str) {
        self.events.lock().unwrap().push(event);
    }
}

impl ContentSource for Source {
    type Frame = u32;
    type Info = &'static str;

    fn on_reconnect(&mut self, _: &&'static str) {
        self.log("reconnected");
    }
    fn submit_frame(&mut self, _: u32) {
        self.log("frame");
    }
    fn arm_startup_blank(&mut self, _: u32) {
        self.log("startup-blank");
        if let Some(control) = self.disarm_during_blank.take() {
            control.disarm().unwrap();
        }
    }
    fn discard_cached(&mut self) {
        self.log("discard");
    }
    fn on_disarm(&mut self) {
        self.log("source-disarm");
        if let Some(control) = self.arm_during_disarm.take() {
            control.arm().unwrap();
        }
    }
    fn reset_output_filter(&mut self, reason: OutputResetReason) {
        self.log(match reason {
            OutputResetReason::Arm => "filter-arm",
            OutputResetReason::Disarm => "filter-disarm",
        });
    }
    fn set_color_delay(&mut self, _: Duration) {}
}

impl FifoContentSource for Source {
    fn is_ended(&self) -> bool {
        self.ended
    }
    fn take_stop_error(&mut self) -> Option<Error> {
        self.stop_error.take()
    }
}

/// A frame source that records its calls.
struct Frames {
    events: Events,
    capacity: Option<usize>,
}

impl ContentSource for Frames {
    type Frame = u32;
    type Info = &'static str;

    fn on_reconnect(&mut self, _: &&'static str) {
        self.events.lock().unwrap().push("frames-reconnected");
    }
    fn submit_frame(&mut self, frame: u32) {
        assert_eq!(frame, 7);
        self.events.lock().unwrap().push("frames-frame");
    }
    fn arm_startup_blank(&mut self, _: u32) {
        self.events.lock().unwrap().push("frames-startup-blank");
    }
    fn discard_cached(&mut self) {
        self.events.lock().unwrap().push("frames-discard");
    }
    fn on_disarm(&mut self) {
        self.events.lock().unwrap().push("frames-disarm");
    }
    fn reset_output_filter(&mut self, _: OutputResetReason) {
        self.events.lock().unwrap().push("frames-filter");
    }
    fn set_color_delay(&mut self, _: Duration) {
        self.events.lock().unwrap().push("frames-delay");
    }
}

impl FrameContentSource for Frames {
    fn set_frame_capacity(&mut self, capacity: Option<usize>) {
        self.capacity = capacity;
    }
}

struct Adapter;

impl OutputAdapter for Adapter {
    fn on_state_change(&mut self, _armed: bool) {}
}

struct Harness {
    objects: PassObjects<
        Box<dyn FifoBackend<Estimator = NoEstimate>>,
        Box<dyn FrameSwapBackend>,
        Source,
        Frames,
        Adapter,
    >,
    events: Events,
    handled: DesiredState,
    shutter: ShutterState,
    notifications: mpsc::Receiver<ControlMsg>,
}

fn harness_with(
    shutter_results: Vec<Result<(), Error>>,
    reset_results: Vec<Result<(), Error>>,
    arm_during_disarm: bool,
) -> Harness {
    let events: Events = Arc::new(Mutex::new(Vec::new()));
    let backend = LifecycleBackend {
        events: Arc::clone(&events),
        shutter_results: shutter_results.into(),
        reset_results: reset_results.into(),
        estimator: NoEstimate,
        caps: DacCapabilities {
            pps_min: 1_000,
            pps_max: 100_000,
            max_points_per_chunk: 100,
            output_model: OutputModel::NetworkFifo,
        },
    };
    let (tx, rx) = mpsc::channel();
    let control = SessionControl::new_with_pps_bounds(tx, Duration::ZERO, 30_000, 1_000, 100_000);
    let source = Source {
        events: Arc::clone(&events),
        arm_during_disarm: if arm_during_disarm {
            Some(control.clone())
        } else {
            None
        },
        disarm_during_blank: None,
        ended: false,
        stop_error: None,
    };
    Harness {
        objects: PassObjects {
            control,
            backend: Backend::fifo(Box::new(backend)).unwrap(),
            source: SourceOwned::Fifo(source),
            adapter: Adapter,
        },
        events,
        handled: DesiredState::initial(),
        shutter: ShutterState::Closed,
        notifications: rx,
    }
}

fn harness(results: Vec<Result<(), Error>>) -> Harness {
    harness_with(results, vec![], false)
}

impl Harness {
    /// One transition pass at 30 kpps.
    fn handle_shutter_transition(&mut self) -> TransitionOutcome {
        handle_shutter_transition(
            &mut self.handled,
            &mut self.shutter,
            &mut self.objects,
            30_000,
        )
    }

    fn count(&self, event: &str) -> usize {
        self.events
            .lock()
            .unwrap()
            .iter()
            .filter(|e| **e == event)
            .count()
    }

    fn seen(&self) -> Vec<&'static str> {
        self.events.lock().unwrap().clone()
    }

    fn clear(&self) {
        self.events.lock().unwrap().clear();
    }
}

struct ReconnectCleanupBackend {
    connected: bool,
    events: Events,
    estimator: NoEstimate,
    caps: DacCapabilities,
}

impl DacBackend for ReconnectCleanupBackend {
    fn dac_type(&self) -> DacType {
        DacType::Custom("driver-reconnect-cleanup".into())
    }
    fn caps(&self) -> &DacCapabilities {
        &self.caps
    }
    fn connect(&mut self) -> Result<(), Error> {
        self.connected = true;
        Ok(())
    }
    fn disconnect(&mut self) -> Result<(), Error> {
        self.connected = false;
        self.events.lock().unwrap().push("disconnect");
        Ok(())
    }
    fn is_connected(&self) -> bool {
        self.connected
    }
    fn stop(&mut self) -> Result<(), Error> {
        Ok(())
    }
    fn set_shutter(&mut self, open: bool) -> Result<(), Error> {
        self.events
            .lock()
            .unwrap()
            .push(if open { "open" } else { "close" });
        Ok(())
    }
}

impl FifoBackend for ReconnectCleanupBackend {
    type Estimator = NoEstimate;

    fn try_write_points(&mut self, _pps: u32, _points: &[LaserPoint]) -> Result<WriteOutcome, Error> {
        Ok(WriteOutcome::Written)
    }
    fn estimator(&self) -> &NoEstimate {
        &self.estimator
    }
    fn reset_device_buffer(&mut self) -> Result<(), Error> {
        Ok(())
    }
}

#[test]
fn reconnect_pps_bounds_race_closes_and_disconnects_rejected_backend() {
    let new_backend_events: Events = Arc::new(Mutex::new(Vec::new()));
    let reconnect_caps = DacCapabilities {
        pps_min: 1_000,
        pps_max: 40_000,
        max_points_per_chunk: 100,
        output_model: OutputModel::NetworkFifo,
    };
    let h = harness(vec![]);
    let control = h.objects.control.clone();

    let validator = |backend: &Backend, pps: u32| -> Result<(), SessionExit> {
        assert_eq!(pps, 30_000);
        if backend.is_connected() {
            h.objects.control.set_pps(50_000).unwrap();
        }
        Ok(())
    };

    let mut driver = Driver::new(DriverConfig {
        frame_source: false,
        reconnects: true,
        has_frame_slot: false,
    });
    let mut candidate: Option<Backend> = None;
    while let Some(action) = driver.next_action() {
        let reply = match action {
            DriverAction::SelectAdapter { frame_swap } => {
                assert!(!frame_swap);
                DriverReply::Failure(None)
            }
            // The session has lost its device.
            DriverAction::ReadConnected => DriverReply::Flag(false),
            DriverAction::FindBackend { last_reconnect_ns } => {
                assert_eq!(last_reconnect_ns, None);
                // driver-reconnect-cleanup:1 is found, connected and closed.
                let mut found = Backend::fifo(Box::new(ReconnectCleanupBackend {
                    connected: false,
                    events: Arc::clone(&new_backend_events),
                    estimator: NoEstimate,
                    caps: reconnect_caps,
                }))
                .unwrap();
                found.connect().unwrap();
                found.set_shutter(false).unwrap();
                validate_candidate(false, &found).unwrap();
                validator(&found, control.pps()).unwrap();
                let caps = *found.caps();
                candidate = Some(found);
                DriverReply::Found {
                    min: caps.pps_min,
                    max: caps.pps_max,
                }
            }
            DriverAction::DiscardCandidate => {
                candidate.take().unwrap().close_and_disconnect();
                DriverReply::Done
            }
            _ => perform_on_control(action, &control).unwrap_or(DriverReply::Done),
        };
        assert!(driver.complete(reply));
    }

    assert_eq!(
        driver.into_result().unwrap().unwrap(),
        SessionExit::Disconnected
    );
    assert_eq!(control.pps(), 50_000);
    assert_eq!(
        *new_backend_events.lock().unwrap(),
        vec!["close", "close", "disconnect"]
    );
}

#[test]
fn startup_preparation_precedes_open_and_open_failure_is_retried() {
    let mut h = harness(vec![
        Err(Error::invalid_config("first open fails".to_string())),
        Ok(()),
    ]);
    h.objects.control.arm().unwrap();

    h.handle_shutter_transition();
    assert_eq!(h.shutter, ShutterState::Unknown);
    assert_eq!(
        h.seen(),
        vec![
            "discard",
            "startup-blank",
            "filter-arm",
            "device-reset",
            "open"
        ]
    );

    h.handle_shutter_transition();
    assert_eq!(h.shutter, ShutterState::Open);
    assert_eq!(h.count("open"), 2);
}

#[test]
fn rapid_disarm_arm_final_armed_runs_falling_then_rising_before_open() {
    let mut h = harness(vec![]);

    h.objects.control.arm().unwrap();
    h.handle_shutter_transition();
    h.clear();

    h.objects.control.disarm().unwrap();
    h.objects.control.arm().unwrap();
    h.handle_shutter_transition();

    assert_eq!(h.shutter, ShutterState::Open);
    assert_eq!(
        h.seen(),
        vec![
            "close",
            "discard",
            "source-disarm",
            "filter-disarm",
            "discard",
            "startup-blank",
            "filter-arm",
            "device-reset",
            "open"
        ]
    );
}

#[test]
fn arm_arriving_mid_falling_handler_defers_open_until_next_prepared_pass() {
    let mut h = harness_with(vec![], vec![], true);
    h.shutter = ShutterState::Open;

    h.objects.control.arm().unwrap();
    h.handled = h.objects.control.desired_state();
    h.objects.control.disarm().unwrap();
    h.handle_shutter_transition();
    assert_eq!(h.shutter, ShutterState::Closed);
    assert!(!h.seen().contains(&"open"));

    h.clear();
    h.handle_shutter_transition();
    assert_eq!(h.shutter, ShutterState::Open);
    assert_eq!(
        h.seen(),
        vec![
            "discard",
            "startup-blank",
            "filter-arm",
            "device-reset",
            "open"
        ]
    );
}

#[test]
fn failed_open_is_closed_on_disarm_and_stop_always_commands_close() {
    let mut h = harness(vec![
        Err(Error::backend("open uncertain".to_string())),
        Ok(()),
        Ok(()),
    ]);

    h.objects.control.arm().unwrap();
    h.handle_shutter_transition();
    assert_eq!(h.shutter, ShutterState::Unknown);
    h.objects.control.disarm().unwrap();
    h.handle_shutter_transition();
    assert_eq!(h.shutter, ShutterState::Closed);
    stop_and_close_shutter(&mut h.objects.backend, &mut h.shutter);
    assert_eq!(h.count("close"), 2);
}

#[test]
fn reset_device_buffer_failure_prevents_open() {
    let mut h = harness_with(
        vec![Ok(())],
        vec![Err(Error::backend("reset failed".to_string()))],
        false,
    );
    h.objects.control.arm().unwrap();

    let outcome = h.handle_shutter_transition();
    assert_eq!(outcome, TransitionOutcome::Disconnected);
    assert!(!h.seen().contains(&"open"));
    assert_eq!(h.shutter, ShutterState::Closed);
    assert_eq!(
        h.seen(),
        vec![
            "discard",
            "startup-blank",
            "filter-arm",
            "device-reset",
            "close",
            "disconnect"
        ]
    );
}

#[test]
fn a_disarm_during_preparation_defers_to_the_next_pass() {
    let mut h = harness(vec![]);
    let control = h.objects.control.clone();
    if let SourceOwned::Fifo(source) = &mut h.objects.source {
        source.disarm_during_blank = Some(control);
    }
    h.objects.control.arm().unwrap();

    assert_eq!(h.handle_shutter_transition(), TransitionOutcome::Continue);
    assert_eq!(h.shutter, ShutterState::Closed);
    assert_eq!(h.count("open"), 0);

    h.clear();
    h.handle_shutter_transition();
    assert_eq!(
        h.seen(),
        vec!["discard", "source-disarm", "filter-disarm"]
    );
    assert!(!h.handled.is_armed());
}

#[test]
fn a_settled_pass_does_nothing_more() {
    let mut h = harness(vec![]);
    h.handle_shutter_transition();
    assert!(h.seen().is_empty());

    h.objects.control.arm().unwrap();
    h.handle_shutter_transition();
    h.clear();
    h.handle_shutter_transition();
    assert!(h.seen().is_empty());
    assert_eq!(h.shutter, ShutterState::Open);
}

#[test]
fn an_unfitting_reply_is_refused() {
    let mut pass = ShutterTransition::new(DesiredState::initial(), ShutterState::Closed, 30_000);
    let first = pass.next_action();
    assert!(!pass.complete(TransitionReply::Done));
    assert!(!pass.complete(TransitionReply::Command(true)));
    assert_eq!(pass.next_action(), first);
    assert!(pass.complete(TransitionReply::Desired(DesiredState::initial())));
    assert_eq!(pass.next_action(), None);
    assert!(!pass.complete(TransitionReply::Done));

    let mut driver = Driver::new(DriverConfig {
        frame_source: true,
        reconnects: false,
        has_frame_slot: false,
    });
    assert!(!driver.complete(DriverReply::Done));
    assert_eq!(
        driver.next_action(),
        Some(DriverAction::SelectAdapter { frame_swap: true })
    );
    assert!(driver.into_result().is_none());
}

/// How the scripted adapter behaves in a full run, and when the source ends.
struct Script {
    steps: VecDeque<StepOutcome>,
    ends_after: usize,
    stop_error: Option<Error>,
}

struct Recorded {
    result: Result<SessionExit, Error>,
    actions: Vec<DriverAction>,
}

/// Drive a session with the lifecycle backend to its end.
fn run(h: &mut Harness, config: DriverConfig, mut script: Script) -> Recorded {
    let mut driver = Driver::new(config);
    let mut actions = Vec::new();
    let mut steps = 0;
    while let Some(action) = driver.next_action() {
        actions.push(action);
        assert!(actions.len() < 1_000);
        if let SourceOwned::Fifo(source) = &mut h.objects.source {
            source.ended = steps >= script.ends_after;
            if source.ended && source.stop_error.is_none() {
                source.stop_error = script.stop_error.take();
            }
        }
        let reply = match action {
            DriverAction::SelectAdapter { .. } => DriverReply::Failure(None),
            DriverAction::DrainControl => {
                let mut stop = false;
                while let Ok(msg) = h.notifications.try_recv() {
                    stop = stop || msg == ControlMsg::Stop;
                }
                DriverReply::Flag(stop)
            }
            DriverAction::Step { .. } => {
                steps += 1;
                DriverReply::Stepped(
                    script.steps.pop_front().unwrap_or(StepOutcome::Continue),
                    driver.shutter(),
                )
            }
            DriverAction::FindBackend { .. } => DriverReply::Found {
                min: 1_000,
                max: 100_000,
            },
            DriverAction::ReadClock => DriverReply::Now(42),
            DriverAction::Transition(TransitionAction::AdapterStateChange(_)) => {
                DriverReply::Transition(TransitionReply::Done)
            }
            _ => match perform_on_backend(action, &mut h.objects.backend) {
                Some(reply) => reply,
                None => match perform_on_control(action, &h.objects.control) {
                    Some(reply) => reply,
                    None => perform_on_source(action, &mut h.objects.source).unwrap_or(DriverReply::Done),
                },
            },
        };
        assert!(driver.complete(reply));
    }
    Recorded {
        result: driver.into_result().unwrap(),
        actions,
    }
}

fn stream_config() -> DriverConfig {
    DriverConfig {
        frame_source: false,
        reconnects: false,
        has_frame_slot: false,
    }
}

#[test]
fn a_producer_that_ends_is_drained_and_blanked() {
    let mut h = harness(vec![]);
    h.objects.control.arm().unwrap();
    let recorded = run(
        &mut h,
        stream_config(),
        Script {
            steps: VecDeque::new(),
            ends_after: 2,
            stop_error: None,
        },
    );
    assert_eq!(recorded.result.unwrap(), SessionExit::ProducerEnded);
    assert_eq!(
        recorded.actions.last(),
        Some(&DriverAction::DrainAndBlank {
            pps: 30_000,
            armed: true
        })
    );
    assert_eq!(h.count("open"), 1);
}

#[test]
fn a_stop_error_closes_the_shutter_and_fails_the_run() {
    let mut h = harness(vec![]);
    h.objects.control.arm().unwrap();
    let recorded = run(
        &mut h,
        stream_config(),
        Script {
            steps: VecDeque::new(),
            ends_after: 1,
            stop_error: Some(Error::backend("idle".to_string())),
        },
    );
    assert_eq!(recorded.result.unwrap_err().message(), "idle");
    assert_eq!(
        recorded.actions.last(),
        Some(&DriverAction::SetShutter(false))
    );
    assert_eq!(h.seen().last(), Some(&"close"));
}

#[test]
fn a_stopped_step_closes_the_shutter() {
    let mut h = harness(vec![]);
    let recorded = run(
        &mut h,
        stream_config(),
        Script {
            steps: vec![StepOutcome::StateChanged, StepOutcome::Stopped].into(),
            ends_after: 100,
            stop_error: None,
        },
    );
    assert_eq!(recorded.result.unwrap(), SessionExit::Stopped);
    assert_eq!(h.seen(), vec!["close"]);
}

#[test]
fn a_queued_stop_message_ends_the_run_before_output() {
    let mut h = harness(vec![]);
    h.objects.control.arm().unwrap();
    h.objects.control.stop().unwrap();
    let recorded = run(
        &mut h,
        stream_config(),
        Script {
            steps: VecDeque::new(),
            ends_after: 100,
            stop_error: None,
        },
    );
    assert_eq!(recorded.result.unwrap(), SessionExit::Stopped);
    assert_eq!(h.seen(), vec!["close"]);
}

#[test]
fn a_lost_device_without_reconnect_ends_the_run() {
    let mut h = harness(vec![]);
    let recorded = run(
        &mut h,
        stream_config(),
        Script {
            steps: vec![StepOutcome::Disconnected].into(),
            ends_after: 100,
            stop_error: None,
        },
    );
    assert_eq!(recorded.result.unwrap(), SessionExit::Disconnected);
}

#[test]
fn a_reconnect_prepares_an_armed_session_again() {
    let mut h = harness(vec![]);
    h.objects.control.arm().unwrap();
    let recorded = run(
        &mut h,
        DriverConfig {
            frame_source: true,
            reconnects: true,
            has_frame_slot: true,
        },
        Script {
            steps: vec![
                StepOutcome::Disconnected,
                StepOutcome::Continue,
                StepOutcome::Stopped,
            ]
            .into(),
            ends_after: 100,
            stop_error: None,
        },
    );
    assert_eq!(recorded.result.unwrap(), SessionExit::Stopped);
    let found = recorded
        .actions
        .iter()
        .position(|a| matches!(a, DriverAction::FindBackend { .. }))
        .unwrap();
    assert_eq!(
        recorded.actions[found..found + 10].to_vec(),
        vec![
            DriverAction::FindBackend {
                last_reconnect_ns: None
            },
            DriverAction::UpdatePpsBounds {
                min: 1_000,
                max: 100_000
            },
            DriverAction::InstallCandidate,
            DriverAction::ReadClock,
            DriverAction::SetConnectedMetric(true),
            DriverAction::SourceReconnected,
            DriverAction::SetFrameCapacity,
            DriverAction::AdapterReconnected,
            DriverAction::NotifyReconnected,
            DriverAction::MarkLoopActivity,
        ]
    );
    assert_eq!(h.count("startup-blank"), 2);
    assert_eq!(h.count("open"), 2);
    assert!(!recorded.actions.contains(&DriverAction::ReadEnded));
}

#[test]
fn a_candidate_of_the_other_kind_is_refused() {
    let h = harness(vec![]);
    assert_eq!(
        validate_candidate(true, &h.objects.backend),
        Err(SessionExit::Disconnected)
    );
    assert_eq!(validate_candidate(false, &h.objects.backend), Ok(()));
}

#[test]
fn a_close_command_is_skipped_only_when_the_shutter_is_known_closed() {
    let mut h = harness(vec![Err(Error::backend("stuck".to_string())), Ok(())]);
    command_close(&mut h.objects.backend, &mut h.shutter, false);
    assert!(h.seen().is_empty());
    command_close(&mut h.objects.backend, &mut h.shutter, true);
    assert_eq!(h.shutter, ShutterState::Unknown);
    command_close(&mut h.objects.backend, &mut h.shutter, false);
    assert_eq!(h.shutter, ShutterState::Closed);
    assert_eq!(h.count("close"), 2);
    assert_eq!(
        stop_and_close_shutter(&mut h.objects.backend, &mut h.shutter),
        SessionExit::Stopped
    );
    assert_eq!(h.count("close"), 3);
}

#[test]
fn each_kind_of_source_gets_its_calls() {
    let events: Events = Arc::new(Mutex::new(Vec::new()));
    let mut frames: SourceOwned<Source, Frames> = SourceOwned::Frame(Frames {
        events: Arc::clone(&events),
        capacity: None,
    });
    assert!(frames.is_frame());
    assert!(!frames.is_ended());
    assert!(frames.take_stop_error().is_none());
    frames.set_frame_capacity_if_supported(Some(4_096));
    frames.on_reconnect(&"device");
    frames.submit_frame(7);
    frames.set_color_delay(Duration::from_micros(150));
    frames.discard_cached();
    frames.arm_startup_blank(1_000);
    frames.reset_output_filter(OutputResetReason::Arm);
    frames.on_disarm();
    assert_eq!(
        *events.lock().unwrap(),
        vec![
            "frames-reconnected",
            "frames-frame",
            "frames-delay",
            "frames-discard",
            "frames-startup-blank",
            "frames-filter",
            "frames-disarm"
        ]
    );
    match &frames {
        SourceOwned::Frame(frames) => assert_eq!(frames.capacity, Some(4_096)),
        SourceOwned::Fifo(_) => panic!("kind changed"),
    }

    let mut h = harness(vec![]);
    assert!(!h.objects.source.is_frame());
    h.objects.source.set_frame_capacity_if_supported(Some(1));
    assert!(h.seen().is_empty());
    h.objects.source.on_reconnect(&"device");
    h.objects.source.submit_frame(1);
    assert_eq!(h.seen(), vec!["reconnected", "frame"]);
}

#[test]
fn a_disarm_during_the_open_closes_again() {
    let (tx, _rx) = mpsc::channel();
    let control = SessionControl::new_with_pps_bounds(tx, Duration::ZERO, 30_000, 1_000, 100_000);
    control.arm().unwrap();
    for accepted in [true, false] {
        let desired = control.desired_state();
        let mut pass = ShutterTransition::new(DesiredState::initial(), ShutterState::Closed, 30_000);
        let mut commands = Vec::new();
        while let Some(action) = pass.next_action() {
            let reply = match action {
                TransitionAction::ReadDesired(_) => {
                    TransitionReply::Desired(control.desired_state())
                }
                TransitionAction::SetShutter(open) => {
                    commands.push(open);
                    if open {
                        control.disarm().unwrap();
                        TransitionReply::Command(accepted)
                    } else {
                        TransitionReply::Command(true)
                    }
                }
                TransitionAction::ResetDeviceBuffer => TransitionReply::Command(true),
                _ => TransitionReply::Done,
            };
            assert!(pass.complete(reply));
        }
        assert_eq!(commands, vec![true, false]);
        assert_eq!(pass.shutter(), ShutterState::Closed);
        assert_eq!(pass.outcome(), TransitionOutcome::Continue);
        assert_eq!(pass.handled(), desired);
        control.arm().unwrap();
    }
}

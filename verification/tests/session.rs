use laser_dac::error::Error;
use laser_dac::session::{
    delivery_result, ControlMsg, ControlState, DesiredState, RateState, SessionControl,
};
use laser_dac::text::push_decimal;
use std::sync::mpsc;
use std::time::Duration;

fn control(pps: u32) -> (SessionControl, mpsc::Receiver<ControlMsg>) {
    let (tx, rx) = mpsc::channel();
    (
        SessionControl::new_with_pps_bounds(tx, Duration::ZERO, pps, 1_000, 100_000),
        rx,
    )
}

#[test]
fn repeated_arm_keeps_generation() {
    let (control, rx) = control(30_000);
    assert!(!control.is_armed());
    control.arm().unwrap();
    let first = control.desired_state();
    control.clone().arm().unwrap();
    assert_eq!(control.desired_state(), first);
    assert!(control.is_armed());
    // A repeated request still wakes the scheduler.
    assert_eq!(rx.try_iter().collect::<Vec<_>>(), vec![ControlMsg::Arm; 2]);
}

#[test]
fn clones_share_one_state() {
    let (control, rx) = control(30_000);
    let other = control.clone();
    let worker = std::sync::Arc::new(other);
    worker.arm().unwrap();
    worker.set_pps(40_000).unwrap();
    worker.set_color_delay(Duration::from_micros(150));
    assert!(control.is_armed());
    assert_eq!(control.pps(), 40_000);
    assert_eq!(control.color_delay(), Duration::from_micros(150));
    worker.disarm().unwrap();
    assert!(!control.is_armed());
    assert!(!control.is_stop_requested());
    worker.stop().unwrap();
    assert!(control.is_stop_requested());
    assert_eq!(
        rx.try_iter().collect::<Vec<_>>(),
        vec![ControlMsg::Arm, ControlMsg::Disarm, ControlMsg::Stop]
    );
}

#[test]
fn every_edge_shows_in_the_desired_state() {
    let (control, _rx) = control(30_000);
    let start = control.desired_state();
    assert_eq!(start, DesiredState::initial());
    control.arm().unwrap();
    control.disarm().unwrap();
    let after = control.desired_state();
    assert!(!after.is_armed());
    assert_ne!(after, start);
    assert_eq!(after, DesiredState(4));
}

#[test]
fn the_generation_counter_wraps() {
    let last = DesiredState(u64::MAX);
    assert!(last.is_armed());
    let next = last.request(false);
    assert_eq!(next, DesiredState(0));
    assert_eq!(DesiredState(u64::MAX - 1).request(true), DesiredState(1));
    assert_eq!(DesiredState(6).request(false), DesiredState(6));
    assert_eq!(DesiredState(6).request(true), DesiredState(9));
}

#[test]
fn a_request_is_recorded_even_if_nobody_listens() {
    let (control, rx) = control(30_000);
    drop(rx);
    let message = "desired session state recorded, but scheduler notification failed";
    assert_eq!(control.arm().unwrap_err().message(), message);
    assert!(control.is_armed());
    assert_eq!(control.disarm().unwrap_err().message(), message);
    assert!(!control.is_armed());
    assert_eq!(
        control.stop().unwrap_err().message(),
        "session stop recorded, but scheduler notification failed"
    );
    assert!(control.is_stop_requested());
}

#[test]
fn rates_outside_the_range_are_refused() {
    let (control, _rx) = control(30_000);
    control.set_pps(1_000).unwrap();
    control.set_pps(100_000).unwrap();
    let err = control.set_pps(999).unwrap_err();
    assert!(matches!(err, Error::InvalidConfig(_)));
    assert_eq!(
        err.message(),
        "PPS 999 outside active backend range [1000, 100000]"
    );
    assert_eq!(
        control.set_pps(100_001).unwrap_err().message(),
        "PPS 100001 outside active backend range [1000, 100000]"
    );
    assert_eq!(control.pps(), 100_000);
}

#[test]
fn a_range_that_leaves_out_the_rate_is_refused() {
    let (control, _rx) = control(30_000);
    assert_eq!(
        control.update_pps_bounds(1, 29_999).unwrap_err().message(),
        "current PPS 30000 outside replacement backend range [1, 29999]"
    );
    control.set_pps(50_000).unwrap();
    control.update_pps_bounds(40_000, 60_000).unwrap();
    assert_eq!(
        control.set_pps(30_000).unwrap_err().message(),
        "PPS 30000 outside active backend range [40000, 60000]"
    );
    control.set_pps(60_000).unwrap();
}

#[test]
fn a_handle_without_limits_takes_every_rate() {
    let (tx, _rx) = mpsc::channel();
    let control = SessionControl::new(tx, Duration::from_micros(5), 7);
    assert_eq!(control.pps(), 7);
    assert_eq!(control.color_delay(), Duration::from_micros(5));
    control.set_pps(0).unwrap();
    control.set_pps(u32::MAX).unwrap();
    assert_eq!(control.pps(), u32::MAX);
}

#[test]
fn control_state_names_the_notification_it_owes() {
    let mut state = ControlState::new(
        Duration::ZERO,
        RateState {
            pps: 10,
            min: 1,
            max: 20,
        },
    );
    assert_eq!(state.set_desired_armed(true), ControlMsg::Arm);
    assert_eq!(state.set_desired_armed(true), ControlMsg::Arm);
    assert_eq!(state.desired, DesiredState(3));
    assert_eq!(state.set_desired_armed(false), ControlMsg::Disarm);
    assert_eq!(state.desired, DesiredState(4));
    assert_eq!(state.stop(), ControlMsg::Stop);
    assert!(state.stop_requested);
    state.set_color_delay(Duration::from_millis(1));
    assert_eq!(state.color_delay, Duration::from_millis(1));
    assert!(state.rate.set_pps(21).is_err());
    assert!(state.rate.update_pps_bounds(10, 10).is_ok());
    assert_eq!(
        state.rate,
        RateState {
            pps: 10,
            min: 10,
            max: 10
        }
    );

    assert!(delivery_result(ControlMsg::Arm, true).is_ok());
    assert!(delivery_result(ControlMsg::Stop, false).is_err());
}

#[test]
fn numbers_are_written_in_decimal() {
    for n in [0, 7, 10, 4_294_967_295] {
        let mut text = String::from("n=");
        push_decimal(&mut text, n);
        assert_eq!(text, format!("n={n}"));
    }
}

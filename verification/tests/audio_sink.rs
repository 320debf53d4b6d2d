use laser_dac::protocols::audio_sink::{push_chunk_resampled, AudioSinkState};

fn sample(a: f32, b: f32) -> (u32, u32) {
    (a.to_bits(), b.to_bits())
}

#[test]
fn capacity_accounting_and_clear() {
    let mut state = AudioSinkState::new(4, 48_000);
    assert_eq!(state.sample_rate(), 48_000);
    assert!(state.has_capacity_for(0));
    assert!(state.has_capacity_for(4));
    assert!(!state.has_capacity_for(5));

    state.push_point(sample(1.0, -1.0));
    assert_eq!(state.queued_points(), 1);
    assert!(state.has_capacity_for(3));

    // Filling exactly to capacity succeeds (reservation discipline).
    state.push_point(sample(0.0, 0.0));
    state.push_point(sample(0.0, 0.0));
    state.push_point(sample(0.0, 0.0));
    assert_eq!(state.queued_points(), 4);
    assert!(!state.has_capacity_for(1));

    state.clear_queue();
    assert_eq!(state.queued_points(), 0);
    assert!(state.has_capacity_for(4));
}

#[test]
fn held_output_round_trips_through_bits() {
    let mut state = AudioSinkState::new(2, 48_000);
    let (a, b) = state.last_output();
    assert_eq!((f32::from_bits(a), f32::from_bits(b)), (0.0, 0.0));
    state.set_last_output(0.25f32.to_bits(), (-0.75f32).to_bits());
    let (a, b) = state.last_output();
    assert_eq!((f32::from_bits(a), f32::from_bits(b)), (0.25, -0.75));
}

#[test]
fn samples_come_out_in_order_and_surplus_is_dropped() {
    let mut state = AudioSinkState::new(2, 48_000);
    push_chunk_resampled(&mut state, &[(1, 10), (2, 20), (3, 30)]);
    assert_eq!(state.remaining_capacity(), 0);
    assert_eq!(state.pop(), Some((1, 10)));
    assert!(state.has_capacity_for(1));
    push_chunk_resampled(&mut state, &[(4, 40)]);
    assert_eq!(state.pop(), Some((2, 20)));
    assert_eq!(state.pop(), Some((4, 40)));
    assert_eq!(state.pop(), None);
    assert_eq!(state.remaining_capacity(), 2);
}

#[test]
fn taking_samples_never_spoils_a_reservation() {
    let mut state = AudioSinkState::new(3, 44_100);
    state.push_point((1, 1));
    assert!(state.has_capacity_for(2));
    assert_eq!(state.pop(), Some((1, 1)));
    assert!(state.has_capacity_for(2));
    push_chunk_resampled(&mut state, &[(2, 2), (3, 3)]);
    assert_eq!(state.queued_points(), 2);
}

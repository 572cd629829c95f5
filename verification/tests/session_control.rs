use radio_pipeline::session::{
    volume_in_unit_range, Session, SessionState, StartDecision, ToggleDecision, VolumeError,
    DEFAULT_VOLUME_BITS,
};

#[test]
fn starting_twice_is_starting_once() {
    let mut s = Session::new();
    assert_eq!(s.start_requested(), StartDecision::AcquireDevice);
    s.device_acquired();
    assert!(s.is_playing());
    // The second request licenses nothing: no device, no second thread.
    assert_eq!(s.start_requested(), StartDecision::AlreadyActive);
    assert!(s.is_playing());
    assert_eq!(s.state, SessionState::Playing);
}

#[test]
fn a_fresh_session_reports_playing_after_a_granted_start() {
    // Scenario: the stream is reachable, so the worker comes up.
    let mut s = Session::new();
    assert!(!s.is_playing());
    assert_eq!(s.start_requested(), StartDecision::AcquireDevice);
    assert!(s.is_playing(), "a starting session already counts as playing");
    s.device_acquired();
    assert!(s.is_playing());
}

#[test]
fn stop_before_any_start_succeeds_and_stays_idle() {
    let mut s = Session::new();
    let release_sink = s.stop_requested();
    assert!(!release_sink, "there is no sink to release");
    assert!(!s.is_playing());
    assert_eq!(s.state, SessionState::Idle);
}

#[test]
fn stop_is_idempotent() {
    let mut s = Session::new();
    s.start_requested();
    s.device_acquired();
    assert!(s.stop_requested(), "an active session has a sink to release");
    assert!(!s.stop_requested());
    assert!(!s.is_playing());
}

#[test]
fn an_unreachable_host_settles_back_to_idle() {
    // Scenario: the connection is refused, so the worker ends at once and
    // reports in; is_playing must settle back to false.
    let mut s = Session::new();
    assert_eq!(s.start_requested(), StartDecision::AcquireDevice);
    s.device_acquired();
    assert!(s.is_playing());
    s.stream_ended();
    assert!(!s.is_playing());
    assert_eq!(s.state, SessionState::Idle);
}

#[test]
fn a_failed_device_leaves_the_session_idle() {
    let mut s = Session::new();
    assert_eq!(s.start_requested(), StartDecision::AcquireDevice);
    s.device_failed();
    assert!(!s.is_playing());
    // The next start may try again.
    assert_eq!(s.start_requested(), StartDecision::AcquireDevice);
}

#[test]
fn volume_on_an_idle_session_is_a_successful_no_op() {
    let mut s = Session::new();
    assert_eq!(s.set_volume_requested(0.3f32.to_bits()), Ok(false));
    assert_eq!(s.volume_bits, DEFAULT_VOLUME_BITS);
}

#[test]
fn volume_on_an_active_session_reaches_the_sink() {
    let mut s = Session::new();
    s.start_requested();
    s.device_acquired();
    let wanted = 0.3f32.to_bits();
    assert_eq!(s.set_volume_requested(wanted), Ok(true));
    // The recorded bits are what the host applies to the sink.
    assert_eq!(s.volume_bits, wanted);
}

#[test]
fn volume_outside_the_unit_range_is_rejected() {
    let mut s = Session::new();
    s.start_requested();
    s.device_acquired();
    assert_eq!(s.set_volume_requested(1.5f32.to_bits()), Err(VolumeError::OutOfRange));
    assert_eq!(s.set_volume_requested((-0.25f32).to_bits()), Err(VolumeError::OutOfRange));
    assert_eq!(s.set_volume_requested(f32::NAN.to_bits()), Err(VolumeError::OutOfRange));
    assert_eq!(s.volume_bits, DEFAULT_VOLUME_BITS, "a rejected volume changes nothing");
}

#[test]
fn the_sink_sees_the_volume_applied() {
    // A fake sink capturing the last value applied, driven exactly as the
    // host drives a real one: apply when and only when the session says so.
    let mut sink_volume: f32 = 1.0;
    let mut s = Session::new();
    if s.set_volume_requested(0.6f32.to_bits()) == Ok(true) {
        sink_volume = f32::from_bits(s.volume_bits);
    }
    assert_eq!(sink_volume, 1.0, "an idle session applies nothing");
    s.start_requested();
    s.device_acquired();
    if s.set_volume_requested(0.6f32.to_bits()) == Ok(true) {
        sink_volume = f32::from_bits(s.volume_bits);
    }
    assert_eq!(sink_volume, 0.6);
}

#[test]
fn unit_range_volumes_follow_the_encoded_values() {
    assert!(volume_in_unit_range(0.0f32.to_bits()));
    assert!(volume_in_unit_range((-0.0f32).to_bits()));
    assert!(volume_in_unit_range(0.5f32.to_bits()));
    assert!(volume_in_unit_range(1.0f32.to_bits()));
    assert!(!volume_in_unit_range((1.0f32 + f32::EPSILON).to_bits()));
    assert!(!volume_in_unit_range(1.5f32.to_bits()));
    assert!(!volume_in_unit_range((-0.001f32).to_bits()));
    assert!(!volume_in_unit_range(f32::NAN.to_bits()));
    assert!(!volume_in_unit_range(f32::INFINITY.to_bits()));
}

#[test]
fn toggling_flips_between_idle_and_active() {
    let mut s = Session::new();
    assert_eq!(s.toggle_requested(), ToggleDecision::StartPlayback);
    s.device_acquired();
    assert!(s.is_playing());
    assert_eq!(s.toggle_requested(), ToggleDecision::StopPlayback);
    assert!(!s.is_playing());
    assert_eq!(s.toggle_requested(), ToggleDecision::StartPlayback);
}

#[test]
fn a_granted_start_resets_the_volume_to_the_fresh_sink_default() {
    let mut s = Session::new();
    s.start_requested();
    s.device_acquired();
    assert_eq!(s.set_volume_requested(0.25f32.to_bits()), Ok(true));
    s.stop_requested();
    // A new session means a new sink, which comes up at full volume.
    s.start_requested();
    assert_eq!(s.volume_bits, DEFAULT_VOLUME_BITS);
    assert_eq!(s.volume_bits, 1.0f32.to_bits());
}

use range_bridge::ble::BleEvent;
use range_bridge::config::{Config, MappingConfig};
use range_bridge::session::{
    next_attempt, EndCause, Session, SessionAction, SessionError, SessionInput, SessionState,
    SupervisorAction, LIVENESS_PERIOD_SECS,
};
use range_bridge::toy::{DeviceInfo, ToyError};

fn unsmoothed() -> MappingConfig {
    let mut mapping = Config::default().mapping;
    mapping.smoothing = 0;
    mapping
}

fn devices() -> Vec<DeviceInfo> {
    vec![DeviceInfo { index: 3, vibrates: false }, DeviceInfo { index: 8, vibrates: true }]
}

fn active_session(mapping: MappingConfig) -> Session {
    let mut session = Session::new(mapping, None);
    assert_eq!(session.pending(), SessionAction::AcquireSource);
    assert_eq!(session.step(SessionInput::Done), SessionAction::ConnectSink);
    assert_eq!(session.step(SessionInput::Done), SessionAction::DiscoverActuators);
    assert_eq!(
        session.step(SessionInput::Actuators(devices())),
        SessionAction::StartSource { target_at: 1 }
    );
    assert_eq!(session.state(), SessionState::Establishing);
    assert_eq!(session.step(SessionInput::Done), SessionAction::AwaitEvent);
    assert_eq!(session.state(), SessionState::Active);
    session
}

fn reading(distance_mm: u16) -> SessionInput {
    SessionInput::Event(BleEvent::RangeUpdate(distance_mm))
}

/// Feeds the inputs in order, answers every command as delivered, and
/// returns every action the session asked for.
fn drive(session: &mut Session, inputs: Vec<SessionInput>) -> Vec<SessionAction> {
    let mut actions = Vec::new();
    for input in inputs {
        let mut action = session.step(input);
        actions.push(action);
        while let SessionAction::SendIntensity(_) = action {
            action = session.step(SessionInput::Done);
            actions.push(action);
        }
    }
    actions
}

fn occurrences(actions: &[SessionAction], wanted: SessionAction) -> usize {
    actions.iter().filter(|a| **a == wanted).count()
}

#[test]
fn liveness_period_is_one_second() {
    assert_eq!(LIVENESS_PERIOD_SECS, 1);
}

#[test]
fn new_session_is_establishing() {
    let session = Session::new(unsmoothed(), Some(2));
    assert_eq!(session.state(), SessionState::Establishing);
    assert_eq!(session.pending(), SessionAction::AcquireSource);
    assert_eq!(session.outcome(), None);
}

#[test]
fn sensor_failure_ends_the_session_at_once() {
    let mut session = Session::new(unsmoothed(), None);
    assert_eq!(session.step(SessionInput::Failed), SessionAction::Finish);
    assert_eq!(session.state(), SessionState::Ended);
    assert_eq!(session.outcome(), Some(Err(SessionError::SourceUnavailable)));
}

#[test]
fn server_failure_ends_the_session_at_once() {
    let mut session = Session::new(unsmoothed(), None);
    session.step(SessionInput::Done);
    assert_eq!(session.step(SessionInput::Failed), SessionAction::Finish);
    assert_eq!(session.outcome(), Some(Err(SessionError::SinkUnreachable)));
}

#[test]
fn discovery_failure_ends_the_session_at_once() {
    let mut session = Session::new(unsmoothed(), None);
    session.step(SessionInput::Done);
    session.step(SessionInput::Done);
    assert_eq!(session.step(SessionInput::Failed), SessionAction::Finish);
    assert_eq!(session.outcome(), Some(Err(SessionError::DiscoveryFailed)));
}

#[test]
fn no_listed_device_ends_the_session_at_once() {
    let mut session = Session::new(unsmoothed(), None);
    session.step(SessionInput::Done);
    session.step(SessionInput::Done);
    assert_eq!(session.step(SessionInput::Actuators(vec![])), SessionAction::Finish);
    assert_eq!(
        session.outcome(),
        Some(Err(SessionError::NoActuator(ToyError::NoDevicesFound)))
    );
}

#[test]
fn missing_device_index_ends_the_session_at_once() {
    let mut session = Session::new(unsmoothed(), Some(5));
    session.step(SessionInput::Done);
    session.step(SessionInput::Done);
    assert_eq!(session.step(SessionInput::Actuators(devices())), SessionAction::Finish);
    assert_eq!(
        session.outcome(),
        Some(Err(SessionError::NoActuator(ToyError::DeviceIndexNotFound(5))))
    );
}

#[test]
fn asked_device_index_is_honoured() {
    let mut session = Session::new(unsmoothed(), Some(3));
    session.step(SessionInput::Done);
    session.step(SessionInput::Done);
    assert_eq!(
        session.step(SessionInput::Actuators(devices())),
        SessionAction::StartSource { target_at: 0 }
    );
}

#[test]
fn reading_is_mapped_and_sent() {
    let mut session = active_session(unsmoothed());
    assert_eq!(session.step(reading(30)), SessionAction::SendIntensity(1_000_000));
    assert_eq!(session.state(), SessionState::Active);
    assert_eq!(session.step(SessionInput::Done), SessionAction::AwaitEvent);
    assert_eq!(session.step(reading(165)), SessionAction::SendIntensity(500_000));
    assert_eq!(session.step(SessionInput::Done), SessionAction::AwaitEvent);
    assert_eq!(session.step(reading(600)), SessionAction::SendIntensity(0));
}

#[test]
fn reading_that_changes_little_is_not_sent() {
    let mut session = active_session(unsmoothed());
    assert_eq!(session.step(reading(165)), SessionAction::SendIntensity(500_000));
    assert_eq!(session.step(SessionInput::Done), SessionAction::AwaitEvent);
    // 164 and 166 millimetres map to within one hundredth of a half
    assert_eq!(session.step(reading(164)), SessionAction::AwaitEvent);
    assert_eq!(session.step(reading(166)), SessionAction::AwaitEvent);
    assert_eq!(session.step(reading(165)), SessionAction::AwaitEvent);
    assert_eq!(session.step(reading(162)), SessionAction::SendIntensity(511_111));
}

#[test]
fn first_reading_in_the_dead_zone_is_not_sent() {
    let mut session = active_session(unsmoothed());
    // nothing was sent yet and the target is zero
    assert_eq!(session.step(reading(600)), SessionAction::AwaitEvent);
}

#[test]
fn failed_command_is_sent_again() {
    let mut session = active_session(unsmoothed());
    assert_eq!(session.step(reading(30)), SessionAction::SendIntensity(1_000_000));
    assert_eq!(session.step(SessionInput::Failed), SessionAction::AwaitEvent);
    assert_eq!(session.state(), SessionState::Active);
    assert_eq!(session.step(reading(30)), SessionAction::SendIntensity(1_000_000));
    assert_eq!(session.step(SessionInput::Done), SessionAction::AwaitEvent);
    assert_eq!(session.step(reading(30)), SessionAction::AwaitEvent);
}

#[test]
fn connected_event_changes_nothing() {
    let mut session = active_session(unsmoothed());
    assert_eq!(session.step(SessionInput::Event(BleEvent::Connected)), SessionAction::AwaitEvent);
    assert_eq!(session.state(), SessionState::Active);
}

#[test]
fn live_probe_changes_nothing() {
    let mut session = active_session(unsmoothed());
    assert_eq!(
        session.step(SessionInput::Tick { sink_connected: true }),
        SessionAction::AwaitEvent
    );
    assert_eq!(session.state(), SessionState::Active);
}

#[test]
fn disconnect_tears_the_session_down() {
    let mut session = active_session(unsmoothed());
    assert_eq!(session.step(SessionInput::Event(BleEvent::Disconnected)), SessionAction::StopSink);
    assert_eq!(session.state(), SessionState::Terminating);
    assert_eq!(session.outcome(), None);
    assert_eq!(session.step(SessionInput::Done), SessionAction::DisconnectSink);
    assert_eq!(session.step(SessionInput::Done), SessionAction::CancelSource);
    assert_eq!(session.state(), SessionState::Terminating);
    assert_eq!(session.step(SessionInput::Done), SessionAction::Finish);
    assert_eq!(session.state(), SessionState::Ended);
    assert_eq!(session.outcome(), Some(Ok(EndCause::SourceDisconnected)));
}

#[test]
fn disconnect_after_many_readings_stops_and_disconnects_once() {
    for readings in [0usize, 1, 7, 500] {
        let mut session = active_session(Config::default().mapping);
        let mut inputs = Vec::new();
        for i in 0..readings {
            inputs.push(reading((i * 37 % 700) as u16));
            if i % 5 == 0 {
                inputs.push(SessionInput::Tick { sink_connected: true });
            }
        }
        inputs.push(SessionInput::Event(BleEvent::Disconnected));
        inputs.push(SessionInput::Failed);
        inputs.push(SessionInput::Done);
        inputs.push(SessionInput::Done);
        let actions = drive(&mut session, inputs);
        assert_eq!(occurrences(&actions, SessionAction::StopSink), 1);
        assert_eq!(occurrences(&actions, SessionAction::DisconnectSink), 1);
        assert_eq!(occurrences(&actions, SessionAction::CancelSource), 1);
        assert_eq!(actions.last(), Some(&SessionAction::Finish));
        assert_eq!(session.outcome(), Some(Ok(EndCause::SourceDisconnected)));
    }
}

#[test]
fn dead_probe_tears_the_session_down() {
    let mut session = active_session(unsmoothed());
    assert_eq!(
        session.step(SessionInput::Tick { sink_connected: false }),
        SessionAction::StopSink
    );
    session.step(SessionInput::Done);
    session.step(SessionInput::Done);
    session.step(SessionInput::Done);
    assert_eq!(session.outcome(), Some(Ok(EndCause::SinkLost)));
}

#[test]
fn shutdown_tears_the_session_down() {
    let mut session = active_session(unsmoothed());
    assert_eq!(session.step(SessionInput::Shutdown), SessionAction::StopSink);
    session.step(SessionInput::Done);
    session.step(SessionInput::Done);
    session.step(SessionInput::Done);
    assert_eq!(session.outcome(), Some(Ok(EndCause::ShutdownRequested)));
}

#[test]
fn teardown_failures_are_swallowed() {
    let mut session = active_session(unsmoothed());
    assert_eq!(session.step(SessionInput::Shutdown), SessionAction::StopSink);
    assert_eq!(session.step(SessionInput::Failed), SessionAction::DisconnectSink);
    assert_eq!(session.step(SessionInput::Failed), SessionAction::CancelSource);
    assert_eq!(session.step(SessionInput::Failed), SessionAction::Finish);
    assert_eq!(session.outcome(), Some(Ok(EndCause::ShutdownRequested)));
}

#[test]
fn input_that_answers_nothing_is_ignored() {
    let mut session = Session::new(unsmoothed(), None);
    assert!(!session.accepts(&SessionInput::Shutdown));
    assert!(!session.accepts(&reading(30)));
    assert!(session.accepts(&SessionInput::Done));
    assert_eq!(session.step(SessionInput::Shutdown), SessionAction::AcquireSource);
    assert_eq!(session.step(reading(30)), SessionAction::AcquireSource);
    assert_eq!(session.state(), SessionState::Establishing);
    let mut active = active_session(unsmoothed());
    assert!(!active.accepts(&SessionInput::Done));
    assert!(!active.accepts(&SessionInput::Actuators(devices())));
    assert!(active.accepts(&SessionInput::Shutdown));
    assert_eq!(active.step(SessionInput::Done), SessionAction::AwaitEvent);
    assert_eq!(active.step(SessionInput::Failed), SessionAction::AwaitEvent);
    assert_eq!(active.step(reading(30)), SessionAction::SendIntensity(1_000_000));
    assert!(!active.accepts(&SessionInput::Event(BleEvent::Disconnected)));
    assert_eq!(
        active.step(SessionInput::Event(BleEvent::Disconnected)),
        SessionAction::SendIntensity(1_000_000)
    );
}

#[test]
fn ended_session_stays_ended() {
    let mut session = active_session(unsmoothed());
    drive(
        &mut session,
        vec![SessionInput::Shutdown, SessionInput::Done, SessionInput::Done, SessionInput::Done],
    );
    for input in [
        SessionInput::Done,
        SessionInput::Failed,
        SessionInput::Shutdown,
        reading(30),
        SessionInput::Tick { sink_connected: false },
        SessionInput::Actuators(devices()),
    ] {
        assert!(!session.accepts(&input));
        assert_eq!(session.step(input), SessionAction::Finish);
        assert_eq!(session.state(), SessionState::Ended);
        assert_eq!(session.outcome(), Some(Ok(EndCause::ShutdownRequested)));
    }
}

#[test]
fn each_session_smooths_from_scratch() {
    let mapping = Config::default().mapping;
    let mut first = active_session(mapping);
    assert_eq!(first.step(reading(30)), SessionAction::SendIntensity(1_000_000));
    first.step(SessionInput::Done);
    assert_eq!(first.step(reading(300)), SessionAction::SendIntensity(300_000));
    let mut second = active_session(mapping);
    assert_eq!(second.step(reading(165)), SessionAction::SendIntensity(500_000));
}

#[test]
fn stop_that_was_delivered_resets_the_last_intensity() {
    let mut session = active_session(unsmoothed());
    session.step(reading(30));
    session.step(SessionInput::Done);
    assert_eq!(session.step(SessionInput::Shutdown), SessionAction::StopSink);
    assert_eq!(session.step(SessionInput::Done), SessionAction::DisconnectSink);
}

#[test]
fn supervisor_retries_until_shutdown() {
    assert_eq!(
        next_attempt(Err(SessionError::SourceUnavailable), false, 5),
        SupervisorAction::RetryAfter(5)
    );
    assert_eq!(
        next_attempt(Err(SessionError::NoActuator(ToyError::NoDevicesFound)), false, 0),
        SupervisorAction::RetryAfter(0)
    );
    assert_eq!(next_attempt(Err(SessionError::SinkUnreachable), true, 5), SupervisorAction::Exit);
    assert_eq!(next_attempt(Ok(EndCause::ShutdownRequested), true, 5), SupervisorAction::Exit);
    assert_eq!(next_attempt(Ok(EndCause::ShutdownRequested), false, 5), SupervisorAction::Exit);
}

#[test]
fn supervisor_retries_after_the_peer_went_away() {
    assert_eq!(
        next_attempt(Ok(EndCause::SourceDisconnected), false, 7),
        SupervisorAction::RetryAfter(7)
    );
    assert_eq!(next_attempt(Ok(EndCause::SinkLost), false, 7), SupervisorAction::RetryAfter(7));
    assert_eq!(next_attempt(Ok(EndCause::SourceDisconnected), true, 7), SupervisorAction::Exit);
    assert_eq!(next_attempt(Ok(EndCause::SinkLost), true, 7), SupervisorAction::Exit);
}

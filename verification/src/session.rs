//! The session orchestrator as a state machine.
//!
//! A session tells its driver what to do next, the driver does it and
//! reports what came of it, and the session answers with the next thing to
//! do. All waiting and all talking to the sensor and the actuator is the
//! driver's; every decision is taken here.

use vstd::prelude::*;
use crate::ble::BleEvent;
use crate::config::MappingConfig;
use crate::mapper::{MapperState, RangeMapper};
use crate::toy::{DeviceInfo, IntensityDecision, ToyController, ToyError, ToyState};
use crate::units::FULL_SCALE;

verus! {

/// Where a session stands in its life.
#[derive(Debug, Clone, Copy, PartialEq, Eq, Structural)]
pub enum SessionState {
    /// The two connections are being made.
    Establishing,
    /// Samples are mapped and forwarded.
    Active,
    /// The connections are being released.
    Terminating,
    /// Nothing is left to do.
    Ended,
}

/// What the driver of a session is to do next.
#[derive(Debug, Clone, Copy, PartialEq, Eq, Structural)]
pub enum SessionAction {
    /// Find and connect the sensor.
    AcquireSource,
    /// Connect to the actuator server.
    ConnectSink,
    /// Let the server look for devices and report those it lists.
    DiscoverActuators,
    /// Drive the listed device at this place from now on, and start
    /// listening to the sensor.
    StartSource { target_at: usize },
    /// Report a shutdown request if there is one; otherwise wait for the
    /// next event of the sensor or for the liveness timer, whichever comes
    /// first, and report it.
    AwaitEvent,
    /// Tell the actuator this intensity.
    SendIntensity(i64),
    /// Tell the actuator to stop.
    StopSink,
    /// Release the connection to the actuator server.
    DisconnectSink,
    /// Stop listening to the sensor.
    CancelSource,
    /// Nothing: the session has ended.
    Finish,
}

/// What the driver reports back.
#[derive(Debug, Clone)]
pub enum SessionInput {
    /// The action was carried out.
    Done,
    /// The action failed.
    Failed,
    /// The devices that the server lists.
    Actuators(Vec<DeviceInfo>),
    /// A shutdown was requested.
    Shutdown,
    /// The sensor reported an event.
    Event(BleEvent),
    /// The liveness timer fired, and this is what the probe of the
    /// actuator connection said.
    Tick { sink_connected: bool },
}

/// Why a session ended without an error.
#[derive(Debug, Clone, Copy, PartialEq, Eq, Structural)]
pub enum EndCause {
    /// A shutdown was requested.
    ShutdownRequested,
    /// The sensor disconnected.
    SourceDisconnected,
    /// The connection to the actuator server was found dead.
    SinkLost,
}

/// Why a session could not be established.
#[derive(Debug, Clone, Copy, PartialEq, Eq, Structural)]
pub enum SessionError {
    /// The sensor was not found or could not be connected.
    SourceUnavailable,
    /// The actuator server could not be reached.
    SinkUnreachable,
    /// The server could not look for devices.
    DiscoveryFailed,
    /// No device could be chosen.
    NoActuator(ToyError),
}

/// How long the liveness timer runs, in seconds.
pub const LIVENESS_PERIOD_SECS: u64 = 1;

/// The state that an action belongs to.
pub open spec fn state_of(pending: SessionAction) -> SessionState {
    match pending {
        SessionAction::AcquireSource
        | SessionAction::ConnectSink
        | SessionAction::DiscoverActuators
        | SessionAction::StartSource { .. } => SessionState::Establishing,
        SessionAction::AwaitEvent | SessionAction::SendIntensity(_) => SessionState::Active,
        SessionAction::StopSink
        | SessionAction::DisconnectSink
        | SessionAction::CancelSource => SessionState::Terminating,
        SessionAction::Finish => SessionState::Ended,
    }
}

/// Whether an input ends the active state: a shutdown request, the
/// disconnection of the sensor, or a liveness probe that failed.
pub open spec fn is_terminating(input: SessionInput) -> bool {
    match input {
        SessionInput::Shutdown => true,
        SessionInput::Event(BleEvent::Disconnected) => true,
        SessionInput::Tick { sink_connected } => !sink_connected,
        _ => false,
    }
}

/// What a session is.
pub struct SessionModel {
    /// What the driver is doing now.
    pub pending: SessionAction,
    /// The mapper of this session.
    pub mapper: MapperState,
    /// The controller of this session.
    pub toy: ToyState,
    /// The device index that was asked for, if any.
    pub device_index: Option<u32>,
    /// How the session ends, once that is decided.
    pub result: Option<Result<EndCause, SessionError>>,
}

impl SessionModel {
    /// The invariant of a session.
    pub open spec fn wf(self) -> bool {
        &&& self.mapper.wf()
        &&& self.toy.wf()
        &&& (self.pending matches SessionAction::SendIntensity(v) ==> 0 <= v <= FULL_SCALE)
        &&& (self.pending is StartSource ==> self.toy.target is Some)
        &&& match self.state() {
            SessionState::Establishing => self.result is None,
            SessionState::Active => self.result is None && self.toy.target is Some,
            SessionState::Terminating => self.result matches Some(Ok(_)) && self.toy.target
                is Some,
            SessionState::Ended => self.result is Some,
        }
    }

    /// A session that has done nothing yet.
    pub open spec fn fresh(mapping: MappingConfig, device_index: Option<u32>) -> SessionModel {
        SessionModel {
            pending: SessionAction::AcquireSource,
            mapper: MapperState::fresh(mapping),
            toy: ToyState::fresh(),
            device_index,
            result: None,
        }
    }

    /// Where the session stands.
    pub open spec fn state(self) -> SessionState {
        state_of(self.pending)
    }

    /// How the session ended, once it has.
    pub open spec fn outcome(self) -> Option<Result<EndCause, SessionError>> {
        if self.pending == SessionAction::Finish {
            self.result
        } else {
            None
        }
    }

    /// Whether an input answers the pending action.
    pub open spec fn accepts(self, input: SessionInput) -> bool {
        match self.pending {
            SessionAction::DiscoverActuators => input is Actuators || input is Failed,
            SessionAction::StartSource { .. } => input is Done,
            SessionAction::AwaitEvent => input is Shutdown || input is Event || input is Tick,
            SessionAction::Finish => false,
            _ => input is Done || input is Failed,
        }
    }

    /// The session with establishment given up for `error`.
    pub open spec fn failed(self, error: SessionError) -> SessionModel {
        SessionModel { pending: SessionAction::Finish, result: Some(Err(error)), ..self }
    }

    /// The session with teardown begun for `cause`.
    pub open spec fn ending(self, cause: EndCause) -> SessionModel {
        SessionModel { pending: SessionAction::StopSink, result: Some(Ok(cause)), ..self }
    }

    /// The session with `pending` as the next thing to do.
    pub open spec fn then_do(self, pending: SessionAction) -> SessionModel {
        SessionModel { pending, ..self }
    }

    /// The session after the server's devices were reported.
    pub open spec fn after_discovery(self, devices: Seq<DeviceInfo>) -> SessionModel {
        match crate::toy::choice_error(devices, self.device_index) {
            Some(e) => self.failed(SessionError::NoActuator(e)),
            None => SessionModel {
                pending: SessionAction::StartSource {
                    target_at: crate::toy::chosen(devices, self.device_index) as usize,
                },
                toy: self.toy.shown(devices, self.device_index),
                ..self
            },
        }
    }

    /// The session after a range reading: the reading is mapped, and the
    /// intensity is sent on unless the change is negligible.
    pub open spec fn after_reading(self, distance_mm: u16) -> SessionModel {
        let mapper = self.mapper.after(distance_mm);
        let pending = match self.toy.decision(self.mapper.output(distance_mm)) {
            Ok(IntensityDecision::Send(v)) => SessionAction::SendIntensity(v),
            _ => SessionAction::AwaitEvent,
        };
        SessionModel { pending, mapper, ..self }
    }

    /// The session after what the driver reported while it was waiting.
    pub open spec fn after_wait(self, input: SessionInput) -> SessionModel {
        match input {
            SessionInput::Shutdown => self.ending(EndCause::ShutdownRequested),
            SessionInput::Event(BleEvent::RangeUpdate(distance_mm)) => self.after_reading(
                distance_mm,
            ),
            SessionInput::Event(BleEvent::Disconnected) => self.ending(
                EndCause::SourceDisconnected,
            ),
            SessionInput::Tick { sink_connected } => if sink_connected {
                self
            } else {
                self.ending(EndCause::SinkLost)
            },
            _ => self,
        }
    }

    /// The session after one input. An input that does not answer the
    /// pending action changes nothing.
    pub open spec fn step(self, input: SessionInput) -> SessionModel {
        if !self.accepts(input) {
            self
        } else {
            match self.pending {
                SessionAction::AcquireSource => if input is Done {
                    self.then_do(SessionAction::ConnectSink)
                } else {
                    self.failed(SessionError::SourceUnavailable)
                },
                SessionAction::ConnectSink => if input is Done {
                    self.then_do(SessionAction::DiscoverActuators)
                } else {
                    self.failed(SessionError::SinkUnreachable)
                },
                SessionAction::DiscoverActuators => match input {
                    SessionInput::Actuators(devices) => self.after_discovery(devices@),
                    _ => self.failed(SessionError::DiscoveryFailed),
                },
                SessionAction::StartSource { .. } => self.then_do(SessionAction::AwaitEvent),
                SessionAction::AwaitEvent => self.after_wait(input),
                SessionAction::SendIntensity(v) => if input is Done {
                    SessionModel {
                        pending: SessionAction::AwaitEvent,
                        toy: ToyState { last_intensity: v as int, ..self.toy },
                        ..self
                    }
                } else {
                    self.then_do(SessionAction::AwaitEvent)
                },
                SessionAction::StopSink => if input is Done {
                    SessionModel {
                        pending: SessionAction::DisconnectSink,
                        toy: ToyState { last_intensity: 0, ..self.toy },
                        ..self
                    }
                } else {
                    self.then_do(SessionAction::DisconnectSink)
                },
                SessionAction::DisconnectSink => self.then_do(SessionAction::CancelSource),
                SessionAction::CancelSource => self.then_do(SessionAction::Finish),
                SessionAction::Finish => self,
            }
        }
    }
}

/// One session: a mapper, a controller, and the place in the protocol
/// between the session and its driver.
pub struct Session {
    pending: SessionAction,
    mapper: RangeMapper,
    toy: ToyController,
    device_index: Option<u32>,
    result: Option<Result<EndCause, SessionError>>,
}

impl View for Session {
    type V = SessionModel;

    closed spec fn view(&self) -> SessionModel {
        SessionModel {
            pending: self.pending,
            mapper: self.mapper@,
            toy: self.toy@,
            device_index: self.device_index,
            result: self.result,
        }
    }
}

impl Session {
    /// A session with a fresh mapper, about to acquire the sensor.
    pub fn new(mapping: MappingConfig, device_index: Option<u32>) -> (session: Session)
        requires
            mapping.is_mappable(),
        ensures
            session@ == SessionModel::fresh(mapping, device_index),
            session@.wf(),
    {
        Session {
            pending: SessionAction::AcquireSource,
            mapper: RangeMapper::new(mapping),
            toy: ToyController::new(),
            device_index,
            result: None,
        }
    }

    /// What the driver is to do now.
    pub fn pending(&self) -> (action: SessionAction)
        ensures
            action == self@.pending,
    {
        self.pending
    }

    /// Where the session stands.
    pub fn state(&self) -> (state: SessionState)
        ensures
            state == self@.state(),
    {
        match self.pending {
            SessionAction::AcquireSource
            | SessionAction::ConnectSink
            | SessionAction::DiscoverActuators
            | SessionAction::StartSource { .. } => SessionState::Establishing,
            SessionAction::AwaitEvent | SessionAction::SendIntensity(_) => SessionState::Active,
            SessionAction::StopSink
            | SessionAction::DisconnectSink
            | SessionAction::CancelSource => SessionState::Terminating,
            SessionAction::Finish => SessionState::Ended,
        }
    }

    /// How the session ended: `None` until it has.
    pub fn outcome(&self) -> (outcome: Option<Result<EndCause, SessionError>>)
        ensures
            outcome == self@.outcome(),
            self@.wf() ==> (self@.state() == SessionState::Ended <==> outcome is Some),
    {
        match self.pending {
            SessionAction::Finish => self.result,
            _ => None,
        }
    }

    /// Whether `input` answers the pending action.
    pub fn accepts(&self, input: &SessionInput) -> (ok: bool)
        ensures
            ok == self@.accepts(*input),
    {
        match self.pending {
            SessionAction::DiscoverActuators => match input {
                SessionInput::Actuators(_) | SessionInput::Failed => true,
                _ => false,
            },
            SessionAction::StartSource { .. } => match input {
                SessionInput::Done => true,
                _ => false,
            },
            SessionAction::AwaitEvent => match input {
                SessionInput::Shutdown | SessionInput::Event(_) | SessionInput::Tick { .. } => true,
                _ => false,
            },
            SessionAction::Finish => false,
            _ => match input {
                SessionInput::Done | SessionInput::Failed => true,
                _ => false,
            },
        }
    }

    /// Takes what the driver reports and returns what it is to do next.
    pub fn step(&mut self, input: SessionInput) -> (action: SessionAction)
        requires
            old(self)@.wf(),
        ensures
            final(self)@ == old(self)@.step(input),
            action == final(self)@.pending,
            final(self)@.wf(),
    {
        if !self.accepts(&input) {
            return self.pending;
        }
        match self.pending {
            SessionAction::AcquireSource => match input {
                SessionInput::Done => {
                    self.pending = SessionAction::ConnectSink;
                },
                _ => {
                    self.fail(SessionError::SourceUnavailable);
                },
            },
            SessionAction::ConnectSink => match input {
                SessionInput::Done => {
                    self.pending = SessionAction::DiscoverActuators;
                },
                _ => {
                    self.fail(SessionError::SinkUnreachable);
                },
            },
            SessionAction::DiscoverActuators => match input {
                SessionInput::Actuators(devices) => {
                    self.choose_target(&devices);
                },
                _ => {
                    self.fail(SessionError::DiscoveryFailed);
                },
            },
            SessionAction::StartSource { .. } => {
                self.pending = SessionAction::AwaitEvent;
            },
            SessionAction::AwaitEvent => match input {
                SessionInput::Shutdown => {
                    self.end(EndCause::ShutdownRequested);
                },
                SessionInput::Event(BleEvent::RangeUpdate(distance_mm)) => {
                    self.forward(distance_mm);
                },
                SessionInput::Event(BleEvent::Disconnected) => {
                    self.end(EndCause::SourceDisconnected);
                },
                SessionInput::Tick { sink_connected } => {
                    if !sink_connected {
                        self.end(EndCause::SinkLost);
                    }
                },
                _ => {},
            },
            SessionAction::SendIntensity(v) => {
                self.pending = SessionAction::AwaitEvent;
                match input {
                    SessionInput::Done => {
                        self.toy.intensity_sent(v);
                    },
                    _ => {},
                }
            },
            SessionAction::StopSink => {
                self.pending = SessionAction::DisconnectSink;
                match input {
                    SessionInput::Done => {
                        self.toy.stopped();
                    },
                    _ => {},
                }
            },
            SessionAction::DisconnectSink => {
                self.pending = SessionAction::CancelSource;
            },
            SessionAction::CancelSource => {
                self.pending = SessionAction::Finish;
            },
            SessionAction::Finish => {},
        }
        self.pending
    }

    /// Gives establishment up.
    fn fail(&mut self, error: SessionError)
        requires
            old(self)@.wf(),
            old(self)@.state() == SessionState::Establishing,
        ensures
            final(self)@ == old(self)@.failed(error),
            final(self)@.wf(),
    {
        self.result = Some(Err(error));
        self.pending = SessionAction::Finish;
    }

    /// Begins teardown.
    fn end(&mut self, cause: EndCause)
        requires
            old(self)@.wf(),
            old(self)@.state() == SessionState::Active,
        ensures
            final(self)@ == old(self)@.ending(cause),
            final(self)@.wf(),
    {
        self.result = Some(Ok(cause));
        self.pending = SessionAction::StopSink;
    }

    /// Chooses the device to drive among those reported.
    fn choose_target(&mut self, devices: &Vec<DeviceInfo>)
        requires
            old(self)@.wf(),
            old(self)@.pending == SessionAction::DiscoverActuators,
        ensures
            final(self)@ == old(self)@.after_discovery(devices@),
            final(self)@.wf(),
    {
        match self.toy.find_device(devices, self.device_index) {
            Ok(at) => {
                self.pending = SessionAction::StartSource { target_at: at };
            },
            Err(e) => {
                self.fail(SessionError::NoActuator(e));
            },
        }
    }

    /// Maps a reading and decides whether the intensity is sent on.
    fn forward(&mut self, distance_mm: u16)
        requires
            old(self)@.wf(),
            old(self)@.pending == SessionAction::AwaitEvent,
        ensures
            final(self)@ == old(self)@.after_reading(distance_mm),
            final(self)@.wf(),
    {
        let intensity = self.mapper.map(distance_mm);
        match self.toy.set_intensity(intensity) {
            Ok(IntensityDecision::Send(v)) => {
                self.pending = SessionAction::SendIntensity(v);
            },
            _ => {},
        }
    }
}

/// What the supervisor does once a session has ended.
#[derive(Debug, Clone, Copy, PartialEq, Eq, Structural)]
pub enum SupervisorAction {
    /// Start no further session.
    Exit,
    /// Wait this many seconds, then start the next session.
    RetryAfter(u64),
}

/// Whether the supervisor starts no further session: a shutdown was
/// requested, or the session itself ended on one.
pub open spec fn is_final(outcome: Result<EndCause, SessionError>, shutdown_requested: bool) -> bool {
    shutdown_requested || outcome == Ok::<EndCause, SessionError>(EndCause::ShutdownRequested)
}

/// Decides what follows a session. Unless shutdown is requested, every
/// ending is followed by the same fixed delay and another attempt, whether
/// the session failed or its peer went away.
pub fn next_attempt(
    outcome: Result<EndCause, SessionError>,
    shutdown_requested: bool,
    reconnect_delay_secs: u64,
) -> (action: SupervisorAction)
    ensures
        action == if is_final(outcome, shutdown_requested) {
            SupervisorAction::Exit
        } else {
            SupervisorAction::RetryAfter(reconnect_delay_secs)
        },
{
    if shutdown_requested {
        return SupervisorAction::Exit;
    }
    match outcome {
        Ok(EndCause::ShutdownRequested) => SupervisorAction::Exit,
        _ => SupervisorAction::RetryAfter(reconnect_delay_secs),
    }
}

} // verus!

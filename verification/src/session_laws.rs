//! What holds of every session, whatever its driver reports.

use vstd::prelude::*;
use crate::ble::BleEvent;
use crate::mapper_laws::lemma_output_in_range;
use crate::session::{
    is_terminating,
    EndCause,
    SessionAction,
    SessionError,
    SessionInput,
    SessionModel,
    SessionState,
};

verus! {

/// The place of a state in the life of a session.
pub open spec fn rank(state: SessionState) -> int {
    match state {
        SessionState::Establishing => 0,
        SessionState::Active => 1,
        SessionState::Terminating => 2,
        SessionState::Ended => 3,
    }
}

/// The session after a run of inputs, taken in order.
pub open spec fn run(start: SessionModel, inputs: Seq<SessionInput>) -> SessionModel
    decreases inputs.len(),
{
    if inputs.len() == 0 {
        start
    } else {
        run(start, inputs.drop_last()).step(inputs.last())
    }
}

/// The actions that a session answers a run of inputs with, one for each
/// input, in order.
pub open spec fn issued(start: SessionModel, inputs: Seq<SessionInput>) -> Seq<SessionAction>
    decreases inputs.len(),
{
    if inputs.len() == 0 {
        Seq::empty()
    } else {
        issued(start, inputs.drop_last()).push(run(start, inputs).pending)
    }
}

/// How often `action` occurs in `actions`.
pub open spec fn count(actions: Seq<SessionAction>, action: SessionAction) -> nat
    decreases actions.len(),
{
    if actions.len() == 0 {
        0
    } else {
        count(actions.drop_last(), action) + if actions.last() == action {
            1nat
        } else {
            0nat
        }
    }
}

/// Whether no input of the run ends the active state.
pub open spec fn is_quiet(inputs: Seq<SessionInput>) -> bool {
    forall|i: int| 0 <= i < inputs.len() ==> !is_terminating(#[trigger] inputs[i])
}

/// The cause that a terminating input stands for.
pub open spec fn cause_of(input: SessionInput) -> EndCause {
    match input {
        SessionInput::Shutdown => EndCause::ShutdownRequested,
        SessionInput::Event(_) => EndCause::SourceDisconnected,
        _ => EndCause::SinkLost,
    }
}

/// A step keeps the invariant of a session.
pub proof fn lemma_step_keeps_wf(session: SessionModel, input: SessionInput)
    requires
        session.wf(),
    ensures
        session.step(input).wf(),
{
    if session.accepts(input) && session.pending == SessionAction::AwaitEvent {
        if let SessionInput::Event(BleEvent::RangeUpdate(distance_mm)) = input {
            lemma_output_in_range(session.mapper, distance_mm);
        }
    }
}

/// A session only moves forward through its states, an ended session
/// stays as it is, and the configuration of its mapper and the device
/// index asked for never change.
pub proof fn lemma_states_only_advance(session: SessionModel, input: SessionInput)
    ensures
        rank(session.state()) <= rank(session.step(input).state()),
        session.state() == SessionState::Ended ==> session.step(input) == session,
        session.step(input).mapper.config == session.mapper.config,
        session.step(input).device_index == session.device_index,
{
}

/// What is left of a session is decided by the state it is in: an active
/// session leaves that state only on a terminating input, and then for
/// teardown; establishment ends in the active state or in failure, never
/// in teardown.
pub proof fn lemma_exits_of_a_state(session: SessionModel, input: SessionInput)
    requires
        session.wf(),
    ensures
        session.state() == SessionState::Active ==> (if session.pending
            == SessionAction::AwaitEvent && is_terminating(input) {
            session.step(input) == session.ending(cause_of(input))
        } else {
            session.step(input).state() == SessionState::Active
        }),
        session.state() == SessionState::Establishing ==> session.step(input).state()
            != SessionState::Terminating,
        session.state() == SessionState::Establishing && session.step(input).state()
            == SessionState::Ended ==> session.step(input).result matches Some(Err(_)),
        session.state() == SessionState::Terminating ==> session.step(input).result
            == session.result,
{
}

/// Counting over a sequence with one more action at its end.
proof fn lemma_count_push(actions: Seq<SessionAction>, last: SessionAction, action: SessionAction)
    ensures
        count(actions.push(last), action) == count(actions, action) + if last == action {
            1nat
        } else {
            0nat
        },
{
    assert(actions.push(last).drop_last() =~= actions);
}

/// Running over a sequence with one more input at its end.
proof fn lemma_run_push(start: SessionModel, inputs: Seq<SessionInput>, last: SessionInput)
    ensures
        run(start, inputs.push(last)) == run(start, inputs).step(last),
        issued(start, inputs.push(last)) == issued(start, inputs).push(
            run(start, inputs).step(last).pending,
        ),
{
    assert(inputs.push(last).drop_last() =~= inputs);
}

/// While no input ends the active state, an active session stays active
/// and asks for no part of teardown, however many inputs there are.
pub proof fn lemma_quiet_run_stays_active(start: SessionModel, inputs: Seq<SessionInput>)
    requires
        start.wf(),
        start.state() == SessionState::Active,
        is_quiet(inputs),
    ensures
        run(start, inputs).wf(),
        run(start, inputs).state() == SessionState::Active,
        issued(start, inputs).len() == inputs.len(),
        count(issued(start, inputs), SessionAction::StopSink) == 0,
        count(issued(start, inputs), SessionAction::DisconnectSink) == 0,
        count(issued(start, inputs), SessionAction::CancelSource) == 0,
    decreases inputs.len(),
{
    if inputs.len() > 0 {
        let before = inputs.drop_last();
        assert(is_quiet(before)) by {
            assert forall|i: int| 0 <= i < before.len() implies !is_terminating(
                #[trigger] before[i],
            ) by {
                assert(before[i] == inputs[i]);
            }
        }
        lemma_quiet_run_stays_active(start, before);
        let last = inputs.last();
        assert(!is_terminating(last)) by {
            assert(last == inputs[inputs.len() - 1]);
        }
        lemma_step_keeps_wf(run(start, before), last);
        lemma_exits_of_a_state(run(start, before), last);
        let action = run(start, inputs).pending;
        lemma_count_push(issued(start, before), action, SessionAction::StopSink);
        lemma_count_push(issued(start, before), action, SessionAction::DisconnectSink);
        lemma_count_push(issued(start, before), action, SessionAction::CancelSource);
    }
}

/// An active session that is waiting when an input ends the active state
/// goes to teardown on it and from there to its end. Over the whole run
/// the driver is asked exactly once to stop the actuator, exactly once to
/// disconnect from it and exactly once to stop listening to the sensor,
/// however many inputs went before and whether or not the three requests
/// succeed. The session ends without an error, for the cause that the
/// input stands for.
pub proof fn lemma_teardown_happens_once(
    start: SessionModel,
    before: Seq<SessionInput>,
    closing: SessionInput,
    stop_answer: SessionInput,
    disconnect_answer: SessionInput,
    cancel_answer: SessionInput,
)
    requires
        start.wf(),
        start.state() == SessionState::Active,
        is_quiet(before),
        run(start, before).pending == SessionAction::AwaitEvent,
        is_terminating(closing),
        stop_answer is Done || stop_answer is Failed,
        disconnect_answer is Done || disconnect_answer is Failed,
        cancel_answer is Done || cancel_answer is Failed,
    ensures
        ({
            let inputs = before.push(closing).push(stop_answer).push(disconnect_answer).push(
                cancel_answer,
            );
            &&& run(start, before.push(closing)).state() == SessionState::Terminating
            &&& run(start, before.push(closing)).pending == SessionAction::StopSink
            &&& count(issued(start, inputs), SessionAction::StopSink) == 1
            &&& count(issued(start, inputs), SessionAction::DisconnectSink) == 1
            &&& count(issued(start, inputs), SessionAction::CancelSource) == 1
            &&& run(start, inputs).state() == SessionState::Ended
            &&& run(start, inputs).outcome() == Some(
                Ok::<EndCause, SessionError>(cause_of(closing)),
            )
        }),
{
    lemma_quiet_run_stays_active(start, before);
    let s0 = run(start, before);
    let a0 = issued(start, before);
    let i1 = before.push(closing);
    let i2 = i1.push(stop_answer);
    let i3 = i2.push(disconnect_answer);
    let i4 = i3.push(cancel_answer);
    lemma_run_push(start, before, closing);
    lemma_run_push(start, i1, stop_answer);
    lemma_run_push(start, i2, disconnect_answer);
    lemma_run_push(start, i3, cancel_answer);
    let s1 = s0.step(closing);
    let s2 = s1.step(stop_answer);
    let s3 = s2.step(disconnect_answer);
    let s4 = s3.step(cancel_answer);
    assert(s1.pending == SessionAction::StopSink);
    assert(s2.pending == SessionAction::DisconnectSink);
    assert(s3.pending == SessionAction::CancelSource);
    assert(s4.pending == SessionAction::Finish);
    let a1 = a0.push(s1.pending);
    let a2 = a1.push(s2.pending);
    let a3 = a2.push(s3.pending);
    lemma_count_push(a0, s1.pending, SessionAction::StopSink);
    lemma_count_push(a1, s2.pending, SessionAction::StopSink);
    lemma_count_push(a2, s3.pending, SessionAction::StopSink);
    lemma_count_push(a3, s4.pending, SessionAction::StopSink);
    lemma_count_push(a0, s1.pending, SessionAction::DisconnectSink);
    lemma_count_push(a1, s2.pending, SessionAction::DisconnectSink);
    lemma_count_push(a2, s3.pending, SessionAction::DisconnectSink);
    lemma_count_push(a3, s4.pending, SessionAction::DisconnectSink);
    lemma_count_push(a0, s1.pending, SessionAction::CancelSource);
    lemma_count_push(a1, s2.pending, SessionAction::CancelSource);
    lemma_count_push(a2, s3.pending, SessionAction::CancelSource);
    lemma_count_push(a3, s4.pending, SessionAction::CancelSource);
}

/// As long as the intensity mapped from a reading is within the
/// negligible change of the last intensity sent, a waiting session maps
/// the reading and goes on waiting: the actuator is told nothing.
pub proof fn lemma_negligible_reading_sends_nothing(session: SessionModel, distance_mm: u16)
    requires
        session.wf(),
        session.pending == SessionAction::AwaitEvent,
        session.toy.is_negligible(session.mapper.output(distance_mm)),
    ensures
        session.step(SessionInput::Event(BleEvent::RangeUpdate(distance_mm))).pending
            == SessionAction::AwaitEvent,
        session.step(SessionInput::Event(BleEvent::RangeUpdate(distance_mm))).toy == session.toy,
        session.step(SessionInput::Event(BleEvent::RangeUpdate(distance_mm))).mapper
            == session.mapper.after(distance_mm),
{
}

} // verus!

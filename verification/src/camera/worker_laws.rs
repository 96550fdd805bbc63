//! What holds of the camera worker over several events.

use vstd::prelude::*;

use crate::camera::worker::{
    answer_of, error_of, is_busy, release_effects, report, CameraError, HandlerTask, Worker,
    WorkerEffect, WorkerEvent, WorkerPhase, HANDLER_ATTEMPTS, HANDLER_RETRY_MS, RELEASE_MS,
    SETTLE_MS, STATUS_RETRIES, STATUS_RETRY_MS,
};
use crate::websocket::scheme::{
    disconnected_status, CameraStatus, ConnectToCamera, MessageToClient, MessageToServer,
};

verus! {

/// The worker after some events, and all that it did on the way.
pub open spec fn run<C, S>(worker: Worker<C>, events: Seq<WorkerEvent<C, S>>) -> (
    Worker<C>,
    Seq<WorkerEffect<S>>,
)
    decreases events.len(),
{
    if events.len() == 0 {
        (worker, Seq::empty())
    } else {
        let (before, done) = run(worker, events.drop_last());
        let (after, effects) = before.after(events.last());
        (after, done + effects)
    }
}

/// The worker waited for each of the events when it came.
pub open spec fn can_run<C, S>(worker: Worker<C>, events: Seq<WorkerEvent<C, S>>) -> bool
    decreases events.len(),
{
    events.len() > 0 ==> {
        &&& can_run(worker, events.drop_last())
        &&& run(worker, events.drop_last()).0.awaits(events.last())
    }
}

/// The worker's invariant holds after every run that starts with it.
pub proof fn law_invariant_is_kept<C, S>(worker: Worker<C>, events: Seq<WorkerEvent<C, S>>)
    requires
        worker.wf(),
        can_run(worker, events),
    ensures
        run(worker, events).0.wf(),
    decreases events.len(),
{
    if events.len() > 0 {
        law_invariant_is_kept(worker, events.drop_last());
    }
}

/// What the other workers believe of the connection after hearing the announcements among
/// some effects.
pub open spec fn believed<S>(before: bool, effects: Seq<WorkerEffect<S>>) -> bool
    decreases effects.len(),
{
    if effects.len() == 0 {
        before
    } else if effects.last() is AnnounceConnected {
        true
    } else if effects.last() is AnnounceDisconnected {
        false
    } else {
        believed(before, effects.drop_last())
    }
}

/// No connection is announced among some effects.
pub open spec fn announces_none<S>(effects: Seq<WorkerEffect<S>>) -> bool {
    forall|i: int| 0 <= i < effects.len() ==> !(#[trigger] effects[i] is AnnounceConnected)
}

proof fn lemma_believed_concat<S>(before: bool, first: Seq<WorkerEffect<S>>, second: Seq<WorkerEffect<S>>)
    ensures
        believed(before, first + second) == believed(believed(before, first), second),
    decreases second.len(),
{
    if second.len() == 0 {
        assert(first + second =~= first);
    } else {
        lemma_believed_concat(before, first, second.drop_last());
        assert((first + second).drop_last() =~= first + second.drop_last());
    }
}

/// One event: the announcements tell whether there is a connection, and a connection that
/// is not announced is the one of before.
pub proof fn law_announcements_of_one_event<C, S>(worker: Worker<C>, event: WorkerEvent<C, S>)
    requires
        worker.wf(),
        worker.awaits(event),
    ensures
        ({
            let (next, effects) = worker.after(event);
            &&& believed(worker.connection is Some, effects) == (next.connection is Some)
            &&& announces_none(effects) && next.connection is Some ==> next.connection
                == worker.connection
        }),
{
    reveal_with_fuel(believed, 6);
    let (next, effects) = worker.after(event);
    if announces_none(effects) && next.connection is Some {
        assert(effects.len() > 0 ==> !(effects[0] is AnnounceConnected));
    }
}

/// The other workers are never wrong about the connection: after every run, what the
/// announcements said is whether there is one.
pub proof fn law_announcements_tell_the_truth<C, S>(worker: Worker<C>, events: Seq<WorkerEvent<C, S>>)
    requires
        worker.wf(),
        can_run(worker, events),
    ensures
        believed(worker.connection is Some, run(worker, events).1) == (run(
            worker,
            events,
        ).0.connection is Some),
    decreases events.len(),
{
    if events.len() > 0 {
        let (before, done) = run(worker, events.drop_last());
        law_announcements_tell_the_truth(worker, events.drop_last());
        law_invariant_is_kept(worker, events.drop_last());
        law_announcements_of_one_event(before, events.last());
        lemma_believed_concat(worker.connection is Some, done, before.after(events.last()).1);
    }
}

/// While there is no connection, the status that the worker keeps is that of no connection.
pub proof fn law_kept_status_is_reset<C, S>(worker: Worker<C>, events: Seq<WorkerEvent<C, S>>)
    requires
        worker.wf(),
        worker.connection is None ==> worker.last_status == disconnected_status(),
        can_run(worker, events),
    ensures
        run(worker, events).0.connection is None ==> run(worker, events).0.last_status
            == disconnected_status(),
    decreases events.len(),
{
    if events.len() > 0 {
        law_kept_status_is_reset(worker, events.drop_last());
        law_invariant_is_kept(worker, events.drop_last());
    }
}

/// The status that clients were told last among some effects, or the one of before.
pub open spec fn last_told<S>(before: CameraStatus, effects: Seq<WorkerEffect<S>>) -> CameraStatus
    decreases effects.len(),
{
    if effects.len() == 0 {
        before
    } else {
        match effects.last() {
            WorkerEffect::<S>::Reply(MessageToClient::CameraStatus(status)) => status,
            _ => last_told(before, effects.drop_last()),
        }
    }
}

proof fn lemma_last_told_concat<S>(
    before: CameraStatus,
    first: Seq<WorkerEffect<S>>,
    second: Seq<WorkerEffect<S>>,
)
    ensures
        last_told(before, first + second) == last_told(last_told(before, first), second),
    decreases second.len(),
{
    if second.len() == 0 {
        assert(first + second =~= first);
    } else {
        lemma_last_told_concat(before, first, second.drop_last());
        assert((first + second).drop_last() =~= first + second.drop_last());
    }
}

/// Each status that goes to the clients is the one that is kept from then on, and no other
/// status is kept without going to them.
pub proof fn law_told_status_is_kept<C, S>(worker: Worker<C>, event: WorkerEvent<C, S>)
    requires
        worker.wf(),
        worker.connection is None ==> worker.last_status == disconnected_status(),
        worker.awaits(event),
    ensures
        ({
            let (next, effects) = worker.after(event);
            &&& forall|i: int|
                0 <= i < effects.len() ==> (#[trigger] effects[i] matches WorkerEffect::<S>::Reply(
                    MessageToClient::CameraStatus(status),
                ) ==> status == next.last_status)
            &&& last_told(worker.last_status, effects) == next.last_status
        }),
{
    reveal_with_fuel(last_told, 6);
}

/// After every run the status that is kept is the one that clients were told last, or that
/// of before if they were told none.
pub proof fn law_kept_status_was_told<C, S>(worker: Worker<C>, events: Seq<WorkerEvent<C, S>>)
    requires
        worker.wf(),
        worker.connection is None ==> worker.last_status == disconnected_status(),
        can_run(worker, events),
    ensures
        last_told(worker.last_status, run(worker, events).1) == run(worker, events).0.last_status,
    decreases events.len(),
{
    if events.len() > 0 {
        let (before, done) = run(worker, events.drop_last());
        law_kept_status_was_told(worker, events.drop_last());
        law_kept_status_is_reset(worker, events.drop_last());
        law_invariant_is_kept(worker, events.drop_last());
        law_told_status_is_kept(before, events.last());
        lemma_last_told_concat(worker.last_status, done, before.after(events.last()).1);
    }
}

/// Asking for the status never costs the connection: whatever the camera says, there is one
/// answer, the status that was read or else the last one known, and the connection stays.
pub proof fn law_status_question_keeps_the_connection<C, S>(
    worker: Worker<C>,
    outcome: Result<CameraStatus, CameraError>,
)
    requires
        worker.connection is Some,
        worker.phase is Idle,
    ensures
        ({
            let events = seq![
                WorkerEvent::<C, S>::Message(MessageToServer::<S>::GetCameraStatus),
                WorkerEvent::StatusRead(outcome),
            ];
            let status = match outcome {
                Ok(status) => status,
                Err(_) => worker.last_status,
            };
            &&& can_run(worker, events)
            &&& run(worker, events) == (
                Worker { last_status: status, ..worker },
                seq![WorkerEffect::<S>::Reply(MessageToClient::CameraStatus(status))],
            )
        }),
{
    let first = seq![WorkerEvent::<C, S>::Message(MessageToServer::<S>::GetCameraStatus)];
    let events = seq![
        WorkerEvent::<C, S>::Message(MessageToServer::<S>::GetCameraStatus),
        WorkerEvent::StatusRead(outcome),
    ];
    lemma_run_one(worker, first[0]);
    assert(events.drop_last() =~= first);
    assert(run(worker, events).1 =~= Seq::<WorkerEffect<S>>::empty() + run(worker, events).1);
}

/// A run of one event is a step.
proof fn lemma_run_one<C, S>(worker: Worker<C>, event: WorkerEvent<C, S>)
    ensures
        run(worker, seq![event]) == worker.after(event),
        can_run(worker, seq![event]) == worker.awaits(event),
{
    let events = seq![event];
    reveal_with_fuel(run, 2);
    reveal_with_fuel(can_run, 2);
    assert(events.drop_last() =~= Seq::empty());
    assert(Seq::<WorkerEffect<S>>::empty() + worker.after(event).1 =~= worker.after(event).1);
}

/// An event that tells of a failure of this work.
pub open spec fn is_failure<C, S>(task: HandlerTask, event: WorkerEvent<C, S>) -> bool {
    task.expects(event) && error_of(event) is Some
}

/// The rests after so many failed attempts.
pub open spec fn retry_rests<S>(attempts: nat) -> Seq<WorkerEffect<S>> {
    Seq::new(attempts, |i: int| WorkerEffect::<S>::Sleep(HANDLER_RETRY_MS))
}

/// Work that fails is tried `HANDLER_ATTEMPTS` times and no more: before that nobody hears of
/// the failures and the connection stays; with the last one its error is reported, the
/// connection given up, and the clients told that there is none.
pub proof fn law_failing_work_is_given_up<C, S>(
    worker: Worker<C>,
    task: HandlerTask,
    events: Seq<WorkerEvent<C, S>>,
)
    requires
        worker.connection is Some,
        worker.phase == (WorkerPhase::Handling { task, failures: 0 }),
        events.len() <= HANDLER_ATTEMPTS,
        forall|i: int| 0 <= i < events.len() ==> is_failure(task, #[trigger] events[i]),
    ensures
        can_run(worker, events),
        events.len() < HANDLER_ATTEMPTS ==> run(worker, events) == (
            worker.in_phase(WorkerPhase::Handling { task, failures: events.len() as u64 }),
            retry_rests::<S>(events.len()),
        ),
        events.len() == HANDLER_ATTEMPTS ==> run(worker, events) == (
            worker.released(),
            retry_rests::<S>(events.len()) + seq![report::<S>(error_of(events.last())->0)]
                + release_effects::<S>(),
        ),
    decreases events.len(),
{
    if events.len() == 0 {
        assert(retry_rests::<S>(0) =~= Seq::empty());
    } else {
        let earlier = events.drop_last();
        assert forall|i: int| 0 <= i < earlier.len() implies is_failure(
            task,
            #[trigger] earlier[i],
        ) by {
            assert(is_failure(task, events[i]));
        }
        law_failing_work_is_given_up(worker, task, earlier);
        assert(is_failure(task, events[events.len() - 1]));
        assert(retry_rests::<S>(earlier.len()).push(WorkerEffect::<S>::Sleep(HANDLER_RETRY_MS))
            =~= retry_rests::<S>(events.len()));
        assert(run(worker, events).1 =~= if events.len() < HANDLER_ATTEMPTS {
            retry_rests::<S>(events.len())
        } else {
            retry_rests::<S>(events.len()) + seq![report::<S>(error_of(events.last())->0)]
                + release_effects::<S>()
        });
    }
}

/// Work that succeeds after fewer failures than that is answered as if it had succeeded at
/// once, and the connection stays; a new connection takes the place of the old one.
pub proof fn law_work_may_succeed_late<C, S>(
    worker: Worker<C>,
    task: HandlerTask,
    events: Seq<WorkerEvent<C, S>>,
    success: WorkerEvent<C, S>,
)
    requires
        worker.connection is Some,
        worker.phase == (WorkerPhase::Handling { task, failures: 0 }),
        events.len() < HANDLER_ATTEMPTS,
        forall|i: int| 0 <= i < events.len() ==> is_failure(task, #[trigger] events[i]),
        task.expects(success),
        error_of(success) is None,
    ensures
        can_run(worker, events.push(success)),
        run(worker, events.push(success)).0 == worker.after(success).0,
        run(worker, events.push(success)).1 == retry_rests::<S>(events.len()) + worker.after(success).1,
        success matches WorkerEvent::Connected(Ok(connection)) ==> worker.after(success).0
            == worker.after_connection::<S>(connection).0,
        !(success is Connected) ==> worker.after(success) == (
            worker.in_phase(WorkerPhase::Idle),
            answer_of(success),
        ),
{
    law_failing_work_is_given_up(worker, task, events);
    assert(events.push(success).drop_last() =~= events);
}

/// The rests between so many questions for the status of a busy camera.
pub open spec fn status_rests<S>(questions: nat) -> Seq<WorkerEffect<S>> {
    Seq::new(questions, |i: int| WorkerEffect::<S>::Sleep((STATUS_RETRY_MS * (i + 1)) as u64))
}

/// The camera was busy when its status was asked for.
pub open spec fn found_busy<C, S>(event: WorkerEvent<C, S>) -> bool {
    event matches WorkerEvent::StatusRead(Err(error)) && is_busy(error)
}

/// A new connection that is busy is asked again, after ever longer rests, and clients hear
/// nothing of it.
pub proof fn law_busy_camera_is_asked_again<C, S>(worker: Worker<C>, events: Seq<WorkerEvent<C, S>>)
    requires
        worker.connection is Some,
        worker.phase == (WorkerPhase::Settling { retries: 0 }),
        events.len() <= STATUS_RETRIES,
        forall|i: int| 0 <= i < events.len() ==> found_busy(#[trigger] events[i]),
    ensures
        can_run(worker, events),
        run(worker, events) == (
            worker.in_phase(WorkerPhase::Settling { retries: events.len() as u64 }),
            status_rests::<S>(events.len()),
        ),
    decreases events.len(),
{
    if events.len() == 0 {
        assert(status_rests::<S>(0) =~= Seq::empty());
    } else {
        let earlier = events.drop_last();
        assert forall|i: int| 0 <= i < earlier.len() implies found_busy(#[trigger] earlier[i]) by {
            assert(found_busy(events[i]));
        }
        law_busy_camera_is_asked_again(worker, earlier);
        assert(found_busy(events[events.len() - 1]));
        assert(run(worker, events).1 =~= status_rests::<S>(events.len()));
    }
}

/// A new connection settles after `STATUS_RETRIES + 1` questions at the latest, and keeps its
/// connection in any case: with the status, which is kept and sent, or with the error of the
/// last question, which is sent.
pub proof fn law_new_connection_settles<C, S>(
    worker: Worker<C>,
    events: Seq<WorkerEvent<C, S>>,
    outcome: Result<CameraStatus, CameraError>,
)
    requires
        worker.connection is Some,
        worker.phase == (WorkerPhase::Settling { retries: 0 }),
        events.len() <= STATUS_RETRIES,
        forall|i: int| 0 <= i < events.len() ==> found_busy(#[trigger] events[i]),
        outcome matches Err(error) ==> events.len() == STATUS_RETRIES || !is_busy(error),
    ensures
        can_run(worker, events.push(WorkerEvent::StatusRead(outcome))),
        run(worker, events.push(WorkerEvent::StatusRead(outcome))) == (
            match outcome {
                Ok(status) => Worker { last_status: status, phase: WorkerPhase::Idle, ..worker },
                Err(_) => worker.in_phase(WorkerPhase::Idle),
            },
            status_rests::<S>(events.len()) + seq![
                WorkerEffect::<S>::Reply(
                    match outcome {
                        Ok(status) => MessageToClient::CameraStatus(status),
                        Err(error) => MessageToClient::CameraError(error),
                    },
                ),
            ],
        ),
{
    law_busy_camera_is_asked_again(worker, events);
    assert(events.push(WorkerEvent::StatusRead(outcome)).drop_last() =~= events);
}

/// A message that cannot be dealt with unless a camera is connected.
pub open spec fn needs_camera<S>(msg: MessageToServer<S>) -> bool {
    match msg {
        MessageToServer::GetDetectedCameras
        | MessageToServer::<S>::GetCameraStatus
        | MessageToServer::<S>::ConnectToCamera(_)
        | MessageToServer::<S>::SetPostProcessingConfigs(_)
        | MessageToServer::<S>::Shutdown => false,
        _ => true,
    }
}

/// Without a connection and without a camera to go back to, a message that needs a camera
/// is answered with `NotConnected`, and nothing changes.
pub proof fn law_no_camera_no_service<C, S>(worker: Worker<C>, msg: MessageToServer<S>)
    requires
        worker.connection is None,
        worker.phase is Idle,
        worker.last_port is None || worker.last_model is None,
        needs_camera(msg),
    ensures
        worker.after(WorkerEvent::Message(msg)) == (
            worker,
            seq![report::<S>(CameraError::NotConnected)],
        ),
{
}

/// Without a connection but with a camera to go back to, a message that needs a camera has
/// the worker connect to that camera, and is itself dealt with no further: if that works the
/// clients hear nothing, otherwise they hear the error.
pub proof fn law_known_camera_is_taken_up_again<C, S>(
    worker: Worker<C>,
    msg: MessageToServer<S>,
    outcome: Result<C, CameraError>,
)
    requires
        worker.connection is None,
        worker.phase is Idle,
        worker.last_port is Some,
        worker.last_model is Some,
        needs_camera(msg),
    ensures
        ({
            let events = seq![WorkerEvent::Message(msg), WorkerEvent::Connected(outcome)];
            &&& can_run(worker, events)
            &&& run(worker, events) == match outcome {
                Ok(connection) => (
                    Worker { connection: Some(connection), ..worker },
                    seq![WorkerEffect::<S>::AnnounceConnected],
                ),
                Err(error) => (worker, seq![report::<S>(error)]),
            }
        }),
{
    let first = seq![WorkerEvent::<C, S>::Message(msg)];
    let events = seq![WorkerEvent::Message(msg), WorkerEvent::Connected(outcome)];
    lemma_run_one(worker, first[0]);
    assert(events.drop_last() =~= first);
    let last = worker.after(first[0]).0.after(events.last());
    assert(run(worker, events).1 =~= last.1);
}

/// Disconnecting gives up the connection and tells the clients so, and the worker still
/// knows the camera to go back to.
pub proof fn law_disconnecting_releases_the_camera<C, S>(worker: Worker<C>)
    requires
        worker.connection is Some,
        worker.phase is Idle,
    ensures
        worker.after(WorkerEvent::Message(MessageToServer::<S>::DisconnectCamera)) == (
            Worker { connection: None, last_status: disconnected_status(), ..worker },
            seq![
                WorkerEffect::<S>::AnnounceDisconnected,
                WorkerEffect::<S>::Sleep(RELEASE_MS),
                WorkerEffect::<S>::Reply(MessageToClient::CameraStatus(disconnected_status())),
            ],
        ),
{
}

/// Connecting where there was no connection: the wish is remembered, whatever comes of it.
/// If it works the connection is announced and rests before its status is read; otherwise
/// the error is reported.
pub proof fn law_connecting_on_a_wish<C, S>(
    worker: Worker<C>,
    wish: ConnectToCamera,
    outcome: Result<C, CameraError>,
)
    requires
        worker.connection is None,
        worker.phase is Idle,
    ensures
        ({
            let events = seq![
                WorkerEvent::Message(MessageToServer::<S>::ConnectToCamera(wish)),
                WorkerEvent::Connected(outcome),
            ];
            let told = Worker { last_port: wish.port, last_model: wish.model, ..worker };
            &&& can_run(worker, events)
            &&& run(worker, events) == match outcome {
                Ok(connection) => (
                    Worker {
                        connection: Some(connection),
                        phase: WorkerPhase::Settling { retries: 0 },
                        ..told
                    },
                    seq![WorkerEffect::<S>::AnnounceConnected, WorkerEffect::<S>::Sleep(SETTLE_MS)],
                ),
                Err(error) => (told, seq![report::<S>(error)]),
            }
        }),
{
    let first = seq![WorkerEvent::<C, S>::Message(MessageToServer::<S>::ConnectToCamera(wish))];
    let events = seq![
        WorkerEvent::Message(MessageToServer::<S>::ConnectToCamera(wish)),
        WorkerEvent::Connected(outcome),
    ];
    lemma_run_one(worker, first[0]);
    assert(events.drop_last() =~= first);
    let last = worker.after(first[0]).0.after(events.last());
    assert(run(worker, events).1 =~= last.1);
}

} // verus!

//! What each message of a client comes to, from the message to the answer, and what the
//! camera worker does with each answer of the camera.

use vstd::prelude::*;

use crate::camera::connection::ConnectTarget;
use crate::camera::worker::{
    is_busy, plan_of, CameraError, HandlerPlan, HandlerTask, Worker, WorkerEffect, WorkerEvent,
    WorkerPhase, WorkerRequest,
};
use crate::text::law_text_in_the_middle;
use crate::websocket::scheme::{
    disconnected_status, CameraConfig, CameraList, CameraStatus, CaptureImage, ConnectToCamera,
    Image, MessageToClient, MessageToServer, PostProcessingConfig, UpdateCameraConfig,
};

verus! {

/// A camera that is busy says so somewhere in an error of its driver, and nothing else tells
/// that it is.
pub proof fn law_busy_camera_says_so(error: CameraError)
    ensures
        is_busy(error) <==> (error matches CameraError::Gphoto2Error(text)
            && exists|before: Seq<char>, behind: Seq<char>|
            text@ == #[trigger] (before + "io in progress"@ + behind)),
{
    if error is Gphoto2Error {
        law_text_in_the_middle(error->Gphoto2Error_0@, "io in progress"@);
    }
}

/// What a worker waits for: the next message while it is idle, an answer of the kind that it
/// asked for otherwise, and nothing once it has stopped.
pub proof fn law_worker_waits_for_its_answer<C, S>(worker: Worker<C>, event: WorkerEvent<C, S>)
    ensures
        worker.phase is Idle ==> (worker.awaits(event) <==> event is Message
            || event is ChannelClosed),
        worker.phase is Stopped ==> !worker.awaits(event),
        worker.request_of() is Receive <==> worker.phase is Idle,
        worker.request_of() is Stop <==> worker.phase is Stopped,
        worker.request_of() is ListCameras ==> (worker.awaits(event) <==> event is CamerasListed),
        worker.request_of() is Connect ==> (worker.awaits(event) <==> event is Connected),
        worker.request_of() is ReadStatus ==> (worker.awaits(event) <==> event is StatusRead),
        worker.request_of() is ReadConfig ==> (worker.awaits(event) <==> event is ConfigRead),
        worker.request_of() is CapturePreview ==> (worker.awaits(event)
            <==> event is PreviewCaptured),
        worker.request_of() is WriteConfig ==> (worker.awaits(event) <==> event is ConfigWritten),
{
}

/// A worker that gets no more messages stops, and does nothing else.
pub proof fn law_worker_stops_without_messages<C, S>(worker: Worker<C>)
    requires
        worker.phase is Idle,
    ensures
        worker.after(WorkerEvent::<C, S>::ChannelClosed) == (
            Worker { phase: WorkerPhase::Stopped, ..worker },
            Seq::<WorkerEffect<S>>::empty(),
        ),
        (Worker { phase: WorkerPhase::Stopped, ..worker }).request_of() == WorkerRequest::Stop,
{
}

/// Without a camera, a question for the cameras that there are is put to the driver, and
/// answered with the list or the error; nothing else changes.
pub proof fn law_cameras_are_listed_without_a_camera<C, S>(
    worker: Worker<C>,
    outcome: Result<CameraList, CameraError>,
)
    requires
        worker.phase is Idle,
        worker.connection is None,
    ensures
        ({
            let (asking, done) = worker.after(
                WorkerEvent::<C, S>::Message(MessageToServer::GetDetectedCameras),
            );
            &&& done == Seq::<WorkerEffect<S>>::empty()
            &&& asking.request_of() == WorkerRequest::ListCameras
            &&& asking.after(WorkerEvent::<C, S>::CamerasListed(outcome)) == (
                worker,
                seq![
                    WorkerEffect::<S>::Reply(
                        match outcome {
                            Ok(list) => MessageToClient::CameraList(list),
                            Err(error) => MessageToClient::CameraError(error),
                        },
                    ),
                ],
            )
        }),
{
}

/// Without a camera, a question for the status is answered at once: there is no connection,
/// and nothing is known of a camera.
pub proof fn law_status_without_a_camera<C, S>(worker: Worker<C>)
    requires
        worker.phase is Idle,
        worker.connection is None,
    ensures
        worker.after(WorkerEvent::<C, S>::Message(MessageToServer::GetCameraStatus)) == (
            worker,
            seq![
                WorkerEffect::<S>::Reply(
                    MessageToClient::CameraStatus(
                        CameraStatus {
                            connected: false,
                            camera_id: None,
                            model: None,
                            port: None,
                            about: None,
                            summary: None,
                            available_folder_operations: None,
                            available_file_operations: None,
                            available_camera_operations: None,
                        },
                    ),
                ),
            ],
        ),
{
}

/// A wish for a camera where there is none: the worker asks for exactly the camera that the
/// wish names by port and model, or for any where it does not name both, and remembers the
/// wish. A connection is announced and rests for half a second before its status is read; an
/// error is reported.
pub proof fn law_wished_camera_is_connected<C, S>(
    worker: Worker<C>,
    wish: ConnectToCamera,
    outcome: Result<C, CameraError>,
)
    requires
        worker.phase is Idle,
        worker.connection is None,
    ensures
        ({
            let (asking, done) = worker.after(
                WorkerEvent::<C, S>::Message(MessageToServer::ConnectToCamera(wish)),
            );
            let (next, effects) = asking.after(WorkerEvent::<C, S>::Connected(outcome));
            &&& done == Seq::<WorkerEffect<S>>::empty()
            &&& wish.port is Some && wish.model is Some ==> asking.request_of()
                == WorkerRequest::Connect(
                ConnectTarget::Camera { port: &wish.port->0, model: &wish.model->0 },
            )
            &&& wish.port is None || wish.model is None ==> asking.request_of()
                == WorkerRequest::Connect(ConnectTarget::Any)
            &&& next.last_port == wish.port
            &&& next.last_model == wish.model
            &&& next.last_status == worker.last_status
            &&& outcome matches Ok(connection) ==> {
                &&& next.connection == Some(connection)
                &&& next.phase == (WorkerPhase::Settling { retries: 0 })
                &&& next.request_of() == WorkerRequest::ReadStatus
                &&& effects == seq![
                    WorkerEffect::<S>::AnnounceConnected,
                    WorkerEffect::<S>::Sleep(500),
                ]
            }
            &&& outcome matches Err(error) ==> {
                &&& next.connection is None
                &&& next.phase is Idle
                &&& effects == seq![
                    WorkerEffect::<S>::Reply(MessageToClient::CameraError(error)),
                ]
            }
        }),
{
}

/// Without a camera but with a known one, a message that needs a camera has the worker ask
/// for exactly the camera with the known port and model, and for no other.
pub proof fn law_known_camera_is_asked_for<C, S>(
    worker: Worker<C>,
    msg: MessageToServer<S>,
    port: String,
    model: String,
    outcome: Result<C, CameraError>,
)
    requires
        worker.phase is Idle,
        worker.connection is None,
        worker.last_port == Some(port),
        worker.last_model == Some(model),
        !(msg is GetDetectedCameras),
        !(msg is GetCameraStatus),
        !(msg is ConnectToCamera),
        !(msg is SetPostProcessingConfigs),
        !(msg is Shutdown),
    ensures
        ({
            let (asking, done) = worker.after(WorkerEvent::<C, S>::Message(msg));
            &&& done == Seq::<WorkerEffect<S>>::empty()
            &&& asking.request_of() == WorkerRequest::Connect(
                ConnectTarget::Camera { port: &port, model: &model },
            )
            &&& asking.after(WorkerEvent::<C, S>::Connected(outcome)) == match outcome {
                Ok(connection) => (
                    Worker { connection: Some(connection), ..worker },
                    seq![WorkerEffect::<S>::AnnounceConnected],
                ),
                Err(error) => (
                    worker,
                    seq![WorkerEffect::<S>::Reply(MessageToClient::CameraError(error))],
                ),
            }
        }),
{
}

/// Without a camera and without a known one, a message that needs a camera changes nothing,
/// and the one answer is that there is no connection.
pub proof fn law_unknown_camera_is_not_asked_for<C, S>(worker: Worker<C>, msg: MessageToServer<S>)
    requires
        worker.phase is Idle,
        worker.connection is None,
        worker.last_port is None || worker.last_model is None,
        !(msg is GetDetectedCameras),
        !(msg is GetCameraStatus),
        !(msg is ConnectToCamera),
        !(msg is SetPostProcessingConfigs),
        !(msg is Shutdown),
    ensures
        worker.after(WorkerEvent::<C, S>::Message(msg)) == (
            worker,
            seq![WorkerEffect::<S>::Reply(MessageToClient::CameraError(CameraError::NotConnected))],
        ),
{
}

/// Configurations go to the post-processing worker as they are, with and without a camera,
/// and nothing else comes of them.
pub proof fn law_configs_are_handed_on<C, S>(
    worker: Worker<C>,
    configs: Vec<PostProcessingConfig<S>>,
)
    requires
        worker.phase is Idle,
    ensures
        worker.after(
            WorkerEvent::<C, S>::Message(MessageToServer::SetPostProcessingConfigs(configs)),
        ) == (worker, seq![WorkerEffect::<S>::ForwardConfigs(configs)]),
{
}

/// The system is shut down on a client's wish, with and without a camera, and nothing else
/// comes of it.
pub proof fn law_system_is_shut_down<C, S>(worker: Worker<C>)
    requires
        worker.phase is Idle,
    ensures
        worker.after(WorkerEvent::<C, S>::Message(MessageToServer::Shutdown)) == (
            worker,
            seq![WorkerEffect::<S>::PowerOff],
        ),
{
}

/// A capture with a camera is started at once, with the settings of the client and no others,
/// and the worker goes on as before.
pub proof fn law_capture_starts_with_its_settings<C, S>(worker: Worker<C>, settings: CaptureImage)
    requires
        worker.phase is Idle,
        worker.connection is Some,
    ensures
        worker.after(WorkerEvent::<C, S>::Message(MessageToServer::CaptureImage(settings))) == (
            worker,
            seq![WorkerEffect::<S>::StartCapture(settings)],
        ),
        plan_of(MessageToServer::<S>::CaptureImage(settings)) == HandlerPlan::Effect(
            WorkerEffect::<S>::StartCapture(settings),
        ),
{
}

/// A capture is cancelled at once, and the worker goes on as before.
pub proof fn law_capture_is_cancelled<C, S>(worker: Worker<C>)
    requires
        worker.phase is Idle,
        worker.connection is Some,
    ensures
        worker.after(WorkerEvent::<C, S>::Message(MessageToServer::CancelCapture)) == (
            worker,
            seq![WorkerEffect::<S>::CancelCapture],
        ),
{
}

/// Disconnecting drops the connection and the status that was kept, announces that there is
/// none, waits a second and a half, and only then tells the clients that there is no camera.
pub proof fn law_disconnecting_tells_the_clients_last<C, S>(worker: Worker<C>)
    requires
        worker.phase is Idle,
        worker.connection is Some,
    ensures
        ({
            let (next, effects) = worker.after(
                WorkerEvent::<C, S>::Message(MessageToServer::DisconnectCamera),
            );
            &&& next.connection is None
            &&& next.phase is Idle
            &&& next.last_port == worker.last_port
            &&& next.last_model == worker.last_model
            &&& next.last_status == disconnected_status()
            &&& effects == seq![
                WorkerEffect::<S>::AnnounceDisconnected,
                WorkerEffect::<S>::Sleep(1500),
                WorkerEffect::<S>::Reply(MessageToClient::CameraStatus(disconnected_status())),
            ]
        }),
{
}

/// With a camera, a question for the status is put to it. The status that it gives is
/// answered and kept; where it gives none, the one that is kept is answered. The rest stays as
/// it was.
pub proof fn law_status_of_the_camera_is_answered<C, S>(
    worker: Worker<C>,
    outcome: Result<CameraStatus, CameraError>,
)
    requires
        worker.phase is Idle,
        worker.connection is Some,
    ensures
        ({
            let (asking, done) = worker.after(
                WorkerEvent::<C, S>::Message(MessageToServer::GetCameraStatus),
            );
            let (next, effects) = asking.after(WorkerEvent::<C, S>::StatusRead(outcome));
            &&& done == Seq::<WorkerEffect<S>>::empty()
            &&& asking.request_of() == WorkerRequest::ReadStatus
            &&& next == (Worker { last_status: next.last_status, ..worker })
            &&& outcome matches Ok(status) ==> next.last_status == status
            &&& outcome is Err ==> next.last_status == worker.last_status
            &&& effects == seq![
                WorkerEffect::<S>::Reply(MessageToClient::CameraStatus(next.last_status)),
            ]
        }),
{
}

/// The first request for a message with a camera: the list of cameras, the settings, a preview,
/// the changes of the message itself, or the very camera that the message names. Nothing is
/// done or forgotten before the answer comes.
pub proof fn law_message_becomes_its_request<C, S>(
    worker: Worker<C>,
    wish: ConnectToCamera,
    update: UpdateCameraConfig,
)
    requires
        worker.phase is Idle,
        worker.connection is Some,
    ensures
        ({
            let (asking, done) = worker.after(
                WorkerEvent::<C, S>::Message(MessageToServer::GetDetectedCameras),
            );
            &&& done == Seq::<WorkerEffect<S>>::empty()
            &&& asking.request_of() == WorkerRequest::ListCameras
            &&& asking == (Worker { phase: asking.phase, ..worker })
            &&& asking.phase == (WorkerPhase::Handling {
                task: HandlerTask::ListCameras,
                failures: 0,
            })
        }),
        ({
            let (asking, done) = worker.after(
                WorkerEvent::<C, S>::Message(MessageToServer::GetCameraConfig),
            );
            &&& done == Seq::<WorkerEffect<S>>::empty()
            &&& asking.request_of() == WorkerRequest::ReadConfig
            &&& asking == (Worker { phase: asking.phase, ..worker })
            &&& asking.phase == (WorkerPhase::Handling {
                task: HandlerTask::ReadConfig,
                failures: 0,
            })
        }),
        ({
            let (asking, done) = worker.after(
                WorkerEvent::<C, S>::Message(MessageToServer::CapturePreviewImage),
            );
            &&& done == Seq::<WorkerEffect<S>>::empty()
            &&& asking.request_of() == WorkerRequest::CapturePreview
            &&& asking == (Worker { phase: asking.phase, ..worker })
            &&& asking.phase == (WorkerPhase::Handling {
                task: HandlerTask::CapturePreview,
                failures: 0,
            })
        }),
        ({
            let (asking, done) = worker.after(
                WorkerEvent::<C, S>::Message(MessageToServer::UpdateCameraConfig(update)),
            );
            &&& done == Seq::<WorkerEffect<S>>::empty()
            &&& asking.request_of() == WorkerRequest::WriteConfig(&update)
            &&& asking == (Worker { phase: asking.phase, ..worker })
            &&& asking.phase == (WorkerPhase::Handling {
                task: HandlerTask::WriteConfig(update),
                failures: 0,
            })
        }),
        ({
            let (asking, done) = worker.after(
                WorkerEvent::<C, S>::Message(MessageToServer::ConnectToCamera(wish)),
            );
            &&& done == Seq::<WorkerEffect<S>>::empty()
            &&& wish.port is Some && wish.model is Some ==> asking.request_of()
                == WorkerRequest::Connect(
                ConnectTarget::Camera { port: &wish.port->0, model: &wish.model->0 },
            )
            &&& wish.port is None || wish.model is None ==> asking.request_of()
                == WorkerRequest::Connect(ConnectTarget::Any)
            &&& asking == (Worker { phase: asking.phase, ..worker })
            &&& asking.phase == (WorkerPhase::Handling {
                task: HandlerTask::Connect(wish),
                failures: 0,
            })
        }),
{
}

/// Work is asked for again in the same words, however often it has failed.
pub proof fn law_work_is_asked_for_again_unchanged<C>(
    worker: Worker<C>,
    task: HandlerTask,
    failures: u64,
    more: u64,
)
    ensures
        (Worker { phase: WorkerPhase::Handling { task, failures }, ..worker }).request_of() == (
        Worker { phase: WorkerPhase::Handling { task, failures: more }, ..worker }).request_of(),
{
}

/// This event tells that this work failed with this error.
pub open spec fn tells_failure<C, S>(
    task: HandlerTask,
    event: WorkerEvent<C, S>,
    error: CameraError,
) -> bool {
    ||| task is ListCameras && event == WorkerEvent::<C, S>::CamerasListed(Err(error))
    ||| task is Connect && event == WorkerEvent::<C, S>::Connected(Err(error))
    ||| task is ReadConfig && event == WorkerEvent::<C, S>::ConfigRead(Err(error))
    ||| task is CapturePreview && event == WorkerEvent::<C, S>::PreviewCaptured(Err(error))
    ||| task is WriteConfig && event == WorkerEvent::<C, S>::ConfigWritten(Err(error))
}

/// Work that fails a first or a second time is tried again after half a second, and nobody
/// hears of it. With the third failure the clients hear its error, the connection and the
/// status that was kept are dropped, and a second and a half later the clients hear that there
/// is no camera.
pub proof fn law_third_failure_costs_the_camera<C, S>(
    worker: Worker<C>,
    task: HandlerTask,
    failures: u64,
    event: WorkerEvent<C, S>,
    error: CameraError,
)
    requires
        worker.phase == (WorkerPhase::Handling { task, failures }),
        failures < 3,
        tells_failure(task, event, error),
    ensures
        failures < 2 ==> worker.after(event) == (
            Worker {
                phase: WorkerPhase::Handling { task, failures: (failures + 1) as u64 },
                ..worker
            },
            seq![WorkerEffect::<S>::Sleep(500)],
        ),
        failures == 2 ==> worker.after(event) == (
            Worker {
                connection: None,
                last_status: disconnected_status(),
                phase: WorkerPhase::Idle,
                ..worker
            },
            seq![
                WorkerEffect::<S>::Sleep(500),
                WorkerEffect::<S>::Reply(MessageToClient::CameraError(error)),
                WorkerEffect::<S>::AnnounceDisconnected,
                WorkerEffect::<S>::Sleep(1500),
                WorkerEffect::<S>::Reply(MessageToClient::CameraStatus(disconnected_status())),
            ],
        ),
{
    assert(failures == 2 ==> worker.after(event).1 =~= seq![
        WorkerEffect::<S>::Sleep(500),
        WorkerEffect::<S>::Reply(MessageToClient::CameraError(error)),
        WorkerEffect::<S>::AnnounceDisconnected,
        WorkerEffect::<S>::Sleep(1500),
        WorkerEffect::<S>::Reply(MessageToClient::CameraStatus(disconnected_status())),
    ]);
}

/// Work that succeeds, at whatever attempt, is answered with what it brought and leaves the
/// worker idle and otherwise as it was; changed settings are not answered at all. A new
/// connection takes the place of the old one, is announced, and rests for half a second
/// before its status is read.
pub proof fn law_work_is_answered_with_what_it_brought<C, S>(
    worker: Worker<C>,
    failures: u64,
    wish: ConnectToCamera,
    update: UpdateCameraConfig,
    list: CameraList,
    config: CameraConfig,
    image: Image,
    connection: C,
)
    ensures
        (Worker {
            phase: WorkerPhase::Handling { task: HandlerTask::ListCameras, failures },
            ..worker
        }).after(WorkerEvent::<C, S>::CamerasListed(Ok(list))) == (
            Worker { phase: WorkerPhase::Idle, ..worker },
            seq![WorkerEffect::<S>::Reply(MessageToClient::CameraList(list))],
        ),
        (Worker {
            phase: WorkerPhase::Handling { task: HandlerTask::ReadConfig, failures },
            ..worker
        }).after(WorkerEvent::<C, S>::ConfigRead(Ok(config))) == (
            Worker { phase: WorkerPhase::Idle, ..worker },
            seq![WorkerEffect::<S>::Reply(MessageToClient::CameraConfig(config))],
        ),
        (Worker {
            phase: WorkerPhase::Handling { task: HandlerTask::CapturePreview, failures },
            ..worker
        }).after(WorkerEvent::<C, S>::PreviewCaptured(Ok(image))) == (
            Worker { phase: WorkerPhase::Idle, ..worker },
            seq![WorkerEffect::<S>::Reply(MessageToClient::Image(image))],
        ),
        (Worker {
            phase: WorkerPhase::Handling { task: HandlerTask::WriteConfig(update), failures },
            ..worker
        }).after(WorkerEvent::<C, S>::ConfigWritten(Ok(()))) == (
            Worker { phase: WorkerPhase::Idle, ..worker },
            Seq::<WorkerEffect<S>>::empty(),
        ),
        (Worker {
            phase: WorkerPhase::Handling { task: HandlerTask::Connect(wish), failures },
            ..worker
        }).after(WorkerEvent::<C, S>::Connected(Ok(connection))) == (
            Worker {
                connection: Some(connection),
                phase: WorkerPhase::Settling { retries: 0 },
                ..worker
            },
            seq![WorkerEffect::<S>::AnnounceConnected, WorkerEffect::<S>::Sleep(500)],
        ),
{
}

/// The first status of a new connection: one that comes is kept and sent. While the camera is
/// busy it is asked five more times, after 300, 600, 900, 1200 and 1500 milliseconds, and nobody
/// hears of it; any other error, or the sixth of that sort, is reported, and the connection
/// stays.
pub proof fn law_first_status_is_waited_for<C, S>(
    worker: Worker<C>,
    retries: u64,
    outcome: Result<CameraStatus, CameraError>,
)
    requires
        worker.phase == (WorkerPhase::Settling { retries }),
        retries <= 5,
    ensures
        worker.request_of() == WorkerRequest::ReadStatus,
        outcome matches Ok(status) ==> worker.after(
            WorkerEvent::<C, S>::StatusRead(outcome),
        ) == (
            Worker { last_status: status, phase: WorkerPhase::Idle, ..worker },
            seq![WorkerEffect::<S>::Reply(MessageToClient::CameraStatus(status))],
        ),
        outcome matches Err(error) ==> {
            &&& is_busy(error) && retries < 5 ==> worker.after(
                WorkerEvent::<C, S>::StatusRead(outcome),
            ) == (
                Worker {
                    phase: WorkerPhase::Settling { retries: (retries + 1) as u64 },
                    ..worker
                },
                seq![WorkerEffect::<S>::Sleep((300 * (retries + 1)) as u64)],
            )
            &&& !is_busy(error) || retries == 5 ==> worker.after(
                WorkerEvent::<C, S>::StatusRead(outcome),
            ) == (
                Worker { phase: WorkerPhase::Idle, ..worker },
                seq![WorkerEffect::<S>::Reply(MessageToClient::CameraError(error))],
            )
        },
{
}

/// What a message asks for while a camera is connected, by itself: work at the camera with the
/// very contents of the message, or something to be done at once.
pub proof fn law_plan_keeps_the_contents<S>(
    wish: ConnectToCamera,
    update: UpdateCameraConfig,
    configs: Vec<PostProcessingConfig<S>>,
)
    ensures
        plan_of(MessageToServer::<S>::GetDetectedCameras) == HandlerPlan::<S>::Task(
            HandlerTask::ListCameras,
        ),
        plan_of(MessageToServer::<S>::GetCameraStatus) == HandlerPlan::<S>::Task(
            HandlerTask::ReadStatus,
        ),
        plan_of(MessageToServer::<S>::ConnectToCamera(wish)) == HandlerPlan::<S>::Task(
            HandlerTask::Connect(wish),
        ),
        plan_of(MessageToServer::<S>::GetCameraConfig) == HandlerPlan::<S>::Task(
            HandlerTask::ReadConfig,
        ),
        plan_of(MessageToServer::<S>::CapturePreviewImage) == HandlerPlan::<S>::Task(
            HandlerTask::CapturePreview,
        ),
        plan_of(MessageToServer::<S>::UpdateCameraConfig(update)) == HandlerPlan::<S>::Task(
            HandlerTask::WriteConfig(update),
        ),
        plan_of(MessageToServer::<S>::CancelCapture) == HandlerPlan::<S>::Effect(
            WorkerEffect::CancelCapture,
        ),
        plan_of(MessageToServer::<S>::SetPostProcessingConfigs(configs))
            == HandlerPlan::<S>::Effect(WorkerEffect::ForwardConfigs(configs)),
        plan_of(MessageToServer::<S>::Shutdown) == HandlerPlan::<S>::Effect(
            WorkerEffect::PowerOff,
        ),
        plan_of(MessageToServer::<S>::DisconnectCamera) == HandlerPlan::<S>::Nothing,
{
}

/// Every state that a worker can be in is allowed: an idle one always; one that lists or
/// connects without a connection; one that waits for a camera with one, within its count of
/// attempts.
pub proof fn law_states_of_the_worker<C>(worker: Worker<C>)
    ensures
        worker.phase is Idle || worker.phase is Stopped ==> worker.wf(),
        worker.phase is Listing || worker.phase is Connecting ==> (worker.wf()
            <==> worker.connection is None),
        worker.phase is Reconnecting ==> (worker.wf() <==> worker.connection is None
            && worker.last_port is Some && worker.last_model is Some),
        worker.phase is ReadingStatus ==> (worker.wf() <==> worker.connection is Some),
        worker.phase matches WorkerPhase::Settling { retries } ==> (worker.wf()
            <==> worker.connection is Some && retries <= 5),
        worker.phase matches WorkerPhase::Handling { task, failures } ==> (worker.wf()
            <==> worker.connection is Some && !(task is ReadStatus) && failures < 3),
{
}

} // verus!

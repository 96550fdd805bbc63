//! The camera worker: what it does with each message of a client, with and without a
//! camera.

use vstd::prelude::*;

use crate::camera::connection::{connect_target, target_of, ConnectTarget};
use crate::text::{contains, occurs_in};
use crate::websocket::scheme::{
    disconnected_status, CameraConfig, CameraList, CameraStatus, CaptureImage, ConnectToCamera,
    Image, MessageToClient, MessageToServer, PostProcessingConfig, UpdateCameraConfig,
};

verus! {

/// What can go wrong with a camera or around it.
#[derive(Debug, Clone, PartialEq, Eq)]
pub enum CameraError {
    Gphoto2Error(String),
    IoError(String),
    NotConnected,
    TokioError(String),
    InvalidConfigValueType,
    CaptureTookLongerThanInterval(u128),
    RsRawUtilError(String),
}

/// `std::io::Error`, an input or output error, carried as it comes.
#[verifier::external_type_specification]
#[verifier::external_body]
pub struct ExIoError(std::io::Error);

/// `tokio::task::JoinError`, the error of a task that did not finish, carried as it comes.
#[verifier::external_type_specification]
#[verifier::external_body]
pub struct ExJoinError(tokio::task::JoinError);

impl From<std::io::Error> for CameraError {
    fn from(e: std::io::Error) -> (error: CameraError)
        ensures
            error matches CameraError::IoError(text)
                && vstd::string::to_string_from_display_ensures(&e, text),
    {
        CameraError::IoError(e.to_string())
    }
}

impl vstd::std_specs::convert::FromSpecImpl<std::io::Error> for CameraError {
    open spec fn obeys_from_spec() -> bool {
        false
    }

    open spec fn from_spec(e: std::io::Error) -> CameraError {
        arbitrary()
    }
}

impl From<tokio::task::JoinError> for CameraError {
    fn from(e: tokio::task::JoinError) -> (error: CameraError)
        ensures
            error matches CameraError::TokioError(text)
                && vstd::string::to_string_from_display_ensures(&e, text),
    {
        CameraError::TokioError(e.to_string())
    }
}

impl vstd::std_specs::convert::FromSpecImpl<tokio::task::JoinError> for CameraError {
    open spec fn obeys_from_spec() -> bool {
        false
    }

    open spec fn from_spec(e: tokio::task::JoinError) -> CameraError {
        arbitrary()
    }
}

/// The camera is busy with something else, so that asking again may help.
pub open spec fn is_busy(error: CameraError) -> bool {
    error matches CameraError::Gphoto2Error(text) && occurs_in(text@, "io in progress"@)
}

/// Whether the camera is busy with something else.
pub fn camera_is_busy(error: &CameraError) -> (busy: bool)
    ensures
        busy == is_busy(*error),
{
    match error {
        CameraError::Gphoto2Error(text) => contains(text.as_str(), "io in progress"),
        _ => false,
    }
}

/// How long a new connection rests before its status is read, in milliseconds.
pub const SETTLE_MS: u64 = 500;

/// How often the status of a busy camera is asked for again.
pub const STATUS_RETRIES: u64 = 5;

/// How much longer each wait before such a question is than the one before, in milliseconds.
pub const STATUS_RETRY_MS: u64 = 300;

/// How often a message is worked on before the camera is given up.
pub const HANDLER_ATTEMPTS: u64 = 3;

/// How long the worker rests after a failed attempt, in milliseconds.
pub const HANDLER_RETRY_MS: u64 = 500;

/// How long the operating system is given to release the camera, in milliseconds.
pub const RELEASE_MS: u64 = 1500;

/// Work at the camera that can fail and is then tried again.
#[derive(Debug, Clone, PartialEq, Eq)]
pub enum HandlerTask {
    ListCameras,
    ReadStatus,
    Connect(ConnectToCamera),
    ReadConfig,
    CapturePreview,
    WriteConfig(UpdateCameraConfig),
}

/// What to do at once. Steps of post-processing are of type `S`.
#[derive(Debug, Clone, PartialEq, Eq)]
pub enum WorkerEffect<S> {
    /// Send this to the clients.
    Reply(MessageToClient),
    /// Tell the other workers of the connection that the worker holds.
    AnnounceConnected,
    /// Tell the other workers that there is no connection any more.
    AnnounceDisconnected,
    /// Rest for so many milliseconds.
    Sleep(u64),
    /// Hand these configurations to the post-processing worker.
    ForwardConfigs(Vec<PostProcessingConfig<S>>),
    /// Start to capture, beside the worker's own work.
    StartCapture(CaptureImage),
    /// Stop the capture that is going on, if there is one.
    CancelCapture,
    /// Shut the system down.
    PowerOff,
}

/// How a message is worked on while a camera is connected.
#[derive(Debug, Clone, PartialEq, Eq)]
pub enum HandlerPlan<S> {
    /// By work that can fail.
    Task(HandlerTask),
    /// By something that cannot.
    Effect(WorkerEffect<S>),
    /// Not at all.
    Nothing,
}

/// How a message is worked on while a camera is connected.
pub open spec fn plan_of<S>(msg: MessageToServer<S>) -> HandlerPlan<S> {
    match msg {
        MessageToServer::GetDetectedCameras => HandlerPlan::Task(HandlerTask::ListCameras),
        MessageToServer::GetCameraStatus => HandlerPlan::Task(HandlerTask::ReadStatus),
        MessageToServer::ConnectToCamera(settings) => HandlerPlan::Task(
            HandlerTask::Connect(settings),
        ),
        MessageToServer::GetCameraConfig => HandlerPlan::Task(HandlerTask::ReadConfig),
        MessageToServer::CapturePreviewImage => HandlerPlan::Task(HandlerTask::CapturePreview),
        MessageToServer::UpdateCameraConfig(update) => HandlerPlan::Task(
            HandlerTask::WriteConfig(update),
        ),
        MessageToServer::CaptureImage(settings) => HandlerPlan::Effect(
            WorkerEffect::StartCapture(settings),
        ),
        MessageToServer::CancelCapture => HandlerPlan::Effect(WorkerEffect::CancelCapture),
        MessageToServer::SetPostProcessingConfigs(configs) => HandlerPlan::Effect(
            WorkerEffect::ForwardConfigs(configs),
        ),
        MessageToServer::Shutdown => HandlerPlan::Effect(WorkerEffect::PowerOff),
        MessageToServer::DisconnectCamera => HandlerPlan::Nothing,
    }
}

/// How a message is worked on while a camera is connected.
pub fn handle_msg<S>(msg: MessageToServer<S>) -> (plan: HandlerPlan<S>)
    ensures
        plan == plan_of(msg),
{
    match msg {
        MessageToServer::GetDetectedCameras => HandlerPlan::Task(HandlerTask::ListCameras),
        MessageToServer::GetCameraStatus => HandlerPlan::Task(HandlerTask::ReadStatus),
        MessageToServer::ConnectToCamera(settings) => HandlerPlan::Task(
            HandlerTask::Connect(settings),
        ),
        MessageToServer::GetCameraConfig => HandlerPlan::Task(HandlerTask::ReadConfig),
        MessageToServer::CapturePreviewImage => HandlerPlan::Task(HandlerTask::CapturePreview),
        MessageToServer::UpdateCameraConfig(update) => HandlerPlan::Task(
            HandlerTask::WriteConfig(update),
        ),
        MessageToServer::CaptureImage(settings) => HandlerPlan::Effect(
            WorkerEffect::StartCapture(settings),
        ),
        MessageToServer::CancelCapture => HandlerPlan::Effect(WorkerEffect::CancelCapture),
        MessageToServer::SetPostProcessingConfigs(configs) => HandlerPlan::Effect(
            WorkerEffect::ForwardConfigs(configs),
        ),
        MessageToServer::Shutdown => HandlerPlan::Effect(WorkerEffect::PowerOff),
        MessageToServer::DisconnectCamera => HandlerPlan::Nothing,
    }
}

/// What the worker is waiting for.
#[derive(Debug, Clone, PartialEq, Eq)]
pub enum WorkerPhase {
    /// The next message.
    Idle,
    /// The list of cameras, without a connection.
    Listing,
    /// The connection that a client asked for, where there was none.
    Connecting,
    /// The status of a new connection, after so many questions that found it busy.
    Settling { retries: u64 },
    /// The connection to the camera of before, for a message that needs one.
    Reconnecting,
    /// The status that a client asked for.
    ReadingStatus,
    /// The outcome of work that has failed so many times.
    Handling { task: HandlerTask, failures: u64 },
    /// Nothing.
    Stopped,
}

/// The camera worker, with its connection of type `C`.
#[derive(Debug)]
pub struct Worker<C> {
    pub connection: Option<C>,
    pub last_port: Option<String>,
    pub last_model: Option<String>,
    pub last_status: CameraStatus,
    pub phase: WorkerPhase,
}

/// What the worker asks for.
#[derive(Debug, Clone, PartialEq, Eq)]
pub enum WorkerRequest<'a> {
    Receive,
    ListCameras,
    Connect(ConnectTarget<'a>),
    ReadStatus,
    ReadConfig,
    CapturePreview,
    WriteConfig(&'a UpdateCameraConfig),
    Stop,
}

/// What comes of it.
#[derive(Debug)]
pub enum WorkerEvent<C, S> {
    Message(MessageToServer<S>),
    ChannelClosed,
    CamerasListed(Result<CameraList, CameraError>),
    Connected(Result<C, CameraError>),
    StatusRead(Result<CameraStatus, CameraError>),
    ConfigRead(Result<CameraConfig, CameraError>),
    PreviewCaptured(Result<Image, CameraError>),
    ConfigWritten(Result<(), CameraError>),
}

impl HandlerTask {
    /// The event tells how this work went.
    pub open spec fn expects<C, S>(self, event: WorkerEvent<C, S>) -> bool {
        match self {
            HandlerTask::ListCameras => event is CamerasListed,
            HandlerTask::ReadStatus => event is StatusRead,
            HandlerTask::Connect(_) => event is Connected,
            HandlerTask::ReadConfig => event is ConfigRead,
            HandlerTask::CapturePreview => event is PreviewCaptured,
            HandlerTask::WriteConfig(_) => event is ConfigWritten,
        }
    }
}

/// The error that an event tells of.
pub open spec fn error_of<C, S>(event: WorkerEvent<C, S>) -> Option<CameraError> {
    match event {
        WorkerEvent::CamerasListed(Err(e)) => Some(e),
        WorkerEvent::Connected(Err(e)) => Some(e),
        WorkerEvent::StatusRead(Err(e)) => Some(e),
        WorkerEvent::ConfigRead(Err(e)) => Some(e),
        WorkerEvent::PreviewCaptured(Err(e)) => Some(e),
        WorkerEvent::ConfigWritten(Err(e)) => Some(e),
        _ => None,
    }
}

/// The answer to a client that asked for what an event brings.
pub open spec fn answer_of<C, S>(event: WorkerEvent<C, S>) -> Seq<WorkerEffect<S>> {
    match event {
        WorkerEvent::CamerasListed(Ok(list)) => seq![
            WorkerEffect::Reply(MessageToClient::CameraList(list)),
        ],
        WorkerEvent::StatusRead(Ok(status)) => seq![
            WorkerEffect::Reply(MessageToClient::CameraStatus(status)),
        ],
        WorkerEvent::ConfigRead(Ok(config)) => seq![
            WorkerEffect::Reply(MessageToClient::CameraConfig(config)),
        ],
        WorkerEvent::PreviewCaptured(Ok(image)) => seq![
            WorkerEffect::Reply(MessageToClient::Image(image)),
        ],
        _ => Seq::empty(),
    }
}

/// An error for the clients.
pub open spec fn report<S>(error: CameraError) -> WorkerEffect<S> {
    WorkerEffect::Reply(MessageToClient::CameraError(error))
}

/// What goes with giving up a connection.
pub open spec fn release_effects<S>() -> Seq<WorkerEffect<S>> {
    seq![
        WorkerEffect::AnnounceDisconnected,
        WorkerEffect::Sleep(RELEASE_MS),
        WorkerEffect::Reply(MessageToClient::CameraStatus(disconnected_status())),
    ]
}

impl<C> Worker<C> {
    /// A phase that works without a connection has none, and one that works with a
    /// connection has it; a camera is only connected to again when it is known; a question
    /// for the status is never work that costs the connection; and the counters are within
    /// their bounds.
    pub open spec fn wf(self) -> bool {
        match self.phase {
            WorkerPhase::Idle | WorkerPhase::Stopped => true,
            WorkerPhase::Listing | WorkerPhase::Connecting => self.connection is None,
            WorkerPhase::Reconnecting => {
                &&& self.connection is None
                &&& self.last_port is Some
                &&& self.last_model is Some
            },
            WorkerPhase::Settling { retries } => {
                &&& self.connection is Some
                &&& retries <= STATUS_RETRIES
            },
            WorkerPhase::ReadingStatus => self.connection is Some,
            WorkerPhase::Handling { task, failures } => {
                &&& self.connection is Some
                &&& !(task is ReadStatus)
                &&& failures < HANDLER_ATTEMPTS
            },
        }
    }

    /// The event tells how the worker's request went.
    pub open spec fn awaits<S>(self, event: WorkerEvent<C, S>) -> bool {
        match self.phase {
            WorkerPhase::Idle => event is Message || event is ChannelClosed,
            WorkerPhase::Listing => event is CamerasListed,
            WorkerPhase::Connecting | WorkerPhase::Reconnecting => event is Connected,
            WorkerPhase::Settling { .. } | WorkerPhase::ReadingStatus => event is StatusRead,
            WorkerPhase::Handling { task, .. } => task.expects(event),
            WorkerPhase::Stopped => false,
        }
    }

    /// The worker in another phase.
    pub open spec fn in_phase(self, phase: WorkerPhase) -> Worker<C> {
        Worker { phase, ..self }
    }

    /// The worker without its connection, waiting for a message.
    pub open spec fn released(self) -> Worker<C> {
        Worker {
            connection: None,
            last_status: disconnected_status(),
            phase: WorkerPhase::Idle,
            ..self
        }
    }

    /// A message while there is no connection. One that needs a camera is answered with
    /// `NotConnected` unless a camera is known; then the worker connects to it again, and the
    /// message itself is lost.
    pub open spec fn after_message_alone<S>(self, msg: MessageToServer<S>) -> (
        Worker<C>,
        Seq<WorkerEffect<S>>,
    ) {
        match msg {
            MessageToServer::GetDetectedCameras => (
                self.in_phase(WorkerPhase::Listing),
                Seq::empty(),
            ),
            MessageToServer::GetCameraStatus => (
                self,
                seq![
                    WorkerEffect::Reply(MessageToClient::CameraStatus(disconnected_status())),
                ],
            ),
            MessageToServer::ConnectToCamera(cfg) => (
                Worker {
                    last_port: cfg.port,
                    last_model: cfg.model,
                    phase: WorkerPhase::Connecting,
                    ..self
                },
                Seq::empty(),
            ),
            MessageToServer::SetPostProcessingConfigs(configs) => (
                self,
                seq![WorkerEffect::ForwardConfigs(configs)],
            ),
            MessageToServer::Shutdown => (self, seq![WorkerEffect::PowerOff]),
            _ => if self.last_port is None || self.last_model is None {
                (self, seq![report(CameraError::NotConnected)])
            } else {
                (self.in_phase(WorkerPhase::Reconnecting), Seq::empty())
            },
        }
    }

    /// A message while there is a connection.
    pub open spec fn after_message_connected<S>(self, msg: MessageToServer<S>) -> (
        Worker<C>,
        Seq<WorkerEffect<S>>,
    ) {
        match msg {
            MessageToServer::DisconnectCamera => (self.released(), release_effects()),
            MessageToServer::GetCameraStatus => (
                self.in_phase(WorkerPhase::ReadingStatus),
                Seq::empty(),
            ),
            _ => match plan_of(msg) {
                HandlerPlan::Task(task) => (
                    self.in_phase(WorkerPhase::Handling { task, failures: 0 }),
                    Seq::empty(),
                ),
                HandlerPlan::Effect(effect) => (self, seq![effect]),
                HandlerPlan::Nothing => (self, Seq::empty()),
            },
        }
    }

    /// A connection that was made on a client's wish.
    pub open spec fn after_connection<S>(self, connection: C) -> (Worker<C>, Seq<WorkerEffect<S>>) {
        (
            Worker {
                connection: Some(connection),
                phase: WorkerPhase::Settling { retries: 0 },
                ..self
            },
            seq![WorkerEffect::AnnounceConnected, WorkerEffect::Sleep(SETTLE_MS)],
        )
    }

    /// The status of a new connection. While the camera is busy the worker asks again, each
    /// time after a longer rest, up to `STATUS_RETRIES` times.
    pub open spec fn after_settling<S>(
        self,
        retries: u64,
        outcome: Result<CameraStatus, CameraError>,
    ) -> (Worker<C>, Seq<WorkerEffect<S>>) {
        match outcome {
            Ok(status) => (
                Worker { last_status: status, phase: WorkerPhase::Idle, ..self },
                seq![WorkerEffect::Reply(MessageToClient::CameraStatus(status))],
            ),
            Err(error) => if is_busy(error) && retries < STATUS_RETRIES {
                (
                    self.in_phase(WorkerPhase::Settling { retries: (retries + 1) as u64 }),
                    seq![WorkerEffect::Sleep((STATUS_RETRY_MS * (retries + 1)) as u64)],
                )
            } else {
                (self.in_phase(WorkerPhase::Idle), seq![report(error)])
            },
        }
    }

    /// The status that a client asked for: the last one that was read stands in for one
    /// that cannot be read.
    pub open spec fn after_status<S>(self, outcome: Result<CameraStatus, CameraError>) -> (
        Worker<C>,
        Seq<WorkerEffect<S>>,
    ) {
        let status = match outcome {
            Ok(status) => status,
            Err(_) => self.last_status,
        };
        (
            Worker { last_status: status, phase: WorkerPhase::Idle, ..self },
            seq![WorkerEffect::Reply(MessageToClient::CameraStatus(status))],
        )
    }

    /// A failed attempt: the work is tried again, up to `HANDLER_ATTEMPTS` times in all, and
    /// then the error is reported and the camera given up.
    pub open spec fn after_failure<S>(self, task: HandlerTask, failures: u64, error: CameraError) -> (
        Worker<C>,
        Seq<WorkerEffect<S>>,
    ) {
        if failures + 1 < HANDLER_ATTEMPTS {
            (
                self.in_phase(WorkerPhase::Handling { task, failures: (failures + 1) as u64 }),
                seq![WorkerEffect::Sleep(HANDLER_RETRY_MS)],
            )
        } else {
            (
                self.released(),
                seq![WorkerEffect::Sleep(HANDLER_RETRY_MS), report(error)] + release_effects(),
            )
        }
    }

    /// The outcome of an attempt.
    pub open spec fn after_outcome<S>(
        self,
        task: HandlerTask,
        failures: u64,
        event: WorkerEvent<C, S>,
    ) -> (Worker<C>, Seq<WorkerEffect<S>>) {
        match (error_of(event), event) {
            (Some(error), _) => self.after_failure(task, failures, error),
            (None, WorkerEvent::Connected(Ok(connection))) => self.after_connection(connection),
            _ => (self.in_phase(WorkerPhase::Idle), answer_of(event)),
        }
    }

    /// The worker after an event that it waited for, and what it does at once.
    pub open spec fn after<S>(self, event: WorkerEvent<C, S>) -> (Worker<C>, Seq<WorkerEffect<S>>) {
        match (self.phase, event) {
            (WorkerPhase::Idle, WorkerEvent::Message(msg)) => if self.connection is Some {
                self.after_message_connected(msg)
            } else {
                self.after_message_alone(msg)
            },
            (WorkerPhase::Idle, WorkerEvent::ChannelClosed) => (
                self.in_phase(WorkerPhase::Stopped),
                Seq::empty(),
            ),
            (WorkerPhase::Listing, _) => (
                self.in_phase(WorkerPhase::Idle),
                match error_of(event) {
                    Some(error) => seq![report(error)],
                    None => answer_of(event),
                },
            ),
            (WorkerPhase::Connecting, WorkerEvent::Connected(Ok(connection))) =>
                self.after_connection(connection),
            (WorkerPhase::Connecting, WorkerEvent::Connected(Err(error))) => (
                self.in_phase(WorkerPhase::Idle),
                seq![report(error)],
            ),
            (WorkerPhase::Reconnecting, WorkerEvent::Connected(Ok(connection))) => (
                Worker { connection: Some(connection), phase: WorkerPhase::Idle, ..self },
                seq![WorkerEffect::AnnounceConnected],
            ),
            (WorkerPhase::Reconnecting, WorkerEvent::Connected(Err(error))) => (
                self.in_phase(WorkerPhase::Idle),
                seq![report(error)],
            ),
            (WorkerPhase::Settling { retries }, WorkerEvent::StatusRead(outcome)) =>
                self.after_settling(retries, outcome),
            (WorkerPhase::ReadingStatus, WorkerEvent::StatusRead(outcome)) => self.after_status(
                outcome,
            ),
            (WorkerPhase::Handling { task, failures }, _) => self.after_outcome(
                task,
                failures,
                event,
            ),
            _ => (self, Seq::empty()),
        }
    }
}

impl<C> Worker<C> {
    /// What a worker in this phase asks for.
    pub open spec fn request_of<'a>(&'a self) -> WorkerRequest<'a> {
        match &self.phase {
            WorkerPhase::Idle => WorkerRequest::Receive,
            WorkerPhase::Listing => WorkerRequest::ListCameras,
            WorkerPhase::Connecting | WorkerPhase::Reconnecting => WorkerRequest::Connect(
                target_of(&self.last_port, &self.last_model),
            ),
            WorkerPhase::Settling { .. } | WorkerPhase::ReadingStatus => WorkerRequest::ReadStatus,
            WorkerPhase::Handling { task, .. } => match task {
                HandlerTask::ListCameras => WorkerRequest::ListCameras,
                HandlerTask::ReadStatus => WorkerRequest::ReadStatus,
                HandlerTask::Connect(settings) => WorkerRequest::Connect(
                    target_of(&settings.port, &settings.model),
                ),
                HandlerTask::ReadConfig => WorkerRequest::ReadConfig,
                HandlerTask::CapturePreview => WorkerRequest::CapturePreview,
                HandlerTask::WriteConfig(update) => WorkerRequest::WriteConfig(update),
            },
            WorkerPhase::Stopped => WorkerRequest::Stop,
        }
    }

    /// A worker that waits for its first message, without a camera.
    pub fn new() -> (worker: Worker<C>)
        ensures
            worker == (Worker::<C> {
                connection: None,
                last_port: None,
                last_model: None,
                last_status: disconnected_status(),
                phase: WorkerPhase::Idle,
            }),
            worker.wf(),
    {
        Worker {
            connection: None,
            last_port: None,
            last_model: None,
            last_status: CameraStatus::default(),
            phase: WorkerPhase::Idle,
        }
    }

    /// What the worker asks for next.
    pub fn request(&self) -> (request: WorkerRequest<'_>)
        ensures
            request == self.request_of(),
    {
        match &self.phase {
            WorkerPhase::Idle => WorkerRequest::Receive,
            WorkerPhase::Listing => WorkerRequest::ListCameras,
            WorkerPhase::Connecting | WorkerPhase::Reconnecting => WorkerRequest::Connect(
                connect_target(&self.last_port, &self.last_model),
            ),
            WorkerPhase::Settling { .. } | WorkerPhase::ReadingStatus => WorkerRequest::ReadStatus,
            WorkerPhase::Handling { task, .. } => match task {
                HandlerTask::ListCameras => WorkerRequest::ListCameras,
                HandlerTask::ReadStatus => WorkerRequest::ReadStatus,
                HandlerTask::Connect(settings) => WorkerRequest::Connect(
                    connect_target(&settings.port, &settings.model),
                ),
                HandlerTask::ReadConfig => WorkerRequest::ReadConfig,
                HandlerTask::CapturePreview => WorkerRequest::CapturePreview,
                HandlerTask::WriteConfig(update) => WorkerRequest::WriteConfig(update),
            },
            WorkerPhase::Stopped => WorkerRequest::Stop,
        }
    }

    /// Whether the event tells how the worker's request went.
    pub fn expects<S>(&self, event: &WorkerEvent<C, S>) -> (expected: bool)
        ensures
            expected == self.awaits(*event),
    {
        match (self.request(), event) {
            (WorkerRequest::Receive, WorkerEvent::Message(_)) => true,
            (WorkerRequest::Receive, WorkerEvent::ChannelClosed) => true,
            (WorkerRequest::ListCameras, WorkerEvent::CamerasListed(_)) => true,
            (WorkerRequest::Connect(_), WorkerEvent::Connected(_)) => true,
            (WorkerRequest::ReadStatus, WorkerEvent::StatusRead(_)) => true,
            (WorkerRequest::ReadConfig, WorkerEvent::ConfigRead(_)) => true,
            (WorkerRequest::CapturePreview, WorkerEvent::PreviewCaptured(_)) => true,
            (WorkerRequest::WriteConfig(_), WorkerEvent::ConfigWritten(_)) => true,
            _ => false,
        }
    }

    /// Takes a message while there is no connection.
    fn take_message_alone<S>(self, msg: MessageToServer<S>) -> (next: (Worker<C>, Vec<WorkerEffect<S>>))
        requires
            self.connection is None,
            self.phase is Idle,
        ensures
            next.0 == self.after_message_alone(msg).0,
            next.1@ == self.after_message_alone(msg).1,
            next.0.wf(),
    {
        let mut effects: Vec<WorkerEffect<S>> = Vec::new();
        let worker = match msg {
            MessageToServer::GetDetectedCameras => Worker { phase: WorkerPhase::Listing, ..self },
            MessageToServer::GetCameraStatus => {
                effects.push(
                    WorkerEffect::Reply(MessageToClient::CameraStatus(CameraStatus::default())),
                );
                self
            },
            MessageToServer::ConnectToCamera(cfg) => Worker {
                last_port: cfg.port,
                last_model: cfg.model,
                phase: WorkerPhase::Connecting,
                ..self
            },
            MessageToServer::SetPostProcessingConfigs(configs) => {
                effects.push(WorkerEffect::ForwardConfigs(configs));
                self
            },
            MessageToServer::Shutdown => {
                effects.push(WorkerEffect::PowerOff);
                self
            },
            _ => if self.last_port.is_none() || self.last_model.is_none() {
                effects.push(
                    WorkerEffect::Reply(MessageToClient::CameraError(CameraError::NotConnected)),
                );
                self
            } else {
                Worker { phase: WorkerPhase::Reconnecting, ..self }
            },
        };
        (worker, effects)
    }

    /// Gives up the connection.
    fn release<S>(self, effects: &mut Vec<WorkerEffect<S>>) -> (worker: Worker<C>)
        ensures
            worker == self.released(),
            final(effects)@ == old(effects)@ + release_effects(),
    {
        effects.push(WorkerEffect::AnnounceDisconnected);
        effects.push(WorkerEffect::Sleep(RELEASE_MS));
        effects.push(WorkerEffect::Reply(MessageToClient::CameraStatus(CameraStatus::default())));
        assert(effects@ =~= old(effects)@ + release_effects());
        Worker {
            connection: None,
            last_status: CameraStatus::default(),
            phase: WorkerPhase::Idle,
            ..self
        }
    }

    /// Takes a message while there is a connection.
    fn take_message_connected<S>(self, msg: MessageToServer<S>) -> (next: (Worker<C>, Vec<WorkerEffect<S>>))
        requires
            self.connection is Some,
            self.phase is Idle,
        ensures
            next.0 == self.after_message_connected(msg).0,
            next.1@ == self.after_message_connected(msg).1,
            next.0.wf(),
    {
        let mut effects: Vec<WorkerEffect<S>> = Vec::new();
        let worker = match msg {
            MessageToServer::DisconnectCamera => self.release(&mut effects),
            MessageToServer::GetCameraStatus => Worker { phase: WorkerPhase::ReadingStatus, ..self },
            msg => match handle_msg(msg) {
                HandlerPlan::Task(task) => Worker {
                    phase: WorkerPhase::Handling { task, failures: 0 },
                    ..self
                },
                HandlerPlan::Effect(effect) => {
                    effects.push(effect);
                    self
                },
                HandlerPlan::Nothing => self,
            },
        };
        (worker, effects)
    }

    /// Takes over a connection that was made on a client's wish.
    fn take_connection<S>(self, connection: C) -> (next: (Worker<C>, Vec<WorkerEffect<S>>))
        ensures
            next.0 == self.after_connection::<S>(connection).0,
            next.1@ == self.after_connection::<S>(connection).1,
            next.0.wf(),
    {
        let mut effects: Vec<WorkerEffect<S>> = Vec::new();
        effects.push(WorkerEffect::AnnounceConnected);
        effects.push(WorkerEffect::Sleep(SETTLE_MS));
        let worker = Worker {
            connection: Some(connection),
            phase: WorkerPhase::Settling { retries: 0 },
            ..self
        };
        (worker, effects)
    }

    /// Takes the status of a new connection.
    fn take_settling_status<S>(
        self,
        retries: u64,
        outcome: Result<CameraStatus, CameraError>,
    ) -> (next: (Worker<C>, Vec<WorkerEffect<S>>))
        requires
            self.connection is Some,
            retries <= STATUS_RETRIES,
        ensures
            next.0 == self.after_settling::<S>(retries, outcome).0,
            next.1@ == self.after_settling::<S>(retries, outcome).1,
            next.0.wf(),
    {
        let mut effects: Vec<WorkerEffect<S>> = Vec::new();
        let worker = match outcome {
            Ok(status) => {
                effects.push(WorkerEffect::Reply(MessageToClient::CameraStatus(status.clone())));
                Worker { last_status: status, phase: WorkerPhase::Idle, ..self }
            },
            Err(error) => if camera_is_busy(&error) && retries < STATUS_RETRIES {
                let again: u64 = retries + 1;
                effects.push(WorkerEffect::Sleep(STATUS_RETRY_MS * again));
                Worker { phase: WorkerPhase::Settling { retries: again }, ..self }
            } else {
                effects.push(WorkerEffect::Reply(MessageToClient::CameraError(error)));
                Worker { phase: WorkerPhase::Idle, ..self }
            },
        };
        (worker, effects)
    }

    /// Takes the status that a client asked for.
    fn take_status<S>(self, outcome: Result<CameraStatus, CameraError>) -> (next: (
        Worker<C>,
        Vec<WorkerEffect<S>>,
    ))
        requires
            self.connection is Some,
        ensures
            next.0 == self.after_status::<S>(outcome).0,
            next.1@ == self.after_status::<S>(outcome).1,
            next.0.wf(),
    {
        let status = match outcome {
            Ok(status) => status,
            Err(_) => self.last_status.clone(),
        };
        let mut effects: Vec<WorkerEffect<S>> = Vec::new();
        effects.push(WorkerEffect::Reply(MessageToClient::CameraStatus(status.clone())));
        (Worker { last_status: status, phase: WorkerPhase::Idle, ..self }, effects)
    }

    /// Takes the failure of an attempt.
    fn take_failure<S>(self, task: HandlerTask, failures: u64, error: CameraError) -> (next: (
        Worker<C>,
        Vec<WorkerEffect<S>>,
    ))
        requires
            self.connection is Some,
            !(task is ReadStatus),
            failures < HANDLER_ATTEMPTS,
        ensures
            next.0 == self.after_failure::<S>(task, failures, error).0,
            next.1@ == self.after_failure::<S>(task, failures, error).1,
            next.0.wf(),
    {
        let mut effects: Vec<WorkerEffect<S>> = Vec::new();
        effects.push(WorkerEffect::Sleep(HANDLER_RETRY_MS));
        if failures + 1 < HANDLER_ATTEMPTS {
            let failures: u64 = failures + 1;
            (Worker { phase: WorkerPhase::Handling { task, failures }, ..self }, effects)
        } else {
            effects.push(WorkerEffect::Reply(MessageToClient::CameraError(error)));
            let worker = self.release(&mut effects);
            assert(effects@ =~= self.after_failure::<S>(task, failures, error).1);
            (worker, effects)
        }
    }

    /// Takes the outcome of work on a message.
    fn take_outcome<S>(self, task: HandlerTask, failures: u64, event: WorkerEvent<C, S>) -> (next: (
        Worker<C>,
        Vec<WorkerEffect<S>>,
    ))
        requires
            self.connection is Some,
            !(task is ReadStatus),
            failures < HANDLER_ATTEMPTS,
            task.expects(event),
        ensures
            next.0 == self.after_outcome(task, failures, event).0,
            next.1@ == self.after_outcome(task, failures, event).1,
            next.0.wf(),
    {
        let mut effects: Vec<WorkerEffect<S>> = Vec::new();
        let error = match event {
            WorkerEvent::CamerasListed(Ok(list)) => {
                effects.push(WorkerEffect::Reply(MessageToClient::from(list)));
                None
            },
            WorkerEvent::StatusRead(Ok(status)) => {
                effects.push(WorkerEffect::Reply(MessageToClient::from(status)));
                None
            },
            WorkerEvent::ConfigRead(Ok(config)) => {
                effects.push(WorkerEffect::Reply(MessageToClient::from(config)));
                None
            },
            WorkerEvent::PreviewCaptured(Ok(image)) => {
                effects.push(WorkerEffect::Reply(MessageToClient::from(image)));
                None
            },
            WorkerEvent::Connected(Ok(connection)) => {
                return self.take_connection(connection);
            },
            WorkerEvent::CamerasListed(Err(e)) => Some(e),
            WorkerEvent::StatusRead(Err(e)) => Some(e),
            WorkerEvent::ConfigRead(Err(e)) => Some(e),
            WorkerEvent::PreviewCaptured(Err(e)) => Some(e),
            WorkerEvent::ConfigWritten(Err(e)) => Some(e),
            WorkerEvent::Connected(Err(e)) => Some(e),
            _ => None,
        };
        match error {
            Some(error) => self.take_failure(task, failures, error),
            None => (Worker { phase: WorkerPhase::Idle, ..self }, effects),
        }
    }

    /// Takes an event that the worker waited for: the worker after it, and what to do at
    /// once, in this order.
    pub fn advance<S>(self, event: WorkerEvent<C, S>) -> (next: (Worker<C>, Vec<WorkerEffect<S>>))
        requires
            self.wf(),
            self.awaits(event),
        ensures
            next.0 == self.after(event).0,
            next.1@ == self.after(event).1,
            next.0.wf(),
    {
        let Worker { connection, last_port, last_model, last_status, phase } = self;
        let idle = Worker {
            connection,
            last_port,
            last_model,
            last_status,
            phase: WorkerPhase::Idle,
        };
        let mut effects: Vec<WorkerEffect<S>> = Vec::new();
        match (phase, event) {
            (WorkerPhase::Idle, WorkerEvent::Message(msg)) => if idle.connection.is_some() {
                idle.take_message_connected(msg)
            } else {
                idle.take_message_alone(msg)
            },
            (WorkerPhase::Idle, _) => (Worker { phase: WorkerPhase::Stopped, ..idle }, effects),
            (WorkerPhase::Listing, WorkerEvent::CamerasListed(outcome)) => {
                effects.push(WorkerEffect::Reply(MessageToClient::from(outcome)));
                (idle, effects)
            },
            (WorkerPhase::Connecting, WorkerEvent::Connected(Ok(connection))) =>
                idle.take_connection(connection),
            (WorkerPhase::Reconnecting, WorkerEvent::Connected(Ok(connection))) => {
                effects.push(WorkerEffect::AnnounceConnected);
                (Worker { connection: Some(connection), ..idle }, effects)
            },
            (WorkerPhase::Handling { task, failures }, event) => idle.take_outcome(
                task,
                failures,
                event,
            ),
            (_, WorkerEvent::Connected(Err(error))) => {
                effects.push(WorkerEffect::Reply(MessageToClient::CameraError(error)));
                (idle, effects)
            },
            (WorkerPhase::Settling { retries }, WorkerEvent::StatusRead(outcome)) =>
                idle.take_settling_status(retries, outcome),
            (WorkerPhase::ReadingStatus, WorkerEvent::StatusRead(outcome)) => idle.take_status(
                outcome,
            ),
            _ => (idle, effects),
        }
    }
}

} // verus!

use camera_tethering::camera::connection::{
    connect_target, get_camera_status, CameraAbilities, ConnectTarget,
};
use camera_tethering::camera::worker::{
    camera_is_busy, handle_msg, CameraError, HandlerPlan, HandlerTask, Worker, WorkerEffect,
    WorkerEvent, WorkerPhase, WorkerRequest,
};
use camera_tethering::websocket::scheme::{
    AvailableCameraOperations, AvailableFileOperations, AvailableFolderOperations, CameraConfig,
    CameraList, CameraStatus, CaptureImage, ConnectToCamera, Image, ImageSource, MessageToClient,
    MessageToServer, PostProcessingConfig, UpdateCameraConfig,
};

type Effect = WorkerEffect<&'static str>;

type Message = MessageToServer<&'static str>;

type Step = (Worker<u8>, Vec<Effect>);

fn take(worker: Worker<u8>, event: WorkerEvent<u8, &'static str>) -> Step {
    assert!(worker.expects(&event));
    worker.advance(event)
}

fn tell(worker: Worker<u8>, msg: Message) -> Step {
    take(worker, WorkerEvent::Message(msg))
}

fn reply(message: MessageToClient) -> Effect {
    WorkerEffect::Reply(message)
}

fn report(error: CameraError) -> Effect {
    reply(MessageToClient::CameraError(error))
}

fn fault() -> CameraError {
    CameraError::Gphoto2Error("fault".to_string())
}

fn busy() -> CameraError {
    CameraError::Gphoto2Error("I/O: io in progress!".to_string())
}

fn status(model: &str) -> CameraStatus {
    CameraStatus { connected: true, model: Some(model.to_string()), ..CameraStatus::default() }
}

fn wish(port: &str, model: &str) -> ConnectToCamera {
    ConnectToCamera { port: Some(port.to_string()), model: Some(model.to_string()) }
}

fn released() -> Vec<Effect> {
    vec![
        WorkerEffect::AnnounceDisconnected,
        WorkerEffect::Sleep(1500),
        reply(MessageToClient::CameraStatus(CameraStatus::default())),
    ]
}

/// A worker with a camera, its status read.
fn connected() -> Worker<u8> {
    let (worker, effects) =
        tell(Worker::new(), MessageToServer::ConnectToCamera(wish("usb:1", "Alpha")));
    assert!(effects.is_empty());
    let (worker, effects) = take(worker, WorkerEvent::Connected(Ok(1)));
    assert_eq!(effects, vec![WorkerEffect::AnnounceConnected, WorkerEffect::Sleep(500)]);
    let (worker, effects) = take(worker, WorkerEvent::StatusRead(Ok(status("Alpha"))));
    assert_eq!(effects, vec![reply(MessageToClient::CameraStatus(status("Alpha")))]);
    worker
}

#[test]
fn errors_of_others_become_errors_of_the_camera() {
    let error = std::io::Error::new(std::io::ErrorKind::Other, "disk full");
    assert_eq!(CameraError::from(error), CameraError::IoError("disk full".to_string()));
    let runtime = tokio::runtime::Builder::new_current_thread().build().unwrap();
    let error = runtime.block_on(async {
        let task = tokio::spawn(std::future::pending::<()>());
        task.abort();
        task.await.unwrap_err()
    });
    let text = error.to_string();
    assert!(text.contains("cancelled"));
    assert_eq!(CameraError::from(error), CameraError::TokioError(text));
}

#[test]
fn a_busy_camera_says_so() {
    assert!(camera_is_busy(&busy()));
    assert!(!camera_is_busy(&fault()));
    assert!(!camera_is_busy(&CameraError::IoError("io in progress".to_string())));
    assert!(!camera_is_busy(&CameraError::NotConnected));
}

#[test]
fn a_camera_is_named_by_port_and_model() {
    let some = Some("x".to_string());
    let other = Some("y".to_string());
    assert_eq!(
        connect_target(&some, &other),
        ConnectTarget::Camera { port: &"x".to_string(), model: &"y".to_string() }
    );
    assert_eq!(connect_target(&some, &None), ConnectTarget::Any);
    assert_eq!(connect_target(&None, &other), ConnectTarget::Any);
    assert_eq!(connect_target(&None, &None), ConnectTarget::Any);
}

#[test]
fn the_status_of_a_connected_camera() {
    let abilities = CameraAbilities {
        id: "id".to_string(),
        model: "model".to_string(),
        folder_operations: AvailableFolderOperations {
            delete_all: true,
            put_file: false,
            make_dir: true,
            remove_dir: false,
        },
        file_operations: AvailableFileOperations {
            delete: true,
            preview: false,
            raw: true,
            audio: false,
            exif: true,
        },
        camera_operations: AvailableCameraOperations {
            capture_image: true,
            capture_video: false,
            capture_audio: false,
            capture_preview: true,
            configure: true,
            trigger_capture: false,
        },
    };
    let status = get_camera_status(
        abilities.clone(),
        "port".to_string(),
        "about".to_string(),
        "summary".to_string(),
    );
    assert!(status.connected);
    assert_eq!(status.camera_id, Some("id".to_string()));
    assert_eq!(status.model, Some("model".to_string()));
    assert_eq!(status.port, Some("port".to_string()));
    assert_eq!(status.about, Some("about".to_string()));
    assert_eq!(status.summary, Some("summary".to_string()));
    assert_eq!(status.available_folder_operations, Some(abilities.folder_operations));
    assert_eq!(status.available_file_operations, Some(abilities.file_operations));
    assert_eq!(status.available_camera_operations, Some(abilities.camera_operations));
}

#[test]
fn how_messages_are_worked_on() {
    let update = UpdateCameraConfig { config_updates: vec![] };
    let plans = [
        (Message::GetDetectedCameras, HandlerPlan::Task(HandlerTask::ListCameras)),
        (MessageToServer::GetCameraStatus, HandlerPlan::Task(HandlerTask::ReadStatus)),
        (
            MessageToServer::ConnectToCamera(wish("p", "m")),
            HandlerPlan::Task(HandlerTask::Connect(wish("p", "m"))),
        ),
        (MessageToServer::GetCameraConfig, HandlerPlan::Task(HandlerTask::ReadConfig)),
        (
            MessageToServer::UpdateCameraConfig(update.clone()),
            HandlerPlan::Task(HandlerTask::WriteConfig(update)),
        ),
        (MessageToServer::CapturePreviewImage, HandlerPlan::Task(HandlerTask::CapturePreview)),
        (
            MessageToServer::CaptureImage(CaptureImage::Single),
            HandlerPlan::Effect(WorkerEffect::StartCapture(CaptureImage::Single)),
        ),
        (MessageToServer::CancelCapture, HandlerPlan::Effect(WorkerEffect::CancelCapture)),
        (
            MessageToServer::SetPostProcessingConfigs(vec![]),
            HandlerPlan::Effect(WorkerEffect::ForwardConfigs(vec![])),
        ),
        (MessageToServer::Shutdown, HandlerPlan::Effect(WorkerEffect::PowerOff)),
        (MessageToServer::DisconnectCamera, HandlerPlan::Nothing),
    ];
    for (msg, plan) in plans {
        assert_eq!(handle_msg(msg), plan);
    }
}

#[test]
fn without_a_camera() {
    let worker: Worker<u8> = Worker::new();
    assert_eq!(worker.request(), WorkerRequest::Receive);
    let (worker, effects) = tell(worker, MessageToServer::GetCameraStatus);
    assert_eq!(effects, vec![reply(MessageToClient::CameraStatus(CameraStatus::default()))]);
    for msg in [
        MessageToServer::GetCameraConfig,
        MessageToServer::CapturePreviewImage,
        MessageToServer::CancelCapture,
        MessageToServer::DisconnectCamera,
    ] {
        let (next, effects) = tell(Worker::new(), msg);
        assert_eq!(effects, vec![report(CameraError::NotConnected)]);
        assert_eq!(next.phase, WorkerPhase::Idle);
    }
    let configs = vec![PostProcessingConfig {
        steps: vec!["stack", "sharpen"],
        trigger_every_n_images: 3,
        compress: false,
        compression_level: 1,
    }];
    let msg = MessageToServer::SetPostProcessingConfigs(configs.clone());
    let (worker, effects) = tell(worker, msg);
    assert_eq!(effects, vec![WorkerEffect::ForwardConfigs(configs)]);
    let (worker, effects) = tell(worker, MessageToServer::Shutdown);
    assert_eq!(effects, vec![WorkerEffect::PowerOff]);
    let (worker, effects) = tell(worker, MessageToServer::GetDetectedCameras);
    assert!(effects.is_empty());
    assert_eq!(worker.request(), WorkerRequest::ListCameras);
    let list = CameraList { cameras: vec![] };
    let (worker, effects) = take(worker, WorkerEvent::CamerasListed(Ok(list.clone())));
    assert_eq!(effects, vec![reply(MessageToClient::CameraList(list))]);
    let (worker, _) = tell(worker, MessageToServer::GetDetectedCameras);
    let (worker, effects) = take(worker, WorkerEvent::CamerasListed(Err(fault())));
    assert_eq!(effects, vec![report(fault())]);
    let (worker, effects) = take(worker, WorkerEvent::ChannelClosed);
    assert!(effects.is_empty());
    assert_eq!(worker.request(), WorkerRequest::Stop);
    assert!(!worker.expects::<u8>(&WorkerEvent::ChannelClosed));
}

#[test]
fn connecting_on_a_wish() {
    let (worker, _) = tell(Worker::new(), MessageToServer::ConnectToCamera(wish("p", "m")));
    assert_eq!(
        worker.request(),
        WorkerRequest::Connect(ConnectTarget::Camera {
            port: &"p".to_string(),
            model: &"m".to_string()
        })
    );
    let (worker, effects) = take(worker, WorkerEvent::Connected(Err(fault())));
    assert_eq!(effects, vec![report(fault())]);
    assert_eq!(worker.connection, None);
    assert_eq!(worker.last_port, Some("p".to_string()));
    let (worker, _) =
        tell(worker, MessageToServer::ConnectToCamera(ConnectToCamera::default()));
    assert_eq!(worker.request(), WorkerRequest::Connect(ConnectTarget::Any));
    assert_eq!(worker.last_port, None);
}

#[test]
fn a_busy_camera_is_asked_again() {
    let (worker, _) = tell(Worker::new(), MessageToServer::ConnectToCamera(wish("p", "m")));
    let (mut worker, _) = take(worker, WorkerEvent::Connected(Ok(1)));
    for question in 1..=5 {
        assert_eq!(worker.request(), WorkerRequest::ReadStatus);
        let (next, effects) = take(worker, WorkerEvent::StatusRead(Err(busy())));
        assert_eq!(effects, vec![WorkerEffect::Sleep(300 * question)]);
        worker = next;
    }
    let (worker, effects) = take(worker, WorkerEvent::StatusRead(Err(busy())));
    assert_eq!(effects, vec![report(busy())]);
    assert_eq!(worker.connection, Some(1));
    assert_eq!(worker.phase, WorkerPhase::Idle);
}

#[test]
fn another_error_is_not_asked_again() {
    let (worker, _) = tell(Worker::new(), MessageToServer::ConnectToCamera(wish("p", "m")));
    let (worker, _) = take(worker, WorkerEvent::Connected(Ok(1)));
    let (worker, effects) = take(worker, WorkerEvent::StatusRead(Err(fault())));
    assert_eq!(effects, vec![report(fault())]);
    assert_eq!(worker.connection, Some(1));
    assert_eq!(worker.last_status, CameraStatus::default());
}

#[test]
fn the_last_status_stands_in_for_one_that_cannot_be_read() {
    let (worker, _) = tell(connected(), MessageToServer::GetCameraStatus);
    let (worker, effects) = take(worker, WorkerEvent::StatusRead(Err(fault())));
    assert_eq!(effects, vec![reply(MessageToClient::CameraStatus(status("Alpha")))]);
    assert_eq!(worker.connection, Some(1));
    let (worker, _) = tell(worker, MessageToServer::GetCameraStatus);
    let (worker, effects) = take(worker, WorkerEvent::StatusRead(Ok(status("Beta"))));
    assert_eq!(effects, vec![reply(MessageToClient::CameraStatus(status("Beta")))]);
    assert_eq!(worker.last_status, status("Beta"));
}

#[test]
fn the_status_that_is_told_is_kept() {
    let (worker, effects) = tell(connected(), MessageToServer::GetCameraStatus);
    assert!(effects.is_empty());
    let (worker, effects) = take(worker, WorkerEvent::StatusRead(Ok(status("Gamma"))));
    assert_eq!(effects, vec![reply(MessageToClient::CameraStatus(worker.last_status.clone()))]);
    let (worker, effects) = tell(worker, MessageToServer::DisconnectCamera);
    assert_eq!(
        effects.last(),
        Some(&reply(MessageToClient::CameraStatus(worker.last_status.clone())))
    );
    let (worker, effects) = tell(worker, MessageToServer::GetCameraStatus);
    assert_eq!(effects, vec![reply(MessageToClient::CameraStatus(worker.last_status))]);
}

#[test]
fn failing_work_is_given_up() {
    let (worker, _) = tell(connected(), MessageToServer::GetCameraConfig);
    let (worker, effects) = take(worker, WorkerEvent::ConfigRead(Err(fault())));
    assert_eq!(effects, vec![WorkerEffect::Sleep(500)]);
    assert_eq!(worker.request(), WorkerRequest::ReadConfig);
    let (worker, effects) = take(worker, WorkerEvent::ConfigRead(Err(fault())));
    assert_eq!(effects, vec![WorkerEffect::Sleep(500)]);
    let (worker, effects) = take(worker, WorkerEvent::ConfigRead(Err(busy())));
    let mut expected = vec![WorkerEffect::Sleep(500), report(busy())];
    expected.extend(released());
    assert_eq!(effects, expected);
    assert_eq!(worker.connection, None);
    assert_eq!(worker.last_status, CameraStatus::default());
    assert_eq!(worker.request(), WorkerRequest::Receive);
}

#[test]
fn work_may_succeed_late() {
    let (worker, _) = tell(connected(), MessageToServer::CapturePreviewImage);
    let (worker, _) = take(worker, WorkerEvent::PreviewCaptured(Err(fault())));
    let image = Image {
        id: "x".to_string(),
        mime_type: "image/jpeg".to_string(),
        source: ImageSource::Preview,
        data: vec![1],
    };
    let (worker, effects) = take(worker, WorkerEvent::PreviewCaptured(Ok(image.clone())));
    assert_eq!(effects, vec![reply(MessageToClient::Image(image))]);
    assert_eq!(worker.connection, Some(1));
    let (worker, _) = tell(worker, MessageToServer::GetCameraConfig);
    let config = CameraConfig::default();
    let (worker, effects) = take(worker, WorkerEvent::ConfigRead(Ok(config.clone())));
    assert_eq!(effects, vec![reply(MessageToClient::CameraConfig(config))]);
    let update = UpdateCameraConfig { config_updates: vec![] };
    let (worker, _) = tell(worker, MessageToServer::UpdateCameraConfig(update.clone()));
    assert_eq!(worker.request(), WorkerRequest::WriteConfig(&update));
    let (worker, effects) = take(worker, WorkerEvent::ConfigWritten(Ok(())));
    assert!(effects.is_empty());
    let (worker, _) = tell(worker, MessageToServer::GetDetectedCameras);
    let list = CameraList { cameras: vec![] };
    let (_, effects) = take(worker, WorkerEvent::CamerasListed(Ok(list.clone())));
    assert_eq!(effects, vec![reply(MessageToClient::CameraList(list))]);
}

#[test]
fn another_camera_takes_the_place() {
    let (worker, _) = tell(connected(), MessageToServer::ConnectToCamera(wish("usb:2", "Beta")));
    assert_eq!(
        worker.request(),
        WorkerRequest::Connect(ConnectTarget::Camera {
            port: &"usb:2".to_string(),
            model: &"Beta".to_string()
        })
    );
    let (worker, effects) = take(worker, WorkerEvent::Connected(Ok(2)));
    assert_eq!(effects, vec![WorkerEffect::AnnounceConnected, WorkerEffect::Sleep(500)]);
    assert_eq!(worker.connection, Some(2));
    assert_eq!(worker.last_port, Some("usb:1".to_string()));
}

#[test]
fn a_known_camera_is_taken_up_again() {
    let (worker, effects) = tell(connected(), MessageToServer::DisconnectCamera);
    assert_eq!(effects, released());
    assert_eq!(worker.connection, None);
    let (worker, effects) = tell(worker, MessageToServer::GetCameraConfig);
    assert!(effects.is_empty());
    assert_eq!(worker.phase, WorkerPhase::Reconnecting);
    let (worker, effects) = take(worker, WorkerEvent::Connected(Err(fault())));
    assert_eq!(effects, vec![report(fault())]);
    let (worker, _) = tell(worker, MessageToServer::CaptureImage(CaptureImage::Single));
    let (worker, effects) = take(worker, WorkerEvent::Connected(Ok(3)));
    assert_eq!(effects, vec![WorkerEffect::AnnounceConnected]);
    assert_eq!(worker.connection, Some(3));
    assert_eq!(worker.request(), WorkerRequest::Receive);
}

#[test]
fn what_cannot_fail_is_done_at_once() {
    let (worker, effects) = tell(connected(), MessageToServer::CaptureImage(CaptureImage::Single));
    assert_eq!(effects, vec![WorkerEffect::StartCapture(CaptureImage::Single)]);
    let (worker, effects) = tell(worker, MessageToServer::CancelCapture);
    assert_eq!(effects, vec![WorkerEffect::CancelCapture]);
    let (worker, effects) = tell(worker, MessageToServer::Shutdown);
    assert_eq!(effects, vec![WorkerEffect::PowerOff]);
    assert_eq!(worker.connection, Some(1));
}

#[test]
fn an_unexpected_event_is_not_expected() {
    let worker: Worker<u8> = Worker::new();
    assert!(!worker.expects::<u8>(&WorkerEvent::Connected(Ok(1))));
    assert!(!connected().expects::<u8>(&WorkerEvent::StatusRead(Err(fault()))));
}

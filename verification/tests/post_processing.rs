use camera_tethering::camera::events::{CameraEvent, CameraFilePath};
use camera_tethering::camera::post_processing::{
    ends_as_jpeg, jpeg_image, names_jpeg, shared_configs, PostEffect, PostInput, PostPhase,
    PostProcessor, PostRequest,
};
use camera_tethering::camera::post_processing_link::{
    config_message, raw_image_message, response_reader, send_failed, session_after_action,
    session_after_effect, LinkEvent, LinkOpening, LinkPhase, LinkRequest,
    MessageToCameraServer, MessageToPostProcessor, ReaderAction, ReaderInput, Upload,
    UploadEffect, UploadEvent, UploadRequest,
};
use camera_tethering::camera::worker::CameraError;
use camera_tethering::websocket::scheme::{
    ImageSource, MessageToClient, PostProcessingConfig,
    SharedPostProcessingConfig,
};

fn path(file: &str) -> CameraFilePath {
    CameraFilePath { folder: "/store".to_string(), file: file.to_string() }
}

type Config = SharedPostProcessingConfig<&'static str>;

fn config(n: u32) -> Config {
    SharedPostProcessingConfig { steps: vec![], trigger_every_n_images: n }
}

fn fault() -> CameraError {
    CameraError::Gphoto2Error("fault".to_string())
}

fn take(
    worker: PostProcessor<u8, &'static str>,
    input: PostInput<u8, &'static str>,
) -> (PostProcessor<u8, &'static str>, Vec<PostEffect>) {
    assert!(worker.expects(&input));
    worker.advance(input)
}

fn with_camera() -> PostProcessor<u8, &'static str> {
    let (worker, effects) = take(PostProcessor::new(), PostInput::Connected(1));
    assert_eq!(effects, vec![PostEffect::ForgetSession]);
    assert_eq!(worker.request(), PostRequest::OpenLink);
    let (worker, effects) = take(worker, PostInput::LinkTried(true));
    assert!(effects.is_empty());
    worker
}

#[test]
fn names_of_jpeg_files() {
    for name in ["a.jpg", "A.JPG", "a.JpEg", ".jpeg", "x.raw.jpg", "\u{c9}T\u{c9}.JPG"] {
        assert!(names_jpeg(name));
    }
    for name in ["a.raw", "jpg", "a.jpg.cr2", "", "a.jpe", "ajpeg"] {
        assert!(!names_jpeg(name));
    }
    assert!(ends_as_jpeg("a.jpg"));
    assert!(!ends_as_jpeg("a.JPG"));
}

#[test]
fn a_jpeg_image_has_its_type() {
    let image = jpeg_image(vec![1], ImageSource::PostProcessing);
    assert_eq!(image.mime_type, "image/jpeg");
    assert_eq!(image.source, ImageSource::PostProcessing);
    assert_eq!(image.data, vec![1]);
}

#[test]
fn configurations_are_shared_one_by_one() {
    let step = "stack";
    let given = PostProcessingConfig {
        steps: vec![step],
        trigger_every_n_images: 2,
        compress: true,
        compression_level: 9,
    };
    let other = PostProcessingConfig { trigger_every_n_images: 3, ..given.clone() };
    let shared = shared_configs(vec![given, other]);
    assert_eq!(shared.len(), 2);
    assert_eq!(shared[0].trigger_every_n_images, 2);
    assert_eq!(shared[1].trigger_every_n_images, 3);
    assert_eq!(shared[1].steps, vec![step]);
}

#[test]
fn new_files_are_of_no_use_without_a_camera() {
    let worker: PostProcessor<u8, &'static str> = PostProcessor::new();
    let (worker, effects) =
        take(worker, PostInput::Event(CameraEvent::NewFile(path("a.jpg"))));
    assert!(effects.is_empty());
    let (worker, effects) =
        take(worker, PostInput::Event(CameraEvent::NewFile(path("a.raw"))));
    assert!(effects.is_empty());
    assert_eq!(worker.request(), PostRequest::Listen);
}

#[test]
fn a_jpeg_file_goes_to_the_clients() {
    let (worker, effects) =
        take(with_camera(), PostInput::Event(CameraEvent::NewFile(path("A.JPG"))));
    assert!(effects.is_empty());
    assert_eq!(worker.request(), PostRequest::Download(&path("A.JPG")));
    let (worker, effects) = take(worker, PostInput::Downloaded(Ok(vec![5, 6])));
    match effects.as_slice() {
        [PostEffect::Reply(MessageToClient::Image(image))] => {
            assert_eq!(image.data, vec![5, 6]);
            assert_eq!(image.source, ImageSource::Capture);
            assert_eq!(image.mime_type, "image/jpeg");
        }
        _ => panic!("no image"),
    }
    let (worker, _) = take(worker, PostInput::Event(CameraEvent::NewFile(path("b.jpeg"))));
    let (worker, effects) = take(worker, PostInput::Downloaded(Err(fault())));
    assert_eq!(effects, vec![PostEffect::Reply(MessageToClient::CameraError(fault()))]);
    assert_eq!(worker.request(), PostRequest::Listen);
}

#[test]
fn any_other_file_goes_to_the_server() {
    let (worker, effects) =
        take(with_camera(), PostInput::Event(CameraEvent::NewFile(path("a.CR2"))));
    assert_eq!(effects, vec![PostEffect::Upload(path("a.CR2"))]);
    assert_eq!(worker.request(), PostRequest::Listen);
}

#[test]
fn other_events_do_not_matter() {
    let (worker, effects) =
        take(with_camera(), PostInput::Event(CameraEvent::FileChanged(path("a.jpg"))));
    assert!(effects.is_empty());
    let (worker, effects) = take(worker, PostInput::Event(CameraEvent::CaptureComplete));
    assert!(effects.is_empty());
    let (worker, effects) = take(worker, PostInput::ConnectionsFailed);
    assert!(effects.is_empty());
    assert_eq!(worker.request(), PostRequest::Listen);
}

#[test]
fn the_last_wish_stands() {
    let (worker, effects) = take(with_camera(), PostInput::Configs(vec![config(1)]));
    assert_eq!(effects, vec![PostEffect::PushConfigs]);
    assert_eq!(
        worker.config_message(),
        MessageToPostProcessor::SetPostProcessorConfig(&vec![config(1)])
    );
    let (worker, _) = take(worker, PostInput::Configs(vec![config(2), config(3)]));
    let (worker, _) = take(worker, PostInput::Connected(7));
    let (worker, _) = take(worker, PostInput::LinkTried(false));
    assert_eq!(worker.config, vec![config(2), config(3)]);
    assert_eq!(worker.connection, Some(7));
    assert_eq!(worker.request(), PostRequest::Listen);
}

#[test]
fn rests_double_up_to_a_limit() {
    let (mut worker, effects) = take(with_camera(), PostInput::LinkLost);
    assert!(effects.is_empty());
    for secs in [1, 2, 4, 8, 16, 30, 30, 30] {
        assert_eq!(worker.request(), PostRequest::Rest(secs));
        assert!(!worker.expects(&PostInput::LinkLost));
        worker = take(worker, PostInput::Rested).0;
        assert_eq!(worker.request(), PostRequest::ReopenLink);
        worker = take(worker, PostInput::LinkTried(false)).0;
    }
    worker = take(worker, PostInput::Rested).0;
    worker = take(worker, PostInput::LinkTried(true)).0;
    assert_eq!(worker.request(), PostRequest::Listen);
    worker = take(worker, PostInput::LinkLost).0;
    assert_eq!(worker.request(), PostRequest::Rest(1));
}

#[test]
fn the_worker_stops_with_its_sources() {
    let (worker, _) = take(with_camera(), PostInput::ConfigsClosed);
    assert_eq!(worker.phase, PostPhase::Stopped);
    assert_eq!(worker.request(), PostRequest::Stop);
    assert!(!worker.expects(&PostInput::Rested));
    let (worker, _) = take(with_camera(), PostInput::EventsFailed);
    assert_eq!(worker.request(), PostRequest::Stop);
}

fn no_configs() -> Vec<Config> {
    vec![]
}

fn link(opening: &mut LinkOpening, event: LinkEvent) -> bool {
    assert!(opening.expects(event));
    opening.advance(event)
}

#[test]
fn a_link_starts_a_session() {
    let configs = vec![config(4)];
    let mut opening = LinkOpening::fresh();
    assert_eq!(opening.request(Some(9), &configs), LinkRequest::Reach);
    assert!(!link(&mut opening, LinkEvent::Reached(true)));
    assert_eq!(
        opening.request(Some(9), &configs),
        LinkRequest::Send(MessageToPostProcessor::StartSession)
    );
    assert!(!link(&mut opening, LinkEvent::Sent(true)));
    assert_eq!(
        opening.request(None, &configs),
        LinkRequest::Send(MessageToPostProcessor::SetPostProcessorConfig(&configs))
    );
    assert!(link(&mut opening, LinkEvent::Sent(false)));
    assert_eq!(opening.request(None, &configs), LinkRequest::Finish(true));
    assert!(!opening.expects(LinkEvent::Sent(true)));
}

#[test]
fn a_link_resumes_the_session_if_there_is_one() {
    let mut opening = LinkOpening::again(Some(9));
    link(&mut opening, LinkEvent::Reached(true));
    assert_eq!(
        opening.request(Some(9), &no_configs()),
        LinkRequest::Send(MessageToPostProcessor::ResumeSession(9))
    );
    let mut opening = LinkOpening::again(None);
    link(&mut opening, LinkEvent::Reached(true));
    assert_eq!(
        opening.request(None, &no_configs()),
        LinkRequest::Send(MessageToPostProcessor::StartSession)
    );
}

#[test]
fn which_link_is_asked_for() {
    let worker = with_camera();
    assert_eq!(worker.link_opening(Some(4)), None);
    let (worker, _) = take(worker, PostInput::Connected(2));
    assert_eq!(worker.link_opening(Some(4)), Some(LinkOpening::fresh()));
    let (worker, _) = take(worker, PostInput::LinkTried(true));
    let (worker, _) = take(worker, PostInput::LinkLost);
    assert_eq!(worker.link_opening(Some(4)), None);
    let (worker, _) = take(worker, PostInput::Rested);
    assert_eq!(worker.link_opening(Some(4)), Some(LinkOpening::again(Some(4))));
    assert_eq!(worker.link_opening(None), Some(LinkOpening::fresh()));
    let (file, _) = fail(new_upload("a.raw"), None, fault());
    assert_eq!(file.link_opening(Some(4)), None);
    let (file, _) = upload(file, UploadEvent::Rested);
    assert_eq!(file.link_opening(Some(4)), Some(LinkOpening::again(Some(4))));
    assert_eq!(file.config, vec![config(6)]);
}

#[test]
fn the_session_that_was_kept_last_is_resumed() {
    let mut session = None;
    session = session_after_action(session, &ReaderAction::Ignore);
    assert_eq!(session, None);
    session = session_after_action(session, &ReaderAction::KeepSession(3));
    session = session_after_action(session, &ReaderAction::KeepSession(5));
    session = session_after_action(session, &ReaderAction::CloseLink);
    session = session_after_effect(session, &PostEffect::PushConfigs);
    assert_eq!(session, Some(5));
    let mut opening = LinkOpening::again(session);
    link(&mut opening, LinkEvent::Reached(true));
    assert_eq!(
        opening.request(session, &no_configs()),
        LinkRequest::Send(MessageToPostProcessor::ResumeSession(5))
    );
    session = session_after_effect(session, &PostEffect::ForgetSession);
    let mut opening = LinkOpening::again(session);
    link(&mut opening, LinkEvent::Reached(true));
    assert_eq!(
        opening.request(session, &no_configs()),
        LinkRequest::Send(MessageToPostProcessor::StartSession)
    );
    session = session_after_action(session, &ReaderAction::KeepSession(8));
    assert_eq!(session, Some(8));
}

#[test]
fn a_link_may_fail() {
    let mut opening = LinkOpening::fresh();
    assert!(!link(&mut opening, LinkEvent::Reached(false)));
    assert_eq!(opening.phase, LinkPhase::Finished(false));
    let mut opening = LinkOpening::fresh();
    link(&mut opening, LinkEvent::Reached(true));
    assert!(!link(&mut opening, LinkEvent::Sent(false)));
    assert_eq!(opening.phase, LinkPhase::Finished(false));
    let mut opening = LinkOpening::fresh();
    link(&mut opening, LinkEvent::Reached(true));
    assert!(link(&mut opening, LinkEvent::Gone));
    assert_eq!(opening.phase, LinkPhase::Finished(true));
}

#[test]
fn what_the_server_says() {
    let said = |msg| response_reader(ReaderInput::Message(msg));
    assert_eq!(said(MessageToCameraServer::SessionId(3)), ReaderAction::KeepSession(3));
    match said(MessageToCameraServer::ReturnedImage(vec![1, 2])) {
        ReaderAction::Reply(MessageToClient::Image(image)) => {
            assert_eq!(image.data, vec![1, 2]);
            assert_eq!(image.source, ImageSource::PostProcessing);
            assert_eq!(image.mime_type, "image/jpeg");
        }
        _ => panic!("no image"),
    }
    assert_eq!(
        said(MessageToCameraServer::SaveToSystemStorage {
            filename: "x.tif".to_string(),
            data: vec![4],
        }),
        ReaderAction::Save { filename: "x.tif".to_string(), data: vec![4] }
    );
    assert_eq!(response_reader(ReaderInput::Unreadable), ReaderAction::Ignore);
    assert_eq!(response_reader(ReaderInput::ReadFailed), ReaderAction::CloseLink);
}

#[test]
fn a_failed_send_says_why() {
    assert_eq!(
        send_failed("broken pipe"),
        CameraError::RsRawUtilError("Send failed: broken pipe".to_string())
    );
}

fn new_upload(file: &str) -> Upload<&'static str> {
    Upload::new(path(file), vec![config(6)])
}

fn upload(
    upload: Upload<&'static str>,
    event: UploadEvent,
) -> (Upload<&'static str>, Vec<UploadEffect>) {
    assert!(upload.expects(&event));
    upload.advance(event)
}

fn given_up(error: CameraError) -> Vec<UploadEffect> {
    vec![
        UploadEffect::Reply(MessageToClient::CameraError(error)),
        UploadEffect::SignalLinkLost,
    ]
}

#[test]
fn messages_to_the_server() {
    let data = vec![1, 2, 3];
    assert_eq!(
        raw_image_message::<u8>(&data),
        MessageToPostProcessor::RawImage(&vec![1, 2, 3])
    );
    let configs = vec![config(5)];
    assert_eq!(
        config_message(&configs),
        MessageToPostProcessor::SetPostProcessorConfig(&vec![config(5)])
    );
}

#[test]
fn a_raw_file_goes_out_as_a_raw_image() {
    let (_, effects) =
        take(with_camera(), PostInput::Event(CameraEvent::NewFile(path("a.NEF"))));
    assert_eq!(effects, vec![PostEffect::Upload(path("a.NEF"))]);
    let file = new_upload("a.NEF");
    assert_eq!(file.request(), UploadRequest::Fetch(&path("a.NEF")));
    assert!(!file.expects(&UploadEvent::Sent(Ok(()))));
    let (file, effects) = upload(file, UploadEvent::Fetched(Ok(vec![7, 8])));
    assert!(effects.is_empty());
    assert_eq!(
        file.request(),
        UploadRequest::Send(MessageToPostProcessor::RawImage(&vec![7, 8]))
    );
    assert!(!file.expects(&UploadEvent::NoLink));
    let (file, effects) = upload(file, UploadEvent::Sent(Ok(())));
    assert!(effects.is_empty());
    assert_eq!(file.request(), UploadRequest::Stop);
}

/// An attempt that fails: at the camera, or on the link with these data.
fn fail(
    file: Upload<&'static str>,
    data: Option<Vec<u8>>,
    error: CameraError,
) -> (Upload<&'static str>, Vec<UploadEffect>) {
    match data {
        None => upload(file, UploadEvent::Fetched(Err(error))),
        Some(data) => {
            let (file, effects) = upload(file, UploadEvent::Fetched(Ok(data)));
            assert!(effects.is_empty());
            upload(file, UploadEvent::Sent(Err(error)))
        }
    }
}

#[test]
fn a_file_is_tried_three_times_at_the_most() {
    let mut file = new_upload("a.raw");
    for data in [Some(vec![1]), None] {
        assert_eq!(file.request(), UploadRequest::Fetch(&path("a.raw")));
        let (next, effects) = fail(file, data, send_failed("x"));
        assert_eq!(effects, vec![UploadEffect::CloseLink]);
        assert_eq!(next.request(), UploadRequest::Rest(500));
        let (next, effects) = upload(next, UploadEvent::Rested);
        assert!(effects.is_empty());
        assert_eq!(next.request(), UploadRequest::ReopenLink);
        file = upload(next, UploadEvent::Relinked).0;
    }
    let (file, effects) = fail(file, Some(vec![1]), fault());
    let mut expected = vec![UploadEffect::CloseLink];
    expected.extend(given_up(fault()));
    assert_eq!(effects, expected);
    assert_eq!(file.request(), UploadRequest::Stop);
    assert!(!file.expects(&UploadEvent::NoLink));
}

#[test]
fn a_file_may_be_sent_late() {
    let (file, _) = fail(new_upload("a.raw"), None, fault());
    let (file, _) = upload(file, UploadEvent::Rested);
    let (file, _) = upload(file, UploadEvent::Relinked);
    let (file, _) = upload(file, UploadEvent::Fetched(Ok(vec![1])));
    let (file, effects) = upload(file, UploadEvent::Sent(Ok(())));
    assert!(effects.is_empty());
    assert_eq!(file.request(), UploadRequest::Stop);
}

#[test]
fn without_a_link_a_file_is_given_up() {
    let (file, effects) = upload(new_upload("a.raw"), UploadEvent::NoLink);
    assert!(effects.is_empty());
    assert_eq!(file.request(), UploadRequest::Stop);
    let (file, _) = fail(new_upload("a.raw"), Some(vec![]), fault());
    let (file, _) = upload(file, UploadEvent::Rested);
    let (file, _) = upload(file, UploadEvent::Relinked);
    let (file, effects) = upload(file, UploadEvent::NoLink);
    assert_eq!(effects, given_up(fault()));
    assert_eq!(file.request(), UploadRequest::Stop);
}

use camera_tethering::camera::events::{
    is_same_kind, wait_for_event, CameraEvent, CameraEventLoop, CameraFilePath, LoopAction,
    LoopInput, LoopRequest, WaitInput, WaitOutcome,
};

fn new_file(file: &str) -> CameraEvent {
    CameraEvent::NewFile(CameraFilePath { folder: "/store".to_string(), file: file.to_string() })
}

fn take(
    event_loop: CameraEventLoop<u8>,
    input: LoopInput<u8>,
) -> (CameraEventLoop<u8>, LoopAction) {
    assert!(event_loop.expects(&input));
    event_loop.advance(input)
}

#[test]
fn the_kind_of_an_event() {
    let path = CameraFilePath { folder: "a".to_string(), file: "b".to_string() };
    let events = [
        CameraEvent::Unknown("x".to_string()),
        CameraEvent::Timeout,
        CameraEvent::NewFile(path.clone()),
        CameraEvent::FileChanged(path.clone()),
        CameraEvent::NewFolder(path),
        CameraEvent::CaptureComplete,
    ];
    for (i, one) in events.iter().enumerate() {
        for (j, other) in events.iter().enumerate() {
            assert_eq!(is_same_kind(one, other), i == j);
        }
    }
    assert!(is_same_kind(&new_file("a"), &new_file("b")));
}

#[test]
fn what_happens_is_passed_on() {
    let event_loop: CameraEventLoop<u8> = CameraEventLoop::new();
    assert!(!event_loop.expects(&LoopInput::Polled(CameraEvent::Timeout)));
    let (event_loop, action) = take(event_loop, LoopInput::Connection(None));
    assert_eq!(action, LoopAction::Continue);
    assert_eq!(event_loop.connection, None);
    let (event_loop, action) = take(event_loop, LoopInput::Connection(Some(1)));
    assert_eq!(action, LoopAction::Continue);
    let (event_loop, action) = take(event_loop, LoopInput::Polled(new_file("a")));
    assert_eq!(action, LoopAction::Forward(new_file("a")));
    let (event_loop, action) = take(event_loop, LoopInput::Polled(CameraEvent::Timeout));
    assert_eq!(action, LoopAction::Continue);
    let (event_loop, action) = take(event_loop, LoopInput::PollFailed);
    assert_eq!(action, LoopAction::Sleep(1000));
    let (event_loop, action) = take(event_loop, LoopInput::Polled(CameraEvent::CaptureComplete));
    assert_eq!(action, LoopAction::Forward(CameraEvent::CaptureComplete));
    let (event_loop, _) = take(event_loop, LoopInput::Connection(Some(2)));
    assert_eq!(event_loop.connection, Some(2));
    let (event_loop, _) = take(event_loop, LoopInput::Connection(None));
    assert!(!event_loop.expects(&LoopInput::PollFailed));
    let (event_loop, action) = take(event_loop, LoopInput::ChannelClosed);
    assert_eq!(action, LoopAction::Stop);
    assert!(!event_loop.expects(&LoopInput::Connection(None)));
}

#[test]
fn only_the_last_camera_is_asked() {
    let event_loop: CameraEventLoop<u8> = CameraEventLoop::new();
    assert_eq!(event_loop.request(), LoopRequest::Receive);
    let (event_loop, _) = take(event_loop, LoopInput::Connection(Some(1)));
    assert_eq!(event_loop.request(), LoopRequest::ReceiveOrPoll(&1, 100));
    let (event_loop, _) = take(event_loop, LoopInput::Connection(Some(2)));
    let (event_loop, _) = take(event_loop, LoopInput::Polled(CameraEvent::CaptureComplete));
    let (event_loop, _) = take(event_loop, LoopInput::PollFailed);
    assert_eq!(event_loop.request(), LoopRequest::ReceiveOrPoll(&2, 100));
    let (event_loop, _) = take(event_loop, LoopInput::Connection(None));
    assert_eq!(event_loop.request(), LoopRequest::Receive);
    let (event_loop, _) = take(event_loop, LoopInput::ChannelClosed);
    assert_eq!(event_loop.request(), LoopRequest::Stop);
}

#[test]
fn the_first_event_of_the_kind_ends_the_waiting() {
    let wanted = new_file("");
    let inputs = [
        WaitInput::ReceiveFailed,
        WaitInput::Received(CameraEvent::CaptureComplete),
        WaitInput::Received(CameraEvent::Unknown("x".to_string())),
    ];
    for input in inputs {
        assert_eq!(wait_for_event(&wanted, input), WaitOutcome::Waiting);
    }
    assert_eq!(
        wait_for_event(&wanted, WaitInput::Received(new_file("first"))),
        WaitOutcome::Finished(Some(new_file("first")))
    );
}

#[test]
fn the_time_may_be_up_first() {
    assert_eq!(
        wait_for_event(&CameraEvent::CaptureComplete, WaitInput::TimedOut),
        WaitOutcome::Finished(None)
    );
}

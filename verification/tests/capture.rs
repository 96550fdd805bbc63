use camera_tethering::camera::capture::{
    preview_image, rest_after, supports, CaptureEvent, CaptureRequest, CaptureRun,
};
use camera_tethering::camera::worker::CameraError;
use camera_tethering::websocket::scheme::{
    BlendingMode, CaptureImage, ImageSource, IntervalCapture, MessageToClient,
    MultipleExposureCapture,
};

fn series(number_of_images: Option<u32>, interval_ms: u32) -> CaptureImage {
    CaptureImage::Interval(IntervalCapture {
        number_of_images,
        max_capture_time_ms: None,
        interval_ms,
    })
}

fn take(run: &mut CaptureRun, event: CaptureEvent) -> Vec<MessageToClient> {
    assert!(run.expects(&event));
    run.advance(event)
}

fn error() -> CameraError {
    CameraError::Gphoto2Error("no card".to_string())
}

#[test]
fn a_preview_is_an_image() {
    let image = preview_image(vec![3, 4], "image/jpeg".to_string());
    assert_eq!(image.source, ImageSource::Preview);
    assert_eq!(image.data, vec![3, 4]);
    assert_eq!(image.mime_type, "image/jpeg");
    assert_eq!(image.id.len(), 36);
}

#[test]
fn what_can_be_captured() {
    assert!(supports(&CaptureImage::Single));
    assert!(supports(&series(Some(0), 5)));
    assert!(!supports(&series(None, 5)));
    assert!(!supports(&CaptureImage::MultipleExposure(MultipleExposureCapture {
        number_of_images: 2,
        interval_ms: 5,
        blending_mode: BlendingMode { json: "\"Average\"".to_string() },
    })));
}

#[test]
fn the_rest_fills_the_interval() {
    assert_eq!(rest_after(1000, 400), 600);
    assert_eq!(rest_after(1000, 999), 1);
    assert_eq!(rest_after(1000, 1000), 0);
    assert_eq!(rest_after(1000, 5000), 0);
    assert_eq!(rest_after(0, 0), 0);
    assert_eq!(rest_after(1000, (1 << 32) + 400), 600);
}

#[test]
fn one_image() {
    let (mut run, heard) = CaptureRun::start(CaptureImage::Single);
    assert!(heard.is_empty());
    assert_eq!(run.request(), CaptureRequest::Trigger);
    assert!(!run.can_be_cancelled());
    assert!(!run.expects(&CaptureEvent::Cancelled));
    let heard = take(&mut run, CaptureEvent::Triggered(Ok(())));
    assert_eq!(heard, vec![MessageToClient::CaptureComplete]);
    assert_eq!(run.request(), CaptureRequest::Stop);
    let (mut run, _) = CaptureRun::start(CaptureImage::Single);
    let heard = take(&mut run, CaptureEvent::Triggered(Err(error())));
    assert_eq!(heard, vec![MessageToClient::CameraError(error())]);
    assert_eq!(run.request(), CaptureRequest::Stop);
}

#[test]
fn a_series_goes_through_its_images() {
    let (mut run, heard) = CaptureRun::start(series(Some(3), 1000));
    assert!(heard.is_empty());
    assert!(take(&mut run, CaptureEvent::Triggered(Ok(()))).is_empty());
    assert_eq!(run.request(), CaptureRequest::AwaitCompletion(5000));
    assert!(take(&mut run, CaptureEvent::Completed { elapsed_ms: 250 }).is_empty());
    assert_eq!(run.request(), CaptureRequest::Rest(750));
    assert!(take(&mut run, CaptureEvent::Rested).is_empty());
    assert_eq!(run.request(), CaptureRequest::Trigger);
    let heard = take(&mut run, CaptureEvent::Triggered(Err(error())));
    assert_eq!(heard, vec![MessageToClient::CameraError(error())]);
    let heard = take(&mut run, CaptureEvent::Completed { elapsed_ms: 5001 });
    let late = |ms| MessageToClient::CameraError(CameraError::CaptureTookLongerThanInterval(ms));
    assert_eq!(heard, vec![late(5001)]);
    assert_eq!(run.request(), CaptureRequest::Trigger);
    take(&mut run, CaptureEvent::Triggered(Ok(())));
    let heard = take(&mut run, CaptureEvent::Completed { elapsed_ms: 1000 });
    assert_eq!(heard, vec![late(1000), MessageToClient::CaptureComplete]);
    assert_eq!(run.request(), CaptureRequest::Stop);
}

#[test]
fn the_last_rest_belongs_to_the_series() {
    let (mut run, _) = CaptureRun::start(series(Some(1), 10));
    take(&mut run, CaptureEvent::Triggered(Ok(())));
    take(&mut run, CaptureEvent::Completed { elapsed_ms: 4 });
    assert_eq!(run.request(), CaptureRequest::Rest(6));
    assert_eq!(take(&mut run, CaptureEvent::Rested), vec![MessageToClient::CaptureComplete]);
}

#[test]
fn a_series_without_images_is_complete() {
    let (run, heard) = CaptureRun::start(series(Some(0), 10));
    assert_eq!(heard, vec![MessageToClient::CaptureComplete]);
    assert_eq!(run.request(), CaptureRequest::Stop);
}

#[test]
fn a_series_can_be_cancelled_at_any_time() {
    for steps in 0..3 {
        let (mut run, _) = CaptureRun::start(series(Some(2), 10));
        if steps > 0 {
            take(&mut run, CaptureEvent::Triggered(Ok(())));
        }
        if steps > 1 {
            take(&mut run, CaptureEvent::Completed { elapsed_ms: 4 });
        }
        assert!(run.can_be_cancelled());
        let heard = take(&mut run, CaptureEvent::Cancelled);
        assert_eq!(heard, vec![MessageToClient::CaptureCancelled]);
        assert_eq!(run.request(), CaptureRequest::Stop);
        assert!(!run.expects(&CaptureEvent::Cancelled));
        assert!(!run.expects(&CaptureEvent::Rested));
    }
}

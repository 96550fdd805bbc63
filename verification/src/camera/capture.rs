//! Capturing images: one, or a series of them at an interval.

use vstd::prelude::*;

use crate::camera::worker::CameraError;
use crate::websocket::scheme::{
    is_random_uuid, CaptureImage, Image, ImageSource, IntervalCapture, MessageToClient,
};

verus! {

/// An image that shows these data of this type as a preview, under a fresh id.
pub open spec fn is_preview(image: Image, data: Vec<u8>, mime_type: String) -> bool {
    &&& is_random_uuid(image.id@)
    &&& image == (Image { id: image.id, mime_type, source: ImageSource::Preview, data })
}

/// A preview that the camera gave.
pub fn preview_image(data: Vec<u8>, mime_type: String) -> (image: Image)
    ensures
        is_preview(image, data, mime_type),
{
    Image::new(data, mime_type, ImageSource::Preview)
}

/// How long a series waits for the camera to complete a capture, in milliseconds.
pub const COMPLETION_TIMEOUT_MS: u64 = 5000;

/// Where a capture stands.
#[derive(Debug, Clone, PartialEq, Eq)]
pub enum CapturePhase {
    /// The one image is to be triggered.
    Single,
    /// This image of the series is to be triggered.
    Triggering { image: u32 },
    /// This image of the series is to be completed.
    Completing { image: u32 },
    /// The series rests for so many milliseconds after this image.
    Resting { image: u32, ms: u32 },
    /// There is nothing left to do.
    Finished,
}

/// A capture. The last two fields concern a series only.
#[derive(Debug, Clone, PartialEq, Eq)]
pub struct CaptureRun {
    pub phase: CapturePhase,
    pub number_of_images: u32,
    pub interval_ms: u32,
}

/// What a capture asks of the camera.
#[derive(Debug, Clone, Copy, PartialEq, Eq)]
pub enum CaptureRequest {
    /// Trigger a capture.
    Trigger,
    /// Wait for the capture to be completed, for so many milliseconds at the most.
    AwaitCompletion(u64),
    /// Rest for so many milliseconds.
    Rest(u64),
    /// Stop.
    Stop,
}

/// What comes of it.
#[derive(Debug, PartialEq, Eq)]
pub enum CaptureEvent {
    /// The capture was triggered, or could not be.
    Triggered(Result<(), CameraError>),
    /// The capture is completed, or the wait for it is over, so many milliseconds after the
    /// camera was told to trigger it.
    Completed { elapsed_ms: u128 },
    /// The rest is over.
    Rested,
    /// A client wants no more of it.
    Cancelled,
}

/// A capture that can be made: several exposures in one image cannot, nor can a series
/// without a number of images.
pub open spec fn is_supported(settings: CaptureImage) -> bool {
    match settings {
        CaptureImage::Single => true,
        CaptureImage::Interval(interval) => interval.number_of_images is Some,
        CaptureImage::MultipleExposure(_) => false,
    }
}

/// Whether a capture can be made.
pub fn supports(settings: &CaptureImage) -> (supported: bool)
    ensures
        supported == is_supported(*settings),
{
    match settings {
        CaptureImage::Single => true,
        CaptureImage::Interval(interval) => interval.number_of_images.is_some(),
        CaptureImage::MultipleExposure(_) => false,
    }
}

/// How long a series rests after an image that took so long. The time is counted modulo
/// `2^32` milliseconds.
pub open spec fn pause_after(interval_ms: u32, elapsed_ms: u128) -> u32 {
    let counted = elapsed_ms % 0x1_0000_0000;
    if counted < interval_ms {
        (interval_ms - counted) as u32
    } else {
        0
    }
}

/// How long a series rests after an image that took so long.
pub fn rest_after(interval_ms: u32, elapsed_ms: u128) -> (ms: u32)
    ensures
        ms == pause_after(interval_ms, elapsed_ms),
{
    let counted: u32 = #[verifier::truncate] (elapsed_ms as u32);
    assert(elapsed_ms as u32 == elapsed_ms % 0x1_0000_0000) by (bit_vector);
    interval_ms.saturating_sub(counted)
}

impl CaptureRun {
    /// The image that a series is at is one of its images.
    pub open spec fn wf(self) -> bool {
        match self.phase {
            CapturePhase::Single | CapturePhase::Finished => true,
            CapturePhase::Triggering { image } | CapturePhase::Completing { image }
            | CapturePhase::Resting { image, .. } => image < self.number_of_images,
        }
    }

    /// A series is going on.
    pub open spec fn in_series(self) -> bool {
        !(self.phase is Single) && !(self.phase is Finished)
    }

    /// The event tells how the request went, or that a series is cancelled.
    pub open spec fn awaits(self, event: CaptureEvent) -> bool {
        match event {
            CaptureEvent::Triggered(_) => self.phase is Single || self.phase is Triggering,
            CaptureEvent::Completed { .. } => self.phase is Completing,
            CaptureEvent::Rested => self.phase is Resting,
            CaptureEvent::Cancelled => self.in_series(),
        }
    }

    /// The capture in another phase.
    pub open spec fn in_phase(self, phase: CapturePhase) -> CaptureRun {
        CaptureRun { phase, ..self }
    }

    /// The capture at an image of the series, or at its end, of which the clients hear.
    pub open spec fn at_image(self, image: int) -> (CaptureRun, Seq<MessageToClient>) {
        if image < self.number_of_images {
            (self.in_phase(CapturePhase::Triggering { image: image as u32 }), Seq::empty())
        } else {
            (self.in_phase(CapturePhase::Finished), seq![MessageToClient::CaptureComplete])
        }
    }

    /// The beginning of a capture.
    pub open spec fn started(settings: CaptureImage) -> (CaptureRun, Seq<MessageToClient>) {
        match settings {
            CaptureImage::Interval(interval) => CaptureRun {
                phase: CapturePhase::Finished,
                number_of_images: interval.number_of_images->0,
                interval_ms: interval.interval_ms,
            }.at_image(0),
            _ => (
                CaptureRun { phase: CapturePhase::Single, number_of_images: 1, interval_ms: 0 },
                Seq::empty(),
            ),
        }
    }

    /// The capture after an event, and what the clients hear. A series goes on when an
    /// image could not be triggered; it complains when an image leaves no time to rest.
    pub open spec fn after(self, event: CaptureEvent) -> (CaptureRun, Seq<MessageToClient>) {
        match (self.phase, event) {
            (CapturePhase::Single, CaptureEvent::Triggered(outcome)) => (
                self.in_phase(CapturePhase::Finished),
                match outcome {
                    Ok(()) => seq![MessageToClient::CaptureComplete],
                    Err(error) => seq![MessageToClient::CameraError(error)],
                },
            ),
            (CapturePhase::Triggering { image }, CaptureEvent::Triggered(outcome)) => (
                self.in_phase(CapturePhase::Completing { image }),
                match outcome {
                    Ok(()) => Seq::empty(),
                    Err(error) => seq![MessageToClient::CameraError(error)],
                },
            ),
            (CapturePhase::Completing { image }, CaptureEvent::Completed { elapsed_ms }) => {
                let ms = pause_after(self.interval_ms, elapsed_ms);
                if ms > 0 {
                    (self.in_phase(CapturePhase::Resting { image, ms }), Seq::empty())
                } else {
                    let (next, messages) = self.at_image(image + 1);
                    (
                        next,
                        seq![
                            MessageToClient::CameraError(
                                CameraError::CaptureTookLongerThanInterval(elapsed_ms),
                            ),
                        ] + messages,
                    )
                }
            },
            (CapturePhase::Resting { image, .. }, CaptureEvent::Rested) => self.at_image(image + 1),
            (_, CaptureEvent::Cancelled) => (
                self.in_phase(CapturePhase::Finished),
                seq![MessageToClient::CaptureCancelled],
            ),
            _ => (self, Seq::empty()),
        }
    }

    /// Goes on to an image of the series, or ends it.
    fn go_to_image(&mut self, image: u32, messages: &mut Vec<MessageToClient>)
        ensures
            *final(self) == old(self).at_image(image as int).0,
            final(messages)@ == old(messages)@ + old(self).at_image(image as int).1,
    {
        if image < self.number_of_images {
            self.phase = CapturePhase::Triggering { image };
        } else {
            self.phase = CapturePhase::Finished;
            messages.push(MessageToClient::CaptureComplete);
        }
        assert(messages@ =~= old(messages)@ + old(self).at_image(image as int).1);
    }

    /// Starts a capture that can be made, and says what the clients hear of it at once.
    pub fn start(settings: CaptureImage) -> (begun: (CaptureRun, Vec<MessageToClient>))
        requires
            is_supported(settings),
        ensures
            begun.0 == CaptureRun::started(settings).0,
            begun.1@ == CaptureRun::started(settings).1,
            begun.0.wf(),
    {
        let mut messages: Vec<MessageToClient> = Vec::new();
        match settings {
            CaptureImage::Interval(
                IntervalCapture { number_of_images: Some(number_of_images), interval_ms, .. },
            ) => {
                let mut run = CaptureRun {
                    phase: CapturePhase::Finished,
                    number_of_images,
                    interval_ms,
                };
                run.go_to_image(0, &mut messages);
                assert(messages@ =~= CaptureRun::started(settings).1);
                (run, messages)
            },
            _ => (
                CaptureRun { phase: CapturePhase::Single, number_of_images: 1, interval_ms: 0 },
                messages,
            ),
        }
    }

    /// What the capture asks of the camera.
    pub open spec fn request_of(self) -> CaptureRequest {
        match self.phase {
            CapturePhase::Single | CapturePhase::Triggering { .. } => CaptureRequest::Trigger,
            CapturePhase::Completing { .. } => CaptureRequest::AwaitCompletion(
                COMPLETION_TIMEOUT_MS,
            ),
            CapturePhase::Resting { ms, .. } => CaptureRequest::Rest(ms as u64),
            CapturePhase::Finished => CaptureRequest::Stop,
        }
    }

    /// What to do next.
    pub fn request(&self) -> (request: CaptureRequest)
        ensures
            request == self.request_of(),
    {
        match self.phase {
            CapturePhase::Single | CapturePhase::Triggering { .. } => CaptureRequest::Trigger,
            CapturePhase::Completing { .. } => CaptureRequest::AwaitCompletion(
                COMPLETION_TIMEOUT_MS,
            ),
            CapturePhase::Resting { ms, .. } => CaptureRequest::Rest(ms as u64),
            CapturePhase::Finished => CaptureRequest::Stop,
        }
    }

    /// Whether clients can cancel the capture.
    pub fn can_be_cancelled(&self) -> (cancellable: bool)
        ensures
            cancellable == self.in_series(),
    {
        match self.phase {
            CapturePhase::Single | CapturePhase::Finished => false,
            _ => true,
        }
    }

    /// Whether the event tells how the request went, or that a series is cancelled.
    pub fn expects(&self, event: &CaptureEvent) -> (expected: bool)
        ensures
            expected == self.awaits(*event),
    {
        match (event, &self.phase) {
            (CaptureEvent::Triggered(_), CapturePhase::Single) => true,
            (CaptureEvent::Triggered(_), CapturePhase::Triggering { .. }) => true,
            (CaptureEvent::Completed { .. }, CapturePhase::Completing { .. }) => true,
            (CaptureEvent::Rested, CapturePhase::Resting { .. }) => true,
            (CaptureEvent::Cancelled, _) => self.can_be_cancelled(),
            _ => false,
        }
    }

    /// Takes an event, and says what the clients hear of it.
    pub fn advance(&mut self, event: CaptureEvent) -> (messages: Vec<MessageToClient>)
        requires
            old(self).wf(),
            old(self).awaits(event),
        ensures
            *final(self) == old(self).after(event).0,
            messages@ == old(self).after(event).1,
            final(self).wf(),
    {
        let mut messages: Vec<MessageToClient> = Vec::new();
        match (event, &self.phase) {
            (CaptureEvent::Triggered(outcome), CapturePhase::Triggering { image }) => {
                let image: u32 = *image;
                if let Err(error) = outcome {
                    messages.push(MessageToClient::CameraError(error));
                }
                self.phase = CapturePhase::Completing { image };
            },
            (CaptureEvent::Triggered(outcome), _) => {
                match outcome {
                    Ok(()) => messages.push(MessageToClient::CaptureComplete),
                    Err(error) => messages.push(MessageToClient::CameraError(error)),
                }
                self.phase = CapturePhase::Finished;
            },
            (CaptureEvent::Completed { elapsed_ms }, CapturePhase::Completing { image }) => {
                let image: u32 = *image;
                let ms: u32 = rest_after(self.interval_ms, elapsed_ms);
                if ms > 0 {
                    self.phase = CapturePhase::Resting { image, ms };
                } else {
                    messages.push(
                        MessageToClient::CameraError(
                            CameraError::CaptureTookLongerThanInterval(elapsed_ms),
                        ),
                    );
                    self.go_to_image(image + 1, &mut messages);
                }
            },
            (CaptureEvent::Rested, CapturePhase::Resting { image, .. }) => {
                let image: u32 = *image;
                self.go_to_image(image + 1, &mut messages);
            },
            _ => {
                messages.push(MessageToClient::CaptureCancelled);
                self.phase = CapturePhase::Finished;
            },
        }
        assert(messages@ =~= old(self).after(event).1);
        messages
    }
}

/// A series after an image for which the camera did this, and what the clients heard: it
/// was triggered with this outcome and took so long, and the series rested if there was
/// time left.
pub open spec fn after_image(run: CaptureRun, image: (Result<(), CameraError>, u128)) -> (
    CaptureRun,
    Seq<MessageToClient>,
) {
    let (triggered, first) = run.after(CaptureEvent::Triggered(image.0));
    let (completed, second) = triggered.after(CaptureEvent::Completed { elapsed_ms: image.1 });
    if completed.phase is Resting {
        let (rested, third) = completed.after(CaptureEvent::Rested);
        (rested, first + second + third)
    } else {
        (completed, first + second)
    }
}

/// A series from its beginning through some images, and all that the clients heard.
pub open spec fn after_images(
    settings: CaptureImage,
    images: Seq<(Result<(), CameraError>, u128)>,
) -> (CaptureRun, Seq<MessageToClient>)
    decreases images.len(),
{
    if images.len() == 0 {
        CaptureRun::started(settings)
    } else {
        let (run, heard) = after_images(settings, images.drop_last());
        let (next, messages) = after_image(run, images.last());
        (next, heard + messages)
    }
}

/// What the clients hear of an image that did not go as it should.
pub open spec fn complaints(interval_ms: u32, image: (Result<(), CameraError>, u128)) -> Seq<
    MessageToClient,
> {
    (match image.0 {
        Ok(()) => Seq::empty(),
        Err(error) => seq![MessageToClient::CameraError(error)],
    }) + (if pause_after(interval_ms, image.1) == 0 {
        seq![
            MessageToClient::CameraError(CameraError::CaptureTookLongerThanInterval(image.1)),
        ]
    } else {
        Seq::empty()
    })
}

/// What the clients hear of some images that did not go as they should.
pub open spec fn all_complaints(
    interval_ms: u32,
    images: Seq<(Result<(), CameraError>, u128)>,
) -> Seq<MessageToClient>
    decreases images.len(),
{
    if images.len() == 0 {
        Seq::empty()
    } else {
        all_complaints(interval_ms, images.drop_last()) + complaints(interval_ms, images.last())
    }
}

/// A series of so many images that is not cancelled goes through each of them, whatever the
/// camera says, complains of those that went wrong, and with the last one, not before,
/// tells the clients that it is complete.
pub proof fn law_series_goes_through_its_images(
    interval: IntervalCapture,
    images: Seq<(Result<(), CameraError>, u128)>,
)
    requires
        interval.number_of_images is Some,
        images.len() <= interval.number_of_images->0,
    ensures
        ({
            let n = interval.number_of_images->0;
            let (run, heard) = after_images(CaptureImage::Interval(interval), images);
            &&& images.len() < n ==> run.phase == (CapturePhase::Triggering {
                image: images.len() as u32,
            })
            &&& images.len() == n ==> run.phase is Finished
            &&& heard == all_complaints(interval.interval_ms, images) + (if images.len() == n {
                seq![MessageToClient::CaptureComplete]
            } else {
                Seq::empty()
            })
            &&& run.number_of_images == n
            &&& run.interval_ms == interval.interval_ms
        }),
    decreases images.len(),
{
    let n = interval.number_of_images->0;
    let settings = CaptureImage::Interval(interval);
    let (run, heard) = after_images(settings, images);
    let tail = if images.len() == n {
        seq![MessageToClient::CaptureComplete]
    } else {
        Seq::empty()
    };
    if images.len() > 0 {
        law_series_goes_through_its_images(interval, images.drop_last());
        assert(heard =~= all_complaints(interval.interval_ms, images) + tail);
    } else {
        assert(heard =~= all_complaints(interval.interval_ms, images) + tail);
    }
}

/// The images of a series are an interval apart: one that takes less than the interval is
/// followed by a rest that fills it up.
pub proof fn law_rest_fills_the_interval(interval_ms: u32, elapsed_ms: u128)
    requires
        elapsed_ms < interval_ms,
    ensures
        elapsed_ms + pause_after(interval_ms, elapsed_ms) == interval_ms,
{
    assert(elapsed_ms % 0x1_0000_0000 == elapsed_ms) by (nonlinear_arith)
        requires
            0 <= elapsed_ms < 0x1_0000_0000,
    ;
}

/// An image that takes the interval or longer is followed by no rest, as long as its time
/// is less than `2^32` milliseconds.
pub proof fn law_no_rest_without_time(interval_ms: u32, elapsed_ms: u128)
    requires
        interval_ms <= elapsed_ms < 0x1_0000_0000,
    ensures
        pause_after(interval_ms, elapsed_ms) == 0,
{
    assert(elapsed_ms % 0x1_0000_0000 == elapsed_ms) by (nonlinear_arith)
        requires
            0 <= elapsed_ms < 0x1_0000_0000,
    ;
}

/// A series can be cancelled at any time. The clients are told so, once, and nothing of it
/// comes after.
pub proof fn law_series_can_be_cancelled(run: CaptureRun, event: CaptureEvent)
    requires
        run.in_series(),
    ensures
        run.awaits(CaptureEvent::Cancelled),
        run.after(CaptureEvent::Cancelled) == (
            run.in_phase(CapturePhase::Finished),
            seq![MessageToClient::CaptureCancelled],
        ),
        !run.after(CaptureEvent::Cancelled).0.awaits(event),
{
}

/// What can be captured: a single image, and a series of a known number of images.
pub proof fn law_what_can_be_captured(settings: CaptureImage)
    ensures
        is_supported(settings) <==> (settings is Single || (settings matches CaptureImage::Interval(
            interval,
        ) && interval.number_of_images is Some)),
{
}

/// The time that an image took counts modulo `2^32` milliseconds.
pub proof fn law_time_is_counted_anew(interval_ms: u32, elapsed_ms: u128)
    ensures
        pause_after(interval_ms, elapsed_ms) == if elapsed_ms % 0x1_0000_0000 < interval_ms {
            interval_ms - elapsed_ms % 0x1_0000_0000
        } else {
            0
        },
{
}

/// A single image is triggered once, and the clients hear that it is complete, or the error.
/// It cannot be cancelled.
pub proof fn law_single_image(outcome: Result<(), CameraError>)
    ensures
        ({
            let (run, heard) = CaptureRun::started(CaptureImage::Single);
            let (end, told) = run.after(CaptureEvent::Triggered(outcome));
            &&& heard == Seq::<MessageToClient>::empty()
            &&& run.phase is Single
            &&& run.awaits(CaptureEvent::Triggered(outcome))
            &&& !run.awaits(CaptureEvent::Cancelled)
            &&& end.phase is Finished
            &&& told == seq![
                match outcome {
                    Ok(()) => MessageToClient::CaptureComplete,
                    Err(error) => MessageToClient::CameraError(error),
                },
            ]
        }),
{
}

/// A series starts at its first image, with the number and the interval of its settings. One
/// of no images is complete at once.
pub proof fn law_series_starts_with_its_settings(interval: IntervalCapture, number: u32)
    requires
        interval.number_of_images == Some(number),
    ensures
        ({
            let (run, heard) = CaptureRun::started(CaptureImage::Interval(interval));
            &&& run.number_of_images == number
            &&& run.interval_ms == interval.interval_ms
            &&& number > 0 ==> run.phase == (CapturePhase::Triggering { image: 0 }) && heard
                == Seq::<MessageToClient>::empty()
            &&& number == 0 ==> run.phase is Finished && heard == seq![
                MessageToClient::CaptureComplete,
            ]
        }),
{
}

/// One image of a series: it is triggered, and completed whether or not that worked; the
/// clients hear of an error. With time left in the interval the series rests for exactly that;
/// without, the clients hear how long it took. The time counts modulo `2^32` milliseconds for
/// the rest, and in full for the clients. Then comes the next image, or with the last one
/// the word that the series is complete. The settings stay as they are.
pub proof fn law_image_of_a_series(
    run: CaptureRun,
    image: u32,
    outcome: Result<(), CameraError>,
    elapsed_ms: u128,
    ms: u32,
)
    requires
        image < run.number_of_images,
    ensures
        (CaptureRun { phase: CapturePhase::Triggering { image }, ..run }).after(
            CaptureEvent::Triggered(outcome),
        ) == (
            CaptureRun { phase: CapturePhase::Completing { image }, ..run },
            match outcome {
                Ok(()) => Seq::<MessageToClient>::empty(),
                Err(error) => seq![MessageToClient::CameraError(error)],
            },
        ),
        ({
            let completing = CaptureRun { phase: CapturePhase::Completing { image }, ..run };
            let (next, heard) = completing.after(CaptureEvent::Completed { elapsed_ms });
            let taken = elapsed_ms % 0x1_0000_0000;
            let late = MessageToClient::CameraError(
                CameraError::CaptureTookLongerThanInterval(elapsed_ms),
            );
            &&& next == (CaptureRun { phase: next.phase, ..run })
            &&& taken < run.interval_ms ==> next.phase == (CapturePhase::Resting {
                image,
                ms: (run.interval_ms - taken) as u32,
            }) && heard == Seq::<MessageToClient>::empty()
            &&& taken >= run.interval_ms && image + 1 < run.number_of_images ==> next.phase
                == (CapturePhase::Triggering { image: (image + 1) as u32 }) && heard == seq![late]
            &&& taken >= run.interval_ms && image + 1 == run.number_of_images
                ==> next.phase is Finished && heard == seq![
                late,
                MessageToClient::CaptureComplete,
            ]
        }),
        ({
            let resting = CaptureRun { phase: CapturePhase::Resting { image, ms }, ..run };
            let (next, heard) = resting.after(CaptureEvent::Rested);
            &&& next == (CaptureRun { phase: next.phase, ..run })
            &&& image + 1 < run.number_of_images ==> next.phase == (CapturePhase::Triggering {
                image: (image + 1) as u32,
            }) && heard == Seq::<MessageToClient>::empty()
            &&& image + 1 == run.number_of_images ==> next.phase is Finished && heard == seq![
                MessageToClient::CaptureComplete,
            ]
        }),
{
    law_time_is_counted_anew(run.interval_ms, elapsed_ms);
    let completing = CaptureRun { phase: CapturePhase::Completing { image }, ..run };
    let late = MessageToClient::CameraError(CameraError::CaptureTookLongerThanInterval(elapsed_ms));
    let heard = completing.after(CaptureEvent::Completed { elapsed_ms }).1;
    if elapsed_ms % 0x1_0000_0000 >= run.interval_ms {
        if image + 1 < run.number_of_images {
            assert(heard =~= seq![late]);
        } else {
            assert(heard =~= seq![late, MessageToClient::CaptureComplete]);
        }
    }
}

/// A capture takes the answer to what it asked for, and while it is a series also the wish to
/// cancel it; one that is finished takes nothing.
pub proof fn law_capture_waits_for_its_answer(run: CaptureRun, event: CaptureEvent)
    ensures
        run.awaits(event) <==> match event {
            CaptureEvent::Triggered(_) => run.phase is Single || run.phase is Triggering,
            CaptureEvent::Completed { .. } => run.phase is Completing,
            CaptureEvent::Rested => run.phase is Resting,
            CaptureEvent::Cancelled => run.phase is Triggering || run.phase is Completing
                || run.phase is Resting,
        },
        run.in_series() <==> run.phase is Triggering || run.phase is Completing
            || run.phase is Resting,
        run.in_series() ==> run.after(CaptureEvent::Cancelled) == (
            CaptureRun { phase: CapturePhase::Finished, ..run },
            seq![MessageToClient::CaptureCancelled],
        ),
        run.phase is Single || run.phase is Finished ==> run.wf(),
        run.phase matches CapturePhase::Triggering { image } ==> (run.wf() <==> image
            < run.number_of_images),
        run.phase matches CapturePhase::Completing { image } ==> (run.wf() <==> image
            < run.number_of_images),
        run.phase matches CapturePhase::Resting { image, ms } ==> (run.wf() <==> image
            < run.number_of_images),
{
}

/// What a capture asks for: each image is triggered, its completion is awaited for 5 seconds at
/// the most, a rest is as long as the series rests, and at the end there is nothing more.
pub proof fn law_what_a_capture_asks_for(run: CaptureRun)
    ensures
        run.phase is Single ==> run.request_of() == CaptureRequest::Trigger,
        run.phase is Triggering ==> run.request_of() == CaptureRequest::Trigger,
        run.phase is Completing ==> run.request_of() == CaptureRequest::AwaitCompletion(5000),
        run.phase matches CapturePhase::Resting { image, ms } ==> run.request_of() is Rest
            && run.request_of()->Rest_0 == ms,
        run.phase is Finished ==> run.request_of() == CaptureRequest::Stop,
{
}

/// A preview keeps the data and the type that the camera gave, and is shown as a preview.
pub proof fn law_preview_keeps_its_data(image: Image, data: Vec<u8>, mime_type: String)
    requires
        is_preview(image, data, mime_type),
    ensures
        image.data == data,
        image.mime_type == mime_type,
        image.source is Preview,
        is_random_uuid(image.id@),
{
}

} // verus!

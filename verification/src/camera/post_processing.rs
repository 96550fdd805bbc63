//! The post-processing worker: it shows new JPEG files to the clients, sends all other new
//! files to the post-processing server, and keeps the link to that server.

use vstd::prelude::*;

use crate::camera::events::{CameraEvent, CameraFilePath};
use crate::camera::post_processing_link::{
    config_message, LinkOpening, LinkPhase, MessageToPostProcessor,
};
use crate::camera::worker::CameraError;
use crate::text::{ends_with, has_suffix, law_text_at_the_end};
use crate::websocket::scheme::{
    is_random_uuid, Image, ImageSource, MessageToClient, PostProcessingConfig,
    SharedPostProcessingConfig,
};

verus! {

/// The configurations that the post-processing server gets for those of a client.
pub open spec fn shared_of<S>(configs: Seq<PostProcessingConfig<S>>) -> Seq<SharedPostProcessingConfig<S>> {
    configs.map_values(
        |c: PostProcessingConfig<S>|
            SharedPostProcessingConfig {
                steps: c.steps,
                trigger_every_n_images: c.trigger_every_n_images,
            },
    )
}

/// The configurations that the post-processing server gets for those of a client.
pub fn shared_configs<S>(configs: Vec<PostProcessingConfig<S>>) -> (shared: Vec<
    SharedPostProcessingConfig<S>,
>)
    ensures
        shared@ == shared_of(configs@),
{
    let ghost all = configs@;
    let mut shared: Vec<SharedPostProcessingConfig<S>> = Vec::new();
    for config in it: configs
        invariant
            it.seq() == all,
            shared@ == shared_of(all.take(it.index())),
    {
        let ghost i = it.index();
        shared.push(SharedPostProcessingConfig::from(config));
        assert(shared@ =~= shared_of(all.take(i + 1)));
    }
    assert(all.take(all.len() as int) =~= all);
    shared
}

/// The lower-case equivalent of a text, by the rules of Unicode.
pub uninterp spec fn unicode_lowercase(text: Seq<char>) -> Seq<char>;

/// Every character is an ASCII character.
pub open spec fn all_ascii(text: Seq<char>) -> bool {
    forall|i: int| 0 <= i < text.len() ==> (#[trigger] text[i] as u32) < 0x80
}

/// An ASCII capital as its small letter, and any other character as it is.
pub open spec fn ascii_lowercase(c: char) -> char {
    if 'A' <= c <= 'Z' {
        (c as u32 + 32) as char
    } else {
        c
    }
}

/// Calls `str::to_lowercase` of std. The contract names the text that it returns, which
/// depends on the given text alone, and claims that of an ASCII text the capitals become
/// small letters and nothing else changes.
#[verifier::external_body]
fn lowercase(text: &str) -> (lower: String)
    ensures
        lower@ == unicode_lowercase(text@),
        all_ascii(text@) ==> lower@ == text@.map_values(|c: char| ascii_lowercase(c)),
{
    text.to_lowercase()
}

/// A lower-case file name with the ending of a JPEG file.
pub open spec fn has_jpeg_ending(lower: Seq<char>) -> bool {
    has_suffix(lower, ".jpg"@) || has_suffix(lower, ".jpeg"@)
}

/// Whether a lower-case file name has the ending of a JPEG file.
pub fn ends_as_jpeg(lower: &str) -> (jpeg: bool)
    ensures
        jpeg == has_jpeg_ending(lower@),
{
    ends_with(lower, ".jpg") || ends_with(lower, ".jpeg")
}

/// A file name of a JPEG file, in whatever case it is written.
pub open spec fn is_jpeg_name(name: Seq<char>) -> bool {
    has_jpeg_ending(unicode_lowercase(name))
}

/// Whether a file name is that of a JPEG file, in whatever case it is written.
pub fn names_jpeg(name: &str) -> (jpeg: bool)
    ensures
        jpeg == is_jpeg_name(name@),
        all_ascii(name@) ==> jpeg == has_jpeg_ending(
            name@.map_values(|c: char| ascii_lowercase(c)),
        ),
{
    let lower = lowercase(name);
    ends_as_jpeg(lower.as_str())
}

/// An image of type JPEG with these data, under a fresh id.
pub open spec fn is_jpeg_image(image: Image, data: Vec<u8>, source: ImageSource) -> bool {
    &&& is_random_uuid(image.id@)
    &&& image.mime_type@ == "image/jpeg"@
    &&& image.source == source
    &&& image.data == data
}

/// An image of type JPEG.
pub fn jpeg_image(data: Vec<u8>, source: ImageSource) -> (image: Image)
    ensures
        is_jpeg_image(image, data, source),
{
    Image::new(data, "image/jpeg".to_string(), source)
}

/// How long the worker waits before it first tries to get a lost link back, in seconds.
pub const FIRST_DELAY_SECS: u64 = 1;

/// How long it waits at the most before it tries again, in seconds.
pub const LONGEST_DELAY_SECS: u64 = 30;

/// What the worker is waiting for.
#[derive(Debug, PartialEq, Eq)]
pub enum PostPhase {
    /// Any news.
    Idle,
    /// The data of a file on the camera.
    Downloading(CameraFilePath),
    /// A link for a new connection to a camera.
    Opening,
    /// The end of a rest, with a lost link.
    Resting { delay_secs: u64 },
    /// The link that was lost, tried for after a rest of so many seconds.
    Reopening { delay_secs: u64 },
    /// Nothing.
    Stopped,
}

/// The post-processing worker, with its connection of type `C` to a camera and its
/// configurations with steps of type `S`.
#[derive(Debug)]
pub struct PostProcessor<C, S> {
    pub config: Vec<SharedPostProcessingConfig<S>>,
    pub connection: Option<C>,
    pub phase: PostPhase,
}

/// What the worker asks for.
#[derive(Debug, PartialEq, Eq)]
pub enum PostRequest<'a> {
    /// Any news.
    Listen,
    /// The data of this file on the camera.
    Download(&'a CameraFilePath),
    /// A link to the server with a new session.
    OpenLink,
    /// A link to the server that resumes the session, if there is one.
    ReopenLink,
    /// A rest of so many seconds.
    Rest(u64),
    /// Nothing more.
    Stop,
}

/// What the worker hears.
#[derive(Debug)]
pub enum PostInput<C, S> {
    /// News: a client has set these configurations.
    Configs(Vec<SharedPostProcessingConfig<S>>),
    /// News: there is nobody left to set configurations.
    ConfigsClosed,
    /// News: something happened at the camera.
    Event(CameraEvent),
    /// News: what happened at the camera cannot be heard any more.
    EventsFailed,
    /// News: there is this connection to a camera.
    Connected(C),
    /// News: connections cannot be heard of for now.
    ConnectionsFailed,
    /// News: the link to the server was lost.
    LinkLost,
    /// The data of the file.
    Downloaded(Result<Vec<u8>, CameraError>),
    /// Whether there is a link now.
    LinkTried(bool),
    /// The rest is over.
    Rested,
}

/// What the worker does at once.
#[derive(Debug, PartialEq, Eq)]
pub enum PostEffect {
    /// Send the worker's `config_message` to the server, if there is a link to it.
    PushConfigs,
    /// Send this file on the camera to the server, beside the worker's own work.
    Upload(CameraFilePath),
    /// Forget the session with the server.
    ForgetSession,
    /// Send this to the clients.
    Reply(MessageToClient),
}

impl<C, S> PostProcessor<C, S> {
    /// A file is only downloaded from a camera that there is, and the rests have their bounds.
    pub open spec fn wf(self) -> bool {
        match self.phase {
            PostPhase::Downloading(_) => self.connection is Some,
            PostPhase::Resting { delay_secs } | PostPhase::Reopening { delay_secs } => {
                FIRST_DELAY_SECS <= delay_secs <= LONGEST_DELAY_SECS
            },
            _ => true,
        }
    }

    /// The worker asked for what this input tells.
    pub open spec fn awaits(self, input: PostInput<C, S>) -> bool {
        match self.phase {
            PostPhase::Idle => !(input is Downloaded) && !(input is LinkTried) && !(
            input is Rested),
            PostPhase::Downloading(_) => input is Downloaded,
            PostPhase::Opening | PostPhase::Reopening { .. } => input is LinkTried,
            PostPhase::Resting { .. } => input is Rested,
            PostPhase::Stopped => false,
        }
    }

    /// The worker in another phase.
    pub open spec fn in_phase(self, phase: PostPhase) -> PostProcessor<C, S> {
        PostProcessor { phase, ..self }
    }

    /// The worker after a new file on the camera: without a connection it is of no use; a
    /// JPEG file is downloaded for the clients, any other is sent to the server.
    pub open spec fn after_new_file(self, path: CameraFilePath) -> (
        PostProcessor<C, S>,
        Seq<PostEffect>,
    ) {
        if self.connection is None {
            (self, Seq::empty())
        } else if is_jpeg_name(path.file@) {
            (self.in_phase(PostPhase::Downloading(path)), Seq::empty())
        } else {
            (self, seq![PostEffect::Upload(path)])
        }
    }

    /// The worker after an attempt to get a lost link back: each rest before the next one is
    /// twice as long as the one before, up to `LONGEST_DELAY_SECS`.
    pub open spec fn after_reopening(self, delay_secs: u64, linked: bool) -> PostProcessor<C, S> {
        if linked {
            self.in_phase(PostPhase::Idle)
        } else {
            self.in_phase(PostPhase::Resting { delay_secs: next_delay(delay_secs) })
        }
    }

    /// The worker after an input, and what it does at once. What it does with downloaded data
    /// is not among that: `shows` says it, because the image has a fresh id.
    pub open spec fn after(self, input: PostInput<C, S>) -> (PostProcessor<C, S>, Seq<PostEffect>) {
        match (self.phase, input) {
            (PostPhase::Idle, PostInput::Configs(config)) => (
                PostProcessor { config, ..self },
                seq![PostEffect::PushConfigs],
            ),
            (PostPhase::Idle, PostInput::ConfigsClosed) => (
                self.in_phase(PostPhase::Stopped),
                Seq::empty(),
            ),
            (PostPhase::Idle, PostInput::Event(CameraEvent::NewFile(path))) => self.after_new_file(
                path,
            ),
            (PostPhase::Idle, PostInput::EventsFailed) => (
                self.in_phase(PostPhase::Stopped),
                Seq::empty(),
            ),
            (PostPhase::Idle, PostInput::Connected(connection)) => (
                PostProcessor {
                    connection: Some(connection),
                    phase: PostPhase::Opening,
                    ..self
                },
                seq![PostEffect::ForgetSession],
            ),
            (PostPhase::Idle, PostInput::LinkLost) => (
                self.in_phase(PostPhase::Resting { delay_secs: FIRST_DELAY_SECS }),
                Seq::empty(),
            ),
            (PostPhase::Downloading(_), PostInput::Downloaded(Err(error))) => (
                self.in_phase(PostPhase::Idle),
                seq![PostEffect::Reply(MessageToClient::CameraError(error))],
            ),
            (PostPhase::Downloading(_), PostInput::Downloaded(Ok(_))) => (
                self.in_phase(PostPhase::Idle),
                Seq::empty(),
            ),
            (PostPhase::Opening, PostInput::LinkTried(_)) => (
                self.in_phase(PostPhase::Idle),
                Seq::empty(),
            ),
            (PostPhase::Resting { delay_secs }, PostInput::Rested) => (
                self.in_phase(PostPhase::Reopening { delay_secs }),
                Seq::empty(),
            ),
            (PostPhase::Reopening { delay_secs }, PostInput::LinkTried(linked)) => (
                self.after_reopening(delay_secs, linked),
                Seq::empty(),
            ),
            _ => (self, Seq::empty()),
        }
    }

    /// The effects of a download that worked: the clients get the image.
    pub open spec fn shows(effects: Seq<PostEffect>, data: Vec<u8>) -> bool {
        &&& effects.len() == 1
        &&& effects[0] matches PostEffect::Reply(MessageToClient::Image(image)) && is_jpeg_image(
            image,
            data,
            ImageSource::Capture,
        )
    }

    /// What the worker asks for in this phase.
    pub open spec fn request_of<'a>(&'a self) -> PostRequest<'a> {
        match &self.phase {
            PostPhase::Idle => PostRequest::Listen,
            PostPhase::Downloading(path) => PostRequest::Download(path),
            PostPhase::Opening => PostRequest::OpenLink,
            PostPhase::Resting { delay_secs } => PostRequest::Rest(*delay_secs),
            PostPhase::Reopening { .. } => PostRequest::ReopenLink,
            PostPhase::Stopped => PostRequest::Stop,
        }
    }

    /// A worker without configurations and without a camera.
    pub fn new() -> (worker: PostProcessor<C, S>)
        ensures
            worker.config@.len() == 0,
            worker.connection is None,
            worker.phase is Idle,
            worker.wf(),
    {
        PostProcessor { config: Vec::new(), connection: None, phase: PostPhase::Idle }
    }

    /// What the worker asks for next.
    pub fn request(&self) -> (request: PostRequest<'_>)
        ensures
            request == self.request_of(),
    {
        match &self.phase {
            PostPhase::Idle => PostRequest::Listen,
            PostPhase::Downloading(path) => PostRequest::Download(path),
            PostPhase::Opening => PostRequest::OpenLink,
            PostPhase::Resting { delay_secs } => PostRequest::Rest(*delay_secs),
            PostPhase::Reopening { .. } => PostRequest::ReopenLink,
            PostPhase::Stopped => PostRequest::Stop,
        }
    }

    /// How the link is to be opened that the worker asks for, with the session that there is:
    /// for a new session where the camera is new, and again where the link was lost.
    pub open spec fn opening_of(self, session: Option<u64>) -> Option<LinkOpening> {
        match self.phase {
            PostPhase::Opening => Some(
                LinkOpening { resume: false, phase: LinkPhase::Reaching },
            ),
            PostPhase::Reopening { .. } => Some(
                LinkOpening { resume: session is Some, phase: LinkPhase::Reaching },
            ),
            _ => None,
        }
    }

    /// How the link is to be opened that the worker asks for, if it asks for one.
    pub fn link_opening(&self, session: Option<u64>) -> (opening: Option<LinkOpening>)
        ensures
            opening == self.opening_of(session),
            opening is Some <==> self.request_of() is OpenLink || self.request_of() is ReopenLink,
    {
        match self.phase {
            PostPhase::Opening => Some(LinkOpening::fresh()),
            PostPhase::Reopening { .. } => Some(LinkOpening::again(session)),
            _ => None,
        }
    }

    /// The message with the worker's configurations.
    pub open spec fn config_message_of<'a>(&'a self) -> MessageToPostProcessor<'a, S> {
        MessageToPostProcessor::SetPostProcessorConfig(&self.config)
    }

    /// The message with the configurations, for when they are to be sent to the server.
    pub fn config_message(&self) -> (message: MessageToPostProcessor<'_, S>)
        ensures
            message == self.config_message_of(),
    {
        config_message(&self.config)
    }

    /// Whether the worker asked for what this input tells.
    pub fn expects(&self, input: &PostInput<C, S>) -> (expected: bool)
        ensures
            expected == self.awaits(*input),
    {
        match (&self.phase, input) {
            (PostPhase::Stopped, _) => false,
            (PostPhase::Downloading(_), PostInput::Downloaded(_)) => true,
            (_, PostInput::Downloaded(_)) => false,
            (PostPhase::Opening, PostInput::LinkTried(_)) => true,
            (PostPhase::Reopening { .. }, PostInput::LinkTried(_)) => true,
            (_, PostInput::LinkTried(_)) => false,
            (PostPhase::Resting { .. }, PostInput::Rested) => true,
            (_, PostInput::Rested) => false,
            (PostPhase::Idle, _) => true,
            _ => false,
        }
    }

    /// Takes a new file on the camera.
    fn take_new_file(self, path: CameraFilePath) -> (next: (PostProcessor<C, S>, Vec<PostEffect>))
        requires
            self.phase is Idle,
        ensures
            next.0 == self.after_new_file(path).0,
            next.1@ == self.after_new_file(path).1,
            next.0.wf(),
    {
        let mut effects: Vec<PostEffect> = Vec::new();
        if self.connection.is_none() {
            (self, effects)
        } else if names_jpeg(path.file.as_str()) {
            (PostProcessor { phase: PostPhase::Downloading(path), ..self }, effects)
        } else {
            effects.push(PostEffect::Upload(path));
            (self, effects)
        }
    }

    /// Takes an input that the worker waited for: the worker after it, and what to do at
    /// once.
    pub fn advance(self, input: PostInput<C, S>) -> (next: (PostProcessor<C, S>, Vec<PostEffect>))
        requires
            self.wf(),
            self.awaits(input),
        ensures
            next.0 == self.after(input).0,
            match input {
                PostInput::Downloaded(Ok(data)) => Self::shows(next.1@, data),
                _ => next.1@ == self.after(input).1,
            },
            next.0.wf(),
    {
        let PostProcessor { config, connection, phase } = self;
        let idle = PostProcessor { config, connection, phase: PostPhase::Idle };
        let mut effects: Vec<PostEffect> = Vec::new();
        match (phase, input) {
            (_, PostInput::Configs(config)) => {
                effects.push(PostEffect::PushConfigs);
                (PostProcessor { config, ..idle }, effects)
            },
            (_, PostInput::Event(CameraEvent::NewFile(path))) => idle.take_new_file(path),
            (_, PostInput::ConfigsClosed) | (_, PostInput::EventsFailed) => (
                PostProcessor { phase: PostPhase::Stopped, ..idle },
                effects,
            ),
            (_, PostInput::Connected(connection)) => {
                effects.push(PostEffect::ForgetSession);
                (
                    PostProcessor {
                        connection: Some(connection),
                        phase: PostPhase::Opening,
                        ..idle
                    },
                    effects,
                )
            },
            (_, PostInput::LinkLost) => (
                PostProcessor {
                    phase: PostPhase::Resting { delay_secs: FIRST_DELAY_SECS },
                    ..idle
                },
                effects,
            ),
            (_, PostInput::Downloaded(Ok(data))) => {
                let image = jpeg_image(data, ImageSource::Capture);
                effects.push(PostEffect::Reply(MessageToClient::Image(image)));
                (idle, effects)
            },
            (_, PostInput::Downloaded(Err(error))) => {
                effects.push(PostEffect::Reply(MessageToClient::CameraError(error)));
                (idle, effects)
            },
            (PostPhase::Resting { delay_secs }, _) => (
                PostProcessor { phase: PostPhase::Reopening { delay_secs }, ..idle },
                effects,
            ),
            (PostPhase::Reopening { delay_secs }, PostInput::LinkTried(false)) => {
                let delay_secs: u64 = longer_delay(delay_secs);
                (PostProcessor { phase: PostPhase::Resting { delay_secs }, ..idle }, effects)
            },
            _ => (idle, effects),
        }
    }
}

/// The rest after one that did not help.
pub open spec fn next_delay(delay_secs: u64) -> u64 {
    if delay_secs * 2 < LONGEST_DELAY_SECS {
        (delay_secs * 2) as u64
    } else {
        LONGEST_DELAY_SECS
    }
}

/// The rest after one that did not help: twice as long, up to `LONGEST_DELAY_SECS`.
fn longer_delay(delay_secs: u64) -> (longer: u64)
    requires
        delay_secs <= u64::MAX / 2,
    ensures
        longer == next_delay(delay_secs),
{
    let double: u64 = delay_secs * 2;
    if double < LONGEST_DELAY_SECS {
        double
    } else {
        LONGEST_DELAY_SECS
    }
}

/// The worker after some inputs.
pub open spec fn after_inputs<C, S>(worker: PostProcessor<C, S>, inputs: Seq<PostInput<C, S>>) -> PostProcessor<
    C,
    S,
>
    decreases inputs.len(),
{
    if inputs.len() == 0 {
        worker
    } else {
        after_inputs(worker, inputs.drop_last()).after(inputs.last()).0
    }
}

/// The worker waited for each of the inputs when it came.
pub open spec fn can_take<C, S>(worker: PostProcessor<C, S>, inputs: Seq<PostInput<C, S>>) -> bool
    decreases inputs.len(),
{
    inputs.len() > 0 ==> {
        &&& can_take(worker, inputs.drop_last())
        &&& after_inputs(worker, inputs.drop_last()).awaits(inputs.last())
    }
}

/// The configurations that were set last among some inputs, or those of before.
pub open spec fn last_configs<C, S>(
    before: Vec<SharedPostProcessingConfig<S>>,
    inputs: Seq<PostInput<C, S>>,
) -> Vec<SharedPostProcessingConfig<S>>
    decreases inputs.len(),
{
    if inputs.len() == 0 {
        before
    } else {
        match inputs.last() {
            PostInput::Configs(config) => config,
            _ => last_configs(before, inputs.drop_last()),
        }
    }
}

/// The connection that was made last among some inputs, or that of before.
pub open spec fn last_connection<C, S>(before: Option<C>, inputs: Seq<PostInput<C, S>>) -> Option<C>
    decreases inputs.len(),
{
    if inputs.len() == 0 {
        before
    } else {
        match inputs.last() {
            PostInput::Connected(connection) => Some(connection),
            _ => last_connection(before, inputs.drop_last()),
        }
    }
}

/// Whatever happens, the worker holds the configurations that were set last and the
/// connection that was made last, and its invariant holds.
pub proof fn law_last_wish_stands<C, S>(worker: PostProcessor<C, S>, inputs: Seq<PostInput<C, S>>)
    requires
        worker.wf(),
        can_take(worker, inputs),
    ensures
        after_inputs(worker, inputs).config == last_configs(worker.config, inputs),
        after_inputs(worker, inputs).connection == last_connection(worker.connection, inputs),
        after_inputs(worker, inputs).wf(),
    decreases inputs.len(),
{
    if inputs.len() > 0 {
        law_last_wish_stands(worker, inputs.drop_last());
    }
}

/// The worker with a lost link, after so many attempts to get it back that failed.
pub open spec fn after_failed_attempts<C, S>(worker: PostProcessor<C, S>, attempts: nat) -> PostProcessor<
    C,
    S,
>
    decreases attempts,
{
    if attempts == 0 {
        worker.after(PostInput::LinkLost).0
    } else {
        after_failed_attempts(worker, (attempts - 1) as nat).after(PostInput::Rested).0.after(
            PostInput::LinkTried(false),
        ).0
    }
}

/// The rests before the attempts to get a lost link back are of 1, 2, 4, 8 and 16 seconds,
/// and then of 30 seconds, and the attempts never end by themselves.
pub proof fn law_rests_double_up_to_a_limit<C, S>(worker: PostProcessor<C, S>, attempts: nat)
    requires
        worker.phase is Idle,
    ensures
        after_failed_attempts(worker, attempts) == worker.in_phase(
            PostPhase::Resting {
                delay_secs: if attempts < 5 {
                    vstd::arithmetic::power2::pow2(attempts) as u64
                } else {
                    30
                },
            },
        ),
    decreases attempts,
{
    vstd::arithmetic::power2::lemma2_to64();
    if attempts > 0 {
        law_rests_double_up_to_a_limit(worker, (attempts - 1) as nat);
    }
}

/// A lost link comes back with the first attempt that works, and the worker goes on as if
/// it had not been lost.
pub proof fn law_link_comes_back<C, S>(worker: PostProcessor<C, S>, attempts: nat)
    requires
        worker.phase is Idle,
    ensures
        after_failed_attempts(worker, attempts).after(PostInput::Rested).0.after(
            PostInput::LinkTried(true),
        ) == (worker, Seq::<PostEffect>::empty()),
{
    law_rests_double_up_to_a_limit(worker, attempts);
}

/// A connection to a camera always starts a new session with the server, and the worker
/// goes on whether or not there is a link then.
pub proof fn law_new_camera_new_session<C, S>(worker: PostProcessor<C, S>, connection: C, linked: bool)
    requires
        worker.phase is Idle,
    ensures
        ({
            let (opening, effects) = worker.after(PostInput::Connected(connection));
            &&& effects == seq![PostEffect::ForgetSession]
            &&& opening.request_of() == PostRequest::OpenLink
            &&& opening.after(PostInput::LinkTried(linked)) == (
                PostProcessor { connection: Some(connection), ..worker },
                Seq::<PostEffect>::empty(),
            )
        }),
{
}

/// Configurations that are set go to the server at once, and they are what the message to
/// it holds.
pub proof fn law_set_configs_go_to_the_server<C, S>(
    worker: PostProcessor<C, S>,
    config: Vec<SharedPostProcessingConfig<S>>,
)
    requires
        worker.phase is Idle,
    ensures
        ({
            let (next, effects) = worker.after(PostInput::Configs(config));
            &&& next == (PostProcessor { config, ..worker })
            &&& effects == seq![PostEffect::PushConfigs]
            &&& next.config_message_of() == MessageToPostProcessor::SetPostProcessorConfig(&config)
        }),
{
}

/// Nothing but a new file makes the worker do something with an event of the camera.
pub proof fn law_only_new_files_matter<C, S>(worker: PostProcessor<C, S>, event: CameraEvent)
    requires
        worker.phase is Idle,
        !(event is NewFile) || worker.connection is None,
    ensures
        worker.after(PostInput::Event(event)) == (worker, Seq::<PostEffect>::empty()),
{
}

/// A file name is that of a JPEG file exactly when it reads, in small letters, as something
/// before `.jpg` or before `.jpeg`.
pub proof fn law_ending_makes_the_jpeg(name: Seq<char>, lower: Seq<char>)
    ensures
        is_jpeg_name(name) == has_jpeg_ending(unicode_lowercase(name)),
        has_jpeg_ending(lower) <==> {
            ||| exists|stem: Seq<char>| lower == #[trigger] (stem + ".jpg"@)
            ||| exists|stem: Seq<char>| lower == #[trigger] (stem + ".jpeg"@)
        },
{
    law_text_at_the_end(lower, ".jpg"@);
    law_text_at_the_end(lower, ".jpeg"@);
}

/// A new JPEG file is shown to the clients: whatever its configurations, an idle worker with
/// a camera does nothing at once, asks for the data of exactly that file, and when they come
/// the clients get them as a captured image of type JPEG. Nothing else happens: no file is
/// sent to the server, and the worker is as it was. Where the data do not come, the clients
/// hear why.
pub proof fn law_new_jpeg_is_shown<C, S>(
    worker: PostProcessor<C, S>,
    path: CameraFilePath,
    data: Vec<u8>,
    error: CameraError,
)
    requires
        worker.phase is Idle,
        worker.connection is Some,
        has_jpeg_ending(unicode_lowercase(path.file@)),
    ensures
        ({
            let (waiting, effects) = worker.after(PostInput::Event(CameraEvent::NewFile(path)));
            &&& effects == Seq::<PostEffect>::empty()
            &&& waiting.request_of() == PostRequest::Download(&path)
            &&& waiting.awaits(PostInput::Downloaded(Ok(data)))
            &&& waiting.after(PostInput::Downloaded(Ok(data))).0 == worker
            &&& waiting.after(PostInput::Downloaded(Err(error))) == (
                worker,
                seq![PostEffect::Reply(MessageToClient::CameraError(error))],
            )
        }),
        forall|shown: Seq<PostEffect>| #[trigger]
            PostProcessor::<C, S>::shows(shown, data) ==> {
                &&& shown.len() == 1
                &&& shown[0] is Reply
                &&& shown[0]->Reply_0 is Image
                &&& shown[0]->Reply_0->Image_0.data == data
                &&& shown[0]->Reply_0->Image_0.source is Capture
                &&& shown[0]->Reply_0->Image_0.mime_type@ == "image/jpeg"@
            },
{
}

/// A new file that is no JPEG file is sent to the server, that file and nothing else, whatever
/// the worker's configurations; the worker is as it was and asks for no data.
pub proof fn law_other_files_go_to_the_server<C, S>(
    worker: PostProcessor<C, S>,
    path: CameraFilePath,
)
    requires
        worker.phase is Idle,
        worker.connection is Some,
        !has_jpeg_ending(unicode_lowercase(path.file@)),
    ensures
        worker.after(PostInput::Event(CameraEvent::NewFile(path))) == (
            worker,
            seq![PostEffect::Upload(path)],
        ),
        worker.request_of() == PostRequest::Listen,
{
}

/// An image of type JPEG has the data and the source that it was made with.
pub proof fn law_image_holds_its_data(image: Image, data: Vec<u8>, source: ImageSource)
    requires
        is_jpeg_image(image, data, source),
    ensures
        image.data == data,
        image.source == source,
        image.mime_type@ == "image/jpeg"@,
        is_random_uuid(image.id@),
{
}

/// The server gets as many configurations as the client set, in the same order, each with its
/// own steps and its own number of images.
pub proof fn law_each_config_is_shared<S>(configs: Seq<PostProcessingConfig<S>>)
    ensures
        shared_of(configs).len() == configs.len(),
        forall|i: int|
            0 <= i < configs.len() ==> {
                &&& (#[trigger] shared_of(configs)[i]).steps == configs[i].steps
                &&& shared_of(configs)[i].trigger_every_n_images
                    == configs[i].trigger_every_n_images
            },
{
}

/// The worker stops, with nothing done and all it holds as it was, when there is nobody left
/// to set configurations and when the camera's events cannot be heard any more. It goes on
/// when connections cannot be heard of for now.
pub proof fn law_worker_stops_with_its_news<C, S>(worker: PostProcessor<C, S>)
    requires
        worker.phase is Idle,
    ensures
        worker.after(PostInput::ConfigsClosed) == (
            PostProcessor {
                config: worker.config,
                connection: worker.connection,
                phase: PostPhase::Stopped,
            },
            Seq::<PostEffect>::empty(),
        ),
        worker.after(PostInput::EventsFailed) == (
            PostProcessor {
                config: worker.config,
                connection: worker.connection,
                phase: PostPhase::Stopped,
            },
            Seq::<PostEffect>::empty(),
        ),
        worker.after(PostInput::ConnectionsFailed) == (worker, Seq::<PostEffect>::empty()),
{
}

/// A lost link is tried for after a rest of a second. A rest leads to an attempt, and an
/// attempt that fails to a rest twice as long, of 30 seconds at the most; one that works ends
/// the trouble. The configurations and the connection stay, and nothing else is done.
pub proof fn law_lost_link_is_tried_for<C, S>(worker: PostProcessor<C, S>, delay_secs: u64)
    requires
        1 <= delay_secs <= 30,
    ensures
        ({
            let idle = PostProcessor { phase: PostPhase::Idle, ..worker };
            let resting = PostProcessor { phase: PostPhase::Resting { delay_secs }, ..worker };
            let trying = PostProcessor { phase: PostPhase::Reopening { delay_secs }, ..worker };
            let nothing = Seq::<PostEffect>::empty();
            &&& idle.after(PostInput::LinkLost) == (
                PostProcessor { phase: PostPhase::Resting { delay_secs: 1 }, ..worker },
                nothing,
            )
            &&& resting.request_of() == PostRequest::Rest(delay_secs)
            &&& resting.after(PostInput::Rested) == (trying, nothing)
            &&& trying.request_of() == PostRequest::ReopenLink
            &&& trying.after(PostInput::LinkTried(true)) == (idle, nothing)
            &&& trying.after(PostInput::LinkTried(false)) == (
                PostProcessor {
                    phase: PostPhase::Resting {
                        delay_secs: if delay_secs >= 15 {
                            30
                        } else {
                            (delay_secs + delay_secs) as u64
                        },
                    },
                    ..worker
                },
                nothing,
            )
        }),
{
}

/// What the worker waits for: any news while it is idle, and otherwise only the answer to what
/// it asked for.
pub proof fn law_worker_waits_for_news_or_its_answer<C, S>(
    worker: PostProcessor<C, S>,
    input: PostInput<C, S>,
)
    ensures
        worker.awaits(input) <==> match input {
            PostInput::Downloaded(_) => worker.phase is Downloading,
            PostInput::LinkTried(_) => worker.phase is Opening || worker.phase is Reopening,
            PostInput::Rested => worker.phase is Resting,
            _ => worker.phase is Idle,
        },
        worker.phase is Idle ==> worker.request_of() == PostRequest::Listen,
        worker.phase is Opening ==> worker.request_of() == PostRequest::OpenLink,
        worker.phase is Stopped ==> worker.request_of() == PostRequest::Stop,
        worker.config_message_of() == MessageToPostProcessor::SetPostProcessorConfig(
            &worker.config,
        ),
{
}

/// When the invariant holds: a file is only downloaded over a connection, and a rest is of 1
/// to 30 seconds.
pub proof fn law_states_of_the_post_processor<C, S>(worker: PostProcessor<C, S>)
    ensures
        worker.phase is Downloading ==> (worker.wf() <==> worker.connection is Some),
        worker.phase matches PostPhase::Resting { delay_secs } ==> (worker.wf() <==> 1
            <= delay_secs <= 30),
        worker.phase matches PostPhase::Reopening { delay_secs } ==> (worker.wf() <==> 1
            <= delay_secs <= 30),
        worker.phase is Idle || worker.phase is Opening || worker.phase is Stopped ==> worker.wf(),
{
}

/// A link for a new camera never resumes a session. One that was lost resumes the session
/// exactly where there is one. Any other time no link is opened.
pub proof fn law_session_is_resumed_after_a_loss<C, S>(
    worker: PostProcessor<C, S>,
    session: Option<u64>,
)
    ensures
        worker.phase is Opening ==> worker.opening_of(session) == Some(
            LinkOpening { resume: false, phase: LinkPhase::Reaching },
        ),
        worker.phase is Reopening ==> worker.opening_of(session) == Some(
            LinkOpening { resume: session is Some, phase: LinkPhase::Reaching },
        ),
        !(worker.phase is Opening) && !(worker.phase is Reopening) ==> worker.opening_of(session)
            is None,
{
}

/// Of the ASCII characters, the capitals become the small letters of the same place in the
/// alphabet, and the others stay.
pub proof fn law_capitals_become_small(c: char, text: Seq<char>)
    ensures
        'A' <= c <= 'Z' ==> ascii_lowercase(c) as u32 == c as u32 + 32,
        !('A' <= c <= 'Z') ==> ascii_lowercase(c) == c,
        all_ascii(text) <==> forall|i: int| 0 <= i < text.len() ==> (#[trigger] text[i] as u32) < 128,
{
}

} // verus!

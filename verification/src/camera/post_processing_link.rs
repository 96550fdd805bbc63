//! The link to the post-processing server: opening it, hearing from the server, and
//! sending files to it.

use vstd::prelude::*;

use crate::camera::events::{CameraEvent, CameraFilePath};
use crate::camera::post_processing::{
    is_jpeg_image, is_jpeg_name, jpeg_image, PostEffect, PostInput, PostProcessor,
};
use crate::camera::worker::CameraError;
use crate::websocket::scheme::{ImageSource, MessageToClient, SharedPostProcessingConfig};

verus! {

/// A message to the post-processing server.
#[derive(Debug, PartialEq, Eq)]
pub enum MessageToPostProcessor<'a, S> {
    StartSession,
    ResumeSession(u64),
    SetPostProcessorConfig(&'a Vec<SharedPostProcessingConfig<S>>),
    RawImage(&'a Vec<u8>),
}

/// The message that brings the data of a file to the server.
pub fn raw_image_message<'a, S>(data: &'a Vec<u8>) -> (message: MessageToPostProcessor<'a, S>)
    ensures
        message == MessageToPostProcessor::<S>::RawImage(data),
{
    MessageToPostProcessor::RawImage(data)
}

/// The message that brings configurations to the server.
pub fn config_message<'a, S>(config: &'a Vec<SharedPostProcessingConfig<S>>) -> (message:
    MessageToPostProcessor<'a, S>)
    ensures
        message == MessageToPostProcessor::<S>::SetPostProcessorConfig(config),
{
    MessageToPostProcessor::SetPostProcessorConfig(config)
}

/// A message of the post-processing server.
#[derive(Debug, PartialEq, Eq)]
pub enum MessageToCameraServer {
    SessionId(u64),
    ReturnedImage(Vec<u8>),
    SaveToSystemStorage { filename: String, data: Vec<u8> },
}

/// Where the opening of a link stands.
#[derive(Debug, Clone, Copy, PartialEq, Eq)]
pub enum LinkPhase {
    /// The server is to be reached.
    Reaching,
    /// The session is to be started or resumed.
    Opening,
    /// The configurations are to be sent.
    Configuring,
    /// There is nothing left to do, and the link is open or is not.
    Finished(bool),
}

/// The opening of a link, for a new session or to resume the one that there is.
#[derive(Debug, Clone, Copy, PartialEq, Eq)]
pub struct LinkOpening {
    pub resume: bool,
    pub phase: LinkPhase,
}

/// What the opening of a link asks for.
#[derive(Debug, PartialEq, Eq)]
pub enum LinkRequest<'a, S> {
    /// Reach the server, and keep what can be written to.
    Reach,
    /// Send this, if there is still something to write to.
    Send(MessageToPostProcessor<'a, S>),
    /// Stop: the link is open, or is not.
    Finish(bool),
}

/// What comes of it.
#[derive(Debug, Clone, Copy, PartialEq, Eq)]
pub enum LinkEvent {
    /// The server was reached, or was not.
    Reached(bool),
    /// The message was sent, or could not be.
    Sent(bool),
    /// There was nothing to write to any more.
    Gone,
}

impl LinkOpening {
    /// The opening asked for what this event tells. What can be written to is only looked
    /// for before the first message.
    pub open spec fn awaits(self, event: LinkEvent) -> bool {
        match self.phase {
            LinkPhase::Reaching => event is Reached,
            LinkPhase::Opening => event is Sent || event is Gone,
            LinkPhase::Configuring => event is Sent,
            LinkPhase::Finished(_) => false,
        }
    }

    /// The opening after an event, and whether the server is to be listened to from now on.
    /// Configurations that cannot be sent do no harm.
    pub open spec fn after(self, event: LinkEvent) -> (LinkOpening, bool) {
        match (self.phase, event) {
            (LinkPhase::Reaching, LinkEvent::Reached(true)) => (
                LinkOpening { phase: LinkPhase::Opening, ..self },
                false,
            ),
            (LinkPhase::Opening, LinkEvent::Sent(true)) => (
                LinkOpening { phase: LinkPhase::Configuring, ..self },
                false,
            ),
            (LinkPhase::Opening, LinkEvent::Gone) | (LinkPhase::Configuring, _) => (
                LinkOpening { phase: LinkPhase::Finished(true), ..self },
                true,
            ),
            _ => (LinkOpening { phase: LinkPhase::Finished(false), ..self }, false),
        }
    }

    /// What the opening asks for, with the session that there is by now and these
    /// configurations.
    pub open spec fn request_of<'a, S>(
        self,
        session: Option<u64>,
        config: &'a Vec<SharedPostProcessingConfig<S>>,
    ) -> LinkRequest<'a, S> {
        match self.phase {
            LinkPhase::Reaching => LinkRequest::Reach,
            LinkPhase::Opening => LinkRequest::Send(
                if self.resume {
                    MessageToPostProcessor::ResumeSession(session->0)
                } else {
                    MessageToPostProcessor::StartSession
                },
            ),
            LinkPhase::Configuring => LinkRequest::Send(
                MessageToPostProcessor::SetPostProcessorConfig(config),
            ),
            LinkPhase::Finished(linked) => LinkRequest::Finish(linked),
        }
    }

    /// Opens a link for a new session.
    pub fn fresh() -> (opening: LinkOpening)
        ensures
            opening == (LinkOpening { resume: false, phase: LinkPhase::Reaching }),
    {
        LinkOpening { resume: false, phase: LinkPhase::Reaching }
    }

    /// Opens a link again: it resumes the session, or starts one where there is none.
    pub fn again(session: Option<u64>) -> (opening: LinkOpening)
        ensures
            opening == (LinkOpening { resume: session is Some, phase: LinkPhase::Reaching }),
    {
        LinkOpening { resume: session.is_some(), phase: LinkPhase::Reaching }
    }

    /// What to do next, with these configurations and the session that there is by now. A
    /// session that is to be resumed must not be gone.
    pub fn request<'a, S>(
        &self,
        session: Option<u64>,
        config: &'a Vec<SharedPostProcessingConfig<S>>,
    ) -> (request: LinkRequest<'a, S>)
        requires
            self.phase is Opening && self.resume ==> session is Some,
        ensures
            request == self.request_of(session, config),
    {
        match self.phase {
            LinkPhase::Reaching => LinkRequest::Reach,
            LinkPhase::Opening => {
                match session {
                    Some(id) if self.resume => LinkRequest::Send(
                        MessageToPostProcessor::ResumeSession(id),
                    ),
                    _ => LinkRequest::Send(MessageToPostProcessor::StartSession),
                }
            },
            LinkPhase::Configuring => LinkRequest::Send(config_message(config)),
            LinkPhase::Finished(linked) => LinkRequest::Finish(linked),
        }
    }

    /// Whether the opening asked for what this event tells.
    pub fn expects(&self, event: LinkEvent) -> (expected: bool)
        ensures
            expected == self.awaits(event),
    {
        match (self.phase, event) {
            (LinkPhase::Reaching, LinkEvent::Reached(_)) => true,
            (LinkPhase::Opening, LinkEvent::Sent(_)) => true,
            (LinkPhase::Opening, LinkEvent::Gone) => true,
            (LinkPhase::Configuring, LinkEvent::Sent(_)) => true,
            _ => false,
        }
    }

    /// Takes an event, and says whether the server is to be listened to from now on.
    pub fn advance(&mut self, event: LinkEvent) -> (listen: bool)
        requires
            old(self).awaits(event),
        ensures
            *final(self) == old(self).after(event).0,
            listen == old(self).after(event).1,
    {
        match (self.phase, event) {
            (LinkPhase::Reaching, LinkEvent::Reached(true)) => {
                self.phase = LinkPhase::Opening;
                false
            },
            (LinkPhase::Opening, LinkEvent::Sent(true)) => {
                self.phase = LinkPhase::Configuring;
                false
            },
            (LinkPhase::Opening, LinkEvent::Gone) | (LinkPhase::Configuring, _) => {
                self.phase = LinkPhase::Finished(true);
                true
            },
            _ => {
                self.phase = LinkPhase::Finished(false);
                false
            },
        }
    }
}

/// A server that is reached hears first of the session and then of the configurations: the
/// session is resumed if the link is opened for that, and a new one is started otherwise.
pub proof fn law_server_hears_of_the_session_first<S>(
    resume: bool,
    session: Option<u64>,
    config: &Vec<SharedPostProcessingConfig<S>>,
)
    requires
        resume ==> session is Some,
    ensures
        ({
            let opening = LinkOpening { resume, phase: LinkPhase::Reaching };
            let reached = opening.after(LinkEvent::Reached(true)).0;
            let opened = reached.after(LinkEvent::Sent(true)).0;
            &&& opening.request_of(session, config) == LinkRequest::<S>::Reach
            &&& reached.request_of(session, config) == LinkRequest::<S>::Send(
                if resume {
                    MessageToPostProcessor::<S>::ResumeSession(session->0)
                } else {
                    MessageToPostProcessor::<S>::StartSession
                },
            )
            &&& opened.request_of(session, config) == LinkRequest::<S>::Send(
                MessageToPostProcessor::<S>::SetPostProcessorConfig(config),
            )
        }),
{
}

/// A server that is reached and takes the message for the session gives an open link,
/// whether or not it takes the configurations, and is listened to exactly then.
pub proof fn law_link_opens(resume: bool, configured: bool)
    ensures
        ({
            let opening = LinkOpening { resume, phase: LinkPhase::Reaching };
            let (reached, listen_early) = opening.after(LinkEvent::Reached(true));
            let (opened, listen_still) = reached.after(LinkEvent::Sent(true));
            &&& !listen_early && !listen_still
            &&& opened.after(LinkEvent::Sent(configured)) == (
                LinkOpening { resume, phase: LinkPhase::Finished(true) },
                true,
            )
        }),
{
}

/// A server that is not reached, or does not take the message for the session, gives no link,
/// and is not listened to.
pub proof fn law_link_fails(resume: bool)
    ensures
        ({
            let opening = LinkOpening { resume, phase: LinkPhase::Reaching };
            let closed = LinkOpening { resume, phase: LinkPhase::Finished(false) };
            &&& opening.after(LinkEvent::Reached(false)) == (closed, false)
            &&& opening.after(LinkEvent::Reached(true)).0.after(LinkEvent::Sent(false)) == (
                closed,
                false,
            )
        }),
{
}

/// What is heard on a link.
#[derive(Debug, PartialEq, Eq)]
pub enum ReaderInput {
    /// A message of the server.
    Message(MessageToCameraServer),
    /// Something that is no message.
    Unreadable,
    /// The end of the link.
    ReadFailed,
}

/// What is done with it.
#[derive(Debug, PartialEq, Eq)]
pub enum ReaderAction {
    /// Nothing.
    Ignore,
    /// Keep this as the session with the server.
    KeepSession(u64),
    /// Send this to the clients.
    Reply(MessageToClient),
    /// Store these data under this name.
    Save { filename: String, data: Vec<u8> },
    /// Write to the link no more, say that it is lost, and stop.
    CloseLink,
}

/// This is what is done with something that was heard on a link. An image that comes back from
/// post-processing goes to the clients.
pub open spec fn is_answer(input: ReaderInput, action: ReaderAction) -> bool {
    match input {
        ReaderInput::Message(MessageToCameraServer::SessionId(id)) => action
            == ReaderAction::KeepSession(id),
        ReaderInput::Message(MessageToCameraServer::ReturnedImage(data)) => {
            action matches ReaderAction::Reply(MessageToClient::Image(image)) && is_jpeg_image(
                image,
                data,
                ImageSource::PostProcessing,
            )
        },
        ReaderInput::Message(MessageToCameraServer::SaveToSystemStorage { filename, data }) =>
            action == (ReaderAction::Save { filename, data }),
        ReaderInput::Unreadable => action == ReaderAction::Ignore,
        ReaderInput::ReadFailed => action == ReaderAction::CloseLink,
    }
}

/// What is done with something that was heard on a link. An image that comes back from
/// post-processing goes to the clients.
pub fn response_reader(input: ReaderInput) -> (action: ReaderAction)
    ensures
        is_answer(input, action),
{
    match input {
        ReaderInput::Message(MessageToCameraServer::SessionId(id)) => ReaderAction::KeepSession(id),
        ReaderInput::Message(MessageToCameraServer::ReturnedImage(data)) => {
            let image = jpeg_image(data, ImageSource::PostProcessing);
            ReaderAction::Reply(MessageToClient::Image(image))
        },
        ReaderInput::Message(MessageToCameraServer::SaveToSystemStorage { filename, data }) =>
            ReaderAction::Save { filename, data },
        ReaderInput::Unreadable => ReaderAction::Ignore,
        ReaderInput::ReadFailed => ReaderAction::CloseLink,
    }
}

/// The session with the server after something that was heard on a link was dealt with.
pub open spec fn session_heard(session: Option<u64>, action: ReaderAction) -> Option<u64> {
    match action {
        ReaderAction::KeepSession(id) => Some(id),
        _ => session,
    }
}

/// The session with the server after something that was heard on a link was dealt with.
pub fn session_after_action(session: Option<u64>, action: &ReaderAction) -> (after: Option<u64>)
    ensures
        after == session_heard(session, *action),
{
    match action {
        ReaderAction::KeepSession(id) => Some(*id),
        _ => session,
    }
}

/// The session with the server after something that the worker did.
pub open spec fn session_done(session: Option<u64>, effect: PostEffect) -> Option<u64> {
    match effect {
        PostEffect::ForgetSession => None,
        _ => session,
    }
}

/// The session with the server after something that the worker did.
pub fn session_after_effect(session: Option<u64>, effect: &PostEffect) -> (after: Option<u64>)
    ensures
        after == session_done(session, *effect),
{
    match effect {
        PostEffect::ForgetSession => None,
        _ => session,
    }
}

/// Something that may change the session.
pub enum SessionStep {
    /// Something was heard on a link and dealt with like this.
    Heard(ReaderAction),
    /// The worker did this.
    Done(PostEffect),
}

impl SessionStep {
    /// A session is kept.
    pub open spec fn keeps(self) -> bool {
        self matches SessionStep::Heard(ReaderAction::KeepSession(_))
    }

    /// The session is forgotten.
    pub open spec fn forgets(self) -> bool {
        self matches SessionStep::Done(PostEffect::ForgetSession)
    }
}

/// The session after some steps, where there was none before.
pub open spec fn session_over(steps: Seq<SessionStep>) -> Option<u64>
    decreases steps.len(),
{
    if steps.len() == 0 {
        None
    } else {
        let before = session_over(steps.drop_last());
        match steps.last() {
            SessionStep::Heard(action) => session_heard(before, action),
            SessionStep::Done(effect) => session_done(before, effect),
        }
    }
}

/// The last step that keeps a session is this one, and no later one forgets it.
pub open spec fn kept_last_at(steps: Seq<SessionStep>, at: int) -> bool {
    &&& 0 <= at < steps.len()
    &&& steps[at].keeps()
    &&& forall|i: int|
        at < i < steps.len() ==> !(#[trigger] steps[i]).keeps() && !steps[i].forgets()
}

/// The session is the one that was kept last since the session was last forgotten, and there
/// is none where none was kept since.
pub proof fn law_session_is_the_one_kept_last(steps: Seq<SessionStep>, at: int)
    ensures
        kept_last_at(steps, at) ==> session_over(steps) == Some(
            steps[at]->Heard_0->KeepSession_0,
        ),
        (forall|i: int| !kept_last_at(steps, i)) ==> session_over(steps) is None,
    decreases steps.len(),
{
    if steps.len() > 0 {
        let earlier = steps.drop_last();
        let last = steps.len() - 1;
        law_session_is_the_one_kept_last(earlier, at);
        if steps.last().keeps() {
            assert(kept_last_at(steps, last));
        } else if !steps.last().forgets() {
            assert forall|i: int| kept_last_at(earlier, i) == kept_last_at(steps, i) by {
                if kept_last_at(earlier, i) {
                    assert forall|j: int| i < j < steps.len() implies !(
                    #[trigger] steps[j]).keeps() && !steps[j].forgets() by {
                        if j < last {
                            assert(steps[j] == earlier[j]);
                        }
                    }
                }
                if kept_last_at(steps, i) {
                    assert forall|j: int| i < j < earlier.len() implies !(
                    #[trigger] earlier[j]).keeps() && !earlier[j].forgets() by {
                        assert(earlier[j] == steps[j]);
                    }
                }
            }
        }
    }
}

/// A link that is opened again sends `ResumeSession` with the session that was kept last since
/// it was last forgotten, and `StartSession` where there is none. A session that is kept while
/// the server is being reached takes the place of the one before.
pub proof fn law_kept_session_is_resumed<S>(
    steps: Seq<SessionStep>,
    meanwhile: Seq<SessionStep>,
    at: int,
    config: &Vec<SharedPostProcessingConfig<S>>,
)
    requires
        forall|i: int| 0 <= i < meanwhile.len() ==> !(#[trigger] meanwhile[i]).forgets(),
    ensures
        ({
            let opening = LinkOpening {
                resume: session_over(steps) is Some,
                phase: LinkPhase::Reaching,
            };
            let request = opening.after(LinkEvent::Reached(true)).0.request_of(
                session_over(steps + meanwhile),
                config,
            );
            &&& session_over(steps) is Some && kept_last_at(steps + meanwhile, at) ==> request
                == LinkRequest::<S>::Send(
                MessageToPostProcessor::<S>::ResumeSession(
                    (steps + meanwhile)[at]->Heard_0->KeepSession_0,
                ),
            )
            &&& session_over(steps) is Some ==> session_over(steps + meanwhile) is Some
            &&& (forall|i: int| !kept_last_at(steps, i)) ==> request == LinkRequest::<S>::Send(
                MessageToPostProcessor::<S>::StartSession,
            )
        }),
{
    law_session_is_the_one_kept_last(steps, at);
    law_session_is_the_one_kept_last(steps + meanwhile, at);
    lemma_session_stays(steps, meanwhile);
}

/// A session does not go while it is not forgotten.
proof fn lemma_session_stays(steps: Seq<SessionStep>, meanwhile: Seq<SessionStep>)
    requires
        forall|i: int| 0 <= i < meanwhile.len() ==> !(#[trigger] meanwhile[i]).forgets(),
    ensures
        session_over(steps) is Some ==> session_over(steps + meanwhile) is Some,
    decreases meanwhile.len(),
{
    if meanwhile.len() == 0 {
        assert(steps + meanwhile =~= steps);
    } else {
        let earlier = meanwhile.drop_last();
        assert forall|i: int| 0 <= i < earlier.len() implies !(#[trigger] earlier[i]).forgets() by {
            assert(earlier[i] == meanwhile[i]);
        }
        lemma_session_stays(steps, earlier);
        assert((steps + meanwhile).drop_last() =~= steps + earlier);
        assert(!meanwhile[meanwhile.len() - 1].forgets());
    }
}

/// This is the error of a file that could not be sent to the server, for this reason.
pub open spec fn is_send_failure(error: CameraError, reason: Seq<char>) -> bool {
    error matches CameraError::RsRawUtilError(text) && text@ == "Send failed: "@ + reason
}

/// The error of a file that could not be sent to the server, for this reason.
pub fn send_failed(reason: &str) -> (error: CameraError)
    ensures
        is_send_failure(error, reason@),
{
    let mut text = "Send failed: ".to_string();
    text.append(reason);
    CameraError::RsRawUtilError(text)
}

/// How often a file is sent before it is given up.
pub const UPLOAD_ATTEMPTS: u64 = 3;

/// How long an upload rests before it tries to get the link back, in milliseconds.
pub const UPLOAD_RETRY_MS: u64 = 500;

/// Where an upload stands.
#[derive(Debug, PartialEq, Eq)]
pub enum UploadPhase {
    /// The data of the file are to be read from the camera.
    Fetching,
    /// These data are to be sent.
    Sending(Vec<u8>),
    /// The upload rests.
    Resting,
    /// The link is to be opened again.
    Relinking,
    /// There is nothing left to do.
    Finished,
}

/// The upload of a file on the camera: how often that failed, and what went wrong last.
#[derive(Debug, PartialEq, Eq)]
pub struct Upload<S> {
    pub path: CameraFilePath,
    pub config: Vec<SharedPostProcessingConfig<S>>,
    pub failures: u64,
    pub last_error: Option<CameraError>,
    pub phase: UploadPhase,
}

/// What an upload asks for.
#[derive(Debug, PartialEq, Eq)]
pub enum UploadRequest<'a, S> {
    /// If there is a link, keep it for this upload, and read the data of this file.
    Fetch(&'a CameraFilePath),
    /// Send this on the link.
    Send(MessageToPostProcessor<'a, S>),
    /// Rest for so many milliseconds.
    Rest(u64),
    /// Open the link again, and resume the session if there is one.
    ReopenLink,
    /// Stop.
    Stop,
}

/// What comes of it.
#[derive(Debug, PartialEq, Eq)]
pub enum UploadEvent {
    /// There was no link.
    NoLink,
    /// The data of the file, if they could be read.
    Fetched(Result<Vec<u8>, CameraError>),
    /// The message was sent, or could not be.
    Sent(Result<(), CameraError>),
    /// The rest is over.
    Rested,
    /// The link was opened again, or could not be.
    Relinked,
}

/// What an upload does at once.
#[derive(Debug, PartialEq, Eq)]
pub enum UploadEffect {
    /// Write to the link no more.
    CloseLink,
    /// Send this to the clients.
    Reply(MessageToClient),
    /// Say that the link is lost.
    SignalLinkLost,
}

/// What goes with giving up a file.
pub open spec fn give_up_effects(last_error: Option<CameraError>) -> Seq<UploadEffect> {
    match last_error {
        Some(error) => seq![
            UploadEffect::Reply(MessageToClient::CameraError(error)),
            UploadEffect::SignalLinkLost,
        ],
        None => Seq::empty(),
    }
}

impl<S> Upload<S> {
    /// There is always an attempt left while the upload is not finished, and an error since
    /// the first failure.
    pub open spec fn wf(self) -> bool {
        &&& !(self.phase is Finished) ==> self.failures < UPLOAD_ATTEMPTS
        &&& self.failures > 0 && !(self.phase is Finished) ==> self.last_error is Some
    }

    /// The upload of a file that was not tried yet.
    pub open spec fn fresh(path: CameraFilePath, config: Vec<SharedPostProcessingConfig<S>>) -> Upload<S> {
        Upload { path, config, failures: 0, last_error: None, phase: UploadPhase::Fetching }
    }

    /// The upload asked for what this event tells. The link is only looked for before the
    /// data are read.
    pub open spec fn awaits(self, event: UploadEvent) -> bool {
        match self.phase {
            UploadPhase::Fetching => event is Fetched || event is NoLink,
            UploadPhase::Sending(_) => event is Sent,
            UploadPhase::Resting => event is Rested,
            UploadPhase::Relinking => event is Relinked,
            UploadPhase::Finished => false,
        }
    }

    /// What the upload asks for: the data of the file go out as a raw image.
    pub open spec fn request_of<'a>(&'a self) -> UploadRequest<'a, S> {
        match &self.phase {
            UploadPhase::Fetching => UploadRequest::Fetch(&self.path),
            UploadPhase::Sending(data) => UploadRequest::Send(
                MessageToPostProcessor::RawImage(data),
            ),
            UploadPhase::Resting => UploadRequest::Rest(UPLOAD_RETRY_MS),
            UploadPhase::Relinking => UploadRequest::ReopenLink,
            UploadPhase::Finished => UploadRequest::Stop,
        }
    }

    /// The upload after a failure, which closes the link. Unless it was the last one the link
    /// is opened again for another attempt.
    pub open spec fn after_failure(self, error: CameraError) -> (Upload<S>, Seq<UploadEffect>) {
        if self.failures + 1 < UPLOAD_ATTEMPTS {
            (
                Upload {
                    failures: (self.failures + 1) as u64,
                    last_error: Some(error),
                    phase: UploadPhase::Resting,
                    ..self
                },
                seq![UploadEffect::CloseLink],
            )
        } else {
            (
                Upload {
                    failures: (self.failures + 1) as u64,
                    last_error: None,
                    phase: UploadPhase::Finished,
                    ..self
                },
                seq![UploadEffect::CloseLink] + give_up_effects(Some(error)),
            )
        }
    }

    /// The upload after an event, and what it does at once. Data that cannot be read count as
    /// a failure like a message that cannot be sent. Without a link the file is given up, and
    /// only a file that had been tried before is reported.
    pub open spec fn after(self, event: UploadEvent) -> (Upload<S>, Seq<UploadEffect>) {
        match event {
            UploadEvent::NoLink => (
                Upload { last_error: None, phase: UploadPhase::Finished, ..self },
                give_up_effects(self.last_error),
            ),
            UploadEvent::Fetched(Ok(data)) => (
                Upload { phase: UploadPhase::Sending(data), ..self },
                Seq::empty(),
            ),
            UploadEvent::Fetched(Err(error)) => self.after_failure(error),
            UploadEvent::Sent(Ok(())) => (
                Upload { last_error: None, phase: UploadPhase::Finished, ..self },
                Seq::empty(),
            ),
            UploadEvent::Sent(Err(error)) => self.after_failure(error),
            UploadEvent::Rested => (
                Upload { phase: UploadPhase::Relinking, ..self },
                Seq::empty(),
            ),
            UploadEvent::Relinked => (Upload { phase: UploadPhase::Fetching, ..self }, Seq::empty()),
        }
    }

    /// How the link is to be opened again that the upload asks for, with the session that
    /// there is.
    pub open spec fn opening_of(self, session: Option<u64>) -> Option<LinkOpening> {
        if self.phase is Relinking {
            Some(LinkOpening { resume: session is Some, phase: LinkPhase::Reaching })
        } else {
            None
        }
    }

    /// How the link is to be opened again that the upload asks for, if it asks for that.
    pub fn link_opening(&self, session: Option<u64>) -> (opening: Option<LinkOpening>)
        ensures
            opening == self.opening_of(session),
            opening is Some <==> self.request_of() is ReopenLink,
    {
        match self.phase {
            UploadPhase::Relinking => Some(LinkOpening::again(session)),
            _ => None,
        }
    }

    /// The upload of a file that was not tried yet.
    pub fn new(path: CameraFilePath, config: Vec<SharedPostProcessingConfig<S>>) -> (upload: Upload<S>)
        ensures
            upload == Upload::fresh(path, config),
            upload.wf(),
    {
        Upload { path, config, failures: 0, last_error: None, phase: UploadPhase::Fetching }
    }

    /// What to do next.
    pub fn request(&self) -> (request: UploadRequest<'_, S>)
        ensures
            request == self.request_of(),
    {
        match &self.phase {
            UploadPhase::Fetching => UploadRequest::Fetch(&self.path),
            UploadPhase::Sending(data) => UploadRequest::Send(raw_image_message(data)),
            UploadPhase::Resting => UploadRequest::Rest(UPLOAD_RETRY_MS),
            UploadPhase::Relinking => UploadRequest::ReopenLink,
            UploadPhase::Finished => UploadRequest::Stop,
        }
    }

    /// Whether the upload asked for what this event tells.
    pub fn expects(&self, event: &UploadEvent) -> (expected: bool)
        ensures
            expected == self.awaits(*event),
    {
        match (&self.phase, event) {
            (UploadPhase::Fetching, UploadEvent::NoLink) => true,
            (UploadPhase::Fetching, UploadEvent::Fetched(_)) => true,
            (UploadPhase::Sending(_), UploadEvent::Sent(_)) => true,
            (UploadPhase::Resting, UploadEvent::Rested) => true,
            (UploadPhase::Relinking, UploadEvent::Relinked) => true,
            _ => false,
        }
    }

    /// Reports what went wrong last, and that the link is lost.
    fn give_up(last_error: Option<CameraError>, effects: &mut Vec<UploadEffect>)
        ensures
            final(effects)@ == old(effects)@ + give_up_effects(last_error),
    {
        if let Some(error) = last_error {
            effects.push(UploadEffect::Reply(MessageToClient::CameraError(error)));
            effects.push(UploadEffect::SignalLinkLost);
        }
        assert(effects@ =~= old(effects)@ + give_up_effects(last_error));
    }

    /// Takes a failure.
    fn take_failure(self, error: CameraError) -> (next: (Upload<S>, Vec<UploadEffect>))
        requires
            self.failures < UPLOAD_ATTEMPTS,
        ensures
            next.0 == self.after_failure(error).0,
            next.1@ == self.after_failure(error).1,
            next.0.wf(),
    {
        let mut effects: Vec<UploadEffect> = Vec::new();
        effects.push(UploadEffect::CloseLink);
        let failures: u64 = self.failures + 1;
        if failures < UPLOAD_ATTEMPTS {
            let last_error = Some(error);
            (Upload { failures, last_error, phase: UploadPhase::Resting, ..self }, effects)
        } else {
            Upload::<S>::give_up(Some(error), &mut effects);
            (Upload { failures, last_error: None, phase: UploadPhase::Finished, ..self }, effects)
        }
    }

    /// Takes an event: the upload after it, and what to do at once, in this order.
    pub fn advance(self, event: UploadEvent) -> (next: (Upload<S>, Vec<UploadEffect>))
        requires
            self.wf(),
            self.awaits(event),
        ensures
            next.0 == self.after(event).0,
            next.1@ == self.after(event).1,
            next.0.wf(),
    {
        let mut effects: Vec<UploadEffect> = Vec::new();
        match event {
            UploadEvent::NoLink => {
                let Upload { path, config, failures, last_error, .. } = self;
                Upload::<S>::give_up(last_error, &mut effects);
                assert(effects@ =~= give_up_effects(last_error));
                (
                    Upload {
                        path,
                        config,
                        failures,
                        last_error: None,
                        phase: UploadPhase::Finished,
                    },
                    effects,
                )
            },
            UploadEvent::Fetched(Ok(data)) => (
                Upload { phase: UploadPhase::Sending(data), ..self },
                effects,
            ),
            UploadEvent::Fetched(Err(error)) => self.take_failure(error),
            UploadEvent::Sent(Ok(())) => (
                Upload { last_error: None, phase: UploadPhase::Finished, ..self },
                effects,
            ),
            UploadEvent::Sent(Err(error)) => self.take_failure(error),
            UploadEvent::Rested => (Upload { phase: UploadPhase::Relinking, ..self }, effects),
            UploadEvent::Relinked => (Upload { phase: UploadPhase::Fetching, ..self }, effects),
        }
    }
}

/// An attempt at an upload that failed with this error: the data could not be read from the
/// camera, or these data could not be sent.
pub struct FailedTry {
    pub data: Option<Vec<u8>>,
    pub error: CameraError,
}

/// An upload after an attempt that failed, and what it did at once.
pub open spec fn after_try<S>(upload: Upload<S>, failed: FailedTry) -> (Upload<S>, Seq<UploadEffect>) {
    match failed.data {
        None => upload.after(UploadEvent::Fetched(Err(failed.error))),
        Some(data) => upload.after(UploadEvent::Fetched(Ok(data))).0.after(
            UploadEvent::Sent(Err(failed.error)),
        ),
    }
}

/// The upload of a file after attempts that failed, each one followed by an attempt to open
/// the link again if the upload was not finished, and all that it did on the way.
pub open spec fn after_failed_tries<S>(
    path: CameraFilePath,
    config: Vec<SharedPostProcessingConfig<S>>,
    tries: Seq<FailedTry>,
) -> (
    Upload<S>,
    Seq<UploadEffect>,
)
    decreases tries.len(),
{
    if tries.len() == 0 {
        (Upload::fresh(path, config), Seq::empty())
    } else {
        let (before, done) = after_failed_tries(path, config, tries.drop_last());
        let (failed, effects) = after_try(before, tries.last());
        if failed.phase is Finished {
            (failed, done + effects)
        } else {
            (failed.after(UploadEvent::Rested).0.after(UploadEvent::Relinked).0, done + effects)
        }
    }
}

/// So many closings of the link.
pub open spec fn closings(count: nat) -> Seq<UploadEffect> {
    Seq::new(count, |i: int| UploadEffect::CloseLink)
}

/// A file is tried `UPLOAD_ATTEMPTS` times at the most. Each failure closes the link; with the
/// last one, and not before, the clients hear of its error, and the link is said to be
/// lost.
pub proof fn law_upload_is_given_up<S>(
    path: CameraFilePath,
    config: Vec<SharedPostProcessingConfig<S>>,
    tries: Seq<FailedTry>,
)
    requires
        tries.len() <= UPLOAD_ATTEMPTS,
    ensures
        tries.len() < UPLOAD_ATTEMPTS ==> after_failed_tries(path, config, tries) == (
            Upload {
                path,
                config,
                failures: tries.len() as u64,
                last_error: if tries.len() == 0 {
                    None
                } else {
                    Some(tries.last().error)
                },
                phase: UploadPhase::Fetching,
            },
            closings(tries.len()),
        ),
        tries.len() == UPLOAD_ATTEMPTS ==> after_failed_tries(path, config, tries).0.phase is Finished
            && after_failed_tries(path, config, tries).1 == closings(tries.len()) + give_up_effects(
            Some(tries.last().error),
        ),
    decreases tries.len(),
{
    if tries.len() == 0 {
        assert(closings(0) =~= Seq::empty());
    } else {
        law_upload_is_given_up(path, config, tries.drop_last());
        assert(after_failed_tries(path, config, tries).1 =~= if tries.len() < UPLOAD_ATTEMPTS {
            closings(tries.len())
        } else {
            closings(tries.len()) + give_up_effects(Some(tries.last().error))
        });
    }
}

/// Without a link a file that was never tried is dropped, and nobody hears of it; one that
/// was tried is given up with the error of the last attempt.
pub proof fn law_no_link_no_upload<S>(
    path: CameraFilePath,
    config: Vec<SharedPostProcessingConfig<S>>,
    tries: Seq<FailedTry>,
)
    requires
        tries.len() < UPLOAD_ATTEMPTS,
    ensures
        ({
            let (upload, effects) = after_failed_tries(path, config, tries).0.after(UploadEvent::NoLink);
            &&& upload.phase is Finished
            &&& effects == if tries.len() == 0 {
                Seq::empty()
            } else {
                give_up_effects(Some(tries.last().error))
            }
        }),
{
    law_upload_is_given_up(path, config, tries);
}

/// A file that is sent at last is sent, whatever went wrong before: nobody hears of that, and
/// nothing comes after.
pub proof fn law_upload_may_succeed_late<S>(
    path: CameraFilePath,
    config: Vec<SharedPostProcessingConfig<S>>,
    tries: Seq<FailedTry>,
    data: Vec<u8>,
    later: UploadEvent,
)
    requires
        tries.len() < UPLOAD_ATTEMPTS,
    ensures
        ({
            let sending = after_failed_tries(path, config, tries).0.after(UploadEvent::Fetched(Ok(data)));
            let (upload, effects) = sending.0.after(UploadEvent::Sent(Ok(())));
            &&& upload.phase is Finished
            &&& !upload.awaits(later)
            &&& sending.1 == Seq::<UploadEffect>::empty()
            &&& effects == Seq::<UploadEffect>::empty()
            &&& after_failed_tries(path, config, tries).1 == closings(tries.len())
        }),
{
    law_upload_is_given_up(path, config, tries);
}

/// A new file that is no JPEG goes to the server: the worker has it uploaded and shows nothing
/// of it to the clients, and each attempt of the upload reads the data of that file and sends
/// exactly them, as a raw image.
pub proof fn law_raw_file_goes_to_the_server<C, S>(
    worker: PostProcessor<C, S>,
    path: CameraFilePath,
    tries: Seq<FailedTry>,
    data: Vec<u8>,
)
    requires
        worker.phase is Idle,
        worker.connection is Some,
        !is_jpeg_name(path.file@),
        tries.len() < UPLOAD_ATTEMPTS,
    ensures
        worker.after(PostInput::<C, S>::Event(CameraEvent::NewFile(path))) == (
            worker,
            seq![PostEffect::Upload(path)],
        ),
        ({
            let upload = after_failed_tries(path, worker.config, tries).0;
            let sending = upload.after(UploadEvent::Fetched(Ok(data))).0;
            &&& upload.request_of() == UploadRequest::<S>::Fetch(&path)
            &&& sending.request_of() == UploadRequest::<S>::Send(MessageToPostProcessor::<S>::RawImage(&data))
        }),
{
    law_upload_is_given_up(path, worker.config, tries);
}

/// The opening of a link waits for the answer to what it asked for. The server that is gone
/// when the session is to be sent counts as a link that is listened to.
pub proof fn law_opening_waits_for_its_answer(opening: LinkOpening, event: LinkEvent)
    ensures
        opening.awaits(event) <==> match event {
            LinkEvent::Reached(_) => opening.phase is Reaching,
            LinkEvent::Sent(_) => opening.phase is Opening || opening.phase is Configuring,
            LinkEvent::Gone => opening.phase is Opening,
        },
        opening.phase is Opening ==> opening.after(LinkEvent::Gone) == (
            LinkOpening { resume: opening.resume, phase: LinkPhase::Finished(true) },
            true,
        ),
{
}

/// The opening of a link says at its end whether the link is open.
pub proof fn law_opening_tells_its_end<S>(
    resume: bool,
    linked: bool,
    session: Option<u64>,
    config: &Vec<SharedPostProcessingConfig<S>>,
)
    ensures
        (LinkOpening { resume, phase: LinkPhase::Finished(linked) }).request_of(session, config)
            == LinkRequest::<S>::Finish(linked),
{
}

/// Only a session that the server names takes the place of the one before, and only the
/// worker's forgetting takes it away.
pub proof fn law_what_changes_the_session(
    session: Option<u64>,
    id: u64,
    action: ReaderAction,
    effect: PostEffect,
)
    ensures
        session_heard(session, ReaderAction::KeepSession(id)) == Some(id),
        !(action is KeepSession) ==> session_heard(session, action) == session,
        session_done(session, PostEffect::ForgetSession) is None,
        !(effect is ForgetSession) ==> session_done(session, effect) == session,
{
}

/// What is heard on a link is dealt with by what it is: a session is kept under its own
/// number, an image goes to the clients with its own data as one of post-processing, a file is
/// stored under its own name with its own data, what cannot be read is passed over, and the end
/// of the link closes it.
pub proof fn law_what_is_heard_is_dealt_with(
    action: ReaderAction,
    id: u64,
    image: Vec<u8>,
    filename: String,
    data: Vec<u8>,
)
    ensures
        is_answer(ReaderInput::Message(MessageToCameraServer::SessionId(id)), action) ==> action
            == ReaderAction::KeepSession(id),
        is_answer(ReaderInput::Message(MessageToCameraServer::ReturnedImage(image)), action) ==> {
            &&& action is Reply
            &&& action->Reply_0 is Image
            &&& action->Reply_0->Image_0.data == image
            &&& action->Reply_0->Image_0.source is PostProcessing
            &&& action->Reply_0->Image_0.mime_type@ == "image/jpeg"@
        },
        is_answer(
            ReaderInput::Message(MessageToCameraServer::SaveToSystemStorage { filename, data }),
            action,
        ) ==> action == (ReaderAction::Save { filename, data }),
        is_answer(ReaderInput::Unreadable, action) ==> action is Ignore,
        is_answer(ReaderInput::ReadFailed, action) ==> action is CloseLink,
{
}

/// An upload starts with reading its own file, and never loses sight of the file and of the
/// configurations.
pub proof fn law_upload_keeps_its_file<S>(
    upload: Upload<S>,
    path: CameraFilePath,
    config: Vec<SharedPostProcessingConfig<S>>,
    event: UploadEvent,
)
    ensures
        Upload::fresh(path, config) == (Upload {
            path,
            config,
            failures: 0,
            last_error: None,
            phase: UploadPhase::Fetching,
        }),
        upload.after(event).0.path == upload.path,
        upload.after(event).0.config == upload.config,
        upload.phase is Fetching ==> upload.request_of() == UploadRequest::<S>::Fetch(&upload.path),
        upload.phase is Resting ==> upload.request_of() == UploadRequest::<S>::Rest(500),
        upload.phase is Relinking ==> upload.request_of() == UploadRequest::<S>::ReopenLink,
        upload.phase is Finished ==> upload.request_of() == UploadRequest::<S>::Stop,
{
}

/// Data that were read are sent, exactly they; when they are sent the upload is over, and
/// nobody hears of it.
pub proof fn law_read_data_are_sent<S>(upload: Upload<S>, data: Vec<u8>)
    requires
        upload.phase is Fetching,
    ensures
        ({
            let (sending, early) = upload.after(UploadEvent::Fetched(Ok(data)));
            let (sent, late) = sending.after(UploadEvent::Sent(Ok(())));
            &&& sending.request_of() == UploadRequest::<S>::Send(
                MessageToPostProcessor::<S>::RawImage(&data),
            )
            &&& early == Seq::<UploadEffect>::empty()
            &&& late == Seq::<UploadEffect>::empty()
            &&& sending == (Upload { phase: UploadPhase::Sending(data), ..upload })
            &&& sent == (Upload { phase: UploadPhase::Finished, last_error: None, ..upload })
        }),
{
}

/// The first and the second failure, in reading or in sending, close the link and lead over a
/// rest and a new link back to the reading of the file. The third closes the link, tells the
/// clients of this error, says that the link is lost, and ends the upload.
pub proof fn law_third_failure_ends_the_upload<S>(
    upload: Upload<S>,
    data: Vec<u8>,
    error: CameraError,
)
    requires
        upload.phase is Fetching,
        upload.failures <= 2,
    ensures
        ({
            let sending = Upload { phase: UploadPhase::Sending(data), ..upload };
            let failed = upload.after(UploadEvent::Fetched(Err(error)));
            let (next, effects) = failed;
            &&& sending.after(UploadEvent::Sent(Err(error))) == failed
            &&& next.failures == upload.failures + 1
            &&& upload.failures < 2 ==> {
                &&& effects == seq![UploadEffect::CloseLink]
                &&& next.phase is Resting
                &&& next.last_error == Some(error)
                &&& next.after(UploadEvent::Rested) == (
                    Upload { phase: UploadPhase::Relinking, ..next },
                    Seq::<UploadEffect>::empty(),
                )
                &&& next.after(UploadEvent::Rested).0.after(UploadEvent::Relinked) == (
                    Upload { phase: UploadPhase::Fetching, ..next },
                    Seq::<UploadEffect>::empty(),
                )
            }
            &&& upload.failures == 2 ==> {
                &&& effects == seq![
                    UploadEffect::CloseLink,
                    UploadEffect::Reply(MessageToClient::CameraError(error)),
                    UploadEffect::SignalLinkLost,
                ]
                &&& next.phase is Finished
                &&& next.last_error is None
            }
        }),
{
    let effects = upload.after(UploadEvent::Fetched(Err(error))).1;
    if upload.failures == 2 {
        assert(effects =~= seq![
            UploadEffect::CloseLink,
            UploadEffect::Reply(MessageToClient::CameraError(error)),
            UploadEffect::SignalLinkLost,
        ]);
    }
}

/// Without a link the upload is over. The clients hear of the last error, and the link is said
/// to be lost, exactly where there was an error.
pub proof fn law_upload_ends_without_a_link<S>(upload: Upload<S>, error: CameraError)
    ensures
        ({
            let (next, effects) = upload.after(UploadEvent::NoLink);
            &&& next == (Upload { last_error: None, phase: UploadPhase::Finished, ..upload })
            &&& upload.last_error is None ==> effects == Seq::<UploadEffect>::empty()
            &&& upload.last_error == Some(error) ==> effects == seq![
                UploadEffect::Reply(MessageToClient::CameraError(error)),
                UploadEffect::SignalLinkLost,
            ]
        }),
{
}

/// An upload waits only for the answer to what it asked for, and its invariant leaves it an
/// attempt while it is not finished.
pub proof fn law_upload_waits_for_its_answer<S>(
    upload: Upload<S>,
    event: UploadEvent,
    session: Option<u64>,
)
    ensures
        upload.awaits(event) <==> match event {
            UploadEvent::NoLink | UploadEvent::Fetched(_) => upload.phase is Fetching,
            UploadEvent::Sent(_) => upload.phase is Sending,
            UploadEvent::Rested => upload.phase is Resting,
            UploadEvent::Relinked => upload.phase is Relinking,
        },
        upload.phase is Finished ==> upload.wf(),
        !(upload.phase is Finished) ==> (upload.wf() <==> upload.failures < 3 && (upload.failures
            == 0 || upload.last_error is Some)),
        upload.phase is Relinking ==> upload.opening_of(session) == Some(
            LinkOpening { resume: session is Some, phase: LinkPhase::Reaching },
        ),
        !(upload.phase is Relinking) ==> upload.opening_of(session) is None,
{
}

/// A file that could not be sent is told of with the words `Send failed: ` and the reason,
/// whatever the reason.
pub proof fn law_failure_tells_its_reason(error: CameraError, reason: Seq<char>)
    requires
        is_send_failure(error, reason),
    ensures
        error is RsRawUtilError,
        error->RsRawUtilError_0@ == "Send failed: "@ + reason,
{
}

} // verus!

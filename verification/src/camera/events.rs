//! Events of the camera: passing them on while a camera is connected, and waiting for one.

use vstd::prelude::*;

verus! {

/// A file on the camera.
#[derive(Debug, Clone, PartialEq, Eq)]
pub struct CameraFilePath {
    pub folder: String,
    pub file: String,
}

/// An event of the camera.
#[derive(Debug, Clone, PartialEq, Eq)]
pub enum CameraEvent {
    Unknown(String),
    /// Nothing happened.
    Timeout,
    NewFile(CameraFilePath),
    FileChanged(CameraFilePath),
    NewFolder(CameraFilePath),
    CaptureComplete,
}

/// Two events of one kind, whatever they tell.
pub open spec fn same_kind(a: CameraEvent, b: CameraEvent) -> bool {
    match a {
        CameraEvent::Unknown(_) => b is Unknown,
        CameraEvent::Timeout => b is Timeout,
        CameraEvent::NewFile(_) => b is NewFile,
        CameraEvent::FileChanged(_) => b is FileChanged,
        CameraEvent::NewFolder(_) => b is NewFolder,
        CameraEvent::CaptureComplete => b is CaptureComplete,
    }
}

/// Whether two events are of one kind.
pub fn is_same_kind(a: &CameraEvent, b: &CameraEvent) -> (same: bool)
    ensures
        same == same_kind(*a, *b),
{
    match (a, b) {
        (CameraEvent::Unknown(_), CameraEvent::Unknown(_)) => true,
        (CameraEvent::Timeout, CameraEvent::Timeout) => true,
        (CameraEvent::NewFile(_), CameraEvent::NewFile(_)) => true,
        (CameraEvent::FileChanged(_), CameraEvent::FileChanged(_)) => true,
        (CameraEvent::NewFolder(_), CameraEvent::NewFolder(_)) => true,
        (CameraEvent::CaptureComplete, CameraEvent::CaptureComplete) => true,
        _ => false,
    }
}

/// How long one question for an event waits, in milliseconds.
pub const POLL_MS: u64 = 100;

/// How long the loop rests after a question that failed, in milliseconds.
pub const POLL_ERROR_MS: u64 = 1000;

/// The loop that asks the camera for events, with its connection of type `C`.
#[derive(Debug)]
pub struct CameraEventLoop<C> {
    pub connection: Option<C>,
    pub stopped: bool,
}

/// What the loop waits for.
#[derive(Debug, PartialEq, Eq)]
pub enum LoopRequest<'a, C> {
    /// News of the connection.
    Receive,
    /// News of the connection, or an event of this camera within so many milliseconds.
    ReceiveOrPoll(&'a C, u64),
    /// Nothing.
    Stop,
}

/// What the loop hears.
#[derive(Debug)]
pub enum LoopInput<C> {
    /// There is this connection now, or none any more.
    Connection(Option<C>),
    /// There is nobody left to tell of connections.
    ChannelClosed,
    /// The camera's answer.
    Polled(CameraEvent),
    /// The camera could not be asked.
    PollFailed,
}

/// What the loop does with it.
#[derive(Debug, PartialEq, Eq)]
pub enum LoopAction {
    /// Nothing.
    Continue,
    /// Pass the event on.
    Forward(CameraEvent),
    /// Rest for so many milliseconds.
    Sleep(u64),
    /// Stop.
    Stop,
}

impl<C> CameraEventLoop<C> {
    /// The loop asks the camera only while there is one, and nobody once it has stopped.
    pub open spec fn awaits(self, input: LoopInput<C>) -> bool {
        !self.stopped && match input {
            LoopInput::Connection(_) | LoopInput::ChannelClosed => true,
            LoopInput::Polled(_) | LoopInput::PollFailed => self.connection is Some,
        }
    }

    /// The loop after an input, and what it does with it.
    pub open spec fn after(self, input: LoopInput<C>) -> (CameraEventLoop<C>, LoopAction) {
        match input {
            LoopInput::Connection(connection) => (
                CameraEventLoop { connection, ..self },
                LoopAction::Continue,
            ),
            LoopInput::ChannelClosed => (
                CameraEventLoop { stopped: true, ..self },
                LoopAction::Stop,
            ),
            LoopInput::Polled(event) => (
                self,
                if event is Timeout {
                    LoopAction::Continue
                } else {
                    LoopAction::Forward(event)
                },
            ),
            LoopInput::PollFailed => (self, LoopAction::Sleep(POLL_ERROR_MS)),
        }
    }

    /// What the loop waits for.
    pub open spec fn request_of<'a>(&'a self) -> LoopRequest<'a, C> {
        if self.stopped {
            LoopRequest::Stop
        } else {
            match &self.connection {
                None => LoopRequest::Receive,
                Some(connection) => LoopRequest::ReceiveOrPoll(connection, POLL_MS),
            }
        }
    }

    /// A loop without a connection.
    pub fn new() -> (event_loop: CameraEventLoop<C>)
        ensures
            event_loop == (CameraEventLoop::<C> { connection: None, stopped: false }),
    {
        CameraEventLoop { connection: None, stopped: false }
    }

    /// What the loop waits for.
    pub fn request(&self) -> (request: LoopRequest<'_, C>)
        ensures
            request == self.request_of(),
    {
        if self.stopped {
            return LoopRequest::Stop;
        }
        match &self.connection {
            None => LoopRequest::Receive,
            Some(connection) => LoopRequest::ReceiveOrPoll(connection, POLL_MS),
        }
    }

    /// Whether the loop waits for this kind of input.
    pub fn expects(&self, input: &LoopInput<C>) -> (expected: bool)
        ensures
            expected == self.awaits(*input),
    {
        !self.stopped && match input {
            LoopInput::Connection(_) | LoopInput::ChannelClosed => true,
            LoopInput::Polled(_) | LoopInput::PollFailed => self.connection.is_some(),
        }
    }

    /// Takes an input.
    pub fn advance(self, input: LoopInput<C>) -> (next: (CameraEventLoop<C>, LoopAction))
        requires
            self.awaits(input),
        ensures
            next == self.after(input),
    {
        match input {
            LoopInput::Connection(connection) => (
                CameraEventLoop { connection, stopped: self.stopped },
                LoopAction::Continue,
            ),
            LoopInput::ChannelClosed => (
                CameraEventLoop { connection: self.connection, stopped: true },
                LoopAction::Stop,
            ),
            LoopInput::Polled(event) => match event {
                CameraEvent::Timeout => (self, LoopAction::Continue),
                event => (self, LoopAction::Forward(event)),
            },
            LoopInput::PollFailed => (self, LoopAction::Sleep(POLL_ERROR_MS)),
        }
    }
}

/// What the loop passes on while it takes some inputs.
pub open spec fn forwarded<C>(event_loop: CameraEventLoop<C>, inputs: Seq<LoopInput<C>>) -> (
    CameraEventLoop<C>,
    Seq<CameraEvent>,
)
    decreases inputs.len(),
{
    if inputs.len() == 0 {
        (event_loop, Seq::empty())
    } else {
        let (before, events) = forwarded(event_loop, inputs.drop_last());
        let (after, action) = before.after(inputs.last());
        (
            after,
            match action {
                LoopAction::Forward(event) => events.push(event),
                _ => events,
            },
        )
    }
}

/// The events among some inputs, without those in which nothing happened.
pub open spec fn happenings<C>(inputs: Seq<LoopInput<C>>) -> Seq<CameraEvent>
    decreases inputs.len(),
{
    if inputs.len() == 0 {
        Seq::empty()
    } else {
        match inputs.last() {
            LoopInput::Polled(event) if !(event is Timeout) => happenings(inputs.drop_last()).push(
                event,
            ),
            _ => happenings(inputs.drop_last()),
        }
    }
}

/// The loop passes on all that happened at the camera, in order, and nothing else.
pub proof fn law_everything_that_happens_is_passed_on<C>(
    event_loop: CameraEventLoop<C>,
    inputs: Seq<LoopInput<C>>,
)
    ensures
        forwarded(event_loop, inputs).1 == happenings(inputs),
    decreases inputs.len(),
{
    if inputs.len() > 0 {
        law_everything_that_happens_is_passed_on(event_loop, inputs.drop_last());
    }
}

/// The loop waited for each of the inputs when it came.
pub open spec fn can_take<C>(event_loop: CameraEventLoop<C>, inputs: Seq<LoopInput<C>>) -> bool
    decreases inputs.len(),
{
    inputs.len() > 0 ==> {
        &&& can_take(event_loop, inputs.drop_last())
        &&& forwarded(event_loop, inputs.drop_last()).0.awaits(inputs.last())
    }
}

/// The connection that the last message of some inputs told of, or that of before.
pub open spec fn last_told<C>(before: Option<C>, inputs: Seq<LoopInput<C>>) -> Option<C>
    decreases inputs.len(),
{
    if inputs.len() == 0 {
        before
    } else {
        match inputs.last() {
            LoopInput::Connection(connection) => connection,
            _ => last_told(before, inputs.drop_last()),
        }
    }
}

/// The loop asks no camera but the one that the last message told of, and that one as long
/// as it has not stopped; it stops when there is nobody left to tell of connections, and
/// then takes nothing more.
pub proof fn law_only_the_last_camera_is_asked<C>(
    event_loop: CameraEventLoop<C>,
    inputs: Seq<LoopInput<C>>,
)
    requires
        !event_loop.stopped,
        can_take(event_loop, inputs),
    ensures
        ({
            let after = forwarded(event_loop, inputs).0;
            &&& after.stopped == (inputs.len() > 0 && inputs.last() is ChannelClosed)
            &&& after.request_of() == if after.stopped {
                LoopRequest::Stop
            } else {
                match last_told(event_loop.connection, inputs) {
                    None => LoopRequest::Receive,
                    Some(connection) => LoopRequest::ReceiveOrPoll(&connection, POLL_MS),
                }
            }
            &&& forall|event: CameraEvent|
                after.awaits(LoopInput::Polled(event)) == (!after.stopped && last_told(
                    event_loop.connection,
                    inputs,
                ) is Some)
        }),
    decreases inputs.len(),
{
    lemma_last_told_is_held(event_loop, inputs);
    if inputs.len() > 0 {
        law_only_the_last_camera_is_asked(event_loop, inputs.drop_last());
    }
}

proof fn lemma_last_told_is_held<C>(event_loop: CameraEventLoop<C>, inputs: Seq<LoopInput<C>>)
    ensures
        forwarded(event_loop, inputs).0.connection == last_told(event_loop.connection, inputs),
    decreases inputs.len(),
{
    if inputs.len() > 0 {
        lemma_last_told_is_held(event_loop, inputs.drop_last());
    }
}

/// What somebody hears who waits for an event.
#[derive(Debug, Clone, PartialEq, Eq)]
pub enum WaitInput {
    Received(CameraEvent),
    /// Some events were missed.
    ReceiveFailed,
    /// The time is up.
    TimedOut,
}

/// What comes of the waiting.
#[derive(Debug, Clone, PartialEq, Eq)]
pub enum WaitOutcome {
    /// It goes on.
    Waiting,
    /// It is over, with the event or without it.
    Finished(Option<CameraEvent>),
}

/// The waiting for an event of the kind of `event_type` after one input.
pub open spec fn waiting_after(event_type: CameraEvent, input: WaitInput) -> WaitOutcome {
    match input {
        WaitInput::Received(event) => if same_kind(event, event_type) {
            WaitOutcome::Finished(Some(event))
        } else {
            WaitOutcome::Waiting
        },
        WaitInput::ReceiveFailed => WaitOutcome::Waiting,
        WaitInput::TimedOut => WaitOutcome::Finished(None),
    }
}

/// Whether the waiting for an event of the kind of `event_type` is over.
pub fn wait_for_event(event_type: &CameraEvent, input: WaitInput) -> (outcome: WaitOutcome)
    ensures
        outcome == waiting_after(*event_type, input),
{
    match input {
        WaitInput::Received(event) => if is_same_kind(&event, event_type) {
            WaitOutcome::Finished(Some(event))
        } else {
            WaitOutcome::Waiting
        },
        WaitInput::ReceiveFailed => WaitOutcome::Waiting,
        WaitInput::TimedOut => WaitOutcome::Finished(None),
    }
}

/// The waiting after some inputs: it is over with the first input that ends it.
pub open spec fn waited(event_type: CameraEvent, inputs: Seq<WaitInput>) -> WaitOutcome
    decreases inputs.len(),
{
    if inputs.len() == 0 {
        WaitOutcome::Waiting
    } else {
        match waiting_after(event_type, inputs[0]) {
            WaitOutcome::Waiting => waited(event_type, inputs.drop_first()),
            outcome => outcome,
        }
    }
}

/// Somebody who waits gets the first event of the kind they wait for, if it comes before
/// the time is up.
pub proof fn law_first_event_of_the_kind(event_type: CameraEvent, inputs: Seq<WaitInput>, at: int)
    requires
        0 <= at < inputs.len(),
        inputs[at] matches WaitInput::Received(event) && same_kind(event, event_type),
        forall|i: int|
            0 <= i < at ==> waiting_after(event_type, #[trigger] inputs[i]) is Waiting,
    ensures
        waited(event_type, inputs) == WaitOutcome::Finished(Some(inputs[at]->Received_0)),
    decreases inputs.len(),
{
    if at > 0 {
        assert(waiting_after(event_type, inputs[0]) is Waiting);
        assert forall|i: int| 0 <= i < at - 1 implies waiting_after(
            event_type,
            #[trigger] inputs.drop_first()[i],
        ) is Waiting by {
            assert(waiting_after(event_type, inputs[i + 1]) is Waiting);
        }
        law_first_event_of_the_kind(event_type, inputs.drop_first(), at - 1);
    }
}

/// Somebody who waits gets nothing if the time is up first.
pub proof fn law_time_may_be_up_first(event_type: CameraEvent, inputs: Seq<WaitInput>, at: int)
    requires
        0 <= at < inputs.len(),
        inputs[at] is TimedOut,
        forall|i: int|
            0 <= i < at ==> waiting_after(event_type, #[trigger] inputs[i]) is Waiting,
    ensures
        waited(event_type, inputs) == WaitOutcome::Finished(None),
    decreases inputs.len(),
{
    if at > 0 {
        assert(waiting_after(event_type, inputs[0]) is Waiting);
        assert forall|i: int| 0 <= i < at - 1 implies waiting_after(
            event_type,
            #[trigger] inputs.drop_first()[i],
        ) is Waiting by {
            assert(waiting_after(event_type, inputs[i + 1]) is Waiting);
        }
        law_time_may_be_up_first(event_type, inputs.drop_first(), at - 1);
    }
}

/// Two events are of one kind when both are unknown ones, both are none, both tell of a new
/// file, of a changed file, of a new folder, or of a complete capture; what they tell besides
/// does not matter.
pub proof fn law_kind_is_all_that_matters(a: CameraEvent, b: CameraEvent)
    ensures
        same_kind(a, b) <==> {
            ||| a is Unknown && b is Unknown
            ||| a is Timeout && b is Timeout
            ||| a is NewFile && b is NewFile
            ||| a is FileChanged && b is FileChanged
            ||| a is NewFolder && b is NewFolder
            ||| a is CaptureComplete && b is CaptureComplete
        },
{
}

/// What the loop does with each input: a connection, or that there is none, takes the place of
/// what was; an event goes on as it is, unless nothing happened; a question that failed is
/// followed by a rest of a second; and the loop stops when there is nobody left to tell of
/// connections. An answer of the camera changes nothing in the loop.
pub proof fn law_loop_passes_on<C>(
    event_loop: CameraEventLoop<C>,
    connection: Option<C>,
    event: CameraEvent,
)
    ensures
        event_loop.after(LoopInput::Connection(connection)) == (
            CameraEventLoop { connection, stopped: event_loop.stopped },
            LoopAction::Continue,
        ),
        event_loop.after(LoopInput::ChannelClosed) == (
            CameraEventLoop { connection: event_loop.connection, stopped: true },
            LoopAction::Stop,
        ),
        event is Timeout ==> event_loop.after(LoopInput::Polled(event)) == (
            event_loop,
            LoopAction::Continue,
        ),
        !(event is Timeout) ==> event_loop.after(LoopInput::Polled(event)) == (
            event_loop,
            LoopAction::Forward(event),
        ),
        event_loop.after(LoopInput::PollFailed) == (event_loop, LoopAction::Sleep(1000)),
{
}

/// The loop waits for news of the connection, and for 100 milliseconds at a time for the camera
/// that it has; once it has stopped it waits for nothing.
pub proof fn law_loop_waits<C>(event_loop: CameraEventLoop<C>, input: LoopInput<C>)
    ensures
        event_loop.stopped ==> event_loop.request_of() == LoopRequest::<C>::Stop
            && !event_loop.awaits(input),
        !event_loop.stopped && event_loop.connection is None ==> event_loop.request_of()
            == LoopRequest::<C>::Receive && (event_loop.awaits(input) <==> input is Connection
            || input is ChannelClosed),
        !event_loop.stopped && event_loop.connection is Some ==> event_loop.request_of()
            == LoopRequest::ReceiveOrPoll(&event_loop.connection->0, 100)
            && event_loop.awaits(input),
{
}

/// Somebody who waits gets an event of the kind as it came, and nothing when the time is up;
/// any other event, or one that was missed, does not end the waiting.
pub proof fn law_waiting_ends(event_type: CameraEvent, event: CameraEvent)
    ensures
        same_kind(event, event_type) ==> waiting_after(event_type, WaitInput::Received(event))
            == WaitOutcome::Finished(Some(event)),
        !same_kind(event, event_type) ==> waiting_after(event_type, WaitInput::Received(event))
            == WaitOutcome::Waiting,
        waiting_after(event_type, WaitInput::ReceiveFailed) == WaitOutcome::Waiting,
        waiting_after(event_type, WaitInput::TimedOut) == WaitOutcome::Finished(None),
{
}

} // verus!

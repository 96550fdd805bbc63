//! What is done with the messages of a client, and how messages go to one, one after the
//! other: as binary websocket messages, whose first byte tells what follows.

use vstd::prelude::*;

use crate::websocket::scheme::{
    Image, ImageInfo, MessageToClient, MessageToServer, WebSocketMsgType,
};

verus! {

/// `serde_json::Error`, an error of serialisation, carried as it comes.
#[verifier::external_type_specification]
#[verifier::external_body]
pub struct ExJsonError(serde_json::Error);

/// `axum::Error`, an error of a websocket, carried as it comes.
#[verifier::external_type_specification]
#[verifier::external_body]
pub struct ExAxumError(axum::Error);

/// What keeps a message from a client.
#[derive(Debug)]
pub enum WebsocketError {
    SerializationError(serde_json::Error),
    AxumError(axum::Error),
}

impl From<serde_json::Error> for WebsocketError {
    fn from(err: serde_json::Error) -> (error: WebsocketError) {
        WebsocketError::SerializationError(err)
    }
}

impl vstd::std_specs::convert::FromSpecImpl<serde_json::Error> for WebsocketError {
    open spec fn obeys_from_spec() -> bool {
        true
    }

    open spec fn from_spec(err: serde_json::Error) -> WebsocketError {
        WebsocketError::SerializationError(err)
    }
}

impl From<axum::Error> for WebsocketError {
    fn from(err: axum::Error) -> (error: WebsocketError) {
        WebsocketError::AxumError(err)
    }
}

impl vstd::std_specs::convert::FromSpecImpl<axum::Error> for WebsocketError {
    open spec fn obeys_from_spec() -> bool {
        true
    }

    open spec fn from_spec(err: axum::Error) -> WebsocketError {
        WebsocketError::AxumError(err)
    }
}

/// What the writing to a client meets.
#[derive(Debug)]
pub enum WriterInput {
    /// A message was sent, with this outcome.
    Sent(Result<(), WebsocketError>),
    /// There was no next message to be had: some were missed, or there will be no more.
    ReceiveFailed,
}

/// The writing to a client goes on after this.
pub open spec fn writes_on(input: WriterInput) -> bool {
    input matches WriterInput::Sent(sent) && !(sent matches Err(WebsocketError::AxumError(_)))
}

/// Whether the writing to a client goes on: it ends with an error of the websocket itself,
/// and when there is no next message to be had.
pub fn socket_writer(input: &WriterInput) -> (goes_on: bool)
    ensures
        goes_on == writes_on(*input),
{
    match input {
        WriterInput::Sent(Err(WebsocketError::AxumError(_))) => false,
        WriterInput::Sent(_) => true,
        WriterInput::ReceiveFailed => false,
    }
}

/// What comes from a client.
#[derive(Debug, PartialEq, Eq)]
pub enum SocketInput<S> {
    /// A binary message that could be parsed.
    Parsed(MessageToServer<S>),
    /// A binary message that could not be parsed.
    Unparsable,
    /// A message that is not binary.
    NotBinary,
    /// An error in place of a message.
    ReceiveFailed,
    /// The end of the connection.
    Closed,
}

/// What is done with it.
#[derive(Debug, PartialEq, Eq)]
pub enum SocketAction<S> {
    /// Hand this on to be worked on.
    Deliver(MessageToServer<S>),
    /// Nothing.
    Ignore,
    /// Stop to read.
    Stop,
}

/// What is done with something that comes from a client.
pub open spec fn read_as<S>(input: SocketInput<S>) -> SocketAction<S> {
    match input {
        SocketInput::Parsed(msg) => SocketAction::Deliver(msg),
        SocketInput::Closed => SocketAction::Stop,
        _ => SocketAction::Ignore,
    }
}

/// What is done with something that comes from a client: only binary messages that can be
/// parsed count, and nothing but the end of the connection ends the reading.
pub fn socket_reader<S>(input: SocketInput<S>) -> (action: SocketAction<S>)
    ensures
        action == read_as(input),
{
    match input {
        SocketInput::Parsed(msg) => SocketAction::Deliver(msg),
        SocketInput::Closed => SocketAction::Stop,
        _ => SocketAction::Ignore,
    }
}

/// A binary message: the code of its type, and what it holds.
pub open spec fn tagged(msg_type: WebSocketMsgType, payload: Seq<u8>) -> Seq<u8> {
    seq![msg_type.code()] + payload
}

/// Puts the code of its type before what a binary message holds.
pub fn tag(msg_type: WebSocketMsgType, payload: Vec<u8>) -> (message: Vec<u8>)
    ensures
        message@ == tagged(msg_type, payload@),
{
    let mut message = payload;
    message.insert(0, u8::from(msg_type));
    assert(message@ =~= tagged(msg_type, payload@));
    message
}

/// The type and the payload of a binary message can be told from its bytes.
pub proof fn law_tagged_messages_differ(
    one: WebSocketMsgType,
    payload: Seq<u8>,
    other: WebSocketMsgType,
    other_payload: Seq<u8>,
)
    requires
        tagged(one, payload) == tagged(other, other_payload),
    ensures
        one == other,
        payload == other_payload,
{
    assert(tagged(one, payload)[0] == one.code());
    assert(tagged(other, other_payload)[0] == other.code());
    assert(payload =~= tagged(one, payload).skip(1));
    assert(other_payload =~= tagged(other, other_payload).skip(1));
}

/// A part of a message to a client.
#[derive(Debug)]
pub enum Part {
    /// What is known of an image, to be serialised.
    Info(ImageInfo),
    /// The data of an image.
    Data(Vec<u8>),
    /// A whole message, to be serialised.
    Message(MessageToClient),
}

/// The two parts of an image.
pub open spec fn image_parts(image: Image) -> Seq<Part> {
    seq![
        Part::Info(
            ImageInfo { id: image.id, mime_type: image.mime_type, source: image.source },
        ),
        Part::Data(image.data),
    ]
}

/// The parts of several images, of which the last one goes first.
pub open spec fn image_list_parts(images: Seq<Image>) -> Seq<Part>
    decreases images.len(),
{
    if images.len() == 0 {
        Seq::empty()
    } else {
        image_parts(images.last()) + image_list_parts(images.drop_last())
    }
}

/// The parts of a message in the order in which they go to a client. Images go apart from
/// their data; any other message goes as a whole.
pub open spec fn parts_of(message: MessageToClient) -> Seq<Part> {
    match message {
        MessageToClient::Image(image) => image_parts(image),
        MessageToClient::ImageList(images) => image_list_parts(images@),
        message => seq![Part::Message(message)],
    }
}

/// What comes next on the way to a client.
#[derive(Debug)]
pub enum Front {
    /// This is to be serialised.
    Info(ImageInfo),
    /// This is to be serialised.
    Message(MessageToClient),
    /// This is to be sent as a binary message.
    Bytes(Vec<u8>),
    /// Nothing, because all went out or something went wrong.
    Finished(Result<(), WebsocketError>),
}

/// A message on its way to a client: what comes next, and the parts that come after that,
/// the last one first.
#[derive(Debug)]
pub struct Outgoing {
    pub front: Front,
    pub rest: Vec<Part>,
}

/// What a message on its way asks for.
#[derive(Debug)]
pub enum OutgoingRequest<'a> {
    /// Serialise this to JSON.
    EncodeInfo(&'a ImageInfo),
    /// Serialise this to JSON.
    EncodeMessage(&'a MessageToClient),
    /// Send this as a binary message.
    Send(&'a Vec<u8>),
    /// Stop, with this outcome.
    Finish(&'a Result<(), WebsocketError>),
}

/// What comes of it.
#[derive(Debug)]
pub enum OutgoingEvent {
    /// The JSON text.
    Encoded(Result<Vec<u8>, serde_json::Error>),
    /// The binary message was sent, or could not be.
    Sent(Result<(), axum::Error>),
}

/// This is the next thing when this part is.
pub open spec fn front_of(part: Part, front: Front) -> bool {
    match part {
        Part::Info(info) => front == Front::Info(info),
        Part::Message(message) => front == Front::Message(message),
        Part::Data(data) => front matches Front::Bytes(bytes) && bytes@ == tagged(
            WebSocketMsgType::BinaryImage,
            data@,
        ),
    }
}

impl Outgoing {
    /// The parts that come after the next thing, in their order.
    pub open spec fn remaining(self) -> Seq<Part> {
        self.rest@.reverse()
    }

    /// These parts are what is to come, and nothing was begun of the first.
    pub open spec fn is_at(self, parts: Seq<Part>) -> bool {
        if parts.len() == 0 {
            self.front == Front::Finished(Ok(())) && self.remaining() == parts
        } else {
            front_of(parts[0], self.front) && self.remaining() == parts.skip(1)
        }
    }

    /// The message asked for what this event tells.
    pub open spec fn awaits(self, event: OutgoingEvent) -> bool {
        match self.front {
            Front::Info(_) | Front::Message(_) => event is Encoded,
            Front::Bytes(_) => event is Sent,
            Front::Finished(_) => false,
        }
    }

    /// The message after an event: a JSON text goes out under its code, what was sent makes
    /// room for the next part, and an error ends it all.
    pub open spec fn becomes(self, event: OutgoingEvent, next: Outgoing) -> bool {
        match event {
            OutgoingEvent::Encoded(Ok(json)) => {
                &&& next.rest == self.rest
                &&& next.front matches Front::Bytes(bytes) && bytes@ == tagged(
                    WebSocketMsgType::JSON,
                    json@,
                )
            },
            OutgoingEvent::Encoded(Err(error)) => {
                &&& next.rest == self.rest
                &&& next.front == Front::Finished(Err(WebsocketError::SerializationError(error)))
            },
            OutgoingEvent::Sent(Ok(())) => next.is_at(self.remaining()),
            OutgoingEvent::Sent(Err(error)) => {
                &&& next.rest == self.rest
                &&& next.front == Front::Finished(Err(WebsocketError::AxumError(error)))
            },
        }
    }

    /// What the message asks for.
    pub open spec fn request_of<'a>(&'a self) -> OutgoingRequest<'a> {
        match &self.front {
            Front::Info(info) => OutgoingRequest::EncodeInfo(info),
            Front::Message(message) => OutgoingRequest::EncodeMessage(message),
            Front::Bytes(bytes) => OutgoingRequest::Send(bytes),
            Front::Finished(outcome) => OutgoingRequest::Finish(outcome),
        }
    }

    /// Takes the next of these parts, the last one first.
    fn next_part(parts: Vec<Part>) -> (next: Outgoing)
        ensures
            next.is_at(parts@.reverse()),
    {
        let ghost all = parts@;
        let mut rest = parts;
        let front = match rest.pop() {
            Some(Part::Info(info)) => Front::Info(info),
            Some(Part::Message(message)) => Front::Message(message),
            Some(Part::Data(data)) => Front::Bytes(tag(WebSocketMsgType::BinaryImage, data)),
            None => Front::Finished(Ok(())),
        };
        assert(rest@.reverse() =~= if all.len() == 0 {
            all.reverse()
        } else {
            all.reverse().skip(1)
        });
        Outgoing { front, rest }
    }

    /// Puts the parts of an image behind all others, so that they come first.
    fn push_image(parts: &mut Vec<Part>, image: Image)
        ensures
            final(parts)@.reverse() == image_parts(image) + old(parts)@.reverse(),
    {
        let (info, data) = image.split();
        parts.push(Part::Data(data));
        parts.push(Part::Info(info));
        assert(parts@.reverse() =~= image_parts(image) + old(parts)@.reverse());
    }

    /// A message that is to go to a client.
    pub fn new(message: MessageToClient) -> (outgoing: Outgoing)
        ensures
            outgoing.is_at(parts_of(message)),
    {
        let mut parts: Vec<Part> = Vec::new();
        assert(parts@.reverse() =~= Seq::<Part>::empty());
        match message {
            MessageToClient::Image(image) => {
                Outgoing::push_image(&mut parts, image);
                assert(parts@.reverse() =~= image_parts(image));
            },
            MessageToClient::ImageList(images) => {
                let ghost all = images@;
                assert(all.take(0) =~= Seq::empty());
                for image in it: images
                    invariant
                        it.seq() == all,
                        parts@.reverse() == image_list_parts(all.take(it.index())),
                {
                    let ghost i = it.index();
                    Outgoing::push_image(&mut parts, image);
                    assert(all.take(i + 1).drop_last() =~= all.take(i));
                }
                assert(all.take(all.len() as int) =~= all);
            },
            message => {
                parts.push(Part::Message(message));
                assert(parts@.reverse() =~= seq![Part::Message(message)]);
            },
        }
        Outgoing::next_part(parts)
    }

    /// What to do next.
    pub fn request(&self) -> (request: OutgoingRequest<'_>)
        ensures
            request == self.request_of(),
    {
        match &self.front {
            Front::Info(info) => OutgoingRequest::EncodeInfo(info),
            Front::Message(message) => OutgoingRequest::EncodeMessage(message),
            Front::Bytes(bytes) => OutgoingRequest::Send(bytes),
            Front::Finished(outcome) => OutgoingRequest::Finish(outcome),
        }
    }

    /// Whether the message asked for what this event tells.
    pub fn expects(&self, event: &OutgoingEvent) -> (expected: bool)
        ensures
            expected == self.awaits(*event),
    {
        match (&self.front, event) {
            (Front::Info(_), OutgoingEvent::Encoded(_)) => true,
            (Front::Message(_), OutgoingEvent::Encoded(_)) => true,
            (Front::Bytes(_), OutgoingEvent::Sent(_)) => true,
            _ => false,
        }
    }

    /// Takes an event that the message waited for.
    pub fn advance(self, event: OutgoingEvent) -> (next: Outgoing)
        requires
            self.awaits(event),
        ensures
            self.becomes(event, next),
    {
        match event {
            OutgoingEvent::Encoded(Ok(json)) => Outgoing {
                front: Front::Bytes(tag(WebSocketMsgType::JSON, json)),
                rest: self.rest,
            },
            OutgoingEvent::Encoded(Err(error)) => Outgoing {
                front: Front::Finished(Err(WebsocketError::from(error))),
                rest: self.rest,
            },
            OutgoingEvent::Sent(Ok(())) => Outgoing::next_part(self.rest),
            OutgoingEvent::Sent(Err(error)) => Outgoing {
                front: Front::Finished(Err(WebsocketError::from(error))),
                rest: self.rest,
            },
        }
    }
}

/// A message on its way from its first state to its last, with the events in between.
pub open spec fn is_run(states: Seq<Outgoing>, events: Seq<OutgoingEvent>) -> bool {
    &&& states.len() == events.len() + 1
    &&& forall|i: int|
        #![trigger events[i]]
        0 <= i < events.len() ==> states[i].awaits(events[i]) && states[i].becomes(
            events[i],
            states[i + 1],
        )
}

/// Nothing goes wrong, and what is serialised becomes what `encode` makes of it.
pub open spec fn all_well(
    states: Seq<Outgoing>,
    events: Seq<OutgoingEvent>,
    encode: spec_fn(Part) -> Seq<u8>,
) -> bool {
    forall|i: int|
        #![trigger events[i]]
        0 <= i < events.len() ==> match events[i] {
            OutgoingEvent::Encoded(Ok(json)) => {
                &&& states[i].front matches Front::Info(info) ==> json@ == encode(Part::Info(info))
                &&& states[i].front matches Front::Message(message) ==> json@ == encode(
                    Part::Message(message),
                )
            },
            OutgoingEvent::Sent(Ok(())) => true,
            _ => false,
        }
}

/// The binary messages that went out, in their order.
pub open spec fn sent_in(states: Seq<Outgoing>, events: Seq<OutgoingEvent>) -> Seq<Seq<u8>>
    decreases events.len(),
{
    if events.len() == 0 {
        Seq::empty()
    } else {
        let later = sent_in(states.skip(1), events.skip(1));
        match (states[0].front, events[0]) {
            (Front::Bytes(bytes), OutgoingEvent::Sent(Ok(()))) => seq![bytes@] + later,
            _ => later,
        }
    }
}

/// The binary message for a part.
pub open spec fn bytes_for(part: Part, encode: spec_fn(Part) -> Seq<u8>) -> Seq<u8> {
    match part {
        Part::Data(data) => tagged(WebSocketMsgType::BinaryImage, data@),
        part => tagged(WebSocketMsgType::JSON, encode(part)),
    }
}

/// A message all of whose parts are to come goes out part by part.
proof fn lemma_parts_go_out(
    parts: Seq<Part>,
    states: Seq<Outgoing>,
    events: Seq<OutgoingEvent>,
    encode: spec_fn(Part) -> Seq<u8>,
)
    requires
        is_run(states, events),
        states[0].is_at(parts),
        all_well(states, events, encode),
        states.last().front is Finished,
    ensures
        states.last().front == Front::Finished(Ok(())),
        sent_in(states, events) == parts.map_values(|part: Part| bytes_for(part, encode)),
    decreases parts.len(),
{
    if parts.len() == 0 {
        if events.len() > 0 {
            assert(states[0].awaits(events[0]));
        }
        assert(parts.map_values(|part: Part| bytes_for(part, encode)) =~= Seq::empty());
    } else {
        assert(events.len() > 0);
        assert(states[0].awaits(events[0]) && states[0].becomes(events[0], states[1]));
        let steps: int = if parts[0] is Data {
            1
        } else {
            2
        };
        if steps == 2 {
            assert(events.len() > 1);
            assert(states[1].awaits(events[1]) && states[1].becomes(events[1], states[2]));
        }
        let later_states = states.skip(steps);
        let later_events = events.skip(steps);
        assert forall|i: int|
            #![trigger later_events[i]]
            0 <= i < later_events.len() implies later_states[i].awaits(later_events[i])
            && later_states[i].becomes(later_events[i], later_states[i + 1]) by {
            assert(later_events[i] == events[i + steps]);
        }
        assert forall|i: int| #![trigger later_events[i]] 0 <= i < later_events.len() implies (
        match later_events[i] {
            OutgoingEvent::Encoded(Ok(json)) => {
                &&& later_states[i].front matches Front::Info(info) ==> json@ == encode(
                    Part::Info(info),
                )
                &&& later_states[i].front matches Front::Message(message) ==> json@ == encode(
                    Part::Message(message),
                )
            },
            OutgoingEvent::Sent(Ok(())) => true,
            _ => false,
        }) by {
            assert(later_events[i] == events[i + steps]);
        }
        lemma_parts_go_out(parts.skip(1), later_states, later_events, encode);
        reveal_with_fuel(sent_in, 3);
        if steps == 2 {
            assert(states.skip(1).skip(1) =~= states.skip(2));
            assert(events.skip(1).skip(1) =~= events.skip(2));
        }
        assert(sent_in(states, events) =~= seq![bytes_for(parts[0], encode)] + sent_in(
            later_states,
            later_events,
        ));
        assert(parts.map_values(|part: Part| bytes_for(part, encode)) =~= seq![
            bytes_for(parts[0], encode),
        ] + parts.skip(1).map_values(|part: Part| bytes_for(part, encode)));
    }
}

/// If nothing goes wrong, then each part of a message goes out in its order as one binary
/// message, serialised parts under the code for JSON and the data of images under the code
/// for images, and nothing else does.
pub proof fn law_message_goes_out(
    message: MessageToClient,
    states: Seq<Outgoing>,
    events: Seq<OutgoingEvent>,
    encode: spec_fn(Part) -> Seq<u8>,
)
    requires
        is_run(states, events),
        states[0].is_at(parts_of(message)),
        all_well(states, events, encode),
        states.last().front is Finished,
    ensures
        states.last().front == Front::Finished(Ok(())),
        sent_in(states, events) == parts_of(message).map_values(
            |part: Part| bytes_for(part, encode),
        ),
{
    lemma_parts_go_out(parts_of(message), states, events, encode);
}

/// The binary messages that were offered to the client, whether or not they went out.
pub open spec fn offered_in(states: Seq<Outgoing>, events: Seq<OutgoingEvent>) -> Seq<Seq<u8>>
    decreases events.len(),
{
    if events.len() == 0 {
        Seq::empty()
    } else {
        let later = offered_in(states.skip(1), events.skip(1));
        match (states[0].front, events[0]) {
            (Front::Bytes(bytes), OutgoingEvent::Sent(_)) => seq![bytes@] + later,
            _ => later,
        }
    }
}

/// An event that tells of an error.
pub open spec fn is_refusal(event: OutgoingEvent) -> bool {
    event matches OutgoingEvent::Encoded(Err(_)) || event matches OutgoingEvent::Sent(Err(_))
}

/// A message whose parts are to come, up to the first error.
proof fn lemma_parts_until_refused(
    parts: Seq<Part>,
    states: Seq<Outgoing>,
    events: Seq<OutgoingEvent>,
    encode: spec_fn(Part) -> Seq<u8>,
)
    requires
        is_run(states, events),
        states[0].is_at(parts),
        events.len() > 0,
        all_well(states, events.drop_last(), encode),
        is_refusal(events.last()),
    ensures
        ({
            let all = parts.map_values(|part: Part| bytes_for(part, encode));
            let went = sent_in(states, events).len() as int;
            let refused: int = if events.last() is Sent {
                1
            } else {
                0
            };
            &&& went < all.len()
            &&& sent_in(states, events) == all.take(went)
            &&& offered_in(states, events) == all.take(went + refused)
        }),
    decreases parts.len(),
{
    let all = parts.map_values(|part: Part| bytes_for(part, encode));
    let last = events.len() - 1;
    assert(states[0].awaits(events[0]) && states[0].becomes(events[0], states[1]));
    assert(parts.len() > 0);
    reveal_with_fuel(sent_in, 3);
    reveal_with_fuel(offered_in, 3);
    let steps: int = if parts[0] is Data {
        1
    } else {
        2
    };
    if last == 0 {
        assert(sent_in(states, events) =~= all.take(0));
        if events.last() is Sent {
            assert(offered_in(states, events) =~= all.take(1));
        } else {
            assert(offered_in(states, events) =~= all.take(0));
        }
    } else {
        assert(events[0] == events.drop_last()[0]);
        if steps == 2 {
            assert(states[1].awaits(events[1]) && states[1].becomes(events[1], states[2]));
            assert(states.skip(1).skip(1) =~= states.skip(2));
            assert(events.skip(1).skip(1) =~= events.skip(2));
        }
        if steps == 2 && last == 1 {
            assert(sent_in(states, events) =~= all.take(0));
            assert(offered_in(states, events) =~= all.take(1));
        } else {
            if steps == 2 {
                assert(events[1] == events.drop_last()[1]);
            }
            let later_states = states.skip(steps);
            let later_events = events.skip(steps);
            assert forall|i: int|
                #![trigger later_events[i]]
                0 <= i < later_events.len() implies later_states[i].awaits(later_events[i])
                && later_states[i].becomes(later_events[i], later_states[i + 1]) by {
                assert(later_events[i] == events[i + steps]);
            }
            let later_well = later_events.drop_last();
            assert forall|i: int| #![trigger later_well[i]] 0 <= i < later_well.len() implies (
            match later_well[i] {
                OutgoingEvent::Encoded(Ok(json)) => {
                    &&& later_states[i].front matches Front::Info(info) ==> json@ == encode(
                        Part::Info(info),
                    )
                    &&& later_states[i].front matches Front::Message(message) ==> json@ == encode(
                        Part::Message(message),
                    )
                },
                OutgoingEvent::Sent(Ok(())) => true,
                _ => false,
            }) by {
                assert(later_well[i] == events.drop_last()[i + steps]);
            }
            lemma_parts_until_refused(parts.skip(1), later_states, later_events, encode);
            let later = parts.skip(1).map_values(|part: Part| bytes_for(part, encode));
            let first = bytes_for(parts[0], encode);
            assert(all =~= seq![first] + later);
            assert(sent_in(states, events) =~= seq![first] + sent_in(later_states, later_events));
            assert(offered_in(states, events) =~= seq![first] + offered_in(
                later_states,
                later_events,
            ));
            let went = sent_in(states, events).len() as int;
            assert(sent_in(states, events) =~= all.take(went));
            assert(offered_in(states, events) =~= all.take(
                went + if events.last() is Sent {
                    1int
                } else {
                    0int
                },
            ));
        }
    }
}

/// A binary message that is refused leaves exactly the ones before it and itself offered to
/// the client, and one that cannot be made exactly the ones before it; those before it went
/// out.
pub proof fn law_refused_message_is_the_last_offered(
    message: MessageToClient,
    states: Seq<Outgoing>,
    events: Seq<OutgoingEvent>,
    encode: spec_fn(Part) -> Seq<u8>,
)
    requires
        is_run(states, events),
        states[0].is_at(parts_of(message)),
        events.len() > 0,
        all_well(states, events.drop_last(), encode),
        is_refusal(events.last()),
    ensures
        ({
            let all = parts_of(message).map_values(|part: Part| bytes_for(part, encode));
            let went = sent_in(states, events).len() as int;
            &&& went < all.len()
            &&& sent_in(states, events) == all.take(went)
            &&& events.last() is Sent ==> offered_in(states, events) == all.take(went + 1)
            &&& events.last() is Encoded ==> offered_in(states, events) == all.take(went)
        }),
{
    lemma_parts_until_refused(parts_of(message), states, events, encode);
}

/// After an error nothing more goes out, and the error is the outcome.
pub proof fn law_error_ends_the_message(outgoing: Outgoing, event: OutgoingEvent, next: Outgoing)
    requires
        outgoing.awaits(event),
        outgoing.becomes(event, next),
        is_refusal(event),
    ensures
        event matches OutgoingEvent::Encoded(Err(error)) ==> next.front == Front::Finished(
            Err(WebsocketError::SerializationError(error)),
        ),
        event matches OutgoingEvent::Sent(Err(error)) ==> next.front == Front::Finished(
            Err(WebsocketError::AxumError(error)),
        ),
        forall|later: OutgoingEvent| !next.awaits(later),
{
}

/// Writing to a client goes on after a message that was sent and after one that could not be
/// serialised, and after nothing else.
pub proof fn law_writing_goes_on(error: serde_json::Error, broken: axum::Error)
    ensures
        writes_on(WriterInput::Sent(Ok(()))),
        writes_on(WriterInput::Sent(Err(WebsocketError::SerializationError(error)))),
        !writes_on(WriterInput::Sent(Err(WebsocketError::AxumError(broken)))),
        !writes_on(WriterInput::ReceiveFailed),
{
}

/// Every message that can be parsed is handed on, exactly as it is. Anything else is passed
/// over, and only the end of the connection ends the reading.
pub proof fn law_parsed_messages_are_handed_on<S>(message: MessageToServer<S>)
    ensures
        read_as(SocketInput::Parsed(message)) == SocketAction::Deliver(message),
        read_as(SocketInput::<S>::Unparsable) == SocketAction::<S>::Ignore,
        read_as(SocketInput::<S>::NotBinary) == SocketAction::<S>::Ignore,
        read_as(SocketInput::<S>::ReceiveFailed) == SocketAction::<S>::Ignore,
        read_as(SocketInput::<S>::Closed) == SocketAction::<S>::Stop,
{
}

/// An error of serialisation stays one, and so does one of the websocket.
pub proof fn law_errors_keep_their_kind(error: serde_json::Error, broken: axum::Error)
    ensures
        <WebsocketError as vstd::std_specs::convert::FromSpec<serde_json::Error>>::from_spec(error)
            == WebsocketError::SerializationError(error),
        <WebsocketError as vstd::std_specs::convert::FromSpec<axum::Error>>::from_spec(broken)
            == WebsocketError::AxumError(broken),
        <WebsocketError as vstd::std_specs::convert::FromSpec<
            serde_json::Error,
        >>::obeys_from_spec(),
        <WebsocketError as vstd::std_specs::convert::FromSpec<axum::Error>>::obeys_from_spec(),
{
}

/// A binary message is one byte, 10 for JSON and 20 for an image, and then what it holds,
/// unchanged.
pub proof fn law_one_byte_tells_what_follows(payload: Seq<u8>)
    ensures
        tagged(WebSocketMsgType::JSON, payload)[0] == 10,
        tagged(WebSocketMsgType::BinaryImage, payload)[0] == 20,
        tagged(WebSocketMsgType::JSON, payload).skip(1) == payload,
        tagged(WebSocketMsgType::BinaryImage, payload).skip(1) == payload,
{
    assert(tagged(WebSocketMsgType::JSON, payload).skip(1) =~= payload);
    assert(tagged(WebSocketMsgType::BinaryImage, payload).skip(1) =~= payload);
}

/// An image goes as what is known of it and then its data, and any message but images goes as
/// it is.
pub proof fn law_image_goes_in_two_parts(image: Image, message: MessageToClient)
    ensures
        parts_of(MessageToClient::Image(image)) == seq![
            Part::Info(
                ImageInfo { id: image.id, mime_type: image.mime_type, source: image.source },
            ),
            Part::Data(image.data),
        ],
        !(message is Image) && !(message is ImageList) ==> parts_of(message) == seq![
            Part::Message(message),
        ],
{
}

/// Several images go one after the other, the last one first, each as what is known of it and
/// then its data; none is left out and nothing else goes.
pub proof fn law_last_image_goes_first(images: Vec<Image>)
    ensures
        parts_of(MessageToClient::ImageList(images)).len() == 2 * images@.len(),
        forall|i: int|
            0 <= i < images@.len() ==> {
                let image = #[trigger] images@[i];
                let at = 2 * (images@.len() - 1 - i);
                let parts = parts_of(MessageToClient::ImageList(images));
                &&& parts[at] == Part::Info(
                    ImageInfo { id: image.id, mime_type: image.mime_type, source: image.source },
                )
                &&& parts[at + 1] == Part::Data(image.data)
            },
{
    lemma_images_go_in_turn(images@);
}

/// The parts of several images by their places.
proof fn lemma_images_go_in_turn(images: Seq<Image>)
    ensures
        image_list_parts(images).len() == 2 * images.len(),
        forall|i: int|
            0 <= i < images.len() ==> {
                let image = #[trigger] images[i];
                let at = 2 * (images.len() - 1 - i);
                &&& image_list_parts(images)[at] == Part::Info(
                    ImageInfo { id: image.id, mime_type: image.mime_type, source: image.source },
                )
                &&& image_list_parts(images)[at + 1] == Part::Data(image.data)
            },
    decreases images.len(),
{
    if images.len() > 0 {
        let earlier = images.drop_last();
        lemma_images_go_in_turn(earlier);
        assert forall|i: int| 0 <= i < images.len() implies ({
            let image = #[trigger] images[i];
            let at = 2 * (images.len() - 1 - i);
            &&& image_list_parts(images)[at] == Part::Info(
                ImageInfo { id: image.id, mime_type: image.mime_type, source: image.source },
            )
            &&& image_list_parts(images)[at + 1] == Part::Data(image.data)
        }) by {
            if i < earlier.len() {
                assert(earlier[i] == images[i]);
                let at = 2 * (earlier.len() - 1 - i);
                assert(image_list_parts(images)[at + 2] == image_list_parts(earlier)[at]);
                assert(image_list_parts(images)[at + 3] == image_list_parts(earlier)[at + 1]);
            }
        }
    }
}

/// A message that is to go to a client holds all of its parts: the first one comes next, with
/// the data of an image behind the byte 20, and the others wait in their order. With no parts
/// it is done.
pub proof fn law_message_starts_with_its_first_part(outgoing: Outgoing, parts: Seq<Part>)
    requires
        outgoing.is_at(parts),
    ensures
        parts.len() == 0 ==> outgoing.front == Front::Finished(Ok(())) && outgoing.rest@.len() == 0,
        parts.len() > 0 ==> {
            &&& parts[0] matches Part::Info(info) ==> outgoing.front == Front::Info(info)
            &&& parts[0] matches Part::Message(message) ==> outgoing.front == Front::Message(message)
            &&& parts[0] matches Part::Data(data) ==> {
                &&& outgoing.front is Bytes
                &&& outgoing.front->Bytes_0@ == seq![20u8] + data@
            }
            &&& outgoing.rest@.len() == parts.len() - 1
            &&& forall|i: int|
                0 < i < parts.len() ==> #[trigger] parts[i] == outgoing.rest@[parts.len() - 1 - i]
        },
{
    if parts.len() == 0 {
        assert(outgoing.remaining().len() == outgoing.rest@.len());
    } else {
        assert(outgoing.remaining().len() == outgoing.rest@.len());
        assert forall|i: int| 0 < i < parts.len() implies #[trigger] parts[i]
            == outgoing.rest@[parts.len() - 1 - i] by {
            assert(outgoing.remaining()[i - 1] == parts.skip(1)[i - 1]);
        }
    }
}

/// A JSON text goes out behind the byte 10, while the other parts wait as they are. What was
/// sent makes room for the part that waits at the end, and with none waiting the message is
/// done.
pub proof fn law_parts_take_their_turn(
    outgoing: Outgoing,
    json: Vec<u8>,
    encoded: Outgoing,
    sent: Outgoing,
)
    requires
        outgoing.becomes(OutgoingEvent::Encoded(Ok(json)), encoded),
        outgoing.becomes(OutgoingEvent::Sent(Ok(())), sent),
    ensures
        encoded.rest == outgoing.rest,
        encoded.front is Bytes,
        encoded.front->Bytes_0@ == seq![10u8] + json@,
        outgoing.rest@.len() == 0 ==> sent.front == Front::Finished(Ok(())) && sent.rest@.len()
            == 0,
        outgoing.rest@.len() > 0 ==> {
            &&& sent.rest@ == outgoing.rest@.drop_last()
            &&& outgoing.rest@.last() matches Part::Info(info) ==> sent.front == Front::Info(info)
            &&& outgoing.rest@.last() matches Part::Message(message) ==> sent.front
                == Front::Message(message)
            &&& outgoing.rest@.last() matches Part::Data(data) ==> {
                &&& sent.front is Bytes
                &&& sent.front->Bytes_0@ == seq![20u8] + data@
            }
        },
{
    let waiting = outgoing.remaining();
    assert(waiting.len() == outgoing.rest@.len());
    law_message_starts_with_its_first_part(sent, waiting);
    if waiting.len() > 0 {
        assert(waiting[0] == outgoing.rest@.last());
        assert forall|i: int| 0 <= i < sent.rest@.len() implies sent.rest@[i] == outgoing.rest@[i] by {
            let at = waiting.len() - 1 - i;
            assert(waiting[at] == sent.rest@[waiting.len() - 1 - at]);
        }
        assert(sent.rest@ =~= outgoing.rest@.drop_last());
    }
}

/// A message asks for exactly what comes next, and waits for the answer to that alone.
pub proof fn law_message_asks_for_what_comes_next(
    rest: Vec<Part>,
    info: ImageInfo,
    message: MessageToClient,
    bytes: Vec<u8>,
    outcome: Result<(), WebsocketError>,
    event: OutgoingEvent,
)
    ensures
        ({
            let at_info = Outgoing { front: Front::Info(info), rest };
            let at_message = Outgoing { front: Front::Message(message), rest };
            let at_bytes = Outgoing { front: Front::Bytes(bytes), rest };
            let at_end = Outgoing { front: Front::Finished(outcome), rest };
            &&& at_info.request_of() == OutgoingRequest::EncodeInfo(&info)
            &&& at_message.request_of() == OutgoingRequest::EncodeMessage(&message)
            &&& at_bytes.request_of() == OutgoingRequest::Send(&bytes)
            &&& at_end.request_of() == OutgoingRequest::Finish(&outcome)
            &&& at_info.awaits(event) <==> event is Encoded
            &&& at_message.awaits(event) <==> event is Encoded
            &&& at_bytes.awaits(event) <==> event is Sent
            &&& !at_end.awaits(event)
        }),
{
}

} // verus!

//! The frames in which messages travel to and from the post-processing server: four bytes
//! with the length of the message, most significant byte first, and the message.

use vstd::prelude::*;

verus! {

/// The number that four bytes make, most significant byte first.
pub open spec fn big_endian(bytes: Seq<u8>) -> nat {
    (bytes[0] * 0x100_0000 + bytes[1] * 0x1_0000 + bytes[2] * 0x100 + bytes[3]) as nat
}

/// The four bytes that say a length. A length is counted modulo `2^32`.
pub open spec fn header_of(len: nat) -> Seq<u8> {
    let counted = len % 0x1_0000_0000;
    seq![
        (counted / 0x100_0000) as u8,
        (counted / 0x1_0000 % 0x100) as u8,
        (counted / 0x100 % 0x100) as u8,
        (counted % 0x100) as u8,
    ]
}

/// A message in its frame.
pub open spec fn framed(message: Seq<u8>) -> Seq<u8> {
    header_of(message.len()) + message
}

/// The first message of a stream of frames and the stream behind it, once it is all there.
pub open spec fn unframed(stream: Seq<u8>) -> Option<(Seq<u8>, Seq<u8>)> {
    let len = big_endian(stream.take(4));
    if stream.len() < 4 || stream.len() < 4 + len {
        None
    } else {
        Some((stream.subrange(4, 4 + len as int), stream.skip(4 + len as int)))
    }
}

/// The bytes that go before a message of this length.
pub fn frame_header(len: usize) -> (header: [u8; 4])
    ensures
        header@ == header_of(len as nat),
{
    let len: u64 = len as u64;
    let counted: u32 = #[verifier::truncate] (len as u32);
    assert(len as u32 == len % 0x1_0000_0000) by (bit_vector);
    let header = [
        (counted / 0x100_0000) as u8,
        (counted / 0x1_0000 % 0x100) as u8,
        (counted / 0x100 % 0x100) as u8,
        (counted % 0x100) as u8,
    ];
    assert(header@ =~= header_of(len as nat));
    header
}

/// The length of the message that follows these bytes.
pub fn frame_len(header: [u8; 4]) -> (len: usize)
    ensures
        len == big_endian(header@),
{
    let len: u32 = header[0] as u32 * 0x100_0000 + header[1] as u32 * 0x1_0000 + header[2] as u32
        * 0x100 + header[3] as u32;
    len as usize
}

/// Puts a message in its frame.
pub fn frame(message: Vec<u8>) -> (bytes: Vec<u8>)
    ensures
        bytes@ == framed(message@),
{
    let ghost given = message@;
    let header = frame_header(message.len());
    let mut bytes: Vec<u8> = Vec::new();
    bytes.push(header[0]);
    bytes.push(header[1]);
    bytes.push(header[2]);
    bytes.push(header[3]);
    assert(bytes@ =~= header_of(given.len()));
    let mut message = message;
    bytes.append(&mut message);
    bytes
}

/// Takes the first message out of a stream of frames: the message and the stream behind it,
/// or nothing while it is not all there.
pub fn unframe(stream: Vec<u8>) -> (taken: Option<(Vec<u8>, Vec<u8>)>)
    ensures
        match taken {
            Some((message, rest)) => unframed(stream@) == Some((message@, rest@)),
            None => unframed(stream@) is None,
        },
{
    let ghost whole = stream@;
    if stream.len() < 4 {
        return None;
    }
    let header = [stream[0], stream[1], stream[2], stream[3]];
    assert(header@ =~= whole.take(4));
    let len: usize = frame_len(header);
    if stream.len() - 4 < len {
        return None;
    }
    let mut stream = stream;
    let mut message = stream.split_off(4);
    let rest = message.split_off(len);
    assert(message@ =~= whole.subrange(4, 4 + len as int));
    assert(rest@ =~= whole.skip(4 + len as int));
    Some((message, rest))
}

/// A length of less than `2^32` is read as it was written.
pub proof fn law_length_comes_back(len: nat)
    requires
        len < 0x1_0000_0000,
    ensures
        big_endian(header_of(len)) == len,
{
}

/// A message of less than `2^32` bytes is read from a stream as it was written there, and
/// what follows it is left in the stream.
pub proof fn law_message_comes_back(message: Seq<u8>, rest: Seq<u8>)
    requires
        message.len() < 0x1_0000_0000,
    ensures
        unframed(framed(message) + rest) == Some((message, rest)),
{
    let stream = framed(message) + rest;
    law_length_comes_back(message.len());
    assert(stream.take(4) =~= header_of(message.len()));
    assert(stream.subrange(4, 4 + message.len() as int) =~= message);
    assert(stream.skip(4 + message.len() as int) =~= rest);
}

/// Messages in their frames, one behind the other.
pub open spec fn all_framed(messages: Seq<Seq<u8>>) -> Seq<u8>
    decreases messages.len(),
{
    if messages.len() == 0 {
        Seq::empty()
    } else {
        framed(messages[0]) + all_framed(messages.drop_first())
    }
}

/// The first messages of a stream of frames, as many as are asked for.
pub open spec fn all_unframed(stream: Seq<u8>, count: nat) -> Option<Seq<Seq<u8>>>
    decreases count,
{
    if count == 0 {
        Some(Seq::empty())
    } else {
        match unframed(stream) {
            None => None,
            Some((message, rest)) => match all_unframed(rest, (count - 1) as nat) {
                None => None,
                Some(messages) => Some(seq![message] + messages),
            },
        }
    }
}

/// Messages of less than `2^32` bytes each are read from a stream as they were written
/// there, and in that order.
pub proof fn law_messages_come_back_in_order(messages: Seq<Seq<u8>>)
    requires
        forall|i: int|
            0 <= i < messages.len() ==> (#[trigger] messages[i]).len() < 0x1_0000_0000,
    ensures
        all_unframed(all_framed(messages), messages.len()) == Some(messages),
    decreases messages.len(),
{
    if messages.len() == 0 {
        assert(messages =~= Seq::empty());
    } else {
        let rest = messages.drop_first();
        assert forall|i: int| 0 <= i < rest.len() implies (#[trigger] rest[i]).len()
            < 0x1_0000_0000 by {
            assert(messages[i + 1].len() < 0x1_0000_0000);
        }
        law_messages_come_back_in_order(rest);
        law_message_comes_back(messages[0], all_framed(rest));
        assert(seq![messages[0]] + rest =~= messages);
    }
}

/// The four bytes before a message make its length modulo `2^32`, the first byte counting most;
/// they are read in the same way.
pub proof fn law_first_byte_counts_most(len: nat, bytes: Seq<u8>)
    ensures
        header_of(len).len() == 4,
        header_of(len)[0] * 0x100_0000 + header_of(len)[1] * 0x1_0000 + header_of(len)[2] * 0x100
            + header_of(len)[3] == len % 0x1_0000_0000,
        big_endian(bytes) == bytes[0] * 0x100_0000 + bytes[1] * 0x1_0000 + bytes[2] * 0x100
            + bytes[3],
{
}

/// A frame is the four bytes of the length and then the message itself, unchanged.
pub proof fn law_frame_is_length_and_message(message: Seq<u8>)
    ensures
        framed(message).len() == message.len() + 4,
        framed(message).subrange(0, 4) == header_of(message.len()),
        framed(message).skip(4) == message,
{
    assert(framed(message).subrange(0, 4) =~= header_of(message.len()));
    assert(framed(message).skip(4) =~= message);
}

/// A stream gives up its first message exactly when that is all there: as many bytes behind
/// the first four as these say. The message and what follows it are the bytes of the stream
/// behind the first four.
pub proof fn law_stream_gives_up_whole_messages(stream: Seq<u8>)
    ensures
        stream.len() < 4 ==> unframed(stream) is None,
        stream.len() >= 4 ==> (unframed(stream) is Some <==> stream.len() - 4 >= stream[0]
            * 0x100_0000 + stream[1] * 0x1_0000 + stream[2] * 0x100 + stream[3]),
        unframed(stream) matches Some((message, rest)) ==> {
            &&& message.len() == stream[0] * 0x100_0000 + stream[1] * 0x1_0000 + stream[2] * 0x100
                + stream[3]
            &&& message + rest == stream.skip(4)
        },
{
    if unframed(stream) is Some {
        let (message, rest) = unframed(stream)->0;
        assert(message + rest =~= stream.skip(4));
    }
}

} // verus!

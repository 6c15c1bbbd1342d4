//! Finding where the server's messages end in its byte stream.
//!
//! The protocol has no length prefix: a message is complete once the bytes
//! read so far end with the closing tag of a room envelope, or hold the
//! opening of a left notice.
use vstd::prelude::*;
use vstd::utf8::{decode_utf8, valid_utf8};

use crate::error::Error;
use crate::text::{bytes_contain, bytes_end_with, bytes_start_with, contains_seq, ends_with, starts_with, utf8_text};

verus! {

/// The byte of a line break.
pub const LINE_FEED: u8 = 10;

/// The ASCII bytes of `</room>`.
pub open spec fn room_close() -> Seq<u8> {
    seq![60u8, 47u8, 114u8, 111u8, 111u8, 109u8, 62u8]
}

/// The ASCII bytes of `<left roomId="`.
pub open spec fn left_open() -> Seq<u8> {
    seq![60u8, 108u8, 101u8, 102u8, 116u8, 32u8, 114u8, 111u8, 111u8, 109u8, 73u8, 100u8, 61u8, 34u8]
}

/// The ASCII bytes of `<protocol>`.
pub open spec fn protocol_marker() -> Seq<u8> {
    seq![60u8, 112u8, 114u8, 111u8, 116u8, 111u8, 99u8, 111u8, 108u8, 62u8]
}

/// Whether the bytes read so far hold a complete message.
pub open spec fn frame_complete(b: Seq<u8>) -> bool {
    ends_with(b, room_close()) || contains_seq(b, left_open())
}

/// A complete message wrapped in one top-level element, so that it parses
/// as a single document.
pub open spec fn envelope(text: Seq<char>) -> Seq<char> {
    "<received>"@ + text + "</received>"@
}

/// What follows the protocol marker in the server's first response, without
/// the line break that may follow the marker.
pub open spec fn after_marker(b: Seq<u8>) -> Seq<u8> {
    let rest = b.subrange(protocol_marker().len() as int, b.len() as int);
    if rest.len() > 0 && rest[0] == LINE_FEED {
        rest.drop_first()
    } else {
        rest
    }
}

fn room_close_bytes() -> (r: Vec<u8>)
    ensures
        r@ == room_close(),
{
    let r = vec![60u8, 47u8, 114u8, 111u8, 111u8, 109u8, 62u8];
    assert(r@ =~= room_close());
    r
}

fn left_open_bytes() -> (r: Vec<u8>)
    ensures
        r@ == left_open(),
{
    let r = vec![60u8, 108u8, 101u8, 102u8, 116u8, 32u8, 114u8, 111u8, 111u8, 109u8, 73u8, 100u8, 61u8, 34u8];
    assert(r@ =~= left_open());
    r
}

fn protocol_marker_bytes() -> (r: Vec<u8>)
    ensures
        r@ == protocol_marker(),
{
    let r = vec![60u8, 112u8, 114u8, 111u8, 116u8, 111u8, 99u8, 111u8, 108u8, 62u8];
    assert(r@ =~= protocol_marker());
    r
}

/// Whether `buffer` holds a complete message: it ends with `</room>` or
/// holds `<left roomId="`.
pub fn is_message_complete(buffer: &[u8]) -> (r: bool)
    ensures
        r == frame_complete(buffer@),
{
    let close = room_close_bytes();
    if bytes_end_with(buffer, close.as_slice()) {
        return true;
    }
    let left = left_open_bytes();
    bytes_contain(buffer, left.as_slice())
}

/// Wraps the text of a complete message in a `<received>` element.
pub fn wrap_envelope(text: &str) -> (r: String)
    ensures
        r@ == envelope(text@),
{
    let mut r = String::from_str("<received>");
    r.append(text);
    r.append("</received>");
    assert(r@ =~= envelope(text@));
    r
}

/// Checks that the server's first response begins with `<protocol>` and
/// returns the text after it (and after a line break right behind it).
pub fn strip_protocol_marker(response: &[u8]) -> (r: Result<String, Error>)
    ensures
        !starts_with(response@, protocol_marker()) ==> (r matches Err(Error::MissingProtocolMarker(v))
            && v@ == response@),
        starts_with(response@, protocol_marker()) && !valid_utf8(after_marker(response@)) ==> r
            == Err::<String, Error>(Error::InvalidUtf8),
        starts_with(response@, protocol_marker()) && valid_utf8(after_marker(response@)) ==> (r matches Ok(s)
            && s@ == decode_utf8(after_marker(response@))),
{
    let marker = protocol_marker_bytes();
    if !bytes_start_with(response, marker.as_slice()) {
        let mut copy: Vec<u8> = Vec::new();
        copy.extend_from_slice(response);
        assert(copy@ =~= response@);
        return Err(Error::MissingProtocolMarker(copy));
    }
    let mut start = marker.len();
    if start < response.len() && response[start] == LINE_FEED {
        start = start + 1;
    }
    let mut rest: Vec<u8> = Vec::new();
    let mut i = start;
    while i < response.len()
        invariant
            start <= i <= response@.len(),
            rest@ == response@.subrange(start as int, i as int),
        decreases response@.len() - i,
    {
        rest.push(response[i]);
        i = i + 1;
        assert(rest@ =~= response@.subrange(start as int, i as int));
    }
    assert(rest@ =~= after_marker(response@));
    match utf8_text(rest) {
        Some(s) => Ok(s),
        None => Err(Error::InvalidUtf8),
    }
}

/// How feeding bytes to a [`MessageAccumulator`] ended.
#[derive(Debug, Clone, PartialEq, Eq)]
pub enum FrameStatus {
    /// More bytes are needed.
    Incomplete,
    /// A complete message, wrapped by [`wrap_envelope`].
    Complete(String),
    /// A complete message whose bytes are not valid UTF-8.
    Malformed,
}

/// Collects the bytes of one message from reads of any size.
pub struct MessageAccumulator {
    pub buffer: Vec<u8>,
}

impl MessageAccumulator {
    pub fn new() -> (r: MessageAccumulator)
        ensures
            r.buffer@ == Seq::<u8>::empty(),
    {
        MessageAccumulator { buffer: Vec::new() }
    }

    /// Appends `chunk` to the bytes held so far. Once they form a complete
    /// message, hands it out and starts over with no bytes.
    pub fn feed(&mut self, chunk: &[u8]) -> (r: FrameStatus)
        ensures
            ({
                let b = old(self).buffer@ + chunk@;
                if !frame_complete(b) {
                    r == FrameStatus::Incomplete && final(self).buffer@ == b
                } else {
                    &&& final(self).buffer@ == Seq::<u8>::empty()
                    &&& valid_utf8(b) ==> (r matches FrameStatus::Complete(s) && s@ == envelope(decode_utf8(b)))
                    &&& !valid_utf8(b) ==> r == FrameStatus::Malformed
                }
            }),
    {
        let mut i: usize = 0;
        while i < chunk.len()
            invariant
                i <= chunk@.len(),
                self.buffer@ == old(self).buffer@ + chunk@.subrange(0, i as int),
            decreases chunk@.len() - i,
        {
            self.buffer.push(chunk[i]);
            i = i + 1;
            assert(self.buffer@ =~= old(self).buffer@ + chunk@.subrange(0, i as int));
        }
        assert(chunk@.subrange(0, chunk@.len() as int) =~= chunk@);
        if !is_message_complete(self.buffer.as_slice()) {
            return FrameStatus::Incomplete;
        }
        let mut bytes: Vec<u8> = Vec::new();
        std::mem::swap(&mut bytes, &mut self.buffer);
        match utf8_text(bytes) {
            Some(text) => FrameStatus::Complete(wrap_envelope(text.as_str())),
            None => FrameStatus::Malformed,
        }
    }
}

/// Whatever came before, bytes that end with `</room>` form a complete message.
pub proof fn lemma_room_close_completes(prefix: Seq<u8>)
    ensures
        frame_complete(prefix + room_close()),
{
    let b = prefix + room_close();
    assert(b.subrange(b.len() - room_close().len(), b.len() as int) =~= room_close());
}

} // verus!

//! The binary frame: a message-type id in two little-endian bytes, then the
//! serialized payload. The WebSocket message delimits the frame, so there is
//! no length field.

use vstd::prelude::*;

verus! {

/// The two bytes that carry a message-type id, low byte first.
pub open spec fn le16(id: u16) -> Seq<u8> {
    seq![(id % 256) as u8, (id / 256) as u8]
}

/// The bytes of the binary frame that carries `payload` under `id`.
pub open spec fn binary_frame(id: u16, payload: Seq<u8>) -> Seq<u8> {
    le16(id) + payload
}

/// What a binary frame decodes to: `None` where it is too short to hold an id.
pub open spec fn binary_frame_parts(frame: Seq<u8>) -> Option<(u16, Seq<u8>)> {
    if frame.len() < 2 {
        None
    } else {
        Some(((frame[0] as int + 256 * (frame[1] as int)) as u16, frame.subrange(2, frame.len() as int)))
    }
}

/// A request on its way out: the id of its message type and its serialized
/// payload.
#[derive(Debug, Clone)]
pub struct OutboundFrame {
    pub message_type_id: u16,
    pub payload_bytes: Vec<u8>,
}

/// Why a binary frame could not be decoded.
#[derive(Debug, Clone, Copy, PartialEq, Eq, Structural)]
pub enum DecodeError {
    /// The frame has fewer than the two bytes of a message-type id.
    TooShort,
}

impl OutboundFrame {
    /// The bytes of the frame on the wire.
    pub open spec fn wire(&self) -> Seq<u8> {
        binary_frame(self.message_type_id, self.payload_bytes@)
    }

    /// The frame as it goes on the wire: two bytes more than the payload.
    pub fn to_bytes(&self) -> (bytes: Vec<u8>)
        ensures
            bytes@ == self.wire(),
            bytes@.len() == 2 + self.payload_bytes@.len(),
    {
        encode_binary(self.message_type_id, self.payload_bytes.as_slice())
    }
}

/// Frames `payload` under `message_type_id`.
pub fn encode_binary(message_type_id: u16, payload: &[u8]) -> (frame: Vec<u8>)
    ensures
        frame@ == binary_frame(message_type_id, payload@),
{
    let mut frame: Vec<u8> = Vec::new();
    frame.push((message_type_id % 256) as u8);
    frame.push((message_type_id / 256) as u8);
    frame.extend_from_slice(payload);
    frame
}

/// Takes a binary frame apart: the message-type id of its first two bytes and
/// the payload that follows. The payload is not looked into; which schema it
/// has is for the caller to find from the id.
pub fn decode_binary(frame: &[u8]) -> (parts: Result<(u16, Vec<u8>), DecodeError>)
    ensures
        match binary_frame_parts(frame@) {
            Some((id, payload)) => parts matches Ok((got_id, got_payload)) && got_id == id
                && got_payload@ == payload,
            None => parts == Err::<(u16, Vec<u8>), DecodeError>(DecodeError::TooShort),
        },
{
    let length = frame.len();
    if length < 2 {
        return Err(DecodeError::TooShort);
    }
    let low: u16 = frame[0] as u16;
    let high: u16 = frame[1] as u16;
    let id: u16 = low + 256 * high;
    let mut payload: Vec<u8> = Vec::new();
    let mut index: usize = 2;
    while index < length
        invariant
            2 <= index <= length,
            length == frame@.len(),
            payload@ == frame@.subrange(2, index as int),
        decreases length - index,
    {
        payload.push(frame[index]);
        index = index + 1;
    }
    Ok((id, payload))
}

/// Decoding undoes encoding: the frame of an id and a payload decodes to that
/// id and that payload.
pub proof fn lemma_binary_roundtrip(id: u16, payload: Seq<u8>)
    ensures
        binary_frame_parts(binary_frame(id, payload)) == Some((id, payload)),
{
}

/// Encoding undoes decoding: a frame that decodes is the frame of its parts,
/// so no two frames decode alike.
pub proof fn lemma_binary_frame_of_parts(frame: Seq<u8>)
    requires
        frame.len() >= 2,
    ensures
        binary_frame_parts(frame) matches Some((id, payload)) && binary_frame(id, payload) == frame,
{
}

} // verus!

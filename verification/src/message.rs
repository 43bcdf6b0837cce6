//! The wire protocol: a binary framing of two message kinds, a user
//! payload carrying an opaque byte buffer and a correlation id, and an
//! acknowledgment carrying the id being acknowledged.
//!
//! A frame is self-describing: a tag byte, a fixed-width little-endian
//! 128-bit correlation id, and, for payloads, a little-endian 64-bit length
//! prefix followed by the data.  A correlation id of zero means
//! fire-and-forget: no acknowledgment is expected.  Decoding rejects
//! truncated and malformed frames with an error, never a panic.

use vstd::prelude::*;
use vstd::bytes::{
    lemma_auto_spec_u128_to_from_le_bytes, lemma_auto_spec_u64_to_from_le_bytes,
    spec_u128_from_le_bytes, spec_u128_to_le_bytes, spec_u64_from_le_bytes, spec_u64_to_le_bytes,
    u128_from_le_bytes, u128_to_le_bytes, u64_from_le_bytes, u64_to_le_bytes,
};
use vstd::slice::{slice_subrange, slice_to_vec};
use crate::byteutil::append_bytes;

verus! {

/// Tag byte opening a payload frame.
pub const PAYLOAD_TAG: u8 = 0;

/// Tag byte opening an acknowledgment frame.
pub const ACK_TAG: u8 = 1;

/// Byte length of a whole acknowledgment frame: tag plus id.
pub const ACK_FRAME_LENGTH: usize = 17;

/// Byte length of a payload frame's header: tag, id, length prefix.
pub const PAYLOAD_HEADER_LENGTH: usize = 25;

/// A user payload: an opaque byte buffer and its correlation id.  An id of
/// zero requests no acknowledgment.
#[derive(Debug)]
pub struct PayloadMsg {
    pub id: u128,
    pub data: Vec<u8>,
}

/// A wire-level message: either a user payload or an acknowledgment of one.
#[derive(Debug)]
pub enum Message {
    Payload(PayloadMsg),
    ACK(u128),
}

/// The mathematical value of a wire-level message.
pub enum MessageModel {
    Payload { id: u128, data: Seq<u8> },
    Ack { id: u128 },
}

impl View for Message {
    type V = MessageModel;

    open spec fn view(&self) -> MessageModel {
        match self {
            Message::Payload(p) => MessageModel::Payload { id: p.id, data: p.data@ },
            Message::ACK(id) => MessageModel::Ack { id: *id },
        }
    }
}

/// A message whose data fits the 64-bit length prefix.  Every message built
/// from an in-memory buffer satisfies this.
pub open spec fn model_wf(m: MessageModel) -> bool {
    match m {
        MessageModel::Payload { id, data } => data.len() <= u64::MAX,
        MessageModel::Ack { id } => true,
    }
}

/// The byte encoding of a message.
pub open spec fn spec_encode(m: MessageModel) -> Seq<u8>
    recommends
        model_wf(m),
{
    match m {
        MessageModel::Payload { id, data } => seq![PAYLOAD_TAG] + spec_u128_to_le_bytes(id)
            + spec_u64_to_le_bytes(data.len() as u64) + data,
        MessageModel::Ack { id } => seq![ACK_TAG] + spec_u128_to_le_bytes(id),
    }
}

/// The message a byte buffer decodes to, or nothing if the buffer is not a
/// well-formed frame.
pub open spec fn spec_decode(b: Seq<u8>) -> Option<MessageModel> {
    if b.len() == 0 {
        None
    } else if b[0] == ACK_TAG {
        if b.len() == ACK_FRAME_LENGTH {
            Some(
                MessageModel::Ack {
                    id: spec_u128_from_le_bytes(b.subrange(1, ACK_FRAME_LENGTH as int)),
                },
            )
        } else {
            None
        }
    } else if b[0] == PAYLOAD_TAG {
        if b.len() >= PAYLOAD_HEADER_LENGTH && spec_u64_from_le_bytes(b.subrange(17, 25)) == b.len()
            - PAYLOAD_HEADER_LENGTH {
            Some(
                MessageModel::Payload {
                    id: spec_u128_from_le_bytes(b.subrange(1, 17)),
                    data: b.subrange(PAYLOAD_HEADER_LENGTH as int, b.len() as int),
                },
            )
        } else {
            None
        }
    } else {
        None
    }
}

/// Why a byte buffer was rejected by the decoder.
#[derive(Debug, Clone, Copy, PartialEq, Eq, Structural)]
pub enum DecodeError {
    /// The buffer is empty.
    EmptyFrame,
    /// The first byte is neither the payload nor the acknowledgment tag.
    UnknownTag,
    /// The buffer's length does not agree with its tag and length prefix.
    LengthMismatch,
}

/// The error a malformed byte buffer is rejected with.
pub open spec fn spec_decode_error(b: Seq<u8>) -> DecodeError
    recommends
        spec_decode(b) is None,
{
    if b.len() == 0 {
        DecodeError::EmptyFrame
    } else if b[0] != ACK_TAG && b[0] != PAYLOAD_TAG {
        DecodeError::UnknownTag
    } else {
        DecodeError::LengthMismatch
    }
}

impl Message {
    /// Builds a fire-and-forget payload: correlation id zero, no
    /// acknowledgment expected.
    pub fn new_message(data: Vec<u8>) -> (r: Message)
        ensures
            r@ == (MessageModel::Payload { id: 0u128, data: data@ }),
    {
        Message::Payload(PayloadMsg { id: 0, data })
    }

    /// Wraps a buffer in a payload carrying the given fresh correlation id.
    ///
    /// The id must be non-zero: zero is reserved on the wire for
    /// fire-and-forget payloads.  Id allocation itself is the sending
    /// service's job, which guarantees collision-freedom among outstanding
    /// acknowledged sends.
    pub fn new_payload(data: Vec<u8>, id: u128) -> (r: Message)
        requires
            id != 0,
        ensures
            r@ == (MessageModel::Payload { id, data: data@ }),
    {
        Message::Payload(PayloadMsg { id, data })
    }

    /// Encodes the message into a wire frame.
    pub fn into_bytes(self) -> (r: Vec<u8>)
        ensures
            r@ == spec_encode(self@),
    {
        match self {
            Message::Payload(p) => {
                let mut out: Vec<u8> = Vec::new();
                out.push(PAYLOAD_TAG);
                let id_bytes = u128_to_le_bytes(p.id);
                append_bytes(&mut out, &id_bytes);
                let len_bytes = u64_to_le_bytes(p.data.len() as u64);
                append_bytes(&mut out, &len_bytes);
                append_bytes(&mut out, &p.data);
                assert(out@ =~= spec_encode(
                    MessageModel::Payload { id: p.id, data: p.data@ },
                ));
                out
            },
            Message::ACK(id) => {
                let mut out: Vec<u8> = Vec::new();
                out.push(ACK_TAG);
                let id_bytes = u128_to_le_bytes(id);
                append_bytes(&mut out, &id_bytes);
                assert(out@ =~= spec_encode(MessageModel::Ack { id }));
                out
            },
        }
    }

    /// Decodes a wire frame.
    ///
    /// Returns the decoded message exactly when the buffer is a well-formed
    /// frame, and otherwise the reason it is not; a malformed frame is an
    /// error value, never a panic.
    pub fn from_bytes(bytes: &[u8]) -> (r: Result<Message, DecodeError>)
        ensures
            match r {
                Ok(m) => spec_decode(bytes@) == Some(m@),
                Err(e) => spec_decode(bytes@) is None && e == spec_decode_error(bytes@),
            },
    {
        let n = bytes.len();
        if n == 0 {
            return Err(DecodeError::EmptyFrame);
        }
        let tag = *vstd::slice::slice_index_get(bytes, 0);
        if tag == ACK_TAG {
            if n == ACK_FRAME_LENGTH {
                let id = u128_from_le_bytes(slice_subrange(bytes, 1, ACK_FRAME_LENGTH));
                Ok(Message::ACK(id))
            } else {
                Err(DecodeError::LengthMismatch)
            }
        } else if tag == PAYLOAD_TAG {
            if n < PAYLOAD_HEADER_LENGTH {
                return Err(DecodeError::LengthMismatch);
            }
            let declared = u64_from_le_bytes(slice_subrange(bytes, 17, 25));
            if declared != (n - PAYLOAD_HEADER_LENGTH) as u64 {
                return Err(DecodeError::LengthMismatch);
            }
            let id = u128_from_le_bytes(slice_subrange(bytes, 1, 17));
            let data = slice_to_vec(slice_subrange(bytes, PAYLOAD_HEADER_LENGTH, n));
            Ok(Message::Payload(PayloadMsg { id, data }))
        } else {
            Err(DecodeError::UnknownTag)
        }
    }
}

/// Law: decoding an encoded message returns the message unchanged, for
/// payloads and acknowledgments alike.
pub proof fn lemma_encode_decode_round_trip(m: MessageModel)
    requires
        model_wf(m),
    ensures
        spec_decode(spec_encode(m)) == Some(m),
{
    lemma_auto_spec_u128_to_from_le_bytes();
    lemma_auto_spec_u64_to_from_le_bytes();
    match m {
        MessageModel::Payload { id, data } => {
            let b = spec_encode(m);
            assert(b.len() == PAYLOAD_HEADER_LENGTH + data.len());
            assert(b[0] == PAYLOAD_TAG);
            assert(b.subrange(1, 17) =~= spec_u128_to_le_bytes(id));
            assert(b.subrange(17, 25) =~= spec_u64_to_le_bytes(data.len() as u64));
            assert(spec_u64_from_le_bytes(b.subrange(17, 25)) == data.len());
            assert(b.subrange(PAYLOAD_HEADER_LENGTH as int, b.len() as int) =~= data);
        },
        MessageModel::Ack { id } => {
            let b = spec_encode(m);
            assert(b.len() == ACK_FRAME_LENGTH);
            assert(b[0] == ACK_TAG);
            assert(b.subrange(1, ACK_FRAME_LENGTH as int) =~= spec_u128_to_le_bytes(id));
        },
    }
}

} // verus!

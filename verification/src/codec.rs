//! The message codec: a fixed 15-byte little-endian header, then the
//! payload, then a trailing signature block of the declared length.

use crate::bytebuf::buf_advance;
use crate::bytebuf::buf_bytes;
use crate::bytebuf::buf_copy_range;
use crate::bytebuf::buf_extend;
use crate::bytebuf::buf_len;
use crate::bytebuf::buf_reserve;
use crate::wire::le16_push;
use crate::wire::le16_read;
use crate::wire::le32_push;
use crate::wire::le32_read;
use crate::wire::lemma_le16_round;
use crate::wire::lemma_le32_round;
use crate::wire::le16_value;
use crate::wire::le32_value;
use crate::wire::le16_bytes;
use crate::wire::le32_bytes;
use bytes::BytesMut;
use vstd::prelude::*;

verus! {

/// The number of bytes in the fixed header: 4 (signature_length),
/// 1 (version), 2 (message_type), 2 (service_id), 4 (payload_length),
/// 2 (encrypted).
pub const HEADER_SIZE: usize = 15;

/// One framed message. `payload_length` is carried opaquely: decode derives
/// the true extent of `data` from the buffered length, never from it.
#[derive(Debug)]
pub struct Message {
    pub signature_length: u32,
    pub version: u8,
    pub message_type: u16,
    pub service_id: u16,
    pub payload_length: u32,
    pub encrypted: u16,
    pub data: Vec<u8>,
    pub signature: Vec<u8>,
}

/// The mathematical value of a `Message`: its byte sequences as `Seq<u8>`.
#[verifier::ext_equal]
pub struct MessageView {
    pub signature_length: u32,
    pub version: u8,
    pub message_type: u16,
    pub service_id: u16,
    pub payload_length: u32,
    pub encrypted: u16,
    pub data: Seq<u8>,
    pub signature: Seq<u8>,
}

impl View for Message {
    type V = MessageView;

    open spec fn view(&self) -> MessageView {
        MessageView {
            signature_length: self.signature_length,
            version: self.version,
            message_type: self.message_type,
            service_id: self.service_id,
            payload_length: self.payload_length,
            encrypted: self.encrypted,
            data: self.data@,
            signature: self.signature@,
        }
    }
}

/// The one checked failure: encode refuses a message whose declared
/// `signature_length` is not the actual signature length.
#[derive(Debug, Clone, Copy, PartialEq, Eq, Structural)]
pub enum CodecError {
    SignatureLengthMismatch,
}

/// The frame a message serializes to: the six header fields little-endian
/// at their fixed offsets, then the payload, then the signature.
pub open spec fn spec_encode(m: MessageView) -> Seq<u8> {
    le32_bytes(m.signature_length) + seq![m.version] + le16_bytes(m.message_type) + le16_bytes(
        m.service_id,
    ) + le32_bytes(m.payload_length) + le16_bytes(m.encrypted) + m.data + m.signature
}

/// The message a frame parses to. The data/signature split sits at the
/// buffered length minus the declared signature length, so `data` absorbs
/// everything between header and signature.
pub open spec fn spec_decode(s: Seq<u8>) -> MessageView {
    let sig_len = le32_value(s[0], s[1], s[2], s[3]) as int;
    MessageView {
        signature_length: le32_value(s[0], s[1], s[2], s[3]),
        version: s[4],
        message_type: le16_value(s[5], s[6]),
        service_id: le16_value(s[7], s[8]),
        payload_length: le32_value(s[9], s[10], s[11], s[12]),
        encrypted: le16_value(s[13], s[14]),
        data: s.subrange(HEADER_SIZE as int, s.len() - sig_len),
        signature: s.subrange(s.len() - sig_len, s.len() as int),
    }
}

/// A buffer decode may run on: once the header is there, the declared
/// signature must fit inside the buffered bytes. On a shorter buffer the
/// split subtraction underflows and the buffer cannot be advanced past its
/// end, so decode leaves that case to its callers to rule out.
pub open spec fn frame_complete(s: Seq<u8>) -> bool {
    s.len() >= HEADER_SIZE ==> HEADER_SIZE + le32_value(s[0], s[1], s[2], s[3]) <= s.len()
}

/// Law: byte order. In every encoded frame each multi-byte header field
/// sits little-endian at its fixed offset, the version byte between them,
/// and the payload and signature follow in full.
pub proof fn lemma_header_layout(m: MessageView)
    ensures
        spec_encode(m).len() == HEADER_SIZE + m.data.len() + m.signature.len(),
        spec_encode(m).subrange(0, 4) == le32_bytes(m.signature_length),
        spec_encode(m)[4] == m.version,
        spec_encode(m).subrange(5, 7) == le16_bytes(m.message_type),
        spec_encode(m).subrange(7, 9) == le16_bytes(m.service_id),
        spec_encode(m).subrange(9, 13) == le32_bytes(m.payload_length),
        spec_encode(m).subrange(13, 15) == le16_bytes(m.encrypted),
        spec_encode(m).subrange(15, HEADER_SIZE + m.data.len()) == m.data,
        spec_encode(m).subrange(HEADER_SIZE + m.data.len(), spec_encode(m).len() as int)
            == m.signature,
{
    let s = spec_encode(m);
    assert(s.subrange(0, 4) =~= le32_bytes(m.signature_length));
    assert(s.subrange(5, 7) =~= le16_bytes(m.message_type));
    assert(s.subrange(7, 9) =~= le16_bytes(m.service_id));
    assert(s.subrange(9, 13) =~= le32_bytes(m.payload_length));
    assert(s.subrange(13, 15) =~= le16_bytes(m.encrypted));
    assert(s.subrange(15, HEADER_SIZE + m.data.len()) =~= m.data);
    assert(s.subrange(HEADER_SIZE + m.data.len(), s.len() as int) =~= m.signature);
}

/// Law: round trip. A message whose declared `signature_length` is its
/// actual signature length comes back field for field when its encoded
/// frame — exactly that frame, nothing more buffered — is decoded; and such
/// a frame satisfies decode's buffering demand.
pub proof fn lemma_round_trip(m: MessageView)
    requires
        m.signature_length == m.signature.len(),
    ensures
        spec_encode(m).len() == HEADER_SIZE + m.data.len() + m.signature.len(),
        frame_complete(spec_encode(m)),
        spec_decode(spec_encode(m)) == m,
{
    let s = spec_encode(m);
    lemma_le32_round(m.signature_length);
    lemma_le16_round(m.message_type);
    lemma_le16_round(m.service_id);
    lemma_le32_round(m.payload_length);
    lemma_le16_round(m.encrypted);
    assert(s[0] == le32_bytes(m.signature_length)[0]);
    assert(s[1] == le32_bytes(m.signature_length)[1]);
    assert(s[2] == le32_bytes(m.signature_length)[2]);
    assert(s[3] == le32_bytes(m.signature_length)[3]);
    assert(s[4] == m.version);
    assert(s[5] == le16_bytes(m.message_type)[0]);
    assert(s[6] == le16_bytes(m.message_type)[1]);
    assert(s[7] == le16_bytes(m.service_id)[0]);
    assert(s[8] == le16_bytes(m.service_id)[1]);
    assert(s[9] == le32_bytes(m.payload_length)[0]);
    assert(s[10] == le32_bytes(m.payload_length)[1]);
    assert(s[11] == le32_bytes(m.payload_length)[2]);
    assert(s[12] == le32_bytes(m.payload_length)[3]);
    assert(s[13] == le16_bytes(m.encrypted)[0]);
    assert(s[14] == le16_bytes(m.encrypted)[1]);
    assert(spec_decode(s).data =~= m.data);
    assert(spec_decode(s).signature =~= m.signature);
    assert(spec_decode(s) =~= m);
}

/// The codec itself holds no state; decode and encode are independent.
pub struct MessageCodec {}

impl MessageCodec {
    pub fn new() -> (c: MessageCodec) {
        MessageCodec {}
    }

    /// Parses one message off the front of `src`. With fewer than
    /// `HEADER_SIZE` bytes buffered it returns `Ok(None)` and touches
    /// nothing: the signal to buffer more bytes and call again. Otherwise it
    /// returns the parsed message and consumes exactly the header, the
    /// payload and the signature — which between them span the whole
    /// buffer, since the payload runs up to the signature boundary.
    /// Callers must have the declared signature fully buffered
    /// (`frame_complete`); decode never reports an error.
    pub fn decode(&mut self, src: &mut BytesMut) -> (r: Result<Option<Message>, CodecError>)
        requires
            frame_complete(buf_bytes(*old(src))),
        ensures
            buf_bytes(*old(src)).len() < HEADER_SIZE ==> r == Ok::<Option<Message>, CodecError>(
                None,
            ) && buf_bytes(*final(src)) == buf_bytes(*old(src)),
            buf_bytes(*old(src)).len() >= HEADER_SIZE ==> (r matches Ok(Some(m))
                && m@ == spec_decode(buf_bytes(*old(src))) && buf_bytes(*final(src))
                == Seq::<u8>::empty() && buf_bytes(*old(src)).len() == HEADER_SIZE + m@.data.len()
                + m@.signature.len()),
    {
        let n = buf_len(src);
        if n < HEADER_SIZE {
            return Ok(None);
        }
        let hdr = buf_copy_range(src, 0, HEADER_SIZE);
        let signature_length = le32_read(hdr[0], hdr[1], hdr[2], hdr[3]);
        let version = hdr[4];
        let message_type = le16_read(hdr[5], hdr[6]);
        let service_id = le16_read(hdr[7], hdr[8]);
        let payload_length = le32_read(hdr[9], hdr[10], hdr[11], hdr[12]);
        let encrypted = le16_read(hdr[13], hdr[14]);

        let delimiter = n - signature_length as usize;
        let data = buf_copy_range(src, HEADER_SIZE, delimiter);
        let signature = buf_copy_range(src, delimiter, n);
        buf_advance(src, n);

        let item = Message {
            signature_length,
            version,
            message_type,
            service_id,
            payload_length,
            encrypted,
            data,
            signature,
        };
        proof {
            assert(buf_bytes(*src) =~= Seq::<u8>::empty());
            assert(item@ =~= spec_decode(buf_bytes(*old(src))));
        }
        Ok(Some(item))
    }

    /// Serializes one message to the back of `dst`: the six header fields
    /// little-endian at their fixed offsets, then the payload, then the
    /// signature — extension only, the bytes already in `dst` stay as they
    /// are. A message whose declared `signature_length` is not the actual
    /// signature length is refused with `dst` untouched.
    pub fn encode(&mut self, item: Message, dst: &mut BytesMut) -> (r: Result<(), CodecError>)
        requires
            buf_bytes(*old(dst)).len() + HEADER_SIZE + item.data@.len() + item.signature@.len()
                <= usize::MAX,
        ensures
            item@.signature_length == item@.signature.len() ==> r == Ok::<(), CodecError>(())
                && buf_bytes(*final(dst)) == buf_bytes(*old(dst)) + spec_encode(item@),
            item@.signature_length != item@.signature.len() ==> r == Err::<(), CodecError>(
                CodecError::SignatureLengthMismatch,
            ) && buf_bytes(*final(dst)) == buf_bytes(*old(dst)),
    {
        if item.signature_length as usize != item.signature.len() {
            return Err(CodecError::SignatureLengthMismatch);
        }

        let ghost m = item@;
        let Message {
            signature_length,
            version,
            message_type,
            service_id,
            payload_length,
            encrypted,
            mut data,
            mut signature,
        } = item;

        let mut frame: Vec<u8> = Vec::new();
        le32_push(&mut frame, signature_length);
        frame.push(version);
        le16_push(&mut frame, message_type);
        le16_push(&mut frame, service_id);
        le32_push(&mut frame, payload_length);
        le16_push(&mut frame, encrypted);
        frame.append(&mut data);
        frame.append(&mut signature);
        proof {
            assert(frame@ =~= spec_encode(m));
        }

        buf_reserve(dst, frame.len());
        buf_extend(dst, frame.as_slice());
        Ok(())
    }
}

} // verus!

//! The envelope codec.  An envelope is a tagged ping or pong carrying the
//! sender's wall-clock time and its version rendered as a string.  The wire
//! form is self-delimiting: a tag byte, the time as eight little-endian
//! bytes, a one-byte length prefix, and the version's UTF-8 bytes.  Encoding
//! is deterministic, and decoding accepts exactly the well-formed frames.

use vstd::bytes::{spec_u64_from_le_bytes, spec_u64_to_le_bytes, u64_from_le_bytes, u64_to_le_bytes};
use vstd::prelude::*;
use vstd::slice::{slice_subrange, slice_to_vec};
use vstd::utf8::{decode_utf8, encode_utf8, encode_utf8_decode_utf8, encode_utf8_valid_utf8, valid_utf8};

verus! {

/// Wire tag of a ping envelope.
pub const TAG_PING: u8 = 0;

/// Wire tag of a pong envelope.
pub const TAG_PONG: u8 = 1;

/// Bytes before the version text: tag, time, length prefix.
pub const ENVELOPE_HEADER_BYTES: usize = 10;

/// No envelope may encode to more than this many bytes.
pub const MAX_ENVELOPE_BYTES: usize = 128;

/// The messages a connection exchanges: a liveness probe and its echo.
#[derive(Debug, PartialEq)]
pub enum Protocol {
    Ping(PingCommand),
    Pong(PongResponse),
}

/// A liveness probe: the sender's wall-clock send time (epoch seconds) and
/// its semantic version rendered as a string.
#[derive(Debug, PartialEq)]
pub struct PingCommand {
    pub time: i64,
    pub version: String,
}

/// The echo of a ping, carrying a fresh timestamp and the responder's
/// version.
#[derive(Debug, PartialEq)]
pub struct PongResponse {
    pub time: i64,
    pub version: String,
}

impl PingCommand {
    pub fn new(time: i64, version: String) -> (c: PingCommand)
        ensures
            c.time == time,
            c.version == version,
    {
        PingCommand { time, version }
    }
}

impl PongResponse {
    pub fn new(time: i64, version: String) -> (c: PongResponse)
        ensures
            c.time == time,
            c.version == version,
    {
        PongResponse { time, version }
    }
}

/// The mathematical value of an envelope: which variant it is, its time, and
/// its version as a character sequence.
pub enum ProtocolView {
    Ping { time: i64, version: Seq<char> },
    Pong { time: i64, version: Seq<char> },
}

impl ProtocolView {
    pub open spec fn time(self) -> i64 {
        match self {
            ProtocolView::Ping { time, .. } => time,
            ProtocolView::Pong { time, .. } => time,
        }
    }

    pub open spec fn version(self) -> Seq<char> {
        match self {
            ProtocolView::Ping { version, .. } => version,
            ProtocolView::Pong { version, .. } => version,
        }
    }

    pub open spec fn tag(self) -> u8 {
        match self {
            ProtocolView::Ping { .. } => TAG_PING,
            ProtocolView::Pong { .. } => TAG_PONG,
        }
    }
}

impl View for Protocol {
    type V = ProtocolView;

    open spec fn view(&self) -> ProtocolView {
        match self {
            Protocol::Ping(c) => ProtocolView::Ping { time: c.time, version: c.version@ },
            Protocol::Pong(c) => ProtocolView::Pong { time: c.time, version: c.version@ },
        }
    }
}

/// Encoding failure: the envelope would not fit in the size budget.  This is
/// a programming-error class condition, not a runtime one to recover from.
#[derive(Debug, Clone, Copy, PartialEq, Eq, Structural)]
pub enum EncodeError {
    Oversized,
}

/// Decoding failure, one variant per way a byte sequence can be malformed.
#[derive(Debug, Clone, Copy, PartialEq, Eq, Structural)]
pub enum DecodeError {
    /// Longer than any envelope is allowed to encode to.
    TooLong,
    /// Too short to hold even the envelope header.
    Truncated,
    /// The tag byte names neither a ping nor a pong.
    UnknownTag,
    /// The input's length disagrees with the length prefix.
    LengthMismatch,
    /// The version bytes are not valid UTF-8.
    InvalidVersion,
}

/// The wire bytes of an envelope.  Meaningful whenever the version's UTF-8
/// form fits the one-byte length prefix; encoding only ever emits it within
/// the size budget, where that always holds.
pub open spec fn spec_encode(m: ProtocolView) -> Seq<u8> {
    let vb = encode_utf8(m.version());
    seq![m.tag()] + spec_u64_to_le_bytes(m.time() as u64) + seq![vb.len() as u8] + vb
}

/// The envelope a byte sequence holds, or `None` when it is not exactly one
/// well-formed frame within the size budget.
pub open spec fn spec_decode(b: Seq<u8>) -> Option<ProtocolView> {
    if b.len() < ENVELOPE_HEADER_BYTES || b.len() > MAX_ENVELOPE_BYTES {
        None
    } else {
        let tag = b[0];
        let time = spec_u64_from_le_bytes(b.subrange(1, 9)) as i64;
        let vb = b.subrange(ENVELOPE_HEADER_BYTES as int, b.len() as int);
        if (tag == TAG_PING || tag == TAG_PONG) && b.len() == ENVELOPE_HEADER_BYTES + b[9]
            && valid_utf8(vb) {
            let version = decode_utf8(vb);
            if tag == TAG_PING {
                Some(ProtocolView::Ping { time, version })
            } else {
                Some(ProtocolView::Pong { time, version })
            }
        } else {
            None
        }
    }
}

/// Which error `decode` reports for a byte sequence it rejects: the first
/// check that fails, in the order decoding performs them.
pub open spec fn spec_decode_error(b: Seq<u8>) -> DecodeError {
    if b.len() > MAX_ENVELOPE_BYTES {
        DecodeError::TooLong
    } else if b.len() < ENVELOPE_HEADER_BYTES {
        DecodeError::Truncated
    } else if b[0] != TAG_PING && b[0] != TAG_PONG {
        DecodeError::UnknownTag
    } else if b.len() != ENVELOPE_HEADER_BYTES + b[9] {
        DecodeError::LengthMismatch
    } else {
        DecodeError::InvalidVersion
    }
}

/// Relies on `String::from_utf8`: it succeeds exactly on valid UTF-8 input
/// and returns the string those bytes encode.
#[verifier::external_body]
fn bytes_to_string(bytes: Vec<u8>) -> (r: Option<String>)
    ensures
        r is Some <==> valid_utf8(bytes@),
        r matches Some(s) ==> s@ == decode_utf8(bytes@),
{
    match String::from_utf8(bytes) {
        Ok(s) => Some(s),
        Err(_) => None,
    }
}

/// Encodes one envelope.  Succeeds exactly when the result fits the size
/// budget, and then returns precisely the wire bytes of the message's value:
/// equal envelopes always encode to equal bytes.
pub fn encode(message: &Protocol) -> (r: Result<Vec<u8>, EncodeError>)
    ensures
        r is Ok <==> spec_encode(message@).len() <= MAX_ENVELOPE_BYTES,
        r matches Ok(bytes) ==> bytes@ == spec_encode(message@),
{
    proof {
        vstd::bytes::lemma_auto_spec_u64_to_from_le_bytes();
    }
    let (tag, time, version): (u8, i64, &String) = match message {
        Protocol::Ping(c) => (TAG_PING, c.time, &c.version),
        Protocol::Pong(c) => (TAG_PONG, c.time, &c.version),
    };
    let vb: &[u8] = version.as_str().as_bytes();
    if vb.len() > MAX_ENVELOPE_BYTES - ENVELOPE_HEADER_BYTES {
        return Err(EncodeError::Oversized);
    }
    let mut out: Vec<u8> = Vec::new();
    out.push(tag);
    let mut tb = u64_to_le_bytes(time as u64);
    out.append(&mut tb);
    out.push(vb.len() as u8);
    out.extend_from_slice(vb);
    proof {
        assert(out@ =~= spec_encode(message@));
    }
    Ok(out)
}

/// Decodes exactly one envelope from `bytes`.  Succeeds exactly on the
/// well-formed frames, returns the envelope value the frame holds, and on
/// failure reports the first check that failed.
pub fn decode(bytes: &[u8]) -> (r: Result<Protocol, DecodeError>)
    ensures
        r is Ok <==> spec_decode(bytes@) is Some,
        r matches Ok(m) ==> Some(m@) == spec_decode(bytes@),
        r matches Err(e) ==> e == spec_decode_error(bytes@),
{
    if bytes.len() > MAX_ENVELOPE_BYTES {
        return Err(DecodeError::TooLong);
    }
    if bytes.len() < ENVELOPE_HEADER_BYTES {
        return Err(DecodeError::Truncated);
    }
    let tag = bytes[0];
    if tag != TAG_PING && tag != TAG_PONG {
        return Err(DecodeError::UnknownTag);
    }
    let time_u = u64_from_le_bytes(slice_subrange(bytes, 1, 9));
    let time = time_u as i64;
    let vlen = bytes[9] as usize;
    if bytes.len() != ENVELOPE_HEADER_BYTES + vlen {
        return Err(DecodeError::LengthMismatch);
    }
    let vb = slice_to_vec(slice_subrange(bytes, ENVELOPE_HEADER_BYTES, bytes.len()));
    match bytes_to_string(vb) {
        Some(version) => {
            if tag == TAG_PING {
                Ok(Protocol::Ping(PingCommand::new(time, version)))
            } else {
                Ok(Protocol::Pong(PongResponse::new(time, version)))
            }
        },
        None => Err(DecodeError::InvalidVersion),
    }
}

/// Round trip: any envelope that fits the size budget decodes from its own
/// encoding back to itself.
pub proof fn lemma_codec_round_trip(m: ProtocolView)
    requires
        spec_encode(m).len() <= MAX_ENVELOPE_BYTES,
    ensures
        spec_decode(spec_encode(m)) == Some(m),
{
    vstd::bytes::lemma_auto_spec_u64_to_from_le_bytes();
    let vb = encode_utf8(m.version());
    let b = spec_encode(m);
    assert(b.len() == ENVELOPE_HEADER_BYTES + vb.len());
    assert(b.subrange(1, 9) =~= spec_u64_to_le_bytes(m.time() as u64));
    assert(b.subrange(ENVELOPE_HEADER_BYTES as int, b.len() as int) =~= vb);
    encode_utf8_valid_utf8(m.version());
    encode_utf8_decode_utf8(m.version());
    assert(forall|t: i64| #![trigger (t as u64)] (t as u64) as i64 == t) by (bit_vector);
}

/// A byte sequence with a short header, an unrecognized tag, or a length
/// that disagrees with its length prefix never decodes to an envelope.
pub proof fn lemma_decode_rejects_malformed(b: Seq<u8>)
    requires
        b.len() < ENVELOPE_HEADER_BYTES || (b[0] != TAG_PING && b[0] != TAG_PONG) || b.len()
            != ENVELOPE_HEADER_BYTES + b[9],
    ensures
        spec_decode(b) is None,
{
}

} // verus!

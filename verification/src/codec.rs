//! Length-prefixed message framing: one frame is an 8-byte big-endian
//! payload length followed by exactly that many payload bytes. A declared
//! length above a caller-chosen bound is rejected before any payload is
//! touched, so corrupt or hostile input can never force an oversized
//! allocation.

use vstd::prelude::*;
use vstd::string::StringSliceAdditionalSpecFns;
use vstd::string::StrSliceExecFns;
use vstd::utf8::decode_utf8;
use vstd::utf8::valid_utf8;

verus! {

/// Why a frame could not be decoded.
#[derive(Clone, Copy, Debug, PartialEq, Eq, Structural)]
pub enum FrameError {
    /// The stream ended in the middle of a frame.
    Truncated,
    /// The declared payload length exceeds the configured maximum.
    Oversized,
    /// The stream ended cleanly between frames.
    Closed,
}

/// The eight big-endian bytes of a 64-bit length.
pub open spec fn be8(n: u64) -> Seq<u8> {
    seq![
        (n >> 56) as u8,
        (n >> 48) as u8,
        (n >> 40) as u8,
        (n >> 32) as u8,
        (n >> 24) as u8,
        (n >> 16) as u8,
        (n >> 8) as u8,
        n as u8,
    ]
}

/// The 64-bit value read back from eight big-endian bytes.
pub open spec fn be8_val(s: Seq<u8>) -> u64
    recommends
        s.len() == 8,
{
    ((s[0] as u64) << 56) | ((s[1] as u64) << 48) | ((s[2] as u64) << 40) | ((s[3] as u64) << 32)
        | ((s[4] as u64) << 24) | ((s[5] as u64) << 16) | ((s[6] as u64) << 8) | (s[7] as u64)
}

/// Reading back the eight header bytes of a length yields that length.
pub proof fn lemma_be8_val(n: u64)
    ensures
        be8_val(be8(n)) == n,
{
    let s = be8(n);
    assert(((((n >> 56) as u8) as u64) << 56) | ((((n >> 48) as u8) as u64) << 48) | ((((n
        >> 40) as u8) as u64) << 40) | ((((n >> 32) as u8) as u64) << 32) | ((((n
        >> 24) as u8) as u64) << 24) | ((((n >> 16) as u8) as u64) << 16) | ((((n
        >> 8) as u8) as u64) << 8) | ((n as u8) as u64) == n) by (bit_vector);
}

/// The wire form of a payload: its length as eight big-endian bytes, then
/// the payload verbatim.
pub open spec fn spec_encode(p: Seq<u8>) -> Seq<u8>
    recommends
        p.len() <= u64::MAX,
{
    be8(p.len() as u64) + p
}

/// The payload length a buffer's header declares.
pub open spec fn declared_len(buf: Seq<u8>) -> u64
    recommends
        buf.len() >= 8,
{
    be8_val(buf.take(8))
}

/// Encode one payload as a frame.
pub fn encode(payload: &Vec<u8>) -> (frame: Vec<u8>)
    ensures
        frame@ == spec_encode(payload@),
{
    let len: u64 = payload.len() as u64;
    let mut frame: Vec<u8> = Vec::new();
    frame.push((len >> 56) as u8);
    frame.push((len >> 48) as u8);
    frame.push((len >> 40) as u8);
    frame.push((len >> 32) as u8);
    frame.push((len >> 24) as u8);
    frame.push((len >> 16) as u8);
    frame.push((len >> 8) as u8);
    frame.push(len as u8);
    proof {
        assert(frame@ =~= be8(len));
    }
    let mut i: usize = 0;
    while i < payload.len()
        invariant
            i <= payload@.len(),
            len == payload@.len(),
            frame@ == be8(len) + payload@.take(i as int),
        decreases payload@.len() - i,
    {
        frame.push(payload[i]);
        proof {
            assert(be8(len) + payload@.take(i as int) + seq![payload@[i as int]] =~= be8(len)
                + payload@.take(i + 1));
        }
        i += 1;
    }
    proof {
        assert(payload@.take(payload@.len() as int) =~= payload@);
    }
    frame
}

/// Encode one text payload as a frame over its UTF-8 bytes.
pub fn encode_text(text: &str) -> (frame: Vec<u8>)
    ensures
        frame@ == spec_encode(text.spec_bytes()),
{
    let payload = text.as_bytes_vec();
    encode(&payload)
}

/// What one attempt to take a frame off the front of an input buffer yields.
pub enum DecodeStep {
    /// A whole frame is buffered: its payload, and how many buffered bytes
    /// (header plus payload) it occupied.
    Frame { payload: Vec<u8>, consumed: usize },
    /// The buffer holds no complete frame yet; nothing was consumed.
    NeedMore,
    /// The header declares a payload longer than the maximum; nothing was
    /// consumed and no payload was extracted.
    Oversized,
}

/// What `decode` yields on a buffer holding the whole remainder of a closed
/// stream.
pub open spec fn spec_decode(buf: Seq<u8>, max: u64) -> Result<Seq<u8>, FrameError> {
    if buf.len() == 0 {
        Err(FrameError::Closed)
    } else if buf.len() < 8 {
        Err(FrameError::Truncated)
    } else if declared_len(buf) > max {
        Err(FrameError::Oversized)
    } else if buf.len() < 8 + declared_len(buf) {
        Err(FrameError::Truncated)
    } else {
        Ok(buf.subrange(8, 8 + declared_len(buf) as int))
    }
}

/// Try to take one frame off the front of `buf`, allowing payloads of at
/// most `max` bytes. The outcome is decided from the 8-byte header alone
/// before any payload byte is read, and a payload buffer is only ever
/// allocated for a declared length within the bound.
pub fn decode_step(buf: &Vec<u8>, max: u64) -> (r: DecodeStep)
    ensures
        buf@.len() < 8 ==> r is NeedMore,
        buf@.len() >= 8 && declared_len(buf@) > max ==> r is Oversized,
        buf@.len() >= 8 && declared_len(buf@) <= max && buf@.len() < 8 + declared_len(buf@)
            ==> r is NeedMore,
        buf@.len() >= 8 && declared_len(buf@) <= max && buf@.len() >= 8 + declared_len(buf@) ==> (
        r matches DecodeStep::Frame { payload, consumed } && payload@ == buf@.subrange(
            8,
            8 + declared_len(buf@) as int,
        ) && consumed == 8 + declared_len(buf@)),
{
    if buf.len() < 8 {
        return DecodeStep::NeedMore;
    }
    let n: u64 = ((buf[0] as u64) << 56u64) | ((buf[1] as u64) << 48u64) | ((buf[2] as u64)
        << 40u64) | ((buf[3] as u64) << 32u64) | ((buf[4] as u64) << 24u64) | ((buf[5] as u64)
        << 16u64) | ((buf[6] as u64) << 8u64) | (buf[7] as u64);
    proof {
        assert(buf@.take(8) =~= seq![buf@[0], buf@[1], buf@[2], buf@[3], buf@[4], buf@[5], buf@[6], buf@[7]]);
    }
    if n > max {
        return DecodeStep::Oversized;
    }
    if n > (buf.len() - 8) as u64 {
        return DecodeStep::NeedMore;
    }
    let len: usize = n as usize;
    let mut payload: Vec<u8> = Vec::new();
    let mut j: usize = 0;
    while j < len
        invariant
            j <= len,
            len + 8 <= buf@.len(),
            buf@.len() <= usize::MAX,
            payload@ == buf@.subrange(8, 8 + j as int),
        decreases len - j,
    {
        payload.push(buf[8 + j]);
        proof {
            assert(buf@.subrange(8, 8 + j as int).push(buf@[8 + j as int]) =~= buf@.subrange(
                8,
                8 + (j + 1) as int,
            ));
        }
        j += 1;
    }
    DecodeStep::Frame { payload, consumed: 8 + len }
}

/// Decode one frame from a buffer that holds everything the stream carried
/// before it closed: an empty buffer means the peer closed cleanly, a
/// partial frame means it closed mid-frame.
pub fn decode(buf: &Vec<u8>, max: u64) -> (r: Result<Vec<u8>, FrameError>)
    ensures
        r is Ok <==> spec_decode(buf@, max) is Ok,
        r matches Ok(p) ==> spec_decode(buf@, max) == Ok::<Seq<u8>, FrameError>(p@),
        r matches Err(e) ==> spec_decode(buf@, max) == Err::<Seq<u8>, FrameError>(e),
{
    match decode_step(buf, max) {
        DecodeStep::Frame { payload, consumed: _ } => Ok(payload),
        DecodeStep::Oversized => Err(FrameError::Oversized),
        DecodeStep::NeedMore => {
            if buf.len() == 0 {
                Err(FrameError::Closed)
            } else {
                Err(FrameError::Truncated)
            }
        },
    }
}

/// The text that lossy UTF-8 conversion reads out of a byte sequence; a
/// function of the bytes alone.
pub uninterp spec fn lossy_text(b: Seq<u8>) -> Seq<char>;

/// Relies on String::from_utf8_lossy: the result depends on the bytes
/// alone, and valid UTF-8 input is converted verbatim.
#[verifier::external_body]
fn text_of_bytes(b: &Vec<u8>) -> (r: String)
    ensures
        r@ == lossy_text(b@),
        valid_utf8(b@) ==> r@ == decode_utf8(b@),
{
    String::from_utf8_lossy(b).to_string()
}

/// Decode one frame as in `decode` and read its payload as text.
pub fn decode_text(buf: &Vec<u8>, max: u64) -> (r: Result<String, FrameError>)
    ensures
        r is Ok <==> spec_decode(buf@, max) is Ok,
        r matches Ok(t) ==> spec_decode(buf@, max) matches Ok(p) && t@ == lossy_text(p)
            && (valid_utf8(p) ==> t@ == decode_utf8(p)),
        r matches Err(e) ==> spec_decode(buf@, max) == Err::<Seq<u8>, FrameError>(e),
{
    match decode(buf, max) {
        Ok(payload) => Ok(text_of_bytes(&payload)),
        Err(e) => Err(e),
    }
}

/// Framing round trip: any payload within the bound decodes back to itself
/// from its own encoding.
pub proof fn lemma_round_trip(p: Seq<u8>, max: u64)
    requires
        p.len() <= max,
    ensures
        spec_decode(spec_encode(p), max) == Ok::<Seq<u8>, FrameError>(p),
{
    let f = spec_encode(p);
    assert(f.take(8) =~= be8(p.len() as u64));
    lemma_be8_val(p.len() as u64);
    assert(f.subrange(8, 8 + p.len() as int) =~= p);
}

/// Oversized frames are rejected from the header alone: whatever bytes
/// follow an oversized header, and however many, decoding fails with
/// `Oversized` without looking past the first eight bytes.
pub proof fn lemma_oversized_from_header(hdr: Seq<u8>, rest: Seq<u8>, max: u64)
    requires
        hdr.len() == 8,
        be8_val(hdr) > max,
    ensures
        spec_decode(hdr + rest, max) == Err::<Seq<u8>, FrameError>(FrameError::Oversized),
{
    assert((hdr + rest).take(8) =~= hdr);
}

} // verus!

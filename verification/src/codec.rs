//! Wire framing: every message travels as a 4-byte little-endian length
//! prefix followed by exactly that many payload bytes.
//!
//! The functions here are the pure half of the codec: they lay a payload out
//! as a frame and take a frame apart again. The I/O shell reads and writes
//! the byte runs on the socket and hands them to these functions.

use vstd::bytes::{spec_u32_from_le_bytes, spec_u32_to_le_bytes, u32_from_le_bytes, u32_to_le_bytes};
use vstd::prelude::*;

use crate::error::Error;

verus! {

/// The frame laid on the wire for `payload`: four little-endian length bytes,
/// then the payload itself.
pub open spec fn spec_frame(payload: Seq<u8>) -> Seq<u8>
    recommends
        payload.len() <= u32::MAX,
{
    spec_u32_to_le_bytes(payload.len() as u32) + payload
}

/// The payload recovered from a complete frame, or `None` when the bytes are
/// not one well-formed frame: too short for the prefix, a zero length, or a
/// length that disagrees with the number of bytes present.
pub open spec fn spec_unframe(data: Seq<u8>) -> Option<Seq<u8>> {
    if data.len() < 4 {
        None
    } else {
        let n = spec_u32_from_le_bytes(data.subrange(0, 4));
        if n == 0 || data.len() != 4 + n {
            None
        } else {
            Some(data.subrange(4, data.len() as int))
        }
    }
}

/// Lay `payload` out as one wire frame.
///
/// The length prefix is the payload length itself; nothing is truncated.
pub fn frame_message(payload: &Vec<u8>) -> (r: Vec<u8>)
    requires
        payload@.len() <= u32::MAX,
    ensures
        r@ == spec_frame(payload@),
        r@.len() == 4 + payload@.len(),
{
    let len: u32 = payload.len() as u32;
    let mut out = u32_to_le_bytes(len);
    let mut i: usize = 0;
    while i < payload.len()
        invariant
            i <= payload@.len(),
            payload@.len() <= u32::MAX,
            out@ == spec_u32_to_le_bytes(payload@.len() as u32) + payload@.subrange(0, i as int),
        decreases payload@.len() - i,
    {
        out.push(payload[i]);
        i = i + 1;
        proof {
            assert(payload@.subrange(0, i as int)
                == payload@.subrange(0, i - 1).push(payload@[i - 1]));
        }
    }
    proof {
        assert(payload@.subrange(0, payload@.len() as int) == payload@);
    }
    out
}

/// Read the length prefix of a frame and reject the zero length that the
/// protocol forbids.
///
/// The caller hands in exactly the four prefix bytes it took off the wire.
pub fn parse_frame_len(header: &Vec<u8>) -> (r: Result<u32, Error>)
    requires
        header@.len() == 4,
    ensures
        match r {
            Ok(n) => n == spec_u32_from_le_bytes(header@) && n != 0,
            Err(e) => spec_u32_from_le_bytes(header@) == 0 && e is Io,
        },
{
    let n = u32_from_le_bytes(header.as_slice());
    if n == 0 {
        Err(Error::Io("zero-length frame".to_owned()))
    } else {
        Ok(n)
    }
}

/// Take one complete frame apart, returning its payload.
pub fn unframe(data: &Vec<u8>) -> (r: Result<Vec<u8>, Error>)
    ensures
        match r {
            Ok(p) => spec_unframe(data@) == Some(p@),
            Err(e) => spec_unframe(data@) is None && e is Io,
        },
{
    if data.len() < 4 {
        return Err(Error::Io("frame shorter than its length prefix".to_owned()));
    }
    let mut header: Vec<u8> = Vec::new();
    header.push(data[0]);
    header.push(data[1]);
    header.push(data[2]);
    header.push(data[3]);
    proof {
        assert(header@ == data@.subrange(0, 4));
    }
    let n = u32_from_le_bytes(header.as_slice());
    if n == 0 {
        return Err(Error::Io("zero-length frame".to_owned()));
    }
    if data.len() - 4 != n as usize {
        return Err(Error::Io("frame length prefix disagrees with the body".to_owned()));
    }
    let mut payload: Vec<u8> = Vec::new();
    let mut i: usize = 4;
    while i < data.len()
        invariant
            4 <= i <= data@.len(),
            payload@ == data@.subrange(4, i as int),
        decreases data@.len() - i,
    {
        payload.push(data[i]);
        i = i + 1;
        proof {
            assert(data@.subrange(4, i as int)
                == data@.subrange(4, i - 1).push(data@[i - 1]));
        }
    }
    Ok(payload)
}

/// Relies on str::as_bytes, which exposes a string's storage: the UTF-8
/// encoding of its characters.
#[verifier::external_body]
pub(crate) fn str_to_bytes(s: &str) -> (r: Vec<u8>)
    ensures
        r@ == vstd::utf8::encode_utf8(s@),
{
    s.as_bytes().to_vec()
}

/// Relies on String::from_utf8, which succeeds exactly on valid UTF-8 and
/// returns the string those bytes encode.
#[verifier::external_body]
pub(crate) fn bytes_to_string(data: Vec<u8>) -> (r: Option<String>)
    ensures
        match r {
            Some(s) => vstd::utf8::valid_utf8(data@) && s@ == vstd::utf8::decode_utf8(data@),
            None => !vstd::utf8::valid_utf8(data@),
        },
{
    match String::from_utf8(data) {
        Ok(s) => Some(s),
        Err(_) => None,
    }
}

/// Decode the payload of a frame as UTF-8 text, the way a device response is
/// read off the wire.
pub fn decode_body(data: Vec<u8>) -> (r: Result<String, Error>)
    ensures
        match r {
            Ok(s) => vstd::utf8::valid_utf8(data@) && s@ == vstd::utf8::decode_utf8(data@),
            Err(e) => !vstd::utf8::valid_utf8(data@) && e is Io,
        },
{
    match bytes_to_string(data) {
        Some(s) => Ok(s),
        None => Err(Error::Io("response body is not UTF-8".to_owned())),
    }
}

/// Framing round-trip: a payload of any positive length that fits the 4-byte
/// prefix comes back from `spec_unframe` exactly as it went into
/// `spec_frame`; the empty payload's frame is rejected instead of decoding to
/// an empty result.
pub proof fn lemma_frame_round_trip(payload: Seq<u8>)
    requires
        payload.len() <= u32::MAX,
    ensures
        payload.len() > 0 ==> spec_unframe(spec_frame(payload)) == Some(payload),
        payload.len() == 0 ==> spec_unframe(spec_frame(payload)) is None,
{
    vstd::bytes::lemma_auto_spec_u32_to_from_le_bytes();
    let framed = spec_frame(payload);
    assert(framed.subrange(0, 4) == spec_u32_to_le_bytes(payload.len() as u32));
    if payload.len() > 0 {
        assert(framed.subrange(4, framed.len() as int) == payload);
    }
}

} // verus!

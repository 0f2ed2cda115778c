//! Tests of the wire framing codec.

use matroskin::codec::{decode_body, frame_message, parse_frame_len, unframe};
use matroskin::error::Error;

#[test]
fn frame_layout_is_length_prefix_then_payload() {
    let payload = b"{\"cmd\":\"get.device.info\"}".to_vec();
    let framed = frame_message(&payload);
    assert_eq!(framed.len(), 4 + payload.len());
    assert_eq!(&framed[0..4], (payload.len() as u32).to_le_bytes());
    assert_eq!(&framed[4..], &payload[..]);
}

#[test]
fn frame_round_trips() {
    let cases: [&[u8]; 4] = [b"a", b"hello", b"\x00\x01\x02\xff", b"0123456789abcdef0123456789"];
    for payload in cases {
        let payload = payload.to_vec();
        let framed = frame_message(&payload);
        let back = unframe(&framed).unwrap();
        assert_eq!(back, payload);
    }
}

#[test]
fn zero_length_frame_is_rejected() {
    let empty = Vec::new();
    let framed = frame_message(&empty);
    assert_eq!(framed, vec![0u8, 0, 0, 0]);
    assert!(matches!(unframe(&framed), Err(Error::Io(_))));
    assert!(matches!(parse_frame_len(&framed), Err(Error::Io(_))));
}

#[test]
fn parse_frame_len_reads_little_endian() {
    let header = vec![0x10u8, 0x02, 0x00, 0x00];
    assert_eq!(parse_frame_len(&header).unwrap(), 0x0210);
}

#[test]
fn length_prefix_must_match_body() {
    let mut framed = frame_message(&b"abcd".to_vec());
    framed.push(b'e');
    assert!(matches!(unframe(&framed), Err(Error::Io(_))));
    let short = vec![9u8, 0, 0];
    assert!(matches!(unframe(&short), Err(Error::Io(_))));
}

#[test]
fn body_decodes_as_utf8() {
    let body = "résponse ✓".as_bytes().to_vec();
    assert_eq!(decode_body(body).unwrap(), "résponse ✓");
    let bad = vec![0xffu8, 0xfe, 0x00];
    assert!(matches!(decode_body(bad), Err(Error::Io(_))));
}

#[test]
fn responses_larger_than_the_pacing_hint_survive() {
    // The 8192-byte buffer size is only an allocation hint: a larger
    // payload must frame and unframe in full.
    let payload = vec![b'x'; 20_000];
    let framed = frame_message(&payload);
    let back = unframe(&framed).unwrap();
    assert_eq!(back.len(), 20_000);
    assert_eq!(back, payload);
}

use super_mega_chatroom::FrameError;
use super_mega_chatroom::codec::DecodeStep;
use super_mega_chatroom::codec::decode;
use super_mega_chatroom::codec::decode_step;
use super_mega_chatroom::codec::decode_text;
use super_mega_chatroom::codec::encode;
use super_mega_chatroom::codec::encode_text;
use super_mega_chatroom::text::ascii_upper;
use super_mega_chatroom::text::trim_text;

const MAX: u64 = 65536;

#[test]
fn encode_exact_bytes() {
    let frame = encode(&vec![104u8, 105u8]);
    assert_eq!(frame, vec![0u8, 0, 0, 0, 0, 0, 0, 2, 104, 105]);
}

#[test]
fn encode_empty_payload() {
    let frame = encode(&Vec::new());
    assert_eq!(frame, vec![0u8; 8]);
}

#[test]
fn encode_text_uses_utf8_bytes() {
    let frame = encode_text("hi");
    assert_eq!(frame, vec![0u8, 0, 0, 0, 0, 0, 0, 2, b'h', b'i']);
}

#[test]
fn round_trip_small() {
    let payload = vec![1u8, 2, 3, 4, 5];
    let frame = encode(&payload);
    assert_eq!(decode(&frame, MAX), Ok(payload));
}

#[test]
fn round_trip_empty() {
    let frame = encode(&Vec::new());
    assert_eq!(decode(&frame, MAX), Ok(Vec::new()));
}

#[test]
fn round_trip_at_bound() {
    let payload = vec![7u8; 32];
    let frame = encode(&payload);
    assert_eq!(decode(&frame, 32), Ok(payload));
}

#[test]
fn oversized_rejected_from_header_alone() {
    // An attacker declares a huge payload and sends nothing after the
    // header: rejection comes from the header, with no payload read.
    let huge: u64 = 1 << 40;
    let frame = huge.to_be_bytes().to_vec();
    assert_eq!(decode(&frame, MAX), Err(FrameError::Oversized));
    match decode_step(&frame, MAX) {
        DecodeStep::Oversized => {}
        _ => panic!("expected an oversized rejection"),
    }
}

#[test]
fn oversized_just_past_bound() {
    let payload = vec![7u8; 33];
    let frame = encode(&payload);
    assert_eq!(decode(&frame, 32), Err(FrameError::Oversized));
}

#[test]
fn truncated_short_header() {
    let frame = vec![0u8, 0, 0, 0];
    assert_eq!(decode(&frame, MAX), Err(FrameError::Truncated));
}

#[test]
fn truncated_missing_payload() {
    let mut frame = encode(&vec![1u8, 2, 3, 4, 5]);
    frame.truncate(10);
    assert_eq!(decode(&frame, MAX), Err(FrameError::Truncated));
}

#[test]
fn closed_on_empty_stream() {
    assert_eq!(decode(&Vec::new(), MAX), Err(FrameError::Closed));
}

#[test]
fn partial_reads_accumulate() {
    let full = encode(&vec![9u8, 8, 7]);
    let mut buf: Vec<u8> = Vec::new();
    for (k, byte) in full.iter().enumerate() {
        if k + 1 < full.len() {
            buf.push(*byte);
            match decode_step(&buf, MAX) {
                DecodeStep::NeedMore => {}
                _ => panic!("frame seemed complete after {} bytes", k + 1),
            }
        }
    }
    buf.push(full[full.len() - 1]);
    match decode_step(&buf, MAX) {
        DecodeStep::Frame { payload, consumed } => {
            assert_eq!(payload, vec![9u8, 8, 7]);
            assert_eq!(consumed, 11);
        }
        _ => panic!("expected a complete frame"),
    }
}

#[test]
fn trailing_bytes_left_for_next_frame() {
    let mut buf = encode(&vec![1u8]);
    let second = encode(&vec![2u8, 3u8]);
    buf.extend_from_slice(&second);
    match decode_step(&buf, MAX) {
        DecodeStep::Frame { payload, consumed } => {
            assert_eq!(payload, vec![1u8]);
            assert_eq!(consumed, 9);
            let rest = buf[consumed..].to_vec();
            assert_eq!(decode(&rest, MAX), Ok(vec![2u8, 3u8]));
        }
        _ => panic!("expected a complete frame"),
    }
}

#[test]
fn decode_text_reads_utf8() {
    let frame = encode_text("héllo");
    assert_eq!(decode_text(&frame, MAX), Ok(String::from("héllo")));
}

#[test]
fn decode_text_replaces_invalid_utf8() {
    let frame = encode(&vec![0xffu8, 0xfe]);
    assert_eq!(decode_text(&frame, MAX), Ok(String::from("\u{fffd}\u{fffd}")));
}

#[test]
fn decode_text_propagates_errors() {
    assert_eq!(decode_text(&Vec::new(), MAX), Err(FrameError::Closed));
}

#[test]
fn trim_strips_surrounding_whitespace() {
    assert_eq!(trim_text("  alice \r\n"), String::from("alice"));
    assert_eq!(trim_text("bob"), String::from("bob"));
    assert_eq!(trim_text(" \t\r\n "), String::from(""));
    assert_eq!(trim_text(""), String::from(""));
    assert_eq!(trim_text("a b"), String::from("a b"));
}

#[test]
fn ascii_upper_cases_letters_only() {
    assert_eq!(ascii_upper('a'), 'A');
    assert_eq!(ascii_upper('z'), 'Z');
    assert_eq!(ascii_upper('A'), 'A');
    assert_eq!(ascii_upper('1'), '1');
    assert_eq!(ascii_upper(' '), ' ');
}

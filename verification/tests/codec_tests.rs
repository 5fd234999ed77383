use hyperion_session::codec::{
    decode_u32_be, encode_command, encode_command_framed, frame_payload, parse_frame, parse_reply,
    Command, RgbRaster, REPLY_FAILURE, REPLY_SUCCESS, TAG_CLEAR, TAG_COLOR, TAG_IMAGE,
    TAG_REGISTER,
};
use hyperion_session::errors::CodecError;

#[test]
fn color_payload_bytes() {
    let cmd = Command::Color {
        red: 1,
        green: 2,
        blue: 3,
        duration_ms: -1,
    };
    let payload = encode_command(&cmd);
    assert_eq!(payload, vec![TAG_COLOR, 1, 2, 3, 0xFF, 0xFF, 0xFF, 0xFF]);

    let framed = encode_command_framed(&cmd);
    assert_eq!(framed, vec![0, 0, 0, 8, TAG_COLOR, 1, 2, 3, 0xFF, 0xFF, 0xFF, 0xFF]);
}

#[test]
fn clear_payload_bytes() {
    let cmd = Command::Clear { priority: 150 };
    assert_eq!(encode_command(&cmd), vec![TAG_CLEAR, 0, 0, 0, 150]);
    assert_eq!(
        encode_command_framed(&cmd),
        vec![0, 0, 0, 5, TAG_CLEAR, 0, 0, 0, 150]
    );
}

#[test]
fn register_payload_bytes() {
    let cmd = Command::Register {
        origin: b"ambient".to_vec(),
        priority: 100,
    };
    let mut want = vec![TAG_REGISTER, 0, 0, 0, 7];
    want.extend_from_slice(b"ambient");
    want.extend_from_slice(&[0, 0, 0, 100]);
    assert_eq!(encode_command(&cmd), want);

    let framed = encode_command_framed(&cmd);
    assert_eq!(framed[..4], [0, 0, 0, 16]);
    assert_eq!(&framed[4..], &want[..]);
}

#[test]
fn image_payload_bytes() {
    let cmd = Command::Image {
        raster: RgbRaster {
            width: 2,
            height: 1,
            pixels: vec![9, 8, 7, 6, 5, 4],
        },
    };
    let mut want = vec![TAG_IMAGE, 0, 0, 0, 2, 0, 0, 0, 1];
    want.extend_from_slice(&[9, 8, 7, 6, 5, 4]);
    assert_eq!(encode_command(&cmd), want);

    let framed = encode_command_framed(&cmd);
    assert_eq!(framed[..4], [0, 0, 0, 15]);
    assert_eq!(&framed[4..], &want[..]);
}

#[test]
fn negative_priority_is_twos_complement() {
    let cmd = Command::Clear { priority: -2 };
    assert_eq!(encode_command(&cmd), vec![TAG_CLEAR, 0xFF, 0xFF, 0xFF, 0xFE]);
}

#[test]
fn decode_u32_round_trips() {
    for n in [0u32, 1, 255, 256, 19400, 0xDEAD_BEEF, u32::MAX] {
        let bytes = vec![
            (n >> 24) as u8,
            (n >> 16) as u8,
            (n >> 8) as u8,
            n as u8,
        ];
        assert_eq!(decode_u32_be(&bytes, 0), n);
    }
}

#[test]
fn decode_u32_at_offset() {
    let bytes = vec![0xAA, 0xBB, 0, 0, 1, 2];
    assert_eq!(decode_u32_be(&bytes, 2), 0x0000_0102);
}

#[test]
fn frame_then_parse_round_trips() {
    let payload = vec![TAG_COLOR, 10, 20, 30, 0, 0, 0, 50];
    let framed = frame_payload(&payload);
    assert_eq!(parse_frame(&framed), Ok(payload));
}

#[test]
fn parse_frame_rejects_short_prefix() {
    assert_eq!(parse_frame(&vec![]), Err(CodecError::Truncated));
    assert_eq!(parse_frame(&vec![0, 0, 2]), Err(CodecError::Truncated));
}

#[test]
fn parse_frame_rejects_truncated_body() {
    // Declares 4 payload bytes, carries 2.
    let buf = vec![0, 0, 0, 4, 1, 2];
    assert_eq!(parse_frame(&buf), Err(CodecError::Truncated));
}

#[test]
fn parse_frame_rejects_trailing_bytes() {
    // Declares 1 payload byte, carries 3.
    let buf = vec![0, 0, 0, 1, 1, 2, 3];
    assert_eq!(parse_frame(&buf), Err(CodecError::LengthMismatch));
}

#[test]
fn parse_frame_accepts_empty_payload() {
    assert_eq!(parse_frame(&vec![0, 0, 0, 0]), Ok(vec![]));
}

#[test]
fn parse_reply_success_and_failure() {
    assert_eq!(parse_reply(&vec![REPLY_SUCCESS]), Ok(true));
    assert_eq!(parse_reply(&vec![REPLY_FAILURE]), Ok(false));
    // Trailing message bytes are informational and ignored.
    let mut with_message = vec![REPLY_SUCCESS];
    with_message.extend_from_slice(b"registered");
    assert_eq!(parse_reply(&with_message), Ok(true));
}

#[test]
fn parse_reply_rejects_bad_payloads() {
    assert_eq!(parse_reply(&vec![]), Err(CodecError::Truncated));
    assert_eq!(parse_reply(&vec![7]), Err(CodecError::MalformedPayload));
}

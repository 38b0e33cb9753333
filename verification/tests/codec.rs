//! Wire-frame codec: checksum, framing, decode errors, and the
//! encode-then-decode round trip on concrete frames.

use suzui_rs::sdl::{DecodeError, SdlHeader, SdlMessage, SuzukiSdlViewer};

#[test]
fn checksum_wraps_and_negates() {
    assert_eq!(SdlMessage::generate_checksum(&[]), 0);
    assert_eq!(SdlMessage::generate_checksum(&[0x10, 0x03]), 237);
    assert_eq!(SdlMessage::generate_checksum(&[1, 2, 3]), 250);
    // 255 + 1 wraps to 0, whose negation is 0.
    assert_eq!(SdlMessage::generate_checksum(&[255, 1]), 0);
}

#[test]
fn encode_id_query() {
    let m = SdlMessage::new(SdlHeader::Id, None);
    assert_eq!(m.length, 3);
    assert_eq!(m.checksum, 237);
    assert_eq!(m.to_bytes(), vec![0x10, 3, 237]);
}

#[test]
fn encode_decode_round_trip() {
    let m = SdlMessage::new(SdlHeader::Actuate, Some(vec![1, 2, 3]));
    let bytes = m.to_bytes();
    assert_eq!(bytes, vec![0x15, 6, 1, 2, 3, 223]);
    let back = SdlMessage::try_from(&bytes).expect("frame must decode");
    assert_eq!(back.header, SdlHeader::Actuate);
    assert_eq!(back.data, Some(vec![1, 2, 3]));
    assert_eq!(back.length, 6);
    assert_eq!(back.checksum, 223);
}

#[test]
fn decode_round_trip_empty_payload() {
    let bytes = SdlMessage::new(SdlHeader::Data, Some(vec![])).to_bytes();
    let back = SdlMessage::try_from(&bytes).expect("frame must decode");
    assert_eq!(back.header, SdlHeader::Data);
    assert_eq!(back.data, Some(vec![]));
}

#[test]
fn decode_rejects_short_frames() {
    assert_eq!(SdlMessage::try_from(&[]), Err(DecodeError::FrameTooShort));
    assert_eq!(SdlMessage::try_from(&[0x10]), Err(DecodeError::FrameTooShort));
    assert_eq!(SdlMessage::try_from(&[0x10, 3]), Err(DecodeError::FrameTooShort));
}

#[test]
fn decode_rejects_unknown_header() {
    assert_eq!(SdlMessage::try_from(&[0xFF, 3, 0]), Err(DecodeError::UnknownHeader));
    assert_eq!(SdlMessage::try_from(&[0x11, 3, 0]), Err(DecodeError::UnknownHeader));
}

#[test]
fn decode_rejects_bad_length() {
    // Length byte below the 3-byte minimum.
    assert_eq!(SdlMessage::try_from(&[0x10, 2, 0]), Err(DecodeError::InvalidLength));
    // Length byte running past the end of the buffer.
    assert_eq!(SdlMessage::try_from(&[0x10, 10, 0]), Err(DecodeError::InvalidLength));
}

#[test]
fn decode_carries_checksum_without_verifying() {
    // The trailing checksum is carried as-is, not recomputed.
    let m = SdlMessage::try_from(&[0x10, 4, 7, 99]).expect("frame must decode");
    assert_eq!(m.data, Some(vec![7]));
    assert_eq!(m.checksum, 99);
}

#[test]
fn data_request_polls_every_non_fault_address() {
    let m = SuzukiSdlViewer::data_request_message();
    assert_eq!(m.header, SdlHeader::Data);
    assert_eq!(
        m.data,
        Some(vec![
            0x04, 0x05, 0x06, 0x07, 0x08, 0x09, 0x0A, 0x0B, 0x0D, 0x0E, 0x0F, 0x10, 0x11, 0x12,
            0x16, 0x19, 0x1A
        ])
    );
    assert_eq!(m.length, 20);
    assert_eq!(m.checksum, 247);
}

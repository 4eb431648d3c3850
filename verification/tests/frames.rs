use rpc_frame::frame::{check_header, fill_frame, parse_frame, RecvError, SendError};

#[test]
fn fill_frame_layout_is_exact() {
    let mut buf: Vec<u8> = Vec::new();
    let payload: [u8; 3] = [7, 8, 9];
    let r = fill_frame(&mut buf, &payload, 3);
    assert_eq!(r, Ok(()));
    assert_eq!(buf, vec![0, 0, 0, 3, 7, 8, 9]);
}

#[test]
fn fill_frame_rejects_oversized_payload_without_writing() {
    let mut buf: Vec<u8> = vec![42];
    let payload: [u8; 3] = [7, 8, 9];
    let r = fill_frame(&mut buf, &payload, 2);
    assert_eq!(r, Err(SendError::MessageTooLarge));
    assert_eq!(buf, vec![42]);
}

#[test]
fn check_header_reads_big_endian_length() {
    let hdr: [u8; 4] = [0, 0, 0, 3];
    assert_eq!(check_header(&hdr, 1024), Ok(3));
    let hdr2: [u8; 4] = [0, 1, 2, 3];
    assert_eq!(check_header(&hdr2, u32::MAX), Ok(0x00010203));
}

#[test]
fn check_header_accepts_a_length_exactly_at_the_limit() {
    let hdr: [u8; 4] = [0, 0, 4, 0];
    assert_eq!(check_header(&hdr, 1024), Ok(1024));
}

#[test]
fn check_header_rejects_oversized_declared_length() {
    // one mebibyte and one byte declared against a one-kibibyte limit
    let hdr: [u8; 4] = [0, 0x10, 0, 1];
    assert_eq!(check_header(&hdr, 1024), Err(RecvError::FrameTooLarge));
}

#[test]
fn parse_frame_round_trips_a_built_frame() {
    let mut buf: Vec<u8> = Vec::new();
    let payload: [u8; 2] = [5, 6];
    fill_frame(&mut buf, &payload, 16).unwrap();
    let got = parse_frame(&buf, 16);
    assert_eq!(got, Ok(&payload[..]));
}

#[test]
fn parse_frame_rejects_oversized_before_reading_payload() {
    // the declared length exceeds the limit and the payload is not even there
    let buf: Vec<u8> = vec![0, 0x10, 0, 0];
    assert_eq!(parse_frame(&buf, 1024), Err(RecvError::FrameTooLarge));
}

#[test]
fn parse_frame_rejects_short_input() {
    assert_eq!(parse_frame(&[0, 0, 0], 1024), Err(RecvError::ReadError));
    // header declares two bytes, only one follows
    assert_eq!(parse_frame(&[0, 0, 0, 2, 9], 1024), Err(RecvError::ReadError));
}

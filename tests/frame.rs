use sremp_core::error::CoreError;
use sremp_core::frame::{check_length, Frame, FrameBody, MAX_FRAME_SIZE};

fn round_trip(len: usize) {
    let payload: Vec<u8> = (0..len).map(|i| (i % 251) as u8).collect();
    let frame = Frame::build(FrameBody { data: payload.clone() }).expect("frame of allowed size");
    assert_eq!(frame.len() as usize, len);
    let wire = frame.encode();
    assert_eq!(wire.len(), len + 2);
    assert_eq!(wire[0] as usize, len / 256);
    assert_eq!(wire[1] as usize, len % 256);
    let (back, used) = Frame::decode(&wire).expect("whole frame");
    assert_eq!(used, len + 2);
    assert_eq!(back.data(), payload.as_slice());
}

#[test]
fn frame_round_trip_empty() {
    round_trip(0);
}

#[test]
fn frame_round_trip_small() {
    round_trip(1);
    round_trip(255);
    round_trip(256);
    round_trip(1000);
}

#[test]
fn frame_round_trip_largest() {
    round_trip(MAX_FRAME_SIZE);
}

#[test]
fn frame_build_too_large() {
    let body = FrameBody { data: vec![0u8; 65536] };
    assert_eq!(body.len(), 65536);
    assert_eq!(Frame::build(body), Err(CoreError::FrameTooLarge(65536)));
    assert_eq!(Frame::raw(&vec![7u8; 65536]), Err(CoreError::FrameTooLarge(65536)));
}

#[test]
fn frame_raw_keeps_bytes() {
    let f = Frame::raw(&[1, 2, 3]).unwrap();
    assert_eq!(f.len(), 3);
    assert_eq!(f.data(), &[1, 2, 3]);
    assert_eq!(f.encode(), vec![0, 3, 1, 2, 3]);
}

#[test]
fn frame_check_length_bounds() {
    assert_eq!(check_length(0), Ok(0));
    assert_eq!(check_length(65535), Ok(65535));
    assert_eq!(check_length(65536), Err(CoreError::FrameTooLarge(65536)));
    assert_eq!(check_length(usize::MAX), Err(CoreError::FrameTooLarge(usize::MAX)));
}

#[test]
fn frame_announced_length() {
    assert_eq!(Frame::announced_length(0, 0), Ok(0));
    assert_eq!(Frame::announced_length(1, 2), Ok(258));
    assert_eq!(Frame::announced_length(255, 255), Ok(65535));
}

#[test]
fn frame_decode_incomplete() {
    assert!(Frame::decode(&[]).is_none());
    assert!(Frame::decode(&[0]).is_none());
    assert!(Frame::decode(&[0, 3, 1, 2]).is_none());
    let (f, used) = Frame::decode(&[0, 2, 9, 8, 7]).unwrap();
    assert_eq!(used, 4);
    assert_eq!(f.data(), &[9, 8]);
}

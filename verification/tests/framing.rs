use bucket_stream::frame::{locate_payload, push_frame, FrameError};

#[test]
fn frame_is_prefix_then_payload() {
    let mut out = Vec::new();
    push_frame(&mut out, &[1, 2, 3]);
    assert_eq!(out, vec![0x80, 0, 0, 3, 1, 2, 3]);
}

#[test]
fn located_payload_is_what_was_framed() {
    let mut out = vec![9u8; 0];
    push_frame(&mut out, &[7; 300]);
    assert_eq!(&out[..4], &[0x80, 0, 1, 44]);
    assert_eq!(locate_payload(&out, 0), Ok(Some((4, 304))));
    assert_eq!(locate_payload(&out, 304), Ok(None));
}

#[test]
fn short_prefix_and_short_payload_are_told_apart() {
    assert_eq!(locate_payload(&[0x80, 0, 0], 0), Err(FrameError::TruncatedPrefix));
    assert_eq!(locate_payload(&[0x80, 0, 0, 2, 1], 0), Err(FrameError::TruncatedPayload));
    assert_eq!(locate_payload(&[0, 0, 0, 1, 5], 0), Ok(Some((4, 5))));
}

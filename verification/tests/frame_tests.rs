use can_gateway::errors::FrameError;
use can_gateway::frame::Frame;
use can_gateway::frame::MAX_PAYLOAD_LEN;
use can_gateway::frame::MAX_STANDARD_ID;

#[test]
fn frame_new_valid() {
    let f = Frame::new(0x111, vec![0x48, 0x65]).unwrap();
    assert_eq!(f.id(), 0x111);
    assert_eq!(f.payload_len(), 2);
    assert_eq!(f.payload().as_slice(), &[0x48, 0x65]);
}

#[test]
fn frame_empty_payload() {
    let f = Frame::new(0, vec![]).unwrap();
    assert_eq!(f.id(), 0);
    assert_eq!(f.payload_len(), 0);
}

#[test]
fn frame_max_id_and_full_payload() {
    let f = Frame::new(MAX_STANDARD_ID, vec![0; MAX_PAYLOAD_LEN]).unwrap();
    assert_eq!(f.id(), 0x7FF);
    assert_eq!(f.payload_len(), 8);
}

#[test]
fn frame_id_too_wide() {
    let r = Frame::new(0x800, vec![1]);
    assert_eq!(r.unwrap_err(), FrameError::IdentifierTooWide);
}

#[test]
fn frame_payload_too_long() {
    let r = Frame::new(0x123, vec![0; 9]);
    assert_eq!(r.unwrap_err(), FrameError::PayloadTooLong);
}

#[test]
fn frame_id_checked_before_payload() {
    let r = Frame::new(0xFFFF, vec![0; 9]);
    assert_eq!(r.unwrap_err(), FrameError::IdentifierTooWide);
}

#[test]
fn frame_clone_keeps_value() {
    let f = Frame::new(0x222, vec![9, 8, 7]).unwrap();
    let g = f.clone();
    assert_eq!(g.id(), f.id());
    assert_eq!(g.payload(), f.payload());
}

#[test]
fn frame_limits_match_bxcan() {
    // The library's frame limits are the limits of the controller
    // driver the firmware runs on.
    assert_eq!(MAX_STANDARD_ID, bxcan::StandardId::MAX.as_raw());
    let data = bxcan::Data::new(&[0u8; 8]).unwrap();
    assert_eq!(data.len(), MAX_PAYLOAD_LEN);
    assert!(bxcan::Data::new(&[0u8; 9]).is_none());
}

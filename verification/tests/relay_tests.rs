use can_gateway::channel::Channel;
use can_gateway::diag::DiagCounter;
use can_gateway::errors::SendError;
use can_gateway::frame::Frame;
use can_gateway::gateway::Gateway;
use can_gateway::relay::relay_frame;
use can_gateway::relay::relay_step;
use can_gateway::relay::RelayEvent;
use can_gateway::relay::RelayPhase;
use can_gateway::relay::GATEWAY_TX_ID;

#[test]
fn relay_replaces_id_keeps_payload() {
    let f = Frame::new(0x111, vec![1, 2, 3, 4]).unwrap();
    let out = relay_frame(&f, GATEWAY_TX_ID);
    assert_eq!(out.id(), 0x500);
    assert_eq!(out.payload().as_slice(), &[1, 2, 3, 4]);
    assert_eq!(out.payload_len(), f.payload_len());
}

#[test]
fn basic_relay() {
    // A frame received on channel A goes out on channel B carrying the
    // same eight bytes under the gateway's fixed outbound identifier.
    let payload = [0x48, 0x65, 0x6A, 0x73, 0x61, 0x21, 0x20, 0x31];
    let mut gw = Gateway::new(GATEWAY_TX_ID).unwrap();
    gw.frame_arrives_a(Frame::new(0x111, payload.to_vec()).unwrap());
    assert_eq!(gw.relay_a_to_b(), Ok(true));
    let sent = gw.wire_take_b().unwrap();
    assert_eq!(sent.id(), GATEWAY_TX_ID);
    assert_eq!(sent.payload().as_slice(), &payload);
    assert_eq!(sent.payload_len(), 8);
}

#[test]
fn relay_both_directions() {
    let mut gw = Gateway::new(GATEWAY_TX_ID).unwrap();
    gw.frame_arrives_b(Frame::new(0x222, vec![5, 6]).unwrap());
    assert_eq!(gw.relay_b_to_a(), Ok(true));
    let sent = gw.wire_take_a().unwrap();
    assert_eq!(sent.id(), GATEWAY_TX_ID);
    assert_eq!(sent.payload().as_slice(), &[5, 6]);
    assert!(gw.wire_take_b().is_none());
}

#[test]
fn relay_with_nothing_pending() {
    let mut gw = Gateway::new(GATEWAY_TX_ID).unwrap();
    assert_eq!(gw.relay_a_to_b(), Ok(false));
    assert_eq!(gw.sent_count(), 0);
}

#[test]
fn relay_counts_send_cycles() {
    let mut gw = Gateway::new(GATEWAY_TX_ID).unwrap();
    for i in 0..3u8 {
        gw.frame_arrives_a(Frame::new(0x111, vec![i]).unwrap());
    }
    assert_eq!(gw.relay_a_to_b(), Ok(true));
    assert_eq!(gw.relay_a_to_b(), Ok(true));
    assert_eq!(gw.sent_count(), 2);
    // Frames leave in the order they arrived.
    assert_eq!(gw.wire_take_b().unwrap().payload().as_slice(), &[0]);
    assert_eq!(gw.wire_take_b().unwrap().payload().as_slice(), &[1]);
}

#[test]
fn relay_mailbox_exhaustion_fails() {
    let mut gw = Gateway::new(GATEWAY_TX_ID).unwrap();
    for i in 0..3u8 {
        gw.frame_arrives_a(Frame::new(0x111, vec![i]).unwrap());
        assert_eq!(gw.relay_a_to_b(), Ok(true));
    }
    // All three mailboxes on B hold pending frames; the next relay fails.
    gw.frame_arrives_a(Frame::new(0x111, vec![9]).unwrap());
    assert_eq!(gw.relay_a_to_b(), Err(SendError::MailboxFull));
    assert_eq!(gw.sent_count(), 3);
}

#[test]
fn rx_overrun_drops_newcomer() {
    let mut ch = Channel::new();
    for i in 0..4u8 {
        ch.frame_arrives(Frame::new(0x100, vec![i]).unwrap());
    }
    // The FIFO holds three frames; the fourth was lost and flagged.
    assert_eq!(ch.pending_rx(), 3);
    assert!(ch.take_overrun());
    assert!(!ch.take_overrun());
    // The survivors are the first three, oldest first.
    assert_eq!(ch.receive().unwrap().payload().as_slice(), &[0]);
    assert_eq!(ch.receive().unwrap().payload().as_slice(), &[1]);
    assert_eq!(ch.receive().unwrap().payload().as_slice(), &[2]);
    assert!(ch.receive().is_none());
}

#[test]
fn overrun_is_diagnostic_only() {
    // An overrun on the source channel is reported once and does not
    // stop the relay from moving the surviving frames.
    let mut gw = Gateway::new(GATEWAY_TX_ID).unwrap();
    for i in 0..4u8 {
        gw.frame_arrives_a(Frame::new(0x111, vec![i]).unwrap());
    }
    assert!(gw.take_overrun_a());
    assert!(!gw.take_overrun_a());
    assert!(!gw.take_overrun_b());
    assert_eq!(gw.relay_a_to_b(), Ok(true));
    assert_eq!(gw.wire_take_b().unwrap().payload().as_slice(), &[0]);
}

#[test]
fn counter_wraparound() {
    // The diagnostic byte counter reads 0 right after 255 + 1.
    let mut c = DiagCounter::new();
    for _ in 0..255 {
        c.fetch_add();
    }
    assert_eq!(c.value(), 255);
    assert_eq!(c.fetch_add(), 255);
    assert_eq!(c.value(), 0);
}

#[test]
fn counter_swap_resets() {
    let mut c = DiagCounter::new();
    c.fetch_add();
    c.fetch_add();
    assert_eq!(c.swap_zero(), 2);
    assert_eq!(c.value(), 0);
}

#[test]
fn relay_protocol_cycle() {
    let p = RelayPhase::Idle;
    let p = relay_step(p, RelayEvent::RxInterrupt);
    assert_eq!(p, RelayPhase::Draining);
    let p = relay_step(p, RelayEvent::FrameTaken);
    assert_eq!(p, RelayPhase::Relaying);
    assert_eq!(relay_step(p, RelayEvent::SendQueued), RelayPhase::Idle);
    assert_eq!(relay_step(p, RelayEvent::SendDropped), RelayPhase::Idle);
    // Stray events do not move the protocol.
    assert_eq!(relay_step(RelayPhase::Idle, RelayEvent::FrameTaken), RelayPhase::Idle);
    assert_eq!(relay_step(RelayPhase::Draining, RelayEvent::RxInterrupt), RelayPhase::Draining);
}

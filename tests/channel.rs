use quic_dispatch::channel::{ChannelError, IoOutcome, SlotState, SocketChannel};

#[test]
fn send_over_in_flight_send_is_refused() {
    let mut ch = SocketChannel::new();
    assert_eq!(ch.start_send(1200, IoOutcome::Pending), Ok(false));
    assert_eq!(ch.send, SlotState::InFlight);
    assert!(!ch.can_start_send());
    let before = ch;
    assert_eq!(
        ch.start_send(50, IoOutcome::Completed { bytes: 50 }),
        Err(ChannelError::Busy)
    );
    assert_eq!(ch, before);
    assert_eq!(ch.send_len, 1200);
    assert_eq!(ch.finish_send(1200), Ok(1200));
    assert!(ch.can_start_send());
    assert_eq!(ch.finish_send(1), Err(ChannelError::NotInFlight));
}

#[test]
fn send_completed_at_once_keeps_slot_free() {
    let mut ch = SocketChannel::new();
    assert_eq!(ch.start_send(10, IoOutcome::Completed { bytes: 10 }), Ok(true));
    assert_eq!(ch.send, SlotState::Idle);
    assert_eq!(
        ch.start_send(10, IoOutcome::Failed { code: 10054 }),
        Err(ChannelError::Fatal { code: 10054 })
    );
}

#[test]
fn receive_slot_cycle() {
    let mut ch = SocketChannel::new();
    assert!(ch.can_start_receive());
    assert_eq!(ch.start_receive(IoOutcome::Pending), Ok(None));
    assert_eq!(ch.recv, SlotState::InFlight);
    assert_eq!(ch.start_receive(IoOutcome::Pending), Err(ChannelError::Busy));
    assert_eq!(ch.take_received(), None);
    assert_eq!(ch.finish_receive(1350), Ok(1350));
    assert_eq!(ch.recv, SlotState::Ready);
    assert_eq!(ch.take_received(), Some(1350));
    assert_eq!(ch.recv, SlotState::Idle);
    assert_eq!(ch.finish_receive(3), Err(ChannelError::NotInFlight));
    assert_eq!(ch.start_receive(IoOutcome::Completed { bytes: 77 }), Ok(Some(77)));
    assert_eq!(ch.recv_len, 77);
    assert_eq!(ch.take_received(), Some(77));
    assert_eq!(
        ch.start_receive(IoOutcome::Failed { code: 5 }),
        Err(ChannelError::Fatal { code: 5 })
    );
    assert_eq!(ch.recv, SlotState::Idle);
}

//! Bridge behavior: bounded non-blocking channels, drop-on-full sends,
//! FIFO receipt, and last-value-wins draining.

use lunaris_core::bridge::{Bridge, Channel, SendOutcome, UiToWorldCommand};

#[test]
fn sends_with_room_are_delivered_in_order() {
    let mut ch: Channel<u64> = Channel::new(4);
    assert_eq!(ch.try_send(10), SendOutcome::Delivered);
    assert_eq!(ch.try_send(11), SendOutcome::Delivered);
    assert_eq!(ch.len(), 2);
    assert_eq!(ch.try_recv(), Some(10));
    assert_eq!(ch.try_recv(), Some(11));
    assert_eq!(ch.try_recv(), None);
}

#[test]
fn a_full_channel_drops_the_new_message_without_blocking() {
    let mut ch: Channel<u64> = Channel::new(2);
    assert_eq!(ch.try_send(1), SendOutcome::Delivered);
    assert_eq!(ch.try_send(2), SendOutcome::Delivered);
    assert_eq!(ch.try_send(3), SendOutcome::DroppedFull);
    assert_eq!(ch.len(), 2);
    // the buffered messages are untouched; the excess one is gone
    assert_eq!(ch.try_recv(), Some(1));
    assert_eq!(ch.try_recv(), Some(2));
    assert_eq!(ch.try_recv(), None);
}

#[test]
fn rapid_publishing_never_buffers_beyond_capacity() {
    // Publish 20 snapshots in rapid succession while the receiver has
    // not drained; the publish call always returns, the buffer never grows
    // beyond its capacity, and draining observes exactly one snapshot —
    // the most recent accepted one.
    let mut ch: Channel<u64> = Channel::new(8);
    let mut accepted: Vec<u64> = Vec::new();
    for snapshot in 0..20u64 {
        let outcome = ch.try_send(snapshot);
        if outcome == SendOutcome::Delivered {
            accepted.push(snapshot);
        }
        assert!(ch.len() <= 8, "no unbounded buffering");
    }
    assert_eq!(accepted.len(), 8);
    let observed = ch.drain_latest();
    assert_eq!(observed, Some(*accepted.last().unwrap()));
    assert_eq!(ch.len(), 0);
    assert_eq!(ch.drain_latest(), None);
}

#[test]
fn the_receiver_observes_exactly_the_most_recent_snapshot() {
    // With room for every publish, the drained value is the latest of all.
    let mut ch: Channel<u64> = Channel::new(32);
    for snapshot in 0..20u64 {
        assert_eq!(ch.try_send(snapshot), SendOutcome::Delivered);
    }
    assert_eq!(ch.drain_latest(), Some(19));
    assert_eq!(ch.len(), 0);
}

#[test]
fn bridge_channels_start_empty_with_the_given_capacity() {
    let mut bridge = Bridge::new(8);
    assert_eq!(bridge.commands.len(), 0);
    assert_eq!(bridge.states.len(), 0);
    assert_eq!(
        bridge.commands.try_send(UiToWorldCommand::SetPlayhead(7)),
        SendOutcome::Delivered
    );
    let got = bridge.commands.try_recv();
    assert!(matches!(got, Some(UiToWorldCommand::SetPlayhead(7))));
}

#[test]
fn command_channel_preserves_arrival_order() {
    let mut bridge = Bridge::new(4);
    bridge
        .commands
        .try_send(UiToWorldCommand::RequestRender { entity: 3, frame: 10 });
    bridge.commands.try_send(UiToWorldCommand::Quit);
    assert!(matches!(
        bridge.commands.try_recv(),
        Some(UiToWorldCommand::RequestRender { entity: 3, frame: 10 })
    ));
    assert!(matches!(bridge.commands.try_recv(), Some(UiToWorldCommand::Quit)));
}

#[test]
fn sends_to_a_gone_receiver_are_dropped_not_blocked() {
    let mut ch: Channel<u64> = Channel::new(4);
    ch.try_send(1);
    ch.close();
    assert_eq!(ch.try_send(2), SendOutcome::DroppedClosed);
    // what was buffered before the receiver left can still be drained
    assert_eq!(ch.try_recv(), Some(1));
    assert_eq!(ch.len(), 0);
}

#[test]
fn a_drained_closed_channel_reports_the_peer_gone() {
    let mut ch: Channel<u64> = Channel::new(4);
    ch.try_send(7);
    assert!(matches!(ch.recv_or_closed(), Ok(Some(7))));
    assert!(matches!(ch.recv_or_closed(), Ok(None)));
    ch.close();
    // the receiving side detects the closed channel and can shut down
    assert!(matches!(
        ch.recv_or_closed(),
        Err(lunaris_core::error::CoreError::ChannelClosed)
    ));
}

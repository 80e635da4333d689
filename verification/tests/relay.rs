use tcp_proxy::relay::{Relay, RelayAction, RelayError, RelayEvent, RelayStatus};

/// Drives a relay over an in-memory stream: every read yields at most
/// `read_max` bytes, every write accepts at most `write_max` bytes.
fn pump(
    source: &[u8],
    buffer_size: usize,
    read_max: usize,
    write_max: usize,
) -> (Vec<u8>, RelayStatus, usize) {
    let mut relay = Relay::new(buffer_size);
    let mut offset = 0;
    let mut sink = Vec::new();
    let mut steps = 0;
    loop {
        match relay.action() {
            RelayAction::Read => {
                let slot = relay.read_slot().expect("a relay that asks for a read lends its buffer");
                let n = slot.len().min(read_max).min(source.len() - offset);
                slot[..n].copy_from_slice(&source[offset..offset + n]);
                offset += n;
                assert!(relay.accepts(RelayEvent::ReadCompleted(n)));
                relay.step(RelayEvent::ReadCompleted(n));
            }
            RelayAction::Write => {
                let pending = relay.pending();
                let n = pending.len().min(write_max);
                sink.extend_from_slice(&pending[..n]);
                assert!(relay.accepts(RelayEvent::WriteCompleted(n)));
                relay.step(RelayEvent::WriteCompleted(n));
            }
            RelayAction::Stop => break,
        }
        steps += 1;
    }
    (sink, relay.status(), steps)
}

fn payload(len: usize) -> Vec<u8> {
    (0..len).map(|i| (i * 31 % 251) as u8).collect()
}

fn fill(relay: &mut Relay, bytes: &[u8]) {
    let slot = relay.read_slot().expect("the relay asks for a read");
    slot[..bytes.len()].copy_from_slice(bytes);
    relay.step(RelayEvent::ReadCompleted(bytes.len()));
}

#[test]
fn new_relay_asks_for_a_read() {
    let relay = Relay::new(1024);
    assert_eq!(relay.capacity(), 1024);
    assert_eq!(relay.status(), RelayStatus::Running);
    assert_eq!(relay.action(), RelayAction::Read);
    assert!(relay.pending().is_empty());
}

#[test]
fn read_slot_is_the_whole_zeroed_buffer() {
    let mut relay = Relay::new(7);
    let slot = relay.read_slot().expect("a new relay asks for a read");
    assert_eq!(slot.to_vec(), vec![0u8; 7]);
}

#[test]
fn read_makes_the_front_of_the_buffer_pending() {
    let mut relay = Relay::new(8);
    {
        let slot = relay.read_slot().unwrap();
        slot.copy_from_slice(b"abcdefgh");
    }
    let action = relay.step(RelayEvent::ReadCompleted(5));
    assert_eq!(action, RelayAction::Write);
    assert_eq!(relay.pending(), b"abcde");
    assert_eq!(relay.status(), RelayStatus::Running);
}

#[test]
fn end_of_stream_ends_the_relay_normally() {
    let mut relay = Relay::new(4);
    let action = relay.step(RelayEvent::ReadCompleted(0));
    assert_eq!(action, RelayAction::Stop);
    assert_eq!(relay.status(), RelayStatus::Done);
    assert_eq!(relay.action(), RelayAction::Stop);
}

#[test]
fn read_error_fails_the_relay() {
    let mut relay = Relay::new(4);
    fill(&mut relay, b"ab");
    relay.step(RelayEvent::WriteCompleted(2));
    let action = relay.step(RelayEvent::ReadFailed);
    assert_eq!(action, RelayAction::Stop);
    assert_eq!(relay.status(), RelayStatus::Failed(RelayError::Read));
}

#[test]
fn write_error_fails_the_relay() {
    let mut relay = Relay::new(4);
    fill(&mut relay, b"abcd");
    relay.step(RelayEvent::WriteCompleted(1));
    let action = relay.step(RelayEvent::WriteFailed);
    assert_eq!(action, RelayAction::Stop);
    assert_eq!(relay.status(), RelayStatus::Failed(RelayError::Write));
}

#[test]
fn write_of_nothing_fails_the_relay() {
    let mut relay = Relay::new(4);
    fill(&mut relay, b"abcd");
    let action = relay.step(RelayEvent::WriteCompleted(0));
    assert_eq!(action, RelayAction::Stop);
    assert_eq!(relay.status(), RelayStatus::Failed(RelayError::WriteZero));
}

#[test]
fn interrupted_write_is_tried_again() {
    let mut relay = Relay::new(4);
    fill(&mut relay, b"abcd");
    relay.step(RelayEvent::WriteCompleted(1));
    let action = relay.step(RelayEvent::WriteInterrupted);
    assert_eq!(action, RelayAction::Write);
    assert_eq!(relay.status(), RelayStatus::Running);
    assert_eq!(relay.pending(), b"bcd");
}

#[test]
fn partial_write_keeps_the_rest_pending() {
    let mut relay = Relay::new(16);
    fill(&mut relay, b"0123456789");
    assert_eq!(relay.step(RelayEvent::WriteCompleted(3)), RelayAction::Write);
    assert_eq!(relay.pending(), b"3456789");
    assert_eq!(relay.step(RelayEvent::WriteCompleted(1)), RelayAction::Write);
    assert_eq!(relay.pending(), b"456789");
    assert_eq!(relay.step(RelayEvent::WriteCompleted(6)), RelayAction::Read);
    assert!(relay.pending().is_empty());
}

#[test]
fn partial_writes_lose_and_repeat_nothing() {
    let source = payload(1000);
    for write_max in [1usize, 2, 3, 7, 64, 1000] {
        let (sink, status, _) = pump(&source, 64, 64, write_max);
        assert_eq!(status, RelayStatus::Done);
        assert_eq!(sink, source);
    }
}

#[test]
fn short_reads_lose_and_repeat_nothing() {
    let source = payload(1000);
    for read_max in [1usize, 5, 63, 64, 4096] {
        let (sink, status, _) = pump(&source, 64, read_max, 9);
        assert_eq!(status, RelayStatus::Done);
        assert_eq!(sink, source);
    }
}

#[test]
fn fidelity_in_both_directions() {
    let request = b"GET /test1 HTTP/1.1\r\nhost: 127.0.0.1:20000\r\n\r\n".to_vec();
    let response = payload(70_000);
    let (upstream_saw, outbound, _) = pump(&request, 1024, 1024, 1024);
    let (client_saw, inbound, _) = pump(&response, 1024, 700, 333);
    assert_eq!(outbound, RelayStatus::Done);
    assert_eq!(inbound, RelayStatus::Done);
    assert_eq!(upstream_saw, request);
    assert_eq!(client_saw, response);
}

#[test]
fn empty_stream_delivers_nothing() {
    let (sink, status, steps) = pump(&[], 1024, 1024, 1024);
    assert_eq!(status, RelayStatus::Done);
    assert!(sink.is_empty());
    assert_eq!(steps, 1);
}

#[test]
fn buffer_size_does_not_change_what_is_delivered() {
    let source = payload(200_000);
    for buffer_size in [1usize, 1024, 1024 * 1024] {
        let (sink, status, _) = pump(&source, buffer_size, usize::MAX, usize::MAX);
        assert_eq!(status, RelayStatus::Done);
        assert_eq!(sink, source);
    }
}

#[test]
fn buffer_size_decides_the_number_of_chunks() {
    let source = payload(10);
    // Each chunk is one read and one write; the end of the stream is one more read.
    assert_eq!(pump(&source, 1, usize::MAX, usize::MAX).2, 21);
    assert_eq!(pump(&source, 4, usize::MAX, usize::MAX).2, 7);
    assert_eq!(pump(&source, 10, usize::MAX, usize::MAX).2, 3);
    assert_eq!(pump(&source, 1024, usize::MAX, usize::MAX).2, 3);
}

#[test]
fn failure_keeps_what_was_delivered() {
    let mut relay = Relay::new(4);
    let mut sink = Vec::new();
    fill(&mut relay, b"abcd");
    sink.extend_from_slice(&relay.pending()[..2]);
    relay.step(RelayEvent::WriteCompleted(2));
    relay.step(RelayEvent::WriteFailed);
    assert_eq!(sink, b"ab");
    assert_eq!(relay.pending(), b"cd");
    assert_eq!(relay.action(), RelayAction::Stop);
}

#[test]
fn buffer_is_lent_only_for_a_read() {
    let mut relay = Relay::new(4);
    assert!(relay.read_slot().is_some());
    fill(&mut relay, b"abc");
    assert!(relay.read_slot().is_none());
    assert_eq!(relay.pending(), b"abc");
    relay.step(RelayEvent::WriteCompleted(3));
    assert!(relay.read_slot().is_some());
    relay.step(RelayEvent::ReadCompleted(0));
    assert!(relay.read_slot().is_none());
}

#[test]
fn events_are_accepted_only_in_their_turn() {
    let mut relay = Relay::new(4);
    assert!(relay.accepts(RelayEvent::ReadCompleted(0)));
    assert!(relay.accepts(RelayEvent::ReadCompleted(4)));
    assert!(!relay.accepts(RelayEvent::ReadCompleted(5)));
    assert!(relay.accepts(RelayEvent::ReadFailed));
    assert!(!relay.accepts(RelayEvent::WriteCompleted(0)));
    assert!(!relay.accepts(RelayEvent::WriteInterrupted));
    assert!(!relay.accepts(RelayEvent::WriteFailed));

    fill(&mut relay, b"abc");
    assert!(relay.accepts(RelayEvent::WriteCompleted(0)));
    assert!(relay.accepts(RelayEvent::WriteCompleted(3)));
    assert!(!relay.accepts(RelayEvent::WriteCompleted(4)));
    assert!(relay.accepts(RelayEvent::WriteInterrupted));
    assert!(relay.accepts(RelayEvent::WriteFailed));
    assert!(!relay.accepts(RelayEvent::ReadCompleted(1)));
    assert!(!relay.accepts(RelayEvent::ReadFailed));
}

#[test]
fn ended_relay_accepts_nothing() {
    let mut done = Relay::new(4);
    done.step(RelayEvent::ReadCompleted(0));
    let mut failed = Relay::new(4);
    failed.step(RelayEvent::ReadFailed);
    for relay in [&done, &failed] {
        assert!(!relay.accepts(RelayEvent::ReadCompleted(0)));
        assert!(!relay.accepts(RelayEvent::ReadCompleted(1)));
        assert!(!relay.accepts(RelayEvent::ReadFailed));
        assert!(!relay.accepts(RelayEvent::WriteCompleted(0)));
        assert!(!relay.accepts(RelayEvent::WriteInterrupted));
        assert!(!relay.accepts(RelayEvent::WriteFailed));
    }
}

#[test]
fn buffer_is_reused_for_every_chunk() {
    let mut relay = Relay::new(4);
    fill(&mut relay, b"abcd");
    relay.step(RelayEvent::WriteCompleted(4));
    // The second chunk is shorter: only its own bytes are pending, although
    // the buffer still holds the end of the first.
    fill(&mut relay, b"xy");
    assert_eq!(relay.pending(), b"xy");
    relay.step(RelayEvent::WriteCompleted(2));
    let slot = relay.read_slot().unwrap();
    assert_eq!(slot.to_vec(), b"xycd".to_vec());
}

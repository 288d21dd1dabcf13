use ftoc::packet::{Packet, PacketData, PacketStart};
use ftoc::receiver::{Receiver, RecvAction, RecvPhase};
use ftoc::sender::Sender;

fn start(name: &str, length: u64, timeout: u32) -> Packet {
    Packet::Start(PacketStart {
        name: name.to_owned(),
        length,
        timeout,
    })
}

fn data(index: u64, bytes: &[u8]) -> Packet {
    Packet::Data(PacketData {
        index,
        data: bytes.to_vec(),
    })
}

#[test]
fn sender_resume_arithmetic() {
    // skip=2 chunks of 5 bytes: reading starts at offset 10, emission at block 3
    let mut s = Sender::new(5, 2);
    assert_eq!(s.start_offset(), 10);
    let p = s.next_packet(vec![9, 9, 9]);
    assert_eq!(p, data(3, &[9, 9, 9]));
    assert_eq!(s.index, 3);
    assert!(!s.finished);
}

#[test]
fn sender_plain_run() {
    let mut s = Sender::new(4, 0);
    assert_eq!(s.start_offset(), 0);
    assert_eq!(s.next_packet(vec![1, 2, 3, 4]), data(1, &[1, 2, 3, 4]));
    assert_eq!(s.next_packet(vec![5]), data(2, &[5]));
    let p = s.next_packet(vec![]);
    assert_eq!(p, Packet::End);
    assert!(s.finished);
}

#[test]
fn sender_announce() {
    let s = Sender::new(500 * 1024, 0);
    let p = s.announce("a.bin".to_owned(), 10, 500);
    assert_eq!(p, start("a.bin", 10, 500));
}

#[test]
fn receiver_full_transfer() {
    // the announced 10 bytes arrive in two blocks; the receiver walks
    // Waiting -> Receiving -> Completed and reproduces the concatenation
    let mut r = Receiver::new(500);
    assert_eq!(r.phase, RecvPhase::Waiting);

    let a = r.on_packet(start("a.bin", 10, 500));
    assert_eq!(
        a,
        RecvAction::Open {
            name: "a.bin".to_owned()
        }
    );
    assert_eq!(r.phase, RecvPhase::Receiving);
    assert_eq!(r.announced_length, 10);
    assert_eq!(r.poll_ms, 350);
    r.output_opened(true);

    let mut out = Vec::new();
    for (i, chunk) in [[0u8, 1, 2, 3, 4], [5u8, 6, 7, 8, 9]].iter().enumerate() {
        match r.on_packet(data(i as u64 + 1, chunk)) {
            RecvAction::Write { data } => out.extend_from_slice(&data),
            other => panic!("expected a write, got {other:?}"),
        }
    }
    assert_eq!(out, vec![0, 1, 2, 3, 4, 5, 6, 7, 8, 9]);
    assert_eq!(r.received_length, 10);

    let a = r.on_packet(Packet::End);
    assert_eq!(a, RecvAction::Finish);
    assert_eq!(r.phase, RecvPhase::Completed);
}

#[test]
fn receiver_rejects_out_of_order_block() {
    // block 2 before block 1: rejected, nothing mutates but the staleness clock
    let mut r = Receiver::new(500);
    r.on_packet(start("a.bin", 10, 500));
    r.output_opened(true);
    let a = r.on_packet(data(2, &[7, 7]));
    assert_eq!(a, RecvAction::Reject { warn: false });
    assert_eq!(r.last_index, 0);
    assert_eq!(r.received_length, 0);
    assert_eq!(r.stale_ms, 350);
}

#[test]
fn receiver_rejects_duplicate_block() {
    let mut r = Receiver::new(500);
    r.on_packet(start("a.bin", 4, 500));
    r.output_opened(true);
    assert!(matches!(
        r.on_packet(data(1, &[1, 2])),
        RecvAction::Write { .. }
    ));
    // the slot still holds block 1: a repeated read must not count twice
    let a = r.on_packet(data(1, &[1, 2]));
    assert_eq!(a, RecvAction::Reject { warn: false });
    assert_eq!(r.last_index, 1);
    assert_eq!(r.received_length, 2);
}

#[test]
fn receiver_stall_warning_after_threshold() {
    // the staleness clock ages by the receiver's poll interval, which in a
    // session is the announced pacing interval less the safety margin
    let mut r = Receiver::new(500);
    r.on_packet(start("a.bin", 10, 6000));
    r.output_opened(true);
    assert_eq!(r.poll_ms, 5850);
    assert_eq!(r.on_packet(data(5, &[0])), RecvAction::Reject { warn: false });
    assert_eq!(r.stale_ms, 5850);
    // 11700 ms of staleness passes the 10000 ms threshold: warn and start over
    assert_eq!(r.on_packet(data(5, &[0])), RecvAction::Reject { warn: true });
    assert_eq!(r.stale_ms, 0);
}

#[test]
fn receiver_ignores_premature_end() {
    // End with 7 of 10 announced bytes: ignored, still receiving
    let mut r = Receiver::new(500);
    r.on_packet(start("a.bin", 10, 500));
    r.output_opened(true);
    r.on_packet(data(1, &[0, 1, 2, 3, 4, 5, 6]));
    assert_eq!(r.received_length, 7);
    let a = r.on_packet(Packet::End);
    assert_eq!(a, RecvAction::IgnoreEnd);
    assert_eq!(r.phase, RecvPhase::Receiving);
    // once the rest arrives, a later End still completes the session
    r.on_packet(data(2, &[7, 8, 9]));
    assert_eq!(r.on_packet(Packet::End), RecvAction::Finish);
    assert_eq!(r.phase, RecvPhase::Completed);
}

#[test]
fn receiver_honours_start_once() {
    let mut r = Receiver::new(500);
    r.on_packet(start("a.bin", 10, 500));
    r.output_opened(true);
    // the slot still holds Start: a repeated read must not reset the session
    let a = r.on_packet(start("other.bin", 99, 2000));
    assert_eq!(a, RecvAction::Ignore);
    assert_eq!(r.announced_length, 10);
    assert_eq!(r.poll_ms, 350);
}

#[test]
fn receiver_ignores_traffic_before_start() {
    let mut r = Receiver::new(500);
    assert_eq!(r.on_packet(data(1, &[1])), RecvAction::Ignore);
    assert_eq!(r.on_packet(Packet::End), RecvAction::Ignore);
    assert_eq!(r.on_packet(Packet::Noop), RecvAction::SleepIdle);
    assert_eq!(r.phase, RecvPhase::Waiting);
}

#[test]
fn receiver_aborts_when_output_fails() {
    let mut r = Receiver::new(500);
    r.on_packet(start("a.bin", 10, 500));
    r.output_opened(false);
    assert_eq!(r.phase, RecvPhase::Aborted);
}

#[test]
fn receiver_poll_interval_saturates_at_zero() {
    // an announced pacing interval below the safety margin cannot go negative
    let mut r = Receiver::new(500);
    r.on_packet(start("a.bin", 10, 100));
    assert_eq!(r.poll_ms, 0);
}

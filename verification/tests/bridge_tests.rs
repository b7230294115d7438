use connectors::bridge::{Bridge, ReadOutcome, ReadPoll, WriteOutcome, WritePoll};
use connectors::bridge::copy_into;
use connectors::errors::IoErrorKind;
use connectors::loopback::{bridge_read, bridge_write, loopback_ordered_writes, loopback_round_trip, LoopbackStream};

fn round_trip(data: Vec<u8>) {
    let out = loopback_round_trip(&data);
    assert_eq!(out, data);
}

#[test]
fn round_trip_empty() {
    round_trip(Vec::new());
}

#[test]
fn round_trip_one_byte() {
    round_trip(vec![42u8]);
}

#[test]
fn round_trip_4096() {
    let data: Vec<u8> = (0..4096usize).map(|i| (i % 251) as u8).collect();
    round_trip(data);
}

#[test]
fn round_trip_one_mebibyte() {
    let data: Vec<u8> = (0..(1usize << 20)).map(|i| (i % 257) as u8).collect();
    round_trip(data);
}

#[test]
fn writes_read_back_in_order() {
    let d1 = vec![1u8, 2, 3];
    let d2 = vec![4u8, 5];
    let out = loopback_ordered_writes(&d1, &d2);
    assert_eq!(out, vec![1u8, 2, 3, 4, 5]);
}

#[test]
fn first_poll_submits_then_pending() {
    let mut b = Bridge::new();
    let first = b.poll_read(16);
    assert!(matches!(first, ReadPoll::Submitted { len: 16 }));
    let second = b.poll_read(16);
    assert!(matches!(second, ReadPoll::Pending));
}

#[test]
fn eof_reported_and_stream_closed() {
    let mut b = Bridge::new();
    let first = b.poll_read(8);
    assert!(matches!(first, ReadPoll::Submitted { .. }));
    b.on_read_complete(ReadOutcome::Bytes { data: Vec::new() });
    let second = b.poll_read(8);
    assert!(matches!(second, ReadPoll::Eof));
    // After end of stream the bridge never submits again.
    let third = b.poll_read(8);
    assert!(matches!(third, ReadPoll::Eof));
}

#[test]
fn error_surfaced_on_next_poll_then_unusable() {
    let mut b = Bridge::new();
    let first = b.poll_read(8);
    assert!(matches!(first, ReadPoll::Submitted { .. }));
    b.on_read_complete(ReadOutcome::Failure { error: IoErrorKind::TimedOut });
    let second = b.poll_read(8);
    assert!(matches!(second, ReadPoll::Failed { error: IoErrorKind::TimedOut }));
    let third = b.poll_read(8);
    assert!(matches!(third, ReadPoll::Failed { error: IoErrorKind::TimedOut }));
}

#[test]
fn completed_bytes_handed_back_in_full() {
    let mut b = Bridge::new();
    let first = b.poll_read(4);
    assert!(matches!(first, ReadPoll::Submitted { len: 4 }));
    b.on_read_complete(ReadOutcome::Bytes { data: vec![9u8, 8, 7] });
    match b.poll_read(4) {
        ReadPoll::Ready { data } => assert_eq!(data, vec![9u8, 8, 7]),
        other => panic!("expected ready, got {:?}", other),
    }
}

#[test]
fn write_stages_callers_bytes_exactly() {
    let mut b = Bridge::new();
    let data = vec![10u8, 20, 30];
    match b.poll_write(&data) {
        WritePoll::Submitted { staged } => assert_eq!(staged, data),
        other => panic!("expected submitted, got {:?}", other),
    }
    let pending = b.poll_write(&data);
    assert!(matches!(pending, WritePoll::Pending));
    b.on_write_complete(WriteOutcome::Written { n: 3 });
    match b.poll_write(&data) {
        WritePoll::Flushed { written } => assert_eq!(written, 3),
        other => panic!("expected flushed, got {:?}", other),
    }
}

#[test]
fn cancel_detaches_without_corrupting_state() {
    let mut b = Bridge::new();
    let first = b.poll_read(8);
    assert!(matches!(first, ReadPoll::Submitted { .. }));
    // Dropping interest mid-flight: the operation stays detached with
    // its engine-owned buffer.
    let detached = b.cancel_read();
    assert!(detached);
    // The detached completion is still delivered to the next poll.
    b.on_read_complete(ReadOutcome::Bytes { data: vec![5u8] });
    match b.poll_read(8) {
        ReadPoll::Ready { data } => assert_eq!(data, vec![5u8]),
        other => panic!("expected ready, got {:?}", other),
    }
}

#[test]
fn cancel_then_drop_leaves_other_connections_untouched() {
    let mut canceled = Bridge::new();
    let stream = LoopbackStream::new();
    let first = canceled.poll_read(64);
    assert!(matches!(first, ReadPoll::Submitted { .. }));
    assert!(canceled.cancel_read());
    drop(canceled);
    drop(stream);
    // A subsequent unrelated operation on a different connection works.
    let out = loopback_round_trip(&vec![1u8, 2, 3, 4]);
    assert_eq!(out, vec![1u8, 2, 3, 4]);
}

#[test]
fn cancel_with_nothing_in_flight_detaches_nothing() {
    let mut b = Bridge::new();
    assert!(!b.cancel_read());
}

#[test]
fn driver_reads_only_what_is_queued() {
    let mut writer = Bridge::new();
    let mut reader = Bridge::new();
    let mut stream = LoopbackStream::new();
    let flushed = bridge_write(&mut writer, &mut stream, &vec![1u8, 2, 3]);
    assert_eq!(flushed, Ok(3));
    let got = bridge_read(&mut reader, &mut stream, 2);
    assert_eq!(got, Ok(vec![1u8, 2]));
    let mut reader2 = Bridge::new();
    let rest = bridge_read(&mut reader2, &mut stream, 10);
    assert_eq!(rest, Ok(vec![3u8]));
}

#[test]
fn copy_into_caller_region() {
    let mut out = vec![0u8; 4];
    let n = copy_into(&mut out, &vec![1u8, 2]);
    assert_eq!(n, 2);
    assert_eq!(out, vec![1u8, 2, 0, 0]);
    let mut small = vec![0u8; 2];
    let n2 = copy_into(&mut small, &vec![7u8, 8, 9]);
    assert_eq!(n2, 2);
    assert_eq!(small, vec![7u8, 8]);
}

use snowflake::clock::{block_until, wall_clock_millis};
use snowflake::error::SnowflakeError;
use snowflake::layout::{
    pack_id, sequence_of, timestamp_of, worker_id_of, MAX_SEQUENCE, MAX_TIMESTAMP, MAX_WORKER_ID,
};
use snowflake::state::WorkerState;
use snowflake::worker::SnowFlakeWorker;
use std::collections::HashSet;

#[test]
fn it_works() {
    let instant = std::time::Instant::now();
    let generator = SnowFlakeWorker::new(1).unwrap();

    for _ in 0..50000 {
        assert!(generator.next_id().is_ok())
    }

    let duration: std::time::Duration = std::time::Instant::now() - instant;
    println!("Generating 50000 IDs took: {}ms", duration.as_millis())
}

#[test]
fn worker_id_range() {
    let w = SnowFlakeWorker::new(1023).unwrap();
    assert_eq!(w.worker_id(), 1023);
    assert!(SnowFlakeWorker::new(0).is_ok());
    assert!(matches!(SnowFlakeWorker::new(1024), Err(SnowflakeError::Configuration)));
    assert!(matches!(SnowFlakeWorker::new(u16::MAX), Err(SnowflakeError::Configuration)));
}

#[test]
fn ids_are_distinct_and_increasing() {
    let w = SnowFlakeWorker::new(42).unwrap();
    let mut seen = HashSet::new();
    let mut previous = 0u64;
    for _ in 0..50000 {
        let id = w.next_id().unwrap();
        assert!(id > previous);
        assert!(seen.insert(id));
        assert_eq!(worker_id_of(id), 42);
        previous = id;
    }
    assert_eq!(seen.len(), 50000);
}

#[test]
fn id_carries_clock_time() {
    let before = wall_clock_millis();
    let w = SnowFlakeWorker::new(5).unwrap();
    assert!(before <= w.started_at());
    let id = w.next_id().unwrap();
    let after = wall_clock_millis();
    let t = timestamp_of(id);
    assert!(w.started_at() <= t);
    assert!(before <= t && t <= after + 1);
    assert!(id > pack_id(w.started_at(), 5, 0));
    assert_eq!(worker_id_of(id), 5);
}

fn shareable_across_threads<T: Send + Sync>() {}

#[test]
fn worker_is_send_and_sync() {
    shareable_across_threads::<SnowFlakeWorker>();
}

#[test]
fn state_next_id_advances() {
    let mut s = WorkerState::new(wall_clock_millis());
    let a = s.next_id(9).unwrap();
    assert_eq!(timestamp_of(a), s.last_timestamp);
    assert_eq!(sequence_of(a), s.sequence);
    let b = s.next_id(9).unwrap();
    assert!(b > a);
    assert_eq!(worker_id_of(b), 9);
}

#[test]
fn sequence_rollover() {
    let mut s = WorkerState::new(1000);
    let first = s.issue_at(7, 1001).unwrap().unwrap();
    assert_eq!(sequence_of(first), 0);
    assert_eq!(timestamp_of(first), 1001);
    for k in 1..=4095u16 {
        let id = s.issue_at(7, 1001).unwrap().unwrap();
        assert_eq!(sequence_of(id), k);
        assert_eq!(timestamp_of(id), 1001);
    }
    assert_eq!(s.sequence, MAX_SEQUENCE);
    // The 4097th reading in the same millisecond needs a later one.
    assert_eq!(s.issue_at(7, 1001), Ok(None));
    assert_eq!(s, WorkerState { last_timestamp: 1001, sequence: 4095 });
    let next = s.issue_at(7, 1002).unwrap().unwrap();
    assert_eq!(sequence_of(next), 0);
    assert_eq!(timestamp_of(next), 1002);
    assert_eq!(worker_id_of(next), 7);
}

#[test]
fn same_millisecond_increments_sequence() {
    let mut s = WorkerState::new(1000);
    assert_eq!(s.issue_at(3, 1000), Ok(Some(pack_id(1000, 3, 1))));
    assert_eq!(s, WorkerState { last_timestamp: 1000, sequence: 1 });
    assert_eq!(s.issue_at(3, 1005), Ok(Some(pack_id(1005, 3, 0))));
    assert_eq!(s, WorkerState { last_timestamp: 1005, sequence: 0 });
}

#[test]
fn clock_regression_leaves_state() {
    let mut s = WorkerState { last_timestamp: 1000, sequence: 5 };
    assert_eq!(s.issue_at(1, 999), Err(SnowflakeError::ClockRegression));
    assert_eq!(s, WorkerState { last_timestamp: 1000, sequence: 5 });
    assert_eq!(s.issue_at(1, 0), Err(SnowflakeError::ClockRegression));
    assert_eq!(s, WorkerState { last_timestamp: 1000, sequence: 5 });
}

#[test]
fn timestamp_overflow() {
    let mut s = WorkerState::new(MAX_TIMESTAMP);
    assert_eq!(s.issue_at(1, MAX_TIMESTAMP + 1), Err(SnowflakeError::TimestampOverflow));
    assert_eq!(s, WorkerState { last_timestamp: MAX_TIMESTAMP, sequence: 0 });
    let id = s.issue_at(1, MAX_TIMESTAMP).unwrap().unwrap();
    assert_eq!(timestamp_of(id), MAX_TIMESTAMP);
    assert_eq!(sequence_of(id), 1);
}

#[test]
fn decode_round_trip() {
    let id = pack_id(1700000000000, 7, 42);
    assert_eq!(id, 7130316800000028714);
    assert_eq!(timestamp_of(id), 1700000000000);
    assert_eq!(worker_id_of(id), 7);
    assert_eq!(sequence_of(id), 42);
}

#[test]
fn pack_extremes() {
    assert_eq!(pack_id(0, 0, 0), 0);
    assert_eq!(pack_id(0, 0, MAX_SEQUENCE), 4095);
    assert_eq!(pack_id(0, MAX_WORKER_ID, 0), 1023 << 12);
    assert_eq!(pack_id(1, 0, 0), 1 << 22);
    assert_eq!(pack_id(MAX_TIMESTAMP, MAX_WORKER_ID, MAX_SEQUENCE), u64::MAX);
    assert_eq!(timestamp_of(u64::MAX), MAX_TIMESTAMP);
    assert_eq!(worker_id_of(u64::MAX), MAX_WORKER_ID);
    assert_eq!(sequence_of(u64::MAX), MAX_SEQUENCE);
}

#[test]
fn clock_reads_after_epoch() {
    let now = wall_clock_millis();
    // 2020-01-01 in milliseconds since the Unix epoch.
    assert!(now > 1577836800000);
    let later = block_until(now).unwrap();
    assert!(later > now);
}

use perf_collector::reader::{Reader, ReaderError};
use perf_collector::ring::{PerfRing, PERF_RECORD_LOST, PERF_RECORD_SAMPLE};
use perf_collector::ring_reader::{Reader as RingReader, RingReaderError};

const PAGE: u64 = 4096;

fn new_ring() -> PerfRing {
    let data = vec![0u8; (PAGE * 3) as usize];
    PerfRing::init_contiguous(&data, 2, PAGE).unwrap()
}

fn ring_with(records: &[(&[u8], u32)]) -> PerfRing {
    let mut ring = new_ring();
    ring.start_write_batch();
    for (data, kind) in records {
        ring.write(data, *kind).unwrap();
    }
    ring.finish_write_batch();
    ring
}

/// A sample payload as the producer writes it: kind, timestamp, then data.
fn sample(kind: u32, ts: u64, tail: &[u8]) -> Vec<u8> {
    let mut v = Vec::new();
    v.extend_from_slice(&kind.to_le_bytes());
    v.extend_from_slice(&ts.to_le_bytes());
    v.extend_from_slice(tail);
    v
}

fn event(ts: u64, text: &[u8; 8]) -> Vec<u8> {
    let mut e = vec![0u8; 20];
    e[4..12].copy_from_slice(&ts.to_le_bytes());
    e[12..20].copy_from_slice(text);
    e
}

#[test]
fn reader_test_ring_reader() {
    let mut reader = Reader::new();
    reader.add_ring(new_ring()).unwrap();
    reader.add_ring(new_ring()).unwrap();

    reader.start().unwrap();
    assert!(matches!(reader.add_ring(new_ring()), Err(ReaderError::AlreadyActive)));
    reader.finish().unwrap();

    reader.start().unwrap();
    assert!(reader.is_empty());
    reader.finish().unwrap();

    assert!(reader.is_empty());
    assert!(matches!(reader.peek_timestamp(), Err(ReaderError::NotActive)));
    assert!(matches!(reader.current_ring(), Err(ReaderError::NotActive)));
    assert!(matches!(reader.pop(), Err(ReaderError::NotActive)));

    // Rings written by their producers before they join the reader.
    let event1 = sample(7, 100, b"event1  ");
    let event2 = sample(7, 200, b"event2  ");
    let mut reader = Reader::new();
    reader.add_ring(ring_with(&[(&event1, PERF_RECORD_SAMPLE)])).unwrap();
    reader.add_ring(ring_with(&[(&event2, PERF_RECORD_SAMPLE)])).unwrap();
    reader.start().unwrap();
    assert!(!reader.is_empty());

    let expected_timestamps = [100u64, 200];
    let expected_ring_data = [&event1[..], &event2[..]];
    for (i, &expected) in expected_timestamps.iter().enumerate() {
        let ts = reader.peek_timestamp().unwrap();
        assert_eq!(ts, expected, "Expected timestamp {}, got {}", expected, ts);
        let (ring, idx) = reader.current_ring().unwrap();
        assert!(idx < 2);
        let size = ring.peek_size().unwrap();
        let expected_size = ((expected_ring_data[i].len() + 4 + 7) / 8) * 8;
        assert_eq!(size, expected_size);
        let mut ring_data = vec![0u8; expected_ring_data[i].len()];
        ring.peek_copy(&mut ring_data, 4).unwrap();
        assert_eq!(&ring_data[..], expected_ring_data[i]);
        reader.pop().unwrap();
    }
    assert!(reader.is_empty(), "Expected reader to be empty after reading all events");
    reader.finish().unwrap();
    assert!(reader.is_empty());
    assert!(matches!(reader.peek_timestamp(), Err(ReaderError::NotActive)));
    assert!(matches!(reader.current_ring(), Err(ReaderError::NotActive)));
    assert!(matches!(reader.pop(), Err(ReaderError::NotActive)));
}

#[test]
fn reader_test_lost_records() {
    // Within one ring, records keep their order whatever their type.
    let event1 = sample(7, 100, b"event1  ");
    let event2 = sample(7, 0, b"lost!   ");
    let mut reader = Reader::new();
    reader
        .add_ring(ring_with(&[(&event1, PERF_RECORD_SAMPLE), (&event2, PERF_RECORD_LOST)]))
        .unwrap();
    reader.add_ring(new_ring()).unwrap();
    reader.start().unwrap();
    assert_eq!(reader.peek_timestamp().unwrap(), 100);
    let (ring, idx) = reader.current_ring().unwrap();
    assert_eq!(idx, 0);
    assert_eq!(ring.peek_type(), PERF_RECORD_SAMPLE);
    reader.pop().unwrap();
    assert_eq!(reader.peek_timestamp().unwrap(), 0);
    let (ring, idx) = reader.current_ring().unwrap();
    assert_eq!(idx, 0);
    assert_eq!(ring.peek_type(), PERF_RECORD_LOST);
    reader.pop().unwrap();
    reader.finish().unwrap();

    // A lost record of one ring comes before a sample of another.
    let normal_event = sample(7, 100, b"normal  ");
    let mut lost_event = vec![0u8; 16];
    lost_event[8..16].copy_from_slice(b"lost!   ");
    let mut reader = Reader::new();
    reader.add_ring(ring_with(&[(&normal_event, PERF_RECORD_SAMPLE)])).unwrap();
    reader.add_ring(ring_with(&[(&lost_event, PERF_RECORD_LOST)])).unwrap();
    reader.start().unwrap();
    assert_eq!(reader.peek_timestamp().unwrap(), 0);
    let (ring, idx) = reader.current_ring().unwrap();
    assert_eq!(idx, 1);
    assert_eq!(ring.peek_type(), PERF_RECORD_LOST);
    reader.pop().unwrap();
    assert_eq!(reader.peek_timestamp().unwrap(), 100);
    let (ring, idx) = reader.current_ring().unwrap();
    assert_eq!(idx, 0);
    assert_eq!(ring.peek_type(), PERF_RECORD_SAMPLE);
    reader.pop().unwrap();
    assert!(reader.is_empty());
    reader.finish().unwrap();
}

#[test]
fn test_ring_reader() {
    let mut reader = RingReader::new();
    assert!(matches!(reader.start(), Err(RingReaderError::NoRings)));
    reader.add_ring(new_ring()).unwrap();
    reader.start().unwrap();
    assert!(matches!(reader.add_ring(new_ring()), Err(RingReaderError::AlreadyActive)));
    assert!(matches!(reader.start(), Err(RingReaderError::AlreadyActive)));
    assert!(reader.is_empty());
    assert!(matches!(reader.peek_timestamp(), Err(RingReaderError::BufferEmpty)));
    assert!(matches!(reader.pop(), Err(RingReaderError::BufferEmpty)));
    reader.finish().unwrap();
    assert!(matches!(reader.peek_timestamp(), Err(RingReaderError::NotActive)));

    // Timestamps sit in the first eight bytes after the sample size field.
    let mut reader = RingReader::new();
    let mut e1 = vec![0u8; 16];
    e1[0..8].copy_from_slice(&200u64.to_le_bytes());
    let mut e2 = vec![0u8; 16];
    e2[0..8].copy_from_slice(&100u64.to_le_bytes());
    reader.add_ring(ring_with(&[(&e1, PERF_RECORD_SAMPLE)])).unwrap();
    reader.add_ring(ring_with(&[(&e2, PERF_RECORD_SAMPLE)])).unwrap();
    reader.start().unwrap();
    assert_eq!(reader.peek_timestamp().unwrap(), 100);
    assert_eq!(reader.current_ring().unwrap().1, 1);
    reader.pop().unwrap();
    assert_eq!(reader.peek_timestamp().unwrap(), 200);
    reader.pop().unwrap();
    assert!(reader.is_empty());
    reader.finish().unwrap();
}

#[test]
fn test_lost_records() {
    let mut reader = RingReader::new();
    let mut sample_rec = vec![0u8; 16];
    sample_rec[0..8].copy_from_slice(&100u64.to_le_bytes());
    reader.add_ring(ring_with(&[(&sample_rec, PERF_RECORD_SAMPLE)])).unwrap();
    reader.add_ring(ring_with(&[(&[0u8; 16], PERF_RECORD_LOST)])).unwrap();
    reader.start().unwrap();
    assert_eq!(reader.peek_timestamp().unwrap(), 0);
    let (ring, idx) = reader.current_ring().unwrap();
    assert_eq!(idx, 1);
    assert_eq!(ring.peek_type(), PERF_RECORD_LOST);
    reader.pop().unwrap();
    assert_eq!(reader.peek_timestamp().unwrap(), 100);
    reader.pop().unwrap();
    assert!(reader.is_empty());
    reader.finish().unwrap();
}

#[test]
fn two_rings_two_samples() {
    let mut reader = Reader::new();
    reader.add_ring(ring_with(&[(&sample(3, 200, &[1, 0, 0, 0, 10, 0, 0, 0]), PERF_RECORD_SAMPLE)])).unwrap();
    reader.add_ring(ring_with(&[(&sample(3, 100, &[2, 0, 0, 0, 20, 0, 0, 0]), PERF_RECORD_SAMPLE)])).unwrap();
    reader.start().unwrap();
    assert_eq!(reader.peek_timestamp().unwrap(), 100);
    reader.pop().unwrap();
    assert_eq!(reader.peek_timestamp().unwrap(), 200);
    reader.pop().unwrap();
    assert!(matches!(reader.pop(), Err(ReaderError::BufferEmpty)));
}

#[test]
fn merge_orders_many_samples_with_ties_by_ring() {
    let mut reader = Reader::new();
    reader
        .add_ring(ring_with(&[
            (&sample(3, 10, &[]), PERF_RECORD_SAMPLE),
            (&sample(3, 40, &[]), PERF_RECORD_SAMPLE),
            (&sample(3, 50, &[]), PERF_RECORD_SAMPLE),
        ]))
        .unwrap();
    reader
        .add_ring(ring_with(&[
            (&sample(3, 10, &[]), PERF_RECORD_SAMPLE),
            (&sample(3, 20, &[]), PERF_RECORD_SAMPLE),
            (&sample(3, 60, &[]), PERF_RECORD_SAMPLE),
        ]))
        .unwrap();
    reader.start().unwrap();
    let mut order = Vec::new();
    while !reader.is_empty() {
        let ts = reader.peek_timestamp().unwrap();
        let (_, idx) = reader.current_ring().unwrap();
        order.push((ts, idx));
        reader.pop().unwrap();
    }
    assert_eq!(order, vec![(10, 0), (10, 1), (20, 1), (40, 0), (50, 0), (60, 1)]);
    reader.finish().unwrap();
}

#[test]
fn short_sample_gets_key_zero() {
    let mut reader = Reader::new();
    reader.add_ring(ring_with(&[(&sample(3, 500, &[]), PERF_RECORD_SAMPLE)])).unwrap();
    reader.add_ring(ring_with(&[(&[1u8, 2, 3, 4], PERF_RECORD_SAMPLE)])).unwrap();
    reader.start().unwrap();
    assert_eq!(reader.peek_timestamp().unwrap(), 0);
    assert_eq!(reader.current_ring().unwrap().1, 1);
}

#[test]
fn finish_publishes_consumed_space() {
    let mut reader = Reader::new();
    reader.add_ring(ring_with(&[(&sample(3, 1, &[0u8; 3000]), PERF_RECORD_SAMPLE)])).unwrap();
    assert!(matches!(reader.finish(), Ok(())));
    reader.start().unwrap();
    reader.pop().unwrap();
    reader.finish().unwrap();
    reader.start().unwrap();
    assert!(reader.is_empty());
}

#[test]
fn reader_follows_an_outside_producer() {
    let mut shared = vec![0u8; (PAGE * 3) as usize];
    let mut reader = Reader::new();
    reader.add_ring(PerfRing::init_contiguous(&shared, 2, PAGE).unwrap()).unwrap();

    // The producer lays a lost-records notification and a sample into the
    // data region, then publishes its head.
    let base = PAGE as usize;
    shared[base..base + 4].copy_from_slice(&PERF_RECORD_LOST.to_le_bytes());
    shared[base + 6..base + 8].copy_from_slice(&24u16.to_le_bytes());
    let s = base + 24;
    shared[s..s + 4].copy_from_slice(&PERF_RECORD_SAMPLE.to_le_bytes());
    shared[s + 6..s + 8].copy_from_slice(&32u16.to_le_bytes());
    shared[s + 8..s + 12].copy_from_slice(&24u32.to_le_bytes());
    shared[s + 12..s + 16].copy_from_slice(&3u32.to_le_bytes());
    shared[s + 16..s + 24].copy_from_slice(&900u64.to_le_bytes());
    shared[1024..1032].copy_from_slice(&56u64.to_le_bytes());

    reader.sync_ring(0, &shared).unwrap();
    reader.start().unwrap();
    assert!(matches!(reader.sync_ring(0, &shared), Err(ReaderError::AlreadyActive)));
    assert_eq!(reader.peek_timestamp().unwrap(), 0);
    reader.pop().unwrap();
    assert_eq!(reader.peek_timestamp().unwrap(), 900);
    reader.pop().unwrap();
    assert!(reader.is_empty());
    reader.finish().unwrap();
    assert_eq!(reader.published_tail(0), 56);

    // A head that goes back is refused.
    shared[1024..1032].copy_from_slice(&8u64.to_le_bytes());
    assert!(reader.sync_ring(0, &shared).is_err());
}

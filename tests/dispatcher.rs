use perf_collector::dispatcher::{DispatchError, Dispatcher};
use perf_collector::reader::Reader;
use perf_collector::ring::{PerfRing, PERF_RECORD_LOST, PERF_RECORD_SAMPLE};

const MSG_TYPE_FOO: u32 = 1;
const MSG_TYPE_BAR: u32 = 2;
const PAGE: u64 = 4096;

fn new_ring() -> PerfRing {
    let data = vec![0u8; (PAGE * 3) as usize];
    PerfRing::init_contiguous(&data, 2, PAGE).unwrap()
}

fn create_test_message(msg_type: u32, timestamp: u64, data: &[u8]) -> Vec<u8> {
    let mut m = Vec::new();
    m.extend_from_slice(&msg_type.to_le_bytes());
    m.extend_from_slice(&timestamp.to_le_bytes());
    m.extend_from_slice(data);
    m
}

#[test]
fn test_dispatcher_basic() {
    let mut ring1 = new_ring();
    let mut ring2 = new_ring();
    let mut dispatcher = Dispatcher::new();
    let foo = dispatcher.subscribe(MSG_TYPE_FOO).unwrap();
    let bar = dispatcher.subscribe(MSG_TYPE_BAR).unwrap();
    let lost = dispatcher.subscribe_lost_samples().unwrap();

    ring1.start_write_batch();
    ring1.write(&create_test_message(MSG_TYPE_FOO, 100, b"FOO DATA"), PERF_RECORD_SAMPLE).unwrap();
    ring1.write(&create_test_message(MSG_TYPE_BAR, 200, b"BAR DATA"), PERF_RECORD_SAMPLE).unwrap();
    ring1.write(&[0u8; 8], PERF_RECORD_LOST).unwrap();
    ring1.finish_write_batch();
    ring2.start_write_batch();
    ring2.write(&create_test_message(MSG_TYPE_FOO, 150, b"FOO DATA"), PERF_RECORD_SAMPLE).unwrap();
    ring2.finish_write_batch();

    let mut reader = Reader::new();
    reader.add_ring(ring1).unwrap();
    reader.add_ring(ring2).unwrap();
    reader.start().unwrap();
    let deliveries = dispatcher.dispatch_all(&mut reader).unwrap();

    let (mut foo_counter, mut bar_counter, mut lost_counter) = (0, 0, 0);
    for d in &deliveries {
        for s in &d.subscribers {
            if *s == foo {
                foo_counter += 1;
                assert_eq!(d.data.len(), 24);
                assert_eq!(&d.data[16..24], b"FOO DATA");
            } else if *s == bar {
                bar_counter += 1;
                assert_eq!(&d.data[16..24], b"BAR DATA");
            } else if *s == lost {
                lost_counter += 1;
            }
        }
    }
    assert_eq!(foo_counter, 2);
    assert_eq!(bar_counter, 1);
    assert_eq!(lost_counter, 1);
    let stats = dispatcher.stats();
    assert_eq!(stats.samples_processed, 3);
    assert_eq!(stats.lost_events_processed, 1);
    assert_eq!(stats.callback_errors, 0);
    assert_eq!(stats.dropped_messages, 0);
    reader.finish().unwrap();
}

#[test]
fn test_dispatcher_no_subscribers() {
    let mut ring = new_ring();
    ring.start_write_batch();
    ring.write(&create_test_message(999, 100, b"UNKNOWN "), PERF_RECORD_SAMPLE).unwrap();
    ring.finish_write_batch();
    let mut reader = Reader::new();
    reader.add_ring(ring).unwrap();
    let mut dispatcher = Dispatcher::new();
    reader.start().unwrap();
    dispatcher.dispatch_all(&mut reader).unwrap();
    let stats = dispatcher.stats();
    assert_eq!(stats.dropped_messages, 1);
    assert_eq!(stats.samples_processed, 0);
    reader.finish().unwrap();
}

#[test]
fn test_dispatcher_using_instance_methods() {
    let mut ring = new_ring();
    ring.start_write_batch();
    ring.write(&create_test_message(MSG_TYPE_FOO, 100, b"FOO DATA"), PERF_RECORD_SAMPLE).unwrap();
    ring.write(&create_test_message(MSG_TYPE_BAR, 200, b"BAR DATA"), PERF_RECORD_SAMPLE).unwrap();
    ring.finish_write_batch();
    let mut reader = Reader::new();
    reader.add_ring(ring).unwrap();

    struct MyHandler {
        foo_counter: usize,
        bar_counter: usize,
    }
    impl MyHandler {
        fn handle_foo(&mut self, _ring_index: usize, data: &[u8]) {
            self.foo_counter += 1;
            assert_eq!(&data[16..24], b"FOO DATA");
        }
        fn handle_bar(&mut self, _ring_index: usize, data: &[u8]) {
            self.bar_counter += 1;
            assert_eq!(&data[16..24], b"BAR DATA");
        }
    }
    let mut handler = MyHandler { foo_counter: 0, bar_counter: 0 };
    let mut dispatcher = Dispatcher::new();
    let foo = dispatcher.subscribe(MSG_TYPE_FOO).unwrap();
    let bar = dispatcher.subscribe(MSG_TYPE_BAR).unwrap();
    reader.start().unwrap();
    for d in dispatcher.dispatch_all(&mut reader).unwrap() {
        for s in &d.subscribers {
            if *s == foo {
                handler.handle_foo(d.ring_index, &d.data);
            } else if *s == bar {
                handler.handle_bar(d.ring_index, &d.data);
            }
        }
    }
    assert_eq!(handler.foo_counter, 1);
    assert_eq!(handler.bar_counter, 1);
    reader.finish().unwrap();
}

#[test]
fn test_invalid_message_format() {
    let mut ring = new_ring();
    ring.start_write_batch();
    ring.write(&[1, 0, 0, 0], PERF_RECORD_SAMPLE).unwrap();
    ring.finish_write_batch();
    let mut reader = Reader::new();
    reader.add_ring(ring).unwrap();
    let mut dispatcher = Dispatcher::new();
    dispatcher.subscribe(MSG_TYPE_FOO).unwrap();
    reader.start().unwrap();
    let result = dispatcher.dispatch(&mut reader);
    assert!(result.is_err());
    match result {
        Err(DispatchError::InvalidFormat(_)) => {}
        _ => panic!("Expected InvalidFormat error"),
    }
    // The malformed record was consumed.
    assert!(reader.is_empty());
    assert_eq!(dispatcher.stats().dropped_messages, 1);
    reader.finish().unwrap();
}

#[test]
fn several_subscribers_in_subscription_order() {
    let mut ring = new_ring();
    ring.start_write_batch();
    ring.write(&create_test_message(MSG_TYPE_FOO, 5, b"12345678"), PERF_RECORD_SAMPLE).unwrap();
    ring.write(&[1u8; 16], 77).unwrap();
    ring.finish_write_batch();
    let mut reader = Reader::new();
    reader.add_ring(ring).unwrap();
    let mut dispatcher = Dispatcher::new();
    let a = dispatcher.subscribe(MSG_TYPE_FOO).unwrap();
    let _other = dispatcher.subscribe(MSG_TYPE_BAR).unwrap();
    let b = dispatcher.subscribe(MSG_TYPE_FOO).unwrap();
    reader.start().unwrap();
    let first = dispatcher.dispatch(&mut reader).unwrap().unwrap();
    assert_eq!(first.subscribers, vec![a, b]);
    assert_eq!(first.ring_index, 0);
    assert_eq!(first.record_type, PERF_RECORD_SAMPLE);
    let second = dispatcher.dispatch(&mut reader).unwrap().unwrap();
    assert!(second.subscribers.is_empty());
    assert_eq!(second.record_type, 77);
    assert!(dispatcher.dispatch(&mut reader).unwrap().is_none());
    dispatcher.record_callback_error();
    let stats = dispatcher.stats();
    assert_eq!(stats.samples_processed, 1);
    assert_eq!(stats.dropped_messages, 1);
    assert_eq!(stats.callback_errors, 1);
}

#[test]
fn dispatch_all_stops_at_a_short_sample_after_consuming_it() {
    let mut ring = new_ring();
    ring.start_write_batch();
    ring.write(&create_test_message(MSG_TYPE_FOO, 1, b"FIRST..."), PERF_RECORD_SAMPLE).unwrap();
    ring.write(&[1, 0, 0, 0], PERF_RECORD_SAMPLE).unwrap();
    ring.write(&create_test_message(MSG_TYPE_FOO, 3, b"THIRD..."), PERF_RECORD_SAMPLE).unwrap();
    ring.finish_write_batch();
    let mut reader = Reader::new();
    reader.add_ring(ring).unwrap();
    let mut dispatcher = Dispatcher::new();
    dispatcher.subscribe(MSG_TYPE_FOO).unwrap();
    reader.start().unwrap();
    assert!(matches!(dispatcher.dispatch_all(&mut reader), Err(DispatchError::InvalidFormat(_))));
    assert_eq!(dispatcher.stats().samples_processed, 1);
    assert_eq!(dispatcher.stats().dropped_messages, 1);
    // The third record is still there.
    let rest = dispatcher.dispatch_all(&mut reader).unwrap();
    assert_eq!(rest.len(), 1);
    assert_eq!(&rest[0].data[16..24], b"THIRD...");
    assert!(reader.is_empty());
}

use perf_collector::error_handler::{BpfErrorHandler, TimerMigration};
use perf_collector::metrics::Metric;
use perf_collector::perf_to_timeslot::BpfPerfToTimeslot;
use perf_collector::task_metadata::TaskMetadata;
use perf_collector::task_tracker::BpfTaskTracker;
use perf_collector::timeslot_data::{TaskData, TimeslotData};
use perf_collector::timeslot_tracker::{BpfTimeslotTracker, TimeslotAdvance};

fn header(kind: u32, ts: u64) -> Vec<u8> {
    let mut v = Vec::new();
    v.extend_from_slice(&0u32.to_le_bytes());
    v.extend_from_slice(&kind.to_le_bytes());
    v.extend_from_slice(&ts.to_le_bytes());
    v
}

fn metadata_msg(pid: u32, comm: &[u8], cgroup: u64) -> Vec<u8> {
    let mut v = header(1, 0);
    v.extend_from_slice(&pid.to_le_bytes());
    let mut c = [0u8; 16];
    c[..comm.len()].copy_from_slice(comm);
    v.extend_from_slice(&c);
    v.extend_from_slice(&[0u8; 4]);
    v.extend_from_slice(&cgroup.to_le_bytes());
    v
}

fn free_msg(pid: u32) -> Vec<u8> {
    let mut v = header(2, 0);
    v.extend_from_slice(&pid.to_le_bytes());
    v.extend_from_slice(&[0u8; 4]);
    v
}

fn perf_msg(pid: u32, cycles: u64, instructions: u64, time: u64) -> Vec<u8> {
    let mut v = header(3, 0);
    v.extend_from_slice(&pid.to_le_bytes());
    v.extend_from_slice(&1u32.to_le_bytes());
    v.extend_from_slice(&cycles.to_le_bytes());
    v.extend_from_slice(&instructions.to_le_bytes());
    v.extend_from_slice(&3u64.to_le_bytes());
    v.extend_from_slice(&4u64.to_le_bytes());
    v.extend_from_slice(&time.to_le_bytes());
    v
}

#[test]
fn task_free_is_deferred_to_the_next_timeslot() {
    let mut tracker = BpfTaskTracker::new();
    tracker.handle_task_metadata(0, &metadata_msg(42, b"x", 7));
    let found = tracker.lookup(42).unwrap();
    assert_eq!(found.pid, 42);
    assert_eq!(found.comm[0], b'x');
    assert_eq!(found.cgroup_id, 7);
    tracker.handle_task_free(0, &free_msg(42));
    assert!(tracker.lookup(42).is_some());
    tracker.on_new_timeslot(0, 1_000_000);
    assert!(tracker.lookup(42).is_none());
}

#[test]
fn short_task_messages_are_ignored() {
    let mut tracker = BpfTaskTracker::new();
    tracker.handle_task_metadata(0, &metadata_msg(5, b"abc", 1)[..40]);
    assert!(tracker.lookup(5).is_none());
    tracker.handle_task_metadata(0, &metadata_msg(5, b"abc", 1));
    tracker.handle_task_free(0, &free_msg(5)[..20]);
    tracker.on_new_timeslot(0, 1);
    assert!(tracker.lookup(5).is_some());
}

#[test]
fn timeslot_tracker_fires_on_minimum_change() {
    let mut tracker = BpfTimeslotTracker::new(2);
    assert_eq!(tracker.subscribe(), Some(0));
    assert_eq!(tracker.subscribe(), Some(1));
    assert_eq!(tracker.subscriber_count(), 2);
    assert_eq!(tracker.handle_timer_finished_processing(0, &header(4, 3_000_001)), None);
    assert_eq!(
        tracker.handle_timer_finished_processing(1, &header(4, 3_500_000)),
        Some(TimeslotAdvance { old_timeslot: 0, new_timeslot: 3_000_000 })
    );
    assert_eq!(tracker.handle_timer_finished_processing(0, &header(4, 4_100_000)), None);
    assert_eq!(
        tracker.handle_timer_finished_processing(1, &header(4, 4_050_000)),
        Some(TimeslotAdvance { old_timeslot: 3_000_000, new_timeslot: 4_000_000 })
    );
    // Refused updates change nothing.
    assert_eq!(tracker.handle_timer_finished_processing(1, &header(4, 10)), None);
    assert_eq!(tracker.handle_timer_finished_processing(5, &header(4, 9_000_000)), None);
    assert_eq!(tracker.handle_timer_finished_processing(0, &header(4, 9_000_000)[..8]), None);
    assert_eq!(tracker.handle_timer_finished_processing(1, &header(4, 6_000_000)), None);
    assert_eq!(
        tracker.handle_timer_finished_processing(0, &header(4, 7_000_000)),
        Some(TimeslotAdvance { old_timeslot: 4_000_000, new_timeslot: 6_000_000 })
    );
}

#[test]
fn aggregator_accumulates_and_hands_over() {
    let mut tasks = BpfTaskTracker::new();
    tasks.handle_task_metadata(0, &metadata_msg(1, b"one", 11));
    let mut agg = BpfPerfToTimeslot::new();
    agg.handle_perf_measurement(&tasks, 0, &perf_msg(1, 10, 100, 1000));
    agg.handle_perf_measurement(&tasks, 1, &perf_msg(1, 5, 50, 500));
    agg.handle_perf_measurement(&tasks, 1, &perf_msg(2, 20, 200, 2000));
    agg.handle_perf_measurement(&tasks, 1, &perf_msg(3, 1, 1, 1)[..60]);
    let done = agg.on_new_timeslot(0, 1_000_000);
    assert_eq!(done.start_timestamp, 0);
    assert_eq!(done.task_count(), 2);
    let rows = done.iter_tasks();
    assert_eq!(rows[0].0, 1);
    assert_eq!(rows[0].1.metrics, Metric::from_deltas(15, 150, 6, 8, 1500));
    assert_eq!(rows[0].1.metadata.unwrap().cgroup_id, 11);
    assert_eq!(rows[1].0, 2);
    assert!(rows[1].1.metadata.is_none());
    assert_eq!(rows[1].1.metrics.cycles, 20);
    let next = agg.on_new_timeslot(1_000_000, 2_000_000);
    assert_eq!(next.start_timestamp, 1_000_000);
    assert_eq!(next.task_count(), 0);
    agg.record_send_failure();
    agg.record_send_failure();
    assert_eq!(agg.take_error_count(), 2);
    assert_eq!(agg.take_error_count(), 0);
}

#[test]
fn timeslot_data_update_merges() {
    let mut ts = TimeslotData::new(5);
    let meta = TaskMetadata::new(9, [1; 16], 3);
    ts.update(9, Some(meta), Metric::from_deltas(1, 2, 3, 4, 5));
    ts.update(9, None, Metric::from_deltas(10, 20, 30, 40, 50));
    assert_eq!(ts.task_count(), 1);
    let rows = ts.iter_tasks();
    let TaskData { metadata, metrics } = rows[0].1;
    assert_eq!(metadata.unwrap().cgroup_id, 3);
    assert_eq!(metrics, Metric::from_deltas(11, 22, 33, 44, 55));
}

#[test]
fn metric_add_is_fieldwise_and_wraps() {
    let mut m = Metric::from_deltas(1, 2, 3, 4, u64::MAX);
    m.add(&Metric::from_deltas(10, 20, 30, 40, 2));
    assert_eq!(m, Metric::from_deltas(11, 22, 33, 44, 1));
    let mut a = Metric::from_deltas(7, 0, 1, 0, 9);
    let b = Metric::from_deltas(3, 4, 5, 6, 1);
    let mut b2 = b;
    a.add(&b);
    b2.add(&Metric::from_deltas(7, 0, 1, 0, 9));
    assert_eq!(a, b2);
}

#[test]
fn error_handler_decodes_migration() {
    let mut handler = BpfErrorHandler::new();
    let mut msg = header(5, 0);
    msg.extend_from_slice(&3u32.to_le_bytes());
    msg.extend_from_slice(&8u32.to_le_bytes());
    assert_eq!(
        handler.handle_timer_migration(0, &msg),
        Some(TimerMigration { expected_cpu: 3, actual_cpu: 8 })
    );
    assert_eq!(handler.handle_timer_migration(0, &msg[..16]), None);
    handler.handle_lost_events(2, &[0u8; 16]);
    assert_eq!(handler.lost_notifications(), 1);
}

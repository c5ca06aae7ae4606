use perf_collector::min_tracker::{Error, MinTracker};

#[test]
fn test_initialization() {
    let tracker = MinTracker::new(1000, 4);
    assert_eq!(tracker.get_min(), None, "All CPUs should report before get_min returns a value");
}

#[test]
fn test_single_cpu_update() {
    let mut tracker = MinTracker::new(1000, 1);
    tracker.update(0, 5000).unwrap();
    assert_eq!(tracker.get_min(), Some(5000 / 1000 * 1000));
}

#[test]
fn test_multiple_cpus_initialization() {
    let mut tracker = MinTracker::new(1000, 3);
    tracker.update(0, 5000).unwrap();
    assert_eq!(tracker.get_min(), None);
    tracker.update(1, 3000).unwrap();
    assert_eq!(tracker.get_min(), None);
    tracker.update(2, 4000).unwrap();
    assert_eq!(tracker.get_min(), Some(3000 / 1000 * 1000));
}

#[test]
fn test_monotonic_requirement() {
    let mut tracker = MinTracker::new(1000, 1);
    tracker.update(0, 5000).unwrap();
    let result = tracker.update(0, 4000);
    assert!(result.is_err());
    if let Err(Error::NonMonotonicTimestamp(cpu_id, prev, new)) = result {
        assert_eq!(cpu_id, 0);
        assert_eq!(prev, 5000);
        assert_eq!(new, 4000);
    } else {
        panic!("Expected NonMonotonicTimestamp error");
    }
}

#[test]
fn test_cpu_id_out_of_range() {
    let mut tracker = MinTracker::new(1000, 2);
    let result = tracker.update(2, 5000);
    assert!(result.is_err());
    if let Err(Error::CpuIdOutOfRange(cpu_id, max)) = result {
        assert_eq!(cpu_id, 2);
        assert_eq!(max, 1);
    } else {
        panic!("Expected CpuIdOutOfRange error");
    }
}

fn run_update_pattern(time_slot_size: u64, updates: Vec<(usize, u64)>, expected_min: Option<u64>) {
    let num_cpus = updates.iter().map(|(cpu, _)| cpu + 1).max().unwrap_or(0);
    let mut tracker = MinTracker::new(time_slot_size, num_cpus);
    for (cpu, timestamp) in updates {
        tracker.update(cpu, timestamp).unwrap();
    }
    assert_eq!(tracker.get_min(), expected_min);
}

#[test]
fn test_various_update_patterns_case_1() {
    run_update_pattern(1000, vec![(0, 5000), (1, 3000), (0, 7000)], Some(3000));
}

#[test]
fn test_various_update_patterns_case_2() {
    run_update_pattern(1000, vec![(0, 5000), (1, 6000), (0, 8000), (1, 9000)], Some(8000));
}

#[test]
fn test_various_update_patterns_case_3() {
    run_update_pattern(1000, vec![(0, 1000), (1, 2000), (2, 3000), (0, 4000), (1, 5000)], Some(3000));
}

#[test]
fn test_large_time_slot_jumps() {
    let mut tracker = MinTracker::new(1000, 2);
    tracker.update(0, 5000).unwrap();
    tracker.update(1, 3000).unwrap();
    tracker.update(0, 50000).unwrap();
    assert_eq!(tracker.get_min(), Some(3000 / 1000 * 1000));
    tracker.update(1, 40000).unwrap();
    assert_eq!(tracker.get_min(), Some(40000 / 1000 * 1000));
}

#[test]
fn test_non_boundary_timestamps() {
    let mut tracker = MinTracker::new(1000, 2);
    tracker.update(0, 5432).unwrap();
    tracker.update(1, 3789).unwrap();
    assert_eq!(tracker.get_min(), Some(3000));
    tracker.update(0, 7123).unwrap();
    tracker.update(1, 8456).unwrap();
    assert_eq!(tracker.get_min(), Some(7000));
}

#[test]
fn test_multiple_updates_same_time_slot() {
    let mut tracker = MinTracker::new(1000, 2);
    tracker.update(0, 5432).unwrap();
    tracker.update(1, 3789).unwrap();
    tracker.update(0, 5999).unwrap();
    assert_eq!(tracker.get_min(), Some(3000));
    tracker.update(1, 6100).unwrap();
    assert_eq!(tracker.get_min(), Some(5000));
}

#[test]
fn non_monotonic_update_leaves_state_unchanged() {
    let mut tracker = MinTracker::new(1000, 2);
    tracker.update(0, 5000).unwrap();
    tracker.update(1, 7000).unwrap();
    assert_eq!(tracker.get_min(), Some(5000));
    assert_eq!(tracker.update(0, 4000), Err(Error::NonMonotonicTimestamp(0, 5000, 4000)));
    assert_eq!(tracker.get_min(), Some(5000));
    // The rejected timestamp did not replace the old one: 4500 is still behind 5000.
    assert!(tracker.update(0, 4500).is_err());
}

#[test]
fn minimum_never_decreases() {
    let mut tracker = MinTracker::new(1000, 3);
    tracker.update(0, 3500).unwrap();
    tracker.update(1, 1200).unwrap();
    tracker.update(2, 2200).unwrap();
    let mut last = tracker.get_min().unwrap();
    for (cpu, ts) in [(1, 2500), (1, 4100), (2, 2300), (2, 5000), (0, 6000), (1, 9000)] {
        tracker.update(cpu, ts).unwrap();
        let now = tracker.get_min().unwrap();
        assert!(now >= last);
        last = now;
    }
    assert_eq!(last, 5000);
}

#[test]
fn timeslot_close_scenario() {
    let mut tracker = MinTracker::new(1_000_000, 2);
    tracker.update(0, 3_000_001).unwrap();
    tracker.update(1, 3_500_000).unwrap();
    assert_eq!(tracker.get_min(), Some(3_000_000));
    tracker.update(0, 4_100_000).unwrap();
    assert_eq!(tracker.get_min(), Some(3_000_000));
    tracker.update(1, 4_050_000).unwrap();
    assert_eq!(tracker.get_min(), Some(4_000_000));
}

#[test]
fn zero_cpus_never_report_a_minimum() {
    let mut tracker = MinTracker::new(1000, 0);
    assert_eq!(tracker.get_min(), None);
    assert_eq!(tracker.update(0, 10), Err(Error::CpuIdOutOfRange(0, 0)));
}

use perf_collector::hyperthread::{AnalysisError, HyperthreadAnalysis, PeerCounters, TraceRow};

fn rows(timestamps: Vec<i64>, cpu_ids: Vec<i32>, switches: Vec<bool>, tgids: Vec<Option<i32>>) -> Vec<TraceRow> {
    (0..timestamps.len())
        .map(|i| TraceRow {
            timestamp: timestamps[i],
            cpu_id: cpu_ids[i],
            is_context_switch: switches[i],
            next_tgid: tgids[i],
        })
        .collect()
}

fn counters(same: i64, different: i64, kernel: i64) -> PeerCounters {
    PeerCounters { ns_peer_same_process: same, ns_peer_different_process: different, ns_peer_kernel: kernel }
}

#[test]
fn test_initial_state_produces_zero_counters() {
    let mut analysis = HyperthreadAnalysis::new(4, String::from("/tmp/test.parquet"));
    let out = analysis.process_rows(&rows(vec![1000], vec![0], vec![true], vec![Some(100)])).unwrap();
    assert_eq!(out[0], counters(0, 0, 0));
}

#[test]
fn test_hyperthread_counter_logic() {
    let mut analysis = HyperthreadAnalysis::new(4, String::from("/tmp/test.parquet"));
    let out = analysis
        .process_rows(&rows(
            vec![1000, 2000, 3000, 4000, 6000, 10000],
            vec![0, 2, 0, 2, 0, 2],
            vec![true, true, true, true, true, true],
            vec![Some(100), Some(200), Some(100), Some(0), Some(0), Some(0)],
        ))
        .unwrap();
    assert_eq!(out[0], counters(0, 0, 0));
    assert_eq!(out[1], counters(0, 0, 0));
    assert_eq!(out[2], counters(0, 1000, 0));
    assert_eq!(out[3], counters(0, 2000, 0));
    assert_eq!(out[4], counters(0, 1000, 2000));
    assert_eq!(out[5], counters(0, 2000, 4000));
}

#[test]
fn test_same_process_detection() {
    let mut analysis = HyperthreadAnalysis::new(4, String::from("/tmp/test.parquet"));
    let out = analysis
        .process_rows(&rows(vec![1000, 2000, 3000], vec![0, 2, 0], vec![true, true, true], vec![Some(100), Some(100), Some(100)]))
        .unwrap();
    assert_eq!(out[2].ns_peer_same_process, 1000);
}

#[test]
fn test_null_next_tgid_on_context_switch_errors() {
    let mut analysis = HyperthreadAnalysis::new(4, String::from("/tmp/test.parquet"));
    let result = analysis.process_rows(&rows(vec![1000], vec![0], vec![true], vec![None]));
    assert_eq!(result, Err(AnalysisError::NullNextTgid(0)));
}

#[test]
fn test_non_context_switch_with_null_next_tgid() {
    let mut analysis = HyperthreadAnalysis::new(4, String::from("/tmp/test.parquet"));
    let result = analysis.process_rows(&rows(vec![1000], vec![0], vec![false], vec![None]));
    assert!(result.is_ok());
}

#[test]
fn invalid_cpu_and_peers() {
    let mut analysis = HyperthreadAnalysis::new(4, String::from("out.parquet"));
    assert_eq!(analysis.get_hyperthread_peer(1), 3);
    assert_eq!(analysis.get_hyperthread_peer(3), 1);
    assert_eq!(analysis.output_filename(), "out.parquet");
    assert_eq!(analysis.process_rows(&rows(vec![1], vec![4], vec![false], vec![None])), Err(AnalysisError::InvalidCpuId(4)));
    assert_eq!(analysis.process_rows(&rows(vec![1], vec![-1], vec![false], vec![None])), Err(AnalysisError::InvalidCpuId(-1)));
}

#[test]
fn overflowing_time_is_an_error() {
    let mut analysis = HyperthreadAnalysis::new(2, String::from("o"));
    let r = analysis.process_rows(&rows(
        vec![i64::MIN + 1, i64::MIN + 1, i64::MAX],
        vec![0, 1, 0],
        vec![true, true, true],
        vec![Some(1), Some(2), Some(1)],
    ));
    assert_eq!(r, Err(AnalysisError::CounterOverflow));
}

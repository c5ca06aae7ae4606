use perf_collector::metadata::{process_containers, stop_message, ContainerInfo, MetadataMessage, PodInfo};
use perf_collector::parquet_writer::{file_name, AfterWrite, BatchDecision, ParquetWriterConfig, WriterPolicy};
use perf_collector::sync_timer::{
    after_failed_sweep, check_pinned, interpret_init_status, migration_to_restore, parse_timer_migration,
    timer_init_context, CpuSweep, SyncTimerError, SyncTimerMode,
};

#[test]
fn writer_quota_stops_writing_for_good() {
    let config = ParquetWriterConfig { storage_quota: Some(5_000), buffer_size: 1_000_000, file_size_limit: 10_000, ..Default::default() };
    let mut policy = WriterPolicy::new(&config);
    assert_eq!(policy.on_batch(), BatchDecision::NoWriter);
    assert!(policy.may_open_file());
    policy.on_file_opened();
    assert_eq!(policy.on_batch(), BatchDecision::Write);
    policy.update_sizes(0, 0, 3_000);
    assert_eq!(policy.after_write(), AfterWrite::CheckRotation);
    assert!(!policy.should_rotate());
    policy.update_sizes(0, 0, 5_200);
    assert_eq!(policy.after_write(), AfterWrite::StopForQuota);
    policy.on_file_closed(4_100);
    assert!(policy.is_below_quota());
    policy.on_quota_reached();
    assert!(!policy.is_below_quota());
    assert_eq!(policy.on_batch(), BatchDecision::Drop);
    assert!(!policy.may_open_file());
}

#[test]
fn writer_flushes_and_rotates() {
    let config = ParquetWriterConfig { buffer_size: 1_000, file_size_limit: 10_000, ..Default::default() };
    let mut policy = WriterPolicy::new(&config);
    policy.on_file_opened();
    policy.update_sizes(0, 0, 1_500);
    assert_eq!(policy.after_write(), AfterWrite::Flush);
    policy.update_sizes(9_000, 3, 0);
    assert!(!policy.should_rotate());
    policy.update_sizes(9_000, 3, 1_000);
    assert!(policy.should_rotate());
    policy.on_file_closed(9_800);
    assert_eq!(policy.on_batch(), BatchDecision::NoWriter);
    assert!(policy.may_open_file());
}

#[test]
fn default_config_and_file_name() {
    let config = ParquetWriterConfig::default();
    assert_eq!(config.storage_prefix, "metrics-");
    assert_eq!(config.buffer_size, 100 * 1024 * 1024);
    assert_eq!(config.file_size_limit, 1024 * 1024 * 1024);
    assert_eq!(config.max_row_group_size, 1024 * 1024);
    assert!(config.storage_quota.is_none());
    assert_eq!(
        file_name("node-a/", "20240131T235959Z", "0123abcd-ef45-6789"),
        "node-a/20240131T235959Z-0123abcd.parquet"
    );
    assert_eq!(file_name("", "T", "ab"), "T-ab.parquet");
}

#[test]
fn sync_timer_status_codes() {
    assert_eq!(interpret_init_status(3, 0), Ok(()));
    assert_eq!(interpret_init_status(3, 1), Err(SyncTimerError::MapUpdateFailed { cpu: 3 }));
    assert_eq!(interpret_init_status(3, 2), Err(SyncTimerError::MapLookupFailed { cpu: 3 }));
    assert_eq!(interpret_init_status(3, 3), Err(SyncTimerError::TimerInitFailed { cpu: 3 }));
    assert_eq!(interpret_init_status(3, 4), Err(SyncTimerError::TimerSetCallbackFailed { cpu: 3 }));
    assert_eq!(interpret_init_status(3, 5), Err(SyncTimerError::TimerStartFailed { cpu: 3 }));
    assert_eq!(interpret_init_status(3, 77), Err(SyncTimerError::UnknownBpfError { cpu: 3, code: 77 }));
    assert_eq!(check_pinned(2, 2), Ok(()));
    assert_eq!(check_pinned(2, 5), Err(SyncTimerError::CpuPinFailed { target: 2, current: 5 }));
}

#[test]
fn sync_timer_mode_fallback() {
    let m = SyncTimerMode::first();
    assert_eq!(m, SyncTimerMode::Modern);
    assert_eq!(after_failed_sweep(m), Ok(SyncTimerMode::Intermediate));
    assert_eq!(after_failed_sweep(SyncTimerMode::Intermediate), Ok(SyncTimerMode::Legacy));
    assert_eq!(after_failed_sweep(SyncTimerMode::Legacy), Err(SyncTimerError::AllMethodsFailed));
    assert_eq!(migration_to_restore(SyncTimerMode::Modern, 1), None);
    assert_eq!(migration_to_restore(SyncTimerMode::Legacy, 1), Some(1));
    assert_eq!(migration_to_restore(SyncTimerMode::Intermediate, 0), None);
    let ctx = timer_init_context(SyncTimerMode::Legacy);
    assert_eq!(ctx, [2, 0, 0, 0, 2, 0, 0, 0, 0, 0, 0, 0, 0, 0, 0, 0]);
    assert!(!SyncTimerMode::Intermediate.description().is_empty());
}

#[test]
fn cpu_sweep_collects_failures() {
    let mut sweep = CpuSweep::new(3);
    assert_eq!(sweep.next_cpu(), Some(0));
    sweep.record(Ok(()));
    sweep.record(Err(SyncTimerError::TimerInitFailed { cpu: 1 }));
    sweep.record(Ok(()));
    assert_eq!(sweep.next_cpu(), None);
    assert_eq!(
        sweep.finish(),
        Err(SyncTimerError::MultipleFailures { failed_cores: vec![1], failed_count: 1, total_count: 3 })
    );
    let mut ok = CpuSweep::new(1);
    ok.record(Ok(()));
    assert_eq!(ok.finish(), Ok(()));
}

#[test]
fn timer_migration_sysctl_text() {
    assert_eq!(parse_timer_migration(b"1\n"), Ok(1));
    assert_eq!(parse_timer_migration(b"  0 "), Ok(0));
    assert_eq!(parse_timer_migration(b"255"), Ok(255));
    assert_eq!(parse_timer_migration(b"256"), Err(()));
    assert_eq!(parse_timer_migration(b""), Err(()));
    assert_eq!(parse_timer_migration(b"1x"), Err(()));
}

fn container(id: &str, pod: &str, pid: u32) -> ContainerInfo {
    ContainerInfo {
        id: id.to_string(),
        pod_sandbox_id: pod.to_string(),
        name: format!("{}-name", id),
        cgroups_path: Some(format!("/kubepods/{}", id)),
        pid,
        labels: vec![("app".to_string(), "web".to_string())],
        annotations: vec![],
    }
}

#[test]
fn container_metadata_messages() {
    let pods = vec![PodInfo { id: "p1".into(), name: "pod-one".into(), namespace: "default".into(), uid: "u1".into() }];
    let msgs = process_containers(&[container("c1", "p1", 1234), container("c2", "missing", 0)], &pods);
    assert_eq!(msgs.len(), 2);
    match &msgs[0] {
        MetadataMessage::Add(id, m) => {
            assert_eq!(id, "c1");
            assert_eq!(m.pod_name, "pod-one");
            assert_eq!(m.pod_namespace, "default");
            assert_eq!(m.pod_uid, "u1");
            assert_eq!(m.cgroup_path, "/kubepods/c1");
            assert_eq!(m.pid, Some(1234));
            assert_eq!(m.labels, vec![("app".to_string(), "web".to_string())]);
        }
        _ => panic!("expected Add"),
    }
    match &msgs[1] {
        MetadataMessage::Add(id, m) => {
            assert_eq!(id, "c2");
            assert_eq!(m.pod_name, "");
            assert_eq!(m.pid, None);
        }
        _ => panic!("expected Add"),
    }
    match stop_message(&container("c9", "p1", 1)) {
        MetadataMessage::Remove(id) => assert_eq!(id, "c9"),
        _ => panic!("expected Remove"),
    }
}

#[test]
fn writer_rotation_scenario() {
    // Batches of 1_000 compressed bytes, 25 of them, with a 10_000 byte file limit.
    let config = ParquetWriterConfig { buffer_size: 2_500, file_size_limit: 10_000, ..Default::default() };
    let mut policy = WriterPolicy::new(&config);
    assert!(policy.may_open_file());
    policy.on_file_opened();
    let mut files = 1;
    let (mut flushed, mut in_memory, mut groups) = (0usize, 0usize, 0usize);
    let mut closed_total = 0usize;
    for _ in 0..25 {
        assert_eq!(policy.on_batch(), BatchDecision::Write);
        in_memory += 1_000;
        policy.update_sizes(flushed, groups, in_memory);
        if policy.after_write() == AfterWrite::Flush {
            flushed += in_memory;
            groups += 1;
            in_memory = 0;
            policy.update_sizes(flushed, groups, in_memory);
        }
        if policy.should_rotate() {
            closed_total += flushed + in_memory;
            policy.on_file_closed(flushed + in_memory);
            flushed = 0;
            in_memory = 0;
            groups = 0;
            assert!(policy.may_open_file());
            policy.on_file_opened();
            files += 1;
        }
    }
    closed_total += flushed + in_memory;
    policy.on_file_closed(flushed + in_memory);
    assert!(files >= 2);
    assert_eq!(closed_total, 25_000);
    assert!(policy.is_below_quota());
}

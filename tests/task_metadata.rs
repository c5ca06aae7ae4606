use perf_collector::task_metadata::{TaskCollection, TaskMetadata};

#[test]
fn test_task_collection() {
    let mut collection = TaskCollection::new();
    let task1 = TaskMetadata::new(1, [0; 16], 0);
    let task2 = TaskMetadata::new(2, [0; 16], 0);
    collection.add(task1);
    collection.add(task2);
    assert!(collection.lookup(1).is_some());
    assert!(collection.lookup(2).is_some());
    assert!(collection.lookup(3).is_none());
    collection.queue_removal(1);
    assert!(collection.lookup(1).is_some());
    collection.flush_removals();
    assert!(collection.lookup(1).is_none());
    assert!(collection.lookup(2).is_some());
}

#[test]
fn add_overwrites_same_pid() {
    let mut collection = TaskCollection::new();
    collection.add(TaskMetadata::new(5, [b'a'; 16], 1));
    collection.add(TaskMetadata::new(5, [b'b'; 16], 2));
    let found = collection.lookup(5).unwrap();
    assert_eq!(found.comm, [b'b'; 16]);
    assert_eq!(found.cgroup_id, 2);
}

#[test]
fn queue_removal_of_unknown_pid_is_ignored() {
    let mut collection = TaskCollection::new();
    collection.queue_removal(9);
    collection.add(TaskMetadata::new(9, [0; 16], 0));
    collection.flush_removals();
    assert!(collection.lookup(9).is_some());
}

#[test]
fn duplicate_removals_are_harmless() {
    let mut collection = TaskCollection::new();
    collection.add(TaskMetadata::new(3, [0; 16], 0));
    collection.queue_removal(3);
    collection.queue_removal(3);
    collection.flush_removals();
    assert!(collection.lookup(3).is_none());
    collection.flush_removals();
    assert!(collection.lookup(3).is_none());
}

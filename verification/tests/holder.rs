use hashengine::snapshot::DatasetHolder;
use hashengine::snapshot::GenerationParams;
use hashengine::snapshot::Snapshot;
use std::sync::Arc;

fn holder_params() -> GenerationParams {
    GenerationParams::new(8, 256, 16, 64, 4)
}

fn holder_snapshot(seed: &str, fill: u8) -> Arc<Snapshot<Vec<u8>>> {
    Arc::new(Snapshot { seed: seed.to_string(), params: holder_params(), dataset: vec![fill; 64] })
}

#[test]
fn generation_params_keep_their_values() {
    let params = GenerationParams::new(1, 2, 3, 4, 5);
    assert_eq!(params.loop_count, 1);
    assert_eq!(params.instr_count, 2);
    assert_eq!(params.pre_size, 3);
    assert_eq!(params.dataset_size, 4);
    assert_eq!(params.mixing_rounds, 5);
}

#[test]
fn holder_starts_empty() {
    let holder: DatasetHolder<Vec<u8>> = DatasetHolder::new();
    assert!(!holder.is_ready());
    assert!(holder.current().is_none());
}

#[test]
fn holder_publishes_a_snapshot() {
    let mut holder = DatasetHolder::new();
    let first = holder_snapshot("aa", 1);
    let retired = holder.publish(first.clone());
    assert!(retired.is_none());
    assert!(holder.is_ready());
    let current = holder.current().unwrap();
    assert!(Arc::ptr_eq(&current, &first));
    assert_eq!(current.seed, "aa");
    assert_eq!(current.dataset, vec![1u8; 64]);
}

#[test]
fn holder_replaces_and_retires_the_previous_snapshot() {
    let mut holder = DatasetHolder::new();
    let first = holder_snapshot("aa", 1);
    let second = holder_snapshot("bb", 2);
    holder.publish(first.clone());
    let retired = holder.publish(second.clone()).unwrap();
    assert!(Arc::ptr_eq(&retired, &first));
    let current = holder.current().unwrap();
    assert!(Arc::ptr_eq(&current, &second));
    assert_eq!(current.dataset, vec![2u8; 64]);
}

#[test]
fn holder_holds_the_snapshot_published_last() {
    let mut holder = DatasetHolder::new();
    let snapshots: Vec<Arc<Snapshot<Vec<u8>>>> =
        (0..10u8).map(|i| holder_snapshot(&format!("seed-{}", i), i)).collect();
    for snapshot in &snapshots {
        holder.publish(snapshot.clone());
    }
    let current = holder.current().unwrap();
    assert!(Arc::ptr_eq(&current, &snapshots[9]));
    assert_eq!(current.seed, "seed-9");
    assert_eq!(current.dataset, vec![9u8; 64]);
}

#[test]
fn reference_taken_before_a_replacement_stays_valid() {
    let mut holder = DatasetHolder::new();
    holder.publish(holder_snapshot("old", 7));
    let taken = holder.current().unwrap();
    let retired = holder.publish(holder_snapshot("new", 9));
    drop(retired);
    assert_eq!(taken.seed, "old");
    assert_eq!(taken.dataset, vec![7u8; 64]);
    assert_eq!(holder.current().unwrap().seed, "new");
}

#[test]
fn current_shares_the_snapshot_instead_of_copying_it() {
    let mut holder = DatasetHolder::new();
    let first = holder_snapshot("aa", 1);
    holder.publish(first.clone());
    let one = holder.current().unwrap();
    let two = holder.current().unwrap();
    assert!(Arc::ptr_eq(&one, &two));
    // the test's own, the slot's, and the two just taken
    assert_eq!(Arc::strong_count(&first), 4);
}

#[test]
fn concurrent_publications_leave_one_whole_snapshot() {
    let holder = Arc::new(std::sync::RwLock::new(DatasetHolder::new()));
    rayon::scope(|scope| {
        for i in 0..8u8 {
            let holder = Arc::clone(&holder);
            scope.spawn(move |_| {
                let snapshot = holder_snapshot(&format!("seed-{}", i), i);
                let retired = holder.write().unwrap().publish(snapshot);
                drop(retired);
            });
        }
    });
    let current = holder.read().unwrap().current().unwrap();
    let fill = current.dataset[0];
    assert!(fill < 8);
    assert_eq!(current.seed, format!("seed-{}", fill));
    assert_eq!(current.dataset, vec![fill; 64]);
}

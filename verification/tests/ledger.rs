use opensky_node::config::NodeConfig;
use opensky_node::ledger::{ResourceLedger, BYTES_PER_GB};

fn ledger(cpu: u8, storage: u32) -> ResourceLedger {
    let config = NodeConfig {
        max_cpu_percent: cpu,
        max_storage_gb: storage,
        max_bandwidth_mbps: 50,
        memory_mb: 4096,
    };
    ResourceLedger::new("node-a".to_string(), &config)
}

#[test]
fn a_fresh_ledger_offers_the_configured_capacity() {
    let l = ledger(50, 10);
    let s = l.snapshot();
    assert_eq!(s.cpu_cores, 50);
    assert_eq!(s.memory_mb, 4096);
    assert_eq!(s.storage_gb, 10);
    assert_eq!(s.bandwidth_mbps, 50);
    assert_eq!(s.node_id, "node-a");
    assert_eq!(l.node_id(), "node-a");
    assert_eq!(l.active_task_count(), 0);
    assert_eq!(l.stored_file_count(), 0);
}

#[test]
fn reserve_cpu_deducts_when_enough_is_free() {
    let mut l = ledger(50, 10);
    assert!(l.reserve_cpu(20));
    assert_eq!(l.snapshot().cpu_cores, 30);
    assert!(l.reserve_cpu(30));
    assert_eq!(l.snapshot().cpu_cores, 0);
    assert!(l.reserve_cpu(0));
    assert_eq!(l.snapshot().cpu_cores, 0);
}

#[test]
fn reserve_cpu_denies_without_change() {
    let mut l = ledger(50, 10);
    assert!(!l.reserve_cpu(51));
    assert_eq!(l.snapshot().cpu_cores, 50);
    assert!(l.reserve_cpu(50));
    assert!(!l.reserve_cpu(1));
    assert_eq!(l.snapshot().cpu_cores, 0);
}

#[test]
fn matched_reservations_and_releases_conserve_cpu() {
    let mut l = ledger(50, 10);
    let amounts = [20u8, 5, 25, 0];
    for a in amounts {
        assert!(l.reserve_cpu(a));
    }
    assert_eq!(l.snapshot().cpu_cores, 0);
    assert!(!l.reserve_cpu(1));
    for a in amounts {
        l.release_cpu(a);
    }
    assert_eq!(l.snapshot().cpu_cores, 50);
    assert!(l.reserve_cpu(10));
    l.release_cpu(10);
    assert!(l.reserve_cpu(40));
    assert!(l.reserve_cpu(10));
    l.release_cpu(40);
    l.release_cpu(10);
    assert_eq!(l.snapshot().cpu_cores, 50);
}

#[test]
fn a_release_without_a_reservation_creates_no_capacity() {
    let mut l = ledger(50, 10);
    l.release_cpu(20);
    assert_eq!(l.snapshot().cpu_cores, 50);
    assert!(l.reserve_cpu(10));
    l.release_cpu(200);
    assert_eq!(l.snapshot().cpu_cores, 50);
    let mut full = ledger(255, 10);
    full.release_cpu(255);
    assert_eq!(full.snapshot().cpu_cores, 255);
}

#[test]
fn no_over_admission() {
    let mut l = ledger(50, 10);
    let mut admitted = 0;
    for i in 0..5 {
        if l.admit_task(&format!("t{}", i), 20) {
            admitted += 1;
        }
    }
    assert_eq!(admitted, 2);
    assert_eq!(l.snapshot().cpu_cores, 10);
    assert_eq!(l.active_task_count(), 2);
    assert!(l.is_active("t0"));
    assert!(l.is_active("t1"));
    assert!(!l.is_active("t2"));
}

#[test]
fn a_single_unit_is_granted_once() {
    let mut l = ledger(1, 10);
    assert!(l.admit_task("a", 1));
    assert!(!l.admit_task("b", 1));
    assert_eq!(l.snapshot().cpu_cores, 0);
    assert_eq!(l.active_task_count(), 1);
}

#[test]
fn storage_rounding() {
    let mut l = ledger(50, 10);
    assert!(l.reserve_storage(0, "empty"));
    assert_eq!(l.snapshot().storage_gb, 9);
    assert!(l.reserve_storage(BYTES_PER_GB + 1, "big"));
    assert_eq!(l.snapshot().storage_gb, 7);
    assert!(l.is_stored("empty"));
    assert!(l.is_stored("big"));
    assert_eq!(l.stored_file_count(), 2);
}

#[test]
fn storage_of_whole_gigabytes_is_not_rounded_further() {
    let mut l = ledger(50, 10);
    assert!(l.reserve_storage(1, "one byte"));
    assert_eq!(l.snapshot().storage_gb, 9);
    assert!(l.reserve_storage(BYTES_PER_GB, "one gigabyte"));
    assert_eq!(l.snapshot().storage_gb, 8);
    assert!(l.reserve_storage(8 * BYTES_PER_GB, "eight"));
    assert_eq!(l.snapshot().storage_gb, 0);
    assert!(!l.reserve_storage(0, "none left"));
    assert_eq!(l.stored_file_count(), 3);
}

#[test]
fn storage_denial_changes_nothing() {
    let mut l = ledger(50, 5);
    assert!(!l.reserve_storage(8 * 1024 * 1024 * 1024, "f1"));
    assert_eq!(l.snapshot().storage_gb, 5);
    assert!(!l.is_stored("f1"));
    assert_eq!(l.stored_file_count(), 0);
    assert!(!l.reserve_storage(u64::MAX, "huge"));
    assert!(!l.reserve_storage(1 << 62, "wraps in 32 bits"));
    assert_eq!(l.snapshot().storage_gb, 5);
}

#[test]
fn a_file_stored_twice_is_recorded_once() {
    let mut l = ledger(50, 5);
    assert!(l.reserve_storage(10, "f1"));
    assert!(l.reserve_storage(10, "f1"));
    assert_eq!(l.snapshot().storage_gb, 3);
    assert_eq!(l.stored_file_count(), 1);
}

#[test]
fn tasks_start_and_finish() {
    let mut l = ledger(50, 5);
    l.task_started("t1");
    l.task_started("t2");
    l.task_started("t1");
    assert_eq!(l.active_task_count(), 2);
    l.task_finished("t1");
    assert!(!l.is_active("t1"));
    assert!(l.is_active("t2"));
    l.task_finished("t1");
    l.task_finished("unknown");
    assert_eq!(l.active_task_count(), 1);
    assert_eq!(l.snapshot().cpu_cores, 50);
}

#[test]
fn admission_then_completion() {
    let mut l = ledger(50, 5);
    assert!(l.admit_task("t1", 20));
    assert_eq!(l.snapshot().cpu_cores, 30);
    assert_eq!(l.active_task_count(), 1);
    assert!(l.is_active("t1"));
    l.complete_task("t1", 20);
    assert_eq!(l.snapshot().cpu_cores, 50);
    assert_eq!(l.active_task_count(), 0);
}

#[test]
fn a_denied_task_is_not_recorded() {
    let mut l = ledger(10, 5);
    assert!(!l.admit_task("t1", 11));
    assert_eq!(l.snapshot().cpu_cores, 10);
    assert_eq!(l.active_task_count(), 0);
}

use curvine_master::errors::FsError;
use curvine_master::metrics::MasterMetrics;
use curvine_master::proto::{code_label, code_of, u32_decimal, RpcCode};
use curvine_master::retry_cache::{FsRetryCache, OperationStatus};

#[test]
fn decimal_rendering_is_exact() {
    assert_eq!(u32_decimal(0), "0");
    assert_eq!(u32_decimal(7), "7");
    assert_eq!(u32_decimal(10), "10");
    assert_eq!(u32_decimal(205), "205");
    assert_eq!(u32_decimal(4294967295), "4294967295");
}

#[test]
fn labels_name_known_codes_and_spell_out_unknown_ones() {
    assert_eq!(code_label(1), "Mkdir");
    assert_eq!(code_label(2), "CreateFile");
    assert_eq!(code_label(21), "GetMasterInfo");
    assert_eq!(code_label(0), "0");
    assert_eq!(code_label(999), "999");
}

#[test]
fn the_code_table_is_closed() {
    assert_eq!(code_of(1), Some(RpcCode::Mkdir));
    assert_eq!(code_of(25), Some(RpcCode::ReportLoadTask));
    assert_eq!(code_of(0), None);
    assert_eq!(code_of(26), None);
}

#[test]
fn retry_cache_transitions_and_immutability() {
    let mut c = FsRetryCache::new(4);
    assert_eq!(c.get(7), None);
    assert!(!c.check_is_retry(7));
    assert_eq!(c.get(7), Some(OperationStatus::InProgress));
    c.set_status(7, true);
    assert_eq!(c.get(7), Some(OperationStatus::Succeeded));
    // A terminal entry is immutable until eviction.
    c.set_status(7, false);
    assert_eq!(c.get(7), Some(OperationStatus::Succeeded));
    assert!(c.check_is_retry(7));
}

#[test]
fn retry_cache_evicts_in_insertion_order() {
    let mut c = FsRetryCache::new(2);
    assert!(!c.check_is_retry(1));
    assert!(!c.check_is_retry(2));
    assert!(!c.check_is_retry(3));
    // The oldest id was evicted and now looks never-seen.
    assert_eq!(c.get(1), None);
    assert_eq!(c.get(2), Some(OperationStatus::InProgress));
    assert_eq!(c.get(3), Some(OperationStatus::InProgress));
    // Recording for an evicted id is a no-op.
    c.set_status(1, true);
    assert_eq!(c.get(1), None);
}

#[test]
fn metrics_accumulate_per_code() {
    let mut m = MasterMetrics::new();
    m.record(1, 10);
    m.record(1, 5);
    m.record(9, 2);
    assert_eq!(m.count_of(1), 2);
    assert_eq!(m.time_of(1), 15);
    assert_eq!(m.count_of(9), 1);
    assert_eq!(m.count_of(3), 0);
    assert_eq!(m.total(), 3);
}

#[test]
fn error_messages_are_fixed() {
    assert_eq!(
        FsError::NotLeader { code: 1, client: None }.message(),
        "not the active master"
    );
    assert_eq!(FsError::Malformed { code: 1 }.message(), "malformed request header");
    assert_eq!(FsError::Unsupported { code: 99 }.message(), "Unsupported operation");
    assert_eq!(FsError::ServiceUnavailable.message(), "Load service not initialized");
}

use zkp::checker::{
    admit_request, conclude, error_result, success_result, RowUsage, RowUsageResult,
    SubCircuitRowUsage, TraceSummary,
};
use zkp::error::{decimal_string, CallError, Entry};
use zkp::registry::CheckerRegistry;
use zkp::utils::{bool_to_int, c_char_to_vec, vec_to_c_char};

fn summary(block_hash: &str, txs: usize, results: usize, storage: usize) -> TraceSummary {
    TraceSummary {
        block_hash: block_hash.to_string(),
        tx_hashes: (0..txs).map(|i| format!("0x{:x}", 0x100 + i)).collect(),
        execution_results: results,
        tx_storage_traces: storage,
    }
}

fn usage(rows: usize) -> RowUsage {
    RowUsage {
        is_ok: true,
        row_number: rows,
        row_usage_details: vec![SubCircuitRowUsage { name: "evm".to_string(), row_number: rows }],
    }
}

fn is_well_formed(r: &RowUsageResult) -> bool {
    (r.acc_row_usage.is_some() && r.tx_row_usage.is_some() && r.error.is_none())
        || (r.acc_row_usage.is_none() && r.tx_row_usage.is_none() && r.error.is_some())
}

fn registry_with(n: usize) -> CheckerRegistry<u32> {
    let mut reg = CheckerRegistry::new();
    for i in 0..n {
        reg.create(i as u32);
    }
    reg
}

#[test]
fn bool_to_int_values() {
    assert_eq!(bool_to_int(true), 1);
    assert_eq!(bool_to_int(false), 0);
}

#[test]
fn reads_bytes_before_first_zero() {
    assert_eq!(c_char_to_vec(b"abc\0def\0"), b"abc".to_vec());
    assert_eq!(c_char_to_vec(b"abc"), b"abc".to_vec());
    assert_eq!(c_char_to_vec(b"\0abc"), Vec::<u8>::new());
    assert_eq!(c_char_to_vec(b""), Vec::<u8>::new());
}

#[test]
fn packs_bytes_with_terminator() {
    assert_eq!(vec_to_c_char(b"{}".to_vec()), Some(b"{}\0".to_vec()));
    assert_eq!(vec_to_c_char(Vec::new()), Some(vec![0u8]));
    assert_eq!(vec_to_c_char(b"a\0b".to_vec()), None);
}

#[test]
fn packed_buffer_reads_back() {
    let bytes = br#"{"error":"x"}"#.to_vec();
    let packed = vec_to_c_char(bytes.clone()).unwrap();
    assert_eq!(c_char_to_vec(&packed), bytes);
}

#[test]
fn handles_are_dense_in_creation_order() {
    let mut reg: CheckerRegistry<&str> = CheckerRegistry::new();
    let handles: Vec<u64> = ["a", "b", "c", "d", "e"].iter().map(|c| reg.create(c)).collect();
    assert_eq!(handles, vec![0, 1, 2, 3, 4]);
    assert_eq!(reg.len(), 5);
    assert!(reg.contains(4));
    assert!(!reg.contains(5));
    assert_eq!(*reg.get(2), "c");
}

#[test]
fn changing_one_instance_leaves_others() {
    let mut reg = registry_with(3);
    *reg.get_mut(1) = 42;
    assert_eq!(*reg.get(0), 0);
    assert_eq!(*reg.get(1), 42);
    assert_eq!(*reg.get(2), 2);
    assert_eq!(reg.create(7), 3);
}

#[test]
fn decimal_values() {
    assert_eq!(decimal_string(0), "0");
    assert_eq!(decimal_string(7), "7");
    assert_eq!(decimal_string(10), "10");
    assert_eq!(decimal_string(1234567890), "1234567890");
    assert_eq!(decimal_string(u64::MAX), "18446744073709551615");
}

#[test]
fn undecodable_input_is_an_error_result() {
    let reg = registry_with(1);
    for (entry, text) in [
        (Entry::Tx, "id: 0, fail to deserialize tx_traces"),
        (Entry::Block, "id: 0, fail to deserialize block_trace"),
    ] {
        let e = admit_request(&reg, 0, entry, None).unwrap_err();
        assert!(matches!(e, CallError::Undecodable { id: 0, .. }));
        let r = error_result(e);
        assert!(is_well_formed(&r));
        assert_eq!(r.error.as_deref(), Some(text));
        assert!(!r.error.unwrap().is_empty());
    }
}

#[test]
fn tx_with_two_transactions_is_rejected() {
    let reg = registry_with(1);
    let e = admit_request(&reg, 0, Entry::Tx, Some(summary("0xabc", 2, 2, 2))).unwrap_err();
    assert!(matches!(e, CallError::TransactionCount));
    let r = error_result(e);
    assert!(r.acc_row_usage.is_none());
    assert!(r.tx_row_usage.is_none());
    assert_eq!(r.error.as_deref(), Some("traces.transactions.len() != 1"));
}

#[test]
fn tx_with_no_transaction_is_rejected() {
    let reg = registry_with(1);
    let e = admit_request(&reg, 0, Entry::Tx, Some(summary("0xabc", 0, 0, 0))).unwrap_err();
    assert!(matches!(e, CallError::TransactionCount));
    assert!(error_result(e).error.is_some());
}

#[test]
fn tx_count_mismatches_in_other_parts() {
    let reg = registry_with(1);
    let e = admit_request(&reg, 0, Entry::Tx, Some(summary("0xabc", 1, 2, 1))).unwrap_err();
    assert_eq!(e.message(), "traces.execution_results.len() != 1");
    let e = admit_request(&reg, 0, Entry::Tx, Some(summary("0xabc", 1, 1, 0))).unwrap_err();
    assert_eq!(e.message(), "traces.tx_storage_trace.len() != 1");
}

#[test]
fn tx_with_one_transaction_is_admitted() {
    let reg = registry_with(1);
    let t = admit_request(&reg, 0, Entry::Tx, Some(summary("0xabc", 1, 1, 1))).unwrap();
    assert_eq!(t.block_hash, "0xabc");
    assert_eq!(t.tx_hashes, vec!["0x100".to_string()]);
}

#[test]
fn block_accepts_any_transaction_count() {
    let reg = registry_with(1);
    for n in [0, 1, 2, 5] {
        assert!(admit_request(&reg, 0, Entry::Block, Some(summary("0xabc", n, n, 0))).is_ok());
    }
}

#[test]
fn unknown_handle_is_rejected_and_others_still_work() {
    let mut reg = registry_with(2);
    let e = admit_request(&reg, 9, Entry::Block, Some(summary("0xabc", 3, 3, 3))).unwrap_err();
    assert!(matches!(e, CallError::UnknownChecker { id: 9, entry: Entry::Block }));
    assert_eq!(
        e.message(),
        "fail to get circuit capacity checker (id: 9) in apply_block"
    );
    assert!(!reg.contains(9));
    assert_eq!(reg.len(), 2);
    assert!(admit_request(&reg, 1, Entry::Block, Some(summary("0xabc", 3, 3, 3))).is_ok());
    assert_eq!(reg.create(5), 2);
}

#[test]
fn cardinality_is_checked_before_the_handle() {
    let reg = registry_with(0);
    let e = admit_request(&reg, 0, Entry::Tx, Some(summary("0xabc", 2, 2, 2))).unwrap_err();
    assert!(matches!(e, CallError::TransactionCount));
    let e = admit_request(&reg, 0, Entry::Tx, Some(summary("0xabc", 1, 1, 1))).unwrap_err();
    assert_eq!(e.message(), "fail to get circuit capacity checker (id: 0) in apply_tx");
}

#[test]
fn block_of_three_transactions_succeeds() {
    let mut reg: CheckerRegistry<u32> = CheckerRegistry::new();
    let id = reg.create(0);
    assert_eq!(id, 0);
    let t = admit_request(&reg, id, Entry::Block, Some(summary("0xabc", 3, 3, 3))).unwrap();
    let r = conclude(id, Entry::Block, &t, Some((usage(1200), usage(400))));
    assert!(is_well_formed(&r));
    assert_eq!(r.acc_row_usage.as_ref().map(|u| u.row_number), Some(1200));
    assert_eq!(r.tx_row_usage.as_ref().map(|u| u.row_number), Some(400));
    assert_eq!(r.tx_row_usage.unwrap().row_usage_details[0].name, "evm");
    assert!(r.error.is_none());
}

#[test]
fn engine_failure_in_block_names_the_block() {
    let t = summary("0xabc", 3, 3, 3);
    let r = conclude(4, Entry::Block, &t, None);
    assert!(is_well_formed(&r));
    assert_eq!(
        r.error.as_deref(),
        Some("id: 4, fail to estimate_circuit_capacity in apply_block, block_hash: 0xabc")
    );
}

#[test]
fn engine_failure_in_tx_names_the_transaction() {
    let t = summary("0xabc", 1, 1, 1);
    let r = conclude(12, Entry::Tx, &t, None);
    assert!(r.acc_row_usage.is_none() && r.tx_row_usage.is_none());
    assert_eq!(
        r.error.as_deref(),
        Some("id: 12, fail to estimate_circuit_capacity in apply_tx, block_hash: 0xabc, tx_hash: 0x100")
    );
}

#[test]
fn success_result_carries_both_usages() {
    let r = success_result(usage(7), usage(3));
    assert!(is_well_formed(&r));
    assert_eq!(r.acc_row_usage.unwrap().row_number, 7);
    assert_eq!(r.tx_row_usage.unwrap().row_number, 3);
}

#[test]
fn error_messages_are_not_empty() {
    for e in [
        CallError::Undecodable { id: 1, entry: Entry::Block },
        CallError::TransactionCount,
        CallError::ExecutionResultCount,
        CallError::TxStorageTraceCount,
        CallError::UnknownChecker { id: 1, entry: Entry::Tx },
        CallError::EstimateFailed {
            id: 1,
            entry: Entry::Block,
            block_hash: String::new(),
            tx_hash: None,
        },
    ] {
        assert!(!e.message().is_empty());
    }
}

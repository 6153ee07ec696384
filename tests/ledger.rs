use axial::ledger::{compute_digest, snapshot_payload_text, verify_entries, Ledger, LedgerEntry, LedgerError, GENESIS_HASH};
use sha2::Digest;

fn filled(n: u64) -> Ledger {
    let mut ledger = Ledger::new(vec![]);
    for i in 0..n {
        let payload = format!("{{\"event\":\"step\",\"n\":{}}}", i);
        ledger.append_at(&payload, &format!("2024-01-01T00:00:{:02}+00:00", i));
    }
    ledger
}

#[test]
fn appended_chain_verifies() {
    for n in [0u64, 1, 2, 7] {
        let ledger = filled(n);
        assert!(ledger.verify());
        assert_eq!(ledger.entries().len() as u64, n);
    }
    let mut ledger = Ledger::new(vec![]);
    ledger.append("{\"event\":\"now\"}");
    ledger.append("{\"event\":\"later\"}");
    assert!(ledger.verify());
}

#[test]
fn corrupted_payload_or_hash_fails_verification() {
    let ledger = filled(4);
    for i in 0..4 {
        let mut rows: Vec<LedgerEntry> = ledger.entries().clone();
        rows[i].payload = "{\"event\":\"forged\"}".to_string();
        assert!(!verify_entries(&rows));
        let mut rows: Vec<LedgerEntry> = ledger.entries().clone();
        rows[i].hash = "f".repeat(64);
        assert!(!Ledger::new(rows).verify());
    }
}

#[test]
fn chain_links_to_genesis_and_predecessors() {
    let ledger = filled(5);
    let e = ledger.entries();
    assert_eq!(e[0].previous_hash, "0".repeat(64));
    assert_eq!(GENESIS_HASH, "0".repeat(64));
    for i in 1..e.len() {
        assert_eq!(e[i].previous_hash, e[i - 1].hash);
        assert_eq!(e[i].index, i as u64);
    }
    assert_eq!(ledger.root_hash(), e[4].hash);
    assert_eq!(ledger.next_index(), 5);
}

#[test]
fn digest_is_sha256_of_fields() {
    let zeros = "0".repeat(64);
    let got = compute_digest(3, &zeros, "{\"a\":1}", "2024-01-01T00:00:00+00:00");
    let mut h = sha2::Sha256::new();
    h.update(3u64.to_be_bytes());
    h.update(zeros.as_bytes());
    h.update("{\"a\":1}".as_bytes());
    h.update("2024-01-01T00:00:00+00:00".as_bytes());
    let want: String = h.finalize().iter().map(|b| format!("{:02x}", b)).collect();
    assert_eq!(got, want);
    assert_eq!(got.len(), 64);
}

#[test]
fn exported_manifest_matches_reopened_bundle() {
    let ledger = filled(3);
    let manifest = ledger.runpack_manifest("2024-02-02T00:00:00+00:00");
    assert_eq!(manifest.total_entries, 3);
    assert_eq!(manifest.root_hash, ledger.entries()[2].hash);
    assert_eq!(manifest.provenance, "AXIAL v1-max Evidence Bundle");
    let reopened = Ledger::new(ledger.entries().clone());
    assert!(reopened.verify());
    assert_eq!(reopened.root_hash(), manifest.root_hash);
    let empty = Ledger::new(vec![]);
    assert_eq!(empty.runpack_manifest("t").root_hash, "0".repeat(64));
}

#[test]
fn query_filters_newest_first() {
    let mut ledger = Ledger::new(vec![]);
    ledger.append_at("{\"run_id\":\"a\"}", "t0");
    ledger.append_at("{\"run_id\":\"b\"}", "t1");
    ledger.append_at("{\"run_id\":\"ab\"}", "t2");
    let hits = ledger.query("a");
    let idx: Vec<u64> = hits.iter().map(|e| e.index).collect();
    assert_eq!(idx, vec![2, 0]);
    assert_eq!(ledger.query("").len(), 3);
    assert!(ledger.query("zzz").is_empty());
}

#[test]
fn commit_accepts_only_the_next_entry() {
    let mut ledger = Ledger::new(vec![]);
    let e = ledger.next_entry("{}", "t0");
    let mut forged = e.clone();
    forged.payload = "{\"x\":1}".to_string();
    assert_eq!(ledger.commit(forged), Err(LedgerError::DigestMismatch));
    let mut wrong_index = e.clone();
    wrong_index.index = 5;
    assert_eq!(ledger.commit(wrong_index), Err(LedgerError::IndexMismatch));
    let mut unlinked = e.clone();
    unlinked.previous_hash = "1".repeat(64);
    assert_eq!(ledger.commit(unlinked), Err(LedgerError::BrokenLink));
    assert_eq!(ledger.next_index(), 0);
    assert_eq!(ledger.commit(e.clone()), Ok(()));
    assert_eq!(ledger.next_index(), 1);
    assert_eq!(ledger.commit(e), Err(LedgerError::IndexMismatch));
    assert!(ledger.verify());
}

#[test]
fn reopened_ledger_continues_the_chain() {
    let ledger = filled(2);
    let mut reopened = Ledger::new(ledger.entries().clone());
    let e = reopened.append_at("{}", "t9");
    assert_eq!(e.index, 2);
    assert_eq!(e.previous_hash, ledger.root_hash());
    assert!(reopened.verify());
}

#[test]
fn snapshot_payloads_are_canonical() {
    assert_eq!(
        snapshot_payload_text("t\"1", Some("abc")),
        "{\"event\":\"forensic_snapshot\",\"manifest\":{\"commit\":\"abc\",\"tag\":\"t\\\"1\",\"type\":\"git_commit\"},\"tag\":\"t\\\"1\"}"
    );
    assert_eq!(
        snapshot_payload_text("pre", None),
        "{\"event\":\"forensic_snapshot\",\"manifest\":{\"note\":\"Git not initialized\",\"tag\":\"pre\",\"type\":\"fs_state\"},\"tag\":\"pre\"}"
    );
    let mut ledger = Ledger::new(vec![]);
    let e = ledger.snapshot("pre", None);
    assert_eq!(e.payload, snapshot_payload_text("pre", None));
    assert!(ledger.verify());
}

#[test]
fn commit_refuses_past_the_last_index() {
    let last = LedgerEntry {
        index: u64::MAX - 1,
        previous_hash: "0".repeat(64),
        payload: "{}".to_string(),
        timestamp: "t".to_string(),
        hash: "a".repeat(64),
    };
    let mut ledger = Ledger::new(vec![last]);
    assert_eq!(ledger.next_index(), u64::MAX);
    let e = ledger.next_entry("{}", "t1");
    assert_eq!(e.index, u64::MAX);
    assert_eq!(e.previous_hash, "a".repeat(64));
    assert_eq!(ledger.commit(e), Err(LedgerError::IndexExhausted));
    assert_eq!(ledger.entries().len(), 1);
}

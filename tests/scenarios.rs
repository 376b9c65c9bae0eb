use sigverify::admission::AdmissionError;
use sigverify::memory::MemoryStore;
use sigverify::pipeline::{process_next, register_account, status, submit};
use sigverify::records::{RegistrationRequest, VerificationRequest};
use sigverify::store::WorkerId;

fn key32() -> String {
    "ABCDEFGHIJKLMNOPQRSTUVWXYZ012345".to_string()
}

fn request(payload: &str, signature: &str) -> VerificationRequest {
    VerificationRequest {
        payload: payload.to_string(),
        signature: signature.to_string(),
        transaction_id: None,
        pub_key: None,
    }
}

fn store_with_alice() -> MemoryStore {
    let mut store = MemoryStore::new();
    register_account(&mut store, "alice".to_string(), RegistrationRequest { pub_key: key32() });
    store
}

#[test]
fn registered_account_resolves_its_key() {
    let store = store_with_alice();
    assert_eq!(store.get_pub_key(&"alice".to_string()), Some(key32()));
    assert_eq!(store.get_pub_key(&"bob".to_string()), None);
}

#[test]
fn reregistration_changes_later_submissions_only() {
    let mut store = store_with_alice();
    submit(&mut store, &"alice".to_string(), "tx-a".to_string(), request("p", "s")).unwrap();
    register_account(&mut store, "alice".to_string(), RegistrationRequest { pub_key: "k2".to_string() });
    submit(&mut store, &"alice".to_string(), "tx-b".to_string(), request("p", "s")).unwrap();
    assert_eq!(store.get_pub_key(&"alice".to_string()), Some("k2".to_string()));
    let w = WorkerId { name: "w".to_string() };
    let mut seen = Vec::new();
    while store.queued_len() > 0 {
        let rec = process_next(&mut store, &w).unwrap();
        seen.push(rec.transaction_id);
    }
    assert_eq!(seen, vec!["tx-a".to_string(), "tx-b".to_string()]);
}

#[test]
fn submission_is_pending_until_processed() {
    let mut store = store_with_alice();
    assert!(submit(&mut store, &"alice".to_string(), "tx-1".to_string(), request("hello", "sig")).is_ok());
    let r = status(&store, &"tx-1".to_string()).unwrap();
    assert_eq!(r.transaction_id, "tx-1");
    assert!(!r.complete);
    assert_eq!(r.valid, None);
    register_account(&mut store, "bob".to_string(), RegistrationRequest { pub_key: key32() });
    submit(&mut store, &"bob".to_string(), "tx-7".to_string(), request("x", "y")).unwrap();
    let r = status(&store, &"tx-1".to_string()).unwrap();
    assert!(!r.complete);
    assert_eq!(r.valid, None);
    assert_eq!(store.queued_len(), 2);
}

#[test]
fn corrupted_signature_completes_invalid() {
    let mut store = store_with_alice();
    submit(&mut store, &"alice".to_string(), "tx-2".to_string(), request("hello", "corrupted")).unwrap();
    let w = WorkerId { name: "w1".to_string() };
    let rec = process_next(&mut store, &w).unwrap();
    assert_eq!(rec.transaction_id, "tx-2");
    assert!(rec.complete);
    assert_eq!(rec.valid, Some(false));
    let r = status(&store, &"tx-2".to_string()).unwrap();
    assert!(r.complete);
    assert_eq!(r.valid, Some(false));
    assert_eq!(store.staged_len(&w), 0);
    assert_eq!(store.queued_len(), 0);
}

#[test]
fn unknown_transaction_is_not_found() {
    let store = store_with_alice();
    assert!(matches!(status(&store, &"tx-404".to_string()), Err(AdmissionError::NotFound)));
}

#[test]
fn unknown_account_is_refused_without_writes() {
    let mut store = store_with_alice();
    let r = submit(&mut store, &"mallory".to_string(), "tx-5".to_string(), request("a", "b"));
    assert!(matches!(r, Err(AdmissionError::UnknownAccount)));
    assert_eq!(store.queued_len(), 0);
    assert!(matches!(status(&store, &"tx-5".to_string()), Err(AdmissionError::NotFound)));
}

#[test]
fn empty_queue_processes_nothing() {
    let mut store = store_with_alice();
    let w = WorkerId { name: "w1".to_string() };
    assert!(process_next(&mut store, &w).is_none());
    assert_eq!(store.staged_len(&w), 0);
}

#[test]
fn dequeued_entry_stays_staged_until_committed() {
    let mut store = store_with_alice();
    submit(&mut store, &"alice".to_string(), "tx-6".to_string(), request("hello", "sig")).unwrap();
    let w1 = WorkerId { name: "w1".to_string() };
    let w2 = WorkerId { name: "w2".to_string() };
    let staged = store.dequeue_to_stage(&w1).unwrap();
    assert_eq!(staged.transaction_id.as_deref(), Some("tx-6"));
    assert_eq!(store.staged_len(&w1), 1);
    assert_eq!(store.staged_len(&w2), 0);
    assert_eq!(store.queued_len(), 0);
    assert!(store.dequeue_to_stage(&w2).is_none());
    assert_eq!(store.staged_len(&w1), 1);
    assert!(!status(&store, &"tx-6".to_string()).unwrap().complete);
}

#[test]
fn malformed_entry_stays_staged() {
    let mut store = MemoryStore::new();
    store.perform(sigverify::store::Command::Enqueue { request: VerificationRequest::new() });
    let w = WorkerId { name: "w1".to_string() };
    assert!(process_next(&mut store, &w).is_none());
    assert_eq!(store.staged_len(&w), 1);
    assert_eq!(store.queued_len(), 0);
}

#[test]
fn completed_record_is_not_reset_by_resubmission() {
    let mut store = store_with_alice();
    submit(&mut store, &"alice".to_string(), "tx-2".to_string(), request("hello", "corrupted")).unwrap();
    let w = WorkerId { name: "w1".to_string() };
    process_next(&mut store, &w).unwrap();
    let again = submit(&mut store, &"alice".to_string(), "tx-2".to_string(), request("hello", "corrupted"));
    assert!(matches!(again, Err(AdmissionError::AlreadyComplete)));
    let r = status(&store, &"tx-2".to_string()).unwrap();
    assert!(r.complete);
    assert_eq!(r.valid, Some(false));
    assert_eq!(store.queued_len(), 0);
}

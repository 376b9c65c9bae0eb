use sigverify::admission::{register, verification_status, verify_signature, AdmissionError};
use sigverify::crypto::{verify_detached, verify_text};
use sigverify::records::{RegistrationRequest, VerificationRequest, VerificationResponse};
use sigverify::store::{Command, WorkerId};
use sigverify::worker::{acknowledgement, process_entry};

fn client_request(payload: &str, signature: &str) -> VerificationRequest {
    VerificationRequest {
        payload: payload.to_string(),
        signature: signature.to_string(),
        transaction_id: None,
        pub_key: None,
    }
}

fn alice_key() -> String {
    "0123456789abcdef0123456789abcdef".to_string()
}

#[test]
fn register_binds_account_to_key() {
    let c = register("alice".to_string(), RegistrationRequest { pub_key: alice_key() });
    match c {
        Command::SetAccount { account_id, pub_key } => {
            assert_eq!(account_id, "alice");
            assert_eq!(pub_key, alice_key());
            assert_eq!(pub_key.len(), 32);
        }
        _ => panic!("registration must write the account key"),
    }
}

#[test]
fn submit_writes_pending_then_enqueues() {
    let r = verify_signature("tx-1".to_string(), client_request("hello", "sig"), Some(alice_key()), None);
    let cs = r.expect("a known account is accepted");
    assert_eq!(cs.len(), 2);
    match &cs[0] {
        Command::SetStatus { record } => {
            assert_eq!(record.transaction_id, "tx-1");
            assert!(!record.complete);
            assert_eq!(record.valid, None);
        }
        _ => panic!("the pending record comes first"),
    }
    match &cs[1] {
        Command::Enqueue { request } => {
            assert_eq!(request.payload, "hello");
            assert_eq!(request.signature, "sig");
            assert_eq!(request.transaction_id.as_deref(), Some("tx-1"));
            assert_eq!(request.pub_key, Some(alice_key()));
        }
        _ => panic!("the queued request comes second"),
    }
}

#[test]
fn submit_for_unknown_account_is_refused() {
    let r = verify_signature("tx-9".to_string(), client_request("hello", "sig"), None, None);
    assert!(matches!(r, Err(AdmissionError::UnknownAccount)));
}

#[test]
fn resubmission_uses_most_recent_key() {
    let first = verify_signature("tx-a".to_string(), client_request("p", "s"), Some("k1".to_string()), None).unwrap();
    let second = verify_signature("tx-b".to_string(), client_request("p", "s"), Some("k2".to_string()), None).unwrap();
    match (&first[1], &second[1]) {
        (Command::Enqueue { request: a }, Command::Enqueue { request: b }) => {
            assert_eq!(a.pub_key.as_deref(), Some("k1"));
            assert_eq!(b.pub_key.as_deref(), Some("k2"));
        }
        _ => panic!("each submission enqueues its request"),
    }
}

#[test]
fn status_of_pending_transaction() {
    let r = verification_status(Some(VerificationResponse::pending("tx-1".to_string()))).unwrap();
    assert_eq!(r.transaction_id, "tx-1");
    assert!(!r.complete);
    assert_eq!(r.valid, None);
}

#[test]
fn status_of_completed_transaction() {
    let r = verification_status(Some(VerificationResponse::completed("tx-1".to_string(), true))).unwrap();
    assert!(r.complete);
    assert_eq!(r.valid, Some(true));
}

#[test]
fn status_of_unknown_transaction_is_not_found() {
    assert!(matches!(verification_status(None), Err(AdmissionError::NotFound)));
}

#[test]
fn worker_rejects_corrupted_signature() {
    let mut req = client_request("hello", "not a signature at all, far too short");
    req.transaction_id = Some("tx-2".to_string());
    req.pub_key = Some(alice_key());
    let rec = process_entry(Some(req)).expect("a well-formed entry is committed");
    assert_eq!(rec.transaction_id, "tx-2");
    assert!(rec.complete);
    assert_eq!(rec.valid, Some(false));
}

#[test]
fn worker_rejects_key_of_wrong_length() {
    let mut req = client_request("hello", &"s".repeat(64));
    req.transaction_id = Some("tx-3".to_string());
    req.pub_key = Some("short".to_string());
    let rec = process_entry(Some(req)).unwrap();
    assert_eq!(rec.valid, Some(false));
    assert!(rec.complete);
}

#[test]
fn worker_passes_over_malformed_entries() {
    assert!(process_entry(None).is_none());
    assert!(process_entry(Some(VerificationRequest::new())).is_none());
    let mut no_key = client_request("hello", "sig");
    no_key.transaction_id = Some("tx-4".to_string());
    assert!(process_entry(Some(no_key)).is_none());
    let mut no_tx = client_request("hello", "sig");
    no_tx.pub_key = Some(alice_key());
    assert!(process_entry(Some(no_tx)).is_none());
}

#[test]
fn acknowledge_only_after_commit() {
    let w = WorkerId { name: "w1".to_string() };
    assert!(acknowledgement(&w, false).is_none());
    match acknowledgement(&w, true) {
        Some(Command::Acknowledge { worker }) => assert_eq!(worker.name, "w1"),
        _ => panic!("a committed entry is acknowledged"),
    }
}

#[test]
fn stage_key_names_worker_list() {
    let w = WorkerId { name: "svc1".to_string() };
    assert_eq!(w.stage_key(), "stack:svc1:verification_request_dlq");
}

#[test]
fn placeholder_request_is_empty() {
    let r = VerificationRequest::new();
    assert_eq!(r.payload, "");
    assert_eq!(r.signature, "");
    assert!(r.transaction_id.is_none());
    assert!(r.pub_key.is_none());
}

#[test]
fn signature_of_matching_key_is_valid() {
    let kp = nacl::sign::generate_keypair(&[7u8; 32]);
    let msg = b"hello";
    let sig = nacl::sign::signature(msg, &kp.skey).unwrap();
    assert!(verify_detached(&sig, msg, &kp.pkey));
}

#[test]
fn flipped_bit_in_payload_or_signature_is_invalid() {
    let kp = nacl::sign::generate_keypair(&[7u8; 32]);
    let msg = b"hello".to_vec();
    let sig = nacl::sign::signature(&msg, &kp.skey).unwrap();
    for i in 0..msg.len() {
        let mut m = msg.clone();
        m[i] ^= 1;
        assert!(!verify_detached(&sig, &m, &kp.pkey));
    }
    for i in 0..sig.len() {
        let mut s = sig.clone();
        s[i] ^= 0x10;
        assert!(!verify_detached(&s, &msg, &kp.pkey));
    }
}

#[test]
fn other_key_is_invalid() {
    let kp = nacl::sign::generate_keypair(&[7u8; 32]);
    let other = nacl::sign::generate_keypair(&[8u8; 32]);
    let sig = nacl::sign::signature(b"hello", &kp.skey).unwrap();
    assert!(!verify_detached(&sig, b"hello", &other.pkey));
}

#[test]
fn text_check_fails_on_key_of_wrong_length() {
    assert!(!verify_text(&"x".repeat(64), "hello", "abc"));
}

#[test]
fn submit_for_completed_transaction_is_refused() {
    let done = VerificationResponse::completed("tx-1".to_string(), true);
    let r = verify_signature("tx-1".to_string(), client_request("hello", "sig"), Some(alice_key()), Some(done));
    assert!(matches!(r, Err(AdmissionError::AlreadyComplete)));
}

#[test]
fn resubmit_while_pending_is_accepted() {
    let pending = VerificationResponse::pending("tx-1".to_string());
    let r = verify_signature("tx-1".to_string(), client_request("hello", "sig"), Some(alice_key()), Some(pending));
    assert_eq!(r.unwrap().len(), 2);
}

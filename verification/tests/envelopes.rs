use ai_mesh::envelope::{JobEnvelope, JobResultEnvelope};
use ai_mesh::error::CoreError;
use ai_mesh::hexcode::{to_hex, HexError};
use ai_mesh::keys::NodeIdentity;
use ai_mesh::receipt::Receipt;

const ID: [u8; 16] = [
    0x67, 0xe5, 0x50, 0x44, 0x10, 0xb1, 0x42, 0x6f, 0x92, 0x47, 0xbb, 0x68, 0x0e, 0x5f, 0xe0, 0xc8,
];

fn job() -> JobEnvelope {
    JobEnvelope {
        job_id: ID,
        task: "chat".to_string(),
        model: "local-model".to_string(),
        payload: "Hello \"mesh\"".to_string(),
        sender: "ab".to_string(),
        created_at: 1_700_000_000,
        expires_at: 1_700_000_300,
        signature: String::new(),
    }
}

#[test]
fn job_canonical_bytes_are_compact_json_without_signature() {
    let mut j = job();
    let expected = br#"{"job_id":"67e55044-10b1-426f-9247-bb680e5fe0c8","task":"chat","model":"local-model","payload":"Hello \"mesh\"","sender":"ab","created_at":1700000000,"expires_at":1700000300}"#.to_vec();
    assert_eq!(j.canonical_bytes_without_signature().unwrap(), expected);
    j.signature = "00ff".to_string();
    assert_eq!(j.canonical_bytes_without_signature().unwrap(), expected);
}

#[test]
fn result_canonical_bytes_are_compact_json_without_signature() {
    let r = JobResultEnvelope {
        job_id: ID,
        worker: "w".to_string(),
        model_used: "m".to_string(),
        output: "o\n".to_string(),
        receipt_hash: "h".to_string(),
        signature: "zz".to_string(),
    };
    let expected = br#"{"job_id":"67e55044-10b1-426f-9247-bb680e5fe0c8","worker":"w","model_used":"m","output":"o\n","receipt_hash":"h"}"#.to_vec();
    assert_eq!(r.canonical_bytes_without_signature().unwrap(), expected);
}

#[test]
fn new_job_is_unsigned_with_fresh_id() {
    let a = JobEnvelope::new("t".to_string(), "m".to_string(), "p".to_string(), "s".to_string());
    let b = JobEnvelope::new("t".to_string(), "m".to_string(), "p".to_string(), "s".to_string());
    assert_eq!(a.task, "t");
    assert_eq!(a.model, "m");
    assert_eq!(a.payload, "p");
    assert_eq!(a.sender, "s");
    assert_eq!(a.signature, "");
    assert_ne!(a.job_id, b.job_id);
    assert_eq!(a.job_id[6] >> 4, 4);
    assert_eq!(a.job_id[8] >> 6, 2);
    assert_eq!(a.expires_at, a.created_at + 300);
    assert!(a.created_at > 1_600_000_000);
}

#[test]
fn signed_job_verifies_under_signer_key() {
    let id = NodeIdentity::new();
    let signed = job().sign(&id).unwrap();
    assert_eq!(signed.signature.len(), 128);
    assert_eq!(signed.payload, job().payload);
    assert!(signed.verify(&id.verifying_key()).is_ok());
}

#[test]
fn signature_is_hex_of_signature_over_canonical_bytes() {
    let id = NodeIdentity::new();
    let j = job();
    let bytes = j.canonical_bytes_without_signature().unwrap();
    let signed = j.sign(&id).unwrap();
    assert_eq!(signed.signature, to_hex(&id.sign_bytes(&bytes).to_bytes()));
}

#[test]
fn resigning_a_job_changes_nothing() {
    let id = NodeIdentity::new();
    let once = job().sign(&id).unwrap();
    let twice = once.clone().sign(&id).unwrap();
    assert_eq!(once.signature, twice.signature);
}

#[test]
fn unsigned_job_is_refused_for_length() {
    let id = NodeIdentity::new();
    assert!(matches!(job().verify(&id.verifying_key()), Err(CoreError::InvalidSignatureBytes)));
}

#[test]
fn tampered_job_fails_verification() {
    let id = NodeIdentity::new();
    let mut signed = job().sign(&id).unwrap();
    signed.payload.push('!');
    assert!(matches!(signed.verify(&id.verifying_key()), Err(CoreError::VerifyFailed)));
}

#[test]
fn job_signed_by_other_key_fails_verification() {
    let id = NodeIdentity::new();
    let other = NodeIdentity::new();
    let signed = job().sign(&id).unwrap();
    assert!(matches!(signed.verify(&other.verifying_key()), Err(CoreError::VerifyFailed)));
}

#[test]
fn bad_signature_text_is_reported() {
    let id = NodeIdentity::new();
    let mut j = job();
    j.signature = "0g".to_string();
    assert!(matches!(
        j.verify(&id.verifying_key()),
        Err(CoreError::Hex(HexError::InvalidHexCharacter { c: 'g', index: 1 }))
    ));
    j.signature = "abc".to_string();
    assert!(matches!(j.verify(&id.verifying_key()), Err(CoreError::Hex(HexError::OddLength))));
    j.signature = "00".repeat(63);
    assert!(matches!(j.verify(&id.verifying_key()), Err(CoreError::InvalidSignatureBytes)));
    j.signature = "00".repeat(64);
    assert!(matches!(j.verify(&id.verifying_key()), Err(CoreError::VerifyFailed)));
}

#[test]
fn result_carries_receipt_of_output() {
    let r = JobResultEnvelope::new(ID, "w".to_string(), "m".to_string(), "answer".to_string());
    assert_eq!(r.receipt_hash, Receipt::hash_str("answer"));
    assert_eq!(r.job_id, ID);
    assert_eq!(r.worker, "w");
    assert_eq!(r.model_used, "m");
    assert_eq!(r.output, "answer");
    assert_eq!(r.signature, "");
}

#[test]
fn signed_result_verifies_and_tampering_is_caught() {
    let id = NodeIdentity::new();
    let r = JobResultEnvelope::new(ID, id.peer_id_hex(), "m".to_string(), "answer".to_string());
    let signed = r.sign(&id).unwrap();
    assert!(signed.verify(&id.verifying_key()).is_ok());
    assert_eq!(signed.receipt_hash, Receipt::hash_str("answer"));
    let mut bent = signed.clone();
    bent.receipt_hash = Receipt::hash_str("other");
    assert!(matches!(bent.verify(&id.verifying_key()), Err(CoreError::VerifyFailed)));
    let unsigned = JobResultEnvelope::new(ID, "w".to_string(), "m".to_string(), "o".to_string());
    assert!(matches!(unsigned.verify(&id.verifying_key()), Err(CoreError::InvalidSignatureBytes)));
}

#[test]
fn job_expires_after_its_time_to_live() {
    let j = job();
    assert!(!j.is_expired(1_700_000_299));
    assert!(j.is_expired(1_700_000_300));
    assert!(j.is_expired(u64::MAX));
}

#[test]
fn expiry_is_covered_by_the_signature() {
    let id = NodeIdentity::new();
    let mut signed = job().sign(&id).unwrap();
    signed.expires_at += 1;
    assert!(matches!(signed.verify(&id.verifying_key()), Err(CoreError::VerifyFailed)));
}

#[test]
fn canonical_bytes_of_control_and_unicode_text() {
    let mut j = job();
    j.payload = "a\u{1}\u{1f}\u{7f}é\t\r\u{8}\u{c}/\"\\".to_string();
    let bytes = j.canonical_bytes_without_signature().unwrap();
    let text = String::from_utf8(bytes).unwrap();
    let expected = "\"payload\":\"a\\u0001\\u001f\u{7f}é\\t\\r\\b\\f/\\\"\\\\\"";
    assert!(text.contains(expected), "{}", text);
    assert_eq!(serde_json::to_vec(j.payload.as_str()).unwrap(), expected["\"payload\":".len()..].as_bytes());
}

#[test]
fn canonical_bytes_change_with_every_field_but_signature() {
    let base = job();
    let bytes = base.canonical_bytes_without_signature().unwrap();
    let mut variants = Vec::new();
    let mut j = job(); j.job_id[15] ^= 1; variants.push(j);
    let mut j = job(); j.task.push('x'); variants.push(j);
    let mut j = job(); j.model.push('x'); variants.push(j);
    let mut j = job(); j.payload.push('x'); variants.push(j);
    let mut j = job(); j.sender.push('x'); variants.push(j);
    let mut j = job(); j.created_at += 1; variants.push(j);
    let mut j = job(); j.expires_at += 1; variants.push(j);
    for v in variants {
        assert_ne!(v.canonical_bytes_without_signature().unwrap(), bytes);
    }
    let mut j = job();
    j.signature = "ff".to_string();
    assert_eq!(j.canonical_bytes_without_signature().unwrap(), bytes);
    let mut a = job();
    let mut b = job();
    a.task = "a\",\"model\":\"b".to_string();
    a.model = "c".to_string();
    b.task = "a".to_string();
    b.model = "b\",\"model\":\"c".to_string();
    assert_ne!(a.canonical_bytes_without_signature().unwrap(), b.canonical_bytes_without_signature().unwrap());
}

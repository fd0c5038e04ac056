use ai_mesh::error::CoreError;
use ai_mesh::hexcode::{from_hex, to_hex};
use ai_mesh::keys::{NodeIdentity, Signature, VerifyingKey};
use ai_mesh::receipt::Receipt;

const RFC8032_SECRET: &str = "9d61b19deffd5a60ba844af492ec2cc44449c5697b326919703bac031cae7f60";
const RFC8032_PUBLIC: &str = "d75a980182b10ab7d54bfed3c964073a0ee172f3daa62325af021a68f707511a";
const RFC8032_EMPTY_SIG: &str = "e5564300c360ac729086e2cc806e828a84877f1eb8e5d974d873e065224901555fb8821590a33bacc61e39701cf9b46bd25bf5f0595bbe24655141438e7a100b";

fn rfc_identity() -> NodeIdentity {
    NodeIdentity::load(&from_hex(RFC8032_SECRET).unwrap()).unwrap()
}

#[test]
fn public_key_matches_rfc8032_vector() {
    let id = rfc_identity();
    assert_eq!(id.peer_id_hex(), RFC8032_PUBLIC);
    assert_eq!(to_hex(&id.verifying_key().to_bytes()), RFC8032_PUBLIC);
}

#[test]
fn signature_matches_rfc8032_vector() {
    let id = rfc_identity();
    let sig = id.sign_bytes(b"");
    assert_eq!(to_hex(&sig.to_bytes()), RFC8032_EMPTY_SIG);
    assert!(id.verifying_key().verify_bytes(b"", &sig));
}

#[test]
fn signature_does_not_cover_other_messages() {
    let id = rfc_identity();
    let sig = id.sign_bytes(b"hello");
    assert!(id.verifying_key().verify_bytes(b"hello", &sig));
    assert!(!id.verifying_key().verify_bytes(b"hellO", &sig));
    let other = NodeIdentity::new();
    assert!(!other.verifying_key().verify_bytes(b"hello", &sig));
    let mut bent = sig.to_bytes();
    bent[0] ^= 1;
    assert!(!id.verifying_key().verify_bytes(b"hello", &Signature { bytes: bent }));
}

#[test]
fn key_that_does_not_decode_verifies_nothing() {
    let id = rfc_identity();
    let sig = id.sign_bytes(b"x");
    let mut bad = [0u8; 32];
    bad[0] = 2;
    bad[31] = 0x80;
    let key = VerifyingKey { bytes: bad };
    assert!(!key.verify_bytes(b"x", &sig));
}

#[test]
fn save_then_load_gives_same_identity() {
    let id = NodeIdentity::new();
    let stored = id.save();
    let loaded = NodeIdentity::load(&stored).unwrap();
    assert_eq!(loaded.save(), stored);
    assert_eq!(loaded.peer_id_hex(), id.peer_id_hex());
    assert_eq!(loaded.verifying_key(), id.verifying_key());
}

#[test]
fn load_refuses_wrong_length() {
    assert!(matches!(NodeIdentity::load(&[1u8; 31]), Err(CoreError::InvalidKeyLength)));
    assert!(matches!(NodeIdentity::load(&[1u8; 33]), Err(CoreError::InvalidKeyLength)));
    assert!(matches!(NodeIdentity::load(&[]), Err(CoreError::InvalidKeyLength)));
}

#[test]
fn fresh_identities_differ() {
    let a = NodeIdentity::new();
    let b = NodeIdentity::default();
    assert_ne!(a.peer_id_hex(), b.peer_id_hex());
    assert_eq!(a.peer_id_hex().len(), 64);
}

#[test]
fn receipt_is_blake2b_512_hex() {
    assert_eq!(
        Receipt::hash_str("abc"),
        "ba80a53f981c4d0d6a2797b69f12f6e94c212f14685ac4b74b12bb6fdbffa2d17d87c5392aab792dc252d5de4533cc9518d38aa8dbf1925ab92386edd4009923"
    );
    assert_eq!(
        Receipt::hash_str(""),
        "786a02f742015903c6c6fd852552d272912f4740e15847618a86e217f71f5419d25e1031afee585313896444934eb04b903a685b1448b755d56f701afe9be2ce"
    );
    assert_eq!(Receipt::hash_str("x").len(), 128);
}

//! Job envelopes sent from requester to worker, and signed results sent
//! back, with the canonical bytes their signatures cover.

use vstd::prelude::*;
use crate::canonical::{encode_fields, encode_json_object, job_id_text, json_number, json_object, json_text, lemma_json_object_injective, lemma_uuid_injective, member_views, random_uuid_v4, uuid_hyphenated, JsonField};
use crate::error::CoreError;
use crate::hexcode::{from_hex, hex_decode_spec, hex_lower, lemma_hex_round_trip, to_hex};
use crate::keys::{ed25519_accepts, ed25519_public, ed25519_signature, NodeIdentity, Signature, VerifyingKey};
use crate::receipt::{receipt_of, Receipt};

verus! {

/// That `text` is the hex form of the signature of `message` under
/// `secret`, a 64-byte signature that the matching public key accepts.
pub open spec fn signed_over(secret: Seq<u8>, message: Seq<u8>, text: Seq<char>) -> bool {
    let sig = ed25519_signature(secret, message);
    &&& sig.len() == 64
    &&& ed25519_accepts(ed25519_public(secret), message, sig)
    &&& text == hex_lower(sig)
}

/// What checking the signature text `text` over the canonical bytes
/// `canonical` under the public key `key` gives: the hex error,
/// `InvalidSignatureBytes` unless 64 bytes, then success exactly when
/// ed25519 accepts.
pub open spec fn verify_result(
    canonical: Seq<u8>,
    text: Seq<char>,
    key: Seq<u8>,
    r: Result<(), CoreError>,
) -> bool {
    match hex_decode_spec(vstd::utf8::encode_utf8(text)) {
        Err(h) => r == Err::<(), CoreError>(CoreError::Hex(h)),
        Ok(sig) => if sig.len() != 64 {
            r matches Err(CoreError::InvalidSignatureBytes)
        } else if ed25519_accepts(key, canonical, sig) {
            r is Ok
        } else {
            r matches Err(CoreError::VerifyFailed)
        },
    }
}

/// Checks a hex signature text over `message` under `key`.
fn check_signature(message: &[u8], text: &str, key: &VerifyingKey) -> (r: Result<(), CoreError>)
    ensures
        verify_result(message@, text@, key.bytes@, r),
{
    let sig_bytes = match from_hex(text) {
        Ok(v) => v,
        Err(h) => {
            return Err(CoreError::Hex(h));
        },
    };
    if sig_bytes.len() != 64 {
        return Err(CoreError::InvalidSignatureBytes);
    }
    let mut arr = [0u8; 64];
    for i in 0..64
        invariant
            sig_bytes@.len() == 64,
            forall|j: int| 0 <= j < i ==> arr@[j] == sig_bytes@[j],
    {
        arr[i] = sig_bytes[i];
    }
    assert(arr@ =~= sig_bytes@);
    if key.verify_bytes(message, &Signature { bytes: arr }) {
        Ok(())
    } else {
        Err(CoreError::VerifyFailed)
    }
}

/// A signature made by `signed_over` passes the check under the signer's
/// public key, and nothing else comes out of the check.
pub proof fn lemma_signed_passes(secret: Seq<u8>, message: Seq<u8>, text: Seq<char>, r: Result<(), CoreError>)
    requires
        signed_over(secret, message, text),
    ensures
        verify_result(message, text, ed25519_public(secret), r) <==> r is Ok,
{
    lemma_hex_round_trip(ed25519_signature(secret, message));
}

// ─── Job envelope ───────────────────────────────────────────────────────────

/// How long after its creation a job expires, in seconds.
pub const JOB_TTL_SECS: u64 = 300;

/// The expiration of a job created at `created_at`: `JOB_TTL_SECS` later,
/// or the last representable second.
pub open spec fn expiry_of(created_at: u64) -> u64 {
    if created_at > u64::MAX - JOB_TTL_SECS {
        u64::MAX
    } else {
        (created_at + JOB_TTL_SECS) as u64
    }
}

/// Calls `SystemTime::elapsed` on the Unix epoch (the time passed since
/// then, by the system clock) and gives it in whole seconds, or `None`
/// where the clock stands before the epoch. Nothing is claimed of the time.
#[verifier::external_body]
fn unix_time_now() -> (r: Option<u64>) {
    match std::time::UNIX_EPOCH.elapsed() {
        Ok(d) => Some(d.as_secs()),
        Err(_) => None,
    }
}

/// A job sent from requester to worker, unsigned or signed.
#[derive(Debug, Clone)]
pub struct JobEnvelope {
    /// The 16 bytes of the job's UUID.
    pub job_id: [u8; 16],
    /// Human-readable task description / routing hint.
    pub task: String,
    pub model: String,
    pub payload: String,
    /// Hex-encoded public key of the requester.
    pub sender: String,
    /// Creation time, in seconds since the Unix epoch.
    pub created_at: u64,
    /// Expiration time, in seconds since the Unix epoch.
    pub expires_at: u64,
    /// Hex-encoded ed25519 signature over the canonical bytes (empty when
    /// unsigned).
    pub signature: String,
}

/// The members of a job's canonical object, every field but the signature,
/// in the order of the fields.
pub open spec fn job_fields(e: JobEnvelope) -> Seq<(Seq<char>, JsonField)> {
    seq![
        ("job_id"@, JsonField::Text(uuid_hyphenated(e.job_id@))),
        ("task"@, JsonField::Text(e.task@)),
        ("model"@, JsonField::Text(e.model@)),
        ("payload"@, JsonField::Text(e.payload@)),
        ("sender"@, JsonField::Text(e.sender@)),
        ("created_at"@, JsonField::Number(e.created_at as nat)),
        ("expires_at"@, JsonField::Number(e.expires_at as nat)),
    ]
}

/// The members of a job's canonical object, each value written as JSON.
pub open spec fn job_members(e: JobEnvelope) -> Seq<(Seq<char>, Seq<u8>)> {
    encode_fields(job_fields(e))
}

/// The bytes a job's signature covers.
pub open spec fn job_canonical(e: JobEnvelope) -> Seq<u8> {
    json_object(job_members(e))
}

/// `s` is `e` with its signature replaced by the signature of `e`'s
/// canonical bytes under `secret`.
pub open spec fn job_signed_as(e: JobEnvelope, secret: Seq<u8>, s: JobEnvelope) -> bool {
    &&& s.job_id == e.job_id
    &&& s.task == e.task
    &&& s.model == e.model
    &&& s.payload == e.payload
    &&& s.sender == e.sender
    &&& s.created_at == e.created_at
    &&& s.expires_at == e.expires_at
    &&& signed_over(secret, job_canonical(e), s.signature@)
}

/// `s` carries a signature of its own canonical bytes under `secret`.
pub open spec fn job_signed_by(s: JobEnvelope, secret: Seq<u8>) -> bool {
    signed_over(secret, job_canonical(s), s.signature@)
}

impl JobEnvelope {
    /// A new unsigned job with a fresh random (version 4) identifier,
    /// created now and expiring `JOB_TTL_SECS` later.
    pub fn new(task: String, model: String, payload: String, sender: String) -> (r: Self)
        ensures
            r.task == task,
            r.model == model,
            r.payload == payload,
            r.sender == sender,
            r.signature@ == Seq::<char>::empty(),
            r.job_id@[6] / 16 == 4,
            r.job_id@[8] / 64 == 2,
            r.expires_at == expiry_of(r.created_at),
    {
        let created_at = match unix_time_now() {
            Some(t) => t,
            None => 0,
        };
        Self::new_at(random_uuid_v4(), created_at, task, model, payload, sender)
    }

    /// A new unsigned job with the given identifier, created at `now`
    /// (seconds since the Unix epoch) and expiring `JOB_TTL_SECS` later.
    pub fn new_at(job_id: [u8; 16], now: u64, task: String, model: String, payload: String, sender: String) -> (r: Self)
        ensures
            r.job_id == job_id,
            r.created_at == now,
            r.expires_at == expiry_of(now),
            r.task == task,
            r.model == model,
            r.payload == payload,
            r.sender == sender,
            r.signature@ == Seq::<char>::empty(),
    {
        let expires_at = if now > u64::MAX - JOB_TTL_SECS {
            u64::MAX
        } else {
            now + JOB_TTL_SECS
        };
        JobEnvelope {
            job_id,
            task,
            model,
            payload,
            sender,
            created_at: now,
            expires_at,
            signature: String::new(),
        }
    }

    /// Whether the job has expired at time `now` (seconds since the Unix
    /// epoch).
    pub fn is_expired(&self, now: u64) -> (r: bool)
        ensures
            r == (now >= self.expires_at),
    {
        now >= self.expires_at
    }

    /// Deterministic bytes over which the signature is computed; they leave
    /// out `signature`.
    pub fn canonical_bytes_without_signature(&self) -> (r: Result<Vec<u8>, CoreError>)
        ensures
            r matches Ok(v) && v@ == job_canonical(*self),
    {
        let id = job_id_text(&self.job_id);
        let members = vec![
            ("job_id", json_text(id.as_str())),
            ("task", json_text(self.task.as_str())),
            ("model", json_text(self.model.as_str())),
            ("payload", json_text(self.payload.as_str())),
            ("sender", json_text(self.sender.as_str())),
            ("created_at", json_number(self.created_at)),
            ("expires_at", json_number(self.expires_at)),
        ];
        assert(member_views(members@) =~= job_members(*self));
        Ok(encode_json_object(&members))
    }

    /// Signs this envelope with the given identity.
    pub fn sign(self, identity: &NodeIdentity) -> (r: Result<Self, CoreError>)
        ensures
            r matches Ok(s) && job_signed_as(self, identity.secret_key(), s) && job_signed_by(
                s,
                identity.secret_key(),
            ),
    {
        let bytes = match self.canonical_bytes_without_signature() {
            Ok(b) => b,
            Err(e) => {
                return Err(e);
            },
        };
        let sig = identity.sign_bytes(bytes.as_slice());
        let ghost unsigned = self;
        let mut signed = self;
        signed.signature = to_hex(&sig.to_bytes());
        proof {
            assert(job_members(signed) =~= job_members(unsigned));
        }
        Ok(signed)
    }

    /// Verifies the envelope's signature against a public key.
    pub fn verify(&self, verifying_key: &VerifyingKey) -> (r: Result<(), CoreError>)
        ensures
            verify_result(job_canonical(*self), self.signature@, verifying_key.bytes@, r),
    {
        let bytes = match self.canonical_bytes_without_signature() {
            Ok(b) => b,
            Err(e) => {
                return Err(e);
            },
        };
        check_signature(bytes.as_slice(), self.signature.as_str(), verifying_key)
    }
}

/// A job signed by an identity verifies under that identity's public key:
/// the check succeeds and nothing else can come out of it.
pub proof fn lemma_signed_job_verifies(signed: JobEnvelope, identity: NodeIdentity, r: Result<(), CoreError>)
    requires
        job_signed_by(signed, identity.secret_key()),
    ensures
        verify_result(job_canonical(signed), signed.signature@, identity.public_key(), r) <==> r is Ok,
{
    lemma_signed_passes(identity.secret_key(), job_canonical(signed), signed.signature@, r);
}

/// A job made at `now` is not expired at `now`, nor at any time before
/// `JOB_TTL_SECS` have passed, and it is expired from then on (where that
/// time can be written at all).
pub proof fn lemma_fresh_job_lifetime(now: u64, later: u64)
    requires
        now <= u64::MAX - JOB_TTL_SECS,
    ensures
        later < now + JOB_TTL_SECS ==> later < expiry_of(now),
        later >= now + JOB_TTL_SECS ==> later >= expiry_of(now),
        now < expiry_of(now),
        expiry_of(now) - now == JOB_TTL_SECS,
{
}

/// The canonical bytes of a job are the same for two jobs that differ in
/// their signatures only, and different for two jobs that differ in any
/// other field.
pub proof fn lemma_job_canonical_exact(a: JobEnvelope, b: JobEnvelope)
    ensures
        job_canonical(a) == job_canonical(b) <==> {
            &&& a.job_id == b.job_id
            &&& a.task@ == b.task@
            &&& a.model@ == b.model@
            &&& a.payload@ == b.payload@
            &&& a.sender@ == b.sender@
            &&& a.created_at == b.created_at
            &&& a.expires_at == b.expires_at
        },
{
    if job_canonical(a) == job_canonical(b) {
        let fa = job_fields(a);
        let fb = job_fields(b);
        assert(crate::canonical::same_shape(fa, fb));
        lemma_json_object_injective(fa, fb);
        assert(fa[0] == fb[0] && fa[1] == fb[1] && fa[2] == fb[2] && fa[3] == fb[3]);
        assert(fa[4] == fb[4] && fa[5] == fb[5] && fa[6] == fb[6]);
        lemma_uuid_injective(a.job_id@, b.job_id@);
        assert(a.job_id =~= b.job_id);
    }
    if a.job_id == b.job_id && a.task@ == b.task@ && a.model@ == b.model@ && a.payload@ == b.payload@
        && a.sender@ == b.sender@ && a.created_at == b.created_at && a.expires_at == b.expires_at {
        assert(job_fields(a) =~= job_fields(b));
    }
}

/// Signing a job that is already signed gives the same envelope again: the
/// canonical bytes leave the signature out, and ed25519 is deterministic.
pub proof fn lemma_job_resign_stable(e: JobEnvelope, secret: Seq<u8>, once: JobEnvelope, twice: JobEnvelope)
    requires
        job_signed_as(e, secret, once),
        job_signed_as(once, secret, twice),
    ensures
        twice.job_id == once.job_id,
        twice.task == once.task,
        twice.model == once.model,
        twice.payload == once.payload,
        twice.sender == once.sender,
        twice.created_at == once.created_at,
        twice.expires_at == once.expires_at,
        twice.signature@ == once.signature@,
{
    assert(job_members(once) =~= job_members(e));
}

/// An envelope without a signature is refused with `InvalidSignatureBytes`.
pub proof fn lemma_unsigned_job_refused(e: JobEnvelope, key: Seq<u8>, r: Result<(), CoreError>)
    requires
        e.signature@ == Seq::<char>::empty(),
    ensures
        verify_result(job_canonical(e), e.signature@, key, r) <==> r matches Err(CoreError::InvalidSignatureBytes),
{
    assert(vstd::utf8::encode_utf8(Seq::<char>::empty()) =~= Seq::<u8>::empty()) by {
        lemma_hex_round_trip(Seq::empty());
    }
}

// ─── Job result envelope ────────────────────────────────────────────────────

/// A signed result returned by the worker to the requester.
#[derive(Debug, Clone)]
pub struct JobResultEnvelope {
    /// The 16 bytes of the job's UUID.
    pub job_id: [u8; 16],
    /// Hex-encoded public key of the worker.
    pub worker: String,
    pub model_used: String,
    pub output: String,
    /// Blake2b-512 hex digest of `output`.
    pub receipt_hash: String,
    /// Hex-encoded ed25519 signature (empty when unsigned).
    pub signature: String,
}

/// The members of a result's canonical object, every field but the
/// signature, in the order of the fields.
pub open spec fn result_fields(e: JobResultEnvelope) -> Seq<(Seq<char>, JsonField)> {
    seq![
        ("job_id"@, JsonField::Text(uuid_hyphenated(e.job_id@))),
        ("worker"@, JsonField::Text(e.worker@)),
        ("model_used"@, JsonField::Text(e.model_used@)),
        ("output"@, JsonField::Text(e.output@)),
        ("receipt_hash"@, JsonField::Text(e.receipt_hash@)),
    ]
}

/// The members of a result's canonical object, each value written as JSON.
pub open spec fn result_members(e: JobResultEnvelope) -> Seq<(Seq<char>, Seq<u8>)> {
    encode_fields(result_fields(e))
}

/// The bytes a result's signature covers.
pub open spec fn result_canonical(e: JobResultEnvelope) -> Seq<u8> {
    json_object(result_members(e))
}

/// `s` is `e` with its signature replaced by the signature of `e`'s
/// canonical bytes under `secret`.
pub open spec fn result_signed_as(e: JobResultEnvelope, secret: Seq<u8>, s: JobResultEnvelope) -> bool {
    &&& s.job_id == e.job_id
    &&& s.worker == e.worker
    &&& s.model_used == e.model_used
    &&& s.output == e.output
    &&& s.receipt_hash == e.receipt_hash
    &&& signed_over(secret, result_canonical(e), s.signature@)
}

/// `s` carries a signature of its own canonical bytes under `secret`.
pub open spec fn result_signed_by(s: JobResultEnvelope, secret: Seq<u8>) -> bool {
    signed_over(secret, result_canonical(s), s.signature@)
}

impl JobResultEnvelope {
    /// An unsigned result whose receipt is the digest of `output`.
    pub fn new(job_id: [u8; 16], worker: String, model_used: String, output: String) -> (r: Self)
        ensures
            r.job_id == job_id,
            r.worker == worker,
            r.model_used == model_used,
            r.output == output,
            r.receipt_hash@ == receipt_of(output@),
            r.signature@ == Seq::<char>::empty(),
    {
        let receipt_hash = Receipt::hash_str(output.as_str());
        JobResultEnvelope { job_id, worker, model_used, output, receipt_hash, signature: String::new() }
    }

    /// Deterministic bytes over which the signature is computed; they leave
    /// out `signature`.
    pub fn canonical_bytes_without_signature(&self) -> (r: Result<Vec<u8>, CoreError>)
        ensures
            r matches Ok(v) && v@ == result_canonical(*self),
    {
        let id = job_id_text(&self.job_id);
        let members = vec![
            ("job_id", json_text(id.as_str())),
            ("worker", json_text(self.worker.as_str())),
            ("model_used", json_text(self.model_used.as_str())),
            ("output", json_text(self.output.as_str())),
            ("receipt_hash", json_text(self.receipt_hash.as_str())),
        ];
        assert(member_views(members@) =~= result_members(*self));
        Ok(encode_json_object(&members))
    }

    /// Signs this result with the given identity.
    pub fn sign(self, identity: &NodeIdentity) -> (r: Result<Self, CoreError>)
        ensures
            r matches Ok(s) && result_signed_as(self, identity.secret_key(), s) && result_signed_by(
                s,
                identity.secret_key(),
            ),
    {
        let bytes = match self.canonical_bytes_without_signature() {
            Ok(b) => b,
            Err(e) => {
                return Err(e);
            },
        };
        let sig = identity.sign_bytes(bytes.as_slice());
        let ghost unsigned = self;
        let mut signed = self;
        signed.signature = to_hex(&sig.to_bytes());
        proof {
            assert(result_members(signed) =~= result_members(unsigned));
        }
        Ok(signed)
    }

    /// Verifies the result's signature against a public key.
    pub fn verify(&self, verifying_key: &VerifyingKey) -> (r: Result<(), CoreError>)
        ensures
            verify_result(result_canonical(*self), self.signature@, verifying_key.bytes@, r),
    {
        let bytes = match self.canonical_bytes_without_signature() {
            Ok(b) => b,
            Err(e) => {
                return Err(e);
            },
        };
        check_signature(bytes.as_slice(), self.signature.as_str(), verifying_key)
    }
}

/// The canonical bytes of a result are the same for two results that
/// differ in their signatures only, and different for two results that
/// differ in any other field.
pub proof fn lemma_result_canonical_exact(a: JobResultEnvelope, b: JobResultEnvelope)
    ensures
        result_canonical(a) == result_canonical(b) <==> {
            &&& a.job_id == b.job_id
            &&& a.worker@ == b.worker@
            &&& a.model_used@ == b.model_used@
            &&& a.output@ == b.output@
            &&& a.receipt_hash@ == b.receipt_hash@
        },
{
    if result_canonical(a) == result_canonical(b) {
        let fa = result_fields(a);
        let fb = result_fields(b);
        assert(crate::canonical::same_shape(fa, fb));
        lemma_json_object_injective(fa, fb);
        assert(fa[0] == fb[0] && fa[1] == fb[1] && fa[2] == fb[2] && fa[3] == fb[3]);
        assert(fa[4] == fb[4]);
        lemma_uuid_injective(a.job_id@, b.job_id@);
        assert(a.job_id =~= b.job_id);
    }
    if a.job_id == b.job_id && a.worker@ == b.worker@ && a.model_used@ == b.model_used@
        && a.output@ == b.output@ && a.receipt_hash@ == b.receipt_hash@ {
        assert(result_fields(a) =~= result_fields(b));
    }
}

/// A result signed by an identity verifies under that identity's public
/// key: the check succeeds and nothing else can come out of it.
pub proof fn lemma_signed_result_verifies(signed: JobResultEnvelope, identity: NodeIdentity, r: Result<(), CoreError>)
    requires
        result_signed_by(signed, identity.secret_key()),
    ensures
        verify_result(result_canonical(signed), signed.signature@, identity.public_key(), r) <==> r is Ok,
{
    lemma_signed_passes(identity.secret_key(), result_canonical(signed), signed.signature@, r);
}

/// A signed result keeps its receipt: when made by `new` and then signed,
/// the receipt is still the digest of the output it carries.
pub proof fn lemma_signed_result_receipt(e: JobResultEnvelope, secret: Seq<u8>, signed: JobResultEnvelope)
    requires
        e.receipt_hash@ == receipt_of(e.output@),
        result_signed_as(e, secret, signed),
    ensures
        signed.receipt_hash@ == receipt_of(signed.output@),
{
}

} // verus!

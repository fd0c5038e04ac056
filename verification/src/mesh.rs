//! The messages nodes exchange on the mesh, and what a node decides when a
//! job reaches it.

use vstd::prelude::*;
use vstd::string::StringExecFns;
use crate::envelope::{JobEnvelope, JobResultEnvelope, expiry_of, job_signed_by, result_signed_by};
use crate::error::CoreError;
use crate::capability::{NodeCapability, serves_model};
use crate::envelope::{result_canonical, verify_result};
use crate::hexcode::{from_hex, hex_decode_spec, hex_lower, lemma_hex_round_trip, HexError};
use vstd::string::StringSliceAdditionalSpecFns;
use crate::keys::ed25519_public;
use crate::keys::NodeIdentity;
use crate::receipt::receipt_of;

verus! {

/// A request sent to a peer.
#[derive(Debug, Clone)]
pub enum MeshRequest {
    RunJob(JobEnvelope),
}

/// A peer's answer to a request.
#[derive(Debug, Clone)]
pub enum MeshResponse {
    JobResult(JobResultEnvelope),
    Error(String),
}

/// Why the mesh transport could not be set up or could not reach a peer.
#[derive(Debug, Clone)]
pub enum NetError {
    Build(String),
    Dial(String),
}

/// Where a received job runs.
#[derive(Debug, Clone)]
pub enum RoutingDecision {
    /// On this node's own model.
    Local,
    /// Handed on to the given peer.
    Forward(String),
    /// Not at all, for the given reason.
    Reject(String),
}

/// What a node does next with a job.
#[derive(Debug, Clone)]
pub enum JobStep {
    /// Ask the local model with this prompt, then answer with its output.
    RunModel(String),
    /// Answer at once with this output.
    Answer(String),
    /// Send this response as it is.
    Respond(MeshResponse),
}

/// The answer given in place of forwarding, which is not there yet.
pub open spec fn forwarding_notice() -> Seq<char> {
    "forwarding not implemented yet - running locally"@
}

/// The output reported when the model runtime fails.
pub open spec fn runtime_failure_text(error: Seq<char>) -> Seq<char> {
    "runtime error: "@ + error
}

/// A job whose score is above the local threshold runs here; any other is
/// marked for forwarding to the peer it came from.
pub fn route_job(score_above_threshold: bool, requester: String) -> (r: RoutingDecision)
    ensures
        score_above_threshold ==> r is Local,
        !score_above_threshold ==> r == RoutingDecision::Forward(requester),
{
    if score_above_threshold {
        RoutingDecision::Local
    } else {
        RoutingDecision::Forward(requester)
    }
}

/// The step that follows a routing decision for `job`.
pub fn job_step(job: &JobEnvelope, decision: RoutingDecision) -> (r: JobStep)
    ensures
        decision is Local ==> r == JobStep::RunModel(job.payload),
        decision is Forward ==> (r matches JobStep::Answer(text) && text@ == forwarding_notice()),
        decision matches RoutingDecision::Reject(reason) ==> r == JobStep::Respond(
            MeshResponse::Error(reason),
        ),
{
    match decision {
        RoutingDecision::Local => JobStep::RunModel(job.payload.clone()),
        RoutingDecision::Forward(_) => JobStep::Answer(
            "forwarding not implemented yet - running locally".to_owned(),
        ),
        RoutingDecision::Reject(reason) => JobStep::Respond(MeshResponse::Error(reason)),
    }
}

/// The output to report from the model's reply: the reply itself, or the
/// text of its failure after `runtime error: `.
pub fn model_output(reply: Result<String, String>) -> (r: String)
    ensures
        reply matches Ok(text) ==> r == text,
        reply matches Err(error) ==> r@ == runtime_failure_text(error@),
{
    match reply {
        Ok(text) => text,
        Err(error) => "runtime error: ".to_owned().concat(error.as_str()),
    }
}

/// The signed result with which this node answers `job` with `output`.
pub fn answer_job(job: &JobEnvelope, identity: &NodeIdentity, output: String) -> (r: Result<
    MeshResponse,
    CoreError,
>)
    ensures
        r matches Ok(response) && response matches MeshResponse::JobResult(res) && {
            &&& res.job_id == job.job_id
            &&& res.worker@ == hex_lower(identity.public_key())
            &&& res.model_used == job.model
            &&& res.output == output
            &&& res.receipt_hash@ == receipt_of(output@)
            &&& result_signed_by(res, identity.secret_key())
        },
{
    let result = JobResultEnvelope::new(job.job_id, identity.peer_id_hex(), job.model.clone(), output);
    match result.sign(identity) {
        Ok(signed) => Ok(MeshResponse::JobResult(signed)),
        Err(e) => Err(e),
    }
}

/// The signed chat job that a node sends to a peer on its own.
pub fn one_shot_job(model_name: String, prompt: String, identity: &NodeIdentity) -> (r: Result<
    JobEnvelope,
    CoreError,
>)
    ensures
        r matches Ok(job) && {
            &&& job.task@ == "chat"@
            &&& job.model == model_name
            &&& job.payload == prompt
            &&& job.sender@ == hex_lower(identity.public_key())
            &&& job.job_id@[6] / 16 == 4
            &&& job.job_id@[8] / 64 == 2
            &&& job.expires_at == expiry_of(job.created_at)
            &&& job.signature@.len() == 128
            &&& job_signed_by(job, identity.secret_key())
        },
{
    let job = JobEnvelope::new("chat".to_owned(), model_name, prompt, identity.peer_id_hex());
    job.sign(identity)
}

#[verifier::external_type_specification]
#[verifier::external_body]
pub struct ExPeerParseError(libp2p::identity::ParseError);

/// Whether a text is a base-58 peer identifier that libp2p accepts.
pub uninterp spec fn libp2p_peer_text_ok(text: Seq<char>) -> bool;

/// The bytes (the multihash) of the peer identifier that libp2p reads
/// from a base-58 text.
pub uninterp spec fn libp2p_peer_text_bytes(text: Seq<char>) -> Seq<u8>;

/// Whether bytes are a peer identifier (a multihash) that libp2p accepts.
pub uninterp spec fn libp2p_peer_bytes_ok(bytes: Seq<u8>) -> bool;

/// The bytes of the peer identifier that libp2p reads from bytes.
pub uninterp spec fn libp2p_peer_bytes(bytes: Seq<u8>) -> Seq<u8>;

/// Calls `PeerId::from_str` (base-58 decoding, then the multihash checks of
/// `PeerId::from_bytes`) and gives the identifier's bytes (`to_bytes`).
/// Whether it succeeds, and the bytes, are named: functions of the text
/// alone.
#[verifier::external_body]
fn peer_id_from_text(text: &str) -> (r: Result<Vec<u8>, libp2p::identity::ParseError>)
    ensures
        r is Ok == libp2p_peer_text_ok(text@),
        match r {
            Ok(b) => b@ == libp2p_peer_text_bytes(text@),
            Err(_) => true,
        },
{
    match text.parse::<libp2p::PeerId>() {
        Ok(peer) => Ok(peer.to_bytes()),
        Err(e) => Err(e),
    }
}

/// Calls `PeerId::from_bytes` and gives the identifier's bytes
/// (`to_bytes`). Whether it succeeds, and the bytes, are named: functions
/// of the input bytes alone.
#[verifier::external_body]
fn peer_id_from_bytes(bytes: &[u8]) -> (r: Result<Vec<u8>, libp2p::identity::ParseError>)
    ensures
        r is Ok == libp2p_peer_bytes_ok(bytes@),
        match r {
            Ok(b) => b@ == libp2p_peer_bytes(bytes@),
            Err(_) => true,
        },
{
    match libp2p::PeerId::from_bytes(bytes) {
        Ok(peer) => Ok(peer.to_bytes()),
        Err(e) => Err(e),
    }
}

/// Why a target given on the command line names no peer.
#[derive(Debug)]
pub enum TargetPeerError {
    /// It is neither a base-58 peer identifier nor hexadecimal.
    InvalidHex(HexError),
    /// Its hexadecimal bytes are no peer identifier.
    InvalidPeerBytes(libp2p::identity::ParseError),
}

/// The peer named by a target, as the bytes of its identifier: read from
/// its base-58 text form, or else from the hex of its bytes.
pub fn parse_target_peer(target: &str) -> (r: Result<Vec<u8>, TargetPeerError>)
    ensures
        libp2p_peer_text_ok(target@) ==> (r matches Ok(p) && p@ == libp2p_peer_text_bytes(target@)),
        !libp2p_peer_text_ok(target@) ==> match hex_decode_spec(target.spec_bytes()) {
            Err(h) => r matches Err(TargetPeerError::InvalidHex(e)) && e == h,
            Ok(bytes) => if libp2p_peer_bytes_ok(bytes) {
                r matches Ok(p) && p@ == libp2p_peer_bytes(bytes)
            } else {
                r matches Err(TargetPeerError::InvalidPeerBytes(_))
            },
        },
{
    match peer_id_from_text(target) {
        Ok(peer) => Ok(peer),
        Err(_) => {
            let bytes = match from_hex(target) {
                Ok(b) => b,
                Err(h) => {
                    return Err(TargetPeerError::InvalidHex(h));
                },
            };
            match peer_id_from_bytes(bytes.as_slice()) {
                Ok(peer) => Ok(peer),
                Err(e) => Err(TargetPeerError::InvalidPeerBytes(e)),
            }
        },
    }
}

/// A result's `worker` field names its signer: decoding the hex gives the
/// public key under which the result verifies, and nothing but success
/// comes out of that check.
pub proof fn lemma_worker_names_signer(res: JobResultEnvelope, secret: Seq<u8>, r: Result<(), CoreError>)
    requires
        res.worker@ == hex_lower(ed25519_public(secret)),
        result_signed_by(res, secret),
    ensures
        hex_decode_spec(vstd::utf8::encode_utf8(res.worker@)) == Ok::<Seq<u8>, crate::hexcode::HexError>(
            ed25519_public(secret),
        ),
        verify_result(result_canonical(res), res.signature@, ed25519_public(secret), r) <==> r is Ok,
{
    lemma_hex_round_trip(ed25519_public(secret));
    crate::envelope::lemma_signed_passes(secret, result_canonical(res), res.signature@, r);
}

/// A node that announces a model serves the jobs asking for that model.
pub proof fn lemma_announced_model_served(cap: NodeCapability, model: String)
    requires
        cap.models@.len() == 1,
        cap.models@[0] == model,
    ensures
        serves_model(cap.models@, model@),
{
    assert(cap.models@[0]@ == model@);
}

} // verus!

use ai_mesh::capability::{NodeCapability, DEFAULT_SPEED_BITS};
use ai_mesh::config::NodeConfig;
use ai_mesh::envelope::JobEnvelope;
use ai_mesh::hexcode::{from_hex, to_hex, HexError};
use ai_mesh::mesh::{parse_target_peer, TargetPeerError};
use ai_mesh::keys::{NodeIdentity, VerifyingKey};
use ai_mesh::mesh::{answer_job, job_step, model_output, one_shot_job, route_job, JobStep, MeshResponse, RoutingDecision};
use ai_mesh::receipt::Receipt;
use ai_mesh::runtime::{completions_url, first_reply, RuntimeError};

#[test]
fn default_config_values() {
    let c = NodeConfig::default();
    assert_eq!(c.p2p_listen, "/ip4/0.0.0.0/tcp/9000");
    assert_eq!(c.api_listen, "127.0.0.1:8080");
    assert_eq!(c.llama_base_url, "http://127.0.0.1:8181");
    assert_eq!(c.model_name, "local-model");
    assert!(c.bootstrap_peers.is_empty());
}

#[test]
fn default_capability_values() {
    let c = NodeCapability::default();
    assert_eq!(c.models, vec!["local-model".to_string()]);
    assert_eq!(c.max_context, 8192);
    assert_eq!(c.quant, "Q4_K_M");
    assert_eq!(f32::from_bits(c.estimated_speed_bits), 25.0);
    assert_eq!(c.estimated_speed_bits, DEFAULT_SPEED_BITS);
    assert_eq!(c.supported_tasks, vec!["chat".to_string()]);
    let m = NodeCapability::for_model("llama-3.1-8b".to_string());
    assert_eq!(m.models, vec!["llama-3.1-8b".to_string()]);
    assert_eq!(m.quant, "Q4_K_M");
}

#[test]
fn capability_matches_model_by_name_or_part() {
    let c = NodeCapability::for_model("llama-3.1-8b-Q4".to_string());
    assert!(c.matches_model("llama-3.1-8b-Q4"));
    assert!(c.matches_model("llama-3.1"));
    assert!(c.matches_model(""));
    assert!(!c.matches_model("mistral"));
    assert!(!c.matches_model("llama-3.1-8b-Q4-long"));
    let none = NodeCapability { models: vec![], ..NodeCapability::default() };
    assert!(!none.matches_model(""));
}

#[test]
fn completions_url_trims_trailing_slashes() {
    assert_eq!(completions_url("http://127.0.0.1:8181"), "http://127.0.0.1:8181/v1/chat/completions");
    assert_eq!(completions_url("http://127.0.0.1:8181//"), "http://127.0.0.1:8181/v1/chat/completions");
    assert_eq!(completions_url(""), "/v1/chat/completions");
}

#[test]
fn first_reply_takes_first_non_blank_choice() {
    assert!(matches!(first_reply(vec![]), Err(RuntimeError::EmptyResponse)));
    assert!(matches!(first_reply(vec![" \n\t".to_string()]), Err(RuntimeError::EmptyResponse)));
    assert!(matches!(first_reply(vec!["\u{a0}".to_string(), "x".to_string()]), Err(RuntimeError::EmptyResponse)));
    assert_eq!(first_reply(vec![" hi ".to_string(), "".to_string()]).unwrap(), " hi ");
}

#[test]
fn routing_follows_the_score() {
    assert!(matches!(route_job(true, "peer".to_string()), RoutingDecision::Local));
    match route_job(false, "peer".to_string()) {
        RoutingDecision::Forward(p) => assert_eq!(p, "peer"),
        _ => panic!("expected forward"),
    }
}

#[test]
fn job_steps_follow_the_decision() {
    let job = JobEnvelope::new("chat".to_string(), "m".to_string(), "prompt".to_string(), "s".to_string());
    match job_step(&job, RoutingDecision::Local) {
        JobStep::RunModel(p) => assert_eq!(p, "prompt"),
        _ => panic!("expected model run"),
    }
    match job_step(&job, RoutingDecision::Forward("p".to_string())) {
        JobStep::Answer(t) => assert_eq!(t, "forwarding not implemented yet - running locally"),
        _ => panic!("expected answer"),
    }
    match job_step(&job, RoutingDecision::Reject("busy".to_string())) {
        JobStep::Respond(MeshResponse::Error(r)) => assert_eq!(r, "busy"),
        _ => panic!("expected refusal"),
    }
}

#[test]
fn model_output_reports_failures() {
    assert_eq!(model_output(Ok("answer".to_string())), "answer");
    assert_eq!(model_output(Err("timeout".to_string())), "runtime error: timeout");
}

#[test]
fn answered_job_verifies_under_worker_key() {
    let worker = NodeIdentity::new();
    let job = JobEnvelope::new("chat".to_string(), "m".to_string(), "p".to_string(), "s".to_string());
    match answer_job(&job, &worker, "out".to_string()).unwrap() {
        MeshResponse::JobResult(res) => {
            assert_eq!(res.job_id, job.job_id);
            assert_eq!(res.worker, worker.peer_id_hex());
            assert_eq!(res.model_used, "m");
            assert_eq!(res.output, "out");
            assert_eq!(res.receipt_hash, Receipt::hash_str("out"));
            let key_bytes: [u8; 32] = from_hex(&res.worker).unwrap().try_into().unwrap();
            assert!(res.verify(&VerifyingKey { bytes: key_bytes }).is_ok());
        }
        MeshResponse::Error(_) => panic!("expected a result"),
    }
}

#[test]
fn one_shot_job_is_signed_chat_job() {
    let id = NodeIdentity::new();
    let job = one_shot_job("m".to_string(), "hello".to_string(), &id).unwrap();
    assert_eq!(job.task, "chat");
    assert_eq!(job.model, "m");
    assert_eq!(job.payload, "hello");
    assert_eq!(job.sender, id.peer_id_hex());
    assert!(job.verify(&id.verifying_key()).is_ok());
}

#[test]
fn white_space_is_the_unicode_set() {
    for c in (0u32..0x11000).filter_map(char::from_u32) {
        assert_eq!(ai_mesh::runtime::is_white_space(c), c.is_whitespace(), "{:x}", c as u32);
    }
}

#[test]
fn target_peer_parses_base58_or_hex() {
    let peer = libp2p::PeerId::random();
    assert_eq!(parse_target_peer(&peer.to_base58()).unwrap(), peer.to_bytes());
    assert_eq!(parse_target_peer(&to_hex(&peer.to_bytes())).unwrap(), peer.to_bytes());
    assert!(matches!(parse_target_peer("zz"), Err(TargetPeerError::InvalidHex(HexError::InvalidHexCharacter { c: 'z', index: 0 }))));
    assert!(matches!(parse_target_peer("abc"), Err(TargetPeerError::InvalidHex(HexError::OddLength))));
    assert!(matches!(parse_target_peer("00"), Err(TargetPeerError::InvalidPeerBytes(_))));
}

//! The node's configuration.

use vstd::prelude::*;

verus! {

/// Where a node listens and which model it serves.
#[derive(Debug, Clone)]
pub struct NodeConfig {
    /// Full libp2p multiaddr, e.g. `/ip4/0.0.0.0/tcp/9000`
    pub p2p_listen: String,
    /// Socket address for the local HTTP API, e.g. `127.0.0.1:8080`
    pub api_listen: String,
    /// Base URL of the llama.cpp server (separate process), e.g.
    /// `http://127.0.0.1:8181`
    pub llama_base_url: String,
    pub model_name: String,
    /// Multiaddrs of peers to dial on startup
    pub bootstrap_peers: Vec<String>,
}

impl Default for NodeConfig {
    fn default() -> (r: Self)
        ensures
            r.p2p_listen@ == "/ip4/0.0.0.0/tcp/9000"@,
            r.api_listen@ == "127.0.0.1:8080"@,
            r.llama_base_url@ == "http://127.0.0.1:8181"@,
            r.model_name@ == "local-model"@,
            r.bootstrap_peers@.len() == 0,
    {
        NodeConfig {
            p2p_listen: "/ip4/0.0.0.0/tcp/9000".to_owned(),
            api_listen: "127.0.0.1:8080".to_owned(),
            llama_base_url: "http://127.0.0.1:8181".to_owned(),
            model_name: "local-model".to_owned(),
            bootstrap_peers: Vec::new(),
        }
    }
}

} // verus!

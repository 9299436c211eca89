use vstd::prelude::*;

verus! {

/// Immutable per-process outbound configuration: the remote host to relay
/// to, the channel key, the local hostname, and the auth key sent with every
/// forward. Built once at startup and then only read, so every reader task
/// may share it without synchronization.
#[derive(Clone)]
pub struct OutboundConfig {
    pub remote_host: String,
    pub key: String,
    pub hostname: String,
    pub auth_key: String,
}

impl OutboundConfig {
    pub fn new(remote_host: String, key: String, hostname: String, auth_key: String) -> (r:
        OutboundConfig)
        ensures
            r.remote_host@ == remote_host@,
            r.key@ == key@,
            r.hostname@ == hostname@,
            r.auth_key@ == auth_key@,
    {
        OutboundConfig { remote_host, key, hostname, auth_key }
    }
}

} // verus!

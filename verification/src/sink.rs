use crate::config::OutboundConfig;
use crate::endpoint::endpoint_of;
use crate::endpoint::endpoint_url;
use vstd::prelude::*;

verus! {

/// What the remote sink reports for a forward that reached it.
#[derive(Clone, Copy, Debug, PartialEq, Eq, Structural)]
pub struct ResponseMeta {
    pub status: u16,
}

/// Classification of failed forwards, as reported by the remote sink.
#[derive(Clone, Copy, Debug, PartialEq, Eq, Structural)]
pub enum SendError {
    /// The request never completed.
    Network,
    /// The sink answered, but with a non-success status.
    NonSuccessStatus(u16),
    /// Any other failure.
    Other,
}

/// One fully-prepared forward call: where to post, the auth key carried in
/// the headers, and the text of one forwarded message as the body.
pub struct ForwardRequest {
    pub endpoint: String,
    pub auth_key: String,
    pub body: String,
}

/// Prepares the forward of one message under the given configuration. The
/// endpoint URL is exactly `https://<host>/<hostname>/<key>`; the auth key
/// and the body are carried unchanged.
pub fn plan_forward(config: &OutboundConfig, body: String) -> (r: ForwardRequest)
    ensures
        r.endpoint@ == endpoint_of(config.remote_host@, config.hostname@, config.key@),
        r.auth_key@ == config.auth_key@,
        r.body@ == body@,
{
    let endpoint = endpoint_url(
        config.remote_host.as_str(),
        config.hostname.as_str(),
        config.key.as_str(),
    );
    ForwardRequest { endpoint, auth_key: config.auth_key.clone(), body }
}

} // verus!

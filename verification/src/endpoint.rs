use vstd::prelude::*;
use vstd::string::StringExecFns;

verus! {

/// The scheme prefix of every remote endpoint URL.
pub open spec fn scheme_prefix() -> Seq<char> {
    "https://"@
}

/// The endpoint URL of a forward: `https://<host>/<hostname>/<key>`.
pub open spec fn endpoint_of(host: Seq<char>, hostname: Seq<char>, key: Seq<char>) -> Seq<char> {
    scheme_prefix() + host + "/"@ + hostname + "/"@ + key
}

/// Composes the remote endpoint URL for the given host, local hostname and
/// channel key, exactly as `endpoint_of` states it.
pub fn endpoint_url(host: &str, hostname: &str, key: &str) -> (r: String)
    ensures
        r@ == endpoint_of(host@, hostname@, key@),
{
    let mut url = String::from_str("https://");
    url.append(host);
    url.append("/");
    url.append(hostname);
    url.append("/");
    url.append(key);
    url
}

} // verus!

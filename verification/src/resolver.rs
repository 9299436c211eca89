use vstd::prelude::*;
use vstd::string::StrSliceExecFns;
use vstd::string::StringExecFns;

verus! {

/// The per-user runtime directory that every channel address lives under.
pub open spec fn runtime_root() -> Seq<char> {
    "/run/user/"@
}

/// The fixed namespace segment between the user's runtime directory and the
/// caller-supplied key.
pub open spec fn namespace_segment() -> Seq<char> {
    "seungjin-logger"@
}

/// True when the key would name a directory rather than a file-like
/// endpoint: it ends in a path separator.
pub open spec fn ends_in_separator(key: Seq<char>) -> bool {
    key.len() > 0 && key.last() == '/'
}

/// A single leading separator is stripped, so keys are always treated as
/// relative to the namespace root.
pub open spec fn normalized_key(key: Seq<char>) -> Seq<char> {
    if key.len() > 0 && key.first() == '/' {
        key.drop_first()
    } else {
        key
    }
}

/// The directory that holds every endpoint of one user:
/// `<runtimeRoot><uid>/<namespace>/`.
pub open spec fn namespace_dir(uid: Seq<char>) -> Seq<char> {
    runtime_root() + uid + "/"@ + namespace_segment() + "/"@
}

/// The full path of the local endpoint for a key and user:
/// `<runtimeRoot><uid>/<namespace>/<normalized key>`.
pub open spec fn resolved_path(key: Seq<char>, uid: Seq<char>) -> Seq<char> {
    namespace_dir(uid) + normalized_key(key)
}

/// A resolved local channel address: the user id, the normalized key, and
/// the path the listening endpoint is bound at.
#[derive(Debug)]
pub struct ChannelAddress {
    pub uid: String,
    pub key: String,
    pub path: String,
}

impl ChannelAddress {
    /// A well-formed address names a file-like endpoint (its key does not
    /// end in a separator) and its path is the key joined under the user's
    /// namespace directory.
    pub open spec fn wf(self) -> bool {
        &&& !ends_in_separator(self.key@)
        &&& self.path@ == namespace_dir(self.uid@) + self.key@
    }
}

/// Why resolution refused a key.
#[derive(Clone, Copy, Debug, PartialEq, Eq, Structural)]
pub enum ResolveError {
    /// The key ends in a path separator, so it names a directory.
    KeyDenotesDirectory,
}

impl ResolveError {
    /// A diagnostic line for the operator.
    pub fn message(&self) -> (r: String)
        ensures
            r@ == "channel key must name a file, not a directory"@,
    {
        String::from_str("channel key must name a file, not a directory")
    }
}

/// Exactly the addresses that `resolve` may return for a key and user id:
/// the key is valid, and the address is determined by the two inputs.
pub open spec fn resolves_to(key: Seq<char>, uid: Seq<char>, a: ChannelAddress) -> bool {
    &&& !ends_in_separator(key)
    &&& a.uid@ == uid
    &&& a.key@ == normalized_key(key)
    &&& a.path@ == resolved_path(key, uid)
}

/// Derives the local channel address for a caller-supplied key under the
/// given user's runtime namespace. A key ending in a path separator is
/// rejected, and is the only input rejected; a single leading separator is
/// stripped before joining, so the key is relative to the namespace root.
pub fn resolve(key: &str, uid: &str) -> (r: Result<ChannelAddress, ResolveError>)
    ensures
        r is Ok <==> !ends_in_separator(key@),
        r matches Ok(a) ==> resolves_to(key@, uid@, a) && a.wf(),
{
    let n = key.unicode_len();
    if n > 0 && key.get_char(n - 1) == '/' {
        return Err(ResolveError::KeyDenotesDirectory);
    }
    let norm: &str = if n > 0 && key.get_char(0) == '/' {
        let stripped = key.substring_char(1, n);
        proof {
            assert(stripped@ =~= key@.drop_first());
        }
        stripped
    } else {
        key
    };
    let mut path = String::from_str("/run/user/");
    path.append(uid);
    path.append("/");
    path.append("seungjin-logger");
    path.append("/");
    path.append(norm);
    let address = ChannelAddress { uid: uid.to_owned(), key: norm.to_owned(), path };
    proof {
        assert(normalized_key(key@) == norm@);
    }
    Ok(address)
}

/// Law: resolution is deterministic — any two addresses that resolution may
/// return for one key and user id agree on every field.
pub proof fn lemma_resolve_deterministic(
    key: Seq<char>,
    uid: Seq<char>,
    a: ChannelAddress,
    b: ChannelAddress,
)
    requires
        resolves_to(key, uid, a),
        resolves_to(key, uid, b),
    ensures
        a.uid@ == b.uid@,
        a.key@ == b.key@,
        a.path@ == b.path@,
{
}

/// Law: a resolved address lies under the per-user namespace directory —
/// its path is that directory followed exactly by the normalized key.
pub proof fn lemma_resolved_path_under_namespace(key: Seq<char>, uid: Seq<char>, a: ChannelAddress)
    requires
        resolves_to(key, uid, a),
    ensures
        a.path@.len() >= namespace_dir(uid).len(),
        a.path@.subrange(0, namespace_dir(uid).len() as int) == namespace_dir(uid),
        a.path@.skip(namespace_dir(uid).len() as int) == normalized_key(key),
{
    assert(a.path@.subrange(0, namespace_dir(uid).len() as int) =~= namespace_dir(uid));
    assert(a.path@.skip(namespace_dir(uid).len() as int) =~= normalized_key(key));
}

/// Law: a key that ends in a path separator resolves to no address at all,
/// so startup can take no further step for it.
pub proof fn lemma_separator_key_rejected(key: Seq<char>, uid: Seq<char>, a: ChannelAddress)
    requires
        ends_in_separator(key),
    ensures
        !resolves_to(key, uid, a),
{
}

} // verus!

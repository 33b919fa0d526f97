//! The identities a held served approval is bound to.
//!
//! A value that is not itself a digest is bound through a canonical,
//! length-prefixed SHA-256 binding under one domain, so a binding is always 64
//! lowercase hexadecimal characters while any change in a contributing value
//! changes it.

use vstd::prelude::*;
use vstd::utf8::encode_utf8;
use crate::digest::{decimal, decimal_of, sha256_hex, sha256_hex_of};
use crate::identity::is_lower_hex_digest;

verus! {

/// The advertised exact adapter the served composition records.
pub const BOUNDARY_ADAPTER_ID: &'static str = "exo";

/// Domain separation for every fence binding the served composition computes.
pub open spec fn fence_domain() -> Seq<u8> {
    encode_utf8("ascension.served-boundary-fence.v1"@).push(0u8)
}

/// The eight big-endian bytes of a 64-bit length.
pub open spec fn be64(n: u64) -> Seq<u8> {
    seq![
        (n / 0x100000000000000) as u8,
        (n / 0x1000000000000 % 256) as u8,
        (n / 0x10000000000 % 256) as u8,
        (n / 0x100000000 % 256) as u8,
        (n / 0x1000000 % 256) as u8,
        (n / 0x10000 % 256) as u8,
        (n / 0x100 % 256) as u8,
        (n % 256) as u8,
    ]
}

/// A text prefixed with its byte length.
pub open spec fn framed(text: Seq<char>) -> Seq<u8> {
    be64(encode_utf8(text).len() as u64) + encode_utf8(text)
}

/// The framed parts of a binding, in order.
pub open spec fn framed_parts(parts: Seq<Seq<char>>) -> Seq<u8>
    decreases parts.len(),
{
    if parts.len() == 0 {
        Seq::empty()
    } else {
        framed_parts(parts.drop_last()) + framed(parts.last())
    }
}

/// The bytes a fence binding digests: the domain, the framed label, the part
/// count and the framed parts.
pub open spec fn binding_bytes(label: Seq<char>, parts: Seq<Seq<char>>) -> Seq<u8> {
    fence_domain() + framed(label) + be64(parts.len() as u64) + framed_parts(parts)
}

/// The canonical binding over served fence values.
pub open spec fn fence_binding_of(label: Seq<char>, parts: Seq<Seq<char>>) -> Seq<char> {
    sha256_hex_of(binding_bytes(label, parts))
}

fn push_be64(out: &mut Vec<u8>, n: u64)
    ensures
        final(out)@ == old(out)@ + be64(n),
{
    out.push((n / 0x100000000000000) as u8);
    out.push((n / 0x1000000000000 % 256) as u8);
    out.push((n / 0x10000000000 % 256) as u8);
    out.push((n / 0x100000000 % 256) as u8);
    out.push((n / 0x1000000 % 256) as u8);
    out.push((n / 0x10000 % 256) as u8);
    out.push((n / 0x100 % 256) as u8);
    out.push((n % 256) as u8);
    assert(final(out)@ =~= old(out)@ + be64(n));
}

fn push_bytes(out: &mut Vec<u8>, bytes: &[u8])
    ensures
        final(out)@ == old(out)@ + bytes@,
{
    let ghost start = out@;
    let mut i: usize = 0;
    while i < bytes.len()
        invariant
            i <= bytes.len(),
            out@ == start + bytes@.take(i as int),
        decreases bytes.len() - i,
    {
        out.push(bytes[i]);
        assert(bytes@.take(i + 1) =~= bytes@.take(i as int).push(bytes@[i as int]));
        assert(out@ =~= start + bytes@.take(i + 1));
        i = i + 1;
    }
    assert(bytes@.take(bytes.len() as int) =~= bytes@);
}

fn push_framed(out: &mut Vec<u8>, text: &str)
    ensures
        final(out)@ == old(out)@ + framed(text@),
{
    let bytes = text.as_bytes();
    push_be64(out, bytes.len() as u64);
    push_bytes(out, bytes);
    assert(final(out)@ =~= old(out)@ + framed(text@));
}

/// The views of a list of texts.
pub open spec fn text_views(parts: Seq<&str>) -> Seq<Seq<char>> {
    parts.map_values(|p: &str| p@)
}

/// The canonical binding over served fence values; see [`fence_binding_of`].
pub fn fence_binding(label: &str, parts: &[&str]) -> (r: String)
    ensures
        r@ == fence_binding_of(label@, text_views(parts@)),
        is_lower_hex_digest(r@),
{
    let mut bytes: Vec<u8> = Vec::new();
    push_bytes(&mut bytes, "ascension.served-boundary-fence.v1".as_bytes());
    bytes.push(0u8);
    assert(bytes@ =~= fence_domain());
    push_framed(&mut bytes, label);
    push_be64(&mut bytes, parts.len() as u64);
    let ghost head = bytes@;
    let ghost views = text_views(parts@);
    let mut i: usize = 0;
    assert(views.take(0) =~= Seq::<Seq<char>>::empty());
    while i < parts.len()
        invariant
            i <= parts.len(),
            views == text_views(parts@),
            bytes@ == head + framed_parts(views.take(i as int)),
        decreases parts.len() - i,
    {
        push_framed(&mut bytes, parts[i]);
        proof {
            assert(views.take(i + 1).drop_last() =~= views.take(i as int));
            assert(views.take(i + 1).last() == parts@[i as int]@);
            assert(bytes@ =~= head + framed_parts(views.take(i + 1)));
        }
        i = i + 1;
    }
    proof {
        assert(views.take(parts.len() as int) =~= views);
        assert(bytes@ =~= binding_bytes(label@, views));
    }
    sha256_hex(bytes.as_slice())
}

/// The first `n` characters of a text, as an owned text.
fn prefix(text: &str, n: usize) -> (r: String)
    requires
        n <= text@.len(),
    ensures
        r@ == text@.take(n as int),
{
    let mut out = String::new();
    let mut i: usize = 0;
    while i < n
        invariant
            i <= n <= text@.len(),
            out@ == text@.take(i as int),
        decreases n - i,
    {
        out.push(text.get_char(i));
        assert(out@ =~= text@.take(i + 1));
        i = i + 1;
    }
    out
}

/// The deterministic dispatch identity of one served decision.
pub open spec fn dispatch_id_of(execution_id: Seq<char>) -> Seq<char> {
    "exo."@ + sha256_hex_of(encode_utf8(execution_id)).take(32)
}

/// The deterministic dispatch identity of one served decision: derived from
/// the served execution identity, so a repeated release of the same
/// invocation resolves to the approval it already wrote.
pub fn dispatch_id(execution_id: &str) -> (r: String)
    ensures
        r@ == dispatch_id_of(execution_id@),
{
    let digest = sha256_hex(execution_id.as_bytes());
    let mut r = "exo.".to_owned();
    r.append(prefix(digest.as_str(), 32).as_str());
    r
}

/// The deterministic attempt identity of one served boundary approval.
pub open spec fn attempt_id_of(invocation_id: Seq<char>, execution_id: Seq<char>) -> Seq<char> {
    "exo-attempt."@ + fence_binding_of("attempt"@, seq![invocation_id, execution_id]).take(32)
}

/// The deterministic attempt identity of one served boundary approval: derived
/// from the served invocation identity, so a repeated release of the same
/// invocation resolves to the same captured snapshot.
pub fn boundary_attempt_id(invocation_id: &str, execution_id: &str) -> (r: String)
    ensures
        r@ == attempt_id_of(invocation_id@, execution_id@),
{
    let parts: Vec<&str> = vec![invocation_id, execution_id];
    let binding = fence_binding("attempt", parts.as_slice());
    proof {
        assert(text_views(parts@) =~= seq![invocation_id@, execution_id@]);
    }
    let mut r = "exo-attempt.".to_owned();
    r.append(prefix(binding.as_str(), 32).as_str());
    r
}

/// The observed boundary of one render source: the state, catalog, model and
/// configuration a held approval was prepared under.
#[derive(Clone, Debug, PartialEq, Eq)]
pub struct RenderBoundary {
    pub state_id: String,
    pub generation: u64,
    pub control_version: u64,
    pub model_revision: String,
    pub configuration_sha256: String,
    pub adapter_revision: String,
    pub output_schema_sha256: String,
    pub observation_sha256: String,
    pub catalog_sha256: String,
    pub controller_epoch: u64,
    pub gate_epoch: u64,
}

/// The identity an owner-authored render source publishes for one invocation.
#[derive(Clone, Debug, PartialEq, Eq)]
pub struct ContextRenderSourceIdentity {
    pub boundary: RenderBoundary,
    pub invocation_id: String,
    pub instance_id: String,
    pub lease_id: String,
    pub lease_epoch: u64,
    pub binding_digest: String,
    pub active_revision_id: String,
    pub source_id: String,
    pub source_digest: String,
    pub membership_digest: Option<String>,
    pub owner_id: String,
    pub binding_id: String,
    pub binding_version: u64,
}

/// Every fence axis a held approval is bound to.
#[derive(Clone, Debug, PartialEq, Eq)]
pub struct DispatchFences {
    pub adapter_id: String,
    pub model_id: String,
    pub configuration_digest: String,
    pub state_digest: String,
    pub catalog_digest: String,
    pub profile_digest: String,
    pub auth_digest: String,
    pub history_digest: String,
    pub compaction_digest: String,
    pub policy_id: String,
    pub policy_version: u64,
    pub controller_epoch: u64,
    pub gate_epoch: u64,
    pub lease_epoch: u64,
    pub revocation_epoch: u64,
}

/// The membership a compaction fence binds: the digest, or the marker of a
/// stateless source.
pub open spec fn membership_of(m: Option<String>) -> Seq<char> {
    match m {
        Some(d) => d@,
        None => "<stateless>"@,
    }
}

/// Whether fences bind exactly the axes a served composition observes.
pub open spec fn fences_bind(
    f: DispatchFences,
    identity: ContextRenderSourceIdentity,
    provider_revision: Seq<char>,
) -> bool {
    let b = identity.boundary;
    &&& f.adapter_id@ == "exo"@
    &&& f.model_id@ == fence_binding_of("model"@, seq![b.model_revision@, provider_revision])
    &&& f.configuration_digest@ == fence_binding_of(
        "configuration"@,
        seq![b.configuration_sha256@, b.adapter_revision@, b.output_schema_sha256@],
    )
    &&& f.state_digest@ == fence_binding_of(
        "state"@,
        seq![b.observation_sha256@, b.state_id@ + ":"@ + decimal_of(b.generation as nat)],
    )
    &&& f.catalog_digest@ == fence_binding_of("catalog"@, seq![b.catalog_sha256@])
    &&& f.profile_digest@ == fence_binding_of(
        "profile"@,
        seq![identity.binding_digest@, identity.active_revision_id@],
    )
    &&& f.auth_digest@ == fence_binding_of(
        "auth"@,
        seq![identity.instance_id@, identity.lease_id@, decimal_of(identity.lease_epoch as nat)],
    )
    &&& f.history_digest@ == fence_binding_of(
        "history"@,
        seq![identity.source_id@, identity.source_digest@],
    )
    &&& f.compaction_digest@ == fence_binding_of(
        "compaction"@,
        seq![membership_of(identity.membership_digest), decimal_of(b.control_version as nat)],
    )
    &&& f.policy_id@ == fence_binding_of("policy"@, seq![identity.owner_id@, identity.binding_id@])
    &&& f.policy_version == identity.binding_version
    &&& f.controller_epoch == b.controller_epoch
    &&& f.gate_epoch == b.gate_epoch
    &&& f.lease_epoch == identity.lease_epoch
    &&& f.revocation_epoch == 0
}

fn bind2(label: &str, a: &str, b: &str) -> (r: String)
    ensures
        r@ == fence_binding_of(label@, seq![a@, b@]),
{
    let parts: Vec<&str> = vec![a, b];
    let r = fence_binding(label, parts.as_slice());
    assert(text_views(parts@) =~= seq![a@, b@]);
    r
}

fn bind3(label: &str, a: &str, b: &str, c: &str) -> (r: String)
    ensures
        r@ == fence_binding_of(label@, seq![a@, b@, c@]),
{
    let parts: Vec<&str> = vec![a, b, c];
    let r = fence_binding(label, parts.as_slice());
    assert(text_views(parts@) =~= seq![a@, b@, c@]);
    r
}

/// Binds every fence axis a served composition can observe. The revocation
/// epoch has no source in the composition and is bound to zero.
pub fn boundary_fences(identity: &ContextRenderSourceIdentity, provider_revision: &str) -> (r:
    DispatchFences)
    ensures
        fences_bind(r, *identity, provider_revision@),
{
    proof {
        reveal_strlit("exo");
        reveal_strlit(":");
        reveal_strlit("<stateless>");
    }
    let boundary = &identity.boundary;
    let generation = decimal(boundary.generation);
    let control_version = decimal(boundary.control_version);
    let lease_epoch = decimal(identity.lease_epoch);
    let mut state = boundary.state_id.clone();
    state.append(":");
    state.append(generation.as_str());
    let membership = match &identity.membership_digest {
        Some(d) => d.clone(),
        None => "<stateless>".to_owned(),
    };
    let catalog_parts: Vec<&str> = vec![boundary.catalog_sha256.as_str()];
    let catalog_digest = fence_binding("catalog", catalog_parts.as_slice());
    assert(text_views(catalog_parts@) =~= seq![boundary.catalog_sha256@]);
    DispatchFences {
        adapter_id: BOUNDARY_ADAPTER_ID.to_owned(),
        model_id: bind2("model", boundary.model_revision.as_str(), provider_revision),
        configuration_digest: bind3(
            "configuration",
            boundary.configuration_sha256.as_str(),
            boundary.adapter_revision.as_str(),
            boundary.output_schema_sha256.as_str(),
        ),
        state_digest: bind2("state", boundary.observation_sha256.as_str(), state.as_str()),
        catalog_digest,
        profile_digest: bind2(
            "profile",
            identity.binding_digest.as_str(),
            identity.active_revision_id.as_str(),
        ),
        auth_digest: bind3(
            "auth",
            identity.instance_id.as_str(),
            identity.lease_id.as_str(),
            lease_epoch.as_str(),
        ),
        history_digest: bind2("history", identity.source_id.as_str(), identity.source_digest.as_str()),
        compaction_digest: bind2("compaction", membership.as_str(), control_version.as_str()),
        policy_id: bind2("policy", identity.owner_id.as_str(), identity.binding_id.as_str()),
        policy_version: identity.binding_version,
        controller_epoch: boundary.controller_epoch,
        gate_epoch: boundary.gate_epoch,
        lease_epoch: identity.lease_epoch,
        revocation_epoch: 0,
    }
}

/// The deterministic attempt identity of the approval held for an identity.
pub fn identity_attempt_id(identity: &ContextRenderSourceIdentity, execution_id: &str) -> (r: String)
    ensures
        r@ == attempt_id_of(identity.invocation_id@, execution_id@),
{
    boundary_attempt_id(identity.invocation_id.as_str(), execution_id)
}

} // verus!

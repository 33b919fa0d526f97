//! Served inference-profile revisions: the descriptor an owner publishes, its
//! canonical sealing digest and its validation.

use vstd::prelude::*;
use vstd::utf8::encode_utf8;
use crate::digest::{decimal, decimal_of, sha256_hex, sha256_hex_of};
use crate::error::{ErrorClass, ManagementError, Refusal, refusal};
use crate::identity::{is_digest, is_identifier, is_identifier_text, is_lower_hex_digest};

verus! {

/// Publication state of one served revision.
#[derive(Clone, Copy, Debug, PartialEq, Eq, Structural)]
pub enum InferenceProfileState {
    Available,
    Disabled,
    Revoked,
}

/// What the owner lets a consumer do with one revision.
#[derive(Clone, Copy, Debug, PartialEq, Eq, Structural)]
pub struct InferenceProfileGrants {
    pub edit: bool,
}

/// The effective token budgets a revision publishes.
#[derive(Clone, Copy, Debug, PartialEq, Eq, Structural)]
pub struct InferenceProfileBudgets {
    pub max_input_tokens: u64,
    pub max_output_tokens: u64,
}

/// One served inference-profile revision.
#[derive(Debug)]
pub struct InferenceProfileDescriptor {
    pub profile_id: String,
    pub version: String,
    pub digest: String,
    pub adapter: String,
    pub requested_model: String,
    pub resolved_model: String,
    pub node_kinds: Vec<String>,
    pub operations: Vec<String>,
    pub context_compatibility: Vec<String>,
    pub continuity: String,
    pub state: InferenceProfileState,
    pub grants: InferenceProfileGrants,
    pub prompt_revision: String,
    pub settings_revision: String,
    pub supported_settings: Vec<String>,
    pub effective_budgets: InferenceProfileBudgets,
}

/// The abstract content of a revision.
pub struct DescriptorView {
    pub profile_id: Seq<char>,
    pub version: Seq<char>,
    pub digest: Seq<char>,
    pub adapter: Seq<char>,
    pub requested_model: Seq<char>,
    pub resolved_model: Seq<char>,
    pub node_kinds: Seq<Seq<char>>,
    pub operations: Seq<Seq<char>>,
    pub context_compatibility: Seq<Seq<char>>,
    pub continuity: Seq<char>,
    pub state: InferenceProfileState,
    pub grants: InferenceProfileGrants,
    pub prompt_revision: Seq<char>,
    pub settings_revision: Seq<char>,
    pub supported_settings: Seq<Seq<char>>,
    pub effective_budgets: InferenceProfileBudgets,
}

impl View for InferenceProfileDescriptor {
    type V = DescriptorView;

    open spec fn view(&self) -> DescriptorView {
        DescriptorView {
            profile_id: self.profile_id@,
            version: self.version@,
            digest: self.digest@,
            adapter: self.adapter@,
            requested_model: self.requested_model@,
            resolved_model: self.resolved_model@,
            node_kinds: self.node_kinds.deep_view(),
            operations: self.operations.deep_view(),
            context_compatibility: self.context_compatibility.deep_view(),
            continuity: self.continuity@,
            state: self.state,
            grants: self.grants,
            prompt_revision: self.prompt_revision@,
            settings_revision: self.settings_revision@,
            supported_settings: self.supported_settings.deep_view(),
            effective_budgets: self.effective_budgets,
        }
    }
}

/// Whether two revisions carry the same identity and authority: everything
/// except the editable fields and the digest.
pub open spec fn same_authority(a: DescriptorView, b: DescriptorView) -> bool {
    &&& a.profile_id == b.profile_id
    &&& a.adapter == b.adapter
    &&& a.requested_model == b.requested_model
    &&& a.resolved_model == b.resolved_model
    &&& a.node_kinds == b.node_kinds
    &&& a.operations == b.operations
    &&& a.context_compatibility == b.context_compatibility
    &&& a.continuity == b.continuity
    &&& a.state == b.state
    &&& a.grants == b.grants
}

/// One length-prefixed text field of the canonical encoding.
pub open spec fn field_text(s: Seq<char>) -> Seq<char> {
    decimal_of(s.len()) + ":"@ + s
}

/// The length-prefixed concatenation of the first `n` items of a list.
pub open spec fn items_text(items: Seq<Seq<char>>, n: nat) -> Seq<char>
    decreases n,
{
    if n == 0 || n > items.len() {
        Seq::empty()
    } else {
        items_text(items, (n - 1) as nat) + field_text(items[n - 1])
    }
}

/// One counted list of the canonical encoding.
pub open spec fn list_text(items: Seq<Seq<char>>) -> Seq<char> {
    decimal_of(items.len()) + "#"@ + items_text(items, items.len())
}

pub open spec fn state_label(s: InferenceProfileState) -> Seq<char> {
    match s {
        InferenceProfileState::Available => "available"@,
        InferenceProfileState::Disabled => "disabled"@,
        InferenceProfileState::Revoked => "revoked"@,
    }
}

/// The canonical text a revision is sealed over: every field but the digest.
pub open spec fn canonical_text(d: DescriptorView) -> Seq<char> {
    field_text(d.profile_id) + field_text(d.version) + field_text(d.adapter) + field_text(
        d.requested_model,
    ) + field_text(d.resolved_model) + list_text(d.node_kinds) + list_text(d.operations)
        + list_text(d.context_compatibility) + field_text(d.continuity) + field_text(
        state_label(d.state),
    ) + field_text(if d.grants.edit { "edit"@ } else { "read"@ }) + field_text(d.prompt_revision)
        + field_text(d.settings_revision) + list_text(d.supported_settings) + field_text(
        decimal_of(d.effective_budgets.max_input_tokens as nat),
    ) + field_text(decimal_of(d.effective_budgets.max_output_tokens as nat))
}

/// The sealing digest of a revision: the lowercase SHA-256 of its canonical text.
pub open spec fn seal_digest(d: DescriptorView) -> Seq<char> {
    sha256_hex_of(encode_utf8(canonical_text(d)))
}

/// The refusal of a revision's validation, if any.
pub open spec fn descriptor_refusal(d: DescriptorView) -> Option<Refusal> {
    if !is_identifier(d.profile_id) || !is_identifier(d.version) {
        Some(refusal(ErrorClass::InvalidInput, "invalid_identifier"))
    } else if !is_lower_hex_digest(d.digest) || d.digest != seal_digest(d) {
        Some(refusal(ErrorClass::InvalidInput, "inference_profile_digest_mismatch"))
    } else {
        None
    }
}

fn append_field(out: &mut String, s: &str)
    ensures
        final(out)@ == old(out)@ + field_text(s@),
{
    out.append(decimal(s.unicode_len() as u64).as_str());
    out.append(":");
    out.append(s);
    proof {
        reveal_strlit(":");
    }
    assert(final(out)@ =~= old(out)@ + field_text(s@));
}

fn append_list(out: &mut String, items: &Vec<String>)
    ensures
        final(out)@ == old(out)@ + list_text(items.deep_view()),
{
    let ghost start = out@;
    out.append(decimal(items.len() as u64).as_str());
    out.append("#");
    proof {
        reveal_strlit("#");
    }
    let ghost head = out@;
    let mut i: usize = 0;
    while i < items.len()
        invariant
            i <= items@.len(),
            items.deep_view().len() == items@.len(),
            head == start + decimal_of(items@.len()) + "#"@,
            out@ == head + items_text(items.deep_view(), i as nat),
        decreases items@.len() - i,
    {
        append_field(out, items[i].as_str());
        proof {
            assert(items.deep_view()[i as int] == items@[i as int]@);
        }
        i = i + 1;
    }
    assert(out@ =~= start + list_text(items.deep_view()));
}

impl InferenceProfileDescriptor {
    /// The canonical text this revision is sealed over.
    pub fn canonical_text(&self) -> (r: String)
        ensures
            r@ == canonical_text(self@),
    {
        let mut out = String::new();
        append_field(&mut out, self.profile_id.as_str());
        append_field(&mut out, self.version.as_str());
        append_field(&mut out, self.adapter.as_str());
        append_field(&mut out, self.requested_model.as_str());
        append_field(&mut out, self.resolved_model.as_str());
        append_list(&mut out, &self.node_kinds);
        append_list(&mut out, &self.operations);
        append_list(&mut out, &self.context_compatibility);
        append_field(&mut out, self.continuity.as_str());
        let state = match self.state {
            InferenceProfileState::Available => "available",
            InferenceProfileState::Disabled => "disabled",
            InferenceProfileState::Revoked => "revoked",
        };
        append_field(&mut out, state);
        append_field(&mut out, if self.grants.edit { "edit" } else { "read" });
        append_field(&mut out, self.prompt_revision.as_str());
        append_field(&mut out, self.settings_revision.as_str());
        append_list(&mut out, &self.supported_settings);
        append_field(&mut out, decimal(self.effective_budgets.max_input_tokens).as_str());
        append_field(&mut out, decimal(self.effective_budgets.max_output_tokens).as_str());
        assert(out@ =~= canonical_text(self@));
        out
    }

    /// The sealing digest of this revision's content.
    pub fn seal_digest(&self) -> (r: String)
        ensures
            r@ == seal_digest(self@),
            is_lower_hex_digest(r@),
    {
        let text = self.canonical_text();
        sha256_hex(text.as_str().as_bytes())
    }

    /// Validates a revision: portable identity and version, and a digest that
    /// seals exactly this content.
    pub fn validate(&self) -> (r: Result<(), ManagementError>)
        ensures
            match descriptor_refusal(self@) {
                Some(f) => r matches Err(e) && e.refusal() == f,
                None => r is Ok,
            },
    {
        if !is_identifier_text(self.profile_id.as_str()) || !is_identifier_text(
            self.version.as_str(),
        ) {
            return Err(ManagementError::invalid("invalid_identifier", "profile identity"));
        }
        if !is_digest(self.digest.as_str()) || !(self.digest == self.seal_digest()) {
            return Err(
                ManagementError::invalid(
                    "inference_profile_digest_mismatch",
                    "the revision digest does not seal its content",
                ),
            );
        }
        Ok(())
    }
}

fn clone_texts(v: &Vec<String>) -> (r: Vec<String>)
    ensures
        r.deep_view() == v.deep_view(),
{
    let r = v.clone();
    assert(r.deep_view() =~= v.deep_view());
    r
}

impl Clone for InferenceProfileDescriptor {
    fn clone(&self) -> (r: Self)
        ensures
            r@ == self@,
    {
        InferenceProfileDescriptor {
            profile_id: self.profile_id.clone(),
            version: self.version.clone(),
            digest: self.digest.clone(),
            adapter: self.adapter.clone(),
            requested_model: self.requested_model.clone(),
            resolved_model: self.resolved_model.clone(),
            node_kinds: clone_texts(&self.node_kinds),
            operations: clone_texts(&self.operations),
            context_compatibility: clone_texts(&self.context_compatibility),
            continuity: self.continuity.clone(),
            state: self.state,
            grants: self.grants,
            prompt_revision: self.prompt_revision.clone(),
            settings_revision: self.settings_revision.clone(),
            supported_settings: clone_texts(&self.supported_settings),
            effective_budgets: self.effective_budgets,
        }
    }
}

} // verus!

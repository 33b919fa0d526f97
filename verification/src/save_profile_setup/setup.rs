//! Effect-free admission of one save-profile setup operation, and the
//! reconciliation of an admitted mutation against the owner's readback.

use vstd::prelude::*;
use crate::identity::{is_digest, is_lower_hex_digest};
use super::operation::{spec_is_mutation, spec_route_path, spec_tool};
use super::request::{
    opt_text, request_shape_error, spec_document_operation, spec_permits, validate_request,
};
use super::{ProfileSetupError, ProfileSetupGrants, ProfileSetupOperation, ProfileSetupRequest};

verus! {

/// An admitted, effect-free mapping of one setup operation.
#[derive(Clone, Debug)]
pub struct AdmittedProfileSetup {
    operation: ProfileSetupOperation,
    instance_id: String,
    profile_id: Option<String>,
    operation_id: Option<String>,
}

/// The abstract content of an admitted setup.
pub struct AdmittedProfileSetupView {
    pub operation: ProfileSetupOperation,
    pub instance_id: Seq<char>,
    pub profile_id: Option<Seq<char>>,
    pub operation_id: Option<Seq<char>>,
}

impl View for AdmittedProfileSetup {
    type V = AdmittedProfileSetupView;

    closed spec fn view(&self) -> AdmittedProfileSetupView {
        AdmittedProfileSetupView {
            operation: self.operation,
            instance_id: self.instance_id@,
            profile_id: opt_text(self.profile_id),
            operation_id: opt_text(self.operation_id),
        }
    }
}

impl AdmittedProfileSetup {
    /// The admitted operation.
    pub fn operation(&self) -> (r: ProfileSetupOperation)
        ensures
            r == self@.operation,
    {
        self.operation
    }

    /// The accepted MCP tool name.
    pub fn tool(&self) -> (r: &'static str)
        ensures
            r@ == spec_tool(self@.operation),
    {
        self.operation.tool()
    }

    /// Whether the admitted operation changes owner state.
    pub fn is_mutation(&self) -> (r: bool)
        ensures
            r == spec_is_mutation(self@.operation),
    {
        self.operation.is_mutation()
    }

    /// The admitted instance identity.
    pub fn instance_id(&self) -> (r: &str)
        ensures
            r@ == self@.instance_id,
    {
        self.instance_id.as_str()
    }

    /// The admitted profile identity, when the operation names one.
    pub fn profile_id(&self) -> (r: Option<&str>)
        ensures
            r is Some == self@.profile_id is Some,
            r matches Some(p) ==> self@.profile_id == Some(p@),
    {
        match &self.profile_id {
            Some(p) => Some(p.as_str()),
            None => None,
        }
    }

    /// The admitted retained operation identity, when the operation reads one.
    pub fn operation_id(&self) -> (r: Option<&str>)
        ensures
            r is Some == self@.operation_id is Some,
            r matches Some(p) ==> self@.operation_id == Some(p@),
    {
        match &self.operation_id {
            Some(p) => Some(p.as_str()),
            None => None,
        }
    }

    /// The gateway route for this admitted mapping.
    pub fn route_path(&self) -> (r: String)
        ensures
            r@ == spec_route_path(self@.operation, self@.instance_id, self@.operation_id),
    {
        self.operation.route_path(self.instance_id.as_str(), self.operation_id())
    }
}

/// The first violated admission property of a request under a grant set, in
/// the fixed order: shape, permission, effect-free discovery, profile presence,
/// fence, receipt identity, active run.
pub open spec fn admission_error(r: ProfileSetupRequest, grants: ProfileSetupGrants) -> Option<
    ProfileSetupError,
> {
    let op = spec_document_operation(r.operation);
    if request_shape_error(r) is Some {
        request_shape_error(r)
    } else if !spec_permits(grants, op) {
        Some(ProfileSetupError::PermissionDenied)
    } else if !spec_is_mutation(op) && (r.profile_id is Some || r.baseline is Some) {
        Some(ProfileSetupError::DiscoveryMustBeEffectFree)
    } else if op == ProfileSetupOperation::Select && r.profile_id is None {
        Some(ProfileSetupError::ProfileRequired)
    } else if op == ProfileSetupOperation::Select && (r.baseline is None || Some(
        r.baseline->0.profile_id@,
    ) != opt_text(r.profile_id)) {
        Some(ProfileSetupError::BaselineFenceMismatch)
    } else if op != ProfileSetupOperation::Select && r.baseline is Some {
        Some(ProfileSetupError::BaselineFenceMismatch)
    } else if op == ProfileSetupOperation::Status && r.operation_id is None {
        Some(ProfileSetupError::InvalidRequest)
    } else if spec_is_mutation(op) && r.run_active {
        Some(ProfileSetupError::ActiveRunConflict)
    } else {
        None
    }
}

/// Admits one authored setup operation, refusing the first violated property.
/// The returned value is a mapping only; nothing is called.
pub fn admit_profile_setup(request: &ProfileSetupRequest, grants: ProfileSetupGrants) -> (r: Result<
    AdmittedProfileSetup,
    ProfileSetupError,
>)
    ensures
        match admission_error(*request, grants) {
            Some(e) => r matches Err(x) && x == e,
            None => r matches Ok(a) && a@ == (AdmittedProfileSetupView {
                operation: spec_document_operation(request.operation),
                instance_id: request.instance_id@,
                profile_id: opt_text(request.profile_id),
                operation_id: opt_text(request.operation_id),
            }),
        },
{
    validate_request(request)?;
    let operation = request.operation.operation();
    if !grants.permits(operation) {
        return Err(ProfileSetupError::PermissionDenied);
    }
    if !operation.is_mutation() && (request.profile_id.is_some() || request.baseline.is_some()) {
        return Err(ProfileSetupError::DiscoveryMustBeEffectFree);
    }
    if operation.requires_profile_id() && request.profile_id.is_none() {
        return Err(ProfileSetupError::ProfileRequired);
    }
    if operation.requires_baseline_fence() {
        match &request.baseline {
            None => {
                return Err(ProfileSetupError::BaselineFenceMismatch);
            },
            Some(baseline) => {
                let same = match &request.profile_id {
                    Some(p) => baseline.profile_id == *p,
                    None => false,
                };
                if !same {
                    return Err(ProfileSetupError::BaselineFenceMismatch);
                }
            },
        }
    } else if request.baseline.is_some() {
        return Err(ProfileSetupError::BaselineFenceMismatch);
    }
    if operation.requires_operation_id() && request.operation_id.is_none() {
        return Err(ProfileSetupError::InvalidRequest);
    }
    if operation.is_mutation() && request.run_active {
        return Err(ProfileSetupError::ActiveRunConflict);
    }
    Ok(
        AdmittedProfileSetup {
            operation,
            instance_id: request.instance_id.clone(),
            profile_id: request.profile_id.clone(),
            operation_id: request.operation_id.clone(),
        },
    )
}

/// An authoritative summary the owner reported back for a profile.
#[derive(Clone, Debug)]
pub struct ProfileReadback {
    /// The profile identity the owner reported.
    pub profile_id: String,
    /// Lowercase SHA-256 digest of the profile's admitted baseline.
    pub baseline_digest: String,
    /// Whether the owner reports the profile as available for use.
    pub available: bool,
}

/// A readback the owner reported for a mutation this harness admitted.
#[derive(Clone, Debug)]
pub struct VerifiedProfileReadback {
    profile_id: String,
}

impl VerifiedProfileReadback {
    pub closed spec fn spec_profile_id(&self) -> Seq<char> {
        self.profile_id@
    }

    /// The verified profile identity, safe to hand to downstream setup.
    pub fn profile_id(&self) -> (r: &str)
        ensures
            r@ == self.spec_profile_id(),
    {
        self.profile_id.as_str()
    }
}

/// Whether an owner readback confirms an admitted setup under an optional fence.
pub open spec fn readback_matches(
    readback: ProfileReadback,
    admitted: AdmittedProfileSetupView,
    fence: Option<Seq<char>>,
) -> bool {
    &&& admitted.profile_id == Some(readback.profile_id@)
    &&& readback.available
    &&& is_lower_hex_digest(readback.baseline_digest@)
    &&& fence matches Some(f) ==> readback.baseline_digest@ == f
}

impl ProfileReadback {
    /// Verifies that this readback is the owner's answer for `admitted`: the
    /// same profile, available, with a lowercase digest that matches the
    /// admitted fence when there is one.
    pub fn verify(self, admitted: &AdmittedProfileSetup, admitted_baseline: Option<&str>) -> (r: Result<
        VerifiedProfileReadback,
        ProfileSetupError,
    >)
        ensures
            r is Ok <==> readback_matches(
                self,
                admitted@,
                match admitted_baseline {
                    Some(f) => Some(f@),
                    None => None,
                },
            ),
            r matches Ok(v) ==> v.spec_profile_id() == self.profile_id@,
            r matches Err(e) ==> e == ProfileSetupError::ReadbackMismatch,
    {
        let expected = match admitted.profile_id() {
            Some(p) => p,
            None => {
                return Err(ProfileSetupError::ReadbackMismatch);
            },
        };
        if !(self.profile_id == expected.to_owned()) || !self.available {
            return Err(ProfileSetupError::ReadbackMismatch);
        }
        if !is_digest(self.baseline_digest.as_str()) {
            return Err(ProfileSetupError::ReadbackMismatch);
        }
        if let Some(fenced) = admitted_baseline {
            if !(self.baseline_digest == fenced.to_owned()) {
                return Err(ProfileSetupError::ReadbackMismatch);
            }
        }
        Ok(VerifiedProfileReadback { profile_id: self.profile_id })
    }
}

/// Discovery is effect-free: an admitted read never names a profile and never
/// changes owner state, and an admitted mutation never targets an active run.
pub proof fn lemma_admission_fences(r: ProfileSetupRequest, grants: ProfileSetupGrants)
    requires
        admission_error(r, grants) is None,
    ensures
        !spec_is_mutation(spec_document_operation(r.operation)) ==> r.profile_id is None
            && r.baseline is None,
        spec_is_mutation(spec_document_operation(r.operation)) ==> !r.run_active,
        spec_permits(grants, spec_document_operation(r.operation)),
        spec_document_operation(r.operation) == ProfileSetupOperation::Select ==> r.baseline is Some
            && Some(r.baseline->0.profile_id@) == opt_text(r.profile_id),
        spec_document_operation(r.operation) == ProfileSetupOperation::CreateDisposable
            ==> r.baseline is None,
{
}

/// Admission is monotone in the grants: a request admitted under some grants
/// is admitted under any grant set that grants at least as much.
pub proof fn lemma_admission_monotone_in_grants(
    r: ProfileSetupRequest,
    weaker: ProfileSetupGrants,
    stronger: ProfileSetupGrants,
)
    requires
        weaker.discovery ==> stronger.discovery,
        weaker.selection ==> stronger.selection,
        weaker.provisioning ==> stronger.provisioning,
        admission_error(r, weaker) is None,
    ensures
        admission_error(r, stronger) is None,
{
}

/// Each operation is authorised by its own grant: the discovery reads by the
/// discovery grant, selection by the selection grant, and a disposable
/// profile by the provisioning grant; no other grant stands in for it.
pub proof fn lemma_each_operation_needs_its_own_grant(grants: ProfileSetupGrants)
    ensures
        spec_permits(grants, ProfileSetupOperation::List) == grants.discovery,
        spec_permits(grants, ProfileSetupOperation::Current) == grants.discovery,
        spec_permits(grants, ProfileSetupOperation::Status) == grants.discovery,
        spec_permits(grants, ProfileSetupOperation::Select) == grants.selection,
        spec_permits(grants, ProfileSetupOperation::CreateDisposable) == grants.provisioning,
{
}

/// A request admitted under some grants is admitted under the one grant its
/// operation names, whatever else is withheld: selection needs only the
/// selection grant, a disposable profile only the provisioning grant, and a
/// discovery read only the discovery grant.
pub proof fn lemma_admission_needs_only_its_own_grant(
    r: ProfileSetupRequest,
    grants: ProfileSetupGrants,
)
    requires
        admission_error(r, grants) is None,
    ensures
        spec_document_operation(r.operation) == ProfileSetupOperation::Select ==> grants.selection
            && admission_error(
            r,
            ProfileSetupGrants { discovery: false, selection: true, provisioning: false },
        ) is None,
        spec_document_operation(r.operation) == ProfileSetupOperation::CreateDisposable
            ==> grants.provisioning && admission_error(
            r,
            ProfileSetupGrants { discovery: false, selection: false, provisioning: true },
        ) is None,
        !spec_is_mutation(spec_document_operation(r.operation)) ==> grants.discovery
            && admission_error(
            r,
            ProfileSetupGrants { discovery: true, selection: false, provisioning: false },
        ) is None,
{
}

} // verus!

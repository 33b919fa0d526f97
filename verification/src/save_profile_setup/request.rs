//! The authored save-profile setup request and the deployment's grants.

use vstd::prelude::*;
use crate::identity::{all_portable, all_portable_chars, is_digest, is_lower_hex_digest};
use super::operation::spec_required_grant;
use super::{ProfileGrant, ProfileSetupError, ProfileSetupOperation};

verus! {

/// The setup-request schema version this harness implements.
pub const PROFILE_SETUP_SCHEMA_VERSION: &'static str = "ascension.save-profile-setup/v1";

/// Maximum bytes of a save-profile identity.
pub const MAX_PROFILE_ID_BYTES: usize = 128;

/// An admitted baseline a selection must fence against.
#[derive(Clone, Debug)]
pub struct ProfileBaselineFence {
    /// The profile identity the baseline was read for.
    pub profile_id: String,
    /// Lowercase SHA-256 digest of the admitted baseline.
    pub baseline_digest: String,
}

/// `s` holds two consecutive dots.
pub open spec fn has_double_dot(s: Seq<char>) -> bool {
    exists|i: int| 0 <= i < s.len() - 1 && #[trigger] s[i] == '.' && s[i + 1] == '.'
}

/// `s` holds a URL scheme separator `://`.
pub open spec fn has_scheme_separator(s: Seq<char>) -> bool {
    exists|i: int| 0 <= i < s.len() - 2 && #[trigger] s[i] == ':' && s[i + 1] == '/' && s[i + 2] == '/'
}

/// A bounded, portable save-profile identity: it cannot be a path traversal, a
/// URL or a host path.
pub open spec fn spec_is_profile_identity(s: Seq<char>) -> bool {
    &&& s.len() > 0
    &&& s.len() <= MAX_PROFILE_ID_BYTES
    &&& !has_double_dot(s)
    &&& !has_scheme_separator(s)
    &&& all_portable(s)
}

fn no_double_dot(s: &str) -> (r: bool)
    ensures
        r == !has_double_dot(s@),
{
    let n = s.unicode_len();
    if n < 2 {
        return true;
    }
    let mut i: usize = 0;
    while i + 1 < n
        invariant
            n == s@.len(),
            n >= 2,
            i + 1 <= n,
            forall|j: int| 0 <= j < i ==> !(#[trigger] s@[j] == '.' && s@[j + 1] == '.'),
        decreases n - i,
    {
        if s.get_char(i) == '.' && s.get_char(i + 1) == '.' {
            return false;
        }
        i = i + 1;
    }
    true
}

/// Whether `value` is a bounded, portable save-profile identity.
pub fn is_profile_identity(value: &str) -> (r: bool)
    ensures
        r == spec_is_profile_identity(value@),
{
    let n = value.unicode_len();
    if n == 0 || n > MAX_PROFILE_ID_BYTES {
        return false;
    }
    let portable = all_portable_chars(value);
    proof {
        if portable && has_scheme_separator(value@) {
            let i = choose|i: int|
                0 <= i < value@.len() - 2 && #[trigger] value@[i] == ':' && value@[i + 1] == '/'
                    && value@[i + 2] == '/';
            assert(crate::identity::is_portable_char(value@[i + 1]));
        }
    }
    portable && no_double_dot(value)
}

/// The instance identity is held to the same portable shape as a profile.
pub fn is_instance_identity(value: &str) -> (r: bool)
    ensures
        r == spec_is_profile_identity(value@),
{
    is_profile_identity(value)
}

impl ProfileBaselineFence {
    /// Validates the fence's profile identity and digest shape.
    pub fn validate(&self) -> (r: Result<(), ProfileSetupError>)
        ensures
            r is Ok <==> spec_is_profile_identity(self.profile_id@) && is_lower_hex_digest(
                self.baseline_digest@,
            ),
            r matches Err(e) ==> e == ProfileSetupError::InvalidRequest,
    {
        if !is_profile_identity(self.profile_id.as_str()) {
            return Err(ProfileSetupError::InvalidRequest);
        }
        if !is_digest(self.baseline_digest.as_str()) {
            return Err(ProfileSetupError::InvalidRequest);
        }
        Ok(())
    }
}

/// The permissions one deployment grants an authored workflow.
#[derive(Clone, Copy, Debug, PartialEq, Eq, Structural)]
pub struct ProfileSetupGrants {
    /// Whether effect-free discovery is granted.
    pub discovery: bool,
    /// Whether selecting an existing profile is granted.
    pub selection: bool,
    /// Whether requesting a disposable profile is granted.
    pub provisioning: bool,
}

/// Whether a grant set permits an operation.
pub open spec fn spec_permits(grants: ProfileSetupGrants, op: ProfileSetupOperation) -> bool {
    match spec_required_grant(op) {
        ProfileGrant::Discovery => grants.discovery,
        ProfileGrant::Selection => grants.selection,
        ProfileGrant::Provisioning => grants.provisioning,
    }
}

impl ProfileSetupGrants {
    /// Grants nothing; the deployment must widen this explicitly.
    pub fn none() -> (r: Self)
        ensures
            !r.discovery && !r.selection && !r.provisioning,
    {
        ProfileSetupGrants { discovery: false, selection: false, provisioning: false }
    }

    /// Whether this grant set permits `operation`.
    pub fn permits(self, operation: ProfileSetupOperation) -> (r: bool)
        ensures
            r == spec_permits(self, operation),
    {
        match operation.required_grant() {
            ProfileGrant::Discovery => self.discovery,
            ProfileGrant::Selection => self.selection,
            ProfileGrant::Provisioning => self.provisioning,
        }
    }
}

/// One authored save-profile setup operation.
#[derive(Clone, Debug)]
pub struct ProfileSetupRequest {
    /// The setup schema version this request was authored against.
    pub schema_version: String,
    /// The instance the operation targets.
    pub instance_id: String,
    /// The operation to map.
    pub operation: ProfileSetupOperationDocument,
    /// The profile to select, when the operation selects one.
    pub profile_id: Option<String>,
    /// The baseline fence a selection must carry.
    pub baseline: Option<ProfileBaselineFence>,
    /// The retained operation identity a receipt read names.
    pub operation_id: Option<String>,
    /// Whether the run this setup belongs to is already active.
    pub run_active: bool,
}

/// The serialized operation discriminator.
#[derive(Clone, Copy, Debug, PartialEq, Eq, Structural)]
pub enum ProfileSetupOperationDocument {
    List,
    Current,
    Status,
    Select,
    CreateDisposable,
}

pub open spec fn spec_document_operation(d: ProfileSetupOperationDocument) -> ProfileSetupOperation {
    match d {
        ProfileSetupOperationDocument::List => ProfileSetupOperation::List,
        ProfileSetupOperationDocument::Current => ProfileSetupOperation::Current,
        ProfileSetupOperationDocument::Status => ProfileSetupOperation::Status,
        ProfileSetupOperationDocument::Select => ProfileSetupOperation::Select,
        ProfileSetupOperationDocument::CreateDisposable => ProfileSetupOperation::CreateDisposable,
    }
}

impl ProfileSetupOperationDocument {
    /// The operation this document names.
    pub fn operation(self) -> (r: ProfileSetupOperation)
        ensures
            r == spec_document_operation(self),
    {
        match self {
            ProfileSetupOperationDocument::List => ProfileSetupOperation::List,
            ProfileSetupOperationDocument::Current => ProfileSetupOperation::Current,
            ProfileSetupOperationDocument::Status => ProfileSetupOperation::Status,
            ProfileSetupOperationDocument::Select => ProfileSetupOperation::Select,
            ProfileSetupOperationDocument::CreateDisposable => ProfileSetupOperation::CreateDisposable,
        }
    }
}

/// The view of an optional owned text.
pub open spec fn opt_text(o: Option<String>) -> Option<Seq<char>> {
    match o {
        Some(s) => Some(s@),
        None => None,
    }
}

/// The first structural refusal of a request, if any.
pub open spec fn request_shape_error(r: ProfileSetupRequest) -> Option<ProfileSetupError> {
    if r.schema_version@ != PROFILE_SETUP_SCHEMA_VERSION@ {
        Some(ProfileSetupError::Incompatible)
    } else if !spec_is_profile_identity(r.instance_id@) {
        Some(ProfileSetupError::InvalidRequest)
    } else if r.profile_id matches Some(p) && !spec_is_profile_identity(p@) {
        Some(ProfileSetupError::InvalidRequest)
    } else if r.operation_id matches Some(p) && !spec_is_profile_identity(p@) {
        Some(ProfileSetupError::InvalidRequest)
    } else if r.baseline matches Some(b) && !(spec_is_profile_identity(b.profile_id@)
        && is_lower_hex_digest(b.baseline_digest@)) {
        Some(ProfileSetupError::InvalidRequest)
    } else {
        None
    }
}

pub(crate) fn validate_request(request: &ProfileSetupRequest) -> (r: Result<(), ProfileSetupError>)
    ensures
        match request_shape_error(*request) {
            Some(e) => r == Err::<(), ProfileSetupError>(e),
            None => r is Ok,
        },
{
    if !(request.schema_version == PROFILE_SETUP_SCHEMA_VERSION.to_owned()) {
        return Err(ProfileSetupError::Incompatible);
    }
    if !is_instance_identity(request.instance_id.as_str()) {
        return Err(ProfileSetupError::InvalidRequest);
    }
    if let Some(profile_id) = &request.profile_id {
        if !is_profile_identity(profile_id.as_str()) {
            return Err(ProfileSetupError::InvalidRequest);
        }
    }
    if let Some(operation_id) = &request.operation_id {
        if !is_profile_identity(operation_id.as_str()) {
            return Err(ProfileSetupError::InvalidRequest);
        }
    }
    if let Some(baseline) = &request.baseline {
        baseline.validate()?;
    }
    Ok(())
}

} // verus!

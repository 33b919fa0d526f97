//! The fixed save-profile operation vocabulary and its accepted tool and route.

use vstd::prelude::*;

verus! {

pub const PROFILE_ROUTE_REVISION: &'static str = "save-profile-v1-mcp";

pub const PROFILE_ROUTE_CONTRACT: &'static str = "gateway-save-profile-v1";

/// The separate permission an operation requires.
#[derive(Clone, Copy, Debug, PartialEq, Eq, Structural)]
pub enum ProfileGrant {
    /// Listing, reading the current profile and reading a retained receipt.
    Discovery,
    /// Selecting one existing profile with an explicit baseline fence.
    Selection,
    /// Requesting one isolated disposable automation profile.
    Provisioning,
}

/// An authored save-profile setup operation.
#[derive(Clone, Copy, Debug, PartialEq, Eq, Structural)]
pub enum ProfileSetupOperation {
    List,
    Current,
    Status,
    Select,
    CreateDisposable,
}

/// The accepted MCP tool of an operation.
pub open spec fn spec_tool(op: ProfileSetupOperation) -> Seq<char> {
    match op {
        ProfileSetupOperation::List => "sts2.save_profile_list"@,
        ProfileSetupOperation::Current => "sts2.save_profile_current"@,
        ProfileSetupOperation::Status => "sts2.save_profile_status"@,
        ProfileSetupOperation::Select => "sts2.save_profile_select"@,
        ProfileSetupOperation::CreateDisposable => "sts2.save_profile_create_disposable"@,
    }
}

pub open spec fn spec_required_grant(op: ProfileSetupOperation) -> ProfileGrant {
    match op {
        ProfileSetupOperation::List | ProfileSetupOperation::Current | ProfileSetupOperation::Status => ProfileGrant::Discovery,
        ProfileSetupOperation::Select => ProfileGrant::Selection,
        ProfileSetupOperation::CreateDisposable => ProfileGrant::Provisioning,
    }
}

pub open spec fn spec_is_mutation(op: ProfileSetupOperation) -> bool {
    op == ProfileSetupOperation::Select || op == ProfileSetupOperation::CreateDisposable
}

pub open spec fn spec_route_suffix(op: ProfileSetupOperation) -> Seq<char> {
    match op {
        ProfileSetupOperation::List => "save-profiles"@,
        ProfileSetupOperation::Current => "save-profile/current"@,
        ProfileSetupOperation::Status => "save-profile/operations"@,
        ProfileSetupOperation::Select => "save-profile/select"@,
        ProfileSetupOperation::CreateDisposable => "save-profile/create-disposable"@,
    }
}

/// The gateway route of an operation on one instance.
pub open spec fn spec_route_path(
    op: ProfileSetupOperation,
    instance_id: Seq<char>,
    operation_id: Option<Seq<char>>,
) -> Seq<char> {
    let base = "/v1/instances/"@ + instance_id + "/"@ + spec_route_suffix(op);
    match operation_id {
        Some(id) if op == ProfileSetupOperation::Status => base + "/"@ + id,
        _ => base,
    }
}

impl ProfileSetupOperation {
    /// The accepted MCP tool name for this operation.
    pub fn tool(self) -> (r: &'static str)
        ensures
            r@ == spec_tool(self),
    {
        match self {
            ProfileSetupOperation::List => "sts2.save_profile_list",
            ProfileSetupOperation::Current => "sts2.save_profile_current",
            ProfileSetupOperation::Status => "sts2.save_profile_status",
            ProfileSetupOperation::Select => "sts2.save_profile_select",
            ProfileSetupOperation::CreateDisposable => "sts2.save_profile_create_disposable",
        }
    }

    /// The permission this operation requires.
    pub fn required_grant(self) -> (r: ProfileGrant)
        ensures
            r == spec_required_grant(self),
    {
        match self {
            ProfileSetupOperation::List | ProfileSetupOperation::Current | ProfileSetupOperation::Status => ProfileGrant::Discovery,
            ProfileSetupOperation::Select => ProfileGrant::Selection,
            ProfileSetupOperation::CreateDisposable => ProfileGrant::Provisioning,
        }
    }

    /// Whether this operation changes owner state.
    pub fn is_mutation(self) -> (r: bool)
        ensures
            r == spec_is_mutation(self),
    {
        match self {
            ProfileSetupOperation::Select | ProfileSetupOperation::CreateDisposable => true,
            _ => false,
        }
    }

    /// The fixed route suffix this operation targets.
    pub fn route_suffix(self) -> (r: &'static str)
        ensures
            r@ == spec_route_suffix(self),
    {
        match self {
            ProfileSetupOperation::List => "save-profiles",
            ProfileSetupOperation::Current => "save-profile/current",
            ProfileSetupOperation::Status => "save-profile/operations",
            ProfileSetupOperation::Select => "save-profile/select",
            ProfileSetupOperation::CreateDisposable => "save-profile/create-disposable",
        }
    }

    /// Whether this operation names one existing profile.
    pub fn requires_profile_id(self) -> (r: bool)
        ensures
            r == (self == ProfileSetupOperation::Select),
    {
        match self {
            ProfileSetupOperation::Select => true,
            _ => false,
        }
    }

    /// Whether this operation must carry an explicit baseline fence. Only
    /// selection is fenced.
    pub fn requires_baseline_fence(self) -> (r: bool)
        ensures
            r == (self == ProfileSetupOperation::Select),
    {
        match self {
            ProfileSetupOperation::Select => true,
            _ => false,
        }
    }

    /// Whether this operation reconciles a retained receipt by identity.
    pub fn requires_operation_id(self) -> (r: bool)
        ensures
            r == (self == ProfileSetupOperation::Status),
    {
        match self {
            ProfileSetupOperation::Status => true,
            _ => false,
        }
    }

    /// The gateway route for this operation on one validated instance.
    pub fn route_path(self, instance_id: &str, operation_id: Option<&str>) -> (r: String)
        ensures
            r@ == spec_route_path(
                self,
                instance_id@,
                match operation_id {
                    Some(id) => Some(id@),
                    None => None,
                },
            ),
    {
        let mut path = String::new();
        path.append("/v1/instances/");
        path.append(instance_id);
        path.append("/");
        path.append(self.route_suffix());
        match (self, operation_id) {
            (ProfileSetupOperation::Status, Some(id)) => {
                path.append("/");
                path.append(id);
            },
            _ => {},
        }
        proof {
            reveal_strlit("/v1/instances/");
            reveal_strlit("/");
        }
        path
    }
}

} // verus!

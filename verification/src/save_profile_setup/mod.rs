//! Typed, capability-gated admission of authored save-profile setup operations.
//!
//! Discovery is effect-free: a read operation that names a profile or a
//! baseline fence is refused. A disposable provision may not carry a baseline
//! fence, because that baseline does not exist until the gateway allocates it.
//! No route is assembled from supplied text beyond validated identities.

mod error;
mod operation;
mod request;
mod setup;

pub use error::ProfileSetupError;
pub use operation::{PROFILE_ROUTE_CONTRACT, PROFILE_ROUTE_REVISION, ProfileGrant, ProfileSetupOperation};
pub use request::{
    MAX_PROFILE_ID_BYTES, PROFILE_SETUP_SCHEMA_VERSION, ProfileBaselineFence, ProfileSetupGrants,
    ProfileSetupOperationDocument, ProfileSetupRequest, is_instance_identity, is_profile_identity,
};
pub use setup::{AdmittedProfileSetup, ProfileReadback, VerifiedProfileReadback, admit_profile_setup};

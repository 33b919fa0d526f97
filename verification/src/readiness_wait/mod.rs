//! Identity-bound gameplay-readiness waits: a versioned milestone target with a
//! bounded deadline, and a per-generation wait that only a fresh, correctly
//! bound authoritative observation can settle.

mod error;
mod milestone;
mod target;
mod wait;

pub use error::ReadinessWaitError;
pub use milestone::ReadinessMilestone;
pub use target::{
    READINESS_CONTRACT_VERSION, ReadinessTarget, STANDARD_READINESS_DEADLINE_MS,
    STANDARD_READINESS_MAX_ATTEMPTS,
};
pub use wait::{ReadinessProgress, ReadinessTerminal, ReadinessWait, ReadinessWaitView};

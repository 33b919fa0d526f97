//! The managed context render of one served decision: the render source an
//! owner publishes for it, the bounds it is rendered under, the prepared bytes
//! the provider will be sent, and the admission of those exact bytes against
//! the selected whole-input bound.

use vstd::prelude::*;
use crate::digest::{decimal, decimal_of};
use crate::error::{ErrorClass, ManagementError, refusal};
use crate::live_node::DecisionInput;
use crate::served_boundary::ContextRenderSourceIdentity;

verus! {

/// The bounds a render source is rendered under: the selected whole-input
/// window, and the output reserve the owner publishes inside it, if any.
#[derive(Clone, Copy, Debug, PartialEq, Eq, Structural)]
pub struct ContextRenderLimits {
    pub max_context_bytes: u64,
    pub output_reserve_bytes: Option<u64>,
}

/// What an owner-authored render port publishes for one decision.
#[derive(Clone, Debug)]
pub struct ContextRenderSource {
    pub identity: ContextRenderSourceIdentity,
    pub limits: ContextRenderLimits,
}

/// The exact bytes a managed decision will send, and the provider revision
/// they were assembled for.
#[derive(Clone, Debug)]
pub struct PreparedContext {
    pub provider_bytes: Vec<u8>,
    pub provider_revision: String,
}

/// The owner-authored render port of a served composition.
pub trait LiveContextRenderPort {
    /// Whether decisions must be rendered through this port.
    fn render_required(&self) -> bool;

    /// The render source one decision is rendered from.
    fn render_source_for_decision(&self, input: &DecisionInput, context_ref: &str) -> Result<
        ContextRenderSource,
        ManagementError,
    >;

    /// Refuses unless the source a decision was rendered from is still the
    /// current one.
    fn assert_render_source_current(
        &self,
        input: &DecisionInput,
        context_ref: &str,
        identity: &ContextRenderSourceIdentity,
    ) -> Result<(), ManagementError>;
}

/// Whether assembled input bytes fit the selected whole-input window together
/// with the published output reserve. With no reserve published there is no
/// separate bound to apply.
pub open spec fn input_admitted(limits: ContextRenderLimits, input_bytes: nat) -> bool {
    match limits.output_reserve_bytes {
        None => true,
        Some(reserve) => reserve > 0 && input_bytes + reserve <= limits.max_context_bytes,
    }
}

/// The message of an input over its combined window.
pub open spec fn over_window_message(input_bytes: nat, reserve: nat, window: nat) -> Seq<char> {
    "input "@ + decimal_of(input_bytes) + " plus output reserve "@ + decimal_of(reserve)
        + " exceeds the combined window "@ + decimal_of(window)
}

/// Admits the exact assembled provider bytes against the selected
/// whole-input bound before any provider write. A published reserve of zero
/// is refused as an invalid budget, never treated as unlimited.
pub fn admit_assembled_managed_input(limits: &ContextRenderLimits, input_bytes: u64) -> (r: Result<
    (),
    ManagementError,
>)
    ensures
        r is Ok <==> input_admitted(*limits, input_bytes as nat),
        limits.output_reserve_bytes == Some(0u64) ==> (r matches Err(e) && e.refusal() == refusal(
            ErrorClass::Capability,
            "context_whole_input_budget_invalid",
        )),
        limits.output_reserve_bytes matches Some(reserve) ==> (reserve > 0 && !input_admitted(
            *limits,
            input_bytes as nat,
        ) ==> (r matches Err(e) && e.refusal() == refusal(
            ErrorClass::Capability,
            "context_whole_input_budget_exceeded",
        ) && e.message@ == over_window_message(
            input_bytes as nat,
            reserve as nat,
            limits.max_context_bytes as nat,
        ))),
{
    let reserve = match limits.output_reserve_bytes {
        None => return Ok(()),
        Some(reserve) => reserve,
    };
    if reserve == 0 {
        return Err(
            ManagementError::capability(
                "context_whole_input_budget_invalid",
                "the published output_reserve_bytes must be positive",
            ),
        );
    }
    if input_bytes > limits.max_context_bytes || reserve > limits.max_context_bytes - input_bytes {
        let mut message = "input ".to_owned();
        message.append(decimal(input_bytes).as_str());
        message.append(" plus output reserve ");
        message.append(decimal(reserve).as_str());
        message.append(" exceeds the combined window ");
        message.append(decimal(limits.max_context_bytes).as_str());
        proof {
            reveal_strlit("input ");
            reveal_strlit(" plus output reserve ");
            reveal_strlit(" exceeds the combined window ");
        }
        return Err(
            ManagementError::capability("context_whole_input_budget_exceeded", message.as_str()),
        );
    }
    Ok(())
}

} // verus!

//! The episode values a live node reads: observations, the legal actions of a
//! state, the identity of one dispatched action, and what the gateway reports
//! about a dispatch.

use vstd::prelude::*;
use crate::error::{ManagementError, text_is};
use crate::identity::{is_identifier, is_identifier_text};

verus! {

/// One observed episode state: its identity and generation.
#[derive(Debug)]
pub struct EpisodeObservation {
    pub state_id: String,
    pub generation: u64,
}

/// An observation as plain values.
pub struct ObservationView {
    pub state_id: Seq<char>,
    pub generation: u64,
}

impl View for EpisodeObservation {
    type V = ObservationView;

    open spec fn view(&self) -> ObservationView {
        ObservationView { state_id: self.state_id@, generation: self.generation }
    }
}

impl Clone for EpisodeObservation {
    fn clone(&self) -> (r: Self)
        ensures
            r@ == self@,
    {
        EpisodeObservation { state_id: self.state_id.clone(), generation: self.generation }
    }
}

/// An optional observation as plain values.
pub open spec fn observation_view(o: Option<EpisodeObservation>) -> Option<ObservationView> {
    match o {
        Some(x) => Some(x@),
        None => None,
    }
}

impl EpisodeObservation {
    pub fn new(state_id: &str, generation: u64) -> (r: Self)
        ensures
            r@ == (ObservationView { state_id: state_id@, generation }),
    {
        EpisodeObservation { state_id: state_id.to_owned(), generation }
    }

    pub fn state_id(&self) -> (r: &str)
        ensures
            r@ == self.state_id@,
    {
        self.state_id.as_str()
    }

    pub fn generation(&self) -> (r: u64)
        ensures
            r == self.generation,
    {
        self.generation
    }
}

/// One legal action: its identity and its kind label.
#[derive(Debug)]
pub struct EpisodeLegalAction {
    pub action_id: String,
    pub kind: String,
}

/// A legal action as plain values.
pub struct ActionView {
    pub action_id: Seq<char>,
    pub kind: Seq<char>,
}

impl View for EpisodeLegalAction {
    type V = ActionView;

    open spec fn view(&self) -> ActionView {
        ActionView { action_id: self.action_id@, kind: self.kind@ }
    }
}

impl Clone for EpisodeLegalAction {
    fn clone(&self) -> (r: Self)
        ensures
            r@ == self@,
    {
        EpisodeLegalAction { action_id: self.action_id.clone(), kind: self.kind.clone() }
    }
}

impl EpisodeLegalAction {
    pub fn new(action_id: &str, kind: &str) -> (r: Self)
        ensures
            r@ == (ActionView { action_id: action_id@, kind: kind@ }),
    {
        EpisodeLegalAction { action_id: action_id.to_owned(), kind: kind.to_owned() }
    }

    pub fn action_id(&self) -> (r: &str)
        ensures
            r@ == self.action_id@,
    {
        self.action_id.as_str()
    }
}

/// Whether two legal actions are the same action.
pub fn same_action(a: &EpisodeLegalAction, b: &EpisodeLegalAction) -> (r: bool)
    ensures
        r == (a@ == b@),
{
    a.action_id == b.action_id && a.kind == b.kind
}

/// The legal actions of one observed state.
#[derive(Debug)]
pub struct EpisodeLegalActionSet {
    pub state_id: String,
    pub generation: u64,
    pub actions: Vec<EpisodeLegalAction>,
}

/// A legal-action catalog as plain values.
pub struct CatalogView {
    pub state_id: Seq<char>,
    pub generation: u64,
    pub actions: Seq<ActionView>,
}

/// The views of a sequence of legal actions.
pub open spec fn action_views(v: Seq<EpisodeLegalAction>) -> Seq<ActionView> {
    v.map_values(|a: EpisodeLegalAction| a@)
}

impl View for EpisodeLegalActionSet {
    type V = CatalogView;

    open spec fn view(&self) -> CatalogView {
        CatalogView {
            state_id: self.state_id@,
            generation: self.generation,
            actions: action_views(self.actions@),
        }
    }
}

impl Clone for EpisodeLegalActionSet {
    fn clone(&self) -> (r: Self)
        ensures
            r@ == self@,
    {
        let mut actions: Vec<EpisodeLegalAction> = Vec::new();
        let mut i: usize = 0;
        while i < self.actions.len()
            invariant
                i <= self.actions.len(),
                actions.len() == i,
                forall|k: int| 0 <= k < i ==> #[trigger] actions@[k]@ == self.actions@[k]@,
            decreases self.actions.len() - i,
        {
            actions.push(self.actions[i].clone());
            i = i + 1;
        }
        assert(action_views(actions@) =~= action_views(self.actions@));
        EpisodeLegalActionSet {
            state_id: self.state_id.clone(),
            generation: self.generation,
            actions,
        }
    }
}

/// The first action of a catalog carrying an action identity, if any.
pub open spec fn find_action(actions: Seq<ActionView>, action_id: Seq<char>) -> Option<ActionView>
    decreases actions.len(),
{
    if actions.len() == 0 {
        None
    } else if actions[0].action_id == action_id {
        Some(actions[0])
    } else {
        find_action(actions.drop_first(), action_id)
    }
}

/// The action found for an identity carries that identity.
pub proof fn lemma_find_action_id(actions: Seq<ActionView>, action_id: Seq<char>)
    ensures
        find_action(actions, action_id) matches Some(a) ==> a.action_id == action_id,
    decreases actions.len(),
{
    if actions.len() > 0 {
        lemma_find_action_id(actions.drop_first(), action_id);
    }
}

impl EpisodeLegalActionSet {
    pub fn new(state_id: &str, generation: u64, actions: Vec<EpisodeLegalAction>) -> (r: Self)
        ensures
            r@ == (CatalogView { state_id: state_id@, generation, actions: action_views(actions@) }),
    {
        EpisodeLegalActionSet { state_id: state_id.to_owned(), generation, actions }
    }

    /// The action carrying an action identity, if the catalog offers it.
    pub fn find(&self, action_id: &str) -> (r: Option<&EpisodeLegalAction>)
        ensures
            match find_action(self@.actions, action_id@) {
                Some(a) => r matches Some(x) && x@ == a,
                None => r is None,
            },
            r matches Some(x) ==> x.action_id@ == action_id@,
    {
        proof {
            lemma_find_action_id(self@.actions, action_id@);
        }
        let ghost s = action_views(self.actions@);
        let mut i: usize = 0;
        assert(s.skip(0) =~= s);
        while i < self.actions.len()
            invariant
                i <= self.actions.len(),
                s == action_views(self.actions@),
                find_action(s, action_id@) == find_action(s.skip(i as int), action_id@),
            decreases self.actions.len() - i,
        {
            assert(s.skip(i as int).drop_first() =~= s.skip(i + 1));
            assert(s.skip(i as int)[0] == s[i as int]);
            if text_is(&self.actions[i].action_id, action_id) {
                return Some(&self.actions[i]);
            }
            i = i + 1;
        }
        assert(s.skip(i as int).len() == 0);
        None
    }
}

/// The identity of one dispatched action: the operation and the exact state,
/// generation and action it was admitted against.
#[derive(Debug)]
pub struct ActionIdentity {
    pub operation_id: String,
    pub state_id: String,
    pub generation: u64,
    pub action_id: String,
}

/// An action identity as plain values.
pub struct IdentityView {
    pub operation_id: Seq<char>,
    pub state_id: Seq<char>,
    pub generation: u64,
    pub action_id: Seq<char>,
}

impl View for ActionIdentity {
    type V = IdentityView;

    open spec fn view(&self) -> IdentityView {
        IdentityView {
            operation_id: self.operation_id@,
            state_id: self.state_id@,
            generation: self.generation,
            action_id: self.action_id@,
        }
    }
}

impl Clone for ActionIdentity {
    fn clone(&self) -> (r: Self)
        ensures
            r@ == self@,
    {
        ActionIdentity {
            operation_id: self.operation_id.clone(),
            state_id: self.state_id.clone(),
            generation: self.generation,
            action_id: self.action_id.clone(),
        }
    }
}

/// Whether the parts of an action identity are portable identifiers.
pub open spec fn identity_is_valid(
    operation_id: Seq<char>,
    state_id: Seq<char>,
    action_id: Seq<char>,
) -> bool {
    is_identifier(operation_id) && is_identifier(state_id) && is_identifier(action_id)
}

impl ActionIdentity {
    /// An action identity, refused unless each part is a portable identifier.
    pub fn new(operation_id: &str, state_id: &str, generation: u64, action_id: &str) -> (r: Result<
        Self,
        ManagementError,
    >)
        ensures
            identity_is_valid(operation_id@, state_id@, action_id@) <==> r is Ok,
            r matches Ok(x) ==> x@ == (IdentityView {
                operation_id: operation_id@,
                state_id: state_id@,
                generation,
                action_id: action_id@,
            }),
    {
        if !is_identifier_text(operation_id) || !is_identifier_text(state_id)
            || !is_identifier_text(action_id) {
            return Err(
                ManagementError::invalid(
                    "invalid_action_identity",
                    "action identity parts must be portable identifiers",
                ),
            );
        }
        Ok(
            ActionIdentity {
                operation_id: operation_id.to_owned(),
                state_id: state_id.to_owned(),
                generation,
                action_id: action_id.to_owned(),
            },
        )
    }
}

/// What the gateway reports about one dispatch.
#[derive(Clone, Copy, Debug, PartialEq, Eq, Structural)]
pub enum DispatchStatus {
    /// Accepted, with the transition not yet observed.
    Accepted,
    /// Refused before any effect.
    Rejected,
    /// Withdrawn before any effect.
    Cancelled,
    /// The gateway may or may not have applied the action.
    Unknown,
    /// Applied, with the successor state observed.
    Settled,
}

/// The gateway's receipt for one dispatch.
#[derive(Debug)]
pub struct TransitionReceipt {
    pub operation_id: String,
    pub action: EpisodeLegalAction,
    pub status: DispatchStatus,
    pub after: Option<EpisodeObservation>,
    pub effect_kind: Option<String>,
}

/// A receipt as plain values.
pub struct ReceiptView {
    pub operation_id: Seq<char>,
    pub action: ActionView,
    pub status: DispatchStatus,
    pub after: Option<ObservationView>,
    pub effect_kind: Option<Seq<char>>,
}

impl View for TransitionReceipt {
    type V = ReceiptView;

    open spec fn view(&self) -> ReceiptView {
        ReceiptView {
            operation_id: self.operation_id@,
            action: self.action@,
            status: self.status,
            after: observation_view(self.after),
            effect_kind: match self.effect_kind {
                Some(e) => Some(e@),
                None => None,
            },
        }
    }
}

/// An optional receipt as plain values.
pub open spec fn receipt_view(r: Option<TransitionReceipt>) -> Option<ReceiptView> {
    match r {
        Some(x) => Some(x@),
        None => None,
    }
}

impl TransitionReceipt {
    pub fn new(
        operation_id: &str,
        action: EpisodeLegalAction,
        status: DispatchStatus,
        after: Option<EpisodeObservation>,
        effect_kind: Option<String>,
    ) -> (r: Self)
        ensures
            r@ == (ReceiptView {
                operation_id: operation_id@,
                action: action@,
                status,
                after: observation_view(after),
                effect_kind: match effect_kind {
                    Some(e) => Some(e@),
                    None => None,
                },
            }),
    {
        TransitionReceipt { operation_id: operation_id.to_owned(), action, status, after, effect_kind }
    }

    pub fn status(&self) -> (r: DispatchStatus)
        ensures
            r == self.status,
    {
        self.status
    }

    pub fn operation_id(&self) -> (r: &str)
        ensures
            r@ == self.operation_id@,
    {
        self.operation_id.as_str()
    }
}

/// How a bounded wait for a dispatched action's transition ended.
#[derive(Clone, Copy, Debug, PartialEq, Eq, Structural)]
pub enum WaitOutcome {
    /// A successor state was observed.
    Successor,
    /// The same state was observed mutated.
    SameStateMutation,
    /// Nothing changed within the bound.
    Timeout,
}

/// One bounded wait's result: how it ended, and what it observed.
#[derive(Debug)]
pub struct WaitSample {
    pub outcome: WaitOutcome,
    pub observation: Option<EpisodeObservation>,
    pub effect_kind: Option<String>,
}

impl WaitSample {
    pub fn new(outcome: WaitOutcome, observation: Option<EpisodeObservation>) -> (r: Self)
        ensures
            r.outcome == outcome,
            observation_view(r.observation) == observation_view(observation),
            r.effect_kind is None,
    {
        WaitSample { outcome, observation, effect_kind: None }
    }

    /// The same sample naming the effect the transition had.
    pub fn with_effect_kind(self, effect_kind: &str) -> (r: Self)
        ensures
            r.outcome == self.outcome,
            observation_view(r.observation) == observation_view(self.observation),
            r.effect_kind matches Some(e) && e@ == effect_kind@,
    {
        WaitSample {
            outcome: self.outcome,
            observation: self.observation,
            effect_kind: Some(effect_kind.to_owned()),
        }
    }
}

} // verus!

//! The log of the commands a policy command port handed its durable owner.
//! Only the methods here add to it, and each one makes the call it records.

use vstd::prelude::*;
use crate::provider_policy::{ProviderSessionPolicyOwner, ProviderSessionPolicyOwnerError};

verus! {

/// One command handed to the policy owner, with its arguments and answer.
pub enum OwnerCall {
    Import(Seq<u8>, u64, Result<Seq<char>, ProviderSessionPolicyOwnerError>),
    Propose(Seq<char>, Seq<char>, Seq<u8>, u64, Result<Seq<char>, ProviderSessionPolicyOwnerError>),
    Approve(Seq<char>, Seq<char>, Seq<char>, u64, Result<(), ProviderSessionPolicyOwnerError>),
    Adopt(Seq<char>, Seq<char>, Seq<char>, u64, Result<(), ProviderSessionPolicyOwnerError>),
    AdoptImported(Seq<char>, u64, Result<(), ProviderSessionPolicyOwnerError>),
}

/// The commands handed to a policy owner, in order.
pub struct OwnerLog {
    entries: Ghost<Seq<OwnerCall>>,
}

impl View for OwnerLog {
    type V = Seq<OwnerCall>;

    closed spec fn view(&self) -> Seq<OwnerCall> {
        self.entries@
    }
}

/// The owner's answer with its text as plain values.
pub open spec fn text_answer(r: Result<String, ProviderSessionPolicyOwnerError>) -> Result<
    Seq<char>,
    ProviderSessionPolicyOwnerError,
> {
    match r {
        Ok(s) => Ok(s@),
        Err(e) => Err(e),
    }
}

impl OwnerLog {
    pub fn new() -> (r: Self)
        ensures
            r@ == Seq::<OwnerCall>::empty(),
    {
        OwnerLog { entries: Ghost(Seq::empty()) }
    }

    pub fn import_at_revision<O: ProviderSessionPolicyOwner>(
        &mut self,
        owner: &O,
        policy_bytes: Vec<u8>,
        expected_revision: u64,
    ) -> (r: Result<String, ProviderSessionPolicyOwnerError>)
        ensures
            final(self)@ == old(self)@.push(
                OwnerCall::Import(policy_bytes@, expected_revision, text_answer(r)),
            ),
    {
        let ghost bytes = policy_bytes@;
        let r = owner.import_at_revision(policy_bytes, expected_revision);
        self.entries = Ghost(
            self.entries@.push(OwnerCall::Import(bytes, expected_revision, text_answer(r))),
        );
        r
    }

    pub fn propose<O: ProviderSessionPolicyOwner>(
        &mut self,
        owner: &O,
        proposal_id: &str,
        source_sha256: &str,
        target_policy_bytes: Vec<u8>,
        expected_revision: u64,
    ) -> (r: Result<String, ProviderSessionPolicyOwnerError>)
        ensures
            final(self)@ == old(self)@.push(
                OwnerCall::Propose(
                    proposal_id@,
                    source_sha256@,
                    target_policy_bytes@,
                    expected_revision,
                    text_answer(r),
                ),
            ),
    {
        let ghost bytes = target_policy_bytes@;
        let r = owner.propose(proposal_id, source_sha256, target_policy_bytes, expected_revision);
        self.entries = Ghost(
            self.entries@.push(
                OwnerCall::Propose(
                    proposal_id@,
                    source_sha256@,
                    bytes,
                    expected_revision,
                    text_answer(r),
                ),
            ),
        );
        r
    }

    pub fn approve_at_revision<O: ProviderSessionPolicyOwner>(
        &mut self,
        owner: &O,
        proposal_id: &str,
        proposal_sha256: &str,
        approval_ref: &str,
        expected_revision: u64,
    ) -> (r: Result<(), ProviderSessionPolicyOwnerError>)
        ensures
            final(self)@ == old(self)@.push(
                OwnerCall::Approve(
                    proposal_id@,
                    proposal_sha256@,
                    approval_ref@,
                    expected_revision,
                    r,
                ),
            ),
    {
        let r = owner.approve_at_revision(
            proposal_id,
            proposal_sha256,
            approval_ref,
            expected_revision,
        );
        self.entries = Ghost(
            self.entries@.push(
                OwnerCall::Approve(
                    proposal_id@,
                    proposal_sha256@,
                    approval_ref@,
                    expected_revision,
                    r,
                ),
            ),
        );
        r
    }

    pub fn adopt<O: ProviderSessionPolicyOwner>(
        &mut self,
        owner: &O,
        proposal_id: &str,
        proposal_sha256: &str,
        approval_ref: &str,
        expected_revision: u64,
    ) -> (r: Result<(), ProviderSessionPolicyOwnerError>)
        ensures
            final(self)@ == old(self)@.push(
                OwnerCall::Adopt(
                    proposal_id@,
                    proposal_sha256@,
                    approval_ref@,
                    expected_revision,
                    r,
                ),
            ),
    {
        let r = owner.adopt(proposal_id, proposal_sha256, approval_ref, expected_revision);
        self.entries = Ghost(
            self.entries@.push(
                OwnerCall::Adopt(
                    proposal_id@,
                    proposal_sha256@,
                    approval_ref@,
                    expected_revision,
                    r,
                ),
            ),
        );
        r
    }

    pub fn adopt_imported<O: ProviderSessionPolicyOwner>(
        &mut self,
        owner: &O,
        policy_sha256: &str,
        expected_revision: u64,
    ) -> (r: Result<(), ProviderSessionPolicyOwnerError>)
        ensures
            final(self)@ == old(self)@.push(
                OwnerCall::AdoptImported(policy_sha256@, expected_revision, r),
            ),
    {
        let r = owner.adopt_imported(policy_sha256, expected_revision);
        self.entries = Ghost(
            self.entries@.push(OwnerCall::AdoptImported(policy_sha256@, expected_revision, r)),
        );
        r
    }
}

} // verus!

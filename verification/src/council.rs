//! The council: operations that take the approval of a quorum of its members.

use crate::address::Address;
use crate::contract::TrustLinkContract;
use crate::env::{Env, EnvView};
use crate::events::{Event, EventView};
use crate::list::{has_address, push};
use crate::storage::{find, Storage};
use crate::types::{
    AdminCouncil, AdminCouncilView, CouncilOperation, CouncilProposal, CouncilProposalView, Error,
};
use crate::validation::{first, refusal, settled, unless, Validation};
use vstd::prelude::*;

verus! {

impl EnvView {
    /// Setting up the council takes an administrator and a quorum that its members can reach.
    pub open spec fn init_council_error(
        self,
        admin: Address,
        members: Seq<Address>,
        quorum: u32,
    ) -> Option<Error> {
        first(
            self.admin_error(admin),
            unless(0 < quorum <= members.len(), Error::InvalidQuorum),
        )
    }

    /// The ledger once the council has been set up.
    pub open spec fn council_set_up(self, members: Seq<Address>, quorum: u32) -> EnvView {
        self.with_council(AdminCouncilView { members, quorum }).publish(
            EventView::CouncilInitialized { quorum, member_count: members.len() },
        )
    }

    /// There is a council.
    pub open spec fn no_council_error(self) -> Option<Error> {
        unless(self.council is Some, Error::CouncilNotInitialized)
    }

    /// `address` is a member of the council.
    pub open spec fn member_error(self, address: Address) -> Option<Error> {
        unless(self.council->0.members.contains(address), Error::Unauthorized)
    }

    /// There is an open proposal with the given number.
    pub open spec fn open_proposal_error(self, id: u32) -> Option<Error> {
        first(
            unless(self.council_proposals.contains_key(id), Error::NotFound),
            unless(!self.council_proposals[id].executed, Error::AlreadyExecuted),
        )
    }

    /// Putting an operation to the council takes one of its members.
    pub open spec fn propose_action_error(self, proposer: Address) -> Option<Error> {
        first(self.no_council_error(), self.member_error(proposer))
    }

    /// The proposal as it starts out: approved by the proposer alone.
    pub open spec fn action_proposal(
        self,
        proposer: Address,
        operation: CouncilOperation,
    ) -> CouncilProposalView {
        CouncilProposalView {
            id: (self.proposal_counter + 1) as u32,
            operation,
            proposer,
            approvals: seq![proposer],
            executed: false,
        }
    }

    /// The ledger once the operation has been put to the council.
    pub open spec fn action_proposed(
        self,
        proposer: Address,
        operation: CouncilOperation,
    ) -> EnvView {
        let p = self.action_proposal(proposer, operation);
        EnvView { proposal_counter: p.id, ..self }.with_council_proposal(p).publish(
            EventView::ProposalCreated { id: p.id, proposer },
        )
    }

    /// Approving takes an open proposal and a member of the council that has not approved it.
    pub open spec fn approve_action_error(self, approver: Address, id: u32) -> Option<Error> {
        first(
            self.no_council_error(),
            first(
                self.open_proposal_error(id),
                first(
                    self.member_error(approver),
                    unless(
                        !self.council_proposals[id].approvals.contains(approver),
                        Error::AlreadyApproved,
                    ),
                ),
            ),
        )
    }

    /// The ledger once `approver` has approved the proposal.
    pub open spec fn action_approved(self, approver: Address, id: u32) -> EnvView {
        let p = self.council_proposals[id];
        self.with_council_proposal(
            CouncilProposalView { approvals: p.approvals.push(approver), ..p },
        ).publish(EventView::ProposalApproved { id, approver })
    }

    /// Carrying out takes an open proposal, a member of the council and approvals enough.
    pub open spec fn execute_action_error(self, executor: Address, id: u32) -> Option<Error> {
        first(
            self.no_council_error(),
            first(
                self.open_proposal_error(id),
                first(
                    self.member_error(executor),
                    unless(
                        self.council_proposals[id].approvals.len() >= self.council->0.quorum,
                        Error::QuorumNotReached,
                    ),
                ),
            ),
        )
    }

    /// The ledger once the operation has been carried out. The removal of an issuer is published
    /// in the name of the first member.
    pub open spec fn operated(self, operation: CouncilOperation) -> EnvView {
        match operation {
            CouncilOperation::RemoveIssuer(issuer) => {
                let members = self.council->0.members;
                if members.len() > 0 {
                    self.without_issuer(issuer).publish(
                        EventView::IssuerRemoved {
                            issuer,
                            admin: members[0],
                            timestamp: self.timestamp,
                        },
                    )
                } else {
                    self.without_issuer(issuer)
                }
            },
            CouncilOperation::PauseContract => self.with_paused(true),
        }
    }

    /// The ledger once the proposal has been carried out.
    pub open spec fn action_executed(self, id: u32) -> EnvView {
        let p = self.council_proposals[id];
        self.operated(p.operation).with_council_proposal(
            CouncilProposalView { executed: true, ..p },
        ).publish(EventView::ProposalExecuted { id })
    }
}

/// The council. Fails with [`Error::CouncilNotInitialized`] where there is none.
fn load_council(env: &Env) -> (r: Result<AdminCouncil, Error>)
    ensures
        refusal(r) == env@.no_council_error(),
        r is Ok ==> env@.council == Some(r->Ok_0@),
{
    match Storage::get_council(env) {
        Some(council) => Ok(council),
        None => Err(Error::CouncilNotInitialized),
    }
}

/// The open proposal with the given number.
fn load_open_proposal(env: &Env, id: u32) -> (r: Result<CouncilProposal, Error>)
    ensures
        refusal(r) == env@.open_proposal_error(id),
        r is Ok ==> r->Ok_0@ == env@.council_proposals[id],
{
    match Storage::get_proposal(env, id) {
        Some(proposal) => {
            if proposal.executed {
                return Err(Error::AlreadyExecuted);
            }
            Ok(proposal)
        },
        None => Err(Error::NotFound),
    }
}

/// Carries out an operation of the council.
fn operate(env: &mut Env, council: &AdminCouncil, operation: CouncilOperation)
    requires
        old(env)@.council == Some(council@),
    ensures
        final(env)@ == old(env)@.operated(operation),
{
    match operation {
        CouncilOperation::RemoveIssuer(issuer) => {
            Storage::remove_issuer(env, &issuer);
            if council.members.len() > 0 {
                let admin = council.members[0];
                assert(admin == council@.members[0]);
                let timestamp = env.timestamp;
                env.publish(Event::IssuerRemoved { issuer, admin, timestamp });
            }
        },
        CouncilOperation::PauseContract => {
            Storage::set_paused(env, true);
        },
    }
}

impl TrustLinkContract {
    /// Sets up the council, or sets it up anew.
    pub fn init_council(env: &mut Env, admin: Address, members: Vec<Address>, quorum: u32) -> (r:
        Result<(), Error>)
        requires
            old(env)@.authorized(admin),
        ensures
            refusal(r) == old(env)@.init_council_error(admin, members.deep_view(), quorum),
            final(env)@ == settled(
                old(env)@.init_council_error(admin, members.deep_view(), quorum),
                old(env)@.council_set_up(members.deep_view(), quorum),
                old(env)@,
            ),
    {
        Validation::require_admin(env, &admin)?;
        let member_count = members.len();
        if quorum == 0 || quorum as u64 > member_count as u64 {
            return Err(Error::InvalidQuorum);
        }
        let council = AdminCouncil { members, quorum };
        Storage::set_council(env, &council);
        env.publish(Event::CouncilInitialized { quorum, member_count });
        Ok(())
    }

    /// Puts an operation to the council, and approves it. Returns the number of the proposal.
    pub fn propose_council_action(
        env: &mut Env,
        proposer: Address,
        operation: CouncilOperation,
    ) -> (r: Result<u32, Error>)
        requires
            old(env)@.authorized(proposer),
            old(env)@.propose_action_error(proposer) is None ==> old(env)@.proposal_counter
                < u32::MAX,
        ensures
            refusal(r) == old(env)@.propose_action_error(proposer),
            r is Ok ==> r->Ok_0 == old(env)@.proposal_counter + 1,
            final(env)@ == settled(
                old(env)@.propose_action_error(proposer),
                old(env)@.action_proposed(proposer, operation),
                old(env)@,
            ),
    {
        let ghost expected = env@.action_proposal(proposer, operation);
        let council = load_council(env)?;
        if !has_address(&council.members, &proposer) {
            return Err(Error::Unauthorized);
        }
        let id = Storage::next_proposal_id(env);
        let mut approvals: Vec<Address> = Vec::new();
        approvals.push(proposer);
        assert(approvals.deep_view() =~= seq![proposer]);
        let proposal = CouncilProposal { id, operation, proposer, approvals, executed: false };
        assert(proposal@ =~= expected);
        Storage::set_proposal(env, &proposal);
        env.publish(Event::ProposalCreated { id, proposer });
        Ok(id)
    }

    /// Approves a proposal.
    pub fn approve_council_action(env: &mut Env, approver: Address, proposal_id: u32) -> (r: Result<
        (),
        Error,
    >)
        requires
            old(env)@.authorized(approver),
        ensures
            refusal(r) == old(env)@.approve_action_error(approver, proposal_id),
            final(env)@ == settled(
                old(env)@.approve_action_error(approver, proposal_id),
                old(env)@.action_approved(approver, proposal_id),
                old(env)@,
            ),
    {
        let council = load_council(env)?;
        let mut proposal = load_open_proposal(env, proposal_id)?;
        let ghost before = proposal@;
        if !has_address(&council.members, &approver) {
            return Err(Error::Unauthorized);
        }
        if has_address(&proposal.approvals, &approver) {
            return Err(Error::AlreadyApproved);
        }
        push(&mut proposal.approvals, approver);
        assert(proposal@ =~= (CouncilProposalView {
            approvals: before.approvals.push(approver),
            ..before
        }));
        Storage::set_proposal(env, &proposal);
        env.publish(Event::ProposalApproved { id: proposal_id, approver });
        Ok(())
    }

    /// Carries out a proposal that a quorum has approved.
    pub fn execute_council_action(env: &mut Env, executor: Address, proposal_id: u32) -> (r: Result<
        (),
        Error,
    >)
        requires
            old(env)@.authorized(executor),
        ensures
            refusal(r) == old(env)@.execute_action_error(executor, proposal_id),
            final(env)@ == settled(
                old(env)@.execute_action_error(executor, proposal_id),
                old(env)@.action_executed(proposal_id),
                old(env)@,
            ),
    {
        let council = load_council(env)?;
        let mut proposal = load_open_proposal(env, proposal_id)?;
        let ghost before = proposal@;
        if !has_address(&council.members, &executor) {
            return Err(Error::Unauthorized);
        }
        if (proposal.approvals.len() as u64) < council.quorum as u64 {
            return Err(Error::QuorumNotReached);
        }
        operate(env, &council, proposal.operation);
        proposal.executed = true;
        assert(proposal@ =~= (CouncilProposalView { executed: true, ..before }));
        Storage::set_proposal(env, &proposal);
        env.publish(Event::ProposalExecuted { id: proposal_id });
        Ok(())
    }

    /// The council, if it was set up.
    pub fn get_council(env: &Env) -> (r: Option<AdminCouncil>)
        ensures
            r.deep_view() == env@.council,
    {
        Storage::get_council(env)
    }

    /// The proposal with the given number, if there is one.
    pub fn get_council_proposal(env: &Env, proposal_id: u32) -> (r: Option<CouncilProposal>)
        ensures
            r.deep_view() == find(env@.council_proposals, proposal_id),
    {
        Storage::get_proposal(env, proposal_id)
    }
}

} // verus!

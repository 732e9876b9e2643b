//! What the requests about the council do to the ledger.

use crate::address::Address;
use crate::env::EnvView;
use crate::events::{EffectView, EventView};
use crate::storage::StorageKeyView;
use crate::types::{AdminCouncilView, CouncilOperation, CouncilProposalView, Error};
use vstd::prelude::*;

verus! {

/// A council can be set up by an administrator with any quorum from one up to the number of its
/// members, and then has those members and that quorum.
pub proof fn councils_are_set_up_as_asked(
    s: EnvView,
    admin: Address,
    members: Seq<Address>,
    quorum: u32,
)
    ensures
        s.init_council_error(admin, members, quorum) is None <==> s.admin_error(admin) is None
            && quorum >= 1 && quorum <= members.len(),
        s.admin_error(admin) is Some ==> s.init_council_error(admin, members, quorum)
            == s.admin_error(admin),
        s.admin_error(admin) is None && (quorum == 0 || quorum > members.len())
            ==> s.init_council_error(admin, members, quorum) == Some(Error::InvalidQuorum),
        s.council_set_up(members, quorum) == (EnvView {
            council: Some(AdminCouncilView { members, quorum }),
            instance_ttl: s.extend_instance(518_400).instance_ttl,
            effects: s.effects.push(
                EffectView::Publish(
                    EventView::CouncilInitialized { quorum, member_count: members.len() },
                ),
            ),
            ..s
        }),
{
}

/// Every member of the council, and nobody else, can put any operation to it. The proposal gets
/// the next number and starts with the approval of its proposer alone.
pub proof fn members_propose(s: EnvView, proposer: Address, operation: CouncilOperation)
    requires
        s.proposal_counter < u32::MAX,
    ensures
        s.council is None ==> s.propose_action_error(proposer) == Some(
            Error::CouncilNotInitialized,
        ),
        s.council is Some && s.council->0.members.contains(proposer) ==> s.propose_action_error(
            proposer,
        ) is None,
        s.council is Some && !s.council->0.members.contains(proposer) ==> s.propose_action_error(
            proposer,
        ) == Some(Error::Unauthorized),
        ({
            let number = (s.proposal_counter + 1) as u32;
            s.action_proposed(proposer, operation) == EnvView {
                proposal_counter: number,
                council_proposals: s.council_proposals.insert(
                    number,
                    CouncilProposalView {
                        id: number,
                        operation,
                        proposer,
                        approvals: seq![proposer],
                        executed: false,
                    },
                ),
                lifetimes: s.extend(StorageKeyView::CouncilProposal(number), 518_400).lifetimes,
                effects: s.effects.push(
                    EffectView::Publish(EventView::ProposalCreated { id: number, proposer }),
                ),
                ..s
            }
        }),
{
}

/// A member can approve a proposal exactly if it is there, has not been carried out, and the
/// member has not approved it. The approval goes to the end of the list; nothing else about the
/// proposal changes.
pub proof fn members_approve(s: EnvView, approver: Address, number: u32)
    requires
        s.council_proposals.contains_key(number) ==> s.council_proposals[number].id == number,
    ensures
        ({
            let there = s.council_proposals.contains_key(number);
            let p = s.council_proposals[number];
            let error = s.approve_action_error(approver, number);
            &&& s.council is None ==> error == Some(Error::CouncilNotInitialized)
            &&& s.council is Some && !there ==> error == Some(Error::NotFound)
            &&& s.council is Some && there && p.executed ==> error == Some(Error::AlreadyExecuted)
            &&& s.council is Some && there && !p.executed && !s.council->0.members.contains(
                approver,
            ) ==> error == Some(Error::Unauthorized)
            &&& s.council is Some && there && !p.executed && s.council->0.members.contains(approver)
                && p.approvals.contains(approver) ==> error == Some(Error::AlreadyApproved)
            &&& s.council is Some && there && !p.executed && s.council->0.members.contains(approver)
                && !p.approvals.contains(approver) ==> error is None
            &&& there ==> s.action_approved(approver, number) == (EnvView {
                council_proposals: s.council_proposals.insert(
                    number,
                    CouncilProposalView {
                        id: number,
                        operation: p.operation,
                        proposer: p.proposer,
                        approvals: p.approvals.push(approver),
                        executed: p.executed,
                    },
                ),
                lifetimes: s.extend(StorageKeyView::CouncilProposal(number), 518_400).lifetimes,
                effects: s.effects.push(
                    EffectView::Publish(EventView::ProposalApproved { id: number, approver }),
                ),
                ..s
            })
        }),
{
}

/// Whenever there is a council, a proposal is there, has not been carried out and has as many
/// approvals as the quorum, any member can have it carried out, whatever the operation is. With
/// fewer approvals nobody can, and nobody else can at all.
pub proof fn a_quorum_is_enough(s: EnvView, executor: Address, number: u32)
    ensures
        ({
            let there = s.council_proposals.contains_key(number);
            let p = s.council_proposals[number];
            let error = s.execute_action_error(executor, number);
            let member = s.council is Some && s.council->0.members.contains(executor);
            &&& s.council is Some && there && !p.executed && member && p.approvals.len()
                >= s.council->0.quorum ==> error is None
            &&& s.council is None ==> error == Some(Error::CouncilNotInitialized)
            &&& s.council is Some && !there ==> error == Some(Error::NotFound)
            &&& s.council is Some && there && p.executed ==> error == Some(Error::AlreadyExecuted)
            &&& s.council is Some && there && !p.executed && !member ==> error == Some(
                Error::Unauthorized,
            )
            &&& there && !p.executed && member && p.approvals.len() < s.council->0.quorum ==> error
                == Some(Error::QuorumNotReached)
        }),
{
}

/// A pause decided by the council pauses attestation writes; the proposal is marked as carried
/// out and stays otherwise as it was; observers learn of the execution, and nothing else changes.
pub proof fn the_council_pauses(s: EnvView, number: u32)
    requires
        s.council_proposals.contains_key(number),
        s.council_proposals[number].id == number,
        s.council_proposals[number].operation == CouncilOperation::PauseContract,
    ensures
        ({
            let p = s.council_proposals[number];
            s.action_executed(number) == EnvView {
                paused: true,
                council_proposals: s.council_proposals.insert(
                    number,
                    CouncilProposalView {
                        id: number,
                        operation: CouncilOperation::PauseContract,
                        proposer: p.proposer,
                        approvals: p.approvals,
                        executed: true,
                    },
                ),
                instance_ttl: s.extend_instance(518_400).instance_ttl,
                lifetimes: s.extend(StorageKeyView::CouncilProposal(number), 518_400).lifetimes,
                effects: s.effects.push(
                    EffectView::Publish(EventView::ProposalExecuted { id: number }),
                ),
                ..s
            }
        }),
{
}

/// A removal decided by the council strikes the issuer off the registry, and no other; observers
/// are told in the name of the first member; the running totals stay as they are.
pub proof fn the_council_removes(s: EnvView, number: u32, issuer: Address)
    requires
        s.council is Some,
        s.council->0.members.len() > 0,
        s.council_proposals.contains_key(number),
        s.council_proposals[number].id == number,
        s.council_proposals[number].operation == CouncilOperation::RemoveIssuer(issuer),
    ensures
        ({
            let p = s.council_proposals[number];
            let struck = EnvView {
                lifetimes: s.lifetimes.remove(StorageKeyView::Issuer(issuer)),
                ..s
            };
            s.action_executed(number) == EnvView {
                issuers: s.issuers.remove(issuer),
                council_proposals: s.council_proposals.insert(
                    number,
                    CouncilProposalView {
                        id: number,
                        operation: CouncilOperation::RemoveIssuer(issuer),
                        proposer: p.proposer,
                        approvals: p.approvals,
                        executed: true,
                    },
                ),
                lifetimes: struck.extend(
                    StorageKeyView::CouncilProposal(number),
                    518_400,
                ).lifetimes,
                effects: s.effects.push(
                    EffectView::Publish(
                        EventView::IssuerRemoved {
                            issuer,
                            admin: s.council->0.members[0],
                            timestamp: s.timestamp,
                        },
                    ),
                ).push(EffectView::Publish(EventView::ProposalExecuted { id: number })),
                ..s
            }
        }),
{
}

} // verus!

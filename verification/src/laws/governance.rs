//! Administrators, claim types and the council.

use crate::address::Address;
use crate::admin::no_fee;
use crate::env::EnvView;
use crate::laws::scope::requests_stay_in_scope;
use crate::list::{lemma_push, lemma_push_once, lemma_without, lemma_without_once, without};
use crate::requests::{ledger_after, Call, Request};
use crate::types::{ClaimTypeInfoView, CouncilOperation, Error, IssuerTier};
use vstd::prelude::*;

verus! {

proof fn lemma_with_admin(s: EnvView, admin: Address)
    requires
        s.admins().no_duplicates(),
    ensures
        s.with_admin(admin).admins().no_duplicates(),
        s.with_admin(admin).admins().contains(admin),
        forall|x: Address| #[trigger]
            s.with_admin(admin).admins().contains(x) <==> s.admins().contains(x) || x == admin,
{
    if !s.admins().contains(admin) {
        lemma_push_once(s.admins(), admin);
        assert forall|x: Address| #[trigger]
            s.with_admin(admin).admins().contains(x) <==> s.admins().contains(x) || x == admin by {
            lemma_push(s.admins(), admin, x);
        }
        lemma_push(s.admins(), admin, admin);
    }
}

proof fn lemma_without_admin(s: EnvView, admin: Address)
    requires
        s.admins().no_duplicates(),
    ensures
        s.without_admin(admin).admins().no_duplicates(),
        forall|x: Address| #[trigger]
            s.without_admin(admin).admins().contains(x) <==> s.admins().contains(x) && x != admin,
{
    lemma_without_once(s.admins(), admin);
    assert forall|x: Address| #[trigger]
        s.without_admin(admin).admins().contains(x) <==> s.admins().contains(x) && x != admin by {
        lemma_without(s.admins(), admin, x);
    }
}

/// What the requests about administrators lead to: the first is the only one; one hands over to
/// another; one is added, or was there already; one is removed, or was not there.
pub proof fn admins_come_and_go(s: EnvView, by: Address, admin: Address)
    requires
        s.admins().no_duplicates(),
    ensures
        s.initialized(admin, None).admins() == seq![admin],
        forall|x: Address| #[trigger]
            s.admin_added(by, admin).admins().contains(x) <==> s.admins().contains(x) || x == admin,
        forall|x: Address| #[trigger]
            s.admin_removed(by, admin).admins().contains(x) <==> s.admins().contains(x) && x
                != admin,
        forall|x: Address| #[trigger]
            s.admin_transferred(by, admin).admins().contains(x) <==> (s.admins().contains(x) || x
                == admin) && x != by,
{
    lemma_with_admin(s, admin);
    lemma_without_admin(s, admin);
    lemma_without_admin(s.with_admin(admin), by);
    assert forall|x: Address| #[trigger]
        s.admin_added(by, admin).admins().contains(x) <==> s.admins().contains(x) || x == admin by {
        assert(s.with_admin(admin).admins().contains(x) <==> s.admins().contains(x) || x == admin);
    }
    assert forall|x: Address| #[trigger]
        s.admin_removed(by, admin).admins().contains(x) <==> s.admins().contains(x) && x
        != admin by {
        assert(s.without_admin(admin).admins().contains(x) <==> s.admins().contains(x) && x
            != admin);
    }
    assert forall|x: Address| #[trigger]
        s.admin_transferred(by, admin).admins().contains(x) <==> (s.admins().contains(x) || x
        == admin) && x != by by {
        let joined = s.with_admin(admin);
        assert(joined.without_admin(by).admins().contains(x) <==> joined.admins().contains(x) && x
            != by);
        assert(joined.admins().contains(x) <==> s.admins().contains(x) || x == admin);
    }
}

/// Adding an administrator, or removing one, does nothing the second time.
pub proof fn admin_changes_are_idempotent(s: EnvView, by: Address, admin: Address)
    requires
        s.admins().no_duplicates(),
    ensures
        s.admin_added(by, admin).admin_added(by, admin) == s.admin_added(by, admin),
        s.admin_removed(by, admin).admin_removed(by, admin) == s.admin_removed(by, admin),
{
    admins_come_and_go(s, by, admin);
    assert(s.admin_added(by, admin).admins().contains(admin));
    assert(!s.admin_removed(by, admin).admins().contains(admin));
}

/// No request makes anybody an administrator twice.
pub proof fn admins_are_distinct(s: EnvView, request: Request)
    requires
        s.admins().no_duplicates(),
    ensures
        request.after(s).admins().no_duplicates(),
{
    requests_stay_in_scope(s, request);
    if request.is_about_admins() {
        reveal(Request::after);
        match request {
            Request::TransferAdmin { current_admin, new_admin } => {
                lemma_with_admin(s, new_admin);
                lemma_without_admin(s.with_admin(new_admin), current_admin);
            },
            Request::AddAdmin { existing_admin, new_admin } => {
                lemma_with_admin(s, new_admin);
            },
            Request::RemoveAdmin { existing_admin, admin_to_remove } => {
                lemma_without_admin(s, admin_to_remove);
            },
            _ => {},
        }
    }
}

/// However a registry was used, nobody is an administrator twice.
pub proof fn admins_are_always_distinct(calls: Seq<Call>)
    ensures
        ledger_after(calls).admins().no_duplicates(),
    decreases calls.len(),
{
    if calls.len() > 0 {
        admins_are_always_distinct(calls.drop_last());
        let call = calls.last();
        let s = ledger_after(calls.drop_last()).opened(call.timestamp, call.auths);
        assert(s.admins() == ledger_after(calls.drop_last()).admins());
        admins_are_distinct(s, call.request);
    }
}

/// A registry that has an administrator keeps one, unless the only one hands over to itself.
pub proof fn an_admin_stays(s: EnvView, request: Request)
    requires
        s.admins().no_duplicates(),
        s.has_admin(),
        !(request matches Request::TransferAdmin { current_admin, new_admin } && current_admin
            == new_admin && s.admins().len() == 1),
    ensures
        request.after(s).has_admin(),
{
    requests_stay_in_scope(s, request);
    if request.is_about_admins() {
        reveal(Request::after);
        reveal(Request::error);
        let admins = s.admins();
        match request {
            Request::TransferAdmin { current_admin, new_admin } => {
                if current_admin != new_admin {
                    admins_come_and_go(s, current_admin, new_admin);
                    assert(s.admin_transferred(current_admin, new_admin).admins().contains(
                        new_admin,
                    ));
                } else if request.error(s) is None {
                    lemma_another_stays(admins, current_admin);
                }
            },
            Request::RemoveAdmin { existing_admin, admin_to_remove } => {
                if request.error(s) is None {
                    lemma_another_stays(admins, admin_to_remove);
                }
            },
            _ => {},
        }
    }
}

proof fn lemma_another_stays(admins: Seq<Address>, admin: Address)
    requires
        admins.no_duplicates(),
        admins.len() > 1,
    ensures
        without(admins, admin).len() > 0,
{
    let other = if admins[0] == admin {
        admins[1]
    } else {
        admins[0]
    };
    lemma_without(admins, admin, other);
    assert(without(admins, admin).contains(other));
}

/// A registry is initialized once: the first administrator is in office, and nobody can
/// initialize it again.
pub proof fn initialization_happens_once(s: EnvView, admin: Address, ttl_days: Option<u32>)
    requires
        s.initialize_error() is None,
    ensures
        ({
            let t = s.initialized(admin, ttl_days);
            &&& t.admins() == seq![admin]
            &&& t.admin_error(admin) is None
            &&& t.initialize_error() == Some(Error::AlreadyInitialized)
            &&& t.fee_config == Some(no_fee(admin))
            &&& t.version is Some
        }),
{
    let t = s.initialized(admin, ttl_days);
    assert(t.admins()[0] == admin);
}

/// Pausing and resuming attestation writes undo each other.
pub proof fn pausing_is_undone_by_unpausing(s: EnvView, admin: Address)
    ensures
        s.paused_by(admin).pause_error() == Some(Error::ContractPaused),
        s.paused_by(admin).unpaused_by(admin).pause_error() is None,
{
}

impl EnvView {
    /// Whether the list of claim types holds each registered one once, and nothing else, and each
    /// stands under its own name.
    pub open spec fn claim_types_listed(self) -> bool {
        &&& self.claim_type_list.no_duplicates()
        &&& forall|claim_type: Seq<u8>| #[trigger]
            self.claim_type_list.contains(claim_type) <==> self.claim_types.contains_key(claim_type)
        &&& forall|claim_type: Seq<u8>| #[trigger]
            self.claim_types.contains_key(claim_type) ==> self.claim_types[claim_type].claim_type
                == claim_type
    }
}

/// A claim type that was registered is listed, and its description can be read. One that was
/// registered before keeps its place.
pub proof fn claim_types_read_back(s: EnvView, claim_type: Seq<u8>, description: Seq<u8>)
    ensures
        ({
            let t = s.claim_type_registered(claim_type, description);
            &&& t.claim_types.contains_key(claim_type)
            &&& t.claim_types[claim_type] == (ClaimTypeInfoView { claim_type, description })
            &&& t.claim_type_list == if s.claim_types.contains_key(claim_type) {
                s.claim_type_list
            } else {
                s.claim_type_list.push(claim_type)
            }
        }),
{
}

/// Every request keeps the list of claim types in order.
pub proof fn claim_types_stay_listed(s: EnvView, request: Request)
    requires
        s.claim_types_listed(),
    ensures
        request.after(s).claim_types_listed(),
{
    requests_stay_in_scope(s, request);
    let t = request.after(s);
    match request {
        Request::RegisterClaimType { admin, claim_type, description } => {
            reveal(Request::after);
            if !s.claim_types.contains_key(claim_type) {
                assert(!s.claim_type_list.contains(claim_type));
                lemma_push_once(s.claim_type_list, claim_type);
            }
            assert forall|x: Seq<u8>| #[trigger]
                t.claim_type_list.contains(x) <==> t.claim_types.contains_key(x) by {
                lemma_push(s.claim_type_list, claim_type, x);
                assert(s.claim_type_list.contains(x) <==> s.claim_types.contains_key(x));
            }
        },
        _ => {},
    }
}

/// However a registry was used, its list of claim types is in order.
pub proof fn claim_types_are_always_listed(calls: Seq<Call>)
    ensures
        ledger_after(calls).claim_types_listed(),
    decreases calls.len(),
{
    if calls.len() > 0 {
        claim_types_are_always_listed(calls.drop_last());
        let call = calls.last();
        let s = ledger_after(calls.drop_last()).opened(call.timestamp, call.auths);
        claim_types_stay_listed(s, call.request);
    }
}

impl EnvView {
    /// Whether every council proposal stands under its own number, none of which has yet to
    /// come, and was approved by its proposer first and by nobody twice.
    pub open spec fn actions_in_order(self) -> bool {
        forall|number: u32| #[trigger]
            self.council_proposals.contains_key(number) ==> {
                let p = self.council_proposals[number];
                &&& p.id == number <= self.proposal_counter
                &&& p.approvals.len() > 0
                &&& p.approvals[0] == p.proposer
                &&& p.approvals.no_duplicates()
            }
    }
}

/// Every request keeps the council proposals in order: a member's approval counts once.
pub proof fn actions_stay_in_order(s: EnvView, request: Request)
    requires
        s.actions_in_order(),
        s.proposal_counter < u32::MAX,
    ensures
        request.after(s).actions_in_order(),
        request.after(s).proposal_counter <= s.proposal_counter + 1,
{
    requests_stay_in_scope(s, request);
    let t = request.after(s);
    if request.is_about_actions() {
        reveal(Request::after);
        reveal(Request::error);
        match request {
            Request::ApproveAction { approver, number } => {
                if request.error(s) is None {
                    assert(s.council_proposals.contains_key(number));
                    lemma_push_once(s.council_proposals[number].approvals, approver);
                }
            },
            Request::ExecuteAction { executor, number } => {
                if request.error(s) is None {
                    assert(s.council_proposals.contains_key(number));
                }
            },
            _ => {},
        }
    }
}

/// However a registry was used, its council proposals are in order, as long as their numbers
/// last.
pub proof fn actions_are_always_in_order(calls: Seq<Call>)
    requires
        calls.len() <= u32::MAX,
    ensures
        ledger_after(calls).actions_in_order(),
        ledger_after(calls).proposal_counter <= calls.len(),
    decreases calls.len(),
{
    if calls.len() > 0 {
        actions_are_always_in_order(calls.drop_last());
        let call = calls.last();
        let s = ledger_after(calls.drop_last()).opened(call.timestamp, call.auths);
        actions_stay_in_order(s, call.request);
    }
}

/// A council proposal is carried out only with the approvals of a quorum, at the wish of a
/// member, and only once: from then on it stays as it is.
pub proof fn actions_take_a_quorum_and_happen_once(s: EnvView, request: Request, number: u32)
    requires
        s.actions_in_order(),
        s.proposal_counter < u32::MAX,
        s.council_proposals.contains_key(number),
    ensures
        ({
            let t = request.after(s);
            let p = s.council_proposals[number];
            &&& t.council_proposals.contains_key(number)
            &&& p.executed ==> t.council_proposals[number] == p
            &&& !p.executed && t.council_proposals[number].executed ==> {
                &&& request is ExecuteAction
                &&& s.council is Some
                &&& s.council->0.members.contains(request->ExecuteAction_executor)
                &&& p.approvals.len() >= s.council->0.quorum
                &&& t.open_proposal_error(number) == Some(Error::AlreadyExecuted)
            }
        }),
{
    requests_stay_in_scope(s, request);
    if request.is_about_actions() {
        reveal(Request::after);
        reveal(Request::error);
        match request {
            Request::ApproveAction { approver, number: n } => {
                if request.error(s) is None {
                    assert(s.council_proposals.contains_key(n));
                }
            },
            Request::ExecuteAction { executor, number: n } => {
                if request.error(s) is None {
                    assert(s.council_proposals.contains_key(n));
                }
            },
            _ => {},
        }
    }
}

/// What the council decides is done: the issuer is no longer registered, or attestation writes
/// are paused.
pub proof fn actions_have_their_effect(s: EnvView, number: u32)
    ensures
        ({
            let t = s.action_executed(number);
            match s.council_proposals[number].operation {
                CouncilOperation::RemoveIssuer(issuer) => t.issuer_error(issuer) == Some(
                    Error::Unauthorized,
                ),
                CouncilOperation::PauseContract => t.pause_error() == Some(Error::ContractPaused),
            }
        }),
{
}

/// An issuer that was registered is one, until it is removed; only while it is one does it have
/// the tier that it was given. A bridge contract that was registered is one.
pub proof fn registrations_read_back(s: EnvView, admin: Address, party: Address, tier: IssuerTier)
    ensures
        s.issuer_registered(admin, party).issuer_error(party) is None,
        s.issuer_removed(admin, party).issuer_error(party) == Some(Error::Unauthorized),
        s.issuer_removed(admin, party).tier_of(party) is None,
        s.issuer_registered(admin, party).tier_updated(party, tier).tier_of(party) == Some(tier),
        s.with_bridge(party).bridge_error(party) is None,
{
}

} // verus!

//! Proposals that several issuers sign, and endorsements.

use crate::address::Address;
use crate::env::EnvView;
use crate::ident::proposal_id;
use crate::issuance::created_entry;
use crate::laws::claims::shows_new;
use crate::laws::history::{records_are_never_lost, same_claim};
use crate::laws::indexes::the_books_are_always_sound;
use crate::laws::scope::requests_stay_in_scope;
use crate::list::lemma_push_once;
use crate::multisig::{agreed_record, signed_by};
use crate::queries::claim_of;
use crate::requests::{ledger_after, Call, Request};
use crate::types::{
    AttestationStatus, EndorsementView, Error, MultiSigProposalView, MULTISIG_PROPOSAL_TTL_SECS,
};
use vstd::prelude::*;

verus! {

/// Whether the endorsements of `id` are for it, of an attestation that is there, by issuers other
/// than its own, and each by another.
pub open spec fn endorsements_fit(s: EnvView, id: Seq<u8>) -> bool {
    let list = s.endorsements_of(id);
    &&& list.len() > 0 ==> s.attestations.contains_key(id)
    &&& forall|i: int|
        0 <= i < list.len() ==> (#[trigger] list[i]).attestation_id == id && list[i].endorser
            != s.attestations[id].issuer
    &&& forall|i: int, j: int|
        0 <= i < j < list.len() ==> (#[trigger] list[i]).endorser != (#[trigger] list[j]).endorser
}

/// An issuer endorses an attestation at most once, and never its own: every request keeps to
/// that.
pub proof fn endorsements_stay_fit(s: EnvView, request: Request, id: Seq<u8>)
    requires
        s.books().sound(),
        endorsements_fit(s, id),
    ensures
        endorsements_fit(request.after(s), id),
{
    requests_stay_in_scope(s, request);
    let t = request.after(s);
    if s.attestations.contains_key(id) {
        records_are_never_lost(s, request, id);
    }
    if request is Endorse {
        reveal(Request::after);
        reveal(Request::error);
        assert(t.attestations == s.attestations);
    } else {
        assert(t.endorsements_of(id) == s.endorsements_of(id));
    }
}

/// However a registry was used, an issuer endorses an attestation at most once, and never its
/// own.
pub proof fn endorsements_always_fit(calls: Seq<Call>, id: Seq<u8>)
    ensures
        endorsements_fit(ledger_after(calls), id),
    decreases calls.len(),
{
    if calls.len() > 0 {
        let before = ledger_after(calls.drop_last());
        let call = calls.last();
        let s = before.opened(call.timestamp, call.auths);
        endorsements_always_fit(calls.drop_last(), id);
        the_books_are_always_sound(calls.drop_last());
        assert(s.books() == before.books());
        assert(s.endorsements_of(id) == before.endorsements_of(id));
        endorsements_stay_fit(s, call.request, id);
    }
}

/// An endorsement can be read, and cannot be given twice.
pub proof fn endorsements_read_back(s: EnvView, endorser: Address, id: Seq<u8>)
    requires
        s.endorse_error(endorser, id) is None,
    ensures
        ({
            let t = s.endorsed(endorser, id);
            &&& t.endorsements_of(id) == s.endorsements_of(id).push(
                EndorsementView { attestation_id: id, endorser, timestamp: s.timestamp },
            )
            &&& t.endorse_error(endorser, id) == Some(Error::AlreadyEndorsed)
        }),
{
    let t = s.endorsed(endorser, id);
    let list = t.endorsements_of(id);
    assert(list[list.len() - 1].endorser == endorser);
}

/// Whether a proposal stands under the identifier that its fields give it, can be signed for as
/// long as it should, was signed by its proposer first, by others only if they may, and by nobody
/// twice, and is completed exactly if co-signers have brought it to its threshold.
pub open spec fn proposal_fits(id: Seq<u8>, p: MultiSigProposalView) -> bool {
    &&& p.id == id
    &&& p.id == proposal_id(p.proposer, p.subject, p.claim_type, p.created_at)
    &&& p.expires_at == p.created_at + MULTISIG_PROPOSAL_TTL_SECS
    &&& 0 < p.threshold <= p.required_signers.len()
    &&& p.signers.len() > 0
    &&& p.signers[0] == p.proposer
    &&& p.signers.no_duplicates()
    &&& forall|i: int|
        1 <= i < p.signers.len() ==> p.required_signers.contains(#[trigger] p.signers[i])
    &&& p.finalized <==> p.signers.len() > 1 && p.signers.len() >= p.threshold
}

impl EnvView {
    /// Whether all proposals fit, and those that are completed have become attestations.
    pub open spec fn proposals_fit(self) -> bool {
        forall|id: Seq<u8>| #[trigger]
            self.multisig_proposals.contains_key(id) ==> {
                let p = self.multisig_proposals[id];
                &&& proposal_fits(id, p)
                &&& p.finalized ==> self.attestations.contains_key(agreed_record(p).id)
                    && same_claim(agreed_record(p), self.attestations[agreed_record(p).id])
            }
    }
}

proof fn lemma_signed_fits(id: Seq<u8>, p: MultiSigProposalView, issuer: Address)
    requires
        proposal_fits(id, p),
        !p.finalized,
        p.required_signers.contains(issuer),
        !p.signers.contains(issuer),
    ensures
        proposal_fits(id, signed_by(p, issuer)),
{
    lemma_push_once(p.signers, issuer);
    let q = signed_by(p, issuer);
    assert forall|i: int| 1 <= i < q.signers.len() implies q.required_signers.contains(
        #[trigger] q.signers[i],
    ) by {
        if i < p.signers.len() {
            assert(q.signers[i] == p.signers[i]);
        }
    }
}

proof fn lemma_agreed(s: EnvView, issuer: Address, id: Seq<u8>)
    requires
        s.cosign_error(issuer, id) is None,
    ensures
        ({
            let t = s.cosigned(issuer, id);
            let p = signed_by(s.multisig_proposals[id], issuer);
            &&& t.multisig_proposals == s.multisig_proposals.insert(p.id, p)
            &&& p.finalized ==> t.attestations == s.attestations.insert(
                agreed_record(p).id,
                agreed_record(p),
            )
        }),
{
}

/// Every request keeps the proposals fit: an issuer signs at most once, and a proposal becomes an
/// attestation exactly when co-signers have brought it to its threshold.
pub proof fn proposals_stay_fit(s: EnvView, request: Request)
    requires
        s.books().sound(),
        s.proposals_fit(),
        request is Propose ==> s.timestamp + MULTISIG_PROPOSAL_TTL_SECS <= u64::MAX,
    ensures
        request.after(s).proposals_fit(),
{
    requests_stay_in_scope(s, request);
    let t = request.after(s);
    let done = request.error(s) is None;
    if done {
        match request {
            Request::Cosign { issuer, id } => {
                assert(s.cosign_error(issuer, id) is None) by {
                    reveal(Request::error);
                }
                assert(t == s.cosigned(issuer, id)) by {
                    reveal(Request::after);
                }
                assert(s.multisig_proposals.contains_key(id));
                lemma_signed_fits(id, s.multisig_proposals[id], issuer);
                lemma_agreed(s, issuer, id);
            },
            Request::Propose { proposer, subject, claim_type, required_signers, threshold } => {
                let p = s.proposal(proposer, subject, claim_type, required_signers, threshold);
                assert(s.propose_error(proposer, required_signers, threshold) is None) by {
                    reveal(Request::error);
                }
                assert(t == s.proposed(p)) by {
                    reveal(Request::after);
                }
                assert(proposal_fits(p.id, p));
            },
            _ => {},
        }
    } else {
        assert(t == s) by {
            reveal(Request::after);
        }
    }
    assert forall|id: Seq<u8>| #[trigger] t.multisig_proposals.contains_key(id) implies {
        let p = t.multisig_proposals[id];
        &&& proposal_fits(id, p)
        &&& p.finalized ==> t.attestations.contains_key(agreed_record(p).id) && same_claim(
            agreed_record(p),
            t.attestations[agreed_record(p).id],
        )
    } by {
        let p = t.multisig_proposals[id];
        if s.multisig_proposals.contains_key(id) && s.multisig_proposals[id] == p && p.finalized {
            records_are_never_lost(s, request, agreed_record(p).id);
        }
    }
}

/// Whether every call came at a time from which the term of a proposal can be counted.
pub open spec fn terms_can_be_counted(calls: Seq<Call>) -> bool {
    forall|i: int|
        0 <= i < calls.len() ==> (#[trigger] calls[i]).timestamp + MULTISIG_PROPOSAL_TTL_SECS
            <= u64::MAX
}

/// However a registry was used, its proposals are fit.
pub proof fn proposals_always_fit(calls: Seq<Call>)
    requires
        terms_can_be_counted(calls),
    ensures
        ledger_after(calls).proposals_fit(),
    decreases calls.len(),
{
    if calls.len() > 0 {
        let earlier = calls.drop_last();
        let before = ledger_after(earlier);
        let call = calls.last();
        let s = before.opened(call.timestamp, call.auths);
        assert(terms_can_be_counted(earlier)) by {
            assert forall|i: int| 0 <= i < earlier.len() implies (#[trigger] earlier[i]).timestamp
                + MULTISIG_PROPOSAL_TTL_SECS <= u64::MAX by {
                assert(earlier[i] == calls[i]);
            }
        }
        assert(calls[calls.len() - 1] == call);
        proposals_always_fit(earlier);
        the_books_are_always_sound(earlier);
        assert(s.books() == before.books());
        proposals_stay_fit(s, call.request);
    }
}

/// A proposal that has become an attestation stays as it is, and can no longer be co-signed,
/// unless the same proposer proposes the same again at the very time of the first proposal.
pub proof fn completed_proposals_stay(s: EnvView, request: Request, id: Seq<u8>)
    requires
        s.proposals_fit(),
        s.multisig_proposals.contains_key(id),
        s.multisig_proposals[id].finalized,
        !(request matches Request::Propose {
            proposer,
            subject,
            claim_type,
            required_signers,
            threshold,
        } && proposal_id(proposer, subject, claim_type, s.timestamp) == id),
    ensures
        request.after(s).multisig_proposals.contains_key(id),
        request.after(s).multisig_proposals[id] == s.multisig_proposals[id],
{
    requests_stay_in_scope(s, request);
    if request is Propose || request is Cosign {
        reveal(Request::after);
        reveal(Request::error);
        if let Request::Cosign { issuer, id: other } = request {
            assert(request.error(s) is None ==> s.multisig_proposals.contains_key(other));
        }
    }
}

/// With the signature that brings a proposal to its threshold it becomes an attestation, which
/// can be read at once, is listed last in both indexes and is in force.
pub proof fn agreed_attestations_read_back(s: EnvView, issuer: Address, id: Seq<u8>)
    requires
        s.cosign_error(issuer, id) is None,
        s.multisig_proposals[id].signers.len() + 1 >= s.multisig_proposals[id].threshold,
    ensures
        ({
            let t = s.cosigned(issuer, id);
            let a = agreed_record(s.multisig_proposals[id]);
            &&& shows_new(s, t, a)
            &&& t.status_of(a.id) == AttestationStatus::Valid
            &&& t.holds(a.subject, claim_of(a.claim_type))
            &&& t.audit_log(a.id) == s.audit_log(a.id).push(created_entry(a.issuer, s.timestamp))
        }),
{
    let t = s.cosigned(issuer, id);
    let a = agreed_record(s.multisig_proposals[id]);
    assert(shows_new(s, t, a));
    let ids = t.subject_ids(a.subject);
    assert(t.proves(ids[ids.len() - 1], claim_of(a.claim_type)));
}

/// Without that signature a proposal is no attestation.
pub proof fn open_proposals_are_no_attestations(s: EnvView, issuer: Address, id: Seq<u8>)
    requires
        s.cosign_error(issuer, id) is None,
        s.multisig_proposals[id].signers.len() + 1 < s.multisig_proposals[id].threshold,
    ensures
        s.cosigned(issuer, id).books() == s.books(),
{
}

} // verus!

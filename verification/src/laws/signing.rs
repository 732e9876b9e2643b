//! What co-signing and endorsing do to the ledger.

use crate::address::Address;
use crate::env::EnvView;
use crate::events::{EffectView, EventView};
use crate::ident::{attestation_id, proposal_id};
use crate::multisig::{endorsed_by, signed_by};
use crate::storage::StorageKeyView;
use crate::types::{
    AttestationOrigin, AttestationView, AuditAction, AuditEntryView, EndorsementView, Error,
    GlobalStats, IssuerStats, MultiSigProposalView,
};
use vstd::prelude::*;

verus! {

/// A proposal is taken only from a registered issuer, and only if every address that is to sign,
/// at whatever place, is a registered issuer; the threshold is at least one and no more than there
/// are addresses. Nothing else is asked.
pub proof fn every_signer_has_to_be_registered(
    s: EnvView,
    proposer: Address,
    required_signers: Seq<Address>,
    threshold: u32,
)
    ensures
        ({
            let error = s.propose_error(proposer, required_signers, threshold);
            &&& !s.issuers.contains_key(proposer) ==> error == Some(Error::Unauthorized)
            &&& forall|i: int|
                0 <= i < required_signers.len() && !s.issuers.contains_key(
                    #[trigger] required_signers[i],
                ) ==> error == Some(Error::Unauthorized)
            &&& error is None ==> s.issuers.contains_key(proposer)
            &&& error is None ==> forall|i: int|
                0 <= i < required_signers.len() ==> s.issuers.contains_key(
                    #[trigger] required_signers[i],
                )
            &&& error is None ==> 0 < threshold <= required_signers.len()
            &&& s.issuers.contains_key(proposer) && (forall|i: int|
                0 <= i < required_signers.len() ==> s.issuers.contains_key(
                    #[trigger] required_signers[i],
                )) ==> if 0 < threshold <= required_signers.len() {
                error is None
            } else {
                error == Some(Error::InvalidThreshold)
            }
        }),
{
}

/// A proposal holds what was asked for, signed by the proposer alone, open for seven days.
pub proof fn a_proposal_starts_out(
    s: EnvView,
    proposer: Address,
    subject: Address,
    claim_type: Seq<u8>,
    required_signers: Seq<Address>,
    threshold: u32,
)
    requires
        s.timestamp + 604_800 <= u64::MAX,
    ensures
        ({
            let p = s.proposal(proposer, subject, claim_type, required_signers, threshold);
            &&& p.id == proposal_id(proposer, subject, claim_type, s.timestamp)
            &&& p.proposer == proposer
            &&& p.subject == subject
            &&& p.claim_type == claim_type
            &&& p.required_signers == required_signers
            &&& p.threshold == threshold
            &&& p.signers.len() == 1
            &&& p.signers[0] == proposer
            &&& p.created_at == s.timestamp
            &&& p.expires_at == s.timestamp + 604_800
            &&& !p.finalized
        }),
{
}

/// Proposing stores the proposal and tells observers, and nothing else.
pub proof fn what_proposing_does(s: EnvView, p: MultiSigProposalView)
    ensures
        s.proposed(p) == (EnvView {
            multisig_proposals: s.multisig_proposals.insert(p.id, p),
            lifetimes: s.extend(StorageKeyView::MultiSigProposal(p.id), s.lifetime()).lifetimes,
            effects: s.effects.push(
                EffectView::Publish(
                    EventView::MultisigProposed {
                        proposal_id: p.id,
                        proposer: p.proposer,
                        subject: p.subject,
                        threshold: p.threshold,
                    },
                ),
            ),
            ..s
        }),
{
}

/// An issuer can co-sign exactly if writes are open, it is registered, the proposal is there,
/// has not become an attestation, has not run out, names the issuer and lacks its signature.
/// Otherwise the first of these that fails is the reason.
pub proof fn what_cosigning_takes(s: EnvView, issuer: Address, id: Seq<u8>)
    ensures
        ({
            let p = s.multisig_proposals[id];
            let error = s.cosign_error(issuer, id);
            let a0 = !s.paused;
            let a1 = a0 && s.issuers.contains_key(issuer);
            let a2 = a1 && s.multisig_proposals.contains_key(id);
            let a3 = a2 && !p.finalized;
            let a4 = a3 && s.timestamp < p.expires_at;
            let a5 = a4 && p.required_signers.contains(issuer);
            let a6 = a5 && !p.signers.contains(issuer);
            &&& a6 ==> error is None
            &&& !a0 ==> error == Some(Error::ContractPaused)
            &&& a0 && !a1 ==> error == Some(Error::Unauthorized)
            &&& a1 && !a2 ==> error == Some(Error::NotFound)
            &&& a2 && !a3 ==> error == Some(Error::ProposalFinalized)
            &&& a3 && !a4 ==> error == Some(Error::ProposalExpired)
            &&& a4 && !a5 ==> error == Some(Error::NotRequiredSigner)
            &&& a5 && !a6 ==> error == Some(Error::AlreadySigned)
        }),
{
}

/// A signature goes to the end; the proposal is final once the signatures reach the threshold;
/// nothing else of it changes.
pub proof fn a_signature_is_added(p: MultiSigProposalView, issuer: Address)
    ensures
        ({
            let q = signed_by(p, issuer);
            &&& q.signers == p.signers.push(issuer)
            &&& q.finalized == (p.finalized || p.signers.len() + 1 >= p.threshold)
            &&& q.id == p.id
            &&& q.proposer == p.proposer
            &&& q.subject == p.subject
            &&& q.claim_type == p.claim_type
            &&& q.required_signers == p.required_signers
            &&& q.threshold == p.threshold
            &&& q.created_at == p.created_at
            &&& q.expires_at == p.expires_at
        }),
{
}

/// A co-signature short of the threshold is added to the proposal; observers are told how many
/// there are; nothing else changes.
pub proof fn what_cosigning_does(s: EnvView, issuer: Address, id: Seq<u8>)
    requires
        !s.multisig_proposals[id].finalized,
        s.multisig_proposals[id].id == id,
        s.multisig_proposals[id].signers.len() + 1 < s.multisig_proposals[id].threshold,
    ensures
        ({
            let p = s.multisig_proposals[id];
            s.cosigned(issuer, id) == EnvView {
                multisig_proposals: s.multisig_proposals.insert(
                    id,
                    MultiSigProposalView { signers: p.signers.push(issuer), ..p },
                ),
                lifetimes: s.extend(StorageKeyView::MultiSigProposal(id), s.lifetime()).lifetimes,
                effects: s.effects.push(
                    EffectView::Publish(
                        EventView::MultisigCosigned {
                            proposal_id: id,
                            issuer,
                            signatures: p.signers.len() + 1,
                            threshold: p.threshold,
                        },
                    ),
                ),
                ..s
            }
        }),
{
}

/// With the co-signature that reaches the threshold the proposal is final, and an attestation is
/// put on the ledger: of the proposer, about the subject, with the claim type of the proposal,
/// made when the proposal was, native, without expiration. It is listed last for its subject and
/// for the proposer, counted once for the proposer and once overall, and logged as made by the
/// proposer now. Observers are told of the signature, of the attestation and that the proposal has
/// become it, in this order. Nothing else changes.
pub proof fn what_the_last_signature_does(s: EnvView, issuer: Address, id: Seq<u8>)
    requires
        s.multisig_proposals[id].id == id,
        s.multisig_proposals[id].signers.len() + 1 >= s.multisig_proposals[id].threshold,
    ensures
        ({
            let p = s.multisig_proposals[id];
            let made = attestation_id(p.proposer, p.subject, p.claim_type, p.created_at);
            let a = AttestationView {
                id: made,
                issuer: p.proposer,
                subject: p.subject,
                claim_type: p.claim_type,
                timestamp: p.created_at,
                expiration: None,
                revoked: false,
                deleted: false,
                metadata: None,
                jurisdiction: None,
                valid_from: None,
                origin: AttestationOrigin::Native,
                source_chain: None,
                source_tx: None,
                tags: None,
                revocation_reason: None,
            };
            let entry = AuditEntryView {
                action: AuditAction::Created,
                actor: p.proposer,
                timestamp: s.timestamp,
                details: None,
            };
            s.cosigned(issuer, id) == EnvView {
                multisig_proposals: s.multisig_proposals.insert(
                    id,
                    MultiSigProposalView {
                        signers: p.signers.push(issuer),
                        finalized: true,
                        ..p
                    },
                ),
                attestations: s.attestations.insert(made, a),
                subject_attestations: s.subject_attestations.insert(
                    p.subject,
                    s.subject_ids(p.subject).push(made),
                ),
                issuer_attestations: s.issuer_attestations.insert(
                    p.proposer,
                    s.issuer_ids(p.proposer).push(made),
                ),
                issuer_stats: s.issuer_stats.insert(
                    p.proposer,
                    IssuerStats {
                        total_issued: (s.stats_of(p.proposer).total_issued + 1) as u64,
                    },
                ),
                global_stats: GlobalStats {
                    total_attestations: if s.global_stats.total_attestations < u64::MAX {
                        (s.global_stats.total_attestations + 1) as u64
                    } else {
                        u64::MAX
                    },
                    ..s.global_stats
                },
                audit_logs: s.audit_logs.insert(made, s.audit_log(made).push(entry)),
                instance_ttl: s.extend_instance(s.lifetime()).instance_ttl,
                lifetimes: s.extend(StorageKeyView::MultiSigProposal(id), s.lifetime()).extend(
                    StorageKeyView::Attestation(made),
                    s.lifetime(),
                ).extend(StorageKeyView::SubjectAttestations(p.subject), s.lifetime()).extend(
                    StorageKeyView::IssuerAttestations(p.proposer),
                    s.lifetime(),
                ).extend(StorageKeyView::IssuerStats(p.proposer), s.lifetime()).extend(
                    StorageKeyView::AuditLog(made),
                    s.lifetime(),
                ).lifetimes,
                effects: s.effects.push(
                    EffectView::Publish(
                        EventView::MultisigCosigned {
                            proposal_id: id,
                            issuer,
                            signatures: p.signers.len() + 1,
                            threshold: p.threshold,
                        },
                    ),
                ).push(EffectView::Publish(EventView::AttestationCreated(a))).push(
                    EffectView::Publish(
                        EventView::MultisigActivated { proposal_id: id, attestation_id: made },
                    ),
                ),
                ..s
            }
        }),
{
}

/// Somebody has endorsed exactly if one of the endorsements, at whatever place, is theirs.
pub proof fn endorsers_are_found(endorsements: Seq<EndorsementView>, endorser: Address)
    ensures
        forall|i: int|
            0 <= i < endorsements.len() && (#[trigger] endorsements[i]).endorser == endorser
                ==> endorsed_by(endorsements, endorser),
        endorsed_by(endorsements, endorser) ==> exists|i: int|
            0 <= i < endorsements.len() && (#[trigger] endorsements[i]).endorser == endorser,
{
}

/// A registered issuer can endorse exactly an attestation that is there, of another issuer, not
/// revoked and not endorsed by it before.
pub proof fn what_endorsing_takes(s: EnvView, endorser: Address, id: Seq<u8>)
    ensures
        ({
            let error = s.endorse_error(endorser, id);
            let a0 = s.issuers.contains_key(endorser);
            let a1 = a0 && s.attestations.contains_key(id);
            let a2 = a1 && s.attestations[id].issuer != endorser;
            let a3 = a2 && !s.attestations[id].revoked;
            let a4 = a3 && forall|i: int|
                0 <= i < s.endorsements_of(id).len() ==> (
                #[trigger] s.endorsements_of(id)[i]).endorser != endorser;
            &&& a4 ==> error is None
            &&& !a0 ==> error == Some(Error::Unauthorized)
            &&& a0 && !a1 ==> error == Some(Error::NotFound)
            &&& a1 && !a2 ==> error == Some(Error::CannotEndorseOwn)
            &&& a2 && !a3 ==> error == Some(Error::AlreadyRevoked)
            &&& a3 && !a4 ==> error == Some(Error::AlreadyEndorsed)
        }),
{
}

/// An endorsement, by the endorser, made now, is added to those of the attestation; observers are
/// told; nothing else changes.
pub proof fn what_endorsing_does(s: EnvView, endorser: Address, id: Seq<u8>)
    ensures
        s.endorsed(endorser, id) == (EnvView {
            endorsements: s.endorsements.insert(
                id,
                s.endorsements_of(id).push(
                    EndorsementView { attestation_id: id, endorser, timestamp: s.timestamp },
                ),
            ),
            lifetimes: s.extend(StorageKeyView::Endorsements(id), s.lifetime()).lifetimes,
            effects: s.effects.push(
                EffectView::Publish(
                    EventView::AttestationEndorsed {
                        attestation_id: id,
                        endorser,
                        timestamp: s.timestamp,
                    },
                ),
            ),
            ..s
        }),
{
}

} // verus!

//! Attestations that take the signatures of several issuers, and endorsements
//! of attestations by issuers other than their own.

use crate::address::Address;
use crate::contract::TrustLinkContract;
use crate::env::{Env, EnvView};
use crate::events::{Event, EventView};
use crate::ident::proposal_id;
use crate::issuance::{audit_creation, can_count, created_entry, plain_record, store_attestation};
use crate::list::{has_address, push};
use crate::storage::Storage;
use crate::text::Text;
use crate::types::{
    Attestation, AttestationOrigin, AttestationView, Endorsement, EndorsementView, Error,
    MultiSigProposal, MultiSigProposalView, MULTISIG_PROPOSAL_TTL_SECS,
};
use crate::validation::{first, refusal, settled, unless, Validation};
use vstd::prelude::*;

verus! {

/// The attestation that a proposal becomes.
pub open spec fn agreed_record(p: MultiSigProposalView) -> AttestationView {
    plain_record(
        p.proposer,
        p.subject,
        p.claim_type,
        p.created_at,
        None,
        AttestationOrigin::Native,
    )
}

/// The proposal with one more signature.
pub open spec fn signed_by(p: MultiSigProposalView, issuer: Address) -> MultiSigProposalView {
    MultiSigProposalView {
        signers: p.signers.push(issuer),
        finalized: p.finalized || p.signers.len() + 1 >= p.threshold,
        ..p
    }
}

/// Whether one of the endorsements is by `endorser`.
pub open spec fn endorsed_by(endorsements: Seq<EndorsementView>, endorser: Address) -> bool {
    exists|i: int|
        0 <= i < endorsements.len() && (#[trigger] endorsements[i]).endorser == endorser
}

impl EnvView {
    /// Proposing takes registered issuers, the proposer and all that may co-sign, and a
    /// threshold that they can reach.
    pub open spec fn propose_error(
        self,
        proposer: Address,
        required_signers: Seq<Address>,
        threshold: u32,
    ) -> Option<Error> {
        first(
            self.issuer_error(proposer),
            first(
                unless(
                    forall|i: int|
                        0 <= i < required_signers.len() ==> self.issuers.contains_key(
                            #[trigger] required_signers[i],
                        ),
                    Error::Unauthorized,
                ),
                unless(
                    0 < threshold <= required_signers.len(),
                    Error::InvalidThreshold,
                ),
            ),
        )
    }

    /// The proposal as it starts out: signed by the proposer alone.
    pub open spec fn proposal(
        self,
        proposer: Address,
        subject: Address,
        claim_type: Seq<u8>,
        required_signers: Seq<Address>,
        threshold: u32,
    ) -> MultiSigProposalView {
        MultiSigProposalView {
            id: proposal_id(proposer, subject, claim_type, self.timestamp),
            proposer,
            subject,
            claim_type,
            required_signers,
            threshold,
            signers: seq![proposer],
            created_at: self.timestamp,
            expires_at: (self.timestamp + MULTISIG_PROPOSAL_TTL_SECS) as u64,
            finalized: false,
        }
    }

    /// The ledger once the proposal has been made.
    pub open spec fn proposed(self, p: MultiSigProposalView) -> EnvView {
        self.with_multisig_proposal(p).publish(
            EventView::MultisigProposed {
                proposal_id: p.id,
                proposer: p.proposer,
                subject: p.subject,
                threshold: p.threshold,
            },
        )
    }

    /// Co-signing takes a registered issuer, while writes are not paused, a proposal that is
    /// still open, and an issuer that may sign it and has not done so.
    pub open spec fn cosign_error(self, issuer: Address, id: Seq<u8>) -> Option<Error> {
        let p = self.multisig_proposals[id];
        first(
            self.pause_error(),
            first(
                self.issuer_error(issuer),
                first(
                    unless(self.multisig_proposals.contains_key(id), Error::NotFound),
                    first(
                        unless(!p.finalized, Error::ProposalFinalized),
                        first(
                            unless(self.timestamp < p.expires_at, Error::ProposalExpired),
                            first(
                                unless(
                                    p.required_signers.contains(issuer),
                                    Error::NotRequiredSigner,
                                ),
                                unless(!p.signers.contains(issuer), Error::AlreadySigned),
                            ),
                        ),
                    ),
                ),
            ),
        )
    }

    /// The ledger once `issuer` has co-signed. With the last signature that it takes, the
    /// proposal becomes an attestation.
    pub open spec fn cosigned(self, issuer: Address, id: Seq<u8>) -> EnvView {
        let p = signed_by(self.multisig_proposals[id], issuer);
        let told = self.publish(
            EventView::MultisigCosigned {
                proposal_id: id,
                issuer,
                signatures: p.signers.len(),
                threshold: p.threshold,
            },
        ).with_multisig_proposal(p);
        if p.finalized {
            let a = agreed_record(p);
            told.stored(a).publish(EventView::AttestationCreated(a)).with_audit(
                a.id,
                created_entry(a.issuer, self.timestamp),
            ).publish(EventView::MultisigActivated { proposal_id: id, attestation_id: a.id })
        } else {
            told
        }
    }

    /// Endorsing takes a registered issuer, and an attestation of another issuer that has not
    /// been revoked and that the endorser has not endorsed yet.
    pub open spec fn endorse_error(self, endorser: Address, id: Seq<u8>) -> Option<Error> {
        first(
            self.issuer_error(endorser),
            first(
                unless(self.attestations.contains_key(id), Error::NotFound),
                first(
                    unless(self.attestations[id].issuer != endorser, Error::CannotEndorseOwn),
                    first(
                        unless(!self.attestations[id].revoked, Error::AlreadyRevoked),
                        unless(
                            !endorsed_by(self.endorsements_of(id), endorser),
                            Error::AlreadyEndorsed,
                        ),
                    ),
                ),
            ),
        )
    }

    /// The ledger once `endorser` has endorsed the attestation `id`.
    pub open spec fn endorsed(self, endorser: Address, id: Seq<u8>) -> EnvView {
        self.with_endorsement(
            EndorsementView { attestation_id: id, endorser, timestamp: self.timestamp },
        ).publish(
            EventView::AttestationEndorsed {
                attestation_id: id,
                endorser,
                timestamp: self.timestamp,
            },
        )
    }

    /// Whether the attestation that the proposal `id` may become can still be counted.
    pub open spec fn can_count_proposal(self, id: Seq<u8>) -> bool {
        self.multisig_proposals.contains_key(id) ==> self.can_count(
            self.multisig_proposals[id].proposer,
            1,
        )
    }
}

/// Whether the attestation that the proposal `id` may become can still be counted.
pub fn can_count_proposal(env: &Env, id: &Text) -> (r: bool)
    ensures
        r == env@.can_count_proposal(id@),
{
    match Storage::get_multisig_proposal(env, id) {
        Ok(proposal) => can_count(env, &proposal.proposer, 1),
        Err(_) => true,
    }
}

/// Whether all the addresses are registered issuers.
fn check_signers(env: &Env, signers: &Vec<Address>) -> (r: Result<(), Error>)
    ensures
        refusal(r) == unless(
            forall|i: int|
                0 <= i < signers.len() ==> env@.issuers.contains_key(
                    #[trigger] signers.deep_view()[i],
                ),
            Error::Unauthorized,
        ),
{
    let ghost all = signers.deep_view();
    let mut i: usize = 0;
    while i < signers.len()
        invariant
            i <= signers.len(),
            all == signers.deep_view(),
            forall|j: int| 0 <= j < i ==> env@.issuers.contains_key(#[trigger] all[j]),
        decreases signers.len() - i,
    {
        assert(all[i as int] == signers[i as int]);
        Validation::require_issuer(env, &signers[i])?;
        i += 1;
    }
    Ok(())
}

/// Whether one of the endorsements is by `endorser`.
fn has_endorser(endorsements: &Vec<Endorsement>, endorser: &Address) -> (r: bool)
    ensures
        r == endorsed_by(endorsements.deep_view(), *endorser),
{
    let ghost all = endorsements.deep_view();
    let mut i: usize = 0;
    while i < endorsements.len()
        invariant
            i <= endorsements.len(),
            all == endorsements.deep_view(),
            forall|j: int| 0 <= j < i ==> (#[trigger] all[j]).endorser != *endorser,
        decreases endorsements.len() - i,
    {
        assert(all[i as int] == endorsements[i as int]@);
        if endorsements[i].endorser == *endorser {
            return true;
        }
        i += 1;
    }
    false
}

impl TrustLinkContract {
    /// Proposes an attestation that other issuers have to co-sign, and signs it. It can be
    /// co-signed for [`MULTISIG_PROPOSAL_TTL_SECS`] seconds.
    pub fn propose_attestation(
        env: &mut Env,
        proposer: Address,
        subject: Address,
        claim_type: Text,
        required_signers: Vec<Address>,
        threshold: u32,
    ) -> (r: Result<Text, Error>)
        requires
            old(env)@.authorized(proposer),
            old(env)@.propose_error(proposer, required_signers.deep_view(), threshold) is None
                ==> old(env)@.lifetime_fits() && old(env)@.timestamp + MULTISIG_PROPOSAL_TTL_SECS
                <= u64::MAX,
        ensures
            ({
                let error = old(env)@.propose_error(
                    proposer,
                    required_signers.deep_view(),
                    threshold,
                );
                let proposal = old(env)@.proposal(
                    proposer,
                    subject,
                    claim_type@,
                    required_signers.deep_view(),
                    threshold,
                );
                &&& refusal(r) == error
                &&& r is Ok ==> r->Ok_0@ == proposal.id
                &&& final(env)@ == settled(error, old(env)@.proposed(proposal), old(env)@)
            }),
    {
        let ghost expected = env@.proposal(
            proposer,
            subject,
            claim_type@,
            required_signers.deep_view(),
            threshold,
        );
        Validation::require_issuer(env, &proposer)?;
        check_signers(env, &required_signers)?;
        if threshold == 0 || threshold as u64 > required_signers.len() as u64 {
            return Err(Error::InvalidThreshold);
        }
        let timestamp = env.timestamp;
        let proposal_id = MultiSigProposal::generate_id(
            &proposer,
            &subject,
            &claim_type,
            timestamp,
        );
        let mut signers: Vec<Address> = Vec::new();
        signers.push(proposer);
        assert(signers.deep_view() =~= seq![proposer]);
        let proposal = MultiSigProposal {
            id: proposal_id.clone(),
            proposer,
            subject,
            claim_type,
            required_signers,
            threshold,
            signers,
            created_at: timestamp,
            expires_at: timestamp + MULTISIG_PROPOSAL_TTL_SECS,
            finalized: false,
        };
        assert(proposal@ =~= expected);
        Storage::set_multisig_proposal(env, &proposal);
        env.publish(
            Event::MultisigProposed {
                proposal_id: proposal_id.clone(),
                proposer,
                subject,
                threshold,
            },
        );
        Ok(proposal_id)
    }

    /// Co-signs a proposal. With the last signature that it takes, it becomes an attestation.
    pub fn cosign_attestation(env: &mut Env, issuer: Address, proposal_id: Text) -> (r: Result<
        (),
        Error,
    >)
        requires
            old(env)@.authorized(issuer),
            old(env)@.cosign_error(issuer, proposal_id@) is None ==> old(env)@.lifetime_fits(),
            old(env)@.cosign_error(issuer, proposal_id@) is None && signed_by(
                old(env)@.multisig_proposals[proposal_id@],
                issuer,
            ).finalized ==> old(env)@.can_count_proposal(proposal_id@),
        ensures
            refusal(r) == old(env)@.cosign_error(issuer, proposal_id@),
            final(env)@ == settled(
                old(env)@.cosign_error(issuer, proposal_id@),
                old(env)@.cosigned(issuer, proposal_id@),
                old(env)@,
            ),
    {
        Validation::require_not_paused(env)?;
        Validation::require_issuer(env, &issuer)?;
        let mut proposal = Storage::get_multisig_proposal(env, &proposal_id)?;
        let ghost before = proposal@;
        if proposal.finalized {
            return Err(Error::ProposalFinalized);
        }
        if env.timestamp >= proposal.expires_at {
            return Err(Error::ProposalExpired);
        }
        if !has_address(&proposal.required_signers, &issuer) {
            return Err(Error::NotRequiredSigner);
        }
        if has_address(&proposal.signers, &issuer) {
            return Err(Error::AlreadySigned);
        }
        push(&mut proposal.signers, issuer);
        let signatures = proposal.signers.len();
        assert(signatures == proposal.signers.deep_view().len());
        env.publish(
            Event::MultisigCosigned {
                proposal_id: proposal_id.clone(),
                issuer,
                signatures,
                threshold: proposal.threshold,
            },
        );
        if signatures as u64 >= proposal.threshold as u64 {
            proposal.finalized = true;
            assert(proposal@ =~= signed_by(before, issuer));
            Storage::set_multisig_proposal(env, &proposal);
            let attestation_id = Attestation::generate_id(
                &proposal.proposer,
                &proposal.subject,
                &proposal.claim_type,
                proposal.created_at,
            );
            let attestation = Attestation {
                id: attestation_id.clone(),
                issuer: proposal.proposer,
                subject: proposal.subject,
                claim_type: proposal.claim_type,
                timestamp: proposal.created_at,
                expiration: None,
                revoked: false,
                deleted: false,
                metadata: None,
                jurisdiction: None,
                valid_from: None,
                origin: AttestationOrigin::Native,
                source_chain: None,
                source_tx: None,
                tags: None,
                revocation_reason: None,
            };
            assert(attestation@ =~= agreed_record(signed_by(before, issuer)));
            store_attestation(env, &attestation);
            env.publish(Event::AttestationCreated(attestation));
            let timestamp = env.timestamp;
            audit_creation(env, &attestation_id, proposal.proposer, timestamp);
            env.publish(Event::MultisigActivated { proposal_id, attestation_id });
        } else {
            assert(proposal@ =~= signed_by(before, issuer));
            Storage::set_multisig_proposal(env, &proposal);
        }
        Ok(())
    }

    /// The proposal `proposal_id`. Fails with [`Error::NotFound`] where there is none.
    pub fn get_multisig_proposal(env: &Env, proposal_id: Text) -> (r: Result<
        MultiSigProposal,
        Error,
    >)
        ensures
            refusal(r) == unless(
                env@.multisig_proposals.contains_key(proposal_id@),
                Error::NotFound,
            ),
            r is Ok ==> r->Ok_0@ == env@.multisig_proposals[proposal_id@],
    {
        Storage::get_multisig_proposal(env, &proposal_id)
    }

    /// Endorses an attestation of another issuer.
    pub fn endorse_attestation(env: &mut Env, endorser: Address, attestation_id: Text) -> (r:
        Result<(), Error>)
        requires
            old(env)@.authorized(endorser),
            old(env)@.endorse_error(endorser, attestation_id@) is None
                ==> old(env)@.lifetime_fits(),
        ensures
            refusal(r) == old(env)@.endorse_error(endorser, attestation_id@),
            final(env)@ == settled(
                old(env)@.endorse_error(endorser, attestation_id@),
                old(env)@.endorsed(endorser, attestation_id@),
                old(env)@,
            ),
    {
        Validation::require_issuer(env, &endorser)?;
        let attestation = Storage::get_attestation(env, &attestation_id)?;
        if attestation.issuer == endorser {
            return Err(Error::CannotEndorseOwn);
        }
        if attestation.revoked {
            return Err(Error::AlreadyRevoked);
        }
        let endorsements = Storage::get_endorsements(env, &attestation_id);
        if has_endorser(&endorsements, &endorser) {
            return Err(Error::AlreadyEndorsed);
        }
        let timestamp = env.timestamp;
        let endorsement = Endorsement {
            attestation_id: attestation_id.clone(),
            endorser,
            timestamp,
        };
        Storage::add_endorsement(env, &endorsement);
        env.publish(Event::AttestationEndorsed { attestation_id, endorser, timestamp });
        Ok(())
    }
}

} // verus!

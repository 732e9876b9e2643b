//! What values in memory stand for: records and events show each of their fields as it is, and
//! nothing is left out or made up.

use crate::address::Address;
use crate::env::Env;
use crate::events::{Effect, EffectView, Event, EventView};
use crate::storage::{StorageKey, StorageKeyView};
use crate::text::Text;
use crate::types::{
    AdminCouncil, Attestation, AuditEntry, ClaimTypeInfo, ContractMetadata, CouncilProposal,
    Endorsement, ExpirationHook, FeeConfig, GlobalStats, HealthStatus, IssuerMetadata,
    IssuerStats, IssuerTier, MultiSigProposal, RateLimitConfig, StorageLimits, TtlConfig,
};
use vstd::prelude::*;

verus! {

/// Texts stand for their bytes, in order.
pub proof fn texts_stand_for_their_bytes(text: Text)
    ensures
        text@ == text.bytes@,
        text.deep_view() == text@,
{
}

/// Values without texts or lists in them stand for themselves.
pub proof fn plain_values_stand_for_themselves(
    address: Address,
    issuer_tier: IssuerTier,
    fee_config: FeeConfig,
    ttl_config: TtlConfig,
    rate_limit_config: RateLimitConfig,
    storage_limits: StorageLimits,
    global_stats: GlobalStats,
    issuer_stats: IssuerStats,
    health_status: HealthStatus,
    expiration_hook: ExpirationHook,
)
    ensures
        address@ == address,
        address.deep_view() == address,
        issuer_tier@ == issuer_tier,
        issuer_tier.deep_view() == issuer_tier,
        fee_config@ == fee_config,
        fee_config.deep_view() == fee_config,
        ttl_config@ == ttl_config,
        ttl_config.deep_view() == ttl_config,
        rate_limit_config@ == rate_limit_config,
        rate_limit_config.deep_view() == rate_limit_config,
        storage_limits@ == storage_limits,
        storage_limits.deep_view() == storage_limits,
        global_stats@ == global_stats,
        global_stats.deep_view() == global_stats,
        issuer_stats@ == issuer_stats,
        issuer_stats.deep_view() == issuer_stats,
        health_status@ == health_status,
        health_status.deep_view() == health_status,
        expiration_hook@ == expiration_hook,
        expiration_hook.deep_view() == expiration_hook,
{
}

/// An attestation shows each of its fields.
pub proof fn attestations_show_their_fields(x: Attestation)
    ensures
        x@.id == x.id@,
        x@.issuer == x.issuer,
        x@.subject == x.subject,
        x@.claim_type == x.claim_type@,
        x@.timestamp == x.timestamp,
        x@.expiration == x.expiration,
        x@.revoked == x.revoked,
        x@.deleted == x.deleted,
        x@.metadata == x.metadata.deep_view(),
        x@.jurisdiction == x.jurisdiction.deep_view(),
        x@.valid_from == x.valid_from,
        x@.origin == x.origin,
        x@.source_chain == x.source_chain.deep_view(),
        x@.source_tx == x.source_tx.deep_view(),
        x@.tags == x.tags.deep_view(),
        x@.revocation_reason == x.revocation_reason.deep_view(),
        x.deep_view() == x@,
{
}

/// An audit entry shows each of its fields.
pub proof fn audit_entries_show_their_fields(x: AuditEntry)
    ensures
        x@.action == x.action,
        x@.actor == x.actor,
        x@.timestamp == x.timestamp,
        x@.details == x.details.deep_view(),
        x.deep_view() == x@,
{
}

/// An endorsement shows each of its fields.
pub proof fn endorsements_show_their_fields(x: Endorsement)
    ensures
        x@.attestation_id == x.attestation_id@,
        x@.endorser == x.endorser,
        x@.timestamp == x.timestamp,
        x.deep_view() == x@,
{
}

/// A claim type shows each of its fields.
pub proof fn claim_types_show_their_fields(x: ClaimTypeInfo)
    ensures
        x@.claim_type == x.claim_type@,
        x@.description == x.description@,
        x.deep_view() == x@,
{
}

/// What an issuer says about itself shows each of its fields.
pub proof fn issuer_metadata_shows_its_fields(x: IssuerMetadata)
    ensures
        x@.name == x.name@,
        x@.url == x.url@,
        x@.description == x.description@,
        x.deep_view() == x@,
{
}

/// A multi-signature proposal shows each of its fields.
pub proof fn multisig_proposals_show_their_fields(x: MultiSigProposal)
    ensures
        x@.id == x.id@,
        x@.proposer == x.proposer,
        x@.subject == x.subject,
        x@.claim_type == x.claim_type@,
        x@.required_signers == x.required_signers.deep_view(),
        x@.threshold == x.threshold,
        x@.signers == x.signers.deep_view(),
        x@.created_at == x.created_at,
        x@.expires_at == x.expires_at,
        x@.finalized == x.finalized,
        x.deep_view() == x@,
{
}

/// A council shows each of its fields.
pub proof fn councils_show_their_fields(x: AdminCouncil)
    ensures
        x@.members == x.members.deep_view(),
        x@.quorum == x.quorum,
        x.deep_view() == x@,
{
}

/// A council proposal shows each of its fields.
pub proof fn council_proposals_show_their_fields(x: CouncilProposal)
    ensures
        x@.id == x.id,
        x@.operation == x.operation,
        x@.proposer == x.proposer,
        x@.approvals == x.approvals.deep_view(),
        x@.executed == x.executed,
        x.deep_view() == x@,
{
}

/// What the contract says about itself shows each of its fields.
pub proof fn contract_metadata_shows_its_fields(x: ContractMetadata)
    ensures
        x@.name == x.name@,
        x@.version == x.version@,
        x@.description == x.description@,
        x.deep_view() == x@,
{
}

/// A ledger shows each of its fields.
pub proof fn ledgers_show_their_fields(x: Env)
    ensures
        x@.timestamp == x.timestamp,
        x@.auths == x.auths.deep_view(),
        x@.admin_council == x.admin_council.deep_view(),
        x@.version == x.version.deep_view(),
        x@.fee_config == x.fee_config,
        x@.ttl_config == x.ttl_config,
        x@.global_stats == x.global_stats,
        x@.rate_limit == x.rate_limit,
        x@.limits == x.limits,
        x@.council == x.council.deep_view(),
        x@.proposal_counter == x.proposal_counter,
        x@.paused == x.paused,
        x@.instance_ttl == x.instance_ttl,
        x@.issuers == x.issuers@,
        x@.bridges == x.bridges@,
        x@.attestations == x.attestations@,
        x@.subject_attestations == x.subject_attestations@,
        x@.issuer_attestations == x.issuer_attestations@,
        x@.issuer_metadata == x.issuer_metadata@,
        x@.claim_types == x.claim_types@,
        x@.claim_type_list == x.claim_type_list.deep_view(),
        x@.council_proposals == x.council_proposals@,
        x@.issuer_tiers == x.issuer_tiers@,
        x@.issuer_stats == x.issuer_stats@,
        x@.last_issuance == x.last_issuance@,
        x@.whitelist_modes == x.whitelist_modes@,
        x@.whitelist == x.whitelist@,
        x@.audit_logs == x.audit_logs@,
        x@.multisig_proposals == x.multisig_proposals@,
        x@.endorsements == x.endorsements@,
        x@.expiration_hooks == x.expiration_hooks@,
        x@.lifetimes == x.lifetimes@,
        x@.effects == x.effects.deep_view(),
{
}

/// An event is of its own kind and shows each of its fields.
pub proof fn events_show_their_fields(x: Event)
    ensures
        x matches Event::AdminInitialized { admin, timestamp }
            ==> x@ == (EventView::AdminInitialized {
            admin,
            timestamp,
        }),
        x matches Event::AdminTransferred { current_admin, new_admin }
            ==> x@ == (EventView::AdminTransferred {
            current_admin,
            new_admin,
        }),
        x matches Event::AdminAdded { by, admin, timestamp } ==> x@ == (EventView::AdminAdded {
            by,
            admin,
            timestamp,
        }),
        x matches Event::AdminRemoved { by, admin, timestamp } ==> x@ == (EventView::AdminRemoved {
            by,
            admin,
            timestamp,
        }),
        x matches Event::IssuerRegistered { issuer, admin, timestamp }
            ==> x@ == (EventView::IssuerRegistered {
            issuer,
            admin,
            timestamp,
        }),
        x matches Event::IssuerRemoved { issuer, admin, timestamp }
            ==> x@ == (EventView::IssuerRemoved {
            issuer,
            admin,
            timestamp,
        }),
        x matches Event::IssuerTierUpdated { issuer, tier }
            ==> x@ == (EventView::IssuerTierUpdated {
            issuer,
            tier,
        }),
        x matches Event::WhitelistModeEnabled { issuer }
            ==> x@ == (EventView::WhitelistModeEnabled {
            issuer,
        }),
        x matches Event::WhitelistUpdated { issuer, subject, added }
            ==> x@ == (EventView::WhitelistUpdated {
            issuer,
            subject,
            added,
        }),
        x matches Event::ContractPaused { admin, timestamp } ==> x@ == (EventView::ContractPaused {
            admin,
            timestamp,
        }),
        x matches Event::ContractUnpaused { admin, timestamp }
            ==> x@ == (EventView::ContractUnpaused {
            admin,
            timestamp,
        }),
        x matches Event::AttestationCreated(a) ==> x@ == EventView::AttestationCreated(a@),
        x matches Event::AttestationImported(a) ==> x@ == EventView::AttestationImported(a@),
        x matches Event::AttestationBridged(a) ==> x@ == EventView::AttestationBridged(a@),
        x matches Event::AttestationRevoked { attestation_id, issuer, reason }
            ==> x@ == (EventView::AttestationRevoked {
            attestation_id: attestation_id@,
            issuer,
            reason: reason.deep_view(),
        }),
        x matches Event::AttestationRenewed { attestation_id, issuer, new_expiration }
            ==> x@ == (EventView::AttestationRenewed {
            attestation_id: attestation_id@,
            issuer,
            new_expiration,
        }),
        x matches Event::AttestationExpired { attestation_id, subject }
            ==> x@ == (EventView::AttestationExpired {
            attestation_id: attestation_id@,
            subject,
        }),
        x matches Event::DeletionRequested { subject, attestation_id, timestamp }
            ==> x@ == (EventView::DeletionRequested {
            subject,
            attestation_id: attestation_id@,
            timestamp,
        }),
        x matches Event::ExpirationHookTriggered { subject, attestation_id, expiration }
            ==> x@ == (EventView::ExpirationHookTriggered {
            subject,
            attestation_id: attestation_id@,
            expiration,
        }),
        x matches Event::ClaimTypeRegistered { claim_type, description }
            ==> x@ == (EventView::ClaimTypeRegistered {
            claim_type: claim_type@,
            description: description@,
        }),
        x matches Event::MultisigProposed { proposal_id, proposer, subject, threshold }
            ==> x@ == (EventView::MultisigProposed {
            proposal_id: proposal_id@,
            proposer,
            subject,
            threshold,
        }),
        x matches Event::MultisigCosigned { proposal_id, issuer, signatures, threshold }
            ==> x@ == (EventView::MultisigCosigned {
            proposal_id: proposal_id@,
            issuer,
            signatures: signatures as nat,
            threshold,
        }),
        x matches Event::MultisigActivated { proposal_id, attestation_id }
            ==> x@ == (EventView::MultisigActivated {
            proposal_id: proposal_id@,
            attestation_id: attestation_id@,
        }),
        x matches Event::AttestationEndorsed { attestation_id, endorser, timestamp }
            ==> x@ == (EventView::AttestationEndorsed {
            attestation_id: attestation_id@,
            endorser,
            timestamp,
        }),
        x matches Event::CouncilInitialized { quorum, member_count }
            ==> x@ == (EventView::CouncilInitialized {
            quorum,
            member_count: member_count as nat,
        }),
        x matches Event::ProposalCreated { id, proposer } ==> x@ == (EventView::ProposalCreated {
            id,
            proposer,
        }),
        x matches Event::ProposalApproved { id, approver } ==> x@ == (EventView::ProposalApproved {
            id,
            approver,
        }),
        x matches Event::ProposalExecuted { id } ==> x@ == (EventView::ProposalExecuted { id }),
        x.deep_view() == x@,
{
}

/// An effect is of its own kind and shows each of its fields.
pub proof fn effects_show_their_fields(x: Effect)
    ensures
        x matches Effect::Publish(a) ==> x@ == EffectView::Publish(a@),
        x matches Effect::Transfer { token, from, to, amount } ==> x@ == (EffectView::Transfer {
            token,
            from,
            to,
            amount,
        }),
        x matches Effect::ProbeToken { token } ==> x@ == (EffectView::ProbeToken { token }),
        x matches Effect::NotifyExpiring { callback_contract, subject, attestation_id, expiration }
            ==> x@ == (EffectView::NotifyExpiring {
            callback_contract,
            subject,
            attestation_id: attestation_id@,
            expiration,
        }),
        x.deep_view() == x@,
{
}

/// A storage key is of its own kind and shows each of its fields.
pub proof fn storage_keys_show_their_fields(x: StorageKey)
    ensures
        x is Admin ==> x@ is Admin,
        x is AdminCouncil ==> x@ is AdminCouncil,
        x is Version ==> x@ is Version,
        x is FeeConfig ==> x@ is FeeConfig,
        x is TtlConfig ==> x@ is TtlConfig,
        x is GlobalStats ==> x@ is GlobalStats,
        x is RateLimit ==> x@ is RateLimit,
        x is Limits ==> x@ is Limits,
        x matches StorageKey::Issuer(a) ==> x@ == StorageKeyView::Issuer(a),
        x matches StorageKey::Bridge(a) ==> x@ == StorageKeyView::Bridge(a),
        x matches StorageKey::Attestation(a) ==> x@ == StorageKeyView::Attestation(a@),
        x matches StorageKey::SubjectAttestations(a) ==> x@ == StorageKeyView::SubjectAttestations(
            a,
        ),
        x matches StorageKey::IssuerAttestations(a) ==> x@ == StorageKeyView::IssuerAttestations(a),
        x matches StorageKey::IssuerMetadata(a) ==> x@ == StorageKeyView::IssuerMetadata(a),
        x matches StorageKey::ClaimType(a) ==> x@ == StorageKeyView::ClaimType(a@),
        x is ClaimTypeList ==> x@ is ClaimTypeList,
        x is Council ==> x@ is Council,
        x matches StorageKey::CouncilProposal(a) ==> x@ == StorageKeyView::CouncilProposal(a),
        x is ProposalCounter ==> x@ is ProposalCounter,
        x is Paused ==> x@ is Paused,
        x matches StorageKey::IssuerTier(a) ==> x@ == StorageKeyView::IssuerTier(a),
        x matches StorageKey::IssuerStats(a) ==> x@ == StorageKeyView::IssuerStats(a),
        x matches StorageKey::LastIssuance(a) ==> x@ == StorageKeyView::LastIssuance(a),
        x matches StorageKey::WhitelistMode(a) ==> x@ == StorageKeyView::WhitelistMode(a),
        x matches StorageKey::Whitelisted(a, b) ==> x@ == StorageKeyView::Whitelisted(a, b),
        x matches StorageKey::AuditLog(a) ==> x@ == StorageKeyView::AuditLog(a@),
        x matches StorageKey::MultiSigProposal(a) ==> x@ == StorageKeyView::MultiSigProposal(a@),
        x matches StorageKey::Endorsements(a) ==> x@ == StorageKeyView::Endorsements(a@),
        x matches StorageKey::ExpirationHook(a) ==> x@ == StorageKeyView::ExpirationHook(a),
        x.deep_view() == x@,
{
}

} // verus!

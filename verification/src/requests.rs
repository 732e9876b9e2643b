//! The requests that change the ledger, as values, so that laws can speak of
//! all of them and of what any number of them leads to.

use crate::address::Address;
use crate::env::{empty_ledger, EnvView};
use crate::ident::bridge_id;
use crate::issuance::Draft;
use crate::queries::{claim_of, Claim};
use crate::types::{
    CouncilOperation, Error, IssuerMetadataView, IssuerTier, RateLimitConfig, StorageLimits,
};
use crate::validation::{claim_type_error, first, settled};
use vstd::prelude::*;

verus! {

/// A request with its arguments.
pub enum Request {
    Initialize { admin: Address, ttl_days: Option<u32> },
    TransferAdmin { current_admin: Address, new_admin: Address },
    AddAdmin { existing_admin: Address, new_admin: Address },
    RemoveAdmin { existing_admin: Address, admin_to_remove: Address },
    Pause { admin: Address },
    Unpause { admin: Address },
    SetFee { admin: Address, fee: i128, collector: Address, fee_token: Option<Address> },
    SetRateLimit { admin: Address, config: RateLimitConfig },
    SetLimits { admin: Address, limits: StorageLimits },
    RegisterClaimType { admin: Address, claim_type: Seq<u8>, description: Seq<u8> },
    RegisterIssuer { admin: Address, issuer: Address },
    RemoveIssuer { admin: Address, issuer: Address },
    UpdateIssuerTier { admin: Address, issuer: Address, tier: IssuerTier },
    RegisterBridge { admin: Address, bridge: Address },
    SetIssuerMetadata { issuer: Address, metadata: IssuerMetadataView },
    SetWhitelistEnabled { issuer: Address, enabled: bool },
    EnableWhitelistMode { issuer: Address },
    AddToWhitelist { issuer: Address, subject: Address },
    RemoveFromWhitelist { issuer: Address, subject: Address },
    Create(Draft),
    Import {
        admin: Address,
        issuer: Address,
        subject: Address,
        claim_type: Seq<u8>,
        timestamp: u64,
        expiration: Option<u64>,
    },
    Bridge {
        bridge: Address,
        subject: Address,
        claim_type: Seq<u8>,
        source_chain: Seq<u8>,
        source_tx: Seq<u8>,
    },
    CreateBatch {
        issuer: Address,
        subjects: Seq<Address>,
        claim_type: Seq<u8>,
        expiration: Option<u64>,
    },
    Revoke { issuer: Address, id: Seq<u8>, reason: Option<Seq<u8>> },
    RevokeBatch { issuer: Address, ids: Seq<Seq<u8>>, reason: Option<Seq<u8>> },
    RequestDeletion { subject: Address, id: Seq<u8> },
    Renew { issuer: Address, id: Seq<u8>, expiration: Option<u64> },
    Propose {
        proposer: Address,
        subject: Address,
        claim_type: Seq<u8>,
        required_signers: Seq<Address>,
        threshold: u32,
    },
    Cosign { issuer: Address, id: Seq<u8> },
    Endorse { endorser: Address, id: Seq<u8> },
    InitCouncil { admin: Address, members: Seq<Address>, quorum: u32 },
    ProposeAction { proposer: Address, operation: CouncilOperation },
    ApproveAction { approver: Address, number: u32 },
    ExecuteAction { executor: Address, number: u32 },
    HasValidClaim { subject: Address, claim_type: Seq<u8> },
    HasValidClaimFromIssuer { subject: Address, claim_type: Seq<u8>, issuer: Address },
    GetAttestationStatus { id: Seq<u8> },
}

impl Request {
    /// The error on which the request founders on the ledger `s`, or `None` where it passes.
    #[verifier::opaque]
    pub open spec fn error(self, s: EnvView) -> Option<Error> {
        match self {
            Request::Initialize { admin, ttl_days } => s.initialize_error(),
            Request::TransferAdmin { current_admin, new_admin } => s.admin_error(current_admin),
            Request::AddAdmin { existing_admin, new_admin } => s.admin_error(existing_admin),
            Request::RemoveAdmin { existing_admin, admin_to_remove } => s.remove_admin_error(
                existing_admin,
            ),
            Request::Pause { admin } => s.admin_error(admin),
            Request::Unpause { admin } => s.admin_error(admin),
            Request::SetFee { admin, fee, collector, fee_token } => s.set_fee_error(
                admin,
                fee,
                collector,
                fee_token,
            ),
            Request::SetRateLimit { admin, config } => s.admin_error(admin),
            Request::SetLimits { admin, limits } => s.admin_error(admin),
            Request::RegisterClaimType { admin, claim_type, description } => first(
                s.admin_error(admin),
                claim_type_error(claim_type),
            ),
            Request::RegisterIssuer { admin, issuer } => s.admin_error(admin),
            Request::RemoveIssuer { admin, issuer } => s.admin_error(admin),
            Request::UpdateIssuerTier { admin, issuer, tier } => s.update_tier_error(
                admin,
                issuer,
            ),
            Request::RegisterBridge { admin, bridge } => s.admin_error(admin),
            Request::SetIssuerMetadata { issuer, metadata } => s.issuer_error(issuer),
            Request::SetWhitelistEnabled { issuer, enabled } => s.issuer_error(issuer),
            Request::EnableWhitelistMode { issuer } => s.issuer_error(issuer),
            Request::AddToWhitelist { issuer, subject } => s.issuer_error(issuer),
            Request::RemoveFromWhitelist { issuer, subject } => s.issuer_error(issuer),
            Request::Create(draft) => s.create_error(draft),
            Request::Import { admin, issuer, subject, claim_type, timestamp, expiration } =>
                s.import_error(admin, issuer, subject, claim_type, timestamp, expiration),
            Request::Bridge { bridge, subject, claim_type, source_chain, source_tx } =>
                s.bridging_error(
                    bridge,
                    bridge_id(
                        bridge,
                        subject,
                        claim_type,
                        source_chain,
                        source_tx,
                        s.timestamp,
                    ),
                ),
            Request::CreateBatch { issuer, subjects, claim_type, expiration } => s.batch_error(
                issuer,
                subjects,
                claim_type,
                expiration,
            ),
            Request::Revoke { issuer, id, reason } => s.revoke_error(issuer, id, reason),
            Request::RevokeBatch { issuer, ids, reason } => s.revoke_batch_error(
                issuer,
                ids,
                reason,
            ),
            Request::RequestDeletion { subject, id } => s.deletion_error(subject, id),
            Request::Renew { issuer, id, expiration } => s.renew_error(issuer, id, expiration),
            Request::Propose { proposer, subject, claim_type, required_signers, threshold } =>
                s.propose_error(proposer, required_signers, threshold),
            Request::Cosign { issuer, id } => s.cosign_error(issuer, id),
            Request::Endorse { endorser, id } => s.endorse_error(endorser, id),
            Request::InitCouncil { admin, members, quorum } => s.init_council_error(
                admin,
                members,
                quorum,
            ),
            Request::ProposeAction { proposer, operation } => s.propose_action_error(proposer),
            Request::ApproveAction { approver, number } => s.approve_action_error(
                approver,
                number,
            ),
            Request::ExecuteAction { executor, number } => s.execute_action_error(
                executor,
                number,
            ),
            Request::HasValidClaim { .. } => None,
            Request::HasValidClaimFromIssuer { .. } => None,
            Request::GetAttestationStatus { .. } => None,
        }
    }

    /// The ledger once the request has been carried out on the ledger `s`.
    pub open spec fn done(self, s: EnvView) -> EnvView {
        match self {
            Request::Initialize { admin, ttl_days } => s.initialized(admin, ttl_days),
            Request::TransferAdmin { current_admin, new_admin } => s.admin_transferred(
                current_admin,
                new_admin,
            ),
            Request::AddAdmin { existing_admin, new_admin } => s.admin_added(
                existing_admin,
                new_admin,
            ),
            Request::RemoveAdmin { existing_admin, admin_to_remove } => s.admin_removed(
                existing_admin,
                admin_to_remove,
            ),
            Request::Pause { admin } => s.paused_by(admin),
            Request::Unpause { admin } => s.unpaused_by(admin),
            Request::SetFee { admin, fee, collector, fee_token } => s.fee_set(
                fee,
                collector,
                fee_token,
            ),
            Request::SetRateLimit { admin, config } => s.with_rate_limit(config),
            Request::SetLimits { admin, limits } => s.with_limits(limits),
            Request::RegisterClaimType { admin, claim_type, description } =>
                s.claim_type_registered(claim_type, description),
            Request::RegisterIssuer { admin, issuer } => s.issuer_registered(admin, issuer),
            Request::RemoveIssuer { admin, issuer } => s.issuer_removed(admin, issuer),
            Request::UpdateIssuerTier { admin, issuer, tier } => s.tier_updated(issuer, tier),
            Request::RegisterBridge { admin, bridge } => s.with_bridge(bridge),
            Request::SetIssuerMetadata { issuer, metadata } => s.with_issuer_metadata(
                issuer,
                metadata,
            ),
            Request::SetWhitelistEnabled { issuer, enabled } => s.with_whitelist_mode(
                issuer,
                enabled,
            ),
            Request::EnableWhitelistMode { issuer } => s.whitelist_mode_enabled(issuer),
            Request::AddToWhitelist { issuer, subject } => s.whitelist_extended(issuer, subject),
            Request::RemoveFromWhitelist { issuer, subject } => s.whitelist_reduced(
                issuer,
                subject,
            ),
            Request::Create(draft) => s.created(draft),
            Request::Import { admin, issuer, subject, claim_type, timestamp, expiration } =>
                s.imported(admin, issuer, subject, claim_type, timestamp, expiration),
            Request::Bridge { bridge, subject, claim_type, source_chain, source_tx } => s.bridged(
                bridge,
                subject,
                claim_type,
                source_chain,
                source_tx,
            ),
            Request::CreateBatch { issuer, subjects, claim_type, expiration } => s.batch_created(
                issuer,
                subjects,
                claim_type,
                expiration,
            ),
            Request::Revoke { issuer, id, reason } => s.revoked(issuer, id, reason),
            Request::RevokeBatch { issuer, ids, reason } => s.batch_revoked(issuer, ids, reason),
            Request::RequestDeletion { subject, id } => s.deleted(subject, id),
            Request::Renew { issuer, id, expiration } => s.renewed(issuer, id, expiration),
            Request::Propose { proposer, subject, claim_type, required_signers, threshold } =>
                s.proposed(
                    s.proposal(proposer, subject, claim_type, required_signers, threshold),
                ),
            Request::Cosign { issuer, id } => s.cosigned(issuer, id),
            Request::Endorse { endorser, id } => s.endorsed(endorser, id),
            Request::InitCouncil { admin, members, quorum } => s.council_set_up(members, quorum),
            Request::ProposeAction { proposer, operation } => s.action_proposed(
                proposer,
                operation,
            ),
            Request::ApproveAction { approver, number } => s.action_approved(approver, number),
            Request::ExecuteAction { executor, number } => s.action_executed(number),
            Request::HasValidClaim { subject, claim_type } => s.claim_checked(
                subject,
                claim_of(claim_type),
            ),
            Request::HasValidClaimFromIssuer { subject, claim_type, issuer } => s.searched(
                subject,
                Claim { claim_type, issuer: Some(issuer) },
            ),
            Request::GetAttestationStatus { id } => s.status_checked(id),
        }
    }

    /// The ledger after the request.
    #[verifier::opaque]
    pub open spec fn after(self, s: EnvView) -> EnvView {
        settled(self.error(s), self.done(s), s)
    }

    /// Whether the request only asks about attestations.
    pub open spec fn is_question(self) -> bool {
        match self {
            Request::HasValidClaim { .. } => true,
            Request::HasValidClaimFromIssuer { .. } => true,
            Request::GetAttestationStatus { .. } => true,
            _ => false,
        }
    }

    /// Whether the request writes attestations.
    pub open spec fn writes_attestations(self) -> bool {
        match self {
            Request::Create(_) => true,
            Request::Import { .. } => true,
            Request::Bridge { .. } => true,
            Request::CreateBatch { .. } => true,
            Request::Revoke { .. } => true,
            Request::RevokeBatch { .. } => true,
            Request::RequestDeletion { .. } => true,
            Request::Renew { .. } => true,
            Request::Cosign { .. } => true,
            _ => false,
        }
    }
}

/// A request together with when it came and who authorized it.
pub struct Call {
    /// The request.
    pub request: Request,
    /// The time of the ledger.
    pub timestamp: u64,
    /// The addresses that authorized the request.
    pub auths: Seq<Address>,
}

impl EnvView {
    /// The ledger as the next request finds it: with its own time and authorizations, and
    /// nothing asked for yet.
    pub open spec fn opened(self, timestamp: u64, auths: Seq<Address>) -> EnvView {
        EnvView { timestamp, auths, effects: Seq::empty(), ..self }
    }
}

/// The ledger after a series of calls on a registry that nobody has used before.
pub open spec fn ledger_after(calls: Seq<Call>) -> EnvView
    decreases calls.len(),
{
    if calls.len() == 0 {
        empty_ledger(0)
    } else {
        let call = calls.last();
        call.request.after(
            ledger_after(calls.drop_last()).opened(call.timestamp, call.auths),
        )
    }
}

} // verus!

//! What each write of the storage layer puts on the ledger.

use crate::address::Address;
use crate::env::EnvView;
use crate::list::without;
use crate::storage::StorageKeyView;
use crate::types::{
    AdminCouncilView, AttestationView, AuditEntryView, ClaimTypeInfoView, CouncilProposalView,
    EndorsementView, FeeConfig, GlobalStats, IssuerMetadataView, IssuerStats, IssuerTier,
    MultiSigProposalView, RateLimitConfig, StorageLimits, TtlConfig,
};
use vstd::prelude::*;

verus! {

/// Settings, totals and the version are kept as given, with the instance tier kept alive; nothing
/// else changes.
pub proof fn settings_are_kept(
    s: EnvView,
    version: Seq<u8>,
    fees: FeeConfig,
    ttl: TtlConfig,
    rate: RateLimitConfig,
    limits: StorageLimits,
    stats: GlobalStats,
)
    ensures
        s.with_version(version) == (EnvView {
            version: Some(version),
            instance_ttl: s.extend_instance(s.lifetime()).instance_ttl,
            ..s
        }),
        s.with_fee_config(fees) == (EnvView {
            fee_config: Some(fees),
            instance_ttl: s.extend_instance(s.lifetime()).instance_ttl,
            ..s
        }),
        s.with_ttl_config(ttl) == (EnvView {
            ttl_config: Some(ttl),
            instance_ttl: s.extend_instance(s.lifetime()).instance_ttl,
            ..s
        }),
        s.with_rate_limit(rate) == (EnvView {
            rate_limit: Some(rate),
            instance_ttl: s.extend_instance(s.lifetime()).instance_ttl,
            ..s
        }),
        s.with_limits(limits) == (EnvView {
            limits: Some(limits),
            instance_ttl: s.extend_instance(s.lifetime()).instance_ttl,
            ..s
        }),
        s.with_global_stats(stats) == (EnvView {
            global_stats: stats,
            instance_ttl: s.extend_instance(s.lifetime()).instance_ttl,
            ..s
        }),
{
}

/// The pause flag, the council and its proposals are kept as given, alive for thirty days; nothing
/// else changes.
pub proof fn governance_is_kept(
    s: EnvView,
    paused: bool,
    council: AdminCouncilView,
    proposal: CouncilProposalView,
)
    ensures
        s.with_paused(paused) == (EnvView {
            paused,
            instance_ttl: s.extend_instance(518_400).instance_ttl,
            ..s
        }),
        s.with_council(council) == (EnvView {
            council: Some(council),
            instance_ttl: s.extend_instance(518_400).instance_ttl,
            ..s
        }),
        s.with_council_proposal(proposal) == (EnvView {
            council_proposals: s.council_proposals.insert(proposal.id, proposal),
            lifetimes: s.extend(StorageKeyView::CouncilProposal(proposal.id), 518_400).lifetimes,
            ..s
        }),
{
}

/// The administrators are kept as given. Adding one that is there, or taking out one that is not,
/// changes nothing; otherwise a new one goes to the end, and one that leaves leaves the others in
/// order.
pub proof fn administrators_are_kept(
    s: EnvView,
    council: Seq<Address>,
    admin: Address,
)
    ensures
        s.with_admins(council) == (EnvView {
            admin_council: Some(council),
            instance_ttl: s.extend_instance(s.lifetime()).instance_ttl,
            ..s
        }),
        s.admins().contains(admin) ==> s.with_admin(admin) == s,
        !s.admins().contains(admin) ==> s.with_admin(admin) == s.with_admins(
            s.admins().push(admin),
        ),
        !s.admins().contains(admin) ==> s.without_admin(admin) == s,
        s.admins().contains(admin) ==> s.without_admin(admin) == s.with_admins(
            without(s.admins(), admin),
        ),
{
}

/// The running totals move by as much as is counted, up to what they can show, each on its own.
pub proof fn totals_are_kept(
    s: EnvView,
    count: int,
)
    ensures
        ({
            let t = s.count_attestations(count);
            let sum = s.global_stats.total_attestations + count;
            &&& t == (EnvView {
                global_stats: GlobalStats {
                    total_attestations: t.global_stats.total_attestations,
                    ..s.global_stats
                },
                instance_ttl: s.extend_instance(s.lifetime()).instance_ttl,
                ..s
            })
            &&& 0 <= sum <= u64::MAX ==> t.global_stats.total_attestations == sum
            &&& sum > u64::MAX ==> t.global_stats.total_attestations == u64::MAX
            &&& sum < 0 ==> t.global_stats.total_attestations == 0
        }),
        ({
            let t = s.count_revocations(count);
            let sum = s.global_stats.total_revocations + count;
            &&& t == (EnvView {
                global_stats: GlobalStats {
                    total_revocations: t.global_stats.total_revocations,
                    ..s.global_stats
                },
                instance_ttl: s.extend_instance(s.lifetime()).instance_ttl,
                ..s
            })
            &&& 0 <= sum <= u64::MAX ==> t.global_stats.total_revocations == sum
            &&& sum > u64::MAX ==> t.global_stats.total_revocations == u64::MAX
            &&& sum < 0 ==> t.global_stats.total_revocations == 0
        }),
        ({
            let t = s.count_issuers(count);
            let sum = s.global_stats.total_issuers + count;
            &&& t == (EnvView {
                global_stats: GlobalStats {
                    total_issuers: t.global_stats.total_issuers,
                    ..s.global_stats
                },
                instance_ttl: s.extend_instance(s.lifetime()).instance_ttl,
                ..s
            })
            &&& 0 <= sum <= u64::MAX ==> t.global_stats.total_issuers == sum
            &&& sum > u64::MAX ==> t.global_stats.total_issuers == u64::MAX
            &&& sum < 0 ==> t.global_stats.total_issuers == 0
        }),
{
}

/// Registered issuers and bridge contracts are kept under their addresses; an issuer that leaves is
/// gone, with its lifetime; tiers, metadata, totals and the time of the last issuance are kept as
/// given; nothing else changes.
pub proof fn parties_are_kept(
    s: EnvView,
    who: Address,
    tier: IssuerTier,
    metadata: IssuerMetadataView,
    stats: IssuerStats,
    time: u64,
)
    ensures
        s.with_issuer(who) == (EnvView {
            issuers: s.issuers.insert(who, true),
            lifetimes: s.extend(StorageKeyView::Issuer(who), s.lifetime()).lifetimes,
            ..s
        }),
        s.without_issuer(who) == (EnvView {
            issuers: s.issuers.remove(who),
            lifetimes: s.lifetimes.remove(StorageKeyView::Issuer(who)),
            ..s
        }),
        s.with_bridge(who) == (EnvView {
            bridges: s.bridges.insert(who, true),
            lifetimes: s.extend(StorageKeyView::Bridge(who), s.lifetime()).lifetimes,
            ..s
        }),
        s.with_issuer_tier(who, tier) == (EnvView {
            issuer_tiers: s.issuer_tiers.insert(who, tier),
            lifetimes: s.extend(StorageKeyView::IssuerTier(who), s.lifetime()).lifetimes,
            ..s
        }),
        s.with_issuer_metadata(who, metadata) == (EnvView {
            issuer_metadata: s.issuer_metadata.insert(who, metadata),
            lifetimes: s.extend(StorageKeyView::IssuerMetadata(who), s.lifetime()).lifetimes,
            ..s
        }),
        s.with_issuer_stats(who, stats) == (EnvView {
            issuer_stats: s.issuer_stats.insert(who, stats),
            lifetimes: s.extend(StorageKeyView::IssuerStats(who), s.lifetime()).lifetimes,
            ..s
        }),
        s.with_last_issuance(who, time) == (EnvView {
            last_issuance: s.last_issuance.insert(who, time),
            lifetimes: s.extend(StorageKeyView::LastIssuance(who), s.lifetime()).lifetimes,
            ..s
        }),
{
}

/// Whitelist mode is kept as given; a subject is put on the whitelist of one issuer, or taken off
/// it, with its lifetime; nothing else changes.
pub proof fn whitelists_are_kept(
    s: EnvView,
    issuer: Address,
    subject: Address,
    enabled: bool,
)
    ensures
        s.with_whitelist_mode(issuer, enabled) == (EnvView {
            whitelist_modes: s.whitelist_modes.insert(issuer, enabled),
            lifetimes: s.extend(StorageKeyView::WhitelistMode(issuer), s.lifetime()).lifetimes,
            ..s
        }),
        s.with_whitelisted(issuer, subject) == (EnvView {
            whitelist: s.whitelist.insert((issuer, subject), true),
            lifetimes: s.extend(
                StorageKeyView::Whitelisted(issuer, subject),
                s.lifetime(),
            ).lifetimes,
            ..s
        }),
        s.without_whitelisted(issuer, subject) == (EnvView {
            whitelist: s.whitelist.remove((issuer, subject)),
            lifetimes: s.lifetimes.remove(StorageKeyView::Whitelisted(issuer, subject)),
            ..s
        }),
{
}

/// Records are kept under their identifiers and indexes under their parties, as given; entries and
/// endorsements go to the end of those that are there; nothing else changes.
pub proof fn records_are_kept(
    s: EnvView,
    a: AttestationView,
    who: Address,
    ids: Seq<Seq<u8>>,
    id: Seq<u8>,
    entry: AuditEntryView,
    p: MultiSigProposalView,
    e: EndorsementView,
)
    ensures
        s.with_attestation(a) == (EnvView {
            attestations: s.attestations.insert(a.id, a),
            lifetimes: s.extend(StorageKeyView::Attestation(a.id), s.lifetime()).lifetimes,
            ..s
        }),
        s.with_subject_ids(who, ids) == (EnvView {
            subject_attestations: s.subject_attestations.insert(who, ids),
            lifetimes: s.extend(StorageKeyView::SubjectAttestations(who), s.lifetime()).lifetimes,
            ..s
        }),
        s.with_issuer_ids(who, ids) == (EnvView {
            issuer_attestations: s.issuer_attestations.insert(who, ids),
            lifetimes: s.extend(StorageKeyView::IssuerAttestations(who), s.lifetime()).lifetimes,
            ..s
        }),
        s.with_audit(id, entry) == (EnvView {
            audit_logs: s.audit_logs.insert(id, s.audit_log(id).push(entry)),
            lifetimes: s.extend(StorageKeyView::AuditLog(id), s.lifetime()).lifetimes,
            ..s
        }),
        s.with_multisig_proposal(p) == (EnvView {
            multisig_proposals: s.multisig_proposals.insert(p.id, p),
            lifetimes: s.extend(StorageKeyView::MultiSigProposal(p.id), s.lifetime()).lifetimes,
            ..s
        }),
        s.with_endorsement(e) == (EnvView {
            endorsements: s.endorsements.insert(
                e.attestation_id,
                s.endorsements_of(e.attestation_id).push(e),
            ),
            lifetimes: s.extend(
                StorageKeyView::Endorsements(e.attestation_id),
                s.lifetime(),
            ).lifetimes,
            ..s
        }),
{
}

/// A claim type is kept under its name; a new one goes to the end of the list, and one that is
/// there keeps its place.
pub proof fn claim_types_are_kept(
    s: EnvView,
    info: ClaimTypeInfoView,
)
    ensures
        s.claim_types.contains_key(info.claim_type) ==> s.with_claim_type(info) == (EnvView {
            claim_types: s.claim_types.insert(info.claim_type, info),
            lifetimes: s.extend(
                StorageKeyView::ClaimType(info.claim_type),
                s.lifetime(),
            ).lifetimes,
            ..s
        }),
        !s.claim_types.contains_key(info.claim_type) ==> s.with_claim_type(info) == (EnvView {
            claim_types: s.claim_types.insert(info.claim_type, info),
            claim_type_list: s.claim_type_list.push(info.claim_type),
            lifetimes: s.extend(
                StorageKeyView::ClaimType(info.claim_type),
                s.lifetime(),
            ).extend(StorageKeyView::ClaimTypeList, s.lifetime()).lifetimes,
            ..s
        }),
{
}

} // verus!

//! Reading and writing the data of the registry.
//!
//! | Tier       | Data                                                        | Lifetime                |
//! |------------|-------------------------------------------------------------|-------------------------|
//! | Instance   | administrators, version, settings, totals, council, counter | one for all of it       |
//! | Persistent | everything else                                             | one for each entry      |
//!
//! A write keeps what it wrote alive for the configured number of days, thirty
//! unless set otherwise. A read leaves lifetimes alone.

use crate::address::Address;
use crate::env::{Env, EnvView};
use crate::list::{
    copy_addresses, copy_texts, has_address, page, push, without, without_address, without_text,
};
use crate::table::Key;
use crate::text::Text;
use crate::types::{
    AdminCouncil, AdminCouncilView, Attestation, AttestationView, AuditEntry, AuditEntryView,
    ClaimTypeInfo, ClaimTypeInfoView, CouncilProposal, CouncilProposalView, Endorsement,
    EndorsementView, Error, ExpirationHook, FeeConfig, GlobalStats, IssuerMetadata,
    IssuerMetadataView, IssuerStats, IssuerTier, MultiSigProposal, MultiSigProposalView,
    RateLimitConfig, StorageLimits, TtlConfig,
};
use vstd::prelude::*;

verus! {

/// Names of the pieces of data that the registry stores.
#[derive(Debug)]
pub enum StorageKey {
    /// The administrator, when there was only one.
    Admin,
    /// The administrators.
    AdminCouncil,
    /// The version set at initialization.
    Version,
    /// The fee settings.
    FeeConfig,
    /// The lifetime settings.
    TtlConfig,
    /// The running totals.
    GlobalStats,
    /// The rate limit settings.
    RateLimit,
    /// The storage limits.
    Limits,
    /// Presence of a registered issuer.
    Issuer(Address),
    /// Presence of a registered bridge contract.
    Bridge(Address),
    /// An attestation by its identifier.
    Attestation(Text),
    /// The identifiers of the attestations about a subject.
    SubjectAttestations(Address),
    /// The identifiers of the attestations of an issuer.
    IssuerAttestations(Address),
    /// What an issuer says about itself.
    IssuerMetadata(Address),
    /// A registered claim type.
    ClaimType(Text),
    /// The identifiers of the registered claim types.
    ClaimTypeList,
    /// The council: its members and its quorum.
    Council,
    /// A council proposal by its number.
    CouncilProposal(u32),
    /// The number of the latest council proposal.
    ProposalCounter,
    /// Whether attestation writes are paused.
    Paused,
    /// The tier given to an issuer.
    IssuerTier(Address),
    /// The running totals of an issuer.
    IssuerStats(Address),
    /// When an issuer last issued.
    LastIssuance(Address),
    /// Whether an issuer is in whitelist mode.
    WhitelistMode(Address),
    /// Presence of a subject on the whitelist of an issuer.
    Whitelisted(Address, Address),
    /// The audit log of an attestation.
    AuditLog(Text),
    /// A multi-signature proposal by its identifier.
    MultiSigProposal(Text),
    /// The endorsements of an attestation.
    Endorsements(Text),
    /// Whom to tell about claims of a subject that are about to expire.
    ExpirationHook(Address),
}

/// What a [`StorageKey`] stands for.
#[verifier::ext_equal]
pub enum StorageKeyView {
    /// The administrator, when there was only one.
    Admin,
    /// The administrators.
    AdminCouncil,
    /// The version set at initialization.
    Version,
    /// The fee settings.
    FeeConfig,
    /// The lifetime settings.
    TtlConfig,
    /// The running totals.
    GlobalStats,
    /// The rate limit settings.
    RateLimit,
    /// The storage limits.
    Limits,
    /// Presence of a registered issuer.
    Issuer(Address),
    /// Presence of a registered bridge contract.
    Bridge(Address),
    /// An attestation by its identifier.
    Attestation(Seq<u8>),
    /// The identifiers of the attestations about a subject.
    SubjectAttestations(Address),
    /// The identifiers of the attestations of an issuer.
    IssuerAttestations(Address),
    /// What an issuer says about itself.
    IssuerMetadata(Address),
    /// A registered claim type.
    ClaimType(Seq<u8>),
    /// The identifiers of the registered claim types.
    ClaimTypeList,
    /// The council: its members and its quorum.
    Council,
    /// A council proposal by its number.
    CouncilProposal(u32),
    /// The number of the latest council proposal.
    ProposalCounter,
    /// Whether attestation writes are paused.
    Paused,
    /// The tier given to an issuer.
    IssuerTier(Address),
    /// The running totals of an issuer.
    IssuerStats(Address),
    /// When an issuer last issued.
    LastIssuance(Address),
    /// Whether an issuer is in whitelist mode.
    WhitelistMode(Address),
    /// Presence of a subject on the whitelist of an issuer.
    Whitelisted(Address, Address),
    /// The audit log of an attestation.
    AuditLog(Seq<u8>),
    /// A multi-signature proposal by its identifier.
    MultiSigProposal(Seq<u8>),
    /// The endorsements of an attestation.
    Endorsements(Seq<u8>),
    /// Whom to tell about claims of a subject that are about to expire.
    ExpirationHook(Address),
}

impl View for StorageKey {
    type V = StorageKeyView;

    open spec fn view(&self) -> StorageKeyView {
        match self {
            StorageKey::Admin => StorageKeyView::Admin,
            StorageKey::AdminCouncil => StorageKeyView::AdminCouncil,
            StorageKey::Version => StorageKeyView::Version,
            StorageKey::FeeConfig => StorageKeyView::FeeConfig,
            StorageKey::TtlConfig => StorageKeyView::TtlConfig,
            StorageKey::GlobalStats => StorageKeyView::GlobalStats,
            StorageKey::RateLimit => StorageKeyView::RateLimit,
            StorageKey::Limits => StorageKeyView::Limits,
            StorageKey::Issuer(a) => StorageKeyView::Issuer(*a),
            StorageKey::Bridge(a) => StorageKeyView::Bridge(*a),
            StorageKey::Attestation(a) => StorageKeyView::Attestation(a@),
            StorageKey::SubjectAttestations(a) => StorageKeyView::SubjectAttestations(*a),
            StorageKey::IssuerAttestations(a) => StorageKeyView::IssuerAttestations(*a),
            StorageKey::IssuerMetadata(a) => StorageKeyView::IssuerMetadata(*a),
            StorageKey::ClaimType(a) => StorageKeyView::ClaimType(a@),
            StorageKey::ClaimTypeList => StorageKeyView::ClaimTypeList,
            StorageKey::Council => StorageKeyView::Council,
            StorageKey::CouncilProposal(a) => StorageKeyView::CouncilProposal(*a),
            StorageKey::ProposalCounter => StorageKeyView::ProposalCounter,
            StorageKey::Paused => StorageKeyView::Paused,
            StorageKey::IssuerTier(a) => StorageKeyView::IssuerTier(*a),
            StorageKey::IssuerStats(a) => StorageKeyView::IssuerStats(*a),
            StorageKey::LastIssuance(a) => StorageKeyView::LastIssuance(*a),
            StorageKey::WhitelistMode(a) => StorageKeyView::WhitelistMode(*a),
            StorageKey::Whitelisted(a, b) => StorageKeyView::Whitelisted(*a, *b),
            StorageKey::AuditLog(a) => StorageKeyView::AuditLog(a@),
            StorageKey::MultiSigProposal(a) => StorageKeyView::MultiSigProposal(a@),
            StorageKey::Endorsements(a) => StorageKeyView::Endorsements(a@),
            StorageKey::ExpirationHook(a) => StorageKeyView::ExpirationHook(*a),
        }
    }
}

impl DeepView for StorageKey {
    type V = StorageKeyView;

    open spec fn deep_view(&self) -> StorageKeyView {
        self@
    }
}

impl Key for StorageKey {
    fn same_key(&self, other: &StorageKey) -> (r: bool) {
        match (self, other) {
            (StorageKey::Admin, StorageKey::Admin) => true,
            (StorageKey::AdminCouncil, StorageKey::AdminCouncil) => true,
            (StorageKey::Version, StorageKey::Version) => true,
            (StorageKey::FeeConfig, StorageKey::FeeConfig) => true,
            (StorageKey::TtlConfig, StorageKey::TtlConfig) => true,
            (StorageKey::GlobalStats, StorageKey::GlobalStats) => true,
            (StorageKey::RateLimit, StorageKey::RateLimit) => true,
            (StorageKey::Limits, StorageKey::Limits) => true,
            (StorageKey::Issuer(a), StorageKey::Issuer(b)) => *a == *b,
            (StorageKey::Bridge(a), StorageKey::Bridge(b)) => *a == *b,
            (StorageKey::Attestation(a), StorageKey::Attestation(b)) => a.same(b),
            (StorageKey::SubjectAttestations(a), StorageKey::SubjectAttestations(b)) => *a == *b,
            (StorageKey::IssuerAttestations(a), StorageKey::IssuerAttestations(b)) => *a == *b,
            (StorageKey::IssuerMetadata(a), StorageKey::IssuerMetadata(b)) => *a == *b,
            (StorageKey::ClaimType(a), StorageKey::ClaimType(b)) => a.same(b),
            (StorageKey::ClaimTypeList, StorageKey::ClaimTypeList) => true,
            (StorageKey::Council, StorageKey::Council) => true,
            (StorageKey::CouncilProposal(a), StorageKey::CouncilProposal(b)) => *a == *b,
            (StorageKey::ProposalCounter, StorageKey::ProposalCounter) => true,
            (StorageKey::Paused, StorageKey::Paused) => true,
            (StorageKey::IssuerTier(a), StorageKey::IssuerTier(b)) => *a == *b,
            (StorageKey::IssuerStats(a), StorageKey::IssuerStats(b)) => *a == *b,
            (StorageKey::LastIssuance(a), StorageKey::LastIssuance(b)) => *a == *b,
            (StorageKey::WhitelistMode(a), StorageKey::WhitelistMode(b)) => *a == *b,
            (StorageKey::Whitelisted(a, b), StorageKey::Whitelisted(c, d)) => *a == *c && *b == *d,
            (StorageKey::AuditLog(a), StorageKey::AuditLog(b)) => a.same(b),
            (StorageKey::MultiSigProposal(a), StorageKey::MultiSigProposal(b)) => a.same(b),
            (StorageKey::Endorsements(a), StorageKey::Endorsements(b)) => a.same(b),
            (StorageKey::ExpirationHook(a), StorageKey::ExpirationHook(b)) => *a == *b,
            _ => false,
        }
    }

    fn copy_key(&self) -> (r: StorageKey) {
        match self {
            StorageKey::Admin => StorageKey::Admin,
            StorageKey::AdminCouncil => StorageKey::AdminCouncil,
            StorageKey::Version => StorageKey::Version,
            StorageKey::FeeConfig => StorageKey::FeeConfig,
            StorageKey::TtlConfig => StorageKey::TtlConfig,
            StorageKey::GlobalStats => StorageKey::GlobalStats,
            StorageKey::RateLimit => StorageKey::RateLimit,
            StorageKey::Limits => StorageKey::Limits,
            StorageKey::Issuer(a) => StorageKey::Issuer(*a),
            StorageKey::Bridge(a) => StorageKey::Bridge(*a),
            StorageKey::Attestation(a) => StorageKey::Attestation(a.clone()),
            StorageKey::SubjectAttestations(a) => StorageKey::SubjectAttestations(*a),
            StorageKey::IssuerAttestations(a) => StorageKey::IssuerAttestations(*a),
            StorageKey::IssuerMetadata(a) => StorageKey::IssuerMetadata(*a),
            StorageKey::ClaimType(a) => StorageKey::ClaimType(a.clone()),
            StorageKey::ClaimTypeList => StorageKey::ClaimTypeList,
            StorageKey::Council => StorageKey::Council,
            StorageKey::CouncilProposal(a) => StorageKey::CouncilProposal(*a),
            StorageKey::ProposalCounter => StorageKey::ProposalCounter,
            StorageKey::Paused => StorageKey::Paused,
            StorageKey::IssuerTier(a) => StorageKey::IssuerTier(*a),
            StorageKey::IssuerStats(a) => StorageKey::IssuerStats(*a),
            StorageKey::LastIssuance(a) => StorageKey::LastIssuance(*a),
            StorageKey::WhitelistMode(a) => StorageKey::WhitelistMode(*a),
            StorageKey::Whitelisted(a, b) => StorageKey::Whitelisted(*a, *b),
            StorageKey::AuditLog(a) => StorageKey::AuditLog(a.clone()),
            StorageKey::MultiSigProposal(a) => StorageKey::MultiSigProposal(a.clone()),
            StorageKey::Endorsements(a) => StorageKey::Endorsements(a.clone()),
            StorageKey::ExpirationHook(a) => StorageKey::ExpirationHook(*a),
        }
    }
}

/// The number of ledgers that close in a day.
pub const DAY_IN_LEDGERS: u32 = 17280;

/// For how many days a write keeps data alive unless set otherwise.
pub const DEFAULT_TTL_DAYS: u32 = 30;

/// For how many ledgers a write keeps data alive unless set otherwise.
pub const DEFAULT_INSTANCE_LIFETIME: u32 = DAY_IN_LEDGERS * DEFAULT_TTL_DAYS;

/// The storage limits that hold until others are set.
pub const DEFAULT_MAX_PER_ISSUER: u32 = 10_000;

/// The storage limits that hold until others are set.
pub const DEFAULT_MAX_PER_SUBJECT: u32 = 100;


/// The value for `key`, or `default` where there is none.
pub open spec fn lookup<K, V>(map: Map<K, V>, key: K, default: V) -> V {
    if map.contains_key(key) {
        map[key]
    } else {
        default
    }
}

/// The value for `key`, if there is one.
pub open spec fn find<K, V>(map: Map<K, V>, key: K) -> Option<V> {
    if map.contains_key(key) {
        Some(map[key])
    } else {
        None
    }
}

/// The sum, or the largest counter where the sum is too large for one.
pub open spec fn saturated(sum: int) -> u64 {
    if sum > u64::MAX {
        u64::MAX
    } else if sum < 0 {
        0
    } else {
        sum as u64
    }
}

impl EnvView {
    /// For how many ledgers a write keeps data alive.
    pub open spec fn lifetime(self) -> int {
        match self.ttl_config {
            Some(config) => DAY_IN_LEDGERS * config.ttl_days,
            None => DAY_IN_LEDGERS * DEFAULT_TTL_DAYS,
        }
    }

    /// Whether the configured lifetime, counted in ledgers, fits the ledger's counter.
    pub open spec fn lifetime_fits(self) -> bool {
        self.lifetime() <= u32::MAX
    }

    /// Keeps the entry `key` alive for at least `ledgers`.
    pub open spec fn extend(self, key: StorageKeyView, ledgers: int) -> EnvView {
        let known = lookup(self.lifetimes, key, 0);
        EnvView {
            lifetimes: self.lifetimes.insert(
                key,
                if known < ledgers {
                    ledgers as u32
                } else {
                    known
                },
            ),
            ..self
        }
    }

    /// Keeps the instance tier alive for at least `ledgers`.
    pub open spec fn extend_instance(self, ledgers: int) -> EnvView {
        EnvView {
            instance_ttl: if self.instance_ttl < ledgers {
                ledgers as u32
            } else {
                self.instance_ttl
            },
            ..self
        }
    }

    /// The administrators.
    pub open spec fn admins(self) -> Seq<Address> {
        match self.admin_council {
            Some(council) => council,
            None => Seq::empty(),
        }
    }

    /// Whether there is an administrator.
    pub open spec fn has_admin(self) -> bool {
        self.admins().len() > 0
    }

    /// The identifiers indexed for `subject`.
    pub open spec fn subject_ids(self, subject: Address) -> Seq<Seq<u8>> {
        lookup(self.subject_attestations, subject, Seq::empty())
    }

    /// The identifiers indexed for `issuer`.
    pub open spec fn issuer_ids(self, issuer: Address) -> Seq<Seq<u8>> {
        lookup(self.issuer_attestations, issuer, Seq::empty())
    }

    /// The running totals of `issuer`.
    pub open spec fn stats_of(self, issuer: Address) -> IssuerStats {
        lookup(self.issuer_stats, issuer, IssuerStats { total_issued: 0 })
    }

    /// The audit log of the attestation `id`.
    pub open spec fn audit_log(self, id: Seq<u8>) -> Seq<AuditEntryView> {
        lookup(self.audit_logs, id, Seq::empty())
    }

    /// The endorsements of the attestation `id`.
    pub open spec fn endorsements_of(self, id: Seq<u8>) -> Seq<EndorsementView> {
        lookup(self.endorsements, id, Seq::empty())
    }

    /// The storage limits in force.
    pub open spec fn limits_in_force(self) -> StorageLimits {
        match self.limits {
            Some(limits) => limits,
            None => StorageLimits {
                max_attestations_per_issuer: DEFAULT_MAX_PER_ISSUER,
                max_attestations_per_subject: DEFAULT_MAX_PER_SUBJECT,
            },
        }
    }

    /// Whether `issuer` is in whitelist mode.
    pub open spec fn whitelist_mode(self, issuer: Address) -> bool {
        lookup(self.whitelist_modes, issuer, false)
    }

    /// The tier of a registered issuer.
    pub open spec fn tier_of(self, issuer: Address) -> Option<IssuerTier> {
        if self.issuers.contains_key(issuer) {
            find(self.issuer_tiers, issuer)
        } else {
            None
        }
    }

    /// The ledger once `council` are the administrators.
    pub open spec fn with_admins(self, council: Seq<Address>) -> EnvView {
        EnvView { admin_council: Some(council), ..self }.extend_instance(self.lifetime())
    }

    /// The ledger once `admin` is an administrator.
    pub open spec fn with_admin(self, admin: Address) -> EnvView {
        if self.admins().contains(admin) {
            self
        } else {
            self.with_admins(self.admins().push(admin))
        }
    }

    /// The ledger once `admin` is no administrator.
    pub open spec fn without_admin(self, admin: Address) -> EnvView {
        if self.admins().contains(admin) {
            self.with_admins(without(self.admins(), admin))
        } else {
            self
        }
    }

    /// The ledger with the given version.
    pub open spec fn with_version(self, version: Seq<u8>) -> EnvView {
        EnvView { version: Some(version), ..self }.extend_instance(self.lifetime())
    }

    /// The ledger with the given fee settings.
    pub open spec fn with_fee_config(self, config: FeeConfig) -> EnvView {
        EnvView { fee_config: Some(config), ..self }.extend_instance(self.lifetime())
    }

    /// The ledger with the given lifetime settings. The write itself still goes by the settings
    /// before it.
    pub open spec fn with_ttl_config(self, config: TtlConfig) -> EnvView {
        EnvView { ttl_config: Some(config), ..self }.extend_instance(self.lifetime())
    }

    /// The ledger with the given rate limit settings.
    pub open spec fn with_rate_limit(self, config: RateLimitConfig) -> EnvView {
        EnvView { rate_limit: Some(config), ..self }.extend_instance(self.lifetime())
    }

    /// The ledger with the given storage limits.
    pub open spec fn with_limits(self, limits: StorageLimits) -> EnvView {
        EnvView { limits: Some(limits), ..self }.extend_instance(self.lifetime())
    }

    /// The ledger with the given running totals.
    pub open spec fn with_global_stats(self, stats: GlobalStats) -> EnvView {
        EnvView { global_stats: stats, ..self }.extend_instance(self.lifetime())
    }

    /// The ledger after `count` more attestations.
    pub open spec fn count_attestations(self, count: int) -> EnvView {
        self.with_global_stats(
            GlobalStats {
                total_attestations: saturated(self.global_stats.total_attestations + count),
                ..self.global_stats
            },
        )
    }

    /// The ledger after `count` more revocations.
    pub open spec fn count_revocations(self, count: int) -> EnvView {
        self.with_global_stats(
            GlobalStats {
                total_revocations: saturated(self.global_stats.total_revocations + count),
                ..self.global_stats
            },
        )
    }

    /// The ledger after the number of issuers changed by `change`.
    pub open spec fn count_issuers(self, change: int) -> EnvView {
        self.with_global_stats(
            GlobalStats {
                total_issuers: saturated(self.global_stats.total_issuers + change),
                ..self.global_stats
            },
        )
    }

    /// The ledger with the given council.
    pub open spec fn with_council(self, council: AdminCouncilView) -> EnvView {
        EnvView { council: Some(council), ..self }.extend_instance(
            DAY_IN_LEDGERS * DEFAULT_TTL_DAYS,
        )
    }

    /// The ledger with attestation writes paused, or not.
    pub open spec fn with_paused(self, paused: bool) -> EnvView {
        EnvView { paused, ..self }.extend_instance(DAY_IN_LEDGERS * DEFAULT_TTL_DAYS)
    }

    /// The ledger with `issuer` registered.
    pub open spec fn with_issuer(self, issuer: Address) -> EnvView {
        EnvView { issuers: self.issuers.insert(issuer, true), ..self }.extend(
            StorageKeyView::Issuer(issuer),
            self.lifetime(),
        )
    }

    /// The ledger without `issuer` in the registry.
    pub open spec fn without_issuer(self, issuer: Address) -> EnvView {
        EnvView {
            issuers: self.issuers.remove(issuer),
            lifetimes: self.lifetimes.remove(StorageKeyView::Issuer(issuer)),
            ..self
        }
    }

    /// The ledger with `bridge` registered.
    pub open spec fn with_bridge(self, bridge: Address) -> EnvView {
        EnvView { bridges: self.bridges.insert(bridge, true), ..self }.extend(
            StorageKeyView::Bridge(bridge),
            self.lifetime(),
        )
    }

    /// The ledger with the given attestation under its identifier.
    pub open spec fn with_attestation(self, attestation: AttestationView) -> EnvView {
        EnvView {
            attestations: self.attestations.insert(attestation.id, attestation),
            ..self
        }.extend(StorageKeyView::Attestation(attestation.id), self.lifetime())
    }

    /// The ledger with the given index for `subject`.
    pub open spec fn with_subject_ids(self, subject: Address, ids: Seq<Seq<u8>>) -> EnvView {
        EnvView {
            subject_attestations: self.subject_attestations.insert(subject, ids),
            ..self
        }.extend(StorageKeyView::SubjectAttestations(subject), self.lifetime())
    }

    /// The ledger with the given index for `issuer`.
    pub open spec fn with_issuer_ids(self, issuer: Address, ids: Seq<Seq<u8>>) -> EnvView {
        EnvView {
            issuer_attestations: self.issuer_attestations.insert(issuer, ids),
            ..self
        }.extend(StorageKeyView::IssuerAttestations(issuer), self.lifetime())
    }

    /// The ledger with `metadata` as what `issuer` says about itself.
    pub open spec fn with_issuer_metadata(
        self,
        issuer: Address,
        metadata: IssuerMetadataView,
    ) -> EnvView {
        EnvView { issuer_metadata: self.issuer_metadata.insert(issuer, metadata), ..self }.extend(
            StorageKeyView::IssuerMetadata(issuer),
            self.lifetime(),
        )
    }

    /// The ledger with the given claim type registered. A new one goes to the end of the list.
    pub open spec fn with_claim_type(self, info: ClaimTypeInfoView) -> EnvView {
        let recorded = EnvView {
            claim_types: self.claim_types.insert(info.claim_type, info),
            ..self
        }.extend(StorageKeyView::ClaimType(info.claim_type), self.lifetime());
        if self.claim_types.contains_key(info.claim_type) {
            recorded
        } else {
            EnvView {
                claim_type_list: self.claim_type_list.push(info.claim_type),
                ..recorded
            }.extend(StorageKeyView::ClaimTypeList, self.lifetime())
        }
    }

    /// The ledger with the given council proposal under its number.
    pub open spec fn with_council_proposal(self, proposal: CouncilProposalView) -> EnvView {
        EnvView {
            council_proposals: self.council_proposals.insert(proposal.id, proposal),
            ..self
        }.extend(
            StorageKeyView::CouncilProposal(proposal.id),
            DAY_IN_LEDGERS * DEFAULT_TTL_DAYS,
        )
    }

    /// The ledger with `tier` given to `issuer`.
    pub open spec fn with_issuer_tier(self, issuer: Address, tier: IssuerTier) -> EnvView {
        EnvView { issuer_tiers: self.issuer_tiers.insert(issuer, tier), ..self }.extend(
            StorageKeyView::IssuerTier(issuer),
            self.lifetime(),
        )
    }

    /// The ledger with the given running totals of `issuer`.
    pub open spec fn with_issuer_stats(self, issuer: Address, stats: IssuerStats) -> EnvView {
        EnvView { issuer_stats: self.issuer_stats.insert(issuer, stats), ..self }.extend(
            StorageKeyView::IssuerStats(issuer),
            self.lifetime(),
        )
    }

    /// The ledger with the time at which `issuer` last issued.
    pub open spec fn with_last_issuance(self, issuer: Address, time: u64) -> EnvView {
        EnvView { last_issuance: self.last_issuance.insert(issuer, time), ..self }.extend(
            StorageKeyView::LastIssuance(issuer),
            self.lifetime(),
        )
    }

    /// The ledger with whitelist mode of `issuer` on or off.
    pub open spec fn with_whitelist_mode(self, issuer: Address, enabled: bool) -> EnvView {
        EnvView { whitelist_modes: self.whitelist_modes.insert(issuer, enabled), ..self }.extend(
            StorageKeyView::WhitelistMode(issuer),
            self.lifetime(),
        )
    }

    /// The ledger with `subject` on the whitelist of `issuer`.
    pub open spec fn with_whitelisted(self, issuer: Address, subject: Address) -> EnvView {
        EnvView { whitelist: self.whitelist.insert((issuer, subject), true), ..self }.extend(
            StorageKeyView::Whitelisted(issuer, subject),
            self.lifetime(),
        )
    }

    /// The ledger with `subject` off the whitelist of `issuer`.
    pub open spec fn without_whitelisted(self, issuer: Address, subject: Address) -> EnvView {
        EnvView {
            whitelist: self.whitelist.remove((issuer, subject)),
            lifetimes: self.lifetimes.remove(StorageKeyView::Whitelisted(issuer, subject)),
            ..self
        }
    }

    /// The ledger with one more entry in the audit log of the attestation `id`.
    pub open spec fn with_audit(self, id: Seq<u8>, entry: AuditEntryView) -> EnvView {
        EnvView {
            audit_logs: self.audit_logs.insert(id, self.audit_log(id).push(entry)),
            ..self
        }.extend(StorageKeyView::AuditLog(id), self.lifetime())
    }

    /// The ledger with the given multi-signature proposal under its identifier.
    pub open spec fn with_multisig_proposal(self, proposal: MultiSigProposalView) -> EnvView {
        EnvView {
            multisig_proposals: self.multisig_proposals.insert(proposal.id, proposal),
            ..self
        }.extend(StorageKeyView::MultiSigProposal(proposal.id), self.lifetime())
    }

    /// The ledger with one more endorsement.
    pub open spec fn with_endorsement(self, endorsement: EndorsementView) -> EnvView {
        let id = endorsement.attestation_id;
        EnvView {
            endorsements: self.endorsements.insert(id, self.endorsements_of(id).push(endorsement)),
            ..self
        }.extend(StorageKeyView::Endorsements(id), self.lifetime())
    }
}


/// The part of `list` that begins at `start` and holds at most `limit` items.
pub fn paginate(list: &Vec<Text>, start: u32, limit: u32) -> (r: Vec<Text>)
    ensures
        r.deep_view() == page(list.deep_view(), start, limit),
{
    let ghost all = list.deep_view();
    let mut out: Vec<Text> = Vec::new();
    let first = start as usize;
    assert(out.deep_view() =~= Seq::<Seq<u8>>::empty());
    if first >= list.len() {
        return out;
    }
    let room = list.len() - first;
    let count = if (limit as usize) < room {
        limit as usize
    } else {
        room
    };
    let mut i: usize = 0;
    assert(out.deep_view() =~= all.subrange(first as int, first as int));
    while i < count
        invariant
            i <= count,
            first + count <= list.len(),
            all == list.deep_view(),
            out.deep_view() == all.subrange(first as int, first + i),
        decreases count - i,
    {
        push(&mut out, list[first + i].clone());
        assert(all.subrange(first as int, first + i + 1) =~= all.subrange(
            first as int,
            first + i,
        ).push(all[first + i]));
        i += 1;
    }
    assert(out.deep_view() =~= page(all, start, limit));
    out
}

/// For how many ledgers a write keeps data alive.
pub fn get_ttl_lifetime(env: &Env) -> (r: u32)
    requires
        env@.lifetime_fits(),
    ensures
        r == env@.lifetime(),
{
    match env.ttl_config {
        Some(config) => DAY_IN_LEDGERS * config.ttl_days,
        None => DEFAULT_INSTANCE_LIFETIME,
    }
}

/// Whether the configured lifetime, counted in ledgers, fits the ledger's counter.
pub fn lifetime_fits(env: &Env) -> (r: bool)
    ensures
        r == env@.lifetime_fits(),
{
    match env.ttl_config {
        Some(config) => DAY_IN_LEDGERS as u64 * config.ttl_days as u64 <= u32::MAX as u64,
        None => true,
    }
}

/// Keeps the entry `key` alive for at least `ledgers`.
fn extend_ttl(env: &mut Env, key: StorageKey, ledgers: u32)
    ensures
        final(env)@ == old(env)@.extend(key@, ledgers as int),
{
    let known: u32 = match env.lifetimes.get(&key) {
        Some(known) => *known,
        None => 0,
    };
    env.lifetimes.set(key, if known < ledgers {
        ledgers
    } else {
        known
    });
}

/// Keeps the instance tier alive for at least `ledgers`.
fn extend_instance_ttl(env: &mut Env, ledgers: u32)
    ensures
        final(env)@ == old(env)@.extend_instance(ledgers as int),
{
    if env.instance_ttl < ledgers {
        env.instance_ttl = ledgers;
    }
}

/// Reads and writes of the data of the registry.
pub struct Storage;

impl Storage {
    /// Whether there is an administrator.
    pub fn has_admin(env: &Env) -> (r: bool)
        ensures
            r == env@.has_admin(),
    {
        match Self::get_admin_council(env) {
            Ok(council) => council.len() > 0,
            Err(_) => false,
        }
    }

    /// Makes `admin` the only administrator.
    pub fn set_admin(env: &mut Env, admin: &Address)
        requires
            old(env)@.lifetime_fits(),
        ensures
            final(env)@ == old(env)@.with_admins(seq![*admin]),
    {
        let mut council: Vec<Address> = Vec::new();
        push(&mut council, *admin);
        assert(council.deep_view() =~= seq![*admin]);
        Self::set_admin_council(env, &council);
    }

    /// The administrators. Fails with [`Error::NotInitialized`] where none were ever set.
    pub fn get_admin_council(env: &Env) -> (r: Result<Vec<Address>, Error>)
        ensures
            match r {
                Ok(council) => env@.admin_council == Some(council.deep_view()),
                Err(e) => e == Error::NotInitialized && env@.admin_council is None,
            },
    {
        match &env.admin_council {
            Some(council) => Ok(copy_addresses(council)),
            None => Err(Error::NotInitialized),
        }
    }

    /// Makes `council` the administrators.
    pub fn set_admin_council(env: &mut Env, council: &Vec<Address>)
        requires
            old(env)@.lifetime_fits(),
        ensures
            final(env)@ == old(env)@.with_admins(council.deep_view()),
    {
        let ttl = get_ttl_lifetime(env);
        env.admin_council = Some(copy_addresses(council));
        extend_instance_ttl(env, ttl);
    }

    /// Whether `address` is an administrator.
    pub fn is_admin(env: &Env, address: &Address) -> (r: bool)
        ensures
            r == env@.admins().contains(*address),
    {
        match &env.admin_council {
            Some(council) => has_address(council, address),
            None => false,
        }
    }

    /// Makes `admin` an administrator, unless it is one already.
    pub fn add_admin(env: &mut Env, admin: &Address)
        requires
            !old(env)@.admins().contains(*admin) ==> old(env)@.lifetime_fits(),
        ensures
            final(env)@ == old(env)@.with_admin(*admin),
    {
        let mut council: Vec<Address> = match Self::get_admin_council(env) {
            Ok(council) => council,
            Err(_) => Vec::new(),
        };
        assert(council.deep_view() =~= env@.admins());
        if !has_address(&council, admin) {
            push(&mut council, *admin);
            Self::set_admin_council(env, &council);
        }
    }

    /// Takes `admin` off the administrators, if it is one.
    pub fn remove_admin(env: &mut Env, admin: &Address)
        requires
            old(env)@.admins().contains(*admin) ==> old(env)@.lifetime_fits(),
        ensures
            final(env)@ == old(env)@.without_admin(*admin),
    {
        let council: Vec<Address> = match Self::get_admin_council(env) {
            Ok(council) => council,
            Err(_) => Vec::new(),
        };
        assert(council.deep_view() =~= env@.admins());
        if has_address(&council, admin) {
            let rest = without_address(&council, admin);
            Self::set_admin_council(env, &rest);
        }
    }

    /// Sets the version.
    pub fn set_version(env: &mut Env, version: &Text)
        requires
            old(env)@.lifetime_fits(),
        ensures
            final(env)@ == old(env)@.with_version(version@),
    {
        let ttl = get_ttl_lifetime(env);
        env.version = Some(version.clone());
        extend_instance_ttl(env, ttl);
    }

    /// Sets the fee settings.
    pub fn set_fee_config(env: &mut Env, fee_config: &FeeConfig)
        requires
            old(env)@.lifetime_fits(),
        ensures
            final(env)@ == old(env)@.with_fee_config(*fee_config),
    {
        let ttl = get_ttl_lifetime(env);
        env.fee_config = Some(*fee_config);
        extend_instance_ttl(env, ttl);
    }

    /// Sets the lifetime settings.
    pub fn set_ttl_config(env: &mut Env, ttl_config: &TtlConfig)
        requires
            old(env)@.lifetime_fits(),
        ensures
            final(env)@ == old(env)@.with_ttl_config(*ttl_config),
    {
        let ttl = get_ttl_lifetime(env);
        env.ttl_config = Some(*ttl_config);
        extend_instance_ttl(env, ttl);
    }

    /// The version, if it was set.
    pub fn get_version(env: &Env) -> (r: Option<Text>)
        ensures
            r.deep_view() == env@.version,
    {
        match &env.version {
            Some(version) => Some(version.clone()),
            None => None,
        }
    }

    /// The fee settings, if they were set.
    pub fn get_fee_config(env: &Env) -> (r: Option<FeeConfig>)
        ensures
            r == env@.fee_config,
    {
        env.fee_config
    }

    /// The lifetime settings, if they were set.
    pub fn get_ttl_config(env: &Env) -> (r: Option<TtlConfig>)
        ensures
            r == env@.ttl_config,
    {
        env.ttl_config
    }

    /// The primary administrator. Fails with [`Error::NotInitialized`] where there is none.
    pub fn get_admin(env: &Env) -> (r: Result<Address, Error>)
        ensures
            match r {
                Ok(admin) => env@.has_admin() && admin == env@.admins()[0],
                Err(e) => e == Error::NotInitialized && !env@.has_admin(),
            },
    {
        let council = Self::get_admin_council(env)?;
        assert(council.deep_view().len() == council.len());
        if council.len() == 0 {
            Err(Error::NotInitialized)
        } else {
            assert(council.deep_view()[0] == council[0]);
            Ok(council[0])
        }
    }

    /// Whether `address` is a registered issuer.
    pub fn is_issuer(env: &Env, address: &Address) -> (r: bool)
        ensures
            r == env@.issuers.contains_key(*address),
    {
        env.issuers.has(address)
    }

    /// Registers `issuer`.
    pub fn add_issuer(env: &mut Env, issuer: &Address)
        requires
            old(env)@.lifetime_fits(),
        ensures
            final(env)@ == old(env)@.with_issuer(*issuer),
    {
        let ttl = get_ttl_lifetime(env);
        env.issuers.set(*issuer, true);
        extend_ttl(env, StorageKey::Issuer(*issuer), ttl);
    }

    /// Whether `address` is a registered bridge contract.
    pub fn is_bridge(env: &Env, address: &Address) -> (r: bool)
        ensures
            r == env@.bridges.contains_key(*address),
    {
        env.bridges.has(address)
    }

    /// Registers `bridge`.
    pub fn add_bridge(env: &mut Env, bridge: &Address)
        requires
            old(env)@.lifetime_fits(),
        ensures
            final(env)@ == old(env)@.with_bridge(*bridge),
    {
        let ttl = get_ttl_lifetime(env);
        env.bridges.set(*bridge, true);
        extend_ttl(env, StorageKey::Bridge(*bridge), ttl);
    }

    /// Takes `issuer` out of the registry.
    pub fn remove_issuer(env: &mut Env, issuer: &Address)
        ensures
            final(env)@ == old(env)@.without_issuer(*issuer),
    {
        env.issuers.remove(issuer);
        env.lifetimes.remove(&StorageKey::Issuer(*issuer));
    }

    /// Whether there is an attestation `id`.
    pub fn has_attestation(env: &Env, id: &Text) -> (r: bool)
        ensures
            r == env@.attestations.contains_key(id@),
    {
        env.attestations.has(id)
    }

    /// Writes `attestation` under its identifier.
    pub fn set_attestation(env: &mut Env, attestation: &Attestation)
        requires
            old(env)@.lifetime_fits(),
        ensures
            final(env)@ == old(env)@.with_attestation(attestation@),
    {
        let ttl = get_ttl_lifetime(env);
        env.attestations.set(attestation.id.clone(), attestation.clone());
        extend_ttl(env, StorageKey::Attestation(attestation.id.clone()), ttl);
    }

    /// The attestation `id`. Fails with [`Error::NotFound`] where there is none.
    pub fn get_attestation(env: &Env, id: &Text) -> (r: Result<Attestation, Error>)
        ensures
            match r {
                Ok(attestation) => find(env@.attestations, id@) == Some(attestation@),
                Err(e) => e == Error::NotFound && find(env@.attestations, id@) is None,
            },
    {
        match env.attestations.get(id) {
            Some(attestation) => Ok(attestation.clone()),
            None => Err(Error::NotFound),
        }
    }

    /// The identifiers indexed for `subject`, oldest first.
    pub fn get_subject_attestations(env: &Env, subject: &Address) -> (r: Vec<Text>)
        ensures
            r.deep_view() == env@.subject_ids(*subject),
    {
        match env.subject_attestations.get(subject) {
            Some(ids) => copy_texts(ids),
            None => {
                let none: Vec<Text> = Vec::new();
                assert(none.deep_view() =~= Seq::<Seq<u8>>::empty());
                none
            },
        }
    }

    /// Puts `attestation_id` at the end of the index of `subject`.
    pub fn add_subject_attestation(env: &mut Env, subject: &Address, attestation_id: &Text)
        requires
            old(env)@.lifetime_fits(),
        ensures
            final(env)@ == old(env)@.with_subject_ids(
                *subject,
                old(env)@.subject_ids(*subject).push(attestation_id@),
            ),
    {
        let ttl = get_ttl_lifetime(env);
        let mut ids = Self::get_subject_attestations(env, subject);
        push(&mut ids, attestation_id.clone());
        env.subject_attestations.set(*subject, ids);
        extend_ttl(env, StorageKey::SubjectAttestations(*subject), ttl);
    }

    /// Takes `attestation_id` out of the index of `subject`.
    pub fn remove_subject_attestation(env: &mut Env, subject: &Address, attestation_id: &Text)
        requires
            old(env)@.lifetime_fits(),
        ensures
            final(env)@ == old(env)@.with_subject_ids(
                *subject,
                without(old(env)@.subject_ids(*subject), attestation_id@),
            ),
    {
        let ttl = get_ttl_lifetime(env);
        let existing = Self::get_subject_attestations(env, subject);
        let updated = without_text(&existing, attestation_id);
        env.subject_attestations.set(*subject, updated);
        extend_ttl(env, StorageKey::SubjectAttestations(*subject), ttl);
    }

    /// The identifiers indexed for `issuer`, oldest first.
    pub fn get_issuer_attestations(env: &Env, issuer: &Address) -> (r: Vec<Text>)
        ensures
            r.deep_view() == env@.issuer_ids(*issuer),
    {
        match env.issuer_attestations.get(issuer) {
            Some(ids) => copy_texts(ids),
            None => {
                let none: Vec<Text> = Vec::new();
                assert(none.deep_view() =~= Seq::<Seq<u8>>::empty());
                none
            },
        }
    }

    /// Puts `attestation_id` at the end of the index of `issuer`.
    pub fn add_issuer_attestation(env: &mut Env, issuer: &Address, attestation_id: &Text)
        requires
            old(env)@.lifetime_fits(),
        ensures
            final(env)@ == old(env)@.with_issuer_ids(
                *issuer,
                old(env)@.issuer_ids(*issuer).push(attestation_id@),
            ),
    {
        let ttl = get_ttl_lifetime(env);
        let mut ids = Self::get_issuer_attestations(env, issuer);
        push(&mut ids, attestation_id.clone());
        env.issuer_attestations.set(*issuer, ids);
        extend_ttl(env, StorageKey::IssuerAttestations(*issuer), ttl);
    }

    /// Takes `attestation_id` out of the index of `issuer`. The attestation itself stays.
    pub fn remove_issuer_attestation(env: &mut Env, issuer: &Address, attestation_id: &Text)
        requires
            old(env)@.lifetime_fits(),
        ensures
            final(env)@ == old(env)@.with_issuer_ids(
                *issuer,
                without(old(env)@.issuer_ids(*issuer), attestation_id@),
            ),
    {
        let ttl = get_ttl_lifetime(env);
        let existing = Self::get_issuer_attestations(env, issuer);
        let updated = without_text(&existing, attestation_id);
        env.issuer_attestations.set(*issuer, updated);
        extend_ttl(env, StorageKey::IssuerAttestations(*issuer), ttl);
    }

    /// Writes what `issuer` says about itself.
    pub fn set_issuer_metadata(env: &mut Env, issuer: &Address, metadata: &IssuerMetadata)
        requires
            old(env)@.lifetime_fits(),
        ensures
            final(env)@ == old(env)@.with_issuer_metadata(*issuer, metadata@),
    {
        let ttl = get_ttl_lifetime(env);
        env.issuer_metadata.set(*issuer, metadata.clone());
        extend_ttl(env, StorageKey::IssuerMetadata(*issuer), ttl);
    }

    /// What `issuer` says about itself, if anything.
    pub fn get_issuer_metadata(env: &Env, issuer: &Address) -> (r: Option<IssuerMetadata>)
        ensures
            r.deep_view() == find(env@.issuer_metadata, *issuer),
    {
        match env.issuer_metadata.get(issuer) {
            Some(metadata) => Some(metadata.clone()),
            None => None,
        }
    }

    /// Writes a claim type, and puts its identifier at the end of the list if it is new.
    pub fn set_claim_type(env: &mut Env, info: &ClaimTypeInfo)
        requires
            old(env)@.lifetime_fits(),
        ensures
            final(env)@ == old(env)@.with_claim_type(info@),
    {
        let is_new = !env.claim_types.has(&info.claim_type);
        let ttl = get_ttl_lifetime(env);
        env.claim_types.set(info.claim_type.clone(), info.clone());
        extend_ttl(env, StorageKey::ClaimType(info.claim_type.clone()), ttl);
        if is_new {
            push(&mut env.claim_type_list, info.claim_type.clone());
            extend_ttl(env, StorageKey::ClaimTypeList, ttl);
        }
    }

    /// The claim type with the given identifier, if it is registered.
    pub fn get_claim_type(env: &Env, claim_type: &Text) -> (r: Option<ClaimTypeInfo>)
        ensures
            r.deep_view() == find(env@.claim_types, claim_type@),
    {
        match env.claim_types.get(claim_type) {
            Some(info) => Some(info.clone()),
            None => None,
        }
    }

    /// The identifiers of the registered claim types, oldest first.
    pub fn get_claim_type_list(env: &Env) -> (r: Vec<Text>)
        ensures
            r.deep_view() == env@.claim_type_list,
    {
        copy_texts(&env.claim_type_list)
    }

    /// Sets the council.
    pub fn set_council(env: &mut Env, council: &AdminCouncil)
        ensures
            final(env)@ == old(env)@.with_council(council@),
    {
        env.council = Some(council.clone());
        extend_instance_ttl(env, DEFAULT_INSTANCE_LIFETIME);
    }

    /// The council, if it was set.
    pub fn get_council(env: &Env) -> (r: Option<AdminCouncil>)
        ensures
            r.deep_view() == env@.council,
    {
        match &env.council {
            Some(council) => Some(council.clone()),
            None => None,
        }
    }

    /// Writes a council proposal under its number.
    pub fn set_proposal(env: &mut Env, proposal: &CouncilProposal)
        ensures
            final(env)@ == old(env)@.with_council_proposal(proposal@),
    {
        env.council_proposals.set(proposal.id, proposal.clone());
        extend_ttl(env, StorageKey::CouncilProposal(proposal.id), DEFAULT_INSTANCE_LIFETIME);
    }

    /// The council proposal with the given number, if there is one.
    pub fn get_proposal(env: &Env, id: u32) -> (r: Option<CouncilProposal>)
        ensures
            r.deep_view() == find(env@.council_proposals, id),
    {
        match env.council_proposals.get(&id) {
            Some(proposal) => Some(proposal.clone()),
            None => None,
        }
    }

    /// Counts one more council proposal and gives its number.
    pub fn next_proposal_id(env: &mut Env) -> (r: u32)
        requires
            old(env)@.proposal_counter < u32::MAX,
        ensures
            r == old(env)@.proposal_counter + 1,
            final(env)@ == (EnvView { proposal_counter: r, ..old(env)@ }),
    {
        let next = env.proposal_counter + 1;
        env.proposal_counter = next;
        next
    }

    /// Pauses attestation writes, or resumes them.
    pub fn set_paused(env: &mut Env, paused: bool)
        ensures
            final(env)@ == old(env)@.with_paused(paused),
    {
        env.paused = paused;
        extend_instance_ttl(env, DEFAULT_INSTANCE_LIFETIME);
    }

    /// Whether attestation writes are paused.
    pub fn is_paused(env: &Env) -> (r: bool)
        ensures
            r == env@.paused,
    {
        env.paused
    }

    /// Sets the rate limit.
    pub fn set_rate_limit_config(env: &mut Env, config: &RateLimitConfig)
        requires
            old(env)@.lifetime_fits(),
        ensures
            final(env)@ == old(env)@.with_rate_limit(*config),
    {
        let ttl = get_ttl_lifetime(env);
        env.rate_limit = Some(*config);
        extend_instance_ttl(env, ttl);
    }

    /// The rate limit, if it was set.
    pub fn get_rate_limit_config(env: &Env) -> (r: Option<RateLimitConfig>)
        ensures
            r == env@.rate_limit,
    {
        env.rate_limit
    }

    /// Sets the time at which `issuer` last issued.
    pub fn set_last_issuance_time(env: &mut Env, issuer: &Address, time: u64)
        requires
            old(env)@.lifetime_fits(),
        ensures
            final(env)@ == old(env)@.with_last_issuance(*issuer, time),
    {
        let ttl = get_ttl_lifetime(env);
        env.last_issuance.set(*issuer, time);
        extend_ttl(env, StorageKey::LastIssuance(*issuer), ttl);
    }

    /// When `issuer` last issued, if ever.
    pub fn get_last_issuance_time(env: &Env, issuer: &Address) -> (r: Option<u64>)
        ensures
            r == find(env@.last_issuance, *issuer),
    {
        match env.last_issuance.get(issuer) {
            Some(time) => Some(*time),
            None => None,
        }
    }

    /// Sets the storage limits.
    pub fn set_limits(env: &mut Env, limits: &StorageLimits)
        requires
            old(env)@.lifetime_fits(),
        ensures
            final(env)@ == old(env)@.with_limits(*limits),
    {
        let ttl = get_ttl_lifetime(env);
        env.limits = Some(*limits);
        extend_instance_ttl(env, ttl);
    }

    /// The storage limits in force.
    pub fn get_limits(env: &Env) -> (r: StorageLimits)
        ensures
            r == env@.limits_in_force(),
    {
        match env.limits {
            Some(limits) => limits,
            None => StorageLimits {
                max_attestations_per_issuer: DEFAULT_MAX_PER_ISSUER,
                max_attestations_per_subject: DEFAULT_MAX_PER_SUBJECT,
            },
        }
    }

    /// The running totals.
    pub fn get_global_stats(env: &Env) -> (r: GlobalStats)
        ensures
            r == env@.global_stats,
    {
        env.global_stats
    }

    /// Sets the running totals.
    fn set_global_stats(env: &mut Env, stats: &GlobalStats)
        requires
            old(env)@.lifetime_fits(),
        ensures
            final(env)@ == old(env)@.with_global_stats(*stats),
    {
        let ttl = get_ttl_lifetime(env);
        env.global_stats = *stats;
        extend_instance_ttl(env, ttl);
    }

    /// Counts `count` more attestations.
    pub fn increment_total_attestations(env: &mut Env, count: u64)
        requires
            old(env)@.lifetime_fits(),
        ensures
            final(env)@ == old(env)@.count_attestations(count as int),
    {
        let mut stats = Self::get_global_stats(env);
        stats.total_attestations = stats.total_attestations.saturating_add(count);
        Self::set_global_stats(env, &stats);
    }

    /// Counts `count` more revocations.
    pub fn increment_total_revocations(env: &mut Env, count: u64)
        requires
            old(env)@.lifetime_fits(),
        ensures
            final(env)@ == old(env)@.count_revocations(count as int),
    {
        let mut stats = Self::get_global_stats(env);
        stats.total_revocations = stats.total_revocations.saturating_add(count);
        Self::set_global_stats(env, &stats);
    }

    /// Counts one more issuer.
    pub fn increment_total_issuers(env: &mut Env)
        requires
            old(env)@.lifetime_fits(),
        ensures
            final(env)@ == old(env)@.count_issuers(1),
    {
        let mut stats = Self::get_global_stats(env);
        stats.total_issuers = stats.total_issuers.saturating_add(1);
        Self::set_global_stats(env, &stats);
    }

    /// Counts one issuer less.
    pub fn decrement_total_issuers(env: &mut Env)
        requires
            old(env)@.lifetime_fits(),
        ensures
            final(env)@ == old(env)@.count_issuers(-1),
    {
        let mut stats = Self::get_global_stats(env);
        stats.total_issuers = stats.total_issuers.saturating_sub(1);
        Self::set_global_stats(env, &stats);
    }

    /// The running totals of `issuer`.
    pub fn get_issuer_stats(env: &Env, issuer: &Address) -> (r: IssuerStats)
        ensures
            r == env@.stats_of(*issuer),
    {
        match env.issuer_stats.get(issuer) {
            Some(stats) => *stats,
            None => IssuerStats { total_issued: 0 },
        }
    }

    /// Sets the running totals of `issuer`.
    pub fn set_issuer_stats(env: &mut Env, issuer: &Address, stats: &IssuerStats)
        requires
            old(env)@.lifetime_fits(),
        ensures
            final(env)@ == old(env)@.with_issuer_stats(*issuer, *stats),
    {
        let ttl = get_ttl_lifetime(env);
        env.issuer_stats.set(*issuer, *stats);
        extend_ttl(env, StorageKey::IssuerStats(*issuer), ttl);
    }

    /// Gives `tier` to `issuer`.
    pub fn set_issuer_tier(env: &mut Env, issuer: &Address, tier: &IssuerTier)
        requires
            old(env)@.lifetime_fits(),
        ensures
            final(env)@ == old(env)@.with_issuer_tier(*issuer, *tier),
    {
        let ttl = get_ttl_lifetime(env);
        env.issuer_tiers.set(*issuer, *tier);
        extend_ttl(env, StorageKey::IssuerTier(*issuer), ttl);
    }

    /// The tier of `issuer`, if it is registered and was given one.
    pub fn get_issuer_tier(env: &Env, issuer: &Address) -> (r: Option<IssuerTier>)
        ensures
            r == env@.tier_of(*issuer),
    {
        if !Self::is_issuer(env, issuer) {
            return None;
        }
        match env.issuer_tiers.get(issuer) {
            Some(tier) => Some(*tier),
            None => None,
        }
    }

    /// Turns whitelist mode of `issuer` on or off.
    pub fn set_whitelist_enabled(env: &mut Env, issuer: &Address, enabled: bool)
        requires
            old(env)@.lifetime_fits(),
        ensures
            final(env)@ == old(env)@.with_whitelist_mode(*issuer, enabled),
    {
        let ttl = get_ttl_lifetime(env);
        env.whitelist_modes.set(*issuer, enabled);
        extend_ttl(env, StorageKey::WhitelistMode(*issuer), ttl);
    }

    /// Whether `issuer` is in whitelist mode.
    pub fn is_whitelist_enabled(env: &Env, issuer: &Address) -> (r: bool)
        ensures
            r == env@.whitelist_mode(*issuer),
    {
        match env.whitelist_modes.get(issuer) {
            Some(enabled) => *enabled,
            None => false,
        }
    }

    /// Puts `subject` on the whitelist of `issuer`.
    pub fn add_to_whitelist(env: &mut Env, issuer: &Address, subject: &Address)
        requires
            old(env)@.lifetime_fits(),
        ensures
            final(env)@ == old(env)@.with_whitelisted(*issuer, *subject),
    {
        let ttl = get_ttl_lifetime(env);
        env.whitelist.set((*issuer, *subject), true);
        extend_ttl(env, StorageKey::Whitelisted(*issuer, *subject), ttl);
    }

    /// Takes `subject` off the whitelist of `issuer`.
    pub fn remove_from_whitelist(env: &mut Env, issuer: &Address, subject: &Address)
        ensures
            final(env)@ == old(env)@.without_whitelisted(*issuer, *subject),
    {
        env.whitelist.remove(&(*issuer, *subject));
        env.lifetimes.remove(&StorageKey::Whitelisted(*issuer, *subject));
    }

    /// Whether `subject` is on the whitelist of `issuer`.
    pub fn is_whitelisted(env: &Env, issuer: &Address, subject: &Address) -> (r: bool)
        ensures
            r == env@.whitelist.contains_key((*issuer, *subject)),
    {
        env.whitelist.has(&(*issuer, *subject))
    }

    /// Puts `entry` at the end of the audit log of the attestation `id`.
    pub fn append_audit_entry(env: &mut Env, id: &Text, entry: AuditEntry)
        requires
            old(env)@.lifetime_fits(),
        ensures
            final(env)@ == old(env)@.with_audit(id@, entry@),
    {
        let ttl = get_ttl_lifetime(env);
        let mut log = Self::get_audit_log(env, id);
        push(&mut log, entry);
        env.audit_logs.set(id.clone(), log);
        extend_ttl(env, StorageKey::AuditLog(id.clone()), ttl);
    }

    /// The audit log of the attestation `id`, oldest entry first.
    pub fn get_audit_log(env: &Env, id: &Text) -> (r: Vec<AuditEntry>)
        ensures
            r.deep_view() == env@.audit_log(id@),
    {
        let mut log: Vec<AuditEntry> = Vec::new();
        match env.audit_logs.get(id) {
            Some(entries) => {
                let mut i: usize = 0;
                assert(log.deep_view() =~= entries.deep_view().take(0));
                while i < entries.len()
                    invariant
                        i <= entries.len(),
                        log.deep_view() == entries.deep_view().take(i as int),
                    decreases entries.len() - i,
                {
                    push(&mut log, entries[i].clone());
                    assert(entries.deep_view().take(i + 1) =~= entries.deep_view().take(
                        i as int,
                    ).push(entries[i as int].deep_view()));
                    i += 1;
                }
                assert(entries.deep_view().take(i as int) =~= entries.deep_view());
            },
            None => {
                assert(log.deep_view() =~= Seq::<AuditEntryView>::empty());
            },
        }
        log
    }

    /// Writes a multi-signature proposal under its identifier.
    pub fn set_multisig_proposal(env: &mut Env, proposal: &MultiSigProposal)
        requires
            old(env)@.lifetime_fits(),
        ensures
            final(env)@ == old(env)@.with_multisig_proposal(proposal@),
    {
        let ttl = get_ttl_lifetime(env);
        env.multisig_proposals.set(proposal.id.clone(), proposal.clone());
        extend_ttl(env, StorageKey::MultiSigProposal(proposal.id.clone()), ttl);
    }

    /// The multi-signature proposal `id`. Fails with [`Error::NotFound`] where there is none.
    pub fn get_multisig_proposal(env: &Env, id: &Text) -> (r: Result<MultiSigProposal, Error>)
        ensures
            match r {
                Ok(proposal) => find(env@.multisig_proposals, id@) == Some(proposal@),
                Err(e) => e == Error::NotFound && find(env@.multisig_proposals, id@) is None,
            },
    {
        match env.multisig_proposals.get(id) {
            Some(proposal) => Ok(proposal.clone()),
            None => Err(Error::NotFound),
        }
    }

    /// Puts `endorsement` at the end of the endorsements of its attestation.
    pub fn add_endorsement(env: &mut Env, endorsement: &Endorsement)
        requires
            old(env)@.lifetime_fits(),
        ensures
            final(env)@ == old(env)@.with_endorsement(endorsement@),
    {
        let ttl = get_ttl_lifetime(env);
        let mut list = Self::get_endorsements(env, &endorsement.attestation_id);
        push(&mut list, endorsement.clone());
        env.endorsements.set(endorsement.attestation_id.clone(), list);
        extend_ttl(env, StorageKey::Endorsements(endorsement.attestation_id.clone()), ttl);
    }

    /// The endorsements of the attestation `id`, oldest first.
    pub fn get_endorsements(env: &Env, id: &Text) -> (r: Vec<Endorsement>)
        ensures
            r.deep_view() == env@.endorsements_of(id@),
    {
        let mut list: Vec<Endorsement> = Vec::new();
        match env.endorsements.get(id) {
            Some(entries) => {
                let mut i: usize = 0;
                assert(list.deep_view() =~= entries.deep_view().take(0));
                while i < entries.len()
                    invariant
                        i <= entries.len(),
                        list.deep_view() == entries.deep_view().take(i as int),
                    decreases entries.len() - i,
                {
                    push(&mut list, entries[i].clone());
                    assert(entries.deep_view().take(i + 1) =~= entries.deep_view().take(
                        i as int,
                    ).push(entries[i as int].deep_view()));
                    i += 1;
                }
                assert(entries.deep_view().take(i as int) =~= entries.deep_view());
            },
            None => {
                assert(list.deep_view() =~= Seq::<EndorsementView>::empty());
            },
        }
        list
    }

    /// Whom to tell about claims of `subject` that are about to expire.
    pub fn get_expiration_hook(env: &Env, subject: &Address) -> (r: Option<ExpirationHook>)
        ensures
            r == find(env@.expiration_hooks, *subject),
    {
        match env.expiration_hooks.get(subject) {
            Some(hook) => Some(*hook),
            None => None,
        }
    }
}

} // verus!

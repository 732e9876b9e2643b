//! The ledger as a request sees it.
//!
//! [`Env`] holds the time, who authorized the request, the data of the registry,
//! and the effects on the world outside that the request has asked for so far.
//! The data comes in two tiers. The instance tier lives and dies as a whole. The
//! entries of the persistent tier, the tables, have a lifetime each.

use crate::address::Address;
use crate::events::{Effect, EffectView, Event, EventView};
use crate::list::push;
use crate::storage::{StorageKey, StorageKeyView};
use crate::table::Table;
use crate::text::Text;
use crate::types::{
    AdminCouncil, AdminCouncilView, Attestation, AttestationView, AuditEntry, AuditEntryView,
    ClaimTypeInfo, ClaimTypeInfoView, CouncilProposal, CouncilProposalView, Endorsement,
    EndorsementView, ExpirationHook, FeeConfig, GlobalStats, IssuerMetadata, IssuerMetadataView,
    IssuerStats, IssuerTier, MultiSigProposal, MultiSigProposalView, RateLimitConfig, StorageLimits,
    TtlConfig,
};
use vstd::prelude::*;

verus! {

/// The ledger as a request sees it.
#[derive(Debug)]
pub struct Env {
    /// The time of the ledger, in seconds.
    pub timestamp: u64,
    /// The addresses that authorized the request.
    pub auths: Vec<Address>,
    /// The administrators, the first of whom is the primary one.
    pub admin_council: Option<Vec<Address>>,
    /// The version set at initialization.
    pub version: Option<Text>,
    /// The fee settings.
    pub fee_config: Option<FeeConfig>,
    /// The lifetime settings.
    pub ttl_config: Option<TtlConfig>,
    /// The running totals.
    pub global_stats: GlobalStats,
    /// The rate limit settings.
    pub rate_limit: Option<RateLimitConfig>,
    /// The storage limits, where they were ever set.
    pub limits: Option<StorageLimits>,
    /// The council.
    pub council: Option<AdminCouncil>,
    /// The number of the latest council proposal.
    pub proposal_counter: u32,
    /// Whether attestation writes are paused.
    pub paused: bool,
    /// For how many ledgers the data above has been kept alive.
    pub instance_ttl: u32,
    /// The registered issuers.
    pub issuers: Table<Address, bool>,
    /// The registered bridge contracts.
    pub bridges: Table<Address, bool>,
    /// The attestations by identifier.
    pub attestations: Table<Text, Attestation>,
    /// The identifiers of the attestations about each subject, oldest first.
    pub subject_attestations: Table<Address, Vec<Text>>,
    /// The identifiers of the attestations of each issuer, oldest first.
    pub issuer_attestations: Table<Address, Vec<Text>>,
    /// What issuers say about themselves.
    pub issuer_metadata: Table<Address, IssuerMetadata>,
    /// The registered claim types.
    pub claim_types: Table<Text, ClaimTypeInfo>,
    /// The registered claim types, oldest first.
    pub claim_type_list: Vec<Text>,
    /// The council proposals by number.
    pub council_proposals: Table<u32, CouncilProposal>,
    /// The tiers given to issuers.
    pub issuer_tiers: Table<Address, IssuerTier>,
    /// The running totals of issuers.
    pub issuer_stats: Table<Address, IssuerStats>,
    /// When each issuer last issued.
    pub last_issuance: Table<Address, u64>,
    /// Whether each issuer is in whitelist mode.
    pub whitelist_modes: Table<Address, bool>,
    /// The pairs of an issuer and a subject on its whitelist.
    pub whitelist: Table<(Address, Address), bool>,
    /// The audit log of each attestation, oldest entry first.
    pub audit_logs: Table<Text, Vec<AuditEntry>>,
    /// The multi-signature proposals by identifier.
    pub multisig_proposals: Table<Text, MultiSigProposal>,
    /// The endorsements of each attestation, oldest first.
    pub endorsements: Table<Text, Vec<Endorsement>>,
    /// Whom to tell about claims of a subject that are about to expire.
    pub expiration_hooks: Table<Address, ExpirationHook>,
    /// For how many ledgers each entry that was written has been kept alive.
    pub lifetimes: Table<StorageKey, u32>,
    /// What the request asks of the world outside the ledger, in order.
    pub effects: Vec<Effect>,
}

/// What an [`Env`] stands for.
#[verifier::ext_equal]
pub struct EnvView {
    /// The time of the ledger, in seconds.
    pub timestamp: u64,
    /// The addresses that authorized the request.
    pub auths: Seq<Address>,
    /// The administrators, the first of whom is the primary one.
    pub admin_council: Option<Seq<Address>>,
    /// The version set at initialization.
    pub version: Option<Seq<u8>>,
    /// The fee settings.
    pub fee_config: Option<FeeConfig>,
    /// The lifetime settings.
    pub ttl_config: Option<TtlConfig>,
    /// The running totals.
    pub global_stats: GlobalStats,
    /// The rate limit settings.
    pub rate_limit: Option<RateLimitConfig>,
    /// The storage limits, where they were ever set.
    pub limits: Option<StorageLimits>,
    /// The council.
    pub council: Option<AdminCouncilView>,
    /// The number of the latest council proposal.
    pub proposal_counter: u32,
    /// Whether attestation writes are paused.
    pub paused: bool,
    /// For how many ledgers the data above has been kept alive.
    pub instance_ttl: u32,
    /// The registered issuers.
    pub issuers: Map<Address, bool>,
    /// The registered bridge contracts.
    pub bridges: Map<Address, bool>,
    /// The attestations by identifier.
    pub attestations: Map<Seq<u8>, AttestationView>,
    /// The identifiers of the attestations about each subject, oldest first.
    pub subject_attestations: Map<Address, Seq<Seq<u8>>>,
    /// The identifiers of the attestations of each issuer, oldest first.
    pub issuer_attestations: Map<Address, Seq<Seq<u8>>>,
    /// What issuers say about themselves.
    pub issuer_metadata: Map<Address, IssuerMetadataView>,
    /// The registered claim types.
    pub claim_types: Map<Seq<u8>, ClaimTypeInfoView>,
    /// The registered claim types, oldest first.
    pub claim_type_list: Seq<Seq<u8>>,
    /// The council proposals by number.
    pub council_proposals: Map<u32, CouncilProposalView>,
    /// The tiers given to issuers.
    pub issuer_tiers: Map<Address, IssuerTier>,
    /// The running totals of issuers.
    pub issuer_stats: Map<Address, IssuerStats>,
    /// When each issuer last issued.
    pub last_issuance: Map<Address, u64>,
    /// Whether each issuer is in whitelist mode.
    pub whitelist_modes: Map<Address, bool>,
    /// The pairs of an issuer and a subject on its whitelist.
    pub whitelist: Map<(Address, Address), bool>,
    /// The audit log of each attestation, oldest entry first.
    pub audit_logs: Map<Seq<u8>, Seq<AuditEntryView>>,
    /// The multi-signature proposals by identifier.
    pub multisig_proposals: Map<Seq<u8>, MultiSigProposalView>,
    /// The endorsements of each attestation, oldest first.
    pub endorsements: Map<Seq<u8>, Seq<EndorsementView>>,
    /// Whom to tell about claims of a subject that are about to expire.
    pub expiration_hooks: Map<Address, ExpirationHook>,
    /// For how many ledgers each entry that was written has been kept alive.
    pub lifetimes: Map<StorageKeyView, u32>,
    /// What the request asks of the world outside the ledger, in order.
    pub effects: Seq<EffectView>,
}

impl View for Env {
    type V = EnvView;

    open spec fn view(&self) -> EnvView {
        EnvView {
            timestamp: self.timestamp,
            auths: self.auths.deep_view(),
            admin_council: self.admin_council.deep_view(),
            version: self.version.deep_view(),
            fee_config: self.fee_config,
            ttl_config: self.ttl_config,
            global_stats: self.global_stats,
            rate_limit: self.rate_limit,
            limits: self.limits,
            council: self.council.deep_view(),
            proposal_counter: self.proposal_counter,
            paused: self.paused,
            instance_ttl: self.instance_ttl,
            issuers: self.issuers@,
            bridges: self.bridges@,
            attestations: self.attestations@,
            subject_attestations: self.subject_attestations@,
            issuer_attestations: self.issuer_attestations@,
            issuer_metadata: self.issuer_metadata@,
            claim_types: self.claim_types@,
            claim_type_list: self.claim_type_list.deep_view(),
            council_proposals: self.council_proposals@,
            issuer_tiers: self.issuer_tiers@,
            issuer_stats: self.issuer_stats@,
            last_issuance: self.last_issuance@,
            whitelist_modes: self.whitelist_modes@,
            whitelist: self.whitelist@,
            audit_logs: self.audit_logs@,
            multisig_proposals: self.multisig_proposals@,
            endorsements: self.endorsements@,
            expiration_hooks: self.expiration_hooks@,
            lifetimes: self.lifetimes@,
            effects: self.effects.deep_view(),
        }
    }
}

/// The ledger of a registry that nobody has used yet.
pub open spec fn empty_ledger(timestamp: u64) -> EnvView {
    EnvView {
        timestamp: timestamp,
        auths: Seq::empty(),
        admin_council: None,
        version: None,
        fee_config: None,
        ttl_config: None,
        global_stats: GlobalStats { total_attestations: 0, total_revocations: 0, total_issuers: 0 },
        rate_limit: None,
        limits: None,
        council: None,
        proposal_counter: 0,
        paused: false,
        instance_ttl: 0,
        issuers: Map::empty(),
        bridges: Map::empty(),
        attestations: Map::empty(),
        subject_attestations: Map::empty(),
        issuer_attestations: Map::empty(),
        issuer_metadata: Map::empty(),
        claim_types: Map::empty(),
        claim_type_list: Seq::empty(),
        council_proposals: Map::empty(),
        issuer_tiers: Map::empty(),
        issuer_stats: Map::empty(),
        last_issuance: Map::empty(),
        whitelist_modes: Map::empty(),
        whitelist: Map::empty(),
        audit_logs: Map::empty(),
        multisig_proposals: Map::empty(),
        endorsements: Map::empty(),
        expiration_hooks: Map::empty(),
        lifetimes: Map::empty(),
        effects: Seq::empty(),
    }
}

impl EnvView {
    /// Whether `address` authorized the request.
    pub open spec fn authorized(self, address: Address) -> bool {
        self.auths.contains(address)
    }

    /// The ledger after one more effect was asked for.
    pub open spec fn ask(self, effect: EffectView) -> EnvView {
        EnvView { effects: self.effects.push(effect), ..self }
    }

    /// The ledger after one more event was handed out for publication.
    pub open spec fn publish(self, event: EventView) -> EnvView {
        self.ask(EffectView::Publish(event))
    }
}

impl Env {
    /// The ledger, at the given time, of a registry that nobody has used yet.
    pub fn new(timestamp: u64) -> (r: Env)
        ensures
            r@ == empty_ledger(timestamp),
    {
        let env = Env {
            timestamp,
            auths: Vec::new(),
            admin_council: None,
            version: None,
            fee_config: None,
            ttl_config: None,
            global_stats: GlobalStats { total_attestations: 0, total_revocations: 0, total_issuers: 0 },
            rate_limit: None,
            limits: None,
            council: None,
            proposal_counter: 0,
            paused: false,
            instance_ttl: 0,
            issuers: Table::new(),
            bridges: Table::new(),
            attestations: Table::new(),
            subject_attestations: Table::new(),
            issuer_attestations: Table::new(),
            issuer_metadata: Table::new(),
            claim_types: Table::new(),
            claim_type_list: Vec::new(),
            council_proposals: Table::new(),
            issuer_tiers: Table::new(),
            issuer_stats: Table::new(),
            last_issuance: Table::new(),
            whitelist_modes: Table::new(),
            whitelist: Table::new(),
            audit_logs: Table::new(),
            multisig_proposals: Table::new(),
            endorsements: Table::new(),
            expiration_hooks: Table::new(),
            lifetimes: Table::new(),
            effects: Vec::new(),
        };
        assert(env@ =~= empty_ledger(timestamp));
        env
    }

    /// Notes that `address` authorized the request.
    pub fn authorize(&mut self, address: Address)
        ensures
            final(self)@ == (EnvView { auths: old(self)@.auths.push(address), ..old(self)@ }),
    {
        push(&mut self.auths, address);
    }

    /// Asks for one more effect.
    pub fn ask(&mut self, effect: Effect)
        ensures
            final(self)@ == old(self)@.ask(effect@),
    {
        push(&mut self.effects, effect);
    }

    /// Hands out one more event for publication.
    pub fn publish(&mut self, event: Event)
        ensures
            final(self)@ == old(self)@.publish(event@),
    {
        self.ask(Effect::Publish(event));
    }
}

} // verus!

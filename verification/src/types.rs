//! The records that the registry keeps, and the answers it gives.
//!
//! A record that holds text or a list has a companion `...View` type, in which
//! text is a sequence of bytes and a list is a sequence of what its items stand
//! for. Contracts speak of those views. A record of plain values only is its own
//! view.

use crate::address::Address;
use crate::list::{copy_addresses, copy_optional, copy_tags};
use crate::text::Text;
use vstd::prelude::*;

verus! {

/// Seconds for which a multi-signature proposal can be co-signed: seven days.
pub const MULTISIG_PROPOSAL_TTL_SECS: u64 = 604_800;

/// Why a request was refused.
#[derive(Clone, Copy, Debug, PartialEq, Eq, Structural)]
pub enum Error {
    /// The registry already has an administrator.
    AlreadyInitialized,
    /// The registry has no administrator yet.
    NotInitialized,
    /// The caller does not have the role that the request needs.
    Unauthorized,
    /// There is no such record.
    NotFound,
    /// An attestation with the same identifier exists.
    DuplicateAttestation,
    /// The attestation has been revoked.
    AlreadyRevoked,
    /// The expiration is not after the time it is measured from.
    InvalidExpiration,
    /// The timestamp lies in the future.
    InvalidTimestamp,
    /// The claim type is empty, too long or holds a character that is not allowed.
    InvalidClaimType,
    /// The metadata is longer than 256 bytes.
    MetadataTooLong,
    /// The revocation reason is longer than 128 bytes.
    ReasonTooLong,
    /// There are more than five tags.
    TooManyTags,
    /// A tag is longer than 32 bytes.
    TagTooLong,
    /// The jurisdiction is not an assigned two-letter country code.
    InvalidJurisdiction,
    /// The fee is negative.
    InvalidFee,
    /// A positive fee needs a token to be paid in.
    FeeTokenRequired,
    /// The issuer issued too short a time ago.
    RateLimited,
    /// The last administrator cannot be removed.
    LastAdminCannotBeRemoved,
    /// The issuer is in whitelist mode and the subject is not on its whitelist.
    SubjectNotWhitelisted,
    /// A storage limit would be exceeded.
    LimitExceeded,
    /// The batch holds more than fifty identifiers.
    BatchTooLarge,
    /// The threshold is zero or more than the number of signers.
    InvalidThreshold,
    /// The proposal has already become an attestation.
    ProposalFinalized,
    /// The time for co-signing is over.
    ProposalExpired,
    /// The issuer is not among the required signers.
    NotRequiredSigner,
    /// The issuer has already signed.
    AlreadySigned,
    /// An issuer cannot endorse its own attestation.
    CannotEndorseOwn,
    /// The issuer has already endorsed the attestation.
    AlreadyEndorsed,
    /// The quorum is zero or more than the number of members.
    InvalidQuorum,
    /// There is no council.
    CouncilNotInitialized,
    /// The proposal has already been executed.
    AlreadyExecuted,
    /// The member has already approved the proposal.
    AlreadyApproved,
    /// The proposal has too few approvals.
    QuorumNotReached,
    /// Attestation writes are paused.
    ContractPaused,
}

/// Where an attestation comes from.
#[derive(Clone, Copy, Debug, PartialEq, Eq, Structural)]
pub enum AttestationOrigin {
    /// Created here by a registered issuer.
    Native,
    /// Migrated from an external source by an administrator.
    Imported,
    /// Mirrored from another chain by a trusted bridge contract.
    Bridged,
}

/// What an attestation is worth at a given time.
#[derive(Clone, Copy, Debug, PartialEq, Eq, Structural)]
pub enum AttestationStatus {
    /// In force.
    Valid,
    /// Its expiration has passed.
    Expired,
    /// Withdrawn by its issuer.
    Revoked,
    /// Its time of validity has not begun.
    Pending,
}

/// A change of state that an audit log records.
#[derive(Clone, Copy, Debug, PartialEq, Eq, Structural)]
pub enum AuditAction {
    /// The attestation was created.
    Created,
    /// The attestation was revoked.
    Revoked,
    /// The expiration was set anew.
    Renewed,
    /// The attestation was updated.
    Updated,
}

/// How far an issuer is trusted.
#[derive(Clone, Copy, Debug, PartialEq, Eq, Structural)]
pub enum IssuerTier {
    /// The lowest tier.
    Basic,
    /// The middle tier.
    Verified,
    /// The highest tier.
    Premium,
}

impl View for IssuerTier {
    type V = IssuerTier;

    open spec fn view(&self) -> IssuerTier {
        *self
    }
}

impl DeepView for IssuerTier {
    type V = IssuerTier;

    open spec fn deep_view(&self) -> IssuerTier {
        *self
    }
}

impl IssuerTier {
    /// The place of the tier in the order of trust.
    pub open spec fn spec_rank(self) -> u32 {
        match self {
            IssuerTier::Basic => 0,
            IssuerTier::Verified => 1,
            IssuerTier::Premium => 2,
        }
    }

    /// The place of the tier in the order of trust: a higher rank is more trusted.
    #[verifier::when_used_as_spec(spec_rank)]
    pub fn rank(self) -> (r: u32)
        ensures
            r == self.spec_rank(),
    {
        match self {
            IssuerTier::Basic => 0,
            IssuerTier::Verified => 1,
            IssuerTier::Premium => 2,
        }
    }
}

/// What an issuer pays for an attestation, to whom and in which token.
#[derive(Clone, Copy, Debug, PartialEq, Eq)]
pub struct FeeConfig {
    /// The fee for one attestation.
    pub attestation_fee: i128,
    /// Who receives the fee.
    pub fee_collector: Address,
    /// The token contract in which the fee is paid.
    pub fee_token: Option<Address>,
}

impl View for FeeConfig {
    type V = FeeConfig;

    open spec fn view(&self) -> FeeConfig {
        *self
    }
}

impl DeepView for FeeConfig {
    type V = FeeConfig;

    open spec fn deep_view(&self) -> FeeConfig {
        *self
    }
}

/// For how long written entries are kept alive.
#[derive(Clone, Copy, Debug, PartialEq, Eq, Structural)]
pub struct TtlConfig {
    /// The lifetime in days.
    pub ttl_days: u32,
}

impl View for TtlConfig {
    type V = TtlConfig;

    open spec fn view(&self) -> TtlConfig {
        *self
    }
}

impl DeepView for TtlConfig {
    type V = TtlConfig;

    open spec fn deep_view(&self) -> TtlConfig {
        *self
    }
}

/// How often one issuer may issue.
#[derive(Clone, Copy, Debug, PartialEq, Eq, Structural)]
pub struct RateLimitConfig {
    /// The least number of seconds between two issuances; zero sets no limit.
    pub min_issuance_interval: u64,
}

impl View for RateLimitConfig {
    type V = RateLimitConfig;

    open spec fn view(&self) -> RateLimitConfig {
        *self
    }
}

impl DeepView for RateLimitConfig {
    type V = RateLimitConfig;

    open spec fn deep_view(&self) -> RateLimitConfig {
        *self
    }
}

/// How many attestations one issuer may create and one subject may hold.
#[derive(Clone, Copy, Debug, PartialEq, Eq, Structural)]
pub struct StorageLimits {
    /// The limit for an issuer.
    pub max_attestations_per_issuer: u32,
    /// The limit for a subject.
    pub max_attestations_per_subject: u32,
}

impl View for StorageLimits {
    type V = StorageLimits;

    open spec fn view(&self) -> StorageLimits {
        *self
    }
}

impl DeepView for StorageLimits {
    type V = StorageLimits;

    open spec fn deep_view(&self) -> StorageLimits {
        *self
    }
}

/// Running totals of the whole registry.
#[derive(Clone, Copy, Debug, PartialEq, Eq, Structural)]
pub struct GlobalStats {
    /// Attestations stored.
    pub total_attestations: u64,
    /// Attestations revoked.
    pub total_revocations: u64,
    /// Issuers registered, less those removed.
    pub total_issuers: u64,
}

impl View for GlobalStats {
    type V = GlobalStats;

    open spec fn view(&self) -> GlobalStats {
        *self
    }
}

impl DeepView for GlobalStats {
    type V = GlobalStats;

    open spec fn deep_view(&self) -> GlobalStats {
        *self
    }
}

/// Running totals of one issuer.
#[derive(Clone, Copy, Debug, PartialEq, Eq, Structural)]
pub struct IssuerStats {
    /// Attestations that the issuer issued.
    pub total_issued: u64,
}

impl View for IssuerStats {
    type V = IssuerStats;

    open spec fn view(&self) -> IssuerStats {
        *self
    }
}

impl DeepView for IssuerStats {
    type V = IssuerStats;

    open spec fn deep_view(&self) -> IssuerStats {
        *self
    }
}

/// The answer to a health probe.
#[derive(Clone, Copy, Debug, PartialEq, Eq, Structural)]
pub struct HealthStatus {
    /// Whether there is an administrator.
    pub initialized: bool,
    /// Whether there is an administrator.
    pub admin_set: bool,
    /// Issuers registered, less those removed.
    pub issuer_count: u64,
    /// Attestations stored.
    pub total_attestations: u64,
}

impl View for HealthStatus {
    type V = HealthStatus;

    open spec fn view(&self) -> HealthStatus {
        *self
    }
}

impl DeepView for HealthStatus {
    type V = HealthStatus;

    open spec fn deep_view(&self) -> HealthStatus {
        *self
    }
}

/// Whom to tell, and when, that a claim of a subject is about to expire.
#[derive(Clone, Copy, Debug, PartialEq, Eq, Structural)]
pub struct ExpirationHook {
    /// The contract to call.
    pub callback_contract: Address,
    /// How many days before the expiration the call is due.
    pub notify_days_before: u32,
}

impl View for ExpirationHook {
    type V = ExpirationHook;

    open spec fn view(&self) -> ExpirationHook {
        *self
    }
}

impl DeepView for ExpirationHook {
    type V = ExpirationHook;

    open spec fn deep_view(&self) -> ExpirationHook {
        *self
    }
}

/// A sensitive operation that takes a quorum of the council.
#[derive(Clone, Copy, Debug, PartialEq, Eq, Structural)]
pub enum CouncilOperation {
    /// Take an issuer out of the registry.
    RemoveIssuer(Address),
    /// Pause attestation writes.
    PauseContract,
}

/// A claim that an issuer makes about a subject.
#[derive(Debug)]
pub struct Attestation {
    /// The identifier.
    pub id: Text,
    /// Who makes the claim.
    pub issuer: Address,
    /// Whom the claim is about.
    pub subject: Address,
    /// What is claimed.
    pub claim_type: Text,
    /// When the claim was made.
    pub timestamp: u64,
    /// From when on the claim no longer counts.
    pub expiration: Option<u64>,
    /// Whether the issuer withdrew the claim.
    pub revoked: bool,
    /// Whether the subject had the claim erased.
    pub deleted: bool,
    /// Free text of the issuer.
    pub metadata: Option<Text>,
    /// The country that the claim is tied to.
    pub jurisdiction: Option<Text>,
    /// From when on the claim counts.
    pub valid_from: Option<u64>,
    /// Where the attestation comes from.
    pub origin: AttestationOrigin,
    /// The chain that a bridged attestation comes from.
    pub source_chain: Option<Text>,
    /// The transaction that a bridged attestation comes from.
    pub source_tx: Option<Text>,
    /// Labels of the issuer.
    pub tags: Option<Vec<Text>>,
    /// Why the claim was withdrawn.
    pub revocation_reason: Option<Text>,
}

/// What an [`Attestation`] stands for.
#[verifier::ext_equal]
pub struct AttestationView {
    /// The identifier.
    pub id: Seq<u8>,
    /// Who makes the claim.
    pub issuer: Address,
    /// Whom the claim is about.
    pub subject: Address,
    /// What is claimed.
    pub claim_type: Seq<u8>,
    /// When the claim was made.
    pub timestamp: u64,
    /// From when on the claim no longer counts.
    pub expiration: Option<u64>,
    /// Whether the issuer withdrew the claim.
    pub revoked: bool,
    /// Whether the subject had the claim erased.
    pub deleted: bool,
    /// Free text of the issuer.
    pub metadata: Option<Seq<u8>>,
    /// The country that the claim is tied to.
    pub jurisdiction: Option<Seq<u8>>,
    /// From when on the claim counts.
    pub valid_from: Option<u64>,
    /// Where the attestation comes from.
    pub origin: AttestationOrigin,
    /// The chain that a bridged attestation comes from.
    pub source_chain: Option<Seq<u8>>,
    /// The transaction that a bridged attestation comes from.
    pub source_tx: Option<Seq<u8>>,
    /// Labels of the issuer.
    pub tags: Option<Seq<Seq<u8>>>,
    /// Why the claim was withdrawn.
    pub revocation_reason: Option<Seq<u8>>,
}

impl View for Attestation {
    type V = AttestationView;

    open spec fn view(&self) -> AttestationView {
        AttestationView {
            id: self.id.deep_view(),
            issuer: self.issuer,
            subject: self.subject,
            claim_type: self.claim_type.deep_view(),
            timestamp: self.timestamp,
            expiration: self.expiration,
            revoked: self.revoked,
            deleted: self.deleted,
            metadata: self.metadata.deep_view(),
            jurisdiction: self.jurisdiction.deep_view(),
            valid_from: self.valid_from,
            origin: self.origin,
            source_chain: self.source_chain.deep_view(),
            source_tx: self.source_tx.deep_view(),
            tags: self.tags.deep_view(),
            revocation_reason: self.revocation_reason.deep_view(),
        }
    }
}

impl DeepView for Attestation {
    type V = AttestationView;

    open spec fn deep_view(&self) -> AttestationView {
        self@
    }
}

impl Clone for Attestation {
    fn clone(&self) -> (r: Attestation)
        ensures
            r@ == self@,
    {
        Attestation {
            id: self.id.clone(),
            issuer: self.issuer,
            subject: self.subject,
            claim_type: self.claim_type.clone(),
            timestamp: self.timestamp,
            expiration: self.expiration,
            revoked: self.revoked,
            deleted: self.deleted,
            metadata: copy_optional(&self.metadata),
            jurisdiction: copy_optional(&self.jurisdiction),
            valid_from: self.valid_from,
            origin: self.origin,
            source_chain: copy_optional(&self.source_chain),
            source_tx: copy_optional(&self.source_tx),
            tags: copy_tags(&self.tags),
            revocation_reason: copy_optional(&self.revocation_reason),
        }
    }
}

/// One change of state of an attestation.
#[derive(Debug)]
pub struct AuditEntry {
    /// What happened.
    pub action: AuditAction,
    /// Who did it.
    pub actor: Address,
    /// When.
    pub timestamp: u64,
    /// Further details.
    pub details: Option<Text>,
}

/// What an [`AuditEntry`] stands for.
#[verifier::ext_equal]
pub struct AuditEntryView {
    /// What happened.
    pub action: AuditAction,
    /// Who did it.
    pub actor: Address,
    /// When.
    pub timestamp: u64,
    /// Further details.
    pub details: Option<Seq<u8>>,
}

impl View for AuditEntry {
    type V = AuditEntryView;

    open spec fn view(&self) -> AuditEntryView {
        AuditEntryView {
            action: self.action,
            actor: self.actor,
            timestamp: self.timestamp,
            details: self.details.deep_view(),
        }
    }
}

impl DeepView for AuditEntry {
    type V = AuditEntryView;

    open spec fn deep_view(&self) -> AuditEntryView {
        self@
    }
}

impl Clone for AuditEntry {
    fn clone(&self) -> (r: AuditEntry)
        ensures
            r@ == self@,
    {
        AuditEntry {
            action: self.action,
            actor: self.actor,
            timestamp: self.timestamp,
            details: copy_optional(&self.details),
        }
    }
}

/// The support of one issuer for the attestation of another.
#[derive(Debug)]
pub struct Endorsement {
    /// The attestation.
    pub attestation_id: Text,
    /// The supporting issuer.
    pub endorser: Address,
    /// When the support was given.
    pub timestamp: u64,
}

/// What an [`Endorsement`] stands for.
#[verifier::ext_equal]
pub struct EndorsementView {
    /// The attestation.
    pub attestation_id: Seq<u8>,
    /// The supporting issuer.
    pub endorser: Address,
    /// When the support was given.
    pub timestamp: u64,
}

impl View for Endorsement {
    type V = EndorsementView;

    open spec fn view(&self) -> EndorsementView {
        EndorsementView {
            attestation_id: self.attestation_id.deep_view(),
            endorser: self.endorser,
            timestamp: self.timestamp,
        }
    }
}

impl DeepView for Endorsement {
    type V = EndorsementView;

    open spec fn deep_view(&self) -> EndorsementView {
        self@
    }
}

impl Clone for Endorsement {
    fn clone(&self) -> (r: Endorsement)
        ensures
            r@ == self@,
    {
        Endorsement {
            attestation_id: self.attestation_id.clone(),
            endorser: self.endorser,
            timestamp: self.timestamp,
        }
    }
}

/// A registered claim type.
#[derive(Debug)]
pub struct ClaimTypeInfo {
    /// The identifier of the claim type.
    pub claim_type: Text,
    /// What the claim type means.
    pub description: Text,
}

/// What a [`ClaimTypeInfo`] stands for.
#[verifier::ext_equal]
pub struct ClaimTypeInfoView {
    /// The identifier of the claim type.
    pub claim_type: Seq<u8>,
    /// What the claim type means.
    pub description: Seq<u8>,
}

impl View for ClaimTypeInfo {
    type V = ClaimTypeInfoView;

    open spec fn view(&self) -> ClaimTypeInfoView {
        ClaimTypeInfoView {
            claim_type: self.claim_type.deep_view(),
            description: self.description.deep_view(),
        }
    }
}

impl DeepView for ClaimTypeInfo {
    type V = ClaimTypeInfoView;

    open spec fn deep_view(&self) -> ClaimTypeInfoView {
        self@
    }
}

impl Clone for ClaimTypeInfo {
    fn clone(&self) -> (r: ClaimTypeInfo)
        ensures
            r@ == self@,
    {
        ClaimTypeInfo {
            claim_type: self.claim_type.clone(),
            description: self.description.clone(),
        }
    }
}

/// What an issuer says about itself.
#[derive(Debug)]
pub struct IssuerMetadata {
    /// The name.
    pub name: Text,
    /// A web address.
    pub url: Text,
    /// A description.
    pub description: Text,
}

/// What an [`IssuerMetadata`] stands for.
#[verifier::ext_equal]
pub struct IssuerMetadataView {
    /// The name.
    pub name: Seq<u8>,
    /// A web address.
    pub url: Seq<u8>,
    /// A description.
    pub description: Seq<u8>,
}

impl View for IssuerMetadata {
    type V = IssuerMetadataView;

    open spec fn view(&self) -> IssuerMetadataView {
        IssuerMetadataView {
            name: self.name.deep_view(),
            url: self.url.deep_view(),
            description: self.description.deep_view(),
        }
    }
}

impl DeepView for IssuerMetadata {
    type V = IssuerMetadataView;

    open spec fn deep_view(&self) -> IssuerMetadataView {
        self@
    }
}

impl Clone for IssuerMetadata {
    fn clone(&self) -> (r: IssuerMetadata)
        ensures
            r@ == self@,
    {
        IssuerMetadata {
            name: self.name.clone(),
            url: self.url.clone(),
            description: self.description.clone(),
        }
    }
}

/// An attestation that several issuers have to sign.
#[derive(Debug)]
pub struct MultiSigProposal {
    /// The identifier.
    pub id: Text,
    /// The issuer that proposed it.
    pub proposer: Address,
    /// Whom the claim is about.
    pub subject: Address,
    /// What is claimed.
    pub claim_type: Text,
    /// The issuers that may co-sign.
    pub required_signers: Vec<Address>,
    /// How many signatures make it an attestation.
    pub threshold: u32,
    /// The issuers that signed, in order.
    pub signers: Vec<Address>,
    /// When it was proposed.
    pub created_at: u64,
    /// From when on it can no longer be co-signed.
    pub expires_at: u64,
    /// Whether it has become an attestation.
    pub finalized: bool,
}

/// What a [`MultiSigProposal`] stands for.
#[verifier::ext_equal]
pub struct MultiSigProposalView {
    /// The identifier.
    pub id: Seq<u8>,
    /// The issuer that proposed it.
    pub proposer: Address,
    /// Whom the claim is about.
    pub subject: Address,
    /// What is claimed.
    pub claim_type: Seq<u8>,
    /// The issuers that may co-sign.
    pub required_signers: Seq<Address>,
    /// How many signatures make it an attestation.
    pub threshold: u32,
    /// The issuers that signed, in order.
    pub signers: Seq<Address>,
    /// When it was proposed.
    pub created_at: u64,
    /// From when on it can no longer be co-signed.
    pub expires_at: u64,
    /// Whether it has become an attestation.
    pub finalized: bool,
}

impl View for MultiSigProposal {
    type V = MultiSigProposalView;

    open spec fn view(&self) -> MultiSigProposalView {
        MultiSigProposalView {
            id: self.id.deep_view(),
            proposer: self.proposer,
            subject: self.subject,
            claim_type: self.claim_type.deep_view(),
            required_signers: self.required_signers.deep_view(),
            threshold: self.threshold,
            signers: self.signers.deep_view(),
            created_at: self.created_at,
            expires_at: self.expires_at,
            finalized: self.finalized,
        }
    }
}

impl DeepView for MultiSigProposal {
    type V = MultiSigProposalView;

    open spec fn deep_view(&self) -> MultiSigProposalView {
        self@
    }
}

impl Clone for MultiSigProposal {
    fn clone(&self) -> (r: MultiSigProposal)
        ensures
            r@ == self@,
    {
        MultiSigProposal {
            id: self.id.clone(),
            proposer: self.proposer,
            subject: self.subject,
            claim_type: self.claim_type.clone(),
            required_signers: copy_addresses(&self.required_signers),
            threshold: self.threshold,
            signers: copy_addresses(&self.signers),
            created_at: self.created_at,
            expires_at: self.expires_at,
            finalized: self.finalized,
        }
    }
}

/// The council that decides on sensitive operations.
#[derive(Debug)]
pub struct AdminCouncil {
    /// Who may vote.
    pub members: Vec<Address>,
    /// How many approvals an operation takes.
    pub quorum: u32,
}

/// What an [`AdminCouncil`] stands for.
#[verifier::ext_equal]
pub struct AdminCouncilView {
    /// Who may vote.
    pub members: Seq<Address>,
    /// How many approvals an operation takes.
    pub quorum: u32,
}

impl View for AdminCouncil {
    type V = AdminCouncilView;

    open spec fn view(&self) -> AdminCouncilView {
        AdminCouncilView {
            members: self.members.deep_view(),
            quorum: self.quorum,
        }
    }
}

impl DeepView for AdminCouncil {
    type V = AdminCouncilView;

    open spec fn deep_view(&self) -> AdminCouncilView {
        self@
    }
}

impl Clone for AdminCouncil {
    fn clone(&self) -> (r: AdminCouncil)
        ensures
            r@ == self@,
    {
        AdminCouncil {
            members: copy_addresses(&self.members),
            quorum: self.quorum,
        }
    }
}

/// A sensitive operation put to the council.
#[derive(Debug)]
pub struct CouncilProposal {
    /// The number of the proposal.
    pub id: u32,
    /// What is to be done.
    pub operation: CouncilOperation,
    /// The member that proposed it.
    pub proposer: Address,
    /// The members that approved, in order.
    pub approvals: Vec<Address>,
    /// Whether the operation has been carried out.
    pub executed: bool,
}

/// What a [`CouncilProposal`] stands for.
#[verifier::ext_equal]
pub struct CouncilProposalView {
    /// The number of the proposal.
    pub id: u32,
    /// What is to be done.
    pub operation: CouncilOperation,
    /// The member that proposed it.
    pub proposer: Address,
    /// The members that approved, in order.
    pub approvals: Seq<Address>,
    /// Whether the operation has been carried out.
    pub executed: bool,
}

impl View for CouncilProposal {
    type V = CouncilProposalView;

    open spec fn view(&self) -> CouncilProposalView {
        CouncilProposalView {
            id: self.id,
            operation: self.operation,
            proposer: self.proposer,
            approvals: self.approvals.deep_view(),
            executed: self.executed,
        }
    }
}

impl DeepView for CouncilProposal {
    type V = CouncilProposalView;

    open spec fn deep_view(&self) -> CouncilProposalView {
        self@
    }
}

impl Clone for CouncilProposal {
    fn clone(&self) -> (r: CouncilProposal)
        ensures
            r@ == self@,
    {
        CouncilProposal {
            id: self.id,
            operation: self.operation,
            proposer: self.proposer,
            approvals: copy_addresses(&self.approvals),
            executed: self.executed,
        }
    }
}

/// What the registry says about itself.
#[derive(Debug)]
pub struct ContractMetadata {
    /// The name.
    pub name: Text,
    /// The version.
    pub version: Text,
    /// A description.
    pub description: Text,
}

/// What a [`ContractMetadata`] stands for.
#[verifier::ext_equal]
pub struct ContractMetadataView {
    /// The name.
    pub name: Seq<u8>,
    /// The version.
    pub version: Seq<u8>,
    /// A description.
    pub description: Seq<u8>,
}

impl View for ContractMetadata {
    type V = ContractMetadataView;

    open spec fn view(&self) -> ContractMetadataView {
        ContractMetadataView {
            name: self.name.deep_view(),
            version: self.version.deep_view(),
            description: self.description.deep_view(),
        }
    }
}

impl DeepView for ContractMetadata {
    type V = ContractMetadataView;

    open spec fn deep_view(&self) -> ContractMetadataView {
        self@
    }
}

impl Clone for ContractMetadata {
    fn clone(&self) -> (r: ContractMetadata)
        ensures
            r@ == self@,
    {
        ContractMetadata {
            name: self.name.clone(),
            version: self.version.clone(),
            description: self.description.clone(),
        }
    }
}

impl AttestationView {
    /// What the attestation is worth at `now`: revocation counts first, then a start that lies
    /// ahead, then an expiration that has been reached.
    pub open spec fn status(self, now: u64) -> AttestationStatus {
        if self.revoked {
            AttestationStatus::Revoked
        } else if self.valid_from is Some && now < self.valid_from->0 {
            AttestationStatus::Pending
        } else if self.expiration is Some && now >= self.expiration->0 {
            AttestationStatus::Expired
        } else {
            AttestationStatus::Valid
        }
    }
}

impl Attestation {
    /// What the attestation is worth at `current_time`.
    pub fn get_status(&self, current_time: u64) -> (r: AttestationStatus)
        ensures
            r == self@.status(current_time),
    {
        if self.revoked {
            return AttestationStatus::Revoked;
        }
        if let Some(valid_from) = self.valid_from {
            if current_time < valid_from {
                return AttestationStatus::Pending;
            }
        }
        if let Some(expiration) = self.expiration {
            if current_time >= expiration {
                return AttestationStatus::Expired;
            }
        }
        AttestationStatus::Valid
    }
}

} // verus!

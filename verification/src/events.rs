//! What a request asks of the world outside the ledger: events to publish and
//! calls to make on other contracts.

use crate::address::Address;
use crate::text::Text;
use crate::types::{Attestation, AttestationView, IssuerTier};
use vstd::prelude::*;

verus! {

/// A notice for observers of the ledger.
#[derive(Debug)]
pub enum Event {
    /// The first administrator took office.
    AdminInitialized {
        /// The administrator.
        admin: Address,
        /// When.
        timestamp: u64,
    },
    /// One administrator handed over to another.
    AdminTransferred {
        /// Who left.
        current_admin: Address,
        /// Who followed.
        new_admin: Address,
    },
    /// An administrator joined.
    AdminAdded {
        /// Who decided it.
        by: Address,
        /// The administrator.
        admin: Address,
        /// When.
        timestamp: u64,
    },
    /// An administrator was removed.
    AdminRemoved {
        /// Who decided it.
        by: Address,
        /// The administrator.
        admin: Address,
        /// When.
        timestamp: u64,
    },
    /// An issuer was registered.
    IssuerRegistered {
        /// The issuer.
        issuer: Address,
        /// The administrator.
        admin: Address,
        /// When.
        timestamp: u64,
    },
    /// An issuer was removed.
    IssuerRemoved {
        /// The issuer.
        issuer: Address,
        /// The administrator.
        admin: Address,
        /// When.
        timestamp: u64,
    },
    /// An issuer was given a tier.
    IssuerTierUpdated {
        /// The issuer.
        issuer: Address,
        /// The tier.
        tier: IssuerTier,
    },
    /// An issuer turned whitelist mode on.
    WhitelistModeEnabled {
        /// The issuer.
        issuer: Address,
    },
    /// A subject was put on a whitelist, or taken off.
    WhitelistUpdated {
        /// The issuer.
        issuer: Address,
        /// The subject.
        subject: Address,
        /// Whether the subject was put on.
        added: bool,
    },
    /// Attestation writes were paused.
    ContractPaused {
        /// The administrator.
        admin: Address,
        /// When.
        timestamp: u64,
    },
    /// Attestation writes were resumed.
    ContractUnpaused {
        /// The administrator.
        admin: Address,
        /// When.
        timestamp: u64,
    },
    /// An issuer created an attestation.
    AttestationCreated(Attestation),
    /// An attestation was imported.
    AttestationImported(Attestation),
    /// An attestation was mirrored from another chain.
    AttestationBridged(Attestation),
    /// An attestation was revoked.
    AttestationRevoked {
        /// The attestation.
        attestation_id: Text,
        /// The issuer.
        issuer: Address,
        /// Why.
        reason: Option<Text>,
    },
    /// The expiration of an attestation was set anew.
    AttestationRenewed {
        /// The attestation.
        attestation_id: Text,
        /// The issuer.
        issuer: Address,
        /// The expiration now.
        new_expiration: Option<u64>,
    },
    /// A query met an expired attestation.
    AttestationExpired {
        /// The attestation.
        attestation_id: Text,
        /// The subject.
        subject: Address,
    },
    /// A subject had an attestation erased.
    DeletionRequested {
        /// The subject.
        subject: Address,
        /// The attestation.
        attestation_id: Text,
        /// When.
        timestamp: u64,
    },
    /// A claim is about to expire.
    ExpirationHookTriggered {
        /// The subject.
        subject: Address,
        /// The attestation.
        attestation_id: Text,
        /// When it expires.
        expiration: u64,
    },
    /// A claim type was registered.
    ClaimTypeRegistered {
        /// The claim type.
        claim_type: Text,
        /// What it means.
        description: Text,
    },
    /// An attestation was put up for signing.
    MultisigProposed {
        /// The proposal.
        proposal_id: Text,
        /// Who proposed it.
        proposer: Address,
        /// The subject.
        subject: Address,
        /// How many signatures it takes.
        threshold: u32,
    },
    /// A proposal was co-signed.
    MultisigCosigned {
        /// The proposal.
        proposal_id: Text,
        /// The issuer.
        issuer: Address,
        /// How many signatures there are now.
        signatures: usize,
        /// How many signatures it takes.
        threshold: u32,
    },
    /// A proposal became an attestation.
    MultisigActivated {
        /// The proposal.
        proposal_id: Text,
        /// The attestation.
        attestation_id: Text,
    },
    /// An attestation was endorsed.
    AttestationEndorsed {
        /// The attestation.
        attestation_id: Text,
        /// The supporting issuer.
        endorser: Address,
        /// When.
        timestamp: u64,
    },
    /// The council was set up.
    CouncilInitialized {
        /// How many approvals an operation takes.
        quorum: u32,
        /// How many members there are.
        member_count: usize,
    },
    /// An operation was put to the council.
    ProposalCreated {
        /// The number of the proposal.
        id: u32,
        /// Who proposed it.
        proposer: Address,
    },
    /// A member approved an operation.
    ProposalApproved {
        /// The number of the proposal.
        id: u32,
        /// Who approved.
        approver: Address,
    },
    /// An operation was carried out.
    ProposalExecuted {
        /// The number of the proposal.
        id: u32,
    },
}

/// What an [`Event`] stands for.
#[verifier::ext_equal]
pub enum EventView {
    /// The first administrator took office.
    AdminInitialized {
        /// The administrator.
        admin: Address,
        /// When.
        timestamp: u64,
    },
    /// One administrator handed over to another.
    AdminTransferred {
        /// Who left.
        current_admin: Address,
        /// Who followed.
        new_admin: Address,
    },
    /// An administrator joined.
    AdminAdded {
        /// Who decided it.
        by: Address,
        /// The administrator.
        admin: Address,
        /// When.
        timestamp: u64,
    },
    /// An administrator was removed.
    AdminRemoved {
        /// Who decided it.
        by: Address,
        /// The administrator.
        admin: Address,
        /// When.
        timestamp: u64,
    },
    /// An issuer was registered.
    IssuerRegistered {
        /// The issuer.
        issuer: Address,
        /// The administrator.
        admin: Address,
        /// When.
        timestamp: u64,
    },
    /// An issuer was removed.
    IssuerRemoved {
        /// The issuer.
        issuer: Address,
        /// The administrator.
        admin: Address,
        /// When.
        timestamp: u64,
    },
    /// An issuer was given a tier.
    IssuerTierUpdated {
        /// The issuer.
        issuer: Address,
        /// The tier.
        tier: IssuerTier,
    },
    /// An issuer turned whitelist mode on.
    WhitelistModeEnabled {
        /// The issuer.
        issuer: Address,
    },
    /// A subject was put on a whitelist, or taken off.
    WhitelistUpdated {
        /// The issuer.
        issuer: Address,
        /// The subject.
        subject: Address,
        /// Whether the subject was put on.
        added: bool,
    },
    /// Attestation writes were paused.
    ContractPaused {
        /// The administrator.
        admin: Address,
        /// When.
        timestamp: u64,
    },
    /// Attestation writes were resumed.
    ContractUnpaused {
        /// The administrator.
        admin: Address,
        /// When.
        timestamp: u64,
    },
    /// An issuer created an attestation.
    AttestationCreated(AttestationView),
    /// An attestation was imported.
    AttestationImported(AttestationView),
    /// An attestation was mirrored from another chain.
    AttestationBridged(AttestationView),
    /// An attestation was revoked.
    AttestationRevoked {
        /// The attestation.
        attestation_id: Seq<u8>,
        /// The issuer.
        issuer: Address,
        /// Why.
        reason: Option<Seq<u8>>,
    },
    /// The expiration of an attestation was set anew.
    AttestationRenewed {
        /// The attestation.
        attestation_id: Seq<u8>,
        /// The issuer.
        issuer: Address,
        /// The expiration now.
        new_expiration: Option<u64>,
    },
    /// A query met an expired attestation.
    AttestationExpired {
        /// The attestation.
        attestation_id: Seq<u8>,
        /// The subject.
        subject: Address,
    },
    /// A subject had an attestation erased.
    DeletionRequested {
        /// The subject.
        subject: Address,
        /// The attestation.
        attestation_id: Seq<u8>,
        /// When.
        timestamp: u64,
    },
    /// A claim is about to expire.
    ExpirationHookTriggered {
        /// The subject.
        subject: Address,
        /// The attestation.
        attestation_id: Seq<u8>,
        /// When it expires.
        expiration: u64,
    },
    /// A claim type was registered.
    ClaimTypeRegistered {
        /// The claim type.
        claim_type: Seq<u8>,
        /// What it means.
        description: Seq<u8>,
    },
    /// An attestation was put up for signing.
    MultisigProposed {
        /// The proposal.
        proposal_id: Seq<u8>,
        /// Who proposed it.
        proposer: Address,
        /// The subject.
        subject: Address,
        /// How many signatures it takes.
        threshold: u32,
    },
    /// A proposal was co-signed.
    MultisigCosigned {
        /// The proposal.
        proposal_id: Seq<u8>,
        /// The issuer.
        issuer: Address,
        /// How many signatures there are now.
        signatures: nat,
        /// How many signatures it takes.
        threshold: u32,
    },
    /// A proposal became an attestation.
    MultisigActivated {
        /// The proposal.
        proposal_id: Seq<u8>,
        /// The attestation.
        attestation_id: Seq<u8>,
    },
    /// An attestation was endorsed.
    AttestationEndorsed {
        /// The attestation.
        attestation_id: Seq<u8>,
        /// The supporting issuer.
        endorser: Address,
        /// When.
        timestamp: u64,
    },
    /// The council was set up.
    CouncilInitialized {
        /// How many approvals an operation takes.
        quorum: u32,
        /// How many members there are.
        member_count: nat,
    },
    /// An operation was put to the council.
    ProposalCreated {
        /// The number of the proposal.
        id: u32,
        /// Who proposed it.
        proposer: Address,
    },
    /// A member approved an operation.
    ProposalApproved {
        /// The number of the proposal.
        id: u32,
        /// Who approved.
        approver: Address,
    },
    /// An operation was carried out.
    ProposalExecuted {
        /// The number of the proposal.
        id: u32,
    },
}

impl View for Event {
    type V = EventView;

    open spec fn view(&self) -> EventView {
        match self {
            Event::AdminInitialized { admin, timestamp } => EventView::AdminInitialized {
                admin: *admin,
                timestamp: *timestamp,
            },
            Event::AdminTransferred { current_admin, new_admin } => EventView::AdminTransferred {
                current_admin: *current_admin,
                new_admin: *new_admin,
            },
            Event::AdminAdded { by, admin, timestamp } => EventView::AdminAdded {
                by: *by,
                admin: *admin,
                timestamp: *timestamp,
            },
            Event::AdminRemoved { by, admin, timestamp } => EventView::AdminRemoved {
                by: *by,
                admin: *admin,
                timestamp: *timestamp,
            },
            Event::IssuerRegistered { issuer, admin, timestamp } => EventView::IssuerRegistered {
                issuer: *issuer,
                admin: *admin,
                timestamp: *timestamp,
            },
            Event::IssuerRemoved { issuer, admin, timestamp } => EventView::IssuerRemoved {
                issuer: *issuer,
                admin: *admin,
                timestamp: *timestamp,
            },
            Event::IssuerTierUpdated { issuer, tier } => EventView::IssuerTierUpdated {
                issuer: *issuer,
                tier: *tier,
            },
            Event::WhitelistModeEnabled { issuer } => EventView::WhitelistModeEnabled {
                issuer: *issuer,
            },
            Event::WhitelistUpdated { issuer, subject, added } => EventView::WhitelistUpdated {
                issuer: *issuer,
                subject: *subject,
                added: *added,
            },
            Event::ContractPaused { admin, timestamp } => EventView::ContractPaused {
                admin: *admin,
                timestamp: *timestamp,
            },
            Event::ContractUnpaused { admin, timestamp } => EventView::ContractUnpaused {
                admin: *admin,
                timestamp: *timestamp,
            },
            Event::AttestationCreated(x) => EventView::AttestationCreated(x@),
            Event::AttestationImported(x) => EventView::AttestationImported(x@),
            Event::AttestationBridged(x) => EventView::AttestationBridged(x@),
            Event::AttestationRevoked { attestation_id, issuer, reason } => EventView::AttestationRevoked {
                attestation_id: attestation_id.deep_view(),
                issuer: *issuer,
                reason: reason.deep_view(),
            },
            Event::AttestationRenewed { attestation_id, issuer, new_expiration } => EventView::AttestationRenewed {
                attestation_id: attestation_id.deep_view(),
                issuer: *issuer,
                new_expiration: *new_expiration,
            },
            Event::AttestationExpired { attestation_id, subject } => EventView::AttestationExpired {
                attestation_id: attestation_id.deep_view(),
                subject: *subject,
            },
            Event::DeletionRequested { subject, attestation_id, timestamp } => EventView::DeletionRequested {
                subject: *subject,
                attestation_id: attestation_id.deep_view(),
                timestamp: *timestamp,
            },
            Event::ExpirationHookTriggered { subject, attestation_id, expiration } => EventView::ExpirationHookTriggered {
                subject: *subject,
                attestation_id: attestation_id.deep_view(),
                expiration: *expiration,
            },
            Event::ClaimTypeRegistered { claim_type, description } => EventView::ClaimTypeRegistered {
                claim_type: claim_type.deep_view(),
                description: description.deep_view(),
            },
            Event::MultisigProposed { proposal_id, proposer, subject, threshold } => EventView::MultisigProposed {
                proposal_id: proposal_id.deep_view(),
                proposer: *proposer,
                subject: *subject,
                threshold: *threshold,
            },
            Event::MultisigCosigned { proposal_id, issuer, signatures, threshold } => EventView::MultisigCosigned {
                proposal_id: proposal_id.deep_view(),
                issuer: *issuer,
                signatures: signatures as nat,
                threshold: *threshold,
            },
            Event::MultisigActivated { proposal_id, attestation_id } => EventView::MultisigActivated {
                proposal_id: proposal_id.deep_view(),
                attestation_id: attestation_id.deep_view(),
            },
            Event::AttestationEndorsed { attestation_id, endorser, timestamp } => EventView::AttestationEndorsed {
                attestation_id: attestation_id.deep_view(),
                endorser: *endorser,
                timestamp: *timestamp,
            },
            Event::CouncilInitialized { quorum, member_count } => EventView::CouncilInitialized {
                quorum: *quorum,
                member_count: member_count as nat,
            },
            Event::ProposalCreated { id, proposer } => EventView::ProposalCreated {
                id: *id,
                proposer: *proposer,
            },
            Event::ProposalApproved { id, approver } => EventView::ProposalApproved {
                id: *id,
                approver: *approver,
            },
            Event::ProposalExecuted { id } => EventView::ProposalExecuted {
                id: *id,
            },
        }
    }
}

impl DeepView for Event {
    type V = EventView;

    open spec fn deep_view(&self) -> EventView {
        self@
    }
}

/// Something that a request asks of the world outside the ledger.
#[derive(Debug)]
pub enum Effect {
    /// Publish an event.
    Publish(Event),
    /// Move tokens.
    Transfer {
        /// The token contract.
        token: Address,
        /// Who pays.
        from: Address,
        /// Who receives.
        to: Address,
        /// How much.
        amount: i128,
    },
    /// Ask a contract for a balance, which fails unless it is a token contract.
    ProbeToken {
        /// The contract.
        token: Address,
    },
    /// Tell a contract, whatever it answers, that a claim is about to expire.
    NotifyExpiring {
        /// The contract.
        callback_contract: Address,
        /// The subject.
        subject: Address,
        /// The attestation.
        attestation_id: Text,
        /// When it expires.
        expiration: u64,
    },
}

/// What an [`Effect`] stands for.
#[verifier::ext_equal]
pub enum EffectView {
    /// Publish an event.
    Publish(EventView),
    /// Move tokens.
    Transfer {
        /// The token contract.
        token: Address,
        /// Who pays.
        from: Address,
        /// Who receives.
        to: Address,
        /// How much.
        amount: i128,
    },
    /// Ask a contract for a balance, which fails unless it is a token contract.
    ProbeToken {
        /// The contract.
        token: Address,
    },
    /// Tell a contract, whatever it answers, that a claim is about to expire.
    NotifyExpiring {
        /// The contract.
        callback_contract: Address,
        /// The subject.
        subject: Address,
        /// The attestation.
        attestation_id: Seq<u8>,
        /// When it expires.
        expiration: u64,
    },
}

impl View for Effect {
    type V = EffectView;

    open spec fn view(&self) -> EffectView {
        match self {
            Effect::Publish(x) => EffectView::Publish(x@),
            Effect::Transfer { token, from, to, amount } => EffectView::Transfer {
                token: *token,
                from: *from,
                to: *to,
                amount: *amount,
            },
            Effect::ProbeToken { token } => EffectView::ProbeToken {
                token: *token,
            },
            Effect::NotifyExpiring { callback_contract, subject, attestation_id, expiration } => EffectView::NotifyExpiring {
                callback_contract: *callback_contract,
                subject: *subject,
                attestation_id: attestation_id.deep_view(),
                expiration: *expiration,
            },
        }
    }
}

impl DeepView for Effect {
    type V = EffectView;

    open spec fn deep_view(&self) -> EffectView {
        self@
    }
}

} // verus!

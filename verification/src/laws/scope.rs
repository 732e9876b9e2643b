//! Each part of the ledger is changed only by the requests that are about it.

use crate::address::Address;
use crate::books::questions_change_nothing;
use crate::env::EnvView;
use crate::requests::Request;
use vstd::prelude::*;

verus! {

impl Request {
    /// Whether the request is about the administrators.
    pub open spec fn is_about_admins(self) -> bool {
        self is Initialize || self is TransferAdmin || self is AddAdmin || self is RemoveAdmin
    }

    /// Whether the request can change the registry of issuers.
    pub open spec fn is_about_issuers(self) -> bool {
        self is RegisterIssuer || self is RemoveIssuer || self is ExecuteAction
    }

    /// Whether the request can pause or resume attestation writes.
    pub open spec fn is_about_pausing(self) -> bool {
        self is Pause || self is Unpause || self is ExecuteAction
    }

    /// Whether the request is about a proposal put to the council.
    pub open spec fn is_about_actions(self) -> bool {
        self is ProposeAction || self is ApproveAction || self is ExecuteAction
    }
}

/// Whether `t` differs from `s` in nothing but attestations, their indexes and logs, the running
/// totals, what is kept alive for how long, and what was asked for.
pub open spec fn same_but_books(s: EnvView, t: EnvView) -> bool {
    t == EnvView {
        attestations: t.attestations,
        subject_attestations: t.subject_attestations,
        issuer_attestations: t.issuer_attestations,
        audit_logs: t.audit_logs,
        issuer_stats: t.issuer_stats,
        global_stats: t.global_stats,
        instance_ttl: t.instance_ttl,
        lifetimes: t.lifetimes,
        effects: t.effects,
        ..s
    }
}

/// The attestations of a batch change nothing else.
pub proof fn lemma_batch_scope(
    s: EnvView,
    issuer: Address,
    subjects: Seq<Address>,
    claim_type: Seq<u8>,
    expiration: Option<u64>,
)
    ensures
        same_but_books(s, s.batch_items(issuer, subjects, claim_type, expiration)),
    decreases subjects.len(),
{
    if subjects.len() > 0 {
        lemma_batch_scope(s, issuer, subjects.drop_last(), claim_type, expiration);
    }
}

/// The revocations of a batch change nothing else.
pub proof fn lemma_revocations_scope(
    s: EnvView,
    issuer: Address,
    ids: Seq<Seq<u8>>,
    reason: Option<Seq<u8>>,
)
    ensures
        same_but_books(s, s.revocations(issuer, ids, reason)),
    decreases ids.len(),
{
    if ids.len() > 0 {
        lemma_revocations_scope(s, issuer, ids.drop_last(), reason);
    }
}

/// Whether `t` differs from `s` only in parts that the request is about.
pub open spec fn within_scope(request: Request, s: EnvView, t: EnvView) -> bool {
    &&& t.timestamp == s.timestamp
    &&& t.auths == s.auths
    &&& t.expiration_hooks == s.expiration_hooks
    &&& !request.is_about_admins() ==> t.admin_council == s.admin_council
    &&& !(request is Initialize) ==> t.version == s.version && t.ttl_config == s.ttl_config
    &&& !(request is Initialize || request is SetFee) ==> t.fee_config == s.fee_config
    &&& !(request is SetRateLimit) ==> t.rate_limit == s.rate_limit
    &&& !(request is SetLimits) ==> t.limits == s.limits
    &&& !request.is_about_pausing() ==> t.paused == s.paused
    &&& !request.is_about_issuers() ==> t.issuers == s.issuers
    &&& !(request is RegisterBridge) ==> t.bridges == s.bridges
    &&& !(request is UpdateIssuerTier) ==> t.issuer_tiers == s.issuer_tiers
    &&& !(request is SetIssuerMetadata) ==> t.issuer_metadata == s.issuer_metadata
    &&& !(request is SetWhitelistEnabled || request is EnableWhitelistMode)
        ==> t.whitelist_modes == s.whitelist_modes
    &&& !(request is AddToWhitelist || request is RemoveFromWhitelist) ==> t.whitelist
        == s.whitelist
    &&& !(request is RegisterClaimType) ==> t.claim_types == s.claim_types
        && t.claim_type_list == s.claim_type_list
    &&& !(request is Create || request is CreateBatch) ==> t.last_issuance
        == s.last_issuance
    &&& !(request is Propose || request is Cosign) ==> t.multisig_proposals
        == s.multisig_proposals
    &&& !(request is Endorse) ==> t.endorsements == s.endorsements
    &&& !(request is InitCouncil) ==> t.council == s.council
    &&& !request.is_about_actions() ==> t.council_proposals == s.council_proposals
    &&& !(request is ProposeAction) ==> t.proposal_counter == s.proposal_counter
}

proof fn lemma_writing_scope(s: EnvView, request: Request)
    requires
        request is Create || request is Import || request is Bridge || request is Cosign,
    ensures
        within_scope(request, s, request.done(s)),
{
    match request {
        Request::Create(draft) => {
            let t = s.created(draft);
            assert(same_but_books(
                s,
                EnvView { last_issuance: s.last_issuance, ..t },
            ));
        },
        Request::Import { admin, issuer, subject, claim_type, timestamp, expiration } => {
            assert(same_but_books(s, request.done(s)));
        },
        Request::Bridge { bridge, subject, claim_type, source_chain, source_tx } => {
            assert(same_but_books(s, request.done(s)));
        },
        Request::Cosign { issuer, id } => {
            let t = s.cosigned(issuer, id);
            assert(same_but_books(
                s,
                EnvView { multisig_proposals: s.multisig_proposals, ..t },
            ));
        },
        _ => {},
    }
}

proof fn lemma_batch_writing_scope(s: EnvView, request: Request)
    requires
        request.writes_attestations(),
        !(request is Create || request is Import || request is Bridge || request is Cosign),
    ensures
        within_scope(request, s, request.done(s)),
{
    match request {
        Request::CreateBatch { issuer, subjects, claim_type, expiration } => {
            lemma_batch_scope(s, issuer, subjects, claim_type, expiration);
        },
        Request::RevokeBatch { issuer, ids, reason } => {
            lemma_revocations_scope(s, issuer, ids, reason);
        },
        _ => {},
    }
}

proof fn lemma_admin_scope(s: EnvView, request: Request)
    requires
        request.is_about_admins(),
    ensures
        within_scope(request, s, request.done(s)),
{
}

proof fn lemma_other_scope(s: EnvView, request: Request)
    requires
        !request.is_about_admins(),
        !request.writes_attestations(),
        !request.is_question(),
    ensures
        within_scope(request, s, request.done(s)),
{
}

/// A request changes only the parts of the ledger that it is about.
pub proof fn requests_stay_in_scope(s: EnvView, request: Request)
    ensures
        within_scope(request, s, request.after(s)),
{
    if request.is_question() {
        questions_change_nothing(s, request);
    } else {
        lemma_scope_of_done(s, request);
        lemma_after(s, request);
    }
}

proof fn lemma_scope_of_done(s: EnvView, request: Request)
    requires
        !request.is_question(),
    ensures
        within_scope(request, s, request.done(s)),
{
    if request.writes_attestations() {
        if request is Create || request is Import || request is Bridge || request is Cosign {
            lemma_writing_scope(s, request);
        } else {
            lemma_batch_writing_scope(s, request);
        }
    } else if request.is_about_admins() {
        lemma_admin_scope(s, request);
    } else {
        lemma_other_scope(s, request);
    }
}

proof fn lemma_after(s: EnvView, request: Request)
    ensures
        request.after(s) == s || request.after(s) == request.done(s),
{
    reveal(Request::after);
}

} // verus!

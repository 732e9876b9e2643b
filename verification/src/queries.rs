//! Questions about attestations. None of them changes what the ledger holds;
//! some of them ask for notices about claims that have expired or are about to.

use crate::address::Address;
use crate::contract::TrustLinkContract;
use crate::env::{Env, EnvView};
use crate::events::{Effect, EffectView, Event, EventView};
use crate::list::{has_text, lemma_filter_step, page, push};
use crate::storage::{paginate, Storage};
use crate::text::Text;
use crate::types::{
    Attestation, AttestationStatus, AttestationView, AuditEntry, Error, ExpirationHook, IssuerTier,
};
use crate::validation::{refusal, unless};
use vstd::prelude::*;

verus! {

/// The number of seconds in a day.
pub const SECS_PER_DAY: u64 = 86_400;

/// What claim is asked for.
#[verifier::ext_equal]
pub struct Claim {
    /// What is claimed.
    pub claim_type: Seq<u8>,
    /// Who has to have claimed it, unless anybody will do.
    pub issuer: Option<Address>,
}

impl Claim {
    /// Whether the attestation is of the kind asked for.
    pub open spec fn is_made_by(self, a: AttestationView) -> bool {
        a.claim_type == self.claim_type && (self.issuer is Some ==> a.issuer == self.issuer->0)
    }
}

/// The claim `claim_type`, made by anybody.
pub open spec fn claim_of(claim_type: Seq<u8>) -> Claim {
    Claim { claim_type, issuer: None }
}

/// Every attestation.
pub open spec fn anything() -> spec_fn(AttestationView) -> bool {
    |a: AttestationView| true
}

/// The attestations made between two times, both included.
pub open spec fn made_between(from_ts: u64, to_ts: u64) -> spec_fn(AttestationView) -> bool {
    |a: AttestationView| from_ts <= a.timestamp <= to_ts
}

/// The attestations with the given tag.
pub open spec fn tagged(tag: Seq<u8>) -> spec_fn(AttestationView) -> bool {
    |a: AttestationView| a.tags is Some && a.tags->0.contains(tag)
}

/// The attestations tied to the given country.
pub open spec fn placed_in(jurisdiction: Seq<u8>) -> spec_fn(AttestationView) -> bool {
    |a: AttestationView| a.jurisdiction == Some(jurisdiction)
}

impl EnvView {
    /// Whether queries show the attestation `id`.
    pub open spec fn visible(self, id: Seq<u8>) -> bool {
        self.attestations.contains_key(id) && !self.attestations[id].deleted
    }

    /// What the attestation `id` is worth now.
    pub open spec fn status_of(self, id: Seq<u8>) -> AttestationStatus {
        self.attestations[id].status(self.timestamp)
    }

    /// Whether the attestation `id` makes the claim, and is in force.
    pub open spec fn proves(self, id: Seq<u8>, claim: Claim) -> bool {
        &&& self.visible(id)
        &&& claim.is_made_by(self.attestations[id])
        &&& self.status_of(id) == AttestationStatus::Valid
    }

    /// Whether the attestation `id` made the claim, and has expired.
    pub open spec fn proved(self, id: Seq<u8>, claim: Claim) -> bool {
        &&& self.visible(id)
        &&& claim.is_made_by(self.attestations[id])
        &&& self.status_of(id) == AttestationStatus::Expired
    }

    /// Whether one of the attestations makes the claim.
    pub open spec fn any_proves(self, ids: Seq<Seq<u8>>, claim: Claim) -> bool {
        exists|i: int| 0 <= i < ids.len() && self.proves(#[trigger] ids[i], claim)
    }

    /// Whether `subject` holds the claim.
    pub open spec fn holds(self, subject: Address, claim: Claim) -> bool {
        self.any_proves(self.subject_ids(subject), claim)
    }

    /// The place of the first attestation that makes the claim, or the number of attestations
    /// where none does.
    pub open spec fn first_proof(self, ids: Seq<Seq<u8>>, claim: Claim) -> int
        decreases ids.len(),
    {
        if ids.len() == 0 {
            0
        } else {
            let earlier = self.first_proof(ids.drop_last(), claim);
            if earlier < ids.len() - 1 || self.proves(ids.last(), claim) {
                earlier
            } else {
                ids.len() as int
            }
        }
    }

    /// The ledger after a notice about each of the attestations that made the claim and has
    /// expired.
    pub open spec fn noticed(self, subject: Address, ids: Seq<Seq<u8>>, claim: Claim) -> EnvView
        decreases ids.len(),
    {
        if ids.len() == 0 {
            self
        } else {
            let earlier = self.noticed(subject, ids.drop_last(), claim);
            if self.proved(ids.last(), claim) {
                earlier.publish(
                    EventView::AttestationExpired { attestation_id: ids.last(), subject },
                )
            } else {
                earlier
            }
        }
    }

    /// The ledger after a search for the claim: the attestations about `subject` were gone
    /// through, oldest first, up to one that makes the claim.
    pub open spec fn searched(self, subject: Address, claim: Claim) -> EnvView {
        let ids = self.subject_ids(subject);
        self.noticed(subject, ids.take(self.first_proof(ids, claim)), claim)
    }

    /// Whether `now` lies within the days before `expiration` on which `hook` wants to be told.
    pub open spec fn within_notice(hook: ExpirationHook, expiration: u64, now: u64) -> bool {
        expiration - hook.notify_days_before * SECS_PER_DAY <= now < expiration
    }

    /// The ledger after the hook of `subject` was told that `id` is about to expire, where there
    /// is one and it is time.
    pub open spec fn hook_told(
        self,
        subject: Address,
        id: Seq<u8>,
        expiration: u64,
        now: u64,
    ) -> EnvView {
        if self.expiration_hooks.contains_key(subject) && Self::within_notice(
            self.expiration_hooks[subject],
            expiration,
            now,
        ) {
            self.publish(
                EventView::ExpirationHookTriggered { subject, attestation_id: id, expiration },
            ).ask(
                EffectView::NotifyExpiring {
                    callback_contract: self.expiration_hooks[subject].callback_contract,
                    subject,
                    attestation_id: id,
                    expiration,
                },
            )
        } else {
            self
        }
    }

    /// The ledger after the question whether `subject` holds a claim: after the search, the hook
    /// of `subject` was told if the attestation that was found is about to expire.
    pub open spec fn claim_checked(self, subject: Address, claim: Claim) -> EnvView {
        let ids = self.subject_ids(subject);
        let found = self.first_proof(ids, claim);
        if found < ids.len() && self.attestations[ids[found]].expiration is Some {
            self.searched(subject, claim).hook_told(
                subject,
                ids[found],
                self.attestations[ids[found]].expiration->0,
                self.timestamp,
            )
        } else {
            self.searched(subject, claim)
        }
    }

    /// The ledger after the question what an attestation is worth.
    pub open spec fn status_checked(self, id: Seq<u8>) -> EnvView {
        if self.visible(id) && self.status_of(id) == AttestationStatus::Expired {
            self.publish(
                EventView::AttestationExpired {
                    attestation_id: id,
                    subject: self.attestations[id].subject,
                },
            )
        } else {
            self
        }
    }

    /// Whether the attestation `id` makes the claim, and its issuer has at least the given tier.
    pub open spec fn proves_at_tier(
        self,
        id: Seq<u8>,
        claim: Claim,
        min_tier: IssuerTier,
    ) -> bool {
        let tier = self.tier_of(self.attestations[id].issuer);
        self.proves(id, claim) && tier is Some && tier->0.rank() >= min_tier.rank()
    }

    /// The test for attestations that queries show and that `accepts` accepts.
    pub open spec fn shown(self, accepts: spec_fn(AttestationView) -> bool) -> spec_fn(
        Seq<u8>,
    ) -> bool {
        |id: Seq<u8>| self.visible(id) && accepts(self.attestations[id])
    }

    /// The attestations with the given identifiers.
    pub open spec fn records(self, ids: Seq<Seq<u8>>) -> Seq<AttestationView> {
        ids.map_values(|id: Seq<u8>| self.attestations[id])
    }

    /// The claim types of the attestations in force, each once, in the order in which they first
    /// come up.
    pub open spec fn valid_claims(self, ids: Seq<Seq<u8>>) -> Seq<Seq<u8>>
        decreases ids.len(),
    {
        if ids.len() == 0 {
            Seq::empty()
        } else {
            let earlier = self.valid_claims(ids.drop_last());
            let claim_type = self.attestations[ids.last()].claim_type;
            if self.proves(ids.last(), claim_of(claim_type)) && !earlier.contains(claim_type) {
                earlier.push(claim_type)
            } else {
                earlier
            }
        }
    }

    /// The latest of the attestations that make the claim. An identifier without a record ends
    /// the search.
    pub open spec fn latest_proof(self, ids: Seq<Seq<u8>>, claim: Claim) -> Option<AttestationView>
        decreases ids.len(),
    {
        if ids.len() == 0 || !self.attestations.contains_key(ids.last()) {
            None
        } else if self.proves(ids.last(), claim) {
            Some(self.attestations[ids.last()])
        } else {
            self.latest_proof(ids.drop_last(), claim)
        }
    }
}

/// What a listing is narrowed down to.
enum Filter {
    /// Nothing in particular.
    Any,
    /// Attestations made between two times, both included.
    Made {
        from_ts: u64,
        to_ts: u64,
    },
    /// Attestations with the tag.
    Tagged(Text),
    /// Attestations tied to the country.
    Placed(Text),
}

impl Filter {
    spec fn test(self) -> spec_fn(AttestationView) -> bool {
        match self {
            Filter::Any => anything(),
            Filter::Made { from_ts, to_ts } => made_between(from_ts, to_ts),
            Filter::Tagged(tag) => tagged(tag@),
            Filter::Placed(jurisdiction) => placed_in(jurisdiction@),
        }
    }

    fn accepts(&self, attestation: &Attestation) -> (r: bool)
        ensures
            r == self.test()(attestation@),
    {
        match self {
            Filter::Any => true,
            Filter::Made { from_ts, to_ts } => attestation.timestamp >= *from_ts
                && attestation.timestamp <= *to_ts,
            Filter::Tagged(tag) => match &attestation.tags {
                Some(tags) => has_text(tags, tag),
                None => false,
            },
            Filter::Placed(jurisdiction) => match &attestation.jurisdiction {
                Some(code) => code.same(jurisdiction),
                None => false,
            },
        }
    }
}

/// The identifiers of the attestations that queries show and that pass the filter.
fn select(env: &Env, ids: &Vec<Text>, filter: &Filter) -> (r: Vec<Text>)
    ensures
        r.deep_view() == ids.deep_view().filter(env@.shown(filter.test())),
{
    let ghost all = ids.deep_view();
    let ghost pred = env@.shown(filter.test());
    let mut kept: Vec<Text> = Vec::new();
    let mut i: usize = 0;
    assert(kept.deep_view() =~= all.take(0).filter(pred)) by {
        reveal(Seq::filter);
    }
    while i < ids.len()
        invariant
            i <= ids.len(),
            all == ids.deep_view(),
            pred == env@.shown(filter.test()),
            kept.deep_view() == all.take(i as int).filter(pred),
        decreases ids.len() - i,
    {
        proof {
            lemma_filter_step(all, pred, i as int);
            assert(all[i as int] == ids[i as int]@);
        }
        if let Ok(attestation) = Storage::get_attestation(env, &ids[i]) {
            if !attestation.deleted && filter.accepts(&attestation) {
                push(&mut kept, ids[i].clone());
            }
        }
        i += 1;
    }
    assert(all.take(i as int) =~= all);
    kept
}

/// Whether the attestation `id` makes the claim `claim_type`, and is in force.
fn check_proof(env: &Env, id: &Text, claim_type: &Text) -> (r: bool)
    ensures
        r == env@.proves(id@, claim_of(claim_type@)),
{
    match Storage::get_attestation(env, id) {
        Ok(attestation) => !attestation.deleted && attestation.claim_type.same(claim_type)
            && attestation.get_status(env.timestamp) == AttestationStatus::Valid,
        Err(_) => false,
    }
}

/// Whether one of the attestations makes the claim `claim_type`.
fn check_proofs(env: &Env, ids: &Vec<Text>, claim_type: &Text) -> (r: bool)
    ensures
        r == env@.any_proves(ids.deep_view(), claim_of(claim_type@)),
{
    let ghost all = ids.deep_view();
    let mut i: usize = 0;
    while i < ids.len()
        invariant
            i <= ids.len(),
            all == ids.deep_view(),
            forall|j: int|
                0 <= j < i ==> !env@.proves(#[trigger] all[j], claim_of(claim_type@)),
        decreases ids.len() - i,
    {
        assert(all[i as int] == ids[i as int]@);
        if check_proof(env, &ids[i], claim_type) {
            return true;
        }
        i += 1;
    }
    false
}

/// What [`EnvView::first_proof`] says.
pub proof fn lemma_first_proof(env: EnvView, ids: Seq<Seq<u8>>, claim: Claim)
    ensures
        0 <= env.first_proof(ids, claim) <= ids.len(),
        forall|i: int|
            0 <= i < env.first_proof(ids, claim) ==> !env.proves(#[trigger] ids[i], claim),
        env.first_proof(ids, claim) < ids.len() ==> env.proves(
            ids[env.first_proof(ids, claim)],
            claim,
        ),
    decreases ids.len(),
{
    if ids.len() > 0 {
        let earlier = ids.drop_last();
        lemma_first_proof(env, earlier, claim);
        assert forall|i: int| 0 <= i < env.first_proof(ids, claim) implies !env.proves(
            #[trigger] ids[i],
            claim,
        ) by {
            if i < earlier.len() {
                assert(earlier[i] == ids[i]);
            }
        }
    }
}

/// Goes through the attestations about `subject`, oldest first, up to one that makes the claim.
/// Asks for a notice about each that has expired.
fn search(
    env: &mut Env,
    subject: &Address,
    ids: &Vec<Text>,
    claim_type: &Text,
    issuer: &Option<Address>,
) -> (r: Option<(usize, Attestation)>)
    requires
        ids.deep_view() == old(env)@.subject_ids(*subject),
    ensures
        ({
            let claim = Claim { claim_type: claim_type@, issuer: *issuer };
            let found = old(env)@.first_proof(ids.deep_view(), claim);
            &&& final(env)@ == old(env)@.searched(*subject, claim)
            &&& final(env)@ == (EnvView { effects: final(env)@.effects, ..old(env)@ })
            &&& match r {
                Some((i, a)) => {
                    &&& found == i < ids.len()
                    &&& a@ == old(env)@.attestations[ids.deep_view()[found]]
                },
                None => found == ids.len(),
            }
        }),
{
    let ghost before = env@;
    let ghost all = ids.deep_view();
    let ghost claim = Claim { claim_type: claim_type@, issuer: *issuer };
    proof {
        lemma_first_proof(before, all, claim);
    }
    let now = env.timestamp;
    let mut i: usize = 0;
    while i < ids.len()
        invariant
            i <= ids.len(),
            before == old(env)@,
            all == ids.deep_view(),
            all == before.subject_ids(*subject),
            claim == (Claim { claim_type: claim_type@, issuer: *issuer }),
            now == before.timestamp,
            0 <= before.first_proof(all, claim) <= all.len(),
            before.first_proof(all, claim) < all.len() ==> before.proves(
                all[before.first_proof(all, claim)],
                claim,
            ),
            forall|j: int|
                0 <= j < before.first_proof(all, claim) ==> !before.proves(
                    #[trigger] all[j],
                    claim,
                ),
            i <= before.first_proof(all, claim),
            env@ == before.noticed(*subject, all.take(i as int), claim),
            env@ == (EnvView { effects: env@.effects, ..before }),
        decreases ids.len() - i,
    {
        assert(all[i as int] == ids[i as int]@);
        assert(all.take(i + 1).drop_last() =~= all.take(i as int));
        assert(all.take(i + 1).last() == all[i as int]);
        if let Ok(attestation) = Storage::get_attestation(env, &ids[i]) {
            let wanted = match issuer {
                Some(address) => attestation.issuer == *address,
                None => true,
            };
            if !attestation.deleted && attestation.claim_type.same(claim_type) && wanted {
                match attestation.get_status(now) {
                    AttestationStatus::Valid => {
                        assert(before.proves(all[i as int], claim));
                        return Some((i, attestation));
                    },
                    AttestationStatus::Expired => {
                        env.publish(
                            Event::AttestationExpired {
                                attestation_id: ids[i].clone(),
                                subject: *subject,
                            },
                        );
                    },
                    AttestationStatus::Revoked | AttestationStatus::Pending => {},
                }
            }
        }
        i += 1;
    }
    None
}

/// Tells the hook of `subject` that an attestation is about to expire, where there is one and it
/// is time.
pub fn maybe_trigger_expiration_hook(
    env: &mut Env,
    subject: &Address,
    attestation_id: &Text,
    expiration: u64,
    current_time: u64,
)
    ensures
        final(env)@ == old(env)@.hook_told(*subject, attestation_id@, expiration, current_time),
{
    let hook = match Storage::get_expiration_hook(env, subject) {
        Some(hook) => hook,
        None => {
            return;
        },
    };
    let notify_window = hook.notify_days_before as u64 * SECS_PER_DAY;
    let notify_from = expiration.saturating_sub(notify_window);
    if current_time >= notify_from && current_time < expiration {
        env.publish(
            Event::ExpirationHookTriggered {
                subject: *subject,
                attestation_id: attestation_id.clone(),
                expiration,
            },
        );
        env.ask(
            Effect::NotifyExpiring {
                callback_contract: hook.callback_contract,
                subject: *subject,
                attestation_id: attestation_id.clone(),
                expiration,
            },
        );
    }
}

impl TrustLinkContract {
    /// Whether `subject` holds the claim `claim_type`. Asks for a notice about each expired
    /// attestation that the search meets, and about one in force that is about to expire.
    pub fn has_valid_claim(env: &mut Env, subject: Address, claim_type: Text) -> (r: bool)
        ensures
            r == old(env)@.holds(subject, claim_of(claim_type@)),
            final(env)@ == old(env)@.claim_checked(subject, claim_of(claim_type@)),
    {
        let ids = Storage::get_subject_attestations(env, &subject);
        let now = env.timestamp;
        proof {
            lemma_first_proof(env@, ids.deep_view(), claim_of(claim_type@));
        }
        match search(env, &subject, &ids, &claim_type, &None) {
            Some((i, attestation)) => {
                if let Some(expiration) = attestation.expiration {
                    maybe_trigger_expiration_hook(
                        env,
                        &subject,
                        &ids[i],
                        expiration,
                        now,
                    );
                }
                true
            },
            None => false,
        }
    }

    /// Whether `subject` holds the claim `claim_type`, made by `issuer`. Asks for a notice about
    /// each expired attestation that the search meets.
    pub fn has_valid_claim_from_issuer(
        env: &mut Env,
        subject: Address,
        claim_type: Text,
        issuer: Address,
    ) -> (r: bool)
        ensures
            ({
                let claim = Claim { claim_type: claim_type@, issuer: Some(issuer) };
                &&& r == old(env)@.holds(subject, claim)
                &&& final(env)@ == old(env)@.searched(subject, claim)
            }),
    {
        let ids = Storage::get_subject_attestations(env, &subject);
        proof {
            lemma_first_proof(
                env@,
                ids.deep_view(),
                Claim { claim_type: claim_type@, issuer: Some(issuer) },
            );
        }
        search(env, &subject, &ids, &claim_type, &Some(issuer)).is_some()
    }

    /// Whether `subject` holds the claim `claim_type`, made by an issuer that has at least the
    /// tier `min_tier`.
    pub fn has_valid_claim_from_tier(
        env: &Env,
        subject: Address,
        claim_type: Text,
        min_tier: IssuerTier,
    ) -> (r: bool)
        ensures
            r == exists|i: int|
                0 <= i < env@.subject_ids(subject).len() && env@.proves_at_tier(
                    #[trigger] env@.subject_ids(subject)[i],
                    claim_of(claim_type@),
                    min_tier,
                ),
    {
        let ids = Storage::get_subject_attestations(env, &subject);
        let ghost all = env@.subject_ids(subject);
        let mut i: usize = 0;
        while i < ids.len()
            invariant
                i <= ids.len(),
                all == ids.deep_view(),
                all == env@.subject_ids(subject),
                forall|j: int|
                    0 <= j < i ==> !env@.proves_at_tier(
                        #[trigger] all[j],
                        claim_of(claim_type@),
                        min_tier,
                    ),
            decreases ids.len() - i,
        {
            assert(all[i as int] == ids[i as int]@);
            if check_proof(env, &ids[i], &claim_type) {
                if let Ok(attestation) = Storage::get_attestation(env, &ids[i]) {
                    if let Some(tier) = Storage::get_issuer_tier(env, &attestation.issuer) {
                        if tier.rank() >= min_tier.rank() {
                            return true;
                        }
                    }
                }
            }
            i += 1;
        }
        false
    }

    /// Whether `subject` holds one of the claims.
    pub fn has_any_claim(env: &Env, subject: Address, claim_types: Vec<Text>) -> (r: bool)
        ensures
            r == exists|i: int|
                0 <= i < claim_types.len() && env@.holds(
                    subject,
                    claim_of(#[trigger] claim_types.deep_view()[i]),
                ),
    {
        let ids = Storage::get_subject_attestations(env, &subject);
        let ghost wanted = claim_types.deep_view();
        let mut i: usize = 0;
        while i < claim_types.len()
            invariant
                i <= claim_types.len(),
                wanted == claim_types.deep_view(),
                ids.deep_view() == env@.subject_ids(subject),
                forall|j: int|
                    0 <= j < i ==> !env@.holds(subject, claim_of(#[trigger] wanted[j])),
            decreases claim_types.len() - i,
        {
            assert(wanted[i as int] == claim_types[i as int]@);
            if check_proofs(env, &ids, &claim_types[i]) {
                return true;
            }
            i += 1;
        }
        false
    }

    /// Whether `subject` holds all the claims.
    pub fn has_all_claims(env: &Env, subject: Address, claim_types: Vec<Text>) -> (r: bool)
        ensures
            r == forall|i: int|
                0 <= i < claim_types.len() ==> env@.holds(
                    subject,
                    claim_of(#[trigger] claim_types.deep_view()[i]),
                ),
    {
        let ids = Storage::get_subject_attestations(env, &subject);
        let ghost wanted = claim_types.deep_view();
        let mut i: usize = 0;
        while i < claim_types.len()
            invariant
                i <= claim_types.len(),
                wanted == claim_types.deep_view(),
                ids.deep_view() == env@.subject_ids(subject),
                forall|j: int|
                    0 <= j < i ==> env@.holds(subject, claim_of(#[trigger] wanted[j])),
            decreases claim_types.len() - i,
        {
            assert(wanted[i as int] == claim_types[i as int]@);
            if !check_proofs(env, &ids, &claim_types[i]) {
                return false;
            }
            i += 1;
        }
        true
    }

    /// The attestation `attestation_id`. Fails with [`Error::NotFound`] where there is none, or
    /// its subject has had it erased.
    pub fn get_attestation(env: &Env, attestation_id: Text) -> (r: Result<Attestation, Error>)
        ensures
            refusal(r) == unless(env@.visible(attestation_id@), Error::NotFound),
            r is Ok ==> r->Ok_0@ == env@.attestations[attestation_id@],
    {
        let attestation = Storage::get_attestation(env, &attestation_id)?;
        if attestation.deleted {
            return Err(Error::NotFound);
        }
        Ok(attestation)
    }

    /// What the attestation `attestation_id` is worth now. Fails with [`Error::NotFound`] where
    /// there is none, or its subject has had it erased. Asks for a notice if it has expired.
    pub fn get_attestation_status(env: &mut Env, attestation_id: Text) -> (r: Result<
        AttestationStatus,
        Error,
    >)
        ensures
            refusal(r) == unless(old(env)@.visible(attestation_id@), Error::NotFound),
            r is Ok ==> r->Ok_0 == old(env)@.status_of(attestation_id@),
            final(env)@ == old(env)@.status_checked(attestation_id@),
    {
        let attestation = Storage::get_attestation(env, &attestation_id)?;
        if attestation.deleted {
            return Err(Error::NotFound);
        }
        let status = attestation.get_status(env.timestamp);
        if status == AttestationStatus::Expired {
            env.publish(
                Event::AttestationExpired { attestation_id, subject: attestation.subject },
            );
        }
        Ok(status)
    }

    /// The audit log of the attestation `attestation_id`, oldest entry first.
    pub fn get_audit_log(env: &Env, attestation_id: Text) -> (r: Vec<AuditEntry>)
        ensures
            r.deep_view() == env@.audit_log(attestation_id@),
    {
        Storage::get_audit_log(env, &attestation_id)
    }

    /// A page of the identifiers of the attestations about `subject`, oldest first.
    pub fn get_subject_attestations(env: &Env, subject: Address, start: u32, limit: u32) -> (r: Vec<
        Text,
    >)
        ensures
            r.deep_view() == page(
                env@.subject_ids(subject).filter(env@.shown(anything())),
                start,
                limit,
            ),
    {
        let ids = Storage::get_subject_attestations(env, &subject);
        let filtered = select(env, &ids, &Filter::Any);
        paginate(&filtered, start, limit)
    }

    /// A page of the identifiers of the attestations of `issuer`, oldest first.
    pub fn get_issuer_attestations(env: &Env, issuer: Address, start: u32, limit: u32) -> (r: Vec<
        Text,
    >)
        ensures
            r.deep_view() == page(
                env@.issuer_ids(issuer).filter(env@.shown(anything())),
                start,
                limit,
            ),
    {
        let ids = Storage::get_issuer_attestations(env, &issuer);
        let filtered = select(env, &ids, &Filter::Any);
        paginate(&filtered, start, limit)
    }

    /// A page of the attestations about `subject` that were made between two times, both
    /// included.
    pub fn get_attestations_in_range(
        env: &Env,
        subject: Address,
        from_ts: u64,
        to_ts: u64,
        start: u32,
        limit: u32,
    ) -> (r: Vec<Attestation>)
        ensures
            r.deep_view() == env@.records(
                page(
                    env@.subject_ids(subject).filter(env@.shown(made_between(from_ts, to_ts))),
                    start,
                    limit,
                ),
            ),
    {
        let ids = Storage::get_subject_attestations(env, &subject);
        let filtered = select(env, &ids, &Filter::Made { from_ts, to_ts });
        let listed = paginate(&filtered, start, limit);
        let ghost all = listed.deep_view();
        proof {
            broadcast use Seq::lemma_filter_pred;

            let pred = env@.shown(made_between(from_ts, to_ts));
            let passed = env@.subject_ids(subject).filter(pred);
            assert forall|i: int| 0 <= i < all.len() implies env@.attestations.contains_key(
                #[trigger] all[i],
            ) by {
                assert(all[i] == passed[start + i]);
                assert(pred(passed[start + i]));
            }
        }
        let mut result: Vec<Attestation> = Vec::new();
        let mut i: usize = 0;
        assert(result.deep_view() =~= env@.records(all.take(0)));
        while i < listed.len()
            invariant
                i <= listed.len(),
                all == listed.deep_view(),
                forall|j: int|
                    0 <= j < all.len() ==> env@.attestations.contains_key(#[trigger] all[j]),
                result.deep_view() == env@.records(all.take(i as int)),
            decreases listed.len() - i,
        {
            assert(all[i as int] == listed[i as int]@);
            assert(env@.records(all.take(i + 1)) =~= env@.records(all.take(i as int)).push(
                env@.attestations[all[i as int]],
            ));
            if let Ok(attestation) = Storage::get_attestation(env, &listed[i]) {
                push(&mut result, attestation);
            }
            i += 1;
        }
        assert(all.take(i as int) =~= all);
        result
    }

    /// The identifiers of the attestations about `subject` that have the tag, oldest first.
    pub fn get_attestations_by_tag(env: &Env, subject: Address, tag: Text) -> (r: Vec<Text>)
        ensures
            r.deep_view() == env@.subject_ids(subject).filter(env@.shown(tagged(tag@))),
    {
        let ids = Storage::get_subject_attestations(env, &subject);
        select(env, &ids, &Filter::Tagged(tag))
    }

    /// The identifiers of the attestations about `subject` that are tied to the country, oldest
    /// first.
    pub fn get_attestations_by_jurisdiction(
        env: &Env,
        subject: Address,
        jurisdiction: Text,
    ) -> (r: Vec<Text>)
        ensures
            r.deep_view() == env@.subject_ids(subject).filter(
                env@.shown(placed_in(jurisdiction@)),
            ),
    {
        let ids = Storage::get_subject_attestations(env, &subject);
        select(env, &ids, &Filter::Placed(jurisdiction))
    }

    /// The claims that `subject` holds, each once.
    pub fn get_valid_claims(env: &Env, subject: Address) -> (r: Vec<Text>)
        ensures
            r.deep_view() == env@.valid_claims(env@.subject_ids(subject)),
    {
        let ids = Storage::get_subject_attestations(env, &subject);
        let ghost all = ids.deep_view();
        let mut result: Vec<Text> = Vec::new();
        let mut i: usize = 0;
        assert(result.deep_view() =~= env@.valid_claims(all.take(0)));
        while i < ids.len()
            invariant
                i <= ids.len(),
                all == ids.deep_view(),
                result.deep_view() == env@.valid_claims(all.take(i as int)),
            decreases ids.len() - i,
        {
            assert(all[i as int] == ids[i as int]@);
            assert(all.take(i + 1).drop_last() =~= all.take(i as int));
            assert(all.take(i + 1).last() == all[i as int]);
            if let Ok(attestation) = Storage::get_attestation(env, &ids[i]) {
                if !attestation.deleted && attestation.get_status(env.timestamp)
                    == AttestationStatus::Valid && !has_text(&result, &attestation.claim_type) {
                    push(&mut result, attestation.claim_type);
                }
            }
            i += 1;
        }
        assert(all.take(i as int) =~= all);
        result
    }

    /// The latest attestation that makes the claim `claim_type` about `subject`, if any.
    pub fn get_attestation_by_type(env: &Env, subject: Address, claim_type: Text) -> (r: Option<
        Attestation,
    >)
        ensures
            r.deep_view() == env@.latest_proof(
                env@.subject_ids(subject),
                claim_of(claim_type@),
            ),
    {
        let ids = Storage::get_subject_attestations(env, &subject);
        let ghost all = ids.deep_view();
        let ghost claim = claim_of(claim_type@);
        let mut index: usize = ids.len();
        assert(all.take(index as int) =~= all);
        while index > 0
            invariant
                index <= ids.len(),
                all == ids.deep_view(),
                all == env@.subject_ids(subject),
                claim == claim_of(claim_type@),
                env@.latest_proof(all, claim) == env@.latest_proof(
                    all.take(index as int),
                    claim,
                ),
            decreases index,
        {
            assert(all.take(index as int).drop_last() =~= all.take(index - 1));
            assert(all.take(index as int).last() == all[index - 1]);
            index -= 1;
            assert(all[index as int] == ids[index as int]@);
            match Storage::get_attestation(env, &ids[index]) {
                Ok(attestation) => {
                    if !attestation.deleted && attestation.claim_type.same(&claim_type)
                        && attestation.get_status(env.timestamp) == AttestationStatus::Valid {
                        return Some(attestation);
                    }
                },
                Err(_) => {
                    return None;
                },
            }
        }
        None
    }
}

} // verus!

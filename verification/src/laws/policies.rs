//! What issuance has to keep to: limits, spacing, whitelists and fees; and what
//! is counted and kept alive.

use crate::address::Address;
use crate::env::EnvView;
use crate::events::{EffectView, EventView};
use crate::ident::attestation_id;
use crate::issuance::{native_record, Draft};
use crate::laws::scope::lemma_batch_scope;
use crate::list::lemma_push;
use crate::storage::{saturated, StorageKeyView};
use crate::types::Error;
use vstd::prelude::*;

verus! {

/// An attestation that was created leaves its issuer and its subject within their limits. A limit
/// of the largest number that a counter can show is no limit for an issuer.
pub proof fn creation_stays_within_limits(s: EnvView, draft: Draft)
    requires
        s.create_error(draft) is None,
    ensures
        ({
            let t = s.created(draft);
            let limits = s.limits_in_force();
            &&& t.subject_ids(draft.subject).len() <= limits.max_attestations_per_subject
            &&& limits.max_attestations_per_issuer < u32::MAX ==> t.issuer_ids(draft.issuer).len()
                <= limits.max_attestations_per_issuer
        }),
{
}

/// What a batch adds to the indexes: for the issuer all its identifiers, in order, and for each
/// subject its own.
pub proof fn batches_are_indexed(
    s: EnvView,
    issuer: Address,
    subjects: Seq<Address>,
    claim_type: Seq<u8>,
    expiration: Option<u64>,
)
    requires
        s.batch_items_error(issuer, subjects, claim_type) is None,
    ensures
        ({
            let t = s.batch_created(issuer, subjects, claim_type, expiration);
            &&& t.issuer_ids(issuer) == s.issuer_ids(issuer) + s.batch_ids(
                issuer,
                subjects,
                claim_type,
            )
            &&& forall|subject: Address| #[trigger]
                t.subject_ids(subject) == if subjects.contains(subject) {
                    s.subject_ids(subject).push(
                        attestation_id(issuer, subject, claim_type, s.timestamp),
                    )
                } else {
                    s.subject_ids(subject)
                }
        }),
    decreases subjects.len(),
{
    let items = s.batch_items(issuer, subjects, claim_type, expiration);
    let t = s.batch_created(issuer, subjects, claim_type, expiration);
    if subjects.len() > 0 {
        let earlier = subjects.drop_last();
        let last = subjects.last();
        let before = s.batch_items(issuer, earlier, claim_type, expiration);
        let id = attestation_id(issuer, last, claim_type, s.timestamp);
        let ids = s.batch_ids(issuer, earlier, claim_type);
        batches_are_indexed(s, issuer, earlier, claim_type, expiration);
        lemma_batch_scope(s, issuer, earlier, claim_type, expiration);
        assert(!earlier.contains(last)) by {
            if earlier.contains(last) {
                let i = choose|i: int| 0 <= i < earlier.len() && earlier[i] == last;
                assert(ids[i] == id);
            }
        }
        assert(subjects =~= earlier.push(last));
        assert(s.batch_ids(issuer, subjects, claim_type) =~= ids.push(id));
        let shorter = s.batch_created(issuer, earlier, claim_type, expiration);
        assert(shorter.issuer_ids(issuer) == before.issuer_ids(issuer));
        assert(t.issuer_ids(issuer) == before.issuer_ids(issuer).push(id));
        assert(t.issuer_ids(issuer) =~= s.issuer_ids(issuer) + ids.push(id));
        assert forall|subject: Address| #[trigger] t.subject_ids(subject) == if subjects.contains(
            subject,
        ) {
            s.subject_ids(subject).push(
                attestation_id(issuer, subject, claim_type, s.timestamp),
            )
        } else {
            s.subject_ids(subject)
        } by {
            lemma_push(earlier, last, subject);
            assert(shorter.subject_ids(subject) == before.subject_ids(subject));
        }
    } else {
        assert(s.batch_ids(issuer, subjects, claim_type) =~= Seq::empty());
        assert(t.issuer_ids(issuer) =~= s.issuer_ids(issuer) + Seq::<Seq<u8>>::empty());
        assert forall|subject: Address| #[trigger]
            t.subject_ids(subject) == s.subject_ids(subject) by {}
    }
}

proof fn lemma_batch_room(
    s: EnvView,
    issuer: Address,
    subjects: Seq<Address>,
    claim_type: Seq<u8>,
    i: int,
)
    requires
        s.batch_items_error(issuer, subjects, claim_type) is None,
        0 <= i < subjects.len(),
    ensures
        s.subject_limit_error(subjects[i]) is None,
    decreases subjects.len(),
{
    if i < subjects.len() - 1 {
        lemma_batch_room(s, issuer, subjects.drop_last(), claim_type, i);
    }
}

/// A batch leaves its issuer and its subjects within their limits.
pub proof fn batches_stay_within_limits(
    s: EnvView,
    issuer: Address,
    subjects: Seq<Address>,
    claim_type: Seq<u8>,
    expiration: Option<u64>,
)
    requires
        s.batch_error(issuer, subjects, claim_type, expiration) is None,
    ensures
        ({
            let t = s.batch_created(issuer, subjects, claim_type, expiration);
            let limits = s.limits_in_force();
            &&& forall|subject: Address|
                subjects.contains(subject) ==> (#[trigger] t.subject_ids(subject)).len()
                    <= limits.max_attestations_per_subject
            &&& limits.max_attestations_per_issuer < u32::MAX ==> t.issuer_ids(issuer).len()
                <= limits.max_attestations_per_issuer
        }),
{
    let t = s.batch_created(issuer, subjects, claim_type, expiration);
    batches_are_indexed(s, issuer, subjects, claim_type, expiration);
    assert forall|subject: Address| subjects.contains(subject) implies (#[trigger] t.subject_ids(
        subject,
    )).len() <= s.limits_in_force().max_attestations_per_subject by {
        let i = choose|i: int| 0 <= i < subjects.len() && subjects[i] == subject;
        lemma_batch_room(s, issuer, subjects, claim_type, i);
    }
}

/// Once an issuer has issued, it is refused for that reason until the interval that the rate limit
/// sets has passed, and no longer.
pub proof fn issuance_is_spaced(s: EnvView, draft: Draft, later: u64)
    requires
        s.create_error(draft) is None,
        s.rate_limit is Some,
        later >= s.timestamp,
    ensures
        ({
            let t = EnvView { timestamp: later, ..s.created(draft) };
            t.rate_error(draft.issuer) == if later < s.timestamp
                + s.rate_limit->0.min_issuance_interval {
                Some(Error::RateLimited)
            } else {
                None
            }
        }),
{
}

/// An issuer in whitelist mode cannot create attestations about subjects that are not on its
/// whitelist. Putting a subject on lifts that for it, taking it off restores it, and without the
/// mode the whitelist does not matter.
pub proof fn whitelists_bar_others(s: EnvView, draft: Draft)
    ensures
        ({
            let on = s.with_whitelist_mode(draft.issuer, true);
            let off = s.with_whitelist_mode(draft.issuer, false);
            let barred = Some(Error::SubjectNotWhitelisted);
            &&& s.whitelist_error(draft.issuer, draft.subject) is Some ==> s.create_error(
                draft,
            ) is Some
            &&& on.whitelist_extended(draft.issuer, draft.subject).whitelist_error(
                draft.issuer,
                draft.subject,
            ) is None
            &&& on.whitelist_reduced(draft.issuer, draft.subject).whitelist_error(
                draft.issuer,
                draft.subject,
            ) == barred
            &&& off.whitelist_error(draft.issuer, draft.subject) is None
        }),
{
}

/// Nobody attests anything about themselves.
pub proof fn nobody_attests_themselves(s: EnvView, draft: Draft)
    requires
        draft.issuer == draft.subject,
    ensures
        s.create_error(draft) is Some,
{
}

/// What the creation of an attestation asks for: the fee is transferred exactly once, from the
/// issuer to the collector, and not at all where there is none; observers are told before it and
/// after it.
pub proof fn the_fee_is_charged_once(s: EnvView, draft: Draft)
    requires
        s.create_error(draft) is None,
    ensures
        ({
            let config = s.fee_config->0;
            let told = EffectView::Publish(
                EventView::AttestationCreated(native_record(draft, s.timestamp)),
            );
            let fee = EffectView::Transfer {
                token: config.fee_token->0,
                from: draft.issuer,
                to: config.fee_collector,
                amount: config.attestation_fee,
            };
            s.created(draft).effects == if config.attestation_fee > 0 {
                s.effects.push(told).push(fee).push(told)
            } else {
                s.effects.push(told).push(told)
            }
        }),
{
}

/// An attestation that was created is counted, once for its issuer and once overall.
pub proof fn creation_is_counted(s: EnvView, draft: Draft)
    requires
        s.can_count(draft.issuer, 1),
    ensures
        ({
            let t = s.created(draft);
            &&& t.stats_of(draft.issuer).total_issued == s.stats_of(draft.issuer).total_issued + 1
            &&& t.global_stats.total_attestations == saturated(
                s.global_stats.total_attestations + 1,
            )
            &&& t.global_stats.total_revocations == s.global_stats.total_revocations
            &&& t.global_stats.total_issuers == s.global_stats.total_issuers
        }),
{
}

/// The attestations of a batch are counted, once each for their issuer and once each overall.
pub proof fn batches_are_counted(
    s: EnvView,
    issuer: Address,
    subjects: Seq<Address>,
    claim_type: Seq<u8>,
    expiration: Option<u64>,
)
    requires
        s.can_count(issuer, subjects.len()),
    ensures
        ({
            let t = s.batch_created(issuer, subjects, claim_type, expiration);
            &&& t.stats_of(issuer).total_issued == s.stats_of(issuer).total_issued + subjects.len()
            &&& t.global_stats.total_attestations == saturated(
                s.global_stats.total_attestations + subjects.len(),
            )
            &&& t.global_stats.total_revocations == s.global_stats.total_revocations
            &&& t.global_stats.total_issuers == s.global_stats.total_issuers
        }),
    decreases subjects.len(),
{
    if subjects.len() > 0 {
        let earlier = subjects.drop_last();
        batches_are_counted(s, issuer, earlier, claim_type, expiration);
        let before = s.batch_items(issuer, earlier, claim_type, expiration);
        let shorter = s.batch_created(issuer, earlier, claim_type, expiration);
        assert(shorter.global_stats == before.global_stats);
        assert(shorter.issuer_stats == before.issuer_stats);
    }
}

proof fn lemma_revocations_stats(
    s: EnvView,
    issuer: Address,
    ids: Seq<Seq<u8>>,
    reason: Option<Seq<u8>>,
)
    ensures
        s.revocations(issuer, ids, reason).global_stats == s.global_stats,
        s.revocations(issuer, ids, reason).issuer_stats == s.issuer_stats,
    decreases ids.len(),
{
    if ids.len() > 0 {
        lemma_revocations_stats(s, issuer, ids.drop_last(), reason);
    }
}

/// The revocations of a batch are counted, once each.
pub proof fn revocations_are_counted(
    s: EnvView,
    issuer: Address,
    ids: Seq<Seq<u8>>,
    reason: Option<Seq<u8>>,
)
    ensures
        ({
            let t = s.batch_revoked(issuer, ids, reason);
            &&& t.global_stats.total_revocations == saturated(
                s.global_stats.total_revocations + ids.len(),
            )
            &&& t.global_stats.total_attestations == s.global_stats.total_attestations
            &&& t.global_stats.total_issuers == s.global_stats.total_issuers
            &&& t.issuer_stats == s.issuer_stats
        }),
{
    lemma_revocations_stats(s, issuer, ids, reason);
}

/// Whether the entry `key` is kept alive for at least the lifetime in force.
pub open spec fn kept_alive(s: EnvView, t: EnvView, key: StorageKeyView) -> bool {
    t.lifetimes.contains_key(key) && t.lifetimes[key] >= s.lifetime()
}

/// Creating an attestation keeps everything alive that it writes: the record, both indexes, the
/// totals, the log, the time of issuance and the settings.
pub proof fn creation_keeps_alive(s: EnvView, draft: Draft)
    requires
        s.lifetime_fits(),
    ensures
        ({
            let t = s.created(draft);
            let a = native_record(draft, s.timestamp);
            &&& kept_alive(s, t, StorageKeyView::Attestation(a.id))
            &&& kept_alive(s, t, StorageKeyView::SubjectAttestations(a.subject))
            &&& kept_alive(s, t, StorageKeyView::IssuerAttestations(a.issuer))
            &&& kept_alive(s, t, StorageKeyView::IssuerStats(a.issuer))
            &&& kept_alive(s, t, StorageKeyView::AuditLog(a.id))
            &&& kept_alive(s, t, StorageKeyView::LastIssuance(a.issuer))
            &&& t.instance_ttl >= s.lifetime()
        }),
{
}

/// Revoking, renewing and erasing an attestation keeps its record alive, and what else they
/// write.
pub proof fn changes_keep_alive(
    s: EnvView,
    issuer: Address,
    id: Seq<u8>,
    reason: Option<Seq<u8>>,
    expiration: Option<u64>,
)
    requires
        s.lifetime_fits(),
        s.attestations[id].id == id,
    ensures
        ({
            let record = StorageKeyView::Attestation(id);
            let log = StorageKeyView::AuditLog(id);
            let subject = s.attestations[id].subject;
            let about = StorageKeyView::SubjectAttestations(subject);
            &&& kept_alive(s, s.revoked(issuer, id, reason), record)
            &&& kept_alive(s, s.revoked(issuer, id, reason), log)
            &&& kept_alive(s, s.revoked(issuer, id, reason), about)
            &&& kept_alive(
                s,
                s.revoked(issuer, id, reason),
                StorageKeyView::IssuerAttestations(issuer),
            )
            &&& kept_alive(s, s.renewed(issuer, id, expiration), record)
            &&& kept_alive(s, s.renewed(issuer, id, expiration), log)
            &&& kept_alive(s, s.deleted(subject, id), record)
            &&& kept_alive(s, s.deleted(subject, id), about)
        }),
{
}

} // verus!

//! What the answers to questions mean, in terms of the records.

use crate::address::Address;
use crate::env::EnvView;
use crate::events::{EffectView, EventView};
use crate::queries::{anything, claim_of, lemma_first_proof, made_between, placed_in, tagged, Claim};
use crate::types::{ExpirationHook, IssuerTier};
use vstd::prelude::*;

verus! {

/// Queries show a record that is there and has not been erased.
pub proof fn records_are_shown(s: EnvView, id: Seq<u8>)
    ensures
        s.visible(id) <==> s.attestations.contains_key(id) && !s.attestations[id].deleted,
        s.status_of(id) == s.attestations[id].status(s.timestamp),
{
}

/// An attestation proves a claim exactly if it is there and not erased, makes the claim, comes
/// from the issuer asked for, if one is, was not revoked, is valid already and has not expired.
pub proof fn what_proves_a_claim(s: EnvView, id: Seq<u8>, claim: Claim)
    ensures
        s.proves(id, claim) <==> {
            let a = s.attestations[id];
            &&& s.attestations.contains_key(id)
            &&& !a.deleted
            &&& a.claim_type == claim.claim_type
            &&& claim.issuer is None || claim.issuer == Some(a.issuer)
            &&& !a.revoked
            &&& a.valid_from is None || a.valid_from->0 <= s.timestamp
            &&& a.expiration is None || s.timestamp < a.expiration->0
        },
{
}

/// An attestation has proved a claim exactly if all this held but that it has expired.
pub proof fn what_proved_a_claim(s: EnvView, id: Seq<u8>, claim: Claim)
    ensures
        s.proved(id, claim) <==> {
            let a = s.attestations[id];
            &&& s.attestations.contains_key(id)
            &&& !a.deleted
            &&& a.claim_type == claim.claim_type
            &&& claim.issuer is None || claim.issuer == Some(a.issuer)
            &&& !a.revoked
            &&& a.valid_from is None || a.valid_from->0 <= s.timestamp
            &&& a.expiration is Some && a.expiration->0 <= s.timestamp
        },
{
}

/// A claim is held exactly if one of the attestations listed for the subject, at whatever place,
/// is there, makes it and is in force.
pub proof fn what_holding_a_claim_takes(s: EnvView, subject: Address, claim: Claim)
    ensures
        s.holds(subject, claim) <==> exists|i: int|
            0 <= i < s.subject_ids(subject).len() && {
                let id = #[trigger] s.subject_ids(subject)[i];
                let a = s.attestations[id];
                &&& s.attestations.contains_key(id)
                &&& !a.deleted
                &&& a.claim_type == claim.claim_type
                &&& claim.issuer is None || claim.issuer == Some(a.issuer)
                &&& !a.revoked
                &&& a.valid_from is None || a.valid_from->0 <= s.timestamp
                &&& a.expiration is None || s.timestamp < a.expiration->0
            },
{
    let ids = s.subject_ids(subject);
    assert forall|i: int| 0 <= i < ids.len() implies (s.proves(#[trigger] ids[i], claim) <==> {
        let a = s.attestations[ids[i]];
        &&& s.attestations.contains_key(ids[i])
        &&& !a.deleted
        &&& a.claim_type == claim.claim_type
        &&& claim.issuer is None || claim.issuer == Some(a.issuer)
        &&& !a.revoked
        &&& a.valid_from is None || a.valid_from->0 <= s.timestamp
        &&& a.expiration is None || s.timestamp < a.expiration->0
    }) by {
        what_proves_a_claim(s, ids[i], claim);
    }
}

/// Asking for a claim by its type alone, anybody may have made it.
pub proof fn claims_by_type_name_no_issuer(claim_type: Seq<u8>)
    ensures
        claim_of(claim_type).claim_type == claim_type,
        claim_of(claim_type).issuer is None,
{
}

/// An attestation proves a claim at a tier exactly if it proves it and its issuer is registered
/// and has a tier at least as high, in the order Basic, Verified, Premium: any tier will do for
/// Basic, only Verified and Premium for Verified, and only Premium for Premium.
pub proof fn what_proves_a_claim_at_a_tier(
    s: EnvView,
    id: Seq<u8>,
    claim: Claim,
    min_tier: IssuerTier,
)
    ensures
        s.proves_at_tier(id, claim, min_tier) <==> {
            let issuer = s.attestations[id].issuer;
            let tier = s.issuer_tiers[issuer];
            &&& s.proves(id, claim)
            &&& s.issuers.contains_key(issuer)
            &&& s.issuer_tiers.contains_key(issuer)
            &&& min_tier == IssuerTier::Verified ==> tier == IssuerTier::Verified || tier
                == IssuerTier::Premium
            &&& min_tier == IssuerTier::Premium ==> tier == IssuerTier::Premium
        },
{
}

/// Where a claim is held at a tier, some attestation in force about the subject makes it whose
/// issuer is registered and has at least that tier; and where there is such an attestation, the
/// claim is held at the tier. Those of Basic issuers count for no higher tier.
pub proof fn what_holding_a_claim_at_a_tier_takes(
    s: EnvView,
    subject: Address,
    claim_type: Seq<u8>,
    min_tier: IssuerTier,
)
    ensures
        (exists|i: int|
            0 <= i < s.subject_ids(subject).len() && s.proves_at_tier(
                #[trigger] s.subject_ids(subject)[i],
                claim_of(claim_type),
                min_tier,
            )) <==> exists|i: int|
            0 <= i < s.subject_ids(subject).len() && {
                let id = #[trigger] s.subject_ids(subject)[i];
                let a = s.attestations[id];
                let tier = s.issuer_tiers[a.issuer];
                &&& s.attestations.contains_key(id)
                &&& !a.deleted
                &&& a.claim_type == claim_type
                &&& !a.revoked
                &&& a.valid_from is None || a.valid_from->0 <= s.timestamp
                &&& a.expiration is None || s.timestamp < a.expiration->0
                &&& s.issuers.contains_key(a.issuer)
                &&& s.issuer_tiers.contains_key(a.issuer)
                &&& tier == IssuerTier::Basic ==> min_tier == IssuerTier::Basic
                &&& tier == IssuerTier::Verified ==> min_tier != IssuerTier::Premium
            },
{
    let ids = s.subject_ids(subject);
    assert forall|i: int| 0 <= i < ids.len() implies (s.proves_at_tier(
        #[trigger] ids[i],
        claim_of(claim_type),
        min_tier,
    ) <==> {
        let a = s.attestations[ids[i]];
        let tier = s.issuer_tiers[a.issuer];
        &&& s.attestations.contains_key(ids[i])
        &&& !a.deleted
        &&& a.claim_type == claim_type
        &&& !a.revoked
        &&& a.valid_from is None || a.valid_from->0 <= s.timestamp
        &&& a.expiration is None || s.timestamp < a.expiration->0
        &&& s.issuers.contains_key(a.issuer)
        &&& s.issuer_tiers.contains_key(a.issuer)
        &&& tier == IssuerTier::Basic ==> min_tier == IssuerTier::Basic
        &&& tier == IssuerTier::Verified ==> min_tier != IssuerTier::Premium
    }) by {
        what_proves_a_claim(s, ids[i], claim_of(claim_type));
        what_proves_a_claim_at_a_tier(s, ids[i], claim_of(claim_type), min_tier);
    }
}

/// Notices change nothing but what is asked for: one event for each of the attestations that made
/// the claim and have expired, in order, about the subject.
pub proof fn notices_are_about_the_expired(
    s: EnvView,
    subject: Address,
    ids: Seq<Seq<u8>>,
    claim: Claim,
)
    ensures
        s.noticed(subject, ids, claim) == (EnvView {
            effects: s.effects + ids.filter(|id: Seq<u8>| s.proved(id, claim)).map_values(
                |id: Seq<u8>|
                    EffectView::Publish(
                        EventView::AttestationExpired { attestation_id: id, subject },
                    ),
            ),
            ..s
        }),
    decreases ids.len(),
{
    reveal(Seq::filter);
    let expired = |id: Seq<u8>| s.proved(id, claim);
    let notice = |id: Seq<u8>|
        EffectView::Publish(EventView::AttestationExpired { attestation_id: id, subject });
    if ids.len() > 0 {
        notices_are_about_the_expired(s, subject, ids.drop_last(), claim);
        let before = ids.drop_last().filter(expired);
        if s.proved(ids.last(), claim) {
            assert(ids.filter(expired) == before.push(ids.last()));
            assert(before.push(ids.last()).map_values(notice) =~= before.map_values(notice).push(
                notice(ids.last()),
            ));
            assert(s.effects + before.map_values(notice).push(notice(ids.last())) =~= (s.effects
                + before.map_values(notice)).push(notice(ids.last())));
        }
    } else {
        assert(s.effects + ids.filter(expired).map_values(notice) =~= s.effects);
    }
}

/// A search stops at the first attestation that proves the claim, and goes through all where none
/// does; it gives notice of the expired ones it has passed.
pub proof fn searches_stop_at_the_first_proof(
    s: EnvView,
    subject: Address,
    claim: Claim,
    at: int,
)
    requires
        0 <= at <= s.subject_ids(subject).len(),
        forall|i: int| 0 <= i < at ==> !s.proves(#[trigger] s.subject_ids(subject)[i], claim),
        at < s.subject_ids(subject).len() ==> s.proves(s.subject_ids(subject)[at], claim),
    ensures
        s.first_proof(s.subject_ids(subject), claim) == at,
        s.searched(subject, claim) == s.noticed(subject, s.subject_ids(subject).take(at), claim),
{
    let ids = s.subject_ids(subject);
    lemma_first_proof(s, ids, claim);
    let found = s.first_proof(ids, claim);
    if found < at {
        assert(!s.proves(ids[found], claim));
    }
    if at < found {
        assert(!s.proves(ids[at], claim));
    }
}

/// A hook is to be told from as many days of 86400 seconds before the expiration as it says, up
/// to the expiration itself.
pub proof fn hooks_are_told_in_time(hook: ExpirationHook, expiration: u64, now: u64)
    ensures
        EnvView::within_notice(hook, expiration, now) <==> now < expiration && now + 86_400
            * hook.notify_days_before >= expiration,
{
}

/// Where the subject has a hook and it is time, observers and the hook are told, and nothing else
/// changes; otherwise nothing does.
pub proof fn what_telling_a_hook_does(
    s: EnvView,
    subject: Address,
    id: Seq<u8>,
    expiration: u64,
    now: u64,
)
    ensures
        ({
            let hook = s.expiration_hooks[subject];
            let due = s.expiration_hooks.contains_key(subject) && now < expiration && now + 86_400
                * hook.notify_days_before >= expiration;
            let t = s.hook_told(subject, id, expiration, now);
            &&& !due ==> t == s
            &&& due ==> t == (EnvView {
                effects: s.effects.push(
                    EffectView::Publish(
                        EventView::ExpirationHookTriggered {
                            subject,
                            attestation_id: id,
                            expiration,
                        },
                    ),
                ).push(
                    EffectView::NotifyExpiring {
                        callback_contract: hook.callback_contract,
                        subject,
                        attestation_id: id,
                        expiration,
                    },
                ),
                ..s
            })
        }),
{
    hooks_are_told_in_time(s.expiration_hooks[subject], expiration, now);
}

/// Asking whether a claim is held searches for it, and tells the hook of the subject about the
/// attestation that was found, if it expires; where none is found, nobody is told.
pub proof fn what_asking_for_a_claim_does(s: EnvView, subject: Address, claim: Claim, at: int)
    requires
        0 <= at <= s.subject_ids(subject).len(),
        forall|i: int| 0 <= i < at ==> !s.proves(#[trigger] s.subject_ids(subject)[i], claim),
        at < s.subject_ids(subject).len() ==> s.proves(s.subject_ids(subject)[at], claim),
    ensures
        ({
            let ids = s.subject_ids(subject);
            let a = s.attestations[ids[at]];
            let after = s.noticed(subject, ids.take(at), claim);
            &&& at == ids.len() ==> s.claim_checked(subject, claim) == after
            &&& at < ids.len() && a.expiration is None ==> s.claim_checked(subject, claim) == after
            &&& at < ids.len() && a.expiration is Some ==> s.claim_checked(subject, claim)
                == after.hook_told(subject, ids[at], a.expiration->0, s.timestamp)
        }),
{
    searches_stop_at_the_first_proof(s, subject, claim, at);
}

/// Asking what an attestation is worth gives notice if it has expired, and does nothing else.
pub proof fn what_asking_for_a_status_does(s: EnvView, id: Seq<u8>)
    ensures
        ({
            let a = s.attestations[id];
            let expired = {
                &&& s.attestations.contains_key(id)
                &&& !a.deleted
                &&& !a.revoked
                &&& a.valid_from is None || a.valid_from->0 <= s.timestamp
                &&& a.expiration is Some && a.expiration->0 <= s.timestamp
            };
            &&& !expired ==> s.status_checked(id) == s
            &&& expired ==> s.status_checked(id) == (EnvView {
                effects: s.effects.push(
                    EffectView::Publish(
                        EventView::AttestationExpired { attestation_id: id, subject: a.subject },
                    ),
                ),
                ..s
            })
        }),
{
}

/// What listings are narrowed down by: nothing; the times between which an attestation was made,
/// both included; a tag that it has, at whatever place; the country it is tied to. Erased records
/// and identifiers without one are never listed.
pub proof fn what_listings_show(
    s: EnvView,
    id: Seq<u8>,
    from_ts: u64,
    to_ts: u64,
    text: Seq<u8>,
)
    ensures
        ({
            let a = s.attestations[id];
            let there = s.attestations.contains_key(id) && !a.deleted;
            &&& s.shown(anything())(id) <==> there
            &&& s.shown(made_between(from_ts, to_ts))(id) <==> there && from_ts <= a.timestamp
                && a.timestamp <= to_ts
            &&& s.shown(tagged(text))(id) <==> there && a.tags is Some && exists|i: int|
                0 <= i < a.tags->0.len() && #[trigger] a.tags->0[i] == text
            &&& s.shown(placed_in(text))(id) <==> there && a.jurisdiction is Some
                && a.jurisdiction->0 == text
        }),
{
}

/// The records of a listing are those of its identifiers, in the same order.
pub proof fn listed_records_are_those_of_the_ledger(s: EnvView, ids: Seq<Seq<u8>>)
    ensures
        s.records(ids).len() == ids.len(),
        forall|i: int|
            0 <= i < ids.len() ==> #[trigger] s.records(ids)[i] == s.attestations[ids[i]],
{
}

/// The claims in force are listed in the order in which they come up: one more attestation adds
/// its claim type at the end if it is in force and its claim type is not listed yet, and nothing
/// otherwise.
pub proof fn valid_claims_come_in_order(s: EnvView, ids: Seq<Seq<u8>>, id: Seq<u8>)
    ensures
        s.valid_claims(Seq::empty()).len() == 0,
        ({
            let a = s.attestations[id];
            let listed = s.valid_claims(ids);
            let in_force = {
                &&& s.attestations.contains_key(id)
                &&& !a.deleted
                &&& !a.revoked
                &&& a.valid_from is None || a.valid_from->0 <= s.timestamp
                &&& a.expiration is None || s.timestamp < a.expiration->0
            };
            &&& in_force && !listed.contains(a.claim_type) ==> s.valid_claims(ids.push(id))
                == listed.push(a.claim_type)
            &&& !in_force || listed.contains(a.claim_type) ==> s.valid_claims(ids.push(id))
                == listed
        }),
{
    assert(ids.push(id).drop_last() =~= ids);
    what_proves_a_claim(s, id, claim_of(s.attestations[id].claim_type));
}

/// The latest attestation that proves a claim is the one after which none does. An identifier
/// without a record after it hides it.
pub proof fn the_latest_proof_is_the_last(
    s: EnvView,
    ids: Seq<Seq<u8>>,
    claim: Claim,
    at: int,
)
    requires
        -1 <= at < ids.len(),
        forall|i: int|
            at < i < ids.len() ==> s.attestations.contains_key(#[trigger] ids[i]) && !s.proves(
                ids[i],
                claim,
            ),
    ensures
        at == -1 ==> s.latest_proof(ids, claim) is None,
        at >= 0 && s.proves(ids[at], claim) ==> s.latest_proof(ids, claim) == Some(
            s.attestations[ids[at]],
        ),
        at >= 0 && !s.attestations.contains_key(ids[at]) ==> s.latest_proof(ids, claim) is None,
    decreases ids.len(),
{
    if at < ids.len() - 1 {
        let earlier = ids.drop_last();
        assert(ids.last() == ids[ids.len() - 1]);
        assert forall|i: int| at < i < earlier.len() implies s.attestations.contains_key(
            #[trigger] earlier[i],
        ) && !s.proves(earlier[i], claim) by {
            assert(earlier[i] == ids[i]);
        }
        if at >= 0 {
            assert(earlier[at] == ids[at]);
        }
        the_latest_proof_is_the_last(s, earlier, claim, at);
    } else if ids.len() > 0 {
        assert(ids.last() == ids[at]);
        assert(s.proves(ids[at], claim) ==> s.attestations.contains_key(ids[at]));
    }
}

} // verus!

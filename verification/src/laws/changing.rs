//! What revoking, erasing and renewing attestations do to the ledger.

use crate::address::Address;
use crate::env::EnvView;
use crate::events::{EffectView, EventView};
use crate::laws::scope::{lemma_revocations_scope, same_but_books};
use crate::list::without;
use crate::storage::StorageKeyView;
use crate::types::{AttestationView, AuditAction, AuditEntryView, Error, GlobalStats};
use vstd::prelude::*;

verus! {

/// An issuer can revoke exactly if writes are open, it is registered, the reason is in order, and
/// the attestation is there, its own and not revoked. Otherwise the first of these that fails is
/// the reason.
pub proof fn what_a_revocation_takes(
    s: EnvView,
    issuer: Address,
    id: Seq<u8>,
    reason: Option<Seq<u8>>,
)
    ensures
        ({
            let error = s.revoke_error(issuer, id, reason);
            let a0 = !s.paused;
            let a1 = a0 && s.issuers.contains_key(issuer);
            let a2 = a1 && (reason is None || reason->0.len() <= 128);
            let a3 = a2 && s.attestations.contains_key(id);
            let a4 = a3 && s.attestations[id].issuer == issuer;
            let a5 = a4 && !s.attestations[id].revoked;
            &&& a5 ==> error is None
            &&& !a0 ==> error == Some(Error::ContractPaused)
            &&& a0 && !a1 ==> error == Some(Error::Unauthorized)
            &&& a1 && !a2 ==> error == Some(Error::ReasonTooLong)
            &&& a2 && !a3 ==> error == Some(Error::NotFound)
            &&& a3 && !a4 ==> error == Some(Error::Unauthorized)
            &&& a4 && !a5 ==> error == Some(Error::AlreadyRevoked)
        }),
{
}

/// A revocation marks the record as revoked, with exactly the given reason, and leaves the rest
/// of it; takes the identifier out of the indexes of its subject and of the issuer; logs that the
/// issuer revoked it now, with the reason as details; counts it; and tells observers. Nothing else
/// changes.
pub proof fn what_a_revocation_does(
    s: EnvView,
    issuer: Address,
    id: Seq<u8>,
    reason: Option<Seq<u8>>,
)
    requires
        s.attestations[id].id == id,
    ensures
        ({
            let a = s.attestations[id];
            s.revoked(issuer, id, reason) == EnvView {
                attestations: s.attestations.insert(
                    id,
                    AttestationView { revoked: true, revocation_reason: reason, ..a },
                ),
                subject_attestations: s.subject_attestations.insert(
                    a.subject,
                    without(s.subject_ids(a.subject), id),
                ),
                issuer_attestations: s.issuer_attestations.insert(
                    issuer,
                    without(s.issuer_ids(issuer), id),
                ),
                audit_logs: s.audit_logs.insert(
                    id,
                    s.audit_log(id).push(
                        AuditEntryView {
                            action: AuditAction::Revoked,
                            actor: issuer,
                            timestamp: s.timestamp,
                            details: reason,
                        },
                    ),
                ),
                global_stats: GlobalStats {
                    total_revocations: if s.global_stats.total_revocations < u64::MAX {
                        (s.global_stats.total_revocations + 1) as u64
                    } else {
                        u64::MAX
                    },
                    ..s.global_stats
                },
                instance_ttl: s.extend_instance(s.lifetime()).instance_ttl,
                lifetimes: s.extend(StorageKeyView::Attestation(id), s.lifetime()).extend(
                    StorageKeyView::SubjectAttestations(a.subject),
                    s.lifetime(),
                ).extend(StorageKeyView::IssuerAttestations(issuer), s.lifetime()).extend(
                    StorageKeyView::AuditLog(id),
                    s.lifetime(),
                ).lifetimes,
                effects: s.effects.push(
                    EffectView::Publish(
                        EventView::AttestationRevoked { attestation_id: id, issuer, reason },
                    ),
                ),
                ..s
            }
        }),
{
}

/// The revocation of a batch is refused while writes are paused, to others than registered
/// issuers, for a reason that is too long and for more than fifty attestations, in this order.
pub proof fn when_revoking_a_batch_is_refused_as_a_whole(
    s: EnvView,
    issuer: Address,
    ids: Seq<Seq<u8>>,
    reason: Option<Seq<u8>>,
)
    ensures
        ({
            let error = s.revoke_batch_error(issuer, ids, reason);
            let a0 = !s.paused;
            let a1 = a0 && s.issuers.contains_key(issuer);
            let a2 = a1 && (reason is None || reason->0.len() <= 128);
            let a3 = a2 && ids.len() <= 50;
            &&& !a0 ==> error == Some(Error::ContractPaused)
            &&& a0 && !a1 ==> error == Some(Error::Unauthorized)
            &&& a1 && !a2 ==> error == Some(Error::ReasonTooLong)
            &&& a2 && !a3 ==> error == Some(Error::BatchTooLarge)
            &&& error is None ==> a3
        }),
{
}

proof fn lemma_items_in_order(s: EnvView, issuer: Address, ids: Seq<Seq<u8>>)
    ensures
        s.revoke_items_error(issuer, ids) is None <==> ids.no_duplicates() && forall|i: int|
            0 <= i < ids.len() ==> {
                &&& s.attestations.contains_key(#[trigger] ids[i])
                &&& s.attestations[ids[i]].issuer == issuer
                &&& !s.attestations[ids[i]].revoked
            },
    decreases ids.len(),
{
    if ids.len() > 0 {
        let earlier = ids.drop_last();
        let last = ids.last();
        lemma_items_in_order(s, issuer, earlier);
        assert(ids[ids.len() - 1] == last);
        assert(forall|i: int| 0 <= i < earlier.len() ==> #[trigger] earlier[i] == ids[i]);
        assert(forall|i: int| 0 <= i < earlier.len() ==> #[trigger] ids[i] == earlier[i]);
        if s.revoke_items_error(issuer, ids) is None {
            assert forall|i: int, j: int|
                0 <= i < ids.len() && 0 <= j < ids.len() && i != j implies ids[i] != ids[j] by {
                if i < earlier.len() && j < earlier.len() {
                    assert(earlier[i] != earlier[j]);
                } else if i < earlier.len() {
                    assert(earlier.contains(earlier[i]));
                } else {
                    assert(earlier.contains(earlier[j]));
                }
            }
        }
        if ids.no_duplicates() {
            assert(earlier.no_duplicates());
            if earlier.contains(last) {
                let i = choose|i: int| 0 <= i < earlier.len() && earlier[i] == last;
                assert(ids[i] == ids[ids.len() - 1]);
            }
        }
    }
}

proof fn lemma_items_error_at(s: EnvView, issuer: Address, ids: Seq<Seq<u8>>, at: int)
    requires
        0 <= at < ids.len(),
        s.revoke_items_error(issuer, ids.take(at + 1)) is Some,
    ensures
        s.revoke_items_error(issuer, ids) == s.revoke_items_error(issuer, ids.take(at + 1)),
    decreases ids.len(),
{
    if at + 1 == ids.len() {
        assert(ids.take(at + 1) =~= ids);
    } else {
        assert(ids.drop_last().take(at + 1) =~= ids.take(at + 1));
        lemma_items_error_at(s, issuer, ids.drop_last(), at);
    }
}

/// Where nothing speaks against the batch as a whole, it is revoked exactly if the attestations
/// are all different, all there, all the issuer's own and none of them revoked.
pub proof fn what_revoking_a_batch_takes(
    s: EnvView,
    issuer: Address,
    ids: Seq<Seq<u8>>,
    reason: Option<Seq<u8>>,
)
    requires
        !s.paused,
        s.issuers.contains_key(issuer),
        reason is None || reason->0.len() <= 128,
        ids.len() <= 50,
    ensures
        s.revoke_batch_error(issuer, ids, reason) is None <==> ids.no_duplicates() && forall|i: int|
            0 <= i < ids.len() ==> {
                &&& s.attestations.contains_key(#[trigger] ids[i])
                &&& s.attestations[ids[i]].issuer == issuer
                &&& !s.attestations[ids[i]].revoked
            },
{
    lemma_items_in_order(s, issuer, ids);
}

/// Where nothing speaks against the batch as a whole nor against the attestations before it, one
/// that is not there, is not the issuer's own, or is revoked or comes a second time has the batch
/// refused for that.
pub proof fn when_an_attestation_has_a_batch_refused(
    s: EnvView,
    issuer: Address,
    ids: Seq<Seq<u8>>,
    reason: Option<Seq<u8>>,
    at: int,
)
    requires
        !s.paused,
        s.issuers.contains_key(issuer),
        reason is None || reason->0.len() <= 128,
        ids.len() <= 50,
        0 <= at < ids.len(),
        ids.take(at).no_duplicates(),
        forall|i: int|
            0 <= i < at ==> {
                &&& s.attestations.contains_key(#[trigger] ids[i])
                &&& s.attestations[ids[i]].issuer == issuer
                &&& !s.attestations[ids[i]].revoked
            },
    ensures
        ({
            let error = s.revoke_batch_error(issuer, ids, reason);
            let there = s.attestations.contains_key(ids[at]);
            let own = s.attestations[ids[at]].issuer == issuer;
            let again = s.attestations[ids[at]].revoked || ids.take(at).contains(ids[at]);
            &&& !there ==> error == Some(Error::NotFound)
            &&& there && !own ==> error == Some(Error::Unauthorized)
            &&& there && own && again ==> error == Some(Error::AlreadyRevoked)
        }),
{
    let before = ids.take(at);
    let upto = ids.take(at + 1);
    assert(forall|i: int| 0 <= i < before.len() ==> #[trigger] before[i] == ids[i]);
    lemma_items_in_order(s, issuer, before);
    assert(upto.drop_last() =~= before);
    assert(upto.last() == ids[at]);
    if s.revoke_items_error(issuer, upto) is Some {
        lemma_items_error_at(s, issuer, ids, at);
    }
}

proof fn lemma_revoked_batch(
    s: EnvView,
    issuer: Address,
    ids: Seq<Seq<u8>>,
    reason: Option<Seq<u8>>,
    id: Seq<u8>,
)
    requires
        ids.no_duplicates(),
        forall|i: int|
            0 <= i < ids.len() ==> s.attestations.contains_key(#[trigger] ids[i])
                && s.attestations[ids[i]].id == ids[i],
    ensures
        ({
            let t = s.revocations(issuer, ids, reason);
            let a = s.attestations[id];
            &&& t.attestations.contains_key(id) == s.attestations.contains_key(id)
            &&& ids.contains(id) ==> {
                &&& t.attestations[id] == AttestationView {
                    revoked: true,
                    revocation_reason: reason,
                    ..a
                }
                &&& t.audit_log(id) == s.audit_log(id).push(
                    AuditEntryView {
                        action: AuditAction::Revoked,
                        actor: issuer,
                        timestamp: s.timestamp,
                        details: reason,
                    },
                )
            }
            &&& !ids.contains(id) ==> {
                &&& t.attestations[id] == a
                &&& t.audit_log(id) == s.audit_log(id)
            }
        }),
    decreases ids.len(),
{
    if ids.len() > 0 {
        let earlier = ids.drop_last();
        let last = ids.last();
        let before = s.revocations(issuer, earlier, reason);
        assert(forall|i: int| 0 <= i < earlier.len() ==> #[trigger] earlier[i] == ids[i]);
        assert(ids[ids.len() - 1] == last);
        assert(!earlier.contains(last)) by {
            if earlier.contains(last) {
                let i = choose|i: int| 0 <= i < earlier.len() && earlier[i] == last;
                assert(ids[i] == ids[ids.len() - 1]);
            }
        }
        lemma_revoked_batch(s, issuer, earlier, reason, id);
        lemma_revoked_batch(s, issuer, earlier, reason, last);
        lemma_revocations_scope(s, issuer, earlier, reason);
        assert(before.attestations[last] == s.attestations[last]);
        if ids.contains(id) && id != last {
            let i = choose|i: int| 0 <= i < ids.len() && ids[i] == id;
            assert(earlier[i] == id);
        }
        if earlier.contains(id) {
            let i = choose|i: int| 0 <= i < earlier.len() && earlier[i] == id;
            assert(ids[i] == id);
        }
    }
}

/// Where a batch is revoked, each of its attestations, at whatever place, is marked as revoked
/// with exactly the given reason and is otherwise as it was; the last entry of its log, and the
/// only new one, says that the issuer revoked it now, with the reason as details. Every other
/// record and log is left alone.
pub proof fn every_attestation_of_a_batch_is_revoked(
    s: EnvView,
    issuer: Address,
    ids: Seq<Seq<u8>>,
    reason: Option<Seq<u8>>,
)
    requires
        s.revoke_batch_error(issuer, ids, reason) is None,
        forall|i: int|
            0 <= i < ids.len() ==> s.attestations[#[trigger] ids[i]].id == ids[i],
    ensures
        ({
            let t = s.batch_revoked(issuer, ids, reason);
            &&& forall|i: int|
                0 <= i < ids.len() ==> {
                    let id = #[trigger] ids[i];
                    &&& t.attestations.contains_key(id)
                    &&& t.attestations[id] == AttestationView {
                        revoked: true,
                        revocation_reason: reason,
                        ..s.attestations[id]
                    }
                    &&& t.audit_log(id) == s.audit_log(id).push(
                        AuditEntryView {
                            action: AuditAction::Revoked,
                            actor: issuer,
                            timestamp: s.timestamp,
                            details: reason,
                        },
                    )
                }
            &&& forall|id: Seq<u8>|
                !ids.contains(id) ==> {
                    &&& #[trigger] t.attestations.contains_key(id) == s.attestations.contains_key(
                        id,
                    )
                    &&& t.attestations[id] == s.attestations[id]
                    &&& t.audit_log(id) == s.audit_log(id)
                }
        }),
{
    lemma_items_in_order(s, issuer, ids);
    let t = s.batch_revoked(issuer, ids, reason);
    assert forall|i: int| 0 <= i < ids.len() implies {
        let id = #[trigger] ids[i];
        &&& t.attestations.contains_key(id)
        &&& t.attestations[id] == AttestationView {
            revoked: true,
            revocation_reason: reason,
            ..s.attestations[id]
        }
        &&& t.audit_log(id) == s.audit_log(id).push(
            AuditEntryView {
                action: AuditAction::Revoked,
                actor: issuer,
                timestamp: s.timestamp,
                details: reason,
            },
        )
    } by {
        lemma_revoked_batch(s, issuer, ids, reason, ids[i]);
        assert(ids.contains(ids[i]));
    }
    assert forall|id: Seq<u8>| !ids.contains(id) implies {
        &&& #[trigger] t.attestations.contains_key(id) == s.attestations.contains_key(id)
        &&& t.attestations[id] == s.attestations[id]
        &&& t.audit_log(id) == s.audit_log(id)
    } by {
        lemma_revoked_batch(s, issuer, ids, reason, id);
    }
}

/// Revoking a batch with one more attestation is revoking the batch and then that one: with the
/// same reason, in the same indexes, logs and totals, and with the same events, in the same order.
/// Revoking nothing changes nothing.
pub proof fn batches_are_revoked_one_after_another(
    s: EnvView,
    issuer: Address,
    ids: Seq<Seq<u8>>,
    id: Seq<u8>,
    reason: Option<Seq<u8>>,
)
    ensures
        s.batch_revoked(issuer, ids.push(id), reason) == s.batch_revoked(
            issuer,
            ids,
            reason,
        ).revoked(issuer, id, reason),
        s.batch_revoked(issuer, Seq::empty(), reason) == (EnvView {
            instance_ttl: s.extend_instance(s.lifetime()).instance_ttl,
            ..s
        }),
{
    assert(ids.push(id).drop_last() =~= ids);
    lemma_revocations_scope(s, issuer, ids, reason);
}

/// Of the revocation of a batch, observers are told once per attestation, in order, with the
/// given reason; and nothing changes but records, indexes, logs, totals and lifetimes.
pub proof fn revocations_of_a_batch_are_told(
    s: EnvView,
    issuer: Address,
    ids: Seq<Seq<u8>>,
    reason: Option<Seq<u8>>,
)
    ensures
        ({
            let t = s.batch_revoked(issuer, ids, reason);
            &&& same_but_books(s, t)
            &&& t.effects == s.effects + ids.map_values(
                |id: Seq<u8>|
                    EffectView::Publish(
                        EventView::AttestationRevoked { attestation_id: id, issuer, reason },
                    ),
            )
        }),
    decreases ids.len(),
{
    let event = |id: Seq<u8>|
        EffectView::Publish(EventView::AttestationRevoked { attestation_id: id, issuer, reason });
    lemma_revocations_scope(s, issuer, ids, reason);
    if ids.len() > 0 {
        let earlier = ids.drop_last();
        revocations_of_a_batch_are_told(s, issuer, earlier, reason);
        assert(s.effects + ids.map_values(event) =~= (s.effects + earlier.map_values(event)).push(
            event(ids.last()),
        ));
    } else {
        assert(s.effects + ids.map_values(event) =~= s.effects);
    }
}

/// A subject can have an attestation erased exactly if writes are open and it is there and about
/// the subject, whoever made it and whatever has become of it.
pub proof fn what_an_erasure_takes(s: EnvView, subject: Address, id: Seq<u8>)
    ensures
        ({
            let error = s.deletion_error(subject, id);
            let there = s.attestations.contains_key(id);
            let own = s.attestations[id].subject == subject;
            &&& s.paused ==> error == Some(Error::ContractPaused)
            &&& !s.paused && !there ==> error == Some(Error::NotFound)
            &&& !s.paused && there && !own ==> error == Some(Error::Unauthorized)
            &&& !s.paused && there && own ==> error is None
        }),
{
}

/// An erasure marks the record as erased and leaves the rest of it, takes the identifier out of
/// the index of the subject, and tells observers. Nothing else changes.
pub proof fn what_an_erasure_does(s: EnvView, subject: Address, id: Seq<u8>)
    requires
        s.attestations[id].id == id,
    ensures
        s.deleted(subject, id) == (EnvView {
            attestations: s.attestations.insert(
                id,
                AttestationView { deleted: true, ..s.attestations[id] },
            ),
            subject_attestations: s.subject_attestations.insert(
                subject,
                without(s.subject_ids(subject), id),
            ),
            lifetimes: s.extend(StorageKeyView::Attestation(id), s.lifetime()).extend(
                StorageKeyView::SubjectAttestations(subject),
                s.lifetime(),
            ).lifetimes,
            effects: s.effects.push(
                EffectView::Publish(
                    EventView::DeletionRequested {
                        subject,
                        attestation_id: id,
                        timestamp: s.timestamp,
                    },
                ),
            ),
            ..s
        }),
{
}

/// An issuer can renew exactly if writes are open, it is registered, the expiration, if there is
/// one, lies ahead, and the attestation is there, its own and not revoked.
pub proof fn what_a_renewal_takes(
    s: EnvView,
    issuer: Address,
    id: Seq<u8>,
    expiration: Option<u64>,
)
    ensures
        ({
            let error = s.renew_error(issuer, id, expiration);
            let a0 = !s.paused;
            let a1 = a0 && s.issuers.contains_key(issuer);
            let a2 = a1 && (expiration is None || expiration->0 > s.timestamp);
            let a3 = a2 && s.attestations.contains_key(id);
            let a4 = a3 && s.attestations[id].issuer == issuer;
            let a5 = a4 && !s.attestations[id].revoked;
            &&& a5 ==> error is None
            &&& !a0 ==> error == Some(Error::ContractPaused)
            &&& a0 && !a1 ==> error == Some(Error::Unauthorized)
            &&& a1 && !a2 ==> error == Some(Error::InvalidExpiration)
            &&& a2 && !a3 ==> error == Some(Error::NotFound)
            &&& a3 && !a4 ==> error == Some(Error::Unauthorized)
            &&& a4 && !a5 ==> error == Some(Error::AlreadyRevoked)
        }),
{
}

/// A renewal sets the expiration of the record, or clears it, and leaves the rest of it; logs that
/// the issuer renewed it now; and tells observers. Nothing else changes.
pub proof fn what_a_renewal_does(
    s: EnvView,
    issuer: Address,
    id: Seq<u8>,
    expiration: Option<u64>,
)
    requires
        s.attestations[id].id == id,
    ensures
        s.renewed(issuer, id, expiration) == (EnvView {
            attestations: s.attestations.insert(
                id,
                AttestationView { expiration, ..s.attestations[id] },
            ),
            audit_logs: s.audit_logs.insert(
                id,
                s.audit_log(id).push(
                    AuditEntryView {
                        action: AuditAction::Renewed,
                        actor: issuer,
                        timestamp: s.timestamp,
                        details: None,
                    },
                ),
            ),
            lifetimes: s.extend(StorageKeyView::Attestation(id), s.lifetime()).extend(
                StorageKeyView::AuditLog(id),
                s.lifetime(),
            ).lifetimes,
            effects: s.effects.push(
                EffectView::Publish(
                    EventView::AttestationRenewed {
                        attestation_id: id,
                        issuer,
                        new_expiration: expiration,
                    },
                ),
            ),
            ..s
        }),
{
}

} // verus!

//! What becomes of attestations: revocation, renewal and erasure.

use crate::address::Address;
use crate::contract::TrustLinkContract;
use crate::env::{Env, EnvView};
use crate::events::{Event, EventView};
use crate::list::{copy_optional, has_text, push, without};
use crate::storage::Storage;
use crate::text::Text;
use crate::types::{Attestation, AttestationView, AuditAction, AuditEntry, AuditEntryView, Error};
use crate::validation::{
    expiration_error, first, reason_error, refusal, settled, unless, validate_native_expiration,
    validate_reason, Validation,
};
use vstd::prelude::*;

verus! {

/// How many attestations can be revoked in one batch.
pub const MAX_BATCH: u32 = 50;

/// The attestation once it has been revoked.
pub open spec fn revoked_record(a: AttestationView, reason: Option<Seq<u8>>) -> AttestationView {
    AttestationView { revoked: true, revocation_reason: reason, ..a }
}

/// The attestation once its subject has had it erased.
pub open spec fn deleted_record(a: AttestationView) -> AttestationView {
    AttestationView { deleted: true, ..a }
}

/// The attestation once its expiration has been set anew.
pub open spec fn renewed_record(a: AttestationView, expiration: Option<u64>) -> AttestationView {
    AttestationView { expiration, ..a }
}

impl EnvView {
    /// There is an attestation `id`.
    pub open spec fn missing_error(self, id: Seq<u8>) -> Option<Error> {
        unless(self.attestations.contains_key(id), Error::NotFound)
    }

    /// The attestation `id` is there, was made by `issuer` and has not been revoked.
    pub open spec fn own_error(self, issuer: Address, id: Seq<u8>) -> Option<Error> {
        first(
            self.missing_error(id),
            first(
                unless(self.attestations[id].issuer == issuer, Error::Unauthorized),
                unless(!self.attestations[id].revoked, Error::AlreadyRevoked),
            ),
        )
    }

    /// Revoking takes a registered issuer, while writes are not paused, a reason in order, and
    /// an attestation of the issuer's own that has not been revoked.
    pub open spec fn revoke_error(
        self,
        issuer: Address,
        id: Seq<u8>,
        reason: Option<Seq<u8>>,
    ) -> Option<Error> {
        first(
            self.pause_error(),
            first(
                self.issuer_error(issuer),
                first(reason_error(reason), self.own_error(issuer, id)),
            ),
        )
    }

    /// The ledger once the attestation `id` has been revoked. The record stays; the indexes no
    /// longer list it.
    pub open spec fn revocation(
        self,
        issuer: Address,
        id: Seq<u8>,
        reason: Option<Seq<u8>>,
    ) -> EnvView {
        let a = self.attestations[id];
        self.with_attestation(revoked_record(a, reason)).with_subject_ids(
            a.subject,
            without(self.subject_ids(a.subject), id),
        ).with_issuer_ids(issuer, without(self.issuer_ids(issuer), id)).publish(
            EventView::AttestationRevoked { attestation_id: id, issuer, reason },
        ).with_audit(
            id,
            AuditEntryView {
                action: AuditAction::Revoked,
                actor: issuer,
                timestamp: self.timestamp,
                details: reason,
            },
        )
    }

    /// The ledger once the attestation `id` has been revoked and the revocation counted.
    pub open spec fn revoked(
        self,
        issuer: Address,
        id: Seq<u8>,
        reason: Option<Seq<u8>>,
    ) -> EnvView {
        self.revocation(issuer, id, reason).count_revocations(1)
    }

    /// Each attestation of a batch has to be the issuer's own and not revoked, neither on the
    /// ledger nor earlier in the batch. Of several errors, the earliest counts.
    pub open spec fn revoke_items_error(self, issuer: Address, ids: Seq<Seq<u8>>) -> Option<Error>
        decreases ids.len(),
    {
        if ids.len() == 0 {
            None
        } else {
            first(
                self.revoke_items_error(issuer, ids.drop_last()),
                first(
                    self.own_error(issuer, ids.last()),
                    unless(!ids.drop_last().contains(ids.last()), Error::AlreadyRevoked),
                ),
            )
        }
    }

    /// Revoking a batch takes a registered issuer, while writes are not paused, a reason in
    /// order, a batch that is not too large, and then what each attestation takes.
    pub open spec fn revoke_batch_error(
        self,
        issuer: Address,
        ids: Seq<Seq<u8>>,
        reason: Option<Seq<u8>>,
    ) -> Option<Error> {
        first(
            self.pause_error(),
            first(
                self.issuer_error(issuer),
                first(
                    reason_error(reason),
                    first(
                        unless(ids.len() <= MAX_BATCH, Error::BatchTooLarge),
                        self.revoke_items_error(issuer, ids),
                    ),
                ),
            ),
        )
    }

    /// The ledger once all the attestations have been revoked, one after another.
    pub open spec fn revocations(
        self,
        issuer: Address,
        ids: Seq<Seq<u8>>,
        reason: Option<Seq<u8>>,
    ) -> EnvView
        decreases ids.len(),
    {
        if ids.len() == 0 {
            self
        } else {
            self.revocations(issuer, ids.drop_last(), reason).revocation(
                issuer,
                ids.last(),
                reason,
            )
        }
    }

    /// The ledger once a batch has been revoked and counted.
    pub open spec fn batch_revoked(
        self,
        issuer: Address,
        ids: Seq<Seq<u8>>,
        reason: Option<Seq<u8>>,
    ) -> EnvView {
        self.revocations(issuer, ids, reason).count_revocations(ids.len() as int)
    }

    /// Having an attestation erased takes its subject, while writes are not paused.
    pub open spec fn deletion_error(self, subject: Address, id: Seq<u8>) -> Option<Error> {
        first(
            self.pause_error(),
            first(
                self.missing_error(id),
                unless(self.attestations[id].subject == subject, Error::Unauthorized),
            ),
        )
    }

    /// The ledger once the attestation `id` has been erased: the record stays, marked, and the
    /// index of its subject no longer lists it.
    pub open spec fn deleted(self, subject: Address, id: Seq<u8>) -> EnvView {
        self.with_attestation(deleted_record(self.attestations[id])).with_subject_ids(
            subject,
            without(self.subject_ids(subject), id),
        ).publish(
            EventView::DeletionRequested {
                subject,
                attestation_id: id,
                timestamp: self.timestamp,
            },
        )
    }

    /// Renewing takes a registered issuer, while writes are not paused, an expiration in order,
    /// and an attestation of the issuer's own that has not been revoked.
    pub open spec fn renew_error(
        self,
        issuer: Address,
        id: Seq<u8>,
        expiration: Option<u64>,
    ) -> Option<Error> {
        first(
            self.pause_error(),
            first(
                self.issuer_error(issuer),
                first(
                    expiration_error(self.timestamp, expiration),
                    self.own_error(issuer, id),
                ),
            ),
        )
    }

    /// The ledger once the attestation `id` expires at `expiration`.
    pub open spec fn renewed(
        self,
        issuer: Address,
        id: Seq<u8>,
        expiration: Option<u64>,
    ) -> EnvView {
        self.with_attestation(renewed_record(self.attestations[id], expiration)).publish(
            EventView::AttestationRenewed {
                attestation_id: id,
                issuer,
                new_expiration: expiration,
            },
        ).with_audit(
            id,
            AuditEntryView {
                action: AuditAction::Renewed,
                actor: issuer,
                timestamp: self.timestamp,
                details: None,
            },
        )
    }
}

/// The attestation `id`, if it was made by `issuer` and has not been revoked.
fn load_own(env: &Env, issuer: &Address, id: &Text) -> (r: Result<Attestation, Error>)
    ensures
        refusal(r) == env@.own_error(*issuer, id@),
        r is Ok ==> r->Ok_0@ == env@.attestations[id@],
{
    let attestation = Storage::get_attestation(env, id)?;
    if attestation.issuer != *issuer {
        return Err(Error::Unauthorized);
    }
    if attestation.revoked {
        return Err(Error::AlreadyRevoked);
    }
    Ok(attestation)
}

/// Revokes the attestation `id`, without counting it.
fn write_revocation(
    env: &mut Env,
    issuer: &Address,
    id: &Text,
    mut attestation: Attestation,
    reason: &Option<Text>,
)
    requires
        old(env)@.lifetime_fits(),
        attestation@ == old(env)@.attestations[id@],
    ensures
        final(env)@ == old(env)@.revocation(*issuer, id@, reason.deep_view()),
{
    let ghost before = attestation@;
    attestation.revoked = true;
    attestation.revocation_reason = copy_optional(reason);
    assert(attestation@ =~= revoked_record(before, reason.deep_view()));
    Storage::set_attestation(env, &attestation);
    Storage::remove_subject_attestation(env, &attestation.subject, id);
    Storage::remove_issuer_attestation(env, issuer, id);
    env.publish(
        Event::AttestationRevoked {
            attestation_id: id.clone(),
            issuer: *issuer,
            reason: copy_optional(reason),
        },
    );
    let timestamp = env.timestamp;
    Storage::append_audit_entry(
        env,
        id,
        AuditEntry {
            action: AuditAction::Revoked,
            actor: *issuer,
            timestamp,
            details: copy_optional(reason),
        },
    );
}

/// An error at some attestation of a batch is the error of the batch.
proof fn lemma_revoke_error_stays(
    env: EnvView,
    issuer: Address,
    ids: Seq<Seq<u8>>,
    count: int,
)
    requires
        0 <= count <= ids.len(),
        env.revoke_items_error(issuer, ids.take(count)) is Some,
    ensures
        env.revoke_items_error(issuer, ids) == env.revoke_items_error(issuer, ids.take(count)),
    decreases ids.len(),
{
    if count == ids.len() {
        assert(ids.take(count) =~= ids);
    } else {
        assert(ids.drop_last().take(count) =~= ids.take(count));
        lemma_revoke_error_stays(env, issuer, ids.drop_last(), count);
    }
}

/// Whether all attestations of a batch can be revoked.
fn check_revocations(env: &Env, issuer: &Address, ids: &Vec<Text>) -> (r: Result<(), Error>)
    ensures
        refusal(r) == env@.revoke_items_error(*issuer, ids.deep_view()),
        r is Ok ==> forall|i: int|
            0 <= i < ids.len() ==> env@.attestations.contains_key(
                #[trigger] ids.deep_view()[i],
            ),
{
    let ghost all = ids.deep_view();
    let mut seen: Vec<Text> = Vec::new();
    let mut i: usize = 0;
    assert(seen.deep_view() =~= all.take(0));
    while i < ids.len()
        invariant
            i <= ids.len(),
            all == ids.deep_view(),
            seen.deep_view() == all.take(i as int),
            env@.revoke_items_error(*issuer, all.take(i as int)) is None,
            forall|j: int| 0 <= j < i ==> env@.attestations.contains_key(#[trigger] all[j]),
        decreases ids.len() - i,
    {
        proof {
            assert(all[i as int] == ids[i as int]@);
            assert(all.take(i + 1).drop_last() =~= all.take(i as int));
            assert(all.take(i + 1).last() == all[i as int]);
            assert(all.take(i + 1) =~= all.take(i as int).push(all[i as int]));
            if env@.revoke_items_error(*issuer, all.take(i + 1)) is Some {
                lemma_revoke_error_stays(env@, *issuer, all, i + 1);
            }
        }
        let _ = load_own(env, issuer, &ids[i])?;
        if has_text(&seen, &ids[i]) {
            return Err(Error::AlreadyRevoked);
        }
        push(&mut seen, ids[i].clone());
        i += 1;
    }
    assert(all.take(i as int) =~= all);
    Ok(())
}

/// Revokes the attestations, one after another, without counting them.
fn write_revocations(env: &mut Env, issuer: &Address, ids: &Vec<Text>, reason: &Option<Text>)
    requires
        old(env)@.lifetime_fits(),
        forall|i: int|
            0 <= i < ids.len() ==> old(env)@.attestations.contains_key(
                #[trigger] ids.deep_view()[i],
            ),
    ensures
        final(env)@ == old(env)@.revocations(*issuer, ids.deep_view(), reason.deep_view()),
        final(env)@.lifetime_fits(),
{
    let ghost before = env@;
    let ghost all = ids.deep_view();
    let mut i: usize = 0;
    while i < ids.len()
        invariant
            i <= ids.len(),
            all == ids.deep_view(),
            env@ == before.revocations(*issuer, all.take(i as int), reason.deep_view()),
            env@.lifetime_fits(),
            forall|j: int|
                0 <= j < ids.len() ==> env@.attestations.contains_key(#[trigger] all[j]),
        decreases ids.len() - i,
    {
        assert(all[i as int] == ids[i as int]@);
        assert(all.take(i + 1).drop_last() =~= all.take(i as int));
        assert(all.take(i + 1).last() == all[i as int]);
        if let Ok(attestation) = Storage::get_attestation(env, &ids[i]) {
            write_revocation(env, issuer, &ids[i], attestation, reason);
        }
        i += 1;
    }
    assert(all.take(i as int) =~= all);
}

impl TrustLinkContract {
    /// Revokes an attestation. Its record stays, but the indexes no longer list it.
    pub fn revoke_attestation(
        env: &mut Env,
        issuer: Address,
        attestation_id: Text,
        reason: Option<Text>,
    ) -> (r: Result<(), Error>)
        requires
            old(env)@.authorized(issuer),
            old(env)@.revoke_error(issuer, attestation_id@, reason.deep_view()) is None
                ==> old(env)@.lifetime_fits(),
        ensures
            refusal(r) == old(env)@.revoke_error(issuer, attestation_id@, reason.deep_view()),
            final(env)@ == settled(
                old(env)@.revoke_error(issuer, attestation_id@, reason.deep_view()),
                old(env)@.revoked(issuer, attestation_id@, reason.deep_view()),
                old(env)@,
            ),
    {
        Validation::require_not_paused(env)?;
        Validation::require_issuer(env, &issuer)?;
        validate_reason(&reason)?;
        let attestation = load_own(env, &issuer, &attestation_id)?;
        write_revocation(env, &issuer, &attestation_id, attestation, &reason);
        Storage::increment_total_revocations(env, 1);
        Ok(())
    }

    /// Revokes all the attestations, or none at all, and returns how many there were. A batch
    /// holds at most [`MAX_BATCH`].
    pub fn revoke_attestations_batch(
        env: &mut Env,
        issuer: Address,
        attestation_ids: Vec<Text>,
        reason: Option<Text>,
    ) -> (r: Result<u32, Error>)
        requires
            old(env)@.authorized(issuer),
            old(env)@.revoke_batch_error(
                issuer,
                attestation_ids.deep_view(),
                reason.deep_view(),
            ) is None ==> old(env)@.lifetime_fits(),
        ensures
            ({
                let ids = attestation_ids.deep_view();
                let error = old(env)@.revoke_batch_error(issuer, ids, reason.deep_view());
                &&& refusal(r) == error
                &&& r is Ok ==> r->Ok_0 == ids.len()
                &&& final(env)@ == settled(
                    error,
                    old(env)@.batch_revoked(issuer, ids, reason.deep_view()),
                    old(env)@,
                )
            }),
    {
        Validation::require_not_paused(env)?;
        Validation::require_issuer(env, &issuer)?;
        validate_reason(&reason)?;
        if attestation_ids.len() > MAX_BATCH as usize {
            return Err(Error::BatchTooLarge);
        }
        check_revocations(env, &issuer, &attestation_ids)?;
        write_revocations(env, &issuer, &attestation_ids, &reason);
        let count = attestation_ids.len() as u32;
        Storage::increment_total_revocations(env, count as u64);
        Ok(count)
    }

    /// Erases an attestation at the wish of its subject: no query shows it any more. The record
    /// itself is kept for audits.
    pub fn request_deletion(env: &mut Env, subject: Address, attestation_id: Text) -> (r: Result<
        (),
        Error,
    >)
        requires
            old(env)@.authorized(subject),
            old(env)@.deletion_error(subject, attestation_id@) is None
                ==> old(env)@.lifetime_fits(),
        ensures
            refusal(r) == old(env)@.deletion_error(subject, attestation_id@),
            final(env)@ == settled(
                old(env)@.deletion_error(subject, attestation_id@),
                old(env)@.deleted(subject, attestation_id@),
                old(env)@,
            ),
    {
        Validation::require_not_paused(env)?;
        let mut attestation = Storage::get_attestation(env, &attestation_id)?;
        if attestation.subject != subject {
            return Err(Error::Unauthorized);
        }
        let ghost before = attestation@;
        attestation.deleted = true;
        assert(attestation@ =~= deleted_record(before));
        Storage::set_attestation(env, &attestation);
        Storage::remove_subject_attestation(env, &subject, &attestation_id);
        let timestamp = env.timestamp;
        env.publish(Event::DeletionRequested { subject, attestation_id, timestamp });
        Ok(())
    }

    /// Sets the expiration of an attestation anew. Without one, the attestation no longer
    /// expires.
    pub fn renew_attestation(
        env: &mut Env,
        issuer: Address,
        attestation_id: Text,
        new_expiration: Option<u64>,
    ) -> (r: Result<(), Error>)
        requires
            old(env)@.authorized(issuer),
            old(env)@.renew_error(issuer, attestation_id@, new_expiration) is None
                ==> old(env)@.lifetime_fits(),
        ensures
            refusal(r) == old(env)@.renew_error(issuer, attestation_id@, new_expiration),
            final(env)@ == settled(
                old(env)@.renew_error(issuer, attestation_id@, new_expiration),
                old(env)@.renewed(issuer, attestation_id@, new_expiration),
                old(env)@,
            ),
    {
        Validation::require_not_paused(env)?;
        Validation::require_issuer(env, &issuer)?;
        validate_native_expiration(env, new_expiration)?;
        let mut attestation = load_own(env, &issuer, &attestation_id)?;
        let ghost before = attestation@;
        attestation.expiration = new_expiration;
        assert(attestation@ =~= renewed_record(before, new_expiration));
        Storage::set_attestation(env, &attestation);
        env.publish(
            Event::AttestationRenewed {
                attestation_id: attestation_id.clone(),
                issuer,
                new_expiration,
            },
        );
        let timestamp = env.timestamp;
        Storage::append_audit_entry(
            env,
            &attestation_id,
            AuditEntry { action: AuditAction::Renewed, actor: issuer, timestamp, details: None },
        );
        Ok(())
    }
}

} // verus!

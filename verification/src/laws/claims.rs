//! What is written can be read: who holds which claims.

use crate::address::Address;
use crate::books::requests_are_writes;
use crate::env::EnvView;
use crate::ident::bridge_id;
use crate::issuance::{bridged_record, created_entry, native_record, plain_record, Draft};
use crate::laws::indexes::{claims_are_held_by_the_records, requests_keep_the_books_sound};
use crate::lifecycle::{deleted_record, renewed_record, revoked_record};
use crate::list::lemma_push;
use crate::queries::{anything, claim_of, Claim};
use crate::requests::Request;
use crate::types::{AttestationOrigin, AttestationStatus, AttestationView, Error, IssuerTier};
use vstd::prelude::*;

verus! {

/// Whether the ledger `t` shows the attestation `a` as one that was just added to `s`.
pub open spec fn shows_new(s: EnvView, t: EnvView, a: AttestationView) -> bool {
    &&& t.visible(a.id)
    &&& t.attestations[a.id] == a
    &&& t.subject_ids(a.subject) == s.subject_ids(a.subject).push(a.id)
    &&& t.issuer_ids(a.issuer) == s.issuer_ids(a.issuer).push(a.id)
}

/// A subject holds a claim that the last attestation about it makes.
proof fn lemma_last_proves(t: EnvView, subject: Address, claim: Claim)
    requires
        t.subject_ids(subject).len() > 0,
        t.proves(t.subject_ids(subject).last(), claim),
    ensures
        t.holds(subject, claim),
{
    let ids = t.subject_ids(subject);
    assert(t.proves(ids[ids.len() - 1], claim));
}

/// An attestation that was created can be read at once, is listed last in both indexes and is in
/// force: its subject holds the claim, and holds it from the issuer.
pub proof fn created_attestations_read_back(s: EnvView, draft: Draft)
    requires
        s.create_error(draft) is None,
    ensures
        ({
            let t = s.created(draft);
            let a = native_record(draft, s.timestamp);
            &&& shows_new(s, t, a)
            &&& t.status_of(a.id) == AttestationStatus::Valid
            &&& t.holds(draft.subject, claim_of(draft.claim_type))
            &&& t.holds(
                draft.subject,
                Claim { claim_type: draft.claim_type, issuer: Some(draft.issuer) },
            )
            &&& t.audit_log(a.id) == s.audit_log(a.id).push(
                created_entry(draft.issuer, s.timestamp),
            )
        }),
{
    let t = s.created(draft);
    let a = native_record(draft, s.timestamp);
    assert(shows_new(s, t, a));
    assert(t.timestamp == s.timestamp);
    lemma_last_proves(t, draft.subject, claim_of(draft.claim_type));
    lemma_last_proves(
        t,
        draft.subject,
        Claim { claim_type: draft.claim_type, issuer: Some(draft.issuer) },
    );
}

/// An attestation that was imported can be read at once, and its subject holds the claim unless
/// it has expired.
pub proof fn imported_attestations_read_back(
    s: EnvView,
    admin: Address,
    issuer: Address,
    subject: Address,
    claim_type: Seq<u8>,
    timestamp: u64,
    expiration: Option<u64>,
)
    requires
        s.import_error(admin, issuer, subject, claim_type, timestamp, expiration) is None,
    ensures
        ({
            let t = s.imported(admin, issuer, subject, claim_type, timestamp, expiration);
            let a = plain_record(
                issuer,
                subject,
                claim_type,
                timestamp,
                expiration,
                AttestationOrigin::Imported,
            );
            &&& shows_new(s, t, a)
            &&& t.status_of(a.id) == if expiration is Some && s.timestamp >= expiration->0 {
                AttestationStatus::Expired
            } else {
                AttestationStatus::Valid
            }
            &&& t.status_of(a.id) == AttestationStatus::Valid ==> t.holds(
                subject,
                claim_of(claim_type),
            )
        }),
{
    let t = s.imported(admin, issuer, subject, claim_type, timestamp, expiration);
    let a = plain_record(
        issuer,
        subject,
        claim_type,
        timestamp,
        expiration,
        AttestationOrigin::Imported,
    );
    assert(shows_new(s, t, a));
    if t.status_of(a.id) == AttestationStatus::Valid {
        lemma_last_proves(t, subject, claim_of(claim_type));
    }
}

/// An attestation that was mirrored can be read at once, names its source, and its subject holds
/// the claim.
pub proof fn bridged_attestations_read_back(
    s: EnvView,
    bridge: Address,
    subject: Address,
    claim_type: Seq<u8>,
    source_chain: Seq<u8>,
    source_tx: Seq<u8>,
)
    requires
        s.bridging_error(
            bridge,
            bridge_id(bridge, subject, claim_type, source_chain, source_tx, s.timestamp),
        ) is None,
    ensures
        ({
            let t = s.bridged(bridge, subject, claim_type, source_chain, source_tx);
            let a = bridged_record(
                bridge,
                subject,
                claim_type,
                source_chain,
                source_tx,
                s.timestamp,
            );
            &&& shows_new(s, t, a)
            &&& t.status_of(a.id) == AttestationStatus::Valid
            &&& t.holds(subject, claim_of(claim_type))
            &&& a.source_chain == Some(source_chain)
            &&& a.source_tx == Some(source_tx)
        }),
{
    let t = s.bridged(bridge, subject, claim_type, source_chain, source_tx);
    let a = bridged_record(bridge, subject, claim_type, source_chain, source_tx, s.timestamp);
    assert(shows_new(s, t, a));
    lemma_last_proves(t, subject, claim_of(claim_type));
}

proof fn lemma_batch_records(
    s: EnvView,
    issuer: Address,
    subjects: Seq<Address>,
    claim_type: Seq<u8>,
    expiration: Option<u64>,
    i: int,
)
    requires
        s.books().admits_all(s.batch_writes(issuer, subjects, claim_type, expiration)),
        0 <= i < subjects.len(),
    ensures
        ({
            let a = plain_record(
                issuer,
                subjects[i],
                claim_type,
                s.timestamp,
                expiration,
                AttestationOrigin::Native,
            );
            let later = s.books().all_written(
                s.batch_writes(issuer, subjects, claim_type, expiration),
            );
            later.records.contains_key(a.id) && later.records[a.id] == a
        }),
    decreases subjects.len(),
{
    let writes = s.batch_writes(issuer, subjects, claim_type, expiration);
    assert(writes.drop_last() =~= s.batch_writes(
        issuer,
        subjects.drop_last(),
        claim_type,
        expiration,
    ));
    if i < subjects.len() - 1 {
        lemma_batch_records(s, issuer, subjects.drop_last(), claim_type, expiration, i);
    }
}

/// Every attestation of a batch can be read at once, and every subject of it holds the claim.
pub proof fn batches_read_back(
    s: EnvView,
    issuer: Address,
    subjects: Seq<Address>,
    claim_type: Seq<u8>,
    expiration: Option<u64>,
    i: int,
)
    requires
        s.books().sound(),
        s.batch_error(issuer, subjects, claim_type, expiration) is None,
        0 <= i < subjects.len(),
    ensures
        ({
            let t = s.batch_created(issuer, subjects, claim_type, expiration);
            let a = plain_record(
                issuer,
                subjects[i],
                claim_type,
                s.timestamp,
                expiration,
                AttestationOrigin::Native,
            );
            &&& a.id == s.batch_ids(issuer, subjects, claim_type)[i]
            &&& t.visible(a.id)
            &&& t.attestations[a.id] == a
            &&& t.status_of(a.id) == AttestationStatus::Valid
            &&& t.holds(subjects[i], claim_of(claim_type))
        }),
{
    let request = Request::CreateBatch { issuer, subjects, claim_type, expiration };
    let t = s.batch_created(issuer, subjects, claim_type, expiration);
    let a = plain_record(
        issuer,
        subjects[i],
        claim_type,
        s.timestamp,
        expiration,
        AttestationOrigin::Native,
    );
    reveal(Request::error);
    reveal(Request::after);
    assert(request.after(s) == t);
    requests_are_writes(s, request);
    requests_keep_the_books_sound(s, request);
    lemma_batch_records(s, issuer, subjects, claim_type, expiration, i);
    lemma_batch_time(s, issuer, subjects, claim_type, expiration);
    assert(t.books().records[a.id] == t.attestations[a.id]);
    assert(t.proves(a.id, claim_of(claim_type)));
    claims_are_held_by_the_records(t, subjects[i], claim_of(claim_type));
}

proof fn lemma_batch_time(
    s: EnvView,
    issuer: Address,
    subjects: Seq<Address>,
    claim_type: Seq<u8>,
    expiration: Option<u64>,
)
    ensures
        s.batch_items(issuer, subjects, claim_type, expiration).timestamp == s.timestamp,
    decreases subjects.len(),
{
    if subjects.len() > 0 {
        lemma_batch_time(s, issuer, subjects.drop_last(), claim_type, expiration);
    }
}

/// An attestation that was revoked is kept, says so and why, is on no index, proves nothing, and
/// can be neither revoked again nor renewed.
pub proof fn revoked_attestations_are_void(
    s: EnvView,
    issuer: Address,
    id: Seq<u8>,
    reason: Option<Seq<u8>>,
)
    requires
        s.books().sound(),
        s.revoke_error(issuer, id, reason) is None,
    ensures
        ({
            let t = s.revoked(issuer, id, reason);
            &&& t.attestations.contains_key(id)
            &&& t.attestations[id] == revoked_record(s.attestations[id], reason)
            &&& t.status_of(id) == AttestationStatus::Revoked
            &&& forall|subject: Address| !(#[trigger] t.subject_ids(subject)).contains(id)
            &&& forall|from: Address| !(#[trigger] t.issuer_ids(from)).contains(id)
            &&& forall|claim: Claim| !#[trigger] t.proves(id, claim)
            &&& t.own_error(issuer, id) == Some(Error::AlreadyRevoked)
        }),
{
    let request = Request::Revoke { issuer, id, reason };
    let t = s.revoked(issuer, id, reason);
    reveal(Request::error);
    reveal(Request::after);
    assert(request.after(s) == t);
    requests_keep_the_books_sound(s, request);
    assert(t.attestations[id].revoked);
    assert forall|subject: Address| !(#[trigger] t.subject_ids(subject)).contains(id) by {
        assert(t.subject_ids(subject) == t.books().about(subject));
        assert(!t.books().concerns(subject, id));
    }
    assert forall|from: Address| !(#[trigger] t.issuer_ids(from)).contains(id) by {
        assert(t.issuer_ids(from) == t.books().of(from));
        assert(!t.books().stems_from(from, id));
    }
}

/// An attestation that was renewed is in force again, unless it only becomes valid later, until
/// the new expiration.
pub proof fn renewed_attestations_are_in_force(
    s: EnvView,
    issuer: Address,
    id: Seq<u8>,
    expiration: Option<u64>,
)
    requires
        s.books().sound(),
        s.renew_error(issuer, id, expiration) is None,
        s.attestations[id].valid_from is Some ==> s.attestations[id].valid_from->0 <= s.timestamp,
    ensures
        ({
            let t = s.renewed(issuer, id, expiration);
            let a = renewed_record(s.attestations[id], expiration);
            &&& t.attestations[id] == a
            &&& t.status_of(id) == AttestationStatus::Valid
            &&& forall|now: u64|
                now >= s.timestamp ==> #[trigger] a.status(now) == if expiration is Some && now
                    >= expiration->0 {
                    AttestationStatus::Expired
                } else {
                    AttestationStatus::Valid
                }
            &&& !a.deleted ==> t.holds(a.subject, claim_of(a.claim_type))
        }),
{
    let request = Request::Renew { issuer, id, expiration };
    let t = s.renewed(issuer, id, expiration);
    let a = renewed_record(s.attestations[id], expiration);
    reveal(Request::error);
    reveal(Request::after);
    assert(request.after(s) == t);
    requests_keep_the_books_sound(s, request);
    assert(s.attestations[id].id == id) by {
        assert(s.books().records.contains_key(id));
    }
    if !a.deleted {
        assert(t.proves(id, claim_of(a.claim_type)));
        claims_are_held_by_the_records(t, a.subject, claim_of(a.claim_type));
    }
}

/// An attestation is in force up to its expiration and never again after it.
pub proof fn validity_ends_at_expiration(a: AttestationView, now: u64, later: u64)
    requires
        now <= later,
    ensures
        a.status(now) == AttestationStatus::Expired ==> a.status(later)
            == AttestationStatus::Expired,
        a.status(now) == AttestationStatus::Valid ==> (a.status(later) == AttestationStatus::Valid
            <==> (a.expiration is Some ==> later < a.expiration->0)),
{
}

proof fn lemma_latest_is_visible(s: EnvView, ids: Seq<Seq<u8>>, claim: Claim)
    ensures
        s.latest_proof(ids, claim) is Some ==> exists|i: int|
            0 <= i < ids.len() && s.proves(#[trigger] ids[i], claim) && s.latest_proof(ids, claim)
                == Some(s.attestations[ids[i]]),
    decreases ids.len(),
{
    if ids.len() > 0 && s.latest_proof(ids, claim) is Some {
        if s.proves(ids.last(), claim) {
            assert(s.proves(ids[ids.len() - 1], claim));
        } else {
            let earlier = ids.drop_last();
            lemma_latest_is_visible(s, earlier, claim);
            let i = choose|i: int|
                0 <= i < earlier.len() && s.proves(#[trigger] earlier[i], claim) && s.latest_proof(
                    earlier,
                    claim,
                ) == Some(s.attestations[earlier[i]]);
            assert(s.proves(ids[i], claim));
        }
    }
}

/// An attestation that its subject has had erased is on no answer to a question about
/// attestations: it is not shown, proves no claim, made no claim that a notice of expiration is
/// about, passes no filter of a listing, and is not found by its claim type.
pub proof fn erased_attestations_are_invisible(s: EnvView, id: Seq<u8>)
    requires
        s.books().keyed(),
        s.attestations.contains_key(id),
        s.attestations[id].deleted,
    ensures
        !s.visible(id),
        forall|claim: Claim| !#[trigger] s.proves(id, claim),
        forall|claim: Claim| !#[trigger] s.proved(id, claim),
        forall|ids: Seq<Seq<u8>>, accepts: spec_fn(AttestationView) -> bool|
            !(#[trigger] ids.filter(s.shown(accepts))).contains(id),
        forall|ids: Seq<Seq<u8>>, claim: Claim|
            #[trigger] s.latest_proof(ids, claim) is Some ==> s.latest_proof(ids, claim)->0.id
                != id,
{
    assert forall|ids: Seq<Seq<u8>>, accepts: spec_fn(AttestationView) -> bool|
        !(#[trigger] ids.filter(s.shown(accepts))).contains(id) by {
        broadcast use Seq::lemma_filter_pred;

        let kept = ids.filter(s.shown(accepts));
        if kept.contains(id) {
            let i = choose|i: int| 0 <= i < kept.len() && kept[i] == id;
            assert(s.shown(accepts)(kept[i]));
        }
    }
    assert forall|ids: Seq<Seq<u8>>, claim: Claim|
        #[trigger] s.latest_proof(ids, claim) is Some implies s.latest_proof(ids, claim)->0.id
        != id by {
        lemma_latest_is_visible(s, ids, claim);
        let i = choose|i: int|
            0 <= i < ids.len() && s.proves(#[trigger] ids[i], claim) && s.latest_proof(ids, claim)
                == Some(s.attestations[ids[i]]);
        assert(s.books().records.contains_key(ids[i]));
    }
}

/// Erasing an attestation marks its record, which is kept otherwise as it was, and takes it out
/// of the index of its subject.
pub proof fn erasure_marks_the_record(s: EnvView, subject: Address, id: Seq<u8>)
    requires
        s.books().sound(),
        s.deletion_error(subject, id) is None,
    ensures
        ({
            let t = s.deleted(subject, id);
            &&& t.attestations.contains_key(id)
            &&& t.attestations[id] == deleted_record(s.attestations[id])
            &&& !t.visible(id)
            &&& forall|about: Address| !(#[trigger] t.subject_ids(about)).contains(id)
        }),
{
    let request = Request::RequestDeletion { subject, id };
    let t = s.deleted(subject, id);
    reveal(Request::error);
    reveal(Request::after);
    assert(request.after(s) == t);
    requests_keep_the_books_sound(s, request);
    assert(s.attestations[id].id == id) by {
        assert(s.books().records.contains_key(id));
    }
    assert forall|about: Address| !(#[trigger] t.subject_ids(about)).contains(id) by {
        assert(t.subject_ids(about) == t.books().about(about));
        assert(!t.books().concerns(about, id));
    }
}

/// The claims listed for a subject are those that it holds, each once.
pub proof fn valid_claims_are_the_claims_held(s: EnvView, ids: Seq<Seq<u8>>)
    ensures
        s.valid_claims(ids).no_duplicates(),
        forall|claim_type: Seq<u8>|
            #[trigger] s.valid_claims(ids).contains(claim_type) <==> s.any_proves(
                ids,
                claim_of(claim_type),
            ),
    decreases ids.len(),
{
    if ids.len() > 0 {
        let earlier = ids.drop_last();
        let before = s.valid_claims(earlier);
        let last = s.attestations[ids.last()].claim_type;
        valid_claims_are_the_claims_held(s, earlier);
        assert forall|claim_type: Seq<u8>|
            #[trigger] s.valid_claims(ids).contains(claim_type) <==> s.any_proves(
                ids,
                claim_of(claim_type),
            ) by {
            lemma_push(before, last, claim_type);
            assert(before.contains(claim_type) <==> s.any_proves(earlier, claim_of(claim_type)));
            if s.any_proves(earlier, claim_of(claim_type)) {
                let i = choose|i: int|
                    0 <= i < earlier.len() && s.proves(
                        #[trigger] earlier[i],
                        claim_of(claim_type),
                    );
                assert(s.proves(ids[i], claim_of(claim_type)));
            }
            if s.any_proves(ids, claim_of(claim_type)) {
                let i = choose|i: int|
                    0 <= i < ids.len() && s.proves(#[trigger] ids[i], claim_of(claim_type));
                if i < earlier.len() {
                    assert(s.proves(earlier[i], claim_of(claim_type)));
                }
            }
            if s.proves(ids.last(), claim_of(claim_type)) {
                assert(s.proves(ids[ids.len() - 1], claim_of(claim_type)));
            }
        }
    }
}

proof fn lemma_latest_found(s: EnvView, ids: Seq<Seq<u8>>, claim: Claim)
    requires
        forall|i: int| 0 <= i < ids.len() ==> s.attestations.contains_key(#[trigger] ids[i]),
    ensures
        s.latest_proof(ids, claim) is Some <==> s.any_proves(ids, claim),
    decreases ids.len(),
{
    lemma_latest_is_visible(s, ids, claim);
    if ids.len() > 0 {
        let earlier = ids.drop_last();
        assert forall|i: int| 0 <= i < earlier.len() implies s.attestations.contains_key(
            #[trigger] earlier[i],
        ) by {
            assert(ids[i] == earlier[i]);
        }
        lemma_latest_found(s, earlier, claim);
        assert(s.attestations.contains_key(ids[ids.len() - 1]));
        if s.any_proves(ids, claim) && !s.proves(ids.last(), claim) {
            let i = choose|i: int| 0 <= i < ids.len() && s.proves(#[trigger] ids[i], claim);
            assert(s.proves(earlier[i], claim));
        }
    }
}

/// An attestation is found by its claim type exactly if its subject holds the claim.
pub proof fn held_claims_are_found_by_type(s: EnvView, subject: Address, claim_type: Seq<u8>)
    requires
        s.books().sound(),
    ensures
        s.latest_proof(s.subject_ids(subject), claim_of(claim_type)) is Some <==> s.holds(
            subject,
            claim_of(claim_type),
        ),
{
    let ids = s.subject_ids(subject);
    assert forall|i: int| 0 <= i < ids.len() implies s.attestations.contains_key(
        #[trigger] ids[i],
    ) by {
        assert(s.books().about(subject).contains(ids[i]));
    }
    lemma_latest_found(s, ids, claim_of(claim_type));
}

proof fn lemma_filter_all<T>(all: Seq<T>, pred: spec_fn(T) -> bool)
    requires
        forall|i: int| 0 <= i < all.len() ==> pred(#[trigger] all[i]),
    ensures
        all.filter(pred) == all,
    decreases all.len(),
{
    reveal(Seq::filter);
    if all.len() > 0 {
        let rest = all.drop_last();
        assert forall|i: int| 0 <= i < rest.len() implies pred(#[trigger] rest[i]) by {
            assert(all[i] == rest[i]);
        }
        lemma_filter_all(rest, pred);
        assert(pred(all[all.len() - 1]));
        assert(all =~= rest.push(all.last()));
    }
}

/// The listing of a subject shows the whole of its index.
pub proof fn subject_listings_show_the_index(s: EnvView, subject: Address)
    requires
        s.books().sound(),
    ensures
        s.subject_ids(subject).filter(s.shown(anything())) == s.subject_ids(subject),
{
    let ids = s.subject_ids(subject);
    assert forall|i: int| 0 <= i < ids.len() implies s.shown(anything())(#[trigger] ids[i]) by {
        assert(s.books().about(subject).contains(ids[i]));
    }
    lemma_filter_all(ids, s.shown(anything()));
}

proof fn lemma_same_answers(s: EnvView, t: EnvView, ids: Seq<Seq<u8>>, claim: Claim)
    requires
        t.attestations == s.attestations,
        t.timestamp == s.timestamp,
    ensures
        t.any_proves(ids, claim) == s.any_proves(ids, claim),
        t.valid_claims(ids) == s.valid_claims(ids),
        t.latest_proof(ids, claim) == s.latest_proof(ids, claim),
    decreases ids.len(),
{
    assert(forall|i: int|
        0 <= i < ids.len() ==> t.proves(#[trigger] ids[i], claim) == s.proves(ids[i], claim));
    if ids.len() > 0 {
        lemma_same_answers(s, t, ids.drop_last(), claim);
    }
}

/// While attestation writes are paused, every question has the answer that it has otherwise: what
/// is shown, what it is worth, who holds which claims, what listings and searches find, and what
/// the logs say.
pub proof fn pause_leaves_answers(s: EnvView, paused: bool)
    ensures
        ({
            let t = EnvView { paused, ..s };
            &&& forall|id: Seq<u8>| #[trigger] t.visible(id) == s.visible(id)
            &&& forall|id: Seq<u8>| #[trigger] t.status_of(id) == s.status_of(id)
            &&& forall|id: Seq<u8>| #[trigger] t.audit_log(id) == s.audit_log(id)
            &&& forall|subject: Address| #[trigger] t.subject_ids(subject) == s.subject_ids(subject)
            &&& forall|issuer: Address| #[trigger] t.issuer_ids(issuer) == s.issuer_ids(issuer)
            &&& forall|accepts: spec_fn(AttestationView) -> bool| #[trigger]
                t.shown(accepts) == s.shown(accepts)
            &&& forall|ids: Seq<Seq<u8>>| #[trigger] t.records(ids) == s.records(ids)
            &&& forall|ids: Seq<Seq<u8>>| #[trigger] t.valid_claims(ids) == s.valid_claims(ids)
            &&& forall|ids: Seq<Seq<u8>>, claim: Claim| #[trigger]
                t.latest_proof(ids, claim) == s.latest_proof(ids, claim)
            &&& forall|subject: Address, claim: Claim| #[trigger]
                t.holds(subject, claim) == s.holds(subject, claim)
            &&& forall|id: Seq<u8>, claim: Claim, tier: IssuerTier| #[trigger]
                t.proves_at_tier(id, claim, tier) == s.proves_at_tier(id, claim, tier)
        }),
{
    let t = EnvView { paused, ..s };
    assert forall|accepts: spec_fn(AttestationView) -> bool| #[trigger]
        t.shown(accepts) == s.shown(accepts) by {
        assert(t.shown(accepts) =~= s.shown(accepts));
    }
    assert forall|ids: Seq<Seq<u8>>| #[trigger] t.records(ids) == s.records(ids) by {
        assert(t.records(ids) =~= s.records(ids));
    }
    assert forall|ids: Seq<Seq<u8>>| #[trigger] t.valid_claims(ids) == s.valid_claims(ids) by {
        lemma_same_answers(s, t, ids, claim_of(Seq::empty()));
    }
    assert forall|ids: Seq<Seq<u8>>, claim: Claim| #[trigger]
        t.latest_proof(ids, claim) == s.latest_proof(ids, claim) by {
        lemma_same_answers(s, t, ids, claim);
    }
    assert forall|subject: Address, claim: Claim| #[trigger]
        t.holds(subject, claim) == s.holds(subject, claim) by {
        lemma_same_answers(s, t, s.subject_ids(subject), claim);
    }
}

/// A subject holds a claim exactly if it holds it from some issuer.
pub proof fn claims_come_from_issuers(s: EnvView, subject: Address, claim_type: Seq<u8>)
    ensures
        s.holds(subject, claim_of(claim_type)) <==> exists|issuer: Address| #[trigger]
            s.holds(subject, Claim { claim_type, issuer: Some(issuer) }),
{
    let ids = s.subject_ids(subject);
    if s.holds(subject, claim_of(claim_type)) {
        let i = choose|i: int|
            0 <= i < ids.len() && s.proves(#[trigger] ids[i], claim_of(claim_type));
        let issuer = s.attestations[ids[i]].issuer;
        assert(s.proves(ids[i], Claim { claim_type, issuer: Some(issuer) }));
        assert(s.holds(subject, Claim { claim_type, issuer: Some(issuer) }));
    }
    if exists|issuer: Address| #[trigger]
        s.holds(subject, Claim { claim_type, issuer: Some(issuer) }) {
        let issuer = choose|issuer: Address| #[trigger]
            s.holds(subject, Claim { claim_type, issuer: Some(issuer) });
        let i = choose|i: int|
            0 <= i < ids.len() && s.proves(
                #[trigger] ids[i],
                Claim { claim_type, issuer: Some(issuer) },
            );
        assert(s.proves(ids[i], claim_of(claim_type)));
    }
}

/// What proves a claim at some tier proves it at every lower tier, and proves it at all.
pub proof fn higher_tiers_count_for_lower_ones(
    s: EnvView,
    id: Seq<u8>,
    claim: Claim,
    tier: IssuerTier,
    lower: IssuerTier,
)
    requires
        lower.rank() <= tier.rank(),
        s.proves_at_tier(id, claim, tier),
    ensures
        s.proves_at_tier(id, claim, lower),
        s.proves(id, claim),
{
}

} // verus!

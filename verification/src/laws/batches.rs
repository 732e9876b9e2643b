//! A batch is worth as much as its parts, one after another.

use crate::address::Address;
use crate::env::EnvView;
use crate::ident::attestation_id;
use crate::laws::policies::batches_are_indexed;
use crate::laws::scope::lemma_batch_scope;
use crate::list::lemma_push;
use crate::types::Error;
use crate::validation::first;
use vstd::prelude::*;

verus! {

impl EnvView {
    /// The error that issuing about the subjects one after another would meet first, each on the
    /// ledger that the ones before it have left.
    pub open spec fn one_by_one_error(
        self,
        issuer: Address,
        subjects: Seq<Address>,
        claim_type: Seq<u8>,
        expiration: Option<u64>,
    ) -> Option<Error>
        decreases subjects.len(),
    {
        if subjects.len() == 0 {
            None
        } else {
            let earlier = subjects.drop_last();
            let now = self.batch_items(issuer, earlier, claim_type, expiration);
            first(
                self.one_by_one_error(issuer, earlier, claim_type, expiration),
                first(
                    now.duplicate_error(
                        attestation_id(issuer, subjects.last(), claim_type, now.timestamp),
                    ),
                    now.subject_limit_error(subjects.last()),
                ),
            )
        }
    }

    /// The error that revoking the attestations one after another would meet first, each on the
    /// ledger that the ones before it have left.
    pub open spec fn revoke_one_by_one_error(
        self,
        issuer: Address,
        ids: Seq<Seq<u8>>,
        reason: Option<Seq<u8>>,
    ) -> Option<Error>
        decreases ids.len(),
    {
        if ids.len() == 0 {
            None
        } else {
            let earlier = ids.drop_last();
            first(
                self.revoke_one_by_one_error(issuer, earlier, reason),
                self.revocations(issuer, earlier, reason).own_error(issuer, ids.last()),
            )
        }
    }
}

proof fn lemma_batch_keys(
    s: EnvView,
    issuer: Address,
    subjects: Seq<Address>,
    claim_type: Seq<u8>,
    expiration: Option<u64>,
    id: Seq<u8>,
)
    ensures
        s.batch_items(issuer, subjects, claim_type, expiration).attestations.contains_key(id)
            <==> s.attestations.contains_key(id) || s.batch_ids(
            issuer,
            subjects,
            claim_type,
        ).contains(id),
    decreases subjects.len(),
{
    if subjects.len() > 0 {
        let earlier = subjects.drop_last();
        let last = attestation_id(issuer, subjects.last(), claim_type, s.timestamp);
        let ids = s.batch_ids(issuer, earlier, claim_type);
        lemma_batch_keys(s, issuer, earlier, claim_type, expiration, id);
        lemma_batch_scope(s, issuer, earlier, claim_type, expiration);
        assert(s.batch_ids(issuer, subjects, claim_type) =~= ids.push(last));
        lemma_push(ids, last, id);
    }
}

/// A batch is refused exactly where issuing about its subjects one after another would be, and
/// for the same reason.
pub proof fn batches_go_one_by_one(
    s: EnvView,
    issuer: Address,
    subjects: Seq<Address>,
    claim_type: Seq<u8>,
    expiration: Option<u64>,
)
    ensures
        s.batch_items_error(issuer, subjects, claim_type) == s.one_by_one_error(
            issuer,
            subjects,
            claim_type,
            expiration,
        ),
    decreases subjects.len(),
{
    if subjects.len() > 0 {
        let earlier = subjects.drop_last();
        let last = subjects.last();
        let now = s.batch_items(issuer, earlier, claim_type, expiration);
        let id = attestation_id(issuer, last, claim_type, s.timestamp);
        let ids = s.batch_ids(issuer, earlier, claim_type);
        batches_go_one_by_one(s, issuer, earlier, claim_type, expiration);
        if s.batch_items_error(issuer, earlier, claim_type) is None {
            lemma_batch_scope(s, issuer, earlier, claim_type, expiration);
            lemma_batch_keys(s, issuer, earlier, claim_type, expiration, id);
            batches_are_indexed(s, issuer, earlier, claim_type, expiration);
            let shorter = s.batch_created(issuer, earlier, claim_type, expiration);
            assert(shorter.subject_ids(last) == now.subject_ids(last));
            if earlier.contains(last) {
                let i = choose|i: int| 0 <= i < earlier.len() && earlier[i] == last;
                assert(ids[i] == id);
            }
        }
    }
}

proof fn lemma_revoked_records(
    s: EnvView,
    issuer: Address,
    ids: Seq<Seq<u8>>,
    reason: Option<Seq<u8>>,
    id: Seq<u8>,
)
    requires
        s.books().keyed(),
        s.revoke_items_error(issuer, ids) is None,
    ensures
        ({
            let t = s.revocations(issuer, ids, reason);
            &&& t.books().keyed()
            &&& t.attestations.contains_key(id) == s.attestations.contains_key(id)
            &&& s.attestations.contains_key(id) ==> {
                &&& t.attestations[id].issuer == s.attestations[id].issuer
                &&& t.attestations[id].revoked == (s.attestations[id].revoked || ids.contains(id))
            }
        }),
    decreases ids.len(),
{
    if ids.len() > 0 {
        let earlier = ids.drop_last();
        let before = s.revocations(issuer, earlier, reason);
        lemma_revoked_records(s, issuer, earlier, reason, id);
        lemma_revoked_records(s, issuer, earlier, reason, ids.last());
        assert(ids =~= earlier.push(ids.last()));
        lemma_push(earlier, ids.last(), id);
        assert(before.books().records.contains_key(ids.last()));
    }
}

/// The revocation of a batch is refused exactly where revoking its attestations one after another
/// would be, and for the same reason.
pub proof fn revocations_go_one_by_one(
    s: EnvView,
    issuer: Address,
    ids: Seq<Seq<u8>>,
    reason: Option<Seq<u8>>,
)
    requires
        s.books().keyed(),
    ensures
        s.revoke_items_error(issuer, ids) == s.revoke_one_by_one_error(issuer, ids, reason),
    decreases ids.len(),
{
    if ids.len() > 0 {
        let earlier = ids.drop_last();
        revocations_go_one_by_one(s, issuer, earlier, reason);
        if s.revoke_items_error(issuer, earlier) is None {
            lemma_revoked_records(s, issuer, earlier, reason, ids.last());
        }
    }
}

/// Revoking one attestation is revoking a batch of one.
pub proof fn one_revocation_is_a_batch_of_one(
    s: EnvView,
    issuer: Address,
    id: Seq<u8>,
    reason: Option<Seq<u8>>,
)
    ensures
        s.revoke_batch_error(issuer, seq![id], reason) == s.revoke_error(issuer, id, reason),
        s.batch_revoked(issuer, seq![id], reason) == s.revoked(issuer, id, reason),
{
    reveal_with_fuel(EnvView::revoke_items_error, 2);
    reveal_with_fuel(EnvView::revocations, 2);
    assert(seq![id].drop_last() =~= Seq::<Seq<u8>>::empty());
    assert(!Seq::<Seq<u8>>::empty().contains(id));
}

} // verus!

//! The part of the ledger that is about attestations, and the ways in which
//! requests write to it. Every request comes down to a series of such writes.

use crate::address::Address;
use crate::env::EnvView;
use crate::ident::{attestation_id, bridge_id};
use crate::issuance::{bridged_record, created_entry, native_record, plain_record, Draft};
use crate::lifecycle::{deleted_record, renewed_record, revoked_record};
use crate::list::without;
use crate::multisig::{agreed_record, signed_by};
use crate::queries::{claim_of, Claim};
use crate::requests::Request;
use crate::storage::lookup;
use crate::types::{AttestationOrigin, AttestationView, AuditAction, AuditEntryView};
use vstd::prelude::*;

verus! {

/// The attestations, with their indexes and logs.
#[verifier::ext_equal]
pub struct Books {
    /// The attestations by identifier.
    pub records: Map<Seq<u8>, AttestationView>,
    /// The identifiers of the attestations about each subject, oldest first.
    pub by_subject: Map<Address, Seq<Seq<u8>>>,
    /// The identifiers of the attestations of each issuer, oldest first.
    pub by_issuer: Map<Address, Seq<Seq<u8>>>,
    /// The audit log of each attestation, oldest entry first.
    pub logs: Map<Seq<u8>, Seq<AuditEntryView>>,
}

/// One way to write to the books.
pub enum Write {
    /// A record that is new, put into both indexes.
    Store { record: AttestationView, entry: AuditEntryView },
    /// A record that several issuers agreed on, put into both indexes.
    Agree { record: AttestationView, entry: AuditEntryView },
    /// A record marked as revoked, and taken out of both indexes.
    Revoke { issuer: Address, id: Seq<u8>, reason: Option<Seq<u8>>, entry: AuditEntryView },
    /// A record marked as erased, and taken out of the index of its subject.
    Erase { subject: Address, id: Seq<u8> },
    /// A record with another expiration.
    Renew { issuer: Address, id: Seq<u8>, expiration: Option<u64>, entry: AuditEntryView },
}

/// The identifier that the fields of an attestation give it.
pub open spec fn proper_id(a: AttestationView) -> Seq<u8> {
    match a.origin {
        AttestationOrigin::Bridged => bridge_id(
            a.issuer,
            a.subject,
            a.claim_type,
            a.source_chain->0,
            a.source_tx->0,
            a.timestamp,
        ),
        _ => attestation_id(a.issuer, a.subject, a.claim_type, a.timestamp),
    }
}

/// Whether the record is one that was just made.
pub open spec fn is_new_record(a: AttestationView) -> bool {
    &&& a.id == proper_id(a)
    &&& !a.revoked
    &&& !a.deleted
    &&& a.revocation_reason is None
    &&& a.origin == AttestationOrigin::Bridged <==> a.source_chain is Some
    &&& a.origin == AttestationOrigin::Bridged <==> a.source_tx is Some
}

impl Books {
    /// The identifiers indexed for `subject`.
    pub open spec fn about(self, subject: Address) -> Seq<Seq<u8>> {
        lookup(self.by_subject, subject, Seq::empty())
    }

    /// The identifiers indexed for `issuer`.
    pub open spec fn of(self, issuer: Address) -> Seq<Seq<u8>> {
        lookup(self.by_issuer, issuer, Seq::empty())
    }

    /// The log of the attestation `id`.
    pub open spec fn log(self, id: Seq<u8>) -> Seq<AuditEntryView> {
        lookup(self.logs, id, Seq::empty())
    }

    /// Whether each record stands under its own identifier.
    pub open spec fn keyed(self) -> bool {
        forall|id: Seq<u8>| #[trigger]
            self.records.contains_key(id) ==> self.records[id].id == id
    }

    /// The books with one more entry in the log of `id`.
    pub open spec fn logged(self, id: Seq<u8>, entry: AuditEntryView) -> Books {
        Books { logs: self.logs.insert(id, self.log(id).push(entry)), ..self }
    }

    /// The books with the record, which both indexes list.
    pub open spec fn listed(self, a: AttestationView) -> Books {
        Books {
            records: self.records.insert(a.id, a),
            by_subject: self.by_subject.insert(a.subject, self.about(a.subject).push(a.id)),
            by_issuer: self.by_issuer.insert(a.issuer, self.of(a.issuer).push(a.id)),
            ..self
        }
    }

    /// The books after the write.
    pub open spec fn written(self, write: Write) -> Books {
        match write {
            Write::Store { record, entry } => self.listed(record).logged(record.id, entry),
            Write::Agree { record, entry } => self.listed(record).logged(record.id, entry),
            Write::Revoke { issuer, id, reason, entry } => {
                let a = self.records[id];
                Books {
                    records: self.records.insert(a.id, revoked_record(a, reason)),
                    by_subject: self.by_subject.insert(
                        a.subject,
                        without(self.about(a.subject), id),
                    ),
                    by_issuer: self.by_issuer.insert(issuer, without(self.of(issuer), id)),
                    ..self
                }.logged(id, entry)
            },
            Write::Erase { subject, id } => {
                let a = self.records[id];
                Books {
                    records: self.records.insert(a.id, deleted_record(a)),
                    by_subject: self.by_subject.insert(subject, without(self.about(subject), id)),
                    ..self
                }
            },
            Write::Renew { issuer, id, expiration, entry } => {
                let a = self.records[id];
                Books {
                    records: self.records.insert(a.id, renewed_record(a, expiration)),
                    ..self
                }.logged(id, entry)
            },
        }
    }

    /// Whether requests make such a write.
    pub open spec fn admits(self, write: Write) -> bool {
        match write {
            Write::Store { record, entry } => {
                &&& is_new_record(record)
                &&& !self.records.contains_key(record.id)
                &&& entry.action == AuditAction::Created
            },
            Write::Agree { record, entry } => {
                &&& is_new_record(record)
                &&& record.origin == AttestationOrigin::Native
                &&& entry.action == AuditAction::Created
            },
            Write::Revoke { issuer, id, reason, entry } => {
                &&& self.records.contains_key(id)
                &&& self.records[id].issuer == issuer
                &&& !self.records[id].revoked
                &&& entry.action == AuditAction::Revoked
                &&& entry.actor == issuer
                &&& entry.details == reason
            },
            Write::Erase { subject, id } => {
                &&& self.records.contains_key(id)
                &&& self.records[id].subject == subject
            },
            Write::Renew { issuer, id, expiration, entry } => {
                &&& self.records.contains_key(id)
                &&& self.records[id].issuer == issuer
                &&& !self.records[id].revoked
                &&& entry.action == AuditAction::Renewed
                &&& entry.actor == issuer
            },
        }
    }

    /// The books after all the writes, in order.
    pub open spec fn all_written(self, writes: Seq<Write>) -> Books
        decreases writes.len(),
    {
        if writes.len() == 0 {
            self
        } else {
            self.all_written(writes.drop_last()).written(writes.last())
        }
    }

    /// Whether requests make all the writes, in order.
    pub open spec fn admits_all(self, writes: Seq<Write>) -> bool
        decreases writes.len(),
    {
        writes.len() > 0 ==> self.admits_all(writes.drop_last()) && self.all_written(
            writes.drop_last(),
        ).admits(writes.last())
    }
}

impl EnvView {
    /// The books of the ledger.
    pub open spec fn books(self) -> Books {
        Books {
            records: self.attestations,
            by_subject: self.subject_attestations,
            by_issuer: self.issuer_attestations,
            logs: self.audit_logs,
        }
    }

    /// The write that revokes the attestation `id`.
    pub open spec fn revoke_write(
        self,
        issuer: Address,
        id: Seq<u8>,
        reason: Option<Seq<u8>>,
    ) -> Write {
        Write::Revoke {
            issuer,
            id,
            reason,
            entry: AuditEntryView {
                action: AuditAction::Revoked,
                actor: issuer,
                timestamp: self.timestamp,
                details: reason,
            },
        }
    }

    /// The write that makes one attestation of a batch.
    pub open spec fn batch_write(
        self,
        issuer: Address,
        subject: Address,
        claim_type: Seq<u8>,
        expiration: Option<u64>,
    ) -> Write {
        Write::Store {
            record: plain_record(
                issuer,
                subject,
                claim_type,
                self.timestamp,
                expiration,
                AttestationOrigin::Native,
            ),
            entry: created_entry(issuer, self.timestamp),
        }
    }

    /// The writes that make the attestations of a batch.
    pub open spec fn batch_writes(
        self,
        issuer: Address,
        subjects: Seq<Address>,
        claim_type: Seq<u8>,
        expiration: Option<u64>,
    ) -> Seq<Write> {
        subjects.map_values(
            |subject: Address| self.batch_write(issuer, subject, claim_type, expiration),
        )
    }

    /// The writes that revoke the attestations of a batch.
    pub open spec fn revoke_writes(
        self,
        issuer: Address,
        ids: Seq<Seq<u8>>,
        reason: Option<Seq<u8>>,
    ) -> Seq<Write> {
        ids.map_values(|id: Seq<u8>| self.revoke_write(issuer, id, reason))
    }
}

impl Request {
    /// The writes that the request comes down to once it has passed on the ledger `s`.
    pub open spec fn plan(self, s: EnvView) -> Seq<Write> {
        match self {
            Request::Create(draft) => {
                let record = native_record(draft, s.timestamp);
                seq![Write::Store { record, entry: created_entry(draft.issuer, s.timestamp) }]
            },
            Request::Import { admin, issuer, subject, claim_type, timestamp, expiration } => {
                let record = plain_record(
                    issuer,
                    subject,
                    claim_type,
                    timestamp,
                    expiration,
                    AttestationOrigin::Imported,
                );
                seq![Write::Store { record, entry: created_entry(admin, timestamp) }]
            },
            Request::Bridge { bridge, subject, claim_type, source_chain, source_tx } => {
                let record = bridged_record(
                    bridge,
                    subject,
                    claim_type,
                    source_chain,
                    source_tx,
                    s.timestamp,
                );
                seq![Write::Store { record, entry: created_entry(bridge, s.timestamp) }]
            },
            Request::CreateBatch { issuer, subjects, claim_type, expiration } => s.batch_writes(
                issuer,
                subjects,
                claim_type,
                expiration,
            ),
            Request::Revoke { issuer, id, reason } => seq![s.revoke_write(issuer, id, reason)],
            Request::RevokeBatch { issuer, ids, reason } => s.revoke_writes(issuer, ids, reason),
            Request::RequestDeletion { subject, id } => seq![Write::Erase { subject, id }],
            Request::Renew { issuer, id, expiration } => {
                let entry = AuditEntryView {
                    action: AuditAction::Renewed,
                    actor: issuer,
                    timestamp: s.timestamp,
                    details: None,
                };
                seq![Write::Renew { issuer, id, expiration, entry }]
            },
            Request::Cosign { issuer, id } => {
                let p = signed_by(s.multisig_proposals[id], issuer);
                if p.finalized {
                    let record = agreed_record(p);
                    seq![Write::Agree { record, entry: created_entry(p.proposer, s.timestamp) }]
                } else {
                    Seq::empty()
                }
            },
            _ => Seq::empty(),
        }
    }

    /// The writes that the request comes down to on the ledger `s`: none where it is refused.
    pub open spec fn writes(self, s: EnvView) -> Seq<Write> {
        if self.error(s) is None {
            self.plan(s)
        } else {
            Seq::empty()
        }
    }
}

proof fn lemma_one_write(books: Books, write: Write)
    ensures
        books.all_written(seq![write]) == books.written(write),
        books.admits_all(seq![write]) == books.admits(write),
{
    reveal_with_fuel(Books::all_written, 2);
    reveal_with_fuel(Books::admits_all, 2);
    assert(seq![write].drop_last() =~= Seq::empty());
}

proof fn lemma_create(s: EnvView, draft: Draft)
    requires
        s.create_error(draft) is None,
    ensures
        s.created(draft).books() == s.books().all_written(Request::Create(draft).plan(s)),
        s.books().admits_all(Request::Create(draft).plan(s)),
{
    lemma_one_write(s.books(), Request::Create(draft).plan(s)[0]);
}

proof fn lemma_import(s: EnvView, request: Request)
    requires
        request is Import,
        request.error(s) is None,
    ensures
        request.done(s).books() == s.books().all_written(request.plan(s)),
        s.books().admits_all(request.plan(s)),
{
    reveal(Request::error);
    lemma_one_write(s.books(), request.plan(s)[0]);
}

proof fn lemma_bridge(s: EnvView, request: Request)
    requires
        request is Bridge,
        request.error(s) is None,
    ensures
        request.done(s).books() == s.books().all_written(request.plan(s)),
        s.books().admits_all(request.plan(s)),
{
    reveal(Request::error);
    lemma_one_write(s.books(), request.plan(s)[0]);
}

proof fn lemma_revoke(s: EnvView, issuer: Address, id: Seq<u8>, reason: Option<Seq<u8>>)
    ensures
        s.revocation(issuer, id, reason).books() == s.books().written(
            s.revoke_write(issuer, id, reason),
        ),
        s.revocation(issuer, id, reason).timestamp == s.timestamp,
{
}

proof fn lemma_revocations(
    s: EnvView,
    issuer: Address,
    ids: Seq<Seq<u8>>,
    reason: Option<Seq<u8>>,
)
    ensures
        s.revocations(issuer, ids, reason).books() == s.books().all_written(
            s.revoke_writes(issuer, ids, reason),
        ),
        s.revocations(issuer, ids, reason).timestamp == s.timestamp,
    decreases ids.len(),
{
    if ids.len() > 0 {
        lemma_revocations(s, issuer, ids.drop_last(), reason);
        lemma_revoke(
            s.revocations(issuer, ids.drop_last(), reason),
            issuer,
            ids.last(),
            reason,
        );
        assert(s.revoke_writes(issuer, ids, reason).drop_last() =~= s.revoke_writes(
            issuer,
            ids.drop_last(),
            reason,
        ));
    }
}

proof fn lemma_revocations_admitted(
    s: EnvView,
    issuer: Address,
    ids: Seq<Seq<u8>>,
    reason: Option<Seq<u8>>,
)
    requires
        s.books().keyed(),
        s.revoke_items_error(issuer, ids) is None,
    ensures
        s.books().admits_all(s.revoke_writes(issuer, ids, reason)),
        s.books().all_written(s.revoke_writes(issuer, ids, reason)).keyed(),
        forall|id: Seq<u8>|
            !ids.contains(id) ==> (#[trigger] s.books().all_written(
                s.revoke_writes(issuer, ids, reason),
            ).records.contains_key(id) == s.books().records.contains_key(id)),
        forall|id: Seq<u8>|
            !ids.contains(id) ==> #[trigger] s.books().all_written(
                s.revoke_writes(issuer, ids, reason),
            ).records[id] == s.books().records[id],
    decreases ids.len(),
{
    let writes = s.revoke_writes(issuer, ids, reason);
    if ids.len() > 0 {
        let earlier = ids.drop_last();
        let id = ids.last();
        lemma_revocations_admitted(s, issuer, earlier, reason);
        assert(writes.drop_last() =~= s.revoke_writes(issuer, earlier, reason));
        let before = s.books().all_written(writes.drop_last());
        assert(before.records.contains_key(id) == s.books().records.contains_key(id));
        assert(before.records[id] == s.books().records[id]);
        assert(writes.last() == s.revoke_write(issuer, id, reason));
        assert(ids.contains(id)) by {
            assert(ids[ids.len() - 1] == id);
        }
        assert forall|x: Seq<u8>| !ids.contains(x) implies !earlier.contains(x) by {
            if earlier.contains(x) {
                let i = choose|i: int| 0 <= i < earlier.len() && earlier[i] == x;
                assert(ids[i] == x);
            }
        }
    }
}

proof fn lemma_batch(
    s: EnvView,
    issuer: Address,
    subjects: Seq<Address>,
    claim_type: Seq<u8>,
    expiration: Option<u64>,
)
    ensures
        s.batch_items(issuer, subjects, claim_type, expiration).books() == s.books().all_written(
            s.batch_writes(issuer, subjects, claim_type, expiration),
        ),
        s.batch_items(issuer, subjects, claim_type, expiration).timestamp == s.timestamp,
    decreases subjects.len(),
{
    if subjects.len() > 0 {
        lemma_batch(s, issuer, subjects.drop_last(), claim_type, expiration);
        assert(s.batch_writes(issuer, subjects, claim_type, expiration).drop_last()
            =~= s.batch_writes(issuer, subjects.drop_last(), claim_type, expiration));
    }
}

proof fn lemma_batch_admitted(
    s: EnvView,
    issuer: Address,
    subjects: Seq<Address>,
    claim_type: Seq<u8>,
    expiration: Option<u64>,
)
    requires
        s.batch_items_error(issuer, subjects, claim_type) is None,
    ensures
        s.books().admits_all(s.batch_writes(issuer, subjects, claim_type, expiration)),
        forall|id: Seq<u8>| #[trigger]
            s.books().all_written(
                s.batch_writes(issuer, subjects, claim_type, expiration),
            ).records.contains_key(id) ==> s.books().records.contains_key(id) || s.batch_ids(
                issuer,
                subjects,
                claim_type,
            ).contains(id),
    decreases subjects.len(),
{
    let writes = s.batch_writes(issuer, subjects, claim_type, expiration);
    if subjects.len() > 0 {
        let earlier = subjects.drop_last();
        let ids = s.batch_ids(issuer, subjects, claim_type);
        let earlier_ids = s.batch_ids(issuer, earlier, claim_type);
        lemma_batch_admitted(s, issuer, earlier, claim_type, expiration);
        assert(writes.drop_last() =~= s.batch_writes(issuer, earlier, claim_type, expiration));
        assert(writes.last() == s.batch_write(issuer, subjects.last(), claim_type, expiration));
        assert(ids =~= earlier_ids.push(ids.last()));
        assert(ids[ids.len() - 1] == ids.last());
        assert forall|x: Seq<u8>| earlier_ids.contains(x) implies ids.contains(x) by {
            let i = choose|i: int| 0 <= i < earlier_ids.len() && earlier_ids[i] == x;
            assert(ids[i] == x);
        }
    }
}

/// What a request does to the books is the series of its writes, each of which the books admit.
pub proof fn requests_are_writes(s: EnvView, request: Request)
    requires
        s.books().keyed(),
    ensures
        request.after(s).books() == s.books().all_written(request.writes(s)),
        s.books().admits_all(request.writes(s)),
{
    reveal(Request::after);
    if request.error(s) is None {
        if !request.writes_attestations() {
            lemma_other_requests(s, request);
        } else {
            lemma_writing_requests(s, request);
        }
    }
}

proof fn lemma_writing_requests(s: EnvView, request: Request)
    requires
        s.books().keyed(),
        request.writes_attestations(),
        request.error(s) is None,
    ensures
        request.done(s).books() == s.books().all_written(request.plan(s)),
        s.books().admits_all(request.plan(s)),
{
    reveal(Request::error);
    match request {
        Request::Create(draft) => lemma_create(s, draft),
        Request::Import { .. } => lemma_import(s, request),
        Request::Bridge { .. } => lemma_bridge(s, request),
        Request::CreateBatch { issuer, subjects, claim_type, expiration } => {
            lemma_batch(s, issuer, subjects, claim_type, expiration);
            lemma_batch_admitted(s, issuer, subjects, claim_type, expiration);
        },
        Request::Revoke { issuer, id, reason } => {
            lemma_revoke(s, issuer, id, reason);
            lemma_one_write(s.books(), request.plan(s)[0]);
        },
        Request::RevokeBatch { issuer, ids, reason } => {
            lemma_revocations(s, issuer, ids, reason);
            lemma_revocations_admitted(s, issuer, ids, reason);
        },
        Request::RequestDeletion { subject, id } => {
            lemma_one_write(s.books(), request.plan(s)[0]);
        },
        Request::Renew { issuer, id, expiration } => {
            lemma_one_write(s.books(), request.plan(s)[0]);
        },
        Request::Cosign { issuer, id } => {
            let p = signed_by(s.multisig_proposals[id], issuer);
            if p.finalized {
                lemma_one_write(s.books(), request.plan(s)[0]);
            }
        },
        _ => {},
    }
}

proof fn lemma_noticed(s: EnvView, subject: Address, ids: Seq<Seq<u8>>, claim: Claim)
    ensures
        s.noticed(subject, ids, claim) == (EnvView {
            effects: s.noticed(subject, ids, claim).effects,
            ..s
        }),
        s.effects.is_prefix_of(s.noticed(subject, ids, claim).effects),
    decreases ids.len(),
{
    if ids.len() > 0 {
        lemma_noticed(s, subject, ids.drop_last(), claim);
    }
}

/// A question changes nothing on the ledger; all it does is ask for notices.
pub proof fn questions_change_nothing(s: EnvView, request: Request)
    requires
        request.is_question(),
    ensures
        request.error(s) is None,
        request.after(s) == request.done(s),
        request.after(s) == (EnvView { effects: request.after(s).effects, ..s }),
        s.effects.is_prefix_of(request.after(s).effects),
{
    reveal(Request::error);
    reveal(Request::after);
    match request {
        Request::HasValidClaim { subject, claim_type } => {
            let ids = s.subject_ids(subject);
            let claim = claim_of(claim_type);
            lemma_noticed(s, subject, ids.take(s.first_proof(ids, claim)), claim);
        },
        Request::HasValidClaimFromIssuer { subject, claim_type, issuer } => {
            let ids = s.subject_ids(subject);
            let claim = Claim { claim_type, issuer: Some(issuer) };
            lemma_noticed(s, subject, ids.take(s.first_proof(ids, claim)), claim);
        },
        _ => {},
    }
}

proof fn lemma_other_requests(s: EnvView, request: Request)
    requires
        !request.writes_attestations(),
    ensures
        request.done(s).books() == s.books(),
        request.plan(s) == Seq::<Write>::empty(),
{
    if request.is_question() {
        questions_change_nothing(s, request);
    }
}

} // verus!

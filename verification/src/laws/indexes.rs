//! The indexes list exactly the attestations that they should.

use crate::address::Address;
use crate::books::{is_new_record, proper_id, requests_are_writes, Books, Write};
use crate::env::EnvView;
use crate::ident::{attestation_id_is_injective, attestation_id_is_no_bridge_id};
use crate::laws::history::lemma_last_write;
use crate::list::{lemma_push, lemma_push_once, lemma_without, lemma_without_once};
use crate::multisig::{agreed_record, signed_by};
use crate::queries::Claim;
use crate::requests::{ledger_after, Call, Request};
use crate::types::{AttestationOrigin, AttestationView};
use vstd::prelude::*;

verus! {

impl Books {
    /// Whether the index of `subject` should list the attestation `id`.
    pub open spec fn concerns(self, subject: Address, id: Seq<u8>) -> bool {
        &&& self.records.contains_key(id)
        &&& self.records[id].subject == subject
        &&& !self.records[id].revoked
        &&& !self.records[id].deleted
    }

    /// Whether the index of `issuer` should list the attestation `id`.
    pub open spec fn stems_from(self, issuer: Address, id: Seq<u8>) -> bool {
        &&& self.records.contains_key(id)
        &&& self.records[id].issuer == issuer
        &&& !self.records[id].revoked
    }

    /// Whether each record stands under the identifier that its fields give it, names a source
    /// exactly if it was mirrored, and the indexes list what they should.
    pub open spec fn sound(self) -> bool {
        &&& self.keyed()
        &&& forall|id: Seq<u8>| #[trigger]
            self.records.contains_key(id) ==> {
                let a = self.records[id];
                &&& id == proper_id(a)
                &&& a.origin == AttestationOrigin::Bridged <==> a.source_chain is Some
                &&& a.origin == AttestationOrigin::Bridged <==> a.source_tx is Some
            }
        &&& forall|subject: Address, id: Seq<u8>| #[trigger]
            self.about(subject).contains(id) <==> self.concerns(subject, id)
        &&& forall|issuer: Address, id: Seq<u8>| #[trigger]
            self.of(issuer).contains(id) <==> self.stems_from(issuer, id)
    }
}

/// A record that several issuers agreed on has the parties of the record that it replaces.
pub proof fn lemma_same_parties(a: AttestationView, b: AttestationView)
    requires
        a.origin != AttestationOrigin::Bridged,
        proper_id(a) == proper_id(b),
    ensures
        b.origin != AttestationOrigin::Bridged,
        a.issuer == b.issuer,
        a.subject == b.subject,
        a.claim_type == b.claim_type,
        a.timestamp == b.timestamp,
{
    if b.origin == AttestationOrigin::Bridged {
        attestation_id_is_no_bridge_id(
            a.issuer,
            a.subject,
            a.claim_type,
            a.timestamp,
            b.issuer,
            b.subject,
            b.claim_type,
            b.source_chain->0,
            b.source_tx->0,
            b.timestamp,
        );
    } else {
        attestation_id_is_injective(
            a.issuer,
            a.subject,
            a.claim_type,
            a.timestamp,
            b.issuer,
            b.subject,
            b.claim_type,
            b.timestamp,
        );
    }
}

proof fn lemma_listed(books: Books, a: AttestationView)
    requires
        books.sound(),
        is_new_record(a),
        books.records.contains_key(a.id) ==> a.origin == AttestationOrigin::Native,
    ensures
        books.listed(a).sound(),
{
    let next = books.listed(a);
    if books.records.contains_key(a.id) {
        lemma_same_parties(a, books.records[a.id]);
    }
    assert forall|subject: Address, id: Seq<u8>| #[trigger]
        next.about(subject).contains(id) <==> next.concerns(subject, id) by {
        lemma_push(books.about(a.subject), a.id, id);
        assert(books.about(subject).contains(id) <==> books.concerns(subject, id));
    }
    assert forall|issuer: Address, id: Seq<u8>| #[trigger]
        next.of(issuer).contains(id) <==> next.stems_from(issuer, id) by {
        lemma_push(books.of(a.issuer), a.id, id);
        assert(books.of(issuer).contains(id) <==> books.stems_from(issuer, id));
    }
}

proof fn lemma_write_is_sound(books: Books, write: Write)
    requires
        books.sound(),
        books.admits(write),
    ensures
        books.written(write).sound(),
{
    let next = books.written(write);
    match write {
        Write::Store { record, entry } => {
            lemma_listed(books, record);
            assert(forall|subject: Address|
                #[trigger] next.about(subject) == books.listed(record).about(subject));
            assert(forall|issuer: Address|
                #[trigger] next.of(issuer) == books.listed(record).of(issuer));
        },
        Write::Agree { record, entry } => {
            lemma_listed(books, record);
            assert(forall|subject: Address|
                #[trigger] next.about(subject) == books.listed(record).about(subject));
            assert(forall|issuer: Address|
                #[trigger] next.of(issuer) == books.listed(record).of(issuer));
        },
        Write::Revoke { issuer, id, reason, entry } => {
            let a = books.records[id];
            assert forall|subject: Address, x: Seq<u8>| #[trigger]
                next.about(subject).contains(x) <==> next.concerns(subject, x) by {
                lemma_without(books.about(a.subject), id, x);
                assert(books.about(subject).contains(x) <==> books.concerns(subject, x));
            }
            assert forall|from: Address, x: Seq<u8>| #[trigger]
                next.of(from).contains(x) <==> next.stems_from(from, x) by {
                lemma_without(books.of(issuer), id, x);
                assert(books.of(from).contains(x) <==> books.stems_from(from, x));
            }
        },
        Write::Erase { subject, id } => {
            assert forall|about: Address, x: Seq<u8>| #[trigger]
                next.about(about).contains(x) <==> next.concerns(about, x) by {
                lemma_without(books.about(subject), id, x);
                assert(books.about(about).contains(x) <==> books.concerns(about, x));
            }
            assert forall|from: Address, x: Seq<u8>| #[trigger]
                next.of(from).contains(x) <==> next.stems_from(from, x) by {
                assert(books.of(from).contains(x) <==> books.stems_from(from, x));
            }
        },
        Write::Renew { issuer, id, expiration, entry } => {
            assert forall|about: Address, x: Seq<u8>| #[trigger]
                next.about(about).contains(x) <==> next.concerns(about, x) by {
                assert(books.about(about).contains(x) <==> books.concerns(about, x));
            }
            assert forall|from: Address, x: Seq<u8>| #[trigger]
                next.of(from).contains(x) <==> next.stems_from(from, x) by {
                assert(books.of(from).contains(x) <==> books.stems_from(from, x));
            }
        },
    }
}

/// Writes that the books admit keep them sound.
pub proof fn lemma_writes_are_sound(books: Books, writes: Seq<Write>)
    requires
        books.sound(),
        books.admits_all(writes),
    ensures
        books.all_written(writes).sound(),
    decreases writes.len(),
{
    if writes.len() > 0 {
        lemma_writes_are_sound(books, writes.drop_last());
        lemma_write_is_sound(books.all_written(writes.drop_last()), writes.last());
    }
}

/// Every request keeps the books sound.
pub proof fn requests_keep_the_books_sound(s: EnvView, request: Request)
    requires
        s.books().sound(),
    ensures
        request.after(s).books().sound(),
{
    requests_are_writes(s, request);
    lemma_writes_are_sound(s.books(), request.writes(s));
}

/// However a registry was used, its books are sound: the index of a subject lists exactly the
/// attestations about it that are neither revoked nor erased, and the index of an issuer exactly
/// the attestations of it that are not revoked.
pub proof fn the_books_are_always_sound(calls: Seq<Call>)
    ensures
        ledger_after(calls).books().sound(),
    decreases calls.len(),
{
    if calls.len() > 0 {
        the_books_are_always_sound(calls.drop_last());
        let call = calls.last();
        let s = ledger_after(calls.drop_last());
        let t = s.opened(call.timestamp, call.auths);
        assert(t.books() == s.books());
        requests_keep_the_books_sound(t, call.request);
    }
}

/// A subject holds a claim exactly if some attestation about it, whatever the indexes list, makes
/// the claim, is in force and has not been erased.
pub proof fn claims_are_held_by_the_records(s: EnvView, subject: Address, claim: Claim)
    requires
        s.books().sound(),
    ensures
        s.holds(subject, claim) <==> exists|id: Seq<u8>| #[trigger]
            s.proves(id, claim) && s.attestations[id].subject == subject,
{
    let ids = s.subject_ids(subject);
    assert(ids == s.books().about(subject));
    if s.holds(subject, claim) {
        let i = choose|i: int| 0 <= i < ids.len() && s.proves(#[trigger] ids[i], claim);
        assert(s.books().about(subject).contains(ids[i]));
        assert(s.proves(ids[i], claim) && s.attestations[ids[i]].subject == subject);
    }
    if exists|id: Seq<u8>| #[trigger]
        s.proves(id, claim) && s.attestations[id].subject == subject {
        let id = choose|id: Seq<u8>| #[trigger]
            s.proves(id, claim) && s.attestations[id].subject == subject;
        assert(s.books().concerns(subject, id));
        assert(s.books().about(subject).contains(id));
        let i = choose|i: int| 0 <= i < ids.len() && ids[i] == id;
        assert(s.proves(ids[i], claim));
    }
}

impl Books {
    /// Whether no index lists an attestation twice.
    pub open spec fn lists_once(self) -> bool {
        &&& forall|subject: Address| (#[trigger] self.about(subject)).no_duplicates()
        &&& forall|issuer: Address| (#[trigger] self.of(issuer)).no_duplicates()
    }
}

proof fn lemma_write_lists_once(books: Books, write: Write)
    requires
        books.sound(),
        books.lists_once(),
        books.admits(write),
        write matches Write::Agree { record, entry } ==> !books.records.contains_key(record.id),
    ensures
        books.written(write).lists_once(),
{
    let next = books.written(write);
    match write {
        Write::Store { record, entry } => {
            assert(!books.about(record.subject).contains(record.id));
            assert(!books.of(record.issuer).contains(record.id));
            lemma_push_once(books.about(record.subject), record.id);
            lemma_push_once(books.of(record.issuer), record.id);
        },
        Write::Agree { record, entry } => {
            assert(!books.about(record.subject).contains(record.id));
            assert(!books.of(record.issuer).contains(record.id));
            lemma_push_once(books.about(record.subject), record.id);
            lemma_push_once(books.of(record.issuer), record.id);
        },
        Write::Revoke { issuer, id, reason, entry } => {
            lemma_without_once(books.about(books.records[id].subject), id);
            lemma_without_once(books.of(issuer), id);
        },
        Write::Erase { subject, id } => {
            lemma_without_once(books.about(subject), id);
        },
        Write::Renew { issuer, id, expiration, entry } => {},
    }
    assert forall|subject: Address| (#[trigger] next.about(subject)).no_duplicates() by {
        assert(books.about(subject).no_duplicates());
    }
    assert forall|issuer: Address| (#[trigger] next.of(issuer)).no_duplicates() by {
        assert(books.of(issuer).no_duplicates());
    }
}

proof fn lemma_writes_list_once(books: Books, writes: Seq<Write>)
    requires
        books.sound(),
        books.lists_once(),
        books.admits_all(writes),
        forall|i: int| 0 <= i < writes.len() ==> !(#[trigger] writes[i] is Agree),
    ensures
        books.all_written(writes).lists_once(),
    decreases writes.len(),
{
    if writes.len() > 0 {
        let earlier = writes.drop_last();
        assert forall|i: int| 0 <= i < earlier.len() implies !(#[trigger] earlier[i] is Agree) by {
            assert(writes[i] == earlier[i]);
        }
        assert(!(writes[writes.len() - 1] is Agree));
        lemma_writes_are_sound(books, earlier);
        lemma_writes_list_once(books, earlier);
        lemma_write_lists_once(books.all_written(earlier), writes.last());
    }
}

/// No request makes an index list an attestation twice, unless it replaces one.
pub proof fn requests_list_once(s: EnvView, request: Request)
    requires
        s.books().sound(),
        s.books().lists_once(),
        forall|id: Seq<u8>| !#[trigger] request.replaces(s, id),
    ensures
        request.after(s).books().lists_once(),
{
    let writes = request.writes(s);
    requests_are_writes(s, request);
    match request {
        Request::Cosign { issuer, id } => {
            if writes.len() > 0 {
                lemma_last_write(s.books(), writes);
                let record = agreed_record(signed_by(s.multisig_proposals[id], issuer));
                assert(!request.replaces(s, record.id));
                lemma_write_lists_once(s.books(), writes[0]);
            }
        },
        _ => {
            lemma_writes_list_once(s.books(), writes);
        },
    }
}

/// Whether none of the calls replaces an attestation.
pub open spec fn never_replace(calls: Seq<Call>) -> bool
    decreases calls.len(),
{
    calls.len() > 0 ==> {
        let call = calls.last();
        let s = ledger_after(calls.drop_last()).opened(call.timestamp, call.auths);
        &&& never_replace(calls.drop_last())
        &&& forall|id: Seq<u8>| !#[trigger] call.request.replaces(s, id)
    }
}

/// However a registry was used, no index lists an attestation twice, unless one was replaced.
pub proof fn indexes_never_list_twice(calls: Seq<Call>)
    requires
        never_replace(calls),
    ensures
        ledger_after(calls).books().lists_once(),
    decreases calls.len(),
{
    if calls.len() > 0 {
        indexes_never_list_twice(calls.drop_last());
        the_books_are_always_sound(calls.drop_last());
        let call = calls.last();
        let s = ledger_after(calls.drop_last());
        let t = s.opened(call.timestamp, call.auths);
        assert(t.books() == s.books());
        requests_list_once(t, call.request);
    }
}

} // verus!

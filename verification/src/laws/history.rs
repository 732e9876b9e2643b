//! Records, and the logs about them, are kept.

use crate::books::{requests_are_writes, Books, Write};
use crate::env::EnvView;
use crate::laws::indexes::{lemma_same_parties, lemma_writes_are_sound};
use crate::multisig::{agreed_record, signed_by};
use crate::requests::Request;
use crate::types::{AttestationOrigin, AttestationView, AuditAction, AuditEntryView, Error};
use vstd::prelude::*;

verus! {

/// Whether both records say who claimed what about whom, and when.
pub open spec fn same_claim(a: AttestationView, b: AttestationView) -> bool {
    &&& a.id == b.id
    &&& a.issuer == b.issuer
    &&& a.subject == b.subject
    &&& a.claim_type == b.claim_type
    &&& a.timestamp == b.timestamp
}

/// Whether `b` is what can have become of the record `a`: nothing has changed but that it may
/// have been renewed while it was not revoked, revoked once, and erased.
pub open spec fn develops_into(a: AttestationView, b: AttestationView) -> bool {
    &&& same_claim(a, b)
    &&& a.origin == b.origin
    &&& a.metadata == b.metadata
    &&& a.jurisdiction == b.jurisdiction
    &&& a.valid_from == b.valid_from
    &&& a.source_chain == b.source_chain
    &&& a.source_tx == b.source_tx
    &&& a.tags == b.tags
    &&& a.deleted ==> b.deleted
    &&& a.revoked ==> {
        &&& b.revoked
        &&& b.revocation_reason == a.revocation_reason
        &&& b.expiration == a.expiration
    }
}

impl Request {
    /// Whether the request replaces the attestation `id` by one that several issuers agreed on.
    /// That happens where a proposal is completed whose parties, claim and time another
    /// attestation has already.
    pub open spec fn replaces(self, s: EnvView, id: Seq<u8>) -> bool {
        match self {
            Request::Cosign { issuer, id: proposal } => {
                let p = signed_by(s.multisig_proposals[proposal], issuer);
                &&& self.error(s) is None
                &&& p.finalized
                &&& agreed_record(p).id == id
                &&& s.attestations.contains_key(id)
            },
            _ => false,
        }
    }
}

/// Whether one of the writes puts another record in the place of `id`.
spec fn replace(writes: Seq<Write>, id: Seq<u8>) -> bool {
    exists|i: int|
        0 <= i < writes.len() && (#[trigger] writes[i] matches Write::Agree { record, entry }
            && record.id == id)
}

proof fn lemma_writes_keep_records(books: Books, writes: Seq<Write>, id: Seq<u8>)
    requires
        books.sound(),
        books.admits_all(writes),
        books.records.contains_key(id),
    ensures
        books.all_written(writes).records.contains_key(id),
        same_claim(books.records[id], books.all_written(writes).records[id]),
        !replace(writes, id) ==> develops_into(
            books.records[id],
            books.all_written(writes).records[id],
        ),
    decreases writes.len(),
{
    if writes.len() > 0 {
        let earlier = writes.drop_last();
        lemma_writes_keep_records(books, earlier, id);
        lemma_writes_are_sound(books, earlier);
        let before = books.all_written(earlier);
        if !replace(writes, id) {
            assert(!replace(earlier, id)) by {
                if replace(earlier, id) {
                    let i = choose|i: int|
                        0 <= i < earlier.len() && (#[trigger] earlier[i] matches Write::Agree {
                            record,
                            entry,
                        } && record.id == id);
                    assert(writes[i] == earlier[i]);
                }
            }
            assert(!(writes[writes.len() - 1] matches Write::Agree { record, entry } && record.id
                == id));
        }
        match writes.last() {
            Write::Agree { record, entry } => {
                if record.id == id {
                    lemma_same_parties(record, before.records[id]);
                }
            },
            _ => {},
        }
    }
}

/// No request drops a record, or changes who claimed what about whom, and when.
pub proof fn records_are_never_lost(s: EnvView, request: Request, id: Seq<u8>)
    requires
        s.books().sound(),
        s.attestations.contains_key(id),
    ensures
        request.after(s).attestations.contains_key(id),
        same_claim(s.attestations[id], request.after(s).attestations[id]),
{
    requests_are_writes(s, request);
    lemma_writes_keep_records(s.books(), request.writes(s), id);
    assert(s.books().records[id] == s.attestations[id]);
    assert(request.after(s).books().records[id] == request.after(s).attestations[id]);
}

/// A record changes only by renewal, revocation and erasure. Once revoked it stays revoked, for
/// the same reason and with the same expiration; once erased it stays erased.
pub proof fn revocation_and_erasure_are_final(s: EnvView, request: Request, id: Seq<u8>)
    requires
        s.books().sound(),
        s.attestations.contains_key(id),
        !request.replaces(s, id),
    ensures
        develops_into(s.attestations[id], request.after(s).attestations[id]),
{
    requests_are_writes(s, request);
    let writes = request.writes(s);
    assert(!replace(writes, id)) by {
        if replace(writes, id) {
            let i = choose|i: int|
                0 <= i < writes.len() && (#[trigger] writes[i] matches Write::Agree {
                    record,
                    entry,
                } && record.id == id);
            match request {
                Request::Cosign { issuer, id: proposal } => {},
                _ => {},
            }
        }
    }
    lemma_writes_keep_records(s.books(), writes, id);
    assert(s.books().records[id] == s.attestations[id]);
    assert(request.after(s).books().records[id] == request.after(s).attestations[id]);
}

proof fn lemma_writes_extend_logs(books: Books, writes: Seq<Write>, id: Seq<u8>)
    ensures
        books.log(id).is_prefix_of(books.all_written(writes).log(id)),
    decreases writes.len(),
{
    if writes.len() > 0 {
        lemma_writes_extend_logs(books, writes.drop_last(), id);
    }
}

/// The audit logs are append-only: no request changes or drops an entry.
pub proof fn audit_logs_are_append_only(s: EnvView, request: Request, id: Seq<u8>)
    requires
        s.books().sound(),
    ensures
        s.audit_log(id).is_prefix_of(request.after(s).audit_log(id)),
{
    requests_are_writes(s, request);
    lemma_writes_extend_logs(s.books(), request.writes(s), id);
    assert(s.books().log(id) == s.audit_log(id));
    assert(request.after(s).books().log(id) == request.after(s).audit_log(id));
}

/// A single write is all there is to it.
pub proof fn lemma_last_write(books: Books, writes: Seq<Write>)
    requires
        writes.len() == 1,
    ensures
        books.all_written(writes) == books.written(writes[0]),
        books.admits_all(writes) ==> books.admits(writes[0]),
{
    reveal_with_fuel(Books::all_written, 2);
    reveal_with_fuel(Books::admits_all, 2);
}

/// Whether `later` is `log` with one more entry, about the given action.
pub open spec fn entry_added(
    log: Seq<AuditEntryView>,
    later: Seq<AuditEntryView>,
    action: AuditAction,
) -> bool {
    later == log.push(later.last()) && later.last().action == action
}

/// Whether what happened to the attestation `id` between two states of the books has been
/// logged: one entry if it was made or revoked, none if not.
spec fn logged_between(books: Books, later: Books, id: Seq<u8>) -> bool {
    let before = books.log(id);
    let after = later.log(id);
    if !later.records.contains_key(id) {
        after == before
    } else if !books.records.contains_key(id) {
        entry_added(before, after, AuditAction::Created)
    } else if later.records[id].revoked && !books.records[id].revoked {
        &&& entry_added(before, after, AuditAction::Revoked)
        &&& after.last().actor == later.records[id].issuer
        &&& after.last().details == later.records[id].revocation_reason
    } else {
        after == before
    }
}

proof fn lemma_stores_are_logged(books: Books, writes: Seq<Write>, id: Seq<u8>)
    requires
        books.admits_all(writes),
        forall|i: int| 0 <= i < writes.len() ==> #[trigger] writes[i] is Store,
    ensures
        logged_between(books, books.all_written(writes), id),
        books.records.contains_key(id) ==> books.all_written(writes).records.contains_key(id)
            && books.all_written(writes).records[id] == books.records[id],
    decreases writes.len(),
{
    if writes.len() > 0 {
        let earlier = writes.drop_last();
        assert forall|i: int| 0 <= i < earlier.len() implies #[trigger] earlier[i] is Store by {
            assert(writes[i] == earlier[i]);
        }
        assert(writes[writes.len() - 1] is Store);
        lemma_stores_are_logged(books, earlier, id);
    }
}

proof fn lemma_revocations_are_logged(books: Books, writes: Seq<Write>, id: Seq<u8>)
    requires
        books.sound(),
        books.admits_all(writes),
        forall|i: int| 0 <= i < writes.len() ==> #[trigger] writes[i] is Revoke,
    ensures
        logged_between(books, books.all_written(writes), id),
        books.all_written(writes).records.contains_key(id) == books.records.contains_key(id),
        books.records.contains_key(id) && books.records[id].revoked ==> books.all_written(
            writes,
        ).records[id] == books.records[id],
    decreases writes.len(),
{
    if writes.len() > 0 {
        let earlier = writes.drop_last();
        assert forall|i: int| 0 <= i < earlier.len() implies #[trigger] earlier[i] is Revoke by {
            assert(writes[i] == earlier[i]);
        }
        assert(writes[writes.len() - 1] is Revoke);
        lemma_revocations_are_logged(books, earlier, id);
        lemma_writes_are_sound(books, earlier);
        let before = books.all_written(earlier);
        if let Write::Revoke { issuer, id: target, reason, entry } = writes.last() {
            assert(before.records[target].id == target);
        }
    }
}

/// The audit log of an attestation has one entry per change of state. Its creation, in whatever
/// way, adds an entry that says so; its revocation adds one that names the issuer and the
/// reason; a renewal adds one; and nothing else adds any, unless another record takes the place
/// of the attestation.
pub proof fn state_changes_are_logged(s: EnvView, request: Request, id: Seq<u8>)
    requires
        s.books().sound(),
        !request.replaces(s, id),
    ensures
        ({
            let t = request.after(s);
            let before = s.audit_log(id);
            let after = t.audit_log(id);
            if !t.attestations.contains_key(id) {
                after == before
            } else if !s.attestations.contains_key(id) {
                entry_added(before, after, AuditAction::Created)
            } else if t.attestations[id].revoked && !s.attestations[id].revoked {
                &&& entry_added(before, after, AuditAction::Revoked)
                &&& after.last().actor == t.attestations[id].issuer
                &&& after.last().details == t.attestations[id].revocation_reason
            } else if request.error(s) is None && request is Renew && request->Renew_id == id {
                &&& entry_added(before, after, AuditAction::Renewed)
                &&& after.last().actor == t.attestations[id].issuer
            } else {
                after == before
            }
        }),
{
    let t = request.after(s);
    let books = s.books();
    let writes = request.writes(s);
    requests_are_writes(s, request);
    assert(books.log(id) == s.audit_log(id));
    assert(t.books().log(id) == t.audit_log(id));
    assert(t.books().records == t.attestations);
    assert(books.records == s.attestations);
    match request {
        Request::RevokeBatch { .. } => {
            lemma_revocations_are_logged(books, writes, id);
        },
        Request::Revoke { .. } => {
            lemma_revocations_are_logged(books, writes, id);
        },
        Request::RequestDeletion { subject, id: target } => {
            if writes.len() > 0 {
                lemma_last_write(books, writes);
            }
        },
        Request::Renew { issuer, id: target, expiration } => {
            if writes.len() > 0 {
                lemma_last_write(books, writes);
            }
        },
        Request::Cosign { .. } => {
            if writes.len() > 0 {
                lemma_last_write(books, writes);
            }
        },
        _ => {
            lemma_stores_are_logged(books, writes, id);
        },
    }
}

/// A request that is refused changes nothing, not even in part.
pub proof fn refused_requests_change_nothing(s: EnvView, request: Request)
    requires
        request.error(s) is Some,
    ensures
        request.after(s) == s,
{
    reveal(Request::after);
}

/// While attestation writes are paused, every request to write attestations is refused for that
/// reason, and nothing else changes them.
pub proof fn pause_freezes_attestations(s: EnvView, request: Request)
    requires
        s.paused,
        s.books().sound(),
    ensures
        request.writes_attestations() ==> request.error(s) == Some(Error::ContractPaused),
        request.after(s).books() == s.books(),
{
    requests_are_writes(s, request);
    if request.writes_attestations() {
        lemma_pause_refuses(s, request);
    }
    assert(request.writes(s) =~= Seq::empty());
}

proof fn lemma_pause_refuses(s: EnvView, request: Request)
    requires
        s.paused,
        request.writes_attestations(),
    ensures
        request.error(s) == Some(Error::ContractPaused),
{
    reveal(Request::error);
}

proof fn lemma_new_records(
    books: Books,
    writes: Seq<Write>,
    id: Seq<u8>,
    origin: AttestationOrigin,
)
    requires
        books.sound(),
        books.admits_all(writes),
        forall|i: int|
            #![trigger writes[i]]
            0 <= i < writes.len() ==> {
                &&& writes[i] matches Write::Store { record, entry } ==> record.origin == origin
                &&& writes[i] matches Write::Agree { record, entry } ==> record.origin == origin
            },
        !books.records.contains_key(id),
        books.all_written(writes).records.contains_key(id),
    ensures
        books.all_written(writes).records[id].origin == origin,
    decreases writes.len(),
{
    if writes.len() > 0 {
        let earlier = writes.drop_last();
        assert forall|i: int| #![trigger earlier[i]] 0 <= i < earlier.len() implies {
            &&& earlier[i] matches Write::Store { record, entry } ==> record.origin == origin
            &&& earlier[i] matches Write::Agree { record, entry } ==> record.origin == origin
        } by {
            assert(writes[i] == earlier[i]);
        }
        lemma_writes_are_sound(books, earlier);
        let before = books.all_written(earlier);
        assert(writes[writes.len() - 1] == writes.last());
        if before.records.contains_key(id) {
            lemma_new_records(books, earlier, id, origin);
        }
    }
}

/// The origin of an attestation tells how it came in: it is imported exactly if an administrator
/// imported it, mirrored exactly if a bridge contract mirrored it, and native otherwise.
pub proof fn origins_tell_the_way_in(s: EnvView, request: Request, id: Seq<u8>)
    requires
        s.books().sound(),
        !s.attestations.contains_key(id),
        request.after(s).attestations.contains_key(id),
    ensures
        request.after(s).attestations[id].origin == match request {
            Request::Import { .. } => AttestationOrigin::Imported,
            Request::Bridge { .. } => AttestationOrigin::Bridged,
            _ => AttestationOrigin::Native,
        },
{
    requests_are_writes(s, request);
    let origin = match request {
        Request::Import { .. } => AttestationOrigin::Imported,
        Request::Bridge { .. } => AttestationOrigin::Bridged,
        _ => AttestationOrigin::Native,
    };
    assert(request.after(s).books().records == request.after(s).attestations);
    assert(s.books().records == s.attestations);
    lemma_new_records(s.books(), request.writes(s), id, origin);
}

} // verus!

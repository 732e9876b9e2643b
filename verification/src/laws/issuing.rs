//! What the requests that make attestations do to the ledger.

use crate::address::Address;
use crate::env::EnvView;
use crate::events::{EffectView, EventView};
use crate::ident::{attestation_id, attestation_id_is_injective, bridge_id};
use crate::issuance::Draft;
use crate::laws::scope::{lemma_batch_scope, same_but_books};
use crate::storage::StorageKeyView;
use crate::types::{
    AttestationOrigin, AttestationView, AuditAction, AuditEntryView, Error, GlobalStats,
    IssuerStats,
};
use crate::validation::{claim_type_error, jurisdiction_error, metadata_error, tags_error};
use vstd::prelude::*;

verus! {

/// An issuer is held up by the rate limit exactly if there is one, it has issued before, and less
/// than the interval has passed since.
pub proof fn the_rate_limit_holds_up(s: EnvView, issuer: Address)
    ensures
        ({
            let held_up = {
                &&& s.rate_limit is Some
                &&& s.last_issuance.contains_key(issuer)
                &&& s.rate_limit->0.min_issuance_interval > 0
                &&& s.timestamp < s.last_issuance[issuer] + s.rate_limit->0.min_issuance_interval
            };
            &&& held_up ==> s.rate_error(issuer) == Some(Error::RateLimited)
            &&& !held_up ==> s.rate_error(issuer) is None
        }),
{
}

/// There is room for so many more attestations of an issuer, and for one more about a subject,
/// exactly if they stay within the limits in force; the largest limit that can be set is none for
/// an issuer.
pub proof fn limits_leave_room(s: EnvView, party: Address, count: nat)
    ensures
        ({
            let most = s.limits_in_force().max_attestations_per_issuer;
            let room = s.issuer_ids(party).len() + count <= most || most == u32::MAX;
            &&& room ==> s.issuer_limit_error(party, count) is None
            &&& !room ==> s.issuer_limit_error(party, count) == Some(Error::LimitExceeded)
        }),
        ({
            let room = s.subject_ids(party).len()
                < s.limits_in_force().max_attestations_per_subject;
            &&& room ==> s.subject_limit_error(party) is None
            &&& !room ==> s.subject_limit_error(party) == Some(Error::LimitExceeded)
        }),
{
}

/// A fee can be charged exactly if there are fee settings, the fee is not negative, and a fee
/// other than zero names its token.
pub proof fn fees_can_be_charged(s: EnvView)
    ensures
        s.fee_config is None ==> s.fee_error() == Some(Error::NotInitialized),
        s.fee_config is Some && s.fee_config->0.attestation_fee < 0 ==> s.fee_error() == Some(
            Error::InvalidFee,
        ),
        s.fee_config is Some && s.fee_config->0.attestation_fee > 0
            && s.fee_config->0.fee_token is None ==> s.fee_error() == Some(
            Error::FeeTokenRequired,
        ),
        s.fee_config is Some && s.fee_config->0.attestation_fee == 0 ==> s.fee_error() is None,
        s.fee_config is Some && s.fee_config->0.attestation_fee > 0
            && s.fee_config->0.fee_token is Some ==> s.fee_error() is None,
{
}

/// An issuer can create an attestation exactly if writes are open, it is registered, the draft is
/// in order, it is not about the issuer itself, the subject is on the whitelist where that counts,
/// the rate limit does not hold the issuer up, there is room, there is no such attestation yet,
/// and the fee can be charged. Otherwise the first of these that fails is the reason.
pub proof fn what_a_creation_takes(s: EnvView, draft: Draft)
    ensures
        ({
            let id = attestation_id(draft.issuer, draft.subject, draft.claim_type, s.timestamp);
            let most = s.limits_in_force().max_attestations_per_issuer;
            let error = s.create_error(draft);
            let a0 = !s.paused;
            let a1 = a0 && s.issuers.contains_key(draft.issuer);
            let a2 = a1 && claim_type_error(draft.claim_type) is None;
            let a3 = a2 && metadata_error(draft.metadata) is None;
            let a4 = a3 && jurisdiction_error(draft.jurisdiction) is None;
            let a5 = a4 && tags_error(draft.tags) is None;
            let a6 = a5 && (draft.expiration is None || draft.expiration->0 > s.timestamp);
            let a7 = a6 && draft.issuer != draft.subject;
            let a8 = a7 && (!s.whitelist_mode(draft.issuer) || s.whitelist.contains_key(
                (draft.issuer, draft.subject),
            ));
            let a9 = a8 && s.rate_error(draft.issuer) is None;
            let a10 = a9 && (s.issuer_ids(draft.issuer).len() + 1 <= most || most == u32::MAX);
            let a11 = a10 && !s.attestations.contains_key(id);
            let a12 = a11 && s.subject_ids(draft.subject).len()
                < s.limits_in_force().max_attestations_per_subject;
            let a13 = a12 && s.fee_error() is None;
            &&& a13 ==> error is None
            &&& !a0 ==> error == Some(Error::ContractPaused)
            &&& a0 && !a1 ==> error == Some(Error::Unauthorized)
            &&& a1 && !a2 ==> error == claim_type_error(draft.claim_type)
            &&& a2 && !a3 ==> error == metadata_error(draft.metadata)
            &&& a3 && !a4 ==> error == jurisdiction_error(draft.jurisdiction)
            &&& a4 && !a5 ==> error == tags_error(draft.tags)
            &&& a5 && !a6 ==> error == Some(Error::InvalidExpiration)
            &&& a6 && !a7 ==> error == Some(Error::Unauthorized)
            &&& a7 && !a8 ==> error == Some(Error::SubjectNotWhitelisted)
            &&& a8 && !a9 ==> error == Some(Error::RateLimited)
            &&& a9 && !a10 ==> error == Some(Error::LimitExceeded)
            &&& a10 && !a11 ==> error == Some(Error::DuplicateAttestation)
            &&& a11 && !a12 ==> error == Some(Error::LimitExceeded)
            &&& a12 && !a13 ==> error == s.fee_error()
        }),
{
}

/// A creation puts one record on the ledger, with exactly what the draft says: its issuer,
/// subject, claim type, expiration, metadata, jurisdiction and tags, made now, native, neither
/// revoked nor erased. It is listed last for its subject and for its issuer, counted once for the
/// issuer and once overall, and logged as made by the issuer; the time of issuance is noted;
/// observers are told, the fee, if any, is transferred from the issuer to the collector, and
/// observers are told again. Nothing else changes.
pub proof fn what_a_creation_does(s: EnvView, draft: Draft)
    ensures
        ({
            let id = attestation_id(draft.issuer, draft.subject, draft.claim_type, s.timestamp);
            let a = AttestationView {
                id,
                issuer: draft.issuer,
                subject: draft.subject,
                claim_type: draft.claim_type,
                timestamp: s.timestamp,
                expiration: draft.expiration,
                revoked: false,
                deleted: false,
                metadata: draft.metadata,
                jurisdiction: draft.jurisdiction,
                valid_from: None,
                origin: AttestationOrigin::Native,
                source_chain: None,
                source_tx: None,
                tags: draft.tags,
                revocation_reason: None,
            };
            let entry = AuditEntryView {
                action: AuditAction::Created,
                actor: draft.issuer,
                timestamp: s.timestamp,
                details: None,
            };
            let told = EffectView::Publish(EventView::AttestationCreated(a));
            let config = s.fee_config->0;
            let t = s.created(draft);
            &&& t == (EnvView {
                attestations: s.attestations.insert(id, a),
                subject_attestations: s.subject_attestations.insert(
                    draft.subject,
                    s.subject_ids(draft.subject).push(id),
                ),
                issuer_attestations: s.issuer_attestations.insert(
                    draft.issuer,
                    s.issuer_ids(draft.issuer).push(id),
                ),
                issuer_stats: s.issuer_stats.insert(
                    draft.issuer,
                    IssuerStats {
                        total_issued: (s.stats_of(draft.issuer).total_issued + 1) as u64,
                    },
                ),
                global_stats: GlobalStats {
                    total_attestations: if s.global_stats.total_attestations < u64::MAX {
                        (s.global_stats.total_attestations + 1) as u64
                    } else {
                        u64::MAX
                    },
                    ..s.global_stats
                },
                audit_logs: s.audit_logs.insert(id, s.audit_log(id).push(entry)),
                last_issuance: s.last_issuance.insert(draft.issuer, s.timestamp),
                instance_ttl: s.extend_instance(s.lifetime()).instance_ttl,
                lifetimes: s.extend(StorageKeyView::Attestation(id), s.lifetime()).extend(
                    StorageKeyView::SubjectAttestations(draft.subject),
                    s.lifetime(),
                ).extend(StorageKeyView::IssuerAttestations(draft.issuer), s.lifetime()).extend(
                    StorageKeyView::IssuerStats(draft.issuer),
                    s.lifetime(),
                ).extend(StorageKeyView::AuditLog(id), s.lifetime()).extend(
                    StorageKeyView::LastIssuance(draft.issuer),
                    s.lifetime(),
                ).lifetimes,
                effects: t.effects,
                ..s
            })
            &&& config.attestation_fee <= 0 ==> t.effects == s.effects.push(told).push(told)
            &&& config.attestation_fee > 0 ==> t.effects == s.effects.push(told).push(
                EffectView::Transfer {
                    token: config.fee_token->0,
                    from: draft.issuer,
                    to: config.fee_collector,
                    amount: config.attestation_fee,
                },
            ).push(told)
        }),
{
}

/// The fee that is charged on its own is the one in the settings, paid by the issuer, once.
pub proof fn what_a_charge_does(s: EnvView, issuer: Address)
    ensures
        s.fee_config->0.attestation_fee <= 0 ==> s.charged(issuer) == s,
        s.fee_config->0.attestation_fee > 0 ==> s.charged(issuer) == (EnvView {
            effects: s.effects.push(
                EffectView::Transfer {
                    token: s.fee_config->0.fee_token->0,
                    from: issuer,
                    to: s.fee_config->0.fee_collector,
                    amount: s.fee_config->0.attestation_fee,
                },
            ),
            ..s
        }),
{
}

/// Storing a record lists it last for its subject and for its issuer and counts it, whatever the
/// record is.
pub proof fn what_storing_does(s: EnvView, a: AttestationView)
    ensures
        ({
            let id = a.id;
            s.stored(a) == EnvView {
                attestations: s.attestations.insert(id, a),
                subject_attestations: s.subject_attestations.insert(
                    a.subject,
                    s.subject_ids(a.subject).push(id),
                ),
                issuer_attestations: s.issuer_attestations.insert(
                    a.issuer,
                    s.issuer_ids(a.issuer).push(id),
                ),
                issuer_stats: s.issuer_stats.insert(
                    a.issuer,
                    IssuerStats {
                        total_issued: (s.stats_of(a.issuer).total_issued + 1) as u64,
                    },
                ),
                global_stats: GlobalStats {
                    total_attestations: if s.global_stats.total_attestations < u64::MAX {
                        (s.global_stats.total_attestations + 1) as u64
                    } else {
                        u64::MAX
                    },
                    ..s.global_stats
                },
                instance_ttl: s.extend_instance(s.lifetime()).instance_ttl,
                lifetimes: s.stored(a).lifetimes,
                ..s
            }
        }),
{
}

/// An administrator can import an attestation of a registered issuer exactly if writes are open,
/// it was not made in the future, expires after it was made, and is not there yet.
pub proof fn what_an_import_takes(
    s: EnvView,
    admin: Address,
    issuer: Address,
    subject: Address,
    claim_type: Seq<u8>,
    timestamp: u64,
    expiration: Option<u64>,
)
    ensures
        ({
            let id = attestation_id(issuer, subject, claim_type, timestamp);
            let error = s.import_error(admin, issuer, subject, claim_type, timestamp, expiration);
            let a0 = !s.paused;
            let a1 = a0 && s.admin_error(admin) is None;
            let a2 = a1 && s.issuers.contains_key(issuer);
            let a3 = a2 && timestamp <= s.timestamp;
            let a4 = a3 && (expiration is None || expiration->0 > timestamp);
            let a5 = a4 && !s.attestations.contains_key(id);
            &&& a5 ==> error is None
            &&& !a0 ==> error == Some(Error::ContractPaused)
            &&& a0 && !a1 ==> error == s.admin_error(admin)
            &&& a1 && !a2 ==> error == Some(Error::Unauthorized)
            &&& a2 && !a3 ==> error == Some(Error::InvalidTimestamp)
            &&& a3 && !a4 ==> error == Some(Error::InvalidExpiration)
            &&& a4 && !a5 ==> error == Some(Error::DuplicateAttestation)
        }),
{
}

/// An import puts one record on the ledger, as it was made elsewhere: with the given time and
/// expiration, marked as imported. It is listed, counted and logged like any other, as made by
/// the administrator at the given time; observers are told. Nothing else changes.
pub proof fn what_an_import_does(
    s: EnvView,
    admin: Address,
    issuer: Address,
    subject: Address,
    claim_type: Seq<u8>,
    timestamp: u64,
    expiration: Option<u64>,
)
    ensures
        ({
            let id = attestation_id(issuer, subject, claim_type, timestamp);
            let a = AttestationView {
                id,
                issuer,
                subject,
                claim_type,
                timestamp,
                expiration,
                revoked: false,
                deleted: false,
                metadata: None,
                jurisdiction: None,
                valid_from: None,
                origin: AttestationOrigin::Imported,
                source_chain: None,
                source_tx: None,
                tags: None,
                revocation_reason: None,
            };
            let entry = AuditEntryView {
                action: AuditAction::Created,
                actor: admin,
                timestamp,
                details: None,
            };
            s.imported(admin, issuer, subject, claim_type, timestamp, expiration) == EnvView {
                attestations: s.attestations.insert(id, a),
                subject_attestations: s.subject_attestations.insert(
                    subject,
                    s.subject_ids(subject).push(id),
                ),
                issuer_attestations: s.issuer_attestations.insert(
                    issuer,
                    s.issuer_ids(issuer).push(id),
                ),
                issuer_stats: s.issuer_stats.insert(
                    issuer,
                    IssuerStats {
                        total_issued: (s.stats_of(issuer).total_issued + 1) as u64,
                    },
                ),
                global_stats: GlobalStats {
                    total_attestations: if s.global_stats.total_attestations < u64::MAX {
                        (s.global_stats.total_attestations + 1) as u64
                    } else {
                        u64::MAX
                    },
                    ..s.global_stats
                },
                audit_logs: s.audit_logs.insert(id, s.audit_log(id).push(entry)),
                instance_ttl: s.extend_instance(s.lifetime()).instance_ttl,
                lifetimes: s.extend(StorageKeyView::Attestation(id), s.lifetime()).extend(
                    StorageKeyView::SubjectAttestations(subject),
                    s.lifetime(),
                ).extend(StorageKeyView::IssuerAttestations(issuer), s.lifetime()).extend(
                    StorageKeyView::IssuerStats(issuer),
                    s.lifetime(),
                ).extend(StorageKeyView::AuditLog(id), s.lifetime()).lifetimes,
                effects: s.effects.push(EffectView::Publish(EventView::AttestationImported(a))),
                ..s
            }
        }),
{
}

/// A registered bridge contract can mirror an attestation exactly if writes are open and it is not
/// there yet.
pub proof fn what_mirroring_takes(s: EnvView, bridge: Address, id: Seq<u8>)
    ensures
        s.paused ==> s.bridging_error(bridge, id) == Some(Error::ContractPaused),
        !s.paused && !s.bridges.contains_key(bridge) ==> s.bridging_error(bridge, id) == Some(
            Error::Unauthorized,
        ),
        !s.paused && s.bridges.contains_key(bridge) && s.attestations.contains_key(id)
            ==> s.bridging_error(bridge, id) == Some(Error::DuplicateAttestation),
        !s.paused && s.bridges.contains_key(bridge) && !s.attestations.contains_key(id)
            ==> s.bridging_error(bridge, id) is None,
{
}

/// Mirroring puts one record on the ledger, of the bridge contract, made now, without expiration,
/// marked as mirrored and with its source. It is listed, counted and logged like any other;
/// observers are told. Nothing else changes.
pub proof fn what_mirroring_does(
    s: EnvView,
    bridge: Address,
    subject: Address,
    claim_type: Seq<u8>,
    source_chain: Seq<u8>,
    source_tx: Seq<u8>,
)
    ensures
        ({
            let id = bridge_id(bridge, subject, claim_type, source_chain, source_tx, s.timestamp);
            let a = AttestationView {
                id,
                issuer: bridge,
                subject,
                claim_type,
                timestamp: s.timestamp,
                expiration: None,
                revoked: false,
                deleted: false,
                metadata: None,
                jurisdiction: None,
                valid_from: None,
                origin: AttestationOrigin::Bridged,
                source_chain: Some(source_chain),
                source_tx: Some(source_tx),
                tags: None,
                revocation_reason: None,
            };
            let entry = AuditEntryView {
                action: AuditAction::Created,
                actor: bridge,
                timestamp: s.timestamp,
                details: None,
            };
            s.bridged(bridge, subject, claim_type, source_chain, source_tx) == EnvView {
                attestations: s.attestations.insert(id, a),
                subject_attestations: s.subject_attestations.insert(
                    subject,
                    s.subject_ids(subject).push(id),
                ),
                issuer_attestations: s.issuer_attestations.insert(
                    bridge,
                    s.issuer_ids(bridge).push(id),
                ),
                issuer_stats: s.issuer_stats.insert(
                    bridge,
                    IssuerStats {
                        total_issued: (s.stats_of(bridge).total_issued + 1) as u64,
                    },
                ),
                global_stats: GlobalStats {
                    total_attestations: if s.global_stats.total_attestations < u64::MAX {
                        (s.global_stats.total_attestations + 1) as u64
                    } else {
                        u64::MAX
                    },
                    ..s.global_stats
                },
                audit_logs: s.audit_logs.insert(id, s.audit_log(id).push(entry)),
                instance_ttl: s.extend_instance(s.lifetime()).instance_ttl,
                lifetimes: s.extend(StorageKeyView::Attestation(id), s.lifetime()).extend(
                    StorageKeyView::SubjectAttestations(subject),
                    s.lifetime(),
                ).extend(StorageKeyView::IssuerAttestations(bridge), s.lifetime()).extend(
                    StorageKeyView::IssuerStats(bridge),
                    s.lifetime(),
                ).extend(StorageKeyView::AuditLog(id), s.lifetime()).lifetimes,
                effects: s.effects.push(EffectView::Publish(EventView::AttestationBridged(a))),
                ..s
            }
        }),
{
}

/// A batch gives one identifier per subject, in order.
pub proof fn a_batch_has_one_identifier_per_subject(
    s: EnvView,
    issuer: Address,
    subjects: Seq<Address>,
    claim_type: Seq<u8>,
)
    ensures
        s.batch_ids(issuer, subjects, claim_type).len() == subjects.len(),
        forall|i: int|
            0 <= i < subjects.len() ==> #[trigger] s.batch_ids(issuer, subjects, claim_type)[i]
                == attestation_id(issuer, subjects[i], claim_type, s.timestamp),
{
}

proof fn lemma_batch_item_fits(
    s: EnvView,
    issuer: Address,
    subjects: Seq<Address>,
    claim_type: Seq<u8>,
)
    requires
        subjects.no_duplicates(),
        forall|i: int|
            0 <= i < subjects.len() ==> !s.attestations.contains_key(
                attestation_id(issuer, #[trigger] subjects[i], claim_type, s.timestamp),
            ) && s.subject_ids(subjects[i]).len()
                < s.limits_in_force().max_attestations_per_subject,
    ensures
        s.batch_items_error(issuer, subjects, claim_type) is None,
    decreases subjects.len(),
{
    if subjects.len() > 0 {
        let earlier = subjects.drop_last();
        let last = subjects.last();
        assert forall|i: int| 0 <= i < earlier.len() implies !s.attestations.contains_key(
            attestation_id(issuer, #[trigger] earlier[i], claim_type, s.timestamp),
        ) && s.subject_ids(earlier[i]).len()
            < s.limits_in_force().max_attestations_per_subject by {
            assert(earlier[i] == subjects[i]);
        }
        assert(earlier.no_duplicates());
        lemma_batch_item_fits(s, issuer, earlier, claim_type);
        let id = attestation_id(issuer, last, claim_type, s.timestamp);
        let ids = s.batch_ids(issuer, earlier, claim_type);
        assert(subjects[subjects.len() - 1] == last);
        assert(!ids.contains(id)) by {
            if ids.contains(id) {
                let i = choose|i: int| 0 <= i < ids.len() && ids[i] == id;
                assert(ids[i] == attestation_id(issuer, earlier[i], claim_type, s.timestamp));
                attestation_id_is_injective(
                    issuer,
                    earlier[i],
                    claim_type,
                    s.timestamp,
                    issuer,
                    last,
                    claim_type,
                    s.timestamp,
                );
                assert(subjects[i] == subjects[subjects.len() - 1]);
            }
        }
    }
}

proof fn lemma_batch_error_at(
    s: EnvView,
    issuer: Address,
    subjects: Seq<Address>,
    claim_type: Seq<u8>,
    at: int,
)
    requires
        0 <= at < subjects.len(),
        s.batch_items_error(issuer, subjects.take(at + 1), claim_type) is Some,
    ensures
        s.batch_items_error(issuer, subjects, claim_type) == s.batch_items_error(
            issuer,
            subjects.take(at + 1),
            claim_type,
        ),
    decreases subjects.len(),
{
    if at + 1 == subjects.len() {
        assert(subjects.take(at + 1) =~= subjects);
    } else {
        assert(subjects.drop_last().take(at + 1) =~= subjects.take(at + 1));
        lemma_batch_error_at(s, issuer, subjects.drop_last(), claim_type, at);
    }
}

/// An issuer can make a batch if writes are open, it is registered, the claim type and the
/// expiration are in order, the rate limit does not hold it up, there is room for the whole batch,
/// the subjects are all different, no such attestation is there yet, and each subject has room.
pub proof fn what_a_batch_takes(
    s: EnvView,
    issuer: Address,
    subjects: Seq<Address>,
    claim_type: Seq<u8>,
    expiration: Option<u64>,
)
    requires
        !s.paused,
        s.issuers.contains_key(issuer),
        claim_type_error(claim_type) is None,
        expiration is None || expiration->0 > s.timestamp,
        s.rate_error(issuer) is None,
        s.issuer_ids(issuer).len() + subjects.len()
            <= s.limits_in_force().max_attestations_per_issuer
            || s.limits_in_force().max_attestations_per_issuer == u32::MAX,
        subjects.no_duplicates(),
        forall|i: int|
            0 <= i < subjects.len() ==> !s.attestations.contains_key(
                attestation_id(issuer, #[trigger] subjects[i], claim_type, s.timestamp),
            ) && s.subject_ids(subjects[i]).len()
                < s.limits_in_force().max_attestations_per_subject,
    ensures
        s.batch_error(issuer, subjects, claim_type, expiration) is None,
{
    lemma_batch_item_fits(s, issuer, subjects, claim_type);
}

/// A batch is refused while writes are paused, to others than registered issuers, for a claim type
/// or an expiration out of order, while the rate limit holds the issuer up, and where there is no
/// room for all of it, in this order.
pub proof fn when_a_batch_is_refused_as_a_whole(
    s: EnvView,
    issuer: Address,
    subjects: Seq<Address>,
    claim_type: Seq<u8>,
    expiration: Option<u64>,
)
    ensures
        ({
            let most = s.limits_in_force().max_attestations_per_issuer;
            let error = s.batch_error(issuer, subjects, claim_type, expiration);
            let a0 = !s.paused;
            let a1 = a0 && s.issuers.contains_key(issuer);
            let a2 = a1 && claim_type_error(claim_type) is None;
            let a3 = a2 && (expiration is None || expiration->0 > s.timestamp);
            let a4 = a3 && s.rate_error(issuer) is None;
            let a5 = a4 && (s.issuer_ids(issuer).len() + subjects.len() <= most || most
                == u32::MAX);
            &&& !a0 ==> error == Some(Error::ContractPaused)
            &&& a0 && !a1 ==> error == Some(Error::Unauthorized)
            &&& a1 && !a2 ==> error == claim_type_error(claim_type)
            &&& a2 && !a3 ==> error == Some(Error::InvalidExpiration)
            &&& a3 && !a4 ==> error == Some(Error::RateLimited)
            &&& a4 && !a5 ==> error == Some(Error::LimitExceeded)
            &&& error is None ==> a5
        }),
{
}

/// Where nothing speaks against the batch as a whole nor against the subjects before it, a
/// subject that comes a second time, or about whom there is such an attestation already, has the
/// batch refused as a duplicate, and one without room for the limit.
pub proof fn when_a_subject_has_a_batch_refused(
    s: EnvView,
    issuer: Address,
    subjects: Seq<Address>,
    claim_type: Seq<u8>,
    expiration: Option<u64>,
    at: int,
)
    requires
        !s.paused,
        s.issuers.contains_key(issuer),
        claim_type_error(claim_type) is None,
        expiration is None || expiration->0 > s.timestamp,
        s.rate_error(issuer) is None,
        s.issuer_ids(issuer).len() + subjects.len()
            <= s.limits_in_force().max_attestations_per_issuer
            || s.limits_in_force().max_attestations_per_issuer == u32::MAX,
        0 <= at < subjects.len(),
        subjects.take(at).no_duplicates(),
        forall|i: int|
            0 <= i < at ==> !s.attestations.contains_key(
                attestation_id(issuer, #[trigger] subjects[i], claim_type, s.timestamp),
            ) && s.subject_ids(subjects[i]).len()
                < s.limits_in_force().max_attestations_per_subject,
    ensures
        ({
            let id = attestation_id(issuer, subjects[at], claim_type, s.timestamp);
            let again = s.attestations.contains_key(id) || subjects.take(at).contains(subjects[at]);
            let error = s.batch_error(issuer, subjects, claim_type, expiration);
            &&& again ==> error == Some(Error::DuplicateAttestation)
            &&& !again && s.subject_ids(subjects[at]).len()
                >= s.limits_in_force().max_attestations_per_subject ==> error == Some(
                Error::LimitExceeded,
            )
        }),
{
    let before = subjects.take(at);
    let upto = subjects.take(at + 1);
    let id = attestation_id(issuer, subjects[at], claim_type, s.timestamp);
    let ids = s.batch_ids(issuer, before, claim_type);
    assert forall|i: int| 0 <= i < before.len() implies !s.attestations.contains_key(
        attestation_id(issuer, #[trigger] before[i], claim_type, s.timestamp),
    ) && s.subject_ids(before[i]).len() < s.limits_in_force().max_attestations_per_subject by {
        assert(before[i] == subjects[i]);
    }
    lemma_batch_item_fits(s, issuer, before, claim_type);
    assert(upto.drop_last() =~= before);
    assert(upto.last() == subjects[at]);
    if before.contains(subjects[at]) {
        let i = choose|i: int| 0 <= i < before.len() && before[i] == subjects[at];
        assert(ids[i] == id);
    }
    if ids.contains(id) {
        let i = choose|i: int| 0 <= i < ids.len() && ids[i] == id;
        attestation_id_is_injective(
            issuer,
            before[i],
            claim_type,
            s.timestamp,
            issuer,
            subjects[at],
            claim_type,
            s.timestamp,
        );
        assert(before.contains(before[i]));
    }
    if s.batch_items_error(issuer, upto, claim_type) is Some {
        lemma_batch_error_at(s, issuer, subjects, claim_type, at);
    }
}

/// A batch puts one record per subject on the ledger, native, made now, with the given claim type
/// and expiration and nothing more, logs each as made by the issuer, and leaves every other record
/// and log alone.
pub proof fn what_a_batch_does_to_a_record(
    s: EnvView,
    issuer: Address,
    subjects: Seq<Address>,
    claim_type: Seq<u8>,
    expiration: Option<u64>,
    id: Seq<u8>,
)
    requires
        s.batch_items_error(issuer, subjects, claim_type) is None,
    ensures
        ({
            let t = s.batch_created(issuer, subjects, claim_type, expiration);
            &&& forall|i: int|
                0 <= i < subjects.len() && id == attestation_id(
                    issuer,
                    #[trigger] subjects[i],
                    claim_type,
                    s.timestamp,
                ) ==> {
                    &&& t.attestations.contains_key(id)
                    &&& t.attestations[id] == AttestationView {
                        id,
                        issuer,
                        subject: subjects[i],
                        claim_type,
                        timestamp: s.timestamp,
                        expiration,
                        revoked: false,
                        deleted: false,
                        metadata: None,
                        jurisdiction: None,
                        valid_from: None,
                        origin: AttestationOrigin::Native,
                        source_chain: None,
                        source_tx: None,
                        tags: None,
                        revocation_reason: None,
                    }
                    &&& t.audit_log(id) == s.audit_log(id).push(
                        AuditEntryView {
                            action: AuditAction::Created,
                            actor: issuer,
                            timestamp: s.timestamp,
                            details: None,
                        },
                    )
                }
            &&& (forall|i: int|
                0 <= i < subjects.len() ==> id != attestation_id(
                    issuer,
                    #[trigger] subjects[i],
                    claim_type,
                    s.timestamp,
                )) ==> {
                &&& t.attestations.contains_key(id) == s.attestations.contains_key(id)
                &&& t.attestations[id] == s.attestations[id]
                &&& t.audit_log(id) == s.audit_log(id)
            }
        }),
    decreases subjects.len(),
{
    if subjects.len() > 0 {
        let earlier = subjects.drop_last();
        let last = subjects.last();
        let before = s.batch_items(issuer, earlier, claim_type, expiration);
        let shorter = s.batch_created(issuer, earlier, claim_type, expiration);
        let t = s.batch_created(issuer, subjects, claim_type, expiration);
        let ids = s.batch_ids(issuer, earlier, claim_type);
        let last_id = attestation_id(issuer, last, claim_type, s.timestamp);
        what_a_batch_does_to_a_record(s, issuer, earlier, claim_type, expiration, id);
        lemma_batch_scope(s, issuer, earlier, claim_type, expiration);
        assert(shorter.attestations == before.attestations);
        assert(shorter.audit_log(id) == before.audit_log(id));
        assert(subjects[subjects.len() - 1] == last);
        assert(forall|i: int|
            0 <= i < earlier.len() ==> #[trigger] earlier[i] == subjects[i]);
        assert(!ids.contains(last_id));
        assert forall|i: int| 0 <= i < earlier.len() implies attestation_id(
            issuer,
            #[trigger] earlier[i],
            claim_type,
            s.timestamp,
        ) != last_id by {
            assert(ids.contains(ids[i]));
        }
        if id != last_id {
            assert(t.attestations.contains_key(id) == before.attestations.contains_key(id));
            assert(t.attestations[id] == before.attestations[id]);
            assert(t.audit_log(id) == before.audit_log(id));
        }
        assert forall|i: int|
            0 <= i < subjects.len() && id == attestation_id(
                issuer,
                #[trigger] subjects[i],
                claim_type,
                s.timestamp,
            ) implies {
            &&& t.attestations.contains_key(id)
            &&& t.attestations[id] == AttestationView {
                id,
                issuer,
                subject: subjects[i],
                claim_type,
                timestamp: s.timestamp,
                expiration,
                revoked: false,
                deleted: false,
                metadata: None,
                jurisdiction: None,
                valid_from: None,
                origin: AttestationOrigin::Native,
                source_chain: None,
                source_tx: None,
                tags: None,
                revocation_reason: None,
            }
            &&& t.audit_log(id) == s.audit_log(id).push(
                AuditEntryView {
                    action: AuditAction::Created,
                    actor: issuer,
                    timestamp: s.timestamp,
                    details: None,
                },
            )
        } by {
            if i < earlier.len() {
                assert(earlier[i] == subjects[i]);
            }
        }
    }
}

/// Of a batch, observers are told once per subject, in order; no fee is charged; the time of
/// issuance is noted; and nothing changes but records, indexes, logs, totals and lifetimes.
pub proof fn what_else_a_batch_does(
    s: EnvView,
    issuer: Address,
    subjects: Seq<Address>,
    claim_type: Seq<u8>,
    expiration: Option<u64>,
)
    ensures
        ({
            let t = s.batch_created(issuer, subjects, claim_type, expiration);
            &&& t.last_issuance == s.last_issuance.insert(issuer, s.timestamp)
            &&& same_but_books(s, EnvView { last_issuance: s.last_issuance, ..t })
            &&& t.effects.len() == s.effects.len() + subjects.len()
            &&& forall|i: int|
                0 <= i < s.effects.len() ==> #[trigger] t.effects[i] == s.effects[i]
            &&& forall|i: int|
                0 <= i < subjects.len() ==> t.effects[s.effects.len() + i] == EffectView::Publish(
                    EventView::AttestationCreated(
                        AttestationView {
                            id: attestation_id(
                                issuer,
                                #[trigger] subjects[i],
                                claim_type,
                                s.timestamp,
                            ),
                            issuer,
                            subject: subjects[i],
                            claim_type,
                            timestamp: s.timestamp,
                            expiration,
                            revoked: false,
                            deleted: false,
                            metadata: None,
                            jurisdiction: None,
                            valid_from: None,
                            origin: AttestationOrigin::Native,
                            source_chain: None,
                            source_tx: None,
                            tags: None,
                            revocation_reason: None,
                        },
                    ),
                )
        }),
    decreases subjects.len(),
{
    lemma_batch_scope(s, issuer, subjects, claim_type, expiration);
    if subjects.len() > 0 {
        let earlier = subjects.drop_last();
        what_else_a_batch_does(s, issuer, earlier, claim_type, expiration);
        lemma_batch_scope(s, issuer, earlier, claim_type, expiration);
        let before = s.batch_items(issuer, earlier, claim_type, expiration);
        let shorter = s.batch_created(issuer, earlier, claim_type, expiration);
        let t = s.batch_created(issuer, subjects, claim_type, expiration);
        assert(shorter.effects == before.effects);
        assert(forall|i: int|
            0 <= i < earlier.len() ==> #[trigger] earlier[i] == subjects[i]);
        assert(t.effects.drop_last() =~= before.effects);
        assert(forall|i: int|
            0 <= i < before.effects.len() ==> #[trigger] t.effects[i] == before.effects[i]);
        assert forall|i: int| 0 <= i < subjects.len() implies t.effects[s.effects.len() + i]
            == EffectView::Publish(
            EventView::AttestationCreated(
                AttestationView {
                    id: attestation_id(issuer, #[trigger] subjects[i], claim_type, s.timestamp),
                    issuer,
                    subject: subjects[i],
                    claim_type,
                    timestamp: s.timestamp,
                    expiration,
                    revoked: false,
                    deleted: false,
                    metadata: None,
                    jurisdiction: None,
                    valid_from: None,
                    origin: AttestationOrigin::Native,
                    source_chain: None,
                    source_tx: None,
                    tags: None,
                    revocation_reason: None,
                },
            ),
        ) by {
            if i < earlier.len() {
                assert(earlier[i] == subjects[i]);
                assert(t.effects[s.effects.len() + i] == before.effects[s.effects.len() + i]);
            }
        }
    }
}

/// Keeping one entry alive before or after five others makes no difference.
proof fn lemma_kept_alive_in_any_order(
    s: EnvView,
    last: StorageKeyView,
    keys: Seq<StorageKeyView>,
    ledgers: int,
)
    requires
        keys.len() == 5,
        !keys.contains(last),
    ensures
        s.extend(keys[0], ledgers).extend(keys[1], ledgers).extend(keys[2], ledgers).extend(
            keys[3],
            ledgers,
        ).extend(keys[4], ledgers).extend(last, ledgers).lifetimes == s.extend(
            last,
            ledgers,
        ).extend(keys[0], ledgers).extend(keys[1], ledgers).extend(keys[2], ledgers).extend(
            keys[3],
            ledgers,
        ).extend(keys[4], ledgers).lifetimes,
{
    assert forall|e: EnvView, key: StorageKeyView|
        keys.contains(key) implies #[trigger] e.extend(key, ledgers).extend(last, ledgers)
        == e.extend(last, ledgers).extend(key, ledgers) by {
        assert(e.extend(key, ledgers).extend(last, ledgers) =~= e.extend(last, ledgers).extend(
            key,
            ledgers,
        ));
    }
    assert(forall|i: int| 0 <= i < 5 ==> keys.contains(#[trigger] keys[i]));
    let e1 = s.extend(keys[0], ledgers);
    let e2 = e1.extend(keys[1], ledgers);
    let e3 = e2.extend(keys[2], ledgers);
    let e4 = e3.extend(keys[3], ledgers);
    assert(e4.extend(keys[4], ledgers).extend(last, ledgers) == e4.extend(last, ledgers).extend(
        keys[4],
        ledgers,
    ));
    assert(e3.extend(keys[3], ledgers).extend(last, ledgers) == e3.extend(last, ledgers).extend(
        keys[3],
        ledgers,
    ));
    assert(e2.extend(keys[2], ledgers).extend(last, ledgers) == e2.extend(last, ledgers).extend(
        keys[2],
        ledgers,
    ));
    assert(e1.extend(keys[1], ledgers).extend(last, ledgers) == e1.extend(last, ledgers).extend(
        keys[1],
        ledgers,
    ));
    assert(s.extend(keys[0], ledgers).extend(last, ledgers) == s.extend(last, ledgers).extend(
        keys[0],
        ledgers,
    ));
}

/// A batch with one more subject is the batch with one more attestation: listed last for its
/// subject and for the issuer, counted once for the issuer and once overall, logged and told like
/// the others. A batch without subjects notes the time of issuance and does nothing else.
#[verifier::rlimit(40)]
pub proof fn batches_are_made_one_after_another(
    s: EnvView,
    issuer: Address,
    subjects: Seq<Address>,
    subject: Address,
    claim_type: Seq<u8>,
    expiration: Option<u64>,
)
    ensures
        ({
            let id = attestation_id(issuer, subject, claim_type, s.timestamp);
            let a = AttestationView {
                id,
                issuer,
                subject,
                claim_type,
                timestamp: s.timestamp,
                expiration,
                revoked: false,
                deleted: false,
                metadata: None,
                jurisdiction: None,
                valid_from: None,
                origin: AttestationOrigin::Native,
                source_chain: None,
                source_tx: None,
                tags: None,
                revocation_reason: None,
            };
            let entry = AuditEntryView {
                action: AuditAction::Created,
                actor: issuer,
                timestamp: s.timestamp,
                details: None,
            };
            let b = s.batch_created(issuer, subjects, claim_type, expiration);
            let t = s.batch_created(issuer, subjects.push(subject), claim_type, expiration);
            t == EnvView {
                attestations: b.attestations.insert(id, a),
                subject_attestations: b.subject_attestations.insert(
                    subject,
                    b.subject_ids(subject).push(id),
                ),
                issuer_attestations: b.issuer_attestations.insert(
                    issuer,
                    b.issuer_ids(issuer).push(id),
                ),
                issuer_stats: b.issuer_stats.insert(
                    issuer,
                    IssuerStats {
                        total_issued: (b.stats_of(issuer).total_issued + 1) as u64,
                    },
                ),
                global_stats: GlobalStats {
                    total_attestations: if b.global_stats.total_attestations < u64::MAX {
                        (b.global_stats.total_attestations + 1) as u64
                    } else {
                        u64::MAX
                    },
                    ..b.global_stats
                },
                audit_logs: b.audit_logs.insert(id, b.audit_log(id).push(entry)),
                instance_ttl: b.extend_instance(b.lifetime()).instance_ttl,
                lifetimes: t.lifetimes,
                effects: b.effects.push(EffectView::Publish(EventView::AttestationCreated(a))),
                ..b
            }
        }),
        s.batch_created(issuer, Seq::empty(), claim_type, expiration) == (EnvView {
            last_issuance: s.last_issuance.insert(issuer, s.timestamp),
            lifetimes: s.extend(StorageKeyView::LastIssuance(issuer), s.lifetime()).lifetimes,
            ..s
        }),
{
    assert(subjects.push(subject).drop_last() =~= subjects);
    lemma_batch_scope(s, issuer, subjects, claim_type, expiration);
}

/// What a batch writes lives as long as what is written in any other way: with one more subject,
/// the record, the two indexes, the totals of the issuer and the log are kept alive, and no other
/// lifetime changes.
#[verifier::rlimit(40)]
pub proof fn batches_are_kept_alive(
    s: EnvView,
    issuer: Address,
    subjects: Seq<Address>,
    subject: Address,
    claim_type: Seq<u8>,
    expiration: Option<u64>,
)
    ensures
        ({
            let id = attestation_id(issuer, subject, claim_type, s.timestamp);
            let b = s.batch_created(issuer, subjects, claim_type, expiration);
            let t = s.batch_created(issuer, subjects.push(subject), claim_type, expiration);
            t.lifetimes == b.extend(StorageKeyView::Attestation(id), s.lifetime()).extend(
                StorageKeyView::SubjectAttestations(subject),
                s.lifetime(),
            ).extend(StorageKeyView::IssuerAttestations(issuer), s.lifetime()).extend(
                StorageKeyView::IssuerStats(issuer),
                s.lifetime(),
            ).extend(StorageKeyView::AuditLog(id), s.lifetime()).lifetimes
        }),
{
    let id = attestation_id(issuer, subject, claim_type, s.timestamp);
    let before = s.batch_items(issuer, subjects, claim_type, expiration);
    let after = before.batch_item(issuer, subject, claim_type, expiration);
    let keys = seq![
        StorageKeyView::Attestation(id),
        StorageKeyView::SubjectAttestations(subject),
        StorageKeyView::IssuerAttestations(issuer),
        StorageKeyView::IssuerStats(issuer),
        StorageKeyView::AuditLog(id),
    ];
    let last = StorageKeyView::LastIssuance(issuer);
    assert(subjects.push(subject).drop_last() =~= subjects);
    lemma_batch_scope(s, issuer, subjects, claim_type, expiration);
    lemma_kept_alive_in_any_order(before, last, keys, s.lifetime());
    assert(after.lifetimes == before.extend(keys[0], s.lifetime()).extend(
        keys[1],
        s.lifetime(),
    ).extend(keys[2], s.lifetime()).extend(keys[3], s.lifetime()).extend(
        keys[4],
        s.lifetime(),
    ).lifetimes);
    let b = s.batch_created(issuer, subjects, claim_type, expiration);
    assert(b.lifetimes == before.extend(last, s.lifetime()).lifetimes);
}

} // verus!

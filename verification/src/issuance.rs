//! Making attestations: by an issuer, singly or in a batch, by import, and by a
//! bridge.

use crate::address::Address;
use crate::admin::load_fee_config;
use crate::contract::TrustLinkContract;
use crate::env::{Env, EnvView};
use crate::events::{Effect, EffectView, Event, EventView};
use crate::ident::{attestation_id, bridge_id};
use crate::list::{has_text, push};
use crate::storage::Storage;
use crate::text::Text;
use crate::types::{
    Attestation, AttestationOrigin, AttestationView, AuditAction, AuditEntry, AuditEntryView, Error,
    IssuerStats,
};
use crate::validation::{
    check_rate_limit, claim_type_error, expiration_error, first, import_time_error,
    jurisdiction_error, metadata_error, refusal, settled, tags_error, unless, validate_claim_type,
    validate_fee_config, validate_import_timestamps, validate_jurisdiction, validate_metadata,
    validate_native_expiration, validate_tags, Validation,
};
use vstd::prelude::*;

verus! {

/// What an issuer asks for when it creates an attestation.
#[verifier::ext_equal]
pub struct Draft {
    /// Who makes the claim.
    pub issuer: Address,
    /// Whom the claim is about.
    pub subject: Address,
    /// What is claimed.
    pub claim_type: Seq<u8>,
    /// From when on the claim no longer counts.
    pub expiration: Option<u64>,
    /// Free text of the issuer.
    pub metadata: Option<Seq<u8>>,
    /// The country that the claim is tied to.
    pub jurisdiction: Option<Seq<u8>>,
    /// Labels of the issuer.
    pub tags: Option<Seq<Seq<u8>>>,
}

/// An attestation of an issuer with nothing but the essentials.
pub open spec fn plain_record(
    issuer: Address,
    subject: Address,
    claim_type: Seq<u8>,
    timestamp: u64,
    expiration: Option<u64>,
    origin: AttestationOrigin,
) -> AttestationView {
    AttestationView {
        id: attestation_id(issuer, subject, claim_type, timestamp),
        issuer,
        subject,
        claim_type,
        timestamp,
        expiration,
        revoked: false,
        deleted: false,
        metadata: None,
        jurisdiction: None,
        valid_from: None,
        origin,
        source_chain: None,
        source_tx: None,
        tags: None,
        revocation_reason: None,
    }
}

/// The attestation that a draft becomes.
pub open spec fn native_record(draft: Draft, timestamp: u64) -> AttestationView {
    AttestationView {
        metadata: draft.metadata,
        jurisdiction: draft.jurisdiction,
        tags: draft.tags,
        ..plain_record(
            draft.issuer,
            draft.subject,
            draft.claim_type,
            timestamp,
            draft.expiration,
            AttestationOrigin::Native,
        )
    }
}

/// The attestation that a bridge mirrors.
pub open spec fn bridged_record(
    bridge: Address,
    subject: Address,
    claim_type: Seq<u8>,
    source_chain: Seq<u8>,
    source_tx: Seq<u8>,
    timestamp: u64,
) -> AttestationView {
    AttestationView {
        id: bridge_id(bridge, subject, claim_type, source_chain, source_tx, timestamp),
        source_chain: Some(source_chain),
        source_tx: Some(source_tx),
        ..plain_record(
            bridge,
            subject,
            claim_type,
            timestamp,
            None,
            AttestationOrigin::Bridged,
        )
    }
}

/// The sum of two list lengths as a 32-bit counter shows it.
pub open spec fn capped(sum: nat) -> nat {
    if sum > u32::MAX {
        u32::MAX as nat
    } else {
        sum
    }
}

/// The audit entry for a creation.
pub open spec fn created_entry(actor: Address, timestamp: u64) -> AuditEntryView {
    AuditEntryView { action: AuditAction::Created, actor, timestamp, details: None }
}

impl EnvView {
    /// The ledger once `attestation` has been stored, indexed and counted.
    pub open spec fn stored(self, attestation: AttestationView) -> EnvView {
        let a = attestation;
        let indexed = self.with_attestation(a).with_subject_ids(
            a.subject,
            self.subject_ids(a.subject).push(a.id),
        ).with_issuer_ids(a.issuer, self.issuer_ids(a.issuer).push(a.id));
        indexed.with_issuer_stats(
            a.issuer,
            IssuerStats { total_issued: (self.stats_of(a.issuer).total_issued + 1) as u64 },
        ).count_attestations(1)
    }

    /// The ledger once the fee for one attestation has been asked of `issuer`.
    pub open spec fn charged(self, issuer: Address) -> EnvView {
        let config = self.fee_config->0;
        if config.attestation_fee > 0 {
            self.ask(
                EffectView::Transfer {
                    token: config.fee_token->0,
                    from: issuer,
                    to: config.fee_collector,
                    amount: config.attestation_fee,
                },
            )
        } else {
            self
        }
    }

    /// One more attestation of `issuer` stays within its limit.
    pub open spec fn issuer_limit_error(self, issuer: Address, count: nat) -> Option<Error> {
        unless(
            capped(self.issuer_ids(issuer).len() + count)
                <= self.limits_in_force().max_attestations_per_issuer,
            Error::LimitExceeded,
        )
    }

    /// One more attestation about `subject` stays within its limit.
    pub open spec fn subject_limit_error(self, subject: Address) -> Option<Error> {
        unless(
            self.subject_ids(subject).len() < self.limits_in_force().max_attestations_per_subject,
            Error::LimitExceeded,
        )
    }

    /// There is no attestation `id` yet.
    pub open spec fn duplicate_error(self, id: Seq<u8>) -> Option<Error> {
        unless(!self.attestations.contains_key(id), Error::DuplicateAttestation)
    }

    /// `issuer` may issue about `subject`.
    pub open spec fn whitelist_error(self, issuer: Address, subject: Address) -> Option<Error> {
        unless(
            self.whitelist_mode(issuer) ==> self.whitelist.contains_key((issuer, subject)),
            Error::SubjectNotWhitelisted,
        )
    }

    /// What the draft itself has to meet.
    pub open spec fn draft_error(self, draft: Draft) -> Option<Error> {
        first(
            claim_type_error(draft.claim_type),
            first(
                metadata_error(draft.metadata),
                first(
                    jurisdiction_error(draft.jurisdiction),
                    first(
                        tags_error(draft.tags),
                        first(
                            expiration_error(self.timestamp, draft.expiration),
                            unless(draft.issuer != draft.subject, Error::Unauthorized),
                        ),
                    ),
                ),
            ),
        )
    }

    /// Creating an attestation takes a registered issuer while writes are not paused, a draft in
    /// order, a subject that the issuer may issue about, time since the last issuance, room
    /// within the limits, an identifier not in use, and fee settings that can be charged by.
    pub open spec fn create_error(self, draft: Draft) -> Option<Error> {
        let id = attestation_id(
            draft.issuer,
            draft.subject,
            draft.claim_type,
            self.timestamp,
        );
        first(
            self.pause_error(),
            first(
                self.issuer_error(draft.issuer),
                first(
                    self.draft_error(draft),
                    first(
                        self.whitelist_error(draft.issuer, draft.subject),
                        first(
                            self.rate_error(draft.issuer),
                            first(
                                self.issuer_limit_error(draft.issuer, 1),
                                first(
                                    self.duplicate_error(id),
                                    first(
                                        self.subject_limit_error(draft.subject),
                                        self.fee_error(),
                                    ),
                                ),
                            ),
                        ),
                    ),
                ),
            ),
        )
    }

    /// The ledger once the draft has become an attestation. The notice of it goes out twice:
    /// when it has been stored and when the fee has been asked for.
    pub open spec fn created(self, draft: Draft) -> EnvView {
        let a = native_record(draft, self.timestamp);
        self.stored(a).publish(EventView::AttestationCreated(a)).with_audit(
            a.id,
            created_entry(a.issuer, self.timestamp),
        ).charged(a.issuer).with_last_issuance(a.issuer, self.timestamp).publish(
            EventView::AttestationCreated(a),
        )
    }

    /// Importing takes an administrator, while writes are not paused, a registered issuer,
    /// times in order and an identifier not in use.
    pub open spec fn import_error(
        self,
        admin: Address,
        issuer: Address,
        subject: Address,
        claim_type: Seq<u8>,
        timestamp: u64,
        expiration: Option<u64>,
    ) -> Option<Error> {
        first(
            self.pause_error(),
            first(
                self.admin_error(admin),
                first(
                    self.issuer_error(issuer),
                    first(
                        import_time_error(self.timestamp, timestamp, expiration),
                        self.duplicate_error(
                            attestation_id(issuer, subject, claim_type, timestamp),
                        ),
                    ),
                ),
            ),
        )
    }

    /// The ledger once `admin` has imported an attestation.
    pub open spec fn imported(
        self,
        admin: Address,
        issuer: Address,
        subject: Address,
        claim_type: Seq<u8>,
        timestamp: u64,
        expiration: Option<u64>,
    ) -> EnvView {
        let a = plain_record(
            issuer,
            subject,
            claim_type,
            timestamp,
            expiration,
            AttestationOrigin::Imported,
        );
        self.stored(a).publish(EventView::AttestationImported(a)).with_audit(
            a.id,
            created_entry(admin, timestamp),
        )
    }

    /// Mirroring takes a registered bridge contract, while writes are not paused, and an
    /// identifier not in use.
    pub open spec fn bridging_error(self, bridge: Address, id: Seq<u8>) -> Option<Error> {
        first(self.pause_error(), first(self.bridge_error(bridge), self.duplicate_error(id)))
    }

    /// The ledger once `bridge` has mirrored an attestation.
    pub open spec fn bridged(
        self,
        bridge: Address,
        subject: Address,
        claim_type: Seq<u8>,
        source_chain: Seq<u8>,
        source_tx: Seq<u8>,
    ) -> EnvView {
        let a = bridged_record(
            bridge,
            subject,
            claim_type,
            source_chain,
            source_tx,
            self.timestamp,
        );
        self.stored(a).publish(EventView::AttestationBridged(a)).with_audit(
            a.id,
            created_entry(bridge, self.timestamp),
        )
    }

    /// The identifiers that a batch gives.
    pub open spec fn batch_ids(
        self,
        issuer: Address,
        subjects: Seq<Address>,
        claim_type: Seq<u8>,
    ) -> Seq<Seq<u8>> {
        subjects.map_values(
            |subject: Address| attestation_id(issuer, subject, claim_type, self.timestamp),
        )
    }

    /// Each subject of a batch takes an identifier that is not in use, neither on the ledger nor
    /// by an earlier subject, and room within its limit. Of several errors, that of the earliest
    /// subject counts.
    pub open spec fn batch_items_error(
        self,
        issuer: Address,
        subjects: Seq<Address>,
        claim_type: Seq<u8>,
    ) -> Option<Error>
        decreases subjects.len(),
    {
        if subjects.len() == 0 {
            None
        } else {
            let earlier = subjects.drop_last();
            let id = attestation_id(issuer, subjects.last(), claim_type, self.timestamp);
            first(
                self.batch_items_error(issuer, earlier, claim_type),
                first(
                    unless(
                        !self.attestations.contains_key(id) && !self.batch_ids(
                            issuer,
                            earlier,
                            claim_type,
                        ).contains(id),
                        Error::DuplicateAttestation,
                    ),
                    self.subject_limit_error(subjects.last()),
                ),
            )
        }
    }

    /// A batch takes a registered issuer, while writes are not paused, a claim type and an
    /// expiration in order, time since the last issuance, room for all of it within the issuer's
    /// limit, and then what each subject takes.
    pub open spec fn batch_error(
        self,
        issuer: Address,
        subjects: Seq<Address>,
        claim_type: Seq<u8>,
        expiration: Option<u64>,
    ) -> Option<Error> {
        first(
            self.pause_error(),
            first(
                self.issuer_error(issuer),
                first(
                    claim_type_error(claim_type),
                    first(
                        expiration_error(self.timestamp, expiration),
                        first(
                            self.rate_error(issuer),
                            first(
                                self.issuer_limit_error(issuer, subjects.len()),
                                self.batch_items_error(issuer, subjects, claim_type),
                            ),
                        ),
                    ),
                ),
            ),
        )
    }

    /// The ledger once one attestation of a batch has been made.
    pub open spec fn batch_item(
        self,
        issuer: Address,
        subject: Address,
        claim_type: Seq<u8>,
        expiration: Option<u64>,
    ) -> EnvView {
        let a = plain_record(
            issuer,
            subject,
            claim_type,
            self.timestamp,
            expiration,
            AttestationOrigin::Native,
        );
        self.stored(a).publish(EventView::AttestationCreated(a)).with_audit(
            a.id,
            created_entry(issuer, self.timestamp),
        )
    }

    /// The ledger once the attestations about all `subjects` have been made, one after another.
    pub open spec fn batch_items(
        self,
        issuer: Address,
        subjects: Seq<Address>,
        claim_type: Seq<u8>,
        expiration: Option<u64>,
    ) -> EnvView
        decreases subjects.len(),
    {
        if subjects.len() == 0 {
            self
        } else {
            self.batch_items(issuer, subjects.drop_last(), claim_type, expiration).batch_item(
                issuer,
                subjects.last(),
                claim_type,
                expiration,
            )
        }
    }

    /// The ledger once a batch has been made.
    pub open spec fn batch_created(
        self,
        issuer: Address,
        subjects: Seq<Address>,
        claim_type: Seq<u8>,
        expiration: Option<u64>,
    ) -> EnvView {
        self.batch_items(issuer, subjects, claim_type, expiration).with_last_issuance(
            issuer,
            self.timestamp,
        )
    }

    /// Whether `issuer` can be counted `count` more attestations.
    pub open spec fn can_count(self, issuer: Address, count: nat) -> bool {
        self.stats_of(issuer).total_issued + count <= u64::MAX
    }

    /// Whether the counters have room for `count` more attestations of `issuer`.
    pub open spec fn has_room(self, issuer: Address, count: nat) -> bool {
        self.lifetime_fits() && self.can_count(issuer, count)
    }
}

/// Stores, indexes and counts an attestation.
pub fn store_attestation(env: &mut Env, attestation: &Attestation)
    requires
        old(env)@.lifetime_fits(),
        old(env)@.can_count(attestation@.issuer, 1),
    ensures
        final(env)@ == old(env)@.stored(attestation@),
{
    Storage::set_attestation(env, attestation);
    Storage::add_subject_attestation(env, &attestation.subject, &attestation.id);
    Storage::add_issuer_attestation(env, &attestation.issuer, &attestation.id);
    let mut stats = Storage::get_issuer_stats(env, &attestation.issuer);
    stats.total_issued = stats.total_issued + 1;
    Storage::set_issuer_stats(env, &attestation.issuer, &stats);
    Storage::increment_total_attestations(env, 1);
}

/// Whether `issuer` can be counted `count` more attestations.
pub fn can_count(env: &Env, issuer: &Address, count: usize) -> (r: bool)
    ensures
        r == env@.can_count(*issuer, count as nat),
{
    count as u64 <= u64::MAX - Storage::get_issuer_stats(env, issuer).total_issued
}

/// Whether the fee settings are there and can be charged by.
fn check_fee(env: &Env) -> (r: Result<(), Error>)
    ensures
        refusal(r) == env@.fee_error(),
{
    let config = load_fee_config(env)?;
    validate_fee_config(config.attestation_fee, &config.fee_token)
}

/// Asks the fee for one attestation of `issuer`.
pub fn charge_attestation_fee(env: &mut Env, issuer: &Address) -> (r: Result<(), Error>)
    ensures
        refusal(r) == old(env)@.fee_error(),
        final(env)@ == settled(old(env)@.fee_error(), old(env)@.charged(*issuer), old(env)@),
{
    let config = load_fee_config(env)?;
    if config.attestation_fee < 0 {
        return Err(Error::InvalidFee);
    }
    if config.attestation_fee == 0 {
        return Ok(());
    }
    match config.fee_token {
        Some(token) => {
            env.ask(
                Effect::Transfer {
                    token,
                    from: *issuer,
                    to: config.fee_collector,
                    amount: config.attestation_fee,
                },
            );
            Ok(())
        },
        None => Err(Error::FeeTokenRequired),
    }
}

/// Whether `count` more attestations of `issuer` stay within its limit.
fn check_issuer_limit(env: &Env, issuer: &Address, count: usize) -> (r: Result<(), Error>)
    ensures
        refusal(r) == env@.issuer_limit_error(*issuer, count as nat),
{
    let limits = Storage::get_limits(env);
    let have = Storage::get_issuer_attestations(env, issuer).len();
    let limit = limits.max_attestations_per_issuer;
    if limit < u32::MAX {
        let limit = limit as usize;
        if have > limit || count > limit - have {
            return Err(Error::LimitExceeded);
        }
    }
    Ok(())
}

/// Whether one more attestation about `subject` stays within its limit.
fn check_subject_limit(env: &Env, subject: &Address) -> (r: Result<(), Error>)
    ensures
        refusal(r) == env@.subject_limit_error(*subject),
{
    let limits = Storage::get_limits(env);
    let have = Storage::get_subject_attestations(env, subject).len();
    if have >= limits.max_attestations_per_subject as usize {
        return Err(Error::LimitExceeded);
    }
    Ok(())
}

/// Puts the creation by `actor` at the end of the audit log of the attestation `id`.
pub(crate) fn audit_creation(env: &mut Env, id: &Text, actor: Address, timestamp: u64)
    requires
        old(env)@.lifetime_fits(),
    ensures
        final(env)@ == old(env)@.with_audit(id@, created_entry(actor, timestamp)),
{
    Storage::append_audit_entry(
        env,
        id,
        AuditEntry { action: AuditAction::Created, actor, timestamp, details: None },
    );
}

/// An error at some subject of a batch is the error of the batch.
proof fn lemma_batch_error_stays(
    env: EnvView,
    issuer: Address,
    subjects: Seq<Address>,
    claim_type: Seq<u8>,
    count: int,
)
    requires
        0 <= count <= subjects.len(),
        env.batch_items_error(issuer, subjects.take(count), claim_type) is Some,
    ensures
        env.batch_items_error(issuer, subjects, claim_type) == env.batch_items_error(
            issuer,
            subjects.take(count),
            claim_type,
        ),
    decreases subjects.len(),
{
    if count == subjects.len() {
        assert(subjects.take(count) =~= subjects);
    } else {
        assert(subjects.drop_last().take(count) =~= subjects.take(count));
        lemma_batch_error_stays(env, issuer, subjects.drop_last(), claim_type, count);
    }
}

/// Finds the identifiers of a batch, and whether each subject has what it takes.
fn check_batch(env: &Env, issuer: &Address, subjects: &Vec<Address>, claim_type: &Text) -> (r:
    Result<Vec<Text>, Error>)
    ensures
        refusal(r) == env@.batch_items_error(*issuer, subjects.deep_view(), claim_type@),
        r is Ok ==> r->Ok_0.deep_view() == env@.batch_ids(
            *issuer,
            subjects.deep_view(),
            claim_type@,
        ),
{
    let ghost all = subjects.deep_view();
    let mut ids: Vec<Text> = Vec::new();
    let mut i: usize = 0;
    assert(ids.deep_view() =~= env@.batch_ids(*issuer, all.take(0), claim_type@));
    while i < subjects.len()
        invariant
            i <= subjects.len(),
            all == subjects.deep_view(),
            ids.deep_view() == env@.batch_ids(*issuer, all.take(i as int), claim_type@),
            env@.batch_items_error(*issuer, all.take(i as int), claim_type@) is None,
        decreases subjects.len() - i,
    {
        let subject = subjects[i];
        let id = Attestation::generate_id(issuer, &subject, claim_type, env.timestamp);
        proof {
            assert(all.take(i + 1).drop_last() =~= all.take(i as int));
            assert(all.take(i + 1).last() == subject);
            assert(env@.batch_ids(*issuer, all.take(i + 1), claim_type@) =~= env@.batch_ids(
                *issuer,
                all.take(i as int),
                claim_type@,
            ).push(id@));
            if env@.batch_items_error(*issuer, all.take(i + 1), claim_type@) is Some {
                lemma_batch_error_stays(env@, *issuer, all, claim_type@, i + 1);
            }
        }
        if Storage::has_attestation(env, &id) || has_text(&ids, &id) {
            return Err(Error::DuplicateAttestation);
        }
        check_subject_limit(env, &subject)?;
        push(&mut ids, id);
        i += 1;
    }
    assert(all.take(i as int) =~= all);
    Ok(ids)
}

/// Makes the attestations of a batch, one after another.
fn write_batch(
    env: &mut Env,
    issuer: &Address,
    subjects: &Vec<Address>,
    claim_type: &Text,
    expiration: Option<u64>,
    ids: &Vec<Text>,
)
    requires
        old(env)@.lifetime_fits(),
        old(env)@.can_count(*issuer, subjects.len() as nat),
        ids.deep_view() == old(env)@.batch_ids(*issuer, subjects.deep_view(), claim_type@),
    ensures
        final(env)@ == old(env)@.batch_items(
            *issuer,
            subjects.deep_view(),
            claim_type@,
            expiration,
        ),
        final(env)@.timestamp == old(env)@.timestamp,
        final(env)@.lifetime_fits(),
{
    let ghost before = env@;
    let ghost all = subjects.deep_view();
    let timestamp = env.timestamp;
    let mut i: usize = 0;
    while i < subjects.len()
        invariant
            i <= subjects.len(),
            all == subjects.deep_view(),
            ids.deep_view() == before.batch_ids(*issuer, all, claim_type@),
            timestamp == before.timestamp,
            env@.timestamp == timestamp,
            env@ == before.batch_items(*issuer, all.take(i as int), claim_type@, expiration),
            env@.lifetime_fits(),
            env@.can_count(*issuer, (subjects.len() - i) as nat),
        decreases subjects.len() - i,
    {
        let subject = subjects[i];
        assert(ids.deep_view().len() == all.len());
        assert(ids.deep_view()[i as int] == ids[i as int]@);
        let attestation = Attestation {
            id: ids[i].clone(),
            issuer: *issuer,
            subject,
            claim_type: claim_type.clone(),
            timestamp,
            expiration,
            revoked: false,
            deleted: false,
            metadata: None,
            jurisdiction: None,
            valid_from: None,
            origin: AttestationOrigin::Native,
            source_chain: None,
            source_tx: None,
            tags: None,
            revocation_reason: None,
        };
        assert(attestation@ =~= plain_record(
            *issuer,
            subject,
            claim_type@,
            timestamp,
            expiration,
            AttestationOrigin::Native,
        ));
        store_attestation(env, &attestation);
        env.publish(Event::AttestationCreated(attestation));
        audit_creation(env, &ids[i], *issuer, timestamp);
        assert(all.take(i + 1).drop_last() =~= all.take(i as int));
        assert(all.take(i + 1).last() == subject);
        i += 1;
    }
    assert(all.take(i as int) =~= all);
}

impl TrustLinkContract {
    /// Creates an attestation, with or without a jurisdiction.
    pub fn create_attestation_internal(
        env: &mut Env,
        issuer: Address,
        subject: Address,
        claim_type: Text,
        expiration: Option<u64>,
        metadata: Option<Text>,
        jurisdiction: Option<Text>,
        tags: Option<Vec<Text>>,
    ) -> (r: Result<Text, Error>)
        requires
            old(env)@.authorized(issuer),
            old(env)@.create_error(
                (Draft {
                    issuer,
                    subject,
                    claim_type: claim_type@,
                    expiration,
                    metadata: metadata.deep_view(),
                    jurisdiction: jurisdiction.deep_view(),
                    tags: tags.deep_view(),
                }),
            ) is None ==> old(env)@.has_room(issuer, 1),
        ensures
            ({
                let draft = Draft {
                    issuer,
                    subject,
                    claim_type: claim_type@,
                    expiration,
                    metadata: metadata.deep_view(),
                    jurisdiction: jurisdiction.deep_view(),
                    tags: tags.deep_view(),
                };
                let error = old(env)@.create_error(draft);
                &&& refusal(r) == error
                &&& r is Ok ==> r->Ok_0@ == attestation_id(
                    issuer,
                    subject,
                    claim_type@,
                    old(env)@.timestamp,
                )
                &&& final(env)@ == settled(error, old(env)@.created(draft), old(env)@)
            }),
    {
        let ghost draft = Draft {
            issuer,
            subject,
            claim_type: claim_type@,
            expiration,
            metadata: metadata.deep_view(),
            jurisdiction: jurisdiction.deep_view(),
            tags: tags.deep_view(),
        };
        Validation::require_not_paused(env)?;
        Validation::require_issuer(env, &issuer)?;
        validate_claim_type(&claim_type)?;
        validate_metadata(&metadata)?;
        validate_jurisdiction(&jurisdiction)?;
        validate_tags(&tags)?;
        validate_native_expiration(env, expiration)?;
        if issuer == subject {
            return Err(Error::Unauthorized);
        }
        if Storage::is_whitelist_enabled(env, &issuer) && !Storage::is_whitelisted(
            env,
            &issuer,
            &subject,
        ) {
            return Err(Error::SubjectNotWhitelisted);
        }
        check_rate_limit(env, &issuer)?;
        check_issuer_limit(env, &issuer, 1)?;
        let timestamp = env.timestamp;
        let attestation_id = Attestation::generate_id(&issuer, &subject, &claim_type, timestamp);
        if Storage::has_attestation(env, &attestation_id) {
            return Err(Error::DuplicateAttestation);
        }
        check_subject_limit(env, &subject)?;
        check_fee(env)?;
        let attestation = Attestation {
            id: attestation_id.clone(),
            issuer,
            subject,
            claim_type,
            timestamp,
            expiration,
            revoked: false,
            deleted: false,
            metadata,
            jurisdiction,
            valid_from: None,
            origin: AttestationOrigin::Native,
            source_chain: None,
            source_tx: None,
            tags,
            revocation_reason: None,
        };
        assert(attestation@ =~= native_record(draft, timestamp));
        store_attestation(env, &attestation);
        env.publish(Event::AttestationCreated(attestation.clone()));
        audit_creation(env, &attestation_id, issuer, timestamp);
        charge_attestation_fee(env, &issuer)?;
        Storage::set_last_issuance_time(env, &issuer, timestamp);
        env.publish(Event::AttestationCreated(attestation));
        Ok(attestation_id)
    }

    /// Creates an attestation that is tied to no country.
    pub fn create_attestation(
        env: &mut Env,
        issuer: Address,
        subject: Address,
        claim_type: Text,
        expiration: Option<u64>,
        metadata: Option<Text>,
        tags: Option<Vec<Text>>,
    ) -> (r: Result<Text, Error>)
        requires
            old(env)@.authorized(issuer),
            old(env)@.create_error(
                (Draft {
                    issuer,
                    subject,
                    claim_type: claim_type@,
                    expiration,
                    metadata: metadata.deep_view(),
                    jurisdiction: None,
                    tags: tags.deep_view(),
                }),
            ) is None ==> old(env)@.has_room(issuer, 1),
        ensures
            ({
                let draft = Draft {
                    issuer,
                    subject,
                    claim_type: claim_type@,
                    expiration,
                    metadata: metadata.deep_view(),
                    jurisdiction: None,
                    tags: tags.deep_view(),
                };
                let error = old(env)@.create_error(draft);
                &&& refusal(r) == error
                &&& r is Ok ==> r->Ok_0@ == attestation_id(
                    issuer,
                    subject,
                    claim_type@,
                    old(env)@.timestamp,
                )
                &&& final(env)@ == settled(error, old(env)@.created(draft), old(env)@)
            }),
    {
        Self::create_attestation_internal(
            env,
            issuer,
            subject,
            claim_type,
            expiration,
            metadata,
            None,
            tags,
        )
    }

    /// Creates an attestation that may be tied to a country.
    pub fn create_attestation_jurisdiction(
        env: &mut Env,
        issuer: Address,
        subject: Address,
        claim_type: Text,
        expiration: Option<u64>,
        metadata: Option<Text>,
        jurisdiction: Option<Text>,
        tags: Option<Vec<Text>>,
    ) -> (r: Result<Text, Error>)
        requires
            old(env)@.authorized(issuer),
            old(env)@.create_error(
                (Draft {
                    issuer,
                    subject,
                    claim_type: claim_type@,
                    expiration,
                    metadata: metadata.deep_view(),
                    jurisdiction: jurisdiction.deep_view(),
                    tags: tags.deep_view(),
                }),
            ) is None ==> old(env)@.has_room(issuer, 1),
        ensures
            ({
                let draft = Draft {
                    issuer,
                    subject,
                    claim_type: claim_type@,
                    expiration,
                    metadata: metadata.deep_view(),
                    jurisdiction: jurisdiction.deep_view(),
                    tags: tags.deep_view(),
                };
                let error = old(env)@.create_error(draft);
                &&& refusal(r) == error
                &&& r is Ok ==> r->Ok_0@ == attestation_id(
                    issuer,
                    subject,
                    claim_type@,
                    old(env)@.timestamp,
                )
                &&& final(env)@ == settled(error, old(env)@.created(draft), old(env)@)
            }),
    {
        Self::create_attestation_internal(
            env,
            issuer,
            subject,
            claim_type,
            expiration,
            metadata,
            jurisdiction,
            tags,
        )
    }

    /// Takes over an attestation that was made elsewhere at `timestamp`.
    pub fn import_attestation(
        env: &mut Env,
        admin: Address,
        issuer: Address,
        subject: Address,
        claim_type: Text,
        timestamp: u64,
        expiration: Option<u64>,
    ) -> (r: Result<Text, Error>)
        requires
            old(env)@.authorized(admin),
            old(env)@.import_error(
                admin,
                issuer,
                subject,
                claim_type@,
                timestamp,
                expiration,
            ) is None ==> old(env)@.has_room(issuer, 1),
        ensures
            ({
                let error = old(env)@.import_error(
                    admin,
                    issuer,
                    subject,
                    claim_type@,
                    timestamp,
                    expiration,
                );
                &&& refusal(r) == error
                &&& r is Ok ==> r->Ok_0@ == attestation_id(issuer, subject, claim_type@, timestamp)
                &&& final(env)@ == settled(
                    error,
                    old(env)@.imported(admin, issuer, subject, claim_type@, timestamp, expiration),
                    old(env)@,
                )
            }),
    {
        let ghost record = plain_record(
            issuer,
            subject,
            claim_type@,
            timestamp,
            expiration,
            AttestationOrigin::Imported,
        );
        Validation::require_not_paused(env)?;
        Validation::require_admin(env, &admin)?;
        Validation::require_issuer(env, &issuer)?;
        validate_import_timestamps(env, timestamp, expiration)?;
        let attestation_id = Attestation::generate_id(&issuer, &subject, &claim_type, timestamp);
        if Storage::has_attestation(env, &attestation_id) {
            return Err(Error::DuplicateAttestation);
        }
        let attestation = Attestation {
            id: attestation_id.clone(),
            issuer,
            subject,
            claim_type,
            timestamp,
            expiration,
            revoked: false,
            deleted: false,
            metadata: None,
            jurisdiction: None,
            valid_from: None,
            origin: AttestationOrigin::Imported,
            source_chain: None,
            source_tx: None,
            tags: None,
            revocation_reason: None,
        };
        assert(attestation@ =~= record);
        store_attestation(env, &attestation);
        env.publish(Event::AttestationImported(attestation));
        audit_creation(env, &attestation_id, admin, timestamp);
        Ok(attestation_id)
    }

    /// Mirrors an attestation from another chain.
    pub fn bridge_attestation(
        env: &mut Env,
        bridge: Address,
        subject: Address,
        claim_type: Text,
        source_chain: Text,
        source_tx: Text,
    ) -> (r: Result<Text, Error>)
        requires
            old(env)@.authorized(bridge),
            old(env)@.bridging_error(
                bridge,
                bridge_id(
                    bridge,
                    subject,
                    claim_type@,
                    source_chain@,
                    source_tx@,
                    old(env)@.timestamp,
                ),
            ) is None ==> old(env)@.has_room(bridge, 1),
        ensures
            ({
                let id = bridge_id(
                    bridge,
                    subject,
                    claim_type@,
                    source_chain@,
                    source_tx@,
                    old(env)@.timestamp,
                );
                let error = old(env)@.bridging_error(bridge, id);
                &&& refusal(r) == error
                &&& r is Ok ==> r->Ok_0@ == id
                &&& final(env)@ == settled(
                    error,
                    old(env)@.bridged(bridge, subject, claim_type@, source_chain@, source_tx@),
                    old(env)@,
                )
            }),
    {
        let timestamp = env.timestamp;
        let ghost record = bridged_record(
            bridge,
            subject,
            claim_type@,
            source_chain@,
            source_tx@,
            timestamp,
        );
        Validation::require_not_paused(env)?;
        Validation::require_bridge(env, &bridge)?;
        let attestation_id = Attestation::generate_bridge_id(
            &bridge,
            &subject,
            &claim_type,
            &source_chain,
            &source_tx,
            timestamp,
        );
        if Storage::has_attestation(env, &attestation_id) {
            return Err(Error::DuplicateAttestation);
        }
        let attestation = Attestation {
            id: attestation_id.clone(),
            issuer: bridge,
            subject,
            claim_type,
            timestamp,
            expiration: None,
            revoked: false,
            deleted: false,
            metadata: None,
            jurisdiction: None,
            valid_from: None,
            origin: AttestationOrigin::Bridged,
            source_chain: Some(source_chain),
            source_tx: Some(source_tx),
            tags: None,
            revocation_reason: None,
        };
        assert(attestation@ =~= record);
        store_attestation(env, &attestation);
        env.publish(Event::AttestationBridged(attestation));
        audit_creation(env, &attestation_id, bridge, timestamp);
        Ok(attestation_id)
    }

    /// Creates one attestation about each of the subjects, or none at all. A batch costs no fee.
    pub fn create_attestations_batch(
        env: &mut Env,
        issuer: Address,
        subjects: Vec<Address>,
        claim_type: Text,
        expiration: Option<u64>,
    ) -> (r: Result<Vec<Text>, Error>)
        requires
            old(env)@.authorized(issuer),
            old(env)@.batch_error(issuer, subjects.deep_view(), claim_type@, expiration) is None
                ==> old(env)@.has_room(issuer, subjects.len() as nat),
        ensures
            ({
                let error = old(env)@.batch_error(
                    issuer,
                    subjects.deep_view(),
                    claim_type@,
                    expiration,
                );
                &&& refusal(r) == error
                &&& r is Ok ==> r->Ok_0.deep_view() == old(env)@.batch_ids(
                    issuer,
                    subjects.deep_view(),
                    claim_type@,
                )
                &&& final(env)@ == settled(
                    error,
                    old(env)@.batch_created(
                        issuer,
                        subjects.deep_view(),
                        claim_type@,
                        expiration,
                    ),
                    old(env)@,
                )
            }),
    {
        Validation::require_not_paused(env)?;
        Validation::require_issuer(env, &issuer)?;
        validate_claim_type(&claim_type)?;
        validate_native_expiration(env, expiration)?;
        check_rate_limit(env, &issuer)?;
        check_issuer_limit(env, &issuer, subjects.len())?;
        let ids = check_batch(env, &issuer, &subjects, &claim_type)?;
        write_batch(env, &issuer, &subjects, &claim_type, expiration, &ids);
        let timestamp = env.timestamp;
        Storage::set_last_issuance_time(env, &issuer, timestamp);
        Ok(ids)
    }
}

} // verus!

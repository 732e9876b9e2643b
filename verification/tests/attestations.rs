use trustlink::address::Address;
use trustlink::contract::TrustLinkContract;
use trustlink::env::Env;
use trustlink::events::{Effect, Event};
use trustlink::storage::{Storage, StorageKey};
use trustlink::table::Table;
use trustlink::text::Text;
use trustlink::types::{
    Attestation, AttestationOrigin, AttestationStatus, AuditAction, Error, FeeConfig, IssuerStats,
};

fn account(n: u128) -> Address {
    Address::account(0, n)
}

fn text(s: &str) -> Text {
    Text::from_str(s)
}

fn shown(text: &Text) -> String {
    text.bytes.iter().map(|b| *b as char).collect()
}

fn all_shown(texts: &Vec<Text>) -> Vec<String> {
    texts.iter().map(shown).collect()
}

/// A registry at time 1000 with administrator 1, issuers 2 and 3 and the bridge contract 60.
/// Accounts 1 to 9 and the bridge authorize what follows.
fn registry() -> Env {
    let mut env = Env::new(1_000);
    for n in 1..10 {
        env.authorize(account(n));
    }
    env.authorize(bridge());
    TrustLinkContract::initialize(&mut env, account(1), None).unwrap();
    TrustLinkContract::register_issuer(&mut env, account(1), account(2)).unwrap();
    TrustLinkContract::register_issuer(&mut env, account(1), account(3)).unwrap();
    TrustLinkContract::register_bridge(&mut env, account(1), bridge()).unwrap();
    env.effects.clear();
    env
}

fn bridge() -> Address {
    Address::contract(0, 60)
}

fn create(env: &mut Env, issuer: u128, subject: u128, claim: &str) -> Result<Text, Error> {
    TrustLinkContract::create_attestation(
        env,
        account(issuer),
        account(subject),
        text(claim),
        None,
        None,
        None,
    )
}

/// Everything that the registry holds, for comparisons.
fn snapshot(env: &Env) -> String {
    format!("{:?}", env)
}

#[test]
fn a_created_attestation_reads_back() {
    let mut env = registry();
    let tags = Some(vec![text("vip"), text("eu")]);
    let id = TrustLinkContract::create_attestation_jurisdiction(
        &mut env,
        account(2),
        account(7),
        text("KYC"),
        Some(2_000),
        Some(text("note")),
        Some(text("DE")),
        tags,
    )
    .unwrap();
    let expected = Attestation::generate_id(&account(2), &account(7), &text("KYC"), 1_000);
    assert!(id.same(&expected));
    let a = TrustLinkContract::get_attestation(&env, id.clone()).unwrap();
    assert!(a.id.same(&id));
    assert_eq!(a.issuer, account(2));
    assert_eq!(a.subject, account(7));
    assert_eq!(shown(&a.claim_type), "KYC");
    assert_eq!(a.timestamp, 1_000);
    assert_eq!(a.expiration, Some(2_000));
    assert!(!a.revoked && !a.deleted);
    assert_eq!(shown(a.metadata.as_ref().unwrap()), "note");
    assert_eq!(shown(a.jurisdiction.as_ref().unwrap()), "DE");
    assert_eq!(all_shown(a.tags.as_ref().unwrap()), ["vip", "eu"]);
    assert_eq!(a.valid_from, None);
    assert_eq!(a.origin, AttestationOrigin::Native);
    assert!(a.source_chain.is_none() && a.source_tx.is_none());
    assert!(a.revocation_reason.is_none());
    assert_eq!(
        TrustLinkContract::get_attestation_status(&mut env, id.clone()),
        Ok(AttestationStatus::Valid)
    );
    assert!(TrustLinkContract::has_valid_claim(&mut env, account(7), text("KYC")));
    assert_eq!(
        all_shown(&TrustLinkContract::get_subject_attestations(&env, account(7), 0, 10)),
        [shown(&id)]
    );
    assert_eq!(
        all_shown(&TrustLinkContract::get_issuer_attestations(&env, account(2), 0, 10)),
        [shown(&id)]
    );
    let log = TrustLinkContract::get_audit_log(&env, id.clone());
    assert_eq!(log.len(), 1);
    assert_eq!(log[0].action, AuditAction::Created);
    assert_eq!(log[0].actor, account(2));
    assert_eq!(log[0].timestamp, 1_000);
    assert!(log[0].details.is_none());
    assert_eq!(
        TrustLinkContract::get_issuer_stats(&env, account(2)),
        IssuerStats { total_issued: 1 }
    );
    assert_eq!(TrustLinkContract::get_global_stats(&env).total_attestations, 1);
}

#[test]
fn a_creation_is_announced_twice_and_costs_nothing_by_default() {
    let mut env = registry();
    create(&mut env, 2, 7, "KYC").unwrap();
    assert_eq!(env.effects.len(), 2);
    for effect in env.effects.iter() {
        assert!(matches!(effect, Effect::Publish(Event::AttestationCreated(_))));
    }
}

#[test]
fn the_fee_is_transferred_between_the_announcements() {
    let token = Address::contract(0, 50);
    let mut env = registry();
    TrustLinkContract::set_fee(&mut env, account(1), 25, account(9), Some(token)).unwrap();
    env.effects.clear();
    create(&mut env, 2, 7, "KYC").unwrap();
    assert_eq!(env.effects.len(), 3);
    assert!(matches!(&env.effects[0], Effect::Publish(Event::AttestationCreated(_))));
    assert!(matches!(
        &env.effects[1],
        Effect::Transfer { token: t, from, to, amount: 25 }
            if *t == token && *from == account(2) && *to == account(9)
    ));
    assert!(matches!(&env.effects[2], Effect::Publish(Event::AttestationCreated(_))));
}

#[test]
fn fee_settings_that_cannot_be_charged_by_refuse_the_creation() {
    let mut env = registry();
    let mut config = FeeConfig {
        attestation_fee: -1,
        fee_collector: account(9),
        fee_token: None,
    };
    Storage::set_fee_config(&mut env, &config);
    assert_eq!(create(&mut env, 2, 7, "KYC").err(), Some(Error::InvalidFee));
    config.attestation_fee = 1;
    Storage::set_fee_config(&mut env, &config);
    let before = snapshot(&env);
    assert_eq!(create(&mut env, 2, 7, "KYC").err(), Some(Error::FeeTokenRequired));
    assert_eq!(snapshot(&env), before);
    env.fee_config = None;
    assert_eq!(create(&mut env, 2, 7, "KYC").err(), Some(Error::NotInitialized));
}

#[test]
fn what_a_creation_takes() {
    let mut env = registry();
    let before = snapshot(&env);
    assert_eq!(create(&mut env, 4, 7, "KYC").err(), Some(Error::Unauthorized));
    assert_eq!(create(&mut env, 2, 7, "K YC").err(), Some(Error::InvalidClaimType));
    assert_eq!(create(&mut env, 2, 2, "KYC").err(), Some(Error::Unauthorized));
    let long = Text::from_str(&"m".repeat(257));
    assert_eq!(
        TrustLinkContract::create_attestation(
            &mut env,
            account(2),
            account(7),
            text("KYC"),
            None,
            Some(long),
            None
        )
        .err(),
        Some(Error::MetadataTooLong)
    );
    assert_eq!(
        TrustLinkContract::create_attestation_jurisdiction(
            &mut env,
            account(2),
            account(7),
            text("KYC"),
            None,
            None,
            Some(text("XX")),
            None
        )
        .err(),
        Some(Error::InvalidJurisdiction)
    );
    let tags = Some(vec![text("a"), text("b"), text("c"), text("d"), text("e"), text("f")]);
    assert_eq!(
        TrustLinkContract::create_attestation(
            &mut env,
            account(2),
            account(7),
            text("KYC"),
            None,
            None,
            tags
        )
        .err(),
        Some(Error::TooManyTags)
    );
    assert_eq!(
        TrustLinkContract::create_attestation(
            &mut env,
            account(2),
            account(7),
            text("KYC"),
            Some(1_000),
            None,
            None
        )
        .err(),
        Some(Error::InvalidExpiration)
    );
    assert_eq!(snapshot(&env), before);
}

#[test]
fn the_same_attestation_cannot_be_made_twice_at_once() {
    let mut env = registry();
    create(&mut env, 2, 7, "KYC").unwrap();
    let before = snapshot(&env);
    assert_eq!(create(&mut env, 2, 7, "KYC").err(), Some(Error::DuplicateAttestation));
    assert_eq!(snapshot(&env), before);
    env.timestamp = 1_001;
    assert!(create(&mut env, 2, 7, "KYC").is_ok());
}

#[test]
fn an_issuer_in_whitelist_mode_is_barred_from_others() {
    let mut env = registry();
    TrustLinkContract::enable_whitelist_mode(&mut env, account(2)).unwrap();
    assert_eq!(create(&mut env, 2, 7, "KYC").err(), Some(Error::SubjectNotWhitelisted));
    assert!(create(&mut env, 3, 7, "KYC").is_ok());
    TrustLinkContract::add_to_whitelist(&mut env, account(2), account(7)).unwrap();
    assert!(create(&mut env, 2, 7, "KYC").is_ok());
    TrustLinkContract::remove_from_whitelist(&mut env, account(2), account(7)).unwrap();
    assert_eq!(create(&mut env, 2, 7, "AML").err(), Some(Error::SubjectNotWhitelisted));
    TrustLinkContract::set_whitelist_enabled(&mut env, account(2), false).unwrap();
    assert!(create(&mut env, 2, 7, "AML").is_ok());
}

#[test]
fn an_issuer_has_to_wait_between_issuances() {
    let mut env = registry();
    TrustLinkContract::set_rate_limit(&mut env, account(1), 60).unwrap();
    create(&mut env, 2, 7, "KYC").unwrap();
    env.timestamp = 1_059;
    assert_eq!(create(&mut env, 2, 8, "KYC").err(), Some(Error::RateLimited));
    assert!(create(&mut env, 3, 8, "KYC").is_ok());
    let subjects = vec![account(8)];
    assert_eq!(
        TrustLinkContract::create_attestations_batch(
            &mut env,
            account(2),
            subjects,
            text("KYC"),
            None
        )
        .err(),
        Some(Error::RateLimited)
    );
    env.timestamp = 1_060;
    assert!(create(&mut env, 2, 8, "KYC").is_ok());
}

#[test]
fn limits_are_enforced() {
    let mut env = registry();
    TrustLinkContract::set_limits(&mut env, account(1), 2, 1).unwrap();
    create(&mut env, 2, 7, "KYC").unwrap();
    assert_eq!(create(&mut env, 2, 7, "AML").err(), Some(Error::LimitExceeded));
    assert_eq!(create(&mut env, 2, 7, "KYC").err(), Some(Error::DuplicateAttestation));
    create(&mut env, 2, 8, "KYC").unwrap();
    assert_eq!(create(&mut env, 2, 9, "KYC").err(), Some(Error::LimitExceeded));
    create(&mut env, 3, 9, "KYC").unwrap();
    assert_eq!(env.subject_attestations.get(&account(7)).unwrap().len(), 1);
    assert_eq!(env.issuer_attestations.get(&account(2)).unwrap().len(), 2);
}

#[test]
fn an_import_reads_back() {
    let mut env = registry();
    let import = |env: &mut Env, admin: u128, issuer: u128, at: u64, until: Option<u64>| {
        TrustLinkContract::import_attestation(
            env,
            account(admin),
            account(issuer),
            account(7),
            text("KYC"),
            at,
            until,
        )
    };
    let before = snapshot(&env);
    assert_eq!(import(&mut env, 2, 2, 500, None).err(), Some(Error::Unauthorized));
    assert_eq!(import(&mut env, 1, 4, 500, None).err(), Some(Error::Unauthorized));
    assert_eq!(import(&mut env, 1, 2, 1_001, None).err(), Some(Error::InvalidTimestamp));
    assert_eq!(import(&mut env, 1, 2, 500, Some(500)).err(), Some(Error::InvalidExpiration));
    assert_eq!(snapshot(&env), before);
    let id = import(&mut env, 1, 2, 500, Some(900)).unwrap();
    assert!(id.same(&Attestation::generate_id(&account(2), &account(7), &text("KYC"), 500)));
    assert_eq!(import(&mut env, 1, 2, 500, None).err(), Some(Error::DuplicateAttestation));
    let a = TrustLinkContract::get_attestation(&env, id.clone()).unwrap();
    assert_eq!(a.origin, AttestationOrigin::Imported);
    assert_eq!(a.timestamp, 500);
    assert_eq!(a.expiration, Some(900));
    assert_eq!(env.effects.len(), 1);
    assert!(matches!(&env.effects[0], Effect::Publish(Event::AttestationImported(_))));
    let log = TrustLinkContract::get_audit_log(&env, id.clone());
    assert_eq!(log[0].actor, account(1));
    assert_eq!(log[0].timestamp, 500);
    assert_eq!(
        TrustLinkContract::get_attestation_status(&mut env, id),
        Ok(AttestationStatus::Expired)
    );
}

#[test]
fn a_bridged_attestation_reads_back() {
    let mut env = registry();
    let mirror = |env: &mut Env, by: Address| {
        TrustLinkContract::bridge_attestation(
            env,
            by,
            account(7),
            text("KYC"),
            text("ethereum"),
            text("0xab"),
        )
    };
    assert_eq!(mirror(&mut env, account(2)).err(), Some(Error::Unauthorized));
    let id = mirror(&mut env, bridge()).unwrap();
    assert_eq!(mirror(&mut env, bridge()).err(), Some(Error::DuplicateAttestation));
    let a = TrustLinkContract::get_attestation(&env, id.clone()).unwrap();
    assert_eq!(a.origin, AttestationOrigin::Bridged);
    assert_eq!(a.issuer, bridge());
    assert_eq!(a.expiration, None);
    assert_eq!(shown(a.source_chain.as_ref().unwrap()), "ethereum");
    assert_eq!(shown(a.source_tx.as_ref().unwrap()), "0xab");
    assert_eq!(env.effects.len(), 1);
    assert!(matches!(&env.effects[0], Effect::Publish(Event::AttestationBridged(_))));
    assert_eq!(TrustLinkContract::get_audit_log(&env, id)[0].actor, bridge());
    assert!(TrustLinkContract::has_valid_claim(&mut env, account(7), text("KYC")));
}

#[test]
fn a_batch_makes_one_attestation_per_subject() {
    let mut env = registry();
    let subjects = vec![account(7), account(8), account(9)];
    let ids = TrustLinkContract::create_attestations_batch(
        &mut env,
        account(2),
        subjects.clone(),
        text("KYC"),
        Some(2_000),
    )
    .unwrap();
    assert_eq!(ids.len(), 3);
    for (id, subject) in ids.iter().zip(subjects.iter()) {
        let expected = Attestation::generate_id(&account(2), subject, &text("KYC"), 1_000);
        assert!(id.same(&expected));
        let a = TrustLinkContract::get_attestation(&env, id.clone()).unwrap();
        assert_eq!(a.subject, *subject);
        assert_eq!(a.expiration, Some(2_000));
        assert_eq!(TrustLinkContract::get_audit_log(&env, id.clone()).len(), 1);
        assert!(TrustLinkContract::has_valid_claim(&mut env, *subject, text("KYC")));
    }
    assert_eq!(env.effects.len(), 3);
    assert_eq!(
        TrustLinkContract::get_issuer_stats(&env, account(2)),
        IssuerStats { total_issued: 3 }
    );
    assert_eq!(TrustLinkContract::get_global_stats(&env).total_attestations, 3);
    assert_eq!(env.last_issuance.get(&account(2)), Some(&1_000));
}

#[test]
fn an_empty_batch_only_notes_the_time() {
    let mut env = registry();
    let ids = TrustLinkContract::create_attestations_batch(
        &mut env,
        account(2),
        vec![],
        text("KYC"),
        None,
    )
    .unwrap();
    assert!(ids.is_empty());
    assert!(env.effects.is_empty());
    assert_eq!(env.last_issuance.get(&account(2)), Some(&1_000));
}

#[test]
fn a_batch_is_made_whole_or_not_at_all() {
    let mut env = registry();
    TrustLinkContract::set_limits(&mut env, account(1), 3, 1).unwrap();
    create(&mut env, 3, 8, "KYC").unwrap();
    let before = snapshot(&env);
    let batch = |env: &mut Env, issuer: u128, subjects: Vec<u128>, claim: &str, until| {
        let subjects = subjects.iter().map(|n| account(*n)).collect();
        TrustLinkContract::create_attestations_batch(
            env,
            account(issuer),
            subjects,
            text(claim),
            until,
        )
        .err()
    };
    assert_eq!(batch(&mut env, 4, vec![7], "KYC", None), Some(Error::Unauthorized));
    assert_eq!(batch(&mut env, 2, vec![7], "", None), Some(Error::InvalidClaimType));
    assert_eq!(batch(&mut env, 2, vec![7], "KYC", Some(1)), Some(Error::InvalidExpiration));
    assert_eq!(batch(&mut env, 2, vec![4, 5, 6, 7], "KYC", None), Some(Error::LimitExceeded));
    assert_eq!(batch(&mut env, 2, vec![7, 8], "KYC", None), Some(Error::LimitExceeded));
    assert_eq!(batch(&mut env, 2, vec![7, 7], "KYC", None), Some(Error::DuplicateAttestation));
    assert_eq!(
        batch(&mut env, 2, vec![7, 7, 8], "KYC", None),
        Some(Error::DuplicateAttestation)
    );
    assert_eq!(batch(&mut env, 2, vec![7, 8, 7], "KYC", None), Some(Error::LimitExceeded));
    assert_eq!(batch(&mut env, 3, vec![7, 8], "KYC", None), Some(Error::DuplicateAttestation));
    assert_eq!(snapshot(&env), before);
    assert_eq!(batch(&mut env, 2, vec![7, 9], "KYC", None), None);
}

#[test]
fn a_revoked_attestation_is_void() {
    let mut env = registry();
    let id = create(&mut env, 2, 7, "KYC").unwrap();
    let other = create(&mut env, 2, 7, "AML").unwrap();
    env.effects.clear();
    env.timestamp = 1_500;
    let reason = Some(text("expired papers"));
    assert_eq!(
        TrustLinkContract::revoke_attestation(&mut env, account(2), id.clone(), reason),
        Ok(())
    );
    let a = TrustLinkContract::get_attestation(&env, id.clone()).unwrap();
    assert!(a.revoked);
    assert_eq!(shown(a.revocation_reason.as_ref().unwrap()), "expired papers");
    assert_eq!(
        TrustLinkContract::get_attestation_status(&mut env, id.clone()),
        Ok(AttestationStatus::Revoked)
    );
    assert!(!TrustLinkContract::has_valid_claim(&mut env, account(7), text("KYC")));
    assert!(TrustLinkContract::has_valid_claim(&mut env, account(7), text("AML")));
    assert_eq!(
        all_shown(&TrustLinkContract::get_subject_attestations(&env, account(7), 0, 10)),
        [shown(&other)]
    );
    assert_eq!(
        all_shown(&TrustLinkContract::get_issuer_attestations(&env, account(2), 0, 10)),
        [shown(&other)]
    );
    let log = TrustLinkContract::get_audit_log(&env, id.clone());
    assert_eq!(log.len(), 2);
    assert_eq!(log[1].action, AuditAction::Revoked);
    assert_eq!(log[1].timestamp, 1_500);
    assert_eq!(shown(log[1].details.as_ref().unwrap()), "expired papers");
    assert_eq!(TrustLinkContract::get_global_stats(&env).total_revocations, 1);
    assert_eq!(env.effects.len(), 1);
    assert!(matches!(
        &env.effects[0],
        Effect::Publish(Event::AttestationRevoked { issuer, .. }) if *issuer == account(2)
    ));
    assert_eq!(
        TrustLinkContract::revoke_attestation(&mut env, account(2), id.clone(), None),
        Err(Error::AlreadyRevoked)
    );
    assert_eq!(
        TrustLinkContract::renew_attestation(&mut env, account(2), id, None),
        Err(Error::AlreadyRevoked)
    );
}

#[test]
fn what_a_revocation_takes() {
    let mut env = registry();
    let id = create(&mut env, 2, 7, "KYC").unwrap();
    let before = snapshot(&env);
    let long = Some(Text::from_str(&"r".repeat(129)));
    assert_eq!(
        TrustLinkContract::revoke_attestation(&mut env, account(4), id.clone(), None),
        Err(Error::Unauthorized)
    );
    assert_eq!(
        TrustLinkContract::revoke_attestation(&mut env, account(2), id.clone(), long),
        Err(Error::ReasonTooLong)
    );
    assert_eq!(
        TrustLinkContract::revoke_attestation(&mut env, account(2), text("nothing"), None),
        Err(Error::NotFound)
    );
    assert_eq!(
        TrustLinkContract::revoke_attestation(&mut env, account(3), id, None),
        Err(Error::Unauthorized)
    );
    assert_eq!(snapshot(&env), before);
}

#[test]
fn a_batch_is_revoked_whole_or_not_at_all() {
    let mut env = registry();
    let one = create(&mut env, 2, 7, "KYC").unwrap();
    let two = create(&mut env, 2, 8, "KYC").unwrap();
    let foreign = create(&mut env, 3, 8, "KYC").unwrap();
    let before = snapshot(&env);
    let revoke = |env: &mut Env, ids: Vec<&Text>| {
        let ids = ids.iter().map(|id| (*id).clone()).collect();
        TrustLinkContract::revoke_attestations_batch(env, account(2), ids, None)
    };
    assert_eq!(revoke(&mut env, vec![&one, &foreign]), Err(Error::Unauthorized));
    assert_eq!(revoke(&mut env, vec![&one, &text("nothing")]), Err(Error::NotFound));
    assert_eq!(revoke(&mut env, vec![&one, &one]), Err(Error::AlreadyRevoked));
    assert_eq!(revoke(&mut env, vec![&one; 51]), Err(Error::BatchTooLarge));
    assert_eq!(revoke(&mut env, vec![&one; 50]), Err(Error::AlreadyRevoked));
    let long = Some(Text::from_str(&"r".repeat(129)));
    assert_eq!(
        TrustLinkContract::revoke_attestations_batch(
            &mut env,
            account(2),
            vec![one.clone()],
            long
        ),
        Err(Error::ReasonTooLong)
    );
    assert_eq!(
        TrustLinkContract::revoke_attestations_batch(
            &mut env,
            account(4),
            vec![one.clone()],
            None
        ),
        Err(Error::Unauthorized)
    );
    assert_eq!(snapshot(&env), before);
    env.effects.clear();
    assert_eq!(revoke(&mut env, vec![]), Ok(0));
    assert_eq!(revoke(&mut env, vec![&two, &one]), Ok(2));
    assert_eq!(env.effects.len(), 2);
    assert_eq!(TrustLinkContract::get_global_stats(&env).total_revocations, 2);
    assert!(TrustLinkContract::get_issuer_attestations(&env, account(2), 0, 10).is_empty());
    assert_eq!(
        all_shown(&TrustLinkContract::get_subject_attestations(&env, account(8), 0, 10)),
        [shown(&foreign)]
    );
    assert_eq!(TrustLinkContract::get_audit_log(&env, one.clone()).len(), 2);
    assert_eq!(revoke(&mut env, vec![&one]), Err(Error::AlreadyRevoked));
}

#[test]
fn a_batch_of_fifty_can_be_revoked() {
    let mut env = registry();
    let mut ids = Vec::new();
    for n in 0..50 {
        ids.push(create(&mut env, 2, 100 + n, "KYC").unwrap());
    }
    assert_eq!(
        TrustLinkContract::revoke_attestations_batch(&mut env, account(2), ids, None),
        Ok(50)
    );
    assert_eq!(TrustLinkContract::get_global_stats(&env).total_revocations, 50);
}

#[test]
fn an_erased_attestation_is_invisible() {
    let mut env = registry();
    let id = create(&mut env, 2, 7, "KYC").unwrap();
    env.effects.clear();
    assert_eq!(
        TrustLinkContract::request_deletion(&mut env, account(8), id.clone()),
        Err(Error::Unauthorized)
    );
    assert_eq!(
        TrustLinkContract::request_deletion(&mut env, account(7), text("nothing")),
        Err(Error::NotFound)
    );
    assert_eq!(
        TrustLinkContract::request_deletion(&mut env, account(7), id.clone()),
        Ok(())
    );
    assert!(matches!(
        &env.effects[0],
        Effect::Publish(Event::DeletionRequested { subject, timestamp: 1_000, .. })
            if *subject == account(7)
    ));
    assert_eq!(
        TrustLinkContract::get_attestation(&env, id.clone()).err(),
        Some(Error::NotFound)
    );
    assert_eq!(
        TrustLinkContract::get_attestation_status(&mut env, id.clone()),
        Err(Error::NotFound)
    );
    assert!(!TrustLinkContract::has_valid_claim(&mut env, account(7), text("KYC")));
    assert!(TrustLinkContract::get_subject_attestations(&env, account(7), 0, 10).is_empty());
    assert!(TrustLinkContract::get_issuer_attestations(&env, account(2), 0, 10).is_empty());
    assert!(TrustLinkContract::get_attestations_in_range(&env, account(7), 0, 9_999, 0, 10)
        .is_empty());
    assert!(TrustLinkContract::get_valid_claims(&env, account(7)).is_empty());
    assert!(
        TrustLinkContract::get_attestation_by_type(&env, account(7), text("KYC")).is_none()
    );
    let kept = Storage::get_attestation(&env, &id).unwrap();
    assert!(kept.deleted && !kept.revoked);
    assert_eq!(TrustLinkContract::get_audit_log(&env, id.clone()).len(), 1);
    assert_eq!(
        TrustLinkContract::renew_attestation(&mut env, account(2), id.clone(), None),
        Ok(())
    );
    assert_eq!(TrustLinkContract::get_attestation(&env, id).err(), Some(Error::NotFound));
}

#[test]
fn a_renewal_brings_an_attestation_back() {
    let mut env = registry();
    let id = TrustLinkContract::create_attestation(
        &mut env,
        account(2),
        account(7),
        text("KYC"),
        Some(1_100),
        None,
        None,
    )
    .unwrap();
    env.timestamp = 1_100;
    assert!(!TrustLinkContract::has_valid_claim(&mut env, account(7), text("KYC")));
    env.effects.clear();
    let renew = |env: &mut Env, issuer: u128, id: &Text, until: Option<u64>| {
        TrustLinkContract::renew_attestation(env, account(issuer), id.clone(), until)
    };
    assert_eq!(renew(&mut env, 4, &id, None), Err(Error::Unauthorized));
    assert_eq!(renew(&mut env, 2, &id, Some(1_100)), Err(Error::InvalidExpiration));
    assert_eq!(renew(&mut env, 2, &text("nothing"), None), Err(Error::NotFound));
    assert_eq!(renew(&mut env, 3, &id, None), Err(Error::Unauthorized));
    assert_eq!(renew(&mut env, 2, &id, Some(1_200)), Ok(()));
    assert!(TrustLinkContract::has_valid_claim(&mut env, account(7), text("KYC")));
    assert!(matches!(
        &env.effects[0],
        Effect::Publish(Event::AttestationRenewed { new_expiration: Some(1_200), .. })
    ));
    let log = TrustLinkContract::get_audit_log(&env, id.clone());
    assert_eq!(log[1].action, AuditAction::Renewed);
    assert_eq!(log[1].actor, account(2));
    assert_eq!(log[1].timestamp, 1_100);
    env.timestamp = 1_200;
    assert!(!TrustLinkContract::has_valid_claim(&mut env, account(7), text("KYC")));
    assert_eq!(renew(&mut env, 2, &id, None), Ok(()));
    env.timestamp = u64::MAX;
    assert!(TrustLinkContract::has_valid_claim(&mut env, account(7), text("KYC")));
}

#[test]
fn nothing_is_written_while_writes_are_paused() {
    let mut env = registry();
    let id = create(&mut env, 2, 7, "KYC").unwrap();
    let proposal = TrustLinkContract::propose_attestation(
        &mut env,
        account(2),
        account(8),
        text("KYC"),
        vec![account(3)],
        1,
    )
    .unwrap();
    TrustLinkContract::pause(&mut env, account(1)).unwrap();
    let paused = Some(Error::ContractPaused);
    let before = snapshot(&env);
    assert_eq!(create(&mut env, 2, 8, "KYC").err(), paused);
    assert_eq!(create(&mut env, 4, 8, "KYC").err(), paused);
    assert_eq!(
        TrustLinkContract::import_attestation(
            &mut env,
            account(1),
            account(2),
            account(8),
            text("KYC"),
            5,
            None
        )
        .err(),
        paused
    );
    assert_eq!(
        TrustLinkContract::bridge_attestation(
            &mut env,
            bridge(),
            account(8),
            text("KYC"),
            text("c"),
            text("t")
        )
        .err(),
        paused
    );
    assert_eq!(
        TrustLinkContract::create_attestations_batch(
            &mut env,
            account(2),
            vec![account(8)],
            text("KYC"),
            None
        )
        .err(),
        paused
    );
    assert_eq!(
        TrustLinkContract::revoke_attestation(&mut env, account(2), id.clone(), None).err(),
        paused
    );
    assert_eq!(
        TrustLinkContract::revoke_attestations_batch(
            &mut env,
            account(2),
            vec![id.clone()],
            None
        )
        .err(),
        paused
    );
    assert_eq!(
        TrustLinkContract::renew_attestation(&mut env, account(2), id.clone(), None).err(),
        paused
    );
    assert_eq!(
        TrustLinkContract::request_deletion(&mut env, account(7), id.clone()).err(),
        paused
    );
    assert_eq!(
        TrustLinkContract::cosign_attestation(&mut env, account(3), proposal).err(),
        paused
    );
    assert_eq!(snapshot(&env), before);
    assert!(TrustLinkContract::has_valid_claim(&mut env, account(7), text("KYC")));
    assert!(TrustLinkContract::get_attestation(&env, id).is_ok());
    TrustLinkContract::unpause(&mut env, account(1)).unwrap();
    assert!(create(&mut env, 2, 8, "KYC").is_ok());
}

#[test]
fn a_removed_issuer_leaves_its_attestations() {
    let mut env = registry();
    let id = create(&mut env, 2, 7, "KYC").unwrap();
    TrustLinkContract::remove_issuer(&mut env, account(1), account(2)).unwrap();
    assert!(TrustLinkContract::has_valid_claim(&mut env, account(7), text("KYC")));
    assert_eq!(create(&mut env, 2, 8, "KYC").err(), Some(Error::Unauthorized));
    assert_eq!(
        TrustLinkContract::revoke_attestation(&mut env, account(2), id, None),
        Err(Error::Unauthorized)
    );
}

#[test]
fn a_creation_keeps_alive_what_it_writes() {
    let mut env = registry();
    env.lifetimes = Table::new();
    let id = create(&mut env, 2, 7, "KYC").unwrap();
    let keys = vec![
        StorageKey::Attestation(id.clone()),
        StorageKey::AuditLog(id),
        StorageKey::SubjectAttestations(account(7)),
        StorageKey::IssuerAttestations(account(2)),
        StorageKey::IssuerStats(account(2)),
        StorageKey::LastIssuance(account(2)),
    ];
    assert_eq!(env.lifetimes.keys().len(), keys.len());
    for key in keys.iter() {
        assert_eq!(env.lifetimes.get(key), Some(&518_400));
    }
}

#[test]
fn one_revocation_equals_a_batch_of_one() {
    let mut single = registry();
    let mut batch = registry();
    let id = create(&mut single, 2, 7, "KYC").unwrap();
    create(&mut batch, 2, 7, "KYC").unwrap();
    let reason = || Some(text("why"));
    TrustLinkContract::revoke_attestation(&mut single, account(2), id.clone(), reason()).unwrap();
    let count =
        TrustLinkContract::revoke_attestations_batch(&mut batch, account(2), vec![id], reason());
    assert_eq!(count, Ok(1));
    assert_eq!(snapshot(&single), snapshot(&batch));
}

#[test]
fn settings_survive_attestations() {
    let mut env = registry();
    TrustLinkContract::set_limits(&mut env, account(1), 5, 5).unwrap();
    let id = create(&mut env, 2, 7, "KYC").unwrap();
    TrustLinkContract::revoke_attestation(&mut env, account(2), id, None).unwrap();
    assert_eq!(TrustLinkContract::get_admin(&env), Ok(account(1)));
    assert_eq!(TrustLinkContract::get_limits(&env).max_attestations_per_issuer, 5);
    assert!(TrustLinkContract::is_issuer(&env, account(2)));
    assert!(TrustLinkContract::is_issuer(&env, account(3)));
    assert!(TrustLinkContract::is_bridge(&env, bridge()));
    assert_eq!(env.timestamp, 1_000);
}

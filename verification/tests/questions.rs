use trustlink::address::Address;
use trustlink::contract::TrustLinkContract;
use trustlink::env::Env;
use trustlink::events::{Effect, Event};
use trustlink::storage::Storage;
use trustlink::text::Text;
use trustlink::types::{AttestationStatus, Error, ExpirationHook, IssuerTier};

fn account(n: u128) -> Address {
    Address::account(0, n)
}

fn text(s: &str) -> Text {
    Text::from_str(s)
}

fn texts(list: &[&str]) -> Vec<Text> {
    list.iter().map(|s| text(s)).collect()
}

fn shown(text: &Text) -> String {
    text.bytes.iter().map(|b| *b as char).collect()
}

fn all_shown(texts: &Vec<Text>) -> Vec<String> {
    texts.iter().map(shown).collect()
}

/// A registry at time 1000 with administrator 1 and issuers 2 and 3.
fn registry() -> Env {
    let mut env = Env::new(1_000);
    for n in 1..10 {
        env.authorize(account(n));
    }
    TrustLinkContract::initialize(&mut env, account(1), None).unwrap();
    TrustLinkContract::register_issuer(&mut env, account(1), account(2)).unwrap();
    TrustLinkContract::register_issuer(&mut env, account(1), account(3)).unwrap();
    env.effects.clear();
    env
}

fn attest(env: &mut Env, issuer: u128, claim: &str, until: Option<u64>) -> Text {
    let id = TrustLinkContract::create_attestation(
        env,
        account(issuer),
        account(7),
        text(claim),
        until,
        None,
        None,
    )
    .unwrap();
    env.effects.clear();
    id
}

#[test]
fn claims_are_looked_up() {
    let mut env = registry();
    assert!(!TrustLinkContract::has_valid_claim(&mut env, account(7), text("KYC")));
    attest(&mut env, 2, "KYC", None);
    assert!(TrustLinkContract::has_valid_claim(&mut env, account(7), text("KYC")));
    assert!(!TrustLinkContract::has_valid_claim(&mut env, account(7), text("AML")));
    assert!(!TrustLinkContract::has_valid_claim(&mut env, account(8), text("KYC")));
    assert!(TrustLinkContract::has_valid_claim_from_issuer(
        &mut env,
        account(7),
        text("KYC"),
        account(2)
    ));
    assert!(!TrustLinkContract::has_valid_claim_from_issuer(
        &mut env,
        account(7),
        text("KYC"),
        account(3)
    ));
    assert!(env.effects.is_empty());
}

#[test]
fn claims_expire_at_the_expiration() {
    let mut env = registry();
    let id = attest(&mut env, 2, "KYC", Some(2_000));
    env.timestamp = 1_999;
    assert!(TrustLinkContract::has_valid_claim(&mut env, account(7), text("KYC")));
    assert_eq!(
        TrustLinkContract::get_attestation_status(&mut env, id.clone()),
        Ok(AttestationStatus::Valid)
    );
    assert!(env.effects.is_empty());
    env.timestamp = 2_000;
    assert!(!TrustLinkContract::has_valid_claim(&mut env, account(7), text("KYC")));
    assert_eq!(env.effects.len(), 1);
    assert_eq!(
        TrustLinkContract::get_attestation_status(&mut env, id.clone()),
        Ok(AttestationStatus::Expired)
    );
    assert_eq!(env.effects.len(), 2);
    for effect in env.effects.iter() {
        assert!(matches!(
            effect,
            Effect::Publish(Event::AttestationExpired { attestation_id, subject })
                if attestation_id.same(&id) && *subject == account(7)
        ));
    }
}

#[test]
fn a_pending_attestation_proves_nothing_yet() {
    let mut env = registry();
    let id = attest(&mut env, 2, "KYC", None);
    let mut a = Storage::get_attestation(&env, &id).unwrap();
    a.valid_from = Some(1_500);
    Storage::set_attestation(&mut env, &a);
    assert_eq!(a.get_status(1_499), AttestationStatus::Pending);
    assert_eq!(a.get_status(1_500), AttestationStatus::Valid);
    assert!(!TrustLinkContract::has_valid_claim(&mut env, account(7), text("KYC")));
    assert!(env.effects.is_empty());
    env.timestamp = 1_500;
    assert!(TrustLinkContract::has_valid_claim(&mut env, account(7), text("KYC")));
}

#[test]
fn the_search_stops_at_the_first_proof() {
    let mut env = registry();
    let first = attest(&mut env, 2, "KYC", Some(1_100));
    attest(&mut env, 3, "KYC", Some(1_200));
    env.timestamp = 1_001;
    attest(&mut env, 2, "KYC", Some(1_100));
    env.timestamp = 1_150;
    assert!(TrustLinkContract::has_valid_claim(&mut env, account(7), text("KYC")));
    assert_eq!(env.effects.len(), 1);
    assert!(matches!(
        &env.effects[0],
        Effect::Publish(Event::AttestationExpired { attestation_id, .. })
            if attestation_id.same(&first)
    ));
    env.effects.clear();
    assert!(!TrustLinkContract::has_valid_claim_from_issuer(
        &mut env,
        account(7),
        text("KYC"),
        account(2)
    ));
    assert_eq!(env.effects.len(), 2);
}

#[test]
fn a_hook_is_told_in_time() {
    let day = 86_400;
    let callback = Address::contract(0, 70);
    let mut env = registry();
    let expiration = 1_000 + 10 * day;
    let id = attest(&mut env, 2, "KYC", Some(expiration));
    env.expiration_hooks.set(
        account(7),
        ExpirationHook { callback_contract: callback, notify_days_before: 3 },
    );
    env.timestamp = expiration - 3 * day - 1;
    assert!(TrustLinkContract::has_valid_claim(&mut env, account(7), text("KYC")));
    assert!(env.effects.is_empty());
    for now in [expiration - 3 * day, expiration - 1] {
        env.timestamp = now;
        env.effects.clear();
        assert!(TrustLinkContract::has_valid_claim(&mut env, account(7), text("KYC")));
        assert_eq!(env.effects.len(), 2);
        assert!(matches!(
            &env.effects[0],
            Effect::Publish(Event::ExpirationHookTriggered { subject, expiration: e, .. })
                if *subject == account(7) && *e == expiration
        ));
        assert!(matches!(
            &env.effects[1],
            Effect::NotifyExpiring { callback_contract, subject, attestation_id, expiration: e }
                if *callback_contract == callback
                    && *subject == account(7)
                    && attestation_id.same(&id)
                    && *e == expiration
        ));
    }
    env.effects.clear();
    assert!(TrustLinkContract::has_valid_claim_from_issuer(
        &mut env,
        account(7),
        text("KYC"),
        account(2)
    ));
    assert!(env.effects.is_empty());
}

#[test]
fn a_notice_longer_than_the_validity_is_always_due() {
    let mut env = registry();
    attest(&mut env, 2, "KYC", Some(2_000));
    env.expiration_hooks.set(
        account(7),
        ExpirationHook {
            callback_contract: Address::contract(0, 70),
            notify_days_before: u32::MAX,
        },
    );
    assert!(TrustLinkContract::has_valid_claim(&mut env, account(7), text("KYC")));
    assert_eq!(env.effects.len(), 2);
}

#[test]
fn tiers_are_compared() {
    let mut env = registry();
    attest(&mut env, 2, "KYC", None);
    let at = |env: &Env, tier: IssuerTier| {
        TrustLinkContract::has_valid_claim_from_tier(env, account(7), text("KYC"), tier)
    };
    assert!(!at(&env, IssuerTier::Basic));
    TrustLinkContract::update_issuer_tier(&mut env, account(1), account(2), IssuerTier::Verified)
        .unwrap();
    assert!(at(&env, IssuerTier::Basic));
    assert!(at(&env, IssuerTier::Verified));
    assert!(!at(&env, IssuerTier::Premium));
    TrustLinkContract::remove_issuer(&mut env, account(1), account(2)).unwrap();
    assert!(!at(&env, IssuerTier::Basic));
}

#[test]
fn any_and_all_claims() {
    let mut env = registry();
    attest(&mut env, 2, "KYC", None);
    attest(&mut env, 2, "AML", None);
    let any = |env: &Env, list: &[&str]| {
        TrustLinkContract::has_any_claim(env, account(7), texts(list))
    };
    let all = |env: &Env, list: &[&str]| {
        TrustLinkContract::has_all_claims(env, account(7), texts(list))
    };
    assert!(!any(&env, &[]));
    assert!(all(&env, &[]));
    assert!(any(&env, &["AGE", "AML"]));
    assert!(!any(&env, &["AGE"]));
    assert!(all(&env, &["KYC", "AML"]));
    assert!(all(&env, &["AML", "AML"]));
    assert!(!all(&env, &["KYC", "AGE"]));
}

#[test]
fn valid_claims_are_listed_once_in_order() {
    let mut env = registry();
    attest(&mut env, 2, "KYC", None);
    attest(&mut env, 2, "OLD", Some(1_100));
    attest(&mut env, 3, "AML", None);
    attest(&mut env, 3, "KYC", None);
    env.timestamp = 1_100;
    assert_eq!(
        all_shown(&TrustLinkContract::get_valid_claims(&env, account(7))),
        ["KYC", "AML"]
    );
    assert!(TrustLinkContract::get_valid_claims(&env, account(8)).is_empty());
}

#[test]
fn the_latest_attestation_of_a_type_is_found() {
    let mut env = registry();
    attest(&mut env, 2, "KYC", None);
    let second = attest(&mut env, 3, "KYC", Some(1_500));
    attest(&mut env, 2, "AML", None);
    let found = |env: &Env| {
        TrustLinkContract::get_attestation_by_type(env, account(7), text("KYC"))
    };
    assert!(found(&env).unwrap().id.same(&second));
    env.timestamp = 1_500;
    assert_eq!(found(&env).unwrap().issuer, account(2));
    assert!(
        TrustLinkContract::get_attestation_by_type(&env, account(7), text("AGE")).is_none()
    );
    env.subject_attestations.set(account(7), vec![second, text("nothing")]);
    assert!(found(&env).is_none());
}

#[test]
fn listings_come_in_pages() {
    let mut env = registry();
    let mut ids = Vec::new();
    for claim in ["A", "B", "C", "D", "E"] {
        ids.push(shown(&attest(&mut env, 2, claim, None)));
    }
    let page = |start: u32, limit: u32| {
        all_shown(&TrustLinkContract::get_subject_attestations(&env, account(7), start, limit))
    };
    assert_eq!(page(0, 2), ids[0..2]);
    assert_eq!(page(2, 2), ids[2..4]);
    assert_eq!(page(4, 2), ids[4..5]);
    assert_eq!(page(5, 2), ids[5..5]);
    assert_eq!(page(0, 100), ids);
    assert_eq!(page(1, u32::MAX), ids[1..]);
    assert_eq!(page(0, 0), ids[0..0]);
    let by_issuer =
        all_shown(&TrustLinkContract::get_issuer_attestations(&env, account(2), 3, 100));
    assert_eq!(by_issuer, ids[3..]);
}

#[test]
fn attestations_are_found_by_time() {
    let mut env = registry();
    for (claim, at) in [("A", 1_000), ("B", 1_100), ("C", 1_200), ("D", 1_300)] {
        env.timestamp = at;
        attest(&mut env, 2, claim, None);
    }
    let found = |from: u64, to: u64, start: u32, limit: u32| -> Vec<String> {
        TrustLinkContract::get_attestations_in_range(&env, account(7), from, to, start, limit)
            .iter()
            .map(|a| shown(&a.claim_type))
            .collect()
    };
    assert_eq!(found(0, u64::MAX, 0, 10), ["A", "B", "C", "D"]);
    assert_eq!(found(1_100, 1_200, 0, 10), ["B", "C"]);
    assert_eq!(found(1_101, 1_199, 0, 10), Vec::<String>::new());
    assert_eq!(found(1_100, 1_300, 1, 1), ["C"]);
    assert_eq!(found(1_300, 1_000, 0, 10), Vec::<String>::new());
}

#[test]
fn attestations_are_found_by_tag_and_country() {
    let mut env = registry();
    let make = |env: &mut Env, claim: &str, tags: Option<Vec<Text>>, place: Option<&str>| {
        TrustLinkContract::create_attestation_jurisdiction(
            env,
            account(2),
            account(7),
            text(claim),
            None,
            None,
            place.map(text),
            tags,
        )
        .unwrap()
    };
    let one = make(&mut env, "A", Some(texts(&["x", "y"])), Some("DE"));
    let two = make(&mut env, "B", Some(texts(&["y", "y"])), Some("FR"));
    make(&mut env, "C", None, None);
    let tagged = |tag: &str| {
        all_shown(&TrustLinkContract::get_attestations_by_tag(&env, account(7), text(tag)))
    };
    assert_eq!(tagged("x"), [shown(&one)]);
    assert_eq!(tagged("y"), [shown(&one), shown(&two)]);
    assert!(tagged("z").is_empty());
    let placed = |code: &str| {
        all_shown(&TrustLinkContract::get_attestations_by_jurisdiction(
            &env,
            account(7),
            text(code),
        ))
    };
    assert_eq!(placed("DE"), [shown(&one)]);
    assert_eq!(placed("FR"), [shown(&two)]);
    assert!(placed("US").is_empty());
}

#[test]
fn unknown_attestations_are_not_found() {
    let mut env = registry();
    assert_eq!(
        TrustLinkContract::get_attestation(&env, text("nothing")).err(),
        Some(Error::NotFound)
    );
    assert_eq!(
        TrustLinkContract::get_attestation_status(&mut env, text("nothing")),
        Err(Error::NotFound)
    );
    assert!(TrustLinkContract::get_audit_log(&env, text("nothing")).is_empty());
}

use trustlink::address::Address;
use trustlink::contract::TrustLinkContract;
use trustlink::env::Env;
use trustlink::events::{Effect, Event};
use trustlink::storage::Storage;
use trustlink::text::Text;
use trustlink::types::{
    Attestation, AttestationOrigin, AuditAction, Error, MultiSigProposal,
    MULTISIG_PROPOSAL_TTL_SECS,
};

fn account(n: u128) -> Address {
    Address::account(0, n)
}

fn text(s: &str) -> Text {
    Text::from_str(s)
}

/// A registry at time 1000 with administrator 1 and issuers 2, 3, 4 and 5.
fn registry() -> Env {
    let mut env = Env::new(1_000);
    for n in 1..10 {
        env.authorize(account(n));
    }
    TrustLinkContract::initialize(&mut env, account(1), None).unwrap();
    for n in 2..6 {
        TrustLinkContract::register_issuer(&mut env, account(1), account(n)).unwrap();
    }
    env.effects.clear();
    env
}

fn propose(env: &mut Env, signers: Vec<u128>, threshold: u32) -> Result<Text, Error> {
    let signers = signers.iter().map(|n| account(*n)).collect();
    TrustLinkContract::propose_attestation(
        env,
        account(2),
        account(7),
        text("KYC"),
        signers,
        threshold,
    )
}

fn cosign(env: &mut Env, issuer: u128, id: &Text) -> Result<(), Error> {
    TrustLinkContract::cosign_attestation(env, account(issuer), id.clone())
}

#[test]
fn a_proposal_reads_back() {
    let mut env = registry();
    let id = propose(&mut env, vec![2, 3, 4], 3).unwrap();
    let expected = MultiSigProposal::generate_id(&account(2), &account(7), &text("KYC"), 1_000);
    assert!(id.same(&expected));
    let p = TrustLinkContract::get_multisig_proposal(&env, id.clone()).unwrap();
    assert!(p.id.same(&id));
    assert_eq!(p.proposer, account(2));
    assert_eq!(p.subject, account(7));
    assert_eq!(p.required_signers, [account(2), account(3), account(4)]);
    assert_eq!(p.threshold, 3);
    assert_eq!(p.signers, [account(2)]);
    assert_eq!(p.created_at, 1_000);
    assert_eq!(p.expires_at, 1_000 + MULTISIG_PROPOSAL_TTL_SECS);
    assert!(!p.finalized);
    assert!(matches!(
        &env.effects[0],
        Effect::Publish(Event::MultisigProposed { proposer, subject, threshold: 3, .. })
            if *proposer == account(2) && *subject == account(7)
    ));
    assert_eq!(
        TrustLinkContract::get_multisig_proposal(&env, text("nothing")).err(),
        Some(Error::NotFound)
    );
}

#[test]
fn what_a_proposal_takes() {
    let mut env = registry();
    let outsider = TrustLinkContract::propose_attestation(
        &mut env,
        account(6),
        account(7),
        text("KYC"),
        vec![account(3)],
        1,
    );
    assert_eq!(outsider.err(), Some(Error::Unauthorized));
    assert_eq!(propose(&mut env, vec![3, 6], 1).err(), Some(Error::Unauthorized));
    assert_eq!(propose(&mut env, vec![3, 4], 0).err(), Some(Error::InvalidThreshold));
    assert_eq!(propose(&mut env, vec![3, 4], 3).err(), Some(Error::InvalidThreshold));
    assert_eq!(propose(&mut env, vec![], 1).err(), Some(Error::InvalidThreshold));
    assert_eq!(propose(&mut env, vec![6], 2).err(), Some(Error::Unauthorized));
    assert!(env.effects.is_empty());
    assert!(propose(&mut env, vec![3, 4], 2).is_ok());
}

#[test]
fn the_last_signature_makes_an_attestation() {
    let mut env = registry();
    let id = propose(&mut env, vec![2, 3, 4, 5], 3).unwrap();
    env.effects.clear();
    env.timestamp = 2_000;
    assert_eq!(cosign(&mut env, 3, &id), Ok(()));
    assert_eq!(env.effects.len(), 1);
    assert!(matches!(
        &env.effects[0],
        Effect::Publish(Event::MultisigCosigned { issuer, signatures: 2, threshold: 3, .. })
            if *issuer == account(3)
    ));
    assert!(!TrustLinkContract::has_valid_claim(&mut env, account(7), text("KYC")));
    env.effects.clear();
    assert_eq!(cosign(&mut env, 4, &id), Ok(()));
    let attestation_id =
        Attestation::generate_id(&account(2), &account(7), &text("KYC"), 1_000);
    let a = TrustLinkContract::get_attestation(&env, attestation_id.clone()).unwrap();
    assert_eq!(a.issuer, account(2));
    assert_eq!(a.timestamp, 1_000);
    assert_eq!(a.expiration, None);
    assert_eq!(a.origin, AttestationOrigin::Native);
    assert!(TrustLinkContract::has_valid_claim(&mut env, account(7), text("KYC")));
    let log = TrustLinkContract::get_audit_log(&env, attestation_id.clone());
    assert_eq!(log.len(), 1);
    assert_eq!(log[0].action, AuditAction::Created);
    assert_eq!(log[0].actor, account(2));
    assert_eq!(log[0].timestamp, 2_000);
    assert_eq!(TrustLinkContract::get_issuer_stats(&env, account(2)).total_issued, 1);
    assert_eq!(env.effects.len(), 3);
    assert!(matches!(
        &env.effects[0],
        Effect::Publish(Event::MultisigCosigned { signatures: 3, .. })
    ));
    assert!(matches!(&env.effects[1], Effect::Publish(Event::AttestationCreated(_))));
    assert!(matches!(
        &env.effects[2],
        Effect::Publish(Event::MultisigActivated { attestation_id: x, .. })
            if x.same(&attestation_id)
    ));
    let p = TrustLinkContract::get_multisig_proposal(&env, id.clone()).unwrap();
    assert!(p.finalized);
    assert_eq!(p.signers, [account(2), account(3), account(4)]);
    assert_eq!(cosign(&mut env, 5, &id), Err(Error::ProposalFinalized));
}

#[test]
fn what_a_signature_takes() {
    let mut env = registry();
    let id = propose(&mut env, vec![2, 3, 4], 3).unwrap();
    assert_eq!(cosign(&mut env, 6, &id), Err(Error::Unauthorized));
    assert_eq!(cosign(&mut env, 3, &text("nothing")), Err(Error::NotFound));
    assert_eq!(cosign(&mut env, 5, &id), Err(Error::NotRequiredSigner));
    assert_eq!(cosign(&mut env, 2, &id), Err(Error::AlreadySigned));
    assert_eq!(cosign(&mut env, 3, &id), Ok(()));
    assert_eq!(cosign(&mut env, 3, &id), Err(Error::AlreadySigned));
    env.timestamp = 1_000 + MULTISIG_PROPOSAL_TTL_SECS - 1;
    let mut copy = registry();
    let other = propose(&mut copy, vec![3], 1).unwrap();
    copy.timestamp = 1_000 + MULTISIG_PROPOSAL_TTL_SECS;
    assert_eq!(cosign(&mut copy, 3, &other), Err(Error::ProposalExpired));
    assert_eq!(cosign(&mut env, 4, &id), Ok(()));
}

#[test]
fn a_threshold_of_one_still_takes_a_second_signer() {
    let mut env = registry();
    let id = propose(&mut env, vec![3], 1).unwrap();
    assert!(!TrustLinkContract::has_valid_claim(&mut env, account(7), text("KYC")));
    assert_eq!(cosign(&mut env, 3, &id), Ok(()));
    assert!(TrustLinkContract::has_valid_claim(&mut env, account(7), text("KYC")));
}

#[test]
fn an_agreement_replaces_an_attestation_of_the_same_time() {
    let mut env = registry();
    let id = TrustLinkContract::create_attestation(
        &mut env,
        account(2),
        account(7),
        text("KYC"),
        None,
        None,
        None,
    )
    .unwrap();
    let proposal = propose(&mut env, vec![3], 1).unwrap();
    TrustLinkContract::revoke_attestation(&mut env, account(2), id.clone(), None).unwrap();
    assert_eq!(cosign(&mut env, 3, &proposal), Ok(()));
    let a = TrustLinkContract::get_attestation(&env, id).unwrap();
    assert!(!a.revoked);
}

#[test]
fn endorsements_are_given_once_and_never_to_oneself() {
    let mut env = registry();
    let id = TrustLinkContract::create_attestation(
        &mut env,
        account(2),
        account(7),
        text("KYC"),
        None,
        None,
        None,
    )
    .unwrap();
    env.effects.clear();
    let endorse = |env: &mut Env, by: u128, id: &Text| {
        TrustLinkContract::endorse_attestation(env, account(by), id.clone())
    };
    assert_eq!(endorse(&mut env, 6, &id), Err(Error::Unauthorized));
    assert_eq!(endorse(&mut env, 3, &text("nothing")), Err(Error::NotFound));
    assert_eq!(endorse(&mut env, 2, &id), Err(Error::CannotEndorseOwn));
    assert_eq!(endorse(&mut env, 3, &id), Ok(()));
    assert_eq!(endorse(&mut env, 3, &id), Err(Error::AlreadyEndorsed));
    assert_eq!(endorse(&mut env, 4, &id), Ok(()));
    let list = Storage::get_endorsements(&env, &id);
    assert_eq!(list.len(), 2);
    assert_eq!(list[0].endorser, account(3));
    assert_eq!(list[0].timestamp, 1_000);
    assert!(list[0].attestation_id.same(&id));
    assert_eq!(list[1].endorser, account(4));
    assert_eq!(env.effects.len(), 2);
    assert!(matches!(
        &env.effects[0],
        Effect::Publish(Event::AttestationEndorsed { endorser, timestamp: 1_000, .. })
            if *endorser == account(3)
    ));
    TrustLinkContract::revoke_attestation(&mut env, account(2), id.clone(), None).unwrap();
    assert_eq!(endorse(&mut env, 5, &id), Err(Error::AlreadyRevoked));
}

use trustlink::address::Address;
use trustlink::contract::TrustLinkContract;
use trustlink::env::Env;
use trustlink::events::{Effect, Event};
use trustlink::text::Text;
use trustlink::types::{
    CouncilOperation, Error, FeeConfig, GlobalStats, HealthStatus, IssuerMetadata, IssuerStats,
    IssuerTier, RateLimitConfig, StorageLimits,
};

fn account(n: u128) -> Address {
    Address::account(0, n)
}

fn text(s: &str) -> Text {
    Text::from_str(s)
}

fn shown(text: &Text) -> String {
    text.bytes.iter().map(|b| *b as char).collect()
}

/// A registry at the given time, whose only administrator is account 1. Accounts 1 to 9
/// authorize what follows.
fn registry(now: u64) -> Env {
    let mut env = Env::new(now);
    for n in 1..10 {
        env.authorize(account(n));
    }
    assert_eq!(TrustLinkContract::initialize(&mut env, account(1), None), Ok(()));
    env.effects.clear();
    env
}

#[test]
fn a_new_registry_is_not_initialized() {
    let env = Env::new(5);
    assert_eq!(TrustLinkContract::get_admin(&env), Err(Error::NotInitialized));
    assert_eq!(TrustLinkContract::get_version(&env).err(), Some(Error::NotInitialized));
    assert_eq!(TrustLinkContract::get_fee_config(&env), Err(Error::NotInitialized));
    assert_eq!(TrustLinkContract::get_contract_metadata(&env).err(), Some(Error::NotInitialized));
    assert_eq!(
        TrustLinkContract::health_check(&env),
        HealthStatus {
            initialized: false,
            admin_set: false,
            issuer_count: 0,
            total_attestations: 0
        }
    );
    assert!(!TrustLinkContract::is_paused(&env));
}

#[test]
fn initialization_sets_the_stage() {
    let mut env = Env::new(77);
    env.authorize(account(1));
    assert_eq!(TrustLinkContract::initialize(&mut env, account(1), None), Ok(()));
    assert_eq!(TrustLinkContract::get_admin(&env), Ok(account(1)));
    assert_eq!(shown(&TrustLinkContract::get_version(&env).unwrap()), "1.0.0");
    assert_eq!(
        TrustLinkContract::get_fee_config(&env),
        Ok(FeeConfig { attestation_fee: 0, fee_collector: account(1), fee_token: None })
    );
    assert_eq!(env.ttl_config.unwrap().ttl_days, 30);
    assert_eq!(env.instance_ttl, 518_400);
    assert_eq!(env.effects.len(), 1);
    assert!(matches!(
        &env.effects[0],
        Effect::Publish(Event::AdminInitialized { admin, timestamp: 77 }) if *admin == account(1)
    ));
    let health = TrustLinkContract::health_check(&env);
    assert!(health.initialized && health.admin_set);
}

#[test]
fn initialization_happens_only_once() {
    let mut env = registry(0);
    assert_eq!(
        TrustLinkContract::initialize(&mut env, account(2), Some(7)),
        Err(Error::AlreadyInitialized)
    );
    assert_eq!(TrustLinkContract::get_admin(&env), Ok(account(1)));
    assert_eq!(env.ttl_config.unwrap().ttl_days, 30);
    assert!(env.effects.is_empty());
}

#[test]
fn the_lifetime_of_data_can_be_chosen() {
    let mut env = Env::new(0);
    env.authorize(account(1));
    assert_eq!(TrustLinkContract::initialize(&mut env, account(1), Some(60)), Ok(()));
    assert_eq!(env.ttl_config.unwrap().ttl_days, 60);
    assert_eq!(env.instance_ttl, 518_400);
    assert_eq!(TrustLinkContract::set_rate_limit(&mut env, account(1), 5), Ok(()));
    assert_eq!(env.instance_ttl, 1_036_800);
}

#[test]
fn metadata_of_the_contract() {
    let env = registry(0);
    let metadata = TrustLinkContract::get_contract_metadata(&env).unwrap();
    assert_eq!(shown(&metadata.name), "TrustLink");
    assert_eq!(shown(&metadata.version), "1.0.0");
    assert_eq!(
        shown(&metadata.description),
        "On-chain attestation and verification system for the Stellar blockchain."
    );
}

#[test]
fn admins_are_added_and_removed() {
    let mut env = registry(9);
    assert_eq!(
        TrustLinkContract::remove_admin(&mut env, account(1), account(1)),
        Err(Error::LastAdminCannotBeRemoved)
    );
    assert_eq!(
        TrustLinkContract::add_admin(&mut env, account(2), account(3)),
        Err(Error::Unauthorized)
    );
    assert_eq!(TrustLinkContract::add_admin(&mut env, account(1), account(2)), Ok(()));
    assert_eq!(env.effects.len(), 1);
    assert!(matches!(
        &env.effects[0],
        Effect::Publish(Event::AdminAdded { by, admin, timestamp: 9 })
            if *by == account(1) && *admin == account(2)
    ));
    assert_eq!(TrustLinkContract::add_admin(&mut env, account(2), account(2)), Ok(()));
    assert_eq!(env.effects.len(), 1);
    assert_eq!(env.admin_council.as_ref().unwrap().len(), 2);
    assert_eq!(TrustLinkContract::remove_admin(&mut env, account(2), account(5)), Ok(()));
    assert_eq!(env.effects.len(), 1);
    assert_eq!(TrustLinkContract::remove_admin(&mut env, account(2), account(1)), Ok(()));
    assert_eq!(TrustLinkContract::get_admin(&env), Ok(account(2)));
    assert!(matches!(
        &env.effects[1],
        Effect::Publish(Event::AdminRemoved { by, admin, timestamp: 9 })
            if *by == account(2) && *admin == account(1)
    ));
    assert_eq!(
        TrustLinkContract::remove_admin(&mut env, account(2), account(2)),
        Err(Error::LastAdminCannotBeRemoved)
    );
    assert_eq!(
        TrustLinkContract::remove_admin(&mut env, account(1), account(2)),
        Err(Error::Unauthorized)
    );
}

#[test]
fn an_admin_hands_over() {
    let mut env = registry(0);
    assert_eq!(
        TrustLinkContract::transfer_admin(&mut env, account(2), account(2)),
        Err(Error::Unauthorized)
    );
    assert_eq!(TrustLinkContract::transfer_admin(&mut env, account(1), account(2)), Ok(()));
    assert_eq!(TrustLinkContract::get_admin(&env), Ok(account(2)));
    assert_eq!(env.admin_council.as_ref().unwrap().len(), 1);
    assert!(matches!(
        &env.effects[0],
        Effect::Publish(Event::AdminTransferred { current_admin, new_admin })
            if *current_admin == account(1) && *new_admin == account(2)
    ));
}

#[test]
fn the_only_admin_can_hand_over_to_nobody() {
    let mut env = registry(0);
    assert_eq!(TrustLinkContract::transfer_admin(&mut env, account(1), account(1)), Ok(()));
    assert_eq!(TrustLinkContract::get_admin(&env), Err(Error::NotInitialized));
    assert!(!TrustLinkContract::health_check(&env).initialized);
}

#[test]
fn writes_are_paused_and_resumed() {
    let mut env = registry(3);
    assert_eq!(TrustLinkContract::pause(&mut env, account(2)), Err(Error::Unauthorized));
    assert_eq!(TrustLinkContract::pause(&mut env, account(1)), Ok(()));
    assert!(TrustLinkContract::is_paused(&env));
    assert_eq!(TrustLinkContract::unpause(&mut env, account(2)), Err(Error::Unauthorized));
    assert_eq!(TrustLinkContract::unpause(&mut env, account(1)), Ok(()));
    assert!(!TrustLinkContract::is_paused(&env));
    assert!(matches!(
        &env.effects[0],
        Effect::Publish(Event::ContractPaused { admin, timestamp: 3 }) if *admin == account(1)
    ));
    assert!(matches!(
        &env.effects[1],
        Effect::Publish(Event::ContractUnpaused { admin, timestamp: 3 }) if *admin == account(1)
    ));
}

#[test]
fn fees_are_set() {
    let token = Address::contract(0, 50);
    let mut env = registry(0);
    assert_eq!(
        TrustLinkContract::set_fee(&mut env, account(2), 5, account(3), Some(token)),
        Err(Error::Unauthorized)
    );
    assert_eq!(
        TrustLinkContract::set_fee(&mut env, account(1), -5, account(3), Some(token)),
        Err(Error::InvalidFee)
    );
    assert_eq!(
        TrustLinkContract::set_fee(&mut env, account(1), 5, account(3), None),
        Err(Error::FeeTokenRequired)
    );
    assert_eq!(
        TrustLinkContract::set_fee(&mut env, account(1), 5, account(1), Some(token)),
        Err(Error::Unauthorized)
    );
    assert!(env.effects.is_empty());
    assert_eq!(
        TrustLinkContract::set_fee(&mut env, account(1), 5, account(3), Some(token)),
        Ok(())
    );
    assert_eq!(
        TrustLinkContract::get_fee_config(&env),
        Ok(FeeConfig {
            attestation_fee: 5,
            fee_collector: account(3),
            fee_token: Some(token)
        })
    );
    assert_eq!(env.effects.len(), 1);
    assert!(matches!(&env.effects[0], Effect::ProbeToken { token: t } if *t == token));
    assert_eq!(TrustLinkContract::set_fee(&mut env, account(1), 0, account(3), None), Ok(()));
    assert_eq!(env.effects.len(), 1);
}

#[test]
fn limits_are_set() {
    let mut env = registry(0);
    assert_eq!(
        TrustLinkContract::get_limits(&env),
        StorageLimits {
            max_attestations_per_issuer: 10_000,
            max_attestations_per_subject: 100
        }
    );
    assert_eq!(
        TrustLinkContract::set_limits(&mut env, account(2), 1, 1),
        Err(Error::Unauthorized)
    );
    assert_eq!(TrustLinkContract::set_limits(&mut env, account(1), 3, 2), Ok(()));
    assert_eq!(
        TrustLinkContract::get_limits(&env),
        StorageLimits { max_attestations_per_issuer: 3, max_attestations_per_subject: 2 }
    );
    let mut fresh = Env::new(0);
    fresh.authorize(account(1));
    assert_eq!(
        TrustLinkContract::set_limits(&mut fresh, account(1), 3, 2),
        Err(Error::NotInitialized)
    );
}

#[test]
fn rate_limits_are_set() {
    let mut env = registry(0);
    assert_eq!(TrustLinkContract::get_rate_limit(&env), None);
    assert_eq!(
        TrustLinkContract::set_rate_limit(&mut env, account(2), 60),
        Err(Error::Unauthorized)
    );
    assert_eq!(TrustLinkContract::set_rate_limit(&mut env, account(1), 60), Ok(()));
    assert_eq!(
        TrustLinkContract::get_rate_limit(&env),
        Some(RateLimitConfig { min_issuance_interval: 60 })
    );
}

#[test]
fn claim_types_are_registered_and_listed() {
    let mut env = registry(0);
    assert_eq!(
        TrustLinkContract::register_claim_type(&mut env, account(2), text("KYC"), text("d")),
        Err(Error::Unauthorized)
    );
    assert_eq!(
        TrustLinkContract::register_claim_type(&mut env, account(1), text("K YC"), text("d")),
        Err(Error::InvalidClaimType)
    );
    for name in ["KYC", "AML", "AGE"] {
        assert_eq!(
            TrustLinkContract::register_claim_type(&mut env, account(1), text(name), text("d")),
            Ok(())
        );
    }
    assert_eq!(
        TrustLinkContract::register_claim_type(&mut env, account(1), text("AML"), text("new")),
        Ok(())
    );
    assert_eq!(env.effects.len(), 4);
    let list = |start: u32, limit: u32| -> Vec<String> {
        TrustLinkContract::list_claim_types(&env, start, limit).iter().map(shown).collect()
    };
    assert_eq!(list(0, 10), ["KYC", "AML", "AGE"]);
    assert_eq!(list(0, 2), ["KYC", "AML"]);
    assert_eq!(list(2, 2), ["AGE"]);
    assert_eq!(list(3, 2), Vec::<String>::new());
    assert_eq!(list(1, 0), Vec::<String>::new());
    assert_eq!(list(1, u32::MAX), ["AML", "AGE"]);
    assert_eq!(list(u32::MAX, u32::MAX), Vec::<String>::new());
    let description = TrustLinkContract::get_claim_type_description(&env, text("AML")).unwrap();
    assert_eq!(shown(&description), "new");
    assert!(TrustLinkContract::get_claim_type_description(&env, text("XYZ")).is_none());
}

#[test]
fn issuers_are_registered_and_removed() {
    let mut env = registry(4);
    assert!(!TrustLinkContract::is_issuer(&env, account(2)));
    assert_eq!(
        TrustLinkContract::register_issuer(&mut env, account(2), account(2)),
        Err(Error::Unauthorized)
    );
    assert_eq!(TrustLinkContract::register_issuer(&mut env, account(1), account(2)), Ok(()));
    assert!(TrustLinkContract::is_issuer(&env, account(2)));
    assert_eq!(TrustLinkContract::health_check(&env).issuer_count, 1);
    assert_eq!(
        TrustLinkContract::get_issuer_stats(&env, account(2)),
        IssuerStats { total_issued: 0 }
    );
    assert_eq!(
        TrustLinkContract::remove_issuer(&mut env, account(2), account(2)),
        Err(Error::Unauthorized)
    );
    assert_eq!(TrustLinkContract::remove_issuer(&mut env, account(1), account(2)), Ok(()));
    assert!(!TrustLinkContract::is_issuer(&env, account(2)));
    assert_eq!(TrustLinkContract::remove_issuer(&mut env, account(1), account(2)), Ok(()));
    assert_eq!(
        TrustLinkContract::get_global_stats(&env),
        GlobalStats { total_attestations: 0, total_revocations: 0, total_issuers: 0 }
    );
    assert!(matches!(
        &env.effects[0],
        Effect::Publish(Event::IssuerRegistered { issuer, admin, timestamp: 4 })
            if *issuer == account(2) && *admin == account(1)
    ));
    assert!(matches!(
        &env.effects[1],
        Effect::Publish(Event::IssuerRemoved { issuer, admin, timestamp: 4 })
            if *issuer == account(2) && *admin == account(1)
    ));
}

#[test]
fn tiers_are_for_registered_issuers() {
    let mut env = registry(0);
    assert_eq!(
        TrustLinkContract::update_issuer_tier(
            &mut env,
            account(1),
            account(2),
            IssuerTier::Premium
        ),
        Err(Error::Unauthorized)
    );
    assert_eq!(TrustLinkContract::register_issuer(&mut env, account(1), account(2)), Ok(()));
    assert_eq!(TrustLinkContract::get_issuer_tier(&env, account(2)), None);
    assert_eq!(
        TrustLinkContract::update_issuer_tier(
            &mut env,
            account(1),
            account(2),
            IssuerTier::Premium
        ),
        Ok(())
    );
    assert_eq!(
        TrustLinkContract::get_issuer_tier(&env, account(2)),
        Some(IssuerTier::Premium)
    );
    assert_eq!(TrustLinkContract::remove_issuer(&mut env, account(1), account(2)), Ok(()));
    assert_eq!(TrustLinkContract::get_issuer_tier(&env, account(2)), None);
    assert!(IssuerTier::Basic.rank() < IssuerTier::Verified.rank());
    assert!(IssuerTier::Verified.rank() < IssuerTier::Premium.rank());
}

#[test]
fn issuers_describe_themselves() {
    let mut env = registry(0);
    let metadata = || IssuerMetadata {
        name: text("Bank"),
        url: text("https://bank.example"),
        description: text("A bank"),
    };
    assert_eq!(
        TrustLinkContract::set_issuer_metadata(&mut env, account(2), metadata()),
        Err(Error::Unauthorized)
    );
    assert!(TrustLinkContract::get_issuer_metadata(&env, account(2)).is_none());
    assert_eq!(TrustLinkContract::register_issuer(&mut env, account(1), account(2)), Ok(()));
    assert_eq!(
        TrustLinkContract::set_issuer_metadata(&mut env, account(2), metadata()),
        Ok(())
    );
    let read = TrustLinkContract::get_issuer_metadata(&env, account(2)).unwrap();
    assert_eq!(format!("{:?}", read), format!("{:?}", metadata()));
}

#[test]
fn bridges_are_registered() {
    let bridge = Address::contract(0, 60);
    let mut env = registry(0);
    assert_eq!(
        TrustLinkContract::register_bridge(&mut env, account(2), bridge),
        Err(Error::Unauthorized)
    );
    assert!(!TrustLinkContract::is_bridge(&env, bridge));
    assert_eq!(TrustLinkContract::register_bridge(&mut env, account(1), bridge), Ok(()));
    assert!(TrustLinkContract::is_bridge(&env, bridge));
}

#[test]
fn whitelists_are_kept() {
    let mut env = registry(0);
    assert_eq!(
        TrustLinkContract::set_whitelist_enabled(&mut env, account(2), true),
        Err(Error::Unauthorized)
    );
    assert_eq!(
        TrustLinkContract::enable_whitelist_mode(&mut env, account(2)),
        Err(Error::Unauthorized)
    );
    assert_eq!(
        TrustLinkContract::add_to_whitelist(&mut env, account(2), account(3)),
        Err(Error::Unauthorized)
    );
    assert_eq!(
        TrustLinkContract::remove_from_whitelist(&mut env, account(2), account(3)),
        Err(Error::Unauthorized)
    );
    assert_eq!(TrustLinkContract::register_issuer(&mut env, account(1), account(2)), Ok(()));
    env.effects.clear();
    assert!(!TrustLinkContract::is_whitelist_enabled(&env, account(2)));
    assert_eq!(TrustLinkContract::set_whitelist_enabled(&mut env, account(2), true), Ok(()));
    assert!(TrustLinkContract::is_whitelist_enabled(&env, account(2)));
    assert_eq!(TrustLinkContract::set_whitelist_enabled(&mut env, account(2), false), Ok(()));
    assert!(!TrustLinkContract::is_whitelist_enabled(&env, account(2)));
    assert!(env.effects.is_empty());
    assert_eq!(TrustLinkContract::enable_whitelist_mode(&mut env, account(2)), Ok(()));
    assert!(TrustLinkContract::is_whitelist_enabled(&env, account(2)));
    assert_eq!(TrustLinkContract::add_to_whitelist(&mut env, account(2), account(3)), Ok(()));
    assert!(TrustLinkContract::is_whitelisted(&env, account(2), account(3)));
    assert!(!TrustLinkContract::is_whitelisted(&env, account(3), account(2)));
    assert_eq!(
        TrustLinkContract::remove_from_whitelist(&mut env, account(2), account(3)),
        Ok(())
    );
    assert!(!TrustLinkContract::is_whitelisted(&env, account(2), account(3)));
    assert!(matches!(
        &env.effects[0],
        Effect::Publish(Event::WhitelistModeEnabled { issuer }) if *issuer == account(2)
    ));
    assert!(matches!(
        &env.effects[1],
        Effect::Publish(Event::WhitelistUpdated { added: true, .. })
    ));
    assert!(matches!(
        &env.effects[2],
        Effect::Publish(Event::WhitelistUpdated { added: false, .. })
    ));
}

#[test]
fn the_council_is_set_up() {
    let mut env = registry(0);
    assert!(TrustLinkContract::get_council(&env).is_none());
    let members = || vec![account(4), account(5), account(6)];
    assert_eq!(
        TrustLinkContract::init_council(&mut env, account(2), members(), 2),
        Err(Error::Unauthorized)
    );
    assert_eq!(
        TrustLinkContract::init_council(&mut env, account(1), members(), 0),
        Err(Error::InvalidQuorum)
    );
    assert_eq!(
        TrustLinkContract::init_council(&mut env, account(1), members(), 4),
        Err(Error::InvalidQuorum)
    );
    assert_eq!(TrustLinkContract::init_council(&mut env, account(1), members(), 3), Ok(()));
    assert_eq!(TrustLinkContract::init_council(&mut env, account(1), members(), 2), Ok(()));
    let council = TrustLinkContract::get_council(&env).unwrap();
    assert_eq!(council.members, members());
    assert_eq!(council.quorum, 2);
    assert!(matches!(
        &env.effects[1],
        Effect::Publish(Event::CouncilInitialized { quorum: 2, member_count: 3 })
    ));
}

#[test]
fn the_council_removes_an_issuer() {
    let mut env = registry(8);
    assert_eq!(TrustLinkContract::register_issuer(&mut env, account(1), account(2)), Ok(()));
    let operation = CouncilOperation::RemoveIssuer(account(2));
    assert_eq!(
        TrustLinkContract::propose_council_action(&mut env, account(4), operation),
        Err(Error::CouncilNotInitialized)
    );
    assert_eq!(
        TrustLinkContract::approve_council_action(&mut env, account(4), 1),
        Err(Error::CouncilNotInitialized)
    );
    assert_eq!(
        TrustLinkContract::execute_council_action(&mut env, account(4), 1),
        Err(Error::CouncilNotInitialized)
    );
    let members = vec![account(4), account(5), account(6)];
    assert_eq!(TrustLinkContract::init_council(&mut env, account(1), members, 2), Ok(()));
    assert_eq!(
        TrustLinkContract::propose_council_action(&mut env, account(1), operation),
        Err(Error::Unauthorized)
    );
    env.effects.clear();
    assert_eq!(
        TrustLinkContract::propose_council_action(&mut env, account(5), operation),
        Ok(1)
    );
    assert_eq!(
        TrustLinkContract::execute_council_action(&mut env, account(5), 1),
        Err(Error::QuorumNotReached)
    );
    assert_eq!(
        TrustLinkContract::approve_council_action(&mut env, account(5), 1),
        Err(Error::AlreadyApproved)
    );
    assert_eq!(
        TrustLinkContract::approve_council_action(&mut env, account(1), 1),
        Err(Error::Unauthorized)
    );
    assert_eq!(
        TrustLinkContract::approve_council_action(&mut env, account(6), 2),
        Err(Error::NotFound)
    );
    assert_eq!(TrustLinkContract::approve_council_action(&mut env, account(6), 1), Ok(()));
    assert_eq!(
        TrustLinkContract::execute_council_action(&mut env, account(1), 1),
        Err(Error::Unauthorized)
    );
    assert_eq!(
        TrustLinkContract::execute_council_action(&mut env, account(4), 9),
        Err(Error::NotFound)
    );
    assert!(TrustLinkContract::is_issuer(&env, account(2)));
    assert_eq!(TrustLinkContract::execute_council_action(&mut env, account(4), 1), Ok(()));
    assert!(!TrustLinkContract::is_issuer(&env, account(2)));
    assert_eq!(TrustLinkContract::health_check(&env).issuer_count, 1);
    assert_eq!(
        TrustLinkContract::execute_council_action(&mut env, account(4), 1),
        Err(Error::AlreadyExecuted)
    );
    assert_eq!(
        TrustLinkContract::approve_council_action(&mut env, account(4), 1),
        Err(Error::AlreadyExecuted)
    );
    let proposal = TrustLinkContract::get_council_proposal(&env, 1).unwrap();
    assert_eq!(proposal.approvals, [account(5), account(6)]);
    assert!(proposal.executed);
    assert!(TrustLinkContract::get_council_proposal(&env, 2).is_none());
    assert_eq!(env.effects.len(), 4);
    assert!(matches!(
        &env.effects[0],
        Effect::Publish(Event::ProposalCreated { id: 1, proposer }) if *proposer == account(5)
    ));
    assert!(matches!(
        &env.effects[1],
        Effect::Publish(Event::ProposalApproved { id: 1, approver }) if *approver == account(6)
    ));
    assert!(matches!(
        &env.effects[2],
        Effect::Publish(Event::IssuerRemoved { issuer, admin, timestamp: 8 })
            if *issuer == account(2) && *admin == account(4)
    ));
    assert!(matches!(&env.effects[3], Effect::Publish(Event::ProposalExecuted { id: 1 })));
}

#[test]
fn the_council_pauses_writes() {
    let mut env = registry(0);
    let members = vec![account(4)];
    assert_eq!(TrustLinkContract::init_council(&mut env, account(1), members, 1), Ok(()));
    assert_eq!(
        TrustLinkContract::propose_council_action(
            &mut env,
            account(4),
            CouncilOperation::PauseContract
        ),
        Ok(1)
    );
    assert_eq!(
        TrustLinkContract::propose_council_action(
            &mut env,
            account(4),
            CouncilOperation::PauseContract
        ),
        Ok(2)
    );
    assert_eq!(TrustLinkContract::execute_council_action(&mut env, account(4), 2), Ok(()));
    assert!(TrustLinkContract::is_paused(&env));
    assert!(!TrustLinkContract::get_council_proposal(&env, 1).unwrap().executed);
}

use trustlink::address::Address;
use trustlink::env::Env;
use trustlink::storage::{paginate, Storage, StorageKey};
use trustlink::table::Table;
use trustlink::text::Text;
use trustlink::types::{Error, GlobalStats, TtlConfig};

fn account(n: u128) -> Address {
    Address::account(0, n)
}

fn text(s: &str) -> Text {
    Text::from_str(s)
}

fn all_shown(texts: &Vec<Text>) -> Vec<String> {
    texts.iter().map(|t| t.bytes.iter().map(|b| *b as char).collect()).collect()
}

#[test]
fn a_table_keeps_one_value_per_key() {
    let mut table: Table<Address, u32> = Table::new();
    assert_eq!(table.get(&account(1)), None);
    table.set(account(1), 10);
    table.set(account(2), 20);
    table.set(account(1), 11);
    assert_eq!(table.get(&account(1)), Some(&11));
    assert_eq!(table.get(&account(2)), Some(&20));
    assert_eq!(table.keys().len(), 2);
    table.remove(&account(1));
    assert!(!table.has(&account(1)));
    assert!(table.has(&account(2)));
    table.remove(&account(5));
    assert_eq!(table.keys(), [account(2)]);
}

#[test]
fn a_write_keeps_data_alive_for_thirty_days_by_default() {
    let mut env = Env::new(0);
    Storage::add_issuer(&mut env, &account(2));
    let key = StorageKey::Issuer(account(2));
    assert_eq!(env.lifetimes.get(&key), Some(&518_400));
    Storage::remove_issuer(&mut env, &account(2));
    assert_eq!(env.lifetimes.get(&key), None);
}

#[test]
fn a_lifetime_is_never_shortened() {
    let mut env = Env::new(0);
    Storage::set_ttl_config(&mut env, &TtlConfig { ttl_days: 90 });
    assert_eq!(env.instance_ttl, 518_400);
    Storage::add_bridge(&mut env, &account(2));
    let key = StorageKey::Bridge(account(2));
    assert_eq!(env.lifetimes.get(&key), Some(&1_555_200));
    Storage::set_ttl_config(&mut env, &TtlConfig { ttl_days: 1 });
    assert_eq!(env.instance_ttl, 1_555_200);
    Storage::add_bridge(&mut env, &account(2));
    assert_eq!(env.lifetimes.get(&key), Some(&1_555_200));
    Storage::add_bridge(&mut env, &account(3));
    assert_eq!(env.lifetimes.get(&StorageKey::Bridge(account(3))), Some(&17_280));
}

#[test]
fn reading_keeps_nothing_alive() {
    let mut env = Env::new(0);
    Storage::add_subject_attestation(&mut env, &account(7), &text("a"));
    let before = format!("{:?}", env);
    assert_eq!(all_shown(&Storage::get_subject_attestations(&env, &account(7))), ["a"]);
    assert!(Storage::get_issuer_attestations(&env, &account(7)).is_empty());
    assert_eq!(Storage::get_attestation(&env, &text("a")).err(), Some(Error::NotFound));
    assert_eq!(format!("{:?}", env), before);
}

#[test]
fn an_index_loses_every_occurrence() {
    let mut env = Env::new(0);
    for id in ["a", "b", "a", "c"] {
        Storage::add_issuer_attestation(&mut env, &account(2), &text(id));
    }
    Storage::remove_issuer_attestation(&mut env, &account(2), &text("a"));
    assert_eq!(all_shown(&Storage::get_issuer_attestations(&env, &account(2))), ["b", "c"]);
    Storage::remove_issuer_attestation(&mut env, &account(2), &text("x"));
    assert_eq!(all_shown(&Storage::get_issuer_attestations(&env, &account(2))), ["b", "c"]);
}

#[test]
fn counters_stop_at_their_ends() {
    let mut env = Env::new(0);
    Storage::decrement_total_issuers(&mut env);
    assert_eq!(Storage::get_global_stats(&env).total_issuers, 0);
    env.global_stats = GlobalStats {
        total_attestations: u64::MAX - 1,
        total_revocations: u64::MAX,
        total_issuers: u64::MAX,
    };
    Storage::increment_total_attestations(&mut env, 3);
    Storage::increment_total_revocations(&mut env, 1);
    Storage::increment_total_issuers(&mut env);
    let stats = Storage::get_global_stats(&env);
    assert_eq!(stats.total_attestations, u64::MAX);
    assert_eq!(stats.total_revocations, u64::MAX);
    assert_eq!(stats.total_issuers, u64::MAX);
}

#[test]
fn admins_are_stored_once() {
    let mut env = Env::new(0);
    assert!(!Storage::has_admin(&env));
    assert_eq!(Storage::get_admin_council(&env), Err(Error::NotInitialized));
    Storage::add_admin(&mut env, &account(1));
    Storage::add_admin(&mut env, &account(2));
    Storage::add_admin(&mut env, &account(1));
    assert_eq!(Storage::get_admin_council(&env), Ok(vec![account(1), account(2)]));
    Storage::remove_admin(&mut env, &account(1));
    assert_eq!(Storage::get_admin(&env), Ok(account(2)));
    Storage::remove_admin(&mut env, &account(2));
    assert_eq!(Storage::get_admin_council(&env), Ok(vec![]));
    assert!(!Storage::has_admin(&env));
    assert_eq!(Storage::get_admin(&env), Err(Error::NotInitialized));
    Storage::set_admin(&mut env, &account(3));
    assert!(Storage::is_admin(&env, &account(3)));
    assert!(!Storage::is_admin(&env, &account(2)));
}

#[test]
fn proposals_are_numbered_from_one() {
    let mut env = Env::new(0);
    assert_eq!(Storage::next_proposal_id(&mut env), 1);
    assert_eq!(Storage::next_proposal_id(&mut env), 2);
}

#[test]
fn pages_join_to_the_whole_list() {
    let list: Vec<Text> = ["a", "b", "c", "d", "e"].iter().map(|s| text(s)).collect();
    let page = |start: u32, limit: u32| all_shown(&paginate(&list, start, limit));
    for first in 0..7 {
        for second in 0..7 {
            let mut joined = page(0, first);
            joined.extend(page(first, second));
            assert_eq!(joined, page(0, first + second));
        }
    }
    assert_eq!(page(4, u32::MAX), ["e"]);
    assert_eq!(page(u32::MAX, 1), Vec::<String>::new());
}

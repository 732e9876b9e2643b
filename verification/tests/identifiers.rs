use trustlink::address::Address;
use trustlink::text::Text;
use trustlink::types::{Attestation, MultiSigProposal};

fn shown(text: &Text) -> String {
    text.bytes.iter().map(|b| *b as char).collect()
}

fn account(n: u128) -> Address {
    Address::account(0, n)
}

#[test]
fn an_identifier_has_an_exact_form() {
    let id = Attestation::generate_id(
        &Address::account(0x0123456789abcdef, 0xfedcba9876543210),
        &Address::contract(1, 2),
        &Text::from_str("KYC"),
        0x65,
    );
    let zeros = "0000000000000000";
    let expected = format!(
        "aG{zeros}0123456789abcdef{zeros}fedcba9876543210\
         C{zeros}0000000000000001{zeros}0000000000000002\
         0000000000000065KYC"
    );
    assert_eq!(shown(&id), expected);
}

#[test]
fn a_bridged_identifier_has_an_exact_form() {
    let zeros = "0000000000000000";
    let id = Attestation::generate_bridge_id(
        &Address::contract(0, 3),
        &Address::account(0, 4),
        &Text::from_str("KYC"),
        &Text::from_str("ethereum"),
        &Text::from_str("0xab"),
        1,
    );
    let expected = format!(
        "bC{zeros}{zeros}{zeros}0000000000000003\
         G{zeros}{zeros}{zeros}0000000000000004\
         0000000000000001\
         0000000000000003KYC0000000000000008ethereum0xab"
    );
    assert_eq!(shown(&id), expected);
}

#[test]
fn the_same_input_gives_the_same_identifier() {
    let kyc = Text::from_str("KYC");
    let one = Attestation::generate_id(&account(1), &account(2), &kyc, 1_000);
    let two = Attestation::generate_id(&account(1), &account(2), &kyc, 1_000);
    assert!(one.same(&two));
}

#[test]
fn another_input_gives_another_identifier() {
    let kyc = Text::from_str("KYC");
    let aml = Text::from_str("AML");
    let ids = vec![
        Attestation::generate_id(&account(1), &account(2), &kyc, 1_000),
        Attestation::generate_id(&account(2), &account(1), &kyc, 1_000),
        Attestation::generate_id(&account(1), &account(3), &kyc, 1_000),
        Attestation::generate_id(&account(1), &account(2), &aml, 1_000),
        Attestation::generate_id(&account(1), &account(2), &kyc, 1_001),
        Attestation::generate_id(&Address::contract(0, 1), &account(2), &kyc, 1_000),
        Attestation::generate_bridge_id(&account(1), &account(2), &kyc, &aml, &aml, 1_000),
        MultiSigProposal::generate_id(&account(1), &account(2), &kyc, 1_000),
    ];
    for i in 0..ids.len() {
        for j in 0..ids.len() {
            assert_eq!(ids[i].same(&ids[j]), i == j, "{i} {j}");
        }
    }
}

#[test]
fn bridged_identifiers_keep_their_parts_apart() {
    let id = |claim: &str, chain: &str, tx: &str| {
        Attestation::generate_bridge_id(
            &account(1),
            &account(2),
            &Text::from_str(claim),
            &Text::from_str(chain),
            &Text::from_str(tx),
            7,
        )
    };
    assert!(!id("ab", "c", "d").same(&id("a", "bc", "d")));
    assert!(!id("a", "bc", "d").same(&id("a", "b", "cd")));
    assert!(id("a", "b", "c").same(&id("a", "b", "c")));
}

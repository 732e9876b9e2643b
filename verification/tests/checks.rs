use trustlink::address::Address;
use trustlink::env::Env;
use trustlink::jurisdiction::check_country_code;
use trustlink::storage::Storage;
use trustlink::text::Text;
use trustlink::types::{Error, RateLimitConfig};
use trustlink::validation::{
    check_rate_limit, validate_claim_type, validate_fee_config, validate_import_timestamps,
    validate_jurisdiction, validate_metadata, validate_native_expiration, validate_reason,
    validate_tags, Validation,
};

fn text(s: &str) -> Text {
    Text::from_str(s)
}

fn of_length(n: usize) -> Text {
    Text::from_str(&"x".repeat(n))
}

#[test]
fn text_equality_is_by_bytes() {
    assert!(text("KYC").same(&text("KYC")));
    assert!(!text("KYC").same(&text("KYc")));
    assert!(!text("KYC").same(&text("KYC ")));
    assert_eq!(text("KYC").len(), 3);
    assert_eq!(text("").len(), 0);
    assert!(text("KYC").clone().same(&text("KYC")));
}

#[test]
fn metadata_has_at_most_256_bytes() {
    assert_eq!(validate_metadata(&None), Ok(()));
    assert_eq!(validate_metadata(&Some(of_length(256))), Ok(()));
    assert_eq!(validate_metadata(&Some(of_length(257))), Err(Error::MetadataTooLong));
}

#[test]
fn claim_types_have_1_to_64_bytes() {
    assert_eq!(validate_claim_type(&text("")), Err(Error::InvalidClaimType));
    assert_eq!(validate_claim_type(&text("K")), Ok(()));
    assert_eq!(validate_claim_type(&of_length(64)), Ok(()));
    assert_eq!(validate_claim_type(&of_length(65)), Err(Error::InvalidClaimType));
}

#[test]
fn claim_types_hold_letters_digits_underscores_and_hyphens() {
    assert_eq!(validate_claim_type(&text("AZaz09_-")), Ok(()));
    for bad in ["KYC PASSED", "KYC.PASSED", "@", "[", "`", "{", "/", ":", "\u{e9}"] {
        assert_eq!(validate_claim_type(&text(bad)), Err(Error::InvalidClaimType), "{bad}");
    }
    for byte in 0u8..128 {
        let c = byte as char;
        let expected = c.is_ascii_alphanumeric() || c == '_' || c == '-';
        assert_eq!(validate_claim_type(&text(&c.to_string())).is_ok(), expected, "{byte}");
    }
}

#[test]
fn reasons_have_at_most_128_bytes() {
    assert_eq!(validate_reason(&None), Ok(()));
    assert_eq!(validate_reason(&Some(of_length(128))), Ok(()));
    assert_eq!(validate_reason(&Some(of_length(129))), Err(Error::ReasonTooLong));
}

#[test]
fn tags_are_few_and_short() {
    let tags = |n: usize, len: usize| Some((0..n).map(|_| of_length(len)).collect::<Vec<Text>>());
    assert_eq!(validate_tags(&None), Ok(()));
    assert_eq!(validate_tags(&tags(0, 0)), Ok(()));
    assert_eq!(validate_tags(&tags(5, 32)), Ok(()));
    assert_eq!(validate_tags(&tags(6, 1)), Err(Error::TooManyTags));
    assert_eq!(validate_tags(&tags(1, 33)), Err(Error::TagTooLong));
    assert_eq!(validate_tags(&tags(6, 33)), Err(Error::TooManyTags));
    let mixed = Some(vec![of_length(1), of_length(33)]);
    assert_eq!(validate_tags(&mixed), Err(Error::TagTooLong));
}

#[test]
fn jurisdictions_are_country_codes() {
    assert_eq!(validate_jurisdiction(&None), Ok(()));
    for good in ["AF", "US", "DE", "GB", "ZW", "BQ", "AX"] {
        assert_eq!(validate_jurisdiction(&Some(text(good))), Ok(()), "{good}");
    }
    for bad in ["", "U", "USA", "us", "Us", "XX", "UK", "EU", "ZZ", "A1"] {
        assert_eq!(
            validate_jurisdiction(&Some(text(bad))),
            Err(Error::InvalidJurisdiction),
            "{bad}"
        );
    }
}

#[test]
fn there_are_249_country_codes() {
    let mut count = 0;
    for a in 0u8..128 {
        for b in 0u8..128 {
            if check_country_code(a as char, b as char) {
                count += 1;
            }
        }
    }
    assert_eq!(count, 249);
}

#[test]
fn native_expirations_lie_in_the_future() {
    let env = Env::new(1_000);
    assert_eq!(validate_native_expiration(&env, None), Ok(()));
    assert_eq!(validate_native_expiration(&env, Some(1_001)), Ok(()));
    assert_eq!(validate_native_expiration(&env, Some(1_000)), Err(Error::InvalidExpiration));
    assert_eq!(validate_native_expiration(&env, Some(0)), Err(Error::InvalidExpiration));
}

#[test]
fn imported_times_are_in_order() {
    let env = Env::new(1_000);
    assert_eq!(validate_import_timestamps(&env, 1_000, None), Ok(()));
    assert_eq!(validate_import_timestamps(&env, 1_001, None), Err(Error::InvalidTimestamp));
    assert_eq!(validate_import_timestamps(&env, 500, Some(501)), Ok(()));
    assert_eq!(validate_import_timestamps(&env, 500, Some(500)), Err(Error::InvalidExpiration));
    assert_eq!(validate_import_timestamps(&env, 1_001, Some(0)), Err(Error::InvalidTimestamp));
}

#[test]
fn fees_are_not_negative_and_name_their_token() {
    let token = Some(Address::contract(0, 9));
    assert_eq!(validate_fee_config(0, &None), Ok(()));
    assert_eq!(validate_fee_config(0, &token), Ok(()));
    assert_eq!(validate_fee_config(5, &token), Ok(()));
    assert_eq!(validate_fee_config(5, &None), Err(Error::FeeTokenRequired));
    assert_eq!(validate_fee_config(-1, &token), Err(Error::InvalidFee));
    assert_eq!(validate_fee_config(-1, &None), Err(Error::InvalidFee));
}

#[test]
fn rate_limits_count_from_the_last_issuance() {
    let issuer = Address::account(0, 2);
    let mut env = Env::new(1_000);
    assert_eq!(check_rate_limit(&env, &issuer), Ok(()));
    Storage::set_last_issuance_time(&mut env, &issuer, 1_000);
    assert_eq!(check_rate_limit(&env, &issuer), Ok(()));
    Storage::set_rate_limit_config(&mut env, &RateLimitConfig { min_issuance_interval: 60 });
    assert_eq!(check_rate_limit(&env, &issuer), Err(Error::RateLimited));
    env.timestamp = 1_059;
    assert_eq!(check_rate_limit(&env, &issuer), Err(Error::RateLimited));
    env.timestamp = 1_060;
    assert_eq!(check_rate_limit(&env, &issuer), Ok(()));
    env.timestamp = 10;
    assert_eq!(check_rate_limit(&env, &issuer), Err(Error::RateLimited));
    Storage::set_rate_limit_config(&mut env, &RateLimitConfig { min_issuance_interval: 0 });
    assert_eq!(check_rate_limit(&env, &issuer), Ok(()));
    assert_eq!(check_rate_limit(&env, &Address::account(0, 3)), Ok(()));
}

#[test]
fn roles_are_checked() {
    let who = Address::account(0, 1);
    let mut env = Env::new(0);
    assert_eq!(Validation::require_admin(&env, &who), Err(Error::NotInitialized));
    assert_eq!(Validation::require_issuer(&env, &who), Err(Error::Unauthorized));
    assert_eq!(Validation::require_bridge(&env, &who), Err(Error::Unauthorized));
    assert_eq!(Validation::require_not_paused(&env), Ok(()));
    Storage::set_admin(&mut env, &Address::account(0, 7));
    assert_eq!(Validation::require_admin(&env, &who), Err(Error::Unauthorized));
    Storage::add_admin(&mut env, &who);
    Storage::add_issuer(&mut env, &who);
    Storage::add_bridge(&mut env, &who);
    Storage::set_paused(&mut env, true);
    assert_eq!(Validation::require_admin(&env, &who), Ok(()));
    assert_eq!(Validation::require_issuer(&env, &who), Ok(()));
    assert_eq!(Validation::require_bridge(&env, &who), Ok(()));
    assert_eq!(Validation::require_not_paused(&env), Err(Error::ContractPaused));
}

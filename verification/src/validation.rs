//! The tests that a request has to pass.
//!
//! A test is stated as a function that gives the error on which the request
//! founders, or `None` where it passes. [`first`] puts tests in order.

use crate::address::Address;
use crate::env::{Env, EnvView};
use crate::jurisdiction::{check_country_code, is_country_code};
use crate::storage::Storage;
use crate::text::Text;
use crate::types::Error;
use vstd::prelude::*;

verus! {

/// The error of the first test that fails.
pub open spec fn first(earlier: Option<Error>, later: Option<Error>) -> Option<Error> {
    if earlier is Some {
        earlier
    } else {
        later
    }
}

/// The error `e` if the condition fails.
pub open spec fn unless(condition: bool, e: Error) -> Option<Error> {
    if condition {
        None
    } else {
        Some(e)
    }
}

/// The error of a result.
pub open spec fn refusal<T>(result: Result<T, Error>) -> Option<Error> {
    match result {
        Ok(_) => None,
        Err(e) => Some(e),
    }
}

/// Whether a claim type may hold the byte: letters, digits, `_` and `-`.
pub open spec fn claim_type_byte(byte: u8) -> bool {
    let c = byte as char;
    ('A' <= c && c <= 'Z') || ('a' <= c && c <= 'z') || ('0' <= c && c <= '9') || c == '_' || c
        == '-'
}

/// A claim type has 1 to 64 bytes, each of which it may hold.
pub open spec fn claim_type_error(claim_type: Seq<u8>) -> Option<Error> {
    unless(
        1 <= claim_type.len() <= 64 && forall|i: int|
            0 <= i < claim_type.len() ==> claim_type_byte(#[trigger] claim_type[i]),
        Error::InvalidClaimType,
    )
}

/// Metadata has at most 256 bytes.
pub open spec fn metadata_error(metadata: Option<Seq<u8>>) -> Option<Error> {
    unless(metadata is Some ==> metadata->0.len() <= 256, Error::MetadataTooLong)
}

/// A reason has at most 128 bytes.
pub open spec fn reason_error(reason: Option<Seq<u8>>) -> Option<Error> {
    unless(reason is Some ==> reason->0.len() <= 128, Error::ReasonTooLong)
}

/// There are at most five tags, of at most 32 bytes each.
pub open spec fn tags_error(tags: Option<Seq<Seq<u8>>>) -> Option<Error> {
    match tags {
        Some(list) => first(
            unless(list.len() <= 5, Error::TooManyTags),
            unless(
                forall|i: int| 0 <= i < list.len() ==> (#[trigger] list[i]).len() <= 32,
                Error::TagTooLong,
            ),
        ),
        None => None,
    }
}

/// A jurisdiction is an assigned country code.
pub open spec fn jurisdiction_error(jurisdiction: Option<Seq<u8>>) -> Option<Error> {
    unless(
        jurisdiction is Some ==> jurisdiction->0.len() == 2 && is_country_code(
            jurisdiction->0[0] as char,
            jurisdiction->0[1] as char,
        ),
        Error::InvalidJurisdiction,
    )
}

/// A native expiration lies after `now`.
pub open spec fn expiration_error(now: u64, expiration: Option<u64>) -> Option<Error> {
    unless(expiration is Some ==> expiration->0 > now, Error::InvalidExpiration)
}

/// An imported attestation was not made in the future, and expires after it was made.
pub open spec fn import_time_error(
    now: u64,
    timestamp: u64,
    expiration: Option<u64>,
) -> Option<Error> {
    first(
        unless(timestamp <= now, Error::InvalidTimestamp),
        unless(expiration is Some ==> expiration->0 > timestamp, Error::InvalidExpiration),
    )
}

/// A fee is not negative, and a positive one names its token.
pub open spec fn fee_terms_error(fee: i128, fee_token: Option<Address>) -> Option<Error> {
    first(
        unless(fee >= 0, Error::InvalidFee),
        unless(fee > 0 ==> fee_token is Some, Error::FeeTokenRequired),
    )
}

/// The ledger after a request: `done` if it passed, `before` if it was refused.
pub open spec fn settled(error: Option<Error>, done: EnvView, before: EnvView) -> EnvView {
    if error is None {
        done
    } else {
        before
    }
}

impl EnvView {
    /// `address` is an administrator.
    pub open spec fn admin_error(self, address: Address) -> Option<Error> {
        first(
            unless(self.has_admin(), Error::NotInitialized),
            unless(self.admins().contains(address), Error::Unauthorized),
        )
    }

    /// `address` is a registered issuer.
    pub open spec fn issuer_error(self, address: Address) -> Option<Error> {
        unless(self.issuers.contains_key(address), Error::Unauthorized)
    }

    /// `address` is a registered bridge contract.
    pub open spec fn bridge_error(self, address: Address) -> Option<Error> {
        unless(self.bridges.contains_key(address), Error::Unauthorized)
    }

    /// Attestation writes are not paused.
    pub open spec fn pause_error(self) -> Option<Error> {
        unless(!self.paused, Error::ContractPaused)
    }

    /// Enough time has passed since `issuer` last issued, if it ever did and there is a rate limit.
    pub open spec fn rate_error(self, issuer: Address) -> Option<Error> {
        let limited = self.rate_limit is Some && self.last_issuance.contains_key(issuer);
        let interval = self.rate_limit->0.min_issuance_interval;
        let elapsed = self.timestamp - self.last_issuance[issuer];
        unless(limited && interval > 0 ==> elapsed >= interval, Error::RateLimited)
    }

    /// The fee settings are there and can be charged by.
    pub open spec fn fee_error(self) -> Option<Error> {
        match self.fee_config {
            Some(config) => fee_terms_error(config.attestation_fee, config.fee_token),
            None => Some(Error::NotInitialized),
        }
    }
}

/// Metadata has at most 256 bytes.
pub fn validate_metadata(metadata: &Option<Text>) -> (r: Result<(), Error>)
    ensures
        refusal(r) == metadata_error(metadata.deep_view()),
{
    if let Some(value) = metadata {
        if value.len() > 256 {
            return Err(Error::MetadataTooLong);
        }
    }
    Ok(())
}

/// A claim type has 1 to 64 bytes: letters, digits, underscores and hyphens.
pub fn validate_claim_type(claim_type: &Text) -> (r: Result<(), Error>)
    ensures
        refusal(r) == claim_type_error(claim_type@),
{
    let len = claim_type.len();
    if len == 0 || len > 64 {
        return Err(Error::InvalidClaimType);
    }
    let mut i: usize = 0;
    while i < len
        invariant
            i <= len,
            len == claim_type@.len(),
            forall|j: int| 0 <= j < i ==> claim_type_byte(#[trigger] claim_type@[j]),
        decreases len - i,
    {
        let c = claim_type.bytes[i] as char;
        let allowed = ('A' <= c && c <= 'Z') || ('a' <= c && c <= 'z') || ('0' <= c && c <= '9')
            || c == '_' || c == '-';
        if !allowed {
            assert(!claim_type_byte(claim_type@[i as int]));
            return Err(Error::InvalidClaimType);
        }
        i += 1;
    }
    Ok(())
}

/// A reason has at most 128 bytes.
pub fn validate_reason(reason: &Option<Text>) -> (r: Result<(), Error>)
    ensures
        refusal(r) == reason_error(reason.deep_view()),
{
    if let Some(value) = reason {
        if value.len() > 128 {
            return Err(Error::ReasonTooLong);
        }
    }
    Ok(())
}

/// There are at most five tags, of at most 32 bytes each.
pub fn validate_tags(tags: &Option<Vec<Text>>) -> (r: Result<(), Error>)
    ensures
        refusal(r) == tags_error(tags.deep_view()),
{
    if let Some(list) = tags {
        if list.len() > 5 {
            return Err(Error::TooManyTags);
        }
        let mut i: usize = 0;
        while i < list.len()
            invariant
                i <= list.len(),
                list.len() <= 5,
                tags.deep_view() == Some(list.deep_view()),
                forall|j: int| 0 <= j < i ==> (#[trigger] list.deep_view()[j]).len() <= 32,
            decreases list.len() - i,
        {
            if list[i].len() > 32 {
                assert(list.deep_view()[i as int].len() > 32);
                return Err(Error::TagTooLong);
            }
            i += 1;
        }
    }
    Ok(())
}

/// A jurisdiction is an assigned two-letter country code.
pub fn validate_jurisdiction(jurisdiction: &Option<Text>) -> (r: Result<(), Error>)
    ensures
        refusal(r) == jurisdiction_error(jurisdiction.deep_view()),
{
    if let Some(code) = jurisdiction {
        if code.len() != 2 {
            return Err(Error::InvalidJurisdiction);
        }
        if !check_country_code(code.bytes[0] as char, code.bytes[1] as char) {
            return Err(Error::InvalidJurisdiction);
        }
    }
    Ok(())
}

/// A native expiration lies ahead.
pub fn validate_native_expiration(env: &Env, expiration: Option<u64>) -> (r: Result<(), Error>)
    ensures
        refusal(r) == expiration_error(env@.timestamp, expiration),
{
    if let Some(value) = expiration {
        if value <= env.timestamp {
            return Err(Error::InvalidExpiration);
        }
    }
    Ok(())
}

/// An imported attestation was not made in the future, and expires after it was made.
pub fn validate_import_timestamps(env: &Env, timestamp: u64, expiration: Option<u64>) -> (r: Result<
    (),
    Error,
>)
    ensures
        refusal(r) == import_time_error(env@.timestamp, timestamp, expiration),
{
    if timestamp > env.timestamp {
        return Err(Error::InvalidTimestamp);
    }
    if let Some(value) = expiration {
        if value <= timestamp {
            return Err(Error::InvalidExpiration);
        }
    }
    Ok(())
}

/// A fee is not negative, and a positive one names its token. Whether the token is one is asked
/// of the token contract itself, once the request has passed.
pub fn validate_fee_config(fee: i128, fee_token: &Option<Address>) -> (r: Result<(), Error>)
    ensures
        refusal(r) == fee_terms_error(fee, *fee_token),
{
    if fee < 0 {
        return Err(Error::InvalidFee);
    }
    if fee > 0 && fee_token.is_none() {
        return Err(Error::FeeTokenRequired);
    }
    Ok(())
}

/// Enough time has passed since `issuer` last issued.
pub fn check_rate_limit(env: &Env, issuer: &Address) -> (r: Result<(), Error>)
    ensures
        refusal(r) == env@.rate_error(*issuer),
{
    if let Some(config) = Storage::get_rate_limit_config(env) {
        if config.min_issuance_interval == 0 {
            return Ok(());
        }
        if let Some(last_issuance) = Storage::get_last_issuance_time(env, issuer) {
            let elapsed = env.timestamp.saturating_sub(last_issuance);
            if elapsed < config.min_issuance_interval {
                return Err(Error::RateLimited);
            }
        }
    }
    Ok(())
}

/// The roles and the state that requests depend on.
pub struct Validation;

impl Validation {
    /// `address` is an administrator.
    pub fn require_admin(env: &Env, address: &Address) -> (r: Result<(), Error>)
        ensures
            refusal(r) == env@.admin_error(*address),
    {
        if !Storage::has_admin(env) {
            return Err(Error::NotInitialized);
        }
        if !Storage::is_admin(env, address) {
            return Err(Error::Unauthorized);
        }
        Ok(())
    }

    /// `address` is a registered issuer.
    pub fn require_issuer(env: &Env, address: &Address) -> (r: Result<(), Error>)
        ensures
            refusal(r) == env@.issuer_error(*address),
    {
        if !Storage::is_issuer(env, address) {
            return Err(Error::Unauthorized);
        }
        Ok(())
    }

    /// `address` is a registered bridge contract.
    pub fn require_bridge(env: &Env, address: &Address) -> (r: Result<(), Error>)
        ensures
            refusal(r) == env@.bridge_error(*address),
    {
        if !Storage::is_bridge(env, address) {
            return Err(Error::Unauthorized);
        }
        Ok(())
    }

    /// Attestation writes are not paused.
    pub fn require_not_paused(env: &Env) -> (r: Result<(), Error>)
        ensures
            refusal(r) == env@.pause_error(),
    {
        if Storage::is_paused(env) {
            return Err(Error::ContractPaused);
        }
        Ok(())
    }
}

} // verus!

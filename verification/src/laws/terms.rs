//! What the words mean that the other laws use, in terms of the ledger itself.

use crate::address::Address;
use crate::admin::no_fee;
use crate::env::{empty_ledger, EnvView};
use crate::events::{EffectView, EventView};
use crate::jurisdiction::is_country_code;
use crate::list::{lemma_push, lemma_without, without};
use crate::storage::{find, lookup, saturated, StorageKeyView};
use crate::types::{AttestationStatus, AttestationView, Error, IssuerTier};
use crate::validation::{
    claim_type_error, expiration_error, fee_terms_error, first, import_time_error,
    jurisdiction_error, metadata_error, reason_error, refusal, settled, tags_error, unless,
};
use vstd::prelude::*;

verus! {

/// Of several tests the first that fails decides; a test fails with its own error exactly if its
/// condition does not hold; a result is refused exactly if it is an error.
pub proof fn tests_go_in_order<T>(
    earlier: Option<Error>,
    later: Option<Error>,
    holds: bool,
    e: Error,
    value: T,
)
    ensures
        earlier is Some ==> first(earlier, later) == earlier,
        earlier is None ==> first(earlier, later) == later,
        holds ==> unless(holds, e) is None,
        !holds ==> unless(holds, e) == Some(e),
        refusal(Err::<T, Error>(e)) == Some(e),
        refusal(Ok::<T, Error>(value)) is None,
{
}

/// A request that is refused leaves the ledger as it was, and one that passes leaves it as it
/// says.
pub proof fn refusals_settle_nothing(e: Error, done: EnvView, before: EnvView)
    ensures
        settled(None, done, before) == done,
        settled(Some(e), done, before) == before,
{
}

/// Looking something up gives what is there, and what was agreed on where nothing is.
pub proof fn lookups_find_what_is_there<K, V>(map: Map<K, V>, key: K, default: V)
    ensures
        map.contains_key(key) ==> lookup(map, key, default) == map[key] && find(map, key) == Some(
            map[key],
        ),
        !map.contains_key(key) ==> lookup(map, key, default) == default && find(map, key) is None,
{
}

/// The indexes, totals, logs and endorsements are those on the ledger, and empty where there are
/// none. Without settings, an issuer has at most ten thousand attestations and a subject a
/// hundred, and nobody is in whitelist mode.
pub proof fn the_ledger_is_read_as_it_stands(s: EnvView, who: Address, id: Seq<u8>)
    ensures
        s.subject_attestations.contains_key(who) ==> s.subject_ids(who)
            == s.subject_attestations[who],
        !s.subject_attestations.contains_key(who) ==> s.subject_ids(who).len() == 0,
        s.issuer_attestations.contains_key(who) ==> s.issuer_ids(who)
            == s.issuer_attestations[who],
        !s.issuer_attestations.contains_key(who) ==> s.issuer_ids(who).len() == 0,
        s.issuer_stats.contains_key(who) ==> s.stats_of(who) == s.issuer_stats[who],
        !s.issuer_stats.contains_key(who) ==> s.stats_of(who).total_issued == 0,
        s.audit_logs.contains_key(id) ==> s.audit_log(id) == s.audit_logs[id],
        !s.audit_logs.contains_key(id) ==> s.audit_log(id).len() == 0,
        s.endorsements.contains_key(id) ==> s.endorsements_of(id) == s.endorsements[id],
        !s.endorsements.contains_key(id) ==> s.endorsements_of(id).len() == 0,
        s.admin_council is Some ==> s.admins() == s.admin_council->0,
        s.admin_council is None ==> s.admins().len() == 0,
        s.has_admin() <==> s.admin_council is Some && s.admin_council->0.len() > 0,
        s.limits is Some ==> s.limits_in_force() == s.limits->0,
        s.limits is None ==> s.limits_in_force().max_attestations_per_issuer == 10_000
            && s.limits_in_force().max_attestations_per_subject == 100,
        s.whitelist_mode(who) <==> s.whitelist_modes.contains_key(who) && s.whitelist_modes[who],
        s.tier_of(who) is Some <==> s.issuers.contains_key(who) && s.issuer_tiers.contains_key(who),
        s.tier_of(who) is Some ==> s.tier_of(who)->0 == s.issuer_tiers[who],
        s.authorized(who) <==> exists|i: int|
            0 <= i < s.auths.len() && #[trigger] s.auths[i] == who,
{
}

/// A ledger that nobody has used yet is at its time, holds nothing, counts nothing and is not
/// paused.
pub proof fn new_ledgers_are_empty(timestamp: u64)
    ensures
        ({
            let s = empty_ledger(timestamp);
            &&& s.timestamp == timestamp
            &&& s.auths.len() == 0
            &&& s.admin_council is None
            &&& s.version is None
            &&& s.fee_config is None
            &&& s.ttl_config is None
            &&& s.rate_limit is None
            &&& s.limits is None
            &&& s.council is None
            &&& forall|k| !#[trigger] s.issuers.contains_key(k)
            &&& forall|k| !#[trigger] s.bridges.contains_key(k)
            &&& forall|k| !#[trigger] s.attestations.contains_key(k)
            &&& forall|k| !#[trigger] s.subject_attestations.contains_key(k)
            &&& forall|k| !#[trigger] s.issuer_attestations.contains_key(k)
            &&& forall|k| !#[trigger] s.issuer_metadata.contains_key(k)
            &&& forall|k| !#[trigger] s.claim_types.contains_key(k)
            &&& s.claim_type_list.len() == 0
            &&& forall|k| !#[trigger] s.council_proposals.contains_key(k)
            &&& forall|k| !#[trigger] s.issuer_tiers.contains_key(k)
            &&& forall|k| !#[trigger] s.issuer_stats.contains_key(k)
            &&& forall|k| !#[trigger] s.last_issuance.contains_key(k)
            &&& forall|k| !#[trigger] s.whitelist_modes.contains_key(k)
            &&& forall|k| !#[trigger] s.whitelist.contains_key(k)
            &&& forall|k| !#[trigger] s.audit_logs.contains_key(k)
            &&& forall|k| !#[trigger] s.multisig_proposals.contains_key(k)
            &&& forall|k| !#[trigger] s.endorsements.contains_key(k)
            &&& forall|k| !#[trigger] s.expiration_hooks.contains_key(k)
            &&& forall|k| !#[trigger] s.lifetimes.contains_key(k)
            &&& s.effects.len() == 0
            &&& s.global_stats.total_attestations == 0
            &&& s.global_stats.total_revocations == 0
            &&& s.global_stats.total_issuers == 0
            &&& s.proposal_counter == 0
            &&& !s.paused
            &&& s.instance_ttl == 0
        }),
{
}

/// More attestations of an issuer can be counted exactly if the total stays within sixty-four
/// bits; there is room for them exactly if lifetimes can be counted too. Of a proposal, it is the
/// proposer for whom the attestation is counted.
pub proof fn totals_can_be_counted(s: EnvView, issuer: Address, count: nat, id: Seq<u8>)
    ensures
        s.can_count(issuer, count) <==> s.stats_of(issuer).total_issued + count <= u64::MAX,
        s.has_room(issuer, count) <==> s.lifetime() <= 4_294_967_295 && s.stats_of(
            issuer,
        ).total_issued + count <= u64::MAX,
        s.can_count_proposal(id) <==> (s.multisig_proposals.contains_key(id) ==> s.stats_of(
            s.multisig_proposals[id].proposer,
        ).total_issued < u64::MAX),
{
}

/// Until fees are set there is none, without a token, and it would go to the administrator.
pub proof fn there_is_no_fee_at_first(admin: Address)
    ensures
        no_fee(admin).attestation_fee == 0,
        no_fee(admin).fee_collector == admin,
        no_fee(admin).fee_token is None,
{
}

/// Written data lives for as many days as are configured, and thirty if none are, at 17280 ledgers
/// a day.
pub proof fn lifetimes_are_days_of_ledgers(s: EnvView)
    ensures
        s.ttl_config is Some ==> s.lifetime() == 17_280 * s.ttl_config->0.ttl_days,
        s.ttl_config is None ==> s.lifetime() == 518_400,
        s.lifetime_fits() <==> s.lifetime() <= 4_294_967_295,
{
}

/// Keeping something alive lengthens its lifetime where it is shorter, never shortens it, and
/// touches no other lifetime, nor anything else.
pub proof fn keeping_alive_never_shortens(
    s: EnvView,
    key: StorageKeyView,
    other: StorageKeyView,
    ledgers: int,
)
    requires
        0 <= ledgers <= u32::MAX,
    ensures
        ({
            let t = s.extend(key, ledgers);
            &&& t == (EnvView { lifetimes: t.lifetimes, ..s })
            &&& t.lifetimes.contains_key(key)
            &&& t.lifetimes[key] >= ledgers
            &&& s.lifetimes.contains_key(key) ==> t.lifetimes[key] >= s.lifetimes[key]
            &&& t.lifetimes[key] == ledgers || s.lifetimes.contains_key(key) && t.lifetimes[key]
                == s.lifetimes[key]
            &&& other != key ==> t.lifetimes.contains_key(other) == s.lifetimes.contains_key(other)
                && t.lifetimes[other] == s.lifetimes[other]
        }),
        ({
            let t = s.extend_instance(ledgers);
            &&& t == (EnvView { instance_ttl: t.instance_ttl, ..s })
            &&& t.instance_ttl >= ledgers
            &&& t.instance_ttl >= s.instance_ttl
            &&& t.instance_ttl == ledgers || t.instance_ttl == s.instance_ttl
        }),
{
}

/// What is asked for goes to the end of what was asked for before.
pub proof fn effects_are_asked_for_in_order(s: EnvView, effect: EffectView, event: EventView)
    ensures
        s.ask(effect) == (EnvView { effects: s.effects.push(effect), ..s }),
        s.publish(event) == (EnvView { effects: s.effects.push(EffectView::Publish(event)), ..s }),
{
}

/// A counter shows the sum up to the largest number it can show, and never less than zero.
pub proof fn counters_stop_at_their_ends(sum: int)
    ensures
        0 <= sum <= u64::MAX ==> saturated(sum) == sum,
        sum > u64::MAX ==> saturated(sum) == u64::MAX,
        sum < 0 ==> saturated(sum) == 0,
{
}

/// Taking an item out of a list takes out all its occurrences, leaves nothing else out, and keeps
/// the order.
pub proof fn taking_out_keeps_the_order<T>(all: Seq<T>, x: T, item: T)
    ensures
        without(Seq::<T>::empty(), item).len() == 0,
        x == item ==> without(all.push(x), item) == without(all, item),
        x != item ==> without(all.push(x), item) == without(all, item).push(x),
        !without(all, item).contains(item),
        !all.contains(item) ==> without(all, item) == all,
    decreases all.len(),
{
    reveal(Seq::filter);
    assert(all.push(x).drop_last() =~= all);
    lemma_without(all, item, item);
    if all.len() > 0 && !all.contains(item) {
        let rest = all.drop_last();
        assert(all =~= rest.push(all.last()));
        assert(!rest.contains(item)) by {
            lemma_push(rest, all.last(), item);
        }
        taking_out_keeps_the_order(rest, x, item);
        assert(all[all.len() - 1] != item);
    }
}

/// The order of the tiers is Basic, Verified, Premium.
pub proof fn tiers_are_in_order(a: IssuerTier, b: IssuerTier)
    ensures
        a.rank() == b.rank() ==> a == b,
        IssuerTier::Basic.rank() < IssuerTier::Verified.rank(),
        IssuerTier::Verified.rank() < IssuerTier::Premium.rank(),
{
}

/// An attestation is revoked if it was; else pending before the time from which it is valid; else
/// expired from its expiration on; and valid otherwise.
pub proof fn an_attestation_is_worth_what_its_times_say(a: AttestationView, now: u64)
    ensures
        a.status(now) == AttestationStatus::Revoked <==> a.revoked,
        a.status(now) == AttestationStatus::Pending <==> !a.revoked && a.valid_from is Some && now
            < a.valid_from->0,
        a.status(now) == AttestationStatus::Expired <==> !a.revoked && (a.valid_from is None || now
            >= a.valid_from->0) && a.expiration is Some && now >= a.expiration->0,
        a.status(now) == AttestationStatus::Valid <==> !a.revoked && (a.valid_from is None || now
            >= a.valid_from->0) && (a.expiration is None || now < a.expiration->0),
{
}

/// The longest metadata has 256 bytes, the longest reason 128.
pub proof fn texts_have_their_lengths(text: Option<Seq<u8>>)
    ensures
        metadata_error(text) == if text is Some && text->0.len() > 256 {
            Some(Error::MetadataTooLong)
        } else {
            None
        },
        reason_error(text) == if text is Some && text->0.len() > 128 {
            Some(Error::ReasonTooLong)
        } else {
            None
        },
{
}

/// A claim type has 1 to 64 bytes, and each is a letter, a digit, an underscore or a hyphen.
pub proof fn claim_types_are_plain_names(claim_type: Seq<u8>, i: int)
    ensures
        claim_type.len() == 0 || claim_type.len() > 64 ==> claim_type_error(claim_type) == Some(
            Error::InvalidClaimType,
        ),
        0 <= i < claim_type.len() && !(65 <= claim_type[i] <= 90 || 97 <= claim_type[i] <= 122 || 48
            <= claim_type[i] <= 57 || claim_type[i] == 95 || claim_type[i] == 45)
            ==> claim_type_error(claim_type) == Some(Error::InvalidClaimType),
        1 <= claim_type.len() <= 64 && (forall|j: int|
            0 <= j < claim_type.len() ==> (65 <= #[trigger] claim_type[j] <= 90 || 97
                <= claim_type[j] <= 122 || 48 <= claim_type[j] <= 57 || claim_type[j] == 95
                || claim_type[j] == 45)) ==> claim_type_error(claim_type) is None,
{
}

/// There are at most five tags, and no tag has more than 32 bytes; too many tags weigh more than
/// a long one.
pub proof fn tags_are_few_and_short(tags: Seq<Seq<u8>>, i: int)
    ensures
        tags_error(None) is None,
        tags.len() > 5 ==> tags_error(Some(tags)) == Some(Error::TooManyTags),
        tags.len() <= 5 && 0 <= i < tags.len() && tags[i].len() > 32 ==> tags_error(Some(tags))
            == Some(Error::TagTooLong),
        tags.len() <= 5 && (forall|j: int|
            0 <= j < tags.len() ==> (#[trigger] tags[j]).len() <= 32) ==> tags_error(
            Some(tags),
        ) is None,
{
}

/// An expiration lies after the time it is counted from, and an import is not of the future.
pub proof fn times_are_in_order(now: u64, timestamp: u64, expiration: Option<u64>)
    ensures
        expiration_error(now, expiration) == if expiration is Some && expiration->0 <= now {
            Some(Error::InvalidExpiration)
        } else {
            None
        },
        timestamp > now ==> import_time_error(now, timestamp, expiration) == Some(
            Error::InvalidTimestamp,
        ),
        timestamp <= now && expiration is Some && expiration->0 <= timestamp ==> import_time_error(
            now,
            timestamp,
            expiration,
        ) == Some(Error::InvalidExpiration),
        timestamp <= now && (expiration is None || expiration->0 > timestamp) ==> import_time_error(
            now,
            timestamp,
            expiration,
        ) is None,
{
}

/// A fee is not negative, and only a fee of zero does without a token.
pub proof fn fees_make_sense(fee: i128, token: Option<Address>)
    ensures
        fee < 0 ==> fee_terms_error(fee, token) == Some(Error::InvalidFee),
        fee > 0 && token is None ==> fee_terms_error(fee, token) == Some(Error::FeeTokenRequired),
        fee == 0 || fee > 0 && token is Some ==> fee_terms_error(fee, token) is None,
{
}

/// A jurisdiction, where there is one, is a country code of two bytes.
pub proof fn jurisdictions_are_two_letters(code: Seq<u8>)
    ensures
        jurisdiction_error(None) is None,
        code.len() != 2 ==> jurisdiction_error(Some(code)) == Some(Error::InvalidJurisdiction),
        code.len() == 2 ==> jurisdiction_error(Some(code)) == if is_country_code(
            code[0] as char,
            code[1] as char,
        ) {
            None
        } else {
            Some(Error::InvalidJurisdiction)
        },
{
}

/// The country codes are those that ISO 3166-1 assigns, and no others.
pub proof fn country_codes_are_the_assigned_ones(first: char, second: char)
    ensures
        is_country_code(first, second) <==> (
            first == 'A' && (second == 'D' || second == 'E' || second == 'F' || second == 'G' ||
            second == 'I' || second == 'L' || second == 'M' || second == 'O' || second == 'Q' ||
            second == 'R' || second == 'S' || second == 'T' || second == 'U' || second == 'W' ||
            second == 'X' || second == 'Z') || first == 'B' && (second == 'A' || second == 'B' ||
            second == 'D' || second == 'E' || second == 'F' || second == 'G' || second == 'H' ||
            second == 'I' || second == 'J' || second == 'L' || second == 'M' || second == 'N' ||
            second == 'O' || second == 'Q' || second == 'R' || second == 'S' || second == 'T' ||
            second == 'V' || second == 'W' || second == 'Y' || second == 'Z') || first == 'C' &&
            (second == 'A' || second == 'C' || second == 'D' || second == 'F' || second == 'G' ||
            second == 'H' || second == 'I' || second == 'K' || second == 'L' || second == 'M' ||
            second == 'N' || second == 'O' || second == 'R' || second == 'U' || second == 'V' ||
            second == 'W' || second == 'X' || second == 'Y' || second == 'Z') || first == 'D' &&
            (second == 'E' || second == 'J' || second == 'K' || second == 'M' || second == 'O' ||
            second == 'Z') || first == 'E' && (second == 'C' || second == 'E' || second == 'G' ||
            second == 'H' || second == 'R' || second == 'S' || second == 'T') || first == 'F' &&
            (second == 'I' || second == 'J' || second == 'K' || second == 'M' || second == 'O' ||
            second == 'R') || first == 'G' && (second == 'A' || second == 'B' || second == 'D' ||
            second == 'E' || second == 'F' || second == 'G' || second == 'H' || second == 'I' ||
            second == 'L' || second == 'M' || second == 'N' || second == 'P' || second == 'Q' ||
            second == 'R' || second == 'S' || second == 'T' || second == 'U' || second == 'W' ||
            second == 'Y') || first == 'H' && (second == 'K' || second == 'M' || second == 'N' ||
            second == 'R' || second == 'T' || second == 'U') || first == 'I' && (second == 'D' ||
            second == 'E' || second == 'L' || second == 'M' || second == 'N' || second == 'O' ||
            second == 'Q' || second == 'R' || second == 'S' || second == 'T') || first == 'J' &&
            (second == 'E' || second == 'M' || second == 'O' || second == 'P') || first == 'K' &&
            (second == 'E' || second == 'G' || second == 'H' || second == 'I' || second == 'M' ||
            second == 'N' || second == 'P' || second == 'R' || second == 'W' || second == 'Y' ||
            second == 'Z') || first == 'L' && (second == 'A' || second == 'B' || second == 'C' ||
            second == 'I' || second == 'K' || second == 'R' || second == 'S' || second == 'T' ||
            second == 'U' || second == 'V' || second == 'Y') || first == 'M' && (second == 'A' ||
            second == 'C' || second == 'D' || second == 'E' || second == 'F' || second == 'G' ||
            second == 'H' || second == 'K' || second == 'L' || second == 'M' || second == 'N' ||
            second == 'O' || second == 'P' || second == 'Q' || second == 'R' || second == 'S' ||
            second == 'T' || second == 'U' || second == 'V' || second == 'W' || second == 'X' ||
            second == 'Y' || second == 'Z') || first == 'N' && (second == 'A' || second == 'C' ||
            second == 'E' || second == 'F' || second == 'G' || second == 'I' || second == 'L' ||
            second == 'O' || second == 'P' || second == 'R' || second == 'U' || second == 'Z') ||
            first == 'O' && (second == 'M') || first == 'P' && (second == 'A' || second == 'E' ||
            second == 'F' || second == 'G' || second == 'H' || second == 'K' || second == 'L' ||
            second == 'M' || second == 'N' || second == 'R' || second == 'S' || second == 'T' ||
            second == 'W' || second == 'Y') || first == 'Q' && (second == 'A') || first == 'R' &&
            (second == 'E' || second == 'O' || second == 'S' || second == 'U' || second == 'W') ||
            first == 'S' && (second == 'A' || second == 'B' || second == 'C' || second == 'D' ||
            second == 'E' || second == 'G' || second == 'H' || second == 'I' || second == 'J' ||
            second == 'K' || second == 'L' || second == 'M' || second == 'N' || second == 'O' ||
            second == 'R' || second == 'S' || second == 'T' || second == 'V' || second == 'X' ||
            second == 'Y' || second == 'Z') || first == 'T' && (second == 'C' || second == 'D' ||
            second == 'F' || second == 'G' || second == 'H' || second == 'J' || second == 'K' ||
            second == 'L' || second == 'M' || second == 'N' || second == 'O' || second == 'R' ||
            second == 'T' || second == 'V' || second == 'W' || second == 'Z') || first == 'U' &&
            (second == 'A' || second == 'G' || second == 'M' || second == 'S' || second == 'Y' ||
            second == 'Z') || first == 'V' && (second == 'A' || second == 'C' || second == 'E' ||
            second == 'G' || second == 'I' || second == 'N' || second == 'U') || first == 'W' &&
            (second == 'F' || second == 'S') || first == 'Y' && (second == 'E' || second == 'T')
            || first == 'Z' && (second == 'A' || second == 'M' || second == 'W')),
{
}

} // verus!

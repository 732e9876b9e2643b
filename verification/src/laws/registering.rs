//! What the requests about issuers and bridge contracts do to the ledger.

use crate::address::Address;
use crate::env::EnvView;
use crate::events::{EffectView, EventView};
use crate::storage::StorageKeyView;
use crate::types::{Error, GlobalStats, IssuerMetadataView, IssuerTier};
use vstd::prelude::*;

verus! {

/// Registering puts an issuer into the registry and counts it, up to what the counter can show;
/// removing takes it out and counts it off, down to zero. Observers are told; no other issuer is
/// touched, nor anything that it has issued.
pub proof fn issuers_are_entered_and_struck_off(s: EnvView, admin: Address, issuer: Address)
    ensures
        s.issuer_registered(admin, issuer) == (EnvView {
            issuers: s.issuers.insert(issuer, true),
            global_stats: GlobalStats {
                total_issuers: if s.global_stats.total_issuers < u64::MAX {
                    (s.global_stats.total_issuers + 1) as u64
                } else {
                    u64::MAX
                },
                ..s.global_stats
            },
            lifetimes: s.extend(StorageKeyView::Issuer(issuer), s.lifetime()).lifetimes,
            instance_ttl: s.extend_instance(s.lifetime()).instance_ttl,
            effects: s.effects.push(
                EffectView::Publish(
                    EventView::IssuerRegistered { issuer, admin, timestamp: s.timestamp },
                ),
            ),
            ..s
        }),
        s.issuer_removed(admin, issuer) == (EnvView {
            issuers: s.issuers.remove(issuer),
            global_stats: GlobalStats {
                total_issuers: if s.global_stats.total_issuers > 0 {
                    (s.global_stats.total_issuers - 1) as u64
                } else {
                    0
                },
                ..s.global_stats
            },
            lifetimes: s.lifetimes.remove(StorageKeyView::Issuer(issuer)),
            instance_ttl: s.extend_instance(s.lifetime()).instance_ttl,
            effects: s.effects.push(
                EffectView::Publish(
                    EventView::IssuerRemoved { issuer, admin, timestamp: s.timestamp },
                ),
            ),
            ..s
        }),
{
}

/// A tier is given by an administrator to a registered issuer, and is then the one that was asked
/// for; no other issuer is touched.
pub proof fn tiers_are_given_as_asked(
    s: EnvView,
    admin: Address,
    issuer: Address,
    tier: IssuerTier,
)
    ensures
        s.update_tier_error(admin, issuer) is None <==> s.admin_error(admin) is None
            && s.issuers.contains_key(issuer),
        s.admin_error(admin) is Some ==> s.update_tier_error(admin, issuer) == s.admin_error(admin),
        s.admin_error(admin) is None && !s.issuers.contains_key(issuer) ==> s.update_tier_error(
            admin,
            issuer,
        ) == Some(Error::Unauthorized),
        s.tier_updated(issuer, tier) == (EnvView {
            issuer_tiers: s.issuer_tiers.insert(issuer, tier),
            lifetimes: s.extend(StorageKeyView::IssuerTier(issuer), s.lifetime()).lifetimes,
            effects: s.effects.push(
                EffectView::Publish(EventView::IssuerTierUpdated { issuer, tier }),
            ),
            ..s
        }),
{
}

/// What an issuer says about itself is recorded as it said it, and a bridge contract is entered;
/// nothing else changes.
pub proof fn parties_are_recorded(s: EnvView, party: Address, metadata: IssuerMetadataView)
    ensures
        s.with_issuer_metadata(party, metadata) == (EnvView {
            issuer_metadata: s.issuer_metadata.insert(party, metadata),
            lifetimes: s.extend(StorageKeyView::IssuerMetadata(party), s.lifetime()).lifetimes,
            ..s
        }),
        s.with_bridge(party) == (EnvView {
            bridges: s.bridges.insert(party, true),
            lifetimes: s.extend(StorageKeyView::Bridge(party), s.lifetime()).lifetimes,
            ..s
        }),
{
}

/// Whitelist mode becomes what was asked for, for the issuer alone; with the one request in
/// silence, with the other with a notice.
pub proof fn whitelist_modes_are_set_as_asked(s: EnvView, issuer: Address, enabled: bool)
    ensures
        s.with_whitelist_mode(issuer, enabled) == (EnvView {
            whitelist_modes: s.whitelist_modes.insert(issuer, enabled),
            lifetimes: s.extend(StorageKeyView::WhitelistMode(issuer), s.lifetime()).lifetimes,
            ..s
        }),
        s.whitelist_mode_enabled(issuer) == (EnvView {
            whitelist_modes: s.whitelist_modes.insert(issuer, true),
            lifetimes: s.extend(StorageKeyView::WhitelistMode(issuer), s.lifetime()).lifetimes,
            effects: s.effects.push(
                EffectView::Publish(EventView::WhitelistModeEnabled { issuer }),
            ),
            ..s
        }),
{
}

/// A subject is put on the whitelist of the issuer, or taken off, with a notice; no other pair is
/// touched.
pub proof fn whitelists_change_as_asked(s: EnvView, issuer: Address, subject: Address)
    ensures
        s.whitelist_extended(issuer, subject) == (EnvView {
            whitelist: s.whitelist.insert((issuer, subject), true),
            lifetimes: s.extend(
                StorageKeyView::Whitelisted(issuer, subject),
                s.lifetime(),
            ).lifetimes,
            effects: s.effects.push(
                EffectView::Publish(EventView::WhitelistUpdated { issuer, subject, added: true }),
            ),
            ..s
        }),
        s.whitelist_reduced(issuer, subject) == (EnvView {
            whitelist: s.whitelist.remove((issuer, subject)),
            lifetimes: s.lifetimes.remove(StorageKeyView::Whitelisted(issuer, subject)),
            effects: s.effects.push(
                EffectView::Publish(EventView::WhitelistUpdated { issuer, subject, added: false }),
            ),
            ..s
        }),
{
}

} // verus!

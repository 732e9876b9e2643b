//! Issuers and bridge contracts: who is registered, how far they are trusted, and
//! about whom they may issue.

use crate::address::Address;
use crate::contract::TrustLinkContract;
use crate::env::{Env, EnvView};
use crate::events::{Event, EventView};
use crate::storage::{find, Storage};
use crate::types::{Error, IssuerMetadata, IssuerStats, IssuerTier};
use crate::validation::{first, refusal, settled, Validation};
use vstd::prelude::*;

verus! {

impl EnvView {
    /// The ledger once `admin` has registered `issuer`.
    pub open spec fn issuer_registered(self, admin: Address, issuer: Address) -> EnvView {
        self.with_issuer(issuer).count_issuers(1).publish(
            EventView::IssuerRegistered { issuer, admin, timestamp: self.timestamp },
        )
    }

    /// The ledger once `admin` has removed `issuer`.
    pub open spec fn issuer_removed(self, admin: Address, issuer: Address) -> EnvView {
        self.without_issuer(issuer).count_issuers(-1).publish(
            EventView::IssuerRemoved { issuer, admin, timestamp: self.timestamp },
        )
    }

    /// Giving a tier takes an administrator and a registered issuer.
    pub open spec fn update_tier_error(self, admin: Address, issuer: Address) -> Option<Error> {
        first(self.admin_error(admin), self.issuer_error(issuer))
    }

    /// The ledger once `issuer` has been given `tier`.
    pub open spec fn tier_updated(self, issuer: Address, tier: IssuerTier) -> EnvView {
        self.with_issuer_tier(issuer, tier).publish(EventView::IssuerTierUpdated { issuer, tier })
    }

    /// The ledger once `issuer` has turned whitelist mode on.
    pub open spec fn whitelist_mode_enabled(self, issuer: Address) -> EnvView {
        self.with_whitelist_mode(issuer, true).publish(EventView::WhitelistModeEnabled { issuer })
    }

    /// The ledger once `issuer` has put `subject` on its whitelist.
    pub open spec fn whitelist_extended(self, issuer: Address, subject: Address) -> EnvView {
        self.with_whitelisted(issuer, subject).publish(
            EventView::WhitelistUpdated { issuer, subject, added: true },
        )
    }

    /// The ledger once `issuer` has taken `subject` off its whitelist.
    pub open spec fn whitelist_reduced(self, issuer: Address, subject: Address) -> EnvView {
        self.without_whitelisted(issuer, subject).publish(
            EventView::WhitelistUpdated { issuer, subject, added: false },
        )
    }
}

impl TrustLinkContract {
    /// Registers `issuer`.
    pub fn register_issuer(env: &mut Env, admin: Address, issuer: Address) -> (r: Result<(), Error>)
        requires
            old(env)@.authorized(admin),
            old(env)@.admin_error(admin) is None ==> old(env)@.lifetime_fits(),
        ensures
            refusal(r) == old(env)@.admin_error(admin),
            final(env)@ == settled(
                old(env)@.admin_error(admin),
                old(env)@.issuer_registered(admin, issuer),
                old(env)@,
            ),
    {
        Validation::require_admin(env, &admin)?;
        Storage::add_issuer(env, &issuer);
        Storage::increment_total_issuers(env);
        let timestamp = env.timestamp;
        env.publish(Event::IssuerRegistered { issuer, admin, timestamp });
        Ok(())
    }

    /// Takes `issuer` out of the registry.
    pub fn remove_issuer(env: &mut Env, admin: Address, issuer: Address) -> (r: Result<(), Error>)
        requires
            old(env)@.authorized(admin),
            old(env)@.admin_error(admin) is None ==> old(env)@.lifetime_fits(),
        ensures
            refusal(r) == old(env)@.admin_error(admin),
            final(env)@ == settled(
                old(env)@.admin_error(admin),
                old(env)@.issuer_removed(admin, issuer),
                old(env)@,
            ),
    {
        Validation::require_admin(env, &admin)?;
        Storage::remove_issuer(env, &issuer);
        Storage::decrement_total_issuers(env);
        let timestamp = env.timestamp;
        env.publish(Event::IssuerRemoved { issuer, admin, timestamp });
        Ok(())
    }

    /// Whether `address` is a registered issuer.
    pub fn is_issuer(env: &Env, address: Address) -> (r: bool)
        ensures
            r == env@.issuers.contains_key(address),
    {
        Storage::is_issuer(env, &address)
    }

    /// The running totals of `issuer`.
    pub fn get_issuer_stats(env: &Env, issuer: Address) -> (r: IssuerStats)
        ensures
            r == env@.stats_of(issuer),
    {
        Storage::get_issuer_stats(env, &issuer)
    }

    /// Gives a registered issuer a tier.
    pub fn update_issuer_tier(
        env: &mut Env,
        admin: Address,
        issuer: Address,
        tier: IssuerTier,
    ) -> (r: Result<(), Error>)
        requires
            old(env)@.authorized(admin),
            old(env)@.update_tier_error(admin, issuer) is None ==> old(env)@.lifetime_fits(),
        ensures
            refusal(r) == old(env)@.update_tier_error(admin, issuer),
            final(env)@ == settled(
                old(env)@.update_tier_error(admin, issuer),
                old(env)@.tier_updated(issuer, tier),
                old(env)@,
            ),
    {
        Validation::require_admin(env, &admin)?;
        Validation::require_issuer(env, &issuer)?;
        Storage::set_issuer_tier(env, &issuer, &tier);
        env.publish(Event::IssuerTierUpdated { issuer, tier });
        Ok(())
    }

    /// The tier of `issuer`, or `None` if it is not registered or was never given one.
    pub fn get_issuer_tier(env: &Env, issuer: Address) -> (r: Option<IssuerTier>)
        ensures
            r == env@.tier_of(issuer),
    {
        Storage::get_issuer_tier(env, &issuer)
    }

    /// Writes what `issuer` says about itself.
    pub fn set_issuer_metadata(env: &mut Env, issuer: Address, metadata: IssuerMetadata) -> (r:
        Result<(), Error>)
        requires
            old(env)@.authorized(issuer),
            old(env)@.issuer_error(issuer) is None ==> old(env)@.lifetime_fits(),
        ensures
            refusal(r) == old(env)@.issuer_error(issuer),
            final(env)@ == settled(
                old(env)@.issuer_error(issuer),
                old(env)@.with_issuer_metadata(issuer, metadata@),
                old(env)@,
            ),
    {
        Validation::require_issuer(env, &issuer)?;
        Storage::set_issuer_metadata(env, &issuer, &metadata);
        Ok(())
    }

    /// What `issuer` says about itself, if anything.
    pub fn get_issuer_metadata(env: &Env, issuer: Address) -> (r: Option<IssuerMetadata>)
        ensures
            r.deep_view() == find(env@.issuer_metadata, issuer),
    {
        Storage::get_issuer_metadata(env, &issuer)
    }

    /// Registers a bridge contract.
    pub fn register_bridge(env: &mut Env, admin: Address, bridge_contract: Address) -> (r: Result<
        (),
        Error,
    >)
        requires
            old(env)@.authorized(admin),
            old(env)@.admin_error(admin) is None ==> old(env)@.lifetime_fits(),
        ensures
            refusal(r) == old(env)@.admin_error(admin),
            final(env)@ == settled(
                old(env)@.admin_error(admin),
                old(env)@.with_bridge(bridge_contract),
                old(env)@,
            ),
    {
        Validation::require_admin(env, &admin)?;
        Storage::add_bridge(env, &bridge_contract);
        Ok(())
    }

    /// Whether `address` is a registered bridge contract.
    pub fn is_bridge(env: &Env, address: Address) -> (r: bool)
        ensures
            r == env@.bridges.contains_key(address),
    {
        Storage::is_bridge(env, &address)
    }

    /// Turns whitelist mode of `issuer` on or off. While it is on, `issuer` can issue only about
    /// subjects on its whitelist. It is off until turned on.
    pub fn set_whitelist_enabled(env: &mut Env, issuer: Address, enabled: bool) -> (r: Result<
        (),
        Error,
    >)
        requires
            old(env)@.authorized(issuer),
            old(env)@.issuer_error(issuer) is None ==> old(env)@.lifetime_fits(),
        ensures
            refusal(r) == old(env)@.issuer_error(issuer),
            final(env)@ == settled(
                old(env)@.issuer_error(issuer),
                old(env)@.with_whitelist_mode(issuer, enabled),
                old(env)@,
            ),
    {
        Validation::require_issuer(env, &issuer)?;
        Storage::set_whitelist_enabled(env, &issuer, enabled);
        Ok(())
    }

    /// Turns whitelist mode of `issuer` on, and tells observers.
    pub fn enable_whitelist_mode(env: &mut Env, issuer: Address) -> (r: Result<(), Error>)
        requires
            old(env)@.authorized(issuer),
            old(env)@.issuer_error(issuer) is None ==> old(env)@.lifetime_fits(),
        ensures
            refusal(r) == old(env)@.issuer_error(issuer),
            final(env)@ == settled(
                old(env)@.issuer_error(issuer),
                old(env)@.whitelist_mode_enabled(issuer),
                old(env)@,
            ),
    {
        Validation::require_issuer(env, &issuer)?;
        Storage::set_whitelist_enabled(env, &issuer, true);
        env.publish(Event::WhitelistModeEnabled { issuer });
        Ok(())
    }

    /// Whether `issuer` is in whitelist mode.
    pub fn is_whitelist_enabled(env: &Env, issuer: Address) -> (r: bool)
        ensures
            r == env@.whitelist_mode(issuer),
    {
        Storage::is_whitelist_enabled(env, &issuer)
    }

    /// Puts `subject` on the whitelist of `issuer`.
    pub fn add_to_whitelist(env: &mut Env, issuer: Address, subject: Address) -> (r: Result<
        (),
        Error,
    >)
        requires
            old(env)@.authorized(issuer),
            old(env)@.issuer_error(issuer) is None ==> old(env)@.lifetime_fits(),
        ensures
            refusal(r) == old(env)@.issuer_error(issuer),
            final(env)@ == settled(
                old(env)@.issuer_error(issuer),
                old(env)@.whitelist_extended(issuer, subject),
                old(env)@,
            ),
    {
        Validation::require_issuer(env, &issuer)?;
        Storage::add_to_whitelist(env, &issuer, &subject);
        env.publish(Event::WhitelistUpdated { issuer, subject, added: true });
        Ok(())
    }

    /// Takes `subject` off the whitelist of `issuer`.
    pub fn remove_from_whitelist(env: &mut Env, issuer: Address, subject: Address) -> (r: Result<
        (),
        Error,
    >)
        requires
            old(env)@.authorized(issuer),
        ensures
            refusal(r) == old(env)@.issuer_error(issuer),
            final(env)@ == settled(
                old(env)@.issuer_error(issuer),
                old(env)@.whitelist_reduced(issuer, subject),
                old(env)@,
            ),
    {
        Validation::require_issuer(env, &issuer)?;
        Storage::remove_from_whitelist(env, &issuer, &subject);
        env.publish(Event::WhitelistUpdated { issuer, subject, added: false });
        Ok(())
    }

    /// Whether `subject` is on the whitelist of `issuer`.
    pub fn is_whitelisted(env: &Env, issuer: Address, subject: Address) -> (r: bool)
        ensures
            r == env@.whitelist.contains_key((issuer, subject)),
    {
        Storage::is_whitelisted(env, &issuer, &subject)
    }
}

} // verus!

//! Administration: who administers the registry, its settings, and what it says
//! about itself.

use crate::address::Address;
use crate::contract::TrustLinkContract;
use crate::env::{Env, EnvView};
use crate::events::{Effect, EffectView, Event, EventView};
use crate::list::page;
use crate::storage::{find, paginate, Storage};
use crate::text::Text;
use crate::types::{
    ClaimTypeInfo, ClaimTypeInfoView, ContractMetadata, ContractMetadataView, Error, FeeConfig,
    GlobalStats, HealthStatus, RateLimitConfig, StorageLimits, TtlConfig,
};
use crate::validation::{
    claim_type_error, fee_terms_error, first, refusal, settled, unless, validate_claim_type,
    validate_fee_config, Validation,
};
use vstd::prelude::*;
use vstd::string::StringSliceAdditionalSpecFns;

verus! {

/// The lifetime, in days, that initialization sets unless told otherwise.
pub const INITIAL_TTL_DAYS: u32 = 30;

/// The fee settings that initialization sets: no fee.
pub open spec fn no_fee(admin: Address) -> FeeConfig {
    FeeConfig { attestation_fee: 0, fee_collector: admin, fee_token: None }
}

impl EnvView {
    /// Initialization needs a registry without administrator.
    pub open spec fn initialize_error(self) -> Option<Error> {
        unless(!self.has_admin(), Error::AlreadyInitialized)
    }

    /// The ledger once `admin` has initialized the registry.
    pub open spec fn initialized(self, admin: Address, ttl_days: Option<u32>) -> EnvView {
        self.with_admins(seq![admin]).with_version("1.0.0".spec_bytes()).with_fee_config(
            no_fee(admin),
        ).with_ttl_config(
            TtlConfig {
                ttl_days: match ttl_days {
                    Some(days) => days,
                    None => INITIAL_TTL_DAYS,
                },
            },
        ).publish(EventView::AdminInitialized { admin, timestamp: self.timestamp })
    }

    /// The ledger once `current_admin` has handed over to `new_admin`.
    pub open spec fn admin_transferred(self, current_admin: Address, new_admin: Address) -> EnvView {
        self.with_admin(new_admin).without_admin(current_admin).publish(
            EventView::AdminTransferred { current_admin, new_admin },
        )
    }

    /// The ledger once `by` has made `admin` an administrator.
    pub open spec fn admin_added(self, by: Address, admin: Address) -> EnvView {
        if self.admins().contains(admin) {
            self
        } else {
            self.with_admin(admin).publish(
                EventView::AdminAdded { by, admin, timestamp: self.timestamp },
            )
        }
    }

    /// Removing an administrator takes an administrator, and another one who stays.
    pub open spec fn remove_admin_error(self, by: Address) -> Option<Error> {
        first(
            self.admin_error(by),
            unless(self.admins().len() > 1, Error::LastAdminCannotBeRemoved),
        )
    }

    /// The ledger once `by` has removed the administrator `admin`.
    pub open spec fn admin_removed(self, by: Address, admin: Address) -> EnvView {
        if self.admins().contains(admin) {
            self.without_admin(admin).publish(
                EventView::AdminRemoved { by, admin, timestamp: self.timestamp },
            )
        } else {
            self
        }
    }

    /// The ledger once `admin` has paused attestation writes.
    pub open spec fn paused_by(self, admin: Address) -> EnvView {
        self.with_paused(true).publish(
            EventView::ContractPaused { admin, timestamp: self.timestamp },
        )
    }

    /// The ledger once `admin` has resumed attestation writes.
    pub open spec fn unpaused_by(self, admin: Address) -> EnvView {
        self.with_paused(false).publish(
            EventView::ContractUnpaused { admin, timestamp: self.timestamp },
        )
    }

    /// Setting the fee takes an administrator, fee terms that hold together, and a collector
    /// other than the administrator who sets it.
    pub open spec fn set_fee_error(
        self,
        admin: Address,
        fee: i128,
        collector: Address,
        fee_token: Option<Address>,
    ) -> Option<Error> {
        first(
            self.admin_error(admin),
            first(
                fee_terms_error(fee, fee_token),
                unless(admin != collector, Error::Unauthorized),
            ),
        )
    }

    /// The ledger once the fee has been set. A token is asked for a balance, which shows that
    /// it is one.
    pub open spec fn fee_set(
        self,
        fee: i128,
        collector: Address,
        fee_token: Option<Address>,
    ) -> EnvView {
        let probed = match fee_token {
            Some(token) => self.ask(EffectView::ProbeToken { token }),
            None => self,
        };
        probed.with_fee_config(
            FeeConfig { attestation_fee: fee, fee_collector: collector, fee_token },
        )
    }

    /// The ledger once a claim type has been registered.
    pub open spec fn claim_type_registered(
        self,
        claim_type: Seq<u8>,
        description: Seq<u8>,
    ) -> EnvView {
        self.with_claim_type(ClaimTypeInfoView { claim_type, description }).publish(
            EventView::ClaimTypeRegistered { claim_type, description },
        )
    }
}

/// The fee settings that initialization sets: no fee.
pub fn default_fee_config(admin: &Address) -> (r: FeeConfig)
    ensures
        r == no_fee(*admin),
{
    FeeConfig { attestation_fee: 0, fee_collector: *admin, fee_token: None }
}

/// The fee settings. Fails with [`Error::NotInitialized`] where they were never set.
pub fn load_fee_config(env: &Env) -> (r: Result<FeeConfig, Error>)
    ensures
        match r {
            Ok(config) => env@.fee_config == Some(config),
            Err(e) => e == Error::NotInitialized && env@.fee_config is None,
        },
{
    match Storage::get_fee_config(env) {
        Some(config) => Ok(config),
        None => Err(Error::NotInitialized),
    }
}

impl TrustLinkContract {
    /// Makes `admin` the first administrator and sets what the registry starts with.
    pub fn initialize(env: &mut Env, admin: Address, ttl_days: Option<u32>) -> (r: Result<
        (),
        Error,
    >)
        requires
            old(env)@.authorized(admin),
            old(env)@.initialize_error() is None ==> old(env)@.lifetime_fits(),
        ensures
            refusal(r) == old(env)@.initialize_error(),
            final(env)@ == settled(
                old(env)@.initialize_error(),
                old(env)@.initialized(admin, ttl_days),
                old(env)@,
            ),
    {
        if Storage::has_admin(env) {
            return Err(Error::AlreadyInitialized);
        }
        Storage::set_admin(env, &admin);
        Storage::set_version(env, &Text::from_str("1.0.0"));
        Storage::set_fee_config(env, &default_fee_config(&admin));
        match ttl_days {
            Some(days) => Storage::set_ttl_config(env, &TtlConfig { ttl_days: days }),
            None => Storage::set_ttl_config(env, &TtlConfig { ttl_days: INITIAL_TTL_DAYS }),
        }
        let timestamp = env.timestamp;
        env.publish(Event::AdminInitialized { admin, timestamp });
        Ok(())
    }

    /// Makes `new_admin` an administrator in place of `current_admin`.
    pub fn transfer_admin(env: &mut Env, current_admin: Address, new_admin: Address) -> (r: Result<
        (),
        Error,
    >)
        requires
            old(env)@.authorized(current_admin),
            old(env)@.admin_error(current_admin) is None ==> old(env)@.lifetime_fits(),
        ensures
            refusal(r) == old(env)@.admin_error(current_admin),
            final(env)@ == settled(
                old(env)@.admin_error(current_admin),
                old(env)@.admin_transferred(current_admin, new_admin),
                old(env)@,
            ),
    {
        Validation::require_admin(env, &current_admin)?;
        Storage::add_admin(env, &new_admin);
        Storage::remove_admin(env, &current_admin);
        env.publish(Event::AdminTransferred { current_admin, new_admin });
        Ok(())
    }

    /// Makes `new_admin` an administrator. Does nothing if it is one already.
    pub fn add_admin(env: &mut Env, existing_admin: Address, new_admin: Address) -> (r: Result<
        (),
        Error,
    >)
        requires
            old(env)@.authorized(existing_admin),
            old(env)@.admin_error(existing_admin) is None && !old(env)@.admins().contains(new_admin)
                ==> old(env)@.lifetime_fits(),
        ensures
            refusal(r) == old(env)@.admin_error(existing_admin),
            final(env)@ == settled(
                old(env)@.admin_error(existing_admin),
                old(env)@.admin_added(existing_admin, new_admin),
                old(env)@,
            ),
    {
        Validation::require_admin(env, &existing_admin)?;
        if Storage::is_admin(env, &new_admin) {
            return Ok(());
        }
        Storage::add_admin(env, &new_admin);
        let timestamp = env.timestamp;
        env.publish(Event::AdminAdded { by: existing_admin, admin: new_admin, timestamp });
        Ok(())
    }

    /// Removes the administrator `admin_to_remove`, but never the last one. Does nothing if it
    /// is no administrator.
    pub fn remove_admin(
        env: &mut Env,
        existing_admin: Address,
        admin_to_remove: Address,
    ) -> (r: Result<(), Error>)
        requires
            old(env)@.authorized(existing_admin),
            old(env)@.remove_admin_error(existing_admin) is None && old(env)@.admins().contains(
                admin_to_remove,
            ) ==> old(env)@.lifetime_fits(),
        ensures
            refusal(r) == old(env)@.remove_admin_error(existing_admin),
            final(env)@ == settled(
                old(env)@.remove_admin_error(existing_admin),
                old(env)@.admin_removed(existing_admin, admin_to_remove),
                old(env)@,
            ),
    {
        Validation::require_admin(env, &existing_admin)?;
        let council = Storage::get_admin_council(env)?;
        if council.len() <= 1 {
            return Err(Error::LastAdminCannotBeRemoved);
        }
        if !Storage::is_admin(env, &admin_to_remove) {
            return Ok(());
        }
        Storage::remove_admin(env, &admin_to_remove);
        let timestamp = env.timestamp;
        env.publish(Event::AdminRemoved { by: existing_admin, admin: admin_to_remove, timestamp });
        Ok(())
    }

    /// The primary administrator.
    pub fn get_admin(env: &Env) -> (r: Result<Address, Error>)
        ensures
            match r {
                Ok(admin) => env@.has_admin() && admin == env@.admins()[0],
                Err(e) => e == Error::NotInitialized && !env@.has_admin(),
            },
    {
        Storage::get_admin(env)
    }

    /// Pauses all attestation writes. Reads stay available.
    pub fn pause(env: &mut Env, admin: Address) -> (r: Result<(), Error>)
        requires
            old(env)@.authorized(admin),
        ensures
            refusal(r) == old(env)@.admin_error(admin),
            final(env)@ == settled(
                old(env)@.admin_error(admin),
                old(env)@.paused_by(admin),
                old(env)@,
            ),
    {
        Validation::require_admin(env, &admin)?;
        Storage::set_paused(env, true);
        let timestamp = env.timestamp;
        env.publish(Event::ContractPaused { admin, timestamp });
        Ok(())
    }

    /// Resumes attestation writes.
    pub fn unpause(env: &mut Env, admin: Address) -> (r: Result<(), Error>)
        requires
            old(env)@.authorized(admin),
        ensures
            refusal(r) == old(env)@.admin_error(admin),
            final(env)@ == settled(
                old(env)@.admin_error(admin),
                old(env)@.unpaused_by(admin),
                old(env)@,
            ),
    {
        Validation::require_admin(env, &admin)?;
        Storage::set_paused(env, false);
        let timestamp = env.timestamp;
        env.publish(Event::ContractUnpaused { admin, timestamp });
        Ok(())
    }

    /// Whether attestation writes are paused.
    pub fn is_paused(env: &Env) -> (r: bool)
        ensures
            r == env@.paused,
    {
        Storage::is_paused(env)
    }

    /// Sets the fee for an attestation, who receives it, and the token it is paid in.
    pub fn set_fee(
        env: &mut Env,
        admin: Address,
        fee: i128,
        collector: Address,
        fee_token: Option<Address>,
    ) -> (r: Result<(), Error>)
        requires
            old(env)@.authorized(admin),
            old(env)@.set_fee_error(admin, fee, collector, fee_token) is None
                ==> old(env)@.lifetime_fits(),
        ensures
            refusal(r) == old(env)@.set_fee_error(admin, fee, collector, fee_token),
            final(env)@ == settled(
                old(env)@.set_fee_error(admin, fee, collector, fee_token),
                old(env)@.fee_set(fee, collector, fee_token),
                old(env)@,
            ),
    {
        Validation::require_admin(env, &admin)?;
        validate_fee_config(fee, &fee_token)?;
        if admin == collector {
            return Err(Error::Unauthorized);
        }
        if let Some(token) = fee_token {
            env.ask(Effect::ProbeToken { token });
        }
        Storage::set_fee_config(
            env,
            &FeeConfig { attestation_fee: fee, fee_collector: collector, fee_token },
        );
        Ok(())
    }

    /// The fee settings.
    pub fn get_fee_config(env: &Env) -> (r: Result<FeeConfig, Error>)
        ensures
            match r {
                Ok(config) => env@.fee_config == Some(config),
                Err(e) => e == Error::NotInitialized && env@.fee_config is None,
            },
    {
        load_fee_config(env)
    }

    /// Sets the least time between two issuances of one issuer.
    pub fn set_rate_limit(env: &mut Env, admin: Address, min_issuance_interval: u64) -> (r: Result<
        (),
        Error,
    >)
        requires
            old(env)@.authorized(admin),
            old(env)@.admin_error(admin) is None ==> old(env)@.lifetime_fits(),
        ensures
            refusal(r) == old(env)@.admin_error(admin),
            final(env)@ == settled(
                old(env)@.admin_error(admin),
                old(env)@.with_rate_limit(RateLimitConfig { min_issuance_interval }),
                old(env)@,
            ),
    {
        Validation::require_admin(env, &admin)?;
        Storage::set_rate_limit_config(env, &RateLimitConfig { min_issuance_interval });
        Ok(())
    }

    /// The rate limit, if it was set.
    pub fn get_rate_limit(env: &Env) -> (r: Option<RateLimitConfig>)
        ensures
            r == env@.rate_limit,
    {
        Storage::get_rate_limit_config(env)
    }

    /// Sets how many attestations one issuer may create and one subject may hold.
    pub fn set_limits(
        env: &mut Env,
        admin: Address,
        max_attestations_per_issuer: u32,
        max_attestations_per_subject: u32,
    ) -> (r: Result<(), Error>)
        requires
            old(env)@.authorized(admin),
            old(env)@.admin_error(admin) is None ==> old(env)@.lifetime_fits(),
        ensures
            refusal(r) == old(env)@.admin_error(admin),
            final(env)@ == settled(
                old(env)@.admin_error(admin),
                old(env)@.with_limits(
                    StorageLimits { max_attestations_per_issuer, max_attestations_per_subject },
                ),
                old(env)@,
            ),
    {
        Validation::require_admin(env, &admin)?;
        Storage::set_limits(
            env,
            &StorageLimits { max_attestations_per_issuer, max_attestations_per_subject },
        );
        Ok(())
    }

    /// The storage limits in force: those set last, or 10,000 for an issuer and 100 for a subject.
    pub fn get_limits(env: &Env) -> (r: StorageLimits)
        ensures
            r == env@.limits_in_force(),
    {
        Storage::get_limits(env)
    }

    /// Registers a claim type, or describes a registered one anew.
    pub fn register_claim_type(
        env: &mut Env,
        admin: Address,
        claim_type: Text,
        description: Text,
    ) -> (r: Result<(), Error>)
        requires
            old(env)@.authorized(admin),
            first(old(env)@.admin_error(admin), claim_type_error(claim_type@)) is None
                ==> old(env)@.lifetime_fits(),
        ensures
            refusal(r) == first(old(env)@.admin_error(admin), claim_type_error(claim_type@)),
            final(env)@ == settled(
                first(old(env)@.admin_error(admin), claim_type_error(claim_type@)),
                old(env)@.claim_type_registered(claim_type@, description@),
                old(env)@,
            ),
    {
        Validation::require_admin(env, &admin)?;
        validate_claim_type(&claim_type)?;
        let info = ClaimTypeInfo {
            claim_type: claim_type.clone(),
            description: description.clone(),
        };
        Storage::set_claim_type(env, &info);
        env.publish(Event::ClaimTypeRegistered { claim_type, description });
        Ok(())
    }

    /// What a claim type means, if it is registered.
    pub fn get_claim_type_description(env: &Env, claim_type: Text) -> (r: Option<Text>)
        ensures
            r.deep_view() == match find(env@.claim_types, claim_type@) {
                Some(info) => Some(info.description),
                None => None,
            },
    {
        match Storage::get_claim_type(env, &claim_type) {
            Some(info) => Some(info.description),
            None => None,
        }
    }

    /// A page of the registered claim types, oldest first.
    pub fn list_claim_types(env: &Env, start: u32, limit: u32) -> (r: Vec<Text>)
        ensures
            r.deep_view() == page(env@.claim_type_list, start, limit),
    {
        paginate(&Storage::get_claim_type_list(env), start, limit)
    }

    /// The version set at initialization.
    pub fn get_version(env: &Env) -> (r: Result<Text, Error>)
        ensures
            match r {
                Ok(version) => env@.version == Some(version@),
                Err(e) => e == Error::NotInitialized && env@.version is None,
            },
    {
        match Storage::get_version(env) {
            Some(version) => Ok(version),
            None => Err(Error::NotInitialized),
        }
    }

    /// The running totals.
    pub fn get_global_stats(env: &Env) -> (r: GlobalStats)
        ensures
            r == env@.global_stats,
    {
        Storage::get_global_stats(env)
    }

    /// Whether the registry is in use, and how much it holds.
    pub fn health_check(env: &Env) -> (r: HealthStatus)
        ensures
            r == (HealthStatus {
                initialized: env@.has_admin(),
                admin_set: env@.has_admin(),
                issuer_count: env@.global_stats.total_issuers,
                total_attestations: env@.global_stats.total_attestations,
            }),
    {
        let initialized = Storage::has_admin(env);
        let stats = Storage::get_global_stats(env);
        HealthStatus {
            initialized,
            admin_set: initialized,
            issuer_count: stats.total_issuers,
            total_attestations: stats.total_attestations,
        }
    }

    /// What the registry says about itself.
    pub fn get_contract_metadata(env: &Env) -> (r: Result<ContractMetadata, Error>)
        ensures
            match r {
                Ok(metadata) => env@.version is Some && metadata@ == (ContractMetadataView {
                    name: "TrustLink".spec_bytes(),
                    version: env@.version->0,
                    description:
                        "On-chain attestation and verification system for the Stellar blockchain.".spec_bytes(),
                }),
                Err(e) => e == Error::NotInitialized && env@.version is None,
            },
    {
        match Storage::get_version(env) {
            Some(version) => Ok(
                ContractMetadata {
                    name: Text::from_str("TrustLink"),
                    version,
                    description: Text::from_str(
                        "On-chain attestation and verification system for the Stellar blockchain.",
                    ),
                },
            ),
            None => Err(Error::NotInitialized),
        }
    }
}

} // verus!

//! What the requests of administrators do to the ledger.

use crate::address::Address;
use crate::env::EnvView;
use crate::events::{EffectView, EventView};
use crate::list::without;
use crate::storage::StorageKeyView;
use crate::types::{ClaimTypeInfoView, Error, FeeConfig, RateLimitConfig, StorageLimits};
use vstd::prelude::*;
use vstd::string::StringSliceAdditionalSpecFns;

verus! {

/// Only administrators pass as such: without any, nobody is told more than that the registry is
/// not initialized; with some, everybody else is unauthorized.
pub proof fn only_admins_are_admins(s: EnvView, who: Address)
    ensures
        s.admin_council is None ==> s.admin_error(who) == Some(Error::NotInitialized),
        s.admin_council is Some && s.admin_council->0.len() == 0 ==> s.admin_error(who) == Some(
            Error::NotInitialized,
        ),
        s.admin_council is Some && s.admin_council->0.len() > 0
            && !s.admin_council->0.contains(who) ==> s.admin_error(who) == Some(
            Error::Unauthorized,
        ),
        s.admin_council is Some && s.admin_council->0.contains(who) ==> s.admin_error(who) is None,
{
    if s.admin_council is Some && s.admin_council->0.contains(who) {
        let i = choose|i: int|
            0 <= i < s.admin_council->0.len() && s.admin_council->0[i] == who;
        assert(s.admin_council->0.len() > 0);
    }
}

/// Only registered issuers and bridge contracts pass as such, and writes are open exactly while
/// they are not paused.
pub proof fn only_the_registered_are_registered(s: EnvView, who: Address)
    ensures
        s.issuers.contains_key(who) ==> s.issuer_error(who) is None,
        !s.issuers.contains_key(who) ==> s.issuer_error(who) == Some(Error::Unauthorized),
        s.bridges.contains_key(who) ==> s.bridge_error(who) is None,
        !s.bridges.contains_key(who) ==> s.bridge_error(who) == Some(Error::Unauthorized),
        s.paused ==> s.pause_error() == Some(Error::ContractPaused),
        !s.paused ==> s.pause_error() is None,
{
}

/// A registry can be initialized exactly while it has no administrator. Initialization makes the
/// caller the only one, sets the version, no fee with the caller as collector, and the lifetime
/// of data in days, which is thirty unless another is given; it tells observers, and touches
/// nothing else.
pub proof fn initialization_sets_the_stage(s: EnvView, admin: Address, ttl_days: Option<u32>)
    ensures
        s.initialize_error() is None <==> s.admin_council is None || s.admin_council->0.len() == 0,
        s.initialize_error() is Some ==> s.initialize_error() == Some(Error::AlreadyInitialized),
        ({
            let t = s.initialized(admin, ttl_days);
            &&& t == (EnvView {
                admin_council: Some(seq![admin]),
                version: Some("1.0.0".spec_bytes()),
                fee_config: Some(
                    FeeConfig { attestation_fee: 0, fee_collector: admin, fee_token: None },
                ),
                ttl_config: t.ttl_config,
                instance_ttl: s.extend_instance(s.lifetime()).instance_ttl,
                effects: s.effects.push(
                    EffectView::Publish(
                        EventView::AdminInitialized { admin, timestamp: s.timestamp },
                    ),
                ),
                ..s
            })
            &&& t.ttl_config is Some
            &&& ttl_days is Some ==> t.ttl_config->0.ttl_days == ttl_days->0
            &&& ttl_days is None ==> t.ttl_config->0.ttl_days == 30
        }),
{
}

/// Handing over makes the successor an administrator, at the end of the list unless it is on it,
/// and takes the predecessor off.
pub proof fn handing_over_replaces(s: EnvView, current: Address, successor: Address)
    requires
        s.admin_council is Some,
        s.admin_council->0.contains(current),
    ensures
        ({
            let t = s.admin_transferred(current, successor);
            let joined = if s.admin_council->0.contains(successor) {
                s.admin_council->0
            } else {
                s.admin_council->0.push(successor)
            };
            t == EnvView {
                admin_council: Some(without(joined, current)),
                instance_ttl: s.extend_instance(s.lifetime()).instance_ttl,
                effects: s.effects.push(
                    EffectView::Publish(
                        EventView::AdminTransferred {
                            current_admin: current,
                            new_admin: successor,
                        },
                    ),
                ),
                ..s
            }
        }),
{
    let joined = s.admin_council->0.push(successor);
    let i = choose|i: int| 0 <= i < s.admin_council->0.len() && s.admin_council->0[i] == current;
    assert(joined[i] == current);
    assert(joined.contains(current));
}

/// A new administrator goes to the end of the list, and observers are told who decided it; one
/// that is on the list already changes nothing.
pub proof fn admins_join_at_the_end(s: EnvView, by: Address, admin: Address)
    requires
        s.admin_council is Some,
    ensures
        s.admin_council->0.contains(admin) ==> s.admin_added(by, admin) == s,
        !s.admin_council->0.contains(admin) ==> s.admin_added(by, admin) == (EnvView {
            admin_council: Some(s.admin_council->0.push(admin)),
            instance_ttl: s.extend_instance(s.lifetime()).instance_ttl,
            effects: s.effects.push(
                EffectView::Publish(
                    EventView::AdminAdded { by, admin, timestamp: s.timestamp },
                ),
            ),
            ..s
        }),
{
}

/// Any administrator can remove any, as long as there are two; then the one goes and the others
/// stay in order. One that is none changes nothing.
pub proof fn admins_leave_but_for_the_last(s: EnvView, by: Address, admin: Address)
    requires
        s.admin_council is Some,
    ensures
        s.remove_admin_error(by) is None <==> s.admin_council->0.contains(by)
            && s.admin_council->0.len() > 1,
        s.admin_council->0.contains(by) && s.admin_council->0.len() == 1 ==> s.remove_admin_error(
            by,
        ) == Some(Error::LastAdminCannotBeRemoved),
        s.admin_council->0.len() > 0 && !s.admin_council->0.contains(by) ==> s.remove_admin_error(
            by,
        ) == Some(Error::Unauthorized),
        s.admin_council->0.len() == 0 ==> s.remove_admin_error(by) == Some(Error::NotInitialized),
        !s.admin_council->0.contains(admin) ==> s.admin_removed(by, admin) == s,
        s.admin_council->0.contains(admin) ==> s.admin_removed(by, admin) == (EnvView {
            admin_council: Some(without(s.admin_council->0, admin)),
            instance_ttl: s.extend_instance(s.lifetime()).instance_ttl,
            effects: s.effects.push(
                EffectView::Publish(
                    EventView::AdminRemoved { by, admin, timestamp: s.timestamp },
                ),
            ),
            ..s
        }),
{
}

/// Pausing and resuming set the flag, tell observers who did it and when, and touch nothing else.
pub proof fn pausing_sets_the_flag(s: EnvView, admin: Address)
    ensures
        ({
            let t = s.paused_by(admin);
            t == EnvView {
                paused: true,
                instance_ttl: s.extend_instance(518_400).instance_ttl,
                effects: s.effects.push(
                    EffectView::Publish(
                        EventView::ContractPaused { admin, timestamp: s.timestamp },
                    ),
                ),
                ..s
            }
        }),
        ({
            let t = s.unpaused_by(admin);
            t == EnvView {
                paused: false,
                instance_ttl: s.extend_instance(518_400).instance_ttl,
                effects: s.effects.push(
                    EffectView::Publish(
                        EventView::ContractUnpaused { admin, timestamp: s.timestamp },
                    ),
                ),
                ..s
            }
        }),
{
}

/// A fee can be set by an administrator who does not collect it, if it is not negative and, where
/// it is not zero, names its token. It is then what was asked for, and the token, if any, is
/// asked for a balance.
pub proof fn fees_are_set_as_asked(
    s: EnvView,
    admin: Address,
    fee: i128,
    collector: Address,
    fee_token: Option<Address>,
)
    ensures
        s.set_fee_error(admin, fee, collector, fee_token) is None <==> s.admin_error(admin) is None
            && fee >= 0 && (fee == 0 || fee_token is Some) && admin != collector,
        s.admin_error(admin) is Some ==> s.set_fee_error(admin, fee, collector, fee_token)
            == s.admin_error(admin),
        s.admin_error(admin) is None && fee < 0 ==> s.set_fee_error(
            admin,
            fee,
            collector,
            fee_token,
        ) == Some(Error::InvalidFee),
        s.admin_error(admin) is None && fee > 0 && fee_token is None ==> s.set_fee_error(
            admin,
            fee,
            collector,
            fee_token,
        ) == Some(Error::FeeTokenRequired),
        s.admin_error(admin) is None && fee >= 0 && (fee == 0 || fee_token is Some) && admin
            == collector ==> s.set_fee_error(admin, fee, collector, fee_token) == Some(
            Error::Unauthorized,
        ),
        ({
            let t = s.fee_set(fee, collector, fee_token);
            &&& t == (EnvView {
                fee_config: Some(
                    FeeConfig { attestation_fee: fee, fee_collector: collector, fee_token },
                ),
                instance_ttl: s.extend_instance(s.lifetime()).instance_ttl,
                effects: t.effects,
                ..s
            })
            &&& fee_token is None ==> t.effects == s.effects
            &&& fee_token is Some ==> t.effects == s.effects.push(
                EffectView::ProbeToken { token: fee_token->0 },
            )
        }),
{
}

/// Rate limits and storage limits become those that were asked for; nothing else changes.
pub proof fn settings_are_set_as_asked(s: EnvView, rate: RateLimitConfig, limits: StorageLimits)
    ensures
        s.with_rate_limit(rate) == (EnvView {
            rate_limit: Some(rate),
            instance_ttl: s.extend_instance(s.lifetime()).instance_ttl,
            ..s
        }),
        s.with_limits(limits) == (EnvView {
            limits: Some(limits),
            instance_ttl: s.extend_instance(s.lifetime()).instance_ttl,
            ..s
        }),
{
}

/// Registering a claim type records its description under its name, lists a new one last, tells
/// observers, and touches nothing else.
pub proof fn claim_types_are_recorded(s: EnvView, claim_type: Seq<u8>, description: Seq<u8>)
    ensures
        ({
            let t = s.claim_type_registered(claim_type, description);
            t == EnvView {
                claim_types: s.claim_types.insert(
                    claim_type,
                    ClaimTypeInfoView { claim_type, description },
                ),
                claim_type_list: if s.claim_types.contains_key(claim_type) {
                    s.claim_type_list
                } else {
                    s.claim_type_list.push(claim_type)
                },
                lifetimes: if s.claim_types.contains_key(claim_type) {
                    s.extend(StorageKeyView::ClaimType(claim_type), s.lifetime()).lifetimes
                } else {
                    s.extend(StorageKeyView::ClaimType(claim_type), s.lifetime()).extend(
                        StorageKeyView::ClaimTypeList,
                        s.lifetime(),
                    ).lifetimes
                },
                effects: s.effects.push(
                    EffectView::Publish(EventView::ClaimTypeRegistered { claim_type, description }),
                ),
                ..s
            }
        }),
{
}

} // verus!

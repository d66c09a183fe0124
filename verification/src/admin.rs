use crate::error::ErrorCode;
use crate::identity::{spec_zero_identity, Identity};
use crate::state::{Access, Config, MINIMUM_TRADE_INTERVAL};
use vstd::prelude::*;

verus! {

/// One-time initialization of a configuration record: records the admin,
/// operator and vault identities and the cooldown, clears the pause flag
/// and the pending admin, and starts the cooldown clock at zero.
pub fn process_init_config(
    config: &mut Config,
    admin: Identity,
    vault: Identity,
    operator: Identity,
    cooldown_duration: i64,
    bump: u8,
) -> (r: Result<(), ErrorCode>)
    ensures
        match r {
            Ok(()) => {
                &&& !old(config).is_initialized
                &&& cooldown_duration >= MINIMUM_TRADE_INTERVAL
                &&& *final(config) == (Config {
                    admin,
                    operator,
                    vault,
                    pending_admin: spec_zero_identity(),
                    last_trade_timestamp: 0,
                    is_initialized: true,
                    is_paused: false,
                    cooldown_duration,
                    bump,
                })
                &&& final(config).wf()
            },
            Err(e) => {
                &&& *final(config) == *old(config)
                &&& e == if old(config).is_initialized {
                    ErrorCode::ConfigAlreadyInitialized
                } else {
                    ErrorCode::InvalidCooldownDuration
                }
                &&& (old(config).is_initialized || cooldown_duration < MINIMUM_TRADE_INTERVAL)
            },
        },
{
    if config.is_initialized {
        return Err(ErrorCode::ConfigAlreadyInitialized);
    }
    if cooldown_duration < MINIMUM_TRADE_INTERVAL {
        return Err(ErrorCode::InvalidCooldownDuration);
    }
    *config = Config {
        admin,
        operator,
        vault,
        pending_admin: Identity::zero(),
        last_trade_timestamp: 0,
        is_initialized: true,
        is_paused: false,
        cooldown_duration,
        bump,
    };
    Ok(())
}

/// Grants a user access: only the configured admin may do it, and only for
/// a record not already granted.
pub fn process_grant_access(
    admin: Identity,
    config: &Config,
    access: &mut Access,
    user: Identity,
    bump: u8,
) -> (r: Result<(), ErrorCode>)
    ensures
        match r {
            Ok(()) => {
                &&& admin == config.admin
                &&& !old(access).is_granted
                &&& *final(access) == (Access { user, is_granted: true, bump })
            },
            Err(e) => {
                &&& *final(access) == *old(access)
                &&& e == if admin != config.admin {
                    ErrorCode::AdminAuthorityMismatch
                } else {
                    ErrorCode::AccessAlreadyGranted
                }
                &&& (admin != config.admin || old(access).is_granted)
            },
        },
{
    if admin != config.admin {
        return Err(ErrorCode::AdminAuthorityMismatch);
    }
    if access.is_granted {
        return Err(ErrorCode::AccessAlreadyGranted);
    }
    *access = Access { user, is_granted: true, bump };
    Ok(())
}

/// Revokes a user's access: only the configured admin may do it, and only
/// for a record currently granted.
pub fn process_revoke_access(admin: Identity, config: &Config, access: &mut Access) -> (r: Result<
    (),
    ErrorCode,
>)
    ensures
        match r {
            Ok(()) => {
                &&& admin == config.admin
                &&& old(access).is_granted
                &&& *final(access) == (Access { is_granted: false, ..*old(access) })
            },
            Err(e) => {
                &&& *final(access) == *old(access)
                &&& e == if admin != config.admin {
                    ErrorCode::AdminAuthorityMismatch
                } else {
                    ErrorCode::AccessNotGranted
                }
                &&& (admin != config.admin || !old(access).is_granted)
            },
        },
{
    if admin != config.admin {
        return Err(ErrorCode::AdminAuthorityMismatch);
    }
    if !access.is_granted {
        return Err(ErrorCode::AccessNotGranted);
    }
    access.is_granted = false;
    Ok(())
}

/// Changes the cooldown duration: admin-only, and never below the minimum.
pub fn process_modify_cooldown_duration(
    admin: Identity,
    config: &mut Config,
    cooldown_duration: i64,
) -> (r: Result<(), ErrorCode>)
    ensures
        match r {
            Ok(()) => {
                &&& admin == old(config).admin
                &&& cooldown_duration >= MINIMUM_TRADE_INTERVAL
                &&& *final(config) == (Config { cooldown_duration, ..*old(config) })
                &&& final(config).wf()
            },
            Err(e) => {
                &&& *final(config) == *old(config)
                &&& e == if admin != old(config).admin {
                    ErrorCode::OnlyAdminCanModifyCooldownDuration
                } else {
                    ErrorCode::InvalidCooldownDuration
                }
                &&& (admin != old(config).admin || cooldown_duration < MINIMUM_TRADE_INTERVAL)
            },
        },
{
    if admin != config.admin {
        return Err(ErrorCode::OnlyAdminCanModifyCooldownDuration);
    }
    if cooldown_duration < MINIMUM_TRADE_INTERVAL {
        return Err(ErrorCode::InvalidCooldownDuration);
    }
    config.cooldown_duration = cooldown_duration;
    Ok(())
}

/// Sets or clears the pause flag.
pub fn process_pause(config: &mut Config, toggle: bool)
    ensures
        *final(config) == (Config { is_paused: toggle, ..*old(config) }),
{
    config.is_paused = toggle;
}

/// First half of the admin handover: the current admin names a successor,
/// different from itself, while no handover is pending.
pub fn process_propose_new_admin(
    caller: Identity,
    config: &mut Config,
    new_admin: Identity,
) -> (r: Result<(), ErrorCode>)
    ensures
        match r {
            Ok(()) => {
                &&& caller == old(config).admin
                &&& new_admin != old(config).admin
                &&& old(config).no_pending_admin()
                &&& *final(config) == (Config { pending_admin: new_admin, ..*old(config) })
            },
            Err(e) => {
                &&& *final(config) == *old(config)
                &&& e == if caller != old(config).admin {
                    ErrorCode::OnlyAdminCanProposeNewAdmin
                } else if new_admin == old(config).admin {
                    ErrorCode::ProposedAdminIsCurrentAdmin
                } else {
                    ErrorCode::ProposedAdminAlreadySet
                }
                &&& (caller != old(config).admin || new_admin == old(config).admin || !old(
                    config,
                ).no_pending_admin())
            },
        },
{
    if caller != config.admin {
        return Err(ErrorCode::OnlyAdminCanProposeNewAdmin);
    }
    if new_admin == config.admin {
        return Err(ErrorCode::ProposedAdminIsCurrentAdmin);
    }
    let no_pending = config.pending_admin == Identity::zero();
    if !no_pending {
        return Err(ErrorCode::ProposedAdminAlreadySet);
    }
    config.pending_admin = new_admin;
    Ok(())
}

/// Second half of the admin handover: the named successor accepts and
/// becomes the admin; the pending slot is cleared.
pub fn process_accept_admin_transfer(caller: Identity, config: &mut Config) -> (r: Result<
    (),
    ErrorCode,
>)
    ensures
        match r {
            Ok(()) => {
                &&& !old(config).no_pending_admin()
                &&& caller == old(config).pending_admin
                &&& *final(config) == (Config {
                    admin: old(config).pending_admin,
                    pending_admin: spec_zero_identity(),
                    ..*old(config)
                })
            },
            Err(e) => {
                &&& *final(config) == *old(config)
                &&& e == if old(config).no_pending_admin() {
                    ErrorCode::NoPendingAdminTransfer
                } else {
                    ErrorCode::OnlyProposedAdminCanAccept
                }
                &&& (old(config).no_pending_admin() || caller != old(config).pending_admin)
            },
        },
{
    let no_pending = config.pending_admin == Identity::zero();
    if no_pending {
        return Err(ErrorCode::NoPendingAdminTransfer);
    }
    if caller != config.pending_admin {
        return Err(ErrorCode::OnlyProposedAdminCanAccept);
    }
    config.admin = config.pending_admin;
    config.pending_admin = Identity::zero();
    Ok(())
}

} // verus!

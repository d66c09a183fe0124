use crate::identity::{spec_zero_identity, Identity};
use vstd::prelude::*;

verus! {

/// Shortest cooldown duration, in seconds, that an admin may configure.
pub const MINIMUM_TRADE_INTERVAL: i64 = 0;

/// One deployment's configuration record: the parties allowed to act, the
/// intermediary ("vault") identity, and the trade-cooldown state.
#[derive(Clone, Copy, Debug, PartialEq, Eq, Structural)]
pub struct Config {
    pub admin: Identity,
    pub operator: Identity,
    pub vault: Identity,
    pub pending_admin: Identity,
    /// Seconds-since-epoch time of the last accepted trade.
    pub last_trade_timestamp: i64,
    pub is_initialized: bool,
    pub is_paused: bool,
    /// Minimum number of seconds that must elapse between accepted trades.
    pub cooldown_duration: i64,
    /// Derivation nonce of the configuration record's address.
    pub bump: u8,
}

impl Config {
    /// Every initialized configuration keeps its cooldown duration at or
    /// above the configured minimum.
    pub open spec fn wf(self) -> bool {
        self.cooldown_duration >= MINIMUM_TRADE_INTERVAL
    }

    /// Whether `caller` may request swaps under this configuration.
    pub open spec fn is_authorized_operator(self, caller: Identity) -> bool {
        caller == self.operator || caller == self.admin
    }

    /// Whether the cooldown window has elapsed at time `now`.
    pub open spec fn cooldown_elapsed(self, now: i64) -> bool {
        self.last_trade_timestamp + self.cooldown_duration < now
    }

    /// Whether no admin handover is pending.
    pub open spec fn no_pending_admin(self) -> bool {
        self.pending_admin == spec_zero_identity()
    }
}

/// One user's access record: whether swaps may be executed on their behalf.
#[derive(Clone, Copy, Debug, PartialEq, Eq, Structural)]
pub struct Access {
    pub user: Identity,
    pub is_granted: bool,
    /// Derivation nonce of the access record's address.
    pub bump: u8,
}

} // verus!

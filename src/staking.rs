//! Pending unlocks of a liquid-staking pool, and their upgrade from the
//! earlier record layout.

use vstd::prelude::*;

verus! {

/// Identifier of a pending unlock.
pub type PendingUnlockId = u128;

/// An unlock request waiting to be redeemed.
#[derive(Clone, Copy, Debug, PartialEq, Eq, Structural)]
pub struct PendingUnlock {
    /// The request's id.
    pub id: PendingUnlockId,
    /// The amount of liquid tokens to be unlocked.
    pub liquid_amount: u128,
    /// The amount of stake tokens to be unlocked.
    pub stake_token_amount: u128,
    /// When the unlock was requested.
    pub created_at: u64,
    /// When the cooldown ends; tokens can be redeemed after this time.
    pub cooldown_ends_at: u64,
    /// When the redeem period ends; tokens cannot be redeemed after this time.
    pub expires_at: u64,
}

impl PendingUnlock {
    /// Whether the unlock can be redeemed at `current_time`: strictly after
    /// the cooldown and strictly before it expires.
    pub fn is_within_redeem_period(&self, current_time: u64) -> (r: bool)
        ensures
            r == (self.cooldown_ends_at < current_time && current_time < self.expires_at),
    {
        self.cooldown_ends_at < current_time && current_time < self.expires_at
    }

    /// Whether the unlock has expired at `current_time`: strictly after its
    /// expiry.
    pub fn is_expired(&self, current_time: u64) -> (r: bool)
        ensures
            r == (self.expires_at < current_time),
    {
        self.expires_at < current_time
    }
}

/// The earlier layout of a pending unlock, without an id.
#[derive(Clone, Copy, Debug, PartialEq, Eq, Structural)]
pub struct PendingUnlockV1 {
    pub liquid_amount: u128,
    pub stake_token_amount: u128,
    pub created_at: u64,
    pub cooldown_ends_at: u64,
    pub expires_at: u64,
}

/// The current layout of `v1`, under the id `id`.
pub fn upgrade_pending_unlock_from_v1_to_current(v1: PendingUnlockV1, id: PendingUnlockId) -> (r:
    PendingUnlock)
    ensures
        r == (PendingUnlock {
            id,
            liquid_amount: v1.liquid_amount,
            stake_token_amount: v1.stake_token_amount,
            created_at: v1.created_at,
            cooldown_ends_at: v1.cooldown_ends_at,
            expires_at: v1.expires_at,
        }),
{
    PendingUnlock {
        id,
        liquid_amount: v1.liquid_amount,
        stake_token_amount: v1.stake_token_amount,
        created_at: v1.created_at,
        cooldown_ends_at: v1.cooldown_ends_at,
        expires_at: v1.expires_at,
    }
}

} // verus!

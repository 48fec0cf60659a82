//! Capacities of the fixed-size records, and the seeds of the addresses the
//! program owns.

use vstd::prelude::*;

verus! {

/// Number of slots on the wheel.
pub const SPIN_ITEM_COUNT: usize = 15;

/// Number of reward mints one slot can pay out.
pub const REWARD_TOKEN_COUNT_PER_ITEM: usize = 10;

/// Number of administrators the registry can hold.
pub const ADMIN_MAX_COUNT: usize = 15;

/// Number of reward mints the whole wheel can hold.
pub const MAX_REWARD_TOKEN_COUNT: usize = 150;

/// Seed of the authority over the token vault: the bytes of `sw_game_vault_auth`.
pub const ESCROW_PDA_SEED: [u8; 18] = [
    115, 119, 95, 103, 97, 109, 101, 95, 118, 97, 117, 108, 116, 95, 97, 117, 116, 104,
];

/// Seed of a user's round record: the bytes of `USER_STATE_SEED`.
pub const USER_STATE_SEED: [u8; 15] = [
    85, 83, 69, 82, 95, 83, 84, 65, 84, 69, 95, 83, 69, 69, 68,
];

/// Seed of the payment settings: the bytes of `ADMIN_SETTING_SEED`.
pub const ADMIN_SETTING_SEED: [u8; 18] = [
    65, 68, 77, 73, 78, 95, 83, 69, 84, 84, 73, 78, 71, 95, 83, 69, 69, 68,
];

/// Seed of the list of administrators: the bytes of `ADMIN_LIST_SEED`.
pub const ADMIN_LIST_SEED: [u8; 15] = [
    65, 68, 77, 73, 78, 95, 76, 73, 83, 84, 95, 83, 69, 69, 68,
];

/// Seed of the vault of native currency: the bytes of `SOL_VAULT`.
pub const VAULT_SEED: [u8; 9] = [83, 79, 76, 95, 86, 65, 85, 76, 84];

} // verus!

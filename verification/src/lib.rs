//! A prize wheel: an inventory of weighted reward slots, a per-user spin that
//! draws one slot and records the rewards owed, and the list of administrators.

pub mod admin;
pub mod clock;
pub mod constants;
pub mod draw;
pub mod errors;
pub mod identity;
pub mod inventory;
pub mod program;
pub mod rewards;
pub mod user;
pub mod vault;

pub use constants::{
    ADMIN_LIST_SEED, ADMIN_MAX_COUNT, ADMIN_SETTING_SEED, ESCROW_PDA_SEED, MAX_REWARD_TOKEN_COUNT,
    REWARD_TOKEN_COUNT_PER_ITEM, SPIN_ITEM_COUNT, USER_STATE_SEED, VAULT_SEED,
};
pub use admin::{AdminInfo, Pool, SettingInfo};
pub use draw::DrawOutcome;
pub use errors::SpinError;
pub use identity::Identity;
pub use inventory::{SpinItemList, WheelSlot};
pub use program::{
    add_admin, add_item, close_user_pending_acc, delete_admin, initialize, set_item,
    set_settinginfo, spin_wheel, spin_wheel_at, CloseUserPendingAcc, Initialize, ManageAdmin,
    PlayGame, SetSettingInfo, SpinWheel,
};
pub use rewards::ItemRewardMints;
pub use user::{UserPendingClaimState, UserState};
pub use vault::{
    claim, withdraw_paid_tokens, withdraw_sol, Claim, SignedTransfer, Transfer, VaultSeed, Withdraw,
    WithdrawSol,
};

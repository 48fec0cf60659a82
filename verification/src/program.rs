//! The operations of the program. Each takes the records it works on as one
//! value, changes them in place, and leaves every one of them as it was
//! where it returns an error.

use vstd::prelude::*;
use crate::admin::{AdminInfo, Pool, SettingInfo};
use crate::clock::read_clock_for;
use crate::draw::clock_in_range;
use crate::errors::SpinError;
use crate::identity::Identity;
use crate::inventory::{SpinItemList, WheelSlot};
use crate::rewards::ItemRewardMints;
use crate::user::{lemma_appended_all, UserPendingClaimState, UserState};

verus! {

/// The records that setting up the program creates.
#[derive(Clone, Copy, Debug, PartialEq, Eq)]
pub struct Initialize {
    /// Who pays for the records.
    pub initializer: Identity,
    pub pool: Pool,
    /// Who is to become the super administrator.
    pub super_admin: Identity,
    pub state: SpinItemList,
    pub setting_info: SettingInfo,
    pub admin_info: AdminInfo,
}

/// The record that filling the wheel works on.
#[derive(Clone, Copy, Debug, PartialEq, Eq)]
pub struct SpinWheel {
    pub state: SpinItemList,
}

/// The records that a spin works on.
#[derive(Clone, Copy, Debug, PartialEq, Eq)]
pub struct PlayGame {
    /// Who spins.
    pub user: Identity,
    pub state: SpinItemList,
    /// The spins of the user so far; zeroed before the first.
    pub user_state: UserState,
    /// The record that takes the rewards of this spin.
    pub user_pendingstate: UserPendingClaimState,
}

/// The records that closing a spin's rewards works on.
#[derive(Clone, Copy, Debug, PartialEq, Eq)]
pub struct CloseUserPendingAcc {
    /// Who closes.
    pub owner: Identity,
    pub user_pendingstate: UserPendingClaimState,
}

/// The records that changing the payment settings works on.
#[derive(Clone, Copy, Debug, PartialEq, Eq)]
pub struct SetSettingInfo {
    pub setting_info: SettingInfo,
    /// The token that a spin is paid in.
    pub payment_token: Identity,
}

/// The records that changing the list of administrators works on.
#[derive(Clone, Copy, Debug, PartialEq, Eq)]
pub struct ManageAdmin {
    /// Who asks for the change.
    pub authority: Identity,
    pub pool: Pool,
    pub admin_info: AdminInfo,
    /// The administrator to add or to remove.
    pub admin: Identity,
}

impl PlayGame {
    /// The winning slot of a spin at clock value `now` with seed `rand`: the
    /// slot the draw selects, or the one selected last where it selects none.
    pub open spec fn winning_index(self, now: i64, rand: u32) -> u8 {
        self.state.after_draw(self.state.drawn(now, rand)).last_spinindex
    }

    /// What the winning slot of such a spin holds.
    pub open spec fn winning_slot(self, now: i64, rand: u32) -> WheelSlot {
        self.state.slot(self.winning_index(now, rand) as int)
    }

    /// Whether the rewards of the winning slot fit behind the lines that the
    /// record of rewards holds already.
    pub open spec fn rewards_fit(self, now: i64, rand: u32) -> bool {
        let rewards = self.winning_slot(now, rand).rewards;
        rewards.count == 0 || self.user_pendingstate.count + rewards.count <= 10
    }

    /// Whether a spin at clock value `now` with seed `rand` that starts from
    /// these records returns `won` and leaves the records `after`: the
    /// winning slot and the records that `try_spun` gives, or its error and
    /// the records as they were.
    pub open spec fn spin_gives(
        self,
        now: i64,
        rand: u32,
        won: Result<u8, SpinError>,
        after: PlayGame,
    ) -> bool {
        match self.try_spun(now, rand) {
            Ok(next) => won == Ok::<u8, SpinError>(self.winning_index(now, rand)) && after == next,
            Err(e) => won == Err::<u8, SpinError>(e) && after == self,
        }
    }

    /// What a spin at clock value `now` with seed `rand` makes of the
    /// records. The user's record counts the spin, or the spin is refused
    /// with `IncorrectUserState` where that record belongs to someone else.
    /// The wheel records the slot that the draw selected. The record of
    /// rewards takes one line for each reward of the winning slot, each with
    /// the slot's amount, and is stamped with the user and the number of the
    /// spin; where the lines do not fit, the spin is refused with
    /// `CountOverflowAddItem`.
    pub open spec fn try_spun(self, now: i64, rand: u32) -> Result<PlayGame, SpinError> {
        match self.user_state.try_next_round(self.user) {
            Err(e) => Err(e),
            Ok(user_state) => {
                let won = self.winning_slot(now, rand);
                if self.rewards_fit(now, rand) {
                    Ok(
                        PlayGame {
                            user: self.user,
                            state: self.state.after_draw(self.state.drawn(now, rand)),
                            user_state,
                            user_pendingstate: self.user_pendingstate.appended_all(
                                won.rewards@,
                                won.amount,
                            ).stamped(self.user, user_state.round_num),
                        },
                    )
                } else {
                    Err(SpinError::CountOverflowAddItem)
                }
            },
        }
    }
}

/// Sets the program up: names the super administrator, keeps the bump of the
/// root record, and starts with an empty wheel, no administrators and no
/// payment settings. Never fails.
pub fn initialize(ctx: &mut Initialize, _bump: u8) -> (done: Result<(), SpinError>)
    ensures
        done is Ok,
        final(ctx).pool == (Pool { superadmin: old(ctx).super_admin, bump: _bump }),
        final(ctx).state == SpinItemList::empty(),
        final(ctx).setting_info == SettingInfo::empty(),
        final(ctx).admin_info == AdminInfo::empty(),
        final(ctx).initializer == old(ctx).initializer,
        final(ctx).super_admin == old(ctx).super_admin,
        final(ctx).state.wf(),
        final(ctx).admin_info.wf(),
{
    ctx.pool.superadmin = ctx.super_admin;
    ctx.pool.bump = _bump;
    ctx.state = SpinItemList::default();
    ctx.setting_info = SettingInfo::default();
    ctx.admin_info = AdminInfo::default();
    Ok(())
}

/// Appends a slot to the wheel, with the first `count` mints of
/// `item_mint_list` as its rewards. A wheel with all fifteen slots in use is
/// left as it is and `CountOverflowAddItem` is returned.
pub fn add_item(
    ctx: &mut SpinWheel,
    item_mint_list: [Identity; 10],
    count: u8,
    token_type: u8,
    ratio: u32,
    amount: u64,
) -> (done: Result<(), SpinError>)
    ensures
        done is Ok <==> old(ctx).state.count < 15,
        match old(ctx).state.try_added(
            (WheelSlot {
                rewards: ItemRewardMints { item_mint_list, count },
                token_type,
                ratio,
                amount,
            }),
        ) {
            Ok(next) => done is Ok && final(ctx).state == next,
            Err(e) => done == Err::<(), SpinError>(e) && *final(ctx) == *old(ctx),
        },
        done is Ok ==> final(ctx).state.count == old(ctx).state.count + 1,
        old(ctx).state.wf() ==> final(ctx).state.wf(),
{
    ctx.state.add_spinitem(ItemRewardMints { item_mint_list, count }, token_type, ratio, amount)
}

/// Overwrites slot `index` of the wheel, with the first `count` mints of
/// `item_mint_list` as its rewards, and counts the slots up to it as in use.
/// For an `index` of fifteen or more the wheel is left as it is and
/// `IndexOverflowSetItem` is returned.
pub fn set_item(
    ctx: &mut SpinWheel,
    index: u8,
    item_mint_list: [Identity; 10],
    count: u8,
    token_type: u8,
    ratio: u32,
    amount: u64,
) -> (done: Result<(), SpinError>)
    ensures
        done is Ok <==> index < 15,
        match old(ctx).state.try_set(
            index,
            (WheelSlot {
                rewards: ItemRewardMints { item_mint_list, count },
                token_type,
                ratio,
                amount,
            }),
        ) {
            Ok(next) => done is Ok && final(ctx).state == next,
            Err(e) => done == Err::<(), SpinError>(e) && *final(ctx) == *old(ctx),
        },
        done is Ok ==> final(ctx).state.count == if old(ctx).state.count <= index {
            index + 1
        } else {
            old(ctx).state.count as int
        },
        old(ctx).state.wf() ==> final(ctx).state.wf(),
{
    ctx.state.set_spinitem(
        index,
        ItemRewardMints { item_mint_list, count },
        token_type,
        ratio,
        amount,
    )
}

/// Spins the wheel for `ctx.user` at clock value `now` with seed `rand`, and
/// returns the winning slot. `try_spun` says what becomes of the records; a
/// refused spin leaves them all as they were.
pub fn spin_wheel_at(ctx: &mut PlayGame, now: i64, rand: u32, _round_id: u64) -> (won: Result<
    u8,
    SpinError,
>)
    requires
        old(ctx).state.wf(),
        old(ctx).user_state.has_room(),
        clock_in_range(now, rand),
    ensures
        old(ctx).spin_gives(now, rand, won, *final(ctx)),
        won matches Ok(slot) ==> slot < 15,
        final(ctx).state.wf(),
{
    let mut user_state = ctx.user_state;
    match user_state.next_round(ctx.user) {
        Err(e) => {
            return Err(e);
        },
        Ok(()) => {},
    }
    let mut state = ctx.state;
    state.get_spinresult_at(now, rand);
    let index = state.last_spinindex;
    let slot = state.slot_at(index);
    let rewards = slot.rewards;
    let mut ledger = ctx.user_pendingstate;
    if rewards.count > 0 && (ledger.count > 10 || rewards.count > 10 - ledger.count) {
        return Err(SpinError::CountOverflowAddItem);
    }
    let mut i: u8 = 0;
    while i < rewards.count
        invariant
            i <= rewards.count,
            rewards.count > 0 ==> ctx.user_pendingstate.count + rewards.count <= 10,
            ledger == ctx.user_pendingstate.appended_all(rewards@.take(i as int), slot.amount),
            ledger.count == ctx.user_pendingstate.count + i,
        decreases rewards.count - i,
    {
        let added = ledger.add_item(rewards.item_mint_list[i as usize], slot.amount);
        proof {
            let lines = rewards@.take(i as int + 1);
            assert(lines.drop_last() =~= rewards@.take(i as int));
            assert(lines.last() == rewards.item_mint_list[i as int]);
        }
        i += 1;
    }
    proof {
        assert(rewards@.take(rewards.count as int) =~= rewards@);
    }
    ledger.user = ctx.user;
    ledger.is_claimed = false;
    ledger.round_num = user_state.round_num;
    ctx.user_state = user_state;
    ctx.state = state;
    ctx.user_pendingstate = ledger;
    Ok(index)
}

/// Spins the wheel for `ctx.user` with seed `rand`, at the clock value that
/// the runtime reports. A spin by someone who does not own the user's record
/// is refused with `IncorrectUserState` before the clock is read. After
/// that, `None` says that no clock value could be had, or that the draw
/// cannot take it, and that nothing was changed; otherwise the result and
/// the records are those of `spin_wheel_at` for the clock value that was read.
pub fn spin_wheel(ctx: &mut PlayGame, rand: u32, _round_id: u64) -> (won: Option<
    Result<u8, SpinError>,
>)
    requires
        old(ctx).state.wf(),
        old(ctx).user_state.has_room(),
    ensures
        old(ctx).user_state.try_next_round(old(ctx).user) is Err ==> won == Some(
            Err::<u8, SpinError>(SpinError::IncorrectUserState),
        ),
        match won {
            None => *final(ctx) == *old(ctx),
            Some(result) => exists|now: i64|
                clock_in_range(now, rand) && #[trigger] old(ctx).spin_gives(
                    now,
                    rand,
                    result,
                    *final(ctx),
                ),
        },
        won matches Some(Ok(slot)) ==> slot < 15,
        final(ctx).state.wf(),
{
    if ctx.user_state.is_initialized && ctx.user_state.user != ctx.user {
        proof {
            assert(clock_in_range(0, rand));
            assert(ctx.spin_gives(
                0,
                rand,
                Err::<u8, SpinError>(SpinError::IncorrectUserState),
                *ctx,
            ));
        }
        return Some(Err(SpinError::IncorrectUserState));
    }
    match read_clock_for(rand) {
        Some(now) => Some(spin_wheel_at(ctx, now, rand, _round_id)),
        None => None,
    }
}

/// Marks the rewards of a spin as claimed, so that their record can be
/// given up. Only the user the record belongs to may do so: for anyone else
/// the record is left as it is and `IncorrectUserState` is returned.
pub fn close_user_pending_acc(ctx: &mut CloseUserPendingAcc) -> (done: Result<(), SpinError>)
    ensures
        done is Ok <==> old(ctx).user_pendingstate.user == old(ctx).owner,
        done is Ok ==> final(ctx).user_pendingstate == old(ctx).user_pendingstate.claimed()
            && final(ctx).owner == old(ctx).owner,
        done is Err ==> done == Err::<(), SpinError>(SpinError::IncorrectUserState) && *final(ctx)
            == *old(ctx),
{
    if !ctx.user_pendingstate.is_owned_by(&ctx.owner) {
        return Err(SpinError::IncorrectUserState);
    }
    ctx.user_pendingstate.is_claimed = true;
    Ok(())
}

/// Sets what a spin costs: `payment_amount` of the token `ctx.payment_token`,
/// and `payment_solamount` of native currency. Never fails.
pub fn set_settinginfo(ctx: &mut SetSettingInfo, payment_amount: u64, payment_solamount: u64) -> (done:
    Result<(), SpinError>)
    ensures
        done is Ok,
        final(ctx).setting_info == (SettingInfo {
            payment_token: old(ctx).payment_token,
            payment_amount,
            payment_solamount,
        }),
        final(ctx).payment_token == old(ctx).payment_token,
{
    ctx.setting_info.payment_token = ctx.payment_token;
    ctx.setting_info.payment_amount = payment_amount;
    ctx.setting_info.payment_solamount = payment_solamount;
    Ok(())
}

/// Adds `ctx.admin` to the administrators. Only the super administrator may
/// do so: for anyone else `UnauthorizedAdmin` is returned. A list of fifteen
/// gives `CountOverflowAddItem`. Either way the records stay as they were.
pub fn add_admin(ctx: &mut ManageAdmin) -> (done: Result<(), SpinError>)
    ensures
        old(ctx).pool.superadmin != old(ctx).authority ==> done == Err::<(), SpinError>(
            SpinError::UnauthorizedAdmin,
        ),
        old(ctx).pool.superadmin == old(ctx).authority ==> match old(ctx).admin_info.try_added(
            old(ctx).admin,
        ) {
            Ok(next) => done is Ok && final(ctx).admin_info == next,
            Err(e) => done == Err::<(), SpinError>(e),
        },
        done is Err ==> *final(ctx) == *old(ctx),
        done is Ok ==> final(ctx).admin_info@ == old(ctx).admin_info@.push(old(ctx).admin),
        final(ctx).authority == old(ctx).authority,
        final(ctx).pool == old(ctx).pool,
        final(ctx).admin == old(ctx).admin,
        old(ctx).admin_info.wf() ==> final(ctx).admin_info.wf(),
{
    if !ctx.pool.is_superadmin(&ctx.authority) {
        return Err(SpinError::UnauthorizedAdmin);
    }
    ctx.admin_info.add_admin(ctx.admin)
}

/// Removes `ctx.admin` from the administrators, where the list holds it.
/// Only the super administrator may do so: for anyone else the records stay
/// as they were and `UnauthorizedAdmin` is returned.
pub fn delete_admin(ctx: &mut ManageAdmin) -> (done: Result<(), SpinError>)
    requires
        old(ctx).admin_info.wf(),
    ensures
        done is Ok <==> old(ctx).pool.superadmin == old(ctx).authority,
        done is Ok ==> final(ctx).admin_info == old(ctx).admin_info.removed(old(ctx).admin),
        done is Err ==> done == Err::<(), SpinError>(SpinError::UnauthorizedAdmin) && *final(ctx)
            == *old(ctx),
        final(ctx).authority == old(ctx).authority,
        final(ctx).pool == old(ctx).pool,
        final(ctx).admin == old(ctx).admin,
        final(ctx).admin_info.wf(),
{
    if !ctx.pool.is_superadmin(&ctx.authority) {
        return Err(SpinError::UnauthorizedAdmin);
    }
    ctx.admin_info.delete_admin(ctx.admin)
}

/// The first spin of a user claims their record and counts one spin; their
/// next spin counts two. A spin by anyone else on that record is refused
/// with `IncorrectUserState`, and by `spin_gives` leaves the count where it was.
pub proof fn lemma_rounds_count_up(
    first: PlayGame,
    second: PlayGame,
    intruder: PlayGame,
    now: i64,
    rand: u32,
)
    requires
        !first.user_state.is_initialized,
        first.try_spun(now, rand) matches Ok(after) && second.user_state == after.user_state
            && intruder.user_state == after.user_state,
        second.user == first.user,
        intruder.user != first.user,
    ensures
        first.try_spun(now, rand) matches Ok(after) && after.user_state == (UserState {
            is_initialized: true,
            user: first.user,
            round_num: 1,
        }),
        forall|later: i64, seed: u32|
            (#[trigger] second.try_spun(later, seed)) matches Ok(after) ==> after.user_state
                == (UserState { is_initialized: true, user: first.user, round_num: 2 }),
        forall|later: i64, seed: u32| #[trigger]
            intruder.try_spun(later, seed) == Err::<PlayGame, SpinError>(
                SpinError::IncorrectUserState,
            ),
        forall|later: i64, seed: u32, won: Result<u8, SpinError>, after: PlayGame| #[trigger]
            intruder.spin_gives(later, seed, won, after) ==> after.user_state.round_num == 1,
{
}

/// A spin that succeeds on an empty record of rewards leaves in it one line
/// for each reward of the winning slot, in their order: the mint is the
/// reward's and the amount is the slot's. The record is stamped with the
/// user and the number of the spin, and is not yet claimed.
pub proof fn lemma_spin_records_rewards(ctx: PlayGame, now: i64, rand: u32)
    requires
        ctx.user_pendingstate.count == 0,
        ctx.try_spun(now, rand) is Ok,
    ensures
        ({
            let after = ctx.try_spun(now, rand)->Ok_0;
            let won = ctx.winning_slot(now, rand);
            &&& won.rewards.count <= 10
            &&& after.user_pendingstate.count == won.rewards.count
            &&& after.user_pendingstate@.len() == won.rewards.count
            &&& forall|i: int|
                0 <= i < won.rewards.count ==> #[trigger] after.user_pendingstate@[i] == (
                    won.rewards.item_mint_list[i],
                    won.amount,
                )
            &&& after.user_pendingstate.user == ctx.user
            &&& after.user_pendingstate.round_num == after.user_state.round_num
            &&& !after.user_pendingstate.is_claimed
        }),
{
    broadcast use vstd::array::group_array_axioms;

    let won = ctx.winning_slot(now, rand);
    lemma_appended_all(ctx.user_pendingstate, won.rewards@, won.amount);
    let lines = Seq::new(won.rewards@.len(), |i: int| (won.rewards@[i], won.amount));
    assert(ctx.user_pendingstate@ =~= Seq::<(Identity, u64)>::empty());
    let after = ctx.try_spun(now, rand)->Ok_0;
    let filled = ctx.user_pendingstate.appended_all(won.rewards@, won.amount);
    assert(after.user_pendingstate@ =~= filled@);
    assert(filled@ =~= lines);
}

} // verus!

//! What the wheel keeps for each user: the count of their spins, and for each
//! spin the rewards still owed.

use vstd::prelude::*;
use vstd::array::{spec_array_fill_for_copy_type, spec_array_update};
use crate::errors::SpinError;
use crate::identity::Identity;

verus! {

/// The spins of one user. The record starts out zeroed; the first spin claims
/// it for the user, and every later spin must come from that user.
#[derive(Clone, Copy, Debug, PartialEq, Eq)]
pub struct UserState {
    pub is_initialized: bool,
    pub user: Identity,
    pub round_num: u32,
}

impl UserState {
    /// The record before the user's first spin.
    pub open spec fn empty() -> UserState {
        UserState { is_initialized: false, user: Identity::zero(), round_num: 0 }
    }

    /// The record can count one more spin.
    pub open spec fn has_room(self) -> bool {
        self.is_initialized ==> self.round_num < u32::MAX
    }

    /// What a spin by `user` makes of the record: a record not yet claimed is
    /// claimed for `user` with one spin counted, a record of `user` counts one
    /// more, and a record of someone else gives `IncorrectUserState`.
    pub open spec fn try_next_round(self, user: Identity) -> Result<UserState, SpinError> {
        if !self.is_initialized {
            Ok(UserState { is_initialized: true, user, round_num: 1 })
        } else if self.user != user {
            Err(SpinError::IncorrectUserState)
        } else {
            Ok(
                UserState {
                    is_initialized: true,
                    user: self.user,
                    round_num: (self.round_num + 1) as u32,
                },
            )
        }
    }

    /// Whether the record can count one more spin.
    pub fn can_count_spin(&self) -> (ok: bool)
        ensures
            ok == self.has_room(),
    {
        !self.is_initialized || self.round_num < u32::MAX
    }

    /// Counts a spin by `user`. A record that belongs to someone else is left
    /// as it is and `IncorrectUserState` is returned.
    pub fn next_round(&mut self, user: Identity) -> (done: Result<(), SpinError>)
        requires
            old(self).has_room(),
        ensures
            match old(self).try_next_round(user) {
                Ok(next) => done is Ok && *final(self) == next,
                Err(e) => done == Err::<(), SpinError>(e) && *final(self) == *old(self),
            },
            done is Err <==> old(self).is_initialized && old(self).user != user,
    {
        if !self.is_initialized {
            self.is_initialized = true;
            self.user = user;
            self.round_num = 1;
        } else {
            if self.user != user {
                return Err(SpinError::IncorrectUserState);
            }
            self.round_num = self.round_num + 1;
        }
        Ok(())
    }
}

impl Default for UserState {
    fn default() -> (state: UserState)
        ensures
            state == UserState::empty(),
    {
        UserState { is_initialized: false, user: Identity::default(), round_num: 0 }
    }
}

/// The rewards owed to a user for one spin: up to ten lines, each a token
/// mint and a quantity. Line `i` is made of entry `i` of the two lists; only
/// the first `count` lines are owed.
#[derive(Clone, Copy, Debug, PartialEq, Eq)]
pub struct UserPendingClaimState {
    pub user: Identity,
    pub is_claimed: bool,
    pub round_num: u32,
    pub pending_mint_list: [Identity; 10],
    pub pending_amount_list: [u64; 10],
    pub count: u8,
}

impl View for UserPendingClaimState {
    type V = Seq<(Identity, u64)>;

    /// The lines owed, in the order they were recorded.
    open spec fn view(&self) -> Seq<(Identity, u64)> {
        Seq::new(
            self.count as nat,
            |i: int| (self.pending_mint_list[i], self.pending_amount_list[i]),
        )
    }
}

impl UserPendingClaimState {
    /// The record holds no more lines than it has room for.
    pub open spec fn wf(self) -> bool {
        self.count <= 10
    }

    /// The record as it is created: no line, not claimed, every entry zero.
    pub open spec fn empty() -> UserPendingClaimState {
        UserPendingClaimState {
            user: Identity::zero(),
            is_claimed: false,
            round_num: 0,
            pending_mint_list: spec_array_fill_for_copy_type::<Identity, 10>(Identity::zero()),
            pending_amount_list: spec_array_fill_for_copy_type::<u64, 10>(0u64),
            count: 0,
        }
    }

    /// The record with one more line, written behind the lines it holds.
    pub open spec fn appended(self, pending_mint: Identity, amount: u64) -> UserPendingClaimState {
        UserPendingClaimState {
            user: self.user,
            is_claimed: self.is_claimed,
            round_num: self.round_num,
            pending_mint_list: spec_array_update(
                self.pending_mint_list,
                self.count as int,
                pending_mint,
            ),
            pending_amount_list: spec_array_update(
                self.pending_amount_list,
                self.count as int,
                amount,
            ),
            count: (self.count + 1) as u8,
        }
    }

    /// The record with one line of `amount` appended for each of `mints`, in order.
    pub open spec fn appended_all(self, mints: Seq<Identity>, amount: u64) -> UserPendingClaimState
        decreases mints.len(),
    {
        if mints.len() == 0 {
            self
        } else {
            self.appended_all(mints.drop_last(), amount).appended(mints.last(), amount)
        }
    }

    /// The record stamped with its owner and round, and marked as not claimed.
    pub open spec fn stamped(self, user: Identity, round_num: u32) -> UserPendingClaimState {
        UserPendingClaimState {
            user,
            is_claimed: false,
            round_num,
            pending_mint_list: self.pending_mint_list,
            pending_amount_list: self.pending_amount_list,
            count: self.count,
        }
    }

    /// The record marked as claimed.
    pub open spec fn claimed(self) -> UserPendingClaimState {
        UserPendingClaimState {
            user: self.user,
            is_claimed: true,
            round_num: self.round_num,
            pending_mint_list: self.pending_mint_list,
            pending_amount_list: self.pending_amount_list,
            count: self.count,
        }
    }

    /// Whether the record does what `wf` asks.
    pub fn is_wf(&self) -> (ok: bool)
        ensures
            ok == self.wf(),
    {
        self.count <= 10
    }

    /// Whether the record belongs to `caller`, who may then claim and close it.
    pub fn is_owned_by(&self, caller: &Identity) -> (yes: bool)
        ensures
            yes == (self.user == *caller),
    {
        self.user == *caller
    }

    /// Appends a line. A record that already holds ten lines is left as it is
    /// and `CountOverflowAddItem` is returned.
    pub fn add_item(&mut self, pending_mint: Identity, amount: u64) -> (done: Result<(), SpinError>)
        ensures
            done is Ok <==> old(self).count < 10,
            done is Ok ==> *final(self) == old(self).appended(pending_mint, amount),
            done is Ok ==> final(self)@ == old(self)@.push((pending_mint, amount)),
            done is Err ==> done == Err::<(), SpinError>(SpinError::CountOverflowAddItem)
                && *final(self) == *old(self),
            old(self).wf() ==> final(self).wf(),
    {
        if self.count >= 10 {
            return Err(SpinError::CountOverflowAddItem);
        }
        self.pending_mint_list[self.count as usize] = pending_mint;
        self.pending_amount_list[self.count as usize] = amount;
        self.count += 1;
        proof {
            let target = old(self).appended(pending_mint, amount);
            assert(self.pending_mint_list =~= target.pending_mint_list);
            assert(self.pending_amount_list =~= target.pending_amount_list);
            assert(self@ =~= old(self)@.push((pending_mint, amount)));
        }
        Ok(())
    }
}

impl Default for UserPendingClaimState {
    fn default() -> (ledger: UserPendingClaimState)
        ensures
            ledger == UserPendingClaimState::empty(),
            ledger@ == Seq::<(Identity, u64)>::empty(),
    {
        let ledger = UserPendingClaimState {
            user: Identity::default(),
            is_claimed: false,
            round_num: 0,
            pending_mint_list: [Identity::default();10],
            pending_amount_list: [0;10],
            count: 0,
        };
        proof {
            assert(ledger@ =~= Seq::<(Identity, u64)>::empty());
        }
        ledger
    }
}

/// Once a record is claimed for a user it stays theirs, and every spin that
/// it counts raises the count by exactly one.
pub proof fn lemma_counted_spin_keeps_owner(state: UserState, user: Identity)
    requires
        state.is_initialized,
        state.has_room(),
    ensures
        match state.try_next_round(user) {
            Ok(next) => user == state.user && next.user == state.user && next.is_initialized
                && next.round_num == state.round_num + 1,
            Err(e) => user != state.user && e == SpinError::IncorrectUserState,
        },
{
}

/// Appending a line for each of `mints` puts those lines, each with `amount`,
/// behind the lines the record held, and changes nothing else of what it owes.
pub proof fn lemma_appended_all(ledger: UserPendingClaimState, mints: Seq<Identity>, amount: u64)
    requires
        ledger.count + mints.len() <= 10,
    ensures
        ledger.appended_all(mints, amount).count == ledger.count + mints.len(),
        ledger.appended_all(mints, amount)@ == ledger@ + Seq::new(
            mints.len(),
            |i: int| (mints[i], amount),
        ),
        ledger.appended_all(mints, amount).user == ledger.user,
        ledger.appended_all(mints, amount).is_claimed == ledger.is_claimed,
        ledger.appended_all(mints, amount).round_num == ledger.round_num,
    decreases mints.len(),
{
    broadcast use vstd::array::group_array_axioms;

    let lines = Seq::new(mints.len(), |i: int| (mints[i], amount));
    if mints.len() == 0 {
        assert(ledger@ =~= ledger@ + lines);
    } else {
        let front = mints.drop_last();
        lemma_appended_all(ledger, front, amount);
        let before = ledger.appended_all(front, amount);
        let front_lines = Seq::new(front.len(), |i: int| (front[i], amount));
        let after = before.appended(mints.last(), amount);
        assert(after@ =~= before@.push((mints.last(), amount)));
        assert(before@.push((mints.last(), amount)) =~= ledger@ + lines);
    }
}

} // verus!

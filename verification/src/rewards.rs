//! What a slot of the wheel pays out: a short list of token mints.

use vstd::prelude::*;
use vstd::array::spec_array_fill_for_copy_type;
use crate::errors::SpinError;
use crate::identity::Identity;

verus! {

/// The token mints that one slot pays out. Only the first `count` entries of
/// `item_mint_list` are rewards; what stands after them is not read.
#[derive(Clone, Copy, Debug, PartialEq, Eq)]
pub struct ItemRewardMints {
    pub item_mint_list: [Identity; 10],
    pub count: u8,
}

impl View for ItemRewardMints {
    type V = Seq<Identity>;

    /// The rewards in order: the first `count` mints of the list.
    open spec fn view(&self) -> Seq<Identity> {
        self.item_mint_list@.take(self.count as int)
    }
}

impl ItemRewardMints {
    /// The list holds no more rewards than it has room for.
    pub open spec fn wf(self) -> bool {
        self.count <= 10
    }

    /// The list without rewards, all its entries the zero address.
    pub open spec fn empty() -> ItemRewardMints {
        ItemRewardMints {
            item_mint_list: spec_array_fill_for_copy_type::<Identity, 10>(Identity::zero()),
            count: 0,
        }
    }

    /// The list after `reward_mint` was written behind its last reward.
    pub open spec fn appended(self, reward_mint: Identity) -> ItemRewardMints {
        ItemRewardMints {
            item_mint_list: vstd::array::spec_array_update(
                self.item_mint_list,
                self.count as int,
                reward_mint,
            ),
            count: (self.count + 1) as u8,
        }
    }

    /// Whether the list does what `wf` asks.
    pub fn is_wf(&self) -> (ok: bool)
        ensures
            ok == self.wf(),
    {
        self.count <= 10
    }

    /// Appends a reward. A list that already holds ten rewards is left as it
    /// is and `CountOverflowAddItem` is returned.
    pub fn add_reward_item(&mut self, reward_mint: Identity) -> (done: Result<(), SpinError>)
        ensures
            done is Ok <==> old(self).count < 10,
            done is Ok ==> *final(self) == old(self).appended(reward_mint),
            done is Ok ==> final(self)@ == old(self)@.push(reward_mint),
            done is Err ==> done == Err::<(), SpinError>(SpinError::CountOverflowAddItem)
                && *final(self) == *old(self),
            old(self).wf() ==> final(self).wf(),
    {
        if self.count >= 10 {
            return Err(SpinError::CountOverflowAddItem);
        }
        self.item_mint_list[self.count as usize] = reward_mint;
        self.count += 1;
        proof {
            assert(self.item_mint_list =~= old(self).appended(reward_mint).item_mint_list);
            assert(self@ =~= old(self)@.push(reward_mint));
        }
        Ok(())
    }
}

impl Default for ItemRewardMints {
    fn default() -> (rewards: ItemRewardMints)
        ensures
            rewards == ItemRewardMints::empty(),
            rewards@ == Seq::<Identity>::empty(),
    {
        let rewards = ItemRewardMints { item_mint_list: [Identity::default();10], count: 0 };
        proof {
            assert(rewards@ =~= Seq::<Identity>::empty());
        }
        rewards
    }
}

} // verus!

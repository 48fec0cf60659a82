//! The wheel: fifteen slots, each with its rewards, its weight and its payout,
//! the number of slots in use, and the slot that the last draw selected.

use vstd::prelude::*;
use vstd::array::{spec_array_fill_for_copy_type, spec_array_update};
use crate::clock::read_clock_for;
use crate::draw::{
    clock_in_range, draw_outcome, draw_slot, lemma_covering_slot_is_drawn,
    lemma_point_below_total_is_covered, lemma_ratio_prefix_grows, lemma_scaled_value_bounds,
    ratio_prefix, scaled_draw, scaled_value, slot_covers, DrawOutcome,
};
use crate::errors::SpinError;
use crate::rewards::ItemRewardMints;

verus! {

/// What one slot of the wheel holds.
#[derive(Clone, Copy, Debug, PartialEq, Eq)]
pub struct WheelSlot {
    /// The token mints paid out when the slot wins.
    pub rewards: ItemRewardMints,
    /// A tag for the kind of token.
    pub token_type: u8,
    /// The weight of the slot in a draw.
    pub ratio: u32,
    /// The quantity paid out of each reward mint.
    pub amount: u64,
}

/// The wheel. Slot `i` is made of entry `i` of each of the four lists. The
/// slots before `count` are in use. A draw looks at the weights of all fifteen.
#[derive(Clone, Copy, Debug, PartialEq, Eq)]
pub struct SpinItemList {
    pub reward_mint_list: [ItemRewardMints; 15],
    pub token_type_list: [u8; 15],
    pub ratio_list: [u32; 15],
    pub amount_list: [u64; 15],
    pub last_spinindex: u8,
    pub count: u8,
}

impl SpinItemList {
    /// No more slots are in use than the wheel has, and the last selected
    /// slot is one of them.
    pub open spec fn wf(self) -> bool {
        self.count <= 15 && self.last_spinindex < 15
    }

    /// The wheel as it is created: nothing in use, every entry zero.
    pub open spec fn empty() -> SpinItemList {
        SpinItemList {
            reward_mint_list: spec_array_fill_for_copy_type::<ItemRewardMints, 15>(
                ItemRewardMints::empty(),
            ),
            token_type_list: spec_array_fill_for_copy_type::<u8, 15>(0u8),
            ratio_list: spec_array_fill_for_copy_type::<u32, 15>(0u32),
            amount_list: spec_array_fill_for_copy_type::<u64, 15>(0u64),
            last_spinindex: 0,
            count: 0,
        }
    }

    /// What slot `index` holds.
    pub open spec fn slot(self, index: int) -> WheelSlot {
        WheelSlot {
            rewards: self.reward_mint_list[index],
            token_type: self.token_type_list[index],
            ratio: self.ratio_list[index],
            amount: self.amount_list[index],
        }
    }

    /// The wheel with slot `index` overwritten and nothing else changed.
    pub open spec fn with_slot(self, index: int, slot: WheelSlot) -> SpinItemList {
        SpinItemList {
            reward_mint_list: spec_array_update(self.reward_mint_list, index, slot.rewards),
            token_type_list: spec_array_update(self.token_type_list, index, slot.token_type),
            ratio_list: spec_array_update(self.ratio_list, index, slot.ratio),
            amount_list: spec_array_update(self.amount_list, index, slot.amount),
            last_spinindex: self.last_spinindex,
            count: self.count,
        }
    }

    /// The wheel with another number of slots in use and nothing else changed.
    pub open spec fn with_count(self, count: u8) -> SpinItemList {
        SpinItemList {
            reward_mint_list: self.reward_mint_list,
            token_type_list: self.token_type_list,
            ratio_list: self.ratio_list,
            amount_list: self.amount_list,
            last_spinindex: self.last_spinindex,
            count,
        }
    }

    /// The wheel with another last selected slot and nothing else changed.
    pub open spec fn with_last_spinindex(self, last_spinindex: u8) -> SpinItemList {
        SpinItemList {
            reward_mint_list: self.reward_mint_list,
            token_type_list: self.token_type_list,
            ratio_list: self.ratio_list,
            amount_list: self.amount_list,
            last_spinindex,
            count: self.count,
        }
    }

    /// What appending `slot` gives: the slot written behind the slots in use
    /// and one more slot in use, or `CountOverflowAddItem` where all fifteen
    /// are in use already.
    pub open spec fn try_added(self, slot: WheelSlot) -> Result<SpinItemList, SpinError> {
        if self.count < 15 {
            Ok(self.with_slot(self.count as int, slot).with_count((self.count + 1) as u8))
        } else {
            Err(SpinError::CountOverflowAddItem)
        }
    }

    /// What writing `slot` at `index` gives: the slot overwritten and the
    /// number of slots in use raised to cover it, or `IndexOverflowSetItem`
    /// where the wheel has no slot `index`.
    pub open spec fn try_set(self, index: u8, slot: WheelSlot) -> Result<SpinItemList, SpinError> {
        if index < 15 {
            Ok(
                self.with_slot(index as int, slot).with_count(
                    if self.count <= index {
                        (index + 1) as u8
                    } else {
                        self.count
                    },
                ),
            )
        } else {
            Err(SpinError::IndexOverflowSetItem)
        }
    }

    /// What a draw at clock value `now` with `seed` selects on this wheel.
    pub open spec fn drawn(self, now: i64, seed: u32) -> DrawOutcome {
        draw_outcome(self.ratio_list@, scaled_value(now, seed))
    }

    /// The wheel after a draw with the given outcome: a selected slot is
    /// recorded as the last selected one, and a draw that matched no slot
    /// leaves the wheel as it was.
    pub open spec fn after_draw(self, outcome: DrawOutcome) -> SpinItemList {
        match outcome {
            DrawOutcome::Selected(slot) => self.with_last_spinindex(slot),
            DrawOutcome::NoSlotMatched => self,
        }
    }

    /// Whether the wheel does what `wf` asks.
    pub fn is_wf(&self) -> (ok: bool)
        ensures
            ok == self.wf(),
    {
        self.count <= 15 && self.last_spinindex < 15
    }

    /// Reads slot `index`.
    pub fn slot_at(&self, index: u8) -> (slot: WheelSlot)
        requires
            index < 15,
        ensures
            slot == self.slot(index as int),
    {
        let i = index as usize;
        WheelSlot {
            rewards: self.reward_mint_list[i],
            token_type: self.token_type_list[i],
            ratio: self.ratio_list[i],
            amount: self.amount_list[i],
        }
    }

    fn write_slot(&mut self, index: u8, slot: WheelSlot)
        requires
            index < 15,
        ensures
            *final(self) == old(self).with_slot(index as int, slot),
    {
        let i = index as usize;
        self.reward_mint_list[i] = slot.rewards;
        self.token_type_list[i] = slot.token_type;
        self.ratio_list[i] = slot.ratio;
        self.amount_list[i] = slot.amount;
        proof {
            let target = old(self).with_slot(index as int, slot);
            assert(self.reward_mint_list =~= target.reward_mint_list);
            assert(self.token_type_list =~= target.token_type_list);
            assert(self.ratio_list =~= target.ratio_list);
            assert(self.amount_list =~= target.amount_list);
        }
    }

    /// Appends a slot behind the slots in use. A wheel with all fifteen slots
    /// in use is left as it is and `CountOverflowAddItem` is returned.
    pub fn add_spinitem(
        &mut self,
        item_mint_list: ItemRewardMints,
        token_type: u8,
        ratio: u32,
        amount: u64,
    ) -> (done: Result<(), SpinError>)
        ensures
            done is Ok <==> old(self).count < 15,
            match old(self).try_added(
                (WheelSlot { rewards: item_mint_list, token_type, ratio, amount }),
            ) {
                Ok(next) => done is Ok && *final(self) == next,
                Err(e) => done == Err::<(), SpinError>(e) && *final(self) == *old(self),
            },
            done is Ok ==> final(self).count == old(self).count + 1,
            old(self).wf() ==> final(self).wf(),
    {
        if self.count >= 15 {
            return Err(SpinError::CountOverflowAddItem);
        }
        let index = self.count;
        self.write_slot(index, WheelSlot { rewards: item_mint_list, token_type, ratio, amount });
        self.count = index + 1;
        Ok(())
    }

    /// Overwrites slot `index`, and counts the slots up to it as in use if
    /// they were not. For an `index` of fifteen or more the wheel is left as
    /// it is and `IndexOverflowSetItem` is returned.
    pub fn set_spinitem(
        &mut self,
        index: u8,
        item_mint_list: ItemRewardMints,
        token_type: u8,
        ratio: u32,
        amount: u64,
    ) -> (done: Result<(), SpinError>)
        ensures
            done is Ok <==> index < 15,
            match old(self).try_set(
                index,
                (WheelSlot { rewards: item_mint_list, token_type, ratio, amount }),
            ) {
                Ok(next) => done is Ok && *final(self) == next,
                Err(e) => done == Err::<(), SpinError>(e) && *final(self) == *old(self),
            },
            done is Ok ==> final(self).count == if old(self).count <= index {
                index + 1
            } else {
                old(self).count as int
            },
            old(self).wf() ==> final(self).wf(),
    {
        if index >= 15 {
            return Err(SpinError::IndexOverflowSetItem);
        }
        self.write_slot(index, WheelSlot { rewards: item_mint_list, token_type, ratio, amount });
        if self.count <= index {
            self.count = index + 1;
        }
        Ok(())
    }

    /// Takes every slot out of use. What the slots hold stays where it is.
    pub fn clear_spinitem(&mut self)
        ensures
            *final(self) == old(self).with_count(0),
    {
        self.count = 0;
    }

    /// Draws a slot at clock value `now` with seed `rand`, and records a
    /// selected slot as the last selected one. A draw that matches no slot
    /// changes nothing.
    pub fn get_spinresult_at(&mut self, now: i64, rand: u32) -> (outcome: DrawOutcome)
        requires
            clock_in_range(now, rand),
        ensures
            outcome == old(self).drawn(now, rand),
            *final(self) == old(self).after_draw(outcome),
            outcome matches DrawOutcome::Selected(slot) ==> slot < 15,
            old(self).wf() ==> final(self).wf(),
    {
        let point = scaled_draw(now, rand);
        let outcome = draw_slot(&self.ratio_list, point);
        match outcome {
            DrawOutcome::Selected(slot) => {
                self.last_spinindex = slot;
            },
            DrawOutcome::NoSlotMatched => {},
        }
        outcome
    }

    /// Reads the clock and draws a slot with seed `rand`. The outcome is that
    /// of `get_spinresult_at` for the clock value that was read. Where no
    /// clock value could be had, or the draw cannot take it, nothing is drawn
    /// and the wheel stays as it is.
    pub fn get_spinresult(&mut self, rand: u32) -> (outcome: Option<DrawOutcome>)
        ensures
            match outcome {
                Some(o) => exists|now: i64|
                    clock_in_range(now, rand) && o == #[trigger] old(self).drawn(now, rand)
                        && *final(self) == old(self).after_draw(o),
                None => *final(self) == *old(self),
            },
            old(self).wf() ==> final(self).wf(),
    {
        match read_clock_for(rand) {
            Some(now) => Some(self.get_spinresult_at(now, rand)),
            None => None,
        }
    }
}

impl Default for SpinItemList {
    fn default() -> (wheel: SpinItemList)
        ensures
            wheel == SpinItemList::empty(),
            wheel.wf(),
    {
        SpinItemList {
            reward_mint_list: [ItemRewardMints::default();15],
            token_type_list: [0;15],
            ratio_list: [0;15],
            amount_list: [0;15],
            last_spinindex: 0,
            count: 0,
        }
    }
}

/// Overwriting a slot changes that slot and no other.
pub proof fn lemma_with_slot(wheel: SpinItemList, index: int, slot: WheelSlot)
    requires
        0 <= index < 15,
    ensures
        wheel.with_slot(index, slot).slot(index) == slot,
        forall|other: int|
            0 <= other < 15 && other != index ==> #[trigger] wheel.with_slot(index, slot).slot(
                other,
            ) == wheel.slot(other),
        wheel.with_slot(index, slot).count == wheel.count,
        wheel.with_slot(index, slot).last_spinindex == wheel.last_spinindex,
        wheel.with_slot(index, slot).ratio_list@ == wheel.ratio_list@.update(index, slot.ratio),
{
    broadcast use vstd::array::group_array_axioms;

}

/// Writing a slot at an index below fifteen always succeeds: the slot stands
/// at that index, the other slots are as they were, and the number of slots
/// in use is the larger of what it was and the index plus one. Writing at an
/// index of fifteen or more is refused with `IndexOverflowSetItem`.
pub proof fn lemma_set_covers_index(wheel: SpinItemList, index: u8, slot: WheelSlot)
    ensures
        index >= 15 ==> wheel.try_set(index, slot) == Err::<SpinItemList, SpinError>(
            SpinError::IndexOverflowSetItem,
        ),
        index < 15 ==> wheel.try_set(index, slot) is Ok,
        index < 15 && wheel.count <= index ==> wheel.try_set(index, slot)->Ok_0.count == index + 1,
        index < 15 && wheel.count > index ==> wheel.try_set(index, slot)->Ok_0.count == wheel.count,
        index < 15 ==> wheel.try_set(index, slot)->Ok_0.slot(index as int) == slot,
        index < 15 ==> wheel.try_set(index, slot)->Ok_0.last_spinindex == wheel.last_spinindex,
        forall|other: int|
            index < 15 && 0 <= other < 15 && other != index ==> #[trigger] wheel.try_set(
                index,
                slot,
            )->Ok_0.slot(other) == wheel.slot(other),
{
    if index < 15 {
        lemma_with_slot(wheel, index as int, slot);
        let written = wheel.with_slot(index as int, slot);
        let next = wheel.try_set(index, slot)->Ok_0;
        assert forall|other: int| 0 <= other < 15 && other != index implies #[trigger] next.slot(
            other,
        ) == wheel.slot(other) by {
            assert(written.slot(other) == wheel.slot(other));
        }
    }
}

/// The wheel after each of `slots` was appended in turn. A slot that the
/// wheel has no room for is passed over.
pub open spec fn after_adds(wheel: SpinItemList, slots: Seq<WheelSlot>) -> SpinItemList
    decreases slots.len(),
{
    if slots.len() == 0 {
        wheel
    } else {
        let before = after_adds(wheel, slots.drop_last());
        match before.try_added(slots.last()) {
            Ok(next) => next,
            Err(_) => before,
        }
    }
}

/// Appending slots that all fit raises the number of slots in use by their number.
pub proof fn lemma_adds_are_counted(wheel: SpinItemList, slots: Seq<WheelSlot>)
    requires
        wheel.count + slots.len() <= 15,
    ensures
        after_adds(wheel, slots).count == wheel.count + slots.len(),
        after_adds(wheel, slots).last_spinindex == wheel.last_spinindex,
    decreases slots.len(),
{
    if slots.len() > 0 {
        lemma_adds_are_counted(wheel, slots.drop_last());
    }
}

/// A wheel with `k` slots in use takes `15 - k` more: each of these appends
/// succeeds, and the last of them brings the number of slots in use to
/// fifteen. One more append is refused with `CountOverflowAddItem` and leaves
/// the wheel as it is.
pub proof fn lemma_wheel_fills_to_capacity(
    wheel: SpinItemList,
    slots: Seq<WheelSlot>,
    extra: WheelSlot,
)
    requires
        wheel.count <= 15,
        slots.len() == 15 - wheel.count,
    ensures
        forall|j: int|
            0 <= j < slots.len() ==> (#[trigger] after_adds(wheel, slots.take(j))).try_added(
                slots[j],
            ) is Ok,
        after_adds(wheel, slots).count == 15,
        after_adds(wheel, slots).try_added(extra) == Err::<SpinItemList, SpinError>(
            SpinError::CountOverflowAddItem,
        ),
        after_adds(wheel, slots.push(extra)) == after_adds(wheel, slots),
{
    assert forall|j: int| 0 <= j < slots.len() implies (#[trigger] after_adds(
        wheel,
        slots.take(j),
    )).try_added(slots[j]) is Ok by {
        lemma_adds_are_counted(wheel, slots.take(j));
    }
    lemma_adds_are_counted(wheel, slots);
    assert(slots.push(extra).drop_last() =~= slots);
}

/// A draw is a function of the clock value, the seed and the fifteen weights,
/// and of nothing else: two wheels with the same weights draw the same slot.
/// A draw changes no weight, so that drawing again, at the same clock value
/// and with the same seed, on the wheel as the first draw left it, selects
/// the same slot and leaves the same slot recorded.
pub proof fn lemma_draw_is_repeatable(wheel: SpinItemList, other: SpinItemList, now: i64, seed: u32)
    ensures
        other.ratio_list == wheel.ratio_list ==> other.drawn(now, seed) == wheel.drawn(now, seed),
        wheel.after_draw(wheel.drawn(now, seed)).ratio_list == wheel.ratio_list,
        wheel.after_draw(wheel.drawn(now, seed)).drawn(now, seed) == wheel.drawn(now, seed),
        wheel.after_draw(wheel.drawn(now, seed)).after_draw(wheel.drawn(now, seed))
            == wheel.after_draw(wheel.drawn(now, seed)),
{
}

/// A draw always selects a slot on a wheel whose fifteen weights sum to more
/// than 99000, the largest point a draw can land on.
pub proof fn lemma_heavy_wheel_always_selects(wheel: SpinItemList, now: i64, seed: u32)
    requires
        ratio_prefix(wheel.ratio_list@, 15) > 99000,
    ensures
        wheel.drawn(now, seed) matches DrawOutcome::Selected(slot) && slot < 15 && slot_covers(
            wheel.ratio_list@,
            slot as int,
            scaled_value(now, seed),
        ),
{
    let point = scaled_value(now, seed);
    lemma_scaled_value_bounds(now, seed);
    lemma_point_below_total_is_covered(wheel.ratio_list@, 15, point);
    let slot = choose|slot: int| 0 <= slot < 15 && slot_covers(wheel.ratio_list@, slot, point);
    lemma_covering_slot_is_drawn(wheel.ratio_list@, slot, point);
}

/// On a wheel whose fifteen weights sum to exactly 100000, every draw
/// selects a slot, whatever the clock value and the seed.
pub proof fn lemma_full_wheel_always_selects(wheel: SpinItemList, now: i64, seed: u32)
    requires
        ratio_prefix(wheel.ratio_list@, 15) == 100000,
    ensures
        wheel.drawn(now, seed) is Selected,
        0 <= scaled_value(now, seed) <= 99000,
{
    lemma_heavy_wheel_always_selects(wheel, now, seed);
    lemma_scaled_value_bounds(now, seed);
}

/// On a wheel whose first slot has a weight of more than 99000, every draw
/// selects the first slot.
pub proof fn lemma_heavy_first_slot_always_wins(wheel: SpinItemList, now: i64, seed: u32)
    requires
        wheel.ratio_list[0] > 99000,
    ensures
        wheel.drawn(now, seed) == DrawOutcome::Selected(0),
        wheel.after_draw(wheel.drawn(now, seed)).last_spinindex == 0,
{
    let point = scaled_value(now, seed);
    lemma_scaled_value_bounds(now, seed);
    assert(ratio_prefix(wheel.ratio_list@, 1) == ratio_prefix(wheel.ratio_list@, 0)
        + wheel.ratio_list@[0]);
    assert(slot_covers(wheel.ratio_list@, 0, point));
    lemma_covering_slot_is_drawn(wheel.ratio_list@, 0, point);
}

} // verus!

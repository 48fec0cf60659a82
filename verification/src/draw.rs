//! The weighted draw: from a clock value and a seed to a point on the scale of
//! weights, and from that point to the slot whose range of weights covers it.
//!
//! The point is the product of the clock value and the caller's seed, reduced
//! modulo 101. It is no secret and no chance: whoever knows the clock value
//! can pick the seed that lands on a given slot. Nothing here should be taken
//! for a fair or unpredictable source of randomness.

use vstd::prelude::*;

verus! {

/// What one draw on the wheel gave.
#[derive(Clone, Copy, Debug, PartialEq, Eq, Structural)]
pub enum DrawOutcome {
    /// The slot whose range of weights covers the drawn point.
    Selected(u8),
    /// No slot's range covers the drawn point.
    NoSlotMatched,
}

/// The largest point a draw can land on.
pub const MAX_SCALED_VALUE: u32 = 99000;

/// The clock values a draw accepts with a given seed: the product of the two
/// is not negative and fits in a signed 64-bit integer.
pub open spec fn clock_in_range(now: i64, seed: u32) -> bool {
    0 <= now * seed <= i64::MAX
}

/// The product of clock and seed, reduced modulo 101, with 100 lowered to 99.
pub open spec fn draw_residue(now: i64, seed: u32) -> int {
    let r = (now * seed) % 101;
    if r == 100 {
        99
    } else {
        r
    }
}

/// The point on the scale of weights that a draw lands on.
pub open spec fn scaled_value(now: i64, seed: u32) -> int {
    draw_residue(now, seed) * 1000
}

/// The sum of the first `n` weights.
pub open spec fn ratio_prefix(ratios: Seq<u32>, n: int) -> int
    decreases n,
{
    if n <= 0 {
        0
    } else {
        ratio_prefix(ratios, n - 1) + ratios[n - 1]
    }
}

/// Whether `point` falls in the range of `slot`: at or after the sum of the
/// weights before it, and before that sum plus its own weight.
pub open spec fn slot_covers(ratios: Seq<u32>, slot: int, point: int) -> bool {
    &&& 0 <= slot < ratios.len()
    &&& ratio_prefix(ratios, slot) <= point < ratio_prefix(ratios, slot + 1)
}

/// The outcome of a draw that lands on `point`: the slot that covers it, if
/// one does. At most one does (`lemma_covering_slot_is_unique`).
pub open spec fn draw_outcome(ratios: Seq<u32>, point: int) -> DrawOutcome {
    if exists|slot: int| slot_covers(ratios, slot, point) {
        DrawOutcome::Selected((choose|slot: int| slot_covers(ratios, slot, point)) as u8)
    } else {
        DrawOutcome::NoSlotMatched
    }
}

/// The sums of weights grow with the number of weights summed.
pub proof fn lemma_ratio_prefix_grows(ratios: Seq<u32>, i: int, j: int)
    requires
        0 <= i <= j,
    ensures
        0 <= ratio_prefix(ratios, i) <= ratio_prefix(ratios, j),
    decreases j,
{
    if j > 0 {
        if i < j {
            lemma_ratio_prefix_grows(ratios, i, j - 1);
        } else {
            lemma_ratio_prefix_grows(ratios, i - 1, j - 1);
        }
    }
}

/// The sum of `n` weights is at most `n` times the largest 32-bit value.
pub proof fn lemma_ratio_prefix_bound(ratios: Seq<u32>, n: int)
    requires
        0 <= n,
    ensures
        ratio_prefix(ratios, n) <= n * 0xffff_ffff,
    decreases n,
{
    if n > 0 {
        lemma_ratio_prefix_bound(ratios, n - 1);
    }
}

/// The ranges of two slots do not overlap: a point is covered by one slot at most.
pub proof fn lemma_covering_slot_is_unique(ratios: Seq<u32>, a: int, b: int, point: int)
    requires
        slot_covers(ratios, a, point),
        slot_covers(ratios, b, point),
    ensures
        a == b,
{
    if a < b {
        lemma_ratio_prefix_grows(ratios, a + 1, b);
    } else if b < a {
        lemma_ratio_prefix_grows(ratios, b + 1, a);
    }
}

/// A slot that covers the point is the outcome of the draw.
pub proof fn lemma_covering_slot_is_drawn(ratios: Seq<u32>, slot: int, point: int)
    requires
        slot_covers(ratios, slot, point),
        ratios.len() <= 256,
    ensures
        draw_outcome(ratios, point) == DrawOutcome::Selected(slot as u8),
{
    let chosen = choose|s: int| slot_covers(ratios, s, point);
    lemma_covering_slot_is_unique(ratios, slot, chosen, point);
}

/// A point from zero up to, but not including, the sum of all weights is
/// covered by some slot.
pub proof fn lemma_point_below_total_is_covered(ratios: Seq<u32>, n: int, point: int)
    requires
        0 <= n <= ratios.len(),
        0 <= point < ratio_prefix(ratios, n),
    ensures
        exists|slot: int| 0 <= slot < n && slot_covers(ratios, slot, point),
    decreases n,
{
    if ratio_prefix(ratios, n - 1) <= point {
        assert(slot_covers(ratios, n - 1, point));
    } else {
        lemma_point_below_total_is_covered(ratios, n - 1, point);
    }
}

/// A point at or after the sum of all weights, or before zero, is covered by no slot.
pub proof fn lemma_point_outside_total_is_uncovered(ratios: Seq<u32>, point: int)
    requires
        point < 0 || ratio_prefix(ratios, ratios.len() as int) <= point,
    ensures
        draw_outcome(ratios, point) == DrawOutcome::NoSlotMatched,
{
    assert forall|slot: int| !slot_covers(ratios, slot, point) by {
        if 0 <= slot < ratios.len() {
            lemma_ratio_prefix_grows(ratios, 0, slot);
            lemma_ratio_prefix_grows(ratios, slot + 1, ratios.len() as int);
        }
    }
}

/// The residue of a draw lies between 0 and 99, and the point it scales to
/// between 0 and 99000, whatever the clock and the seed.
pub proof fn lemma_scaled_value_bounds(now: i64, seed: u32)
    ensures
        0 <= draw_residue(now, seed) <= 99,
        0 <= scaled_value(now, seed) <= 99000,
        scaled_value(now, seed) % 1000 == 0,
{
}

/// The point a draw lands on, computed from the clock and the seed.
pub fn scaled_draw(now: i64, seed: u32) -> (point: u32)
    requires
        clock_in_range(now, seed),
    ensures
        point == scaled_value(now, seed),
        point <= MAX_SCALED_VALUE,
{
    let combined: i64 = now * (seed as i64);
    let mut r: u32 = (combined % 101) as u32;
    if r == 100 {
        r = 99;
    }
    r * 1000
}

/// Walks the fifteen weights in order, summing them, and returns the first
/// slot whose range covers `point`.
pub fn draw_slot(ratios: &[u32; 15], point: u32) -> (outcome: DrawOutcome)
    ensures
        outcome == draw_outcome(ratios@, point as int),
        outcome matches DrawOutcome::Selected(slot) ==> slot < 15 && slot_covers(
            ratios@,
            slot as int,
            point as int,
        ),
        outcome is NoSlotMatched <==> ratio_prefix(ratios@, 15) <= point,
{
    let mut start: u64 = 0;
    let mut pos: usize = 0;
    while pos < 15
        invariant
            pos <= 15,
            start == ratio_prefix(ratios@, pos as int),
            start <= point,
        decreases 15 - pos,
    {
        proof {
            lemma_ratio_prefix_bound(ratios@, pos as int);
        }
        let end: u64 = start + ratios[pos] as u64;
        if (point as u64) < end {
            proof {
                assert(slot_covers(ratios@, pos as int, point as int));
                lemma_covering_slot_is_drawn(ratios@, pos as int, point as int);
                lemma_ratio_prefix_grows(ratios@, pos as int + 1, 15);
            }
            return DrawOutcome::Selected(pos as u8);
        }
        start = end;
        pos += 1;
    }
    proof {
        lemma_point_outside_total_is_uncovered(ratios@, point as int);
    }
    DrawOutcome::NoSlotMatched
}

} // verus!

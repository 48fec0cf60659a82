use spin_wheel::clock::accepts_clock;
use spin_wheel::draw::{draw_slot, scaled_draw, MAX_SCALED_VALUE};
use spin_wheel::DrawOutcome;

fn weights(head: &[u32]) -> [u32; 15] {
    let mut all = [0u32; 15];
    for (i, w) in head.iter().enumerate() {
        all[i] = *w;
    }
    all
}

#[test]
fn scaled_draw_reduces_the_product_modulo_101() {
    // 1000 * 7 = 7000 = 69 * 101 + 31
    assert_eq!(scaled_draw(1000, 7), 31_000);
    // 1_700_000_000 * 12345 = 20_986_500_000_000 = 101 * 207_787_128_712 + 88
    assert_eq!(scaled_draw(1_700_000_000, 12_345), 88_000);
}

#[test]
fn scaled_draw_of_a_zero_product_is_zero() {
    assert_eq!(scaled_draw(0, 99), 0);
    assert_eq!(scaled_draw(1_700_000_000, 0), 0);
}

#[test]
fn scaled_draw_lowers_a_residue_of_100_to_99() {
    assert_eq!(scaled_draw(100, 1), 99_000);
    assert_eq!(scaled_draw(201, 1), 99_000);
    assert_eq!(scaled_draw(99, 1), 99_000);
    assert_eq!(scaled_draw(101, 1), 0);
}

#[test]
fn scaled_draw_stays_at_or_below_99000() {
    let mut seed: u32 = 0;
    while seed < 5000 {
        let point = scaled_draw(1_700_000_123, seed);
        assert!(point <= MAX_SCALED_VALUE);
        assert_eq!(point % 1000, 0);
        seed += 1;
    }
    assert_eq!(MAX_SCALED_VALUE, 99_000);
}

#[test]
fn scaled_draw_depends_on_the_seed_at_a_fixed_clock() {
    let now = 1_700_000_000;
    assert_eq!(scaled_draw(now, 1), 17_000);
    assert_eq!(scaled_draw(now, 2), 34_000);
    assert_ne!(scaled_draw(now, 1), scaled_draw(now, 2));
}

#[test]
fn accepts_clock_wants_a_product_that_fits_and_is_not_negative() {
    assert!(accepts_clock(0, 0));
    assert!(accepts_clock(1_700_000_000, u32::MAX));
    assert!(accepts_clock(-5, 0));
    assert!(!accepts_clock(-5, 1));
    assert!(!accepts_clock(i64::MIN, 1));
    assert!(accepts_clock(i64::MAX, 1));
    assert!(!accepts_clock(i64::MAX, 2));
    assert!(accepts_clock(i64::MAX / 2, 2));
}

#[test]
fn draw_slot_selects_the_slot_whose_range_covers_the_point() {
    let ratios = weights(&[50_000, 30_000, 20_000]);
    assert_eq!(draw_slot(&ratios, 0), DrawOutcome::Selected(0));
    assert_eq!(draw_slot(&ratios, 49_000), DrawOutcome::Selected(0));
    assert_eq!(draw_slot(&ratios, 50_000), DrawOutcome::Selected(1));
    assert_eq!(draw_slot(&ratios, 79_000), DrawOutcome::Selected(1));
    assert_eq!(draw_slot(&ratios, 80_000), DrawOutcome::Selected(2));
    assert_eq!(draw_slot(&ratios, 99_000), DrawOutcome::Selected(2));
}

#[test]
fn draw_slot_passes_over_slots_of_weight_zero() {
    let ratios = weights(&[0, 0, 100_000]);
    assert_eq!(draw_slot(&ratios, 0), DrawOutcome::Selected(2));
    assert_eq!(draw_slot(&ratios, 99_000), DrawOutcome::Selected(2));
}

#[test]
fn draw_slot_reaches_the_last_slot() {
    let mut ratios = [0u32; 15];
    ratios[14] = 100_000;
    assert_eq!(draw_slot(&ratios, 42_000), DrawOutcome::Selected(14));
}

#[test]
fn draw_slot_matches_nothing_at_or_after_the_sum_of_weights() {
    let ratios = weights(&[10_000, 20_000]);
    assert_eq!(draw_slot(&ratios, 29_000), DrawOutcome::Selected(1));
    assert_eq!(draw_slot(&ratios, 30_000), DrawOutcome::NoSlotMatched);
    assert_eq!(draw_slot(&ratios, 99_000), DrawOutcome::NoSlotMatched);
    assert_eq!(draw_slot(&[0u32; 15], 0), DrawOutcome::NoSlotMatched);
}

#[test]
fn draw_slot_sums_weights_without_wrapping() {
    let ratios = [u32::MAX; 15];
    assert_eq!(draw_slot(&ratios, 99_000), DrawOutcome::Selected(0));
    let ratios = weights(&[1, u32::MAX, u32::MAX]);
    assert_eq!(draw_slot(&ratios, 0), DrawOutcome::Selected(0));
    assert_eq!(draw_slot(&ratios, 1), DrawOutcome::Selected(1));
    assert_eq!(draw_slot(&ratios, u32::MAX), DrawOutcome::Selected(1));
}

#[test]
fn draw_slot_always_selects_when_weights_sum_to_100000() {
    let ratios = [
        6_000, 7_000, 6_500, 7_500, 6_000, 7_000, 6_500, 7_500, 6_000, 7_000, 6_500, 7_500,
        6_000, 7_000, 6_000,
    ];
    assert_eq!(ratios.iter().sum::<u32>(), 100_000);
    let mut residue: u32 = 0;
    while residue <= 99 {
        match draw_slot(&ratios, residue * 1000) {
            DrawOutcome::Selected(slot) => assert!(slot < 15),
            DrawOutcome::NoSlotMatched => panic!("no slot for residue {}", residue),
        }
        residue += 1;
    }
}

//! The clock of the cluster, which seeds every draw.

use vstd::prelude::*;
use solana_program::sysvar::Sysvar;
use crate::draw::clock_in_range;

verus! {

/// Asks the runtime for the cluster clock with `Clock::get` of
/// `solana_program` and hands back its `unix_timestamp`, or `None` where the
/// runtime gives no clock. The value is whatever the runtime reports: nothing
/// is claimed of it, and two readings may differ.
#[verifier::external_body]
fn unix_timestamp() -> (now: Option<i64>) {
    match solana_program::clock::Clock::get() {
        Ok(clock) => Some(clock.unix_timestamp),
        Err(_) => None,
    }
}

/// Whether a draw accepts the clock value `now` with `seed`.
pub fn accepts_clock(now: i64, seed: u32) -> (ok: bool)
    ensures
        ok == clock_in_range(now, seed),
{
    match now.checked_mul(seed as i64) {
        Some(combined) => combined >= 0,
        None => false,
    }
}

/// Reads the clock and keeps the reading if a draw with `seed` accepts it.
/// `None` stands for a runtime without a clock as well as for a reading that
/// the draw cannot take.
pub fn read_clock_for(seed: u32) -> (now: Option<i64>)
    ensures
        now matches Some(t) ==> clock_in_range(t, seed),
{
    match unix_timestamp() {
        Some(t) => if accepts_clock(t, seed) {
            Some(t)
        } else {
            None
        },
        None => None,
    }
}

} // verus!

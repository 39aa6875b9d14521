use vstd::prelude::*;

use crate::sensor::{SoilMoistureSensor, MAX_READING};

verus! {

/// Smallest drop in moisture between two ticks, in tenths of a percent.
pub const MIN_DROP: u32 = 5;

/// Bound, excluded, of the drop in moisture between two ticks, in tenths of
/// a percent.
pub const MAX_DROP: u32 = 20;

/// Relies on rand's `Rng::gen_range` over `thread_rng()`: a value drawn from
/// `lo..hi`, which it panics on when empty.
#[verifier::external_body]
fn gen_range_u32(lo: u32, hi: u32) -> (r: u32)
    requires
        lo < hi,
    ensures
        lo <= r < hi,
{
    rand::Rng::gen_range(&mut rand::thread_rng(), lo..hi)
}

/// Draws the drop in moisture for the next tick.
pub fn random_drop() -> (r: u32)
    ensures
        MIN_DROP <= r < MAX_DROP,
{
    gen_range_u32(MIN_DROP, MAX_DROP)
}

/// The reading that follows a drop from the current level: the level less the
/// drop, clamped below at zero and above at the largest reading.
pub open spec fn reading_after_drop(moisture: int, drop: int) -> int {
    let d = moisture - drop;
    if d < 0 {
        0
    } else if d > MAX_READING {
        MAX_READING as int
    } else {
        d
    }
}

impl SoilMoistureSensor {
    /// The reading proposed for the next tick when moisture drops by `drop`.
    pub fn next_reading(&self, drop: u32) -> (r: i32)
        ensures
            r as int == reading_after_drop(self.moisture as int, drop as int),
    {
        if self.moisture <= drop as u64 {
            0
        } else {
            let d = self.moisture - drop as u64;
            if d > MAX_READING as u64 {
                MAX_READING as i32
            } else {
                d as i32
            }
        }
    }
}

} // verus!

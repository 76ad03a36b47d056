//! The pause taken before each fetch but the first.
use vstd::prelude::*;

verus! {

/// The pause in milliseconds before a fetch, given how many fetches came
/// before, the fixed and random parts of the configuration, and a random draw:
/// none before the first fetch or when both parts are zero; else the fixed
/// part plus the draw reduced below the random bound, capped at `u64::MAX`.
pub open spec fn pause_spec(item_count: nat, fixed: u64, random: u64, draw: u64) -> Option<u64> {
    if item_count > 0 && (fixed > 0 || random > 0) {
        let extra: int = if random > 0 { (draw % random) as int } else { 0 };
        let total: int = fixed + extra;
        Some(if total > u64::MAX { u64::MAX } else { total as u64 })
    } else {
        None
    }
}

/// Computes [`pause_spec`].
pub fn pause_millis(item_count: usize, fixed: u64, random: u64, draw: u64) -> (r: Option<u64>)
    ensures
        r == pause_spec(item_count as nat, fixed, random, draw),
{
    if item_count > 0 && (fixed > 0 || random > 0) {
        let extra: u64 = if random > 0 { draw % random } else { 0 };
        Some(fixed.saturating_add(extra))
    } else {
        None
    }
}

} // verus!

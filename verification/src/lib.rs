use vstd::prelude::*;

pub mod catalog;
pub mod genres;
pub mod movie;
pub mod ranking;
pub mod recommend;
pub mod text;
pub mod weather;
pub mod topics;
pub mod web;
pub mod weights;

verus! {

/// Adds two counters.
pub fn add(left: u64, right: u64) -> (sum: u64)
    requires
        left + right <= u64::MAX,
    ensures
        sum == left + right,
{
    left + right
}

} // verus!

//! Smoothed latency per symbol: each new sample moves the estimate a quarter
//! of the way towards it.

use crate::table::SymbolTable;
use vstd::prelude::*;

verus! {

/// The smoothed latency, in milliseconds, of each symbol seen so far.
pub type LatencyTable = SymbolTable<u64>;

/// The estimate after `sample`: three parts of the previous estimate and one
/// part of the sample, rounded down. Without a previous estimate the sample
/// stands for it.
pub open spec fn smoothed(previous: Option<u64>, sample: u64) -> int {
    let base: int = match previous {
        Some(p) => p as int,
        None => sample as int,
    };
    (base * 3 + sample) / 4
}

/// The estimate that `table` holds for `symbol`.
pub open spec fn estimate(table: Map<Seq<char>, u64>, symbol: Seq<char>) -> Option<u64> {
    if table.contains_key(symbol) {
        Some(table[symbol])
    } else {
        None
    }
}

/// Takes a latency sample for `symbol` into the table and returns the new
/// estimate.
pub fn calc_latency(prev_latency: &mut LatencyTable, symbol: &str, new_latency: u64) -> (smooth:
    u64)
    requires
        old(prev_latency).wf(),
    ensures
        final(prev_latency).wf(),
        smooth == smoothed(estimate(old(prev_latency)@, symbol@), new_latency),
        final(prev_latency)@ == old(prev_latency)@.insert(symbol@, smooth),
{
    let base: u64 = match prev_latency.get(symbol) {
        Some(p) => p,
        None => new_latency,
    };
    let wide: u128 = (base as u128) * 3 + (new_latency as u128);
    let smooth: u64 = (wide / 4) as u64;
    prev_latency.insert(symbol, smooth);
    smooth
}

/// The delay of an event stamped `event_time` as seen at `local_time`, never
/// below zero. The stamp is divided by a thousand before it is compared.
pub fn latency_sample(local_time: u64, event_time: u64) -> (sample: u64)
    ensures
        sample == if local_time >= event_time / 1000 {
            local_time - event_time / 1000
        } else {
            0
        },
{
    local_time.saturating_sub(event_time / 1000)
}

} // verus!

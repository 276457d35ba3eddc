//! The record of one placed wager.

use vstd::prelude::*;
use crate::identity::Identity;
use crate::range::BetRange;

verus! {

/// One wager: who placed it, on which market, on which range, and how much of
/// the stake entered the pool.
#[derive(Clone, Copy, Debug, PartialEq, Eq)]
pub struct WagerDetail {
    /// The wager's own identity, under which its owner's account lists it.
    pub key: Identity,
    /// The party that placed the wager.
    pub bettor: Identity,
    /// The market the wager was placed on.
    pub bet_state: Identity,
    /// The range the wager backs.
    pub range_status: BetRange,
    /// The amount committed to the pool, after the fee.
    pub bet_value: u64,
}

impl WagerDetail {
    /// The blank record under `key`, as it is before a wager is written into
    /// it: no bettor, no market, no range, no amount.
    pub fn new(key: Identity) -> (wager: WagerDetail)
        ensures
            wager == (WagerDetail {
                key,
                bettor: Identity::zero(),
                bet_state: Identity::zero(),
                range_status: BetRange::NotAvailable,
                bet_value: 0,
            }),
    {
        WagerDetail {
            key,
            bettor: Identity::zeroed(),
            bet_state: Identity::zeroed(),
            range_status: BetRange::NotAvailable,
            bet_value: 0,
        }
    }
}

} // verus!

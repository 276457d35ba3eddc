//! The take rate: how a gross stake is split into the wager that enters the
//! pool and the fee that does not.

use vstd::prelude::*;

verus! {

/// The take rate is `TAKE_RATE_NUMERATOR / TAKE_RATE_DENOMINATOR`, that is 1.02.
pub const TAKE_RATE_NUMERATOR: u64 = 102;

pub const TAKE_RATE_DENOMINATOR: u64 = 100;

/// The wager that a gross stake buys: the stake divided by the take rate,
/// rounded down.
pub open spec fn net_of(gross: u64) -> int {
    (gross * TAKE_RATE_DENOMINATOR) / (TAKE_RATE_NUMERATOR as int)
}

/// The fee kept from a gross stake: what is left of the stake after the wager.
pub open spec fn fee_of(gross: u64) -> int {
    gross - net_of(gross)
}

/// Neither part of a stake is negative, and the fee is zero only for an
/// empty stake.
pub proof fn lemma_split_bounds(gross: u64)
    ensures
        0 <= net_of(gross) <= gross,
        0 <= fee_of(gross) <= gross,
        net_of(gross) + fee_of(gross) == gross,
        fee_of(gross) == 0 <==> gross == 0,
{
}

/// Splits a gross stake into `(wager, fee)`.
pub fn split_wager(gross: u64) -> (parts: (u64, u64))
    ensures
        parts.0 == net_of(gross),
        parts.1 == fee_of(gross),
        parts.0 + parts.1 == gross,
{
    assert(gross * TAKE_RATE_DENOMINATOR == gross * 100) by (nonlinear_arith)
        requires
            TAKE_RATE_DENOMINATOR == 100,
    ;
    let scaled: u128 = (gross as u128) * (TAKE_RATE_DENOMINATOR as u128);
    let quotient: u128 = scaled / (TAKE_RATE_NUMERATOR as u128);
    assert(quotient == (gross * 100) / 102);
    let net: u64 = quotient as u64;
    (net, gross - net)
}

} // verus!

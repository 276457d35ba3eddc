//! Moving funds between two holdings.

use vstd::prelude::*;
use crate::error::ErrorCode;

verus! {

/// Moves `amount` from a holding of `source` to a holding of `destination`
/// and returns the two holdings after the move, source first.
///
/// Refused with `ArithmeticOverflow` when the source holds less than the
/// amount or the destination cannot take it.
pub fn transfer_lamports(source: u64, destination: u64, amount: u64) -> (r: Result<
    (u64, u64),
    ErrorCode,
>)
    ensures
        amount > source || destination + amount > u64::MAX ==> r == Err::<(u64, u64), ErrorCode>(
            ErrorCode::ArithmeticOverflow,
        ),
        amount <= source && destination + amount <= u64::MAX ==> r == Ok::<
            (u64, u64),
            ErrorCode,
        >(((source - amount) as u64, (destination + amount) as u64)),
{
    let source_after = match source.checked_sub(amount) {
        Some(v) => v,
        None => { return Err(ErrorCode::ArithmeticOverflow); },
    };
    let destination_after = match destination.checked_add(amount) {
        Some(v) => v,
        None => { return Err(ErrorCode::ArithmeticOverflow); },
    };
    Ok((source_after, destination_after))
}

} // verus!

//! The closed sets of tags a market is described with: its status and the
//! eight outcome ranges.

use vstd::prelude::*;

verus! {

/// Where a market stands in its life.
#[derive(Clone, Copy, Debug, PartialEq, Eq, Structural)]
pub enum BetStateStatus {
    Open,
    Closed,
    Settled,
}

/// One of the eight outcome buckets, or `NotAvailable` while a market has no
/// decided outcome. A wager always names one of the eight.
#[derive(Clone, Copy, Debug, PartialEq, Eq, Structural)]
pub enum BetRange {
    NotAvailable,
    NegThreeAndUnder,
    NegThreeToNegTwo,
    NegTwoToNegOne,
    NegOneToZero,
    ZeroToPosOne,
    PosOneToPosTwo,
    PosTwoToPosThree,
    PosThreeAndOver,
}

/// How many outcome ranges a market has.
pub const RANGE_COUNT: u8 = 8;

impl BetRange {
    /// The range a selector names: selectors `0..=7` name the eight ranges in
    /// declaration order, every other selector names none.
    pub open spec fn of_selector(selector: u8) -> Option<BetRange> {
        match selector {
            0 => Some(BetRange::NegThreeAndUnder),
            1 => Some(BetRange::NegThreeToNegTwo),
            2 => Some(BetRange::NegTwoToNegOne),
            3 => Some(BetRange::NegOneToZero),
            4 => Some(BetRange::ZeroToPosOne),
            5 => Some(BetRange::PosOneToPosTwo),
            6 => Some(BetRange::PosTwoToPosThree),
            7 => Some(BetRange::PosThreeAndOver),
            _ => None,
        }
    }

    /// Whether this is one of the eight concrete ranges.
    pub open spec fn is_concrete(self) -> bool {
        self != BetRange::NotAvailable
    }

    /// The selector of a concrete range; `NotAvailable` has none.
    pub open spec fn selector_of(self) -> Option<u8> {
        match self {
            BetRange::NotAvailable => None,
            BetRange::NegThreeAndUnder => Some(0),
            BetRange::NegThreeToNegTwo => Some(1),
            BetRange::NegTwoToNegOne => Some(2),
            BetRange::NegOneToZero => Some(3),
            BetRange::ZeroToPosOne => Some(4),
            BetRange::PosOneToPosTwo => Some(5),
            BetRange::PosTwoToPosThree => Some(6),
            BetRange::PosThreeAndOver => Some(7),
        }
    }

    /// Reads a caller-supplied selector; `None` for anything outside `0..=7`.
    pub fn from_selector(selector: u8) -> (range: Option<BetRange>)
        ensures
            range == BetRange::of_selector(selector),
            range is Some <==> selector < RANGE_COUNT,
            range matches Some(r) ==> r.is_concrete() && r.selector_of() == Some(selector),
    {
        match selector {
            0 => Some(BetRange::NegThreeAndUnder),
            1 => Some(BetRange::NegThreeToNegTwo),
            2 => Some(BetRange::NegTwoToNegOne),
            3 => Some(BetRange::NegOneToZero),
            4 => Some(BetRange::ZeroToPosOne),
            5 => Some(BetRange::PosOneToPosTwo),
            6 => Some(BetRange::PosTwoToPosThree),
            7 => Some(BetRange::PosThreeAndOver),
            _ => None,
        }
    }

    /// The selector that names this range, if it is a concrete one.
    pub fn selector(&self) -> (selector: Option<u8>)
        ensures
            selector == self.selector_of(),
            selector is Some <==> self.is_concrete(),
            selector matches Some(s) ==> BetRange::of_selector(s) == Some(*self),
    {
        match self {
            BetRange::NotAvailable => None,
            BetRange::NegThreeAndUnder => Some(0),
            BetRange::NegThreeToNegTwo => Some(1),
            BetRange::NegTwoToNegOne => Some(2),
            BetRange::NegOneToZero => Some(3),
            BetRange::ZeroToPosOne => Some(4),
            BetRange::PosOneToPosTwo => Some(5),
            BetRange::PosTwoToPosThree => Some(6),
            BetRange::PosThreeAndOver => Some(7),
        }
    }
}

} // verus!

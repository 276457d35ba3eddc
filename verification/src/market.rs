//! A bet market: its status, its decided outcome, and the pools that hold
//! the wagers committed to it.

use vstd::prelude::*;
use crate::error::ErrorCode;
use crate::identity::Identity;
use crate::range::{BetRange, BetStateStatus};

verus! {

/// One market. `running_total_pool` is the aggregate pool: the funds still
/// held for the market's wagers. `static_total_pool` is the sum of the eight
/// range pools; the two agree until winnings are paid out, which shrink the
/// aggregate only.
#[derive(Clone, Debug, PartialEq, Eq)]
pub struct BetState {
    /// The market's own identity, which its wagers refer to.
    pub key: Identity,
    pub symbol: String,
    pub creator: Identity,
    pub running_total_pool: u64,
    pub static_total_pool: u64,
    pub neg_three_and_under_pool: u64,
    pub neg_three_to_neg_two_pool: u64,
    pub neg_two_to_neg_one_pool: u64,
    pub neg_one_to_zero_pool: u64,
    pub zero_to_pos_one_pool: u64,
    pub pos_one_to_pos_two_pool: u64,
    pub pos_two_to_pos_three_pool: u64,
    pub pos_three_and_over_pool: u64,
    pub status: BetStateStatus,
    pub start_time: u64,
    pub end_time: u64,
    pub snapshot_price: u128,
    pub winning_bet_range: BetRange,
}

impl BetState {
    /// The blank record under `key`, as it is before a market is written
    /// into it: no symbol, no creator, every counter zero, open, undecided.
    pub fn new(key: Identity) -> (market: BetState)
        ensures
            market.key == key,
            market.symbol@ == Seq::<char>::empty(),
            market.creator == Identity::zero(),
            market.running_total_pool == 0,
            market.static_total_pool == 0,
            market.range_pool_sum() == 0,
            market.status == BetStateStatus::Open,
            market.start_time == 0,
            market.end_time == 0,
            market.snapshot_price == 0,
            market.winning_bet_range == BetRange::NotAvailable,
            market.wf(),
    {
        BetState {
            key,
            symbol: String::new(),
            creator: Identity::zeroed(),
            running_total_pool: 0,
            static_total_pool: 0,
            neg_three_and_under_pool: 0,
            neg_three_to_neg_two_pool: 0,
            neg_two_to_neg_one_pool: 0,
            neg_one_to_zero_pool: 0,
            zero_to_pos_one_pool: 0,
            pos_one_to_pos_two_pool: 0,
            pos_two_to_pos_three_pool: 0,
            pos_three_and_over_pool: 0,
            status: BetStateStatus::Open,
            start_time: 0,
            end_time: 0,
            snapshot_price: 0,
            winning_bet_range: BetRange::NotAvailable,
        }
    }

    /// What the pool of a range holds; `NotAvailable` has no pool.
    pub open spec fn range_pool(self, range: BetRange) -> int {
        match range {
            BetRange::NotAvailable => 0,
            BetRange::NegThreeAndUnder => self.neg_three_and_under_pool as int,
            BetRange::NegThreeToNegTwo => self.neg_three_to_neg_two_pool as int,
            BetRange::NegTwoToNegOne => self.neg_two_to_neg_one_pool as int,
            BetRange::NegOneToZero => self.neg_one_to_zero_pool as int,
            BetRange::ZeroToPosOne => self.zero_to_pos_one_pool as int,
            BetRange::PosOneToPosTwo => self.pos_one_to_pos_two_pool as int,
            BetRange::PosTwoToPosThree => self.pos_two_to_pos_three_pool as int,
            BetRange::PosThreeAndOver => self.pos_three_and_over_pool as int,
        }
    }

    /// The market with the pool of one range replaced; `NotAvailable` has no
    /// pool to replace.
    pub open spec fn with_range_pool(self, range: BetRange, value: u64) -> BetState {
        match range {
            BetRange::NotAvailable => self,
            BetRange::NegThreeAndUnder => BetState { neg_three_and_under_pool: value, ..self },
            BetRange::NegThreeToNegTwo => BetState { neg_three_to_neg_two_pool: value, ..self },
            BetRange::NegTwoToNegOne => BetState { neg_two_to_neg_one_pool: value, ..self },
            BetRange::NegOneToZero => BetState { neg_one_to_zero_pool: value, ..self },
            BetRange::ZeroToPosOne => BetState { zero_to_pos_one_pool: value, ..self },
            BetRange::PosOneToPosTwo => BetState { pos_one_to_pos_two_pool: value, ..self },
            BetRange::PosTwoToPosThree => BetState { pos_two_to_pos_three_pool: value, ..self },
            BetRange::PosThreeAndOver => BetState { pos_three_and_over_pool: value, ..self },
        }
    }

    /// The sum of the eight range pools.
    pub open spec fn range_pool_sum(self) -> int {
        self.neg_three_and_under_pool + self.neg_three_to_neg_two_pool
            + self.neg_two_to_neg_one_pool + self.neg_one_to_zero_pool + self.zero_to_pos_one_pool
            + self.pos_one_to_pos_two_pool + self.pos_two_to_pos_three_pool
            + self.pos_three_and_over_pool
    }

    /// Whether no outcome has been decided yet.
    pub open spec fn undecided(self) -> bool {
        self.winning_bet_range == BetRange::NotAvailable
    }

    /// The invariant of a market.
    ///
    /// The range pools add up to `static_total_pool`, and the aggregate pool
    /// never exceeds it. While no outcome is decided the aggregate pool equals
    /// the sum of the range pools. An open market is undecided, and a settled
    /// one is decided and holds nothing.
    pub open spec fn wf(self) -> bool {
        &&& self.static_total_pool == self.range_pool_sum()
        &&& self.running_total_pool <= self.static_total_pool
        &&& self.undecided() ==> self.running_total_pool == self.range_pool_sum()
        &&& self.status == BetStateStatus::Open ==> self.undecided()
        &&& self.status == BetStateStatus::Settled ==> !self.undecided()
            && self.running_total_pool == 0
    }

    /// Why wagers may not move in or out of the pools right now, if they may
    /// not: the market must be open and undecided.
    pub open spec fn wagering_refusal(self) -> Option<ErrorCode> {
        if self.status != BetStateStatus::Open {
            Some(ErrorCode::BetIsClosedOrSettled)
        } else if !self.undecided() {
            Some(ErrorCode::BetAlreadyDecided)
        } else {
            None
        }
    }

    /// Why a market of which an outcome has to be known refuses, if it does:
    /// it must be closed and decided.
    pub open spec fn decided_refusal(self) -> Option<ErrorCode> {
        if self.status != BetStateStatus::Closed {
            Some(ErrorCode::BetStillOpen)
        } else if self.undecided() {
            Some(ErrorCode::BetStillUndecided)
        } else {
            None
        }
    }

    /// Why `amount` cannot be added to `range`, if it cannot.
    pub open spec fn add_refusal(self, range: BetRange, amount: u64) -> Option<ErrorCode> {
        if self.wagering_refusal() is Some {
            self.wagering_refusal()
        } else if !range.is_concrete() {
            Some(ErrorCode::InvalidBetRange)
        } else if self.static_total_pool + amount > u64::MAX || self.running_total_pool + amount
            > u64::MAX || self.range_pool(range) + amount > u64::MAX {
            Some(ErrorCode::ArithmeticOverflow)
        } else {
            None
        }
    }

    /// The market after `amount` entered the pool of `range`.
    pub open spec fn added(self, range: BetRange, amount: u64) -> BetState {
        BetState {
            static_total_pool: (self.static_total_pool + amount) as u64,
            running_total_pool: (self.running_total_pool + amount) as u64,
            ..self
        }.with_range_pool(range, (self.range_pool(range) + amount) as u64)
    }

    /// Why `amount` cannot be taken out of `range`, if it cannot.
    pub open spec fn remove_refusal(self, range: BetRange, amount: u64) -> Option<ErrorCode> {
        if self.wagering_refusal() is Some {
            self.wagering_refusal()
        } else if !range.is_concrete() {
            Some(ErrorCode::InvalidBetRange)
        } else if self.static_total_pool < amount || self.running_total_pool < amount
            || self.range_pool(range) < amount {
            Some(ErrorCode::UnderflowDetected)
        } else {
            None
        }
    }

    /// The market after `amount` left the pool of `range`.
    pub open spec fn removed(self, range: BetRange, amount: u64) -> BetState {
        BetState {
            static_total_pool: (self.static_total_pool - amount) as u64,
            running_total_pool: (self.running_total_pool - amount) as u64,
            ..self
        }.with_range_pool(range, (self.range_pool(range) - amount) as u64)
    }

    /// The market after `amount` was paid out of the aggregate pool. The
    /// range pools stay as they are.
    pub open spec fn paid_out(self, amount: u64) -> BetState {
        BetState { running_total_pool: (self.running_total_pool - amount) as u64, ..self }
    }

    /// Reads the pool of a range; `NotAvailable` reads as zero.
    pub fn pool_of(&self, range: BetRange) -> (pool: u64)
        ensures
            pool == self.range_pool(range),
    {
        match range {
            BetRange::NotAvailable => 0,
            BetRange::NegThreeAndUnder => self.neg_three_and_under_pool,
            BetRange::NegThreeToNegTwo => self.neg_three_to_neg_two_pool,
            BetRange::NegTwoToNegOne => self.neg_two_to_neg_one_pool,
            BetRange::NegOneToZero => self.neg_one_to_zero_pool,
            BetRange::ZeroToPosOne => self.zero_to_pos_one_pool,
            BetRange::PosOneToPosTwo => self.pos_one_to_pos_two_pool,
            BetRange::PosTwoToPosThree => self.pos_two_to_pos_three_pool,
            BetRange::PosThreeAndOver => self.pos_three_and_over_pool,
        }
    }

    fn set_pool(&mut self, range: BetRange, value: u64)
        ensures
            *final(self) == old(self).with_range_pool(range, value),
    {
        match range {
            BetRange::NotAvailable => {},
            BetRange::NegThreeAndUnder => { self.neg_three_and_under_pool = value; },
            BetRange::NegThreeToNegTwo => { self.neg_three_to_neg_two_pool = value; },
            BetRange::NegTwoToNegOne => { self.neg_two_to_neg_one_pool = value; },
            BetRange::NegOneToZero => { self.neg_one_to_zero_pool = value; },
            BetRange::ZeroToPosOne => { self.zero_to_pos_one_pool = value; },
            BetRange::PosOneToPosTwo => { self.pos_one_to_pos_two_pool = value; },
            BetRange::PosTwoToPosThree => { self.pos_two_to_pos_three_pool = value; },
            BetRange::PosThreeAndOver => { self.pos_three_and_over_pool = value; },
        }
    }

    /// Tells whether wagers may move in or out of the pools: `Ok` while the
    /// market is open and undecided.
    pub fn check_wagering(&self) -> (r: Result<(), ErrorCode>)
        ensures
            match self.wagering_refusal() {
                Some(e) => r == Err::<(), ErrorCode>(e),
                None => r is Ok,
            },
    {
        if self.status != BetStateStatus::Open {
            Err(ErrorCode::BetIsClosedOrSettled)
        } else if self.winning_bet_range != BetRange::NotAvailable {
            Err(ErrorCode::BetAlreadyDecided)
        } else {
            Ok(())
        }
    }

    /// Tells whether the market is closed with a decided outcome.
    pub fn check_decided(&self) -> (r: Result<(), ErrorCode>)
        ensures
            match self.decided_refusal() {
                Some(e) => r == Err::<(), ErrorCode>(e),
                None => r is Ok,
            },
    {
        if self.status != BetStateStatus::Closed {
            Err(ErrorCode::BetStillOpen)
        } else if self.winning_bet_range == BetRange::NotAvailable {
            Err(ErrorCode::BetStillUndecided)
        } else {
            Ok(())
        }
    }

    /// Adds `amount` to the pool of `range` and to both totals.
    ///
    /// Refused, with the market unchanged, unless the market is open and
    /// undecided, `range` is one of the eight, and no counter overflows.
    pub fn add_to_range(&mut self, range: BetRange, amount: u64) -> (r: Result<(), ErrorCode>)
        ensures
            match old(self).add_refusal(range, amount) {
                Some(e) => r == Err::<(), ErrorCode>(e) && *final(self) == *old(self),
                None => r is Ok && *final(self) == old(self).added(range, amount),
            },
            old(self).wf() ==> final(self).wf(),
    {
        self.check_wagering()?;
        if range == BetRange::NotAvailable {
            return Err(ErrorCode::InvalidBetRange);
        }
        let static_total = match self.static_total_pool.checked_add(amount) {
            Some(v) => v,
            None => { return Err(ErrorCode::ArithmeticOverflow); },
        };
        let running_total = match self.running_total_pool.checked_add(amount) {
            Some(v) => v,
            None => { return Err(ErrorCode::ArithmeticOverflow); },
        };
        let pool = match self.pool_of(range).checked_add(amount) {
            Some(v) => v,
            None => { return Err(ErrorCode::ArithmeticOverflow); },
        };
        self.static_total_pool = static_total;
        self.running_total_pool = running_total;
        self.set_pool(range, pool);
        Ok(())
    }

    /// Takes `amount` out of the pool of `range` and out of both totals.
    ///
    /// Refused, with the market unchanged, unless the market is open and
    /// undecided, `range` is one of the eight, and every counter holds at
    /// least `amount`.
    pub fn remove_from_range(&mut self, range: BetRange, amount: u64) -> (r: Result<
        (),
        ErrorCode,
    >)
        ensures
            match old(self).remove_refusal(range, amount) {
                Some(e) => r == Err::<(), ErrorCode>(e) && *final(self) == *old(self),
                None => r is Ok && *final(self) == old(self).removed(range, amount),
            },
            old(self).wf() ==> final(self).wf(),
    {
        self.check_wagering()?;
        if range == BetRange::NotAvailable {
            return Err(ErrorCode::InvalidBetRange);
        }
        let static_total = match self.static_total_pool.checked_sub(amount) {
            Some(v) => v,
            None => { return Err(ErrorCode::UnderflowDetected); },
        };
        let running_total = match self.running_total_pool.checked_sub(amount) {
            Some(v) => v,
            None => { return Err(ErrorCode::UnderflowDetected); },
        };
        let pool = match self.pool_of(range).checked_sub(amount) {
            Some(v) => v,
            None => { return Err(ErrorCode::UnderflowDetected); },
        };
        self.static_total_pool = static_total;
        self.running_total_pool = running_total;
        self.set_pool(range, pool);
        Ok(())
    }
}

/// Pays `winnings_amount` out of the market's aggregate pool, leaving the
/// range pools as they are.
///
/// Refused with `UnderflowDetected`, and the market unchanged, when the
/// aggregate pool holds less than the amount.
pub fn transfer_winnings(bet_state: &mut BetState, winnings_amount: u64) -> (r: Result<
    (),
    ErrorCode,
>)
    ensures
        old(bet_state).running_total_pool < winnings_amount ==> r == Err::<(), ErrorCode>(
            ErrorCode::UnderflowDetected,
        ) && *final(bet_state) == *old(bet_state),
        old(bet_state).running_total_pool >= winnings_amount ==> r is Ok && *final(bet_state)
            == old(bet_state).paid_out(winnings_amount),
        old(bet_state).wf() && !old(bet_state).undecided() ==> final(bet_state).wf(),
{
    match bet_state.running_total_pool.checked_sub(winnings_amount) {
        Some(rest) => {
            bet_state.running_total_pool = rest;
            Ok(())
        },
        None => Err(ErrorCode::UnderflowDetected),
    }
}

} // verus!

//! The life of a market: opened, closed to wagers, decided, settled; or
//! cancelled while it is still open and empty. Only the market's creator
//! moves it along, and no step is taken twice.

use vstd::prelude::*;
use crate::error::ErrorCode;
use crate::identity::Identity;
use crate::market::BetState;
use crate::range::{BetRange, BetStateStatus};

verus! {

/// The records for opening a market. `bet_state` is the fresh record that the
/// market is written into; only its `key` is read.
#[derive(Clone, Debug, PartialEq, Eq)]
pub struct InitializeBetState {
    pub bet_state: BetState,
    pub bet_creator: Identity,
}

/// The records for closing a market to wagers.
#[derive(Clone, Debug, PartialEq, Eq)]
pub struct CloseBetState {
    pub bet_state: BetState,
    pub bet_creator: Identity,
}

/// The records for cancelling an open, empty market.
#[derive(Clone, Debug, PartialEq, Eq)]
pub struct CancelBetState {
    pub bet_state: BetState,
    pub bettor: Identity,
}

/// The records for deciding the outcome of a closed market.
#[derive(Clone, Debug, PartialEq, Eq)]
pub struct DecideBetState {
    pub bet_state: BetState,
    pub bet_creator: Identity,
}

/// The records for settling a decided market.
#[derive(Clone, Debug, PartialEq, Eq)]
pub struct SettleBetState {
    pub bet_state: BetState,
    pub bet_creator: Identity,
}

impl BetState {
    /// A market as it is opened: open, undecided, every pool empty, ending
    /// `duration` after `start`.
    pub open spec fn opened(
        key: Identity,
        creator: Identity,
        symbol: String,
        start: u64,
        duration: u64,
        snapshot_price: u128,
    ) -> BetState {
        BetState {
            key,
            symbol,
            creator,
            running_total_pool: 0,
            static_total_pool: 0,
            neg_three_and_under_pool: 0,
            neg_three_to_neg_two_pool: 0,
            neg_two_to_neg_one_pool: 0,
            neg_one_to_zero_pool: 0,
            zero_to_pos_one_pool: 0,
            pos_one_to_pos_two_pool: 0,
            pos_two_to_pos_three_pool: 0,
            pos_three_and_over_pool: 0,
            status: BetStateStatus::Open,
            start_time: start,
            end_time: (start + duration) as u64,
            snapshot_price,
            winning_bet_range: BetRange::NotAvailable,
        }
    }

    /// Why `acting` may not close the market, if it may not. The first of
    /// these that holds decides: `acting` is not the creator
    /// (`NotBetCreator`); the market is not open (`BetIsClosedOrSettled`) or
    /// has an outcome (`BetAlreadyDecided`).
    pub open spec fn close_refusal(self, acting: Identity) -> Option<ErrorCode> {
        if self.creator != acting {
            Some(ErrorCode::NotBetCreator)
        } else {
            self.wagering_refusal()
        }
    }

    /// The market after it was closed at `end`.
    pub open spec fn closed(self, end: u64) -> BetState {
        BetState { end_time: end, status: BetStateStatus::Closed, ..self }
    }

    /// Why `acting` may not cancel the market, if it may not. The first of
    /// these that holds decides: the market is not open
    /// (`BetIsClosedOrSettled`) or has an outcome (`BetAlreadyDecided`);
    /// `acting` is not the creator (`NotBetCreator`); the aggregate pool is
    /// not empty (`FundsStillInPlay`).
    pub open spec fn cancel_refusal(self, acting: Identity) -> Option<ErrorCode> {
        if self.wagering_refusal() is Some {
            self.wagering_refusal()
        } else if self.creator != acting {
            Some(ErrorCode::NotBetCreator)
        } else if self.running_total_pool != 0 {
            Some(ErrorCode::FundsStillInPlay)
        } else {
            None
        }
    }

    /// Why `acting` may not decide the market for the range that `outcome`
    /// selects, if it may not. The first of these that holds decides:
    /// `acting` is not the creator (`NotBetCreator`); the market is not
    /// closed (`BetStillOpen`); it has an outcome already
    /// (`BetAlreadyDecided`); the selector names no range
    /// (`InvalidBetOutcome`).
    pub open spec fn decide_refusal(self, acting: Identity, outcome: u8) -> Option<ErrorCode> {
        if self.creator != acting {
            Some(ErrorCode::NotBetCreator)
        } else if self.status != BetStateStatus::Closed {
            Some(ErrorCode::BetStillOpen)
        } else if !self.undecided() {
            Some(ErrorCode::BetAlreadyDecided)
        } else if BetRange::of_selector(outcome) is None {
            Some(ErrorCode::InvalidBetOutcome)
        } else {
            None
        }
    }

    /// The market after the range that `outcome` selects was declared the
    /// winner.
    pub open spec fn decided(self, outcome: u8) -> BetState {
        BetState { winning_bet_range: BetRange::of_selector(outcome).unwrap(), ..self }
    }

    /// Why `acting` may not settle the market, if it may not. The first of
    /// these that holds decides: the market is not closed (`BetStillOpen`) or
    /// has no outcome (`BetStillUndecided`); `acting` is not the creator
    /// (`NotBetCreator`); the aggregate pool is not empty
    /// (`FundsStillInPlay`).
    pub open spec fn settle_refusal(self, acting: Identity) -> Option<ErrorCode> {
        if self.decided_refusal() is Some {
            self.decided_refusal()
        } else if self.creator != acting {
            Some(ErrorCode::NotBetCreator)
        } else if self.running_total_pool != 0 {
            Some(ErrorCode::FundsStillInPlay)
        } else {
            None
        }
    }

    /// The market after it was settled.
    pub open spec fn settled(self) -> BetState {
        BetState { status: BetStateStatus::Settled, ..self }
    }
}

/// Opens a market: writes an open, undecided market with empty pools into
/// the fresh record, created by `bet_creator`, running from `start` for
/// `duration`.
///
/// Refused with `ArithmeticOverflow`, and nothing changed, when the end time
/// `start + duration` does not fit.
pub fn initialize_bet_state(
    ctx: &mut InitializeBetState,
    start: u64,
    duration: u64,
    symbol: String,
    snapshot_price: u128,
) -> (r: Result<(), ErrorCode>)
    ensures
        start + duration > u64::MAX ==> r == Err::<(), ErrorCode>(ErrorCode::ArithmeticOverflow)
            && *final(ctx) == *old(ctx),
        start + duration <= u64::MAX ==> r is Ok && final(ctx).bet_creator == old(ctx).bet_creator
            && final(ctx).bet_state == BetState::opened(
            old(ctx).bet_state.key,
            old(ctx).bet_creator,
            symbol,
            start,
            duration,
            snapshot_price,
        ) && final(ctx).bet_state.wf(),
{
    let end = match start.checked_add(duration) {
        Some(end) => end,
        None => { return Err(ErrorCode::ArithmeticOverflow); },
    };
    ctx.bet_state.symbol = symbol;
    ctx.bet_state.creator = ctx.bet_creator;
    ctx.bet_state.running_total_pool = 0;
    ctx.bet_state.static_total_pool = 0;
    ctx.bet_state.neg_three_and_under_pool = 0;
    ctx.bet_state.neg_three_to_neg_two_pool = 0;
    ctx.bet_state.neg_two_to_neg_one_pool = 0;
    ctx.bet_state.neg_one_to_zero_pool = 0;
    ctx.bet_state.zero_to_pos_one_pool = 0;
    ctx.bet_state.pos_one_to_pos_two_pool = 0;
    ctx.bet_state.pos_two_to_pos_three_pool = 0;
    ctx.bet_state.pos_three_and_over_pool = 0;
    ctx.bet_state.status = BetStateStatus::Open;
    ctx.bet_state.start_time = start;
    ctx.bet_state.end_time = end;
    ctx.bet_state.snapshot_price = snapshot_price;
    ctx.bet_state.winning_bet_range = BetRange::NotAvailable;
    Ok(())
}

/// Closes an open, undecided market to wagers, recording `end` as its end
/// time. On refusal nothing has changed.
pub fn close_bet_state(ctx: &mut CloseBetState, end: u64) -> (r: Result<(), ErrorCode>)
    ensures
        match old(ctx).bet_state.close_refusal(old(ctx).bet_creator) {
            Some(e) => r == Err::<(), ErrorCode>(e) && *final(ctx) == *old(ctx),
            None => r is Ok && final(ctx).bet_creator == old(ctx).bet_creator && final(ctx).bet_state == old(ctx).bet_state.closed(end),
        },
        old(ctx).bet_state.wf() ==> final(ctx).bet_state.wf(),
{
    if ctx.bet_state.creator != ctx.bet_creator {
        return Err(ErrorCode::NotBetCreator);
    }
    ctx.bet_state.check_wagering()?;
    ctx.bet_state.end_time = end;
    ctx.bet_state.status = BetStateStatus::Closed;
    Ok(())
}

/// Cancels a market that is open, undecided and empty. `Ok` says that the
/// market's record may be released; the record itself is not changed.
pub fn cancel_bet_state(ctx: &CancelBetState) -> (r: Result<(), ErrorCode>)
    ensures
        match ctx.bet_state.cancel_refusal(ctx.bettor) {
            Some(e) => r == Err::<(), ErrorCode>(e),
            None => r is Ok,
        },
{
    ctx.bet_state.check_wagering()?;
    if ctx.bet_state.creator != ctx.bettor {
        return Err(ErrorCode::NotBetCreator);
    }
    if ctx.bet_state.running_total_pool != 0 {
        return Err(ErrorCode::FundsStillInPlay);
    }
    Ok(())
}

/// Declares the range that `outcome` selects the winner of a closed,
/// undecided market. On refusal nothing has changed.
pub fn decide_bet_state_outcome(ctx: &mut DecideBetState, outcome: u8) -> (r: Result<
    (),
    ErrorCode,
>)
    ensures
        match old(ctx).bet_state.decide_refusal(old(ctx).bet_creator, outcome) {
            Some(e) => r == Err::<(), ErrorCode>(e) && *final(ctx) == *old(ctx),
            None => r is Ok && final(ctx).bet_creator == old(ctx).bet_creator && final(ctx).bet_state == old(ctx).bet_state.decided(outcome),
        },
        old(ctx).bet_state.wf() ==> final(ctx).bet_state.wf(),
{
    if ctx.bet_state.creator != ctx.bet_creator {
        return Err(ErrorCode::NotBetCreator);
    }
    if ctx.bet_state.status != BetStateStatus::Closed {
        return Err(ErrorCode::BetStillOpen);
    }
    if ctx.bet_state.winning_bet_range != BetRange::NotAvailable {
        return Err(ErrorCode::BetAlreadyDecided);
    }
    match BetRange::from_selector(outcome) {
        Some(range) => {
            ctx.bet_state.winning_bet_range = range;
            Ok(())
        },
        None => Err(ErrorCode::InvalidBetOutcome),
    }
}

/// Settles a closed, decided market whose aggregate pool is empty: its status
/// becomes `Settled`, and its record may be released. On refusal nothing has
/// changed.
pub fn settle_bet_state(ctx: &mut SettleBetState) -> (r: Result<(), ErrorCode>)
    ensures
        match old(ctx).bet_state.settle_refusal(old(ctx).bet_creator) {
            Some(e) => r == Err::<(), ErrorCode>(e) && *final(ctx) == *old(ctx),
            None => r is Ok && final(ctx).bet_creator == old(ctx).bet_creator && final(ctx).bet_state == old(ctx).bet_state.settled(),
        },
        old(ctx).bet_state.wf() ==> final(ctx).bet_state.wf(),
{
    ctx.bet_state.check_decided()?;
    if ctx.bet_state.creator != ctx.bet_creator {
        return Err(ErrorCode::NotBetCreator);
    }
    if ctx.bet_state.running_total_pool != 0 {
        return Err(ErrorCode::FundsStillInPlay);
    }
    ctx.bet_state.status = BetStateStatus::Settled;
    Ok(())
}

} // verus!

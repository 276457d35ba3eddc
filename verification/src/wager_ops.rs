//! The life of a wager: placing it, cancelling it, clearing it away when it
//! lost, and claiming its winnings. Each operation works on one market, one
//! wager record and one user account, and either takes effect on all three
//! or refuses and leaves all three untouched.

use vstd::prelude::*;
use crate::account::{UserAccount, UserAccountView};
use crate::error::ErrorCode;
use crate::fee::{net_of, split_wager};
use crate::identity::Identity;
use crate::market::{transfer_winnings, BetState};
use crate::range::BetRange;
use crate::wager::WagerDetail;

verus! {

/// What a wager operation works on: the market, the wager record, the
/// account of the wager's owner, and the party that asks for the operation.
pub struct WagerContextView {
    pub bet_state: BetState,
    pub wager_detail: WagerDetail,
    pub user_account: UserAccountView,
    pub bettor: Identity,
}

/// The records for placing a wager. `wager_detail` is the fresh record that
/// the wager is written into; only its `key` is read.
#[derive(Clone, Debug, PartialEq, Eq)]
pub struct PlaceWager {
    pub bet_state: BetState,
    pub wager_detail: WagerDetail,
    pub user_account: UserAccount,
    pub bettor_account: Identity,
}

/// The records for cancelling a wager.
#[derive(Clone, Debug, PartialEq, Eq)]
pub struct CancelWager {
    pub bet_state: BetState,
    pub wager_detail: WagerDetail,
    pub user_account: UserAccount,
    pub bettor: Identity,
}

/// The records for clearing away a wager that lost.
#[derive(Clone, Debug, PartialEq, Eq)]
pub struct CloseLosingWager {
    pub bet_state: BetState,
    pub wager_detail: WagerDetail,
    pub user_account: UserAccount,
    pub bettor: Identity,
}

/// The records for claiming the winnings of a wager.
#[derive(Clone, Debug, PartialEq, Eq)]
pub struct ClaimWinnings {
    pub bet_state: BetState,
    pub wager_detail: WagerDetail,
    pub user_account: UserAccount,
    pub bettor: Identity,
}

impl View for PlaceWager {
    type V = WagerContextView;

    open spec fn view(&self) -> WagerContextView {
        WagerContextView {
            bet_state: self.bet_state,
            wager_detail: self.wager_detail,
            user_account: self.user_account@,
            bettor: self.bettor_account,
        }
    }
}

impl View for CancelWager {
    type V = WagerContextView;

    open spec fn view(&self) -> WagerContextView {
        WagerContextView {
            bet_state: self.bet_state,
            wager_detail: self.wager_detail,
            user_account: self.user_account@,
            bettor: self.bettor,
        }
    }
}

impl View for CloseLosingWager {
    type V = WagerContextView;

    open spec fn view(&self) -> WagerContextView {
        WagerContextView {
            bet_state: self.bet_state,
            wager_detail: self.wager_detail,
            user_account: self.user_account@,
            bettor: self.bettor,
        }
    }
}

impl View for ClaimWinnings {
    type V = WagerContextView;

    open spec fn view(&self) -> WagerContextView {
        WagerContextView {
            bet_state: self.bet_state,
            wager_detail: self.wager_detail,
            user_account: self.user_account@,
            bettor: self.bettor,
        }
    }
}

impl WagerContextView {
    /// Why a wager of `lamports` on the range that `bet_range` selects is
    /// refused, if it is. The first of these that holds decides:
    /// the market is not open (`BetIsClosedOrSettled`) or has an outcome
    /// (`BetAlreadyDecided`); the account is not the asking party's
    /// (`NotAccountOwnerToPlaceWager`); the selector names no range
    /// (`InvalidBetRange`); the balance is smaller than the stake, or a pool
    /// counter would overflow (`ArithmeticOverflow`).
    pub open spec fn place_refusal(self, bet_range: u8, lamports: u64) -> Option<ErrorCode> {
        if self.bet_state.wagering_refusal() is Some {
            self.bet_state.wagering_refusal()
        } else if self.user_account.account_owner != self.bettor {
            Some(ErrorCode::NotAccountOwnerToPlaceWager)
        } else if BetRange::of_selector(bet_range) is None {
            Some(ErrorCode::InvalidBetRange)
        } else if self.user_account.current_balance < lamports {
            Some(ErrorCode::ArithmeticOverflow)
        } else {
            self.bet_state.add_refusal(
                BetRange::of_selector(bet_range).unwrap(),
                net_of(lamports) as u64,
            )
        }
    }

    /// The records after the wager was placed: the whole stake has left the
    /// balance, the stake without the fee has entered the pools, the wager
    /// record is written and listed in the account.
    pub open spec fn placed(self, bet_range: u8, lamports: u64) -> WagerContextView {
        let range = BetRange::of_selector(bet_range).unwrap();
        let net = net_of(lamports) as u64;
        WagerContextView {
            bet_state: self.bet_state.added(range, net),
            wager_detail: WagerDetail {
                key: self.wager_detail.key,
                bettor: self.bettor,
                bet_state: self.bet_state.key,
                range_status: range,
                bet_value: net,
            },
            user_account: self.user_account.with_balance(
                self.user_account.current_balance - lamports,
            ).listing(self.wager_detail.key),
            bettor: self.bettor,
        }
    }

    /// Whether the asking party owns both the wager and the account.
    pub open spec fn owned_by_bettor(self) -> bool {
        self.wager_detail.bettor == self.bettor && self.user_account.account_owner == self.bettor
    }

    /// Why cancelling the wager is refused, if it is. The first of these that
    /// holds decides: the market is not open (`BetIsClosedOrSettled`) or has
    /// an outcome (`BetAlreadyDecided`); the wager or the account is not the
    /// asking party's (`NotAccountOwnerToPlaceWager`); the wager names no
    /// range (`InvalidBetRange`); the account does not list the wager
    /// (`ActiveWagerNotFound`); the refund does not fit the balance
    /// (`ArithmeticOverflow`); a pool holds less than the wager
    /// (`UnderflowDetected`).
    pub open spec fn cancel_refusal(self) -> Option<ErrorCode> {
        if self.bet_state.wagering_refusal() is Some {
            self.bet_state.wagering_refusal()
        } else if !self.owned_by_bettor() {
            Some(ErrorCode::NotAccountOwnerToPlaceWager)
        } else if !self.wager_detail.range_status.is_concrete() {
            Some(ErrorCode::InvalidBetRange)
        } else if !self.user_account.holds(self.wager_detail.key) {
            Some(ErrorCode::ActiveWagerNotFound)
        } else if self.user_account.current_balance + self.wager_detail.bet_value > u64::MAX {
            Some(ErrorCode::ArithmeticOverflow)
        } else {
            self.bet_state.remove_refusal(
                self.wager_detail.range_status,
                self.wager_detail.bet_value,
            )
        }
    }

    /// The records after the wager was cancelled: its amount has left the
    /// pools and returned to the balance, and the account no longer lists it.
    pub open spec fn cancelled(self) -> WagerContextView {
        WagerContextView {
            bet_state: self.bet_state.removed(
                self.wager_detail.range_status,
                self.wager_detail.bet_value,
            ),
            user_account: self.user_account.retiring(self.wager_detail.key).with_balance(
                self.user_account.current_balance + self.wager_detail.bet_value,
            ),
            ..self
        }
    }

    /// Why clearing away the wager as a loser is refused, if it is. The first
    /// of these that holds decides: the market is not closed (`BetStillOpen`)
    /// or has no outcome (`BetStillUndecided`); the wager is not the asking
    /// party's (`NotAccountOwnerToPlaceWager`); the wager won
    /// (`PleaseClaimYourWinnings`); the account is not the asking party's
    /// (`NotAccountOwnerToPlaceWager`); the account does not list the wager
    /// (`ActiveWagerNotFound`).
    pub open spec fn close_losing_refusal(self) -> Option<ErrorCode> {
        if self.bet_state.decided_refusal() is Some {
            self.bet_state.decided_refusal()
        } else if self.wager_detail.bettor != self.bettor {
            Some(ErrorCode::NotAccountOwnerToPlaceWager)
        } else if self.wager_detail.range_status == self.bet_state.winning_bet_range {
            Some(ErrorCode::PleaseClaimYourWinnings)
        } else if self.user_account.account_owner != self.bettor {
            Some(ErrorCode::NotAccountOwnerToPlaceWager)
        } else if !self.user_account.holds(self.wager_detail.key) {
            Some(ErrorCode::ActiveWagerNotFound)
        } else {
            None
        }
    }

    /// The records after the losing wager was cleared away: the account no
    /// longer lists it; no balance and no pool has changed.
    pub open spec fn loser_closed(self) -> WagerContextView {
        WagerContextView {
            user_account: self.user_account.retiring(self.wager_detail.key),
            ..self
        }
    }

    /// Why claiming `winnings_amount` for the wager is refused, if it is. The
    /// first of these that holds decides: the market is not closed
    /// (`BetStillOpen`) or has no outcome (`BetStillUndecided`); the wager or
    /// the account is not the asking party's
    /// (`NotAccountOwnerToClaimWinnings`); the account does not list the
    /// wager (`ActiveWagerNotFound`); the wager did not win
    /// (`NonWinningParty`); the winnings do not fit the balance
    /// (`ArithmeticOverflow`); the aggregate pool holds less than the
    /// winnings (`UnderflowDetected`).
    pub open spec fn claim_refusal(self, winnings_amount: u64) -> Option<ErrorCode> {
        if self.bet_state.decided_refusal() is Some {
            self.bet_state.decided_refusal()
        } else if !self.owned_by_bettor() {
            Some(ErrorCode::NotAccountOwnerToClaimWinnings)
        } else if !self.user_account.holds(self.wager_detail.key) {
            Some(ErrorCode::ActiveWagerNotFound)
        } else if self.wager_detail.range_status != self.bet_state.winning_bet_range {
            Some(ErrorCode::NonWinningParty)
        } else if self.user_account.current_balance + winnings_amount > u64::MAX {
            Some(ErrorCode::ArithmeticOverflow)
        } else if self.bet_state.running_total_pool < winnings_amount {
            Some(ErrorCode::UnderflowDetected)
        } else {
            None
        }
    }

    /// The records after the winnings were claimed: the amount has left the
    /// aggregate pool and entered the balance, and the account no longer
    /// lists the wager. The range pools are as before.
    pub open spec fn claimed(self, winnings_amount: u64) -> WagerContextView {
        WagerContextView {
            bet_state: self.bet_state.paid_out(winnings_amount),
            user_account: self.user_account.retiring(self.wager_detail.key).with_balance(
                self.user_account.current_balance + winnings_amount,
            ),
            ..self
        }
    }
}

/// Places a wager of `lamports` on the range that `bet_range` selects.
///
/// On success the whole stake is debited from the account, the stake without
/// the fee is credited to the market's totals and to the pool of the range,
/// the wager record is written, and the account lists it. On refusal nothing
/// has changed.
pub fn place_wager(ctx: &mut PlaceWager, bet_range: u8, lamports: u64) -> (r: Result<
    (),
    ErrorCode,
>)
    ensures
        match old(ctx)@.place_refusal(bet_range, lamports) {
            Some(e) => r == Err::<(), ErrorCode>(e) && *final(ctx) == *old(ctx),
            None => r is Ok && final(ctx)@ == old(ctx)@.placed(bet_range, lamports),
        },
        old(ctx).bet_state.wf() ==> final(ctx).bet_state.wf(),
        old(ctx).user_account.wf() && !old(ctx).user_account@.holds(old(ctx).wager_detail.key)
            ==> final(ctx).user_account.wf(),
{
    ctx.bet_state.check_wagering()?;
    if ctx.user_account.account_owner != ctx.bettor_account {
        return Err(ErrorCode::NotAccountOwnerToPlaceWager);
    }
    let range = match BetRange::from_selector(bet_range) {
        Some(range) => range,
        None => { return Err(ErrorCode::InvalidBetRange); },
    };
    let (net, _fee) = split_wager(lamports);
    if ctx.user_account.current_balance < lamports {
        return Err(ErrorCode::ArithmeticOverflow);
    }
    ctx.bet_state.add_to_range(range, net)?;
    ctx.wager_detail.bet_value = net;
    ctx.wager_detail.bet_state = ctx.bet_state.key;
    ctx.wager_detail.bettor = ctx.bettor_account;
    ctx.wager_detail.range_status = range;
    ctx.user_account.list_wager(ctx.wager_detail.key);
    // The balance covers the stake, so the debit is not refused.
    ctx.user_account.debit_for_wager(lamports)
}

/// Cancels a wager while its market is still open and undecided.
///
/// On success the wager's amount is taken out of the market's totals and out
/// of the pool of its range, the same amount is credited to the account, and
/// the account no longer lists the wager; its record is to be released. On
/// refusal nothing has changed.
pub fn cancel_wager(ctx: &mut CancelWager) -> (r: Result<(), ErrorCode>)
    ensures
        match old(ctx)@.cancel_refusal() {
            Some(e) => r == Err::<(), ErrorCode>(e) && *final(ctx) == *old(ctx),
            None => r is Ok && final(ctx)@ == old(ctx)@.cancelled(),
        },
        old(ctx).bet_state.wf() ==> final(ctx).bet_state.wf(),
        old(ctx).user_account.wf() ==> final(ctx).user_account.wf(),
{
    ctx.bet_state.check_wagering()?;
    if ctx.wager_detail.bettor != ctx.bettor || ctx.user_account.account_owner != ctx.bettor {
        return Err(ErrorCode::NotAccountOwnerToPlaceWager);
    }
    if ctx.wager_detail.range_status == BetRange::NotAvailable {
        return Err(ErrorCode::InvalidBetRange);
    }
    if ctx.user_account.position_of(&ctx.wager_detail.key).is_none() {
        return Err(ErrorCode::ActiveWagerNotFound);
    }
    if ctx.user_account.current_balance.checked_add(ctx.wager_detail.bet_value).is_none() {
        return Err(ErrorCode::ArithmeticOverflow);
    }
    ctx.bet_state.remove_from_range(ctx.wager_detail.range_status, ctx.wager_detail.bet_value)?;
    // The wager is listed and the refund fits, so neither step is refused.
    ctx.user_account.retire_wager(&ctx.wager_detail.key)?;
    ctx.user_account.credit_from_settlement(ctx.wager_detail.bet_value)
}

/// Clears away a wager that lost, once its market is closed and decided.
///
/// On success the account no longer lists the wager, and its record is to be
/// released; nothing is credited, and the pools stay as they are. On refusal
/// nothing has changed.
pub fn close_losing_wager(ctx: &mut CloseLosingWager) -> (r: Result<(), ErrorCode>)
    ensures
        match old(ctx)@.close_losing_refusal() {
            Some(e) => r == Err::<(), ErrorCode>(e) && *final(ctx) == *old(ctx),
            None => r is Ok && final(ctx)@ == old(ctx)@.loser_closed(),
        },
        final(ctx).bet_state == old(ctx).bet_state,
        old(ctx).user_account.wf() ==> final(ctx).user_account.wf(),
{
    ctx.bet_state.check_decided()?;
    if ctx.wager_detail.bettor != ctx.bettor {
        return Err(ErrorCode::NotAccountOwnerToPlaceWager);
    }
    if ctx.wager_detail.range_status == ctx.bet_state.winning_bet_range {
        return Err(ErrorCode::PleaseClaimYourWinnings);
    }
    if ctx.user_account.account_owner != ctx.bettor {
        return Err(ErrorCode::NotAccountOwnerToPlaceWager);
    }
    ctx.user_account.retire_wager(&ctx.wager_detail.key)
}

/// Claims `winnings_amount` for a wager that won, once its market is closed
/// and decided.
///
/// On success the amount is credited to the account and taken out of the
/// market's aggregate pool, and the account no longer lists the wager; its
/// record is to be released. The range pools are not touched. On refusal
/// nothing has changed.
pub fn claim_winnings(ctx: &mut ClaimWinnings, winnings_amount: u64) -> (r: Result<
    (),
    ErrorCode,
>)
    ensures
        match old(ctx)@.claim_refusal(winnings_amount) {
            Some(e) => r == Err::<(), ErrorCode>(e) && *final(ctx) == *old(ctx),
            None => r is Ok && final(ctx)@ == old(ctx)@.claimed(winnings_amount),
        },
        old(ctx).bet_state.wf() ==> final(ctx).bet_state.wf(),
        old(ctx).user_account.wf() ==> final(ctx).user_account.wf(),
{
    ctx.bet_state.check_decided()?;
    if ctx.wager_detail.bettor != ctx.bettor || ctx.user_account.account_owner != ctx.bettor {
        return Err(ErrorCode::NotAccountOwnerToClaimWinnings);
    }
    if ctx.user_account.position_of(&ctx.wager_detail.key).is_none() {
        return Err(ErrorCode::ActiveWagerNotFound);
    }
    if ctx.wager_detail.range_status != ctx.bet_state.winning_bet_range {
        return Err(ErrorCode::NonWinningParty);
    }
    if ctx.user_account.current_balance.checked_add(winnings_amount).is_none() {
        return Err(ErrorCode::ArithmeticOverflow);
    }
    transfer_winnings(&mut ctx.bet_state, winnings_amount)?;
    // The wager is listed and the winnings fit, so neither step is refused.
    ctx.user_account.retire_wager(&ctx.wager_detail.key)?;
    ctx.user_account.credit_from_settlement(winnings_amount)
}

} // verus!

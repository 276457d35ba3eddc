//! Accounting core of a pooled-fund prediction market: user balances, market
//! pools, wager records, and the state machine that ties them together.
//!
//! Users deposit into accounts, creators open markets over eight outcome
//! ranges, and users stake part of their balance on one range of a market.
//! A closed market is decided for one range; winning wagers are paid out of
//! the pool, losing ones are cleared away, and the empty market is settled.
//!
//! Every operation takes the records it works on, already looked up, and the
//! identity of the party that asks. It either takes effect as a whole or
//! answers with one [`ErrorCode`] and leaves every record as it was. No
//! operation panics, and no counter wraps.
//!
//! - [`identity`], [`range`], [`error`]: the plain vocabulary.
//! - [`fee`]: the take rate that splits a stake into wager and fee.
//! - [`market`], [`account`], [`wager`]: the three kinds of record, with the
//!   pool accounting and the balance ledger.
//! - [`market_ops`], [`account_ops`], [`wager_ops`]: the operations.
//! - [`funds`]: moving funds between two holdings.
//! - [`laws`]: what holds of the operations together.

pub mod account;
pub mod account_ops;
pub mod error;
pub mod fee;
pub mod funds;
pub mod identity;
pub mod laws;
pub mod market;
pub mod market_ops;
pub mod range;
pub mod wager;
pub mod wager_ops;

pub use account::UserAccount;
pub use account_ops::{
    close_user_account, deposit_into_account, initialize_user_account, withdraw_from_account,
    CloseUserAccount, DepositIntoAccount, InitializeUserAccount, WithdrawFromAccount,
};
pub use error::ErrorCode;
pub use fee::{split_wager, TAKE_RATE_DENOMINATOR, TAKE_RATE_NUMERATOR};
pub use funds::transfer_lamports;
pub use identity::Identity;
pub use market::{transfer_winnings, BetState};
pub use market_ops::{
    cancel_bet_state, close_bet_state, decide_bet_state_outcome, initialize_bet_state,
    settle_bet_state, CancelBetState, CloseBetState, DecideBetState, InitializeBetState,
    SettleBetState,
};
pub use range::{BetRange, BetStateStatus, RANGE_COUNT};
pub use wager::WagerDetail;
pub use wager_ops::{
    cancel_wager, claim_winnings, close_losing_wager, place_wager, CancelWager, ClaimWinnings,
    CloseLosingWager, PlaceWager,
};

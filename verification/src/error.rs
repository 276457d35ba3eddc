//! The typed errors with which a ledger operation is refused.

use vstd::prelude::*;

verus! {

/// Why an operation was refused. Every refusal leaves the records untouched.
///
/// The ledger itself never answers with `InvalidBetCreator`, `InvalidParty`,
/// `ActiveWagersEmpty`, `InvalidWithdrawalAmount` or
/// `CannotWithdrawFromEmptyAccount`: a wager that an account does not list is
/// `ActiveWagerNotFound` also where the list is empty, and a withdrawal
/// beyond the balance is `InsufficientFunds` also where the balance is zero.
/// They stay in the vocabulary, in their places, for callers that number the
/// codes.
#[derive(Clone, Copy, Debug, PartialEq, Eq, Structural)]
pub enum ErrorCode {
    // Betting errors
    InvalidBetCreator,
    InvalidParty,
    InvalidBetOutcome,
    InvalidBetRange,
    NonWinningParty,
    FundsStillInPlay,
    BetStillOpen,
    BetStillUndecided,
    BetAlreadyDecided,
    NotBetCreator,
    BetIsClosedOrSettled,
    NotAccountOwnerToPlaceWager,
    NotAccountOwnerToClaimWinnings,
    ActiveWagerNotFound,
    ActiveWagersEmpty,
    PleaseClaimYourWinnings,
    // User account errors
    InvalidAccountOwner,
    AccountBalanceNotEmpty,
    InvalidDepositAmount,
    InvalidWithdrawalAmount,
    CannotWithdrawFromEmptyAccount,
    InsufficientFunds,
    // Arithmetic errors
    ArithmeticOverflow,
    UnderflowDetected,
}

impl ErrorCode {
    /// The sentence shown to a user for this error.
    pub fn message(&self) -> (text: &'static str)
        ensures
            text@ == self.message_text(),
    {
        match self {
            ErrorCode::InvalidBetCreator => "You are not the creator of this bet",
            ErrorCode::InvalidParty => "The given value is not a valid party number entry.",
            ErrorCode::InvalidBetOutcome => "The given value is not a valid outcome for the bet.",
            ErrorCode::InvalidBetRange => "The given value is not a valid bet range entry",
            ErrorCode::NonWinningParty => "Cannot carry out this action. You are not a part of the winning party for this bet.",
            ErrorCode::FundsStillInPlay => "Cannot carry out this action until all funds are withdrawn.",
            ErrorCode::BetStillOpen => "Cannot carry out this action while the bet is still open.",
            ErrorCode::BetStillUndecided => "Cannot carry out this action while the bet is still undecided on a winner.",
            ErrorCode::BetAlreadyDecided => "Cannot carry out this action when bet's outcome has already been decided.",
            ErrorCode::NotBetCreator => "Cannot carry out this action. You are not the creator of this bet.",
            ErrorCode::BetIsClosedOrSettled => "Cannot carry out this action when the bet is closed or is already settled.",
            ErrorCode::NotAccountOwnerToPlaceWager => "You cannot place a wager from this account because you are not the account owner.",
            ErrorCode::NotAccountOwnerToClaimWinnings => "You cannot claim winnings for this account because you are not the account owner.",
            ErrorCode::ActiveWagerNotFound => "Could not find that wager within your list of active wagers.",
            ErrorCode::ActiveWagersEmpty => "You do not have any active bets open.",
            ErrorCode::PleaseClaimYourWinnings => "This is a winning wager, please claim your winnings",
            ErrorCode::InvalidAccountOwner => "You are not the creator of this account.",
            ErrorCode::AccountBalanceNotEmpty => "You must withdraw all of your betting funds to close your account.",
            ErrorCode::InvalidDepositAmount => "Invalid desposit amount.",
            ErrorCode::InvalidWithdrawalAmount => "Invalid withdrawal amount.",
            ErrorCode::CannotWithdrawFromEmptyAccount => "Cannot withdraw from an empty account.",
            ErrorCode::InsufficientFunds => "The account balance is smaller than the requested amount.",
            ErrorCode::ArithmeticOverflow => "The amount does not fit the counter it would be added to or taken from.",
            ErrorCode::UnderflowDetected => "The pool holds less than the amount to be removed.",
        }
    }

    /// The characters of [`ErrorCode::message`].
    pub open spec fn message_text(&self) -> Seq<char> {
        match self {
            ErrorCode::InvalidBetCreator => "You are not the creator of this bet"@,
            ErrorCode::InvalidParty => "The given value is not a valid party number entry."@,
            ErrorCode::InvalidBetOutcome => "The given value is not a valid outcome for the bet."@,
            ErrorCode::InvalidBetRange => "The given value is not a valid bet range entry"@,
            ErrorCode::NonWinningParty => "Cannot carry out this action. You are not a part of the winning party for this bet."@,
            ErrorCode::FundsStillInPlay => "Cannot carry out this action until all funds are withdrawn."@,
            ErrorCode::BetStillOpen => "Cannot carry out this action while the bet is still open."@,
            ErrorCode::BetStillUndecided => "Cannot carry out this action while the bet is still undecided on a winner."@,
            ErrorCode::BetAlreadyDecided => "Cannot carry out this action when bet's outcome has already been decided."@,
            ErrorCode::NotBetCreator => "Cannot carry out this action. You are not the creator of this bet."@,
            ErrorCode::BetIsClosedOrSettled => "Cannot carry out this action when the bet is closed or is already settled."@,
            ErrorCode::NotAccountOwnerToPlaceWager => "You cannot place a wager from this account because you are not the account owner."@,
            ErrorCode::NotAccountOwnerToClaimWinnings => "You cannot claim winnings for this account because you are not the account owner."@,
            ErrorCode::ActiveWagerNotFound => "Could not find that wager within your list of active wagers."@,
            ErrorCode::ActiveWagersEmpty => "You do not have any active bets open."@,
            ErrorCode::PleaseClaimYourWinnings => "This is a winning wager, please claim your winnings"@,
            ErrorCode::InvalidAccountOwner => "You are not the creator of this account."@,
            ErrorCode::AccountBalanceNotEmpty => "You must withdraw all of your betting funds to close your account."@,
            ErrorCode::InvalidDepositAmount => "Invalid desposit amount."@,
            ErrorCode::InvalidWithdrawalAmount => "Invalid withdrawal amount."@,
            ErrorCode::CannotWithdrawFromEmptyAccount => "Cannot withdraw from an empty account."@,
            ErrorCode::InsufficientFunds => "The account balance is smaller than the requested amount."@,
            ErrorCode::ArithmeticOverflow => "The amount does not fit the counter it would be added to or taken from."@,
            ErrorCode::UnderflowDetected => "The pool holds less than the amount to be removed."@,
        }
    }
}

} // verus!

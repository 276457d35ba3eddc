//! The balance ledger as its owner sees it: opening an account, depositing,
//! withdrawing, closing.

use vstd::prelude::*;
use crate::account::{UserAccount, UserAccountView};
use crate::error::ErrorCode;
use crate::identity::Identity;

verus! {

/// What an account operation works on: the account and the party that asks
/// for the operation.
pub struct AccountContextView {
    pub user_account: UserAccountView,
    pub account_owner: Identity,
}

/// The records for opening an account. `user_account` is the fresh record
/// that the account is written into.
#[derive(Clone, Debug, PartialEq, Eq)]
pub struct InitializeUserAccount {
    pub user_account: UserAccount,
    pub account_owner: Identity,
}

/// The records for closing an account.
#[derive(Clone, Debug, PartialEq, Eq)]
pub struct CloseUserAccount {
    pub user_account: UserAccount,
    pub account_owner: Identity,
}

/// The records for a deposit.
#[derive(Clone, Debug, PartialEq, Eq)]
pub struct DepositIntoAccount {
    pub user_account: UserAccount,
    pub account_owner: Identity,
}

/// The records for a withdrawal.
#[derive(Clone, Debug, PartialEq, Eq)]
pub struct WithdrawFromAccount {
    pub user_account: UserAccount,
    pub account_owner: Identity,
}

impl View for InitializeUserAccount {
    type V = AccountContextView;

    open spec fn view(&self) -> AccountContextView {
        AccountContextView { user_account: self.user_account@, account_owner: self.account_owner }
    }
}

impl View for CloseUserAccount {
    type V = AccountContextView;

    open spec fn view(&self) -> AccountContextView {
        AccountContextView { user_account: self.user_account@, account_owner: self.account_owner }
    }
}

impl View for DepositIntoAccount {
    type V = AccountContextView;

    open spec fn view(&self) -> AccountContextView {
        AccountContextView { user_account: self.user_account@, account_owner: self.account_owner }
    }
}

impl View for WithdrawFromAccount {
    type V = AccountContextView;

    open spec fn view(&self) -> AccountContextView {
        AccountContextView { user_account: self.user_account@, account_owner: self.account_owner }
    }
}

impl AccountContextView {
    /// The records after the account was opened for the asking party:
    /// nothing won, nothing lost, no open wager, no balance.
    pub open spec fn initialized(self) -> AccountContextView {
        AccountContextView {
            user_account: UserAccountView {
                account_owner: self.account_owner,
                wins: 0,
                losses: 0,
                active_wagers: Seq::empty(),
                current_balance: 0,
            },
            ..self
        }
    }

    /// Why the account may not be closed, if it may not. The first of these
    /// that holds decides: the account is not the asking party's
    /// (`InvalidAccountOwner`); it still has a balance or an open wager
    /// (`AccountBalanceNotEmpty`).
    pub open spec fn close_refusal(self) -> Option<ErrorCode> {
        if self.user_account.account_owner != self.account_owner {
            Some(ErrorCode::InvalidAccountOwner)
        } else if self.user_account.current_balance != 0 || self.user_account.active_wagers.len()
            != 0 {
            Some(ErrorCode::AccountBalanceNotEmpty)
        } else {
            None
        }
    }

    /// Why a deposit of `lamports` is refused, if it is. The first of these
    /// that holds decides: the account is not the asking party's
    /// (`InvalidAccountOwner`); the amount is zero (`InvalidDepositAmount`);
    /// the sum does not fit the balance (`ArithmeticOverflow`).
    pub open spec fn deposit_refusal(self, lamports: u64) -> Option<ErrorCode> {
        if self.user_account.account_owner != self.account_owner {
            Some(ErrorCode::InvalidAccountOwner)
        } else if lamports == 0 {
            Some(ErrorCode::InvalidDepositAmount)
        } else if self.user_account.current_balance + lamports > u64::MAX {
            Some(ErrorCode::ArithmeticOverflow)
        } else {
            None
        }
    }

    /// The records after `lamports` were deposited.
    pub open spec fn deposited(self, lamports: u64) -> AccountContextView {
        AccountContextView {
            user_account: self.user_account.with_balance(
                self.user_account.current_balance + lamports,
            ),
            ..self
        }
    }

    /// Why a withdrawal of `amount` is refused, if it is. The first of these
    /// that holds decides: the account is not the asking party's
    /// (`InvalidAccountOwner`); the amount exceeds the balance
    /// (`InsufficientFunds`).
    pub open spec fn withdraw_refusal(self, amount: u64) -> Option<ErrorCode> {
        if self.user_account.account_owner != self.account_owner {
            Some(ErrorCode::InvalidAccountOwner)
        } else if amount > self.user_account.current_balance {
            Some(ErrorCode::InsufficientFunds)
        } else {
            None
        }
    }

    /// The records after `amount` was withdrawn.
    pub open spec fn withdrawn(self, amount: u64) -> AccountContextView {
        AccountContextView {
            user_account: self.user_account.with_balance(
                self.user_account.current_balance - amount,
            ),
            ..self
        }
    }
}

/// Opens an account for `account_owner`: writes an account with no balance
/// and no open wager into the fresh record. Never refused.
pub fn initialize_user_account(ctx: &mut InitializeUserAccount) -> (r: Result<(), ErrorCode>)
    ensures
        r is Ok,
        final(ctx)@ == old(ctx)@.initialized(),
        final(ctx).user_account.wf(),
{
    ctx.user_account = UserAccount::new(ctx.account_owner);
    Ok(())
}

/// Closes an account that holds no balance and no open wager. `Ok` says that
/// the account's record may be released; the record itself is not changed.
pub fn close_user_account(ctx: &CloseUserAccount) -> (r: Result<(), ErrorCode>)
    ensures
        match ctx@.close_refusal() {
            Some(e) => r == Err::<(), ErrorCode>(e),
            None => r is Ok,
        },
{
    if ctx.user_account.account_owner != ctx.account_owner {
        return Err(ErrorCode::InvalidAccountOwner);
    }
    if ctx.user_account.current_balance != 0 || ctx.user_account.active_wagers.len() != 0 {
        return Err(ErrorCode::AccountBalanceNotEmpty);
    }
    Ok(())
}

/// Deposits `lamports`, which must not be zero, into the account. On refusal
/// nothing has changed.
pub fn deposit_into_account(ctx: &mut DepositIntoAccount, lamports: u64) -> (r: Result<
    (),
    ErrorCode,
>)
    ensures
        match old(ctx)@.deposit_refusal(lamports) {
            Some(e) => r == Err::<(), ErrorCode>(e) && *final(ctx) == *old(ctx),
            None => r is Ok && final(ctx)@ == old(ctx)@.deposited(lamports),
        },
        old(ctx).user_account.wf() ==> final(ctx).user_account.wf(),
{
    if ctx.user_account.account_owner != ctx.account_owner {
        return Err(ErrorCode::InvalidAccountOwner);
    }
    if lamports == 0 {
        return Err(ErrorCode::InvalidDepositAmount);
    }
    match ctx.user_account.current_balance.checked_add(lamports) {
        Some(balance) => {
            ctx.user_account.current_balance = balance;
            Ok(())
        },
        None => Err(ErrorCode::ArithmeticOverflow),
    }
}

/// Withdraws `amount` from the account; the caller hands the same amount out
/// to the owner. On refusal nothing has changed.
pub fn withdraw_from_account(ctx: &mut WithdrawFromAccount, amount: u64) -> (r: Result<
    (),
    ErrorCode,
>)
    ensures
        match old(ctx)@.withdraw_refusal(amount) {
            Some(e) => r == Err::<(), ErrorCode>(e) && *final(ctx) == *old(ctx),
            None => r is Ok && final(ctx)@ == old(ctx)@.withdrawn(amount),
        },
        old(ctx).user_account.wf() ==> final(ctx).user_account.wf(),
{
    if ctx.user_account.account_owner != ctx.account_owner {
        return Err(ErrorCode::InvalidAccountOwner);
    }
    match ctx.user_account.current_balance.checked_sub(amount) {
        Some(balance) => {
            ctx.user_account.current_balance = balance;
            Ok(())
        },
        None => Err(ErrorCode::InsufficientFunds),
    }
}

} // verus!

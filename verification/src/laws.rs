//! What holds of the ledger whatever is asked of it: the laws that the
//! operations obey, stated over the same descriptions as their contracts.

use vstd::prelude::*;
use crate::account::{lemma_first_position, lemma_retiring_keeps_wf, UserAccountView};
use crate::account_ops::AccountContextView;
use crate::error::ErrorCode;
use crate::fee::{fee_of, lemma_split_bounds};
use crate::identity::Identity;
use crate::market::BetState;
use crate::range::BetRange;
use crate::wager_ops::WagerContextView;

verus! {

/// The value that one account and one market hold together: the account's
/// balance and the market's aggregate pool.
pub open spec fn ledger_total(account: UserAccountView, market: BetState) -> int {
    account.current_balance + market.running_total_pool
}

/// While a market has no decided outcome, its aggregate pool is the sum of
/// its eight range pools. Once an outcome is decided, paid winnings shrink
/// the aggregate pool only, so it is at most that sum.
pub proof fn law_aggregate_pool_is_sum_of_range_pools(market: BetState)
    requires
        market.wf(),
    ensures
        market.undecided() ==> market.running_total_pool == market.range_pool_sum(),
        market.running_total_pool <= market.range_pool_sum(),
        market.static_total_pool == market.range_pool_sum(),
{
}

/// A market is opened with its invariant, and every step of its life keeps
/// it: closing, deciding, settling.
pub proof fn law_market_steps_keep_invariant(
    market: BetState,
    acting: Identity,
    end: u64,
    outcome: u8,
    symbol: String,
    start: u64,
    duration: u64,
    snapshot_price: u128,
)
    ensures
        BetState::opened(market.key, acting, symbol, start, duration, snapshot_price).wf(),
        market.wf() && market.close_refusal(acting) is None ==> market.closed(end).wf(),
        market.wf() && market.decide_refusal(acting, outcome) is None ==> market.decided(
            outcome,
        ).wf(),
        market.wf() && market.settle_refusal(acting) is None ==> market.settled().wf(),
{
}

/// Every wager operation keeps the market's invariant.
pub proof fn law_wager_steps_keep_market_invariant(
    records: WagerContextView,
    bet_range: u8,
    lamports: u64,
    winnings_amount: u64,
)
    requires
        records.bet_state.wf(),
    ensures
        records.place_refusal(bet_range, lamports) is None ==> records.placed(
            bet_range,
            lamports,
        ).bet_state.wf(),
        records.cancel_refusal() is None ==> records.cancelled().bet_state.wf(),
        records.close_losing_refusal() is None ==> records.loser_closed().bet_state.wf(),
        records.claim_refusal(winnings_amount) is None ==> records.claimed(
            winnings_amount,
        ).bet_state.wf(),
{
}

/// Every wager operation keeps the account's invariant; placing does so for
/// a wager that the account does not list yet.
pub proof fn law_wager_steps_keep_account_invariant(
    records: WagerContextView,
    bet_range: u8,
    lamports: u64,
    winnings_amount: u64,
)
    requires
        records.user_account.wf(),
    ensures
        !records.user_account.holds(records.wager_detail.key) ==> records.placed(
            bet_range,
            lamports,
        ).user_account.wf(),
        records.cancelled().user_account.wf(),
        !records.cancelled().user_account.holds(records.wager_detail.key),
        records.loser_closed().user_account.wf(),
        !records.loser_closed().user_account.holds(records.wager_detail.key),
        records.claimed(winnings_amount).user_account.wf(),
        !records.claimed(winnings_amount).user_account.holds(records.wager_detail.key),
{
    lemma_retiring_keeps_wf(records.user_account, records.wager_detail.key);
    let key = records.wager_detail.key;
    let before = records.user_account.active_wagers;
    if !before.contains(key) {
        let after = before.push(key);
        assert forall|i: int, j: int|
            0 <= i < after.len() && 0 <= j < after.len() && i != j implies after[i]
            != after[j] by {
            if i < before.len() && j < before.len() {
                assert(before[i] != before[j]);
            } else if i < before.len() {
                assert(before.contains(before[i]));
            } else {
                assert(before.contains(before[j]));
            }
        }
    }
}

/// A balance is never negative, and no operation wraps it: after each
/// operation the balance is the exact sum or difference, which lies between
/// zero and the largest balance.
pub proof fn law_balance_never_negative(
    records: WagerContextView,
    account: AccountContextView,
    bet_range: u8,
    lamports: u64,
    winnings_amount: u64,
)
    ensures
        records.user_account.current_balance >= 0,
        records.place_refusal(bet_range, lamports) is None ==> records.placed(
            bet_range,
            lamports,
        ).user_account.current_balance == records.user_account.current_balance - lamports,
        records.cancel_refusal() is None ==> records.cancelled().user_account.current_balance
            == records.user_account.current_balance + records.wager_detail.bet_value,
        records.close_losing_refusal() is None
            ==> records.loser_closed().user_account.current_balance
            == records.user_account.current_balance,
        records.claim_refusal(winnings_amount) is None ==> records.claimed(
            winnings_amount,
        ).user_account.current_balance == records.user_account.current_balance + winnings_amount,
        account.deposit_refusal(lamports) is None ==> account.deposited(
            lamports,
        ).user_account.current_balance == account.user_account.current_balance + lamports,
        account.withdraw_refusal(lamports) is None ==> account.withdrawn(
            lamports,
        ).user_account.current_balance == account.user_account.current_balance - lamports,
{
}

/// No wager operation creates or destroys value. Cancelling, claiming and
/// clearing away a loser leave the sum of balance and aggregate pool as it
/// was. Placing moves the wager into the pool and takes the fee out of the
/// ledger: the sum drops by exactly the fee of the stake.
pub proof fn law_wager_steps_conserve_value(
    records: WagerContextView,
    bet_range: u8,
    lamports: u64,
    winnings_amount: u64,
)
    ensures
        records.place_refusal(bet_range, lamports) is None ==> ledger_total(
            records.placed(bet_range, lamports).user_account,
            records.placed(bet_range, lamports).bet_state,
        ) + fee_of(lamports) == ledger_total(records.user_account, records.bet_state),
        records.cancel_refusal() is None ==> ledger_total(
            records.cancelled().user_account,
            records.cancelled().bet_state,
        ) == ledger_total(records.user_account, records.bet_state),
        records.close_losing_refusal() is None ==> ledger_total(
            records.loser_closed().user_account,
            records.loser_closed().bet_state,
        ) == ledger_total(records.user_account, records.bet_state),
        records.claim_refusal(winnings_amount) is None ==> ledger_total(
            records.claimed(winnings_amount).user_account,
            records.claimed(winnings_amount).bet_state,
        ) == ledger_total(records.user_account, records.bet_state),
{
    lemma_split_bounds(lamports);
}

/// The balances of a whole set of accounts, added up.
pub open spec fn balances_sum(accounts: Seq<UserAccountView>) -> int
    decreases accounts.len(),
{
    if accounts.len() == 0 {
        0
    } else {
        balances_sum(accounts.drop_last()) + accounts.last().current_balance
    }
}

/// The aggregate pools of a whole set of markets, added up.
pub open spec fn pools_sum(markets: Seq<BetState>) -> int
    decreases markets.len(),
{
    if markets.len() == 0 {
        0
    } else {
        pools_sum(markets.drop_last()) + markets.last().running_total_pool
    }
}

/// Replacing one account changes the sum of balances by the difference of
/// the two balances.
pub proof fn lemma_balances_sum_update(
    accounts: Seq<UserAccountView>,
    index: int,
    account: UserAccountView,
)
    requires
        0 <= index < accounts.len(),
    ensures
        balances_sum(accounts.update(index, account)) == balances_sum(accounts)
            - accounts[index].current_balance + account.current_balance,
    decreases accounts.len(),
{
    let updated = accounts.update(index, account);
    if index == accounts.len() - 1 {
        assert(updated.drop_last() =~= accounts.drop_last());
    } else {
        assert(updated.drop_last() =~= accounts.drop_last().update(index, account));
        lemma_balances_sum_update(accounts.drop_last(), index, account);
    }
}

/// Replacing one market changes the sum of aggregate pools by the difference
/// of the two pools.
pub proof fn lemma_pools_sum_update(markets: Seq<BetState>, index: int, market: BetState)
    requires
        0 <= index < markets.len(),
    ensures
        pools_sum(markets.update(index, market)) == pools_sum(markets)
            - markets[index].running_total_pool + market.running_total_pool,
    decreases markets.len(),
{
    let updated = markets.update(index, market);
    if index == markets.len() - 1 {
        assert(updated.drop_last() =~= markets.drop_last());
    } else {
        assert(updated.drop_last() =~= markets.drop_last().update(index, market));
        lemma_pools_sum_update(markets.drop_last(), index, market);
    }
}

/// Over any set of accounts and markets, the sum of all balances and all
/// aggregate pools is left as it was by cancelling a wager, by clearing away
/// a loser and by claiming winnings, whichever account and market of the set
/// the operation works on. Placing a wager lowers it by the fee of the stake
/// and by nothing else.
pub proof fn law_total_value_is_conserved(
    accounts: Seq<UserAccountView>,
    markets: Seq<BetState>,
    account_index: int,
    market_index: int,
    records: WagerContextView,
    bet_range: u8,
    lamports: u64,
    winnings_amount: u64,
)
    requires
        0 <= account_index < accounts.len(),
        0 <= market_index < markets.len(),
        records.user_account == accounts[account_index],
        records.bet_state == markets[market_index],
    ensures
        records.place_refusal(bet_range, lamports) is None ==> balances_sum(
            accounts.update(account_index, records.placed(bet_range, lamports).user_account),
        ) + pools_sum(markets.update(market_index, records.placed(bet_range, lamports).bet_state))
            + fee_of(lamports) == balances_sum(accounts) + pools_sum(markets),
        records.cancel_refusal() is None ==> balances_sum(
            accounts.update(account_index, records.cancelled().user_account),
        ) + pools_sum(markets.update(market_index, records.cancelled().bet_state))
            == balances_sum(accounts) + pools_sum(markets),
        records.close_losing_refusal() is None ==> balances_sum(
            accounts.update(account_index, records.loser_closed().user_account),
        ) + pools_sum(markets.update(market_index, records.loser_closed().bet_state))
            == balances_sum(accounts) + pools_sum(markets),
        records.claim_refusal(winnings_amount) is None ==> balances_sum(
            accounts.update(account_index, records.claimed(winnings_amount).user_account),
        ) + pools_sum(markets.update(market_index, records.claimed(winnings_amount).bet_state))
            == balances_sum(accounts) + pools_sum(markets),
{
    law_wager_steps_conserve_value(records, bet_range, lamports, winnings_amount);
    lemma_balances_sum_update(
        accounts,
        account_index,
        records.placed(bet_range, lamports).user_account,
    );
    lemma_pools_sum_update(markets, market_index, records.placed(bet_range, lamports).bet_state);
    lemma_balances_sum_update(accounts, account_index, records.cancelled().user_account);
    lemma_pools_sum_update(markets, market_index, records.cancelled().bet_state);
    lemma_balances_sum_update(accounts, account_index, records.loser_closed().user_account);
    lemma_pools_sum_update(markets, market_index, records.loser_closed().bet_state);
    lemma_balances_sum_update(
        accounts,
        account_index,
        records.claimed(winnings_amount).user_account,
    );
    lemma_pools_sum_update(markets, market_index, records.claimed(winnings_amount).bet_state);
}

/// Value enters and leaves the ledger by deposit and withdrawal only, and by
/// exactly the amount asked for.
pub proof fn law_deposit_and_withdrawal_move_the_amount(account: AccountContextView, amount: u64)
    ensures
        account.deposit_refusal(amount) is None ==> account.deposited(
            amount,
        ).user_account.current_balance == account.user_account.current_balance + amount,
        account.withdraw_refusal(amount) is None ==> account.withdrawn(
            amount,
        ).user_account.current_balance == account.user_account.current_balance - amount,
        account.deposited(amount).user_account.active_wagers == account.user_account.active_wagers,
        account.withdrawn(amount).user_account.active_wagers == account.user_account.active_wagers,
{
}

/// Market steps touch no pool: closing, deciding and settling leave the
/// aggregate pool and every range pool as they were.
pub proof fn law_market_steps_move_no_value(market: BetState, end: u64, outcome: u8, range: BetRange)
    ensures
        market.closed(end).running_total_pool == market.running_total_pool,
        market.decided(outcome).running_total_pool == market.running_total_pool,
        market.settled().running_total_pool == market.running_total_pool,
        market.closed(end).range_pool(range) == market.range_pool(range),
        market.decided(outcome).range_pool(range) == market.range_pool(range),
        market.settled().range_pool(range) == market.range_pool(range),
{
}

/// An outcome is decided at most once. After a market was decided, deciding
/// it again is refused whoever asks and whatever the selector; asked by the
/// creator, it is refused with `BetAlreadyDecided`.
pub proof fn law_outcome_decided_once(
    market: BetState,
    acting: Identity,
    outcome: u8,
    again_acting: Identity,
    again_outcome: u8,
)
    requires
        market.decide_refusal(acting, outcome) is None,
    ensures
        !market.decided(outcome).undecided(),
        market.decided(outcome).decide_refusal(again_acting, again_outcome) is Some,
        again_acting == market.creator ==> market.decided(outcome).decide_refusal(
            again_acting,
            again_outcome,
        ) == Some(ErrorCode::BetAlreadyDecided),
{
}

/// A decided outcome stays: a decided market refuses to be decided again, to
/// be closed, and to take or give back wagers, whoever asks; and the
/// operations that it accepts leave its winning range as it is.
pub proof fn law_decided_outcome_stays(
    records: WagerContextView,
    acting: Identity,
    outcome: u8,
    end: u64,
    bet_range: u8,
    lamports: u64,
    winnings_amount: u64,
)
    requires
        !records.bet_state.undecided(),
    ensures
        records.bet_state.decide_refusal(acting, outcome) is Some,
        records.bet_state.close_refusal(acting) is Some,
        records.bet_state.cancel_refusal(acting) is Some,
        records.place_refusal(bet_range, lamports) is Some,
        records.cancel_refusal() is Some,
        records.loser_closed().bet_state.winning_bet_range
            == records.bet_state.winning_bet_range,
        records.claimed(winnings_amount).bet_state.winning_bet_range
            == records.bet_state.winning_bet_range,
        records.bet_state.settled().winning_bet_range == records.bet_state.winning_bet_range,
{
}

/// A wager ends once. After it was cancelled, cleared away as a loser, or
/// paid out, its owner's account no longer lists it, and each of the three
/// operations is refused for it; cancelling or claiming it again is refused
/// with `ActiveWagerNotFound` where the market still allows the operation.
pub proof fn law_wager_ends_once(records: WagerContextView, winnings_amount: u64, again: u64)
    requires
        records.user_account.wf(),
    ensures
        records.cancel_refusal() is None ==> {
            let after = records.cancelled();
            &&& after.cancel_refusal() == Some(ErrorCode::ActiveWagerNotFound)
            &&& after.close_losing_refusal() is Some
            &&& after.claim_refusal(again) is Some
        },
        records.close_losing_refusal() is None ==> {
            let after = records.loser_closed();
            &&& after.cancel_refusal() is Some
            &&& after.close_losing_refusal() == Some(ErrorCode::ActiveWagerNotFound)
            &&& after.claim_refusal(again) == Some(ErrorCode::ActiveWagerNotFound)
        },
        records.claim_refusal(winnings_amount) is None ==> {
            let after = records.claimed(winnings_amount);
            &&& after.cancel_refusal() is Some
            &&& after.close_losing_refusal() is Some
            &&& after.claim_refusal(again) == Some(ErrorCode::ActiveWagerNotFound)
        },
{
    lemma_retiring_keeps_wf(records.user_account, records.wager_detail.key);
}

/// Placing a wager and cancelling it at once is always accepted and restores
/// the market exactly: every pool and both totals are as before. The balance
/// is restored but for the fee of the stake, so exactly when that fee is
/// zero. The list of open wagers is as before where it did not hold the
/// wager already.
pub proof fn law_place_then_cancel_restores(records: WagerContextView, bet_range: u8, lamports: u64)
    requires
        records.place_refusal(bet_range, lamports) is None,
    ensures
        records.placed(bet_range, lamports).cancel_refusal() is None,
        records.placed(bet_range, lamports).cancelled().bet_state == records.bet_state,
        records.placed(bet_range, lamports).cancelled().user_account.current_balance + fee_of(
            lamports,
        ) == records.user_account.current_balance,
        fee_of(lamports) == 0 ==> records.placed(
            bet_range,
            lamports,
        ).cancelled().user_account.current_balance == records.user_account.current_balance,
        !records.user_account.holds(records.wager_detail.key) ==> records.placed(
            bet_range,
            lamports,
        ).cancelled().user_account == (UserAccountView {
            current_balance: (records.user_account.current_balance - fee_of(lamports)) as u64,
            ..records.user_account
        }),
{
    lemma_split_bounds(lamports);
    let key = records.wager_detail.key;
    let placed = records.placed(bet_range, lamports);
    let before = records.user_account.active_wagers;
    let listed = placed.user_account.active_wagers;
    assert(listed == before.push(key));
    assert(listed[before.len() as int] == key);
    assert(listed.contains(key));
    if !before.contains(key) {
        assert forall|j: int| 0 <= j < before.len() implies listed[j] != key by {
            assert(before.contains(before[j]));
        }
        lemma_first_position(listed, key, before.len() as int);
        assert(listed.remove(before.len() as int) =~= before);
    }
}

} // verus!

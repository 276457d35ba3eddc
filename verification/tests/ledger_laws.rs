use juicy_bets::{
    cancel_wager, claim_winnings, close_bet_state, close_losing_wager, decide_bet_state_outcome,
    deposit_into_account, initialize_bet_state, place_wager, settle_bet_state, split_wager,
    withdraw_from_account, BetRange, BetState, BetStateStatus, CancelWager, ClaimWinnings,
    CloseBetState, CloseLosingWager, DecideBetState, DepositIntoAccount, ErrorCode, Identity,
    InitializeBetState, PlaceWager, SettleBetState, UserAccount, WagerDetail,
    WithdrawFromAccount,
};

fn who(n: u8) -> Identity {
    Identity::new([n; 32])
}

fn range_sum(m: &BetState) -> u128 {
    [
        m.neg_three_and_under_pool,
        m.neg_three_to_neg_two_pool,
        m.neg_two_to_neg_one_pool,
        m.neg_one_to_zero_pool,
        m.zero_to_pos_one_pool,
        m.pos_one_to_pos_two_pool,
        m.pos_two_to_pos_three_pool,
        m.pos_three_and_over_pool,
    ]
    .iter()
    .map(|p| *p as u128)
    .sum()
}

fn new_market(creator: Identity) -> BetState {
    let mut ctx = InitializeBetState { bet_state: BetState::new(who(100)), bet_creator: creator };
    assert_eq!(initialize_bet_state(&mut ctx, 1, 2, String::from("BTC"), 7), Ok(()));
    ctx.bet_state
}

fn account_with(owner: Identity, balance: u64) -> UserAccount {
    let mut account = UserAccount::new(owner);
    account.current_balance = balance;
    account
}

fn put(ctx: PlaceWager, key: u8, range: u8, gross: u64) -> (PlaceWager, WagerDetail) {
    let mut next = PlaceWager { wager_detail: WagerDetail::new(who(key)), ..ctx };
    assert_eq!(place_wager(&mut next, range, gross), Ok(()));
    let wager = next.wager_detail;
    (next, wager)
}

#[test]
fn aggregate_pool_equals_range_pools_while_undecided() {
    let creator = who(1);
    let bettor = who(2);
    let mut ctx = PlaceWager {
        bet_state: new_market(creator),
        wager_detail: WagerDetail::new(who(0)),
        user_account: account_with(bettor, 1_000_000),
        bettor_account: bettor,
    };
    assert_eq!(range_sum(&ctx.bet_state), 0);
    let mut wagers = Vec::new();
    for (i, gross) in [1u64, 102, 999, 5_000, 77, 30_000, 12, 4_321].iter().enumerate() {
        let (next, wager) = put(ctx, 10 + i as u8, i as u8, *gross);
        ctx = next;
        wagers.push(wager);
        assert_eq!(ctx.bet_state.running_total_pool as u128, range_sum(&ctx.bet_state));
        assert_eq!(ctx.bet_state.static_total_pool, ctx.bet_state.running_total_pool);
    }
    let mut cancel = CancelWager {
        bet_state: ctx.bet_state,
        wager_detail: wagers[3],
        user_account: ctx.user_account,
        bettor,
    };
    assert_eq!(cancel_wager(&mut cancel), Ok(()));
    assert_eq!(cancel.bet_state.running_total_pool as u128, range_sum(&cancel.bet_state));
    assert_eq!(cancel.bet_state.neg_one_to_zero_pool, 0);

    let mut close = CloseBetState { bet_state: cancel.bet_state, bet_creator: creator };
    assert_eq!(close_bet_state(&mut close, 9), Ok(()));
    assert_eq!(close.bet_state.running_total_pool as u128, range_sum(&close.bet_state));
}

#[test]
fn claim_shrinks_aggregate_pool_only() {
    let creator = who(1);
    let bettor = who(2);
    let ctx = PlaceWager {
        bet_state: new_market(creator),
        wager_detail: WagerDetail::new(who(0)),
        user_account: account_with(bettor, 10_000),
        bettor_account: bettor,
    };
    let (ctx, winner) = put(ctx, 10, 5, 2_040);
    let (ctx, _loser) = put(ctx, 11, 6, 1_020);
    let mut close = CloseBetState { bet_state: ctx.bet_state, bet_creator: creator };
    assert_eq!(close_bet_state(&mut close, 9), Ok(()));
    let mut decide = DecideBetState { bet_state: close.bet_state, bet_creator: creator };
    assert_eq!(decide_bet_state_outcome(&mut decide, 5), Ok(()));
    let mut claim = ClaimWinnings {
        bet_state: decide.bet_state,
        wager_detail: winner,
        user_account: ctx.user_account,
        bettor,
    };
    assert_eq!(claim_winnings(&mut claim, 3_000), Ok(()));
    assert_eq!(claim.bet_state.running_total_pool, 0);
    assert_eq!(claim.bet_state.static_total_pool, 3_000);
    assert_eq!(range_sum(&claim.bet_state), 3_000);
    assert_eq!(claim.bet_state.pos_one_to_pos_two_pool, 2_000);
    assert_eq!(claim.bet_state.pos_two_to_pos_three_pool, 1_000);
}

#[test]
fn balance_never_goes_below_zero() {
    let owner = who(3);
    let mut withdraw =
        WithdrawFromAccount { user_account: account_with(owner, 10), account_owner: owner };
    assert_eq!(withdraw_from_account(&mut withdraw, 11), Err(ErrorCode::InsufficientFunds));
    assert_eq!(withdraw.user_account.current_balance, 10);
    assert_eq!(withdraw_from_account(&mut withdraw, 10), Ok(()));
    assert_eq!(withdraw.user_account.current_balance, 0);
    assert_eq!(withdraw_from_account(&mut withdraw, 1), Err(ErrorCode::InsufficientFunds));
    assert_eq!(withdraw.user_account.current_balance, 0);

    let mut place = PlaceWager {
        bet_state: new_market(who(1)),
        wager_detail: WagerDetail::new(who(20)),
        user_account: account_with(owner, 99),
        bettor_account: owner,
    };
    let before = place.clone();
    assert_eq!(place_wager(&mut place, 0, 100), Err(ErrorCode::ArithmeticOverflow));
    assert_eq!(place, before);
    assert_eq!(place_wager(&mut place, 0, 99), Ok(()));
    assert_eq!(place.user_account.current_balance, 0);
}

#[test]
fn wager_operations_conserve_value() {
    let creator = who(1);
    let bettor = who(2);
    let total = |a: &UserAccount, m: &BetState| a.current_balance as u128 + m.running_total_pool as u128;

    let start = PlaceWager {
        bet_state: new_market(creator),
        wager_detail: WagerDetail::new(who(0)),
        user_account: account_with(bettor, 50_000),
        bettor_account: bettor,
    };
    let before = total(&start.user_account, &start.bet_state);
    let (ctx, first) = put(start, 10, 2, 1_000);
    let (_, fee) = split_wager(1_000);
    assert_eq!(fee, 20);
    assert_eq!(total(&ctx.user_account, &ctx.bet_state) + fee as u128, before);

    let after_first = total(&ctx.user_account, &ctx.bet_state);
    let (ctx, second) = put(ctx, 11, 3, 4_080);
    let (ctx, third) = put(ctx, 12, 4, 2_040);
    assert_eq!(
        total(&ctx.user_account, &ctx.bet_state) + 80 + 40,
        after_first
    );

    let placed_total = total(&ctx.user_account, &ctx.bet_state);
    let mut cancel = CancelWager {
        bet_state: ctx.bet_state,
        wager_detail: first,
        user_account: ctx.user_account,
        bettor,
    };
    assert_eq!(cancel_wager(&mut cancel), Ok(()));
    assert_eq!(total(&cancel.user_account, &cancel.bet_state), placed_total);

    let mut close = CloseBetState { bet_state: cancel.bet_state, bet_creator: creator };
    assert_eq!(close_bet_state(&mut close, 9), Ok(()));
    let mut decide = DecideBetState { bet_state: close.bet_state, bet_creator: creator };
    assert_eq!(decide_bet_state_outcome(&mut decide, 3), Ok(()));
    assert_eq!(total(&cancel.user_account, &decide.bet_state), placed_total);

    let mut lose = CloseLosingWager {
        bet_state: decide.bet_state,
        wager_detail: third,
        user_account: cancel.user_account,
        bettor,
    };
    assert_eq!(close_losing_wager(&mut lose), Ok(()));
    assert_eq!(total(&lose.user_account, &lose.bet_state), placed_total);
    assert_eq!(lose.bet_state.running_total_pool, 6_000);

    let mut claim = ClaimWinnings {
        bet_state: lose.bet_state,
        wager_detail: second,
        user_account: lose.user_account,
        bettor,
    };
    assert_eq!(claim_winnings(&mut claim, 6_000), Ok(()));
    assert_eq!(total(&claim.user_account, &claim.bet_state), placed_total);
    assert_eq!(claim.bet_state.running_total_pool, 0);
    assert_eq!(claim.user_account.current_balance, 50_000 - 20 - 80 - 40);

    let mut settle = SettleBetState { bet_state: claim.bet_state, bet_creator: creator };
    assert_eq!(settle_bet_state(&mut settle), Ok(()));
    assert_eq!(total(&claim.user_account, &settle.bet_state), placed_total);
}

#[test]
fn deposit_and_withdrawal_change_value_by_the_amount() {
    let owner = who(4);
    let mut deposit =
        DepositIntoAccount { user_account: account_with(owner, 5), account_owner: owner };
    assert_eq!(deposit_into_account(&mut deposit, 37), Ok(()));
    assert_eq!(deposit.user_account.current_balance, 42);
    let mut withdraw =
        WithdrawFromAccount { user_account: deposit.user_account, account_owner: owner };
    assert_eq!(withdraw_from_account(&mut withdraw, 40), Ok(()));
    assert_eq!(withdraw.user_account.current_balance, 2);
    assert_eq!(withdraw_from_account(&mut withdraw, 0), Ok(()));
    assert_eq!(withdraw.user_account.current_balance, 2);
}

#[test]
fn outcome_is_decided_at_most_once() {
    let creator = who(1);
    let mut close = CloseBetState { bet_state: new_market(creator), bet_creator: creator };
    assert_eq!(close_bet_state(&mut close, 9), Ok(()));
    let mut decide = DecideBetState { bet_state: close.bet_state, bet_creator: creator };
    assert_eq!(decide_bet_state_outcome(&mut decide, 6), Ok(()));
    assert_eq!(decide.bet_state.winning_bet_range, BetRange::PosTwoToPosThree);

    let decided = decide.clone();
    for outcome in [0u8, 6, 7, 8, 255] {
        assert_eq!(
            decide_bet_state_outcome(&mut decide, outcome),
            Err(ErrorCode::BetAlreadyDecided)
        );
        assert_eq!(decide, decided);
    }
    let mut stranger = DecideBetState { bet_state: decide.bet_state, bet_creator: who(9) };
    assert_eq!(decide_bet_state_outcome(&mut stranger, 0), Err(ErrorCode::NotBetCreator));
    assert_eq!(stranger.bet_state.winning_bet_range, BetRange::PosTwoToPosThree);
    assert_eq!(stranger.bet_state.status, BetStateStatus::Closed);
}

#[test]
fn place_then_cancel_restores_market_and_balance_but_for_fee() {
    let creator = who(1);
    let bettor = who(2);
    let start = PlaceWager {
        bet_state: new_market(creator),
        wager_detail: WagerDetail::new(who(0)),
        user_account: account_with(bettor, 9_000),
        bettor_account: bettor,
    };
    let (start, _) = put(start, 30, 1, 510);
    let market_before = start.bet_state.clone();
    let account_before = start.user_account.clone();

    let (placed, wager) = put(start, 31, 1, 1_000);
    assert_eq!(placed.bet_state.neg_three_to_neg_two_pool, 500 + 980);
    let mut cancel = CancelWager {
        bet_state: placed.bet_state,
        wager_detail: wager,
        user_account: placed.user_account,
        bettor,
    };
    assert_eq!(cancel_wager(&mut cancel), Ok(()));
    assert_eq!(cancel.bet_state, market_before);
    assert_eq!(cancel.user_account.active_wagers, account_before.active_wagers);
    assert_eq!(cancel.user_account.current_balance + 20, account_before.current_balance);
}

#[test]
fn place_then_cancel_of_empty_stake_restores_everything() {
    let creator = who(1);
    let bettor = who(2);
    let start = PlaceWager {
        bet_state: new_market(creator),
        wager_detail: WagerDetail::new(who(0)),
        user_account: account_with(bettor, 9_000),
        bettor_account: bettor,
    };
    let market_before = start.bet_state.clone();
    let account_before = start.user_account.clone();
    let (placed, wager) = put(start, 31, 7, 0);
    assert_eq!(wager.bet_value, 0);
    let mut cancel = CancelWager {
        bet_state: placed.bet_state,
        wager_detail: wager,
        user_account: placed.user_account,
        bettor,
    };
    assert_eq!(cancel_wager(&mut cancel), Ok(()));
    assert_eq!(cancel.bet_state, market_before);
    assert_eq!(cancel.user_account, account_before);
}

#[test]
fn wager_ends_once() {
    let creator = who(1);
    let bettor = who(2);
    let start = PlaceWager {
        bet_state: new_market(creator),
        wager_detail: WagerDetail::new(who(0)),
        user_account: account_with(bettor, 9_000),
        bettor_account: bettor,
    };
    let (ctx, first) = put(start, 40, 0, 1_020);
    let (ctx, second) = put(ctx, 41, 1, 2_040);
    let (ctx, third) = put(ctx, 42, 2, 3_060);

    let mut cancel = CancelWager {
        bet_state: ctx.bet_state,
        wager_detail: first,
        user_account: ctx.user_account,
        bettor,
    };
    assert_eq!(cancel_wager(&mut cancel), Ok(()));
    let cancelled = cancel.clone();
    assert_eq!(cancel_wager(&mut cancel), Err(ErrorCode::ActiveWagerNotFound));
    assert_eq!(cancel, cancelled);

    let mut close = CloseBetState { bet_state: cancel.bet_state, bet_creator: creator };
    assert_eq!(close_bet_state(&mut close, 9), Ok(()));
    let mut decide = DecideBetState { bet_state: close.bet_state, bet_creator: creator };
    assert_eq!(decide_bet_state_outcome(&mut decide, 1), Ok(()));

    let mut lose = CloseLosingWager {
        bet_state: decide.bet_state.clone(),
        wager_detail: third,
        user_account: cancel.user_account,
        bettor,
    };
    assert_eq!(close_losing_wager(&mut lose), Ok(()));
    assert_eq!(close_losing_wager(&mut lose), Err(ErrorCode::ActiveWagerNotFound));
    let mut claim_loser = ClaimWinnings {
        bet_state: decide.bet_state.clone(),
        wager_detail: third,
        user_account: lose.user_account.clone(),
        bettor,
    };
    assert_eq!(claim_winnings(&mut claim_loser, 1), Err(ErrorCode::ActiveWagerNotFound));
    let mut cancel_late = CancelWager {
        bet_state: decide.bet_state.clone(),
        wager_detail: first,
        user_account: lose.user_account.clone(),
        bettor,
    };
    assert_eq!(cancel_wager(&mut cancel_late), Err(ErrorCode::BetIsClosedOrSettled));

    let mut claim = ClaimWinnings {
        bet_state: decide.bet_state,
        wager_detail: second,
        user_account: lose.user_account,
        bettor,
    };
    assert_eq!(claim_winnings(&mut claim, 5_000), Ok(()));
    assert!(claim.user_account.active_wagers.is_empty());
    assert_eq!(claim_winnings(&mut claim, 0), Err(ErrorCode::ActiveWagerNotFound));
    let mut lose_winner = CloseLosingWager {
        bet_state: claim.bet_state.clone(),
        wager_detail: second,
        user_account: claim.user_account.clone(),
        bettor,
    };
    assert_eq!(close_losing_wager(&mut lose_winner), Err(ErrorCode::PleaseClaimYourWinnings));
}

#[test]
fn total_over_two_accounts_and_two_markets_is_conserved() {
    let creator = who(1);
    let alice = who(2);
    let bob = who(3);
    let mut market_a = new_market(creator);
    let mut market_b = new_market(creator);
    market_b.key = who(101);
    let mut account_a = account_with(alice, 10_000);
    let mut account_b = account_with(bob, 20_000);
    let grand = |a: &UserAccount, b: &UserAccount, m: &BetState, n: &BetState| {
        a.current_balance + b.current_balance + m.running_total_pool + n.running_total_pool
    };
    assert_eq!(grand(&account_a, &account_b, &market_a, &market_b), 30_000);

    let mut ctx = PlaceWager {
        bet_state: market_a,
        wager_detail: WagerDetail::new(who(60)),
        user_account: account_a,
        bettor_account: alice,
    };
    assert_eq!(place_wager(&mut ctx, 0, 5_100), Ok(()));
    market_a = ctx.bet_state;
    account_a = ctx.user_account;
    let wager_a = ctx.wager_detail;
    assert_eq!(wager_a.bet_state, who(100));
    assert_eq!(grand(&account_a, &account_b, &market_a, &market_b), 30_000 - 100);

    let mut ctx = PlaceWager {
        bet_state: market_b,
        wager_detail: WagerDetail::new(who(61)),
        user_account: account_b,
        bettor_account: bob,
    };
    assert_eq!(place_wager(&mut ctx, 7, 10_200), Ok(()));
    market_b = ctx.bet_state;
    account_b = ctx.user_account;
    assert_eq!(ctx.wager_detail.bet_state, who(101));
    assert_eq!(grand(&account_a, &account_b, &market_a, &market_b), 30_000 - 100 - 200);

    let mut cancel = CancelWager {
        bet_state: market_a,
        wager_detail: wager_a,
        user_account: account_a,
        bettor: alice,
    };
    assert_eq!(cancel_wager(&mut cancel), Ok(()));
    assert_eq!(
        grand(&cancel.user_account, &account_b, &cancel.bet_state, &market_b),
        30_000 - 100 - 200
    );
    assert_eq!(cancel.user_account.current_balance, 9_900);
    assert_eq!(account_b.current_balance, 9_800);
    assert_eq!(market_b.running_total_pool, 10_000);
    assert_eq!(market_b.pos_three_and_over_pool, 10_000);
}

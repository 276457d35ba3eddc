use juicy_bets::{
    cancel_wager, claim_winnings, close_bet_state, decide_bet_state_outcome,
    deposit_into_account, initialize_bet_state, initialize_user_account, place_wager,
    settle_bet_state, BetRange, BetState, BetStateStatus, CancelWager, ClaimWinnings,
    CloseBetState, DecideBetState, DepositIntoAccount, ErrorCode, Identity,
    InitializeBetState, InitializeUserAccount, PlaceWager, SettleBetState, UserAccount,
    WagerDetail,
};

fn party(n: u8) -> Identity {
    Identity::new([n; 32])
}

fn open_market(key: Identity, creator: Identity) -> BetState {
    let mut ctx = InitializeBetState { bet_state: BetState::new(key), bet_creator: creator };
    assert_eq!(initialize_bet_state(&mut ctx, 100, 50, String::from("SOL"), 2_500), Ok(()));
    ctx.bet_state
}

fn funded_account(owner: Identity, balance: u64) -> UserAccount {
    let mut open = InitializeUserAccount { user_account: UserAccount::new(party(0)), account_owner: owner };
    assert_eq!(initialize_user_account(&mut open), Ok(()));
    let mut deposit = DepositIntoAccount { user_account: open.user_account, account_owner: owner };
    assert_eq!(deposit_into_account(&mut deposit, balance), Ok(()));
    deposit.user_account
}

fn place(
    market: BetState,
    account: UserAccount,
    wager_key: Identity,
    bettor: Identity,
    range: u8,
    gross: u64,
) -> (Result<(), ErrorCode>, PlaceWager) {
    let mut ctx = PlaceWager {
        bet_state: market,
        wager_detail: WagerDetail::new(wager_key),
        user_account: account,
        bettor_account: bettor,
    };
    let r = place_wager(&mut ctx, range, gross);
    (r, ctx)
}

fn close_and_decide(market: BetState, creator: Identity, outcome: u8) -> BetState {
    let mut close = CloseBetState { bet_state: market, bet_creator: creator };
    assert_eq!(close_bet_state(&mut close, 175), Ok(()));
    let mut decide = DecideBetState { bet_state: close.bet_state, bet_creator: creator };
    assert_eq!(decide_bet_state_outcome(&mut decide, outcome), Ok(()));
    decide.bet_state
}

#[test]
fn place_splits_stake_into_wager_and_fee() {
    let creator = party(1);
    let bettor = party(2);
    let market = open_market(party(10), creator);
    assert_eq!(market.running_total_pool, 0);
    assert_eq!(market.static_total_pool, 0);
    let account = funded_account(bettor, 5_000);

    let (r, ctx) = place(market, account, party(20), bettor, 3, 1_000);
    assert_eq!(r, Ok(()));
    assert_eq!(ctx.bet_state.neg_one_to_zero_pool, 980);
    assert_eq!(ctx.bet_state.running_total_pool, 980);
    assert_eq!(ctx.bet_state.static_total_pool, 980);
    assert_eq!(ctx.bet_state.neg_three_and_under_pool, 0);
    assert_eq!(ctx.bet_state.pos_three_and_over_pool, 0);
    assert_eq!(ctx.user_account.current_balance, 4_000);
    assert_eq!(ctx.user_account.active_wagers, vec![party(20)]);
    assert_eq!(
        ctx.wager_detail,
        WagerDetail {
            key: party(20),
            bettor,
            bet_state: party(10),
            range_status: BetRange::NegOneToZero,
            bet_value: 980,
        }
    );
}

#[test]
fn cancel_first_of_two_wagers() {
    let creator = party(1);
    let bettor = party(2);
    let market = open_market(party(10), creator);
    let account = funded_account(bettor, 5_000);

    let (r1, first) = place(market, account, party(20), bettor, 0, 612);
    assert_eq!(r1, Ok(()));
    assert_eq!(first.wager_detail.bet_value, 600);
    let (r2, second) =
        place(first.bet_state, first.user_account, party(21), bettor, 7, 408);
    assert_eq!(r2, Ok(()));
    assert_eq!(second.wager_detail.bet_value, 400);
    assert_eq!(second.bet_state.running_total_pool, 1_000);
    assert_eq!(second.bet_state.neg_three_and_under_pool, 600);
    assert_eq!(second.bet_state.pos_three_and_over_pool, 400);
    assert_eq!(second.user_account.current_balance, 5_000 - 612 - 408);

    let mut cancel = CancelWager {
        bet_state: second.bet_state,
        wager_detail: first.wager_detail,
        user_account: second.user_account,
        bettor,
    };
    assert_eq!(cancel_wager(&mut cancel), Ok(()));
    assert_eq!(cancel.bet_state.running_total_pool, 400);
    assert_eq!(cancel.bet_state.static_total_pool, 400);
    assert_eq!(cancel.bet_state.neg_three_and_under_pool, 0);
    assert_eq!(cancel.bet_state.pos_three_and_over_pool, 400);
    assert_eq!(cancel.user_account.active_wagers, vec![party(21)]);
    assert_eq!(cancel.user_account.current_balance, 5_000 - 612 - 408 + 600);
}

#[test]
fn claim_pays_winner_once() {
    let creator = party(1);
    let bettor = party(2);
    let market = open_market(party(10), creator);
    let account = funded_account(bettor, 5_000);
    let (r, placed) = place(market, account, party(20), bettor, 4, 1_020);
    assert_eq!(r, Ok(()));
    assert_eq!(placed.bet_state.running_total_pool, 1_000);
    let balance_before = placed.user_account.current_balance;

    let decided = close_and_decide(placed.bet_state, creator, 4);
    assert_eq!(decided.winning_bet_range, BetRange::ZeroToPosOne);

    let mut claim = ClaimWinnings {
        bet_state: decided,
        wager_detail: placed.wager_detail,
        user_account: placed.user_account,
        bettor,
    };
    assert_eq!(claim_winnings(&mut claim, 700), Ok(()));
    assert_eq!(claim.bet_state.running_total_pool, 300);
    assert_eq!(claim.bet_state.static_total_pool, 1_000);
    assert_eq!(claim.bet_state.zero_to_pos_one_pool, 1_000);
    assert_eq!(claim.user_account.current_balance, balance_before + 700);
    assert!(claim.user_account.active_wagers.is_empty());

    let after_first = claim.clone();
    assert_eq!(claim_winnings(&mut claim, 100), Err(ErrorCode::ActiveWagerNotFound));
    assert_eq!(claim, after_first);
}

#[test]
fn place_on_closed_market_is_refused() {
    let creator = party(1);
    let bettor = party(2);
    let market = open_market(party(10), creator);
    let mut close = CloseBetState { bet_state: market, bet_creator: creator };
    assert_eq!(close_bet_state(&mut close, 150), Ok(()));
    assert_eq!(close.bet_state.status, BetStateStatus::Closed);
    let account = funded_account(bettor, 5_000);

    let mut ctx = PlaceWager {
        bet_state: close.bet_state,
        wager_detail: WagerDetail::new(party(20)),
        user_account: account,
        bettor_account: bettor,
    };
    let before = ctx.clone();
    assert_eq!(place_wager(&mut ctx, 2, 1_000), Err(ErrorCode::BetIsClosedOrSettled));
    assert_eq!(ctx, before);
    assert_eq!(ctx.user_account.current_balance, 5_000);
    assert_eq!(ctx.bet_state.running_total_pool, 0);
}

#[test]
fn settle_with_funds_in_pool_is_refused() {
    let creator = party(1);
    let bettor = party(2);
    let market = open_market(party(10), creator);
    let account = funded_account(bettor, 5_000);
    let (r, placed) = place(market, account, party(20), bettor, 1, 510);
    assert_eq!(r, Ok(()));
    let decided = close_and_decide(placed.bet_state, creator, 1);
    assert_eq!(decided.running_total_pool, 500);

    let mut settle = SettleBetState { bet_state: decided, bet_creator: creator };
    let before = settle.clone();
    assert_eq!(settle_bet_state(&mut settle), Err(ErrorCode::FundsStillInPlay));
    assert_eq!(settle, before);
    assert_eq!(settle.bet_state.status, BetStateStatus::Closed);

    let mut claim = ClaimWinnings {
        bet_state: settle.bet_state,
        wager_detail: placed.wager_detail,
        user_account: placed.user_account,
        bettor,
    };
    assert_eq!(claim_winnings(&mut claim, 500), Ok(()));
    let mut settle = SettleBetState { bet_state: claim.bet_state, bet_creator: creator };
    assert_eq!(settle_bet_state(&mut settle), Ok(()));
    assert_eq!(settle.bet_state.status, BetStateStatus::Settled);
    assert_eq!(settle.bet_state.running_total_pool, 0);
}

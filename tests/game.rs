use piverse::emergency::{emergency_withdraw_jackpot, EmergencyWithdraw};
use piverse::game::{initialize_game, resolve_game, submit_attempt, InitializeGame, ResolveGame, SubmitAttempt};
use piverse::transfer::transfer;
use piverse::types::{FundAccount, GameError, GameState, MarketStatus, Pubkey};

fn key(n: u8) -> Pubkey {
    Pubkey { bytes: [n; 32] }
}

fn account(n: u8, lamports: u64) -> FundAccount {
    FundAccount { key: key(n), lamports }
}

const AUTHORITY: u8 = 1;
const GHOST: u8 = 2;
const DEV: u8 = 3;
const USER: u8 = 4;
const VAULT: u8 = 5;
const WINNER: u8 = 6;

fn fresh_game(price: u64) -> GameState {
    let mut ctx = InitializeGame { game_state: None, authority: key(AUTHORITY) };
    initialize_game(&mut ctx, 7, 3600, price, key(GHOST), key(DEV), 1000).unwrap();
    ctx.game_state.unwrap()
}

fn attempt_ctx(game: GameState, user_lamports: u64) -> SubmitAttempt {
    SubmitAttempt {
        game_state: game,
        user: account(USER, user_lamports),
        game_vault: account(VAULT, 0),
        dev_wallet: account(DEV, 0),
    }
}

#[test]
fn initialize_sets_fresh_record() {
    let g = fresh_game(100);
    assert_eq!(g.game_id, 7);
    assert_eq!(g.authority, key(AUTHORITY));
    assert_eq!(g.ghost_key, key(GHOST));
    assert_eq!(g.dev_wallet, key(DEV));
    assert_eq!(g.jackpot, 0);
    assert_eq!(g.total_attempts, 0);
    assert!(g.is_active);
    assert_eq!(g.winner, None);
    assert_eq!(g.start_time, 1000);
    assert_eq!(g.end_time, 4600);
    assert_eq!(g.attempt_price, 100);
    assert_eq!(g.pool_fail, 0);
    assert_eq!(g.pool_breach, 0);
    assert_eq!(g.market_status, MarketStatus::Active);
}

#[test]
fn initialize_existing_game_is_duplicate() {
    let existing = fresh_game(100);
    let mut ctx = InitializeGame { game_state: Some(existing), authority: key(AUTHORITY) };
    let before = ctx;
    assert_eq!(
        initialize_game(&mut ctx, 8, 10, 5, key(GHOST), key(DEV), 0),
        Err(GameError::DuplicateRecord)
    );
    assert_eq!(ctx, before);
}

#[test]
fn initialize_end_time_overflow() {
    let mut ctx = InitializeGame { game_state: None, authority: key(AUTHORITY) };
    assert_eq!(
        initialize_game(&mut ctx, 1, i64::MAX, 5, key(GHOST), key(DEV), 1),
        Err(GameError::ArithmeticOverflow)
    );
    assert!(ctx.game_state.is_none());
}

#[test]
fn attempt_at_price_100_splits_fee() {
    let mut ctx = attempt_ctx(fresh_game(100), 1000);
    let ev = submit_attempt(&mut ctx, String::from("abc"), 1500).unwrap();
    assert_eq!(ctx.dev_wallet.lamports, 20);
    assert_eq!(ctx.game_vault.lamports, 80);
    assert_eq!(ctx.user.lamports, 900);
    assert_eq!(ctx.game_state.jackpot, 80);
    assert_eq!(ctx.game_state.total_attempts, 1);
    assert_eq!(ev.user, key(USER));
    assert_eq!(ev.message_hash, "abc");
    assert_eq!(ev.timestamp, 1500);
    assert_eq!(ev.attempt_number, 1);
    assert_eq!(ev.price, 100);
}

#[test]
fn attempt_remainder_goes_to_jackpot() {
    let mut ctx = attempt_ctx(fresh_game(101), 1000);
    submit_attempt(&mut ctx, String::new(), 1500).unwrap();
    assert_eq!(ctx.dev_wallet.lamports, 21);
    assert_eq!(ctx.game_vault.lamports, 80);
    assert_eq!(ctx.game_state.jackpot, 80);
    assert_eq!(ctx.user.lamports, 899);
}

#[test]
fn jackpot_rounds_four_fifths_down() {
    let mut ctx = attempt_ctx(fresh_game(7), 1000);
    submit_attempt(&mut ctx, String::new(), 1500).unwrap();
    submit_attempt(&mut ctx, String::new(), 1500).unwrap();
    assert_eq!(ctx.game_state.jackpot, 10);
    assert_eq!(ctx.dev_wallet.lamports, 4);
    assert_eq!(ctx.game_vault.lamports, 10);
}

#[test]
fn attempt_at_huge_price_does_not_overflow() {
    let price = u64::MAX;
    let mut ctx = attempt_ctx(fresh_game(price), u64::MAX);
    submit_attempt(&mut ctx, String::new(), 1500).unwrap();
    assert_eq!(ctx.dev_wallet.lamports, u64::MAX / 5);
    assert_eq!(ctx.game_state.jackpot, u64::MAX - u64::MAX / 5);
    assert_eq!(ctx.user.lamports, 0);
}

#[test]
fn jackpot_counts_attempts_and_drains() {
    let mut ctx = attempt_ctx(fresh_game(100), 10_000);
    for _ in 0..3 {
        submit_attempt(&mut ctx, String::from("h"), 2000).unwrap();
    }
    assert_eq!(ctx.game_state.jackpot, 240);
    assert_eq!(ctx.game_state.total_attempts, 3);
    let mut drain = EmergencyWithdraw {
        game_state: ctx.game_state,
        ghost_account: account(GHOST, 0),
        game_vault: ctx.game_vault,
    };
    emergency_withdraw_jackpot(&mut drain).unwrap();
    assert_eq!(drain.game_state.jackpot, 0);
    assert_eq!(drain.ghost_account.lamports, 240);
    assert_eq!(drain.game_vault.lamports, 0);
    ctx.game_state = drain.game_state;
    ctx.game_vault = drain.game_vault;
    submit_attempt(&mut ctx, String::from("h"), 2000).unwrap();
    assert_eq!(ctx.game_state.jackpot, 80);
    assert_eq!(ctx.game_state.total_attempts, 4);
}

#[test]
fn attempt_on_ended_game() {
    let mut g = fresh_game(100);
    g.is_active = false;
    let mut ctx = attempt_ctx(g, 1000);
    let before = ctx;
    assert_eq!(submit_attempt(&mut ctx, String::new(), 1500).unwrap_err(), GameError::GameEnded);
    assert_eq!(ctx, before);
}

#[test]
fn attempt_at_end_time_is_expired() {
    let mut ctx = attempt_ctx(fresh_game(100), 1000);
    let before = ctx;
    assert_eq!(submit_attempt(&mut ctx, String::new(), 4600).unwrap_err(), GameError::GameExpired);
    assert_eq!(ctx, before);
}

#[test]
fn attempt_rolls_back_when_second_transfer_fails() {
    let mut ctx = attempt_ctx(fresh_game(100), 90);
    let before = ctx;
    assert_eq!(submit_attempt(&mut ctx, String::new(), 1500).unwrap_err(), GameError::InsufficientFunds);
    assert_eq!(ctx, before);
}

#[test]
fn attempt_jackpot_overflow_rolls_back() {
    let mut g = fresh_game(100);
    g.jackpot = u64::MAX - 10;
    let mut ctx = attempt_ctx(g, 1000);
    let before = ctx;
    assert_eq!(submit_attempt(&mut ctx, String::new(), 1500).unwrap_err(), GameError::ArithmeticOverflow);
    assert_eq!(ctx, before);
}

fn resolve_ctx(game: GameState, signer: u8) -> ResolveGame {
    ResolveGame {
        game_state: game,
        signer: key(signer),
        winner: account(WINNER, 5),
        game_vault: account(VAULT, 400),
    }
}

#[test]
fn resolve_breached_pays_winner() {
    let mut g = fresh_game(100);
    g.jackpot = 400;
    let mut ctx = resolve_ctx(g, AUTHORITY);
    let ev = resolve_game(&mut ctx, MarketStatus::Breached, Some(key(WINNER))).unwrap();
    assert_eq!(ctx.winner.lamports, 405);
    assert_eq!(ctx.game_vault.lamports, 0);
    assert_eq!(ctx.game_state.winner, Some(key(WINNER)));
    assert_eq!(ctx.game_state.market_status, MarketStatus::Breached);
    assert!(!ctx.game_state.is_active);
    assert_eq!(ev.winner, Some(key(WINNER)));
    assert_eq!(ev.amount, 400);
    assert_eq!(ev.outcome, MarketStatus::Breached);
}

#[test]
fn resolve_failed_by_ghost_keeps_vault() {
    let mut ctx = resolve_ctx(fresh_game(100), GHOST);
    let ev = resolve_game(&mut ctx, MarketStatus::Failed, None).unwrap();
    assert_eq!(ctx.game_vault.lamports, 400);
    assert_eq!(ctx.winner.lamports, 5);
    assert_eq!(ctx.game_state.market_status, MarketStatus::Failed);
    assert!(!ctx.game_state.is_active);
    assert_eq!(ctx.game_state.winner, None);
    assert_eq!(ev.winner, None);
    assert_eq!(ev.outcome, MarketStatus::Failed);
}

#[test]
fn resolve_breached_without_winner() {
    let mut ctx = resolve_ctx(fresh_game(100), AUTHORITY);
    let before = ctx;
    assert_eq!(resolve_game(&mut ctx, MarketStatus::Breached, None), Err(GameError::WinnerRequired));
    assert_eq!(ctx, before);
}

#[test]
fn resolve_with_other_winner_account() {
    let mut ctx = resolve_ctx(fresh_game(100), AUTHORITY);
    let before = ctx;
    assert_eq!(
        resolve_game(&mut ctx, MarketStatus::Breached, Some(key(USER))),
        Err(GameError::InvalidWinnerAccount)
    );
    assert_eq!(ctx, before);
}

#[test]
fn resolve_to_active_is_invalid() {
    let mut ctx = resolve_ctx(fresh_game(100), AUTHORITY);
    let before = ctx;
    assert_eq!(resolve_game(&mut ctx, MarketStatus::Active, None), Err(GameError::InvalidOutcome));
    assert_eq!(ctx, before);
}

#[test]
fn resolve_by_stranger_is_unauthorized() {
    let mut ctx = resolve_ctx(fresh_game(100), USER);
    let before = ctx;
    assert_eq!(resolve_game(&mut ctx, MarketStatus::Failed, None), Err(GameError::Unauthorized));
    assert_eq!(ctx, before);
}

#[test]
fn resolve_settles_only_once() {
    let mut ctx = resolve_ctx(fresh_game(100), AUTHORITY);
    resolve_game(&mut ctx, MarketStatus::Failed, None).unwrap();
    let before = ctx;
    assert_eq!(
        resolve_game(&mut ctx, MarketStatus::Breached, Some(key(WINNER))),
        Err(GameError::GameEnded)
    );
    assert_eq!(ctx, before);
    assert_eq!(ctx.game_state.market_status, MarketStatus::Failed);
}

#[test]
fn resolve_settled_market_flagged_active() {
    let mut g = fresh_game(100);
    g.market_status = MarketStatus::Failed;
    let mut ctx = resolve_ctx(g, AUTHORITY);
    let before = ctx;
    assert_eq!(
        resolve_game(&mut ctx, MarketStatus::Breached, Some(key(WINNER))),
        Err(GameError::GameEnded)
    );
    assert_eq!(ctx, before);
}

#[test]
fn resolve_winner_balance_overflow() {
    let mut ctx = resolve_ctx(fresh_game(100), AUTHORITY);
    ctx.winner.lamports = u64::MAX;
    let before = ctx;
    assert_eq!(
        resolve_game(&mut ctx, MarketStatus::Breached, Some(key(WINNER))),
        Err(GameError::ArithmeticOverflow)
    );
    assert_eq!(ctx, before);
}

#[test]
fn drain_jackpot_requires_ghost() {
    let mut g = fresh_game(100);
    g.jackpot = 80;
    let mut ctx = EmergencyWithdraw {
        game_state: g,
        ghost_account: account(AUTHORITY, 0),
        game_vault: account(VAULT, 80),
    };
    let before = ctx;
    assert_eq!(emergency_withdraw_jackpot(&mut ctx), Err(GameError::Unauthorized));
    assert_eq!(ctx, before);
}

#[test]
fn drain_jackpot_after_resolution() {
    let mut g = fresh_game(100);
    g.jackpot = 80;
    g.is_active = false;
    g.market_status = MarketStatus::Failed;
    let mut ctx = EmergencyWithdraw {
        game_state: g,
        ghost_account: account(GHOST, 1),
        game_vault: account(VAULT, 80),
    };
    emergency_withdraw_jackpot(&mut ctx).unwrap();
    assert_eq!(ctx.ghost_account.lamports, 81);
    assert_eq!(ctx.game_vault.lamports, 0);
    assert_eq!(ctx.game_state.jackpot, 0);
    assert_eq!(ctx.game_state.market_status, MarketStatus::Failed);
}

#[test]
fn transfer_moves_exact_amount() {
    let mut a = account(USER, 50);
    let mut b = account(DEV, 7);
    transfer(&mut a, &mut b, 30).unwrap();
    assert_eq!(a.lamports, 20);
    assert_eq!(b.lamports, 37);
}

#[test]
fn transfer_refuses_insufficient_funds() {
    let mut a = account(USER, 29);
    let mut b = account(DEV, 7);
    assert_eq!(transfer(&mut a, &mut b, 30), Err(GameError::InsufficientFunds));
    assert_eq!(a.lamports, 29);
    assert_eq!(b.lamports, 7);
}

#[test]
fn transfer_refuses_overflow() {
    let mut a = account(USER, 30);
    let mut b = account(DEV, u64::MAX - 1);
    assert_eq!(transfer(&mut a, &mut b, 2), Err(GameError::ArithmeticOverflow));
    assert_eq!(a.lamports, 30);
    assert_eq!(b.lamports, u64::MAX - 1);
}

#[test]
fn keys_compare_by_all_bytes() {
    let a = key(9);
    let mut b = key(9);
    assert_eq!(a, b);
    b.bytes[31] = 0;
    assert_ne!(a, b);
}

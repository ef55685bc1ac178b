use vstd::prelude::*;
use crate::types::{
    AttemptEvent, FundAccount, GameError, GameResolvedEvent, GameState, MarketStatus, Pubkey,
};
use crate::transition::{allowed, apply, jackpot_share, treasury_share, GameStep};
use crate::transfer::{drain, transfer, transfer_outcome};

verus! {

/// The records that creating a game touches: the game's slot, empty until
/// created, and the creator's identity.
#[derive(Clone, Copy, Debug, PartialEq, Eq)]
pub struct InitializeGame {
    pub game_state: Option<GameState>,
    pub authority: Pubkey,
}

/// The records that an attempt touches.
#[derive(Clone, Copy, Debug, PartialEq, Eq)]
pub struct SubmitAttempt {
    pub game_state: GameState,
    pub user: FundAccount,
    pub game_vault: FundAccount,
    pub dev_wallet: FundAccount,
}

/// The records that a resolution touches.
#[derive(Clone, Copy, Debug, PartialEq, Eq)]
pub struct ResolveGame {
    pub game_state: GameState,
    pub signer: Pubkey,
    pub winner: FundAccount,
    pub game_vault: FundAccount,
}

/// A fresh game record.
pub open spec fn new_game(
    game_id: u64,
    authority: Pubkey,
    duration_seconds: i64,
    attempt_price: u64,
    ghost_key: Pubkey,
    dev_wallet: Pubkey,
    now: i64,
) -> GameState {
    GameState {
        game_id,
        authority,
        ghost_key,
        dev_wallet,
        jackpot: 0,
        total_attempts: 0,
        is_active: true,
        winner: None,
        start_time: now,
        end_time: (now + duration_seconds) as i64,
        attempt_price,
        pool_fail: 0,
        pool_breach: 0,
        market_status: MarketStatus::Active,
    }
}

/// The records after creating a game, or the reason it is refused.
pub open spec fn initialize_outcome(
    c: InitializeGame,
    game_id: u64,
    duration_seconds: i64,
    attempt_price: u64,
    ghost_key: Pubkey,
    dev_wallet: Pubkey,
    now: i64,
) -> Result<InitializeGame, GameError> {
    if c.game_state is Some {
        Err(GameError::DuplicateRecord)
    } else if now + duration_seconds < i64::MIN || now + duration_seconds > i64::MAX {
        Err(GameError::ArithmeticOverflow)
    } else {
        Ok(
            InitializeGame {
                game_state: Some(
                    new_game(
                        game_id,
                        c.authority,
                        duration_seconds,
                        attempt_price,
                        ghost_key,
                        dev_wallet,
                        now,
                    ),
                ),
                authority: c.authority,
            },
        )
    }
}

/// Creates game `game_id` in the empty slot of `ctx`, open from `now` for
/// `duration_seconds`.
pub fn initialize_game(
    ctx: &mut InitializeGame,
    game_id: u64,
    duration_seconds: i64,
    attempt_price: u64,
    ghost_key: Pubkey,
    dev_wallet: Pubkey,
    now: i64,
) -> (r: Result<(), GameError>)
    ensures
        match initialize_outcome(
            *old(ctx),
            game_id,
            duration_seconds,
            attempt_price,
            ghost_key,
            dev_wallet,
            now,
        ) {
            Ok(c) => r is Ok && *final(ctx) == c,
            Err(e) => r == Err::<(), GameError>(e) && *final(ctx) == *old(ctx),
        },
{
    if ctx.game_state.is_some() {
        return Err(GameError::DuplicateRecord);
    }
    let end_time = match now.checked_add(duration_seconds) {
        None => return Err(GameError::ArithmeticOverflow),
        Some(t) => t,
    };
    ctx.game_state = Some(
        GameState {
            game_id,
            authority: ctx.authority,
            ghost_key,
            dev_wallet,
            jackpot: 0,
            total_attempts: 0,
            is_active: true,
            winner: None,
            start_time: now,
            end_time,
            attempt_price,
            pool_fail: 0,
            pool_breach: 0,
            market_status: MarketStatus::Active,
        },
    );
    Ok(())
}

/// The records after an attempt at time `now`, or the reason it is refused.
pub open spec fn attempt_outcome(c: SubmitAttempt, now: i64) -> Result<SubmitAttempt, GameError> {
    let g = c.game_state;
    if !g.is_active {
        Err(GameError::GameEnded)
    } else if now >= g.end_time {
        Err(GameError::GameExpired)
    } else {
        match transfer_outcome(c.user, c.dev_wallet, treasury_share(g.attempt_price)) {
            Err(e) => Err(e),
            Ok((user, dev_wallet)) => match transfer_outcome(
                user,
                c.game_vault,
                jackpot_share(g.attempt_price),
            ) {
                Err(e) => Err(e),
                Ok((user, game_vault)) => if !allowed(g, GameStep::Attempt) {
                    Err(GameError::ArithmeticOverflow)
                } else {
                    Ok(
                        SubmitAttempt {
                            game_state: apply(g, GameStep::Attempt),
                            user,
                            game_vault,
                            dev_wallet,
                        },
                    )
                },
            },
        }
    }
}

/// Pays for one attempt: four fifths of the price, rounded down, into the game
/// vault and the jackpot, the rest to the developer wallet.
pub fn submit_attempt(ctx: &mut SubmitAttempt, message_hash: String, now: i64) -> (r: Result<
    AttemptEvent,
    GameError,
>)
    ensures
        match attempt_outcome(*old(ctx), now) {
            Ok(c) => *final(ctx) == c && match r {
                Ok(ev) => ev.user == c.user.key && ev.message_hash@ == message_hash@
                    && ev.timestamp == now && ev.attempt_number == c.game_state.total_attempts
                    && ev.price == c.game_state.attempt_price,
                Err(_) => false,
            },
            Err(e) => r is Err && r->Err_0 == e && *final(ctx) == *old(ctx),
        },
{
    if !ctx.game_state.is_active {
        return Err(GameError::GameEnded);
    }
    if now >= ctx.game_state.end_time {
        return Err(GameError::GameExpired);
    }
    let price = ctx.game_state.attempt_price;
    let share = price / 5 * 4 + price % 5 * 4 / 5;
    assert(share == jackpot_share(price)) by (nonlinear_arith)
        requires
            share == price / 5 * 4 + price % 5 * 4 / 5,
    ;
    let treasury = price - share;
    let saved = *ctx;
    match transfer(&mut ctx.user, &mut ctx.dev_wallet, treasury) {
        Err(e) => return Err(e),
        Ok(()) => {},
    }
    match transfer(&mut ctx.user, &mut ctx.game_vault, share) {
        Err(e) => {
            *ctx = saved;
            return Err(e);
        },
        Ok(()) => {},
    }
    let jackpot = match ctx.game_state.jackpot.checked_add(share) {
        None => {
            *ctx = saved;
            return Err(GameError::ArithmeticOverflow);
        },
        Some(j) => j,
    };
    let attempts = match ctx.game_state.total_attempts.checked_add(1) {
        None => {
            *ctx = saved;
            return Err(GameError::ArithmeticOverflow);
        },
        Some(n) => n,
    };
    ctx.game_state.jackpot = jackpot;
    ctx.game_state.total_attempts = attempts;
    Ok(
        AttemptEvent {
            user: ctx.user.key,
            message_hash,
            timestamp: now,
            attempt_number: attempts,
            price,
        },
    )
}

/// The records after resolving to `outcome` with `winner`, or the reason it is
/// refused.
pub open spec fn resolve_outcome(c: ResolveGame, outcome: MarketStatus, winner: Option<Pubkey>) -> Result<
    ResolveGame,
    GameError,
> {
    let g = c.game_state;
    if c.signer != g.authority && c.signer != g.ghost_key {
        Err(GameError::Unauthorized)
    } else if !g.is_active || g.market_status != MarketStatus::Active {
        Err(GameError::GameEnded)
    } else {
        match outcome {
            MarketStatus::Active => Err(GameError::InvalidOutcome),
            MarketStatus::Failed => Ok(
                ResolveGame { game_state: apply(g, GameStep::Resolve(outcome, winner)), ..c },
            ),
            MarketStatus::Breached => match winner {
                None => Err(GameError::WinnerRequired),
                Some(w) => if w != c.winner.key {
                    Err(GameError::InvalidWinnerAccount)
                } else {
                    match transfer_outcome(c.game_vault, c.winner, c.game_vault.lamports as int) {
                        Err(e) => Err(e),
                        Ok((game_vault, winner_account)) => Ok(
                            ResolveGame {
                                game_state: apply(g, GameStep::Resolve(outcome, winner)),
                                signer: c.signer,
                                winner: winner_account,
                                game_vault,
                            },
                        ),
                    }
                },
            },
        }
    }
}

/// Settles an open game whose market is still active, by its authority or its
/// ghost key: on `Breached` the whole
/// game vault goes to `winner`, on `Failed` it stays where it is.
pub fn resolve_game(ctx: &mut ResolveGame, outcome: MarketStatus, winner: Option<Pubkey>) -> (r: Result<
    GameResolvedEvent,
    GameError,
>)
    ensures
        match resolve_outcome(*old(ctx), outcome, winner) {
            Ok(c) => *final(ctx) == c && r == Ok::<GameResolvedEvent, GameError>(
                GameResolvedEvent {
                    winner: c.game_state.winner,
                    amount: c.game_state.jackpot,
                    outcome,
                },
            ),
            Err(e) => r == Err::<GameResolvedEvent, GameError>(e) && *final(ctx) == *old(ctx),
        },
{
    if !(ctx.signer == ctx.game_state.authority) && !(ctx.signer == ctx.game_state.ghost_key) {
        return Err(GameError::Unauthorized);
    }
    if !ctx.game_state.is_active || ctx.game_state.market_status != MarketStatus::Active {
        return Err(GameError::GameEnded);
    }
    match outcome {
        MarketStatus::Active => return Err(GameError::InvalidOutcome),
        MarketStatus::Failed => {
            ctx.game_state.market_status = MarketStatus::Failed;
        },
        MarketStatus::Breached => {
            let w = match winner {
                None => return Err(GameError::WinnerRequired),
                Some(w) => w,
            };
            if !(w == ctx.winner.key) {
                return Err(GameError::InvalidWinnerAccount);
            }
            match drain(&mut ctx.game_vault, &mut ctx.winner) {
                Err(e) => return Err(e),
                Ok(()) => {},
            }
            ctx.game_state.winner = Some(w);
            ctx.game_state.market_status = MarketStatus::Breached;
        },
    }
    ctx.game_state.is_active = false;
    Ok(
        GameResolvedEvent {
            winner: ctx.game_state.winner,
            amount: ctx.game_state.jackpot,
            outcome: ctx.game_state.market_status,
        },
    )
}

} // verus!

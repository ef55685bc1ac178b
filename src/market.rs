use vstd::prelude::*;
use vstd::arithmetic::div_mod::{
    lemma_div_is_ordered, lemma_div_is_ordered_by_denominator, lemma_fundamental_div_mod,
    lemma_fundamental_div_mod_converse, lemma_div_multiples_vanish,
};
use vstd::arithmetic::mul::lemma_mul_upper_bound;
use crate::types::{
    side_pool, wins, FundAccount, GameError, GameState, MarketStatus, Prediction,
    PredictionPlacedEvent, PredictionSide,
};
use crate::transition::{allowed, apply, GameStep};
use crate::transfer::{transfer, transfer_outcome};

verus! {

/// The records that placing a prediction touches: the user's slot for this
/// game, empty until a prediction is placed, among them.
#[derive(Clone, Copy, Debug, PartialEq, Eq)]
pub struct PlacePrediction {
    pub game_state: GameState,
    pub prediction: Option<Prediction>,
    pub user: FundAccount,
    pub market_vault: FundAccount,
}

/// The records that a claim touches.
#[derive(Clone, Copy, Debug, PartialEq, Eq)]
pub struct ClaimWinnings {
    pub game_state: GameState,
    pub prediction: Prediction,
    pub user: FundAccount,
    pub market_vault: FundAccount,
}

/// A winner's share of the whole pool: its stake times the total pool over the
/// winning side's pool, rounded down; nothing when the winning side staked
/// nothing.
pub open spec fn payout(amount: int, total_pool: int, winning_pool: int) -> int {
    if winning_pool == 0 {
        0
    } else {
        amount * total_pool / winning_pool
    }
}

/// The records after staking `amount` on `side` at time `now`, or the reason it
/// is refused.
pub open spec fn place_outcome(c: PlacePrediction, side: PredictionSide, amount: u64, now: i64) -> Result<
    PlacePrediction,
    GameError,
> {
    let g = c.game_state;
    if c.prediction is Some {
        Err(GameError::DuplicateRecord)
    } else if !g.is_active {
        Err(GameError::GameEnded)
    } else if now >= g.end_time {
        Err(GameError::GameExpired)
    } else {
        match transfer_outcome(c.user, c.market_vault, amount as int) {
            Err(e) => Err(e),
            Ok((user, market_vault)) => if !allowed(g, GameStep::Stake(side, amount)) {
                Err(GameError::ArithmeticOverflow)
            } else {
                Ok(
                    PlacePrediction {
                        game_state: apply(g, GameStep::Stake(side, amount)),
                        prediction: Some(
                            Prediction {
                                user: c.user.key,
                                game_id: g.game_id,
                                amount,
                                side,
                                claimed: false,
                            },
                        ),
                        user,
                        market_vault,
                    },
                )
            },
        }
    }
}

/// Stakes `amount` of the user's funds on `side`, once per user and game.
pub fn place_prediction(ctx: &mut PlacePrediction, side: PredictionSide, amount: u64, now: i64) -> (r:
    Result<PredictionPlacedEvent, GameError>)
    ensures
        match place_outcome(*old(ctx), side, amount, now) {
            Ok(c) => *final(ctx) == c && r == Ok::<PredictionPlacedEvent, GameError>(
                PredictionPlacedEvent { user: old(ctx).user.key, side, amount },
            ),
            Err(e) => r == Err::<PredictionPlacedEvent, GameError>(e) && *final(ctx) == *old(ctx),
        },
{
    if ctx.prediction.is_some() {
        return Err(GameError::DuplicateRecord);
    }
    if !ctx.game_state.is_active {
        return Err(GameError::GameEnded);
    }
    if now >= ctx.game_state.end_time {
        return Err(GameError::GameExpired);
    }
    let saved = *ctx;
    match transfer(&mut ctx.user, &mut ctx.market_vault, amount) {
        Err(e) => return Err(e),
        Ok(()) => {},
    }
    let staked = match ctx.game_state.pool_fail.checked_add(ctx.game_state.pool_breach) {
        None => None,
        Some(both) => both.checked_add(amount),
    };
    if staked.is_none() {
        *ctx = saved;
        return Err(GameError::ArithmeticOverflow);
    }
    match side {
        PredictionSide::Fail => ctx.game_state.pool_fail = ctx.game_state.pool_fail + amount,
        PredictionSide::Breach => ctx.game_state.pool_breach = ctx.game_state.pool_breach + amount,
    }
    let user = ctx.user.key;
    ctx.prediction = Some(
        Prediction { user, game_id: ctx.game_state.game_id, amount, side, claimed: false },
    );
    Ok(PredictionPlacedEvent { user, side, amount })
}

/// The records of a claim belong together: the prediction is the claimant's
/// and was placed on this game.
pub open spec fn claim_consistent(c: ClaimWinnings) -> bool {
    c.prediction.user == c.user.key && c.prediction.game_id == c.game_state.game_id
}

/// The records after a claim, or the reason it is refused.
pub open spec fn claim_outcome(c: ClaimWinnings) -> Result<ClaimWinnings, GameError> {
    let g = c.game_state;
    let p = c.prediction;
    if g.market_status == MarketStatus::Active {
        Err(GameError::MarketNotResolved)
    } else if p.claimed {
        Err(GameError::AlreadyClaimed)
    } else if !wins(g.market_status, p.side) {
        Err(GameError::PredictionLost)
    } else {
        match transfer_outcome(
            c.market_vault,
            c.user,
            payout(p.amount as int, g.pool_fail + g.pool_breach, side_pool(g, p.side)),
        ) {
            Err(e) => Err(e),
            Ok((market_vault, user)) => Ok(
                ClaimWinnings {
                    game_state: g,
                    prediction: Prediction { claimed: true, ..p },
                    user,
                    market_vault,
                },
            ),
        }
    }
}

/// The payout splits into the stake itself and its share of the other side's
/// pool, which is how it is computed without overflow.
proof fn lemma_payout_split(amount: int, winning_pool: int, other_pool: int)
    requires
        0 <= amount,
        0 < winning_pool,
        0 <= other_pool,
    ensures
        payout(amount, winning_pool + other_pool, winning_pool) == amount + amount * other_pool
            / winning_pool,
{
    let x = amount * other_pool;
    lemma_fundamental_div_mod(x, winning_pool);
    let q = x / winning_pool;
    let r = x % winning_pool;
    assert(amount * (winning_pool + other_pool) == (amount + q) * winning_pool + r) by (nonlinear_arith)
        requires
            x == amount * other_pool,
            x == winning_pool * q + r,
    ;
    lemma_fundamental_div_mod_converse(
        amount * (winning_pool + other_pool),
        winning_pool,
        amount + q,
        r,
    );
}

/// A winner gets at least its stake back, and a stake counted in its side's
/// pool is paid no more than both pools together.
pub proof fn lemma_payout_between_stake_and_pool(amount: int, winning_pool: int, other_pool: int)
    requires
        0 <= amount <= winning_pool,
        0 <= other_pool,
    ensures
        amount <= payout(amount, winning_pool + other_pool, winning_pool) <= winning_pool
            + other_pool,
{
    if winning_pool > 0 {
        lemma_payout_split(amount, winning_pool, other_pool);
        assert(0 <= amount * other_pool <= winning_pool * other_pool) by (nonlinear_arith)
            requires
                0 <= amount <= winning_pool,
                0 <= other_pool,
        ;
        lemma_div_is_ordered(amount * other_pool, winning_pool * other_pool, winning_pool);
        lemma_div_is_ordered(0, amount * other_pool, winning_pool);
        lemma_div_multiples_vanish(other_pool, winning_pool);
    }
}

/// Pays a winning prediction its share of both pools from the market vault.
pub fn claim_winnings(ctx: &mut ClaimWinnings) -> (r: Result<(), GameError>)
    requires
        claim_consistent(*old(ctx)),
    ensures
        match claim_outcome(*old(ctx)) {
            Ok(c) => r is Ok && *final(ctx) == c,
            Err(e) => r == Err::<(), GameError>(e) && *final(ctx) == *old(ctx),
        },
{
    if ctx.game_state.market_status == MarketStatus::Active {
        return Err(GameError::MarketNotResolved);
    }
    if ctx.prediction.claimed {
        return Err(GameError::AlreadyClaimed);
    }
    let user_won = match (ctx.game_state.market_status, ctx.prediction.side) {
        (MarketStatus::Breached, PredictionSide::Breach) => true,
        (MarketStatus::Failed, PredictionSide::Fail) => true,
        _ => false,
    };
    if !user_won {
        return Err(GameError::PredictionLost);
    }
    let (winning_pool, other_pool) = match ctx.prediction.side {
        PredictionSide::Fail => (ctx.game_state.pool_fail, ctx.game_state.pool_breach),
        PredictionSide::Breach => (ctx.game_state.pool_breach, ctx.game_state.pool_fail),
    };
    let amount = ctx.prediction.amount;
    let share: u128 = if winning_pool == 0 {
        0
    } else {
        proof {
            lemma_payout_split(amount as int, winning_pool as int, other_pool as int);
            lemma_mul_upper_bound(amount as int, u64::MAX as int, other_pool as int, u64::MAX as int);
            lemma_div_is_ordered(
                amount as int * other_pool as int,
                u64::MAX as int * u64::MAX as int,
                winning_pool as int,
            );
            lemma_div_is_ordered_by_denominator(u64::MAX as int * u64::MAX as int, 1, winning_pool as int);
        }
        assert(u64::MAX * u64::MAX + u64::MAX <= u128::MAX) by (nonlinear_arith);
        (amount as u128) + (amount as u128) * (other_pool as u128) / (winning_pool as u128)
    };
    if share > u64::MAX as u128 {
        return Err(GameError::InsufficientFunds);
    }
    let share = share as u64;
    match transfer(&mut ctx.market_vault, &mut ctx.user, share) {
        Err(e) => return Err(e),
        Ok(()) => {},
    }
    ctx.prediction.claimed = true;
    Ok(())
}

} // verus!

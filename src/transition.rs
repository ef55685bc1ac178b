use vstd::prelude::*;
use crate::types::{GameState, MarketStatus, PredictionSide, Pubkey};

verus! {

/// A successful operation, as far as it changes a game's record.
#[derive(Clone, Copy, Debug, PartialEq, Eq)]
pub enum GameStep {
    /// A paid attempt.
    Attempt,
    /// A stake of the given amount on the given side.
    Stake(PredictionSide, u64),
    /// A resolution to the given outcome, naming the given winner.
    Resolve(MarketStatus, Option<Pubkey>),
    /// An emergency drain of the game vault.
    DrainJackpot,
}

/// The fee share credited to the jackpot: 80% of the price, rounded down.
pub open spec fn jackpot_share(price: u64) -> int {
    price * 80 / 100
}

/// The fee share that goes to the developer wallet: the price less the
/// jackpot's share, so 20% of it with the rounding remainder.
pub open spec fn treasury_share(price: u64) -> int {
    price - jackpot_share(price)
}

/// The guards that a game's own record places on a step.
pub open spec fn allowed(g: GameState, s: GameStep) -> bool {
    match s {
        GameStep::Attempt => g.is_active && g.jackpot + jackpot_share(g.attempt_price) <= u64::MAX
            && g.total_attempts + 1 <= u64::MAX,
        GameStep::Stake(_, amount) => g.is_active && g.pool_fail + g.pool_breach + amount
            <= u64::MAX,
        GameStep::Resolve(outcome, w) => g.is_active && g.market_status == MarketStatus::Active
            && outcome != MarketStatus::Active && (outcome == MarketStatus::Breached ==> w is Some),
        GameStep::DrainJackpot => true,
    }
}

/// The record after step `s`.
pub open spec fn apply(g: GameState, s: GameStep) -> GameState {
    match s {
        GameStep::Attempt => GameState {
            jackpot: (g.jackpot + jackpot_share(g.attempt_price)) as u64,
            total_attempts: (g.total_attempts + 1) as u64,
            ..g
        },
        GameStep::Stake(side, amount) => match side {
            PredictionSide::Fail => GameState { pool_fail: (g.pool_fail + amount) as u64, ..g },
            PredictionSide::Breach => GameState {
                pool_breach: (g.pool_breach + amount) as u64,
                ..g
            },
        },
        GameStep::Resolve(outcome, w) => GameState {
            market_status: outcome,
            is_active: false,
            winner: if outcome == MarketStatus::Breached {
                w
            } else {
                g.winner
            },
            ..g
        },
        GameStep::DrainJackpot => GameState { jackpot: 0, ..g },
    }
}

} // verus!

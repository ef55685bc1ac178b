use vstd::prelude::*;
use vstd::arithmetic::div_mod::lemma_fundamental_div_mod;
use crate::types::{wins, GameError, GameState, MarketStatus, PredictionSide, Pubkey};
use crate::transition::{allowed, apply, jackpot_share, GameStep};
use crate::market::{claim_outcome, payout, place_outcome, ClaimWinnings, PlacePrediction};
use crate::game::{attempt_outcome, resolve_outcome, ResolveGame, SubmitAttempt};
use crate::emergency::{
    withdraw_jackpot_outcome, withdraw_market_outcome, EmergencyWithdraw, EmergencyWithdrawMarket,
};

verus! {

/// The record after the successful steps `steps`, in order, starting from `g`.
pub open spec fn run(g: GameState, steps: Seq<GameStep>) -> GameState
    decreases steps.len(),
{
    if steps.len() == 0 {
        g
    } else {
        apply(run(g, steps.drop_last()), steps.last())
    }
}

/// Every step of `steps` passes the guards of the record it is applied to.
pub open spec fn valid_run(g: GameState, steps: Seq<GameStep>) -> bool
    decreases steps.len(),
{
    steps.len() == 0 || (valid_run(g, steps.drop_last()) && allowed(
        run(g, steps.drop_last()),
        steps.last(),
    ))
}

/// A game is open exactly while its market is unresolved.
pub open spec fn lifecycle_consistent(g: GameState) -> bool {
    g.is_active == (g.market_status == MarketStatus::Active)
}

/// What the emergency drains in `steps` took out of the jackpot.
pub open spec fn drained(g: GameState, steps: Seq<GameStep>) -> int
    decreases steps.len(),
{
    if steps.len() == 0 {
        0
    } else {
        drained(g, steps.drop_last()) + if steps.last() is DrainJackpot {
            run(g, steps.drop_last()).jackpot as int
        } else {
            0
        }
    }
}

/// The amounts staked by the predictions in `steps`.
pub open spec fn staked(steps: Seq<GameStep>) -> int
    decreases steps.len(),
{
    if steps.len() == 0 {
        0
    } else {
        staked(steps.drop_last()) + match steps.last() {
            GameStep::Stake(_, amount) => amount as int,
            _ => 0,
        }
    }
}

/// Each successful operation changes the game's record by one allowed step, or
/// leaves it as it is: the runs above cover every sequence of operations.
pub proof fn lemma_operations_are_steps(
    attempt: SubmitAttempt,
    resolve: ResolveGame,
    place: PlacePrediction,
    claim: ClaimWinnings,
    drain_jackpot: EmergencyWithdraw,
    drain_market: EmergencyWithdrawMarket,
    now: i64,
    outcome: MarketStatus,
    winner: Option<Pubkey>,
    side: PredictionSide,
    amount: u64,
)
    ensures
        attempt_outcome(attempt, now) is Ok ==> allowed(attempt.game_state, GameStep::Attempt)
            && attempt_outcome(attempt, now)->Ok_0.game_state == apply(
            attempt.game_state,
            GameStep::Attempt,
        ),
        resolve_outcome(resolve, outcome, winner) is Ok ==> allowed(
            resolve.game_state,
            GameStep::Resolve(outcome, winner),
        ) && resolve_outcome(resolve, outcome, winner)->Ok_0.game_state == apply(
            resolve.game_state,
            GameStep::Resolve(outcome, winner),
        ),
        place_outcome(place, side, amount, now) is Ok ==> allowed(
            place.game_state,
            GameStep::Stake(side, amount),
        ) && place_outcome(place, side, amount, now)->Ok_0.game_state == apply(
            place.game_state,
            GameStep::Stake(side, amount),
        ),
        withdraw_jackpot_outcome(drain_jackpot) is Ok ==> withdraw_jackpot_outcome(
            drain_jackpot,
        )->Ok_0.game_state == apply(drain_jackpot.game_state, GameStep::DrainJackpot),
        withdraw_market_outcome(drain_market) is Ok ==> withdraw_market_outcome(
            drain_market,
        )->Ok_0.game_state == drain_market.game_state,
        claim_outcome(claim) is Ok ==> claim_outcome(claim)->Ok_0.game_state == claim.game_state,
{
}

/// The amounts staked on `side` by the predictions in `steps`.
pub open spec fn staked_on(steps: Seq<GameStep>, side: PredictionSide) -> int
    decreases steps.len(),
{
    if steps.len() == 0 {
        0
    } else {
        staked_on(steps.drop_last(), side) + match steps.last() {
            GameStep::Stake(s, amount) => if s == side {
                amount as int
            } else {
                0
            },
            _ => 0,
        }
    }
}

/// A market settles at most once: once the status is terminal it never changes
/// again, and a run from a consistent record keeps it consistent.
pub proof fn lemma_status_settles_once(g: GameState, steps: Seq<GameStep>, i: int)
    requires
        valid_run(g, steps),
        0 <= i <= steps.len(),
    ensures
        lifecycle_consistent(g) ==> lifecycle_consistent(run(g, steps)),
        run(g, steps.take(i)).market_status != MarketStatus::Active ==> run(g, steps).market_status
            == run(g, steps.take(i)).market_status,
    decreases steps.len(),
{
    if i == steps.len() {
        assert(steps.take(i) =~= steps);
    }
    if steps.len() > 0 {
        let prefix = steps.drop_last();
        let j = if i == steps.len() {
            i - 1
        } else {
            i
        };
        lemma_status_settles_once(g, prefix, j);
        if i < steps.len() {
            assert(prefix.take(i) =~= steps.take(i));
        }
    }
}

/// The jackpot of a game that started empty is its attempts times four fifths
/// of the price, rounded down, less what emergency drains took.
pub proof fn lemma_jackpot_accounting(g: GameState, steps: Seq<GameStep>)
    requires
        valid_run(g, steps),
        g.jackpot == 0,
        g.total_attempts == 0,
    ensures
        run(g, steps).attempt_price == g.attempt_price,
        run(g, steps).jackpot == run(g, steps).total_attempts * (g.attempt_price * 80 / 100)
            - drained(g, steps),
    decreases steps.len(),
{
    if steps.len() > 0 {
        let prefix = steps.drop_last();
        lemma_jackpot_accounting(g, prefix);
        let n = run(g, prefix).total_attempts as int;
        assert(n * jackpot_share(g.attempt_price) + jackpot_share(g.attempt_price) == (n + 1)
            * jackpot_share(g.attempt_price)) by (nonlinear_arith);
    }
}

/// Each pool holds what the run's predictions staked on its side on top of
/// what it held at the start, and the two together what they all staked;
/// draining the vaults leaves the pools as they are.
pub proof fn lemma_pools_track_stakes(g: GameState, steps: Seq<GameStep>)
    requires
        valid_run(g, steps),
    ensures
        run(g, steps).pool_fail == g.pool_fail + staked_on(steps, PredictionSide::Fail),
        run(g, steps).pool_breach == g.pool_breach + staked_on(steps, PredictionSide::Breach),
        run(g, steps).pool_fail + run(g, steps).pool_breach == g.pool_fail + g.pool_breach
            + staked(steps),
    decreases steps.len(),
{
    if steps.len() > 0 {
        lemma_pools_track_stakes(g, steps.drop_last());
    }
}

/// A user has at most one prediction per game: once one is placed, every
/// further placement in the same slot fails with `DuplicateRecord`.
pub proof fn lemma_one_prediction_per_user(
    c: PlacePrediction,
    side: PredictionSide,
    amount: u64,
    now: i64,
    second_side: PredictionSide,
    second_amount: u64,
    second_now: i64,
)
    requires
        place_outcome(c, side, amount, now) is Ok,
    ensures
        place_outcome(place_outcome(c, side, amount, now)->Ok_0, second_side, second_amount, second_now)
            == Err::<PlacePrediction, GameError>(GameError::DuplicateRecord),
{
}

/// A prediction on the losing side of a settled market is never paid: its
/// claim fails, with `PredictionLost` unless it is marked claimed.
pub proof fn lemma_losing_claim_refused(c: ClaimWinnings)
    requires
        c.game_state.market_status != MarketStatus::Active,
        !wins(c.game_state.market_status, c.prediction.side),
    ensures
        claim_outcome(c) is Err,
        !c.prediction.claimed ==> claim_outcome(c) == Err::<ClaimWinnings, GameError>(
            GameError::PredictionLost,
        ),
{
}

/// The sum of the stakes in `stakes`.
pub open spec fn total_stake(stakes: Seq<u64>) -> int
    decreases stakes.len(),
{
    if stakes.len() == 0 {
        0
    } else {
        total_stake(stakes.drop_last()) + stakes.last()
    }
}

/// The sum of the payouts to the winning stakes `stakes`.
pub open spec fn total_payout(stakes: Seq<u64>, total_pool: int, winning_pool: int) -> int
    decreases stakes.len(),
{
    if stakes.len() == 0 {
        0
    } else {
        total_payout(stakes.drop_last(), total_pool, winning_pool) + payout(
            stakes.last() as int,
            total_pool,
            winning_pool,
        )
    }
}

/// Rounding of the sum of payouts, bounded from both sides.
proof fn lemma_payout_sum_bounds(stakes: Seq<u64>, total_pool: int, winning_pool: int)
    requires
        0 < winning_pool,
        0 <= total_pool,
    ensures
        winning_pool * total_payout(stakes, total_pool, winning_pool) <= total_pool * total_stake(
            stakes,
        ),
        winning_pool * total_payout(stakes, total_pool, winning_pool) >= total_pool * total_stake(
            stakes,
        ) - winning_pool * stakes.len(),
    decreases stakes.len(),
{
    if stakes.len() > 0 {
        let rest = stakes.drop_last();
        lemma_payout_sum_bounds(rest, total_pool, winning_pool);
        let a = stakes.last() as int;
        let x = a * total_pool;
        let q = x / winning_pool;
        lemma_fundamental_div_mod(x, winning_pool);
        let pr = total_payout(rest, total_pool, winning_pool);
        let sr = total_stake(rest);
        let n = rest.len() as int;
        assert(winning_pool * (pr + q) == winning_pool * pr + winning_pool * q) by (nonlinear_arith);
        assert(total_pool * (sr + a) == total_pool * sr + total_pool * a) by (nonlinear_arith);
        assert(winning_pool * (n + 1) == winning_pool * n + winning_pool) by (nonlinear_arith);
        assert(0 <= x % winning_pool < winning_pool);
        assert(winning_pool * q <= x);
        assert(x == total_pool * a) by (nonlinear_arith)
            requires
                x == a * total_pool,
        ;
        assert(total_payout(stakes, total_pool, winning_pool) == pr + q);
        assert(total_stake(stakes) == sr + a);
    }
}

/// What all winners of a side are paid together is at most the whole pool, and
/// when the stakes are the whole winning side, the unpaid rounding dust is at
/// most one unit per winner.
pub proof fn lemma_payouts_within_pool(stakes: Seq<u64>, total_pool: int, winning_pool: int)
    requires
        0 < winning_pool <= total_pool,
        total_stake(stakes) <= winning_pool,
    ensures
        total_payout(stakes, total_pool, winning_pool) <= total_pool,
        total_stake(stakes) == winning_pool ==> total_pool - total_payout(
            stakes,
            total_pool,
            winning_pool,
        ) <= stakes.len(),
{
    lemma_payout_sum_bounds(stakes, total_pool, winning_pool);
    let p = total_payout(stakes, total_pool, winning_pool);
    let s = total_stake(stakes);
    assert(total_pool * s <= total_pool * winning_pool) by (nonlinear_arith)
        requires
            s <= winning_pool,
            0 <= total_pool,
    ;
    assert(p <= total_pool) by (nonlinear_arith)
        requires
            winning_pool * p <= total_pool * winning_pool,
            0 < winning_pool,
    ;
    if s == winning_pool {
        let n = stakes.len() as int;
        assert(total_pool - p <= n) by (nonlinear_arith)
            requires
                winning_pool * p >= total_pool * winning_pool - winning_pool * n,
                0 < winning_pool,
        ;
    }
}

} // verus!

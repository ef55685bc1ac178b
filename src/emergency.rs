use vstd::prelude::*;
use crate::types::{FundAccount, GameError, GameState};
use crate::transition::{apply, GameStep};
use crate::transfer::{drain, transfer_outcome};

verus! {

/// The records that draining the game vault touches.
#[derive(Clone, Copy, Debug, PartialEq, Eq)]
pub struct EmergencyWithdraw {
    pub game_state: GameState,
    pub ghost_account: FundAccount,
    pub game_vault: FundAccount,
}

/// The records that draining the market vault touches.
#[derive(Clone, Copy, Debug, PartialEq, Eq)]
pub struct EmergencyWithdrawMarket {
    pub game_state: GameState,
    pub ghost_account: FundAccount,
    pub market_vault: FundAccount,
}

/// The records after draining the game vault, or the reason it is refused.
pub open spec fn withdraw_jackpot_outcome(c: EmergencyWithdraw) -> Result<EmergencyWithdraw, GameError> {
    if c.ghost_account.key != c.game_state.ghost_key {
        Err(GameError::Unauthorized)
    } else {
        match transfer_outcome(c.game_vault, c.ghost_account, c.game_vault.lamports as int) {
            Err(e) => Err(e),
            Ok((game_vault, ghost_account)) => Ok(
                EmergencyWithdraw {
                    game_state: apply(c.game_state, GameStep::DrainJackpot),
                    ghost_account,
                    game_vault,
                },
            ),
        }
    }
}

/// The records after draining the market vault, or the reason it is refused.
pub open spec fn withdraw_market_outcome(c: EmergencyWithdrawMarket) -> Result<
    EmergencyWithdrawMarket,
    GameError,
> {
    if c.ghost_account.key != c.game_state.ghost_key {
        Err(GameError::Unauthorized)
    } else {
        match transfer_outcome(c.market_vault, c.ghost_account, c.market_vault.lamports as int) {
            Err(e) => Err(e),
            Ok((market_vault, ghost_account)) => Ok(
                EmergencyWithdrawMarket { game_state: c.game_state, ghost_account, market_vault },
            ),
        }
    }
}

/// Moves the whole game vault to the ghost key and zeroes the jackpot, whatever
/// the game's state.
pub fn emergency_withdraw_jackpot(ctx: &mut EmergencyWithdraw) -> (r: Result<(), GameError>)
    ensures
        match withdraw_jackpot_outcome(*old(ctx)) {
            Ok(c) => r is Ok && *final(ctx) == c,
            Err(e) => r == Err::<(), GameError>(e) && *final(ctx) == *old(ctx),
        },
{
    if !(ctx.ghost_account.key == ctx.game_state.ghost_key) {
        return Err(GameError::Unauthorized);
    }
    match drain(&mut ctx.game_vault, &mut ctx.ghost_account) {
        Err(e) => return Err(e),
        Ok(()) => {},
    }
    ctx.game_state.jackpot = 0;
    Ok(())
}

/// Moves the whole market vault to the ghost key. The pools are left as they
/// are, so later claims find the vault empty.
pub fn emergency_withdraw_market(ctx: &mut EmergencyWithdrawMarket) -> (r: Result<(), GameError>)
    ensures
        match withdraw_market_outcome(*old(ctx)) {
            Ok(c) => r is Ok && *final(ctx) == c,
            Err(e) => r == Err::<(), GameError>(e) && *final(ctx) == *old(ctx),
        },
{
    if !(ctx.ghost_account.key == ctx.game_state.ghost_key) {
        return Err(GameError::Unauthorized);
    }
    drain(&mut ctx.market_vault, &mut ctx.ghost_account)
}

} // verus!

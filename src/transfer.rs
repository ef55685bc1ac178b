use vstd::prelude::*;
use crate::types::{FundAccount, GameError};

verus! {

/// `a` with `amount` taken from its balance.
pub open spec fn debited(a: FundAccount, amount: int) -> FundAccount {
    FundAccount { key: a.key, lamports: (a.lamports - amount) as u64 }
}

/// `a` with `amount` added to its balance.
pub open spec fn credited(a: FundAccount, amount: int) -> FundAccount {
    FundAccount { key: a.key, lamports: (a.lamports + amount) as u64 }
}

/// What moving `amount` from `from` to `to` leaves behind: both records, or the
/// reason the move is refused.
pub open spec fn transfer_outcome(from: FundAccount, to: FundAccount, amount: int) -> Result<
    (FundAccount, FundAccount),
    GameError,
> {
    if from.lamports < amount {
        Err(GameError::InsufficientFunds)
    } else if to.lamports + amount > u64::MAX {
        Err(GameError::ArithmeticOverflow)
    } else {
        Ok((debited(from, amount), credited(to, amount)))
    }
}

/// Moves `amount` lamports from `from` to `to`, all or nothing.
pub fn transfer(from: &mut FundAccount, to: &mut FundAccount, amount: u64) -> (r: Result<(), GameError>)
    ensures
        match transfer_outcome(*old(from), *old(to), amount as int) {
            Ok((f, t)) => r is Ok && *final(from) == f && *final(to) == t,
            Err(e) => r == Err::<(), GameError>(e) && *final(from) == *old(from) && *final(to)
                == *old(to),
        },
{
    if from.lamports < amount {
        return Err(GameError::InsufficientFunds);
    }
    match to.lamports.checked_add(amount) {
        None => Err(GameError::ArithmeticOverflow),
        Some(credit) => {
            from.lamports = from.lamports - amount;
            to.lamports = credit;
            Ok(())
        },
    }
}

/// Moves the whole balance of `from` to `to`.
pub fn drain(from: &mut FundAccount, to: &mut FundAccount) -> (r: Result<(), GameError>)
    ensures
        match transfer_outcome(*old(from), *old(to), old(from).lamports as int) {
            Ok((f, t)) => r is Ok && *final(from) == f && *final(to) == t,
            Err(e) => r == Err::<(), GameError>(e) && *final(from) == *old(from) && *final(to)
                == *old(to),
        },
{
    let balance = from.lamports;
    transfer(from, to, balance)
}

} // verus!

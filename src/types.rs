use vstd::prelude::*;

verus! {

/// An account identity: the 32 bytes of a public key.
#[derive(Clone, Copy, Debug)]
pub struct Pubkey {
    pub bytes: [u8; 32],
}

impl PartialEq for Pubkey {
    fn eq(&self, o: &Pubkey) -> (r: bool) {
        let mut i: usize = 0;
        while i < 32
            invariant
                i <= 32,
                forall|j: int| 0 <= j < i ==> self.bytes[j] == o.bytes[j],
            decreases 32 - i,
        {
            if self.bytes[i] != o.bytes[i] {
                return false;
            }
            i = i + 1;
        }
        assert(self.bytes =~= o.bytes);
        true
    }
}

impl vstd::std_specs::cmp::PartialEqSpecImpl for Pubkey {
    open spec fn obeys_eq_spec() -> bool {
        true
    }

    open spec fn eq_spec(&self, o: &Pubkey) -> bool {
        self.bytes == o.bytes
    }
}

impl Eq for Pubkey {}

/// A fund-holding record: an identity and its balance in lamports.
#[derive(Clone, Copy, Debug, PartialEq, Eq)]
pub struct FundAccount {
    pub key: Pubkey,
    pub lamports: u64,
}

/// The side a prediction backs.
#[derive(Clone, Copy, Debug, PartialEq, Eq, Structural)]
pub enum PredictionSide {
    Fail,
    Breach,
}

/// The market's status: `Active` until the game is resolved, then terminal.
#[derive(Clone, Copy, Debug, PartialEq, Eq, Structural)]
pub enum MarketStatus {
    Active,
    Breached,
    Failed,
}

/// Everything that can make an operation abort. An abort changes nothing.
#[derive(Clone, Copy, Debug, PartialEq, Eq, Structural)]
pub enum GameError {
    GameEnded,
    GameExpired,
    MarketNotResolved,
    AlreadyClaimed,
    PredictionLost,
    WinnerRequired,
    InvalidWinnerAccount,
    InvalidOutcome,
    Unauthorized,
    InsufficientFunds,
    DuplicateRecord,
    ArithmeticOverflow,
}

/// The record of one game, keyed by `game_id`.
#[derive(Clone, Copy, Debug, PartialEq, Eq)]
pub struct GameState {
    pub game_id: u64,
    pub authority: Pubkey,
    pub ghost_key: Pubkey,
    pub dev_wallet: Pubkey,
    pub jackpot: u64,
    pub total_attempts: u64,
    pub is_active: bool,
    pub winner: Option<Pubkey>,
    pub start_time: i64,
    pub end_time: i64,
    pub attempt_price: u64,
    pub pool_fail: u64,
    pub pool_breach: u64,
    pub market_status: MarketStatus,
}

/// One user's stake on one game, keyed by (`game_id`, `user`).
#[derive(Clone, Copy, Debug, PartialEq, Eq)]
pub struct Prediction {
    pub user: Pubkey,
    pub game_id: u64,
    pub amount: u64,
    pub side: PredictionSide,
    pub claimed: bool,
}

/// Emitted by a successful attempt.
#[derive(Clone, Debug)]
pub struct AttemptEvent {
    pub user: Pubkey,
    pub message_hash: String,
    pub timestamp: i64,
    pub attempt_number: u64,
    pub price: u64,
}

/// Emitted by a successful resolution.
#[derive(Clone, Copy, Debug, PartialEq, Eq)]
pub struct GameResolvedEvent {
    pub winner: Option<Pubkey>,
    pub amount: u64,
    pub outcome: MarketStatus,
}

/// Emitted by a successful prediction.
#[derive(Clone, Copy, Debug, PartialEq, Eq)]
pub struct PredictionPlacedEvent {
    pub user: Pubkey,
    pub side: PredictionSide,
    pub amount: u64,
}

/// The stake backing `side` in `g`.
pub open spec fn side_pool(g: GameState, side: PredictionSide) -> int {
    match side {
        PredictionSide::Fail => g.pool_fail as int,
        PredictionSide::Breach => g.pool_breach as int,
    }
}

/// Whether a prediction on `side` wins once the market has settled on `status`.
pub open spec fn wins(status: MarketStatus, side: PredictionSide) -> bool {
    (status == MarketStatus::Breached && side == PredictionSide::Breach) || (status
        == MarketStatus::Failed && side == PredictionSide::Fail)
}

} // verus!

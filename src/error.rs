//! The errors that abort an action. An action that fails changes nothing.

use vstd::prelude::*;

verus! {

#[derive(Clone, Copy, Debug, PartialEq, Eq, Structural)]
pub enum GameError {
    AgentNotAlive,
    MovementCooldown,
    OutOfBounds,
    BattleInProgress,
    BattleCooldown,
    ReentrancyGuard,
    AllianceCooldown,
    NotEnoughTokens,
    MaxStakeExceeded,
    ClaimCooldown,
    InvalidTerrain,
    TokenTransferError,
    InsufficientFunds,
    Unauthorized,
    IgnoreCooldown,
    InvalidAlliancePartner,
    AllianceAlreadyExists,
    NoAllianceToBreak,
    MaxAgentLimitReached,
    AgentAlreadyExists,
    NameTooLong,
    CooldownNotOver,
    GameNotActive,
    InvalidAmount,
    InvalidBump,
    NoRewardsToClaim,
    InsufficientRewards,
    CooldownAlreadyActive,
    BattleNotStarted,
    BattleAlreadyStarted,
    BattleNotReadyToResolve,
    /// An arithmetic step would leave the range of its integer type.
    Overflow,
    /// A stake was redeemed for more shares than its holder owns.
    InsufficientShares,
    /// Account data that should hold an initialized token account does not.
    InvalidTokenAccount,
    /// The game already tracks its largest number of alliances.
    MaxAllianceLimitReached,
}

impl GameError {
    /// A human-readable description of the error.
    pub fn message(&self) -> (r: &'static str) {
        match self {
            GameError::AgentNotAlive => "Agent is not alive.",
            GameError::MovementCooldown => "Movement is on cooldown.",
            GameError::OutOfBounds => "Agent is out of map bounds.",
            GameError::BattleInProgress => "Battle is currently in progress.",
            GameError::BattleCooldown => "Battle is on cooldown.",
            GameError::ReentrancyGuard => "Reentrancy attempt detected.",
            GameError::AllianceCooldown => "Alliance is on cooldown.",
            GameError::NotEnoughTokens => "Not enough tokens for battle.",
            GameError::MaxStakeExceeded => "Stake amount exceeds maximum allowed.",
            GameError::ClaimCooldown => "Cannot claim rewards yet.",
            GameError::InvalidTerrain => "Invalid terrain movement.",
            GameError::TokenTransferError => "Invalid token transfer.",
            GameError::InsufficientFunds => "Insufficient Funds Provided.",
            GameError::Unauthorized => "Unauthorized action.",
            GameError::IgnoreCooldown => "Cooldown is still active.",
            GameError::InvalidAlliancePartner => "Invalid alliance partner.",
            GameError::AllianceAlreadyExists => "An active alliance already exists.",
            GameError::NoAllianceToBreak => "No active alliance to break.",
            GameError::MaxAgentLimitReached => "Maximum number of agents reached.",
            GameError::AgentAlreadyExists => "Agent already exists.",
            GameError::NameTooLong => "Agent name is too long.",
            GameError::CooldownNotOver => "You must wait until cooldown ends.",
            GameError::GameNotActive => "Game is Inactive",
            GameError::InvalidAmount => "Invalid amount specified.",
            GameError::InvalidBump => "Invalid bump.",
            GameError::NoRewardsToClaim => "No rewards to claim.",
            GameError::InsufficientRewards => "Insufficient rewards to complete this action.",
            GameError::CooldownAlreadyActive => "Cooldown is already active.",
            GameError::BattleNotStarted => "Battle has not started yet",
            GameError::BattleAlreadyStarted => "Battle has already started",
            GameError::BattleNotReadyToResolve => "Battle not ready to resolve",
            GameError::Overflow => "Arithmetic overflow.",
            GameError::InsufficientShares => "Not enough shares to redeem.",
            GameError::InvalidTokenAccount => "Invalid token account data.",
            GameError::MaxAllianceLimitReached => "Maximum number of alliances reached.",
        }
    }
}

/// `Err(e)` for an error, `Ok(())` for none.
pub open spec fn as_result(e: Option<GameError>) -> Result<(), GameError> {
    match e {
        Some(e) => Err(e),
        None => Ok(()),
    }
}

/// The first of two errors that is there.
pub open spec fn first_error(a: Option<GameError>, b: Option<GameError>) -> Option<GameError> {
    if a is Some {
        a
    } else {
        b
    }
}

/// The error of a result, if it is one.
pub open spec fn result_error<T>(r: Result<T, GameError>) -> Option<GameError> {
    match r {
        Ok(_) => None,
        Err(e) => Some(e),
    }
}

} // verus!

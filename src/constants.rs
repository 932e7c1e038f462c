//! Game configuration constants. Durations are in seconds.

use vstd::prelude::*;

verus! {

pub const MAP_DIAMETER: u32 = 1000;
pub const BATTLE_RANGE: u32 = 50;
pub const MAX_AGENTS: u8 = 4;
/// The largest number of alliance records the game keeps.
pub const MAX_ALLIANCES: usize = 5;
/// The longest agent name, in bytes of UTF-8.
pub const MAX_NAME_LEN: usize = 32;

pub const MOVEMENT_COOLDOWN: i64 = 3600;
/// Minimum time between two attacks of one agent (four hours).
pub const BATTLE_COOLDOWN: i64 = 14400;
/// Minimum time between two alliances formed by one agent (four hours).
pub const ALLIANCE_COOLDOWN: i64 = 14400;
pub const IGNORE_COOLDOWN: i64 = 14400;

/// Move cooldowns by terrain.
pub const PLAIN_MOVE_COOLDOWN: i64 = 3600;
pub const RIVER_MOVE_COOLDOWN: i64 = 7200;
pub const MOUNTAIN_MOVE_COOLDOWN: i64 = 10800;

/// How long a battle of each shape runs before it can be resolved.
pub const SIMPLE_BATTLE_COOLDOWN: i64 = 3600;
pub const AGENT_VS_ALLIANCE_COOLDOWN: i64 = 3500;
pub const ALLIANCE_VS_ALLIANCE_COOLDOWN: i64 = 3600;

pub const DEATH_CHANCE_TERRAIN: u64 = 10;
pub const DEATH_CHANCE_BATTLE: u64 = 20;
pub const MIN_TOKEN_BURN: u64 = 31;
pub const MAX_TOKEN_BURN: u64 = 50;
pub const BATTLE_DURATION_PER_TOKEN: u64 = 1;

pub const MAX_STAKE_AMOUNT: u64 = 1_000_000;
pub const TOKEN_DECIMALS: u8 = 9;
pub const MAX_ALLIANCE_DURATION: i64 = 604800;
pub const MIN_BATTLE_TOKENS: u64 = 1_000;
pub const MAX_BATTLE_DURATION: i64 = 86400;

pub const MOVEMENT_SPEED: i64 = 10;
pub const MOUNTAIN_SPEED_REDUCTION: u32 = 50;
pub const RIVER_SPEED_REDUCTION: u32 = 30;

/// Tokens the reward pool pays out per day, before a game sets its own rate.
pub const DAILY_REWARD_TOKENS: u64 = 500_000;
/// Time a deposit stays locked before it can be withdrawn.
pub const STAKE_LOCK_PERIOD: i64 = 3600;
/// Minimum time between two reward claims of one stake.
pub const REWARD_CLAIM_COOLDOWN: i64 = 86400;
pub const SECONDS_PER_DAY: i64 = 86400;
/// Lock a staker may start on its stake before withdrawing (two hours).
pub const UNSTAKE_COOLDOWN: i64 = 7200;

} // verus!

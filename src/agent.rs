//! Agent records and the cooldown gate over their actions.
//!
//! Every check here is a pure test: it never changes the agent, so probing
//! whether an action is admissible is always safe.

use vstd::prelude::*;
use crate::constants::{ALLIANCE_COOLDOWN, BATTLE_COOLDOWN, IGNORE_COOLDOWN, MOVEMENT_COOLDOWN};
use crate::error::GameError;
use crate::key::Key;
use crate::terrain::{spec_move_duration, TerrainType};

verus! {

/// Why an agent died.
#[derive(Clone, Copy, Debug, PartialEq, Eq, Structural)]
pub enum DeathCause {
    Battle,
    Terrain,
}

/// The moment an agent started ignoring another one.
#[derive(Clone, Copy, Debug, PartialEq, Eq, Structural)]
pub struct IgnoreCooldown {
    pub agent_id: u8,
    pub timestamp: i64,
}

/// One participant of the game. Identities (of the agent, its game and its
/// controlling authority) are account keys; the game is named by its id.
#[derive(Clone, Copy, Debug, PartialEq, Eq, Structural)]
pub struct Agent {
    pub key: Key,
    pub game: u64,
    pub authority: Key,
    pub id: u8,
    pub x: i32,
    pub y: i32,
    pub is_alive: bool,
    pub last_move: i64,
    pub last_battle: i64,
    /// Tokens deposited into this agent's vault and not yet withdrawn.
    pub staked_balance: u128,
    /// The agent this one is allied with, if any.
    pub alliance_with: Option<Key>,
    pub alliance_timestamp: i64,
    pub token_balance: u64,
    pub last_reward_claim: i64,
    /// Shares outstanding against this agent's vault.
    pub total_shares: u128,
    pub last_attack: i64,
    pub last_ignore: i64,
    pub last_alliance: i64,
    pub next_move_time: i64,
    pub last_alliance_agent: Option<Key>,
    pub last_alliance_broken: i64,
    /// When the battle this agent is in started; `None` outside battles.
    pub battle_start_time: Option<i64>,
    pub vault_bump: u8,
}

/// A living agent at `(x, y)` that has done nothing yet.
pub open spec fn fresh_agent(key: Key, game: u64, authority: Key, id: u8, x: i32, y: i32) -> Agent {
    Agent {
        key,
        game,
        authority,
        id,
        x,
        y,
        is_alive: true,
        last_move: 0,
        last_battle: 0,
        staked_balance: 0,
        alliance_with: None,
        alliance_timestamp: 0,
        token_balance: 0,
        last_reward_claim: 0,
        total_shares: 0,
        last_attack: 0,
        last_ignore: 0,
        last_alliance: 0,
        next_move_time: 0,
        last_alliance_agent: None,
        last_alliance_broken: 0,
        battle_start_time: None,
        vault_bump: 0,
    }
}

/// Whether a cooldown of `cooldown` seconds started at `last` is over at `now`.
pub open spec fn cooldown_over(last: i64, cooldown: i64, now: i64) -> bool {
    now as int >= last as int + cooldown as int
}

/// `cooldown_over`, computed without overflow.
pub fn is_cooldown_over(last: i64, cooldown: i64, now: i64) -> (r: bool)
    ensures
        r == cooldown_over(last, cooldown, now),
{
    now as i128 >= last as i128 + cooldown as i128
}

impl Agent {
    /// A fresh, living agent at `(x, y)` with every timestamp and total zero.
    pub fn new(key: Key, game: u64, authority: Key, id: u8, x: i32, y: i32) -> (r: Agent)
        ensures
            r == fresh_agent(key, game, authority, id, x, y),
    {
        Agent {
            key,
            game,
            authority,
            id,
            x,
            y,
            is_alive: true,
            last_move: 0,
            last_battle: 0,
            staked_balance: 0,
            alliance_with: None,
            alliance_timestamp: 0,
            token_balance: 0,
            last_reward_claim: 0,
            total_shares: 0,
            last_attack: 0,
            last_ignore: 0,
            last_alliance: 0,
            next_move_time: 0,
            last_alliance_agent: None,
            last_alliance_broken: 0,
            battle_start_time: None,
            vault_bump: 0,
        }
    }

    /// May this agent move at `now`? Dead agents never move; a living one
    /// waits until `next_move_time`.
    pub fn validate_movement(&self, now: i64) -> (r: Result<(), GameError>)
        ensures
            r == if !self.is_alive {
                Err(GameError::AgentNotAlive)
            } else if now < self.next_move_time {
                Err(GameError::MovementCooldown)
            } else {
                Ok::<(), GameError>(())
            },
    {
        if !self.is_alive {
            return Err(GameError::AgentNotAlive);
        }
        if now < self.next_move_time {
            return Err(GameError::MovementCooldown);
        }
        Ok(())
    }

    /// May this agent attack at `now`? Four hours must have passed since its
    /// last attack.
    pub fn validate_attack(&self, now: i64) -> (r: Result<(), GameError>)
        ensures
            r == if cooldown_over(self.last_attack, BATTLE_COOLDOWN, now) {
                Ok::<(), GameError>(())
            } else {
                Err(GameError::BattleCooldown)
            },
    {
        if is_cooldown_over(self.last_attack, BATTLE_COOLDOWN, now) {
            Ok(())
        } else {
            Err(GameError::BattleCooldown)
        }
    }

    /// May this agent form an alliance at `now`? Four hours must have passed
    /// since it last formed one.
    pub fn validate_alliance(&self, now: i64) -> (r: Result<(), GameError>)
        ensures
            r == if cooldown_over(self.last_alliance, ALLIANCE_COOLDOWN, now) {
                Ok::<(), GameError>(())
            } else {
                Err(GameError::AllianceCooldown)
            },
    {
        if is_cooldown_over(self.last_alliance, ALLIANCE_COOLDOWN, now) {
            Ok(())
        } else {
            Err(GameError::AllianceCooldown)
        }
    }

    /// May this agent ignore another at `now`? Four hours must have passed
    /// since it last did.
    pub fn validate_ignore(&self, now: i64) -> (r: Result<(), GameError>)
        ensures
            r == if cooldown_over(self.last_ignore, IGNORE_COOLDOWN, now) {
                Ok::<(), GameError>(())
            } else {
                Err(GameError::IgnoreCooldown)
            },
    {
        if is_cooldown_over(self.last_ignore, IGNORE_COOLDOWN, now) {
            Ok(())
        } else {
            Err(GameError::IgnoreCooldown)
        }
    }

    /// Starts the move cooldown of `terrain` at `now`. The new window
    /// replaces any earlier one; it is not added to it.
    pub fn apply_terrain_move_cooldown(&mut self, terrain: TerrainType, now: i64) -> (r: Result<
        (),
        GameError,
    >)
        ensures
            r is Ok <==> now as int + spec_move_duration(terrain) <= i64::MAX,
            r is Ok ==> *final(self) == (Agent {
                next_move_time: (now as int + spec_move_duration(terrain)) as i64,
                ..*old(self)
            }),
            r is Err ==> r == Err::<(), GameError>(GameError::Overflow) && *final(self) == *old(self),
    {
        let d = terrain.move_duration();
        if now > i64::MAX - d {
            return Err(GameError::Overflow);
        }
        self.next_move_time = now + d;
        Ok(())
    }

    /// Puts this agent into battle at `now`: stamps its last attack, starts
    /// the battle clock and keeps it from moving for the movement cooldown.
    pub fn set_attack_cooldown(&mut self, now: i64) -> (r: Result<(), GameError>)
        ensures
            r is Ok <==> now as int + MOVEMENT_COOLDOWN <= i64::MAX,
            r is Ok ==> *final(self) == (Agent {
                last_attack: now,
                next_move_time: (now + MOVEMENT_COOLDOWN) as i64,
                battle_start_time: Some(now),
                ..*old(self)
            }),
            r is Err ==> r == Err::<(), GameError>(GameError::Overflow) && *final(self) == *old(self),
    {
        if now > i64::MAX - MOVEMENT_COOLDOWN {
            return Err(GameError::Overflow);
        }
        self.last_attack = now;
        self.next_move_time = now + MOVEMENT_COOLDOWN;
        self.battle_start_time = Some(now);
        Ok(())
    }
}

/// Cooldown boundary: a cooldown is over exactly `cooldown` seconds after
/// it started, and not a second earlier.
pub proof fn lemma_cooldown_boundary(last: i64, cooldown: i64)
    requires
        i64::MIN < last as int + cooldown as int <= i64::MAX,
    ensures
        cooldown_over(last, cooldown, (last + cooldown) as i64),
        !cooldown_over(last, cooldown, (last + cooldown - 1) as i64),
{
}

} // verus!

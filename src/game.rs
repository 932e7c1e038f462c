//! The game record: its authority, its activity flag, and the registries it
//! keeps of agents, alliances and per-staker totals.

use vstd::prelude::*;
use crate::constants::DAILY_REWARD_TOKENS;
use crate::error::{as_result, GameError};
use crate::key::Key;

verus! {

/// An agent's entry in the game's registry.
#[derive(Clone, Debug)]
pub struct AgentInfo {
    pub key: Key,
    pub name: String,
}

/// How much one staker has deposited over all agents, net of withdrawals.
#[derive(Clone, Copy, Debug, PartialEq, Eq, Structural)]
pub struct StakerStake {
    pub staker: Key,
    pub total_stake: u64,
}

/// An alliance record between two agents. Records are never removed: a
/// broken alliance stays inactive and is reactivated if the pair allies
/// again.
#[derive(Clone, Copy, Debug, PartialEq, Eq, Structural)]
pub struct Alliance {
    pub agent1: Key,
    pub agent2: Key,
    pub formed_at: i64,
    pub is_active: bool,
}

#[derive(Clone, Debug)]
pub struct Game {
    pub game_id: u64,
    pub authority: Key,
    pub token_mint: Key,
    pub rewards_vault: Key,
    pub map_diameter: u32,
    pub is_active: bool,
    pub last_update: i64,
    pub bump: u8,
    /// Tokens the reward pool pays out per day over all stakes of a vault.
    pub daily_reward_tokens: u64,
    pub alliances: Vec<Alliance>,
    pub agents: Vec<AgentInfo>,
    pub total_stake_accounts: Vec<StakerStake>,
}

/// The abstract state of an agent's registry entry.
pub struct AgentInfoView {
    pub key: Key,
    pub name: Seq<char>,
}

impl View for AgentInfo {
    type V = AgentInfoView;

    open spec fn view(&self) -> AgentInfoView {
        AgentInfoView { key: self.key, name: self.name@ }
    }
}

/// The abstract state of a game: its scalar fields and its registries as
/// sequences.
pub struct GameView {
    pub game_id: u64,
    pub authority: Key,
    pub token_mint: Key,
    pub rewards_vault: Key,
    pub map_diameter: u32,
    pub is_active: bool,
    pub last_update: i64,
    pub bump: u8,
    pub daily_reward_tokens: u64,
    pub alliances: Seq<Alliance>,
    pub agents: Seq<AgentInfoView>,
    pub total_stake_accounts: Seq<StakerStake>,
}

impl View for Game {
    type V = GameView;

    open spec fn view(&self) -> GameView {
        GameView {
            game_id: self.game_id,
            authority: self.authority,
            token_mint: self.token_mint,
            rewards_vault: self.rewards_vault,
            map_diameter: self.map_diameter,
            is_active: self.is_active,
            last_update: self.last_update,
            bump: self.bump,
            daily_reward_tokens: self.daily_reward_tokens,
            alliances: self.alliances@,
            agents: self.agents@.map_values(|a: AgentInfo| a@),
            total_stake_accounts: self.total_stake_accounts@,
        }
    }
}

/// The error that admission of an action with authority `authority`
/// raises: the caller must be the game's authority and the game active.
pub open spec fn authority_error(game: &Game, authority: Key) -> Option<GameError> {
    if authority != game.authority {
        Some(GameError::Unauthorized)
    } else if !game.is_active {
        Some(GameError::GameNotActive)
    } else {
        None
    }
}

/// The error that admission of an action on an inactive game raises.
pub open spec fn active_error(game: &Game) -> Option<GameError> {
    if !game.is_active {
        Some(GameError::GameNotActive)
    } else {
        None
    }
}

impl Game {
    /// A game record that was never initialized.
    pub fn new() -> (r: Game)
        ensures
            !r.is_active,
            r.alliances@.len() == 0,
            r.agents@.len() == 0,
            r.total_stake_accounts@.len() == 0,
    {
        Game {
            game_id: 0,
            authority: Key { w0: 0, w1: 0, w2: 0, w3: 0 },
            token_mint: Key { w0: 0, w1: 0, w2: 0, w3: 0 },
            rewards_vault: Key { w0: 0, w1: 0, w2: 0, w3: 0 },
            map_diameter: crate::constants::MAP_DIAMETER,
            is_active: false,
            last_update: 0,
            bump: 0,
            daily_reward_tokens: 0,
            alliances: Vec::new(),
            agents: Vec::new(),
            total_stake_accounts: Vec::new(),
        }
    }

    /// Admits an action of `authority`: fails with `Unauthorized` unless it
    /// is the game's authority, then with `GameNotActive` unless the game is
    /// active.
    pub fn check_authority(&self, authority: Key) -> (r: Result<(), GameError>)
        ensures
            r == as_result(authority_error(self, authority)),
    {
        if authority != self.authority {
            return Err(GameError::Unauthorized);
        }
        if !self.is_active {
            return Err(GameError::GameNotActive);
        }
        Ok(())
    }

    /// Admits an action while the game is active.
    pub fn check_active(&self) -> (r: Result<(), GameError>)
        ensures
            r == as_result(active_error(self)),
    {
        if !self.is_active {
            return Err(GameError::GameNotActive);
        }
        Ok(())
    }
}

/// Starts the game `game` under `authority` at `now`. A game that is already
/// active is left alone (`ReentrancyGuard`).
pub fn initialize_game(game: &mut Game, authority: Key, game_id: u32, bump: u8, now: i64) -> (r:
    Result<(), GameError>)
    ensures
        old(game).is_active ==> r == Err::<(), GameError>(GameError::ReentrancyGuard) && *final(game) == *old(game),
        !old(game).is_active ==> r is Ok && *final(game) == (Game {
            game_id: game_id as u64,
            authority,
            is_active: true,
            last_update: now,
            bump,
            daily_reward_tokens: DAILY_REWARD_TOKENS,
            ..*old(game)
        }),
{
    if game.is_active {
        return Err(GameError::ReentrancyGuard);
    }
    game.game_id = game_id as u64;
    game.authority = authority;
    game.is_active = true;
    game.last_update = now;
    game.bump = bump;
    game.daily_reward_tokens = DAILY_REWARD_TOKENS;
    Ok(())
}

/// Ends the game: only its authority may, and only while it is active.
pub fn end_game(game: &mut Game, authority: Key) -> (r: Result<(), GameError>)
    ensures
        r == as_result(authority_error(old(game), authority)),
        r is Err ==> *final(game) == *old(game),
        r is Ok ==> *final(game) == (Game { is_active: false, ..*old(game) }),
{
    game.check_authority(authority)?;
    game.is_active = false;
    Ok(())
}

} // verus!

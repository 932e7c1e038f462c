//! Registering agents in a game, killing them, and forcing their cooldowns.

use vstd::prelude::*;
use vstd::utf8::encode_utf8;
use crate::agent::{fresh_agent, Agent};
use crate::constants::{MAX_AGENTS, MAX_NAME_LEN, MOVEMENT_COOLDOWN};
use crate::error::{first_error, GameError};
use crate::key::Key;
use crate::game::{authority_error, AgentInfo, AgentInfoView, Game, GameView};
use crate::token_account::{balance_of, token_account_ok, token_balance};

verus! {

/// Whether the game's registry holds an agent with key `key`.
pub open spec fn is_registered(game: &Game, key: Key) -> bool {
    exists|i: int| 0 <= i < game.agents@.len() && game.agents@[i].key == key
}

/// Why `authority` cannot register agent `agent_key` named `name`, if it
/// cannot.
pub open spec fn register_error(
    game: &Game,
    authority: Key,
    agent_key: Key,
    name: Seq<char>,
) -> Option<GameError> {
    first_error(
        authority_error(game, authority),
        if is_registered(game, agent_key) {
            Some(GameError::AgentAlreadyExists)
        } else if game.agents@.len() >= MAX_AGENTS {
            Some(GameError::MaxAgentLimitReached)
        } else if encode_utf8(name).len() > MAX_NAME_LEN {
            Some(GameError::NameTooLong)
        } else {
            None
        },
    )
}

fn find_agent(agents: &Vec<AgentInfo>, key: Key) -> (r: bool)
    ensures
        r == exists|i: int| 0 <= i < agents@.len() && agents@[i].key == key,
{
    let mut i: usize = 0;
    while i < agents.len()
        invariant
            0 <= i <= agents.len(),
            forall|j: int| 0 <= j < i ==> agents@[j].key != key,
        decreases agents.len() - i,
    {
        if agents[i].key == key {
            return true;
        }
        i += 1;
    }
    false
}

/// Registers a new living agent with key `agent_key` at `(x, y)` in `game`,
/// on behalf of the game's authority, and records it with `name` in the
/// game's registry. Keys are unique, the registry holds at most four
/// agents, and names at most 32 bytes.
pub fn register_agent(
    game: &mut Game,
    authority: Key,
    agent_key: Key,
    agent_id: u8,
    x: i32,
    y: i32,
    name: String,
) -> (r: Result<Agent, GameError>)
    ensures
        ({
            let e = register_error(old(game), authority, agent_key, name@);
            &&& e is Some ==> r == Err::<Agent, GameError>(e.unwrap()) && *final(game) == *old(game)
            &&& e is None ==> r is Ok && final(game)@ == (GameView {
                agents: old(game)@.agents.push(AgentInfoView { key: agent_key, name: name@ }),
                ..old(game)@
            })
        }),
        r is Ok ==> r->Ok_0 == fresh_agent(agent_key, old(game).game_id, authority, agent_id, x, y),
{
    game.check_authority(authority)?;
    if find_agent(&game.agents, agent_key) {
        return Err(GameError::AgentAlreadyExists);
    }
    if game.agents.len() >= MAX_AGENTS as usize {
        return Err(GameError::MaxAgentLimitReached);
    }
    let name_len = name.as_str().as_bytes().len();
    if name_len > MAX_NAME_LEN {
        return Err(GameError::NameTooLong);
    }
    let agent = Agent::new(agent_key, game.game_id, authority, agent_id, x, y);
    let ghost before = game.agents@;
    game.agents.push(AgentInfo { key: agent_key, name });
    proof {
        assert(game@.agents =~= before.map_values(|a: AgentInfo| a@).push(
            AgentInfoView { key: agent_key, name: name@ },
        ));
        assert(game@.agents == old(game)@.agents.push(AgentInfoView { key: agent_key, name: name@ }));
    }
    Ok(agent)
}

/// Why `authority` cannot kill an agent whose token account is
/// `agent_token`, if it cannot.
pub open spec fn kill_error(game: &Game, authority: Key, agent_token: Seq<u8>) -> Option<GameError> {
    first_error(
        authority_error(game, authority),
        if token_account_ok(agent_token) {
            None
        } else {
            Some(GameError::NotEnoughTokens)
        },
    )
}

/// Marks `agent` dead on behalf of the game's authority and returns the
/// balance of its token account `agent_token`, which the caller hands over
/// to the winner (when it is not zero).
pub fn kill_agent(game: &Game, authority: Key, agent: &mut Agent, agent_token: &[u8]) -> (r: Result<
    u64,
    GameError,
>)
    ensures
        ({
            let e = kill_error(game, authority, agent_token@);
            &&& e is Some ==> r == Err::<u64, GameError>(e.unwrap()) && *final(agent) == *old(agent)
            &&& e is None ==> r == Ok::<u64, GameError>(balance_of(agent_token@)) && *final(agent)
                == (Agent { is_alive: false, ..*old(agent) })
        }),
{
    game.check_authority(authority)?;
    let balance = match token_balance(agent_token) {
        Ok(b) => b,
        Err(_) => return Err(GameError::NotEnoughTokens),
    };
    agent.is_alive = false;
    Ok(balance)
}

/// Puts `agent` into battle at `new_cooldown` on behalf of the game's
/// authority (see `Agent::set_attack_cooldown`).
pub fn set_agent_cooldown(game: &Game, authority: Key, agent: &mut Agent, new_cooldown: i64) -> (r:
    Result<(), GameError>)
    ensures
        ({
            let e = first_error(
                authority_error(game, authority),
                if new_cooldown as int + MOVEMENT_COOLDOWN > i64::MAX {
                    Some(GameError::Overflow)
                } else {
                    None
                },
            );
            &&& e is Some ==> r == Err::<(), GameError>(e.unwrap()) && *final(agent) == *old(agent)
            &&& e is None ==> r is Ok && *final(agent) == (Agent {
                last_attack: new_cooldown,
                next_move_time: (new_cooldown + MOVEMENT_COOLDOWN) as i64,
                battle_start_time: Some(new_cooldown),
                ..*old(agent)
            })
        }),
{
    game.check_authority(authority)?;
    agent.set_attack_cooldown(new_cooldown)
}

} // verus!

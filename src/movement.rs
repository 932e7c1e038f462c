//! Moving agents over the map, and agents ignoring one another.

use vstd::prelude::*;
use crate::agent::{cooldown_over, Agent, IgnoreCooldown};
use crate::constants::IGNORE_COOLDOWN;
use crate::error::{first_error, GameError};
use crate::key::Key;
use crate::game::{active_error, authority_error, Game};
use crate::terrain::{spec_move_duration, TerrainType};

verus! {

/// A move of an agent, as it is reported.
#[derive(Clone, Copy, Debug, PartialEq, Eq, Structural)]
pub struct AgentMoved {
    pub agent_id: u8,
    pub old_x: i32,
    pub old_y: i32,
    pub new_x: i32,
    pub new_y: i32,
}

/// `(x, y)` lies on the round map of diameter `map_diameter` centred on the
/// origin: its distance from the centre is at most half the diameter.
pub open spec fn within_map(x: int, y: int, map_diameter: int) -> bool {
    4 * (x * x + y * y) <= map_diameter * map_diameter
}

/// Whether `(x, y)` lies on the map of diameter `map_diameter`.
pub fn is_valid_coordinate(x: i32, y: i32, map_diameter: u32) -> (r: bool)
    ensures
        r == within_map(x as int, y as int, map_diameter as int),
{
    proof {
        assert(0 <= x as int * x as int <= 0x4000_0000_0000_0000) by (nonlinear_arith)
            requires
                i32::MIN <= x <= i32::MAX,
        ;
        assert(0 <= y as int * y as int <= 0x4000_0000_0000_0000) by (nonlinear_arith)
            requires
                i32::MIN <= y <= i32::MAX,
        ;
        assert(0 <= map_diameter as int * map_diameter as int <= u32::MAX as int * u32::MAX as int)
            by (nonlinear_arith);
    }
    let xx: i128 = (x as i128) * (x as i128);
    let yy: i128 = (y as i128) * (y as i128);
    let d: i128 = (map_diameter as i128) * (map_diameter as i128);
    4 * (xx + yy) <= d
}

/// Why `agent` cannot move to `(new_x, new_y)` at `now`, if it cannot.
pub open spec fn move_error(
    game: &Game,
    authority: Key,
    agent: Agent,
    new_x: i32,
    new_y: i32,
    terrain: TerrainType,
    now: i64,
) -> Option<GameError> {
    first_error(
        authority_error(game, authority),
        if !agent.is_alive {
            Some(GameError::AgentNotAlive)
        } else if now < agent.next_move_time {
            Some(GameError::MovementCooldown)
        } else if !within_map(new_x as int, new_y as int, game.map_diameter as int) {
            Some(GameError::OutOfBounds)
        } else if now as int + spec_move_duration(terrain) > i64::MAX {
            Some(GameError::Overflow)
        } else {
            None
        },
    )
}

/// Moves `agent` to `(new_x, new_y)` over `terrain` at `now`, on behalf of
/// the game's authority. The agent must be alive, out of its move cooldown
/// and stay on the map; it then waits the terrain's duration before its next
/// move.
pub fn move_agent(
    game: &Game,
    authority: Key,
    agent: &mut Agent,
    new_x: i32,
    new_y: i32,
    terrain: TerrainType,
    now: i64,
) -> (r: Result<AgentMoved, GameError>)
    ensures
        ({
            let e = move_error(game, authority, *old(agent), new_x, new_y, terrain, now);
            &&& e is Some ==> r == Err::<AgentMoved, GameError>(e.unwrap()) && *final(agent) == *old(
                agent,
            )
            &&& e is None ==> r == Ok::<AgentMoved, GameError>(
                AgentMoved {
                    agent_id: old(agent).id,
                    old_x: old(agent).x,
                    old_y: old(agent).y,
                    new_x,
                    new_y,
                },
            ) && *final(agent) == (Agent {
                x: new_x,
                y: new_y,
                last_move: now,
                next_move_time: (now + spec_move_duration(terrain)) as i64,
                ..*old(agent)
            })
        }),
{
    game.check_authority(authority)?;
    agent.validate_movement(now)?;
    if !is_valid_coordinate(new_x, new_y, game.map_diameter) {
        return Err(GameError::OutOfBounds);
    }
    let event = AgentMoved { agent_id: agent.id, old_x: agent.x, old_y: agent.y, new_x, new_y };
    agent.apply_terrain_move_cooldown(terrain, now)?;
    agent.x = new_x;
    agent.y = new_y;
    agent.last_move = now;
    Ok(event)
}

/// Why `agent` cannot ignore another agent at `now`, if it cannot.
pub open spec fn ignore_error(game: &Game, authority: Key, agent: Agent, now: i64) -> Option<
    GameError,
> {
    first_error(
        active_error(game),
        if authority != agent.authority {
            Some(GameError::Unauthorized)
        } else if !cooldown_over(agent.last_ignore, IGNORE_COOLDOWN, now) {
            Some(GameError::IgnoreCooldown)
        } else {
            None
        },
    )
}

/// `agent`, controlled by `authority`, ignores the agent `target_agent_id`
/// at `now`; it may do so once every four hours.
pub fn ignore_agent(
    game: &Game,
    authority: Key,
    agent: &mut Agent,
    target_agent_id: u8,
    now: i64,
) -> (r: Result<IgnoreCooldown, GameError>)
    ensures
        ({
            let e = ignore_error(game, authority, *old(agent), now);
            &&& e is Some ==> r == Err::<IgnoreCooldown, GameError>(e.unwrap()) && *final(agent)
                == *old(agent)
            &&& e is None ==> r == Ok::<IgnoreCooldown, GameError>(
                IgnoreCooldown { agent_id: target_agent_id, timestamp: now },
            ) && *final(agent) == (Agent { last_ignore: now, ..*old(agent) })
        }),
{
    game.check_active()?;
    if authority != agent.authority {
        return Err(GameError::Unauthorized);
    }
    agent.validate_ignore(now)?;
    agent.last_ignore = now;
    Ok(IgnoreCooldown { agent_id: target_agent_id, timestamp: now })
}

} // verus!

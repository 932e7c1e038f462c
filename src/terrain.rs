//! Terrain kinds and how long a move onto each keeps an agent busy.

use vstd::prelude::*;
use crate::constants::{MOUNTAIN_MOVE_COOLDOWN, PLAIN_MOVE_COOLDOWN, RIVER_MOVE_COOLDOWN};

verus! {

#[derive(Clone, Copy, Debug, PartialEq, Eq, Structural)]
pub enum TerrainType {
    Plain,
    Mountain,
    River,
}

/// Seconds an agent must wait after moving onto terrain `t`.
pub open spec fn spec_move_duration(t: TerrainType) -> int {
    match t {
        TerrainType::Plain => PLAIN_MOVE_COOLDOWN as int,
        TerrainType::River => RIVER_MOVE_COOLDOWN as int,
        TerrainType::Mountain => MOUNTAIN_MOVE_COOLDOWN as int,
    }
}

impl TerrainType {
    /// Seconds an agent must wait after moving onto this terrain.
    pub fn move_duration(&self) -> (r: i64)
        ensures
            r as int == spec_move_duration(*self),
            r > 0,
    {
        match self {
            TerrainType::Plain => PLAIN_MOVE_COOLDOWN,
            TerrainType::River => RIVER_MOVE_COOLDOWN,
            TerrainType::Mountain => MOUNTAIN_MOVE_COOLDOWN,
        }
    }
}

} // verus!

//! Economic and state-transition core of a persistent-world game: a
//! cooldown gate over agent actions, a share-based staking vault per agent,
//! and the settlement of battles between agents and alliances.
//!
//! Every operation takes the state it touches explicitly, checks all of its
//! preconditions before it changes anything, and reports the token movements
//! that the ledger has to carry out as plain values.

pub mod agent;
pub mod alliance;
pub mod arith;
pub mod battle;
pub mod constants;
pub mod error;
pub mod game;
pub mod key;
pub mod movement;
pub mod registry;
pub mod stake;
pub mod terrain;
pub mod token_account;
pub mod utils;

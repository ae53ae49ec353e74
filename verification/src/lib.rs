//! A turn-based elemental combat engine with a campaign layer.
//!
//! Seven elements stand in a fixed cyclic dominance order; a mutable payoff
//! table maps every ordered pair of elements to the damage each side takes.
//! Rounds are resolved by combining two chosen actions with that table and
//! with per-player combo and stagger markers; a campaign state machine drives
//! levels, rounds and reward phases on top of the battles.

use vstd::prelude::*;

pub mod campaign;
pub mod game;
pub mod player;
mod rng;
pub mod rps;

verus! {

/// Starting health of the tracked (human) player.
pub const PLAYER_START_HP: u32 = 25;

/// Starting health of a spawned opponent.
pub const ENEMY_START_HP: u32 = 5;

} // verus!

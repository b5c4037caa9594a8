use vstd::prelude::*;

pub mod card_effects;
pub mod combat;
pub mod combat_flow;
pub mod content;
pub mod dungeon;
pub mod enemy_turn;
pub mod pairing;
pub mod party;
pub mod rng;
pub mod run_logic;
pub mod save;
pub mod session;
pub mod text;

verus! {
}

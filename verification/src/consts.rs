//! Tunable game constants.

use vstd::prelude::*;

verus! {

/// Amount every resource pool starts with at the beginning of a game.
pub const BASE_RESOURCE_AMOUNT: i32 = 5;
/// Production every resource starts with at the beginning of a game.
pub const BASE_RESOURCE_PRODUCTION: i32 = 1;
/// Tower height both players start with.
pub const BASE_TOWER_HP: i32 = 20;
/// Wall height both players start with.
pub const BASE_WALLS_HP: i32 = 15;
/// A tower is never higher than this; reaching it wins the game.
pub const MAX_TOWER_HP: i32 = 100;
/// Walls are never higher than this.
pub const MAX_WALLS_HP: i32 = 50;
/// A resource's production is never higher than this.
pub const MAX_PRODUCTION: i32 = 10;
/// Every hand holds exactly this many cards.
pub const CARDS_IN_DECK: usize = 5;
/// Cooldown, in milliseconds, after a resolved move before the next
/// move (by either player) is accepted.
pub const DELAY_BETWEEN_MOVES: u64 = 1200;

} // verus!

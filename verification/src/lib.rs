//! Engine for a two-player, turn-based resource-and-tower card game.
//!
//! Each player accumulates typed resources every turn and spends them on
//! cards that raise defenses, damage the opponent, or change production,
//! until one side's tower is destroyed or reaches its maximum height.
//! The engine owns both players, the active-player pointer and the turn
//! timing; a presentation layer translates raw input into intents and
//! drives the engine with `try_use_card` and `update`.

pub mod board;
pub mod card;
pub mod codec;
pub mod consts;
pub mod player;
pub mod snapshot;

//! Small types shared by the engine's start-up.

use vstd::prelude::*;

verus! {

/// The rules of a game with several players.
#[derive(Clone, Copy, PartialEq, Eq, Structural, Debug)]
pub enum MultiplayerMode {
    CoOp,
    Deathmatch,
    AltDeathmatch,
}

/// A number in the engine's fixed-point format.
pub type Fixed = i32;

/// The largest number of players in one game.
pub const MAX_PLAYERS: usize = 4;

} // verus!

//! Core simulation engine for a two-paddle ball-bounce game.
//!
//! All geometry lives on a fixed-point grid: distances are measured in
//! milli-pixels (one thousandth of a pixel) and time in milliseconds, so the
//! whole simulation is exact integer arithmetic. Velocity directions are
//! near-unit vectors scaled by one thousand.

use vstd::prelude::*;

pub mod arith;
pub mod ball;
pub mod config;
pub mod dice;
pub mod motion;
pub mod round;
pub mod session;
pub mod trig;
pub mod utils;

verus! {

/// The screens the game moves through; the simulation core runs only while
/// in `Gameplay`.
#[derive(Clone, Copy, Debug, PartialEq, Eq, Hash, Structural)]
pub enum GameState {
    MainMenu,
    Gameplay,
    GameOver,
}

impl Default for GameState {
    /// The game starts on the main menu.
    fn default() -> (s: GameState)
        ensures
            s == GameState::MainMenu,
    {
        GameState::MainMenu
    }
}

/// The side that won the most recent match; written once at win detection
/// and read by the game-over screen, then overwritten by the next match.
#[derive(Clone, Copy, Debug)]
pub struct LastWinner {
    pub player: Option<crate::utils::DiceKind>,
}

impl Default for LastWinner {
    /// Before any match ends there is no winner to show.
    fn default() -> (w: LastWinner)
        ensures
            (w.player is None),
    {
        LastWinner { player: None }
    }
}

} // verus!

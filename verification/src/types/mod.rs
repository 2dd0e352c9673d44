//! Data the game hands over and data Tachi receives.
pub mod game;
pub mod tachi;

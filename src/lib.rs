//! A player-controlled sprite on a screen whose origin is the centre of the
//! drawable area: arrow keys set the heading and the speed, each frame moves
//! the player, and the frame's events decide whether the game goes on.

pub mod geometry;
pub mod player;
pub mod frame;

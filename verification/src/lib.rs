//! Game logic of a two-player cooperative Japanese typing game: the keyboard
//! is split between a left and a right player, each typing on a keyboard of
//! their own.

pub mod sharing;
pub mod problem;
pub mod words;
pub mod in_game;
pub mod screens;
pub mod status_board;
pub mod result_screen;

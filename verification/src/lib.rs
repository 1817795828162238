//! A 2D board-game engine core: line algebra, rectangle geometry,
//! obstacle-avoiding path planning and a fixed-speed movement stepper.

pub mod algebra_basics;
pub mod debug_utils;
pub mod game_controller;
pub mod game_data;
pub mod gameboard;
pub mod mocks;
pub mod scalar;
pub mod testing;

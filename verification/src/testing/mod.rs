//! Ready-made states for trying the game out.

pub mod setup;

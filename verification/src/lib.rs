//! Rules engine for a two-player game of coloured, sized pieces drawn from a
//! shared bank: star systems, fleets, coloured actions and catastrophes.

pub mod bank;
pub mod commands;
pub mod common;
pub mod game;
pub mod inputs;
pub mod laws;
pub mod order;
pub mod render;
pub mod rules;
pub mod system;
pub mod tally;

//! A toroidal two-dimensional cellular-automaton engine.

pub mod cell;
pub mod driver;
pub mod grid;
pub mod input;
pub mod laws;
pub mod menu;
pub mod model;
pub mod random;
pub mod rules;
pub mod torus;

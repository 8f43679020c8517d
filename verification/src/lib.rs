//! Logical core of a 16x16 LED-matrix Game-of-Life toy: a toroidal cellular
//! automaton, the cursor/input rules used while editing, and the geometry
//! layer that maps the grid onto four 8x8 display panels.

pub mod game;
pub mod input;
pub mod matrix;

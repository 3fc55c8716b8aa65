//! Core logic of a "Simon says" light-and-button memory game.
//!
//! The library holds everything that can be reasoned about without hardware:
//! the per-button debounce state machine, the round of code generation and
//! guess checking, the seed derivation, and the orchestration rules that move
//! the game between rounds, levels and the terminal win state. The hardware
//! edge (pins, lamps, delays, the serial log) stays outside and drives these
//! types with plain values.

pub mod button;
pub mod game;
pub mod machine;
pub mod rng;
pub mod seed;

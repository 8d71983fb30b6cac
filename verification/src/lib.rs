//! A small library of verified building blocks around one central piece:
//! an in-memory accumulator with validated keys, entry-or-insert updates,
//! and snapshot iteration that detects structural mutation.

pub mod accumulator;
pub mod game;
pub mod guess;
pub mod numbers;
pub mod restaurant;
pub mod shapes;
pub mod summary;
pub mod text;
pub mod users;
pub mod validate;

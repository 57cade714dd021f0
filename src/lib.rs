//! A boolean state machine: a value that can be read, negated, or recomputed
//! from 32 bytes of seed material by the parity of their sum.

pub mod flipper;

pub use flipper::{seed_to_value, Flipped, Flipper, FlipperError};

//! Cheat-code password codec for a legacy game's code-entry screen.
//!
//! A set of 26 named cheat switches is kept as a 32-bit bitmask. The
//! password shown to the player is that bitmask with its bytes permuted
//! and the result XORed with a fixed key; decoding inverts both steps.

pub mod codec;
pub mod flags;

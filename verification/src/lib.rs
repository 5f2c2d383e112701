//! A 4-bit virtual CPU and the session protocol that drives it.
//!
//! The machine packs four 4-bit registers and sixteen 4-bit memory
//! locations into a ten-byte wire image supplied by a client.  A bounded
//! fetch-execute loop runs the sixteen-opcode instruction set, an
//! acceptance predicate judges the final state, and a linear session
//! state machine turns the outcome into a response.

use vstd::prelude::*;

pub mod instructions;
pub mod machine;
pub mod memory;
pub mod profile;
pub mod registers;
pub mod state;
pub mod text;

verus! {

/// Largest value a 4-bit register, memory location or port slot can hold.
pub const MAX_VALUE: u8 = 15;

} // verus!

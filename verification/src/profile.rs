//! Difficulty profiles.
//!
//! A profile is chosen once at server configuration time and threaded
//! explicitly into the execution loop and the acceptance predicate.  It
//! decides whether the port instructions are enabled, whether an invalid
//! instruction is surfaced as an execution error or only halts the
//! machine, how the input port is seeded, and which final states are
//! accepted.

use vstd::prelude::*;

verus! {

/// The difficulty profile selected at server start.
#[derive(Clone, Copy, Debug, PartialEq, Eq, Structural)]
pub enum Profile {
    /// Narrow acceptance window over counter, IP, AC and leading memory.
    A,
    /// Counter ceiling and a specific AC value.
    B,
    /// Port instructions enabled; acceptance checks both port queues.
    C,
    /// No profile selected: every machine is accepted.
    Open,
}

impl Profile {
    /// GET and PUT are legal instructions only under this profile.
    pub open spec fn ports_enabled(self) -> bool {
        self is C
    }

    /// Under this profile an invalid instruction halts the machine
    /// without surfacing an execution error.
    pub open spec fn suppresses_invalid(self) -> bool {
        self is A
    }
}

} // verus!

//! Failures of control-flow graph construction.

use vstd::prelude::*;
use crate::instruction::error::InstructionError;

verus! {

/// Why the control-flow graph of a method could not be built.
#[derive(Clone, Copy, Debug, PartialEq, Eq, Structural)]
pub enum CallGraphError {
    /// A switch payload was found at the given address to which no switch
    /// instruction refers, or a switch instruction at the given address has
    /// no decoded payload.
    MissingSwitchOrigin(u32),
    /// An instruction cannot be used the way its opcode asks for.
    InstructionError(InstructionError),
}

} // verus!

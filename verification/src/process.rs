//! Process and saved CPU state descriptors.
use vstd::prelude::*;

verus! {

/// A process: an identifier followed by its stack.
pub struct Process {
    pub id: u8,
    pub stack: [u8],
}

/// Registers saved by software on a context switch, and the process stack
/// pointer.
pub struct CPUState {
    pub saved_registers: [usize; 8],
    pub psp: u32,
}

impl Process {
    /// Hook run when switching to a process; it changes nothing.
    pub fn switch_to() {
    }

    /// Hook run when switching away from a process; it changes nothing.
    pub fn switch_from() {
    }
}

} // verus!

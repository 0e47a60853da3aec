//! Pre-emptive round-robin thread switching for ARM Cortex-M processors.
//!
//! The scheduler state, the thread control blocks and the initial
//! exception frame laid on each thread's stack are modelled here with
//! plain values; the interrupt masking, the memory-mapped registers and the
//! PendSV context switch are performed by the caller on the actions that
//! these functions return.
pub mod hw;
pub mod laws;
pub mod os;
pub mod process;
pub mod scheduler;
pub mod thread;

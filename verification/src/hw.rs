//! System control block registers that the scheduler drives.
use vstd::prelude::*;

verus! {

/// Address of the Interrupt Control and State Register (ICSR).
pub const ICSR_ADDR: u32 = 0xE000ED04;

/// The PENDSVSET bit of the ICSR: writing it pends the PendSV exception.
pub const PENDSVSET: u32 = 0x1000_0000;

/// Address of the System Handler Priority Register 3 (SHPR3).
pub const SHPR3_ADDR: u32 = 0xE000ED20;

/// SHPR3 value that gives PendSV the lowest priority.
pub const PENDSV_LOWEST_PRIORITY: u32 = 0x00FF_0000;

/// The ICSR value to write back so that PendSV becomes pending while every
/// other bit read from the register is kept.
pub fn pend_sv_request(icsr: u32) -> (r: u32)
    ensures
        r == icsr | PENDSVSET,
        r & PENDSVSET == PENDSVSET,
        r & !PENDSVSET == icsr & !PENDSVSET,
{
    let r = icsr | PENDSVSET;
    assert(r & 0x1000_0000u32 == 0x1000_0000u32 && r & !0x1000_0000u32 == icsr & !0x1000_0000u32) by (bit_vector)
        requires r == icsr | 0x1000_0000u32;
    r
}

} // verus!

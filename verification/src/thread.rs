//! Thread control blocks and the exception frame that starts a thread.
use vstd::prelude::*;

verus! {

/// Number of words that a new thread's stack receives: the eight words that
/// the processor unstacks on exception return and the eight callee-saved
/// registers that the context switch restores.
pub const FRAME_WORDS: usize = 16;

/// Initial xPSR: only the Thumb state bit is set.
pub const XPSR_THUMB: u32 = 0x0100_0000;

/// Exception return value: back to Thread mode, on the process stack.
pub const EXC_RETURN_THREAD_PSP: u32 = 0xFFFF_FFFD;

/// Whether a thread may be scheduled or waits for its sleep to end.
#[derive(Clone, Copy, Debug, PartialEq, Eq, Structural)]
pub enum ThreadStatus {
    Idle,
    Sleeping,
}

/// A single thread's state.
#[derive(Clone, Copy, Debug, PartialEq, Eq, Structural)]
pub struct ThreadControlBlock {
    /// Current stack pointer of this thread.
    pub sp: u32,
    pub status: ThreadStatus,
    /// Scheduling rounds left before a sleeping thread wakes up.
    pub sleep_ticks: u32,
}

/// The sixteen words, from the lowest address up, that a new thread's stack
/// ends with: R8-R11, R4-R7 (restored by the context switch), then R0-R3,
/// R12, LR, PC and xPSR (unstacked by the exception return). Each register
/// but PC holds a marker value that shows its name in a memory dump.
pub open spec fn initial_frame(handler: u32) -> Seq<u32> {
    seq![
        0x8888_8888u32, 0x9999_9999u32, 0xAAAA_AAAAu32, 0xBBBB_BBBBu32,
        0x4444_4444u32, 0x5555_5555u32, 0x6666_6666u32, 0x7777_7777u32,
        0x0000_0000u32, 0x1111_1111u32, 0x2222_2222u32, 0x3333_3333u32,
        0xCCCC_CCCCu32, EXC_RETURN_THREAD_PSP, handler, XPSR_THUMB,
    ]
}

/// Address of the word at `index` of a stack of `u32` that starts at `base`.
pub open spec fn word_addr(base: u32, index: int) -> int {
    base + 4 * index
}

/// Lays the initial frame of a thread that starts at `handler` on top of
/// `stack`, whose first word lies at address `stack_addr`, and returns the
/// thread's control block: its stack pointer designates the lowest word of
/// the frame, and it is ready to run.
pub fn create_tcb(stack: &mut [u32], handler: u32, stack_addr: u32) -> (tcb: ThreadControlBlock)
    requires
        old(stack)@.len() >= FRAME_WORDS,
        word_addr(stack_addr, old(stack)@.len() - FRAME_WORDS) <= u32::MAX,
    ensures
        final(stack)@ == old(stack)@.subrange(0, old(stack)@.len() - FRAME_WORDS) + initial_frame(handler),
        final(stack)@.len() == old(stack)@.len(),
        forall|i: int| 0 <= i < old(stack)@.len() - FRAME_WORDS ==> #[trigger] final(stack)@[i] == old(stack)@[i],
        final(stack)@[old(stack)@.len() - 2] == handler,
        final(stack)@[old(stack)@.len() - 1] == XPSR_THUMB,
        final(stack)@[old(stack)@.len() - 3] == EXC_RETURN_THREAD_PSP,
        tcb.sp == stack_addr + 4 * (old(stack)@.len() - FRAME_WORDS),
        tcb.status == ThreadStatus::Idle,
        tcb.sleep_ticks == 0,
        tcb == (ThreadControlBlock {
            sp: word_addr(stack_addr, old(stack)@.len() - FRAME_WORDS) as u32,
            status: ThreadStatus::Idle,
            sleep_ticks: 0,
        }),
{
    let idx = stack.len() - 1;
    stack[idx] = XPSR_THUMB;  // xPSR
    stack[idx - 1] = handler;  // PC
    stack[idx - 2] = EXC_RETURN_THREAD_PSP;  // LR
    stack[idx - 3] = 0xCCCC_CCCC;  // R12
    stack[idx - 4] = 0x3333_3333;  // R3
    stack[idx - 5] = 0x2222_2222;  // R2
    stack[idx - 6] = 0x1111_1111;  // R1
    stack[idx - 7] = 0x0000_0000;  // R0
    // additional registers
    stack[idx - 8] = 0x7777_7777;  // R7
    stack[idx - 9] = 0x6666_6666;  // R6
    stack[idx - 10] = 0x5555_5555;  // R5
    stack[idx - 11] = 0x4444_4444;  // R4
    stack[idx - 12] = 0xBBBB_BBBB;  // R11
    stack[idx - 13] = 0xAAAA_AAAA;  // R10
    stack[idx - 14] = 0x9999_9999;  // R9
    stack[idx - 15] = 0x8888_8888;  // R8
    assert(stack@ =~= old(stack)@.subrange(0, old(stack)@.len() - FRAME_WORDS) + initial_frame(handler));
    let offset: u32 = (stack.len() - FRAME_WORDS) as u32;
    ThreadControlBlock { sp: stack_addr + 4 * offset, status: ThreadStatus::Idle, sleep_ticks: 0 }
}

} // verus!

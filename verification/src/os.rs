//! A two-thread round-robin kernel: each system tick hands the processor to
//! the other thread.
use vstd::prelude::*;

verus! {

/// Number of words of each thread's stack.
pub const TASK_STACK_WORDS: usize = 256;

/// Slot of the lowest word of the initial frame on a thread's stack.
pub const TASK_FRAME_START: usize = 240;

/// A thread: its saved stack pointer.
#[derive(Clone, Copy, Debug, PartialEq, Eq, Structural)]
pub struct OSThread {
    pub sp: u32,
}

/// The kernel state. `curr` and `next` hold the addresses of the thread
/// records of the running thread and of the one to switch to (`0` for
/// none); `_idx` is the slot that the next scheduling round chooses.
pub struct OS {
    pub curr: u32,
    pub next: u32,
    pub _idx: usize,
    pub threads: [OSThread; 2],
}

/// The sixteen words, from slot `TASK_FRAME_START` up, that a thread's
/// stack starts with: R4-R11, then R0-R3, R12, LR, PC and xPSR; each
/// register but PC and xPSR holds its own number.
pub open spec fn task_frame(handler: u32) -> Seq<u32> {
    seq![
        0x4u32, 0x5u32, 0x6u32, 0x7u32, 0x8u32, 0x9u32, 0xAu32, 0xBu32,
        0x0u32, 0x1u32, 0x2u32, 0x3u32, 0xCu32, 0xEu32, handler, 0x0100_0000u32,
    ]
}

/// Lays the initial frame of a thread that starts at `handler` on the top
/// sixteen words of `stack`; the words below are left as they are.
pub fn init_task_stack(stack: &mut [u32; TASK_STACK_WORDS], handler: u32)
    ensures
        final(stack)@ == old(stack)@.subrange(0, TASK_FRAME_START as int) + task_frame(handler),
        forall|i: int| 0 <= i < TASK_FRAME_START ==> #[trigger] final(stack)@[i] == old(stack)@[i],
        final(stack)@[254] == handler,
        final(stack)@[255] == 0x0100_0000u32,
        final(stack)@[253] == 0x0000_000Eu32,
{
    stack[255] = 0x0100_0000;
    stack[254] = handler;
    stack[253] = 0x0000000E;
    stack[252] = 0x0000000C;
    stack[251] = 0x00000003;
    stack[250] = 0x00000002;
    stack[249] = 0x00000001;
    stack[248] = 0x00000000;
    // additional registers
    stack[247] = 0x0000000B;
    stack[246] = 0x0000000A;
    stack[245] = 0x00000009;
    stack[244] = 0x00000008;
    stack[243] = 0x00000007;
    stack[242] = 0x00000006;
    stack[241] = 0x00000005;
    stack[240] = 0x00000004;
    assert(stack@ =~= old(stack)@.subrange(0, TASK_FRAME_START as int) + task_frame(handler));
}

impl OS {
    /// A kernel with two threads whose saved stack pointers are `sp1` and
    /// `sp2`; no thread runs yet and the first round chooses the first one.
    pub fn new(sp1: u32, sp2: u32) -> (os: OS)
        ensures
            os.curr == 0,
            os.next == 0,
            os._idx == 0,
            os.threads@ == seq![OSThread { sp: sp1 }, OSThread { sp: sp2 }],
    {
        let os = OS {
            curr: 0,
            next: 0,
            _idx: 0,
            threads: [OSThread { sp: sp1 }, OSThread { sp: sp2 }],
        };
        assert(os.threads@ =~= seq![OSThread { sp: sp1 }, OSThread { sp: sp2 }]);
        os
    }

    /// The system tick. When no switch is pending, the thread of slot
    /// `_idx` becomes `next` (its record lies at `threads_addr + 4 * _idx`)
    /// and `_idx` moves on to the other slot. Returns whether a round took
    /// place and whether the caller must pend the PendSV exception.
    pub fn tick(&mut self, threads_addr: u32) -> (r: (bool, bool))
        requires
            old(self)._idx < 2,
            threads_addr + 4 <= u32::MAX,
        ensures
            r.0 == (old(self).curr == old(self).next),
            r.0 ==> final(self).next == threads_addr + 4 * old(self)._idx,
            r.0 ==> final(self)._idx == 1 - old(self)._idx,
            !r.0 ==> final(self).next == old(self).next && final(self)._idx == old(self)._idx,
            final(self).curr == old(self).curr,
            final(self).threads == old(self).threads,
            r.1 == (final(self).curr != final(self).next),
    {
        let scheduled = self.curr == self.next;
        if scheduled {
            // schedule a thread to be run
            self.next = threads_addr + 4 * (self._idx as u32);
            self._idx = self._idx + 1;
            if self._idx > self.threads.len() - 1 {
                self._idx = 0;
            }
        }
        (scheduled, self.curr != self.next)
    }
}

} // verus!

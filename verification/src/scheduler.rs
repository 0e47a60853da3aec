//! The scheduler: which thread runs next, and how sleeping threads wake up.
use vstd::prelude::*;
use crate::thread::{
    create_tcb, initial_frame, word_addr, ThreadControlBlock, ThreadStatus, EXC_RETURN_THREAD_PSP, FRAME_WORDS,
    XPSR_THUMB,
};
use crate::laws::{
    lemma_idle_iff_all_asleep, lemma_no_awake_thread_skipped, lemma_round_robin, lemma_round_ages_each_thread,
    lemma_sleep_records_request, lemma_switch_saves_outgoing_sp, offset,
};

verus! {

/// Number of thread control blocks: the idle thread in slot 0 and up to
/// thirty-one user threads.
pub const MAX_THREADS: usize = 32;

/// Context switching and threads' state.
///
/// `curr` designates the thread whose context is on the processor and `next`
/// the one that the pending context switch brings in; `None` stands for no
/// thread (before the first switch). `idx` is the slot of the thread that
/// the last scheduling round chose, and `add_idx` the slot that the next
/// created thread takes.
pub struct ThreadsState {
    pub curr: Option<usize>,
    pub next: Option<usize>,
    pub inited: bool,
    pub idx: usize,
    pub add_idx: usize,
    pub threads: [ThreadControlBlock; MAX_THREADS],
}

/// The mathematical model of a [`ThreadsState`].
pub struct SchedulerView {
    pub curr: Option<usize>,
    pub next: Option<usize>,
    pub inited: bool,
    pub idx: usize,
    pub add_idx: usize,
    pub threads: Seq<ThreadControlBlock>,
}

impl View for ThreadsState {
    type V = SchedulerView;

    open spec fn view(&self) -> SchedulerView {
        SchedulerView {
            curr: self.curr,
            next: self.next,
            inited: self.inited,
            idx: self.idx,
            add_idx: self.add_idx,
            threads: self.threads@,
        }
    }
}

/// A thread that a scheduling round may choose.
pub open spec fn awake(t: ThreadControlBlock) -> bool {
    t.status != ThreadStatus::Sleeping
}

/// What one scheduling round does to a thread: a sleeping thread with ticks
/// left loses one, a sleeping thread with none left wakes up.
pub open spec fn age(t: ThreadControlBlock) -> ThreadControlBlock {
    if t.status == ThreadStatus::Sleeping {
        if t.sleep_ticks > 0 {
            ThreadControlBlock { sleep_ticks: (t.sleep_ticks - 1) as u32, ..t }
        } else {
            ThreadControlBlock { status: ThreadStatus::Idle, ..t }
        }
    } else {
        t
    }
}

/// The threads after a scheduling round over the user threads in slots
/// `1..n`; the idle thread and the free slots are left alone.
pub open spec fn age_threads(threads: Seq<ThreadControlBlock>, n: int) -> Seq<ThreadControlBlock> {
    Seq::new(threads.len(), |i: int| if 1 <= i < n { age(threads[i]) } else { threads[i] })
}

/// The slot where the search for the next thread starts: the one after
/// `idx`, or the first user slot when `idx` is the last one.
pub open spec fn scan_start(idx: int, n: int) -> int {
    if idx + 1 >= n { 1 } else { idx + 1 }
}

/// The `k`-th user slot visited by a search that starts at `start` and
/// wraps around from `n - 1` to `1`.
pub open spec fn candidate(start: int, k: int, n: int) -> int {
    if start + k < n { start + k } else { start + k - (n - 1) }
}

/// The first awake thread among the user slots visited from the `k`-th on,
/// or `0` (the idle thread) when they all sleep.
pub open spec fn first_awake_from(threads: Seq<ThreadControlBlock>, start: int, n: int, k: int) -> int
    decreases n - 1 - k,
{
    if k >= n - 1 {
        0
    } else if awake(threads[candidate(start, k, n)]) {
        candidate(start, k, n)
    } else {
        first_awake_from(threads, start, n, k + 1)
    }
}

/// Round robin: the first awake user thread after the one in slot `idx`,
/// wrapping around over the user slots `1..n`, or the idle thread.
pub open spec fn pick_next(threads: Seq<ThreadControlBlock>, idx: int, n: int) -> int {
    first_awake_from(threads, scan_start(idx, n), n, 0)
}

impl SchedulerView {
    /// The invariant that every operation keeps.
    pub open spec fn wf(self) -> bool {
        &&& self.threads.len() == MAX_THREADS
        &&& 1 <= self.add_idx <= MAX_THREADS
        &&& self.idx < self.add_idx
        &&& self.threads[0].status == ThreadStatus::Idle
        &&& (self.curr matches Some(c) ==> c < self.add_idx)
        &&& (self.next matches Some(c) ==> c < self.add_idx)
    }

    /// The state after a scheduling round ages the sleeping threads.
    pub open spec fn aged(self) -> SchedulerView {
        SchedulerView { threads: age_threads(self.threads, self.add_idx as int), ..self }
    }

    /// The state after a system tick: once the scheduler runs and no switch
    /// is pending, a scheduling round chooses the next thread.
    pub open spec fn tick(self) -> SchedulerView {
        if self.inited && self.curr == self.next {
            let threads = age_threads(self.threads, self.add_idx as int);
            let idx = pick_next(threads, self.idx as int, self.add_idx as int) as usize;
            SchedulerView { threads, idx, next: Some(idx), ..self }
        } else {
            self
        }
    }

    /// Whether a system tick asks for a context switch.
    pub open spec fn tick_pends_switch(self) -> bool {
        self.inited && self.tick().curr != self.tick().next
    }

    /// The state after the thread of slot `idx` has put itself to sleep for
    /// `ticks` scheduling rounds (before the tick that follows).
    pub open spec fn slept(self, ticks: u32) -> SchedulerView {
        SchedulerView {
            threads: self.threads.update(
                self.idx as int,
                ThreadControlBlock {
                    status: ThreadStatus::Sleeping,
                    sleep_ticks: ticks,
                    ..self.threads[self.idx as int]
                },
            ),
            ..self
        }
    }

    /// The state after the context switch: the outgoing thread's stack
    /// pointer is saved in its control block and `next` becomes current.
    pub open spec fn switched(self, outgoing_sp: u32) -> SchedulerView {
        let threads = match self.curr {
            Some(c) => self.threads.update(c as int, ThreadControlBlock { sp: outgoing_sp, ..self.threads[c as int] }),
            None => self.threads,
        };
        SchedulerView { threads, curr: self.next, ..self }
    }
}

/// The search visits user slots only.
pub proof fn lemma_candidate_in_range(start: int, k: int, n: int)
    requires
        1 <= start < n,
        0 <= k < n - 1,
    ensures
        1 <= candidate(start, k, n) < n,
{
}

/// The search ends on the idle thread or on an awake user thread.
pub proof fn lemma_first_awake_from_range(threads: Seq<ThreadControlBlock>, start: int, n: int, k: int)
    requires
        1 <= start < n,
        0 <= k,
    ensures
        first_awake_from(threads, start, n, k) == 0 || (1 <= first_awake_from(threads, start, n, k) < n
            && awake(threads[first_awake_from(threads, start, n, k)])),
    decreases n - 1 - k,
{
    if k < n - 1 {
        lemma_candidate_in_range(start, k, n);
        lemma_first_awake_from_range(threads, start, n, k + 1);
    }
}

/// Each scheduling round chooses the idle thread or an awake user thread.
pub proof fn lemma_pick_next_range(threads: Seq<ThreadControlBlock>, idx: int, n: int)
    requires
        0 <= idx,
    ensures
        pick_next(threads, idx, n) == 0 || (1 <= pick_next(threads, idx, n) < n && awake(
            threads[pick_next(threads, idx, n)],
        )),
{
    if n > 1 {
        lemma_first_awake_from_range(threads, scan_start(idx, n), n, 0);
    }
}

impl ThreadsState {
    /// The state before any thread exists: no thread is current, the
    /// scheduler is off and the first user thread goes to slot 1.
    pub fn new() -> (s: Self)
        ensures
            s@.wf(),
            s@.curr is None,
            s@.next is None,
            !s@.inited,
            s@.idx == 0,
            s@.add_idx == 1,
            forall|i: int| 0 <= i < MAX_THREADS ==> s@.threads[i] == (ThreadControlBlock {
                sp: 0,
                status: ThreadStatus::Idle,
                sleep_ticks: 0,
            }),
    {
        let empty = ThreadControlBlock { sp: 0, status: ThreadStatus::Idle, sleep_ticks: 0 };
        let s = ThreadsState {
            curr: None,
            next: None,
            inited: false,
            idx: 0,
            add_idx: 1,
            threads: [empty; MAX_THREADS],
        };
        assert(s.threads@[0] == empty);
        s
    }

    /// Stores `tcb` in slot `idx`.
    pub fn insert_tcb(&mut self, idx: usize, tcb: ThreadControlBlock)
        requires
            idx < MAX_THREADS,
        ensures
            final(self)@ == (SchedulerView { threads: old(self)@.threads.update(idx as int, tcb), ..old(self)@ }),
    {
        self.threads[idx] = tcb;
    }

    /// One scheduling round: ages the sleeping user threads, then returns
    /// the slot of the first awake user thread after the one in slot `idx`
    /// (round robin), or `0`, the idle thread, when every user thread sleeps.
    pub fn get_next_thread_idx(&mut self) -> (r: usize)
        requires
            old(self)@.wf(),
        ensures
            final(self)@ == old(self)@.aged(),
            r == pick_next(final(self)@.threads, old(self).idx as int, old(self).add_idx as int),
            r < old(self).add_idx,
            final(self).curr == old(self).curr,
            final(self).next == old(self).next,
            final(self).inited == old(self).inited,
            final(self).idx == old(self).idx,
            final(self).add_idx == old(self).add_idx,
            forall|j: int|
                1 <= j < old(self).add_idx && #[trigger] old(self).threads@[j].status == ThreadStatus::Sleeping
                    && old(self).threads@[j].sleep_ticks > 0 ==> final(self).threads@[j] == (ThreadControlBlock {
                    sleep_ticks: (old(self).threads@[j].sleep_ticks - 1) as u32,
                    ..old(self).threads@[j]
                }),
            forall|j: int|
                1 <= j < old(self).add_idx && #[trigger] old(self).threads@[j].status == ThreadStatus::Sleeping
                    && old(self).threads@[j].sleep_ticks == 0 ==> final(self).threads@[j] == (ThreadControlBlock {
                    status: ThreadStatus::Idle,
                    ..old(self).threads@[j]
                }),
            forall|j: int|
                0 <= j < MAX_THREADS && !(1 <= j < old(self).add_idx && old(self).threads@[j].status
                    == ThreadStatus::Sleeping) ==> #[trigger] final(self).threads@[j] == old(self).threads@[j],
            r == 0 || final(self).threads@[r as int].status != ThreadStatus::Sleeping,
            r == 0 <==> forall|j: int|
                1 <= j < old(self).add_idx ==> #[trigger] final(self).threads@[j].status == ThreadStatus::Sleeping,
            forall|j: int|
                1 <= j < old(self).add_idx && #[trigger] final(self).threads@[j].status != ThreadStatus::Sleeping
                    ==> r != 0 && offset(scan_start(old(self).idx as int, old(self).add_idx as int), r as int, old(self).add_idx as int)
                    <= offset(scan_start(old(self).idx as int, old(self).add_idx as int), j, old(self).add_idx as int),
            old(self).add_idx > 1 && (forall|j: int|
                1 <= j < old(self).add_idx ==> #[trigger] final(self).threads@[j].status != ThreadStatus::Sleeping)
                ==> r == if old(self).idx + 1 < old(self).add_idx { old(self).idx + 1 } else { 1 },
    {
        let r = self.scan_next_thread();
        proof {
            let s = old(self)@;
            let n = s.add_idx as int;
            assert forall|j: int| 0 <= j < MAX_THREADS implies {
                &&& (1 <= j < n && s.threads[j].status == ThreadStatus::Sleeping && s.threads[j].sleep_ticks > 0
                    ==> self.threads@[j] == (ThreadControlBlock { sleep_ticks: (s.threads[j].sleep_ticks - 1) as u32, ..s.threads[j] }))
                &&& (1 <= j < n && s.threads[j].status == ThreadStatus::Sleeping && s.threads[j].sleep_ticks == 0
                    ==> self.threads@[j] == (ThreadControlBlock { status: ThreadStatus::Idle, ..s.threads[j] }))
                &&& (!(1 <= j < n && s.threads[j].status == ThreadStatus::Sleeping) ==> self.threads@[j] == s.threads[j])
            } by {
                lemma_round_ages_each_thread(s.threads, n, j);
            }
            lemma_pick_next_range(self.threads@, s.idx as int, n);
            lemma_idle_iff_all_asleep(self.threads@, s.idx as int, n);
            if n > 1 && (forall|j: int| 1 <= j < n ==> #[trigger] self.threads@[j].status != ThreadStatus::Sleeping) {
                lemma_round_robin(self.threads@, s.idx as int, n);
            }
            assert forall|j: int|
                1 <= j < n && #[trigger] self.threads@[j].status != ThreadStatus::Sleeping implies r != 0 && offset(
                    scan_start(s.idx as int, n),
                    r as int,
                    n,
                ) <= offset(scan_start(s.idx as int, n), j, n) by {
                lemma_no_awake_thread_skipped(self.threads@, s.idx as int, n, j);
            }
        }
        r
    }

    /// The scheduling round of [`Self::get_next_thread_idx`].
    fn scan_next_thread(&mut self) -> (r: usize)
        requires
            old(self)@.wf(),
        ensures
            final(self)@ == old(self)@.aged(),
            r == pick_next(final(self)@.threads, old(self).idx as int, old(self).add_idx as int),
            r < old(self).add_idx,
    {
        let n = self.add_idx;
        if n > 1 {
            // update sleeping threads
            let mut i: usize = 1;
            while i < n
                invariant
                    1 <= i <= n <= MAX_THREADS,
                    n == old(self).add_idx,
                    self.curr == old(self).curr,
                    self.next == old(self).next,
                    self.inited == old(self).inited,
                    self.idx == old(self).idx,
                    self.add_idx == old(self).add_idx,
                    forall|j: int|
                        0 <= j < MAX_THREADS ==> self.threads@[j] == if 1 <= j < i {
                            age(old(self).threads@[j])
                        } else {
                            old(self).threads@[j]
                        },
                decreases n - i,
            {
                let mut t = self.threads[i];
                if t.status == ThreadStatus::Sleeping {
                    if t.sleep_ticks > 0 {
                        t.sleep_ticks = t.sleep_ticks - 1;
                    } else {
                        t.status = ThreadStatus::Idle;
                    }
                }
                self.threads[i] = t;
                i = i + 1;
            }
            assert(self.threads@ =~= age_threads(old(self).threads@, n as int));
            let ghost threads = self.threads@;
            let ghost target = pick_next(threads, old(self).idx as int, n as int);
            let start_idx = self.idx + 1;
            if start_idx >= n {
                let mut i: usize = 1;
                while i < n
                    invariant
                        1 <= i <= n <= MAX_THREADS,
                        self@ == old(self)@.aged(),
                        threads == self.threads@,
                        n == old(self).add_idx,
                        target == pick_next(threads, old(self).idx as int, n as int),
                        scan_start(old(self).idx as int, n as int) == 1,
                        target == first_awake_from(threads, 1, n as int, i - 1),
                    decreases n - i,
                {
                    if self.threads[i].status != ThreadStatus::Sleeping {
                        return i;
                    }
                    i = i + 1;
                }
                0
            } else {
                let mut i: usize = start_idx;
                while i < n
                    invariant
                        start_idx <= i <= n <= MAX_THREADS,
                        1 <= start_idx < n,
                        self@ == old(self)@.aged(),
                        threads == self.threads@,
                        n == old(self).add_idx,
                        target == pick_next(threads, old(self).idx as int, n as int),
                        scan_start(old(self).idx as int, n as int) == start_idx,
                        target == first_awake_from(threads, start_idx as int, n as int, i - start_idx),
                    decreases n - i,
                {
                    if self.threads[i].status != ThreadStatus::Sleeping {
                        return i;
                    }
                    i = i + 1;
                }
                let mut i: usize = 1;
                while i < start_idx
                    invariant
                        1 <= i <= start_idx < n <= MAX_THREADS,
                        self@ == old(self)@.aged(),
                        threads == self.threads@,
                        n == old(self).add_idx,
                        target == pick_next(threads, old(self).idx as int, n as int),
                        scan_start(old(self).idx as int, n as int) == start_idx,
                        target == first_awake_from(
                            threads,
                            start_idx as int,
                            n as int,
                            (n - start_idx) + i - 1,
                        ),
                    decreases start_idx - i,
                {
                    if self.threads[i].status != ThreadStatus::Sleeping {
                        return i;
                    }
                    i = i + 1;
                }
                0
            }
        } else {
            assert(self.threads@ =~= age_threads(old(self).threads@, n as int));
            0
        }
    }
    /// The system tick: once the scheduler runs and no context switch is
    /// pending, a scheduling round chooses the next thread. Returns whether
    /// the caller must pend the PendSV exception to switch to it.
    pub fn tick(&mut self) -> (pend: bool)
        requires
            old(self)@.wf(),
        ensures
            final(self)@ == old(self)@.tick(),
            pend == old(self)@.tick_pends_switch(),
            final(self)@.wf(),
            !(old(self).inited && old(self).curr == old(self).next) ==> final(self)@ == old(self)@ && pend == (
            old(self).inited && old(self).curr != old(self).next),
            old(self).inited && old(self).curr == old(self).next ==> {
                &&& final(self).curr == old(self).curr
                &&& final(self).next == Some(final(self).idx)
                &&& final(self).inited
                &&& final(self).add_idx == old(self).add_idx
                &&& pend == (old(self).curr != Some(final(self).idx))
                &&& forall|j: int|
                    1 <= j < old(self).add_idx && #[trigger] old(self).threads@[j].status == ThreadStatus::Sleeping
                        && old(self).threads@[j].sleep_ticks > 0 ==> final(self).threads@[j] == (ThreadControlBlock {
                        sleep_ticks: (old(self).threads@[j].sleep_ticks - 1) as u32,
                        ..old(self).threads@[j]
                    })
                &&& forall|j: int|
                    1 <= j < old(self).add_idx && #[trigger] old(self).threads@[j].status == ThreadStatus::Sleeping
                        && old(self).threads@[j].sleep_ticks == 0 ==> final(self).threads@[j] == (ThreadControlBlock {
                        status: ThreadStatus::Idle,
                        ..old(self).threads@[j]
                    })
                &&& forall|j: int|
                    0 <= j < MAX_THREADS && !(1 <= j < old(self).add_idx && old(self).threads@[j].status
                        == ThreadStatus::Sleeping) ==> #[trigger] final(self).threads@[j] == old(self).threads@[j]
                &&& (final(self).idx == 0 || final(self).threads@[final(self).idx as int].status
                    != ThreadStatus::Sleeping)
                &&& (final(self).idx == 0 <==> forall|j: int|
                    1 <= j < old(self).add_idx ==> #[trigger] final(self).threads@[j].status == ThreadStatus::Sleeping)
                &&& forall|j: int|
                    1 <= j < old(self).add_idx && #[trigger] final(self).threads@[j].status != ThreadStatus::Sleeping
                        ==> final(self).idx != 0 && offset(
                        scan_start(old(self).idx as int, old(self).add_idx as int),
                        final(self).idx as int,
                        old(self).add_idx as int,
                    ) <= offset(scan_start(old(self).idx as int, old(self).add_idx as int), j, old(self).add_idx as int)
            },
    {
        if self.inited {
            if self.curr == self.next {
                // schedule a thread to be run
                let idx = self.get_next_thread_idx();
                self.idx = idx;
                self.next = Some(idx);
            }
            self.curr != self.next
        } else {
            false
        }
    }

    /// Puts the thread of slot `idx` to sleep for `ticks` scheduling rounds
    /// and lets the scheduler run; the idle thread never sleeps. Returns
    /// whether the caller must pend the PendSV exception.
    pub fn sleep(&mut self, ticks: u32) -> (pend: bool)
        requires
            old(self)@.wf(),
        ensures
            old(self).idx > 0 ==> final(self)@ == old(self)@.slept(ticks).tick() && pend == old(
                self,
            )@.slept(ticks).tick_pends_switch(),
            old(self).idx == 0 ==> final(self)@ == old(self)@ && !pend,
            final(self)@.wf(),
            old(self).idx > 0 && !(old(self).inited && old(self).curr == old(self).next)
                ==> final(self).threads@[old(self).idx as int] == (ThreadControlBlock {
                sp: old(self).threads@[old(self).idx as int].sp,
                status: ThreadStatus::Sleeping,
                sleep_ticks: ticks,
            }),
            old(self).idx > 0 && old(self).inited && old(self).curr == old(self).next && ticks > 0
                ==> final(self).threads@[old(self).idx as int] == (ThreadControlBlock {
                sp: old(self).threads@[old(self).idx as int].sp,
                status: ThreadStatus::Sleeping,
                sleep_ticks: (ticks - 1) as u32,
            }),
            old(self).idx > 0 && old(self).inited && old(self).curr == old(self).next && ticks == 0
                ==> final(self).threads@[old(self).idx as int] == (ThreadControlBlock {
                sp: old(self).threads@[old(self).idx as int].sp,
                status: ThreadStatus::Idle,
                sleep_ticks: 0,
            }),
    {
        proof {
            if old(self).idx > 0 {
                lemma_sleep_records_request(old(self)@, ticks, 0);
            }
        }
        if self.idx > 0 {
            let i = self.idx;
            let mut t = self.threads[i];
            t.status = ThreadStatus::Sleeping;
            t.sleep_ticks = ticks;
            self.threads[i] = t;
            assert(self@ =~= old(self)@.slept(ticks));
            self.tick()
        } else {
            false
        }
    }

    /// Adds a thread that starts at `handler` and runs on `stack`, whose
    /// first word lies at address `stack_addr`: its initial frame is laid on
    /// the stack and its control block takes the next free slot.
    pub fn create_thread(&mut self, stack: &mut [u32], handler: u32, stack_addr: u32)
        requires
            old(self)@.wf(),
            old(self).add_idx < MAX_THREADS,
            old(stack)@.len() >= FRAME_WORDS,
            word_addr(stack_addr, old(stack)@.len() - FRAME_WORDS) <= u32::MAX,
        ensures
            final(stack)@ == old(stack)@.subrange(0, old(stack)@.len() - FRAME_WORDS) + initial_frame(handler),
            final(stack)@.len() == old(stack)@.len(),
            final(stack)@[old(stack)@.len() - 2] == handler,
            final(stack)@[old(stack)@.len() - 1] == XPSR_THUMB,
            final(stack)@[old(stack)@.len() - 3] == EXC_RETURN_THREAD_PSP,
            final(self).threads@[old(self).add_idx as int].sp == stack_addr + 4 * (old(stack)@.len() - FRAME_WORDS),
            final(self)@ == (SchedulerView {
                threads: old(self)@.threads.update(
                    old(self).add_idx as int,
                    ThreadControlBlock {
                        sp: word_addr(stack_addr, old(stack)@.len() - FRAME_WORDS) as u32,
                        status: ThreadStatus::Idle,
                        sleep_ticks: 0,
                    },
                ),
                add_idx: (old(self).add_idx + 1) as usize,
                ..old(self)@
            }),
            final(self)@.wf(),
    {
        let tcb = create_tcb(stack, handler, stack_addr);
        let add_idx = self.add_idx;
        self.insert_tcb(add_idx, tcb);
        self.add_idx = add_idx + 1;
    }

    /// Starts the scheduler: the idle thread, which starts at
    /// `idle_handler` and runs on `idle_stack` (first word at `stack_addr`),
    /// takes slot 0, and the system tick begins to schedule.
    pub fn init(&mut self, idle_stack: &mut [u32], idle_handler: u32, stack_addr: u32)
        requires
            old(self)@.wf(),
            old(idle_stack)@.len() >= FRAME_WORDS,
            word_addr(stack_addr, old(idle_stack)@.len() - FRAME_WORDS) <= u32::MAX,
        ensures
            final(idle_stack)@ == old(idle_stack)@.subrange(0, old(idle_stack)@.len() - FRAME_WORDS)
                + initial_frame(idle_handler),
            final(idle_stack)@.len() == old(idle_stack)@.len(),
            final(idle_stack)@[old(idle_stack)@.len() - 2] == idle_handler,
            final(idle_stack)@[old(idle_stack)@.len() - 1] == XPSR_THUMB,
            final(idle_stack)@[old(idle_stack)@.len() - 3] == EXC_RETURN_THREAD_PSP,
            final(self).threads@[0].sp == stack_addr + 4 * (old(idle_stack)@.len() - FRAME_WORDS),
            final(self)@ == (SchedulerView {
                threads: old(self)@.threads.update(
                    0,
                    ThreadControlBlock {
                        sp: word_addr(stack_addr, old(idle_stack)@.len() - FRAME_WORDS) as u32,
                        status: ThreadStatus::Idle,
                        sleep_ticks: 0,
                    },
                ),
                inited: true,
                ..old(self)@
            }),
            final(self)@.wf(),
    {
        let tcb = create_tcb(idle_stack, idle_handler, stack_addr);
        self.insert_tcb(0, tcb);
        self.inited = true;
    }

    /// The PendSV context switch: the stack pointer of the outgoing thread,
    /// if any, is saved in its control block, `next` becomes the current
    /// thread, and the stack pointer to restore is returned.
    pub fn switch_context(&mut self, outgoing_sp: u32) -> (incoming_sp: u32)
        requires
            old(self)@.wf(),
            old(self).next is Some,
        ensures
            final(self)@ == old(self)@.switched(outgoing_sp),
            incoming_sp == final(self)@.threads[old(self).next.unwrap() as int].sp,
            final(self)@.wf(),
            final(self).curr == old(self).next,
            final(self).next == old(self).next,
            final(self).idx == old(self).idx,
            final(self).add_idx == old(self).add_idx,
            final(self).inited == old(self).inited,
            old(self).curr matches Some(c) ==> final(self).threads@[c as int] == (ThreadControlBlock {
                sp: outgoing_sp,
                ..old(self).threads@[c as int]
            }),
            forall|j: int|
                0 <= j < MAX_THREADS && old(self).curr != Some(j as usize) ==> #[trigger] final(self).threads@[j]
                    == old(self).threads@[j],
    {
        proof {
            assert forall|j: int|
                0 <= j < MAX_THREADS && old(self).curr != Some(j as usize) implies #[trigger] old(self)@.switched(
                    outgoing_sp,
                ).threads[j] == old(self).threads@[j] by {
                lemma_switch_saves_outgoing_sp(old(self)@, outgoing_sp, j);
            }
        }
        match self.curr {
            Some(c) => {
                let mut t = self.threads[c];
                t.sp = outgoing_sp;
                self.threads[c] = t;
            },
            None => {},
        }
        let n = match self.next {
            Some(n) => n,
            None => 0,
        };
        self.curr = self.next;
        assert(self@ =~= old(self)@.switched(outgoing_sp));
        self.threads[n].sp
    }
}

} // verus!

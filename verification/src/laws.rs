//! Properties of the scheduler that span several operations or rounds.
use vstd::prelude::*;
use crate::scheduler::{
    age, age_threads, awake, candidate, first_awake_from, lemma_candidate_in_range, pick_next, scan_start,
    SchedulerView, MAX_THREADS,
};
use crate::thread::{initial_frame, ThreadControlBlock, ThreadStatus, EXC_RETURN_THREAD_PSP, XPSR_THUMB};
use crate::os::task_frame;

verus! {

/// A thread after `k` scheduling rounds.
pub open spec fn age_rounds(t: ThreadControlBlock, k: nat) -> ThreadControlBlock
    decreases k,
{
    if k == 0 {
        t
    } else {
        age(age_rounds(t, (k - 1) as nat))
    }
}

/// The scheduler state after `k` scheduling rounds.
pub open spec fn rounds(s: SchedulerView, k: nat) -> SchedulerView
    decreases k,
{
    if k == 0 {
        s
    } else {
        rounds(s, (k - 1) as nat).aged()
    }
}

/// How many slots a search that starts at `start` visits before user slot
/// `i` (over the user slots `1..n`, wrapping around).
pub open spec fn offset(start: int, i: int, n: int) -> int {
    if i >= start { i - start } else { i + (n - 1) - start }
}

/// Sleep lasts as long as asked: a thread put to sleep for `d` ticks is
/// still asleep after `k <= d` scheduling rounds, with `d - k` ticks left,
/// and is awake, with no ticks left, after any `k > d` rounds.
pub proof fn lemma_sleep_duration(t: ThreadControlBlock, k: nat)
    requires
        t.status == ThreadStatus::Sleeping,
    ensures
        k <= t.sleep_ticks ==> age_rounds(t, k) == (ThreadControlBlock {
            sleep_ticks: (t.sleep_ticks - k) as u32,
            ..t
        }),
        k > t.sleep_ticks ==> age_rounds(t, k) == (ThreadControlBlock {
            status: ThreadStatus::Idle,
            sleep_ticks: 0,
            ..t
        }),
    decreases k,
{
    if k > 0 {
        lemma_sleep_duration(t, (k - 1) as nat);
    }
}

/// Each scheduling round ages every user thread by one round and leaves
/// every other slot, and every other field, alone.
pub proof fn lemma_rounds_age_each_thread(s: SchedulerView, k: nat, j: int)
    requires
        s.wf(),
        0 <= j < s.threads.len(),
    ensures
        rounds(s, k).wf(),
        rounds(s, k).threads.len() == s.threads.len(),
        rounds(s, k).threads[j] == if 1 <= j < s.add_idx { age_rounds(s.threads[j], k) } else { s.threads[j] },
        rounds(s, k).idx == s.idx,
        rounds(s, k).add_idx == s.add_idx,
        rounds(s, k).curr == s.curr,
        rounds(s, k).next == s.next,
        rounds(s, k).inited == s.inited,
    decreases k,
{
    if k > 0 {
        lemma_rounds_age_each_thread(s, (k - 1) as nat, j);
        lemma_rounds_age_each_thread(s, (k - 1) as nat, 0);
    }
}

/// The search reaches user slot `i` after `offset(start, i, n)` steps, and
/// `offset` undoes `candidate`.
pub proof fn lemma_offset_candidate(start: int, i: int, k: int, n: int)
    requires
        1 <= start < n,
    ensures
        1 <= i < n ==> 0 <= offset(start, i, n) < n - 1 && candidate(start, offset(start, i, n), n) == i,
        0 <= k < n - 1 ==> offset(start, candidate(start, k, n), n) == k,
{
}

/// If the user thread visited at step `k2` is awake, the search from step
/// `k` on ends on a user thread visited at a step between `k` and `k2`.
proof fn lemma_search_stops_by(threads: Seq<ThreadControlBlock>, start: int, n: int, k: int, k2: int)
    requires
        1 <= start < n,
        0 <= k <= k2 < n - 1,
        awake(threads[candidate(start, k2, n)]),
    ensures
        first_awake_from(threads, start, n, k) != 0,
        1 <= first_awake_from(threads, start, n, k) < n,
        k <= offset(start, first_awake_from(threads, start, n, k), n) <= k2,
    decreases k2 - k,
{
    lemma_candidate_in_range(start, k, n);
    lemma_offset_candidate(start, 0, k, n);
    if !awake(threads[candidate(start, k, n)]) {
        lemma_search_stops_by(threads, start, n, k + 1, k2);
    }
}

/// When every user thread sleeps the search ends on the idle thread.
proof fn lemma_search_all_asleep(threads: Seq<ThreadControlBlock>, start: int, n: int, k: int)
    requires
        1 <= start < n <= threads.len(),
        0 <= k,
        forall|i: int| 1 <= i < n ==> !awake(#[trigger] threads[i]),
    ensures
        first_awake_from(threads, start, n, k) == 0,
    decreases n - 1 - k,
{
    if k < n - 1 {
        lemma_candidate_in_range(start, k, n);
        lemma_search_all_asleep(threads, start, n, k + 1);
    }
}

/// No awake thread is passed over: when the user thread in slot `j` is
/// awake, the round chooses a user thread that comes no later than `j` in
/// round-robin order after slot `idx`.
pub proof fn lemma_no_awake_thread_skipped(threads: Seq<ThreadControlBlock>, idx: int, n: int, j: int)
    requires
        0 <= idx < n <= threads.len(),
        1 <= j < n,
        awake(threads[j]),
    ensures
        1 <= pick_next(threads, idx, n) < n,
        offset(scan_start(idx, n), pick_next(threads, idx, n), n) <= offset(scan_start(idx, n), j, n),
{
    let start = scan_start(idx, n);
    lemma_offset_candidate(start, j, 0, n);
    lemma_search_stops_by(threads, start, n, 0, offset(start, j, n));
}

/// The idle thread runs exactly when every user thread sleeps.
pub proof fn lemma_idle_iff_all_asleep(threads: Seq<ThreadControlBlock>, idx: int, n: int)
    requires
        0 <= idx < n <= threads.len(),
    ensures
        pick_next(threads, idx, n) == 0 <==> forall|i: int| 1 <= i < n ==> !awake(#[trigger] threads[i]),
{
    if forall|i: int| 1 <= i < n ==> !awake(#[trigger] threads[i]) {
        if n > 1 {
            lemma_search_all_asleep(threads, scan_start(idx, n), n, 0);
        }
    } else {
        let j = choose|i: int| 1 <= i < n && awake(#[trigger] threads[i]);
        lemma_no_awake_thread_skipped(threads, idx, n, j);
    }
}

/// Round robin: when every user thread is awake, each round chooses the
/// user thread after the current one, and the first after the last.
pub proof fn lemma_round_robin(threads: Seq<ThreadControlBlock>, idx: int, n: int)
    requires
        0 <= idx < n <= threads.len(),
        1 < n,
        forall|i: int| 1 <= i < n ==> awake(#[trigger] threads[i]),
    ensures
        pick_next(threads, idx, n) == if idx + 1 < n { idx + 1 } else { 1 },
{
    assert(awake(threads[candidate(scan_start(idx, n), 0, n)]));
}

/// A thread with sleep ticks left is not chosen by the next tick's round.
pub proof fn lemma_sleeping_thread_not_chosen(s: SchedulerView, j: int)
    requires
        s.wf(),
        s.inited,
        s.curr == s.next,
        1 <= j < s.add_idx,
        s.threads[j].status == ThreadStatus::Sleeping,
        s.threads[j].sleep_ticks > 0,
    ensures
        s.tick().idx != j,
{
    let threads = age_threads(s.threads, s.add_idx as int);
    crate::scheduler::lemma_pick_next_range(threads, s.idx as int, s.add_idx as int);
}

/// A tick that asks for a switch, followed by the switch, makes the thread
/// that the tick chose the current one; a tick while a switch is pending
/// changes nothing.
pub proof fn lemma_tick_then_switch(s: SchedulerView, outgoing_sp: u32)
    requires
        s.wf(),
        s.inited,
    ensures
        s.curr == s.next ==> s.tick().switched(outgoing_sp).curr == Some(s.tick().idx),
        s.curr == s.next ==> s.tick().switched(outgoing_sp).curr == s.tick().switched(outgoing_sp).next,
        s.curr != s.next ==> s.tick() == s && s.tick_pends_switch(),
{
}

/// One scheduling round over the user slots `1..n` ages each user thread by
/// exactly one round: a sleeping thread with ticks left loses one tick, a
/// sleeping thread with none left wakes up, an awake thread is unchanged;
/// the idle thread and the free slots are unchanged.
pub proof fn lemma_round_ages_each_thread(threads: Seq<ThreadControlBlock>, n: int, j: int)
    requires
        0 <= j < threads.len(),
    ensures
        age_threads(threads, n).len() == threads.len(),
        1 <= j < n && threads[j].status == ThreadStatus::Sleeping && threads[j].sleep_ticks > 0
            ==> age_threads(threads, n)[j] == (ThreadControlBlock {
            sleep_ticks: (threads[j].sleep_ticks - 1) as u32,
            ..threads[j]
        }),
        1 <= j < n && threads[j].status == ThreadStatus::Sleeping && threads[j].sleep_ticks == 0
            ==> age_threads(threads, n)[j] == (ThreadControlBlock { status: ThreadStatus::Idle, ..threads[j] }),
        !(1 <= j < n && threads[j].status == ThreadStatus::Sleeping) ==> age_threads(threads, n)[j] == threads[j],
{
}

/// A tick that finds no switch pending runs a scheduling round, whichever
/// thread is current (the idle thread included): every user thread is aged
/// by one round, the chosen slot is the idle thread exactly when every aged
/// user thread sleeps and an awake user thread otherwise, no awake thread
/// comes before it in round-robin order after slot `idx`, `next` designates
/// it, and a switch is asked for exactly when it is not the current thread.
pub proof fn lemma_tick_runs_round(s: SchedulerView, j: int)
    requires
        s.wf(),
        s.inited,
        s.curr == s.next,
        0 <= j < MAX_THREADS,
    ensures
        ({
            let t = s.tick();
            let n = s.add_idx as int;
            &&& t.wf()
            &&& t.curr == s.curr
            &&& t.inited
            &&& t.add_idx == s.add_idx
            &&& t.next == Some(t.idx)
            &&& t.threads.len() == s.threads.len()
            &&& (1 <= j < n && s.threads[j].status == ThreadStatus::Sleeping && s.threads[j].sleep_ticks > 0
                ==> t.threads[j] == (ThreadControlBlock {
                sleep_ticks: (s.threads[j].sleep_ticks - 1) as u32,
                ..s.threads[j]
            }))
            &&& (1 <= j < n && s.threads[j].status == ThreadStatus::Sleeping && s.threads[j].sleep_ticks == 0
                ==> t.threads[j] == (ThreadControlBlock { status: ThreadStatus::Idle, ..s.threads[j] }))
            &&& (!(1 <= j < n && s.threads[j].status == ThreadStatus::Sleeping) ==> t.threads[j] == s.threads[j])
            &&& (t.idx == 0 || (1 <= t.idx < n && t.threads[t.idx as int].status != ThreadStatus::Sleeping))
            &&& (t.idx == 0 <==> forall|i: int| 1 <= i < n ==> #[trigger] t.threads[i].status == ThreadStatus::Sleeping)
            &&& (1 <= j < n && t.threads[j].status != ThreadStatus::Sleeping ==> t.idx != 0 && offset(
                scan_start(s.idx as int, n),
                t.idx as int,
                n,
            ) <= offset(scan_start(s.idx as int, n), j, n))
            &&& (s.tick_pends_switch() <==> s.curr != Some(t.idx))
        }),
{
    let n = s.add_idx as int;
    let aged = age_threads(s.threads, n);
    lemma_round_ages_each_thread(s.threads, n, j);
    lemma_round_ages_each_thread(s.threads, n, 0);
    crate::scheduler::lemma_pick_next_range(aged, s.idx as int, n);
    lemma_idle_iff_all_asleep(aged, s.idx as int, n);
    if 1 <= j < n && aged[j].status != ThreadStatus::Sleeping {
        lemma_no_awake_thread_skipped(aged, s.idx as int, n, j);
    }
    let t = s.tick();
    assert((t.idx == 0 <==> forall|i: int| 1 <= i < n ==> #[trigger] t.threads[i].status == ThreadStatus::Sleeping));
}

/// When the idle thread runs and a user thread is awake after the round,
/// the tick hands the processor to a user thread and asks for the switch.
pub proof fn lemma_idle_yields_to_awake_thread(s: SchedulerView, j: int)
    requires
        s.wf(),
        s.inited,
        s.curr == Some(0usize),
        s.next == Some(0usize),
        1 <= j < s.add_idx,
        s.tick().threads[j].status != ThreadStatus::Sleeping,
    ensures
        s.tick().idx != 0,
        s.tick().next != Some(0usize),
        s.tick_pends_switch(),
{
    lemma_tick_runs_round(s, j);
}

/// Putting the running user thread to sleep records the request exactly:
/// it becomes `Sleeping` with `ticks` ticks left, its stack pointer and
/// every other slot unchanged. The tick that follows then leaves it asleep
/// with `ticks - 1` left, or awake when `ticks` is `0`, if it runs a
/// round, and asleep with `ticks` left otherwise.
pub proof fn lemma_sleep_records_request(s: SchedulerView, ticks: u32, j: int)
    requires
        s.wf(),
        s.idx > 0,
        0 <= j < MAX_THREADS,
    ensures
        s.slept(ticks).wf(),
        s.slept(ticks).threads[s.idx as int] == (ThreadControlBlock {
            sp: s.threads[s.idx as int].sp,
            status: ThreadStatus::Sleeping,
            sleep_ticks: ticks,
        }),
        j != s.idx ==> s.slept(ticks).threads[j] == s.threads[j],
        !(s.inited && s.curr == s.next) ==> s.slept(ticks).tick().threads[s.idx as int] == (ThreadControlBlock {
            sp: s.threads[s.idx as int].sp,
            status: ThreadStatus::Sleeping,
            sleep_ticks: ticks,
        }),
        s.inited && s.curr == s.next && ticks > 0 ==> s.slept(ticks).tick().threads[s.idx as int] == (ThreadControlBlock {
            sp: s.threads[s.idx as int].sp,
            status: ThreadStatus::Sleeping,
            sleep_ticks: (ticks - 1) as u32,
        }),
        s.inited && s.curr == s.next && ticks == 0 ==> s.slept(ticks).tick().threads[s.idx as int] == (ThreadControlBlock {
            sp: s.threads[s.idx as int].sp,
            status: ThreadStatus::Idle,
            sleep_ticks: 0,
        }),
{
    let z = s.slept(ticks);
    if z.inited && z.curr == z.next {
        lemma_tick_runs_round(z, s.idx as int);
    }
}

/// The context switch saves the outgoing stack pointer in the control
/// block of the current thread, whichever slot it occupies (the idle
/// thread's included), leaves every other slot and every other field of
/// that block alone, and makes `next` current.
pub proof fn lemma_switch_saves_outgoing_sp(s: SchedulerView, outgoing_sp: u32, j: int)
    requires
        s.wf(),
        0 <= j < MAX_THREADS,
    ensures
        s.switched(outgoing_sp).wf() || s.next is None,
        s.switched(outgoing_sp).curr == s.next,
        s.switched(outgoing_sp).next == s.next,
        s.switched(outgoing_sp).idx == s.idx,
        s.switched(outgoing_sp).add_idx == s.add_idx,
        s.switched(outgoing_sp).inited == s.inited,
        s.curr == Some(j as usize) ==> s.switched(outgoing_sp).threads[j] == (ThreadControlBlock {
            sp: outgoing_sp,
            ..s.threads[j]
        }),
        s.curr != Some(j as usize) ==> s.switched(outgoing_sp).threads[j] == s.threads[j],
{
}

/// The initial frame of a thread has sixteen words: the exception return
/// unstacks `handler` exactly as the program counter, the Thumb state in
/// xPSR, and returns to Thread mode on the process stack.
pub proof fn lemma_initial_frame_starts_handler(handler: u32)
    ensures
        initial_frame(handler).len() == 16,
        initial_frame(handler)[14] == handler,
        initial_frame(handler)[15] == XPSR_THUMB,
        initial_frame(handler)[13] == EXC_RETURN_THREAD_PSP,
        forall|h2: u32| initial_frame(h2)[14] == h2 && (h2 != handler ==> initial_frame(h2) != initial_frame(handler)),
{
    assert forall|h2: u32| initial_frame(h2)[14] == h2 && (h2 != handler ==> initial_frame(h2) != initial_frame(handler)) by {
        if h2 != handler {
            assert(initial_frame(h2)[14] != initial_frame(handler)[14]);
        }
    }
}

/// The frame of a kernel task has sixteen words, the program counter slot
/// (word 254 of the task stack) holding `handler` exactly and xPSR only the
/// Thumb bit.
pub proof fn lemma_task_frame_starts_handler(handler: u32)
    ensures
        task_frame(handler).len() == 16,
        task_frame(handler)[14] == handler,
        task_frame(handler)[15] == 0x0100_0000u32,
        forall|h2: u32| task_frame(h2)[14] == h2 && (h2 != handler ==> task_frame(h2) != task_frame(handler)),
{
    assert forall|h2: u32| task_frame(h2)[14] == h2 && (h2 != handler ==> task_frame(h2) != task_frame(handler)) by {
        if h2 != handler {
            assert(task_frame(h2)[14] != task_frame(handler)[14]);
        }
    }
}

/// The layout of a new thread's frame, lowest address first: R8-R11 and
/// R4-R7 (restored by the context switch), then R0-R3, R12, LR, PC and
/// xPSR (unstacked by the exception return); every general register holds
/// a marker made of its own number repeated.
pub proof fn lemma_initial_frame_layout(handler: u32)
    ensures
        initial_frame(handler) =~= seq![
            0x8888_8888u32, 0x9999_9999u32, 0xAAAA_AAAAu32, 0xBBBB_BBBBu32,
            0x4444_4444u32, 0x5555_5555u32, 0x6666_6666u32, 0x7777_7777u32,
            0x0000_0000u32, 0x1111_1111u32, 0x2222_2222u32, 0x3333_3333u32,
            0xCCCC_CCCCu32, 0xFFFF_FFFDu32, handler, 0x0100_0000u32,
        ],
{
}

/// The layout of a kernel task's frame, from word 240 up: R4-R11, then
/// R0-R3, R12, LR, PC and xPSR; each register but PC and xPSR holds its own
/// number.
pub proof fn lemma_task_frame_layout(handler: u32)
    ensures
        task_frame(handler) =~= seq![
            4u32, 5u32, 6u32, 7u32, 8u32, 9u32, 10u32, 11u32,
            0u32, 1u32, 2u32, 3u32, 12u32, 14u32, handler, 0x0100_0000u32,
        ],
{
}

} // verus!

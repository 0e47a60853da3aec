use cortexm_threads::scheduler::{ThreadsState, MAX_THREADS};
use cortexm_threads::thread::{ThreadControlBlock, ThreadStatus};

const BASE: u32 = 0x2000_0000;

fn started(n_user: usize) -> (ThreadsState, Vec<Vec<u32>>) {
    let mut s = ThreadsState::new();
    let mut stacks = Vec::new();
    for i in 0..n_user {
        let mut stack = vec![0xDEAD_BEEFu32; 64];
        s.create_thread(&mut stack[..], 0x0800_0100 + i as u32 * 0x10, BASE + i as u32 * 0x100);
        stacks.push(stack);
    }
    let mut idle = vec![0xDEAD_BEEFu32; 64];
    s.init(&mut idle[..], 0x0800_0000, 0x2000_8000);
    stacks.push(idle);
    (s, stacks)
}

#[test]
fn new_state_is_empty() {
    let s = ThreadsState::new();
    assert_eq!(s.curr, None);
    assert_eq!(s.next, None);
    assert!(!s.inited);
    assert_eq!(s.idx, 0);
    assert_eq!(s.add_idx, 1);
    for i in 0..MAX_THREADS {
        assert_eq!(s.threads[i], ThreadControlBlock { sp: 0, status: ThreadStatus::Idle, sleep_ticks: 0 });
    }
}

#[test]
fn create_thread_takes_next_slot() {
    let mut s = ThreadsState::new();
    let mut stack = vec![0xDEAD_BEEFu32; 64];
    s.create_thread(&mut stack[..], 0x0800_0123, 0x2000_0000);
    assert_eq!(s.add_idx, 2);
    assert_eq!(
        s.threads[1],
        ThreadControlBlock { sp: 0x2000_0000 + 4 * 48, status: ThreadStatus::Idle, sleep_ticks: 0 }
    );
    assert_eq!(stack[63], 0x0100_0000);
    assert_eq!(stack[62], 0x0800_0123);
    assert_eq!(stack[48], 0x8888_8888);
    assert_eq!(stack[47], 0xDEAD_BEEF);
    let mut stack2 = vec![0u32; 16];
    s.create_thread(&mut stack2[..], 0x0800_0200, 0x2000_1000);
    assert_eq!(s.add_idx, 3);
    assert_eq!(s.threads[2].sp, 0x2000_1000);
}

#[test]
fn init_installs_idle_thread() {
    let mut s = ThreadsState::new();
    let mut idle = vec![0xDEAD_BEEFu32; 64];
    s.init(&mut idle[..], 0x0800_0000, 0x2000_8000);
    assert!(s.inited);
    assert_eq!(s.add_idx, 1);
    assert_eq!(s.threads[0].sp, 0x2000_8000 + 4 * 48);
    assert_eq!(idle[62], 0x0800_0000);
}

#[test]
fn tick_before_init_does_nothing() {
    let mut s = ThreadsState::new();
    let mut stack = vec![0u32; 32];
    s.create_thread(&mut stack[..], 1, BASE);
    assert!(!s.tick());
    assert_eq!(s.next, None);
    assert_eq!(s.idx, 0);
}

#[test]
fn first_tick_schedules_first_user_thread() {
    let (mut s, _stacks) = started(2);
    assert!(s.tick());
    assert_eq!(s.idx, 1);
    assert_eq!(s.next, Some(1));
    assert_eq!(s.curr, None);
}

#[test]
fn tick_while_switch_pending_changes_nothing() {
    let (mut s, _stacks) = started(2);
    assert!(s.tick());
    assert!(s.tick());
    assert_eq!(s.idx, 1);
    assert_eq!(s.next, Some(1));
}

#[test]
fn round_robin_over_user_threads() {
    let (mut s, _stacks) = started(3);
    let mut chosen = Vec::new();
    for round in 0..7u32 {
        assert!(s.tick());
        chosen.push(s.idx);
        let sp = s.switch_context(0x2000_4000 + round);
        assert_eq!(s.curr, s.next);
        assert_eq!(sp, s.threads[s.idx].sp);
    }
    assert_eq!(chosen, vec![1, 2, 3, 1, 2, 3, 1]);
}

#[test]
fn switch_context_saves_outgoing_sp() {
    let (mut s, _stacks) = started(2);
    s.tick();
    let sp1 = s.switch_context(0xAAAA_0000);
    assert_eq!(sp1, BASE + 4 * 48);
    assert_eq!(s.curr, Some(1));
    s.tick();
    assert_eq!(s.next, Some(2));
    let sp2 = s.switch_context(0x2000_0040);
    assert_eq!(sp2, BASE + 0x100 + 4 * 48);
    assert_eq!(s.threads[1].sp, 0x2000_0040);
    assert_eq!(s.curr, Some(2));
}

#[test]
fn single_thread_keeps_running_without_switch() {
    let (mut s, _stacks) = started(1);
    assert!(s.tick());
    s.switch_context(0);
    assert_eq!(s.curr, Some(1));
    assert!(!s.tick());
    assert_eq!(s.idx, 1);
    assert_eq!(s.next, Some(1));
}

#[test]
fn no_user_thread_runs_idle() {
    let (mut s, _stacks) = started(0);
    assert!(s.tick());
    assert_eq!(s.idx, 0);
    assert_eq!(s.next, Some(0));
    s.switch_context(0);
    assert!(!s.tick());
}

#[test]
fn sleeping_thread_is_skipped_until_it_wakes() {
    let (mut s, _stacks) = started(2);
    s.tick();
    s.switch_context(0);
    assert_eq!(s.idx, 1);
    // thread 1 sleeps for 2 ticks: the tick inside sleep is the first round
    assert!(s.sleep(2));
    assert_eq!(s.threads[1].status, ThreadStatus::Sleeping);
    assert_eq!(s.threads[1].sleep_ticks, 1);
    assert_eq!(s.idx, 2);
    s.switch_context(0);
    // round 2: thread 1 has no tick left after this one
    assert!(!s.tick());
    assert_eq!(s.idx, 2);
    assert_eq!(s.threads[1].sleep_ticks, 0);
    assert_eq!(s.threads[1].status, ThreadStatus::Sleeping);
    // round 3: thread 1 wakes up and is chosen
    assert!(s.tick());
    assert_eq!(s.threads[1].status, ThreadStatus::Idle);
    assert_eq!(s.idx, 1);
}

#[test]
fn all_sleeping_runs_idle_thread() {
    let (mut s, _stacks) = started(2);
    s.tick();
    s.switch_context(0);
    s.sleep(5);
    s.switch_context(0);
    assert_eq!(s.idx, 2);
    assert!(s.sleep(5));
    assert_eq!(s.idx, 0);
    assert_eq!(s.next, Some(0));
    s.switch_context(0);
    // both sleep: the idle thread keeps the processor
    for _ in 0..3 {
        assert!(!s.tick());
        assert_eq!(s.idx, 0);
    }
}

#[test]
fn idle_thread_cannot_sleep() {
    let (mut s, _stacks) = started(0);
    s.tick();
    s.switch_context(0);
    assert!(!s.sleep(10));
    assert_eq!(s.threads[0].status, ThreadStatus::Idle);
    assert_eq!(s.threads[0].sleep_ticks, 0);
}

#[test]
fn sleep_of_zero_ticks_wakes_at_next_round() {
    let (mut s, _stacks) = started(1);
    s.tick();
    s.switch_context(0);
    assert!(!s.sleep(0));
    assert_eq!(s.threads[1].status, ThreadStatus::Idle);
    assert_eq!(s.idx, 1);
}

#[test]
fn get_next_thread_idx_ages_and_wraps() {
    let (mut s, _stacks) = started(4);
    s.idx = 3;
    s.threads[4].status = ThreadStatus::Sleeping;
    s.threads[4].sleep_ticks = 3;
    s.threads[1].status = ThreadStatus::Sleeping;
    s.threads[1].sleep_ticks = 1;
    let r = s.get_next_thread_idx();
    assert_eq!(r, 2);
    assert_eq!(s.threads[4].sleep_ticks, 2);
    assert_eq!(s.threads[1].sleep_ticks, 0);
    assert_eq!(s.idx, 3);
}

#[test]
fn insert_tcb_stores_block() {
    let mut s = ThreadsState::new();
    let tcb = ThreadControlBlock { sp: 7, status: ThreadStatus::Sleeping, sleep_ticks: 9 };
    s.insert_tcb(5, tcb);
    assert_eq!(s.threads[5], tcb);
    assert_eq!(s.add_idx, 1);
}

use cortexm_threads::scheduler::ThreadsState;
use cortexm_threads::thread::ThreadStatus;

fn with_threads(n_user: usize) -> ThreadsState {
    let mut s = ThreadsState::new();
    for i in 0..n_user {
        let mut stack = vec![0u32; 16];
        s.create_thread(&mut stack[..], i as u32, 0x2000_0000 + 0x40 * i as u32);
    }
    s
}

#[test]
fn law_sleep_lasts_requested_rounds() {
    let mut s = with_threads(2);
    s.threads[1].status = ThreadStatus::Sleeping;
    s.threads[1].sleep_ticks = 3;
    s.idx = 2;
    let mut picks = Vec::new();
    for _ in 0..5 {
        picks.push(s.get_next_thread_idx());
    }
    // asleep for 3 rounds, awake at round 4
    assert_eq!(picks, vec![2, 2, 2, 1, 1]);
}

#[test]
fn law_round_robin_when_all_awake() {
    let mut s = with_threads(5);
    for idx in 0..6usize {
        s.idx = idx;
        let expect = if idx + 1 < 6 { idx + 1 } else { 1 };
        assert_eq!(s.get_next_thread_idx(), expect);
    }
}

#[test]
fn law_idle_only_when_all_asleep() {
    let mut s = with_threads(3);
    for i in 1..4 {
        s.threads[i].status = ThreadStatus::Sleeping;
        s.threads[i].sleep_ticks = 10;
    }
    assert_eq!(s.get_next_thread_idx(), 0);
    s.threads[2].status = ThreadStatus::Idle;
    assert_eq!(s.get_next_thread_idx(), 2);
}

#[test]
fn law_no_awake_thread_skipped() {
    let mut s = with_threads(6);
    s.idx = 4;
    s.threads[5].status = ThreadStatus::Sleeping;
    s.threads[5].sleep_ticks = 4;
    s.threads[6].status = ThreadStatus::Sleeping;
    s.threads[6].sleep_ticks = 4;
    s.threads[1].status = ThreadStatus::Sleeping;
    s.threads[1].sleep_ticks = 4;
    // order after 4: 5, 6, 1, 2, ... ; first awake is 2
    assert_eq!(s.get_next_thread_idx(), 2);
}

#[test]
fn law_sleeping_thread_not_chosen() {
    let mut s = with_threads(3);
    let mut idle = vec![0u32; 16];
    s.init(&mut idle[..], 0, 0x2000_8000);
    s.threads[1].status = ThreadStatus::Sleeping;
    s.threads[1].sleep_ticks = 1;
    s.idx = 3;
    s.tick();
    assert_ne!(s.idx, 1);
    assert_eq!(s.idx, 2);
}

use cortexm_threads::hw::{pend_sv_request, PENDSVSET};
use cortexm_threads::os::{init_task_stack, OSThread, OS};
use cortexm_threads::process::Process;
use cortexm_threads::thread::{create_tcb, ThreadControlBlock, ThreadStatus};

#[test]
fn create_tcb_lays_exception_frame() {
    let mut stack = vec![0xDEAD_BEEFu32; 20];
    let tcb = create_tcb(&mut stack[..], 0x0800_1235, 0x2000_0100);
    assert_eq!(
        &stack[..],
        &[
            0xDEAD_BEEF, 0xDEAD_BEEF, 0xDEAD_BEEF, 0xDEAD_BEEF,
            0x8888_8888, 0x9999_9999, 0xAAAA_AAAA, 0xBBBB_BBBB,
            0x4444_4444, 0x5555_5555, 0x6666_6666, 0x7777_7777,
            0x0000_0000, 0x1111_1111, 0x2222_2222, 0x3333_3333,
            0xCCCC_CCCC, 0xFFFF_FFFD, 0x0800_1235, 0x0100_0000,
        ][..]
    );
    assert_eq!(tcb, ThreadControlBlock { sp: 0x2000_0110, status: ThreadStatus::Idle, sleep_ticks: 0 });
}

#[test]
fn create_tcb_on_minimal_stack() {
    let mut stack = vec![0u32; 16];
    let tcb = create_tcb(&mut stack[..], 5, 0x1000);
    assert_eq!(tcb.sp, 0x1000);
    assert_eq!(stack[0], 0x8888_8888);
    assert_eq!(stack[14], 5);
}

#[test]
fn pend_sv_sets_only_pendsvset() {
    assert_eq!(pend_sv_request(0), 0x1000_0000);
    assert_eq!(pend_sv_request(0x0000_0803), 0x1000_0803);
    assert_eq!(pend_sv_request(0x1000_0000), 0x1000_0000);
    assert_eq!(pend_sv_request(0xFFFF_FFFF), 0xFFFF_FFFF);
    assert_eq!(PENDSVSET, 1 << 28);
}

#[test]
fn os_alternates_between_two_threads() {
    let mut os = OS::new(0x2000_03C0, 0x2000_07C0);
    assert_eq!(os.threads[0], OSThread { sp: 0x2000_03C0 });
    let base = 0x2000_1000;
    assert_eq!(os.tick(base), (true, true));
    assert_eq!(os.next, base);
    assert_eq!(os._idx, 1);
    // switch still pending: nothing is scheduled
    assert_eq!(os.tick(base), (false, true));
    assert_eq!(os._idx, 1);
    os.curr = os.next;
    assert_eq!(os.tick(base), (true, true));
    assert_eq!(os.next, base + 4);
    assert_eq!(os._idx, 0);
    os.curr = os.next;
    assert_eq!(os.tick(base), (true, true));
    assert_eq!(os.next, base);
    assert_eq!(os._idx, 1);
}

#[test]
fn os_tick_without_change_does_not_pend() {
    let mut os = OS::new(1, 2);
    os.curr = 0x2000_1000;
    os.next = 0x2000_1000;
    assert_eq!(os.tick(0x2000_1000), (true, false));
}

#[test]
fn init_task_stack_writes_top_words() {
    let mut stack = [0xDEAD_BEEFu32; 256];
    init_task_stack(&mut stack, 0x0800_0401);
    assert_eq!(stack[239], 0xDEAD_BEEF);
    assert_eq!(
        &stack[240..],
        &[4, 5, 6, 7, 8, 9, 0xA, 0xB, 0, 1, 2, 3, 0xC, 0xE, 0x0800_0401, 1 << 24][..]
    );
}

#[test]
fn process_hooks_do_nothing() {
    Process::switch_to();
    Process::switch_from();
}

use wasm_safe_sync::condvar::{
    AsyncPhase, AsyncTimeoutPhase, BlockPhase, BlockTimeoutPhase, Condvar, SpinPhase,
    SpinTimeoutPhase, SyncPhase, SyncTimeoutPhase, Turn, WaitTimeoutResult, WaiterIds,
};
use wasm_safe_sync::condvar::{timed_turn, turn};
use wasm_safe_sync::guard::Guard;
use wasm_safe_sync::mutex::Mutex;
use wasm_safe_sync::step::{Call, Caller, Pause, Progress, Wake};
use wasm_safe_sync::time::Moment;

fn blocks(thread: u64) -> Caller {
    Caller {
        thread,
        can_block: true,
    }
}

fn spins(thread: u64) -> Caller {
    Caller {
        thread,
        can_block: false,
    }
}

fn at(nanos: u128) -> Moment {
    Moment { nanos }
}

fn paused<P, R>(r: Progress<P, R>) -> (P, Pause) {
    match r {
        Progress::Done(_) => panic!("done"),
        Progress::Pause(phase, pause) => (phase, pause),
    }
}

fn done<P, R>(r: Progress<P, R>) -> R {
    match r {
        Progress::Done(r) => r,
        Progress::Pause(_, _) => panic!("not done"),
    }
}

fn lock<T>(m: &mut Mutex<T>) -> Guard<T> {
    match m.try_lock() {
        Ok(guard) => guard,
        Err(_) => panic!("locked"),
    }
}

fn unlock<T>(m: &mut Mutex<T>, guard: Guard<T>) -> Vec<Wake> {
    let mut wakes = vec![];
    m.unlock(guard, &mut wakes);
    wakes
}

fn notify_one(c: &mut Condvar) -> Vec<Wake> {
    let mut wakes = vec![];
    c.notify_one(&mut wakes);
    wakes
}

fn notify_all(c: &mut Condvar) -> Vec<Wake> {
    let mut wakes = vec![];
    c.notify_all(&mut wakes);
    wakes
}

#[test]
fn notifying_nobody_wakes_nobody() {
    let mut c = Condvar::new();
    assert!(notify_one(&mut c).is_empty());
    assert!(notify_all(&mut c).is_empty());
    let mut c = Condvar::default();
    assert!(notify_one(&mut c).is_empty());
}

#[test]
fn a_blocked_wait_goes_through() {
    let mut m = Mutex::new(1u32);
    let mut c = Condvar::new();
    let mut wakes = vec![];
    let guard = lock(&mut m);
    m.lock_block(9);
    let (phase, pause) = paused(c.wait_block(&mut m, Call::Start(guard), blocks(1), &mut wakes));
    assert_eq!((phase, pause), (BlockPhase::Relock, Pause::Park));
    assert_eq!(wakes, vec![Wake::Thread(9)]);
    let mut other = lock(&mut m);
    *other.get_mut() = 2;
    assert_eq!(notify_one(&mut c), vec![Wake::Thread(1)]);
    let (phase, pause) = paused(c.wait_block(&mut m, Call::Resume(phase), blocks(1), &mut wakes));
    assert_eq!((phase, pause), (BlockPhase::Relock, Pause::Park));
    assert_eq!(unlock(&mut m, other), vec![Wake::Thread(1)]);
    let guard = done(c.wait_block(&mut m, Call::Resume(phase), blocks(1), &mut wakes));
    assert_eq!(*guard.get(), 2);
    assert_eq!(wakes, vec![Wake::Thread(9)]);
}

#[test]
fn a_spinning_wait_goes_through() {
    let mut m = Mutex::new(1u32);
    let mut c = Condvar::new();
    let mut wakes = vec![];
    let guard = lock(&mut m);
    let (phase, pause) = paused(c.wait_spin(
        &mut m,
        Call::Start(guard),
        70,
        false,
        spins(1),
        &mut wakes,
    ));
    assert_eq!((phase, pause), (SpinPhase::Spinning(70), Pause::Yield));
    let (phase, pause) = paused(c.wait_spin(
        &mut m,
        Call::Resume(phase),
        71,
        false,
        spins(1),
        &mut wakes,
    ));
    assert_eq!((phase, pause), (SpinPhase::Spinning(70), Pause::SpinLoop));
    assert_eq!(notify_one(&mut c), vec![Wake::Flag(70)]);
    let other = lock(&mut m);
    let (phase, pause) = paused(c.wait_spin(
        &mut m,
        Call::Resume(phase),
        71,
        true,
        spins(1),
        &mut wakes,
    ));
    assert_eq!((phase, pause), (SpinPhase::Relock, Pause::SpinLoop));
    unlock(&mut m, other);
    let guard = done(c.wait_spin(
        &mut m,
        Call::Resume(phase),
        71,
        false,
        spins(1),
        &mut wakes,
    ));
    assert_eq!(*guard.get(), 1);
}

#[test]
fn wait_sync_waits_as_the_thread_may() {
    let mut m = Mutex::new(1u32);
    let mut c = Condvar::new();
    let mut wakes = vec![];
    let guard = lock(&mut m);
    let (phase, pause) = paused(c.wait_sync(
        &mut m,
        Call::Start(guard),
        70,
        false,
        blocks(1),
        &mut wakes,
    ));
    assert_eq!(
        (phase, pause),
        (SyncPhase::Block(BlockPhase::Relock), Pause::Park)
    );
    let guard = lock(&mut m);
    let (spin, pause) = paused(c.wait_sync(
        &mut m,
        Call::Start(guard),
        70,
        false,
        spins(2),
        &mut wakes,
    ));
    assert_eq!(
        (spin, pause),
        (SyncPhase::Spin(SpinPhase::Spinning(70)), Pause::Yield)
    );
    assert_eq!(
        notify_all(&mut c),
        vec![Wake::Flag(70), Wake::Thread(1)]
    );
    let (spin, pause) = paused(c.wait_sync(
        &mut m,
        Call::Resume(spin),
        71,
        false,
        spins(2),
        &mut wakes,
    ));
    assert_eq!(pause, Pause::SpinLoop);
    let guard = done(c.wait_sync(&mut m, Call::Resume(spin), 71, true, spins(2), &mut wakes));
    unlock(&mut m, guard);
    done(c.wait_sync(&mut m, Call::Resume(phase), 71, false, blocks(1), &mut wakes));
}

#[test]
fn an_async_wait_goes_through() {
    let mut m = Mutex::new(1u32);
    let mut c = Condvar::new();
    let mut ids = WaiterIds::new();
    let mut wakes = vec![];
    let guard = lock(&mut m);
    let (phase, pause) = paused(c.wait_async(
        &mut m,
        Call::Start(guard),
        &mut ids,
        500,
        &mut wakes,
    ));
    assert_eq!((phase, pause), (AsyncPhase::Relock, Pause::Await(500)));
    assert_eq!(notify_one(&mut c), vec![Wake::Continuation(500)]);
    let other = lock(&mut m);
    let (phase, pause) = paused(c.wait_async(
        &mut m,
        Call::Resume(phase),
        &mut ids,
        501,
        &mut wakes,
    ));
    assert_eq!(pause, Pause::Await(501));
    assert_eq!(unlock(&mut m, other), vec![Wake::Continuation(501)]);
    done(c.wait_async(&mut m, Call::Resume(phase), &mut ids, 502, &mut wakes));
    assert_eq!(ids.take(), 1);
}

fn crowd() -> (Mutex<()>, Condvar, WaiterIds) {
    let mut m = Mutex::new(());
    let mut c = Condvar::new();
    let mut ids = WaiterIds::new();
    let mut wakes = vec![];
    for n in 0..2u64 {
        let guard = lock(&mut m);
        paused(c.wait_async(&mut m, Call::Start(guard), &mut ids, 500 + n, &mut wakes));
        let guard = lock(&mut m);
        paused(c.wait_block(&mut m, Call::Start(guard), blocks(10 + n), &mut wakes));
        let guard = lock(&mut m);
        paused(c.wait_spin(&mut m, Call::Start(guard), 70 + n, false, spins(1), &mut wakes));
    }
    assert!(wakes.is_empty());
    (m, c, ids)
}

#[test]
fn one_notification_wakes_spinning_before_parked_before_async_and_the_latest_first() {
    let (_m, mut c, _ids) = crowd();
    let mut order = vec![];
    for _ in 0..7 {
        order.append(&mut notify_one(&mut c));
    }
    assert_eq!(
        order,
        vec![
            Wake::Flag(71),
            Wake::Flag(70),
            Wake::Thread(11),
            Wake::Thread(10),
            Wake::Continuation(501),
            Wake::Continuation(500)
        ]
    );
}

#[test]
fn a_notification_of_all_wakes_all_in_order_of_arrival() {
    let (_m, mut c, _ids) = crowd();
    assert_eq!(
        notify_all(&mut c),
        vec![
            Wake::Flag(70),
            Wake::Flag(71),
            Wake::Thread(10),
            Wake::Thread(11),
            Wake::Continuation(500),
            Wake::Continuation(501)
        ]
    );
    assert!(notify_all(&mut c).is_empty());
}

#[test]
fn a_blocked_wait_times_out() {
    let mut m = Mutex::new(1u32);
    let mut c = Condvar::new();
    let mut wakes = vec![];
    let deadline = at(100);
    let guard = lock(&mut m);
    let (phase, pause) = paused(c.wait_block_timeout_at(
        &mut m,
        Call::Start(guard),
        blocks(1),
        at(0),
        deadline,
        &mut wakes,
    ));
    assert_eq!((phase, pause), (BlockTimeoutPhase::Tick, Pause::Yield));
    let (phase, pause) = paused(c.wait_block_timeout_at(
        &mut m,
        Call::Resume(phase),
        blocks(1),
        at(30),
        deadline,
        &mut wakes,
    ));
    assert_eq!(
        (phase, pause),
        (BlockTimeoutPhase::Parked, Pause::ParkTimeout(70))
    );
    let (phase, pause) = paused(c.wait_block_timeout_at(
        &mut m,
        Call::Resume(phase),
        blocks(1),
        at(50),
        deadline,
        &mut wakes,
    ));
    assert_eq!((phase, pause), (BlockTimeoutPhase::Tick, Pause::Yield));
    let other = lock(&mut m);
    let (phase, pause) = paused(c.wait_block_timeout_at(
        &mut m,
        Call::Resume(phase),
        blocks(1),
        at(100),
        deadline,
        &mut wakes,
    ));
    assert_eq!((phase, pause), (BlockTimeoutPhase::Relock(true), Pause::Park));
    assert!(notify_all(&mut c).is_empty());
    assert_eq!(unlock(&mut m, other), vec![Wake::Thread(1)]);
    let (guard, result) = done(c.wait_block_timeout_at(
        &mut m,
        Call::Resume(phase),
        blocks(1),
        at(101),
        deadline,
        &mut wakes,
    ));
    assert_eq!(*guard.get(), 1);
    assert!(result.timed_out());
}

#[test]
fn a_blocked_wait_that_is_notified_does_not_time_out() {
    let mut m = Mutex::new(1u32);
    let mut c = Condvar::new();
    let mut wakes = vec![];
    let deadline = at(100);
    let guard = lock(&mut m);
    paused(c.wait_block_timeout_at(
        &mut m,
        Call::Start(guard),
        blocks(1),
        at(0),
        deadline,
        &mut wakes,
    ));
    assert_eq!(notify_one(&mut c), vec![Wake::Thread(1)]);
    let (guard, result) = done(c.wait_block_timeout_at(
        &mut m,
        Call::Resume(BlockTimeoutPhase::Tick),
        blocks(1),
        at(200),
        deadline,
        &mut wakes,
    ));
    assert!(!result.timed_out());
    unlock(&mut m, guard);
    let (_guard, result) = done(c.wait_block_timeout_at(
        &mut m,
        Call::Resume(BlockTimeoutPhase::Parked),
        blocks(1),
        at(200),
        deadline,
        &mut wakes,
    ));
    assert!(!result.timed_out());
}

#[test]
fn a_timeout_takes_one_entry_of_the_thread_off() {
    let mut m = Mutex::new(());
    let mut c = Condvar::new();
    let mut wakes = vec![];
    for thread in [1u64, 2, 1] {
        let guard = lock(&mut m);
        paused(c.wait_block(&mut m, Call::Start(guard), blocks(thread), &mut wakes));
    }
    let (_guard, result) = done(c.wait_block_timeout_at(
        &mut m,
        Call::Resume(BlockTimeoutPhase::Tick),
        blocks(1),
        at(5),
        at(5),
        &mut wakes,
    ));
    assert!(result.timed_out());
    assert_eq!(notify_all(&mut c), vec![Wake::Thread(2), Wake::Thread(1)]);
}

#[test]
fn a_spinning_wait_times_out() {
    let mut m = Mutex::new(1u32);
    let mut c = Condvar::new();
    let mut wakes = vec![];
    let deadline = at(100);
    let guard = lock(&mut m);
    let (phase, pause) = paused(c.wait_spin_timeout_at(
        &mut m,
        Call::Start(guard),
        70,
        false,
        spins(1),
        at(0),
        deadline,
        &mut wakes,
    ));
    assert_eq!((phase, pause), (SpinTimeoutPhase::Spinning(70), Pause::Yield));
    let (phase, pause) = paused(c.wait_spin_timeout_at(
        &mut m,
        Call::Resume(phase),
        0,
        false,
        spins(1),
        at(99),
        deadline,
        &mut wakes,
    ));
    assert_eq!(
        (phase, pause),
        (SpinTimeoutPhase::Spinning(70), Pause::SpinLoop)
    );
    let (_guard, result) = done(c.wait_spin_timeout_at(
        &mut m,
        Call::Resume(phase),
        0,
        false,
        spins(1),
        at(100),
        deadline,
        &mut wakes,
    ));
    assert!(result.timed_out());
    assert!(notify_one(&mut c).is_empty());
}

#[test]
fn a_spinning_wait_that_is_chosen_waits_for_its_flag() {
    let mut m = Mutex::new(1u32);
    let mut c = Condvar::new();
    let mut wakes = vec![];
    let deadline = at(100);
    let guard = lock(&mut m);
    let (phase, _) = paused(c.wait_spin_timeout_at(
        &mut m,
        Call::Start(guard),
        70,
        false,
        spins(1),
        at(0),
        deadline,
        &mut wakes,
    ));
    assert_eq!(notify_one(&mut c), vec![Wake::Flag(70)]);
    let (phase, pause) = paused(c.wait_spin_timeout_at(
        &mut m,
        Call::Resume(phase),
        0,
        false,
        spins(1),
        at(100),
        deadline,
        &mut wakes,
    ));
    assert_eq!((phase, pause), (SpinTimeoutPhase::Handoff(70), Pause::Yield));
    let (phase, pause) = paused(c.wait_spin_timeout_at(
        &mut m,
        Call::Resume(phase),
        0,
        false,
        spins(1),
        at(101),
        deadline,
        &mut wakes,
    ));
    assert_eq!(
        (phase, pause),
        (SpinTimeoutPhase::Handoff(70), Pause::SpinLoop)
    );
    let (_guard, result) = done(c.wait_spin_timeout_at(
        &mut m,
        Call::Resume(phase),
        0,
        true,
        spins(1),
        at(102),
        deadline,
        &mut wakes,
    ));
    assert!(!result.timed_out());
}

#[test]
fn a_raised_flag_beats_the_deadline() {
    let mut m = Mutex::new(1u32);
    let mut c = Condvar::new();
    let mut wakes = vec![];
    let (_guard, result) = done(c.wait_spin_timeout_at(
        &mut m,
        Call::Resume(SpinTimeoutPhase::Spinning(70)),
        0,
        true,
        spins(1),
        at(100),
        at(100),
        &mut wakes,
    ));
    assert!(!result.timed_out());
}

#[test]
fn a_wait_with_a_deadline_waits_as_the_thread_may() {
    let mut m = Mutex::new(1u32);
    let mut c = Condvar::new();
    let mut wakes = vec![];
    let deadline = at(100);
    let guard = lock(&mut m);
    let (block, pause) = paused(c.wait_sync_timeout_at(
        &mut m,
        Call::Start(guard),
        70,
        false,
        blocks(1),
        at(0),
        deadline,
        &mut wakes,
    ));
    assert_eq!(
        (block, pause),
        (
            SyncTimeoutPhase::Block(BlockTimeoutPhase::Tick),
            Pause::Yield
        )
    );
    let guard = lock(&mut m);
    let (spin, pause) = paused(c.wait_sync_timeout_at(
        &mut m,
        Call::Start(guard),
        70,
        false,
        spins(2),
        at(0),
        deadline,
        &mut wakes,
    ));
    assert_eq!(
        (spin, pause),
        (
            SyncTimeoutPhase::Spin(SpinTimeoutPhase::Spinning(70)),
            Pause::Yield
        )
    );
    let (guard, result) = done(c.wait_sync_timeout_at(
        &mut m,
        Call::Resume(spin),
        0,
        false,
        spins(2),
        deadline,
        deadline,
        &mut wakes,
    ));
    assert!(result.timed_out());
    unlock(&mut m, guard);
    let (_guard, result) = done(c.wait_sync_timeout_at(
        &mut m,
        Call::Resume(block),
        0,
        false,
        blocks(1),
        deadline,
        deadline,
        &mut wakes,
    ));
    assert!(result.timed_out());
    assert!(notify_all(&mut c).is_empty());
}

#[test]
fn an_async_wait_that_loses_its_race_completes_its_own_continuation() {
    let mut m = Mutex::new(1u32);
    let mut c = Condvar::new();
    let mut ids = WaiterIds::new();
    let mut wakes = vec![];
    for continuation in [500u64, 501] {
        let guard = lock(&mut m);
        let (_, pause) = paused(c.wait_async_timeout(
            &mut m,
            Call::Start(guard),
            &mut ids,
            false,
            continuation,
            &mut wakes,
        ));
        assert_eq!(pause, Pause::Race(continuation));
    }
    let (_guard, result) = done(c.wait_async_timeout(
        &mut m,
        Call::Resume(AsyncTimeoutPhase::Racing(0)),
        &mut ids,
        true,
        600,
        &mut wakes,
    ));
    assert!(result.timed_out());
    assert_eq!(wakes, vec![Wake::Continuation(500)]);
    assert_eq!(notify_all(&mut c), vec![Wake::Continuation(501)]);
}

#[test]
fn an_async_wait_that_wins_its_race_does_not_time_out() {
    let mut m = Mutex::new(1u32);
    let mut c = Condvar::new();
    let mut ids = WaiterIds::new();
    let mut wakes = vec![];
    let guard = lock(&mut m);
    let (phase, _) = paused(c.wait_async_timeout(
        &mut m,
        Call::Start(guard),
        &mut ids,
        false,
        500,
        &mut wakes,
    ));
    assert_eq!(phase, AsyncTimeoutPhase::Racing(0));
    assert_eq!(notify_one(&mut c), vec![Wake::Continuation(500)]);
    let other = lock(&mut m);
    let (phase, pause) = paused(c.wait_async_timeout(
        &mut m,
        Call::Resume(phase),
        &mut ids,
        false,
        501,
        &mut wakes,
    ));
    assert_eq!(
        (phase, pause),
        (AsyncTimeoutPhase::Relock(false), Pause::Await(501))
    );
    unlock(&mut m, other);
    let (_guard, result) = done(c.wait_async_timeout(
        &mut m,
        Call::Resume(phase),
        &mut ids,
        true,
        502,
        &mut wakes,
    ));
    assert!(!result.timed_out());
}

#[test]
fn an_async_wait_is_told_of_a_timeout_though_it_was_notified() {
    let mut m = Mutex::new(1u32);
    let mut c = Condvar::new();
    let mut ids = WaiterIds::new();
    let mut wakes = vec![];
    let guard = lock(&mut m);
    let (phase, _) = paused(c.wait_async_timeout(
        &mut m,
        Call::Start(guard),
        &mut ids,
        false,
        500,
        &mut wakes,
    ));
    assert_eq!(notify_one(&mut c), vec![Wake::Continuation(500)]);
    let (_guard, result) = done(c.wait_async_timeout(
        &mut m,
        Call::Resume(phase),
        &mut ids,
        true,
        501,
        &mut wakes,
    ));
    assert!(result.timed_out());
    assert!(wakes.is_empty());
}

#[test]
fn waiting_while_a_condition_holds() {
    let mut m = Mutex::new(2u32);
    let mut c = Condvar::new();
    let mut wakes = vec![];
    let mut tries = 0;
    let mut condition = |v: &mut u32| {
        tries += 1;
        *v += 10;
        *v < 30
    };
    let guard = lock(&mut m);
    let (phase, pause) = paused(c.wait_block_while(
        &mut m,
        Call::Start(guard),
        &mut condition,
        blocks(1),
        &mut wakes,
    ));
    assert_eq!(pause, Pause::Park);
    let (phase, pause) = paused(c.wait_block_while(
        &mut m,
        Call::Resume(phase),
        &mut condition,
        blocks(1),
        &mut wakes,
    ));
    assert_eq!(pause, Pause::Park);
    let other = lock(&mut m);
    let (phase, pause) = paused(c.wait_block_while(
        &mut m,
        Call::Resume(phase),
        &mut condition,
        blocks(1),
        &mut wakes,
    ));
    assert_eq!(pause, Pause::Park);
    assert_eq!(*other.get(), 22);
    unlock(&mut m, other);
    let guard = done(c.wait_block_while(
        &mut m,
        Call::Resume(phase),
        &mut condition,
        blocks(1),
        &mut wakes,
    ));
    assert_eq!(*guard.get(), 32);
    assert_eq!(tries, 3);
}

#[test]
fn a_condition_that_does_not_hold_ends_the_wait_at_once() {
    let mut m = Mutex::new(2u32);
    let mut c = Condvar::new();
    let mut ids = WaiterIds::new();
    let mut wakes = vec![];
    let mut never = |_: &mut u32| false;
    let guard = lock(&mut m);
    let guard = done(c.wait_block_while(
        &mut m,
        Call::Start(guard),
        &mut never,
        blocks(1),
        &mut wakes,
    ));
    let guard = done(c.wait_spin_while(
        &mut m,
        Call::Start(guard),
        &mut never,
        70,
        false,
        spins(1),
        &mut wakes,
    ));
    let guard = done(c.wait_sync_while(
        &mut m,
        Call::Start(guard),
        &mut never,
        70,
        false,
        spins(1),
        &mut wakes,
    ));
    let guard = done(c.wait_async_while(
        &mut m,
        Call::Start(guard),
        &mut never,
        &mut ids,
        500,
        &mut wakes,
    ));
    let (guard, r) = done(c.wait_block_timeout_while_at(
        &mut m,
        Call::Start(guard),
        &mut never,
        blocks(1),
        at(9),
        at(0),
        &mut wakes,
    ));
    assert!(!r.timed_out());
    let (guard, r) = done(c.wait_spin_timeout_while_at(
        &mut m,
        Call::Start(guard),
        &mut never,
        70,
        false,
        spins(1),
        at(9),
        at(0),
        &mut wakes,
    ));
    assert!(!r.timed_out());
    let (guard, r) = done(c.wait_sync_timeout_while_at(
        &mut m,
        Call::Start(guard),
        &mut never,
        70,
        false,
        blocks(1),
        at(9),
        at(0),
        &mut wakes,
    ));
    assert!(!r.timed_out());
    let (_guard, r) = done(c.wait_async_timeout_while(
        &mut m,
        Call::Start(guard),
        &mut never,
        &mut ids,
        false,
        500,
        &mut wakes,
    ));
    assert!(!r.timed_out());
    assert!(notify_all(&mut c).is_empty());
    assert!(wakes.is_empty());
}

#[test]
fn a_wait_while_a_condition_holds_ends_at_its_deadline() {
    let mut m = Mutex::new(2u32);
    let mut c = Condvar::new();
    let mut ids = WaiterIds::new();
    let mut wakes = vec![];
    let mut tries = 0;
    let mut always = |_: &mut u32| {
        tries += 1;
        true
    };
    let guard = lock(&mut m);
    let (phase, _) = paused(c.wait_block_timeout_while_at(
        &mut m,
        Call::Start(guard),
        &mut always,
        blocks(1),
        at(0),
        at(5),
        &mut wakes,
    ));
    let (guard, r) = done(c.wait_block_timeout_while_at(
        &mut m,
        Call::Resume(phase),
        &mut always,
        blocks(1),
        at(5),
        at(5),
        &mut wakes,
    ));
    assert!(r.timed_out());
    let (phase, _) = paused(c.wait_spin_timeout_while_at(
        &mut m,
        Call::Start(guard),
        &mut always,
        70,
        false,
        spins(1),
        at(0),
        at(5),
        &mut wakes,
    ));
    let (guard, r) = done(c.wait_spin_timeout_while_at(
        &mut m,
        Call::Resume(phase),
        &mut always,
        70,
        false,
        spins(1),
        at(5),
        at(5),
        &mut wakes,
    ));
    assert!(r.timed_out());
    let (phase, _) = paused(c.wait_sync_timeout_while_at(
        &mut m,
        Call::Start(guard),
        &mut always,
        70,
        false,
        blocks(1),
        at(0),
        at(5),
        &mut wakes,
    ));
    let (guard, r) = done(c.wait_sync_timeout_while_at(
        &mut m,
        Call::Resume(phase),
        &mut always,
        70,
        false,
        blocks(1),
        at(5),
        at(5),
        &mut wakes,
    ));
    assert!(r.timed_out());
    let (phase, _) = paused(c.wait_async_timeout_while(
        &mut m,
        Call::Start(guard),
        &mut always,
        &mut ids,
        false,
        500,
        &mut wakes,
    ));
    let (_guard, r) = done(c.wait_async_timeout_while(
        &mut m,
        Call::Resume(phase),
        &mut always,
        &mut ids,
        true,
        501,
        &mut wakes,
    ));
    assert!(r.timed_out());
    assert_eq!(tries, 4);
}

#[test]
fn waits_are_held_against_the_clock() {
    let past = web_time::Instant::now();
    let mut m = Mutex::new(2u32);
    let mut c = Condvar::new();
    let mut wakes = vec![];
    let mut always = |_: &mut u32| true;
    let (guard, r) = done(c.wait_block_timeout(
        &mut m,
        Call::Resume(BlockTimeoutPhase::Tick),
        blocks(1),
        past,
        &mut wakes,
    ));
    assert!(!r.timed_out());
    let (phase, _) = paused(c.wait_spin_timeout(
        &mut m,
        Call::Start(guard),
        70,
        false,
        spins(1),
        past,
        &mut wakes,
    ));
    let (guard, r) = done(c.wait_spin_timeout(
        &mut m,
        Call::Resume(phase),
        70,
        false,
        spins(1),
        past,
        &mut wakes,
    ));
    assert!(r.timed_out());
    let (phase, _) = paused(c.wait_sync_timeout(
        &mut m,
        Call::Start(guard),
        70,
        false,
        blocks(1),
        past,
        &mut wakes,
    ));
    let (guard, r) = done(c.wait_sync_timeout(
        &mut m,
        Call::Resume(phase),
        70,
        false,
        blocks(1),
        past,
        &mut wakes,
    ));
    assert!(r.timed_out());
    let (phase, _) = paused(c.wait_block_timeout_while(
        &mut m,
        Call::Start(guard),
        &mut always,
        blocks(1),
        past,
        &mut wakes,
    ));
    let (guard, r) = done(c.wait_block_timeout_while(
        &mut m,
        Call::Resume(phase),
        &mut always,
        blocks(1),
        past,
        &mut wakes,
    ));
    assert!(r.timed_out());
    let (phase, _) = paused(c.wait_spin_timeout_while(
        &mut m,
        Call::Start(guard),
        &mut always,
        70,
        false,
        spins(1),
        past,
        &mut wakes,
    ));
    let (guard, r) = done(c.wait_spin_timeout_while(
        &mut m,
        Call::Resume(phase),
        &mut always,
        70,
        false,
        spins(1),
        past,
        &mut wakes,
    ));
    assert!(r.timed_out());
    let (phase, _) = paused(c.wait_sync_timeout_while(
        &mut m,
        Call::Start(guard),
        &mut always,
        70,
        false,
        spins(1),
        past,
        &mut wakes,
    ));
    let (_guard, r) = done(c.wait_sync_timeout_while(
        &mut m,
        Call::Resume(phase),
        &mut always,
        70,
        false,
        spins(1),
        past,
        &mut wakes,
    ));
    assert!(r.timed_out());
    assert!(notify_all(&mut c).is_empty());
}

#[test]
fn no_timeout_by_default() {
    assert!(!WaitTimeoutResult::default().timed_out());
}

#[test]
fn waiter_numbers_count_up() {
    let mut ids = WaiterIds::new();
    assert_eq!(ids.take(), 0);
    assert_eq!(ids.take(), 1);
    assert_eq!(ids.take(), 2);
}

#[test]
fn single_notifications_wake_whom_a_notification_of_all_wakes() {
    let (_m, mut all, _ids) = crowd();
    let (_n, mut one_by_one, _more) = crowd();
    let mut together = notify_all(&mut all);
    for n in 1..=6usize {
        let woken = notify_one(&mut one_by_one);
        assert_eq!(woken.len(), 1);
        let position = together.iter().position(|wake| *wake == woken[0]);
        match position {
            Some(position) => {
                together.remove(position);
            }
            None => panic!("woken twice or not waiting"),
        }
        assert_eq!(together.len(), 6 - n);
    }
    assert!(notify_one(&mut one_by_one).is_empty());
}

#[test]
fn what_a_condition_says_decides_whether_the_wait_starts() {
    let mut m = Mutex::new(3u32);
    let mut c = Condvar::new();
    let mut ids = WaiterIds::new();
    let mut wakes = vec![];

    let guard = lock(&mut m);
    let guard = done(c.wait_block_tried(&mut m, guard, false, blocks(1), &mut wakes));
    let guard = done(c.wait_spin_tried(&mut m, guard, false, 70, &mut wakes));
    let guard = done(c.wait_sync_tried(&mut m, guard, false, 70, blocks(1), &mut wakes));
    let guard = done(c.wait_async_tried(&mut m, guard, false, &mut ids, 500, &mut wakes));
    let (guard, r) = done(c.wait_block_timeout_tried(&mut m, guard, false, blocks(1), &mut wakes));
    assert!(!r.timed_out());
    let (guard, r) = done(c.wait_spin_timeout_tried(&mut m, guard, false, 70, &mut wakes));
    assert!(!r.timed_out());
    let (guard, r) =
        done(c.wait_sync_timeout_tried(&mut m, guard, false, 70, spins(1), &mut wakes));
    assert!(!r.timed_out());
    let (guard, r) =
        done(c.wait_async_timeout_tried(&mut m, guard, false, &mut ids, 500, &mut wakes));
    assert!(!r.timed_out());
    assert_eq!(*guard.get(), 3);
    assert!(m.try_lock().is_err());
    assert!(notify_all(&mut c).is_empty());
    assert_eq!(ids.take(), 0);

    let r = c.wait_block_tried(&mut m, guard, true, blocks(1), &mut wakes);
    assert_eq!(paused(r), (BlockPhase::Relock, Pause::Park));
    let guard = lock(&mut m);
    let r = c.wait_spin_tried(&mut m, guard, true, 70, &mut wakes);
    assert_eq!(paused(r), (SpinPhase::Spinning(70), Pause::Yield));
    let guard = lock(&mut m);
    let r = c.wait_sync_tried(&mut m, guard, true, 71, spins(1), &mut wakes);
    assert_eq!(paused(r), (SyncPhase::Spin(SpinPhase::Spinning(71)), Pause::Yield));
    let guard = lock(&mut m);
    let r = c.wait_async_tried(&mut m, guard, true, &mut ids, 500, &mut wakes);
    assert_eq!(paused(r), (AsyncPhase::Relock, Pause::Await(500)));
    let guard = lock(&mut m);
    let r = c.wait_block_timeout_tried(&mut m, guard, true, blocks(2), &mut wakes);
    assert_eq!(paused(r), (BlockTimeoutPhase::Tick, Pause::Yield));
    let guard = lock(&mut m);
    let r = c.wait_spin_timeout_tried(&mut m, guard, true, 72, &mut wakes);
    assert_eq!(paused(r), (SpinTimeoutPhase::Spinning(72), Pause::Yield));
    let guard = lock(&mut m);
    let r = c.wait_sync_timeout_tried(&mut m, guard, true, 73, blocks(3), &mut wakes);
    assert_eq!(
        paused(r),
        (SyncTimeoutPhase::Block(BlockTimeoutPhase::Tick), Pause::Yield)
    );
    let guard = lock(&mut m);
    let r = c.wait_async_timeout_tried(&mut m, guard, true, &mut ids, 501, &mut wakes);
    assert_eq!(paused(r), (AsyncTimeoutPhase::Racing(2), Pause::Race(501)));
    assert_eq!(
        notify_all(&mut c),
        vec![
            Wake::Flag(70),
            Wake::Flag(71),
            Wake::Flag(72),
            Wake::Thread(1),
            Wake::Thread(2),
            Wake::Thread(3),
            Wake::Continuation(500),
            Wake::Continuation(501)
        ]
    );
    assert!(wakes.is_empty());
}

#[test]
fn a_condition_is_due_when_a_wait_is_over_in_time() {
    let mut m = Mutex::new(3u32);
    let mut c = Condvar::new();
    let mut wakes = vec![];
    let guard = lock(&mut m);
    let progress = c.wait_block(&mut m, Call::Start(guard), blocks(1), &mut wakes);
    let phase = match turn(progress) {
        Turn::Settled(progress) => paused(progress).0,
        Turn::Try(_) => panic!("nothing in hand"),
    };
    match turn(c.wait_block(&mut m, Call::Resume(phase), blocks(1), &mut wakes)) {
        Turn::Try(guard) => unlock(&mut m, guard),
        Turn::Settled(_) => panic!("in hand"),
    };
    let phase = BlockTimeoutPhase::Relock(true);
    let call = Call::Resume(phase);
    let late = c.wait_block_timeout_at(&mut m, call, blocks(1), at(9), at(5), &mut wakes);
    match timed_turn(late) {
        Turn::Settled(progress) => {
            let (guard, r) = done(progress);
            assert!(r.timed_out());
            unlock(&mut m, guard);
        }
        Turn::Try(_) => panic!("out of time"),
    }
    let call = Call::Resume(BlockTimeoutPhase::Relock(false));
    let timely = c.wait_block_timeout_at(&mut m, call, blocks(1), at(9), at(5), &mut wakes);
    assert!(matches!(timed_turn(timely), Turn::Try(_)));
}

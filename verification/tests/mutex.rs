use wasm_safe_sync::guard::Guard;
use wasm_safe_sync::mutex::{Mutex, NotAvailable};
use wasm_safe_sync::step::{Caller, Pause, Progress, Wake};
use wasm_safe_sync::time::Moment;

const BLOCKS: Caller = Caller {
    thread: 4,
    can_block: true,
};
const SPINS: Caller = Caller {
    thread: 4,
    can_block: false,
};

fn at(nanos: u128) -> Moment {
    Moment { nanos }
}

fn done<P, T>(r: Progress<P, Guard<T>>) -> Guard<T> {
    match r {
        Progress::Done(guard) => guard,
        Progress::Pause(_, _) => panic!("not done"),
    }
}

fn pause<P, R>(r: Progress<P, R>) -> Pause {
    match r {
        Progress::Done(_) => panic!("done"),
        Progress::Pause(_, pause) => pause,
    }
}

fn gave_up<P, T>(r: Progress<P, Option<Guard<T>>>) -> bool {
    matches!(r, Progress::Done(None))
}

#[test]
fn try_lock_takes_a_free_mutex() {
    let mut m = Mutex::new(7u32);
    let g = m.try_lock().unwrap();
    assert_eq!(*g.get(), 7);
    assert!(matches!(m.try_lock(), Err(NotAvailable)));
    let mut wakes = vec![];
    m.unlock(g, &mut wakes);
    assert!(wakes.is_empty());
    assert!(m.try_lock().is_ok());
}

#[test]
fn the_next_holder_finds_what_the_last_one_left() {
    let mut m = Mutex::new(1u32);
    let mut wakes = vec![];
    let mut g = m.try_lock().unwrap();
    *g.get_mut() = 42;
    m.unlock(g, &mut wakes);
    assert_eq!(*done(m.lock_spin()).get(), 42);
}

#[test]
fn a_spinner_spins_while_the_mutex_is_locked() {
    let mut m = Mutex::new(1u32);
    let g = done(m.lock_spin());
    assert_eq!(pause(m.lock_spin()), Pause::SpinLoop);
    let mut wakes = vec![];
    m.unlock(g, &mut wakes);
    assert!(wakes.is_empty());
    done(m.lock_spin());
}

#[test]
fn unlocking_wakes_all_who_wait_in_order() {
    let mut m = Mutex::new(());
    let g = done(m.lock_block(1));
    assert_eq!(pause(m.lock_block(2)), Pause::Park);
    assert_eq!(pause(m.lock_async(30)), Pause::Await(30));
    assert_eq!(pause(m.lock_block(3)), Pause::Park);
    assert_eq!(pause(m.lock_async(31)), Pause::Await(31));
    let mut wakes = vec![];
    m.unlock(g, &mut wakes);
    assert_eq!(
        wakes,
        vec![
            Wake::Thread(2),
            Wake::Thread(3),
            Wake::Continuation(30),
            Wake::Continuation(31)
        ]
    );
    let g = done(m.lock_block(2));
    let mut wakes = vec![];
    m.unlock(g, &mut wakes);
    assert!(wakes.is_empty());
}

#[test]
fn a_waiter_that_is_late_again_is_listed_again() {
    let mut m = Mutex::new(());
    let first = done(m.lock_block(1));
    assert_eq!(pause(m.lock_block(2)), Pause::Park);
    assert_eq!(pause(m.lock_block(2)), Pause::Park);
    let mut wakes = vec![];
    m.unlock(first, &mut wakes);
    assert_eq!(wakes, vec![Wake::Thread(2), Wake::Thread(2)]);
}

#[test]
fn did_unlock_empties_the_lists() {
    let mut m = Mutex::new(());
    let _g = done(m.lock_block(1));
    pause(m.lock_block(2));
    let mut wakes = vec![];
    m.did_unlock(&mut wakes);
    assert_eq!(wakes, vec![Wake::Thread(2)]);
    m.did_unlock(&mut wakes);
    assert_eq!(wakes, vec![Wake::Thread(2)]);
}

#[test]
fn spinning_gives_up_at_the_deadline() {
    let mut m = Mutex::new(5u32);
    let deadline = at(100);
    let g = m.try_lock().unwrap();
    assert_eq!(
        pause(m.lock_spin_timeout_at(at(99), deadline)),
        Pause::SpinLoop
    );
    assert!(gave_up(m.lock_spin_timeout_at(at(100), deadline)));
    let mut wakes = vec![];
    m.unlock(g, &mut wakes);
    assert!(matches!(
        m.lock_spin_timeout_at(at(500), deadline),
        Progress::Done(Some(_))
    ));
}

#[test]
fn blocking_gives_up_at_the_deadline() {
    let mut m = Mutex::new(5u32);
    let deadline = at(100);
    let g = m.try_lock().unwrap();
    assert_eq!(
        pause(m.lock_block_timeout_at(9, at(30), at(40), deadline)),
        Pause::ParkTimeout(60)
    );
    assert_eq!(
        pause(m.lock_block_timeout_at(9, at(30), at(140), deadline)),
        Pause::ParkTimeout(0)
    );
    assert!(gave_up(m.lock_block_timeout_at(9, at(100), at(100), deadline)));
    let mut wakes = vec![];
    m.unlock(g, &mut wakes);
    assert_eq!(wakes, vec![Wake::Thread(9), Wake::Thread(9)]);
    assert!(matches!(
        m.lock_block_timeout_at(9, at(500), at(500), deadline),
        Progress::Done(Some(_))
    ));
}

#[test]
fn awaiting_gives_up_when_the_race_is_lost() {
    let mut m = Mutex::new(5u32);
    let deadline = at(100);
    let g = m.try_lock().unwrap();
    assert_eq!(
        pause(m.lock_async_timeout_at(false, 50, at(1), deadline)),
        Pause::Race(50)
    );
    assert!(gave_up(m.lock_async_timeout_at(true, 51, at(2), deadline)));
    assert!(gave_up(m.lock_async_timeout_at(false, 52, at(100), deadline)));
    let mut wakes = vec![];
    m.unlock(g, &mut wakes);
    assert_eq!(wakes, vec![Wake::Continuation(50)]);
    assert!(matches!(
        m.lock_async_timeout_at(false, 53, at(1), deadline),
        Progress::Done(Some(_))
    ));
}

#[test]
fn a_lost_race_is_not_made_good_by_a_free_mutex() {
    let mut m = Mutex::new(5u32);
    assert!(gave_up(m.lock_async_timeout_at(true, 51, at(2), at(100))));
    assert!(m.try_lock().is_ok());
}

#[test]
fn lock_sync_waits_as_the_thread_may() {
    let mut m = Mutex::new(5u32);
    let g = done(m.lock_sync(BLOCKS));
    assert_eq!(pause(m.lock_sync(BLOCKS)), Pause::Park);
    assert_eq!(pause(m.lock_sync(SPINS)), Pause::SpinLoop);
    let mut wakes = vec![];
    m.unlock(g, &mut wakes);
    assert_eq!(wakes, vec![Wake::Thread(4)]);
    let _g = done(m.lock_sync(SPINS));
    assert_eq!(
        pause(m.lock_sync_timeout_at(BLOCKS, at(1), at(2), at(10))),
        Pause::ParkTimeout(8)
    );
    assert_eq!(
        pause(m.lock_sync_timeout_at(SPINS, at(1), at(2), at(10))),
        Pause::SpinLoop
    );
    assert!(gave_up(m.lock_sync_timeout_at(SPINS, at(10), at(10), at(10))));
}

#[test]
fn deadlines_are_held_against_the_clock() {
    let past = web_time::Instant::now();
    let far = past + std::time::Duration::from_secs(3600);
    let mut m = Mutex::new(5u32);
    let _g = m.try_lock().unwrap();
    assert!(gave_up(m.lock_spin_timeout(past)));
    assert!(gave_up(m.lock_block_timeout(1, past)));
    assert!(gave_up(m.lock_sync_timeout(BLOCKS, past)));
    assert!(gave_up(m.lock_async_timeout(false, 7, past)));
    assert_eq!(pause(m.lock_spin_timeout(far)), Pause::SpinLoop);
    assert!(matches!(
        pause(m.lock_block_timeout(1, far)),
        Pause::ParkTimeout(n) if n > 0 && n <= 3_600_000_000_000
    ));
    assert_eq!(
        pause(m.lock_async_timeout(false, 7, far)),
        Pause::Race(7)
    );
    assert_eq!(
        pause(m.lock_sync_timeout(SPINS, far)),
        Pause::SpinLoop
    );
}

#[test]
fn with_runs_under_the_lock() {
    let mut m = Mutex::new(10u32);
    let mut wakes = vec![];
    assert!(matches!(
        m.with_sync(BLOCKS, |v| *v + 1, &mut wakes),
        Progress::Done(11)
    ));
    assert!(matches!(
        m.with_mut_sync(
            BLOCKS,
            |v| {
                *v = 20;
                *v
            },
            &mut wakes
        ),
        Progress::Done(20)
    ));
    assert!(matches!(
        m.with_async(1, |v| *v + 1, &mut wakes),
        Progress::Done(21)
    ));
    assert!(matches!(
        m.with_mut_async(
            1,
            |v| {
                *v += 5;
            },
            &mut wakes
        ),
        Progress::Done(())
    ));
    assert_eq!(*m.try_lock().unwrap().get(), 25);
    assert!(wakes.is_empty());
}

#[test]
fn with_hands_the_closure_back() {
    let mut m = Mutex::new(10u32);
    let mut wakes = vec![];
    let g = m.try_lock().unwrap();
    let f = match m.with_sync(BLOCKS, |v| *v * 2, &mut wakes) {
        Progress::Pause(f, Pause::Park) => f,
        _ => panic!("got the lock"),
    };
    let h = match m.with_mut_async(8, |v| *v += 1, &mut wakes) {
        Progress::Pause(h, Pause::Await(8)) => h,
        _ => panic!("got the lock"),
    };
    m.unlock(g, &mut wakes);
    assert_eq!(wakes, vec![Wake::Thread(4), Wake::Continuation(8)]);
    assert!(matches!(
        m.with_sync(BLOCKS, f, &mut wakes),
        Progress::Done(20)
    ));
    assert!(matches!(
        m.with_mut_async(8, h, &mut wakes),
        Progress::Done(())
    ));
    assert_eq!(*m.try_lock().unwrap().get(), 11);
}

#[test]
fn display_shows_the_data_or_that_it_is_locked() {
    let mut m = Mutex::new(10u32);
    let mut wakes = vec![];
    assert_eq!(m.display(|v| v.to_string(), &mut wakes), "10");
    let _g = m.try_lock().unwrap();
    assert_eq!(
        m.display(|v| v.to_string(), &mut wakes),
        "Mutex { <locked> }"
    );
}

#[test]
fn made_from_a_value_or_by_default() {
    let mut m: Mutex<u32> = Mutex::from(3);
    assert_eq!(*m.try_lock().unwrap().get(), 3);
    let mut m: Mutex<u32> = Mutex::default();
    assert_eq!(*m.try_lock().unwrap().get(), 0);
}

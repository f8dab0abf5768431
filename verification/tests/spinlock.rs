use wasm_safe_sync::spinlock::Spinlock;

#[test]
fn with_mut_changes_the_data_and_returns() {
    let mut lock = Spinlock::new(vec![1u32]);
    let r = lock.with_mut(|v| {
        v.push(2);
        v.len()
    });
    assert!(matches!(r, Ok(2)));
    assert!(matches!(lock.with_mut(|v| v.clone()), Ok(v) if v == vec![1, 2]));
}

#[test]
fn a_held_lock_keeps_others_out() {
    let mut lock = Spinlock::new(5u32);
    assert!(lock.enter());
    assert!(!lock.enter());
    assert!(!lock.enter());
    let r = lock.with_mut(|v| {
        *v = 9;
    });
    let f = match r {
        Ok(()) => panic!("got in"),
        Err(f) => f,
    };
    lock.leave();
    assert!(lock.with_mut(f).is_ok());
    assert!(matches!(lock.with_mut(|v| *v), Ok(9)));
}

#[test]
fn leaving_lets_the_next_one_in() {
    let mut lock = Spinlock::new(());
    assert!(lock.enter());
    lock.leave();
    assert!(lock.enter());
}

#[test]
fn spinlock_from_a_value_or_by_default() {
    let mut lock: Spinlock<u32> = Spinlock::from(3);
    assert!(matches!(lock.with_mut(|v| *v), Ok(3)));
    let mut lock: Spinlock<u32> = Spinlock::default();
    assert!(matches!(lock.with_mut(|v| *v), Ok(0)));
}

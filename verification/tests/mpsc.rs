use wasm_safe_sync::condvar::{
    AsyncTimeoutPhase, BlockPhase, BlockTimeoutPhase, SpinPhase, SpinTimeoutPhase, SyncPhase,
    WaiterIds,
};
use wasm_safe_sync::mpsc::{
    channel, Receiver, RecvError, RecvPhase, RecvTimeoutError, SendError, SendPhase, Sender,
    Shared, TryRecvError,
};
use wasm_safe_sync::step::{Call, Caller, Pause, Progress, Wake};
use wasm_safe_sync::time::Moment;

const BLOCKS: Caller = Caller {
    thread: 4,
    can_block: true,
};
const SPINS: Caller = Caller {
    thread: 4,
    can_block: false,
};

fn at(nanos: u128) -> Moment {
    Moment { nanos }
}

fn paused<P, R>(r: Progress<P, R>) -> (P, Pause) {
    match r {
        Progress::Done(_) => panic!("done"),
        Progress::Pause(phase, pause) => (phase, pause),
    }
}

fn done<P, R>(r: Progress<P, R>) -> R {
    match r {
        Progress::Done(r) => r,
        Progress::Pause(_, _) => panic!("not done"),
    }
}

fn send<T>(tx: &Sender<T>, shared: &mut Shared<T>, t: T, wakes: &mut Vec<Wake>) -> bool {
    let (phase, pause) = match tx.send_spin(shared, Call::Start(t), wakes) {
        Progress::Done(r) => return r.is_ok(),
        Progress::Pause(phase, pause) => (phase, pause),
    };
    assert_eq!(pause, Pause::Yield);
    done(tx.send_spin(shared, Call::Resume(phase), wakes)).is_ok()
}

fn recv<T>(
    rx: &Receiver<T>,
    shared: &mut Shared<T>,
    wakes: &mut Vec<Wake>,
) -> Result<T, RecvError> {
    done(rx.recv_block(shared, RecvPhase::Lock, BLOCKS, wakes))
}

#[test]
fn values_arrive_in_the_order_in_which_they_were_sent() {
    let (mut shared, tx, rx) = channel::<u32>();
    let mut wakes = vec![];
    let tx2 = tx.clone(&mut shared);
    assert!(send(&tx, &mut shared, 1, &mut wakes));
    assert!(send(&tx2, &mut shared, 2, &mut wakes));
    assert!(send(&tx, &mut shared, 3, &mut wakes));
    assert_eq!(recv(&rx, &mut shared, &mut wakes), Ok(1));
    assert!(send(&tx, &mut shared, 4, &mut wakes));
    assert_eq!(rx.try_recv(&mut shared, &mut wakes), Ok(2));
    assert_eq!(
        done(rx.recv_spin(&mut shared, RecvPhase::Lock, 70, false, SPINS, &mut wakes)),
        Ok(3)
    );
    assert_eq!(
        done(rx.recv_sync(&mut shared, RecvPhase::Lock, 70, false, BLOCKS, &mut wakes)),
        Ok(4)
    );
    assert_eq!(
        rx.try_recv(&mut shared, &mut wakes),
        Err(TryRecvError::Empty)
    );
    assert!(wakes.is_empty());
}

#[test]
fn every_way_to_send_appends() {
    let (mut shared, tx, rx) = channel::<u32>();
    let mut wakes = vec![];
    let (phase, pause) = paused(tx.send_block(&mut shared, Call::Start(1), BLOCKS, &mut wakes));
    assert_eq!(pause, Pause::Yield);
    assert!(matches!(
        tx.send_block(&mut shared, Call::Resume(phase), BLOCKS, &mut wakes),
        Progress::Done(Ok(()))
    ));
    let (phase, _) = paused(tx.send_sync(&mut shared, Call::Start(2), SPINS, &mut wakes));
    assert!(matches!(
        tx.send_sync(&mut shared, Call::Resume(phase), SPINS, &mut wakes),
        Progress::Done(Ok(()))
    ));
    let (phase, _) = paused(tx.send_async(&mut shared, Call::Start(3), 500, &mut wakes));
    assert!(matches!(
        tx.send_async(&mut shared, Call::Resume(phase), 501, &mut wakes),
        Progress::Done(Ok(()))
    ));
    for n in 1..4u32 {
        assert_eq!(rx.try_recv(&mut shared, &mut wakes), Ok(n));
    }
}

#[test]
fn a_queue_in_hand_keeps_others_out() {
    let (mut shared, tx, rx) = channel::<u32>();
    let mut wakes = vec![];
    let mut ids = WaiterIds::new();
    let (held, _) = paused(tx.send_spin(&mut shared, Call::Start(1), &mut wakes));
    assert_eq!(
        rx.try_recv(&mut shared, &mut wakes),
        Err(TryRecvError::Empty)
    );
    let (phase, pause) = paused(tx.send_spin(&mut shared, Call::Start(2), &mut wakes));
    assert!(matches!(phase, SendPhase::Lock(2)));
    assert_eq!(pause, Pause::SpinLoop);
    let (_, pause) = paused(tx.send_block(&mut shared, Call::Start(3), BLOCKS, &mut wakes));
    assert_eq!(pause, Pause::Park);
    let (_, pause) = paused(tx.send_async(&mut shared, Call::Start(4), 500, &mut wakes));
    assert_eq!(pause, Pause::Await(500));
    let (p, pause) = paused(rx.recv_spin(
        &mut shared,
        RecvPhase::Lock,
        70,
        false,
        SPINS,
        &mut wakes,
    ));
    assert_eq!((p, pause), (RecvPhase::Lock, Pause::SpinLoop));
    let (p, pause) = paused(rx.recv_block(&mut shared, RecvPhase::Lock, BLOCKS, &mut wakes));
    assert_eq!((p, pause), (RecvPhase::Lock, Pause::Park));
    let (p, pause) = paused(rx.recv_async(
        &mut shared,
        RecvPhase::Lock,
        &mut ids,
        501,
        &mut wakes,
    ));
    assert_eq!((p, pause), (RecvPhase::Lock, Pause::Await(501)));
    assert!(wakes.is_empty());
    assert!(matches!(
        tx.send_spin(&mut shared, Call::Resume(held), &mut wakes),
        Progress::Done(Ok(()))
    ));
    assert_eq!(
        wakes,
        vec![
            Wake::Thread(4),
            Wake::Thread(4),
            Wake::Continuation(500),
            Wake::Continuation(501)
        ]
    );
    let (held, _) = paused(tx.send_spin(&mut shared, Call::Resume(phase), &mut wakes));
    assert!(matches!(
        tx.send_spin(&mut shared, Call::Resume(held), &mut wakes),
        Progress::Done(Ok(()))
    ));
    assert_eq!(rx.try_recv(&mut shared, &mut wakes), Ok(1));
    assert_eq!(rx.try_recv(&mut shared, &mut wakes), Ok(2));
}

#[test]
fn a_blocked_receiver_is_woken_by_a_value() {
    let (mut shared, tx, rx) = channel::<u32>();
    let mut wakes = vec![];
    let (phase, pause) = paused(rx.recv_block(&mut shared, RecvPhase::Lock, BLOCKS, &mut wakes));
    assert_eq!(
        (phase, pause),
        (RecvPhase::Wait(BlockPhase::Relock), Pause::Park)
    );
    assert!(send(&tx, &mut shared, 9, &mut wakes));
    assert_eq!(wakes, vec![Wake::Thread(4)]);
    assert_eq!(
        done(rx.recv_block(&mut shared, phase, BLOCKS, &mut wakes)),
        Ok(9)
    );
}

#[test]
fn a_receiver_that_wakes_up_for_nothing_waits_again() {
    let (mut shared, _tx, rx) = channel::<u32>();
    let mut wakes = vec![];
    let (phase, _) = paused(rx.recv_block(&mut shared, RecvPhase::Lock, BLOCKS, &mut wakes));
    let (phase, pause) = paused(rx.recv_block(&mut shared, phase, BLOCKS, &mut wakes));
    assert_eq!(
        (phase, pause),
        (RecvPhase::Wait(BlockPhase::Relock), Pause::Park)
    );
}

#[test]
fn a_spinning_receiver_is_woken_by_its_flag() {
    let (mut shared, tx, rx) = channel::<u32>();
    let mut wakes = vec![];
    let (phase, pause) = paused(rx.recv_spin(
        &mut shared,
        RecvPhase::Lock,
        70,
        false,
        SPINS,
        &mut wakes,
    ));
    assert_eq!(
        (phase, pause),
        (RecvPhase::Wait(SpinPhase::Spinning(70)), Pause::Yield)
    );
    let (phase, pause) = paused(rx.recv_spin(&mut shared, phase, 71, false, SPINS, &mut wakes));
    assert_eq!(pause, Pause::SpinLoop);
    assert!(send(&tx, &mut shared, 9, &mut wakes));
    assert_eq!(wakes, vec![Wake::Flag(70)]);
    assert_eq!(
        done(rx.recv_spin(&mut shared, phase, 71, true, SPINS, &mut wakes)),
        Ok(9)
    );
}

#[test]
fn an_async_receiver_is_woken_by_its_continuation() {
    let (mut shared, tx, rx) = channel::<u32>();
    let mut wakes = vec![];
    let mut ids = WaiterIds::new();
    let (phase, pause) = paused(rx.recv_async(
        &mut shared,
        RecvPhase::Lock,
        &mut ids,
        500,
        &mut wakes,
    ));
    assert_eq!(pause, Pause::Await(500));
    assert!(send(&tx, &mut shared, 9, &mut wakes));
    assert_eq!(wakes, vec![Wake::Continuation(500)]);
    assert_eq!(
        done(rx.recv_async(&mut shared, phase, &mut ids, 501, &mut wakes)),
        Ok(9)
    );
    assert_eq!(ids.take(), 1);
}

#[test]
fn the_last_sender_disconnects() {
    let (mut shared, tx, rx) = channel::<u32>();
    let mut wakes = vec![];
    let tx2 = tx.clone(&mut shared);
    assert!(send(&tx, &mut shared, 1, &mut wakes));
    tx.drop(&mut shared, &mut wakes);
    assert_eq!(recv(&rx, &mut shared, &mut wakes), Ok(1));
    let (phase, _) = paused(rx.recv_block(&mut shared, RecvPhase::Lock, BLOCKS, &mut wakes));
    assert!(wakes.is_empty());
    tx2.drop(&mut shared, &mut wakes);
    assert_eq!(wakes, vec![Wake::Thread(4)]);
    assert_eq!(
        done(rx.recv_block(&mut shared, phase, BLOCKS, &mut wakes)),
        Err(RecvError::Disconnected)
    );
    assert_eq!(
        rx.try_recv(&mut shared, &mut wakes),
        Err(TryRecvError::Disconnected)
    );
    assert_eq!(
        done(rx.recv_spin(&mut shared, RecvPhase::Lock, 70, false, SPINS, &mut wakes)),
        Err(RecvError::Disconnected)
    );
    assert_eq!(
        done(rx.recv_spin_timeout_at(
            &mut shared,
            RecvPhase::Lock,
            70,
            false,
            SPINS,
            at(0),
            at(9),
            &mut wakes
        )),
        Err(RecvTimeoutError::Disconnected)
    );
}

#[test]
fn values_outlive_their_senders() {
    let (mut shared, tx, rx) = channel::<u32>();
    let mut wakes = vec![];
    assert!(send(&tx, &mut shared, 1, &mut wakes));
    assert!(send(&tx, &mut shared, 2, &mut wakes));
    tx.drop(&mut shared, &mut wakes);
    assert_eq!(recv(&rx, &mut shared, &mut wakes), Ok(1));
    assert_eq!(recv(&rx, &mut shared, &mut wakes), Ok(2));
    assert_eq!(
        recv(&rx, &mut shared, &mut wakes),
        Err(RecvError::Disconnected)
    );
}

#[test]
fn without_a_receiver_the_value_comes_back() {
    let (mut shared, tx, rx) = channel::<u32>();
    let mut wakes = vec![];
    let (held, _) = paused(tx.send_spin(&mut shared, Call::Start(1), &mut wakes));
    rx.drop(&mut shared, &mut wakes);
    assert!(matches!(
        tx.send_spin(&mut shared, Call::Resume(held), &mut wakes),
        Progress::Done(Err(SendError(1)))
    ));
    assert!(matches!(
        tx.send_spin(&mut shared, Call::Start(2), &mut wakes),
        Progress::Done(Err(SendError(2)))
    ));
    assert!(matches!(
        tx.send_block(&mut shared, Call::Start(3), BLOCKS, &mut wakes),
        Progress::Done(Err(SendError(3)))
    ));
    assert!(matches!(
        tx.send_sync(&mut shared, Call::Start(4), BLOCKS, &mut wakes),
        Progress::Done(Err(SendError(4)))
    ));
    assert!(matches!(
        tx.send_async(&mut shared, Call::Start(5), 500, &mut wakes),
        Progress::Done(Err(SendError(5)))
    ));
    assert!(wakes.is_empty());
}

#[test]
fn a_receiver_that_goes_wakes_all_who_wait() {
    let (mut shared, _tx, rx) = channel::<u32>();
    let mut wakes = vec![];
    paused(rx.recv_block(&mut shared, RecvPhase::Lock, BLOCKS, &mut wakes));
    rx.drop(&mut shared, &mut wakes);
    assert_eq!(wakes, vec![Wake::Thread(4)]);
}

#[test]
fn receiving_times_out() {
    let (mut shared, _tx, rx) = channel::<u32>();
    let mut wakes = vec![];
    let (phase, pause) = paused(rx.recv_block_timeout_at(
        &mut shared,
        RecvPhase::Lock,
        BLOCKS,
        at(0),
        at(0),
        at(100),
        &mut wakes,
    ));
    assert_eq!(
        (phase, pause),
        (RecvPhase::Wait(BlockTimeoutPhase::Tick), Pause::Yield)
    );
    let (phase, pause) = paused(rx.recv_block_timeout_at(
        &mut shared,
        phase,
        BLOCKS,
        at(10),
        at(10),
        at(100),
        &mut wakes,
    ));
    assert_eq!(pause, Pause::ParkTimeout(90));
    let (phase, _) = paused(rx.recv_block_timeout_at(
        &mut shared,
        phase,
        BLOCKS,
        at(100),
        at(100),
        at(100),
        &mut wakes,
    ));
    assert_eq!(
        done(rx.recv_block_timeout_at(
            &mut shared,
            phase,
            BLOCKS,
            at(100),
            at(100),
            at(100),
            &mut wakes
        )),
        Err(RecvTimeoutError::Timeout)
    );
    let (phase, pause) = paused(rx.recv_spin_timeout_at(
        &mut shared,
        RecvPhase::Lock,
        70,
        false,
        SPINS,
        at(0),
        at(100),
        &mut wakes,
    ));
    assert_eq!(
        (phase, pause),
        (
            RecvPhase::Wait(SpinTimeoutPhase::Spinning(70)),
            Pause::Yield
        )
    );
    assert_eq!(
        done(rx.recv_spin_timeout_at(
            &mut shared,
            phase,
            70,
            false,
            SPINS,
            at(100),
            at(100),
            &mut wakes
        )),
        Err(RecvTimeoutError::Timeout)
    );
}

#[test]
fn a_wait_that_times_out_does_not_look_at_the_queue() {
    let (mut shared, tx, rx) = channel::<u32>();
    let mut wakes = vec![];
    let (phase, _) = paused(rx.recv_spin_timeout_at(
        &mut shared,
        RecvPhase::Lock,
        70,
        false,
        SPINS,
        at(0),
        at(100),
        &mut wakes,
    ));
    let (held, _) = paused(tx.send_spin(&mut shared, Call::Start(1), &mut wakes));
    let (phase, _) = paused(rx.recv_spin_timeout_at(
        &mut shared,
        phase,
        71,
        false,
        SPINS,
        at(100),
        at(100),
        &mut wakes,
    ));
    assert_eq!(phase, RecvPhase::Wait(SpinTimeoutPhase::Relock(true)));
    assert!(matches!(
        tx.send_spin(&mut shared, Call::Resume(held), &mut wakes),
        Progress::Done(Ok(()))
    ));
    assert_eq!(
        done(rx.recv_spin_timeout_at(
            &mut shared,
            phase,
            71,
            false,
            SPINS,
            at(101),
            at(100),
            &mut wakes
        )),
        Err(RecvTimeoutError::Timeout)
    );
    assert_eq!(rx.try_recv(&mut shared, &mut wakes), Ok(1));
}

#[test]
fn a_queue_that_is_missed_until_the_deadline_is_a_timeout() {
    let (mut shared, tx, rx) = channel::<u32>();
    let mut wakes = vec![];
    let mut ids = WaiterIds::new();
    let (_held, _) = paused(tx.send_spin(&mut shared, Call::Start(1), &mut wakes));
    assert_eq!(
        done(rx.recv_spin_timeout_at(
            &mut shared,
            RecvPhase::Lock,
            70,
            false,
            SPINS,
            at(5),
            at(5),
            &mut wakes
        )),
        Err(RecvTimeoutError::Timeout)
    );
    let (p, pause) = paused(rx.recv_block_timeout_at(
        &mut shared,
        RecvPhase::Lock,
        BLOCKS,
        at(1),
        at(2),
        at(5),
        &mut wakes,
    ));
    assert_eq!((p, pause), (RecvPhase::Lock, Pause::ParkTimeout(3)));
    assert_eq!(
        done(rx.recv_sync_timeout_at(
            &mut shared,
            RecvPhase::Lock,
            70,
            false,
            BLOCKS,
            at(5),
            at(5),
            at(5),
            &mut wakes
        )),
        Err(RecvTimeoutError::Timeout)
    );
    let (p, pause) = paused(rx.recv_async_timeout_at(
        &mut shared,
        RecvPhase::Lock,
        &mut ids,
        false,
        500,
        at(1),
        at(5),
        &mut wakes,
    ));
    assert_eq!((p, pause), (RecvPhase::Lock, Pause::Race(500)));
    assert_eq!(
        done(rx.recv_async_timeout_at(
            &mut shared,
            p,
            &mut ids,
            true,
            501,
            at(6),
            at(5),
            &mut wakes
        )),
        Err(RecvTimeoutError::Timeout)
    );
}

#[test]
fn an_async_receiver_times_out() {
    let (mut shared, tx, rx) = channel::<u32>();
    let mut wakes = vec![];
    let mut ids = WaiterIds::new();
    let (phase, pause) = paused(rx.recv_async_timeout_at(
        &mut shared,
        RecvPhase::Lock,
        &mut ids,
        false,
        500,
        at(1),
        at(5),
        &mut wakes,
    ));
    assert_eq!(phase, RecvPhase::Wait(AsyncTimeoutPhase::Racing(0)));
    assert_eq!(pause, Pause::Race(500));
    assert_eq!(
        done(rx.recv_async_timeout_at(
            &mut shared,
            phase,
            &mut ids,
            true,
            501,
            at(6),
            at(5),
            &mut wakes
        )),
        Err(RecvTimeoutError::Timeout)
    );
    assert_eq!(wakes, vec![Wake::Continuation(500)]);
    assert!(send(&tx, &mut shared, 3, &mut wakes));
    assert_eq!(wakes, vec![Wake::Continuation(500)]);
    let past = web_time::Instant::now();
    assert_eq!(
        done(rx.recv_async_timeout(
            &mut shared,
            RecvPhase::Lock,
            &mut ids,
            false,
            502,
            past,
            &mut wakes
        )),
        Ok(3)
    );
}

#[test]
fn receiving_is_held_against_the_clock() {
    let (mut shared, tx, rx) = channel::<u32>();
    let mut wakes = vec![];
    let past = web_time::Instant::now();
    let (phase, _) = paused(rx.recv_spin_timeout(
        &mut shared,
        RecvPhase::Lock,
        70,
        false,
        SPINS,
        past,
        &mut wakes,
    ));
    assert_eq!(
        done(rx.recv_spin_timeout(&mut shared, phase, 70, false, SPINS, past, &mut wakes)),
        Err(RecvTimeoutError::Timeout)
    );
    let (phase, _) = paused(rx.recv_block_timeout(
        &mut shared,
        RecvPhase::Lock,
        BLOCKS,
        past,
        &mut wakes,
    ));
    assert_eq!(
        done(rx.recv_block_timeout(&mut shared, phase, BLOCKS, past, &mut wakes)),
        Err(RecvTimeoutError::Timeout)
    );
    assert!(send(&tx, &mut shared, 3, &mut wakes));
    assert_eq!(
        done(rx.recv_sync_timeout(
            &mut shared,
            RecvPhase::Lock,
            70,
            false,
            SPINS,
            past,
            &mut wakes
        )),
        Ok(3)
    );
}

#[test]
fn iterating_ends_when_the_senders_have_gone() {
    let (mut shared, tx, rx) = channel::<u32>();
    let mut wakes = vec![];
    assert!(send(&tx, &mut shared, 1, &mut wakes));
    assert!(send(&tx, &mut shared, 2, &mut wakes));
    let values = rx.into_iter();
    assert_eq!(
        done(values.next(&mut shared, RecvPhase::Lock, 70, false, BLOCKS, &mut wakes)),
        Some(1)
    );
    assert_eq!(
        done(values.next(&mut shared, RecvPhase::Lock, 70, false, BLOCKS, &mut wakes)),
        Some(2)
    );
    let (phase, pause) = paused(values.next(
        &mut shared,
        RecvPhase::Lock,
        70,
        false,
        BLOCKS,
        &mut wakes,
    ));
    assert_eq!(
        (phase, pause),
        (
            RecvPhase::Wait(SyncPhase::Block(BlockPhase::Relock)),
            Pause::Park
        )
    );
    tx.drop(&mut shared, &mut wakes);
    assert_eq!(
        done(values.next(&mut shared, phase, 70, false, BLOCKS, &mut wakes)),
        None
    );
}

#[test]
fn errors_in_words() {
    assert_eq!(
        TryRecvError::Empty.message(),
        "receiving on an empty channel"
    );
    assert_eq!(
        TryRecvError::Disconnected.message(),
        "receiving on a closed channel"
    );
    assert_eq!(
        RecvTimeoutError::Timeout.message(),
        "timed out waiting on channel"
    );
    assert_eq!(
        RecvTimeoutError::Disconnected.message(),
        "channel is empty and disconnected"
    );
    assert_eq!(
        RecvError::Disconnected.message(),
        "receiving on a closed channel"
    );
    assert_eq!(SendError(1u32).message(), "sending on a closed channel");
}

#[test]
fn disconnection_is_final() {
    let (mut shared, tx, rx) = channel::<u32>();
    let mut wakes = vec![];
    assert!(send(&tx, &mut shared, 1, &mut wakes));
    tx.drop(&mut shared, &mut wakes);
    assert_eq!(recv(&rx, &mut shared, &mut wakes), Ok(1));
    for _ in 0..3 {
        assert_eq!(recv(&rx, &mut shared, &mut wakes), Err(RecvError::Disconnected));
        assert_eq!(
            rx.try_recv(&mut shared, &mut wakes),
            Err(TryRecvError::Disconnected)
        );
        let r = rx.recv_block_timeout_at(
            &mut shared,
            RecvPhase::Lock,
            BLOCKS,
            at(5),
            at(5),
            at(9),
            &mut wakes,
        );
        assert_eq!(done(r), Err(RecvTimeoutError::Disconnected));
    }
    assert!(wakes.is_empty());
}

#[test]
fn a_value_is_received_past_the_deadline() {
    let (mut shared, tx, rx) = channel::<u32>();
    let mut wakes = vec![];
    let past = web_time::Instant::now();
    assert!(send(&tx, &mut shared, 8, &mut wakes));
    let r = rx.recv_spin_timeout(
        &mut shared,
        RecvPhase::Lock,
        1,
        false,
        SPINS,
        past,
        &mut wakes,
    );
    assert_eq!(done(r), Ok(8));
}

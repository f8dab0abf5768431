//! What sending and receiving do to a channel.
use crate::condvar::{
    AsyncPhase, AsyncTimeoutPhase, AsyncWaiter, BlockPhase, BlockTimeoutPhase, SpinPhase,
    SpinTimeoutPhase, SyncPhase, SyncTimeoutPhase,
};
use crate::mpsc::{
    RecvError, RecvPhase, RecvTimeoutError, SendError, SendPhase, TryRecvError,
};
use crate::mutex;
use crate::mutex::MutexView;
use crate::step::{Call, Caller, Pause, Progress, Wake};
use crate::time;
use crate::time::Moment;
use crate::wait_spec;
use crate::wait_spec::{CondvarView, Decision};
use vstd::prelude::*;

verus! {

/// The state of a channel.
#[verifier::ext_equal]
pub struct ChannelView<T> {
    /// The values that have been sent and not received, behind their mutex.
    pub queue: MutexView<Seq<T>>,
    /// Those who wait for a value.
    pub condvar: CondvarView,
    /// How many senders there are.
    pub senders: usize,
    /// Whether the receiver is there.
    pub active: bool,
}

/// A channel, and the wake-ups that have been asked for.
#[verifier::ext_equal]
pub struct ChannelScene<T> {
    pub channel: ChannelView<T>,
    pub wakes: Seq<Wake>,
}

impl<T> ChannelView<T> {
    /// What tells the channel from others. It stays.
    pub open spec fn id(self) -> int {
        self.queue.id
    }

    /// A new channel: nothing sent, one sender, a receiver.
    pub open spec fn fresh(id: int) -> Self {
        ChannelView {
            queue: MutexView::holding(id, Seq::empty()),
            condvar: CondvarView::idle(),
            senders: 1,
            active: true,
        }
    }
}

impl<T> ChannelScene<T> {
    /// The queue's mutex has changed.
    pub open spec fn with_queue(self, queue: MutexView<Seq<T>>) -> Self {
        ChannelScene { channel: ChannelView { queue, ..self.channel }, ..self }
    }

    /// Those who wait have changed.
    pub open spec fn with_condvar(self, condvar: CondvarView) -> Self {
        ChannelScene { channel: ChannelView { condvar, ..self.channel }, ..self }
    }

    /// Wake-ups have been asked for.
    pub open spec fn with_wakes(self, wakes: Seq<Wake>) -> Self {
        ChannelScene { wakes: self.wakes + wakes, ..self }
    }

    /// The queue has been taken.
    pub open spec fn taken(self) -> Self {
        self.with_queue(self.channel.queue.taken())
    }

    /// The queue has been given back with `items`, and those who wait for its mutex are woken.
    pub open spec fn given_back(self, items: Seq<T>) -> Self {
        self.with_queue(self.channel.queue.released(items).drained()).with_wakes(
            self.channel.queue.waiters(),
        )
    }

    /// A thread has missed the queue.
    pub open spec fn missed(self, caller: Caller) -> Self {
        self.with_queue(self.channel.queue.contended(caller))
    }

    /// A thread has missed the queue and waits in the list of its mutex.
    pub open spec fn queued(self, thread: u64) -> Self {
        self.with_queue(self.channel.queue.queued(thread))
    }

    /// An async task has missed the queue.
    pub open spec fn queued_async(self, continuation: u64) -> Self {
        self.with_queue(self.channel.queue.queued_async(continuation))
    }

    /// One of those who wait has been notified.
    pub open spec fn notified_one(self) -> Self {
        self.with_condvar(self.channel.condvar.after_one()).with_wakes(
            self.channel.condvar.next_woken(),
        )
    }

    /// All who wait have been notified.
    pub open spec fn notified_all(self) -> Self {
        self.with_condvar(CondvarView::idle()).with_wakes(self.channel.condvar.waiters())
    }
}

/// One attempt of a sender to get the queue. It has the queue in hand then, or goes on as `missed`
/// and `pause` say.
pub open spec fn send_attempt<T>(
    before: ChannelScene<T>,
    after: ChannelScene<T>,
    value: T,
    missed: ChannelScene<T>,
    pause: Pause,
    r: Progress<SendPhase<T>, Result<(), SendError<T>>>,
) -> bool {
    match before.channel.queue.inner {
        Some(items) => after == before.taken() && (r matches Progress::Pause(
            SendPhase::Append(kept, guard),
            Pause::Yield,
        ) && kept == value && guard@@ == items && guard.id() == before.channel.id()),
        None => after == missed && r == Progress::<
            SendPhase<T>,
            Result<(), SendError<T>>,
        >::Pause(SendPhase::Lock(value), pause),
    }
}

/// What a sender with the queue in hand makes of the channel: it appends the value, gives the queue
/// back and notifies one of those who wait; without a receiver it only gives the queue back.
pub open spec fn appended<T>(before: ChannelScene<T>, items: Seq<T>, value: T) -> ChannelScene<T> {
    if before.channel.active {
        before.given_back(items.push(value)).notified_one()
    } else {
        before.given_back(items)
    }
}

/// A step of sending. A channel without a receiver gives the value back, at once or when the queue
/// is in hand.
pub open spec fn send_step<T>(
    before: ChannelScene<T>,
    after: ChannelScene<T>,
    call: Call<T, SendPhase<T>>,
    missed: ChannelScene<T>,
    pause: Pause,
    r: Progress<SendPhase<T>, Result<(), SendError<T>>>,
) -> bool {
    match call {
        Call::Start(value) => if before.channel.active {
            send_attempt(before, after, value, missed, pause, r)
        } else {
            after == before && r == Progress::<SendPhase<T>, Result<(), SendError<T>>>::Done(
                Err(SendError(value)),
            )
        },
        Call::Resume(SendPhase::Lock(value)) => send_attempt(
            before,
            after,
            value,
            missed,
            pause,
            r,
        ),
        Call::Resume(SendPhase::Append(value, guard)) => {
            &&& after == appended(before, guard@@, value)
            &&& r == Progress::<SendPhase<T>, Result<(), SendError<T>>>::Done(
                if before.channel.active {
                    Ok(())
                } else {
                    Err(SendError(value))
                },
            )
        },
    }
}

/// A receiver that finds the queue locked reports it as empty; an empty queue is reported as
/// disconnected once there are no senders.
pub open spec fn try_recv_step<T>(before: ChannelScene<T>) -> (
    ChannelScene<T>,
    Result<T, TryRecvError>,
) {
    match before.channel.queue.inner {
        None => (before, Err(TryRecvError::Empty)),
        Some(items) => if items.len() > 0 {
            (before.taken().given_back(items.drop_first()), Ok(items[0]))
        } else if before.channel.senders == 0 {
            (before.taken().given_back(items), Err(TryRecvError::Disconnected))
        } else {
            (before.taken().given_back(items), Err(TryRecvError::Empty))
        },
    }
}

/// How a receiver starts to wait.
pub struct Waiting<P> {
    /// Those who wait, with the receiver among them.
    pub condvar: CondvarView,
    pub phase: P,
    pub pause: Pause,
}

/// A receiver has the queue in hand. It takes the earliest value; an empty queue without senders is
/// closed; else the receiver starts to wait.
pub open spec fn serve<T, P, E>(
    in_hand: ChannelScene<T>,
    items: Seq<T>,
    closed: E,
    waiting: Waiting<P>,
) -> (ChannelScene<T>, Progress<RecvPhase<P>, Result<T, E>>) {
    if items.len() > 0 {
        (in_hand.given_back(items.drop_first()), Progress::Done(Ok(items[0])))
    } else if in_hand.channel.senders == 0 {
        (in_hand.given_back(items), Progress::Done(Err(closed)))
    } else {
        (
            in_hand.given_back(items).with_condvar(waiting.condvar),
            Progress::Pause(RecvPhase::Wait(waiting.phase), waiting.pause),
        )
    }
}

/// One attempt of a receiver to get the queue. A receiver that misses it goes on as `otherwise`
/// says.
pub open spec fn attempt<T, P, E>(
    before: ChannelScene<T>,
    otherwise: (ChannelScene<T>, Progress<RecvPhase<P>, Result<T, E>>),
    closed: E,
    waiting: Waiting<P>,
) -> (ChannelScene<T>, Progress<RecvPhase<P>, Result<T, E>>) {
    match before.channel.queue.inner {
        Some(items) => serve(before.taken(), items, closed, waiting),
        None => otherwise,
    }
}

/// A receiver's wait has timed out and it has the queue again, or misses it.
pub open spec fn timed_out<T, P>(
    before: ChannelScene<T>,
    otherwise: (ChannelScene<T>, Progress<RecvPhase<P>, Result<T, RecvTimeoutError>>),
) -> (ChannelScene<T>, Progress<RecvPhase<P>, Result<T, RecvTimeoutError>>) {
    match before.channel.queue.inner {
        Some(items) => (
            before.taken().given_back(items),
            Progress::Done(Err(RecvTimeoutError::Timeout)),
        ),
        None => otherwise,
    }
}

/// How a blocking receiver waits.
pub open spec fn block_waiting<T>(scene: ChannelScene<T>, caller: Caller) -> Waiting<BlockPhase> {
    Waiting {
        condvar: scene.channel.condvar.with_sync(caller.thread),
        phase: BlockPhase::Relock,
        pause: Pause::Park,
    }
}

/// How a spinning receiver waits.
pub open spec fn spin_waiting<T>(scene: ChannelScene<T>, flag: u64) -> Waiting<SpinPhase> {
    Waiting {
        condvar: scene.channel.condvar.with_spin(flag),
        phase: SpinPhase::Spinning(flag),
        pause: Pause::Yield,
    }
}

/// How a receiver waits in the way that the thread may wait.
pub open spec fn sync_waiting<T>(scene: ChannelScene<T>, flag: u64, caller: Caller) -> Waiting<
    SyncPhase,
> {
    Waiting {
        condvar: scene.channel.condvar.with_caller(caller, flag),
        phase: wait_spec::first_sync_phase(caller, flag),
        pause: wait_spec::first_sync_pause(caller),
    }
}

/// How an async receiver waits.
pub open spec fn async_waiting<T>(
    scene: ChannelScene<T>,
    id: u64,
    continuation: u64,
) -> Waiting<AsyncPhase> {
    Waiting {
        condvar: scene.channel.condvar.with_async(AsyncWaiter { id, sender: continuation }),
        phase: AsyncPhase::Relock,
        pause: Pause::Await(continuation),
    }
}

/// How a receiver that blocks until a deadline waits.
pub open spec fn block_timeout_waiting<T>(scene: ChannelScene<T>, caller: Caller) -> Waiting<
    BlockTimeoutPhase,
> {
    Waiting {
        condvar: scene.channel.condvar.with_sync(caller.thread),
        phase: BlockTimeoutPhase::Tick,
        pause: Pause::Yield,
    }
}

/// How a receiver that spins until a deadline waits.
pub open spec fn spin_timeout_waiting<T>(scene: ChannelScene<T>, flag: u64) -> Waiting<
    SpinTimeoutPhase,
> {
    Waiting {
        condvar: scene.channel.condvar.with_spin(flag),
        phase: SpinTimeoutPhase::Spinning(flag),
        pause: Pause::Yield,
    }
}

/// How a receiver waits until a deadline in the way that the thread may wait.
pub open spec fn sync_timeout_waiting<T>(
    scene: ChannelScene<T>,
    flag: u64,
    caller: Caller,
) -> Waiting<SyncTimeoutPhase> {
    Waiting {
        condvar: scene.channel.condvar.with_caller(caller, flag),
        phase: wait_spec::first_sync_timeout_phase(caller, flag),
        pause: Pause::Yield,
    }
}

/// How an async receiver waits until a deadline.
pub open spec fn async_timeout_waiting<T>(
    scene: ChannelScene<T>,
    id: u64,
    continuation: u64,
) -> Waiting<AsyncTimeoutPhase> {
    Waiting {
        condvar: scene.channel.condvar.with_async(AsyncWaiter { id, sender: continuation }),
        phase: AsyncTimeoutPhase::Racing(id),
        pause: Pause::Race(continuation),
    }
}

/// A step of `recv_spin`.
pub open spec fn recv_spin_step<T>(
    before: ChannelScene<T>,
    phase: RecvPhase<SpinPhase>,
    flag: u64,
    raised: bool,
    caller: Caller,
) -> (ChannelScene<T>, Progress<RecvPhase<SpinPhase>, Result<T, RecvError>>) {
    let waiting = spin_waiting(before, flag);
    match phase {
        RecvPhase::Lock => attempt(
            before,
            (before, Progress::Pause(RecvPhase::Lock, Pause::SpinLoop)),
            RecvError::Disconnected,
            waiting,
        ),
        RecvPhase::Wait(wait) => match wait_spec::spin_decision(wait, raised) {
            Decision::Keep(next, pause) => (
                before,
                Progress::Pause(RecvPhase::Wait(next), pause),
            ),
            Decision::Relock(_) => attempt(
                before,
                (
                    before.missed(caller),
                    Progress::Pause(
                        RecvPhase::Wait(SpinPhase::Relock),
                        mutex::sync_pause(caller),
                    ),
                ),
                RecvError::Disconnected,
                waiting,
            ),
        },
    }
}

/// A step of `recv_block`.
pub open spec fn recv_block_step<T>(
    before: ChannelScene<T>,
    phase: RecvPhase<BlockPhase>,
    caller: Caller,
) -> (ChannelScene<T>, Progress<RecvPhase<BlockPhase>, Result<T, RecvError>>) {
    let waiting = block_waiting(before, caller);
    match phase {
        RecvPhase::Lock => attempt(
            before,
            (before.queued(caller.thread), Progress::Pause(RecvPhase::Lock, Pause::Park)),
            RecvError::Disconnected,
            waiting,
        ),
        RecvPhase::Wait(_) => attempt(
            before,
            (
                before.missed(caller),
                Progress::Pause(RecvPhase::Wait(BlockPhase::Relock), mutex::sync_pause(caller)),
            ),
            RecvError::Disconnected,
            waiting,
        ),
    }
}

/// A step of `recv_sync`.
pub open spec fn recv_sync_step<T>(
    before: ChannelScene<T>,
    phase: RecvPhase<SyncPhase>,
    flag: u64,
    raised: bool,
    caller: Caller,
) -> (ChannelScene<T>, Progress<RecvPhase<SyncPhase>, Result<T, RecvError>>) {
    let waiting = sync_waiting(before, flag, caller);
    match phase {
        RecvPhase::Lock => attempt(
            before,
            (before.missed(caller), Progress::Pause(RecvPhase::Lock, mutex::sync_pause(caller))),
            RecvError::Disconnected,
            waiting,
        ),
        RecvPhase::Wait(wait) => match wait_spec::sync_decision(wait, raised) {
            Decision::Keep(next, pause) => (
                before,
                Progress::Pause(RecvPhase::Wait(next), pause),
            ),
            Decision::Relock(_) => attempt(
                before,
                (
                    before.missed(caller),
                    Progress::Pause(
                        RecvPhase::Wait(wait_spec::sync_relock(wait)),
                        mutex::sync_pause(caller),
                    ),
                ),
                RecvError::Disconnected,
                waiting,
            ),
        },
    }
}

/// A step of `recv_async`.
pub open spec fn recv_async_step<T>(
    before: ChannelScene<T>,
    phase: RecvPhase<AsyncPhase>,
    id: u64,
    continuation: u64,
) -> (ChannelScene<T>, Progress<RecvPhase<AsyncPhase>, Result<T, RecvError>>) {
    attempt(
        before,
        (before.queued_async(continuation), Progress::Pause(phase, Pause::Await(continuation))),
        RecvError::Disconnected,
        async_waiting(before, id, continuation),
    )
}

/// A step of `recv_spin_timeout` when the clock shows `now`.
pub open spec fn recv_spin_timeout_step<T>(
    before: ChannelScene<T>,
    phase: RecvPhase<SpinTimeoutPhase>,
    flag: u64,
    raised: bool,
    caller: Caller,
    now: Moment,
    deadline: Moment,
) -> (ChannelScene<T>, Progress<RecvPhase<SpinTimeoutPhase>, Result<T, RecvTimeoutError>>) {
    match phase {
        RecvPhase::Lock => attempt(
            before,
            (
                before,
                if now.spec_reached(deadline) {
                    Progress::Done(Err(RecvTimeoutError::Timeout))
                } else {
                    Progress::Pause(RecvPhase::Lock, Pause::SpinLoop)
                },
            ),
            RecvTimeoutError::Disconnected,
            spin_timeout_waiting(before, flag),
        ),
        RecvPhase::Wait(wait) => {
            let listed = before.with_condvar(
                wait_spec::spin_timeout_condvar(
                    before.channel.condvar,
                    wait,
                    raised,
                    now,
                    deadline,
                ),
            );
            match wait_spec::spin_timeout_decision(
                before.channel.condvar,
                wait,
                raised,
                now,
                deadline,
            ) {
                Decision::Keep(next, pause) => (
                    listed,
                    Progress::Pause(RecvPhase::Wait(next), pause),
                ),
                Decision::Relock(given_up) => after_wait(
                    listed,
                    (
                        listed.missed(caller),
                        Progress::Pause(
                            RecvPhase::Wait(SpinTimeoutPhase::Relock(given_up)),
                            mutex::sync_pause(caller),
                        ),
                    ),
                    given_up,
                    spin_timeout_waiting(listed, flag),
                ),
            }
        },
    }
}

/// A receiver's wait until a deadline is over, and it takes the queue again: it gives up if the
/// wait has timed out.
pub open spec fn after_wait<T, P>(
    before: ChannelScene<T>,
    otherwise: (ChannelScene<T>, Progress<RecvPhase<P>, Result<T, RecvTimeoutError>>),
    given_up: bool,
    waiting: Waiting<P>,
) -> (ChannelScene<T>, Progress<RecvPhase<P>, Result<T, RecvTimeoutError>>) {
    if given_up {
        timed_out(before, otherwise)
    } else {
        attempt(before, otherwise, RecvTimeoutError::Disconnected, waiting)
    }
}

/// What a receiver that blocks until a deadline does when it misses the queue.
pub open spec fn block_timeout_missed<T, P>(
    before: ChannelScene<T>,
    thread: u64,
    now: Moment,
    later: Moment,
    deadline: Moment,
) -> (ChannelScene<T>, Progress<RecvPhase<P>, Result<T, RecvTimeoutError>>) {
    if now.spec_reached(deadline) {
        (before, Progress::Done(Err(RecvTimeoutError::Timeout)))
    } else {
        (
            before.queued(thread),
            Progress::Pause(RecvPhase::Lock, Pause::ParkTimeout(later.spec_until(deadline))),
        )
    }
}

/// A step of `recv_block_timeout` when the clock shows `now`, and `later` once the queue has been
/// missed.
pub open spec fn recv_block_timeout_step<T>(
    before: ChannelScene<T>,
    phase: RecvPhase<BlockTimeoutPhase>,
    caller: Caller,
    now: Moment,
    later: Moment,
    deadline: Moment,
) -> (ChannelScene<T>, Progress<RecvPhase<BlockTimeoutPhase>, Result<T, RecvTimeoutError>>) {
    match phase {
        RecvPhase::Lock => attempt(
            before,
            block_timeout_missed(before, caller.thread, now, later, deadline),
            RecvTimeoutError::Disconnected,
            block_timeout_waiting(before, caller),
        ),
        RecvPhase::Wait(wait) => {
            let listed = before.with_condvar(
                wait_spec::block_timeout_condvar(
                    before.channel.condvar,
                    wait,
                    caller.thread,
                    now,
                    deadline,
                ),
            );
            match wait_spec::block_timeout_decision(
                before.channel.condvar,
                wait,
                caller.thread,
                now,
                deadline,
            ) {
                Decision::Keep(next, pause) => (
                    listed,
                    Progress::Pause(RecvPhase::Wait(next), pause),
                ),
                Decision::Relock(given_up) => after_wait(
                    listed,
                    (
                        listed.missed(caller),
                        Progress::Pause(
                            RecvPhase::Wait(BlockTimeoutPhase::Relock(given_up)),
                            mutex::sync_pause(caller),
                        ),
                    ),
                    given_up,
                    block_timeout_waiting(listed, caller),
                ),
            }
        },
    }
}

/// A step of `recv_sync_timeout` when the clock shows `now`, and `later` once the queue has been
/// missed.
pub open spec fn recv_sync_timeout_step<T>(
    before: ChannelScene<T>,
    phase: RecvPhase<SyncTimeoutPhase>,
    flag: u64,
    raised: bool,
    caller: Caller,
    now: Moment,
    later: Moment,
    deadline: Moment,
) -> (ChannelScene<T>, Progress<RecvPhase<SyncTimeoutPhase>, Result<T, RecvTimeoutError>>) {
    match phase {
        RecvPhase::Lock => attempt(
            before,
            if caller.can_block {
                block_timeout_missed(before, caller.thread, now, later, deadline)
            } else {
                (
                    before,
                    if now.spec_reached(deadline) {
                        Progress::Done(Err(RecvTimeoutError::Timeout))
                    } else {
                        Progress::Pause(RecvPhase::Lock, Pause::SpinLoop)
                    },
                )
            },
            RecvTimeoutError::Disconnected,
            sync_timeout_waiting(before, flag, caller),
        ),
        RecvPhase::Wait(wait) => {
            let listed = before.with_condvar(
                wait_spec::sync_timeout_condvar(
                    before.channel.condvar,
                    wait,
                    raised,
                    caller.thread,
                    now,
                    deadline,
                ),
            );
            match wait_spec::sync_timeout_decision(
                before.channel.condvar,
                wait,
                raised,
                caller.thread,
                now,
                deadline,
            ) {
                Decision::Keep(next, pause) => (
                    listed,
                    Progress::Pause(RecvPhase::Wait(next), pause),
                ),
                Decision::Relock(given_up) => after_wait(
                    listed,
                    (
                        listed.missed(caller),
                        Progress::Pause(
                            RecvPhase::Wait(wait_spec::sync_timeout_relock(wait, given_up)),
                            mutex::sync_pause(caller),
                        ),
                    ),
                    given_up,
                    sync_timeout_waiting(listed, flag, caller),
                ),
            }
        },
    }
}

/// A step of `recv_async_timeout` when the clock shows `now`.
pub open spec fn recv_async_timeout_step<T>(
    before: ChannelScene<T>,
    phase: RecvPhase<AsyncTimeoutPhase>,
    id: u64,
    race_lost: bool,
    continuation: u64,
    now: Moment,
    deadline: Moment,
) -> (ChannelScene<T>, Progress<RecvPhase<AsyncTimeoutPhase>, Result<T, RecvTimeoutError>>) {
    match phase {
        RecvPhase::Lock => if race_lost {
            (before, Progress::Done(Err(RecvTimeoutError::Timeout)))
        } else {
            attempt(
                before,
                if now.spec_reached(deadline) {
                    (before, Progress::Done(Err(RecvTimeoutError::Timeout)))
                } else {
                    (
                        before.queued_async(continuation),
                        Progress::Pause(RecvPhase::Lock, Pause::Race(continuation)),
                    )
                },
                RecvTimeoutError::Disconnected,
                async_timeout_waiting(before, id, continuation),
            )
        },
        RecvPhase::Wait(wait) => {
            let listed = before.with_condvar(
                wait_spec::async_timeout_condvar(before.channel.condvar, wait, race_lost),
            ).with_wakes(
                wait_spec::async_timeout_wakes(before.channel.condvar, wait, race_lost),
            );
            let given_up = wait_spec::async_timed_out(wait, race_lost);
            after_wait(
                listed,
                (
                    listed.queued_async(continuation),
                    Progress::Pause(
                        RecvPhase::Wait(AsyncTimeoutPhase::Relock(given_up)),
                        Pause::Await(continuation),
                    ),
                ),
                given_up,
                async_timeout_waiting(listed, id, continuation),
            )
        },
    }
}

/// Whether a step of `recv_spin_timeout` reads the clock.
pub open spec fn recv_spin_timeout_reads<T>(
    before: ChannelScene<T>,
    phase: RecvPhase<SpinTimeoutPhase>,
    raised: bool,
) -> bool {
    match phase {
        RecvPhase::Lock => mutex::spin_timeout_reads(before.channel.queue),
        RecvPhase::Wait(wait) => wait_spec::spin_timeout_reads(wait, raised),
    }
}

/// Whether a step of `recv_block_timeout` reads the clock.
pub open spec fn recv_block_timeout_reads(phase: RecvPhase<BlockTimeoutPhase>) -> bool {
    match phase {
        RecvPhase::Lock => true,
        RecvPhase::Wait(wait) => wait_spec::block_timeout_reads(wait),
    }
}

/// Whether a step of `recv_block_timeout` reads the clock a second time.
pub open spec fn recv_block_timeout_reads_again<T>(
    before: ChannelScene<T>,
    phase: RecvPhase<BlockTimeoutPhase>,
    now: Moment,
    deadline: Moment,
) -> bool {
    phase is Lock && mutex::block_timeout_reads_again(before.channel.queue, now, deadline)
}

/// Whether a step of `recv_sync_timeout` reads the clock.
pub open spec fn recv_sync_timeout_reads<T>(
    before: ChannelScene<T>,
    phase: RecvPhase<SyncTimeoutPhase>,
    raised: bool,
    caller: Caller,
) -> bool {
    match phase {
        RecvPhase::Lock => caller.can_block || mutex::spin_timeout_reads(before.channel.queue),
        RecvPhase::Wait(wait) => wait_spec::sync_timeout_reads(wait, raised),
    }
}

/// Whether a step of `recv_sync_timeout` reads the clock a second time.
pub open spec fn recv_sync_timeout_reads_again<T>(
    before: ChannelScene<T>,
    phase: RecvPhase<SyncTimeoutPhase>,
    caller: Caller,
    now: Moment,
    deadline: Moment,
) -> bool {
    phase is Lock && caller.can_block && mutex::block_timeout_reads_again(
        before.channel.queue,
        now,
        deadline,
    )
}

/// Whether a step of `recv_async_timeout` reads the clock: while it takes the queue, unless its
/// race is lost.
pub open spec fn recv_async_timeout_reads(
    phase: RecvPhase<AsyncTimeoutPhase>,
    race_lost: bool,
) -> bool {
    phase is Lock && !race_lost
}

/// A step of `recv_spin_timeout`: the clock is read if the step needs it, and the time does not
/// count if not.
pub open spec fn recv_spin_timed<T>(
    before: ChannelScene<T>,
    after: ChannelScene<T>,
    phase: RecvPhase<SpinTimeoutPhase>,
    flag: u64,
    raised: bool,
    caller: Caller,
    deadline: web_time::Instant,
    r: Progress<RecvPhase<SpinTimeoutPhase>, Result<T, RecvTimeoutError>>,
) -> bool {
    if recv_spin_timeout_reads(before, phase, raised) {
        exists|reading: web_time::Instant|
            time::read_from_clock(reading) && (after, r) == recv_spin_timeout_step(
                before,
                phase,
                flag,
                raised,
                caller,
                time::present(),
                #[trigger] time::seen_at(reading, deadline),
            )
    } else {
        (after, r) == recv_spin_timeout_step(
                before,
                phase,
                flag,
                raised,
                caller,
                time::present(),
                time::present(),
            )
    }
}

/// A step of `recv_block_timeout`: the clock is read if the step needs it, and once more to park.
pub open spec fn recv_block_timed<T>(
    before: ChannelScene<T>,
    after: ChannelScene<T>,
    phase: RecvPhase<BlockTimeoutPhase>,
    caller: Caller,
    deadline: web_time::Instant,
    r: Progress<RecvPhase<BlockTimeoutPhase>, Result<T, RecvTimeoutError>>,
) -> bool {
    if recv_block_timeout_reads(phase) {
        exists|reading: web_time::Instant|
            {
                let due = #[trigger] time::seen_at(reading, deadline);
                time::read_from_clock(reading) && if recv_block_timeout_reads_again(
                    before,
                    phase,
                    time::present(),
                    due,
                ) {
                    exists|again: web_time::Instant|
                        time::read_from_clock(again) && (after, r) == recv_block_timeout_step(
                            before,
                            phase,
                            caller,
                            time::present(),
                            #[trigger] time::seen_at(reading, again),
                            due,
                        )
                } else {
                    (after, r) == recv_block_timeout_step(
                            before,
                            phase,
                            caller,
                            time::present(),
                            time::present(),
                            due,
                        )
                }
            }
    } else {
        (after, r) == recv_block_timeout_step(
            before,
            phase,
            caller,
            time::present(),
            time::present(),
            time::present(),
        )
    }
}

/// A step of `recv_sync_timeout`: the clock is read if the step needs it, and once more to park.
pub open spec fn recv_sync_timed<T>(
    before: ChannelScene<T>,
    after: ChannelScene<T>,
    phase: RecvPhase<SyncTimeoutPhase>,
    flag: u64,
    raised: bool,
    caller: Caller,
    deadline: web_time::Instant,
    r: Progress<RecvPhase<SyncTimeoutPhase>, Result<T, RecvTimeoutError>>,
) -> bool {
    if recv_sync_timeout_reads(before, phase, raised, caller) {
        exists|reading: web_time::Instant|
            {
                let due = #[trigger] time::seen_at(reading, deadline);
                time::read_from_clock(reading) && if recv_sync_timeout_reads_again(
                    before,
                    phase,
                    caller,
                    time::present(),
                    due,
                ) {
                    exists|again: web_time::Instant|
                        time::read_from_clock(again) && (after, r) == recv_sync_timeout_step(
                            before,
                            phase,
                            flag,
                            raised,
                            caller,
                            time::present(),
                            #[trigger] time::seen_at(reading, again),
                            due,
                        )
                } else {
                    (after, r) == recv_sync_timeout_step(
                            before,
                            phase,
                            flag,
                            raised,
                            caller,
                            time::present(),
                            time::present(),
                            due,
                        )
                }
            }
    } else {
        (after, r) == recv_sync_timeout_step(
                before,
                phase,
                flag,
                raised,
                caller,
                time::present(),
                time::present(),
                time::present(),
            )
    }
}

/// A step of `recv_async_timeout`: the clock is read if the step needs it, and the time does not
/// count if not.
pub open spec fn recv_async_timed<T>(
    before: ChannelScene<T>,
    after: ChannelScene<T>,
    phase: RecvPhase<AsyncTimeoutPhase>,
    id: u64,
    race_lost: bool,
    continuation: u64,
    deadline: web_time::Instant,
    r: Progress<RecvPhase<AsyncTimeoutPhase>, Result<T, RecvTimeoutError>>,
) -> bool {
    if recv_async_timeout_reads(phase, race_lost) {
        exists|reading: web_time::Instant|
            time::read_from_clock(reading) && (after, r) == recv_async_timeout_step(
                before,
                phase,
                id,
                race_lost,
                continuation,
                time::present(),
                #[trigger] time::seen_at(reading, deadline),
            )
    } else {
        (after, r) == recv_async_timeout_step(
                before,
                phase,
                id,
                race_lost,
                continuation,
                time::present(),
                time::present(),
            )
    }
}

/// A step towards the next value of a receiver's values.
pub open spec fn next_step<T>(
    before: ChannelScene<T>,
    phase: RecvPhase<SyncPhase>,
    flag: u64,
    raised: bool,
    caller: Caller,
) -> (ChannelScene<T>, Progress<RecvPhase<SyncPhase>, Option<T>>) {
    let (after, r) = recv_sync_step(before, phase, flag, raised, caller);
    (
        after,
        match r {
            Progress::Done(Ok(value)) => Progress::Done(Some(value)),
            Progress::Done(Err(_)) => Progress::Done(None),
            Progress::Pause(next, pause) => Progress::Pause(next, pause),
        },
    )
}

/// Whether a step of a receiver starts to wait.
pub open spec fn starts_waiting<T, P, E>(
    before: ChannelScene<T>,
    r: Progress<RecvPhase<P>, Result<T, E>>,
) -> bool {
    before.channel.queue.inner is Some && r is Pause
}

/// The number of senders with one more. It wraps around.
pub open spec fn one_more(senders: usize) -> usize {
    if senders == usize::MAX {
        0
    } else {
        (senders + 1) as usize
    }
}

/// The number of senders with one less. It wraps around.
pub open spec fn one_less(senders: usize) -> usize {
    if senders == 0 {
        usize::MAX
    } else {
        (senders - 1) as usize
    }
}

/// A sender has gone; with the last one all who wait are notified.
pub open spec fn sender_dropped<T>(before: ChannelScene<T>) -> ChannelScene<T> {
    let gone = ChannelScene {
        channel: ChannelView {
            senders: one_less(before.channel.senders),
            ..before.channel
        },
        ..before
    };
    if before.channel.senders == 1 {
        gone.notified_all()
    } else {
        gone
    }
}

/// The receiver has gone, and all who wait are notified.
pub open spec fn receiver_dropped<T>(before: ChannelScene<T>) -> ChannelScene<T> {
    ChannelScene {
        channel: ChannelView { active: false, ..before.channel },
        ..before
    }.notified_all()
}

} // verus!

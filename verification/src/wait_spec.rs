//! What a condition variable's waits and notifications do, in terms of the lists of waiters.
use crate::condvar::{
    AsyncPhase, AsyncTimeoutPhase, AsyncWaiter, BlockPhase, BlockTimeoutPhase, SpinPhase,
    SpinTimeoutPhase, SyncPhase, SyncTimeoutPhase, WaitTimeoutResult,
};
use crate::guard::Guard;
use crate::mutex::MutexView;
use crate::step::{Call, Caller, Pause, Progress, Wake};
use crate::time;
use crate::time::Moment;
use vstd::prelude::*;

verus! {

/// The completions of `waiters`, in order.
pub open spec fn waiter_wakes(waiters: Seq<AsyncWaiter>) -> Seq<Wake> {
    waiters.map_values(|waiter: AsyncWaiter| Wake::Continuation(waiter.sender))
}

/// The numbers of `waiters`, in order.
pub open spec fn waiter_ids(waiters: Seq<AsyncWaiter>) -> Seq<u64> {
    waiters.map_values(|waiter: AsyncWaiter| waiter.id)
}

/// Those who wait on a condition variable, each list in order of arrival.
#[verifier::ext_equal]
pub struct CondvarView {
    /// The flags on which spinning waiters look.
    pub spin: Seq<u64>,
    /// The threads that are parked.
    pub sync: Seq<u64>,
    /// The async tasks.
    pub asynch: Seq<AsyncWaiter>,
}

impl CondvarView {
    /// Nobody waits.
    pub open spec fn idle() -> Self {
        CondvarView { spin: Seq::empty(), sync: Seq::empty(), asynch: Seq::empty() }
    }

    /// A spinning waiter has joined.
    pub open spec fn with_spin(self, flag: u64) -> Self {
        CondvarView { spin: self.spin.push(flag), ..self }
    }

    /// A thread has joined.
    pub open spec fn with_sync(self, thread: u64) -> Self {
        CondvarView { sync: self.sync.push(thread), ..self }
    }

    /// An async task has joined.
    pub open spec fn with_async(self, waiter: AsyncWaiter) -> Self {
        CondvarView { asynch: self.asynch.push(waiter), ..self }
    }

    /// A thread waits in the way that it may: one that must not block spins.
    pub open spec fn with_caller(self, caller: Caller, flag: u64) -> Self {
        if caller.can_block {
            self.with_sync(caller.thread)
        } else {
            self.with_spin(flag)
        }
    }

    /// The earliest entry of a flag has been taken off.
    pub open spec fn without_spin(self, flag: u64) -> Self {
        CondvarView { spin: self.spin.remove_value(flag), ..self }
    }

    /// The earliest entry of a thread has been taken off.
    pub open spec fn without_sync(self, thread: u64) -> Self {
        CondvarView { sync: self.sync.remove_value(thread), ..self }
    }

    /// The earliest async task with this number.
    pub open spec fn async_position(self, id: u64) -> Option<int> {
        waiter_ids(self.asynch).index_of_first(id)
    }

    /// The earliest async task with this number has been taken off.
    pub open spec fn without_async(self, id: u64) -> Self {
        match self.async_position(id) {
            Some(position) => CondvarView { asynch: self.asynch.remove(position), ..self },
            None => self,
        }
    }

    /// The completion that the earliest async task with this number awaits, if there is one.
    pub open spec fn async_wakes(self, id: u64) -> Seq<Wake> {
        match self.async_position(id) {
            Some(position) => seq![Wake::Continuation(self.asynch[position].sender)],
            None => Seq::empty(),
        }
    }

    /// All who wait, in the order in which they are woken together.
    pub open spec fn waiters(self) -> Seq<Wake> {
        crate::step::flag_wakes(self.spin) + crate::step::thread_wakes(self.sync) + waiter_wakes(
            self.asynch,
        )
    }

    /// The waiter that one notification wakes: a spinning one before a parked one before an async
    /// one, and the latest of its list.
    pub open spec fn next_woken(self) -> Seq<Wake> {
        if self.spin.len() > 0 {
            seq![Wake::Flag(self.spin.last())]
        } else if self.sync.len() > 0 {
            seq![Wake::Thread(self.sync.last())]
        } else if self.asynch.len() > 0 {
            seq![Wake::Continuation(self.asynch.last().sender)]
        } else {
            Seq::empty()
        }
    }

    /// That waiter has been taken off.
    pub open spec fn after_one(self) -> Self {
        if self.spin.len() > 0 {
            CondvarView { spin: self.spin.drop_last(), ..self }
        } else if self.sync.len() > 0 {
            CondvarView { sync: self.sync.drop_last(), ..self }
        } else if self.asynch.len() > 0 {
            CondvarView { asynch: self.asynch.drop_last(), ..self }
        } else {
            self
        }
    }
}

/// What a waiter that goes on decides.
pub enum Decision<P> {
    /// To keep waiting in this phase, after the pause.
    Keep(P, Pause),
    /// To take the mutex again; whether the wait has timed out.
    Relock(bool),
}

/// A spinning waiter goes on once its flag is raised.
pub open spec fn spin_decision(phase: SpinPhase, raised: bool) -> Decision<SpinPhase> {
    match phase {
        SpinPhase::Spinning(flag) => if raised {
            Decision::Relock(false)
        } else {
            Decision::Keep(SpinPhase::Spinning(flag), Pause::SpinLoop)
        },
        SpinPhase::Relock => Decision::Relock(false),
    }
}

/// A parked waiter goes on once it is no longer listed. Before the deadline it parks for the rest;
/// at the deadline it goes on in any case, and has timed out if it is still listed.
pub open spec fn block_timeout_decision(
    condvar: CondvarView,
    phase: BlockTimeoutPhase,
    thread: u64,
    now: Moment,
    deadline: Moment,
) -> Decision<BlockTimeoutPhase> {
    match phase {
        BlockTimeoutPhase::Tick => if now.spec_reached(deadline) {
            Decision::Relock(condvar.sync.contains(thread))
        } else {
            Decision::Keep(
                BlockTimeoutPhase::Parked,
                Pause::ParkTimeout(now.spec_until(deadline)),
            )
        },
        BlockTimeoutPhase::Parked => if condvar.sync.contains(thread) {
            Decision::Keep(BlockTimeoutPhase::Tick, Pause::Yield)
        } else {
            Decision::Relock(false)
        },
        BlockTimeoutPhase::Relock(timed_out) => Decision::Relock(timed_out),
    }
}

/// A parked waiter takes itself off the list at the deadline.
pub open spec fn block_timeout_condvar(
    condvar: CondvarView,
    phase: BlockTimeoutPhase,
    thread: u64,
    now: Moment,
    deadline: Moment,
) -> CondvarView {
    if phase is Tick && now.spec_reached(deadline) {
        condvar.without_sync(thread)
    } else {
        condvar
    }
}

/// A spinning waiter goes on once its flag is raised. At the deadline it has timed out if it is
/// still listed; if not, a notification has chosen it and will raise the flag.
pub open spec fn spin_timeout_decision(
    condvar: CondvarView,
    phase: SpinTimeoutPhase,
    raised: bool,
    now: Moment,
    deadline: Moment,
) -> Decision<SpinTimeoutPhase> {
    match phase {
        SpinTimeoutPhase::Spinning(flag) => if raised {
            Decision::Relock(false)
        } else if !now.spec_reached(deadline) {
            Decision::Keep(SpinTimeoutPhase::Spinning(flag), Pause::SpinLoop)
        } else if condvar.spin.contains(flag) {
            Decision::Relock(true)
        } else {
            Decision::Keep(SpinTimeoutPhase::Handoff(flag), Pause::Yield)
        },
        SpinTimeoutPhase::Handoff(flag) => if raised {
            Decision::Relock(false)
        } else {
            Decision::Keep(SpinTimeoutPhase::Handoff(flag), Pause::SpinLoop)
        },
        SpinTimeoutPhase::Relock(timed_out) => Decision::Relock(timed_out),
    }
}

/// A spinning waiter takes itself off the list at the deadline.
pub open spec fn spin_timeout_condvar(
    condvar: CondvarView,
    phase: SpinTimeoutPhase,
    raised: bool,
    now: Moment,
    deadline: Moment,
) -> CondvarView {
    match phase {
        SpinTimeoutPhase::Spinning(flag) => if !raised && now.spec_reached(deadline) {
            condvar.without_spin(flag)
        } else {
            condvar
        },
        _ => condvar,
    }
}

/// Whether an async waiter that goes on has timed out: it has if the deadline won the race.
pub open spec fn async_timed_out(phase: AsyncTimeoutPhase, timed_out: bool) -> bool {
    match phase {
        AsyncTimeoutPhase::Racing(_) => timed_out,
        AsyncTimeoutPhase::Relock(known) => known,
    }
}

/// An async waiter takes itself off the list when the deadline has won the race.
pub open spec fn async_timeout_condvar(
    condvar: CondvarView,
    phase: AsyncTimeoutPhase,
    timed_out: bool,
) -> CondvarView {
    match phase {
        AsyncTimeoutPhase::Racing(id) => if timed_out {
            condvar.without_async(id)
        } else {
            condvar
        },
        AsyncTimeoutPhase::Relock(_) => condvar,
    }
}

/// An async waiter that takes itself off the list completes its own continuation.
pub open spec fn async_timeout_wakes(
    condvar: CondvarView,
    phase: AsyncTimeoutPhase,
    timed_out: bool,
) -> Seq<Wake> {
    match phase {
        AsyncTimeoutPhase::Racing(id) => if timed_out {
            condvar.async_wakes(id)
        } else {
            Seq::empty()
        },
        AsyncTimeoutPhase::Relock(_) => Seq::empty(),
    }
}

/// Where a wait starts, in the way that the thread may wait.
pub open spec fn first_sync_phase(caller: Caller, flag: u64) -> SyncPhase {
    if caller.can_block {
        SyncPhase::Block(BlockPhase::Relock)
    } else {
        SyncPhase::Spin(SpinPhase::Spinning(flag))
    }
}

/// How a wait starts, in the way that the thread may wait.
pub open spec fn first_sync_pause(caller: Caller) -> Pause {
    if caller.can_block {
        Pause::Park
    } else {
        Pause::Yield
    }
}

/// A waiter goes on as the way in which it waits says.
pub open spec fn sync_decision(phase: SyncPhase, raised: bool) -> Decision<SyncPhase> {
    match phase {
        SyncPhase::Block(_) => Decision::Relock(false),
        SyncPhase::Spin(phase) => match spin_decision(phase, raised) {
            Decision::Keep(next, pause) => Decision::Keep(SyncPhase::Spin(next), pause),
            Decision::Relock(timed_out) => Decision::Relock(timed_out),
        },
    }
}

/// The phase in which a waiter takes the mutex again.
pub open spec fn sync_relock(phase: SyncPhase) -> SyncPhase {
    match phase {
        SyncPhase::Block(_) => SyncPhase::Block(BlockPhase::Relock),
        SyncPhase::Spin(_) => SyncPhase::Spin(SpinPhase::Relock),
    }
}

/// Where a wait with a deadline starts, in the way that the thread may wait.
pub open spec fn first_sync_timeout_phase(caller: Caller, flag: u64) -> SyncTimeoutPhase {
    if caller.can_block {
        SyncTimeoutPhase::Block(BlockTimeoutPhase::Tick)
    } else {
        SyncTimeoutPhase::Spin(SpinTimeoutPhase::Spinning(flag))
    }
}

/// A waiter with a deadline goes on as the way in which it waits says.
pub open spec fn sync_timeout_decision(
    condvar: CondvarView,
    phase: SyncTimeoutPhase,
    raised: bool,
    thread: u64,
    now: Moment,
    deadline: Moment,
) -> Decision<SyncTimeoutPhase> {
    match phase {
        SyncTimeoutPhase::Block(phase) => match block_timeout_decision(
            condvar,
            phase,
            thread,
            now,
            deadline,
        ) {
            Decision::Keep(next, pause) => Decision::Keep(SyncTimeoutPhase::Block(next), pause),
            Decision::Relock(timed_out) => Decision::Relock(timed_out),
        },
        SyncTimeoutPhase::Spin(phase) => match spin_timeout_decision(
            condvar,
            phase,
            raised,
            now,
            deadline,
        ) {
            Decision::Keep(next, pause) => Decision::Keep(SyncTimeoutPhase::Spin(next), pause),
            Decision::Relock(timed_out) => Decision::Relock(timed_out),
        },
    }
}

/// A waiter takes itself off the list at the deadline, as the way in which it waits says.
pub open spec fn sync_timeout_condvar(
    condvar: CondvarView,
    phase: SyncTimeoutPhase,
    raised: bool,
    thread: u64,
    now: Moment,
    deadline: Moment,
) -> CondvarView {
    match phase {
        SyncTimeoutPhase::Block(phase) => block_timeout_condvar(
            condvar,
            phase,
            thread,
            now,
            deadline,
        ),
        SyncTimeoutPhase::Spin(phase) => spin_timeout_condvar(
            condvar,
            phase,
            raised,
            now,
            deadline,
        ),
    }
}

/// The phase in which a waiter with a deadline takes the mutex again.
pub open spec fn sync_timeout_relock(phase: SyncTimeoutPhase, timed_out: bool) -> SyncTimeoutPhase {
    match phase {
        SyncTimeoutPhase::Block(_) => SyncTimeoutPhase::Block(BlockTimeoutPhase::Relock(timed_out)),
        SyncTimeoutPhase::Spin(_) => SyncTimeoutPhase::Spin(SpinTimeoutPhase::Relock(timed_out)),
    }
}

/// The number that follows when `id` has been given out.
pub open spec fn id_after(id: u64) -> u64 {
    if id == u64::MAX {
        0
    } else {
        (id + 1) as u64
    }
}

/// All that a wait works on.
#[verifier::ext_equal]
pub struct Scene<T> {
    pub condvar: CondvarView,
    pub mutex: MutexView<T>,
    /// The wake-ups that have been asked for.
    pub wakes: Seq<Wake>,
}

impl<T> Scene<T> {
    /// The waiters have changed.
    pub open spec fn with_condvar(self, condvar: CondvarView) -> Self {
        Scene { condvar, ..self }
    }

    /// The mutex has changed.
    pub open spec fn with_mutex(self, mutex: MutexView<T>) -> Self {
        Scene { mutex, ..self }
    }

    /// Wake-ups have been asked for.
    pub open spec fn with_wakes(self, wakes: Seq<Wake>) -> Self {
        Scene { wakes: self.wakes + wakes, ..self }
    }

    /// The mutex has been given back with `value`, and those who wait for it are woken.
    pub open spec fn given_back(self, value: T) -> Self {
        self.with_mutex(self.mutex.released(value).drained()).with_wakes(self.mutex.waiters())
    }

    /// The mutex has been taken.
    pub open spec fn taken(self) -> Self {
        self.with_mutex(self.mutex.taken())
    }

    /// A thread has missed the mutex.
    pub open spec fn missed(self, caller: Caller) -> Self {
        self.with_mutex(self.mutex.contended(caller))
    }

    /// An async task has missed the mutex.
    pub open spec fn missed_async(self, continuation: u64) -> Self {
        self.with_mutex(self.mutex.queued_async(continuation))
    }
}

/// One attempt to take the mutex again after a wait: it gets the data if the mutex is free; else it
/// leaves everything as `missed` and the wait in phase `again`.
pub open spec fn relocked<T, P>(
    before: Scene<T>,
    after: Scene<T>,
    r: Progress<P, Guard<T>>,
    missed: Scene<T>,
    again: P,
    pause: Pause,
) -> bool {
    match before.mutex.inner {
        Some(value) => after == before.taken() && (r matches Progress::Done(guard) && guard@
            == value && guard.id() == before.mutex.id),
        None => after == missed && r == Progress::<P, Guard<T>>::Pause(again, pause),
    }
}

/// One attempt to take the mutex again after a wait with a deadline, with what is reported of the
/// deadline.
pub open spec fn timed_relocked<T, P>(
    before: Scene<T>,
    after: Scene<T>,
    r: Progress<P, (Guard<T>, WaitTimeoutResult)>,
    timed_out: bool,
    missed: Scene<T>,
    again: P,
    pause: Pause,
) -> bool {
    match before.mutex.inner {
        Some(value) => after == before.taken() && (r matches Progress::Done((guard, result))
            && guard@ == value && guard.id() == before.mutex.id && result.spec_timed_out()
            == timed_out),
        None => after == missed && r == Progress::<P, (Guard<T>, WaitTimeoutResult)>::Pause(
            again,
            pause,
        ),
    }
}

/// A wait that blocks has listed its thread and given the mutex back with `value`.
pub open spec fn block_started<T, R>(
    before: Scene<T>,
    after: Scene<T>,
    value: T,
    caller: Caller,
    r: Progress<BlockPhase, R>,
) -> bool {
    &&& after == before.given_back(value).with_condvar(before.condvar.with_sync(caller.thread))
    &&& r == Progress::<BlockPhase, R>::Pause(BlockPhase::Relock, Pause::Park)
}

/// A wait that blocks has gone on.
pub open spec fn block_resumed<T>(
    before: Scene<T>,
    after: Scene<T>,
    caller: Caller,
    r: Progress<BlockPhase, Guard<T>>,
) -> bool {
    relocked(
        before,
        after,
        r,
        before.missed(caller),
        BlockPhase::Relock,
        crate::mutex::sync_pause(caller),
    )
}

/// A step of a wait that blocks.
pub open spec fn block_step<T>(
    before: Scene<T>,
    after: Scene<T>,
    call: Call<Guard<T>, BlockPhase>,
    caller: Caller,
    r: Progress<BlockPhase, Guard<T>>,
) -> bool {
    match call {
        Call::Start(guard) => block_started(before, after, guard@, caller, r),
        Call::Resume(_) => block_resumed(before, after, caller, r),
    }
}

/// A wait that spins has listed its flag and given the mutex back with `value`.
pub open spec fn spin_started<T, R>(
    before: Scene<T>,
    after: Scene<T>,
    value: T,
    flag: u64,
    r: Progress<SpinPhase, R>,
) -> bool {
    &&& after == before.given_back(value).with_condvar(before.condvar.with_spin(flag))
    &&& r == Progress::<SpinPhase, R>::Pause(SpinPhase::Spinning(flag), Pause::Yield)
}

/// A wait that spins has gone on.
pub open spec fn spin_resumed<T>(
    before: Scene<T>,
    after: Scene<T>,
    phase: SpinPhase,
    raised: bool,
    caller: Caller,
    r: Progress<SpinPhase, Guard<T>>,
) -> bool {
    match spin_decision(phase, raised) {
        Decision::Keep(next, pause) => after == before && r == Progress::<
            SpinPhase,
            Guard<T>,
        >::Pause(next, pause),
        Decision::Relock(_) => relocked(
            before,
            after,
            r,
            before.missed(caller),
            SpinPhase::Relock,
            crate::mutex::sync_pause(caller),
        ),
    }
}

/// A step of a wait that spins.
pub open spec fn spin_step<T>(
    before: Scene<T>,
    after: Scene<T>,
    call: Call<Guard<T>, SpinPhase>,
    flag: u64,
    raised: bool,
    caller: Caller,
    r: Progress<SpinPhase, Guard<T>>,
) -> bool {
    match call {
        Call::Start(guard) => spin_started(before, after, guard@, flag, r),
        Call::Resume(phase) => spin_resumed(before, after, phase, raised, caller, r),
    }
}

/// A wait has started in the way that the thread may wait, with `value` given back to the mutex.
pub open spec fn sync_started<T, R>(
    before: Scene<T>,
    after: Scene<T>,
    value: T,
    flag: u64,
    caller: Caller,
    r: Progress<SyncPhase, R>,
) -> bool {
    &&& after == before.given_back(value).with_condvar(before.condvar.with_caller(caller, flag))
    &&& r == Progress::<SyncPhase, R>::Pause(
        first_sync_phase(caller, flag),
        first_sync_pause(caller),
    )
}

/// A wait has gone on in the way that the thread may wait.
pub open spec fn sync_resumed<T>(
    before: Scene<T>,
    after: Scene<T>,
    phase: SyncPhase,
    raised: bool,
    caller: Caller,
    r: Progress<SyncPhase, Guard<T>>,
) -> bool {
    match sync_decision(phase, raised) {
        Decision::Keep(next, pause) => after == before && r == Progress::<
            SyncPhase,
            Guard<T>,
        >::Pause(next, pause),
        Decision::Relock(_) => relocked(
            before,
            after,
            r,
            before.missed(caller),
            sync_relock(phase),
            crate::mutex::sync_pause(caller),
        ),
    }
}

/// A step of a wait, in the way that the thread may wait.
pub open spec fn sync_step<T>(
    before: Scene<T>,
    after: Scene<T>,
    call: Call<Guard<T>, SyncPhase>,
    flag: u64,
    raised: bool,
    caller: Caller,
    r: Progress<SyncPhase, Guard<T>>,
) -> bool {
    match call {
        Call::Start(guard) => sync_started(before, after, guard@, flag, caller, r),
        Call::Resume(phase) => sync_resumed(before, after, phase, raised, caller, r),
    }
}

/// A wait that blocks until a deadline has listed its thread and given the mutex back with `value`.
pub open spec fn block_timeout_started<T, R>(
    before: Scene<T>,
    after: Scene<T>,
    value: T,
    caller: Caller,
    r: Progress<BlockTimeoutPhase, R>,
) -> bool {
    &&& after == before.given_back(value).with_condvar(before.condvar.with_sync(caller.thread))
    &&& r == Progress::<BlockTimeoutPhase, R>::Pause(BlockTimeoutPhase::Tick, Pause::Yield)
}

/// A wait that blocks until a deadline has gone on when the clock shows `now`.
pub open spec fn block_timeout_resumed<T>(
    before: Scene<T>,
    after: Scene<T>,
    phase: BlockTimeoutPhase,
    caller: Caller,
    now: Moment,
    deadline: Moment,
    r: Progress<BlockTimeoutPhase, (Guard<T>, WaitTimeoutResult)>,
) -> bool {
    let listed = before.with_condvar(
        block_timeout_condvar(before.condvar, phase, caller.thread, now, deadline),
    );
    match block_timeout_decision(before.condvar, phase, caller.thread, now, deadline) {
        Decision::Keep(next, pause) => after == listed && r == Progress::<
            BlockTimeoutPhase,
            (Guard<T>, WaitTimeoutResult),
        >::Pause(next, pause),
        Decision::Relock(timed_out) => timed_relocked(
            listed,
            after,
            r,
            timed_out,
            listed.missed(caller),
            BlockTimeoutPhase::Relock(timed_out),
            crate::mutex::sync_pause(caller),
        ),
    }
}

/// A step of a wait that blocks until a deadline, when the clock shows `now`.
pub open spec fn block_timeout_step<T>(
    before: Scene<T>,
    after: Scene<T>,
    call: Call<Guard<T>, BlockTimeoutPhase>,
    caller: Caller,
    now: Moment,
    deadline: Moment,
    r: Progress<BlockTimeoutPhase, (Guard<T>, WaitTimeoutResult)>,
) -> bool {
    match call {
        Call::Start(guard) => block_timeout_started(before, after, guard@, caller, r),
        Call::Resume(phase) => block_timeout_resumed(
            before,
            after,
            phase,
            caller,
            now,
            deadline,
            r,
        ),
    }
}

/// A wait that spins until a deadline has listed its flag and given the mutex back with `value`.
pub open spec fn spin_timeout_started<T, R>(
    before: Scene<T>,
    after: Scene<T>,
    value: T,
    flag: u64,
    r: Progress<SpinTimeoutPhase, R>,
) -> bool {
    &&& after == before.given_back(value).with_condvar(before.condvar.with_spin(flag))
    &&& r == Progress::<SpinTimeoutPhase, R>::Pause(SpinTimeoutPhase::Spinning(flag), Pause::Yield)
}

/// A wait that spins until a deadline has gone on when the clock shows `now`.
pub open spec fn spin_timeout_resumed<T>(
    before: Scene<T>,
    after: Scene<T>,
    phase: SpinTimeoutPhase,
    raised: bool,
    caller: Caller,
    now: Moment,
    deadline: Moment,
    r: Progress<SpinTimeoutPhase, (Guard<T>, WaitTimeoutResult)>,
) -> bool {
    let listed = before.with_condvar(
        spin_timeout_condvar(before.condvar, phase, raised, now, deadline),
    );
    match spin_timeout_decision(before.condvar, phase, raised, now, deadline) {
        Decision::Keep(next, pause) => after == listed && r == Progress::<
            SpinTimeoutPhase,
            (Guard<T>, WaitTimeoutResult),
        >::Pause(next, pause),
        Decision::Relock(timed_out) => timed_relocked(
            listed,
            after,
            r,
            timed_out,
            listed.missed(caller),
            SpinTimeoutPhase::Relock(timed_out),
            crate::mutex::sync_pause(caller),
        ),
    }
}

/// A step of a wait that spins until a deadline, when the clock shows `now`.
pub open spec fn spin_timeout_step<T>(
    before: Scene<T>,
    after: Scene<T>,
    call: Call<Guard<T>, SpinTimeoutPhase>,
    flag: u64,
    raised: bool,
    caller: Caller,
    now: Moment,
    deadline: Moment,
    r: Progress<SpinTimeoutPhase, (Guard<T>, WaitTimeoutResult)>,
) -> bool {
    match call {
        Call::Start(guard) => spin_timeout_started(before, after, guard@, flag, r),
        Call::Resume(phase) => spin_timeout_resumed(
            before,
            after,
            phase,
            raised,
            caller,
            now,
            deadline,
            r,
        ),
    }
}

/// A wait until a deadline has started in the way that the thread may wait, with `value` given back
/// to the mutex.
pub open spec fn sync_timeout_started<T, R>(
    before: Scene<T>,
    after: Scene<T>,
    value: T,
    flag: u64,
    caller: Caller,
    r: Progress<SyncTimeoutPhase, R>,
) -> bool {
    &&& after == before.given_back(value).with_condvar(before.condvar.with_caller(caller, flag))
    &&& r == Progress::<SyncTimeoutPhase, R>::Pause(
        first_sync_timeout_phase(caller, flag),
        Pause::Yield,
    )
}

/// A wait until a deadline has gone on in the way that the thread may wait, when the clock shows
/// `now`.
pub open spec fn sync_timeout_resumed<T>(
    before: Scene<T>,
    after: Scene<T>,
    phase: SyncTimeoutPhase,
    raised: bool,
    caller: Caller,
    now: Moment,
    deadline: Moment,
    r: Progress<SyncTimeoutPhase, (Guard<T>, WaitTimeoutResult)>,
) -> bool {
    let listed = before.with_condvar(
        sync_timeout_condvar(before.condvar, phase, raised, caller.thread, now, deadline),
    );
    match sync_timeout_decision(before.condvar, phase, raised, caller.thread, now, deadline) {
        Decision::Keep(next, pause) => after == listed && r == Progress::<
            SyncTimeoutPhase,
            (Guard<T>, WaitTimeoutResult),
        >::Pause(next, pause),
        Decision::Relock(timed_out) => timed_relocked(
            listed,
            after,
            r,
            timed_out,
            listed.missed(caller),
            sync_timeout_relock(phase, timed_out),
            crate::mutex::sync_pause(caller),
        ),
    }
}

/// A step of a wait until a deadline, in the way that the thread may wait, when the clock shows
/// `now`.
pub open spec fn sync_timeout_step<T>(
    before: Scene<T>,
    after: Scene<T>,
    call: Call<Guard<T>, SyncTimeoutPhase>,
    flag: u64,
    raised: bool,
    caller: Caller,
    now: Moment,
    deadline: Moment,
    r: Progress<SyncTimeoutPhase, (Guard<T>, WaitTimeoutResult)>,
) -> bool {
    match call {
        Call::Start(guard) => sync_timeout_started(before, after, guard@, flag, caller, r),
        Call::Resume(phase) => sync_timeout_resumed(
            before,
            after,
            phase,
            raised,
            caller,
            now,
            deadline,
            r,
        ),
    }
}

/// An async wait has listed its task under the number `id` and given the mutex back with `value`.
pub open spec fn async_started<T, R>(
    before: Scene<T>,
    after: Scene<T>,
    value: T,
    id: u64,
    continuation: u64,
    r: Progress<AsyncPhase, R>,
) -> bool {
    &&& after == before.given_back(value).with_condvar(
        before.condvar.with_async(AsyncWaiter { id, sender: continuation }),
    )
    &&& r == Progress::<AsyncPhase, R>::Pause(AsyncPhase::Relock, Pause::Await(continuation))
}

/// An async wait has gone on.
pub open spec fn async_resumed<T>(
    before: Scene<T>,
    after: Scene<T>,
    continuation: u64,
    r: Progress<AsyncPhase, Guard<T>>,
) -> bool {
    relocked(
        before,
        after,
        r,
        before.missed_async(continuation),
        AsyncPhase::Relock,
        Pause::Await(continuation),
    )
}

/// A step of an async wait. The next number for a task is `id` before it and `next` after it.
pub open spec fn async_step<T>(
    before: Scene<T>,
    after: Scene<T>,
    call: Call<Guard<T>, AsyncPhase>,
    id: u64,
    next: u64,
    continuation: u64,
    r: Progress<AsyncPhase, Guard<T>>,
) -> bool {
    match call {
        Call::Start(guard) => async_started(before, after, guard@, id, continuation, r) && next
            == id_after(id),
        Call::Resume(_) => async_resumed(before, after, continuation, r) && next == id,
    }
}

/// An async wait until a deadline has listed its task under the number `id` and given the mutex
/// back with `value`.
pub open spec fn async_timeout_started<T, R>(
    before: Scene<T>,
    after: Scene<T>,
    value: T,
    id: u64,
    continuation: u64,
    r: Progress<AsyncTimeoutPhase, R>,
) -> bool {
    &&& after == before.given_back(value).with_condvar(
        before.condvar.with_async(AsyncWaiter { id, sender: continuation }),
    )
    &&& r == Progress::<AsyncTimeoutPhase, R>::Pause(
        AsyncTimeoutPhase::Racing(id),
        Pause::Race(continuation),
    )
}

/// An async wait until a deadline has gone on.
pub open spec fn async_timeout_resumed<T>(
    before: Scene<T>,
    after: Scene<T>,
    phase: AsyncTimeoutPhase,
    timed_out: bool,
    continuation: u64,
    r: Progress<AsyncTimeoutPhase, (Guard<T>, WaitTimeoutResult)>,
) -> bool {
    let listed = before.with_condvar(
        async_timeout_condvar(before.condvar, phase, timed_out),
    ).with_wakes(async_timeout_wakes(before.condvar, phase, timed_out));
    timed_relocked(
        listed,
        after,
        r,
        async_timed_out(phase, timed_out),
        listed.missed_async(continuation),
        AsyncTimeoutPhase::Relock(async_timed_out(phase, timed_out)),
        Pause::Await(continuation),
    )
}

/// A step of an async wait until a deadline. The next number for a task is `id` before it and
/// `next` after it.
pub open spec fn async_timeout_step<T>(
    before: Scene<T>,
    after: Scene<T>,
    call: Call<Guard<T>, AsyncTimeoutPhase>,
    id: u64,
    next: u64,
    timed_out: bool,
    continuation: u64,
    r: Progress<AsyncTimeoutPhase, (Guard<T>, WaitTimeoutResult)>,
) -> bool {
    match call {
        Call::Start(guard) => async_timeout_started(before, after, guard@, id, continuation, r)
            && next == id_after(id),
        Call::Resume(phase) => async_timeout_resumed(
            before,
            after,
            phase,
            timed_out,
            continuation,
            r,
        ) && next == id,
    }
}

/// Whether a wait that blocks until a deadline reads the clock in this phase.
pub open spec fn block_timeout_reads(phase: BlockTimeoutPhase) -> bool {
    phase is Tick
}

/// Whether a wait that spins until a deadline reads the clock in this phase: not once its flag is
/// raised.
pub open spec fn spin_timeout_reads(phase: SpinTimeoutPhase, raised: bool) -> bool {
    phase is Spinning && !raised
}

/// Whether a wait until a deadline reads the clock in this phase, in the way that it waits.
pub open spec fn sync_timeout_reads(phase: SyncTimeoutPhase, raised: bool) -> bool {
    match phase {
        SyncTimeoutPhase::Block(phase) => block_timeout_reads(phase),
        SyncTimeoutPhase::Spin(phase) => spin_timeout_reads(phase, raised),
    }
}

/// A condition has been tried.
pub struct Trial<T> {
    /// The data on which it was tried.
    pub before: T,
    /// The data as it left them.
    pub after: T,
    /// Whether it held.
    pub holds: bool,
}

/// The data that a step has in hand: that of the guard it was given, or of the mutex that it takes
/// again.
pub open spec fn in_hand<T, P>(
    call: Call<Guard<T>, P>,
    relocks: bool,
    mutex: MutexView<T>,
) -> Option<T> {
    match call {
        Call::Start(guard) => Some(guard@),
        Call::Resume(_) => if relocks {
            mutex.inner
        } else {
            None
        },
    }
}

/// The condition does not hold: the wait is over, with the data as the condition left them.
pub open spec fn let_go<T, P>(
    before: Scene<T>,
    after: Scene<T>,
    kept: T,
    r: Progress<P, Guard<T>>,
) -> bool {
    after == before.taken() && (r matches Progress::Done(guard) && guard@ == kept && guard.id()
        == before.mutex.id)
}

/// The condition does not hold: the wait is over before its deadline, with the data as the
/// condition left them.
pub open spec fn timed_let_go<T, P>(
    before: Scene<T>,
    after: Scene<T>,
    kept: T,
    r: Progress<P, (Guard<T>, WaitTimeoutResult)>,
) -> bool {
    after == before.taken() && (r matches Progress::Done((guard, result)) && guard@ == kept
        && guard.id() == before.mutex.id && !result.spec_timed_out())
}

/// The condition of a wait that blocks has been tried, with `kept` left in hand: if it holds the
/// wait starts, else it is over.
pub open spec fn block_tried<T>(
    before: Scene<T>,
    after: Scene<T>,
    kept: T,
    holds: bool,
    caller: Caller,
    r: Progress<BlockPhase, Guard<T>>,
) -> bool {
    if holds {
        block_started(before, after, kept, caller, r)
    } else {
        let_go(before, after, kept, r)
    }
}

/// A step of a wait that blocks as long as a condition holds: the condition is tried when the mutex
/// is in hand.
pub open spec fn block_while_step<T>(
    before: Scene<T>,
    after: Scene<T>,
    call: Call<Guard<T>, BlockPhase>,
    trial: Option<Trial<T>>,
    caller: Caller,
    r: Progress<BlockPhase, Guard<T>>,
) -> bool {
    match in_hand(call, true, before.mutex) {
        Some(value) => trial matches Some(trial) && trial.before == value && block_tried(
            before,
            after,
            trial.after,
            trial.holds,
            caller,
            r,
        ),
        None => trial is None && block_resumed(before, after, caller, r),
    }
}

/// The condition of a wait that spins has been tried, with `kept` left in hand: if it holds the
/// wait starts, else it is over.
pub open spec fn spin_tried<T>(
    before: Scene<T>,
    after: Scene<T>,
    kept: T,
    holds: bool,
    flag: u64,
    r: Progress<SpinPhase, Guard<T>>,
) -> bool {
    if holds {
        spin_started(before, after, kept, flag, r)
    } else {
        let_go(before, after, kept, r)
    }
}

/// A step of a wait that spins as long as a condition holds: the condition is tried when the mutex
/// is in hand.
pub open spec fn spin_while_step<T>(
    before: Scene<T>,
    after: Scene<T>,
    call: Call<Guard<T>, SpinPhase>,
    trial: Option<Trial<T>>,
    flag: u64,
    raised: bool,
    caller: Caller,
    r: Progress<SpinPhase, Guard<T>>,
) -> bool {
    match in_hand(
        call,
        spin_decision(call->Resume_0, raised) is Relock,
        before.mutex,
    ) {
        Some(value) => trial matches Some(trial) && trial.before == value && spin_tried(
            before,
            after,
            trial.after,
            trial.holds,
            flag,
            r,
        ),
        None => trial is None && spin_resumed(before, after, call->Resume_0, raised, caller, r),
    }
}

/// The condition of a wait, in the way that the thread may wait, has been tried, with `kept` left
/// in hand: if it holds the wait starts, else it is over.
pub open spec fn sync_tried<T>(
    before: Scene<T>,
    after: Scene<T>,
    kept: T,
    holds: bool,
    flag: u64,
    caller: Caller,
    r: Progress<SyncPhase, Guard<T>>,
) -> bool {
    if holds {
        sync_started(before, after, kept, flag, caller, r)
    } else {
        let_go(before, after, kept, r)
    }
}

/// A step of a wait, in the way that the thread may wait, as long as a condition holds: the
/// condition is tried when the mutex is in hand.
pub open spec fn sync_while_step<T>(
    before: Scene<T>,
    after: Scene<T>,
    call: Call<Guard<T>, SyncPhase>,
    trial: Option<Trial<T>>,
    flag: u64,
    raised: bool,
    caller: Caller,
    r: Progress<SyncPhase, Guard<T>>,
) -> bool {
    match in_hand(
        call,
        sync_decision(call->Resume_0, raised) is Relock,
        before.mutex,
    ) {
        Some(value) => trial matches Some(trial) && trial.before == value && sync_tried(
            before,
            after,
            trial.after,
            trial.holds,
            flag,
            caller,
            r,
        ),
        None => trial is None && sync_resumed(before, after, call->Resume_0, raised, caller, r),
    }
}

/// The condition of an async wait has been tried, with `kept` left in hand: if it holds the wait
/// starts, else it is over.
pub open spec fn async_tried<T>(
    before: Scene<T>,
    after: Scene<T>,
    kept: T,
    holds: bool,
    id: u64,
    next: u64,
    continuation: u64,
    r: Progress<AsyncPhase, Guard<T>>,
) -> bool {
    if holds {
        &&& async_started(before, after, kept, id, continuation, r)
        &&& next == id_after(id)
    } else {
        &&& let_go(before, after, kept, r)
        &&& next == id
    }
}

/// A step of an async wait as long as a condition holds: the condition is tried when the mutex is
/// in hand.
pub open spec fn async_while_step<T>(
    before: Scene<T>,
    after: Scene<T>,
    call: Call<Guard<T>, AsyncPhase>,
    trial: Option<Trial<T>>,
    id: u64,
    next: u64,
    continuation: u64,
    r: Progress<AsyncPhase, Guard<T>>,
) -> bool {
    match in_hand(call, true, before.mutex) {
        Some(value) => trial matches Some(trial) && trial.before == value && async_tried(
            before,
            after,
            trial.after,
            trial.holds,
            id,
            next,
            continuation,
            r,
        ),
        None => trial is None && async_resumed(before, after, continuation, r) && next == id,
    }
}

/// The condition of a wait that blocks until a deadline has been tried, with `kept` left in hand:
/// if it holds the wait starts, else it is over.
pub open spec fn block_timeout_tried<T>(
    before: Scene<T>,
    after: Scene<T>,
    kept: T,
    holds: bool,
    caller: Caller,
    r: Progress<BlockTimeoutPhase, (Guard<T>, WaitTimeoutResult)>,
) -> bool {
    if holds {
        block_timeout_started(before, after, kept, caller, r)
    } else {
        timed_let_go(before, after, kept, r)
    }
}

/// A step of a wait that blocks until a deadline as long as a condition holds, when the clock shows
/// `now`: the condition is tried when the mutex is in hand.
pub open spec fn block_timeout_while_step<T>(
    before: Scene<T>,
    after: Scene<T>,
    call: Call<Guard<T>, BlockTimeoutPhase>,
    trial: Option<Trial<T>>,
    caller: Caller,
    now: Moment,
    deadline: Moment,
    r: Progress<BlockTimeoutPhase, (Guard<T>, WaitTimeoutResult)>,
) -> bool {
    match in_hand(
        call,
        block_timeout_decision(
            before.condvar,
            call->Resume_0,
            caller.thread,
            now,
            deadline,
        ) == Decision::<BlockTimeoutPhase>::Relock(false),
        before.mutex,
    ) {
        Some(value) => trial matches Some(trial) && trial.before == value && block_timeout_tried(
            before,
            after,
            trial.after,
            trial.holds,
            caller,
            r,
        ),
        None => trial is None && block_timeout_resumed(
            before,
            after,
            call->Resume_0,
            caller,
            now,
            deadline,
            r,
        ),
    }
}

/// The condition of a wait that spins until a deadline has been tried, with `kept` left in hand: if
/// it holds the wait starts, else it is over.
pub open spec fn spin_timeout_tried<T>(
    before: Scene<T>,
    after: Scene<T>,
    kept: T,
    holds: bool,
    flag: u64,
    r: Progress<SpinTimeoutPhase, (Guard<T>, WaitTimeoutResult)>,
) -> bool {
    if holds {
        spin_timeout_started(before, after, kept, flag, r)
    } else {
        timed_let_go(before, after, kept, r)
    }
}

/// A step of a wait that spins until a deadline as long as a condition holds, when the clock shows
/// `now`: the condition is tried when the mutex is in hand.
pub open spec fn spin_timeout_while_step<T>(
    before: Scene<T>,
    after: Scene<T>,
    call: Call<Guard<T>, SpinTimeoutPhase>,
    trial: Option<Trial<T>>,
    flag: u64,
    raised: bool,
    caller: Caller,
    now: Moment,
    deadline: Moment,
    r: Progress<SpinTimeoutPhase, (Guard<T>, WaitTimeoutResult)>,
) -> bool {
    match in_hand(
        call,
        spin_timeout_decision(before.condvar, call->Resume_0, raised, now, deadline)
            == Decision::<SpinTimeoutPhase>::Relock(false),
        before.mutex,
    ) {
        Some(value) => trial matches Some(trial) && trial.before == value && spin_timeout_tried(
            before,
            after,
            trial.after,
            trial.holds,
            flag,
            r,
        ),
        None => trial is None && spin_timeout_resumed(
            before,
            after,
            call->Resume_0,
            raised,
            caller,
            now,
            deadline,
            r,
        ),
    }
}

/// The condition of a wait until a deadline, in the way that the thread may wait, has been tried,
/// with `kept` left in hand: if it holds the wait starts, else it is over.
pub open spec fn sync_timeout_tried<T>(
    before: Scene<T>,
    after: Scene<T>,
    kept: T,
    holds: bool,
    flag: u64,
    caller: Caller,
    r: Progress<SyncTimeoutPhase, (Guard<T>, WaitTimeoutResult)>,
) -> bool {
    if holds {
        sync_timeout_started(before, after, kept, flag, caller, r)
    } else {
        timed_let_go(before, after, kept, r)
    }
}

/// A step of a wait until a deadline, in the way that the thread may wait, as long as a condition
/// holds, when the clock shows `now`: the condition is tried when the mutex is in hand.
pub open spec fn sync_timeout_while_step<T>(
    before: Scene<T>,
    after: Scene<T>,
    call: Call<Guard<T>, SyncTimeoutPhase>,
    trial: Option<Trial<T>>,
    flag: u64,
    raised: bool,
    caller: Caller,
    now: Moment,
    deadline: Moment,
    r: Progress<SyncTimeoutPhase, (Guard<T>, WaitTimeoutResult)>,
) -> bool {
    match in_hand(
        call,
        sync_timeout_decision(
            before.condvar,
            call->Resume_0,
            raised,
            caller.thread,
            now,
            deadline,
        ) == Decision::<SyncTimeoutPhase>::Relock(false),
        before.mutex,
    ) {
        Some(value) => trial matches Some(trial) && trial.before == value && sync_timeout_tried(
            before,
            after,
            trial.after,
            trial.holds,
            flag,
            caller,
            r,
        ),
        None => trial is None && sync_timeout_resumed(
            before,
            after,
            call->Resume_0,
            raised,
            caller,
            now,
            deadline,
            r,
        ),
    }
}

/// The condition of an async wait until a deadline has been tried, with `kept` left in hand: if it
/// holds the wait starts, else it is over.
pub open spec fn async_timeout_tried<T>(
    before: Scene<T>,
    after: Scene<T>,
    kept: T,
    holds: bool,
    id: u64,
    next: u64,
    continuation: u64,
    r: Progress<AsyncTimeoutPhase, (Guard<T>, WaitTimeoutResult)>,
) -> bool {
    if holds {
        &&& async_timeout_started(before, after, kept, id, continuation, r)
        &&& next == id_after(id)
    } else {
        &&& timed_let_go(before, after, kept, r)
        &&& next == id
    }
}

/// A step of an async wait until a deadline as long as a condition holds: the condition is tried
/// when the mutex is in hand.
pub open spec fn async_timeout_while_step<T>(
    before: Scene<T>,
    after: Scene<T>,
    call: Call<Guard<T>, AsyncTimeoutPhase>,
    trial: Option<Trial<T>>,
    id: u64,
    next: u64,
    timed_out: bool,
    continuation: u64,
    r: Progress<AsyncTimeoutPhase, (Guard<T>, WaitTimeoutResult)>,
) -> bool {
    match in_hand(call, !async_timed_out(call->Resume_0, timed_out), before.mutex) {
        Some(value) => trial matches Some(trial) && trial.before == value && async_timeout_tried(
            before,
            after,
            trial.after,
            trial.holds,
            id,
            next,
            continuation,
            r,
        ),
        None => trial is None && async_timeout_resumed(
            before,
            after,
            call->Resume_0,
            timed_out,
            continuation,
            r,
        ) && next == id,
    }
}

/// A step of a wait that blocks until a deadline: the clock is read if the step needs it, and the
/// time does not count if not.
pub open spec fn block_timeout_timed<T>(
    before: Scene<T>,
    after: Scene<T>,
    call: Call<Guard<T>, BlockTimeoutPhase>,
    caller: Caller,
    deadline: web_time::Instant,
    r: Progress<BlockTimeoutPhase, (Guard<T>, WaitTimeoutResult)>,
) -> bool {
    if call matches Call::Resume(phase) && block_timeout_reads(phase) {
        exists|reading: web_time::Instant|
            time::read_from_clock(reading) && block_timeout_step(
                before,
                after,
                call,
                caller,
                time::present(),
                #[trigger] time::seen_at(reading, deadline),
                r,
            )
    } else {
        block_timeout_step(before, after, call, caller, time::present(), time::present(), r)
    }
}

/// A step of a wait that blocks until a deadline as long as a condition holds: the clock is read if
/// the step needs it.
pub open spec fn block_timeout_while_timed<T>(
    before: Scene<T>,
    after: Scene<T>,
    call: Call<Guard<T>, BlockTimeoutPhase>,
    trial: Option<Trial<T>>,
    caller: Caller,
    deadline: web_time::Instant,
    r: Progress<BlockTimeoutPhase, (Guard<T>, WaitTimeoutResult)>,
) -> bool {
    if call matches Call::Resume(phase) && block_timeout_reads(phase) {
        exists|reading: web_time::Instant|
            time::read_from_clock(reading) && block_timeout_while_step(
                before,
                after,
                call,
                trial,
                caller,
                time::present(),
                #[trigger] time::seen_at(reading, deadline),
                r,
            )
    } else {
        block_timeout_while_step(
            before,
            after,
            call,
            trial,
            caller,
            time::present(),
            time::present(),
            r,
        )
    }
}

/// A step of a wait that spins until a deadline: the clock is read if the step needs it, and the
/// time does not count if not.
pub open spec fn spin_timeout_timed<T>(
    before: Scene<T>,
    after: Scene<T>,
    call: Call<Guard<T>, SpinTimeoutPhase>,
    flag: u64,
    raised: bool,
    caller: Caller,
    deadline: web_time::Instant,
    r: Progress<SpinTimeoutPhase, (Guard<T>, WaitTimeoutResult)>,
) -> bool {
    if call matches Call::Resume(phase) && spin_timeout_reads(phase, raised) {
        exists|reading: web_time::Instant|
            time::read_from_clock(reading) && spin_timeout_step(
                before,
                after,
                call,
                flag,
                raised,
                caller,
                time::present(),
                #[trigger] time::seen_at(reading, deadline),
                r,
            )
    } else {
        spin_timeout_step(
            before,
            after,
            call,
            flag,
            raised,
            caller,
            time::present(),
            time::present(),
            r,
        )
    }
}

/// A step of a wait that spins until a deadline as long as a condition holds: the clock is read if
/// the step needs it.
pub open spec fn spin_timeout_while_timed<T>(
    before: Scene<T>,
    after: Scene<T>,
    call: Call<Guard<T>, SpinTimeoutPhase>,
    trial: Option<Trial<T>>,
    flag: u64,
    raised: bool,
    caller: Caller,
    deadline: web_time::Instant,
    r: Progress<SpinTimeoutPhase, (Guard<T>, WaitTimeoutResult)>,
) -> bool {
    if call matches Call::Resume(phase) && spin_timeout_reads(phase, raised) {
        exists|reading: web_time::Instant|
            time::read_from_clock(reading) && spin_timeout_while_step(
                before,
                after,
                call,
                trial,
                flag,
                raised,
                caller,
                time::present(),
                #[trigger] time::seen_at(reading, deadline),
                r,
            )
    } else {
        spin_timeout_while_step(
            before,
            after,
            call,
            trial,
            flag,
            raised,
            caller,
            time::present(),
            time::present(),
            r,
        )
    }
}

/// A step of a wait until a deadline, in the way that the thread may wait: the clock is read if
/// the step needs it.
pub open spec fn sync_timeout_timed<T>(
    before: Scene<T>,
    after: Scene<T>,
    call: Call<Guard<T>, SyncTimeoutPhase>,
    flag: u64,
    raised: bool,
    caller: Caller,
    deadline: web_time::Instant,
    r: Progress<SyncTimeoutPhase, (Guard<T>, WaitTimeoutResult)>,
) -> bool {
    if call matches Call::Resume(phase) && sync_timeout_reads(phase, raised) {
        exists|reading: web_time::Instant|
            time::read_from_clock(reading) && sync_timeout_step(
                before,
                after,
                call,
                flag,
                raised,
                caller,
                time::present(),
                #[trigger] time::seen_at(reading, deadline),
                r,
            )
    } else {
        sync_timeout_step(
            before,
            after,
            call,
            flag,
            raised,
            caller,
            time::present(),
            time::present(),
            r,
        )
    }
}

/// A step of a wait until a deadline, in the way that the thread may wait, as long as a condition
/// holds: the clock is read if the step needs it, and the time does not count if not.
pub open spec fn sync_timeout_while_timed<T>(
    before: Scene<T>,
    after: Scene<T>,
    call: Call<Guard<T>, SyncTimeoutPhase>,
    trial: Option<Trial<T>>,
    flag: u64,
    raised: bool,
    caller: Caller,
    deadline: web_time::Instant,
    r: Progress<SyncTimeoutPhase, (Guard<T>, WaitTimeoutResult)>,
) -> bool {
    if call matches Call::Resume(phase) && sync_timeout_reads(phase, raised) {
        exists|reading: web_time::Instant|
            time::read_from_clock(reading) && sync_timeout_while_step(
                before,
                after,
                call,
                trial,
                flag,
                raised,
                caller,
                time::present(),
                #[trigger] time::seen_at(reading, deadline),
                r,
            )
    } else {
        sync_timeout_while_step(
            before,
            after,
            call,
            trial,
            flag,
            raised,
            caller,
            time::present(),
            time::present(),
            r,
        )
    }
}

} // verus!

//! A mutex that can be waited for by spinning, by blocking and by awaiting.
use crate::guard::{some_identity, Guard};
use crate::spinlock::Spinlock;
use crate::step::{
    push_continuation_wakes, push_thread_wakes, take_all, Caller, Pause, Progress, Wake,
};
use crate::time;
use crate::time::Moment;
use vstd::prelude::*;

verus! {

/// The mutex is locked.
#[derive(Debug, Copy, Clone, PartialEq, Eq, Structural)]
pub struct NotAvailable;

/// What a locked mutex is shown as.
pub const LOCKED_TEXT: &'static str = "Mutex { <locked> }";

/// The state of a mutex.
#[verifier::ext_equal]
pub struct MutexView<T> {
    /// What tells the mutex from others. It stays.
    pub id: int,
    /// The data, while nobody has the lock.
    pub inner: Option<T>,
    /// The threads that are parked until the lock is free.
    pub sync: Seq<u64>,
    /// The continuations that are completed when the lock is free.
    pub asynch: Seq<u64>,
}

impl<T> MutexView<T> {
    /// Nobody waits for a mutex that is free.
    pub open spec fn wf(self) -> bool {
        self.inner is Some ==> self.sync.len() == 0 && self.asynch.len() == 0
    }

    /// The lock is out, and `guard` is the one that holds it.
    pub open spec fn lent_to<G>(self, guard: Guard<G>) -> bool {
        self.inner is None && guard.id() == self.id
    }

    /// A mutex that is free and holds `value`.
    pub open spec fn holding(id: int, value: T) -> Self {
        MutexView { id, inner: Some(value), sync: Seq::empty(), asynch: Seq::empty() }
    }

    /// Somebody has taken the lock, and the data with it.
    pub open spec fn taken(self) -> Self {
        MutexView { inner: None, ..self }
    }

    /// A thread has joined the waiting ones.
    pub open spec fn queued(self, thread: u64) -> Self {
        MutexView { sync: self.sync.push(thread), ..self }
    }

    /// A continuation has joined the waiting ones.
    pub open spec fn queued_async(self, continuation: u64) -> Self {
        MutexView { asynch: self.asynch.push(continuation), ..self }
    }

    /// The lock has been given back with `value` as the data.
    pub open spec fn released(self, value: T) -> Self {
        MutexView { inner: Some(value), ..self }
    }

    /// Everybody who waited has been let go.
    pub open spec fn drained(self) -> Self {
        MutexView { sync: Seq::empty(), asynch: Seq::empty(), ..self }
    }

    /// Those who wait: first the threads, then the continuations, each in order of arrival.
    pub open spec fn waiters(self) -> Seq<Wake> {
        crate::step::thread_wakes(self.sync) + crate::step::continuation_wakes(self.asynch)
    }

    /// What `lock_sync` does to a mutex that is locked: a thread that can block waits in the list.
    pub open spec fn contended(self, caller: Caller) -> Self {
        if caller.can_block {
            self.queued(caller.thread)
        } else {
            self
        }
    }
}

/// How a thread waits for a lock that it could not get.
pub open spec fn sync_pause(caller: Caller) -> Pause {
    if caller.can_block {
        Pause::Park
    } else {
        Pause::SpinLoop
    }
}

/// One attempt at a lock: it gets the data if the mutex is free; else it leaves the mutex as
/// `contended` and pauses.
pub open spec fn lock_pass<T>(
    pre: MutexView<T>,
    post: MutexView<T>,
    r: Progress<(), Guard<T>>,
    contended: MutexView<T>,
    pause: Pause,
) -> bool {
    match pre.inner {
        Some(value) => post == pre.taken() && (r matches Progress::Done(guard) && guard@ == value
            && guard.id() == pre.id),
        None => post == contended && r == Progress::<(), Guard<T>>::Pause((), pause),
    }
}

/// One attempt at a lock that may be given up: it gets the data if the mutex is free; else it
/// leaves the mutex as `contended` and goes on as `otherwise` says.
pub open spec fn timed_lock_pass<T>(
    pre: MutexView<T>,
    post: MutexView<T>,
    r: Progress<(), Option<Guard<T>>>,
    contended: MutexView<T>,
    otherwise: Progress<(), Option<Guard<T>>>,
) -> bool {
    match pre.inner {
        Some(value) => post == pre.taken() && (r matches Progress::Done(Some(guard)) && guard@
            == value && guard.id() == pre.id),
        None => post == contended && r == otherwise,
    }
}

/// One step of `lock_spin_timeout` when the clock shows `now`: a locked mutex is given up once the
/// deadline has come.
pub open spec fn spin_timeout_pass<T>(
    pre: MutexView<T>,
    post: MutexView<T>,
    r: Progress<(), Option<Guard<T>>>,
    now: Moment,
    deadline: Moment,
) -> bool {
    timed_lock_pass(
        pre,
        post,
        r,
        pre,
        if now.spec_reached(deadline) {
            Progress::Done(None)
        } else {
            Progress::Pause((), Pause::SpinLoop)
        },
    )
}

/// One step of `lock_block_timeout` when the clock shows `now`, and `later` once the lock has been
/// missed: at the deadline a locked mutex is given up, before it the thread parks for the rest.
pub open spec fn block_timeout_pass<T>(
    pre: MutexView<T>,
    post: MutexView<T>,
    r: Progress<(), Option<Guard<T>>>,
    thread: u64,
    now: Moment,
    later: Moment,
    deadline: Moment,
) -> bool {
    if now.spec_reached(deadline) {
        timed_lock_pass(pre, post, r, pre, Progress::Done(None))
    } else {
        timed_lock_pass(
            pre,
            post,
            r,
            pre.queued(thread),
            Progress::Pause((), Pause::ParkTimeout(later.spec_until(deadline))),
        )
    }
}

/// One step of `lock_async_timeout` when the clock shows `now`: a race that the deadline has won
/// ends the call; else a locked mutex is given up at the deadline, and raced for before it.
pub open spec fn async_timeout_pass<T>(
    pre: MutexView<T>,
    post: MutexView<T>,
    r: Progress<(), Option<Guard<T>>>,
    timed_out: bool,
    continuation: u64,
    now: Moment,
    deadline: Moment,
) -> bool {
    if timed_out {
        post == pre && r == Progress::<(), Option<Guard<T>>>::Done(None)
    } else if now.spec_reached(deadline) {
        timed_lock_pass(pre, post, r, pre, Progress::Done(None))
    } else {
        timed_lock_pass(
            pre,
            post,
            r,
            pre.queued_async(continuation),
            Progress::Pause((), Pause::Race(continuation)),
        )
    }
}

/// One step of `lock_sync_timeout`, with the clock readings of the way that the thread waits.
pub open spec fn sync_timeout_pass<T>(
    pre: MutexView<T>,
    post: MutexView<T>,
    r: Progress<(), Option<Guard<T>>>,
    caller: Caller,
    now: Moment,
    later: Moment,
    deadline: Moment,
) -> bool {
    if caller.can_block {
        block_timeout_pass(pre, post, r, caller.thread, now, later, deadline)
    } else {
        spin_timeout_pass(pre, post, r, now, deadline)
    }
}

/// Whether `lock_spin_timeout` reads the clock: a mutex that is free is taken without.
pub open spec fn spin_timeout_reads<T>(pre: MutexView<T>) -> bool {
    pre.inner is None
}

/// Whether `lock_block_timeout` reads the clock a second time: to park, when it has missed the lock
/// before the deadline.
pub open spec fn block_timeout_reads_again<T>(
    pre: MutexView<T>,
    now: Moment,
    deadline: Moment,
) -> bool {
    pre.inner is None && !now.spec_reached(deadline)
}

/// One step of `lock_spin_timeout`: a free mutex is taken whatever the time, for a locked one the
/// clock is read.
pub open spec fn spin_timeout_timed<T>(
    pre: MutexView<T>,
    post: MutexView<T>,
    r: Progress<(), Option<Guard<T>>>,
    deadline: web_time::Instant,
) -> bool {
    if spin_timeout_reads(pre) {
        exists|reading: web_time::Instant|
            time::read_from_clock(reading) && spin_timeout_pass(
                pre,
                post,
                r,
                time::present(),
                #[trigger] time::seen_at(reading, deadline),
            )
    } else {
        spin_timeout_pass(pre, post, r, time::present(), time::present())
    }
}

/// One step of `lock_block_timeout`: the clock is read, and once more to park.
pub open spec fn block_timeout_timed<T>(
    pre: MutexView<T>,
    post: MutexView<T>,
    r: Progress<(), Option<Guard<T>>>,
    thread: u64,
    deadline: web_time::Instant,
) -> bool {
    exists|reading: web_time::Instant|
        {
            let due = #[trigger] time::seen_at(reading, deadline);
            time::read_from_clock(reading) && if block_timeout_reads_again(
                pre,
                time::present(),
                due,
            ) {
                exists|again: web_time::Instant|
                    time::read_from_clock(again) && block_timeout_pass(
                        pre,
                        post,
                        r,
                        thread,
                        time::present(),
                        #[trigger] time::seen_at(reading, again),
                        due,
                    )
            } else {
                block_timeout_pass(pre, post, r, thread, time::present(), time::present(), due)
            }
        }
}

/// One step of `lock_sync_timeout`, in the way that the thread may wait.
pub open spec fn sync_timeout_timed<T>(
    pre: MutexView<T>,
    post: MutexView<T>,
    r: Progress<(), Option<Guard<T>>>,
    caller: Caller,
    deadline: web_time::Instant,
) -> bool {
    if caller.can_block {
        block_timeout_timed(pre, post, r, caller.thread, deadline)
    } else {
        spin_timeout_timed(pre, post, r, deadline)
    }
}

/// One step of `lock_async_timeout`: the clock is read unless the deadline has won a race.
pub open spec fn async_timeout_timed<T>(
    pre: MutexView<T>,
    post: MutexView<T>,
    r: Progress<(), Option<Guard<T>>>,
    timed_out: bool,
    continuation: u64,
    deadline: web_time::Instant,
) -> bool {
    if timed_out {
        async_timeout_pass(pre, post, r, timed_out, continuation, time::present(), time::present())
    } else {
        exists|reading: web_time::Instant|
            time::read_from_clock(reading) && async_timeout_pass(
                pre,
                post,
                r,
                timed_out,
                continuation,
                time::present(),
                #[trigger] time::seen_at(reading, deadline),
            )
    }
}

/// Data that one caller at a time works on.
pub struct Mutex<T> {
    id: Ghost<int>,
    inner: Option<T>,
    data_lock: bool,
    waiting_sync_threads: Spinlock<Vec<u64>>,
    waiting_async_threads: Spinlock<Vec<u64>>,
}

impl<T> View for Mutex<T> {
    type V = MutexView<T>;

    closed spec fn view(&self) -> MutexView<T> {
        MutexView {
            id: self.id@,
            inner: self.inner,
            sync: self.waiting_sync_threads@@,
            asynch: self.waiting_async_threads@@,
        }
    }
}

impl<T> Mutex<T> {
    /// The waiting lists are left in order.
    pub closed spec fn lists_wf(&self) -> bool {
        !self.waiting_sync_threads.is_locked() && !self.waiting_async_threads.is_locked()
    }

    /// The data is there exactly while the lock is free.
    pub closed spec fn lock_wf(&self) -> bool {
        self.data_lock <==> self.inner is None
    }

    /// The data is there exactly while the lock is free, nobody waits for a free lock, and the
    /// waiting lists are left in order.
    pub open spec fn wf(&self) -> bool {
        self.lists_wf() && self.lock_wf() && self@.wf()
    }

    /// A free mutex that holds `value`.
    pub fn new(value: T) -> (r: Self)
        ensures
            r.wf(),
            r@ == MutexView::holding(r@.id, value),
    {
        let ghost mut id: int = 0;
        proof {
            id = some_identity();
        }
        let r = Mutex {
            id: Ghost(id),
            inner: Some(value),
            data_lock: false,
            waiting_sync_threads: Spinlock::new(Vec::new()),
            waiting_async_threads: Spinlock::new(Vec::new()),
        };
        assert(r@ =~= MutexView::holding(id, value));
        r
    }

    /// Takes the lock if it is free.
    pub fn try_lock(&mut self) -> (r: Result<Guard<T>, NotAvailable>)
        requires
            old(self).wf(),
        ensures
            final(self).wf(),
            match old(self)@.inner {
                Some(value) => final(self)@ == old(self)@.taken() && (r matches Ok(guard) && guard@
                    == value && guard.id() == old(self)@.id),
                None => final(self)@ == old(self)@ && r == Err::<Guard<T>, NotAvailable>(
                    NotAvailable,
                ),
            },
    {
        if self.data_lock {
            return Err(NotAvailable);
        }
        self.data_lock = true;
        match self.inner.take() {
            Some(data) => Ok(Guard::new(data, self.id)),
            None => Err(NotAvailable),
        }
    }

    /// One attempt at the lock; a caller that misses it spins.
    pub fn lock_spin(&mut self) -> (r: Progress<(), Guard<T>>)
        requires
            old(self).wf(),
        ensures
            final(self).wf(),
            lock_pass(old(self)@, final(self)@, r, old(self)@, Pause::SpinLoop),
    {
        match self.try_lock() {
            Ok(guard) => Progress::Done(guard),
            Err(_) => Progress::Pause((), Pause::SpinLoop),
        }
    }

    /// One attempt at the lock when the clock shows `now`; a caller that misses it spins until the
    /// deadline.
    pub fn lock_spin_timeout_at(&mut self, now: Moment, deadline: Moment) -> (r: Progress<
        (),
        Option<Guard<T>>,
    >)
        requires
            old(self).wf(),
        ensures
            final(self).wf(),
            spin_timeout_pass(old(self)@, final(self)@, r, now, deadline),
    {
        match self.try_lock() {
            Ok(guard) => Progress::Done(Some(guard)),
            Err(_) => if now.reached(deadline) {
                Progress::Done(None)
            } else {
                Progress::Pause((), Pause::SpinLoop)
            },
        }
    }

    /// One attempt at the lock; a caller that misses it reads the clock, and spins until the
    /// deadline.
    pub fn lock_spin_timeout(&mut self, deadline: web_time::Instant) -> (r: Progress<
        (),
        Option<Guard<T>>,
    >)
        requires
            old(self).wf(),
        ensures
            final(self).wf(),
            spin_timeout_timed(old(self)@, final(self)@, r, deadline),
    {
        let due = time::due(self.data_lock, &deadline);
        self.lock_spin_timeout_at(Moment { nanos: 0 }, due)
    }

    /// Lists `thread` among those that are unparked when the lock is given back.
    fn enqueue(&mut self, thread: u64)
        requires
            old(self).wf(),
            old(self)@.inner is None,
        ensures
            final(self).wf(),
            final(self)@ == old(self)@.queued(thread),
    {
        self.waiting_sync_threads.critical(
            |threads: &mut Vec<u64>|
                ensures
                    final(threads)@ == old(threads)@.push(thread)
                {
                    threads.push(thread);
                },
        );
        assert(self@ =~= old(self)@.queued(thread));
    }

    /// Lists `continuation` among those that are completed when the lock is given back.
    fn enqueue_async(&mut self, continuation: u64)
        requires
            old(self).wf(),
            old(self)@.inner is None,
        ensures
            final(self).wf(),
            final(self)@ == old(self)@.queued_async(continuation),
    {
        self.waiting_async_threads.critical(
            |senders: &mut Vec<u64>|
                ensures
                    final(senders)@ == old(senders)@.push(continuation)
                {
                    senders.push(continuation);
                },
        );
        assert(self@ =~= old(self)@.queued_async(continuation));
    }

    /// One attempt at the lock; a thread that misses it is listed and parks.
    pub fn lock_block(&mut self, thread: u64) -> (r: Progress<(), Guard<T>>)
        requires
            old(self).wf(),
        ensures
            final(self).wf(),
            lock_pass(old(self)@, final(self)@, r, old(self)@.queued(thread), Pause::Park),
    {
        match self.try_lock() {
            Ok(guard) => Progress::Done(guard),
            Err(_) => {
                self.enqueue(thread);
                Progress::Pause((), Pause::Park)
            },
        }
    }

    /// One attempt at the lock when the clock shows `now`. A thread that misses it at the deadline
    /// gives up; one that misses it before is listed and parks for as long as is left at `later`.
    pub fn lock_block_timeout_at(
        &mut self,
        thread: u64,
        now: Moment,
        later: Moment,
        deadline: Moment,
    ) -> (r: Progress<(), Option<Guard<T>>>)
        requires
            old(self).wf(),
        ensures
            final(self).wf(),
            block_timeout_pass(old(self)@, final(self)@, r, thread, now, later, deadline),
    {
        match self.try_lock() {
            Ok(guard) => Progress::Done(Some(guard)),
            Err(_) => if now.reached(deadline) {
                Progress::Done(None)
            } else {
                self.enqueue(thread);
                Progress::Pause((), Pause::ParkTimeout(later.until(deadline)))
            },
        }
    }

    /// One attempt at the lock; a thread that misses it is listed and parks until the deadline.
    pub fn lock_block_timeout(&mut self, thread: u64, deadline: web_time::Instant) -> (r: Progress<
        (),
        Option<Guard<T>>,
    >)
        requires
            old(self).wf(),
        ensures
            final(self).wf(),
            block_timeout_timed(old(self)@, final(self)@, r, thread, deadline),
    {
        let present = Moment { nanos: 0 };
        let reading = time::read();
        let due = time::moment(&reading, &deadline);
        if self.data_lock && !present.reached(due) {
            let again = time::read();
            let later = time::moment(&reading, &again);
            self.lock_block_timeout_at(thread, present, later, due)
        } else {
            self.lock_block_timeout_at(thread, present, present, due)
        }
    }

    /// One attempt at the lock; a task that misses it lists the continuation and awaits it.
    pub fn lock_async(&mut self, continuation: u64) -> (r: Progress<(), Guard<T>>)
        requires
            old(self).wf(),
        ensures
            final(self).wf(),
            lock_pass(
                old(self)@,
                final(self)@,
                r,
                old(self)@.queued_async(continuation),
                Pause::Await(continuation),
            ),
    {
        match self.try_lock() {
            Ok(guard) => Progress::Done(guard),
            Err(_) => {
                self.enqueue_async(continuation);
                Progress::Pause((), Pause::Await(continuation))
            },
        }
    }

    /// One attempt at the lock when the clock shows `now`, unless the deadline has won the race
    /// that the step before asked for. A task that misses the lock before the deadline lists the
    /// continuation and races it against the deadline.
    pub fn lock_async_timeout_at(
        &mut self,
        timed_out: bool,
        continuation: u64,
        now: Moment,
        deadline: Moment,
    ) -> (r: Progress<(), Option<Guard<T>>>)
        requires
            old(self).wf(),
        ensures
            final(self).wf(),
            async_timeout_pass(
                old(self)@,
                final(self)@,
                r,
                timed_out,
                continuation,
                now,
                deadline,
            ),
    {
        if timed_out {
            return Progress::Done(None);
        }
        match self.try_lock() {
            Ok(guard) => Progress::Done(Some(guard)),
            Err(_) => if now.reached(deadline) {
                Progress::Done(None)
            } else {
                self.enqueue_async(continuation);
                Progress::Pause((), Pause::Race(continuation))
            },
        }
    }

    /// One attempt at the lock, unless the deadline has won the race that the step before asked
    /// for.
    pub fn lock_async_timeout(
        &mut self,
        timed_out: bool,
        continuation: u64,
        deadline: web_time::Instant,
    ) -> (r: Progress<(), Option<Guard<T>>>)
        requires
            old(self).wf(),
        ensures
            final(self).wf(),
            async_timeout_timed(
                old(self)@,
                final(self)@,
                r,
                timed_out,
                continuation,
                deadline,
            ),
    {
        let due = time::due(!timed_out, &deadline);
        self.lock_async_timeout_at(timed_out, continuation, Moment { nanos: 0 }, due)
    }

    /// One attempt at the lock, in the way that the thread may wait: a thread that must not block
    /// spins.
    pub fn lock_sync(&mut self, caller: Caller) -> (r: Progress<(), Guard<T>>)
        requires
            old(self).wf(),
        ensures
            final(self).wf(),
            lock_pass(
                old(self)@,
                final(self)@,
                r,
                old(self)@.contended(caller),
                sync_pause(caller),
            ),
    {
        if caller.can_block {
            self.lock_block(caller.thread)
        } else {
            self.lock_spin()
        }
    }

    /// One attempt at the lock when the clock shows `now`, in the way that the thread may wait.
    pub fn lock_sync_timeout_at(
        &mut self,
        caller: Caller,
        now: Moment,
        later: Moment,
        deadline: Moment,
    ) -> (r: Progress<(), Option<Guard<T>>>)
        requires
            old(self).wf(),
        ensures
            final(self).wf(),
            sync_timeout_pass(old(self)@, final(self)@, r, caller, now, later, deadline),
    {
        if caller.can_block {
            self.lock_block_timeout_at(caller.thread, now, later, deadline)
        } else {
            self.lock_spin_timeout_at(now, deadline)
        }
    }

    /// One attempt at the lock until the deadline, in the way that the thread may wait.
    pub fn lock_sync_timeout(&mut self, caller: Caller, deadline: web_time::Instant) -> (r:
        Progress<(), Option<Guard<T>>>)
        requires
            old(self).wf(),
        ensures
            final(self).wf(),
            sync_timeout_timed(old(self)@, final(self)@, r, caller, deadline),
    {
        if caller.can_block {
            self.lock_block_timeout(caller.thread, deadline)
        } else {
            self.lock_spin_timeout(deadline)
        }
    }

    /// Whether the lock is out.
    pub(crate) fn is_taken(&self) -> (r: bool)
        requires
            self.wf(),
        ensures
            r == (self@.inner is None),
    {
        self.data_lock
    }

    /// Empties both waiting lists and asks for everybody on them to be woken.
    pub fn did_unlock(&mut self, wakes: &mut Vec<Wake>)
        requires
            old(self).lists_wf(),
        ensures
            final(self).lists_wf(),
            final(self).lock_wf() == old(self).lock_wf(),
            final(self)@ == old(self)@.drained(),
            final(wakes)@ == old(wakes)@ + old(self)@.waiters(),
    {
        let threads: Vec<u64> = self.waiting_sync_threads.critical(take_all);
        push_thread_wakes(&threads, wakes);
        let senders: Vec<u64> = self.waiting_async_threads.critical(take_all);
        push_continuation_wakes(&senders, wakes);
        assert(self@ =~= old(self)@.drained());
        assert(wakes@ =~= old(wakes)@ + old(self)@.waiters());
    }

    /// Gives the lock back, and the data with it, and asks for everybody who waits to be woken.
    pub fn unlock(&mut self, guard: Guard<T>, wakes: &mut Vec<Wake>)
        requires
            old(self).wf(),
            old(self)@.lent_to(guard),
        ensures
            final(self).wf(),
            final(self)@ == old(self)@.released(guard@).drained(),
            final(wakes)@ == old(wakes)@ + old(self)@.waiters(),
    {
        self.inner = Some(guard.into_data());
        self.data_lock = false;
        assert(self@ =~= old(self)@.released(guard@));
        self.did_unlock(wakes);
    }

    /// One attempt at the lock, in the way that the thread may wait, to run `f` on the data under
    /// it. A thread that misses the lock gets `f` back for the next attempt.
    pub fn with_sync<R, F: FnOnce(&T) -> R>(
        &mut self,
        caller: Caller,
        f: F,
        wakes: &mut Vec<Wake>,
    ) -> (r: Progress<F, R>)
        requires
            old(self).wf(),
            forall|data: &T| old(self)@.inner == Some(*data) ==> call_requires(f, (data,)),
        ensures
            final(self).wf(),
            final(wakes)@ == old(wakes)@,
            match old(self)@.inner {
                Some(value) => final(self)@ == old(self)@ && exists|x: R| #[trigger]
                    call_ensures(f, (&value,), x) && r == Progress::<F, R>::Done(x),
                None => final(self)@ == old(self)@.contended(caller) && r == Progress::<
                    F,
                    R,
                >::Pause(f, sync_pause(caller)),
            },
    {
        match self.lock_sync(caller) {
            Progress::Done(guard) => {
                let x = f(guard.get());
                self.unlock(guard, wakes);
                proof {
                    assert(self@ =~= old(self)@);
                    assert(wakes@ =~= old(wakes)@);
                }
                Progress::Done(x)
            },
            Progress::Pause(_, pause) => Progress::Pause(f, pause),
        }
    }

    /// One attempt at the lock, in the way that the thread may wait, to let `f` change the data
    /// under it. A thread that misses the lock gets `f` back for the next attempt.
    pub fn with_mut_sync<R, F: FnOnce(&mut T) -> R>(
        &mut self,
        caller: Caller,
        f: F,
        wakes: &mut Vec<Wake>,
    ) -> (r: Progress<F, R>)
        requires
            old(self).wf(),
            forall|data: &mut T| old(self)@.inner == Some(*data) ==> call_requires(f, (data,)),
        ensures
            final(self).wf(),
            final(wakes)@ == old(wakes)@,
            match old(self)@.inner {
                Some(value) => exists|data: &mut T, x: R|
                    *data == value && final(self)@ == old(self)@.released(*final(data))
                        && #[trigger] call_ensures(f, (data,), x) && r == Progress::<F, R>::Done(x),
                None => final(self)@ == old(self)@.contended(caller) && r == Progress::<
                    F,
                    R,
                >::Pause(f, sync_pause(caller)),
            },
    {
        match self.lock_sync(caller) {
            Progress::Done(mut guard) => {
                let data: &mut T = guard.get_mut();
                let x = f(data);
                self.unlock(guard, wakes);
                proof {
                    assert(self@ =~= old(self)@.released(guard@));
                    assert(wakes@ =~= old(wakes)@);
                }
                Progress::Done(x)
            },
            Progress::Pause(_, pause) => Progress::Pause(f, pause),
        }
    }

    /// One attempt at the lock to run `f` on the data under it. A task that misses the lock awaits
    /// the continuation and gets `f` back for the next attempt.
    pub fn with_async<R, F: FnOnce(&T) -> R>(
        &mut self,
        continuation: u64,
        f: F,
        wakes: &mut Vec<Wake>,
    ) -> (r: Progress<F, R>)
        requires
            old(self).wf(),
            forall|data: &T| old(self)@.inner == Some(*data) ==> call_requires(f, (data,)),
        ensures
            final(self).wf(),
            final(wakes)@ == old(wakes)@,
            match old(self)@.inner {
                Some(value) => final(self)@ == old(self)@ && exists|x: R| #[trigger]
                    call_ensures(f, (&value,), x) && r == Progress::<F, R>::Done(x),
                None => final(self)@ == old(self)@.queued_async(continuation) && r == Progress::<
                    F,
                    R,
                >::Pause(f, Pause::Await(continuation)),
            },
    {
        match self.lock_async(continuation) {
            Progress::Done(guard) => {
                let x = f(guard.get());
                self.unlock(guard, wakes);
                proof {
                    assert(self@ =~= old(self)@);
                    assert(wakes@ =~= old(wakes)@);
                }
                Progress::Done(x)
            },
            Progress::Pause(_, pause) => Progress::Pause(f, pause),
        }
    }

    /// One attempt at the lock to let `f` change the data under it. A task that misses the lock
    /// awaits the continuation and gets `f` back for the next attempt.
    pub fn with_mut_async<R, F: FnOnce(&mut T) -> R>(
        &mut self,
        continuation: u64,
        f: F,
        wakes: &mut Vec<Wake>,
    ) -> (r: Progress<F, R>)
        requires
            old(self).wf(),
            forall|data: &mut T| old(self)@.inner == Some(*data) ==> call_requires(f, (data,)),
        ensures
            final(self).wf(),
            final(wakes)@ == old(wakes)@,
            match old(self)@.inner {
                Some(value) => exists|data: &mut T, x: R|
                    *data == value && final(self)@ == old(self)@.released(*final(data))
                        && #[trigger] call_ensures(f, (data,), x) && r == Progress::<F, R>::Done(x),
                None => final(self)@ == old(self)@.queued_async(continuation) && r == Progress::<
                    F,
                    R,
                >::Pause(f, Pause::Await(continuation)),
            },
    {
        match self.lock_async(continuation) {
            Progress::Done(mut guard) => {
                let data: &mut T = guard.get_mut();
                let x = f(data);
                self.unlock(guard, wakes);
                proof {
                    assert(self@ =~= old(self)@.released(guard@));
                    assert(wakes@ =~= old(wakes)@);
                }
                Progress::Done(x)
            },
            Progress::Pause(_, pause) => Progress::Pause(f, pause),
        }
    }

    /// What the mutex is shown as: a free one as `show` gives its data, a locked one without.
    pub fn display<F: FnOnce(&T) -> String>(&mut self, show: F, wakes: &mut Vec<Wake>) -> (r:
        String)
        requires
            old(self).wf(),
            forall|data: &T| old(self)@.inner == Some(*data) ==> call_requires(show, (data,)),
        ensures
            final(self).wf(),
            final(self)@ == old(self)@,
            final(wakes)@ == old(wakes)@,
            match old(self)@.inner {
                Some(value) => call_ensures(show, (&value,), r),
                None => r@ == "Mutex { <locked> }"@,
            },
    {
        match self.try_lock() {
            Ok(guard) => {
                let shown = show(guard.get());
                self.unlock(guard, wakes);
                proof {
                    assert(self@ =~= old(self)@);
                    assert(wakes@ =~= old(wakes)@);
                }
                shown
            },
            Err(_) => LOCKED_TEXT.to_string(),
        }
    }
}

impl<T: Default> Default for Mutex<T> {
    fn default() -> (r: Self)
        ensures
            r.wf(),
            exists|value: T| #[trigger]
                call_ensures(T::default, (), value) && r@ == MutexView::holding(r@.id, value),
    {
        let value = T::default();
        Mutex::new(value)
    }
}

impl<T> From<T> for Mutex<T> {
    fn from(value: T) -> (r: Self)
        ensures
            r.wf(),
            r@ == MutexView::holding(r@.id, value),
    {
        Mutex::new(value)
    }
}

impl<T> vstd::std_specs::convert::FromSpecImpl<T> for Mutex<T> {
    open spec fn obeys_from_spec() -> bool {
        false
    }

    open spec fn from_spec(value: T) -> Self {
        arbitrary()
    }
}

} // verus!

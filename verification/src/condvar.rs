//! A condition variable that can be waited on by spinning, by blocking and by awaiting.
mod timeout;
mod timeout_while;
mod tried;
mod wait;
mod wait_while;

use crate::guard::Guard;
use crate::mutex::MutexView;
use crate::spinlock::Spinlock;
use crate::step::{pop_last, push_flag_wakes, push_thread_wakes, take_all, Progress, Wake};
use crate::wait_spec;
use crate::wait_spec::{CondvarView, Scene};
use vstd::prelude::*;

verus! {

/// An async task that waits.
#[derive(Debug, Clone, Copy, PartialEq, Eq, Structural)]
pub struct AsyncWaiter {
    /// The number by which the task finds itself among the waiting ones.
    pub id: u64,
    /// The continuation that the task awaits.
    pub sender: u64,
}

/// Where the numbers of async waiters come from.
#[derive(Debug)]
pub struct WaiterIds {
    next: u64,
}

impl WaiterIds {
    /// The number that is given out next.
    pub closed spec fn spec_next(&self) -> u64 {
        self.next
    }

    /// Numbers from zero on.
    pub fn new() -> (r: Self)
        ensures
            r.spec_next() == 0,
    {
        WaiterIds { next: 0 }
    }

    /// Gives out a number. After the largest one they start again at zero.
    pub fn take(&mut self) -> (r: u64)
        ensures
            r == old(self).spec_next(),
            final(self).spec_next() == wait_spec::id_after(r),
    {
        let id: u64 = self.next;
        self.next = id.wrapping_add(1);
        id
    }
}

/// Whether a wait ended because its deadline came.
#[derive(Debug, PartialEq, Eq, Copy, Clone, Hash, Default, Structural)]
pub struct WaitTimeoutResult(bool);

impl WaitTimeoutResult {
    /// Whether the deadline came.
    pub closed spec fn spec_timed_out(self) -> bool {
        self.0
    }

    fn new(timed_out: bool) -> (r: Self)
        ensures
            r.spec_timed_out() == timed_out,
    {
        WaitTimeoutResult(timed_out)
    }

    /// Whether the deadline came.
    pub fn timed_out(&self) -> (r: bool)
        ensures
            r == self.spec_timed_out(),
    {
        self.0
    }
}

/// Where a blocked wait is.
#[derive(Debug, Clone, Copy, PartialEq, Eq, Structural)]
pub enum BlockPhase {
    /// It takes the mutex again.
    Relock,
}

/// Where a spinning wait is.
#[derive(Debug, Clone, Copy, PartialEq, Eq, Structural)]
pub enum SpinPhase {
    /// It looks on this flag.
    Spinning(u64),
    /// It takes the mutex again.
    Relock,
}

/// Where a blocked wait with a deadline is.
#[derive(Debug, Clone, Copy, PartialEq, Eq, Structural)]
pub enum BlockTimeoutPhase {
    /// It looks at the clock.
    Tick,
    /// It has been parked.
    Parked,
    /// It takes the mutex again; whether it has timed out.
    Relock(bool),
}

/// Where a spinning wait with a deadline is.
#[derive(Debug, Clone, Copy, PartialEq, Eq, Structural)]
pub enum SpinTimeoutPhase {
    /// It looks on this flag and at the clock.
    Spinning(u64),
    /// It has been chosen by a notification and looks on this flag until that is raised.
    Handoff(u64),
    /// It takes the mutex again; whether it has timed out.
    Relock(bool),
}

/// Where a wait is, in the way in which the thread may wait.
#[derive(Debug, Clone, Copy, PartialEq, Eq, Structural)]
pub enum SyncPhase {
    Block(BlockPhase),
    Spin(SpinPhase),
}

/// Where a wait with a deadline is, in the way in which the thread may wait.
#[derive(Debug, Clone, Copy, PartialEq, Eq, Structural)]
pub enum SyncTimeoutPhase {
    Block(BlockTimeoutPhase),
    Spin(SpinTimeoutPhase),
}

/// Where an async wait is.
#[derive(Debug, Clone, Copy, PartialEq, Eq, Structural)]
pub enum AsyncPhase {
    /// It takes the mutex again.
    Relock,
}

/// Where an async wait with a deadline is.
#[derive(Debug, Clone, Copy, PartialEq, Eq, Structural)]
pub enum AsyncTimeoutPhase {
    /// It races its continuation against the deadline; the waiter has this number.
    Racing(u64),
    /// It takes the mutex again; whether it has timed out.
    Relock(bool),
}

impl BlockTimeoutPhase {
    /// Whether the clock is read in this phase.
    pub(crate) fn reads_clock(&self) -> (r: bool)
        ensures
            r == wait_spec::block_timeout_reads(*self),
    {
        matches!(self, BlockTimeoutPhase::Tick)
    }
}

impl SpinTimeoutPhase {
    /// Whether the clock is read in this phase.
    pub(crate) fn reads_clock(&self, raised: bool) -> (r: bool)
        ensures
            r == wait_spec::spin_timeout_reads(*self, raised),
    {
        matches!(self, SpinTimeoutPhase::Spinning(_)) && !raised
    }
}

impl SyncTimeoutPhase {
    /// Whether the clock is read in this phase.
    pub(crate) fn reads_clock(&self, raised: bool) -> (r: bool)
        ensures
            r == wait_spec::sync_timeout_reads(*self, raised),
    {
        match self {
            SyncTimeoutPhase::Block(phase) => phase.reads_clock(),
            SyncTimeoutPhase::Spin(phase) => phase.reads_clock(raised),
        }
    }
}

/// What follows from a step of a wait whose condition has to be tried when the mutex is in hand.
pub enum Turn<P, T, R> {
    /// The condition is to be tried on the data of the guard.
    Try(Guard<T>),
    /// There is nothing to try: the wait goes on or is over.
    Settled(Progress<P, R>),
}

/// What follows from a step of a wait: a wait that has come to an end has its condition tried.
pub fn turn<P, T>(progress: Progress<P, Guard<T>>) -> (r: Turn<P, T, Guard<T>>)
    ensures
        r == match progress {
            Progress::Done(guard) => Turn::<P, T, Guard<T>>::Try(guard),
            Progress::Pause(phase, pause) => Turn::Settled(Progress::Pause(phase, pause)),
        },
{
    match progress {
        Progress::Done(guard) => Turn::Try(guard),
        Progress::Pause(phase, pause) => Turn::Settled(Progress::Pause(phase, pause)),
    }
}

/// What follows from a step of a wait with a deadline: a wait that has come to an end has its
/// condition tried, unless it has timed out.
pub fn timed_turn<P, T>(progress: Progress<P, (Guard<T>, WaitTimeoutResult)>) -> (r: Turn<
    P,
    T,
    (Guard<T>, WaitTimeoutResult),
>)
    ensures
        r == match progress {
            Progress::Done((guard, result)) => if result.spec_timed_out() {
                Turn::Settled(Progress::Done((guard, result)))
            } else {
                Turn::Try(guard)
            },
            Progress::Pause(phase, pause) => Turn::Settled(Progress::Pause(phase, pause)),
        },
{
    match progress {
        Progress::Done((guard, result)) => if result.timed_out() {
            Turn::Settled(Progress::Done((guard, result)))
        } else {
            Turn::Try(guard)
        },
        Progress::Pause(phase, pause) => Turn::Settled(Progress::Pause(phase, pause)),
    }
}

/// All that a wait works on.
pub open spec fn scene<T>(condvar: CondvarView, mutex: MutexView<T>, wakes: Seq<Wake>) -> Scene<T> {
    Scene { condvar, mutex, wakes }
}

/// Whether `id` is in `list`, and where first.
fn position(list: &Vec<u64>, id: u64) -> (r: Option<usize>)
    ensures
        match r {
            Some(position) => list@.index_of_first(id) == Some(position as int) && list@.contains(
                id,
            ) && position < list@.len(),
            None => !list@.contains(id) && list@.index_of_first(id) is None,
        },
{
    proof {
        list@.index_of_first_ensures(id);
    }
    let mut i: usize = 0;
    while i < list.len()
        invariant
            i <= list@.len(),
            forall|j: int| 0 <= j < i ==> list@[j] != id,
            match list@.index_of_first(id) {
                Some(index) => list@.contains(id) && 0 <= index < list@.len() && list@[index] == id
                    && forall|j: int| 0 <= j < index < list@.len() ==> list@[j] != id,
                None => !list@.contains(id),
            },
        decreases list@.len() - i,
    {
        if list[i] == id {
            assert(list@.contains(id));
            return Some(i);
        }
        i += 1;
    }
    None
}

/// Takes the earliest entry of `id` off `list`. Whether there was one.
fn withdraw(list: &mut Vec<u64>, id: u64) -> (r: bool)
    ensures
        r == old(list)@.contains(id),
        final(list)@ == old(list)@.remove_value(id),
{
    match position(list, id) {
        Some(position) => {
            let _: u64 = list.remove(position);
            true
        },
        None => false,
    }
}

/// The earliest waiter with number `id`, if there is one, has been taken off.
spec fn waiter_withdrawn(
    pre: Seq<AsyncWaiter>,
    post: Seq<AsyncWaiter>,
    id: u64,
    r: Option<AsyncWaiter>,
) -> bool {
    match wait_spec::waiter_ids(pre).index_of_first(id) {
        Some(position) => r == Some(pre[position]) && post == pre.remove(position),
        None => r is None && post == pre,
    }
}

/// Takes the earliest waiter with number `id` off `waiters`.
fn withdraw_waiter(waiters: &mut Vec<AsyncWaiter>, id: u64) -> (r: Option<AsyncWaiter>)
    ensures
        waiter_withdrawn(old(waiters)@, final(waiters)@, id, r),
{
    let ghost ids = wait_spec::waiter_ids(waiters@);
    proof {
        ids.index_of_first_ensures(id);
    }
    let mut i: usize = 0;
    while i < waiters.len()
        invariant
            i <= waiters@.len(),
            waiters@ == old(waiters)@,
            ids == wait_spec::waiter_ids(waiters@),
            forall|j: int| 0 <= j < i ==> ids[j] != id,
            match ids.index_of_first(id) {
                Some(index) => ids.contains(id) && 0 <= index < ids.len() && ids[index] == id
                    && forall|j: int| 0 <= j < index < ids.len() ==> ids[j] != id,
                None => !ids.contains(id),
            },
        decreases waiters@.len() - i,
    {
        if waiters[i].id == id {
            assert(ids[i as int] == id);
            assert(ids.contains(id));
            return Some(waiters.remove(i));
        }
        i += 1;
    }
    None
}

/// Appends the completions of `waiters` to `wakes`.
fn push_waiter_wakes(waiters: &Vec<AsyncWaiter>, wakes: &mut Vec<Wake>)
    ensures
        final(wakes)@ == old(wakes)@ + wait_spec::waiter_wakes(waiters@),
{
    let mut i: usize = 0;
    while i < waiters.len()
        invariant
            i <= waiters@.len(),
            wakes@ == old(wakes)@ + wait_spec::waiter_wakes(waiters@.take(i as int)),
        decreases waiters@.len() - i,
    {
        proof {
            assert(waiters@.take(i + 1) =~= waiters@.take(i as int).push(waiters@[i as int]));
        }
        wakes.push(Wake::Continuation(waiters[i].sender));
        assert(wakes@ =~= old(wakes)@ + wait_spec::waiter_wakes(waiters@.take(i + 1)));
        i += 1;
    }
    assert(waiters@.take(i as int) =~= waiters@);
}

/// Callers that wait for each other's notifications.
#[derive(Debug)]
pub struct Condvar {
    waiting_sync_threads: Spinlock<Vec<u64>>,
    waiting_async_threads: Spinlock<Vec<AsyncWaiter>>,
    waiting_spin_threads: Spinlock<Vec<u64>>,
}

impl View for Condvar {
    type V = CondvarView;

    closed spec fn view(&self) -> CondvarView {
        CondvarView {
            spin: self.waiting_spin_threads@@,
            sync: self.waiting_sync_threads@@,
            asynch: self.waiting_async_threads@@,
        }
    }
}

impl Condvar {
    /// The waiting lists are left in order.
    pub closed spec fn wf(&self) -> bool {
        &&& !self.waiting_sync_threads.is_locked()
        &&& !self.waiting_async_threads.is_locked()
        &&& !self.waiting_spin_threads.is_locked()
    }

    /// A condition variable on which nobody waits.
    pub fn new() -> (r: Self)
        ensures
            r.wf(),
            r@ == CondvarView::idle(),
    {
        let r = Condvar {
            waiting_sync_threads: Spinlock::new(Vec::new()),
            waiting_async_threads: Spinlock::new(Vec::new()),
            waiting_spin_threads: Spinlock::new(Vec::new()),
        };
        assert(r@ =~= CondvarView::idle());
        r
    }

    /// Takes one waiter off and asks for it to be woken, if anybody waits.
    pub fn notify_one(&mut self, wakes: &mut Vec<Wake>)
        requires
            old(self).wf(),
        ensures
            final(self).wf(),
            final(self)@ == old(self)@.after_one(),
            final(wakes)@ == old(wakes)@ + old(self)@.next_woken(),
    {
        let flag: Option<u64> = self.waiting_spin_threads.critical(pop_last);
        if let Some(flag) = flag {
            wakes.push(Wake::Flag(flag));
            assert(self@ =~= old(self)@.after_one());
            assert(wakes@ =~= old(wakes)@ + old(self)@.next_woken());
            return ;
        }
        let thread: Option<u64> = self.waiting_sync_threads.critical(pop_last);
        if let Some(thread) = thread {
            wakes.push(Wake::Thread(thread));
            assert(self@ =~= old(self)@.after_one());
            assert(wakes@ =~= old(wakes)@ + old(self)@.next_woken());
            return ;
        }
        let waiter: Option<AsyncWaiter> = self.waiting_async_threads.critical(pop_last);
        if let Some(waiter) = waiter {
            wakes.push(Wake::Continuation(waiter.sender));
        }
        assert(self@ =~= old(self)@.after_one());
        assert(wakes@ =~= old(wakes)@ + old(self)@.next_woken());
    }

    /// Takes all waiters off and asks for them to be woken.
    pub fn notify_all(&mut self, wakes: &mut Vec<Wake>)
        requires
            old(self).wf(),
        ensures
            final(self).wf(),
            final(self)@ == CondvarView::idle(),
            final(wakes)@ == old(wakes)@ + old(self)@.waiters(),
    {
        let flags: Vec<u64> = self.waiting_spin_threads.critical(take_all);
        push_flag_wakes(&flags, wakes);
        let threads: Vec<u64> = self.waiting_sync_threads.critical(take_all);
        push_thread_wakes(&threads, wakes);
        let waiters: Vec<AsyncWaiter> = self.waiting_async_threads.critical(take_all);
        push_waiter_wakes(&waiters, wakes);
        assert(self@ =~= CondvarView::idle());
        assert(wakes@ =~= old(wakes)@ + old(self)@.waiters());
    }

    /// Lists a thread.
    fn register_sync(&mut self, thread: u64)
        requires
            old(self).wf(),
        ensures
            final(self).wf(),
            final(self)@ == old(self)@.with_sync(thread),
    {
        self.waiting_sync_threads.critical(
            |threads: &mut Vec<u64>|
                ensures
                    final(threads)@ == old(threads)@.push(thread)
                {
                    threads.push(thread);
                },
        );
        assert(self@ =~= old(self)@.with_sync(thread));
    }

    /// Lists a flag.
    fn register_spin(&mut self, flag: u64)
        requires
            old(self).wf(),
        ensures
            final(self).wf(),
            final(self)@ == old(self)@.with_spin(flag),
    {
        self.waiting_spin_threads.critical(
            |flags: &mut Vec<u64>|
                ensures
                    final(flags)@ == old(flags)@.push(flag)
                {
                    flags.push(flag);
                },
        );
        assert(self@ =~= old(self)@.with_spin(flag));
    }

    /// Lists an async task.
    fn register_async(&mut self, waiter: AsyncWaiter)
        requires
            old(self).wf(),
        ensures
            final(self).wf(),
            final(self)@ == old(self)@.with_async(waiter),
    {
        self.waiting_async_threads.critical(
            |waiters: &mut Vec<AsyncWaiter>|
                ensures
                    final(waiters)@ == old(waiters)@.push(waiter)
                {
                    waiters.push(waiter);
                },
        );
        assert(self@ =~= old(self)@.with_async(waiter));
    }

    /// Takes the earliest entry of a thread off. Whether there was one.
    fn withdraw_sync(&mut self, thread: u64) -> (r: bool)
        requires
            old(self).wf(),
        ensures
            final(self).wf(),
            final(self)@ == old(self)@.without_sync(thread),
            r == old(self)@.sync.contains(thread),
    {
        let listed: bool = self.waiting_sync_threads.critical(
            |threads: &mut Vec<u64>| -> (b: bool)
                ensures
                    b == old(threads)@.contains(thread),
                    final(threads)@ == old(threads)@.remove_value(thread)
                { withdraw(threads, thread) },
        );
        assert(self@ =~= old(self)@.without_sync(thread));
        listed
    }

    /// Whether a thread is listed.
    fn is_listed(&mut self, thread: u64) -> (r: bool)
        requires
            old(self).wf(),
        ensures
            final(self).wf(),
            final(self)@ == old(self)@,
            r == old(self)@.sync.contains(thread),
    {
        let listed: bool = self.waiting_sync_threads.critical(
            |threads: &mut Vec<u64>| -> (b: bool)
                ensures
                    b == old(threads)@.contains(thread),
                    final(threads)@ == old(threads)@
                { position(threads, thread).is_some() },
        );
        assert(self@ =~= old(self)@);
        listed
    }

    /// Takes the earliest entry of a flag off. Whether there was one.
    fn withdraw_spin(&mut self, flag: u64) -> (r: bool)
        requires
            old(self).wf(),
        ensures
            final(self).wf(),
            final(self)@ == old(self)@.without_spin(flag),
            r == old(self)@.spin.contains(flag),
    {
        let listed: bool = self.waiting_spin_threads.critical(
            |flags: &mut Vec<u64>| -> (b: bool)
                ensures
                    b == old(flags)@.contains(flag),
                    final(flags)@ == old(flags)@.remove_value(flag)
                { withdraw(flags, flag) },
        );
        assert(self@ =~= old(self)@.without_spin(flag));
        listed
    }

    /// Takes the earliest async task with the number `id` off and completes its continuation.
    fn withdraw_async(&mut self, id: u64, wakes: &mut Vec<Wake>)
        requires
            old(self).wf(),
        ensures
            final(self).wf(),
            final(self)@ == old(self)@.without_async(id),
            final(wakes)@ == old(wakes)@ + old(self)@.async_wakes(id),
    {
        let waiter: Option<AsyncWaiter> = self.waiting_async_threads.critical(
            |waiters: &mut Vec<AsyncWaiter>| -> (w: Option<AsyncWaiter>)
                ensures
                    waiter_withdrawn(old(waiters)@, final(waiters)@, id, w)
                { withdraw_waiter(waiters, id) },
        );
        if let Some(waiter) = waiter {
            wakes.push(Wake::Continuation(waiter.sender));
        }
        assert(self@ =~= old(self)@.without_async(id));
        assert(wakes@ =~= old(wakes)@ + old(self)@.async_wakes(id));
    }
}

impl Default for Condvar {
    fn default() -> (r: Self)
        ensures
            r.wf(),
            r@ == CondvarView::idle(),
    {
        Condvar::new()
    }
}

} // verus!

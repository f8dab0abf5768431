//! Waiting until a deadline.
use super::{
    scene, AsyncTimeoutPhase, AsyncWaiter, BlockTimeoutPhase, Condvar, SpinTimeoutPhase,
    SyncTimeoutPhase, WaitTimeoutResult, WaiterIds,
};
use crate::guard::Guard;
use crate::mutex::Mutex;
use crate::step::{Call, Caller, Pause, Progress, Wake};
use crate::time;
use crate::time::Moment;
use crate::wait_spec;
use vstd::prelude::*;

verus! {

/// A thread's attempt to take the mutex again after a wait with a deadline.
fn timed_relock_sync<T, P>(mutex: &mut Mutex<T>, caller: Caller, timed_out: bool, again: P) -> (r:
    Progress<P, (Guard<T>, WaitTimeoutResult)>)
    requires
        old(mutex).wf(),
    ensures
        final(mutex).wf(),
        match old(mutex)@.inner {
            Some(value) => final(mutex)@ == old(mutex)@.taken() && (r matches Progress::Done(
                (guard, result),
            ) && guard@ == value && guard.id() == old(mutex)@.id && result.spec_timed_out()
                == timed_out),
            None => final(mutex)@ == old(mutex)@.contended(caller) && r == Progress::<
                P,
                (Guard<T>, WaitTimeoutResult),
            >::Pause(again, crate::mutex::sync_pause(caller)),
        },
{
    match mutex.lock_sync(caller) {
        Progress::Done(guard) => Progress::Done((guard, WaitTimeoutResult::new(timed_out))),
        Progress::Pause(_, pause) => Progress::Pause(again, pause),
    }
}

/// A blocked wait's progress until a deadline, in the way that the thread may wait.
fn timed_blocking<R>(progress: Progress<BlockTimeoutPhase, R>) -> (r: Progress<SyncTimeoutPhase, R>)
    ensures
        r == match progress {
            Progress::Done(done) => Progress::Done(done),
            Progress::Pause(phase, pause) => Progress::Pause(SyncTimeoutPhase::Block(phase), pause),
        },
{
    match progress {
        Progress::Done(done) => Progress::Done(done),
        Progress::Pause(phase, pause) => Progress::Pause(SyncTimeoutPhase::Block(phase), pause),
    }
}

/// A spinning wait's progress until a deadline, in the way that the thread may wait.
fn timed_spinning<R>(progress: Progress<SpinTimeoutPhase, R>) -> (r: Progress<SyncTimeoutPhase, R>)
    ensures
        r == match progress {
            Progress::Done(done) => Progress::Done(done),
            Progress::Pause(phase, pause) => Progress::Pause(SyncTimeoutPhase::Spin(phase), pause),
        },
{
    match progress {
        Progress::Done(done) => Progress::Done(done),
        Progress::Pause(phase, pause) => Progress::Pause(SyncTimeoutPhase::Spin(phase), pause),
    }
}

impl Condvar {
    /// Lists the thread and gives the mutex back.
    pub(crate) fn start_block_timeout<T>(
        &mut self,
        mutex: &mut Mutex<T>,
        guard: Guard<T>,
        caller: Caller,
        wakes: &mut Vec<Wake>,
    ) -> (r: (BlockTimeoutPhase, Pause))
        requires
            old(self).wf(),
            old(mutex).wf(),
            old(mutex)@.lent_to(guard),
        ensures
            final(self).wf(),
            final(mutex).wf(),
            scene(final(self)@, final(mutex)@, final(wakes)@) == scene(
                old(self)@,
                old(mutex)@,
                old(wakes)@,
            ).given_back(guard@).with_condvar(old(self)@.with_sync(caller.thread)),
            r == (BlockTimeoutPhase::Tick, Pause::Yield),
    {
        self.register_sync(caller.thread);
        mutex.unlock(guard, wakes);
        (BlockTimeoutPhase::Tick, Pause::Yield)
    }

    /// Lists the flag and gives the mutex back.
    pub(crate) fn start_spin_timeout<T>(
        &mut self,
        mutex: &mut Mutex<T>,
        guard: Guard<T>,
        flag: u64,
        wakes: &mut Vec<Wake>,
    ) -> (r: (SpinTimeoutPhase, Pause))
        requires
            old(self).wf(),
            old(mutex).wf(),
            old(mutex)@.lent_to(guard),
        ensures
            final(self).wf(),
            final(mutex).wf(),
            scene(final(self)@, final(mutex)@, final(wakes)@) == scene(
                old(self)@,
                old(mutex)@,
                old(wakes)@,
            ).given_back(guard@).with_condvar(old(self)@.with_spin(flag)),
            r == (SpinTimeoutPhase::Spinning(flag), Pause::Yield),
    {
        self.register_spin(flag);
        mutex.unlock(guard, wakes);
        (SpinTimeoutPhase::Spinning(flag), Pause::Yield)
    }

    /// Starts to wait until a deadline in the way that the thread may wait.
    pub(crate) fn start_sync_timeout<T>(
        &mut self,
        mutex: &mut Mutex<T>,
        guard: Guard<T>,
        flag: u64,
        caller: Caller,
        wakes: &mut Vec<Wake>,
    ) -> (r: (SyncTimeoutPhase, Pause))
        requires
            old(self).wf(),
            old(mutex).wf(),
            old(mutex)@.lent_to(guard),
        ensures
            final(self).wf(),
            final(mutex).wf(),
            scene(final(self)@, final(mutex)@, final(wakes)@) == scene(
                old(self)@,
                old(mutex)@,
                old(wakes)@,
            ).given_back(guard@).with_condvar(old(self)@.with_caller(caller, flag)),
            r == (wait_spec::first_sync_timeout_phase(caller, flag), Pause::Yield),
    {
        if caller.can_block {
            let (phase, pause) = self.start_block_timeout(mutex, guard, caller, wakes);
            (SyncTimeoutPhase::Block(phase), pause)
        } else {
            let (phase, pause) = self.start_spin_timeout(mutex, guard, flag, wakes);
            (SyncTimeoutPhase::Spin(phase), pause)
        }
    }

    /// Lists the task under a new number, gives the mutex back and races the continuation against
    /// the deadline.
    pub(crate) fn start_async_timeout<T>(
        &mut self,
        mutex: &mut Mutex<T>,
        guard: Guard<T>,
        ids: &mut WaiterIds,
        continuation: u64,
        wakes: &mut Vec<Wake>,
    ) -> (r: (AsyncTimeoutPhase, Pause))
        requires
            old(self).wf(),
            old(mutex).wf(),
            old(mutex)@.lent_to(guard),
        ensures
            final(self).wf(),
            final(mutex).wf(),
            scene(final(self)@, final(mutex)@, final(wakes)@) == scene(
                old(self)@,
                old(mutex)@,
                old(wakes)@,
            ).given_back(guard@).with_condvar(old(self)@.with_async(
                AsyncWaiter { id: old(ids).spec_next(), sender: continuation },
            )),
            r == (AsyncTimeoutPhase::Racing(old(ids).spec_next()), Pause::Race(continuation)),
            final(ids).spec_next() == wait_spec::id_after(old(ids).spec_next()),
    {
        let id: u64 = ids.take();
        self.register_async(AsyncWaiter { id, sender: continuation });
        mutex.unlock(guard, wakes);
        (AsyncTimeoutPhase::Racing(id), Pause::Race(continuation))
    }

    /// A step of a wait that blocks until a deadline, when the clock shows `now`.
    pub fn wait_block_timeout_at<T>(
        &mut self,
        mutex: &mut Mutex<T>,
        call: Call<Guard<T>, BlockTimeoutPhase>,
        caller: Caller,
        now: Moment,
        deadline: Moment,
        wakes: &mut Vec<Wake>,
    ) -> (r: Progress<BlockTimeoutPhase, (Guard<T>, WaitTimeoutResult)>)
        requires
            old(self).wf(),
            old(mutex).wf(),
            call matches Call::Start(guard) ==> old(mutex)@.lent_to(guard),
        ensures
            final(self).wf(),
            final(mutex).wf(),
            wait_spec::block_timeout_step(
                scene(old(self)@, old(mutex)@, old(wakes)@),
                scene(final(self)@, final(mutex)@, final(wakes)@),
                call,
                caller,
                now,
                deadline,
                r,
            ),
    {
        let timed_out: bool = match call {
            Call::Start(guard) => {
                let (phase, pause) = self.start_block_timeout(mutex, guard, caller, wakes);
                return Progress::Pause(phase, pause);
            },
            Call::Resume(BlockTimeoutPhase::Tick) => {
                if !now.reached(deadline) {
                    let left: u128 = now.until(deadline);
                    return Progress::Pause(BlockTimeoutPhase::Parked, Pause::ParkTimeout(left));
                }
                self.withdraw_sync(caller.thread)
            },
            Call::Resume(BlockTimeoutPhase::Parked) => {
                if self.is_listed(caller.thread) {
                    return Progress::Pause(BlockTimeoutPhase::Tick, Pause::Yield);
                }
                false
            },
            Call::Resume(BlockTimeoutPhase::Relock(timed_out)) => timed_out,
        };
        timed_relock_sync(mutex, caller, timed_out, BlockTimeoutPhase::Relock(timed_out))
    }

    /// A step of a wait that blocks until a deadline. The first one lists the thread and gives the
    /// mutex back; the later ones park until a notification has taken the thread off the list or
    /// the deadline has come, and then take the mutex again.
    pub fn wait_block_timeout<T>(
        &mut self,
        mutex: &mut Mutex<T>,
        call: Call<Guard<T>, BlockTimeoutPhase>,
        caller: Caller,
        deadline: web_time::Instant,
        wakes: &mut Vec<Wake>,
    ) -> (r: Progress<BlockTimeoutPhase, (Guard<T>, WaitTimeoutResult)>)
        requires
            old(self).wf(),
            old(mutex).wf(),
            call matches Call::Start(guard) ==> old(mutex)@.lent_to(guard),
        ensures
            final(self).wf(),
            final(mutex).wf(),
            wait_spec::block_timeout_timed(
                scene(old(self)@, old(mutex)@, old(wakes)@),
                scene(final(self)@, final(mutex)@, final(wakes)@),
                call,
                caller,
                deadline,
                r,
            ),
    {
        let reads: bool = match &call {
            Call::Start(_) => false,
            Call::Resume(phase) => phase.reads_clock(),
        };
        let due = time::due(reads, &deadline);
        let present = Moment { nanos: 0 };
        self.wait_block_timeout_at(mutex, call, caller, present, due, wakes)
    }

    /// A step of a wait that spins until a deadline, when the clock shows `now`.
    pub fn wait_spin_timeout_at<T>(
        &mut self,
        mutex: &mut Mutex<T>,
        call: Call<Guard<T>, SpinTimeoutPhase>,
        flag: u64,
        raised: bool,
        caller: Caller,
        now: Moment,
        deadline: Moment,
        wakes: &mut Vec<Wake>,
    ) -> (r: Progress<SpinTimeoutPhase, (Guard<T>, WaitTimeoutResult)>)
        requires
            old(self).wf(),
            old(mutex).wf(),
            call matches Call::Start(guard) ==> old(mutex)@.lent_to(guard),
        ensures
            final(self).wf(),
            final(mutex).wf(),
            wait_spec::spin_timeout_step(
                scene(old(self)@, old(mutex)@, old(wakes)@),
                scene(final(self)@, final(mutex)@, final(wakes)@),
                call,
                flag,
                raised,
                caller,
                now,
                deadline,
                r,
            ),
    {
        let timed_out: bool = match call {
            Call::Start(guard) => {
                let (phase, pause) = self.start_spin_timeout(mutex, guard, flag, wakes);
                return Progress::Pause(phase, pause);
            },
            Call::Resume(SpinTimeoutPhase::Spinning(flag)) => if raised {
                false
            } else if !now.reached(deadline) {
                return Progress::Pause(SpinTimeoutPhase::Spinning(flag), Pause::SpinLoop);
            } else if self.withdraw_spin(flag) {
                true
            } else {
                return Progress::Pause(SpinTimeoutPhase::Handoff(flag), Pause::Yield);
            },
            Call::Resume(SpinTimeoutPhase::Handoff(flag)) => if raised {
                false
            } else {
                return Progress::Pause(SpinTimeoutPhase::Handoff(flag), Pause::SpinLoop);
            },
            Call::Resume(SpinTimeoutPhase::Relock(timed_out)) => timed_out,
        };
        timed_relock_sync(mutex, caller, timed_out, SpinTimeoutPhase::Relock(timed_out))
    }

    /// A step of a wait that spins until a deadline. The first one lists the flag and gives the
    /// mutex back; the later ones are told whether the flag is raised, and take the mutex again
    /// once it is or once the deadline has come.
    pub fn wait_spin_timeout<T>(
        &mut self,
        mutex: &mut Mutex<T>,
        call: Call<Guard<T>, SpinTimeoutPhase>,
        flag: u64,
        raised: bool,
        caller: Caller,
        deadline: web_time::Instant,
        wakes: &mut Vec<Wake>,
    ) -> (r: Progress<SpinTimeoutPhase, (Guard<T>, WaitTimeoutResult)>)
        requires
            old(self).wf(),
            old(mutex).wf(),
            call matches Call::Start(guard) ==> old(mutex)@.lent_to(guard),
        ensures
            final(self).wf(),
            final(mutex).wf(),
            wait_spec::spin_timeout_timed(
                scene(old(self)@, old(mutex)@, old(wakes)@),
                scene(final(self)@, final(mutex)@, final(wakes)@),
                call,
                flag,
                raised,
                caller,
                deadline,
                r,
            ),
    {
        let reads: bool = match &call {
            Call::Start(_) => false,
            Call::Resume(phase) => phase.reads_clock(raised),
        };
        let due = time::due(reads, &deadline);
        let present = Moment { nanos: 0 };
        self.wait_spin_timeout_at(mutex, call, flag, raised, caller, present, due, wakes)
    }

    /// A step of a wait until a deadline, in the way that the thread may wait, when the clock shows
    /// `now`.
    pub fn wait_sync_timeout_at<T>(
        &mut self,
        mutex: &mut Mutex<T>,
        call: Call<Guard<T>, SyncTimeoutPhase>,
        flag: u64,
        raised: bool,
        caller: Caller,
        now: Moment,
        deadline: Moment,
        wakes: &mut Vec<Wake>,
    ) -> (r: Progress<SyncTimeoutPhase, (Guard<T>, WaitTimeoutResult)>)
        requires
            old(self).wf(),
            old(mutex).wf(),
            call matches Call::Start(guard) ==> old(mutex)@.lent_to(guard),
        ensures
            final(self).wf(),
            final(mutex).wf(),
            wait_spec::sync_timeout_step(
                scene(old(self)@, old(mutex)@, old(wakes)@),
                scene(final(self)@, final(mutex)@, final(wakes)@),
                call,
                flag,
                raised,
                caller,
                now,
                deadline,
                r,
            ),
    {
        match call {
            Call::Start(guard) => {
                let (phase, pause) = self.start_sync_timeout(mutex, guard, flag, caller, wakes);
                Progress::Pause(phase, pause)
            },
            Call::Resume(SyncTimeoutPhase::Block(phase)) => timed_blocking(
                self.wait_block_timeout_at(
                    mutex,
                    Call::Resume(phase),
                    caller,
                    now,
                    deadline,
                    wakes,
                ),
            ),
            Call::Resume(SyncTimeoutPhase::Spin(phase)) => timed_spinning(
                self.wait_spin_timeout_at(
                    mutex,
                    Call::Resume(phase),
                    flag,
                    raised,
                    caller,
                    now,
                    deadline,
                    wakes,
                ),
            ),
        }
    }

    /// A step of a wait until a deadline, in the way that the thread may wait: one that must not
    /// block spins.
    pub fn wait_sync_timeout<T>(
        &mut self,
        mutex: &mut Mutex<T>,
        call: Call<Guard<T>, SyncTimeoutPhase>,
        flag: u64,
        raised: bool,
        caller: Caller,
        deadline: web_time::Instant,
        wakes: &mut Vec<Wake>,
    ) -> (r: Progress<SyncTimeoutPhase, (Guard<T>, WaitTimeoutResult)>)
        requires
            old(self).wf(),
            old(mutex).wf(),
            call matches Call::Start(guard) ==> old(mutex)@.lent_to(guard),
        ensures
            final(self).wf(),
            final(mutex).wf(),
            wait_spec::sync_timeout_timed(
                scene(old(self)@, old(mutex)@, old(wakes)@),
                scene(final(self)@, final(mutex)@, final(wakes)@),
                call,
                flag,
                raised,
                caller,
                deadline,
                r,
            ),
    {
        let reads: bool = match &call {
            Call::Start(_) => false,
            Call::Resume(phase) => phase.reads_clock(raised),
        };
        let due = time::due(reads, &deadline);
        let present = Moment { nanos: 0 };
        self.wait_sync_timeout_at(mutex, call, flag, raised, caller, present, due, wakes)
    }

    /// A step of an async wait until a deadline. The first one lists the task under a new number,
    /// gives the mutex back and races the continuation against the deadline; the next one is told
    /// whether the deadline won, and takes the task off the list then; all but the first take the
    /// mutex again.
    pub fn wait_async_timeout<T>(
        &mut self,
        mutex: &mut Mutex<T>,
        call: Call<Guard<T>, AsyncTimeoutPhase>,
        ids: &mut WaiterIds,
        timed_out: bool,
        continuation: u64,
        wakes: &mut Vec<Wake>,
    ) -> (r: Progress<AsyncTimeoutPhase, (Guard<T>, WaitTimeoutResult)>)
        requires
            old(self).wf(),
            old(mutex).wf(),
            call matches Call::Start(guard) ==> old(mutex)@.lent_to(guard),
        ensures
            final(self).wf(),
            final(mutex).wf(),
            wait_spec::async_timeout_step(
                scene(old(self)@, old(mutex)@, old(wakes)@),
                scene(final(self)@, final(mutex)@, final(wakes)@),
                call,
                old(ids).spec_next(),
                final(ids).spec_next(),
                timed_out,
                continuation,
                r,
            ),
    {
        let timed_out: bool = match call {
            Call::Start(guard) => {
                let (phase, pause) = self.start_async_timeout(
                    mutex,
                    guard,
                    ids,
                    continuation,
                    wakes,
                );
                return Progress::Pause(phase, pause);
            },
            Call::Resume(AsyncTimeoutPhase::Racing(id)) => {
                if timed_out {
                    self.withdraw_async(id, wakes);
                }
                timed_out
            },
            Call::Resume(AsyncTimeoutPhase::Relock(timed_out)) => timed_out,
        };
        assert(wakes@ =~= old(wakes)@ + wait_spec::async_timeout_wakes(
            old(self)@,
            call->Resume_0,
            timed_out,
        ));
        match mutex.lock_async(continuation) {
            Progress::Done(guard) => Progress::Done((guard, WaitTimeoutResult::new(timed_out))),
            Progress::Pause(_, pause) => Progress::Pause(
                AsyncTimeoutPhase::Relock(timed_out),
                pause,
            ),
        }
    }
}

} // verus!

//! Waiting without a deadline.
use super::{
    scene, AsyncPhase, AsyncWaiter, BlockPhase, Condvar, SpinPhase, SyncPhase, WaiterIds,
};
use crate::guard::Guard;
use crate::mutex::Mutex;
use crate::step::{Call, Caller, Pause, Progress, Wake};
use crate::wait_spec;
use vstd::prelude::*;

verus! {

/// A thread's attempt to take the mutex again, which leaves the wait in phase `again` if it misses.
fn relock_sync<T, P>(mutex: &mut Mutex<T>, caller: Caller, again: P) -> (r: Progress<P, Guard<T>>)
    requires
        old(mutex).wf(),
    ensures
        final(mutex).wf(),
        match old(mutex)@.inner {
            Some(value) => final(mutex)@ == old(mutex)@.taken() && (r matches Progress::Done(guard)
                && guard@ == value && guard.id() == old(mutex)@.id),
            None => final(mutex)@ == old(mutex)@.contended(caller) && r == Progress::<
                P,
                Guard<T>,
            >::Pause(again, crate::mutex::sync_pause(caller)),
        },
{
    match mutex.lock_sync(caller) {
        Progress::Done(guard) => Progress::Done(guard),
        Progress::Pause(_, pause) => Progress::Pause(again, pause),
    }
}

/// A blocked wait's progress, in the way that the thread may wait.
fn blocking<R>(progress: Progress<BlockPhase, R>) -> (r: Progress<SyncPhase, R>)
    ensures
        r == match progress {
            Progress::Done(done) => Progress::Done(done),
            Progress::Pause(phase, pause) => Progress::Pause(SyncPhase::Block(phase), pause),
        },
{
    match progress {
        Progress::Done(done) => Progress::Done(done),
        Progress::Pause(phase, pause) => Progress::Pause(SyncPhase::Block(phase), pause),
    }
}

/// A spinning wait's progress, in the way that the thread may wait.
fn spinning<R>(progress: Progress<SpinPhase, R>) -> (r: Progress<SyncPhase, R>)
    ensures
        r == match progress {
            Progress::Done(done) => Progress::Done(done),
            Progress::Pause(phase, pause) => Progress::Pause(SyncPhase::Spin(phase), pause),
        },
{
    match progress {
        Progress::Done(done) => Progress::Done(done),
        Progress::Pause(phase, pause) => Progress::Pause(SyncPhase::Spin(phase), pause),
    }
}

impl Condvar {
    /// Lists the thread, gives the mutex back and parks.
    pub(crate) fn start_block<T>(
        &mut self,
        mutex: &mut Mutex<T>,
        guard: Guard<T>,
        caller: Caller,
        wakes: &mut Vec<Wake>,
    ) -> (r: (BlockPhase, Pause))
        requires
            old(self).wf(),
            old(mutex).wf(),
            old(mutex)@.lent_to(guard),
        ensures
            final(self).wf(),
            final(mutex).wf(),
            scene(final(self)@, final(mutex)@, final(wakes)@) == scene(
                old(self)@,
                old(mutex)@,
                old(wakes)@,
            ).given_back(guard@).with_condvar(old(self)@.with_sync(caller.thread)),
            r == (BlockPhase::Relock, Pause::Park),
    {
        self.register_sync(caller.thread);
        mutex.unlock(guard, wakes);
        (BlockPhase::Relock, Pause::Park)
    }

    /// Lists the flag and gives the mutex back.
    pub(crate) fn start_spin<T>(
        &mut self,
        mutex: &mut Mutex<T>,
        guard: Guard<T>,
        flag: u64,
        wakes: &mut Vec<Wake>,
    ) -> (r: (SpinPhase, Pause))
        requires
            old(self).wf(),
            old(mutex).wf(),
            old(mutex)@.lent_to(guard),
        ensures
            final(self).wf(),
            final(mutex).wf(),
            scene(final(self)@, final(mutex)@, final(wakes)@) == scene(
                old(self)@,
                old(mutex)@,
                old(wakes)@,
            ).given_back(guard@).with_condvar(old(self)@.with_spin(flag)),
            r == (SpinPhase::Spinning(flag), Pause::Yield),
    {
        self.register_spin(flag);
        mutex.unlock(guard, wakes);
        (SpinPhase::Spinning(flag), Pause::Yield)
    }

    /// Starts to wait in the way that the thread may wait.
    pub(crate) fn start_sync<T>(
        &mut self,
        mutex: &mut Mutex<T>,
        guard: Guard<T>,
        flag: u64,
        caller: Caller,
        wakes: &mut Vec<Wake>,
    ) -> (r: (SyncPhase, Pause))
        requires
            old(self).wf(),
            old(mutex).wf(),
            old(mutex)@.lent_to(guard),
        ensures
            final(self).wf(),
            final(mutex).wf(),
            scene(final(self)@, final(mutex)@, final(wakes)@) == scene(
                old(self)@,
                old(mutex)@,
                old(wakes)@,
            ).given_back(guard@).with_condvar(old(self)@.with_caller(caller, flag)),
            r == (wait_spec::first_sync_phase(caller, flag), wait_spec::first_sync_pause(caller)),
    {
        if caller.can_block {
            let (phase, pause) = self.start_block(mutex, guard, caller, wakes);
            (SyncPhase::Block(phase), pause)
        } else {
            let (phase, pause) = self.start_spin(mutex, guard, flag, wakes);
            (SyncPhase::Spin(phase), pause)
        }
    }

    /// Lists the task under a new number, gives the mutex back and awaits the continuation.
    pub(crate) fn start_async<T>(
        &mut self,
        mutex: &mut Mutex<T>,
        guard: Guard<T>,
        ids: &mut WaiterIds,
        continuation: u64,
        wakes: &mut Vec<Wake>,
    ) -> (r: (AsyncPhase, Pause))
        requires
            old(self).wf(),
            old(mutex).wf(),
            old(mutex)@.lent_to(guard),
        ensures
            final(self).wf(),
            final(mutex).wf(),
            scene(final(self)@, final(mutex)@, final(wakes)@) == scene(
                old(self)@,
                old(mutex)@,
                old(wakes)@,
            ).given_back(guard@).with_condvar(old(self)@.with_async(
                AsyncWaiter { id: old(ids).spec_next(), sender: continuation },
            )),
            r == (AsyncPhase::Relock, Pause::Await(continuation)),
            final(ids).spec_next() == wait_spec::id_after(old(ids).spec_next()),
    {
        let id: u64 = ids.take();
        self.register_async(AsyncWaiter { id, sender: continuation });
        mutex.unlock(guard, wakes);
        (AsyncPhase::Relock, Pause::Await(continuation))
    }

    /// A step of a wait that blocks. The first one lists the thread, gives the mutex back and
    /// parks; the later ones take the mutex again.
    pub fn wait_block<T>(
        &mut self,
        mutex: &mut Mutex<T>,
        call: Call<Guard<T>, BlockPhase>,
        caller: Caller,
        wakes: &mut Vec<Wake>,
    ) -> (r: Progress<BlockPhase, Guard<T>>)
        requires
            old(self).wf(),
            old(mutex).wf(),
            call matches Call::Start(guard) ==> old(mutex)@.lent_to(guard),
        ensures
            final(self).wf(),
            final(mutex).wf(),
            wait_spec::block_step(
                scene(old(self)@, old(mutex)@, old(wakes)@),
                scene(final(self)@, final(mutex)@, final(wakes)@),
                call,
                caller,
                r,
            ),
    {
        match call {
            Call::Start(guard) => {
                let (phase, pause) = self.start_block(mutex, guard, caller, wakes);
                Progress::Pause(phase, pause)
            },
            Call::Resume(_) => relock_sync(mutex, caller, BlockPhase::Relock),
        }
    }

    /// A step of a wait that spins. The first one lists the flag and gives the mutex back; the
    /// later ones are told whether the flag is raised, and take the mutex again once it is.
    pub fn wait_spin<T>(
        &mut self,
        mutex: &mut Mutex<T>,
        call: Call<Guard<T>, SpinPhase>,
        flag: u64,
        raised: bool,
        caller: Caller,
        wakes: &mut Vec<Wake>,
    ) -> (r: Progress<SpinPhase, Guard<T>>)
        requires
            old(self).wf(),
            old(mutex).wf(),
            call matches Call::Start(guard) ==> old(mutex)@.lent_to(guard),
        ensures
            final(self).wf(),
            final(mutex).wf(),
            wait_spec::spin_step(
                scene(old(self)@, old(mutex)@, old(wakes)@),
                scene(final(self)@, final(mutex)@, final(wakes)@),
                call,
                flag,
                raised,
                caller,
                r,
            ),
    {
        match call {
            Call::Start(guard) => {
                let (phase, pause) = self.start_spin(mutex, guard, flag, wakes);
                Progress::Pause(phase, pause)
            },
            Call::Resume(SpinPhase::Spinning(flag)) => if raised {
                relock_sync(mutex, caller, SpinPhase::Relock)
            } else {
                Progress::Pause(SpinPhase::Spinning(flag), Pause::SpinLoop)
            },
            Call::Resume(SpinPhase::Relock) => relock_sync(mutex, caller, SpinPhase::Relock),
        }
    }

    /// A step of a wait, in the way that the thread may wait: one that must not block spins.
    pub fn wait_sync<T>(
        &mut self,
        mutex: &mut Mutex<T>,
        call: Call<Guard<T>, SyncPhase>,
        flag: u64,
        raised: bool,
        caller: Caller,
        wakes: &mut Vec<Wake>,
    ) -> (r: Progress<SyncPhase, Guard<T>>)
        requires
            old(self).wf(),
            old(mutex).wf(),
            call matches Call::Start(guard) ==> old(mutex)@.lent_to(guard),
        ensures
            final(self).wf(),
            final(mutex).wf(),
            wait_spec::sync_step(
                scene(old(self)@, old(mutex)@, old(wakes)@),
                scene(final(self)@, final(mutex)@, final(wakes)@),
                call,
                flag,
                raised,
                caller,
                r,
            ),
    {
        match call {
            Call::Start(guard) => {
                let (phase, pause) = self.start_sync(mutex, guard, flag, caller, wakes);
                Progress::Pause(phase, pause)
            },
            Call::Resume(SyncPhase::Block(phase)) => blocking(
                self.wait_block(mutex, Call::Resume(phase), caller, wakes),
            ),
            Call::Resume(SyncPhase::Spin(phase)) => spinning(
                self.wait_spin(mutex, Call::Resume(phase), flag, raised, caller, wakes),
            ),
        }
    }

    /// A step of an async wait. The first one lists the task under a new number, gives the mutex
    /// back and awaits the continuation; the later ones take the mutex again, awaiting the
    /// continuation if they miss it.
    pub fn wait_async<T>(
        &mut self,
        mutex: &mut Mutex<T>,
        call: Call<Guard<T>, AsyncPhase>,
        ids: &mut WaiterIds,
        continuation: u64,
        wakes: &mut Vec<Wake>,
    ) -> (r: Progress<AsyncPhase, Guard<T>>)
        requires
            old(self).wf(),
            old(mutex).wf(),
            call matches Call::Start(guard) ==> old(mutex)@.lent_to(guard),
        ensures
            final(self).wf(),
            final(mutex).wf(),
            wait_spec::async_step(
                scene(old(self)@, old(mutex)@, old(wakes)@),
                scene(final(self)@, final(mutex)@, final(wakes)@),
                call,
                old(ids).spec_next(),
                final(ids).spec_next(),
                continuation,
                r,
            ),
    {
        match call {
            Call::Start(guard) => {
                let (phase, pause) = self.start_async(mutex, guard, ids, continuation, wakes);
                Progress::Pause(phase, pause)
            },
            Call::Resume(_) => match mutex.lock_async(continuation) {
                Progress::Done(guard) => Progress::Done(guard),
                Progress::Pause(_, pause) => Progress::Pause(AsyncPhase::Relock, pause),
            },
        }
    }
}

} // verus!

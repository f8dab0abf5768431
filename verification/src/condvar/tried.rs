//! Waiting as long as a condition holds that the caller tries.
use super::{
    scene, AsyncPhase, AsyncTimeoutPhase, BlockPhase, BlockTimeoutPhase, Condvar, SpinPhase,
    SpinTimeoutPhase, SyncPhase, SyncTimeoutPhase, WaitTimeoutResult, WaiterIds,
};
use crate::guard::Guard;
use crate::mutex::Mutex;
use crate::step::{Caller, Progress, Wake};
use crate::wait_spec;
use vstd::prelude::*;

verus! {

impl Condvar {
    /// The step of a wait that blocks that follows when its condition has been tried: it starts to
    /// wait if the condition holds, and is over if not.
    pub fn wait_block_tried<T>(
        &mut self,
        mutex: &mut Mutex<T>,
        guard: Guard<T>,
        holds: bool,
        caller: Caller,
        wakes: &mut Vec<Wake>,
    ) -> (r: Progress<BlockPhase, Guard<T>>)
        requires
            old(self).wf(),
            old(mutex).wf(),
            old(mutex)@.lent_to(guard),
        ensures
            final(self).wf(),
            final(mutex).wf(),
            wait_spec::block_tried(
                scene(old(self)@, old(mutex)@, old(wakes)@),
                scene(final(self)@, final(mutex)@, final(wakes)@),
                guard@,
                holds,
                caller,
                r,
            ),
    {
        if holds {
            let (phase, pause) = self.start_block(mutex, guard, caller, wakes);
            Progress::Pause(phase, pause)
        } else {
            Progress::Done(guard)
        }
    }

    /// The step of a wait that spins that follows when its condition has been tried: it starts to
    /// wait if the condition holds, and is over if not.
    pub fn wait_spin_tried<T>(
        &mut self,
        mutex: &mut Mutex<T>,
        guard: Guard<T>,
        holds: bool,
        flag: u64,
        wakes: &mut Vec<Wake>,
    ) -> (r: Progress<SpinPhase, Guard<T>>)
        requires
            old(self).wf(),
            old(mutex).wf(),
            old(mutex)@.lent_to(guard),
        ensures
            final(self).wf(),
            final(mutex).wf(),
            wait_spec::spin_tried(
                scene(old(self)@, old(mutex)@, old(wakes)@),
                scene(final(self)@, final(mutex)@, final(wakes)@),
                guard@,
                holds,
                flag,
                r,
            ),
    {
        if holds {
            let (phase, pause) = self.start_spin(mutex, guard, flag, wakes);
            Progress::Pause(phase, pause)
        } else {
            Progress::Done(guard)
        }
    }

    /// The step of a wait, in the way that the thread may wait, that follows when its condition has
    /// been tried: it starts to wait if the condition holds, and is over if not.
    pub fn wait_sync_tried<T>(
        &mut self,
        mutex: &mut Mutex<T>,
        guard: Guard<T>,
        holds: bool,
        flag: u64,
        caller: Caller,
        wakes: &mut Vec<Wake>,
    ) -> (r: Progress<SyncPhase, Guard<T>>)
        requires
            old(self).wf(),
            old(mutex).wf(),
            old(mutex)@.lent_to(guard),
        ensures
            final(self).wf(),
            final(mutex).wf(),
            wait_spec::sync_tried(
                scene(old(self)@, old(mutex)@, old(wakes)@),
                scene(final(self)@, final(mutex)@, final(wakes)@),
                guard@,
                holds,
                flag,
                caller,
                r,
            ),
    {
        if holds {
            let (phase, pause) = self.start_sync(mutex, guard, flag, caller, wakes);
            Progress::Pause(phase, pause)
        } else {
            Progress::Done(guard)
        }
    }

    /// The step of an async wait that follows when its condition has been tried: it starts to wait
    /// if the condition holds, and is over if not.
    pub fn wait_async_tried<T>(
        &mut self,
        mutex: &mut Mutex<T>,
        guard: Guard<T>,
        holds: bool,
        ids: &mut WaiterIds,
        continuation: u64,
        wakes: &mut Vec<Wake>,
    ) -> (r: Progress<AsyncPhase, Guard<T>>)
        requires
            old(self).wf(),
            old(mutex).wf(),
            old(mutex)@.lent_to(guard),
        ensures
            final(self).wf(),
            final(mutex).wf(),
            wait_spec::async_tried(
                scene(old(self)@, old(mutex)@, old(wakes)@),
                scene(final(self)@, final(mutex)@, final(wakes)@),
                guard@,
                holds,
                old(ids).spec_next(),
                final(ids).spec_next(),
                continuation,
                r,
            ),
    {
        if holds {
            let (phase, pause) = self.start_async(mutex, guard, ids, continuation, wakes);
            Progress::Pause(phase, pause)
        } else {
            Progress::Done(guard)
        }
    }

    /// The step of a wait that blocks until a deadline that follows when its condition has been
    /// tried: it starts to wait if the condition holds, and is over if not.
    pub fn wait_block_timeout_tried<T>(
        &mut self,
        mutex: &mut Mutex<T>,
        guard: Guard<T>,
        holds: bool,
        caller: Caller,
        wakes: &mut Vec<Wake>,
    ) -> (r: Progress<BlockTimeoutPhase, (Guard<T>, WaitTimeoutResult)>)
        requires
            old(self).wf(),
            old(mutex).wf(),
            old(mutex)@.lent_to(guard),
        ensures
            final(self).wf(),
            final(mutex).wf(),
            wait_spec::block_timeout_tried(
                scene(old(self)@, old(mutex)@, old(wakes)@),
                scene(final(self)@, final(mutex)@, final(wakes)@),
                guard@,
                holds,
                caller,
                r,
            ),
    {
        if holds {
            let (phase, pause) = self.start_block_timeout(mutex, guard, caller, wakes);
            Progress::Pause(phase, pause)
        } else {
            Progress::Done((guard, WaitTimeoutResult::new(false)))
        }
    }

    /// The step of a wait that spins until a deadline that follows when its condition has been
    /// tried: it starts to wait if the condition holds, and is over if not.
    pub fn wait_spin_timeout_tried<T>(
        &mut self,
        mutex: &mut Mutex<T>,
        guard: Guard<T>,
        holds: bool,
        flag: u64,
        wakes: &mut Vec<Wake>,
    ) -> (r: Progress<SpinTimeoutPhase, (Guard<T>, WaitTimeoutResult)>)
        requires
            old(self).wf(),
            old(mutex).wf(),
            old(mutex)@.lent_to(guard),
        ensures
            final(self).wf(),
            final(mutex).wf(),
            wait_spec::spin_timeout_tried(
                scene(old(self)@, old(mutex)@, old(wakes)@),
                scene(final(self)@, final(mutex)@, final(wakes)@),
                guard@,
                holds,
                flag,
                r,
            ),
    {
        if holds {
            let (phase, pause) = self.start_spin_timeout(mutex, guard, flag, wakes);
            Progress::Pause(phase, pause)
        } else {
            Progress::Done((guard, WaitTimeoutResult::new(false)))
        }
    }

    /// The step of a wait until a deadline, in the way that the thread may wait, that follows when
    /// its condition has been tried: it starts to wait if the condition holds, and is over if not.
    pub fn wait_sync_timeout_tried<T>(
        &mut self,
        mutex: &mut Mutex<T>,
        guard: Guard<T>,
        holds: bool,
        flag: u64,
        caller: Caller,
        wakes: &mut Vec<Wake>,
    ) -> (r: Progress<SyncTimeoutPhase, (Guard<T>, WaitTimeoutResult)>)
        requires
            old(self).wf(),
            old(mutex).wf(),
            old(mutex)@.lent_to(guard),
        ensures
            final(self).wf(),
            final(mutex).wf(),
            wait_spec::sync_timeout_tried(
                scene(old(self)@, old(mutex)@, old(wakes)@),
                scene(final(self)@, final(mutex)@, final(wakes)@),
                guard@,
                holds,
                flag,
                caller,
                r,
            ),
    {
        if holds {
            let (phase, pause) = self.start_sync_timeout(mutex, guard, flag, caller, wakes);
            Progress::Pause(phase, pause)
        } else {
            Progress::Done((guard, WaitTimeoutResult::new(false)))
        }
    }

    /// The step of an async wait until a deadline that follows when its condition has been tried:
    /// it starts to wait if the condition holds, and is over if not.
    pub fn wait_async_timeout_tried<T>(
        &mut self,
        mutex: &mut Mutex<T>,
        guard: Guard<T>,
        holds: bool,
        ids: &mut WaiterIds,
        continuation: u64,
        wakes: &mut Vec<Wake>,
    ) -> (r: Progress<AsyncTimeoutPhase, (Guard<T>, WaitTimeoutResult)>)
        requires
            old(self).wf(),
            old(mutex).wf(),
            old(mutex)@.lent_to(guard),
        ensures
            final(self).wf(),
            final(mutex).wf(),
            wait_spec::async_timeout_tried(
                scene(old(self)@, old(mutex)@, old(wakes)@),
                scene(final(self)@, final(mutex)@, final(wakes)@),
                guard@,
                holds,
                old(ids).spec_next(),
                final(ids).spec_next(),
                continuation,
                r,
            ),
    {
        if holds {
            let (phase, pause) = self.start_async_timeout(mutex, guard, ids, continuation, wakes);
            Progress::Pause(phase, pause)
        } else {
            Progress::Done((guard, WaitTimeoutResult::new(false)))
        }
    }
}

} // verus!

//! Waiting as long as a condition holds.
use super::{
    scene, turn, AsyncPhase, BlockPhase, Condvar, SpinPhase, SyncPhase, Turn, WaiterIds,
};
use crate::guard::Guard;
use crate::mutex::Mutex;
use crate::step::{Call, Caller, Progress, Wake};
use crate::wait_spec;
use vstd::prelude::*;

verus! {

impl Condvar {
    /// A step of a wait that blocks as long as `condition` holds of the data. The condition is
    /// tried whenever the mutex is in hand, so at most once in a step.
    pub fn wait_block_while<T, F: FnMut(&mut T) -> bool>(
        &mut self,
        mutex: &mut Mutex<T>,
        call: Call<Guard<T>, BlockPhase>,
        condition: &mut F,
        caller: Caller,
        wakes: &mut Vec<Wake>,
    ) -> (r: Progress<BlockPhase, Guard<T>>)
        requires
            old(self).wf(),
            old(mutex).wf(),
            call matches Call::Start(guard) ==> old(mutex)@.lent_to(guard),
            forall|data: &mut T|
                wait_spec::in_hand(call, true, old(mutex)@) == Some(*data)
                    ==> #[trigger] call_requires(*old(condition), (data,)),
        ensures
            final(self).wf(),
            final(mutex).wf(),
            *final(condition) == *old(condition),
            exists|trial: Option<wait_spec::Trial<T>>| #[trigger]
                wait_spec::block_while_step(
                    scene(old(self)@, old(mutex)@, old(wakes)@),
                    scene(final(self)@, final(mutex)@, final(wakes)@),
                    call,
                    trial,
                    caller,
                    r,
                ) && (trial matches Some(trial) ==> exists|data: &mut T|
                    *data == trial.before && *final(data) == trial.after
                        && #[trigger] call_ensures(*old(condition), (data,), trial.holds)),
    {
        let mut guard = match call {
            Call::Start(guard) => guard,
            Call::Resume(phase) => {
                let progress = self.wait_block(mutex, Call::Resume(phase), caller, wakes);
                match turn(progress) {
                    Turn::Try(guard) => guard,
                    Turn::Settled(r) => {
                        assert(wait_spec::block_while_step(
                            scene(old(self)@, old(mutex)@, old(wakes)@),
                            scene(self@, mutex@, wakes@),
                            call,
                            None,
                            caller,
                            r,
                        ));
                        return r;
                    },
                }
            },
        };
        let ghost before = guard@;
        let data: &mut T = guard.get_mut();
        let holds: bool = (*condition)(data);
        let ghost trial = Some(wait_spec::Trial { before, after: guard@, holds });
        let r = self.wait_block_tried(mutex, guard, holds, caller, wakes);
        assert(wait_spec::block_while_step(
            scene(old(self)@, old(mutex)@, old(wakes)@),
            scene(self@, mutex@, wakes@),
            call,
            trial,
            caller,
            r,
        ));
        r
    }

    /// A step of a wait that spins as long as `condition` holds of the data. The condition is tried
    /// whenever the mutex is in hand, so at most once in a step.
    pub fn wait_spin_while<T, F: FnMut(&mut T) -> bool>(
        &mut self,
        mutex: &mut Mutex<T>,
        call: Call<Guard<T>, SpinPhase>,
        condition: &mut F,
        flag: u64,
        raised: bool,
        caller: Caller,
        wakes: &mut Vec<Wake>,
    ) -> (r: Progress<SpinPhase, Guard<T>>)
        requires
            old(self).wf(),
            old(mutex).wf(),
            call matches Call::Start(guard) ==> old(mutex)@.lent_to(guard),
            forall|data: &mut T|
                wait_spec::in_hand(call, true, old(mutex)@) == Some(*data)
                    ==> #[trigger] call_requires(*old(condition), (data,)),
        ensures
            final(self).wf(),
            final(mutex).wf(),
            *final(condition) == *old(condition),
            exists|trial: Option<wait_spec::Trial<T>>| #[trigger]
                wait_spec::spin_while_step(
                    scene(old(self)@, old(mutex)@, old(wakes)@),
                    scene(final(self)@, final(mutex)@, final(wakes)@),
                    call,
                    trial,
                    flag,
                    raised,
                    caller,
                    r,
                ) && (trial matches Some(trial) ==> exists|data: &mut T|
                    *data == trial.before && *final(data) == trial.after
                        && #[trigger] call_ensures(*old(condition), (data,), trial.holds)),
    {
        let mut guard = match call {
            Call::Start(guard) => guard,
            Call::Resume(phase) => {
                let progress = self.wait_spin(
                    mutex,
                    Call::Resume(phase),
                    flag,
                    raised,
                    caller,
                    wakes,
                );
                match turn(progress) {
                    Turn::Try(guard) => guard,
                    Turn::Settled(r) => {
                        assert(wait_spec::spin_while_step(
                            scene(old(self)@, old(mutex)@, old(wakes)@),
                            scene(self@, mutex@, wakes@),
                            call,
                            None,
                            flag,
                            raised,
                            caller,
                            r,
                        ));
                        return r;
                    },
                }
            },
        };
        let ghost before = guard@;
        let data: &mut T = guard.get_mut();
        let holds: bool = (*condition)(data);
        let ghost trial = Some(wait_spec::Trial { before, after: guard@, holds });
        let r = self.wait_spin_tried(mutex, guard, holds, flag, wakes);
        assert(wait_spec::spin_while_step(
            scene(old(self)@, old(mutex)@, old(wakes)@),
            scene(self@, mutex@, wakes@),
            call,
            trial,
            flag,
            raised,
            caller,
            r,
        ));
        r
    }

    /// A step of a wait as long as `condition` holds of the data, in the way that the thread may
    /// wait. The condition is tried whenever the mutex is in hand, so at most once in a step.
    pub fn wait_sync_while<T, F: FnMut(&mut T) -> bool>(
        &mut self,
        mutex: &mut Mutex<T>,
        call: Call<Guard<T>, SyncPhase>,
        condition: &mut F,
        flag: u64,
        raised: bool,
        caller: Caller,
        wakes: &mut Vec<Wake>,
    ) -> (r: Progress<SyncPhase, Guard<T>>)
        requires
            old(self).wf(),
            old(mutex).wf(),
            call matches Call::Start(guard) ==> old(mutex)@.lent_to(guard),
            forall|data: &mut T|
                wait_spec::in_hand(call, true, old(mutex)@) == Some(*data)
                    ==> #[trigger] call_requires(*old(condition), (data,)),
        ensures
            final(self).wf(),
            final(mutex).wf(),
            *final(condition) == *old(condition),
            exists|trial: Option<wait_spec::Trial<T>>| #[trigger]
                wait_spec::sync_while_step(
                    scene(old(self)@, old(mutex)@, old(wakes)@),
                    scene(final(self)@, final(mutex)@, final(wakes)@),
                    call,
                    trial,
                    flag,
                    raised,
                    caller,
                    r,
                ) && (trial matches Some(trial) ==> exists|data: &mut T|
                    *data == trial.before && *final(data) == trial.after
                        && #[trigger] call_ensures(*old(condition), (data,), trial.holds)),
    {
        let mut guard = match call {
            Call::Start(guard) => guard,
            Call::Resume(phase) => {
                let progress = self.wait_sync(
                    mutex,
                    Call::Resume(phase),
                    flag,
                    raised,
                    caller,
                    wakes,
                );
                match turn(progress) {
                    Turn::Try(guard) => guard,
                    Turn::Settled(r) => {
                        assert(wait_spec::sync_while_step(
                            scene(old(self)@, old(mutex)@, old(wakes)@),
                            scene(self@, mutex@, wakes@),
                            call,
                            None,
                            flag,
                            raised,
                            caller,
                            r,
                        ));
                        return r;
                    },
                }
            },
        };
        let ghost before = guard@;
        let data: &mut T = guard.get_mut();
        let holds: bool = (*condition)(data);
        let ghost trial = Some(wait_spec::Trial { before, after: guard@, holds });
        let r = self.wait_sync_tried(mutex, guard, holds, flag, caller, wakes);
        assert(wait_spec::sync_while_step(
            scene(old(self)@, old(mutex)@, old(wakes)@),
            scene(self@, mutex@, wakes@),
            call,
            trial,
            flag,
            raised,
            caller,
            r,
        ));
        r
    }

    /// A step of an async wait as long as `condition` holds of the data. The condition is tried
    /// whenever the mutex is in hand, so at most once in a step.
    pub fn wait_async_while<T, F: FnMut(&mut T) -> bool>(
        &mut self,
        mutex: &mut Mutex<T>,
        call: Call<Guard<T>, AsyncPhase>,
        condition: &mut F,
        ids: &mut WaiterIds,
        continuation: u64,
        wakes: &mut Vec<Wake>,
    ) -> (r: Progress<AsyncPhase, Guard<T>>)
        requires
            old(self).wf(),
            old(mutex).wf(),
            call matches Call::Start(guard) ==> old(mutex)@.lent_to(guard),
            forall|data: &mut T|
                wait_spec::in_hand(call, true, old(mutex)@) == Some(*data)
                    ==> #[trigger] call_requires(*old(condition), (data,)),
        ensures
            final(self).wf(),
            final(mutex).wf(),
            *final(condition) == *old(condition),
            exists|trial: Option<wait_spec::Trial<T>>| #[trigger]
                wait_spec::async_while_step(
                    scene(old(self)@, old(mutex)@, old(wakes)@),
                    scene(final(self)@, final(mutex)@, final(wakes)@),
                    call,
                    trial,
                    old(ids).spec_next(),
                    final(ids).spec_next(),
                    continuation,
                    r,
                ) && (trial matches Some(trial) ==> exists|data: &mut T|
                    *data == trial.before && *final(data) == trial.after
                        && #[trigger] call_ensures(*old(condition), (data,), trial.holds)),
    {
        let mut guard = match call {
            Call::Start(guard) => guard,
            Call::Resume(phase) => {
                let progress = self.wait_async(
                    mutex,
                    Call::Resume(phase),
                    ids,
                    continuation,
                    wakes,
                );
                match turn(progress) {
                    Turn::Try(guard) => guard,
                    Turn::Settled(r) => {
                        assert(wait_spec::async_while_step(
                            scene(old(self)@, old(mutex)@, old(wakes)@),
                            scene(self@, mutex@, wakes@),
                            call,
                            None,
                            old(ids).spec_next(),
                            ids.spec_next(),
                            continuation,
                            r,
                        ));
                        return r;
                    },
                }
            },
        };
        let ghost before = guard@;
        let data: &mut T = guard.get_mut();
        let holds: bool = (*condition)(data);
        let ghost trial = Some(wait_spec::Trial { before, after: guard@, holds });
        let r = self.wait_async_tried(mutex, guard, holds, ids, continuation, wakes);
        assert(wait_spec::async_while_step(
            scene(old(self)@, old(mutex)@, old(wakes)@),
            scene(self@, mutex@, wakes@),
            call,
            trial,
            old(ids).spec_next(),
            ids.spec_next(),
            continuation,
            r,
        ));
        r
    }
}

} // verus!

//! Waiting until a deadline as long as a condition holds.
use super::{
    scene, timed_turn, AsyncTimeoutPhase, BlockTimeoutPhase, Condvar, SpinTimeoutPhase,
    SyncTimeoutPhase, Turn, WaitTimeoutResult, WaiterIds,
};
use crate::guard::Guard;
use crate::mutex::Mutex;
use crate::step::{Call, Caller, Progress, Wake};
use crate::time;
use crate::time::Moment;
use crate::wait_spec;
use vstd::prelude::*;

verus! {

impl Condvar {
    /// A step of a wait that blocks until a deadline as long as `condition` holds of the data, when
    /// the clock shows `now`. The condition is tried whenever the mutex is in hand, so at most once
    /// in a step; a wait that times out ends without trying it.
    pub fn wait_block_timeout_while_at<T, F: FnMut(&mut T) -> bool>(
        &mut self,
        mutex: &mut Mutex<T>,
        call: Call<Guard<T>, BlockTimeoutPhase>,
        condition: &mut F,
        caller: Caller,
        now: Moment,
        deadline: Moment,
        wakes: &mut Vec<Wake>,
    ) -> (r: Progress<BlockTimeoutPhase, (Guard<T>, WaitTimeoutResult)>)
        requires
            old(self).wf(),
            old(mutex).wf(),
            call matches Call::Start(guard) ==> old(mutex)@.lent_to(guard),
            forall|data: &mut T|
                wait_spec::in_hand(call, true, old(mutex)@) == Some(*data)
                    ==> #[trigger] call_requires(*old(condition), (data,)),
        ensures
            final(self).wf(),
            final(mutex).wf(),
            *final(condition) == *old(condition),
            exists|trial: Option<wait_spec::Trial<T>>| #[trigger]
                wait_spec::block_timeout_while_step(
                    scene(old(self)@, old(mutex)@, old(wakes)@),
                    scene(final(self)@, final(mutex)@, final(wakes)@),
                    call,
                    trial,
                    caller,
                    now,
                    deadline,
                    r,
                ) && (trial matches Some(trial) ==> exists|data: &mut T|
                    *data == trial.before && *final(data) == trial.after
                        && #[trigger] call_ensures(*old(condition), (data,), trial.holds)),
    {
        proof {
            self@.sync.index_of_first_ensures(caller.thread);
        }
        let mut guard = match call {
            Call::Start(guard) => guard,
            Call::Resume(phase) => {
                let progress = self.wait_block_timeout_at(
                    mutex,
                    Call::Resume(phase),
                    caller,
                    now,
                    deadline,
                    wakes,
                );
                match timed_turn(progress) {
                    Turn::Try(guard) => guard,
                    Turn::Settled(r) => {
                        assert(wait_spec::block_timeout_while_step(
                            scene(old(self)@, old(mutex)@, old(wakes)@),
                            scene(self@, mutex@, wakes@),
                            call,
                            None,
                            caller,
                            now,
                            deadline,
                            r,
                        ));
                        return r;
                    },
                }
            },
        };
        let ghost before = guard@;
        let data: &mut T = guard.get_mut();
        let holds: bool = (*condition)(data);
        let ghost trial = Some(wait_spec::Trial { before, after: guard@, holds });
        let r = self.wait_block_timeout_tried(mutex, guard, holds, caller, wakes);
        assert(wait_spec::block_timeout_while_step(
            scene(old(self)@, old(mutex)@, old(wakes)@),
            scene(self@, mutex@, wakes@),
            call,
            trial,
            caller,
            now,
            deadline,
            r,
        ));
        r
    }

    /// A step of a wait that blocks until a deadline as long as `condition` holds of the data. The
    /// condition is tried whenever the mutex is in hand, so at most once in a step; a wait that
    /// times out ends without trying it.
    pub fn wait_block_timeout_while<T, F: FnMut(&mut T) -> bool>(
        &mut self,
        mutex: &mut Mutex<T>,
        call: Call<Guard<T>, BlockTimeoutPhase>,
        condition: &mut F,
        caller: Caller,
        deadline: web_time::Instant,
        wakes: &mut Vec<Wake>,
    ) -> (r: Progress<BlockTimeoutPhase, (Guard<T>, WaitTimeoutResult)>)
        requires
            old(self).wf(),
            old(mutex).wf(),
            call matches Call::Start(guard) ==> old(mutex)@.lent_to(guard),
            forall|data: &mut T|
                wait_spec::in_hand(call, true, old(mutex)@) == Some(*data)
                    ==> #[trigger] call_requires(*old(condition), (data,)),
        ensures
            final(self).wf(),
            final(mutex).wf(),
            *final(condition) == *old(condition),
            exists|trial: Option<wait_spec::Trial<T>>| #[trigger]
                wait_spec::block_timeout_while_timed(
                    scene(old(self)@, old(mutex)@, old(wakes)@),
                    scene(final(self)@, final(mutex)@, final(wakes)@),
                    call,
                    trial,
                    caller,
                    deadline,
                    r,
                ) && (trial matches Some(trial) ==> exists|data: &mut T|
                    *data == trial.before && *final(data) == trial.after
                        && #[trigger] call_ensures(*old(condition), (data,), trial.holds)),
    {
        let reads: bool = match &call {
            Call::Start(_) => false,
            Call::Resume(phase) => phase.reads_clock(),
        };
        let due = time::due(reads, &deadline);
        let present = Moment { nanos: 0 };
        let r = self.wait_block_timeout_while_at(
            mutex,
            call,
            condition,
            caller,
            present,
            due,
            wakes,
        );
        assert forall|trial: Option<wait_spec::Trial<T>>| #[trigger]
            wait_spec::block_timeout_while_step(
                scene(old(self)@, old(mutex)@, old(wakes)@),
                scene(self@, mutex@, wakes@),
                call,
                trial,
                caller,
                present,
                due,
                r,
            ) implies wait_spec::block_timeout_while_timed(
            scene(old(self)@, old(mutex)@, old(wakes)@),
            scene(self@, mutex@, wakes@),
            call,
            trial,
            caller,
            deadline,
            r,
        ) by {}
        r
    }

    /// A step of a wait that spins until a deadline as long as `condition` holds of the data, when
    /// the clock shows `now`. The condition is tried whenever the mutex is in hand, so at most once
    /// in a step; a wait that times out ends without trying it.
    pub fn wait_spin_timeout_while_at<T, F: FnMut(&mut T) -> bool>(
        &mut self,
        mutex: &mut Mutex<T>,
        call: Call<Guard<T>, SpinTimeoutPhase>,
        condition: &mut F,
        flag: u64,
        raised: bool,
        caller: Caller,
        now: Moment,
        deadline: Moment,
        wakes: &mut Vec<Wake>,
    ) -> (r: Progress<SpinTimeoutPhase, (Guard<T>, WaitTimeoutResult)>)
        requires
            old(self).wf(),
            old(mutex).wf(),
            call matches Call::Start(guard) ==> old(mutex)@.lent_to(guard),
            forall|data: &mut T|
                wait_spec::in_hand(call, true, old(mutex)@) == Some(*data)
                    ==> #[trigger] call_requires(*old(condition), (data,)),
        ensures
            final(self).wf(),
            final(mutex).wf(),
            *final(condition) == *old(condition),
            exists|trial: Option<wait_spec::Trial<T>>| #[trigger]
                wait_spec::spin_timeout_while_step(
                    scene(old(self)@, old(mutex)@, old(wakes)@),
                    scene(final(self)@, final(mutex)@, final(wakes)@),
                    call,
                    trial,
                    flag,
                    raised,
                    caller,
                    now,
                    deadline,
                    r,
                ) && (trial matches Some(trial) ==> exists|data: &mut T|
                    *data == trial.before && *final(data) == trial.after
                        && #[trigger] call_ensures(*old(condition), (data,), trial.holds)),
    {
        let mut guard = match call {
            Call::Start(guard) => guard,
            Call::Resume(phase) => {
                let progress = self.wait_spin_timeout_at(
                    mutex,
                    Call::Resume(phase),
                    flag,
                    raised,
                    caller,
                    now,
                    deadline,
                    wakes,
                );
                match timed_turn(progress) {
                    Turn::Try(guard) => guard,
                    Turn::Settled(r) => {
                        assert(wait_spec::spin_timeout_while_step(
                            scene(old(self)@, old(mutex)@, old(wakes)@),
                            scene(self@, mutex@, wakes@),
                            call,
                            None,
                            flag,
                            raised,
                            caller,
                            now,
                            deadline,
                            r,
                        ));
                        return r;
                    },
                }
            },
        };
        let ghost before = guard@;
        let data: &mut T = guard.get_mut();
        let holds: bool = (*condition)(data);
        let ghost trial = Some(wait_spec::Trial { before, after: guard@, holds });
        let r = self.wait_spin_timeout_tried(mutex, guard, holds, flag, wakes);
        assert(wait_spec::spin_timeout_while_step(
            scene(old(self)@, old(mutex)@, old(wakes)@),
            scene(self@, mutex@, wakes@),
            call,
            trial,
            flag,
            raised,
            caller,
            now,
            deadline,
            r,
        ));
        r
    }

    /// A step of a wait that spins until a deadline as long as `condition` holds of the data. The
    /// condition is tried whenever the mutex is in hand, so at most once in a step; a wait that
    /// times out ends without trying it.
    pub fn wait_spin_timeout_while<T, F: FnMut(&mut T) -> bool>(
        &mut self,
        mutex: &mut Mutex<T>,
        call: Call<Guard<T>, SpinTimeoutPhase>,
        condition: &mut F,
        flag: u64,
        raised: bool,
        caller: Caller,
        deadline: web_time::Instant,
        wakes: &mut Vec<Wake>,
    ) -> (r: Progress<SpinTimeoutPhase, (Guard<T>, WaitTimeoutResult)>)
        requires
            old(self).wf(),
            old(mutex).wf(),
            call matches Call::Start(guard) ==> old(mutex)@.lent_to(guard),
            forall|data: &mut T|
                wait_spec::in_hand(call, true, old(mutex)@) == Some(*data)
                    ==> #[trigger] call_requires(*old(condition), (data,)),
        ensures
            final(self).wf(),
            final(mutex).wf(),
            *final(condition) == *old(condition),
            exists|trial: Option<wait_spec::Trial<T>>| #[trigger]
                wait_spec::spin_timeout_while_timed(
                    scene(old(self)@, old(mutex)@, old(wakes)@),
                    scene(final(self)@, final(mutex)@, final(wakes)@),
                    call,
                    trial,
                    flag,
                    raised,
                    caller,
                    deadline,
                    r,
                ) && (trial matches Some(trial) ==> exists|data: &mut T|
                    *data == trial.before && *final(data) == trial.after
                        && #[trigger] call_ensures(*old(condition), (data,), trial.holds)),
    {
        let reads: bool = match &call {
            Call::Start(_) => false,
            Call::Resume(phase) => phase.reads_clock(raised),
        };
        let due = time::due(reads, &deadline);
        let present = Moment { nanos: 0 };
        let r = self.wait_spin_timeout_while_at(
            mutex,
            call,
            condition,
            flag,
            raised,
            caller,
            present,
            due,
            wakes,
        );
        assert forall|trial: Option<wait_spec::Trial<T>>| #[trigger]
            wait_spec::spin_timeout_while_step(
                scene(old(self)@, old(mutex)@, old(wakes)@),
                scene(self@, mutex@, wakes@),
                call,
                trial,
                flag,
                raised,
                caller,
                present,
                due,
                r,
            ) implies wait_spec::spin_timeout_while_timed(
            scene(old(self)@, old(mutex)@, old(wakes)@),
            scene(self@, mutex@, wakes@),
            call,
            trial,
            flag,
            raised,
            caller,
            deadline,
            r,
        ) by {}
        r
    }

    /// A step of a wait until a deadline as long as `condition` holds of the data, in the way that
    /// the thread may wait, when the clock shows `now`. The condition is tried whenever the mutex
    /// is in hand, so at most once in a step; a wait that times out ends without trying it.
    pub fn wait_sync_timeout_while_at<T, F: FnMut(&mut T) -> bool>(
        &mut self,
        mutex: &mut Mutex<T>,
        call: Call<Guard<T>, SyncTimeoutPhase>,
        condition: &mut F,
        flag: u64,
        raised: bool,
        caller: Caller,
        now: Moment,
        deadline: Moment,
        wakes: &mut Vec<Wake>,
    ) -> (r: Progress<SyncTimeoutPhase, (Guard<T>, WaitTimeoutResult)>)
        requires
            old(self).wf(),
            old(mutex).wf(),
            call matches Call::Start(guard) ==> old(mutex)@.lent_to(guard),
            forall|data: &mut T|
                wait_spec::in_hand(call, true, old(mutex)@) == Some(*data)
                    ==> #[trigger] call_requires(*old(condition), (data,)),
        ensures
            final(self).wf(),
            final(mutex).wf(),
            *final(condition) == *old(condition),
            exists|trial: Option<wait_spec::Trial<T>>| #[trigger]
                wait_spec::sync_timeout_while_step(
                    scene(old(self)@, old(mutex)@, old(wakes)@),
                    scene(final(self)@, final(mutex)@, final(wakes)@),
                    call,
                    trial,
                    flag,
                    raised,
                    caller,
                    now,
                    deadline,
                    r,
                ) && (trial matches Some(trial) ==> exists|data: &mut T|
                    *data == trial.before && *final(data) == trial.after
                        && #[trigger] call_ensures(*old(condition), (data,), trial.holds)),
    {
        proof {
            self@.sync.index_of_first_ensures(caller.thread);
        }
        let mut guard = match call {
            Call::Start(guard) => guard,
            Call::Resume(phase) => {
                let progress = self.wait_sync_timeout_at(
                    mutex,
                    Call::Resume(phase),
                    flag,
                    raised,
                    caller,
                    now,
                    deadline,
                    wakes,
                );
                match timed_turn(progress) {
                    Turn::Try(guard) => guard,
                    Turn::Settled(r) => {
                        assert(wait_spec::sync_timeout_while_step(
                            scene(old(self)@, old(mutex)@, old(wakes)@),
                            scene(self@, mutex@, wakes@),
                            call,
                            None,
                            flag,
                            raised,
                            caller,
                            now,
                            deadline,
                            r,
                        ));
                        return r;
                    },
                }
            },
        };
        let ghost before = guard@;
        let data: &mut T = guard.get_mut();
        let holds: bool = (*condition)(data);
        let ghost trial = Some(wait_spec::Trial { before, after: guard@, holds });
        let r = self.wait_sync_timeout_tried(mutex, guard, holds, flag, caller, wakes);
        assert(wait_spec::sync_timeout_while_step(
            scene(old(self)@, old(mutex)@, old(wakes)@),
            scene(self@, mutex@, wakes@),
            call,
            trial,
            flag,
            raised,
            caller,
            now,
            deadline,
            r,
        ));
        r
    }

    /// A step of a wait until a deadline as long as `condition` holds of the data, in the way that
    /// the thread may wait. The condition is tried whenever the mutex is in hand, so at most once
    /// in a step; a wait that times out ends without trying it.
    pub fn wait_sync_timeout_while<T, F: FnMut(&mut T) -> bool>(
        &mut self,
        mutex: &mut Mutex<T>,
        call: Call<Guard<T>, SyncTimeoutPhase>,
        condition: &mut F,
        flag: u64,
        raised: bool,
        caller: Caller,
        deadline: web_time::Instant,
        wakes: &mut Vec<Wake>,
    ) -> (r: Progress<SyncTimeoutPhase, (Guard<T>, WaitTimeoutResult)>)
        requires
            old(self).wf(),
            old(mutex).wf(),
            call matches Call::Start(guard) ==> old(mutex)@.lent_to(guard),
            forall|data: &mut T|
                wait_spec::in_hand(call, true, old(mutex)@) == Some(*data)
                    ==> #[trigger] call_requires(*old(condition), (data,)),
        ensures
            final(self).wf(),
            final(mutex).wf(),
            *final(condition) == *old(condition),
            exists|trial: Option<wait_spec::Trial<T>>| #[trigger]
                wait_spec::sync_timeout_while_timed(
                    scene(old(self)@, old(mutex)@, old(wakes)@),
                    scene(final(self)@, final(mutex)@, final(wakes)@),
                    call,
                    trial,
                    flag,
                    raised,
                    caller,
                    deadline,
                    r,
                ) && (trial matches Some(trial) ==> exists|data: &mut T|
                    *data == trial.before && *final(data) == trial.after
                        && #[trigger] call_ensures(*old(condition), (data,), trial.holds)),
    {
        let reads: bool = match &call {
            Call::Start(_) => false,
            Call::Resume(phase) => phase.reads_clock(raised),
        };
        let due = time::due(reads, &deadline);
        let present = Moment { nanos: 0 };
        let r = self.wait_sync_timeout_while_at(
            mutex,
            call,
            condition,
            flag,
            raised,
            caller,
            present,
            due,
            wakes,
        );
        assert forall|trial: Option<wait_spec::Trial<T>>| #[trigger]
            wait_spec::sync_timeout_while_step(
                scene(old(self)@, old(mutex)@, old(wakes)@),
                scene(self@, mutex@, wakes@),
                call,
                trial,
                flag,
                raised,
                caller,
                present,
                due,
                r,
            ) implies wait_spec::sync_timeout_while_timed(
            scene(old(self)@, old(mutex)@, old(wakes)@),
            scene(self@, mutex@, wakes@),
            call,
            trial,
            flag,
            raised,
            caller,
            deadline,
            r,
        ) by {}
        r
    }

    /// A step of an async wait until a deadline as long as `condition` holds of the data. The
    /// condition is tried whenever the mutex is in hand, so at most once in a step; a wait that
    /// times out ends without trying it.
    pub fn wait_async_timeout_while<T, F: FnMut(&mut T) -> bool>(
        &mut self,
        mutex: &mut Mutex<T>,
        call: Call<Guard<T>, AsyncTimeoutPhase>,
        condition: &mut F,
        ids: &mut WaiterIds,
        timed_out: bool,
        continuation: u64,
        wakes: &mut Vec<Wake>,
    ) -> (r: Progress<AsyncTimeoutPhase, (Guard<T>, WaitTimeoutResult)>)
        requires
            old(self).wf(),
            old(mutex).wf(),
            call matches Call::Start(guard) ==> old(mutex)@.lent_to(guard),
            forall|data: &mut T|
                wait_spec::in_hand(call, true, old(mutex)@) == Some(*data)
                    ==> #[trigger] call_requires(*old(condition), (data,)),
        ensures
            final(self).wf(),
            final(mutex).wf(),
            *final(condition) == *old(condition),
            exists|trial: Option<wait_spec::Trial<T>>| #[trigger]
                wait_spec::async_timeout_while_step(
                    scene(old(self)@, old(mutex)@, old(wakes)@),
                    scene(final(self)@, final(mutex)@, final(wakes)@),
                    call,
                    trial,
                    old(ids).spec_next(),
                    final(ids).spec_next(),
                    timed_out,
                    continuation,
                    r,
                ) && (trial matches Some(trial) ==> exists|data: &mut T|
                    *data == trial.before && *final(data) == trial.after
                        && #[trigger] call_ensures(*old(condition), (data,), trial.holds)),
    {
        let mut guard = match call {
            Call::Start(guard) => guard,
            Call::Resume(phase) => {
                let progress = self.wait_async_timeout(
                    mutex,
                    Call::Resume(phase),
                    ids,
                    timed_out,
                    continuation,
                    wakes,
                );
                match timed_turn(progress) {
                    Turn::Try(guard) => guard,
                    Turn::Settled(r) => {
                        assert(wait_spec::async_timeout_while_step(
                            scene(old(self)@, old(mutex)@, old(wakes)@),
                            scene(self@, mutex@, wakes@),
                            call,
                            None,
                            old(ids).spec_next(),
                            ids.spec_next(),
                            timed_out,
                            continuation,
                            r,
                        ));
                        return r;
                    },
                }
            },
        };
        let ghost before = guard@;
        let data: &mut T = guard.get_mut();
        let holds: bool = (*condition)(data);
        let ghost trial = Some(wait_spec::Trial { before, after: guard@, holds });
        let r = self.wait_async_timeout_tried(mutex, guard, holds, ids, continuation, wakes);
        assert(wait_spec::async_timeout_while_step(
            scene(old(self)@, old(mutex)@, old(wakes)@),
            scene(self@, mutex@, wakes@),
            call,
            trial,
            old(ids).spec_next(),
            ids.spec_next(),
            timed_out,
            continuation,
            r,
        ));
        r
    }
}

} // verus!

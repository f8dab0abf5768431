//! That waiting is made of steps of a condition variable and of a mutex, so that what holds of
//! every course of theirs holds of waits.
use crate::condvar::{
    AsyncPhase, AsyncTimeoutPhase, AsyncWaiter, BlockPhase, BlockTimeoutPhase, SpinPhase,
    SpinTimeoutPhase, SyncPhase, SyncTimeoutPhase, WaitTimeoutResult,
};
use crate::condvar_laws::{lemma_run_of_one, run, CondvarStep, Course};
use crate::guard::Guard;
use crate::mutex_laws;
use crate::mutex_laws::MutexStep;
use crate::step::{Call, Caller, Progress, Wake};
use crate::time::Moment;
use crate::wait_spec;
use crate::wait_spec::{CondvarView, Scene, Trial};
use vstd::prelude::*;

verus! {

/// A wait's step from `before` to `after`, as its condition variable and its mutex see it: the one
/// goes through `steps` and wakes `woken`, the other goes through `mutex_steps` and wakes `freed`.
pub open spec fn followed<T>(
    condvar: Course,
    mutex: mutex_laws::Course<T>,
    before: Scene<T>,
    after: Scene<T>,
    steps: Seq<CondvarStep>,
    woken: Seq<Wake>,
    mutex_steps: Seq<MutexStep<T>>,
    freed: Seq<Wake>,
) -> bool {
    &&& run(condvar, steps).condvar == after.condvar
    &&& run(condvar, steps).woken =~= condvar.woken + woken
    &&& mutex_laws::led(mutex, mutex_steps, after.mutex, freed)
    &&& after.wakes =~= before.wakes + woken + freed
}

/// Whether a wait's step from `before` to `after` is made of steps of its condition variable, at
/// most one, and of its mutex.
pub open spec fn made_of_steps<T>(
    condvar: Course,
    mutex: mutex_laws::Course<T>,
    before: Scene<T>,
    after: Scene<T>,
) -> bool {
    exists|
        steps: Seq<CondvarStep>,
        woken: Seq<Wake>,
        mutex_steps: Seq<MutexStep<T>>,
        freed: Seq<Wake>,
    |
        steps.len() <= 1 && #[trigger] followed(
            condvar,
            mutex,
            before,
            after,
            steps,
            woken,
            mutex_steps,
            freed,
        )
}

/// A wait that starts with the mutex in hand, or takes it and starts anew.
proof fn lemma_starting<T>(
    condvar: Course,
    mutex: mutex_laws::Course<T>,
    before: Scene<T>,
    after: Scene<T>,
    value: T,
    joining: CondvarStep,
)
    requires
        condvar.condvar == before.condvar,
        mutex.mutex == before.mutex,
        joining is WaitSpin || joining is WaitSync || joining is WaitAsync,
        after == before.given_back(value).with_condvar(condvar.after(joining).condvar),
    ensures
        made_of_steps(condvar, mutex, before, after),
{
    lemma_run_of_one(condvar, joining);
    let back = seq![MutexStep::Release(value), MutexStep::Drain];
    let none = Seq::<Wake>::empty();
    if before.mutex.inner is None {
        mutex_laws::law_unlock_is_two_steps(mutex, value);
        assert(followed(
            condvar,
            mutex,
            before,
            after,
            seq![joining],
            none,
            back,
            before.mutex.waiters(),
        ));
    } else {
        let first = seq![MutexStep::<T>::Take];
        mutex_laws::law_taking_is_a_step(mutex);
        mutex_laws::law_unlock_is_two_steps(mutex_laws::run(mutex, first), value);
        mutex_laws::law_courses_go_on(mutex, first, back);
        assert(after.mutex =~= before.mutex.taken().released(value).drained());
        assert(before.mutex.taken().waiters() =~= before.mutex.waiters());
        assert(followed(
            condvar,
            mutex,
            before,
            after,
            seq![joining],
            none,
            first + back,
            before.mutex.waiters(),
        ));
    }
}

/// What happens to the waiting ones, by `steps`, before a wait tries to take the mutex again or
/// keeps waiting: `after` is as before but for them, or the mutex has been taken, or missed.
proof fn lemma_going_on<T>(
    condvar: Course,
    mutex: mutex_laws::Course<T>,
    before: Scene<T>,
    after: Scene<T>,
    steps: Seq<CondvarStep>,
    woken: Seq<Wake>,
    listing: Option<MutexStep<T>>,
)
    requires
        mutex.mutex == before.mutex,
        steps.len() <= 1,
        run(condvar, steps).woken =~= condvar.woken + woken,
        listing matches Some(step) ==> step is Queue || step is QueueAsync,
        ({
            let listed = before.with_condvar(run(condvar, steps).condvar).with_wakes(woken);
            ||| after == listed
            ||| before.mutex.inner is Some && after == listed.taken()
            ||| before.mutex.inner is None && (listing matches Some(step) && after
                == listed.with_mutex(mutex.after(step).mutex))
        }),
    ensures
        made_of_steps(condvar, mutex, before, after),
{
    let listed = before.with_condvar(run(condvar, steps).condvar).with_wakes(woken);
    let none = Seq::<Wake>::empty();
    if after == listed {
        let nothing = Seq::<MutexStep<T>>::empty();
        assert(followed(condvar, mutex, before, after, steps, woken, nothing, none));
    } else if before.mutex.inner is Some {
        let first = seq![MutexStep::<T>::Take];
        mutex_laws::law_taking_is_a_step(mutex);
        assert(followed(condvar, mutex, before, after, steps, woken, first, none));
    } else {
        let listings = seq![listing->0];
        mutex_laws::law_listing_is_a_step(mutex, listing->0);
        assert(followed(condvar, mutex, before, after, steps, woken, listings, none));
    }
}

/// The step by which a waiter takes itself off, if it does.
spec fn withdrawing(step: CondvarStep, withdraws: bool) -> Seq<CondvarStep> {
    if withdraws {
        seq![step]
    } else {
        Seq::empty()
    }
}

/// Each step of `wait_block` is made of steps of the condition variable and of the mutex.
pub proof fn law_wait_block_is_made_of_steps<T>(
    condvar: Course,
    mutex: mutex_laws::Course<T>,
    before: Scene<T>,
    after: Scene<T>,
    call: Call<Guard<T>, BlockPhase>,
    caller: Caller,
    r: Progress<BlockPhase, Guard<T>>,
)
    requires
        condvar.condvar == before.condvar,
        mutex.mutex == before.mutex,
        call is Start ==> before.mutex.inner is None,
        wait_spec::block_step(
            before,
            after,
            call,
            caller,
            r,
        ),
    ensures
        made_of_steps(condvar, mutex, before, after),
{
    let joining = CondvarStep::WaitSync(caller.thread);
    let steps = Seq::<CondvarStep>::empty();
    let woken = Seq::<Wake>::empty();
    assert(before.with_condvar(before.condvar).with_wakes(Seq::empty()) =~= before);
    if let Call::Start(guard) = call {
        lemma_starting(condvar, mutex, before, after, guard@, joining);
    } else {
        let listing = mutex_laws::sync_listing(caller);
        lemma_going_on(condvar, mutex, before, after, steps, woken, listing);
    }
}

/// Each step of `wait_spin` is made of steps of the condition variable and of the mutex.
pub proof fn law_wait_spin_is_made_of_steps<T>(
    condvar: Course,
    mutex: mutex_laws::Course<T>,
    before: Scene<T>,
    after: Scene<T>,
    call: Call<Guard<T>, SpinPhase>,
    flag: u64,
    raised: bool,
    caller: Caller,
    r: Progress<SpinPhase, Guard<T>>,
)
    requires
        condvar.condvar == before.condvar,
        mutex.mutex == before.mutex,
        call is Start ==> before.mutex.inner is None,
        wait_spec::spin_step(
            before,
            after,
            call,
            flag,
            raised,
            caller,
            r,
        ),
    ensures
        made_of_steps(condvar, mutex, before, after),
{
    let joining = CondvarStep::WaitSpin(flag);
    let steps = Seq::<CondvarStep>::empty();
    let woken = Seq::<Wake>::empty();
    assert(before.with_condvar(before.condvar).with_wakes(Seq::empty()) =~= before);
    if let Call::Start(guard) = call {
        lemma_starting(condvar, mutex, before, after, guard@, joining);
    } else {
        let listing = mutex_laws::sync_listing(caller);
        lemma_going_on(condvar, mutex, before, after, steps, woken, listing);
    }
}

/// Each step of `wait_sync` is made of steps of the condition variable and of the mutex.
pub proof fn law_wait_sync_is_made_of_steps<T>(
    condvar: Course,
    mutex: mutex_laws::Course<T>,
    before: Scene<T>,
    after: Scene<T>,
    call: Call<Guard<T>, SyncPhase>,
    flag: u64,
    raised: bool,
    caller: Caller,
    r: Progress<SyncPhase, Guard<T>>,
)
    requires
        condvar.condvar == before.condvar,
        mutex.mutex == before.mutex,
        call is Start ==> before.mutex.inner is None,
        wait_spec::sync_step(
            before,
            after,
            call,
            flag,
            raised,
            caller,
            r,
        ),
    ensures
        made_of_steps(condvar, mutex, before, after),
{
    let joining = if caller.can_block {
        CondvarStep::WaitSync(caller.thread)
    } else {
        CondvarStep::WaitSpin(flag)
    };
    let steps = Seq::<CondvarStep>::empty();
    let woken = Seq::<Wake>::empty();
    assert(before.with_condvar(before.condvar).with_wakes(Seq::empty()) =~= before);
    if let Call::Start(guard) = call {
        lemma_starting(condvar, mutex, before, after, guard@, joining);
    } else {
        let listing = mutex_laws::sync_listing(caller);
        lemma_going_on(condvar, mutex, before, after, steps, woken, listing);
    }
}

/// Each step of `wait_async` is made of steps of the condition variable and of the mutex.
pub proof fn law_wait_async_is_made_of_steps<T>(
    condvar: Course,
    mutex: mutex_laws::Course<T>,
    before: Scene<T>,
    after: Scene<T>,
    call: Call<Guard<T>, AsyncPhase>,
    id: u64,
    next: u64,
    continuation: u64,
    r: Progress<AsyncPhase, Guard<T>>,
)
    requires
        condvar.condvar == before.condvar,
        mutex.mutex == before.mutex,
        call is Start ==> before.mutex.inner is None,
        wait_spec::async_step(
            before,
            after,
            call,
            id,
            next,
            continuation,
            r,
        ),
    ensures
        made_of_steps(condvar, mutex, before, after),
{
    let joining = CondvarStep::WaitAsync(AsyncWaiter { id, sender: continuation });
    let steps = Seq::<CondvarStep>::empty();
    let woken = Seq::<Wake>::empty();
    assert(before.with_condvar(before.condvar).with_wakes(Seq::empty()) =~= before);
    if let Call::Start(guard) = call {
        lemma_starting(condvar, mutex, before, after, guard@, joining);
    } else {
        let listing = Some(MutexStep::QueueAsync(continuation));
        lemma_going_on(condvar, mutex, before, after, steps, woken, listing);
    }
}

/// Each step of `wait_block_timeout` is made of steps of the condition variable and of the mutex.
pub proof fn law_wait_block_timeout_is_made_of_steps<T>(
    condvar: Course,
    mutex: mutex_laws::Course<T>,
    before: Scene<T>,
    after: Scene<T>,
    call: Call<Guard<T>, BlockTimeoutPhase>,
    caller: Caller,
    now: Moment,
    deadline: Moment,
    r: Progress<BlockTimeoutPhase, (Guard<T>, WaitTimeoutResult)>,
)
    requires
        condvar.condvar == before.condvar,
        mutex.mutex == before.mutex,
        call is Start ==> before.mutex.inner is None,
        wait_spec::block_timeout_step(
            before,
            after,
            call,
            caller,
            now,
            deadline,
            r,
        ),
    ensures
        made_of_steps(condvar, mutex, before, after),
{
    let joining = CondvarStep::WaitSync(caller.thread);
    let steps = match call {
        Call::Resume(BlockTimeoutPhase::Tick) => withdrawing(
            CondvarStep::TimeoutSync(caller.thread),
            now.spec_reached(deadline),
        ),
        _ => Seq::empty(),
    };
    let woken = Seq::<Wake>::empty();
    if steps.len() == 1 {
        lemma_run_of_one(condvar, steps[0]);
        assert(steps =~= seq![steps[0]]);
    }
    assert(before.with_condvar(before.condvar).with_wakes(Seq::empty()) =~= before);
    if let Call::Start(guard) = call {
        lemma_starting(condvar, mutex, before, after, guard@, joining);
    } else {
        let listing = mutex_laws::sync_listing(caller);
        lemma_going_on(condvar, mutex, before, after, steps, woken, listing);
    }
}

/// Each step of `wait_spin_timeout` is made of steps of the condition variable and of the mutex.
pub proof fn law_wait_spin_timeout_is_made_of_steps<T>(
    condvar: Course,
    mutex: mutex_laws::Course<T>,
    before: Scene<T>,
    after: Scene<T>,
    call: Call<Guard<T>, SpinTimeoutPhase>,
    flag: u64,
    raised: bool,
    caller: Caller,
    now: Moment,
    deadline: Moment,
    r: Progress<SpinTimeoutPhase, (Guard<T>, WaitTimeoutResult)>,
)
    requires
        condvar.condvar == before.condvar,
        mutex.mutex == before.mutex,
        call is Start ==> before.mutex.inner is None,
        wait_spec::spin_timeout_step(
            before,
            after,
            call,
            flag,
            raised,
            caller,
            now,
            deadline,
            r,
        ),
    ensures
        made_of_steps(condvar, mutex, before, after),
{
    let joining = CondvarStep::WaitSpin(flag);
    let steps = match call {
        Call::Resume(SpinTimeoutPhase::Spinning(flag)) => withdrawing(
            CondvarStep::TimeoutSpin(flag),
            !raised && now.spec_reached(deadline),
        ),
        _ => Seq::empty(),
    };
    let woken = Seq::<Wake>::empty();
    if steps.len() == 1 {
        lemma_run_of_one(condvar, steps[0]);
        assert(steps =~= seq![steps[0]]);
    }
    assert(before.with_condvar(before.condvar).with_wakes(Seq::empty()) =~= before);
    if let Call::Start(guard) = call {
        lemma_starting(condvar, mutex, before, after, guard@, joining);
    } else {
        let listing = mutex_laws::sync_listing(caller);
        lemma_going_on(condvar, mutex, before, after, steps, woken, listing);
    }
}

/// Each step of `wait_sync_timeout` is made of steps of the condition variable and of the mutex.
pub proof fn law_wait_sync_timeout_is_made_of_steps<T>(
    condvar: Course,
    mutex: mutex_laws::Course<T>,
    before: Scene<T>,
    after: Scene<T>,
    call: Call<Guard<T>, SyncTimeoutPhase>,
    flag: u64,
    raised: bool,
    caller: Caller,
    now: Moment,
    deadline: Moment,
    r: Progress<SyncTimeoutPhase, (Guard<T>, WaitTimeoutResult)>,
)
    requires
        condvar.condvar == before.condvar,
        mutex.mutex == before.mutex,
        call is Start ==> before.mutex.inner is None,
        wait_spec::sync_timeout_step(
            before,
            after,
            call,
            flag,
            raised,
            caller,
            now,
            deadline,
            r,
        ),
    ensures
        made_of_steps(condvar, mutex, before, after),
{
    let joining = if caller.can_block {
        CondvarStep::WaitSync(caller.thread)
    } else {
        CondvarStep::WaitSpin(flag)
    };
    let steps = match call {
        Call::Resume(SyncTimeoutPhase::Spin(SpinTimeoutPhase::Spinning(flag))) => withdrawing(
            CondvarStep::TimeoutSpin(flag),
            !raised && now.spec_reached(deadline),
        ),
        Call::Resume(SyncTimeoutPhase::Block(BlockTimeoutPhase::Tick)) => withdrawing(
            CondvarStep::TimeoutSync(caller.thread),
            now.spec_reached(deadline),
        ),
        _ => Seq::empty(),
    };
    let woken = Seq::<Wake>::empty();
    if steps.len() == 1 {
        lemma_run_of_one(condvar, steps[0]);
        assert(steps =~= seq![steps[0]]);
    }
    assert(before.with_condvar(before.condvar).with_wakes(Seq::empty()) =~= before);
    if let Call::Start(guard) = call {
        lemma_starting(condvar, mutex, before, after, guard@, joining);
    } else {
        let listing = mutex_laws::sync_listing(caller);
        lemma_going_on(condvar, mutex, before, after, steps, woken, listing);
    }
}

/// Each step of `wait_async_timeout` is made of steps of the condition variable and of the mutex.
pub proof fn law_wait_async_timeout_is_made_of_steps<T>(
    condvar: Course,
    mutex: mutex_laws::Course<T>,
    before: Scene<T>,
    after: Scene<T>,
    call: Call<Guard<T>, AsyncTimeoutPhase>,
    id: u64,
    next: u64,
    timed_out: bool,
    continuation: u64,
    r: Progress<AsyncTimeoutPhase, (Guard<T>, WaitTimeoutResult)>,
)
    requires
        condvar.condvar == before.condvar,
        mutex.mutex == before.mutex,
        call is Start ==> before.mutex.inner is None,
        wait_spec::async_timeout_step(
            before,
            after,
            call,
            id,
            next,
            timed_out,
            continuation,
            r,
        ),
    ensures
        made_of_steps(condvar, mutex, before, after),
{
    let joining = CondvarStep::WaitAsync(AsyncWaiter { id, sender: continuation });
    let steps = match call {
        Call::Resume(AsyncTimeoutPhase::Racing(id)) => withdrawing(
            CondvarStep::TimeoutAsync(id),
            timed_out,
        ),
        _ => Seq::empty(),
    };
    let woken = match call {
        Call::Resume(phase) => wait_spec::async_timeout_wakes(before.condvar, phase, timed_out),
        _ => Seq::empty(),
    };
    if steps.len() == 1 {
        lemma_run_of_one(condvar, steps[0]);
        assert(steps =~= seq![steps[0]]);
    }
    assert(before.with_condvar(before.condvar).with_wakes(Seq::empty()) =~= before);
    if let Call::Start(guard) = call {
        lemma_starting(condvar, mutex, before, after, guard@, joining);
    } else {
        let listing = Some(MutexStep::QueueAsync(continuation));
        lemma_going_on(condvar, mutex, before, after, steps, woken, listing);
    }
}

/// Each step of `wait_block_while` is made of steps of the condition variable and of the mutex.
pub proof fn law_wait_block_while_is_made_of_steps<T>(
    condvar: Course,
    mutex: mutex_laws::Course<T>,
    before: Scene<T>,
    after: Scene<T>,
    call: Call<Guard<T>, BlockPhase>,
    trial: Option<Trial<T>>,
    caller: Caller,
    r: Progress<BlockPhase, Guard<T>>,
)
    requires
        condvar.condvar == before.condvar,
        mutex.mutex == before.mutex,
        call is Start ==> before.mutex.inner is None,
        wait_spec::block_while_step(
            before,
            after,
            call,
            trial,
            caller,
            r,
        ),
    ensures
        made_of_steps(condvar, mutex, before, after),
{
    let joining = CondvarStep::WaitSync(caller.thread);
    let steps = Seq::<CondvarStep>::empty();
    let woken = Seq::<Wake>::empty();
    assert(before.with_condvar(before.condvar).with_wakes(Seq::empty()) =~= before);
    if trial is Some && trial->0.holds {
        lemma_starting(condvar, mutex, before, after, trial->0.after, joining);
    } else if call is Start {
        assert(before.taken() =~= before);
        lemma_going_on(condvar, mutex, before, after, Seq::empty(), Seq::empty(), None);
    } else {
        let listing = mutex_laws::sync_listing(caller);
        lemma_going_on(condvar, mutex, before, after, steps, woken, listing);
    }
}

/// Each step of `wait_spin_while` is made of steps of the condition variable and of the mutex.
pub proof fn law_wait_spin_while_is_made_of_steps<T>(
    condvar: Course,
    mutex: mutex_laws::Course<T>,
    before: Scene<T>,
    after: Scene<T>,
    call: Call<Guard<T>, SpinPhase>,
    trial: Option<Trial<T>>,
    flag: u64,
    raised: bool,
    caller: Caller,
    r: Progress<SpinPhase, Guard<T>>,
)
    requires
        condvar.condvar == before.condvar,
        mutex.mutex == before.mutex,
        call is Start ==> before.mutex.inner is None,
        wait_spec::spin_while_step(
            before,
            after,
            call,
            trial,
            flag,
            raised,
            caller,
            r,
        ),
    ensures
        made_of_steps(condvar, mutex, before, after),
{
    let joining = CondvarStep::WaitSpin(flag);
    let steps = Seq::<CondvarStep>::empty();
    let woken = Seq::<Wake>::empty();
    assert(before.with_condvar(before.condvar).with_wakes(Seq::empty()) =~= before);
    if trial is Some && trial->0.holds {
        lemma_starting(condvar, mutex, before, after, trial->0.after, joining);
    } else if call is Start {
        assert(before.taken() =~= before);
        lemma_going_on(condvar, mutex, before, after, Seq::empty(), Seq::empty(), None);
    } else {
        let listing = mutex_laws::sync_listing(caller);
        lemma_going_on(condvar, mutex, before, after, steps, woken, listing);
    }
}

/// Each step of `wait_sync_while` is made of steps of the condition variable and of the mutex.
pub proof fn law_wait_sync_while_is_made_of_steps<T>(
    condvar: Course,
    mutex: mutex_laws::Course<T>,
    before: Scene<T>,
    after: Scene<T>,
    call: Call<Guard<T>, SyncPhase>,
    trial: Option<Trial<T>>,
    flag: u64,
    raised: bool,
    caller: Caller,
    r: Progress<SyncPhase, Guard<T>>,
)
    requires
        condvar.condvar == before.condvar,
        mutex.mutex == before.mutex,
        call is Start ==> before.mutex.inner is None,
        wait_spec::sync_while_step(
            before,
            after,
            call,
            trial,
            flag,
            raised,
            caller,
            r,
        ),
    ensures
        made_of_steps(condvar, mutex, before, after),
{
    let joining = if caller.can_block {
        CondvarStep::WaitSync(caller.thread)
    } else {
        CondvarStep::WaitSpin(flag)
    };
    let steps = Seq::<CondvarStep>::empty();
    let woken = Seq::<Wake>::empty();
    assert(before.with_condvar(before.condvar).with_wakes(Seq::empty()) =~= before);
    if trial is Some && trial->0.holds {
        lemma_starting(condvar, mutex, before, after, trial->0.after, joining);
    } else if call is Start {
        assert(before.taken() =~= before);
        lemma_going_on(condvar, mutex, before, after, Seq::empty(), Seq::empty(), None);
    } else {
        let listing = mutex_laws::sync_listing(caller);
        lemma_going_on(condvar, mutex, before, after, steps, woken, listing);
    }
}

/// Each step of `wait_async_while` is made of steps of the condition variable and of the mutex.
pub proof fn law_wait_async_while_is_made_of_steps<T>(
    condvar: Course,
    mutex: mutex_laws::Course<T>,
    before: Scene<T>,
    after: Scene<T>,
    call: Call<Guard<T>, AsyncPhase>,
    trial: Option<Trial<T>>,
    id: u64,
    next: u64,
    continuation: u64,
    r: Progress<AsyncPhase, Guard<T>>,
)
    requires
        condvar.condvar == before.condvar,
        mutex.mutex == before.mutex,
        call is Start ==> before.mutex.inner is None,
        wait_spec::async_while_step(
            before,
            after,
            call,
            trial,
            id,
            next,
            continuation,
            r,
        ),
    ensures
        made_of_steps(condvar, mutex, before, after),
{
    let joining = CondvarStep::WaitAsync(AsyncWaiter { id, sender: continuation });
    let steps = Seq::<CondvarStep>::empty();
    let woken = Seq::<Wake>::empty();
    assert(before.with_condvar(before.condvar).with_wakes(Seq::empty()) =~= before);
    if trial is Some && trial->0.holds {
        lemma_starting(condvar, mutex, before, after, trial->0.after, joining);
    } else if call is Start {
        assert(before.taken() =~= before);
        lemma_going_on(condvar, mutex, before, after, Seq::empty(), Seq::empty(), None);
    } else {
        let listing = Some(MutexStep::QueueAsync(continuation));
        lemma_going_on(condvar, mutex, before, after, steps, woken, listing);
    }
}

/// Each step of `wait_block_timeout_while` is made of steps of the condition variable and of the
/// mutex.
pub proof fn law_wait_block_timeout_while_is_made_of_steps<T>(
    condvar: Course,
    mutex: mutex_laws::Course<T>,
    before: Scene<T>,
    after: Scene<T>,
    call: Call<Guard<T>, BlockTimeoutPhase>,
    trial: Option<Trial<T>>,
    caller: Caller,
    now: Moment,
    deadline: Moment,
    r: Progress<BlockTimeoutPhase, (Guard<T>, WaitTimeoutResult)>,
)
    requires
        condvar.condvar == before.condvar,
        mutex.mutex == before.mutex,
        call is Start ==> before.mutex.inner is None,
        wait_spec::block_timeout_while_step(
            before,
            after,
            call,
            trial,
            caller,
            now,
            deadline,
            r,
        ),
    ensures
        made_of_steps(condvar, mutex, before, after),
{
    before.condvar.sync.index_of_first_ensures(caller.thread);
    let joining = CondvarStep::WaitSync(caller.thread);
    let steps = match call {
        Call::Resume(BlockTimeoutPhase::Tick) => withdrawing(
            CondvarStep::TimeoutSync(caller.thread),
            now.spec_reached(deadline),
        ),
        _ => Seq::empty(),
    };
    let woken = Seq::<Wake>::empty();
    if steps.len() == 1 {
        lemma_run_of_one(condvar, steps[0]);
        assert(steps =~= seq![steps[0]]);
    }
    assert(before.with_condvar(before.condvar).with_wakes(Seq::empty()) =~= before);
    if trial is Some && trial->0.holds {
        lemma_starting(condvar, mutex, before, after, trial->0.after, joining);
    } else if call is Start {
        assert(before.taken() =~= before);
        lemma_going_on(condvar, mutex, before, after, Seq::empty(), Seq::empty(), None);
    } else {
        let listing = mutex_laws::sync_listing(caller);
        lemma_going_on(condvar, mutex, before, after, steps, woken, listing);
    }
}

/// Each step of `wait_spin_timeout_while` is made of steps of the condition variable and of the
/// mutex.
pub proof fn law_wait_spin_timeout_while_is_made_of_steps<T>(
    condvar: Course,
    mutex: mutex_laws::Course<T>,
    before: Scene<T>,
    after: Scene<T>,
    call: Call<Guard<T>, SpinTimeoutPhase>,
    trial: Option<Trial<T>>,
    flag: u64,
    raised: bool,
    caller: Caller,
    now: Moment,
    deadline: Moment,
    r: Progress<SpinTimeoutPhase, (Guard<T>, WaitTimeoutResult)>,
)
    requires
        condvar.condvar == before.condvar,
        mutex.mutex == before.mutex,
        call is Start ==> before.mutex.inner is None,
        wait_spec::spin_timeout_while_step(
            before,
            after,
            call,
            trial,
            flag,
            raised,
            caller,
            now,
            deadline,
            r,
        ),
    ensures
        made_of_steps(condvar, mutex, before, after),
{
    let joining = CondvarStep::WaitSpin(flag);
    let steps = match call {
        Call::Resume(SpinTimeoutPhase::Spinning(flag)) => withdrawing(
            CondvarStep::TimeoutSpin(flag),
            !raised && now.spec_reached(deadline),
        ),
        _ => Seq::empty(),
    };
    let woken = Seq::<Wake>::empty();
    if steps.len() == 1 {
        lemma_run_of_one(condvar, steps[0]);
        assert(steps =~= seq![steps[0]]);
    }
    assert(before.with_condvar(before.condvar).with_wakes(Seq::empty()) =~= before);
    if trial is Some && trial->0.holds {
        lemma_starting(condvar, mutex, before, after, trial->0.after, joining);
    } else if call is Start {
        assert(before.taken() =~= before);
        lemma_going_on(condvar, mutex, before, after, Seq::empty(), Seq::empty(), None);
    } else {
        let listing = mutex_laws::sync_listing(caller);
        lemma_going_on(condvar, mutex, before, after, steps, woken, listing);
    }
}

/// Each step of `wait_sync_timeout_while` is made of steps of the condition variable and of the
/// mutex.
pub proof fn law_wait_sync_timeout_while_is_made_of_steps<T>(
    condvar: Course,
    mutex: mutex_laws::Course<T>,
    before: Scene<T>,
    after: Scene<T>,
    call: Call<Guard<T>, SyncTimeoutPhase>,
    trial: Option<Trial<T>>,
    flag: u64,
    raised: bool,
    caller: Caller,
    now: Moment,
    deadline: Moment,
    r: Progress<SyncTimeoutPhase, (Guard<T>, WaitTimeoutResult)>,
)
    requires
        condvar.condvar == before.condvar,
        mutex.mutex == before.mutex,
        call is Start ==> before.mutex.inner is None,
        wait_spec::sync_timeout_while_step(
            before,
            after,
            call,
            trial,
            flag,
            raised,
            caller,
            now,
            deadline,
            r,
        ),
    ensures
        made_of_steps(condvar, mutex, before, after),
{
    before.condvar.sync.index_of_first_ensures(caller.thread);
    let joining = if caller.can_block {
        CondvarStep::WaitSync(caller.thread)
    } else {
        CondvarStep::WaitSpin(flag)
    };
    let steps = match call {
        Call::Resume(SyncTimeoutPhase::Spin(SpinTimeoutPhase::Spinning(flag))) => withdrawing(
            CondvarStep::TimeoutSpin(flag),
            !raised && now.spec_reached(deadline),
        ),
        Call::Resume(SyncTimeoutPhase::Block(BlockTimeoutPhase::Tick)) => withdrawing(
            CondvarStep::TimeoutSync(caller.thread),
            now.spec_reached(deadline),
        ),
        _ => Seq::empty(),
    };
    let woken = Seq::<Wake>::empty();
    if steps.len() == 1 {
        lemma_run_of_one(condvar, steps[0]);
        assert(steps =~= seq![steps[0]]);
    }
    assert(before.with_condvar(before.condvar).with_wakes(Seq::empty()) =~= before);
    if trial is Some && trial->0.holds {
        lemma_starting(condvar, mutex, before, after, trial->0.after, joining);
    } else if call is Start {
        assert(before.taken() =~= before);
        lemma_going_on(condvar, mutex, before, after, Seq::empty(), Seq::empty(), None);
    } else {
        let listing = mutex_laws::sync_listing(caller);
        lemma_going_on(condvar, mutex, before, after, steps, woken, listing);
    }
}

/// Each step of `wait_async_timeout_while` is made of steps of the condition variable and of the
/// mutex.
pub proof fn law_wait_async_timeout_while_is_made_of_steps<T>(
    condvar: Course,
    mutex: mutex_laws::Course<T>,
    before: Scene<T>,
    after: Scene<T>,
    call: Call<Guard<T>, AsyncTimeoutPhase>,
    trial: Option<Trial<T>>,
    id: u64,
    next: u64,
    timed_out: bool,
    continuation: u64,
    r: Progress<AsyncTimeoutPhase, (Guard<T>, WaitTimeoutResult)>,
)
    requires
        condvar.condvar == before.condvar,
        mutex.mutex == before.mutex,
        call is Start ==> before.mutex.inner is None,
        wait_spec::async_timeout_while_step(
            before,
            after,
            call,
            trial,
            id,
            next,
            timed_out,
            continuation,
            r,
        ),
    ensures
        made_of_steps(condvar, mutex, before, after),
{
    let joining = CondvarStep::WaitAsync(AsyncWaiter { id, sender: continuation });
    let steps = match call {
        Call::Resume(AsyncTimeoutPhase::Racing(id)) => withdrawing(
            CondvarStep::TimeoutAsync(id),
            timed_out,
        ),
        _ => Seq::empty(),
    };
    let woken = match call {
        Call::Resume(phase) => wait_spec::async_timeout_wakes(before.condvar, phase, timed_out),
        _ => Seq::empty(),
    };
    if steps.len() == 1 {
        lemma_run_of_one(condvar, steps[0]);
        assert(steps =~= seq![steps[0]]);
    }
    assert(before.with_condvar(before.condvar).with_wakes(Seq::empty()) =~= before);
    if trial is Some && trial->0.holds {
        lemma_starting(condvar, mutex, before, after, trial->0.after, joining);
    } else if call is Start {
        assert(before.taken() =~= before);
        lemma_going_on(condvar, mutex, before, after, Seq::empty(), Seq::empty(), None);
    } else {
        let listing = Some(MutexStep::QueueAsync(continuation));
        lemma_going_on(condvar, mutex, before, after, steps, woken, listing);
    }
}

/// A wait whose condition has been tried with the mutex in hand.
proof fn lemma_trying<T>(
    condvar: Course,
    mutex: mutex_laws::Course<T>,
    before: Scene<T>,
    after: Scene<T>,
    kept: T,
    holds: bool,
    joining: CondvarStep,
)
    requires
        condvar.condvar == before.condvar,
        mutex.mutex == before.mutex,
        before.mutex.inner is None,
        joining is WaitSpin || joining is WaitSync || joining is WaitAsync,
        after == if holds {
            before.given_back(kept).with_condvar(condvar.after(joining).condvar)
        } else {
            before.taken()
        },
    ensures
        made_of_steps(condvar, mutex, before, after),
{
    if holds {
        lemma_starting(condvar, mutex, before, after, kept, joining);
    } else {
        assert(before.taken() =~= before);
        assert(before.with_condvar(before.condvar).with_wakes(Seq::empty()) =~= before);
        lemma_going_on(condvar, mutex, before, after, Seq::empty(), Seq::empty(), None);
    }
}

/// The step of `wait_block_tried` is made of steps of the condition variable and of the mutex.
pub proof fn law_wait_block_tried_is_made_of_steps<T>(
    condvar: Course,
    mutex: mutex_laws::Course<T>,
    before: Scene<T>,
    after: Scene<T>,
    kept: T,
    holds: bool,
    caller: Caller,
    r: Progress<BlockPhase, Guard<T>>,
)
    requires
        condvar.condvar == before.condvar,
        mutex.mutex == before.mutex,
        before.mutex.inner is None,
        wait_spec::block_tried(before, after, kept, holds, caller, r),
    ensures
        made_of_steps(condvar, mutex, before, after),
{
    let joining = CondvarStep::WaitSync(caller.thread);
    lemma_trying(condvar, mutex, before, after, kept, holds, joining);
}

/// The step of `wait_spin_tried` is made of steps of the condition variable and of the mutex.
pub proof fn law_wait_spin_tried_is_made_of_steps<T>(
    condvar: Course,
    mutex: mutex_laws::Course<T>,
    before: Scene<T>,
    after: Scene<T>,
    kept: T,
    holds: bool,
    flag: u64,
    r: Progress<SpinPhase, Guard<T>>,
)
    requires
        condvar.condvar == before.condvar,
        mutex.mutex == before.mutex,
        before.mutex.inner is None,
        wait_spec::spin_tried(before, after, kept, holds, flag, r),
    ensures
        made_of_steps(condvar, mutex, before, after),
{
    let joining = CondvarStep::WaitSpin(flag);
    lemma_trying(condvar, mutex, before, after, kept, holds, joining);
}

/// The step of `wait_sync_tried` is made of steps of the condition variable and of the mutex.
pub proof fn law_wait_sync_tried_is_made_of_steps<T>(
    condvar: Course,
    mutex: mutex_laws::Course<T>,
    before: Scene<T>,
    after: Scene<T>,
    kept: T,
    holds: bool,
    flag: u64,
    caller: Caller,
    r: Progress<SyncPhase, Guard<T>>,
)
    requires
        condvar.condvar == before.condvar,
        mutex.mutex == before.mutex,
        before.mutex.inner is None,
        wait_spec::sync_tried(before, after, kept, holds, flag, caller, r),
    ensures
        made_of_steps(condvar, mutex, before, after),
{
    let joining = if caller.can_block {
        CondvarStep::WaitSync(caller.thread)
    } else {
        CondvarStep::WaitSpin(flag)
    };
    lemma_trying(condvar, mutex, before, after, kept, holds, joining);
}

/// The step of `wait_async_tried` is made of steps of the condition variable and of the mutex.
pub proof fn law_wait_async_tried_is_made_of_steps<T>(
    condvar: Course,
    mutex: mutex_laws::Course<T>,
    before: Scene<T>,
    after: Scene<T>,
    kept: T,
    holds: bool,
    id: u64,
    next: u64,
    continuation: u64,
    r: Progress<AsyncPhase, Guard<T>>,
)
    requires
        condvar.condvar == before.condvar,
        mutex.mutex == before.mutex,
        before.mutex.inner is None,
        wait_spec::async_tried(before, after, kept, holds, id, next, continuation, r),
    ensures
        made_of_steps(condvar, mutex, before, after),
{
    let joining = CondvarStep::WaitAsync(AsyncWaiter { id, sender: continuation });
    lemma_trying(condvar, mutex, before, after, kept, holds, joining);
}

/// The step of `wait_block_timeout_tried` is made of steps of the condition variable and of the
/// mutex.
pub proof fn law_wait_block_timeout_tried_is_made_of_steps<T>(
    condvar: Course,
    mutex: mutex_laws::Course<T>,
    before: Scene<T>,
    after: Scene<T>,
    kept: T,
    holds: bool,
    caller: Caller,
    r: Progress<BlockTimeoutPhase, (Guard<T>, WaitTimeoutResult)>,
)
    requires
        condvar.condvar == before.condvar,
        mutex.mutex == before.mutex,
        before.mutex.inner is None,
        wait_spec::block_timeout_tried(before, after, kept, holds, caller, r),
    ensures
        made_of_steps(condvar, mutex, before, after),
{
    let joining = CondvarStep::WaitSync(caller.thread);
    lemma_trying(condvar, mutex, before, after, kept, holds, joining);
}

/// The step of `wait_spin_timeout_tried` is made of steps of the condition variable and of the
/// mutex.
pub proof fn law_wait_spin_timeout_tried_is_made_of_steps<T>(
    condvar: Course,
    mutex: mutex_laws::Course<T>,
    before: Scene<T>,
    after: Scene<T>,
    kept: T,
    holds: bool,
    flag: u64,
    r: Progress<SpinTimeoutPhase, (Guard<T>, WaitTimeoutResult)>,
)
    requires
        condvar.condvar == before.condvar,
        mutex.mutex == before.mutex,
        before.mutex.inner is None,
        wait_spec::spin_timeout_tried(before, after, kept, holds, flag, r),
    ensures
        made_of_steps(condvar, mutex, before, after),
{
    let joining = CondvarStep::WaitSpin(flag);
    lemma_trying(condvar, mutex, before, after, kept, holds, joining);
}

/// The step of `wait_sync_timeout_tried` is made of steps of the condition variable and of the
/// mutex.
pub proof fn law_wait_sync_timeout_tried_is_made_of_steps<T>(
    condvar: Course,
    mutex: mutex_laws::Course<T>,
    before: Scene<T>,
    after: Scene<T>,
    kept: T,
    holds: bool,
    flag: u64,
    caller: Caller,
    r: Progress<SyncTimeoutPhase, (Guard<T>, WaitTimeoutResult)>,
)
    requires
        condvar.condvar == before.condvar,
        mutex.mutex == before.mutex,
        before.mutex.inner is None,
        wait_spec::sync_timeout_tried(before, after, kept, holds, flag, caller, r),
    ensures
        made_of_steps(condvar, mutex, before, after),
{
    let joining = if caller.can_block {
        CondvarStep::WaitSync(caller.thread)
    } else {
        CondvarStep::WaitSpin(flag)
    };
    lemma_trying(condvar, mutex, before, after, kept, holds, joining);
}

/// The step of `wait_async_timeout_tried` is made of steps of the condition variable and of the
/// mutex.
pub proof fn law_wait_async_timeout_tried_is_made_of_steps<T>(
    condvar: Course,
    mutex: mutex_laws::Course<T>,
    before: Scene<T>,
    after: Scene<T>,
    kept: T,
    holds: bool,
    id: u64,
    next: u64,
    continuation: u64,
    r: Progress<AsyncTimeoutPhase, (Guard<T>, WaitTimeoutResult)>,
)
    requires
        condvar.condvar == before.condvar,
        mutex.mutex == before.mutex,
        before.mutex.inner is None,
        wait_spec::async_timeout_tried(before, after, kept, holds, id, next, continuation, r),
    ensures
        made_of_steps(condvar, mutex, before, after),
{
    let joining = CondvarStep::WaitAsync(AsyncWaiter { id, sender: continuation });
    lemma_trying(condvar, mutex, before, after, kept, holds, joining);
}

/// What a wait with a deadline does in a phase in which it does not read the clock does not depend
/// on the time.
pub proof fn law_waits_depend_on_what_they_read(
    condvar: CondvarView,
    block: BlockTimeoutPhase,
    spin: SpinTimeoutPhase,
    sync: SyncTimeoutPhase,
    raised: bool,
    thread: u64,
    now: Moment,
    other: Moment,
    deadline: Moment,
)
    ensures
        !wait_spec::block_timeout_reads(block) ==> wait_spec::block_timeout_decision(
            condvar,
            block,
            thread,
            now,
            deadline,
        ) == wait_spec::block_timeout_decision(condvar, block, thread, other, deadline)
            && wait_spec::block_timeout_condvar(condvar, block, thread, now, deadline) == condvar,
        !wait_spec::spin_timeout_reads(spin, raised) ==> wait_spec::spin_timeout_decision(
            condvar,
            spin,
            raised,
            now,
            deadline,
        ) == wait_spec::spin_timeout_decision(condvar, spin, raised, other, deadline)
            && wait_spec::spin_timeout_condvar(condvar, spin, raised, now, deadline) == condvar,
        !wait_spec::sync_timeout_reads(sync, raised) ==> wait_spec::sync_timeout_decision(
            condvar,
            sync,
            raised,
            thread,
            now,
            deadline,
        ) == wait_spec::sync_timeout_decision(condvar, sync, raised, thread, other, deadline)
            && wait_spec::sync_timeout_condvar(condvar, sync, raised, thread, now, deadline)
            == condvar,
{
}

} // verus!

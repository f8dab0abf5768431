//! What the calls on a mutex come to: what is given back, and what changes, for what was given.
use crate::guard::Guard;
use crate::mutex::{Mutex, MutexView, NotAvailable};
use crate::step::{Caller, Pause, Progress, Wake};
use crate::time;
use crate::time::Moment;
use vstd::prelude::*;

verus! {

/// The data has gone from the mutex to the guard, and nothing else has changed.
pub open spec fn got<T>(pre: MutexView<T>, post: MutexView<T>, guard: Guard<T>) -> bool {
    &&& pre.inner == Some(guard@)
    &&& guard.id() == pre.id
    &&& post.inner is None
    &&& post.id == pre.id
    &&& post.sync == pre.sync
    &&& post.asynch == pre.asynch
}

/// The thread has become the last of those that are parked, and nothing else has changed.
pub open spec fn listed<T>(pre: MutexView<T>, post: MutexView<T>, thread: u64) -> bool {
    &&& post.inner == pre.inner
    &&& post.id == pre.id
    &&& post.sync == pre.sync.push(thread)
    &&& post.asynch == pre.asynch
}

/// The continuation has become the last of those that are awaited, and nothing else has changed.
pub open spec fn listed_async<T>(pre: MutexView<T>, post: MutexView<T>, continuation: u64) -> bool {
    &&& post.inner == pre.inner
    &&& post.id == pre.id
    &&& post.sync == pre.sync
    &&& post.asynch == pre.asynch.push(continuation)
}

/// A thread has missed the lock: one that may block is listed and parks, another spins.
pub open spec fn missed<T>(
    pre: MutexView<T>,
    post: MutexView<T>,
    caller: Caller,
    pause: Pause,
) -> bool {
    &&& pre.inner is None
    &&& caller.can_block ==> listed(pre, post, caller.thread) && pause == Pause::Park
    &&& !caller.can_block ==> post == pre && pause == Pause::SpinLoop
}

/// Those who are woken when the lock is given back: each parked thread, then each continuation.
pub open spec fn freed<T>(mutex: MutexView<T>) -> Seq<Wake> {
    Seq::new(
        mutex.sync.len() + mutex.asynch.len(),
        |i: int|
            if i < mutex.sync.len() {
                Wake::Thread(mutex.sync[i])
            } else {
                Wake::Continuation(mutex.asynch[i - mutex.sync.len()])
            },
    )
}

/// The lock has been given back with `value`: it is free, nobody is listed any more, and all who
/// were are woken.
pub open spec fn handed_back<T>(
    pre: MutexView<T>,
    post: MutexView<T>,
    value: T,
    wakes: Seq<Wake>,
    woken: Seq<Wake>,
) -> bool {
    &&& post.inner == Some(value)
    &&& post.id == pre.id
    &&& post.sync.len() == 0
    &&& post.asynch.len() == 0
    &&& woken =~= wakes + freed(pre)
}

/// Those who wait for a mutex are those who are woken when it is given back.
pub(crate) proof fn lemma_freed<T>(mutex: MutexView<T>)
    ensures
        mutex.waiters() == freed(mutex),
{
    assert(mutex.waiters() =~= freed(mutex));
}

/// A new mutex is free, holds its value, and nobody waits for it.
pub proof fn law_new_mutex_is_free<T>(value: T, r: Mutex<T>)
    requires
        call_ensures(Mutex::<T>::new, (value,), r),
    ensures
        r@.inner == Some(value),
        r@.sync.len() == 0,
        r@.asynch.len() == 0,
{
}

/// `try_lock` gets the data of a free mutex, and is turned away by a locked one, which it leaves as
/// it was.
pub proof fn law_try_lock_gets_a_free_mutex<T>(
    mutex: &mut Mutex<T>,
    r: Result<Guard<T>, NotAvailable>,
)
    requires
        call_ensures(Mutex::<T>::try_lock, (mutex,), r),
    ensures
        r is Ok <==> old(mutex)@.inner is Some,
        r matches Ok(guard) ==> got(old(mutex)@, final(mutex)@, guard),
        r is Err ==> final(mutex)@ == old(mutex)@,
{
}

/// `lock_spin` gets the data of a free mutex at once; before a locked one it spins, and leaves it
/// as it was.
pub proof fn law_lock_spin_gets_a_free_mutex<T>(
    mutex: &mut Mutex<T>,
    r: Progress<(), Guard<T>>,
)
    requires
        call_ensures(Mutex::<T>::lock_spin, (mutex,), r),
    ensures
        r is Done <==> old(mutex)@.inner is Some,
        r matches Progress::Done(guard) ==> got(old(mutex)@, final(mutex)@, guard),
        r matches Progress::Pause(_, pause) ==> pause == Pause::SpinLoop && final(mutex)@ == old(
            mutex,
        )@,
{
}

/// `lock_block` gets the data of a free mutex at once; before a locked one the thread is listed and
/// parks.
pub proof fn law_lock_block_gets_a_free_mutex<T>(
    mutex: &mut Mutex<T>,
    thread: u64,
    r: Progress<(), Guard<T>>,
)
    requires
        call_ensures(Mutex::<T>::lock_block, (mutex, thread), r),
    ensures
        r is Done <==> old(mutex)@.inner is Some,
        r matches Progress::Done(guard) ==> got(old(mutex)@, final(mutex)@, guard),
        r matches Progress::Pause(_, pause) ==> pause == Pause::Park && listed(
            old(mutex)@,
            final(mutex)@,
            thread,
        ),
{
}

/// `lock_async` gets the data of a free mutex at once; before a locked one the continuation is
/// listed and awaited.
pub proof fn law_lock_async_gets_a_free_mutex<T>(
    mutex: &mut Mutex<T>,
    continuation: u64,
    r: Progress<(), Guard<T>>,
)
    requires
        call_ensures(Mutex::<T>::lock_async, (mutex, continuation), r),
    ensures
        r is Done <==> old(mutex)@.inner is Some,
        r matches Progress::Done(guard) ==> got(old(mutex)@, final(mutex)@, guard),
        r matches Progress::Pause(_, pause) ==> pause == Pause::Await(continuation)
            && listed_async(old(mutex)@, final(mutex)@, continuation),
{
}

/// `lock_sync` gets the data of a free mutex at once; before a locked one a thread that may block
/// is listed and parks, and one that must not block spins and is not listed.
pub proof fn law_lock_sync_gets_a_free_mutex<T>(
    mutex: &mut Mutex<T>,
    caller: Caller,
    r: Progress<(), Guard<T>>,
)
    requires
        call_ensures(Mutex::<T>::lock_sync, (mutex, caller), r),
    ensures
        r is Done <==> old(mutex)@.inner is Some,
        r matches Progress::Done(guard) ==> got(old(mutex)@, final(mutex)@, guard),
        r matches Progress::Pause(_, pause) ==> missed(old(mutex)@, final(mutex)@, caller, pause),
{
}

/// `lock_spin_timeout` gets a free mutex whatever the time, gives a locked one up exactly from the
/// deadline on, and spins before.
pub proof fn law_lock_spin_timeout_at_gives_up_at_the_deadline<T>(
    mutex: &mut Mutex<T>,
    now: Moment,
    deadline: Moment,
    r: Progress<(), Option<Guard<T>>>,
)
    requires
        call_ensures(Mutex::<T>::lock_spin_timeout_at, (mutex, now, deadline), r),
    ensures
        old(mutex)@.inner is Some <==> (r matches Progress::Done(Some(_))),
        r matches Progress::Done(Some(guard)) ==> got(old(mutex)@, final(mutex)@, guard),
        old(mutex)@.inner is None && now.nanos >= deadline.nanos <==> (r matches Progress::Done(
            None,
        )),
        r matches Progress::Pause(_, pause) ==> pause == Pause::SpinLoop,
        old(mutex)@.inner is None ==> final(mutex)@ == old(mutex)@,
{
}

/// `lock_block_timeout` gets a free mutex whatever the time, gives a locked one up exactly from the
/// deadline on, and is listed and parks for the rest of the time before.
pub proof fn law_lock_block_timeout_at_gives_up_at_the_deadline<T>(
    mutex: &mut Mutex<T>,
    thread: u64,
    now: Moment,
    later: Moment,
    deadline: Moment,
    r: Progress<(), Option<Guard<T>>>,
)
    requires
        call_ensures(Mutex::<T>::lock_block_timeout_at, (mutex, thread, now, later, deadline), r),
    ensures
        old(mutex)@.inner is Some <==> (r matches Progress::Done(Some(_))),
        r matches Progress::Done(Some(guard)) ==> got(old(mutex)@, final(mutex)@, guard),
        old(mutex)@.inner is None && now.nanos >= deadline.nanos <==> (r matches Progress::Done(
            None,
        )),
        r matches Progress::Done(None) ==> final(mutex)@ == old(mutex)@,
        r matches Progress::Pause(_, pause) ==> listed(old(mutex)@, final(mutex)@, thread) && (
        pause matches Pause::ParkTimeout(nanos) && nanos == if later.nanos < deadline.nanos {
            deadline.nanos - later.nanos
        } else {
            0
        }),
{
}

/// `lock_sync_timeout` gives a locked mutex up exactly from the deadline on, in both ways of
/// waiting; before, a thread that may block is listed and parks for the rest of the time, and one
/// that must not spins.
pub proof fn law_lock_sync_timeout_at_gives_up_at_the_deadline<T>(
    mutex: &mut Mutex<T>,
    caller: Caller,
    now: Moment,
    later: Moment,
    deadline: Moment,
    r: Progress<(), Option<Guard<T>>>,
)
    requires
        call_ensures(Mutex::<T>::lock_sync_timeout_at, (mutex, caller, now, later, deadline), r),
    ensures
        old(mutex)@.inner is Some <==> (r matches Progress::Done(Some(_))),
        r matches Progress::Done(Some(guard)) ==> got(old(mutex)@, final(mutex)@, guard),
        old(mutex)@.inner is None && now.nanos >= deadline.nanos <==> (r matches Progress::Done(
            None,
        )),
        r matches Progress::Done(None) ==> final(mutex)@ == old(mutex)@,
        r matches Progress::Pause(_, pause) ==> caller.can_block ==> listed(
            old(mutex)@,
            final(mutex)@,
            caller.thread,
        ) && (pause matches Pause::ParkTimeout(nanos) && nanos == if later.nanos < deadline.nanos {
            deadline.nanos - later.nanos
        } else {
            0
        }),
        r matches Progress::Pause(_, pause) ==> !caller.can_block ==> final(mutex)@ == old(mutex)@
            && pause == Pause::SpinLoop,
{
}

/// `lock_async_timeout` gives up exactly when its race is lost or a locked mutex is met from the
/// deadline on; else it gets a free mutex, and races for a locked one.
pub proof fn law_lock_async_timeout_at_gives_up_at_the_deadline<T>(
    mutex: &mut Mutex<T>,
    timed_out: bool,
    continuation: u64,
    now: Moment,
    deadline: Moment,
    r: Progress<(), Option<Guard<T>>>,
)
    requires
        call_ensures(
            Mutex::<T>::lock_async_timeout_at,
            (mutex, timed_out, continuation, now, deadline),
            r,
        ),
    ensures
        !timed_out && old(mutex)@.inner is Some <==> (r matches Progress::Done(Some(_))),
        r matches Progress::Done(Some(guard)) ==> got(old(mutex)@, final(mutex)@, guard),
        timed_out || old(mutex)@.inner is None && now.nanos >= deadline.nanos <==> (
        r matches Progress::Done(None)),
        r matches Progress::Done(None) ==> final(mutex)@ == old(mutex)@,
        r matches Progress::Pause(_, pause) ==> pause == Pause::Race(continuation) && listed_async(
            old(mutex)@,
            final(mutex)@,
            continuation,
        ),
{
}

/// `lock_spin_timeout` gives a locked mutex up exactly if the clock, which it reads, shows that the
/// deadline has come. A free one it gets.
pub proof fn law_lock_spin_timeout_gives_up_by_the_clock<T>(
    mutex: &mut Mutex<T>,
    deadline: web_time::Instant,
    r: Progress<(), Option<Guard<T>>>,
)
    requires
        call_ensures(Mutex::<T>::lock_spin_timeout, (mutex, deadline), r),
    ensures
        old(mutex)@.inner is Some <==> (r matches Progress::Done(Some(_))),
        r matches Progress::Done(Some(guard)) ==> got(old(mutex)@, final(mutex)@, guard),
        old(mutex)@.inner is None ==> final(mutex)@ == old(mutex)@ && exists|
            reading: web_time::Instant,
        |
            #![trigger time::nanos_between(reading, deadline)]
            time::read_from_clock(reading) && (time::nanos_between(reading, deadline) == 0 <==> (
            r matches Progress::Done(None))) && (time::nanos_between(reading, deadline) > 0 <==> (
            r matches Progress::Pause(_, Pause::SpinLoop))),
{
}

/// `lock_block_timeout` gives a locked mutex up exactly if the clock, which it reads, shows that
/// the deadline has come; before, it is listed and parks for what the clock, read again, leaves of
/// the time. A free mutex it gets.
pub proof fn law_lock_block_timeout_gives_up_by_the_clock<T>(
    mutex: &mut Mutex<T>,
    thread: u64,
    deadline: web_time::Instant,
    r: Progress<(), Option<Guard<T>>>,
)
    requires
        call_ensures(Mutex::<T>::lock_block_timeout, (mutex, thread, deadline), r),
    ensures
        old(mutex)@.inner is Some <==> (r matches Progress::Done(Some(_))),
        r matches Progress::Done(Some(guard)) ==> got(old(mutex)@, final(mutex)@, guard),
        r matches Progress::Done(None) ==> final(mutex)@ == old(mutex)@ && exists|
            reading: web_time::Instant,
        |
            time::read_from_clock(reading) && #[trigger] time::nanos_between(reading, deadline)
                == 0,
        r matches Progress::Pause(_, pause) ==> listed(old(mutex)@, final(mutex)@, thread)
            && exists|reading: web_time::Instant, again: web_time::Instant|
            time::read_from_clock(reading) && time::read_from_clock(again)
                && #[trigger] time::nanos_between(reading, deadline) > 0 && (
            pause matches Pause::ParkTimeout(nanos) && nanos == if #[trigger] time::nanos_between(
                reading,
                again,
            ) < time::nanos_between(reading, deadline) {
                time::nanos_between(reading, deadline) - time::nanos_between(reading, again)
            } else {
                0
            }),
{
}

/// `lock_sync_timeout` gives a locked mutex up only if the clock, read in that step, shows that the
/// deadline has come, and keeps waiting only if it shows that the deadline has not come; a thread
/// that may block then parks for what the clock, read again, leaves of the time. A free mutex it
/// gets.
pub proof fn law_lock_sync_timeout_gives_up_by_the_clock<T>(
    mutex: &mut Mutex<T>,
    caller: Caller,
    deadline: web_time::Instant,
    r: Progress<(), Option<Guard<T>>>,
)
    requires
        call_ensures(Mutex::<T>::lock_sync_timeout, (mutex, caller, deadline), r),
    ensures
        old(mutex)@.inner is Some <==> (r matches Progress::Done(Some(_))),
        r matches Progress::Done(Some(guard)) ==> got(old(mutex)@, final(mutex)@, guard),
        r matches Progress::Done(None) ==> final(mutex)@ == old(mutex)@ && exists|
            reading: web_time::Instant,
        |
            time::read_from_clock(reading) && #[trigger] time::nanos_between(reading, deadline)
                == 0,
        r matches Progress::Pause(_, pause) ==> !caller.can_block ==> pause == Pause::SpinLoop
            && final(mutex)@ == old(mutex)@ && exists|reading: web_time::Instant|
            time::read_from_clock(reading) && #[trigger] time::nanos_between(reading, deadline) > 0,
        r matches Progress::Pause(_, pause) ==> caller.can_block ==> listed(
            old(mutex)@,
            final(mutex)@,
            caller.thread,
        ) && exists|reading: web_time::Instant, again: web_time::Instant|
            time::read_from_clock(reading) && time::read_from_clock(again)
                && #[trigger] time::nanos_between(reading, deadline) > 0 && (
            pause matches Pause::ParkTimeout(nanos) && nanos == if #[trigger] time::nanos_between(
                reading,
                again,
            ) < time::nanos_between(reading, deadline) {
                time::nanos_between(reading, deadline) - time::nanos_between(reading, again)
            } else {
                0
            }),
{
}

/// `lock_async_timeout` gives up only if its race is lost, or if it meets a locked mutex and the
/// clock, which it reads, shows that the deadline has come; it races on only if the clock shows
/// that it has not come.
pub proof fn law_lock_async_timeout_gives_up_by_the_clock<T>(
    mutex: &mut Mutex<T>,
    timed_out: bool,
    continuation: u64,
    deadline: web_time::Instant,
    r: Progress<(), Option<Guard<T>>>,
)
    requires
        call_ensures(
            Mutex::<T>::lock_async_timeout,
            (mutex, timed_out, continuation, deadline),
            r,
        ),
    ensures
        !timed_out && old(mutex)@.inner is Some <==> (r matches Progress::Done(Some(_))),
        r matches Progress::Done(Some(guard)) ==> got(old(mutex)@, final(mutex)@, guard),
        timed_out ==> (r matches Progress::Done(None)),
        r matches Progress::Done(None) ==> final(mutex)@ == old(mutex)@ && (timed_out || exists|
            reading: web_time::Instant,
        |
            time::read_from_clock(reading) && #[trigger] time::nanos_between(reading, deadline)
                == 0),
        r matches Progress::Pause(_, pause) ==> pause == Pause::Race(continuation) && listed_async(
            old(mutex)@,
            final(mutex)@,
            continuation,
        ) && exists|reading: web_time::Instant|
            time::read_from_clock(reading) && #[trigger] time::nanos_between(reading, deadline) > 0,
{
}

/// `did_unlock` lets everybody go who is listed, and wakes each of them once; the data stays where
/// it is.
pub proof fn law_did_unlock_wakes_all<T>(mutex: &mut Mutex<T>, wakes: &mut Vec<Wake>)
    requires
        call_ensures(Mutex::<T>::did_unlock, (mutex, wakes), ()),
    ensures
        final(mutex)@.inner == old(mutex)@.inner,
        final(mutex)@.id == old(mutex)@.id,
        final(mutex)@.sync.len() == 0,
        final(mutex)@.asynch.len() == 0,
        final(wakes)@ =~= old(wakes)@ + freed(old(mutex)@),
{
    lemma_freed(old(mutex)@);
}

/// `unlock` puts the guard's data back into the mutex, lets everybody go who is listed, and wakes
/// each of them once.
pub proof fn law_unlock_hands_back<T>(mutex: &mut Mutex<T>, guard: Guard<T>, wakes: &mut Vec<Wake>)
    requires
        call_ensures(Mutex::<T>::unlock, (mutex, guard, wakes), ()),
    ensures
        handed_back(old(mutex)@, final(mutex)@, guard@, old(wakes)@, final(wakes)@),
{
    lemma_freed(old(mutex)@);
}

/// What `unlock` puts back the next `try_lock` gets.
pub proof fn law_unlock_then_try_lock<T>(
    mutex: &mut Mutex<T>,
    guard: Guard<T>,
    wakes: &mut Vec<Wake>,
    next: &mut Mutex<T>,
    r: Result<Guard<T>, NotAvailable>,
)
    requires
        call_ensures(Mutex::<T>::unlock, (mutex, guard, wakes), ()),
        final(mutex)@ == old(next)@,
        call_ensures(Mutex::<T>::try_lock, (next,), r),
    ensures
        r matches Ok(again) && again@ == guard@,
{
}

/// `with_sync` runs its work on the data of a free mutex, which it leaves as it was; before a
/// locked one it hands the work back and waits as `lock_sync` does.
pub proof fn law_with_sync_runs_under_the_lock<T, R, F: FnOnce(&T) -> R>(
    mutex: &mut Mutex<T>,
    caller: Caller,
    f: F,
    wakes: &mut Vec<Wake>,
    r: Progress<F, R>,
)
    requires
        call_ensures(Mutex::<T>::with_sync::<R, F>, (mutex, caller, f, wakes), r),
    ensures
        r is Done <==> old(mutex)@.inner is Some,
        r matches Progress::Done(x) ==> call_ensures(f, (&old(mutex)@.inner->0,), x)
            && final(mutex)@ == old(mutex)@,
        r matches Progress::Pause(work, pause) ==> work == f && missed(
            old(mutex)@,
            final(mutex)@,
            caller,
            pause,
        ),
        final(wakes)@ == old(wakes)@,
{
}

/// `with_async` runs its work on the data of a free mutex, which it leaves as it was; before a
/// locked one it hands the work back and awaits the continuation, which is listed.
pub proof fn law_with_async_runs_under_the_lock<T, R, F: FnOnce(&T) -> R>(
    mutex: &mut Mutex<T>,
    continuation: u64,
    f: F,
    wakes: &mut Vec<Wake>,
    r: Progress<F, R>,
)
    requires
        call_ensures(Mutex::<T>::with_async::<R, F>, (mutex, continuation, f, wakes), r),
    ensures
        r is Done <==> old(mutex)@.inner is Some,
        r matches Progress::Done(x) ==> call_ensures(f, (&old(mutex)@.inner->0,), x)
            && final(mutex)@ == old(mutex)@,
        r matches Progress::Pause(work, pause) ==> work == f && pause == Pause::Await(continuation)
            && listed_async(old(mutex)@, final(mutex)@, continuation),
        final(wakes)@ == old(wakes)@,
{
}

/// `with_mut_sync` lets its work change the data of a free mutex, which then holds what the work
/// has left; before a locked one it hands the work back and waits as `lock_sync` does.
pub proof fn law_with_mut_sync_runs_under_the_lock<T, R, F: FnOnce(&mut T) -> R>(
    mutex: &mut Mutex<T>,
    caller: Caller,
    f: F,
    wakes: &mut Vec<Wake>,
    r: Progress<F, R>,
)
    requires
        call_ensures(Mutex::<T>::with_mut_sync::<R, F>, (mutex, caller, f, wakes), r),
    ensures
        r is Done <==> old(mutex)@.inner is Some,
        old(mutex)@.inner matches Some(value) ==> exists|data: &mut T, x: R| #[trigger]
            call_ensures(f, (data,), x) && *data == value && final(mutex)@.inner == Some(
                *final(data),
            ) && r == Progress::<F, R>::Done(x),
        r is Done ==> final(mutex)@.id == old(mutex)@.id && final(mutex)@.sync == old(mutex)@.sync
            && final(mutex)@.asynch == old(mutex)@.asynch,
        r matches Progress::Pause(work, pause) ==> work == f && missed(
            old(mutex)@,
            final(mutex)@,
            caller,
            pause,
        ),
        final(wakes)@ == old(wakes)@,
{
}

/// `with_mut_async` lets its work change the data of a free mutex, which then holds what the work
/// has left; before a locked one it hands the work back and awaits the continuation.
pub proof fn law_with_mut_async_runs_under_the_lock<T, R, F: FnOnce(&mut T) -> R>(
    mutex: &mut Mutex<T>,
    continuation: u64,
    f: F,
    wakes: &mut Vec<Wake>,
    r: Progress<F, R>,
)
    requires
        call_ensures(Mutex::<T>::with_mut_async::<R, F>, (mutex, continuation, f, wakes), r),
    ensures
        r is Done <==> old(mutex)@.inner is Some,
        old(mutex)@.inner matches Some(value) ==> exists|data: &mut T, x: R| #[trigger]
            call_ensures(f, (data,), x) && *data == value && final(mutex)@.inner == Some(
                *final(data),
            ) && r == Progress::<F, R>::Done(x),
        r is Done ==> final(mutex)@.id == old(mutex)@.id && final(mutex)@.sync == old(mutex)@.sync
            && final(mutex)@.asynch == old(mutex)@.asynch,
        r matches Progress::Pause(work, pause) ==> work == f && pause == Pause::Await(continuation)
            && listed_async(old(mutex)@, final(mutex)@, continuation),
        final(wakes)@ == old(wakes)@,
{
}

/// `display` shows the data of a free mutex and says of a locked one that it is locked; it changes
/// nothing.
pub proof fn law_display_shows_the_data_or_the_lock<T, F: FnOnce(&T) -> String>(
    mutex: &mut Mutex<T>,
    show: F,
    wakes: &mut Vec<Wake>,
    r: String,
)
    requires
        call_ensures(Mutex::<T>::display::<F>, (mutex, show, wakes), r),
    ensures
        old(mutex)@.inner matches Some(value) ==> call_ensures(show, (&value,), r),
        old(mutex)@.inner is None ==> r@ == "Mutex { <locked> }"@,
        final(mutex)@ == old(mutex)@,
        final(wakes)@ == old(wakes)@,
{
}

} // verus!

//! What the calls on a condition variable come to: what is given back, and what changes, for what
//! was given.
use crate::condvar;
use crate::condvar::{
    AsyncPhase, AsyncTimeoutPhase, AsyncWaiter, BlockPhase, BlockTimeoutPhase, Condvar, SpinPhase,
    SpinTimeoutPhase, SyncPhase, SyncTimeoutPhase, Turn, WaitTimeoutResult, WaiterIds,
};
use crate::guard::Guard;
use crate::mutex::{Mutex, MutexView};
use crate::mutex_calls::{freed, got, handed_back, lemma_freed, listed_async, missed};
use crate::step::{Call, Caller, Pause, Progress, Wake};
use crate::time;
use crate::time::Moment;
use crate::wait_spec;
use crate::wait_spec::CondvarView;
use vstd::prelude::*;

verus! {

/// The thread has become the last of those that are parked, and nothing else has changed.
pub open spec fn joined_sync(pre: CondvarView, post: CondvarView, thread: u64) -> bool {
    &&& post.sync == pre.sync.push(thread)
    &&& post.spin == pre.spin
    &&& post.asynch == pre.asynch
}

/// The flag has become the last of those on which spinning waiters look, and nothing else has
/// changed.
pub open spec fn joined_spin(pre: CondvarView, post: CondvarView, flag: u64) -> bool {
    &&& post.spin == pre.spin.push(flag)
    &&& post.sync == pre.sync
    &&& post.asynch == pre.asynch
}

/// A task with this number and this continuation has become the last of those that wait, and
/// nothing else has changed.
pub open spec fn joined_async(
    pre: CondvarView,
    post: CondvarView,
    id: u64,
    continuation: u64,
) -> bool {
    &&& post.asynch == pre.asynch.push(AsyncWaiter { id, sender: continuation })
    &&& post.spin == pre.spin
    &&& post.sync == pre.sync
}

/// The first entry of the thread is off the list, if there was one, and nothing else has changed.
pub open spec fn left_sync(pre: CondvarView, post: CondvarView, thread: u64) -> bool {
    &&& post.spin == pre.spin
    &&& post.asynch == pre.asynch
    &&& !pre.sync.contains(thread) ==> post.sync == pre.sync
    &&& pre.sync.contains(thread) ==> exists|i: int|
        0 <= i < pre.sync.len() && pre.sync[i] == thread && post.sync == #[trigger] pre.sync.remove(
            i,
        ) && !pre.sync.take(i).contains(thread)
}

/// The first entry of the flag is off the list, if there was one, and nothing else has changed.
pub open spec fn left_spin(pre: CondvarView, post: CondvarView, flag: u64) -> bool {
    &&& post.sync == pre.sync
    &&& post.asynch == pre.asynch
    &&& !pre.spin.contains(flag) ==> post.spin == pre.spin
    &&& pre.spin.contains(flag) ==> exists|i: int|
        0 <= i < pre.spin.len() && pre.spin[i] == flag && post.spin == #[trigger] pre.spin.remove(i)
            && !pre.spin.take(i).contains(flag)
}

/// The first task with this number is off the list and its continuation is completed, if there was
/// one; nothing else has changed.
pub open spec fn left_async(
    pre: CondvarView,
    post: CondvarView,
    id: u64,
    wakes: Seq<Wake>,
    woken: Seq<Wake>,
) -> bool {
    &&& post.sync == pre.sync
    &&& post.spin == pre.spin
    &&& (forall|i: int| 0 <= i < pre.asynch.len() ==> (#[trigger] pre.asynch[i]).id != id)
        ==> post.asynch == pre.asynch && woken == wakes
    &&& forall|i: int|
        0 <= i < pre.asynch.len() && (#[trigger] pre.asynch[i]).id == id && (forall|j: int|
            0 <= j < i ==> (#[trigger] pre.asynch[j]).id != id) ==> post.asynch
            == pre.asynch.remove(i) && woken =~= wakes.push(
            Wake::Continuation(pre.asynch[i].sender),
        )
}

/// A thread tries to take the mutex again: it gets the data of a free one, and goes on in phase
/// `again` if it misses.
pub open spec fn regains<T, P>(
    pre: MutexView<T>,
    post: MutexView<T>,
    caller: Caller,
    again: P,
    r: Progress<P, Guard<T>>,
) -> bool {
    &&& r is Done <==> pre.inner is Some
    &&& r matches Progress::Done(guard) ==> got(pre, post, guard)
    &&& r matches Progress::Pause(phase, pause) ==> phase == again && missed(
        pre,
        post,
        caller,
        pause,
    )
}

/// A thread tries to take the mutex again after a wait with a deadline, and then says whether it
/// has timed out.
pub open spec fn regains_timed<T, P>(
    pre: MutexView<T>,
    post: MutexView<T>,
    caller: Caller,
    again: P,
    timed_out: bool,
    r: Progress<P, (Guard<T>, WaitTimeoutResult)>,
) -> bool {
    &&& r is Done <==> pre.inner is Some
    &&& r matches Progress::Done((guard, result)) ==> got(pre, post, guard)
        && result.spec_timed_out() == timed_out
    &&& r matches Progress::Pause(phase, pause) ==> phase == again && missed(
        pre,
        post,
        caller,
        pause,
    )
}

/// A task tries to take the mutex again: it gets the data of a free one, and awaits the
/// continuation if it misses.
pub open spec fn regains_async<T>(
    pre: MutexView<T>,
    post: MutexView<T>,
    continuation: u64,
    r: Progress<AsyncPhase, Guard<T>>,
) -> bool {
    &&& r is Done <==> pre.inner is Some
    &&& r matches Progress::Done(guard) ==> got(pre, post, guard)
    &&& r matches Progress::Pause(_, pause) ==> pause == Pause::Await(continuation)
        && listed_async(pre, post, continuation)
}

/// A task tries to take the mutex again after a wait with a deadline, and then says whether it has
/// timed out.
pub open spec fn regains_async_timed<T>(
    pre: MutexView<T>,
    post: MutexView<T>,
    continuation: u64,
    timed_out: bool,
    r: Progress<AsyncTimeoutPhase, (Guard<T>, WaitTimeoutResult)>,
) -> bool {
    &&& r is Done <==> pre.inner is Some
    &&& r matches Progress::Done((guard, result)) ==> got(pre, post, guard)
        && result.spec_timed_out() == timed_out
    &&& r matches Progress::Pause(phase, pause) ==> phase == AsyncTimeoutPhase::Relock(timed_out)
        && pause == Pause::Await(continuation) && listed_async(pre, post, continuation)
}

/// Taking the first entry off a list.
pub(crate) proof fn lemma_left(list: Seq<u64>, id: u64)
    ensures
        !list.contains(id) ==> list.remove_value(id) == list,
        list.contains(id) ==> exists|i: int|
            0 <= i < list.len() && list[i] == id && list.remove_value(id) == #[trigger] list.remove(
                i,
            ) && !list.take(i).contains(id),
{
    list.index_of_first_ensures(id);
    if list.contains(id) {
        let i = list.index_of_first(id).unwrap();
        assert(list.remove_value(id) == list.remove(i));
        assert(!list.take(i).contains(id));
    }
}

/// Taking the first task with a number off the list.
pub(crate) proof fn lemma_left_async(pre: CondvarView, id: u64, wakes: Seq<Wake>)
    ensures
        left_async(pre, pre.without_async(id), id, wakes, wakes + pre.async_wakes(id)),
{
    let ids = wait_spec::waiter_ids(pre.asynch);
    ids.index_of_first_ensures(id);
    assert forall|i: int|
        0 <= i < pre.asynch.len() && (#[trigger] pre.asynch[i]).id == id && (forall|j: int|
            0 <= j < i ==> (#[trigger] pre.asynch[j]).id != id) implies pre.without_async(id).asynch
        == pre.asynch.remove(i) && wakes + pre.async_wakes(id) =~= wakes.push(
        Wake::Continuation(pre.asynch[i].sender),
    ) by {
        assert(ids[i] == id);
        assert(ids.contains(id));
        let first = ids.index_of_first(id).unwrap();
        assert(ids[first] == pre.asynch[first].id);
        assert(first == i);
    }
    if forall|i: int| 0 <= i < pre.asynch.len() ==> (#[trigger] pre.asynch[i]).id != id {
        if ids.contains(id) {
            let k = ids.index_of(id);
            assert(ids[k] == pre.asynch[k].id);
        }
        assert(wakes + pre.async_wakes(id) =~= wakes);
    }
}

/// A new condition variable is one on which nobody waits.
pub proof fn law_new_condvar_is_idle(r: Condvar)
    requires
        call_ensures(Condvar::new, (), r),
    ensures
        r@.spin.len() == 0,
        r@.sync.len() == 0,
        r@.asynch.len() == 0,
{
}

/// `notify_one` wakes one waiter, and takes it and nobody else off: the latest of the spinning
/// ones, if there are none of the parked ones, and if there are none of the tasks.
pub proof fn law_notify_one_wakes_the_latest(condvar: &mut Condvar, wakes: &mut Vec<Wake>)
    requires
        call_ensures(Condvar::notify_one, (condvar, wakes), ()),
    ensures
        old(condvar)@.spin.len() > 0 ==> final(condvar)@.spin == old(condvar)@.spin.drop_last()
            && final(condvar)@.sync == old(condvar)@.sync && final(condvar)@.asynch == old(
            condvar,
        )@.asynch && final(wakes)@ =~= old(wakes)@.push(Wake::Flag(old(condvar)@.spin.last())),
        old(condvar)@.spin.len() == 0 && old(condvar)@.sync.len() > 0 ==> final(condvar)@.sync
            == old(condvar)@.sync.drop_last() && final(condvar)@.spin == old(condvar)@.spin
            && final(condvar)@.asynch == old(condvar)@.asynch && final(wakes)@ =~= old(
            wakes,
        )@.push(Wake::Thread(old(condvar)@.sync.last())),
        old(condvar)@.spin.len() == 0 && old(condvar)@.sync.len() == 0 && old(
            condvar,
        )@.asynch.len() > 0 ==> final(condvar)@.asynch == old(condvar)@.asynch.drop_last()
            && final(condvar)@.spin == old(condvar)@.spin && final(condvar)@.sync == old(
            condvar,
        )@.sync && final(wakes)@ =~= old(wakes)@.push(
            Wake::Continuation(old(condvar)@.asynch.last().sender),
        ),
        old(condvar)@.spin.len() == 0 && old(condvar)@.sync.len() == 0 && old(
            condvar,
        )@.asynch.len() == 0 ==> final(condvar)@ == old(condvar)@ && final(wakes)@ =~= old(wakes)@,
{
}

/// `notify_all` leaves nobody waiting, and wakes everybody who waited, once each: first those who
/// spin, then those who are parked, then the tasks, each in order of arrival.
pub proof fn law_notify_all_wakes_everybody(condvar: &mut Condvar, wakes: &mut Vec<Wake>)
    requires
        call_ensures(Condvar::notify_all, (condvar, wakes), ()),
    ensures
        final(condvar)@.spin.len() == 0,
        final(condvar)@.sync.len() == 0,
        final(condvar)@.asynch.len() == 0,
        final(wakes)@ =~= old(wakes)@ + Seq::new(
            old(condvar)@.spin.len(),
            |i: int| Wake::Flag(old(condvar)@.spin[i]),
        ) + Seq::new(old(condvar)@.sync.len(), |i: int| Wake::Thread(old(condvar)@.sync[i]))
            + Seq::new(
            old(condvar)@.asynch.len(),
            |i: int| Wake::Continuation(old(condvar)@.asynch[i].sender),
        ),
{
}

/// A wait that has come to an end in time has its condition tried on the data in hand; one that
/// goes on, or that has timed out, has not.
pub proof fn law_turn_is_to_try_when_over_in_time<P, T>(
    progress: Progress<P, Guard<T>>,
    r: Turn<P, T, Guard<T>>,
    timed_progress: Progress<P, (Guard<T>, WaitTimeoutResult)>,
    timed_r: Turn<P, T, (Guard<T>, WaitTimeoutResult)>,
)
    requires
        call_ensures(condvar::turn::<P, T>, (progress,), r),
        call_ensures(condvar::timed_turn::<P, T>, (timed_progress,), timed_r),
    ensures
        progress matches Progress::Done(guard) ==> (r matches Turn::Try(g) && g == guard),
        progress is Pause ==> (r matches Turn::Settled(p) && p == progress),
        timed_progress matches Progress::Done((guard, result)) ==> !result.spec_timed_out() ==> (
        timed_r matches Turn::Try(g) && g == guard),
        timed_progress matches Progress::Done((_, result)) ==> result.spec_timed_out() ==> (
        timed_r matches Turn::Settled(p) && p == timed_progress),
        timed_progress is Pause ==> (timed_r matches Turn::Settled(p) && p == timed_progress),
{
}

/// A wait says that it has timed out exactly where its deadline is what ended it.
pub proof fn law_timed_out_says_so(result: &WaitTimeoutResult, r: bool)
    requires
        call_ensures(WaitTimeoutResult::timed_out, (result,), r),
    ensures
        r == result.spec_timed_out(),
{
}

/// Numbers of tasks are given out one after the other.
pub proof fn law_numbers_count_up(ids: &mut WaiterIds, r: u64)
    requires
        call_ensures(WaiterIds::take, (ids,), r),
    ensures
        r == old(ids).spec_next(),
        r < u64::MAX ==> final(ids).spec_next() == r + 1,
        r == u64::MAX ==> final(ids).spec_next() == 0,
{
}

/// What each step of `wait_block` comes to. The first lists the waiter and hands the mutex back. A
/// later one takes the mutex again when the wait is over; until then it keeps waiting.
pub proof fn law_wait_block_answers<T>(
    condvar: &mut Condvar,
    mutex: &mut Mutex<T>,
    call: Call<Guard<T>, BlockPhase>,
    caller: Caller,
    wakes: &mut Vec<Wake>,
    r: Progress<BlockPhase, Guard<T>>,
)
    requires
        call_ensures(
            Condvar::wait_block::<T>,
            (condvar, mutex, call, caller, wakes),
            r,
        ),
    ensures
        call matches Call::Start(start)
            ==> (
                joined_sync(old(condvar)@, final(condvar)@, caller.thread)
                && handed_back(old(mutex)@, final(mutex)@, start@, old(wakes)@, final(wakes)@)
                && r == Progress::<BlockPhase, Guard<T>>::Pause(BlockPhase::Relock, Pause::Park)
            ),
        call matches Call::Resume(_)
            ==> (
                final(condvar)@ == old(condvar)@
                && final(wakes)@ == old(wakes)@
                && regains(old(mutex)@, final(mutex)@, caller, BlockPhase::Relock, r)
            ),
{
    lemma_freed(old(mutex)@);
}

/// What each step of `wait_spin` comes to. The first lists the waiter and hands the mutex back. A
/// later one takes the mutex again when the wait is over; until then it keeps waiting.
pub proof fn law_wait_spin_answers<T>(
    condvar: &mut Condvar,
    mutex: &mut Mutex<T>,
    call: Call<Guard<T>, SpinPhase>,
    flag: u64,
    raised: bool,
    caller: Caller,
    wakes: &mut Vec<Wake>,
    r: Progress<SpinPhase, Guard<T>>,
)
    requires
        call_ensures(
            Condvar::wait_spin::<T>,
            (condvar, mutex, call, flag, raised, caller, wakes),
            r,
        ),
    ensures
        call matches Call::Start(start)
            ==> (
                joined_spin(old(condvar)@, final(condvar)@, flag)
                && handed_back(old(mutex)@, final(mutex)@, start@, old(wakes)@, final(wakes)@)
                && r
                    ==
                        Progress::<SpinPhase, Guard<T>>::Pause(
                            SpinPhase::Spinning(flag),
                            Pause::Yield,
                        )
            ),
        call matches Call::Resume(SpinPhase::Spinning(looked_on))
            ==> (
                !raised
                    ==> final(condvar)@ == old(condvar)@
                    && final(mutex)@ == old(mutex)@
                    && final(wakes)@ == old(wakes)@
                    && r
                        == Progress::<SpinPhase, Guard<T>>::Pause(
                            SpinPhase::Spinning(looked_on),
                            Pause::SpinLoop,
                        )
            )
            && (
                raised
                    ==> final(condvar)@ == old(condvar)@
                    && final(wakes)@ == old(wakes)@
                    && regains(old(mutex)@, final(mutex)@, caller, SpinPhase::Relock, r)
            ),
        call matches Call::Resume(SpinPhase::Relock)
            ==> (
                final(condvar)@ == old(condvar)@
                && final(wakes)@ == old(wakes)@
                && regains(old(mutex)@, final(mutex)@, caller, SpinPhase::Relock, r)
            ),
{
    lemma_freed(old(mutex)@);
}

/// What each step of `wait_sync` comes to. The first lists the waiter and hands the mutex back. A
/// later one takes the mutex again when the wait is over; until then it keeps waiting.
pub proof fn law_wait_sync_answers<T>(
    condvar: &mut Condvar,
    mutex: &mut Mutex<T>,
    call: Call<Guard<T>, SyncPhase>,
    flag: u64,
    raised: bool,
    caller: Caller,
    wakes: &mut Vec<Wake>,
    r: Progress<SyncPhase, Guard<T>>,
)
    requires
        call_ensures(
            Condvar::wait_sync::<T>,
            (condvar, mutex, call, flag, raised, caller, wakes),
            r,
        ),
    ensures
        call matches Call::Start(start)
            ==> (
                handed_back(old(mutex)@, final(mutex)@, start@, old(wakes)@, final(wakes)@)
                && (
                    caller.can_block
                        ==> joined_sync(old(condvar)@, final(condvar)@, caller.thread)
                        && r
                            == Progress::<SyncPhase, Guard<T>>::Pause(
                                SyncPhase::Block(BlockPhase::Relock),
                                Pause::Park,
                            )
                )
                && (
                    !caller.can_block
                        ==> joined_spin(old(condvar)@, final(condvar)@, flag)
                        && r
                            == Progress::<SyncPhase, Guard<T>>::Pause(
                                SyncPhase::Spin(SpinPhase::Spinning(flag)),
                                Pause::Yield,
                            )
                )
            ),
        call matches Call::Resume(SyncPhase::Block(_))
            ==> (
                final(condvar)@ == old(condvar)@
                && final(wakes)@ == old(wakes)@
                && regains(
                    old(mutex)@,
                    final(mutex)@,
                    caller,
                    SyncPhase::Block(BlockPhase::Relock),
                    r,
                )
            ),
        call matches Call::Resume(SyncPhase::Spin(SpinPhase::Spinning(looked_on)))
            ==> (
                !raised
                    ==> final(condvar)@ == old(condvar)@
                    && final(mutex)@ == old(mutex)@
                    && final(wakes)@ == old(wakes)@
                    && r
                        == Progress::<SyncPhase, Guard<T>>::Pause(
                            SyncPhase::Spin(SpinPhase::Spinning(looked_on)),
                            Pause::SpinLoop,
                        )
            )
            && (
                raised
                    ==> final(condvar)@ == old(condvar)@
                    && final(wakes)@ == old(wakes)@
                    && regains(
                        old(mutex)@,
                        final(mutex)@,
                        caller,
                        SyncPhase::Spin(SpinPhase::Relock),
                        r,
                    )
            ),
        call matches Call::Resume(SyncPhase::Spin(SpinPhase::Relock))
            ==> (
                final(condvar)@ == old(condvar)@
                && final(wakes)@ == old(wakes)@
                &&
                    regains(
                        old(mutex)@,
                        final(mutex)@,
                        caller,
                        SyncPhase::Spin(SpinPhase::Relock),
                        r,
                    )
            ),
{
    lemma_freed(old(mutex)@);
}

/// What each step of `wait_async` comes to. The first lists the waiter and hands the mutex back. A
/// later one takes the mutex again when the wait is over.
pub proof fn law_wait_async_answers<T>(
    condvar: &mut Condvar,
    mutex: &mut Mutex<T>,
    call: Call<Guard<T>, AsyncPhase>,
    ids: &mut WaiterIds,
    continuation: u64,
    wakes: &mut Vec<Wake>,
    r: Progress<AsyncPhase, Guard<T>>,
)
    requires
        call_ensures(
            Condvar::wait_async::<T>,
            (condvar, mutex, call, ids, continuation, wakes),
            r,
        ),
    ensures
        call matches Call::Start(start)
            ==> (
                joined_async(old(condvar)@, final(condvar)@, old(ids).spec_next(), continuation)
                && handed_back(old(mutex)@, final(mutex)@, start@, old(wakes)@, final(wakes)@)
                && r
                    == Progress::<AsyncPhase, Guard<T>>::Pause(
                        AsyncPhase::Relock,
                        Pause::Await(continuation),
                    )
                && (
                    old(ids).spec_next() < u64::MAX
                        ==> final(ids).spec_next() == old(ids).spec_next() + 1
                )
                && (old(ids).spec_next() == u64::MAX ==> final(ids).spec_next() == 0)
            ),
        call matches Call::Resume(_)
            ==> (
                final(condvar)@ == old(condvar)@
                && final(wakes)@ == old(wakes)@
                && final(ids).spec_next() == old(ids).spec_next()
                && regains_async(old(mutex)@, final(mutex)@, continuation, r)
            ),
{
    lemma_freed(old(mutex)@);
}

/// What each step of `wait_block_timeout_at` comes to. The first lists the waiter and hands the
/// mutex back. A later one takes the mutex again when the wait is over: by a notification, and then
/// it has not timed out, or by the deadline, and then it has if the waiter is still listed; until
/// then it keeps waiting.
pub proof fn law_wait_block_timeout_at_answers<T>(
    condvar: &mut Condvar,
    mutex: &mut Mutex<T>,
    call: Call<Guard<T>, BlockTimeoutPhase>,
    caller: Caller,
    now: Moment,
    deadline: Moment,
    wakes: &mut Vec<Wake>,
    r: Progress<BlockTimeoutPhase, (Guard<T>, WaitTimeoutResult)>,
)
    requires
        call_ensures(
            Condvar::wait_block_timeout_at::<T>,
            (condvar, mutex, call, caller, now, deadline, wakes),
            r,
        ),
    ensures
        call matches Call::Start(start)
            ==> (
                joined_sync(old(condvar)@, final(condvar)@, caller.thread)
                && handed_back(old(mutex)@, final(mutex)@, start@, old(wakes)@, final(wakes)@)
                && r
                    == Progress::<BlockTimeoutPhase, (Guard<T>, WaitTimeoutResult)>::Pause(
                        BlockTimeoutPhase::Tick,
                        Pause::Yield,
                    )
            ),
        call matches Call::Resume(BlockTimeoutPhase::Tick)
            ==> (
                !(now.nanos >= deadline.nanos)
                    ==> final(condvar)@ == old(condvar)@
                    && final(mutex)@ == old(mutex)@
                    && final(wakes)@ == old(wakes)@
                    && (
                        r matches Progress::Pause(
                            BlockTimeoutPhase::Parked,
                            Pause::ParkTimeout(nanos),
                        )
                        && nanos == deadline.nanos - now.nanos
                    )
            )
            && (
                now.nanos >= deadline.nanos
                    ==> left_sync(old(condvar)@, final(condvar)@, caller.thread)
                    && final(wakes)@ == old(wakes)@
                    && regains_timed(
                        old(mutex)@,
                        final(mutex)@,
                        caller,
                        BlockTimeoutPhase::Relock(old(condvar)@.sync.contains(caller.thread)),
                        old(condvar)@.sync.contains(caller.thread),
                        r,
                    )
            ),
        call matches Call::Resume(BlockTimeoutPhase::Parked)
            ==> (
                old(condvar)@.sync.contains(caller.thread)
                    ==> final(condvar)@ == old(condvar)@
                    && final(mutex)@ == old(mutex)@
                    && final(wakes)@ == old(wakes)@
                    && r
                        == Progress::<BlockTimeoutPhase, (Guard<T>, WaitTimeoutResult)>::Pause(
                            BlockTimeoutPhase::Tick,
                            Pause::Yield,
                        )
            )
            && (
                !old(condvar)@.sync.contains(caller.thread)
                    ==> final(condvar)@ == old(condvar)@
                    && final(wakes)@ == old(wakes)@
                    && regains_timed(
                        old(mutex)@,
                        final(mutex)@,
                        caller,
                        BlockTimeoutPhase::Relock(false),
                        false,
                        r,
                    )
            ),
        call matches Call::Resume(BlockTimeoutPhase::Relock(late))
            ==> (
                final(condvar)@ == old(condvar)@
                && final(wakes)@ == old(wakes)@
                && regains_timed(
                    old(mutex)@,
                    final(mutex)@,
                    caller,
                    BlockTimeoutPhase::Relock(late),
                    late,
                    r,
                )
            ),
{
    lemma_freed(old(mutex)@);
    lemma_left(old(condvar)@.sync, caller.thread);
}

/// What each step of `wait_block_timeout` comes to. The first lists the waiter and hands the mutex
/// back. A later one takes the mutex again when the wait is over: by a notification, and then it
/// has not timed out, or by the deadline, and then it has if the waiter is still listed; until then
/// it keeps waiting.
pub proof fn law_wait_block_timeout_answers<T>(
    condvar: &mut Condvar,
    mutex: &mut Mutex<T>,
    call: Call<Guard<T>, BlockTimeoutPhase>,
    caller: Caller,
    deadline: web_time::Instant,
    wakes: &mut Vec<Wake>,
    r: Progress<BlockTimeoutPhase, (Guard<T>, WaitTimeoutResult)>,
)
    requires
        call_ensures(
            Condvar::wait_block_timeout::<T>,
            (condvar, mutex, call, caller, deadline, wakes),
            r,
        ),
    ensures
        call matches Call::Start(start)
            ==> (
                joined_sync(old(condvar)@, final(condvar)@, caller.thread)
                && handed_back(old(mutex)@, final(mutex)@, start@, old(wakes)@, final(wakes)@)
                && r
                    == Progress::<BlockTimeoutPhase, (Guard<T>, WaitTimeoutResult)>::Pause(
                        BlockTimeoutPhase::Tick,
                        Pause::Yield,
                    )
            ),
        call matches Call::Resume(BlockTimeoutPhase::Tick)
            ==> exists|reading: web_time::Instant|
                #![trigger time::nanos_between(reading, deadline)]
                time::read_from_clock(reading)
                && (
                    !(time::nanos_between(reading, deadline) == 0)
                        ==> final(condvar)@ == old(condvar)@
                        && final(mutex)@ == old(mutex)@
                        && final(wakes)@ == old(wakes)@
                        && (
                            r matches Progress::Pause(
                                BlockTimeoutPhase::Parked,
                                Pause::ParkTimeout(nanos),
                            )
                            && nanos == time::nanos_between(reading, deadline)
                        )
                )
                && (
                    time::nanos_between(reading, deadline) == 0
                        ==> left_sync(old(condvar)@, final(condvar)@, caller.thread)
                        && final(wakes)@ == old(wakes)@
                        && regains_timed(
                            old(mutex)@,
                            final(mutex)@,
                            caller,
                            BlockTimeoutPhase::Relock(old(condvar)@.sync.contains(caller.thread)),
                            old(condvar)@.sync.contains(caller.thread),
                            r,
                        )
                ),
        call matches Call::Resume(BlockTimeoutPhase::Parked)
            ==> (
                old(condvar)@.sync.contains(caller.thread)
                    ==> final(condvar)@ == old(condvar)@
                    && final(mutex)@ == old(mutex)@
                    && final(wakes)@ == old(wakes)@
                    && r
                        == Progress::<BlockTimeoutPhase, (Guard<T>, WaitTimeoutResult)>::Pause(
                            BlockTimeoutPhase::Tick,
                            Pause::Yield,
                        )
            )
            && (
                !old(condvar)@.sync.contains(caller.thread)
                    ==> final(condvar)@ == old(condvar)@
                    && final(wakes)@ == old(wakes)@
                    && regains_timed(
                        old(mutex)@,
                        final(mutex)@,
                        caller,
                        BlockTimeoutPhase::Relock(false),
                        false,
                        r,
                    )
            ),
        call matches Call::Resume(BlockTimeoutPhase::Relock(late))
            ==> (
                final(condvar)@ == old(condvar)@
                && final(wakes)@ == old(wakes)@
                && regains_timed(
                    old(mutex)@,
                    final(mutex)@,
                    caller,
                    BlockTimeoutPhase::Relock(late),
                    late,
                    r,
                )
            ),
{
    lemma_freed(old(mutex)@);
    lemma_left(old(condvar)@.sync, caller.thread);
}

/// What each step of `wait_spin_timeout_at` comes to. The first lists the waiter and hands the
/// mutex back. A later one takes the mutex again when the wait is over: by a notification, and then
/// it has not timed out, or by the deadline, and then it has if the waiter is still listed; until
/// then it keeps waiting.
pub proof fn law_wait_spin_timeout_at_answers<T>(
    condvar: &mut Condvar,
    mutex: &mut Mutex<T>,
    call: Call<Guard<T>, SpinTimeoutPhase>,
    flag: u64,
    raised: bool,
    caller: Caller,
    now: Moment,
    deadline: Moment,
    wakes: &mut Vec<Wake>,
    r: Progress<SpinTimeoutPhase, (Guard<T>, WaitTimeoutResult)>,
)
    requires
        call_ensures(
            Condvar::wait_spin_timeout_at::<T>,
            (condvar, mutex, call, flag, raised, caller, now, deadline, wakes),
            r,
        ),
    ensures
        call matches Call::Start(start)
            ==> (
                joined_spin(old(condvar)@, final(condvar)@, flag)
                && handed_back(old(mutex)@, final(mutex)@, start@, old(wakes)@, final(wakes)@)
                && r
                    == Progress::<SpinTimeoutPhase, (Guard<T>, WaitTimeoutResult)>::Pause(
                        SpinTimeoutPhase::Spinning(flag),
                        Pause::Yield,
                    )
            ),
        call matches Call::Resume(SpinTimeoutPhase::Spinning(looked_on))
            ==> (
                raised
                    ==> final(condvar)@ == old(condvar)@
                    && final(wakes)@ == old(wakes)@
                    && regains_timed(
                        old(mutex)@,
                        final(mutex)@,
                        caller,
                        SpinTimeoutPhase::Relock(false),
                        false,
                        r,
                    )
            )
            && (
                !raised && !(now.nanos >= deadline.nanos)
                    ==> final(condvar)@ == old(condvar)@
                    && final(mutex)@ == old(mutex)@
                    && final(wakes)@ == old(wakes)@
                    && r
                        == Progress::<SpinTimeoutPhase, (Guard<T>, WaitTimeoutResult)>::Pause(
                            SpinTimeoutPhase::Spinning(looked_on),
                            Pause::SpinLoop,
                        )
            )
            && (
                !raised && now.nanos >= deadline.nanos && old(condvar)@.spin.contains(looked_on)
                    ==> left_spin(old(condvar)@, final(condvar)@, looked_on)
                    && final(wakes)@ == old(wakes)@
                    && regains_timed(
                        old(mutex)@,
                        final(mutex)@,
                        caller,
                        SpinTimeoutPhase::Relock(true),
                        true,
                        r,
                    )
            )
            && (
                !raised && now.nanos >= deadline.nanos && !old(condvar)@.spin.contains(looked_on)
                    ==> final(condvar)@ == old(condvar)@
                    && final(mutex)@ == old(mutex)@
                    && final(wakes)@ == old(wakes)@
                    && r
                        == Progress::<SpinTimeoutPhase, (Guard<T>, WaitTimeoutResult)>::Pause(
                            SpinTimeoutPhase::Handoff(looked_on),
                            Pause::Yield,
                        )
            ),
        call matches Call::Resume(SpinTimeoutPhase::Handoff(looked_on))
            ==> (
                !raised
                    ==> final(condvar)@ == old(condvar)@
                    && final(mutex)@ == old(mutex)@
                    && final(wakes)@ == old(wakes)@
                    && r
                        == Progress::<SpinTimeoutPhase, (Guard<T>, WaitTimeoutResult)>::Pause(
                            SpinTimeoutPhase::Handoff(looked_on),
                            Pause::SpinLoop,
                        )
            )
            && (
                raised
                    ==> final(condvar)@ == old(condvar)@
                    && final(wakes)@ == old(wakes)@
                    && regains_timed(
                        old(mutex)@,
                        final(mutex)@,
                        caller,
                        SpinTimeoutPhase::Relock(false),
                        false,
                        r,
                    )
            ),
        call matches Call::Resume(SpinTimeoutPhase::Relock(late))
            ==> (
                final(condvar)@ == old(condvar)@
                && final(wakes)@ == old(wakes)@
                && regains_timed(
                    old(mutex)@,
                    final(mutex)@,
                    caller,
                    SpinTimeoutPhase::Relock(late),
                    late,
                    r,
                )
            ),
{
    lemma_freed(old(mutex)@);
    if let Call::Resume(SpinTimeoutPhase::Spinning(looked_on)) = call {
        lemma_left(old(condvar)@.spin, looked_on);
    }
}

/// What each step of `wait_spin_timeout` comes to. The first lists the waiter and hands the mutex
/// back. A later one takes the mutex again when the wait is over: by a notification, and then it
/// has not timed out, or by the deadline, and then it has if the waiter is still listed; until then
/// it keeps waiting.
pub proof fn law_wait_spin_timeout_answers<T>(
    condvar: &mut Condvar,
    mutex: &mut Mutex<T>,
    call: Call<Guard<T>, SpinTimeoutPhase>,
    flag: u64,
    raised: bool,
    caller: Caller,
    deadline: web_time::Instant,
    wakes: &mut Vec<Wake>,
    r: Progress<SpinTimeoutPhase, (Guard<T>, WaitTimeoutResult)>,
)
    requires
        call_ensures(
            Condvar::wait_spin_timeout::<T>,
            (condvar, mutex, call, flag, raised, caller, deadline, wakes),
            r,
        ),
    ensures
        call matches Call::Start(start)
            ==> (
                joined_spin(old(condvar)@, final(condvar)@, flag)
                && handed_back(old(mutex)@, final(mutex)@, start@, old(wakes)@, final(wakes)@)
                && r
                    == Progress::<SpinTimeoutPhase, (Guard<T>, WaitTimeoutResult)>::Pause(
                        SpinTimeoutPhase::Spinning(flag),
                        Pause::Yield,
                    )
            ),
        call matches Call::Resume(SpinTimeoutPhase::Spinning(looked_on))
            ==> (
                raised
                    ==> final(condvar)@ == old(condvar)@
                    && final(wakes)@ == old(wakes)@
                    && regains_timed(
                        old(mutex)@,
                        final(mutex)@,
                        caller,
                        SpinTimeoutPhase::Relock(false),
                        false,
                        r,
                    )
            ),
        call matches Call::Resume(SpinTimeoutPhase::Spinning(looked_on))
            ==> !raised
                ==> exists|reading: web_time::Instant|
                    #![trigger time::nanos_between(reading, deadline)]
                    time::read_from_clock(reading)
                    && (
                        !(time::nanos_between(reading, deadline) == 0)
                            ==> final(condvar)@ == old(condvar)@
                            && final(mutex)@ == old(mutex)@
                            && final(wakes)@ == old(wakes)@
                            && r
                                ==
                                    Progress::<SpinTimeoutPhase, (Guard<T>, WaitTimeoutResult)>::Pause(
                                        SpinTimeoutPhase::Spinning(looked_on),
                                        Pause::SpinLoop,
                                    )
                    )
                    && (
                        time::nanos_between(reading, deadline) == 0
                        && old(condvar)@.spin.contains(looked_on)
                            ==> left_spin(old(condvar)@, final(condvar)@, looked_on)
                            && final(wakes)@ == old(wakes)@
                            && regains_timed(
                                old(mutex)@,
                                final(mutex)@,
                                caller,
                                SpinTimeoutPhase::Relock(true),
                                true,
                                r,
                            )
                    )
                    && (
                        time::nanos_between(reading, deadline) == 0
                        && !old(condvar)@.spin.contains(looked_on)
                            ==> final(condvar)@ == old(condvar)@
                            && final(mutex)@ == old(mutex)@
                            && final(wakes)@ == old(wakes)@
                            && r
                                ==
                                    Progress::<SpinTimeoutPhase, (Guard<T>, WaitTimeoutResult)>::Pause(
                                        SpinTimeoutPhase::Handoff(looked_on),
                                        Pause::Yield,
                                    )
                    ),
        call matches Call::Resume(SpinTimeoutPhase::Handoff(looked_on))
            ==> (
                !raised
                    ==> final(condvar)@ == old(condvar)@
                    && final(mutex)@ == old(mutex)@
                    && final(wakes)@ == old(wakes)@
                    && r
                        == Progress::<SpinTimeoutPhase, (Guard<T>, WaitTimeoutResult)>::Pause(
                            SpinTimeoutPhase::Handoff(looked_on),
                            Pause::SpinLoop,
                        )
            )
            && (
                raised
                    ==> final(condvar)@ == old(condvar)@
                    && final(wakes)@ == old(wakes)@
                    && regains_timed(
                        old(mutex)@,
                        final(mutex)@,
                        caller,
                        SpinTimeoutPhase::Relock(false),
                        false,
                        r,
                    )
            ),
        call matches Call::Resume(SpinTimeoutPhase::Relock(late))
            ==> (
                final(condvar)@ == old(condvar)@
                && final(wakes)@ == old(wakes)@
                && regains_timed(
                    old(mutex)@,
                    final(mutex)@,
                    caller,
                    SpinTimeoutPhase::Relock(late),
                    late,
                    r,
                )
            ),
{
    lemma_freed(old(mutex)@);
    if let Call::Resume(SpinTimeoutPhase::Spinning(looked_on)) = call {
        lemma_left(old(condvar)@.spin, looked_on);
    }
}

/// What each step of `wait_sync_timeout_at` comes to. The first lists the waiter and hands the
/// mutex back. A later one takes the mutex again when the wait is over: by a notification, and then
/// it has not timed out, or by the deadline, and then it has if the waiter is still listed; until
/// then it keeps waiting.
pub proof fn law_wait_sync_timeout_at_answers<T>(
    condvar: &mut Condvar,
    mutex: &mut Mutex<T>,
    call: Call<Guard<T>, SyncTimeoutPhase>,
    flag: u64,
    raised: bool,
    caller: Caller,
    now: Moment,
    deadline: Moment,
    wakes: &mut Vec<Wake>,
    r: Progress<SyncTimeoutPhase, (Guard<T>, WaitTimeoutResult)>,
)
    requires
        call_ensures(
            Condvar::wait_sync_timeout_at::<T>,
            (condvar, mutex, call, flag, raised, caller, now, deadline, wakes),
            r,
        ),
    ensures
        call matches Call::Start(start)
            ==> (
                handed_back(old(mutex)@, final(mutex)@, start@, old(wakes)@, final(wakes)@)
                && (
                    caller.can_block
                        ==> joined_sync(old(condvar)@, final(condvar)@, caller.thread)
                        && r
                            == Progress::<SyncTimeoutPhase, (Guard<T>, WaitTimeoutResult)>::Pause(
                                SyncTimeoutPhase::Block(BlockTimeoutPhase::Tick),
                                Pause::Yield,
                            )
                )
                && (
                    !caller.can_block
                        ==> joined_spin(old(condvar)@, final(condvar)@, flag)
                        && r
                            == Progress::<SyncTimeoutPhase, (Guard<T>, WaitTimeoutResult)>::Pause(
                                SyncTimeoutPhase::Spin(SpinTimeoutPhase::Spinning(flag)),
                                Pause::Yield,
                            )
                )
            ),
        call matches Call::Resume(SyncTimeoutPhase::Block(BlockTimeoutPhase::Tick))
            ==> (
                !(now.nanos >= deadline.nanos)
                    ==> final(condvar)@ == old(condvar)@
                    && final(mutex)@ == old(mutex)@
                    && final(wakes)@ == old(wakes)@
                    && (
                        r matches Progress::Pause(
                            SyncTimeoutPhase::Block(BlockTimeoutPhase::Parked),
                            Pause::ParkTimeout(nanos),
                        )
                        && nanos == deadline.nanos - now.nanos
                    )
            )
            && (
                now.nanos >= deadline.nanos
                    ==> left_sync(old(condvar)@, final(condvar)@, caller.thread)
                    && final(wakes)@ == old(wakes)@
                    && regains_timed(
                        old(mutex)@,
                        final(mutex)@,
                        caller,
                        SyncTimeoutPhase::Block(
                            BlockTimeoutPhase::Relock(old(condvar)@.sync.contains(caller.thread)),
                        ),
                        old(condvar)@.sync.contains(caller.thread),
                        r,
                    )
            ),
        call matches Call::Resume(SyncTimeoutPhase::Block(BlockTimeoutPhase::Parked))
            ==> (
                old(condvar)@.sync.contains(caller.thread)
                    ==> final(condvar)@ == old(condvar)@
                    && final(mutex)@ == old(mutex)@
                    && final(wakes)@ == old(wakes)@
                    && r
                        == Progress::<SyncTimeoutPhase, (Guard<T>, WaitTimeoutResult)>::Pause(
                            SyncTimeoutPhase::Block(BlockTimeoutPhase::Tick),
                            Pause::Yield,
                        )
            )
            && (
                !old(condvar)@.sync.contains(caller.thread)
                    ==> final(condvar)@ == old(condvar)@
                    && final(wakes)@ == old(wakes)@
                    && regains_timed(
                        old(mutex)@,
                        final(mutex)@,
                        caller,
                        SyncTimeoutPhase::Block(BlockTimeoutPhase::Relock(false)),
                        false,
                        r,
                    )
            ),
        call matches Call::Resume(SyncTimeoutPhase::Block(BlockTimeoutPhase::Relock(late)))
            ==> (
                final(condvar)@ == old(condvar)@
                && final(wakes)@ == old(wakes)@
                && regains_timed(
                    old(mutex)@,
                    final(mutex)@,
                    caller,
                    SyncTimeoutPhase::Block(BlockTimeoutPhase::Relock(late)),
                    late,
                    r,
                )
            ),
        call matches Call::Resume(SyncTimeoutPhase::Spin(SpinTimeoutPhase::Spinning(looked_on)))
            ==> (
                raised
                    ==> final(condvar)@ == old(condvar)@
                    && final(wakes)@ == old(wakes)@
                    && regains_timed(
                        old(mutex)@,
                        final(mutex)@,
                        caller,
                        SyncTimeoutPhase::Spin(SpinTimeoutPhase::Relock(false)),
                        false,
                        r,
                    )
            )
            && (
                !raised && !(now.nanos >= deadline.nanos)
                    ==> final(condvar)@ == old(condvar)@
                    && final(mutex)@ == old(mutex)@
                    && final(wakes)@ == old(wakes)@
                    && r
                        == Progress::<SyncTimeoutPhase, (Guard<T>, WaitTimeoutResult)>::Pause(
                            SyncTimeoutPhase::Spin(SpinTimeoutPhase::Spinning(looked_on)),
                            Pause::SpinLoop,
                        )
            )
            && (
                !raised && now.nanos >= deadline.nanos && old(condvar)@.spin.contains(looked_on)
                    ==> left_spin(old(condvar)@, final(condvar)@, looked_on)
                    && final(wakes)@ == old(wakes)@
                    && regains_timed(
                        old(mutex)@,
                        final(mutex)@,
                        caller,
                        SyncTimeoutPhase::Spin(SpinTimeoutPhase::Relock(true)),
                        true,
                        r,
                    )
            )
            && (
                !raised && now.nanos >= deadline.nanos && !old(condvar)@.spin.contains(looked_on)
                    ==> final(condvar)@ == old(condvar)@
                    && final(mutex)@ == old(mutex)@
                    && final(wakes)@ == old(wakes)@
                    && r
                        == Progress::<SyncTimeoutPhase, (Guard<T>, WaitTimeoutResult)>::Pause(
                            SyncTimeoutPhase::Spin(SpinTimeoutPhase::Handoff(looked_on)),
                            Pause::Yield,
                        )
            ),
        call matches Call::Resume(SyncTimeoutPhase::Spin(SpinTimeoutPhase::Handoff(looked_on)))
            ==> (
                !raised
                    ==> final(condvar)@ == old(condvar)@
                    && final(mutex)@ == old(mutex)@
                    && final(wakes)@ == old(wakes)@
                    && r
                        == Progress::<SyncTimeoutPhase, (Guard<T>, WaitTimeoutResult)>::Pause(
                            SyncTimeoutPhase::Spin(SpinTimeoutPhase::Handoff(looked_on)),
                            Pause::SpinLoop,
                        )
            )
            && (
                raised
                    ==> final(condvar)@ == old(condvar)@
                    && final(wakes)@ == old(wakes)@
                    && regains_timed(
                        old(mutex)@,
                        final(mutex)@,
                        caller,
                        SyncTimeoutPhase::Spin(SpinTimeoutPhase::Relock(false)),
                        false,
                        r,
                    )
            ),
        call matches Call::Resume(SyncTimeoutPhase::Spin(SpinTimeoutPhase::Relock(late)))
            ==> (
                final(condvar)@ == old(condvar)@
                && final(wakes)@ == old(wakes)@
                && regains_timed(
                    old(mutex)@,
                    final(mutex)@,
                    caller,
                    SyncTimeoutPhase::Spin(SpinTimeoutPhase::Relock(late)),
                    late,
                    r,
                )
            ),
{
    lemma_freed(old(mutex)@);
    lemma_left(old(condvar)@.sync, caller.thread);
    if let Call::Resume(SyncTimeoutPhase::Spin(SpinTimeoutPhase::Spinning(looked_on))) = call {
        lemma_left(old(condvar)@.spin, looked_on);
    }
}

/// What each step of `wait_sync_timeout` comes to. The first lists the waiter and hands the mutex
/// back. A later one takes the mutex again when the wait is over: by a notification, and then it
/// has not timed out, or by the deadline, and then it has if the waiter is still listed; until then
/// it keeps waiting.
pub proof fn law_wait_sync_timeout_answers<T>(
    condvar: &mut Condvar,
    mutex: &mut Mutex<T>,
    call: Call<Guard<T>, SyncTimeoutPhase>,
    flag: u64,
    raised: bool,
    caller: Caller,
    deadline: web_time::Instant,
    wakes: &mut Vec<Wake>,
    r: Progress<SyncTimeoutPhase, (Guard<T>, WaitTimeoutResult)>,
)
    requires
        call_ensures(
            Condvar::wait_sync_timeout::<T>,
            (condvar, mutex, call, flag, raised, caller, deadline, wakes),
            r,
        ),
    ensures
        call matches Call::Start(start)
            ==> (
                handed_back(old(mutex)@, final(mutex)@, start@, old(wakes)@, final(wakes)@)
                && (
                    caller.can_block
                        ==> joined_sync(old(condvar)@, final(condvar)@, caller.thread)
                        && r
                            == Progress::<SyncTimeoutPhase, (Guard<T>, WaitTimeoutResult)>::Pause(
                                SyncTimeoutPhase::Block(BlockTimeoutPhase::Tick),
                                Pause::Yield,
                            )
                )
                && (
                    !caller.can_block
                        ==> joined_spin(old(condvar)@, final(condvar)@, flag)
                        && r
                            == Progress::<SyncTimeoutPhase, (Guard<T>, WaitTimeoutResult)>::Pause(
                                SyncTimeoutPhase::Spin(SpinTimeoutPhase::Spinning(flag)),
                                Pause::Yield,
                            )
                )
            ),
        call matches Call::Resume(SyncTimeoutPhase::Block(BlockTimeoutPhase::Tick))
            ==> exists|reading: web_time::Instant|
                #![trigger time::nanos_between(reading, deadline)]
                time::read_from_clock(reading)
                && (
                    !(time::nanos_between(reading, deadline) == 0)
                        ==> final(condvar)@ == old(condvar)@
                        && final(mutex)@ == old(mutex)@
                        && final(wakes)@ == old(wakes)@
                        && (
                            r matches Progress::Pause(
                                SyncTimeoutPhase::Block(BlockTimeoutPhase::Parked),
                                Pause::ParkTimeout(nanos),
                            )
                            && nanos == time::nanos_between(reading, deadline)
                        )
                )
                && (
                    time::nanos_between(reading, deadline) == 0
                        ==> left_sync(old(condvar)@, final(condvar)@, caller.thread)
                        && final(wakes)@ == old(wakes)@
                        && regains_timed(
                            old(mutex)@,
                            final(mutex)@,
                            caller,
                            SyncTimeoutPhase::Block(
                                BlockTimeoutPhase::Relock(
                                    old(condvar)@.sync.contains(caller.thread),
                                ),
                            ),
                            old(condvar)@.sync.contains(caller.thread),
                            r,
                        )
                ),
        call matches Call::Resume(SyncTimeoutPhase::Block(BlockTimeoutPhase::Parked))
            ==> (
                old(condvar)@.sync.contains(caller.thread)
                    ==> final(condvar)@ == old(condvar)@
                    && final(mutex)@ == old(mutex)@
                    && final(wakes)@ == old(wakes)@
                    && r
                        == Progress::<SyncTimeoutPhase, (Guard<T>, WaitTimeoutResult)>::Pause(
                            SyncTimeoutPhase::Block(BlockTimeoutPhase::Tick),
                            Pause::Yield,
                        )
            )
            && (
                !old(condvar)@.sync.contains(caller.thread)
                    ==> final(condvar)@ == old(condvar)@
                    && final(wakes)@ == old(wakes)@
                    && regains_timed(
                        old(mutex)@,
                        final(mutex)@,
                        caller,
                        SyncTimeoutPhase::Block(BlockTimeoutPhase::Relock(false)),
                        false,
                        r,
                    )
            ),
        call matches Call::Resume(SyncTimeoutPhase::Block(BlockTimeoutPhase::Relock(late)))
            ==> (
                final(condvar)@ == old(condvar)@
                && final(wakes)@ == old(wakes)@
                && regains_timed(
                    old(mutex)@,
                    final(mutex)@,
                    caller,
                    SyncTimeoutPhase::Block(BlockTimeoutPhase::Relock(late)),
                    late,
                    r,
                )
            ),
        call matches Call::Resume(SyncTimeoutPhase::Spin(SpinTimeoutPhase::Spinning(looked_on)))
            ==> (
                raised
                    ==> final(condvar)@ == old(condvar)@
                    && final(wakes)@ == old(wakes)@
                    && regains_timed(
                        old(mutex)@,
                        final(mutex)@,
                        caller,
                        SyncTimeoutPhase::Spin(SpinTimeoutPhase::Relock(false)),
                        false,
                        r,
                    )
            ),
        call matches Call::Resume(SyncTimeoutPhase::Spin(SpinTimeoutPhase::Spinning(looked_on)))
            ==> !raised
                ==> exists|reading: web_time::Instant|
                    #![trigger time::nanos_between(reading, deadline)]
                    time::read_from_clock(reading)
                    && (
                        !(time::nanos_between(reading, deadline) == 0)
                            ==> final(condvar)@ == old(condvar)@
                            && final(mutex)@ == old(mutex)@
                            && final(wakes)@ == old(wakes)@
                            && r
                                ==
                                    Progress::<SyncTimeoutPhase, (Guard<T>, WaitTimeoutResult)>::Pause(
                                        SyncTimeoutPhase::Spin(
                                            SpinTimeoutPhase::Spinning(looked_on),
                                        ),
                                        Pause::SpinLoop,
                                    )
                    )
                    && (
                        time::nanos_between(reading, deadline) == 0
                        && old(condvar)@.spin.contains(looked_on)
                            ==> left_spin(old(condvar)@, final(condvar)@, looked_on)
                            && final(wakes)@ == old(wakes)@
                            && regains_timed(
                                old(mutex)@,
                                final(mutex)@,
                                caller,
                                SyncTimeoutPhase::Spin(SpinTimeoutPhase::Relock(true)),
                                true,
                                r,
                            )
                    )
                    && (
                        time::nanos_between(reading, deadline) == 0
                        && !old(condvar)@.spin.contains(looked_on)
                            ==> final(condvar)@ == old(condvar)@
                            && final(mutex)@ == old(mutex)@
                            && final(wakes)@ == old(wakes)@
                            && r
                                ==
                                    Progress::<SyncTimeoutPhase, (Guard<T>, WaitTimeoutResult)>::Pause(
                                        SyncTimeoutPhase::Spin(
                                            SpinTimeoutPhase::Handoff(looked_on),
                                        ),
                                        Pause::Yield,
                                    )
                    ),
        call matches Call::Resume(SyncTimeoutPhase::Spin(SpinTimeoutPhase::Handoff(looked_on)))
            ==> (
                !raised
                    ==> final(condvar)@ == old(condvar)@
                    && final(mutex)@ == old(mutex)@
                    && final(wakes)@ == old(wakes)@
                    && r
                        == Progress::<SyncTimeoutPhase, (Guard<T>, WaitTimeoutResult)>::Pause(
                            SyncTimeoutPhase::Spin(SpinTimeoutPhase::Handoff(looked_on)),
                            Pause::SpinLoop,
                        )
            )
            && (
                raised
                    ==> final(condvar)@ == old(condvar)@
                    && final(wakes)@ == old(wakes)@
                    && regains_timed(
                        old(mutex)@,
                        final(mutex)@,
                        caller,
                        SyncTimeoutPhase::Spin(SpinTimeoutPhase::Relock(false)),
                        false,
                        r,
                    )
            ),
        call matches Call::Resume(SyncTimeoutPhase::Spin(SpinTimeoutPhase::Relock(late)))
            ==> (
                final(condvar)@ == old(condvar)@
                && final(wakes)@ == old(wakes)@
                && regains_timed(
                    old(mutex)@,
                    final(mutex)@,
                    caller,
                    SyncTimeoutPhase::Spin(SpinTimeoutPhase::Relock(late)),
                    late,
                    r,
                )
            ),
{
    lemma_freed(old(mutex)@);
    lemma_left(old(condvar)@.sync, caller.thread);
    if let Call::Resume(SyncTimeoutPhase::Spin(SpinTimeoutPhase::Spinning(looked_on))) = call {
        lemma_left(old(condvar)@.spin, looked_on);
    }
}

/// What each step of `wait_async_timeout` comes to. The first lists the waiter and hands the mutex
/// back. A later one takes the mutex again when the wait is over: by a notification, and then it
/// has not timed out, or by a lost race, and then it has.
pub proof fn law_wait_async_timeout_answers<T>(
    condvar: &mut Condvar,
    mutex: &mut Mutex<T>,
    call: Call<Guard<T>, AsyncTimeoutPhase>,
    ids: &mut WaiterIds,
    timed_out: bool,
    continuation: u64,
    wakes: &mut Vec<Wake>,
    r: Progress<AsyncTimeoutPhase, (Guard<T>, WaitTimeoutResult)>,
)
    requires
        call_ensures(
            Condvar::wait_async_timeout::<T>,
            (condvar, mutex, call, ids, timed_out, continuation, wakes),
            r,
        ),
    ensures
        call matches Call::Start(start)
            ==> (
                joined_async(old(condvar)@, final(condvar)@, old(ids).spec_next(), continuation)
                && handed_back(old(mutex)@, final(mutex)@, start@, old(wakes)@, final(wakes)@)
                && r
                    == Progress::<AsyncTimeoutPhase, (Guard<T>, WaitTimeoutResult)>::Pause(
                        AsyncTimeoutPhase::Racing(old(ids).spec_next()),
                        Pause::Race(continuation),
                    )
                && (
                    old(ids).spec_next() < u64::MAX
                        ==> final(ids).spec_next() == old(ids).spec_next() + 1
                )
                && (old(ids).spec_next() == u64::MAX ==> final(ids).spec_next() == 0)
            ),
        call matches Call::Resume(AsyncTimeoutPhase::Racing(number))
            ==> (
                timed_out
                    ==>
                        left_async(
                            old(condvar)@,
                            final(condvar)@,
                            number,
                            old(wakes)@,
                            final(wakes)@,
                        )
                        && final(ids).spec_next() == old(ids).spec_next()
                        && regains_async_timed(old(mutex)@, final(mutex)@, continuation, true, r)
            )
            && (
                !timed_out
                    ==> final(condvar)@ == old(condvar)@
                    && final(wakes)@ == old(wakes)@
                    && final(ids).spec_next() == old(ids).spec_next()
                    && regains_async_timed(old(mutex)@, final(mutex)@, continuation, false, r)
            ),
        call matches Call::Resume(AsyncTimeoutPhase::Relock(late))
            ==> (
                final(condvar)@ == old(condvar)@
                && final(wakes)@ == old(wakes)@
                && final(ids).spec_next() == old(ids).spec_next()
                && regains_async_timed(old(mutex)@, final(mutex)@, continuation, late, r)
            ),
{
    lemma_freed(old(mutex)@);
    if let Call::Resume(AsyncTimeoutPhase::Racing(number)) = call {
        lemma_left_async(old(condvar)@, number, old(wakes)@);
    }
}

/// What each step of `wait_block_while` comes to. Whenever it has the mutex in hand, it tries the
/// condition, once, on the data: the wait starts anew if the condition holds, and the call ends if
/// not, so that it ends only on a condition that does not hold.
pub proof fn law_wait_block_while_answers<T, F: FnMut(&mut T) -> bool>(
    condvar: &mut Condvar,
    mutex: &mut Mutex<T>,
    call: Call<Guard<T>, BlockPhase>,
    condition: &mut F,
    caller: Caller,
    wakes: &mut Vec<Wake>,
    r: Progress<BlockPhase, Guard<T>>,
)
    requires
        call_ensures(
            Condvar::wait_block_while::<T, F>,
            (condvar, mutex, call, condition, caller, wakes),
            r,
        ),
        call is Start ==> old(mutex)@.inner is None,
    ensures
        call matches Call::Start(start)
            ==> (
                (
                    exists|data: &mut T, holds: bool|
                        #[trigger] call_ensures(*old(condition), (data,), holds)
                        && *data == start@
                        && (
                            holds
                                ==> joined_sync(old(condvar)@, final(condvar)@, caller.thread)
                                && handed_back(
                                    old(mutex)@,
                                    final(mutex)@,
                                    *final(data),
                                    old(wakes)@,
                                    final(wakes)@,
                                )
                                && r
                                    == Progress::<BlockPhase, Guard<T>>::Pause(
                                        BlockPhase::Relock,
                                        Pause::Park,
                                    )
                        )
                        && (
                            !holds
                                ==> final(condvar)@ == old(condvar)@
                                && final(wakes)@ == old(wakes)@
                                && final(mutex)@.inner is None
                                && final(mutex)@.id == old(mutex)@.id
                                && final(mutex)@.sync == old(mutex)@.sync
                                && final(mutex)@.asynch == old(mutex)@.asynch
                                && (
                                    r matches Progress::Done(guard)
                                    && guard@ == *final(data)
                                    && guard.id() == old(mutex)@.id
                                )
                        )
                )
            ),
        call matches Call::Resume(_)
            ==> (
                old(mutex)@.inner is None
                    ==> final(condvar)@ == old(condvar)@
                    && final(wakes)@ == old(wakes)@
                    && regains(old(mutex)@, final(mutex)@, caller, BlockPhase::Relock, r)
            )
            && (
                old(mutex)@.inner is Some
                    ==> (
                        exists|data: &mut T, holds: bool|
                            #[trigger] call_ensures(*old(condition), (data,), holds)
                            && *data == old(mutex)@.inner->0
                            && (
                                holds
                                    ==> joined_sync(old(condvar)@, final(condvar)@, caller.thread)
                                    && handed_back(
                                        old(mutex)@,
                                        final(mutex)@,
                                        *final(data),
                                        old(wakes)@,
                                        final(wakes)@,
                                    )
                                    && r
                                        == Progress::<BlockPhase, Guard<T>>::Pause(
                                            BlockPhase::Relock,
                                            Pause::Park,
                                        )
                            )
                            && (
                                !holds
                                    ==> final(condvar)@ == old(condvar)@
                                    && final(wakes)@ == old(wakes)@
                                    && final(mutex)@.inner is None
                                    && final(mutex)@.id == old(mutex)@.id
                                    && final(mutex)@.sync == old(mutex)@.sync
                                    && final(mutex)@.asynch == old(mutex)@.asynch
                                    && (
                                        r matches Progress::Done(guard)
                                        && guard@ == *final(data)
                                        && guard.id() == old(mutex)@.id
                                    )
                            )
                    )
            ),
{
    lemma_freed(old(mutex)@);
    assert(call is Start ==> old(mutex)@.taken() =~= old(mutex)@);
}

/// What each step of `wait_spin_while` comes to. Whenever it has the mutex in hand, it tries the
/// condition, once, on the data: the wait starts anew if the condition holds, and the call ends if
/// not, so that it ends only on a condition that does not hold.
pub proof fn law_wait_spin_while_answers<T, F: FnMut(&mut T) -> bool>(
    condvar: &mut Condvar,
    mutex: &mut Mutex<T>,
    call: Call<Guard<T>, SpinPhase>,
    condition: &mut F,
    flag: u64,
    raised: bool,
    caller: Caller,
    wakes: &mut Vec<Wake>,
    r: Progress<SpinPhase, Guard<T>>,
)
    requires
        call_ensures(
            Condvar::wait_spin_while::<T, F>,
            (condvar, mutex, call, condition, flag, raised, caller, wakes),
            r,
        ),
        call is Start ==> old(mutex)@.inner is None,
    ensures
        call matches Call::Start(start)
            ==> (
                (
                    exists|data: &mut T, holds: bool|
                        #[trigger] call_ensures(*old(condition), (data,), holds)
                        && *data == start@
                        && (
                            holds
                                ==> joined_spin(old(condvar)@, final(condvar)@, flag)
                                && handed_back(
                                    old(mutex)@,
                                    final(mutex)@,
                                    *final(data),
                                    old(wakes)@,
                                    final(wakes)@,
                                )
                                && r
                                    == Progress::<SpinPhase, Guard<T>>::Pause(
                                        SpinPhase::Spinning(flag),
                                        Pause::Yield,
                                    )
                        )
                        && (
                            !holds
                                ==> final(condvar)@ == old(condvar)@
                                && final(wakes)@ == old(wakes)@
                                && final(mutex)@.inner is None
                                && final(mutex)@.id == old(mutex)@.id
                                && final(mutex)@.sync == old(mutex)@.sync
                                && final(mutex)@.asynch == old(mutex)@.asynch
                                && (
                                    r matches Progress::Done(guard)
                                    && guard@ == *final(data)
                                    && guard.id() == old(mutex)@.id
                                )
                        )
                )
            ),
        call matches Call::Resume(SpinPhase::Spinning(looked_on))
            ==> (
                !raised
                    ==> final(condvar)@ == old(condvar)@
                    && final(mutex)@ == old(mutex)@
                    && final(wakes)@ == old(wakes)@
                    && r
                        == Progress::<SpinPhase, Guard<T>>::Pause(
                            SpinPhase::Spinning(looked_on),
                            Pause::SpinLoop,
                        )
            )
            && (
                raised && old(mutex)@.inner is None
                    ==> final(condvar)@ == old(condvar)@
                    && final(wakes)@ == old(wakes)@
                    && regains(old(mutex)@, final(mutex)@, caller, SpinPhase::Relock, r)
            )
            && (
                raised && old(mutex)@.inner is Some
                    ==> (
                        exists|data: &mut T, holds: bool|
                            #[trigger] call_ensures(*old(condition), (data,), holds)
                            && *data == old(mutex)@.inner->0
                            && (
                                holds
                                    ==> joined_spin(old(condvar)@, final(condvar)@, flag)
                                    && handed_back(
                                        old(mutex)@,
                                        final(mutex)@,
                                        *final(data),
                                        old(wakes)@,
                                        final(wakes)@,
                                    )
                                    && r
                                        == Progress::<SpinPhase, Guard<T>>::Pause(
                                            SpinPhase::Spinning(flag),
                                            Pause::Yield,
                                        )
                            )
                            && (
                                !holds
                                    ==> final(condvar)@ == old(condvar)@
                                    && final(wakes)@ == old(wakes)@
                                    && final(mutex)@.inner is None
                                    && final(mutex)@.id == old(mutex)@.id
                                    && final(mutex)@.sync == old(mutex)@.sync
                                    && final(mutex)@.asynch == old(mutex)@.asynch
                                    && (
                                        r matches Progress::Done(guard)
                                        && guard@ == *final(data)
                                        && guard.id() == old(mutex)@.id
                                    )
                            )
                    )
            ),
        call matches Call::Resume(SpinPhase::Relock)
            ==> (
                old(mutex)@.inner is None
                    ==> final(condvar)@ == old(condvar)@
                    && final(wakes)@ == old(wakes)@
                    && regains(old(mutex)@, final(mutex)@, caller, SpinPhase::Relock, r)
            )
            && (
                old(mutex)@.inner is Some
                    ==> (
                        exists|data: &mut T, holds: bool|
                            #[trigger] call_ensures(*old(condition), (data,), holds)
                            && *data == old(mutex)@.inner->0
                            && (
                                holds
                                    ==> joined_spin(old(condvar)@, final(condvar)@, flag)
                                    && handed_back(
                                        old(mutex)@,
                                        final(mutex)@,
                                        *final(data),
                                        old(wakes)@,
                                        final(wakes)@,
                                    )
                                    && r
                                        == Progress::<SpinPhase, Guard<T>>::Pause(
                                            SpinPhase::Spinning(flag),
                                            Pause::Yield,
                                        )
                            )
                            && (
                                !holds
                                    ==> final(condvar)@ == old(condvar)@
                                    && final(wakes)@ == old(wakes)@
                                    && final(mutex)@.inner is None
                                    && final(mutex)@.id == old(mutex)@.id
                                    && final(mutex)@.sync == old(mutex)@.sync
                                    && final(mutex)@.asynch == old(mutex)@.asynch
                                    && (
                                        r matches Progress::Done(guard)
                                        && guard@ == *final(data)
                                        && guard.id() == old(mutex)@.id
                                    )
                            )
                    )
            ),
{
    lemma_freed(old(mutex)@);
    assert(call is Start ==> old(mutex)@.taken() =~= old(mutex)@);
}

/// What each step of `wait_sync_while` comes to. Whenever it has the mutex in hand, it tries the
/// condition, once, on the data: the wait starts anew if the condition holds, and the call ends if
/// not, so that it ends only on a condition that does not hold.
pub proof fn law_wait_sync_while_answers<T, F: FnMut(&mut T) -> bool>(
    condvar: &mut Condvar,
    mutex: &mut Mutex<T>,
    call: Call<Guard<T>, SyncPhase>,
    condition: &mut F,
    flag: u64,
    raised: bool,
    caller: Caller,
    wakes: &mut Vec<Wake>,
    r: Progress<SyncPhase, Guard<T>>,
)
    requires
        call_ensures(
            Condvar::wait_sync_while::<T, F>,
            (condvar, mutex, call, condition, flag, raised, caller, wakes),
            r,
        ),
        call is Start ==> old(mutex)@.inner is None,
    ensures
        call matches Call::Start(start)
            ==> (
                (
                    exists|data: &mut T, holds: bool|
                        #[trigger] call_ensures(*old(condition), (data,), holds)
                        && *data == start@
                        && (
                            holds
                                ==> handed_back(
                                    old(mutex)@,
                                    final(mutex)@,
                                    *final(data),
                                    old(wakes)@,
                                    final(wakes)@,
                                )
                                && (
                                    caller.can_block
                                        ==>
                                            joined_sync(
                                                old(condvar)@,
                                                final(condvar)@,
                                                caller.thread,
                                            )
                                            && r
                                                == Progress::<SyncPhase, Guard<T>>::Pause(
                                                    SyncPhase::Block(BlockPhase::Relock),
                                                    Pause::Park,
                                                )
                                )
                                && (
                                    !caller.can_block
                                        ==> joined_spin(old(condvar)@, final(condvar)@, flag)
                                        && r
                                            == Progress::<SyncPhase, Guard<T>>::Pause(
                                                SyncPhase::Spin(SpinPhase::Spinning(flag)),
                                                Pause::Yield,
                                            )
                                )
                        )
                        && (
                            !holds
                                ==> final(condvar)@ == old(condvar)@
                                && final(wakes)@ == old(wakes)@
                                && final(mutex)@.inner is None
                                && final(mutex)@.id == old(mutex)@.id
                                && final(mutex)@.sync == old(mutex)@.sync
                                && final(mutex)@.asynch == old(mutex)@.asynch
                                && (
                                    r matches Progress::Done(guard)
                                    && guard@ == *final(data)
                                    && guard.id() == old(mutex)@.id
                                )
                        )
                )
            ),
        call matches Call::Resume(SyncPhase::Block(_))
            ==> (
                old(mutex)@.inner is None
                    ==> final(condvar)@ == old(condvar)@
                    && final(wakes)@ == old(wakes)@
                    && regains(
                        old(mutex)@,
                        final(mutex)@,
                        caller,
                        SyncPhase::Block(BlockPhase::Relock),
                        r,
                    )
            )
            && (
                old(mutex)@.inner is Some
                    ==> (
                        exists|data: &mut T, holds: bool|
                            #[trigger] call_ensures(*old(condition), (data,), holds)
                            && *data == old(mutex)@.inner->0
                            && (
                                holds
                                    ==> handed_back(
                                        old(mutex)@,
                                        final(mutex)@,
                                        *final(data),
                                        old(wakes)@,
                                        final(wakes)@,
                                    )
                                    && (
                                        caller.can_block
                                            ==> joined_sync(
                                                old(condvar)@,
                                                final(condvar)@,
                                                caller.thread,
                                            )
                                            && r
                                                == Progress::<SyncPhase, Guard<T>>::Pause(
                                                    SyncPhase::Block(BlockPhase::Relock),
                                                    Pause::Park,
                                                )
                                    )
                                    && (
                                        !caller.can_block
                                            ==> joined_spin(old(condvar)@, final(condvar)@, flag)
                                            && r
                                                == Progress::<SyncPhase, Guard<T>>::Pause(
                                                    SyncPhase::Spin(SpinPhase::Spinning(flag)),
                                                    Pause::Yield,
                                                )
                                    )
                            )
                            && (
                                !holds
                                    ==> final(condvar)@ == old(condvar)@
                                    && final(wakes)@ == old(wakes)@
                                    && final(mutex)@.inner is None
                                    && final(mutex)@.id == old(mutex)@.id
                                    && final(mutex)@.sync == old(mutex)@.sync
                                    && final(mutex)@.asynch == old(mutex)@.asynch
                                    && (
                                        r matches Progress::Done(guard)
                                        && guard@ == *final(data)
                                        && guard.id() == old(mutex)@.id
                                    )
                            )
                    )
            ),
        call matches Call::Resume(SyncPhase::Spin(SpinPhase::Spinning(looked_on)))
            ==> (
                !raised
                    ==> final(condvar)@ == old(condvar)@
                    && final(mutex)@ == old(mutex)@
                    && final(wakes)@ == old(wakes)@
                    && r
                        == Progress::<SyncPhase, Guard<T>>::Pause(
                            SyncPhase::Spin(SpinPhase::Spinning(looked_on)),
                            Pause::SpinLoop,
                        )
            )
            && (
                raised && old(mutex)@.inner is None
                    ==> final(condvar)@ == old(condvar)@
                    && final(wakes)@ == old(wakes)@
                    && regains(
                        old(mutex)@,
                        final(mutex)@,
                        caller,
                        SyncPhase::Spin(SpinPhase::Relock),
                        r,
                    )
            )
            && (
                raised && old(mutex)@.inner is Some
                    ==> (
                        exists|data: &mut T, holds: bool|
                            #[trigger] call_ensures(*old(condition), (data,), holds)
                            && *data == old(mutex)@.inner->0
                            && (
                                holds
                                    ==> handed_back(
                                        old(mutex)@,
                                        final(mutex)@,
                                        *final(data),
                                        old(wakes)@,
                                        final(wakes)@,
                                    )
                                    && (
                                        caller.can_block
                                            ==> joined_sync(
                                                old(condvar)@,
                                                final(condvar)@,
                                                caller.thread,
                                            )
                                            && r
                                                == Progress::<SyncPhase, Guard<T>>::Pause(
                                                    SyncPhase::Block(BlockPhase::Relock),
                                                    Pause::Park,
                                                )
                                    )
                                    && (
                                        !caller.can_block
                                            ==> joined_spin(old(condvar)@, final(condvar)@, flag)
                                            && r
                                                == Progress::<SyncPhase, Guard<T>>::Pause(
                                                    SyncPhase::Spin(SpinPhase::Spinning(flag)),
                                                    Pause::Yield,
                                                )
                                    )
                            )
                            && (
                                !holds
                                    ==> final(condvar)@ == old(condvar)@
                                    && final(wakes)@ == old(wakes)@
                                    && final(mutex)@.inner is None
                                    && final(mutex)@.id == old(mutex)@.id
                                    && final(mutex)@.sync == old(mutex)@.sync
                                    && final(mutex)@.asynch == old(mutex)@.asynch
                                    && (
                                        r matches Progress::Done(guard)
                                        && guard@ == *final(data)
                                        && guard.id() == old(mutex)@.id
                                    )
                            )
                    )
            ),
        call matches Call::Resume(SyncPhase::Spin(SpinPhase::Relock))
            ==> (
                old(mutex)@.inner is None
                    ==> final(condvar)@ == old(condvar)@
                    && final(wakes)@ == old(wakes)@
                    && regains(
                        old(mutex)@,
                        final(mutex)@,
                        caller,
                        SyncPhase::Spin(SpinPhase::Relock),
                        r,
                    )
            )
            && (
                old(mutex)@.inner is Some
                    ==> (
                        exists|data: &mut T, holds: bool|
                            #[trigger] call_ensures(*old(condition), (data,), holds)
                            && *data == old(mutex)@.inner->0
                            && (
                                holds
                                    ==> handed_back(
                                        old(mutex)@,
                                        final(mutex)@,
                                        *final(data),
                                        old(wakes)@,
                                        final(wakes)@,
                                    )
                                    && (
                                        caller.can_block
                                            ==> joined_sync(
                                                old(condvar)@,
                                                final(condvar)@,
                                                caller.thread,
                                            )
                                            && r
                                                == Progress::<SyncPhase, Guard<T>>::Pause(
                                                    SyncPhase::Block(BlockPhase::Relock),
                                                    Pause::Park,
                                                )
                                    )
                                    && (
                                        !caller.can_block
                                            ==> joined_spin(old(condvar)@, final(condvar)@, flag)
                                            && r
                                                == Progress::<SyncPhase, Guard<T>>::Pause(
                                                    SyncPhase::Spin(SpinPhase::Spinning(flag)),
                                                    Pause::Yield,
                                                )
                                    )
                            )
                            && (
                                !holds
                                    ==> final(condvar)@ == old(condvar)@
                                    && final(wakes)@ == old(wakes)@
                                    && final(mutex)@.inner is None
                                    && final(mutex)@.id == old(mutex)@.id
                                    && final(mutex)@.sync == old(mutex)@.sync
                                    && final(mutex)@.asynch == old(mutex)@.asynch
                                    && (
                                        r matches Progress::Done(guard)
                                        && guard@ == *final(data)
                                        && guard.id() == old(mutex)@.id
                                    )
                            )
                    )
            ),
{
    lemma_freed(old(mutex)@);
    assert(call is Start ==> old(mutex)@.taken() =~= old(mutex)@);
}

/// What each step of `wait_async_while` comes to. Whenever it has the mutex in hand, it tries the
/// condition, once, on the data: the wait starts anew if the condition holds, and the call ends if
/// not, so that it ends only on a condition that does not hold.
pub proof fn law_wait_async_while_answers<T, F: FnMut(&mut T) -> bool>(
    condvar: &mut Condvar,
    mutex: &mut Mutex<T>,
    call: Call<Guard<T>, AsyncPhase>,
    condition: &mut F,
    ids: &mut WaiterIds,
    continuation: u64,
    wakes: &mut Vec<Wake>,
    r: Progress<AsyncPhase, Guard<T>>,
)
    requires
        call_ensures(
            Condvar::wait_async_while::<T, F>,
            (condvar, mutex, call, condition, ids, continuation, wakes),
            r,
        ),
        call is Start ==> old(mutex)@.inner is None,
    ensures
        call matches Call::Start(start)
            ==> (
                (
                    exists|data: &mut T, holds: bool|
                        #[trigger] call_ensures(*old(condition), (data,), holds)
                        && *data == start@
                        && (
                            holds
                                ==> joined_async(
                                    old(condvar)@,
                                    final(condvar)@,
                                    old(ids).spec_next(),
                                    continuation,
                                )
                                && handed_back(
                                    old(mutex)@,
                                    final(mutex)@,
                                    *final(data),
                                    old(wakes)@,
                                    final(wakes)@,
                                )
                                && r
                                    == Progress::<AsyncPhase, Guard<T>>::Pause(
                                        AsyncPhase::Relock,
                                        Pause::Await(continuation),
                                    )
                                && (
                                    old(ids).spec_next() < u64::MAX
                                        ==> final(ids).spec_next() == old(ids).spec_next() + 1
                                )
                                &&
                                    (
                                        old(ids).spec_next() == u64::MAX
                                            ==> final(ids).spec_next() == 0
                                    )
                        )
                        && (
                            !holds
                                ==> final(condvar)@ == old(condvar)@
                                && final(wakes)@ == old(wakes)@
                                && final(mutex)@.inner is None
                                && final(mutex)@.id == old(mutex)@.id
                                && final(mutex)@.sync == old(mutex)@.sync
                                && final(mutex)@.asynch == old(mutex)@.asynch
                                && (
                                    r matches Progress::Done(guard)
                                    && guard@ == *final(data)
                                    && guard.id() == old(mutex)@.id
                                )
                                && final(ids).spec_next() == old(ids).spec_next()
                        )
                )
            ),
        call matches Call::Resume(_)
            ==> (
                old(mutex)@.inner is None
                    ==> final(condvar)@ == old(condvar)@
                    && final(wakes)@ == old(wakes)@
                    && final(ids).spec_next() == old(ids).spec_next()
                    && regains_async(old(mutex)@, final(mutex)@, continuation, r)
            )
            && (
                old(mutex)@.inner is Some
                    ==> (
                        exists|data: &mut T, holds: bool|
                            #[trigger] call_ensures(*old(condition), (data,), holds)
                            && *data == old(mutex)@.inner->0
                            && (
                                holds
                                    ==> joined_async(
                                        old(condvar)@,
                                        final(condvar)@,
                                        old(ids).spec_next(),
                                        continuation,
                                    )
                                    && handed_back(
                                        old(mutex)@,
                                        final(mutex)@,
                                        *final(data),
                                        old(wakes)@,
                                        final(wakes)@,
                                    )
                                    && r
                                        == Progress::<AsyncPhase, Guard<T>>::Pause(
                                            AsyncPhase::Relock,
                                            Pause::Await(continuation),
                                        )
                                    && (
                                        old(ids).spec_next() < u64::MAX
                                            ==> final(ids).spec_next() == old(ids).spec_next() + 1
                                    )
                                    && (
                                        old(ids).spec_next() == u64::MAX
                                            ==> final(ids).spec_next() == 0
                                    )
                            )
                            && (
                                !holds
                                    ==> final(condvar)@ == old(condvar)@
                                    && final(wakes)@ == old(wakes)@
                                    && final(mutex)@.inner is None
                                    && final(mutex)@.id == old(mutex)@.id
                                    && final(mutex)@.sync == old(mutex)@.sync
                                    && final(mutex)@.asynch == old(mutex)@.asynch
                                    && (
                                        r matches Progress::Done(guard)
                                        && guard@ == *final(data)
                                        && guard.id() == old(mutex)@.id
                                    )
                                    && final(ids).spec_next() == old(ids).spec_next()
                            )
                    )
            ),
{
    lemma_freed(old(mutex)@);
    assert(call is Start ==> old(mutex)@.taken() =~= old(mutex)@);
}

/// What each step of `wait_block_timeout_while_at` comes to. Whenever it has the mutex in hand and
/// has not timed out, it tries the condition, once, on the data: the wait starts anew if the
/// condition holds, and the call ends if not, so that it ends only on a condition that does not
/// hold, or by a timeout.
pub proof fn law_wait_block_timeout_while_at_answers<T, F: FnMut(&mut T) -> bool>(
    condvar: &mut Condvar,
    mutex: &mut Mutex<T>,
    call: Call<Guard<T>, BlockTimeoutPhase>,
    condition: &mut F,
    caller: Caller,
    now: Moment,
    deadline: Moment,
    wakes: &mut Vec<Wake>,
    r: Progress<BlockTimeoutPhase, (Guard<T>, WaitTimeoutResult)>,
)
    requires
        call_ensures(
            Condvar::wait_block_timeout_while_at::<T, F>,
            (condvar, mutex, call, condition, caller, now, deadline, wakes),
            r,
        ),
        call is Start ==> old(mutex)@.inner is None,
    ensures
        call matches Call::Start(start)
            ==> (
                (
                    exists|data: &mut T, holds: bool|
                        #[trigger] call_ensures(*old(condition), (data,), holds)
                        && *data == start@
                        && (
                            holds
                                ==> joined_sync(old(condvar)@, final(condvar)@, caller.thread)
                                && handed_back(
                                    old(mutex)@,
                                    final(mutex)@,
                                    *final(data),
                                    old(wakes)@,
                                    final(wakes)@,
                                )
                                && r
                                    ==
                                        Progress::<BlockTimeoutPhase, (Guard<T>, WaitTimeoutResult)>::Pause(
                                            BlockTimeoutPhase::Tick,
                                            Pause::Yield,
                                        )
                        )
                        && (
                            !holds
                                ==> final(condvar)@ == old(condvar)@
                                && final(wakes)@ == old(wakes)@
                                && final(mutex)@.inner is None
                                && final(mutex)@.id == old(mutex)@.id
                                && final(mutex)@.sync == old(mutex)@.sync
                                && final(mutex)@.asynch == old(mutex)@.asynch
                                && (
                                    r matches Progress::Done((guard, result))
                                    && guard@ == *final(data)
                                    && guard.id() == old(mutex)@.id
                                    && !result.spec_timed_out()
                                )
                        )
                )
            ),
        call matches Call::Resume(BlockTimeoutPhase::Tick)
            ==> (
                !(now.nanos >= deadline.nanos)
                    ==> final(condvar)@ == old(condvar)@
                    && final(mutex)@ == old(mutex)@
                    && final(wakes)@ == old(wakes)@
                    && (
                        r matches Progress::Pause(
                            BlockTimeoutPhase::Parked,
                            Pause::ParkTimeout(nanos),
                        )
                        && nanos == deadline.nanos - now.nanos
                    )
            )
            && (
                now.nanos >= deadline.nanos
                && (old(mutex)@.inner is None || old(condvar)@.sync.contains(caller.thread))
                    ==> left_sync(old(condvar)@, final(condvar)@, caller.thread)
                    && final(wakes)@ == old(wakes)@
                    && regains_timed(
                        old(mutex)@,
                        final(mutex)@,
                        caller,
                        BlockTimeoutPhase::Relock(old(condvar)@.sync.contains(caller.thread)),
                        old(condvar)@.sync.contains(caller.thread),
                        r,
                    )
            )
            && (
                now.nanos >= deadline.nanos
                && old(mutex)@.inner is Some
                && !(old(condvar)@.sync.contains(caller.thread))
                    ==> (
                        exists|data: &mut T, holds: bool|
                            #[trigger] call_ensures(*old(condition), (data,), holds)
                            && *data == old(mutex)@.inner->0
                            && (
                                holds
                                    ==> joined_sync(old(condvar)@, final(condvar)@, caller.thread)
                                    && handed_back(
                                        old(mutex)@,
                                        final(mutex)@,
                                        *final(data),
                                        old(wakes)@,
                                        final(wakes)@,
                                    )
                                    && r
                                        ==
                                            Progress::<BlockTimeoutPhase, (Guard<T>, WaitTimeoutResult)>::Pause(
                                                BlockTimeoutPhase::Tick,
                                                Pause::Yield,
                                            )
                            )
                            && (
                                !holds
                                    ==> final(condvar)@ == old(condvar)@
                                    && final(wakes)@ == old(wakes)@
                                    && final(mutex)@.inner is None
                                    && final(mutex)@.id == old(mutex)@.id
                                    && final(mutex)@.sync == old(mutex)@.sync
                                    && final(mutex)@.asynch == old(mutex)@.asynch
                                    && (
                                        r matches Progress::Done((guard, result))
                                        && guard@ == *final(data)
                                        && guard.id() == old(mutex)@.id
                                        && !result.spec_timed_out()
                                    )
                            )
                    )
            ),
        call matches Call::Resume(BlockTimeoutPhase::Parked)
            ==> (
                old(condvar)@.sync.contains(caller.thread)
                    ==> final(condvar)@ == old(condvar)@
                    && final(mutex)@ == old(mutex)@
                    && final(wakes)@ == old(wakes)@
                    && r
                        == Progress::<BlockTimeoutPhase, (Guard<T>, WaitTimeoutResult)>::Pause(
                            BlockTimeoutPhase::Tick,
                            Pause::Yield,
                        )
            )
            && (
                !old(condvar)@.sync.contains(caller.thread) && old(mutex)@.inner is None
                    ==> final(condvar)@ == old(condvar)@
                    && final(wakes)@ == old(wakes)@
                    && regains_timed(
                        old(mutex)@,
                        final(mutex)@,
                        caller,
                        BlockTimeoutPhase::Relock(false),
                        false,
                        r,
                    )
            )
            && (
                !old(condvar)@.sync.contains(caller.thread) && old(mutex)@.inner is Some
                    ==> (
                        exists|data: &mut T, holds: bool|
                            #[trigger] call_ensures(*old(condition), (data,), holds)
                            && *data == old(mutex)@.inner->0
                            && (
                                holds
                                    ==> joined_sync(old(condvar)@, final(condvar)@, caller.thread)
                                    && handed_back(
                                        old(mutex)@,
                                        final(mutex)@,
                                        *final(data),
                                        old(wakes)@,
                                        final(wakes)@,
                                    )
                                    && r
                                        ==
                                            Progress::<BlockTimeoutPhase, (Guard<T>, WaitTimeoutResult)>::Pause(
                                                BlockTimeoutPhase::Tick,
                                                Pause::Yield,
                                            )
                            )
                            && (
                                !holds
                                    ==> final(condvar)@ == old(condvar)@
                                    && final(wakes)@ == old(wakes)@
                                    && final(mutex)@.inner is None
                                    && final(mutex)@.id == old(mutex)@.id
                                    && final(mutex)@.sync == old(mutex)@.sync
                                    && final(mutex)@.asynch == old(mutex)@.asynch
                                    && (
                                        r matches Progress::Done((guard, result))
                                        && guard@ == *final(data)
                                        && guard.id() == old(mutex)@.id
                                        && !result.spec_timed_out()
                                    )
                            )
                    )
            ),
        call matches Call::Resume(BlockTimeoutPhase::Relock(late))
            ==> (
                (old(mutex)@.inner is None || late)
                    ==> final(condvar)@ == old(condvar)@
                    && final(wakes)@ == old(wakes)@
                    && regains_timed(
                        old(mutex)@,
                        final(mutex)@,
                        caller,
                        BlockTimeoutPhase::Relock(late),
                        late,
                        r,
                    )
            )
            && (
                old(mutex)@.inner is Some && !(late)
                    ==> (
                        exists|data: &mut T, holds: bool|
                            #[trigger] call_ensures(*old(condition), (data,), holds)
                            && *data == old(mutex)@.inner->0
                            && (
                                holds
                                    ==> joined_sync(old(condvar)@, final(condvar)@, caller.thread)
                                    && handed_back(
                                        old(mutex)@,
                                        final(mutex)@,
                                        *final(data),
                                        old(wakes)@,
                                        final(wakes)@,
                                    )
                                    && r
                                        ==
                                            Progress::<BlockTimeoutPhase, (Guard<T>, WaitTimeoutResult)>::Pause(
                                                BlockTimeoutPhase::Tick,
                                                Pause::Yield,
                                            )
                            )
                            && (
                                !holds
                                    ==> final(condvar)@ == old(condvar)@
                                    && final(wakes)@ == old(wakes)@
                                    && final(mutex)@.inner is None
                                    && final(mutex)@.id == old(mutex)@.id
                                    && final(mutex)@.sync == old(mutex)@.sync
                                    && final(mutex)@.asynch == old(mutex)@.asynch
                                    && (
                                        r matches Progress::Done((guard, result))
                                        && guard@ == *final(data)
                                        && guard.id() == old(mutex)@.id
                                        && !result.spec_timed_out()
                                    )
                            )
                    )
            ),
{
    lemma_freed(old(mutex)@);
    lemma_left(old(condvar)@.sync, caller.thread);
    assert(call is Start ==> old(mutex)@.taken() =~= old(mutex)@);
}

/// What each step of `wait_block_timeout_while` comes to. Whenever it has the mutex in hand and has
/// not timed out, it tries the condition, once, on the data: the wait starts anew if the condition
/// holds, and the call ends if not, so that it ends only on a condition that does not hold, or by a
/// timeout.
pub proof fn law_wait_block_timeout_while_answers<T, F: FnMut(&mut T) -> bool>(
    condvar: &mut Condvar,
    mutex: &mut Mutex<T>,
    call: Call<Guard<T>, BlockTimeoutPhase>,
    condition: &mut F,
    caller: Caller,
    deadline: web_time::Instant,
    wakes: &mut Vec<Wake>,
    r: Progress<BlockTimeoutPhase, (Guard<T>, WaitTimeoutResult)>,
)
    requires
        call_ensures(
            Condvar::wait_block_timeout_while::<T, F>,
            (condvar, mutex, call, condition, caller, deadline, wakes),
            r,
        ),
        call is Start ==> old(mutex)@.inner is None,
    ensures
        call matches Call::Start(start)
            ==> (
                (
                    exists|data: &mut T, holds: bool|
                        #[trigger] call_ensures(*old(condition), (data,), holds)
                        && *data == start@
                        && (
                            holds
                                ==> joined_sync(old(condvar)@, final(condvar)@, caller.thread)
                                && handed_back(
                                    old(mutex)@,
                                    final(mutex)@,
                                    *final(data),
                                    old(wakes)@,
                                    final(wakes)@,
                                )
                                && r
                                    ==
                                        Progress::<BlockTimeoutPhase, (Guard<T>, WaitTimeoutResult)>::Pause(
                                            BlockTimeoutPhase::Tick,
                                            Pause::Yield,
                                        )
                        )
                        && (
                            !holds
                                ==> final(condvar)@ == old(condvar)@
                                && final(wakes)@ == old(wakes)@
                                && final(mutex)@.inner is None
                                && final(mutex)@.id == old(mutex)@.id
                                && final(mutex)@.sync == old(mutex)@.sync
                                && final(mutex)@.asynch == old(mutex)@.asynch
                                && (
                                    r matches Progress::Done((guard, result))
                                    && guard@ == *final(data)
                                    && guard.id() == old(mutex)@.id
                                    && !result.spec_timed_out()
                                )
                        )
                )
            ),
        call matches Call::Resume(BlockTimeoutPhase::Tick)
            ==> exists|reading: web_time::Instant|
                #![trigger time::nanos_between(reading, deadline)]
                time::read_from_clock(reading)
                && (
                    !(time::nanos_between(reading, deadline) == 0)
                        ==> final(condvar)@ == old(condvar)@
                        && final(mutex)@ == old(mutex)@
                        && final(wakes)@ == old(wakes)@
                        && (
                            r matches Progress::Pause(
                                BlockTimeoutPhase::Parked,
                                Pause::ParkTimeout(nanos),
                            )
                            && nanos == time::nanos_between(reading, deadline)
                        )
                )
                && (
                    time::nanos_between(reading, deadline) == 0
                    && (old(mutex)@.inner is None || old(condvar)@.sync.contains(caller.thread))
                        ==> left_sync(old(condvar)@, final(condvar)@, caller.thread)
                        && final(wakes)@ == old(wakes)@
                        && regains_timed(
                            old(mutex)@,
                            final(mutex)@,
                            caller,
                            BlockTimeoutPhase::Relock(old(condvar)@.sync.contains(caller.thread)),
                            old(condvar)@.sync.contains(caller.thread),
                            r,
                        )
                )
                && (
                    time::nanos_between(reading, deadline) == 0
                    && old(mutex)@.inner is Some
                    && !(old(condvar)@.sync.contains(caller.thread))
                        ==> (
                            exists|data: &mut T, holds: bool|
                                #[trigger] call_ensures(*old(condition), (data,), holds)
                                && *data == old(mutex)@.inner->0
                                && (
                                    holds
                                        ==>
                                            joined_sync(
                                                old(condvar)@,
                                                final(condvar)@,
                                                caller.thread,
                                            )
                                            && handed_back(
                                                old(mutex)@,
                                                final(mutex)@,
                                                *final(data),
                                                old(wakes)@,
                                                final(wakes)@,
                                            )
                                            && r
                                                ==
                                                    Progress::<BlockTimeoutPhase, (Guard<T>, WaitTimeoutResult)>::Pause(
                                                        BlockTimeoutPhase::Tick,
                                                        Pause::Yield,
                                                    )
                                )
                                && (
                                    !holds
                                        ==> final(condvar)@ == old(condvar)@
                                        && final(wakes)@ == old(wakes)@
                                        && final(mutex)@.inner is None
                                        && final(mutex)@.id == old(mutex)@.id
                                        && final(mutex)@.sync == old(mutex)@.sync
                                        && final(mutex)@.asynch == old(mutex)@.asynch
                                        && (
                                            r matches Progress::Done((guard, result))
                                            && guard@ == *final(data)
                                            && guard.id() == old(mutex)@.id
                                            && !result.spec_timed_out()
                                        )
                                )
                        )
                ),
        call matches Call::Resume(BlockTimeoutPhase::Parked)
            ==> (
                old(condvar)@.sync.contains(caller.thread)
                    ==> final(condvar)@ == old(condvar)@
                    && final(mutex)@ == old(mutex)@
                    && final(wakes)@ == old(wakes)@
                    && r
                        == Progress::<BlockTimeoutPhase, (Guard<T>, WaitTimeoutResult)>::Pause(
                            BlockTimeoutPhase::Tick,
                            Pause::Yield,
                        )
            )
            && (
                !old(condvar)@.sync.contains(caller.thread) && old(mutex)@.inner is None
                    ==> final(condvar)@ == old(condvar)@
                    && final(wakes)@ == old(wakes)@
                    && regains_timed(
                        old(mutex)@,
                        final(mutex)@,
                        caller,
                        BlockTimeoutPhase::Relock(false),
                        false,
                        r,
                    )
            )
            && (
                !old(condvar)@.sync.contains(caller.thread) && old(mutex)@.inner is Some
                    ==> (
                        exists|data: &mut T, holds: bool|
                            #[trigger] call_ensures(*old(condition), (data,), holds)
                            && *data == old(mutex)@.inner->0
                            && (
                                holds
                                    ==> joined_sync(old(condvar)@, final(condvar)@, caller.thread)
                                    && handed_back(
                                        old(mutex)@,
                                        final(mutex)@,
                                        *final(data),
                                        old(wakes)@,
                                        final(wakes)@,
                                    )
                                    && r
                                        ==
                                            Progress::<BlockTimeoutPhase, (Guard<T>, WaitTimeoutResult)>::Pause(
                                                BlockTimeoutPhase::Tick,
                                                Pause::Yield,
                                            )
                            )
                            && (
                                !holds
                                    ==> final(condvar)@ == old(condvar)@
                                    && final(wakes)@ == old(wakes)@
                                    && final(mutex)@.inner is None
                                    && final(mutex)@.id == old(mutex)@.id
                                    && final(mutex)@.sync == old(mutex)@.sync
                                    && final(mutex)@.asynch == old(mutex)@.asynch
                                    && (
                                        r matches Progress::Done((guard, result))
                                        && guard@ == *final(data)
                                        && guard.id() == old(mutex)@.id
                                        && !result.spec_timed_out()
                                    )
                            )
                    )
            ),
        call matches Call::Resume(BlockTimeoutPhase::Relock(late))
            ==> (
                (old(mutex)@.inner is None || late)
                    ==> final(condvar)@ == old(condvar)@
                    && final(wakes)@ == old(wakes)@
                    && regains_timed(
                        old(mutex)@,
                        final(mutex)@,
                        caller,
                        BlockTimeoutPhase::Relock(late),
                        late,
                        r,
                    )
            )
            && (
                old(mutex)@.inner is Some && !(late)
                    ==> (
                        exists|data: &mut T, holds: bool|
                            #[trigger] call_ensures(*old(condition), (data,), holds)
                            && *data == old(mutex)@.inner->0
                            && (
                                holds
                                    ==> joined_sync(old(condvar)@, final(condvar)@, caller.thread)
                                    && handed_back(
                                        old(mutex)@,
                                        final(mutex)@,
                                        *final(data),
                                        old(wakes)@,
                                        final(wakes)@,
                                    )
                                    && r
                                        ==
                                            Progress::<BlockTimeoutPhase, (Guard<T>, WaitTimeoutResult)>::Pause(
                                                BlockTimeoutPhase::Tick,
                                                Pause::Yield,
                                            )
                            )
                            && (
                                !holds
                                    ==> final(condvar)@ == old(condvar)@
                                    && final(wakes)@ == old(wakes)@
                                    && final(mutex)@.inner is None
                                    && final(mutex)@.id == old(mutex)@.id
                                    && final(mutex)@.sync == old(mutex)@.sync
                                    && final(mutex)@.asynch == old(mutex)@.asynch
                                    && (
                                        r matches Progress::Done((guard, result))
                                        && guard@ == *final(data)
                                        && guard.id() == old(mutex)@.id
                                        && !result.spec_timed_out()
                                    )
                            )
                    )
            ),
{
    lemma_freed(old(mutex)@);
    lemma_left(old(condvar)@.sync, caller.thread);
    assert(call is Start ==> old(mutex)@.taken() =~= old(mutex)@);
}

/// What each step of `wait_spin_timeout_while_at` comes to. Whenever it has the mutex in hand and
/// has not timed out, it tries the condition, once, on the data: the wait starts anew if the
/// condition holds, and the call ends if not, so that it ends only on a condition that does not
/// hold, or by a timeout.
pub proof fn law_wait_spin_timeout_while_at_answers<T, F: FnMut(&mut T) -> bool>(
    condvar: &mut Condvar,
    mutex: &mut Mutex<T>,
    call: Call<Guard<T>, SpinTimeoutPhase>,
    condition: &mut F,
    flag: u64,
    raised: bool,
    caller: Caller,
    now: Moment,
    deadline: Moment,
    wakes: &mut Vec<Wake>,
    r: Progress<SpinTimeoutPhase, (Guard<T>, WaitTimeoutResult)>,
)
    requires
        call_ensures(
            Condvar::wait_spin_timeout_while_at::<T, F>,
            (condvar, mutex, call, condition, flag, raised, caller, now, deadline, wakes),
            r,
        ),
        call is Start ==> old(mutex)@.inner is None,
    ensures
        call matches Call::Start(start)
            ==> (
                (
                    exists|data: &mut T, holds: bool|
                        #[trigger] call_ensures(*old(condition), (data,), holds)
                        && *data == start@
                        && (
                            holds
                                ==> joined_spin(old(condvar)@, final(condvar)@, flag)
                                && handed_back(
                                    old(mutex)@,
                                    final(mutex)@,
                                    *final(data),
                                    old(wakes)@,
                                    final(wakes)@,
                                )
                                && r
                                    ==
                                        Progress::<SpinTimeoutPhase, (Guard<T>, WaitTimeoutResult)>::Pause(
                                            SpinTimeoutPhase::Spinning(flag),
                                            Pause::Yield,
                                        )
                        )
                        && (
                            !holds
                                ==> final(condvar)@ == old(condvar)@
                                && final(wakes)@ == old(wakes)@
                                && final(mutex)@.inner is None
                                && final(mutex)@.id == old(mutex)@.id
                                && final(mutex)@.sync == old(mutex)@.sync
                                && final(mutex)@.asynch == old(mutex)@.asynch
                                && (
                                    r matches Progress::Done((guard, result))
                                    && guard@ == *final(data)
                                    && guard.id() == old(mutex)@.id
                                    && !result.spec_timed_out()
                                )
                        )
                )
            ),
        call matches Call::Resume(SpinTimeoutPhase::Spinning(looked_on))
            ==> (
                raised && old(mutex)@.inner is None
                    ==> final(condvar)@ == old(condvar)@
                    && final(wakes)@ == old(wakes)@
                    && regains_timed(
                        old(mutex)@,
                        final(mutex)@,
                        caller,
                        SpinTimeoutPhase::Relock(false),
                        false,
                        r,
                    )
            )
            && (
                raised && old(mutex)@.inner is Some
                    ==> (
                        exists|data: &mut T, holds: bool|
                            #[trigger] call_ensures(*old(condition), (data,), holds)
                            && *data == old(mutex)@.inner->0
                            && (
                                holds
                                    ==> joined_spin(old(condvar)@, final(condvar)@, flag)
                                    && handed_back(
                                        old(mutex)@,
                                        final(mutex)@,
                                        *final(data),
                                        old(wakes)@,
                                        final(wakes)@,
                                    )
                                    && r
                                        ==
                                            Progress::<SpinTimeoutPhase, (Guard<T>, WaitTimeoutResult)>::Pause(
                                                SpinTimeoutPhase::Spinning(flag),
                                                Pause::Yield,
                                            )
                            )
                            && (
                                !holds
                                    ==> final(condvar)@ == old(condvar)@
                                    && final(wakes)@ == old(wakes)@
                                    && final(mutex)@.inner is None
                                    && final(mutex)@.id == old(mutex)@.id
                                    && final(mutex)@.sync == old(mutex)@.sync
                                    && final(mutex)@.asynch == old(mutex)@.asynch
                                    && (
                                        r matches Progress::Done((guard, result))
                                        && guard@ == *final(data)
                                        && guard.id() == old(mutex)@.id
                                        && !result.spec_timed_out()
                                    )
                            )
                    )
            )
            && (
                !raised && !(now.nanos >= deadline.nanos)
                    ==> final(condvar)@ == old(condvar)@
                    && final(mutex)@ == old(mutex)@
                    && final(wakes)@ == old(wakes)@
                    && r
                        == Progress::<SpinTimeoutPhase, (Guard<T>, WaitTimeoutResult)>::Pause(
                            SpinTimeoutPhase::Spinning(looked_on),
                            Pause::SpinLoop,
                        )
            )
            && (
                !raised && now.nanos >= deadline.nanos && old(condvar)@.spin.contains(looked_on)
                    ==> left_spin(old(condvar)@, final(condvar)@, looked_on)
                    && final(wakes)@ == old(wakes)@
                    && regains_timed(
                        old(mutex)@,
                        final(mutex)@,
                        caller,
                        SpinTimeoutPhase::Relock(true),
                        true,
                        r,
                    )
            )
            && (
                !raised && now.nanos >= deadline.nanos && !old(condvar)@.spin.contains(looked_on)
                    ==> final(condvar)@ == old(condvar)@
                    && final(mutex)@ == old(mutex)@
                    && final(wakes)@ == old(wakes)@
                    && r
                        == Progress::<SpinTimeoutPhase, (Guard<T>, WaitTimeoutResult)>::Pause(
                            SpinTimeoutPhase::Handoff(looked_on),
                            Pause::Yield,
                        )
            ),
        call matches Call::Resume(SpinTimeoutPhase::Handoff(looked_on))
            ==> (
                !raised
                    ==> final(condvar)@ == old(condvar)@
                    && final(mutex)@ == old(mutex)@
                    && final(wakes)@ == old(wakes)@
                    && r
                        == Progress::<SpinTimeoutPhase, (Guard<T>, WaitTimeoutResult)>::Pause(
                            SpinTimeoutPhase::Handoff(looked_on),
                            Pause::SpinLoop,
                        )
            )
            && (
                raised && old(mutex)@.inner is None
                    ==> final(condvar)@ == old(condvar)@
                    && final(wakes)@ == old(wakes)@
                    && regains_timed(
                        old(mutex)@,
                        final(mutex)@,
                        caller,
                        SpinTimeoutPhase::Relock(false),
                        false,
                        r,
                    )
            )
            && (
                raised && old(mutex)@.inner is Some
                    ==> (
                        exists|data: &mut T, holds: bool|
                            #[trigger] call_ensures(*old(condition), (data,), holds)
                            && *data == old(mutex)@.inner->0
                            && (
                                holds
                                    ==> joined_spin(old(condvar)@, final(condvar)@, flag)
                                    && handed_back(
                                        old(mutex)@,
                                        final(mutex)@,
                                        *final(data),
                                        old(wakes)@,
                                        final(wakes)@,
                                    )
                                    && r
                                        ==
                                            Progress::<SpinTimeoutPhase, (Guard<T>, WaitTimeoutResult)>::Pause(
                                                SpinTimeoutPhase::Spinning(flag),
                                                Pause::Yield,
                                            )
                            )
                            && (
                                !holds
                                    ==> final(condvar)@ == old(condvar)@
                                    && final(wakes)@ == old(wakes)@
                                    && final(mutex)@.inner is None
                                    && final(mutex)@.id == old(mutex)@.id
                                    && final(mutex)@.sync == old(mutex)@.sync
                                    && final(mutex)@.asynch == old(mutex)@.asynch
                                    && (
                                        r matches Progress::Done((guard, result))
                                        && guard@ == *final(data)
                                        && guard.id() == old(mutex)@.id
                                        && !result.spec_timed_out()
                                    )
                            )
                    )
            ),
        call matches Call::Resume(SpinTimeoutPhase::Relock(late))
            ==> (
                (old(mutex)@.inner is None || late)
                    ==> final(condvar)@ == old(condvar)@
                    && final(wakes)@ == old(wakes)@
                    && regains_timed(
                        old(mutex)@,
                        final(mutex)@,
                        caller,
                        SpinTimeoutPhase::Relock(late),
                        late,
                        r,
                    )
            )
            && (
                old(mutex)@.inner is Some && !(late)
                    ==> (
                        exists|data: &mut T, holds: bool|
                            #[trigger] call_ensures(*old(condition), (data,), holds)
                            && *data == old(mutex)@.inner->0
                            && (
                                holds
                                    ==> joined_spin(old(condvar)@, final(condvar)@, flag)
                                    && handed_back(
                                        old(mutex)@,
                                        final(mutex)@,
                                        *final(data),
                                        old(wakes)@,
                                        final(wakes)@,
                                    )
                                    && r
                                        ==
                                            Progress::<SpinTimeoutPhase, (Guard<T>, WaitTimeoutResult)>::Pause(
                                                SpinTimeoutPhase::Spinning(flag),
                                                Pause::Yield,
                                            )
                            )
                            && (
                                !holds
                                    ==> final(condvar)@ == old(condvar)@
                                    && final(wakes)@ == old(wakes)@
                                    && final(mutex)@.inner is None
                                    && final(mutex)@.id == old(mutex)@.id
                                    && final(mutex)@.sync == old(mutex)@.sync
                                    && final(mutex)@.asynch == old(mutex)@.asynch
                                    && (
                                        r matches Progress::Done((guard, result))
                                        && guard@ == *final(data)
                                        && guard.id() == old(mutex)@.id
                                        && !result.spec_timed_out()
                                    )
                            )
                    )
            ),
{
    lemma_freed(old(mutex)@);
    if let Call::Resume(SpinTimeoutPhase::Spinning(looked_on)) = call {
        lemma_left(old(condvar)@.spin, looked_on);
    }
    assert(call is Start ==> old(mutex)@.taken() =~= old(mutex)@);
}

/// What each step of `wait_spin_timeout_while` comes to. Whenever it has the mutex in hand and has
/// not timed out, it tries the condition, once, on the data: the wait starts anew if the condition
/// holds, and the call ends if not, so that it ends only on a condition that does not hold, or by a
/// timeout.
pub proof fn law_wait_spin_timeout_while_answers<T, F: FnMut(&mut T) -> bool>(
    condvar: &mut Condvar,
    mutex: &mut Mutex<T>,
    call: Call<Guard<T>, SpinTimeoutPhase>,
    condition: &mut F,
    flag: u64,
    raised: bool,
    caller: Caller,
    deadline: web_time::Instant,
    wakes: &mut Vec<Wake>,
    r: Progress<SpinTimeoutPhase, (Guard<T>, WaitTimeoutResult)>,
)
    requires
        call_ensures(
            Condvar::wait_spin_timeout_while::<T, F>,
            (condvar, mutex, call, condition, flag, raised, caller, deadline, wakes),
            r,
        ),
        call is Start ==> old(mutex)@.inner is None,
    ensures
        call matches Call::Start(start)
            ==> (
                (
                    exists|data: &mut T, holds: bool|
                        #[trigger] call_ensures(*old(condition), (data,), holds)
                        && *data == start@
                        && (
                            holds
                                ==> joined_spin(old(condvar)@, final(condvar)@, flag)
                                && handed_back(
                                    old(mutex)@,
                                    final(mutex)@,
                                    *final(data),
                                    old(wakes)@,
                                    final(wakes)@,
                                )
                                && r
                                    ==
                                        Progress::<SpinTimeoutPhase, (Guard<T>, WaitTimeoutResult)>::Pause(
                                            SpinTimeoutPhase::Spinning(flag),
                                            Pause::Yield,
                                        )
                        )
                        && (
                            !holds
                                ==> final(condvar)@ == old(condvar)@
                                && final(wakes)@ == old(wakes)@
                                && final(mutex)@.inner is None
                                && final(mutex)@.id == old(mutex)@.id
                                && final(mutex)@.sync == old(mutex)@.sync
                                && final(mutex)@.asynch == old(mutex)@.asynch
                                && (
                                    r matches Progress::Done((guard, result))
                                    && guard@ == *final(data)
                                    && guard.id() == old(mutex)@.id
                                    && !result.spec_timed_out()
                                )
                        )
                )
            ),
        call matches Call::Resume(SpinTimeoutPhase::Spinning(looked_on))
            ==> (
                raised && old(mutex)@.inner is None
                    ==> final(condvar)@ == old(condvar)@
                    && final(wakes)@ == old(wakes)@
                    && regains_timed(
                        old(mutex)@,
                        final(mutex)@,
                        caller,
                        SpinTimeoutPhase::Relock(false),
                        false,
                        r,
                    )
            )
            && (
                raised && old(mutex)@.inner is Some
                    ==> (
                        exists|data: &mut T, holds: bool|
                            #[trigger] call_ensures(*old(condition), (data,), holds)
                            && *data == old(mutex)@.inner->0
                            && (
                                holds
                                    ==> joined_spin(old(condvar)@, final(condvar)@, flag)
                                    && handed_back(
                                        old(mutex)@,
                                        final(mutex)@,
                                        *final(data),
                                        old(wakes)@,
                                        final(wakes)@,
                                    )
                                    && r
                                        ==
                                            Progress::<SpinTimeoutPhase, (Guard<T>, WaitTimeoutResult)>::Pause(
                                                SpinTimeoutPhase::Spinning(flag),
                                                Pause::Yield,
                                            )
                            )
                            && (
                                !holds
                                    ==> final(condvar)@ == old(condvar)@
                                    && final(wakes)@ == old(wakes)@
                                    && final(mutex)@.inner is None
                                    && final(mutex)@.id == old(mutex)@.id
                                    && final(mutex)@.sync == old(mutex)@.sync
                                    && final(mutex)@.asynch == old(mutex)@.asynch
                                    && (
                                        r matches Progress::Done((guard, result))
                                        && guard@ == *final(data)
                                        && guard.id() == old(mutex)@.id
                                        && !result.spec_timed_out()
                                    )
                            )
                    )
            ),
        call matches Call::Resume(SpinTimeoutPhase::Spinning(looked_on))
            ==> !raised
                ==> exists|reading: web_time::Instant|
                    #![trigger time::nanos_between(reading, deadline)]
                    time::read_from_clock(reading)
                    && (
                        !(time::nanos_between(reading, deadline) == 0)
                            ==> final(condvar)@ == old(condvar)@
                            && final(mutex)@ == old(mutex)@
                            && final(wakes)@ == old(wakes)@
                            && r
                                ==
                                    Progress::<SpinTimeoutPhase, (Guard<T>, WaitTimeoutResult)>::Pause(
                                        SpinTimeoutPhase::Spinning(looked_on),
                                        Pause::SpinLoop,
                                    )
                    )
                    && (
                        time::nanos_between(reading, deadline) == 0
                        && old(condvar)@.spin.contains(looked_on)
                            ==> left_spin(old(condvar)@, final(condvar)@, looked_on)
                            && final(wakes)@ == old(wakes)@
                            && regains_timed(
                                old(mutex)@,
                                final(mutex)@,
                                caller,
                                SpinTimeoutPhase::Relock(true),
                                true,
                                r,
                            )
                    )
                    && (
                        time::nanos_between(reading, deadline) == 0
                        && !old(condvar)@.spin.contains(looked_on)
                            ==> final(condvar)@ == old(condvar)@
                            && final(mutex)@ == old(mutex)@
                            && final(wakes)@ == old(wakes)@
                            && r
                                ==
                                    Progress::<SpinTimeoutPhase, (Guard<T>, WaitTimeoutResult)>::Pause(
                                        SpinTimeoutPhase::Handoff(looked_on),
                                        Pause::Yield,
                                    )
                    ),
        call matches Call::Resume(SpinTimeoutPhase::Handoff(looked_on))
            ==> (
                !raised
                    ==> final(condvar)@ == old(condvar)@
                    && final(mutex)@ == old(mutex)@
                    && final(wakes)@ == old(wakes)@
                    && r
                        == Progress::<SpinTimeoutPhase, (Guard<T>, WaitTimeoutResult)>::Pause(
                            SpinTimeoutPhase::Handoff(looked_on),
                            Pause::SpinLoop,
                        )
            )
            && (
                raised && old(mutex)@.inner is None
                    ==> final(condvar)@ == old(condvar)@
                    && final(wakes)@ == old(wakes)@
                    && regains_timed(
                        old(mutex)@,
                        final(mutex)@,
                        caller,
                        SpinTimeoutPhase::Relock(false),
                        false,
                        r,
                    )
            )
            && (
                raised && old(mutex)@.inner is Some
                    ==> (
                        exists|data: &mut T, holds: bool|
                            #[trigger] call_ensures(*old(condition), (data,), holds)
                            && *data == old(mutex)@.inner->0
                            && (
                                holds
                                    ==> joined_spin(old(condvar)@, final(condvar)@, flag)
                                    && handed_back(
                                        old(mutex)@,
                                        final(mutex)@,
                                        *final(data),
                                        old(wakes)@,
                                        final(wakes)@,
                                    )
                                    && r
                                        ==
                                            Progress::<SpinTimeoutPhase, (Guard<T>, WaitTimeoutResult)>::Pause(
                                                SpinTimeoutPhase::Spinning(flag),
                                                Pause::Yield,
                                            )
                            )
                            && (
                                !holds
                                    ==> final(condvar)@ == old(condvar)@
                                    && final(wakes)@ == old(wakes)@
                                    && final(mutex)@.inner is None
                                    && final(mutex)@.id == old(mutex)@.id
                                    && final(mutex)@.sync == old(mutex)@.sync
                                    && final(mutex)@.asynch == old(mutex)@.asynch
                                    && (
                                        r matches Progress::Done((guard, result))
                                        && guard@ == *final(data)
                                        && guard.id() == old(mutex)@.id
                                        && !result.spec_timed_out()
                                    )
                            )
                    )
            ),
        call matches Call::Resume(SpinTimeoutPhase::Relock(late))
            ==> (
                (old(mutex)@.inner is None || late)
                    ==> final(condvar)@ == old(condvar)@
                    && final(wakes)@ == old(wakes)@
                    && regains_timed(
                        old(mutex)@,
                        final(mutex)@,
                        caller,
                        SpinTimeoutPhase::Relock(late),
                        late,
                        r,
                    )
            )
            && (
                old(mutex)@.inner is Some && !(late)
                    ==> (
                        exists|data: &mut T, holds: bool|
                            #[trigger] call_ensures(*old(condition), (data,), holds)
                            && *data == old(mutex)@.inner->0
                            && (
                                holds
                                    ==> joined_spin(old(condvar)@, final(condvar)@, flag)
                                    && handed_back(
                                        old(mutex)@,
                                        final(mutex)@,
                                        *final(data),
                                        old(wakes)@,
                                        final(wakes)@,
                                    )
                                    && r
                                        ==
                                            Progress::<SpinTimeoutPhase, (Guard<T>, WaitTimeoutResult)>::Pause(
                                                SpinTimeoutPhase::Spinning(flag),
                                                Pause::Yield,
                                            )
                            )
                            && (
                                !holds
                                    ==> final(condvar)@ == old(condvar)@
                                    && final(wakes)@ == old(wakes)@
                                    && final(mutex)@.inner is None
                                    && final(mutex)@.id == old(mutex)@.id
                                    && final(mutex)@.sync == old(mutex)@.sync
                                    && final(mutex)@.asynch == old(mutex)@.asynch
                                    && (
                                        r matches Progress::Done((guard, result))
                                        && guard@ == *final(data)
                                        && guard.id() == old(mutex)@.id
                                        && !result.spec_timed_out()
                                    )
                            )
                    )
            ),
{
    lemma_freed(old(mutex)@);
    if let Call::Resume(SpinTimeoutPhase::Spinning(looked_on)) = call {
        lemma_left(old(condvar)@.spin, looked_on);
    }
    assert(call is Start ==> old(mutex)@.taken() =~= old(mutex)@);
}

/// What each step of `wait_sync_timeout_while_at` comes to. Whenever it has the mutex in hand and
/// has not timed out, it tries the condition, once, on the data: the wait starts anew if the
/// condition holds, and the call ends if not, so that it ends only on a condition that does not
/// hold, or by a timeout.
pub proof fn law_wait_sync_timeout_while_at_answers<T, F: FnMut(&mut T) -> bool>(
    condvar: &mut Condvar,
    mutex: &mut Mutex<T>,
    call: Call<Guard<T>, SyncTimeoutPhase>,
    condition: &mut F,
    flag: u64,
    raised: bool,
    caller: Caller,
    now: Moment,
    deadline: Moment,
    wakes: &mut Vec<Wake>,
    r: Progress<SyncTimeoutPhase, (Guard<T>, WaitTimeoutResult)>,
)
    requires
        call_ensures(
            Condvar::wait_sync_timeout_while_at::<T, F>,
            (condvar, mutex, call, condition, flag, raised, caller, now, deadline, wakes),
            r,
        ),
        call is Start ==> old(mutex)@.inner is None,
    ensures
        call matches Call::Start(start)
            ==> (
                (
                    exists|data: &mut T, holds: bool|
                        #[trigger] call_ensures(*old(condition), (data,), holds)
                        && *data == start@
                        && (
                            holds
                                ==> handed_back(
                                    old(mutex)@,
                                    final(mutex)@,
                                    *final(data),
                                    old(wakes)@,
                                    final(wakes)@,
                                )
                                && (
                                    caller.can_block
                                        ==>
                                            joined_sync(
                                                old(condvar)@,
                                                final(condvar)@,
                                                caller.thread,
                                            )
                                            && r
                                                ==
                                                    Progress::<SyncTimeoutPhase, (Guard<T>, WaitTimeoutResult)>::Pause(
                                                        SyncTimeoutPhase::Block(
                                                            BlockTimeoutPhase::Tick,
                                                        ),
                                                        Pause::Yield,
                                                    )
                                )
                                && (
                                    !caller.can_block
                                        ==> joined_spin(old(condvar)@, final(condvar)@, flag)
                                        && r
                                            ==
                                                Progress::<SyncTimeoutPhase, (Guard<T>, WaitTimeoutResult)>::Pause(
                                                    SyncTimeoutPhase::Spin(
                                                        SpinTimeoutPhase::Spinning(flag),
                                                    ),
                                                    Pause::Yield,
                                                )
                                )
                        )
                        && (
                            !holds
                                ==> final(condvar)@ == old(condvar)@
                                && final(wakes)@ == old(wakes)@
                                && final(mutex)@.inner is None
                                && final(mutex)@.id == old(mutex)@.id
                                && final(mutex)@.sync == old(mutex)@.sync
                                && final(mutex)@.asynch == old(mutex)@.asynch
                                && (
                                    r matches Progress::Done((guard, result))
                                    && guard@ == *final(data)
                                    && guard.id() == old(mutex)@.id
                                    && !result.spec_timed_out()
                                )
                        )
                )
            ),
        call matches Call::Resume(SyncTimeoutPhase::Block(BlockTimeoutPhase::Tick))
            ==> (
                !(now.nanos >= deadline.nanos)
                    ==> final(condvar)@ == old(condvar)@
                    && final(mutex)@ == old(mutex)@
                    && final(wakes)@ == old(wakes)@
                    && (
                        r matches Progress::Pause(
                            SyncTimeoutPhase::Block(BlockTimeoutPhase::Parked),
                            Pause::ParkTimeout(nanos),
                        )
                        && nanos == deadline.nanos - now.nanos
                    )
            )
            && (
                now.nanos >= deadline.nanos
                && (old(mutex)@.inner is None || old(condvar)@.sync.contains(caller.thread))
                    ==> left_sync(old(condvar)@, final(condvar)@, caller.thread)
                    && final(wakes)@ == old(wakes)@
                    && regains_timed(
                        old(mutex)@,
                        final(mutex)@,
                        caller,
                        SyncTimeoutPhase::Block(
                            BlockTimeoutPhase::Relock(old(condvar)@.sync.contains(caller.thread)),
                        ),
                        old(condvar)@.sync.contains(caller.thread),
                        r,
                    )
            )
            && (
                now.nanos >= deadline.nanos
                && old(mutex)@.inner is Some
                && !(old(condvar)@.sync.contains(caller.thread))
                    ==> (
                        exists|data: &mut T, holds: bool|
                            #[trigger] call_ensures(*old(condition), (data,), holds)
                            && *data == old(mutex)@.inner->0
                            && (
                                holds
                                    ==> handed_back(
                                        old(mutex)@,
                                        final(mutex)@,
                                        *final(data),
                                        old(wakes)@,
                                        final(wakes)@,
                                    )
                                    && (
                                        caller.can_block
                                            ==> joined_sync(
                                                old(condvar)@,
                                                final(condvar)@,
                                                caller.thread,
                                            )
                                            && r
                                                ==
                                                    Progress::<SyncTimeoutPhase, (Guard<T>, WaitTimeoutResult)>::Pause(
                                                        SyncTimeoutPhase::Block(
                                                            BlockTimeoutPhase::Tick,
                                                        ),
                                                        Pause::Yield,
                                                    )
                                    )
                                    && (
                                        !caller.can_block
                                            ==> joined_spin(old(condvar)@, final(condvar)@, flag)
                                            && r
                                                ==
                                                    Progress::<SyncTimeoutPhase, (Guard<T>, WaitTimeoutResult)>::Pause(
                                                        SyncTimeoutPhase::Spin(
                                                            SpinTimeoutPhase::Spinning(flag),
                                                        ),
                                                        Pause::Yield,
                                                    )
                                    )
                            )
                            && (
                                !holds
                                    ==> final(condvar)@ == old(condvar)@
                                    && final(wakes)@ == old(wakes)@
                                    && final(mutex)@.inner is None
                                    && final(mutex)@.id == old(mutex)@.id
                                    && final(mutex)@.sync == old(mutex)@.sync
                                    && final(mutex)@.asynch == old(mutex)@.asynch
                                    && (
                                        r matches Progress::Done((guard, result))
                                        && guard@ == *final(data)
                                        && guard.id() == old(mutex)@.id
                                        && !result.spec_timed_out()
                                    )
                            )
                    )
            ),
        call matches Call::Resume(SyncTimeoutPhase::Block(BlockTimeoutPhase::Parked))
            ==> (
                old(condvar)@.sync.contains(caller.thread)
                    ==> final(condvar)@ == old(condvar)@
                    && final(mutex)@ == old(mutex)@
                    && final(wakes)@ == old(wakes)@
                    && r
                        == Progress::<SyncTimeoutPhase, (Guard<T>, WaitTimeoutResult)>::Pause(
                            SyncTimeoutPhase::Block(BlockTimeoutPhase::Tick),
                            Pause::Yield,
                        )
            )
            && (
                !old(condvar)@.sync.contains(caller.thread) && old(mutex)@.inner is None
                    ==> final(condvar)@ == old(condvar)@
                    && final(wakes)@ == old(wakes)@
                    && regains_timed(
                        old(mutex)@,
                        final(mutex)@,
                        caller,
                        SyncTimeoutPhase::Block(BlockTimeoutPhase::Relock(false)),
                        false,
                        r,
                    )
            )
            && (
                !old(condvar)@.sync.contains(caller.thread) && old(mutex)@.inner is Some
                    ==> (
                        exists|data: &mut T, holds: bool|
                            #[trigger] call_ensures(*old(condition), (data,), holds)
                            && *data == old(mutex)@.inner->0
                            && (
                                holds
                                    ==> handed_back(
                                        old(mutex)@,
                                        final(mutex)@,
                                        *final(data),
                                        old(wakes)@,
                                        final(wakes)@,
                                    )
                                    && (
                                        caller.can_block
                                            ==> joined_sync(
                                                old(condvar)@,
                                                final(condvar)@,
                                                caller.thread,
                                            )
                                            && r
                                                ==
                                                    Progress::<SyncTimeoutPhase, (Guard<T>, WaitTimeoutResult)>::Pause(
                                                        SyncTimeoutPhase::Block(
                                                            BlockTimeoutPhase::Tick,
                                                        ),
                                                        Pause::Yield,
                                                    )
                                    )
                                    && (
                                        !caller.can_block
                                            ==> joined_spin(old(condvar)@, final(condvar)@, flag)
                                            && r
                                                ==
                                                    Progress::<SyncTimeoutPhase, (Guard<T>, WaitTimeoutResult)>::Pause(
                                                        SyncTimeoutPhase::Spin(
                                                            SpinTimeoutPhase::Spinning(flag),
                                                        ),
                                                        Pause::Yield,
                                                    )
                                    )
                            )
                            && (
                                !holds
                                    ==> final(condvar)@ == old(condvar)@
                                    && final(wakes)@ == old(wakes)@
                                    && final(mutex)@.inner is None
                                    && final(mutex)@.id == old(mutex)@.id
                                    && final(mutex)@.sync == old(mutex)@.sync
                                    && final(mutex)@.asynch == old(mutex)@.asynch
                                    && (
                                        r matches Progress::Done((guard, result))
                                        && guard@ == *final(data)
                                        && guard.id() == old(mutex)@.id
                                        && !result.spec_timed_out()
                                    )
                            )
                    )
            ),
        call matches Call::Resume(SyncTimeoutPhase::Block(BlockTimeoutPhase::Relock(late)))
            ==> (
                (old(mutex)@.inner is None || late)
                    ==> final(condvar)@ == old(condvar)@
                    && final(wakes)@ == old(wakes)@
                    && regains_timed(
                        old(mutex)@,
                        final(mutex)@,
                        caller,
                        SyncTimeoutPhase::Block(BlockTimeoutPhase::Relock(late)),
                        late,
                        r,
                    )
            )
            && (
                old(mutex)@.inner is Some && !(late)
                    ==> (
                        exists|data: &mut T, holds: bool|
                            #[trigger] call_ensures(*old(condition), (data,), holds)
                            && *data == old(mutex)@.inner->0
                            && (
                                holds
                                    ==> handed_back(
                                        old(mutex)@,
                                        final(mutex)@,
                                        *final(data),
                                        old(wakes)@,
                                        final(wakes)@,
                                    )
                                    && (
                                        caller.can_block
                                            ==> joined_sync(
                                                old(condvar)@,
                                                final(condvar)@,
                                                caller.thread,
                                            )
                                            && r
                                                ==
                                                    Progress::<SyncTimeoutPhase, (Guard<T>, WaitTimeoutResult)>::Pause(
                                                        SyncTimeoutPhase::Block(
                                                            BlockTimeoutPhase::Tick,
                                                        ),
                                                        Pause::Yield,
                                                    )
                                    )
                                    && (
                                        !caller.can_block
                                            ==> joined_spin(old(condvar)@, final(condvar)@, flag)
                                            && r
                                                ==
                                                    Progress::<SyncTimeoutPhase, (Guard<T>, WaitTimeoutResult)>::Pause(
                                                        SyncTimeoutPhase::Spin(
                                                            SpinTimeoutPhase::Spinning(flag),
                                                        ),
                                                        Pause::Yield,
                                                    )
                                    )
                            )
                            && (
                                !holds
                                    ==> final(condvar)@ == old(condvar)@
                                    && final(wakes)@ == old(wakes)@
                                    && final(mutex)@.inner is None
                                    && final(mutex)@.id == old(mutex)@.id
                                    && final(mutex)@.sync == old(mutex)@.sync
                                    && final(mutex)@.asynch == old(mutex)@.asynch
                                    && (
                                        r matches Progress::Done((guard, result))
                                        && guard@ == *final(data)
                                        && guard.id() == old(mutex)@.id
                                        && !result.spec_timed_out()
                                    )
                            )
                    )
            ),
        call matches Call::Resume(SyncTimeoutPhase::Spin(SpinTimeoutPhase::Spinning(looked_on)))
            ==> (
                raised && old(mutex)@.inner is None
                    ==> final(condvar)@ == old(condvar)@
                    && final(wakes)@ == old(wakes)@
                    && regains_timed(
                        old(mutex)@,
                        final(mutex)@,
                        caller,
                        SyncTimeoutPhase::Spin(SpinTimeoutPhase::Relock(false)),
                        false,
                        r,
                    )
            )
            && (
                raised && old(mutex)@.inner is Some
                    ==> (
                        exists|data: &mut T, holds: bool|
                            #[trigger] call_ensures(*old(condition), (data,), holds)
                            && *data == old(mutex)@.inner->0
                            && (
                                holds
                                    ==> handed_back(
                                        old(mutex)@,
                                        final(mutex)@,
                                        *final(data),
                                        old(wakes)@,
                                        final(wakes)@,
                                    )
                                    && (
                                        caller.can_block
                                            ==> joined_sync(
                                                old(condvar)@,
                                                final(condvar)@,
                                                caller.thread,
                                            )
                                            && r
                                                ==
                                                    Progress::<SyncTimeoutPhase, (Guard<T>, WaitTimeoutResult)>::Pause(
                                                        SyncTimeoutPhase::Block(
                                                            BlockTimeoutPhase::Tick,
                                                        ),
                                                        Pause::Yield,
                                                    )
                                    )
                                    && (
                                        !caller.can_block
                                            ==> joined_spin(old(condvar)@, final(condvar)@, flag)
                                            && r
                                                ==
                                                    Progress::<SyncTimeoutPhase, (Guard<T>, WaitTimeoutResult)>::Pause(
                                                        SyncTimeoutPhase::Spin(
                                                            SpinTimeoutPhase::Spinning(flag),
                                                        ),
                                                        Pause::Yield,
                                                    )
                                    )
                            )
                            && (
                                !holds
                                    ==> final(condvar)@ == old(condvar)@
                                    && final(wakes)@ == old(wakes)@
                                    && final(mutex)@.inner is None
                                    && final(mutex)@.id == old(mutex)@.id
                                    && final(mutex)@.sync == old(mutex)@.sync
                                    && final(mutex)@.asynch == old(mutex)@.asynch
                                    && (
                                        r matches Progress::Done((guard, result))
                                        && guard@ == *final(data)
                                        && guard.id() == old(mutex)@.id
                                        && !result.spec_timed_out()
                                    )
                            )
                    )
            )
            && (
                !raised && !(now.nanos >= deadline.nanos)
                    ==> final(condvar)@ == old(condvar)@
                    && final(mutex)@ == old(mutex)@
                    && final(wakes)@ == old(wakes)@
                    && r
                        == Progress::<SyncTimeoutPhase, (Guard<T>, WaitTimeoutResult)>::Pause(
                            SyncTimeoutPhase::Spin(SpinTimeoutPhase::Spinning(looked_on)),
                            Pause::SpinLoop,
                        )
            )
            && (
                !raised && now.nanos >= deadline.nanos && old(condvar)@.spin.contains(looked_on)
                    ==> left_spin(old(condvar)@, final(condvar)@, looked_on)
                    && final(wakes)@ == old(wakes)@
                    && regains_timed(
                        old(mutex)@,
                        final(mutex)@,
                        caller,
                        SyncTimeoutPhase::Spin(SpinTimeoutPhase::Relock(true)),
                        true,
                        r,
                    )
            )
            && (
                !raised && now.nanos >= deadline.nanos && !old(condvar)@.spin.contains(looked_on)
                    ==> final(condvar)@ == old(condvar)@
                    && final(mutex)@ == old(mutex)@
                    && final(wakes)@ == old(wakes)@
                    && r
                        == Progress::<SyncTimeoutPhase, (Guard<T>, WaitTimeoutResult)>::Pause(
                            SyncTimeoutPhase::Spin(SpinTimeoutPhase::Handoff(looked_on)),
                            Pause::Yield,
                        )
            ),
        call matches Call::Resume(SyncTimeoutPhase::Spin(SpinTimeoutPhase::Handoff(looked_on)))
            ==> (
                !raised
                    ==> final(condvar)@ == old(condvar)@
                    && final(mutex)@ == old(mutex)@
                    && final(wakes)@ == old(wakes)@
                    && r
                        == Progress::<SyncTimeoutPhase, (Guard<T>, WaitTimeoutResult)>::Pause(
                            SyncTimeoutPhase::Spin(SpinTimeoutPhase::Handoff(looked_on)),
                            Pause::SpinLoop,
                        )
            )
            && (
                raised && old(mutex)@.inner is None
                    ==> final(condvar)@ == old(condvar)@
                    && final(wakes)@ == old(wakes)@
                    && regains_timed(
                        old(mutex)@,
                        final(mutex)@,
                        caller,
                        SyncTimeoutPhase::Spin(SpinTimeoutPhase::Relock(false)),
                        false,
                        r,
                    )
            )
            && (
                raised && old(mutex)@.inner is Some
                    ==> (
                        exists|data: &mut T, holds: bool|
                            #[trigger] call_ensures(*old(condition), (data,), holds)
                            && *data == old(mutex)@.inner->0
                            && (
                                holds
                                    ==> handed_back(
                                        old(mutex)@,
                                        final(mutex)@,
                                        *final(data),
                                        old(wakes)@,
                                        final(wakes)@,
                                    )
                                    && (
                                        caller.can_block
                                            ==> joined_sync(
                                                old(condvar)@,
                                                final(condvar)@,
                                                caller.thread,
                                            )
                                            && r
                                                ==
                                                    Progress::<SyncTimeoutPhase, (Guard<T>, WaitTimeoutResult)>::Pause(
                                                        SyncTimeoutPhase::Block(
                                                            BlockTimeoutPhase::Tick,
                                                        ),
                                                        Pause::Yield,
                                                    )
                                    )
                                    && (
                                        !caller.can_block
                                            ==> joined_spin(old(condvar)@, final(condvar)@, flag)
                                            && r
                                                ==
                                                    Progress::<SyncTimeoutPhase, (Guard<T>, WaitTimeoutResult)>::Pause(
                                                        SyncTimeoutPhase::Spin(
                                                            SpinTimeoutPhase::Spinning(flag),
                                                        ),
                                                        Pause::Yield,
                                                    )
                                    )
                            )
                            && (
                                !holds
                                    ==> final(condvar)@ == old(condvar)@
                                    && final(wakes)@ == old(wakes)@
                                    && final(mutex)@.inner is None
                                    && final(mutex)@.id == old(mutex)@.id
                                    && final(mutex)@.sync == old(mutex)@.sync
                                    && final(mutex)@.asynch == old(mutex)@.asynch
                                    && (
                                        r matches Progress::Done((guard, result))
                                        && guard@ == *final(data)
                                        && guard.id() == old(mutex)@.id
                                        && !result.spec_timed_out()
                                    )
                            )
                    )
            ),
        call matches Call::Resume(SyncTimeoutPhase::Spin(SpinTimeoutPhase::Relock(late)))
            ==> (
                (old(mutex)@.inner is None || late)
                    ==> final(condvar)@ == old(condvar)@
                    && final(wakes)@ == old(wakes)@
                    && regains_timed(
                        old(mutex)@,
                        final(mutex)@,
                        caller,
                        SyncTimeoutPhase::Spin(SpinTimeoutPhase::Relock(late)),
                        late,
                        r,
                    )
            )
            && (
                old(mutex)@.inner is Some && !(late)
                    ==> (
                        exists|data: &mut T, holds: bool|
                            #[trigger] call_ensures(*old(condition), (data,), holds)
                            && *data == old(mutex)@.inner->0
                            && (
                                holds
                                    ==> handed_back(
                                        old(mutex)@,
                                        final(mutex)@,
                                        *final(data),
                                        old(wakes)@,
                                        final(wakes)@,
                                    )
                                    && (
                                        caller.can_block
                                            ==> joined_sync(
                                                old(condvar)@,
                                                final(condvar)@,
                                                caller.thread,
                                            )
                                            && r
                                                ==
                                                    Progress::<SyncTimeoutPhase, (Guard<T>, WaitTimeoutResult)>::Pause(
                                                        SyncTimeoutPhase::Block(
                                                            BlockTimeoutPhase::Tick,
                                                        ),
                                                        Pause::Yield,
                                                    )
                                    )
                                    && (
                                        !caller.can_block
                                            ==> joined_spin(old(condvar)@, final(condvar)@, flag)
                                            && r
                                                ==
                                                    Progress::<SyncTimeoutPhase, (Guard<T>, WaitTimeoutResult)>::Pause(
                                                        SyncTimeoutPhase::Spin(
                                                            SpinTimeoutPhase::Spinning(flag),
                                                        ),
                                                        Pause::Yield,
                                                    )
                                    )
                            )
                            && (
                                !holds
                                    ==> final(condvar)@ == old(condvar)@
                                    && final(wakes)@ == old(wakes)@
                                    && final(mutex)@.inner is None
                                    && final(mutex)@.id == old(mutex)@.id
                                    && final(mutex)@.sync == old(mutex)@.sync
                                    && final(mutex)@.asynch == old(mutex)@.asynch
                                    && (
                                        r matches Progress::Done((guard, result))
                                        && guard@ == *final(data)
                                        && guard.id() == old(mutex)@.id
                                        && !result.spec_timed_out()
                                    )
                            )
                    )
            ),
{
    lemma_freed(old(mutex)@);
    lemma_left(old(condvar)@.sync, caller.thread);
    if let Call::Resume(SyncTimeoutPhase::Spin(SpinTimeoutPhase::Spinning(looked_on))) = call {
        lemma_left(old(condvar)@.spin, looked_on);
    }
    assert(call is Start ==> old(mutex)@.taken() =~= old(mutex)@);
}

/// What each step of `wait_sync_timeout_while` comes to. Whenever it has the mutex in hand and has
/// not timed out, it tries the condition, once, on the data: the wait starts anew if the condition
/// holds, and the call ends if not, so that it ends only on a condition that does not hold, or by a
/// timeout.
pub proof fn law_wait_sync_timeout_while_answers<T, F: FnMut(&mut T) -> bool>(
    condvar: &mut Condvar,
    mutex: &mut Mutex<T>,
    call: Call<Guard<T>, SyncTimeoutPhase>,
    condition: &mut F,
    flag: u64,
    raised: bool,
    caller: Caller,
    deadline: web_time::Instant,
    wakes: &mut Vec<Wake>,
    r: Progress<SyncTimeoutPhase, (Guard<T>, WaitTimeoutResult)>,
)
    requires
        call_ensures(
            Condvar::wait_sync_timeout_while::<T, F>,
            (condvar, mutex, call, condition, flag, raised, caller, deadline, wakes),
            r,
        ),
        call is Start ==> old(mutex)@.inner is None,
    ensures
        call matches Call::Start(start)
            ==> (
                (
                    exists|data: &mut T, holds: bool|
                        #[trigger] call_ensures(*old(condition), (data,), holds)
                        && *data == start@
                        && (
                            holds
                                ==> handed_back(
                                    old(mutex)@,
                                    final(mutex)@,
                                    *final(data),
                                    old(wakes)@,
                                    final(wakes)@,
                                )
                                && (
                                    caller.can_block
                                        ==>
                                            joined_sync(
                                                old(condvar)@,
                                                final(condvar)@,
                                                caller.thread,
                                            )
                                            && r
                                                ==
                                                    Progress::<SyncTimeoutPhase, (Guard<T>, WaitTimeoutResult)>::Pause(
                                                        SyncTimeoutPhase::Block(
                                                            BlockTimeoutPhase::Tick,
                                                        ),
                                                        Pause::Yield,
                                                    )
                                )
                                && (
                                    !caller.can_block
                                        ==> joined_spin(old(condvar)@, final(condvar)@, flag)
                                        && r
                                            ==
                                                Progress::<SyncTimeoutPhase, (Guard<T>, WaitTimeoutResult)>::Pause(
                                                    SyncTimeoutPhase::Spin(
                                                        SpinTimeoutPhase::Spinning(flag),
                                                    ),
                                                    Pause::Yield,
                                                )
                                )
                        )
                        && (
                            !holds
                                ==> final(condvar)@ == old(condvar)@
                                && final(wakes)@ == old(wakes)@
                                && final(mutex)@.inner is None
                                && final(mutex)@.id == old(mutex)@.id
                                && final(mutex)@.sync == old(mutex)@.sync
                                && final(mutex)@.asynch == old(mutex)@.asynch
                                && (
                                    r matches Progress::Done((guard, result))
                                    && guard@ == *final(data)
                                    && guard.id() == old(mutex)@.id
                                    && !result.spec_timed_out()
                                )
                        )
                )
            ),
        call matches Call::Resume(SyncTimeoutPhase::Block(BlockTimeoutPhase::Tick))
            ==> exists|reading: web_time::Instant|
                #![trigger time::nanos_between(reading, deadline)]
                time::read_from_clock(reading)
                && (
                    !(time::nanos_between(reading, deadline) == 0)
                        ==> final(condvar)@ == old(condvar)@
                        && final(mutex)@ == old(mutex)@
                        && final(wakes)@ == old(wakes)@
                        && (
                            r matches Progress::Pause(
                                SyncTimeoutPhase::Block(BlockTimeoutPhase::Parked),
                                Pause::ParkTimeout(nanos),
                            )
                            && nanos == time::nanos_between(reading, deadline)
                        )
                )
                && (
                    time::nanos_between(reading, deadline) == 0
                    && (old(mutex)@.inner is None || old(condvar)@.sync.contains(caller.thread))
                        ==> left_sync(old(condvar)@, final(condvar)@, caller.thread)
                        && final(wakes)@ == old(wakes)@
                        && regains_timed(
                            old(mutex)@,
                            final(mutex)@,
                            caller,
                            SyncTimeoutPhase::Block(
                                BlockTimeoutPhase::Relock(
                                    old(condvar)@.sync.contains(caller.thread),
                                ),
                            ),
                            old(condvar)@.sync.contains(caller.thread),
                            r,
                        )
                )
                && (
                    time::nanos_between(reading, deadline) == 0
                    && old(mutex)@.inner is Some
                    && !(old(condvar)@.sync.contains(caller.thread))
                        ==> (
                            exists|data: &mut T, holds: bool|
                                #[trigger] call_ensures(*old(condition), (data,), holds)
                                && *data == old(mutex)@.inner->0
                                && (
                                    holds
                                        ==> handed_back(
                                            old(mutex)@,
                                            final(mutex)@,
                                            *final(data),
                                            old(wakes)@,
                                            final(wakes)@,
                                        )
                                        && (
                                            caller.can_block
                                                ==> joined_sync(
                                                    old(condvar)@,
                                                    final(condvar)@,
                                                    caller.thread,
                                                )
                                                && r
                                                    ==
                                                        Progress::<SyncTimeoutPhase, (Guard<T>, WaitTimeoutResult)>::Pause(
                                                            SyncTimeoutPhase::Block(
                                                                BlockTimeoutPhase::Tick,
                                                            ),
                                                            Pause::Yield,
                                                        )
                                        )
                                        && (
                                            !caller.can_block
                                                ==>
                                                    joined_spin(
                                                        old(condvar)@,
                                                        final(condvar)@,
                                                        flag,
                                                    )
                                                    && r
                                                        ==
                                                            Progress::<SyncTimeoutPhase, (Guard<T>, WaitTimeoutResult)>::Pause(
                                                                SyncTimeoutPhase::Spin(
                                                                    SpinTimeoutPhase::Spinning(
                                                                        flag,
                                                                    ),
                                                                ),
                                                                Pause::Yield,
                                                            )
                                        )
                                )
                                && (
                                    !holds
                                        ==> final(condvar)@ == old(condvar)@
                                        && final(wakes)@ == old(wakes)@
                                        && final(mutex)@.inner is None
                                        && final(mutex)@.id == old(mutex)@.id
                                        && final(mutex)@.sync == old(mutex)@.sync
                                        && final(mutex)@.asynch == old(mutex)@.asynch
                                        && (
                                            r matches Progress::Done((guard, result))
                                            && guard@ == *final(data)
                                            && guard.id() == old(mutex)@.id
                                            && !result.spec_timed_out()
                                        )
                                )
                        )
                ),
        call matches Call::Resume(SyncTimeoutPhase::Block(BlockTimeoutPhase::Parked))
            ==> (
                old(condvar)@.sync.contains(caller.thread)
                    ==> final(condvar)@ == old(condvar)@
                    && final(mutex)@ == old(mutex)@
                    && final(wakes)@ == old(wakes)@
                    && r
                        == Progress::<SyncTimeoutPhase, (Guard<T>, WaitTimeoutResult)>::Pause(
                            SyncTimeoutPhase::Block(BlockTimeoutPhase::Tick),
                            Pause::Yield,
                        )
            )
            && (
                !old(condvar)@.sync.contains(caller.thread) && old(mutex)@.inner is None
                    ==> final(condvar)@ == old(condvar)@
                    && final(wakes)@ == old(wakes)@
                    && regains_timed(
                        old(mutex)@,
                        final(mutex)@,
                        caller,
                        SyncTimeoutPhase::Block(BlockTimeoutPhase::Relock(false)),
                        false,
                        r,
                    )
            )
            && (
                !old(condvar)@.sync.contains(caller.thread) && old(mutex)@.inner is Some
                    ==> (
                        exists|data: &mut T, holds: bool|
                            #[trigger] call_ensures(*old(condition), (data,), holds)
                            && *data == old(mutex)@.inner->0
                            && (
                                holds
                                    ==> handed_back(
                                        old(mutex)@,
                                        final(mutex)@,
                                        *final(data),
                                        old(wakes)@,
                                        final(wakes)@,
                                    )
                                    && (
                                        caller.can_block
                                            ==> joined_sync(
                                                old(condvar)@,
                                                final(condvar)@,
                                                caller.thread,
                                            )
                                            && r
                                                ==
                                                    Progress::<SyncTimeoutPhase, (Guard<T>, WaitTimeoutResult)>::Pause(
                                                        SyncTimeoutPhase::Block(
                                                            BlockTimeoutPhase::Tick,
                                                        ),
                                                        Pause::Yield,
                                                    )
                                    )
                                    && (
                                        !caller.can_block
                                            ==> joined_spin(old(condvar)@, final(condvar)@, flag)
                                            && r
                                                ==
                                                    Progress::<SyncTimeoutPhase, (Guard<T>, WaitTimeoutResult)>::Pause(
                                                        SyncTimeoutPhase::Spin(
                                                            SpinTimeoutPhase::Spinning(flag),
                                                        ),
                                                        Pause::Yield,
                                                    )
                                    )
                            )
                            && (
                                !holds
                                    ==> final(condvar)@ == old(condvar)@
                                    && final(wakes)@ == old(wakes)@
                                    && final(mutex)@.inner is None
                                    && final(mutex)@.id == old(mutex)@.id
                                    && final(mutex)@.sync == old(mutex)@.sync
                                    && final(mutex)@.asynch == old(mutex)@.asynch
                                    && (
                                        r matches Progress::Done((guard, result))
                                        && guard@ == *final(data)
                                        && guard.id() == old(mutex)@.id
                                        && !result.spec_timed_out()
                                    )
                            )
                    )
            ),
        call matches Call::Resume(SyncTimeoutPhase::Block(BlockTimeoutPhase::Relock(late)))
            ==> (
                (old(mutex)@.inner is None || late)
                    ==> final(condvar)@ == old(condvar)@
                    && final(wakes)@ == old(wakes)@
                    && regains_timed(
                        old(mutex)@,
                        final(mutex)@,
                        caller,
                        SyncTimeoutPhase::Block(BlockTimeoutPhase::Relock(late)),
                        late,
                        r,
                    )
            )
            && (
                old(mutex)@.inner is Some && !(late)
                    ==> (
                        exists|data: &mut T, holds: bool|
                            #[trigger] call_ensures(*old(condition), (data,), holds)
                            && *data == old(mutex)@.inner->0
                            && (
                                holds
                                    ==> handed_back(
                                        old(mutex)@,
                                        final(mutex)@,
                                        *final(data),
                                        old(wakes)@,
                                        final(wakes)@,
                                    )
                                    && (
                                        caller.can_block
                                            ==> joined_sync(
                                                old(condvar)@,
                                                final(condvar)@,
                                                caller.thread,
                                            )
                                            && r
                                                ==
                                                    Progress::<SyncTimeoutPhase, (Guard<T>, WaitTimeoutResult)>::Pause(
                                                        SyncTimeoutPhase::Block(
                                                            BlockTimeoutPhase::Tick,
                                                        ),
                                                        Pause::Yield,
                                                    )
                                    )
                                    && (
                                        !caller.can_block
                                            ==> joined_spin(old(condvar)@, final(condvar)@, flag)
                                            && r
                                                ==
                                                    Progress::<SyncTimeoutPhase, (Guard<T>, WaitTimeoutResult)>::Pause(
                                                        SyncTimeoutPhase::Spin(
                                                            SpinTimeoutPhase::Spinning(flag),
                                                        ),
                                                        Pause::Yield,
                                                    )
                                    )
                            )
                            && (
                                !holds
                                    ==> final(condvar)@ == old(condvar)@
                                    && final(wakes)@ == old(wakes)@
                                    && final(mutex)@.inner is None
                                    && final(mutex)@.id == old(mutex)@.id
                                    && final(mutex)@.sync == old(mutex)@.sync
                                    && final(mutex)@.asynch == old(mutex)@.asynch
                                    && (
                                        r matches Progress::Done((guard, result))
                                        && guard@ == *final(data)
                                        && guard.id() == old(mutex)@.id
                                        && !result.spec_timed_out()
                                    )
                            )
                    )
            ),
        call matches Call::Resume(SyncTimeoutPhase::Spin(SpinTimeoutPhase::Spinning(looked_on)))
            ==> (
                raised && old(mutex)@.inner is None
                    ==> final(condvar)@ == old(condvar)@
                    && final(wakes)@ == old(wakes)@
                    && regains_timed(
                        old(mutex)@,
                        final(mutex)@,
                        caller,
                        SyncTimeoutPhase::Spin(SpinTimeoutPhase::Relock(false)),
                        false,
                        r,
                    )
            )
            && (
                raised && old(mutex)@.inner is Some
                    ==> (
                        exists|data: &mut T, holds: bool|
                            #[trigger] call_ensures(*old(condition), (data,), holds)
                            && *data == old(mutex)@.inner->0
                            && (
                                holds
                                    ==> handed_back(
                                        old(mutex)@,
                                        final(mutex)@,
                                        *final(data),
                                        old(wakes)@,
                                        final(wakes)@,
                                    )
                                    && (
                                        caller.can_block
                                            ==> joined_sync(
                                                old(condvar)@,
                                                final(condvar)@,
                                                caller.thread,
                                            )
                                            && r
                                                ==
                                                    Progress::<SyncTimeoutPhase, (Guard<T>, WaitTimeoutResult)>::Pause(
                                                        SyncTimeoutPhase::Block(
                                                            BlockTimeoutPhase::Tick,
                                                        ),
                                                        Pause::Yield,
                                                    )
                                    )
                                    && (
                                        !caller.can_block
                                            ==> joined_spin(old(condvar)@, final(condvar)@, flag)
                                            && r
                                                ==
                                                    Progress::<SyncTimeoutPhase, (Guard<T>, WaitTimeoutResult)>::Pause(
                                                        SyncTimeoutPhase::Spin(
                                                            SpinTimeoutPhase::Spinning(flag),
                                                        ),
                                                        Pause::Yield,
                                                    )
                                    )
                            )
                            && (
                                !holds
                                    ==> final(condvar)@ == old(condvar)@
                                    && final(wakes)@ == old(wakes)@
                                    && final(mutex)@.inner is None
                                    && final(mutex)@.id == old(mutex)@.id
                                    && final(mutex)@.sync == old(mutex)@.sync
                                    && final(mutex)@.asynch == old(mutex)@.asynch
                                    && (
                                        r matches Progress::Done((guard, result))
                                        && guard@ == *final(data)
                                        && guard.id() == old(mutex)@.id
                                        && !result.spec_timed_out()
                                    )
                            )
                    )
            ),
        call matches Call::Resume(SyncTimeoutPhase::Spin(SpinTimeoutPhase::Spinning(looked_on)))
            ==> !raised
                ==> exists|reading: web_time::Instant|
                    #![trigger time::nanos_between(reading, deadline)]
                    time::read_from_clock(reading)
                    && (
                        !(time::nanos_between(reading, deadline) == 0)
                            ==> final(condvar)@ == old(condvar)@
                            && final(mutex)@ == old(mutex)@
                            && final(wakes)@ == old(wakes)@
                            && r
                                ==
                                    Progress::<SyncTimeoutPhase, (Guard<T>, WaitTimeoutResult)>::Pause(
                                        SyncTimeoutPhase::Spin(
                                            SpinTimeoutPhase::Spinning(looked_on),
                                        ),
                                        Pause::SpinLoop,
                                    )
                    )
                    && (
                        time::nanos_between(reading, deadline) == 0
                        && old(condvar)@.spin.contains(looked_on)
                            ==> left_spin(old(condvar)@, final(condvar)@, looked_on)
                            && final(wakes)@ == old(wakes)@
                            && regains_timed(
                                old(mutex)@,
                                final(mutex)@,
                                caller,
                                SyncTimeoutPhase::Spin(SpinTimeoutPhase::Relock(true)),
                                true,
                                r,
                            )
                    )
                    && (
                        time::nanos_between(reading, deadline) == 0
                        && !old(condvar)@.spin.contains(looked_on)
                            ==> final(condvar)@ == old(condvar)@
                            && final(mutex)@ == old(mutex)@
                            && final(wakes)@ == old(wakes)@
                            && r
                                ==
                                    Progress::<SyncTimeoutPhase, (Guard<T>, WaitTimeoutResult)>::Pause(
                                        SyncTimeoutPhase::Spin(
                                            SpinTimeoutPhase::Handoff(looked_on),
                                        ),
                                        Pause::Yield,
                                    )
                    ),
        call matches Call::Resume(SyncTimeoutPhase::Spin(SpinTimeoutPhase::Handoff(looked_on)))
            ==> (
                !raised
                    ==> final(condvar)@ == old(condvar)@
                    && final(mutex)@ == old(mutex)@
                    && final(wakes)@ == old(wakes)@
                    && r
                        == Progress::<SyncTimeoutPhase, (Guard<T>, WaitTimeoutResult)>::Pause(
                            SyncTimeoutPhase::Spin(SpinTimeoutPhase::Handoff(looked_on)),
                            Pause::SpinLoop,
                        )
            )
            && (
                raised && old(mutex)@.inner is None
                    ==> final(condvar)@ == old(condvar)@
                    && final(wakes)@ == old(wakes)@
                    && regains_timed(
                        old(mutex)@,
                        final(mutex)@,
                        caller,
                        SyncTimeoutPhase::Spin(SpinTimeoutPhase::Relock(false)),
                        false,
                        r,
                    )
            )
            && (
                raised && old(mutex)@.inner is Some
                    ==> (
                        exists|data: &mut T, holds: bool|
                            #[trigger] call_ensures(*old(condition), (data,), holds)
                            && *data == old(mutex)@.inner->0
                            && (
                                holds
                                    ==> handed_back(
                                        old(mutex)@,
                                        final(mutex)@,
                                        *final(data),
                                        old(wakes)@,
                                        final(wakes)@,
                                    )
                                    && (
                                        caller.can_block
                                            ==> joined_sync(
                                                old(condvar)@,
                                                final(condvar)@,
                                                caller.thread,
                                            )
                                            && r
                                                ==
                                                    Progress::<SyncTimeoutPhase, (Guard<T>, WaitTimeoutResult)>::Pause(
                                                        SyncTimeoutPhase::Block(
                                                            BlockTimeoutPhase::Tick,
                                                        ),
                                                        Pause::Yield,
                                                    )
                                    )
                                    && (
                                        !caller.can_block
                                            ==> joined_spin(old(condvar)@, final(condvar)@, flag)
                                            && r
                                                ==
                                                    Progress::<SyncTimeoutPhase, (Guard<T>, WaitTimeoutResult)>::Pause(
                                                        SyncTimeoutPhase::Spin(
                                                            SpinTimeoutPhase::Spinning(flag),
                                                        ),
                                                        Pause::Yield,
                                                    )
                                    )
                            )
                            && (
                                !holds
                                    ==> final(condvar)@ == old(condvar)@
                                    && final(wakes)@ == old(wakes)@
                                    && final(mutex)@.inner is None
                                    && final(mutex)@.id == old(mutex)@.id
                                    && final(mutex)@.sync == old(mutex)@.sync
                                    && final(mutex)@.asynch == old(mutex)@.asynch
                                    && (
                                        r matches Progress::Done((guard, result))
                                        && guard@ == *final(data)
                                        && guard.id() == old(mutex)@.id
                                        && !result.spec_timed_out()
                                    )
                            )
                    )
            ),
        call matches Call::Resume(SyncTimeoutPhase::Spin(SpinTimeoutPhase::Relock(late)))
            ==> (
                (old(mutex)@.inner is None || late)
                    ==> final(condvar)@ == old(condvar)@
                    && final(wakes)@ == old(wakes)@
                    && regains_timed(
                        old(mutex)@,
                        final(mutex)@,
                        caller,
                        SyncTimeoutPhase::Spin(SpinTimeoutPhase::Relock(late)),
                        late,
                        r,
                    )
            )
            && (
                old(mutex)@.inner is Some && !(late)
                    ==> (
                        exists|data: &mut T, holds: bool|
                            #[trigger] call_ensures(*old(condition), (data,), holds)
                            && *data == old(mutex)@.inner->0
                            && (
                                holds
                                    ==> handed_back(
                                        old(mutex)@,
                                        final(mutex)@,
                                        *final(data),
                                        old(wakes)@,
                                        final(wakes)@,
                                    )
                                    && (
                                        caller.can_block
                                            ==> joined_sync(
                                                old(condvar)@,
                                                final(condvar)@,
                                                caller.thread,
                                            )
                                            && r
                                                ==
                                                    Progress::<SyncTimeoutPhase, (Guard<T>, WaitTimeoutResult)>::Pause(
                                                        SyncTimeoutPhase::Block(
                                                            BlockTimeoutPhase::Tick,
                                                        ),
                                                        Pause::Yield,
                                                    )
                                    )
                                    && (
                                        !caller.can_block
                                            ==> joined_spin(old(condvar)@, final(condvar)@, flag)
                                            && r
                                                ==
                                                    Progress::<SyncTimeoutPhase, (Guard<T>, WaitTimeoutResult)>::Pause(
                                                        SyncTimeoutPhase::Spin(
                                                            SpinTimeoutPhase::Spinning(flag),
                                                        ),
                                                        Pause::Yield,
                                                    )
                                    )
                            )
                            && (
                                !holds
                                    ==> final(condvar)@ == old(condvar)@
                                    && final(wakes)@ == old(wakes)@
                                    && final(mutex)@.inner is None
                                    && final(mutex)@.id == old(mutex)@.id
                                    && final(mutex)@.sync == old(mutex)@.sync
                                    && final(mutex)@.asynch == old(mutex)@.asynch
                                    && (
                                        r matches Progress::Done((guard, result))
                                        && guard@ == *final(data)
                                        && guard.id() == old(mutex)@.id
                                        && !result.spec_timed_out()
                                    )
                            )
                    )
            ),
{
    lemma_freed(old(mutex)@);
    lemma_left(old(condvar)@.sync, caller.thread);
    if let Call::Resume(SyncTimeoutPhase::Spin(SpinTimeoutPhase::Spinning(looked_on))) = call {
        lemma_left(old(condvar)@.spin, looked_on);
    }
    assert(call is Start ==> old(mutex)@.taken() =~= old(mutex)@);
}

/// What each step of `wait_async_timeout_while` comes to. Whenever it has the mutex in hand and has
/// not timed out, it tries the condition, once, on the data: the wait starts anew if the condition
/// holds, and the call ends if not, so that it ends only on a condition that does not hold, or by a
/// timeout.
pub proof fn law_wait_async_timeout_while_answers<T, F: FnMut(&mut T) -> bool>(
    condvar: &mut Condvar,
    mutex: &mut Mutex<T>,
    call: Call<Guard<T>, AsyncTimeoutPhase>,
    condition: &mut F,
    ids: &mut WaiterIds,
    timed_out: bool,
    continuation: u64,
    wakes: &mut Vec<Wake>,
    r: Progress<AsyncTimeoutPhase, (Guard<T>, WaitTimeoutResult)>,
)
    requires
        call_ensures(
            Condvar::wait_async_timeout_while::<T, F>,
            (condvar, mutex, call, condition, ids, timed_out, continuation, wakes),
            r,
        ),
        call is Start ==> old(mutex)@.inner is None,
    ensures
        call matches Call::Start(start)
            ==> (
                (
                    exists|data: &mut T, holds: bool|
                        #[trigger] call_ensures(*old(condition), (data,), holds)
                        && *data == start@
                        && (
                            holds
                                ==> joined_async(
                                    old(condvar)@,
                                    final(condvar)@,
                                    old(ids).spec_next(),
                                    continuation,
                                )
                                && handed_back(
                                    old(mutex)@,
                                    final(mutex)@,
                                    *final(data),
                                    old(wakes)@,
                                    final(wakes)@,
                                )
                                && r
                                    ==
                                        Progress::<AsyncTimeoutPhase, (Guard<T>, WaitTimeoutResult)>::Pause(
                                            AsyncTimeoutPhase::Racing(old(ids).spec_next()),
                                            Pause::Race(continuation),
                                        )
                                && (
                                    old(ids).spec_next() < u64::MAX
                                        ==> final(ids).spec_next() == old(ids).spec_next() + 1
                                )
                                &&
                                    (
                                        old(ids).spec_next() == u64::MAX
                                            ==> final(ids).spec_next() == 0
                                    )
                        )
                        && (
                            !holds
                                ==> final(condvar)@ == old(condvar)@
                                && final(wakes)@ == old(wakes)@
                                && final(mutex)@.inner is None
                                && final(mutex)@.id == old(mutex)@.id
                                && final(mutex)@.sync == old(mutex)@.sync
                                && final(mutex)@.asynch == old(mutex)@.asynch
                                && (
                                    r matches Progress::Done((guard, result))
                                    && guard@ == *final(data)
                                    && guard.id() == old(mutex)@.id
                                    && !result.spec_timed_out()
                                )
                                && final(ids).spec_next() == old(ids).spec_next()
                        )
                )
            ),
        call matches Call::Resume(AsyncTimeoutPhase::Racing(number))
            ==> (
                timed_out
                    ==>
                        left_async(
                            old(condvar)@,
                            final(condvar)@,
                            number,
                            old(wakes)@,
                            final(wakes)@,
                        )
                        && final(ids).spec_next() == old(ids).spec_next()
                        && regains_async_timed(old(mutex)@, final(mutex)@, continuation, true, r)
            )
            && (
                !timed_out && old(mutex)@.inner is None
                    ==> final(condvar)@ == old(condvar)@
                    && final(wakes)@ == old(wakes)@
                    && final(ids).spec_next() == old(ids).spec_next()
                    && regains_async_timed(old(mutex)@, final(mutex)@, continuation, false, r)
            )
            && (
                !timed_out && old(mutex)@.inner is Some
                    ==> (
                        exists|data: &mut T, holds: bool|
                            #[trigger] call_ensures(*old(condition), (data,), holds)
                            && *data == old(mutex)@.inner->0
                            && (
                                holds
                                    ==> joined_async(
                                        old(condvar)@,
                                        final(condvar)@,
                                        old(ids).spec_next(),
                                        continuation,
                                    )
                                    && handed_back(
                                        old(mutex)@,
                                        final(mutex)@,
                                        *final(data),
                                        old(wakes)@,
                                        final(wakes)@,
                                    )
                                    && r
                                        ==
                                            Progress::<AsyncTimeoutPhase, (Guard<T>, WaitTimeoutResult)>::Pause(
                                                AsyncTimeoutPhase::Racing(old(ids).spec_next()),
                                                Pause::Race(continuation),
                                            )
                                    && (
                                        old(ids).spec_next() < u64::MAX
                                            ==> final(ids).spec_next() == old(ids).spec_next() + 1
                                    )
                                    && (
                                        old(ids).spec_next() == u64::MAX
                                            ==> final(ids).spec_next() == 0
                                    )
                            )
                            && (
                                !holds
                                    ==> final(condvar)@ == old(condvar)@
                                    && final(wakes)@ == old(wakes)@
                                    && final(mutex)@.inner is None
                                    && final(mutex)@.id == old(mutex)@.id
                                    && final(mutex)@.sync == old(mutex)@.sync
                                    && final(mutex)@.asynch == old(mutex)@.asynch
                                    && (
                                        r matches Progress::Done((guard, result))
                                        && guard@ == *final(data)
                                        && guard.id() == old(mutex)@.id
                                        && !result.spec_timed_out()
                                    )
                                    && final(ids).spec_next() == old(ids).spec_next()
                            )
                    )
            ),
        call matches Call::Resume(AsyncTimeoutPhase::Relock(late))
            ==> (
                (old(mutex)@.inner is None || late)
                    ==> final(condvar)@ == old(condvar)@
                    && final(wakes)@ == old(wakes)@
                    && final(ids).spec_next() == old(ids).spec_next()
                    && regains_async_timed(old(mutex)@, final(mutex)@, continuation, late, r)
            )
            && (
                old(mutex)@.inner is Some && !(late)
                    ==> (
                        exists|data: &mut T, holds: bool|
                            #[trigger] call_ensures(*old(condition), (data,), holds)
                            && *data == old(mutex)@.inner->0
                            && (
                                holds
                                    ==> joined_async(
                                        old(condvar)@,
                                        final(condvar)@,
                                        old(ids).spec_next(),
                                        continuation,
                                    )
                                    && handed_back(
                                        old(mutex)@,
                                        final(mutex)@,
                                        *final(data),
                                        old(wakes)@,
                                        final(wakes)@,
                                    )
                                    && r
                                        ==
                                            Progress::<AsyncTimeoutPhase, (Guard<T>, WaitTimeoutResult)>::Pause(
                                                AsyncTimeoutPhase::Racing(old(ids).spec_next()),
                                                Pause::Race(continuation),
                                            )
                                    && (
                                        old(ids).spec_next() < u64::MAX
                                            ==> final(ids).spec_next() == old(ids).spec_next() + 1
                                    )
                                    && (
                                        old(ids).spec_next() == u64::MAX
                                            ==> final(ids).spec_next() == 0
                                    )
                            )
                            && (
                                !holds
                                    ==> final(condvar)@ == old(condvar)@
                                    && final(wakes)@ == old(wakes)@
                                    && final(mutex)@.inner is None
                                    && final(mutex)@.id == old(mutex)@.id
                                    && final(mutex)@.sync == old(mutex)@.sync
                                    && final(mutex)@.asynch == old(mutex)@.asynch
                                    && (
                                        r matches Progress::Done((guard, result))
                                        && guard@ == *final(data)
                                        && guard.id() == old(mutex)@.id
                                        && !result.spec_timed_out()
                                    )
                                    && final(ids).spec_next() == old(ids).spec_next()
                            )
                    )
            ),
{
    lemma_freed(old(mutex)@);
    if let Call::Resume(AsyncTimeoutPhase::Racing(number)) = call {
        lemma_left_async(old(condvar)@, number, old(wakes)@);
    }
    assert(call is Start ==> old(mutex)@.taken() =~= old(mutex)@);
}

/// `wait_block_tried` starts to wait with the data that the condition has left if the condition
/// holds; if not it ends the call with them, and nothing changes.
pub proof fn law_wait_block_tried_answers<T>(
    condvar: &mut Condvar,
    mutex: &mut Mutex<T>,
    guard: Guard<T>,
    holds: bool,
    caller: Caller,
    wakes: &mut Vec<Wake>,
    r: Progress<BlockPhase, Guard<T>>,
)
    requires
        call_ensures(
            Condvar::wait_block_tried::<T>,
            (condvar, mutex, guard, holds, caller, wakes),
            r,
        ),
        old(mutex)@.inner is None,
        guard.id() == old(mutex)@.id,
    ensures
        holds
            ==> joined_sync(old(condvar)@, final(condvar)@, caller.thread)
            && handed_back(old(mutex)@, final(mutex)@, guard@, old(wakes)@, final(wakes)@)
            && r == Progress::<BlockPhase, Guard<T>>::Pause(BlockPhase::Relock, Pause::Park),
        !holds
            ==> final(condvar)@ == old(condvar)@
            && final(mutex)@ == old(mutex)@
            && final(wakes)@ == old(wakes)@
            && (r matches Progress::Done(g) && g@ == guard@ && g.id() == guard.id()),
{
    lemma_freed(old(mutex)@);
    assert(old(mutex)@.taken() =~= old(mutex)@);
}

/// `wait_spin_tried` starts to wait with the data that the condition has left if the condition
/// holds; if not it ends the call with them, and nothing changes.
pub proof fn law_wait_spin_tried_answers<T>(
    condvar: &mut Condvar,
    mutex: &mut Mutex<T>,
    guard: Guard<T>,
    holds: bool,
    flag: u64,
    wakes: &mut Vec<Wake>,
    r: Progress<SpinPhase, Guard<T>>,
)
    requires
        call_ensures(
            Condvar::wait_spin_tried::<T>,
            (condvar, mutex, guard, holds, flag, wakes),
            r,
        ),
        old(mutex)@.inner is None,
        guard.id() == old(mutex)@.id,
    ensures
        holds
            ==> joined_spin(old(condvar)@, final(condvar)@, flag)
            && handed_back(old(mutex)@, final(mutex)@, guard@, old(wakes)@, final(wakes)@)
            && r == Progress::<SpinPhase, Guard<T>>::Pause(SpinPhase::Spinning(flag), Pause::Yield),
        !holds
            ==> final(condvar)@ == old(condvar)@
            && final(mutex)@ == old(mutex)@
            && final(wakes)@ == old(wakes)@
            && (r matches Progress::Done(g) && g@ == guard@ && g.id() == guard.id()),
{
    lemma_freed(old(mutex)@);
    assert(old(mutex)@.taken() =~= old(mutex)@);
}

/// `wait_sync_tried` starts to wait with the data that the condition has left if the condition
/// holds; if not it ends the call with them, and nothing changes.
pub proof fn law_wait_sync_tried_answers<T>(
    condvar: &mut Condvar,
    mutex: &mut Mutex<T>,
    guard: Guard<T>,
    holds: bool,
    flag: u64,
    caller: Caller,
    wakes: &mut Vec<Wake>,
    r: Progress<SyncPhase, Guard<T>>,
)
    requires
        call_ensures(
            Condvar::wait_sync_tried::<T>,
            (condvar, mutex, guard, holds, flag, caller, wakes),
            r,
        ),
        old(mutex)@.inner is None,
        guard.id() == old(mutex)@.id,
    ensures
        holds
            ==> handed_back(old(mutex)@, final(mutex)@, guard@, old(wakes)@, final(wakes)@)
            && (
                caller.can_block
                    ==> joined_sync(old(condvar)@, final(condvar)@, caller.thread)
                    && r
                        == Progress::<SyncPhase, Guard<T>>::Pause(
                            SyncPhase::Block(BlockPhase::Relock),
                            Pause::Park,
                        )
            )
            && (
                !caller.can_block
                    ==> joined_spin(old(condvar)@, final(condvar)@, flag)
                    && r
                        == Progress::<SyncPhase, Guard<T>>::Pause(
                            SyncPhase::Spin(SpinPhase::Spinning(flag)),
                            Pause::Yield,
                        )
            ),
        !holds
            ==> final(condvar)@ == old(condvar)@
            && final(mutex)@ == old(mutex)@
            && final(wakes)@ == old(wakes)@
            && (r matches Progress::Done(g) && g@ == guard@ && g.id() == guard.id()),
{
    lemma_freed(old(mutex)@);
    assert(old(mutex)@.taken() =~= old(mutex)@);
}

/// `wait_async_tried` starts to wait with the data that the condition has left if the condition
/// holds; if not it ends the call with them, and nothing changes.
pub proof fn law_wait_async_tried_answers<T>(
    condvar: &mut Condvar,
    mutex: &mut Mutex<T>,
    guard: Guard<T>,
    holds: bool,
    ids: &mut WaiterIds,
    continuation: u64,
    wakes: &mut Vec<Wake>,
    r: Progress<AsyncPhase, Guard<T>>,
)
    requires
        call_ensures(
            Condvar::wait_async_tried::<T>,
            (condvar, mutex, guard, holds, ids, continuation, wakes),
            r,
        ),
        old(mutex)@.inner is None,
        guard.id() == old(mutex)@.id,
    ensures
        holds
            ==> joined_async(old(condvar)@, final(condvar)@, old(ids).spec_next(), continuation)
            && handed_back(old(mutex)@, final(mutex)@, guard@, old(wakes)@, final(wakes)@)
            && r
                == Progress::<AsyncPhase, Guard<T>>::Pause(
                    AsyncPhase::Relock,
                    Pause::Await(continuation),
                )
            && (
                old(ids).spec_next() < u64::MAX
                    ==> final(ids).spec_next() == old(ids).spec_next() + 1
            ),
        !holds
            ==> final(condvar)@ == old(condvar)@
            && final(mutex)@ == old(mutex)@
            && final(wakes)@ == old(wakes)@
            && (r matches Progress::Done(g) && g@ == guard@ && g.id() == guard.id())
            && final(ids).spec_next() == old(ids).spec_next(),
{
    lemma_freed(old(mutex)@);
    assert(old(mutex)@.taken() =~= old(mutex)@);
}

/// `wait_block_timeout_tried` starts to wait with the data that the condition has left if the
/// condition holds; if not it ends the call with them, and nothing changes.
pub proof fn law_wait_block_timeout_tried_answers<T>(
    condvar: &mut Condvar,
    mutex: &mut Mutex<T>,
    guard: Guard<T>,
    holds: bool,
    caller: Caller,
    wakes: &mut Vec<Wake>,
    r: Progress<BlockTimeoutPhase, (Guard<T>, WaitTimeoutResult)>,
)
    requires
        call_ensures(
            Condvar::wait_block_timeout_tried::<T>,
            (condvar, mutex, guard, holds, caller, wakes),
            r,
        ),
        old(mutex)@.inner is None,
        guard.id() == old(mutex)@.id,
    ensures
        holds
            ==> joined_sync(old(condvar)@, final(condvar)@, caller.thread)
            && handed_back(old(mutex)@, final(mutex)@, guard@, old(wakes)@, final(wakes)@)
            && r
                == Progress::<BlockTimeoutPhase, (Guard<T>, WaitTimeoutResult)>::Pause(
                    BlockTimeoutPhase::Tick,
                    Pause::Yield,
                ),
        !holds
            ==> final(condvar)@ == old(condvar)@
            && final(mutex)@ == old(mutex)@
            && final(wakes)@ == old(wakes)@
            && (
                r matches Progress::Done((g, result))
                && g@ == guard@
                && g.id() == guard.id()
                && !result.spec_timed_out()
            ),
{
    lemma_freed(old(mutex)@);
    assert(old(mutex)@.taken() =~= old(mutex)@);
}

/// `wait_spin_timeout_tried` starts to wait with the data that the condition has left if the
/// condition holds; if not it ends the call with them, and nothing changes.
pub proof fn law_wait_spin_timeout_tried_answers<T>(
    condvar: &mut Condvar,
    mutex: &mut Mutex<T>,
    guard: Guard<T>,
    holds: bool,
    flag: u64,
    wakes: &mut Vec<Wake>,
    r: Progress<SpinTimeoutPhase, (Guard<T>, WaitTimeoutResult)>,
)
    requires
        call_ensures(
            Condvar::wait_spin_timeout_tried::<T>,
            (condvar, mutex, guard, holds, flag, wakes),
            r,
        ),
        old(mutex)@.inner is None,
        guard.id() == old(mutex)@.id,
    ensures
        holds
            ==> joined_spin(old(condvar)@, final(condvar)@, flag)
            && handed_back(old(mutex)@, final(mutex)@, guard@, old(wakes)@, final(wakes)@)
            && r
                == Progress::<SpinTimeoutPhase, (Guard<T>, WaitTimeoutResult)>::Pause(
                    SpinTimeoutPhase::Spinning(flag),
                    Pause::Yield,
                ),
        !holds
            ==> final(condvar)@ == old(condvar)@
            && final(mutex)@ == old(mutex)@
            && final(wakes)@ == old(wakes)@
            && (
                r matches Progress::Done((g, result))
                && g@ == guard@
                && g.id() == guard.id()
                && !result.spec_timed_out()
            ),
{
    lemma_freed(old(mutex)@);
    assert(old(mutex)@.taken() =~= old(mutex)@);
}

/// `wait_sync_timeout_tried` starts to wait with the data that the condition has left if the
/// condition holds; if not it ends the call with them, and nothing changes.
pub proof fn law_wait_sync_timeout_tried_answers<T>(
    condvar: &mut Condvar,
    mutex: &mut Mutex<T>,
    guard: Guard<T>,
    holds: bool,
    flag: u64,
    caller: Caller,
    wakes: &mut Vec<Wake>,
    r: Progress<SyncTimeoutPhase, (Guard<T>, WaitTimeoutResult)>,
)
    requires
        call_ensures(
            Condvar::wait_sync_timeout_tried::<T>,
            (condvar, mutex, guard, holds, flag, caller, wakes),
            r,
        ),
        old(mutex)@.inner is None,
        guard.id() == old(mutex)@.id,
    ensures
        holds
            ==> handed_back(old(mutex)@, final(mutex)@, guard@, old(wakes)@, final(wakes)@)
            && (
                caller.can_block
                    ==> joined_sync(old(condvar)@, final(condvar)@, caller.thread)
                    && r
                        == Progress::<SyncTimeoutPhase, (Guard<T>, WaitTimeoutResult)>::Pause(
                            SyncTimeoutPhase::Block(BlockTimeoutPhase::Tick),
                            Pause::Yield,
                        )
            )
            && (
                !caller.can_block
                    ==> joined_spin(old(condvar)@, final(condvar)@, flag)
                    && r
                        == Progress::<SyncTimeoutPhase, (Guard<T>, WaitTimeoutResult)>::Pause(
                            SyncTimeoutPhase::Spin(SpinTimeoutPhase::Spinning(flag)),
                            Pause::Yield,
                        )
            ),
        !holds
            ==> final(condvar)@ == old(condvar)@
            && final(mutex)@ == old(mutex)@
            && final(wakes)@ == old(wakes)@
            && (
                r matches Progress::Done((g, result))
                && g@ == guard@
                && g.id() == guard.id()
                && !result.spec_timed_out()
            ),
{
    lemma_freed(old(mutex)@);
    assert(old(mutex)@.taken() =~= old(mutex)@);
}

/// `wait_async_timeout_tried` starts to wait with the data that the condition has left if the
/// condition holds; if not it ends the call with them, and nothing changes.
pub proof fn law_wait_async_timeout_tried_answers<T>(
    condvar: &mut Condvar,
    mutex: &mut Mutex<T>,
    guard: Guard<T>,
    holds: bool,
    ids: &mut WaiterIds,
    continuation: u64,
    wakes: &mut Vec<Wake>,
    r: Progress<AsyncTimeoutPhase, (Guard<T>, WaitTimeoutResult)>,
)
    requires
        call_ensures(
            Condvar::wait_async_timeout_tried::<T>,
            (condvar, mutex, guard, holds, ids, continuation, wakes),
            r,
        ),
        old(mutex)@.inner is None,
        guard.id() == old(mutex)@.id,
    ensures
        holds
            ==> joined_async(old(condvar)@, final(condvar)@, old(ids).spec_next(), continuation)
            && handed_back(old(mutex)@, final(mutex)@, guard@, old(wakes)@, final(wakes)@)
            && r
                == Progress::<AsyncTimeoutPhase, (Guard<T>, WaitTimeoutResult)>::Pause(
                    AsyncTimeoutPhase::Racing(old(ids).spec_next()),
                    Pause::Race(continuation),
                )
            && (
                old(ids).spec_next() < u64::MAX
                    ==> final(ids).spec_next() == old(ids).spec_next() + 1
            ),
        !holds
            ==> final(condvar)@ == old(condvar)@
            && final(mutex)@ == old(mutex)@
            && final(wakes)@ == old(wakes)@
            && (
                r matches Progress::Done((g, result))
                && g@ == guard@
                && g.id() == guard.id()
                && !result.spec_timed_out()
            )
            && final(ids).spec_next() == old(ids).spec_next(),
{
    lemma_freed(old(mutex)@);
    assert(old(mutex)@.taken() =~= old(mutex)@);
}

/// `wait_block_timeout_at` tells the truth of its deadline: it says that it has timed out, or goes
/// on to say so, only if the deadline had come while it was still listed; a wait that a
/// notification has ended never says so, and ends once the mutex is free.
pub proof fn law_wait_block_timeout_at_tells_the_truth<T>(
    condvar: &mut Condvar,
    mutex: &mut Mutex<T>,
    call: Call<Guard<T>, BlockTimeoutPhase>,
    caller: Caller,
    now: Moment,
    deadline: Moment,
    wakes: &mut Vec<Wake>,
    r: Progress<BlockTimeoutPhase, (Guard<T>, WaitTimeoutResult)>,
)
    requires
        call_ensures(
            Condvar::wait_block_timeout_at::<T>,
            (condvar, mutex, call, caller, now, deadline, wakes),
            r,
        ),
    ensures
        r matches Progress::Done((_, result))
            ==> result.spec_timed_out()
                ==> (
                    call matches Call::Resume(BlockTimeoutPhase::Tick)
                    && now.nanos >= deadline.nanos
                    && old(condvar)@.sync.contains(caller.thread)
                )
                || (call matches Call::Resume(BlockTimeoutPhase::Relock(true))),
        (r matches Progress::Pause(BlockTimeoutPhase::Relock(true), _))
            ==> (
                call matches Call::Resume(BlockTimeoutPhase::Tick)
                && now.nanos >= deadline.nanos
                && old(condvar)@.sync.contains(caller.thread)
            )
            || (call matches Call::Resume(BlockTimeoutPhase::Relock(true))),
        old(mutex)@.inner is Some
        && (
            (
                call matches Call::Resume(BlockTimeoutPhase::Parked)
                && !old(condvar)@.sync.contains(caller.thread)
            )
            || (
                call matches Call::Resume(BlockTimeoutPhase::Tick)
                && now.nanos >= deadline.nanos
                && !old(condvar)@.sync.contains(caller.thread)
            )
            || (call matches Call::Resume(BlockTimeoutPhase::Relock(false)))
        )
            ==> (
                r matches Progress::Done((guard, result))
                && !result.spec_timed_out()
                && old(mutex)@.inner == Some(guard@)
            ),
        old(mutex)@.inner is Some
        && (
            (
                call matches Call::Resume(BlockTimeoutPhase::Tick)
                && now.nanos >= deadline.nanos
                && old(condvar)@.sync.contains(caller.thread)
            )
            || (call matches Call::Resume(BlockTimeoutPhase::Relock(true)))
        )
            ==> (
                r matches Progress::Done((guard, result))
                && result.spec_timed_out()
                && old(mutex)@.inner == Some(guard@)
            ),
{
}

/// `wait_spin_timeout_at` tells the truth of its deadline: it says that it has timed out, or goes
/// on to say so, only if the deadline had come while it was still listed; a wait that a
/// notification has ended never says so, and ends once the mutex is free.
pub proof fn law_wait_spin_timeout_at_tells_the_truth<T>(
    condvar: &mut Condvar,
    mutex: &mut Mutex<T>,
    call: Call<Guard<T>, SpinTimeoutPhase>,
    flag: u64,
    raised: bool,
    caller: Caller,
    now: Moment,
    deadline: Moment,
    wakes: &mut Vec<Wake>,
    r: Progress<SpinTimeoutPhase, (Guard<T>, WaitTimeoutResult)>,
)
    requires
        call_ensures(
            Condvar::wait_spin_timeout_at::<T>,
            (condvar, mutex, call, flag, raised, caller, now, deadline, wakes),
            r,
        ),
    ensures
        r matches Progress::Done((_, result))
            ==> result.spec_timed_out()
                ==> (
                    call matches Call::Resume(SpinTimeoutPhase::Spinning(looked_on))
                    && !raised
                    && now.nanos >= deadline.nanos
                    && old(condvar)@.spin.contains(looked_on)
                )
                || (call matches Call::Resume(SpinTimeoutPhase::Relock(true))),
        (r matches Progress::Pause(SpinTimeoutPhase::Relock(true), _))
            ==> (
                call matches Call::Resume(SpinTimeoutPhase::Spinning(looked_on))
                && !raised
                && now.nanos >= deadline.nanos
                && old(condvar)@.spin.contains(looked_on)
            )
            || (call matches Call::Resume(SpinTimeoutPhase::Relock(true))),
        old(mutex)@.inner is Some
        && (
            (call matches Call::Resume(SpinTimeoutPhase::Spinning(_)) && raised)
            || (call matches Call::Resume(SpinTimeoutPhase::Handoff(_)) && raised)
            || (call matches Call::Resume(SpinTimeoutPhase::Relock(false)))
        )
            ==> (
                r matches Progress::Done((guard, result))
                && !result.spec_timed_out()
                && old(mutex)@.inner == Some(guard@)
            ),
        old(mutex)@.inner is Some
        && (
            (
                call matches Call::Resume(SpinTimeoutPhase::Spinning(looked_on))
                && !raised
                && now.nanos >= deadline.nanos
                && old(condvar)@.spin.contains(looked_on)
            )
            || (call matches Call::Resume(SpinTimeoutPhase::Relock(true)))
        )
            ==> (
                r matches Progress::Done((guard, result))
                && result.spec_timed_out()
                && old(mutex)@.inner == Some(guard@)
            ),
{
}

/// `wait_sync_timeout_at` tells the truth of its deadline: it says that it has timed out, or goes
/// on to say so, only if the deadline had come while it was still listed; a wait that a
/// notification has ended never says so, and ends once the mutex is free.
pub proof fn law_wait_sync_timeout_at_tells_the_truth<T>(
    condvar: &mut Condvar,
    mutex: &mut Mutex<T>,
    call: Call<Guard<T>, SyncTimeoutPhase>,
    flag: u64,
    raised: bool,
    caller: Caller,
    now: Moment,
    deadline: Moment,
    wakes: &mut Vec<Wake>,
    r: Progress<SyncTimeoutPhase, (Guard<T>, WaitTimeoutResult)>,
)
    requires
        call_ensures(
            Condvar::wait_sync_timeout_at::<T>,
            (condvar, mutex, call, flag, raised, caller, now, deadline, wakes),
            r,
        ),
    ensures
        r matches Progress::Done((_, result))
            ==> result.spec_timed_out()
                ==> (
                    call matches Call::Resume(SyncTimeoutPhase::Block(BlockTimeoutPhase::Tick))
                    && now.nanos >= deadline.nanos
                    && old(condvar)@.sync.contains(caller.thread)
                )
                || (
                    call matches Call::Resume(
                        SyncTimeoutPhase::Spin(SpinTimeoutPhase::Spinning(looked_on)),
                    )
                    && !raised
                    && now.nanos >= deadline.nanos
                    && old(condvar)@.spin.contains(looked_on)
                )
                || (
                    call matches Call::Resume(
                        SyncTimeoutPhase::Block(BlockTimeoutPhase::Relock(true)),
                    )
                )
                ||
                    (
                        call matches Call::Resume(
                            SyncTimeoutPhase::Spin(SpinTimeoutPhase::Relock(true)),
                        )
                    ),
        (r matches Progress::Pause(SyncTimeoutPhase::Block(BlockTimeoutPhase::Relock(true)), _))
        || (r matches Progress::Pause(SyncTimeoutPhase::Spin(SpinTimeoutPhase::Relock(true)), _))
            ==> (
                call matches Call::Resume(SyncTimeoutPhase::Block(BlockTimeoutPhase::Tick))
                && now.nanos >= deadline.nanos
                && old(condvar)@.sync.contains(caller.thread)
            )
            || (
                call matches Call::Resume(
                    SyncTimeoutPhase::Spin(SpinTimeoutPhase::Spinning(looked_on)),
                )
                && !raised
                && now.nanos >= deadline.nanos
                && old(condvar)@.spin.contains(looked_on)
            )
            || (call matches Call::Resume(SyncTimeoutPhase::Block(BlockTimeoutPhase::Relock(true))))
            || (call matches Call::Resume(SyncTimeoutPhase::Spin(SpinTimeoutPhase::Relock(true)))),
        old(mutex)@.inner is Some
        && (
            (
                call matches Call::Resume(SyncTimeoutPhase::Block(BlockTimeoutPhase::Parked))
                && !old(condvar)@.sync.contains(caller.thread)
            )
            || (
                call matches Call::Resume(SyncTimeoutPhase::Block(BlockTimeoutPhase::Tick))
                && now.nanos >= deadline.nanos
                && !old(condvar)@.sync.contains(caller.thread)
            )
            ||
                (
                    call matches Call::Resume(
                        SyncTimeoutPhase::Block(BlockTimeoutPhase::Relock(false)),
                    )
                )
            || (
                call matches Call::Resume(SyncTimeoutPhase::Spin(SpinTimeoutPhase::Spinning(_)))
                && raised
            )
            || (
                call matches Call::Resume(SyncTimeoutPhase::Spin(SpinTimeoutPhase::Handoff(_)))
                && raised
            )
            || (call matches Call::Resume(SyncTimeoutPhase::Spin(SpinTimeoutPhase::Relock(false))))
        )
            ==> (
                r matches Progress::Done((guard, result))
                && !result.spec_timed_out()
                && old(mutex)@.inner == Some(guard@)
            ),
        old(mutex)@.inner is Some
        && (
            (
                call matches Call::Resume(SyncTimeoutPhase::Block(BlockTimeoutPhase::Tick))
                && now.nanos >= deadline.nanos
                && old(condvar)@.sync.contains(caller.thread)
            )
            || (
                call matches Call::Resume(
                    SyncTimeoutPhase::Spin(SpinTimeoutPhase::Spinning(looked_on)),
                )
                && !raised
                && now.nanos >= deadline.nanos
                && old(condvar)@.spin.contains(looked_on)
            )
            || (call matches Call::Resume(SyncTimeoutPhase::Block(BlockTimeoutPhase::Relock(true))))
            || (call matches Call::Resume(SyncTimeoutPhase::Spin(SpinTimeoutPhase::Relock(true))))
        )
            ==> (
                r matches Progress::Done((guard, result))
                && result.spec_timed_out()
                && old(mutex)@.inner == Some(guard@)
            ),
{
}

/// `wait_async_timeout` tells the truth of its deadline: it says that it has timed out, or goes on
/// to say so, only if its race was lost; a wait that a notification has ended never says so, and
/// ends once the mutex is free.
pub proof fn law_wait_async_timeout_tells_the_truth<T>(
    condvar: &mut Condvar,
    mutex: &mut Mutex<T>,
    call: Call<Guard<T>, AsyncTimeoutPhase>,
    ids: &mut WaiterIds,
    timed_out: bool,
    continuation: u64,
    wakes: &mut Vec<Wake>,
    r: Progress<AsyncTimeoutPhase, (Guard<T>, WaitTimeoutResult)>,
)
    requires
        call_ensures(
            Condvar::wait_async_timeout::<T>,
            (condvar, mutex, call, ids, timed_out, continuation, wakes),
            r,
        ),
    ensures
        r matches Progress::Done((_, result))
            ==> result.spec_timed_out()
                ==> (call matches Call::Resume(AsyncTimeoutPhase::Racing(_)) && timed_out)
                || (call matches Call::Resume(AsyncTimeoutPhase::Relock(true))),
        (r matches Progress::Pause(AsyncTimeoutPhase::Relock(true), _))
            ==> (call matches Call::Resume(AsyncTimeoutPhase::Racing(_)) && timed_out)
            || (call matches Call::Resume(AsyncTimeoutPhase::Relock(true))),
        old(mutex)@.inner is Some
        && (
            (call matches Call::Resume(AsyncTimeoutPhase::Racing(_)) && !timed_out)
            || (call matches Call::Resume(AsyncTimeoutPhase::Relock(false)))
        )
            ==> (
                r matches Progress::Done((guard, result))
                && !result.spec_timed_out()
                && old(mutex)@.inner == Some(guard@)
            ),
        old(mutex)@.inner is Some
        && (
            (call matches Call::Resume(AsyncTimeoutPhase::Racing(_)) && timed_out)
            || (call matches Call::Resume(AsyncTimeoutPhase::Relock(true)))
        )
            ==> (
                r matches Progress::Done((guard, result))
                && result.spec_timed_out()
                && old(mutex)@.inner == Some(guard@)
            ),
{
}

/// `wait_block_timeout_while_at` tells the truth of its deadline: it says that it has timed out, or
/// goes on to say so, only if the deadline had come while it was still listed; a wait that a
/// notification has ended never says so, and ends once the mutex is free and its condition does not
/// hold.
pub proof fn law_wait_block_timeout_while_at_tells_the_truth<T, F: FnMut(&mut T) -> bool>(
    condvar: &mut Condvar,
    mutex: &mut Mutex<T>,
    call: Call<Guard<T>, BlockTimeoutPhase>,
    condition: &mut F,
    caller: Caller,
    now: Moment,
    deadline: Moment,
    wakes: &mut Vec<Wake>,
    r: Progress<BlockTimeoutPhase, (Guard<T>, WaitTimeoutResult)>,
)
    requires
        call_ensures(
            Condvar::wait_block_timeout_while_at::<T, F>,
            (condvar, mutex, call, condition, caller, now, deadline, wakes),
            r,
        ),
    ensures
        r matches Progress::Done((_, result))
            ==> result.spec_timed_out()
                ==> (
                    call matches Call::Resume(BlockTimeoutPhase::Tick)
                    && now.nanos >= deadline.nanos
                    && old(condvar)@.sync.contains(caller.thread)
                )
                || (call matches Call::Resume(BlockTimeoutPhase::Relock(true))),
        (r matches Progress::Pause(BlockTimeoutPhase::Relock(true), _))
            ==> (
                call matches Call::Resume(BlockTimeoutPhase::Tick)
                && now.nanos >= deadline.nanos
                && old(condvar)@.sync.contains(caller.thread)
            )
            || (call matches Call::Resume(BlockTimeoutPhase::Relock(true))),
        old(mutex)@.inner is Some
        && (
            (
                call matches Call::Resume(BlockTimeoutPhase::Tick)
                && now.nanos >= deadline.nanos
                && old(condvar)@.sync.contains(caller.thread)
            )
            || (call matches Call::Resume(BlockTimeoutPhase::Relock(true)))
        )
            ==> (
                r matches Progress::Done((guard, result))
                && result.spec_timed_out()
                && old(mutex)@.inner == Some(guard@)
            ),
{
    old(condvar)@.sync.index_of_first_ensures(caller.thread);
}

/// `wait_spin_timeout_while_at` tells the truth of its deadline: it says that it has timed out, or
/// goes on to say so, only if the deadline had come while it was still listed; a wait that a
/// notification has ended never says so, and ends once the mutex is free and its condition does not
/// hold.
pub proof fn law_wait_spin_timeout_while_at_tells_the_truth<T, F: FnMut(&mut T) -> bool>(
    condvar: &mut Condvar,
    mutex: &mut Mutex<T>,
    call: Call<Guard<T>, SpinTimeoutPhase>,
    condition: &mut F,
    flag: u64,
    raised: bool,
    caller: Caller,
    now: Moment,
    deadline: Moment,
    wakes: &mut Vec<Wake>,
    r: Progress<SpinTimeoutPhase, (Guard<T>, WaitTimeoutResult)>,
)
    requires
        call_ensures(
            Condvar::wait_spin_timeout_while_at::<T, F>,
            (condvar, mutex, call, condition, flag, raised, caller, now, deadline, wakes),
            r,
        ),
    ensures
        r matches Progress::Done((_, result))
            ==> result.spec_timed_out()
                ==> (
                    call matches Call::Resume(SpinTimeoutPhase::Spinning(looked_on))
                    && !raised
                    && now.nanos >= deadline.nanos
                    && old(condvar)@.spin.contains(looked_on)
                )
                || (call matches Call::Resume(SpinTimeoutPhase::Relock(true))),
        (r matches Progress::Pause(SpinTimeoutPhase::Relock(true), _))
            ==> (
                call matches Call::Resume(SpinTimeoutPhase::Spinning(looked_on))
                && !raised
                && now.nanos >= deadline.nanos
                && old(condvar)@.spin.contains(looked_on)
            )
            || (call matches Call::Resume(SpinTimeoutPhase::Relock(true))),
        old(mutex)@.inner is Some
        && (
            (
                call matches Call::Resume(SpinTimeoutPhase::Spinning(looked_on))
                && !raised
                && now.nanos >= deadline.nanos
                && old(condvar)@.spin.contains(looked_on)
            )
            || (call matches Call::Resume(SpinTimeoutPhase::Relock(true)))
        )
            ==> (
                r matches Progress::Done((guard, result))
                && result.spec_timed_out()
                && old(mutex)@.inner == Some(guard@)
            ),
{
}

/// `wait_sync_timeout_while_at` tells the truth of its deadline: it says that it has timed out, or
/// goes on to say so, only if the deadline had come while it was still listed; a wait that a
/// notification has ended never says so, and ends once the mutex is free and its condition does not
/// hold.
pub proof fn law_wait_sync_timeout_while_at_tells_the_truth<T, F: FnMut(&mut T) -> bool>(
    condvar: &mut Condvar,
    mutex: &mut Mutex<T>,
    call: Call<Guard<T>, SyncTimeoutPhase>,
    condition: &mut F,
    flag: u64,
    raised: bool,
    caller: Caller,
    now: Moment,
    deadline: Moment,
    wakes: &mut Vec<Wake>,
    r: Progress<SyncTimeoutPhase, (Guard<T>, WaitTimeoutResult)>,
)
    requires
        call_ensures(
            Condvar::wait_sync_timeout_while_at::<T, F>,
            (condvar, mutex, call, condition, flag, raised, caller, now, deadline, wakes),
            r,
        ),
    ensures
        r matches Progress::Done((_, result))
            ==> result.spec_timed_out()
                ==> (
                    call matches Call::Resume(SyncTimeoutPhase::Block(BlockTimeoutPhase::Tick))
                    && now.nanos >= deadline.nanos
                    && old(condvar)@.sync.contains(caller.thread)
                )
                || (
                    call matches Call::Resume(
                        SyncTimeoutPhase::Spin(SpinTimeoutPhase::Spinning(looked_on)),
                    )
                    && !raised
                    && now.nanos >= deadline.nanos
                    && old(condvar)@.spin.contains(looked_on)
                )
                || (
                    call matches Call::Resume(
                        SyncTimeoutPhase::Block(BlockTimeoutPhase::Relock(true)),
                    )
                )
                ||
                    (
                        call matches Call::Resume(
                            SyncTimeoutPhase::Spin(SpinTimeoutPhase::Relock(true)),
                        )
                    ),
        (r matches Progress::Pause(SyncTimeoutPhase::Block(BlockTimeoutPhase::Relock(true)), _))
        || (r matches Progress::Pause(SyncTimeoutPhase::Spin(SpinTimeoutPhase::Relock(true)), _))
            ==> (
                call matches Call::Resume(SyncTimeoutPhase::Block(BlockTimeoutPhase::Tick))
                && now.nanos >= deadline.nanos
                && old(condvar)@.sync.contains(caller.thread)
            )
            || (
                call matches Call::Resume(
                    SyncTimeoutPhase::Spin(SpinTimeoutPhase::Spinning(looked_on)),
                )
                && !raised
                && now.nanos >= deadline.nanos
                && old(condvar)@.spin.contains(looked_on)
            )
            || (call matches Call::Resume(SyncTimeoutPhase::Block(BlockTimeoutPhase::Relock(true))))
            || (call matches Call::Resume(SyncTimeoutPhase::Spin(SpinTimeoutPhase::Relock(true)))),
        old(mutex)@.inner is Some
        && (
            (
                call matches Call::Resume(SyncTimeoutPhase::Block(BlockTimeoutPhase::Tick))
                && now.nanos >= deadline.nanos
                && old(condvar)@.sync.contains(caller.thread)
            )
            || (
                call matches Call::Resume(
                    SyncTimeoutPhase::Spin(SpinTimeoutPhase::Spinning(looked_on)),
                )
                && !raised
                && now.nanos >= deadline.nanos
                && old(condvar)@.spin.contains(looked_on)
            )
            || (call matches Call::Resume(SyncTimeoutPhase::Block(BlockTimeoutPhase::Relock(true))))
            || (call matches Call::Resume(SyncTimeoutPhase::Spin(SpinTimeoutPhase::Relock(true))))
        )
            ==> (
                r matches Progress::Done((guard, result))
                && result.spec_timed_out()
                && old(mutex)@.inner == Some(guard@)
            ),
{
    old(condvar)@.sync.index_of_first_ensures(caller.thread);
}

/// `wait_async_timeout_while` tells the truth of its deadline: it says that it has timed out, or
/// goes on to say so, only if its race was lost; a wait that a notification has ended never says
/// so, and ends once the mutex is free and its condition does not hold.
pub proof fn law_wait_async_timeout_while_tells_the_truth<T, F: FnMut(&mut T) -> bool>(
    condvar: &mut Condvar,
    mutex: &mut Mutex<T>,
    call: Call<Guard<T>, AsyncTimeoutPhase>,
    condition: &mut F,
    ids: &mut WaiterIds,
    timed_out: bool,
    continuation: u64,
    wakes: &mut Vec<Wake>,
    r: Progress<AsyncTimeoutPhase, (Guard<T>, WaitTimeoutResult)>,
)
    requires
        call_ensures(
            Condvar::wait_async_timeout_while::<T, F>,
            (condvar, mutex, call, condition, ids, timed_out, continuation, wakes),
            r,
        ),
    ensures
        r matches Progress::Done((_, result))
            ==> result.spec_timed_out()
                ==> (call matches Call::Resume(AsyncTimeoutPhase::Racing(_)) && timed_out)
                || (call matches Call::Resume(AsyncTimeoutPhase::Relock(true))),
        (r matches Progress::Pause(AsyncTimeoutPhase::Relock(true), _))
            ==> (call matches Call::Resume(AsyncTimeoutPhase::Racing(_)) && timed_out)
            || (call matches Call::Resume(AsyncTimeoutPhase::Relock(true))),
        old(mutex)@.inner is Some
        && (
            (call matches Call::Resume(AsyncTimeoutPhase::Racing(_)) && timed_out)
            || (call matches Call::Resume(AsyncTimeoutPhase::Relock(true)))
        )
            ==> (
                r matches Progress::Done((guard, result))
                && result.spec_timed_out()
                && old(mutex)@.inner == Some(guard@)
            ),
{
}

/// `wait_block_while` ends only when the condition, tried in that very step on the data in hand,
/// does not hold; and whenever it has the data in hand it tries the condition.
pub proof fn law_wait_block_while_ends_when_the_condition_fails<T, F: FnMut(&mut T) -> bool>(
    condvar: &mut Condvar,
    mutex: &mut Mutex<T>,
    call: Call<Guard<T>, BlockPhase>,
    condition: &mut F,
    caller: Caller,
    wakes: &mut Vec<Wake>,
    r: Progress<BlockPhase, Guard<T>>,
)
    requires
        call_ensures(
            Condvar::wait_block_while::<T, F>,
            (condvar, mutex, call, condition, caller, wakes),
            r,
        ),
    ensures
        r matches Progress::Done(guard)
            ==> exists|data: &mut T|
                #[trigger] call_ensures(*old(condition), (data,), false)
                && *final(data) == guard@
                && (call matches Call::Start(start) ==> *data == start@)
                && (call is Resume ==> old(mutex)@.inner == Some(*data)),
        (call is Start || old(mutex)@.inner is Some && (call matches Call::Resume(_)))
            ==> exists|data: &mut T, holds: bool|
                #[trigger] call_ensures(*old(condition), (data,), holds)
                && (call matches Call::Start(start) ==> *data == start@)
                && (call is Resume ==> old(mutex)@.inner == Some(*data))
                && (r is Done <==> !holds)
                && (holds ==> final(mutex)@.inner == Some(*final(data))),
{
}

/// `wait_spin_while` ends only when the condition, tried in that very step on the data in hand,
/// does not hold; and whenever it has the data in hand it tries the condition.
pub proof fn law_wait_spin_while_ends_when_the_condition_fails<T, F: FnMut(&mut T) -> bool>(
    condvar: &mut Condvar,
    mutex: &mut Mutex<T>,
    call: Call<Guard<T>, SpinPhase>,
    condition: &mut F,
    flag: u64,
    raised: bool,
    caller: Caller,
    wakes: &mut Vec<Wake>,
    r: Progress<SpinPhase, Guard<T>>,
)
    requires
        call_ensures(
            Condvar::wait_spin_while::<T, F>,
            (condvar, mutex, call, condition, flag, raised, caller, wakes),
            r,
        ),
    ensures
        r matches Progress::Done(guard)
            ==> exists|data: &mut T|
                #[trigger] call_ensures(*old(condition), (data,), false)
                && *final(data) == guard@
                && (call matches Call::Start(start) ==> *data == start@)
                && (call is Resume ==> old(mutex)@.inner == Some(*data)),
        (
            call is Start
            || old(mutex)@.inner is Some && (call matches Call::Resume(SpinPhase::Relock))
            || old(mutex)@.inner is Some
            && (call matches Call::Resume(SpinPhase::Spinning(_)) && raised)
        )
            ==> exists|data: &mut T, holds: bool|
                #[trigger] call_ensures(*old(condition), (data,), holds)
                && (call matches Call::Start(start) ==> *data == start@)
                && (call is Resume ==> old(mutex)@.inner == Some(*data))
                && (r is Done <==> !holds)
                && (holds ==> final(mutex)@.inner == Some(*final(data))),
{
}

/// `wait_sync_while` ends only when the condition, tried in that very step on the data in hand,
/// does not hold; and whenever it has the data in hand it tries the condition.
pub proof fn law_wait_sync_while_ends_when_the_condition_fails<T, F: FnMut(&mut T) -> bool>(
    condvar: &mut Condvar,
    mutex: &mut Mutex<T>,
    call: Call<Guard<T>, SyncPhase>,
    condition: &mut F,
    flag: u64,
    raised: bool,
    caller: Caller,
    wakes: &mut Vec<Wake>,
    r: Progress<SyncPhase, Guard<T>>,
)
    requires
        call_ensures(
            Condvar::wait_sync_while::<T, F>,
            (condvar, mutex, call, condition, flag, raised, caller, wakes),
            r,
        ),
    ensures
        r matches Progress::Done(guard)
            ==> exists|data: &mut T|
                #[trigger] call_ensures(*old(condition), (data,), false)
                && *final(data) == guard@
                && (call matches Call::Start(start) ==> *data == start@)
                && (call is Resume ==> old(mutex)@.inner == Some(*data)),
        (
            call is Start
            || old(mutex)@.inner is Some && (call matches Call::Resume(SyncPhase::Block(_)))
            || old(mutex)@.inner is Some
            && (call matches Call::Resume(SyncPhase::Spin(SpinPhase::Relock)))
            || old(mutex)@.inner is Some
            && (call matches Call::Resume(SyncPhase::Spin(SpinPhase::Spinning(_))) && raised)
        )
            ==> exists|data: &mut T, holds: bool|
                #[trigger] call_ensures(*old(condition), (data,), holds)
                && (call matches Call::Start(start) ==> *data == start@)
                && (call is Resume ==> old(mutex)@.inner == Some(*data))
                && (r is Done <==> !holds)
                && (holds ==> final(mutex)@.inner == Some(*final(data))),
{
}

/// `wait_async_while` ends only when the condition, tried in that very step on the data in hand,
/// does not hold; and whenever it has the data in hand it tries the condition.
pub proof fn law_wait_async_while_ends_when_the_condition_fails<T, F: FnMut(&mut T) -> bool>(
    condvar: &mut Condvar,
    mutex: &mut Mutex<T>,
    call: Call<Guard<T>, AsyncPhase>,
    condition: &mut F,
    ids: &mut WaiterIds,
    continuation: u64,
    wakes: &mut Vec<Wake>,
    r: Progress<AsyncPhase, Guard<T>>,
)
    requires
        call_ensures(
            Condvar::wait_async_while::<T, F>,
            (condvar, mutex, call, condition, ids, continuation, wakes),
            r,
        ),
    ensures
        r matches Progress::Done(guard)
            ==> exists|data: &mut T|
                #[trigger] call_ensures(*old(condition), (data,), false)
                && *final(data) == guard@
                && (call matches Call::Start(start) ==> *data == start@)
                && (call is Resume ==> old(mutex)@.inner == Some(*data)),
        (call is Start || old(mutex)@.inner is Some && (call matches Call::Resume(_)))
            ==> exists|data: &mut T, holds: bool|
                #[trigger] call_ensures(*old(condition), (data,), holds)
                && (call matches Call::Start(start) ==> *data == start@)
                && (call is Resume ==> old(mutex)@.inner == Some(*data))
                && (r is Done <==> !holds)
                && (holds ==> final(mutex)@.inner == Some(*final(data))),
{
}

/// `wait_block_timeout_while_at` ends before its deadline only when the condition, tried in that
/// very step on the data in hand, does not hold; and whenever it has the data in hand in time it
/// tries the condition.
pub proof fn law_wait_block_timeout_while_at_ends_when_the_condition_fails<
    T,
    F: FnMut(&mut T) -> bool,
>(
    condvar: &mut Condvar,
    mutex: &mut Mutex<T>,
    call: Call<Guard<T>, BlockTimeoutPhase>,
    condition: &mut F,
    caller: Caller,
    now: Moment,
    deadline: Moment,
    wakes: &mut Vec<Wake>,
    r: Progress<BlockTimeoutPhase, (Guard<T>, WaitTimeoutResult)>,
)
    requires
        call_ensures(
            Condvar::wait_block_timeout_while_at::<T, F>,
            (condvar, mutex, call, condition, caller, now, deadline, wakes),
            r,
        ),
    ensures
        r matches Progress::Done((guard, result))
            ==> !result.spec_timed_out()
                ==> exists|data: &mut T|
                    #[trigger] call_ensures(*old(condition), (data,), false)
                    && *final(data) == guard@
                    && (call matches Call::Start(start) ==> *data == start@)
                    && (call is Resume ==> old(mutex)@.inner == Some(*data)),
        (
            call is Start
            || old(mutex)@.inner is Some
            && (
                call matches Call::Resume(BlockTimeoutPhase::Parked)
                && !old(condvar)@.sync.contains(caller.thread)
            )
            || old(mutex)@.inner is Some
            && (
                call matches Call::Resume(BlockTimeoutPhase::Tick)
                && now.nanos >= deadline.nanos
                && !old(condvar)@.sync.contains(caller.thread)
            )
            || old(mutex)@.inner is Some
            && (call matches Call::Resume(BlockTimeoutPhase::Relock(false)))
        )
            ==> exists|data: &mut T, holds: bool|
                #[trigger] call_ensures(*old(condition), (data,), holds)
                && (call matches Call::Start(start) ==> *data == start@)
                && (call is Resume ==> old(mutex)@.inner == Some(*data))
                && (r is Done <==> !holds)
                && (holds ==> final(mutex)@.inner == Some(*final(data))),
{
    old(condvar)@.sync.index_of_first_ensures(caller.thread);
}

/// `wait_spin_timeout_while_at` ends before its deadline only when the condition, tried in that
/// very step on the data in hand, does not hold; and whenever it has the data in hand in time it
/// tries the condition.
pub proof fn law_wait_spin_timeout_while_at_ends_when_the_condition_fails<
    T,
    F: FnMut(&mut T) -> bool,
>(
    condvar: &mut Condvar,
    mutex: &mut Mutex<T>,
    call: Call<Guard<T>, SpinTimeoutPhase>,
    condition: &mut F,
    flag: u64,
    raised: bool,
    caller: Caller,
    now: Moment,
    deadline: Moment,
    wakes: &mut Vec<Wake>,
    r: Progress<SpinTimeoutPhase, (Guard<T>, WaitTimeoutResult)>,
)
    requires
        call_ensures(
            Condvar::wait_spin_timeout_while_at::<T, F>,
            (condvar, mutex, call, condition, flag, raised, caller, now, deadline, wakes),
            r,
        ),
    ensures
        r matches Progress::Done((guard, result))
            ==> !result.spec_timed_out()
                ==> exists|data: &mut T|
                    #[trigger] call_ensures(*old(condition), (data,), false)
                    && *final(data) == guard@
                    && (call matches Call::Start(start) ==> *data == start@)
                    && (call is Resume ==> old(mutex)@.inner == Some(*data)),
        (
            call is Start
            || old(mutex)@.inner is Some
            && (call matches Call::Resume(SpinTimeoutPhase::Spinning(_)) && raised)
            || old(mutex)@.inner is Some
            && (call matches Call::Resume(SpinTimeoutPhase::Handoff(_)) && raised)
            || old(mutex)@.inner is Some
            && (call matches Call::Resume(SpinTimeoutPhase::Relock(false)))
        )
            ==> exists|data: &mut T, holds: bool|
                #[trigger] call_ensures(*old(condition), (data,), holds)
                && (call matches Call::Start(start) ==> *data == start@)
                && (call is Resume ==> old(mutex)@.inner == Some(*data))
                && (r is Done <==> !holds)
                && (holds ==> final(mutex)@.inner == Some(*final(data))),
{
}

/// `wait_sync_timeout_while_at` ends before its deadline only when the condition, tried in that
/// very step on the data in hand, does not hold; and whenever it has the data in hand in time it
/// tries the condition.
pub proof fn law_wait_sync_timeout_while_at_ends_when_the_condition_fails<
    T,
    F: FnMut(&mut T) -> bool,
>(
    condvar: &mut Condvar,
    mutex: &mut Mutex<T>,
    call: Call<Guard<T>, SyncTimeoutPhase>,
    condition: &mut F,
    flag: u64,
    raised: bool,
    caller: Caller,
    now: Moment,
    deadline: Moment,
    wakes: &mut Vec<Wake>,
    r: Progress<SyncTimeoutPhase, (Guard<T>, WaitTimeoutResult)>,
)
    requires
        call_ensures(
            Condvar::wait_sync_timeout_while_at::<T, F>,
            (condvar, mutex, call, condition, flag, raised, caller, now, deadline, wakes),
            r,
        ),
    ensures
        r matches Progress::Done((guard, result))
            ==> !result.spec_timed_out()
                ==> exists|data: &mut T|
                    #[trigger] call_ensures(*old(condition), (data,), false)
                    && *final(data) == guard@
                    && (call matches Call::Start(start) ==> *data == start@)
                    && (call is Resume ==> old(mutex)@.inner == Some(*data)),
        (
            call is Start
            || old(mutex)@.inner is Some
            && (
                call matches Call::Resume(SyncTimeoutPhase::Block(BlockTimeoutPhase::Parked))
                && !old(condvar)@.sync.contains(caller.thread)
            )
            || old(mutex)@.inner is Some
            && (
                call matches Call::Resume(SyncTimeoutPhase::Block(BlockTimeoutPhase::Tick))
                && now.nanos >= deadline.nanos
                && !old(condvar)@.sync.contains(caller.thread)
            )
            || old(mutex)@.inner is Some
            &&
                (
                    call matches Call::Resume(
                        SyncTimeoutPhase::Block(BlockTimeoutPhase::Relock(false)),
                    )
                )
            || old(mutex)@.inner is Some
            && (
                call matches Call::Resume(SyncTimeoutPhase::Spin(SpinTimeoutPhase::Spinning(_)))
                && raised
            )
            || old(mutex)@.inner is Some
            && (
                call matches Call::Resume(SyncTimeoutPhase::Spin(SpinTimeoutPhase::Handoff(_)))
                && raised
            )
            || old(mutex)@.inner is Some
            && (call matches Call::Resume(SyncTimeoutPhase::Spin(SpinTimeoutPhase::Relock(false))))
        )
            ==> exists|data: &mut T, holds: bool|
                #[trigger] call_ensures(*old(condition), (data,), holds)
                && (call matches Call::Start(start) ==> *data == start@)
                && (call is Resume ==> old(mutex)@.inner == Some(*data))
                && (r is Done <==> !holds)
                && (holds ==> final(mutex)@.inner == Some(*final(data))),
{
    old(condvar)@.sync.index_of_first_ensures(caller.thread);
}

/// `wait_async_timeout_while` ends before its deadline only when the condition, tried in that very
/// step on the data in hand, does not hold; and whenever it has the data in hand in time it tries
/// the condition.
pub proof fn law_wait_async_timeout_while_ends_when_the_condition_fails<
    T,
    F: FnMut(&mut T) -> bool,
>(
    condvar: &mut Condvar,
    mutex: &mut Mutex<T>,
    call: Call<Guard<T>, AsyncTimeoutPhase>,
    condition: &mut F,
    ids: &mut WaiterIds,
    timed_out: bool,
    continuation: u64,
    wakes: &mut Vec<Wake>,
    r: Progress<AsyncTimeoutPhase, (Guard<T>, WaitTimeoutResult)>,
)
    requires
        call_ensures(
            Condvar::wait_async_timeout_while::<T, F>,
            (condvar, mutex, call, condition, ids, timed_out, continuation, wakes),
            r,
        ),
    ensures
        r matches Progress::Done((guard, result))
            ==> !result.spec_timed_out()
                ==> exists|data: &mut T|
                    #[trigger] call_ensures(*old(condition), (data,), false)
                    && *final(data) == guard@
                    && (call matches Call::Start(start) ==> *data == start@)
                    && (call is Resume ==> old(mutex)@.inner == Some(*data)),
        (
            call is Start
            || old(mutex)@.inner is Some
            && (call matches Call::Resume(AsyncTimeoutPhase::Racing(_)) && !timed_out)
            || old(mutex)@.inner is Some
            && (call matches Call::Resume(AsyncTimeoutPhase::Relock(false)))
        )
            ==> exists|data: &mut T, holds: bool|
                #[trigger] call_ensures(*old(condition), (data,), holds)
                && (call matches Call::Start(start) ==> *data == start@)
                && (call is Resume ==> old(mutex)@.inner == Some(*data))
                && (r is Done <==> !holds)
                && (holds ==> final(mutex)@.inner == Some(*final(data))),
{
}

} // verus!

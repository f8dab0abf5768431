//! What holds of a mutex however its users' steps interleave.
use crate::guard::Guard;
use crate::mutex;
use crate::mutex::MutexView;
use crate::step::{continuation_wakes, thread_wakes, Caller, Pause, Progress, Wake};
use crate::time::Moment;
use vstd::multiset::Multiset;
use vstd::prelude::*;

verus! {

/// What some user does to a mutex. Giving the lock back and letting the waiting ones go are two
/// steps here, so that others may come in between.
pub enum MutexStep<T> {
    /// Takes the lock, which is free.
    Take,
    /// Finds the mutex locked and lists a thread.
    Queue(u64),
    /// Finds the mutex locked and lists a continuation.
    QueueAsync(u64),
    /// Gives the lock back, with this data.
    Release(T),
    /// Lets the waiting ones go, after having given the lock back.
    Drain,
}

/// A mutex in the course of its use.
pub struct Course<T> {
    pub mutex: MutexView<T>,
    /// How many users have given the lock back without having let the waiting ones go yet.
    pub pending: nat,
    /// Who has been woken so far.
    pub woken: Seq<Wake>,
}

impl<T> Course<T> {
    /// A fresh mutex.
    pub open spec fn fresh(id: int, value: T) -> Self {
        Course { mutex: MutexView::holding(id, value), pending: 0, woken: Seq::empty() }
    }

    /// Whether some user can take this step.
    pub open spec fn allows(self, step: MutexStep<T>) -> bool {
        match step {
            MutexStep::Take => self.mutex.inner is Some,
            MutexStep::Queue(_) => self.mutex.inner is None,
            MutexStep::QueueAsync(_) => self.mutex.inner is None,
            MutexStep::Release(_) => self.mutex.inner is None,
            MutexStep::Drain => self.pending > 0,
        }
    }

    /// The course after a step.
    pub open spec fn after(self, step: MutexStep<T>) -> Self {
        match step {
            MutexStep::Take => Course { mutex: self.mutex.taken(), ..self },
            MutexStep::Queue(thread) => Course { mutex: self.mutex.queued(thread), ..self },
            MutexStep::QueueAsync(continuation) => Course {
                mutex: self.mutex.queued_async(continuation),
                ..self
            },
            MutexStep::Release(value) => Course {
                mutex: self.mutex.released(value),
                pending: self.pending + 1,
                ..self
            },
            MutexStep::Drain => Course {
                mutex: self.mutex.drained(),
                pending: (self.pending - 1) as nat,
                woken: self.woken + self.mutex.waiters(),
            },
        }
    }
}

/// A course after `steps`.
pub open spec fn run<T>(start: Course<T>, steps: Seq<MutexStep<T>>) -> Course<T>
    decreases steps.len(),
{
    if steps.len() == 0 {
        start
    } else {
        run(start, steps.drop_last()).after(steps.last())
    }
}

/// Whether each of `steps` can be taken when its turn comes.
pub open spec fn allowed<T>(start: Course<T>, steps: Seq<MutexStep<T>>) -> bool
    decreases steps.len(),
{
    if steps.len() == 0 {
        true
    } else {
        allowed(start, steps.drop_last()) && run(start, steps.drop_last()).allows(steps.last())
    }
}

/// The course of a mutex that starts with `value` and sees `steps`.
pub open spec fn course<T>(id: int, value: T, steps: Seq<MutexStep<T>>) -> Course<T> {
    run(Course::fresh(id, value), steps)
}

/// Whether each of `steps` can be taken when its turn comes, from the start on.
pub open spec fn possible<T>(id: int, value: T, steps: Seq<MutexStep<T>>) -> bool {
    allowed(Course::fresh(id, value), steps)
}

/// `steps` lead from `before` to the mutex `post`, and wake `woken`.
pub open spec fn led<T>(
    before: Course<T>,
    steps: Seq<MutexStep<T>>,
    post: MutexView<T>,
    woken: Seq<Wake>,
) -> bool {
    &&& allowed(before, steps)
    &&& run(before, steps).mutex == post
    &&& run(before, steps).pending == before.pending
    &&& run(before, steps).woken =~= before.woken + woken
}

/// What an attempt at the lock does: it takes a free lock, and lists itself as `listing` says if it
/// misses.
pub open spec fn attempt_steps<T>(
    pre: MutexView<T>,
    listing: Option<MutexStep<T>>,
) -> Seq<MutexStep<T>> {
    if pre.inner is Some {
        seq![MutexStep::Take]
    } else {
        match listing {
            Some(step) => seq![step],
            None => Seq::empty(),
        }
    }
}

/// How a thread lists itself, in the way that it may wait.
pub open spec fn sync_listing<T>(caller: Caller) -> Option<MutexStep<T>> {
    if caller.can_block {
        Some(MutexStep::Queue(caller.thread))
    } else {
        None
    }
}

/// How a thread that is not out of time lists itself.
pub open spec fn listing_in_time<T>(listing: MutexStep<T>, in_time: bool) -> Option<MutexStep<T>> {
    if in_time {
        Some(listing)
    } else {
        None
    }
}

/// The data that was given back last, or the first data.
pub open spec fn last_written<T>(value: T, steps: Seq<MutexStep<T>>) -> T
    decreases steps.len(),
{
    if steps.len() == 0 {
        value
    } else {
        match steps.last() {
            MutexStep::Release(written) => written,
            _ => last_written(value, steps.drop_last()),
        }
    }
}

/// Who has joined the waiting ones, in the form in which they are woken.
pub open spec fn arrivals<T>(steps: Seq<MutexStep<T>>) -> Multiset<Wake>
    decreases steps.len(),
{
    if steps.len() == 0 {
        Multiset::empty()
    } else {
        match steps.last() {
            MutexStep::Queue(thread) => arrivals(steps.drop_last()).insert(Wake::Thread(thread)),
            MutexStep::QueueAsync(continuation) => arrivals(steps.drop_last()).insert(
                Wake::Continuation(continuation),
            ),
            _ => arrivals(steps.drop_last()),
        }
    }
}

/// Courses go on: what happens in `more` steps after `steps` happens in all of them together.
pub proof fn law_courses_go_on<T>(
    start: Course<T>,
    steps: Seq<MutexStep<T>>,
    more: Seq<MutexStep<T>>,
)
    ensures
        run(start, steps + more) == run(run(start, steps), more),
        allowed(start, steps + more) <==> allowed(start, steps) && allowed(run(start, steps), more),
    decreases more.len(),
{
    if more.len() == 0 {
        assert(steps + more =~= steps);
    } else {
        law_courses_go_on(start, steps, more.drop_last());
        assert((steps + more).drop_last() =~= steps + more.drop_last());
    }
}

proof fn lemma_led_by_one<T>(before: Course<T>, step: MutexStep<T>)
    requires
        before.allows(step),
        !(step is Release),
        !(step is Drain),
    ensures
        led(before, seq![step], before.after(step).mutex, Seq::empty()),
{
    reveal_with_fuel(run, 2);
    reveal_with_fuel(allowed, 2);
    assert(seq![step].drop_last() =~= Seq::<MutexStep<T>>::empty());
}

/// A call of `try_lock` on a free mutex is a step of the mutex; on a locked one it is none.
pub proof fn law_taking_is_a_step<T>(before: Course<T>)
    requires
        before.mutex.inner is Some,
    ensures
        led(before, seq![MutexStep::Take], before.mutex.taken(), Seq::empty()),
{
    lemma_led_by_one(before, MutexStep::Take);
}

/// To miss a locked mutex and be listed is a step of the mutex.
pub proof fn law_listing_is_a_step<T>(before: Course<T>, listing: MutexStep<T>)
    requires
        before.mutex.inner is None,
        listing is Queue || listing is QueueAsync,
    ensures
        led(before, seq![listing], before.after(listing).mutex, Seq::empty()),
{
    lemma_led_by_one(before, listing);
}

/// Each call of `lock_spin` is a step of the mutex, or none.
pub proof fn law_lock_spin_is_a_step<T>(
    before: Course<T>,
    post: MutexView<T>,
    r: Progress<(), Guard<T>>,
)
    requires
        mutex::lock_pass(before.mutex, post, r, before.mutex, Pause::SpinLoop),
    ensures
        led(before, attempt_steps(before.mutex, None), post, Seq::empty()),
{
    if before.mutex.inner is Some {
        lemma_led_by_one(before, MutexStep::Take);
    }
}

/// Each call of `lock_block` is a step of the mutex.
pub proof fn law_lock_block_is_a_step<T>(
    before: Course<T>,
    post: MutexView<T>,
    r: Progress<(), Guard<T>>,
    thread: u64,
)
    requires
        mutex::lock_pass(before.mutex, post, r, before.mutex.queued(thread), Pause::Park),
    ensures
        led(
            before,
            attempt_steps(before.mutex, Some(MutexStep::Queue(thread))),
            post,
            Seq::empty(),
        ),
{
    if before.mutex.inner is Some {
        lemma_led_by_one(before, MutexStep::Take);
    } else {
        lemma_led_by_one(before, MutexStep::Queue(thread));
    }
}

/// Each step of `lock_async` is a step of the mutex.
pub proof fn law_lock_async_is_a_step<T>(
    before: Course<T>,
    post: MutexView<T>,
    r: Progress<(), Guard<T>>,
    continuation: u64,
)
    requires
        mutex::lock_pass(
            before.mutex,
            post,
            r,
            before.mutex.queued_async(continuation),
            Pause::Await(continuation),
        ),
    ensures
        led(
            before,
            attempt_steps(before.mutex, Some(MutexStep::QueueAsync(continuation))),
            post,
            Seq::empty(),
        ),
{
    if before.mutex.inner is Some {
        lemma_led_by_one(before, MutexStep::Take);
    } else {
        lemma_led_by_one(before, MutexStep::QueueAsync(continuation));
    }
}

/// Each call of `lock_sync` is a step of the mutex, or none.
pub proof fn law_lock_sync_is_a_step<T>(
    before: Course<T>,
    post: MutexView<T>,
    r: Progress<(), Guard<T>>,
    caller: Caller,
)
    requires
        mutex::lock_pass(
            before.mutex,
            post,
            r,
            before.mutex.contended(caller),
            mutex::sync_pause(caller),
        ),
    ensures
        led(before, attempt_steps(before.mutex, sync_listing(caller)), post, Seq::empty()),
{
    if before.mutex.inner is Some {
        lemma_led_by_one(before, MutexStep::Take);
    } else if caller.can_block {
        lemma_led_by_one(before, MutexStep::Queue(caller.thread));
    }
}

/// Each call of `lock_spin_timeout` is a step of the mutex, or none.
pub proof fn law_lock_spin_timeout_is_a_step<T>(
    before: Course<T>,
    post: MutexView<T>,
    r: Progress<(), Option<Guard<T>>>,
    now: Moment,
    deadline: Moment,
)
    requires
        mutex::spin_timeout_pass(before.mutex, post, r, now, deadline),
    ensures
        led(before, attempt_steps(before.mutex, None), post, Seq::empty()),
{
    if before.mutex.inner is Some {
        lemma_led_by_one(before, MutexStep::Take);
    }
}

/// Each call of `lock_block_timeout` is a step of the mutex, or none where it gives up.
pub proof fn law_lock_block_timeout_is_a_step<T>(
    before: Course<T>,
    post: MutexView<T>,
    r: Progress<(), Option<Guard<T>>>,
    thread: u64,
    now: Moment,
    later: Moment,
    deadline: Moment,
)
    requires
        mutex::block_timeout_pass(before.mutex, post, r, thread, now, later, deadline),
    ensures
        led(
            before,
            attempt_steps(
                before.mutex,
                listing_in_time(MutexStep::Queue(thread), !now.spec_reached(deadline)),
            ),
            post,
            Seq::empty(),
        ),
{
    if before.mutex.inner is Some {
        lemma_led_by_one(before, MutexStep::Take);
    } else if !now.spec_reached(deadline) {
        lemma_led_by_one(before, MutexStep::Queue(thread));
    }
}

/// Each step of `lock_async_timeout` is a step of the mutex, or none where it gives up.
pub proof fn law_lock_async_timeout_is_a_step<T>(
    before: Course<T>,
    post: MutexView<T>,
    r: Progress<(), Option<Guard<T>>>,
    timed_out: bool,
    continuation: u64,
    now: Moment,
    deadline: Moment,
)
    requires
        mutex::async_timeout_pass(
            before.mutex,
            post,
            r,
            timed_out,
            continuation,
            now,
            deadline,
        ),
    ensures
        led(
            before,
            if timed_out {
                Seq::empty()
            } else {
                attempt_steps(
                    before.mutex,
                    listing_in_time(
                        MutexStep::QueueAsync(continuation),
                        !now.spec_reached(deadline),
                    ),
                )
            },
            post,
            Seq::empty(),
        ),
{
    if before.mutex.inner is Some {
        lemma_led_by_one(before, MutexStep::Take);
    } else if !now.spec_reached(deadline) {
        lemma_led_by_one(before, MutexStep::QueueAsync(continuation));
    }
}

/// Each call of `lock_sync_timeout` is a step of the mutex, or none.
pub proof fn law_lock_sync_timeout_is_a_step<T>(
    before: Course<T>,
    post: MutexView<T>,
    r: Progress<(), Option<Guard<T>>>,
    caller: Caller,
    now: Moment,
    later: Moment,
    deadline: Moment,
)
    requires
        mutex::sync_timeout_pass(before.mutex, post, r, caller, now, later, deadline),
    ensures
        led(
            before,
            attempt_steps(
                before.mutex,
                listing_in_time(
                    MutexStep::Queue(caller.thread),
                    caller.can_block && !now.spec_reached(deadline),
                ),
            ),
            post,
            Seq::empty(),
        ),
{
    if before.mutex.inner is Some {
        lemma_led_by_one(before, MutexStep::Take);
    } else if caller.can_block && !now.spec_reached(deadline) {
        lemma_led_by_one(before, MutexStep::Queue(caller.thread));
    }
}

/// A call of `unlock` is two steps of the mutex: the lock is given back, and the waiting ones are
/// let go.
pub proof fn law_unlock_is_two_steps<T>(before: Course<T>, value: T)
    requires
        before.mutex.inner is None,
    ensures
        led(
            before,
            seq![MutexStep::Release(value), MutexStep::Drain],
            before.mutex.released(value).drained(),
            before.mutex.waiters(),
        ),
{
    reveal_with_fuel(run, 3);
    reveal_with_fuel(allowed, 3);
    let steps = seq![MutexStep::Release(value), MutexStep::Drain];
    assert(steps.drop_last() =~= seq![MutexStep::Release(value)]);
    assert(steps.drop_last().drop_last() =~= Seq::<MutexStep<T>>::empty());
}

/// Work under the lock that leaves `value` as the data, as `with_sync`, `with_mut_sync`,
/// `with_async` and `with_mut_async` do it on a free mutex, is three steps of the mutex.
pub proof fn law_work_under_the_lock_is_three_steps<T>(before: Course<T>, value: T)
    requires
        before.mutex.wf(),
        before.mutex.inner is Some,
    ensures
        led(
            before,
            seq![MutexStep::Take, MutexStep::Release(value), MutexStep::Drain],
            before.mutex.released(value),
            Seq::empty(),
        ),
{
    let first = seq![MutexStep::<T>::Take];
    let rest = seq![MutexStep::Release(value), MutexStep::Drain];
    lemma_led_by_one(before, MutexStep::Take);
    law_unlock_is_two_steps(run(before, first), value);
    law_courses_go_on(before, first, rest);
    assert(first + rest =~= seq![MutexStep::Take, MutexStep::Release(value), MutexStep::Drain]);
    assert(before.mutex.released(value) =~= before.mutex.taken().released(value).drained());
    assert(before.mutex.taken().waiters() =~= Seq::<Wake>::empty());
}

/// Nobody is left asleep on a free mutex: once the lock is free and everybody who gave it back has
/// let the waiting ones go, both waiting lists are empty.
pub proof fn law_nobody_is_left_waiting<T>(id: int, value: T, steps: Seq<MutexStep<T>>)
    requires
        possible(id, value, steps),
    ensures
        ({
            let c = course(id, value, steps);
            c.mutex.inner is Some && c.pending == 0 ==> c.mutex.waiters().len() == 0
        }),
{
    lemma_waiting_needs_a_holder(id, value, steps);
}

proof fn lemma_waiting_needs_a_holder<T>(id: int, value: T, steps: Seq<MutexStep<T>>)
    requires
        possible(id, value, steps),
    ensures
        ({
            let c = course(id, value, steps);
            c.mutex.waiters().len() > 0 ==> c.mutex.inner is None || c.pending > 0
        }),
    decreases steps.len(),
{
    if steps.len() > 0 {
        lemma_waiting_needs_a_holder(id, value, steps.drop_last());
    }
}

/// Mutual exclusion: between any two users that take the lock somebody gives it back.
pub proof fn law_mutual_exclusion<T>(id: int, value: T, steps: Seq<MutexStep<T>>, i: int, j: int)
    requires
        possible(id, value, steps),
        0 <= i < j < steps.len(),
        steps[i] is Take,
        steps[j] is Take,
    ensures
        exists|k: int| i < k < j && #[trigger] steps[k] is Release,
{
    if forall|k: int| i < k < j ==> !(#[trigger] steps[k] is Release) {
        lemma_held_until_released(id, value, steps, i, j);
        lemma_possible_prefix(id, value, steps, j + 1);
        assert(steps.take(j + 1).drop_last() =~= steps.take(j));
    }
}

proof fn lemma_possible_prefix<T>(id: int, value: T, steps: Seq<MutexStep<T>>, n: int)
    requires
        possible(id, value, steps),
        0 <= n <= steps.len(),
    ensures
        possible(id, value, steps.take(n)),
    decreases steps.len(),
{
    if n < steps.len() {
        lemma_possible_prefix(id, value, steps.drop_last(), n);
        assert(steps.drop_last().take(n) =~= steps.take(n));
    } else {
        assert(steps.take(n) =~= steps);
    }
}

proof fn lemma_held_until_released<T>(id: int, value: T, steps: Seq<MutexStep<T>>, i: int, n: int)
    requires
        possible(id, value, steps),
        0 <= i < n <= steps.len(),
        steps[i] is Take,
        forall|k: int| i < k < n ==> !(#[trigger] steps[k] is Release),
    ensures
        course(id, value, steps.take(n)).mutex.inner is None,
    decreases n,
{
    assert(steps.take(n).drop_last() =~= steps.take(n - 1));
    if n > i + 1 {
        lemma_held_until_released(id, value, steps, i, n - 1);
        assert(!(steps[n - 1] is Release));
    }
}

/// Whoever takes the lock finds the data as the last holder left it.
pub proof fn law_data_is_what_was_written_last<T>(id: int, value: T, steps: Seq<MutexStep<T>>)
    requires
        possible(id, value, steps),
    ensures
        ({
            let c = course(id, value, steps);
            c.mutex.inner is Some ==> c.mutex.inner == Some(last_written(value, steps))
        }),
    decreases steps.len(),
{
    if steps.len() > 0 {
        law_data_is_what_was_written_last(id, value, steps.drop_last());
    }
}

/// Everybody who joined the waiting ones either still waits or has been woken, once for each time
/// that they joined.
pub proof fn law_waiters_are_woken_once<T>(id: int, value: T, steps: Seq<MutexStep<T>>)
    requires
        possible(id, value, steps),
    ensures
        arrivals(steps) =~= course(id, value, steps).woken.to_multiset().add(
            course(id, value, steps).mutex.waiters().to_multiset(),
        ),
    decreases steps.len(),
{
    broadcast use vstd::seq_lib::group_to_multiset_ensures;

    if steps.len() == 0 {
        let m = course(id, value, steps).mutex;
        assert(m.waiters() =~= Seq::<Wake>::empty());
    } else {
        let before = course(id, value, steps.drop_last());
        let after = course(id, value, steps);
        law_waiters_are_woken_once(id, value, steps.drop_last());
        match steps.last() {
            MutexStep::Queue(thread) => {
                let threads = thread_wakes(before.mutex.sync);
                let rest = continuation_wakes(before.mutex.asynch);
                assert(thread_wakes(after.mutex.sync) =~= threads.push(Wake::Thread(thread)));
                vstd::seq_lib::lemma_multiset_commutative(threads, rest);
                vstd::seq_lib::lemma_multiset_commutative(
                    threads.push(Wake::Thread(thread)),
                    rest,
                );
            },
            MutexStep::QueueAsync(continuation) => {
                assert(after.mutex.waiters() =~= before.mutex.waiters().push(
                    Wake::Continuation(continuation),
                ));
            },
            MutexStep::Drain => {
                vstd::seq_lib::lemma_multiset_commutative(before.woken, before.mutex.waiters());
                assert(after.mutex.waiters() =~= Seq::<Wake>::empty());
            },
            _ => {
                assert(after.mutex.waiters() =~= before.mutex.waiters());
            },
        }
    }
}

/// No wake-up is lost: a thread that joined the waiting ones still waits or has been woken since.
pub proof fn law_no_wake_up_is_lost<T>(
    id: int,
    value: T,
    steps: Seq<MutexStep<T>>,
    i: int,
    thread: u64,
)
    requires
        possible(id, value, steps),
        0 <= i < steps.len(),
        steps[i] == MutexStep::<T>::Queue(thread),
    ensures
        ({
            let then = course(id, value, steps.take(i + 1));
            let now = course(id, value, steps);
            let wake = Wake::Thread(thread);
            now.mutex.sync.contains(thread) || now.woken.to_multiset().count(wake)
                > then.woken.to_multiset().count(wake)
        }),
{
    broadcast use vstd::seq_lib::group_to_multiset_ensures;

    let prefix = steps.take(i + 1);
    let then = course(id, value, prefix);
    let now = course(id, value, steps);
    let wake = Wake::Thread(thread);
    lemma_possible_prefix(id, value, steps, i + 1);
    law_waiters_are_woken_once(id, value, prefix);
    law_waiters_are_woken_once(id, value, steps);
    lemma_arrivals_grow(steps, i + 1, wake);
    assert(prefix.last() == steps[i]);
    assert(then.mutex.waiters()[then.mutex.sync.len() - 1] == wake);
    assert(then.mutex.waiters().contains(wake));
    if !now.mutex.sync.contains(thread) {
        if now.mutex.waiters().contains(wake) {
            let k = now.mutex.waiters().index_of(wake);
            assert(now.mutex.waiters()[k] == wake);
            assert(k < now.mutex.sync.len());
            assert(now.mutex.sync[k] == thread);
        }
    }
}

/// No wake-up is lost: a continuation that joined the waiting ones still waits or has been
/// completed since.
pub proof fn law_no_completion_is_lost<T>(
    id: int,
    value: T,
    steps: Seq<MutexStep<T>>,
    i: int,
    continuation: u64,
)
    requires
        possible(id, value, steps),
        0 <= i < steps.len(),
        steps[i] == MutexStep::<T>::QueueAsync(continuation),
    ensures
        ({
            let then = course(id, value, steps.take(i + 1));
            let now = course(id, value, steps);
            let wake = Wake::Continuation(continuation);
            now.mutex.asynch.contains(continuation) || now.woken.to_multiset().count(wake)
                > then.woken.to_multiset().count(wake)
        }),
{
    broadcast use vstd::seq_lib::group_to_multiset_ensures;

    let prefix = steps.take(i + 1);
    let then = course(id, value, prefix);
    let now = course(id, value, steps);
    let wake = Wake::Continuation(continuation);
    lemma_possible_prefix(id, value, steps, i + 1);
    law_waiters_are_woken_once(id, value, prefix);
    law_waiters_are_woken_once(id, value, steps);
    lemma_arrivals_grow(steps, i + 1, wake);
    assert(prefix.last() == steps[i]);
    assert(then.mutex.waiters()[then.mutex.waiters().len() - 1] == wake);
    assert(then.mutex.waiters().contains(wake));
    if !now.mutex.asynch.contains(continuation) {
        if now.mutex.waiters().contains(wake) {
            let k = now.mutex.waiters().index_of(wake);
            assert(now.mutex.waiters()[k] == wake);
            assert(k >= now.mutex.sync.len());
            assert(now.mutex.asynch[k - now.mutex.sync.len()] == continuation);
        }
    }
}

proof fn lemma_arrivals_grow<T>(steps: Seq<MutexStep<T>>, n: int, wake: Wake)
    requires
        0 <= n <= steps.len(),
    ensures
        arrivals(steps.take(n)).count(wake) <= arrivals(steps).count(wake),
    decreases steps.len(),
{
    if n < steps.len() {
        lemma_arrivals_grow(steps.drop_last(), n, wake);
        assert(steps.drop_last().take(n) =~= steps.take(n));
    } else {
        assert(steps.take(n) =~= steps);
    }
}

/// A free mutex is never given up, be the deadline past or not.
pub proof fn law_free_mutex_is_not_given_up<T>(
    pre: MutexView<T>,
    post: MutexView<T>,
    r: Progress<(), Option<Guard<T>>>,
    caller: Caller,
    now: Moment,
    later: Moment,
    deadline: Moment,
)
    requires
        pre.inner is Some,
        mutex::sync_timeout_pass(pre, post, r, caller, now, later, deadline),
    ensures
        r matches Progress::Done(Some(guard)) && Some(guard@) == pre.inner,
        post == pre.taken(),
{
}

/// A locked mutex is given up only once the deadline has come, and then it is left as it was.
pub proof fn law_given_up_only_at_the_deadline<T>(
    pre: MutexView<T>,
    post: MutexView<T>,
    r: Progress<(), Option<Guard<T>>>,
    caller: Caller,
    now: Moment,
    later: Moment,
    deadline: Moment,
)
    requires
        mutex::sync_timeout_pass(pre, post, r, caller, now, later, deadline),
    ensures
        r == Progress::<(), Option<Guard<T>>>::Done(None) <==> pre.inner is None
            && now.spec_reached(deadline),
        r == Progress::<(), Option<Guard<T>>>::Done(None) ==> post == pre,
{
}

/// A free mutex is taken, whatever the deadline and the time, however it is asked for; only an
/// async task whose race is lost has given up before.
pub proof fn law_free_mutex_is_taken_at_any_time<T>(
    pre: MutexView<T>,
    post: MutexView<T>,
    r: Progress<(), Option<Guard<T>>>,
    caller: Caller,
    continuation: u64,
    deadline: web_time::Instant,
)
    requires
        pre.inner is Some,
        mutex::spin_timeout_timed(pre, post, r, deadline) || mutex::block_timeout_timed(
            pre,
            post,
            r,
            caller.thread,
            deadline,
        ) || mutex::sync_timeout_timed(pre, post, r, caller, deadline)
            || mutex::async_timeout_timed(pre, post, r, false, continuation, deadline),
    ensures
        post == pre.taken(),
        r matches Progress::Done(Some(guard)) && Some(guard@) == pre.inner && guard.id() == pre.id,
{
}

/// An async task gives a mutex up only when the deadline has won its race, or when the mutex is
/// locked at the deadline.
pub proof fn law_task_gives_up_only_out_of_time<T>(
    pre: MutexView<T>,
    post: MutexView<T>,
    r: Progress<(), Option<Guard<T>>>,
    timed_out: bool,
    continuation: u64,
    now: Moment,
    deadline: Moment,
)
    requires
        mutex::async_timeout_pass(pre, post, r, timed_out, continuation, now, deadline),
    ensures
        r == Progress::<(), Option<Guard<T>>>::Done(None) <==> timed_out || pre.inner is None
            && now.spec_reached(deadline),
        r == Progress::<(), Option<Guard<T>>>::Done(None) ==> post == pre,
{
}

/// What one holder gives back the next one gets: unlocking and locking again returns the data that
/// was given back, and nobody is listed as waiting in between.
pub proof fn law_unlock_then_lock<T>(mutex: MutexView<T>, value: T)
    requires
        mutex.inner is None,
    ensures
        mutex.released(value).drained().inner == Some(value),
        mutex.released(value).drained().wf(),
        mutex.released(value).drained().waiters().len() == 0,
        mutex.released(value).drained().taken() == mutex.drained(),
{
}

} // verus!

//! What holds of a condition variable however waits, notifications and deadlines interleave.
use crate::condvar::{AsyncWaiter, BlockTimeoutPhase, SpinTimeoutPhase};
use crate::step;
use crate::step::{Pause, Wake};
use crate::time::Moment;
use crate::wait_spec;
use crate::wait_spec::{CondvarView, Decision, Scene};
use vstd::multiset::Multiset;
use vstd::prelude::*;

verus! {

/// What happens to a condition variable.
pub enum CondvarStep {
    /// A spinning waiter joins.
    WaitSpin(u64),
    /// A thread joins.
    WaitSync(u64),
    /// An async task joins.
    WaitAsync(AsyncWaiter),
    /// One waiter is notified.
    NotifyOne,
    /// All waiters are notified.
    NotifyAll,
    /// A spinning waiter's deadline comes.
    TimeoutSpin(u64),
    /// A thread's deadline comes.
    TimeoutSync(u64),
    /// The deadline of the async task with this number comes.
    TimeoutAsync(u64),
}

/// A condition variable in the course of its use.
pub struct Course {
    pub condvar: CondvarView,
    /// Who has been woken so far.
    pub woken: Seq<Wake>,
    /// Who has timed out so far.
    pub withdrawn: Multiset<Wake>,
}

impl Course {
    /// A new condition variable.
    pub open spec fn fresh() -> Self {
        Course {
            condvar: CondvarView::idle(),
            woken: Seq::empty(),
            withdrawn: Multiset::empty(),
        }
    }

    /// The course after a step.
    pub open spec fn after(self, step: CondvarStep) -> Self {
        match step {
            CondvarStep::WaitSpin(flag) => Course { condvar: self.condvar.with_spin(flag), ..self },
            CondvarStep::WaitSync(thread) => Course {
                condvar: self.condvar.with_sync(thread),
                ..self
            },
            CondvarStep::WaitAsync(waiter) => Course {
                condvar: self.condvar.with_async(waiter),
                ..self
            },
            CondvarStep::NotifyOne => Course {
                condvar: self.condvar.after_one(),
                woken: self.woken + self.condvar.next_woken(),
                ..self
            },
            CondvarStep::NotifyAll => Course {
                condvar: CondvarView::idle(),
                woken: self.woken + self.condvar.waiters(),
                ..self
            },
            CondvarStep::TimeoutSpin(flag) => Course {
                condvar: self.condvar.without_spin(flag),
                withdrawn: if self.condvar.spin.contains(flag) {
                    self.withdrawn.insert(Wake::Flag(flag))
                } else {
                    self.withdrawn
                },
                ..self
            },
            CondvarStep::TimeoutSync(thread) => Course {
                condvar: self.condvar.without_sync(thread),
                withdrawn: if self.condvar.sync.contains(thread) {
                    self.withdrawn.insert(Wake::Thread(thread))
                } else {
                    self.withdrawn
                },
                ..self
            },
            CondvarStep::TimeoutAsync(id) => Course {
                condvar: self.condvar.without_async(id),
                woken: self.woken + self.condvar.async_wakes(id),
                ..self
            },
        }
    }
}

/// A course after `steps`.
pub open spec fn run(start: Course, steps: Seq<CondvarStep>) -> Course
    decreases steps.len(),
{
    if steps.len() == 0 {
        start
    } else {
        run(start, steps.drop_last()).after(steps.last())
    }
}

/// The course of a new condition variable that sees `steps`.
pub open spec fn course(steps: Seq<CondvarStep>) -> Course {
    run(Course::fresh(), steps)
}

/// Who has joined the waiting ones, in the form in which they are woken.
pub open spec fn arrivals(steps: Seq<CondvarStep>) -> Multiset<Wake>
    decreases steps.len(),
{
    if steps.len() == 0 {
        Multiset::empty()
    } else {
        let before = arrivals(steps.drop_last());
        match steps.last() {
            CondvarStep::WaitSpin(flag) => before.insert(Wake::Flag(flag)),
            CondvarStep::WaitSync(thread) => before.insert(Wake::Thread(thread)),
            CondvarStep::WaitAsync(waiter) => before.insert(Wake::Continuation(waiter.sender)),
            _ => before,
        }
    }
}

/// Courses go on: what happens in `more` steps after `steps` happens in all of them together.
pub proof fn law_courses_go_on(start: Course, steps: Seq<CondvarStep>, more: Seq<CondvarStep>)
    ensures
        run(start, steps + more) == run(run(start, steps), more),
    decreases more.len(),
{
    if more.len() == 0 {
        assert(steps + more =~= steps);
    } else {
        law_courses_go_on(start, steps, more.drop_last());
        assert((steps + more).drop_last() =~= steps + more.drop_last());
    }
}

/// A call of `notify_one` is a step of the condition variable.
pub proof fn law_notify_one_is_a_step(before: Course)
    ensures
        ({
            let after = run(before, seq![CondvarStep::NotifyOne]);
            after.condvar == before.condvar.after_one() && after.woken == before.woken
                + before.condvar.next_woken()
        }),
{
    lemma_run_of_one(before, CondvarStep::NotifyOne);
}

/// A call of `notify_all` is a step of the condition variable.
pub proof fn law_notify_all_is_a_step(before: Course)
    ensures
        ({
            let after = run(before, seq![CondvarStep::NotifyAll]);
            after.condvar == CondvarView::idle() && after.woken == before.woken
                + before.condvar.waiters()
        }),
{
    lemma_run_of_one(before, CondvarStep::NotifyAll);
}

/// A course after one step.
pub(crate) proof fn lemma_run_of_one(start: Course, step: CondvarStep)
    ensures
        run(start, seq![step]) == start.after(step),
{
    reveal_with_fuel(run, 2);
    assert(seq![step].drop_last() =~= Seq::<CondvarStep>::empty());
}

/// Nobody is lost and nobody is woken twice: everybody who joined still waits, or has been woken,
/// or has timed out, once for each time that they joined.
pub proof fn law_every_waiter_is_accounted_for(steps: Seq<CondvarStep>)
    ensures
        arrivals(steps) =~= course(steps).condvar.waiters().to_multiset().add(
            course(steps).woken.to_multiset(),
        ).add(course(steps).withdrawn),
    decreases steps.len(),
{
    broadcast use vstd::seq_lib::group_to_multiset_ensures;

    if steps.len() == 0 {
        assert(CondvarView::idle().waiters() =~= Seq::<Wake>::empty());
    } else {
        law_every_waiter_is_accounted_for(steps.drop_last());
        let c = course(steps.drop_last());
        let before = c.condvar;
        let after = course(steps).condvar;
        lemma_waiters_split(before);
        lemma_waiters_split(after);
        match steps.last() {
            CondvarStep::WaitSpin(flag) => {
                assert(step::flag_wakes(after.spin) =~= step::flag_wakes(before.spin).push(
                    Wake::Flag(flag),
                ));
            },
            CondvarStep::WaitSync(thread) => {
                assert(step::thread_wakes(after.sync) =~= step::thread_wakes(before.sync).push(
                    Wake::Thread(thread),
                ));
            },
            CondvarStep::WaitAsync(waiter) => {
                assert(wait_spec::waiter_wakes(after.asynch) =~= wait_spec::waiter_wakes(
                    before.asynch,
                ).push(Wake::Continuation(waiter.sender)));
            },
            CondvarStep::NotifyOne => {
                law_one_notification_wakes_one(before);
                vstd::seq_lib::lemma_multiset_commutative(c.woken, before.next_woken());
            },
            CondvarStep::NotifyAll => {
                vstd::seq_lib::lemma_multiset_commutative(c.woken, before.waiters());
                assert(after.waiters() =~= Seq::<Wake>::empty());
            },
            CondvarStep::TimeoutSpin(flag) => {
                before.spin.index_of_first_ensures(flag);
                if before.spin.contains(flag) {
                    let i = before.spin.index_of_first(flag).unwrap();
                    lemma_removed(
                        step::flag_wakes(before.spin),
                        step::flag_wakes(after.spin),
                        i,
                    );
                }
            },
            CondvarStep::TimeoutSync(thread) => {
                before.sync.index_of_first_ensures(thread);
                if before.sync.contains(thread) {
                    let i = before.sync.index_of_first(thread).unwrap();
                    lemma_removed(
                        step::thread_wakes(before.sync),
                        step::thread_wakes(after.sync),
                        i,
                    );
                }
            },
            CondvarStep::TimeoutAsync(id) => {
                wait_spec::waiter_ids(before.asynch).index_of_first_ensures(id);
                vstd::seq_lib::lemma_multiset_commutative(c.woken, before.async_wakes(id));
                if let Some(i) = before.async_position(id) {
                    lemma_removed(
                        wait_spec::waiter_wakes(before.asynch),
                        wait_spec::waiter_wakes(after.asynch),
                        i,
                    );
                    let w = Wake::Continuation(before.asynch[i].sender);
                    assert(before.async_wakes(id) =~= Seq::<Wake>::empty().push(w));
                }
            },
        }
    }
}

/// No notification is lost: a waiter that joined as `wake` still waits, or has been woken since, or
/// has timed out since.
pub proof fn law_no_waiter_is_forgotten(steps: Seq<CondvarStep>, i: int, wake: Wake)
    requires
        0 <= i < steps.len(),
        match steps[i] {
            CondvarStep::WaitSpin(flag) => wake == Wake::Flag(flag),
            CondvarStep::WaitSync(thread) => wake == Wake::Thread(thread),
            CondvarStep::WaitAsync(waiter) => wake == Wake::Continuation(waiter.sender),
            _ => false,
        },
    ensures
        ({
            let then = course(steps.take(i + 1));
            let now = course(steps);
            ||| now.condvar.waiters().contains(wake)
            ||| now.woken.to_multiset().count(wake) > then.woken.to_multiset().count(wake)
            ||| now.withdrawn.count(wake) > then.withdrawn.count(wake)
        }),
{
    broadcast use vstd::seq_lib::group_to_multiset_ensures;

    let prefix = steps.take(i + 1);
    let then = course(prefix);
    law_every_waiter_is_accounted_for(prefix);
    law_every_waiter_is_accounted_for(steps);
    lemma_arrivals_grow(steps, i + 1, wake);
    assert(prefix.last() == steps[i]);
    let waiters = then.condvar.waiters();
    match steps[i] {
        CondvarStep::WaitSpin(_) => {
            assert(waiters[then.condvar.spin.len() - 1] == wake);
        },
        CondvarStep::WaitSync(_) => {
            assert(waiters[then.condvar.spin.len() + then.condvar.sync.len() - 1] == wake);
        },
        _ => {
            assert(waiters[waiters.len() - 1] == wake);
        },
    }
    assert(waiters.contains(wake));
}

proof fn lemma_arrivals_grow(steps: Seq<CondvarStep>, n: int, wake: Wake)
    requires
        0 <= n <= steps.len(),
    ensures
        arrivals(steps.take(n)).count(wake) <= arrivals(steps).count(wake),
    decreases steps.len(),
{
    if n < steps.len() {
        lemma_arrivals_grow(steps.drop_last(), n, wake);
        assert(steps.drop_last().take(n) =~= steps.take(n));
    } else {
        assert(steps.take(n) =~= steps);
    }
}

/// All who wait are those on the three lists.
proof fn lemma_waiters_split(condvar: CondvarView)
    ensures
        condvar.waiters().to_multiset() =~= step::flag_wakes(condvar.spin).to_multiset().add(
            step::thread_wakes(condvar.sync).to_multiset(),
        ).add(wait_spec::waiter_wakes(condvar.asynch).to_multiset()),
{
    let spin = step::flag_wakes(condvar.spin);
    let sync = step::thread_wakes(condvar.sync);
    let asynch = wait_spec::waiter_wakes(condvar.asynch);
    vstd::seq_lib::lemma_multiset_commutative(spin, sync);
    vstd::seq_lib::lemma_multiset_commutative(spin + sync, asynch);
}

/// A list without one entry.
proof fn lemma_removed(before: Seq<Wake>, after: Seq<Wake>, i: int)
    requires
        0 <= i < before.len(),
        after =~= before.remove(i),
    ensures
        before.to_multiset() =~= after.to_multiset().insert(before[i]),
{
    broadcast use vstd::seq_lib::group_to_multiset_ensures;

    assert(after == before.remove(i));
    assert(before.to_multiset().count(before[i]) > 0);
}

/// A notification wakes one waiter if there is any, and takes it off, and it alone.
pub proof fn law_one_notification_wakes_one(condvar: CondvarView)
    ensures
        condvar.next_woken().len() == if condvar.waiters().len() > 0 {
            1int
        } else {
            0
        },
        condvar.waiters().to_multiset() =~= condvar.after_one().waiters().to_multiset().add(
            condvar.next_woken().to_multiset(),
        ),
{
    broadcast use vstd::seq_lib::group_to_multiset_ensures;

    lemma_waiters_split(condvar);
    lemma_waiters_split(condvar.after_one());
    let after = condvar.after_one();
    if condvar.spin.len() > 0 {
        let w = Wake::Flag(condvar.spin.last());
        assert(step::flag_wakes(condvar.spin) =~= step::flag_wakes(after.spin).push(w));
        assert(condvar.next_woken() =~= Seq::<Wake>::empty().push(w));
    } else if condvar.sync.len() > 0 {
        let w = Wake::Thread(condvar.sync.last());
        assert(step::thread_wakes(condvar.sync) =~= step::thread_wakes(after.sync).push(w));
        assert(condvar.next_woken() =~= Seq::<Wake>::empty().push(w));
    } else if condvar.asynch.len() > 0 {
        let w = Wake::Continuation(condvar.asynch.last().sender);
        assert(wait_spec::waiter_wakes(condvar.asynch) =~= wait_spec::waiter_wakes(
            after.asynch,
        ).push(w));
        assert(condvar.next_woken() =~= Seq::<Wake>::empty().push(w));
    }
}

/// The condition variable after `n` notifications of one waiter each.
pub open spec fn notified(condvar: CondvarView, n: nat) -> CondvarView
    decreases n,
{
    if n == 0 {
        condvar
    } else {
        notified(condvar, (n - 1) as nat).after_one()
    }
}

/// The wake-ups that `n` notifications of one waiter each ask for, in order.
pub open spec fn woken_singly(condvar: CondvarView, n: nat) -> Seq<Wake>
    decreases n,
{
    if n == 0 {
        Seq::empty()
    } else {
        woken_singly(condvar, (n - 1) as nat) + notified(condvar, (n - 1) as nat).next_woken()
    }
}

/// Notifications of one waiter each add up: they wake, each once, those who no longer wait
/// afterwards. As many as there are waiters leave nobody waiting, and so wake whom a notification
/// of all wakes; fewer leave the rest.
pub proof fn law_notifications_add_up(condvar: CondvarView, n: nat)
    ensures
        notified(condvar, n).waiters().len() == if n >= condvar.waiters().len() {
            0
        } else {
            condvar.waiters().len() - n
        },
        condvar.waiters().to_multiset() =~= woken_singly(condvar, n).to_multiset().add(
            notified(condvar, n).waiters().to_multiset(),
        ),
        n >= condvar.waiters().len() ==> woken_singly(condvar, n).to_multiset()
            =~= condvar.waiters().to_multiset(),
    decreases n,
{
    broadcast use vstd::seq_lib::group_to_multiset_ensures;

    if n > 0 {
        law_notifications_add_up(condvar, (n - 1) as nat);
        let before = notified(condvar, (n - 1) as nat);
        let after = before.after_one();
        assert(after.waiters().len() == if before.waiters().len() > 0 {
            before.waiters().len() - 1
        } else {
            0
        });
        law_one_notification_wakes_one(before);
        vstd::seq_lib::lemma_multiset_commutative(
            woken_singly(condvar, (n - 1) as nat),
            before.next_woken(),
        );
    }
    if notified(condvar, n).waiters().len() == 0 {
        assert(notified(condvar, n).waiters() =~= Seq::<Wake>::empty());
    }
}

/// A waiter is listed before the mutex is free: when a wait has started, the mutex is free and a
/// notification of all wakes the waiter. So no notification falls between looking at the data and
/// waiting. This is the thread that blocks.
pub proof fn law_blocked_waiter_is_listed_in_time<T>(before: Scene<T>, value: T, thread: u64)
    ensures
        ({
            let after = before.given_back(value).with_condvar(before.condvar.with_sync(thread));
            after.mutex.inner == Some(value) && after.condvar.waiters().contains(
                Wake::Thread(thread),
            )
        }),
{
    let condvar = before.condvar.with_sync(thread);
    let i = (condvar.spin.len() + condvar.sync.len() - 1) as int;
    assert(condvar.waiters()[i] == Wake::Thread(thread));
}

/// A waiter is listed before the mutex is free, and is the next to be notified. This is the one
/// that spins.
pub proof fn law_spinning_waiter_is_listed_in_time<T>(before: Scene<T>, value: T, flag: u64)
    ensures
        ({
            let after = before.given_back(value).with_condvar(before.condvar.with_spin(flag));
            after.mutex.inner == Some(value) && after.condvar.waiters().contains(Wake::Flag(flag))
                && after.condvar.next_woken() == seq![Wake::Flag(flag)]
        }),
{
    let condvar = before.condvar.with_spin(flag);
    let i = (condvar.spin.len() - 1) as int;
    assert(condvar.waiters()[i] == Wake::Flag(flag));
}

/// A waiter is listed before the mutex is free. This is the async task.
pub proof fn law_async_waiter_is_listed_in_time<T>(before: Scene<T>, value: T, waiter: AsyncWaiter)
    ensures
        ({
            let after = before.given_back(value).with_condvar(before.condvar.with_async(waiter));
            after.mutex.inner == Some(value) && after.condvar.waiters().contains(
                Wake::Continuation(waiter.sender),
            )
        }),
{
    let condvar = before.condvar.with_async(waiter);
    let i = (condvar.waiters().len() - 1) as int;
    assert(condvar.waiters()[i] == Wake::Continuation(waiter.sender));
}

/// Starting to wait lets everybody go who waited for the mutex.
pub proof fn law_waiting_frees_the_mutex<T>(before: Scene<T>, value: T)
    ensures
        before.given_back(value).mutex.wf(),
        before.given_back(value).mutex.inner == Some(value),
        before.given_back(value).wakes == before.wakes + before.mutex.waiters(),
{
}

/// A blocked wait reports a timeout only if its deadline has come while no notification had taken
/// it off the list: what a notification has taken off goes on without a timeout.
pub proof fn law_notified_thread_does_not_time_out(
    condvar: CondvarView,
    phase: BlockTimeoutPhase,
    thread: u64,
    now: Moment,
    deadline: Moment,
)
    requires
        !(phase is Relock),
    ensures
        wait_spec::block_timeout_decision(condvar, phase, thread, now, deadline)
            == Decision::<BlockTimeoutPhase>::Relock(true) ==> now.spec_reached(deadline)
            && condvar.sync.contains(thread),
        !condvar.sync.contains(thread) && (phase is Parked || now.spec_reached(deadline))
            ==> wait_spec::block_timeout_decision(condvar, phase, thread, now, deadline)
            == Decision::<BlockTimeoutPhase>::Relock(false),
{
}

/// A spinning wait reports a timeout only if its deadline has come while no notification had taken
/// it off the list: what a notification has taken off goes on, without a timeout, once the flag is
/// raised.
pub proof fn law_notified_spinner_does_not_time_out(
    condvar: CondvarView,
    flag: u64,
    raised: bool,
    now: Moment,
    deadline: Moment,
)
    ensures
        ({
            let decision = wait_spec::spin_timeout_decision(
                condvar,
                SpinTimeoutPhase::Spinning(flag),
                raised,
                now,
                deadline,
            );
            &&& decision == Decision::<SpinTimeoutPhase>::Relock(true) ==> !raised
                && now.spec_reached(deadline) && condvar.spin.contains(flag)
            &&& !condvar.spin.contains(flag) ==> decision
                != Decision::<SpinTimeoutPhase>::Relock(true)
        }),
        wait_spec::spin_timeout_decision(
            condvar,
            SpinTimeoutPhase::Handoff(flag),
            raised,
            now,
            deadline,
        ) != Decision::<SpinTimeoutPhase>::Relock(true),
{
}

/// The deadline ends a blocked wait: a look at the clock then goes on to take the mutex, and a wait
/// that comes back from being parked looks at the clock or goes on.
pub proof fn law_deadline_ends_a_blocked_wait(
    condvar: CondvarView,
    thread: u64,
    now: Moment,
    deadline: Moment,
)
    requires
        now.spec_reached(deadline),
    ensures
        wait_spec::block_timeout_decision(
            condvar,
            BlockTimeoutPhase::Tick,
            thread,
            now,
            deadline,
        ) is Relock,
        ({
            let decision = wait_spec::block_timeout_decision(
                condvar,
                BlockTimeoutPhase::Parked,
                thread,
                now,
                deadline,
            );
            decision is Relock || decision == Decision::Keep(
                BlockTimeoutPhase::Tick,
                Pause::Yield,
            )
        }),
{
}

/// The deadline ends a spinning wait, unless a notification has chosen it, whose flag it then waits
/// for.
pub proof fn law_deadline_ends_a_spinning_wait(
    condvar: CondvarView,
    flag: u64,
    raised: bool,
    now: Moment,
    deadline: Moment,
)
    requires
        now.spec_reached(deadline),
    ensures
        ({
            let decision = wait_spec::spin_timeout_decision(
                condvar,
                SpinTimeoutPhase::Spinning(flag),
                raised,
                now,
                deadline,
            );
            decision is Relock || !condvar.spin.contains(flag) && decision == Decision::Keep(
                SpinTimeoutPhase::Handoff(flag),
                Pause::Yield,
            )
        }),
{
}

/// The numbers that are given out from the start on.
pub open spec fn nth_id(n: nat) -> u64
    decreases n,
{
    if n == 0 {
        0
    } else {
        wait_spec::id_after(nth_id((n - 1) as nat))
    }
}

/// No number is given out twice before all have been given out once.
pub proof fn law_waiter_numbers_are_distinct(i: nat, j: nat)
    requires
        i < j <= u64::MAX,
    ensures
        nth_id(i) != nth_id(j),
{
    lemma_nth_id(i);
    lemma_nth_id(j);
}

proof fn lemma_nth_id(n: nat)
    requires
        n <= u64::MAX,
    ensures
        nth_id(n) == n,
    decreases n,
{
    if n > 0 {
        lemma_nth_id((n - 1) as nat);
    }
}

/// An async task whose deadline comes takes itself off the list and nobody else, where numbers are
/// distinct, and it is its own continuation that is completed.
pub proof fn law_timed_out_task_takes_itself_off(condvar: CondvarView, position: int)
    requires
        0 <= position < condvar.asynch.len(),
        wait_spec::waiter_ids(condvar.asynch).no_duplicates(),
    ensures
        ({
            let waiter = condvar.asynch[position];
            &&& condvar.without_async(waiter.id).asynch == condvar.asynch.remove(position)
            &&& condvar.async_wakes(waiter.id) == seq![Wake::Continuation(waiter.sender)]
        }),
{
    let ids = wait_spec::waiter_ids(condvar.asynch);
    let id = condvar.asynch[position].id;
    ids.index_of_first_ensures(id);
    assert(ids[position] == id);
    assert(ids.contains(id));
}

/// A wait that times out leaves the list: where the thread was listed once, no notification goes to
/// it any more.
pub proof fn law_timed_out_thread_is_off_the_list(condvar: CondvarView, thread: u64)
    requires
        condvar.sync.no_duplicates(),
    ensures
        !condvar.without_sync(thread).sync.contains(thread),
        forall|other: u64|
            other != thread ==> (condvar.sync.contains(other) <==> #[trigger] condvar.without_sync(
                thread,
            ).sync.contains(other)),
{
    lemma_without_first(condvar.sync, thread);
}

/// A wait that times out leaves the list: where the flag was listed once, no notification goes to
/// it any more.
pub proof fn law_timed_out_spinner_is_off_the_list(condvar: CondvarView, flag: u64)
    requires
        condvar.spin.no_duplicates(),
    ensures
        !condvar.without_spin(flag).spin.contains(flag),
        forall|other: u64|
            other != flag ==> (condvar.spin.contains(other) <==> #[trigger] condvar.without_spin(
                flag,
            ).spin.contains(other)),
{
    lemma_without_first(condvar.spin, flag);
}

proof fn lemma_without_first(list: Seq<u64>, id: u64)
    requires
        list.no_duplicates(),
    ensures
        !list.remove_value(id).contains(id),
        forall|other: u64|
            other != id ==> (list.contains(other) <==> #[trigger] list.remove_value(id).contains(
                other,
            )),
{
    list.index_of_first_ensures(id);
    if list.contains(id) {
        let i = list.index_of_first(id).unwrap();
        let rest = list.remove_value(id);
        assert(rest == list.remove(i));
        assert forall|other: u64| other != id implies (list.contains(other)
            <==> #[trigger] rest.contains(other)) by {
            if list.contains(other) {
                let j = list.index_of(other);
                assert(list[j] == other);
                if j < i {
                    assert(rest[j] == other);
                } else {
                    assert(rest[j - 1] == other);
                }
            }
        }
    }
}

} // verus!

//! What the smaller calls come to: what is given back, and what changes, for what was given.
use crate::audio_worklet;
use crate::audio_worklet::{NodeAction, NodePhase, NodeProgress};
use crate::condvar::Condvar;
use crate::guard::Guard;
use crate::mpsc::{RecvError, RecvTimeoutError, SendError, TryRecvError};
use crate::mutex::Mutex;
use crate::race;
use crate::race::Race;
use crate::spinlock::Spinlock;
use crate::step::Wake;
use crate::time;
use crate::time::Moment;
use vstd::prelude::*;

verus! {

/// A deadline has come exactly if it does not lie ahead, and what is left until it is the distance.
pub proof fn law_deadlines_come_and_run_down(
    now: &Moment,
    deadline: Moment,
    reached: bool,
    left: u128,
)
    requires
        call_ensures(Moment::reached, (now, deadline), reached),
        call_ensures(Moment::until, (now, deadline), left),
    ensures
        reached <==> now.nanos >= deadline.nanos,
        reached <==> left == 0,
        !reached ==> left == deadline.nanos - now.nanos,
{
}

/// The moment of an instant in a step is how far the clock measures it to lie after the reading.
pub proof fn law_moments_are_distances_from_the_reading(
    reading: &web_time::Instant,
    instant: &web_time::Instant,
    r: Moment,
)
    requires
        call_ensures(time::moment, (reading, instant), r),
    ensures
        r.nanos == time::nanos_between(*reading, *instant),
{
}

/// The thread that keeps a deadline sleeps exactly until the deadline, and not at all if it has
/// come.
pub proof fn law_timer_sleeps_until_the_deadline(now: Moment, deadline: Moment, r: Option<u128>)
    requires
        call_ensures(race::timer_delay_at, (now, deadline), r),
    ensures
        r is None <==> now.nanos >= deadline.nanos,
        r matches Some(nanos) ==> nanos == deadline.nanos - now.nanos,
{
}

/// The thread that keeps a deadline sleeps for as long as the clock, which it reads, shows to be
/// left until the deadline, and not at all if the clock shows that it has come.
pub proof fn law_timer_sleeps_by_the_clock(deadline: web_time::Instant, r: Option<u128>)
    requires
        call_ensures(race::timer_delay, (deadline,), r),
    ensures
        exists|reading: web_time::Instant|
            #![trigger time::nanos_between(reading, deadline)]
            time::read_from_clock(reading)
                && (r is None <==> time::nanos_between(reading, deadline) == 0)
                && (r matches Some(nanos) ==> nanos == time::nanos_between(reading, deadline)),
{
}

/// A race is won by the notification if that has come, and else by the timeout if that has come.
/// What has won is not asked for again; who has not is still asked for.
pub proof fn law_race_is_won_by_who_has_come<N: FnOnce() -> bool, M: FnOnce() -> bool>(
    race: &mut Race,
    notify: N,
    timeout: M,
    r: Option<bool>,
)
    requires
        call_ensures(Race::poll::<N, M>, (race, notify, timeout), r),
    ensures
        r == Some(false) ==> old(race).notify && call_ensures(notify, (), true)
            && !final(race).notify && final(race).timeout == old(race).timeout,
        r == Some(true) ==> old(race).timeout && call_ensures(timeout, (), true)
            && !final(race).timeout && final(race).notify == old(race).notify && (old(race).notify
            ==> call_ensures(notify, (), false)),
        r is None ==> (old(race).notify ==> call_ensures(notify, (), false)) && (old(race).timeout
            ==> call_ensures(timeout, (), false)) && final(race).notify == old(race).notify
            && final(race).timeout == old(race).timeout,
{
}

/// In a new race both are asked for.
pub proof fn law_new_race_is_open(r: Race)
    requires
        call_ensures(Race::new, (), r),
    ensures
        r.notify,
        r.timeout,
{
}

/// A new lock is down and holds its data.
pub proof fn law_new_lock_is_down<T>(data: T, r: Spinlock<T>)
    requires
        call_ensures(Spinlock::<T>::new, (data,), r),
    ensures
        r@ == data,
        !r.is_locked(),
{
}

/// A lock made from its data, or by default, is down and holds the data, or the data's default.
pub proof fn law_locks_are_made_down<T: Default>(
    data: T,
    from: Spinlock<T>,
    default: Spinlock<T>,
)
    requires
        call_ensures(<Spinlock<T> as From<T>>::from, (data,), from),
        call_ensures(<Spinlock<T> as Default>::default, (), default),
    ensures
        from@ == data,
        !from.is_locked(),
        call_ensures(T::default, (), default@),
        !default.is_locked(),
{
}

/// A mutex made from its data, or by default, is free and holds the data, or the data's default,
/// and nobody waits for it.
pub proof fn law_mutexes_are_made_free<T: Default>(data: T, from: Mutex<T>, default: Mutex<T>)
    requires
        call_ensures(<Mutex<T> as From<T>>::from, (data,), from),
        call_ensures(<Mutex<T> as Default>::default, (), default),
    ensures
        from@.inner == Some(data),
        from@.sync.len() == 0,
        from@.asynch.len() == 0,
        default@.inner matches Some(value) && call_ensures(T::default, (), value),
        default@.sync.len() == 0,
        default@.asynch.len() == 0,
{
}

/// By default nobody waits for a condition variable.
pub proof fn law_condvars_are_made_idle(default: Condvar)
    requires
        call_ensures(<Condvar as Default>::default, (), default),
    ensures
        default@.spin.len() == 0,
        default@.sync.len() == 0,
        default@.asynch.len() == 0,
{
}

/// Nobody waits for a mutex that is free.
pub proof fn law_nobody_waits_for_a_free_mutex<T>(mutex: Mutex<T>)
    requires
        mutex.wf(),
        mutex@.inner is Some,
    ensures
        mutex@.sync.len() == 0,
        mutex@.asynch.len() == 0,
{
}

/// Whoever has got the lock can give it back, whatever happens to the data meanwhile.
pub proof fn law_what_was_got_can_be_given_back<T>(
    mutex: &mut Mutex<T>,
    guard: Guard<T>,
    then: &mut Mutex<T>,
    changed: Guard<T>,
    wakes: &mut Vec<Wake>,
)
    requires
        call_ensures(Mutex::<T>::try_lock, (mutex,), Ok(guard)),
        *final(mutex) == *old(then),
        changed.id() == guard.id(),
    ensures
        call_requires(Mutex::<T>::unlock, (then, changed, wakes)),
{
}

/// What an error says tells which error it is.
pub proof fn law_errors_say_what_they_are<T>(
    unsent: &SendError<T>,
    unreceived: &RecvError,
    untried: &TryRecvError,
    untimely: &RecvTimeoutError,
    said: Seq<&'static str>,
)
    requires
        said.len() == 4,
        call_ensures(SendError::<T>::message, (unsent,), said[0]),
        call_ensures(RecvError::message, (unreceived,), said[1]),
        call_ensures(TryRecvError::message, (untried,), said[2]),
        call_ensures(RecvTimeoutError::message, (untimely,), said[3]),
    ensures
        said[0]@ == "sending on a closed channel"@,
        said[1]@ == "receiving on a closed channel"@,
        *untried is Empty ==> said[2]@ == "receiving on an empty channel"@,
        *untried is Disconnected ==> said[2]@ == "receiving on a closed channel"@,
        *untimely is Timeout ==> said[3]@ == "timed out waiting on channel"@,
        *untimely is Disconnected ==> said[3]@ == "channel is empty and disconnected"@,
{
}

/// Who enters gets in exactly if nobody was inside, and then somebody is; who leaves lets the next
/// one in. Neither touches the data.
pub proof fn law_one_gets_in_at_a_time<T>(
    lock: &mut Spinlock<T>,
    entered: bool,
    left: &mut Spinlock<T>,
)
    requires
        call_ensures(Spinlock::<T>::enter, (lock,), entered),
        call_ensures(Spinlock::<T>::leave, (left,), ()),
    ensures
        entered <==> !old(lock).is_locked(),
        final(lock).is_locked(),
        final(lock)@ == old(lock)@,
        !final(left).is_locked(),
        final(left)@ == old(left)@,
{
}

/// `with_mut` runs its work on the data exactly if nobody is inside, and leaves the lock down with
/// the data as the work has left them; else it hands the work back and changes nothing.
pub proof fn law_with_mut_runs_alone<T, F: FnOnce(&mut T) -> R, R>(
    lock: &mut Spinlock<T>,
    f: F,
    r: Result<R, F>,
)
    requires
        call_ensures(Spinlock::<T>::with_mut::<F, R>, (lock, f), r),
    ensures
        r is Err <==> old(lock).is_locked(),
        r matches Err(work) ==> work == f && final(lock)@ == old(lock)@ && final(lock).is_locked(),
        r is Ok ==> !final(lock).is_locked() && exists|data: &mut T, x: R| #[trigger]
            call_ensures(f, (data,), x) && *data == old(lock)@ && *final(data) == final(lock)@ && r
                == Ok::<R, F>(x),
{
}

/// A guard shows its data and lets them be changed, and stays a guard of the same mutex.
pub proof fn law_guards_hold_their_data<T>(
    guard: &Guard<T>,
    shown: &T,
    changed: &mut Guard<T>,
    data: &mut T,
)
    requires
        call_ensures(Guard::<T>::get, (guard,), shown),
        call_ensures(Guard::<T>::get_mut, (changed,), data),
    ensures
        *shown == guard@,
        *old(data) == old(changed)@,
        final(changed)@ == *final(data),
        final(changed).id() == old(changed).id(),
{
}

/// A context has a registered thread exactly if its property says so.
pub proof fn law_registered_is_what_the_property_says(registered: Option<bool>, r: bool)
    requires
        call_ensures(audio_worklet::is_registered, (registered,), r),
    ensures
        r <==> registered == Some(true),
{
}

/// The making of a node, from its first step to its last. Options are made first exactly if there
/// are none; then the address is stored, the node is tried, and the address is deleted, whether or
/// not there is a node; in the end there is a node, or the address comes back with which it began.
pub proof fn law_making_a_node_keeps_the_data(
    data: u32,
    has_options: bool,
    made: bool,
    constructed: bool,
    others: Seq<bool>,
    first: NodeProgress,
    prepared: NodePhase,
    stored: NodePhase,
    tried: NodePhase,
    cleaned: NodePhase,
    actions: Seq<NodeAction>,
    last: NodeProgress,
)
    requires
        others.len() == 3,
        actions.len() == 3,
        call_ensures(
            audio_worklet::audio_worklet_node,
            (NodePhase::New { data, has_options }, made),
            first,
        ),
        if has_options {
            first == NodeProgress::Do(stored, actions[0])
        } else {
            first == NodeProgress::Do(prepared, NodeAction::CreateOptions) && call_ensures(
                audio_worklet::audio_worklet_node,
                (prepared, others[0]),
                NodeProgress::Do(stored, actions[0]),
            )
        },
        call_ensures(
            audio_worklet::audio_worklet_node,
            (stored, others[1]),
            NodeProgress::Do(tried, actions[1]),
        ),
        call_ensures(
            audio_worklet::audio_worklet_node,
            (tried, constructed),
            NodeProgress::Do(cleaned, actions[2]),
        ),
        call_ensures(audio_worklet::audio_worklet_node, (cleaned, others[2]), last),
    ensures
        actions == seq![
            NodeAction::StoreData(data),
            NodeAction::Construct,
            NodeAction::DeleteData,
        ],
        last == NodeProgress::Done(
            if constructed {
                Ok(())
            } else {
                Err(data)
            },
        ),
{
}

/// Options are made first exactly if there are none, and each step but the last has something done.
pub proof fn law_each_step_of_a_node_has_its_action(
    data: u32,
    succeeded: bool,
    with_options: NodeProgress,
    without: NodeProgress,
    prepared: NodeProgress,
    stored: NodeProgress,
    tried: NodeProgress,
)
    requires
        call_ensures(
            audio_worklet::audio_worklet_node,
            (NodePhase::New { data, has_options: true }, succeeded),
            with_options,
        ),
        call_ensures(
            audio_worklet::audio_worklet_node,
            (NodePhase::New { data, has_options: false }, succeeded),
            without,
        ),
        call_ensures(
            audio_worklet::audio_worklet_node,
            (NodePhase::Prepared { data }, succeeded),
            prepared,
        ),
        call_ensures(
            audio_worklet::audio_worklet_node,
            (NodePhase::Stored { data }, succeeded),
            stored,
        ),
        call_ensures(
            audio_worklet::audio_worklet_node,
            (NodePhase::Tried { data }, succeeded),
            tried,
        ),
    ensures
        with_options matches NodeProgress::Do(_, action) && action == NodeAction::StoreData(data),
        without matches NodeProgress::Do(_, action) && action == NodeAction::CreateOptions,
        prepared matches NodeProgress::Do(_, action) && action == NodeAction::StoreData(data),
        stored matches NodeProgress::Do(_, action) && action == NodeAction::Construct,
        tried matches NodeProgress::Do(_, action) && action == NodeAction::DeleteData,
{
}

} // verus!

//! What holds of a channel however its senders' and its receiver's steps interleave.
use crate::condvar::{
    AsyncPhase, AsyncTimeoutPhase, BlockPhase, BlockTimeoutPhase, SpinPhase, SpinTimeoutPhase,
    SyncPhase, SyncTimeoutPhase,
};
use crate::mpsc::{
    RecvError, RecvPhase, RecvTimeoutError, SendError, SendPhase, TryRecvError,
};
use crate::mpsc_spec;
use crate::mpsc_spec::{ChannelScene, ChannelView, Waiting};
use crate::step::{Call, Caller, Pause, Progress};
use crate::time::Moment;
use crate::wait_spec::CondvarView;
use vstd::prelude::*;

verus! {

/// What a user of a channel does.
pub enum ChannelStep<T> {
    /// A sender takes the queue.
    Take,
    /// A sender misses the queue, and its thread waits in the list of its mutex.
    Miss(u64),
    /// A sender misses the queue, and its continuation waits in the list of its mutex.
    MissAsync(u64),
    /// The sender that has the queue appends this value, if there is a receiver, and gives the
    /// queue back.
    Append(T),
    /// The receiver takes a step of `recv_spin`.
    RecvSpin(RecvPhase<SpinPhase>, u64, bool, Caller),
    /// The receiver takes a step of `recv_block`.
    RecvBlock(RecvPhase<BlockPhase>, Caller),
    /// The receiver takes a step of `recv_sync`.
    RecvSync(RecvPhase<SyncPhase>, u64, bool, Caller),
    /// The receiver takes a step of `recv_async`.
    RecvAsync(RecvPhase<AsyncPhase>, u64, u64),
    /// The receiver takes a step of `recv_spin_timeout`.
    RecvSpinTimeout(RecvPhase<SpinTimeoutPhase>, u64, bool, Caller, Moment, Moment),
    /// The receiver takes a step of `recv_block_timeout`.
    RecvBlockTimeout(RecvPhase<BlockTimeoutPhase>, Caller, Moment, Moment, Moment),
    /// The receiver takes a step of `recv_sync_timeout`.
    RecvSyncTimeout(RecvPhase<SyncTimeoutPhase>, u64, bool, Caller, Moment, Moment, Moment),
    /// The receiver takes a step of `recv_async_timeout`.
    RecvAsyncTimeout(RecvPhase<AsyncTimeoutPhase>, u64, bool, u64, Moment, Moment),
    /// A receiver tries for a value.
    TryReceive,
    /// A sender is cloned.
    CloneSender,
    /// A sender goes.
    DropSender,
    /// The receiver goes.
    DropReceiver,
}

/// A channel in the course of its use.
pub struct Course<T> {
    pub scene: ChannelScene<T>,
    /// The values in the queue, while a sender has it in hand.
    pub held: Option<Seq<T>>,
    /// The values that have been sent, in order.
    pub sent: Seq<T>,
    /// The values that have been received, in order.
    pub received: Seq<T>,
    /// How many senders there are.
    pub live: nat,
}

impl<T> Course<T> {
    /// A new channel.
    pub open spec fn fresh(id: int) -> Self {
        Course {
            scene: ChannelScene { channel: ChannelView::fresh(id), wakes: Seq::empty() },
            held: None,
            sent: Seq::empty(),
            received: Seq::empty(),
            live: 1,
        }
    }

    /// The values that are on their way.
    pub open spec fn pending(self) -> Seq<T> {
        match self.held {
            Some(items) => items,
            None => self.scene.channel.queue.inner->0,
        }
    }

    /// Whether some user can take this step.
    pub open spec fn allows(self, step: ChannelStep<T>) -> bool {
        match step {
            ChannelStep::Take => self.scene.channel.queue.inner is Some && self.live > 0,
            ChannelStep::Miss(_) => self.scene.channel.queue.inner is None && self.live > 0,
            ChannelStep::MissAsync(_) => self.scene.channel.queue.inner is None && self.live > 0,
            ChannelStep::Append(_) => self.held is Some,
            ChannelStep::CloneSender => 0 < self.live < usize::MAX,
            ChannelStep::DropSender => self.live > 0,
            _ => true,
        }
    }

    /// The receiver has taken a step, perhaps with a value.
    pub open spec fn received(self, scene: ChannelScene<T>, value: Option<T>) -> Self {
        Course {
            scene,
            received: match value {
                Some(value) => self.received.push(value),
                None => self.received,
            },
            ..self
        }
    }

    /// The course after a step.
    pub open spec fn after(self, step: ChannelStep<T>) -> Self {
        match step {
            ChannelStep::Take => Course {
                scene: self.scene.taken(),
                held: Some(self.scene.channel.queue.inner->0),
                ..self
            },
            ChannelStep::Miss(thread) => Course { scene: self.scene.queued(thread), ..self },
            ChannelStep::MissAsync(continuation) => Course {
                scene: self.scene.queued_async(continuation),
                ..self
            },
            ChannelStep::Append(value) => Course {
                scene: mpsc_spec::appended(self.scene, self.held->0, value),
                held: None,
                sent: if self.scene.channel.active {
                    self.sent.push(value)
                } else {
                    self.sent
                },
                ..self
            },
            ChannelStep::RecvSpin(phase, flag, raised, caller) => {
                let (scene, r) = mpsc_spec::recv_spin_step(self.scene, phase, flag, raised, caller);
                self.received(scene, value_of(r))
            },
            ChannelStep::RecvBlock(phase, caller) => {
                let (scene, r) = mpsc_spec::recv_block_step(self.scene, phase, caller);
                self.received(scene, value_of(r))
            },
            ChannelStep::RecvSync(phase, flag, raised, caller) => {
                let (scene, r) = mpsc_spec::recv_sync_step(self.scene, phase, flag, raised, caller);
                self.received(scene, value_of(r))
            },
            ChannelStep::RecvAsync(phase, id, continuation) => {
                let (scene, r) = mpsc_spec::recv_async_step(self.scene, phase, id, continuation);
                self.received(scene, value_of(r))
            },
            ChannelStep::RecvSpinTimeout(phase, flag, raised, caller, now, deadline) => {
                let (scene, r) = mpsc_spec::recv_spin_timeout_step(
                    self.scene,
                    phase,
                    flag,
                    raised,
                    caller,
                    now,
                    deadline,
                );
                self.received(scene, value_of(r))
            },
            ChannelStep::RecvBlockTimeout(phase, caller, now, later, deadline) => {
                let (scene, r) = mpsc_spec::recv_block_timeout_step(
                    self.scene,
                    phase,
                    caller,
                    now,
                    later,
                    deadline,
                );
                self.received(scene, value_of(r))
            },
            ChannelStep::RecvSyncTimeout(phase, flag, raised, caller, now, later, deadline) => {
                let (scene, r) = mpsc_spec::recv_sync_timeout_step(
                    self.scene,
                    phase,
                    flag,
                    raised,
                    caller,
                    now,
                    later,
                    deadline,
                );
                self.received(scene, value_of(r))
            },
            ChannelStep::RecvAsyncTimeout(phase, id, lost, continuation, now, deadline) => {
                let (scene, r) = mpsc_spec::recv_async_timeout_step(
                    self.scene,
                    phase,
                    id,
                    lost,
                    continuation,
                    now,
                    deadline,
                );
                self.received(scene, value_of(r))
            },
            ChannelStep::TryReceive => {
                let (scene, r) = mpsc_spec::try_recv_step(self.scene);
                self.received(
                    scene,
                    match r {
                        Ok(value) => Some(value),
                        Err(_) => None,
                    },
                )
            },
            ChannelStep::CloneSender => Course {
                scene: ChannelScene {
                    channel: ChannelView {
                        senders: mpsc_spec::one_more(self.scene.channel.senders),
                        ..self.scene.channel
                    },
                    ..self.scene
                },
                live: self.live + 1,
                ..self
            },
            ChannelStep::DropSender => Course {
                scene: mpsc_spec::sender_dropped(self.scene),
                live: (self.live - 1) as nat,
                ..self
            },
            ChannelStep::DropReceiver => Course {
                scene: mpsc_spec::receiver_dropped(self.scene),
                ..self
            },
        }
    }
}

/// The value that a step of receiving ends with, if it does.
pub open spec fn value_of<T, P, E>(r: Progress<RecvPhase<P>, Result<T, E>>) -> Option<T> {
    match r {
        Progress::Done(Ok(value)) => Some(value),
        _ => None,
    }
}

/// A step of receiving has left the values alone, or has taken the earliest one; and it has left
/// the senders and the receiver alone; and if there are no senders nobody has started to wait.
pub open spec fn fairly_received<T>(
    before: ChannelScene<T>,
    after: ChannelScene<T>,
    value: Option<T>,
) -> bool {
    &&& after.channel.senders == before.channel.senders
    &&& after.channel.active == before.channel.active
    &&& match value {
        Some(value) => before.channel.queue.inner matches Some(items) && items.len() > 0 && value
            == items[0] && after.channel.queue.inner == Some(items.drop_first()),
        None => after.channel.queue.inner == before.channel.queue.inner,
    }
    &&& before.channel.senders == 0 && before.channel.condvar.waiters().len() == 0
        ==> after.channel.condvar.waiters().len() == 0
}

/// Every step of receiving is fair.
proof fn lemma_receiving_is_fair<T>(before: Course<T>, step: ChannelStep<T>)
    requires
        !(step is Take),
        !(step is Miss),
        !(step is MissAsync),
        !(step is Append),
        !(step is CloneSender),
        !(step is DropSender),
        !(step is DropReceiver),
    ensures
        exists|value: Option<T>| #[trigger]
            fairly_received(before.scene, before.after(step).scene, value) && before.after(step)
                == before.received(before.after(step).scene, value),
{
    let after = before.after(step).scene;
    let value = match step {
        ChannelStep::RecvSpin(phase, flag, raised, caller) => value_of(
            mpsc_spec::recv_spin_step(before.scene, phase, flag, raised, caller).1,
        ),
        ChannelStep::RecvBlock(phase, caller) => value_of(
            mpsc_spec::recv_block_step(before.scene, phase, caller).1,
        ),
        ChannelStep::RecvSync(phase, flag, raised, caller) => value_of(
            mpsc_spec::recv_sync_step(before.scene, phase, flag, raised, caller).1,
        ),
        ChannelStep::RecvAsync(phase, id, continuation) => value_of(
            mpsc_spec::recv_async_step(before.scene, phase, id, continuation).1,
        ),
        ChannelStep::RecvSpinTimeout(phase, flag, raised, caller, now, deadline) => value_of(
            mpsc_spec::recv_spin_timeout_step(
                before.scene,
                phase,
                flag,
                raised,
                caller,
                now,
                deadline,
            ).1,
        ),
        ChannelStep::RecvBlockTimeout(phase, caller, now, later, deadline) => value_of(
            mpsc_spec::recv_block_timeout_step(before.scene, phase, caller, now, later, deadline).1,
        ),
        ChannelStep::RecvSyncTimeout(phase, flag, raised, caller, now, later, deadline) => value_of(
            mpsc_spec::recv_sync_timeout_step(
                before.scene,
                phase,
                flag,
                raised,
                caller,
                now,
                later,
                deadline,
            ).1,
        ),
        ChannelStep::RecvAsyncTimeout(phase, id, lost, continuation, now, deadline) => value_of(
            mpsc_spec::recv_async_timeout_step(
                before.scene,
                phase,
                id,
                lost,
                continuation,
                now,
                deadline,
            ).1,
        ),
        ChannelStep::TryReceive => match mpsc_spec::try_recv_step(before.scene).1 {
            Ok(value) => Some(value),
            Err(_) => None,
        },
        _ => None,
    };
    lemma_withdrawing_adds_nobody(before.scene.channel.condvar);
    assert(fairly_received(before.scene, after, value));
}

/// Nobody joins an idle condition variable by leaving it.
proof fn lemma_withdrawing_adds_nobody(condvar: CondvarView)
    ensures
        condvar.waiters().len() == 0 ==> (forall|id: u64|
            #![trigger condvar.without_sync(id)]
            #![trigger condvar.without_spin(id)]
            #![trigger condvar.without_async(id)]
            condvar.without_sync(id) == condvar && condvar.without_spin(id) == condvar
                && condvar.without_async(id) == condvar),
{
    assert forall|id: u64|
        condvar.waiters().len() == 0 implies condvar.without_sync(id) == condvar
        && condvar.without_spin(id) == condvar && condvar.without_async(id) == condvar by {
        condvar.sync.index_of_first_ensures(id);
        condvar.spin.index_of_first_ensures(id);
        crate::wait_spec::waiter_ids(condvar.asynch).index_of_first_ensures(id);
    }
}

/// A course after `steps`.
pub open spec fn run<T>(start: Course<T>, steps: Seq<ChannelStep<T>>) -> Course<T>
    decreases steps.len(),
{
    if steps.len() == 0 {
        start
    } else {
        run(start, steps.drop_last()).after(steps.last())
    }
}

/// Whether each of `steps` can be taken when its turn comes.
pub open spec fn allowed<T>(start: Course<T>, steps: Seq<ChannelStep<T>>) -> bool
    decreases steps.len(),
{
    if steps.len() == 0 {
        true
    } else {
        allowed(start, steps.drop_last()) && run(start, steps.drop_last()).allows(steps.last())
    }
}

/// The course of a new channel that sees `steps`.
pub open spec fn course<T>(id: int, steps: Seq<ChannelStep<T>>) -> Course<T> {
    run(Course::fresh(id), steps)
}

/// Whether each of `steps` can be taken when its turn comes, from the start on.
pub open spec fn possible<T>(id: int, steps: Seq<ChannelStep<T>>) -> bool {
    allowed(Course::fresh(id), steps)
}

/// The channel is done with: no senders, nothing in the queue, and nobody who has it in hand.
pub open spec fn disconnected<T>(course: Course<T>) -> bool {
    &&& course.live == 0
    &&& course.held is None
    &&& course.scene.channel.queue.inner == Some(Seq::<T>::empty())
}

/// Where a step of sending goes on if it misses the queue: the sender spins, or is listed.
pub open spec fn miss<T>(scene: ChannelScene<T>, step: Option<ChannelStep<T>>) -> ChannelScene<T> {
    match step {
        Some(ChannelStep::Miss(thread)) => scene.queued(thread),
        Some(ChannelStep::MissAsync(continuation)) => scene.queued_async(continuation),
        _ => scene,
    }
}

/// How a sender that misses the queue is listed, in the way that the thread may wait.
pub open spec fn sync_miss<T>(caller: Caller) -> Option<ChannelStep<T>> {
    if caller.can_block {
        Some(ChannelStep::Miss(caller.thread))
    } else {
        None
    }
}

/// What a step of sending does to the channel: nothing, or this.
pub open spec fn send_steps<T>(
    before: ChannelScene<T>,
    call: Call<T, SendPhase<T>>,
    missing: Option<ChannelStep<T>>,
) -> Option<ChannelStep<T>> {
    match call {
        Call::Resume(SendPhase::Append(value, _)) => Some(ChannelStep::Append(value)),
        _ => if call is Start && !before.channel.active {
            None
        } else if before.channel.queue.inner is Some {
            Some(ChannelStep::Take)
        } else {
            missing
        },
    }
}

/// Courses go on: what happens in `more` steps after `steps` happens in all of them together.
pub proof fn law_courses_go_on<T>(
    start: Course<T>,
    steps: Seq<ChannelStep<T>>,
    more: Seq<ChannelStep<T>>,
)
    ensures
        run(start, steps + more) == run(run(start, steps), more),
        allowed(start, steps + more) <==> allowed(start, steps) && allowed(run(start, steps), more),
    decreases more.len(),
{
    if more.len() == 0 {
        assert(steps + more =~= steps);
    } else {
        law_courses_go_on(start, steps, more.drop_last());
        assert((steps + more).drop_last() =~= steps + more.drop_last());
    }
}

/// Each step of sending is a step of the channel, or none. `missing` says how a sender that misses
/// the queue is listed: not at all by `send_spin`, with its thread by `send_block`, with its
/// continuation by `send_async`, and by `send_sync` as [`sync_miss`] says.
pub proof fn law_sending_is_a_step<T>(
    before: Course<T>,
    after: ChannelScene<T>,
    call: Call<T, SendPhase<T>>,
    missing: Option<ChannelStep<T>>,
    pause: Pause,
    r: Progress<SendPhase<T>, Result<(), SendError<T>>>,
)
    requires
        before.live > 0,
        call matches Call::Resume(SendPhase::Append(_, guard)) ==> before.held == Some(guard@@),
        missing matches Some(step) ==> step is Miss || step is MissAsync,
        mpsc_spec::send_step(before.scene, after, call, miss(before.scene, missing), pause, r),
    ensures
        match send_steps(before.scene, call, missing) {
            Some(step) => before.allows(step) && before.after(step).scene == after,
            None => after == before.scene,
        },
        r matches Progress::Pause(SendPhase::Append(_, guard), _) ==> before.after(
            ChannelStep::Take,
        ).held == Some(guard@@),
{
}

/// A sender that misses the queue in `send_sync` is listed in the way that its thread may wait.
pub proof fn law_sync_sender_is_listed_as_it_waits<T>(scene: ChannelScene<T>, caller: Caller)
    ensures
        scene.missed(caller) == miss(scene, sync_miss(caller)),
{
}

/// Each step of receiving, each try for a value, each clone and each end of a sender and the end of
/// the receiver are a step of the channel.
pub proof fn law_receiving_is_a_step<T>(
    before: Course<T>,
    flag: u64,
    raised: bool,
    caller: Caller,
    id: u64,
    continuation: u64,
    race_lost: bool,
    now: Moment,
    later: Moment,
    deadline: Moment,
)
    ensures
        forall|phase: RecvPhase<SpinPhase>|
            before.after(ChannelStep::RecvSpin(phase, flag, raised, caller)).scene
                == #[trigger] mpsc_spec::recv_spin_step(
                before.scene,
                phase,
                flag,
                raised,
                caller,
            ).0,
        forall|phase: RecvPhase<BlockPhase>|
            before.after(ChannelStep::RecvBlock(phase, caller)).scene
                == #[trigger] mpsc_spec::recv_block_step(before.scene, phase, caller).0,
        forall|phase: RecvPhase<SyncPhase>|
            before.after(ChannelStep::RecvSync(phase, flag, raised, caller)).scene
                == #[trigger] mpsc_spec::recv_sync_step(
                before.scene,
                phase,
                flag,
                raised,
                caller,
            ).0,
        forall|phase: RecvPhase<AsyncPhase>|
            before.after(ChannelStep::RecvAsync(phase, id, continuation)).scene
                == #[trigger] mpsc_spec::recv_async_step(
                before.scene,
                phase,
                id,
                continuation,
            ).0,
        forall|phase: RecvPhase<SpinTimeoutPhase>|
            before.after(
                ChannelStep::RecvSpinTimeout(phase, flag, raised, caller, now, deadline),
            ).scene == #[trigger] mpsc_spec::recv_spin_timeout_step(
                before.scene,
                phase,
                flag,
                raised,
                caller,
                now,
                deadline,
            ).0,
        forall|phase: RecvPhase<BlockTimeoutPhase>|
            before.after(
                ChannelStep::RecvBlockTimeout(phase, caller, now, later, deadline),
            ).scene == #[trigger] mpsc_spec::recv_block_timeout_step(
                before.scene,
                phase,
                caller,
                now,
                later,
                deadline,
            ).0,
        forall|phase: RecvPhase<SyncTimeoutPhase>|
            before.after(
                ChannelStep::RecvSyncTimeout(phase, flag, raised, caller, now, later, deadline),
            ).scene == #[trigger] mpsc_spec::recv_sync_timeout_step(
                before.scene,
                phase,
                flag,
                raised,
                caller,
                now,
                later,
                deadline,
            ).0,
        forall|phase: RecvPhase<AsyncTimeoutPhase>|
            before.after(
                ChannelStep::RecvAsyncTimeout(
                    phase,
                    id,
                    race_lost,
                    continuation,
                    now,
                    deadline,
                ),
            ).scene == #[trigger] mpsc_spec::recv_async_timeout_step(
                before.scene,
                phase,
                id,
                race_lost,
                continuation,
                now,
                deadline,
            ).0,
        before.after(ChannelStep::TryReceive).scene == mpsc_spec::try_recv_step(before.scene).0,
        before.after(ChannelStep::CloneSender).scene.channel == (ChannelView {
            senders: mpsc_spec::one_more(before.scene.channel.senders),
            ..before.scene.channel
        }),
        before.after(ChannelStep::DropSender).scene == mpsc_spec::sender_dropped(before.scene),
        before.after(ChannelStep::DropReceiver).scene == mpsc_spec::receiver_dropped(before.scene),
{
}

/// The last step, if it is one of receiving, is fair.
proof fn lemma_step_keeps<T>(id: int, steps: Seq<ChannelStep<T>>)
    requires
        steps.len() > 0,
    ensures
        match steps.last() {
            ChannelStep::Take => true,
            ChannelStep::Miss(_) => true,
            ChannelStep::MissAsync(_) => true,
            ChannelStep::Append(_) => true,
            ChannelStep::CloneSender => true,
            ChannelStep::DropSender => true,
            ChannelStep::DropReceiver => true,
            _ => exists|value: Option<T>| #[trigger]
                fairly_received(course(id, steps.drop_last()).scene, course(id, steps).scene, value)
                    && course(id, steps) == course(id, steps.drop_last()).received(
                    course(id, steps).scene,
                    value,
                ),
        },
{
    match steps.last() {
        ChannelStep::Take => {},
        ChannelStep::Miss(_) => {},
        ChannelStep::MissAsync(_) => {},
        ChannelStep::Append(_) => {},
        ChannelStep::CloneSender => {},
        ChannelStep::DropSender => {},
        ChannelStep::DropReceiver => {},
        _ => {
            lemma_receiving_is_fair(course(id, steps.drop_last()), steps.last());
        },
    }
}

/// The queue is in one place: with its mutex or with the sender that took it.
proof fn lemma_queue_is_somewhere<T>(id: int, steps: Seq<ChannelStep<T>>)
    requires
        possible(id, steps),
    ensures
        course(id, steps).scene.channel.queue.inner is Some <==> course(id, steps).held is None,
    decreases steps.len(),
{
    if steps.len() > 0 {
        lemma_queue_is_somewhere(id, steps.drop_last());
        lemma_step_keeps(id, steps);
    }
}

/// Values arrive in the order in which they were sent, none is lost and none arrives twice: what
/// was sent is what has been received followed by what is on its way.
pub proof fn law_first_in_first_out<T>(id: int, steps: Seq<ChannelStep<T>>)
    requires
        possible(id, steps),
    ensures
        course(id, steps).sent =~= course(id, steps).received + course(id, steps).pending(),
    decreases steps.len(),
{
    if steps.len() > 0 {
        let c = course(id, steps.drop_last());
        law_first_in_first_out(id, steps.drop_last());
        lemma_queue_is_somewhere(id, steps.drop_last());
        lemma_queue_is_somewhere(id, steps);
        match steps.last() {
            ChannelStep::Take => {},
            ChannelStep::Miss(_) => {},
            ChannelStep::MissAsync(_) => {},
            ChannelStep::Append(value) => {
                assert(course(id, steps).pending() =~= if c.scene.channel.active {
                    c.held->0.push(value)
                } else {
                    c.held->0
                });
            },
            ChannelStep::CloneSender => {},
            ChannelStep::DropSender => {},
            ChannelStep::DropReceiver => {},
            _ => {
                lemma_receiving_is_fair(c, steps.last());
                if c.held is None {
                    let items = c.scene.channel.queue.inner->0;
                    if items.len() > 0 {
                        assert(items =~= seq![items[0]] + items.drop_first());
                    }
                }
            },
        }
    }
}

/// The channel counts its senders.
pub proof fn law_senders_are_counted<T>(id: int, steps: Seq<ChannelStep<T>>)
    requires
        possible(id, steps),
    ensures
        course(id, steps).scene.channel.senders == course(id, steps).live,
    decreases steps.len(),
{
    if steps.len() > 0 {
        law_senders_are_counted(id, steps.drop_last());
        lemma_step_keeps(id, steps);
    }
}

/// A receiver that finds a value takes it, though all senders may have gone; the channel is closed
/// exactly if the queue is empty and there are no senders; else the receiver waits.
pub proof fn law_closed_only_when_empty<T, P, E>(
    scene: ChannelScene<T>,
    items: Seq<T>,
    closed: E,
    waiting: Waiting<P>,
)
    ensures
        ({
            let (after, r) = mpsc_spec::serve(scene, items, closed, waiting);
            &&& items.len() > 0 <==> (r matches Progress::Done(Ok(_)))
            &&& items.len() > 0 ==> r == Progress::<RecvPhase<P>, Result<T, E>>::Done(Ok(items[0]))
            &&& items.len() == 0 && scene.channel.senders == 0 <==> (r matches Progress::Done(
                Err(_),
            ))
            &&& items.len() == 0 && scene.channel.senders != 0 <==> r is Pause
        }),
{
}

/// Disconnection is final: a channel that has no senders left, and whose queue is empty and in
/// nobody's hands, stays so, whatever its users do, and nothing is sent or received any more.
pub proof fn law_disconnection_is_final<T>(before: Course<T>, steps: Seq<ChannelStep<T>>)
    requires
        disconnected(before),
        allowed(before, steps),
    ensures
        disconnected(run(before, steps)),
        run(before, steps).sent == before.sent,
        run(before, steps).received == before.received,
        run(before, steps).scene.channel.senders == before.scene.channel.senders,
    decreases steps.len(),
{
    if steps.len() > 0 {
        let c = run(before, steps.drop_last());
        law_disconnection_is_final(before, steps.drop_last());
        match steps.last() {
            ChannelStep::Take => {},
            ChannelStep::Miss(_) => {},
            ChannelStep::MissAsync(_) => {},
            ChannelStep::Append(_) => {},
            ChannelStep::CloneSender => {},
            ChannelStep::DropSender => {},
            ChannelStep::DropReceiver => {},
            _ => {
                lemma_receiving_is_fair(c, steps.last());
            },
        }
    }
}

/// Whoever is told that the channel is disconnected is told the truth: there are no senders left,
/// and the queue is empty and in nobody's hands.
pub proof fn law_told_disconnected_only_if_so<T>(
    id: int,
    steps: Seq<ChannelStep<T>>,
    flag: u64,
    raised: bool,
    caller: Caller,
    waiter: u64,
    continuation: u64,
    race_lost: bool,
    now: Moment,
    later: Moment,
    deadline: Moment,
)
    requires
        possible(id, steps),
    ensures
        mpsc_spec::try_recv_step(course(id, steps).scene).1 == Err::<T, TryRecvError>(
            TryRecvError::Disconnected,
        ) ==> disconnected(course(id, steps)),
        forall|phase: RecvPhase<SpinPhase>|
            (#[trigger] mpsc_spec::recv_spin_step(
                course(id, steps).scene,
                phase,
                flag,
                raised,
                caller,
            ).1 matches Progress::Done(Err(RecvError::Disconnected))) ==> disconnected(
                course(id, steps),
            ),
        forall|phase: RecvPhase<BlockPhase>|
            (#[trigger] mpsc_spec::recv_block_step(
                course(id, steps).scene,
                phase,
                caller,
            ).1 matches Progress::Done(Err(RecvError::Disconnected))) ==> disconnected(
                course(id, steps),
            ),
        forall|phase: RecvPhase<SyncPhase>|
            (#[trigger] mpsc_spec::recv_sync_step(
                course(id, steps).scene,
                phase,
                flag,
                raised,
                caller,
            ).1 matches Progress::Done(Err(RecvError::Disconnected))) ==> disconnected(
                course(id, steps),
            ),
        forall|phase: RecvPhase<AsyncPhase>|
            (#[trigger] mpsc_spec::recv_async_step(
                course(id, steps).scene,
                phase,
                waiter,
                continuation,
            ).1 matches Progress::Done(Err(RecvError::Disconnected))) ==> disconnected(
                course(id, steps),
            ),
        forall|phase: RecvPhase<SpinTimeoutPhase>|
            (#[trigger] mpsc_spec::recv_spin_timeout_step(
                course(id, steps).scene,
                phase,
                flag,
                raised,
                caller,
                now,
                deadline,
            ).1 matches Progress::Done(Err(RecvTimeoutError::Disconnected))) ==> disconnected(
                course(id, steps),
            ),
        forall|phase: RecvPhase<BlockTimeoutPhase>|
            (#[trigger] mpsc_spec::recv_block_timeout_step(
                course(id, steps).scene,
                phase,
                caller,
                now,
                later,
                deadline,
            ).1 matches Progress::Done(Err(RecvTimeoutError::Disconnected))) ==> disconnected(
                course(id, steps),
            ),
        forall|phase: RecvPhase<SyncTimeoutPhase>|
            (#[trigger] mpsc_spec::recv_sync_timeout_step(
                course(id, steps).scene,
                phase,
                flag,
                raised,
                caller,
                now,
                later,
                deadline,
            ).1 matches Progress::Done(Err(RecvTimeoutError::Disconnected))) ==> disconnected(
                course(id, steps),
            ),
        forall|phase: RecvPhase<AsyncTimeoutPhase>|
            (#[trigger] mpsc_spec::recv_async_timeout_step(
                course(id, steps).scene,
                phase,
                waiter,
                race_lost,
                continuation,
                now,
                deadline,
            ).1 matches Progress::Done(Err(RecvTimeoutError::Disconnected))) ==> disconnected(
                course(id, steps),
            ),
{
    law_senders_are_counted(id, steps);
    lemma_queue_is_somewhere(id, steps);
    if course(id, steps).scene.channel.queue.inner matches Some(items) && items.len() == 0 {
        assert(course(id, steps).scene.channel.queue.inner->0 =~= Seq::<T>::empty());
    }
}

/// A channel that is disconnected in its course is so in every course that goes on from there.
pub proof fn law_disconnected_channels_stay_so<T>(
    id: int,
    steps: Seq<ChannelStep<T>>,
    more: Seq<ChannelStep<T>>,
)
    requires
        possible(id, steps + more),
        disconnected(course(id, steps)),
    ensures
        disconnected(course(id, steps + more)),
{
    law_courses_go_on(Course::fresh(id), steps, more);
    law_disconnection_is_final(course(id, steps), more);
}

/// Every receiver of a disconnected channel is told so.
pub proof fn law_receiving_ends_when_disconnected<T, P, E>(
    id: int,
    steps: Seq<ChannelStep<T>>,
    otherwise: (ChannelScene<T>, Progress<RecvPhase<P>, Result<T, E>>),
    closed: E,
    waiting: Waiting<P>,
)
    requires
        possible(id, steps),
        disconnected(course(id, steps)),
    ensures
        mpsc_spec::attempt(course(id, steps).scene, otherwise, closed, waiting).1 == Progress::<
            RecvPhase<P>,
            Result<T, E>,
        >::Done(Err(closed)),
        mpsc_spec::try_recv_step(course(id, steps).scene).1 == Err::<T, TryRecvError>(
            TryRecvError::Disconnected,
        ),
{
    law_senders_are_counted(id, steps);
}

/// Once the receiver has gone nothing is sent any more: the queue stays as it is, and a sender gets
/// its value back.
pub proof fn law_nothing_is_sent_without_receiver<T>(
    scene: ChannelScene<T>,
    items: Seq<T>,
    value: T,
)
    requires
        !scene.channel.active,
    ensures
        mpsc_spec::appended(scene, items, value).channel.queue.inner == Some(items),
        mpsc_spec::appended(scene, items, value).channel.condvar == scene.channel.condvar,
        !mpsc_spec::appended(scene, items, value).channel.active,
{
}

/// The receiver stays gone.
pub proof fn law_receiver_stays_gone<T>(before: Course<T>, step: ChannelStep<T>)
    requires
        before.allows(step),
        !before.scene.channel.active,
    ensures
        !before.after(step).scene.channel.active,
        before.after(step).sent == before.sent,
{
    match step {
        ChannelStep::Take => {},
        ChannelStep::Miss(_) => {},
        ChannelStep::MissAsync(_) => {},
        ChannelStep::Append(_) => {},
        ChannelStep::CloneSender => {},
        ChannelStep::DropSender => {},
        ChannelStep::DropReceiver => {},
        _ => {
            lemma_receiving_is_fair(before, step);
        },
    }
}

/// The last sender that goes wakes everybody who waits; one that goes before wakes nobody.
pub proof fn law_last_sender_wakes_all<T>(scene: ChannelScene<T>)
    requires
        scene.channel.senders > 0,
    ensures
        ({
            let after = mpsc_spec::sender_dropped(scene);
            if scene.channel.senders == 1 {
                &&& after.channel.senders == 0
                &&& after.channel.condvar == CondvarView::idle()
                &&& after.wakes == scene.wakes + scene.channel.condvar.waiters()
            } else {
                &&& after.channel.senders == scene.channel.senders - 1
                &&& after.channel.condvar == scene.channel.condvar
                &&& after.wakes == scene.wakes
            }
        }),
{
}

/// Nobody waits for a value of a channel that has no senders left: those who waited have been woken
/// by the last one, and nobody starts to wait afterwards.
pub proof fn law_nobody_waits_on_a_closed_channel<T>(id: int, steps: Seq<ChannelStep<T>>)
    requires
        possible(id, steps),
    ensures
        ({
            let c = course(id, steps);
            c.live == 0 ==> c.scene.channel.condvar.waiters().len() == 0
        }),
    decreases steps.len(),
{
    law_senders_are_counted(id, steps);
    if steps.len() > 0 {
        law_nobody_waits_on_a_closed_channel(id, steps.drop_last());
        law_senders_are_counted(id, steps.drop_last());
        lemma_step_keeps(id, steps);
    }
}

/// A value that is sent wakes one of those who wait, if there is any.
pub proof fn law_sending_wakes_one<T>(scene: ChannelScene<T>, items: Seq<T>, value: T)
    requires
        scene.channel.active,
    ensures
        mpsc_spec::appended(scene, items, value).channel.queue.inner == Some(items.push(value)),
        mpsc_spec::appended(scene, items, value).wakes == scene.wakes
            + scene.channel.queue.waiters() + scene.channel.condvar.next_woken(),
{
}

/// A receiver that tries while a sender has the queue is told that there is nothing, and changes
/// nothing.
pub proof fn law_trying_a_locked_queue_changes_nothing<T>(scene: ChannelScene<T>)
    requires
        scene.channel.queue.inner is None,
    ensures
        mpsc_spec::try_recv_step(scene) == (scene, Err::<T, TryRecvError>(TryRecvError::Empty)),
{
}

/// What a step of receiving does where it does not read the clock does not depend on the time.
pub proof fn law_receivers_depend_on_what_they_read<T>(
    scene: ChannelScene<T>,
    spin: RecvPhase<SpinTimeoutPhase>,
    block: RecvPhase<BlockTimeoutPhase>,
    sync: RecvPhase<SyncTimeoutPhase>,
    asynch: RecvPhase<AsyncTimeoutPhase>,
    flag: u64,
    raised: bool,
    caller: Caller,
    id: u64,
    race_lost: bool,
    continuation: u64,
    now: Moment,
    other: Moment,
    later: Moment,
    another: Moment,
    deadline: Moment,
)
    ensures
        !mpsc_spec::recv_spin_timeout_reads(scene, spin, raised)
            ==> mpsc_spec::recv_spin_timeout_step(scene, spin, flag, raised, caller, now, deadline)
            == mpsc_spec::recv_spin_timeout_step(
            scene,
            spin,
            flag,
            raised,
            caller,
            other,
            deadline,
        ),
        !mpsc_spec::recv_block_timeout_reads(block) ==> mpsc_spec::recv_block_timeout_step(
            scene,
            block,
            caller,
            now,
            later,
            deadline,
        ) == mpsc_spec::recv_block_timeout_step(scene, block, caller, other, another, deadline),
        !mpsc_spec::recv_block_timeout_reads_again(scene, block, now, deadline)
            ==> mpsc_spec::recv_block_timeout_step(scene, block, caller, now, later, deadline)
            == mpsc_spec::recv_block_timeout_step(scene, block, caller, now, another, deadline),
        !mpsc_spec::recv_sync_timeout_reads(scene, sync, raised, caller)
            ==> mpsc_spec::recv_sync_timeout_step(
            scene,
            sync,
            flag,
            raised,
            caller,
            now,
            later,
            deadline,
        ) == mpsc_spec::recv_sync_timeout_step(
            scene,
            sync,
            flag,
            raised,
            caller,
            other,
            another,
            deadline,
        ),
        !mpsc_spec::recv_sync_timeout_reads_again(scene, sync, caller, now, deadline)
            ==> mpsc_spec::recv_sync_timeout_step(
            scene,
            sync,
            flag,
            raised,
            caller,
            now,
            later,
            deadline,
        ) == mpsc_spec::recv_sync_timeout_step(
            scene,
            sync,
            flag,
            raised,
            caller,
            now,
            another,
            deadline,
        ),
        !mpsc_spec::recv_async_timeout_reads(asynch, race_lost)
            ==> mpsc_spec::recv_async_timeout_step(
            scene,
            asynch,
            id,
            race_lost,
            continuation,
            now,
            deadline,
        ) == mpsc_spec::recv_async_timeout_step(
            scene,
            asynch,
            id,
            race_lost,
            continuation,
            other,
            deadline,
        ),
{
}

} // verus!

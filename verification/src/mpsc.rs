//! A channel from many senders to one receiver.
use crate::condvar::{
    AsyncPhase, AsyncTimeoutPhase, BlockPhase, BlockTimeoutPhase, Condvar, SpinPhase,
    SpinTimeoutPhase, SyncPhase, SyncTimeoutPhase, WaiterIds,
};
use crate::guard::Guard;
use crate::mpsc_spec;
use crate::mpsc_spec::{ChannelScene, ChannelView};
use crate::mutex::{Mutex, MutexView};
use crate::step::{Call, Caller, Pause, Progress, Wake};
use crate::time;
use crate::time::Moment;
use crate::wait_spec;
use std::collections::VecDeque;
use std::marker::PhantomData;
use vstd::prelude::*;

verus! {

/// Why `try_recv` gives no value.
#[derive(PartialEq, Eq, Clone, Copy, Debug, Hash, Structural)]
#[non_exhaustive]
pub enum TryRecvError {
    /// There is none now.
    Empty,
    /// There is none, and there are no senders left.
    Disconnected,
}

impl TryRecvError {
    /// The error in words.
    pub fn message(&self) -> (r: &'static str)
        ensures
            r@ == match *self {
                TryRecvError::Empty => "receiving on an empty channel"@,
                TryRecvError::Disconnected => "receiving on a closed channel"@,
            },
    {
        match self {
            TryRecvError::Empty => "receiving on an empty channel",
            TryRecvError::Disconnected => "receiving on a closed channel",
        }
    }
}

/// Why receiving until a deadline gives no value.
#[derive(PartialEq, Eq, Clone, Copy, Debug, Hash, Structural)]
#[non_exhaustive]
pub enum RecvTimeoutError {
    /// The deadline has come.
    Timeout,
    /// There is none, and there are no senders left.
    Disconnected,
}

impl RecvTimeoutError {
    /// The error in words.
    pub fn message(&self) -> (r: &'static str)
        ensures
            r@ == match *self {
                RecvTimeoutError::Timeout => "timed out waiting on channel"@,
                RecvTimeoutError::Disconnected => "channel is empty and disconnected"@,
            },
    {
        match self {
            RecvTimeoutError::Timeout => "timed out waiting on channel",
            RecvTimeoutError::Disconnected => "channel is empty and disconnected",
        }
    }
}

/// Why receiving gives no value.
#[derive(PartialEq, Eq, Clone, Copy, Debug, PartialOrd, Ord, Hash, Structural)]
#[non_exhaustive]
pub enum RecvError {
    /// There is none, and there are no senders left.
    Disconnected,
}

impl RecvError {
    /// The error in words.
    pub fn message(&self) -> (r: &'static str)
        ensures
            r@ == "receiving on a closed channel"@,
    {
        "receiving on a closed channel"
    }
}

/// The value that could not be sent, because there is no receiver.
#[derive(PartialEq, Eq, Clone, Copy)]
pub struct SendError<T>(pub T);

impl<T> SendError<T> {
    /// The error in words.
    pub fn message(&self) -> (r: &'static str)
        ensures
            r@ == "sending on a closed channel"@,
    {
        "sending on a closed channel"
    }
}

/// Where receiving is.
#[derive(Debug, Clone, Copy, PartialEq, Eq)]
pub enum RecvPhase<P> {
    /// It takes the queue. This is where receiving starts.
    Lock,
    /// It waits for a notification.
    Wait(P),
}

/// Where sending is.
pub enum SendPhase<T> {
    /// It takes the queue, with this value to send.
    Lock(T),
    /// It has the queue in hand, and appends this value to it.
    Append(T, Guard<VecDeque<T>>),
}

/// What the senders and the receiver share.
pub struct Shared<T> {
    queue: Mutex<VecDeque<T>>,
    condvar: Condvar,
    sender_count: usize,
    receiver_active: bool,
}

/// A queue's mutex, in terms of the values in the queue.
pub open spec fn items<T>(queue: MutexView<VecDeque<T>>) -> MutexView<Seq<T>> {
    MutexView {
        id: queue.id,
        inner: match queue.inner {
            Some(values) => Some(values@),
            None => None,
        },
        sync: queue.sync,
        asynch: queue.asynch,
    }
}

impl<T> View for Shared<T> {
    type V = ChannelView<T>;

    closed spec fn view(&self) -> ChannelView<T> {
        ChannelView {
            queue: items(self.queue@),
            condvar: self.condvar@,
            senders: self.sender_count,
            active: self.receiver_active,
        }
    }
}

/// A channel, and the wake-ups that have been asked for.
pub open spec fn scene<T>(channel: ChannelView<T>, wakes: Seq<Wake>) -> ChannelScene<T> {
    ChannelScene { channel, wakes }
}

/// What a receiver that has the queue in hand makes of it.
enum Served<T> {
    /// It takes a value and gives the queue back.
    Value(T),
    /// The queue is empty and there are no senders; it gives the queue back.
    Closed,
    /// The queue is empty, and the receiver has to wait.
    Empty(Guard<VecDeque<T>>),
}

impl<T> Shared<T> {
    /// The mutex and the condition variable are in order.
    pub closed spec fn wf(&self) -> bool {
        self.queue.wf() && self.condvar.wf()
    }

    /// Gives the queue back.
    fn give_back(&mut self, guard: Guard<VecDeque<T>>, wakes: &mut Vec<Wake>)
        requires
            old(self).wf(),
            old(self)@.queue.lent_to(guard),
        ensures
            final(self).wf(),
            scene(final(self)@, final(wakes)@) == scene(old(self)@, old(wakes)@).given_back(
                guard@@,
            ),
    {
        self.queue.unlock(guard, wakes);
        assert(scene(self@, wakes@) =~= scene(old(self)@, old(wakes)@).given_back(guard@@));
    }

    /// Takes the earliest value out of the queue that is in hand, or finds out whether there is one
    /// to wait for.
    fn serve(&mut self, guard: Guard<VecDeque<T>>, wakes: &mut Vec<Wake>) -> (r: Served<T>)
        requires
            old(self).wf(),
            old(self)@.queue.lent_to(guard),
        ensures
            final(self).wf(),
            match r {
                Served::Value(value) => guard@@.len() > 0 && value == guard@@[0] && scene(
                    final(self)@,
                    final(wakes)@,
                ) == scene(old(self)@, old(wakes)@).given_back(guard@@.drop_first()),
                Served::Closed => guard@@.len() == 0 && old(self)@.senders == 0 && scene(
                    final(self)@,
                    final(wakes)@,
                ) == scene(old(self)@, old(wakes)@).given_back(guard@@),
                Served::Empty(rest) => guard@@.len() == 0 && old(self)@.senders != 0 && rest@@
                    == guard@@ && rest.id() == guard.id() && *final(self) == *old(self)
                    && final(wakes)@ == old(wakes)@,
            },
    {
        let mut guard = guard;
        let value = guard.get_mut().pop_front();
        match value {
            Some(value) => {
                self.give_back(guard, wakes);
                Served::Value(value)
            },
            None => if self.sender_count == 0 {
                self.give_back(guard, wakes);
                Served::Closed
            } else {
                Served::Empty(guard)
            },
        }
    }
}

/// The sending side. There may be many.
pub struct Sender<T> {
    channel: Ghost<int>,
    marker: PhantomData<T>,
}

/// The receiving side. There is one.
pub struct Receiver<T> {
    channel: Ghost<int>,
    marker: PhantomData<T>,
}

impl<T> Sender<T> {
    /// The identity of the channel on which it sends.
    pub closed spec fn id(&self) -> int {
        self.channel@
    }
}

impl<T> Receiver<T> {
    /// The identity of the channel on which it receives.
    pub closed spec fn id(&self) -> int {
        self.channel@
    }
}

/// A new channel.
pub fn channel<T>() -> (r: (Shared<T>, Sender<T>, Receiver<T>))
    ensures
        r.0.wf(),
        r.0@ == ChannelView::<T>::fresh(r.0@.id()),
        r.1.id() == r.0@.id(),
        r.2.id() == r.0@.id(),
{
    let shared = Shared {
        queue: Mutex::new(VecDeque::new()),
        condvar: Condvar::new(),
        sender_count: 1,
        receiver_active: true,
    };
    let ghost id = shared@.id();
    assert(shared@ =~= ChannelView::<T>::fresh(id));
    let sender = Sender { channel: Ghost(id), marker: PhantomData };
    let receiver = Receiver { channel: Ghost(id), marker: PhantomData };
    (shared, sender, receiver)
}

impl<T> Shared<T> {
    /// Appends a value to the queue that is in hand, gives the queue back and notifies one of those
    /// who wait; without a receiver the value comes back.
    fn append(&mut self, t: T, guard: Guard<VecDeque<T>>, wakes: &mut Vec<Wake>) -> (r: Result<
        (),
        SendError<T>,
    >)
        requires
            old(self).wf(),
            old(self)@.queue.lent_to(guard),
        ensures
            final(self).wf(),
            scene(final(self)@, final(wakes)@) == mpsc_spec::appended(
                scene(old(self)@, old(wakes)@),
                guard@@,
                t,
            ),
            r == if old(self)@.active {
                Ok(())
            } else {
                Err(SendError(t))
            },
    {
        let mut guard = guard;
        if !self.receiver_active {
            self.give_back(guard, wakes);
            return Err(SendError(t));
        }
        guard.get_mut().push_back(t);
        self.give_back(guard, wakes);
        let ghost given_back = scene(self@, wakes@);
        self.condvar.notify_one(wakes);
        assert(scene(self@, wakes@) =~= given_back.notified_one());
        Ok(())
    }
}

impl<T> Sender<T> {
    /// Another sender of the same channel.
    pub fn clone(&self, shared: &mut Shared<T>) -> (r: Sender<T>)
        requires
            old(shared).wf(),
            self.id() == old(shared)@.id(),
        ensures
            final(shared).wf(),
            r.id() == self.id(),
            final(shared)@ == (ChannelView {
                senders: mpsc_spec::one_more(old(shared)@.senders),
                ..old(shared)@
            }),
    {
        shared.sender_count = shared.sender_count.wrapping_add(1);
        Sender { channel: self.channel, marker: PhantomData }
    }

    /// Ends a sender. The last one notifies all who wait.
    pub fn drop(self, shared: &mut Shared<T>, wakes: &mut Vec<Wake>)
        requires
            old(shared).wf(),
            self.id() == old(shared)@.id(),
        ensures
            final(shared).wf(),
            scene(final(shared)@, final(wakes)@) == mpsc_spec::sender_dropped(
                scene(old(shared)@, old(wakes)@),
            ),
    {
        let old_count: usize = shared.sender_count;
        shared.sender_count = old_count.wrapping_sub(1);
        if old_count == 1 {
            shared.condvar.notify_all(wakes);
        }
        assert(scene(shared@, wakes@) =~= mpsc_spec::sender_dropped(
            scene(old(shared)@, old(wakes)@),
        ));
    }

    /// A step of sending, spinning for the queue. The first one is given the value and gives it
    /// back if there is no receiver; the queue is taken in one step and given back, with the value
    /// appended, in the next.
    pub fn send_spin(
        &self,
        shared: &mut Shared<T>,
        call: Call<T, SendPhase<T>>,
        wakes: &mut Vec<Wake>,
    ) -> (r: Progress<SendPhase<T>, Result<(), SendError<T>>>)
        requires
            old(shared).wf(),
            self.id() == old(shared)@.id(),
            call matches Call::Resume(SendPhase::Append(_, guard)) ==> old(shared)@.queue.lent_to(
                guard,
            ),
        ensures
            final(shared).wf(),
            mpsc_spec::send_step(
                scene(old(shared)@, old(wakes)@),
                scene(final(shared)@, final(wakes)@),
                call,
                scene(old(shared)@, old(wakes)@),
                Pause::SpinLoop,
                r,
            ),
    {
        let t = match call {
            Call::Start(t) => {
                if !shared.receiver_active {
                    return Progress::Done(Err(SendError(t)));
                }
                t
            },
            Call::Resume(SendPhase::Lock(t)) => t,
            Call::Resume(SendPhase::Append(t, guard)) => {
                return Progress::Done(shared.append(t, guard, wakes));
            },
        };
        match shared.queue.lock_spin() {
            Progress::Done(guard) => Progress::Pause(SendPhase::Append(t, guard), Pause::Yield),
            Progress::Pause(_, pause) => Progress::Pause(SendPhase::Lock(t), pause),
        }
    }

    /// A step of sending, blocking for the queue.
    pub fn send_block(
        &self,
        shared: &mut Shared<T>,
        call: Call<T, SendPhase<T>>,
        caller: Caller,
        wakes: &mut Vec<Wake>,
    ) -> (r: Progress<SendPhase<T>, Result<(), SendError<T>>>)
        requires
            old(shared).wf(),
            self.id() == old(shared)@.id(),
            call matches Call::Resume(SendPhase::Append(_, guard)) ==> old(shared)@.queue.lent_to(
                guard,
            ),
        ensures
            final(shared).wf(),
            mpsc_spec::send_step(
                scene(old(shared)@, old(wakes)@),
                scene(final(shared)@, final(wakes)@),
                call,
                scene(old(shared)@, old(wakes)@).queued(caller.thread),
                Pause::Park,
                r,
            ),
    {
        let t = match call {
            Call::Start(t) => {
                if !shared.receiver_active {
                    return Progress::Done(Err(SendError(t)));
                }
                t
            },
            Call::Resume(SendPhase::Lock(t)) => t,
            Call::Resume(SendPhase::Append(t, guard)) => {
                return Progress::Done(shared.append(t, guard, wakes));
            },
        };
        match shared.queue.lock_block(caller.thread) {
            Progress::Done(guard) => Progress::Pause(SendPhase::Append(t, guard), Pause::Yield),
            Progress::Pause(_, pause) => Progress::Pause(SendPhase::Lock(t), pause),
        }
    }

    /// A step of sending, in the way that the thread may wait for the queue.
    pub fn send_sync(
        &self,
        shared: &mut Shared<T>,
        call: Call<T, SendPhase<T>>,
        caller: Caller,
        wakes: &mut Vec<Wake>,
    ) -> (r: Progress<SendPhase<T>, Result<(), SendError<T>>>)
        requires
            old(shared).wf(),
            self.id() == old(shared)@.id(),
            call matches Call::Resume(SendPhase::Append(_, guard)) ==> old(shared)@.queue.lent_to(
                guard,
            ),
        ensures
            final(shared).wf(),
            mpsc_spec::send_step(
                scene(old(shared)@, old(wakes)@),
                scene(final(shared)@, final(wakes)@),
                call,
                scene(old(shared)@, old(wakes)@).missed(caller),
                crate::mutex::sync_pause(caller),
                r,
            ),
    {
        let t = match call {
            Call::Start(t) => {
                if !shared.receiver_active {
                    return Progress::Done(Err(SendError(t)));
                }
                t
            },
            Call::Resume(SendPhase::Lock(t)) => t,
            Call::Resume(SendPhase::Append(t, guard)) => {
                return Progress::Done(shared.append(t, guard, wakes));
            },
        };
        match shared.queue.lock_sync(caller) {
            Progress::Done(guard) => Progress::Pause(SendPhase::Append(t, guard), Pause::Yield),
            Progress::Pause(_, pause) => Progress::Pause(SendPhase::Lock(t), pause),
        }
    }

    /// A step of sending, awaiting the queue.
    pub fn send_async(
        &self,
        shared: &mut Shared<T>,
        call: Call<T, SendPhase<T>>,
        continuation: u64,
        wakes: &mut Vec<Wake>,
    ) -> (r: Progress<SendPhase<T>, Result<(), SendError<T>>>)
        requires
            old(shared).wf(),
            self.id() == old(shared)@.id(),
            call matches Call::Resume(SendPhase::Append(_, guard)) ==> old(shared)@.queue.lent_to(
                guard,
            ),
        ensures
            final(shared).wf(),
            mpsc_spec::send_step(
                scene(old(shared)@, old(wakes)@),
                scene(final(shared)@, final(wakes)@),
                call,
                scene(old(shared)@, old(wakes)@).queued_async(continuation),
                Pause::Await(continuation),
                r,
            ),
    {
        let t = match call {
            Call::Start(t) => {
                if !shared.receiver_active {
                    return Progress::Done(Err(SendError(t)));
                }
                t
            },
            Call::Resume(SendPhase::Lock(t)) => t,
            Call::Resume(SendPhase::Append(t, guard)) => {
                return Progress::Done(shared.append(t, guard, wakes));
            },
        };
        match shared.queue.lock_async(continuation) {
            Progress::Done(guard) => Progress::Pause(SendPhase::Append(t, guard), Pause::Yield),
            Progress::Pause(_, pause) => Progress::Pause(SendPhase::Lock(t), pause),
        }
    }
}

impl<T> Receiver<T> {
    /// Takes the earliest value, if the queue is free and holds one.
    pub fn try_recv(&self, shared: &mut Shared<T>, wakes: &mut Vec<Wake>) -> (r: Result<
        T,
        TryRecvError,
    >)
        requires
            old(shared).wf(),
            self.id() == old(shared)@.id(),
        ensures
            final(shared).wf(),
            (scene(final(shared)@, final(wakes)@), r) == mpsc_spec::try_recv_step(
                scene(old(shared)@, old(wakes)@),
            ),
    {
        let guard = match shared.queue.try_lock() {
            Ok(guard) => guard,
            Err(_) => {
                return Err(TryRecvError::Empty);
            },
        };
        match shared.serve(guard, wakes) {
            Served::Value(t) => Ok(t),
            Served::Closed => Err(TryRecvError::Disconnected),
            Served::Empty(guard) => {
                shared.give_back(guard, wakes);
                Err(TryRecvError::Empty)
            },
        }
    }

    /// A step of receiving, spinning for the queue and for a value.
    pub fn recv_spin(
        &self,
        shared: &mut Shared<T>,
        phase: RecvPhase<SpinPhase>,
        flag: u64,
        raised: bool,
        caller: Caller,
        wakes: &mut Vec<Wake>,
    ) -> (r: Progress<RecvPhase<SpinPhase>, Result<T, RecvError>>)
        requires
            old(shared).wf(),
            self.id() == old(shared)@.id(),
        ensures
            final(shared).wf(),
            (scene(final(shared)@, final(wakes)@), r) == mpsc_spec::recv_spin_step(
                scene(old(shared)@, old(wakes)@),
                phase,
                flag,
                raised,
                caller,
            ),
    {
        let guard = match phase {
            RecvPhase::Lock => match shared.queue.lock_spin() {
                Progress::Done(guard) => guard,
                Progress::Pause(_, pause) => {
                    return Progress::Pause(RecvPhase::Lock, pause);
                },
            },
            RecvPhase::Wait(phase) => match shared.condvar.wait_spin(
                &mut shared.queue,
                Call::Resume(phase),
                flag,
                raised,
                caller,
                wakes,
            ) {
                Progress::Done(guard) => guard,
                Progress::Pause(next, pause) => {
                    return Progress::Pause(RecvPhase::Wait(next), pause);
                },
            },
        };
        match shared.serve(guard, wakes) {
            Served::Value(t) => Progress::Done(Ok(t)),
            Served::Closed => Progress::Done(Err(RecvError::Disconnected)),
            Served::Empty(guard) => {
                let (next, pause) = shared.condvar.start_spin(
                    &mut shared.queue,
                    guard,
                    flag,
                    wakes,
                );
                Progress::Pause(RecvPhase::Wait(next), pause)
            },
        }
    }

    /// A step of receiving, blocking for the queue and for a value.
    pub fn recv_block(
        &self,
        shared: &mut Shared<T>,
        phase: RecvPhase<BlockPhase>,
        caller: Caller,
        wakes: &mut Vec<Wake>,
    ) -> (r: Progress<RecvPhase<BlockPhase>, Result<T, RecvError>>)
        requires
            old(shared).wf(),
            self.id() == old(shared)@.id(),
        ensures
            final(shared).wf(),
            (scene(final(shared)@, final(wakes)@), r) == mpsc_spec::recv_block_step(
                scene(old(shared)@, old(wakes)@),
                phase,
                caller,
            ),
    {
        let guard = match phase {
            RecvPhase::Lock => match shared.queue.lock_block(caller.thread) {
                Progress::Done(guard) => guard,
                Progress::Pause(_, pause) => {
                    return Progress::Pause(RecvPhase::Lock, pause);
                },
            },
            RecvPhase::Wait(phase) => match shared.condvar.wait_block(
                &mut shared.queue,
                Call::Resume(phase),
                caller,
                wakes,
            ) {
                Progress::Done(guard) => guard,
                Progress::Pause(next, pause) => {
                    return Progress::Pause(RecvPhase::Wait(next), pause);
                },
            },
        };
        match shared.serve(guard, wakes) {
            Served::Value(t) => Progress::Done(Ok(t)),
            Served::Closed => Progress::Done(Err(RecvError::Disconnected)),
            Served::Empty(guard) => {
                let (next, pause) = shared.condvar.start_block(
                    &mut shared.queue,
                    guard,
                    caller,
                    wakes,
                );
                Progress::Pause(RecvPhase::Wait(next), pause)
            },
        }
    }

    /// A step of receiving, in the way that the thread may wait.
    pub fn recv_sync(
        &self,
        shared: &mut Shared<T>,
        phase: RecvPhase<SyncPhase>,
        flag: u64,
        raised: bool,
        caller: Caller,
        wakes: &mut Vec<Wake>,
    ) -> (r: Progress<RecvPhase<SyncPhase>, Result<T, RecvError>>)
        requires
            old(shared).wf(),
            self.id() == old(shared)@.id(),
        ensures
            final(shared).wf(),
            (scene(final(shared)@, final(wakes)@), r) == mpsc_spec::recv_sync_step(
                scene(old(shared)@, old(wakes)@),
                phase,
                flag,
                raised,
                caller,
            ),
    {
        let guard = match phase {
            RecvPhase::Lock => match shared.queue.lock_sync(caller) {
                Progress::Done(guard) => guard,
                Progress::Pause(_, pause) => {
                    return Progress::Pause(RecvPhase::Lock, pause);
                },
            },
            RecvPhase::Wait(phase) => match shared.condvar.wait_sync(
                &mut shared.queue,
                Call::Resume(phase),
                flag,
                raised,
                caller,
                wakes,
            ) {
                Progress::Done(guard) => guard,
                Progress::Pause(next, pause) => {
                    return Progress::Pause(RecvPhase::Wait(next), pause);
                },
            },
        };
        match shared.serve(guard, wakes) {
            Served::Value(t) => Progress::Done(Ok(t)),
            Served::Closed => Progress::Done(Err(RecvError::Disconnected)),
            Served::Empty(guard) => {
                let (next, pause) = shared.condvar.start_sync(
                    &mut shared.queue,
                    guard,
                    flag, caller,
                    wakes,
                );
                Progress::Pause(RecvPhase::Wait(next), pause)
            },
        }
    }

    /// A step of receiving, awaiting the queue and a value.
    pub fn recv_async(
        &self,
        shared: &mut Shared<T>,
        phase: RecvPhase<AsyncPhase>,
        ids: &mut WaiterIds,
        continuation: u64,
        wakes: &mut Vec<Wake>,
    ) -> (r: Progress<RecvPhase<AsyncPhase>, Result<T, RecvError>>)
        requires
            old(shared).wf(),
            self.id() == old(shared)@.id(),
        ensures
            final(shared).wf(),
            (scene(final(shared)@, final(wakes)@), r) == mpsc_spec::recv_async_step(
                scene(old(shared)@, old(wakes)@),
                phase,
                old(ids).spec_next(),
                continuation,
            ),
            final(ids).spec_next() == if mpsc_spec::starts_waiting(
                scene(old(shared)@, old(wakes)@),
                r,
            ) {
                wait_spec::id_after(old(ids).spec_next())
            } else {
                old(ids).spec_next()
            },
    {
        let guard = match phase {
            RecvPhase::Lock => match shared.queue.lock_async(continuation) {
                Progress::Done(guard) => guard,
                Progress::Pause(_, pause) => {
                    return Progress::Pause(RecvPhase::Lock, pause);
                },
            },
            RecvPhase::Wait(phase) => match shared.condvar.wait_async(
                &mut shared.queue,
                Call::Resume(phase),
                ids,
                continuation,
                wakes,
            ) {
                Progress::Done(guard) => guard,
                Progress::Pause(next, pause) => {
                    return Progress::Pause(RecvPhase::Wait(next), pause);
                },
            },
        };
        match shared.serve(guard, wakes) {
            Served::Value(t) => Progress::Done(Ok(t)),
            Served::Closed => Progress::Done(Err(RecvError::Disconnected)),
            Served::Empty(guard) => {
                let (next, pause) = shared.condvar.start_async(
                    &mut shared.queue,
                    guard,
                    ids, continuation,
                    wakes,
                );
                Progress::Pause(RecvPhase::Wait(next), pause)
            },
        }
    }

    /// A step of receiving until a deadline, spinning, when the clock shows `now`.
    pub fn recv_spin_timeout_at(
        &self,
        shared: &mut Shared<T>,
        phase: RecvPhase<SpinTimeoutPhase>,
        flag: u64,
        raised: bool,
        caller: Caller,
        now: Moment,
        deadline: Moment,
        wakes: &mut Vec<Wake>,
    ) -> (r: Progress<RecvPhase<SpinTimeoutPhase>, Result<T, RecvTimeoutError>>)
        requires
            old(shared).wf(),
            self.id() == old(shared)@.id(),
        ensures
            final(shared).wf(),
            (scene(final(shared)@, final(wakes)@), r) == mpsc_spec::recv_spin_timeout_step(
                scene(old(shared)@, old(wakes)@),
                phase,
                flag,
                raised,
                caller,
                now,
                deadline,
            ),
    {
        let guard = match phase {
            RecvPhase::Lock => match shared.queue.lock_spin_timeout_at(now, deadline) {
                Progress::Done(Some(guard)) => guard,
                Progress::Done(None) => {
                    return Progress::Done(Err(RecvTimeoutError::Timeout));
                },
                Progress::Pause(_, pause) => {
                    return Progress::Pause(RecvPhase::Lock, pause);
                },
            },
            RecvPhase::Wait(phase) => match shared.condvar.wait_spin_timeout_at(
                &mut shared.queue,
                Call::Resume(phase),
                flag,
                raised,
                caller,
                now,
                deadline,
                wakes,
            ) {
                Progress::Done((guard, result)) => {
                    if result.timed_out() {
                        shared.give_back(guard, wakes);
                        return Progress::Done(Err(RecvTimeoutError::Timeout));
                    }
                    guard
                },
                Progress::Pause(next, pause) => {
                    return Progress::Pause(RecvPhase::Wait(next), pause);
                },
            },
        };
        match shared.serve(guard, wakes) {
            Served::Value(t) => Progress::Done(Ok(t)),
            Served::Closed => Progress::Done(Err(RecvTimeoutError::Disconnected)),
            Served::Empty(guard) => {
                let (next, pause) = shared.condvar.start_spin_timeout(
                    &mut shared.queue,
                    guard,
                    flag,
                    wakes,
                );
                Progress::Pause(RecvPhase::Wait(next), pause)
            },
        }
    }

    /// A step of receiving until a deadline, spinning for the queue and for a value.
    pub fn recv_spin_timeout(
        &self,
        shared: &mut Shared<T>,
        phase: RecvPhase<SpinTimeoutPhase>,
        flag: u64,
        raised: bool,
        caller: Caller,
        deadline: web_time::Instant,
        wakes: &mut Vec<Wake>,
    ) -> (r: Progress<RecvPhase<SpinTimeoutPhase>, Result<T, RecvTimeoutError>>)
        requires
            old(shared).wf(),
            self.id() == old(shared)@.id(),
        ensures
            final(shared).wf(),
            mpsc_spec::recv_spin_timed(
                scene(old(shared)@, old(wakes)@),
                scene(final(shared)@, final(wakes)@),
                phase,
                flag,
                raised,
                caller,
                deadline,
                r,
            ),
    {
        let reads: bool = match &phase {
            RecvPhase::Lock => shared.queue.is_taken(),
            RecvPhase::Wait(wait) => wait.reads_clock(raised),
        };
        let due = time::due(reads, &deadline);
        let present = Moment { nanos: 0 };
        self.recv_spin_timeout_at(shared, phase, flag, raised, caller, present, due, wakes)
    }

    /// A step of receiving until a deadline, blocking, when the clock shows `now`, and `later` once
    /// the queue has been missed.
    pub fn recv_block_timeout_at(
        &self,
        shared: &mut Shared<T>,
        phase: RecvPhase<BlockTimeoutPhase>,
        caller: Caller,
        now: Moment,
        later: Moment,
        deadline: Moment,
        wakes: &mut Vec<Wake>,
    ) -> (r: Progress<RecvPhase<BlockTimeoutPhase>, Result<T, RecvTimeoutError>>)
        requires
            old(shared).wf(),
            self.id() == old(shared)@.id(),
        ensures
            final(shared).wf(),
            (scene(final(shared)@, final(wakes)@), r) == mpsc_spec::recv_block_timeout_step(
                scene(old(shared)@, old(wakes)@),
                phase,
                caller,
                now,
                later,
                deadline,
            ),
    {
        let guard = match phase {
            RecvPhase::Lock => match shared.queue.lock_block_timeout_at(
                caller.thread,
                now,
                later,
                deadline,
            ) {
                Progress::Done(Some(guard)) => guard,
                Progress::Done(None) => {
                    return Progress::Done(Err(RecvTimeoutError::Timeout));
                },
                Progress::Pause(_, pause) => {
                    return Progress::Pause(RecvPhase::Lock, pause);
                },
            },
            RecvPhase::Wait(phase) => match shared.condvar.wait_block_timeout_at(
                &mut shared.queue,
                Call::Resume(phase),
                caller,
                now,
                deadline,
                wakes,
            ) {
                Progress::Done((guard, result)) => {
                    if result.timed_out() {
                        shared.give_back(guard, wakes);
                        return Progress::Done(Err(RecvTimeoutError::Timeout));
                    }
                    guard
                },
                Progress::Pause(next, pause) => {
                    return Progress::Pause(RecvPhase::Wait(next), pause);
                },
            },
        };
        match shared.serve(guard, wakes) {
            Served::Value(t) => Progress::Done(Ok(t)),
            Served::Closed => Progress::Done(Err(RecvTimeoutError::Disconnected)),
            Served::Empty(guard) => {
                let (next, pause) = shared.condvar.start_block_timeout(
                    &mut shared.queue,
                    guard,
                    caller,
                    wakes,
                );
                Progress::Pause(RecvPhase::Wait(next), pause)
            },
        }
    }

    /// A step of receiving until a deadline, blocking for the queue and for a value.
    pub fn recv_block_timeout(
        &self,
        shared: &mut Shared<T>,
        phase: RecvPhase<BlockTimeoutPhase>,
        caller: Caller,
        deadline: web_time::Instant,
        wakes: &mut Vec<Wake>,
    ) -> (r: Progress<RecvPhase<BlockTimeoutPhase>, Result<T, RecvTimeoutError>>)
        requires
            old(shared).wf(),
            self.id() == old(shared)@.id(),
        ensures
            final(shared).wf(),
            mpsc_spec::recv_block_timed(
                scene(old(shared)@, old(wakes)@),
                scene(final(shared)@, final(wakes)@),
                phase,
                caller,
                deadline,
                r,
            ),
    {
        let present = Moment { nanos: 0 };
        let reads: bool = match &phase {
            RecvPhase::Lock => true,
            RecvPhase::Wait(wait) => wait.reads_clock(),
        };
        if !reads {
            return self.recv_block_timeout_at(
                shared,
                phase,
                caller,
                present,
                present,
                present,
                wakes,
            );
        }
        let reading = time::read();
        let due = time::moment(&reading, &deadline);
        let parks: bool = matches!(phase, RecvPhase::Lock) && shared.queue.is_taken()
            && !present.reached(due);
        if parks {
            let again = time::read();
            let later = time::moment(&reading, &again);
            self.recv_block_timeout_at(shared, phase, caller, present, later, due, wakes)
        } else {
            self.recv_block_timeout_at(shared, phase, caller, present, present, due, wakes)
        }
    }

    /// A step of receiving until a deadline, in the way that the thread may wait, when the clock
    /// shows `now`, and `later` once the queue has been missed.
    pub fn recv_sync_timeout_at(
        &self,
        shared: &mut Shared<T>,
        phase: RecvPhase<SyncTimeoutPhase>,
        flag: u64,
        raised: bool,
        caller: Caller,
        now: Moment,
        later: Moment,
        deadline: Moment,
        wakes: &mut Vec<Wake>,
    ) -> (r: Progress<RecvPhase<SyncTimeoutPhase>, Result<T, RecvTimeoutError>>)
        requires
            old(shared).wf(),
            self.id() == old(shared)@.id(),
        ensures
            final(shared).wf(),
            (scene(final(shared)@, final(wakes)@), r) == mpsc_spec::recv_sync_timeout_step(
                scene(old(shared)@, old(wakes)@),
                phase,
                flag,
                raised,
                caller,
                now,
                later,
                deadline,
            ),
    {
        let guard = match phase {
            RecvPhase::Lock => match shared.queue.lock_sync_timeout_at(
                caller,
                now,
                later,
                deadline,
            ) {
                Progress::Done(Some(guard)) => guard,
                Progress::Done(None) => {
                    return Progress::Done(Err(RecvTimeoutError::Timeout));
                },
                Progress::Pause(_, pause) => {
                    return Progress::Pause(RecvPhase::Lock, pause);
                },
            },
            RecvPhase::Wait(phase) => match shared.condvar.wait_sync_timeout_at(
                &mut shared.queue,
                Call::Resume(phase),
                flag,
                raised,
                caller,
                now,
                deadline,
                wakes,
            ) {
                Progress::Done((guard, result)) => {
                    if result.timed_out() {
                        shared.give_back(guard, wakes);
                        return Progress::Done(Err(RecvTimeoutError::Timeout));
                    }
                    guard
                },
                Progress::Pause(next, pause) => {
                    return Progress::Pause(RecvPhase::Wait(next), pause);
                },
            },
        };
        match shared.serve(guard, wakes) {
            Served::Value(t) => Progress::Done(Ok(t)),
            Served::Closed => Progress::Done(Err(RecvTimeoutError::Disconnected)),
            Served::Empty(guard) => {
                let (next, pause) = shared.condvar.start_sync_timeout(
                    &mut shared.queue,
                    guard,
                    flag, caller,
                    wakes,
                );
                Progress::Pause(RecvPhase::Wait(next), pause)
            },
        }
    }

    /// A step of receiving until a deadline, in the way that the thread may wait.
    pub fn recv_sync_timeout(
        &self,
        shared: &mut Shared<T>,
        phase: RecvPhase<SyncTimeoutPhase>,
        flag: u64,
        raised: bool,
        caller: Caller,
        deadline: web_time::Instant,
        wakes: &mut Vec<Wake>,
    ) -> (r: Progress<RecvPhase<SyncTimeoutPhase>, Result<T, RecvTimeoutError>>)
        requires
            old(shared).wf(),
            self.id() == old(shared)@.id(),
        ensures
            final(shared).wf(),
            mpsc_spec::recv_sync_timed(
                scene(old(shared)@, old(wakes)@),
                scene(final(shared)@, final(wakes)@),
                phase,
                flag,
                raised,
                caller,
                deadline,
                r,
            ),
    {
        let present = Moment { nanos: 0 };
        let reads: bool = match &phase {
            RecvPhase::Lock => caller.can_block || shared.queue.is_taken(),
            RecvPhase::Wait(wait) => wait.reads_clock(raised),
        };
        if !reads {
            return self.recv_sync_timeout_at(
                shared,
                phase,
                flag,
                raised,
                caller,
                present,
                present,
                present,
                wakes,
            );
        }
        let reading = time::read();
        let due = time::moment(&reading, &deadline);
        let parks: bool = matches!(phase, RecvPhase::Lock) && caller.can_block
            && shared.queue.is_taken() && !present.reached(due);
        if parks {
            let again = time::read();
            let later = time::moment(&reading, &again);
            self.recv_sync_timeout_at(
                shared,
                phase,
                flag,
                raised,
                caller,
                present,
                later,
                due,
                wakes,
            )
        } else {
            self.recv_sync_timeout_at(
                shared,
                phase,
                flag,
                raised,
                caller,
                present,
                present,
                due,
                wakes,
            )
        }
    }

    /// A step of receiving until a deadline, awaiting, when the clock shows `now`. It is told
    /// whether the deadline has won the race that the step before asked for.
    pub fn recv_async_timeout_at(
        &self,
        shared: &mut Shared<T>,
        phase: RecvPhase<AsyncTimeoutPhase>,
        ids: &mut WaiterIds,
        timed_out: bool,
        continuation: u64,
        now: Moment,
        deadline: Moment,
        wakes: &mut Vec<Wake>,
    ) -> (r: Progress<RecvPhase<AsyncTimeoutPhase>, Result<T, RecvTimeoutError>>)
        requires
            old(shared).wf(),
            self.id() == old(shared)@.id(),
        ensures
            final(shared).wf(),
            (scene(final(shared)@, final(wakes)@), r) == mpsc_spec::recv_async_timeout_step(
                scene(old(shared)@, old(wakes)@),
                phase,
                old(ids).spec_next(),
                timed_out,
                continuation,
                now,
                deadline,
            ),
            final(ids).spec_next() == if mpsc_spec::starts_waiting(
                scene(old(shared)@, old(wakes)@),
                r,
            ) {
                wait_spec::id_after(old(ids).spec_next())
            } else {
                old(ids).spec_next()
            },
    {
        let guard = match phase {
            RecvPhase::Lock => match shared.queue.lock_async_timeout_at(
                timed_out,
                continuation,
                now,
                deadline,
            ) {
                Progress::Done(Some(guard)) => guard,
                Progress::Done(None) => {
                    return Progress::Done(Err(RecvTimeoutError::Timeout));
                },
                Progress::Pause(_, pause) => {
                    return Progress::Pause(RecvPhase::Lock, pause);
                },
            },
            RecvPhase::Wait(phase) => match shared.condvar.wait_async_timeout(
                &mut shared.queue,
                Call::Resume(phase),
                ids,
                timed_out,
                continuation,
                wakes,
            ) {
                Progress::Done((guard, result)) => {
                    if result.timed_out() {
                        shared.give_back(guard, wakes);
                        return Progress::Done(Err(RecvTimeoutError::Timeout));
                    }
                    guard
                },
                Progress::Pause(next, pause) => {
                    return Progress::Pause(RecvPhase::Wait(next), pause);
                },
            },
        };
        match shared.serve(guard, wakes) {
            Served::Value(t) => Progress::Done(Ok(t)),
            Served::Closed => Progress::Done(Err(RecvTimeoutError::Disconnected)),
            Served::Empty(guard) => {
                let (next, pause) = shared.condvar.start_async_timeout(
                    &mut shared.queue,
                    guard,
                    ids, continuation,
                    wakes,
                );
                Progress::Pause(RecvPhase::Wait(next), pause)
            },
        }
    }

    /// A step of receiving until a deadline, awaiting the queue and a value. It is told whether the
    /// deadline has won the race that the step before asked for.
    pub fn recv_async_timeout(
        &self,
        shared: &mut Shared<T>,
        phase: RecvPhase<AsyncTimeoutPhase>,
        ids: &mut WaiterIds,
        timed_out: bool,
        continuation: u64,
        deadline: web_time::Instant,
        wakes: &mut Vec<Wake>,
    ) -> (r: Progress<RecvPhase<AsyncTimeoutPhase>, Result<T, RecvTimeoutError>>)
        requires
            old(shared).wf(),
            self.id() == old(shared)@.id(),
        ensures
            final(shared).wf(),
            mpsc_spec::recv_async_timed(
                scene(old(shared)@, old(wakes)@),
                scene(final(shared)@, final(wakes)@),
                phase,
                old(ids).spec_next(),
                timed_out,
                continuation,
                deadline,
                r,
            ),
            final(ids).spec_next() == if mpsc_spec::starts_waiting(
                scene(old(shared)@, old(wakes)@),
                r,
            ) {
                wait_spec::id_after(old(ids).spec_next())
            } else {
                old(ids).spec_next()
            },
    {
        let due = time::due(matches!(phase, RecvPhase::Lock) && !timed_out, &deadline);
        let present = Moment { nanos: 0 };
        self.recv_async_timeout_at(
            shared,
            phase,
            ids,
            timed_out,
            continuation,
            present,
            due,
            wakes,
        )
    }

    /// Ends the receiver: nothing can be sent any more, and all who wait are notified.
    pub fn drop(self, shared: &mut Shared<T>, wakes: &mut Vec<Wake>)
        requires
            old(shared).wf(),
            self.id() == old(shared)@.id(),
        ensures
            final(shared).wf(),
            scene(final(shared)@, final(wakes)@) == mpsc_spec::receiver_dropped(
                scene(old(shared)@, old(wakes)@),
            ),
    {
        shared.receiver_active = false;
        shared.condvar.notify_all(wakes);
        assert(scene(shared@, wakes@) =~= mpsc_spec::receiver_dropped(
            scene(old(shared)@, old(wakes)@),
        ));
    }

    /// Receives value after value.
    pub fn into_iter(self) -> (r: IntoIter<T>)
        ensures
            r@ == self,
    {
        IntoIter { rx: self }
    }
}

/// Values as they are received, until there are no senders left.
pub struct IntoIter<T> {
    rx: Receiver<T>,
}

impl<T> View for IntoIter<T> {
    type V = Receiver<T>;

    closed spec fn view(&self) -> Receiver<T> {
        self.rx
    }
}

impl<T> IntoIter<T> {
    /// A step towards the next value, in the way that the thread may wait. There is none once the
    /// queue is empty and there are no senders left.
    pub fn next(
        &self,
        shared: &mut Shared<T>,
        phase: RecvPhase<SyncPhase>,
        flag: u64,
        raised: bool,
        caller: Caller,
        wakes: &mut Vec<Wake>,
    ) -> (r: Progress<RecvPhase<SyncPhase>, Option<T>>)
        requires
            old(shared).wf(),
            self@.id() == old(shared)@.id(),
        ensures
            final(shared).wf(),
            (scene(final(shared)@, final(wakes)@), r) == mpsc_spec::next_step(
                scene(old(shared)@, old(wakes)@),
                phase,
                flag,
                raised,
                caller,
            ),
    {
        match self.rx.recv_sync(shared, phase, flag, raised, caller, wakes) {
            Progress::Done(Ok(t)) => Progress::Done(Some(t)),
            Progress::Done(Err(_)) => Progress::Done(None),
            Progress::Pause(next, pause) => Progress::Pause(next, pause),
        }
    }
}

} // verus!

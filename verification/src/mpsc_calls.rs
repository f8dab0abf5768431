//! What the calls on a channel come to: what is given back, and what changes, for what was given.
use crate::condvar::{
    AsyncPhase, AsyncTimeoutPhase, BlockPhase, BlockTimeoutPhase, SpinPhase, SpinTimeoutPhase,
    SyncPhase, SyncTimeoutPhase, WaiterIds,
};
use crate::condvar_calls::{
    joined_async, joined_spin, joined_sync, left_async, left_spin, left_sync, lemma_left,
    lemma_left_async,
};
use crate::mpsc;
use crate::mpsc::{
    IntoIter, Receiver, RecvError, RecvPhase, RecvTimeoutError, SendError, SendPhase, Sender,
    Shared, TryRecvError,
};
use crate::mutex_calls::{freed, handed_back, lemma_freed, listed, listed_async, missed};
use crate::step::{Call, Caller, Pause, Progress, Wake};
use crate::time;
use crate::time::Moment;
use crate::wait_spec::CondvarView;
use std::collections::VecDeque;
use vstd::prelude::*;

verus! {

/// One waiter has been notified: the latest of those who spin; if nobody spins, the latest of those
/// who are parked; if nobody is parked either, the latest of the tasks. It alone is off its list,
/// and it is woken.
pub open spec fn notified_one(
    pre: CondvarView,
    post: CondvarView,
    wakes: Seq<Wake>,
    woken: Seq<Wake>,
) -> bool {
    if pre.spin.len() > 0 {
        &&& post.spin == pre.spin.drop_last()
        &&& post.sync == pre.sync
        &&& post.asynch == pre.asynch
        &&& woken =~= wakes.push(Wake::Flag(pre.spin.last()))
    } else if pre.sync.len() > 0 {
        &&& post.spin == pre.spin
        &&& post.sync == pre.sync.drop_last()
        &&& post.asynch == pre.asynch
        &&& woken =~= wakes.push(Wake::Thread(pre.sync.last()))
    } else if pre.asynch.len() > 0 {
        &&& post.spin == pre.spin
        &&& post.sync == pre.sync
        &&& post.asynch == pre.asynch.drop_last()
        &&& woken =~= wakes.push(Wake::Continuation(pre.asynch.last().sender))
    } else {
        &&& post == pre
        &&& woken =~= wakes
    }
}

/// All waiters have been notified: nobody waits any more, and each is woken once.
pub open spec fn notified_all(
    pre: CondvarView,
    post: CondvarView,
    wakes: Seq<Wake>,
    woken: Seq<Wake>,
) -> bool {
    &&& post.spin.len() == 0
    &&& post.sync.len() == 0
    &&& post.asynch.len() == 0
    &&& woken =~= wakes + Seq::new(pre.spin.len(), |i: int| Wake::Flag(pre.spin[i])) + Seq::new(
        pre.sync.len(),
        |i: int| Wake::Thread(pre.sync[i]),
    ) + Seq::new(pre.asynch.len(), |i: int| Wake::Continuation(pre.asynch[i].sender))
}

/// A new channel is empty, with one sender, a receiver and nobody who waits.
pub proof fn law_new_channel_is_empty<T>(r: (Shared<T>, Sender<T>, Receiver<T>))
    requires
        call_ensures(mpsc::channel::<T>, (), r),
    ensures
        r.0@.queue.inner matches Some(items) && items.len() == 0,
        r.0@.queue.sync.len() == 0,
        r.0@.queue.asynch.len() == 0,
        r.0@.condvar.spin.len() == 0,
        r.0@.condvar.sync.len() == 0,
        r.0@.condvar.asynch.len() == 0,
        r.0@.senders == 1,
        r.0@.active,
        r.1.id() == r.0@.queue.id,
        r.2.id() == r.0@.queue.id,
{
}

/// Cloning a sender counts one more, of the same channel, and changes nothing else.
pub proof fn law_clone_counts_one_more<T>(
    sender: &Sender<T>,
    shared: &mut Shared<T>,
    r: Sender<T>,
)
    requires
        call_ensures(Sender::<T>::clone, (sender, shared), r),
    ensures
        r.id() == sender.id(),
        old(shared)@.senders < usize::MAX ==> final(shared)@.senders == old(shared)@.senders + 1,
        old(shared)@.senders == usize::MAX ==> final(shared)@.senders == 0,
        final(shared)@.queue == old(shared)@.queue,
        final(shared)@.condvar == old(shared)@.condvar,
        final(shared)@.active == old(shared)@.active,
{
}

/// The end of a sender counts one less. The last one notifies all who wait; another notifies
/// nobody.
pub proof fn law_drop_of_a_sender_counts_one_less<T>(
    sender: Sender<T>,
    shared: &mut Shared<T>,
    wakes: &mut Vec<Wake>,
)
    requires
        call_ensures(Sender::<T>::drop, (sender, shared, wakes), ()),
    ensures
        old(shared)@.senders > 0 ==> final(shared)@.senders == old(shared)@.senders - 1,
        old(shared)@.senders == 1 ==> notified_all(
            old(shared)@.condvar,
            final(shared)@.condvar,
            old(wakes)@,
            final(wakes)@,
        ),
        old(shared)@.senders != 1 ==> final(shared)@.condvar == old(shared)@.condvar
            && final(wakes)@ == old(wakes)@,
        final(shared)@.queue == old(shared)@.queue,
        final(shared)@.active == old(shared)@.active,
{
}

/// The end of the receiver closes the channel to senders and notifies all who wait.
pub proof fn law_drop_of_the_receiver_closes<T>(
    receiver: Receiver<T>,
    shared: &mut Shared<T>,
    wakes: &mut Vec<Wake>,
)
    requires
        call_ensures(Receiver::<T>::drop, (receiver, shared, wakes), ()),
    ensures
        !final(shared)@.active,
        notified_all(
            old(shared)@.condvar,
            final(shared)@.condvar,
            old(wakes)@,
            final(wakes)@,
        ),
        final(shared)@.queue == old(shared)@.queue,
        final(shared)@.senders == old(shared)@.senders,
{
}

/// `try_recv` takes the earliest value of a free queue; it says that an empty one is disconnected
/// exactly if there are no senders, and that a locked one is empty; without a value nothing changes
/// in the queue.
pub proof fn law_try_recv_takes_the_earliest<T>(
    receiver: &Receiver<T>,
    shared: &mut Shared<T>,
    wakes: &mut Vec<Wake>,
    r: Result<T, TryRecvError>,
)
    requires
        call_ensures(Receiver::<T>::try_recv, (receiver, shared, wakes), r),
    ensures
        old(shared)@.queue.inner is None ==> r == Err::<T, TryRecvError>(TryRecvError::Empty)
            && final(shared)@ == old(shared)@ && final(wakes)@ == old(wakes)@,
        old(shared)@.queue.inner matches Some(items) ==> items.len() > 0 ==> r == Ok::<
            T,
            TryRecvError,
        >(items[0]) && handed_back(
            old(shared)@.queue,
            final(shared)@.queue,
            items.drop_first(),
            old(wakes)@,
            final(wakes)@,
        ),
        old(shared)@.queue.inner matches Some(items) ==> items.len() == 0 ==> handed_back(
            old(shared)@.queue,
            final(shared)@.queue,
            items,
            old(wakes)@,
            final(wakes)@,
        ) && r == Err::<T, TryRecvError>(
            if old(shared)@.senders == 0 {
                TryRecvError::Disconnected
            } else {
                TryRecvError::Empty
            },
        ),
        final(shared)@.condvar == old(shared)@.condvar,
        final(shared)@.senders == old(shared)@.senders,
        final(shared)@.active == old(shared)@.active,
{
    lemma_freed(old(shared)@.queue);
}

/// An iterator is its receiver: it receives on the same channel.
pub proof fn law_into_iter_keeps_the_receiver<T>(receiver: Receiver<T>, r: IntoIter<T>)
    requires
        call_ensures(Receiver::<T>::into_iter, (receiver,), r),
    ensures
        r@ == receiver,
        r@.id() == receiver.id(),
{
}

/// The next value of an iterator is what `recv_sync` receives, and there is none when that says
/// that the channel is disconnected: from the same state both come to the same.
pub proof fn law_next_is_what_is_received<T>(
    values: &IntoIter<T>,
    receiver: &Receiver<T>,
    shared: &mut Shared<T>,
    other: &mut Shared<T>,
    phase: RecvPhase<SyncPhase>,
    flag: u64,
    raised: bool,
    caller: Caller,
    wakes: &mut Vec<Wake>,
    others: &mut Vec<Wake>,
    r: Progress<RecvPhase<SyncPhase>, Option<T>>,
    received: Progress<RecvPhase<SyncPhase>, Result<T, RecvError>>,
)
    requires
        call_ensures(
            IntoIter::<T>::next,
            (values, shared, phase, flag, raised, caller, wakes),
            r,
        ),
        call_ensures(
            Receiver::<T>::recv_sync,
            (receiver, other, phase, flag, raised, caller, others),
            received,
        ),
        old(shared)@ == old(other)@,
        old(wakes)@ == old(others)@,
    ensures
        final(shared)@ == final(other)@,
        final(wakes)@ == final(others)@,
        received matches Progress::Done(Ok(value)) ==> r == Progress::<
            RecvPhase<SyncPhase>,
            Option<T>,
        >::Done(Some(value)),
        received matches Progress::Done(Err(_)) ==> r == Progress::<
            RecvPhase<SyncPhase>,
            Option<T>,
        >::Done(None),
        received matches Progress::Pause(next, pause) ==> r == Progress::<
            RecvPhase<SyncPhase>,
            Option<T>,
        >::Pause(next, pause),
{
}

/// What each step of `send_spin` comes to. Without a receiver the value comes back, at once or when
/// the queue is in hand. Else the queue is taken as soon as it is free, the value becomes its last,
/// and one of those who wait for a value is woken.
pub proof fn law_send_spin_answers<T>(
    sender: &Sender<T>,
    shared: &mut Shared<T>,
    call: Call<T, SendPhase<T>>,
    wakes: &mut Vec<Wake>,
    r: Progress<SendPhase<T>, Result<(), SendError<T>>>,
)
    requires
        call_ensures(Sender::<T>::send_spin, (sender, shared, call, wakes), r),
    ensures
        call matches Call::Start(value)
            ==> !old(shared)@.active
                ==> r
                    ==
                        Progress::<SendPhase<T>, Result<(), SendError<T>>>::Done(
                            Err(SendError(value)),
                        )
                && final(shared)@ == old(shared)@
                && final(wakes)@ == old(wakes)@,
        call matches Call::Start(value)
            ==> old(shared)@.active && old(shared)@.queue.inner is Some
                ==> (
                    r matches Progress::Pause(SendPhase::Append(kept, guard), Pause::Yield)
                    && kept == value
                    && Some(guard@@) == old(shared)@.queue.inner
                    && guard.id() == old(shared)@.queue.id
                )
                && final(shared)@.queue.inner is None
                && final(shared)@.queue.id == old(shared)@.queue.id
                && final(shared)@.queue.sync == old(shared)@.queue.sync
                && final(shared)@.queue.asynch == old(shared)@.queue.asynch
                && final(shared)@.condvar == old(shared)@.condvar
                && final(shared)@.senders == old(shared)@.senders
                && final(shared)@.active == old(shared)@.active
                && final(wakes)@ == old(wakes)@,
        call matches Call::Start(value)
            ==> old(shared)@.active && old(shared)@.queue.inner is None
                ==> (
                    r matches Progress::Pause(SendPhase::Lock(kept), pause)
                    && kept == value
                    && final(shared)@ == old(shared)@
                    && pause == Pause::SpinLoop
                )
                && final(wakes)@ == old(wakes)@,
        call matches Call::Resume(SendPhase::Lock(value))
            ==> old(shared)@.queue.inner is Some
                ==> (
                    r matches Progress::Pause(SendPhase::Append(kept, guard), Pause::Yield)
                    && kept == value
                    && Some(guard@@) == old(shared)@.queue.inner
                    && guard.id() == old(shared)@.queue.id
                )
                && final(shared)@.queue.inner is None
                && final(shared)@.queue.id == old(shared)@.queue.id
                && final(shared)@.queue.sync == old(shared)@.queue.sync
                && final(shared)@.queue.asynch == old(shared)@.queue.asynch
                && final(shared)@.condvar == old(shared)@.condvar
                && final(shared)@.senders == old(shared)@.senders
                && final(shared)@.active == old(shared)@.active
                && final(wakes)@ == old(wakes)@,
        call matches Call::Resume(SendPhase::Lock(value))
            ==> old(shared)@.queue.inner is None
                ==> (
                    r matches Progress::Pause(SendPhase::Lock(kept), pause)
                    && kept == value
                    && final(shared)@ == old(shared)@
                    && pause == Pause::SpinLoop
                )
                && final(wakes)@ == old(wakes)@,
        call matches Call::Resume(SendPhase::Append(value, guard))
            ==> old(shared)@.active
                ==> r == Progress::<SendPhase<T>, Result<(), SendError<T>>>::Done(Ok(()))
                && final(shared)@.queue.inner == Some(guard@@.push(value))
                && final(shared)@.queue.id == old(shared)@.queue.id
                && final(shared)@.queue.sync.len() == 0
                && final(shared)@.queue.asynch.len() == 0
                && notified_one(
                    old(shared)@.condvar,
                    final(shared)@.condvar,
                    old(wakes)@ + freed(old(shared)@.queue),
                    final(wakes)@,
                )
                && final(shared)@.senders == old(shared)@.senders
                && final(shared)@.active == old(shared)@.active,
        call matches Call::Resume(SendPhase::Append(value, guard))
            ==> !old(shared)@.active
                ==> r
                    ==
                        Progress::<SendPhase<T>, Result<(), SendError<T>>>::Done(
                            Err(SendError(value)),
                        )
                && handed_back(
                    old(shared)@.queue,
                    final(shared)@.queue,
                    guard@@,
                    old(wakes)@,
                    final(wakes)@,
                )
                && final(shared)@.condvar == old(shared)@.condvar
                && final(shared)@.senders == old(shared)@.senders
                && final(shared)@.active == old(shared)@.active,
{
    lemma_freed(old(shared)@.queue);
}

/// What each step of `send_block` comes to. Without a receiver the value comes back, at once or
/// when the queue is in hand. Else the queue is taken as soon as it is free, the value becomes its
/// last, and one of those who wait for a value is woken.
pub proof fn law_send_block_answers<T>(
    sender: &Sender<T>,
    shared: &mut Shared<T>,
    call: Call<T, SendPhase<T>>,
    caller: Caller,
    wakes: &mut Vec<Wake>,
    r: Progress<SendPhase<T>, Result<(), SendError<T>>>,
)
    requires
        call_ensures(Sender::<T>::send_block, (sender, shared, call, caller, wakes), r),
    ensures
        call matches Call::Start(value)
            ==> !old(shared)@.active
                ==> r
                    ==
                        Progress::<SendPhase<T>, Result<(), SendError<T>>>::Done(
                            Err(SendError(value)),
                        )
                && final(shared)@ == old(shared)@
                && final(wakes)@ == old(wakes)@,
        call matches Call::Start(value)
            ==> old(shared)@.active && old(shared)@.queue.inner is Some
                ==> (
                    r matches Progress::Pause(SendPhase::Append(kept, guard), Pause::Yield)
                    && kept == value
                    && Some(guard@@) == old(shared)@.queue.inner
                    && guard.id() == old(shared)@.queue.id
                )
                && final(shared)@.queue.inner is None
                && final(shared)@.queue.id == old(shared)@.queue.id
                && final(shared)@.queue.sync == old(shared)@.queue.sync
                && final(shared)@.queue.asynch == old(shared)@.queue.asynch
                && final(shared)@.condvar == old(shared)@.condvar
                && final(shared)@.senders == old(shared)@.senders
                && final(shared)@.active == old(shared)@.active
                && final(wakes)@ == old(wakes)@,
        call matches Call::Start(value)
            ==> old(shared)@.active && old(shared)@.queue.inner is None
                ==> (
                    r matches Progress::Pause(SendPhase::Lock(kept), pause)
                    && kept == value
                    && listed(old(shared)@.queue, final(shared)@.queue, caller.thread)
                    && final(shared)@.condvar == old(shared)@.condvar
                    && final(shared)@.senders == old(shared)@.senders
                    && final(shared)@.active == old(shared)@.active
                    && pause == Pause::Park
                )
                && final(wakes)@ == old(wakes)@,
        call matches Call::Resume(SendPhase::Lock(value))
            ==> old(shared)@.queue.inner is Some
                ==> (
                    r matches Progress::Pause(SendPhase::Append(kept, guard), Pause::Yield)
                    && kept == value
                    && Some(guard@@) == old(shared)@.queue.inner
                    && guard.id() == old(shared)@.queue.id
                )
                && final(shared)@.queue.inner is None
                && final(shared)@.queue.id == old(shared)@.queue.id
                && final(shared)@.queue.sync == old(shared)@.queue.sync
                && final(shared)@.queue.asynch == old(shared)@.queue.asynch
                && final(shared)@.condvar == old(shared)@.condvar
                && final(shared)@.senders == old(shared)@.senders
                && final(shared)@.active == old(shared)@.active
                && final(wakes)@ == old(wakes)@,
        call matches Call::Resume(SendPhase::Lock(value))
            ==> old(shared)@.queue.inner is None
                ==> (
                    r matches Progress::Pause(SendPhase::Lock(kept), pause)
                    && kept == value
                    && listed(old(shared)@.queue, final(shared)@.queue, caller.thread)
                    && final(shared)@.condvar == old(shared)@.condvar
                    && final(shared)@.senders == old(shared)@.senders
                    && final(shared)@.active == old(shared)@.active
                    && pause == Pause::Park
                )
                && final(wakes)@ == old(wakes)@,
        call matches Call::Resume(SendPhase::Append(value, guard))
            ==> old(shared)@.active
                ==> r == Progress::<SendPhase<T>, Result<(), SendError<T>>>::Done(Ok(()))
                && final(shared)@.queue.inner == Some(guard@@.push(value))
                && final(shared)@.queue.id == old(shared)@.queue.id
                && final(shared)@.queue.sync.len() == 0
                && final(shared)@.queue.asynch.len() == 0
                && notified_one(
                    old(shared)@.condvar,
                    final(shared)@.condvar,
                    old(wakes)@ + freed(old(shared)@.queue),
                    final(wakes)@,
                )
                && final(shared)@.senders == old(shared)@.senders
                && final(shared)@.active == old(shared)@.active,
        call matches Call::Resume(SendPhase::Append(value, guard))
            ==> !old(shared)@.active
                ==> r
                    ==
                        Progress::<SendPhase<T>, Result<(), SendError<T>>>::Done(
                            Err(SendError(value)),
                        )
                && handed_back(
                    old(shared)@.queue,
                    final(shared)@.queue,
                    guard@@,
                    old(wakes)@,
                    final(wakes)@,
                )
                && final(shared)@.condvar == old(shared)@.condvar
                && final(shared)@.senders == old(shared)@.senders
                && final(shared)@.active == old(shared)@.active,
{
    lemma_freed(old(shared)@.queue);
}

/// What each step of `send_sync` comes to. Without a receiver the value comes back, at once or when
/// the queue is in hand. Else the queue is taken as soon as it is free, the value becomes its last,
/// and one of those who wait for a value is woken.
pub proof fn law_send_sync_answers<T>(
    sender: &Sender<T>,
    shared: &mut Shared<T>,
    call: Call<T, SendPhase<T>>,
    caller: Caller,
    wakes: &mut Vec<Wake>,
    r: Progress<SendPhase<T>, Result<(), SendError<T>>>,
)
    requires
        call_ensures(Sender::<T>::send_sync, (sender, shared, call, caller, wakes), r),
    ensures
        call matches Call::Start(value)
            ==> !old(shared)@.active
                ==> r
                    ==
                        Progress::<SendPhase<T>, Result<(), SendError<T>>>::Done(
                            Err(SendError(value)),
                        )
                && final(shared)@ == old(shared)@
                && final(wakes)@ == old(wakes)@,
        call matches Call::Start(value)
            ==> old(shared)@.active && old(shared)@.queue.inner is Some
                ==> (
                    r matches Progress::Pause(SendPhase::Append(kept, guard), Pause::Yield)
                    && kept == value
                    && Some(guard@@) == old(shared)@.queue.inner
                    && guard.id() == old(shared)@.queue.id
                )
                && final(shared)@.queue.inner is None
                && final(shared)@.queue.id == old(shared)@.queue.id
                && final(shared)@.queue.sync == old(shared)@.queue.sync
                && final(shared)@.queue.asynch == old(shared)@.queue.asynch
                && final(shared)@.condvar == old(shared)@.condvar
                && final(shared)@.senders == old(shared)@.senders
                && final(shared)@.active == old(shared)@.active
                && final(wakes)@ == old(wakes)@,
        call matches Call::Start(value)
            ==> old(shared)@.active && old(shared)@.queue.inner is None
                ==> (
                    r matches Progress::Pause(SendPhase::Lock(kept), pause)
                    && kept == value
                    && missed(old(shared)@.queue, final(shared)@.queue, caller, pause)
                    && final(shared)@.condvar == old(shared)@.condvar
                    && final(shared)@.senders == old(shared)@.senders
                    && final(shared)@.active == old(shared)@.active
                )
                && final(wakes)@ == old(wakes)@,
        call matches Call::Resume(SendPhase::Lock(value))
            ==> old(shared)@.queue.inner is Some
                ==> (
                    r matches Progress::Pause(SendPhase::Append(kept, guard), Pause::Yield)
                    && kept == value
                    && Some(guard@@) == old(shared)@.queue.inner
                    && guard.id() == old(shared)@.queue.id
                )
                && final(shared)@.queue.inner is None
                && final(shared)@.queue.id == old(shared)@.queue.id
                && final(shared)@.queue.sync == old(shared)@.queue.sync
                && final(shared)@.queue.asynch == old(shared)@.queue.asynch
                && final(shared)@.condvar == old(shared)@.condvar
                && final(shared)@.senders == old(shared)@.senders
                && final(shared)@.active == old(shared)@.active
                && final(wakes)@ == old(wakes)@,
        call matches Call::Resume(SendPhase::Lock(value))
            ==> old(shared)@.queue.inner is None
                ==> (
                    r matches Progress::Pause(SendPhase::Lock(kept), pause)
                    && kept == value
                    && missed(old(shared)@.queue, final(shared)@.queue, caller, pause)
                    && final(shared)@.condvar == old(shared)@.condvar
                    && final(shared)@.senders == old(shared)@.senders
                    && final(shared)@.active == old(shared)@.active
                )
                && final(wakes)@ == old(wakes)@,
        call matches Call::Resume(SendPhase::Append(value, guard))
            ==> old(shared)@.active
                ==> r == Progress::<SendPhase<T>, Result<(), SendError<T>>>::Done(Ok(()))
                && final(shared)@.queue.inner == Some(guard@@.push(value))
                && final(shared)@.queue.id == old(shared)@.queue.id
                && final(shared)@.queue.sync.len() == 0
                && final(shared)@.queue.asynch.len() == 0
                && notified_one(
                    old(shared)@.condvar,
                    final(shared)@.condvar,
                    old(wakes)@ + freed(old(shared)@.queue),
                    final(wakes)@,
                )
                && final(shared)@.senders == old(shared)@.senders
                && final(shared)@.active == old(shared)@.active,
        call matches Call::Resume(SendPhase::Append(value, guard))
            ==> !old(shared)@.active
                ==> r
                    ==
                        Progress::<SendPhase<T>, Result<(), SendError<T>>>::Done(
                            Err(SendError(value)),
                        )
                && handed_back(
                    old(shared)@.queue,
                    final(shared)@.queue,
                    guard@@,
                    old(wakes)@,
                    final(wakes)@,
                )
                && final(shared)@.condvar == old(shared)@.condvar
                && final(shared)@.senders == old(shared)@.senders
                && final(shared)@.active == old(shared)@.active,
{
    lemma_freed(old(shared)@.queue);
}

/// What each step of `send_async` comes to. Without a receiver the value comes back, at once or
/// when the queue is in hand. Else the queue is taken as soon as it is free, the value becomes its
/// last, and one of those who wait for a value is woken.
pub proof fn law_send_async_answers<T>(
    sender: &Sender<T>,
    shared: &mut Shared<T>,
    call: Call<T, SendPhase<T>>,
    continuation: u64,
    wakes: &mut Vec<Wake>,
    r: Progress<SendPhase<T>, Result<(), SendError<T>>>,
)
    requires
        call_ensures(Sender::<T>::send_async, (sender, shared, call, continuation, wakes), r),
    ensures
        call matches Call::Start(value)
            ==> !old(shared)@.active
                ==> r
                    ==
                        Progress::<SendPhase<T>, Result<(), SendError<T>>>::Done(
                            Err(SendError(value)),
                        )
                && final(shared)@ == old(shared)@
                && final(wakes)@ == old(wakes)@,
        call matches Call::Start(value)
            ==> old(shared)@.active && old(shared)@.queue.inner is Some
                ==> (
                    r matches Progress::Pause(SendPhase::Append(kept, guard), Pause::Yield)
                    && kept == value
                    && Some(guard@@) == old(shared)@.queue.inner
                    && guard.id() == old(shared)@.queue.id
                )
                && final(shared)@.queue.inner is None
                && final(shared)@.queue.id == old(shared)@.queue.id
                && final(shared)@.queue.sync == old(shared)@.queue.sync
                && final(shared)@.queue.asynch == old(shared)@.queue.asynch
                && final(shared)@.condvar == old(shared)@.condvar
                && final(shared)@.senders == old(shared)@.senders
                && final(shared)@.active == old(shared)@.active
                && final(wakes)@ == old(wakes)@,
        call matches Call::Start(value)
            ==> old(shared)@.active && old(shared)@.queue.inner is None
                ==> (
                    r matches Progress::Pause(SendPhase::Lock(kept), pause)
                    && kept == value
                    && listed_async(old(shared)@.queue, final(shared)@.queue, continuation)
                    && final(shared)@.condvar == old(shared)@.condvar
                    && final(shared)@.senders == old(shared)@.senders
                    && final(shared)@.active == old(shared)@.active
                    && pause == Pause::Await(continuation)
                )
                && final(wakes)@ == old(wakes)@,
        call matches Call::Resume(SendPhase::Lock(value))
            ==> old(shared)@.queue.inner is Some
                ==> (
                    r matches Progress::Pause(SendPhase::Append(kept, guard), Pause::Yield)
                    && kept == value
                    && Some(guard@@) == old(shared)@.queue.inner
                    && guard.id() == old(shared)@.queue.id
                )
                && final(shared)@.queue.inner is None
                && final(shared)@.queue.id == old(shared)@.queue.id
                && final(shared)@.queue.sync == old(shared)@.queue.sync
                && final(shared)@.queue.asynch == old(shared)@.queue.asynch
                && final(shared)@.condvar == old(shared)@.condvar
                && final(shared)@.senders == old(shared)@.senders
                && final(shared)@.active == old(shared)@.active
                && final(wakes)@ == old(wakes)@,
        call matches Call::Resume(SendPhase::Lock(value))
            ==> old(shared)@.queue.inner is None
                ==> (
                    r matches Progress::Pause(SendPhase::Lock(kept), pause)
                    && kept == value
                    && listed_async(old(shared)@.queue, final(shared)@.queue, continuation)
                    && final(shared)@.condvar == old(shared)@.condvar
                    && final(shared)@.senders == old(shared)@.senders
                    && final(shared)@.active == old(shared)@.active
                    && pause == Pause::Await(continuation)
                )
                && final(wakes)@ == old(wakes)@,
        call matches Call::Resume(SendPhase::Append(value, guard))
            ==> old(shared)@.active
                ==> r == Progress::<SendPhase<T>, Result<(), SendError<T>>>::Done(Ok(()))
                && final(shared)@.queue.inner == Some(guard@@.push(value))
                && final(shared)@.queue.id == old(shared)@.queue.id
                && final(shared)@.queue.sync.len() == 0
                && final(shared)@.queue.asynch.len() == 0
                && notified_one(
                    old(shared)@.condvar,
                    final(shared)@.condvar,
                    old(wakes)@ + freed(old(shared)@.queue),
                    final(wakes)@,
                )
                && final(shared)@.senders == old(shared)@.senders
                && final(shared)@.active == old(shared)@.active,
        call matches Call::Resume(SendPhase::Append(value, guard))
            ==> !old(shared)@.active
                ==> r
                    ==
                        Progress::<SendPhase<T>, Result<(), SendError<T>>>::Done(
                            Err(SendError(value)),
                        )
                && handed_back(
                    old(shared)@.queue,
                    final(shared)@.queue,
                    guard@@,
                    old(wakes)@,
                    final(wakes)@,
                )
                && final(shared)@.condvar == old(shared)@.condvar
                && final(shared)@.senders == old(shared)@.senders
                && final(shared)@.active == old(shared)@.active,
{
    lemma_freed(old(shared)@.queue);
}

/// What each step of `recv_spin` comes to. A receiver that has the queue in hand takes the earliest
/// value; it says that an empty queue is disconnected exactly if there are no senders, and else
/// waits. A notified receiver goes on to take the queue again.
pub proof fn law_recv_spin_answers<T>(
    receiver: &Receiver<T>,
    shared: &mut Shared<T>,
    phase: RecvPhase<SpinPhase>,
    flag: u64,
    raised: bool,
    caller: Caller,
    wakes: &mut Vec<Wake>,
    r: Progress<RecvPhase<SpinPhase>, Result<T, RecvError>>,
)
    requires
        call_ensures(
            Receiver::<T>::recv_spin,
            (receiver, shared, phase, flag, raised, caller, wakes),
            r,
        ),
    ensures
        phase matches RecvPhase::Lock
            ==> old(shared)@.queue.inner is Some && (old(shared)@.queue.inner->0).len() > 0
                ==> r
                    == Progress::<RecvPhase<SpinPhase>, Result<T, RecvError>>::Done(
                        Ok((old(shared)@.queue.inner->0)[0]),
                    )
                && handed_back(
                    old(shared)@.queue,
                    final(shared)@.queue,
                    (old(shared)@.queue.inner->0).drop_first(),
                    old(wakes)@,
                    final(wakes)@,
                )
                && final(shared)@.condvar == old(shared)@.condvar,
        phase matches RecvPhase::Lock
            ==> old(shared)@.queue.inner is Some
            && (old(shared)@.queue.inner->0).len() == 0
            && old(shared)@.senders == 0
                ==> r
                    == Progress::<RecvPhase<SpinPhase>, Result<T, RecvError>>::Done(
                        Err(RecvError::Disconnected),
                    )
                && handed_back(
                    old(shared)@.queue,
                    final(shared)@.queue,
                    old(shared)@.queue.inner->0,
                    old(wakes)@,
                    final(wakes)@,
                )
                && final(shared)@.condvar == old(shared)@.condvar,
        phase matches RecvPhase::Lock
            ==> old(shared)@.queue.inner is Some
            && (old(shared)@.queue.inner->0).len() == 0
            && old(shared)@.senders > 0
                ==> handed_back(
                    old(shared)@.queue,
                    final(shared)@.queue,
                    old(shared)@.queue.inner->0,
                    old(wakes)@,
                    final(wakes)@,
                )
                && joined_spin(old(shared)@.condvar, final(shared)@.condvar, flag)
                && r
                    == Progress::<RecvPhase<SpinPhase>, Result<T, RecvError>>::Pause(
                        RecvPhase::Wait(SpinPhase::Spinning(flag)),
                        Pause::Yield,
                    ),
        phase matches RecvPhase::Lock
            ==> old(shared)@.queue.inner is None
                ==> final(shared)@ == old(shared)@
                && final(wakes)@ == old(wakes)@
                && r
                    == Progress::<RecvPhase<SpinPhase>, Result<T, RecvError>>::Pause(
                        RecvPhase::Lock,
                        Pause::SpinLoop,
                    ),
        phase matches RecvPhase::Wait(SpinPhase::Spinning(looked_on))
            ==> !raised
                ==> final(shared)@ == old(shared)@
                && final(wakes)@ == old(wakes)@
                && r
                    == Progress::<RecvPhase<SpinPhase>, Result<T, RecvError>>::Pause(
                        RecvPhase::Wait(SpinPhase::Spinning(looked_on)),
                        Pause::SpinLoop,
                    ),
        phase matches RecvPhase::Wait(SpinPhase::Spinning(looked_on))
            ==> raised && old(shared)@.queue.inner is None
                ==> final(shared)@.condvar == old(shared)@.condvar
                && final(wakes)@ == old(wakes)@
                && (
                    r matches Progress::Pause(RecvPhase::Wait(again), pause)
                    && again == SpinPhase::Relock
                    && missed(old(shared)@.queue, final(shared)@.queue, caller, pause)
                ),
        phase matches RecvPhase::Wait(SpinPhase::Spinning(looked_on))
            ==>
                raised
                && old(shared)@.queue.inner is Some
                && (old(shared)@.queue.inner->0).len() > 0
                    ==> r
                        == Progress::<RecvPhase<SpinPhase>, Result<T, RecvError>>::Done(
                            Ok((old(shared)@.queue.inner->0)[0]),
                        )
                    && handed_back(
                        old(shared)@.queue,
                        final(shared)@.queue,
                        (old(shared)@.queue.inner->0).drop_first(),
                        old(wakes)@,
                        final(wakes)@,
                    )
                    && final(shared)@.condvar == old(shared)@.condvar,
        phase matches RecvPhase::Wait(SpinPhase::Spinning(looked_on))
            ==> raised
            && old(shared)@.queue.inner is Some
            && (old(shared)@.queue.inner->0).len() == 0
            && old(shared)@.senders == 0
                ==> r
                    == Progress::<RecvPhase<SpinPhase>, Result<T, RecvError>>::Done(
                        Err(RecvError::Disconnected),
                    )
                && handed_back(
                    old(shared)@.queue,
                    final(shared)@.queue,
                    old(shared)@.queue.inner->0,
                    old(wakes)@,
                    final(wakes)@,
                )
                && final(shared)@.condvar == old(shared)@.condvar,
        phase matches RecvPhase::Wait(SpinPhase::Spinning(looked_on))
            ==> raised
            && old(shared)@.queue.inner is Some
            && (old(shared)@.queue.inner->0).len() == 0
            && old(shared)@.senders > 0
                ==> handed_back(
                    old(shared)@.queue,
                    final(shared)@.queue,
                    old(shared)@.queue.inner->0,
                    old(wakes)@,
                    final(wakes)@,
                )
                && joined_spin(old(shared)@.condvar, final(shared)@.condvar, flag)
                && r
                    == Progress::<RecvPhase<SpinPhase>, Result<T, RecvError>>::Pause(
                        RecvPhase::Wait(SpinPhase::Spinning(flag)),
                        Pause::Yield,
                    ),
        phase matches RecvPhase::Wait(SpinPhase::Relock)
            ==> old(shared)@.queue.inner is None
                ==> final(shared)@.condvar == old(shared)@.condvar
                && final(wakes)@ == old(wakes)@
                && (
                    r matches Progress::Pause(RecvPhase::Wait(again), pause)
                    && again == SpinPhase::Relock
                    && missed(old(shared)@.queue, final(shared)@.queue, caller, pause)
                ),
        phase matches RecvPhase::Wait(SpinPhase::Relock)
            ==> old(shared)@.queue.inner is Some && (old(shared)@.queue.inner->0).len() > 0
                ==> r
                    == Progress::<RecvPhase<SpinPhase>, Result<T, RecvError>>::Done(
                        Ok((old(shared)@.queue.inner->0)[0]),
                    )
                && handed_back(
                    old(shared)@.queue,
                    final(shared)@.queue,
                    (old(shared)@.queue.inner->0).drop_first(),
                    old(wakes)@,
                    final(wakes)@,
                )
                && final(shared)@.condvar == old(shared)@.condvar,
        phase matches RecvPhase::Wait(SpinPhase::Relock)
            ==> old(shared)@.queue.inner is Some
            && (old(shared)@.queue.inner->0).len() == 0
            && old(shared)@.senders == 0
                ==> r
                    == Progress::<RecvPhase<SpinPhase>, Result<T, RecvError>>::Done(
                        Err(RecvError::Disconnected),
                    )
                && handed_back(
                    old(shared)@.queue,
                    final(shared)@.queue,
                    old(shared)@.queue.inner->0,
                    old(wakes)@,
                    final(wakes)@,
                )
                && final(shared)@.condvar == old(shared)@.condvar,
        phase matches RecvPhase::Wait(SpinPhase::Relock)
            ==> old(shared)@.queue.inner is Some
            && (old(shared)@.queue.inner->0).len() == 0
            && old(shared)@.senders > 0
                ==> handed_back(
                    old(shared)@.queue,
                    final(shared)@.queue,
                    old(shared)@.queue.inner->0,
                    old(wakes)@,
                    final(wakes)@,
                )
                && joined_spin(old(shared)@.condvar, final(shared)@.condvar, flag)
                && r
                    == Progress::<RecvPhase<SpinPhase>, Result<T, RecvError>>::Pause(
                        RecvPhase::Wait(SpinPhase::Spinning(flag)),
                        Pause::Yield,
                    ),
        final(shared)@.senders == old(shared)@.senders
        && final(shared)@.active == old(shared)@.active,
{
    lemma_freed(old(shared)@.queue);
}

/// What each step of `recv_block` comes to. A receiver that has the queue in hand takes the
/// earliest value; it says that an empty queue is disconnected exactly if there are no senders, and
/// else waits. A notified receiver goes on to take the queue again.
pub proof fn law_recv_block_answers<T>(
    receiver: &Receiver<T>,
    shared: &mut Shared<T>,
    phase: RecvPhase<BlockPhase>,
    caller: Caller,
    wakes: &mut Vec<Wake>,
    r: Progress<RecvPhase<BlockPhase>, Result<T, RecvError>>,
)
    requires
        call_ensures(
            Receiver::<T>::recv_block,
            (receiver, shared, phase, caller, wakes),
            r,
        ),
    ensures
        phase matches RecvPhase::Lock
            ==> old(shared)@.queue.inner is Some && (old(shared)@.queue.inner->0).len() > 0
                ==> r
                    == Progress::<RecvPhase<BlockPhase>, Result<T, RecvError>>::Done(
                        Ok((old(shared)@.queue.inner->0)[0]),
                    )
                && handed_back(
                    old(shared)@.queue,
                    final(shared)@.queue,
                    (old(shared)@.queue.inner->0).drop_first(),
                    old(wakes)@,
                    final(wakes)@,
                )
                && final(shared)@.condvar == old(shared)@.condvar,
        phase matches RecvPhase::Lock
            ==> old(shared)@.queue.inner is Some
            && (old(shared)@.queue.inner->0).len() == 0
            && old(shared)@.senders == 0
                ==> r
                    == Progress::<RecvPhase<BlockPhase>, Result<T, RecvError>>::Done(
                        Err(RecvError::Disconnected),
                    )
                && handed_back(
                    old(shared)@.queue,
                    final(shared)@.queue,
                    old(shared)@.queue.inner->0,
                    old(wakes)@,
                    final(wakes)@,
                )
                && final(shared)@.condvar == old(shared)@.condvar,
        phase matches RecvPhase::Lock
            ==> old(shared)@.queue.inner is Some
            && (old(shared)@.queue.inner->0).len() == 0
            && old(shared)@.senders > 0
                ==> handed_back(
                    old(shared)@.queue,
                    final(shared)@.queue,
                    old(shared)@.queue.inner->0,
                    old(wakes)@,
                    final(wakes)@,
                )
                && joined_sync(old(shared)@.condvar, final(shared)@.condvar, caller.thread)
                && r
                    == Progress::<RecvPhase<BlockPhase>, Result<T, RecvError>>::Pause(
                        RecvPhase::Wait(BlockPhase::Relock),
                        Pause::Park,
                    ),
        phase matches RecvPhase::Lock
            ==> old(shared)@.queue.inner is None
                ==> listed(old(shared)@.queue, final(shared)@.queue, caller.thread)
                && final(shared)@.condvar == old(shared)@.condvar
                && final(wakes)@ == old(wakes)@
                && r
                    == Progress::<RecvPhase<BlockPhase>, Result<T, RecvError>>::Pause(
                        RecvPhase::Lock,
                        Pause::Park,
                    ),
        phase matches RecvPhase::Wait(_)
            ==> old(shared)@.queue.inner is None
                ==> final(shared)@.condvar == old(shared)@.condvar
                && final(wakes)@ == old(wakes)@
                && (
                    r matches Progress::Pause(RecvPhase::Wait(again), pause)
                    && again == BlockPhase::Relock
                    && missed(old(shared)@.queue, final(shared)@.queue, caller, pause)
                ),
        phase matches RecvPhase::Wait(_)
            ==> old(shared)@.queue.inner is Some && (old(shared)@.queue.inner->0).len() > 0
                ==> r
                    == Progress::<RecvPhase<BlockPhase>, Result<T, RecvError>>::Done(
                        Ok((old(shared)@.queue.inner->0)[0]),
                    )
                && handed_back(
                    old(shared)@.queue,
                    final(shared)@.queue,
                    (old(shared)@.queue.inner->0).drop_first(),
                    old(wakes)@,
                    final(wakes)@,
                )
                && final(shared)@.condvar == old(shared)@.condvar,
        phase matches RecvPhase::Wait(_)
            ==> old(shared)@.queue.inner is Some
            && (old(shared)@.queue.inner->0).len() == 0
            && old(shared)@.senders == 0
                ==> r
                    == Progress::<RecvPhase<BlockPhase>, Result<T, RecvError>>::Done(
                        Err(RecvError::Disconnected),
                    )
                && handed_back(
                    old(shared)@.queue,
                    final(shared)@.queue,
                    old(shared)@.queue.inner->0,
                    old(wakes)@,
                    final(wakes)@,
                )
                && final(shared)@.condvar == old(shared)@.condvar,
        phase matches RecvPhase::Wait(_)
            ==> old(shared)@.queue.inner is Some
            && (old(shared)@.queue.inner->0).len() == 0
            && old(shared)@.senders > 0
                ==> handed_back(
                    old(shared)@.queue,
                    final(shared)@.queue,
                    old(shared)@.queue.inner->0,
                    old(wakes)@,
                    final(wakes)@,
                )
                && joined_sync(old(shared)@.condvar, final(shared)@.condvar, caller.thread)
                && r
                    == Progress::<RecvPhase<BlockPhase>, Result<T, RecvError>>::Pause(
                        RecvPhase::Wait(BlockPhase::Relock),
                        Pause::Park,
                    ),
        final(shared)@.senders == old(shared)@.senders
        && final(shared)@.active == old(shared)@.active,
{
    lemma_freed(old(shared)@.queue);
}

/// What each step of `recv_sync` comes to. A receiver that has the queue in hand takes the earliest
/// value; it says that an empty queue is disconnected exactly if there are no senders, and else
/// waits. A notified receiver goes on to take the queue again.
pub proof fn law_recv_sync_answers<T>(
    receiver: &Receiver<T>,
    shared: &mut Shared<T>,
    phase: RecvPhase<SyncPhase>,
    flag: u64,
    raised: bool,
    caller: Caller,
    wakes: &mut Vec<Wake>,
    r: Progress<RecvPhase<SyncPhase>, Result<T, RecvError>>,
)
    requires
        call_ensures(
            Receiver::<T>::recv_sync,
            (receiver, shared, phase, flag, raised, caller, wakes),
            r,
        ),
    ensures
        phase matches RecvPhase::Lock
            ==> old(shared)@.queue.inner is Some && (old(shared)@.queue.inner->0).len() > 0
                ==> r
                    == Progress::<RecvPhase<SyncPhase>, Result<T, RecvError>>::Done(
                        Ok((old(shared)@.queue.inner->0)[0]),
                    )
                && handed_back(
                    old(shared)@.queue,
                    final(shared)@.queue,
                    (old(shared)@.queue.inner->0).drop_first(),
                    old(wakes)@,
                    final(wakes)@,
                )
                && final(shared)@.condvar == old(shared)@.condvar,
        phase matches RecvPhase::Lock
            ==> old(shared)@.queue.inner is Some
            && (old(shared)@.queue.inner->0).len() == 0
            && old(shared)@.senders == 0
                ==> r
                    == Progress::<RecvPhase<SyncPhase>, Result<T, RecvError>>::Done(
                        Err(RecvError::Disconnected),
                    )
                && handed_back(
                    old(shared)@.queue,
                    final(shared)@.queue,
                    old(shared)@.queue.inner->0,
                    old(wakes)@,
                    final(wakes)@,
                )
                && final(shared)@.condvar == old(shared)@.condvar,
        phase matches RecvPhase::Lock
            ==> old(shared)@.queue.inner is Some
            && (old(shared)@.queue.inner->0).len() == 0
            && old(shared)@.senders > 0
                ==> handed_back(
                    old(shared)@.queue,
                    final(shared)@.queue,
                    old(shared)@.queue.inner->0,
                    old(wakes)@,
                    final(wakes)@,
                )
                && (
                    caller.can_block
                        ==> joined_sync(old(shared)@.condvar, final(shared)@.condvar, caller.thread)
                        && r
                            == Progress::<RecvPhase<SyncPhase>, Result<T, RecvError>>::Pause(
                                RecvPhase::Wait(SyncPhase::Block(BlockPhase::Relock)),
                                Pause::Park,
                            )
                )
                && (
                    !caller.can_block
                        ==> joined_spin(old(shared)@.condvar, final(shared)@.condvar, flag)
                        && r
                            == Progress::<RecvPhase<SyncPhase>, Result<T, RecvError>>::Pause(
                                RecvPhase::Wait(SyncPhase::Spin(SpinPhase::Spinning(flag))),
                                Pause::Yield,
                            )
                ),
        phase matches RecvPhase::Lock
            ==> old(shared)@.queue.inner is None
                ==> final(shared)@.condvar == old(shared)@.condvar
                && final(wakes)@ == old(wakes)@
                && (
                    r matches Progress::Pause(RecvPhase::Lock, pause)
                    && missed(old(shared)@.queue, final(shared)@.queue, caller, pause)
                ),
        phase matches RecvPhase::Wait(SyncPhase::Block(_))
            ==> old(shared)@.queue.inner is None
                ==> final(shared)@.condvar == old(shared)@.condvar
                && final(wakes)@ == old(wakes)@
                && (
                    r matches Progress::Pause(RecvPhase::Wait(again), pause)
                    && again == SyncPhase::Block(BlockPhase::Relock)
                    && missed(old(shared)@.queue, final(shared)@.queue, caller, pause)
                ),
        phase matches RecvPhase::Wait(SyncPhase::Block(_))
            ==> old(shared)@.queue.inner is Some && (old(shared)@.queue.inner->0).len() > 0
                ==> r
                    == Progress::<RecvPhase<SyncPhase>, Result<T, RecvError>>::Done(
                        Ok((old(shared)@.queue.inner->0)[0]),
                    )
                && handed_back(
                    old(shared)@.queue,
                    final(shared)@.queue,
                    (old(shared)@.queue.inner->0).drop_first(),
                    old(wakes)@,
                    final(wakes)@,
                )
                && final(shared)@.condvar == old(shared)@.condvar,
        phase matches RecvPhase::Wait(SyncPhase::Block(_))
            ==> old(shared)@.queue.inner is Some
            && (old(shared)@.queue.inner->0).len() == 0
            && old(shared)@.senders == 0
                ==> r
                    == Progress::<RecvPhase<SyncPhase>, Result<T, RecvError>>::Done(
                        Err(RecvError::Disconnected),
                    )
                && handed_back(
                    old(shared)@.queue,
                    final(shared)@.queue,
                    old(shared)@.queue.inner->0,
                    old(wakes)@,
                    final(wakes)@,
                )
                && final(shared)@.condvar == old(shared)@.condvar,
        phase matches RecvPhase::Wait(SyncPhase::Block(_))
            ==> old(shared)@.queue.inner is Some
            && (old(shared)@.queue.inner->0).len() == 0
            && old(shared)@.senders > 0
                ==> handed_back(
                    old(shared)@.queue,
                    final(shared)@.queue,
                    old(shared)@.queue.inner->0,
                    old(wakes)@,
                    final(wakes)@,
                )
                && (
                    caller.can_block
                        ==> joined_sync(old(shared)@.condvar, final(shared)@.condvar, caller.thread)
                        && r
                            == Progress::<RecvPhase<SyncPhase>, Result<T, RecvError>>::Pause(
                                RecvPhase::Wait(SyncPhase::Block(BlockPhase::Relock)),
                                Pause::Park,
                            )
                )
                && (
                    !caller.can_block
                        ==> joined_spin(old(shared)@.condvar, final(shared)@.condvar, flag)
                        && r
                            == Progress::<RecvPhase<SyncPhase>, Result<T, RecvError>>::Pause(
                                RecvPhase::Wait(SyncPhase::Spin(SpinPhase::Spinning(flag))),
                                Pause::Yield,
                            )
                ),
        phase matches RecvPhase::Wait(SyncPhase::Spin(SpinPhase::Spinning(looked_on)))
            ==> !raised
                ==> final(shared)@ == old(shared)@
                && final(wakes)@ == old(wakes)@
                && r
                    == Progress::<RecvPhase<SyncPhase>, Result<T, RecvError>>::Pause(
                        RecvPhase::Wait(SyncPhase::Spin(SpinPhase::Spinning(looked_on))),
                        Pause::SpinLoop,
                    ),
        phase matches RecvPhase::Wait(SyncPhase::Spin(SpinPhase::Spinning(looked_on)))
            ==> raised && old(shared)@.queue.inner is None
                ==> final(shared)@.condvar == old(shared)@.condvar
                && final(wakes)@ == old(wakes)@
                && (
                    r matches Progress::Pause(RecvPhase::Wait(again), pause)
                    && again == SyncPhase::Spin(SpinPhase::Relock)
                    && missed(old(shared)@.queue, final(shared)@.queue, caller, pause)
                ),
        phase matches RecvPhase::Wait(SyncPhase::Spin(SpinPhase::Spinning(looked_on)))
            ==>
                raised
                && old(shared)@.queue.inner is Some
                && (old(shared)@.queue.inner->0).len() > 0
                    ==> r
                        == Progress::<RecvPhase<SyncPhase>, Result<T, RecvError>>::Done(
                            Ok((old(shared)@.queue.inner->0)[0]),
                        )
                    && handed_back(
                        old(shared)@.queue,
                        final(shared)@.queue,
                        (old(shared)@.queue.inner->0).drop_first(),
                        old(wakes)@,
                        final(wakes)@,
                    )
                    && final(shared)@.condvar == old(shared)@.condvar,
        phase matches RecvPhase::Wait(SyncPhase::Spin(SpinPhase::Spinning(looked_on)))
            ==> raised
            && old(shared)@.queue.inner is Some
            && (old(shared)@.queue.inner->0).len() == 0
            && old(shared)@.senders == 0
                ==> r
                    == Progress::<RecvPhase<SyncPhase>, Result<T, RecvError>>::Done(
                        Err(RecvError::Disconnected),
                    )
                && handed_back(
                    old(shared)@.queue,
                    final(shared)@.queue,
                    old(shared)@.queue.inner->0,
                    old(wakes)@,
                    final(wakes)@,
                )
                && final(shared)@.condvar == old(shared)@.condvar,
        phase matches RecvPhase::Wait(SyncPhase::Spin(SpinPhase::Spinning(looked_on)))
            ==> raised
            && old(shared)@.queue.inner is Some
            && (old(shared)@.queue.inner->0).len() == 0
            && old(shared)@.senders > 0
                ==> handed_back(
                    old(shared)@.queue,
                    final(shared)@.queue,
                    old(shared)@.queue.inner->0,
                    old(wakes)@,
                    final(wakes)@,
                )
                && (
                    caller.can_block
                        ==> joined_sync(old(shared)@.condvar, final(shared)@.condvar, caller.thread)
                        && r
                            == Progress::<RecvPhase<SyncPhase>, Result<T, RecvError>>::Pause(
                                RecvPhase::Wait(SyncPhase::Block(BlockPhase::Relock)),
                                Pause::Park,
                            )
                )
                && (
                    !caller.can_block
                        ==> joined_spin(old(shared)@.condvar, final(shared)@.condvar, flag)
                        && r
                            == Progress::<RecvPhase<SyncPhase>, Result<T, RecvError>>::Pause(
                                RecvPhase::Wait(SyncPhase::Spin(SpinPhase::Spinning(flag))),
                                Pause::Yield,
                            )
                ),
        phase matches RecvPhase::Wait(SyncPhase::Spin(SpinPhase::Relock))
            ==> old(shared)@.queue.inner is None
                ==> final(shared)@.condvar == old(shared)@.condvar
                && final(wakes)@ == old(wakes)@
                && (
                    r matches Progress::Pause(RecvPhase::Wait(again), pause)
                    && again == SyncPhase::Spin(SpinPhase::Relock)
                    && missed(old(shared)@.queue, final(shared)@.queue, caller, pause)
                ),
        phase matches RecvPhase::Wait(SyncPhase::Spin(SpinPhase::Relock))
            ==> old(shared)@.queue.inner is Some && (old(shared)@.queue.inner->0).len() > 0
                ==> r
                    == Progress::<RecvPhase<SyncPhase>, Result<T, RecvError>>::Done(
                        Ok((old(shared)@.queue.inner->0)[0]),
                    )
                && handed_back(
                    old(shared)@.queue,
                    final(shared)@.queue,
                    (old(shared)@.queue.inner->0).drop_first(),
                    old(wakes)@,
                    final(wakes)@,
                )
                && final(shared)@.condvar == old(shared)@.condvar,
        phase matches RecvPhase::Wait(SyncPhase::Spin(SpinPhase::Relock))
            ==> old(shared)@.queue.inner is Some
            && (old(shared)@.queue.inner->0).len() == 0
            && old(shared)@.senders == 0
                ==> r
                    == Progress::<RecvPhase<SyncPhase>, Result<T, RecvError>>::Done(
                        Err(RecvError::Disconnected),
                    )
                && handed_back(
                    old(shared)@.queue,
                    final(shared)@.queue,
                    old(shared)@.queue.inner->0,
                    old(wakes)@,
                    final(wakes)@,
                )
                && final(shared)@.condvar == old(shared)@.condvar,
        phase matches RecvPhase::Wait(SyncPhase::Spin(SpinPhase::Relock))
            ==> old(shared)@.queue.inner is Some
            && (old(shared)@.queue.inner->0).len() == 0
            && old(shared)@.senders > 0
                ==> handed_back(
                    old(shared)@.queue,
                    final(shared)@.queue,
                    old(shared)@.queue.inner->0,
                    old(wakes)@,
                    final(wakes)@,
                )
                && (
                    caller.can_block
                        ==> joined_sync(old(shared)@.condvar, final(shared)@.condvar, caller.thread)
                        && r
                            == Progress::<RecvPhase<SyncPhase>, Result<T, RecvError>>::Pause(
                                RecvPhase::Wait(SyncPhase::Block(BlockPhase::Relock)),
                                Pause::Park,
                            )
                )
                && (
                    !caller.can_block
                        ==> joined_spin(old(shared)@.condvar, final(shared)@.condvar, flag)
                        && r
                            == Progress::<RecvPhase<SyncPhase>, Result<T, RecvError>>::Pause(
                                RecvPhase::Wait(SyncPhase::Spin(SpinPhase::Spinning(flag))),
                                Pause::Yield,
                            )
                ),
        final(shared)@.senders == old(shared)@.senders
        && final(shared)@.active == old(shared)@.active,
{
    lemma_freed(old(shared)@.queue);
}

/// What each step of `recv_async` comes to. A receiver that has the queue in hand takes the
/// earliest value; it says that an empty queue is disconnected exactly if there are no senders, and
/// else waits. A notified receiver goes on to take the queue again.
pub proof fn law_recv_async_answers<T>(
    receiver: &Receiver<T>,
    shared: &mut Shared<T>,
    phase: RecvPhase<AsyncPhase>,
    ids: &mut WaiterIds,
    continuation: u64,
    wakes: &mut Vec<Wake>,
    r: Progress<RecvPhase<AsyncPhase>, Result<T, RecvError>>,
)
    requires
        call_ensures(
            Receiver::<T>::recv_async,
            (receiver, shared, phase, ids, continuation, wakes),
            r,
        ),
    ensures
        phase matches RecvPhase::Lock
            ==> old(shared)@.queue.inner is Some && (old(shared)@.queue.inner->0).len() > 0
                ==> r
                    == Progress::<RecvPhase<AsyncPhase>, Result<T, RecvError>>::Done(
                        Ok((old(shared)@.queue.inner->0)[0]),
                    )
                && handed_back(
                    old(shared)@.queue,
                    final(shared)@.queue,
                    (old(shared)@.queue.inner->0).drop_first(),
                    old(wakes)@,
                    final(wakes)@,
                )
                && final(shared)@.condvar == old(shared)@.condvar
                && final(ids).spec_next() == old(ids).spec_next(),
        phase matches RecvPhase::Lock
            ==> old(shared)@.queue.inner is Some
            && (old(shared)@.queue.inner->0).len() == 0
            && old(shared)@.senders == 0
                ==> r
                    == Progress::<RecvPhase<AsyncPhase>, Result<T, RecvError>>::Done(
                        Err(RecvError::Disconnected),
                    )
                && handed_back(
                    old(shared)@.queue,
                    final(shared)@.queue,
                    old(shared)@.queue.inner->0,
                    old(wakes)@,
                    final(wakes)@,
                )
                && final(shared)@.condvar == old(shared)@.condvar
                && final(ids).spec_next() == old(ids).spec_next(),
        phase matches RecvPhase::Lock
            ==> old(shared)@.queue.inner is Some
            && (old(shared)@.queue.inner->0).len() == 0
            && old(shared)@.senders > 0
                ==> handed_back(
                    old(shared)@.queue,
                    final(shared)@.queue,
                    old(shared)@.queue.inner->0,
                    old(wakes)@,
                    final(wakes)@,
                )
                && joined_async(
                    old(shared)@.condvar,
                    final(shared)@.condvar,
                    old(ids).spec_next(),
                    continuation,
                )
                && r
                    == Progress::<RecvPhase<AsyncPhase>, Result<T, RecvError>>::Pause(
                        RecvPhase::Wait(AsyncPhase::Relock),
                        Pause::Await(continuation),
                    )
                && (
                    old(ids).spec_next() < u64::MAX
                        ==> final(ids).spec_next() == old(ids).spec_next() + 1
                ),
        phase matches RecvPhase::Lock
            ==> old(shared)@.queue.inner is None
                ==> listed_async(old(shared)@.queue, final(shared)@.queue, continuation)
                && final(shared)@.condvar == old(shared)@.condvar
                && final(wakes)@ == old(wakes)@
                && r
                    == Progress::<RecvPhase<AsyncPhase>, Result<T, RecvError>>::Pause(
                        RecvPhase::Lock,
                        Pause::Await(continuation),
                    )
                && final(ids).spec_next() == old(ids).spec_next(),
        phase matches RecvPhase::Wait(_)
            ==> old(shared)@.queue.inner is None
                ==> final(shared)@.condvar == old(shared)@.condvar
                && final(wakes)@ == old(wakes)@
                && listed_async(old(shared)@.queue, final(shared)@.queue, continuation)
                && r
                    == Progress::<RecvPhase<AsyncPhase>, Result<T, RecvError>>::Pause(
                        RecvPhase::Wait(AsyncPhase::Relock),
                        Pause::Await(continuation),
                    )
                && final(ids).spec_next() == old(ids).spec_next(),
        phase matches RecvPhase::Wait(_)
            ==> old(shared)@.queue.inner is Some && (old(shared)@.queue.inner->0).len() > 0
                ==> r
                    == Progress::<RecvPhase<AsyncPhase>, Result<T, RecvError>>::Done(
                        Ok((old(shared)@.queue.inner->0)[0]),
                    )
                && handed_back(
                    old(shared)@.queue,
                    final(shared)@.queue,
                    (old(shared)@.queue.inner->0).drop_first(),
                    old(wakes)@,
                    final(wakes)@,
                )
                && final(shared)@.condvar == old(shared)@.condvar
                && final(ids).spec_next() == old(ids).spec_next(),
        phase matches RecvPhase::Wait(_)
            ==> old(shared)@.queue.inner is Some
            && (old(shared)@.queue.inner->0).len() == 0
            && old(shared)@.senders == 0
                ==> r
                    == Progress::<RecvPhase<AsyncPhase>, Result<T, RecvError>>::Done(
                        Err(RecvError::Disconnected),
                    )
                && handed_back(
                    old(shared)@.queue,
                    final(shared)@.queue,
                    old(shared)@.queue.inner->0,
                    old(wakes)@,
                    final(wakes)@,
                )
                && final(shared)@.condvar == old(shared)@.condvar
                && final(ids).spec_next() == old(ids).spec_next(),
        phase matches RecvPhase::Wait(_)
            ==> old(shared)@.queue.inner is Some
            && (old(shared)@.queue.inner->0).len() == 0
            && old(shared)@.senders > 0
                ==> handed_back(
                    old(shared)@.queue,
                    final(shared)@.queue,
                    old(shared)@.queue.inner->0,
                    old(wakes)@,
                    final(wakes)@,
                )
                && joined_async(
                    old(shared)@.condvar,
                    final(shared)@.condvar,
                    old(ids).spec_next(),
                    continuation,
                )
                && r
                    == Progress::<RecvPhase<AsyncPhase>, Result<T, RecvError>>::Pause(
                        RecvPhase::Wait(AsyncPhase::Relock),
                        Pause::Await(continuation),
                    )
                && (
                    old(ids).spec_next() < u64::MAX
                        ==> final(ids).spec_next() == old(ids).spec_next() + 1
                ),
        final(shared)@.senders == old(shared)@.senders
        && final(shared)@.active == old(shared)@.active,
{
    lemma_freed(old(shared)@.queue);
    if let RecvPhase::Wait(wait) = phase {
        assert(wait == AsyncPhase::Relock);
    }
}

/// What each step of `recv_spin_timeout_at` comes to. A receiver that has the queue in hand takes
/// the earliest value; it says that an empty queue is disconnected exactly if there are no senders,
/// and else waits. It says that the time is over only at its deadline, and not if a notification
/// has taken it off the list. A notified receiver goes on to take the queue again.
pub proof fn law_recv_spin_timeout_at_answers<T>(
    receiver: &Receiver<T>,
    shared: &mut Shared<T>,
    phase: RecvPhase<SpinTimeoutPhase>,
    flag: u64,
    raised: bool,
    caller: Caller,
    now: Moment,
    deadline: Moment,
    wakes: &mut Vec<Wake>,
    r: Progress<RecvPhase<SpinTimeoutPhase>, Result<T, RecvTimeoutError>>,
)
    requires
        call_ensures(
            Receiver::<T>::recv_spin_timeout_at,
            (receiver, shared, phase, flag, raised, caller, now, deadline, wakes),
            r,
        ),
    ensures
        phase matches RecvPhase::Lock
            ==> old(shared)@.queue.inner is Some && (old(shared)@.queue.inner->0).len() > 0
                ==> r
                    == Progress::<RecvPhase<SpinTimeoutPhase>, Result<T, RecvTimeoutError>>::Done(
                        Ok((old(shared)@.queue.inner->0)[0]),
                    )
                && handed_back(
                    old(shared)@.queue,
                    final(shared)@.queue,
                    (old(shared)@.queue.inner->0).drop_first(),
                    old(wakes)@,
                    final(wakes)@,
                )
                && final(shared)@.condvar == old(shared)@.condvar,
        phase matches RecvPhase::Lock
            ==> old(shared)@.queue.inner is Some
            && (old(shared)@.queue.inner->0).len() == 0
            && old(shared)@.senders == 0
                ==> r
                    == Progress::<RecvPhase<SpinTimeoutPhase>, Result<T, RecvTimeoutError>>::Done(
                        Err(RecvTimeoutError::Disconnected),
                    )
                && handed_back(
                    old(shared)@.queue,
                    final(shared)@.queue,
                    old(shared)@.queue.inner->0,
                    old(wakes)@,
                    final(wakes)@,
                )
                && final(shared)@.condvar == old(shared)@.condvar,
        phase matches RecvPhase::Lock
            ==> old(shared)@.queue.inner is Some
            && (old(shared)@.queue.inner->0).len() == 0
            && old(shared)@.senders > 0
                ==> handed_back(
                    old(shared)@.queue,
                    final(shared)@.queue,
                    old(shared)@.queue.inner->0,
                    old(wakes)@,
                    final(wakes)@,
                )
                && joined_spin(old(shared)@.condvar, final(shared)@.condvar, flag)
                && r
                    == Progress::<RecvPhase<SpinTimeoutPhase>, Result<T, RecvTimeoutError>>::Pause(
                        RecvPhase::Wait(SpinTimeoutPhase::Spinning(flag)),
                        Pause::Yield,
                    ),
        phase matches RecvPhase::Lock
            ==> old(shared)@.queue.inner is None && now.nanos >= deadline.nanos
                ==> final(shared)@ == old(shared)@
                && final(wakes)@ == old(wakes)@
                && r
                    == Progress::<RecvPhase<SpinTimeoutPhase>, Result<T, RecvTimeoutError>>::Done(
                        Err(RecvTimeoutError::Timeout),
                    ),
        phase matches RecvPhase::Lock
            ==> old(shared)@.queue.inner is None && now.nanos < deadline.nanos
                ==> final(shared)@ == old(shared)@
                && final(wakes)@ == old(wakes)@
                && r
                    == Progress::<RecvPhase<SpinTimeoutPhase>, Result<T, RecvTimeoutError>>::Pause(
                        RecvPhase::Lock,
                        Pause::SpinLoop,
                    ),
        phase matches RecvPhase::Wait(SpinTimeoutPhase::Spinning(looked_on))
            ==> raised && old(shared)@.queue.inner is None
                ==> final(shared)@.condvar == old(shared)@.condvar
                && final(wakes)@ == old(wakes)@
                && (
                    r matches Progress::Pause(RecvPhase::Wait(again), pause)
                    && again == SpinTimeoutPhase::Relock(false)
                    && missed(old(shared)@.queue, final(shared)@.queue, caller, pause)
                ),
        phase matches RecvPhase::Wait(SpinTimeoutPhase::Spinning(looked_on))
            ==>
                raised
                && old(shared)@.queue.inner is Some
                && (old(shared)@.queue.inner->0).len() > 0
                    ==> r
                        ==
                            Progress::<RecvPhase<SpinTimeoutPhase>, Result<T, RecvTimeoutError>>::Done(
                                Ok((old(shared)@.queue.inner->0)[0]),
                            )
                    && handed_back(
                        old(shared)@.queue,
                        final(shared)@.queue,
                        (old(shared)@.queue.inner->0).drop_first(),
                        old(wakes)@,
                        final(wakes)@,
                    )
                    && final(shared)@.condvar == old(shared)@.condvar,
        phase matches RecvPhase::Wait(SpinTimeoutPhase::Spinning(looked_on))
            ==> raised
            && old(shared)@.queue.inner is Some
            && (old(shared)@.queue.inner->0).len() == 0
            && old(shared)@.senders == 0
                ==> r
                    == Progress::<RecvPhase<SpinTimeoutPhase>, Result<T, RecvTimeoutError>>::Done(
                        Err(RecvTimeoutError::Disconnected),
                    )
                && handed_back(
                    old(shared)@.queue,
                    final(shared)@.queue,
                    old(shared)@.queue.inner->0,
                    old(wakes)@,
                    final(wakes)@,
                )
                && final(shared)@.condvar == old(shared)@.condvar,
        phase matches RecvPhase::Wait(SpinTimeoutPhase::Spinning(looked_on))
            ==> raised
            && old(shared)@.queue.inner is Some
            && (old(shared)@.queue.inner->0).len() == 0
            && old(shared)@.senders > 0
                ==> handed_back(
                    old(shared)@.queue,
                    final(shared)@.queue,
                    old(shared)@.queue.inner->0,
                    old(wakes)@,
                    final(wakes)@,
                )
                && joined_spin(old(shared)@.condvar, final(shared)@.condvar, flag)
                && r
                    == Progress::<RecvPhase<SpinTimeoutPhase>, Result<T, RecvTimeoutError>>::Pause(
                        RecvPhase::Wait(SpinTimeoutPhase::Spinning(flag)),
                        Pause::Yield,
                    ),
        phase matches RecvPhase::Wait(SpinTimeoutPhase::Spinning(looked_on))
            ==> !raised && now.nanos < deadline.nanos
                ==> final(shared)@ == old(shared)@
                && final(wakes)@ == old(wakes)@
                && r
                    == Progress::<RecvPhase<SpinTimeoutPhase>, Result<T, RecvTimeoutError>>::Pause(
                        RecvPhase::Wait(SpinTimeoutPhase::Spinning(looked_on)),
                        Pause::SpinLoop,
                    ),
        phase matches RecvPhase::Wait(SpinTimeoutPhase::Spinning(looked_on))
            ==> !raised
            && now.nanos >= deadline.nanos
            && old(shared)@.condvar.spin.contains(looked_on)
            && old(shared)@.queue.inner is None
                ==> left_spin(old(shared)@.condvar, final(shared)@.condvar, looked_on)
                && final(wakes)@ == old(wakes)@
                && (
                    r matches Progress::Pause(RecvPhase::Wait(again), pause)
                    && again == SpinTimeoutPhase::Relock(true)
                    && missed(old(shared)@.queue, final(shared)@.queue, caller, pause)
                ),
        phase matches RecvPhase::Wait(SpinTimeoutPhase::Spinning(looked_on))
            ==> !raised
            && now.nanos >= deadline.nanos
            && old(shared)@.condvar.spin.contains(looked_on)
            && old(shared)@.queue.inner is Some
                ==> r
                    == Progress::<RecvPhase<SpinTimeoutPhase>, Result<T, RecvTimeoutError>>::Done(
                        Err(RecvTimeoutError::Timeout),
                    )
                && left_spin(old(shared)@.condvar, final(shared)@.condvar, looked_on)
                && handed_back(
                    old(shared)@.queue,
                    final(shared)@.queue,
                    old(shared)@.queue.inner->0,
                    old(wakes)@,
                    final(wakes)@,
                ),
        phase matches RecvPhase::Wait(SpinTimeoutPhase::Spinning(looked_on))
            ==> !raised
            && now.nanos >= deadline.nanos
            && !old(shared)@.condvar.spin.contains(looked_on)
                ==> final(shared)@ == old(shared)@
                && final(wakes)@ == old(wakes)@
                && r
                    == Progress::<RecvPhase<SpinTimeoutPhase>, Result<T, RecvTimeoutError>>::Pause(
                        RecvPhase::Wait(SpinTimeoutPhase::Handoff(looked_on)),
                        Pause::Yield,
                    ),
        phase matches RecvPhase::Wait(SpinTimeoutPhase::Handoff(looked_on))
            ==> !raised
                ==> final(shared)@ == old(shared)@
                && final(wakes)@ == old(wakes)@
                && r
                    == Progress::<RecvPhase<SpinTimeoutPhase>, Result<T, RecvTimeoutError>>::Pause(
                        RecvPhase::Wait(SpinTimeoutPhase::Handoff(looked_on)),
                        Pause::SpinLoop,
                    ),
        phase matches RecvPhase::Wait(SpinTimeoutPhase::Handoff(looked_on))
            ==> raised && old(shared)@.queue.inner is None
                ==> final(shared)@.condvar == old(shared)@.condvar
                && final(wakes)@ == old(wakes)@
                && (
                    r matches Progress::Pause(RecvPhase::Wait(again), pause)
                    && again == SpinTimeoutPhase::Relock(false)
                    && missed(old(shared)@.queue, final(shared)@.queue, caller, pause)
                ),
        phase matches RecvPhase::Wait(SpinTimeoutPhase::Handoff(looked_on))
            ==>
                raised
                && old(shared)@.queue.inner is Some
                && (old(shared)@.queue.inner->0).len() > 0
                    ==> r
                        ==
                            Progress::<RecvPhase<SpinTimeoutPhase>, Result<T, RecvTimeoutError>>::Done(
                                Ok((old(shared)@.queue.inner->0)[0]),
                            )
                    && handed_back(
                        old(shared)@.queue,
                        final(shared)@.queue,
                        (old(shared)@.queue.inner->0).drop_first(),
                        old(wakes)@,
                        final(wakes)@,
                    )
                    && final(shared)@.condvar == old(shared)@.condvar,
        phase matches RecvPhase::Wait(SpinTimeoutPhase::Handoff(looked_on))
            ==> raised
            && old(shared)@.queue.inner is Some
            && (old(shared)@.queue.inner->0).len() == 0
            && old(shared)@.senders == 0
                ==> r
                    == Progress::<RecvPhase<SpinTimeoutPhase>, Result<T, RecvTimeoutError>>::Done(
                        Err(RecvTimeoutError::Disconnected),
                    )
                && handed_back(
                    old(shared)@.queue,
                    final(shared)@.queue,
                    old(shared)@.queue.inner->0,
                    old(wakes)@,
                    final(wakes)@,
                )
                && final(shared)@.condvar == old(shared)@.condvar,
        phase matches RecvPhase::Wait(SpinTimeoutPhase::Handoff(looked_on))
            ==> raised
            && old(shared)@.queue.inner is Some
            && (old(shared)@.queue.inner->0).len() == 0
            && old(shared)@.senders > 0
                ==> handed_back(
                    old(shared)@.queue,
                    final(shared)@.queue,
                    old(shared)@.queue.inner->0,
                    old(wakes)@,
                    final(wakes)@,
                )
                && joined_spin(old(shared)@.condvar, final(shared)@.condvar, flag)
                && r
                    == Progress::<RecvPhase<SpinTimeoutPhase>, Result<T, RecvTimeoutError>>::Pause(
                        RecvPhase::Wait(SpinTimeoutPhase::Spinning(flag)),
                        Pause::Yield,
                    ),
        phase matches RecvPhase::Wait(SpinTimeoutPhase::Relock(late))
            ==> old(shared)@.queue.inner is None
                ==> final(shared)@.condvar == old(shared)@.condvar
                && final(wakes)@ == old(wakes)@
                && (
                    r matches Progress::Pause(RecvPhase::Wait(again), pause)
                    && again == SpinTimeoutPhase::Relock(late)
                    && missed(old(shared)@.queue, final(shared)@.queue, caller, pause)
                ),
        phase matches RecvPhase::Wait(SpinTimeoutPhase::Relock(late))
            ==>
                !(late)
                && old(shared)@.queue.inner is Some
                && (old(shared)@.queue.inner->0).len() > 0
                    ==> r
                        ==
                            Progress::<RecvPhase<SpinTimeoutPhase>, Result<T, RecvTimeoutError>>::Done(
                                Ok((old(shared)@.queue.inner->0)[0]),
                            )
                    && handed_back(
                        old(shared)@.queue,
                        final(shared)@.queue,
                        (old(shared)@.queue.inner->0).drop_first(),
                        old(wakes)@,
                        final(wakes)@,
                    )
                    && final(shared)@.condvar == old(shared)@.condvar,
        phase matches RecvPhase::Wait(SpinTimeoutPhase::Relock(late))
            ==> !(late)
            && old(shared)@.queue.inner is Some
            && (old(shared)@.queue.inner->0).len() == 0
            && old(shared)@.senders == 0
                ==> r
                    == Progress::<RecvPhase<SpinTimeoutPhase>, Result<T, RecvTimeoutError>>::Done(
                        Err(RecvTimeoutError::Disconnected),
                    )
                && handed_back(
                    old(shared)@.queue,
                    final(shared)@.queue,
                    old(shared)@.queue.inner->0,
                    old(wakes)@,
                    final(wakes)@,
                )
                && final(shared)@.condvar == old(shared)@.condvar,
        phase matches RecvPhase::Wait(SpinTimeoutPhase::Relock(late))
            ==> !(late)
            && old(shared)@.queue.inner is Some
            && (old(shared)@.queue.inner->0).len() == 0
            && old(shared)@.senders > 0
                ==> handed_back(
                    old(shared)@.queue,
                    final(shared)@.queue,
                    old(shared)@.queue.inner->0,
                    old(wakes)@,
                    final(wakes)@,
                )
                && joined_spin(old(shared)@.condvar, final(shared)@.condvar, flag)
                && r
                    == Progress::<RecvPhase<SpinTimeoutPhase>, Result<T, RecvTimeoutError>>::Pause(
                        RecvPhase::Wait(SpinTimeoutPhase::Spinning(flag)),
                        Pause::Yield,
                    ),
        phase matches RecvPhase::Wait(SpinTimeoutPhase::Relock(late))
            ==> late && old(shared)@.queue.inner is Some
                ==> r
                    == Progress::<RecvPhase<SpinTimeoutPhase>, Result<T, RecvTimeoutError>>::Done(
                        Err(RecvTimeoutError::Timeout),
                    )
                && final(shared)@.condvar == old(shared)@.condvar
                && handed_back(
                    old(shared)@.queue,
                    final(shared)@.queue,
                    old(shared)@.queue.inner->0,
                    old(wakes)@,
                    final(wakes)@,
                ),
        final(shared)@.senders == old(shared)@.senders
        && final(shared)@.active == old(shared)@.active,
{
    lemma_freed(old(shared)@.queue);
    if let RecvPhase::Wait(SpinTimeoutPhase::Spinning(looked_on)) = phase {
        lemma_left(old(shared)@.condvar.spin, looked_on);
    }
}

/// What each step of `recv_spin_timeout` comes to. A receiver that has the queue in hand takes the
/// earliest value; it says that an empty queue is disconnected exactly if there are no senders, and
/// else waits. It says that the time is over only at its deadline, which the clock that it reads
/// has shown, and not if a notification has taken it off the list. A notified receiver goes on to
/// take the queue again.
pub proof fn law_recv_spin_timeout_answers<T>(
    receiver: &Receiver<T>,
    shared: &mut Shared<T>,
    phase: RecvPhase<SpinTimeoutPhase>,
    flag: u64,
    raised: bool,
    caller: Caller,
    deadline: web_time::Instant,
    wakes: &mut Vec<Wake>,
    r: Progress<RecvPhase<SpinTimeoutPhase>, Result<T, RecvTimeoutError>>,
)
    requires
        call_ensures(
            Receiver::<T>::recv_spin_timeout,
            (receiver, shared, phase, flag, raised, caller, deadline, wakes),
            r,
        ),
    ensures
        phase matches RecvPhase::Lock
            ==> old(shared)@.queue.inner is Some && (old(shared)@.queue.inner->0).len() > 0
                ==> r
                    == Progress::<RecvPhase<SpinTimeoutPhase>, Result<T, RecvTimeoutError>>::Done(
                        Ok((old(shared)@.queue.inner->0)[0]),
                    )
                && handed_back(
                    old(shared)@.queue,
                    final(shared)@.queue,
                    (old(shared)@.queue.inner->0).drop_first(),
                    old(wakes)@,
                    final(wakes)@,
                )
                && final(shared)@.condvar == old(shared)@.condvar,
        phase matches RecvPhase::Lock
            ==> old(shared)@.queue.inner is Some
            && (old(shared)@.queue.inner->0).len() == 0
            && old(shared)@.senders == 0
                ==> r
                    == Progress::<RecvPhase<SpinTimeoutPhase>, Result<T, RecvTimeoutError>>::Done(
                        Err(RecvTimeoutError::Disconnected),
                    )
                && handed_back(
                    old(shared)@.queue,
                    final(shared)@.queue,
                    old(shared)@.queue.inner->0,
                    old(wakes)@,
                    final(wakes)@,
                )
                && final(shared)@.condvar == old(shared)@.condvar,
        phase matches RecvPhase::Lock
            ==> old(shared)@.queue.inner is Some
            && (old(shared)@.queue.inner->0).len() == 0
            && old(shared)@.senders > 0
                ==> handed_back(
                    old(shared)@.queue,
                    final(shared)@.queue,
                    old(shared)@.queue.inner->0,
                    old(wakes)@,
                    final(wakes)@,
                )
                && joined_spin(old(shared)@.condvar, final(shared)@.condvar, flag)
                && r
                    == Progress::<RecvPhase<SpinTimeoutPhase>, Result<T, RecvTimeoutError>>::Pause(
                        RecvPhase::Wait(SpinTimeoutPhase::Spinning(flag)),
                        Pause::Yield,
                    ),
        phase matches RecvPhase::Lock
            ==> old(shared)@.queue.inner is None
                ==> exists|reading: web_time::Instant|
                    #![trigger time::nanos_between(reading, deadline)]
                    time::read_from_clock(reading)
                    && (
                        time::nanos_between(reading, deadline) == 0
                            ==> final(shared)@ == old(shared)@
                            && final(wakes)@ == old(wakes)@
                            && r
                                ==
                                    Progress::<RecvPhase<SpinTimeoutPhase>, Result<T, RecvTimeoutError>>::Done(
                                        Err(RecvTimeoutError::Timeout),
                                    )
                    )
                    && (
                        time::nanos_between(reading, deadline) > 0
                            ==> final(shared)@ == old(shared)@
                            && final(wakes)@ == old(wakes)@
                            && r
                                ==
                                    Progress::<RecvPhase<SpinTimeoutPhase>, Result<T, RecvTimeoutError>>::Pause(
                                        RecvPhase::Lock,
                                        Pause::SpinLoop,
                                    )
                    ),
        phase matches RecvPhase::Wait(SpinTimeoutPhase::Spinning(looked_on))
            ==> raised && old(shared)@.queue.inner is None
                ==> final(shared)@.condvar == old(shared)@.condvar
                && final(wakes)@ == old(wakes)@
                && (
                    r matches Progress::Pause(RecvPhase::Wait(again), pause)
                    && again == SpinTimeoutPhase::Relock(false)
                    && missed(old(shared)@.queue, final(shared)@.queue, caller, pause)
                ),
        phase matches RecvPhase::Wait(SpinTimeoutPhase::Spinning(looked_on))
            ==>
                raised
                && old(shared)@.queue.inner is Some
                && (old(shared)@.queue.inner->0).len() > 0
                    ==> r
                        ==
                            Progress::<RecvPhase<SpinTimeoutPhase>, Result<T, RecvTimeoutError>>::Done(
                                Ok((old(shared)@.queue.inner->0)[0]),
                            )
                    && handed_back(
                        old(shared)@.queue,
                        final(shared)@.queue,
                        (old(shared)@.queue.inner->0).drop_first(),
                        old(wakes)@,
                        final(wakes)@,
                    )
                    && final(shared)@.condvar == old(shared)@.condvar,
        phase matches RecvPhase::Wait(SpinTimeoutPhase::Spinning(looked_on))
            ==> raised
            && old(shared)@.queue.inner is Some
            && (old(shared)@.queue.inner->0).len() == 0
            && old(shared)@.senders == 0
                ==> r
                    == Progress::<RecvPhase<SpinTimeoutPhase>, Result<T, RecvTimeoutError>>::Done(
                        Err(RecvTimeoutError::Disconnected),
                    )
                && handed_back(
                    old(shared)@.queue,
                    final(shared)@.queue,
                    old(shared)@.queue.inner->0,
                    old(wakes)@,
                    final(wakes)@,
                )
                && final(shared)@.condvar == old(shared)@.condvar,
        phase matches RecvPhase::Wait(SpinTimeoutPhase::Spinning(looked_on))
            ==> raised
            && old(shared)@.queue.inner is Some
            && (old(shared)@.queue.inner->0).len() == 0
            && old(shared)@.senders > 0
                ==> handed_back(
                    old(shared)@.queue,
                    final(shared)@.queue,
                    old(shared)@.queue.inner->0,
                    old(wakes)@,
                    final(wakes)@,
                )
                && joined_spin(old(shared)@.condvar, final(shared)@.condvar, flag)
                && r
                    == Progress::<RecvPhase<SpinTimeoutPhase>, Result<T, RecvTimeoutError>>::Pause(
                        RecvPhase::Wait(SpinTimeoutPhase::Spinning(flag)),
                        Pause::Yield,
                    ),
        phase matches RecvPhase::Wait(SpinTimeoutPhase::Spinning(looked_on))
            ==> !raised
                ==> exists|reading: web_time::Instant|
                    #![trigger time::nanos_between(reading, deadline)]
                    time::read_from_clock(reading)
                    && (
                        time::nanos_between(reading, deadline) > 0
                            ==> final(shared)@ == old(shared)@
                            && final(wakes)@ == old(wakes)@
                            && r
                                ==
                                    Progress::<RecvPhase<SpinTimeoutPhase>, Result<T, RecvTimeoutError>>::Pause(
                                        RecvPhase::Wait(SpinTimeoutPhase::Spinning(looked_on)),
                                        Pause::SpinLoop,
                                    )
                    )
                    && (
                        time::nanos_between(reading, deadline) == 0
                        && old(shared)@.condvar.spin.contains(looked_on)
                        && old(shared)@.queue.inner is None
                            ==> left_spin(old(shared)@.condvar, final(shared)@.condvar, looked_on)
                            && final(wakes)@ == old(wakes)@
                            && (
                                r matches Progress::Pause(RecvPhase::Wait(again), pause)
                                && again == SpinTimeoutPhase::Relock(true)
                                && missed(old(shared)@.queue, final(shared)@.queue, caller, pause)
                            )
                    )
                    && (
                        time::nanos_between(reading, deadline) == 0
                        && old(shared)@.condvar.spin.contains(looked_on)
                        && old(shared)@.queue.inner is Some
                            ==> r
                                ==
                                    Progress::<RecvPhase<SpinTimeoutPhase>, Result<T, RecvTimeoutError>>::Done(
                                        Err(RecvTimeoutError::Timeout),
                                    )
                            && left_spin(old(shared)@.condvar, final(shared)@.condvar, looked_on)
                            && handed_back(
                                old(shared)@.queue,
                                final(shared)@.queue,
                                old(shared)@.queue.inner->0,
                                old(wakes)@,
                                final(wakes)@,
                            )
                    )
                    && (
                        time::nanos_between(reading, deadline) == 0
                        && !old(shared)@.condvar.spin.contains(looked_on)
                            ==> final(shared)@ == old(shared)@
                            && final(wakes)@ == old(wakes)@
                            && r
                                ==
                                    Progress::<RecvPhase<SpinTimeoutPhase>, Result<T, RecvTimeoutError>>::Pause(
                                        RecvPhase::Wait(SpinTimeoutPhase::Handoff(looked_on)),
                                        Pause::Yield,
                                    )
                    ),
        phase matches RecvPhase::Wait(SpinTimeoutPhase::Handoff(looked_on))
            ==> !raised
                ==> final(shared)@ == old(shared)@
                && final(wakes)@ == old(wakes)@
                && r
                    == Progress::<RecvPhase<SpinTimeoutPhase>, Result<T, RecvTimeoutError>>::Pause(
                        RecvPhase::Wait(SpinTimeoutPhase::Handoff(looked_on)),
                        Pause::SpinLoop,
                    ),
        phase matches RecvPhase::Wait(SpinTimeoutPhase::Handoff(looked_on))
            ==> raised && old(shared)@.queue.inner is None
                ==> final(shared)@.condvar == old(shared)@.condvar
                && final(wakes)@ == old(wakes)@
                && (
                    r matches Progress::Pause(RecvPhase::Wait(again), pause)
                    && again == SpinTimeoutPhase::Relock(false)
                    && missed(old(shared)@.queue, final(shared)@.queue, caller, pause)
                ),
        phase matches RecvPhase::Wait(SpinTimeoutPhase::Handoff(looked_on))
            ==>
                raised
                && old(shared)@.queue.inner is Some
                && (old(shared)@.queue.inner->0).len() > 0
                    ==> r
                        ==
                            Progress::<RecvPhase<SpinTimeoutPhase>, Result<T, RecvTimeoutError>>::Done(
                                Ok((old(shared)@.queue.inner->0)[0]),
                            )
                    && handed_back(
                        old(shared)@.queue,
                        final(shared)@.queue,
                        (old(shared)@.queue.inner->0).drop_first(),
                        old(wakes)@,
                        final(wakes)@,
                    )
                    && final(shared)@.condvar == old(shared)@.condvar,
        phase matches RecvPhase::Wait(SpinTimeoutPhase::Handoff(looked_on))
            ==> raised
            && old(shared)@.queue.inner is Some
            && (old(shared)@.queue.inner->0).len() == 0
            && old(shared)@.senders == 0
                ==> r
                    == Progress::<RecvPhase<SpinTimeoutPhase>, Result<T, RecvTimeoutError>>::Done(
                        Err(RecvTimeoutError::Disconnected),
                    )
                && handed_back(
                    old(shared)@.queue,
                    final(shared)@.queue,
                    old(shared)@.queue.inner->0,
                    old(wakes)@,
                    final(wakes)@,
                )
                && final(shared)@.condvar == old(shared)@.condvar,
        phase matches RecvPhase::Wait(SpinTimeoutPhase::Handoff(looked_on))
            ==> raised
            && old(shared)@.queue.inner is Some
            && (old(shared)@.queue.inner->0).len() == 0
            && old(shared)@.senders > 0
                ==> handed_back(
                    old(shared)@.queue,
                    final(shared)@.queue,
                    old(shared)@.queue.inner->0,
                    old(wakes)@,
                    final(wakes)@,
                )
                && joined_spin(old(shared)@.condvar, final(shared)@.condvar, flag)
                && r
                    == Progress::<RecvPhase<SpinTimeoutPhase>, Result<T, RecvTimeoutError>>::Pause(
                        RecvPhase::Wait(SpinTimeoutPhase::Spinning(flag)),
                        Pause::Yield,
                    ),
        phase matches RecvPhase::Wait(SpinTimeoutPhase::Relock(late))
            ==> old(shared)@.queue.inner is None
                ==> final(shared)@.condvar == old(shared)@.condvar
                && final(wakes)@ == old(wakes)@
                && (
                    r matches Progress::Pause(RecvPhase::Wait(again), pause)
                    && again == SpinTimeoutPhase::Relock(late)
                    && missed(old(shared)@.queue, final(shared)@.queue, caller, pause)
                ),
        phase matches RecvPhase::Wait(SpinTimeoutPhase::Relock(late))
            ==>
                !(late)
                && old(shared)@.queue.inner is Some
                && (old(shared)@.queue.inner->0).len() > 0
                    ==> r
                        ==
                            Progress::<RecvPhase<SpinTimeoutPhase>, Result<T, RecvTimeoutError>>::Done(
                                Ok((old(shared)@.queue.inner->0)[0]),
                            )
                    && handed_back(
                        old(shared)@.queue,
                        final(shared)@.queue,
                        (old(shared)@.queue.inner->0).drop_first(),
                        old(wakes)@,
                        final(wakes)@,
                    )
                    && final(shared)@.condvar == old(shared)@.condvar,
        phase matches RecvPhase::Wait(SpinTimeoutPhase::Relock(late))
            ==> !(late)
            && old(shared)@.queue.inner is Some
            && (old(shared)@.queue.inner->0).len() == 0
            && old(shared)@.senders == 0
                ==> r
                    == Progress::<RecvPhase<SpinTimeoutPhase>, Result<T, RecvTimeoutError>>::Done(
                        Err(RecvTimeoutError::Disconnected),
                    )
                && handed_back(
                    old(shared)@.queue,
                    final(shared)@.queue,
                    old(shared)@.queue.inner->0,
                    old(wakes)@,
                    final(wakes)@,
                )
                && final(shared)@.condvar == old(shared)@.condvar,
        phase matches RecvPhase::Wait(SpinTimeoutPhase::Relock(late))
            ==> !(late)
            && old(shared)@.queue.inner is Some
            && (old(shared)@.queue.inner->0).len() == 0
            && old(shared)@.senders > 0
                ==> handed_back(
                    old(shared)@.queue,
                    final(shared)@.queue,
                    old(shared)@.queue.inner->0,
                    old(wakes)@,
                    final(wakes)@,
                )
                && joined_spin(old(shared)@.condvar, final(shared)@.condvar, flag)
                && r
                    == Progress::<RecvPhase<SpinTimeoutPhase>, Result<T, RecvTimeoutError>>::Pause(
                        RecvPhase::Wait(SpinTimeoutPhase::Spinning(flag)),
                        Pause::Yield,
                    ),
        phase matches RecvPhase::Wait(SpinTimeoutPhase::Relock(late))
            ==> late && old(shared)@.queue.inner is Some
                ==> r
                    == Progress::<RecvPhase<SpinTimeoutPhase>, Result<T, RecvTimeoutError>>::Done(
                        Err(RecvTimeoutError::Timeout),
                    )
                && final(shared)@.condvar == old(shared)@.condvar
                && handed_back(
                    old(shared)@.queue,
                    final(shared)@.queue,
                    old(shared)@.queue.inner->0,
                    old(wakes)@,
                    final(wakes)@,
                ),
        final(shared)@.senders == old(shared)@.senders
        && final(shared)@.active == old(shared)@.active,
{
    lemma_freed(old(shared)@.queue);
    if let RecvPhase::Wait(SpinTimeoutPhase::Spinning(looked_on)) = phase {
        lemma_left(old(shared)@.condvar.spin, looked_on);
    }
}

/// What each step of `recv_block_timeout_at` comes to. A receiver that has the queue in hand takes
/// the earliest value; it says that an empty queue is disconnected exactly if there are no senders,
/// and else waits. It says that the time is over only at its deadline, and not if a notification
/// has taken it off the list. A notified receiver goes on to take the queue again.
pub proof fn law_recv_block_timeout_at_answers<T>(
    receiver: &Receiver<T>,
    shared: &mut Shared<T>,
    phase: RecvPhase<BlockTimeoutPhase>,
    caller: Caller,
    now: Moment,
    later: Moment,
    deadline: Moment,
    wakes: &mut Vec<Wake>,
    r: Progress<RecvPhase<BlockTimeoutPhase>, Result<T, RecvTimeoutError>>,
)
    requires
        call_ensures(
            Receiver::<T>::recv_block_timeout_at,
            (receiver, shared, phase, caller, now, later, deadline, wakes),
            r,
        ),
    ensures
        phase matches RecvPhase::Lock
            ==> old(shared)@.queue.inner is Some && (old(shared)@.queue.inner->0).len() > 0
                ==> r
                    == Progress::<RecvPhase<BlockTimeoutPhase>, Result<T, RecvTimeoutError>>::Done(
                        Ok((old(shared)@.queue.inner->0)[0]),
                    )
                && handed_back(
                    old(shared)@.queue,
                    final(shared)@.queue,
                    (old(shared)@.queue.inner->0).drop_first(),
                    old(wakes)@,
                    final(wakes)@,
                )
                && final(shared)@.condvar == old(shared)@.condvar,
        phase matches RecvPhase::Lock
            ==> old(shared)@.queue.inner is Some
            && (old(shared)@.queue.inner->0).len() == 0
            && old(shared)@.senders == 0
                ==> r
                    == Progress::<RecvPhase<BlockTimeoutPhase>, Result<T, RecvTimeoutError>>::Done(
                        Err(RecvTimeoutError::Disconnected),
                    )
                && handed_back(
                    old(shared)@.queue,
                    final(shared)@.queue,
                    old(shared)@.queue.inner->0,
                    old(wakes)@,
                    final(wakes)@,
                )
                && final(shared)@.condvar == old(shared)@.condvar,
        phase matches RecvPhase::Lock
            ==> old(shared)@.queue.inner is Some
            && (old(shared)@.queue.inner->0).len() == 0
            && old(shared)@.senders > 0
                ==> handed_back(
                    old(shared)@.queue,
                    final(shared)@.queue,
                    old(shared)@.queue.inner->0,
                    old(wakes)@,
                    final(wakes)@,
                )
                && joined_sync(old(shared)@.condvar, final(shared)@.condvar, caller.thread)
                && r
                    == Progress::<RecvPhase<BlockTimeoutPhase>, Result<T, RecvTimeoutError>>::Pause(
                        RecvPhase::Wait(BlockTimeoutPhase::Tick),
                        Pause::Yield,
                    ),
        phase matches RecvPhase::Lock
            ==> old(shared)@.queue.inner is None && now.nanos >= deadline.nanos
                ==> final(shared)@ == old(shared)@
                && final(wakes)@ == old(wakes)@
                && r
                    == Progress::<RecvPhase<BlockTimeoutPhase>, Result<T, RecvTimeoutError>>::Done(
                        Err(RecvTimeoutError::Timeout),
                    ),
        phase matches RecvPhase::Lock
            ==> old(shared)@.queue.inner is None && now.nanos < deadline.nanos
                ==> listed(old(shared)@.queue, final(shared)@.queue, caller.thread)
                && final(shared)@.condvar == old(shared)@.condvar
                && final(wakes)@ == old(wakes)@
                && (
                    r matches Progress::Pause(RecvPhase::Lock, Pause::ParkTimeout(nanos))
                    && nanos == if later.nanos < deadline.nanos {
                        deadline.nanos - later.nanos
                    } else {
                        0
                    }
                ),
        phase matches RecvPhase::Wait(BlockTimeoutPhase::Tick)
            ==> now.nanos < deadline.nanos
                ==> final(shared)@ == old(shared)@
                && final(wakes)@ == old(wakes)@
                && (
                    r matches Progress::Pause(
                        RecvPhase::Wait(BlockTimeoutPhase::Parked),
                        Pause::ParkTimeout(nanos),
                    )
                    && nanos == deadline.nanos - now.nanos
                ),
        phase matches RecvPhase::Wait(BlockTimeoutPhase::Tick)
            ==> now.nanos >= deadline.nanos && old(shared)@.queue.inner is None
                ==> left_sync(old(shared)@.condvar, final(shared)@.condvar, caller.thread)
                && final(wakes)@ == old(wakes)@
                && (
                    r matches Progress::Pause(RecvPhase::Wait(again), pause)
                    && again
                        == BlockTimeoutPhase::Relock(
                            old(shared)@.condvar.sync.contains(caller.thread),
                        )
                    && missed(old(shared)@.queue, final(shared)@.queue, caller, pause)
                ),
        phase matches RecvPhase::Wait(BlockTimeoutPhase::Tick)
            ==> now.nanos >= deadline.nanos
            && !(old(shared)@.condvar.sync.contains(caller.thread))
            && old(shared)@.queue.inner is Some
            && (old(shared)@.queue.inner->0).len() > 0
                ==> r
                    == Progress::<RecvPhase<BlockTimeoutPhase>, Result<T, RecvTimeoutError>>::Done(
                        Ok((old(shared)@.queue.inner->0)[0]),
                    )
                && handed_back(
                    old(shared)@.queue,
                    final(shared)@.queue,
                    (old(shared)@.queue.inner->0).drop_first(),
                    old(wakes)@,
                    final(wakes)@,
                )
                && final(shared)@.condvar == old(shared)@.condvar,
        phase matches RecvPhase::Wait(BlockTimeoutPhase::Tick)
            ==> now.nanos >= deadline.nanos
            && !(old(shared)@.condvar.sync.contains(caller.thread))
            && old(shared)@.queue.inner is Some
            && (old(shared)@.queue.inner->0).len() == 0
            && old(shared)@.senders == 0
                ==> r
                    == Progress::<RecvPhase<BlockTimeoutPhase>, Result<T, RecvTimeoutError>>::Done(
                        Err(RecvTimeoutError::Disconnected),
                    )
                && handed_back(
                    old(shared)@.queue,
                    final(shared)@.queue,
                    old(shared)@.queue.inner->0,
                    old(wakes)@,
                    final(wakes)@,
                )
                && final(shared)@.condvar == old(shared)@.condvar,
        phase matches RecvPhase::Wait(BlockTimeoutPhase::Tick)
            ==> now.nanos >= deadline.nanos
            && !(old(shared)@.condvar.sync.contains(caller.thread))
            && old(shared)@.queue.inner is Some
            && (old(shared)@.queue.inner->0).len() == 0
            && old(shared)@.senders > 0
                ==> handed_back(
                    old(shared)@.queue,
                    final(shared)@.queue,
                    old(shared)@.queue.inner->0,
                    old(wakes)@,
                    final(wakes)@,
                )
                && joined_sync(old(shared)@.condvar, final(shared)@.condvar, caller.thread)
                && r
                    == Progress::<RecvPhase<BlockTimeoutPhase>, Result<T, RecvTimeoutError>>::Pause(
                        RecvPhase::Wait(BlockTimeoutPhase::Tick),
                        Pause::Yield,
                    ),
        phase matches RecvPhase::Wait(BlockTimeoutPhase::Tick)
            ==> now.nanos >= deadline.nanos
            && old(shared)@.condvar.sync.contains(caller.thread)
            && old(shared)@.queue.inner is Some
                ==> r
                    == Progress::<RecvPhase<BlockTimeoutPhase>, Result<T, RecvTimeoutError>>::Done(
                        Err(RecvTimeoutError::Timeout),
                    )
                && left_sync(old(shared)@.condvar, final(shared)@.condvar, caller.thread)
                && handed_back(
                    old(shared)@.queue,
                    final(shared)@.queue,
                    old(shared)@.queue.inner->0,
                    old(wakes)@,
                    final(wakes)@,
                ),
        phase matches RecvPhase::Wait(BlockTimeoutPhase::Parked)
            ==> old(shared)@.condvar.sync.contains(caller.thread)
                ==> final(shared)@ == old(shared)@
                && final(wakes)@ == old(wakes)@
                && r
                    == Progress::<RecvPhase<BlockTimeoutPhase>, Result<T, RecvTimeoutError>>::Pause(
                        RecvPhase::Wait(BlockTimeoutPhase::Tick),
                        Pause::Yield,
                    ),
        phase matches RecvPhase::Wait(BlockTimeoutPhase::Parked)
            ==>
                !old(shared)@.condvar.sync.contains(caller.thread)
                && old(shared)@.queue.inner is None
                    ==> final(shared)@.condvar == old(shared)@.condvar
                    && final(wakes)@ == old(wakes)@
                    && (
                        r matches Progress::Pause(RecvPhase::Wait(again), pause)
                        && again == BlockTimeoutPhase::Relock(false)
                        && missed(old(shared)@.queue, final(shared)@.queue, caller, pause)
                    ),
        phase matches RecvPhase::Wait(BlockTimeoutPhase::Parked)
            ==> !old(shared)@.condvar.sync.contains(caller.thread)
            && old(shared)@.queue.inner is Some
            && (old(shared)@.queue.inner->0).len() > 0
                ==> r
                    == Progress::<RecvPhase<BlockTimeoutPhase>, Result<T, RecvTimeoutError>>::Done(
                        Ok((old(shared)@.queue.inner->0)[0]),
                    )
                && handed_back(
                    old(shared)@.queue,
                    final(shared)@.queue,
                    (old(shared)@.queue.inner->0).drop_first(),
                    old(wakes)@,
                    final(wakes)@,
                )
                && final(shared)@.condvar == old(shared)@.condvar,
        phase matches RecvPhase::Wait(BlockTimeoutPhase::Parked)
            ==> !old(shared)@.condvar.sync.contains(caller.thread)
            && old(shared)@.queue.inner is Some
            && (old(shared)@.queue.inner->0).len() == 0
            && old(shared)@.senders == 0
                ==> r
                    == Progress::<RecvPhase<BlockTimeoutPhase>, Result<T, RecvTimeoutError>>::Done(
                        Err(RecvTimeoutError::Disconnected),
                    )
                && handed_back(
                    old(shared)@.queue,
                    final(shared)@.queue,
                    old(shared)@.queue.inner->0,
                    old(wakes)@,
                    final(wakes)@,
                )
                && final(shared)@.condvar == old(shared)@.condvar,
        phase matches RecvPhase::Wait(BlockTimeoutPhase::Parked)
            ==> !old(shared)@.condvar.sync.contains(caller.thread)
            && old(shared)@.queue.inner is Some
            && (old(shared)@.queue.inner->0).len() == 0
            && old(shared)@.senders > 0
                ==> handed_back(
                    old(shared)@.queue,
                    final(shared)@.queue,
                    old(shared)@.queue.inner->0,
                    old(wakes)@,
                    final(wakes)@,
                )
                && joined_sync(old(shared)@.condvar, final(shared)@.condvar, caller.thread)
                && r
                    == Progress::<RecvPhase<BlockTimeoutPhase>, Result<T, RecvTimeoutError>>::Pause(
                        RecvPhase::Wait(BlockTimeoutPhase::Tick),
                        Pause::Yield,
                    ),
        phase matches RecvPhase::Wait(BlockTimeoutPhase::Relock(late))
            ==> old(shared)@.queue.inner is None
                ==> final(shared)@.condvar == old(shared)@.condvar
                && final(wakes)@ == old(wakes)@
                && (
                    r matches Progress::Pause(RecvPhase::Wait(again), pause)
                    && again == BlockTimeoutPhase::Relock(late)
                    && missed(old(shared)@.queue, final(shared)@.queue, caller, pause)
                ),
        phase matches RecvPhase::Wait(BlockTimeoutPhase::Relock(late))
            ==>
                !(late)
                && old(shared)@.queue.inner is Some
                && (old(shared)@.queue.inner->0).len() > 0
                    ==> r
                        ==
                            Progress::<RecvPhase<BlockTimeoutPhase>, Result<T, RecvTimeoutError>>::Done(
                                Ok((old(shared)@.queue.inner->0)[0]),
                            )
                    && handed_back(
                        old(shared)@.queue,
                        final(shared)@.queue,
                        (old(shared)@.queue.inner->0).drop_first(),
                        old(wakes)@,
                        final(wakes)@,
                    )
                    && final(shared)@.condvar == old(shared)@.condvar,
        phase matches RecvPhase::Wait(BlockTimeoutPhase::Relock(late))
            ==> !(late)
            && old(shared)@.queue.inner is Some
            && (old(shared)@.queue.inner->0).len() == 0
            && old(shared)@.senders == 0
                ==> r
                    == Progress::<RecvPhase<BlockTimeoutPhase>, Result<T, RecvTimeoutError>>::Done(
                        Err(RecvTimeoutError::Disconnected),
                    )
                && handed_back(
                    old(shared)@.queue,
                    final(shared)@.queue,
                    old(shared)@.queue.inner->0,
                    old(wakes)@,
                    final(wakes)@,
                )
                && final(shared)@.condvar == old(shared)@.condvar,
        phase matches RecvPhase::Wait(BlockTimeoutPhase::Relock(late))
            ==> !(late)
            && old(shared)@.queue.inner is Some
            && (old(shared)@.queue.inner->0).len() == 0
            && old(shared)@.senders > 0
                ==> handed_back(
                    old(shared)@.queue,
                    final(shared)@.queue,
                    old(shared)@.queue.inner->0,
                    old(wakes)@,
                    final(wakes)@,
                )
                && joined_sync(old(shared)@.condvar, final(shared)@.condvar, caller.thread)
                && r
                    == Progress::<RecvPhase<BlockTimeoutPhase>, Result<T, RecvTimeoutError>>::Pause(
                        RecvPhase::Wait(BlockTimeoutPhase::Tick),
                        Pause::Yield,
                    ),
        phase matches RecvPhase::Wait(BlockTimeoutPhase::Relock(late))
            ==> late && old(shared)@.queue.inner is Some
                ==> r
                    == Progress::<RecvPhase<BlockTimeoutPhase>, Result<T, RecvTimeoutError>>::Done(
                        Err(RecvTimeoutError::Timeout),
                    )
                && final(shared)@.condvar == old(shared)@.condvar
                && handed_back(
                    old(shared)@.queue,
                    final(shared)@.queue,
                    old(shared)@.queue.inner->0,
                    old(wakes)@,
                    final(wakes)@,
                ),
        final(shared)@.senders == old(shared)@.senders
        && final(shared)@.active == old(shared)@.active,
{
    lemma_freed(old(shared)@.queue);
    lemma_left(old(shared)@.condvar.sync, caller.thread);
}

/// What each step of `recv_block_timeout` comes to. A receiver that has the queue in hand takes the
/// earliest value; it says that an empty queue is disconnected exactly if there are no senders, and
/// else waits. It says that the time is over only at its deadline, which the clock that it reads
/// has shown, and not if a notification has taken it off the list. A notified receiver goes on to
/// take the queue again.
pub proof fn law_recv_block_timeout_answers<T>(
    receiver: &Receiver<T>,
    shared: &mut Shared<T>,
    phase: RecvPhase<BlockTimeoutPhase>,
    caller: Caller,
    deadline: web_time::Instant,
    wakes: &mut Vec<Wake>,
    r: Progress<RecvPhase<BlockTimeoutPhase>, Result<T, RecvTimeoutError>>,
)
    requires
        call_ensures(
            Receiver::<T>::recv_block_timeout,
            (receiver, shared, phase, caller, deadline, wakes),
            r,
        ),
    ensures
        phase matches RecvPhase::Lock
            ==> old(shared)@.queue.inner is Some && (old(shared)@.queue.inner->0).len() > 0
                ==> r
                    == Progress::<RecvPhase<BlockTimeoutPhase>, Result<T, RecvTimeoutError>>::Done(
                        Ok((old(shared)@.queue.inner->0)[0]),
                    )
                && handed_back(
                    old(shared)@.queue,
                    final(shared)@.queue,
                    (old(shared)@.queue.inner->0).drop_first(),
                    old(wakes)@,
                    final(wakes)@,
                )
                && final(shared)@.condvar == old(shared)@.condvar,
        phase matches RecvPhase::Lock
            ==> old(shared)@.queue.inner is Some
            && (old(shared)@.queue.inner->0).len() == 0
            && old(shared)@.senders == 0
                ==> r
                    == Progress::<RecvPhase<BlockTimeoutPhase>, Result<T, RecvTimeoutError>>::Done(
                        Err(RecvTimeoutError::Disconnected),
                    )
                && handed_back(
                    old(shared)@.queue,
                    final(shared)@.queue,
                    old(shared)@.queue.inner->0,
                    old(wakes)@,
                    final(wakes)@,
                )
                && final(shared)@.condvar == old(shared)@.condvar,
        phase matches RecvPhase::Lock
            ==> old(shared)@.queue.inner is Some
            && (old(shared)@.queue.inner->0).len() == 0
            && old(shared)@.senders > 0
                ==> handed_back(
                    old(shared)@.queue,
                    final(shared)@.queue,
                    old(shared)@.queue.inner->0,
                    old(wakes)@,
                    final(wakes)@,
                )
                && joined_sync(old(shared)@.condvar, final(shared)@.condvar, caller.thread)
                && r
                    == Progress::<RecvPhase<BlockTimeoutPhase>, Result<T, RecvTimeoutError>>::Pause(
                        RecvPhase::Wait(BlockTimeoutPhase::Tick),
                        Pause::Yield,
                    ),
        phase matches RecvPhase::Lock
            ==> old(shared)@.queue.inner is None && r is Done
                ==> final(shared)@ == old(shared)@
                && final(wakes)@ == old(wakes)@
                && r
                    == Progress::<RecvPhase<BlockTimeoutPhase>, Result<T, RecvTimeoutError>>::Done(
                        Err(RecvTimeoutError::Timeout),
                    )
                && exists|reading: web_time::Instant|
                    time::read_from_clock(reading)
                    && #[trigger] time::nanos_between(reading, deadline) == 0,
        phase matches RecvPhase::Lock
            ==> old(shared)@.queue.inner is None && r is Pause
                ==> exists|reading: web_time::Instant, again: web_time::Instant|
                    #![trigger time::nanos_between(reading, deadline),
                        time::nanos_between(reading, again)]
                    time::read_from_clock(reading)
                    && time::read_from_clock(again)
                    && time::nanos_between(reading, deadline) > 0
                    && listed(old(shared)@.queue, final(shared)@.queue, caller.thread)
                    && final(shared)@.condvar == old(shared)@.condvar
                    && final(wakes)@ == old(wakes)@
                    && (
                        r matches Progress::Pause(RecvPhase::Lock, Pause::ParkTimeout(nanos))
                        &&
                            nanos == if time::nanos_between(reading, again) < time::nanos_between(reading, deadline) {
                                time::nanos_between(reading, deadline) - time::nanos_between(
                                    reading,
                                    again,
                                )
                            } else {
                                0
                            }
                    ),
        phase matches RecvPhase::Wait(BlockTimeoutPhase::Tick)
            ==> exists|reading: web_time::Instant|
                #![trigger time::nanos_between(reading, deadline)]
                time::read_from_clock(reading)
                && (
                    time::nanos_between(reading, deadline) > 0
                        ==> final(shared)@ == old(shared)@
                        && final(wakes)@ == old(wakes)@
                        && (
                            r matches Progress::Pause(
                                RecvPhase::Wait(BlockTimeoutPhase::Parked),
                                Pause::ParkTimeout(nanos),
                            )
                            && nanos == time::nanos_between(reading, deadline)
                        )
                )
                && (
                    time::nanos_between(reading, deadline) == 0 && old(shared)@.queue.inner is None
                        ==> left_sync(old(shared)@.condvar, final(shared)@.condvar, caller.thread)
                        && final(wakes)@ == old(wakes)@
                        && (
                            r matches Progress::Pause(RecvPhase::Wait(again), pause)
                            && again
                                == BlockTimeoutPhase::Relock(
                                    old(shared)@.condvar.sync.contains(caller.thread),
                                )
                            && missed(old(shared)@.queue, final(shared)@.queue, caller, pause)
                        )
                )
                && (
                    time::nanos_between(reading, deadline) == 0
                    && !(old(shared)@.condvar.sync.contains(caller.thread))
                    && old(shared)@.queue.inner is Some
                    && (old(shared)@.queue.inner->0).len() > 0
                        ==> r
                            ==
                                Progress::<RecvPhase<BlockTimeoutPhase>, Result<T, RecvTimeoutError>>::Done(
                                    Ok((old(shared)@.queue.inner->0)[0]),
                                )
                        && handed_back(
                            old(shared)@.queue,
                            final(shared)@.queue,
                            (old(shared)@.queue.inner->0).drop_first(),
                            old(wakes)@,
                            final(wakes)@,
                        )
                        && final(shared)@.condvar == old(shared)@.condvar
                )
                && (
                    time::nanos_between(reading, deadline) == 0
                    && !(old(shared)@.condvar.sync.contains(caller.thread))
                    && old(shared)@.queue.inner is Some
                    && (old(shared)@.queue.inner->0).len() == 0
                    && old(shared)@.senders == 0
                        ==> r
                            ==
                                Progress::<RecvPhase<BlockTimeoutPhase>, Result<T, RecvTimeoutError>>::Done(
                                    Err(RecvTimeoutError::Disconnected),
                                )
                        && handed_back(
                            old(shared)@.queue,
                            final(shared)@.queue,
                            old(shared)@.queue.inner->0,
                            old(wakes)@,
                            final(wakes)@,
                        )
                        && final(shared)@.condvar == old(shared)@.condvar
                )
                && (
                    time::nanos_between(reading, deadline) == 0
                    && !(old(shared)@.condvar.sync.contains(caller.thread))
                    && old(shared)@.queue.inner is Some
                    && (old(shared)@.queue.inner->0).len() == 0
                    && old(shared)@.senders > 0
                        ==> handed_back(
                            old(shared)@.queue,
                            final(shared)@.queue,
                            old(shared)@.queue.inner->0,
                            old(wakes)@,
                            final(wakes)@,
                        )
                        && joined_sync(old(shared)@.condvar, final(shared)@.condvar, caller.thread)
                        && r
                            ==
                                Progress::<RecvPhase<BlockTimeoutPhase>, Result<T, RecvTimeoutError>>::Pause(
                                    RecvPhase::Wait(BlockTimeoutPhase::Tick),
                                    Pause::Yield,
                                )
                )
                && (
                    time::nanos_between(reading, deadline) == 0
                    && old(shared)@.condvar.sync.contains(caller.thread)
                    && old(shared)@.queue.inner is Some
                        ==> r
                            ==
                                Progress::<RecvPhase<BlockTimeoutPhase>, Result<T, RecvTimeoutError>>::Done(
                                    Err(RecvTimeoutError::Timeout),
                                )
                        && left_sync(old(shared)@.condvar, final(shared)@.condvar, caller.thread)
                        && handed_back(
                            old(shared)@.queue,
                            final(shared)@.queue,
                            old(shared)@.queue.inner->0,
                            old(wakes)@,
                            final(wakes)@,
                        )
                ),
        phase matches RecvPhase::Wait(BlockTimeoutPhase::Parked)
            ==> old(shared)@.condvar.sync.contains(caller.thread)
                ==> final(shared)@ == old(shared)@
                && final(wakes)@ == old(wakes)@
                && r
                    == Progress::<RecvPhase<BlockTimeoutPhase>, Result<T, RecvTimeoutError>>::Pause(
                        RecvPhase::Wait(BlockTimeoutPhase::Tick),
                        Pause::Yield,
                    ),
        phase matches RecvPhase::Wait(BlockTimeoutPhase::Parked)
            ==>
                !old(shared)@.condvar.sync.contains(caller.thread)
                && old(shared)@.queue.inner is None
                    ==> final(shared)@.condvar == old(shared)@.condvar
                    && final(wakes)@ == old(wakes)@
                    && (
                        r matches Progress::Pause(RecvPhase::Wait(again), pause)
                        && again == BlockTimeoutPhase::Relock(false)
                        && missed(old(shared)@.queue, final(shared)@.queue, caller, pause)
                    ),
        phase matches RecvPhase::Wait(BlockTimeoutPhase::Parked)
            ==> !old(shared)@.condvar.sync.contains(caller.thread)
            && old(shared)@.queue.inner is Some
            && (old(shared)@.queue.inner->0).len() > 0
                ==> r
                    == Progress::<RecvPhase<BlockTimeoutPhase>, Result<T, RecvTimeoutError>>::Done(
                        Ok((old(shared)@.queue.inner->0)[0]),
                    )
                && handed_back(
                    old(shared)@.queue,
                    final(shared)@.queue,
                    (old(shared)@.queue.inner->0).drop_first(),
                    old(wakes)@,
                    final(wakes)@,
                )
                && final(shared)@.condvar == old(shared)@.condvar,
        phase matches RecvPhase::Wait(BlockTimeoutPhase::Parked)
            ==> !old(shared)@.condvar.sync.contains(caller.thread)
            && old(shared)@.queue.inner is Some
            && (old(shared)@.queue.inner->0).len() == 0
            && old(shared)@.senders == 0
                ==> r
                    == Progress::<RecvPhase<BlockTimeoutPhase>, Result<T, RecvTimeoutError>>::Done(
                        Err(RecvTimeoutError::Disconnected),
                    )
                && handed_back(
                    old(shared)@.queue,
                    final(shared)@.queue,
                    old(shared)@.queue.inner->0,
                    old(wakes)@,
                    final(wakes)@,
                )
                && final(shared)@.condvar == old(shared)@.condvar,
        phase matches RecvPhase::Wait(BlockTimeoutPhase::Parked)
            ==> !old(shared)@.condvar.sync.contains(caller.thread)
            && old(shared)@.queue.inner is Some
            && (old(shared)@.queue.inner->0).len() == 0
            && old(shared)@.senders > 0
                ==> handed_back(
                    old(shared)@.queue,
                    final(shared)@.queue,
                    old(shared)@.queue.inner->0,
                    old(wakes)@,
                    final(wakes)@,
                )
                && joined_sync(old(shared)@.condvar, final(shared)@.condvar, caller.thread)
                && r
                    == Progress::<RecvPhase<BlockTimeoutPhase>, Result<T, RecvTimeoutError>>::Pause(
                        RecvPhase::Wait(BlockTimeoutPhase::Tick),
                        Pause::Yield,
                    ),
        phase matches RecvPhase::Wait(BlockTimeoutPhase::Relock(late))
            ==> old(shared)@.queue.inner is None
                ==> final(shared)@.condvar == old(shared)@.condvar
                && final(wakes)@ == old(wakes)@
                && (
                    r matches Progress::Pause(RecvPhase::Wait(again), pause)
                    && again == BlockTimeoutPhase::Relock(late)
                    && missed(old(shared)@.queue, final(shared)@.queue, caller, pause)
                ),
        phase matches RecvPhase::Wait(BlockTimeoutPhase::Relock(late))
            ==>
                !(late)
                && old(shared)@.queue.inner is Some
                && (old(shared)@.queue.inner->0).len() > 0
                    ==> r
                        ==
                            Progress::<RecvPhase<BlockTimeoutPhase>, Result<T, RecvTimeoutError>>::Done(
                                Ok((old(shared)@.queue.inner->0)[0]),
                            )
                    && handed_back(
                        old(shared)@.queue,
                        final(shared)@.queue,
                        (old(shared)@.queue.inner->0).drop_first(),
                        old(wakes)@,
                        final(wakes)@,
                    )
                    && final(shared)@.condvar == old(shared)@.condvar,
        phase matches RecvPhase::Wait(BlockTimeoutPhase::Relock(late))
            ==> !(late)
            && old(shared)@.queue.inner is Some
            && (old(shared)@.queue.inner->0).len() == 0
            && old(shared)@.senders == 0
                ==> r
                    == Progress::<RecvPhase<BlockTimeoutPhase>, Result<T, RecvTimeoutError>>::Done(
                        Err(RecvTimeoutError::Disconnected),
                    )
                && handed_back(
                    old(shared)@.queue,
                    final(shared)@.queue,
                    old(shared)@.queue.inner->0,
                    old(wakes)@,
                    final(wakes)@,
                )
                && final(shared)@.condvar == old(shared)@.condvar,
        phase matches RecvPhase::Wait(BlockTimeoutPhase::Relock(late))
            ==> !(late)
            && old(shared)@.queue.inner is Some
            && (old(shared)@.queue.inner->0).len() == 0
            && old(shared)@.senders > 0
                ==> handed_back(
                    old(shared)@.queue,
                    final(shared)@.queue,
                    old(shared)@.queue.inner->0,
                    old(wakes)@,
                    final(wakes)@,
                )
                && joined_sync(old(shared)@.condvar, final(shared)@.condvar, caller.thread)
                && r
                    == Progress::<RecvPhase<BlockTimeoutPhase>, Result<T, RecvTimeoutError>>::Pause(
                        RecvPhase::Wait(BlockTimeoutPhase::Tick),
                        Pause::Yield,
                    ),
        phase matches RecvPhase::Wait(BlockTimeoutPhase::Relock(late))
            ==> late && old(shared)@.queue.inner is Some
                ==> r
                    == Progress::<RecvPhase<BlockTimeoutPhase>, Result<T, RecvTimeoutError>>::Done(
                        Err(RecvTimeoutError::Timeout),
                    )
                && final(shared)@.condvar == old(shared)@.condvar
                && handed_back(
                    old(shared)@.queue,
                    final(shared)@.queue,
                    old(shared)@.queue.inner->0,
                    old(wakes)@,
                    final(wakes)@,
                ),
        final(shared)@.senders == old(shared)@.senders
        && final(shared)@.active == old(shared)@.active,
{
    lemma_freed(old(shared)@.queue);
    lemma_left(old(shared)@.condvar.sync, caller.thread);
}

/// What each step of `recv_sync_timeout_at` comes to. A receiver that has the queue in hand takes
/// the earliest value; it says that an empty queue is disconnected exactly if there are no senders,
/// and else waits. It says that the time is over only at its deadline, and not if a notification
/// has taken it off the list. A notified receiver goes on to take the queue again.
pub proof fn law_recv_sync_timeout_at_answers<T>(
    receiver: &Receiver<T>,
    shared: &mut Shared<T>,
    phase: RecvPhase<SyncTimeoutPhase>,
    flag: u64,
    raised: bool,
    caller: Caller,
    now: Moment,
    later: Moment,
    deadline: Moment,
    wakes: &mut Vec<Wake>,
    r: Progress<RecvPhase<SyncTimeoutPhase>, Result<T, RecvTimeoutError>>,
)
    requires
        call_ensures(
            Receiver::<T>::recv_sync_timeout_at,
            (receiver, shared, phase, flag, raised, caller, now, later, deadline, wakes),
            r,
        ),
    ensures
        phase matches RecvPhase::Lock
            ==> old(shared)@.queue.inner is Some && (old(shared)@.queue.inner->0).len() > 0
                ==> r
                    == Progress::<RecvPhase<SyncTimeoutPhase>, Result<T, RecvTimeoutError>>::Done(
                        Ok((old(shared)@.queue.inner->0)[0]),
                    )
                && handed_back(
                    old(shared)@.queue,
                    final(shared)@.queue,
                    (old(shared)@.queue.inner->0).drop_first(),
                    old(wakes)@,
                    final(wakes)@,
                )
                && final(shared)@.condvar == old(shared)@.condvar,
        phase matches RecvPhase::Lock
            ==> old(shared)@.queue.inner is Some
            && (old(shared)@.queue.inner->0).len() == 0
            && old(shared)@.senders == 0
                ==> r
                    == Progress::<RecvPhase<SyncTimeoutPhase>, Result<T, RecvTimeoutError>>::Done(
                        Err(RecvTimeoutError::Disconnected),
                    )
                && handed_back(
                    old(shared)@.queue,
                    final(shared)@.queue,
                    old(shared)@.queue.inner->0,
                    old(wakes)@,
                    final(wakes)@,
                )
                && final(shared)@.condvar == old(shared)@.condvar,
        phase matches RecvPhase::Lock
            ==> old(shared)@.queue.inner is Some
            && (old(shared)@.queue.inner->0).len() == 0
            && old(shared)@.senders > 0
                ==> handed_back(
                    old(shared)@.queue,
                    final(shared)@.queue,
                    old(shared)@.queue.inner->0,
                    old(wakes)@,
                    final(wakes)@,
                )
                && (
                    caller.can_block
                        ==> joined_sync(old(shared)@.condvar, final(shared)@.condvar, caller.thread)
                        && r
                            ==
                                Progress::<RecvPhase<SyncTimeoutPhase>, Result<T, RecvTimeoutError>>::Pause(
                                    RecvPhase::Wait(
                                        SyncTimeoutPhase::Block(BlockTimeoutPhase::Tick),
                                    ),
                                    Pause::Yield,
                                )
                )
                && (
                    !caller.can_block
                        ==> joined_spin(old(shared)@.condvar, final(shared)@.condvar, flag)
                        && r
                            ==
                                Progress::<RecvPhase<SyncTimeoutPhase>, Result<T, RecvTimeoutError>>::Pause(
                                    RecvPhase::Wait(
                                        SyncTimeoutPhase::Spin(SpinTimeoutPhase::Spinning(flag)),
                                    ),
                                    Pause::Yield,
                                )
                ),
        phase matches RecvPhase::Lock
            ==> !caller.can_block && old(shared)@.queue.inner is None && now.nanos >= deadline.nanos
                ==> final(shared)@ == old(shared)@
                && final(wakes)@ == old(wakes)@
                && r
                    == Progress::<RecvPhase<SyncTimeoutPhase>, Result<T, RecvTimeoutError>>::Done(
                        Err(RecvTimeoutError::Timeout),
                    ),
        phase matches RecvPhase::Lock
            ==> !caller.can_block && old(shared)@.queue.inner is None && now.nanos < deadline.nanos
                ==> final(shared)@ == old(shared)@
                && final(wakes)@ == old(wakes)@
                && r
                    == Progress::<RecvPhase<SyncTimeoutPhase>, Result<T, RecvTimeoutError>>::Pause(
                        RecvPhase::Lock,
                        Pause::SpinLoop,
                    ),
        phase matches RecvPhase::Lock
            ==> caller.can_block && old(shared)@.queue.inner is None && now.nanos >= deadline.nanos
                ==> final(shared)@ == old(shared)@
                && final(wakes)@ == old(wakes)@
                && r
                    == Progress::<RecvPhase<SyncTimeoutPhase>, Result<T, RecvTimeoutError>>::Done(
                        Err(RecvTimeoutError::Timeout),
                    ),
        phase matches RecvPhase::Lock
            ==> caller.can_block && old(shared)@.queue.inner is None && now.nanos < deadline.nanos
                ==> listed(old(shared)@.queue, final(shared)@.queue, caller.thread)
                && final(shared)@.condvar == old(shared)@.condvar
                && final(wakes)@ == old(wakes)@
                && (
                    r matches Progress::Pause(RecvPhase::Lock, Pause::ParkTimeout(nanos))
                    && nanos == if later.nanos < deadline.nanos {
                        deadline.nanos - later.nanos
                    } else {
                        0
                    }
                ),
        phase matches RecvPhase::Wait(SyncTimeoutPhase::Block(BlockTimeoutPhase::Tick))
            ==> now.nanos < deadline.nanos
                ==> final(shared)@ == old(shared)@
                && final(wakes)@ == old(wakes)@
                && (
                    r matches Progress::Pause(
                        RecvPhase::Wait(SyncTimeoutPhase::Block(BlockTimeoutPhase::Parked)),
                        Pause::ParkTimeout(nanos),
                    )
                    && nanos == deadline.nanos - now.nanos
                ),
        phase matches RecvPhase::Wait(SyncTimeoutPhase::Block(BlockTimeoutPhase::Tick))
            ==> now.nanos >= deadline.nanos && old(shared)@.queue.inner is None
                ==> left_sync(old(shared)@.condvar, final(shared)@.condvar, caller.thread)
                && final(wakes)@ == old(wakes)@
                && (
                    r matches Progress::Pause(RecvPhase::Wait(again), pause)
                    && again
                        == SyncTimeoutPhase::Block(
                            BlockTimeoutPhase::Relock(
                                old(shared)@.condvar.sync.contains(caller.thread),
                            ),
                        )
                    && missed(old(shared)@.queue, final(shared)@.queue, caller, pause)
                ),
        phase matches RecvPhase::Wait(SyncTimeoutPhase::Block(BlockTimeoutPhase::Tick))
            ==> now.nanos >= deadline.nanos
            && !(old(shared)@.condvar.sync.contains(caller.thread))
            && old(shared)@.queue.inner is Some
            && (old(shared)@.queue.inner->0).len() > 0
                ==> r
                    == Progress::<RecvPhase<SyncTimeoutPhase>, Result<T, RecvTimeoutError>>::Done(
                        Ok((old(shared)@.queue.inner->0)[0]),
                    )
                && handed_back(
                    old(shared)@.queue,
                    final(shared)@.queue,
                    (old(shared)@.queue.inner->0).drop_first(),
                    old(wakes)@,
                    final(wakes)@,
                )
                && final(shared)@.condvar == old(shared)@.condvar,
        phase matches RecvPhase::Wait(SyncTimeoutPhase::Block(BlockTimeoutPhase::Tick))
            ==> now.nanos >= deadline.nanos
            && !(old(shared)@.condvar.sync.contains(caller.thread))
            && old(shared)@.queue.inner is Some
            && (old(shared)@.queue.inner->0).len() == 0
            && old(shared)@.senders == 0
                ==> r
                    == Progress::<RecvPhase<SyncTimeoutPhase>, Result<T, RecvTimeoutError>>::Done(
                        Err(RecvTimeoutError::Disconnected),
                    )
                && handed_back(
                    old(shared)@.queue,
                    final(shared)@.queue,
                    old(shared)@.queue.inner->0,
                    old(wakes)@,
                    final(wakes)@,
                )
                && final(shared)@.condvar == old(shared)@.condvar,
        phase matches RecvPhase::Wait(SyncTimeoutPhase::Block(BlockTimeoutPhase::Tick))
            ==> now.nanos >= deadline.nanos
            && !(old(shared)@.condvar.sync.contains(caller.thread))
            && old(shared)@.queue.inner is Some
            && (old(shared)@.queue.inner->0).len() == 0
            && old(shared)@.senders > 0
                ==> handed_back(
                    old(shared)@.queue,
                    final(shared)@.queue,
                    old(shared)@.queue.inner->0,
                    old(wakes)@,
                    final(wakes)@,
                )
                && (
                    caller.can_block
                        ==> joined_sync(old(shared)@.condvar, final(shared)@.condvar, caller.thread)
                        && r
                            ==
                                Progress::<RecvPhase<SyncTimeoutPhase>, Result<T, RecvTimeoutError>>::Pause(
                                    RecvPhase::Wait(
                                        SyncTimeoutPhase::Block(BlockTimeoutPhase::Tick),
                                    ),
                                    Pause::Yield,
                                )
                )
                && (
                    !caller.can_block
                        ==> joined_spin(old(shared)@.condvar, final(shared)@.condvar, flag)
                        && r
                            ==
                                Progress::<RecvPhase<SyncTimeoutPhase>, Result<T, RecvTimeoutError>>::Pause(
                                    RecvPhase::Wait(
                                        SyncTimeoutPhase::Spin(SpinTimeoutPhase::Spinning(flag)),
                                    ),
                                    Pause::Yield,
                                )
                ),
        phase matches RecvPhase::Wait(SyncTimeoutPhase::Block(BlockTimeoutPhase::Tick))
            ==> now.nanos >= deadline.nanos
            && old(shared)@.condvar.sync.contains(caller.thread)
            && old(shared)@.queue.inner is Some
                ==> r
                    == Progress::<RecvPhase<SyncTimeoutPhase>, Result<T, RecvTimeoutError>>::Done(
                        Err(RecvTimeoutError::Timeout),
                    )
                && left_sync(old(shared)@.condvar, final(shared)@.condvar, caller.thread)
                && handed_back(
                    old(shared)@.queue,
                    final(shared)@.queue,
                    old(shared)@.queue.inner->0,
                    old(wakes)@,
                    final(wakes)@,
                ),
        phase matches RecvPhase::Wait(SyncTimeoutPhase::Block(BlockTimeoutPhase::Parked))
            ==> old(shared)@.condvar.sync.contains(caller.thread)
                ==> final(shared)@ == old(shared)@
                && final(wakes)@ == old(wakes)@
                && r
                    == Progress::<RecvPhase<SyncTimeoutPhase>, Result<T, RecvTimeoutError>>::Pause(
                        RecvPhase::Wait(SyncTimeoutPhase::Block(BlockTimeoutPhase::Tick)),
                        Pause::Yield,
                    ),
        phase matches RecvPhase::Wait(SyncTimeoutPhase::Block(BlockTimeoutPhase::Parked))
            ==>
                !old(shared)@.condvar.sync.contains(caller.thread)
                && old(shared)@.queue.inner is None
                    ==> final(shared)@.condvar == old(shared)@.condvar
                    && final(wakes)@ == old(wakes)@
                    && (
                        r matches Progress::Pause(RecvPhase::Wait(again), pause)
                        && again == SyncTimeoutPhase::Block(BlockTimeoutPhase::Relock(false))
                        && missed(old(shared)@.queue, final(shared)@.queue, caller, pause)
                    ),
        phase matches RecvPhase::Wait(SyncTimeoutPhase::Block(BlockTimeoutPhase::Parked))
            ==> !old(shared)@.condvar.sync.contains(caller.thread)
            && old(shared)@.queue.inner is Some
            && (old(shared)@.queue.inner->0).len() > 0
                ==> r
                    == Progress::<RecvPhase<SyncTimeoutPhase>, Result<T, RecvTimeoutError>>::Done(
                        Ok((old(shared)@.queue.inner->0)[0]),
                    )
                && handed_back(
                    old(shared)@.queue,
                    final(shared)@.queue,
                    (old(shared)@.queue.inner->0).drop_first(),
                    old(wakes)@,
                    final(wakes)@,
                )
                && final(shared)@.condvar == old(shared)@.condvar,
        phase matches RecvPhase::Wait(SyncTimeoutPhase::Block(BlockTimeoutPhase::Parked))
            ==> !old(shared)@.condvar.sync.contains(caller.thread)
            && old(shared)@.queue.inner is Some
            && (old(shared)@.queue.inner->0).len() == 0
            && old(shared)@.senders == 0
                ==> r
                    == Progress::<RecvPhase<SyncTimeoutPhase>, Result<T, RecvTimeoutError>>::Done(
                        Err(RecvTimeoutError::Disconnected),
                    )
                && handed_back(
                    old(shared)@.queue,
                    final(shared)@.queue,
                    old(shared)@.queue.inner->0,
                    old(wakes)@,
                    final(wakes)@,
                )
                && final(shared)@.condvar == old(shared)@.condvar,
        phase matches RecvPhase::Wait(SyncTimeoutPhase::Block(BlockTimeoutPhase::Parked))
            ==> !old(shared)@.condvar.sync.contains(caller.thread)
            && old(shared)@.queue.inner is Some
            && (old(shared)@.queue.inner->0).len() == 0
            && old(shared)@.senders > 0
                ==> handed_back(
                    old(shared)@.queue,
                    final(shared)@.queue,
                    old(shared)@.queue.inner->0,
                    old(wakes)@,
                    final(wakes)@,
                )
                && (
                    caller.can_block
                        ==> joined_sync(old(shared)@.condvar, final(shared)@.condvar, caller.thread)
                        && r
                            ==
                                Progress::<RecvPhase<SyncTimeoutPhase>, Result<T, RecvTimeoutError>>::Pause(
                                    RecvPhase::Wait(
                                        SyncTimeoutPhase::Block(BlockTimeoutPhase::Tick),
                                    ),
                                    Pause::Yield,
                                )
                )
                && (
                    !caller.can_block
                        ==> joined_spin(old(shared)@.condvar, final(shared)@.condvar, flag)
                        && r
                            ==
                                Progress::<RecvPhase<SyncTimeoutPhase>, Result<T, RecvTimeoutError>>::Pause(
                                    RecvPhase::Wait(
                                        SyncTimeoutPhase::Spin(SpinTimeoutPhase::Spinning(flag)),
                                    ),
                                    Pause::Yield,
                                )
                ),
        phase matches RecvPhase::Wait(SyncTimeoutPhase::Block(BlockTimeoutPhase::Relock(late)))
            ==> old(shared)@.queue.inner is None
                ==> final(shared)@.condvar == old(shared)@.condvar
                && final(wakes)@ == old(wakes)@
                && (
                    r matches Progress::Pause(RecvPhase::Wait(again), pause)
                    && again == SyncTimeoutPhase::Block(BlockTimeoutPhase::Relock(late))
                    && missed(old(shared)@.queue, final(shared)@.queue, caller, pause)
                ),
        phase matches RecvPhase::Wait(SyncTimeoutPhase::Block(BlockTimeoutPhase::Relock(late)))
            ==>
                !(late)
                && old(shared)@.queue.inner is Some
                && (old(shared)@.queue.inner->0).len() > 0
                    ==> r
                        ==
                            Progress::<RecvPhase<SyncTimeoutPhase>, Result<T, RecvTimeoutError>>::Done(
                                Ok((old(shared)@.queue.inner->0)[0]),
                            )
                    && handed_back(
                        old(shared)@.queue,
                        final(shared)@.queue,
                        (old(shared)@.queue.inner->0).drop_first(),
                        old(wakes)@,
                        final(wakes)@,
                    )
                    && final(shared)@.condvar == old(shared)@.condvar,
        phase matches RecvPhase::Wait(SyncTimeoutPhase::Block(BlockTimeoutPhase::Relock(late)))
            ==> !(late)
            && old(shared)@.queue.inner is Some
            && (old(shared)@.queue.inner->0).len() == 0
            && old(shared)@.senders == 0
                ==> r
                    == Progress::<RecvPhase<SyncTimeoutPhase>, Result<T, RecvTimeoutError>>::Done(
                        Err(RecvTimeoutError::Disconnected),
                    )
                && handed_back(
                    old(shared)@.queue,
                    final(shared)@.queue,
                    old(shared)@.queue.inner->0,
                    old(wakes)@,
                    final(wakes)@,
                )
                && final(shared)@.condvar == old(shared)@.condvar,
        phase matches RecvPhase::Wait(SyncTimeoutPhase::Block(BlockTimeoutPhase::Relock(late)))
            ==> !(late)
            && old(shared)@.queue.inner is Some
            && (old(shared)@.queue.inner->0).len() == 0
            && old(shared)@.senders > 0
                ==> handed_back(
                    old(shared)@.queue,
                    final(shared)@.queue,
                    old(shared)@.queue.inner->0,
                    old(wakes)@,
                    final(wakes)@,
                )
                && (
                    caller.can_block
                        ==> joined_sync(old(shared)@.condvar, final(shared)@.condvar, caller.thread)
                        && r
                            ==
                                Progress::<RecvPhase<SyncTimeoutPhase>, Result<T, RecvTimeoutError>>::Pause(
                                    RecvPhase::Wait(
                                        SyncTimeoutPhase::Block(BlockTimeoutPhase::Tick),
                                    ),
                                    Pause::Yield,
                                )
                )
                && (
                    !caller.can_block
                        ==> joined_spin(old(shared)@.condvar, final(shared)@.condvar, flag)
                        && r
                            ==
                                Progress::<RecvPhase<SyncTimeoutPhase>, Result<T, RecvTimeoutError>>::Pause(
                                    RecvPhase::Wait(
                                        SyncTimeoutPhase::Spin(SpinTimeoutPhase::Spinning(flag)),
                                    ),
                                    Pause::Yield,
                                )
                ),
        phase matches RecvPhase::Wait(SyncTimeoutPhase::Block(BlockTimeoutPhase::Relock(late)))
            ==> late && old(shared)@.queue.inner is Some
                ==> r
                    == Progress::<RecvPhase<SyncTimeoutPhase>, Result<T, RecvTimeoutError>>::Done(
                        Err(RecvTimeoutError::Timeout),
                    )
                && final(shared)@.condvar == old(shared)@.condvar
                && handed_back(
                    old(shared)@.queue,
                    final(shared)@.queue,
                    old(shared)@.queue.inner->0,
                    old(wakes)@,
                    final(wakes)@,
                ),
        phase matches RecvPhase::Wait(
            SyncTimeoutPhase::Spin(SpinTimeoutPhase::Spinning(looked_on)),
        )
            ==> raised && old(shared)@.queue.inner is None
                ==> final(shared)@.condvar == old(shared)@.condvar
                && final(wakes)@ == old(wakes)@
                && (
                    r matches Progress::Pause(RecvPhase::Wait(again), pause)
                    && again == SyncTimeoutPhase::Spin(SpinTimeoutPhase::Relock(false))
                    && missed(old(shared)@.queue, final(shared)@.queue, caller, pause)
                ),
        phase matches RecvPhase::Wait(
            SyncTimeoutPhase::Spin(SpinTimeoutPhase::Spinning(looked_on)),
        )
            ==>
                raised
                && old(shared)@.queue.inner is Some
                && (old(shared)@.queue.inner->0).len() > 0
                    ==> r
                        ==
                            Progress::<RecvPhase<SyncTimeoutPhase>, Result<T, RecvTimeoutError>>::Done(
                                Ok((old(shared)@.queue.inner->0)[0]),
                            )
                    && handed_back(
                        old(shared)@.queue,
                        final(shared)@.queue,
                        (old(shared)@.queue.inner->0).drop_first(),
                        old(wakes)@,
                        final(wakes)@,
                    )
                    && final(shared)@.condvar == old(shared)@.condvar,
        phase matches RecvPhase::Wait(
            SyncTimeoutPhase::Spin(SpinTimeoutPhase::Spinning(looked_on)),
        )
            ==> raised
            && old(shared)@.queue.inner is Some
            && (old(shared)@.queue.inner->0).len() == 0
            && old(shared)@.senders == 0
                ==> r
                    == Progress::<RecvPhase<SyncTimeoutPhase>, Result<T, RecvTimeoutError>>::Done(
                        Err(RecvTimeoutError::Disconnected),
                    )
                && handed_back(
                    old(shared)@.queue,
                    final(shared)@.queue,
                    old(shared)@.queue.inner->0,
                    old(wakes)@,
                    final(wakes)@,
                )
                && final(shared)@.condvar == old(shared)@.condvar,
        phase matches RecvPhase::Wait(
            SyncTimeoutPhase::Spin(SpinTimeoutPhase::Spinning(looked_on)),
        )
            ==> raised
            && old(shared)@.queue.inner is Some
            && (old(shared)@.queue.inner->0).len() == 0
            && old(shared)@.senders > 0
                ==> handed_back(
                    old(shared)@.queue,
                    final(shared)@.queue,
                    old(shared)@.queue.inner->0,
                    old(wakes)@,
                    final(wakes)@,
                )
                && (
                    caller.can_block
                        ==> joined_sync(old(shared)@.condvar, final(shared)@.condvar, caller.thread)
                        && r
                            ==
                                Progress::<RecvPhase<SyncTimeoutPhase>, Result<T, RecvTimeoutError>>::Pause(
                                    RecvPhase::Wait(
                                        SyncTimeoutPhase::Block(BlockTimeoutPhase::Tick),
                                    ),
                                    Pause::Yield,
                                )
                )
                && (
                    !caller.can_block
                        ==> joined_spin(old(shared)@.condvar, final(shared)@.condvar, flag)
                        && r
                            ==
                                Progress::<RecvPhase<SyncTimeoutPhase>, Result<T, RecvTimeoutError>>::Pause(
                                    RecvPhase::Wait(
                                        SyncTimeoutPhase::Spin(SpinTimeoutPhase::Spinning(flag)),
                                    ),
                                    Pause::Yield,
                                )
                ),
        phase matches RecvPhase::Wait(
            SyncTimeoutPhase::Spin(SpinTimeoutPhase::Spinning(looked_on)),
        )
            ==> !raised && now.nanos < deadline.nanos
                ==> final(shared)@ == old(shared)@
                && final(wakes)@ == old(wakes)@
                && r
                    == Progress::<RecvPhase<SyncTimeoutPhase>, Result<T, RecvTimeoutError>>::Pause(
                        RecvPhase::Wait(
                            SyncTimeoutPhase::Spin(SpinTimeoutPhase::Spinning(looked_on)),
                        ),
                        Pause::SpinLoop,
                    ),
        phase matches RecvPhase::Wait(
            SyncTimeoutPhase::Spin(SpinTimeoutPhase::Spinning(looked_on)),
        )
            ==> !raised
            && now.nanos >= deadline.nanos
            && old(shared)@.condvar.spin.contains(looked_on)
            && old(shared)@.queue.inner is None
                ==> left_spin(old(shared)@.condvar, final(shared)@.condvar, looked_on)
                && final(wakes)@ == old(wakes)@
                && (
                    r matches Progress::Pause(RecvPhase::Wait(again), pause)
                    && again == SyncTimeoutPhase::Spin(SpinTimeoutPhase::Relock(true))
                    && missed(old(shared)@.queue, final(shared)@.queue, caller, pause)
                ),
        phase matches RecvPhase::Wait(
            SyncTimeoutPhase::Spin(SpinTimeoutPhase::Spinning(looked_on)),
        )
            ==> !raised
            && now.nanos >= deadline.nanos
            && old(shared)@.condvar.spin.contains(looked_on)
            && old(shared)@.queue.inner is Some
                ==> r
                    == Progress::<RecvPhase<SyncTimeoutPhase>, Result<T, RecvTimeoutError>>::Done(
                        Err(RecvTimeoutError::Timeout),
                    )
                && left_spin(old(shared)@.condvar, final(shared)@.condvar, looked_on)
                && handed_back(
                    old(shared)@.queue,
                    final(shared)@.queue,
                    old(shared)@.queue.inner->0,
                    old(wakes)@,
                    final(wakes)@,
                ),
        phase matches RecvPhase::Wait(
            SyncTimeoutPhase::Spin(SpinTimeoutPhase::Spinning(looked_on)),
        )
            ==> !raised
            && now.nanos >= deadline.nanos
            && !old(shared)@.condvar.spin.contains(looked_on)
                ==> final(shared)@ == old(shared)@
                && final(wakes)@ == old(wakes)@
                && r
                    == Progress::<RecvPhase<SyncTimeoutPhase>, Result<T, RecvTimeoutError>>::Pause(
                        RecvPhase::Wait(
                            SyncTimeoutPhase::Spin(SpinTimeoutPhase::Handoff(looked_on)),
                        ),
                        Pause::Yield,
                    ),
        phase matches RecvPhase::Wait(SyncTimeoutPhase::Spin(SpinTimeoutPhase::Handoff(looked_on)))
            ==> !raised
                ==> final(shared)@ == old(shared)@
                && final(wakes)@ == old(wakes)@
                && r
                    == Progress::<RecvPhase<SyncTimeoutPhase>, Result<T, RecvTimeoutError>>::Pause(
                        RecvPhase::Wait(
                            SyncTimeoutPhase::Spin(SpinTimeoutPhase::Handoff(looked_on)),
                        ),
                        Pause::SpinLoop,
                    ),
        phase matches RecvPhase::Wait(SyncTimeoutPhase::Spin(SpinTimeoutPhase::Handoff(looked_on)))
            ==> raised && old(shared)@.queue.inner is None
                ==> final(shared)@.condvar == old(shared)@.condvar
                && final(wakes)@ == old(wakes)@
                && (
                    r matches Progress::Pause(RecvPhase::Wait(again), pause)
                    && again == SyncTimeoutPhase::Spin(SpinTimeoutPhase::Relock(false))
                    && missed(old(shared)@.queue, final(shared)@.queue, caller, pause)
                ),
        phase matches RecvPhase::Wait(SyncTimeoutPhase::Spin(SpinTimeoutPhase::Handoff(looked_on)))
            ==>
                raised
                && old(shared)@.queue.inner is Some
                && (old(shared)@.queue.inner->0).len() > 0
                    ==> r
                        ==
                            Progress::<RecvPhase<SyncTimeoutPhase>, Result<T, RecvTimeoutError>>::Done(
                                Ok((old(shared)@.queue.inner->0)[0]),
                            )
                    && handed_back(
                        old(shared)@.queue,
                        final(shared)@.queue,
                        (old(shared)@.queue.inner->0).drop_first(),
                        old(wakes)@,
                        final(wakes)@,
                    )
                    && final(shared)@.condvar == old(shared)@.condvar,
        phase matches RecvPhase::Wait(SyncTimeoutPhase::Spin(SpinTimeoutPhase::Handoff(looked_on)))
            ==> raised
            && old(shared)@.queue.inner is Some
            && (old(shared)@.queue.inner->0).len() == 0
            && old(shared)@.senders == 0
                ==> r
                    == Progress::<RecvPhase<SyncTimeoutPhase>, Result<T, RecvTimeoutError>>::Done(
                        Err(RecvTimeoutError::Disconnected),
                    )
                && handed_back(
                    old(shared)@.queue,
                    final(shared)@.queue,
                    old(shared)@.queue.inner->0,
                    old(wakes)@,
                    final(wakes)@,
                )
                && final(shared)@.condvar == old(shared)@.condvar,
        phase matches RecvPhase::Wait(SyncTimeoutPhase::Spin(SpinTimeoutPhase::Handoff(looked_on)))
            ==> raised
            && old(shared)@.queue.inner is Some
            && (old(shared)@.queue.inner->0).len() == 0
            && old(shared)@.senders > 0
                ==> handed_back(
                    old(shared)@.queue,
                    final(shared)@.queue,
                    old(shared)@.queue.inner->0,
                    old(wakes)@,
                    final(wakes)@,
                )
                && (
                    caller.can_block
                        ==> joined_sync(old(shared)@.condvar, final(shared)@.condvar, caller.thread)
                        && r
                            ==
                                Progress::<RecvPhase<SyncTimeoutPhase>, Result<T, RecvTimeoutError>>::Pause(
                                    RecvPhase::Wait(
                                        SyncTimeoutPhase::Block(BlockTimeoutPhase::Tick),
                                    ),
                                    Pause::Yield,
                                )
                )
                && (
                    !caller.can_block
                        ==> joined_spin(old(shared)@.condvar, final(shared)@.condvar, flag)
                        && r
                            ==
                                Progress::<RecvPhase<SyncTimeoutPhase>, Result<T, RecvTimeoutError>>::Pause(
                                    RecvPhase::Wait(
                                        SyncTimeoutPhase::Spin(SpinTimeoutPhase::Spinning(flag)),
                                    ),
                                    Pause::Yield,
                                )
                ),
        phase matches RecvPhase::Wait(SyncTimeoutPhase::Spin(SpinTimeoutPhase::Relock(late)))
            ==> old(shared)@.queue.inner is None
                ==> final(shared)@.condvar == old(shared)@.condvar
                && final(wakes)@ == old(wakes)@
                && (
                    r matches Progress::Pause(RecvPhase::Wait(again), pause)
                    && again == SyncTimeoutPhase::Spin(SpinTimeoutPhase::Relock(late))
                    && missed(old(shared)@.queue, final(shared)@.queue, caller, pause)
                ),
        phase matches RecvPhase::Wait(SyncTimeoutPhase::Spin(SpinTimeoutPhase::Relock(late)))
            ==>
                !(late)
                && old(shared)@.queue.inner is Some
                && (old(shared)@.queue.inner->0).len() > 0
                    ==> r
                        ==
                            Progress::<RecvPhase<SyncTimeoutPhase>, Result<T, RecvTimeoutError>>::Done(
                                Ok((old(shared)@.queue.inner->0)[0]),
                            )
                    && handed_back(
                        old(shared)@.queue,
                        final(shared)@.queue,
                        (old(shared)@.queue.inner->0).drop_first(),
                        old(wakes)@,
                        final(wakes)@,
                    )
                    && final(shared)@.condvar == old(shared)@.condvar,
        phase matches RecvPhase::Wait(SyncTimeoutPhase::Spin(SpinTimeoutPhase::Relock(late)))
            ==> !(late)
            && old(shared)@.queue.inner is Some
            && (old(shared)@.queue.inner->0).len() == 0
            && old(shared)@.senders == 0
                ==> r
                    == Progress::<RecvPhase<SyncTimeoutPhase>, Result<T, RecvTimeoutError>>::Done(
                        Err(RecvTimeoutError::Disconnected),
                    )
                && handed_back(
                    old(shared)@.queue,
                    final(shared)@.queue,
                    old(shared)@.queue.inner->0,
                    old(wakes)@,
                    final(wakes)@,
                )
                && final(shared)@.condvar == old(shared)@.condvar,
        phase matches RecvPhase::Wait(SyncTimeoutPhase::Spin(SpinTimeoutPhase::Relock(late)))
            ==> !(late)
            && old(shared)@.queue.inner is Some
            && (old(shared)@.queue.inner->0).len() == 0
            && old(shared)@.senders > 0
                ==> handed_back(
                    old(shared)@.queue,
                    final(shared)@.queue,
                    old(shared)@.queue.inner->0,
                    old(wakes)@,
                    final(wakes)@,
                )
                && (
                    caller.can_block
                        ==> joined_sync(old(shared)@.condvar, final(shared)@.condvar, caller.thread)
                        && r
                            ==
                                Progress::<RecvPhase<SyncTimeoutPhase>, Result<T, RecvTimeoutError>>::Pause(
                                    RecvPhase::Wait(
                                        SyncTimeoutPhase::Block(BlockTimeoutPhase::Tick),
                                    ),
                                    Pause::Yield,
                                )
                )
                && (
                    !caller.can_block
                        ==> joined_spin(old(shared)@.condvar, final(shared)@.condvar, flag)
                        && r
                            ==
                                Progress::<RecvPhase<SyncTimeoutPhase>, Result<T, RecvTimeoutError>>::Pause(
                                    RecvPhase::Wait(
                                        SyncTimeoutPhase::Spin(SpinTimeoutPhase::Spinning(flag)),
                                    ),
                                    Pause::Yield,
                                )
                ),
        phase matches RecvPhase::Wait(SyncTimeoutPhase::Spin(SpinTimeoutPhase::Relock(late)))
            ==> late && old(shared)@.queue.inner is Some
                ==> r
                    == Progress::<RecvPhase<SyncTimeoutPhase>, Result<T, RecvTimeoutError>>::Done(
                        Err(RecvTimeoutError::Timeout),
                    )
                && final(shared)@.condvar == old(shared)@.condvar
                && handed_back(
                    old(shared)@.queue,
                    final(shared)@.queue,
                    old(shared)@.queue.inner->0,
                    old(wakes)@,
                    final(wakes)@,
                ),
        final(shared)@.senders == old(shared)@.senders
        && final(shared)@.active == old(shared)@.active,
{
    lemma_freed(old(shared)@.queue);
    lemma_left(old(shared)@.condvar.sync, caller.thread);
    if let RecvPhase::Wait(SyncTimeoutPhase::Spin(SpinTimeoutPhase::Spinning(looked_on))) = phase {
        lemma_left(old(shared)@.condvar.spin, looked_on);
    }
}

/// What each step of `recv_sync_timeout` comes to. A receiver that has the queue in hand takes the
/// earliest value; it says that an empty queue is disconnected exactly if there are no senders, and
/// else waits. It says that the time is over only at its deadline, which the clock that it reads
/// has shown, and not if a notification has taken it off the list. A notified receiver goes on to
/// take the queue again.
pub proof fn law_recv_sync_timeout_answers<T>(
    receiver: &Receiver<T>,
    shared: &mut Shared<T>,
    phase: RecvPhase<SyncTimeoutPhase>,
    flag: u64,
    raised: bool,
    caller: Caller,
    deadline: web_time::Instant,
    wakes: &mut Vec<Wake>,
    r: Progress<RecvPhase<SyncTimeoutPhase>, Result<T, RecvTimeoutError>>,
)
    requires
        call_ensures(
            Receiver::<T>::recv_sync_timeout,
            (receiver, shared, phase, flag, raised, caller, deadline, wakes),
            r,
        ),
    ensures
        phase matches RecvPhase::Lock
            ==> old(shared)@.queue.inner is Some && (old(shared)@.queue.inner->0).len() > 0
                ==> r
                    == Progress::<RecvPhase<SyncTimeoutPhase>, Result<T, RecvTimeoutError>>::Done(
                        Ok((old(shared)@.queue.inner->0)[0]),
                    )
                && handed_back(
                    old(shared)@.queue,
                    final(shared)@.queue,
                    (old(shared)@.queue.inner->0).drop_first(),
                    old(wakes)@,
                    final(wakes)@,
                )
                && final(shared)@.condvar == old(shared)@.condvar,
        phase matches RecvPhase::Lock
            ==> old(shared)@.queue.inner is Some
            && (old(shared)@.queue.inner->0).len() == 0
            && old(shared)@.senders == 0
                ==> r
                    == Progress::<RecvPhase<SyncTimeoutPhase>, Result<T, RecvTimeoutError>>::Done(
                        Err(RecvTimeoutError::Disconnected),
                    )
                && handed_back(
                    old(shared)@.queue,
                    final(shared)@.queue,
                    old(shared)@.queue.inner->0,
                    old(wakes)@,
                    final(wakes)@,
                )
                && final(shared)@.condvar == old(shared)@.condvar,
        phase matches RecvPhase::Lock
            ==> old(shared)@.queue.inner is Some
            && (old(shared)@.queue.inner->0).len() == 0
            && old(shared)@.senders > 0
                ==> handed_back(
                    old(shared)@.queue,
                    final(shared)@.queue,
                    old(shared)@.queue.inner->0,
                    old(wakes)@,
                    final(wakes)@,
                )
                && (
                    caller.can_block
                        ==> joined_sync(old(shared)@.condvar, final(shared)@.condvar, caller.thread)
                        && r
                            ==
                                Progress::<RecvPhase<SyncTimeoutPhase>, Result<T, RecvTimeoutError>>::Pause(
                                    RecvPhase::Wait(
                                        SyncTimeoutPhase::Block(BlockTimeoutPhase::Tick),
                                    ),
                                    Pause::Yield,
                                )
                )
                && (
                    !caller.can_block
                        ==> joined_spin(old(shared)@.condvar, final(shared)@.condvar, flag)
                        && r
                            ==
                                Progress::<RecvPhase<SyncTimeoutPhase>, Result<T, RecvTimeoutError>>::Pause(
                                    RecvPhase::Wait(
                                        SyncTimeoutPhase::Spin(SpinTimeoutPhase::Spinning(flag)),
                                    ),
                                    Pause::Yield,
                                )
                ),
        phase matches RecvPhase::Lock
            ==> !caller.can_block && old(shared)@.queue.inner is None
                ==> exists|reading: web_time::Instant|
                    #![trigger time::nanos_between(reading, deadline)]
                    time::read_from_clock(reading)
                    && (
                        time::nanos_between(reading, deadline) == 0
                            ==> final(shared)@ == old(shared)@
                            && final(wakes)@ == old(wakes)@
                            && r
                                ==
                                    Progress::<RecvPhase<SyncTimeoutPhase>, Result<T, RecvTimeoutError>>::Done(
                                        Err(RecvTimeoutError::Timeout),
                                    )
                    )
                    && (
                        time::nanos_between(reading, deadline) > 0
                            ==> final(shared)@ == old(shared)@
                            && final(wakes)@ == old(wakes)@
                            && r
                                ==
                                    Progress::<RecvPhase<SyncTimeoutPhase>, Result<T, RecvTimeoutError>>::Pause(
                                        RecvPhase::Lock,
                                        Pause::SpinLoop,
                                    )
                    ),
        phase matches RecvPhase::Lock
            ==> caller.can_block && old(shared)@.queue.inner is None && r is Done
                ==> final(shared)@ == old(shared)@
                && final(wakes)@ == old(wakes)@
                && r
                    == Progress::<RecvPhase<SyncTimeoutPhase>, Result<T, RecvTimeoutError>>::Done(
                        Err(RecvTimeoutError::Timeout),
                    )
                && exists|reading: web_time::Instant|
                    time::read_from_clock(reading)
                    && #[trigger] time::nanos_between(reading, deadline) == 0,
        phase matches RecvPhase::Lock
            ==> caller.can_block && old(shared)@.queue.inner is None && r is Pause
                ==> exists|reading: web_time::Instant, again: web_time::Instant|
                    #![trigger time::nanos_between(reading, deadline),
                        time::nanos_between(reading, again)]
                    time::read_from_clock(reading)
                    && time::read_from_clock(again)
                    && time::nanos_between(reading, deadline) > 0
                    && listed(old(shared)@.queue, final(shared)@.queue, caller.thread)
                    && final(shared)@.condvar == old(shared)@.condvar
                    && final(wakes)@ == old(wakes)@
                    && (
                        r matches Progress::Pause(RecvPhase::Lock, Pause::ParkTimeout(nanos))
                        &&
                            nanos == if time::nanos_between(reading, again) < time::nanos_between(reading, deadline) {
                                time::nanos_between(reading, deadline) - time::nanos_between(
                                    reading,
                                    again,
                                )
                            } else {
                                0
                            }
                    ),
        phase matches RecvPhase::Wait(SyncTimeoutPhase::Block(BlockTimeoutPhase::Tick))
            ==> exists|reading: web_time::Instant|
                #![trigger time::nanos_between(reading, deadline)]
                time::read_from_clock(reading)
                && (
                    time::nanos_between(reading, deadline) > 0
                        ==> final(shared)@ == old(shared)@
                        && final(wakes)@ == old(wakes)@
                        && (
                            r matches Progress::Pause(
                                RecvPhase::Wait(SyncTimeoutPhase::Block(BlockTimeoutPhase::Parked)),
                                Pause::ParkTimeout(nanos),
                            )
                            && nanos == time::nanos_between(reading, deadline)
                        )
                )
                && (
                    time::nanos_between(reading, deadline) == 0 && old(shared)@.queue.inner is None
                        ==> left_sync(old(shared)@.condvar, final(shared)@.condvar, caller.thread)
                        && final(wakes)@ == old(wakes)@
                        && (
                            r matches Progress::Pause(RecvPhase::Wait(again), pause)
                            && again
                                == SyncTimeoutPhase::Block(
                                    BlockTimeoutPhase::Relock(
                                        old(shared)@.condvar.sync.contains(caller.thread),
                                    ),
                                )
                            && missed(old(shared)@.queue, final(shared)@.queue, caller, pause)
                        )
                )
                && (
                    time::nanos_between(reading, deadline) == 0
                    && !(old(shared)@.condvar.sync.contains(caller.thread))
                    && old(shared)@.queue.inner is Some
                    && (old(shared)@.queue.inner->0).len() > 0
                        ==> r
                            ==
                                Progress::<RecvPhase<SyncTimeoutPhase>, Result<T, RecvTimeoutError>>::Done(
                                    Ok((old(shared)@.queue.inner->0)[0]),
                                )
                        && handed_back(
                            old(shared)@.queue,
                            final(shared)@.queue,
                            (old(shared)@.queue.inner->0).drop_first(),
                            old(wakes)@,
                            final(wakes)@,
                        )
                        && final(shared)@.condvar == old(shared)@.condvar
                )
                && (
                    time::nanos_between(reading, deadline) == 0
                    && !(old(shared)@.condvar.sync.contains(caller.thread))
                    && old(shared)@.queue.inner is Some
                    && (old(shared)@.queue.inner->0).len() == 0
                    && old(shared)@.senders == 0
                        ==> r
                            ==
                                Progress::<RecvPhase<SyncTimeoutPhase>, Result<T, RecvTimeoutError>>::Done(
                                    Err(RecvTimeoutError::Disconnected),
                                )
                        && handed_back(
                            old(shared)@.queue,
                            final(shared)@.queue,
                            old(shared)@.queue.inner->0,
                            old(wakes)@,
                            final(wakes)@,
                        )
                        && final(shared)@.condvar == old(shared)@.condvar
                )
                && (
                    time::nanos_between(reading, deadline) == 0
                    && !(old(shared)@.condvar.sync.contains(caller.thread))
                    && old(shared)@.queue.inner is Some
                    && (old(shared)@.queue.inner->0).len() == 0
                    && old(shared)@.senders > 0
                        ==> handed_back(
                            old(shared)@.queue,
                            final(shared)@.queue,
                            old(shared)@.queue.inner->0,
                            old(wakes)@,
                            final(wakes)@,
                        )
                        && (
                            caller.can_block
                                ==> joined_sync(
                                    old(shared)@.condvar,
                                    final(shared)@.condvar,
                                    caller.thread,
                                )
                                && r
                                    ==
                                        Progress::<RecvPhase<SyncTimeoutPhase>, Result<T, RecvTimeoutError>>::Pause(
                                            RecvPhase::Wait(
                                                SyncTimeoutPhase::Block(BlockTimeoutPhase::Tick),
                                            ),
                                            Pause::Yield,
                                        )
                        )
                        && (
                            !caller.can_block
                                ==> joined_spin(old(shared)@.condvar, final(shared)@.condvar, flag)
                                && r
                                    ==
                                        Progress::<RecvPhase<SyncTimeoutPhase>, Result<T, RecvTimeoutError>>::Pause(
                                            RecvPhase::Wait(
                                                SyncTimeoutPhase::Spin(
                                                    SpinTimeoutPhase::Spinning(flag),
                                                ),
                                            ),
                                            Pause::Yield,
                                        )
                        )
                )
                && (
                    time::nanos_between(reading, deadline) == 0
                    && old(shared)@.condvar.sync.contains(caller.thread)
                    && old(shared)@.queue.inner is Some
                        ==> r
                            ==
                                Progress::<RecvPhase<SyncTimeoutPhase>, Result<T, RecvTimeoutError>>::Done(
                                    Err(RecvTimeoutError::Timeout),
                                )
                        && left_sync(old(shared)@.condvar, final(shared)@.condvar, caller.thread)
                        && handed_back(
                            old(shared)@.queue,
                            final(shared)@.queue,
                            old(shared)@.queue.inner->0,
                            old(wakes)@,
                            final(wakes)@,
                        )
                ),
        phase matches RecvPhase::Wait(SyncTimeoutPhase::Block(BlockTimeoutPhase::Parked))
            ==> old(shared)@.condvar.sync.contains(caller.thread)
                ==> final(shared)@ == old(shared)@
                && final(wakes)@ == old(wakes)@
                && r
                    == Progress::<RecvPhase<SyncTimeoutPhase>, Result<T, RecvTimeoutError>>::Pause(
                        RecvPhase::Wait(SyncTimeoutPhase::Block(BlockTimeoutPhase::Tick)),
                        Pause::Yield,
                    ),
        phase matches RecvPhase::Wait(SyncTimeoutPhase::Block(BlockTimeoutPhase::Parked))
            ==>
                !old(shared)@.condvar.sync.contains(caller.thread)
                && old(shared)@.queue.inner is None
                    ==> final(shared)@.condvar == old(shared)@.condvar
                    && final(wakes)@ == old(wakes)@
                    && (
                        r matches Progress::Pause(RecvPhase::Wait(again), pause)
                        && again == SyncTimeoutPhase::Block(BlockTimeoutPhase::Relock(false))
                        && missed(old(shared)@.queue, final(shared)@.queue, caller, pause)
                    ),
        phase matches RecvPhase::Wait(SyncTimeoutPhase::Block(BlockTimeoutPhase::Parked))
            ==> !old(shared)@.condvar.sync.contains(caller.thread)
            && old(shared)@.queue.inner is Some
            && (old(shared)@.queue.inner->0).len() > 0
                ==> r
                    == Progress::<RecvPhase<SyncTimeoutPhase>, Result<T, RecvTimeoutError>>::Done(
                        Ok((old(shared)@.queue.inner->0)[0]),
                    )
                && handed_back(
                    old(shared)@.queue,
                    final(shared)@.queue,
                    (old(shared)@.queue.inner->0).drop_first(),
                    old(wakes)@,
                    final(wakes)@,
                )
                && final(shared)@.condvar == old(shared)@.condvar,
        phase matches RecvPhase::Wait(SyncTimeoutPhase::Block(BlockTimeoutPhase::Parked))
            ==> !old(shared)@.condvar.sync.contains(caller.thread)
            && old(shared)@.queue.inner is Some
            && (old(shared)@.queue.inner->0).len() == 0
            && old(shared)@.senders == 0
                ==> r
                    == Progress::<RecvPhase<SyncTimeoutPhase>, Result<T, RecvTimeoutError>>::Done(
                        Err(RecvTimeoutError::Disconnected),
                    )
                && handed_back(
                    old(shared)@.queue,
                    final(shared)@.queue,
                    old(shared)@.queue.inner->0,
                    old(wakes)@,
                    final(wakes)@,
                )
                && final(shared)@.condvar == old(shared)@.condvar,
        phase matches RecvPhase::Wait(SyncTimeoutPhase::Block(BlockTimeoutPhase::Parked))
            ==> !old(shared)@.condvar.sync.contains(caller.thread)
            && old(shared)@.queue.inner is Some
            && (old(shared)@.queue.inner->0).len() == 0
            && old(shared)@.senders > 0
                ==> handed_back(
                    old(shared)@.queue,
                    final(shared)@.queue,
                    old(shared)@.queue.inner->0,
                    old(wakes)@,
                    final(wakes)@,
                )
                && (
                    caller.can_block
                        ==> joined_sync(old(shared)@.condvar, final(shared)@.condvar, caller.thread)
                        && r
                            ==
                                Progress::<RecvPhase<SyncTimeoutPhase>, Result<T, RecvTimeoutError>>::Pause(
                                    RecvPhase::Wait(
                                        SyncTimeoutPhase::Block(BlockTimeoutPhase::Tick),
                                    ),
                                    Pause::Yield,
                                )
                )
                && (
                    !caller.can_block
                        ==> joined_spin(old(shared)@.condvar, final(shared)@.condvar, flag)
                        && r
                            ==
                                Progress::<RecvPhase<SyncTimeoutPhase>, Result<T, RecvTimeoutError>>::Pause(
                                    RecvPhase::Wait(
                                        SyncTimeoutPhase::Spin(SpinTimeoutPhase::Spinning(flag)),
                                    ),
                                    Pause::Yield,
                                )
                ),
        phase matches RecvPhase::Wait(SyncTimeoutPhase::Block(BlockTimeoutPhase::Relock(late)))
            ==> old(shared)@.queue.inner is None
                ==> final(shared)@.condvar == old(shared)@.condvar
                && final(wakes)@ == old(wakes)@
                && (
                    r matches Progress::Pause(RecvPhase::Wait(again), pause)
                    && again == SyncTimeoutPhase::Block(BlockTimeoutPhase::Relock(late))
                    && missed(old(shared)@.queue, final(shared)@.queue, caller, pause)
                ),
        phase matches RecvPhase::Wait(SyncTimeoutPhase::Block(BlockTimeoutPhase::Relock(late)))
            ==>
                !(late)
                && old(shared)@.queue.inner is Some
                && (old(shared)@.queue.inner->0).len() > 0
                    ==> r
                        ==
                            Progress::<RecvPhase<SyncTimeoutPhase>, Result<T, RecvTimeoutError>>::Done(
                                Ok((old(shared)@.queue.inner->0)[0]),
                            )
                    && handed_back(
                        old(shared)@.queue,
                        final(shared)@.queue,
                        (old(shared)@.queue.inner->0).drop_first(),
                        old(wakes)@,
                        final(wakes)@,
                    )
                    && final(shared)@.condvar == old(shared)@.condvar,
        phase matches RecvPhase::Wait(SyncTimeoutPhase::Block(BlockTimeoutPhase::Relock(late)))
            ==> !(late)
            && old(shared)@.queue.inner is Some
            && (old(shared)@.queue.inner->0).len() == 0
            && old(shared)@.senders == 0
                ==> r
                    == Progress::<RecvPhase<SyncTimeoutPhase>, Result<T, RecvTimeoutError>>::Done(
                        Err(RecvTimeoutError::Disconnected),
                    )
                && handed_back(
                    old(shared)@.queue,
                    final(shared)@.queue,
                    old(shared)@.queue.inner->0,
                    old(wakes)@,
                    final(wakes)@,
                )
                && final(shared)@.condvar == old(shared)@.condvar,
        phase matches RecvPhase::Wait(SyncTimeoutPhase::Block(BlockTimeoutPhase::Relock(late)))
            ==> !(late)
            && old(shared)@.queue.inner is Some
            && (old(shared)@.queue.inner->0).len() == 0
            && old(shared)@.senders > 0
                ==> handed_back(
                    old(shared)@.queue,
                    final(shared)@.queue,
                    old(shared)@.queue.inner->0,
                    old(wakes)@,
                    final(wakes)@,
                )
                && (
                    caller.can_block
                        ==> joined_sync(old(shared)@.condvar, final(shared)@.condvar, caller.thread)
                        && r
                            ==
                                Progress::<RecvPhase<SyncTimeoutPhase>, Result<T, RecvTimeoutError>>::Pause(
                                    RecvPhase::Wait(
                                        SyncTimeoutPhase::Block(BlockTimeoutPhase::Tick),
                                    ),
                                    Pause::Yield,
                                )
                )
                && (
                    !caller.can_block
                        ==> joined_spin(old(shared)@.condvar, final(shared)@.condvar, flag)
                        && r
                            ==
                                Progress::<RecvPhase<SyncTimeoutPhase>, Result<T, RecvTimeoutError>>::Pause(
                                    RecvPhase::Wait(
                                        SyncTimeoutPhase::Spin(SpinTimeoutPhase::Spinning(flag)),
                                    ),
                                    Pause::Yield,
                                )
                ),
        phase matches RecvPhase::Wait(SyncTimeoutPhase::Block(BlockTimeoutPhase::Relock(late)))
            ==> late && old(shared)@.queue.inner is Some
                ==> r
                    == Progress::<RecvPhase<SyncTimeoutPhase>, Result<T, RecvTimeoutError>>::Done(
                        Err(RecvTimeoutError::Timeout),
                    )
                && final(shared)@.condvar == old(shared)@.condvar
                && handed_back(
                    old(shared)@.queue,
                    final(shared)@.queue,
                    old(shared)@.queue.inner->0,
                    old(wakes)@,
                    final(wakes)@,
                ),
        phase matches RecvPhase::Wait(
            SyncTimeoutPhase::Spin(SpinTimeoutPhase::Spinning(looked_on)),
        )
            ==> raised && old(shared)@.queue.inner is None
                ==> final(shared)@.condvar == old(shared)@.condvar
                && final(wakes)@ == old(wakes)@
                && (
                    r matches Progress::Pause(RecvPhase::Wait(again), pause)
                    && again == SyncTimeoutPhase::Spin(SpinTimeoutPhase::Relock(false))
                    && missed(old(shared)@.queue, final(shared)@.queue, caller, pause)
                ),
        phase matches RecvPhase::Wait(
            SyncTimeoutPhase::Spin(SpinTimeoutPhase::Spinning(looked_on)),
        )
            ==>
                raised
                && old(shared)@.queue.inner is Some
                && (old(shared)@.queue.inner->0).len() > 0
                    ==> r
                        ==
                            Progress::<RecvPhase<SyncTimeoutPhase>, Result<T, RecvTimeoutError>>::Done(
                                Ok((old(shared)@.queue.inner->0)[0]),
                            )
                    && handed_back(
                        old(shared)@.queue,
                        final(shared)@.queue,
                        (old(shared)@.queue.inner->0).drop_first(),
                        old(wakes)@,
                        final(wakes)@,
                    )
                    && final(shared)@.condvar == old(shared)@.condvar,
        phase matches RecvPhase::Wait(
            SyncTimeoutPhase::Spin(SpinTimeoutPhase::Spinning(looked_on)),
        )
            ==> raised
            && old(shared)@.queue.inner is Some
            && (old(shared)@.queue.inner->0).len() == 0
            && old(shared)@.senders == 0
                ==> r
                    == Progress::<RecvPhase<SyncTimeoutPhase>, Result<T, RecvTimeoutError>>::Done(
                        Err(RecvTimeoutError::Disconnected),
                    )
                && handed_back(
                    old(shared)@.queue,
                    final(shared)@.queue,
                    old(shared)@.queue.inner->0,
                    old(wakes)@,
                    final(wakes)@,
                )
                && final(shared)@.condvar == old(shared)@.condvar,
        phase matches RecvPhase::Wait(
            SyncTimeoutPhase::Spin(SpinTimeoutPhase::Spinning(looked_on)),
        )
            ==> raised
            && old(shared)@.queue.inner is Some
            && (old(shared)@.queue.inner->0).len() == 0
            && old(shared)@.senders > 0
                ==> handed_back(
                    old(shared)@.queue,
                    final(shared)@.queue,
                    old(shared)@.queue.inner->0,
                    old(wakes)@,
                    final(wakes)@,
                )
                && (
                    caller.can_block
                        ==> joined_sync(old(shared)@.condvar, final(shared)@.condvar, caller.thread)
                        && r
                            ==
                                Progress::<RecvPhase<SyncTimeoutPhase>, Result<T, RecvTimeoutError>>::Pause(
                                    RecvPhase::Wait(
                                        SyncTimeoutPhase::Block(BlockTimeoutPhase::Tick),
                                    ),
                                    Pause::Yield,
                                )
                )
                && (
                    !caller.can_block
                        ==> joined_spin(old(shared)@.condvar, final(shared)@.condvar, flag)
                        && r
                            ==
                                Progress::<RecvPhase<SyncTimeoutPhase>, Result<T, RecvTimeoutError>>::Pause(
                                    RecvPhase::Wait(
                                        SyncTimeoutPhase::Spin(SpinTimeoutPhase::Spinning(flag)),
                                    ),
                                    Pause::Yield,
                                )
                ),
        phase matches RecvPhase::Wait(
            SyncTimeoutPhase::Spin(SpinTimeoutPhase::Spinning(looked_on)),
        )
            ==> !raised
                ==> exists|reading: web_time::Instant|
                    #![trigger time::nanos_between(reading, deadline)]
                    time::read_from_clock(reading)
                    && (
                        time::nanos_between(reading, deadline) > 0
                            ==> final(shared)@ == old(shared)@
                            && final(wakes)@ == old(wakes)@
                            && r
                                ==
                                    Progress::<RecvPhase<SyncTimeoutPhase>, Result<T, RecvTimeoutError>>::Pause(
                                        RecvPhase::Wait(
                                            SyncTimeoutPhase::Spin(
                                                SpinTimeoutPhase::Spinning(looked_on),
                                            ),
                                        ),
                                        Pause::SpinLoop,
                                    )
                    )
                    && (
                        time::nanos_between(reading, deadline) == 0
                        && old(shared)@.condvar.spin.contains(looked_on)
                        && old(shared)@.queue.inner is None
                            ==> left_spin(old(shared)@.condvar, final(shared)@.condvar, looked_on)
                            && final(wakes)@ == old(wakes)@
                            && (
                                r matches Progress::Pause(RecvPhase::Wait(again), pause)
                                && again == SyncTimeoutPhase::Spin(SpinTimeoutPhase::Relock(true))
                                && missed(old(shared)@.queue, final(shared)@.queue, caller, pause)
                            )
                    )
                    && (
                        time::nanos_between(reading, deadline) == 0
                        && old(shared)@.condvar.spin.contains(looked_on)
                        && old(shared)@.queue.inner is Some
                            ==> r
                                ==
                                    Progress::<RecvPhase<SyncTimeoutPhase>, Result<T, RecvTimeoutError>>::Done(
                                        Err(RecvTimeoutError::Timeout),
                                    )
                            && left_spin(old(shared)@.condvar, final(shared)@.condvar, looked_on)
                            && handed_back(
                                old(shared)@.queue,
                                final(shared)@.queue,
                                old(shared)@.queue.inner->0,
                                old(wakes)@,
                                final(wakes)@,
                            )
                    )
                    && (
                        time::nanos_between(reading, deadline) == 0
                        && !old(shared)@.condvar.spin.contains(looked_on)
                            ==> final(shared)@ == old(shared)@
                            && final(wakes)@ == old(wakes)@
                            && r
                                ==
                                    Progress::<RecvPhase<SyncTimeoutPhase>, Result<T, RecvTimeoutError>>::Pause(
                                        RecvPhase::Wait(
                                            SyncTimeoutPhase::Spin(
                                                SpinTimeoutPhase::Handoff(looked_on),
                                            ),
                                        ),
                                        Pause::Yield,
                                    )
                    ),
        phase matches RecvPhase::Wait(SyncTimeoutPhase::Spin(SpinTimeoutPhase::Handoff(looked_on)))
            ==> !raised
                ==> final(shared)@ == old(shared)@
                && final(wakes)@ == old(wakes)@
                && r
                    == Progress::<RecvPhase<SyncTimeoutPhase>, Result<T, RecvTimeoutError>>::Pause(
                        RecvPhase::Wait(
                            SyncTimeoutPhase::Spin(SpinTimeoutPhase::Handoff(looked_on)),
                        ),
                        Pause::SpinLoop,
                    ),
        phase matches RecvPhase::Wait(SyncTimeoutPhase::Spin(SpinTimeoutPhase::Handoff(looked_on)))
            ==> raised && old(shared)@.queue.inner is None
                ==> final(shared)@.condvar == old(shared)@.condvar
                && final(wakes)@ == old(wakes)@
                && (
                    r matches Progress::Pause(RecvPhase::Wait(again), pause)
                    && again == SyncTimeoutPhase::Spin(SpinTimeoutPhase::Relock(false))
                    && missed(old(shared)@.queue, final(shared)@.queue, caller, pause)
                ),
        phase matches RecvPhase::Wait(SyncTimeoutPhase::Spin(SpinTimeoutPhase::Handoff(looked_on)))
            ==>
                raised
                && old(shared)@.queue.inner is Some
                && (old(shared)@.queue.inner->0).len() > 0
                    ==> r
                        ==
                            Progress::<RecvPhase<SyncTimeoutPhase>, Result<T, RecvTimeoutError>>::Done(
                                Ok((old(shared)@.queue.inner->0)[0]),
                            )
                    && handed_back(
                        old(shared)@.queue,
                        final(shared)@.queue,
                        (old(shared)@.queue.inner->0).drop_first(),
                        old(wakes)@,
                        final(wakes)@,
                    )
                    && final(shared)@.condvar == old(shared)@.condvar,
        phase matches RecvPhase::Wait(SyncTimeoutPhase::Spin(SpinTimeoutPhase::Handoff(looked_on)))
            ==> raised
            && old(shared)@.queue.inner is Some
            && (old(shared)@.queue.inner->0).len() == 0
            && old(shared)@.senders == 0
                ==> r
                    == Progress::<RecvPhase<SyncTimeoutPhase>, Result<T, RecvTimeoutError>>::Done(
                        Err(RecvTimeoutError::Disconnected),
                    )
                && handed_back(
                    old(shared)@.queue,
                    final(shared)@.queue,
                    old(shared)@.queue.inner->0,
                    old(wakes)@,
                    final(wakes)@,
                )
                && final(shared)@.condvar == old(shared)@.condvar,
        phase matches RecvPhase::Wait(SyncTimeoutPhase::Spin(SpinTimeoutPhase::Handoff(looked_on)))
            ==> raised
            && old(shared)@.queue.inner is Some
            && (old(shared)@.queue.inner->0).len() == 0
            && old(shared)@.senders > 0
                ==> handed_back(
                    old(shared)@.queue,
                    final(shared)@.queue,
                    old(shared)@.queue.inner->0,
                    old(wakes)@,
                    final(wakes)@,
                )
                && (
                    caller.can_block
                        ==> joined_sync(old(shared)@.condvar, final(shared)@.condvar, caller.thread)
                        && r
                            ==
                                Progress::<RecvPhase<SyncTimeoutPhase>, Result<T, RecvTimeoutError>>::Pause(
                                    RecvPhase::Wait(
                                        SyncTimeoutPhase::Block(BlockTimeoutPhase::Tick),
                                    ),
                                    Pause::Yield,
                                )
                )
                && (
                    !caller.can_block
                        ==> joined_spin(old(shared)@.condvar, final(shared)@.condvar, flag)
                        && r
                            ==
                                Progress::<RecvPhase<SyncTimeoutPhase>, Result<T, RecvTimeoutError>>::Pause(
                                    RecvPhase::Wait(
                                        SyncTimeoutPhase::Spin(SpinTimeoutPhase::Spinning(flag)),
                                    ),
                                    Pause::Yield,
                                )
                ),
        phase matches RecvPhase::Wait(SyncTimeoutPhase::Spin(SpinTimeoutPhase::Relock(late)))
            ==> old(shared)@.queue.inner is None
                ==> final(shared)@.condvar == old(shared)@.condvar
                && final(wakes)@ == old(wakes)@
                && (
                    r matches Progress::Pause(RecvPhase::Wait(again), pause)
                    && again == SyncTimeoutPhase::Spin(SpinTimeoutPhase::Relock(late))
                    && missed(old(shared)@.queue, final(shared)@.queue, caller, pause)
                ),
        phase matches RecvPhase::Wait(SyncTimeoutPhase::Spin(SpinTimeoutPhase::Relock(late)))
            ==>
                !(late)
                && old(shared)@.queue.inner is Some
                && (old(shared)@.queue.inner->0).len() > 0
                    ==> r
                        ==
                            Progress::<RecvPhase<SyncTimeoutPhase>, Result<T, RecvTimeoutError>>::Done(
                                Ok((old(shared)@.queue.inner->0)[0]),
                            )
                    && handed_back(
                        old(shared)@.queue,
                        final(shared)@.queue,
                        (old(shared)@.queue.inner->0).drop_first(),
                        old(wakes)@,
                        final(wakes)@,
                    )
                    && final(shared)@.condvar == old(shared)@.condvar,
        phase matches RecvPhase::Wait(SyncTimeoutPhase::Spin(SpinTimeoutPhase::Relock(late)))
            ==> !(late)
            && old(shared)@.queue.inner is Some
            && (old(shared)@.queue.inner->0).len() == 0
            && old(shared)@.senders == 0
                ==> r
                    == Progress::<RecvPhase<SyncTimeoutPhase>, Result<T, RecvTimeoutError>>::Done(
                        Err(RecvTimeoutError::Disconnected),
                    )
                && handed_back(
                    old(shared)@.queue,
                    final(shared)@.queue,
                    old(shared)@.queue.inner->0,
                    old(wakes)@,
                    final(wakes)@,
                )
                && final(shared)@.condvar == old(shared)@.condvar,
        phase matches RecvPhase::Wait(SyncTimeoutPhase::Spin(SpinTimeoutPhase::Relock(late)))
            ==> !(late)
            && old(shared)@.queue.inner is Some
            && (old(shared)@.queue.inner->0).len() == 0
            && old(shared)@.senders > 0
                ==> handed_back(
                    old(shared)@.queue,
                    final(shared)@.queue,
                    old(shared)@.queue.inner->0,
                    old(wakes)@,
                    final(wakes)@,
                )
                && (
                    caller.can_block
                        ==> joined_sync(old(shared)@.condvar, final(shared)@.condvar, caller.thread)
                        && r
                            ==
                                Progress::<RecvPhase<SyncTimeoutPhase>, Result<T, RecvTimeoutError>>::Pause(
                                    RecvPhase::Wait(
                                        SyncTimeoutPhase::Block(BlockTimeoutPhase::Tick),
                                    ),
                                    Pause::Yield,
                                )
                )
                && (
                    !caller.can_block
                        ==> joined_spin(old(shared)@.condvar, final(shared)@.condvar, flag)
                        && r
                            ==
                                Progress::<RecvPhase<SyncTimeoutPhase>, Result<T, RecvTimeoutError>>::Pause(
                                    RecvPhase::Wait(
                                        SyncTimeoutPhase::Spin(SpinTimeoutPhase::Spinning(flag)),
                                    ),
                                    Pause::Yield,
                                )
                ),
        phase matches RecvPhase::Wait(SyncTimeoutPhase::Spin(SpinTimeoutPhase::Relock(late)))
            ==> late && old(shared)@.queue.inner is Some
                ==> r
                    == Progress::<RecvPhase<SyncTimeoutPhase>, Result<T, RecvTimeoutError>>::Done(
                        Err(RecvTimeoutError::Timeout),
                    )
                && final(shared)@.condvar == old(shared)@.condvar
                && handed_back(
                    old(shared)@.queue,
                    final(shared)@.queue,
                    old(shared)@.queue.inner->0,
                    old(wakes)@,
                    final(wakes)@,
                ),
        final(shared)@.senders == old(shared)@.senders
        && final(shared)@.active == old(shared)@.active,
{
    lemma_freed(old(shared)@.queue);
    lemma_left(old(shared)@.condvar.sync, caller.thread);
    if let RecvPhase::Wait(SyncTimeoutPhase::Spin(SpinTimeoutPhase::Spinning(looked_on))) = phase {
        lemma_left(old(shared)@.condvar.spin, looked_on);
    }
}

/// What each step of `recv_async_timeout_at` comes to. A receiver that has the queue in hand takes
/// the earliest value; it says that an empty queue is disconnected exactly if there are no senders,
/// and else waits. It says that the time is over only when its race is lost, or when it meets a
/// locked queue at its deadline. A notified receiver goes on to take the queue again.
pub proof fn law_recv_async_timeout_at_answers<T>(
    receiver: &Receiver<T>,
    shared: &mut Shared<T>,
    phase: RecvPhase<AsyncTimeoutPhase>,
    ids: &mut WaiterIds,
    race_lost: bool,
    continuation: u64,
    now: Moment,
    deadline: Moment,
    wakes: &mut Vec<Wake>,
    r: Progress<RecvPhase<AsyncTimeoutPhase>, Result<T, RecvTimeoutError>>,
)
    requires
        call_ensures(
            Receiver::<T>::recv_async_timeout_at,
            (receiver, shared, phase, ids, race_lost, continuation, now, deadline, wakes),
            r,
        ),
        old(shared)@.queue.inner is Some
            ==> old(shared)@.queue.sync.len() == 0 && old(shared)@.queue.asynch.len() == 0,
    ensures
        phase matches RecvPhase::Lock
            ==> race_lost
                ==> final(shared)@ == old(shared)@
                && final(wakes)@ == old(wakes)@
                && final(ids).spec_next() == old(ids).spec_next()
                && r
                    == Progress::<RecvPhase<AsyncTimeoutPhase>, Result<T, RecvTimeoutError>>::Done(
                        Err(RecvTimeoutError::Timeout),
                    ),
        phase matches RecvPhase::Lock
            ==> !race_lost
            && old(shared)@.queue.inner is Some
            && (old(shared)@.queue.inner->0).len() > 0
                ==> r
                    == Progress::<RecvPhase<AsyncTimeoutPhase>, Result<T, RecvTimeoutError>>::Done(
                        Ok((old(shared)@.queue.inner->0)[0]),
                    )
                && handed_back(
                    old(shared)@.queue,
                    final(shared)@.queue,
                    (old(shared)@.queue.inner->0).drop_first(),
                    old(wakes)@,
                    final(wakes)@,
                )
                && final(shared)@.condvar == old(shared)@.condvar
                && final(ids).spec_next() == old(ids).spec_next(),
        phase matches RecvPhase::Lock
            ==> !race_lost
            && old(shared)@.queue.inner is Some
            && (old(shared)@.queue.inner->0).len() == 0
            && old(shared)@.senders == 0
                ==> r
                    == Progress::<RecvPhase<AsyncTimeoutPhase>, Result<T, RecvTimeoutError>>::Done(
                        Err(RecvTimeoutError::Disconnected),
                    )
                && handed_back(
                    old(shared)@.queue,
                    final(shared)@.queue,
                    old(shared)@.queue.inner->0,
                    old(wakes)@,
                    final(wakes)@,
                )
                && final(shared)@.condvar == old(shared)@.condvar
                && final(ids).spec_next() == old(ids).spec_next(),
        phase matches RecvPhase::Lock
            ==> !race_lost
            && old(shared)@.queue.inner is Some
            && (old(shared)@.queue.inner->0).len() == 0
            && old(shared)@.senders > 0
                ==> handed_back(
                    old(shared)@.queue,
                    final(shared)@.queue,
                    old(shared)@.queue.inner->0,
                    old(wakes)@,
                    final(wakes)@,
                )
                && joined_async(
                    old(shared)@.condvar,
                    final(shared)@.condvar,
                    old(ids).spec_next(),
                    continuation,
                )
                && r
                    == Progress::<RecvPhase<AsyncTimeoutPhase>, Result<T, RecvTimeoutError>>::Pause(
                        RecvPhase::Wait(AsyncTimeoutPhase::Racing(old(ids).spec_next())),
                        Pause::Race(continuation),
                    )
                && (
                    old(ids).spec_next() < u64::MAX
                        ==> final(ids).spec_next() == old(ids).spec_next() + 1
                ),
        phase matches RecvPhase::Lock
            ==> !race_lost && old(shared)@.queue.inner is None && now.nanos >= deadline.nanos
                ==> final(shared)@ == old(shared)@
                && final(wakes)@ == old(wakes)@
                && final(ids).spec_next() == old(ids).spec_next()
                && r
                    == Progress::<RecvPhase<AsyncTimeoutPhase>, Result<T, RecvTimeoutError>>::Done(
                        Err(RecvTimeoutError::Timeout),
                    ),
        phase matches RecvPhase::Lock
            ==> !race_lost && old(shared)@.queue.inner is None && now.nanos < deadline.nanos
                ==> listed_async(old(shared)@.queue, final(shared)@.queue, continuation)
                && final(shared)@.condvar == old(shared)@.condvar
                && final(wakes)@ == old(wakes)@
                && r
                    == Progress::<RecvPhase<AsyncTimeoutPhase>, Result<T, RecvTimeoutError>>::Pause(
                        RecvPhase::Lock,
                        Pause::Race(continuation),
                    )
                && final(ids).spec_next() == old(ids).spec_next(),
        phase matches RecvPhase::Wait(AsyncTimeoutPhase::Racing(number))
            ==> race_lost && old(shared)@.queue.inner is None
                ==> left_async(
                    old(shared)@.condvar,
                    final(shared)@.condvar,
                    number,
                    old(wakes)@,
                    final(wakes)@,
                )
                && listed_async(old(shared)@.queue, final(shared)@.queue, continuation)
                && r
                    == Progress::<RecvPhase<AsyncTimeoutPhase>, Result<T, RecvTimeoutError>>::Pause(
                        RecvPhase::Wait(AsyncTimeoutPhase::Relock(true)),
                        Pause::Await(continuation),
                    )
                && final(ids).spec_next() == old(ids).spec_next(),
        phase matches RecvPhase::Wait(AsyncTimeoutPhase::Racing(number))
            ==> race_lost && old(shared)@.queue.inner is Some
                ==> r
                    == Progress::<RecvPhase<AsyncTimeoutPhase>, Result<T, RecvTimeoutError>>::Done(
                        Err(RecvTimeoutError::Timeout),
                    )
                && left_async(
                    old(shared)@.condvar,
                    final(shared)@.condvar,
                    number,
                    old(wakes)@,
                    final(wakes)@,
                )
                && final(shared)@.queue.inner == old(shared)@.queue.inner
                && final(shared)@.queue.id == old(shared)@.queue.id
                && final(ids).spec_next() == old(ids).spec_next(),
        phase matches RecvPhase::Wait(AsyncTimeoutPhase::Racing(number))
            ==> !race_lost && old(shared)@.queue.inner is None
                ==> final(shared)@.condvar == old(shared)@.condvar
                && final(wakes)@ == old(wakes)@
                && listed_async(old(shared)@.queue, final(shared)@.queue, continuation)
                && r
                    == Progress::<RecvPhase<AsyncTimeoutPhase>, Result<T, RecvTimeoutError>>::Pause(
                        RecvPhase::Wait(AsyncTimeoutPhase::Relock(false)),
                        Pause::Await(continuation),
                    )
                && final(ids).spec_next() == old(ids).spec_next(),
        phase matches RecvPhase::Wait(AsyncTimeoutPhase::Racing(number))
            ==> !race_lost
            && old(shared)@.queue.inner is Some
            && (old(shared)@.queue.inner->0).len() > 0
                ==> r
                    == Progress::<RecvPhase<AsyncTimeoutPhase>, Result<T, RecvTimeoutError>>::Done(
                        Ok((old(shared)@.queue.inner->0)[0]),
                    )
                && handed_back(
                    old(shared)@.queue,
                    final(shared)@.queue,
                    (old(shared)@.queue.inner->0).drop_first(),
                    old(wakes)@,
                    final(wakes)@,
                )
                && final(shared)@.condvar == old(shared)@.condvar
                && final(ids).spec_next() == old(ids).spec_next(),
        phase matches RecvPhase::Wait(AsyncTimeoutPhase::Racing(number))
            ==> !race_lost
            && old(shared)@.queue.inner is Some
            && (old(shared)@.queue.inner->0).len() == 0
            && old(shared)@.senders == 0
                ==> r
                    == Progress::<RecvPhase<AsyncTimeoutPhase>, Result<T, RecvTimeoutError>>::Done(
                        Err(RecvTimeoutError::Disconnected),
                    )
                && handed_back(
                    old(shared)@.queue,
                    final(shared)@.queue,
                    old(shared)@.queue.inner->0,
                    old(wakes)@,
                    final(wakes)@,
                )
                && final(shared)@.condvar == old(shared)@.condvar
                && final(ids).spec_next() == old(ids).spec_next(),
        phase matches RecvPhase::Wait(AsyncTimeoutPhase::Racing(number))
            ==> !race_lost
            && old(shared)@.queue.inner is Some
            && (old(shared)@.queue.inner->0).len() == 0
            && old(shared)@.senders > 0
                ==> handed_back(
                    old(shared)@.queue,
                    final(shared)@.queue,
                    old(shared)@.queue.inner->0,
                    old(wakes)@,
                    final(wakes)@,
                )
                && joined_async(
                    old(shared)@.condvar,
                    final(shared)@.condvar,
                    old(ids).spec_next(),
                    continuation,
                )
                && r
                    == Progress::<RecvPhase<AsyncTimeoutPhase>, Result<T, RecvTimeoutError>>::Pause(
                        RecvPhase::Wait(AsyncTimeoutPhase::Racing(old(ids).spec_next())),
                        Pause::Race(continuation),
                    )
                && (
                    old(ids).spec_next() < u64::MAX
                        ==> final(ids).spec_next() == old(ids).spec_next() + 1
                ),
        phase matches RecvPhase::Wait(AsyncTimeoutPhase::Relock(late))
            ==> old(shared)@.queue.inner is None
                ==> final(shared)@.condvar == old(shared)@.condvar
                && final(wakes)@ == old(wakes)@
                && listed_async(old(shared)@.queue, final(shared)@.queue, continuation)
                && r
                    == Progress::<RecvPhase<AsyncTimeoutPhase>, Result<T, RecvTimeoutError>>::Pause(
                        RecvPhase::Wait(AsyncTimeoutPhase::Relock(late)),
                        Pause::Await(continuation),
                    )
                && final(ids).spec_next() == old(ids).spec_next(),
        phase matches RecvPhase::Wait(AsyncTimeoutPhase::Relock(late))
            ==>
                !(late)
                && old(shared)@.queue.inner is Some
                && (old(shared)@.queue.inner->0).len() > 0
                    ==> r
                        ==
                            Progress::<RecvPhase<AsyncTimeoutPhase>, Result<T, RecvTimeoutError>>::Done(
                                Ok((old(shared)@.queue.inner->0)[0]),
                            )
                    && handed_back(
                        old(shared)@.queue,
                        final(shared)@.queue,
                        (old(shared)@.queue.inner->0).drop_first(),
                        old(wakes)@,
                        final(wakes)@,
                    )
                    && final(shared)@.condvar == old(shared)@.condvar
                    && final(ids).spec_next() == old(ids).spec_next(),
        phase matches RecvPhase::Wait(AsyncTimeoutPhase::Relock(late))
            ==> !(late)
            && old(shared)@.queue.inner is Some
            && (old(shared)@.queue.inner->0).len() == 0
            && old(shared)@.senders == 0
                ==> r
                    == Progress::<RecvPhase<AsyncTimeoutPhase>, Result<T, RecvTimeoutError>>::Done(
                        Err(RecvTimeoutError::Disconnected),
                    )
                && handed_back(
                    old(shared)@.queue,
                    final(shared)@.queue,
                    old(shared)@.queue.inner->0,
                    old(wakes)@,
                    final(wakes)@,
                )
                && final(shared)@.condvar == old(shared)@.condvar
                && final(ids).spec_next() == old(ids).spec_next(),
        phase matches RecvPhase::Wait(AsyncTimeoutPhase::Relock(late))
            ==> !(late)
            && old(shared)@.queue.inner is Some
            && (old(shared)@.queue.inner->0).len() == 0
            && old(shared)@.senders > 0
                ==> handed_back(
                    old(shared)@.queue,
                    final(shared)@.queue,
                    old(shared)@.queue.inner->0,
                    old(wakes)@,
                    final(wakes)@,
                )
                && joined_async(
                    old(shared)@.condvar,
                    final(shared)@.condvar,
                    old(ids).spec_next(),
                    continuation,
                )
                && r
                    == Progress::<RecvPhase<AsyncTimeoutPhase>, Result<T, RecvTimeoutError>>::Pause(
                        RecvPhase::Wait(AsyncTimeoutPhase::Racing(old(ids).spec_next())),
                        Pause::Race(continuation),
                    )
                && (
                    old(ids).spec_next() < u64::MAX
                        ==> final(ids).spec_next() == old(ids).spec_next() + 1
                ),
        phase matches RecvPhase::Wait(AsyncTimeoutPhase::Relock(late))
            ==> late && old(shared)@.queue.inner is Some
                ==> r
                    == Progress::<RecvPhase<AsyncTimeoutPhase>, Result<T, RecvTimeoutError>>::Done(
                        Err(RecvTimeoutError::Timeout),
                    )
                && final(shared)@.condvar == old(shared)@.condvar
                && handed_back(
                    old(shared)@.queue,
                    final(shared)@.queue,
                    old(shared)@.queue.inner->0,
                    old(wakes)@,
                    final(wakes)@,
                )
                && final(ids).spec_next() == old(ids).spec_next(),
        final(shared)@.senders == old(shared)@.senders
        && final(shared)@.active == old(shared)@.active,
{
    lemma_freed(old(shared)@.queue);
    if let RecvPhase::Wait(AsyncTimeoutPhase::Racing(number)) = phase {
        lemma_left_async(old(shared)@.condvar, number, old(wakes)@);
    }
    assert(old(shared)@.queue.inner is Some ==> old(shared)@.queue.waiters()
        =~= Seq::<Wake>::empty());
}

/// What each step of `recv_async_timeout` comes to. A receiver that has the queue in hand takes the
/// earliest value; it says that an empty queue is disconnected exactly if there are no senders, and
/// else waits. It says that the time is over only when its race is lost, or when it meets a locked
/// queue at its deadline. A notified receiver goes on to take the queue again.
pub proof fn law_recv_async_timeout_answers<T>(
    receiver: &Receiver<T>,
    shared: &mut Shared<T>,
    phase: RecvPhase<AsyncTimeoutPhase>,
    ids: &mut WaiterIds,
    race_lost: bool,
    continuation: u64,
    deadline: web_time::Instant,
    wakes: &mut Vec<Wake>,
    r: Progress<RecvPhase<AsyncTimeoutPhase>, Result<T, RecvTimeoutError>>,
)
    requires
        call_ensures(
            Receiver::<T>::recv_async_timeout,
            (receiver, shared, phase, ids, race_lost, continuation, deadline, wakes),
            r,
        ),
        old(shared)@.queue.inner is Some
            ==> old(shared)@.queue.sync.len() == 0 && old(shared)@.queue.asynch.len() == 0,
    ensures
        phase matches RecvPhase::Lock
            ==> race_lost
                ==> final(shared)@ == old(shared)@
                && final(wakes)@ == old(wakes)@
                && final(ids).spec_next() == old(ids).spec_next()
                && r
                    == Progress::<RecvPhase<AsyncTimeoutPhase>, Result<T, RecvTimeoutError>>::Done(
                        Err(RecvTimeoutError::Timeout),
                    ),
        phase matches RecvPhase::Lock
            ==> !race_lost
            && old(shared)@.queue.inner is Some
            && (old(shared)@.queue.inner->0).len() > 0
                ==> r
                    == Progress::<RecvPhase<AsyncTimeoutPhase>, Result<T, RecvTimeoutError>>::Done(
                        Ok((old(shared)@.queue.inner->0)[0]),
                    )
                && handed_back(
                    old(shared)@.queue,
                    final(shared)@.queue,
                    (old(shared)@.queue.inner->0).drop_first(),
                    old(wakes)@,
                    final(wakes)@,
                )
                && final(shared)@.condvar == old(shared)@.condvar
                && final(ids).spec_next() == old(ids).spec_next(),
        phase matches RecvPhase::Lock
            ==> !race_lost
            && old(shared)@.queue.inner is Some
            && (old(shared)@.queue.inner->0).len() == 0
            && old(shared)@.senders == 0
                ==> r
                    == Progress::<RecvPhase<AsyncTimeoutPhase>, Result<T, RecvTimeoutError>>::Done(
                        Err(RecvTimeoutError::Disconnected),
                    )
                && handed_back(
                    old(shared)@.queue,
                    final(shared)@.queue,
                    old(shared)@.queue.inner->0,
                    old(wakes)@,
                    final(wakes)@,
                )
                && final(shared)@.condvar == old(shared)@.condvar
                && final(ids).spec_next() == old(ids).spec_next(),
        phase matches RecvPhase::Lock
            ==> !race_lost
            && old(shared)@.queue.inner is Some
            && (old(shared)@.queue.inner->0).len() == 0
            && old(shared)@.senders > 0
                ==> handed_back(
                    old(shared)@.queue,
                    final(shared)@.queue,
                    old(shared)@.queue.inner->0,
                    old(wakes)@,
                    final(wakes)@,
                )
                && joined_async(
                    old(shared)@.condvar,
                    final(shared)@.condvar,
                    old(ids).spec_next(),
                    continuation,
                )
                && r
                    == Progress::<RecvPhase<AsyncTimeoutPhase>, Result<T, RecvTimeoutError>>::Pause(
                        RecvPhase::Wait(AsyncTimeoutPhase::Racing(old(ids).spec_next())),
                        Pause::Race(continuation),
                    )
                && (
                    old(ids).spec_next() < u64::MAX
                        ==> final(ids).spec_next() == old(ids).spec_next() + 1
                ),
        phase matches RecvPhase::Lock
            ==> !race_lost && old(shared)@.queue.inner is None
                ==> exists|reading: web_time::Instant|
                    #![trigger time::nanos_between(reading, deadline)]
                    time::read_from_clock(reading)
                    && (
                        time::nanos_between(reading, deadline) == 0
                            ==> final(shared)@ == old(shared)@
                            && final(wakes)@ == old(wakes)@
                            && final(ids).spec_next() == old(ids).spec_next()
                            && r
                                ==
                                    Progress::<RecvPhase<AsyncTimeoutPhase>, Result<T, RecvTimeoutError>>::Done(
                                        Err(RecvTimeoutError::Timeout),
                                    )
                    )
                    && (
                        time::nanos_between(reading, deadline) > 0
                            ==> listed_async(old(shared)@.queue, final(shared)@.queue, continuation)
                            && final(shared)@.condvar == old(shared)@.condvar
                            && final(wakes)@ == old(wakes)@
                            && r
                                ==
                                    Progress::<RecvPhase<AsyncTimeoutPhase>, Result<T, RecvTimeoutError>>::Pause(
                                        RecvPhase::Lock,
                                        Pause::Race(continuation),
                                    )
                            && final(ids).spec_next() == old(ids).spec_next()
                    ),
        phase matches RecvPhase::Wait(AsyncTimeoutPhase::Racing(number))
            ==> race_lost && old(shared)@.queue.inner is None
                ==> left_async(
                    old(shared)@.condvar,
                    final(shared)@.condvar,
                    number,
                    old(wakes)@,
                    final(wakes)@,
                )
                && listed_async(old(shared)@.queue, final(shared)@.queue, continuation)
                && r
                    == Progress::<RecvPhase<AsyncTimeoutPhase>, Result<T, RecvTimeoutError>>::Pause(
                        RecvPhase::Wait(AsyncTimeoutPhase::Relock(true)),
                        Pause::Await(continuation),
                    )
                && final(ids).spec_next() == old(ids).spec_next(),
        phase matches RecvPhase::Wait(AsyncTimeoutPhase::Racing(number))
            ==> race_lost && old(shared)@.queue.inner is Some
                ==> r
                    == Progress::<RecvPhase<AsyncTimeoutPhase>, Result<T, RecvTimeoutError>>::Done(
                        Err(RecvTimeoutError::Timeout),
                    )
                && left_async(
                    old(shared)@.condvar,
                    final(shared)@.condvar,
                    number,
                    old(wakes)@,
                    final(wakes)@,
                )
                && final(shared)@.queue.inner == old(shared)@.queue.inner
                && final(shared)@.queue.id == old(shared)@.queue.id
                && final(ids).spec_next() == old(ids).spec_next(),
        phase matches RecvPhase::Wait(AsyncTimeoutPhase::Racing(number))
            ==> !race_lost && old(shared)@.queue.inner is None
                ==> final(shared)@.condvar == old(shared)@.condvar
                && final(wakes)@ == old(wakes)@
                && listed_async(old(shared)@.queue, final(shared)@.queue, continuation)
                && r
                    == Progress::<RecvPhase<AsyncTimeoutPhase>, Result<T, RecvTimeoutError>>::Pause(
                        RecvPhase::Wait(AsyncTimeoutPhase::Relock(false)),
                        Pause::Await(continuation),
                    )
                && final(ids).spec_next() == old(ids).spec_next(),
        phase matches RecvPhase::Wait(AsyncTimeoutPhase::Racing(number))
            ==> !race_lost
            && old(shared)@.queue.inner is Some
            && (old(shared)@.queue.inner->0).len() > 0
                ==> r
                    == Progress::<RecvPhase<AsyncTimeoutPhase>, Result<T, RecvTimeoutError>>::Done(
                        Ok((old(shared)@.queue.inner->0)[0]),
                    )
                && handed_back(
                    old(shared)@.queue,
                    final(shared)@.queue,
                    (old(shared)@.queue.inner->0).drop_first(),
                    old(wakes)@,
                    final(wakes)@,
                )
                && final(shared)@.condvar == old(shared)@.condvar
                && final(ids).spec_next() == old(ids).spec_next(),
        phase matches RecvPhase::Wait(AsyncTimeoutPhase::Racing(number))
            ==> !race_lost
            && old(shared)@.queue.inner is Some
            && (old(shared)@.queue.inner->0).len() == 0
            && old(shared)@.senders == 0
                ==> r
                    == Progress::<RecvPhase<AsyncTimeoutPhase>, Result<T, RecvTimeoutError>>::Done(
                        Err(RecvTimeoutError::Disconnected),
                    )
                && handed_back(
                    old(shared)@.queue,
                    final(shared)@.queue,
                    old(shared)@.queue.inner->0,
                    old(wakes)@,
                    final(wakes)@,
                )
                && final(shared)@.condvar == old(shared)@.condvar
                && final(ids).spec_next() == old(ids).spec_next(),
        phase matches RecvPhase::Wait(AsyncTimeoutPhase::Racing(number))
            ==> !race_lost
            && old(shared)@.queue.inner is Some
            && (old(shared)@.queue.inner->0).len() == 0
            && old(shared)@.senders > 0
                ==> handed_back(
                    old(shared)@.queue,
                    final(shared)@.queue,
                    old(shared)@.queue.inner->0,
                    old(wakes)@,
                    final(wakes)@,
                )
                && joined_async(
                    old(shared)@.condvar,
                    final(shared)@.condvar,
                    old(ids).spec_next(),
                    continuation,
                )
                && r
                    == Progress::<RecvPhase<AsyncTimeoutPhase>, Result<T, RecvTimeoutError>>::Pause(
                        RecvPhase::Wait(AsyncTimeoutPhase::Racing(old(ids).spec_next())),
                        Pause::Race(continuation),
                    )
                && (
                    old(ids).spec_next() < u64::MAX
                        ==> final(ids).spec_next() == old(ids).spec_next() + 1
                ),
        phase matches RecvPhase::Wait(AsyncTimeoutPhase::Relock(late))
            ==> old(shared)@.queue.inner is None
                ==> final(shared)@.condvar == old(shared)@.condvar
                && final(wakes)@ == old(wakes)@
                && listed_async(old(shared)@.queue, final(shared)@.queue, continuation)
                && r
                    == Progress::<RecvPhase<AsyncTimeoutPhase>, Result<T, RecvTimeoutError>>::Pause(
                        RecvPhase::Wait(AsyncTimeoutPhase::Relock(late)),
                        Pause::Await(continuation),
                    )
                && final(ids).spec_next() == old(ids).spec_next(),
        phase matches RecvPhase::Wait(AsyncTimeoutPhase::Relock(late))
            ==>
                !(late)
                && old(shared)@.queue.inner is Some
                && (old(shared)@.queue.inner->0).len() > 0
                    ==> r
                        ==
                            Progress::<RecvPhase<AsyncTimeoutPhase>, Result<T, RecvTimeoutError>>::Done(
                                Ok((old(shared)@.queue.inner->0)[0]),
                            )
                    && handed_back(
                        old(shared)@.queue,
                        final(shared)@.queue,
                        (old(shared)@.queue.inner->0).drop_first(),
                        old(wakes)@,
                        final(wakes)@,
                    )
                    && final(shared)@.condvar == old(shared)@.condvar
                    && final(ids).spec_next() == old(ids).spec_next(),
        phase matches RecvPhase::Wait(AsyncTimeoutPhase::Relock(late))
            ==> !(late)
            && old(shared)@.queue.inner is Some
            && (old(shared)@.queue.inner->0).len() == 0
            && old(shared)@.senders == 0
                ==> r
                    == Progress::<RecvPhase<AsyncTimeoutPhase>, Result<T, RecvTimeoutError>>::Done(
                        Err(RecvTimeoutError::Disconnected),
                    )
                && handed_back(
                    old(shared)@.queue,
                    final(shared)@.queue,
                    old(shared)@.queue.inner->0,
                    old(wakes)@,
                    final(wakes)@,
                )
                && final(shared)@.condvar == old(shared)@.condvar
                && final(ids).spec_next() == old(ids).spec_next(),
        phase matches RecvPhase::Wait(AsyncTimeoutPhase::Relock(late))
            ==> !(late)
            && old(shared)@.queue.inner is Some
            && (old(shared)@.queue.inner->0).len() == 0
            && old(shared)@.senders > 0
                ==> handed_back(
                    old(shared)@.queue,
                    final(shared)@.queue,
                    old(shared)@.queue.inner->0,
                    old(wakes)@,
                    final(wakes)@,
                )
                && joined_async(
                    old(shared)@.condvar,
                    final(shared)@.condvar,
                    old(ids).spec_next(),
                    continuation,
                )
                && r
                    == Progress::<RecvPhase<AsyncTimeoutPhase>, Result<T, RecvTimeoutError>>::Pause(
                        RecvPhase::Wait(AsyncTimeoutPhase::Racing(old(ids).spec_next())),
                        Pause::Race(continuation),
                    )
                && (
                    old(ids).spec_next() < u64::MAX
                        ==> final(ids).spec_next() == old(ids).spec_next() + 1
                ),
        phase matches RecvPhase::Wait(AsyncTimeoutPhase::Relock(late))
            ==> late && old(shared)@.queue.inner is Some
                ==> r
                    == Progress::<RecvPhase<AsyncTimeoutPhase>, Result<T, RecvTimeoutError>>::Done(
                        Err(RecvTimeoutError::Timeout),
                    )
                && final(shared)@.condvar == old(shared)@.condvar
                && handed_back(
                    old(shared)@.queue,
                    final(shared)@.queue,
                    old(shared)@.queue.inner->0,
                    old(wakes)@,
                    final(wakes)@,
                )
                && final(ids).spec_next() == old(ids).spec_next(),
        final(shared)@.senders == old(shared)@.senders
        && final(shared)@.active == old(shared)@.active,
{
    lemma_freed(old(shared)@.queue);
    if let RecvPhase::Wait(AsyncTimeoutPhase::Racing(number)) = phase {
        lemma_left_async(old(shared)@.condvar, number, old(wakes)@);
    }
    assert(old(shared)@.queue.inner is Some ==> old(shared)@.queue.waiters()
        =~= Seq::<Wake>::empty());
}

/// A receiver that goes on, because it starts, because it has been notified or because it is taking
/// the queue again, and that finds the queue free answers with the earliest value if there is one,
/// and that the channel is disconnected exactly if there is none and no sender. This is
/// `recv_spin`.
pub proof fn law_recv_spin_gets_what_was_sent<T>(
    receiver: &Receiver<T>,
    shared: &mut Shared<T>,
    phase: RecvPhase<SpinPhase>,
    flag: u64,
    raised: bool,
    caller: Caller,
    wakes: &mut Vec<Wake>,
    r: Progress<RecvPhase<SpinPhase>, Result<T, RecvError>>,
)
    requires
        call_ensures(
            Receiver::<T>::recv_spin,
            (receiver, shared, phase, flag, raised, caller, wakes),
            r,
        ),
    ensures
        old(shared)@.queue.inner matches Some(items)
            ==> (
                phase is Lock
                || (phase matches RecvPhase::Wait(SpinPhase::Relock))
                || (phase matches RecvPhase::Wait(SpinPhase::Spinning(_)) && raised)
            )
                ==> items.len() > 0
                    ==> (r matches Progress::Done(Ok(value)) && value == items[0])
                    && final(shared)@.queue.inner == Some(items.drop_first()),
        old(shared)@.queue.inner matches Some(items)
            ==> (
                phase is Lock
                || (phase matches RecvPhase::Wait(SpinPhase::Relock))
                || (phase matches RecvPhase::Wait(SpinPhase::Spinning(_)) && raised)
            )
                ==> items.len() == 0
                    ==> (
                        (r matches Progress::Done(Err(RecvError::Disconnected)))
                        <==> old(shared)@.senders == 0
                    )
                    && (r is Pause <==> old(shared)@.senders > 0),
        r matches Progress::Done(Ok(value))
            ==> (
                old(shared)@.queue.inner matches Some(items)
                && items.len() > 0
                && value == items[0]
                && final(shared)@.queue.inner == Some(items.drop_first())
            ),
        (r matches Progress::Done(Err(RecvError::Disconnected)))
            ==> (old(shared)@.queue.inner matches Some(items) && items.len() == 0)
            && old(shared)@.senders == 0,
        !(r matches Progress::Done(Ok(_)))
            ==> old(shared)@.queue.inner is Some
                ==> final(shared)@.queue.inner == old(shared)@.queue.inner,
{
}

/// A receiver that goes on, because it starts, because it has been notified or because it is taking
/// the queue again, and that finds the queue free answers with the earliest value if there is one,
/// and that the channel is disconnected exactly if there is none and no sender. This is
/// `recv_block`.
pub proof fn law_recv_block_gets_what_was_sent<T>(
    receiver: &Receiver<T>,
    shared: &mut Shared<T>,
    phase: RecvPhase<BlockPhase>,
    caller: Caller,
    wakes: &mut Vec<Wake>,
    r: Progress<RecvPhase<BlockPhase>, Result<T, RecvError>>,
)
    requires
        call_ensures(
            Receiver::<T>::recv_block,
            (receiver, shared, phase, caller, wakes),
            r,
        ),
    ensures
        old(shared)@.queue.inner matches Some(items)
            ==> (phase is Lock || (phase matches RecvPhase::Wait(_)))
                ==> items.len() > 0
                    ==> (r matches Progress::Done(Ok(value)) && value == items[0])
                    && final(shared)@.queue.inner == Some(items.drop_first()),
        old(shared)@.queue.inner matches Some(items)
            ==> (phase is Lock || (phase matches RecvPhase::Wait(_)))
                ==> items.len() == 0
                    ==> (
                        (r matches Progress::Done(Err(RecvError::Disconnected)))
                        <==> old(shared)@.senders == 0
                    )
                    && (r is Pause <==> old(shared)@.senders > 0),
        r matches Progress::Done(Ok(value))
            ==> (
                old(shared)@.queue.inner matches Some(items)
                && items.len() > 0
                && value == items[0]
                && final(shared)@.queue.inner == Some(items.drop_first())
            ),
        (r matches Progress::Done(Err(RecvError::Disconnected)))
            ==> (old(shared)@.queue.inner matches Some(items) && items.len() == 0)
            && old(shared)@.senders == 0,
        !(r matches Progress::Done(Ok(_)))
            ==> old(shared)@.queue.inner is Some
                ==> final(shared)@.queue.inner == old(shared)@.queue.inner,
{
}

/// A receiver that goes on, because it starts, because it has been notified or because it is taking
/// the queue again, and that finds the queue free answers with the earliest value if there is one,
/// and that the channel is disconnected exactly if there is none and no sender. This is
/// `recv_sync`.
pub proof fn law_recv_sync_gets_what_was_sent<T>(
    receiver: &Receiver<T>,
    shared: &mut Shared<T>,
    phase: RecvPhase<SyncPhase>,
    flag: u64,
    raised: bool,
    caller: Caller,
    wakes: &mut Vec<Wake>,
    r: Progress<RecvPhase<SyncPhase>, Result<T, RecvError>>,
)
    requires
        call_ensures(
            Receiver::<T>::recv_sync,
            (receiver, shared, phase, flag, raised, caller, wakes),
            r,
        ),
    ensures
        old(shared)@.queue.inner matches Some(items)
            ==> (
                phase is Lock
                || (phase matches RecvPhase::Wait(SyncPhase::Block(_)))
                || (phase matches RecvPhase::Wait(SyncPhase::Spin(SpinPhase::Relock)))
                ||
                    (
                        phase matches RecvPhase::Wait(SyncPhase::Spin(SpinPhase::Spinning(_)))
                        && raised
                    )
            )
                ==> items.len() > 0
                    ==> (r matches Progress::Done(Ok(value)) && value == items[0])
                    && final(shared)@.queue.inner == Some(items.drop_first()),
        old(shared)@.queue.inner matches Some(items)
            ==> (
                phase is Lock
                || (phase matches RecvPhase::Wait(SyncPhase::Block(_)))
                || (phase matches RecvPhase::Wait(SyncPhase::Spin(SpinPhase::Relock)))
                ||
                    (
                        phase matches RecvPhase::Wait(SyncPhase::Spin(SpinPhase::Spinning(_)))
                        && raised
                    )
            )
                ==> items.len() == 0
                    ==> (
                        (r matches Progress::Done(Err(RecvError::Disconnected)))
                        <==> old(shared)@.senders == 0
                    )
                    && (r is Pause <==> old(shared)@.senders > 0),
        r matches Progress::Done(Ok(value))
            ==> (
                old(shared)@.queue.inner matches Some(items)
                && items.len() > 0
                && value == items[0]
                && final(shared)@.queue.inner == Some(items.drop_first())
            ),
        (r matches Progress::Done(Err(RecvError::Disconnected)))
            ==> (old(shared)@.queue.inner matches Some(items) && items.len() == 0)
            && old(shared)@.senders == 0,
        !(r matches Progress::Done(Ok(_)))
            ==> old(shared)@.queue.inner is Some
                ==> final(shared)@.queue.inner == old(shared)@.queue.inner,
{
}

/// A receiver that goes on, because it starts, because it has been notified or because it is taking
/// the queue again, and that finds the queue free answers with the earliest value if there is one,
/// and that the channel is disconnected exactly if there is none and no sender. This is
/// `recv_async`.
pub proof fn law_recv_async_gets_what_was_sent<T>(
    receiver: &Receiver<T>,
    shared: &mut Shared<T>,
    phase: RecvPhase<AsyncPhase>,
    ids: &mut WaiterIds,
    continuation: u64,
    wakes: &mut Vec<Wake>,
    r: Progress<RecvPhase<AsyncPhase>, Result<T, RecvError>>,
)
    requires
        call_ensures(
            Receiver::<T>::recv_async,
            (receiver, shared, phase, ids, continuation, wakes),
            r,
        ),
    ensures
        old(shared)@.queue.inner matches Some(items)
            ==> (phase is Lock || (phase matches RecvPhase::Wait(_)))
                ==> items.len() > 0
                    ==> (r matches Progress::Done(Ok(value)) && value == items[0])
                    && final(shared)@.queue.inner == Some(items.drop_first()),
        old(shared)@.queue.inner matches Some(items)
            ==> (phase is Lock || (phase matches RecvPhase::Wait(_)))
                ==> items.len() == 0
                    ==> (
                        (r matches Progress::Done(Err(RecvError::Disconnected)))
                        <==> old(shared)@.senders == 0
                    )
                    && (r is Pause <==> old(shared)@.senders > 0),
        r matches Progress::Done(Ok(value))
            ==> (
                old(shared)@.queue.inner matches Some(items)
                && items.len() > 0
                && value == items[0]
                && final(shared)@.queue.inner == Some(items.drop_first())
            ),
        (r matches Progress::Done(Err(RecvError::Disconnected)))
            ==> (old(shared)@.queue.inner matches Some(items) && items.len() == 0)
            && old(shared)@.senders == 0,
        !(r matches Progress::Done(Ok(_)))
            ==> old(shared)@.queue.inner is Some
                ==> final(shared)@.queue.inner == old(shared)@.queue.inner,
{
}

/// A receiver that goes on, because it starts, because it has been notified or because it is taking
/// the queue again, and that finds the queue free answers with the earliest value if there is one,
/// and that the channel is disconnected exactly if there is none and no sender. This is
/// `recv_spin_timeout_at`, which says that its time is over only if it is.
pub proof fn law_recv_spin_timeout_at_gets_what_was_sent<T>(
    receiver: &Receiver<T>,
    shared: &mut Shared<T>,
    phase: RecvPhase<SpinTimeoutPhase>,
    flag: u64,
    raised: bool,
    caller: Caller,
    now: Moment,
    deadline: Moment,
    wakes: &mut Vec<Wake>,
    r: Progress<RecvPhase<SpinTimeoutPhase>, Result<T, RecvTimeoutError>>,
)
    requires
        call_ensures(
            Receiver::<T>::recv_spin_timeout_at,
            (receiver, shared, phase, flag, raised, caller, now, deadline, wakes),
            r,
        ),
    ensures
        old(shared)@.queue.inner matches Some(items)
            ==> (
                phase is Lock
                || (phase matches RecvPhase::Wait(SpinTimeoutPhase::Spinning(_)) && raised)
                || (phase matches RecvPhase::Wait(SpinTimeoutPhase::Handoff(_)) && raised)
                || (phase matches RecvPhase::Wait(SpinTimeoutPhase::Relock(false)))
            )
                ==> items.len() > 0
                    ==> (r matches Progress::Done(Ok(value)) && value == items[0])
                    && final(shared)@.queue.inner == Some(items.drop_first()),
        old(shared)@.queue.inner matches Some(items)
            ==> (
                phase is Lock
                || (phase matches RecvPhase::Wait(SpinTimeoutPhase::Spinning(_)) && raised)
                || (phase matches RecvPhase::Wait(SpinTimeoutPhase::Handoff(_)) && raised)
                || (phase matches RecvPhase::Wait(SpinTimeoutPhase::Relock(false)))
            )
                ==> items.len() == 0
                    ==> (
                        (r matches Progress::Done(Err(RecvTimeoutError::Disconnected)))
                        <==> old(shared)@.senders == 0
                    )
                    && (r is Pause <==> old(shared)@.senders > 0),
        r matches Progress::Done(Ok(value))
            ==> (
                old(shared)@.queue.inner matches Some(items)
                && items.len() > 0
                && value == items[0]
                && final(shared)@.queue.inner == Some(items.drop_first())
            ),
        (r matches Progress::Done(Err(RecvTimeoutError::Disconnected)))
            ==> (old(shared)@.queue.inner matches Some(items) && items.len() == 0)
            && old(shared)@.senders == 0,
        !(r matches Progress::Done(Ok(_)))
            ==> old(shared)@.queue.inner is Some
                ==> final(shared)@.queue.inner == old(shared)@.queue.inner,
        (r matches Progress::Done(Err(RecvTimeoutError::Timeout)))
            ==> (
                phase matches RecvPhase::Wait(SpinTimeoutPhase::Spinning(looked_on))
                && !raised
                && now.nanos >= deadline.nanos
                && old(shared)@.condvar.spin.contains(looked_on)
            )
            || (phase matches RecvPhase::Wait(SpinTimeoutPhase::Relock(true)))
            || (phase is Lock && old(shared)@.queue.inner is None && now.nanos >= deadline.nanos),
{
}

/// A receiver that goes on, because it starts, because it has been notified or because it is taking
/// the queue again, and that finds the queue free answers with the earliest value if there is one,
/// and that the channel is disconnected exactly if there is none and no sender. This is
/// `recv_block_timeout_at`, which says that its time is over only if it is.
pub proof fn law_recv_block_timeout_at_gets_what_was_sent<T>(
    receiver: &Receiver<T>,
    shared: &mut Shared<T>,
    phase: RecvPhase<BlockTimeoutPhase>,
    caller: Caller,
    now: Moment,
    later: Moment,
    deadline: Moment,
    wakes: &mut Vec<Wake>,
    r: Progress<RecvPhase<BlockTimeoutPhase>, Result<T, RecvTimeoutError>>,
)
    requires
        call_ensures(
            Receiver::<T>::recv_block_timeout_at,
            (receiver, shared, phase, caller, now, later, deadline, wakes),
            r,
        ),
    ensures
        old(shared)@.queue.inner matches Some(items)
            ==> (
                phase is Lock
                || (
                    phase matches RecvPhase::Wait(BlockTimeoutPhase::Parked)
                    && !old(shared)@.condvar.sync.contains(caller.thread)
                )
                || (
                    phase matches RecvPhase::Wait(BlockTimeoutPhase::Tick)
                    && now.nanos >= deadline.nanos
                    && !old(shared)@.condvar.sync.contains(caller.thread)
                )
                || (phase matches RecvPhase::Wait(BlockTimeoutPhase::Relock(false)))
            )
                ==> items.len() > 0
                    ==> (r matches Progress::Done(Ok(value)) && value == items[0])
                    && final(shared)@.queue.inner == Some(items.drop_first()),
        old(shared)@.queue.inner matches Some(items)
            ==> (
                phase is Lock
                || (
                    phase matches RecvPhase::Wait(BlockTimeoutPhase::Parked)
                    && !old(shared)@.condvar.sync.contains(caller.thread)
                )
                || (
                    phase matches RecvPhase::Wait(BlockTimeoutPhase::Tick)
                    && now.nanos >= deadline.nanos
                    && !old(shared)@.condvar.sync.contains(caller.thread)
                )
                || (phase matches RecvPhase::Wait(BlockTimeoutPhase::Relock(false)))
            )
                ==> items.len() == 0
                    ==> (
                        (r matches Progress::Done(Err(RecvTimeoutError::Disconnected)))
                        <==> old(shared)@.senders == 0
                    )
                    && (r is Pause <==> old(shared)@.senders > 0),
        r matches Progress::Done(Ok(value))
            ==> (
                old(shared)@.queue.inner matches Some(items)
                && items.len() > 0
                && value == items[0]
                && final(shared)@.queue.inner == Some(items.drop_first())
            ),
        (r matches Progress::Done(Err(RecvTimeoutError::Disconnected)))
            ==> (old(shared)@.queue.inner matches Some(items) && items.len() == 0)
            && old(shared)@.senders == 0,
        !(r matches Progress::Done(Ok(_)))
            ==> old(shared)@.queue.inner is Some
                ==> final(shared)@.queue.inner == old(shared)@.queue.inner,
        (r matches Progress::Done(Err(RecvTimeoutError::Timeout)))
            ==> (
                phase matches RecvPhase::Wait(BlockTimeoutPhase::Tick)
                && now.nanos >= deadline.nanos
                && old(shared)@.condvar.sync.contains(caller.thread)
            )
            || (phase matches RecvPhase::Wait(BlockTimeoutPhase::Relock(true)))
            || (phase is Lock && old(shared)@.queue.inner is None && now.nanos >= deadline.nanos),
{
    old(shared)@.condvar.sync.index_of_first_ensures(caller.thread);
}

/// A receiver that goes on, because it starts, because it has been notified or because it is taking
/// the queue again, and that finds the queue free answers with the earliest value if there is one,
/// and that the channel is disconnected exactly if there is none and no sender. This is
/// `recv_sync_timeout_at`, which says that its time is over only if it is.
pub proof fn law_recv_sync_timeout_at_gets_what_was_sent<T>(
    receiver: &Receiver<T>,
    shared: &mut Shared<T>,
    phase: RecvPhase<SyncTimeoutPhase>,
    flag: u64,
    raised: bool,
    caller: Caller,
    now: Moment,
    later: Moment,
    deadline: Moment,
    wakes: &mut Vec<Wake>,
    r: Progress<RecvPhase<SyncTimeoutPhase>, Result<T, RecvTimeoutError>>,
)
    requires
        call_ensures(
            Receiver::<T>::recv_sync_timeout_at,
            (receiver, shared, phase, flag, raised, caller, now, later, deadline, wakes),
            r,
        ),
    ensures
        old(shared)@.queue.inner matches Some(items)
            ==> (
                phase is Lock
                || (
                    phase matches RecvPhase::Wait(
                        SyncTimeoutPhase::Block(BlockTimeoutPhase::Parked),
                    )
                    && !old(shared)@.condvar.sync.contains(caller.thread)
                )
                || (
                    phase matches RecvPhase::Wait(SyncTimeoutPhase::Block(BlockTimeoutPhase::Tick))
                    && now.nanos >= deadline.nanos
                    && !old(shared)@.condvar.sync.contains(caller.thread)
                )
                || (
                    phase matches RecvPhase::Wait(
                        SyncTimeoutPhase::Block(BlockTimeoutPhase::Relock(false)),
                    )
                )
                || (
                    phase matches RecvPhase::Wait(
                        SyncTimeoutPhase::Spin(SpinTimeoutPhase::Spinning(_)),
                    )
                    && raised
                )
                || (
                    phase matches RecvPhase::Wait(
                        SyncTimeoutPhase::Spin(SpinTimeoutPhase::Handoff(_)),
                    )
                    && raised
                )
                || (
                    phase matches RecvPhase::Wait(
                        SyncTimeoutPhase::Spin(SpinTimeoutPhase::Relock(false)),
                    )
                )
            )
                ==> items.len() > 0
                    ==> (r matches Progress::Done(Ok(value)) && value == items[0])
                    && final(shared)@.queue.inner == Some(items.drop_first()),
        old(shared)@.queue.inner matches Some(items)
            ==> (
                phase is Lock
                || (
                    phase matches RecvPhase::Wait(
                        SyncTimeoutPhase::Block(BlockTimeoutPhase::Parked),
                    )
                    && !old(shared)@.condvar.sync.contains(caller.thread)
                )
                || (
                    phase matches RecvPhase::Wait(SyncTimeoutPhase::Block(BlockTimeoutPhase::Tick))
                    && now.nanos >= deadline.nanos
                    && !old(shared)@.condvar.sync.contains(caller.thread)
                )
                || (
                    phase matches RecvPhase::Wait(
                        SyncTimeoutPhase::Block(BlockTimeoutPhase::Relock(false)),
                    )
                )
                || (
                    phase matches RecvPhase::Wait(
                        SyncTimeoutPhase::Spin(SpinTimeoutPhase::Spinning(_)),
                    )
                    && raised
                )
                || (
                    phase matches RecvPhase::Wait(
                        SyncTimeoutPhase::Spin(SpinTimeoutPhase::Handoff(_)),
                    )
                    && raised
                )
                || (
                    phase matches RecvPhase::Wait(
                        SyncTimeoutPhase::Spin(SpinTimeoutPhase::Relock(false)),
                    )
                )
            )
                ==> items.len() == 0
                    ==> (
                        (r matches Progress::Done(Err(RecvTimeoutError::Disconnected)))
                        <==> old(shared)@.senders == 0
                    )
                    && (r is Pause <==> old(shared)@.senders > 0),
        r matches Progress::Done(Ok(value))
            ==> (
                old(shared)@.queue.inner matches Some(items)
                && items.len() > 0
                && value == items[0]
                && final(shared)@.queue.inner == Some(items.drop_first())
            ),
        (r matches Progress::Done(Err(RecvTimeoutError::Disconnected)))
            ==> (old(shared)@.queue.inner matches Some(items) && items.len() == 0)
            && old(shared)@.senders == 0,
        !(r matches Progress::Done(Ok(_)))
            ==> old(shared)@.queue.inner is Some
                ==> final(shared)@.queue.inner == old(shared)@.queue.inner,
        (r matches Progress::Done(Err(RecvTimeoutError::Timeout)))
            ==> (
                phase matches RecvPhase::Wait(SyncTimeoutPhase::Block(BlockTimeoutPhase::Tick))
                && now.nanos >= deadline.nanos
                && old(shared)@.condvar.sync.contains(caller.thread)
            )
            || (
                phase matches RecvPhase::Wait(
                    SyncTimeoutPhase::Spin(SpinTimeoutPhase::Spinning(looked_on)),
                )
                && !raised
                && now.nanos >= deadline.nanos
                && old(shared)@.condvar.spin.contains(looked_on)
            )
            || (
                phase matches RecvPhase::Wait(
                    SyncTimeoutPhase::Block(BlockTimeoutPhase::Relock(true)),
                )
            )
            ||
                (
                    phase matches RecvPhase::Wait(
                        SyncTimeoutPhase::Spin(SpinTimeoutPhase::Relock(true)),
                    )
                )
            || (phase is Lock && old(shared)@.queue.inner is None && now.nanos >= deadline.nanos),
{
    old(shared)@.condvar.sync.index_of_first_ensures(caller.thread);
}

/// A receiver that goes on, because it starts, because it has been notified or because it is taking
/// the queue again, and that finds the queue free answers with the earliest value if there is one,
/// and that the channel is disconnected exactly if there is none and no sender. This is
/// `recv_async_timeout_at`, which says that its time is over only if it is.
pub proof fn law_recv_async_timeout_at_gets_what_was_sent<T>(
    receiver: &Receiver<T>,
    shared: &mut Shared<T>,
    phase: RecvPhase<AsyncTimeoutPhase>,
    ids: &mut WaiterIds,
    race_lost: bool,
    continuation: u64,
    now: Moment,
    deadline: Moment,
    wakes: &mut Vec<Wake>,
    r: Progress<RecvPhase<AsyncTimeoutPhase>, Result<T, RecvTimeoutError>>,
)
    requires
        call_ensures(
            Receiver::<T>::recv_async_timeout_at,
            (receiver, shared, phase, ids, race_lost, continuation, now, deadline, wakes),
            r,
        ),
    ensures
        old(shared)@.queue.inner matches Some(items)
            ==> (
                (phase is Lock && !race_lost)
                || (phase matches RecvPhase::Wait(AsyncTimeoutPhase::Racing(_)) && !race_lost)
                || (phase matches RecvPhase::Wait(AsyncTimeoutPhase::Relock(false)))
            )
                ==> items.len() > 0
                    ==> (r matches Progress::Done(Ok(value)) && value == items[0])
                    && final(shared)@.queue.inner == Some(items.drop_first()),
        old(shared)@.queue.inner matches Some(items)
            ==> (
                (phase is Lock && !race_lost)
                || (phase matches RecvPhase::Wait(AsyncTimeoutPhase::Racing(_)) && !race_lost)
                || (phase matches RecvPhase::Wait(AsyncTimeoutPhase::Relock(false)))
            )
                ==> items.len() == 0
                    ==> (
                        (r matches Progress::Done(Err(RecvTimeoutError::Disconnected)))
                        <==> old(shared)@.senders == 0
                    )
                    && (r is Pause <==> old(shared)@.senders > 0),
        r matches Progress::Done(Ok(value))
            ==> (
                old(shared)@.queue.inner matches Some(items)
                && items.len() > 0
                && value == items[0]
                && final(shared)@.queue.inner == Some(items.drop_first())
            ),
        (r matches Progress::Done(Err(RecvTimeoutError::Disconnected)))
            ==> (old(shared)@.queue.inner matches Some(items) && items.len() == 0)
            && old(shared)@.senders == 0,
        !(r matches Progress::Done(Ok(_)))
            ==> old(shared)@.queue.inner is Some
                ==> final(shared)@.queue.inner == old(shared)@.queue.inner,
        (r matches Progress::Done(Err(RecvTimeoutError::Timeout)))
            ==> (phase matches RecvPhase::Wait(AsyncTimeoutPhase::Racing(_)) && race_lost)
            || (phase matches RecvPhase::Wait(AsyncTimeoutPhase::Relock(true)))
            || (phase is Lock && old(shared)@.queue.inner is None && now.nanos >= deadline.nanos)
            || (phase is Lock && race_lost),
{
}

/// What `send_spin` sends is received: two steps on a free queue with a receiver send the value,
/// and as many tries as there are values before it get those, in order, and then it. Here the queue
/// was empty.
pub proof fn law_send_spin_then_try_recv<T>(
    sender: &Sender<T>,
    receiver: &Receiver<T>,
    shared: &mut Shared<T>,
    then: &mut Shared<T>,
    last: &mut Shared<T>,
    value: T,
    wakes: &mut Vec<Wake>,
    more: &mut Vec<Wake>,
    most: &mut Vec<Wake>,
    phase: SendPhase<T>,
    pause: Pause,
    sent: Progress<SendPhase<T>, Result<(), SendError<T>>>,
    r: Result<T, TryRecvError>,
)
    requires
        old(shared)@.active,
        old(shared)@.queue.inner matches Some(items) && items.len() == 0,
        call_ensures(
            Sender::<T>::send_spin,
            (sender, shared, Call::Start(value), wakes),
            Progress::Pause(phase, pause),
        ),
        final(shared)@ == old(then)@,
        call_ensures(Sender::<T>::send_spin, (sender, then, Call::Resume(phase), more), sent),
        final(then)@ == old(last)@,
        call_ensures(Receiver::<T>::try_recv, (receiver, last, most), r),
    ensures
        sent matches Progress::Done(Ok(())),
        r == Ok::<T, TryRecvError>(value),
{
}

/// What `send_block` sends is received: two steps on a free queue with a receiver send the value,
/// and as many tries as there are values before it get those, in order, and then it. Here the queue
/// was empty.
pub proof fn law_send_block_then_try_recv<T>(
    sender: &Sender<T>,
    receiver: &Receiver<T>,
    shared: &mut Shared<T>,
    then: &mut Shared<T>,
    last: &mut Shared<T>,
    value: T,
    caller: Caller,
    wakes: &mut Vec<Wake>,
    more: &mut Vec<Wake>,
    most: &mut Vec<Wake>,
    phase: SendPhase<T>,
    pause: Pause,
    sent: Progress<SendPhase<T>, Result<(), SendError<T>>>,
    r: Result<T, TryRecvError>,
)
    requires
        old(shared)@.active,
        old(shared)@.queue.inner matches Some(items) && items.len() == 0,
        call_ensures(
            Sender::<T>::send_block,
            (sender, shared, Call::Start(value), caller, wakes),
            Progress::Pause(phase, pause),
        ),
        final(shared)@ == old(then)@,
        call_ensures(
            Sender::<T>::send_block,
            (sender, then, Call::Resume(phase), caller, more),
            sent,
        ),
        final(then)@ == old(last)@,
        call_ensures(Receiver::<T>::try_recv, (receiver, last, most), r),
    ensures
        sent matches Progress::Done(Ok(())),
        r == Ok::<T, TryRecvError>(value),
{
}

/// What `send_sync` sends is received: two steps on a free queue with a receiver send the value,
/// and as many tries as there are values before it get those, in order, and then it. Here the queue
/// was empty.
pub proof fn law_send_sync_then_try_recv<T>(
    sender: &Sender<T>,
    receiver: &Receiver<T>,
    shared: &mut Shared<T>,
    then: &mut Shared<T>,
    last: &mut Shared<T>,
    value: T,
    caller: Caller,
    wakes: &mut Vec<Wake>,
    more: &mut Vec<Wake>,
    most: &mut Vec<Wake>,
    phase: SendPhase<T>,
    pause: Pause,
    sent: Progress<SendPhase<T>, Result<(), SendError<T>>>,
    r: Result<T, TryRecvError>,
)
    requires
        old(shared)@.active,
        old(shared)@.queue.inner matches Some(items) && items.len() == 0,
        call_ensures(
            Sender::<T>::send_sync,
            (sender, shared, Call::Start(value), caller, wakes),
            Progress::Pause(phase, pause),
        ),
        final(shared)@ == old(then)@,
        call_ensures(
            Sender::<T>::send_sync,
            (sender, then, Call::Resume(phase), caller, more),
            sent,
        ),
        final(then)@ == old(last)@,
        call_ensures(Receiver::<T>::try_recv, (receiver, last, most), r),
    ensures
        sent matches Progress::Done(Ok(())),
        r == Ok::<T, TryRecvError>(value),
{
}

/// What `send_async` sends is received: two steps on a free queue with a receiver send the value,
/// and as many tries as there are values before it get those, in order, and then it. Here the queue
/// was empty.
pub proof fn law_send_async_then_try_recv<T>(
    sender: &Sender<T>,
    receiver: &Receiver<T>,
    shared: &mut Shared<T>,
    then: &mut Shared<T>,
    last: &mut Shared<T>,
    value: T,
    continuation: u64,
    wakes: &mut Vec<Wake>,
    more: &mut Vec<Wake>,
    most: &mut Vec<Wake>,
    phase: SendPhase<T>,
    pause: Pause,
    sent: Progress<SendPhase<T>, Result<(), SendError<T>>>,
    r: Result<T, TryRecvError>,
)
    requires
        old(shared)@.active,
        old(shared)@.queue.inner matches Some(items) && items.len() == 0,
        call_ensures(
            Sender::<T>::send_async,
            (sender, shared, Call::Start(value), continuation, wakes),
            Progress::Pause(phase, pause),
        ),
        final(shared)@ == old(then)@,
        call_ensures(
            Sender::<T>::send_async,
            (sender, then, Call::Resume(phase), continuation, more),
            sent,
        ),
        final(then)@ == old(last)@,
        call_ensures(Receiver::<T>::try_recv, (receiver, last, most), r),
    ensures
        sent matches Progress::Done(Ok(())),
        r == Ok::<T, TryRecvError>(value),
{
}

} // verus!

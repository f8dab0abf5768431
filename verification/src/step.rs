//! What a step of a call takes and gives.
use vstd::prelude::*;

verus! {

/// A waiter that has to be woken.
#[derive(Debug, Clone, Copy, PartialEq, Eq, Structural)]
pub enum Wake {
    /// Raise the flag on which a spinning waiter looks.
    Flag(u64),
    /// Unpark a thread.
    Thread(u64),
    /// Complete the continuation that an async task awaits.
    Continuation(u64),
}

/// What has to happen before the next step of a call.
#[derive(Debug, Clone, Copy, PartialEq, Eq, Structural)]
pub enum Pause {
    /// Nothing: the next step may follow at once.
    Yield,
    /// A spin-loop hint.
    SpinLoop,
    /// Park the calling thread until it is unparked.
    Park,
    /// Park the calling thread until it is unparked or this many nanoseconds have passed.
    ParkTimeout(u128),
    /// Await the continuation.
    Await(u64),
    /// Await the continuation or the call's deadline, whichever comes first.
    Race(u64),
}

/// Where a step leaves a call.
#[derive(Debug, PartialEq, Eq)]
pub enum Progress<P, R> {
    /// The call has finished with this result.
    Done(R),
    /// The call goes on from this phase, after the pause.
    Pause(P, Pause),
}

/// Which step of a call is taken.
#[derive(Debug, PartialEq, Eq)]
pub enum Call<S, P> {
    /// The first one, with what the call was given.
    Start(S),
    /// A later one, from the phase in which the step before it left the call.
    Resume(P),
}

/// The thread that makes a call.
#[derive(Debug, Clone, Copy, PartialEq, Eq, Structural)]
pub struct Caller {
    /// The number by which the thread is unparked.
    pub thread: u64,
    /// Whether the thread is allowed to block.
    pub can_block: bool,
}

/// The wake-ups of `threads`, in order.
pub open spec fn thread_wakes(threads: Seq<u64>) -> Seq<Wake> {
    threads.map_values(|id: u64| Wake::Thread(id))
}

/// The wake-ups of spinning waiters that look on `flags`, in order.
pub open spec fn flag_wakes(flags: Seq<u64>) -> Seq<Wake> {
    flags.map_values(|id: u64| Wake::Flag(id))
}

/// The completions of `continuations`, in order.
pub open spec fn continuation_wakes(continuations: Seq<u64>) -> Seq<Wake> {
    continuations.map_values(|id: u64| Wake::Continuation(id))
}

/// Empties `list` and gives what was on it.
pub(crate) fn take_all<W>(list: &mut Vec<W>) -> (r: Vec<W>)
    ensures
        r@ == old(list)@,
        final(list)@ == Seq::<W>::empty(),
{
    let mut taken: Vec<W> = Vec::new();
    std::mem::swap(&mut taken, list);
    taken
}

/// Takes the latest entry off `list`.
pub(crate) fn pop_last<W>(list: &mut Vec<W>) -> (r: Option<W>)
    ensures
        old(list)@.len() == 0 ==> r is None && final(list)@ == old(list)@,
        old(list)@.len() > 0 ==> r == Some(old(list)@.last()) && final(list)@ == old(
            list,
        )@.drop_last(),
{
    list.pop()
}

/// Appends the wake-ups of `threads` to `wakes`.
pub(crate) fn push_thread_wakes(threads: &Vec<u64>, wakes: &mut Vec<Wake>)
    ensures
        final(wakes)@ == old(wakes)@ + thread_wakes(threads@),
{
    let mut i: usize = 0;
    while i < threads.len()
        invariant
            i <= threads@.len(),
            wakes@ == old(wakes)@ + thread_wakes(threads@.take(i as int)),
        decreases threads@.len() - i,
    {
        proof {
            assert(threads@.take(i + 1) =~= threads@.take(i as int).push(threads@[i as int]));
        }
        wakes.push(Wake::Thread(threads[i]));
        assert(wakes@ =~= old(wakes)@ + thread_wakes(threads@.take(i + 1)));
        i += 1;
    }
    assert(threads@.take(i as int) =~= threads@);
}

/// Appends the wake-ups of the waiters on `flags` to `wakes`.
pub(crate) fn push_flag_wakes(flags: &Vec<u64>, wakes: &mut Vec<Wake>)
    ensures
        final(wakes)@ == old(wakes)@ + flag_wakes(flags@),
{
    let mut i: usize = 0;
    while i < flags.len()
        invariant
            i <= flags@.len(),
            wakes@ == old(wakes)@ + flag_wakes(flags@.take(i as int)),
        decreases flags@.len() - i,
    {
        proof {
            assert(flags@.take(i + 1) =~= flags@.take(i as int).push(flags@[i as int]));
        }
        wakes.push(Wake::Flag(flags[i]));
        assert(wakes@ =~= old(wakes)@ + flag_wakes(flags@.take(i + 1)));
        i += 1;
    }
    assert(flags@.take(i as int) =~= flags@);
}

/// Appends the completions of `continuations` to `wakes`.
pub(crate) fn push_continuation_wakes(continuations: &Vec<u64>, wakes: &mut Vec<Wake>)
    ensures
        final(wakes)@ == old(wakes)@ + continuation_wakes(continuations@),
{
    let mut i: usize = 0;
    while i < continuations.len()
        invariant
            i <= continuations@.len(),
            wakes@ == old(wakes)@ + continuation_wakes(continuations@.take(i as int)),
        decreases continuations@.len() - i,
    {
        proof {
            assert(continuations@.take(i + 1) =~= continuations@.take(i as int).push(
                continuations@[i as int],
            ));
        }
        wakes.push(Wake::Continuation(continuations[i]));
        assert(wakes@ =~= old(wakes)@ + continuation_wakes(continuations@.take(i + 1)));
        i += 1;
    }
    assert(continuations@.take(i as int) =~= continuations@);
}

} // verus!

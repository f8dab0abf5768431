//! A lock for short critical sections.
use vstd::prelude::*;

verus! {

/// Data behind a flag that is raised while somebody works on the data.
#[derive(Debug)]
pub struct Spinlock<T> {
    data: T,
    locked: bool,
}

impl<T> View for Spinlock<T> {
    type V = T;

    closed spec fn view(&self) -> T {
        self.data
    }
}

impl<T> Spinlock<T> {
    /// Whether the flag is raised.
    pub closed spec fn is_locked(&self) -> bool {
        self.locked
    }

    /// A lock with its flag down.
    pub fn new(data: T) -> (r: Self)
        ensures
            r@ == data,
            !r.is_locked(),
    {
        Spinlock { data, locked: false }
    }

    /// Raises the flag. True if it was down before, so that the caller has the lock now.
    pub fn enter(&mut self) -> (r: bool)
        ensures
            r == !old(self).is_locked(),
            final(self).is_locked() == flag_after(old(self).is_locked(), seq![FlagStep::Enter]),
            final(self)@ == old(self)@,
    {
        let was_locked: bool = self.locked;
        self.locked = true;
        !was_locked
    }

    /// Takes the flag down.
    pub fn leave(&mut self)
        ensures
            final(self).is_locked() == flag_after(old(self).is_locked(), seq![FlagStep::Leave]),
            final(self)@ == old(self)@,
    {
        self.locked = false;
    }

    /// Runs `f` on the data with the flag raised, and takes the flag down again.
    pub(crate) fn critical<F, R>(&mut self, f: F) -> (r: R) where F: FnOnce(&mut T) -> R
        requires
            forall|d: &mut T| *d == old(self)@ ==> call_requires(f, (d,)),
        ensures
            !final(self).is_locked(),
            exists|d: &mut T|
                *d == old(self)@ && *final(d) == final(self)@
                    && #[trigger] call_ensures(f, (d,), r),
    {
        self.locked = true;
        let data: &mut T = &mut self.data;
        let r = f(data);
        self.locked = false;
        r
    }

    /// Tries to get the lock, once, and runs `f` on the data while holding it. If somebody else
    /// has the lock, `f` is handed back without having been run; the caller spins and tries again.
    pub fn with_mut<F, R>(&mut self, f: F) -> (r: Result<R, F>) where F: FnOnce(&mut T) -> R
        requires
            forall|d: &mut T| *d == old(self)@ ==> call_requires(f, (d,)),
        ensures
            old(self).is_locked() ==> r == Result::<R, F>::Err(f) && final(self)@ == old(self)@
                && final(self).is_locked(),
            !old(self).is_locked() ==> !final(self).is_locked() && exists|d: &mut T, v: R|
                *d == old(self)@ && *final(d) == final(self)@ && #[trigger] call_ensures(f, (d,), v)
                    && r == Result::<R, F>::Ok(v),
    {
        if self.enter() {
            Ok(self.critical(f))
        } else {
            Err(f)
        }
    }
}

impl<T: Default> Default for Spinlock<T> {
    fn default() -> (r: Self)
        ensures
            call_ensures(T::default, (), r@),
            !r.is_locked(),
    {
        Spinlock::new(T::default())
    }
}

impl<T> From<T> for Spinlock<T> {
    fn from(value: T) -> (r: Self)
        ensures
            r@ == value,
            !r.is_locked(),
    {
        Spinlock::new(value)
    }
}

impl<T> vstd::std_specs::convert::FromSpecImpl<T> for Spinlock<T> {
    open spec fn obeys_from_spec() -> bool {
        true
    }

    closed spec fn from_spec(value: T) -> Self {
        Spinlock { data: value, locked: false }
    }
}

/// What somebody does to the flag of a lock.
pub enum FlagStep {
    /// Tries to get in.
    Enter,
    /// Leaves.
    Leave,
}

/// The flag after `steps`.
pub open spec fn flag_after(raised: bool, steps: Seq<FlagStep>) -> bool {
    if steps.len() == 0 {
        raised
    } else {
        steps.last() is Enter
    }
}

/// How many of `steps` get in: those that try while the flag is down.
pub open spec fn admitted(raised: bool, steps: Seq<FlagStep>) -> nat
    decreases steps.len(),
{
    if steps.len() == 0 {
        0
    } else {
        let before = steps.drop_last();
        admitted(raised, before) + if steps.last() is Enter && !flag_after(raised, before) {
            1nat
        } else {
            0
        }
    }
}

/// However many try, at most one is inside until somebody leaves: one if the flag was down, none if
/// it was raised.
pub proof fn law_at_most_one_inside(raised: bool, steps: Seq<FlagStep>)
    requires
        forall|i: int| 0 <= i < steps.len() ==> #[trigger] steps[i] is Enter,
    ensures
        admitted(raised, steps) == if raised || steps.len() == 0 {
            0nat
        } else {
            1
        },
    decreases steps.len(),
{
    if steps.len() > 0 {
        let before = steps.drop_last();
        assert forall|i: int| 0 <= i < before.len() implies #[trigger] before[i] is Enter by {
            assert(steps[i] is Enter);
        }
        law_at_most_one_inside(raised, before);
        if before.len() > 0 {
            assert(before.last() == steps[before.len() - 1]);
        }
        assert(steps.last() == steps[steps.len() - 1]);
    }
}

} // verus!

//! The right to a mutex's data.
use vstd::prelude::*;

verus! {

/// Some number for a mutex, by which proofs tell it from others. Nothing is known of it.
pub(crate) proof fn some_identity() -> (id: int) {
    0
}

/// The data of a locked mutex. Whoever has the guard has the lock; giving it back to
/// [`Mutex::unlock`](crate::mutex::Mutex::unlock) ends that.
pub struct Guard<T> {
    data: T,
    mutex: Ghost<int>,
}

impl<T> View for Guard<T> {
    type V = T;

    closed spec fn view(&self) -> T {
        self.data
    }
}

impl<T> Guard<T> {
    /// The identity of the mutex that the data belongs to.
    pub closed spec fn id(&self) -> int {
        self.mutex@
    }

    pub(crate) fn new(data: T, mutex: Ghost<int>) -> (r: Guard<T>)
        ensures
            r@ == data,
            r.id() == mutex@,
    {
        Guard { data, mutex }
    }

    pub(crate) fn into_data(self) -> (r: T)
        ensures
            r == self@,
    {
        self.data
    }

    /// The data.
    pub fn get(&self) -> (r: &T)
        ensures
            *r == self@,
    {
        &self.data
    }

    /// The data, to be changed.
    pub fn get_mut(&mut self) -> (r: &mut T)
        ensures
            *r == old(self)@,
            final(self)@ == *final(r),
            final(self).id() == old(self).id(),
    {
        &mut self.data
    }
}

} // verus!

//! Mutexes, condition variables and channels for programs that also run on the web.
//!
//! A browser's main thread must not block, a worker may, and an async task waits in a third way.
//! The primitives here therefore never wait by themselves. Each call is advanced one step at a
//! time over plain state: a step either finishes the call or names the pause that has to come
//! before the next step (spin, park, await), and lists the waiters that have to be woken. The
//! embedder performs the pause and the wake-ups.
pub mod audio_worklet;
pub mod calls;
pub mod condvar;
pub mod condvar_calls;
pub mod condvar_laws;
pub mod guard;
pub mod mpsc;
pub mod mpsc_calls;
pub mod mpsc_laws;
pub mod mpsc_spec;
pub mod mutex;
pub mod mutex_calls;
pub mod mutex_laws;
pub mod race;
pub mod spinlock;
pub mod step;
pub mod time;
pub mod wait_laws;
pub mod wait_spec;

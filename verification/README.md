# wasm_safe_sync

Mutexes, condition variables and channels for programs that run both natively and on the web, where
some threads must not block and tasks wait by awaiting.

The library under `src/` is verified with Verus. It never waits by itself: every operation is
advanced in steps over plain state. A step finishes the call, or names the pause that has to come
before the next one, and lists the waiters that have to be woken.

| Module | What it holds |
| --- | --- |
| `spinlock` | a lock for short critical sections |
| `mutex`, `guard` | a mutex that is waited for by spinning, blocking or awaiting |
| `condvar` | a condition variable, with and without deadlines and conditions |
| `mpsc` | a channel from many senders to one receiver |
| `race` | a notification against a deadline |
| `audio_worklet` | handing data to an audio worklet while its node is made |
| `time` | clock readings and deadlines |
| `step` | what a step takes and gives |
| `wait_spec`, `mpsc_spec` | the mathematical account of waits and of the channel |
| `mutex_laws`, `condvar_laws`, `mpsc_laws` | what holds of every course of steps, and that calls are such steps |
| `wait_laws` | that waits are steps of a condition variable and of a mutex |

`app/` puts the state into cells that threads share, and carries out the pauses and wake-ups with
real threads, flags and continuations.

Outside code that the proofs rely on: `web_time::Instant::now`, of which nothing is claimed, and
`web_time::Instant::saturating_duration_since`, of which only is claimed that the two instants
decide the result.

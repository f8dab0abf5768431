//! A notification against a deadline.
use crate::time;
use crate::time::Moment;
use vstd::prelude::*;

verus! {

/// A race between a notification and a timeout, of which each is asked until it has come.
#[derive(Debug, Clone, Copy, PartialEq, Eq, Structural)]
pub struct Race {
    /// The notification has not come yet.
    pub notify: bool,
    /// The timeout has not come yet.
    pub timeout: bool,
}

impl Race {
    /// The race after both have been asked, and its outcome: whether it was the timeout that came.
    /// What has come before does not count, and the notification wins a tie.
    pub open spec fn outcome(self, notified: bool, timed_out: bool) -> (Race, Option<bool>) {
        if self.notify && notified {
            (Race { notify: false, ..self }, Some(false))
        } else if self.timeout && timed_out {
            (Race { timeout: false, ..self }, Some(true))
        } else {
            (self, None)
        }
    }

    /// A race in which neither has come.
    pub fn new() -> (r: Race)
        ensures
            r == (Race { notify: true, timeout: true }),
    {
        Race { notify: true, timeout: true }
    }

    /// Asks who has come: first for the notification, then, if that has not come, for the timeout.
    /// What has come before is not asked for again.
    pub fn poll<N: FnOnce() -> bool, M: FnOnce() -> bool>(&mut self, notify: N, timeout: M) -> (r:
        Option<bool>)
        requires
            call_requires(notify, ()),
            call_requires(timeout, ()),
        ensures
            exists|notified: bool, timed_out: bool|
                (*final(self), r) == #[trigger] old(self).outcome(notified, timed_out) && (old(
                    self,
                ).notify ==> call_ensures(notify, (), notified)) && (old(self).timeout && !(old(
                    self,
                ).notify && notified) ==> call_ensures(timeout, (), timed_out)),
    {
        let mut notified: bool = false;
        if self.notify {
            notified = notify();
            if notified {
                self.notify = false;
                assert((*self, Some(false)) == old(self).outcome(true, false));
                return Some(false);
            }
        }
        let mut timed_out: bool = false;
        if self.timeout {
            timed_out = timeout();
            if timed_out {
                self.timeout = false;
                assert((*self, Some(true)) == old(self).outcome(notified, true));
                return Some(true);
            }
        }
        assert((*self, None::<bool>) == old(self).outcome(notified, timed_out));
        None
    }
}

/// How many nanoseconds the thread that keeps a deadline has to sleep at `now`, if at all.
pub open spec fn timer_sleep(now: Moment, deadline: Moment) -> Option<u128> {
    if deadline.nanos > now.nanos {
        Some((deadline.nanos - now.nanos) as u128)
    } else {
        None
    }
}

/// How long the thread that keeps a deadline has to sleep at `now` before it reports the timeout.
pub fn timer_delay_at(now: Moment, deadline: Moment) -> (r: Option<u128>)
    ensures
        r == timer_sleep(now, deadline),
{
    if deadline.nanos > now.nanos {
        Some(deadline.nanos - now.nanos)
    } else {
        None
    }
}

/// How long the thread that keeps a deadline has to sleep before it reports the timeout. On the web
/// reading the clock panics in a context that has no `Performance` object.
pub fn timer_delay(deadline: web_time::Instant) -> (r: Option<u128>)
    ensures
        exists|reading: web_time::Instant|
            time::read_from_clock(reading) && r == timer_sleep(
                time::present(),
                #[trigger] time::seen_at(reading, deadline),
            ),
{
    let due = time::due(true, &deadline);
    timer_delay_at(Moment { nanos: 0 }, due)
}

/// A notification that comes together with the deadline, or before it, is never reported as a
/// timeout.
pub proof fn law_notification_wins(race: Race, timed_out: bool)
    requires
        race.notify,
    ensures
        race.outcome(true, timed_out).1 == Some(false),
{
}

/// Each side is reported at most once: what has won is not asked for again.
pub proof fn law_winner_is_reported_once(race: Race, notified: bool, timed_out: bool)
    ensures
        race.outcome(notified, timed_out).1 == Some(false) ==> race.notify && !race.outcome(
            notified,
            timed_out,
        ).0.notify,
        race.outcome(notified, timed_out).1 == Some(true) ==> race.timeout && !race.outcome(
            notified,
            timed_out,
        ).0.timeout,
        race.outcome(notified, timed_out).1 is None ==> race.outcome(notified, timed_out).0 == race,
{
}

} // verus!

//! Clock readings and deadlines.
use vstd::prelude::*;

verus! {

/// The clock's own instants, which are opaque here: only distances between them are read.
#[verifier::external_type_specification]
#[verifier::external_body]
pub struct ExInstant(web_time::Instant);

/// The nanoseconds that `web_time::Instant::saturating_duration_since` finds from `earlier` to
/// `later`: zero where `later` is not after `earlier`.
pub uninterp spec fn nanos_between(earlier: web_time::Instant, later: web_time::Instant) -> u128;

/// Reads the clock with `web_time::Instant::now`. Nothing is claimed of the reading: it depends on
/// when the call is made. On the web the call panics in a context that has no `Performance` object.
#[verifier::external_body]
fn read_clock() -> web_time::Instant {
    web_time::Instant::now()
}

/// Whether the clock has given this reading: reading the clock can give it, and only reading the
/// clock shows that.
pub closed spec fn read_from_clock(reading: web_time::Instant) -> bool {
    call_ensures(read_clock, (), reading)
}

/// A reading of the clock. On the web this panics in a context that has no `Performance` object.
pub(crate) fn read() -> (r: web_time::Instant)
    ensures
        read_from_clock(r),
{
    read_clock()
}

/// Only the clock gives readings: nothing but a call of `web_time::Instant::now` shows that an
/// instant was read.
proof fn law_only_the_clock_gives_readings(reading: web_time::Instant)
    ensures
        read_from_clock(reading) <==> call_ensures(read_clock, (), reading),
{
}

/// The distance from `earlier` to `later`, in nanoseconds, as
/// `web_time::Instant::saturating_duration_since` measures it. The contract claims that the two
/// instants alone decide the result.
#[verifier::external_body]
fn nanos_since(later: &web_time::Instant, earlier: &web_time::Instant) -> (r: u128)
    ensures
        r == nanos_between(*earlier, *later),
{
    later.saturating_duration_since(*earlier).as_nanos()
}

/// A point in time, in nanoseconds from some start that all moments of a step share.
#[derive(Debug, Clone, Copy, PartialEq, Eq, Structural)]
pub struct Moment {
    pub nanos: u128,
}

impl Moment {
    /// Whether `deadline` has come at this point in time.
    pub open spec fn spec_reached(self, deadline: Moment) -> bool {
        self.nanos >= deadline.nanos
    }

    /// The nanoseconds that are left until `deadline`, zero once it has come.
    pub open spec fn spec_until(self, deadline: Moment) -> u128 {
        if self.nanos >= deadline.nanos {
            0
        } else {
            (deadline.nanos - self.nanos) as u128
        }
    }

    /// Whether `deadline` has come at this point in time.
    pub fn reached(&self, deadline: Moment) -> (r: bool)
        ensures
            r == self.spec_reached(deadline),
    {
        self.nanos >= deadline.nanos
    }

    /// The nanoseconds that are left until `deadline`, zero once it has come.
    pub fn until(&self, deadline: Moment) -> (r: u128)
        ensures
            r == self.spec_until(deadline),
    {
        if self.nanos >= deadline.nanos {
            0
        } else {
            deadline.nanos - self.nanos
        }
    }
}

/// The moment at which a step reads the clock, from which the moments of the step are counted.
pub open spec fn present() -> Moment {
    Moment { nanos: 0 }
}

/// The moment of `instant` in a step that has read `reading` from the clock. What lies before the
/// reading counts as the present.
pub open spec fn seen_at(reading: web_time::Instant, instant: web_time::Instant) -> Moment {
    Moment { nanos: nanos_between(reading, instant) }
}

/// The moment of `instant` in a step that has read `reading` from the clock. What lies before the
/// reading counts as the present.
pub fn moment(reading: &web_time::Instant, instant: &web_time::Instant) -> (r: Moment)
    ensures
        r == seen_at(*reading, *instant),
{
    Moment { nanos: nanos_since(instant, reading) }
}

/// The moment of `deadline`, if the clock has to be read for it at all. On the web reading it
/// panics in a context that has no `Performance` object.
pub(crate) fn due(reads: bool, deadline: &web_time::Instant) -> (r: Moment)
    ensures
        reads ==> exists|reading: web_time::Instant|
            read_from_clock(reading) && r == #[trigger] seen_at(reading, *deadline),
{
    if reads {
        let reading = read();
        moment(&reading, deadline)
    } else {
        Moment { nanos: 0 }
    }
}

} // verus!

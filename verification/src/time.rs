//! Points in time and spans of time, held as whole nanoseconds so that the
//! rules that read them (retention windows, retry delays, timeouts) are plain
//! integer arithmetic.

use vstd::prelude::*;

verus! {

/// Nanoseconds in one second.
pub const NANOS_PER_SEC: u128 = 1_000_000_000;

/// Nanoseconds in one millisecond.
pub const NANOS_PER_MILLI: u128 = 1_000_000;

/// A span of time with nanosecond resolution.
#[derive(Clone, Copy, Debug, PartialEq, Eq, PartialOrd, Ord, Hash, Structural)]
pub struct Duration {
    nanos: u128,
}

impl View for Duration {
    type V = nat;

    /// The span in nanoseconds.
    closed spec fn view(&self) -> nat {
        self.nanos as nat
    }
}

impl Duration {
    /// The span of `nanos` nanoseconds, as a value of specifications.
    pub closed spec fn from_nanos_spec(nanos: u128) -> Duration {
        Duration { nanos }
    }

    /// The span of no time at all.
    pub fn zero() -> (d: Duration)
        ensures
            d@ == 0,
            d == Duration::from_nanos_spec(0),
    {
        Duration { nanos: 0 }
    }

    /// A span of `secs` whole seconds.
    pub fn from_secs(secs: u64) -> (d: Duration)
        ensures
            d@ == secs * NANOS_PER_SEC,
    {
        let wide: u128 = secs as u128;
        Duration { nanos: wide * NANOS_PER_SEC }
    }

    /// A span of `millis` whole milliseconds.
    pub fn from_millis(millis: u64) -> (d: Duration)
        ensures
            d@ == millis * NANOS_PER_MILLI,
    {
        let wide: u128 = millis as u128;
        Duration { nanos: wide * NANOS_PER_MILLI }
    }

    /// A span of `nanos` nanoseconds.
    pub fn from_nanos(nanos: u128) -> (d: Duration)
        ensures
            d@ == nanos,
            d == Duration::from_nanos_spec(nanos),
    {
        Duration { nanos }
    }

    /// The span in nanoseconds.
    pub fn as_nanos(&self) -> (n: u128)
        ensures
            n == self@,
    {
        self.nanos
    }

    /// The span in whole milliseconds, rounded down.
    pub fn as_millis(&self) -> (n: u128)
        ensures
            n == self@ / (NANOS_PER_MILLI as nat),
    {
        self.nanos / NANOS_PER_MILLI
    }

    /// The lower 64 bits of the span in nanoseconds: the sample that a span
    /// contributes to a running average.
    pub fn low_nanos(&self) -> (n: u64)
        ensures
            n == self@ % 0x1_0000_0000_0000_0000,
    {
        let low: u128 = self.nanos % 0x1_0000_0000_0000_0000u128;
        low as u64
    }

    /// Whether the span is empty.
    pub fn is_zero(&self) -> (z: bool)
        ensures
            z == (self@ == 0),
    {
        self.nanos == 0
    }
}

/// A point in time: nanoseconds since the Unix epoch.
#[derive(Clone, Copy, Debug, PartialEq, Eq, PartialOrd, Ord, Hash, Structural)]
pub struct Timestamp {
    nanos: u128,
}

impl View for Timestamp {
    type V = nat;

    /// Nanoseconds since the Unix epoch.
    closed spec fn view(&self) -> nat {
        self.nanos as nat
    }
}

/// A reading of the system clock, as the standard library hands it out.
#[verifier::external_type_specification]
#[verifier::external_body]
pub struct ExSystemTime(std::time::SystemTime);

/// The error of a clock that stands before the point it is measured from.
#[verifier::external_type_specification]
#[verifier::external_body]
pub struct ExSystemTimeError(std::time::SystemTimeError);

/// Calls `std::time::SystemTime::now`. Nothing is claimed of the reading: two
/// readings may come out in any order.
#[verifier::external_body]
fn system_clock() -> std::time::SystemTime {
    std::time::SystemTime::now()
}

/// Calls `std::time::SystemTime::duration_since` with the Unix epoch as the
/// earlier point. Nothing is claimed of the result.
#[verifier::external_body]
fn since_unix_epoch(reading: &std::time::SystemTime) -> Result<
    std::time::Duration,
    std::time::SystemTimeError,
> {
    reading.duration_since(std::time::UNIX_EPOCH)
}

/// Calls `std::time::Duration::as_nanos`. Nothing is claimed of the result.
#[verifier::external_body]
fn whole_nanos(span: &std::time::Duration) -> u128 {
    span.as_nanos()
}

impl Timestamp {
    /// The current reading of the system clock. A clock that stands before
    /// the Unix epoch reads as the epoch.
    pub fn now() -> Timestamp {
        let reading = system_clock();
        match since_unix_epoch(&reading) {
            Ok(span) => Timestamp { nanos: whole_nanos(&span) },
            Err(_) => Timestamp { nanos: 0 },
        }
    }

    /// The point `nanos` nanoseconds after the Unix epoch.
    pub fn from_nanos(nanos: u128) -> (t: Timestamp)
        ensures
            t@ == nanos,
    {
        Timestamp { nanos }
    }

    /// Nanoseconds since the Unix epoch.
    pub fn as_nanos(&self) -> (n: u128)
        ensures
            n == self@,
    {
        self.nanos
    }

    /// The time that passed from `earlier` to `self`, or `None` where
    /// `earlier` is in fact the later of the two.
    pub fn duration_since(&self, earlier: Timestamp) -> (d: Option<Duration>)
        ensures
            earlier@ <= self@ ==> d.is_some() && d.unwrap()@ == self@ - earlier@,
            earlier@ > self@ ==> d.is_none(),
    {
        if earlier.nanos <= self.nanos {
            Some(Duration { nanos: self.nanos - earlier.nanos })
        } else {
            None
        }
    }

    /// Whether more than `window` has passed between `self` and `now`. A
    /// point that lies after `now` has no age and is never older.
    pub fn is_older_than(&self, window: Duration, now: Timestamp) -> (old: bool)
        ensures
            old == (self@ + window@ < now@),
    {
        if self.nanos > now.nanos {
            false
        } else {
            now.nanos - self.nanos > window.nanos
        }
    }
}

/// The items that are no older than `window` at the time `now`, in their
/// order, where `stamp` gives the time of an item.
pub open spec fn retained<T>(
    items: Seq<T>,
    stamp: spec_fn(T) -> Timestamp,
    window: Duration,
    now: Timestamp,
) -> Seq<T>
    decreases items.len(),
{
    if items.len() == 0 {
        Seq::empty()
    } else if stamp(items.last())@ + window@ < now@ {
        retained(items.drop_last(), stamp, window, now)
    } else {
        retained(items.drop_last(), stamp, window, now).push(items.last())
    }
}

/// A value that carries the time at which it was made.
pub trait Stamped {
    /// The time at which the value was made.
    spec fn stamp(&self) -> Timestamp;

    /// The time at which the value was made.
    fn stamped_at(&self) -> (t: Timestamp)
        ensures
            t == self.stamp(),
    ;
}

/// The function that gives the time of a stamped value.
pub open spec fn stamp_of<T: Stamped>() -> spec_fn(T) -> Timestamp {
    |item: T| item.stamp()
}

/// Drops from the items those that are older than `window` at the time `now`.
/// The items that stay keep their order.
pub fn retain_fresh<T: Stamped>(items: &mut Vec<T>, window: Duration, now: Timestamp)
    ensures
        final(items)@ == retained(old(items)@, stamp_of::<T>(), window, now),
        final(items)@.len() <= old(items)@.len(),
{
    let ghost all = items@;
    let ghost stamp = stamp_of::<T>();
    let mut i: usize = 0;
    proof {
        assert(all.take(0) =~= Seq::<T>::empty());
        assert(all.skip(0) =~= all);
        assert(Seq::<T>::empty() + all =~= all);
    }
    while i < items.len()
        invariant
            all == old(items)@,
            stamp == stamp_of::<T>(),
            i <= items@.len() <= all.len(),
            items@ == retained(all.take(all.len() - (items@.len() - i)), stamp, window, now)
                + all.skip(all.len() - (items@.len() - i)),
            i == retained(all.take(all.len() - (items@.len() - i)), stamp, window, now).len(),
        decreases items@.len() - i,
    {
        let ghost done = all.len() - (items@.len() - i);
        let ghost before = items@;
        let ghost kept = retained(all.take(done), stamp, window, now);
        proof {
            assert(all.take(done + 1).drop_last() =~= all.take(done));
            assert(all.take(done + 1).last() == all[done]);
            assert(before[i as int] == all.skip(done)[0]);
            assert(all.skip(done).skip(1) =~= all.skip(done + 1));
        }
        if items[i].stamped_at().is_older_than(window, now) {
            items.remove(i);
            proof {
                assert(items@ =~= kept + all.skip(done + 1));
            }
        } else {
            i = i + 1;
            proof {
                assert(items@ =~= kept.push(all[done]) + all.skip(done + 1));
            }
        }
    }
    proof {
        assert(all.take(all.len() as int) =~= all);
        assert(all.skip(all.len() as int) =~= Seq::<T>::empty());
        assert(items@ =~= retained(all, stamp, window, now));
    }
}

/// Retaining goes through a view: the views of the items that are retained
/// are the views that are retained, where a view carries the time of its
/// item.
pub proof fn lemma_retained_through<T, V>(
    items: Seq<T>,
    view: spec_fn(T) -> V,
    stamp: spec_fn(T) -> Timestamp,
    view_stamp: spec_fn(V) -> Timestamp,
    window: Duration,
    now: Timestamp,
)
    requires
        forall|item: T| view_stamp(#[trigger] view(item)) == stamp(item),
    ensures
        retained(items, stamp, window, now).map_values(view) == retained(
            items.map_values(view),
            view_stamp,
            window,
            now,
        ),
    decreases items.len(),
{
    let views = items.map_values(view);
    if items.len() == 0 {
        assert(retained(items, stamp, window, now).map_values(view) =~= Seq::<V>::empty());
    } else {
        lemma_retained_through(items.drop_last(), view, stamp, view_stamp, window, now);
        assert(views.drop_last() =~= items.drop_last().map_values(view));
        assert(views.last() == view(items.last()));
        let rest = retained(items.drop_last(), stamp, window, now);
        if stamp(items.last())@ + window@ < now@ {
        } else {
            assert(rest.push(items.last()).map_values(view) =~= rest.map_values(view).push(
                view(items.last()),
            ));
        }
    }
}

} // verus!

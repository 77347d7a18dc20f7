use vstd::prelude::*;

use crate::model::sat_sub;

verus! {

/// Capability abstracting a monotonic time source, supplied by the host to
/// `Timeout` at construction.
///
/// Durations and elapsed times are in milliseconds. A clock whose reading
/// is visible to specifications (`modeled`) makes the timeout behavior of
/// the trees it serves fully concrete; a host clock that reads real time
/// reports `modeled() == false` and leaves the timeout contracts
/// conditional.
pub trait Clock: Sized {
    /// Opaque token for a point in time.
    type Instant: Copy;

    /// Whether specifications can see this clock's reading.
    spec fn modeled(&self) -> bool;

    /// The clock's current reading, in milliseconds.
    spec fn time_model(&self) -> nat;

    /// The reading that produced an instant, in milliseconds.
    spec fn instant_model(i: Self::Instant) -> nat;

    /// The current point in time.
    fn now(&self) -> (i: Self::Instant)
        ensures
            self.modeled() ==> Self::instant_model(i) == self.time_model(),
    ;

    /// Milliseconds elapsed since `since` (zero if the clock has not moved
    /// past it).
    fn elapsed(&self, since: Self::Instant) -> (d: u64)
        ensures
            self.modeled() ==> d as nat == sat_sub(
                self.time_model(),
                Self::instant_model(since),
            ),
    ;
}

#[verifier::external_type_specification]
#[verifier::external_body]
pub struct ExInstant(tokio::time::Instant);

/// Relies on `tokio::time::Instant::now`: the current reading of the tokio
/// runtime's monotonic clock. Which instant comes back depends on the time
/// of the call, so nothing is promised of it.
#[verifier::external_body]
fn tokio_now() -> tokio::time::Instant {
    tokio::time::Instant::now()
}

/// Relies on `tokio::time::Instant::elapsed`: how long ago the instant
/// was, in whole milliseconds. The result depends on the time of the
/// call, so nothing is promised of it.
#[verifier::external_body]
fn tokio_elapsed_ms(since: tokio::time::Instant) -> u128 {
    since.elapsed().as_millis()
}

/// Real monotonic clock for `Timeout`, backed by the tokio runtime's time
/// source (so timeouts respect a paused or auto-advancing test runtime).
///
/// Its readings are not visible to specifications (`modeled` is false): a
/// timeout driven by it keeps every contract that does not depend on what
/// the clock returns.
#[derive(Debug, Clone, Copy, Default)]
pub struct TokioClock;

impl Clock for TokioClock {
    type Instant = tokio::time::Instant;

    open spec fn modeled(&self) -> bool {
        false
    }

    open spec fn time_model(&self) -> nat {
        0
    }

    open spec fn instant_model(i: tokio::time::Instant) -> nat {
        0
    }

    fn now(&self) -> (i: tokio::time::Instant) {
        tokio_now()
    }

    fn elapsed(&self, since: tokio::time::Instant) -> (d: u64) {
        let ms = tokio_elapsed_ms(since);
        if ms > u64::MAX as u128 {
            u64::MAX
        } else {
            ms as u64
        }
    }
}

/// Deterministic clock for driving `Timeout` in tests and simulations: it
/// reports a stored reading and only moves when told to.
#[derive(Debug, Clone, Copy, PartialEq, Eq, Structural)]
pub struct ManualClock {
    now_ms: u64,
}

impl ManualClock {
    /// A clock whose reading starts at `now_ms` milliseconds.
    pub fn new(now_ms: u64) -> (r: Self)
        ensures
            r.time_model() == now_ms as nat,
    {
        ManualClock { now_ms }
    }

    /// Move the reading forward by `delta_ms`, saturating at the largest
    /// representable reading.
    pub fn advance(&mut self, delta_ms: u64)
        ensures
            final (self).time_model() == if old(self).time_model() + delta_ms <= u64::MAX {
                old(self).time_model() + delta_ms
            } else {
                u64::MAX as int
            },
    {
        if self.now_ms <= u64::MAX - delta_ms {
            self.now_ms = self.now_ms + delta_ms;
        } else {
            self.now_ms = u64::MAX;
        }
    }
}

impl Clock for ManualClock {
    type Instant = u64;

    open spec fn modeled(&self) -> bool {
        true
    }

    closed spec fn time_model(&self) -> nat {
        self.now_ms as nat
    }

    open spec fn instant_model(i: u64) -> nat {
        i as nat
    }

    fn now(&self) -> (i: u64) {
        self.now_ms
    }

    fn elapsed(&self, since: u64) -> (d: u64) {
        if self.now_ms >= since {
            self.now_ms - since
        } else {
            0
        }
    }
}

} // verus!

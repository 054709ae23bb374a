//! Clock abstractions: a wall clock and a monotonic clock, each with a
//! declared resolution.
//!
//! The monotonic clock's readings never regress within one context's
//! lifetime; the scheduler's timeout arithmetic relies on that. The wall
//! clock promises nothing about ordering — it may be virtual or imprecise.

use vstd::prelude::*;

verus! {

/// Which clock a guest asks about.
#[derive(Clone, Copy, PartialEq, Eq, Structural, Debug)]
pub enum ClockId {
    /// The wall clock.
    Realtime,
    /// The monotonic clock.
    Monotonic,
}

/// A wall clock: nanoseconds since an arbitrary epoch, with a declared
/// resolution. Readings carry no ordering promise.
pub trait WasiSystemClock: Sized {
    /// The clock's declared resolution, in nanoseconds.
    fn resolution(&self) -> u64;

    /// The current wall-clock time, in nanoseconds since the epoch.
    fn now(&mut self) -> u64;
}

/// A monotonic clock: readings taken one after the other never decrease.
pub trait WasiMonotonicClock: Sized {
    /// The latest reading handed out; no later reading falls below it.
    spec fn reading(&self) -> u64;

    /// The clock's declared resolution, in nanoseconds.
    fn resolution(&self) -> u64;

    /// The current instant, in nanoseconds. Each reading is at least the
    /// one before it: time never regresses on this clock.
    fn now(&mut self) -> (r: u64)
        ensures
            r >= old(self).reading(),
            final(self).reading() == r,
    ;
}

/// Monotonic readings taken one after the other, in wall order, never
/// regress: the first call leaves its reading behind as the clock's
/// watermark, and the second call's contract keeps its reading at or
/// above that watermark.
pub proof fn lemma_monotonic_chain<M: WasiMonotonicClock>(after_first: &M, r1: u64, r2: u64)
    requires
        after_first.reading() == r1,
        r2 >= after_first.reading(),
    ensures
        r1 <= r2,
{
}

/// A virtual wall clock: time stands where the embedding put it.
pub struct VirtualSystemClock {
    now_ns: u64,
    res: u64,
}

impl VirtualSystemClock {
    /// A virtual wall clock starting at `start` nanoseconds.
    pub fn new(start: u64, resolution: u64) -> (r: VirtualSystemClock) {
        VirtualSystemClock { now_ns: start, res: resolution }
    }

    /// Move the clock; a virtual wall clock may be set backwards.
    pub fn set_time(&mut self, now_ns: u64) {
        self.now_ns = now_ns;
    }
}

impl WasiSystemClock for VirtualSystemClock {
    fn resolution(&self) -> u64 {
        self.res
    }

    fn now(&mut self) -> u64 {
        self.now_ns
    }
}

/// A virtual monotonic clock: the embedding advances it; it can never be
/// set backwards, so its readings never regress.
pub struct VirtualMonotonicClock {
    now_ns: u64,
    res: u64,
}

impl VirtualMonotonicClock {
    /// A virtual monotonic clock starting at `start` nanoseconds.
    pub fn new(start: u64, resolution: u64) -> (r: VirtualMonotonicClock)
        ensures
            r.reading() == start,
    {
        VirtualMonotonicClock { now_ns: start, res: resolution }
    }

    /// Advance the clock by `delta` nanoseconds, saturating at the end of
    /// representable time.
    pub fn advance(&mut self, delta: u64) -> (r: u64)
        ensures
            r == final(self).reading(),
            final(self).reading() >= old(self).reading(),
            u64::MAX - old(self).reading() >= delta ==> final(self).reading() == old(
                self,
            ).reading() + delta,
    {
        if u64::MAX - self.now_ns >= delta {
            self.now_ns = self.now_ns + delta;
        } else {
            self.now_ns = u64::MAX;
        }
        self.now_ns
    }
}

impl WasiMonotonicClock for VirtualMonotonicClock {
    closed spec fn reading(&self) -> u64 {
        self.now_ns
    }

    fn resolution(&self) -> u64 {
        self.res
    }

    fn now(&mut self) -> (r: u64) {
        self.now_ns
    }
}

/// The pair of clocks one execution context owns.
pub struct WasiClocks<S: WasiSystemClock, M: WasiMonotonicClock> {
    pub system: S,
    pub monotonic: M,
}

} // verus!

//! The reconnect policy of the bus session: after each failed session the supervisor sleeps,
//! and the sleep grows by half after every consecutive failure up to a ceiling. A session
//! that ends without an error resets it.
use vstd::prelude::*;

verus! {

/// Nanoseconds in a second.
pub const NANOS_PER_SEC: u64 = 1_000_000_000;

/// The first delay: five seconds, in nanoseconds.
pub const INITIAL_DELAY: u64 = 5_000_000_000;

/// The ceiling of the delay: five minutes, in nanoseconds.
pub const MAX_DELAY: u64 = 300_000_000_000;

/// The largest ceiling that a policy may have, so that growing a delay cannot overflow.
pub const DELAY_LIMIT: u64 = 0x5555_5555_5555_5555;

/// `d` grown by half (rounded down), but no more than `maximum`.
pub open spec fn grown(d: u64, maximum: u64) -> u64 {
    if (d as int) * 3 / 2 < maximum as int {
        ((d as int) * 3 / 2) as u64
    } else {
        maximum
    }
}

/// The delay after `k` consecutive failures.
pub open spec fn delay_after(initial: u64, maximum: u64, k: nat) -> u64
    decreases k,
{
    if k == 0 {
        initial
    } else {
        grown(delay_after(initial, maximum, (k - 1) as nat), maximum)
    }
}

/// How a bus session ended.
#[derive(Debug, Clone, Copy, PartialEq, Eq)]
pub enum SessionEnd {
    /// The session closed without an error.
    Closed,
    /// Connecting, subscribing or polling failed.
    Failed,
}

/// What the supervisor does next.
#[derive(Debug, Clone, Copy, PartialEq, Eq)]
pub enum Reconnect {
    /// Open a new session at once.
    Now,
    /// Sleep this many nanoseconds, then open a new session.
    After(u64),
}

/// The reconnect delay of the supervisor, in nanoseconds.
pub struct Backoff {
    pub initial: u64,
    pub maximum: u64,
    pub current: u64,
}

impl Backoff {
    pub open spec fn wf(&self) -> bool {
        0 < self.initial <= self.current <= self.maximum <= DELAY_LIMIT
    }

    /// A policy that starts at `initial` and stops growing at `maximum`.
    pub fn new(initial: u64, maximum: u64) -> (r: Backoff)
        requires
            0 < initial <= maximum <= DELAY_LIMIT,
        ensures
            r.wf(),
            r.initial == initial,
            r.maximum == maximum,
            r.current == initial,
    {
        Backoff { initial, maximum, current: initial }
    }

    /// The policy of the harvester: five seconds, growing to five minutes.
    pub fn standard() -> (r: Backoff)
        ensures
            r.wf(),
            r.initial == INITIAL_DELAY,
            r.maximum == MAX_DELAY,
            r.current == INITIAL_DELAY,
    {
        Backoff::new(INITIAL_DELAY, MAX_DELAY)
    }

    /// Decides what follows the end of a session. After a failure the supervisor sleeps for
    /// the current delay, which then grows; after a clean close it reconnects at once and the
    /// delay goes back to its first value.
    pub fn session_ended(&mut self, end: SessionEnd) -> (r: Reconnect)
        requires
            old(self).wf(),
        ensures
            final(self).wf(),
            final(self).initial == old(self).initial,
            final(self).maximum == old(self).maximum,
            end == SessionEnd::Failed ==> r == Reconnect::After(old(self).current)
                && final(self).current == grown(old(self).current, old(self).maximum),
            end == SessionEnd::Closed ==> r == Reconnect::Now && final(self).current
                == old(self).initial,
    {
        match end {
            SessionEnd::Closed => {
                self.current = self.initial;
                Reconnect::Now
            },
            SessionEnd::Failed => {
                let d = self.current;
                let next = d / 2 * 3 + (d % 2);
                assert(next as int == (d as int) * 3 / 2);
                self.current = if next < self.maximum {
                    next
                } else {
                    self.maximum
                };
                Reconnect::After(d)
            },
        }
    }
}

/// The delays of consecutive failures never decrease, stay at or above the first delay and
/// never pass the ceiling.
pub proof fn lemma_delays_monotone(initial: u64, maximum: u64, k: nat)
    requires
        0 < initial <= maximum,
    ensures
        initial <= delay_after(initial, maximum, k),
        delay_after(initial, maximum, k) <= delay_after(initial, maximum, k + 1),
        delay_after(initial, maximum, k + 1) <= maximum,
    decreases k,
{
    if k > 0 {
        lemma_delays_monotone(initial, maximum, (k - 1) as nat);
    }
}

/// Once a delay reaches the ceiling it stays there for every further failure.
pub proof fn lemma_delays_clamped(initial: u64, maximum: u64, k: nat, j: nat)
    requires
        0 < initial <= maximum,
        delay_after(initial, maximum, k) == maximum,
        k <= j,
    ensures
        delay_after(initial, maximum, j) == maximum,
    decreases j - k,
{
    if j > k {
        lemma_delays_clamped(initial, maximum, k, (j - 1) as nat);
        lemma_delays_monotone(initial, maximum, (j - 1) as nat);
    }
}

} // verus!

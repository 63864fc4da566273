//! Throughput samples per one-second wall-clock window, and the figures that
//! close a session.
use vstd::prelude::*;

verus! {

/// Length of an interval, in microseconds.
pub const INTERVAL_US: u64 = 1_000_000;

/// Bytes observed during one interval.
#[derive(Debug, Clone, Copy, PartialEq, Eq, Structural)]
pub struct IntervalStats {
    /// Ordinal of the interval, from zero.
    pub index: u64,
    /// Bytes sent or received during it.
    pub bytes: u64,
}

impl IntervalStats {
    /// Throughput of the interval in bytes per second: the window is one
    /// second long, so this is its byte count.
    pub fn bytes_per_second(&self) -> (r: u64)
        ensures
            r == self.bytes,
    {
        self.bytes
    }
}

/// Figures of a whole session, computed once at its end.
#[derive(Debug, Clone, Copy, PartialEq, Eq, Structural)]
pub struct SessionSummary {
    /// Data packets sent or received.
    pub packets: u64,
    /// Bytes of those packets.
    pub bytes: u64,
    /// Length of a data packet: configured by the sender, observed on the
    /// first packet by the receiver.
    pub payload_length: u64,
    /// Packets whose sequence number repeated the previous one.
    pub duplicates: u64,
    /// Packets whose sequence number was neither the previous one nor its
    /// successor.
    pub out_of_order: u64,
    /// Messages too short to carry a sequence number, and stray handshake
    /// tokens, seen after the first data packet.
    pub malformed: u64,
    /// Intervals that were closed and sampled.
    pub intervals: u64,
    /// Bytes per second over the closed intervals and the open one.
    pub average_rate: u64,
    /// Whether the session ended through the end-of-session token.
    pub completed: bool,
}

/// Bytes per second over `intervals` full windows and the one still open.
pub open spec fn average_rate_spec(bytes: u64, intervals: u64) -> u64 {
    (bytes as int / (intervals as int + 1)) as u64
}

/// Computes `average_rate_spec`.
pub fn average_rate(bytes: u64, intervals: u64) -> (r: u64)
    ensures
        r == average_rate_spec(bytes, intervals),
{
    if intervals == u64::MAX {
        assert(bytes as int / (intervals as int + 1) == 0) by (nonlinear_arith)
            requires
                bytes <= u64::MAX,
                intervals == u64::MAX,
        ;
        0
    } else {
        bytes / (intervals + 1)
    }
}

/// Splits the wall clock into one-second windows and counts the bytes of the
/// window that is open.
#[derive(Debug, Clone, Copy, PartialEq, Eq, Structural)]
pub struct IntervalClock {
    /// Ordinal of the open window.
    pub index: u64,
    /// Time, in microseconds, at which the open window closes.
    pub boundary_us: u64,
    /// Bytes counted in the open window.
    pub bytes: u64,
}

/// The clock after `bytes` more were counted (the count saturates).
pub open spec fn record_spec(c: IntervalClock, bytes: u64) -> IntervalClock {
    IntervalClock { bytes: c.bytes.saturating_add(bytes), ..c }
}

/// Reading the clock at `now_us`: once the open window's full second has
/// elapsed it is closed, sampled and replaced by the next one.
pub open spec fn tick_spec(c: IntervalClock, now_us: u64) -> (IntervalClock, Option<IntervalStats>) {
    if now_us >= c.boundary_us {
        (
            IntervalClock {
                index: c.index.saturating_add(1),
                boundary_us: c.boundary_us.saturating_add(INTERVAL_US),
                bytes: 0,
            },
            Some(IntervalStats { index: c.index, bytes: c.bytes }),
        )
    } else {
        (c, None)
    }
}

impl IntervalClock {
    /// A clock whose first window opens at `start_us` with `bytes` counted.
    pub fn new(start_us: u64, bytes: u64) -> (r: IntervalClock)
        ensures
            r == (IntervalClock { index: 0, boundary_us: start_us.saturating_add(INTERVAL_US), bytes }),
    {
        IntervalClock { index: 0, boundary_us: start_us.saturating_add(INTERVAL_US), bytes }
    }

    /// Counts `bytes` in the open window.
    pub fn record(&mut self, bytes: u64)
        ensures
            *final(self) == record_spec(*old(self), bytes),
    {
        self.bytes = self.bytes.saturating_add(bytes);
    }

    /// Reads the clock at `now_us`, and returns the sample of the window that
    /// closed, if one did.
    pub fn tick(&mut self, now_us: u64) -> (r: Option<IntervalStats>)
        ensures
            (*final(self), r) == tick_spec(*old(self), now_us),
    {
        if now_us >= self.boundary_us {
            let sample = IntervalStats { index: self.index, bytes: self.bytes };
            self.index = self.index.saturating_add(1);
            self.boundary_us = self.boundary_us.saturating_add(INTERVAL_US);
            self.bytes = 0;
            Some(sample)
        } else {
            None
        }
    }
}

} // verus!

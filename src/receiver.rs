//! Receiver role: waits for the first data packet under a deadline, then
//! sorts every data packet as in order, duplicate or out of order until the
//! end-of-session token arrives.
//!
//! The successor of a sequence number is taken modulo 2^32, so the packet
//! after 0xFFFF_FFFF is in order when it carries 0. A message that is too
//! short to carry a sequence number, or a stray handshake token, is counted
//! as malformed and otherwise ignored; before the first data packet such
//! messages are ignored altogether, and the end-of-session token closes an
//! empty session.
use vstd::prelude::*;
use crate::framer::{Message, message_of, classify_message, frame, exit_token, init_token, lemma_frames_are_not_tokens};
use crate::generator::{sequence_number, lemma_sequence_successor};
use crate::report::{
    IntervalClock, IntervalStats, SessionSummary, INTERVAL_US, average_rate, average_rate_spec,
    record_spec, tick_spec,
};

verus! {

/// Why a receiver gave up.
#[derive(Debug, Clone, Copy, PartialEq, Eq, Structural)]
pub enum ReceiverError {
    /// No data packet arrived before the first-packet deadline.
    NoTraffic,
}

/// How a data packet relates to the one before it.
#[derive(Debug, Clone, Copy, PartialEq, Eq, Structural)]
pub enum Arrival {
    /// It carries the successor of the previous sequence number.
    InOrder,
    /// It carries the previous sequence number again.
    Duplicate,
    /// It carries any other sequence number.
    OutOfOrder,
}

/// Where a receiver stands.
#[derive(Debug, Clone, Copy, PartialEq, Eq, Structural)]
pub enum RecvPhase {
    /// Waiting for the first data packet.
    Sync,
    /// Counting data packets.
    Steady,
    /// The end-of-session token arrived.
    Finished,
    /// The session was given up.
    Failed(ReceiverError),
}

/// What the caller is to do next.
#[derive(Debug, Clone, Copy, PartialEq, Eq, Structural)]
pub enum RecvStatus {
    /// Go on reading.
    Continue,
    /// The session is over; the summary is ready.
    Finished,
    /// The session was given up.
    Failed(ReceiverError),
}

/// A receiver's state.
#[derive(Debug, Clone, Copy, PartialEq, Eq, Structural)]
pub struct Receiver {
    /// Time, in microseconds, by which the first data packet must arrive.
    pub deadline_us: u64,
    pub phase: RecvPhase,
    /// Sequence number of the latest data packet.
    pub previous: u32,
    pub packets: u64,
    pub bytes: u64,
    pub duplicates: u64,
    pub out_of_order: u64,
    pub malformed: u64,
    /// Length of the first data packet.
    pub payload_length: u64,
    pub clock: IntervalClock,
}

/// Duplicates are told apart before anything else.
pub open spec fn arrival_of(previous: u32, current: u32) -> Arrival {
    if current == previous {
        Arrival::Duplicate
    } else if current == previous.wrapping_add(1) {
        Arrival::InOrder
    } else {
        Arrival::OutOfOrder
    }
}

/// Sorts a data packet by its sequence number and the one before it.
pub fn classify(previous: u32, current: u32) -> (r: Arrival)
    ensures
        r == arrival_of(previous, current),
{
    if current == previous {
        Arrival::Duplicate
    } else if current == previous.wrapping_add(1) {
        Arrival::InOrder
    } else {
        Arrival::OutOfOrder
    }
}

/// A fresh receiver, started at `start_us`, that waits `timeout_us` for its
/// first data packet.
pub open spec fn receiver_initial_spec(start_us: u64, timeout_us: u64) -> Receiver {
    Receiver {
        deadline_us: start_us.saturating_add(timeout_us),
        phase: RecvPhase::Sync,
        previous: 0,
        packets: 0,
        bytes: 0,
        duplicates: 0,
        out_of_order: 0,
        malformed: 0,
        payload_length: 0,
        clock: IntervalClock { index: 0, boundary_us: start_us.saturating_add(INTERVAL_US), bytes: 0 },
    }
}

/// The status that a phase reports.
pub open spec fn status_of(phase: RecvPhase) -> RecvStatus {
    match phase {
        RecvPhase::Sync => RecvStatus::Continue,
        RecvPhase::Steady => RecvStatus::Continue,
        RecvPhase::Finished => RecvStatus::Finished,
        RecvPhase::Failed(e) => RecvStatus::Failed(e),
    }
}

/// The state after a data packet of `len` bytes with sequence number `s`
/// arrived in the steady phase.
pub open spec fn after_data(r: Receiver, s: u32, len: u64) -> Receiver {
    let a = arrival_of(r.previous, s);
    Receiver {
        previous: s,
        packets: r.packets.saturating_add(1),
        bytes: r.bytes.saturating_add(len),
        duplicates: if a == Arrival::Duplicate { r.duplicates.saturating_add(1) } else { r.duplicates },
        out_of_order: if a == Arrival::OutOfOrder { r.out_of_order.saturating_add(1) } else { r.out_of_order },
        clock: record_spec(r.clock, len),
        ..r
    }
}

/// The state after message `m` of `len` bytes arrived at `now`.
pub open spec fn receive_spec(r: Receiver, now: u64, m: Message, len: u64) -> Receiver {
    match r.phase {
        RecvPhase::Sync => {
            if now >= r.deadline_us {
                Receiver { phase: RecvPhase::Failed(ReceiverError::NoTraffic), ..r }
            } else {
                match m {
                    Message::Exit => Receiver { phase: RecvPhase::Finished, ..r },
                    Message::Data(s) => Receiver {
                        phase: RecvPhase::Steady,
                        previous: s,
                        packets: 1,
                        bytes: len,
                        payload_length: len,
                        clock: IntervalClock {
                            index: 0,
                            boundary_us: now.saturating_add(INTERVAL_US),
                            bytes: len,
                        },
                        ..r
                    },
                    _ => r,
                }
            }
        },
        RecvPhase::Steady => match m {
            Message::Exit => Receiver { phase: RecvPhase::Finished, ..r },
            Message::Data(s) => after_data(r, s, len),
            _ => Receiver { malformed: r.malformed.saturating_add(1), ..r },
        },
        _ => r,
    }
}

/// The state after a read at `now` found nothing to take.
pub open spec fn idle_spec(r: Receiver, now: u64) -> Receiver {
    if r.phase == RecvPhase::Sync && now >= r.deadline_us {
        Receiver { phase: RecvPhase::Failed(ReceiverError::NoTraffic), ..r }
    } else {
        r
    }
}

/// Reading the clock at `now`: only the steady phase is sampled.
pub open spec fn recv_tick_spec(r: Receiver, now: u64) -> (Receiver, Option<IntervalStats>) {
    if r.phase == RecvPhase::Steady {
        let (c, s) = tick_spec(r.clock, now);
        (Receiver { clock: c, ..r }, s)
    } else {
        (r, None)
    }
}

/// The figures of the session so far.
pub open spec fn recv_summary_spec(r: Receiver) -> SessionSummary {
    SessionSummary {
        packets: r.packets,
        bytes: r.bytes,
        payload_length: r.payload_length,
        duplicates: r.duplicates,
        out_of_order: r.out_of_order,
        malformed: r.malformed,
        intervals: r.clock.index,
        average_rate: average_rate_spec(r.bytes, r.clock.index),
        completed: r.phase == RecvPhase::Finished,
    }
}

impl Receiver {
    /// A receiver started at `start_us` that waits `first_packet_timeout_us`
    /// for its first data packet.
    pub fn new(start_us: u64, first_packet_timeout_us: u64) -> (r: Receiver)
        ensures
            r == receiver_initial_spec(start_us, first_packet_timeout_us),
    {
        Receiver {
            deadline_us: start_us.saturating_add(first_packet_timeout_us),
            phase: RecvPhase::Sync,
            previous: 0,
            packets: 0,
            bytes: 0,
            duplicates: 0,
            out_of_order: 0,
            malformed: 0,
            payload_length: 0,
            clock: IntervalClock::new(start_us, 0),
        }
    }

    /// Where the session stands.
    pub fn status(&self) -> (r: RecvStatus)
        ensures
            r == status_of(self.phase),
    {
        match self.phase {
            RecvPhase::Sync => RecvStatus::Continue,
            RecvPhase::Steady => RecvStatus::Continue,
            RecvPhase::Finished => RecvStatus::Finished,
            RecvPhase::Failed(e) => RecvStatus::Failed(e),
        }
    }

    /// Takes in the message `data` that arrived at `now_us`.
    pub fn on_message(&mut self, now_us: u64, data: &[u8]) -> (r: RecvStatus)
        ensures
            *final(self) == receive_spec(*old(self), now_us, message_of(data@), data@.len() as u64),
            r == status_of(final(self).phase),
    {
        let m = classify_message(data);
        let len = data.len() as u64;
        match self.phase {
            RecvPhase::Sync => {
                if now_us >= self.deadline_us {
                    self.phase = RecvPhase::Failed(ReceiverError::NoTraffic);
                } else {
                    match m {
                        Message::Exit => {
                            self.phase = RecvPhase::Finished;
                        },
                        Message::Data(s) => {
                            self.phase = RecvPhase::Steady;
                            self.previous = s;
                            self.packets = 1;
                            self.bytes = len;
                            self.payload_length = len;
                            self.clock = IntervalClock::new(now_us, len);
                        },
                        _ => {},
                    }
                }
            },
            RecvPhase::Steady => {
                match m {
                    Message::Exit => {
                        self.phase = RecvPhase::Finished;
                    },
                    Message::Data(s) => {
                        match classify(self.previous, s) {
                            Arrival::Duplicate => {
                                self.duplicates = self.duplicates.saturating_add(1);
                            },
                            Arrival::OutOfOrder => {
                                self.out_of_order = self.out_of_order.saturating_add(1);
                            },
                            Arrival::InOrder => {},
                        }
                        self.previous = s;
                        self.packets = self.packets.saturating_add(1);
                        self.bytes = self.bytes.saturating_add(len);
                        self.clock.record(len);
                    },
                    _ => {
                        self.malformed = self.malformed.saturating_add(1);
                    },
                }
            },
            _ => {},
        }
        self.status()
    }

    /// Takes in a read at `now_us` that found nothing to take.
    pub fn on_idle(&mut self, now_us: u64) -> (r: RecvStatus)
        ensures
            *final(self) == idle_spec(*old(self), now_us),
            r == status_of(final(self).phase),
    {
        if self.phase == RecvPhase::Sync && now_us >= self.deadline_us {
            self.phase = RecvPhase::Failed(ReceiverError::NoTraffic);
        }
        self.status()
    }

    /// Reads the clock at `now_us`, and returns the sample of the one-second
    /// window that closed, if one did.
    pub fn tick(&mut self, now_us: u64) -> (r: Option<IntervalStats>)
        ensures
            (*final(self), r) == recv_tick_spec(*old(self), now_us),
    {
        if self.phase == RecvPhase::Steady {
            self.clock.tick(now_us)
        } else {
            None
        }
    }

    /// The figures of the session so far: on an abort, what was achieved
    /// before it.
    pub fn summary(&self) -> (r: SessionSummary)
        ensures
            r == recv_summary_spec(*self),
    {
        SessionSummary {
            packets: self.packets,
            bytes: self.bytes,
            payload_length: self.payload_length,
            duplicates: self.duplicates,
            out_of_order: self.out_of_order,
            malformed: self.malformed,
            intervals: self.clock.index,
            average_rate: average_rate(self.bytes, self.clock.index),
            completed: self.phase == RecvPhase::Finished,
        }
    }
}

/// One reading of a receiver to which nothing arrives: the clock is read at
/// `now`, then a read finds nothing.
pub open spec fn silent_step(r: Receiver, now: u64) -> (Receiver, Option<IntervalStats>) {
    let (r1, sample) = recv_tick_spec(r, now);
    (idle_spec(r1, now), sample)
}

/// The state after silent readings at each of `times`.
pub open spec fn silent_run(r: Receiver, times: Seq<u64>) -> Receiver
    decreases times.len(),
{
    if times.len() == 0 {
        r
    } else {
        silent_step(silent_run(r, times.drop_last()), times.last()).0
    }
}

/// A receiver to which no packet arrives emits no interval sample, waits
/// while every reading is before its first-packet deadline, and gives up
/// with `NoTraffic` once a reading reaches the deadline.
pub proof fn lemma_silence_is_no_traffic(start_us: u64, timeout_us: u64, times: Seq<u64>)
    ensures
        ({
            let r0 = receiver_initial_spec(start_us, timeout_us);
            let deadline = start_us.saturating_add(timeout_us);
            &&& forall|i: int|
                0 <= i < times.len() ==> (#[trigger] silent_step(silent_run(r0, times.take(i)), times[i])).1
                    is None
            &&& (forall|i: int| 0 <= i < times.len() ==> times[i] < deadline) ==> silent_run(r0, times).phase
                == RecvPhase::Sync
            &&& (exists|i: int| 0 <= i < times.len() && times[i] >= deadline) ==> silent_run(r0, times).phase
                == RecvPhase::Failed(ReceiverError::NoTraffic)
        }),
    decreases times.len(),
{
    let r0 = receiver_initial_spec(start_us, timeout_us);
    let deadline = start_us.saturating_add(timeout_us);
    lemma_silent_phase(r0, times);
    assert forall|i: int| 0 <= i < times.len() implies (#[trigger] silent_step(
        silent_run(r0, times.take(i)),
        times[i],
    )).1 is None by {
        lemma_silent_phase(r0, times.take(i));
    }
    if exists|i: int| 0 <= i < times.len() && times[i] >= deadline {
        let i = choose|i: int| 0 <= i < times.len() && times[i] >= deadline;
        lemma_silent_fails_after(r0, times, i);
    }
    if forall|i: int| 0 <= i < times.len() ==> times[i] < deadline {
        lemma_silent_waits(r0, times);
    }
}

proof fn lemma_silent_phase(r0: Receiver, times: Seq<u64>)
    requires
        r0.phase == RecvPhase::Sync,
    ensures
        silent_run(r0, times).phase == RecvPhase::Sync || silent_run(r0, times).phase == RecvPhase::Failed(
            ReceiverError::NoTraffic,
        ),
        silent_run(r0, times).deadline_us == r0.deadline_us,
    decreases times.len(),
{
    if times.len() > 0 {
        lemma_silent_phase(r0, times.drop_last());
    }
}

proof fn lemma_silent_waits(r0: Receiver, times: Seq<u64>)
    requires
        r0.phase == RecvPhase::Sync,
        forall|i: int| 0 <= i < times.len() ==> times[i] < r0.deadline_us,
    ensures
        silent_run(r0, times).phase == RecvPhase::Sync,
    decreases times.len(),
{
    if times.len() > 0 {
        lemma_silent_phase(r0, times.drop_last());
        lemma_silent_waits(r0, times.drop_last());
    }
}

proof fn lemma_silent_fails_after(r0: Receiver, times: Seq<u64>, i: int)
    requires
        r0.phase == RecvPhase::Sync,
        0 <= i < times.len(),
        times[i] >= r0.deadline_us,
    ensures
        silent_run(r0, times).phase == RecvPhase::Failed(ReceiverError::NoTraffic),
    decreases times.len(),
{
    lemma_silent_phase(r0, times.drop_last());
    if i < times.len() - 1 {
        lemma_silent_fails_after(r0, times.drop_last(), i);
    }
}

/// The state after `msgs` arrived in turn, each at the matching entry of
/// `times`.
pub open spec fn feed(r: Receiver, msgs: Seq<Seq<u8>>, times: Seq<u64>) -> Receiver
    decreases msgs.len(),
{
    if msgs.len() == 0 {
        r
    } else {
        receive_spec(
            feed(r, msgs.drop_last(), times.drop_last()),
            times.last(),
            message_of(msgs.last()),
            msgs.last().len() as u64,
        )
    }
}

/// The first `n` data packets of a sender, each `len` bytes long.
pub open spec fn in_order_stream(n: nat, len: nat) -> Seq<Seq<u8>> {
    Seq::new(n, |i: int| frame(sequence_number(i as nat), len))
}

/// `x`, held at the largest `u64`.
pub open spec fn saturated(x: int) -> u64 {
    if x > u64::MAX { u64::MAX } else { x as u64 }
}

proof fn lemma_stream_prefix(r0: Receiver, times: Seq<u64>, n: nat, len: nat, k: nat)
    requires
        r0.phase == RecvPhase::Sync,
        r0.packets == 0 && r0.duplicates == 0 && r0.out_of_order == 0 && r0.malformed == 0,
        times.len() == n + 1,
        times[0] < r0.deadline_us,
        len >= 4,
        len <= u64::MAX,
        1 <= k <= n,
        n <= u64::MAX,
    ensures
        ({
            let r = feed(r0, in_order_stream(n, len).take(k as int), times.take(k as int));
            &&& r.phase == RecvPhase::Steady
            &&& r.previous == sequence_number((k - 1) as nat)
            &&& r.packets == k
            &&& r.duplicates == 0
            &&& r.out_of_order == 0
            &&& r.malformed == 0
            &&& r.bytes == saturated((k * len) as int)
            &&& r.payload_length == len
        }),
    decreases k,
{
    let s = in_order_stream(n, len);
    let p = s.take(k as int);
    assert(p.drop_last() =~= s.take(k - 1));
    assert(times.take(k as int).drop_last() =~= times.take(k - 1));
    assert(p.last() == frame(sequence_number((k - 1) as nat), len));
    lemma_frames_are_not_tokens(sequence_number((k - 1) as nat), len);
    assert(frame(sequence_number((k - 1) as nat), len).len() == len);
    if k == 1 {
        assert(s.take(0) =~= Seq::<Seq<u8>>::empty());
        assert(saturated((1 * len) as int) == len);
    } else {
        lemma_stream_prefix(r0, times, n, len, (k - 1) as nat);
        lemma_sequence_successor((k - 2) as nat);
        let a = sequence_number((k - 2) as nat);
        let b = sequence_number((k - 1) as nat);
        assert(b != a) by {
            assert(a < 0xFFFF_FFFFu32 ==> b == a + 1);
            assert(a == 0xFFFF_FFFFu32 ==> b == 0);
        }
        assert(arrival_of(a, b) == Arrival::InOrder);
        let kk = k as int;
        let ll = len as int;
        assert((kk - 1) * ll + ll == kk * ll) by (nonlinear_arith);
        assert((kk - 1) * ll >= 0) by (nonlinear_arith)
            requires
                kk >= 1,
                ll >= 0,
        ;
    }
}

/// A receiver that is handed the first `n` data packets of a sender in
/// order and then the end-of-session token, the first of these messages
/// before its deadline and the others at any time, reports the session
/// complete with `n` packets, no duplicate and no packet out of order.
pub proof fn lemma_in_order_stream(start_us: u64, timeout_us: u64, times: Seq<u64>, n: u64, len: u64)
    requires
        times.len() == n + 1,
        times[0] < start_us.saturating_add(timeout_us),
        len >= 4,
    ensures
        ({
            let r0 = receiver_initial_spec(start_us, timeout_us);
            let msgs = in_order_stream(n as nat, len as nat).push(exit_token());
            let summary = recv_summary_spec(feed(r0, msgs, times));
            &&& summary.completed
            &&& summary.packets == n
            &&& summary.duplicates == 0
            &&& summary.out_of_order == 0
            &&& summary.malformed == 0
            &&& summary.bytes == saturated(n * len)
            &&& n > 0 ==> summary.payload_length == len
        }),
{
    let r0 = receiver_initial_spec(start_us, timeout_us);
    let s = in_order_stream(n as nat, len as nat);
    let msgs = s.push(exit_token());
    assert(msgs.drop_last() =~= s);
    assert(exit_token() != init_token()) by {
        assert(exit_token()[0] != init_token()[0]);
    }
    assert(message_of(exit_token()) == Message::Exit);
    assert(feed(r0, msgs, times) == receive_spec(feed(r0, s, times.drop_last()), times.last(), Message::Exit, 5));
    if n > 0 {
        lemma_stream_prefix(r0, times, n as nat, len as nat, n as nat);
        assert(s.take(n as int) =~= s);
        assert(times.take(n as int) =~= times.drop_last());
    } else {
        assert(s =~= Seq::<Seq<u8>>::empty());
        assert(feed(r0, s, times.drop_last()) == r0);
        assert(n * len == 0) by (nonlinear_arith)
            requires
                n == 0,
        ;
    }
}

} // verus!

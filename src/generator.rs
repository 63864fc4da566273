//! Sender role: a stream of sequence-stamped packets for a fixed duration or
//! count, paced or in a burst, retried under backpressure, closed by the
//! end-of-session token.
//!
//! The first data packet carries sequence number 1; numbers wrap at the
//! 32-bit boundary.
use vstd::prelude::*;
use crate::backoff::{Backoff, backoff_step};
use crate::framer::{frame, encode};
use crate::report::{
    IntervalClock, IntervalStats, SessionSummary, INTERVAL_US, average_rate, average_rate_spec,
    record_spec, tick_spec,
};

verus! {

/// What a sender is asked to do.
#[derive(Debug, Clone, Copy, PartialEq, Eq, Structural)]
pub struct GeneratorConfig {
    /// Length of each data packet, in bytes (at least 4).
    pub packet_length: usize,
    /// Send for this long, in microseconds; without it, no time limit.
    pub duration_us: Option<u64>,
    /// Send this many data packets; without it, no count limit.
    pub count: Option<u64>,
    /// Send at most this many packets per second; without it, a burst.
    pub rate_limit: Option<u64>,
    /// Shortest retry delay, in microseconds.
    pub backoff_floor_us: u64,
    /// Longest retry delay, in microseconds.
    pub backoff_ceiling_us: u64,
    /// Transient failures tolerated in a row for one message; without it,
    /// retries go on until the message is taken.
    pub retry_limit: Option<u64>,
}

/// Why a configuration is refused.
#[derive(Debug, Clone, Copy, PartialEq, Eq, Structural)]
pub enum ConfigError {
    /// The packet length cannot hold a sequence number.
    PacketTooShort,
    /// A rate limit of zero packets per second.
    ZeroRate,
    /// The retry delay's floor lies above its ceiling.
    InvertedBackoff,
}

/// Why a session was aborted.
#[derive(Debug, Clone, Copy, PartialEq, Eq, Structural)]
pub enum SendFailure {
    /// The transport reported an error that retrying cannot mend.
    Fatal,
    /// A message met more transient failures in a row than the retry limit.
    RetriesExhausted,
}

/// Where a sender stands.
#[derive(Debug, Clone, Copy, PartialEq, Eq, Structural)]
pub enum GenPhase {
    /// Sending data packets.
    Data,
    /// Sending the end-of-session token.
    Exit,
    /// The end-of-session token went out.
    Done,
    /// The session was aborted.
    Aborted(SendFailure),
}

/// What the caller is to do next.
#[derive(Debug, Clone, Copy, PartialEq, Eq, Structural)]
pub enum GenAction {
    /// Send the data packet with this sequence number, then report the outcome.
    SendData(u32),
    /// Send the end-of-session token, then report the outcome.
    SendExit,
    /// Wait this many microseconds, then ask again.
    Wait(u64),
    /// The session is over; the summary is ready.
    Finished,
    /// The session was aborted; the summary holds what was achieved.
    Aborted(SendFailure),
}

/// What became of a send.
#[derive(Debug, Clone, Copy, PartialEq, Eq, Structural)]
pub enum SendOutcome {
    /// The transport took the message.
    Sent,
    /// The transport cannot take it now (buffer full, device busy).
    Transient,
    /// The transport failed for good.
    Fatal,
}

/// A sender's state.
#[derive(Debug, Clone, Copy, PartialEq, Eq, Structural)]
pub struct Generator {
    pub config: GeneratorConfig,
    /// Time, in microseconds, at which the session began.
    pub start_us: u64,
    pub phase: GenPhase,
    /// Sequence number of the next data packet, or of the one being retried.
    pub next_sequence: u32,
    /// Data packets taken by the transport.
    pub sent: u64,
    /// Bytes of those packets.
    pub bytes: u64,
    pub backoff: Backoff,
    /// Transient failures in a row of the message in hand.
    pub attempts: u64,
    /// Microseconds to wait before the next attempt.
    pub pending_wait: u64,
    /// Earliest time, in microseconds, for the next data packet when paced.
    pub next_send_us: u64,
    /// Whether a send was asked for and its outcome not yet reported.
    pub in_flight: bool,
    pub clock: IntervalClock,
}

impl GeneratorConfig {
    /// A burst of `packet_length`-byte packets for a duration or a count,
    /// with retry delays from 50 microseconds to 5 milliseconds and no retry
    /// limit.
    pub fn new(packet_length: usize, duration_us: Option<u64>, count: Option<u64>) -> (r: GeneratorConfig)
        ensures
            r == (GeneratorConfig {
                packet_length,
                duration_us,
                count,
                rate_limit: None,
                backoff_floor_us: 50,
                backoff_ceiling_us: 5000,
                retry_limit: None,
            }),
    {
        GeneratorConfig {
            packet_length,
            duration_us,
            count,
            rate_limit: None,
            backoff_floor_us: 50,
            backoff_ceiling_us: 5000,
            retry_limit: None,
        }
    }

    pub open spec fn valid(&self) -> bool {
        &&& self.packet_length >= 4
        &&& self.rate_limit != Some(0u64)
        &&& self.backoff_floor_us <= self.backoff_ceiling_us
    }

    /// Why the configuration is refused, if it is.
    pub open spec fn error_spec(&self) -> Option<ConfigError> {
        if self.packet_length < 4 {
            Some(ConfigError::PacketTooShort)
        } else if self.rate_limit == Some(0u64) {
            Some(ConfigError::ZeroRate)
        } else if self.backoff_floor_us > self.backoff_ceiling_us {
            Some(ConfigError::InvertedBackoff)
        } else {
            None
        }
    }
}

/// Microseconds elapsed from `start` to `now` (none if the clock went back).
pub open spec fn elapsed(start: u64, now: u64) -> u64 {
    if now >= start {
        (now - start) as u64
    } else {
        0
    }
}

/// A fresh sender whose session begins at `start_us`.
pub open spec fn initial_spec(config: GeneratorConfig, start_us: u64) -> Generator {
    Generator {
        config,
        start_us,
        phase: GenPhase::Data,
        next_sequence: 1,
        sent: 0,
        bytes: 0,
        backoff: Backoff {
            current: config.backoff_floor_us,
            floor: config.backoff_floor_us,
            ceiling: config.backoff_ceiling_us,
        },
        attempts: 0,
        pending_wait: 0,
        next_send_us: start_us,
        in_flight: false,
        clock: IntervalClock { index: 0, boundary_us: start_us.saturating_add(INTERVAL_US), bytes: 0 },
    }
}

/// Whether the data phase goes on at `now`: neither the duration nor the
/// count is used up.
pub open spec fn keeps_sending(g: Generator, now: u64) -> bool {
    &&& (g.config.duration_us matches Some(d) ==> elapsed(g.start_us, now) < d)
    &&& (g.config.count matches Some(c) ==> g.sent < c)
}

/// Gap, in microseconds, between two paced packets.
pub open spec fn pacing_gap(rate: u64) -> u64 {
    (INTERVAL_US as int / rate as int) as u64
}

/// The next thing to do at `now`, and the state after deciding it.
pub open spec fn next_spec(g: Generator, now: u64) -> (Generator, GenAction) {
    match g.phase {
        GenPhase::Done => (g, GenAction::Finished),
        GenPhase::Aborted(e) => (g, GenAction::Aborted(e)),
        GenPhase::Data => {
            if g.pending_wait > 0 {
                (Generator { pending_wait: 0, ..g }, GenAction::Wait(g.pending_wait))
            } else if g.attempts > 0 {
                (Generator { in_flight: true, ..g }, GenAction::SendData(g.next_sequence))
            } else if !keeps_sending(g, now) {
                (Generator { phase: GenPhase::Exit, in_flight: true, ..g }, GenAction::SendExit)
            } else if g.config.rate_limit is Some && now < g.next_send_us {
                (g, GenAction::Wait((g.next_send_us - now) as u64))
            } else {
                (Generator { in_flight: true, ..g }, GenAction::SendData(g.next_sequence))
            }
        },
        GenPhase::Exit => {
            if g.pending_wait > 0 {
                (Generator { pending_wait: 0, ..g }, GenAction::Wait(g.pending_wait))
            } else {
                (Generator { in_flight: true, ..g }, GenAction::SendExit)
            }
        },
    }
}

/// The state after a transient failure of the message in hand.
pub open spec fn after_transient(g: Generator) -> Generator {
    if g.config.retry_limit matches Some(l) && g.attempts >= l {
        Generator { phase: GenPhase::Aborted(SendFailure::RetriesExhausted), in_flight: false, ..g }
    } else {
        Generator {
            in_flight: false,
            pending_wait: g.backoff.current,
            backoff: backoff_step(g.backoff, false),
            attempts: g.attempts.saturating_add(1),
            ..g
        }
    }
}

/// The state after a data packet was taken at `now`.
pub open spec fn after_data_sent(g: Generator, now: u64) -> Generator {
    let len = g.config.packet_length as u64;
    Generator {
        in_flight: false,
        sent: g.sent.saturating_add(1),
        bytes: g.bytes.saturating_add(len),
        clock: record_spec(g.clock, len),
        backoff: backoff_step(g.backoff, true),
        next_sequence: g.next_sequence.wrapping_add(1),
        attempts: 0,
        next_send_us: match g.config.rate_limit {
            Some(r) => now.saturating_add(pacing_gap(r)),
            None => g.next_send_us,
        },
        ..g
    }
}

/// The state after the outcome of the asked-for send is reported at `now`.
pub open spec fn result_spec(g: Generator, now: u64, outcome: SendOutcome) -> Generator {
    if !g.in_flight {
        g
    } else {
        match (g.phase, outcome) {
            (GenPhase::Data, SendOutcome::Sent) => after_data_sent(g, now),
            (GenPhase::Exit, SendOutcome::Sent) => Generator {
                phase: GenPhase::Done,
                in_flight: false,
                backoff: backoff_step(g.backoff, true),
                attempts: 0,
                ..g
            },
            (GenPhase::Data, SendOutcome::Transient) => after_transient(g),
            (GenPhase::Exit, SendOutcome::Transient) => after_transient(g),
            (GenPhase::Data, SendOutcome::Fatal) => Generator {
                phase: GenPhase::Aborted(SendFailure::Fatal),
                in_flight: false,
                ..g
            },
            (GenPhase::Exit, SendOutcome::Fatal) => Generator {
                phase: GenPhase::Aborted(SendFailure::Fatal),
                in_flight: false,
                ..g
            },
            _ => Generator { in_flight: false, ..g },
        }
    }
}

/// Reading the clock at `now`: only the data phase is sampled.
pub open spec fn gen_tick_spec(g: Generator, now: u64) -> (Generator, Option<IntervalStats>) {
    if g.phase == GenPhase::Data {
        let (c, s) = tick_spec(g.clock, now);
        (Generator { clock: c, ..g }, s)
    } else {
        (g, None)
    }
}

/// The figures of the session so far.
pub open spec fn gen_summary_spec(g: Generator) -> SessionSummary {
    SessionSummary {
        packets: g.sent,
        bytes: g.bytes,
        payload_length: g.config.packet_length as u64,
        duplicates: 0,
        out_of_order: 0,
        malformed: 0,
        intervals: g.clock.index,
        average_rate: average_rate_spec(g.bytes, g.clock.index),
        completed: g.phase == GenPhase::Done,
    }
}

impl Generator {
    pub open spec fn wf(&self) -> bool {
        &&& self.config.valid()
        &&& self.backoff.wf()
        &&& self.backoff.floor == self.config.backoff_floor_us
        &&& self.backoff.ceiling == self.config.backoff_ceiling_us
    }

    /// A sender whose session begins at `start_us`, or why the configuration
    /// is refused.
    pub fn new(config: GeneratorConfig, start_us: u64) -> (r: Result<Generator, ConfigError>)
        ensures
            config.error_spec() matches Some(e) ==> r == Err::<Generator, ConfigError>(e),
            config.error_spec() is None ==> (r matches Ok(g) && g == initial_spec(config, start_us) && g.wf()),
    {
        if config.packet_length < 4 {
            return Err(ConfigError::PacketTooShort);
        }
        if let Some(rate) = config.rate_limit {
            if rate == 0 {
                return Err(ConfigError::ZeroRate);
            }
        }
        if config.backoff_floor_us > config.backoff_ceiling_us {
            return Err(ConfigError::InvertedBackoff);
        }
        Ok(Generator {
            config,
            start_us,
            phase: GenPhase::Data,
            next_sequence: 1,
            sent: 0,
            bytes: 0,
            backoff: Backoff::new(config.backoff_floor_us, config.backoff_ceiling_us),
            attempts: 0,
            pending_wait: 0,
            next_send_us: start_us,
            in_flight: false,
            clock: IntervalClock::new(start_us, 0),
        })
    }

    /// Decides what to do at `now_us`.
    pub fn next_action(&mut self, now_us: u64) -> (r: GenAction)
        requires
            old(self).wf(),
        ensures
            (*final(self), r) == next_spec(*old(self), now_us),
            final(self).wf(),
    {
        match self.phase {
            GenPhase::Done => GenAction::Finished,
            GenPhase::Aborted(e) => GenAction::Aborted(e),
            GenPhase::Data => {
                if self.pending_wait > 0 {
                    let w = self.pending_wait;
                    self.pending_wait = 0;
                    GenAction::Wait(w)
                } else if self.attempts > 0 {
                    self.in_flight = true;
                    GenAction::SendData(self.next_sequence)
                } else if !self.keeps_sending(now_us) {
                    self.phase = GenPhase::Exit;
                    self.in_flight = true;
                    GenAction::SendExit
                } else if self.config.rate_limit.is_some() && now_us < self.next_send_us {
                    GenAction::Wait(self.next_send_us - now_us)
                } else {
                    self.in_flight = true;
                    GenAction::SendData(self.next_sequence)
                }
            },
            GenPhase::Exit => {
                if self.pending_wait > 0 {
                    let w = self.pending_wait;
                    self.pending_wait = 0;
                    GenAction::Wait(w)
                } else {
                    self.in_flight = true;
                    GenAction::SendExit
                }
            },
        }
    }

    fn keeps_sending(&self, now_us: u64) -> (r: bool)
        ensures
            r == keeps_sending(*self, now_us),
    {
        let within_time = match self.config.duration_us {
            Some(d) => {
                let e = if now_us >= self.start_us { now_us - self.start_us } else { 0 };
                e < d
            },
            None => true,
        };
        let within_count = match self.config.count {
            Some(c) => self.sent < c,
            None => true,
        };
        within_time && within_count
    }

    /// Takes in what became of the send asked for last, reported at `now_us`.
    /// Outside a send in flight it changes nothing.
    pub fn on_send_result(&mut self, now_us: u64, outcome: SendOutcome)
        requires
            old(self).wf(),
        ensures
            *final(self) == result_spec(*old(self), now_us, outcome),
            final(self).wf(),
    {
        if !self.in_flight {
            return;
        }
        self.in_flight = false;
        match outcome {
            SendOutcome::Sent => {
                match self.phase {
                    GenPhase::Data => {
                        let len = self.config.packet_length as u64;
                        self.sent = self.sent.saturating_add(1);
                        self.bytes = self.bytes.saturating_add(len);
                        self.clock.record(len);
                        self.backoff.on_success();
                        self.next_sequence = self.next_sequence.wrapping_add(1);
                        self.attempts = 0;
                        if let Some(rate) = self.config.rate_limit {
                            self.next_send_us = now_us.saturating_add(INTERVAL_US / rate);
                        }
                    },
                    GenPhase::Exit => {
                        self.phase = GenPhase::Done;
                        self.backoff.on_success();
                        self.attempts = 0;
                    },
                    _ => {},
                }
            },
            SendOutcome::Transient => {
                match self.phase {
                    GenPhase::Data | GenPhase::Exit => {
                        let exhausted = match self.config.retry_limit {
                            Some(l) => self.attempts >= l,
                            None => false,
                        };
                        if exhausted {
                            self.phase = GenPhase::Aborted(SendFailure::RetriesExhausted);
                        } else {
                            self.pending_wait = self.backoff.on_failure();
                            self.attempts = self.attempts.saturating_add(1);
                        }
                    },
                    _ => {},
                }
            },
            SendOutcome::Fatal => {
                match self.phase {
                    GenPhase::Data | GenPhase::Exit => {
                        self.phase = GenPhase::Aborted(SendFailure::Fatal);
                    },
                    _ => {},
                }
            },
        }
    }

    /// Reads the clock at `now_us`, and returns the sample of the one-second
    /// window that closed, if one did.
    pub fn tick(&mut self, now_us: u64) -> (r: Option<IntervalStats>)
        ensures
            (*final(self), r) == gen_tick_spec(*old(self), now_us),
            final(self).wf() == old(self).wf(),
    {
        if self.phase == GenPhase::Data {
            self.clock.tick(now_us)
        } else {
            None
        }
    }

    /// The data packet that carries `sequence`.
    pub fn packet(&self, sequence: u32) -> (r: Vec<u8>)
        requires
            self.wf(),
        ensures
            r@ == frame(sequence, self.config.packet_length as nat),
    {
        match encode(sequence, self.config.packet_length) {
            Ok(v) => v,
            Err(_) => Vec::new(),
        }
    }

    /// The figures of the session so far: on an abort, what was achieved
    /// before it.
    pub fn summary(&self) -> (r: SessionSummary)
        ensures
            r == gen_summary_spec(*self),
    {
        SessionSummary {
            packets: self.sent,
            bytes: self.bytes,
            payload_length: self.config.packet_length as u64,
            duplicates: 0,
            out_of_order: 0,
            malformed: 0,
            intervals: self.clock.index,
            average_rate: average_rate(self.bytes, self.clock.index),
            completed: self.phase == GenPhase::Done,
        }
    }
}

/// Sequence number of the data packet sent after `i` others: numbering starts
/// at 1 and wraps at the 32-bit boundary.
pub open spec fn sequence_number(i: nat) -> u32 {
    ((1 + i) % 0x1_0000_0000) as u32
}

/// One round of a sender whose every send is taken at once: decide at `now`,
/// and report a send that was asked for as taken.
pub open spec fn clean_round(g: Generator, now: u64) -> (Generator, GenAction) {
    let (g1, a) = next_spec(g, now);
    if a is SendData || a is SendExit {
        (result_spec(g1, now, SendOutcome::Sent), a)
    } else {
        (g1, a)
    }
}

/// The actions of such rounds, one at each of `times`.
pub open spec fn clean_trace(g: Generator, times: Seq<u64>) -> Seq<GenAction>
    decreases times.len(),
{
    if times.len() == 0 {
        Seq::empty()
    } else {
        seq![clean_round(g, times[0]).1] + clean_trace(clean_round(g, times[0]).0, times.drop_first())
    }
}

/// The state after such rounds, one at each of `times`.
pub open spec fn clean_state(g: Generator, times: Seq<u64>) -> Generator
    decreases times.len(),
{
    if times.len() == 0 {
        g
    } else {
        clean_state(clean_round(g, times[0]).0, times.drop_first())
    }
}

/// A counted burst of `n` packets, `k` of them sent, nothing pending.
spec fn counting(g: Generator, k: nat, n: u64) -> bool {
    &&& g.wf()
    &&& g.config.count == Some(n)
    &&& g.config.duration_us is None
    &&& g.config.rate_limit is None
    &&& g.phase == GenPhase::Data
    &&& g.sent == k
    &&& k <= n
    &&& g.attempts == 0
    &&& g.pending_wait == 0
    &&& !g.in_flight
    &&& g.next_sequence == sequence_number(k)
}

/// Consecutive sequence numbers follow each other modulo 2^32.
pub proof fn lemma_sequence_successor(k: nat)
    ensures
        sequence_number(k).wrapping_add(1) == sequence_number(k + 1),
{
    let m = 0x1_0000_0000int;
    let j = k as int;
    assert((1 + j) % m + 1 == m ==> (2 + j) % m == 0) by (nonlinear_arith)
        requires
            m == 0x1_0000_0000int,
            j >= 0,
    ;
    assert((1 + j) % m + 1 < m ==> (2 + j) % m == (1 + j) % m + 1) by (nonlinear_arith)
        requires
            m == 0x1_0000_0000int,
            j >= 0,
    ;
}

proof fn lemma_counting_trace(g: Generator, times: Seq<u64>, k: nat, n: u64)
    requires
        counting(g, k, n),
        times.len() == n - k + 2,
    ensures
        clean_trace(g, times).len() == n - k + 2,
        forall|i: int|
            0 <= i < n - k ==> #[trigger] clean_trace(g, times)[i] == GenAction::SendData(
                sequence_number((k + i) as nat),
            ),
        clean_trace(g, times)[n - k] == GenAction::SendExit,
        clean_trace(g, times)[n - k + 1] == GenAction::Finished,
        clean_state(g, times).sent == n,
        clean_state(g, times).phase == GenPhase::Done,
    decreases n - k,
{
    let rest_times = times.drop_first();
    let (g1, a) = clean_round(g, times[0]);
    if k < n {
        lemma_sequence_successor(k);
        assert(a == GenAction::SendData(sequence_number(k)));
        assert(counting(g1, k + 1, n));
        lemma_counting_trace(g1, rest_times, k + 1, n);
        let rest = clean_trace(g1, rest_times);
        assert(clean_trace(g, times) == seq![a] + rest);
        assert forall|i: int| 0 <= i < n - k implies #[trigger] clean_trace(g, times)[i]
            == GenAction::SendData(sequence_number((k + i) as nat)) by {
            if i > 0 {
                assert(clean_trace(g, times)[i] == rest[i - 1]);
            }
        }
    } else {
        assert(a == GenAction::SendExit);
        assert(g1.phase == GenPhase::Done);
        assert(g1.sent == n);
        let last_times = rest_times.drop_first();
        assert(last_times.len() == 0);
        let (g2, a2) = clean_round(g1, rest_times[0]);
        assert(a2 == GenAction::Finished);
        assert(g2 == g1);
        assert(clean_trace(g1, rest_times) =~= seq![GenAction::Finished]) by {
            assert(clean_trace(g2, last_times) =~= Seq::<GenAction>::empty());
        }
        assert(clean_state(g1, rest_times) == g2) by {
            assert(clean_state(g2, last_times) == g2);
        }
        assert(clean_trace(g, times) =~= seq![GenAction::SendExit, GenAction::Finished]);
    }
}

/// A sender told to send `n` packets, with no time limit and no pacing,
/// whose every send is taken, asks in its first `n + 2` rounds, whatever the
/// clock reads at each, for exactly `n` data packets numbered from 1, then
/// for one end-of-session token, and then reports the session finished with
/// `n` packets sent.
pub proof fn lemma_counted_run(config: GeneratorConfig, start_us: u64, times: Seq<u64>, n: u64)
    requires
        config.valid(),
        config.count == Some(n),
        config.duration_us is None,
        config.rate_limit is None,
        times.len() == n + 2,
    ensures
        ({
            let g = initial_spec(config, start_us);
            let t = clean_trace(g, times);
            &&& t.len() == n + 2
            &&& forall|i: int| 0 <= i < n ==> #[trigger] t[i] == GenAction::SendData(sequence_number(i as nat))
            &&& t[n as int] == GenAction::SendExit
            &&& t[n + 1] == GenAction::Finished
            &&& gen_summary_spec(clean_state(g, times)).packets == n
            &&& gen_summary_spec(clean_state(g, times)).completed
        }),
{
    let g = initial_spec(config, start_us);
    assert(sequence_number(0) == 1);
    assert(counting(g, 0, n));
    lemma_counting_trace(g, times, 0, n);
}

} // verus!

//! Traffic engine of a two-role network throughput probe.
//!
//! A sender and a receiver first agree through a short handshake, then the
//! sender emits a paced or burst stream of sequence-stamped packets while the
//! receiver measures loss, duplication, reordering and throughput.
//!
//! Every component is a state machine that decides what to do next from plain
//! values (the clock reading, the bytes that arrived, the outcome of a send).
//! The caller owns the socket and the clock, performs each action and hands
//! back the outcome.
pub mod framer;
pub mod backoff;
pub mod report;
pub mod generator;
pub mod receiver;
pub mod handshake;

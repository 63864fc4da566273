//! Rendezvous before a measurement: the sender sends the handshake token
//! once and waits for it to come back; the receiver waits for it and echoes
//! it. Only the first payload counts, and it must be the token exactly.
use vstd::prelude::*;
use crate::framer::{init_token, is_init};

verus! {

/// Which end of the measurement a peer is.
#[derive(Debug, Clone, Copy, PartialEq, Eq, Structural)]
pub enum Role {
    Sender,
    Receiver,
}

/// Why a handshake failed.
#[derive(Debug, Clone, Copy, PartialEq, Eq, Structural)]
pub enum HandshakeError {
    /// Nothing arrived before the deadline.
    Timeout,
    /// The first payload was not the handshake token.
    UnexpectedReply,
}

/// Where a handshake stands.
#[derive(Debug, Clone, Copy, PartialEq, Eq, Structural)]
pub enum HsPhase {
    Waiting,
    Ready,
    Failed(HandshakeError),
}

/// What the caller is to do next.
#[derive(Debug, Clone, Copy, PartialEq, Eq, Structural)]
pub enum HandshakeAction {
    /// Send the handshake token to the peer, then listen.
    SendToken,
    /// Read from the peer and report what came, or that nothing did.
    Listen,
    /// Send the handshake token back to where it came from; the data phase
    /// then begins.
    EchoToken,
    /// The peer is there; the data phase begins.
    Ready,
    /// The handshake failed.
    Failed(HandshakeError),
}

/// A handshake's state.
#[derive(Debug, Clone, Copy, PartialEq, Eq, Structural)]
pub struct Negotiator {
    pub role: Role,
    /// Time, in microseconds, by which the peer must have answered.
    pub deadline_us: u64,
    pub phase: HsPhase,
}

/// A handshake started at `start_us` that waits `timeout_us` for the peer.
pub open spec fn negotiator_initial_spec(role: Role, start_us: u64, timeout_us: u64) -> Negotiator {
    Negotiator { role, deadline_us: start_us.saturating_add(timeout_us), phase: HsPhase::Waiting }
}

/// The action that a settled phase reports, or what to do while waiting.
pub open spec fn hs_status(phase: HsPhase) -> HandshakeAction {
    match phase {
        HsPhase::Waiting => HandshakeAction::Listen,
        HsPhase::Ready => HandshakeAction::Ready,
        HsPhase::Failed(e) => HandshakeAction::Failed(e),
    }
}

/// The state and the action after `payload` arrived at `now`.
pub open spec fn payload_spec(n: Negotiator, now: u64, payload: Seq<u8>) -> (Negotiator, HandshakeAction) {
    if n.phase != HsPhase::Waiting {
        (n, hs_status(n.phase))
    } else if now >= n.deadline_us {
        (
            Negotiator { phase: HsPhase::Failed(HandshakeError::Timeout), ..n },
            HandshakeAction::Failed(HandshakeError::Timeout),
        )
    } else if payload == init_token() {
        (
            Negotiator { phase: HsPhase::Ready, ..n },
            if n.role == Role::Sender { HandshakeAction::Ready } else { HandshakeAction::EchoToken },
        )
    } else {
        (
            Negotiator { phase: HsPhase::Failed(HandshakeError::UnexpectedReply), ..n },
            HandshakeAction::Failed(HandshakeError::UnexpectedReply),
        )
    }
}

/// The state and the action after a read at `now` found nothing.
pub open spec fn silence_spec(n: Negotiator, now: u64) -> (Negotiator, HandshakeAction) {
    if n.phase == HsPhase::Waiting && now >= n.deadline_us {
        (
            Negotiator { phase: HsPhase::Failed(HandshakeError::Timeout), ..n },
            HandshakeAction::Failed(HandshakeError::Timeout),
        )
    } else {
        (n, hs_status(n.phase))
    }
}

impl Negotiator {
    /// A handshake in `role` started at `start_us` that waits `timeout_us`
    /// for the peer.
    pub fn new(role: Role, start_us: u64, timeout_us: u64) -> (r: Negotiator)
        ensures
            r == negotiator_initial_spec(role, start_us, timeout_us),
    {
        Negotiator { role, deadline_us: start_us.saturating_add(timeout_us), phase: HsPhase::Waiting }
    }

    /// The first thing to do: the sender sends the token, the receiver
    /// listens.
    pub fn opening(&self) -> (r: HandshakeAction)
        ensures
            r == (if self.role == Role::Sender { HandshakeAction::SendToken } else { HandshakeAction::Listen }),
    {
        match self.role {
            Role::Sender => HandshakeAction::SendToken,
            Role::Receiver => HandshakeAction::Listen,
        }
    }

    /// Takes in the payload that arrived at `now_us`.
    pub fn on_payload(&mut self, now_us: u64, payload: &[u8]) -> (r: HandshakeAction)
        ensures
            (*final(self), r) == payload_spec(*old(self), now_us, payload@),
    {
        match self.phase {
            HsPhase::Waiting => {},
            HsPhase::Ready => {
                return HandshakeAction::Ready;
            },
            HsPhase::Failed(e) => {
                return HandshakeAction::Failed(e);
            },
        }
        if now_us >= self.deadline_us {
            self.phase = HsPhase::Failed(HandshakeError::Timeout);
            HandshakeAction::Failed(HandshakeError::Timeout)
        } else if is_init(payload) {
            self.phase = HsPhase::Ready;
            match self.role {
                Role::Sender => HandshakeAction::Ready,
                Role::Receiver => HandshakeAction::EchoToken,
            }
        } else {
            self.phase = HsPhase::Failed(HandshakeError::UnexpectedReply);
            HandshakeAction::Failed(HandshakeError::UnexpectedReply)
        }
    }

    /// Takes in a read at `now_us` that found nothing.
    pub fn on_silence(&mut self, now_us: u64) -> (r: HandshakeAction)
        ensures
            (*final(self), r) == silence_spec(*old(self), now_us),
    {
        match self.phase {
            HsPhase::Waiting => {
                if now_us >= self.deadline_us {
                    self.phase = HsPhase::Failed(HandshakeError::Timeout);
                    HandshakeAction::Failed(HandshakeError::Timeout)
                } else {
                    HandshakeAction::Listen
                }
            },
            HsPhase::Ready => HandshakeAction::Ready,
            HsPhase::Failed(e) => HandshakeAction::Failed(e),
        }
    }
}

/// The first payload settles a handshake for good: before the deadline it
/// succeeds exactly when the payload is the token, and nothing that arrives
/// afterwards changes the outcome.
pub proof fn lemma_first_payload_decides(
    role: Role,
    start_us: u64,
    timeout_us: u64,
    now: u64,
    first: Seq<u8>,
    later_now: u64,
    later: Seq<u8>,
)
    requires
        now < start_us.saturating_add(timeout_us),
    ensures
        ({
            let (n1, a1) = payload_spec(negotiator_initial_spec(role, start_us, timeout_us), now, first);
            &&& (n1.phase == HsPhase::Ready) == (first == init_token())
            &&& (first != init_token() ==> a1 == HandshakeAction::Failed(HandshakeError::UnexpectedReply))
            &&& payload_spec(n1, later_now, later).0 == n1
            &&& silence_spec(n1, later_now).0 == n1
        }),
{
}

} // verus!

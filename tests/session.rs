use std::collections::VecDeque;

use nettest::framer::exit_token_bytes;
use nettest::generator::{GenAction, Generator, GeneratorConfig, SendOutcome};
use nettest::handshake::{HandshakeAction, Negotiator, Role};
use nettest::receiver::{Receiver, RecvStatus};

/// Runs a sender and a receiver over a lossless in-order loopback with a
/// shared fake clock that advances `step_us` per attempted send.
fn loopback(duration_us: u64, packet_length: usize, step_us: u64, busy_every: u64) -> (u64, nettest::report::SessionSummary, nettest::report::SessionSummary, u64) {
    let mut now = 0u64;
    let mut wire: VecDeque<Vec<u8>> = VecDeque::new();

    let mut client = Negotiator::new(Role::Sender, now, 5_000_000);
    let mut server = Negotiator::new(Role::Receiver, now, 5_000_000);
    assert_eq!(client.opening(), HandshakeAction::SendToken);
    assert_eq!(server.on_payload(now, b"Init\n"), HandshakeAction::EchoToken);
    assert_eq!(client.on_payload(now, b"Init\n"), HandshakeAction::Ready);

    let mut g = Generator::new(GeneratorConfig::new(packet_length, Some(duration_us), None), now).unwrap();
    let mut r = Receiver::new(now, 5_000_000);
    let mut samples = 0u64;
    let mut attempts = 0u64;
    loop {
        if g.tick(now).is_some() {
            samples += 1;
        }
        match g.next_action(now) {
            GenAction::SendData(seq) => {
                attempts += 1;
                if busy_every > 0 && attempts % busy_every == 0 {
                    g.on_send_result(now, SendOutcome::Transient);
                } else {
                    wire.push_back(g.packet(seq));
                    g.on_send_result(now, SendOutcome::Sent);
                }
                now += step_us;
            }
            GenAction::SendExit => {
                wire.push_back(exit_token_bytes());
                g.on_send_result(now, SendOutcome::Sent);
            }
            GenAction::Wait(us) => now += us,
            GenAction::Finished => break,
            GenAction::Aborted(e) => panic!("sender aborted: {:?}", e),
        }
        while let Some(m) = wire.pop_front() {
            r.tick(now);
            assert_ne!(r.on_message(now, &m), RecvStatus::Failed(nettest::receiver::ReceiverError::NoTraffic));
        }
    }
    assert_eq!(r.status(), RecvStatus::Finished);
    (g.summary().packets, g.summary(), r.summary(), samples)
}

#[test]
fn three_second_burst_is_received_whole() {
    let (sent, gs, rs, samples) = loopback(3_000_000, 64, 100, 0);
    assert_eq!(sent, 30_000);
    assert_eq!(rs.packets, gs.packets);
    assert_eq!(rs.duplicates, 0);
    assert_eq!(rs.out_of_order, 0);
    assert_eq!(rs.bytes, gs.bytes);
    assert_eq!(rs.payload_length, 64);
    assert!(gs.completed && rs.completed);
    assert_eq!(samples, 3);
}

#[test]
fn backpressure_loses_no_packet() {
    let (_sent, gs, rs, _samples) = loopback(1_000_000, 32, 250, 7);
    assert!(gs.packets > 0);
    assert_eq!(rs.packets, gs.packets);
    assert_eq!(rs.duplicates, 0);
    assert_eq!(rs.out_of_order, 0);
}

use nettest::generator::{GenAction, Generator, GeneratorConfig};
use nettest::handshake::{HandshakeAction, HandshakeError, Negotiator, Role};

#[test]
fn wrong_reply_fails_sender_and_sends_no_data() {
    let mut sent_data = 0;
    let mut sent_tokens = Vec::new();
    let mut n = Negotiator::new(Role::Sender, 0, 5_000_000);
    assert_eq!(n.opening(), HandshakeAction::SendToken);
    sent_tokens.push(b"Init\n".to_vec());
    let outcome = n.on_payload(1_000, b"wrong\n");
    assert_eq!(outcome, HandshakeAction::Failed(HandshakeError::UnexpectedReply));
    if outcome == HandshakeAction::Ready {
        let mut g = Generator::new(GeneratorConfig::new(64, None, Some(3)), 1_000).unwrap();
        while let GenAction::SendData(_) = g.next_action(1_000) {
            sent_data += 1;
        }
    }
    assert_eq!(sent_data, 0);
    assert_eq!(sent_tokens, vec![b"Init\n".to_vec()]);
    assert_eq!(n.on_payload(2_000, b"Init\n"), HandshakeAction::Failed(HandshakeError::UnexpectedReply));
}

#[test]
fn matching_reply_makes_sender_ready() {
    let mut n = Negotiator::new(Role::Sender, 0, 5_000_000);
    assert_eq!(n.on_silence(100), HandshakeAction::Listen);
    assert_eq!(n.on_payload(200, b"Init\n"), HandshakeAction::Ready);
    assert_eq!(n.on_silence(10_000_000), HandshakeAction::Ready);
}

#[test]
fn no_reply_before_deadline_times_out() {
    let mut n = Negotiator::new(Role::Sender, 1_000, 5_000_000);
    assert_eq!(n.on_silence(5_000_999), HandshakeAction::Listen);
    assert_eq!(n.on_silence(5_001_000), HandshakeAction::Failed(HandshakeError::Timeout));
    assert_eq!(n.on_payload(5_001_001, b"Init\n"), HandshakeAction::Failed(HandshakeError::Timeout));
}

#[test]
fn late_reply_times_out() {
    let mut n = Negotiator::new(Role::Sender, 0, 10);
    assert_eq!(n.on_payload(10, b"Init\n"), HandshakeAction::Failed(HandshakeError::Timeout));
}

#[test]
fn receiver_echoes_token() {
    let mut n = Negotiator::new(Role::Receiver, 0, 5_000_000);
    assert_eq!(n.opening(), HandshakeAction::Listen);
    assert_eq!(n.on_payload(10, b"Init\n"), HandshakeAction::EchoToken);
    assert_eq!(n.on_silence(20), HandshakeAction::Ready);
}

#[test]
fn receiver_rejects_first_wrong_payload() {
    let mut n = Negotiator::new(Role::Receiver, 0, 5_000_000);
    assert_eq!(n.on_payload(10, b"Init"), HandshakeAction::Failed(HandshakeError::UnexpectedReply));
    assert_eq!(n.on_payload(20, b"Init\n"), HandshakeAction::Failed(HandshakeError::UnexpectedReply));
}

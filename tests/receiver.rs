use nettest::framer::encode;
use nettest::receiver::{classify, Arrival, Receiver, ReceiverError, RecvStatus};
use nettest::report::IntervalStats;

fn packet(seq: u32) -> Vec<u8> {
    encode(seq, 64).unwrap()
}

#[test]
fn duplicate_and_gap_are_counted() {
    let mut r = Receiver::new(0, 5_000_000);
    for seq in [1u32, 2, 2, 4] {
        assert_eq!(r.on_message(10, &packet(seq)), RecvStatus::Continue);
    }
    assert_eq!(r.on_message(10, b"exit\n"), RecvStatus::Finished);
    let s = r.summary();
    assert_eq!(s.duplicates, 1);
    assert_eq!(s.out_of_order, 1);
    assert_eq!(s.packets, 4);
    assert_eq!(s.bytes, 256);
    assert_eq!(s.payload_length, 64);
    assert!(s.completed);
}

#[test]
fn silence_until_deadline_is_no_traffic() {
    let mut r = Receiver::new(1_000, 5_000_000);
    let mut samples = 0;
    let mut now = 1_000u64;
    let status = loop {
        if r.tick(now).is_some() {
            samples += 1;
        }
        let st = r.on_idle(now);
        if st != RecvStatus::Continue {
            break st;
        }
        now += 250_000;
    };
    assert_eq!(status, RecvStatus::Failed(ReceiverError::NoTraffic));
    assert_eq!(now, 5_001_000);
    assert_eq!(samples, 0);
    assert_eq!(r.summary().packets, 0);
    assert!(!r.summary().completed);
}

#[test]
fn packet_after_deadline_is_no_traffic() {
    let mut r = Receiver::new(0, 100);
    assert_eq!(r.on_message(100, &packet(1)), RecvStatus::Failed(ReceiverError::NoTraffic));
    assert_eq!(r.on_message(101, &packet(2)), RecvStatus::Failed(ReceiverError::NoTraffic));
    assert_eq!(r.summary().packets, 0);
}

#[test]
fn first_packet_seeds_the_baseline() {
    let mut r = Receiver::new(0, 1_000);
    assert_eq!(r.on_message(5, &packet(700)), RecvStatus::Continue);
    assert_eq!(r.on_message(6, &packet(701)), RecvStatus::Continue);
    let s = r.summary();
    assert_eq!((s.packets, s.duplicates, s.out_of_order), (2, 0, 0));
    assert_eq!(r.previous, 701);
}

#[test]
fn baseline_follows_latest_even_after_anomaly() {
    let mut r = Receiver::new(0, 1_000);
    for seq in [5u32, 9, 10, 3, 4, 4] {
        r.on_message(1, &packet(seq));
    }
    let s = r.summary();
    assert_eq!(s.packets, 6);
    assert_eq!(s.out_of_order, 2);
    assert_eq!(s.duplicates, 1);
}

#[test]
fn short_messages_before_first_packet_are_ignored() {
    let mut r = Receiver::new(0, 1_000);
    assert_eq!(r.on_message(1, &[1, 2]), RecvStatus::Continue);
    assert_eq!(r.on_message(1, b"Init\n"), RecvStatus::Continue);
    assert_eq!(r.summary().packets, 0);
    assert_eq!(r.on_message(2, &packet(1)), RecvStatus::Continue);
    assert_eq!(r.summary().packets, 1);
    assert_eq!(r.summary().malformed, 0);
}

#[test]
fn short_messages_in_steady_state_are_malformed() {
    let mut r = Receiver::new(0, 1_000);
    r.on_message(1, &packet(1));
    r.on_message(2, &[9, 9, 9]);
    r.on_message(2, b"Init\n");
    r.on_message(3, &packet(2));
    let s = r.summary();
    assert_eq!(s.packets, 2);
    assert_eq!(s.malformed, 2);
    assert_eq!(s.out_of_order, 0);
    assert_eq!(s.bytes, 128);
}

#[test]
fn exit_before_any_packet_ends_empty_session() {
    let mut r = Receiver::new(0, 1_000);
    assert_eq!(r.on_message(1, b"exit\n"), RecvStatus::Finished);
    let s = r.summary();
    assert!(s.completed);
    assert_eq!(s.packets, 0);
}

#[test]
fn messages_after_exit_change_nothing() {
    let mut r = Receiver::new(0, 1_000);
    r.on_message(1, &packet(1));
    r.on_message(1, b"exit\n");
    let before = r.summary();
    assert_eq!(r.on_message(2, &packet(2)), RecvStatus::Finished);
    assert_eq!(r.on_idle(5_000), RecvStatus::Finished);
    assert_eq!(r.summary(), before);
}

#[test]
fn classification_uses_modular_successor() {
    assert_eq!(classify(u32::MAX, 0), Arrival::InOrder);
    assert_eq!(classify(7, 8), Arrival::InOrder);
    assert_eq!(classify(7, 7), Arrival::Duplicate);
    assert_eq!(classify(7, 6), Arrival::OutOfOrder);
    assert_eq!(classify(7, 9), Arrival::OutOfOrder);
    assert_eq!(classify(0, u32::MAX), Arrival::OutOfOrder);
}

#[test]
fn wrapped_stream_is_in_order() {
    let mut r = Receiver::new(0, 1_000);
    for seq in [u32::MAX - 1, u32::MAX, 0, 1] {
        r.on_message(1, &packet(seq));
    }
    let s = r.summary();
    assert_eq!((s.packets, s.duplicates, s.out_of_order), (4, 0, 0));
}

#[test]
fn receiver_samples_from_first_packet() {
    let mut r = Receiver::new(0, 10_000_000);
    assert_eq!(r.tick(3_000_000), None);
    r.on_message(2_000_000, &packet(1));
    assert_eq!(r.tick(2_500_000), None);
    r.on_message(2_600_000, &packet(2));
    assert_eq!(r.tick(3_000_000), Some(IntervalStats { index: 0, bytes: 128 }));
    r.on_message(3_100_000, &packet(3));
    assert_eq!(r.tick(3_999_999), None);
    assert_eq!(r.tick(4_000_000), Some(IntervalStats { index: 1, bytes: 64 }));
    r.on_message(4_100_000, b"exit\n");
    assert_eq!(r.tick(9_000_000), None);
    let s = r.summary();
    assert_eq!(s.intervals, 2);
    assert_eq!(s.bytes, 192);
    assert_eq!(s.average_rate, 64);
}

#[test]
fn sample_rate_is_bytes_per_second() {
    let s = IntervalStats { index: 3, bytes: 12_345 };
    assert_eq!(s.bytes_per_second(), 12_345);
}

use romi_core::kobuki::poller::{
    PollError, PollEvent, PollStatus, ReceiveStateType, SensorPoller, TransportError,
};
use romi_core::kobuki::sensors::Sensors;
use romi_core::kobuki::utilities::frame;

const INERTIAL: [u8; 9] = [0x04, 0x07, 0x10, 0x27, 0xFE, 0xFF, 0, 0, 0];

/// Feeds one frame read by read; `flip` is xor-ed into the checksum byte.
fn feed(poller: &mut SensorPoller, sensors: &mut Sensors, payload: &[u8], flip: u8) -> PollStatus {
    let whole = frame(payload);
    assert_eq!(poller.next_read(), 2);
    let mut status = poller.step(PollEvent::Bytes(whole[0..2].to_vec()), sensors);
    assert_eq!(status, PollStatus::Pending);
    assert_eq!(poller.next_read(), 1);
    status = poller.step(PollEvent::Bytes(whole[2..3].to_vec()), sensors);
    assert_eq!(status, PollStatus::Pending);
    if !payload.is_empty() {
        assert_eq!(poller.state(), ReceiveStateType::ReadPayload);
        assert_eq!(poller.next_read(), payload.len());
        status = poller.step(PollEvent::Bytes(payload.to_vec()), sensors);
        assert_eq!(status, PollStatus::Pending);
    }
    assert_eq!(poller.state(), ReceiveStateType::ReadChecksum);
    assert_eq!(poller.next_read(), 1);
    let check: u8 = whole[whole.len() - 1] ^ flip;
    poller.step(PollEvent::Bytes(vec![check]), sensors)
}

#[test]
fn a_good_frame_is_decoded() {
    let mut poller = SensorPoller::new();
    let mut sensors = Sensors::default();
    assert_eq!(poller.state(), ReceiveStateType::WaitUntilAa);
    assert_eq!(feed(&mut poller, &mut sensors, &INERTIAL, 0), PollStatus::Done);
    assert_eq!(sensors.angle, 10000);
    assert_eq!(sensors.angle_rate, -2);
    // ready for the next poll
    assert_eq!(poller.state(), ReceiveStateType::WaitUntilAa);
    assert_eq!(poller.checksum_failures(), 0);
    assert_eq!(poller.next_read(), 2);
}

#[test]
fn a_frame_without_payload_is_done_and_changes_nothing() {
    let mut poller = SensorPoller::new();
    let mut sensors = Sensors::default();
    sensors.angle = 3;
    assert_eq!(feed(&mut poller, &mut sensors, &[], 0), PollStatus::Done);
    assert_eq!(sensors.angle, 3);
}

#[test]
fn four_checksum_failures_end_the_poll() {
    let mut poller = SensorPoller::new();
    let mut sensors = Sensors::default();
    sensors.angle = 42;
    let before = sensors;
    for n in 1..=3u8 {
        assert_eq!(feed(&mut poller, &mut sensors, &INERTIAL, 0x01), PollStatus::Pending);
        assert_eq!(poller.checksum_failures(), n);
        assert_eq!(poller.state(), ReceiveStateType::WaitUntilAa);
        assert_eq!(sensors, before);
    }
    assert_eq!(
        feed(&mut poller, &mut sensors, &INERTIAL, 0x80),
        PollStatus::Failed(PollError::ChecksumFailures)
    );
    assert_eq!(sensors, before);
    assert_eq!(poller.checksum_failures(), 0);
}

#[test]
fn three_checksum_failures_are_forgiven() {
    let mut poller = SensorPoller::new();
    let mut sensors = Sensors::default();
    for _ in 0..3 {
        assert_eq!(feed(&mut poller, &mut sensors, &INERTIAL, 0xFF), PollStatus::Pending);
    }
    assert_eq!(feed(&mut poller, &mut sensors, &INERTIAL, 0), PollStatus::Done);
    assert_eq!(sensors.angle, 10000);
}

#[test]
fn bytes_that_are_no_sync_pair_are_passed_over() {
    let mut poller = SensorPoller::new();
    let mut sensors = Sensors::default();
    for pair in [[0x00u8, 0x00], [0x55, 0xAA], [0xAA, 0xAA], [0xAA, 0x54]].iter() {
        assert_eq!(poller.step(PollEvent::Bytes(pair.to_vec()), &mut sensors), PollStatus::Pending);
        assert_eq!(poller.state(), ReceiveStateType::WaitUntilAa);
    }
    assert_eq!(feed(&mut poller, &mut sensors, &INERTIAL, 0), PollStatus::Done);
}

#[test]
fn twenty_failed_reads_end_the_poll() {
    let mut poller = SensorPoller::new();
    let mut sensors = Sensors::default();
    for _ in 0..19 {
        assert_eq!(
            poller.step(PollEvent::Failed(TransportError::Timeout(0)), &mut sensors),
            PollStatus::Pending
        );
    }
    assert_eq!(
        poller.step(PollEvent::Failed(TransportError::Receive), &mut sensors),
        PollStatus::Failed(PollError::NoResponse(TransportError::Receive))
    );
    assert_eq!(sensors, Sensors::default());
}

#[test]
fn a_good_read_starts_the_count_of_failed_reads_anew() {
    let mut poller = SensorPoller::new();
    let mut sensors = Sensors::default();
    for _ in 0..19 {
        assert_eq!(
            poller.step(PollEvent::Failed(TransportError::Receive), &mut sensors),
            PollStatus::Pending
        );
    }
    assert_eq!(poller.step(PollEvent::Bytes(vec![0x00, 0x00]), &mut sensors), PollStatus::Pending);
    for _ in 0..19 {
        assert_eq!(
            poller.step(PollEvent::Failed(TransportError::Receive), &mut sensors),
            PollStatus::Pending
        );
    }
    assert_eq!(
        poller.step(PollEvent::Failed(TransportError::Transmit), &mut sensors),
        PollStatus::Failed(PollError::NoResponse(TransportError::Transmit))
    );
}

#[test]
fn an_oversized_length_ends_the_poll() {
    let mut poller = SensorPoller::new();
    let mut sensors = Sensors::default();
    assert_eq!(poller.step(PollEvent::Bytes(vec![0xAA, 0x55]), &mut sensors), PollStatus::Pending);
    assert_eq!(poller.state(), ReceiveStateType::ReadLength);
    assert_eq!(
        poller.step(PollEvent::Bytes(vec![137]), &mut sensors),
        PollStatus::Failed(PollError::OversizedPacket(137))
    );
    assert_eq!(poller.state(), ReceiveStateType::WaitUntilAa);
}

#[test]
fn the_longest_payload_is_taken() {
    let mut poller = SensorPoller::new();
    let mut sensors = Sensors::default();
    // one unrecognized record that fills the payload
    let mut payload: Vec<u8> = vec![0x7E, 134];
    payload.extend_from_slice(&[0x33u8; 134]);
    assert_eq!(payload.len(), 136);
    assert_eq!(feed(&mut poller, &mut sensors, &payload, 0), PollStatus::Done);
    assert_eq!(sensors, Sensors::default());
}

#[test]
fn a_failed_read_within_a_frame_ends_the_poll() {
    let mut poller = SensorPoller::new();
    let mut sensors = Sensors::default();
    assert_eq!(poller.step(PollEvent::Bytes(vec![0xAA, 0x55]), &mut sensors), PollStatus::Pending);
    assert_eq!(
        poller.step(PollEvent::Failed(TransportError::Timeout(0)), &mut sensors),
        PollStatus::Failed(PollError::Transport(TransportError::Timeout(0)))
    );
    assert_eq!(poller.step(PollEvent::Bytes(vec![0xAA, 0x55]), &mut sensors), PollStatus::Pending);
    assert_eq!(poller.step(PollEvent::Bytes(vec![2]), &mut sensors), PollStatus::Pending);
    assert_eq!(
        poller.step(PollEvent::Failed(TransportError::RxBufferTooLong), &mut sensors),
        PollStatus::Failed(PollError::Transport(TransportError::RxBufferTooLong))
    );
    assert_eq!(poller.step(PollEvent::Bytes(vec![0xAA, 0x55]), &mut sensors), PollStatus::Pending);
    assert_eq!(poller.step(PollEvent::Bytes(vec![1]), &mut sensors), PollStatus::Pending);
    assert_eq!(poller.step(PollEvent::Bytes(vec![9]), &mut sensors), PollStatus::Pending);
    assert_eq!(
        poller.step(PollEvent::Failed(TransportError::BufferNotInRAM), &mut sensors),
        PollStatus::Failed(PollError::Transport(TransportError::BufferNotInRAM))
    );
    assert_eq!(poller.step(PollEvent::Bytes(vec![0xAA, 0x55]), &mut sensors), PollStatus::Pending);
    assert_eq!(
        poller.step(PollEvent::Failed(TransportError::TxBufferTooLong), &mut sensors),
        PollStatus::Failed(PollError::Transport(TransportError::TxBufferTooLong))
    );
}

#[test]
fn a_delivery_of_the_wrong_size_counts_as_a_failed_receive() {
    let mut poller = SensorPoller::new();
    let mut sensors = Sensors::default();
    // three bytes where two were wanted: a failed read while waiting for sync
    assert_eq!(
        poller.step(PollEvent::Bytes(vec![0xAA, 0x55, 0x00]), &mut sensors),
        PollStatus::Pending
    );
    assert_eq!(poller.state(), ReceiveStateType::WaitUntilAa);
    assert_eq!(poller.step(PollEvent::Bytes(vec![0xAA, 0x55]), &mut sensors), PollStatus::Pending);
    assert_eq!(
        poller.step(PollEvent::Bytes(vec![]), &mut sensors),
        PollStatus::Failed(PollError::Transport(TransportError::Receive))
    );
}

#[test]
fn a_corrupted_payload_is_not_applied() {
    let mut poller = SensorPoller::new();
    let mut sensors = Sensors::default();
    let whole = frame(&INERTIAL);
    let mut bad_payload: Vec<u8> = INERTIAL.to_vec();
    bad_payload[2] ^= 0x04;
    poller.step(PollEvent::Bytes(vec![0xAA, 0x55]), &mut sensors);
    poller.step(PollEvent::Bytes(vec![9]), &mut sensors);
    poller.step(PollEvent::Bytes(bad_payload), &mut sensors);
    let status = poller.step(PollEvent::Bytes(vec![whole[whole.len() - 1]]), &mut sensors);
    assert_eq!(status, PollStatus::Pending);
    assert_eq!(poller.checksum_failures(), 1);
    assert_eq!(sensors, Sensors::default());
}

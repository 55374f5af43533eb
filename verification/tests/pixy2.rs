use romi_core::pixy2::{
    blocks_request, decode_blocks, request, resolution_request, version_request, Block,
    BlocksStep, PacketReceiver, Pixy2, Pixy2Error, ReceivePhase, Received, Response, SigMap,
    Transfer, Version,
};

#[test]
fn block_from_bytes() {
    let bytes: [u8; 14] =
        [0x01, 0x00, 0x3C, 0x01, 0x64, 0x00, 0x20, 0x00, 0x10, 0x00, 0xFF, 0xFF, 0x07, 0x2A];
    let b = Block::from(&bytes);
    assert_eq!(
        b,
        Block {
            signature: 1,
            x: 316,
            y: 100,
            width: 32,
            height: 16,
            angle: 65535,
            index: 7,
            age: 42,
        }
    );
    assert_eq!(
        Block::from(&[0u8; 14]),
        Block { signature: 0, x: 0, y: 0, width: 0, height: 0, angle: 0, index: 0, age: 0 }
    );
}

#[test]
fn version_from_bytes() {
    let mut bytes: [u8; 16] = [0u8; 16];
    bytes[0] = 0x00;
    bytes[1] = 0x22;
    bytes[2] = 3;
    bytes[3] = 0;
    bytes[4] = 0x12;
    bytes[5] = 0x00;
    bytes[6..13].copy_from_slice(b"general");
    let v = Version::from(&bytes);
    assert_eq!(v.hardware, 0x2200);
    assert_eq!(v.firmware_major, 3);
    assert_eq!(v.firmware_minor, 0);
    assert_eq!(v.firmware_build, 18);
    assert_eq!(&v.firmware_type, b"general\0\0\0");
}

#[test]
fn error_codes() {
    let all: [(Pixy2Error, i8); 6] = [
        (Pixy2Error::Error, -1),
        (Pixy2Error::Busy, -2),
        (Pixy2Error::ChecksumError, -3),
        (Pixy2Error::Timeout, -4),
        (Pixy2Error::ButtonOverride, -5),
        (Pixy2Error::ProgChanging, -6),
    ];
    for (error, code) in all.iter() {
        assert_eq!(error.to_code(), *code);
        assert_eq!(Pixy2Error::from_code(*code), Some(*error));
    }
    assert_eq!(Pixy2Error::ok_code(), 0);
    assert_eq!(Pixy2Error::from_code(0), None);
    assert_eq!(Pixy2Error::from_code(-7), None);
    assert_eq!(Pixy2Error::from_code(1), None);
    assert_eq!(Pixy2Error::from_code(-128), None);
}

#[test]
fn requests() {
    assert_eq!(version_request(), vec![0xAE, 0xC1, 0x0E, 0x00]);
    assert_eq!(resolution_request(), vec![0xAE, 0xC1, 0x0C, 0x01, 0x00]);
    assert_eq!(blocks_request(SigMap::all(), 10), vec![0xAE, 0xC1, 0x20, 0x02, 0xFF, 0x0A]);
    assert_eq!(
        blocks_request(SigMap::from_bits(SigMap::SIG1 | SigMap::SIG3), 1),
        vec![0xAE, 0xC1, 0x20, 0x02, 0x05, 0x01]
    );
    assert_eq!(request(0x16, &[1, 0]), vec![0xAE, 0xC1, 0x16, 0x02, 0x01, 0x00]);
}

#[test]
fn signature_sets() {
    assert_eq!(SigMap::all().bits(), 0xFF);
    assert_eq!(SigMap::from_bits(SigMap::SIG2 | SigMap::COLOR_CODES).bits(), 0x82);
    assert_eq!(SigMap::from_bits(0), SigMap { bits: 0 });
    assert_eq!(SigMap::SIG1, 1);
    assert_eq!(SigMap::SIG4, 8);
    assert_eq!(SigMap::SIG5, 16);
    assert_eq!(SigMap::SIG6, 32);
    assert_eq!(SigMap::SIG7, 64);
    assert_eq!(SigMap::ALL, 0xFF);
}

fn version_body() -> Vec<u8> {
    let mut body: Vec<u8> = vec![0x00, 0x22, 3, 0, 0x12, 0x00];
    body.extend_from_slice(b"general\0\0\0");
    body
}

/// Drives a receiver over the bytes of a whole packet, sync word first.
fn receive(receiver: &mut PacketReceiver, bytes: &[u8]) -> Received {
    let mut at: usize = 0;
    loop {
        let n: usize = receiver.next_read();
        let chunk: Vec<u8> = bytes[at..at + n].to_vec();
        at += n;
        match receiver.step(Transfer::Bytes(chunk)) {
            Received::Pending | Received::Pause => {}
            other => return other,
        }
    }
}

#[test]
fn packet_without_checksum_is_received() {
    let mut receiver = PacketReceiver::new();
    assert_eq!(receiver.next_read(), 1);
    let bytes: [u8; 8] = [0xAE, 0xC1, 0x0D, 0x04, 0x3C, 0x01, 0xD0, 0x00];
    assert_eq!(
        receive(&mut receiver, &bytes),
        Received::Done(Response { kind: 0x0D, body: vec![0x3C, 0x01, 0xD0, 0x00] })
    );
    assert_eq!(receiver, PacketReceiver::new());
}

#[test]
fn packet_with_checksum_is_received() {
    let mut receiver = PacketReceiver::new();
    // sum of the payload: 0x3C + 0x01 + 0xD0 = 0x010D
    let bytes: [u8; 10] = [0xAF, 0xC1, 0x0D, 0x04, 0x0D, 0x01, 0x3C, 0x01, 0xD0, 0x00];
    assert_eq!(
        receive(&mut receiver, &bytes),
        Received::Done(Response { kind: 0x0D, body: vec![0x3C, 0x01, 0xD0, 0x00] })
    );
}

#[test]
fn packet_with_wrong_checksum_is_refused() {
    let mut receiver = PacketReceiver::new();
    let bytes: [u8; 10] = [0xAF, 0xC1, 0x0D, 0x04, 0x0E, 0x01, 0x3C, 0x01, 0xD0, 0x00];
    assert_eq!(receive(&mut receiver, &bytes), Received::Failed(Pixy2Error::ChecksumError));
    assert_eq!(receiver, PacketReceiver::new());
}

#[test]
fn packet_without_payload() {
    let mut receiver = PacketReceiver::new();
    assert_eq!(
        receive(&mut receiver, &[0xAE, 0xC1, 0x01, 0x00]),
        Received::Done(Response { kind: 0x01, body: vec![] })
    );
    assert_eq!(
        receive(&mut receiver, &[0xAF, 0xC1, 0x01, 0x00, 0x00, 0x00]),
        Received::Done(Response { kind: 0x01, body: vec![] })
    );
    assert_eq!(
        receive(&mut receiver, &[0xAF, 0xC1, 0x01, 0x00, 0x01, 0x00]),
        Received::Failed(Pixy2Error::ChecksumError)
    );
}

#[test]
fn sync_word_is_found_behind_other_bytes() {
    let mut receiver = PacketReceiver::new();
    let bytes: [u8; 8] = [0x00, 0xC1, 0xAE, 0xAE, 0xC1, 0x01, 0x01, 0x7F];
    assert_eq!(
        receive(&mut receiver, &bytes),
        Received::Done(Response { kind: 0x01, body: vec![0x7F] })
    );
}

#[test]
fn search_for_the_sync_word_is_given_up_after_twenty_one_reads() {
    let mut receiver = PacketReceiver::new();
    let mut pauses: u32 = 0;
    for read in 1..=20u32 {
        let event = if read % 2 == 0 { Transfer::Failed } else { Transfer::Bytes(vec![0x00]) };
        match receiver.step(event) {
            Received::Pending => {}
            Received::Pause => {
                pauses += 1;
                assert!(read == 5 || read == 9 || read == 13 || read == 17);
            }
            other => panic!("read {} gave {:?}", read, other),
        }
    }
    assert_eq!(pauses, 4);
    assert_eq!(receiver.step(Transfer::Bytes(vec![0x00])), Received::Failed(Pixy2Error::Error));
    assert_eq!(receiver, PacketReceiver::new());
}

#[test]
fn failed_transfer_within_a_packet() {
    let mut receiver = PacketReceiver::new();
    assert_eq!(receiver.step(Transfer::Bytes(vec![0xAE])), Received::Pending);
    assert_eq!(receiver.step(Transfer::Bytes(vec![0xC1])), Received::Pending);
    assert_eq!(receiver.phase, ReceivePhase::Header);
    assert_eq!(receiver.next_read(), 2);
    assert_eq!(receiver.step(Transfer::Failed), Received::Failed(Pixy2Error::Error));
    assert_eq!(receiver.step(Transfer::Bytes(vec![0xAF])), Received::Pending);
    assert_eq!(receiver.step(Transfer::Bytes(vec![0xC1])), Received::Pending);
    assert_eq!(receiver.next_read(), 4);
    assert_eq!(receiver.step(Transfer::Bytes(vec![0x21, 0x0E, 0x00, 0x00])), Received::Pending);
    assert_eq!(receiver.phase, ReceivePhase::Body);
    assert_eq!(receiver.next_read(), 14);
    // a delivery of the wrong size counts as a failed transfer
    assert_eq!(receiver.step(Transfer::Bytes(vec![0; 13])), Received::Failed(Pixy2Error::Error));
}

#[test]
fn version_response() {
    let mut pixy = Pixy2::new();
    assert_eq!(pixy.version.hardware, 0);
    assert_eq!(pixy.num_blocks(), 0);
    let good = Ok(Response { kind: 0x0F, body: version_body() });
    assert_eq!(pixy.get_version(&good), Ok(16));
    assert_eq!(pixy.version.hardware, 0x2200);
    assert_eq!(pixy.version.firmware_major, 3);
    assert_eq!(pixy.version.firmware_build, 18);
    assert_eq!(&pixy.version.firmware_type, b"general\0\0\0");
    let held = pixy.version;
    assert_eq!(pixy.get_version(&Ok(Response { kind: 0x03, body: vec![] })), Err(Pixy2Error::Busy));
    assert_eq!(
        pixy.get_version(&Ok(Response { kind: 0x0D, body: version_body() })),
        Err(Pixy2Error::Error)
    );
    assert_eq!(
        pixy.get_version(&Ok(Response { kind: 0x0F, body: vec![0; 15] })),
        Err(Pixy2Error::Error)
    );
    assert_eq!(pixy.get_version(&Err(Pixy2Error::ChecksumError)), Err(Pixy2Error::Error));
    assert_eq!(pixy.version, held);
}

#[test]
fn resolution_response() {
    let mut pixy = Pixy2::new();
    let good = Ok(Response { kind: 0x0D, body: vec![0x3C, 0x01, 0xD0, 0x00] });
    assert_eq!(pixy.get_resolution(&good), Ok(()));
    assert_eq!(pixy.frame_width, 316);
    assert_eq!(pixy.frame_height, 208);
    assert_eq!(
        pixy.get_resolution(&Ok(Response { kind: 0x0F, body: vec![1, 0, 1, 0] })),
        Err(Pixy2Error::Error)
    );
    assert_eq!(
        pixy.get_resolution(&Ok(Response { kind: 0x0D, body: vec![1, 0, 1] })),
        Err(Pixy2Error::Error)
    );
    assert_eq!(pixy.get_resolution(&Err(Pixy2Error::ChecksumError)), Err(Pixy2Error::ChecksumError));
    assert_eq!(pixy.frame_width, 316);
    assert_eq!(pixy.frame_height, 208);
}

#[test]
fn blocks_response() {
    let one: [u8; 14] =
        [0x01, 0x00, 0x3C, 0x01, 0x64, 0x00, 0x20, 0x00, 0x10, 0x00, 0xFF, 0xFF, 0x07, 0x2A];
    let mut body: Vec<u8> = one.to_vec();
    body.extend_from_slice(&[0x02, 0x00, 1, 0, 2, 0, 3, 0, 4, 0, 5, 0, 6, 7]);
    body.extend_from_slice(&[0xEE; 13]); // not a whole block
    let mut pixy = Pixy2::new();
    assert_eq!(
        pixy.get_blocks(&Ok(Response { kind: 0x21, body }), false),
        BlocksStep::Done(Ok(2))
    );
    assert_eq!(pixy.num_blocks(), 2);
    assert_eq!(pixy.blocks[0], Block::from(&one));
    assert_eq!(
        pixy.blocks[1],
        Block { signature: 2, x: 1, y: 2, width: 3, height: 4, angle: 5, index: 6, age: 7 }
    );
    assert_eq!(decode_blocks(&one), vec![Block::from(&one)]);
    assert_eq!(decode_blocks(&[0u8; 13]), vec![]);
    assert_eq!(decode_blocks(&[0u8; 255]).len(), 18);
    assert_eq!(decode_blocks(&[0u8; 300]).len(), 18);
}

#[test]
fn blocks_error_responses() {
    let mut pixy = Pixy2::new();
    pixy.get_blocks(&Ok(Response { kind: 0x21, body: vec![0; 14] }), false);
    assert_eq!(pixy.num_blocks(), 1);
    let error = |code: i8| Ok(Response { kind: 0x03, body: vec![code as u8] });
    assert_eq!(pixy.get_blocks(&error(-2), false), BlocksStep::Done(Err(Pixy2Error::Busy)));
    assert_eq!(pixy.num_blocks(), 0);
    assert_eq!(pixy.get_blocks(&error(-2), true), BlocksStep::Retry);
    assert_eq!(pixy.get_blocks(&error(-6), false), BlocksStep::Retry);
    assert_eq!(pixy.get_blocks(&error(-6), true), BlocksStep::Retry);
    assert_eq!(pixy.get_blocks(&error(0), false), BlocksStep::Done(Ok(0)));
    assert_eq!(pixy.get_blocks(&error(-1), true), BlocksStep::Done(Err(Pixy2Error::Error)));
    assert_eq!(pixy.get_blocks(&error(-3), true), BlocksStep::Done(Err(Pixy2Error::ChecksumError)));
    assert_eq!(pixy.get_blocks(&error(-4), true), BlocksStep::Done(Err(Pixy2Error::Timeout)));
    assert_eq!(
        pixy.get_blocks(&error(-5), true),
        BlocksStep::Done(Err(Pixy2Error::ButtonOverride))
    );
    assert_eq!(pixy.get_blocks(&error(5), true), BlocksStep::Done(Err(Pixy2Error::Error)));
    assert_eq!(pixy.get_blocks(&error(-7), true), BlocksStep::Done(Err(Pixy2Error::Error)));
    assert_eq!(
        pixy.get_blocks(&Ok(Response { kind: 0x03, body: vec![] }), true),
        BlocksStep::Done(Err(Pixy2Error::Error))
    );
    assert_eq!(pixy.get_blocks(&Ok(Response { kind: 0x01, body: vec![0] }), false), BlocksStep::Retry);
    assert_eq!(
        pixy.get_blocks(&Err(Pixy2Error::ChecksumError), true),
        BlocksStep::Done(Err(Pixy2Error::ChecksumError))
    );
}

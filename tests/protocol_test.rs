use libpafe::protocol::codec::{decode_response_frame, encode_command_frame};
use libpafe::protocol::commands::{
    encode_polling, encode_read, encode_request_response, encode_request_service,
    encode_request_system_code, encode_search_service_code, encode_write, encode_write_multi,
};
use libpafe::protocol::parser::{
    byte_at, ensure_len, expect_response_code, idm_at, le_u16_at, pmm_at, slice_at,
};
use libpafe::protocol::{dcs, lcs, Command, Frame, Response};
use libpafe::types::{AccessMode, BlockData, BlockElement, Idm, Pmm, ServiceCode, SystemCode};
use libpafe::Error;

fn sample_idm_bytes() -> [u8; 8] {
    [0x01, 0x02, 0x03, 0x04, 0x05, 0x06, 0x07, 0x08]
}

fn sample_pmm_bytes() -> [u8; 8] {
    [0x09, 0x0A, 0x0B, 0x0C, 0x0D, 0x0E, 0x0F, 0x10]
}

fn sample_system_code() -> SystemCode {
    SystemCode::new(0x0A0B)
}

fn polling_payload() -> Vec<u8> {
    let mut payload = vec![0x01u8];
    payload.extend_from_slice(&sample_idm_bytes());
    payload.extend_from_slice(&sample_pmm_bytes());
    payload.extend_from_slice(&sample_system_code().to_le_bytes());
    payload
}

fn polling_frame() -> Vec<u8> {
    Frame::encode(&polling_payload()).unwrap()
}

fn read_frame_with_block(block_data: &[u8; 16]) -> Vec<u8> {
    let mut payload = vec![0x07u8];
    payload.extend_from_slice(&sample_idm_bytes());
    payload.push(0);
    payload.push(0);
    payload.push(1);
    payload.extend_from_slice(block_data);
    Frame::encode(&payload).unwrap()
}

#[test]
fn lcs_examples() {
    assert_eq!(lcs(3), 0xfd);
    assert_eq!(lcs(0), 0x00);
    assert_eq!(lcs(0xff), 0x01);
}

#[test]
fn dcs_examples() {
    assert_eq!(dcs(&[0x01, 0x02, 0x03]), 0xfa);
    assert_eq!(dcs(&[]), 0x00);
}

#[test]
fn lcs_and_dcs_examples() {
    assert_eq!(lcs(3), 0xfd);
    assert_eq!(lcs(0), 0x00);
    assert_eq!(lcs(0xff), 0x01);

    assert_eq!(dcs(&[0x01, 0x02, 0x03]), 0xfa);
    assert_eq!(dcs(&[]), 0x00);
}

#[test]
fn lcs_cancels_every_length() {
    for n in 0..=255u8 {
        assert_eq!(lcs(n).wrapping_add(n), 0);
    }
}

#[test]
fn dcs_cancels_byte_sums() {
    let mut bytes = Vec::new();
    for i in 0..300u32 {
        bytes.push((i.wrapping_mul(37) % 251) as u8);
        let sum = bytes.iter().fold(0u8, |a, &b| a.wrapping_add(b));
        assert_eq!(dcs(&bytes).wrapping_add(sum), 0);
    }
}

#[test]
fn encode_decode_roundtrip() {
    let payload = vec![0x06, 0x00, 0x12, 0x34];
    let frame = Frame::encode(&payload).unwrap();
    let out = Frame::decode(&frame).unwrap();
    assert_eq!(out, payload);
}

#[test]
fn frame_round_trip_many_lengths() {
    for n in [0usize, 1, 2, 63, 128, 254, 255] {
        let payload: Vec<u8> = (0..n).map(|i| (i * 7 + 3) as u8).collect();
        let frame = Frame::encode(&payload).unwrap();
        assert_eq!(frame.len(), 7 + n);
        assert_eq!(&frame[0..3], &[0x00, 0x00, 0xFF]);
        assert_eq!(frame[3] as usize, n);
        assert_eq!(*frame.last().unwrap(), 0x00);
        assert_eq!(Frame::decode(&frame).unwrap(), payload);
    }
}

#[test]
fn frame_encode_exact_bytes() {
    let frame = Frame::encode(&[0x01, 0x02]).unwrap();
    assert_eq!(frame, vec![0x00, 0x00, 0xFF, 0x02, 0xFE, 0x01, 0x02, 0xFD, 0x00]);
}

#[test]
fn frame_encode_rejects_long_payload() {
    let payload = vec![0u8; 256];
    match Frame::encode(&payload) {
        Err(Error::InvalidLength { expected: 255, actual: 256 }) => {}
        other => panic!("expected InvalidLength, got {:?}", other),
    }
}

#[test]
fn lcs_mismatch() {
    let payload = vec![0x01, 0x02];
    let mut frame = Frame::encode(&payload).unwrap();
    frame[4] = frame[4].wrapping_add(1);
    match Frame::decode(&frame) {
        Err(Error::ChecksumMismatch { expected: _, actual: _ }) => {}
        other => panic!("expected checksum mismatch, got: {:?}", other),
    }
}

#[test]
fn dcs_mismatch() {
    let payload = vec![0x01, 0x02];
    let mut frame = Frame::encode(&payload).unwrap();
    let dcs_idx = frame.len() - 2;
    frame[dcs_idx] = frame[dcs_idx].wrapping_add(1);
    match Frame::decode(&frame) {
        Err(Error::ChecksumMismatch { expected: _, actual: _ }) => {}
        other => panic!("expected checksum mismatch, got: {:?}", other),
    }
}

#[test]
fn invalid_preamble() {
    let payload = vec![0x00];
    let mut frame = Frame::encode(&payload).unwrap();
    frame[0] = 0xff;
    match Frame::decode(&frame) {
        Err(Error::FrameFormat(_)) => {}
        other => panic!("expected frame format error, got: {:?}", other),
    }
}

#[test]
fn invalid_postamble_and_lengths() {
    let mut frame = Frame::encode(&[0x10, 0x20]).unwrap();
    let last = frame.len() - 1;
    frame[last] = 0x01;
    assert!(matches!(Frame::decode(&frame), Err(Error::FrameFormat(_))));

    match Frame::decode(&[0x00, 0x00, 0xFF]) {
        Err(Error::InvalidLength { expected: 7, actual: 3 }) => {}
        other => panic!("expected InvalidLength, got {:?}", other),
    }

    let mut long = Frame::encode(&[0x10, 0x20]).unwrap();
    long.push(0x00);
    match Frame::decode(&long) {
        Err(Error::InvalidLength { expected: 9, actual: 10 }) => {}
        other => panic!("expected InvalidLength, got {:?}", other),
    }
}

#[test]
fn every_single_byte_change_is_detected() {
    let payload = polling_payload();
    let frame = Frame::encode(&payload).unwrap();
    for i in 0..frame.len() {
        for delta in [1u8, 0x80, 0xFF] {
            let mut tampered = frame.clone();
            tampered[i] = tampered[i].wrapping_add(delta);
            match Frame::decode(&tampered) {
                Err(Error::ChecksumMismatch { .. }) | Err(Error::FrameFormat(_)) => {}
                other => panic!("byte {} changed: expected a checksum or format error, got {:?}", i, other),
            }
        }
    }
}

#[test]
fn polling_frame_payload_matches_fixture() {
    let frame = polling_frame();
    let payload = Frame::decode(&frame).expect("frame decode");
    assert_eq!(payload, polling_payload());
}

#[test]
fn polling_response_decodes_to_polling_variant() {
    let frame = polling_frame();
    let payload = Frame::decode(&frame).unwrap();
    let resp = Response::decode(0x00, &payload).unwrap();
    match resp {
        Response::Polling { idm, pmm, system_code } => {
            assert_eq!(idm, Idm::from_bytes(sample_idm_bytes()));
            assert_eq!(pmm, Pmm::from_bytes(sample_pmm_bytes()));
            assert_eq!(system_code, sample_system_code());
        }
        other => panic!("expected polling response, got {:?}", other),
    }
}

#[test]
fn read_response_decodes_blocks() {
    let block = BlockData::from_bytes([0xAA; 16]);
    let frame = read_frame_with_block(block.as_bytes());
    let payload = Frame::decode(&frame).unwrap();
    let resp = Response::decode(0x06, &payload).unwrap();
    match resp {
        Response::ReadWithoutEncryption { idm: _, status, blocks } => {
            assert_eq!(status, (0, 0));
            assert_eq!(blocks.len(), 1);
            assert_eq!(blocks[0], block);
        }
        other => panic!("expected read response, got {:?}", other),
    }
}

#[test]
fn encode_decode_response_roundtrip() {
    let mut payload = vec![0x01];
    payload.extend_from_slice(&[1, 2, 3, 4, 5, 6, 7, 8]);
    payload.extend_from_slice(&[9, 10, 11, 12, 13, 14, 15, 16]);
    payload.extend_from_slice(&SystemCode::new(0x0a0b).to_le_bytes());

    let frame = Frame::encode(&payload).unwrap();
    let resp = decode_response_frame(0x00, &frame).unwrap();
    match resp {
        Response::Polling { idm, pmm, system_code } => {
            assert_eq!(idm.as_bytes(), &[1, 2, 3, 4, 5, 6, 7, 8]);
            assert_eq!(pmm.as_bytes(), &[9, 10, 11, 12, 13, 14, 15, 16]);
            assert_eq!(system_code.as_u16(), 0x0a0b);
        }
        other => panic!("unexpected response: {:?}", other),
    }
}

#[test]
fn encode_decode_request_service_roundtrip() {
    let mut payload = vec![0x03];
    payload.extend_from_slice(&[1, 2, 3, 4, 5, 6, 7, 8]);
    payload.push(2);
    payload.extend_from_slice(&0x0100u16.to_le_bytes());
    payload.extend_from_slice(&0x0200u16.to_le_bytes());

    let frame = Frame::encode(&payload).unwrap();
    let resp = decode_response_frame(0x02, &frame).unwrap();
    match resp {
        Response::RequestService { idm, versions } => {
            assert_eq!(idm.as_bytes(), &[1, 2, 3, 4, 5, 6, 7, 8]);
            assert_eq!(versions, vec![0x0100u16, 0x0200u16]);
        }
        other => panic!("unexpected response: {:?}", other),
    }
}

#[test]
fn encode_decode_request_response_roundtrip() {
    let mut payload = vec![0x05];
    payload.extend_from_slice(&[9, 9, 9, 9, 9, 9, 9, 9]);
    payload.push(0x02);

    let frame = Frame::encode(&payload).unwrap();
    let resp = decode_response_frame(0x04, &frame).unwrap();
    match resp {
        Response::RequestResponse { idm, mode } => {
            assert_eq!(idm.as_bytes(), &[9, 9, 9, 9, 9, 9, 9, 9]);
            assert_eq!(mode, 0x02);
        }
        other => panic!("unexpected response: {:?}", other),
    }
}

#[test]
fn polling_response_decodes_from_frame() {
    let payload = vec![
        0x01, 0x01, 0x02, 0x03, 0x04, 0x05, 0x06, 0x07, 0x08, 0x09, 0x0A, 0x0B, 0x0C, 0x0D, 0x0E,
        0x0F, 0x10, 0x0B, 0x0A,
    ];
    let frame = Frame::encode(&payload).unwrap();
    match decode_response_frame(0x00, &frame).unwrap() {
        Response::Polling { idm, pmm, system_code } => {
            assert_eq!(idm.as_bytes(), &[1, 2, 3, 4, 5, 6, 7, 8]);
            assert_eq!(pmm.as_bytes(), &[9, 10, 11, 12, 13, 14, 15, 16]);
            assert_eq!(system_code.as_u16(), 0x0A0B);
        }
        other => panic!("unexpected response: {:?}", other),
    }
}

#[test]
fn decode_response_frame_reports_frame_errors_first() {
    let mut frame = polling_frame();
    frame[2] = 0xFE;
    assert!(matches!(decode_response_frame(0x00, &frame), Err(Error::FrameFormat(_))));
    let frame = polling_frame();
    match decode_response_frame(0x06, &frame) {
        Err(Error::UnexpectedResponse { expected: 0x07, actual: 0x01 }) => {}
        other => panic!("expected UnexpectedResponse, got {:?}", other),
    }
}

#[test]
fn decode_frames_of_random_payloads_for_each_command() {
    let mut seed: u32 = 99;
    for len in 0..64usize {
        let mut payload = Vec::with_capacity(len);
        for _ in 0..len {
            seed = seed.wrapping_mul(1664525).wrapping_add(1013904223);
            payload.push((seed >> 24) as u8);
        }
        let frame = Frame::encode(&payload).unwrap();
        for cmd in [0x00u8, 0x06, 0x02, 0x04, 0x0c, 0x0a] {
            let _ = decode_response_frame(cmd, &frame);
        }
    }
}

#[test]
fn command_encode_polling() {
    let cmd = Command::Polling { system_code: SystemCode::new(0x1234), request_code: 1, time_slot: 0 };
    assert_eq!(cmd.command_code(), 0x00);
    assert_eq!(cmd.encode(), vec![0x00, 0x34, 0x12, 1, 0]);
}

#[test]
fn polling_and_read_encode() {
    let cmd = Command::Polling { system_code: SystemCode::new(0x1234), request_code: 1, time_slot: 0 };
    assert_eq!(cmd.command_code(), 0x00);
    assert_eq!(cmd.encode(), vec![0x00, 0x34, 0x12, 1, 0]);

    let idm = Idm::from_bytes(sample_idm_bytes());
    let svc = ServiceCode::new(0x090f);
    let block = BlockElement::new(0, AccessMode::DirectAccessOrRead, 0x0012);
    let read_cmd = Command::ReadWithoutEncryption { idm, services: vec![svc], blocks: vec![block] };

    let payload = read_cmd.encode();
    assert_eq!(payload[0], read_cmd.command_code());
    assert_eq!(&payload[1..9], idm.as_bytes());
    assert_eq!(payload[9], 1);
}

#[test]
fn encode_polling_basic() {
    let sc = SystemCode::new(0x1234);
    let p = encode_polling(sc, 1, 0);
    assert_eq!(p, vec![0x00, 0x34, 0x12, 1, 0]);
}

#[test]
fn encode_read_basic() {
    let idm = Idm::from_bytes([1, 2, 3, 4, 5, 6, 7, 8]);
    let services = [ServiceCode::new(0x090f)];
    let blocks = [BlockElement::new(0, AccessMode::DirectAccessOrRead, 0x0012)];

    let p = encode_read(idm, &services, &blocks);
    let mut expected = vec![0x06];
    expected.extend_from_slice(&[1, 2, 3, 4, 5, 6, 7, 8]);
    expected.push(1);
    expected.extend_from_slice(&ServiceCode::new(0x090f).to_le_bytes());
    expected.push(1);
    expected.extend_from_slice(&[0, 2, 0x12]);
    assert_eq!(p, expected);
}

#[test]
fn encode_search_service_code_basic() {
    let idm = Idm::from_bytes([1, 1, 2, 2, 3, 3, 4, 4]);
    let p = encode_search_service_code(idm, 0x0010);
    let mut expected = vec![0x0A];
    expected.extend_from_slice(&[1, 1, 2, 2, 3, 3, 4, 4]);
    expected.extend_from_slice(&0x0010u16.to_le_bytes());
    assert_eq!(p, expected);
}

#[test]
fn encode_request_service_basic() {
    let idm = Idm::from_bytes([1, 2, 3, 4, 5, 6, 7, 8]);
    let nodes = [0x1001u16, 0x1002u16];
    let p = encode_request_service(idm, &nodes);
    let mut expected = vec![0x02];
    expected.extend_from_slice(&[1, 2, 3, 4, 5, 6, 7, 8]);
    expected.push(2);
    expected.extend_from_slice(&0x1001u16.to_le_bytes());
    expected.extend_from_slice(&0x1002u16.to_le_bytes());
    assert_eq!(p, expected);
}

#[test]
fn encode_request_response_basic() {
    let idm = Idm::from_bytes([9, 9, 9, 9, 9, 9, 9, 9]);
    let p = encode_request_response(idm);
    let mut expected = vec![0x04];
    expected.extend_from_slice(&[9, 9, 9, 9, 9, 9, 9, 9]);
    assert_eq!(p, expected);
}

#[test]
fn encode_request_system_code_basic() {
    let idm = Idm::from_bytes([3, 4, 5, 6, 7, 8, 9, 10]);
    assert_eq!(encode_request_system_code(idm), vec![0x0C, 3, 4, 5, 6, 7, 8, 9, 10]);
}

#[test]
fn encode_write_single_block() {
    let idm = Idm::from_bytes([1, 2, 3, 4, 5, 6, 7, 8]);
    let svc = ServiceCode::new(0x090f);
    let blk = BlockElement::new(0, AccessMode::DirectAccessOrRead, 0x0012);
    let data = BlockData::from_bytes([0x5A; 16]);

    let p = encode_write(idm, svc, blk, data);
    let mut expected = vec![0x08];
    expected.extend_from_slice(&[1, 2, 3, 4, 5, 6, 7, 8]);
    expected.push(1);
    expected.extend_from_slice(&svc.to_le_bytes());
    expected.push(1);
    expected.extend_from_slice(&blk.encode());
    expected.extend_from_slice(&[0x5A; 16]);
    assert_eq!(p, expected);
}

#[test]
fn encode_write_multi_block() {
    let idm = Idm::from_bytes([1, 2, 3, 4, 5, 6, 7, 8]);
    let svc = ServiceCode::new(0x090f);
    let blk1 = BlockElement::new(0, AccessMode::DirectAccessOrRead, 0x0012);
    let blk2 = BlockElement::new(0, AccessMode::DirectAccessOrRead, 0x0013);
    let d1 = BlockData::from_bytes([0xAA; 16]);
    let d2 = BlockData::from_bytes([0xBB; 16]);

    let p = encode_write_multi(idm, &[svc], &[blk1, blk2], &[d1, d2]);
    assert_eq!(p[0], 0x08);
    assert!(p.windows(16).any(|w| w == [0xAA; 16]));
    assert!(p.windows(16).any(|w| w == [0xBB; 16]));
    assert_eq!(p.len(), 1 + 8 + 1 + 2 + 1 + 6 + 32);
}

#[test]
fn encode_command_frame_wraps_payload() {
    let cmd = Command::RequestResponse { idm: Idm::from_bytes([9; 8]) };
    let frame = encode_command_frame(&cmd).unwrap();
    assert_eq!(frame, Frame::encode(&cmd.encode()).unwrap());
    let big = Command::RequestService { idm: Idm::from_bytes([1; 8]), node_codes: vec![0u16; 200] };
    match encode_command_frame(&big) {
        Err(Error::InvalidLength { expected: 255, actual: 410 }) => {}
        other => panic!("expected InvalidLength, got {:?}", other),
    }
}

#[test]
fn expect_response_code_ok() {
    let v = vec![0x05u8];
    expect_response_code(&v, 0x05).unwrap();
}

#[test]
fn expect_response_code_mismatch() {
    let v = vec![0x06u8];
    match expect_response_code(&v, 0x05) {
        Err(Error::UnexpectedResponse { expected, actual }) => {
            assert_eq!(expected, 0x05);
            assert_eq!(actual, 0x06);
        }
        other => panic!("expected UnexpectedResponse, got: {:?}", other),
    }
}

#[test]
fn expect_response_code_empty() {
    let v: Vec<u8> = vec![];
    match expect_response_code(&v, 0x05) {
        Err(Error::InvalidLength { expected: _, actual: _ }) => {}
        other => panic!("expected InvalidLength, got: {:?}", other),
    }
}

#[test]
fn parser_readers_check_bounds() {
    let data = [0x10u8, 0x34, 0x12, 4, 5, 6, 7, 8, 9, 10];
    assert!(ensure_len(&data, 10).is_ok());
    assert!(matches!(ensure_len(&data, 11), Err(Error::InvalidLength { expected: 11, actual: 10 })));
    assert_eq!(le_u16_at(&data, 1).unwrap(), 0x1234);
    assert!(matches!(le_u16_at(&data, 9), Err(Error::InvalidLength { expected: 11, actual: 10 })));
    assert_eq!(slice_at(&data, 2, 3).unwrap(), &[0x12, 4, 5]);
    assert!(slice_at(&data, 8, 3).is_err());
    assert_eq!(idm_at(&data, 2).unwrap().as_bytes(), &[0x12, 4, 5, 6, 7, 8, 9, 10]);
    assert!(idm_at(&data, 3).is_err());
    assert_eq!(pmm_at(&data, 1).unwrap().as_bytes(), &[0x34, 0x12, 4, 5, 6, 7, 8, 9]);
    assert_eq!(byte_at(&data, 9).unwrap(), 10);
    assert!(matches!(byte_at(&data, 10), Err(Error::InvalidLength { expected: 11, actual: 10 })));
}

use libpafe::device::models::s330::commands;
use libpafe::device::models::s330::rcs956::{
    build_get_version, build_in_list_passive_target, build_rf_on,
    extract_all_felica_frames_from_pn532_response, extract_felica_from_pn532_response,
};
use libpafe::device::models::s330::S330Model;
use libpafe::protocol::codec::decode_response_frame;
use libpafe::protocol::{Frame, Response};
use libpafe::transport::mock::MockTransport;
use libpafe::transport::traits::Logged;
use libpafe::transport::Transport;
use libpafe::types::{CardType, DeviceType, SystemCode};
use libpafe::utils::parse_hex;

fn logged<R>(m: &mut MockTransport, f: impl FnOnce(&mut Logged<MockTransport>) -> R) -> R {
    let taken = std::mem::replace(m, MockTransport::new(m.device_type));
    let mut channel = Logged::new(taken);
    let r = f(&mut channel);
    *m = channel.inner;
    r
}

fn two_polling_frames() -> (Vec<u8>, Vec<u8>) {
    let mut p1 = vec![0x01];
    p1.extend_from_slice(&[1, 2, 3, 4, 5, 6, 7, 8]);
    p1.extend_from_slice(&[9, 10, 11, 12, 13, 14, 15, 16]);
    p1.extend_from_slice(&SystemCode::new(0x0a0b).to_le_bytes());
    let f1 = Frame::encode(&p1).unwrap();

    let mut p2 = vec![0x01];
    p2.extend_from_slice(&[21, 22, 23, 24, 25, 26, 27, 28]);
    p2.extend_from_slice(&[29, 30, 31, 32, 33, 34, 35, 36]);
    p2.extend_from_slice(&SystemCode::new(0x1111).to_le_bytes());
    let f2 = Frame::encode(&p2).unwrap();
    (f1, f2)
}

#[test]
fn builders_build_rf_on_is_correct() {
    assert_eq!(build_rf_on(), vec![0xD4, 0x32, 0x01, 0x01]);
}

#[test]
fn builders_build_get_version_is_correct() {
    assert_eq!(build_get_version(), vec![0xD4, 0x02]);
}

#[test]
fn builders_build_in_list_passive_target_builds_vector() {
    let v = build_in_list_passive_target(1, 0x00);
    assert_eq!(v, vec![0xD4, 0x4A, 0x01, 0x00]);
}

#[test]
fn extractor_extract_felica_from_pn532_response_finds_preamble() {
    let mut payload = vec![0x01];
    payload.extend_from_slice(&[1, 2, 3, 4, 5, 6, 7, 8]);
    payload.extend_from_slice(&[9, 10, 11, 12, 13, 14, 15, 16]);
    let frame = Frame::encode(&payload).unwrap();
    let mut pn_resp = vec![0xD5, 0x4B, 0x01];
    pn_resp.extend_from_slice(&frame);

    let extracted = extract_felica_from_pn532_response(&pn_resp, 0x00).unwrap();
    assert_eq!(extracted, frame);
}

#[test]
fn extractor_extract_felica_from_pn532_response_wraps_payload_when_needed() {
    let mut payload = vec![0x01];
    payload.extend_from_slice(&[1, 2, 3, 4, 5, 6, 7, 8]);
    payload.extend_from_slice(&[9, 10, 11, 12, 13, 14, 15, 16]);
    let mut pn_resp = vec![0xD5, 0x4B, 0x01];
    pn_resp.extend_from_slice(&payload);

    let extracted = extract_felica_from_pn532_response(&pn_resp, 0x00).unwrap();
    let framed = Frame::encode(&payload).unwrap();
    assert_eq!(extracted, framed);
}

#[test]
fn extractor_skips_ack_and_unwraps_pn53x_payload() {
    let raw = parse_hex("0000ff00ff000000ff16ead54b0101120101010112ec23aa1f0136428247459affbe00")
        .unwrap();
    let extracted = extract_felica_from_pn532_response(&raw, 0x00).unwrap();
    let inner = Frame::decode(&extracted).unwrap();
    assert_eq!(inner[0], 0x01);
    assert_eq!(&inner[1..9], &[0x01, 0x12, 0x01, 0x01, 0x01, 0x01, 0x12, 0xEC]);
}

#[test]
fn extractor_finds_nothing_in_noise() {
    assert!(extract_felica_from_pn532_response(&[0x10, 0x20, 0x30], 0x00).is_none());
    assert!(extract_felica_from_pn532_response(&[], 0x06).is_none());
    assert!(extract_felica_from_pn532_response(&[0xD5, 0x4B, 0x01, 0x05], 0x00).is_none());
}

#[test]
fn multi_frame_extract_all_felica_frames_from_pn532_response_returns_multiple() {
    let (f1, f2) = two_polling_frames();
    let mut pn = vec![0xD5, 0x4B, 0x02];
    pn.extend_from_slice(&f1);
    pn.extend_from_slice(&f2);

    let frames = extract_all_felica_frames_from_pn532_response(&pn, 0x00);
    assert_eq!(frames.len(), 2);
    assert_eq!(frames[0], f1);
    assert_eq!(frames[1], f2);
}

#[test]
fn multi_frame_extract_all_felica_frames_from_pn532_response_handles_multiple_d5_regions_unframed() {
    let mut p1 = vec![0x01];
    p1.extend_from_slice(&[1, 2, 3, 4, 5, 6, 7, 8]);
    let mut p2 = vec![0x02];
    p2.extend_from_slice(&[21, 22, 23, 24, 25, 26, 27, 28]);

    let f1 = Frame::encode(&p1).unwrap();
    let f2 = Frame::encode(&p2).unwrap();

    let mut region1 = vec![0xD5, 0x4B, 0x01];
    region1.extend_from_slice(&p1);
    let mut region2 = vec![0xD5, 0x4B, 0x01];
    region2.extend_from_slice(&p2);

    let mut raw = Vec::new();
    raw.extend_from_slice(&region1);
    raw.extend_from_slice(&region2);

    let frames = extract_all_felica_frames_from_pn532_response(&raw, 0x00);
    assert_eq!(frames.len(), 2);
    assert_eq!(frames[0], f1);
    assert_eq!(frames[1], f2);
}

#[test]
fn multi_frame_extract_all_felica_frames_from_pn532_response_handles_unframed_inlist_multi_target() {
    let mut t1 = vec![0x01];
    t1.extend_from_slice(&[1, 2, 3, 4]);
    let mut t2 = vec![0x01];
    t2.extend_from_slice(&[5, 6, 7, 8]);

    let f1 = Frame::encode(&t1).unwrap();
    let f2 = Frame::encode(&t2).unwrap();

    let mut region = vec![0xD5, 0x4B, 0x02];
    region.extend_from_slice(&t1);
    region.extend_from_slice(&t2);

    let frames = extract_all_felica_frames_from_pn532_response(&region, 0x00);
    assert_eq!(frames.len(), 2);
    assert_eq!(frames[0], f1);
    assert_eq!(frames[1], f2);
}

#[test]
fn extract_and_decode_real_device_capture() {
    let raw_hex = "0000ff00ff000000ff16ead54b0101120101010112ec23aa1f0136428247459affbe00";
    let raw = parse_hex(raw_hex).expect("parse hex");

    let frames = extract_all_felica_frames_from_pn532_response(&raw, 0x00);
    assert!(!frames.is_empty(), "expected at least one extracted frame");

    let mut decoded = false;
    for frame in frames {
        if let Ok(Response::Polling { idm, pmm, system_code }) = decode_response_frame(0x00, &frame) {
            assert_eq!(idm.as_bytes(), &[0x01, 0x12, 0x01, 0x01, 0x01, 0x01, 0x12, 0xEC]);
            assert_eq!(pmm.as_bytes(), &[0x23, 0xAA, 0x1F, 0x01, 0x36, 0x42, 0x82, 0x47]);
            assert_eq!(system_code.as_u16(), 0x9A45);
            decoded = true;
            break;
        }
    }
    assert!(decoded, "expected to decode a Polling response from captured raw bytes");
}

#[test]
fn extracted_frames_always_decode_as_frames() {
    let inputs: Vec<Vec<u8>> = vec![
        vec![0xD5, 0x4B, 0x03, 0x01, 0x02, 0x01, 0x03, 0x01],
        vec![0xD5, 0x42, 0x00, 0x07, 0x11, 0x22],
        vec![0x00, 0x00, 0xFF, 0x02, 0xFE, 0xD5, 0x07, 0x24, 0x00, 0xD5, 0x01],
        vec![0xD5; 10],
        (0..300u32).map(|i| if i == 0 { 0xD5 } else { (i % 200) as u8 + 1 }).collect(),
    ];
    for raw in inputs {
        for cmd in [0x00u8, 0x06, 0x0A] {
            for f in extract_all_felica_frames_from_pn532_response(&raw, cmd) {
                assert!(Frame::decode(&f).is_ok(), "invalid frame {:?} from {:?}", f, raw);
            }
        }
    }
}

#[test]
fn extract_last_resort_takes_longest_frameable_suffix() {
    let mut raw = vec![0xD5, 0x10, 0x20];
    raw.extend((0..300u32).map(|i| (i % 100) as u8 + 0x30));
    let frames = extract_all_felica_frames_from_pn532_response(&raw, 0x00);
    assert_eq!(frames.len(), 1);
    let payload = Frame::decode(&frames[0]).unwrap();
    assert_eq!(payload.len(), 255);
    assert_eq!(&payload[..], &raw[raw.len() - 255..]);
}

#[test]
fn s330_model_sends_rcs956_init() {
    let mut m = MockTransport::new(DeviceType::S330);
    m.push_response(vec![0x00]);
    let model = S330Model::new();
    logged(&mut m, |l| model.initialize(l)).unwrap();
    assert!(m.sent.len() >= 1);
    assert_eq!(m.sent[0], vec![0xD4, 0x32, 0x01, 0x01]);
}

#[test]
fn s330_commands_get_version_and_deselect_sent() {
    let mut m = MockTransport::new(DeviceType::S330);
    m.control_write(&commands::rcs956_get_version()).unwrap();
    m.control_write(&commands::rcs956_deselect()).unwrap();

    assert_eq!(m.sent.len(), 2);
    assert_eq!(m.sent[0], vec![0xD4, 0x02]);
    assert_eq!(m.sent[1], vec![0xD4, 0x44, 0x01]);
}

#[test]
fn s330_in_list_passive_target_builder() {
    let v = build_in_list_passive_target(1, 0x00);
    assert_eq!(v, vec![0xD4, 0x4A, 0x01, 0x00]);
    let mut m = MockTransport::new(DeviceType::S330);
    m.control_write(&v).unwrap();
    assert_eq!(m.sent.last().unwrap(), &v);
}

#[test]
fn s330_command_buffers() {
    assert_eq!(commands::rcs956_rf_on(), vec![0xD4, 0x32, 0x01, 0x01]);
    assert_eq!(commands::rcs956_rf_off(), vec![0xD4, 0x32, 0x01, 0x00]);
    assert_eq!(commands::rcs956_in_list_passive_target(2, 0x03), vec![0xD4, 0x4A, 0x02, 0x03]);
    assert_eq!(commands::rcs956_in_list_passive_target_default(), vec![0xD4, 0x4A, 0x01, 0x00]);
}

#[test]
fn s330_model_uses_vendor_control_parameters() {
    let mut m = MockTransport::new(DeviceType::S330);
    m.push_response(vec![0xAA]);
    let model = S330Model::new();
    logged(&mut m, |l| model.initialize(l)).unwrap();

    assert!(m.vendor_calls.len() >= 1, "expected at least one vendor call");
    let (req, val, idx, data) = &m.vendor_calls[0];
    assert_eq!(*req, 0x00);
    assert_eq!(*val, 0x0000);
    assert_eq!(*idx, 0x0000);
    assert_eq!(data.as_slice(), commands::rcs956_rf_on().as_slice());
}

#[test]
fn s330_list_passive_targets_returns_multiple_cards() {
    let mut m = MockTransport::new(DeviceType::S330);
    m.push_response(vec![0xAA]);

    let (f1, f2) = two_polling_frames();
    let mut pn = vec![0xD5, 0x4B, 0x02];
    pn.extend_from_slice(&f1);
    pn.extend_from_slice(&f2);
    m.push_response(pn);

    let model = S330Model::new();
    logged(&mut m, |l| model.initialize(l)).unwrap();
    let cards = logged(&mut m, |l| {
        model.list_passive_targets(l, CardType::TypeF, SystemCode::new(0x0a0b), 2, 1000)
    })
    .unwrap();

    assert_eq!(cards.len(), 2);
    assert_eq!(cards[0].idm().unwrap().as_bytes(), &[1, 2, 3, 4, 5, 6, 7, 8]);
    assert_eq!(cards[1].idm().unwrap().as_bytes(), &[21, 22, 23, 24, 25, 26, 27, 28]);
    let (_, _, _, sent) = m.vendor_calls.last().unwrap();
    assert_eq!(
        sent,
        &vec![0xD4, 0x4A, 0x02, 0x01, 0xFF, 0xFF, 0x00, 0x00, 0x00, 0x0B, 0x0A, 0x00, 0x00]
    );
}

#[test]
fn s330_extracts_frames_from_vendor_control_read() {
    let (f1, f2) = two_polling_frames();
    let mut pn = vec![0xD5, 0x4B, 0x02];
    pn.extend_from_slice(&f1);
    pn.extend_from_slice(&f2);

    let frames = extract_all_felica_frames_from_pn532_response(&pn, 0x00);
    assert_eq!(frames.len(), 2);
    assert_eq!(frames[0], f1);
    assert_eq!(frames[1], f2);
}

#[test]
fn s330_decode_extracted_frames_from_vendor_control_read() {
    let (f1, f2) = two_polling_frames();
    let mut pn = vec![0xD5, 0x4B, 0x02];
    pn.extend_from_slice(&f1);
    pn.extend_from_slice(&f2);

    let frames = extract_all_felica_frames_from_pn532_response(&pn, 0x00);
    let mut decoded = Vec::new();
    for frame in frames {
        decoded.push(decode_response_frame(0x00, &frame).unwrap());
    }

    assert_eq!(decoded.len(), 2);
    match &decoded[0] {
        Response::Polling { idm, .. } => assert_eq!(idm.as_bytes(), &[1, 2, 3, 4, 5, 6, 7, 8]),
        other => panic!("unexpected response: {other:?}"),
    }
    match &decoded[1] {
        Response::Polling { idm, .. } => {
            assert_eq!(idm.as_bytes(), &[21, 22, 23, 24, 25, 26, 27, 28])
        }
        other => panic!("unexpected response: {other:?}"),
    }
}

#[test]
fn s330_wrap_command_envelopes() {
    let model = S330Model::new();
    let payload = vec![0x00, 0x0B, 0x0A, 0x00, 0x00];
    let framed = Frame::encode(&payload).unwrap();
    assert_eq!(model.wrap_command(&framed, &payload), vec![0xD4, 0x4A, 0x01, 0x01, 0x00, 0x0B, 0x0A, 0x00, 0x00]);
    let read = vec![0x06, 1, 2];
    let framed = Frame::encode(&read).unwrap();
    assert_eq!(model.wrap_command(&framed, &read), vec![0xD4, 0x42, 0x03, 0x06, 1, 2]);
    let pre = vec![0xD4, 0x02];
    assert_eq!(model.wrap_command(&pre, &[0x06]), pre);
}

#[test]
fn s330_unwrap_response_returns_raw_when_nothing_found() {
    let model = S330Model::new();
    assert_eq!(model.unwrap_response(0x00, &[1, 2, 3]).unwrap(), vec![1, 2, 3]);
}

#[test]
fn s330_parses_type_a_and_type_b_targets() {
    let raw = vec![0xD5, 0x4B, 0x02, 0x01, 0x00, 0x04, 0x08, 0x04, 0xAA, 0xBB, 0xCC, 0xDD, 0x02, 0x00, 0x44, 0x00, 0x02, 0x11, 0x22];
    let cards = S330Model::parse_passive_targets(CardType::TypeA, &raw);
    assert_eq!(cards.len(), 2);
    assert_eq!(cards[0].uid().unwrap().as_bytes(), &[0xAA, 0xBB, 0xCC, 0xDD]);
    assert_eq!(cards[1].uid().unwrap().as_bytes(), &[0x11, 0x22]);
    assert_eq!(cards[0].card_type(), CardType::TypeA);

    let mut rawb = vec![0xD5, 0x4B, 0x01, 0x01];
    let atqb = [0x50, 1, 2, 3, 4, 5, 6, 7, 8, 9, 10, 11];
    rawb.extend_from_slice(&atqb);
    rawb.extend_from_slice(&[0x01, 0x00]);
    let cards = S330Model::parse_passive_targets(CardType::TypeB, &rawb);
    assert_eq!(cards.len(), 1);
    assert_eq!(cards[0].uid().unwrap().as_bytes(), &[1, 2, 3, 4]);
    assert_eq!(cards[0].atqb().unwrap().as_bytes(), &atqb);
    assert!(S330Model::parse_passive_targets(CardType::TypeA, &[0xD5, 0x4B]).is_empty());
}

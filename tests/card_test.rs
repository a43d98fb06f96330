use libpafe::card::operations::{
    read_projection, search_projection, write_blocks, write_projection, write_single,
};
use libpafe::card::{Card, CardBuilder, CardInfo};
use libpafe::device::{Device, Initialized};
use libpafe::protocol::{Frame, Response};
use libpafe::test_support::{initialized_mock_device, seed_init_and_frames};
use libpafe::transport::mock::MockTransport;
use libpafe::types::{
    AccessMode, Atqb, BlockData, BlockElement, CardType, DeviceType, Idm, Pmm, ServiceCode,
    SystemCode, Uid, SYSTEM_CODE_COMMON, SYSTEM_CODE_SUICA,
};
use libpafe::Error;

fn device_with_frames(frames: Vec<Vec<u8>>) -> Device<MockTransport, Initialized> {
    let mut mock = MockTransport::new(DeviceType::S320);
    seed_init_and_frames(&mut mock, frames);
    let device = Device::new_with_transport(mock).unwrap();
    device.initialize().unwrap()
}

fn write_response(idm: [u8; 8], s1: u8, s2: u8) -> Vec<u8> {
    let mut payload = vec![0x09];
    payload.extend_from_slice(&idm);
    payload.push(s1);
    payload.push(s2);
    Frame::encode(&payload).unwrap()
}

#[test]
fn card_read_single_via_device() {
    let mut payload = vec![0x07];
    payload.extend_from_slice(&[1, 2, 3, 4, 5, 6, 7, 8]);
    payload.push(0);
    payload.push(0);
    payload.push(1);
    payload.extend_from_slice(&[0x99; 16]);
    let frame = Frame::encode(&payload).unwrap();
    let mut dev = device_with_frames(vec![frame]);

    let card = Card::new(
        Idm::from_bytes([1, 2, 3, 4, 5, 6, 7, 8]),
        Pmm::from_bytes([9, 9, 9, 9, 9, 9, 9, 9]),
        SystemCode::new(0x0a0b),
    );
    let block = card.read_single(&mut dev, ServiceCode::new(0x090f), 0x0001).unwrap();
    assert_eq!(block.as_bytes(), &[0x99; 16]);
    let sent = dev.transport().sent.last().unwrap().clone();
    let payload = Frame::decode(&sent).unwrap();
    assert_eq!(payload, vec![0x06, 1, 2, 3, 4, 5, 6, 7, 8, 1, 0x0f, 0x09, 1, 0, 2, 1]);
}

#[test]
fn services_iterator_collects_service_codes() {
    let mut p1 = vec![0x0B];
    p1.extend_from_slice(&[1, 2, 3, 4, 5, 6, 7, 8]);
    p1.push(1);
    p1.extend_from_slice(&0x1111u16.to_le_bytes());
    let mut p2 = vec![0x0B];
    p2.extend_from_slice(&[1, 2, 3, 4, 5, 6, 7, 8]);
    p2.push(0);

    let mut dev = device_with_frames(vec![Frame::encode(&p1).unwrap(), Frame::encode(&p2).unwrap()]);
    let card = Card::new(
        Idm::from_bytes([1, 2, 3, 4, 5, 6, 7, 8]),
        Pmm::from_bytes([9, 9, 9, 9, 9, 9, 9, 9]),
        SystemCode::new(0x0a0b),
    );

    let mut codes: Vec<u16> = Vec::new();
    {
        let mut it = card.services(&mut dev);
        while let Some(item) = it.next() {
            codes.push(item.unwrap());
        }
        assert!(it.next().is_none());
    }
    assert_eq!(codes, vec![0x1111]);
    assert_eq!(dev.transport().sent.len(), 4);
    assert_eq!(dev.transport().responses.len(), 0);
}

#[test]
fn services_iterator_stops_after_error() {
    let mut dev = device_with_frames(vec![]);
    let card = Card::new(Idm::from_bytes([1; 8]), Pmm::from_bytes([0; 8]), SystemCode::new(1));
    let mut it = card.services(&mut dev);
    assert!(matches!(it.next(), Some(Err(Error::Timeout))));
    assert!(it.next().is_none());
}

#[test]
fn card_write_single_via_device() {
    let mut dev = device_with_frames(vec![write_response([1, 2, 3, 4, 5, 6, 7, 8], 0, 0)]);
    let card = Card::new(
        Idm::from_bytes([1, 2, 3, 4, 5, 6, 7, 8]),
        Pmm::from_bytes([0; 8]),
        SystemCode::new(0x0003),
    );
    let svc = ServiceCode::new(0x090f);
    let data = BlockData::from_bytes([0x5A; 16]);
    card.write_single(&mut dev, svc, 0x0012, data).unwrap();
}

#[test]
fn card_request_service_versions_via_device() {
    let idm = [1, 2, 3, 4, 5, 6, 7, 8];
    let mut payload = vec![0x03];
    payload.extend_from_slice(&idm);
    payload.push(2);
    payload.extend_from_slice(&0x0100u16.to_le_bytes());
    payload.extend_from_slice(&0x0200u16.to_le_bytes());
    let mut dev = device_with_frames(vec![Frame::encode(&payload).unwrap()]);

    let card = Card::new(Idm::from_bytes(idm), Pmm::from_bytes([0; 8]), SystemCode::new(0x0a0b));
    let versions = card.request_service_versions(&mut dev, &[0x1000, 0x1001]).unwrap();
    assert_eq!(versions, vec![0x0100, 0x0200]);
}

#[test]
fn card_request_response_mode_via_device() {
    let idm = [9, 9, 9, 9, 9, 9, 9, 9];
    let mut payload = vec![0x05];
    payload.extend_from_slice(&idm);
    payload.push(0x01);
    let mut dev = device_with_frames(vec![Frame::encode(&payload).unwrap()]);

    let card = Card::new(Idm::from_bytes(idm), Pmm::from_bytes([0; 8]), SystemCode::new(0x0003));
    let mode = card.request_response_mode(&mut dev).unwrap();
    assert_eq!(mode, 0x01);
}

#[test]
fn card_request_system_codes_via_device() {
    let idm = [3, 4, 5, 6, 7, 8, 9, 0x10];
    let mut payload = vec![0x0D];
    payload.extend_from_slice(&idm);
    payload.push(2);
    payload.extend_from_slice(&SystemCode::suica().to_le_bytes());
    payload.extend_from_slice(&SystemCode::common().to_le_bytes());
    let mut dev = device_with_frames(vec![Frame::encode(&payload).unwrap()]);

    let card = Card::new(Idm::from_bytes(idm), Pmm::from_bytes([0; 8]), SystemCode::new(0xffff));
    let codes = card.request_system_codes(&mut dev).unwrap();
    let collected: Vec<u16> = codes.iter().map(SystemCode::as_u16).collect();
    assert_eq!(collected, vec![SYSTEM_CODE_SUICA, SYSTEM_CODE_COMMON]);
}

#[test]
fn request_response_mode_rejects_other_idm() {
    let mut payload = vec![0x05];
    payload.extend_from_slice(&[7; 8]);
    payload.push(0x01);
    let mut dev = device_with_frames(vec![Frame::encode(&payload).unwrap()]);
    let card = Card::new(Idm::from_bytes([9; 8]), Pmm::from_bytes([0; 8]), SystemCode::new(3));
    match card.request_response_mode(&mut dev) {
        Err(Error::UnexpectedResponse { expected: 0x05, actual: 0x05 }) => {}
        other => panic!("expected UnexpectedResponse, got {:?}", other),
    }
}

#[test]
fn write_single_success() {
    let idm_bytes = [1u8, 2, 3, 4, 5, 6, 7, 8];
    let mut dev = device_with_frames(vec![write_response(idm_bytes, 0, 0)]);
    let card = Card::new(Idm::from_bytes(idm_bytes), Pmm::from_bytes([0; 8]), SystemCode::new(0x0003));
    let svc = ServiceCode::new(0x090f);
    let blk = BlockElement::new(0, AccessMode::DirectAccessOrRead, 0x0012);
    let data = BlockData::from_bytes([0x5A; 16]);
    write_single(&card, &mut dev, svc, blk, data).unwrap();
}

#[test]
fn write_single_status_error() {
    let idm_bytes = [1u8, 2, 3, 4, 5, 6, 7, 8];
    let mut dev = device_with_frames(vec![write_response(idm_bytes, 0xA4, 0x00)]);
    let card = Card::new(Idm::from_bytes(idm_bytes), Pmm::from_bytes([0; 8]), SystemCode::new(0x0003));
    let svc = ServiceCode::new(0x090f);
    let blk = BlockElement::new(0, AccessMode::DirectAccessOrRead, 0x0012);
    let data = BlockData::from_bytes([0x00; 16]);
    match write_single(&card, &mut dev, svc, blk, data) {
        Err(Error::FelicaStatus { status1: 0xA4, status2: 0x00 }) => {}
        other => panic!("expected FelicaStatus, got {:?}", other),
    }
}

#[test]
fn write_blocks_success() {
    let idm_bytes = [1u8, 2, 3, 4, 5, 6, 7, 8];
    let mut payload = vec![0x09];
    payload.extend_from_slice(&idm_bytes);
    payload.extend_from_slice(&[0, 0, 0, 0]);
    let mut dev = device_with_frames(vec![Frame::encode(&payload).unwrap()]);
    let card = Card::new(Idm::from_bytes(idm_bytes), Pmm::from_bytes([0; 8]), SystemCode::new(0x0003));
    let svc = ServiceCode::new(0x090f);
    let b1 = BlockElement::new(0, AccessMode::DirectAccessOrRead, 0x0012);
    let b2 = BlockElement::new(0, AccessMode::DirectAccessOrRead, 0x0013);
    let d1 = BlockData::from_bytes([0xAA; 16]);
    let d2 = BlockData::from_bytes([0xBB; 16]);
    write_blocks(&card, &mut dev, svc, &[(b1, d1), (b2, d2)]).unwrap();
    let sent = dev.transport().sent.last().unwrap().clone();
    let cmd = Frame::decode(&sent).unwrap();
    assert_eq!(cmd.len(), 1 + 8 + 1 + 2 + 1 + 6 + 32);
    assert_eq!(cmd[12], 2);
}

#[test]
fn write_blocks_status_error() {
    let idm_bytes = [1u8, 2, 3, 4, 5, 6, 7, 8];
    let mut payload = vec![0x09];
    payload.extend_from_slice(&idm_bytes);
    payload.extend_from_slice(&[0, 0, 0xA5, 0x01]);
    let mut dev = device_with_frames(vec![Frame::encode(&payload).unwrap()]);
    let card = Card::new(Idm::from_bytes(idm_bytes), Pmm::from_bytes([0; 8]), SystemCode::new(0x0003));
    let svc = ServiceCode::new(0x090f);
    let b1 = BlockElement::new(0, AccessMode::DirectAccessOrRead, 0x0012);
    let b2 = BlockElement::new(0, AccessMode::DirectAccessOrRead, 0x0013);
    let d = BlockData::from_bytes([0x11; 16]);
    match write_blocks(&card, &mut dev, svc, &[(b1, d), (b2, d)]) {
        Err(Error::FelicaBlockStatus { index: 1, status1: 0xA5, status2: 0x01 }) => {}
        other => panic!("expected FelicaBlockStatus, got {:?}", other),
    }
}

#[test]
fn write_blocks_empty_list_sends_nothing() {
    let mut dev = device_with_frames(vec![]);
    let card = Card::new(Idm::from_bytes([1; 8]), Pmm::from_bytes([0; 8]), SystemCode::new(3));
    let before = dev.transport().sent.len();
    card.write_blocks(&mut dev, ServiceCode::new(0x090f), &[]).unwrap();
    assert_eq!(dev.transport().sent.len(), before);
}

#[test]
fn read_single_block_via_mock_device() {
    let mut polling = vec![0x01];
    polling.extend_from_slice(&[1, 2, 3, 4, 5, 6, 7, 8]);
    polling.extend_from_slice(&[9, 10, 11, 12, 13, 14, 15, 16]);
    polling.extend_from_slice(&SystemCode::new(0x0A0B).to_le_bytes());
    let block = BlockData::from_bytes([0x5A; 16]);
    let mut read = vec![0x07];
    read.extend_from_slice(&[1, 2, 3, 4, 5, 6, 7, 8]);
    read.extend_from_slice(&[0, 0, 1]);
    read.extend_from_slice(block.as_bytes());
    let responses = vec![vec![0xAA], Frame::encode(&polling).unwrap(), Frame::encode(&read).unwrap()];

    let mut dev = initialized_mock_device(DeviceType::S320, responses).unwrap();
    let card = dev.polling(SystemCode::new(0x0A0B)).unwrap();
    let blocks = card
        .read_blocks(
            &mut dev,
            &[ServiceCode::new(0x090f)],
            &[BlockElement::new(0, AccessMode::DirectAccessOrRead, 0x0000)],
        )
        .unwrap();
    assert_eq!(blocks.len(), 1);
    assert_eq!(blocks[0], block);
}

#[test]
fn operations_on_type_a_are_unsupported() {
    let mut dev = device_with_frames(vec![]);
    let card = Card::new_type_a(Uid::from_bytes(vec![1, 2, 3, 4]));
    assert!(matches!(card.read_single(&mut dev, ServiceCode::new(1), 0), Err(Error::UnsupportedOperation(_))));
    assert!(matches!(card.request_response_mode(&mut dev), Err(Error::UnsupportedOperation(_))));
    assert!(matches!(card.request_system_codes(&mut dev), Err(Error::UnsupportedOperation(_))));
    assert!(matches!(
        card.write_single(&mut dev, ServiceCode::new(1), 0, BlockData::from_bytes([0; 16])),
        Err(Error::UnsupportedOperation(_))
    ));
    let mut it = card.services(&mut dev);
    assert!(matches!(it.next(), Some(Err(Error::UnsupportedOperation(_)))));
    assert!(it.next().is_none());
}

#[test]
fn projections_check_kind_and_idm() {
    let idm = Idm::from_bytes([1; 8]);
    let other = Idm::from_bytes([2; 8]);
    let resp = Response::ReadWithoutEncryption { idm: other, status: (0, 0), blocks: vec![] };
    assert!(matches!(read_projection(&idm, resp), Err(Error::UnexpectedResponse { expected: 0x07, actual: 0x07 })));
    let resp = Response::RequestResponse { idm, mode: 1 };
    assert!(matches!(read_projection(&idm, resp), Err(Error::PollingFailed)));
    let resp = Response::WriteWithoutEncryption { idm, statuses: vec![] };
    assert!(matches!(write_projection(&idm, resp), Err(Error::InvalidLength { expected: 11, actual: 0 })));
    let resp = Response::SearchServiceCode { idm, area_or_service_code: Some(0x1111) };
    assert!(matches!(search_projection(&idm, Ok(resp)), Some(Ok(0x1111))));
    let resp = Response::SearchServiceCode { idm: other, area_or_service_code: Some(0x1111) };
    assert!(matches!(search_projection(&idm, Ok(resp)), Some(Err(Error::UnexpectedResponse { expected: 0x0b, actual: 0x0b }))));
    let resp = Response::SearchServiceCode { idm, area_or_service_code: None };
    assert!(search_projection(&idm, Ok(resp)).is_none());
    let resp = Response::RequestResponse { idm, mode: 1 };
    assert!(matches!(search_projection(&idm, Ok(resp)), Some(Err(Error::UnexpectedResponse { expected: 0x0b, actual: 0 }))));
    assert!(matches!(search_projection(&idm, Err(Error::Timeout)), Some(Err(Error::Timeout))));
}

#[test]
fn card_accessors_by_variant() {
    let f = Card::new_type_f(Idm::from_bytes([1; 8]), Pmm::from_bytes([2; 8]), SystemCode::new(0xFE00));
    assert_eq!(f.card_type(), CardType::TypeF);
    assert!(f.uid().is_none());
    assert!(f.atqb().is_none());
    let b = Card::new_type_b(Uid::from_bytes(vec![5, 6]), Atqb::from_bytes([7; 12]));
    assert_eq!(b.card_type(), CardType::TypeB);
    assert_eq!(b.uid().unwrap().as_bytes(), &[5, 6]);
    assert_eq!(b.atqb().unwrap().as_bytes(), &[7; 12]);
    assert!(b.idm().is_none() && b.pmm().is_none() && b.system_code().is_none());
}

#[test]
fn card_builder_and_info() {
    let card = CardBuilder::new()
        .idm(Idm::from_bytes([1; 8]))
        .pmm(Pmm::from_bytes([2; 8]))
        .system_code(SystemCode::new(0x0003))
        .build()
        .unwrap();
    let info = CardInfo::from_card(&card).unwrap();
    assert_eq!(info.idm(), &Idm::from_bytes([1; 8]));
    assert_eq!(info.pmm(), &Pmm::from_bytes([2; 8]));
    assert_eq!(info.system_code().as_u16(), 0x0003);
    assert!(matches!(
        CardBuilder::new().idm(Idm::from_bytes([1; 8])).build(),
        Err(Error::InvalidLength { expected: 8, actual: 0 })
    ));
    assert!(matches!(
        CardBuilder::new().idm(Idm::from_bytes([1; 8])).pmm(Pmm::from_bytes([1; 8])).build(),
        Err(Error::InvalidLength { expected: 2, actual: 0 })
    ));
    assert!(CardInfo::from_card(&Card::new_type_a(Uid::from_bytes(vec![1]))).is_none());
    let info2 = CardInfo::new(Idm::from_bytes([1; 8]), Pmm::from_bytes([2; 8]), SystemCode::new(3));
    assert_eq!(info, info2);
}

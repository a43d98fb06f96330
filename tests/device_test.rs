use std::cell::RefCell;
use std::rc::Rc;

use libpafe::card::Card;
use libpafe::device::models::{NoopModel, S310Model, S320Model};
use libpafe::device::models::s310::{S310_INIT_REQUEST};
use libpafe::device::models::s320::{s320_init1, s320_init2, S320_INIT1_REQUEST, S320_INIT2_REQUEST};
use libpafe::device::{Device, DeviceBuilder};
use libpafe::protocol::codec::encode_command_frame;
use libpafe::protocol::{Command, Frame};
use libpafe::test_support::{initialized_mock_device, seed_init_and_frames};
use libpafe::transport::mock::MockTransport;
use libpafe::transport::traits::Logged;
use libpafe::transport::Transport;
use libpafe::types::{CardType, DeviceType, SystemCode};
use libpafe::{Error, Result};

fn logged<R>(m: &mut MockTransport, f: impl FnOnce(&mut Logged<MockTransport>) -> R) -> R {
    let taken = std::mem::replace(m, MockTransport::new(m.device_type));
    let mut channel = Logged::new(taken);
    let r = f(&mut channel);
    *m = channel.inner;
    r
}

fn polling_payload(idm: [u8; 8], pmm: [u8; 8], sc: u16) -> Vec<u8> {
    let mut payload = vec![0x01];
    payload.extend_from_slice(&idm);
    payload.extend_from_slice(&pmm);
    payload.extend_from_slice(&SystemCode::new(sc).to_le_bytes());
    payload
}

#[test]
fn builder_with_mock_transport() {
    let mock = MockTransport::new(DeviceType::S320);
    let device = DeviceBuilder::new().with_transport(mock).build_uninitialized().unwrap();
    assert_eq!(device.device_type(), DeviceType::S320);
}

#[test]
fn builder_without_transport_finds_no_device() {
    match DeviceBuilder::<MockTransport>::new().build_uninitialized() {
        Err(Error::DeviceNotFound) => {}
        Err(other) => panic!("expected DeviceNotFound, got {:?}", other),
        Ok(_) => panic!("expected DeviceNotFound"),
    }
}

#[test]
fn mock_device_polling() {
    let mut mock = MockTransport::new(DeviceType::S320);
    let frame = Frame::encode(&polling_payload([1, 2, 3, 4, 5, 6, 7, 8], [9, 10, 11, 12, 13, 14, 15, 16], 0x0a0b)).unwrap();
    mock.push_response(vec![0xAA]);
    mock.push_response(frame);

    let device = Device::new_with_transport(mock).unwrap();
    let mut dev = device.initialize().unwrap();

    let card = dev.polling(SystemCode::new(0x0a0b)).unwrap();
    assert_eq!(card.idm().unwrap().as_bytes(), &[1, 2, 3, 4, 5, 6, 7, 8]);
    assert_eq!(card.pmm().unwrap().as_bytes(), &[9, 10, 11, 12, 13, 14, 15, 16]);
    assert_eq!(card.system_code().unwrap().as_u16(), 0x0a0b);
}

struct SharedTransport {
    inner: Rc<RefCell<MockTransport>>,
}

impl Transport for SharedTransport {
    fn send(&mut self, data: &[u8]) -> Result<()> {
        self.inner.borrow_mut().send(data)
    }
    fn receive(&mut self, timeout_ms: u64) -> Result<Vec<u8>> {
        self.inner.borrow_mut().receive(timeout_ms)
    }
    fn device_type(&self) -> Result<DeviceType> {
        self.inner.borrow().device_type()
    }
    fn reset(&mut self) -> Result<()> {
        self.inner.borrow_mut().reset()
    }
    fn control_write(&mut self, data: &[u8]) -> Result<()> {
        self.inner.borrow_mut().control_write(data)
    }
    fn control_read(&mut self, timeout_ms: u64) -> Result<Vec<u8>> {
        self.inner.borrow_mut().control_read(timeout_ms)
    }
    fn vendor_control_write(&mut self, request: u8, value: u16, index: u16, data: &[u8]) -> Result<()> {
        self.inner.borrow_mut().vendor_control_write(request, value, index, data)
    }
    fn vendor_control_read(&mut self, request: u8, value: u16, index: u16, timeout_ms: u64) -> Result<Vec<u8>> {
        self.inner.borrow_mut().vendor_control_read(request, value, index, timeout_ms)
    }
    fn in_endpoint(&self) -> Option<u8> {
        None
    }
    fn out_endpoint(&self) -> Option<u8> {
        None
    }
    fn clear_halt(&mut self, endpoint: u8) -> Result<()> {
        self.inner.borrow_mut().clear_halt(endpoint)
    }
}

#[test]
fn device_execute_sends_framed_command() {
    let inner = Rc::new(RefCell::new(MockTransport::new(DeviceType::S320)));
    let frame = Frame::encode(&polling_payload([1, 2, 3, 4, 5, 6, 7, 8], [9, 10, 11, 12, 13, 14, 15, 16], 0x0a0b)).unwrap();
    inner.borrow_mut().push_response(vec![0xAA]);
    inner.borrow_mut().push_response(frame);

    let device = Device::new_with_transport(SharedTransport { inner: inner.clone() }).unwrap();
    let mut dev = device.initialize().unwrap();

    let cmd = Command::Polling { system_code: SystemCode::new(0x0a0b), request_code: 1, time_slot: 0 };
    let _ = dev.execute(cmd.clone(), 1000).unwrap();

    let sent = &inner.borrow().sent;
    assert!(sent.len() >= 2, "expected at least two sends, got {}", sent.len());
    let expected_frame = encode_command_frame(&cmd).unwrap();
    assert_eq!(sent.last().unwrap(), &expected_frame);
}

#[test]
fn mock_device_polling_s330() {
    let mut mock = MockTransport::new(DeviceType::S330);
    mock.push_response(vec![0xAA]);
    let frame = Frame::encode(&polling_payload([1, 2, 3, 4, 5, 6, 7, 8], [9, 10, 11, 12, 13, 14, 15, 16], 0x0a0b)).unwrap();
    let mut pn_resp = vec![0xD5, 0x4B, 0x01];
    pn_resp.extend_from_slice(&frame);
    mock.push_response(pn_resp);

    let device = Device::new_with_transport(mock).unwrap();
    let mut dev = device.initialize().unwrap();

    let card = dev.polling(SystemCode::new(0x0a0b)).unwrap();
    assert_eq!(card.idm().unwrap().as_bytes(), &[1, 2, 3, 4, 5, 6, 7, 8]);
    assert_eq!(card.pmm().unwrap().as_bytes(), &[9, 10, 11, 12, 13, 14, 15, 16]);
    assert_eq!(card.system_code().unwrap().as_u16(), 0x0a0b);
    let sent = dev.transport().sent.last().unwrap().clone();
    assert_eq!(sent, vec![0xD4, 0x4A, 0x01, 0x01, 0x00, 0x0B, 0x0A, 0x00, 0x00]);
}

#[test]
fn s330_ack_then_frame_is_joined() {
    let mut mock = MockTransport::new(DeviceType::S330);
    mock.push_response(vec![0xAA]);
    mock.push_response(vec![0x00, 0x00, 0xFF, 0x00, 0xFF, 0x00]);
    let frame = Frame::encode(&polling_payload([7; 8], [8; 8], 0x1234)).unwrap();
    let mut pn_resp = vec![0xD5, 0x4B, 0x01];
    pn_resp.extend_from_slice(&frame);
    mock.push_response(pn_resp);

    let mut dev = Device::new_with_transport(mock).unwrap().initialize().unwrap();
    let card = dev.polling(SystemCode::new(0x1234)).unwrap();
    assert_eq!(card.idm().unwrap().as_bytes(), &[7; 8]);
    assert_eq!(card.system_code().unwrap().as_u16(), 0x1234);
}

#[test]
fn polling_timeout_is_reported() {
    let mut dev = initialized_mock_device(DeviceType::S320, vec![vec![0xAA]]).unwrap();
    match dev.polling(SystemCode::new(0xFFFF)) {
        Err(Error::Timeout) => {}
        other => panic!("expected Timeout, got {:?}", other),
    }
}

#[test]
fn mock_device_list_passive_targets_s330() {
    let mut mock = MockTransport::new(DeviceType::S330);
    mock.push_response(vec![0xAA]);
    let f1 = Frame::encode(&polling_payload([1, 2, 3, 4, 5, 6, 7, 8], [9, 10, 11, 12, 13, 14, 15, 16], 0x0a0b)).unwrap();
    let f2 = Frame::encode(&polling_payload([21, 22, 23, 24, 25, 26, 27, 28], [29, 30, 31, 32, 33, 34, 35, 36], 0x1111)).unwrap();
    let mut pn = vec![0xD5, 0x4B, 0x02];
    pn.extend_from_slice(&f1);
    pn.extend_from_slice(&f2);
    mock.push_response(pn);

    let device = Device::new_with_transport(mock).unwrap();
    let mut dev = device.initialize().unwrap();

    let cards = dev.list_passive_targets(CardType::TypeF, SystemCode::new(0x0a0b), 2, 1000).unwrap();
    assert_eq!(cards.len(), 2);
    assert_eq!(cards[0].idm().unwrap().as_bytes(), &[1, 2, 3, 4, 5, 6, 7, 8]);
    assert_eq!(cards[1].idm().unwrap().as_bytes(), &[21, 22, 23, 24, 25, 26, 27, 28]);
}

#[test]
fn list_passive_targets_unsupported_on_s320() {
    let mut dev = initialized_mock_device(DeviceType::S320, vec![vec![0xAA]]).unwrap();
    match dev.list_passive_targets(CardType::TypeF, SystemCode::new(0xFFFF), 1, 100) {
        Err(Error::PollingFailed) => {}
        other => panic!("expected PollingFailed, got {:?}", other.map(|v| v.len())),
    }
}

#[test]
fn initialize_transitions_and_device_type() {
    let mut m = MockTransport::new(DeviceType::S320);
    seed_init_and_frames(&mut m, vec![]);
    let device = Device::new_with_transport(m).unwrap();
    assert_eq!(device.device_type(), DeviceType::S320);
    let initialized = device.initialize().unwrap();
    assert_eq!(initialized.device_type(), DeviceType::S320);
}

#[test]
fn initialized_mock_polling_returns_card() {
    let polling = Frame::encode(&polling_payload([1, 2, 3, 4, 5, 6, 7, 8], [9, 10, 11, 12, 13, 14, 15, 16], 0x0A0B)).unwrap();
    let mut dev = initialized_mock_device(DeviceType::S320, vec![vec![0xAA], polling]).unwrap();
    let card = dev.polling(SystemCode::new(0x0A0B)).unwrap();
    assert_eq!(card.idm().unwrap().as_bytes(), &[1, 2, 3, 4, 5, 6, 7, 8]);
    assert_eq!(card.pmm().unwrap().as_bytes(), &[9, 10, 11, 12, 13, 14, 15, 16]);
}

#[test]
fn noop_model_does_nothing() {
    let mut mock = MockTransport::new(DeviceType::S310);
    let m = NoopModel::new();
    logged(&mut mock, |l| m.initialize(l)).unwrap();
    assert_eq!(mock.sent.len(), 0);
}

#[test]
fn s310_model_init_sends_and_receives() {
    let mut m = MockTransport::new(DeviceType::S310);
    seed_init_and_frames(&mut m, vec![vec![0xAB]]);
    let model = S310Model::new();
    logged(&mut m, |l| model.initialize(l)).unwrap();
    assert_eq!(m.sent.len(), 1);
    assert_eq!(m.sent[0], vec![0x54]);
}

#[test]
fn s310_model_init_fails_on_timeout() {
    let mut m = MockTransport::new(DeviceType::S310);
    let model = S310Model::new();
    match logged(&mut m, |l| model.initialize(l)) {
        Err(Error::Timeout) => {}
        other => panic!("expected Timeout, got {:?}", other),
    }
}

#[test]
fn s310_model_uses_vendor_control_parameters() {
    let mut mock = MockTransport::new(DeviceType::S310);
    seed_init_and_frames(&mut mock, vec![vec![0xAB]]);
    let model = S310Model::new();
    logged(&mut mock, |l| model.initialize(l)).unwrap();

    assert!(mock.vendor_calls.len() >= 1, "expected vendor calls >= 1");
    let (req, val, idx, data) = &mock.vendor_calls[0];
    assert_eq!(*req, S310_INIT_REQUEST);
    assert_eq!(*val, 0);
    assert_eq!(*idx, 0);
    assert_eq!(data, &vec![0x54u8]);

    assert!(mock.vendor_reads.len() >= 1, "expected vendor reads >= 1");
    let (rreq, rval, ridx) = &mock.vendor_reads[0];
    assert_eq!(*rreq, S310_INIT_REQUEST);
    assert_eq!(*rval, 0);
    assert_eq!(*ridx, 0);
}

#[test]
fn s320_model_init_sends_sequence() {
    let mut mock = MockTransport::new(DeviceType::S320);
    mock.push_response(vec![0xAA]);
    let model = S320Model::new();
    logged(&mut mock, |l| model.initialize(l)).unwrap();
    assert_eq!(mock.sent.len(), 2);
    assert_eq!(mock.sent[0], vec![0x5C, 0x01]);
    assert_eq!(mock.sent[1], vec![0x5C, 0x02]);
}

#[test]
fn s320_model_uses_vendor_control_parameters() {
    let mut mock = MockTransport::new(DeviceType::S320);
    mock.push_response(vec![0xAA]);
    let model = S320Model::new();
    logged(&mut mock, |l| model.initialize(l)).unwrap();

    assert!(mock.vendor_calls.len() >= 2, "expected vendor calls >= 2");
    let (req1, val1, idx1, data1) = &mock.vendor_calls[0];
    assert_eq!(*req1, S320_INIT1_REQUEST);
    assert_eq!(*val1, 0);
    assert_eq!(*idx1, 0);
    assert_eq!(data1, &s320_init1());

    let (req2, val2, idx2, data2) = &mock.vendor_calls[1];
    assert_eq!(*req2, S320_INIT2_REQUEST);
    assert_eq!(*val2, 0);
    assert_eq!(*idx2, 0);
    assert_eq!(data2, &s320_init2());
}

#[test]
fn s320_model_init_retries_and_fails_on_timeout() {
    let mut mock = MockTransport::new(DeviceType::S320);
    let model = S320Model::new();
    match logged(&mut mock, |l| model.initialize(l)) {
        Err(Error::Timeout) => {}
        other => panic!("expected Timeout, got {:?}", other),
    }
}

#[test]
fn s320_model_fallback_to_receive_on_control_fail() {
    let mut mock = MockTransport::new(DeviceType::S320);
    mock.set_control_failures(1);
    mock.push_response(vec![0xBB]);
    let model = S320Model::new();
    logged(&mut mock, |l| model.initialize(l)).unwrap();
    assert_eq!(mock.sent.len(), 2);
    assert_eq!(mock.sent[0], vec![0x5C, 0x01]);
    assert_eq!(mock.sent[1], vec![0x5C, 0x02]);
}

#[test]
fn s320_model_falls_back_to_plain_receive_when_read_is_empty() {
    let mut mock = MockTransport::new(DeviceType::S320);
    mock.push_response(vec![]);
    mock.push_response(vec![0xCC]);
    logged(&mut mock, |l| S320Model::new().initialize(l)).unwrap();
    assert_eq!(mock.responses.len(), 0);
    assert_eq!(mock.vendor_calls.len(), 2);
}

#[test]
fn mock_transport_basic() {
    let mut m = MockTransport::new(DeviceType::S310);
    m.push_response(vec![0x01]);
    m.send(&[0xaa]).unwrap();
    assert_eq!(m.sent.len(), 1);
    let r = m.receive(1000).unwrap();
    assert_eq!(r, vec![0x01]);
}

#[test]
fn mock_transport_multiple_responses() {
    let mut m = MockTransport::new(DeviceType::S320);
    m.push_response(vec![0x01]);
    m.push_response(vec![0x02]);
    assert_eq!(m.receive(1000).unwrap(), vec![0x01]);
    assert_eq!(m.receive(1000).unwrap(), vec![0x02]);
    assert!(matches!(m.receive(1000), Err(Error::Timeout)));
}

#[test]
fn mock_transport_send_and_receive() {
    let mut m = MockTransport::new(DeviceType::S310);
    m.push_response(vec![0x01]);
    m.send(&[0xAA]).unwrap();
    assert_eq!(m.sent.len(), 1);
    let r = m.receive(1000).unwrap();
    assert_eq!(r, vec![0x01]);
    assert_eq!(m.pop_sent(), Some(vec![0xAA]));
    assert_eq!(m.pop_sent(), None);
}

#[test]
fn vendor_control_write_records_call() {
    let mut m = MockTransport::new(DeviceType::S320);
    m.vendor_control_write(0xAB, 0x1234, 0x0001, &[0x10, 0x20]).unwrap();
    assert_eq!(m.vendor_calls.len(), 1);
    let (req, val, idx, data) = &m.vendor_calls[0];
    assert_eq!(*req, 0xAB);
    assert_eq!(*val, 0x1234);
    assert_eq!(*idx, 0x0001);
    assert_eq!(data, &vec![0x10u8, 0x20u8]);
}

#[test]
fn control_read_failure_and_recovery() {
    let mut m = MockTransport::new(DeviceType::S320);
    seed_init_and_frames(&mut m, vec![]);
    m.set_control_failures(1);
    assert!(m.control_read(1000).is_err());
    let r = m.control_read(1000).unwrap();
    assert_eq!(r, vec![0xAA]);
}

#[test]
fn trait_object_send_receive() {
    let mut m = MockTransport::new(DeviceType::S320);
    m.push_response(vec![0x01, 0x02]);
    m.send(&[0x10]).unwrap();
    let r = m.receive(1000).unwrap();
    assert_eq!(r, vec![0x01, 0x02]);
    assert_eq!(m.device_type().unwrap(), DeviceType::S320);
}

#[test]
fn vendor_control_default_uses_control() {
    let mut m = MockTransport::new(DeviceType::S320);
    m.push_response(vec![0x99]);
    let r = m.vendor_control_read(0x01, 0, 0, 1000).unwrap();
    assert_eq!(r, vec![0x99]);
}

#[test]
fn card_from_polling_requires_polling_response() {
    let card = Card::new(
        libpafe::types::Idm::from_bytes([1; 8]),
        libpafe::types::Pmm::from_bytes([2; 8]),
        SystemCode::new(3),
    );
    assert_eq!(card.card_type(), CardType::TypeF);
}

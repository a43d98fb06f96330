//! Helpers that build seeded mock transports and devices.

use vstd::prelude::*;

use crate::device::handle::{Device, Initialized};
use crate::error::Result;
use crate::transport::mock::MockTransport;
use crate::types::DeviceType;

verus! {

/// A mock transport for `device_type` with `responses` queued in order.
pub fn boxed_mock_with_responses(device_type: DeviceType, responses: Vec<Vec<u8>>) -> (r:
    MockTransport)
    ensures
        r.device_type == device_type,
        r.responses@ == responses@,
        r.sent@.len() == 0,
        r.control_failures == 0,
{
    let mut mock = MockTransport::new(device_type);
    let mut rest = responses;
    while rest.len() > 0
        invariant
            mock.device_type == device_type,
            mock.responses@ + rest@ == responses@,
            mock.sent@.len() == 0,
            mock.control_failures == 0,
        decreases rest@.len(),
    {
        let ghost before = mock.responses@;
        let ghost rest_before = rest@;
        let next = rest.remove(0);
        mock.push_response(next);
        proof {
            assert(mock.responses@ + rest@ =~= before + rest_before);
        }
    }
    proof {
        assert(mock.responses@ + rest@ =~= mock.responses@);
    }
    mock
}

/// An initialized device over a mock seeded with `responses`.
pub fn initialized_mock_device(device_type: DeviceType, responses: Vec<Vec<u8>>) -> (r: Result<
    Device<MockTransport, Initialized>,
>)
    ensures
        r matches Ok(d) ==> d.wf(),
{
    let mock = boxed_mock_with_responses(device_type, responses);
    let device = Device::new_with_transport(mock)?;
    device.initialize()
}

/// Queues a one-byte handshake reply (`AA`), then `frames`, on a mock.
pub fn seed_init_and_frames(mock: &mut MockTransport, frames: Vec<Vec<u8>>)
    ensures
        final(mock).responses@.len() == old(mock).responses@.len() + 1 + frames@.len(),
        final(mock).responses@.subrange(0, old(mock).responses@.len() as int)
            == old(mock).responses@,
        final(mock).responses@[old(mock).responses@.len() as int]@ == seq![0xaau8],
        final(mock).responses@.subrange(
            (old(mock).responses@.len() + 1) as int,
            final(mock).responses@.len() as int,
        ) == frames@,
        final(mock).sent == old(mock).sent,
        final(mock).device_type == old(mock).device_type,
{
    let ack = vec![0xaau8];
    proof {
        assert(ack@ =~= seq![0xaau8]);
    }
    mock.push_response(ack);
    let ghost base = mock.responses@;
    let mut rest = frames;
    while rest.len() > 0
        invariant
            mock.responses@ + rest@ == base + frames@,
            base == old(mock).responses@.push(ack),
            mock.responses@.len() >= base.len(),
            mock.responses@.subrange(0, base.len() as int) == base,
            mock.sent == old(mock).sent,
            mock.device_type == old(mock).device_type,
        decreases rest@.len(),
    {
        let ghost before = mock.responses@;
        let ghost rest_before = rest@;
        let next = rest.remove(0);
        mock.push_response(next);
        proof {
            assert(mock.responses@ + rest@ =~= before + rest_before);
            assert(mock.responses@.subrange(0, base.len() as int) =~= before.subrange(
                0,
                base.len() as int,
            ));
        }
    }
    proof {
        assert(mock.responses@ =~= base + frames@);
        assert(mock.responses@.subrange(0, old(mock).responses@.len() as int)
            =~= old(mock).responses@);
        assert(mock.responses@.subrange(base.len() as int, mock.responses@.len() as int)
            =~= frames@);
    }
}

} // verus!

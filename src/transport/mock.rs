//! An in-memory transport: it records what is sent and hands out queued
//! responses in order.

use vstd::prelude::*;

use crate::error::{Error, Result};
use crate::transport::traits::Transport;
use crate::types::{copy_range, DeviceType};

verus! {

/// In-memory transport that records every buffer sent and answers reads
/// from a queue of seeded responses, first in first out.
#[derive(Debug)]
pub struct MockTransport {
    /// Every buffer sent, in order.
    pub sent: Vec<Vec<u8>>,
    /// Responses still to be handed out, next first.
    pub responses: Vec<Vec<u8>>,
    /// The generation the mock reports.
    pub device_type: DeviceType,
    /// How many of the next control reads fail with a timeout.
    pub control_failures: usize,
    /// Vendor control writes: request, value, index, data.
    pub vendor_calls: Vec<(u8, u16, u16, Vec<u8>)>,
    /// Vendor control reads: request, value, index.
    pub vendor_reads: Vec<(u8, u16, u16)>,
}

impl MockTransport {
    /// An empty mock that reports `device_type`.
    pub fn new(device_type: DeviceType) -> (r: Self)
        ensures
            r.sent@.len() == 0,
            r.responses@.len() == 0,
            r.device_type == device_type,
            r.control_failures == 0,
            r.vendor_calls@.len() == 0,
            r.vendor_reads@.len() == 0,
    {
        MockTransport {
            sent: Vec::new(),
            responses: Vec::new(),
            device_type,
            control_failures: 0,
            vendor_calls: Vec::new(),
            vendor_reads: Vec::new(),
        }
    }

    /// Makes the next `n` control reads fail with a timeout.
    pub fn set_control_failures(&mut self, n: usize)
        ensures
            final(self).device_type == old(self).device_type,
            final(self).control_failures == n,
            final(self).sent == old(self).sent,
            final(self).responses == old(self).responses,
            final(self).device_type == old(self).device_type,
    {
        self.control_failures = n;
    }

    /// Queues a response behind the others.
    pub fn push_response(&mut self, resp: Vec<u8>)
        ensures
            final(self).device_type == old(self).device_type,
            final(self).responses@ == old(self).responses@.push(resp),
            final(self).sent == old(self).sent,
            final(self).device_type == old(self).device_type,
            final(self).control_failures == old(self).control_failures,
    {
        self.responses.push(resp);
    }

    /// Takes the last buffer sent, if any.
    pub fn pop_sent(&mut self) -> (r: Option<Vec<u8>>)
        ensures
            final(self).device_type == old(self).device_type,
            old(self).sent@.len() == 0 ==> r is None && final(self).sent@.len() == 0,
            old(self).sent@.len() > 0 ==> r == Some(old(self).sent@.last()) && final(self).sent@
                == old(self).sent@.drop_last(),
            final(self).responses == old(self).responses,
    {
        self.sent.pop()
    }

    /// Hands out the next queued response, or a timeout when none is left.
    pub fn next_response(&mut self) -> (r: Result<Vec<u8>>)
        ensures
            final(self).device_type == old(self).device_type,
            old(self).responses@.len() == 0 ==> r == Err::<Vec<u8>, Error>(Error::Timeout)
                && final(self).responses == old(self).responses,
            old(self).responses@.len() > 0 ==> r == Ok::<Vec<u8>, Error>(old(self).responses@[0])
                && final(self).responses@ == old(self).responses@.remove(0),
            final(self).sent == old(self).sent,
            final(self).device_type == old(self).device_type,
            final(self).control_failures == old(self).control_failures,
    {
        if self.responses.len() == 0 {
            Err(Error::Timeout)
        } else {
            Ok(self.responses.remove(0))
        }
    }

    /// Records a buffer as sent.
    pub fn record_sent(&mut self, data: &[u8])
        ensures
            final(self).device_type == old(self).device_type,
            final(self).sent@.len() == old(self).sent@.len() + 1,
            final(self).sent@.last()@ == data@,
            final(self).sent@.drop_last() == old(self).sent@,
            final(self).responses == old(self).responses,
            final(self).device_type == old(self).device_type,
            final(self).control_failures == old(self).control_failures,
    {
        let v = copy_range(data, 0, data.len());
        proof {
            assert(data@.subrange(0, data@.len() as int) =~= data@);
        }
        self.sent.push(v);
        proof {
            assert(self.sent@.drop_last() =~= old(self).sent@);
        }
    }
}

impl Transport for MockTransport {
    fn send(&mut self, data: &[u8]) -> Result<()> {
        self.record_sent(data);
        Ok(())
    }

    fn receive(&mut self, timeout_ms: u64) -> Result<Vec<u8>> {
        self.next_response()
    }

    fn device_type(&self) -> Result<DeviceType> {
        Ok(self.device_type)
    }

    /// Clears the record of sent buffers; queued responses stay.
    fn reset(&mut self) -> Result<()> {
        self.sent.clear();
        Ok(())
    }

    fn control_write(&mut self, data: &[u8]) -> Result<()> {
        self.record_sent(data);
        Ok(())
    }

    fn control_read(&mut self, timeout_ms: u64) -> Result<Vec<u8>> {
        if self.control_failures > 0 {
            self.control_failures = self.control_failures - 1;
            return Err(Error::Timeout);
        }
        self.next_response()
    }

    fn vendor_control_write(&mut self, request: u8, value: u16, index: u16, data: &[u8]) -> Result<
        (),
    > {
        let copy = copy_range(data, 0, data.len());
        self.vendor_calls.push((request, value, index, copy));
        self.record_sent(data);
        Ok(())
    }

    fn vendor_control_read(&mut self, request: u8, value: u16, index: u16, timeout_ms: u64) -> Result<
        Vec<u8>,
    > {
        self.vendor_reads.push((request, value, index));
        self.next_response()
    }

    fn in_endpoint(&self) -> Option<u8> {
        None
    }

    fn out_endpoint(&self) -> Option<u8> {
        None
    }

    fn clear_halt(&mut self, endpoint: u8) -> Result<()> {
        Ok(())
    }
}

} // verus!

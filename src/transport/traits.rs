//! The byte channel to a reader.

use vstd::prelude::*;

use crate::error::{Error, Result};
use crate::types::DeviceType;

verus! {

/// One operation on a transport, with its outcome.
pub enum Op {
    Send { data: Seq<u8>, result: core::result::Result<(), Error> },
    Receive { timeout_ms: u64, reply: core::result::Result<Seq<u8>, Error> },
    Reset { result: core::result::Result<(), Error> },
    VendorWrite {
        request: u8,
        value: u16,
        index: u16,
        data: Seq<u8>,
        result: core::result::Result<(), Error>,
    },
    VendorRead {
        request: u8,
        value: u16,
        index: u16,
        timeout_ms: u64,
        reply: core::result::Result<Seq<u8>, Error>,
    },
    DeviceType { reply: core::result::Result<DeviceType, Error> },
}

/// Whether `op` is a vendor write with these parameters and data.
pub open spec fn is_vendor_write(op: Op, request: u8, value: u16, index: u16, data: Seq<u8>) -> bool {
    match op {
        Op::VendorWrite { request: rq, value: v, index: ix, data: d, .. } => rq == request && v
            == value && ix == index && d == data,
        _ => false,
    }
}

/// Whether `op` is a vendor read with these parameters and timeout.
pub open spec fn is_vendor_read(op: Op, request: u8, value: u16, index: u16, timeout_ms: u64) -> bool {
    match op {
        Op::VendorRead { request: rq, value: v, index: ix, timeout_ms: t, .. } => rq == request && v
            == value && ix == index && t == timeout_ms,
        _ => false,
    }
}

/// A received buffer as plain bytes.
pub open spec fn reply_of(r: Result<Vec<u8>>) -> core::result::Result<Seq<u8>, Error> {
    match r {
        Ok(v) => Ok(v@),
        Err(e) => Err(e),
    }
}

/// Whether the log `after` continues the log `before`.
pub open spec fn extends(before: Seq<Op>, after: Seq<Op>) -> bool {
    after.len() >= before.len() && after.subrange(0, before.len() as int) == before
}

/// The operations of `after` that follow those of `before`.
pub open spec fn appended(before: Seq<Op>, after: Seq<Op>) -> Seq<Op> {
    after.subrange(before.len() as int, after.len() as int)
}

/// Appended operations compose.
pub proof fn lemma_appended_trans(a: Seq<Op>, b: Seq<Op>, c: Seq<Op>)
    requires
        extends(a, b),
        extends(b, c),
    ensures
        extends(a, c),
        appended(a, c) == appended(a, b) + appended(b, c),
{
    assert(c.subrange(0, a.len() as int) =~= b.subrange(0, a.len() as int));
    assert(appended(a, c) =~= appended(a, b) + appended(b, c));
}

/// A log is continued by itself with nothing appended.
pub proof fn lemma_appended_none(a: Seq<Op>)
    ensures
        extends(a, a),
        appended(a, a) == Seq::<Op>::empty(),
{
    assert(a.subrange(0, a.len() as int) =~= a);
    assert(appended(a, a) =~= Seq::<Op>::empty());
}

/// Pushing one operation appends exactly it.
pub proof fn lemma_appended_push(a: Seq<Op>, op: Op)
    ensures
        extends(a, a.push(op)),
        appended(a, a.push(op)) == seq![op],
{
    assert(a.push(op).subrange(0, a.len() as int) =~= a);
    assert(appended(a, a.push(op)) =~= seq![op]);
}

/// A byte channel to a reader. What comes back from the reader is outside
/// the library's knowledge, so the operations promise nothing of it; the
/// library records what it asks of a transport in a `Logged` wrapper.
pub trait Transport {
    /// Sends bytes to the reader.
    fn send(&mut self, data: &[u8]) -> Result<()>;

    /// Receives one buffer, waiting at most `timeout_ms` milliseconds.
    fn receive(&mut self, timeout_ms: u64) -> Result<Vec<u8>>;

    /// The hardware generation of the reader.
    fn device_type(&self) -> Result<DeviceType>;

    /// Soft reset of the channel.
    fn reset(&mut self) -> Result<()>;

    /// Control transfer out with default parameters; sends by default.
    fn control_write(&mut self, data: &[u8]) -> Result<()> {
        self.send(data)
    }

    /// Control transfer in with default parameters; receives by default.
    fn control_read(&mut self, timeout_ms: u64) -> Result<Vec<u8>> {
        self.receive(timeout_ms)
    }

    /// Vendor control transfer out; a default control write by default.
    fn vendor_control_write(&mut self, request: u8, value: u16, index: u16, data: &[u8]) -> Result<
        (),
    > {
        self.control_write(data)
    }

    /// Vendor control transfer in; a default control read by default.
    fn vendor_control_read(&mut self, request: u8, value: u16, index: u16, timeout_ms: u64) -> Result<
        Vec<u8>,
    > {
        self.control_read(timeout_ms)
    }

    /// Address of the discovered IN endpoint, if any.
    fn in_endpoint(&self) -> Option<u8> {
        None
    }

    /// Address of the discovered OUT endpoint, if any.
    fn out_endpoint(&self) -> Option<u8> {
        None
    }

    /// Clears a stall condition on an endpoint.
    fn clear_halt(&mut self, endpoint: u8) -> Result<()> {
        Ok(())
    }
}

/// A transport together with the log of every operation the library made
/// on it and the outcome it got.
pub struct Logged<T> {
    /// The transport.
    pub inner: T,
    /// Every operation made through this wrapper, in order.
    pub log: Ghost<Seq<Op>>,
}

impl<T> Logged<T> {
    /// The operations made so far.
    pub open spec fn ops(&self) -> Seq<Op> {
        self.log@
    }
}

impl<T: Transport> Logged<T> {
    /// Wraps a transport, with an empty log.
    pub fn new(inner: T) -> (r: Self)
        ensures
            r.inner == inner,
            r.ops().len() == 0,
    {
        Logged { inner, log: Ghost(Seq::empty()) }
    }

    /// Sends bytes.
    pub fn send(&mut self, data: &[u8]) -> (r: Result<()>)
        ensures
            final(self).ops() == old(self).ops().push(Op::Send { data: data@, result: r }),
    {
        let r = self.inner.send(data);
        self.log = Ghost(self.log@.push(Op::Send { data: data@, result: r }));
        r
    }

    /// Receives one buffer.
    pub fn receive(&mut self, timeout_ms: u64) -> (r: Result<Vec<u8>>)
        ensures
            final(self).ops() == old(self).ops().push(Op::Receive { timeout_ms, reply: reply_of(r) }),
    {
        let r = self.inner.receive(timeout_ms);
        self.log = Ghost(self.log@.push(Op::Receive { timeout_ms, reply: reply_of(r) }));
        r
    }

    /// Asks the generation of the reader.
    pub fn device_type(&mut self) -> (r: Result<DeviceType>)
        ensures
            final(self).ops() == old(self).ops().push(Op::DeviceType { reply: r }),
    {
        let r = self.inner.device_type();
        self.log = Ghost(self.log@.push(Op::DeviceType { reply: r }));
        r
    }

    /// Resets the channel.
    pub fn reset(&mut self) -> (r: Result<()>)
        ensures
            final(self).ops() == old(self).ops().push(Op::Reset { result: r }),
    {
        let r = self.inner.reset();
        self.log = Ghost(self.log@.push(Op::Reset { result: r }));
        r
    }

    /// Vendor control transfer out.
    pub fn vendor_control_write(&mut self, request: u8, value: u16, index: u16, data: &[u8]) -> (r:
        Result<()>)
        ensures
            final(self).ops() == old(self).ops().push(
                Op::VendorWrite { request, value, index, data: data@, result: r },
            ),
    {
        let r = self.inner.vendor_control_write(request, value, index, data);
        self.log = Ghost(
            self.log@.push(Op::VendorWrite { request, value, index, data: data@, result: r }),
        );
        r
    }

    /// Vendor control transfer in.
    pub fn vendor_control_read(&mut self, request: u8, value: u16, index: u16, timeout_ms: u64) -> (r:
        Result<Vec<u8>>)
        ensures
            final(self).ops() == old(self).ops().push(
                Op::VendorRead { request, value, index, timeout_ms, reply: reply_of(r) },
            ),
    {
        let r = self.inner.vendor_control_read(request, value, index, timeout_ms);
        self.log = Ghost(
            self.log@.push(
                Op::VendorRead { request, value, index, timeout_ms, reply: reply_of(r) },
            ),
        );
        r
    }
}

} // verus!

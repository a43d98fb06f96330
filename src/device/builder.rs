//! Construction of a reader handle from a transport.

use vstd::prelude::*;

use crate::device::handle::{Device, Uninitialized};
use crate::transport::traits::Op;
use crate::types::DeviceType;
use crate::error::{Error, Result};
use crate::transport::traits::Transport;

verus! {

/// Collects what a handle needs.
pub struct DeviceBuilder<T> {
    pub transport: Option<T>,
}

impl<T: Transport> DeviceBuilder<T> {
    /// A builder with no transport.
    pub fn new() -> (r: Self)
        ensures
            r.transport is None,
    {
        DeviceBuilder { transport: None }
    }

    /// Sets the transport.
    pub fn with_transport(self, transport: T) -> (r: Self)
        ensures
            r.transport == Some(transport),
    {
        DeviceBuilder { transport: Some(transport) }
    }

    /// The handle over the transport; without a transport, no device.
    pub fn build_uninitialized(self) -> (r: Result<Device<T, Uninitialized>>)
        ensures
            self.transport is None ==> r == Err::<Device<T, Uninitialized>, Error>(
                Error::DeviceNotFound,
            ),
            r matches Ok(d) ==> d.wf(),
            r matches Ok(d) ==> d.trace() == seq![
                Op::DeviceType { reply: Ok::<DeviceType, Error>(d.kind()) },
            ],
    {
        match self.transport {
            Some(t) => Device::new_with_transport(t),
            None => Err(Error::DeviceNotFound),
        }
    }
}

} // verus!

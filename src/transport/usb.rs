//! Decisions of the USB transport: which reader to open, which endpoints
//! to use, what to write on each attempt and how long to wait between
//! attempts. The USB calls themselves are made by the caller.

use vstd::prelude::*;

use crate::device::handle::{ack_frame, is_ack_frame};
use crate::device::models::s330::PN53X_HOST_PREFIX;
use crate::protocol::frame::{frame_of, Frame};
use crate::types::{copy_range, device_type_of_pid, DeviceType};

verus! {

/// USB vendor id of Sony.
pub const USB_VENDOR_ID: u16 = 0x054c;
/// Attempts of a bulk or interrupt transfer before giving up.
pub const USB_TRANSFER_ATTEMPTS: u64 = 3;
/// Attempts of a vendor control read before giving up.
pub const USB_CONTROL_READ_ATTEMPTS: u64 = 3;
/// Gap between vendor control read attempts, in milliseconds.
pub const USB_CONTROL_READ_GAP_MS: u64 = 30;
/// Size of the receive buffer.
pub const USB_RECEIVE_BUFFER_LEN: usize = 512;
/// Default timeout of writes, in milliseconds.
pub const USB_DEFAULT_TIMEOUT_MS: u64 = 1000;

/// The first reader among USB devices given by (vendor id, product id):
/// its position and generation.
pub open spec fn reader_from(ids: Seq<(u16, u16)>, k: int) -> Option<(int, DeviceType)>
    decreases ids.len() - k,
{
    if k < 0 || k >= ids.len() {
        None
    } else if ids[k].0 == USB_VENDOR_ID && device_type_of_pid(ids[k].1) is Some {
        Some((k, device_type_of_pid(ids[k].1).unwrap()))
    } else {
        reader_from(ids, k + 1)
    }
}

/// Picks the first device with Sony's vendor id and a known product id.
pub fn find_reader(ids: &[(u16, u16)]) -> (r: Option<(usize, DeviceType)>)
    ensures
        match (r, reader_from(ids@, 0)) {
            (Some((i, t)), Some((j, u))) => i == j && t == u,
            (None, None) => true,
            _ => false,
        },
{
    let mut k: usize = 0;
    while k < ids.len()
        invariant
            k <= ids@.len(),
            reader_from(ids@, 0) == reader_from(ids@, k as int),
        decreases ids.len() - k,
    {
        let (vendor, product) = ids[k];
        if vendor == USB_VENDOR_ID {
            match DeviceType::from_product_id(product) {
                Some(t) => {
                    return Some((k, t));
                },
                None => {},
            }
        }
        k += 1;
    }
    None
}

/// One endpoint descriptor: interface number, address, and whether it is
/// an IN endpoint.
#[derive(Debug, Clone, Copy, PartialEq, Eq, Structural)]
pub struct EndpointInfo {
    pub interface: u8,
    pub address: u8,
    pub is_in: bool,
}

/// The endpoints chosen from descriptors `0..k`: the first IN address, the
/// first OUT address, and the interface of the last one chosen.
pub open spec fn endpoints_upto(eps: Seq<EndpointInfo>, k: int) -> (Option<u8>, Option<u8>, Option<u8>)
    decreases k,
{
    if k <= 0 || k > eps.len() {
        (None, None, None)
    } else {
        let (i, o, f) = endpoints_upto(eps, k - 1);
        let e = eps[k - 1];
        if e.is_in && i is None {
            (Some(e.address), o, Some(e.interface))
        } else if !e.is_in && o is None {
            (i, Some(e.address), Some(e.interface))
        } else {
            (i, o, f)
        }
    }
}

/// Walks endpoint descriptors in order and keeps the first IN and the
/// first OUT endpoint, with the interface that holds them.
pub fn pick_endpoints(eps: &[EndpointInfo]) -> (r: (Option<u8>, Option<u8>, Option<u8>))
    ensures
        r == endpoints_upto(eps@, eps@.len() as int),
{
    let mut in_ep: Option<u8> = None;
    let mut out_ep: Option<u8> = None;
    let mut iface: Option<u8> = None;
    let mut k: usize = 0;
    while k < eps.len()
        invariant
            k <= eps@.len(),
            (in_ep, out_ep, iface) == endpoints_upto(eps@, k as int),
        decreases eps.len() - k,
    {
        let e = eps[k];
        if e.is_in && in_ep.is_none() {
            in_ep = Some(e.address);
            iface = Some(e.interface);
        } else if !e.is_in && out_ep.is_none() {
            out_ep = Some(e.address);
            iface = Some(e.interface);
        }
        k += 1;
    }
    (in_ep, out_ep, iface)
}

/// What an OUT transfer writes: a PN53x command (`D4 ...`) that fits in a
/// frame goes framed, anything else as it is.
pub open spec fn out_bytes(data: Seq<u8>) -> Seq<u8> {
    if data.len() > 0 && data[0] == PN53X_HOST_PREFIX && data.len() <= 255 {
        frame_of(data)
    } else {
        data
    }
}

/// The buffer an OUT transfer writes for `data`.
pub fn out_buffer(data: &[u8]) -> (r: Vec<u8>)
    ensures
        r@ == out_bytes(data@),
{
    if data.len() > 0 && data[0] == PN53X_HOST_PREFIX {
        match Frame::encode(data) {
            Ok(f) => {
                return f;
            },
            Err(_) => {},
        }
    }
    let r = copy_range(data, 0, data.len());
    proof {
        assert(data@.subrange(0, data@.len() as int) =~= data@);
    }
    r
}

/// Wait after the failed attempt number `attempt` (from 1), in
/// milliseconds: 20, 40, 60.
pub fn backoff_ms(attempt: u64) -> (r: u64)
    requires
        attempt <= USB_TRANSFER_ATTEMPTS,
    ensures
        r == 20 * attempt,
{
    20 * attempt
}

/// The next thing a bulk or interrupt transfer with retries does.
#[derive(Debug, Clone, Copy, PartialEq, Eq, Structural)]
pub enum UsbStep {
    /// Try a bulk transfer.
    TryBulk,
    /// Try an interrupt transfer.
    TryInterrupt,
    /// Clear a stall on the endpoint.
    ClearHalt,
    /// Wait this many milliseconds.
    Wait { ms: u64 },
    /// Give up with the last failure.
    GiveUp,
}

/// Where a transfer with retries stands: the attempt (from 1) and the next
/// step.
#[derive(Debug, Clone, Copy, PartialEq, Eq, Structural)]
pub struct UsbRetry {
    pub attempt: u64,
    pub step: UsbStep,
}

/// The step after `s` when a transfer step failed or a recovery step was
/// done: bulk, then interrupt, then clear halt, then a wait of 20 ms per
/// attempt, then the next attempt; after the last attempt, give up.
pub open spec fn retry_after(s: UsbRetry) -> UsbRetry {
    match s.step {
        UsbStep::TryBulk => UsbRetry { attempt: s.attempt, step: UsbStep::TryInterrupt },
        UsbStep::TryInterrupt => UsbRetry { attempt: s.attempt, step: UsbStep::ClearHalt },
        UsbStep::ClearHalt => UsbRetry {
            attempt: s.attempt,
            step: UsbStep::Wait { ms: (20 * s.attempt) as u64 },
        },
        UsbStep::Wait { .. } => if s.attempt < USB_TRANSFER_ATTEMPTS {
            UsbRetry { attempt: (s.attempt + 1) as u64, step: UsbStep::TryBulk }
        } else {
            UsbRetry { attempt: s.attempt, step: UsbStep::GiveUp }
        },
        UsbStep::GiveUp => s,
    }
}

/// The first step of a transfer: a bulk transfer, attempt 1.
pub fn retry_start() -> (r: UsbRetry)
    ensures
        r == (UsbRetry { attempt: 1, step: UsbStep::TryBulk }),
{
    UsbRetry { attempt: 1, step: UsbStep::TryBulk }
}

/// The step after `s`; see `retry_after`.
pub fn retry_next(s: UsbRetry) -> (r: UsbRetry)
    requires
        1 <= s.attempt <= USB_TRANSFER_ATTEMPTS,
    ensures
        r == retry_after(s),
        1 <= r.attempt <= USB_TRANSFER_ATTEMPTS,
{
    match s.step {
        UsbStep::TryBulk => UsbRetry { attempt: s.attempt, step: UsbStep::TryInterrupt },
        UsbStep::TryInterrupt => UsbRetry { attempt: s.attempt, step: UsbStep::ClearHalt },
        UsbStep::ClearHalt => UsbRetry {
            attempt: s.attempt,
            step: UsbStep::Wait { ms: backoff_ms(s.attempt) },
        },
        UsbStep::Wait { .. } => {
            if s.attempt < USB_TRANSFER_ATTEMPTS {
                UsbRetry { attempt: s.attempt + 1, step: UsbStep::TryBulk }
            } else {
                UsbRetry { attempt: s.attempt, step: UsbStep::GiveUp }
            }
        },
        UsbStep::GiveUp => s,
    }
}

/// Whether a read needs one more read appended: on the S330, a buffer that
/// is only the PN53x ACK frame.
pub fn needs_follow_up(device_type: DeviceType, buf: &[u8]) -> (r: bool)
    ensures
        r == (device_type == DeviceType::S330 && buf@ == ack_frame()),
{
    device_type == DeviceType::S330 && is_ack_frame(buf)
}

} // verus!

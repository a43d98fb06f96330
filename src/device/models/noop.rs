//! The model for readers of no known generation: it does nothing.

use vstd::prelude::*;

use crate::card::Card;
use crate::device::models::DeviceModel;
use crate::error::{Error, Result};
use crate::transport::traits::{Logged, Transport};
use crate::types::{copy_range, CardType, SystemCode};

verus! {

/// A model whose handshake does nothing and whose envelopes are identity.
#[derive(Debug, Clone, Copy, PartialEq, Eq, Structural)]
pub struct NoopModel;

impl NoopModel {
    /// The model.
    pub fn new() -> (r: Self)
        ensures
            r == NoopModel,
    {
        NoopModel
    }

    /// Does nothing.
    pub fn initialize<T: Transport>(&self, transport: &mut Logged<T>) -> (r: Result<()>)
        ensures
            r is Ok,
            *final(transport) == *old(transport),
    {
        Ok(())
    }
}

impl DeviceModel for NoopModel {
    fn initialize<T: Transport>(&self, transport: &mut Logged<T>) -> Result<()> {
        NoopModel::initialize(self, transport)
    }

    fn wrap_command(&self, framed: &[u8], payload: &[u8]) -> Vec<u8> {
        copy_range(framed, 0, framed.len())
    }

    fn unwrap_response(&self, expected_cmd: u8, raw: &[u8]) -> Result<Vec<u8>> {
        Ok(copy_range(raw, 0, raw.len()))
    }

    fn list_passive_targets<T: Transport>(
        &self,
        transport: &mut Logged<T>,
        card_type: CardType,
        system_code: SystemCode,
        max_targets: u8,
        timeout_ms: u64,
    ) -> Result<Vec<Card>> {
        Err(Error::PollingFailed)
    }

    fn extract_candidate_frames(&self, raw: &[u8], expected_cmd: u8) -> Vec<Vec<u8>> {
        Vec::new()
    }
}

} // verus!

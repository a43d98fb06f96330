//! Per-generation device models: how each reader generation is initialized
//! and how commands and responses are enveloped on its wire.

pub mod noop;
pub mod s310;
pub mod s320;
pub mod s330;

pub use noop::NoopModel;
pub use s310::S310Model;
pub use s320::S320Model;
pub use s330::S330Model;

use vstd::prelude::*;

use crate::card::Card;
use crate::device::models::s330::rcs956::extractor::extract_one;
use crate::device::models::s330::rcs956::multi_frame::{extract_all, frame_views};
use crate::device::models::s310::s310_run;
use crate::device::models::s320::s320_run;
use crate::device::models::s330::{
    card_views, list_run, passive_targets, s330_init_run, s330_wrap, unwrap_or_raw,
};
use crate::transport::traits::{appended, extends, lemma_appended_none, Op};
use crate::error::{Error, Result};
use crate::transport::traits::{Logged, Transport};
use crate::types::{copy_range, CardType, DeviceType, SystemCode};

verus! {

/// What every device model offers.
pub trait DeviceModel {
    /// The model-specific handshake.
    fn initialize<T: Transport>(&self, transport: &mut Logged<T>) -> Result<()>;

    /// The bytes to send for a command, given its framed and raw forms.
    fn wrap_command(&self, framed: &[u8], payload: &[u8]) -> Vec<u8>;

    /// The FeliCa wire frame inside a raw reply.
    fn unwrap_response(&self, expected_cmd: u8, raw: &[u8]) -> Result<Vec<u8>>;

    /// Discovery of several targets at once, where the generation has it.
    fn list_passive_targets<T: Transport>(
        &self,
        transport: &mut Logged<T>,
        card_type: CardType,
        system_code: SystemCode,
        max_targets: u8,
        timeout_ms: u64,
    ) -> Result<Vec<Card>>;

    /// Candidate wire frames of a raw reply, for recovery after a failed
    /// decode.
    fn extract_candidate_frames(&self, raw: &[u8], expected_cmd: u8) -> Vec<Vec<u8>>;
}

/// The model of one of the generations, or the model that does nothing.
#[derive(Debug, Clone, Copy, PartialEq, Eq, Structural)]
pub enum AnyModel {
    Noop(NoopModel),
    S310(S310Model),
    S320(S320Model),
    S330(S330Model),
}

/// The model that serves a generation.
pub open spec fn model_for(device_type: DeviceType) -> AnyModel {
    match device_type {
        DeviceType::S310 => AnyModel::S310(S310Model),
        DeviceType::S320 => AnyModel::S320(S320Model),
        DeviceType::S330 => AnyModel::S330(S330Model),
    }
}

/// The bytes a model sends for a command.
pub open spec fn wrap_of(m: AnyModel, framed: Seq<u8>, payload: Seq<u8>) -> Seq<u8> {
    match m {
        AnyModel::S330(_) => s330_wrap(framed, payload),
        _ => framed,
    }
}

/// The frame a model takes out of a raw reply.
pub open spec fn unwrap_of(m: AnyModel, cmd: u8, raw: Seq<u8>) -> Seq<u8> {
    match m {
        AnyModel::S330(_) => unwrap_or_raw(cmd, raw),
        _ => raw,
    }
}

/// The recovery candidates a model finds in a raw reply.
pub open spec fn candidates_of(m: AnyModel, raw: Seq<u8>, cmd: u8) -> Seq<Seq<u8>> {
    match m {
        AnyModel::S330(_) => extract_all(raw, cmd),
        _ => seq![],
    }
}

/// The operations of a model's handshake, and its result.
pub open spec fn init_run(m: AnyModel, log: Seq<Op>, r: Result<()>) -> bool {
    match m {
        AnyModel::Noop(_) => log.len() == 0 && r is Ok,
        AnyModel::S310(_) => s310_run(0, log, r),
        AnyModel::S320(_) => s320_run(0, log, r),
        AnyModel::S330(_) => s330_init_run(log) && r is Ok,
    }
}

/// The model for a generation.
pub fn create_model_for(device_type: DeviceType) -> (r: AnyModel)
    ensures
        r == model_for(device_type),
{
    match device_type {
        DeviceType::S310 => AnyModel::S310(S310Model::new()),
        DeviceType::S320 => AnyModel::S320(S320Model::new()),
        DeviceType::S330 => AnyModel::S330(S330Model::new()),
    }
}

impl AnyModel {
    /// Runs the model's handshake: see `init_run`.
    pub fn initialize<T: Transport>(&self, transport: &mut Logged<T>) -> (r: Result<()>)
        ensures
            extends(old(transport).ops(), final(transport).ops()),
            init_run(*self, appended(old(transport).ops(), final(transport).ops()), r),
    {
        match self {
            AnyModel::Noop(m) => {
                let r = m.initialize(transport);
                proof {
                    lemma_appended_none(transport.ops());
                }
                r
            },
            AnyModel::S310(m) => m.initialize(transport),
            AnyModel::S320(m) => m.initialize(transport),
            AnyModel::S330(m) => m.initialize(transport),
        }
    }

    /// The bytes to send for a command.
    pub fn wrap_command(&self, framed: &[u8], payload: &[u8]) -> (r: Vec<u8>)
        ensures
            r@ == wrap_of(*self, framed@, payload@),
    {
        match self {
            AnyModel::S330(m) => m.wrap_command(framed, payload),
            _ => {
                let r = copy_range(framed, 0, framed.len());
                proof {
                    assert(framed@.subrange(0, framed@.len() as int) =~= framed@);
                }
                r
            },
        }
    }

    /// The frame inside a raw reply.
    pub fn unwrap_response(&self, expected_cmd: u8, raw: &[u8]) -> (r: Vec<u8>)
        ensures
            r@ == unwrap_of(*self, expected_cmd, raw@),
    {
        match self {
            AnyModel::S330(m) => m.unwrap_frame(expected_cmd, raw),
            _ => {
                let r = copy_range(raw, 0, raw.len());
                proof {
                    assert(raw@.subrange(0, raw@.len() as int) =~= raw@);
                }
                r
            },
        }
    }

    /// Recovery candidates of a raw reply.
    pub fn extract_candidate_frames(&self, raw: &[u8], expected_cmd: u8) -> (r: Vec<Vec<u8>>)
        ensures
            frame_views(r@) == candidates_of(*self, raw@, expected_cmd),
    {
        match self {
            AnyModel::S330(m) => m.extract_candidate_frames(raw, expected_cmd),
            _ => {
                let r: Vec<Vec<u8>> = Vec::new();
                proof {
                    assert(frame_views(r@) =~= Seq::<Seq<u8>>::empty());
                }
                r
            },
        }
    }

    /// Multi-target discovery; only the S330 has it, the others fail with a
    /// polling error.
    pub fn list_passive_targets<T: Transport>(
        &self,
        transport: &mut Logged<T>,
        card_type: CardType,
        system_code: SystemCode,
        max_targets: u8,
        timeout_ms: u64,
    ) -> (r: Result<Vec<Card>>)
        ensures
            !(self is S330) ==> r == Err::<Vec<Card>, Error>(Error::PollingFailed),
            r matches Ok(cards) ==> exists|raw: Seq<u8>|
                card_views(cards@) == #[trigger] passive_targets(card_type, raw),
            !(self is S330) ==> *final(transport) == *old(transport),
            self is S330 ==> extends(old(transport).ops(), final(transport).ops()) && list_run(
                card_type,
                system_code.0,
                max_targets,
                timeout_ms,
                appended(old(transport).ops(), final(transport).ops()),
                r,
            ),
    {
        match self {
            AnyModel::S330(m) => m.list_passive_targets(
                transport,
                card_type,
                system_code,
                max_targets,
                timeout_ms,
            ),
            _ => Err(Error::PollingFailed),
        }
    }
}

} // verus!

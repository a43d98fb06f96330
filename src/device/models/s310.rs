//! The S310 model: a one-byte vendor handshake, frames sent as they are.

use vstd::prelude::*;

use crate::card::Card;
use crate::device::models::DeviceModel;
use crate::error::{Error, Result};
use crate::transport::traits::{
    appended, extends, lemma_appended_none, lemma_appended_push, lemma_appended_trans, reply_of, Op,
    Logged, Transport,
};
use crate::types::{copy_range, CardType, SystemCode};

verus! {

/// Handshake attempts.
pub const S310_ATTEMPTS: usize = 2;
/// Timeout of the handshake's control reads, in milliseconds.
pub const S310_READ_TIMEOUT_MS: u64 = 200;
/// Vendor request of the handshake.
pub const S310_INIT_REQUEST: u8 = 0x01;
/// Handshake payload byte.
pub const S310_INIT_BYTE: u8 = 0x54;

/// The S310 model.
#[derive(Debug, Clone, Copy, PartialEq, Eq, Structural)]
pub struct S310Model;

/// What one handshake attempt decides from its vendor read: a non-empty
/// reply ends the handshake with success; a failed read on the last attempt
/// ends it with that failure; anything else asks for another attempt.
pub open spec fn s310_outcome(attempt: int, reply: core::result::Result<Seq<u8>, Error>) -> Option<
    Result<()>,
> {
    match reply {
        Ok(v) => if v.len() > 0 {
            Some(Ok(()))
        } else {
            None
        },
        Err(e) => if attempt + 1 >= S310_ATTEMPTS {
            Some(Err(e))
        } else {
            None
        },
    }
}

/// The operations of the handshake from attempt `attempt` on, and its
/// result: each attempt is a vendor write of `54` (request 1, value 0,
/// index 0) whose failure ends the handshake, then a vendor read with the
/// same parameters and a 200 ms timeout, decided by `s310_outcome`; after
/// the last attempt, a timeout.
pub open spec fn s310_run(attempt: int, log: Seq<Op>, r: Result<()>) -> bool
    decreases S310_ATTEMPTS - attempt,
{
    if attempt >= S310_ATTEMPTS {
        log.len() == 0 && r == Err::<(), Error>(Error::Timeout)
    } else if attempt < 0 || log.len() < 1 {
        false
    } else {
        match log[0] {
            Op::VendorWrite { request, value, index, data, result } => request == S310_INIT_REQUEST
                && value == 0 && index == 0 && data == seq![S310_INIT_BYTE] && match result {
                Err(e) => log.len() == 1 && r == Err::<(), Error>(e),
                Ok(_) => log.len() >= 2 && match log[1] {
                    Op::VendorRead { request: rq, value: v, index: ix, timeout_ms, reply } => rq
                        == S310_INIT_REQUEST && v == 0 && ix == 0 && timeout_ms
                        == S310_READ_TIMEOUT_MS && match s310_outcome(attempt, reply) {
                        Some(done) => log.len() == 2 && r == done,
                        None => s310_run(attempt + 1, log.subrange(2, log.len() as int), r),
                    },
                    _ => false,
                },
            },
            _ => false,
        }
    }
}

/// What one handshake attempt decides from its vendor read; see
/// `s310_outcome`.
pub fn s310_attempt_outcome(attempt: usize, read: Result<Vec<u8>>) -> (r: Option<Result<()>>)
    ensures
        r == s310_outcome(attempt as int, reply_of(read)),
{
    match read {
        Ok(resp) => {
            if resp.len() > 0 {
                Some(Ok(()))
            } else {
                None
            }
        },
        Err(e) => {
            if attempt >= S310_ATTEMPTS - 1 {
                Some(Err(e))
            } else {
                None
            }
        },
    }
}

fn s310_attempts<T: Transport>(transport: &mut Logged<T>, attempt: usize) -> (r: Result<()>)
    requires
        attempt <= S310_ATTEMPTS,
    ensures
        extends(old(transport).ops(), final(transport).ops()),
        s310_run(attempt as int, appended(old(transport).ops(), final(transport).ops()), r),
    decreases S310_ATTEMPTS - attempt,
{
    let ghost o0 = transport.ops();
    if attempt >= S310_ATTEMPTS {
        proof {
            lemma_appended_none(o0);
        }
        return Err(Error::Timeout);
    }
    let cmd = [S310_INIT_BYTE];
    proof {
        assert(cmd@ =~= seq![S310_INIT_BYTE]);
    }
    let w = transport.vendor_control_write(S310_INIT_REQUEST, 0, 0, &cmd);
    let ghost o1 = transport.ops();
    proof {
        lemma_appended_push(o0, o1.last());
        assert(o1 == o0.push(o1.last()));
    }
    match w {
        Err(e) => {
            return Err(e);
        },
        Ok(_) => {},
    }
    let read = transport.vendor_control_read(S310_INIT_REQUEST, 0, 0, S310_READ_TIMEOUT_MS);
    let ghost o2 = transport.ops();
    proof {
        lemma_appended_push(o1, o2.last());
        lemma_appended_trans(o0, o1, o2);
    }
    match s310_attempt_outcome(attempt, read) {
        Some(done) => done,
        None => {
            let r = s310_attempts(transport, attempt + 1);
            proof {
                let f = transport.ops();
                lemma_appended_trans(o0, o2, f);
                assert(appended(o0, f).subrange(2, appended(o0, f).len() as int) =~= appended(
                    o2,
                    f,
                ));
            }
            r
        },
    }
}

impl S310Model {
    /// The model.
    pub fn new() -> (r: Self)
        ensures
            r == S310Model,
    {
        S310Model
    }

    /// The handshake: see `s310_run`.
    pub fn initialize<T: Transport>(&self, transport: &mut Logged<T>) -> (r: Result<()>)
        ensures
            extends(old(transport).ops(), final(transport).ops()),
            s310_run(0, appended(old(transport).ops(), final(transport).ops()), r),
    {
        s310_attempts(transport, 0)
    }
}

impl DeviceModel for S310Model {
    fn initialize<T: Transport>(&self, transport: &mut Logged<T>) -> Result<()> {
        S310Model::initialize(self, transport)
    }

    fn wrap_command(&self, framed: &[u8], payload: &[u8]) -> Vec<u8> {
        copy_range(framed, 0, framed.len())
    }

    fn unwrap_response(&self, expected_cmd: u8, raw: &[u8]) -> Result<Vec<u8>> {
        Ok(copy_range(raw, 0, raw.len()))
    }

    fn list_passive_targets<T: Transport>(
        &self,
        transport: &mut Logged<T>,
        card_type: CardType,
        system_code: SystemCode,
        max_targets: u8,
        timeout_ms: u64,
    ) -> Result<Vec<Card>> {
        Err(Error::PollingFailed)
    }

    fn extract_candidate_frames(&self, raw: &[u8], expected_cmd: u8) -> Vec<Vec<u8>> {
        Vec::new()
    }
}

} // verus!

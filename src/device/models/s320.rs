//! The S320 model: a two-step vendor handshake, frames sent as they are.

use vstd::prelude::*;

use crate::card::Card;
use crate::device::models::DeviceModel;
use crate::error::{Error, Result};
use crate::transport::traits::{
    appended, extends, lemma_appended_none, lemma_appended_push, lemma_appended_trans, reply_of, Op,
    Logged, Transport,
};
use crate::types::{copy_range, CardType, SystemCode};

verus! {

/// Attempts of the first handshake step.
pub const S320_INIT_ATTEMPTS: usize = 3;
/// Timeout of the handshake's reads, in milliseconds.
pub const S320_READ_TIMEOUT_MS: u64 = 200;
/// Vendor request of the first step.
pub const S320_INIT1_REQUEST: u8 = 0x01;
/// Vendor request of the second step.
pub const S320_INIT2_REQUEST: u8 = 0x02;

/// The S320 model.
#[derive(Debug, Clone, Copy, PartialEq, Eq, Structural)]
pub struct S320Model;

/// First handshake payload: `5C 01`.
pub fn s320_init1() -> (r: Vec<u8>)
    ensures
        r@ == seq![0x5cu8, 0x01u8],
{
    let r = vec![0x5cu8, 0x01];
    proof {
        assert(r@ =~= seq![0x5cu8, 0x01u8]);
    }
    r
}

/// Second handshake payload: `5C 02`.
pub fn s320_init2() -> (r: Vec<u8>)
    ensures
        r@ == seq![0x5cu8, 0x02u8],
{
    let r = vec![0x5cu8, 0x02];
    proof {
        assert(r@ =~= seq![0x5cu8, 0x02u8]);
    }
    r
}

/// Whether a vendor read of the first handshake step succeeded: it
/// returned a non-empty reply.
pub open spec fn s320_read_good(reply: core::result::Result<Seq<u8>, Error>) -> bool {
    reply matches Ok(v) && v.len() > 0
}

/// What the fallback receive of one attempt decides: a non-empty reply
/// ends the step with success; a failure on the last attempt ends it with
/// that failure; anything else asks for another attempt.
pub open spec fn s320_fallback(attempt: int, reply: core::result::Result<Seq<u8>, Error>) -> Option<
    Result<()>,
> {
    match reply {
        Ok(v) => if v.len() > 0 {
            Some(Ok(()))
        } else {
            None
        },
        Err(e) => if attempt + 1 >= S320_INIT_ATTEMPTS {
            Some(Err(e))
        } else {
            None
        },
    }
}

/// The second step: a vendor write of `5C 02` with request 2, value 0,
/// index 0, whose result is the handshake's.
pub open spec fn s320_finish(log: Seq<Op>, r: Result<()>) -> bool {
    log.len() == 1 && match log[0] {
        Op::VendorWrite { request, value, index, data, result } => request == S320_INIT2_REQUEST
            && value == 0 && index == 0 && data == seq![0x5cu8, 0x02u8] && r == result,
        _ => false,
    }
}

/// The operations of the handshake from attempt `attempt` on, and its
/// result. Each attempt is a vendor write of `5C 01` (request 1, value 0,
/// index 0) whose failure ends the handshake, then a vendor read with the
/// same parameters and a 200 ms timeout; a non-empty reply leads to the
/// second step; otherwise a plain receive of 200 ms is decided by
/// `s320_fallback`, success again leading to the second step. After the
/// last attempt, a timeout.
pub open spec fn s320_run(attempt: int, log: Seq<Op>, r: Result<()>) -> bool
    decreases S320_INIT_ATTEMPTS - attempt,
{
    if attempt >= S320_INIT_ATTEMPTS {
        log.len() == 0 && r == Err::<(), Error>(Error::Timeout)
    } else if attempt < 0 || log.len() < 2 {
        log.len() == 1 && match log[0] {
            Op::VendorWrite { request, value, index, data, result } => attempt >= 0 && request
                == S320_INIT1_REQUEST && value == 0 && index == 0 && data == seq![0x5cu8, 0x01u8]
                && result is Err && r == result,
            _ => false,
        }
    } else {
        match log[0] {
            Op::VendorWrite { request, value, index, data, result } => request == S320_INIT1_REQUEST
                && value == 0 && index == 0 && data == seq![0x5cu8, 0x01u8] && result is Ok
                && match log[1] {
                Op::VendorRead { request: rq, value: v, index: ix, timeout_ms, reply } => rq
                    == S320_INIT1_REQUEST && v == 0 && ix == 0 && timeout_ms == S320_READ_TIMEOUT_MS
                    && if s320_read_good(reply) {
                    s320_finish(log.subrange(2, log.len() as int), r)
                } else {
                    log.len() >= 3 && match log[2] {
                        Op::Receive { timeout_ms: t, reply: reply2 } => t == S320_READ_TIMEOUT_MS
                            && match s320_fallback(attempt, reply2) {
                            Some(Ok(_)) => s320_finish(log.subrange(3, log.len() as int), r),
                            Some(Err(e)) => log.len() == 3 && r == Err::<(), Error>(e),
                            None => s320_run(attempt + 1, log.subrange(3, log.len() as int), r),
                        },
                        _ => false,
                    }
                },
                _ => false,
            },
            _ => false,
        }
    }
}

/// Whether a vendor read of the first handshake step succeeded.
pub fn s320_read_ok(read: &Result<Vec<u8>>) -> (r: bool)
    ensures
        r == s320_read_good(reply_of(*read)),
{
    match read {
        Ok(resp) => resp.len() > 0,
        Err(_) => false,
    }
}

/// What the fallback receive of one attempt decides; see `s320_fallback`.
pub fn s320_fallback_outcome(attempt: usize, received: Result<Vec<u8>>) -> (r: Option<Result<()>>)
    ensures
        r == s320_fallback(attempt as int, reply_of(received)),
{
    match received {
        Ok(resp) => {
            if resp.len() > 0 {
                Some(Ok(()))
            } else {
                None
            }
        },
        Err(e) => {
            if attempt >= S320_INIT_ATTEMPTS - 1 {
                Some(Err(e))
            } else {
                None
            }
        },
    }
}

fn s320_second_step<T: Transport>(transport: &mut Logged<T>) -> (r: Result<()>)
    ensures
        extends(old(transport).ops(), final(transport).ops()),
        s320_finish(appended(old(transport).ops(), final(transport).ops()), r),
{
    let ghost o0 = transport.ops();
    let init2 = s320_init2();
    let r = transport.vendor_control_write(S320_INIT2_REQUEST, 0, 0, init2.as_slice());
    proof {
        lemma_appended_push(o0, transport.ops().last());
        assert(transport.ops() == o0.push(transport.ops().last()));
    }
    r
}

fn s320_attempts<T: Transport>(transport: &mut Logged<T>, attempt: usize) -> (r: Result<()>)
    requires
        attempt <= S320_INIT_ATTEMPTS,
    ensures
        extends(old(transport).ops(), final(transport).ops()),
        s320_run(attempt as int, appended(old(transport).ops(), final(transport).ops()), r),
    decreases S320_INIT_ATTEMPTS - attempt,
{
    let ghost o0 = transport.ops();
    if attempt >= S320_INIT_ATTEMPTS {
        proof {
            lemma_appended_none(o0);
        }
        return Err(Error::Timeout);
    }
    let init1 = s320_init1();
    let w = transport.vendor_control_write(S320_INIT1_REQUEST, 0, 0, init1.as_slice());
    let ghost o1 = transport.ops();
    proof {
        lemma_appended_push(o0, o1.last());
        assert(o1 == o0.push(o1.last()));
    }
    match w {
        Err(e) => {
            return Err(e);
        },
        Ok(_) => {},
    }
    let read = transport.vendor_control_read(S320_INIT1_REQUEST, 0, 0, S320_READ_TIMEOUT_MS);
    let ghost o2 = transport.ops();
    proof {
        lemma_appended_push(o1, o2.last());
        lemma_appended_trans(o0, o1, o2);
    }
    if s320_read_ok(&read) {
        let r = s320_second_step(transport);
        proof {
            let f = transport.ops();
            lemma_appended_trans(o0, o2, f);
            assert(appended(o0, f).subrange(2, appended(o0, f).len() as int) =~= appended(o2, f));
        }
        return r;
    }
    let received = transport.receive(S320_READ_TIMEOUT_MS);
    let ghost o3 = transport.ops();
    proof {
        lemma_appended_push(o2, o3.last());
        lemma_appended_trans(o0, o2, o3);
    }
    match s320_fallback_outcome(attempt, received) {
        Some(Ok(_)) => {
            let r = s320_second_step(transport);
            proof {
                let f = transport.ops();
                lemma_appended_trans(o0, o3, f);
                assert(appended(o0, f).subrange(3, appended(o0, f).len() as int) =~= appended(
                    o3,
                    f,
                ));
            }
            r
        },
        Some(Err(e)) => Err(e),
        None => {
            let r = s320_attempts(transport, attempt + 1);
            proof {
                let f = transport.ops();
                lemma_appended_trans(o0, o3, f);
                assert(appended(o0, f).subrange(3, appended(o0, f).len() as int) =~= appended(
                    o3,
                    f,
                ));
            }
            r
        },
    }
}

impl S320Model {
    /// The model.
    pub fn new() -> (r: Self)
        ensures
            r == S320Model,
    {
        S320Model
    }

    /// The two-step handshake: see `s320_run`.
    pub fn initialize<T: Transport>(&self, transport: &mut Logged<T>) -> (r: Result<()>)
        ensures
            extends(old(transport).ops(), final(transport).ops()),
            s320_run(0, appended(old(transport).ops(), final(transport).ops()), r),
    {
        s320_attempts(transport, 0)
    }
}

impl DeviceModel for S320Model {
    fn initialize<T: Transport>(&self, transport: &mut Logged<T>) -> Result<()> {
        S320Model::initialize(self, transport)
    }

    fn wrap_command(&self, framed: &[u8], payload: &[u8]) -> Vec<u8> {
        copy_range(framed, 0, framed.len())
    }

    fn unwrap_response(&self, expected_cmd: u8, raw: &[u8]) -> Result<Vec<u8>> {
        Ok(copy_range(raw, 0, raw.len()))
    }

    fn list_passive_targets<T: Transport>(
        &self,
        transport: &mut Logged<T>,
        card_type: CardType,
        system_code: SystemCode,
        max_targets: u8,
        timeout_ms: u64,
    ) -> Result<Vec<Card>> {
        Err(Error::PollingFailed)
    }

    fn extract_candidate_frames(&self, raw: &[u8], expected_cmd: u8) -> Vec<Vec<u8>> {
        Vec::new()
    }
}

} // verus!

//! The device handle: a transport, its generation and model, and a state
//! tag that keeps commands away from a reader that is not initialized.

use std::marker::PhantomData;
use vstd::prelude::*;

use crate::card::{Card, CardModel};
use crate::device::models::s330::rcs956::multi_frame::frame_views;
use crate::device::models::s330::{card_views, list_run, passive_targets};
use crate::device::models::{
    candidates_of, create_model_for, init_run, model_for, unwrap_of, wrap_of, AnyModel,
};
use crate::error::{Error, Result};
use crate::protocol::codec::{decode_response_frame, decode_response_frame_ok, encode_command_frame};
use crate::protocol::commands::{command_bytes, command_code_of, polling_bytes, Command};
use crate::protocol::frame::{frame_fault, frame_of, frame_payload};
use crate::protocol::responses::{response_model, Response, ResponseModel};
use crate::transport::traits::{
    appended, extends, lemma_appended_none, lemma_appended_push, lemma_appended_trans, Op, Logged, Transport,
};
use crate::types::{CardType, DeviceType, SystemCode};

verus! {

/// State tag of a handle that is not initialized yet.
pub struct Uninitialized;

/// State tag of an initialized handle.
pub struct Initialized;

/// The response a wire frame decodes to for the command code `cmd`, if any.
pub open spec fn decodes_to(cmd: u8, f: Seq<u8>) -> Option<ResponseModel> {
    if frame_fault(f) is None {
        match response_model(cmd, frame_payload(f)) {
            Ok(m) => Some(m),
            Err(_) => None,
        }
    } else {
        None
    }
}

/// The first of the frames from `k` on that decodes, and its response.
pub open spec fn first_decoded(cmd: u8, fs: Seq<Seq<u8>>, k: int) -> Option<ResponseModel>
    decreases fs.len() - k,
{
    if k < 0 || k >= fs.len() {
        None
    } else {
        match decodes_to(cmd, fs[k]) {
            Some(m) => Some(m),
            None => first_decoded(cmd, fs, k + 1),
        }
    }
}

/// What a command exchange yields from the raw reply `raw`: the response
/// in the frame the model takes out of it; failing that, on the S330, the
/// response of the first recovery candidate that decodes; failing that,
/// the error of the first decode.
pub open spec fn exchange_ok(
    device_type: DeviceType,
    model: AnyModel,
    cmd: u8,
    raw: Seq<u8>,
    r: Result<Response>,
) -> bool {
    let inner = unwrap_of(model, cmd, raw);
    match decodes_to(cmd, inner) {
        Some(x) => r matches Ok(v) && v@ == x,
        None => {
            let recovered = if device_type == DeviceType::S330 {
                first_decoded(cmd, candidates_of(model, raw, cmd), 0)
            } else {
                None
            };
            match recovered {
                Some(x) => r matches Ok(v) && v@ == x,
                None => r is Err && decode_response_frame_ok(cmd, inner, r),
            }
        },
    }
}

/// The six-byte PN53x ACK frame.
pub open spec fn ack_frame() -> Seq<u8> {
    seq![0x00u8, 0x00u8, 0xffu8, 0x00u8, 0xffu8, 0x00u8]
}

/// Whether a buffer is exactly the PN53x ACK frame.
pub fn is_ack_frame(raw: &[u8]) -> (r: bool)
    ensures
        r == (raw@ == ack_frame()),
{
    let r = raw.len() == 6 && raw[0] == 0x00 && raw[1] == 0x00 && raw[2] == 0xff && raw[3] == 0x00
        && raw[4] == 0xff && raw[5] == 0x00;
    proof {
        if raw@.len() == 6 {
            if r {
                assert(raw@ =~= ack_frame());
            }
        }
    }
    r
}

/// The bytes to send for a command: its frame, enveloped by the model.
pub fn prepare_command(model: &AnyModel, cmd: &Command) -> (r: Result<Vec<u8>>)
    ensures
        command_bytes(*cmd).len() <= 255 ==> (r matches Ok(v) && v@ == wrap_of(
            *model,
            frame_of(command_bytes(*cmd)),
            command_bytes(*cmd),
        )),
        command_bytes(*cmd).len() > 255 ==> r == Err::<Vec<u8>, Error>(
            Error::InvalidLength { expected: 255, actual: command_bytes(*cmd).len() as usize },
        ),
{
    let payload = cmd.encode();
    let framed = encode_command_frame(cmd)?;
    Ok(model.wrap_command(framed.as_slice(), payload.as_slice()))
}

/// Interprets the raw reply to a command: see `exchange_ok`.
pub fn interpret_reply(device_type: DeviceType, model: &AnyModel, cmd_code: u8, raw: &[u8]) -> (r:
    Result<Response>)
    ensures
        exchange_ok(device_type, *model, cmd_code, raw@, r),
{
    let inner = model.unwrap_response(cmd_code, raw);
    match decode_response_frame(cmd_code, inner.as_slice()) {
        Ok(resp) => Ok(resp),
        Err(e) => {
            if device_type == DeviceType::S330 {
                let cands = model.extract_candidate_frames(raw, cmd_code);
                let ghost fs = frame_views(cands@);
                let mut k: usize = 0;
                while k < cands.len()
                    invariant
                        k <= cands@.len(),
                        fs == frame_views(cands@),
                        fs == candidates_of(*model, raw@, cmd_code),
                        first_decoded(cmd_code, fs, 0) == first_decoded(cmd_code, fs, k as int),
                        inner@ == unwrap_of(*model, cmd_code, raw@),
                        decodes_to(cmd_code, inner@) is None,
                        device_type == DeviceType::S330,
                    decreases cands.len() - k,
                {
                    proof {
                        assert(fs[k as int] == cands@[k as int]@);
                    }
                    match decode_response_frame(cmd_code, cands[k].as_slice()) {
                        Ok(resp) => {
                            return Ok(resp);
                        },
                        Err(_) => {},
                    }
                    k += 1;
                }
            }
            Err(e)
        },
    }
}

/// The card of a Polling response; any other response is a polling error.
pub fn card_from_polling(resp: Response) -> (r: Result<Card>)
    ensures
        match resp@ {
            ResponseModel::Polling { idm, pmm, system_code } => r matches Ok(c) && c@
                == (CardModel::TypeF { idm, pmm, system_code }),
            _ => r == Err::<Card, Error>(Error::PollingFailed),
        },
{
    match resp {
        Response::Polling { idm, pmm, system_code } => Ok(Card::new(idm, pmm, system_code)),
        _ => Err(Error::PollingFailed),
    }
}

/// The operations of one command exchange and its outcome, for the command
/// with code `code` and payload `cb`: a payload too long for a frame is an
/// error with no operation; otherwise the model's envelope of its frame is
/// sent, one buffer is received with `timeout`, and on the S330 a buffer
/// that is only an ACK frame is followed by one more receive (appended
/// when it succeeds). The reply is interpreted as `exchange_ok` says.
pub open spec fn exchange_run(
    kind: DeviceType,
    model: AnyModel,
    code: u8,
    cb: Seq<u8>,
    timeout: u64,
    log: Seq<Op>,
    r: Result<Response>,
) -> bool {
    if cb.len() > 255 {
        log.len() == 0 && r == Err::<Response, Error>(
            Error::InvalidLength { expected: 255, actual: cb.len() as usize },
        )
    } else {
        log.len() >= 1 && match log[0] {
            Op::Send { data, result } => data == wrap_of(model, frame_of(cb), cb) && match result {
                Err(e) => log.len() == 1 && r == Err::<Response, Error>(e),
                Ok(_) => log.len() >= 2 && match log[1] {
                    Op::Receive { timeout_ms, reply } => timeout_ms == timeout && match reply {
                        Err(e) => log.len() == 2 && r == Err::<Response, Error>(e),
                        Ok(raw) => if kind == DeviceType::S330 && raw == ack_frame() {
                            log.len() == 3 && match log[2] {
                                Op::Receive { timeout_ms: t2, reply: reply2 } => t2 == timeout
                                    && exchange_ok(
                                    kind,
                                    model,
                                    code,
                                    match reply2 {
                                        Ok(f) => raw + f,
                                        Err(_) => raw,
                                    },
                                    r,
                                ),
                                _ => false,
                            }
                        } else {
                            log.len() == 2 && exchange_ok(kind, model, code, raw, r)
                        },
                    },
                    _ => false,
                },
            },
            _ => false,
        }
    }
}

/// The operations of initializing a handle: a reset, whose failure ends
/// it, then the model's handshake.
pub open spec fn initialize_run(model: AnyModel, log: Seq<Op>, r: Result<()>) -> bool {
    log.len() >= 1 && match log[0] {
        Op::Reset { result } => match result {
            Err(e) => log.len() == 1 && r == Err::<(), Error>(e),
            Ok(_) => init_run(model, log.subrange(1, log.len() as int), r),
        },
        _ => false,
    }
}

/// The card a Polling exchange yields: its error unchanged, the card of a
/// Polling response, a polling error for any other response.
pub open spec fn card_outcome(rr: Result<Response>, r: Result<Card>) -> bool {
    match rr {
        Err(e) => r == Err::<Card, Error>(e),
        Ok(resp) => match resp@ {
            ResponseModel::Polling { idm, pmm, system_code } => r matches Ok(c) && c@
                == (CardModel::TypeF { idm, pmm, system_code }),
            _ => r == Err::<Card, Error>(Error::PollingFailed),
        },
    }
}

/// A reader handle. It owns its transport; `S` tells whether it has been
/// initialized.
pub struct Device<T, S> {
    transport: Logged<T>,
    device_type: DeviceType,
    model: AnyModel,
    state: PhantomData<S>,
}

impl<T: Transport, S> Device<T, S> {
    /// The operations made on the transport so far.
    pub closed spec fn trace(&self) -> Seq<Op> {
        self.transport.ops()
    }

}

impl<T, S> Device<T, S> {
    /// The generation of the reader.
    pub closed spec fn kind(&self) -> DeviceType {
        self.device_type
    }

    /// The model that serves the reader.
    pub closed spec fn model(&self) -> AnyModel {
        self.model
    }

    /// The model is the one for the reader's generation.
    pub open spec fn wf(&self) -> bool {
        self.model() == model_for(self.kind())
    }

    /// The transport, for inspection.
    pub fn transport(&self) -> &T {
        &self.transport.inner
    }
}

impl<T: Transport> Device<T, Uninitialized> {
    /// A handle over a transport, with the model of the generation that the
    /// transport reports.
    pub fn new_with_transport(transport: T) -> (r: Result<Self>)
        ensures
            r matches Ok(d) ==> d.wf() && d.trace() == seq![
                Op::DeviceType { reply: Ok::<DeviceType, Error>(d.kind()) },
            ],
    {
        let mut channel = Logged::new(transport);
        let device_type = channel.device_type()?;
        let model = create_model_for(device_type);
        proof {
            assert(channel.ops() =~= seq![
                Op::DeviceType { reply: Ok::<DeviceType, Error>(device_type) },
            ]);
        }
        Ok(Device { transport: channel, device_type, model, state: PhantomData })
    }

    /// Resets the transport and runs the model's handshake. On failure the
    /// handle is dropped.
    pub fn initialize(self) -> (r: Result<Device<T, Initialized>>)
        ensures
            r matches Ok(d) ==> d.kind() == self.kind() && d.model() == self.model() && extends(
                self.trace(),
                d.trace(),
            ) && initialize_run(
                self.model(),
                appended(self.trace(), d.trace()),
                Ok(()),
            ),
            r matches Err(e) ==> exists|log: Seq<Op>| #[trigger]
                initialize_run(self.model(), log, Err(e)),
    {
        let mut transport = self.transport;
        let ghost o0 = transport.ops();
        let reset = transport.reset();
        let ghost o1 = transport.ops();
        proof {
            lemma_appended_push(o0, o1.last());
            assert(appended(o0, o1) == seq![o1.last()]);
        }
        match reset {
            Err(e) => {
                proof {
                    assert(initialize_run(self.model, appended(o0, o1), Err(e)));
                }
                return Err(e);
            },
            Ok(_) => {},
        }
        let init = self.model.initialize(&mut transport);
        let ghost f = transport.ops();
        proof {
            let f = transport.ops();
            lemma_appended_trans(o0, o1, f);
            assert(appended(o0, f).subrange(1, appended(o0, f).len() as int) =~= appended(o1, f));
            assert(initialize_run(self.model, appended(o0, f), init));
        }
        let ghost init_v = init;
        match init {
            Err(e) => {
                return Err(e);
            },
            Ok(u) => {
                proof {
                    assert(init_v == Ok::<(), Error>(u));
                    assert(u == ());
                }
            },
        }
        let d = Device {
            transport,
            device_type: self.device_type,
            model: self.model,
            state: PhantomData,
        };
        proof {
            assert(init_v == Ok::<(), Error>(()));
            assert(initialize_run(self.model(), appended(self.trace(), d.trace()), Ok(())));
        }
        Ok(d)
    }

    /// The generation of the reader.
    pub fn device_type(&self) -> (r: DeviceType)
        ensures
            r == self.kind(),
    {
        self.device_type
    }
}

impl<T: Transport> Device<T, Initialized> {
    /// Sends a command and decodes its response. The bytes sent are the
    /// command's frame as the model envelopes it. On the S330 a reply that
    /// is only an ACK frame is followed by one more read (its failure is
    /// ignored). The reply is then interpreted as `exchange_ok` says.
    pub fn execute(&mut self, cmd: Command, timeout_ms: u64) -> (r: Result<Response>)
        ensures
            final(self).kind() == old(self).kind(),
            final(self).model() == old(self).model(),
            extends(old(self).trace(), final(self).trace()),
            exchange_run(
                old(self).kind(),
                old(self).model(),
                command_code_of(cmd),
                command_bytes(cmd),
                timeout_ms,
                appended(old(self).trace(), final(self).trace()),
                r,
            ),
    {
        let ghost o0 = self.transport.ops();
        let to_send = match prepare_command(&self.model, &cmd) {
            Ok(v) => v,
            Err(e) => {
                proof {
                    lemma_appended_none(o0);
                }
                return Err(e);
            },
        };
        let sent = self.transport.send(to_send.as_slice());
        let ghost o1 = self.transport.ops();
        proof {
            lemma_appended_push(o0, o1.last());
        }
        match sent {
            Err(e) => {
                return Err(e);
            },
            Ok(_) => {},
        }
        let first = self.transport.receive(timeout_ms);
        let ghost o2 = self.transport.ops();
        proof {
            lemma_appended_push(o1, o2.last());
            lemma_appended_trans(o0, o1, o2);
        }
        let mut raw = match first {
            Ok(v) => v,
            Err(e) => {
                return Err(e);
            },
        };
        let ghost raw0 = raw@;
        let code = cmd.command_code();
        if self.device_type == DeviceType::S330 && is_ack_frame(raw.as_slice()) {
            let follow = self.transport.receive(timeout_ms);
            proof {
                let o3 = self.transport.ops();
                lemma_appended_push(o2, o3.last());
                lemma_appended_trans(o0, o2, o3);
            }
            match follow {
                Ok(f) => {
                    let mut f = f;
                    raw.append(&mut f);
                },
                Err(_) => {},
            }
        }
        let r = interpret_reply(self.device_type, &self.model, code, raw.as_slice());
        r
    }

    /// Polls for one FeliCa card with the given system code (request code
    /// and time slot zero).
    pub fn polling(&mut self, system_code: SystemCode) -> (r: Result<Card>)
        ensures
            final(self).kind() == old(self).kind(),
            final(self).model() == old(self).model(),
            r matches Ok(c) ==> c@ is TypeF,
            extends(old(self).trace(), final(self).trace()),
            exists|rr: Result<Response>|
                #[trigger] exchange_run(
                    old(self).kind(),
                    old(self).model(),
                    0x00,
                    polling_bytes(system_code.0, 0, 0),
                    1000,
                    appended(old(self).trace(), final(self).trace()),
                    rr,
                ) && card_outcome(rr, r),
    {
        let cmd = Command::Polling { system_code, request_code: 0, time_slot: 0 };
        let rr = self.execute(cmd, 1000);
        match rr {
            Ok(resp) => card_from_polling(resp),
            Err(e) => Err(e),
        }
    }

    /// Discovers several targets at once through the model; only the S330
    /// has this, the others fail with a polling error.
    pub fn list_passive_targets(
        &mut self,
        card_type: CardType,
        system_code: SystemCode,
        max_targets: u8,
        timeout_ms: u64,
    ) -> (r: Result<Vec<Card>>)
        ensures
            final(self).kind() == old(self).kind(),
            final(self).model() == old(self).model(),
            !(old(self).model() is S330) ==> r == Err::<Vec<Card>, Error>(Error::PollingFailed),
            r matches Ok(cards) ==> exists|raw: Seq<u8>|
                card_views(cards@) == #[trigger] passive_targets(card_type, raw),
            !(old(self).model() is S330) ==> final(self).trace() == old(self).trace(),
            old(self).model() is S330 ==> extends(old(self).trace(), final(self).trace())
                && list_run(
                card_type,
                system_code.0,
                max_targets,
                timeout_ms,
                appended(old(self).trace(), final(self).trace()),
                r,
            ),
    {
        self.model.list_passive_targets(
            &mut self.transport,
            card_type,
            system_code,
            max_targets,
            timeout_ms,
        )
    }

    /// The generation of the reader.
    pub fn device_type(&self) -> (r: DeviceType)
        ensures
            r == self.kind(),
    {
        self.device_type
    }
}

} // verus!

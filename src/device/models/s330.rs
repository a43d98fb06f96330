//! The S330 model: a PN53x-compatible controller wraps FeliCa frames.

pub mod commands;
pub mod rcs956;

use vstd::prelude::*;

use crate::card::{Card, CardModel};
use crate::device::models::s330::rcs956::extractor::{
    extract_felica_from_pn532_response, extract_one, PN53X_DEVICE_PREFIX,
};
use crate::device::models::s330::rcs956::multi_frame::{
    extract_all, extract_all_felica_frames_from_pn532_response, frame_views,
    PN53X_IN_LIST_PASSIVE_TARGET_RESPONSE,
};
use crate::device::models::DeviceModel;
use crate::error::{Error, Result};
use crate::transport::traits::Op;
use crate::protocol::codec::decode_response_frame;
use crate::protocol::commands::{encode_polling, polling_bytes};
use crate::protocol::frame::{frame_fault, frame_of, frame_payload, Frame};
use crate::protocol::responses::{response_model, Response, ResponseModel};
use crate::transport::traits::{
    appended, extends, is_vendor_read, is_vendor_write, lemma_appended_push, lemma_appended_trans,
    Logged, Transport,
};
use crate::types::{append_bytes, array_at, copy_range, Atqb, CardType, SystemCode, Uid};

verus! {

/// Timeout of the handshake's read, in milliseconds.
pub const S330_READ_TIMEOUT_MS: u64 = 200;

/// Host-to-device prefix of PN53x commands.
pub const PN53X_HOST_PREFIX: u8 = 0xd4;

/// The S330 model.
#[derive(Debug, Clone, Copy, PartialEq, Eq, Structural)]
pub struct S330Model;

/// The operations of the S330 handshake: RF on (`D4 32 01 01`) by vendor
/// write, one vendor read of 200 ms, then GetFirmwareVersion (`D4 02`) by
/// vendor write; all with request, value and index 0.
pub open spec fn s330_init_run(log: Seq<Op>) -> bool {
    &&& log.len() == 3
    &&& is_vendor_write(log[0], 0, 0, 0, seq![0xd4u8, 0x32u8, 0x01u8, 0x01u8])
    &&& is_vendor_read(log[1], 0, 0, 0, S330_READ_TIMEOUT_MS)
    &&& is_vendor_write(log[2], 0, 0, 0, seq![0xd4u8, 0x02u8])
}

/// The bytes sent for a command: a buffer that is already a PN53x command
/// goes as it is; a Polling payload goes in InListPassiveTarget
/// (`D4 4A 01 01 ...`); any other in InCommunicateThru (`D4 42 <len> ...`).
pub open spec fn s330_wrap(framed: Seq<u8>, payload: Seq<u8>) -> Seq<u8> {
    if framed.len() > 0 && framed[0] == PN53X_HOST_PREFIX {
        framed
    } else if payload.len() > 0 && payload[0] == 0x00 {
        seq![0xd4u8, 0x4au8, 0x01u8, 0x01u8] + payload
    } else {
        seq![0xd4u8, 0x42u8, (payload.len() % 256) as u8] + payload
    }
}

/// The recovered frame of a reply, or the reply itself when none is found.
pub open spec fn unwrap_or_raw(cmd: u8, raw: Seq<u8>) -> Seq<u8> {
    match extract_one(raw, cmd) {
        Some(f) => f,
        None => raw,
    }
}

/// The brty byte of InListPassiveTarget for a kind of target.
pub open spec fn brty_of(card_type: CardType) -> u8 {
    match card_type {
        CardType::TypeA => 0x00,
        CardType::TypeB => 0x03,
        CardType::TypeF => 0x01,
    }
}

/// The discovery command: `D4 4A <max> <brty>`, followed for Type-F by
/// `FF FF 00 00` and a Polling payload for the system code.
pub open spec fn list_command(card_type: CardType, system_code: u16, max_targets: u8) -> Seq<u8> {
    let head = seq![0xd4u8, 0x4au8, max_targets, brty_of(card_type)];
    if card_type == CardType::TypeF {
        head + seq![0xffu8, 0xffu8, 0x00u8, 0x00u8] + polling_bytes(system_code, 0, 0)
    } else {
        head
    }
}

/// The card a wire frame yields when it decodes as a Polling response.
pub open spec fn polling_card_of(f: Seq<u8>) -> Option<CardModel> {
    if frame_fault(f) is None {
        match response_model(0, frame_payload(f)) {
            Ok(ResponseModel::Polling { idm, pmm, system_code }) => Some(
                CardModel::TypeF { idm, pmm, system_code },
            ),
            _ => None,
        }
    } else {
        None
    }
}

/// The card a recovered frame yields: decoded directly; failing that, from
/// the frame recovered inside it when it starts with `D5`; failing that,
/// from its bytes reframed.
pub open spec fn f_card_of(f: Seq<u8>) -> Option<CardModel> {
    match polling_card_of(f) {
        Some(c) => Some(c),
        None => {
            let first = if f.len() > 0 && f[0] == PN53X_DEVICE_PREFIX {
                match extract_one(f, 0) {
                    Some(inner) => polling_card_of(inner),
                    None => None,
                }
            } else {
                None
            };
            match first {
                Some(c) => Some(c),
                None => if f.len() <= 255 {
                    polling_card_of(frame_of(f))
                } else {
                    None
                },
            }
        },
    }
}

/// The Type-F cards of a list of recovered frames, in order.
pub open spec fn f_cards(frames: Seq<Seq<u8>>) -> Seq<CardModel>
    decreases frames.len(),
{
    if frames.len() == 0 {
        seq![]
    } else {
        f_cards(frames.drop_last()) + match f_card_of(frames.last()) {
            Some(c) => seq![c],
            None => seq![],
        }
    }
}

/// The Type-A or Type-B targets of an InListPassiveTarget reply, read from
/// `pos` on, `left` targets at most.
pub open spec fn ab_scan(raw: Seq<u8>, is_b: bool, pos: int, left: int) -> Seq<CardModel>
    decreases left,
{
    if left <= 0 || pos < 0 || pos >= raw.len() {
        seq![]
    } else {
        let p = pos + 1;
        if is_b {
            if p + 12 <= raw.len() {
                let atqb = raw.subrange(p, p + 12);
                let q = p + 12;
                let next = if q < raw.len() {
                    q + 1 + raw[q]
                } else {
                    q
                };
                seq![CardModel::TypeB { uid: atqb.subrange(1, 5), atqb }] + ab_scan(
                    raw,
                    is_b,
                    next,
                    left - 1,
                )
            } else {
                ab_scan(raw, is_b, p, left - 1)
            }
        } else {
            if p + 3 < raw.len() {
                let q = p + 3;
                let s = q + 1;
                let uid_len = raw[q] as int;
                if s + uid_len <= raw.len() {
                    seq![CardModel::TypeA { uid: raw.subrange(s, s + uid_len) }] + ab_scan(
                        raw,
                        is_b,
                        s + uid_len,
                        left - 1,
                    )
                } else {
                    ab_scan(raw, is_b, s, left - 1)
                }
            } else {
                ab_scan(raw, is_b, p, left - 1)
            }
        }
    }
}

/// The targets that a discovery reply lists.
pub open spec fn passive_targets(card_type: CardType, raw: Seq<u8>) -> Seq<CardModel> {
    if card_type == CardType::TypeF {
        f_cards(extract_all(raw, 0))
    } else if raw.len() > 4 && raw[0] == PN53X_DEVICE_PREFIX && raw[1]
        == PN53X_IN_LIST_PASSIVE_TARGET_RESPONSE {
        ab_scan(raw, card_type == CardType::TypeB, 3, raw[2] as int)
    } else {
        seq![]
    }
}

/// The operations of a discovery and its result: a vendor write of the
/// discovery command (request, value and index 0), whose failure ends it,
/// then a vendor read with the caller's timeout, whose failure ends it; the
/// cards are those listed in the reply.
pub open spec fn list_run(
    card_type: CardType,
    system_code: u16,
    max_targets: u8,
    timeout_ms: u64,
    log: Seq<Op>,
    r: Result<Vec<Card>>,
) -> bool {
    log.len() >= 1 && match log[0] {
        Op::VendorWrite { request, value, index, data, result } => request == 0 && value == 0
            && index == 0 && data == list_command(card_type, system_code, max_targets)
            && match result {
            Err(e) => log.len() == 1 && r == Err::<Vec<Card>, Error>(e),
            Ok(_) => log.len() == 2 && match log[1] {
                Op::VendorRead { request: rq, value: v, index: ix, timeout_ms: t, reply } => rq == 0
                    && v == 0 && ix == 0 && t == timeout_ms && match reply {
                    Err(e) => r == Err::<Vec<Card>, Error>(e),
                    Ok(raw) => r matches Ok(cards) && card_views(cards@) == passive_targets(
                        card_type,
                        raw,
                    ),
                },
                _ => false,
            },
        },
        _ => false,
    }
}

/// The plain values of a list of cards.
pub open spec fn card_views(cards: Seq<Card>) -> Seq<CardModel> {
    cards.map_values(|c: Card| c@)
}

proof fn lemma_card_views_push(v: Seq<Card>, c: Card)
    ensures
        card_views(v.push(c)) == card_views(v) + seq![c@],
{
    assert(card_views(v.push(c)) =~= card_views(v) + seq![c@]);
}

/// The card a wire frame yields when it decodes as a Polling response.
fn polling_card_exec(f: &[u8]) -> (r: Option<Card>)
    ensures
        match (r, polling_card_of(f@)) {
            (Some(c), Some(m)) => c@ == m,
            (None, None) => true,
            _ => false,
        },
{
    match decode_response_frame(0, f) {
        Ok(Response::Polling { idm, pmm, system_code }) => Some(Card::new(idm, pmm, system_code)),
        _ => None,
    }
}

fn f_card_exec(f: &[u8]) -> (r: Option<Card>)
    ensures
        match (r, f_card_of(f@)) {
            (Some(c), Some(m)) => c@ == m,
            (None, None) => true,
            _ => false,
        },
{
    match polling_card_exec(f) {
        Some(c) => {
            return Some(c);
        },
        None => {},
    }
    if f.len() > 0 && f[0] == PN53X_DEVICE_PREFIX {
        match extract_felica_from_pn532_response(f, 0) {
            Some(inner) => match polling_card_exec(inner.as_slice()) {
                Some(c) => {
                    return Some(c);
                },
                None => {},
            },
            None => {},
        }
    }
    match Frame::encode(f) {
        Ok(rewrapped) => polling_card_exec(rewrapped.as_slice()),
        Err(_) => None,
    }
}

/// Parses the Type-A or Type-B targets of an InListPassiveTarget reply.
fn ab_targets_exec(raw: &[u8], is_b: bool) -> (r: Vec<Card>)
    requires
        raw@.len() > 4,
    ensures
        card_views(r@) == ab_scan(raw@, is_b, 3, raw@[2] as int),
{
    let n = raw.len();
    let mut out: Vec<Card> = Vec::new();
    let mut pos: usize = 3;
    let mut left: usize = raw[2] as usize;
    proof {
        assert(card_views(out@) + ab_scan(raw@, is_b, 3, raw@[2] as int) =~= ab_scan(
            raw@,
            is_b,
            3,
            raw@[2] as int,
        ));
    }
    while left > 0 && pos < n
        invariant
            n == raw@.len(),
            left <= 255,
            pos <= n,
            card_views(out@) + ab_scan(raw@, is_b, pos as int, left as int) == ab_scan(
                raw@,
                is_b,
                3,
                raw@[2] as int,
            ),
        decreases left,
    {
        let ghost before = card_views(out@);
        let p = pos + 1;
        if is_b {
            if n >= p && n - p >= 12 {
                let atqb_bytes: [u8; 12] = array_at(raw, p);
                let uid = Uid::from_bytes(copy_range(raw, p + 1, p + 5));
                let card = Card::new_type_b(uid, Atqb::from_bytes(atqb_bytes));
                proof {
                    lemma_card_views_push(out@, card);
                    assert(raw@.subrange(p + 1, p + 5) =~= raw@.subrange(p as int, p + 12).subrange(
                        1,
                        5,
                    ));
                }
                out.push(card);
                let q = p + 12;
                let ghost spec_next: int = if q < n {
                    q + 1 + raw@[q as int]
                } else {
                    q as int
                };
                pos = if q < n {
                    let skip = raw[q] as usize;
                    if skip < n - q {
                        q + 1 + skip
                    } else {
                        n
                    }
                } else {
                    q
                };
                proof {
                    assert(ab_scan(raw@, is_b, pos as int, left - 1) == ab_scan(
                        raw@,
                        is_b,
                        spec_next,
                        left - 1,
                    ));
                    assert(card_views(out@) + ab_scan(raw@, is_b, pos as int, left - 1) =~= before
                        + ab_scan(raw@, is_b, (p - 1) as int, left as int));
                }
            } else {
                pos = p;
            }
        } else {
            if n > p && n - p > 3 {
                let q = p + 3;
                let s = q + 1;
                let uid_len = raw[q] as usize;
                if uid_len <= n - s {
                    let card = Card::new_type_a(Uid::from_bytes(copy_range(raw, s, s + uid_len)));
                    proof {
                        lemma_card_views_push(out@, card);
                    }
                    out.push(card);
                    pos = s + uid_len;
                    proof {
                        assert(card_views(out@) + ab_scan(raw@, is_b, pos as int, left - 1)
                            =~= before + ab_scan(raw@, is_b, (p - 1) as int, left as int));
                    }
                } else {
                    pos = s;
                }
            } else {
                pos = p;
            }
        }
        left -= 1;
    }
    proof {
        assert(card_views(out@) =~= card_views(out@) + ab_scan(raw@, is_b, pos as int, left as int));
    }
    out
}

impl S330Model {
    /// The model.
    pub fn new() -> (r: Self)
        ensures
            r == S330Model,
    {
        S330Model
    }

    /// Best-effort handshake (see `s330_init_run`). Errors are swallowed;
    /// the handshake always succeeds.
    pub fn initialize<T: Transport>(&self, transport: &mut Logged<T>) -> (r: Result<()>)
        ensures
            r is Ok,
            extends(old(transport).ops(), final(transport).ops()),
            s330_init_run(appended(old(transport).ops(), final(transport).ops())),
    {
        let ghost o0 = transport.ops();
        let rf_on = commands::rcs956_rf_on();
        let _ = transport.vendor_control_write(0, 0, 0, rf_on.as_slice());
        let ghost o1 = transport.ops();
        let _ = transport.vendor_control_read(0, 0, 0, S330_READ_TIMEOUT_MS);
        let ghost o2 = transport.ops();
        let get_version = commands::rcs956_get_version();
        let _ = transport.vendor_control_write(0, 0, 0, get_version.as_slice());
        proof {
            let o3 = transport.ops();
            lemma_appended_push(o0, o1.last());
            lemma_appended_push(o1, o2.last());
            lemma_appended_push(o2, o3.last());
            lemma_appended_trans(o0, o1, o2);
            lemma_appended_trans(o0, o2, o3);
            assert(appended(o0, o3) =~= seq![o1.last(), o2.last(), o3.last()]);
        }
        Ok(())
    }

    /// The bytes to send for a command: see `s330_wrap`.
    pub fn wrap_command(&self, framed: &[u8], payload: &[u8]) -> (r: Vec<u8>)
        ensures
            r@ == s330_wrap(framed@, payload@),
    {
        if framed.len() > 0 && framed[0] == PN53X_HOST_PREFIX {
            let r = copy_range(framed, 0, framed.len());
            proof {
                assert(framed@.subrange(0, framed@.len() as int) =~= framed@);
            }
            return r;
        }
        let mut v: Vec<u8> = Vec::new();
        if payload.len() > 0 && payload[0] == 0x00 {
            v.push(0xd4);
            v.push(0x4a);
            v.push(0x01);
            v.push(0x01);
        } else {
            v.push(0xd4);
            v.push(0x42);
            v.push((payload.len() % 256) as u8);
        }
        append_bytes(&mut v, payload);
        proof {
            assert(v@ =~= s330_wrap(framed@, payload@));
        }
        v
    }

    /// The frame recovered from a reply, or the reply itself.
    pub fn unwrap_frame(&self, expected_cmd: u8, raw: &[u8]) -> (r: Vec<u8>)
        ensures
            r@ == unwrap_or_raw(expected_cmd, raw@),
    {
        match extract_felica_from_pn532_response(raw, expected_cmd) {
            Some(inner) => inner,
            None => {
                let r = copy_range(raw, 0, raw.len());
                proof {
                    assert(raw@.subrange(0, raw@.len() as int) =~= raw@);
                }
                r
            },
        }
    }

    /// The frame recovered from a reply, or the reply itself; never fails.
    pub fn unwrap_response(&self, expected_cmd: u8, raw: &[u8]) -> (r: Result<Vec<u8>>)
        ensures
            r matches Ok(v) && v@ == unwrap_or_raw(expected_cmd, raw@),
    {
        Ok(self.unwrap_frame(expected_cmd, raw))
    }

    /// Every frame recovered from a reply.
    pub fn extract_candidate_frames(&self, raw: &[u8], expected_cmd: u8) -> (r: Vec<Vec<u8>>)
        ensures
            frame_views(r@) == extract_all(raw@, expected_cmd),
    {
        extract_all_felica_frames_from_pn532_response(raw, expected_cmd)
    }

    /// The discovery command for a kind of target.
    pub fn build_list_command(card_type: CardType, system_code: SystemCode, max_targets: u8) -> (r:
        Vec<u8>)
        ensures
            r@ == list_command(card_type, system_code.0, max_targets),
    {
        let brty: u8 = match card_type {
            CardType::TypeA => 0x00,
            CardType::TypeB => 0x03,
            CardType::TypeF => 0x01,
        };
        let mut cmd = commands::rcs956_in_list_passive_target(max_targets, brty);
        match card_type {
            CardType::TypeF => {
                let payload = encode_polling(system_code, 0, 0);
                let marker = [0xffu8, 0xff, 0x00, 0x00];
                append_bytes(&mut cmd, &marker);
                append_bytes(&mut cmd, payload.as_slice());
                proof {
                    assert(cmd@ =~= list_command(card_type, system_code.0, max_targets));
                }
            },
            _ => {},
        }
        cmd
    }

    /// The targets listed in a discovery reply.
    pub fn parse_passive_targets(card_type: CardType, raw: &[u8]) -> (r: Vec<Card>)
        ensures
            card_views(r@) == passive_targets(card_type, raw@),
    {
        match card_type {
            CardType::TypeF => {
                let frames = extract_all_felica_frames_from_pn532_response(raw, 0);
                let ghost fs = frame_views(frames@);
                let mut out: Vec<Card> = Vec::new();
                let mut k: usize = 0;
                proof {
                    assert(card_views(out@) =~= f_cards(fs.subrange(0, 0)));
                }
                while k < frames.len()
                    invariant
                        k <= frames@.len(),
                        fs == frame_views(frames@),
                        card_views(out@) == f_cards(fs.subrange(0, k as int)),
                    decreases frames.len() - k,
                {
                    let ghost before = card_views(out@);
                    match f_card_exec(frames[k].as_slice()) {
                        Some(c) => {
                            proof {
                                lemma_card_views_push(out@, c);
                            }
                            out.push(c);
                        },
                        None => {},
                    }
                    proof {
                        assert(fs.subrange(0, k + 1).drop_last() =~= fs.subrange(0, k as int));
                        assert(fs[k as int] == frames@[k as int]@);
                        assert(card_views(out@) =~= f_cards(fs.subrange(0, k + 1)));
                    }
                    k += 1;
                }
                proof {
                    assert(fs.subrange(0, fs.len() as int) =~= fs);
                }
                out
            },
            _ => {
                if raw.len() > 4 && raw[0] == PN53X_DEVICE_PREFIX && raw[1]
                    == PN53X_IN_LIST_PASSIVE_TARGET_RESPONSE {
                    let is_b = match card_type {
                        CardType::TypeB => true,
                        _ => false,
                    };
                    ab_targets_exec(raw, is_b)
                } else {
                    let r: Vec<Card> = Vec::new();
                    proof {
                        assert(card_views(r@) =~= Seq::<CardModel>::empty());
                    }
                    r
                }
            },
        }
    }

    /// Sends the discovery command by vendor control write, reads the reply
    /// by vendor control read, and lists the targets found in it; see
    /// `list_run`.
    pub fn list_passive_targets<T: Transport>(
        &self,
        transport: &mut Logged<T>,
        card_type: CardType,
        system_code: SystemCode,
        max_targets: u8,
        timeout_ms: u64,
    ) -> (r: Result<Vec<Card>>)
        ensures
            r matches Ok(cards) ==> exists|raw: Seq<u8>|
                card_views(cards@) == #[trigger] passive_targets(card_type, raw),
            extends(old(transport).ops(), final(transport).ops()),
            list_run(
                card_type,
                system_code.0,
                max_targets,
                timeout_ms,
                appended(old(transport).ops(), final(transport).ops()),
                r,
            ),
    {
        let ghost o0 = transport.ops();
        let cmd = S330Model::build_list_command(card_type, system_code, max_targets);
        let w = transport.vendor_control_write(0, 0, 0, cmd.as_slice());
        let ghost o1 = transport.ops();
        proof {
            lemma_appended_push(o0, o1.last());
        }
        match w {
            Err(e) => {
                return Err(e);
            },
            Ok(_) => {},
        }
        let read = transport.vendor_control_read(0, 0, 0, timeout_ms);
        proof {
            let o2 = transport.ops();
            lemma_appended_push(o1, o2.last());
            lemma_appended_trans(o0, o1, o2);
            assert(appended(o0, o2) =~= seq![o1.last(), o2.last()]);
        }
        match read {
            Err(e) => Err(e),
            Ok(raw) => {
                let cards = S330Model::parse_passive_targets(card_type, raw.as_slice());
                Ok(cards)
            },
        }
    }
}

impl DeviceModel for S330Model {
    fn initialize<T: Transport>(&self, transport: &mut Logged<T>) -> Result<()> {
        S330Model::initialize(self, transport)
    }

    fn wrap_command(&self, framed: &[u8], payload: &[u8]) -> Vec<u8> {
        S330Model::wrap_command(self, framed, payload)
    }

    fn unwrap_response(&self, expected_cmd: u8, raw: &[u8]) -> Result<Vec<u8>> {
        S330Model::unwrap_response(self, expected_cmd, raw)
    }

    fn list_passive_targets<T: Transport>(
        &self,
        transport: &mut Logged<T>,
        card_type: CardType,
        system_code: SystemCode,
        max_targets: u8,
        timeout_ms: u64,
    ) -> Result<Vec<Card>> {
        S330Model::list_passive_targets(
            self,
            transport,
            card_type,
            system_code,
            max_targets,
            timeout_ms,
        )
    }

    fn extract_candidate_frames(&self, raw: &[u8], expected_cmd: u8) -> Vec<Vec<u8>> {
        S330Model::extract_candidate_frames(self, raw, expected_cmd)
    }
}

} // verus!

//! Recovery of one FeliCa wire frame from a PN53x response.

use vstd::prelude::*;

use crate::protocol::frame::{frame_of, frame_payload, frame_valid, Frame};
use crate::types::copy_range;

verus! {

/// Device-to-host prefix of PN53x responses.
pub const PN53X_DEVICE_PREFIX: u8 = 0xd5;

/// The FeliCa response code that answers the command code `cmd`.
pub open spec fn response_code_for(cmd: u8) -> u8 {
    (if cmd == 255 { 0 } else { cmd + 1 }) as u8
}

/// Whether a FeliCa preamble `00 00 FF` starts at `p`.
pub open spec fn preamble_at(s: Seq<u8>, p: int) -> bool {
    &&& 0 <= p
    &&& p + 3 <= s.len()
    &&& s[p] == 0x00
    &&& s[p + 1] == 0x00
    &&& s[p + 2] == 0xff
}

/// The first position at or after `from` where a preamble starts.
pub open spec fn find_preamble(s: Seq<u8>, from: int) -> Option<int>
    decreases s.len() - from,
{
    if from < 0 || from + 3 > s.len() {
        None
    } else if preamble_at(s, from) {
        Some(from)
    } else {
        find_preamble(s, from + 1)
    }
}

/// The first position at or after `from` that holds the byte `b`.
pub open spec fn find_byte(s: Seq<u8>, b: u8, from: int) -> Option<int>
    decreases s.len() - from,
{
    if from < 0 || from >= s.len() {
        None
    } else if s[from] == b {
        Some(from)
    } else {
        find_byte(s, b, from + 1)
    }
}

/// The frame that carries the bytes of `s` from `start` on, when they fit.
pub open spec fn wrap_tail(s: Seq<u8>, start: int) -> Option<Seq<u8>> {
    if s.len() - start <= 255 {
        Some(frame_of(s.subrange(start, s.len() as int)))
    } else {
        None
    }
}

/// What a complete candidate wire frame yields: nothing when it is not a
/// valid frame; when its payload is a PN53x response (`D5 ...`), the frame
/// rebuilt from the expected response code on; otherwise the frame itself.
pub open spec fn candidate_frame(c: Seq<u8>, code: u8) -> Option<Seq<u8>> {
    if !frame_valid(c) {
        None
    } else {
        let p = frame_payload(c);
        if p.len() > 0 && p[0] == PN53X_DEVICE_PREFIX {
            match find_byte(p, code, 1) {
                Some(idx) => wrap_tail(p, idx),
                None => None,
            }
        } else {
            Some(c)
        }
    }
}

/// The scan for an explicit preamble, from `start` on: ACK frames (length
/// zero) are skipped; the first complete frame decides.
pub open spec fn preamble_pick(raw: Seq<u8>, code: u8, start: int) -> Option<Seq<u8>>
    decreases raw.len() - start,
{
    if start < 0 || start + 3 > raw.len() {
        None
    } else {
        match find_preamble(raw, start) {
            None => None,
            Some(pos) => if pos < start || pos + 3 >= raw.len() {
                None
            } else if raw[pos + 3] == 0 {
                preamble_pick(raw, code, pos + 1)
            } else if pos + 7 + raw[pos + 3] > raw.len() {
                None
            } else {
                candidate_frame(raw.subrange(pos, pos + 7 + raw[pos + 3]), code)
            },
        }
    }
}

/// The fallback for a bare PN53x response (`D5 ...`): the frame rebuilt
/// from the first expected response code after the three header bytes.
pub open spec fn d5_pick(raw: Seq<u8>, code: u8) -> Option<Seq<u8>> {
    if raw.len() > 3 && raw[0] == PN53X_DEVICE_PREFIX {
        match find_byte(raw, code, 3) {
            Some(pos) => wrap_tail(raw, pos),
            None => None,
        }
    } else {
        None
    }
}

/// The frame recovered from a PN53x response for the command code `cmd`.
pub open spec fn extract_one(raw: Seq<u8>, cmd: u8) -> Option<Seq<u8>> {
    match preamble_pick(raw, response_code_for(cmd), 0) {
        Some(f) => Some(f),
        None => d5_pick(raw, response_code_for(cmd)),
    }
}

/// Whether an executable optional frame agrees with a modelled one.
pub open spec fn same_frame(r: Option<Vec<u8>>, m: Option<Seq<u8>>) -> bool {
    match (r, m) {
        (Some(f), Some(g)) => f@ == g,
        (None, None) => true,
        _ => false,
    }
}

/// Every frame rebuilt by `wrap_tail` is valid.
pub proof fn lemma_wrap_tail_valid(s: Seq<u8>, start: int)
    requires
        0 <= start <= s.len(),
    ensures
        wrap_tail(s, start) matches Some(f) ==> frame_valid(f),
{
    if s.len() - start <= 255 {
        crate::protocol::frame::frame_round_trip(s.subrange(start, s.len() as int));
    }
}

/// Every frame a candidate yields is valid.
pub proof fn lemma_candidate_valid(c: Seq<u8>, code: u8)
    ensures
        candidate_frame(c, code) matches Some(f) ==> frame_valid(f),
{
    if frame_valid(c) {
        let p = frame_payload(c);
        if p.len() > 0 && p[0] == PN53X_DEVICE_PREFIX {
            if let Some(idx) = find_byte(p, code, 1) {
                lemma_find_byte_range(p, code, 1);
                lemma_wrap_tail_valid(p, idx);
            }
        }
    }
}

/// A found byte lies at or after the start and inside the sequence.
pub proof fn lemma_find_byte_range(s: Seq<u8>, b: u8, from: int)
    ensures
        find_byte(s, b, from) matches Some(p) ==> from <= p < s.len() && s[p] == b,
    decreases s.len() - from,
{
    if 0 <= from < s.len() && s[from] != b {
        lemma_find_byte_range(s, b, from + 1);
    }
}

/// A found preamble lies at or after the start.
pub proof fn lemma_find_preamble_range(s: Seq<u8>, from: int)
    ensures
        find_preamble(s, from) matches Some(p) ==> from <= p && preamble_at(s, p),
    decreases s.len() - from,
{
    if 0 <= from && from + 3 <= s.len() && !preamble_at(s, from) {
        lemma_find_preamble_range(s, from + 1);
    }
}

/// The first preamble at or after `from`.
pub fn find_preamble_from(s: &[u8], from: usize) -> (r: Option<usize>)
    ensures
        match r {
            Some(p) => find_preamble(s@, from as int) == Some(p as int),
            None => find_preamble(s@, from as int) is None,
        },
{
    let n = s.len();
    let mut i = from;
    while i < n && n - i >= 3
        invariant
            n == s@.len(),
            from <= i,
            find_preamble(s@, from as int) == find_preamble(s@, i as int),
        decreases n - i,
    {
        if s[i] == 0x00 && s[i + 1] == 0x00 && s[i + 2] == 0xff {
            return Some(i);
        }
        i += 1;
    }
    None
}

/// The first position at or after `from` that holds `b`.
pub fn find_byte_from(s: &[u8], b: u8, from: usize) -> (r: Option<usize>)
    ensures
        match r {
            Some(p) => find_byte(s@, b, from as int) == Some(p as int),
            None => find_byte(s@, b, from as int) is None,
        },
{
    let n = s.len();
    let mut i = from;
    while i < n
        invariant
            n == s@.len(),
            from <= i,
            find_byte(s@, b, from as int) == find_byte(s@, b, i as int),
        decreases n - i,
    {
        if s[i] == b {
            return Some(i);
        }
        i += 1;
    }
    None
}

/// The frame carrying the bytes of `s` from `start` on, when they fit.
pub fn wrap_tail_exec(s: &[u8], start: usize) -> (r: Option<Vec<u8>>)
    requires
        start <= s@.len(),
    ensures
        same_frame(r, wrap_tail(s@, start as int)),
{
    match Frame::encode(&s[start..s.len()]) {
        Ok(f) => Some(f),
        Err(_) => None,
    }
}

/// What one complete candidate wire frame yields.
pub fn candidate_frame_exec(c: &[u8], code: u8) -> (r: Option<Vec<u8>>)
    ensures
        same_frame(r, candidate_frame(c@, code)),
{
    match Frame::decode(c) {
        Ok(payload) => {
            if payload.len() > 0 && payload[0] == PN53X_DEVICE_PREFIX {
                match find_byte_from(payload.as_slice(), code, 1) {
                    Some(idx) => {
                        proof {
                            lemma_find_byte_range(payload@, code, 1);
                        }
                        wrap_tail_exec(payload.as_slice(), idx)
                    },
                    None => None,
                }
            } else {
                let f = copy_range(c, 0, c.len());
                proof {
                    assert(c@.subrange(0, c@.len() as int) =~= c@);
                }
                Some(f)
            }
        },
        Err(_) => None,
    }
}

fn preamble_pick_exec(raw: &[u8], code: u8) -> (r: Option<Vec<u8>>)
    ensures
        same_frame(r, preamble_pick(raw@, code, 0)),
{
    let n = raw.len();
    let mut search_start: usize = 0;
    while search_start < n && n - search_start >= 3
        invariant
            n == raw@.len(),
            preamble_pick(raw@, code, 0) == preamble_pick(raw@, code, search_start as int),
        decreases n - search_start,
    {
        match find_preamble_from(raw, search_start) {
            None => {
                return None;
            },
            Some(pos) => {
                proof {
                    lemma_find_preamble_range(raw@, search_start as int);
                }
                if pos + 3 >= n {
                    return None;
                }
                let len = raw[pos + 3] as usize;
                if len == 0 {
                    search_start = pos + 1;
                } else {
                    let total: usize = 7 + len;
                    if total > n - pos {
                        return None;
                    }
                    return candidate_frame_exec(&raw[pos..pos + total], code);
                }
            },
        }
    }
    None
}

fn d5_pick_exec(raw: &[u8], code: u8) -> (r: Option<Vec<u8>>)
    ensures
        same_frame(r, d5_pick(raw@, code)),
{
    if raw.len() > 3 && raw[0] == PN53X_DEVICE_PREFIX {
        match find_byte_from(raw, code, 3) {
            Some(pos) => {
                proof {
                    lemma_find_byte_range(raw@, code, 3);
                }
                wrap_tail_exec(raw, pos)
            },
            None => None,
        }
    } else {
        None
    }
}

/// Recovers one FeliCa wire frame from a PN53x response: an explicit frame
/// when one is found after any ACK frames, else one rebuilt from the
/// expected response code; `None` when neither is found. What it returns is
/// always a valid frame.
pub fn extract_felica_from_pn532_response(raw: &[u8], expected_cmd: u8) -> (r: Option<Vec<u8>>)
    ensures
        same_frame(r, extract_one(raw@, expected_cmd)),
        r matches Some(f) ==> frame_valid(f@),
{
    let code = expected_cmd.wrapping_add(1);
    proof {
        extract_one_valid(raw@, expected_cmd);
    }
    match preamble_pick_exec(raw, code) {
        Some(f) => Some(f),
        None => d5_pick_exec(raw, code),
    }
}

/// The scan for an explicit preamble only yields valid frames.
proof fn lemma_preamble_pick_valid(raw: Seq<u8>, code: u8, start: int)
    ensures
        preamble_pick(raw, code, start) matches Some(f) ==> frame_valid(f),
    decreases raw.len() - start,
{
    if 0 <= start && start + 3 <= raw.len() {
        lemma_find_preamble_range(raw, start);
        if let Some(pos) = find_preamble(raw, start) {
            if start <= pos && pos + 3 < raw.len() {
                if raw[pos + 3] == 0 {
                    lemma_preamble_pick_valid(raw, code, pos + 1);
                } else if pos + 7 + raw[pos + 3] <= raw.len() {
                    lemma_candidate_valid(raw.subrange(pos, pos + 7 + raw[pos + 3]), code);
                }
            }
        }
    }
}

/// Whatever frame is recovered from a response is a valid wire frame.
pub proof fn extract_one_valid(raw: Seq<u8>, cmd: u8)
    ensures
        extract_one(raw, cmd) matches Some(f) ==> frame_valid(f),
{
    let code = response_code_for(cmd);
    lemma_preamble_pick_valid(raw, code, 0);
    if raw.len() > 3 && raw[0] == PN53X_DEVICE_PREFIX {
        lemma_find_byte_range(raw, code, 3);
        if let Some(pos) = find_byte(raw, code, 3) {
            lemma_wrap_tail_valid(raw, pos);
        }
    }
}

} // verus!

//! The FeliCa wire frame:
//! `00 00 FF | LEN | LCS | PAYLOAD | DCS | 00`.

use vstd::prelude::*;

use crate::error::{Error, Result};
use crate::protocol::checksum::{byte_sum, dcs, dcs_of, lcs, lcs_of};
use crate::types::{append_bytes, copy_range};

verus! {

/// Bytes that frame no payload: preamble, length, LCS, DCS, postamble.
pub const FELICA_MIN_FRAME_LEN: usize = 7;

/// Largest payload that a frame can carry.
pub const FELICA_MAX_PAYLOAD_LEN: usize = 255;

/// The wire frame that carries `p` (for `p` of at most 255 bytes).
pub open spec fn frame_of(p: Seq<u8>) -> Seq<u8> {
    seq![0x00u8, 0x00u8, 0xffu8, p.len() as u8, lcs_of(p.len() as u8)] + p + seq![
        dcs_of(p),
        0x00u8,
    ]
}

/// What is wrong with a candidate frame, in the order the checks are made.
#[derive(Debug, Clone, Copy, PartialEq, Eq, Structural)]
pub enum FrameFault {
    /// Fewer than seven bytes.
    Short,
    /// The first three bytes are not `00 00 FF`.
    Preamble,
    /// The LCS byte does not match the length byte.
    LengthChecksum,
    /// The total length is not seven plus the length byte.
    Length,
    /// The DCS byte does not match the payload.
    DataChecksum,
    /// The last byte is not `00`.
    Postamble,
}

/// The payload bytes of a candidate frame of the right length.
pub open spec fn frame_payload(f: Seq<u8>) -> Seq<u8> {
    f.subrange(5, f.len() - 2)
}

/// The first fault of a candidate frame, or `None` when it is a valid frame.
pub open spec fn frame_fault(f: Seq<u8>) -> Option<FrameFault> {
    if f.len() < 7 {
        Some(FrameFault::Short)
    } else if f[0] != 0x00 || f[1] != 0x00 || f[2] != 0xff {
        Some(FrameFault::Preamble)
    } else if f[4] != lcs_of(f[3]) {
        Some(FrameFault::LengthChecksum)
    } else if f.len() != 7 + f[3] {
        Some(FrameFault::Length)
    } else if f[f.len() - 2] != dcs_of(frame_payload(f)) {
        Some(FrameFault::DataChecksum)
    } else if f[f.len() - 1] != 0x00 {
        Some(FrameFault::Postamble)
    } else {
        None
    }
}

/// Whether `f` is a well-formed wire frame.
pub open spec fn frame_valid(f: Seq<u8>) -> bool {
    frame_fault(f) is None
}

/// The error that decoding reports for a frame with the given fault.
pub open spec fn frame_error_matches(f: Seq<u8>, k: FrameFault, e: Error) -> bool {
    match k {
        FrameFault::Short => e == Error::InvalidLength { expected: 7, actual: f.len() as usize },
        FrameFault::Preamble => e is FrameFormat,
        FrameFault::LengthChecksum => e == Error::ChecksumMismatch {
            expected: lcs_of(f[3]),
            actual: f[4],
        },
        FrameFault::Length => e == Error::InvalidLength {
            expected: (7 + f[3]) as usize,
            actual: f.len() as usize,
        },
        FrameFault::DataChecksum => e == Error::ChecksumMismatch {
            expected: dcs_of(frame_payload(f)),
            actual: f[f.len() - 2],
        },
        FrameFault::Postamble => e is FrameFormat,
    }
}

/// The outcome of decoding `f`: its payload when it is valid, else the
/// error that belongs to its first fault.
pub open spec fn decode_frame_ok(f: Seq<u8>, r: Result<Vec<u8>>) -> bool {
    match frame_fault(f) {
        None => r matches Ok(p) && p@ == frame_payload(f),
        Some(k) => r matches Err(e) && frame_error_matches(f, k, e),
    }
}

/// FeliCa wire frame helper.
pub struct Frame {
    pub payload: Vec<u8>,
}

impl Frame {
    /// Frames a payload of at most 255 bytes; a longer one is a length error.
    pub fn encode(payload: &[u8]) -> (r: Result<Vec<u8>>)
        ensures
            payload@.len() <= 255 ==> (r matches Ok(f) && f@ == frame_of(payload@)),
            payload@.len() > 255 ==> r == Err::<Vec<u8>, Error>(
                Error::InvalidLength { expected: 255, actual: payload@.len() as usize },
            ),
    {
        if payload.len() > FELICA_MAX_PAYLOAD_LEN {
            return Err(Error::InvalidLength { expected: FELICA_MAX_PAYLOAD_LEN, actual: payload.len() });
        }
        let len = payload.len() as u8;
        let mut out: Vec<u8> = Vec::new();
        out.push(0x00);
        out.push(0x00);
        out.push(0xff);
        out.push(len);
        out.push(lcs(len));
        append_bytes(&mut out, payload);
        out.push(dcs(payload));
        out.push(0x00);
        proof {
            assert(out@ =~= frame_of(payload@));
        }
        Ok(out)
    }

    /// Checks a candidate frame and returns a copy of its payload.
    pub fn decode(frame: &[u8]) -> (r: Result<Vec<u8>>)
        ensures
            decode_frame_ok(frame@, r),
    {
        if frame.len() < FELICA_MIN_FRAME_LEN {
            return Err(Error::InvalidLength { expected: FELICA_MIN_FRAME_LEN, actual: frame.len() });
        }
        if frame[0] != 0x00 || frame[1] != 0x00 || frame[2] != 0xff {
            return Err(Error::FrameFormat("invalid preamble".to_string()));
        }
        let len = frame[3];
        let lcs_actual = frame[4];
        let lcs_expected = lcs(len);
        if lcs_actual != lcs_expected {
            return Err(Error::ChecksumMismatch { expected: lcs_expected, actual: lcs_actual });
        }
        let required_len: usize = FELICA_MIN_FRAME_LEN + len as usize;
        if frame.len() != required_len {
            return Err(Error::InvalidLength { expected: required_len, actual: frame.len() });
        }
        let payload_end: usize = 5 + len as usize;
        let payload = copy_range(frame, 5, payload_end);
        let dcs_actual = frame[payload_end];
        let dcs_expected = dcs(payload.as_slice());
        if dcs_actual != dcs_expected {
            return Err(Error::ChecksumMismatch { expected: dcs_expected, actual: dcs_actual });
        }
        if frame[payload_end + 1] != 0x00 {
            return Err(Error::FrameFormat("invalid postamble".to_string()));
        }
        Ok(payload)
    }
}

/// Decoding the frame of a payload gives the payload back.
pub proof fn frame_round_trip(p: Seq<u8>)
    requires
        p.len() <= 255,
    ensures
        frame_valid(frame_of(p)),
        frame_payload(frame_of(p)) == p,
{
    let f = frame_of(p);
    assert(frame_payload(f) =~= p);
}

/// Byte sums change by the difference of the one byte that changed.
proof fn lemma_byte_sum_update(s: Seq<u8>, i: int, b: u8)
    requires
        0 <= i < s.len(),
    ensures
        byte_sum(s.update(i, b)) == byte_sum(s) - s[i] + b,
    decreases s.len(),
{
    let t = s.update(i, b);
    if i == s.len() - 1 {
        assert(t.drop_last() =~= s.drop_last());
    } else {
        lemma_byte_sum_update(s.drop_last(), i, b);
        assert(t.drop_last() =~= s.drop_last().update(i, b));
    }
}

/// A change of any one byte of a frame is detected: decoding reports a
/// checksum or format fault, never another payload.
pub proof fn tampered_frame_rejected(p: Seq<u8>, i: int, b: u8)
    requires
        p.len() <= 255,
        0 <= i < frame_of(p).len(),
        b != frame_of(p)[i],
    ensures
        frame_fault(frame_of(p).update(i, b)) matches Some(k) && (k == FrameFault::Preamble
            || k == FrameFault::LengthChecksum || k == FrameFault::DataChecksum || k
            == FrameFault::Postamble),
{
    let f = frame_of(p);
    let g = f.update(i, b);
    let n: int = p.len() as int;
    assert(f.len() == n + 7);
    assert(f[0] == 0 && f[1] == 0 && f[2] == 0xff);
    assert(f[3] == n as u8 && f[4] == lcs_of(n as u8));
    assert(f[n + 5] == dcs_of(p) && f[n + 6] == 0);
    assert(forall|j: int| 0 <= j < n ==> f[5 + j] == p[j]);
    assert(g.len() == f.len());
    if i < 3 {
        assert(frame_fault(g) == Some(FrameFault::Preamble));
    } else if i == 3 {
        assert(g[4] == lcs_of(n as u8));
        assert(lcs_of(b) != lcs_of(n as u8));
        assert(frame_fault(g) == Some(FrameFault::LengthChecksum));
    } else if i == 4 {
        assert(frame_fault(g) == Some(FrameFault::LengthChecksum));
    } else if i < 5 + n {
        assert(frame_payload(g) =~= p.update(i - 5, b));
        lemma_byte_sum_update(p, i - 5, b);
        assert(p[i - 5] == f[i]);
        let x = byte_sum(p);
        let y = byte_sum(p.update(i - 5, b));
        assert(y % 256 != x % 256);
        assert(dcs_of(p.update(i - 5, b)) != dcs_of(p));
        assert(g[n + 5] == dcs_of(p));
        assert(frame_fault(g) == Some(FrameFault::DataChecksum));
    } else if i == 5 + n {
        assert(frame_payload(g) =~= p);
        assert(frame_fault(g) == Some(FrameFault::DataChecksum));
    } else {
        assert(frame_payload(g) =~= p);
        assert(frame_fault(g) == Some(FrameFault::Postamble));
    }
}

} // verus!

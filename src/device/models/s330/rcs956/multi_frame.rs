//! Recovery of every FeliCa wire frame in a PN53x response.

use vstd::prelude::*;

use crate::device::models::s330::rcs956::extractor::{
    candidate_frame, candidate_frame_exec, find_byte, find_byte_from, find_preamble,
    find_preamble_from, lemma_candidate_valid, lemma_find_byte_range, lemma_find_preamble_range,
    lemma_wrap_tail_valid, preamble_at, response_code_for, same_frame, wrap_tail, wrap_tail_exec,
    PN53X_DEVICE_PREFIX,
};
use crate::protocol::frame::{frame_of, frame_round_trip, frame_valid, Frame};
use crate::types::copy_range;

verus! {

/// Response code of PN53x InListPassiveTarget.
pub const PN53X_IN_LIST_PASSIVE_TARGET_RESPONSE: u8 = 0x4b;

/// The byte strings held by a list of buffers.
pub open spec fn frame_views(v: Seq<Vec<u8>>) -> Seq<Seq<u8>> {
    v.map_values(|f: Vec<u8>| f@)
}

/// An optional frame as a list of zero or one frames.
pub open spec fn opt_seq(o: Option<Seq<u8>>) -> Seq<Seq<u8>> {
    match o {
        Some(f) => seq![f],
        None => seq![],
    }
}

/// Whether every byte string of the list is a valid wire frame.
pub open spec fn all_valid(s: Seq<Seq<u8>>) -> bool {
    forall|i: int| 0 <= i < s.len() ==> frame_valid(#[trigger] s[i])
}

/// The primary scan from `i` on: each complete frame after an explicit
/// preamble yields what `candidate_frame` gives; ACK frames (length zero)
/// are skipped; an incomplete frame ends the scan.
pub open spec fn primary_scan(raw: Seq<u8>, code: u8, i: int) -> Seq<Seq<u8>>
    decreases raw.len() - i,
{
    if i < 0 || i + 3 >= raw.len() {
        seq![]
    } else if preamble_at(raw, i) {
        if raw[i + 3] == 0 {
            primary_scan(raw, code, i + 1)
        } else if i + 7 + raw[i + 3] <= raw.len() {
            opt_seq(candidate_frame(raw.subrange(i, i + 7 + raw[i + 3]), code)) + primary_scan(
                raw,
                code,
                i + 7 + raw[i + 3],
            )
        } else {
            seq![]
        }
    } else {
        primary_scan(raw, code, i + 1)
    }
}

/// The first position at or after `from` that holds `D5`, or the length.
pub open spec fn next_d5(raw: Seq<u8>, from: int) -> int
    decreases raw.len() - from,
{
    if from < 0 || from >= raw.len() {
        raw.len() as int
    } else if raw[from] == PN53X_DEVICE_PREFIX {
        from
    } else {
        next_d5(raw, from + 1)
    }
}

/// The regions of `raw` from `i` on: each starts at a `D5` byte and runs up
/// to the next `D5` or the end.
pub open spec fn d5_regions(raw: Seq<u8>, i: int) -> Seq<Seq<u8>>
    decreases raw.len() - i,
{
    if i < 0 || i >= raw.len() {
        seq![]
    } else if raw[i] == PN53X_DEVICE_PREFIX {
        let e = next_d5(raw, i + 1);
        if e <= i || e > raw.len() {
            seq![]
        } else {
            seq![raw.subrange(i, e)] + d5_regions(raw, e)
        }
    } else {
        d5_regions(raw, i + 1)
    }
}

/// Whether the frame walk of a region takes a frame at `pos`.
pub open spec fn walk_takes(region: Seq<u8>, pos: int) -> bool {
    0 <= pos && pos + 3 < region.len() && pos + 7 + region[pos + 3] <= region.len()
}

/// Frames taken back to back from `pos` on inside one region, each
/// followed by a search for the next preamble.
pub open spec fn region_walk(region: Seq<u8>, code: u8, pos: int) -> Seq<Seq<u8>>
    decreases region.len() - pos,
{
    if !walk_takes(region, pos) {
        seq![]
    } else {
        let end = pos + 7 + region[pos + 3];
        opt_seq(candidate_frame(region.subrange(pos, end), code)) + match find_preamble(
            region,
            end,
        ) {
            Some(nx) => if nx < end || nx > region.len() {
                seq![]
            } else {
                region_walk(region, code, nx)
            },
            None => seq![],
        }
    }
}

/// Largest first chunk allowed when `targets` chunks must share `n` bytes.
pub open spec fn max_prefix(n: int, targets: int) -> int {
    if n >= targets - 1 {
        n - (targets - 1)
    } else {
        0
    }
}

/// Splits `rem` into `targets` chunks, each starting with `code` and short
/// enough to be framed, trying longer first chunks first.
pub open spec fn partition(rem: Seq<u8>, code: u8, targets: int) -> Option<Seq<Seq<u8>>>
    decreases targets, rem.len() + 1,
{
    if targets <= 0 {
        if rem.len() == 0 {
            Some(seq![])
        } else {
            None
        }
    } else if targets == 1 {
        if rem.len() > 0 && rem[0] == code && rem.len() <= 255 {
            Some(seq![rem])
        } else {
            None
        }
    } else {
        try_prefixes(rem, code, targets, max_prefix(rem.len() as int, targets))
    }
}

/// The search of `partition` over first chunks of `len` bytes and shorter.
pub open spec fn try_prefixes(rem: Seq<u8>, code: u8, targets: int, len: int) -> Option<
    Seq<Seq<u8>>,
>
    decreases targets, len,
{
    if len < 1 || targets < 1 || len > rem.len() {
        None
    } else if rem[0] == code && len <= 255 {
        match partition(rem.subrange(len, rem.len() as int), code, targets - 1) {
            Some(rest) => Some(seq![rem.subrange(0, len)] + rest),
            None => try_prefixes(rem, code, targets, len - 1),
        }
    } else {
        try_prefixes(rem, code, targets, len - 1)
    }
}

/// The last resort for a region: the first suffix after the three header
/// bytes that is short enough to be framed.
pub open spec fn last_resort(region: Seq<u8>) -> Seq<Seq<u8>> {
    if region.len() > 3 {
        let start = if region.len() - 3 > 255 {
            region.len() - 255
        } else {
            3
        };
        seq![frame_of(region.subrange(start, region.len() as int))]
    } else {
        seq![]
    }
}

/// The frame rebuilt from the first `code` byte at or after `from`, else the
/// last resort.
pub open spec fn code_or_last_resort(region: Seq<u8>, code: u8, from: int) -> Seq<Seq<u8>> {
    match find_byte(region, code, from) {
        Some(pos) => match wrap_tail(region, pos) {
            Some(f) => seq![f],
            None => last_resort(region),
        },
        None => last_resort(region),
    }
}

/// A region without an explicit frame: an InListPassiveTarget reply is
/// split into its targets' payloads; otherwise the expected response code
/// is searched for; the last resort comes after both.
pub open spec fn region_fallback(region: Seq<u8>, code: u8) -> Seq<Seq<u8>> {
    if region.len() >= 3 && region[1] == PN53X_IN_LIST_PASSIVE_TARGET_RESPONSE {
        let rem = region.subrange(3, region.len() as int);
        let parts = if region[2] > 0 && rem.len() > 0 {
            partition(rem, code, region[2] as int)
        } else {
            None
        };
        match parts {
            Some(ps) => ps.map_values(|p: Seq<u8>| frame_of(p)),
            None => if region.len() > 3 {
                code_or_last_resort(region, code, 3)
            } else {
                last_resort(region)
            },
        }
    } else {
        code_or_last_resort(region, code, 0)
    }
}

/// The frames recovered from one `D5` region.
pub open spec fn region_frames(region: Seq<u8>, code: u8) -> Seq<Seq<u8>> {
    match find_preamble(region, 0) {
        Some(p0) => if walk_takes(region, p0) {
            region_walk(region, code, p0)
        } else {
            region_fallback(region, code)
        },
        None => region_fallback(region, code),
    }
}

/// The frames recovered from a list of regions, in order.
pub open spec fn regions_frames(rs: Seq<Seq<u8>>, code: u8) -> Seq<Seq<u8>>
    decreases rs.len(),
{
    if rs.len() == 0 {
        seq![]
    } else {
        regions_frames(rs.drop_last(), code) + region_frames(rs.last(), code)
    }
}

/// Every frame recovered from a PN53x response for the command code `cmd`:
/// the frames of the primary scan, or, when it finds none, those of the
/// `D5` regions.
pub open spec fn extract_all(raw: Seq<u8>, cmd: u8) -> Seq<Seq<u8>> {
    let code = response_code_for(cmd);
    let primary = primary_scan(raw, code, 0);
    if primary.len() > 0 {
        primary
    } else {
        regions_frames(d5_regions(raw, 0), code)
    }
}

proof fn lemma_views_push(v: Seq<Vec<u8>>, f: Vec<u8>)
    ensures
        frame_views(v.push(f)) == frame_views(v).push(f@),
{
    assert(frame_views(v.push(f)) =~= frame_views(v).push(f@));
}

fn push_opt(out: &mut Vec<Vec<u8>>, o: Option<Vec<u8>>)
    ensures
        frame_views(final(out)@) == frame_views(old(out)@) + match o {
            Some(f) => seq![f@],
            None => Seq::<Seq<u8>>::empty(),
        },
{
    match o {
        Some(f) => {
            proof {
                lemma_views_push(out@, f);
            }
            out.push(f);
            proof {
                assert(frame_views(out@) =~= frame_views(old(out)@) + seq![f@]);
            }
        },
        None => {
            proof {
                assert(frame_views(out@) =~= frame_views(out@) + Seq::<Seq<u8>>::empty());
            }
        },
    }
}

fn push_candidate(out: &mut Vec<Vec<u8>>, c: &[u8], code: u8)
    ensures
        frame_views(final(out)@) == frame_views(old(out)@) + opt_seq(candidate_frame(c@, code)),
{
    let o = candidate_frame_exec(c, code);
    push_opt(out, o);
}

fn primary_scan_exec(raw: &[u8], code: u8) -> (r: Vec<Vec<u8>>)
    ensures
        frame_views(r@) == primary_scan(raw@, code, 0),
{
    let n = raw.len();
    let mut out: Vec<Vec<u8>> = Vec::new();
    let mut i: usize = 0;
    proof {
        assert(frame_views(out@) + primary_scan(raw@, code, 0) =~= primary_scan(raw@, code, 0));
    }
    while i < n && n - i > 3
        invariant
            n == raw@.len(),
            frame_views(out@) + primary_scan(raw@, code, i as int) == primary_scan(raw@, code, 0),
        decreases n - i,
    {
        if raw[i] == 0x00 && raw[i + 1] == 0x00 && raw[i + 2] == 0xff {
            let len = raw[i + 3] as usize;
            if len == 0 {
                i += 1;
            } else {
                let total: usize = 7 + len;
                if total > n - i {
                    proof {
                        assert(frame_views(out@) =~= frame_views(out@) + primary_scan(
                            raw@,
                            code,
                            i as int,
                        ));
                    }
                    return out;
                }
                let ghost before = frame_views(out@);
                push_candidate(&mut out, &raw[i..i + total], code);
                proof {
                    assert(frame_views(out@) + primary_scan(raw@, code, (i + total) as int) =~= before
                        + primary_scan(raw@, code, i as int));
                }
                i += total;
            }
        } else {
            i += 1;
        }
    }
    proof {
        assert(frame_views(out@) =~= frame_views(out@) + primary_scan(raw@, code, i as int));
    }
    out
}

proof fn lemma_next_d5_range(raw: Seq<u8>, from: int)
    requires
        0 <= from,
    ensures
        from <= next_d5(raw, from) <= raw.len() || (from > raw.len() && next_d5(raw, from)
            == raw.len()),
    decreases raw.len() - from,
{
    if from < raw.len() && raw[from] != PN53X_DEVICE_PREFIX {
        lemma_next_d5_range(raw, from + 1);
    }
}

/// Splits a buffer into the regions that start at each `D5` byte.
fn extract_d5_regions(raw: &[u8]) -> (r: Vec<Vec<u8>>)
    ensures
        frame_views(r@) == d5_regions(raw@, 0),
{
    let n = raw.len();
    let mut regions: Vec<Vec<u8>> = Vec::new();
    let mut i: usize = 0;
    proof {
        assert(frame_views(regions@) + d5_regions(raw@, 0) =~= d5_regions(raw@, 0));
    }
    while i < n
        invariant
            n == raw@.len(),
            i <= n,
            frame_views(regions@) + d5_regions(raw@, i as int) == d5_regions(raw@, 0),
        decreases n - i,
    {
        if raw[i] == PN53X_DEVICE_PREFIX {
            let start = i;
            i += 1;
            while i < n && raw[i] != PN53X_DEVICE_PREFIX
                invariant
                    n == raw@.len(),
                    start < i <= n,
                    next_d5(raw@, start + 1) == next_d5(raw@, i as int),
                decreases n - i,
            {
                i += 1;
            }
            let ghost before = frame_views(regions@);
            let region = copy_range(raw, start, i);
            proof {
                lemma_views_push(regions@, region);
            }
            regions.push(region);
            proof {
                assert(frame_views(regions@) + d5_regions(raw@, i as int) =~= before + d5_regions(
                    raw@,
                    start as int,
                ));
            }
        } else {
            i += 1;
        }
    }
    proof {
        assert(frame_views(regions@) =~= frame_views(regions@) + d5_regions(raw@, i as int));
    }
    regions
}

fn region_walk_exec(out: &mut Vec<Vec<u8>>, region: &[u8], code: u8, p0: usize)
    requires
        walk_takes(region@, p0 as int),
    ensures
        frame_views(final(out)@) == frame_views(old(out)@) + region_walk(region@, code, p0 as int),
{
    let n = region.len();
    let mut pos = p0;
    proof {
        assert(frame_views(out@) + region_walk(region@, code, p0 as int) =~= frame_views(old(out)@)
            + region_walk(region@, code, p0 as int));
    }
    while pos < n && n - pos > 3
        invariant
            n == region@.len(),
            frame_views(out@) + region_walk(region@, code, pos as int) == frame_views(old(out)@)
                + region_walk(region@, code, p0 as int),
        decreases n - pos,
    {
        let len = region[pos + 3] as usize;
        let total: usize = 7 + len;
        if total > n - pos {
            proof {
                assert(frame_views(out@) =~= frame_views(out@) + region_walk(
                    region@,
                    code,
                    pos as int,
                ));
            }
            return;
        }
        let end = pos + total;
        let ghost before = frame_views(out@);
        push_candidate(out, &region[pos..end], code);
        match find_preamble_from(region, end) {
            Some(nx) => {
                proof {
                    lemma_find_preamble_range(region@, end as int);
                    assert(frame_views(out@) + region_walk(region@, code, nx as int) =~= before
                        + region_walk(region@, code, pos as int));
                }
                pos = nx;
            },
            None => {
                proof {
                    assert(frame_views(out@) =~= before + region_walk(region@, code, pos as int));
                }
                return;
            },
        }
    }
    proof {
        assert(frame_views(out@) =~= frame_views(out@) + region_walk(region@, code, pos as int));
    }
}

/// Tries to split `rem` into `targets` chunks that each start with the
/// expected response code and can be framed, preferring longer chunks.
fn partition_unframed_targets(rem: &[u8], code: u8, targets: usize) -> (r: Option<Vec<Vec<u8>>>)
    ensures
        match (r, partition(rem@, code, targets as int)) {
            (Some(v), Some(m)) => frame_views(v@) == m,
            (None, None) => true,
            _ => false,
        },
    decreases targets,
{
    if targets == 0 {
        if rem.len() == 0 {
            let v: Vec<Vec<u8>> = Vec::new();
            proof {
                assert(frame_views(v@) =~= Seq::<Seq<u8>>::empty());
            }
            return Some(v);
        }
        return None;
    }
    if targets == 1 {
        if rem.len() > 0 && rem[0] == code && rem.len() <= 255 {
            let mut v: Vec<Vec<u8>> = Vec::new();
            let whole = copy_range(rem, 0, rem.len());
            v.push(whole);
            proof {
                assert(rem@.subrange(0, rem@.len() as int) =~= rem@);
                assert(frame_views(v@) =~= seq![rem@]);
            }
            return Some(v);
        }
        return None;
    }
    let n = rem.len();
    let mut len: usize = if n >= targets - 1 {
        n - (targets - 1)
    } else {
        0
    };
    while len >= 1
        invariant
            n == rem@.len(),
            targets >= 2,
            len <= n,
            partition(rem@, code, targets as int) == try_prefixes(
                rem@,
                code,
                targets as int,
                len as int,
            ),
        decreases len,
    {
        if rem[0] == code && len <= 255 {
            match partition_unframed_targets(&rem[len..n], code, targets - 1) {
                Some(rest) => {
                    let mut out: Vec<Vec<u8>> = Vec::new();
                    out.push(copy_range(rem, 0, len));
                    let ghost first = out@;
                    let mut rest = rest;
                    let ghost rest_before = rest@;
                    out.append(&mut rest);
                    proof {
                        assert(frame_views(out@) =~= frame_views(first) + frame_views(rest_before));
                        assert(frame_views(first) =~= seq![rem@.subrange(0, len as int)]);
                    }
                    return Some(out);
                },
                None => {},
            }
        }
        len -= 1;
    }
    None
}

fn last_resort_exec(out: &mut Vec<Vec<u8>>, region: &[u8])
    ensures
        frame_views(final(out)@) == frame_views(old(out)@) + last_resort(region@),
{
    let n = region.len();
    if n > 3 {
        let start = if n - 3 > 255 {
            n - 255
        } else {
            3
        };
        match Frame::encode(&region[start..n]) {
            Ok(f) => {
                proof {
                    lemma_views_push(out@, f);
                }
                out.push(f);
            },
            Err(_) => {},
        }
    } else {
        proof {
            assert(frame_views(out@) =~= frame_views(out@) + last_resort(region@));
        }
    }
}

fn code_or_last_resort_exec(out: &mut Vec<Vec<u8>>, region: &[u8], code: u8, from: usize)
    ensures
        frame_views(final(out)@) == frame_views(old(out)@) + code_or_last_resort(
            region@,
            code,
            from as int,
        ),
{
    match find_byte_from(region, code, from) {
        Some(pos) => {
            proof {
                lemma_find_byte_range(region@, code, from as int);
            }
            match wrap_tail_exec(region, pos) {
                Some(f) => {
                    proof {
                        lemma_views_push(out@, f);
                    }
                    out.push(f);
                },
                None => last_resort_exec(out, region),
            }
        },
        None => last_resort_exec(out, region),
    }
}

fn region_fallback_exec(out: &mut Vec<Vec<u8>>, region: &[u8], code: u8)
    ensures
        frame_views(final(out)@) == frame_views(old(out)@) + region_fallback(region@, code),
{
    let n = region.len();
    if n >= 3 && region[1] == PN53X_IN_LIST_PASSIVE_TARGET_RESPONSE {
        let ntg = region[2] as usize;
        let parts = if ntg > 0 && n > 3 {
            partition_unframed_targets(&region[3..n], code, ntg)
        } else {
            None
        };
        match parts {
            Some(ps) => {
                proof {
                    lemma_partition_parts(region@.subrange(3, n as int), code, ntg as int);
                }
                let ghost m = frame_views(ps@);
                let mut k: usize = 0;
                while k < ps.len()
                    invariant
                        k <= ps@.len(),
                        m == frame_views(ps@),
                        forall|j: int| 0 <= j < m.len() ==> (#[trigger] m[j]).len() <= 255,
                        frame_views(out@) == frame_views(old(out)@) + m.subrange(
                            0,
                            k as int,
                        ).map_values(|p: Seq<u8>| frame_of(p)),
                    decreases ps.len() - k,
                {
                    proof {
                        assert(m[k as int] == ps@[k as int]@);
                    }
                    match Frame::encode(ps[k].as_slice()) {
                        Ok(f) => {
                            proof {
                                lemma_views_push(out@, f);
                            }
                            out.push(f);
                        },
                        Err(_) => {},
                    }
                    k += 1;
                    proof {
                        assert(frame_views(out@) =~= frame_views(old(out)@) + m.subrange(
                            0,
                            k as int,
                        ).map_values(|p: Seq<u8>| frame_of(p)));
                    }
                }
                proof {
                    assert(m.subrange(0, m.len() as int) =~= m);
                }
            },
            None => {
                if n > 3 {
                    code_or_last_resort_exec(out, region, code, 3);
                } else {
                    last_resort_exec(out, region);
                }
            },
        }
    } else {
        code_or_last_resort_exec(out, region, code, 0);
    }
}

fn region_frames_exec(out: &mut Vec<Vec<u8>>, region: &[u8], code: u8)
    ensures
        frame_views(final(out)@) == frame_views(old(out)@) + region_frames(region@, code),
{
    let n = region.len();
    match find_preamble_from(region, 0) {
        Some(p0) => {
            proof {
                lemma_find_preamble_range(region@, 0);
            }
            if p0 + 3 < n && (region[p0 + 3] as usize) + 7 <= n - p0 {
                region_walk_exec(out, region, code, p0);
            } else {
                region_fallback_exec(out, region, code);
            }
        },
        None => region_fallback_exec(out, region, code),
    }
}

/// Recovers every FeliCa wire frame of a PN53x response, in order: frames
/// after explicit preambles (ACK frames skipped; a PN53x payload is cut at
/// the expected response code and reframed); when there are none, the
/// frames found in each `D5` region (explicit frames, the targets of an
/// InListPassiveTarget reply, the tail from the expected response code, or
/// the longest suffix that can be framed). Every frame returned is valid.
pub fn extract_all_felica_frames_from_pn532_response(raw: &[u8], expected_cmd: u8) -> (r: Vec<
    Vec<u8>,
>)
    ensures
        frame_views(r@) == extract_all(raw@, expected_cmd),
        forall|i: int| 0 <= i < r@.len() ==> frame_valid(#[trigger] r@[i]@),
{
    let code = expected_cmd.wrapping_add(1);
    proof {
        extract_all_valid(raw@, expected_cmd);
    }
    let primary = primary_scan_exec(raw, code);
    if primary.len() > 0 {
        proof {
            assert forall|i: int| 0 <= i < primary@.len() implies frame_valid(
                #[trigger] primary@[i]@,
            ) by {
                assert(frame_views(primary@)[i] == primary@[i]@);
            }
        }
        return primary;
    }
    let regions = extract_d5_regions(raw);
    let ghost rs = frame_views(regions@);
    let mut out: Vec<Vec<u8>> = Vec::new();
    let mut k: usize = 0;
    proof {
        assert(frame_views(out@) =~= regions_frames(rs.subrange(0, 0), code));
    }
    while k < regions.len()
        invariant
            k <= regions@.len(),
            rs == frame_views(regions@),
            frame_views(out@) == regions_frames(rs.subrange(0, k as int), code),
        decreases regions.len() - k,
    {
        region_frames_exec(&mut out, regions[k].as_slice(), code);
        proof {
            assert(rs.subrange(0, k + 1).drop_last() =~= rs.subrange(0, k as int));
        }
        k += 1;
    }
    proof {
        assert(rs.subrange(0, rs.len() as int) =~= rs);
        assert forall|i: int| 0 <= i < out@.len() implies frame_valid(#[trigger] out@[i]@) by {
            assert(frame_views(out@)[i] == out@[i]@);
        }
    }
    out
}

/// What `partition` returns: `targets` chunks, each starting with `code`,
/// each short enough to be framed.
pub proof fn lemma_partition_parts(rem: Seq<u8>, code: u8, targets: int)
    ensures
        partition(rem, code, targets) matches Some(ps) ==> (targets <= 0 || ps.len() == targets)
            && forall|j: int|
            0 <= j < ps.len() ==> (#[trigger] ps[j]).len() >= 1 && ps[j][0] == code && ps[j].len()
                <= 255,
    decreases targets, rem.len() + 1,
{
    if targets >= 2 {
        lemma_try_prefixes_parts(rem, code, targets, max_prefix(rem.len() as int, targets));
    }
}

proof fn lemma_try_prefixes_parts(rem: Seq<u8>, code: u8, targets: int, len: int)
    requires
        targets >= 2,
    ensures
        try_prefixes(rem, code, targets, len) matches Some(ps) ==> ps.len() == targets && forall|
            j: int,
        |
            0 <= j < ps.len() ==> (#[trigger] ps[j]).len() >= 1 && ps[j][0] == code && ps[j].len()
                <= 255,
    decreases targets, len,
{
    if len >= 1 && len <= rem.len() {
        if rem[0] == code && len <= 255 {
            let tail = rem.subrange(len, rem.len() as int);
            lemma_partition_parts(tail, code, targets - 1);
            match partition(tail, code, targets - 1) {
                Some(rest) => {
                    let ps = seq![rem.subrange(0, len)] + rest;
                    assert forall|j: int| 0 <= j < ps.len() implies (#[trigger] ps[j]).len() >= 1
                        && ps[j][0] == code && ps[j].len() <= 255 by {
                        if j > 0 {
                            assert(ps[j] == rest[j - 1]);
                        }
                    }
                },
                None => {
                    lemma_try_prefixes_parts(rem, code, targets, len - 1);
                },
            }
        } else {
            lemma_try_prefixes_parts(rem, code, targets, len - 1);
        }
    }
}

proof fn lemma_primary_valid(raw: Seq<u8>, code: u8, i: int)
    ensures
        all_valid(primary_scan(raw, code, i)),
    decreases raw.len() - i,
{
    if 0 <= i && i + 3 < raw.len() {
        if preamble_at(raw, i) {
            if raw[i + 3] == 0 {
                lemma_primary_valid(raw, code, i + 1);
            } else if i + 7 + raw[i + 3] <= raw.len() {
                lemma_candidate_valid(raw.subrange(i, i + 7 + raw[i + 3]), code);
                lemma_primary_valid(raw, code, i + 7 + raw[i + 3]);
            }
        } else {
            lemma_primary_valid(raw, code, i + 1);
        }
    }
}

proof fn lemma_walk_valid(region: Seq<u8>, code: u8, pos: int)
    ensures
        all_valid(region_walk(region, code, pos)),
    decreases region.len() - pos,
{
    if walk_takes(region, pos) {
        let end = pos + 7 + region[pos + 3];
        lemma_candidate_valid(region.subrange(pos, end), code);
        if let Some(nx) = find_preamble(region, end) {
            if nx >= end && nx <= region.len() {
                lemma_walk_valid(region, code, nx);
            }
        }
    }
}

proof fn lemma_last_resort_valid(region: Seq<u8>)
    ensures
        all_valid(last_resort(region)),
{
    if region.len() > 3 {
        let start = if region.len() - 3 > 255 {
            region.len() - 255
        } else {
            3
        };
        frame_round_trip(region.subrange(start, region.len() as int));
    }
}

proof fn lemma_code_or_last_resort_valid(region: Seq<u8>, code: u8, from: int)
    requires
        0 <= from,
    ensures
        all_valid(code_or_last_resort(region, code, from)),
{
    lemma_last_resort_valid(region);
    lemma_find_byte_range(region, code, from);
    if let Some(pos) = find_byte(region, code, from) {
        lemma_wrap_tail_valid(region, pos);
    }
}

proof fn lemma_region_valid(region: Seq<u8>, code: u8)
    ensures
        all_valid(region_frames(region, code)),
{
    lemma_find_preamble_range(region, 0);
    if let Some(p0) = find_preamble(region, 0) {
        lemma_walk_valid(region, code, p0);
    }
    lemma_code_or_last_resort_valid(region, code, 0);
    lemma_code_or_last_resort_valid(region, code, 3);
    lemma_last_resort_valid(region);
    if region.len() >= 3 && region[1] == PN53X_IN_LIST_PASSIVE_TARGET_RESPONSE {
        let rem = region.subrange(3, region.len() as int);
        if region[2] > 0 && rem.len() > 0 {
            lemma_partition_parts(rem, code, region[2] as int);
            if let Some(ps) = partition(rem, code, region[2] as int) {
                let fs = ps.map_values(|p: Seq<u8>| frame_of(p));
                assert forall|j: int| 0 <= j < fs.len() implies frame_valid(#[trigger] fs[j]) by {
                    frame_round_trip(ps[j]);
                }
            }
        }
    }
}

proof fn lemma_regions_valid(rs: Seq<Seq<u8>>, code: u8)
    ensures
        all_valid(regions_frames(rs, code)),
    decreases rs.len(),
{
    if rs.len() > 0 {
        lemma_regions_valid(rs.drop_last(), code);
        lemma_region_valid(rs.last(), code);
        let a = regions_frames(rs.drop_last(), code);
        let b = region_frames(rs.last(), code);
        assert forall|i: int| 0 <= i < (a + b).len() implies frame_valid(#[trigger] (a + b)[i]) by {
            if i < a.len() {
                assert((a + b)[i] == a[i]);
            } else {
                assert((a + b)[i] == b[i - a.len()]);
            }
        }
    }
}

/// Every frame recovered from a response is a valid wire frame.
pub proof fn extract_all_valid(raw: Seq<u8>, cmd: u8)
    ensures
        all_valid(extract_all(raw, cmd)),
{
    let code = response_code_for(cmd);
    lemma_primary_valid(raw, code, 0);
    lemma_regions_valid(d5_regions(raw, 0), code);
}

} // verus!

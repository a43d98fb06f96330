//! Response payloads: the per-command decoders and the `Response` union.

use vstd::prelude::*;

use crate::error::{Error, Result};
use crate::protocol::parser::{byte_at, ensure_len, expect_response_code, idm_at, le_u16_at, pmm_at};
use crate::types::{array_at, le_u16, BlockData, Idm, Pmm, SystemCode};

verus! {

/// A decoded response as plain values.
pub enum ResponseModel {
    Polling { idm: Seq<u8>, pmm: Seq<u8>, system_code: u16 },
    ReadWithoutEncryption { idm: Seq<u8>, status: (u8, u8), blocks: Seq<Seq<u8>> },
    WriteWithoutEncryption { idm: Seq<u8>, statuses: Seq<(u8, u8)> },
    RequestService { idm: Seq<u8>, versions: Seq<u16> },
    RequestResponse { idm: Seq<u8>, mode: u8 },
    RequestSystemCode { idm: Seq<u8>, system_codes: Seq<u16> },
    SearchServiceCode { idm: Seq<u8>, area_or_service_code: Option<u16> },
}

/// `count` little-endian `u16` values stored from `start` on.
pub open spec fn u16s_at(data: Seq<u8>, start: int, count: int) -> Seq<u16> {
    Seq::new(count as nat, |i: int| le_u16(data[start + 2 * i], data[start + 2 * i + 1]))
}

/// The IDm field of every response: bytes 1 to 8.
pub open spec fn idm_field(data: Seq<u8>) -> Seq<u8> {
    data.subrange(1, 9)
}

/// The checks every decoder makes first: a minimum length, then the
/// response code.
pub open spec fn header_error(data: Seq<u8>, min: int, code: u8) -> Option<Error> {
    if data.len() < min {
        Some(Error::InvalidLength { expected: min as usize, actual: data.len() as usize })
    } else if data[0] != code {
        Some(Error::UnexpectedResponse { expected: code, actual: data[0] })
    } else {
        None
    }
}

/// Polling response: code `01`, IDm, PMm, system code.
pub open spec fn polling_model(data: Seq<u8>) -> core::result::Result<ResponseModel, Error> {
    match header_error(data, 19, 0x01) {
        Some(e) => Err(e),
        None => Ok(
            ResponseModel::Polling {
                idm: idm_field(data),
                pmm: data.subrange(9, 17),
                system_code: le_u16(data[17], data[18]),
            },
        ),
    }
}

/// Read response: code `07`, IDm, two status bytes, block count, blocks.
pub open spec fn read_model(data: Seq<u8>) -> core::result::Result<ResponseModel, Error> {
    match header_error(data, 12, 0x07) {
        Some(e) => Err(e),
        None => if data[9] != 0 || data[10] != 0 {
            Err(Error::FelicaStatus { status1: data[9], status2: data[10] })
        } else if data.len() < 12 + 16 * data[11] {
            Err(
                Error::InvalidLength {
                    expected: (12 + 16 * data[11]) as usize,
                    actual: data.len() as usize,
                },
            )
        } else {
            Ok(
                ResponseModel::ReadWithoutEncryption {
                    idm: idm_field(data),
                    status: (0, 0),
                    blocks: Seq::new(
                        data[11] as nat,
                        |i: int| data.subrange(12 + 16 * i, 28 + 16 * i),
                    ),
                },
            )
        },
    }
}

/// The status pairs of a write response.
pub open spec fn write_statuses(data: Seq<u8>) -> Seq<(u8, u8)> {
    Seq::new(((data.len() - 9) / 2) as nat, |i: int| (data[9 + 2 * i], data[10 + 2 * i]))
}

/// Whether a status pair reports success.
pub open spec fn status_ok(s: (u8, u8)) -> bool {
    s.0 == 0 && s.1 == 0
}

/// Index of the first failing status pair at or after `k`, if any.
pub open spec fn first_bad_from(st: Seq<(u8, u8)>, k: int) -> Option<int>
    decreases st.len() - k,
{
    if k < 0 || k >= st.len() {
        None
    } else if !status_ok(st[k]) {
        Some(k)
    } else {
        first_bad_from(st, k + 1)
    }
}

/// Write response: code `09`, IDm, one status pair per block; the first
/// failing pair is an error.
pub open spec fn write_model(data: Seq<u8>) -> core::result::Result<ResponseModel, Error> {
    match header_error(data, 11, 0x09) {
        Some(e) => Err(e),
        None => if (data.len() - 9) % 2 != 0 {
            Err(Error::InvalidLength { expected: 11, actual: data.len() as usize })
        } else {
            let st = write_statuses(data);
            if let Some(i) = first_bad_from(st, 0) {
                if st.len() == 1 {
                    Err(Error::FelicaStatus { status1: st[i].0, status2: st[i].1 })
                } else {
                    Err(
                        Error::FelicaBlockStatus {
                            index: i as usize,
                            status1: st[i].0,
                            status2: st[i].1,
                        },
                    )
                }
            } else {
                Ok(ResponseModel::WriteWithoutEncryption { idm: idm_field(data), statuses: st })
            }
        },
    }
}

/// The length check of a counted list of `u16` values after byte 9.
pub open spec fn counted_error(data: Seq<u8>) -> Option<Error> {
    if data.len() < 10 + 2 * data[9] {
        Some(
            Error::InvalidLength {
                expected: (10 + 2 * data[9]) as usize,
                actual: data.len() as usize,
            },
        )
    } else {
        None
    }
}

/// Request Service response: code `03`, IDm, count, key versions.
pub open spec fn request_service_model(data: Seq<u8>) -> core::result::Result<ResponseModel, Error> {
    match header_error(data, 10, 0x03) {
        Some(e) => Err(e),
        None => match counted_error(data) {
            Some(e) => Err(e),
            None => Ok(
                ResponseModel::RequestService {
                    idm: idm_field(data),
                    versions: u16s_at(data, 10, data[9] as int),
                },
            ),
        },
    }
}

/// Request Response response: code `05`, IDm, mode.
pub open spec fn request_response_model(data: Seq<u8>) -> core::result::Result<ResponseModel, Error> {
    match header_error(data, 10, 0x05) {
        Some(e) => Err(e),
        None => Ok(ResponseModel::RequestResponse { idm: idm_field(data), mode: data[9] }),
    }
}

/// Request System Code response: code `0D`, IDm, count, system codes.
pub open spec fn request_system_code_model(data: Seq<u8>) -> core::result::Result<ResponseModel, Error> {
    match header_error(data, 10, 0x0d) {
        Some(e) => Err(e),
        None => match counted_error(data) {
            Some(e) => Err(e),
            None => Ok(
                ResponseModel::RequestSystemCode {
                    idm: idm_field(data),
                    system_codes: u16s_at(data, 10, data[9] as int),
                },
            ),
        },
    }
}

/// Search Service Code response: code `0B`, IDm, presence flag, and the
/// code when the flag is set.
pub open spec fn search_service_code_model(data: Seq<u8>) -> core::result::Result<ResponseModel, Error> {
    match header_error(data, 10, 0x0b) {
        Some(e) => Err(e),
        None => if data[9] == 0 {
            Ok(ResponseModel::SearchServiceCode { idm: idm_field(data), area_or_service_code: None })
        } else if data.len() < 12 {
            Err(Error::InvalidLength { expected: 12, actual: data.len() as usize })
        } else {
            Ok(
                ResponseModel::SearchServiceCode {
                    idm: idm_field(data),
                    area_or_service_code: Some(le_u16(data[10], data[11])),
                },
            )
        },
    }
}

/// The response that a payload decodes to, for the command `cmd` that was
/// sent: the first byte must be `cmd + 1`, then the command's decoder runs.
pub open spec fn response_model(cmd: u8, data: Seq<u8>) -> core::result::Result<ResponseModel, Error> {
    let code = (if cmd == 255 { 0 } else { cmd + 1 }) as u8;
    if data.len() < 1 {
        Err(Error::InvalidLength { expected: 1, actual: 0 })
    } else if data[0] != code {
        Err(Error::UnexpectedResponse { expected: code, actual: data[0] })
    } else if cmd == 0x00 {
        polling_model(data)
    } else if cmd == 0x06 {
        read_model(data)
    } else if cmd == 0x08 {
        write_model(data)
    } else if cmd == 0x02 {
        request_service_model(data)
    } else if cmd == 0x04 {
        request_response_model(data)
    } else if cmd == 0x0c {
        request_system_code_model(data)
    } else if cmd == 0x0a {
        search_service_code_model(data)
    } else {
        Err(Error::UnexpectedResponse { expected: code, actual: data[0] })
    }
}

/// A decoded FeliCa response.
#[derive(Debug)]
pub enum Response {
    Polling { idm: Idm, pmm: Pmm, system_code: SystemCode },
    ReadWithoutEncryption { idm: Idm, status: (u8, u8), blocks: Vec<BlockData> },
    WriteWithoutEncryption { idm: Idm, statuses: Vec<(u8, u8)> },
    RequestService { idm: Idm, versions: Vec<u16> },
    RequestResponse { idm: Idm, mode: u8 },
    RequestSystemCode { idm: Idm, system_codes: Vec<SystemCode> },
    SearchServiceCode { idm: Idm, area_or_service_code: Option<u16> },
}

impl View for Response {
    type V = ResponseModel;

    open spec fn view(&self) -> ResponseModel {
        match self {
            Response::Polling { idm, pmm, system_code } => ResponseModel::Polling {
                idm: idm@,
                pmm: pmm@,
                system_code: system_code.0,
            },
            Response::ReadWithoutEncryption { idm, status, blocks } => {
                ResponseModel::ReadWithoutEncryption {
                    idm: idm@,
                    status: *status,
                    blocks: blocks@.map_values(|b: BlockData| b@),
                }
            },
            Response::WriteWithoutEncryption { idm, statuses } => {
                ResponseModel::WriteWithoutEncryption { idm: idm@, statuses: statuses@ }
            },
            Response::RequestService { idm, versions } => ResponseModel::RequestService {
                idm: idm@,
                versions: versions@,
            },
            Response::RequestResponse { idm, mode } => ResponseModel::RequestResponse {
                idm: idm@,
                mode: *mode,
            },
            Response::RequestSystemCode { idm, system_codes } => {
                ResponseModel::RequestSystemCode {
                    idm: idm@,
                    system_codes: system_codes@.map_values(|c: SystemCode| c.0),
                }
            },
            Response::SearchServiceCode { idm, area_or_service_code } => {
                ResponseModel::SearchServiceCode {
                    idm: idm@,
                    area_or_service_code: *area_or_service_code,
                }
            },
        }
    }
}

/// Whether an executable outcome agrees with a modelled one.
pub open spec fn outcome_is<T: View>(
    r: Result<T>,
    m: core::result::Result<T::V, Error>,
) -> bool {
    match (r, m) {
        (Ok(x), Ok(y)) => x@ == y,
        (Err(e), Err(f)) => e == f,
        _ => false,
    }
}

/// The response code that belongs to each response variant.
pub open spec fn response_code_of(r: ResponseModel) -> u8 {
    match r {
        ResponseModel::Polling { .. } => 0x01,
        ResponseModel::ReadWithoutEncryption { .. } => 0x07,
        ResponseModel::WriteWithoutEncryption { .. } => 0x09,
        ResponseModel::RequestService { .. } => 0x03,
        ResponseModel::RequestResponse { .. } => 0x05,
        ResponseModel::RequestSystemCode { .. } => 0x0d,
        ResponseModel::SearchServiceCode { .. } => 0x0b,
    }
}

/// A payload that decodes as the response to `cmd` carries the response
/// code `cmd + 1`, and the response variant is the one of that code.
pub proof fn decoded_response_matches_command(cmd: u8, data: Seq<u8>)
    ensures
        response_model(cmd, data) matches Ok(m) ==> cmd < 255 && data[0] == cmd + 1
            && response_code_of(m) == cmd + 1,
{
}

impl Response {
    /// Decodes a response payload (response code included) for the command
    /// code `expected_cmd` that was sent.
    pub fn decode(expected_cmd: u8, data: &[u8]) -> (r: Result<Response>)
        ensures
            outcome_is(r, response_model(expected_cmd, data@)),
    {
        ensure_len(data, 1)?;
        let expected_response = expected_cmd.wrapping_add(1);
        expect_response_code(data, expected_response)?;
        match expected_cmd {
            0x00 => {
                let (idm, pmm, system_code) = decode_polling(data)?;
                Ok(Response::Polling { idm, pmm, system_code })
            },
            0x06 => {
                let (idm, status, blocks) = decode_read(data)?;
                Ok(Response::ReadWithoutEncryption { idm, status, blocks })
            },
            0x08 => {
                let (idm, statuses) = decode_write(data)?;
                Ok(Response::WriteWithoutEncryption { idm, statuses })
            },
            0x02 => {
                let (idm, versions) = decode_request_service(data)?;
                Ok(Response::RequestService { idm, versions })
            },
            0x04 => {
                let (idm, mode) = decode_request_response(data)?;
                Ok(Response::RequestResponse { idm, mode })
            },
            0x0c => {
                let (idm, system_codes) = decode_request_system_code(data)?;
                Ok(Response::RequestSystemCode { idm, system_codes })
            },
            0x0a => {
                let (idm, area_or_service_code) = decode_search_service_code(data)?;
                Ok(Response::SearchServiceCode { idm, area_or_service_code })
            },
            _ => Err(Error::UnexpectedResponse { expected: expected_response, actual: data[0] }),
        }
    }

    /// The response code of this variant.
    pub fn response_code(&self) -> (r: u8)
        ensures
            r == response_code_of(self@),
    {
        match self {
            Response::Polling { .. } => 0x01,
            Response::ReadWithoutEncryption { .. } => 0x07,
            Response::WriteWithoutEncryption { .. } => 0x09,
            Response::RequestService { .. } => 0x03,
            Response::RequestResponse { .. } => 0x05,
            Response::RequestSystemCode { .. } => 0x0d,
            Response::SearchServiceCode { .. } => 0x0b,
        }
    }
}

/// Decodes a Polling response payload.
pub fn decode_polling(data: &[u8]) -> (r: Result<(Idm, Pmm, SystemCode)>)
    ensures
        match (r, polling_model(data@)) {
            (Ok((idm, pmm, sc)), Ok(m)) => m == (ResponseModel::Polling {
                idm: idm@,
                pmm: pmm@,
                system_code: sc.0,
            }),
            (Err(e), Err(f)) => e == f,
            _ => false,
        },
{
    ensure_len(data, 19)?;
    expect_response_code(data, 0x01)?;
    let idm = idm_at(data, 1)?;
    let pmm = pmm_at(data, 9)?;
    let sys = SystemCode::new(le_u16_at(data, 17)?);
    Ok((idm, pmm, sys))
}

/// Decodes a Read Without Encryption response payload.
pub fn decode_read(data: &[u8]) -> (r: Result<(Idm, (u8, u8), Vec<BlockData>)>)
    ensures
        match (r, read_model(data@)) {
            (Ok((idm, status, blocks)), Ok(m)) => m == (ResponseModel::ReadWithoutEncryption {
                idm: idm@,
                status,
                blocks: blocks@.map_values(|b: BlockData| b@),
            }),
            (Err(e), Err(f)) => e == f,
            _ => false,
        },
{
    ensure_len(data, 12)?;
    expect_response_code(data, 0x07)?;
    let idm = idm_at(data, 1)?;
    let status1 = byte_at(data, 9)?;
    let status2 = byte_at(data, 10)?;
    if status1 != 0 || status2 != 0 {
        return Err(Error::FelicaStatus { status1, status2 });
    }
    let block_count = byte_at(data, 11)? as usize;
    let needed_len: usize = 12 + block_count * 16;
    ensure_len(data, needed_len)?;
    let mut blocks: Vec<BlockData> = Vec::new();
    let mut i: usize = 0;
    while i < block_count
        invariant
            i <= block_count,
            block_count == data@[11],
            12 + 16 * block_count <= data@.len(),
            blocks@.len() == i,
            forall|k: int|
                0 <= k < i ==> #[trigger] blocks@[k]@ == data@.subrange(12 + 16 * k, 28 + 16 * k),
        decreases block_count - i,
    {
        let block: [u8; 16] = array_at(data, 12 + i * 16);
        blocks.push(BlockData::from_bytes(block));
        i += 1;
    }
    proof {
        let m = Seq::new(data@[11] as nat, |k: int| data@.subrange(12 + 16 * k, 28 + 16 * k));
        assert(blocks@.map_values(|b: BlockData| b@) =~= m);
    }
    Ok((idm, (status1, status2), blocks))
}

/// Decodes a Write Without Encryption response payload; the first failing
/// status pair is reported as an error.
pub fn decode_write(data: &[u8]) -> (r: Result<(Idm, Vec<(u8, u8)>)>)
    ensures
        match (r, write_model(data@)) {
            (Ok((idm, statuses)), Ok(m)) => m == (ResponseModel::WriteWithoutEncryption {
                idm: idm@,
                statuses: statuses@,
            }),
            (Err(e), Err(f)) => e == f,
            _ => false,
        },
{
    ensure_len(data, 11)?;
    expect_response_code(data, 0x09)?;
    let idm = idm_at(data, 1)?;
    let remaining = data.len() - 9;
    if remaining % 2 != 0 {
        return Err(Error::InvalidLength { expected: 11, actual: data.len() });
    }
    let count = remaining / 2;
    let n = data.len();
    let mut statuses: Vec<(u8, u8)> = Vec::new();
    let mut i: usize = 0;
    while i < count
        invariant
            n == data@.len(),
            i <= count,
            count == (data@.len() - 9) / 2,
            data@.len() >= 11,
            statuses@ == write_statuses(data@).subrange(0, i as int),
        decreases count - i,
    {
        let s1 = data[9 + 2 * i];
        let s2 = data[10 + 2 * i];
        statuses.push((s1, s2));
        i += 1;
        proof {
            assert(statuses@ =~= write_statuses(data@).subrange(0, i as int));
        }
    }
    proof {
        assert(statuses@ =~= write_statuses(data@));
    }
    let mut j: usize = 0;
    while j < statuses.len()
        invariant
            j <= statuses@.len(),
            statuses@ == write_statuses(data@),
            first_bad_from(statuses@, 0) == first_bad_from(statuses@, j as int),
            header_error(data@, 11, 0x09) is None,
            (data@.len() - 9) % 2 == 0,
        decreases statuses.len() - j,
    {
        let (s1, s2) = statuses[j];
        if s1 != 0 || s2 != 0 {
            if statuses.len() == 1 {
                return Err(Error::FelicaStatus { status1: s1, status2: s2 });
            } else {
                return Err(Error::FelicaBlockStatus { index: j, status1: s1, status2: s2 });
            }
        }
        j += 1;
    }
    Ok((idm, statuses))
}

/// Decodes `count` little-endian `u16` values from byte 10 on.
fn read_u16s(data: &[u8], count: usize) -> (r: Vec<u16>)
    requires
        10 + 2 * count <= data@.len(),
    ensures
        r@ == u16s_at(data@, 10, count as int),
{
    let n = data.len();
    let mut out: Vec<u16> = Vec::new();
    let mut i: usize = 0;
    while i < count
        invariant
            n == data@.len(),
            i <= count,
            10 + 2 * count <= data@.len(),
            out@ == u16s_at(data@, 10, i as int),
        decreases count - i,
    {
        let v = crate::types::u16_from_le(data[10 + 2 * i], data[11 + 2 * i]);
        out.push(v);
        i += 1;
        proof {
            assert(out@ =~= u16s_at(data@, 10, i as int));
        }
    }
    out
}

/// Decodes a Request Service response payload.
pub fn decode_request_service(data: &[u8]) -> (r: Result<(Idm, Vec<u16>)>)
    ensures
        match (r, request_service_model(data@)) {
            (Ok((idm, versions)), Ok(m)) => m == (ResponseModel::RequestService {
                idm: idm@,
                versions: versions@,
            }),
            (Err(e), Err(f)) => e == f,
            _ => false,
        },
{
    ensure_len(data, 10)?;
    expect_response_code(data, 0x03)?;
    let idm = idm_at(data, 1)?;
    let count = byte_at(data, 9)? as usize;
    ensure_len(data, 10 + count * 2)?;
    let versions = read_u16s(data, count);
    Ok((idm, versions))
}

/// Decodes a Request Response response payload.
pub fn decode_request_response(data: &[u8]) -> (r: Result<(Idm, u8)>)
    ensures
        match (r, request_response_model(data@)) {
            (Ok((idm, mode)), Ok(m)) => m == (ResponseModel::RequestResponse { idm: idm@, mode }),
            (Err(e), Err(f)) => e == f,
            _ => false,
        },
{
    ensure_len(data, 10)?;
    expect_response_code(data, 0x05)?;
    let idm = idm_at(data, 1)?;
    let mode = byte_at(data, 9)?;
    Ok((idm, mode))
}

/// Decodes a Request System Code response payload.
pub fn decode_request_system_code(data: &[u8]) -> (r: Result<(Idm, Vec<SystemCode>)>)
    ensures
        match (r, request_system_code_model(data@)) {
            (Ok((idm, codes)), Ok(m)) => m == (ResponseModel::RequestSystemCode {
                idm: idm@,
                system_codes: codes@.map_values(|c: SystemCode| c.0),
            }),
            (Err(e), Err(f)) => e == f,
            _ => false,
        },
{
    ensure_len(data, 10)?;
    expect_response_code(data, 0x0d)?;
    let idm = idm_at(data, 1)?;
    let count = byte_at(data, 9)? as usize;
    ensure_len(data, 10 + count * 2)?;
    let values = read_u16s(data, count);
    let mut codes: Vec<SystemCode> = Vec::new();
    let mut i: usize = 0;
    while i < values.len()
        invariant
            i <= values@.len(),
            codes@.len() == i,
            forall|k: int| 0 <= k < i ==> #[trigger] codes@[k].0 == values@[k],
        decreases values.len() - i,
    {
        codes.push(SystemCode::new(values[i]));
        i += 1;
    }
    proof {
        assert(codes@.map_values(|c: SystemCode| c.0) =~= values@);
    }
    Ok((idm, codes))
}

/// Decodes a Search Service Code response payload.
pub fn decode_search_service_code(data: &[u8]) -> (r: Result<(Idm, Option<u16>)>)
    ensures
        match (r, search_service_code_model(data@)) {
            (Ok((idm, code)), Ok(m)) => m == (ResponseModel::SearchServiceCode {
                idm: idm@,
                area_or_service_code: code,
            }),
            (Err(e), Err(f)) => e == f,
            _ => false,
        },
{
    ensure_len(data, 10)?;
    expect_response_code(data, 0x0b)?;
    let idm = idm_at(data, 1)?;
    let present_flag = byte_at(data, 9)?;
    if present_flag == 0 {
        Ok((idm, None))
    } else {
        ensure_len(data, 12)?;
        let code = le_u16_at(data, 10)?;
        Ok((idm, Some(code)))
    }
}

} // verus!

//! Bounds-checked readers over response payloads.

use vstd::prelude::*;

use crate::error::{Error, Result};
use crate::types::{array_at, le_u16, u16_from_le, Idm, Pmm};

verus! {

/// Succeeds when `data` holds at least `min` bytes.
pub fn ensure_len(data: &[u8], min: usize) -> (r: Result<()>)
    ensures
        data@.len() >= min ==> r is Ok,
        data@.len() < min ==> r == Err::<(), Error>(
            Error::InvalidLength { expected: min, actual: data@.len() as usize },
        ),
{
    if data.len() < min {
        return Err(Error::InvalidLength { expected: min, actual: data.len() });
    }
    Ok(())
}

/// The little-endian `u16` at `idx`.
pub fn le_u16_at(data: &[u8], idx: usize) -> (r: Result<u16>)
    requires
        idx + 2 <= usize::MAX,
    ensures
        idx + 2 <= data@.len() ==> r == Ok::<u16, Error>(le_u16(data@[idx as int], data@[idx + 1])),
        idx + 2 > data@.len() ==> r == Err::<u16, Error>(
            Error::InvalidLength { expected: (idx + 2) as usize, actual: data@.len() as usize },
        ),
{
    ensure_len(data, idx + 2)?;
    Ok(u16_from_le(data[idx], data[idx + 1]))
}

/// The `len` bytes at `idx`.
pub fn slice_at(data: &[u8], idx: usize, len: usize) -> (r: Result<&[u8]>)
    requires
        idx + len <= usize::MAX,
    ensures
        idx + len <= data@.len() ==> (r matches Ok(s) && s@ == data@.subrange(
            idx as int,
            idx + len,
        )),
        idx + len > data@.len() ==> r == Err::<&[u8], Error>(
            Error::InvalidLength { expected: (idx + len) as usize, actual: data@.len() as usize },
        ),
{
    ensure_len(data, idx + len)?;
    Ok(&data[idx..idx + len])
}

/// The IDm at `start`.
pub fn idm_at(data: &[u8], start: usize) -> (r: Result<Idm>)
    requires
        start + 8 <= usize::MAX,
    ensures
        start + 8 <= data@.len() ==> (r matches Ok(v) && v@ == data@.subrange(
            start as int,
            start + 8,
        )),
        start + 8 > data@.len() ==> r == Err::<Idm, Error>(
            Error::InvalidLength { expected: (start + 8) as usize, actual: data@.len() as usize },
        ),
{
    ensure_len(data, start + 8)?;
    let a: [u8; 8] = array_at(data, start);
    Ok(Idm::from_bytes(a))
}

/// The PMm at `start`.
pub fn pmm_at(data: &[u8], start: usize) -> (r: Result<Pmm>)
    requires
        start + 8 <= usize::MAX,
    ensures
        start + 8 <= data@.len() ==> (r matches Ok(v) && v@ == data@.subrange(
            start as int,
            start + 8,
        )),
        start + 8 > data@.len() ==> r == Err::<Pmm, Error>(
            Error::InvalidLength { expected: (start + 8) as usize, actual: data@.len() as usize },
        ),
{
    ensure_len(data, start + 8)?;
    let a: [u8; 8] = array_at(data, start);
    Ok(Pmm::from_bytes(a))
}

/// The byte at `idx`.
pub fn byte_at(data: &[u8], idx: usize) -> (r: Result<u8>)
    requires
        idx + 1 <= usize::MAX,
    ensures
        idx < data@.len() ==> r == Ok::<u8, Error>(data@[idx as int]),
        idx >= data@.len() ==> r == Err::<u8, Error>(
            Error::InvalidLength { expected: (idx + 1) as usize, actual: data@.len() as usize },
        ),
{
    ensure_len(data, idx + 1)?;
    Ok(data[idx])
}

/// Succeeds when the first byte is `expected`.
pub fn expect_response_code(data: &[u8], expected: u8) -> (r: Result<()>)
    ensures
        data@.len() == 0 ==> r == Err::<(), Error>(
            Error::InvalidLength { expected: 1, actual: 0 },
        ),
        data@.len() > 0 && data@[0] == expected ==> r is Ok,
        data@.len() > 0 && data@[0] != expected ==> r == Err::<(), Error>(
            Error::UnexpectedResponse { expected, actual: data@[0] },
        ),
{
    let actual = byte_at(data, 0)?;
    if actual != expected {
        return Err(Error::UnexpectedResponse { expected, actual });
    }
    Ok(())
}

} // verus!

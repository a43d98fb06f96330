//! Fixed-width identifiers and codes of the FeliCa protocol.

use vstd::prelude::*;

use crate::error::{Error, Result};
use crate::utils::hex::{ascii_string, bytes_to_hex, bytes_to_hex_spaced, hex_text, hex_text_spaced};

verus! {

/// Value of the little-endian 16-bit integer made of `lo` and `hi`.
pub open spec fn le_u16(lo: u8, hi: u8) -> u16 {
    (lo as int + 256 * hi as int) as u16
}

/// Little-endian bytes of `v`.
pub open spec fn le_bytes(v: u16) -> Seq<u8> {
    seq![(v % 256) as u8, (v / 256) as u8]
}

/// Builds a `u16` from its two little-endian bytes.
pub fn u16_from_le(lo: u8, hi: u8) -> (r: u16)
    ensures
        r == le_u16(lo, hi),
{
    lo as u16 + (hi as u16) * 256
}

/// Splits a `u16` into its two little-endian bytes.
pub fn u16_to_le(v: u16) -> (r: [u8; 2])
    ensures
        r@ == le_bytes(v),
{
    [(v % 256) as u8, (v / 256) as u8]
}

/// Reading back the little-endian bytes of a value gives the value.
pub proof fn le_round_trip(v: u16)
    ensures
        le_u16(le_bytes(v)[0], le_bytes(v)[1]) == v,
{
}

/// Whether two byte slices hold the same bytes.
pub fn bytes_equal(a: &[u8], b: &[u8]) -> (r: bool)
    ensures
        r == (a@ == b@),
{
    if a.len() != b.len() {
        return false;
    }
    let mut i: usize = 0;
    while i < a.len()
        invariant
            a@.len() == b@.len(),
            i <= a.len(),
            forall|k: int| 0 <= k < i ==> a@[k] == b@[k],
        decreases a.len() - i,
    {
        if a[i] != b[i] {
            return false;
        }
        i += 1;
    }
    proof {
        assert(a@ =~= b@);
    }
    true
}

/// Copies `N` bytes of `data` from `start` on into an array.
pub fn array_at<const N: usize>(data: &[u8], start: usize) -> (r: [u8; N])
    requires
        start + N <= data@.len(),
    ensures
        r@ == data@.subrange(start as int, start + N),
{
    let mut out = [0u8; N];
    let len = data.len();
    let mut i: usize = 0;
    while i < N
        invariant
            len == data@.len(),
            start + N <= data@.len(),
            i <= N,
            out@.len() == N,
            forall|k: int| 0 <= k < i ==> out@[k] == data@[start + k],
        decreases N - i,
    {
        out[i] = data[start + i];
        i += 1;
    }
    proof {
        assert(out@ =~= data@.subrange(start as int, start + N));
    }
    out
}

/// Appends the bytes of `data` to `out`.
pub fn append_bytes(out: &mut Vec<u8>, data: &[u8])
    ensures
        final(out)@ == old(out)@ + data@,
{
    let mut i: usize = 0;
    while i < data.len()
        invariant
            i <= data@.len(),
            out@ == old(out)@ + data@.subrange(0, i as int),
        decreases data.len() - i,
    {
        out.push(data[i]);
        i += 1;
        proof {
            assert(out@ =~= old(out)@ + data@.subrange(0, i as int));
        }
    }
    proof {
        assert(data@.subrange(0, data@.len() as int) =~= data@);
    }
}

/// A copy of the bytes of `data` from `start` up to `end`.
pub fn copy_range(data: &[u8], start: usize, end: usize) -> (r: Vec<u8>)
    requires
        start <= end <= data@.len(),
    ensures
        r@ == data@.subrange(start as int, end as int),
{
    let mut out: Vec<u8> = Vec::new();
    let mut i: usize = start;
    while i < end
        invariant
            start <= i <= end,
            end <= data@.len(),
            out@ == data@.subrange(start as int, i as int),
        decreases end - i,
    {
        out.push(data[i]);
        i += 1;
        proof {
            assert(out@ =~= data@.subrange(start as int, i as int));
        }
    }
    out
}

/// IDm: the 8-byte manufacture identifier of a FeliCa card.
#[derive(Debug, Clone, Copy, PartialEq, Eq, Hash)]
pub struct Idm(pub [u8; 8]);

impl View for Idm {
    type V = Seq<u8>;

    open spec fn view(&self) -> Seq<u8> {
        self.0@
    }
}

impl Idm {
    /// Wraps eight bytes.
    pub fn from_bytes(bytes: [u8; 8]) -> (r: Self)
        ensures
            r@ == bytes@,
    {
        Idm(bytes)
    }

    /// The eight bytes.
    pub fn as_bytes(&self) -> (r: &[u8; 8])
        ensures
            r@ == self@,
    {
        &self.0
    }

    /// Builds an IDm from a slice, which must hold exactly eight bytes.
    pub fn try_from(bytes: &[u8]) -> (r: Result<Self>)
        ensures
            bytes@.len() == 8 ==> (r matches Ok(v) && v@ == bytes@),
            bytes@.len() != 8 ==> r == Err::<Self, Error>(
                Error::InvalidLength { expected: 8, actual: bytes@.len() as usize },
            ),
    {
        if bytes.len() != 8 {
            return Err(Error::InvalidLength { expected: 8, actual: bytes.len() });
        }
        let arr: [u8; 8] = array_at(bytes, 0);
        proof {
            assert(bytes@.subrange(0, 8) =~= bytes@);
        }
        Ok(Idm(arr))
    }

    /// Lowercase hexadecimal text of the eight bytes, without separators.
    pub fn to_hex(&self) -> (r: String)
        ensures
            r@ == hex_text(self@),
    {
        bytes_to_hex(&self.0)
    }
}

/// PMm: the 8-byte manufacture parameter of a FeliCa card.
#[derive(Debug, Clone, Copy, PartialEq, Eq, Hash)]
pub struct Pmm(pub [u8; 8]);

impl View for Pmm {
    type V = Seq<u8>;

    open spec fn view(&self) -> Seq<u8> {
        self.0@
    }
}

impl Pmm {
    /// Wraps eight bytes.
    pub fn from_bytes(bytes: [u8; 8]) -> (r: Self)
        ensures
            r@ == bytes@,
    {
        Pmm(bytes)
    }

    /// The eight bytes.
    pub fn as_bytes(&self) -> (r: &[u8; 8])
        ensures
            r@ == self@,
    {
        &self.0
    }

    /// Builds a PMm from a slice, which must hold exactly eight bytes.
    pub fn try_from(bytes: &[u8]) -> (r: Result<Self>)
        ensures
            bytes@.len() == 8 ==> (r matches Ok(v) && v@ == bytes@),
            bytes@.len() != 8 ==> r == Err::<Self, Error>(
                Error::InvalidLength { expected: 8, actual: bytes@.len() as usize },
            ),
    {
        if bytes.len() != 8 {
            return Err(Error::InvalidLength { expected: 8, actual: bytes.len() });
        }
        let arr: [u8; 8] = array_at(bytes, 0);
        proof {
            assert(bytes@.subrange(0, 8) =~= bytes@);
        }
        Ok(Pmm(arr))
    }
}

/// A 16-bit FeliCa system code.
#[derive(Debug, Clone, Copy, PartialEq, Eq, Structural, Hash)]
pub struct SystemCode(pub u16);

/// Wildcard system code.
pub const SYSTEM_CODE_ANY: u16 = 0xffff;
/// Common area system code.
pub const SYSTEM_CODE_COMMON: u16 = 0xfe00;
/// Suica system code.
pub const SYSTEM_CODE_SUICA: u16 = 0x0003;

impl SystemCode {
    /// The wildcard system code, matching any system.
    pub fn any() -> (r: Self)
        ensures
            r.0 == SYSTEM_CODE_ANY,
    {
        SystemCode(SYSTEM_CODE_ANY)
    }

    /// The common area system code.
    pub fn common() -> (r: Self)
        ensures
            r.0 == SYSTEM_CODE_COMMON,
    {
        SystemCode(SYSTEM_CODE_COMMON)
    }

    /// The Suica system code.
    pub fn suica() -> (r: Self)
        ensures
            r.0 == SYSTEM_CODE_SUICA,
    {
        SystemCode(SYSTEM_CODE_SUICA)
    }

    /// Wraps a code.
    pub fn new(code: u16) -> (r: Self)
        ensures
            r.0 == code,
    {
        SystemCode(code)
    }

    /// The code.
    pub fn as_u16(&self) -> (r: u16)
        ensures
            r == self.0,
    {
        self.0
    }

    /// Little-endian bytes of the code.
    pub fn to_le_bytes(&self) -> (r: [u8; 2])
        ensures
            r@ == le_bytes(self.0),
    {
        u16_to_le(self.0)
    }

    /// The code whose little-endian bytes are `bytes`.
    pub fn from_le_bytes(bytes: [u8; 2]) -> (r: Self)
        ensures
            r.0 == le_u16(bytes[0], bytes[1]),
    {
        SystemCode(u16_from_le(bytes[0], bytes[1]))
    }
}

/// A 16-bit FeliCa service code.
#[derive(Debug, Clone, Copy, PartialEq, Eq, Structural, Hash)]
pub struct ServiceCode(pub u16);

impl ServiceCode {
    /// Wraps a code.
    pub fn new(code: u16) -> (r: Self)
        ensures
            r.0 == code,
    {
        ServiceCode(code)
    }

    /// The code.
    pub fn as_u16(&self) -> (r: u16)
        ensures
            r == self.0,
    {
        self.0
    }

    /// Little-endian bytes of the code.
    pub fn to_le_bytes(&self) -> (r: [u8; 2])
        ensures
            r@ == le_bytes(self.0),
    {
        u16_to_le(self.0)
    }
}

/// The printable form of a byte: itself when it is a graphic ASCII
/// character or a space, else a dot.
pub open spec fn ascii_safe_byte(b: u8) -> u8 {
    if 0x20 <= b <= 0x7e {
        b
    } else {
        0x2e
    }
}

/// One 16-byte FeliCa data block.
#[derive(Debug, Clone, Copy, PartialEq, Eq)]
pub struct BlockData(pub [u8; 16]);

impl View for BlockData {
    type V = Seq<u8>;

    open spec fn view(&self) -> Seq<u8> {
        self.0@
    }
}

impl BlockData {
    /// Wraps sixteen bytes.
    pub fn from_bytes(bytes: [u8; 16]) -> (r: Self)
        ensures
            r@ == bytes@,
    {
        BlockData(bytes)
    }

    /// The sixteen bytes.
    pub fn as_bytes(&self) -> (r: &[u8; 16])
        ensures
            r@ == self@,
    {
        &self.0
    }

    /// Lowercase hexadecimal text of the block, one space between bytes.
    pub fn to_hex(&self) -> (r: String)
        ensures
            r@ == hex_text_spaced(self@),
    {
        bytes_to_hex_spaced(&self.0)
    }

    /// The block as text: graphic ASCII characters and spaces as they are,
    /// every other byte as a dot.
    pub fn to_ascii_safe(&self) -> (r: String)
        ensures
            r@ == self@.map_values(|b: u8| ascii_safe_byte(b) as char),
    {
        let mut out: Vec<u8> = Vec::new();
        let mut i: usize = 0;
        while i < 16
            invariant
                i <= 16,
                out@ == self@.subrange(0, i as int).map_values(|b: u8| ascii_safe_byte(b)),
            decreases 16 - i,
        {
            let b = self.0[i];
            let c = if 0x20 <= b && b <= 0x7e {
                b
            } else {
                0x2e
            };
            out.push(c);
            i += 1;
            proof {
                assert(out@ =~= self@.subrange(0, i as int).map_values(|b: u8| ascii_safe_byte(b)));
            }
        }
        proof {
            assert(self@.subrange(0, 16) =~= self@);
        }
        let r = ascii_string(out);
        proof {
            assert(r@ =~= self@.map_values(|b: u8| ascii_safe_byte(b) as char));
        }
        r
    }
}

/// The three hardware generations of PaSoRi readers.
#[derive(Debug, Clone, Copy, PartialEq, Eq, Structural)]
pub enum DeviceType {
    S310,
    S320,
    S330,
}

/// The reader generation that a USB product id identifies, if any.
pub open spec fn device_type_of_pid(pid: u16) -> Option<DeviceType> {
    if pid == 0x006c {
        Some(DeviceType::S310)
    } else if pid == 0x01bb {
        Some(DeviceType::S320)
    } else if pid == 0x02e1 {
        Some(DeviceType::S330)
    } else {
        None
    }
}

impl DeviceType {
    /// The generation that a USB product id (vendor 0x054C) identifies.
    pub fn from_product_id(pid: u16) -> (r: Option<Self>)
        ensures
            r == device_type_of_pid(pid),
    {
        match pid {
            0x006c => Some(DeviceType::S310),
            0x01bb => Some(DeviceType::S320),
            0x02e1 => Some(DeviceType::S330),
            _ => None,
        }
    }
}

impl Default for DeviceType {
    /// The S320, the most common generation.
    fn default() -> (r: Self)
        ensures
            r == DeviceType::S320,
    {
        DeviceType::S320
    }
}

/// The kinds of contactless targets.
#[derive(Debug, Clone, Copy, PartialEq, Eq, Structural)]
pub enum CardType {
    TypeA,
    TypeB,
    TypeF,
}

/// Access mode of a block list element.
#[derive(Debug, Clone, Copy, PartialEq, Eq, Structural)]
pub enum AccessMode {
    CashBackOrDecrement,
    DirectAccessOrDecrement,
    DirectAccessOrRead,
}

/// The wire value of an access mode.
pub open spec fn access_mode_value(m: AccessMode) -> u8 {
    match m {
        AccessMode::CashBackOrDecrement => 0,
        AccessMode::DirectAccessOrDecrement => 1,
        AccessMode::DirectAccessOrRead => 2,
    }
}

impl AccessMode {
    /// The wire value: 0, 1 or 2.
    pub fn value(&self) -> (r: u8)
        ensures
            r == access_mode_value(*self),
    {
        match self {
            AccessMode::CashBackOrDecrement => 0,
            AccessMode::DirectAccessOrDecrement => 1,
            AccessMode::DirectAccessOrRead => 2,
        }
    }
}

/// One element of a block list: which service, how, and which block.
#[derive(Debug, Clone, Copy, PartialEq, Eq, Structural)]
pub struct BlockElement {
    pub service_index: u8,
    pub access_mode: AccessMode,
    pub block_number: u16,
}

/// The three-byte form of a block list element. Only the low byte of the
/// block number is kept.
pub open spec fn block_element_bytes(e: BlockElement) -> Seq<u8> {
    seq![e.service_index, access_mode_value(e.access_mode), (e.block_number % 256) as u8]
}

impl BlockElement {
    /// Builds an element.
    pub fn new(service_index: u8, access_mode: AccessMode, block_number: u16) -> (r: Self)
        ensures
            r == (BlockElement { service_index, access_mode, block_number }),
    {
        BlockElement { service_index, access_mode, block_number }
    }

    /// Encodes the element as three bytes: service index, access mode,
    /// low byte of the block number.
    pub fn encode(&self) -> (r: [u8; 3])
        ensures
            r@ == block_element_bytes(*self),
    {
        let r = [self.service_index, self.access_mode.value(), (self.block_number % 256) as u8];
        proof {
            assert(r@ =~= block_element_bytes(*self));
        }
        r
    }
}

/// UID of a Type-A or Type-B target; its length varies.
#[derive(Debug, Clone, PartialEq, Eq, Hash)]
pub struct Uid(pub Vec<u8>);

impl View for Uid {
    type V = Seq<u8>;

    open spec fn view(&self) -> Seq<u8> {
        self.0@
    }
}

impl Uid {
    /// Wraps the bytes.
    pub fn from_bytes(bytes: Vec<u8>) -> (r: Self)
        ensures
            r@ == bytes@,
    {
        Uid(bytes)
    }

    /// The bytes.
    pub fn as_bytes(&self) -> (r: &[u8])
        ensures
            r@ == self@,
    {
        self.0.as_slice()
    }
}

/// ATQB: the 12-byte answer of a Type-B target.
#[derive(Debug, Clone, Copy, PartialEq, Eq, Hash)]
pub struct Atqb(pub [u8; 12]);

impl View for Atqb {
    type V = Seq<u8>;

    open spec fn view(&self) -> Seq<u8> {
        self.0@
    }
}

impl Atqb {
    /// Wraps twelve bytes.
    pub fn from_bytes(bytes: [u8; 12]) -> (r: Self)
        ensures
            r@ == bytes@,
    {
        Atqb(bytes)
    }

    /// The twelve bytes.
    pub fn as_bytes(&self) -> (r: &[u8; 12])
        ensures
            r@ == self@,
    {
        &self.0
    }
}

} // verus!

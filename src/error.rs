//! The library's single error type.

use vstd::prelude::*;

verus! {

/// Every failure that an operation of this library can report.
#[derive(Debug, Clone)]
pub enum Error {
    /// No matching reader was found when opening a transport.
    DeviceNotFound,
    /// The USB stack failed; carries its message.
    UsbString(String),
    /// A buffer was shorter than required, or its length did not match.
    InvalidLength { expected: usize, actual: usize },
    /// A single-block operation reported a non-zero status pair.
    FelicaStatus { status1: u8, status2: u8 },
    /// A multi-block write reported a non-zero status pair for one block.
    FelicaBlockStatus { index: usize, status1: u8, status2: u8 },
    /// The LCS or DCS byte of a frame was wrong.
    ChecksumMismatch { expected: u8, actual: u8 },
    /// A frame had a bad preamble or postamble.
    FrameFormat(String),
    /// A response code differed from the one expected.
    UnexpectedResponse { expected: u8, actual: u8 },
    /// No target answered a polling request.
    PollingFailed,
    /// A receive deadline elapsed with no data.
    Timeout,
    /// The operation is not valid for this card variant.
    UnsupportedOperation(String),
}

/// Result type of the library's fallible operations.
pub type Result<T> = core::result::Result<T, Error>;

} // verus!

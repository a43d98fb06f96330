//! Small helpers: hexadecimal text and timeouts.

pub mod hex;
pub mod timeout;

pub use hex::{bytes_to_hex, bytes_to_hex_spaced, parse_hex};
pub use timeout::{default_read_timeout, ms, DEFAULT_READ_TIMEOUT_MS};

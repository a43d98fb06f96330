//! Host-side driver logic for Sony PaSoRi contactless readers: the FeliCa
//! wire codec, command and response codecs, the per-generation device
//! models with the S330's PN53x frame recovery, and the card operations
//! built on top of them.

pub mod card;
pub mod device;
pub mod error;
pub mod protocol;
pub mod test_support;
pub mod transport;
pub mod types;
pub mod utils;

pub use card::{Card, CardInfo};
pub use device::{Device, Initialized, Uninitialized};
pub use error::{Error, Result};
pub use protocol::{Command, Response};
pub use types::{
    AccessMode, Atqb, BlockData, BlockElement, CardType, DeviceType, Idm, Pmm, ServiceCode,
    SystemCode, Uid,
};
pub use utils::{bytes_to_hex, bytes_to_hex_spaced, default_read_timeout, ms, parse_hex};

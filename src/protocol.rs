//! FeliCa protocol: checksums, wire frames, commands and responses.

pub mod checksum;
pub mod codec;
pub mod commands;
pub mod frame;
pub mod parser;
pub mod responses;

pub use checksum::{dcs, lcs};
pub use frame::Frame;
pub use responses::Response;
pub use commands::Command;

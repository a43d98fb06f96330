//! Byte transports to a reader: the interface and an in-memory mock.

pub mod mock;
pub mod traits;
pub mod usb;

pub use mock::MockTransport;
pub use traits::Transport;

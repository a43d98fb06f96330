//! Reader handles and the per-generation device models.

pub mod builder;
pub mod handle;
pub mod models;

pub use builder::DeviceBuilder;
pub use handle::{Device, Initialized, Uninitialized};

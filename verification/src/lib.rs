//! A pausable, incremental BLE discovery core.
//!
//! The library is the decision logic of a discovery pipeline: it accumulates
//! per-device metadata as discovery events arrive, respects a cooperative
//! pause flag, publishes a growing snapshot after every update, and flattens
//! the service/characteristic topology of a single connected device.
//! All I/O (the adapter, the event stream, the output channel, timers) is
//! driven by a thin unverified shell around this crate.

pub mod accumulator;
pub mod device;
pub mod errors;
pub mod gatt;
pub mod laws;

pub use errors::DiscoveryError;
pub use errors::EnumerationError;

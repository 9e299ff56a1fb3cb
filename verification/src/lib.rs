//! Icon cache library: a persistent, TTL-based cache for application icons.
//!
//! The library normalizes platform-supplied pixel buffers into canonical RGBA
//! images, serializes cache entries (timestamp plus optional PNG-compressed
//! image) to byte strings, and manages a persistent key/value store with a
//! retry/backoff recovery state machine that rate-limits destructive rebuilds.

pub mod bitmap;
pub mod cache;
pub mod codec;
pub mod settings;
pub mod store;
pub mod utils;

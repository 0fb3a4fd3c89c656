//! Safe binding logic for the Cobra voice-activity-detection engine.
//!
//! The native engine is distributed as a platform-specific dynamic library
//! and is reached over a C ABI by a thin unverified driver.  Everything the
//! binding decides or computes on its own — locating the right library
//! artifact for a platform, validating caller input before any native call,
//! turning native status codes into typed errors, decoding and checking
//! the values the native library hands back — lives here, with contracts.

pub mod cobra;
pub mod error;
pub mod status;
pub mod text;
pub mod util;

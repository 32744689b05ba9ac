//! The error value of BASS, also reachable under this path.
pub use crate::bass::error::BassError;

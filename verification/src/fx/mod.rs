//! Effects on channels.
pub mod eq;

//! Removal of the running program's own image file, as a verified protocol.

pub mod disposition;
pub mod error;
pub mod handle;
pub mod path;
pub mod rename;
pub mod runs;
pub mod sequence;
pub mod wide;

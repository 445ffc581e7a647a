//! The hardware manifest.

pub mod assembly;
pub mod dynamic;
pub mod raw;

//! The x86_64 architecture.

pub mod compute;
pub mod cpu;
pub mod direct;
pub mod interrupt;
pub mod memory;
pub mod platform;
pub mod power;
pub mod timer;

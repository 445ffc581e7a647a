//! What calls of the library's functions return and change.

pub mod access;
pub mod basics;
pub mod boot;
pub mod cpu;
pub mod devices;
pub mod interrupt;
pub mod manifest;
pub mod memory;
pub mod power;
pub mod time;

//! What holds of the library's operations, said of their inputs and results in
//! plain numbers.

pub mod access;
pub mod boot;
pub mod calls;
pub mod contexts;
pub mod cpu;
pub mod device_tree;
pub mod firmware_tables;
pub mod interrupts;
pub mod manifest;
pub mod memory_map;
pub mod paging;
pub mod pci;
pub mod power;
pub mod registers;
pub mod report;
pub mod time;
pub mod words;

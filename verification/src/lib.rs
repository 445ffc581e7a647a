//! A hardware abstraction layer whose behaviour is stated in contracts and
//! proved.

pub mod acpi;
pub mod arm64;
pub mod bits;
pub mod bytes;
pub mod clock;
pub mod compute;
pub mod context;
pub mod direct;
pub mod fdt;
pub mod hal;
pub mod irq_table;
pub mod laws;
pub mod manifest;
pub mod paging;
pub mod pci;
pub mod power;
pub mod report;
pub mod riscv64;
pub mod uefi;
pub mod x86_64;

//! Power and thermal support: the domains are known, but can neither be scaled
//! nor read.

pub use crate::power::PowerThermalImpl;

//! What is specific to the processor architecture.

pub mod cache;
pub mod power;
pub mod psci;
pub mod smc;
pub mod start;
pub mod sysregs;

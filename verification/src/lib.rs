//! The decision core of a small AArch64 hypervisor: power management on behalf
//! of guests (PSCI), start-up of the processor cores, and the construction of a
//! virtual machine from its configuration.
//!
//! Everything here works on plain values. A function looks at configuration
//! and at what the machine has answered so far, updates the bookkeeping that
//! the hypervisor keeps in memory, and says which operation comes next. The
//! crate that embeds the library touches the hardware.

pub mod arch;
pub mod kernel;
pub mod platform;
pub mod vmm;

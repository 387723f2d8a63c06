//! The hypervisor's own bookkeeping: cores, virtual machines and the messages
//! that cores exchange.

pub mod config;
pub mod cpu;
pub mod ipi;
pub mod vm;

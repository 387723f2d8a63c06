//! Building a virtual machine from its configuration and starting it.

pub mod boot;
pub mod cores;
pub mod device_tree;
pub mod devices;
pub mod image;
pub mod memory;
pub mod plan;
pub mod setup;

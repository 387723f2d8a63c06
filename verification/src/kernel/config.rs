//! The configuration of a virtual machine.

use vstd::prelude::*;

verus! {

/// What a machine runs.
#[derive(Clone, Copy, PartialEq, Eq, Structural, Debug)]
pub enum VmType {
    /// A full operating system.
    VmTOs,
    /// A bare-metal application.
    VmTBma,
}

/// A range of guest memory.
#[derive(Clone, Copy, PartialEq, Eq, Structural, Debug)]
pub struct VmRegion {
    pub ipa_start: usize,
    pub length: usize,
}

/// Where the guest images go. An address of zero stands for "none".
pub struct VmImageConfig {
    /// Name of the built-in kernel, if one is to be used.
    pub kernel_img_name: Option<String>,
    pub kernel_load_ipa: usize,
    pub device_tree_load_ipa: usize,
    pub ramdisk_load_ipa: usize,
}

/// Kinds of emulated devices.
#[derive(Clone, Copy, PartialEq, Eq, Structural, Debug)]
pub enum EmuDeviceType {
    EmuDeviceTGicd,
    EmuDeviceTGPPT,
    EmuDeviceTVirtioNet,
    EmuDeviceTVirtioConsole,
    /// The channel to the hypervisor itself.
    EmuDeviceTTinyvm,
    EmuDeviceTIOMMU,
    /// Any other device; it needs no preparation here.
    EmuDeviceTOther,
}

/// An emulated device.
pub struct VmEmulatedDeviceConfig {
    pub name: String,
    pub base_ipa: usize,
    pub length: usize,
    pub irq_id: usize,
    pub emu_type: EmuDeviceType,
}

/// A range of host addresses handed to the guest with a device.
#[derive(Clone, Copy, PartialEq, Eq, Structural, Debug)]
pub struct PassthroughRegion {
    pub ipa: usize,
    pub pa: usize,
    pub length: usize,
    /// The range is cacheable; otherwise it bypasses the caches.
    pub dev_property: bool,
}

/// Host devices handed to the guest.
pub struct VmPassthroughDeviceConfig {
    pub regions: Vec<PassthroughRegion>,
    pub irqs: Vec<usize>,
    /// Stream identifiers for the IOMMU; a zero ends the list.
    pub streams_ids: Vec<usize>,
}

/// The configuration of a virtual machine.
pub struct VmConfigEntry {
    pub name: String,
    pub os_type: VmType,
    /// Boot command line handed to the guest kernel.
    pub cmdline: String,
    pub image: VmImageConfig,
    pub memory_region: Vec<VmRegion>,
    pub cpu_num: usize,
    pub emulated_device_list: Vec<VmEmulatedDeviceConfig>,
    pub passthrough: VmPassthroughDeviceConfig,
    /// Overlay to be applied to the guest's device tree; empty for none.
    pub fdt_overlay: Vec<u8>,
}

} // verus!

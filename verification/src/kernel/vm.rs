//! Virtual machines and their virtual cores.

use vstd::prelude::*;

use crate::kernel::config::VmConfigEntry;

verus! {

/// Life cycle of a virtual core.
#[derive(Clone, Copy, PartialEq, Eq, Structural, Debug)]
pub enum VcpuState {
    /// Not started.
    Invalid,
    Ready,
    Running,
    Sleep,
}

/// A virtual core, identified by its machine and its number there.
#[derive(Clone, Copy, PartialEq, Eq, Structural, Debug)]
pub struct Vcpu {
    pub vm_id: usize,
    pub id: usize,
    /// The physical core it lives on.
    pub phys_id: usize,
    pub state: VcpuState,
}

/// A stretch of host memory given to a machine.
///
/// `offset` is the distance from a host address to the guest address it backs.
#[derive(Clone, Copy, PartialEq, Eq, Structural, Debug)]
pub struct VmPa {
    pub pa_start: usize,
    pub pa_length: usize,
    pub offset: isize,
}

/// Attributes of a stage-2 mapping.
#[derive(Clone, Copy, PartialEq, Eq, Structural, Debug)]
pub enum S2Attr {
    /// Cacheable memory.
    Normal,
    /// Memory that bypasses the caches.
    NormalNoCache,
}

/// A range to be entered in a machine's stage-2 page table.
#[derive(Clone, Copy, PartialEq, Eq, Structural, Debug)]
pub struct PageMapping {
    pub ipa: usize,
    pub len: usize,
    pub pa: usize,
    pub attr: S2Attr,
    /// Large blocks may be used.
    pub map_block: bool,
}

/// A virtual machine.
pub struct Vm {
    pub id: usize,
    pub config: VmConfigEntry,
    /// Frame of the root of the stage-2 page table.
    pub pt_dir: Option<usize>,
    pub mem_region_num: usize,
    /// Host memory behind the configured regions, in their order.
    pub pa_region: Vec<VmPa>,
    pub vcpu_list: Vec<Vcpu>,
}

} // verus!

//! The board and the options a hypervisor image is built for.

use vstd::prelude::*;

verus! {

/// Instruction set of the host.
#[derive(Clone, Copy, PartialEq, Eq, Structural, Debug)]
pub enum Arch {
    Aarch64,
    Riscv64,
}

/// Board selection and build options.
///
/// The options are independent of each other: an image may be built for both
/// boards, and with both RISC-V interrupt controllers.
#[derive(Clone, Copy, PartialEq, Eq, Structural, Debug)]
pub struct Platform {
    pub arch: Arch,
    /// QEMU's `virt` machine.
    pub qemu: bool,
    /// Rockchip RK3588.
    pub rk3588: bool,
    /// The interrupt controller is a GICv3.
    pub gicv3: bool,
    /// The interrupt controller is a PLIC.
    pub plic: bool,
    /// The interrupt controller is an AIA.
    pub aia: bool,
    /// The configuration of VM 1 is compiled in.
    pub static_config: bool,
    /// Cores stay powered down until a guest asks for them.
    pub secondary_start: bool,
    /// Base address of the GIC distributor.
    pub gicd_base: usize,
    /// Base address of the GIC CPU interface.
    pub gicc_base: usize,
    /// How many virtual machines there can be.
    pub vm_num_max: usize,
}

impl Platform {
    /// A board with an AArch64 device tree of its own.
    pub open spec fn spec_arm_board(&self) -> bool {
        (self.qemu || self.rk3588) && self.arch == Arch::Aarch64
    }

    /// Whether this is one of the AArch64 boards.
    pub fn arm_board(&self) -> (r: bool)
        ensures
            r == self.spec_arm_board(),
    {
        (self.qemu || self.rk3588) && self.arch == Arch::Aarch64
    }
}

} // verus!

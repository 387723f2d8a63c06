//! The device tree that a guest finds.
//!
//! The first machine gets a copy of the system's tree, edited by the operations
//! of [`vmm_setup_fdt`]; [`fdt_begin`] and [`fdt_next`] lead through them, and
//! [`fdt_finish`] looks at the result. The tree of any other machine is made
//! for it and may have an overlay: [`overlay_fdt`] gives the steps of applying
//! it, [`overlay_begin`] and [`overlay_next`] lead through them.
//!
//! Strings that end up in a tree are terminated by a zero byte.

use vstd::prelude::*;

use crate::kernel::config::{EmuDeviceType, VmConfigEntry, VmEmulatedDeviceConfig, VmRegion};
use crate::platform::{Arch, Platform};

verus! {

/// Memory node on QEMU's AArch64 machine.
pub const MEMORY_QEMU_AARCH64: &'static str = "memory@50000000\0";

/// Memory node on QEMU's RISC-V machine.
pub const MEMORY_QEMU_RISCV64: &'static str = "memory@90000000\0";

/// Memory node on the RK3588.
pub const MEMORY_RK3588: &'static str = "memory@10000000\0";

/// Console of the RK3588.
pub const STDOUT_RK3588: &'static str = "/serial@feba0000\0";

/// Parent of the devices on RISC-V.
pub const NODE_SOC: &'static str = "/soc\0";

/// Node of the channel to the hypervisor.
pub const NODE_VM_SERVICE: &'static str = "vm_service\0";

pub const PROP_INTERRUPTS: &'static str = "interrupts\0";

pub const PROP_INTERRUPT_PARENT: &'static str = "interrupt-parent\0";

pub const PROP_REG: &'static str = "reg\0";

pub const PROP_COMPATIBLE: &'static str = "compatible\0";

pub const COMPATIBLE_VIRTIO: &'static str = "virtio,mmio\0";

pub const COMPATIBLE_TINYVM: &'static str = "tinyvm\0";

/// Handle of the PLIC.
pub const PHANDLE_PLIC: u32 = 9;

/// Handle of the AIA.
pub const PHANDLE_AIA: u32 = 12;

/// A level-triggered interrupt that is active when high.
pub const IRQ_LEVEL_HIGH: u32 = 4;

/// Number of the first shared interrupt of a GIC. Trees count from it.
pub const FIRST_SPI: u32 = 0x20;

/// A range of memory in a tree.
#[derive(Clone, Copy, PartialEq, Eq, Structural, Debug)]
pub struct FdtRegion {
    pub ipa_start: u64,
    pub length: u64,
}

/// Name of a node.
#[derive(Clone, Copy, PartialEq, Eq, Debug)]
pub enum NodeName {
    /// The name of the emulated device at this place of the list.
    Device(usize),
    Fixed(&'static str),
}

/// An operation on a tree. The last five give a code that is negative when they
/// fail; those that add a property add it to the node created last.
#[derive(Clone, Copy, PartialEq, Eq, Debug)]
pub enum FdtOp {
    /// Describe the machine's memory in this node.
    SetMemory { node: &'static str },
    /// Set the boot command line to [`FdtPlan::cmdline`].
    SetBootcmd,
    /// Set the console.
    SetStdoutPath { path: &'static str },
    /// Describe the interrupt controller, which has the name of a device.
    SetupGic { gicd_base: u64, gicc_base: u64, device: usize },
    /// Add a virtio device under the name of a device.
    AddVirtio { device: usize, irq: u32, base: u64 },
    /// Add the channel to the hypervisor.
    AddVmService { irq: u32, base: u64, length: u64 },
    /// Create a node below `parent`; the code is its handle.
    CreateNode { parent: &'static str, name: NodeName },
    AddU32 { prop: &'static str, value: u32 },
    AddU32Pair { prop: &'static str, first: u32, second: u32 },
    /// Add the property [`PROP_REG`], which says where the device is.
    AddReg { base: u64, length: u64 },
    /// `checked` says whether failing matters.
    AddString { prop: &'static str, text: &'static str, checked: bool },
}

/// The edit of a tree.
pub struct FdtPlan {
    /// The memory that [`FdtOp::SetMemory`] describes.
    pub memory: Vec<FdtRegion>,
    /// The text that [`FdtOp::SetBootcmd`] sets.
    pub cmdline: String,
    pub ops: Vec<FdtOp>,
}

/// The memory of a machine, as the tree describes it.
pub open spec fn fdt_regions(regions: Seq<VmRegion>) -> Seq<FdtRegion> {
    Seq::new(
        regions.len(),
        |i: int|
            FdtRegion {
                ipa_start: regions[i].ipa_start as u64,
                length: regions[i].length as u64,
            },
    )
}

/// The properties that connect a device to the interrupt controllers.
pub open spec fn interrupt_ops(platform: Platform, irq: u32) -> Seq<FdtOp> {
    let plic = if platform.plic {
        seq![
            FdtOp::AddU32 { prop: PROP_INTERRUPTS, value: irq },
            FdtOp::AddU32 { prop: PROP_INTERRUPT_PARENT, value: PHANDLE_PLIC },
        ]
    } else {
        Seq::empty()
    };
    let aia = if platform.aia {
        seq![
            FdtOp::AddU32Pair { prop: PROP_INTERRUPTS, first: irq, second: IRQ_LEVEL_HIGH },
            FdtOp::AddU32 { prop: PROP_INTERRUPT_PARENT, value: PHANDLE_AIA },
        ]
    } else {
        Seq::empty()
    };
    plic + aia
}

/// A virtio device on RISC-V.
pub open spec fn virtio_riscv64_ops(
    platform: Platform,
    device: usize,
    irq: u32,
    base: u64,
    length: u64,
) -> Seq<FdtOp> {
    seq![FdtOp::CreateNode { parent: NODE_SOC, name: NodeName::Device(device) }] + interrupt_ops(
        platform,
        irq,
    ) + seq![
        FdtOp::AddReg { base, length },
        FdtOp::AddString { prop: PROP_COMPATIBLE, text: COMPATIBLE_VIRTIO, checked: false },
    ]
}

/// The channel to the hypervisor on RISC-V.
pub open spec fn vm_service_riscv64_ops(
    platform: Platform,
    irq: u32,
    base: u64,
    length: u64,
) -> Seq<FdtOp> {
    seq![
        FdtOp::CreateNode { parent: NODE_SOC, name: NodeName::Fixed(NODE_VM_SERVICE) },
        FdtOp::AddString { prop: PROP_COMPATIBLE, text: COMPATIBLE_TINYVM, checked: true },
    ] + interrupt_ops(platform, irq) + seq![
        FdtOp::AddReg { base, length },
    ]
}

/// What an emulated device needs in the tree; it is at place `index` of the
/// list.
pub open spec fn device_ops(
    platform: Platform,
    device: VmEmulatedDeviceConfig,
    index: usize,
) -> Seq<FdtOp> {
    let irq = device.irq_id as u32;
    let base = device.base_ipa as u64;
    let length = device.length as u64;
    match device.emu_type {
        EmuDeviceType::EmuDeviceTGicd | EmuDeviceType::EmuDeviceTGPPT => if platform.qemu
            && !platform.gicv3 {
            seq![
                FdtOp::SetupGic {
                    gicd_base: platform.gicd_base as u64,
                    gicc_base: platform.gicc_base as u64,
                    device: index,
                },
            ]
        } else {
            Seq::empty()
        },
        EmuDeviceType::EmuDeviceTVirtioNet | EmuDeviceType::EmuDeviceTVirtioConsole => {
            if platform.spec_arm_board() {
                seq![FdtOp::AddVirtio { device: index, irq: (irq - FIRST_SPI) as u32, base }]
            } else if platform.arch == Arch::Riscv64 {
                virtio_riscv64_ops(platform, index, irq, base, length)
            } else {
                Seq::empty()
            }
        },
        EmuDeviceType::EmuDeviceTTinyvm => {
            if platform.spec_arm_board() {
                seq![FdtOp::AddVmService { irq: (irq - FIRST_SPI) as u32, base, length }]
            } else if platform.arch == Arch::Riscv64 {
                vm_service_riscv64_ops(platform, irq, base, length)
            } else {
                Seq::empty()
            }
        },
        _ => Seq::empty(),
    }
}

/// What the first `n` emulated devices need, in their order.
pub open spec fn emulated_ops(
    platform: Platform,
    devices: Seq<VmEmulatedDeviceConfig>,
    n: int,
) -> Seq<FdtOp>
    decreases n,
{
    if n <= 0 {
        Seq::empty()
    } else {
        emulated_ops(platform, devices, n - 1) + device_ops(
            platform,
            devices[n - 1],
            (n - 1) as usize,
        )
    }
}

/// Memory, command line and console.
pub open spec fn board_ops(platform: Platform) -> Seq<FdtOp> {
    let qemu = if platform.qemu {
        seq![
            FdtOp::SetMemory {
                node: match platform.arch {
                    Arch::Aarch64 => MEMORY_QEMU_AARCH64,
                    Arch::Riscv64 => MEMORY_QEMU_RISCV64,
                },
            },
        ]
    } else {
        Seq::empty()
    };
    if platform.rk3588 {
        qemu + seq![
            FdtOp::SetMemory { node: MEMORY_RK3588 },
            FdtOp::SetBootcmd,
            FdtOp::SetStdoutPath { path: STDOUT_RK3588 },
        ]
    } else {
        qemu + seq![FdtOp::SetBootcmd]
    }
}

/// The operations of an edit.
pub open spec fn fdt_ops(platform: Platform, config: VmConfigEntry) -> Seq<FdtOp> {
    board_ops(platform) + emulated_ops(
        platform,
        config.emulated_device_list@,
        config.emulated_device_list@.len() as int,
    )
}

/// Where the tree counts interrupts from the first shared one, the device's
/// interrupt is not before it.
pub open spec fn irq_in_range(platform: Platform, device: VmEmulatedDeviceConfig) -> bool {
    match device.emu_type {
        EmuDeviceType::EmuDeviceTVirtioNet
        | EmuDeviceType::EmuDeviceTVirtioConsole
        | EmuDeviceType::EmuDeviceTTinyvm => platform.spec_arm_board() ==> device.irq_id as u32
            >= FIRST_SPI,
        _ => true,
    }
}

/// Every device's interrupt can be described.
pub open spec fn irqs_in_range(platform: Platform, config: VmConfigEntry) -> bool {
    forall|i: int|
        0 <= i < config.emulated_device_list@.len() ==> irq_in_range(
            platform,
            #[trigger] config.emulated_device_list@[i],
        )
}

/// Whether every device's interrupt can be described, so that
/// [`vmm_setup_fdt`] may be called.
pub fn fdt_irqs_in_range(platform: &Platform, config: &VmConfigEntry) -> (r: bool)
    ensures
        r == irqs_in_range(*platform, *config),
{
    let n: usize = config.emulated_device_list.len();
    let mut i: usize = 0;
    while i < n
        invariant
            i <= n,
            n == config.emulated_device_list@.len(),
            forall|k: int|
                0 <= k < i ==> irq_in_range(
                    *platform,
                    #[trigger] config.emulated_device_list@[k],
                ),
        decreases n - i,
    {
        let device: &VmEmulatedDeviceConfig = &config.emulated_device_list[i];
        let counted: bool = match device.emu_type {
            EmuDeviceType::EmuDeviceTVirtioNet => true,
            EmuDeviceType::EmuDeviceTVirtioConsole => true,
            EmuDeviceType::EmuDeviceTTinyvm => true,
            _ => false,
        };
        if counted && platform.arm_board() && (device.irq_id as u32) < FIRST_SPI {
            assert(!irq_in_range(*platform, config.emulated_device_list@[i as int]));
            return false;
        }
        i = i + 1;
    }
    true
}

/// Adds the properties that connect a device to the interrupt controllers.
fn fdt_add_interrupt(platform: &Platform, ops: &mut Vec<FdtOp>, irq_id: u32)
    ensures
        final(ops)@ == old(ops)@ + interrupt_ops(*platform, irq_id),
{
    if platform.plic {
        ops.push(FdtOp::AddU32 { prop: PROP_INTERRUPTS, value: irq_id });
        ops.push(FdtOp::AddU32 { prop: PROP_INTERRUPT_PARENT, value: PHANDLE_PLIC });
    }
    if platform.aia {
        ops.push(
            FdtOp::AddU32Pair { prop: PROP_INTERRUPTS, first: irq_id, second: IRQ_LEVEL_HIGH },
        );
        ops.push(FdtOp::AddU32 { prop: PROP_INTERRUPT_PARENT, value: PHANDLE_AIA });
    }
    assert(ops@ =~= old(ops)@ + interrupt_ops(*platform, irq_id));
}

/// Adds a virtio device on RISC-V.
pub fn fdt_add_virtio_riscv64(
    platform: &Platform,
    ops: &mut Vec<FdtOp>,
    device: usize,
    irq_id: u32,
    base_ipa: u64,
    length: u64,
)
    ensures
        final(ops)@ == old(ops)@ + virtio_riscv64_ops(*platform, device, irq_id, base_ipa, length),
{
    ops.push(FdtOp::CreateNode { parent: NODE_SOC, name: NodeName::Device(device) });
    fdt_add_interrupt(platform, ops, irq_id);
    ops.push(FdtOp::AddReg { base: base_ipa, length });
    ops.push(
        FdtOp::AddString { prop: PROP_COMPATIBLE, text: COMPATIBLE_VIRTIO, checked: false },
    );
    assert(ops@ =~= old(ops)@ + virtio_riscv64_ops(*platform, device, irq_id, base_ipa, length));
}

/// Adds the channel to the hypervisor on RISC-V.
pub fn fdt_add_vm_service_riscv64(
    platform: &Platform,
    ops: &mut Vec<FdtOp>,
    irq_id: u32,
    base_ipa: u64,
    length: u64,
)
    ensures
        final(ops)@ == old(ops)@ + vm_service_riscv64_ops(*platform, irq_id, base_ipa, length),
{
    ops.push(FdtOp::CreateNode { parent: NODE_SOC, name: NodeName::Fixed(NODE_VM_SERVICE) });
    ops.push(FdtOp::AddString { prop: PROP_COMPATIBLE, text: COMPATIBLE_TINYVM, checked: true });
    fdt_add_interrupt(platform, ops, irq_id);
    ops.push(FdtOp::AddReg { base: base_ipa, length });
    assert(ops@ =~= old(ops)@ + vm_service_riscv64_ops(*platform, irq_id, base_ipa, length));
}

/// Adds what an emulated device needs.
fn fdt_add_device(
    platform: &Platform,
    ops: &mut Vec<FdtOp>,
    device: &VmEmulatedDeviceConfig,
    index: usize,
)
    requires
        irq_in_range(*platform, *device),
    ensures
        final(ops)@ == old(ops)@ + device_ops(*platform, *device, index),
{
    let irq: u32 = device.irq_id as u32;
    let base: u64 = device.base_ipa as u64;
    let length: u64 = device.length as u64;
    match device.emu_type {
        EmuDeviceType::EmuDeviceTGicd | EmuDeviceType::EmuDeviceTGPPT => {
            if platform.qemu && !platform.gicv3 {
                ops.push(
                    FdtOp::SetupGic {
                        gicd_base: platform.gicd_base as u64,
                        gicc_base: platform.gicc_base as u64,
                        device: index,
                    },
                );
            }
        },
        EmuDeviceType::EmuDeviceTVirtioNet | EmuDeviceType::EmuDeviceTVirtioConsole => {
            if platform.arm_board() {
                ops.push(FdtOp::AddVirtio { device: index, irq: irq - FIRST_SPI, base });
            } else if platform.arch == Arch::Riscv64 {
                fdt_add_virtio_riscv64(platform, ops, index, irq, base, length);
            }
        },
        EmuDeviceType::EmuDeviceTTinyvm => {
            if platform.arm_board() {
                ops.push(FdtOp::AddVmService { irq: irq - FIRST_SPI, base, length });
            } else if platform.arch == Arch::Riscv64 {
                fdt_add_vm_service_riscv64(platform, ops, irq, base, length);
            }
        },
        _ => {},
    }
    assert(ops@ =~= old(ops)@ + device_ops(*platform, *device, index));
}

/// The memory of a machine, as the tree describes it.
fn memory_regions(regions: &Vec<VmRegion>) -> (r: Vec<FdtRegion>)
    ensures
        r@ == fdt_regions(regions@),
{
    let mut r: Vec<FdtRegion> = Vec::new();
    let n: usize = regions.len();
    let mut i: usize = 0;
    while i < n
        invariant
            i <= n,
            n == regions@.len(),
            r@ == fdt_regions(regions@).take(i as int),
        decreases n - i,
    {
        r.push(
            FdtRegion {
                ipa_start: regions[i].ipa_start as u64,
                length: regions[i].length as u64,
            },
        );
        i = i + 1;
        assert(r@ =~= fdt_regions(regions@).take(i as int));
    }
    assert(r@ =~= fdt_regions(regions@));
    r
}

/// The edit that turns a copy of the system's tree into the tree of the machine
/// with this configuration: its memory, its command line and console, and the
/// emulated devices.
pub fn vmm_setup_fdt(platform: &Platform, config: &VmConfigEntry) -> (r: FdtPlan)
    requires
        irqs_in_range(*platform, *config),
    ensures
        r.memory@ == fdt_regions(config.memory_region@),
        r.cmdline@ == config.cmdline@,
        r.ops@ == fdt_ops(*platform, *config),
{
    let memory: Vec<FdtRegion> = memory_regions(&config.memory_region);
    let mut ops: Vec<FdtOp> = Vec::new();
    if platform.qemu {
        let node = match platform.arch {
            Arch::Aarch64 => MEMORY_QEMU_AARCH64,
            Arch::Riscv64 => MEMORY_QEMU_RISCV64,
        };
        ops.push(FdtOp::SetMemory { node });
    }
    if platform.rk3588 {
        ops.push(FdtOp::SetMemory { node: MEMORY_RK3588 });
    }
    ops.push(FdtOp::SetBootcmd);
    if platform.rk3588 {
        ops.push(FdtOp::SetStdoutPath { path: STDOUT_RK3588 });
    }
    assert(ops@ =~= board_ops(*platform));
    let n: usize = config.emulated_device_list.len();
    let mut i: usize = 0;
    while i < n
        invariant
            i <= n,
            n == config.emulated_device_list@.len(),
            irqs_in_range(*platform, *config),
            ops@ == board_ops(*platform) + emulated_ops(
                *platform,
                config.emulated_device_list@,
                i as int,
            ),
        decreases n - i,
    {
        fdt_add_device(platform, &mut ops, &config.emulated_device_list[i], i);
        i = i + 1;
        assert(ops@ =~= board_ops(*platform) + emulated_ops(
            *platform,
            config.emulated_device_list@,
            i as int,
        ));
    }
    FdtPlan { memory, cmdline: config.cmdline.clone(), ops }
}

/// The text that an operation on the emulated device at this place takes for a
/// name.
pub fn fdt_device_name(config: &VmConfigEntry, device: usize) -> (r: &str)
    requires
        device < config.emulated_device_list@.len(),
    ensures
        r@ == config.emulated_device_list@[device as int].name@,
{
    config.emulated_device_list[device].name.as_str()
}

/// The emulated device that an operation takes the name of, if it takes one.
pub open spec fn named_device(op: FdtOp) -> Option<usize> {
    match op {
        FdtOp::SetupGic { device, .. } => Some(device),
        FdtOp::AddVirtio { device, .. } => Some(device),
        FdtOp::CreateNode { name: NodeName::Device(device), .. } => Some(device),
        _ => None,
    }
}

/// What a device needs takes no name but the device's own.
proof fn device_names_itself(platform: Platform, device: VmEmulatedDeviceConfig, index: usize)
    ensures
        forall|k: int|
            0 <= k < device_ops(platform, device, index).len() ==> match named_device(
                #[trigger] device_ops(platform, device, index)[k],
            ) {
                Some(named) => named == index,
                None => true,
            },
{
}

/// The names that the first `n` devices take are those of the first `n`.
proof fn emulated_names(
    platform: Platform,
    devices: Seq<VmEmulatedDeviceConfig>,
    n: int,
    k: int,
)
    requires
        0 <= n <= devices.len() <= usize::MAX,
        0 <= k < emulated_ops(platform, devices, n).len(),
    ensures
        named_device(emulated_ops(platform, devices, n)[k]) matches Some(device) ==> device < n,
    decreases n,
{
    let before = emulated_ops(platform, devices, n - 1);
    if k < before.len() {
        emulated_names(platform, devices, n - 1, k);
    } else {
        device_names_itself(platform, devices[n - 1], (n - 1) as usize);
        let own = device_ops(platform, devices[n - 1], (n - 1) as usize);
        assert(emulated_ops(platform, devices, n)[k] == own[k - before.len()]);
    }
}

/// An operation of an edit takes its name from a device that the machine has.
pub proof fn named_devices_exist(platform: Platform, config: VmConfigEntry, k: int)
    requires
        config.emulated_device_list@.len() <= usize::MAX,
        0 <= k < fdt_ops(platform, config).len(),
    ensures
        named_device(fdt_ops(platform, config)[k]) matches Some(device) ==> device
            < config.emulated_device_list@.len(),
{
    let board = board_ops(platform);
    let devices = config.emulated_device_list@;
    if k >= board.len() {
        emulated_names(platform, devices, devices.len() as int, k - board.len());
    }
}

/// How to go on with an edit.
#[derive(Clone, Copy, PartialEq, Eq, Structural, Debug)]
pub enum FdtStep {
    /// Carry out the operation at this place; a property goes to `node`.
    Perform { index: usize, node: i32 },
    /// The edit is over.
    Finish,
    /// Stop with an error: this is the code of the operation that failed.
    Halt { code: i32 },
}

/// Whether an operation gives a code, and failing matters.
pub open spec fn is_checked(op: FdtOp) -> bool {
    match op {
        FdtOp::CreateNode { .. } => true,
        FdtOp::AddU32 { .. } => true,
        FdtOp::AddU32Pair { .. } => true,
        FdtOp::AddReg { .. } => true,
        FdtOp::AddString { checked, .. } => checked,
        _ => false,
    }
}

/// The step at place `index`.
pub open spec fn edit_at(ops: Seq<FdtOp>, index: int, node: i32) -> FdtStep {
    if index < ops.len() {
        FdtStep::Perform { index: index as usize, node }
    } else {
        FdtStep::Finish
    }
}

/// The step that follows `last`, which ended with `code`.
pub open spec fn edit_after(ops: Seq<FdtOp>, last: FdtStep, code: i32) -> FdtStep {
    match last {
        FdtStep::Perform { index, node } => if is_checked(ops[index as int]) && code < 0 {
            FdtStep::Halt { code }
        } else if ops[index as int] is CreateNode {
            edit_at(ops, index + 1, code)
        } else {
            edit_at(ops, index + 1, node)
        },
        _ => last,
    }
}

/// Begins an edit.
pub fn fdt_begin(ops: &Vec<FdtOp>) -> (r: FdtStep)
    ensures
        r == edit_at(ops@, 0, 0),
{
    if ops.len() == 0 {
        FdtStep::Finish
    } else {
        FdtStep::Perform { index: 0, node: 0 }
    }
}

/// The step that follows `last`. An operation that gives no code is reported
/// with any.
pub fn fdt_next(ops: &Vec<FdtOp>, last: FdtStep, code: i32) -> (r: FdtStep)
    requires
        last matches FdtStep::Perform { index, .. } ==> index < ops@.len(),
    ensures
        r == edit_after(ops@, last, code),
{
    let n: usize = ops.len();
    match last {
        FdtStep::Perform { index, node } => {
            let (checked, creates): (bool, bool) = match ops[index] {
                FdtOp::CreateNode { .. } => (true, true),
                FdtOp::AddU32 { .. } => (true, false),
                FdtOp::AddU32Pair { .. } => (true, false),
                FdtOp::AddReg { .. } => (true, false),
                FdtOp::AddString { checked, .. } => (checked, false),
                _ => (false, false),
            };
            if checked && code < 0 {
                return FdtStep::Halt { code };
            }
            let node: i32 = if creates {
                code
            } else {
                node
            };
            if index + 1 < n {
                FdtStep::Perform { index: index + 1, node }
            } else {
                FdtStep::Finish
            }
        },
        _ => last,
    }
}

/// Where an edit stands after the codes so far.
pub open spec fn edit_run(ops: Seq<FdtOp>, codes: Seq<i32>) -> FdtStep
    decreases codes.len(),
{
    if codes.len() == 0 {
        edit_at(ops, 0, 0)
    } else {
        edit_after(ops, edit_run(ops, codes.drop_last()), codes.last())
    }
}

/// Whether an operation adds a property.
pub open spec fn is_property(op: FdtOp) -> bool {
    match op {
        FdtOp::AddU32 { .. } => true,
        FdtOp::AddU32Pair { .. } => true,
        FdtOp::AddReg { .. } => true,
        FdtOp::AddString { .. } => true,
        _ => false,
    }
}

/// A property comes right after the creation of a node or another property.
pub open spec fn properties_placed(ops: Seq<FdtOp>) -> bool {
    forall|i: int|
        0 <= i < ops.len() && is_property(#[trigger] ops[i]) ==> 0 < i && (ops[i - 1] is CreateNode
            || is_property(ops[i - 1]))
}

/// Two edits that place their properties can be joined.
proof fn placement_of_concatenation(a: Seq<FdtOp>, b: Seq<FdtOp>)
    requires
        properties_placed(a),
        properties_placed(b),
    ensures
        properties_placed(a + b),
{
    let ops = a + b;
    assert forall|i: int| 0 <= i < ops.len() && is_property(#[trigger] ops[i]) implies 0 < i && (
    ops[i - 1] is CreateNode || is_property(ops[i - 1])) by {
        if i < a.len() {
            assert(ops[i] == a[i]);
        } else {
            assert(ops[i] == b[i - a.len()]);
        }
    }
}

/// The emulated devices place their properties.
proof fn placement_of_devices(platform: Platform, devices: Seq<VmEmulatedDeviceConfig>, n: int)
    requires
        0 <= n <= devices.len(),
    ensures
        properties_placed(emulated_ops(platform, devices, n)),
    decreases n,
{
    if n > 0 {
        placement_of_devices(platform, devices, n - 1);
        let ops = device_ops(platform, devices[n - 1], (n - 1) as usize);
        placement_of_concatenation(emulated_ops(platform, devices, n - 1), ops);
    }
}

/// In an edit, every property comes after the creation of the node it belongs
/// to, with nothing but properties in between.
pub proof fn properties_follow_their_node(platform: Platform, config: VmConfigEntry)
    ensures
        properties_placed(fdt_ops(platform, config)),
{
    let devices = config.emulated_device_list@;
    placement_of_devices(platform, devices, devices.len() as int);
    placement_of_concatenation(
        board_ops(platform),
        emulated_ops(platform, devices, devices.len() as int),
    );
}

/// No operation that matters has failed so far.
pub open spec fn no_failure(ops: Seq<FdtOp>, codes: Seq<i32>) -> bool {
    forall|i: int|
        0 <= i < codes.len() && i < ops.len() && is_checked(#[trigger] ops[i]) ==> codes[i] >= 0
}

/// The handle of the node created last.
pub open spec fn current_node(ops: Seq<FdtOp>, codes: Seq<i32>) -> i32
    decreases codes.len(),
{
    if codes.len() == 0 {
        0
    } else if ops[codes.len() - 1] is CreateNode {
        codes.last()
    } else {
        current_node(ops, codes.drop_last())
    }
}

/// As long as nothing that matters fails, the operations are carried out one
/// by one, until all of them have been; each gets the handle of the node
/// created last.
pub proof fn edit_goes_on(ops: Seq<FdtOp>, codes: Seq<i32>)
    requires
        ops.len() <= usize::MAX,
        codes.len() <= ops.len(),
        no_failure(ops, codes),
    ensures
        edit_run(ops, codes) == edit_at(ops, codes.len() as int, current_node(ops, codes)),
    decreases codes.len(),
{
    if codes.len() > 0 {
        let front = codes.drop_last();
        assert forall|i: int|
            0 <= i < front.len() && i < ops.len() && is_checked(#[trigger] ops[i]) implies front[i]
            >= 0 by {
            assert(codes[i] == front[i]);
        }
        edit_goes_on(ops, front);
    }
}

/// An operation that matters and fails ends the edit with its code; nothing is
/// carried out after it.
pub proof fn failure_ends_the_edit(ops: Seq<FdtOp>, codes: Seq<i32>, first: int)
    requires
        ops.len() <= usize::MAX,
        0 <= first < codes.len(),
        first < ops.len(),
        is_checked(ops[first]),
        codes[first] < 0,
        no_failure(ops, codes.take(first)),
    ensures
        edit_run(ops, codes) == (FdtStep::Halt { code: codes[first] }),
    decreases codes.len(),
{
    let front = codes.drop_last();
    if first == codes.len() - 1 {
        assert(front =~= codes.take(first));
        edit_goes_on(ops, front);
    } else {
        assert(front.take(first) =~= codes.take(first));
        failure_ends_the_edit(ops, front, first);
    }
}

/// Every property of an edit goes to the node that was created for it: the last
/// one created, with nothing but properties in between.
pub proof fn property_goes_to_its_node(ops: Seq<FdtOp>, codes: Seq<i32>) -> (creation: int)
    requires
        ops.len() <= usize::MAX,
        codes.len() < ops.len(),
        properties_placed(ops),
        no_failure(ops, codes),
        is_property(ops[codes.len() as int]),
    ensures
        0 <= creation < codes.len(),
        ops[creation] is CreateNode,
        forall|i: int| creation < i < codes.len() ==> is_property(#[trigger] ops[i]),
        edit_run(ops, codes) == (FdtStep::Perform {
            index: codes.len() as usize,
            node: codes[creation],
        }),
    decreases codes.len(),
{
    edit_goes_on(ops, codes);
    let k: int = codes.len() as int;
    assert(is_property(ops[k]));
    assert(0 < k);
    if ops[k - 1] is CreateNode {
        k - 1
    } else {
        let front = codes.drop_last();
        assert forall|i: int|
            0 <= i < front.len() && i < ops.len() && is_checked(#[trigger] ops[i]) implies front[i]
            >= 0 by {
            assert(codes[i] == front[i]);
        }
        let creation = property_goes_to_its_node(ops, front);
        edit_goes_on(ops, front);
        creation
    }
}

/// On an AArch64 board the tree names a device's interrupt by its distance from
/// the first shared one.
pub proof fn tree_names_the_interrupt(
    platform: Platform,
    device: VmEmulatedDeviceConfig,
    index: usize,
)
    requires
        platform.spec_arm_board(),
        irq_in_range(platform, device),
        device.irq_id <= u32::MAX,
    ensures
        device_ops(platform, device, index).len() <= 1,
        forall|op: FdtOp|
            #[trigger] device_ops(platform, device, index).contains(op) ==> match op {
                FdtOp::AddVirtio { irq, .. } => irq + FIRST_SPI == device.irq_id,
                FdtOp::AddVmService { irq, .. } => irq + FIRST_SPI == device.irq_id,
                FdtOp::SetupGic { .. } => true,
                _ => false,
            },
{
}

/// A 32-bit number in the byte order of device trees.
pub open spec fn be_u32(data: Seq<u8>, at: int) -> int {
    data[at] * 0x100_0000 + data[at + 1] * 0x1_0000 + data[at + 2] * 0x100 + data[at + 3]
}

/// Size of the header of a tree.
pub const FDT_HEADER_SIZE: usize = 40;

/// Number that every tree starts with.
pub const FDT_MAGIC: u32 = 0xd00dfeed;

/// Why bytes are not a tree.
#[derive(Clone, Copy, PartialEq, Eq, Structural, Debug)]
pub enum TreeFault {
    /// They do not start like one.
    BadMagic,
    /// There are none.
    BadPtr,
    /// There are fewer than a header has, or than the header says.
    BufferTooSmall,
}

/// Whether bytes start with the header of a tree that ends before they do.
pub open spec fn tree_header(data: Seq<u8>) -> Result<(), TreeFault> {
    if data.len() < FDT_HEADER_SIZE {
        Err(TreeFault::BufferTooSmall)
    } else if be_u32(data, 0) != FDT_MAGIC {
        Err(TreeFault::BadMagic)
    } else if data.len() < be_u32(data, 4) {
        Err(TreeFault::BufferTooSmall)
    } else {
        Ok(())
    }
}

/// [`fdt::Fdt::new`]: bytes are taken for a tree if there are enough for a
/// header, which starts with the magic number and then gives a total size that
/// is there. Nothing behind the header is looked at.
#[verifier::external_body]
fn parse_tree(data: &[u8]) -> (r: Result<(), TreeFault>)
    ensures
        r == tree_header(data@),
{
    match fdt::Fdt::new(data) {
        Ok(_) => Ok(()),
        Err(fdt::FdtError::BadMagic) => Err(TreeFault::BadMagic),
        Err(fdt::FdtError::BadPtr) => Err(TreeFault::BadPtr),
        Err(fdt::FdtError::BufferTooSmall) => Err(TreeFault::BufferTooSmall),
    }
}

/// Whether bytes are taken for a tree.
pub fn check_tree(data: &[u8]) -> (r: Result<(), TreeFault>)
    ensures
        r == tree_header(data@),
{
    parse_tree(data)
}

/// Why an edit does not give a tree.
#[derive(Clone, Copy, PartialEq, Eq, Structural, Debug)]
pub enum EditFault {
    /// There are operations left.
    Unfinished,
    /// An operation failed with this code.
    Failed(i32),
    /// What came out is no tree.
    NoTree(TreeFault),
}

/// What comes of an edit that stands at `step` and has left these bytes.
pub open spec fn edit_result(step: FdtStep, data: Seq<u8>) -> Result<(), EditFault> {
    match step {
        FdtStep::Perform { .. } => Err(EditFault::Unfinished),
        FdtStep::Halt { code } => Err(EditFault::Failed(code)),
        FdtStep::Finish => match tree_header(data) {
            Ok(_) => Ok(()),
            Err(fault) => Err(EditFault::NoTree(fault)),
        },
    }
}

/// The last step of an edit: `data` is all of the edited tree. A machine is
/// not started unless the edit is over and has left a tree.
pub fn fdt_finish(step: FdtStep, data: &[u8]) -> (r: Result<(), EditFault>)
    ensures
        r == edit_result(step, data@),
        r.is_ok() <==> step == FdtStep::Finish && tree_header(data@).is_ok(),
{
    match step {
        FdtStep::Perform { .. } => Err(EditFault::Unfinished),
        FdtStep::Halt { code } => Err(EditFault::Failed(code)),
        FdtStep::Finish => match check_tree(data) {
            Ok(_) => Ok(()),
            Err(fault) => Err(EditFault::NoTree(fault)),
        },
    }
}

/// If an operation that matters has failed, the edit has ended with an error.
proof fn failure_halts(ops: Seq<FdtOp>, codes: Seq<i32>)
    requires
        ops.len() <= usize::MAX,
        codes.len() <= ops.len(),
        !no_failure(ops, codes),
    ensures
        edit_run(ops, codes) is Halt,
    decreases codes.len(),
{
    let front = codes.drop_last();
    if no_failure(ops, front) {
        edit_goes_on(ops, front);
        let i = choose|i: int|
            0 <= i < codes.len() && i < ops.len() && is_checked(#[trigger] ops[i]) && codes[i] < 0;
        if i < front.len() {
            assert(front[i] == codes[i]);
        }
    } else {
        failure_halts(ops, front);
    }
}

/// An edit gives a tree exactly if no operation that matters fails and the
/// bytes it leaves are taken for a tree.
pub proof fn edit_gives_a_tree(ops: Seq<FdtOp>, codes: Seq<i32>, data: Seq<u8>)
    requires
        ops.len() <= usize::MAX,
        codes.len() == ops.len(),
    ensures
        edit_result(edit_run(ops, codes), data).is_ok() <==> no_failure(ops, codes)
            && tree_header(data).is_ok(),
{
    if no_failure(ops, codes) {
        edit_goes_on(ops, codes);
    } else {
        failure_halts(ops, codes);
    }
}

/// A step of applying an overlay to a tree.
#[derive(Clone, Copy, PartialEq, Eq, Structural, Debug)]
pub enum OverlayOp {
    /// Read the tree.
    ParseBase,
    /// Copy it to a buffer of this many bytes.
    Allocate { capacity: usize },
    /// Read the overlay.
    ParseOverlay,
    /// Apply the overlay to the copy.
    Apply,
    /// Give back the space that was not needed.
    Pack,
}

/// Whether the room for a tree with an overlay can be counted, so that
/// [`overlay_fdt`] may be called.
pub fn overlay_fits(dtb_len: usize, overlay_len: usize) -> (r: bool)
    ensures
        r == ((dtb_len + overlay_len) * 2 <= usize::MAX),
{
    match dtb_len.checked_add(overlay_len) {
        Some(sum) => sum <= usize::MAX / 2,
        None => false,
    }
}

/// The steps of applying an overlay to a tree, in a buffer twice as large as
/// both together. The tree itself stays as it is.
pub fn overlay_fdt(dtb_len: usize, overlay_len: usize) -> (r: Vec<OverlayOp>)
    requires
        (dtb_len + overlay_len) * 2 <= usize::MAX,
    ensures
        r@ == seq![
            OverlayOp::ParseBase,
            OverlayOp::Allocate { capacity: ((dtb_len + overlay_len) * 2) as usize },
            OverlayOp::ParseOverlay,
            OverlayOp::Apply,
            OverlayOp::Pack,
        ],
{
    let capacity: usize = (dtb_len + overlay_len) * 2;
    let r = vec![
        OverlayOp::ParseBase,
        OverlayOp::Allocate { capacity },
        OverlayOp::ParseOverlay,
        OverlayOp::Apply,
        OverlayOp::Pack,
    ];
    assert(r@ =~= seq![
        OverlayOp::ParseBase,
        OverlayOp::Allocate { capacity },
        OverlayOp::ParseOverlay,
        OverlayOp::Apply,
        OverlayOp::Pack,
    ]);
    r
}

/// How to go on with an overlay. `E` is the error of a step.
#[derive(Clone, Copy, PartialEq, Eq, Debug)]
pub enum OverlayStep<E> {
    /// Carry out the step at this place.
    Perform(usize),
    /// All steps have succeeded: the buffer holds the tree with the overlay.
    Finish,
    /// The step at this place failed with this error, which is the error of the
    /// whole.
    Fail { at: usize, error: E },
}

/// Where an overlay of `count` steps stands once `done` of them have succeeded.
pub open spec fn overlay_at<E>(count: nat, done: nat) -> OverlayStep<E> {
    if done < count {
        OverlayStep::Perform(done as usize)
    } else {
        OverlayStep::Finish
    }
}

/// Where an overlay stands once the step at `current` has succeeded or failed.
pub open spec fn overlay_after<E>(
    count: nat,
    current: usize,
    outcome: Result<(), E>,
) -> OverlayStep<E> {
    match outcome {
        Ok(_) => overlay_at(count, (current + 1) as nat),
        Err(error) => OverlayStep::Fail { at: current, error },
    }
}

/// Begins an overlay.
pub fn overlay_begin<E>(ops: &Vec<OverlayOp>) -> (r: OverlayStep<E>)
    ensures
        r == overlay_at::<E>(ops@.len(), 0),
{
    if ops.len() == 0 {
        OverlayStep::Finish
    } else {
        OverlayStep::Perform(0)
    }
}

/// Goes on after the step at `current`.
pub fn overlay_next<E>(
    ops: &Vec<OverlayOp>,
    current: usize,
    outcome: Result<(), E>,
) -> (r: OverlayStep<E>)
    requires
        current < ops@.len(),
    ensures
        r == overlay_after(ops@.len(), current, outcome),
{
    let n: usize = ops.len();
    match outcome {
        Ok(_) => {
            if current + 1 < n {
                OverlayStep::Perform(current + 1)
            } else {
                OverlayStep::Finish
            }
        },
        Err(error) => OverlayStep::Fail { at: current, error },
    }
}

/// Where an overlay stands after the outcomes so far.
pub open spec fn overlay_run<E>(count: nat, outcomes: Seq<Result<(), E>>) -> OverlayStep<E>
    decreases outcomes.len(),
{
    if outcomes.len() == 0 {
        overlay_at(count, 0)
    } else {
        match overlay_run(count, outcomes.drop_last()) {
            OverlayStep::Perform(current) => overlay_after(count, current, outcomes.last()),
            step => step,
        }
    }
}

/// As long as every step succeeds they are carried out one by one, and after
/// the last of them the overlay is applied.
pub proof fn overlay_goes_on<E>(count: nat, outcomes: Seq<Result<(), E>>)
    requires
        count <= usize::MAX,
        outcomes.len() <= count,
        forall|i: int| 0 <= i < outcomes.len() ==> (#[trigger] outcomes[i]).is_ok(),
    ensures
        overlay_run(count, outcomes) == overlay_at::<E>(count, outcomes.len()),
    decreases outcomes.len(),
{
    if outcomes.len() > 0 {
        overlay_goes_on(count, outcomes.drop_last());
    }
}

/// The result of an overlay that fails is the error of the first step that
/// fails, and nothing is carried out after that step.
pub proof fn overlay_gives_the_first_error<E>(
    count: nat,
    outcomes: Seq<Result<(), E>>,
    first: int,
    error: E,
)
    requires
        count <= usize::MAX,
        0 <= first < outcomes.len(),
        first < count,
        outcomes[first] == Err::<(), E>(error),
        forall|i: int| 0 <= i < first ==> (#[trigger] outcomes[i]).is_ok(),
    ensures
        overlay_run(count, outcomes) == (OverlayStep::Fail { at: first as usize, error }),
    decreases outcomes.len(),
{
    if first == outcomes.len() - 1 {
        overlay_goes_on(count, outcomes.drop_last());
    } else {
        overlay_gives_the_first_error(count, outcomes.drop_last(), first, error);
    }
}

/// What a device needs on an AArch64 board. A virtio device and the channel to
/// the hypervisor each have exactly one node, at the device's address, with the
/// device's interrupt counted from the first shared one.
pub proof fn arm_device_is_described(
    platform: Platform,
    device: VmEmulatedDeviceConfig,
    index: usize,
)
    requires
        platform.qemu || platform.rk3588,
        platform.arch == Arch::Aarch64,
        device.irq_id as u32 >= 0x20,
    ensures
        ({
            let ops = device_ops(platform, device, index);
            match device.emu_type {
                EmuDeviceType::EmuDeviceTVirtioNet | EmuDeviceType::EmuDeviceTVirtioConsole => {
                    &&& ops.len() == 1
                    &&& ops[0] matches FdtOp::AddVirtio { device: named, irq, base }
                    &&& named == index
                    &&& irq + 0x20 == device.irq_id as u32
                    &&& base == device.base_ipa as u64
                },
                EmuDeviceType::EmuDeviceTTinyvm => {
                    &&& ops.len() == 1
                    &&& ops[0] matches FdtOp::AddVmService { irq, base, length }
                    &&& irq + 0x20 == device.irq_id as u32
                    &&& base == device.base_ipa as u64
                    &&& length == device.length as u64
                },
                _ => true,
            }
        }),
{
}

/// What a device needs on RISC-V. A virtio device and the channel to the
/// hypervisor each have a node below `/soc`, connected to every interrupt
/// controller the image is built for, at the device's address.
pub proof fn riscv_device_is_described(
    platform: Platform,
    device: VmEmulatedDeviceConfig,
    index: usize,
)
    requires
        platform.arch == Arch::Riscv64,
    ensures
        ({
            let irq = device.irq_id as u32;
            let plic = if platform.plic {
                seq![
                    FdtOp::AddU32 { prop: "interrupts\0", value: irq },
                    FdtOp::AddU32 { prop: "interrupt-parent\0", value: 9 },
                ]
            } else {
                seq![]
            };
            let aia = if platform.aia {
                seq![
                    FdtOp::AddU32Pair { prop: "interrupts\0", first: irq, second: 4 },
                    FdtOp::AddU32 { prop: "interrupt-parent\0", value: 12 },
                ]
            } else {
                seq![]
            };
            let reg = FdtOp::AddReg {
                base: device.base_ipa as u64,
                length: device.length as u64,
            };
            match device.emu_type {
                EmuDeviceType::EmuDeviceTVirtioNet | EmuDeviceType::EmuDeviceTVirtioConsole => {
                    device_ops(platform, device, index) == seq![
                        FdtOp::CreateNode { parent: "/soc\0", name: NodeName::Device(index) },
                    ] + (plic + aia) + seq![
                        reg,
                        FdtOp::AddString {
                            prop: "compatible\0",
                            text: "virtio,mmio\0",
                            checked: false,
                        },
                    ]
                },
                EmuDeviceType::EmuDeviceTTinyvm => device_ops(platform, device, index) == seq![
                    FdtOp::CreateNode { parent: "/soc\0", name: NodeName::Fixed("vm_service\0") },
                    FdtOp::AddString { prop: "compatible\0", text: "tinyvm\0", checked: true },
                ] + (plic + aia) + seq![reg],
                _ => true,
            }
        }),
{
}

/// The interrupt controller is described on QEMU unless it is a GICv3; no other
/// device, and no device on any other board, needs anything.
pub proof fn other_devices_need_no_node(
    platform: Platform,
    device: VmEmulatedDeviceConfig,
    index: usize,
)
    ensures
        ({
            let ops = device_ops(platform, device, index);
            match device.emu_type {
                EmuDeviceType::EmuDeviceTGicd | EmuDeviceType::EmuDeviceTGPPT => {
                    &&& platform.qemu && !platform.gicv3 ==> ops == seq![
                        FdtOp::SetupGic {
                            gicd_base: platform.gicd_base as u64,
                            gicc_base: platform.gicc_base as u64,
                            device: index,
                        },
                    ]
                    &&& !platform.qemu || platform.gicv3 ==> ops.len() == 0
                },
                EmuDeviceType::EmuDeviceTIOMMU | EmuDeviceType::EmuDeviceTOther => ops.len() == 0,
                _ => platform.arch == Arch::Aarch64 && !platform.qemu && !platform.rk3588
                    ==> ops.len() == 0,
            }
        }),
{
}

/// The devices before `n` decide what the first `n` devices need.
proof fn emulated_ops_of_a_prefix(
    platform: Platform,
    a: Seq<VmEmulatedDeviceConfig>,
    b: Seq<VmEmulatedDeviceConfig>,
    n: int,
)
    requires
        0 <= n <= a.len(),
        n <= b.len(),
        forall|i: int| 0 <= i < n ==> a[i] == b[i],
    ensures
        emulated_ops(platform, a, n) == emulated_ops(platform, b, n),
    decreases n,
{
    if n > 0 {
        emulated_ops_of_a_prefix(platform, a, b, n - 1);
    }
}

/// A machine with one more emulated device has the same edit, and after it what
/// the new device needs.
pub proof fn one_more_device_adds_its_operations(
    platform: Platform,
    fewer: VmConfigEntry,
    more: VmConfigEntry,
    device: VmEmulatedDeviceConfig,
)
    requires
        more.emulated_device_list@ == fewer.emulated_device_list@.push(device),
    ensures
        fdt_ops(platform, more) == fdt_ops(platform, fewer) + device_ops(
            platform,
            device,
            fewer.emulated_device_list@.len() as usize,
        ),
{
    let a = fewer.emulated_device_list@;
    let b = more.emulated_device_list@;
    emulated_ops_of_a_prefix(platform, a, b, a.len() as int);
    assert(b[a.len() as int] == device);
    assert(emulated_ops(platform, b, b.len() as int) == emulated_ops(platform, a, a.len() as int)
        + device_ops(platform, device, a.len() as usize));
    assert(fdt_ops(platform, more) =~= fdt_ops(platform, fewer) + device_ops(
        platform,
        device,
        a.len() as usize,
    ));
}

/// Without emulated devices an edit describes the memory once for each board
/// that the image is built for, sets the command line once, and on the RK3588
/// the console.
pub proof fn edit_without_devices(platform: Platform, config: VmConfigEntry)
    requires
        config.emulated_device_list@.len() == 0,
    ensures
        ({
            let qemu = if !platform.qemu {
                seq![]
            } else if platform.arch == Arch::Aarch64 {
                seq![FdtOp::SetMemory { node: "memory@50000000\0" }]
            } else {
                seq![FdtOp::SetMemory { node: "memory@90000000\0" }]
            };
            let rest = if platform.rk3588 {
                seq![
                    FdtOp::SetMemory { node: "memory@10000000\0" },
                    FdtOp::SetBootcmd,
                    FdtOp::SetStdoutPath { path: "/serial@feba0000\0" },
                ]
            } else {
                seq![FdtOp::SetBootcmd]
            };
            fdt_ops(platform, config) == qemu + rest
        }),
{
    assert(fdt_ops(platform, config) =~= board_ops(platform));
}

/// What the device at place `i` needs stands in what the first `n` devices need.
proof fn device_is_among_the_emulated(
    platform: Platform,
    devices: Seq<VmEmulatedDeviceConfig>,
    n: int,
    i: int,
) -> (at: int)
    requires
        0 <= i < n <= devices.len(),
    ensures
        0 <= at,
        at + device_ops(platform, devices[i], i as usize).len() <= emulated_ops(
            platform,
            devices,
            n,
        ).len(),
        forall|k: int|
            0 <= k < device_ops(platform, devices[i], i as usize).len()
                ==> #[trigger] device_ops(platform, devices[i], i as usize)[k] == emulated_ops(
                platform,
                devices,
                n,
            )[at + k],
    decreases n,
{
    let before = emulated_ops(platform, devices, n - 1);
    if i == n - 1 {
        before.len() as int
    } else {
        device_is_among_the_emulated(platform, devices, n - 1, i)
    }
}

/// On an AArch64 board the guest finds every virtio device and every channel to
/// the hypervisor that it is configured with: the edit has a node for each, at
/// its address and with its interrupt.
pub proof fn every_arm_device_is_in_the_tree(
    platform: Platform,
    config: VmConfigEntry,
    i: int,
) -> (at: int)
    requires
        platform.qemu || platform.rk3588,
        platform.arch == Arch::Aarch64,
        0 <= i < config.emulated_device_list@.len() <= usize::MAX,
        0x20 <= config.emulated_device_list@[i].irq_id <= u32::MAX,
        config.emulated_device_list@[i].emu_type == EmuDeviceType::EmuDeviceTVirtioNet
            || config.emulated_device_list@[i].emu_type == EmuDeviceType::EmuDeviceTVirtioConsole
            || config.emulated_device_list@[i].emu_type == EmuDeviceType::EmuDeviceTTinyvm,
    ensures
        0 <= at < fdt_ops(platform, config).len(),
        ({
            let device = config.emulated_device_list@[i];
            if device.emu_type == EmuDeviceType::EmuDeviceTTinyvm {
                &&& fdt_ops(platform, config)[at] matches FdtOp::AddVmService { irq, base, length }
                &&& irq + 0x20 == device.irq_id
                &&& base == device.base_ipa
                &&& length == device.length
            } else {
                &&& fdt_ops(platform, config)[at] matches FdtOp::AddVirtio {
                    device: named,
                    irq,
                    base,
                }
                &&& named == i
                &&& irq + 0x20 == device.irq_id
                &&& base == device.base_ipa
            }
        }),
{
    let devices = config.emulated_device_list@;
    let n: int = devices.len() as int;
    arm_device_is_described(platform, devices[i], i as usize);
    let at = device_is_among_the_emulated(platform, devices, n, i);
    let op = device_ops(platform, devices[i], i as usize)[0];
    assert(op == emulated_ops(platform, devices, n)[at]);
    board_ops(platform).len() + at
}

/// On RISC-V the guest finds every virtio device and every channel to the
/// hypervisor: the edit creates a node for each, and says where it is.
pub proof fn every_riscv_device_is_in_the_tree(
    platform: Platform,
    config: VmConfigEntry,
    i: int,
) -> (r: (int, int))
    requires
        platform.arch == Arch::Riscv64,
        0 <= i < config.emulated_device_list@.len() <= usize::MAX,
        config.emulated_device_list@[i].emu_type == EmuDeviceType::EmuDeviceTVirtioNet
            || config.emulated_device_list@[i].emu_type == EmuDeviceType::EmuDeviceTVirtioConsole
            || config.emulated_device_list@[i].emu_type == EmuDeviceType::EmuDeviceTTinyvm,
    ensures
        0 <= r.0 < r.1 < fdt_ops(platform, config).len(),
        ({
            let device = config.emulated_device_list@[i];
            let ops = fdt_ops(platform, config);
            &&& ops[r.0] == (FdtOp::CreateNode {
                parent: "/soc\0",
                name: if device.emu_type == EmuDeviceType::EmuDeviceTTinyvm {
                    NodeName::Fixed("vm_service\0")
                } else {
                    NodeName::Device(i as usize)
                },
            })
            &&& ops[r.1] matches FdtOp::AddReg { base, length }
            &&& base == device.base_ipa
            &&& length == device.length
            &&& forall|k: int| r.0 < k <= r.1 ==> is_property(#[trigger] ops[k])
        }),
{
    let devices = config.emulated_device_list@;
    let n: int = devices.len() as int;
    let own = device_ops(platform, devices[i], i as usize);
    let at = device_is_among_the_emulated(platform, devices, n, i);
    let start: int = board_ops(platform).len() + at;
    let ops = fdt_ops(platform, config);
    assert forall|k: int| 0 <= k < own.len() implies #[trigger] own[k] == ops[start + k] by {
        assert(own[k] == emulated_ops(platform, devices, n)[at + k]);
    }
    let reg: int = if devices[i].emu_type == EmuDeviceType::EmuDeviceTTinyvm {
        own.len() - 1
    } else {
        own.len() - 2
    };
    assert(own[0] == ops[start]);
    assert(own[reg] == ops[start + reg]);
    assert forall|k: int| start < k <= start + reg implies is_property(#[trigger] ops[k]) by {
        assert(own[k - start] == ops[start + (k - start)]);
        assert(is_property(own[k - start]));
    }
    (start, start + reg)
}

/// The tree describes each range of the machine's memory, whole and in order.
pub proof fn every_range_of_memory_is_described(regions: Seq<VmRegion>, i: int)
    requires
        0 <= i < regions.len(),
    ensures
        fdt_regions(regions).len() == regions.len(),
        fdt_regions(regions)[i].ipa_start == regions[i].ipa_start,
        fdt_regions(regions)[i].length == regions[i].length,
{
}

/// An edit can be made exactly if on an AArch64 board no virtio device and no
/// channel to the hypervisor has an interrupt below the first shared one.
pub proof fn only_low_interrupts_prevent_an_edit(platform: Platform, config: VmConfigEntry)
    ensures
        irqs_in_range(platform, config) <==> forall|i: int|
            0 <= i < config.emulated_device_list@.len() && (platform.qemu || platform.rk3588)
                && platform.arch == Arch::Aarch64 && (config.emulated_device_list@[i].emu_type
                == EmuDeviceType::EmuDeviceTVirtioNet || config.emulated_device_list@[i].emu_type
                == EmuDeviceType::EmuDeviceTVirtioConsole
                || config.emulated_device_list@[i].emu_type == EmuDeviceType::EmuDeviceTTinyvm) ==> (
            #[trigger] config.emulated_device_list@[i]).irq_id as u32 >= 0x20,
{
    let devices = config.emulated_device_list@;
    assert forall|i: int| 0 <= i < devices.len() implies (irq_in_range(
        platform,
        #[trigger] devices[i],
    ) <==> ((platform.qemu || platform.rk3588) && platform.arch == Arch::Aarch64 && (
    devices[i].emu_type == EmuDeviceType::EmuDeviceTVirtioNet || devices[i].emu_type
        == EmuDeviceType::EmuDeviceTVirtioConsole || devices[i].emu_type
        == EmuDeviceType::EmuDeviceTTinyvm) ==> devices[i].irq_id as u32 >= 0x20)) by {}
}

/// One step of an edit. An edit begins with its first operation. A failing
/// creation, and a failing property other than a text that does not matter,
/// ends it with the code; after anything else comes the next operation, with
/// the handle of a node that was just created or else the one before.
pub proof fn each_code_leads_on(ops: Seq<FdtOp>, index: usize, node: i32, code: i32)
    requires
        index < ops.len() <= usize::MAX,
    ensures
        edit_at(ops, 0, 0) == (FdtStep::Perform { index: 0, node: 0 }),
        ({
            let next = edit_after(ops, FdtStep::Perform { index, node }, code);
            let op = ops[index as int];
            let matters = match op {
                FdtOp::CreateNode { .. } => true,
                FdtOp::AddU32 { .. } => true,
                FdtOp::AddU32Pair { .. } => true,
                FdtOp::AddReg { .. } => true,
                FdtOp::AddString { checked, .. } => checked,
                _ => false,
            };
            if matters && code < 0 {
                next == (FdtStep::Halt { code })
            } else if index + 1 == ops.len() {
                next == FdtStep::Finish
            } else {
                &&& next matches FdtStep::Perform { index: i, node: n }
                &&& i == index + 1
                &&& op is CreateNode ==> n == code
                &&& !(op is CreateNode) ==> n == node
            }
        }),
        edit_after(ops, FdtStep::Finish, code) == FdtStep::Finish,
        edit_after(ops, FdtStep::Halt { code: node }, code) == (FdtStep::Halt { code: node }),
{
}

/// Bytes are taken for a tree exactly if there are forty of them or more, the
/// first four are the magic number, and the next four, most significant first,
/// say that no more bytes belong to the tree than there are.
pub proof fn tree_is_told_by_its_header(data: Seq<u8>)
    ensures
        ({
            let magic = data[0] == 0xd0 && data[1] == 0x0d && data[2] == 0xfe && data[3] == 0xed;
            let total = 256 * (256 * (256 * data[4] + data[5]) + data[6]) + data[7];
            &&& tree_header(data) == Ok::<(), TreeFault>(()) <==> data.len() >= 40 && magic
                && data.len() >= total
            &&& tree_header(data) == Err::<(), TreeFault>(TreeFault::BadMagic) <==> data.len() >= 40
                && !magic
        }),
{
}

/// What comes of an edit: a tree, the code of what failed, or an error about
/// the bytes.
pub proof fn result_of_an_edit(step: FdtStep, data: Seq<u8>)
    ensures
        edit_result(step, data).is_ok() <==> step == FdtStep::Finish && tree_header(data).is_ok(),
        step matches FdtStep::Halt { code } ==> edit_result(step, data) == Err::<(), EditFault>(
            EditFault::Failed(code),
        ),
        step is Perform ==> edit_result(step, data) == Err::<(), EditFault>(EditFault::Unfinished),
        step == FdtStep::Finish && tree_header(data).is_err() ==> edit_result(step, data) == Err::<
            (),
            EditFault,
        >(EditFault::NoTree(tree_header(data)->Err_0)),
{
}

/// One step of an overlay: success leads to the next step, or after the last
/// one to the end; an error ends it and is kept with its place.
pub proof fn each_overlay_outcome_leads_on<E>(count: nat, current: usize, error: E)
    requires
        current < count <= usize::MAX,
    ensures
        overlay_at::<E>(count, 0) == OverlayStep::<E>::Perform(0),
        current + 1 < count ==> overlay_after(count, current, Ok::<(), E>(())) == OverlayStep::<
            E,
        >::Perform((current + 1) as usize),
        current + 1 == count ==> overlay_after(count, current, Ok::<(), E>(())) == OverlayStep::<
            E,
        >::Finish,
        overlay_after(count, current, Err::<(), E>(error)) == (OverlayStep::Fail {
            at: current,
            error,
        }),
{
}

} // verus!

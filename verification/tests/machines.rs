use tinyvm::kernel::config::{
    EmuDeviceType, PassthroughRegion, VmConfigEntry, VmEmulatedDeviceConfig, VmImageConfig,
    VmPassthroughDeviceConfig, VmRegion, VmType,
};
use tinyvm::kernel::vm::{PageMapping, S2Attr, Vm, VmPa};
use tinyvm::platform::{Arch, Platform};
use tinyvm::vmm::device_tree::{
    check_tree, fdt_add_vm_service_riscv64, fdt_add_virtio_riscv64, fdt_begin, fdt_device_name,
    fdt_finish, fdt_irqs_in_range, fdt_next, overlay_begin, overlay_fdt, overlay_fits, overlay_next,
    vmm_setup_fdt, EditFault, FdtOp, FdtRegion, FdtStep, NodeName, OverlayOp, OverlayStep,
    TreeFault,
};
use tinyvm::vmm::devices::{
    device_succeeded, vmm_init_iommu_device, vmm_init_passthrough_device, DeviceAction,
};
use tinyvm::vmm::image::{
    image_next, image_placement, vmm_init_image, vmm_load_image, ImageAction, ImageCopy,
    ImageFault, ImageInputs, Tracing,
};
use tinyvm::vmm::memory::{
    memory_region, memory_request, memory_root, MemoryRequest, MemoryStep,
};
use tinyvm::vmm::plan::{plan_begin, plan_next, PlanStep};
use tinyvm::vmm::setup::{setup_next, vmm_setup_config, SetupAction, SetupFault};

fn board(arch: Arch) -> Platform {
    Platform {
        arch,
        qemu: false,
        rk3588: false,
        gicv3: false,
        plic: false,
        aia: false,
        static_config: false,
        secondary_start: false,
        gicd_base: 0x800_0000,
        gicc_base: 0x801_0000,
        vm_num_max: 4,
    }
}

fn region(ipa_start: usize, length: usize) -> VmRegion {
    VmRegion { ipa_start, length }
}

fn machine(id: usize, memory_region: Vec<VmRegion>) -> Vm {
    Vm {
        id,
        config: VmConfigEntry {
            name: String::from("guest"),
            os_type: VmType::VmTOs,
            cmdline: String::from("console=hvc0\0"),
            image: VmImageConfig {
                kernel_img_name: Some(String::from("Linux-5.10")),
                kernel_load_ipa: 0x8008_0000,
                device_tree_load_ipa: 0,
                ramdisk_load_ipa: 0,
            },
            memory_region,
            cpu_num: 1,
            emulated_device_list: vec![],
            passthrough: VmPassthroughDeviceConfig {
                regions: vec![],
                irqs: vec![],
                streams_ids: vec![],
            },
            fdt_overlay: vec![],
        },
        pt_dir: None,
        mem_region_num: 0,
        pa_region: vec![],
        vcpu_list: vec![],
    }
}

/// A machine with one region of memory, at host address 0x5000_0000.
fn backed(id: usize) -> Vm {
    let mut vm = machine(id, vec![region(0x8000_0000, 0x1000_0000)]);
    memory_root(&mut vm, Some(0x4000));
    memory_region(&mut vm, 0, 0x5000_0000);
    vm
}

fn device(emu_type: EmuDeviceType) -> VmEmulatedDeviceConfig {
    VmEmulatedDeviceConfig {
        name: String::from("virtio_mmio@a000000\0"),
        base_ipa: 0xa00_0000,
        length: 0x400,
        irq_id: 0x20 + 0x11,
        emu_type,
    }
}

const OFF: Tracing = Tracing { addresses: false, log: false };
const ADDRESSES: Tracing = Tracing { addresses: true, log: false };
const LOG: Tracing = Tracing { addresses: false, log: true };

fn inputs() -> ImageInputs {
    ImageInputs {
        kernel_size: 0x1000,
        system_fdt_len: Some(0x800),
        ramdisk_len: 0x200,
        trace: ADDRESSES,
    }
}

#[test]
fn root_of_the_page_table() {
    let vm = machine(0, vec![]);
    assert_eq!(
        memory_request(&board(Arch::Aarch64), &vm, MemoryStep::Root),
        MemoryRequest::AllocRootPage
    );
    assert_eq!(
        memory_request(&board(Arch::Riscv64), &vm, MemoryStep::Root),
        MemoryRequest::AllocRootPages { pages: 4, align: 4 }
    );
}

#[test]
fn memory_of_a_machine() {
    let p = board(Arch::Aarch64);
    let mut vm = machine(0, vec![region(0x8000_0000, 0x1000), region(0x1000, 0x2000)]);
    assert_eq!(memory_root(&mut vm, Some(0x4000)), MemoryStep::Region(0));
    assert_eq!(vm.pt_dir, Some(0x4000));
    assert_eq!(vm.mem_region_num, 2);
    assert_eq!(
        memory_request(&p, &vm, MemoryStep::Region(1)),
        MemoryRequest::AllocRegion { length: 0x2000 }
    );
    let (step, mapping) = memory_region(&mut vm, 0, 0x5000_0000);
    assert_eq!(step, MemoryStep::Region(1));
    assert_eq!(
        mapping,
        Some(PageMapping {
            ipa: 0x8000_0000,
            len: 0x1000,
            pa: 0x5000_0000,
            attr: S2Attr::Normal,
            map_block: false,
        })
    );
    let (step, _) = memory_region(&mut vm, 1, 0x6000_0000);
    assert_eq!(step, MemoryStep::Done(true));
    assert_eq!(
        vm.pa_region,
        vec![
            VmPa { pa_start: 0x5000_0000, pa_length: 0x1000, offset: 0x3000_0000 },
            VmPa { pa_start: 0x6000_0000, pa_length: 0x2000, offset: 0x1000 - 0x6000_0000 },
        ]
    );
    assert_eq!(memory_request(&p, &vm, step), MemoryRequest::Finish(true));
    assert_eq!(memory_request(&p, &vm, MemoryStep::Halt), MemoryRequest::Halt);
}

#[test]
fn machine_without_memory_regions() {
    let mut vm = machine(0, vec![]);
    assert_eq!(memory_root(&mut vm, Some(1)), MemoryStep::Done(true));
}

#[test]
fn memory_runs_out() {
    let mut vm = machine(0, vec![region(0x8000_0000, 0x1000), region(0x1000, 0x2000)]);
    assert_eq!(memory_root(&mut vm, None), MemoryStep::Done(false));
    assert_eq!(vm.pt_dir, None);
    memory_root(&mut vm, Some(0x4000));
    memory_region(&mut vm, 0, 0x5000_0000);
    assert_eq!(memory_region(&mut vm, 1, 0), (MemoryStep::Done(false), None));
    assert_eq!(vm.pa_region.len(), 1);
}

#[test]
fn distance_out_of_range() {
    let mut vm = machine(0, vec![region(isize::MAX as usize, 0x1000)]);
    memory_root(&mut vm, Some(0x4000));
    assert_eq!(memory_region(&mut vm, 0, usize::MAX), (MemoryStep::Halt, None));
    assert!(vm.pa_region.is_empty());
}

#[test]
fn host_and_guest_addresses() {
    let vm = backed(0);
    let copy = vmm_load_image(&vm, 0x1000, ADDRESSES);
    assert_eq!(copy, ImageCopy { dst: 0x5008_0000, len: 0x1000 });
    assert_eq!(copy.dst as isize + vm.pa_region[0].offset, 0x8008_0000);
}

#[test]
fn kernel_goes_to_the_first_region_that_holds_it() {
    let mut vm = machine(
        0,
        vec![
            region(0x9000_0000, 0x1000),
            region(0x8008_0000, 0x10),
            region(0x8000_0000, 0x8_1000),
            region(0x8000_0000, 0x100_0000),
        ],
    );
    memory_root(&mut vm, Some(0x4000));
    for i in 0..4 {
        memory_region(&mut vm, i, 0x100_0000 * (i + 1));
    }
    assert_eq!(
        image_placement(&vm, 0x1000, ADDRESSES),
        Ok(ImageCopy { dst: 0x308_0000, len: 0x1000 })
    );
    assert_eq!(
        image_placement(&vm, 0x1001, ADDRESSES),
        Ok(ImageCopy { dst: 0x408_0000, len: 0x1001 })
    );
}

#[test]
fn kernel_that_cannot_be_placed() {
    let vm = backed(0);
    assert_eq!(image_placement(&vm, 0x1000_0000, OFF), Err(ImageFault::NoRegion));
    assert_eq!(image_placement(&vm, usize::MAX, OFF), Err(ImageFault::BadAddress));
    let bare = machine(0, vec![region(0x8000_0000, 0x1000_0000)]);
    assert_eq!(image_placement(&bare, 1, OFF), Err(ImageFault::BadAddress));
    let mut low = machine(0, vec![region(0x8008_0000, 0x1000)]);
    memory_root(&mut low, Some(0x4000));
    memory_region(&mut low, 0, 0xfff);
    assert_eq!(image_placement(&low, 1, ADDRESSES), Err(ImageFault::IllegalAddr(0xfff)));
    assert_eq!(image_placement(&low, 1, OFF), Ok(ImageCopy { dst: 0xfff, len: 1 }));
}

#[test]
fn kernel_shorter_than_its_log_line() {
    let vm = backed(0);
    assert_eq!(image_placement(&vm, 3, LOG), Err(ImageFault::ShortKernel));
    assert_eq!(image_placement(&vm, 3, OFF), Ok(ImageCopy { dst: 0x5008_0000, len: 3 }));
    assert_eq!(image_placement(&vm, 4, LOG), Ok(ImageCopy { dst: 0x5008_0000, len: 4 }));
    let mut p = board(Arch::Aarch64);
    p.qemu = true;
    let short = ImageInputs { kernel_size: 0, trace: LOG, ..inputs() };
    assert_eq!(vmm_init_image(&vm, &p, &short), ImageAction::Halt(ImageFault::ShortKernel));
}

#[test]
fn images_of_the_first_machine() {
    let mut vm = backed(0);
    vm.config.image.device_tree_load_ipa = 0x8200_0000;
    vm.config.image.ramdisk_load_ipa = 0x8300_0000;
    let mut p = board(Arch::Aarch64);
    p.qemu = true;
    let inputs = inputs();
    let a = vmm_init_image(&vm, &p, &inputs);
    assert_eq!(a, ImageAction::CopyKernel(ImageCopy { dst: 0x5008_0000, len: 0x1000 }));
    let b = image_next(&vm, &inputs, a, true);
    assert_eq!(b, ImageAction::CopySystemFdt(ImageCopy { dst: 0x5200_0000, len: 0x800 }));
    let edit = image_next(&vm, &inputs, b, true);
    assert_eq!(edit, ImageAction::EditSystemFdt(0x5200_0000));
    let c = image_next(&vm, &inputs, edit, true);
    assert_eq!(c, ImageAction::CopyRamdisk(ImageCopy { dst: 0x5300_0000, len: 0x200 }));
    let d = image_next(&vm, &inputs, c, true);
    assert_eq!(d, ImageAction::Finish(true));
    assert_eq!(image_next(&vm, &inputs, d, false), d);
}

#[test]
fn images_of_another_machine() {
    let mut vm = backed(1);
    vm.config.image.device_tree_load_ipa = 0x8200_0000;
    let p = board(Arch::Aarch64);
    let inputs = inputs();
    let a = vmm_init_image(&vm, &p, &inputs);
    assert_eq!(a, ImageAction::CreateFdt);
    assert_eq!(image_next(&vm, &inputs, a, false), ImageAction::Halt(ImageFault::CreateFdt));
    let b = image_next(&vm, &inputs, a, true);
    assert_eq!(b, ImageAction::CopyDtb(0x5200_0000));
    assert_eq!(image_next(&vm, &inputs, b, true), ImageAction::Finish(true));
    vm.config.fdt_overlay = vec![1];
    let c = image_next(&vm, &inputs, a, true);
    assert_eq!(c, ImageAction::ApplyOverlay);
    assert_eq!(image_next(&vm, &inputs, c, false), ImageAction::Finish(false));
    let d = image_next(&vm, &inputs, c, true);
    assert_eq!(d, ImageAction::CopyOverlaid(0x5200_0000));
    assert_eq!(image_next(&vm, &inputs, d, true), ImageAction::Finish(true));
}

#[test]
fn names_of_kernels() {
    let mut vm = backed(0);
    let mut qemu = board(Arch::Aarch64);
    qemu.qemu = true;
    let mut rk3588 = board(Arch::Aarch64);
    rk3588.rk3588 = true;
    let wrong = ImageAction::Halt(ImageFault::KernelName);
    assert!(matches!(vmm_init_image(&vm, &rk3588, &inputs()), ImageAction::CopyKernel(_)));
    vm.config.image.kernel_img_name = Some(String::from("L4T"));
    assert!(matches!(vmm_init_image(&vm, &qemu, &inputs()), ImageAction::CopyKernel(_)));
    assert_eq!(vmm_init_image(&vm, &rk3588, &inputs()), wrong);
    vm.config.image.kernel_img_name = Some(String::new());
    assert_eq!(vmm_init_image(&vm, &qemu, &inputs()), wrong);
    vm.config.os_type = VmType::VmTBma;
    assert_eq!(vmm_init_image(&vm, &qemu, &inputs()), ImageAction::Finish(true));
    vm.config.os_type = VmType::VmTOs;
    vm.config.image.kernel_img_name = None;
    assert_eq!(vmm_init_image(&vm, &qemu, &inputs()), ImageAction::Finish(true));
}

#[test]
fn images_that_cannot_be_loaded() {
    let p = board(Arch::Aarch64);
    let mut vm = backed(0);
    vm.config.image.kernel_load_ipa = 0;
    assert_eq!(vmm_init_image(&vm, &p, &inputs()), ImageAction::Finish(false));
    vm.config.image.kernel_load_ipa = 0x8008_0000;
    vm.config.image.device_tree_load_ipa = 0x8200_0000;
    let no_tree = ImageInputs { system_fdt_len: None, ..inputs() };
    assert_eq!(vmm_init_image(&vm, &p, &no_tree), ImageAction::Halt(ImageFault::NoSystemFdt));
    vm.config.image.device_tree_load_ipa = 0x7fff_ffff;
    assert_eq!(vmm_init_image(&vm, &p, &inputs()), ImageAction::Halt(ImageFault::BadAddress));
}

#[test]
fn passed_through_devices() {
    let mut vm = machine(0, vec![]);
    vm.config.passthrough.regions = vec![
        PassthroughRegion { ipa: 0x900_0000, pa: 0x900_0000, length: 0x1000, dev_property: true },
        PassthroughRegion { ipa: 0xa00_0000, pa: 0xb00_0000, length: 0x2000, dev_property: false },
    ];
    vm.config.passthrough.irqs = vec![27, 33];
    let actions = vmm_init_passthrough_device(&vm);
    assert_eq!(
        actions,
        vec![
            DeviceAction::MapRange(PageMapping {
                ipa: 0x900_0000,
                len: 0x1000,
                pa: 0x900_0000,
                attr: S2Attr::Normal,
                map_block: true,
            }),
            DeviceAction::MapRange(PageMapping {
                ipa: 0xa00_0000,
                len: 0x2000,
                pa: 0xb00_0000,
                attr: S2Attr::NormalNoCache,
                map_block: true,
            }),
            DeviceAction::RegisterIrq(27),
            DeviceAction::RegisterIrq(33),
        ]
    );
    assert!(device_succeeded(&actions[0], false));
    assert!(!device_succeeded(&actions[2], false));
    assert!(device_succeeded(&actions[2], true));
}

#[test]
fn iommu_devices() {
    let mut vm = machine(0, vec![]);
    vm.config.passthrough.streams_ids = vec![5, 6, 0, 7];
    assert_eq!(
        vmm_init_iommu_device(&vm),
        vec![DeviceAction::AddIommuDevice(5), DeviceAction::AddIommuDevice(6)]
    );
    vm.config.emulated_device_list = vec![
        device(EmuDeviceType::EmuDeviceTVirtioNet),
        device(EmuDeviceType::EmuDeviceTIOMMU),
        device(EmuDeviceType::EmuDeviceTIOMMU),
    ];
    assert_eq!(
        vmm_init_iommu_device(&vm),
        vec![
            DeviceAction::InitIommu,
            DeviceAction::AddIommuDevice(5),
            DeviceAction::AddIommuDevice(6),
        ]
    );
    vm.config.passthrough.streams_ids = vec![0];
    assert_eq!(vmm_init_iommu_device(&vm), vec![DeviceAction::InitIommu]);
}

#[test]
fn series_of_operations() {
    assert_eq!(plan_begin(0), PlanStep::Finish(true));
    assert_eq!(plan_begin(2), PlanStep::Perform(0));
    assert_eq!(plan_next(2, 0, true), PlanStep::Perform(1));
    assert_eq!(plan_next(2, 1, true), PlanStep::Finish(true));
    assert_eq!(plan_next(2, 0, false), PlanStep::Finish(false));
}

#[test]
fn setup_of_a_machine() {
    assert_eq!(vmm_setup_config(false), SetupAction::Halt(SetupFault::NoConfig));
    let mut step = vmm_setup_config(true);
    let mut steps = vec![step];
    while step != SetupAction::Finish {
        step = setup_next(2, 4, step, true);
        steps.push(step);
    }
    assert_eq!(
        steps,
        vec![
            SetupAction::InitCpu,
            SetupAction::InitMemory,
            SetupAction::InitImage,
            SetupAction::InitPassthrough,
            SetupAction::InitIommu,
            SetupAction::AddAsyncUsedInfo(2),
            SetupAction::Finish,
        ]
    );
}

#[test]
fn setup_that_fails() {
    let halted = |last, ok| setup_next(2, 4, last, ok);
    assert_eq!(halted(SetupAction::InitMemory, false), SetupAction::Halt(SetupFault::Memory));
    assert_eq!(halted(SetupAction::InitImage, false), SetupAction::Halt(SetupFault::Image));
    assert_eq!(
        halted(SetupAction::InitPassthrough, false),
        SetupAction::Halt(SetupFault::Passthrough)
    );
    assert_eq!(halted(SetupAction::InitIommu, false), SetupAction::Halt(SetupFault::Iommu));
    assert_eq!(
        setup_next(4, 4, SetupAction::InitCpu, true),
        SetupAction::Halt(SetupFault::OutOfVm)
    );
    let end = SetupAction::Halt(SetupFault::Image);
    assert_eq!(halted(end, true), end);
}

#[test]
fn tree_on_qemu() {
    let mut p = board(Arch::Aarch64);
    p.qemu = true;
    let mut vm = machine(0, vec![region(0x5000_0000, 0x800_0000)]);
    vm.config.emulated_device_list = vec![
        device(EmuDeviceType::EmuDeviceTGicd),
        device(EmuDeviceType::EmuDeviceTVirtioNet),
        device(EmuDeviceType::EmuDeviceTIOMMU),
        device(EmuDeviceType::EmuDeviceTTinyvm),
    ];
    assert!(fdt_irqs_in_range(&p, &vm.config));
    let plan = vmm_setup_fdt(&p, &vm.config);
    assert_eq!(plan.memory, vec![FdtRegion { ipa_start: 0x5000_0000, length: 0x800_0000 }]);
    assert_eq!(plan.cmdline, "console=hvc0\0");
    assert_eq!(fdt_device_name(&vm.config, 1), "virtio_mmio@a000000\0");
    assert_eq!(
        plan.ops,
        vec![
            FdtOp::SetMemory { node: "memory@50000000\0" },
            FdtOp::SetBootcmd,
            FdtOp::SetupGic { gicd_base: 0x800_0000, gicc_base: 0x801_0000, device: 0 },
            FdtOp::AddVirtio { device: 1, irq: 0x11, base: 0xa00_0000 },
            FdtOp::AddVmService { irq: 0x11, base: 0xa00_0000, length: 0x400 },
        ]
    );
    p.gicv3 = true;
    assert_eq!(vmm_setup_fdt(&p, &vm.config).ops.len(), 4);
}

#[test]
fn tree_on_rk3588() {
    let mut p = board(Arch::Aarch64);
    p.rk3588 = true;
    let mut vm = machine(0, vec![]);
    vm.config.emulated_device_list = vec![
        device(EmuDeviceType::EmuDeviceTGPPT),
        device(EmuDeviceType::EmuDeviceTVirtioConsole),
    ];
    assert_eq!(
        vmm_setup_fdt(&p, &vm.config).ops,
        vec![
            FdtOp::SetMemory { node: "memory@10000000\0" },
            FdtOp::SetBootcmd,
            FdtOp::SetStdoutPath { path: "/serial@feba0000\0" },
            FdtOp::AddVirtio { device: 1, irq: 0x11, base: 0xa00_0000 },
        ]
    );
}

#[test]
fn tree_on_riscv() {
    let mut p = board(Arch::Riscv64);
    p.qemu = true;
    p.plic = true;
    let mut vm = machine(0, vec![]);
    vm.config.emulated_device_list = vec![
        device(EmuDeviceType::EmuDeviceTVirtioNet),
        device(EmuDeviceType::EmuDeviceTTinyvm),
    ];
    assert_eq!(
        vmm_setup_fdt(&p, &vm.config).ops,
        vec![
            FdtOp::SetMemory { node: "memory@90000000\0" },
            FdtOp::SetBootcmd,
            FdtOp::CreateNode { parent: "/soc\0", name: NodeName::Device(0) },
            FdtOp::AddU32 { prop: "interrupts\0", value: 0x31 },
            FdtOp::AddU32 { prop: "interrupt-parent\0", value: 9 },
            FdtOp::AddReg { base: 0xa00_0000, length: 0x400 },
            FdtOp::AddString { prop: "compatible\0", text: "virtio,mmio\0", checked: false },
            FdtOp::CreateNode { parent: "/soc\0", name: NodeName::Fixed("vm_service\0") },
            FdtOp::AddString { prop: "compatible\0", text: "tinyvm\0", checked: true },
            FdtOp::AddU32 { prop: "interrupts\0", value: 0x31 },
            FdtOp::AddU32 { prop: "interrupt-parent\0", value: 9 },
            FdtOp::AddReg { base: 0xa00_0000, length: 0x400 },
        ]
    );
}

#[test]
fn devices_on_the_aia() {
    let mut p = board(Arch::Riscv64);
    p.aia = true;
    let mut ops = vec![];
    fdt_add_virtio_riscv64(&p, &mut ops, 3, 7, 0x1000, 0x200);
    assert_eq!(
        ops,
        vec![
            FdtOp::CreateNode { parent: "/soc\0", name: NodeName::Device(3) },
            FdtOp::AddU32Pair { prop: "interrupts\0", first: 7, second: 4 },
            FdtOp::AddU32 { prop: "interrupt-parent\0", value: 12 },
            FdtOp::AddReg { base: 0x1000, length: 0x200 },
            FdtOp::AddString { prop: "compatible\0", text: "virtio,mmio\0", checked: false },
        ]
    );
    let before = ops.len();
    fdt_add_vm_service_riscv64(&p, &mut ops, 7, 0x1000, 0x200);
    assert_eq!(ops.len(), before + 5);
    assert_eq!(ops[before + 2], FdtOp::AddU32Pair { prop: "interrupts\0", first: 7, second: 4 });
}

#[test]
fn interrupts_below_the_shared_ones() {
    let mut p = board(Arch::Aarch64);
    p.qemu = true;
    let mut vm = machine(0, vec![]);
    vm.config.emulated_device_list = vec![device(EmuDeviceType::EmuDeviceTTinyvm)];
    vm.config.emulated_device_list[0].irq_id = 0x1f;
    assert!(!fdt_irqs_in_range(&p, &vm.config));
    assert!(fdt_irqs_in_range(&board(Arch::Riscv64), &vm.config));
    vm.config.emulated_device_list[0].irq_id = 0x1_0000_0000;
    assert!(!fdt_irqs_in_range(&p, &vm.config));
    vm.config.emulated_device_list[0].emu_type = EmuDeviceType::EmuDeviceTOther;
    assert!(fdt_irqs_in_range(&p, &vm.config));
}

#[test]
fn properties_go_to_the_node_created_last() {
    let mut p = board(Arch::Riscv64);
    p.plic = true;
    let mut ops = vec![];
    fdt_add_virtio_riscv64(&p, &mut ops, 0, 7, 0x1000, 0x200);
    fdt_add_vm_service_riscv64(&p, &mut ops, 8, 0x2000, 0x200);
    let mut step = fdt_begin(&ops);
    let mut nodes = vec![];
    while let FdtStep::Perform { index, node } = step {
        nodes.push(node);
        let code = match ops[index] {
            FdtOp::CreateNode { .. } => 100 + index as i32,
            _ => 0,
        };
        step = fdt_next(&ops, step, code);
    }
    assert_eq!(step, FdtStep::Finish);
    assert_eq!(nodes, vec![0, 100, 100, 100, 100, 100, 105, 105, 105, 105]);
}

#[test]
fn edits_that_fail() {
    let p = board(Arch::Riscv64);
    let mut ops = vec![];
    fdt_add_virtio_riscv64(&p, &mut ops, 0, 7, 0x1000, 0x200);
    let create = fdt_begin(&ops);
    assert_eq!(fdt_next(&ops, create, -3), FdtStep::Halt { code: -3 });
    let reg = fdt_next(&ops, create, 5);
    assert_eq!(reg, FdtStep::Perform { index: 1, node: 5 });
    assert_eq!(fdt_next(&ops, reg, -4), FdtStep::Halt { code: -4 });
    let compatible = fdt_next(&ops, reg, 0);
    assert_eq!(fdt_next(&ops, compatible, -4), FdtStep::Finish);
    let mut service = vec![];
    fdt_add_vm_service_riscv64(&p, &mut service, 7, 0x1000, 0x200);
    let compatible = fdt_next(&service, fdt_begin(&service), 5);
    assert_eq!(fdt_next(&service, compatible, -9), FdtStep::Halt { code: -9 });
    assert_eq!(fdt_begin(&vec![]), FdtStep::Finish);
}

#[test]
fn trees_are_recognised() {
    let mut tree = vec![0u8; 48];
    tree[..4].copy_from_slice(&[0xd0, 0x0d, 0xfe, 0xed]);
    tree[7] = 48;
    assert_eq!(check_tree(&tree), Ok(()));
    assert_eq!(check_tree(&tree[..47]), Err(TreeFault::BufferTooSmall));
    assert_eq!(check_tree(&tree[..39]), Err(TreeFault::BufferTooSmall));
    assert_eq!(check_tree(&[]), Err(TreeFault::BufferTooSmall));
    tree[7] = 0;
    assert_eq!(check_tree(&tree[..40]), Ok(()));
    tree[4] = 1;
    assert_eq!(check_tree(&tree), Err(TreeFault::BufferTooSmall));
    tree[3] = 0;
    assert_eq!(check_tree(&tree), Err(TreeFault::BadMagic));
}

#[test]
fn last_step_of_an_edit() {
    let mut tree = vec![0u8; 40];
    tree[..4].copy_from_slice(&[0xd0, 0x0d, 0xfe, 0xed]);
    tree[7] = 40;
    assert_eq!(fdt_finish(FdtStep::Finish, &tree), Ok(()));
    assert_eq!(
        fdt_finish(FdtStep::Halt { code: -3 }, &tree),
        Err(EditFault::Failed(-3))
    );
    assert_eq!(
        fdt_finish(FdtStep::Perform { index: 0, node: 0 }, &tree),
        Err(EditFault::Unfinished)
    );
    tree[0] = 0;
    assert_eq!(
        fdt_finish(FdtStep::Finish, &tree),
        Err(EditFault::NoTree(TreeFault::BadMagic))
    );
}

#[test]
fn first_error_of_an_overlay() {
    let ops = overlay_fdt(100, 20);
    let mut step: OverlayStep<i32> = overlay_begin(&ops);
    let mut performed = vec![];
    while let OverlayStep::Perform(i) = step {
        performed.push(i);
        step = overlay_next(&ops, i, Ok(()));
    }
    assert_eq!(step, OverlayStep::Finish);
    assert_eq!(performed, vec![0, 1, 2, 3, 4]);
    assert_eq!(overlay_next(&ops, 3, Err(-9)), OverlayStep::Fail { at: 3, error: -9 });
}

#[test]
fn overlays() {
    assert_eq!(
        overlay_fdt(100, 20),
        vec![
            OverlayOp::ParseBase,
            OverlayOp::Allocate { capacity: 240 },
            OverlayOp::ParseOverlay,
            OverlayOp::Apply,
            OverlayOp::Pack,
        ]
    );
    assert!(overlay_fits(100, 20));
    assert!(overlay_fits(usize::MAX / 2, 0));
    assert!(!overlay_fits(usize::MAX / 2, 1));
    assert!(!overlay_fits(usize::MAX, 1));
}

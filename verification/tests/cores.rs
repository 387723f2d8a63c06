use tinyvm::arch::power::{
    power_arch_cpu_on, power_arch_cpu_shutdown, power_arch_sys_reset, power_arch_sys_shutdown,
    power_arch_vm_shutdown_secondary_cores, SmcCall,
};
use tinyvm::arch::psci::{
    cpu_on_status, guest_cpu_on, guest_start_target, power_on_core, psci_guest_cpu_on,
    psci_ipi_handler, psci_ipi_target, psci_vcpu_on, psci_vm_maincpu_on, CpuOnAction, CpuOnReply,
    CpuOnRequest, GuestStart, GuestStartNext, PsciIpiFault, PsciIpiOutcome, PsciIpiStart, VcpuName,
};
use tinyvm::kernel::config::{VmConfigEntry, VmImageConfig, VmPassthroughDeviceConfig, VmType};
use tinyvm::kernel::cpu::{CoreAction, Cpu, CpuIf, CpuState, StartReason};
use tinyvm::kernel::ipi::{
    IpiInnerMsg, IpiMessage, IpiPowerMessage, IpiType, IpiVmmPercoreMsg, PowerEvent,
    VmmPercoreEvent,
};
use tinyvm::kernel::vm::{Vcpu, VcpuState, Vm};
use tinyvm::platform::{Arch, Platform};
use tinyvm::vmm::boot::{boot_active_vcpu, vm_init, vmm_boot, BootAction, VmInitAction};
use tinyvm::vmm::cores::{vmm_assign_vcpu_percore, vmm_init_cpu, CoreInitAction};

const INVALID: usize = usize::MAX - 1;

fn platform(secondary_start: bool) -> Platform {
    Platform {
        arch: Arch::Aarch64,
        qemu: true,
        rk3588: false,
        gicv3: false,
        plic: false,
        aia: false,
        static_config: false,
        secondary_start,
        gicd_base: 0x800_0000,
        gicc_base: 0x801_0000,
        vm_num_max: 4,
    }
}

fn machine(id: usize, cpu_num: usize, vcpu_list: Vec<Vcpu>) -> Vm {
    Vm {
        id,
        config: VmConfigEntry {
            name: String::from("guest"),
            os_type: VmType::VmTOs,
            cmdline: String::new(),
            image: VmImageConfig {
                kernel_img_name: None,
                kernel_load_ipa: 0,
                device_tree_load_ipa: 0,
                ramdisk_load_ipa: 0,
            },
            memory_region: vec![],
            cpu_num,
            emulated_device_list: vec![],
            passthrough: VmPassthroughDeviceConfig {
                regions: vec![],
                irqs: vec![],
                streams_ids: vec![],
            },
            fdt_overlay: vec![],
        },
        pt_dir: None,
        mem_region_num: 0,
        pa_region: vec![],
        vcpu_list,
    }
}

fn down() -> CpuIf {
    CpuIf {
        entry: 0,
        ctx: 0,
        vm_id: 0,
        state_for_start: CpuState::CpuInv,
        vcpuid: 0,
        start_reason: StartReason::NotStarted,
    }
}

fn vcpu(id: usize, phys_id: usize) -> Vcpu {
    Vcpu { vm_id: 3, id, phys_id, state: VcpuState::Invalid }
}

fn request(vcpu_id: usize, pcpu: Option<usize>) -> CpuOnRequest {
    CpuOnRequest { vcpu_id, pcpu, entry: 0x8008_0000, ctx: 0x55 }
}

fn power(event: PowerEvent, vcpuid: usize) -> IpiPowerMessage {
    IpiPowerMessage { src: 3, vcpuid, event, entry: 0x8008_0000, context: 0x55 }
}

fn wrapped(m: IpiPowerMessage) -> IpiMessage {
    IpiMessage { ipi_type: IpiType::IpiTPower, ipi_message: IpiInnerMsg::Power(m) }
}

fn wake_up(v: Vcpu) -> Vec<CoreAction> {
    vec![
        CoreAction::ResetContext(v),
        CoreAction::SetGpr(v, 0, 0x55),
        CoreAction::SetElr(v, 0x8008_0000),
        CoreAction::Wakeup(v),
        CoreAction::DoSchedule,
    ]
}

#[test]
fn shutdown_message() {
    assert_eq!(
        power_arch_vm_shutdown_secondary_cores(&machine(5, 1, vec![])),
        wrapped(IpiPowerMessage {
            src: 5,
            vcpuid: 0,
            event: PowerEvent::PsciIpiCpuReset,
            entry: 0,
            context: 0,
        })
    );
}

#[test]
fn system_calls() {
    assert_eq!(power_arch_sys_reset(), SmcCall { fid: 0x8400_0009, x1: 0, x2: 0, x3: 0 });
    assert_eq!(power_arch_sys_shutdown(), SmcCall { fid: 0x8400_0008, x1: 0, x2: 0, x3: 0 });
}

#[test]
fn core_shutdown() {
    assert_eq!(
        power_arch_cpu_shutdown(),
        vec![
            CoreAction::GicCpuInit,
            CoreAction::GiccClearCurrentIrq(true),
            CoreAction::TimerEnable(false),
            CoreAction::CpuIdle,
        ]
    );
}

#[test]
fn core_on_marks_the_record() {
    let mut list = vec![down(), down()];
    let call = power_arch_cpu_on(&mut list, 1, 0x101, 0x4000, 9);
    assert_eq!(call, SmcCall { fid: 0xC400_0003, x1: 0x101, x2: 0x4000, x3: 9 });
    assert_eq!(list[0], down());
    assert_eq!(list[1], CpuIf { state_for_start: CpuState::CpuIdle, ..down() });
    let before = list.clone();
    power_arch_cpu_on(&mut list, 2, 0x102, 0x4000, 9);
    assert_eq!(list, before);
}

#[test]
fn refused_requests() {
    let vm = machine(3, 2, vec![]);
    for on_demand in [false, true] {
        let mut list = vec![down(), down()];
        for bad in [request(2, Some(1)), request(1, None), request(usize::MAX, None)] {
            let action = psci_guest_cpu_on(&platform(on_demand), &mut list, &vm, bad);
            assert_eq!(action, CpuOnAction::Refuse(INVALID));
            assert_eq!(psci_vm_maincpu_on(&mut list, &vm, bad), CpuOnAction::Refuse(INVALID));
            assert_eq!(list, vec![down(), down()]);
        }
    }
}

#[test]
fn request_powers_up_a_core() {
    let vm = machine(3, 2, vec![]);
    let mut list = vec![down(), down()];
    let p = platform(true);
    let action = psci_guest_cpu_on(&p, &mut list, &vm, request(1, Some(1)));
    assert_eq!(action, CpuOnAction::PowerOn { cpu_idx: 1 });
    assert_eq!(list[0], down());
    assert_eq!(
        list[1],
        CpuIf {
            entry: 0x8008_0000,
            ctx: 0x55,
            vm_id: 3,
            state_for_start: CpuState::CpuIdle,
            vcpuid: 1,
            start_reason: StartReason::SecondaryCore,
        }
    );
    let call = power_on_core(&mut list, 1, 0x101, 1, 0x4_0000);
    assert_eq!(call, SmcCall { fid: 0xC400_0003, x1: 0x101, x2: 0x4_0000, x3: 1 });
    assert_eq!(
        guest_cpu_on(&p, &list, 1),
        Some(GuestStart {
            vm_id: 3,
            vcpuid: 1,
            next: GuestStartNext::StartVcpu { entry: 0x8008_0000, ctx: 0x55 },
        })
    );
}

#[test]
fn second_request_is_a_message() {
    let vm = machine(3, 2, vec![]);
    let other = machine(4, 1, vec![]);
    let mut list = vec![down(), down()];
    let p = platform(true);
    psci_guest_cpu_on(&p, &mut list, &vm, request(1, Some(1)));
    let before = list.clone();
    assert_eq!(
        psci_guest_cpu_on(&p, &mut list, &vm, request(0, Some(1))),
        CpuOnAction::SendIpi {
            target: 1,
            message: wrapped(power(PowerEvent::PsciIpiVcpuAssignAndCpuOn, 0)),
        }
    );
    assert!(matches!(
        psci_vm_maincpu_on(&mut list, &other, request(0, Some(1))),
        CpuOnAction::SendIpi { target: 1, .. }
    ));
    assert_eq!(list, before);
}

#[test]
fn main_core_boots_the_machine() {
    let vm = machine(3, 1, vec![]);
    let mut list = vec![down()];
    let action = psci_vm_maincpu_on(&mut list, &vm, request(0, Some(0)));
    assert_eq!(action, CpuOnAction::PowerOn { cpu_idx: 0 });
    assert_eq!(list[0].start_reason, StartReason::MainCore);
    assert_eq!(
        guest_cpu_on(&platform(true), &list, 0),
        Some(GuestStart { vm_id: 3, vcpuid: 0, next: GuestStartNext::BootVm })
    );
}

#[test]
fn cores_that_are_up_get_a_message() {
    let vm = machine(3, 2, vec![]);
    let mut list = vec![];
    assert_eq!(
        psci_guest_cpu_on(&platform(false), &mut list, &vm, request(1, Some(6))),
        CpuOnAction::SendIpi { target: 6, message: wrapped(power(PowerEvent::PsciIpiCpuOn, 0)) }
    );
    assert!(list.is_empty());
    assert_eq!(guest_cpu_on(&platform(false), &list, 6), None);
}

#[test]
fn nobody_asked_for_the_core() {
    assert_eq!(
        guest_cpu_on(&platform(true), &vec![down()], 0).unwrap().next,
        GuestStartNext::Halt
    );
}

#[test]
fn status_of_a_request() {
    assert_eq!(cpu_on_status(CpuOnReply::Refused(INVALID)), INVALID);
    assert_eq!(cpu_on_status(CpuOnReply::Firmware(17)), 17);
    assert_eq!(cpu_on_status(CpuOnReply::Sent(true)), 0);
    assert_eq!(cpu_on_status(CpuOnReply::Sent(false)), INVALID);
}

#[test]
fn starting_a_virtual_core() {
    let v = vcpu(1, 2);
    let mut cpu = Cpu { id: 2, cpu_state: CpuState::CpuIdle };
    assert_eq!(psci_vcpu_on(&platform(false), &mut cpu, v, 0x8008_0000, 0x55), wake_up(v));
    assert_eq!(cpu, Cpu { id: 2, cpu_state: CpuState::CpuRun });
    let mut expected = wake_up(v);
    expected.push(CoreAction::EnterVm);
    assert_eq!(psci_vcpu_on(&platform(true), &mut cpu, v, 0x8008_0000, 0x55), expected);
}

#[test]
fn messages_are_looked_up() {
    assert_eq!(
        psci_ipi_handler(&wrapped(power(PowerEvent::PsciIpiCpuOn, 0))),
        PsciIpiStart::Lookup { assign: None, vm_id: 3 }
    );
    assert_eq!(
        psci_ipi_handler(&wrapped(power(PowerEvent::PsciIpiVcpuAssignAndCpuOn, 2))),
        PsciIpiStart::Lookup { assign: Some(VcpuName { vm_id: 3, vcpuid: 2 }), vm_id: 3 }
    );
    let stray = IpiMessage {
        ipi_type: IpiType::IpiTPower,
        ipi_message: IpiInnerMsg::VmmPercoreMsg(IpiVmmPercoreMsg {
            vm_id: 3,
            event: VmmPercoreEvent::VmmAssignCpu,
        }),
    };
    assert_eq!(psci_ipi_handler(&stray), PsciIpiStart::Halt);
}

#[test]
fn outcomes_of_messages() {
    let p = platform(false);
    let idle = Cpu { id: 2, cpu_state: CpuState::CpuIdle };
    let mut cpu = idle;
    let on = power(PowerEvent::PsciIpiCpuOn, 0);
    assert_eq!(psci_ipi_target(&p, &mut cpu, &on, None), PsciIpiOutcome::Nothing);
    let running = Vcpu { state: VcpuState::Running, ..vcpu(1, 2) };
    assert_eq!(psci_ipi_target(&p, &mut cpu, &on, Some(running)), PsciIpiOutcome::Nothing);
    assert_eq!(
        psci_ipi_target(&p, &mut cpu, &on, Some(vcpu(1, 3))),
        PsciIpiOutcome::Halt(PsciIpiFault::WrongCore)
    );
    assert_eq!(
        psci_ipi_target(&p, &mut cpu, &power(PowerEvent::PsciIpiCpuOff, 0), Some(vcpu(1, 2))),
        PsciIpiOutcome::Halt(PsciIpiFault::CpuOff)
    );
    assert_eq!(
        psci_ipi_target(&p, &mut cpu, &power(PowerEvent::PsciIpiCpuReset, 0), Some(vcpu(1, 2))),
        PsciIpiOutcome::ResetActive
    );
    assert_eq!(
        psci_ipi_target(
            &p,
            &mut cpu,
            &power(PowerEvent::PsciIpiVcpuAssignAndCpuOn, 1),
            Some(vcpu(1, 2))
        ),
        PsciIpiOutcome::Nothing
    );
    assert_eq!(cpu, idle);
}

#[test]
fn shutdown_resets_the_running_virtual_cores() {
    let message = power_arch_vm_shutdown_secondary_cores(&machine(3, 1, vec![]));
    assert_eq!(
        psci_ipi_handler(&message),
        PsciIpiStart::Lookup { assign: None, vm_id: 3 }
    );
    let m = match message.ipi_message {
        IpiInnerMsg::Power(m) => m,
        _ => unreachable!(),
    };
    let running = Cpu { id: 2, cpu_state: CpuState::CpuRun };
    let mut cpu = running;
    let p = platform(false);
    assert_eq!(
        psci_ipi_target(&p, &mut cpu, &m, Some(vcpu(1, 2))),
        PsciIpiOutcome::ResetActive
    );
    assert_eq!(psci_ipi_target(&p, &mut cpu, &m, None), PsciIpiOutcome::Nothing);
    assert_eq!(cpu, running);
}

#[test]
fn message_adds_the_virtual_core() {
    let p = platform(true);
    let vm = machine(3, 2, vec![]);
    let mut list = vec![CpuIf { state_for_start: CpuState::CpuIdle, ..down() }];
    let message = match psci_guest_cpu_on(&p, &mut list, &vm, request(1, Some(0))) {
        CpuOnAction::SendIpi { target: 0, message } => message,
        _ => unreachable!(),
    };
    assert_eq!(
        psci_ipi_handler(&message),
        PsciIpiStart::Lookup { assign: Some(VcpuName { vm_id: 3, vcpuid: 1 }), vm_id: 3 }
    );
}

#[test]
fn message_starts_the_virtual_core() {
    let p = platform(false);
    let vm = machine(3, 2, vec![]);
    let mut cpu = Cpu { id: 2, cpu_state: CpuState::CpuIdle };
    let action = psci_guest_cpu_on(&p, &mut vec![], &vm, request(1, Some(2)));
    let message = match action {
        CpuOnAction::SendIpi { target: 2, message } => message,
        _ => unreachable!(),
    };
    let m = match message.ipi_message {
        IpiInnerMsg::Power(m) => m,
        _ => unreachable!(),
    };
    assert_eq!(
        psci_ipi_target(&p, &mut cpu, &m, Some(vcpu(1, 2))),
        PsciIpiOutcome::Run(wake_up(vcpu(1, 2)))
    );
    assert_eq!(cpu.cpu_state, CpuState::CpuRun);
}

#[test]
fn started_core_runs_its_virtual_core() {
    let p = platform(true);
    let mut cpu = Cpu { id: 2, cpu_state: CpuState::CpuIdle };
    assert_eq!(guest_start_target(&p, &mut cpu, None, 1, 2), PsciIpiOutcome::Nothing);
    assert_eq!(
        guest_start_target(&p, &mut cpu, Some(vcpu(0, 1)), 1, 2),
        PsciIpiOutcome::Halt(PsciIpiFault::WrongCore)
    );
    assert_eq!(cpu.cpu_state, CpuState::CpuIdle);
    let mut expected = wake_up(vcpu(0, 2));
    expected.push(CoreAction::EnterVm);
    assert_eq!(
        guest_start_target(&p, &mut cpu, Some(vcpu(0, 2)), 0x8008_0000, 0x55),
        PsciIpiOutcome::Run(expected)
    );
    assert_eq!(cpu.cpu_state, CpuState::CpuRun);
}

#[test]
fn virtual_cores_are_handed_out() {
    let vm = machine(3, 3, vec![vcpu(0, 4), vcpu(1, 0), vcpu(2, 4)]);
    let assign = IpiMessage {
        ipi_type: IpiType::IpiTVMM,
        ipi_message: IpiInnerMsg::VmmPercoreMsg(IpiVmmPercoreMsg {
            vm_id: 3,
            event: VmmPercoreEvent::VmmAssignCpu,
        }),
    };
    assert_eq!(
        vmm_init_cpu(&vm, 0),
        vec![
            CoreInitAction::SendIpi { target: 4, message: assign },
            CoreInitAction::AssignHere,
            CoreInitAction::SendIpi { target: 4, message: assign },
        ]
    );
    assert_eq!(vmm_assign_vcpu_percore(&vm, 0), Some(vcpu(1, 0)));
    assert_eq!(vmm_assign_vcpu_percore(&vm, 4), Some(vcpu(0, 4)));
    assert_eq!(vmm_assign_vcpu_percore(&vm, 1), None);
}

#[test]
fn bringing_up_the_machines() {
    let mut p = platform(false);
    assert_eq!(vm_init(&p, 0), vec![VmInitAction::MvmConfigInit, VmInitAction::InitGvm(0)]);
    assert!(vm_init(&p, 1).is_empty());
    p.static_config = true;
    assert_eq!(
        vm_init(&p, 0),
        vec![
            VmInitAction::MvmConfigInit,
            VmInitAction::InitGvm(0),
            VmInitAction::InitTmpConfigForVm1,
            VmInitAction::InitGvm(1),
        ]
    );
    p.gicv3 = true;
    assert_eq!(vm_init(&p, 0)[2], VmInitAction::InitGicv3ConfigForVm1);
    assert!(vm_init(&p, 7).is_empty());
}

#[test]
fn booting() {
    assert_eq!(vmm_boot(true), BootAction::AskActiveVcpu);
    assert_eq!(vmm_boot(false), BootAction::CpuIdle);
    assert_eq!(boot_active_vcpu(0), BootAction::VcpuRun { announce: false });
    assert_eq!(boot_active_vcpu(1), BootAction::CpuIdle);
}

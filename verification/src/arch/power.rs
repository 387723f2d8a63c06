//! Powering cores and the system up and down through the firmware.

use vstd::prelude::*;

use crate::arch::smc::{PSCI_CPU_ON_64, PSCI_SYSTEM_OFF, PSCI_SYSTEM_RESET};
use crate::kernel::cpu::{CoreAction, CpuIf, CpuState};
use crate::kernel::ipi::{IpiInnerMsg, IpiMessage, IpiPowerMessage, IpiType, PowerEvent};
use crate::kernel::vm::Vm;

verus! {

/// A secure monitor call to be made: function identifier and arguments.
#[derive(Clone, Copy, PartialEq, Eq, Structural, Debug)]
pub struct SmcCall {
    pub fid: usize,
    pub x1: usize,
    pub x2: usize,
    pub x3: usize,
}

/// The message that resets the cores of a machine.
pub open spec fn reset_message(vm_id: usize) -> IpiMessage {
    IpiMessage {
        ipi_type: IpiType::IpiTPower,
        ipi_message: IpiInnerMsg::Power(
            IpiPowerMessage {
                src: vm_id,
                vcpuid: 0,
                event: PowerEvent::PsciIpiCpuReset,
                entry: 0,
                context: 0,
            },
        ),
    }
}

/// The message to be broadcast to the other cores of a machine that is being
/// shut down. That it cannot be delivered is not an error.
pub fn power_arch_vm_shutdown_secondary_cores(vm: &Vm) -> (r: IpiMessage)
    ensures
        r == reset_message(vm.id),
{
    IpiMessage {
        ipi_type: IpiType::IpiTPower,
        ipi_message: IpiInnerMsg::Power(
            IpiPowerMessage {
                src: vm.id,
                vcpuid: 0,
                event: PowerEvent::PsciIpiCpuReset,
                entry: 0,
                context: 0,
            },
        ),
    }
}

/// The records of the cores once core `cpu_idx` counts as idle. There may be no
/// record for the core.
pub open spec fn marked_idle(list: Seq<CpuIf>, cpu_idx: usize) -> Seq<CpuIf> {
    if cpu_idx < list.len() {
        list.update(
            cpu_idx as int,
            CpuIf { state_for_start: CpuState::CpuIdle, ..list[cpu_idx as int] },
        )
    } else {
        list
    }
}

/// Powers up the core with affinity `mpidr`, which is core number `cpu_idx`.
///
/// The core starts at `entry` with `ctx`; its record, if there is one, counts
/// as idle from now on. The status is what the firmware answers the call with.
pub fn power_arch_cpu_on(
    cpu_if_list: &mut Vec<CpuIf>,
    cpu_idx: usize,
    mpidr: usize,
    entry: usize,
    ctx: usize,
) -> (r: SmcCall)
    ensures
        final(cpu_if_list)@ == marked_idle(old(cpu_if_list)@, cpu_idx),
        r == (SmcCall { fid: PSCI_CPU_ON_64, x1: mpidr, x2: entry, x3: ctx }),
{
    if cpu_idx < cpu_if_list.len() {
        let mut cpu_if = cpu_if_list[cpu_idx];
        cpu_if.state_for_start = CpuState::CpuIdle;
        cpu_if_list.set(cpu_idx, cpu_if);
    }
    SmcCall { fid: PSCI_CPU_ON_64, x1: mpidr, x2: entry, x3: ctx }
}

/// Takes the executing core out of service: its interrupt interface is reset,
/// the interrupt being handled is dropped, the timer is switched off, and the
/// core goes idle.
pub fn power_arch_cpu_shutdown() -> (r: Vec<CoreAction>)
    ensures
        r@ == seq![
            CoreAction::GicCpuInit,
            CoreAction::GiccClearCurrentIrq(true),
            CoreAction::TimerEnable(false),
            CoreAction::CpuIdle,
        ],
{
    let r = vec![
        CoreAction::GicCpuInit,
        CoreAction::GiccClearCurrentIrq(true),
        CoreAction::TimerEnable(false),
        CoreAction::CpuIdle,
    ];
    assert(r@ =~= seq![
        CoreAction::GicCpuInit,
        CoreAction::GiccClearCurrentIrq(true),
        CoreAction::TimerEnable(false),
        CoreAction::CpuIdle,
    ]);
    r
}

/// The call that resets the system.
pub fn power_arch_sys_reset() -> (r: SmcCall)
    ensures
        r == (SmcCall { fid: PSCI_SYSTEM_RESET, x1: 0, x2: 0, x3: 0 }),
{
    SmcCall { fid: PSCI_SYSTEM_RESET, x1: 0, x2: 0, x3: 0 }
}

/// The call that switches the system off.
pub fn power_arch_sys_shutdown() -> (r: SmcCall)
    ensures
        r == (SmcCall { fid: PSCI_SYSTEM_OFF, x1: 0, x2: 0, x3: 0 }),
{
    SmcCall { fid: PSCI_SYSTEM_OFF, x1: 0, x2: 0, x3: 0 }
}

/// The message that resets a machine's cores names the machine and asks for
/// nothing but the reset.
pub proof fn reset_names_the_machine(vm_id: usize)
    ensures
        reset_message(vm_id).ipi_type == IpiType::IpiTPower,
        reset_message(vm_id).ipi_message matches IpiInnerMsg::Power(m) && m.src == vm_id
            && m.vcpuid == 0 && m.event == PowerEvent::PsciIpiCpuReset && m.entry == 0 && m.context
            == 0,
{
}

/// Marking a core changes one field of its record, and no other record.
pub proof fn marking_changes_one_state(list: Seq<CpuIf>, cpu_idx: usize, i: int)
    requires
        0 <= i < list.len(),
    ensures
        marked_idle(list, cpu_idx).len() == list.len(),
        i != cpu_idx ==> marked_idle(list, cpu_idx)[i] == list[i],
        i == cpu_idx ==> marked_idle(list, cpu_idx)[i].state_for_start == CpuState::CpuIdle,
        marked_idle(list, cpu_idx)[i].entry == list[i].entry,
        marked_idle(list, cpu_idx)[i].ctx == list[i].ctx,
        marked_idle(list, cpu_idx)[i].vm_id == list[i].vm_id,
        marked_idle(list, cpu_idx)[i].vcpuid == list[i].vcpuid,
        marked_idle(list, cpu_idx)[i].start_reason == list[i].start_reason,
{
}

} // verus!

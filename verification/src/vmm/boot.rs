//! Bringing up the machines and giving the cores something to run.

use vstd::prelude::*;

use crate::arch::start::is_boot_core;
use crate::platform::Platform;

verus! {

/// A step of bringing up the machines.
#[derive(Clone, Copy, PartialEq, Eq, Structural, Debug)]
pub enum VmInitAction {
    /// Prepare the configuration of the first machine.
    MvmConfigInit,
    /// Add the machine with this number.
    InitGvm(usize),
    /// Use the compiled-in configuration of machine 1 for a GICv2.
    InitTmpConfigForVm1,
    /// Use the compiled-in configuration of machine 1 for a GICv3.
    InitGicv3ConfigForVm1,
}

/// What core `cpu_id` does to bring up the machines.
pub open spec fn vm_init_actions(platform: Platform, cpu_id: usize) -> Seq<VmInitAction> {
    let first = seq![VmInitAction::MvmConfigInit, VmInitAction::InitGvm(0)];
    let second = seq![
        if platform.gicv3 {
            VmInitAction::InitGicv3ConfigForVm1
        } else {
            VmInitAction::InitTmpConfigForVm1
        },
        VmInitAction::InitGvm(1),
    ];
    if cpu_id != 0 {
        Seq::empty()
    } else if platform.static_config {
        first + second
    } else {
        first
    }
}

/// What core `cpu_id` does to bring up the machines: all of it on the boot
/// core, nothing on any other.
pub fn vm_init(platform: &Platform, cpu_id: usize) -> (r: Vec<VmInitAction>)
    ensures
        r@ == vm_init_actions(*platform, cpu_id),
{
    let mut r: Vec<VmInitAction> = Vec::new();
    if is_boot_core(cpu_id) {
        r.push(VmInitAction::MvmConfigInit);
        r.push(VmInitAction::InitGvm(0));
        if platform.static_config {
            if platform.gicv3 {
                r.push(VmInitAction::InitGicv3ConfigForVm1);
            } else {
                r.push(VmInitAction::InitTmpConfigForVm1);
            }
            r.push(VmInitAction::InitGvm(1));
        }
    }
    assert(r@ =~= vm_init_actions(*platform, cpu_id));
    r
}

/// What a core does once the machines are there.
#[derive(Clone, Copy, PartialEq, Eq, Structural, Debug)]
pub enum BootAction {
    /// Find out the number of the virtual core that is current; then
    /// [`boot_active_vcpu`] goes on.
    AskActiveVcpu,
    /// Run the virtual core that is current, with or without announcing it.
    VcpuRun { announce: bool },
    /// Go idle.
    CpuIdle,
}

/// What a core does first once the machines are there: if virtual cores have
/// been given to it, it looks at the current one, otherwise it goes idle.
pub open spec fn boot_first(assigned: bool) -> BootAction {
    if assigned {
        BootAction::AskActiveVcpu
    } else {
        BootAction::CpuIdle
    }
}

/// What a core does whose current virtual core has this number: it runs the
/// first virtual core of a machine, and goes idle with any other.
pub open spec fn boot_second(active_vcpu_id: usize) -> BootAction {
    if active_vcpu_id == 0 {
        BootAction::VcpuRun { announce: false }
    } else {
        BootAction::CpuIdle
    }
}

/// What a core does first once the machines are there; `assigned` says whether
/// virtual cores have been given to it.
pub fn vmm_boot(assigned: bool) -> (r: BootAction)
    ensures
        r == boot_first(assigned),
{
    if assigned {
        BootAction::AskActiveVcpu
    } else {
        BootAction::CpuIdle
    }
}

/// Goes on with [`BootAction::AskActiveVcpu`].
pub fn boot_active_vcpu(active_vcpu_id: usize) -> (r: BootAction)
    ensures
        r == boot_second(active_vcpu_id),
{
    if active_vcpu_id == 0 {
        BootAction::VcpuRun { announce: false }
    } else {
        BootAction::CpuIdle
    }
}

/// What a core ends up doing; the number of the current virtual core is looked
/// at only where it has been asked for.
pub open spec fn boot_outcome(assigned: bool, active_vcpu_id: usize) -> BootAction {
    match boot_first(assigned) {
        BootAction::AskActiveVcpu => boot_second(active_vcpu_id),
        action => action,
    }
}

/// A core runs its current virtual core exactly if it has one and that is the
/// first of its machine, and goes idle otherwise. It asks for the number of
/// the current one exactly if virtual cores have been given to it.
pub proof fn boot_runs_or_idles(assigned: bool, active_vcpu_id: usize)
    ensures
        boot_first(assigned) == BootAction::AskActiveVcpu <==> assigned,
        boot_outcome(assigned, active_vcpu_id) == (BootAction::VcpuRun { announce: false }) <==>
            assigned && active_vcpu_id == 0,
        boot_outcome(assigned, active_vcpu_id) == BootAction::CpuIdle <==> !(assigned
            && active_vcpu_id == 0),
{
}

/// The boot core configures and adds the first machine, and the second one too
/// where its configuration is compiled in, each configuration before its
/// machine; no other core does anything.
pub proof fn boot_core_brings_up_the_machines(platform: Platform, cpu_id: usize)
    ensures
        ({
            let actions = vm_init_actions(platform, cpu_id);
            &&& cpu_id != 0 ==> actions.len() == 0
            &&& cpu_id == 0 ==> actions[0] == VmInitAction::MvmConfigInit && actions[1]
                == VmInitAction::InitGvm(0)
            &&& cpu_id == 0 && !platform.static_config ==> actions.len() == 2
            &&& cpu_id == 0 && platform.static_config ==> actions.len() == 4 && actions[3]
                == VmInitAction::InitGvm(1)
            &&& cpu_id == 0 && platform.static_config && platform.gicv3 ==> actions[2]
                == VmInitAction::InitGicv3ConfigForVm1
            &&& cpu_id == 0 && platform.static_config && !platform.gicv3 ==> actions[2]
                == VmInitAction::InitTmpConfigForVm1
        }),
{
}

} // verus!

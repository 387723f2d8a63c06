//! Giving the virtual cores of a machine to the physical cores.

use vstd::prelude::*;

use crate::kernel::ipi::{IpiInnerMsg, IpiMessage, IpiType, IpiVmmPercoreMsg, VmmPercoreEvent};
use crate::kernel::vm::{Vcpu, Vm};

verus! {

/// How a virtual core gets to its physical core.
#[derive(Clone, Copy, PartialEq, Eq, Structural, Debug)]
pub enum CoreInitAction {
    /// Send this message to this core. That it cannot be sent is not an error.
    SendIpi { target: usize, message: IpiMessage },
    /// It lives on the executing core, which takes it: see
    /// [`vmm_assign_vcpu_percore`].
    AssignHere,
}

/// The message that has a core take its virtual core of a machine.
pub open spec fn assign_message(vm_id: usize) -> IpiMessage {
    IpiMessage {
        ipi_type: IpiType::IpiTVMM,
        ipi_message: IpiInnerMsg::VmmPercoreMsg(
            IpiVmmPercoreMsg { vm_id, event: VmmPercoreEvent::VmmAssignCpu },
        ),
    }
}

/// How a virtual core gets to its physical core, seen from core `cpu_id`.
pub open spec fn core_init_action(vm_id: usize, cpu_id: usize, vcpu: Vcpu) -> CoreInitAction {
    if vcpu.phys_id != cpu_id {
        CoreInitAction::SendIpi { target: vcpu.phys_id, message: assign_message(vm_id) }
    } else {
        CoreInitAction::AssignHere
    }
}

/// How the virtual cores of a machine get to their physical cores, one after
/// another, seen from core `cpu_id`.
pub fn vmm_init_cpu(vm: &Vm, cpu_id: usize) -> (r: Vec<CoreInitAction>)
    ensures
        r@ == Seq::new(
            vm.vcpu_list@.len(),
            |i: int| core_init_action(vm.id, cpu_id, vm.vcpu_list@[i]),
        ),
{
    let mut r: Vec<CoreInitAction> = Vec::new();
    let n: usize = vm.vcpu_list.len();
    let mut i: usize = 0;
    while i < n
        invariant
            i <= n,
            n == vm.vcpu_list@.len(),
            r@ == Seq::new(
                i as nat,
                |k: int| core_init_action(vm.id, cpu_id, vm.vcpu_list@[k]),
            ),
        decreases n - i,
    {
        let target: usize = vm.vcpu_list[i].phys_id;
        if target != cpu_id {
            let message = IpiMessage {
                ipi_type: IpiType::IpiTVMM,
                ipi_message: IpiInnerMsg::VmmPercoreMsg(
                    IpiVmmPercoreMsg { vm_id: vm.id, event: VmmPercoreEvent::VmmAssignCpu },
                ),
            };
            r.push(CoreInitAction::SendIpi { target, message });
        } else {
            r.push(CoreInitAction::AssignHere);
        }
        i = i + 1;
        assert(r@ =~= Seq::new(
            i as nat,
            |k: int| core_init_action(vm.id, cpu_id, vm.vcpu_list@[k]),
        ));
    }
    r
}

/// `vcpu` is the first virtual core of the list that lives on core `cpu_id`.
pub open spec fn is_first_on_core(vcpus: Seq<Vcpu>, cpu_id: usize, vcpu: Vcpu) -> bool {
    exists|i: int|
        0 <= i < vcpus.len() && #[trigger] vcpus[i] == vcpu && vcpu.phys_id == cpu_id && forall|
            k: int,
        |
            0 <= k < i ==> #[trigger] vcpus[k].phys_id != cpu_id
}

/// The virtual core of a machine that core `cpu_id` adds to its own: the first
/// that lives there, if there is one.
pub fn vmm_assign_vcpu_percore(vm: &Vm, cpu_id: usize) -> (r: Option<Vcpu>)
    ensures
        match r {
            Some(vcpu) => is_first_on_core(vm.vcpu_list@, cpu_id, vcpu),
            None => forall|i: int|
                0 <= i < vm.vcpu_list@.len() ==> #[trigger] vm.vcpu_list@[i].phys_id != cpu_id,
        },
{
    let n: usize = vm.vcpu_list.len();
    let mut i: usize = 0;
    while i < n
        invariant
            i <= n,
            n == vm.vcpu_list@.len(),
            forall|k: int| 0 <= k < i ==> #[trigger] vm.vcpu_list@[k].phys_id != cpu_id,
        decreases n - i,
    {
        let vcpu: Vcpu = vm.vcpu_list[i];
        if vcpu.phys_id == cpu_id {
            assert(vm.vcpu_list@[i as int] == vcpu);
            return Some(vcpu);
        }
        i = i + 1;
    }
    None
}

/// The virtual core that a core adds to its own is determined by the list.
pub proof fn first_on_core_is_unique(vcpus: Seq<Vcpu>, cpu_id: usize, a: Vcpu, b: Vcpu)
    requires
        is_first_on_core(vcpus, cpu_id, a),
        is_first_on_core(vcpus, cpu_id, b),
    ensures
        a == b,
{
    let i = choose|i: int|
        0 <= i < vcpus.len() && #[trigger] vcpus[i] == a && a.phys_id == cpu_id && forall|k: int|
            0 <= k < i ==> #[trigger] vcpus[k].phys_id != cpu_id;
    let j = choose|j: int|
        0 <= j < vcpus.len() && #[trigger] vcpus[j] == b && b.phys_id == cpu_id && forall|k: int|
            0 <= k < j ==> #[trigger] vcpus[k].phys_id != cpu_id;
    assert(vcpus[i].phys_id == cpu_id && vcpus[j].phys_id == cpu_id);
}

/// Every virtual core's physical core is told, by message or directly if it is
/// the executing core; and a core that is told has a virtual core to take.
pub proof fn told_core_has_a_vcpu(vm_id: usize, vcpus: Seq<Vcpu>, cpu_id: usize, i: int)
    requires
        0 <= i < vcpus.len(),
    ensures
        exists|vcpu: Vcpu| #[trigger] is_first_on_core(vcpus, vcpus[i].phys_id, vcpu),
        vcpus[i].phys_id != cpu_id ==> core_init_action(vm_id, cpu_id, vcpus[i])
            == (CoreInitAction::SendIpi {
            target: vcpus[i].phys_id,
            message: assign_message(vm_id),
        }),
        vcpus[i].phys_id == cpu_id ==> core_init_action(vm_id, cpu_id, vcpus[i])
            == CoreInitAction::AssignHere,
{
    first_on_core_exists(vcpus, vcpus[i].phys_id, i);
}

/// If some virtual core lives on a core, there is a first one.
proof fn first_on_core_exists(vcpus: Seq<Vcpu>, cpu_id: usize, i: int)
    requires
        0 <= i < vcpus.len(),
        vcpus[i].phys_id == cpu_id,
    ensures
        exists|vcpu: Vcpu| #[trigger] is_first_on_core(vcpus, cpu_id, vcpu),
    decreases i,
{
    if forall|k: int| 0 <= k < i ==> #[trigger] vcpus[k].phys_id != cpu_id {
        assert(is_first_on_core(vcpus, cpu_id, vcpus[i]));
    } else {
        let k = choose|k: int| 0 <= k < i && #[trigger] vcpus[k].phys_id == cpu_id;
        first_on_core_exists(vcpus, cpu_id, k);
    }
}

/// The message that hands out virtual cores names the machine, and is one about
/// machines.
pub proof fn assignment_names_the_machine(vm_id: usize)
    ensures
        assign_message(vm_id).ipi_type == IpiType::IpiTVMM,
        assign_message(vm_id).ipi_message matches IpiInnerMsg::VmmPercoreMsg(m) && m.vm_id == vm_id
            && m.event == VmmPercoreEvent::VmmAssignCpu,
{
}

/// A core takes the virtual core that comes first among those that live on it,
/// and no other.
pub proof fn core_takes_its_first(vcpus: Seq<Vcpu>, cpu_id: usize, i: int, vcpu: Vcpu)
    requires
        0 <= i < vcpus.len(),
        vcpus[i].phys_id == cpu_id,
        forall|k: int| 0 <= k < i ==> (#[trigger] vcpus[k]).phys_id != cpu_id,
    ensures
        is_first_on_core(vcpus, cpu_id, vcpu) <==> vcpu == vcpus[i],
{
    assert(is_first_on_core(vcpus, cpu_id, vcpus[i]));
    if is_first_on_core(vcpus, cpu_id, vcpu) {
        first_on_core_is_unique(vcpus, cpu_id, vcpu, vcpus[i]);
    }
}

} // verus!

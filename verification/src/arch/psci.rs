//! Starting virtual cores.
//!
//! A guest asks for a core with [`psci_guest_cpu_on`], the hypervisor itself
//! with [`psci_vm_maincpu_on`]. A physical core that has never run is powered
//! up and finds its orders in its [`CpuIf`] record ([`guest_cpu_on`]); one that
//! is up gets a message ([`psci_ipi_handler`]).

use vstd::prelude::*;

use crate::arch::power::{power_arch_cpu_on, SmcCall};
use crate::arch::smc::PSCI_CPU_ON_64;
use crate::kernel::cpu::{CoreAction, Cpu, CpuIf, CpuState, StartReason};
use crate::kernel::ipi::{IpiInnerMsg, IpiMessage, IpiPowerMessage, IpiType, PowerEvent};
use crate::kernel::vm::{Vcpu, VcpuState, Vm};
use crate::platform::Platform;

verus! {

/// Status of a start request that cannot be carried out.
pub const PSCI_E_INVALID_PARAMETERS: usize = usize::MAX - 1;

/// What a start request comes down to.
#[derive(Clone, Copy, PartialEq, Eq, Structural, Debug)]
pub enum CpuOnAction {
    /// Refuse it: this is the status.
    Refuse(usize),
    /// Power up this core; the firmware gives the status.
    PowerOn { cpu_idx: usize },
    /// Send this message to this core.
    SendIpi { target: usize, message: IpiMessage },
}

/// What came of a [`CpuOnAction`].
#[derive(Clone, Copy, PartialEq, Eq, Structural, Debug)]
pub enum CpuOnReply {
    Refused(usize),
    /// Status the firmware gave.
    Firmware(usize),
    /// Whether the message was sent.
    Sent(bool),
}

/// The virtual core that a machine wants started.
#[derive(Clone, Copy, PartialEq, Eq, Structural, Debug)]
pub struct CpuOnRequest {
    pub vcpu_id: usize,
    /// The physical core it lives on, if it has one.
    pub pcpu: Option<usize>,
    /// Address at which it starts.
    pub entry: usize,
    /// Value it finds in its first register.
    pub ctx: usize,
}

/// A request for a virtual core that the machine has, and that lives on a
/// physical core.
pub open spec fn acceptable(vm: Vm, request: CpuOnRequest) -> bool {
    request.vcpu_id < vm.config.cpu_num && request.pcpu.is_some()
}

/// A power message with its type.
pub open spec fn power_message(
    vm_id: usize,
    vcpuid: usize,
    event: PowerEvent,
    entry: usize,
    ctx: usize,
) -> IpiMessage {
    IpiMessage {
        ipi_type: IpiType::IpiTPower,
        ipi_message: IpiInnerMsg::Power(
            IpiPowerMessage { src: vm_id, vcpuid, event, entry, context: ctx },
        ),
    }
}

/// The record that a start request leaves for a core that is down.
pub open spec fn start_record(vm_id: usize, request: CpuOnRequest, reason: StartReason) -> CpuIf {
    CpuIf {
        entry: request.entry as u64,
        ctx: request.ctx as u64,
        vm_id,
        state_for_start: CpuState::CpuIdle,
        vcpuid: request.vcpu_id,
        start_reason: reason,
    }
}

/// What a start request comes down to where cores stay down until needed.
pub open spec fn on_demand_action(
    list: Seq<CpuIf>,
    vm: Vm,
    request: CpuOnRequest,
) -> CpuOnAction {
    if !acceptable(vm, request) {
        CpuOnAction::Refuse(PSCI_E_INVALID_PARAMETERS)
    } else if list[request.pcpu.unwrap() as int].state_for_start == CpuState::CpuInv {
        CpuOnAction::PowerOn { cpu_idx: request.pcpu.unwrap() }
    } else {
        CpuOnAction::SendIpi {
            target: request.pcpu.unwrap(),
            message: power_message(
                vm.id,
                request.vcpu_id,
                PowerEvent::PsciIpiVcpuAssignAndCpuOn,
                request.entry,
                request.ctx,
            ),
        }
    }
}

/// The records of the cores after such a request.
pub open spec fn on_demand_records(
    list: Seq<CpuIf>,
    vm: Vm,
    request: CpuOnRequest,
    reason: StartReason,
) -> Seq<CpuIf> {
    if on_demand_action(list, vm, request) is PowerOn {
        list.update(request.pcpu.unwrap() as int, start_record(vm.id, request, reason))
    } else {
        list
    }
}

/// What a start request comes down to where every core is up already.
pub open spec fn always_up_action(vm: Vm, request: CpuOnRequest) -> CpuOnAction {
    if !acceptable(vm, request) {
        CpuOnAction::Refuse(PSCI_E_INVALID_PARAMETERS)
    } else {
        CpuOnAction::SendIpi {
            target: request.pcpu.unwrap(),
            message: power_message(
                vm.id,
                0,
                PowerEvent::PsciIpiCpuOn,
                request.entry,
                request.ctx,
            ),
        }
    }
}

/// A start request where cores stay down until needed.
fn cpu_on_demand(
    cpu_if_list: &mut Vec<CpuIf>,
    vm: &Vm,
    request: CpuOnRequest,
    reason: StartReason,
) -> (r: CpuOnAction)
    requires
        acceptable(*vm, request) ==> request.pcpu.unwrap() < old(cpu_if_list).len(),
    ensures
        r == on_demand_action(old(cpu_if_list)@, *vm, request),
        final(cpu_if_list)@ == on_demand_records(old(cpu_if_list)@, *vm, request, reason),
{
    if request.vcpu_id >= vm.config.cpu_num {
        return CpuOnAction::Refuse(PSCI_E_INVALID_PARAMETERS);
    }
    match request.pcpu {
        None => CpuOnAction::Refuse(PSCI_E_INVALID_PARAMETERS),
        Some(cpu_idx) => {
            if cpu_if_list[cpu_idx].state_for_start == CpuState::CpuInv {
                let cpu_if = CpuIf {
                    entry: request.entry as u64,
                    ctx: request.ctx as u64,
                    vm_id: vm.id,
                    state_for_start: CpuState::CpuIdle,
                    vcpuid: request.vcpu_id,
                    start_reason: reason,
                };
                cpu_if_list.set(cpu_idx, cpu_if);
                CpuOnAction::PowerOn { cpu_idx }
            } else {
                let message = IpiMessage {
                    ipi_type: IpiType::IpiTPower,
                    ipi_message: IpiInnerMsg::Power(
                        IpiPowerMessage {
                            src: vm.id,
                            vcpuid: request.vcpu_id,
                            event: PowerEvent::PsciIpiVcpuAssignAndCpuOn,
                            entry: request.entry,
                            context: request.ctx,
                        },
                    ),
                };
                CpuOnAction::SendIpi { target: cpu_idx, message }
            }
        },
    }
}

/// A guest asks for one of the virtual cores of its machine `vm`.
///
/// [`cpu_on_status`] gives the status that the guest gets.
pub fn psci_guest_cpu_on(
    platform: &Platform,
    cpu_if_list: &mut Vec<CpuIf>,
    vm: &Vm,
    request: CpuOnRequest,
) -> (r: CpuOnAction)
    requires
        platform.secondary_start && acceptable(*vm, request) ==> request.pcpu.unwrap() < old(
            cpu_if_list,
        ).len(),
    ensures
        platform.secondary_start ==> r == on_demand_action(old(cpu_if_list)@, *vm, request)
            && final(cpu_if_list)@ == on_demand_records(
            old(cpu_if_list)@,
            *vm,
            request,
            StartReason::SecondaryCore,
        ),
        !platform.secondary_start ==> r == always_up_action(*vm, request)
            && final(cpu_if_list)@ == old(cpu_if_list)@,
{
    if platform.secondary_start {
        return cpu_on_demand(cpu_if_list, vm, request, StartReason::SecondaryCore);
    }
    if request.vcpu_id >= vm.config.cpu_num {
        return CpuOnAction::Refuse(PSCI_E_INVALID_PARAMETERS);
    }
    match request.pcpu {
        None => CpuOnAction::Refuse(PSCI_E_INVALID_PARAMETERS),
        Some(target) => {
            let message = IpiMessage {
                ipi_type: IpiType::IpiTPower,
                ipi_message: IpiInnerMsg::Power(
                    IpiPowerMessage {
                        src: vm.id,
                        vcpuid: 0,
                        event: PowerEvent::PsciIpiCpuOn,
                        entry: request.entry,
                        context: request.ctx,
                    },
                ),
            };
            CpuOnAction::SendIpi { target, message }
        },
    }
}

/// The hypervisor starts the first virtual core of machine `vm`.
pub fn psci_vm_maincpu_on(
    cpu_if_list: &mut Vec<CpuIf>,
    vm: &Vm,
    request: CpuOnRequest,
) -> (r: CpuOnAction)
    requires
        acceptable(*vm, request) ==> request.pcpu.unwrap() < old(cpu_if_list).len(),
    ensures
        r == on_demand_action(old(cpu_if_list)@, *vm, request),
        final(cpu_if_list)@ == on_demand_records(
            old(cpu_if_list)@,
            *vm,
            request,
            StartReason::MainCore,
        ),
{
    cpu_on_demand(cpu_if_list, vm, request, StartReason::MainCore)
}

/// Carries out [`CpuOnAction::PowerOn`]: core `cpu_idx`, whose affinity is
/// `mpidr`, starts in the hypervisor at `entry_point` and is told its own
/// number. `mpidr_idx` is the number that the board gives for `mpidr`.
pub fn power_on_core(
    cpu_if_list: &mut Vec<CpuIf>,
    cpu_idx: usize,
    mpidr: usize,
    mpidr_idx: usize,
    entry_point: usize,
) -> (r: SmcCall)
    ensures
        final(cpu_if_list)@ == crate::arch::power::marked_idle(old(cpu_if_list)@, mpidr_idx),
        r == (SmcCall { fid: PSCI_CPU_ON_64, x1: mpidr, x2: entry_point, x3: cpu_idx }),
{
    power_arch_cpu_on(cpu_if_list, mpidr_idx, mpidr, entry_point, cpu_idx)
}

/// The status of a start request.
pub open spec fn spec_cpu_on_status(reply: CpuOnReply) -> usize {
    match reply {
        CpuOnReply::Refused(status) => status,
        CpuOnReply::Firmware(status) => status,
        CpuOnReply::Sent(true) => 0,
        CpuOnReply::Sent(false) => PSCI_E_INVALID_PARAMETERS,
    }
}

/// The status of a start request. A message that cannot be sent counts as a
/// refusal.
pub fn cpu_on_status(reply: CpuOnReply) -> (r: usize)
    ensures
        r == spec_cpu_on_status(reply),
{
    match reply {
        CpuOnReply::Refused(status) => status,
        CpuOnReply::Firmware(status) => status,
        CpuOnReply::Sent(sent) => if sent {
            0
        } else {
            PSCI_E_INVALID_PARAMETERS
        },
    }
}

/// What starting a virtual core takes, in this order: it starts at `entry`
/// with `ctx` in its first register.
pub open spec fn vcpu_on_actions(
    platform: Platform,
    vcpu: Vcpu,
    entry: usize,
    ctx: usize,
) -> Seq<CoreAction> {
    let wake = seq![
        CoreAction::ResetContext(vcpu),
        CoreAction::SetGpr(vcpu, 0, ctx),
        CoreAction::SetElr(vcpu, entry),
        CoreAction::Wakeup(vcpu),
        CoreAction::DoSchedule,
    ];
    if platform.secondary_start {
        wake.push(CoreAction::EnterVm)
    } else {
        wake
    }
}

/// Starts a virtual core on the executing core, which is the one it lives on.
pub fn psci_vcpu_on(
    platform: &Platform,
    cpu: &mut Cpu,
    vcpu: Vcpu,
    entry: usize,
    ctx: usize,
) -> (r: Vec<CoreAction>)
    requires
        vcpu.phys_id == old(cpu).id,
    ensures
        *final(cpu) == (Cpu { cpu_state: CpuState::CpuRun, ..*old(cpu) }),
        r@ == vcpu_on_actions(*platform, vcpu, entry, ctx),
{
    cpu.cpu_state = CpuState::CpuRun;
    let mut r = vec![
        CoreAction::ResetContext(vcpu),
        CoreAction::SetGpr(vcpu, 0, ctx),
        CoreAction::SetElr(vcpu, entry),
        CoreAction::Wakeup(vcpu),
        CoreAction::DoSchedule,
    ];
    if platform.secondary_start {
        r.push(CoreAction::EnterVm);
    }
    assert(r@ =~= vcpu_on_actions(*platform, vcpu, entry, ctx));
    r
}

/// Names a virtual core by its machine and its number there.
#[derive(Clone, Copy, PartialEq, Eq, Structural, Debug)]
pub struct VcpuName {
    pub vm_id: usize,
    pub vcpuid: usize,
}

/// What a power message asks of the core that receives it, before anything
/// else.
#[derive(Clone, Copy, PartialEq, Eq, Structural, Debug)]
pub enum PsciIpiStart {
    /// Add the virtual core, if one is named, to the core's own; then look up
    /// the core's virtual core of machine `vm_id`.
    Lookup { assign: Option<VcpuName>, vm_id: usize },
    /// Not a power message: stop with an error.
    Halt,
}

/// What a power message asks for once its virtual core has been looked up.
#[derive(PartialEq, Eq, Debug)]
pub enum PsciIpiOutcome {
    /// Nothing to do.
    Nothing,
    /// Carry these out in order.
    Run(Vec<CoreAction>),
    /// Prepare the virtual core that is running for another boot of its
    /// machine.
    ResetActive,
    /// Stop with an error.
    Halt(PsciIpiFault),
}

/// Errors that a power message can end in.
#[derive(Clone, Copy, PartialEq, Eq, Structural, Debug)]
pub enum PsciIpiFault {
    /// The virtual core lives on another physical core.
    WrongCore,
    /// Switching a virtual core off is not implemented.
    CpuOff,
}

/// What a message asks of the core that receives it.
pub open spec fn ipi_start(msg: IpiMessage) -> PsciIpiStart {
    match msg.ipi_message {
        IpiInnerMsg::Power(m) => PsciIpiStart::Lookup {
            assign: if m.event == PowerEvent::PsciIpiVcpuAssignAndCpuOn {
                Some(VcpuName { vm_id: m.src, vcpuid: m.vcpuid })
            } else {
                None
            },
            vm_id: m.src,
        },
        _ => PsciIpiStart::Halt,
    }
}

/// Receives a message about the power state of a virtual core. Then
/// [`psci_ipi_target`] goes on with what the lookup gave.
pub fn psci_ipi_handler(msg: &IpiMessage) -> (r: PsciIpiStart)
    ensures
        r == ipi_start(*msg),
{
    match msg.ipi_message {
        IpiInnerMsg::Power(m) => {
            let assign = match m.event {
                PowerEvent::PsciIpiVcpuAssignAndCpuOn => Some(
                    VcpuName { vm_id: m.src, vcpuid: m.vcpuid },
                ),
                _ => None,
            };
            PsciIpiStart::Lookup { assign, vm_id: m.src }
        },
        _ => PsciIpiStart::Halt,
    }
}

/// The core's virtual core is to be started: it is there, is not running yet,
/// and lives here.
pub open spec fn ipi_starts(cpu: Cpu, m: IpiPowerMessage, target: Option<Vcpu>) -> bool {
    m.event == PowerEvent::PsciIpiCpuOn && target.is_some() && target.unwrap().state
        == VcpuState::Invalid && target.unwrap().phys_id == cpu.id
}

/// The outcome of a power message.
pub open spec fn ipi_outcome_ok(
    platform: Platform,
    cpu: Cpu,
    m: IpiPowerMessage,
    target: Option<Vcpu>,
    outcome: PsciIpiOutcome,
) -> bool {
    match target {
        None => outcome is Nothing,
        Some(vcpu) => match m.event {
            PowerEvent::PsciIpiCpuOn => if vcpu.state != VcpuState::Invalid {
                outcome is Nothing
            } else if vcpu.phys_id != cpu.id {
                outcome == PsciIpiOutcome::Halt(PsciIpiFault::WrongCore)
            } else {
                outcome matches PsciIpiOutcome::Run(actions) && actions@ == vcpu_on_actions(
                    platform,
                    vcpu,
                    m.entry,
                    m.context,
                )
            },
            PowerEvent::PsciIpiCpuOff => outcome == PsciIpiOutcome::Halt(PsciIpiFault::CpuOff),
            PowerEvent::PsciIpiCpuReset => outcome is ResetActive,
            PowerEvent::PsciIpiVcpuAssignAndCpuOn => outcome is Nothing,
        },
    }
}

/// Goes on with a power message: `target` is the executing core's virtual core
/// of the machine that the message is about, if it has one.
pub fn psci_ipi_target(
    platform: &Platform,
    cpu: &mut Cpu,
    m: &IpiPowerMessage,
    target: Option<Vcpu>,
) -> (r: PsciIpiOutcome)
    ensures
        ipi_outcome_ok(*platform, *old(cpu), *m, target, r),
        *final(cpu) == if ipi_starts(*old(cpu), *m, target) {
            Cpu { cpu_state: CpuState::CpuRun, ..*old(cpu) }
        } else {
            *old(cpu)
        },
{
    let vcpu = match target {
        None => {
            return PsciIpiOutcome::Nothing;
        },
        Some(vcpu) => vcpu,
    };
    match m.event {
        PowerEvent::PsciIpiCpuOn => {
            if vcpu.state != VcpuState::Invalid {
                PsciIpiOutcome::Nothing
            } else if vcpu.phys_id != cpu.id {
                PsciIpiOutcome::Halt(PsciIpiFault::WrongCore)
            } else {
                PsciIpiOutcome::Run(psci_vcpu_on(platform, cpu, vcpu, m.entry, m.context))
            }
        },
        PowerEvent::PsciIpiCpuOff => PsciIpiOutcome::Halt(PsciIpiFault::CpuOff),
        PowerEvent::PsciIpiCpuReset => PsciIpiOutcome::ResetActive,
        PowerEvent::PsciIpiVcpuAssignAndCpuOn => PsciIpiOutcome::Nothing,
    }
}

/// The orders that a core finds when it comes up: add virtual core `vcpuid` of
/// machine `vm_id` to the core's own, then go on.
#[derive(Clone, Copy, PartialEq, Eq, Structural, Debug)]
pub struct GuestStart {
    pub vm_id: usize,
    pub vcpuid: usize,
    pub next: GuestStartNext,
}

/// How a core that comes up goes on.
#[derive(Clone, Copy, PartialEq, Eq, Structural, Debug)]
pub enum GuestStartNext {
    /// Boot the machine.
    BootVm,
    /// Look up the core's virtual core of the machine and start it at `entry`
    /// with `ctx`.
    StartVcpu { entry: usize, ctx: usize },
    /// Nobody asked for the core: stop with an error.
    Halt,
}

/// The orders in a core's record.
pub open spec fn start_orders(cpu_if: CpuIf) -> GuestStart {
    GuestStart {
        vm_id: cpu_if.vm_id,
        vcpuid: cpu_if.vcpuid,
        next: match cpu_if.start_reason {
            StartReason::MainCore => GuestStartNext::BootVm,
            StartReason::SecondaryCore => GuestStartNext::StartVcpu {
                entry: cpu_if.entry as usize,
                ctx: cpu_if.ctx as usize,
            },
            StartReason::NotStarted => GuestStartNext::Halt,
        },
    }
}

/// Core `cpu_id` has come up and reads its orders. Where every core is up from
/// the beginning there are none.
pub fn guest_cpu_on(platform: &Platform, cpu_if_list: &Vec<CpuIf>, cpu_id: usize) -> (r: Option<
    GuestStart,
>)
    requires
        platform.secondary_start ==> cpu_id < cpu_if_list.len(),
    ensures
        r == if platform.secondary_start {
            Some(start_orders(cpu_if_list[cpu_id as int]))
        } else {
            None
        },
{
    if !platform.secondary_start {
        return None;
    }
    let cpu_if = cpu_if_list[cpu_id];
    let next = match cpu_if.start_reason {
        StartReason::MainCore => GuestStartNext::BootVm,
        StartReason::SecondaryCore => GuestStartNext::StartVcpu {
            entry: cpu_if.entry as usize,
            ctx: cpu_if.ctx as usize,
        },
        StartReason::NotStarted => GuestStartNext::Halt,
    };
    Some(GuestStart { vm_id: cpu_if.vm_id, vcpuid: cpu_if.vcpuid, next })
}

/// Goes on with [`GuestStartNext::StartVcpu`]: `target` is the executing core's
/// virtual core of the machine, if it has one. Without one the core is left as
/// it is.
pub fn guest_start_target(
    platform: &Platform,
    cpu: &mut Cpu,
    target: Option<Vcpu>,
    entry: usize,
    ctx: usize,
) -> (r: PsciIpiOutcome)
    ensures
        match target {
            None => r is Nothing && *final(cpu) == *old(cpu),
            Some(vcpu) => if vcpu.phys_id != old(cpu).id {
                r == PsciIpiOutcome::Halt(PsciIpiFault::WrongCore) && *final(cpu) == *old(cpu)
            } else {
                &&& *final(cpu) == (Cpu { cpu_state: CpuState::CpuRun, ..*old(cpu) })
                &&& r matches PsciIpiOutcome::Run(actions)
                &&& actions@ == vcpu_on_actions(*platform, vcpu, entry, ctx)
            },
        },
{
    match target {
        None => PsciIpiOutcome::Nothing,
        Some(vcpu) => {
            if vcpu.phys_id != cpu.id {
                PsciIpiOutcome::Halt(PsciIpiFault::WrongCore)
            } else {
                PsciIpiOutcome::Run(psci_vcpu_on(platform, cpu, vcpu, entry, ctx))
            }
        },
    }
}

/// A core that is powered up for a request finds exactly that request in its
/// record: the machine and the virtual core, and, for a core that joins a
/// running machine, the guest's address and argument. Marking any core idle on
/// the way to the firmware does not disturb it.
pub proof fn orders_reach_the_core(
    list: Seq<CpuIf>,
    vm: Vm,
    request: CpuOnRequest,
    reason: StartReason,
    marked: usize,
)
    requires
        acceptable(vm, request),
        request.pcpu.unwrap() < list.len(),
        on_demand_action(list, vm, request) is PowerOn,
    ensures
        ({
            let after = crate::arch::power::marked_idle(
                on_demand_records(list, vm, request, reason),
                marked,
            );
            let orders = start_orders(after[request.pcpu.unwrap() as int]);
            &&& orders.vm_id == vm.id
            &&& orders.vcpuid == request.vcpu_id
            &&& orders.next == match reason {
                StartReason::MainCore => GuestStartNext::BootVm,
                StartReason::SecondaryCore => GuestStartNext::StartVcpu {
                    entry: request.entry,
                    ctx: request.ctx,
                },
                StartReason::NotStarted => GuestStartNext::Halt,
            }
        }),
{
}

/// A request touches the record of no core but the one it is for.
pub proof fn other_cores_keep_their_orders(
    list: Seq<CpuIf>,
    vm: Vm,
    request: CpuOnRequest,
    reason: StartReason,
    other: int,
)
    requires
        acceptable(vm, request) ==> request.pcpu.unwrap() < list.len(),
        0 <= other < list.len(),
        request.pcpu != Some(other as usize),
        other <= usize::MAX,
    ensures
        on_demand_records(list, vm, request, reason).len() == list.len(),
        on_demand_records(list, vm, request, reason)[other] == list[other],
{
}

/// A request that is refused is answered with "invalid parameters" and leaves
/// every record as it was.
pub proof fn refused_request_changes_nothing(
    list: Seq<CpuIf>,
    vm: Vm,
    request: CpuOnRequest,
    reason: StartReason,
)
    requires
        request.vcpu_id >= vm.config.cpu_num || request.pcpu.is_none(),
    ensures
        on_demand_action(list, vm, request) == CpuOnAction::Refuse(PSCI_E_INVALID_PARAMETERS),
        always_up_action(vm, request) == CpuOnAction::Refuse(PSCI_E_INVALID_PARAMETERS),
        on_demand_records(list, vm, request, reason) == list,
{
}

/// A core is powered up once: after that, whoever asks for it and for
/// whichever machine, it is sent a message and its record stays.
pub proof fn core_is_powered_up_once(
    list: Seq<CpuIf>,
    vm: Vm,
    request: CpuOnRequest,
    reason: StartReason,
    marked: usize,
    later_vm: Vm,
    later: CpuOnRequest,
    later_reason: StartReason,
)
    requires
        acceptable(vm, request),
        request.pcpu.unwrap() < list.len(),
        on_demand_action(list, vm, request) is PowerOn,
        acceptable(later_vm, later),
        later.pcpu == request.pcpu,
    ensures
        ({
            let after = crate::arch::power::marked_idle(
                on_demand_records(list, vm, request, reason),
                marked,
            );
            &&& on_demand_action(after, later_vm, later) is SendIpi
            &&& on_demand_records(after, later_vm, later, later_reason) == after
        }),
{
}

/// No request and no power-up takes a core back to "never started".
pub proof fn started_cores_stay_started(
    list: Seq<CpuIf>,
    vm: Vm,
    request: CpuOnRequest,
    reason: StartReason,
    marked: usize,
    core: int,
)
    requires
        acceptable(vm, request) ==> request.pcpu.unwrap() < list.len(),
        0 <= core < list.len(),
        list[core].state_for_start != CpuState::CpuInv,
    ensures
        on_demand_records(list, vm, request, reason)[core].state_for_start != CpuState::CpuInv,
        crate::arch::power::marked_idle(list, marked)[core].state_for_start != CpuState::CpuInv,
{
}

/// Where every core is up already, the message of an accepted request starts
/// the virtual core that the receiving core finds for the machine, at the
/// address and with the argument that the guest gave.
pub proof fn message_starts_the_vcpu(
    platform: Platform,
    vm: Vm,
    request: CpuOnRequest,
    cpu: Cpu,
    vcpu: Vcpu,
    outcome: PsciIpiOutcome,
)
    requires
        acceptable(vm, request),
        vcpu.state == VcpuState::Invalid,
        vcpu.phys_id == cpu.id,
        always_up_action(vm, request) matches CpuOnAction::SendIpi { message, .. }
            && message.ipi_message matches IpiInnerMsg::Power(m) && ipi_outcome_ok(
            platform,
            cpu,
            m,
            Some(vcpu),
            outcome,
        ),
    ensures
        always_up_action(vm, request) matches CpuOnAction::SendIpi { target, message } && Some(
            target,
        ) == request.pcpu && ipi_start(message) == (PsciIpiStart::Lookup {
            assign: None,
            vm_id: vm.id,
        }),
        outcome matches PsciIpiOutcome::Run(actions) && actions@ == vcpu_on_actions(
            platform,
            vcpu,
            request.entry,
            request.ctx,
        ),
{
}

/// Where cores stay down until needed, the message that a core which is up gets
/// for an accepted request has it add the virtual core to its own, and do
/// nothing more.
pub proof fn message_adds_the_vcpu(
    platform: Platform,
    list: Seq<CpuIf>,
    vm: Vm,
    request: CpuOnRequest,
    cpu: Cpu,
    target: Option<Vcpu>,
    outcome: PsciIpiOutcome,
)
    requires
        acceptable(vm, request),
        on_demand_action(list, vm, request) matches CpuOnAction::SendIpi { message, .. }
            && message.ipi_message matches IpiInnerMsg::Power(m) && ipi_outcome_ok(
            platform,
            cpu,
            m,
            target,
            outcome,
        ),
    ensures
        on_demand_action(list, vm, request) matches CpuOnAction::SendIpi { target, message }
            && Some(target) == request.pcpu && ipi_start(message) == (PsciIpiStart::Lookup {
            assign: Some(VcpuName { vm_id: vm.id, vcpuid: request.vcpu_id }),
            vm_id: vm.id,
        }),
        outcome is Nothing,
{
}

/// The message that goes out when a machine is shut down has every core that
/// has a virtual core of the machine prepare for another boot; a core that has
/// none does nothing.
pub proof fn shutdown_resets_the_cores(
    platform: Platform,
    vm_id: usize,
    cpu: Cpu,
    target: Option<Vcpu>,
    outcome: PsciIpiOutcome,
)
    requires
        crate::arch::power::reset_message(vm_id).ipi_message matches IpiInnerMsg::Power(m)
            && ipi_outcome_ok(platform, cpu, m, target, outcome),
    ensures
        ipi_start(crate::arch::power::reset_message(vm_id)) == (PsciIpiStart::Lookup {
            assign: None,
            vm_id,
        }),
        target.is_some() ==> outcome is ResetActive,
        target.is_none() ==> outcome is Nothing,
{
}

/// For a virtual core that the machine has, on a physical core `p`, what is
/// done depends on the record of `p` alone: a core that was never started is
/// powered up, any other is sent a message that names the machine, the virtual
/// core, the address and the argument.
pub proof fn record_decides_how_a_core_is_started(
    list: Seq<CpuIf>,
    vm: Vm,
    request: CpuOnRequest,
    p: usize,
)
    requires
        request.vcpu_id < vm.config.cpu_num,
        request.pcpu == Some(p),
        p < list.len(),
    ensures
        list[p as int].state_for_start == CpuState::CpuInv ==> on_demand_action(list, vm, request)
            == (CpuOnAction::PowerOn { cpu_idx: p }),
        list[p as int].state_for_start != CpuState::CpuInv ==> on_demand_action(list, vm, request)
            == (CpuOnAction::SendIpi {
            target: p,
            message: IpiMessage {
                ipi_type: IpiType::IpiTPower,
                ipi_message: IpiInnerMsg::Power(
                    IpiPowerMessage {
                        src: vm.id,
                        vcpuid: request.vcpu_id,
                        event: PowerEvent::PsciIpiVcpuAssignAndCpuOn,
                        entry: request.entry,
                        context: request.ctx,
                    },
                ),
            },
        }),
{
}

/// A core that is powered up has the request in its record, and no other record
/// changes; where nothing is powered up no record changes at all.
pub proof fn record_holds_the_request(
    list: Seq<CpuIf>,
    vm: Vm,
    request: CpuOnRequest,
    reason: StartReason,
    p: usize,
    i: int,
)
    requires
        request.vcpu_id < vm.config.cpu_num,
        request.pcpu == Some(p),
        p < list.len(),
        0 <= i < list.len(),
    ensures
        ({
            let after = on_demand_records(list, vm, request, reason);
            &&& after.len() == list.len()
            &&& i != p || list[p as int].state_for_start != CpuState::CpuInv ==> after[i] == list[i]
            &&& i == p && list[p as int].state_for_start == CpuState::CpuInv ==> after[i].entry
                == request.entry && after[i].ctx == request.ctx && after[i].vm_id == vm.id
                && after[i].vcpuid == request.vcpu_id && after[i].state_for_start
                == CpuState::CpuIdle && after[i].start_reason == reason
        }),
{
}

/// A request is refused exactly if the machine has no such virtual core or the
/// virtual core has no physical one, with one less than all bits set.
pub proof fn refused_exactly_without_a_core(list: Seq<CpuIf>, vm: Vm, request: CpuOnRequest)
    ensures
        on_demand_action(list, vm, request) is Refuse <==> request.vcpu_id >= vm.config.cpu_num
            || request.pcpu.is_none(),
        always_up_action(vm, request) is Refuse <==> request.vcpu_id >= vm.config.cpu_num
            || request.pcpu.is_none(),
        on_demand_action(list, vm, request) matches CpuOnAction::Refuse(status) ==> status + 1
            == usize::MAX,
        always_up_action(vm, request) matches CpuOnAction::Refuse(status) ==> status + 1
            == usize::MAX,
        acceptable(vm, request) <==> request.vcpu_id < vm.config.cpu_num && request.pcpu.is_some(),
{
}

/// Where every core is up, the core of the virtual core is sent a message that
/// names the machine, the address and the argument, and asks for the start.
pub proof fn up_core_is_sent_the_start(vm: Vm, request: CpuOnRequest, p: usize)
    requires
        request.vcpu_id < vm.config.cpu_num,
        request.pcpu == Some(p),
    ensures
        always_up_action(vm, request) == (CpuOnAction::SendIpi {
            target: p,
            message: IpiMessage {
                ipi_type: IpiType::IpiTPower,
                ipi_message: IpiInnerMsg::Power(
                    IpiPowerMessage {
                        src: vm.id,
                        vcpuid: 0,
                        event: PowerEvent::PsciIpiCpuOn,
                        entry: request.entry,
                        context: request.ctx,
                    },
                ),
            },
        }),
{
}

/// The status of a request: the firmware's own where it was asked, zero for a
/// message that was sent, one less than all bits set for one that was not.
pub proof fn status_of_each_outcome(status: usize)
    ensures
        spec_cpu_on_status(CpuOnReply::Refused(status)) == status,
        spec_cpu_on_status(CpuOnReply::Firmware(status)) == status,
        spec_cpu_on_status(CpuOnReply::Sent(true)) == 0,
        spec_cpu_on_status(CpuOnReply::Sent(false)) + 1 == usize::MAX,
{
}

/// A virtual core that is started has its registers reset before it is given
/// its address and argument, and is woken and scheduled after that. Only where
/// cores stay down until needed is the guest entered right away.
pub proof fn start_prepares_then_wakes(platform: Platform, vcpu: Vcpu, entry: usize, ctx: usize)
    ensures
        ({
            let actions = vcpu_on_actions(platform, vcpu, entry, ctx);
            &&& actions.len() == if platform.secondary_start {
                6nat
            } else {
                5nat
            }
            &&& actions[0] == CoreAction::ResetContext(vcpu)
            &&& actions[1] == CoreAction::SetGpr(vcpu, 0, ctx)
            &&& actions[2] == CoreAction::SetElr(vcpu, entry)
            &&& actions[3] == CoreAction::Wakeup(vcpu)
            &&& actions[4] == CoreAction::DoSchedule
            &&& platform.secondary_start ==> actions[5] == CoreAction::EnterVm
        }),
{
}

/// A power message is looked up for the machine it names; only the message that
/// assigns a virtual core has that core added first. No other message is
/// accepted.
pub proof fn message_is_looked_up(msg: IpiMessage)
    ensures
        match msg.ipi_message {
            IpiInnerMsg::Power(m) => {
                &&& ipi_start(msg) matches PsciIpiStart::Lookup { assign, vm_id }
                &&& vm_id == m.src
                &&& m.event != PowerEvent::PsciIpiVcpuAssignAndCpuOn ==> assign.is_none()
                &&& m.event == PowerEvent::PsciIpiVcpuAssignAndCpuOn ==> assign == Some(
                    VcpuName { vm_id: m.src, vcpuid: m.vcpuid },
                )
            },
            _ => ipi_start(msg) == PsciIpiStart::Halt,
        },
{
}

/// What becomes of a power message. A start begins exactly if the receiving
/// core has a virtual core of the machine that was never started and lives
/// here; the address and argument are those of the message.
pub proof fn outcome_of_each_message(
    platform: Platform,
    cpu: Cpu,
    m: IpiPowerMessage,
    target: Option<Vcpu>,
    outcome: PsciIpiOutcome,
)
    requires
        ipi_outcome_ok(platform, cpu, m, target, outcome),
    ensures
        ipi_starts(cpu, m, target) <==> m.event == PowerEvent::PsciIpiCpuOn && target.is_some()
            && target.unwrap().state == VcpuState::Invalid && target.unwrap().phys_id == cpu.id,
        outcome is Run <==> ipi_starts(cpu, m, target),
        outcome matches PsciIpiOutcome::Run(actions) ==> actions@ == vcpu_on_actions(
            platform,
            target.unwrap(),
            m.entry,
            m.context,
        ),
        outcome is ResetActive <==> m.event == PowerEvent::PsciIpiCpuReset && target.is_some(),
        outcome == PsciIpiOutcome::Halt(PsciIpiFault::CpuOff) <==> m.event
            == PowerEvent::PsciIpiCpuOff && target.is_some(),
        outcome == PsciIpiOutcome::Halt(PsciIpiFault::WrongCore) <==> m.event
            == PowerEvent::PsciIpiCpuOn && target.is_some() && target.unwrap().state
            == VcpuState::Invalid && target.unwrap().phys_id != cpu.id,
{
}

/// A core that comes up takes its orders from its record as they stand there.
pub proof fn orders_are_those_of_the_record(cpu_if: CpuIf)
    ensures
        start_orders(cpu_if).vm_id == cpu_if.vm_id,
        start_orders(cpu_if).vcpuid == cpu_if.vcpuid,
        start_orders(cpu_if).next is BootVm <==> cpu_if.start_reason == StartReason::MainCore,
        start_orders(cpu_if).next is Halt <==> cpu_if.start_reason == StartReason::NotStarted,
        cpu_if.start_reason == StartReason::SecondaryCore ==> start_orders(cpu_if).next == (
        GuestStartNext::StartVcpu { entry: cpu_if.entry as usize, ctx: cpu_if.ctx as usize }),
{
}

} // verus!

//! Processor cores: what the hypervisor remembers of each of them.

use vstd::prelude::*;

use crate::kernel::vm::Vcpu;

verus! {

/// Life cycle of a core.
#[derive(Clone, Copy, PartialEq, Eq, Structural, Debug)]
pub enum CpuState {
    /// Never started.
    CpuInv,
    /// Powered, running no guest.
    CpuIdle,
    /// Running a guest.
    CpuRun,
}

/// Why a core is being started.
#[derive(Clone, Copy, PartialEq, Eq, Structural, Debug)]
pub enum StartReason {
    /// To boot a virtual machine.
    MainCore,
    /// To run a further virtual core of a machine that is up.
    SecondaryCore,
    /// No start has been asked for.
    NotStarted,
}

/// The order left for a core that is about to be powered up.
///
/// There is one record per core. The core that asks fills it in, the core that
/// comes up reads it.
#[derive(Clone, Copy, PartialEq, Eq, Structural, Debug)]
pub struct CpuIf {
    /// Address at which the guest starts.
    pub entry: u64,
    /// Value the guest finds in its first register.
    pub ctx: u64,
    pub vm_id: usize,
    pub state_for_start: CpuState,
    pub vcpuid: usize,
    pub start_reason: StartReason,
}

/// The part of a core's own record that decisions depend on.
#[derive(Clone, Copy, PartialEq, Eq, Structural, Debug)]
pub struct Cpu {
    pub id: usize,
    pub cpu_state: CpuState,
}

/// An operation on the core that is executing.
#[derive(Clone, Copy, PartialEq, Eq, Debug)]
pub enum CoreAction {
    /// Initialise the core's interrupt interface.
    GicCpuInit,
    /// Drop the interrupt being handled; the flag says it is for a guest.
    GiccClearCurrentIrq(bool),
    /// Switch the core's timer.
    TimerEnable(bool),
    /// Wait for something to do.
    CpuIdle,
    /// Put a virtual core's registers back to their reset values.
    ResetContext(Vcpu),
    /// Set a general register of a virtual core: index, value.
    SetGpr(Vcpu, usize, usize),
    /// Set the address at which a virtual core resumes.
    SetElr(Vcpu, usize),
    /// Make a virtual core runnable.
    Wakeup(Vcpu),
    /// Take a virtual core off the run queue.
    Sleep(Vcpu),
    /// Pick the next virtual core to run.
    DoSchedule,
    /// Leave for the guest with the current context; does not come back.
    EnterVm,
}

} // verus!

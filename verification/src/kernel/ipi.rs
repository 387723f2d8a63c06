//! Messages between cores.

use vstd::prelude::*;

verus! {

/// What an inter-processor interrupt is about.
#[derive(Clone, Copy, PartialEq, Eq, Structural, Debug)]
pub enum IpiType {
    /// Power management.
    IpiTPower,
    /// Management of virtual machines.
    IpiTVMM,
}

/// Requests about the power state of a virtual core.
#[derive(Clone, Copy, PartialEq, Eq, Structural, Debug)]
pub enum PowerEvent {
    PsciIpiCpuOn,
    PsciIpiCpuOff,
    PsciIpiCpuReset,
    PsciIpiVcpuAssignAndCpuOn,
}

/// A power management message.
#[derive(Clone, Copy, PartialEq, Eq, Structural, Debug)]
pub struct IpiPowerMessage {
    /// The machine it is about.
    pub src: usize,
    pub vcpuid: usize,
    pub event: PowerEvent,
    /// Address at which the virtual core starts.
    pub entry: usize,
    /// Value it finds in its first register.
    pub context: usize,
}

/// Requests to a core about a machine.
#[derive(Clone, Copy, PartialEq, Eq, Structural, Debug)]
pub enum VmmPercoreEvent {
    VmmAssignCpu,
}

/// A message to a core about a machine.
#[derive(Clone, Copy, PartialEq, Eq, Structural, Debug)]
pub struct IpiVmmPercoreMsg {
    pub vm_id: usize,
    pub event: VmmPercoreEvent,
}

/// The body of a message.
#[derive(Clone, Copy, PartialEq, Eq, Structural, Debug)]
pub enum IpiInnerMsg {
    Power(IpiPowerMessage),
    VmmPercoreMsg(IpiVmmPercoreMsg),
}

/// A message with its type.
#[derive(Clone, Copy, PartialEq, Eq, Structural, Debug)]
pub struct IpiMessage {
    pub ipi_type: IpiType,
    pub ipi_message: IpiInnerMsg,
}

} // verus!

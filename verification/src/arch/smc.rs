//! Secure monitor calls that a guest makes and the hypervisor traps.
//!
//! A trapped call is handled in three moves. [`smc_guest_handler`] reads the
//! guest's registers, the caller carries out what [`guest_operations`] gives for
//! the call, and [`smc_guest_finish`] turns the reply of the last operation into
//! the value the guest gets back.

use vstd::prelude::*;

use crate::kernel::cpu::CoreAction;
use crate::kernel::vm::Vcpu;

verus! {

/// Reported as a feature because an NPU driver looks for it.
pub const SMCCC_VERSION: usize = 0x80000000;

pub const PSCI_VERSION: usize = 0x84000000;

pub const PSCI_CPU_SUSPEND_32: usize = 0x84000001;

pub const PSCI_CPU_SUSPEND_64: usize = 0xC4000001;

pub const PSCI_CPU_OFF: usize = 0x84000002;

pub const PSCI_CPU_ON_32: usize = 0x84000003;

pub const PSCI_CPU_ON_64: usize = 0xC4000003;

pub const PSCI_AFFINITY_INFO_32: usize = 0x84000004;

pub const PSCI_AFFINITY_INFO_64: usize = 0xC4000004;

pub const PSCI_MIGRATE_32: usize = 0x84000005;

pub const PSCI_MIGRATE_64: usize = 0xC4000005;

pub const PSCI_MIGRATE_INFO_TYPE: usize = 0x84000006;

pub const PSCI_MIGRATE_INFO_UP_CPU_32: usize = 0x84000007;

pub const PSCI_MIGRATE_INFO_UP_CPU_64: usize = 0xC4000007;

pub const PSCI_SYSTEM_OFF: usize = 0x84000008;

pub const PSCI_SYSTEM_RESET: usize = 0x84000009;

pub const PSCI_SYSTEM_RESET2_32: usize = 0x84000012;

pub const PSCI_SYSTEM_RESET2_64: usize = 0xC4000012;

pub const PSCI_MEM_PROTECT: usize = 0x84000013;

pub const PSCI_MEM_PROTECT_CHECK_RANGE_32: usize = 0x84000014;

pub const PSCI_MEM_PROTECT_CHECK_RANGE_64: usize = 0xC4000014;

pub const PSCI_FEATURES: usize = 0x8400000A;

pub const PSCI_CPU_FREEZE: usize = 0x8400000B;

pub const PSCI_CPU_DEFAULT_SUSPEND_32: usize = 0x8400000C;

pub const PSCI_CPU_DEFAULT_SUSPEND_64: usize = 0xC400000C;

pub const PSCI_NODE_HW_STATE_32: usize = 0x8400000D;

pub const PSCI_NODE_HW_STATE_64: usize = 0xC400000D;

pub const PSCI_SYSTEM_SUSPEND_32: usize = 0x8400000E;

pub const PSCI_SYSTEM_SUSPEND_64: usize = 0xC400000E;

pub const PSCI_SET_SUSPEND_MODE: usize = 0x8400000F;

pub const PSCI_STAT_RESIDENCY_32: usize = 0x84000010;

pub const PSCI_STAT_RESIDENCY_64: usize = 0xC4000010;

pub const PSCI_STAT_COUNT_32: usize = 0x84000011;

pub const PSCI_STAT_COUNT_64: usize = 0xC4000011;

pub const PSCI_E_SUCCESS: usize = 0;

pub const PSCI_E_NOT_SUPPORTED: usize = usize::MAX;

pub const PSCI_TOS_NOT_PRESENT_MP: usize = 2;

/// Which affinity fields of a target are to be looked at.
#[derive(Clone, Copy, PartialEq, Eq, Structural, Debug)]
pub enum LowestAffinityLevel {
    All,
    Aff0Ignored,
    Aff0Aff1Ignored,
    Aff0Aff1Aff2Ignored,
}

/// Who decides how deep a core sleeps.
#[derive(Clone, Copy, PartialEq, Eq, Structural, Debug)]
pub enum SuspendMode {
    PlatformCoordinated,
    OsInitiated,
}

/// State of an affinity instance.
#[derive(Clone, Copy, PartialEq, Eq, Structural, Debug)]
pub enum AffinityState {
    On,
    Off,
    OnPending,
}

/// Multi-core support of a trusted operating system.
#[derive(Clone, Copy, PartialEq, Eq, Structural, Debug)]
pub enum MigrateType {
    MigrateCapable,
    NotMigrateCapable,
    MigrationNotRequired,
}

/// Power state of a node of the power domain topology.
#[derive(Clone, Copy, PartialEq, Eq, Structural, Debug)]
pub enum PowerState {
    HwOn,
    HwOff,
    HwStandby,
}

/// A call to be passed on to the firmware.
#[derive(Clone, Copy, PartialEq, Eq, Structural, Debug)]
pub enum FirmwareCall {
    Version,
    CpuOff,
    AffinityInfo { target: u64, lowest: LowestAffinityLevel },
    Migrate { target: u64 },
    MigrateInfoType,
    MigrateInfoUpCpu,
    SystemOff,
    SystemReset2 { reset_type: u32, cookie: u64 },
    MemProtect { enable: bool },
    MemProtectCheckRange { base: u64, length: u64 },
    CpuFreeze,
    CpuDefaultSuspend { entry: u64, context: u64 },
    NodeHwState { target: u64, power_level: u32 },
    SystemSuspend { entry: u64, context: u64 },
    SetSuspendMode { mode: SuspendMode },
    StatResidency { target: u64, power_state: u32 },
    StatCount { target: u64, power_state: u32 },
}

/// What a trapped call asks for.
#[derive(Clone, Copy, PartialEq, Eq, Structural, Debug)]
pub enum GuestCall {
    /// Pass a call on to the firmware.
    Firmware(FirmwareCall),
    /// Put the calling virtual core to sleep; it resumes at `entry`.
    Suspend { entry: usize, context: usize },
    /// Start another virtual core of the caller's machine.
    CpuOn { vmpidr: usize, entry: usize, context: usize },
    /// Reboot the machine, then have the firmware reset the system.
    SystemReset,
    /// Answer with this value, nothing else to do.
    Answer(usize),
    /// Not a call the hypervisor knows.
    Unknown,
}

/// One operation of a call.
#[derive(Clone, Copy, PartialEq, Eq, Structural, Debug)]
pub enum GuestOperation {
    /// Ask the firmware.
    Firmware(FirmwareCall),
    /// Put the calling virtual core to sleep: see [`guest_suspend`].
    Suspend { entry: usize, context: usize },
    /// Start another virtual core of the caller's machine.
    CpuOn { vmpidr: usize, entry: usize, context: usize },
    /// Reboot the caller's machine. There is no reply.
    Reboot,
    /// Ask the firmware to reset the system.
    FirmwareReset,
}

/// What came of a [`GuestCall`]. An error carries the firmware's code.
#[derive(Clone, Copy, PartialEq, Eq, Debug)]
pub enum GuestReply {
    /// A plain 32-bit answer.
    Word32(u32),
    /// A plain 64-bit answer.
    Word64(u64),
    Status(Result<(), i64>),
    Affinity(Result<AffinityState, i64>),
    MigrateInfo(Result<MigrateType, i64>),
    MemProtect(Result<bool, i64>),
    NodePower(Result<PowerState, i64>),
    /// Status of a virtual core start.
    CpuOn(usize),
    /// Carried out; there is nothing to report.
    Done,
}

/// Answer to `PSCI_FEATURES` for a function.
pub open spec fn features_answer(fid: usize) -> usize {
    if fid == PSCI_VERSION || fid == PSCI_CPU_ON_64 || fid == PSCI_FEATURES || fid
        == SMCCC_VERSION {
        PSCI_E_SUCCESS
    } else {
        PSCI_E_NOT_SUPPORTED
    }
}

/// The affinity level that a guest's number stands for.
pub open spec fn affinity_level(level: usize) -> LowestAffinityLevel {
    if level == 0 {
        LowestAffinityLevel::All
    } else if level == 1 {
        LowestAffinityLevel::Aff0Ignored
    } else if level == 2 {
        LowestAffinityLevel::Aff0Aff1Ignored
    } else {
        LowestAffinityLevel::Aff0Aff1Aff2Ignored
    }
}

/// The firmware call behind a function identifier, if it is one of those that
/// are simply passed on.
pub open spec fn forwarded_call(fid: usize, x1: usize, x2: usize) -> Option<FirmwareCall> {
    if fid == PSCI_VERSION {
        Some(FirmwareCall::Version)
    } else if fid == PSCI_CPU_OFF {
        Some(FirmwareCall::CpuOff)
    } else if fid == PSCI_AFFINITY_INFO_64 {
        Some(FirmwareCall::AffinityInfo { target: x1 as u64, lowest: affinity_level(x2) })
    } else if fid == PSCI_MIGRATE_64 {
        Some(FirmwareCall::Migrate { target: x1 as u64 })
    } else if fid == PSCI_MIGRATE_INFO_TYPE {
        Some(FirmwareCall::MigrateInfoType)
    } else if fid == PSCI_MIGRATE_INFO_UP_CPU_64 {
        Some(FirmwareCall::MigrateInfoUpCpu)
    } else if fid == PSCI_SYSTEM_OFF {
        Some(FirmwareCall::SystemOff)
    } else if fid == PSCI_SYSTEM_RESET2_64 {
        Some(FirmwareCall::SystemReset2 { reset_type: x1 as u32, cookie: x2 as u64 })
    } else if fid == PSCI_MEM_PROTECT {
        Some(FirmwareCall::MemProtect { enable: x1 != 0 })
    } else if fid == PSCI_MEM_PROTECT_CHECK_RANGE_64 {
        Some(FirmwareCall::MemProtectCheckRange { base: x1 as u64, length: x2 as u64 })
    } else if fid == PSCI_CPU_FREEZE {
        Some(FirmwareCall::CpuFreeze)
    } else if fid == PSCI_CPU_DEFAULT_SUSPEND_64 {
        Some(FirmwareCall::CpuDefaultSuspend { entry: x1 as u64, context: x2 as u64 })
    } else if fid == PSCI_NODE_HW_STATE_64 {
        Some(FirmwareCall::NodeHwState { target: x1 as u64, power_level: x2 as u32 })
    } else if fid == PSCI_SYSTEM_SUSPEND_64 {
        Some(FirmwareCall::SystemSuspend { entry: x1 as u64, context: x2 as u64 })
    } else if fid == PSCI_SET_SUSPEND_MODE {
        Some(
            FirmwareCall::SetSuspendMode {
                mode: if x1 == 0 {
                    SuspendMode::PlatformCoordinated
                } else {
                    SuspendMode::OsInitiated
                },
            },
        )
    } else if fid == PSCI_STAT_RESIDENCY_64 {
        Some(FirmwareCall::StatResidency { target: x1 as u64, power_state: x2 as u32 })
    } else if fid == PSCI_STAT_COUNT_64 {
        Some(FirmwareCall::StatCount { target: x1 as u64, power_state: x2 as u32 })
    } else {
        None
    }
}

/// What a guest asks for with the registers of a trapped call.
pub open spec fn guest_call(fid: usize, x1: usize, x2: usize, x3: usize) -> GuestCall {
    match forwarded_call(fid, x1, x2) {
        Some(call) => GuestCall::Firmware(call),
        None => if fid == PSCI_CPU_SUSPEND_64 {
            GuestCall::Suspend { entry: x2, context: x3 }
        } else if fid == PSCI_CPU_ON_64 {
            GuestCall::CpuOn { vmpidr: x1, entry: x2, context: x3 }
        } else if fid == PSCI_SYSTEM_RESET {
            GuestCall::SystemReset
        } else if fid == PSCI_FEATURES {
            GuestCall::Answer(features_answer(x1))
        } else {
            GuestCall::Unknown
        },
    }
}

/// The operations of a call, in the order in which they are carried out, each
/// once.
pub open spec fn operations(call: GuestCall) -> Seq<GuestOperation> {
    match call {
        GuestCall::Firmware(c) => seq![GuestOperation::Firmware(c)],
        GuestCall::Suspend { entry, context } => seq![GuestOperation::Suspend { entry, context }],
        GuestCall::CpuOn { vmpidr, entry, context } => seq![
            GuestOperation::CpuOn { vmpidr, entry, context },
        ],
        GuestCall::SystemReset => seq![GuestOperation::Reboot, GuestOperation::FirmwareReset],
        GuestCall::Answer(_) => Seq::empty(),
        GuestCall::Unknown => Seq::empty(),
    }
}

/// Whether a reply is of the kind that a firmware call gives.
pub open spec fn firmware_reply_fits(call: FirmwareCall, reply: GuestReply) -> bool {
    match call {
        FirmwareCall::Version => reply is Word32,
        FirmwareCall::MigrateInfoUpCpu => reply is Word64,
        FirmwareCall::StatResidency { .. } => reply is Word64,
        FirmwareCall::StatCount { .. } => reply is Word64,
        FirmwareCall::AffinityInfo { .. } => reply is Affinity,
        FirmwareCall::MigrateInfoType => reply is MigrateInfo,
        FirmwareCall::MemProtect { .. } => reply is MemProtect,
        FirmwareCall::NodeHwState { .. } => reply is NodePower,
        _ => reply is Status,
    }
}

/// Whether a reply is of the kind that a call gives.
pub open spec fn spec_reply_fits(call: GuestCall, reply: GuestReply) -> bool {
    match call {
        GuestCall::Firmware(c) => firmware_reply_fits(c, reply),
        GuestCall::Suspend { .. } => reply is Done,
        GuestCall::CpuOn { .. } => reply is CpuOn,
        GuestCall::SystemReset => reply is Status,
        GuestCall::Answer(_) => reply is Done,
        GuestCall::Unknown => reply is Done,
    }
}

/// Number that stands for an affinity state.
pub open spec fn affinity_code(state: AffinityState) -> usize {
    match state {
        AffinityState::On => 0,
        AffinityState::Off => 1,
        AffinityState::OnPending => 2,
    }
}

/// Number that stands for a migration type.
pub open spec fn migrate_code(kind: MigrateType) -> usize {
    match kind {
        MigrateType::MigrateCapable => 0,
        MigrateType::NotMigrateCapable => 1,
        MigrateType::MigrationNotRequired => 2,
    }
}

/// Number that stands for a power state.
pub open spec fn power_code(state: PowerState) -> usize {
    match state {
        PowerState::HwOn => 0,
        PowerState::HwOff => 1,
        PowerState::HwStandby => 2,
    }
}

/// The value a reply stands for. Whatever code the firmware refuses with, the
/// guest sees "not supported".
pub open spec fn reply_value(reply: GuestReply) -> usize {
    match reply {
        GuestReply::Word32(v) => v as usize,
        GuestReply::Word64(v) => v as usize,
        GuestReply::Status(Ok(_)) => PSCI_E_SUCCESS,
        GuestReply::Affinity(Ok(s)) => affinity_code(s),
        GuestReply::MigrateInfo(Ok(k)) => migrate_code(k),
        GuestReply::MemProtect(Ok(b)) => if b {
            1
        } else {
            0
        },
        GuestReply::NodePower(Ok(s)) => power_code(s),
        GuestReply::CpuOn(v) => v,
        GuestReply::Done => PSCI_E_SUCCESS,
        _ => PSCI_E_NOT_SUPPORTED,
    }
}

/// What the guest gets back, if the call was one the hypervisor knows.
pub open spec fn guest_value(call: GuestCall, reply: GuestReply) -> Option<usize> {
    match call {
        GuestCall::Unknown => None,
        GuestCall::Answer(v) => Some(v),
        _ => Some(reply_value(reply)),
    }
}

/// Number that stands for an affinity state.
fn affinity_state_number(state: AffinityState) -> (code: usize)
    ensures
        code == affinity_code(state),
{
    match state {
        AffinityState::On => 0,
        AffinityState::Off => 1,
        AffinityState::OnPending => 2,
    }
}

/// Number that stands for a migration type.
fn migrate_type_number(kind: MigrateType) -> (code: usize)
    ensures
        code == migrate_code(kind),
{
    match kind {
        MigrateType::MigrateCapable => 0,
        MigrateType::NotMigrateCapable => 1,
        MigrateType::MigrationNotRequired => 2,
    }
}

/// Number that stands for a power state.
fn power_state_number(state: PowerState) -> (code: usize)
    ensures
        code == power_code(state),
{
    match state {
        PowerState::HwOn => 0,
        PowerState::HwOff => 1,
        PowerState::HwStandby => 2,
    }
}

/// Reads the affinity level out of a guest register.
fn lowest_affinity_level(level: usize) -> (r: LowestAffinityLevel)
    ensures
        r == affinity_level(level),
{
    match level {
        0 => LowestAffinityLevel::All,
        1 => LowestAffinityLevel::Aff0Ignored,
        2 => LowestAffinityLevel::Aff0Aff1Ignored,
        _ => LowestAffinityLevel::Aff0Aff1Aff2Ignored,
    }
}

/// Answers `PSCI_FEATURES`.
fn psci_features(fid: usize) -> (r: usize)
    ensures
        r == features_answer(fid),
{
    if fid == PSCI_VERSION || fid == PSCI_CPU_ON_64 || fid == PSCI_FEATURES || fid
        == SMCCC_VERSION {
        PSCI_E_SUCCESS
    } else {
        PSCI_E_NOT_SUPPORTED
    }
}

/// The firmware call behind a function identifier, if there is one.
fn firmware_call(fid: usize, x1: usize, x2: usize) -> (r: Option<FirmwareCall>)
    ensures
        r == forwarded_call(fid, x1, x2),
{
    let call = if fid == PSCI_VERSION {
        FirmwareCall::Version
    } else if fid == PSCI_CPU_OFF {
        FirmwareCall::CpuOff
    } else if fid == PSCI_AFFINITY_INFO_64 {
        FirmwareCall::AffinityInfo { target: x1 as u64, lowest: lowest_affinity_level(x2) }
    } else if fid == PSCI_MIGRATE_64 {
        FirmwareCall::Migrate { target: x1 as u64 }
    } else if fid == PSCI_MIGRATE_INFO_TYPE {
        FirmwareCall::MigrateInfoType
    } else if fid == PSCI_MIGRATE_INFO_UP_CPU_64 {
        FirmwareCall::MigrateInfoUpCpu
    } else if fid == PSCI_SYSTEM_OFF {
        FirmwareCall::SystemOff
    } else if fid == PSCI_SYSTEM_RESET2_64 {
        FirmwareCall::SystemReset2 { reset_type: x1 as u32, cookie: x2 as u64 }
    } else if fid == PSCI_MEM_PROTECT {
        FirmwareCall::MemProtect { enable: x1 != 0 }
    } else if fid == PSCI_MEM_PROTECT_CHECK_RANGE_64 {
        FirmwareCall::MemProtectCheckRange { base: x1 as u64, length: x2 as u64 }
    } else if fid == PSCI_CPU_FREEZE {
        FirmwareCall::CpuFreeze
    } else if fid == PSCI_CPU_DEFAULT_SUSPEND_64 {
        FirmwareCall::CpuDefaultSuspend { entry: x1 as u64, context: x2 as u64 }
    } else if fid == PSCI_NODE_HW_STATE_64 {
        FirmwareCall::NodeHwState { target: x1 as u64, power_level: x2 as u32 }
    } else if fid == PSCI_SYSTEM_SUSPEND_64 {
        FirmwareCall::SystemSuspend { entry: x1 as u64, context: x2 as u64 }
    } else if fid == PSCI_SET_SUSPEND_MODE {
        let mode = if x1 == 0 {
            SuspendMode::PlatformCoordinated
        } else {
            SuspendMode::OsInitiated
        };
        FirmwareCall::SetSuspendMode { mode }
    } else if fid == PSCI_STAT_RESIDENCY_64 {
        FirmwareCall::StatResidency { target: x1 as u64, power_state: x2 as u32 }
    } else if fid == PSCI_STAT_COUNT_64 {
        FirmwareCall::StatCount { target: x1 as u64, power_state: x2 as u32 }
    } else {
        return None;
    };
    Some(call)
}

/// Reads the registers of a trapped call.
///
/// [`GuestCall::Unknown`] leaves the call unhandled and the guest's registers
/// as they are. After any other outcome, [`smc_guest_finish`] gives the answer.
pub fn smc_guest_handler(fid: usize, x1: usize, x2: usize, x3: usize) -> (r: GuestCall)
    ensures
        r == guest_call(fid, x1, x2, x3),
{
    match firmware_call(fid, x1, x2) {
        Some(call) => GuestCall::Firmware(call),
        None => {
            if fid == PSCI_CPU_SUSPEND_64 {
                GuestCall::Suspend { entry: x2, context: x3 }
            } else if fid == PSCI_CPU_ON_64 {
                GuestCall::CpuOn { vmpidr: x1, entry: x2, context: x3 }
            } else if fid == PSCI_SYSTEM_RESET {
                GuestCall::SystemReset
            } else if fid == PSCI_FEATURES {
                GuestCall::Answer(psci_features(x1))
            } else {
                GuestCall::Unknown
            }
        },
    }
}

/// The operations of a call, in the order in which they are carried out, each
/// once. The reply of the last one counts; a call without operations has
/// [`GuestReply::Done`] for a reply.
pub fn guest_operations(call: &GuestCall) -> (r: Vec<GuestOperation>)
    ensures
        r@ == operations(*call),
{
    let r = match *call {
        GuestCall::Firmware(c) => vec![GuestOperation::Firmware(c)],
        GuestCall::Suspend { entry, context } => vec![GuestOperation::Suspend { entry, context }],
        GuestCall::CpuOn { vmpidr, entry, context } => vec![
            GuestOperation::CpuOn { vmpidr, entry, context },
        ],
        GuestCall::SystemReset => vec![GuestOperation::Reboot, GuestOperation::FirmwareReset],
        GuestCall::Answer(_) => Vec::new(),
        GuestCall::Unknown => Vec::new(),
    };
    assert(r@ =~= operations(*call));
    r
}

/// Whether a reply is of the kind that a call gives.
pub fn reply_fits(call: &GuestCall, reply: &GuestReply) -> (r: bool)
    ensures
        r == spec_reply_fits(*call, *reply),
{
    match call {
        GuestCall::Firmware(c) => match c {
            FirmwareCall::Version => matches!(reply, GuestReply::Word32(_)),
            FirmwareCall::MigrateInfoUpCpu => matches!(reply, GuestReply::Word64(_)),
            FirmwareCall::StatResidency { .. } => matches!(reply, GuestReply::Word64(_)),
            FirmwareCall::StatCount { .. } => matches!(reply, GuestReply::Word64(_)),
            FirmwareCall::AffinityInfo { .. } => matches!(reply, GuestReply::Affinity(_)),
            FirmwareCall::MigrateInfoType => matches!(reply, GuestReply::MigrateInfo(_)),
            FirmwareCall::MemProtect { .. } => matches!(reply, GuestReply::MemProtect(_)),
            FirmwareCall::NodeHwState { .. } => matches!(reply, GuestReply::NodePower(_)),
            _ => matches!(reply, GuestReply::Status(_)),
        },
        GuestCall::Suspend { .. } => matches!(reply, GuestReply::Done),
        GuestCall::CpuOn { .. } => matches!(reply, GuestReply::CpuOn(_)),
        GuestCall::SystemReset => matches!(reply, GuestReply::Status(_)),
        GuestCall::Answer(_) => matches!(reply, GuestReply::Done),
        GuestCall::Unknown => matches!(reply, GuestReply::Done),
    }
}

/// The value a reply stands for.
fn value_of_reply(reply: &GuestReply) -> (r: usize)
    ensures
        r == reply_value(*reply),
{
    match reply {
        GuestReply::Word32(v) => *v as usize,
        GuestReply::Word64(v) => *v as usize,
        GuestReply::Status(Ok(_)) => PSCI_E_SUCCESS,
        GuestReply::Affinity(Ok(s)) => affinity_state_number(*s),
        GuestReply::MigrateInfo(Ok(k)) => migrate_type_number(*k),
        GuestReply::MemProtect(Ok(b)) => if *b {
            1
        } else {
            0
        },
        GuestReply::NodePower(Ok(s)) => power_state_number(*s),
        GuestReply::CpuOn(v) => *v,
        GuestReply::Done => PSCI_E_SUCCESS,
        _ => PSCI_E_NOT_SUPPORTED,
    }
}

/// Answers a trapped call: the register of the executing core to be written,
/// and the value. `None` says that the call is not handled and no register
/// changes.
pub fn smc_guest_finish(call: &GuestCall, reply: &GuestReply) -> (r: Option<(usize, usize)>)
    requires
        spec_reply_fits(*call, *reply),
    ensures
        match guest_value(*call, *reply) {
            Some(v) => r == Some((0usize, v)),
            None => r.is_none(),
        },
{
    match call {
        GuestCall::Unknown => None,
        GuestCall::Answer(v) => Some((0, *v)),
        _ => Some((0, value_of_reply(reply))),
    }
}

/// What putting the calling virtual core to sleep takes, in this order: it will
/// resume at `entry` with `context` in its first register.
pub open spec fn suspend_actions(vcpu: Vcpu, entry: usize, context: usize) -> Seq<CoreAction> {
    seq![
        CoreAction::ResetContext(vcpu),
        CoreAction::SetGpr(vcpu, 0, context),
        CoreAction::SetElr(vcpu, entry),
        CoreAction::Sleep(vcpu),
    ]
}

/// The steps of [`GuestOperation::Suspend`].
pub fn guest_suspend(vcpu: Vcpu, entry: usize, context: usize) -> (r: Vec<CoreAction>)
    ensures
        r@ == suspend_actions(vcpu, entry, context),
{
    let r = vec![
        CoreAction::ResetContext(vcpu),
        CoreAction::SetGpr(vcpu, 0, context),
        CoreAction::SetElr(vcpu, entry),
        CoreAction::Sleep(vcpu),
    ];
    assert(r@ =~= suspend_actions(vcpu, entry, context));
    r
}

/// Every PSCI function that `PSCI_FEATURES` reports is handled, whatever its
/// arguments.
pub proof fn features_are_handled(fid: usize, x1: usize, x2: usize, x3: usize)
    requires
        features_answer(fid) == PSCI_E_SUCCESS,
        fid != SMCCC_VERSION,
    ensures
        guest_call(fid, x1, x2, x3) != GuestCall::Unknown,
{
}

/// Whether a call is handled depends on the function identifier alone.
pub proof fn handling_depends_on_function_only(
    fid: usize,
    x1: usize,
    x2: usize,
    x3: usize,
    y1: usize,
    y2: usize,
    y3: usize,
)
    ensures
        guest_call(fid, x1, x2, x3) == GuestCall::Unknown <==> guest_call(fid, y1, y2, y3)
            == GuestCall::Unknown,
{
}

/// `PSCI_SYSTEM_RESET` reboots the machine once and then asks the firmware once
/// to reset the system. No other call does either: switching the system off and
/// the second kind of reset are passed on alone.
pub proof fn only_system_reset_reboots(fid: usize, x1: usize, x2: usize, x3: usize)
    ensures
        fid == PSCI_SYSTEM_RESET ==> operations(guest_call(fid, x1, x2, x3)) == seq![
            GuestOperation::Reboot,
            GuestOperation::FirmwareReset,
        ],
        fid != PSCI_SYSTEM_RESET ==> !operations(guest_call(fid, x1, x2, x3)).contains(
            GuestOperation::Reboot,
        ) && !operations(guest_call(fid, x1, x2, x3)).contains(GuestOperation::FirmwareReset),
        fid == PSCI_SYSTEM_OFF ==> operations(guest_call(fid, x1, x2, x3)) == seq![
            GuestOperation::Firmware(FirmwareCall::SystemOff),
        ],
        fid == PSCI_SYSTEM_RESET2_64 ==> operations(guest_call(fid, x1, x2, x3)) == seq![
            GuestOperation::Firmware(
                FirmwareCall::SystemReset2 { reset_type: x1 as u32, cookie: x2 as u64 },
            ),
        ],
{
}

/// A firmware call that the firmware refuses is answered "not supported",
/// whichever call it is and whatever the firmware's code.
pub proof fn refusal_is_not_supported(call: GuestCall, reply: GuestReply)
    requires
        spec_reply_fits(call, reply),
        reply matches GuestReply::Status(Err(_)) || reply matches GuestReply::Affinity(Err(_))
            || reply matches GuestReply::MigrateInfo(Err(_))
            || reply matches GuestReply::MemProtect(Err(_))
            || reply matches GuestReply::NodePower(Err(_)),
    ensures
        guest_value(call, reply) == Some(PSCI_E_NOT_SUPPORTED),
{
}

/// A guest that starts a core gets the core, the address and the argument that
/// it put in its registers; a guest that suspends resumes at its address with
/// its argument.
pub proof fn start_and_suspend_keep_their_arguments(x1: usize, x2: usize, x3: usize)
    ensures
        operations(guest_call(0xC4000003, x1, x2, x3)) == seq![
            GuestOperation::CpuOn { vmpidr: x1, entry: x2, context: x3 },
        ],
        operations(guest_call(0xC4000001, x1, x2, x3)) == seq![
            GuestOperation::Suspend { entry: x2, context: x3 },
        ],
        operations(guest_call(0x84000009, x1, x2, x3)) == seq![
            GuestOperation::Reboot,
            GuestOperation::FirmwareReset,
        ],
{
}

/// Every call that is passed on reaches the firmware as one call, with the
/// guest's first two registers for arguments as the firmware takes them.
pub proof fn firmware_gets_the_arguments(fid: usize, x1: usize, x2: usize, x3: usize)
    ensures
        fid == 0x84000000 ==> operations(guest_call(fid, x1, x2, x3)) == seq![
            GuestOperation::Firmware(FirmwareCall::Version),
        ],
        fid == 0x84000002 ==> operations(guest_call(fid, x1, x2, x3)) == seq![
            GuestOperation::Firmware(FirmwareCall::CpuOff),
        ],
        fid == 0xC4000005 ==> operations(guest_call(fid, x1, x2, x3)) == seq![
            GuestOperation::Firmware(FirmwareCall::Migrate { target: x1 as u64 }),
        ],
        fid == 0x84000006 ==> operations(guest_call(fid, x1, x2, x3)) == seq![
            GuestOperation::Firmware(FirmwareCall::MigrateInfoType),
        ],
        fid == 0xC4000007 ==> operations(guest_call(fid, x1, x2, x3)) == seq![
            GuestOperation::Firmware(FirmwareCall::MigrateInfoUpCpu),
        ],
        fid == 0x84000008 ==> operations(guest_call(fid, x1, x2, x3)) == seq![
            GuestOperation::Firmware(FirmwareCall::SystemOff),
        ],
        fid == 0xC4000012 ==> operations(guest_call(fid, x1, x2, x3)) == seq![
            GuestOperation::Firmware(
                FirmwareCall::SystemReset2 { reset_type: x1 as u32, cookie: x2 as u64 },
            ),
        ],
        fid == 0x84000013 ==> operations(guest_call(fid, x1, x2, x3)) == seq![
            GuestOperation::Firmware(FirmwareCall::MemProtect { enable: x1 != 0 }),
        ],
        fid == 0xC4000014 ==> operations(guest_call(fid, x1, x2, x3)) == seq![
            GuestOperation::Firmware(
                FirmwareCall::MemProtectCheckRange { base: x1 as u64, length: x2 as u64 },
            ),
        ],
        fid == 0x8400000B ==> operations(guest_call(fid, x1, x2, x3)) == seq![
            GuestOperation::Firmware(FirmwareCall::CpuFreeze),
        ],
        fid == 0xC400000C ==> operations(guest_call(fid, x1, x2, x3)) == seq![
            GuestOperation::Firmware(
                FirmwareCall::CpuDefaultSuspend { entry: x1 as u64, context: x2 as u64 },
            ),
        ],
        fid == 0xC400000D ==> operations(guest_call(fid, x1, x2, x3)) == seq![
            GuestOperation::Firmware(
                FirmwareCall::NodeHwState { target: x1 as u64, power_level: x2 as u32 },
            ),
        ],
        fid == 0xC400000E ==> operations(guest_call(fid, x1, x2, x3)) == seq![
            GuestOperation::Firmware(
                FirmwareCall::SystemSuspend { entry: x1 as u64, context: x2 as u64 },
            ),
        ],
        fid == 0xC4000010 ==> operations(guest_call(fid, x1, x2, x3)) == seq![
            GuestOperation::Firmware(
                FirmwareCall::StatResidency { target: x1 as u64, power_state: x2 as u32 },
            ),
        ],
        fid == 0xC4000011 ==> operations(guest_call(fid, x1, x2, x3)) == seq![
            GuestOperation::Firmware(
                FirmwareCall::StatCount { target: x1 as u64, power_state: x2 as u32 },
            ),
        ],
{
}

/// A guest's numbers for affinity levels and suspend modes: every number from
/// three on stands for the last level, every number but zero for the last mode.
pub proof fn firmware_gets_level_and_mode(x1: usize, x2: usize, x3: usize)
    ensures
        ({
            let ops = operations(guest_call(0xC4000004, x1, x2, x3));
            &&& ops.len() == 1
            &&& ops[0] matches GuestOperation::Firmware(
                FirmwareCall::AffinityInfo { target, lowest },
            )
            &&& target == x1 as u64
            &&& lowest == LowestAffinityLevel::All <==> x2 == 0
            &&& lowest == LowestAffinityLevel::Aff0Ignored <==> x2 == 1
            &&& lowest == LowestAffinityLevel::Aff0Aff1Ignored <==> x2 == 2
            &&& lowest == LowestAffinityLevel::Aff0Aff1Aff2Ignored <==> x2 >= 3
        }),
        ({
            let ops = operations(guest_call(0x8400000F, x1, x2, x3));
            &&& ops.len() == 1
            &&& ops[0] matches GuestOperation::Firmware(FirmwareCall::SetSuspendMode { mode })
            &&& mode == SuspendMode::PlatformCoordinated <==> x1 == 0
            &&& mode == SuspendMode::OsInitiated <==> x1 != 0
        }),
{
}

/// A query for a feature is answered at once: with zero for the version, the
/// 64-bit core start, the query itself and the version of the calling
/// convention, with all bits set for anything else.
pub proof fn feature_query_is_answered_at_once(x1: usize, x2: usize, x3: usize)
    ensures
        operations(guest_call(0x8400000A, x1, x2, x3)).len() == 0,
        guest_call(0x8400000A, x1, x2, x3) matches GuestCall::Answer(v) && (x1 == 0x84000000 || x1
            == 0xC4000003 || x1 == 0x8400000A || x1 == 0x80000000 ==> v == 0) && (!(x1 == 0x84000000
            || x1 == 0xC4000003 || x1 == 0x8400000A || x1 == 0x80000000) ==> v == usize::MAX),
{
}

/// The calls that are handled are these and no others.
pub proof fn handled_calls(fid: usize, x1: usize, x2: usize, x3: usize)
    ensures
        guest_call(fid, x1, x2, x3) != GuestCall::Unknown <==> {
            ||| fid == 0x84000000
            ||| fid == 0xC4000001
            ||| fid == 0x84000002
            ||| fid == 0xC4000003
            ||| fid == 0xC4000004
            ||| fid == 0xC4000005
            ||| fid == 0x84000006
            ||| fid == 0xC4000007
            ||| fid == 0x84000008
            ||| fid == 0x84000009
            ||| fid == 0xC4000012
            ||| fid == 0x84000013
            ||| fid == 0xC4000014
            ||| fid == 0x8400000A
            ||| fid == 0x8400000B
            ||| fid == 0xC400000C
            ||| fid == 0xC400000D
            ||| fid == 0xC400000E
            ||| fid == 0x8400000F
            ||| fid == 0xC4000010
            ||| fid == 0xC4000011
        },
        guest_call(fid, x1, x2, x3) == GuestCall::Unknown ==> operations(
            guest_call(fid, x1, x2, x3),
        ).len() == 0,
{
}

/// What the guest gets back. Only an unknown call is left without an answer; a
/// call that is answered at once has its answer; any other has the number that
/// stands for the reply, or all bits set where the firmware refuses.
pub proof fn answer_to_each_reply(call: GuestCall, reply: GuestReply)
    ensures
        guest_value(call, reply).is_none() <==> call == GuestCall::Unknown,
        call matches GuestCall::Answer(v) ==> guest_value(call, reply) == Some(v),
        call != GuestCall::Unknown && !(call is Answer) ==> guest_value(call, reply) == Some(
            match reply {
                GuestReply::Word32(v) => v as usize,
                GuestReply::Word64(v) => v as usize,
                GuestReply::CpuOn(v) => v,
                GuestReply::Done => 0usize,
                GuestReply::Status(Ok(_)) => 0usize,
                GuestReply::Status(Err(_)) => usize::MAX,
                GuestReply::Affinity(Ok(AffinityState::On)) => 0usize,
                GuestReply::Affinity(Ok(AffinityState::Off)) => 1usize,
                GuestReply::Affinity(Ok(AffinityState::OnPending)) => 2usize,
                GuestReply::Affinity(Err(_)) => usize::MAX,
                GuestReply::MigrateInfo(Ok(MigrateType::MigrateCapable)) => 0usize,
                GuestReply::MigrateInfo(Ok(MigrateType::NotMigrateCapable)) => 1usize,
                GuestReply::MigrateInfo(Ok(MigrateType::MigrationNotRequired)) => 2usize,
                GuestReply::MigrateInfo(Err(_)) => usize::MAX,
                GuestReply::MemProtect(Ok(false)) => 0usize,
                GuestReply::MemProtect(Ok(true)) => 1usize,
                GuestReply::MemProtect(Err(_)) => usize::MAX,
                GuestReply::NodePower(Ok(PowerState::HwOn)) => 0usize,
                GuestReply::NodePower(Ok(PowerState::HwOff)) => 1usize,
                GuestReply::NodePower(Ok(PowerState::HwStandby)) => 2usize,
                GuestReply::NodePower(Err(_)) => usize::MAX,
            },
        ),
{
}

/// For each kind of reply, the calls that can have it; every call can have
/// exactly one kind.
pub proof fn calls_of_each_reply(call: GuestCall, reply: GuestReply)
    ensures
        spec_reply_fits(call, reply) <==> match reply {
            GuestReply::Word32(_) => call == GuestCall::Firmware(FirmwareCall::Version),
            GuestReply::Word64(_) => call matches GuestCall::Firmware(c) && (c is MigrateInfoUpCpu
                || c is StatResidency || c is StatCount),
            GuestReply::Affinity(_) => call matches GuestCall::Firmware(c) && c is AffinityInfo,
            GuestReply::MigrateInfo(_) => call matches GuestCall::Firmware(c)
                && c is MigrateInfoType,
            GuestReply::MemProtect(_) => call matches GuestCall::Firmware(c) && c is MemProtect,
            GuestReply::NodePower(_) => call matches GuestCall::Firmware(c) && c is NodeHwState,
            GuestReply::CpuOn(_) => call is CpuOn,
            GuestReply::Done => call is Suspend || call is Answer || call is Unknown,
            GuestReply::Status(_) => call is SystemReset || (call matches GuestCall::Firmware(c)
                && (c is CpuOff || c is Migrate || c is SystemOff || c is SystemReset2
                || c is MemProtectCheckRange || c is CpuFreeze || c is CpuDefaultSuspend
                || c is SystemSuspend || c is SetSuspendMode)),
        },
{
}

/// A virtual core that suspends has its registers reset before it is given the
/// address and argument to resume with, and sleeps after that.
pub proof fn suspend_prepares_then_sleeps(vcpu: Vcpu, entry: usize, context: usize)
    ensures
        suspend_actions(vcpu, entry, context).len() == 4,
        suspend_actions(vcpu, entry, context)[0] == CoreAction::ResetContext(vcpu),
        suspend_actions(vcpu, entry, context)[1] == CoreAction::SetGpr(vcpu, 0, context),
        suspend_actions(vcpu, entry, context)[2] == CoreAction::SetElr(vcpu, entry),
        suspend_actions(vcpu, entry, context)[3] == CoreAction::Sleep(vcpu),
{
}

} // verus!

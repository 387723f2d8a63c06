use tinyvm::arch::smc::{
    guest_operations, guest_suspend, reply_fits, smc_guest_finish, smc_guest_handler,
    AffinityState, FirmwareCall, GuestCall, GuestOperation, GuestReply, LowestAffinityLevel,
    MigrateType, PowerState, SuspendMode,
    PSCI_AFFINITY_INFO_32, PSCI_AFFINITY_INFO_64, PSCI_CPU_DEFAULT_SUSPEND_64, PSCI_CPU_FREEZE,
    PSCI_CPU_OFF, PSCI_CPU_ON_32, PSCI_CPU_ON_64, PSCI_CPU_SUSPEND_32, PSCI_CPU_SUSPEND_64,
    PSCI_E_NOT_SUPPORTED, PSCI_E_SUCCESS, PSCI_FEATURES, PSCI_MEM_PROTECT,
    PSCI_MEM_PROTECT_CHECK_RANGE_64, PSCI_MIGRATE_64, PSCI_MIGRATE_INFO_TYPE,
    PSCI_MIGRATE_INFO_UP_CPU_64, PSCI_NODE_HW_STATE_64, PSCI_SET_SUSPEND_MODE, PSCI_STAT_COUNT_64,
    PSCI_STAT_RESIDENCY_64, PSCI_SYSTEM_OFF, PSCI_SYSTEM_RESET, PSCI_SYSTEM_RESET2_64,
    PSCI_SYSTEM_SUSPEND_64, PSCI_TOS_NOT_PRESENT_MP, PSCI_VERSION, SMCCC_VERSION,
};
use tinyvm::kernel::cpu::CoreAction;
use tinyvm::kernel::vm::{Vcpu, VcpuState};

fn answer(fid: usize, x1: usize, reply: GuestReply) -> Option<(usize, usize)> {
    let call = smc_guest_handler(fid, x1, 0, 0);
    assert!(reply_fits(&call, &reply));
    smc_guest_finish(&call, &reply)
}

#[test]
fn function_identifiers() {
    assert_eq!(PSCI_VERSION, 0x8400_0000);
    assert_eq!(PSCI_CPU_ON_64, 0xC400_0003);
    assert_eq!(PSCI_FEATURES, 0x8400_000A);
    assert_eq!(PSCI_SYSTEM_RESET2_64, 0xC400_0012);
    assert_eq!(PSCI_E_NOT_SUPPORTED, usize::MAX);
    assert_eq!(PSCI_TOS_NOT_PRESENT_MP, 2);
}

#[test]
fn calls_are_passed_on() {
    let cases = [
        (PSCI_VERSION, FirmwareCall::Version),
        (PSCI_CPU_OFF, FirmwareCall::CpuOff),
        (
            PSCI_AFFINITY_INFO_64,
            FirmwareCall::AffinityInfo { target: 7, lowest: LowestAffinityLevel::Aff0Aff1Ignored },
        ),
        (PSCI_MIGRATE_64, FirmwareCall::Migrate { target: 7 }),
        (PSCI_MIGRATE_INFO_TYPE, FirmwareCall::MigrateInfoType),
        (PSCI_MIGRATE_INFO_UP_CPU_64, FirmwareCall::MigrateInfoUpCpu),
        (PSCI_SYSTEM_OFF, FirmwareCall::SystemOff),
        (PSCI_SYSTEM_RESET2_64, FirmwareCall::SystemReset2 { reset_type: 7, cookie: 2 }),
        (PSCI_MEM_PROTECT, FirmwareCall::MemProtect { enable: true }),
        (
            PSCI_MEM_PROTECT_CHECK_RANGE_64,
            FirmwareCall::MemProtectCheckRange { base: 7, length: 2 },
        ),
        (PSCI_CPU_FREEZE, FirmwareCall::CpuFreeze),
        (PSCI_CPU_DEFAULT_SUSPEND_64, FirmwareCall::CpuDefaultSuspend { entry: 7, context: 2 }),
        (PSCI_NODE_HW_STATE_64, FirmwareCall::NodeHwState { target: 7, power_level: 2 }),
        (PSCI_SYSTEM_SUSPEND_64, FirmwareCall::SystemSuspend { entry: 7, context: 2 }),
        (
            PSCI_SET_SUSPEND_MODE,
            FirmwareCall::SetSuspendMode { mode: SuspendMode::OsInitiated },
        ),
        (PSCI_STAT_RESIDENCY_64, FirmwareCall::StatResidency { target: 7, power_state: 2 }),
        (PSCI_STAT_COUNT_64, FirmwareCall::StatCount { target: 7, power_state: 2 }),
    ];
    for (fid, call) in cases {
        assert_eq!(smc_guest_handler(fid, 7, 2, 3), GuestCall::Firmware(call));
    }
}

#[test]
fn calls_handled_here() {
    assert_eq!(
        smc_guest_handler(PSCI_CPU_SUSPEND_64, 1, 2, 3),
        GuestCall::Suspend { entry: 2, context: 3 }
    );
    assert_eq!(
        smc_guest_handler(PSCI_CPU_ON_64, 1, 2, 3),
        GuestCall::CpuOn { vmpidr: 1, entry: 2, context: 3 }
    );
    assert_eq!(smc_guest_handler(PSCI_SYSTEM_RESET, 1, 2, 3), GuestCall::SystemReset);
}

#[test]
fn unknown_calls() {
    for fid in [
        0,
        SMCCC_VERSION,
        PSCI_CPU_SUSPEND_32,
        PSCI_CPU_ON_32,
        PSCI_AFFINITY_INFO_32,
        usize::MAX,
    ] {
        assert_eq!(smc_guest_handler(fid, 1, 2, 3), GuestCall::Unknown);
    }
    assert_eq!(smc_guest_finish(&GuestCall::Unknown, &GuestReply::Done), None);
}

#[test]
fn affinity_levels() {
    let levels = [
        LowestAffinityLevel::All,
        LowestAffinityLevel::Aff0Ignored,
        LowestAffinityLevel::Aff0Aff1Ignored,
        LowestAffinityLevel::Aff0Aff1Aff2Ignored,
        LowestAffinityLevel::Aff0Aff1Aff2Ignored,
    ];
    for (x2, lowest) in levels.into_iter().enumerate() {
        assert_eq!(
            smc_guest_handler(PSCI_AFFINITY_INFO_64, 9, x2, 0),
            GuestCall::Firmware(FirmwareCall::AffinityInfo { target: 9, lowest })
        );
    }
}

#[test]
fn arguments_are_narrowed() {
    assert_eq!(
        smc_guest_handler(PSCI_SYSTEM_RESET2_64, 0x1_0000_0005, 0x1_0000_0006, 0),
        GuestCall::Firmware(FirmwareCall::SystemReset2 { reset_type: 5, cookie: 0x1_0000_0006 })
    );
    assert_eq!(
        smc_guest_handler(PSCI_MEM_PROTECT, 0, 0, 0),
        GuestCall::Firmware(FirmwareCall::MemProtect { enable: false })
    );
    assert_eq!(
        smc_guest_handler(PSCI_SET_SUSPEND_MODE, 0, 0, 0),
        GuestCall::Firmware(FirmwareCall::SetSuspendMode {
            mode: SuspendMode::PlatformCoordinated
        })
    );
}

#[test]
fn features() {
    for fid in [PSCI_VERSION, PSCI_CPU_ON_64, PSCI_FEATURES, SMCCC_VERSION] {
        assert_eq!(answer(PSCI_FEATURES, fid, GuestReply::Done), Some((0, PSCI_E_SUCCESS)));
    }
    for fid in [PSCI_CPU_OFF, PSCI_CPU_ON_32, PSCI_SYSTEM_OFF, 0] {
        assert_eq!(answer(PSCI_FEATURES, fid, GuestReply::Done), Some((0, PSCI_E_NOT_SUPPORTED)));
    }
}

#[test]
fn reported_features_are_handled() {
    for fid in [PSCI_VERSION, PSCI_CPU_ON_64, PSCI_FEATURES] {
        assert_ne!(smc_guest_handler(fid, 1, 2, 3), GuestCall::Unknown);
        assert_ne!(smc_guest_handler(fid, 0, 0, 0), GuestCall::Unknown);
    }
}

#[test]
fn plain_answers() {
    assert_eq!(answer(PSCI_VERSION, 0, GuestReply::Word32(0x1_0001)), Some((0, 0x1_0001)));
    assert_eq!(
        answer(PSCI_STAT_COUNT_64, 0, GuestReply::Word64(0x1_0000_0000)),
        Some((0, 0x1_0000_0000))
    );
    assert_eq!(answer(PSCI_MIGRATE_INFO_UP_CPU_64, 0, GuestReply::Word64(3)), Some((0, 3)));
    assert_eq!(answer(PSCI_CPU_ON_64, 0, GuestReply::CpuOn(usize::MAX - 1)), Some((0, usize::MAX - 1)));
    assert_eq!(answer(PSCI_CPU_SUSPEND_64, 0, GuestReply::Done), Some((0, 0)));
}

#[test]
fn numbers_of_states() {
    let affinity = [AffinityState::On, AffinityState::Off, AffinityState::OnPending];
    let migrate = [
        MigrateType::MigrateCapable,
        MigrateType::NotMigrateCapable,
        MigrateType::MigrationNotRequired,
    ];
    let power = [PowerState::HwOn, PowerState::HwOff, PowerState::HwStandby];
    for i in 0..3 {
        assert_eq!(
            answer(PSCI_AFFINITY_INFO_64, 0, GuestReply::Affinity(Ok(affinity[i]))),
            Some((0, i))
        );
        assert_eq!(
            answer(PSCI_MIGRATE_INFO_TYPE, 0, GuestReply::MigrateInfo(Ok(migrate[i]))),
            Some((0, i))
        );
        assert_eq!(
            answer(PSCI_NODE_HW_STATE_64, 0, GuestReply::NodePower(Ok(power[i]))),
            Some((0, i))
        );
    }
}

#[test]
fn numbers_agree_with_the_firmware_crate() {
    assert_eq!(smccc::psci::AffinityState::On as usize, 0);
    assert_eq!(smccc::psci::AffinityState::Off as usize, 1);
    assert_eq!(smccc::psci::AffinityState::OnPending as usize, 2);
    assert_eq!(smccc::psci::MigrateType::MigrateCapable as usize, 0);
    assert_eq!(smccc::psci::MigrateType::NotMigrateCapable as usize, 1);
    assert_eq!(smccc::psci::MigrateType::MigrationNotRequired as usize, 2);
    assert_eq!(smccc::psci::PowerState::HwOn as usize, 0);
    assert_eq!(smccc::psci::PowerState::HwOff as usize, 1);
    assert_eq!(smccc::psci::PowerState::HwStandby as usize, 2);
}

#[test]
fn operations_of_calls() {
    let operations = |fid| guest_operations(&smc_guest_handler(fid, 1, 2, 3));
    assert_eq!(
        operations(PSCI_SYSTEM_RESET),
        vec![GuestOperation::Reboot, GuestOperation::FirmwareReset]
    );
    assert_eq!(
        operations(PSCI_SYSTEM_OFF),
        vec![GuestOperation::Firmware(FirmwareCall::SystemOff)]
    );
    assert_eq!(
        operations(PSCI_SYSTEM_RESET2_64),
        vec![GuestOperation::Firmware(FirmwareCall::SystemReset2 { reset_type: 1, cookie: 2 })]
    );
    assert_eq!(
        operations(PSCI_CPU_SUSPEND_64),
        vec![GuestOperation::Suspend { entry: 2, context: 3 }]
    );
    assert_eq!(
        operations(PSCI_CPU_ON_64),
        vec![GuestOperation::CpuOn { vmpidr: 1, entry: 2, context: 3 }]
    );
    assert!(operations(PSCI_FEATURES).is_empty());
    assert!(operations(0).is_empty());
}

#[test]
fn success_and_refusal() {
    let refused = Some((0, PSCI_E_NOT_SUPPORTED));
    assert_eq!(answer(PSCI_CPU_OFF, 0, GuestReply::Status(Ok(()))), Some((0, 0)));
    assert_eq!(answer(PSCI_SYSTEM_RESET, 0, GuestReply::Status(Ok(()))), Some((0, 0)));
    assert_eq!(answer(PSCI_MEM_PROTECT, 1, GuestReply::MemProtect(Ok(true))), Some((0, 1)));
    assert_eq!(answer(PSCI_MEM_PROTECT, 1, GuestReply::MemProtect(Ok(false))), Some((0, 0)));
    assert_eq!(answer(PSCI_CPU_OFF, 0, GuestReply::Status(Err(-3))), refused);
    assert_eq!(answer(PSCI_AFFINITY_INFO_64, 0, GuestReply::Affinity(Err(-2))), refused);
    assert_eq!(answer(PSCI_MIGRATE_INFO_TYPE, 0, GuestReply::MigrateInfo(Err(-1))), refused);
    assert_eq!(answer(PSCI_MEM_PROTECT, 1, GuestReply::MemProtect(Err(-1))), refused);
    assert_eq!(answer(PSCI_NODE_HW_STATE_64, 0, GuestReply::NodePower(Err(-9))), refused);
}

#[test]
fn replies_of_the_wrong_kind() {
    let call = smc_guest_handler(PSCI_VERSION, 0, 0, 0);
    assert!(!reply_fits(&call, &GuestReply::Status(Ok(()))));
    assert!(!reply_fits(&GuestCall::SystemReset, &GuestReply::Done));
    assert!(!reply_fits(&GuestCall::Answer(0), &GuestReply::CpuOn(0)));
}

#[test]
fn suspend() {
    let vcpu = Vcpu { vm_id: 1, id: 0, phys_id: 2, state: VcpuState::Running };
    assert_eq!(
        guest_suspend(vcpu, 0x8000, 5),
        vec![
            CoreAction::ResetContext(vcpu),
            CoreAction::SetGpr(vcpu, 0, 5),
            CoreAction::SetElr(vcpu, 0x8000),
            CoreAction::Sleep(vcpu),
        ]
    );
}

use hisi_rf_rtos_driver::{
    InvalidTaskPriority, RuntimeCapabilities, RuntimeContract, RuntimeContractVersion,
    RuntimeExecutionModes, RuntimeExecutionProfile, RuntimeRequirements, TaskPriority,
    TASK_PRIORITY_LEVELS,
};

#[test]
fn priority_range_and_order_are_contract_facts() {
    assert_eq!(TaskPriority::new(0), Some(TaskPriority::HIGHEST()));
    assert_eq!(TaskPriority::new(31), Some(TaskPriority::LOWEST()));
    assert_eq!(TaskPriority::new(32), None);
    assert_eq!(TaskPriority::try_from(32).unwrap_err().value(), 32);
    assert!(TaskPriority::HIGHEST().outranks(TaskPriority::LOWEST()));
    assert!(!TaskPriority::LOWEST().outranks(TaskPriority::HIGHEST()));
}

#[test]
fn version_and_capability_compatibility_fail_closed() {
    let newer_minor = RuntimeContract {
        version: RuntimeContractVersion { major: 1, minor: 3 },
        capabilities: RuntimeCapabilities::V1_3_REQUIRED(),
    };
    assert!(newer_minor.satisfies(RuntimeContract::V1()));

    assert!(!RuntimeContract::V1_0().satisfies(RuntimeContract::V1()));
    assert!(RuntimeContract::V1().satisfies(RuntimeContract::V1_0()));

    let wrong_major = RuntimeContract {
        version: RuntimeContractVersion { major: 2, minor: 0 },
        capabilities: RuntimeCapabilities::V1_2_REQUIRED(),
    };
    assert!(!wrong_major.satisfies(RuntimeContract::V1()));

    let missing_mutex = RuntimeContract {
        version: RuntimeContractVersion::V1_1(),
        capabilities: RuntimeCapabilities::from_bits(
            RuntimeCapabilities::V1_1_REQUIRED().bits()
                & !RuntimeCapabilities::RECURSIVE_PI_MUTEX().bits(),
        ),
    };
    assert!(!missing_mutex.satisfies(RuntimeContract::V1()));

    let missing_cancellation = RuntimeContract {
        version: RuntimeContractVersion::V1_1(),
        capabilities: RuntimeCapabilities::from_bits(
            RuntimeCapabilities::V1_1_REQUIRED().bits()
                & !RuntimeCapabilities::WAIT_CANCELLATION().bits(),
        ),
    };
    assert!(!missing_cancellation.satisfies(RuntimeContract::V1()));

    assert!(RuntimeContract::V1_2().satisfies(RuntimeContract::V1()));
    assert!(!RuntimeContract::V1().satisfies(RuntimeContract::V1_2()));
}

#[test]
fn execution_profiles_do_not_conflate_portless_and_ported_modes() {
    assert!(RuntimeExecutionProfile::V1_PORTED()
        .satisfies(RuntimeExecutionProfile::V1_PORTED_COOPERATIVE()));
    assert!(!RuntimeExecutionProfile::V1_PORTLESS_COOPERATIVE()
        .satisfies(RuntimeExecutionProfile::V1_PORTED_COOPERATIVE()));
    assert!(
        !RuntimeExecutionProfile::V1_PORTED().satisfies(RuntimeExecutionProfile {
            revision: 2,
            modes: RuntimeExecutionModes::PORTED_COOPERATIVE(),
        })
    );
}

#[test]
fn priority_conversions_round_trip() {
    for value in 0..TASK_PRIORITY_LEVELS {
        let priority = TaskPriority::try_from(value).unwrap();
        assert_eq!(priority.into_raw(), value);
        assert_eq!(u8::from(priority), value);
    }
    for value in TASK_PRIORITY_LEVELS..=u8::MAX {
        let rejected: InvalidTaskPriority = TaskPriority::try_from(value).unwrap_err();
        assert_eq!(rejected.value(), value);
    }
}

#[test]
fn priority_order_is_strict_and_total() {
    let two = TaskPriority::new(2).unwrap();
    let five = TaskPriority::new(5).unwrap();
    let nine = TaskPriority::new(9).unwrap();
    assert!(!two.outranks(two));
    assert!(two.outranks(five) && !five.outranks(two));
    assert!(two.outranks(five) && five.outranks(nine) && two.outranks(nine));
    assert!(TaskPriority::HIGHEST().outranks(two));
    assert!(!two.outranks(TaskPriority::HIGHEST()));
    assert!(!TaskPriority::LOWEST().outranks(nine));
}

#[test]
fn capability_constants_have_stable_bits() {
    assert_eq!(RuntimeCapabilities::NONE().bits(), 0);
    assert_eq!(RuntimeCapabilities::TASKS().bits(), 1);
    assert_eq!(RuntimeCapabilities::TASK_STACK_RESERVATION().bits(), 1 << 9);
    assert_eq!(RuntimeCapabilities::V1_0_REQUIRED().bits(), 0x1f);
    assert_eq!(RuntimeCapabilities::V1_1_REQUIRED().bits(), 0x7f);
    assert_eq!(RuntimeCapabilities::V1_2_REQUIRED().bits(), 0xff);
    assert_eq!(RuntimeCapabilities::V1_3_REQUIRED().bits(), 0x1ff);
    assert_eq!(RuntimeCapabilities::V1_4_REQUIRED().bits(), 0x3ff);
    assert_eq!(RuntimeCapabilities::V1_MINIMUM(), RuntimeCapabilities::V1_1_REQUIRED());
    assert_eq!(RuntimeCapabilities::V1_CURRENT(), RuntimeCapabilities::V1_4_REQUIRED());
    let combined = RuntimeCapabilities::TASKS() | RuntimeCapabilities::SEMAPHORE();
    assert_eq!(combined.bits(), 0x9);
    let mut accumulated = RuntimeCapabilities::NONE();
    accumulated |= RuntimeCapabilities::TASKS();
    accumulated |= RuntimeCapabilities::SCHEDULER_LOCK();
    assert_eq!(accumulated.bits(), 0x3);
    assert!(accumulated.contains(RuntimeCapabilities::TASKS()));
    assert!(!accumulated.contains(RuntimeCapabilities::SEMAPHORE()));
    assert!(accumulated.contains(RuntimeCapabilities::NONE()));
}

#[test]
fn execution_modes_combine_and_contain() {
    let ported = RuntimeExecutionModes::PORTED_COOPERATIVE()
        | RuntimeExecutionModes::BUDGETED()
        | RuntimeExecutionModes::PREEMPTIVE();
    assert_eq!(ported.bits(), 14);
    assert_eq!(RuntimeExecutionProfile::V1_PORTED().modes, ported);
    let mut modes = RuntimeExecutionModes::NONE();
    modes |= RuntimeExecutionModes::PORTLESS_COOPERATIVE();
    assert_eq!(modes.bits(), 1);
    assert!(ported.contains(RuntimeExecutionModes::BUDGETED()));
    assert!(!ported.contains(modes));
}

#[test]
fn contract_revisions_are_cumulative() {
    let revisions = [
        RuntimeContract::V1_0(),
        RuntimeContract::V1(),
        RuntimeContract::V1_2(),
        RuntimeContract::V1_3(),
        RuntimeContract::V1_4(),
    ];
    for (newer_index, newer) in revisions.iter().enumerate() {
        for (older_index, older) in revisions.iter().enumerate() {
            assert_eq!(newer.satisfies(*older), newer_index >= older_index);
        }
    }
    assert_eq!(
        RuntimeRequirements::V1_3_PORTED_COOPERATIVE().contract,
        RuntimeContract::V1_3()
    );
    assert_eq!(
        RuntimeRequirements::V1_4_PORTED_COOPERATIVE().execution_profile,
        RuntimeExecutionProfile::V1_PORTED_COOPERATIVE()
    );
    assert!(RuntimeContractVersion::V1_4().satisfies(RuntimeContractVersion::V1_2()));
    assert!(!RuntimeContractVersion::V1_2().satisfies(RuntimeContractVersion::V1_4()));
}

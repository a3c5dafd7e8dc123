use std::sync::atomic::{AtomicU32, Ordering};

use hisi_rf_rtos_driver::{
    admit_task_capacity, cancel_wait, current_task, interrupt_enter, interrupt_exit, lock_scheduler, mutex_create,
    mutex_lock, mutex_unlock, publish_semaphore_candidate, release_task_reservation,
    require_acquired, require_runtime, require_runtime_contract, require_task_capacity,
    reserve_task_capacity, reserve_task_resource_plan, reserve_task_resources, runtime_contract,
    runtime_execution_profile, semaphore_create, semaphore_down, semaphore_up,
    set_task_priority, settle_installation, sleep_ms, task_capacity, unlock_scheduler,
    validate_contract, validate_execution_profile, validate_offer, validate_runtime, yield_now, Error,
    Installation, MutexHandle, Runtime, RuntimeCapabilities, RuntimeContract,
    RuntimeContractVersion, RuntimeExecutionModes, RuntimeExecutionProfile,
    RuntimeRequirements, RuntimeSlot, SemaphoreHandle, TaskAdmissionError, TaskCapacity, TaskId,
    TaskPriority, TaskReservation, TaskReservationBatch, TaskResourceGroupRequirements, TaskResourceOwner,
    TaskResourcePlan, TaskResourceRequirements, WaitCancellationOutcome, WaitOutcome,
    WaitTimeout,
};

struct TestRuntime(AtomicU32, AtomicU32);

impl TestRuntime {
    /// Hands out consecutive task identities, as the runtime's spawn does.
    fn spawn(&self) -> Result<TaskId, Error> {
        Ok(TaskId::from_raw(self.0.fetch_add(1, Ordering::Relaxed)))
    }
}

impl Runtime for TestRuntime {
    fn spec_contract(&self) -> RuntimeContract {
        self.contract()
    }

    fn spec_execution_profile(&self) -> RuntimeExecutionProfile {
        self.execution_profile()
    }

    fn contract(&self) -> RuntimeContract {
        RuntimeContract::V1_3()
    }

    fn execution_profile(&self) -> RuntimeExecutionProfile {
        RuntimeExecutionProfile::V1_PORTED()
    }

    fn task_capacity(&self) -> Result<TaskCapacity, Error> {
        Ok(TaskCapacity::new(15, 2).unwrap())
    }

    fn reserve_tasks(&self, required: usize) -> Result<TaskReservation, TaskAdmissionError> {
        if required > 13 {
            return Err(TaskAdmissionError::InsufficientTaskSlots {
                required,
                available: 13,
            });
        }
        Ok(TaskReservation::from_raw(1))
    }

    fn release_task_reservation(&self, reservation: &TaskReservation) -> Result<(), Error> {
        self.1.fetch_add(reservation.into_raw(), Ordering::Relaxed);
        Ok(())
    }

    fn yield_now(&self) -> Result<(), Error> {
        Ok(())
    }

    fn sleep_ms(&self, _milliseconds: u32) -> Result<(), Error> {
        Ok(())
    }

    fn current_task(&self) -> Result<TaskId, Error> {
        Ok(TaskId::from_raw(7))
    }

    fn set_task_priority(&self, _task: TaskId, _priority: TaskPriority) -> Result<(), Error> {
        Ok(())
    }

    fn cancel_wait(&self, _task: TaskId) -> Result<WaitCancellationOutcome, Error> {
        Ok(WaitCancellationOutcome::NotWaiting)
    }

    fn lock_scheduler(&self) -> Result<(), Error> {
        Ok(())
    }

    fn unlock_scheduler(&self) -> Result<(), Error> {
        Ok(())
    }

    fn semaphore_create(&self, _initial: u32) -> Result<SemaphoreHandle, Error> {
        Ok(SemaphoreHandle::from_raw(1))
    }

    fn semaphore_down(
        &self,
        _semaphore: SemaphoreHandle,
        _timeout: WaitTimeout,
    ) -> Result<WaitOutcome, Error> {
        Ok(WaitOutcome::Acquired)
    }

    fn semaphore_up(&self, _semaphore: SemaphoreHandle) -> Result<(), Error> {
        Ok(())
    }

    fn mutex_create(&self) -> Result<MutexHandle, Error> {
        Ok(MutexHandle::from_raw(2))
    }

    fn mutex_lock(&self, _mutex: MutexHandle, _timeout: WaitTimeout) -> Result<WaitOutcome, Error> {
        Ok(WaitOutcome::Acquired)
    }

    fn mutex_unlock(&self, _mutex: MutexHandle) -> Result<(), Error> {
        Ok(())
    }
}

static RUNTIME_A: TestRuntime = TestRuntime(AtomicU32::new(1), AtomicU32::new(0));

#[test]
fn installs_exactly_one_runtime_and_dispatches() {
    validate_runtime(&RUNTIME_A).unwrap();
    assert_eq!(settle_installation(RuntimeSlot::Vacant), Ok(Installation::Publish));
    assert_eq!(settle_installation(RuntimeSlot::Same), Ok(Installation::Unchanged));
    assert_eq!(settle_installation(RuntimeSlot::Other), Err(Error::AlreadyInstalled));
    let runtime = Some(&RUNTIME_A);

    let id = RUNTIME_A.spawn().unwrap();
    assert_eq!(id.into_raw(), 1);
    assert_eq!(cancel_wait(runtime, id).unwrap(), WaitCancellationOutcome::NotWaiting);
    assert_eq!(current_task(runtime).unwrap().into_raw(), 7);
    set_task_priority(runtime, id, TaskPriority::new(2).unwrap()).unwrap();
    lock_scheduler(runtime).unwrap();
    unlock_scheduler(runtime).unwrap();

    let semaphore = semaphore_create(runtime, 1).unwrap();
    require_acquired(semaphore_down(runtime, semaphore, WaitTimeout::Forever).unwrap()).unwrap();
    semaphore_up(runtime, semaphore).unwrap();
    assert_eq!(
        semaphore_down(runtime, semaphore, WaitTimeout::NoWait).unwrap(),
        WaitOutcome::Acquired
    );

    let mutex = mutex_create(runtime).unwrap();
    assert_eq!(
        mutex_lock(runtime, mutex, WaitTimeout::Forever).unwrap(),
        WaitOutcome::Acquired
    );
    mutex_unlock(runtime, mutex).unwrap();
    assert_eq!(runtime_contract(runtime).unwrap(), RuntimeContract::V1_3());
    assert_eq!(
        runtime_execution_profile(runtime).unwrap(),
        RuntimeExecutionProfile::V1_PORTED()
    );
    assert_eq!(
        require_runtime_contract(runtime, RuntimeContract::V1()).unwrap(),
        RuntimeContract::V1_3()
    );
    assert_eq!(
        require_runtime(runtime, RuntimeRequirements::V1_PORTED_COOPERATIVE()).unwrap(),
        RuntimeRequirements {
            contract: RuntimeContract::V1_3(),
            execution_profile: RuntimeExecutionProfile::V1_PORTED(),
        }
    );
    assert_eq!(task_capacity(runtime).unwrap().dynamic_capacity(), 15);
    assert_eq!(task_capacity(runtime).unwrap().dynamic_used(), 2);
    assert_eq!(task_capacity(runtime).unwrap().dynamic_available(), 13);
    assert_eq!(require_task_capacity(runtime, 13), Ok(task_capacity(runtime).unwrap()));
    assert_eq!(
        require_task_capacity(runtime, 14),
        Err(TaskAdmissionError::InsufficientTaskSlots {
            required: 14,
            available: 13,
        })
    );
    let reservation = reserve_task_capacity(runtime, 3).unwrap();
    assert_eq!(reservation.into_raw(), 1);
    let reserved_task = RUNTIME_A.spawn().unwrap();
    assert_eq!(reserved_task.into_raw(), 2);
    release_task_reservation(runtime, &reservation).unwrap();
}

#[test]
fn contract_validation_rejects_missing_capabilities() {
    let incomplete = RuntimeContract {
        version: RuntimeContractVersion::V1_0(),
        capabilities: RuntimeCapabilities::TASKS(),
    };
    assert_eq!(validate_contract(incomplete), Err(Error::IncompatibleContract));
    assert_eq!(
        validate_execution_profile(RuntimeExecutionProfile {
            revision: 1,
            modes: RuntimeExecutionModes::NONE(),
        }),
        Err(Error::IncompatibleExecutionProfile)
    );
}

#[test]
fn execution_profile_validation_accepts_only_known_revision_one_modes() {
    assert_eq!(validate_execution_profile(RuntimeExecutionProfile::V1_PORTED()), Ok(()));
    assert_eq!(
        validate_execution_profile(RuntimeExecutionProfile::V1_PORTLESS_COOPERATIVE()),
        Ok(())
    );
    assert_eq!(
        validate_execution_profile(RuntimeExecutionProfile {
            revision: 1,
            modes: RuntimeExecutionModes::from_bits(0x10),
        }),
        Err(Error::IncompatibleExecutionProfile)
    );
    assert_eq!(
        validate_execution_profile(RuntimeExecutionProfile {
            revision: 2,
            modes: RuntimeExecutionModes::PREEMPTIVE(),
        }),
        Err(Error::IncompatibleExecutionProfile)
    );
    assert_eq!(validate_contract(RuntimeContract::V1_4()), Ok(()));
}

/// Runtime of an older contract that keeps every optional default.
struct LegacyRuntime;

impl Runtime for LegacyRuntime {
    fn spec_contract(&self) -> RuntimeContract {
        self.contract()
    }

    fn spec_execution_profile(&self) -> RuntimeExecutionProfile {
        self.execution_profile()
    }

    fn contract(&self) -> RuntimeContract {
        RuntimeContract::V1()
    }

    fn execution_profile(&self) -> RuntimeExecutionProfile {
        RuntimeExecutionProfile::V1_PORTLESS_COOPERATIVE()
    }

    fn yield_now(&self) -> Result<(), Error> {
        Err(Error::InvalidContext)
    }

    fn sleep_ms(&self, _milliseconds: u32) -> Result<(), Error> {
        Err(Error::InvalidContext)
    }

    fn current_task(&self) -> Result<TaskId, Error> {
        Err(Error::Runtime)
    }

    fn set_task_priority(&self, _task: TaskId, _priority: TaskPriority) -> Result<(), Error> {
        Err(Error::InvalidHandle)
    }

    fn cancel_wait(&self, _task: TaskId) -> Result<WaitCancellationOutcome, Error> {
        Ok(WaitCancellationOutcome::Cancelled)
    }

    fn lock_scheduler(&self) -> Result<(), Error> {
        Ok(())
    }

    fn unlock_scheduler(&self) -> Result<(), Error> {
        Err(Error::InvalidContext)
    }

    fn semaphore_create(&self, _initial: u32) -> Result<SemaphoreHandle, Error> {
        Err(Error::ResourceExhausted)
    }

    fn semaphore_down(
        &self,
        _semaphore: SemaphoreHandle,
        _timeout: WaitTimeout,
    ) -> Result<WaitOutcome, Error> {
        Ok(WaitOutcome::TimedOut)
    }

    fn semaphore_up(&self, _semaphore: SemaphoreHandle) -> Result<(), Error> {
        Ok(())
    }

    fn mutex_create(&self) -> Result<MutexHandle, Error> {
        Err(Error::ResourceExhausted)
    }

    fn mutex_lock(&self, _mutex: MutexHandle, _timeout: WaitTimeout) -> Result<WaitOutcome, Error> {
        Ok(WaitOutcome::TimedOut)
    }

    fn mutex_unlock(&self, _mutex: MutexHandle) -> Result<(), Error> {
        Ok(())
    }
}

#[test]
fn missing_capabilities_fail_before_reaching_the_runtime() {
    let legacy = Some(&LegacyRuntime);
    assert_eq!(task_capacity(legacy), Err(Error::IncompatibleContract));
    assert_eq!(
        require_task_capacity(legacy, 1),
        Err(TaskAdmissionError::Runtime(Error::IncompatibleContract))
    );
    assert_eq!(
        reserve_task_capacity(legacy, 1),
        Err(TaskAdmissionError::Runtime(Error::IncompatibleContract))
    );
    let requirements = TaskResourceRequirements::new(2, 1024).unwrap();
    assert_eq!(
        reserve_task_resources(legacy, requirements),
        Err(TaskAdmissionError::Runtime(Error::IncompatibleContract))
    );
    let groups = [TaskResourceGroupRequirements::new(TaskResourceOwner::new(5), requirements)];
    let plan = TaskResourcePlan::new(&groups).unwrap();
    assert!(matches!(
        reserve_task_resource_plan(legacy, plan),
        Err(TaskAdmissionError::Runtime(Error::IncompatibleContract))
    ));
    assert_eq!(
        require_runtime_contract(legacy, RuntimeContract::V1_2()),
        Err(Error::IncompatibleContract)
    );
    assert_eq!(
        require_runtime(legacy, RuntimeRequirements::V1_PORTED_COOPERATIVE()),
        Err(Error::IncompatibleExecutionProfile)
    );
    assert_eq!(
        require_runtime(legacy, RuntimeRequirements::V1_3_PORTED_COOPERATIVE()),
        Err(Error::IncompatibleContract)
    );
    assert_eq!(interrupt_enter(legacy), Ok(()));
    assert_eq!(interrupt_exit(legacy), Ok(()));
    assert_eq!(
        release_task_reservation(legacy, &TaskReservation::from_raw(3)),
        Err(Error::IncompatibleContract)
    );
    assert_eq!(
        require_acquired(semaphore_down(legacy, SemaphoreHandle::from_raw(4), WaitTimeout::Forever).unwrap()),
        Err(Error::TimedOut)
    );
    assert_eq!(yield_now(legacy), Err(Error::InvalidContext));
    assert_eq!(sleep_ms(legacy, 5), Err(Error::InvalidContext));
}

#[test]
fn dispatch_without_runtime_reports_not_installed() {
    let none: Option<&TestRuntime> = None;
    assert_eq!(runtime_contract(none), Err(Error::NotInstalled));
    assert_eq!(runtime_execution_profile(none), Err(Error::NotInstalled));
    assert_eq!(task_capacity(none), Err(Error::NotInstalled));
    assert_eq!(
        require_task_capacity(none, 1),
        Err(TaskAdmissionError::Runtime(Error::NotInstalled))
    );
    assert_eq!(
        reserve_task_capacity(none, 1),
        Err(TaskAdmissionError::Runtime(Error::NotInstalled))
    );
    assert_eq!(yield_now(none), Err(Error::NotInstalled));
    assert_eq!(sleep_ms(none, 1), Err(Error::NotInstalled));
    assert_eq!(current_task(none), Err(Error::NotInstalled));
    assert_eq!(lock_scheduler(none), Err(Error::NotInstalled));
    assert_eq!(semaphore_create(none, 0), Err(Error::NotInstalled));
    assert_eq!(mutex_create(none), Err(Error::NotInstalled));
    assert_eq!(
        cancel_wait(none, TaskId::from_raw(1)),
        Err(Error::NotInstalled)
    );
    assert_eq!(
        require_runtime(none, RuntimeRequirements::V1_PORTED_COOPERATIVE()),
        Err(Error::NotInstalled)
    );
}

#[test]
fn first_published_semaphore_handle_wins() {
    let published = SemaphoreHandle::from_raw(10);
    let candidate = SemaphoreHandle::from_raw(11);
    assert_eq!(publish_semaphore_candidate(Some(published), candidate), (published, true));
    assert_eq!(publish_semaphore_candidate(None, candidate), (candidate, false));
    assert_eq!(candidate.into_raw(), 11);
    assert_eq!(require_acquired(WaitOutcome::Acquired), Ok(()));
}

#[test]
fn wait_timeouts_follow_the_vendor_millisecond_convention() {
    assert_eq!(WaitTimeout::from_millis(0), WaitTimeout::NoWait);
    assert_eq!(WaitTimeout::from_millis(u32::MAX), WaitTimeout::Forever);
    assert_eq!(WaitTimeout::from_millis(25), WaitTimeout::Milliseconds(25));
    assert_eq!(WaitTimeout::from_millis(u32::MAX - 1), WaitTimeout::Milliseconds(u32::MAX - 1));
}

#[test]
fn releasing_a_batch_returns_only_the_remaining_reservations() {
    let runtime = TestRuntime(AtomicU32::new(1), AtomicU32::new(0));
    let mut reservations = [const { None }; 4];
    reservations[0] = Some(TaskReservation::from_raw(1));
    reservations[1] = Some(TaskReservation::from_raw(10));
    reservations[2] = Some(TaskReservation::from_raw(100));
    let mut batch = TaskReservationBatch::from_reservations(reservations, 3);
    let kept = batch.take(1).unwrap();
    assert_eq!(batch.release_remaining(Some(&runtime)), 2);
    assert_eq!(runtime.1.load(Ordering::Relaxed), 101);
    assert_eq!(kept.into_raw(), 10);
}

#[test]
fn offer_validation_checks_the_contract_first() {
    let bad_profile = RuntimeExecutionProfile {
        revision: 3,
        modes: RuntimeExecutionModes::NONE(),
    };
    assert_eq!(
        validate_offer(RuntimeContract::V1_0(), bad_profile),
        Err(Error::IncompatibleContract)
    );
    assert_eq!(
        validate_offer(RuntimeContract::V1(), bad_profile),
        Err(Error::IncompatibleExecutionProfile)
    );
    assert_eq!(
        validate_offer(RuntimeContract::V1(), RuntimeExecutionProfile::V1_PORTED()),
        Ok(())
    );
    assert_eq!(validate_runtime(&LegacyRuntime), Ok(()));
}

#[test]
fn capacity_answers_are_judged_against_the_request() {
    assert_eq!(
        admit_task_capacity(Err(Error::InvalidContext), 1),
        Err(TaskAdmissionError::Runtime(Error::InvalidContext))
    );
    let snapshot = TaskCapacity::new(4, 1).unwrap();
    assert_eq!(admit_task_capacity(Ok(snapshot), 3), Ok(snapshot));
    assert_eq!(
        admit_task_capacity(Ok(snapshot), 4),
        Err(TaskAdmissionError::InsufficientTaskSlots { required: 4, available: 3 })
    );
}

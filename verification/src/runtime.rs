//! The runtime capability interface and the admission and dispatch logic
//! applied in front of the firmware's installed runtime.
//!
//! The firmware keeps at most one installed runtime. Every dispatch function
//! takes the result of looking that runtime up (`None` when nothing is
//! installed) and applies the contract's checks before forwarding the call.
use vstd::prelude::*;

use crate::admission::{
    batch_admits_plan, live_reservations, TaskAdmissionError, TaskCapacity, TaskReservation, TaskReservationBatch, TaskResourcePlan,
    TaskResourceRequirements,
};
use crate::contract::{
    group_contract_bits, RuntimeCapabilities, RuntimeContract, RuntimeExecutionModes,
    RuntimeExecutionProfile, RuntimeRequirements, TaskPriority,
};
use crate::services::{
    Error, MutexHandle, SemaphoreHandle, TaskId, WaitCancellationOutcome, WaitOutcome, WaitTimeout,
};

verus! {

/// Scheduler and synchronization capabilities consumed by a radio adapter.
///
/// Implementations must never invoke user callbacks while holding a scheduler
/// lock or with interrupts disabled. [`Runtime::semaphore_up`] must be callable
/// from an interrupt; in that context it may only record readiness and request
/// a deferred schedule. Adapters bracket ISR dispatch with
/// [`Runtime::interrupt_enter`] and [`Runtime::interrupt_exit`] so a backend can
/// distinguish task-context wakeups from interrupt-context wakeups.
pub trait Runtime: Sync {
    /// The contract this backend advertises, as proofs see it.
    spec fn spec_contract(&self) -> RuntimeContract;

    /// The execution profile this backend advertises, as proofs see it.
    spec fn spec_execution_profile(&self) -> RuntimeExecutionProfile;

    // Answer relations. Each one holds of the answers this backend may give
    // to one request. A backend may narrow a relation to describe itself;
    // left alone, a relation admits every answer. Generic callers cannot
    // see inside a relation, so it ties each forwarded request to the
    // arguments it was made with.

    /// Answers this backend may give to a capacity query.
    open spec fn task_capacity_answer(&self, answer: Result<TaskCapacity, Error>) -> bool {
        true
    }

    /// Answers this backend may give to a reservation of `required` slots.
    open spec fn reserve_tasks_answer(
        &self,
        required: usize,
        answer: Result<TaskReservation, TaskAdmissionError>,
    ) -> bool {
        true
    }

    /// Answers this backend may give to a reservation of `required` slots
    /// and their stacks.
    open spec fn reserve_task_resources_answer(
        &self,
        required: TaskResourceRequirements,
        answer: Result<TaskReservation, TaskAdmissionError>,
    ) -> bool {
        true
    }

    /// Answers this backend may give to the admission of `plan`.
    open spec fn reserve_task_resource_plan_answer(
        &self,
        plan: TaskResourcePlan<'_>,
        answer: Result<TaskReservationBatch, TaskAdmissionError>,
    ) -> bool {
        true
    }

    /// Answers this backend may give to the release of `reservation`.
    open spec fn release_task_reservation_answer(
        &self,
        reservation: TaskReservation,
        answer: Result<(), Error>,
    ) -> bool {
        true
    }

    /// Answers this backend may give to a yield.
    open spec fn yield_now_answer(&self, answer: Result<(), Error>) -> bool {
        true
    }

    /// Answers this backend may give to a sleep of `milliseconds`.
    open spec fn sleep_ms_answer(&self, milliseconds: u32, answer: Result<(), Error>) -> bool {
        true
    }

    /// Answers this backend may give when asked for the current task.
    open spec fn current_task_answer(&self, answer: Result<TaskId, Error>) -> bool {
        true
    }

    /// Answers this backend may give to a priority change of `task`.
    open spec fn set_task_priority_answer(
        &self,
        task: TaskId,
        priority: TaskPriority,
        answer: Result<(), Error>,
    ) -> bool {
        true
    }

    /// Answers this backend may give to cancelling the wait of `task`.
    open spec fn cancel_wait_answer(
        &self,
        task: TaskId,
        answer: Result<WaitCancellationOutcome, Error>,
    ) -> bool {
        true
    }

    /// Answers this backend may give to a scheduler lock.
    open spec fn lock_scheduler_answer(&self, answer: Result<(), Error>) -> bool {
        true
    }

    /// Answers this backend may give to a scheduler unlock.
    open spec fn unlock_scheduler_answer(&self, answer: Result<(), Error>) -> bool {
        true
    }

    /// Answers this backend may give when told an interrupt handler began.
    open spec fn interrupt_enter_answer(&self, answer: Result<(), Error>) -> bool {
        true
    }

    /// Answers this backend may give when told an interrupt handler ended.
    open spec fn interrupt_exit_answer(&self, answer: Result<(), Error>) -> bool {
        true
    }

    /// Answers this backend may give to creating a semaphore with `initial`
    /// counts.
    open spec fn semaphore_create_answer(
        &self,
        initial: u32,
        answer: Result<SemaphoreHandle, Error>,
    ) -> bool {
        true
    }

    /// Answers this backend may give to a wait on `semaphore`.
    open spec fn semaphore_down_answer(
        &self,
        semaphore: SemaphoreHandle,
        timeout: WaitTimeout,
        answer: Result<WaitOutcome, Error>,
    ) -> bool {
        true
    }

    /// Answers this backend may give to a release of `semaphore`.
    open spec fn semaphore_up_answer(
        &self,
        semaphore: SemaphoreHandle,
        answer: Result<(), Error>,
    ) -> bool {
        true
    }

    /// Answers this backend may give to creating a mutex.
    open spec fn mutex_create_answer(&self, answer: Result<MutexHandle, Error>) -> bool {
        true
    }

    /// Answers this backend may give to a lock of `mutex`.
    open spec fn mutex_lock_answer(
        &self,
        mutex: MutexHandle,
        timeout: WaitTimeout,
        answer: Result<WaitOutcome, Error>,
    ) -> bool {
        true
    }

    /// Answers this backend may give to an unlock of `mutex`.
    open spec fn mutex_unlock_answer(&self, mutex: MutexHandle, answer: Result<(), Error>) -> bool {
        true
    }

    /// Describes the versioned semantics implemented by this backend.
    fn contract(&self) -> (r: RuntimeContract)
        ensures
            r == self.spec_contract(),
    ;

    /// Describes scheduling modes backed by the installed target resources.
    fn execution_profile(&self) -> (r: RuntimeExecutionProfile)
        ensures
            r == self.spec_execution_profile(),
    ;

    /// Returns an advisory snapshot of dynamic task capacity.
    ///
    /// Backends advertising [`RuntimeCapabilities::TASK_CAPACITY_QUERY`] must
    /// override this method. The default serves older backends and refuses
    /// the query as unsupported.
    fn task_capacity(&self) -> (r: Result<TaskCapacity, Error>)
        ensures
            r == Err::<TaskCapacity, Error>(Error::IncompatibleContract) || self.task_capacity_answer(r),
        default_ensures
            r == Err::<TaskCapacity, Error>(Error::IncompatibleContract),
    {
        Err(Error::IncompatibleContract)
    }

    /// Atomically reserves `required` (non-zero) dynamic task slots for one
    /// subsystem owner.
    fn reserve_tasks(&self, required: usize) -> (r: Result<TaskReservation, TaskAdmissionError>)
        requires
            required != 0,
        ensures
            r == Err::<TaskReservation, TaskAdmissionError>(
                TaskAdmissionError::Runtime(Error::IncompatibleContract),
            ) || self.reserve_tasks_answer(required, r),
        default_ensures
            r == Err::<TaskReservation, TaskAdmissionError>(
                TaskAdmissionError::Runtime(Error::IncompatibleContract),
            ),
    {
        Err(TaskAdmissionError::Runtime(Error::IncompatibleContract))
    }

    /// Atomically reserves dynamic task slots and their stack allocations.
    fn reserve_task_resources(&self, required: TaskResourceRequirements) -> (r: Result<
        TaskReservation,
        TaskAdmissionError,
    >)
        ensures
            r == Err::<TaskReservation, TaskAdmissionError>(
                TaskAdmissionError::Runtime(Error::IncompatibleContract),
            ) || self.reserve_task_resources_answer(required, r),
        default_ensures
            r == Err::<TaskReservation, TaskAdmissionError>(
                TaskAdmissionError::Runtime(Error::IncompatibleContract),
            ),
    {
        Err(TaskAdmissionError::Runtime(Error::IncompatibleContract))
    }

    /// Atomically reserves every independently owned group in one plan.
    ///
    /// The admitted batch holds one live child reservation per group, in
    /// plan order. No reservation may remain live when this method returns
    /// an error.
    fn reserve_task_resource_plan(&self, plan: TaskResourcePlan<'_>) -> (r: Result<
        TaskReservationBatch,
        TaskAdmissionError,
    >)
        ensures
            r matches Ok(batch) ==> batch_admits_plan(batch, plan),
            r == Err::<TaskReservationBatch, TaskAdmissionError>(
                TaskAdmissionError::Runtime(Error::IncompatibleContract),
            ) || self.reserve_task_resource_plan_answer(plan, r),
        default_ensures
            r == Err::<TaskReservationBatch, TaskAdmissionError>(
                TaskAdmissionError::Runtime(Error::IncompatibleContract),
            ),
    {
        Err(TaskAdmissionError::Runtime(Error::IncompatibleContract))
    }

    /// Releases the still-unconsumed slots held by a reservation.
    fn release_task_reservation(&self, reservation: &TaskReservation) -> (r: Result<(), Error>)
        ensures
            r == Err::<(), Error>(Error::IncompatibleContract)
                || self.release_task_reservation_answer(*reservation, r),
        default_ensures
            r == Err::<(), Error>(Error::IncompatibleContract),
    {
        Err(Error::IncompatibleContract)
    }

    /// Makes another ready task eligible to run.
    fn yield_now(&self) -> (r: Result<(), Error>)
        ensures
            self.yield_now_answer(r),
    ;

    /// Blocks the current task for at least `milliseconds` (non-zero).
    fn sleep_ms(&self, milliseconds: u32) -> (r: Result<(), Error>)
        requires
            milliseconds != 0,
        ensures
            self.sleep_ms_answer(milliseconds, r),
    ;

    /// Returns the current task identity.
    fn current_task(&self) -> (r: Result<TaskId, Error>)
        ensures
            self.current_task_answer(r),
    ;

    /// Changes a live task's runtime-defined scheduling priority.
    fn set_task_priority(&self, task: TaskId, priority: TaskPriority) -> (r: Result<(), Error>)
        ensures
            self.set_task_priority_answer(task, priority, r),
    ;

    /// Cancels a task's queued wait or unconsumed direct resource handoff.
    ///
    /// Cancelling a direct semaphore handoff returns the count to the
    /// semaphore. Cancelling a direct mutex handoff releases that ownership and
    /// hands it to the next waiter, if any.
    fn cancel_wait(&self, task: TaskId) -> (r: Result<WaitCancellationOutcome, Error>)
        ensures
            self.cancel_wait_answer(task, r),
    ;

    /// Prevents scheduler-driven preemption of the current task. Calls nest.
    fn lock_scheduler(&self) -> (r: Result<(), Error>)
        ensures
            self.lock_scheduler_answer(r),
    ;

    /// Releases one scheduler-lock nesting level for the current task.
    fn unlock_scheduler(&self) -> (r: Result<(), Error>)
        ensures
            self.unlock_scheduler_answer(r),
    ;

    /// Marks entry into an interrupt handler that may call runtime services.
    fn interrupt_enter(&self) -> (r: Result<(), Error>)
        ensures
            r == Ok::<(), Error>(()) || self.interrupt_enter_answer(r),
        default_ensures
            r == Ok::<(), Error>(()),
    {
        Ok(())
    }

    /// Marks exit from an interrupt handler that may call runtime services.
    fn interrupt_exit(&self) -> (r: Result<(), Error>)
        ensures
            r == Ok::<(), Error>(()) || self.interrupt_exit_answer(r),
        default_ensures
            r == Ok::<(), Error>(()),
    {
        Ok(())
    }

    /// Allocates a counting semaphore.
    fn semaphore_create(&self, initial: u32) -> (r: Result<SemaphoreHandle, Error>)
        ensures
            self.semaphore_create_answer(initial, r),
    ;

    /// Waits for one semaphore count.
    fn semaphore_down(&self, semaphore: SemaphoreHandle, timeout: WaitTimeout) -> (r: Result<
        WaitOutcome,
        Error,
    >)
        ensures
            self.semaphore_down_answer(semaphore, timeout, r),
    ;

    /// Adds one count or wakes one waiter. This operation must be ISR-safe.
    fn semaphore_up(&self, semaphore: SemaphoreHandle) -> (r: Result<(), Error>)
        ensures
            self.semaphore_up_answer(semaphore, r),
    ;

    /// Allocates a recursive priority-inheritance mutex.
    fn mutex_create(&self) -> (r: Result<MutexHandle, Error>)
        ensures
            self.mutex_create_answer(r),
    ;

    /// Acquires a mutex recursively or waits according to `timeout`.
    fn mutex_lock(&self, mutex: MutexHandle, timeout: WaitTimeout) -> (r: Result<
        WaitOutcome,
        Error,
    >)
        ensures
            self.mutex_lock_answer(mutex, timeout, r),
    ;

    /// Releases one recursion level. Only the owning task may unlock.
    fn mutex_unlock(&self, mutex: MutexHandle) -> (r: Result<(), Error>)
        ensures
            self.mutex_unlock_answer(mutex, r),
    ;
}

/// Contract offered by a runtime that may be installed.
pub open spec fn contract_installable(contract: RuntimeContract) -> bool {
    contract.satisfies(RuntimeContract::V1())
}

/// A contract is installable exactly when it is of major version 1, at
/// minor revision 1 or later, and advertises every capability bit of
/// contract v1 (`0x7f`): a backend missing any of them is refused whatever
/// its version.
pub proof fn lemma_installable_contracts(contract: RuntimeContract)
    ensures
        contract_installable(contract) <==> (contract.version.major == 1
            && contract.version.minor >= 1 && contract.capabilities.spec_bits() & 0x7f == 0x7f),
{
    broadcast use group_contract_bits;

}

/// An execution profile is installable exactly when it is of revision 1
/// and advertises at least one mode and only the four modes revision 1
/// defines (bits within `0xf`).
pub proof fn lemma_installable_profiles(profile: RuntimeExecutionProfile)
    ensures
        profile_installable(profile) <==> (profile.revision == 1 && profile.modes.spec_bits() != 0
            && profile.modes.spec_bits() & 0xf == profile.modes.spec_bits()),
{
    broadcast use group_contract_bits;

    let bits = profile.modes.spec_bits();
    assert(bits & 0xf == 0xf & bits) by (bit_vector);
}

/// An accepted offer has an installable contract and an installable
/// execution profile.
pub proof fn lemma_accepted_offers_are_installable(
    contract: RuntimeContract,
    profile: RuntimeExecutionProfile,
)
    ensures
        offer_validation(contract, profile) is Ok <==> contract_installable(contract)
            && profile_installable(profile),
        !contract_installable(contract) ==> offer_validation(contract, profile) == Err::<(), Error>(
            Error::IncompatibleContract,
        ),
{
}

/// Every scheduling mode defined by execution-profile revision 1.
pub open spec fn known_execution_modes() -> RuntimeExecutionModes {
    RuntimeExecutionModes::spec_from_bits(0xf)
}

/// Execution profile offered by a runtime that may be installed: revision 1,
/// at least one mode, and only modes that revision 1 defines.
pub open spec fn profile_installable(profile: RuntimeExecutionProfile) -> bool {
    &&& profile.revision == 1
    &&& profile.modes.bits() != 0
    &&& known_execution_modes().contains(profile.modes)
}

/// Rejects a backend whose contract cannot satisfy contract v1.
pub fn validate_contract(contract: RuntimeContract) -> (r: Result<(), Error>)
    ensures
        r == (if contract_installable(contract) {
            Ok::<(), Error>(())
        } else {
            Err(Error::IncompatibleContract)
        }),
        r is Ok <==> contract.version.major == 1 && contract.version.minor >= 1
            && contract.capabilities.contains(RuntimeCapabilities::V1_1_REQUIRED()),
{
    broadcast use group_contract_bits;

    if contract.satisfies(RuntimeContract::V1()) {
        Ok(())
    } else {
        Err(Error::IncompatibleContract)
    }
}

/// Rejects a backend whose execution profile is of an unknown revision,
/// empty, or advertises modes unknown to revision 1.
pub fn validate_execution_profile(profile: RuntimeExecutionProfile) -> (r: Result<(), Error>)
    ensures
        r == (if profile_installable(profile) {
            Ok::<(), Error>(())
        } else {
            Err(Error::IncompatibleExecutionProfile)
        }),
{
    broadcast use group_contract_bits;

    let known_modes = RuntimeExecutionModes::PORTLESS_COOPERATIVE()
        | RuntimeExecutionModes::PORTED_COOPERATIVE() | RuntimeExecutionModes::BUDGETED()
        | RuntimeExecutionModes::PREEMPTIVE();
    assert(1u32 | 2u32 | 4u32 | 8u32 == 0xfu32) by (bit_vector);
    if profile.revision == 1 && profile.modes.bits() != 0 && known_modes.contains(profile.modes) {
        Ok(())
    } else {
        Err(Error::IncompatibleExecutionProfile)
    }
}

/// Outcome of validating an offered contract and execution profile before
/// installation: the contract is checked first, then the profile.
pub open spec fn offer_validation(
    contract: RuntimeContract,
    profile: RuntimeExecutionProfile,
) -> Result<(), Error> {
    if !contract_installable(contract) {
        Err(Error::IncompatibleContract)
    } else if !profile_installable(profile) {
        Err(Error::IncompatibleExecutionProfile)
    } else {
        Ok(())
    }
}

/// Validates an offered contract and execution profile: the contract is
/// checked first, and the offer is accepted when both checks pass.
pub fn validate_offer(contract: RuntimeContract, profile: RuntimeExecutionProfile) -> (r: Result<
    (),
    Error,
>)
    ensures
        r == offer_validation(contract, profile),
{
    validate_contract(contract)?;
    validate_execution_profile(profile)
}

/// Validates the contract and then the execution profile that `runtime`
/// advertises, before it may be installed. Its profile is asked for only
/// once its contract was accepted.
pub fn validate_runtime<R: Runtime + ?Sized>(runtime: &R) -> (r: Result<(), Error>)
    ensures
        r == offer_validation(runtime.spec_contract(), runtime.spec_execution_profile()),
        !runtime.spec_contract().capabilities.contains(RuntimeCapabilities::V1_1_REQUIRED())
            ==> r == Err::<(), Error>(Error::IncompatibleContract),
{
    broadcast use group_contract_bits;

    let contract = runtime.contract();
    if validate_contract(contract).is_err() {
        return Err(Error::IncompatibleContract);
    }
    let profile = runtime.execution_profile();
    validate_offer(contract, profile)
}

/// What the firmware's runtime slot holds when a runtime is installed.
#[derive(Clone, Copy, Debug, PartialEq, Eq, Structural)]
pub enum RuntimeSlot {
    /// No runtime has been installed yet.
    Vacant,
    /// The very runtime being installed is already installed.
    Same,
    /// A different runtime is already installed.
    Other,
}

/// What installing a validated runtime does to the firmware's slot.
#[derive(Clone, Copy, Debug, PartialEq, Eq, Structural)]
pub enum Installation {
    /// Store the runtime: the slot was vacant.
    Publish,
    /// Leave the slot alone: the runtime was already installed.
    Unchanged,
}

/// Decides the installation of a validated runtime. The firmware holds
/// exactly one runtime: a vacant slot accepts it, reinstalling the same
/// runtime is idempotent, and a different runtime is refused.
pub fn settle_installation(slot: RuntimeSlot) -> (r: Result<Installation, Error>)
    ensures
        slot == RuntimeSlot::Vacant ==> r == Ok::<Installation, Error>(Installation::Publish),
        slot == RuntimeSlot::Same ==> r == Ok::<Installation, Error>(Installation::Unchanged),
        slot == RuntimeSlot::Other ==> r == Err::<Installation, Error>(Error::AlreadyInstalled),
{
    match slot {
        RuntimeSlot::Vacant => Ok(Installation::Publish),
        RuntimeSlot::Same => Ok(Installation::Unchanged),
        RuntimeSlot::Other => Err(Error::AlreadyInstalled),
    }
}

/// Succeeds exactly when `contract` advertises every bit of `capability`.
pub fn require_capability(contract: RuntimeContract, capability: RuntimeCapabilities) -> (r: Result<
    (),
    Error,
>)
    ensures
        r == (if contract.capabilities.contains(capability) {
            Ok::<(), Error>(())
        } else {
            Err(Error::IncompatibleContract)
        }),
{
    if contract.capabilities.contains(capability) {
        Ok(())
    } else {
        Err(Error::IncompatibleContract)
    }
}

/// Checks whether a capacity snapshot can accommodate `required` tasks.
pub fn check_task_capacity(snapshot: TaskCapacity, required: usize) -> (r: Result<
    TaskCapacity,
    TaskAdmissionError,
>)
    ensures
        0 <= snapshot.available() <= usize::MAX,
        snapshot.available() >= required ==> r == Ok::<TaskCapacity, TaskAdmissionError>(snapshot),
        snapshot.available() < required ==> r == Err::<TaskCapacity, TaskAdmissionError>(
            TaskAdmissionError::InsufficientTaskSlots {
                required,
                available: snapshot.available() as usize,
            },
        ),
{
    let available = snapshot.dynamic_available();
    if available < required {
        return Err(TaskAdmissionError::InsufficientTaskSlots { required, available });
    }
    Ok(snapshot)
}

/// The offered contract when it satisfies `required`, else
/// `IncompatibleContract`.
pub open spec fn contract_check(offered: RuntimeContract, required: RuntimeContract) -> Result<
    RuntimeContract,
    Error,
> {
    if offered.satisfies(required) {
        Ok(offered)
    } else {
        Err(Error::IncompatibleContract)
    }
}

/// An offered contract is accepted exactly when it has the required major
/// version, at least the required minor revision, and every required
/// capability bit; what is accepted is the offered contract itself.
pub proof fn lemma_contract_check(offered: RuntimeContract, required: RuntimeContract)
    ensures
        contract_check(offered, required) is Ok <==> (offered.version.major
            == required.version.major && offered.version.minor >= required.version.minor
            && offered.capabilities.spec_bits() & required.capabilities.spec_bits()
            == required.capabilities.spec_bits()),
        contract_check(offered, required) is Ok ==> contract_check(offered, required) == Ok::<
            RuntimeContract,
            Error,
        >(offered),
        contract_check(offered, required) is Err ==> contract_check(offered, required) == Err::<
            RuntimeContract,
            Error,
        >(Error::IncompatibleContract),
{
}

/// Returns the offered contract exactly when it satisfies `required`.
pub fn check_runtime_contract(offered: RuntimeContract, required: RuntimeContract) -> (r: Result<
    RuntimeContract,
    Error,
>)
    ensures
        r == contract_check(offered, required),
        !offered.capabilities.contains(required.capabilities) ==> r == Err::<RuntimeContract, Error>(
            Error::IncompatibleContract,
        ),
{
    if offered.satisfies(required) {
        Ok(offered)
    } else {
        Err(Error::IncompatibleContract)
    }
}

/// The offered pair when it satisfies `required`: the contract is judged
/// first, then the execution profile.
pub open spec fn requirements_check(
    required: RuntimeRequirements,
    contract: RuntimeContract,
    execution_profile: RuntimeExecutionProfile,
) -> Result<RuntimeRequirements, Error> {
    if !contract.satisfies(required.contract) {
        Err(Error::IncompatibleContract)
    } else if !execution_profile.satisfies(required.execution_profile) {
        Err(Error::IncompatibleExecutionProfile)
    } else {
        Ok(RuntimeRequirements { contract, execution_profile })
    }
}

/// Requirements are met exactly when the offered contract has the required
/// major version, at least the required minor revision and every required
/// capability bit, and the offered profile has the required revision and
/// every required mode bit. A contract short of a required capability is
/// refused as an incompatible contract, whatever the profile; what is
/// accepted is the offered pair itself.
pub proof fn lemma_requirements_check(
    required: RuntimeRequirements,
    contract: RuntimeContract,
    execution_profile: RuntimeExecutionProfile,
)
    ensures
        requirements_check(required, contract, execution_profile) is Ok <==> (
        contract.version.major == required.contract.version.major && contract.version.minor
            >= required.contract.version.minor && contract.capabilities.spec_bits()
            & required.contract.capabilities.spec_bits() == required.contract.capabilities.spec_bits()
            && execution_profile.revision == required.execution_profile.revision
            && execution_profile.modes.spec_bits() & required.execution_profile.modes.spec_bits()
            == required.execution_profile.modes.spec_bits()),
        contract.capabilities.spec_bits() & required.contract.capabilities.spec_bits()
            != required.contract.capabilities.spec_bits() ==> requirements_check(
            required,
            contract,
            execution_profile,
        ) == Err::<RuntimeRequirements, Error>(Error::IncompatibleContract),
        requirements_check(required, contract, execution_profile) is Ok ==> requirements_check(
            required,
            contract,
            execution_profile,
        ) == Ok::<RuntimeRequirements, Error>(RuntimeRequirements { contract, execution_profile }),
{
}

/// Checks an offered contract and execution profile against an adapter's
/// requirements; the contract is checked first.
pub fn check_runtime_requirements(
    required: RuntimeRequirements,
    contract: RuntimeContract,
    execution_profile: RuntimeExecutionProfile,
) -> (r: Result<RuntimeRequirements, Error>)
    ensures
        r == requirements_check(required, contract, execution_profile),
        !contract.capabilities.contains(required.contract.capabilities) ==> r == Err::<
            RuntimeRequirements,
            Error,
        >(Error::IncompatibleContract),
        r is Ok ==> contract.satisfies(required.contract) && execution_profile.satisfies(
            required.execution_profile,
        ),
{
    if !contract.satisfies(required.contract) {
        return Err(Error::IncompatibleContract);
    }
    if !execution_profile.satisfies(required.execution_profile) {
        return Err(Error::IncompatibleExecutionProfile);
    }
    Ok(RuntimeRequirements { contract, execution_profile })
}

/// Returns the installed runtime's versioned contract.
pub fn runtime_contract<R: Runtime + ?Sized>(runtime: Option<&R>) -> (r: Result<
    RuntimeContract,
    Error,
>)
    ensures
        runtime is None ==> r == Err::<RuntimeContract, Error>(Error::NotInstalled),
        runtime matches Some(rt) ==> r == Ok::<RuntimeContract, Error>(rt.spec_contract()),
{
    match runtime {
        None => Err(Error::NotInstalled),
        Some(runtime) => Ok(runtime.contract()),
    }
}

/// Returns scheduling guarantees backed by the installed target resources.
pub fn runtime_execution_profile<R: Runtime + ?Sized>(runtime: Option<&R>) -> (r: Result<
    RuntimeExecutionProfile,
    Error,
>)
    ensures
        runtime is None ==> r == Err::<RuntimeExecutionProfile, Error>(Error::NotInstalled),
        runtime matches Some(rt) ==> r == Ok::<RuntimeExecutionProfile, Error>(
            rt.spec_execution_profile(),
        ),
{
    match runtime {
        None => Err(Error::NotInstalled),
        Some(runtime) => Ok(runtime.execution_profile()),
    }
}

/// Returns an advisory snapshot of the installed runtime's dynamic task
/// slots. The runtime is asked only when its contract advertises capacity
/// queries; otherwise the result is `IncompatibleContract`.
pub fn task_capacity<R: Runtime + ?Sized>(runtime: Option<&R>) -> (r: Result<TaskCapacity, Error>)
    ensures
        runtime is None ==> r == Err::<TaskCapacity, Error>(Error::NotInstalled),
        runtime matches Some(rt) ==> (!rt.spec_contract().capabilities.contains(
            RuntimeCapabilities::TASK_CAPACITY_QUERY(),
        ) ==> r == Err::<TaskCapacity, Error>(Error::IncompatibleContract)),
        runtime matches Some(rt) ==> (rt.spec_contract().capabilities.contains(
            RuntimeCapabilities::TASK_CAPACITY_QUERY(),
        ) ==> (r == Err::<TaskCapacity, Error>(Error::IncompatibleContract)
            || rt.task_capacity_answer(r))),
{
    match runtime {
        None => Err(Error::NotInstalled),
        Some(runtime) => {
            require_capability(runtime.contract(), RuntimeCapabilities::TASK_CAPACITY_QUERY())?;
            runtime.task_capacity()
        },
    }
}

/// Judges a capacity answer against `required` tasks: a failed query
/// becomes a runtime error, and a snapshot must leave at least `required`
/// slots available.
pub open spec fn capacity_admission(answer: Result<TaskCapacity, Error>, required: usize) -> Result<
    TaskCapacity,
    TaskAdmissionError,
> {
    match answer {
        Err(error) => Err(TaskAdmissionError::Runtime(error)),
        Ok(snapshot) => if snapshot.available() >= required {
            Ok(snapshot)
        } else {
            Err(
                TaskAdmissionError::InsufficientTaskSlots {
                    required,
                    available: snapshot.available() as usize,
                },
            )
        },
    }
}

/// A failed capacity query is reported as that runtime error; a snapshot
/// is accepted, unchanged, exactly when it leaves at least `required`
/// slots available, and is otherwise refused with the request and what was
/// available.
pub proof fn lemma_capacity_admission(answer: Result<TaskCapacity, Error>, required: usize)
    ensures
        answer matches Err(error) ==> capacity_admission(answer, required) == Err::<
            TaskCapacity,
            TaskAdmissionError,
        >(TaskAdmissionError::Runtime(error)),
        answer matches Ok(snapshot) ==> (capacity_admission(answer, required) is Ok
            <==> snapshot.total() - snapshot.used() - snapshot.reserved() >= required),
        answer matches Ok(snapshot) ==> (capacity_admission(answer, required) is Ok
            ==> capacity_admission(answer, required) == Ok::<TaskCapacity, TaskAdmissionError>(
            snapshot,
        )),
        answer matches Ok(snapshot) ==> (capacity_admission(answer, required) is Err
            ==> capacity_admission(answer, required) == Err::<TaskCapacity, TaskAdmissionError>(
            TaskAdmissionError::InsufficientTaskSlots {
                required,
                available: (snapshot.total() - snapshot.used() - snapshot.reserved()) as usize,
            },
        )),
{
}

/// Judges the answer to a capacity query against `required` tasks.
pub fn admit_task_capacity(answer: Result<TaskCapacity, Error>, required: usize) -> (r: Result<
    TaskCapacity,
    TaskAdmissionError,
>)
    ensures
        r == capacity_admission(answer, required),
{
    match answer {
        Err(error) => Err(TaskAdmissionError::Runtime(error)),
        Ok(snapshot) => check_task_capacity(snapshot, required),
    }
}

/// Checks whether a capacity snapshot can accommodate `required` tasks.
///
/// This catches deterministic under-provisioning before radio state is
/// consumed. It does not reserve the observed slots; callers requiring atomic
/// admission must use [`reserve_task_capacity`] or [`reserve_task_resources`].
pub fn require_task_capacity<R: Runtime + ?Sized>(runtime: Option<&R>, required: usize) -> (r: Result<
    TaskCapacity,
    TaskAdmissionError,
>)
    ensures
        runtime is None ==> r == Err::<TaskCapacity, TaskAdmissionError>(
            TaskAdmissionError::Runtime(Error::NotInstalled),
        ),
        runtime matches Some(rt) ==> (!rt.spec_contract().capabilities.contains(
            RuntimeCapabilities::TASK_CAPACITY_QUERY(),
        ) ==> r == Err::<TaskCapacity, TaskAdmissionError>(
            TaskAdmissionError::Runtime(Error::IncompatibleContract),
        )),
        runtime matches Some(rt) ==> (rt.spec_contract().capabilities.contains(
            RuntimeCapabilities::TASK_CAPACITY_QUERY(),
        ) ==> (exists|answer: Result<TaskCapacity, Error>|
            (answer == Err::<TaskCapacity, Error>(Error::IncompatibleContract)
                || rt.task_capacity_answer(answer)) && r == #[trigger] capacity_admission(
                answer,
                required,
            ))),
{
    let answer = task_capacity(runtime);
    admit_task_capacity(answer, required)
}

/// Atomically reserves `required` dynamic slots before radio initialization.
pub fn reserve_task_capacity<R: Runtime + ?Sized>(runtime: Option<&R>, required: usize) -> (r: Result<
    TaskReservation,
    TaskAdmissionError,
>)
    requires
        required != 0,
    ensures
        runtime is None ==> r == Err::<TaskReservation, TaskAdmissionError>(
            TaskAdmissionError::Runtime(Error::NotInstalled),
        ),
        runtime matches Some(rt) ==> (!rt.spec_contract().capabilities.contains(
            RuntimeCapabilities::TASK_RESERVATION(),
        ) ==> r == Err::<TaskReservation, TaskAdmissionError>(
            TaskAdmissionError::Runtime(Error::IncompatibleContract),
        )),
        runtime matches Some(rt) ==> (rt.spec_contract().capabilities.contains(
            RuntimeCapabilities::TASK_RESERVATION(),
        ) ==> (r == Err::<TaskReservation, TaskAdmissionError>(
            TaskAdmissionError::Runtime(Error::IncompatibleContract),
        ) || rt.reserve_tasks_answer(required, r))),
{
    match runtime {
        None => Err(TaskAdmissionError::Runtime(Error::NotInstalled)),
        Some(runtime) => {
            if require_capability(runtime.contract(), RuntimeCapabilities::TASK_RESERVATION()).is_err() {
                return Err(TaskAdmissionError::Runtime(Error::IncompatibleContract));
            }
            runtime.reserve_tasks(required)
        },
    }
}

/// Atomically reserves dynamic task slots and one stack allocation per slot.
pub fn reserve_task_resources<R: Runtime + ?Sized>(
    runtime: Option<&R>,
    required: TaskResourceRequirements,
) -> (r: Result<TaskReservation, TaskAdmissionError>)
    ensures
        runtime is None ==> r == Err::<TaskReservation, TaskAdmissionError>(
            TaskAdmissionError::Runtime(Error::NotInstalled),
        ),
        runtime matches Some(rt) ==> (!rt.spec_contract().capabilities.contains(
            RuntimeCapabilities::TASK_STACK_RESERVATION(),
        ) ==> r == Err::<TaskReservation, TaskAdmissionError>(
            TaskAdmissionError::Runtime(Error::IncompatibleContract),
        )),
        runtime matches Some(rt) ==> (rt.spec_contract().capabilities.contains(
            RuntimeCapabilities::TASK_STACK_RESERVATION(),
        ) ==> (r == Err::<TaskReservation, TaskAdmissionError>(
            TaskAdmissionError::Runtime(Error::IncompatibleContract),
        ) || rt.reserve_task_resources_answer(required, r))),
{
    match runtime {
        None => Err(TaskAdmissionError::Runtime(Error::NotInstalled)),
        Some(runtime) => {
            if require_capability(
                runtime.contract(),
                RuntimeCapabilities::TASK_STACK_RESERVATION(),
            ).is_err() {
                return Err(TaskAdmissionError::Runtime(Error::IncompatibleContract));
            }
            runtime.reserve_task_resources(required)
        },
    }
}

/// Atomically reserves all independently owned groups in `plan`.
///
/// Returned child reservations follow [`TaskResourcePlan::groups`] order. An
/// error guarantees that the runtime rolled back every slot and stack.
pub fn reserve_task_resource_plan<R: Runtime + ?Sized>(
    runtime: Option<&R>,
    plan: TaskResourcePlan<'_>,
) -> (r: Result<TaskReservationBatch, TaskAdmissionError>)
    ensures
        runtime is None ==> r is Err && r->Err_0 == TaskAdmissionError::Runtime(Error::NotInstalled),
        runtime matches Some(rt) ==> (!rt.spec_contract().capabilities.contains(
            RuntimeCapabilities::TASK_RESOURCE_PLAN_RESERVATION(),
        ) ==> r is Err && r->Err_0 == TaskAdmissionError::Runtime(Error::IncompatibleContract)),
        runtime matches Some(rt) ==> (rt.spec_contract().capabilities.contains(
            RuntimeCapabilities::TASK_RESOURCE_PLAN_RESERVATION(),
        ) ==> ((r is Err && r->Err_0 == TaskAdmissionError::Runtime(Error::IncompatibleContract))
            || rt.reserve_task_resource_plan_answer(plan, r))),
        r matches Ok(batch) ==> batch_admits_plan(batch, plan),
{
    match runtime {
        None => Err(TaskAdmissionError::Runtime(Error::NotInstalled)),
        Some(runtime) => {
            if require_capability(
                runtime.contract(),
                RuntimeCapabilities::TASK_RESOURCE_PLAN_RESERVATION(),
            ).is_err() {
                return Err(TaskAdmissionError::Runtime(Error::IncompatibleContract));
            }
            runtime.reserve_task_resource_plan(plan)
        },
    }
}

/// Releases the unconsumed portion of a task reservation.
pub fn release_task_reservation<R: Runtime + ?Sized>(
    runtime: Option<&R>,
    reservation: &TaskReservation,
) -> (r: Result<(), Error>)
    ensures
        runtime is None ==> r == Err::<(), Error>(Error::NotInstalled),
        runtime matches Some(rt) ==> (r == Err::<(), Error>(Error::IncompatibleContract)
            || rt.release_task_reservation_answer(*reservation, r)),
{
    match runtime {
        None => Err(Error::NotInstalled),
        Some(runtime) => runtime.release_task_reservation(reservation),
    }
}

impl TaskReservationBatch {
    /// Releases, in plan order, every reservation still held by the batch
    /// and returns how many it handed to the runtime.
    pub fn release_remaining<R: Runtime + ?Sized>(self, runtime: Option<&R>) -> (released: usize)
        ensures
            released == live_reservations(self.entries().take(self.children() as int)),
    {
        proof {
            TaskReservationBatch::lemma_entries_len(self);
        }
        let ghost entries = self.entries();
        let mut batch = self;
        let count = batch.len();
        let mut released: usize = 0;
        let mut index: usize = 0;
        while index < count
            invariant
                index <= count,
                count == batch.children(),
                count <= 4,
                entries.len() == 4,
                released <= index,
                released == live_reservations(entries.take(index as int)),
                forall|j: int| index <= j < 4 ==> #[trigger] batch.entries()[j] == entries[j],
            decreases count - index,
        {
            assert(entries.take(index + 1).drop_last() =~= entries.take(index as int));
            let ghost before = batch.entries();
            proof {
                TaskReservationBatch::lemma_entries_len(batch);
            }
            let taken = batch.take(index);
            proof {
                TaskReservationBatch::lemma_entries_len(batch);
            }
            assert forall|j: int| index < j < 4 implies #[trigger] batch.entries()[j] == entries[j] by {
                assert(batch.entries()[j] == before.update(index as int, None)[j]);
            }
            if let Some(reservation) = taken {
                let _ = release_task_reservation(runtime, &reservation);
                released += 1;
            }
            index += 1;
        }
        released
    }
}

/// Proves that the installed backend satisfies an adapter's requirements.
///
/// Radio adapters should call this before allocating tasks or publishing
/// callbacks. A mismatch fails before partial initialization begins.
pub fn require_runtime_contract<R: Runtime + ?Sized>(
    runtime: Option<&R>,
    required: RuntimeContract,
) -> (r: Result<RuntimeContract, Error>)
    ensures
        runtime is None ==> r == Err::<RuntimeContract, Error>(Error::NotInstalled),
        runtime matches Some(rt) ==> r == contract_check(rt.spec_contract(), required),
        r matches Ok(offered) ==> offered.capabilities.contains(required.capabilities)
            && offered.version.satisfies(required.version),
{
    match runtime {
        None => Err(Error::NotInstalled),
        Some(runtime) => check_runtime_contract(runtime.contract(), required),
    }
}

/// Cancels a live task's queued synchronization wait or pending direct grant.
pub fn cancel_wait<R: Runtime + ?Sized>(runtime: Option<&R>, task: TaskId) -> (r: Result<
    WaitCancellationOutcome,
    Error,
>)
    ensures
        runtime is None ==> r == Err::<WaitCancellationOutcome, Error>(Error::NotInstalled),
        runtime matches Some(rt) ==> rt.cancel_wait_answer(task, r),
{
    match runtime {
        None => Err(Error::NotInstalled),
        Some(runtime) => runtime.cancel_wait(task),
    }
}

/// Proves both semantic capabilities and executable scheduling guarantees.
/// The reported pair satisfies `required` whenever the call succeeds.
pub fn require_runtime<R: Runtime + ?Sized>(
    runtime: Option<&R>,
    required: RuntimeRequirements,
) -> (r: Result<RuntimeRequirements, Error>)
    ensures
        runtime is None ==> r == Err::<RuntimeRequirements, Error>(Error::NotInstalled),
        runtime matches Some(rt) ==> r == requirements_check(
            required,
            rt.spec_contract(),
            rt.spec_execution_profile(),
        ),
        runtime matches Some(rt) ==> (!rt.spec_contract().capabilities.contains(
            required.contract.capabilities,
        ) ==> r == Err::<RuntimeRequirements, Error>(Error::IncompatibleContract)),
        r matches Ok(offered) ==> offered.contract.capabilities.contains(
            required.contract.capabilities,
        ) && offered.contract.version.satisfies(required.contract.version)
            && offered.execution_profile.satisfies(required.execution_profile),
{
    match runtime {
        None => Err(Error::NotInstalled),
        Some(runtime) => {
            let contract = runtime.contract();
            if !contract.satisfies(required.contract) {
                return Err(Error::IncompatibleContract);
            }
            check_runtime_requirements(required, contract, runtime.execution_profile())
        },
    }
}

/// Yields through the installed runtime.
pub fn yield_now<R: Runtime + ?Sized>(runtime: Option<&R>) -> (r: Result<(), Error>)
    ensures
        runtime is None ==> r == Err::<(), Error>(Error::NotInstalled),
        runtime matches Some(rt) ==> rt.yield_now_answer(r),
{
    match runtime {
        None => Err(Error::NotInstalled),
        Some(runtime) => runtime.yield_now(),
    }
}

/// Sleeps through the installed runtime. A zero duration is represented by
/// [`yield_now`] instead of an invalid sleep request.
pub fn sleep_ms<R: Runtime + ?Sized>(runtime: Option<&R>, milliseconds: u32) -> (r: Result<
    (),
    Error,
>)
    requires
        milliseconds != 0,
    ensures
        runtime is None ==> r == Err::<(), Error>(Error::NotInstalled),
        runtime matches Some(rt) ==> rt.sleep_ms_answer(milliseconds, r),
{
    match runtime {
        None => Err(Error::NotInstalled),
        Some(runtime) => runtime.sleep_ms(milliseconds),
    }
}

/// Returns the current task identity.
pub fn current_task<R: Runtime + ?Sized>(runtime: Option<&R>) -> (r: Result<TaskId, Error>)
    ensures
        runtime is None ==> r == Err::<TaskId, Error>(Error::NotInstalled),
        runtime matches Some(rt) ==> rt.current_task_answer(r),
{
    match runtime {
        None => Err(Error::NotInstalled),
        Some(runtime) => runtime.current_task(),
    }
}

/// Changes a task's scheduling priority through the installed runtime.
pub fn set_task_priority<R: Runtime + ?Sized>(
    runtime: Option<&R>,
    task: TaskId,
    priority: TaskPriority,
) -> (r: Result<(), Error>)
    ensures
        runtime is None ==> r == Err::<(), Error>(Error::NotInstalled),
        runtime matches Some(rt) ==> rt.set_task_priority_answer(task, priority, r),
{
    match runtime {
        None => Err(Error::NotInstalled),
        Some(runtime) => runtime.set_task_priority(task, priority),
    }
}

/// Prevents scheduler-driven preemption of the current task.
pub fn lock_scheduler<R: Runtime + ?Sized>(runtime: Option<&R>) -> (r: Result<(), Error>)
    ensures
        runtime is None ==> r == Err::<(), Error>(Error::NotInstalled),
        runtime matches Some(rt) ==> rt.lock_scheduler_answer(r),
{
    match runtime {
        None => Err(Error::NotInstalled),
        Some(runtime) => runtime.lock_scheduler(),
    }
}

/// Releases one scheduler-lock nesting level for the current task.
pub fn unlock_scheduler<R: Runtime + ?Sized>(runtime: Option<&R>) -> (r: Result<(), Error>)
    ensures
        runtime is None ==> r == Err::<(), Error>(Error::NotInstalled),
        runtime matches Some(rt) ==> rt.unlock_scheduler_answer(r),
{
    match runtime {
        None => Err(Error::NotInstalled),
        Some(runtime) => runtime.unlock_scheduler(),
    }
}

/// Marks entry into an interrupt handler through the installed runtime.
pub fn interrupt_enter<R: Runtime + ?Sized>(runtime: Option<&R>) -> (r: Result<(), Error>)
    ensures
        runtime is None ==> r == Err::<(), Error>(Error::NotInstalled),
        runtime matches Some(rt) ==> (r == Ok::<(), Error>(()) || rt.interrupt_enter_answer(r)),
{
    match runtime {
        None => Err(Error::NotInstalled),
        Some(runtime) => runtime.interrupt_enter(),
    }
}

/// Marks exit from an interrupt handler through the installed runtime.
pub fn interrupt_exit<R: Runtime + ?Sized>(runtime: Option<&R>) -> (r: Result<(), Error>)
    ensures
        runtime is None ==> r == Err::<(), Error>(Error::NotInstalled),
        runtime matches Some(rt) ==> (r == Ok::<(), Error>(()) || rt.interrupt_exit_answer(r)),
{
    match runtime {
        None => Err(Error::NotInstalled),
        Some(runtime) => runtime.interrupt_exit(),
    }
}

/// Allocates a semaphore through the installed runtime.
pub fn semaphore_create<R: Runtime + ?Sized>(runtime: Option<&R>, initial: u32) -> (r: Result<
    SemaphoreHandle,
    Error,
>)
    ensures
        runtime is None ==> r == Err::<SemaphoreHandle, Error>(Error::NotInstalled),
        runtime matches Some(rt) ==> rt.semaphore_create_answer(initial, r),
{
    match runtime {
        None => Err(Error::NotInstalled),
        Some(runtime) => runtime.semaphore_create(initial),
    }
}

/// Waits on a semaphore through the installed runtime.
pub fn semaphore_down<R: Runtime + ?Sized>(
    runtime: Option<&R>,
    semaphore: SemaphoreHandle,
    timeout: WaitTimeout,
) -> (r: Result<WaitOutcome, Error>)
    ensures
        runtime is None ==> r == Err::<WaitOutcome, Error>(Error::NotInstalled),
        runtime matches Some(rt) ==> rt.semaphore_down_answer(semaphore, timeout, r),
{
    match runtime {
        None => Err(Error::NotInstalled),
        Some(runtime) => runtime.semaphore_down(semaphore, timeout),
    }
}

/// Releases a semaphore through the installed runtime.
pub fn semaphore_up<R: Runtime + ?Sized>(runtime: Option<&R>, semaphore: SemaphoreHandle) -> (r:
    Result<(), Error>)
    ensures
        runtime is None ==> r == Err::<(), Error>(Error::NotInstalled),
        runtime matches Some(rt) ==> rt.semaphore_up_answer(semaphore, r),
{
    match runtime {
        None => Err(Error::NotInstalled),
        Some(runtime) => runtime.semaphore_up(semaphore),
    }
}

/// Allocates a recursive priority-inheritance mutex.
pub fn mutex_create<R: Runtime + ?Sized>(runtime: Option<&R>) -> (r: Result<MutexHandle, Error>)
    ensures
        runtime is None ==> r == Err::<MutexHandle, Error>(Error::NotInstalled),
        runtime matches Some(rt) ==> rt.mutex_create_answer(r),
{
    match runtime {
        None => Err(Error::NotInstalled),
        Some(runtime) => runtime.mutex_create(),
    }
}

/// Acquires a mutex through the installed runtime.
pub fn mutex_lock<R: Runtime + ?Sized>(
    runtime: Option<&R>,
    mutex: MutexHandle,
    timeout: WaitTimeout,
) -> (r: Result<WaitOutcome, Error>)
    ensures
        runtime is None ==> r == Err::<WaitOutcome, Error>(Error::NotInstalled),
        runtime matches Some(rt) ==> rt.mutex_lock_answer(mutex, timeout, r),
{
    match runtime {
        None => Err(Error::NotInstalled),
        Some(runtime) => runtime.mutex_lock(mutex, timeout),
    }
}

/// Releases one mutex recursion level through the installed runtime.
pub fn mutex_unlock<R: Runtime + ?Sized>(runtime: Option<&R>, mutex: MutexHandle) -> (r: Result<
    (),
    Error,
>)
    ensures
        runtime is None ==> r == Err::<(), Error>(Error::NotInstalled),
        runtime matches Some(rt) ==> rt.mutex_unlock_answer(mutex, r),
{
    match runtime {
        None => Err(Error::NotInstalled),
        Some(runtime) => runtime.mutex_unlock(mutex),
    }
}

/// Decides which handle a lazily created semaphore uses once a candidate
/// backend object exists: the first published handle wins. Returns the
/// selected handle and whether the candidate lost and must be destroyed;
/// when it wins, the caller publishes it.
pub fn publish_semaphore_candidate(
    published: Option<SemaphoreHandle>,
    candidate: SemaphoreHandle,
) -> (r: (SemaphoreHandle, bool))
    ensures
        r.0 == (match published {
            Some(handle) => handle,
            None => candidate,
        }),
        r.1 == published is Some,
{
    match published {
        Some(handle) => (handle, true),
        None => (candidate, false),
    }
}

/// A blocking wait without deadline succeeds only when it acquired the
/// resource; a reported timeout becomes `Error::TimedOut`.
pub fn require_acquired(outcome: WaitOutcome) -> (r: Result<(), Error>)
    ensures
        outcome == WaitOutcome::Acquired ==> r == Ok::<(), Error>(()),
        outcome == WaitOutcome::TimedOut ==> r == Err::<(), Error>(Error::TimedOut),
{
    match outcome {
        WaitOutcome::Acquired => Ok(()),
        WaitOutcome::TimedOut => Err(Error::TimedOut),
    }
}

} // verus!

//! Runtime-neutral services required by radio firmware.
//!
//! This crate is the narrow dependency shared by radio adapters and an RTOS.
//! It does not implement a scheduler and does not know about a chip, protocol,
//! vendor blob, allocator, or network stack.
mod admission;
mod contract;
mod runtime;
mod services;

pub mod conformance;

pub use admission::{
    batch_admits_plan, lemma_admissible_owners_pairwise_distinct, lemma_plan_totals_push,
    lemma_returning_owner_refused, group_admission_facts, lemma_take_transfers_once, live_reservations,
    owners_distinct, plan_admissible, plan_slots, plan_stack_bytes, TaskAdmissionError, TaskCapacity, TaskReservation, TaskReservationBatch,
    TaskResourceGroupRequirements, TaskResourceOwner, TaskResourcePlan, TaskResourceRequirements,
    TASK_RESOURCE_GROUP_CAPACITY,
};
pub use contract::{
    group_contract_bits, lemma_capability_containment, lemma_contract_compatibility,
    lemma_contract_revisions_are_cumulative, lemma_mode_containment, lemma_portless_is_not_ported,
    lemma_priority_order, lemma_profile_compatibility, lemma_version_compatibility,
    InvalidTaskPriority, RuntimeCapabilities, RuntimeContract, RuntimeContractVersion,
    RuntimeExecutionModes, RuntimeExecutionProfile, RuntimeRequirements, TaskPriority,
    TASK_PRIORITY_LEVELS,
};
pub use runtime::{
    admit_task_capacity, lemma_accepted_offers_are_installable, lemma_capacity_admission,
    lemma_contract_check, lemma_installable_contracts, lemma_installable_profiles,
    lemma_requirements_check, cancel_wait, capacity_admission, check_runtime_contract, check_runtime_requirements, check_task_capacity,
    contract_check, contract_installable, current_task, interrupt_enter, interrupt_exit, known_execution_modes,
    lock_scheduler, mutex_create, mutex_lock, mutex_unlock, offer_validation, profile_installable,
    publish_semaphore_candidate, release_task_reservation, require_acquired, require_capability,
    require_runtime, require_runtime_contract, require_task_capacity, requirements_check, reserve_task_capacity,
    reserve_task_resource_plan, reserve_task_resources, runtime_contract,
    runtime_execution_profile, semaphore_create, semaphore_down, semaphore_up, set_task_priority,
    settle_installation, sleep_ms, task_capacity, unlock_scheduler, validate_contract,
    validate_execution_profile, validate_offer, validate_runtime, yield_now, Installation, Runtime, RuntimeSlot,
};
pub use services::{
    Error, MutexHandle, SemaphoreHandle, TaskBudget, TaskConfig, TaskExecutionPolicy, TaskId,
    WaitCancellationOutcome, WaitOutcome, WaitTimeout,
};

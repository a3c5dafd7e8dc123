//! The shared contract-v1 scenario suite.
//!
//! The suite covers priority/FIFO ordering, nested scheduler-lock deferral,
//! sleep deadlines, nested interrupt exit, task exit and slot reuse,
//! semaphore direct handoff and timeout cleanup, recursive mutex priority
//! inheritance, stale task and resource identities, busy destroy, and
//! cancellation after a direct grant.
use vstd::prelude::*;

use super::{
    ActionOutcome, Action, ActorId, ActorState, ExecutionProfile, ExpectedObservation,
    ResourceHandleRef, ResourceKind, Scenario, ScenarioId, Step, Wait,
};
use crate::contract::TaskPriority;
use crate::services::Error;

verus! {

fn priority(value: u8) -> (r: TaskPriority)
    requires
        value < 32,
    ensures
        r == TaskPriority::spec_from_raw(value),
{
    let p = TaskPriority::new(value).unwrap();
    proof {
        TaskPriority::lemma_raw(value);
        TaskPriority::lemma_raw_determines(p, TaskPriority::spec_from_raw(value));
    }
    p
}

/// The priority fifo script: each action with the observation it must produce.
pub open spec fn priority_fifo_script() -> Seq<Step> {
    seq![
    Step {
        action: Action::Reset {
            profile: ExecutionProfile::Cooperative,
            main_priority: TaskPriority::LOWEST(),
        },
        expected: ExpectedObservation {
            running: Some(ActorId::MAIN()),
            outcome: Some(ActionOutcome::Completed),
            scheduler_lock_depth: Some(0),
            interrupt_depth: Some(0),
            subject: None,
        },
    },
    Step {
        action: Action::Spawn {
            actor: ActorId::WORKER_A(),
            priority: TaskPriority::spec_from_raw(4),
        },
        expected: ExpectedObservation {
            running: Some(ActorId::MAIN()),
            subject: Some((ActorId::WORKER_A(), ActorState::Ready)),
            outcome: Some(ActionOutcome::Spawned),
            scheduler_lock_depth: None,
            interrupt_depth: None,
        },
    },
    Step {
        action: Action::Spawn {
            actor: ActorId::WORKER_B(),
            priority: TaskPriority::spec_from_raw(4),
        },
        expected: ExpectedObservation {
            running: Some(ActorId::MAIN()),
            subject: Some((ActorId::WORKER_B(), ActorState::Ready)),
            outcome: Some(ActionOutcome::Spawned),
            scheduler_lock_depth: None,
            interrupt_depth: None,
        },
    },
    Step {
        action: Action::Yield,
        expected: ExpectedObservation {
            running: Some(ActorId::WORKER_A()),
            subject: Some((ActorId::MAIN(), ActorState::Ready)),
            outcome: Some(ActionOutcome::ContextSwitched),
            scheduler_lock_depth: None,
            interrupt_depth: None,
        },
    },
    Step {
        action: Action::Yield,
        expected: ExpectedObservation {
            running: Some(ActorId::WORKER_B()),
            subject: Some((ActorId::WORKER_A(), ActorState::Ready)),
            outcome: Some(ActionOutcome::ContextSwitched),
            scheduler_lock_depth: None,
            interrupt_depth: None,
        },
    },
    ]
}

fn priority_fifo_steps() -> (r: Vec<Step>)
    ensures
        r@ == priority_fifo_script(),
{
    vec![
    Step {
        action: Action::Reset {
            profile: ExecutionProfile::Cooperative,
            main_priority: TaskPriority::LOWEST(),
        },
        expected: ExpectedObservation {
            running: Some(ActorId::MAIN()),
            outcome: Some(ActionOutcome::Completed),
            scheduler_lock_depth: Some(0),
            interrupt_depth: Some(0),
            subject: None,
        },
    },
    Step {
        action: Action::Spawn {
            actor: ActorId::WORKER_A(),
            priority: priority(4),
        },
        expected: ExpectedObservation {
            running: Some(ActorId::MAIN()),
            subject: Some((ActorId::WORKER_A(), ActorState::Ready)),
            outcome: Some(ActionOutcome::Spawned),
            scheduler_lock_depth: None,
            interrupt_depth: None,
        },
    },
    Step {
        action: Action::Spawn {
            actor: ActorId::WORKER_B(),
            priority: priority(4),
        },
        expected: ExpectedObservation {
            running: Some(ActorId::MAIN()),
            subject: Some((ActorId::WORKER_B(), ActorState::Ready)),
            outcome: Some(ActionOutcome::Spawned),
            scheduler_lock_depth: None,
            interrupt_depth: None,
        },
    },
    Step {
        action: Action::Yield,
        expected: ExpectedObservation {
            running: Some(ActorId::WORKER_A()),
            subject: Some((ActorId::MAIN(), ActorState::Ready)),
            outcome: Some(ActionOutcome::ContextSwitched),
            scheduler_lock_depth: None,
            interrupt_depth: None,
        },
    },
    Step {
        action: Action::Yield,
        expected: ExpectedObservation {
            running: Some(ActorId::WORKER_B()),
            subject: Some((ActorId::WORKER_A(), ActorState::Ready)),
            outcome: Some(ActionOutcome::ContextSwitched),
            scheduler_lock_depth: None,
            interrupt_depth: None,
        },
    },
    ]
}

/// The nested lock script: each action with the observation it must produce.
pub open spec fn nested_lock_script() -> Seq<Step> {
    seq![
    Step {
        action: Action::Reset {
            profile: ExecutionProfile::Preemptive,
            main_priority: TaskPriority::spec_from_raw(10),
        },
        expected: ExpectedObservation {
            running: Some(ActorId::MAIN()),
            scheduler_lock_depth: Some(0),
            subject: None,
            outcome: None,
            interrupt_depth: None,
        },
    },
    Step {
        action: Action::LockScheduler,
        expected: ExpectedObservation {
            running: Some(ActorId::MAIN()),
            scheduler_lock_depth: Some(1),
            subject: None,
            outcome: None,
            interrupt_depth: None,
        },
    },
    Step {
        action: Action::LockScheduler,
        expected: ExpectedObservation {
            running: Some(ActorId::MAIN()),
            scheduler_lock_depth: Some(2),
            subject: None,
            outcome: None,
            interrupt_depth: None,
        },
    },
    Step {
        action: Action::Spawn {
            actor: ActorId::WORKER_A(),
            priority: TaskPriority::spec_from_raw(2),
        },
        expected: ExpectedObservation {
            running: Some(ActorId::MAIN()),
            subject: Some((ActorId::WORKER_A(), ActorState::Ready)),
            outcome: Some(ActionOutcome::PreemptionDeferred),
            scheduler_lock_depth: Some(2),
            interrupt_depth: None,
        },
    },
    Step {
        action: Action::UnlockScheduler,
        expected: ExpectedObservation {
            running: Some(ActorId::MAIN()),
            scheduler_lock_depth: Some(1),
            subject: None,
            outcome: None,
            interrupt_depth: None,
        },
    },
    Step {
        action: Action::UnlockScheduler,
        expected: ExpectedObservation {
            running: Some(ActorId::WORKER_A()),
            subject: Some((ActorId::MAIN(), ActorState::Ready)),
            outcome: Some(ActionOutcome::ContextSwitched),
            scheduler_lock_depth: Some(0),
            interrupt_depth: None,
        },
    },
    ]
}

fn nested_lock_steps() -> (r: Vec<Step>)
    ensures
        r@ == nested_lock_script(),
{
    vec![
    Step {
        action: Action::Reset {
            profile: ExecutionProfile::Preemptive,
            main_priority: priority(10),
        },
        expected: ExpectedObservation {
            running: Some(ActorId::MAIN()),
            scheduler_lock_depth: Some(0),
            subject: None,
            outcome: None,
            interrupt_depth: None,
        },
    },
    Step {
        action: Action::LockScheduler,
        expected: ExpectedObservation {
            running: Some(ActorId::MAIN()),
            scheduler_lock_depth: Some(1),
            subject: None,
            outcome: None,
            interrupt_depth: None,
        },
    },
    Step {
        action: Action::LockScheduler,
        expected: ExpectedObservation {
            running: Some(ActorId::MAIN()),
            scheduler_lock_depth: Some(2),
            subject: None,
            outcome: None,
            interrupt_depth: None,
        },
    },
    Step {
        action: Action::Spawn {
            actor: ActorId::WORKER_A(),
            priority: priority(2),
        },
        expected: ExpectedObservation {
            running: Some(ActorId::MAIN()),
            subject: Some((ActorId::WORKER_A(), ActorState::Ready)),
            outcome: Some(ActionOutcome::PreemptionDeferred),
            scheduler_lock_depth: Some(2),
            interrupt_depth: None,
        },
    },
    Step {
        action: Action::UnlockScheduler,
        expected: ExpectedObservation {
            running: Some(ActorId::MAIN()),
            scheduler_lock_depth: Some(1),
            subject: None,
            outcome: None,
            interrupt_depth: None,
        },
    },
    Step {
        action: Action::UnlockScheduler,
        expected: ExpectedObservation {
            running: Some(ActorId::WORKER_A()),
            subject: Some((ActorId::MAIN(), ActorState::Ready)),
            outcome: Some(ActionOutcome::ContextSwitched),
            scheduler_lock_depth: Some(0),
            interrupt_depth: None,
        },
    },
    ]
}

/// The sleep deadline script: each action with the observation it must produce.
pub open spec fn sleep_deadline_script() -> Seq<Step> {
    seq![
    Step {
        action: Action::Reset {
            profile: ExecutionProfile::Cooperative,
            main_priority: TaskPriority::LOWEST(),
        },
        expected: ExpectedObservation {
            running: Some(ActorId::MAIN()),
            subject: None,
            outcome: None,
            scheduler_lock_depth: None,
            interrupt_depth: None,
        },
    },
    Step {
        action: Action::Spawn {
            actor: ActorId::WORKER_A(),
            priority: TaskPriority::spec_from_raw(4),
        },
        expected: ExpectedObservation {
            subject: Some((ActorId::WORKER_A(), ActorState::Ready)),
            running: None,
            outcome: None,
            scheduler_lock_depth: None,
            interrupt_depth: None,
        },
    },
    Step {
        action: Action::Yield,
        expected: ExpectedObservation {
            running: Some(ActorId::WORKER_A()),
            outcome: Some(ActionOutcome::ContextSwitched),
            subject: None,
            scheduler_lock_depth: None,
            interrupt_depth: None,
        },
    },
    Step {
        action: Action::Sleep { milliseconds: 5 },
        expected: ExpectedObservation {
            running: Some(ActorId::MAIN()),
            subject: Some((ActorId::WORKER_A(), ActorState::Sleeping)),
            outcome: Some(ActionOutcome::ContextSwitched),
            scheduler_lock_depth: None,
            interrupt_depth: None,
        },
    },
    Step {
        action: Action::AdvanceTime { milliseconds: 4 },
        expected: ExpectedObservation::ANY(),
    },
    Step {
        action: Action::Observe {
            actor: ActorId::WORKER_A(),
        },
        expected: ExpectedObservation {
            subject: Some((ActorId::WORKER_A(), ActorState::Sleeping)),
            running: None,
            outcome: None,
            scheduler_lock_depth: None,
            interrupt_depth: None,
        },
    },
    Step {
        action: Action::AdvanceTime { milliseconds: 1 },
        expected: ExpectedObservation::ANY(),
    },
    Step {
        action: Action::Observe {
            actor: ActorId::WORKER_A(),
        },
        expected: ExpectedObservation {
            subject: Some((ActorId::WORKER_A(), ActorState::Ready)),
            running: None,
            outcome: None,
            scheduler_lock_depth: None,
            interrupt_depth: None,
        },
    },
    Step {
        action: Action::Yield,
        expected: ExpectedObservation {
            running: Some(ActorId::WORKER_A()),
            outcome: Some(ActionOutcome::ContextSwitched),
            subject: None,
            scheduler_lock_depth: None,
            interrupt_depth: None,
        },
    },
    ]
}

fn sleep_deadline_steps() -> (r: Vec<Step>)
    ensures
        r@ == sleep_deadline_script(),
{
    vec![
    Step {
        action: Action::Reset {
            profile: ExecutionProfile::Cooperative,
            main_priority: TaskPriority::LOWEST(),
        },
        expected: ExpectedObservation {
            running: Some(ActorId::MAIN()),
            subject: None,
            outcome: None,
            scheduler_lock_depth: None,
            interrupt_depth: None,
        },
    },
    Step {
        action: Action::Spawn {
            actor: ActorId::WORKER_A(),
            priority: priority(4),
        },
        expected: ExpectedObservation {
            subject: Some((ActorId::WORKER_A(), ActorState::Ready)),
            running: None,
            outcome: None,
            scheduler_lock_depth: None,
            interrupt_depth: None,
        },
    },
    Step {
        action: Action::Yield,
        expected: ExpectedObservation {
            running: Some(ActorId::WORKER_A()),
            outcome: Some(ActionOutcome::ContextSwitched),
            subject: None,
            scheduler_lock_depth: None,
            interrupt_depth: None,
        },
    },
    Step {
        action: Action::Sleep { milliseconds: 5 },
        expected: ExpectedObservation {
            running: Some(ActorId::MAIN()),
            subject: Some((ActorId::WORKER_A(), ActorState::Sleeping)),
            outcome: Some(ActionOutcome::ContextSwitched),
            scheduler_lock_depth: None,
            interrupt_depth: None,
        },
    },
    Step {
        action: Action::AdvanceTime { milliseconds: 4 },
        expected: ExpectedObservation::ANY(),
    },
    Step {
        action: Action::Observe {
            actor: ActorId::WORKER_A(),
        },
        expected: ExpectedObservation {
            subject: Some((ActorId::WORKER_A(), ActorState::Sleeping)),
            running: None,
            outcome: None,
            scheduler_lock_depth: None,
            interrupt_depth: None,
        },
    },
    Step {
        action: Action::AdvanceTime { milliseconds: 1 },
        expected: ExpectedObservation::ANY(),
    },
    Step {
        action: Action::Observe {
            actor: ActorId::WORKER_A(),
        },
        expected: ExpectedObservation {
            subject: Some((ActorId::WORKER_A(), ActorState::Ready)),
            running: None,
            outcome: None,
            scheduler_lock_depth: None,
            interrupt_depth: None,
        },
    },
    Step {
        action: Action::Yield,
        expected: ExpectedObservation {
            running: Some(ActorId::WORKER_A()),
            outcome: Some(ActionOutcome::ContextSwitched),
            subject: None,
            scheduler_lock_depth: None,
            interrupt_depth: None,
        },
    },
    ]
}

/// The nested interrupt script: each action with the observation it must produce.
pub open spec fn nested_interrupt_script() -> Seq<Step> {
    seq![
    Step {
        action: Action::Reset {
            profile: ExecutionProfile::Preemptive,
            main_priority: TaskPriority::spec_from_raw(10),
        },
        expected: ExpectedObservation::ANY(),
    },
    Step {
        action: Action::Spawn {
            actor: ActorId::WORKER_A(),
            priority: TaskPriority::spec_from_raw(20),
        },
        expected: ExpectedObservation {
            running: Some(ActorId::MAIN()),
            subject: None,
            outcome: None,
            scheduler_lock_depth: None,
            interrupt_depth: None,
        },
    },
    Step {
        action: Action::Yield,
        expected: ExpectedObservation {
            running: Some(ActorId::WORKER_A()),
            subject: None,
            outcome: None,
            scheduler_lock_depth: None,
            interrupt_depth: None,
        },
    },
    Step {
        action: Action::EnterInterrupt,
        expected: ExpectedObservation {
            running: Some(ActorId::WORKER_A()),
            interrupt_depth: Some(1),
            subject: None,
            outcome: None,
            scheduler_lock_depth: None,
        },
    },
    Step {
        action: Action::EnterInterrupt,
        expected: ExpectedObservation {
            running: Some(ActorId::WORKER_A()),
            interrupt_depth: Some(2),
            subject: None,
            outcome: None,
            scheduler_lock_depth: None,
        },
    },
    Step {
        action: Action::ExitInterrupt,
        expected: ExpectedObservation {
            running: Some(ActorId::WORKER_A()),
            interrupt_depth: Some(1),
            outcome: Some(ActionOutcome::Completed),
            subject: None,
            scheduler_lock_depth: None,
        },
    },
    Step {
        action: Action::ExitInterrupt,
        expected: ExpectedObservation {
            running: Some(ActorId::MAIN()),
            subject: Some((ActorId::WORKER_A(), ActorState::Ready)),
            interrupt_depth: Some(0),
            outcome: Some(ActionOutcome::ContextSwitched),
            scheduler_lock_depth: None,
        },
    },
    ]
}

fn nested_interrupt_steps() -> (r: Vec<Step>)
    ensures
        r@ == nested_interrupt_script(),
{
    vec![
    Step {
        action: Action::Reset {
            profile: ExecutionProfile::Preemptive,
            main_priority: priority(10),
        },
        expected: ExpectedObservation::ANY(),
    },
    Step {
        action: Action::Spawn {
            actor: ActorId::WORKER_A(),
            priority: priority(20),
        },
        expected: ExpectedObservation {
            running: Some(ActorId::MAIN()),
            subject: None,
            outcome: None,
            scheduler_lock_depth: None,
            interrupt_depth: None,
        },
    },
    Step {
        action: Action::Yield,
        expected: ExpectedObservation {
            running: Some(ActorId::WORKER_A()),
            subject: None,
            outcome: None,
            scheduler_lock_depth: None,
            interrupt_depth: None,
        },
    },
    Step {
        action: Action::EnterInterrupt,
        expected: ExpectedObservation {
            running: Some(ActorId::WORKER_A()),
            interrupt_depth: Some(1),
            subject: None,
            outcome: None,
            scheduler_lock_depth: None,
        },
    },
    Step {
        action: Action::EnterInterrupt,
        expected: ExpectedObservation {
            running: Some(ActorId::WORKER_A()),
            interrupt_depth: Some(2),
            subject: None,
            outcome: None,
            scheduler_lock_depth: None,
        },
    },
    Step {
        action: Action::ExitInterrupt,
        expected: ExpectedObservation {
            running: Some(ActorId::WORKER_A()),
            interrupt_depth: Some(1),
            outcome: Some(ActionOutcome::Completed),
            subject: None,
            scheduler_lock_depth: None,
        },
    },
    Step {
        action: Action::ExitInterrupt,
        expected: ExpectedObservation {
            running: Some(ActorId::MAIN()),
            subject: Some((ActorId::WORKER_A(), ActorState::Ready)),
            interrupt_depth: Some(0),
            outcome: Some(ActionOutcome::ContextSwitched),
            scheduler_lock_depth: None,
        },
    },
    ]
}

/// The task exit script: each action with the observation it must produce.
pub open spec fn task_exit_script() -> Seq<Step> {
    seq![
    Step {
        action: Action::Reset {
            profile: ExecutionProfile::Cooperative,
            main_priority: TaskPriority::LOWEST(),
        },
        expected: ExpectedObservation::ANY(),
    },
    Step {
        action: Action::Spawn {
            actor: ActorId::WORKER_A(),
            priority: TaskPriority::spec_from_raw(4),
        },
        expected: ExpectedObservation::ANY(),
    },
    Step {
        action: Action::Yield,
        expected: ExpectedObservation {
            running: Some(ActorId::WORKER_A()),
            subject: None,
            outcome: None,
            scheduler_lock_depth: None,
            interrupt_depth: None,
        },
    },
    Step {
        action: Action::ExitTask,
        expected: ExpectedObservation {
            running: Some(ActorId::MAIN()),
            subject: Some((ActorId::WORKER_A(), ActorState::Exited)),
            outcome: Some(ActionOutcome::ContextSwitched),
            scheduler_lock_depth: None,
            interrupt_depth: None,
        },
    },
    Step {
        action: Action::Spawn {
            actor: ActorId::WORKER_A(),
            priority: TaskPriority::spec_from_raw(4),
        },
        expected: ExpectedObservation {
            subject: Some((ActorId::WORKER_A(), ActorState::Ready)),
            outcome: Some(ActionOutcome::Spawned),
            running: None,
            scheduler_lock_depth: None,
            interrupt_depth: None,
        },
    },
    ]
}

fn task_exit_steps() -> (r: Vec<Step>)
    ensures
        r@ == task_exit_script(),
{
    vec![
    Step {
        action: Action::Reset {
            profile: ExecutionProfile::Cooperative,
            main_priority: TaskPriority::LOWEST(),
        },
        expected: ExpectedObservation::ANY(),
    },
    Step {
        action: Action::Spawn {
            actor: ActorId::WORKER_A(),
            priority: priority(4),
        },
        expected: ExpectedObservation::ANY(),
    },
    Step {
        action: Action::Yield,
        expected: ExpectedObservation {
            running: Some(ActorId::WORKER_A()),
            subject: None,
            outcome: None,
            scheduler_lock_depth: None,
            interrupt_depth: None,
        },
    },
    Step {
        action: Action::ExitTask,
        expected: ExpectedObservation {
            running: Some(ActorId::MAIN()),
            subject: Some((ActorId::WORKER_A(), ActorState::Exited)),
            outcome: Some(ActionOutcome::ContextSwitched),
            scheduler_lock_depth: None,
            interrupt_depth: None,
        },
    },
    Step {
        action: Action::Spawn {
            actor: ActorId::WORKER_A(),
            priority: priority(4),
        },
        expected: ExpectedObservation {
            subject: Some((ActorId::WORKER_A(), ActorState::Ready)),
            outcome: Some(ActionOutcome::Spawned),
            running: None,
            scheduler_lock_depth: None,
            interrupt_depth: None,
        },
    },
    ]
}

/// The semaphore handoff script: each action with the observation it must produce.
pub open spec fn semaphore_handoff_script() -> Seq<Step> {
    seq![
    Step {
        action: Action::Reset {
            profile: ExecutionProfile::Cooperative,
            main_priority: TaskPriority::LOWEST(),
        },
        expected: ExpectedObservation::ANY(),
    },
    Step {
        action: Action::Spawn {
            actor: ActorId::WORKER_A(),
            priority: TaskPriority::spec_from_raw(4),
        },
        expected: ExpectedObservation::ANY(),
    },
    Step {
        action: Action::Spawn {
            actor: ActorId::WORKER_B(),
            priority: TaskPriority::spec_from_raw(4),
        },
        expected: ExpectedObservation::ANY(),
    },
    Step {
        action: Action::Yield,
        expected: ExpectedObservation {
            running: Some(ActorId::WORKER_A()),
            subject: None,
            outcome: None,
            scheduler_lock_depth: None,
            interrupt_depth: None,
        },
    },
    Step {
        action: Action::SemaphoreWait {
            timeout: Wait::Forever,
        },
        expected: ExpectedObservation {
            running: Some(ActorId::WORKER_B()),
            subject: Some((ActorId::WORKER_A(), ActorState::Blocked)),
            outcome: Some(ActionOutcome::ContextSwitched),
            scheduler_lock_depth: None,
            interrupt_depth: None,
        },
    },
    Step {
        action: Action::SemaphorePost,
        expected: ExpectedObservation {
            running: Some(ActorId::WORKER_B()),
            subject: Some((ActorId::WORKER_A(), ActorState::Ready)),
            outcome: Some(ActionOutcome::Granted),
            scheduler_lock_depth: None,
            interrupt_depth: None,
        },
    },
    Step {
        action: Action::ObserveGrant {
            actor: ActorId::WORKER_A(),
        },
        expected: ExpectedObservation {
            subject: Some((ActorId::WORKER_A(), ActorState::Ready)),
            outcome: Some(ActionOutcome::Acquired),
            running: None,
            scheduler_lock_depth: None,
            interrupt_depth: None,
        },
    },
    ]
}

fn semaphore_handoff_steps() -> (r: Vec<Step>)
    ensures
        r@ == semaphore_handoff_script(),
{
    vec![
    Step {
        action: Action::Reset {
            profile: ExecutionProfile::Cooperative,
            main_priority: TaskPriority::LOWEST(),
        },
        expected: ExpectedObservation::ANY(),
    },
    Step {
        action: Action::Spawn {
            actor: ActorId::WORKER_A(),
            priority: priority(4),
        },
        expected: ExpectedObservation::ANY(),
    },
    Step {
        action: Action::Spawn {
            actor: ActorId::WORKER_B(),
            priority: priority(4),
        },
        expected: ExpectedObservation::ANY(),
    },
    Step {
        action: Action::Yield,
        expected: ExpectedObservation {
            running: Some(ActorId::WORKER_A()),
            subject: None,
            outcome: None,
            scheduler_lock_depth: None,
            interrupt_depth: None,
        },
    },
    Step {
        action: Action::SemaphoreWait {
            timeout: Wait::Forever,
        },
        expected: ExpectedObservation {
            running: Some(ActorId::WORKER_B()),
            subject: Some((ActorId::WORKER_A(), ActorState::Blocked)),
            outcome: Some(ActionOutcome::ContextSwitched),
            scheduler_lock_depth: None,
            interrupt_depth: None,
        },
    },
    Step {
        action: Action::SemaphorePost,
        expected: ExpectedObservation {
            running: Some(ActorId::WORKER_B()),
            subject: Some((ActorId::WORKER_A(), ActorState::Ready)),
            outcome: Some(ActionOutcome::Granted),
            scheduler_lock_depth: None,
            interrupt_depth: None,
        },
    },
    Step {
        action: Action::ObserveGrant {
            actor: ActorId::WORKER_A(),
        },
        expected: ExpectedObservation {
            subject: Some((ActorId::WORKER_A(), ActorState::Ready)),
            outcome: Some(ActionOutcome::Acquired),
            running: None,
            scheduler_lock_depth: None,
            interrupt_depth: None,
        },
    },
    ]
}

/// The semaphore timeout script: each action with the observation it must produce.
pub open spec fn semaphore_timeout_script() -> Seq<Step> {
    seq![
    Step {
        action: Action::Reset {
            profile: ExecutionProfile::Cooperative,
            main_priority: TaskPriority::LOWEST(),
        },
        expected: ExpectedObservation::ANY(),
    },
    Step {
        action: Action::Spawn {
            actor: ActorId::WORKER_A(),
            priority: TaskPriority::spec_from_raw(4),
        },
        expected: ExpectedObservation::ANY(),
    },
    Step {
        action: Action::Yield,
        expected: ExpectedObservation {
            running: Some(ActorId::WORKER_A()),
            subject: None,
            outcome: None,
            scheduler_lock_depth: None,
            interrupt_depth: None,
        },
    },
    Step {
        action: Action::SemaphoreWait {
            timeout: Wait::Milliseconds(5),
        },
        expected: ExpectedObservation {
            running: Some(ActorId::MAIN()),
            subject: Some((ActorId::WORKER_A(), ActorState::Blocked)),
            outcome: Some(ActionOutcome::ContextSwitched),
            scheduler_lock_depth: None,
            interrupt_depth: None,
        },
    },
    Step {
        action: Action::AdvanceTime { milliseconds: 5 },
        expected: ExpectedObservation::ANY(),
    },
    Step {
        action: Action::ObserveGrant {
            actor: ActorId::WORKER_A(),
        },
        expected: ExpectedObservation {
            subject: Some((ActorId::WORKER_A(), ActorState::Ready)),
            outcome: Some(ActionOutcome::TimedOut),
            running: None,
            scheduler_lock_depth: None,
            interrupt_depth: None,
        },
    },
    Step {
        action: Action::SemaphorePost,
        expected: ExpectedObservation {
            outcome: Some(ActionOutcome::Completed),
            running: None,
            subject: None,
            scheduler_lock_depth: None,
            interrupt_depth: None,
        },
    },
    Step {
        action: Action::Yield,
        expected: ExpectedObservation {
            running: Some(ActorId::WORKER_A()),
            subject: None,
            outcome: None,
            scheduler_lock_depth: None,
            interrupt_depth: None,
        },
    },
    Step {
        action: Action::SemaphoreWait {
            timeout: Wait::NoWait,
        },
        expected: ExpectedObservation {
            running: Some(ActorId::WORKER_A()),
            outcome: Some(ActionOutcome::Acquired),
            subject: None,
            scheduler_lock_depth: None,
            interrupt_depth: None,
        },
    },
    ]
}

fn semaphore_timeout_steps() -> (r: Vec<Step>)
    ensures
        r@ == semaphore_timeout_script(),
{
    vec![
    Step {
        action: Action::Reset {
            profile: ExecutionProfile::Cooperative,
            main_priority: TaskPriority::LOWEST(),
        },
        expected: ExpectedObservation::ANY(),
    },
    Step {
        action: Action::Spawn {
            actor: ActorId::WORKER_A(),
            priority: priority(4),
        },
        expected: ExpectedObservation::ANY(),
    },
    Step {
        action: Action::Yield,
        expected: ExpectedObservation {
            running: Some(ActorId::WORKER_A()),
            subject: None,
            outcome: None,
            scheduler_lock_depth: None,
            interrupt_depth: None,
        },
    },
    Step {
        action: Action::SemaphoreWait {
            timeout: Wait::Milliseconds(5),
        },
        expected: ExpectedObservation {
            running: Some(ActorId::MAIN()),
            subject: Some((ActorId::WORKER_A(), ActorState::Blocked)),
            outcome: Some(ActionOutcome::ContextSwitched),
            scheduler_lock_depth: None,
            interrupt_depth: None,
        },
    },
    Step {
        action: Action::AdvanceTime { milliseconds: 5 },
        expected: ExpectedObservation::ANY(),
    },
    Step {
        action: Action::ObserveGrant {
            actor: ActorId::WORKER_A(),
        },
        expected: ExpectedObservation {
            subject: Some((ActorId::WORKER_A(), ActorState::Ready)),
            outcome: Some(ActionOutcome::TimedOut),
            running: None,
            scheduler_lock_depth: None,
            interrupt_depth: None,
        },
    },
    Step {
        action: Action::SemaphorePost,
        expected: ExpectedObservation {
            outcome: Some(ActionOutcome::Completed),
            running: None,
            subject: None,
            scheduler_lock_depth: None,
            interrupt_depth: None,
        },
    },
    Step {
        action: Action::Yield,
        expected: ExpectedObservation {
            running: Some(ActorId::WORKER_A()),
            subject: None,
            outcome: None,
            scheduler_lock_depth: None,
            interrupt_depth: None,
        },
    },
    Step {
        action: Action::SemaphoreWait {
            timeout: Wait::NoWait,
        },
        expected: ExpectedObservation {
            running: Some(ActorId::WORKER_A()),
            outcome: Some(ActionOutcome::Acquired),
            subject: None,
            scheduler_lock_depth: None,
            interrupt_depth: None,
        },
    },
    ]
}

/// The mutex pi script: each action with the observation it must produce.
pub open spec fn mutex_pi_script() -> Seq<Step> {
    seq![
    Step {
        action: Action::Reset {
            profile: ExecutionProfile::Cooperative,
            main_priority: TaskPriority::LOWEST(),
        },
        expected: ExpectedObservation::ANY(),
    },
    Step {
        action: Action::Spawn {
            actor: ActorId::WORKER_A(),
            priority: TaskPriority::spec_from_raw(20),
        },
        expected: ExpectedObservation::ANY(),
    },
    Step {
        action: Action::Yield,
        expected: ExpectedObservation {
            running: Some(ActorId::WORKER_A()),
            subject: None,
            outcome: None,
            scheduler_lock_depth: None,
            interrupt_depth: None,
        },
    },
    Step {
        action: Action::MutexLock {
            timeout: Wait::Forever,
        },
        expected: ExpectedObservation {
            outcome: Some(ActionOutcome::Acquired),
            running: None,
            subject: None,
            scheduler_lock_depth: None,
            interrupt_depth: None,
        },
    },
    Step {
        action: Action::MutexLock {
            timeout: Wait::Forever,
        },
        expected: ExpectedObservation {
            outcome: Some(ActionOutcome::Acquired),
            running: None,
            subject: None,
            scheduler_lock_depth: None,
            interrupt_depth: None,
        },
    },
    Step {
        action: Action::Spawn {
            actor: ActorId::WORKER_B(),
            priority: TaskPriority::spec_from_raw(2),
        },
        expected: ExpectedObservation::ANY(),
    },
    Step {
        action: Action::Yield,
        expected: ExpectedObservation {
            running: Some(ActorId::WORKER_B()),
            subject: None,
            outcome: None,
            scheduler_lock_depth: None,
            interrupt_depth: None,
        },
    },
    Step {
        action: Action::MutexLock {
            timeout: Wait::Forever,
        },
        expected: ExpectedObservation {
            running: Some(ActorId::WORKER_A()),
            subject: Some((ActorId::WORKER_B(), ActorState::Blocked)),
            outcome: Some(ActionOutcome::ContextSwitched),
            scheduler_lock_depth: None,
            interrupt_depth: None,
        },
    },
    Step {
        action: Action::ObservePriority {
            actor: ActorId::WORKER_A(),
        },
        expected: ExpectedObservation {
            outcome: Some(ActionOutcome::PriorityObserved(
                TaskPriority::spec_from_raw(2),
            )),
            running: None,
            subject: None,
            scheduler_lock_depth: None,
            interrupt_depth: None,
        },
    },
    Step {
        action: Action::MutexUnlock,
        expected: ExpectedObservation {
            running: Some(ActorId::WORKER_A()),
            outcome: Some(ActionOutcome::Completed),
            subject: None,
            scheduler_lock_depth: None,
            interrupt_depth: None,
        },
    },
    Step {
        action: Action::MutexUnlock,
        expected: ExpectedObservation {
            running: Some(ActorId::WORKER_A()),
            subject: Some((ActorId::WORKER_B(), ActorState::Ready)),
            outcome: Some(ActionOutcome::Granted),
            scheduler_lock_depth: None,
            interrupt_depth: None,
        },
    },
    Step {
        action: Action::ObservePriority {
            actor: ActorId::WORKER_A(),
        },
        expected: ExpectedObservation {
            outcome: Some(ActionOutcome::PriorityObserved(
                TaskPriority::spec_from_raw(20),
            )),
            running: None,
            subject: None,
            scheduler_lock_depth: None,
            interrupt_depth: None,
        },
    },
    Step {
        action: Action::ObserveGrant {
            actor: ActorId::WORKER_B(),
        },
        expected: ExpectedObservation {
            outcome: Some(ActionOutcome::Acquired),
            running: None,
            subject: None,
            scheduler_lock_depth: None,
            interrupt_depth: None,
        },
    },
    ]
}

fn mutex_pi_steps() -> (r: Vec<Step>)
    ensures
        r@ == mutex_pi_script(),
{
    vec![
    Step {
        action: Action::Reset {
            profile: ExecutionProfile::Cooperative,
            main_priority: TaskPriority::LOWEST(),
        },
        expected: ExpectedObservation::ANY(),
    },
    Step {
        action: Action::Spawn {
            actor: ActorId::WORKER_A(),
            priority: priority(20),
        },
        expected: ExpectedObservation::ANY(),
    },
    Step {
        action: Action::Yield,
        expected: ExpectedObservation {
            running: Some(ActorId::WORKER_A()),
            subject: None,
            outcome: None,
            scheduler_lock_depth: None,
            interrupt_depth: None,
        },
    },
    Step {
        action: Action::MutexLock {
            timeout: Wait::Forever,
        },
        expected: ExpectedObservation {
            outcome: Some(ActionOutcome::Acquired),
            running: None,
            subject: None,
            scheduler_lock_depth: None,
            interrupt_depth: None,
        },
    },
    Step {
        action: Action::MutexLock {
            timeout: Wait::Forever,
        },
        expected: ExpectedObservation {
            outcome: Some(ActionOutcome::Acquired),
            running: None,
            subject: None,
            scheduler_lock_depth: None,
            interrupt_depth: None,
        },
    },
    Step {
        action: Action::Spawn {
            actor: ActorId::WORKER_B(),
            priority: priority(2),
        },
        expected: ExpectedObservation::ANY(),
    },
    Step {
        action: Action::Yield,
        expected: ExpectedObservation {
            running: Some(ActorId::WORKER_B()),
            subject: None,
            outcome: None,
            scheduler_lock_depth: None,
            interrupt_depth: None,
        },
    },
    Step {
        action: Action::MutexLock {
            timeout: Wait::Forever,
        },
        expected: ExpectedObservation {
            running: Some(ActorId::WORKER_A()),
            subject: Some((ActorId::WORKER_B(), ActorState::Blocked)),
            outcome: Some(ActionOutcome::ContextSwitched),
            scheduler_lock_depth: None,
            interrupt_depth: None,
        },
    },
    Step {
        action: Action::ObservePriority {
            actor: ActorId::WORKER_A(),
        },
        expected: ExpectedObservation {
            outcome: Some(ActionOutcome::PriorityObserved(
                priority(2),
            )),
            running: None,
            subject: None,
            scheduler_lock_depth: None,
            interrupt_depth: None,
        },
    },
    Step {
        action: Action::MutexUnlock,
        expected: ExpectedObservation {
            running: Some(ActorId::WORKER_A()),
            outcome: Some(ActionOutcome::Completed),
            subject: None,
            scheduler_lock_depth: None,
            interrupt_depth: None,
        },
    },
    Step {
        action: Action::MutexUnlock,
        expected: ExpectedObservation {
            running: Some(ActorId::WORKER_A()),
            subject: Some((ActorId::WORKER_B(), ActorState::Ready)),
            outcome: Some(ActionOutcome::Granted),
            scheduler_lock_depth: None,
            interrupt_depth: None,
        },
    },
    Step {
        action: Action::ObservePriority {
            actor: ActorId::WORKER_A(),
        },
        expected: ExpectedObservation {
            outcome: Some(ActionOutcome::PriorityObserved(
                priority(20),
            )),
            running: None,
            subject: None,
            scheduler_lock_depth: None,
            interrupt_depth: None,
        },
    },
    Step {
        action: Action::ObserveGrant {
            actor: ActorId::WORKER_B(),
        },
        expected: ExpectedObservation {
            outcome: Some(ActionOutcome::Acquired),
            running: None,
            subject: None,
            scheduler_lock_depth: None,
            interrupt_depth: None,
        },
    },
    ]
}

/// The stale identity script: each action with the observation it must produce.
pub open spec fn stale_identity_script() -> Seq<Step> {
    seq![
    Step {
        action: Action::Reset {
            profile: ExecutionProfile::Cooperative,
            main_priority: TaskPriority::LOWEST(),
        },
        expected: ExpectedObservation::ANY(),
    },
    Step {
        action: Action::Spawn {
            actor: ActorId::WORKER_A(),
            priority: TaskPriority::spec_from_raw(4),
        },
        expected: ExpectedObservation::ANY(),
    },
    Step {
        action: Action::RememberIdentity {
            actor: ActorId::WORKER_A(),
        },
        expected: ExpectedObservation {
            outcome: Some(ActionOutcome::IdentityRemembered),
            running: None,
            subject: None,
            scheduler_lock_depth: None,
            interrupt_depth: None,
        },
    },
    Step {
        action: Action::Yield,
        expected: ExpectedObservation {
            running: Some(ActorId::WORKER_A()),
            subject: None,
            outcome: None,
            scheduler_lock_depth: None,
            interrupt_depth: None,
        },
    },
    Step {
        action: Action::ExitTask,
        expected: ExpectedObservation {
            running: Some(ActorId::MAIN()),
            subject: None,
            outcome: None,
            scheduler_lock_depth: None,
            interrupt_depth: None,
        },
    },
    Step {
        action: Action::Spawn {
            actor: ActorId::WORKER_A(),
            priority: TaskPriority::spec_from_raw(4),
        },
        expected: ExpectedObservation::ANY(),
    },
    Step {
        action: Action::ValidateRememberedIdentity,
        expected: ExpectedObservation {
            outcome: Some(ActionOutcome::StaleIdentityRejected),
            running: None,
            subject: None,
            scheduler_lock_depth: None,
            interrupt_depth: None,
        },
    },
    ]
}

fn stale_identity_steps() -> (r: Vec<Step>)
    ensures
        r@ == stale_identity_script(),
{
    vec![
    Step {
        action: Action::Reset {
            profile: ExecutionProfile::Cooperative,
            main_priority: TaskPriority::LOWEST(),
        },
        expected: ExpectedObservation::ANY(),
    },
    Step {
        action: Action::Spawn {
            actor: ActorId::WORKER_A(),
            priority: priority(4),
        },
        expected: ExpectedObservation::ANY(),
    },
    Step {
        action: Action::RememberIdentity {
            actor: ActorId::WORKER_A(),
        },
        expected: ExpectedObservation {
            outcome: Some(ActionOutcome::IdentityRemembered),
            running: None,
            subject: None,
            scheduler_lock_depth: None,
            interrupt_depth: None,
        },
    },
    Step {
        action: Action::Yield,
        expected: ExpectedObservation {
            running: Some(ActorId::WORKER_A()),
            subject: None,
            outcome: None,
            scheduler_lock_depth: None,
            interrupt_depth: None,
        },
    },
    Step {
        action: Action::ExitTask,
        expected: ExpectedObservation {
            running: Some(ActorId::MAIN()),
            subject: None,
            outcome: None,
            scheduler_lock_depth: None,
            interrupt_depth: None,
        },
    },
    Step {
        action: Action::Spawn {
            actor: ActorId::WORKER_A(),
            priority: priority(4),
        },
        expected: ExpectedObservation::ANY(),
    },
    Step {
        action: Action::ValidateRememberedIdentity,
        expected: ExpectedObservation {
            outcome: Some(ActionOutcome::StaleIdentityRejected),
            running: None,
            subject: None,
            scheduler_lock_depth: None,
            interrupt_depth: None,
        },
    },
    ]
}

/// The zero delay script: each action with the observation it must produce.
pub open spec fn zero_delay_script() -> Seq<Step> {
    seq![
    Step {
        action: Action::Reset {
            profile: ExecutionProfile::Cooperative,
            main_priority: TaskPriority::LOWEST(),
        },
        expected: ExpectedObservation::ANY(),
    },
    Step {
        action: Action::Spawn {
            actor: ActorId::WORKER_A(),
            priority: TaskPriority::spec_from_raw(4),
        },
        expected: ExpectedObservation::ANY(),
    },
    Step {
        action: Action::Delay { milliseconds: 0 },
        expected: ExpectedObservation {
            running: Some(ActorId::WORKER_A()),
            subject: Some((ActorId::MAIN(), ActorState::Ready)),
            outcome: Some(ActionOutcome::ContextSwitched),
            scheduler_lock_depth: None,
            interrupt_depth: None,
        },
    },
    ]
}

fn zero_delay_steps() -> (r: Vec<Step>)
    ensures
        r@ == zero_delay_script(),
{
    vec![
    Step {
        action: Action::Reset {
            profile: ExecutionProfile::Cooperative,
            main_priority: TaskPriority::LOWEST(),
        },
        expected: ExpectedObservation::ANY(),
    },
    Step {
        action: Action::Spawn {
            actor: ActorId::WORKER_A(),
            priority: priority(4),
        },
        expected: ExpectedObservation::ANY(),
    },
    Step {
        action: Action::Delay { milliseconds: 0 },
        expected: ExpectedObservation {
            running: Some(ActorId::WORKER_A()),
            subject: Some((ActorId::MAIN(), ActorState::Ready)),
            outcome: Some(ActionOutcome::ContextSwitched),
            scheduler_lock_depth: None,
            interrupt_depth: None,
        },
    },
    ]
}

/// The wait forever script: each action with the observation it must produce.
pub open spec fn wait_forever_script() -> Seq<Step> {
    seq![
    Step {
        action: Action::Reset {
            profile: ExecutionProfile::Cooperative,
            main_priority: TaskPriority::LOWEST(),
        },
        expected: ExpectedObservation::ANY(),
    },
    Step {
        action: Action::Spawn {
            actor: ActorId::WORKER_A(),
            priority: TaskPriority::spec_from_raw(4),
        },
        expected: ExpectedObservation::ANY(),
    },
    Step {
        action: Action::Yield,
        expected: ExpectedObservation::ANY(),
    },
    Step {
        action: Action::SemaphoreWait {
            timeout: Wait::Forever,
        },
        expected: ExpectedObservation {
            running: Some(ActorId::MAIN()),
            subject: Some((ActorId::WORKER_A(), ActorState::Blocked)),
            outcome: Some(ActionOutcome::ContextSwitched),
            scheduler_lock_depth: None,
            interrupt_depth: None,
        },
    },
    Step {
        action: Action::AdvanceTime {
            milliseconds: u32::MAX,
        },
        expected: ExpectedObservation::ANY(),
    },
    Step {
        action: Action::Observe {
            actor: ActorId::WORKER_A(),
        },
        expected: ExpectedObservation {
            subject: Some((ActorId::WORKER_A(), ActorState::Blocked)),
            running: None,
            outcome: None,
            scheduler_lock_depth: None,
            interrupt_depth: None,
        },
    },
    Step {
        action: Action::SemaphorePost,
        expected: ExpectedObservation {
            subject: Some((ActorId::WORKER_A(), ActorState::Ready)),
            outcome: Some(ActionOutcome::Granted),
            running: None,
            scheduler_lock_depth: None,
            interrupt_depth: None,
        },
    },
    ]
}

fn wait_forever_steps() -> (r: Vec<Step>)
    ensures
        r@ == wait_forever_script(),
{
    vec![
    Step {
        action: Action::Reset {
            profile: ExecutionProfile::Cooperative,
            main_priority: TaskPriority::LOWEST(),
        },
        expected: ExpectedObservation::ANY(),
    },
    Step {
        action: Action::Spawn {
            actor: ActorId::WORKER_A(),
            priority: priority(4),
        },
        expected: ExpectedObservation::ANY(),
    },
    Step {
        action: Action::Yield,
        expected: ExpectedObservation::ANY(),
    },
    Step {
        action: Action::SemaphoreWait {
            timeout: Wait::Forever,
        },
        expected: ExpectedObservation {
            running: Some(ActorId::MAIN()),
            subject: Some((ActorId::WORKER_A(), ActorState::Blocked)),
            outcome: Some(ActionOutcome::ContextSwitched),
            scheduler_lock_depth: None,
            interrupt_depth: None,
        },
    },
    Step {
        action: Action::AdvanceTime {
            milliseconds: u32::MAX,
        },
        expected: ExpectedObservation::ANY(),
    },
    Step {
        action: Action::Observe {
            actor: ActorId::WORKER_A(),
        },
        expected: ExpectedObservation {
            subject: Some((ActorId::WORKER_A(), ActorState::Blocked)),
            running: None,
            outcome: None,
            scheduler_lock_depth: None,
            interrupt_depth: None,
        },
    },
    Step {
        action: Action::SemaphorePost,
        expected: ExpectedObservation {
            subject: Some((ActorId::WORKER_A(), ActorState::Ready)),
            outcome: Some(ActionOutcome::Granted),
            running: None,
            scheduler_lock_depth: None,
            interrupt_depth: None,
        },
    },
    ]
}

/// The same deadline script: each action with the observation it must produce.
pub open spec fn same_deadline_script() -> Seq<Step> {
    seq![
    Step {
        action: Action::Reset {
            profile: ExecutionProfile::Cooperative,
            main_priority: TaskPriority::LOWEST(),
        },
        expected: ExpectedObservation::ANY(),
    },
    Step {
        action: Action::Spawn {
            actor: ActorId::WORKER_A(),
            priority: TaskPriority::spec_from_raw(4),
        },
        expected: ExpectedObservation::ANY(),
    },
    Step {
        action: Action::Spawn {
            actor: ActorId::WORKER_B(),
            priority: TaskPriority::spec_from_raw(4),
        },
        expected: ExpectedObservation::ANY(),
    },
    Step {
        action: Action::Yield,
        expected: ExpectedObservation {
            running: Some(ActorId::WORKER_A()),
            subject: None,
            outcome: None,
            scheduler_lock_depth: None,
            interrupt_depth: None,
        },
    },
    Step {
        action: Action::Sleep { milliseconds: 5 },
        expected: ExpectedObservation {
            running: Some(ActorId::WORKER_B()),
            subject: None,
            outcome: None,
            scheduler_lock_depth: None,
            interrupt_depth: None,
        },
    },
    Step {
        action: Action::Sleep { milliseconds: 5 },
        expected: ExpectedObservation {
            running: Some(ActorId::MAIN()),
            subject: None,
            outcome: None,
            scheduler_lock_depth: None,
            interrupt_depth: None,
        },
    },
    Step {
        action: Action::AdvanceTime { milliseconds: 5 },
        expected: ExpectedObservation::ANY(),
    },
    Step {
        action: Action::Yield,
        expected: ExpectedObservation {
            running: Some(ActorId::WORKER_A()),
            outcome: Some(ActionOutcome::ContextSwitched),
            subject: None,
            scheduler_lock_depth: None,
            interrupt_depth: None,
        },
    },
    ]
}

fn same_deadline_steps() -> (r: Vec<Step>)
    ensures
        r@ == same_deadline_script(),
{
    vec![
    Step {
        action: Action::Reset {
            profile: ExecutionProfile::Cooperative,
            main_priority: TaskPriority::LOWEST(),
        },
        expected: ExpectedObservation::ANY(),
    },
    Step {
        action: Action::Spawn {
            actor: ActorId::WORKER_A(),
            priority: priority(4),
        },
        expected: ExpectedObservation::ANY(),
    },
    Step {
        action: Action::Spawn {
            actor: ActorId::WORKER_B(),
            priority: priority(4),
        },
        expected: ExpectedObservation::ANY(),
    },
    Step {
        action: Action::Yield,
        expected: ExpectedObservation {
            running: Some(ActorId::WORKER_A()),
            subject: None,
            outcome: None,
            scheduler_lock_depth: None,
            interrupt_depth: None,
        },
    },
    Step {
        action: Action::Sleep { milliseconds: 5 },
        expected: ExpectedObservation {
            running: Some(ActorId::WORKER_B()),
            subject: None,
            outcome: None,
            scheduler_lock_depth: None,
            interrupt_depth: None,
        },
    },
    Step {
        action: Action::Sleep { milliseconds: 5 },
        expected: ExpectedObservation {
            running: Some(ActorId::MAIN()),
            subject: None,
            outcome: None,
            scheduler_lock_depth: None,
            interrupt_depth: None,
        },
    },
    Step {
        action: Action::AdvanceTime { milliseconds: 5 },
        expected: ExpectedObservation::ANY(),
    },
    Step {
        action: Action::Yield,
        expected: ExpectedObservation {
            running: Some(ActorId::WORKER_A()),
            outcome: Some(ActionOutcome::ContextSwitched),
            subject: None,
            scheduler_lock_depth: None,
            interrupt_depth: None,
        },
    },
    ]
}

/// The semaphore priority script: each action with the observation it must produce.
pub open spec fn semaphore_priority_script() -> Seq<Step> {
    seq![
    Step {
        action: Action::Reset {
            profile: ExecutionProfile::Cooperative,
            main_priority: TaskPriority::LOWEST(),
        },
        expected: ExpectedObservation::ANY(),
    },
    Step {
        action: Action::Spawn {
            actor: ActorId::WORKER_A(),
            priority: TaskPriority::spec_from_raw(10),
        },
        expected: ExpectedObservation::ANY(),
    },
    Step {
        action: Action::Yield,
        expected: ExpectedObservation {
            running: Some(ActorId::WORKER_A()),
            subject: None,
            outcome: None,
            scheduler_lock_depth: None,
            interrupt_depth: None,
        },
    },
    Step {
        action: Action::Spawn {
            actor: ActorId::WORKER_B(),
            priority: TaskPriority::spec_from_raw(2),
        },
        expected: ExpectedObservation {
            running: Some(ActorId::WORKER_A()),
            subject: None,
            outcome: None,
            scheduler_lock_depth: None,
            interrupt_depth: None,
        },
    },
    Step {
        action: Action::SemaphoreWait {
            timeout: Wait::Forever,
        },
        expected: ExpectedObservation {
            running: Some(ActorId::WORKER_B()),
            subject: None,
            outcome: None,
            scheduler_lock_depth: None,
            interrupt_depth: None,
        },
    },
    Step {
        action: Action::SemaphoreWait {
            timeout: Wait::Forever,
        },
        expected: ExpectedObservation {
            running: Some(ActorId::MAIN()),
            subject: None,
            outcome: None,
            scheduler_lock_depth: None,
            interrupt_depth: None,
        },
    },
    Step {
        action: Action::SemaphorePost,
        expected: ExpectedObservation {
            subject: Some((ActorId::WORKER_B(), ActorState::Ready)),
            outcome: Some(ActionOutcome::Granted),
            running: None,
            scheduler_lock_depth: None,
            interrupt_depth: None,
        },
    },
    Step {
        action: Action::ObserveGrant {
            actor: ActorId::WORKER_B(),
        },
        expected: ExpectedObservation {
            outcome: Some(ActionOutcome::Acquired),
            running: None,
            subject: None,
            scheduler_lock_depth: None,
            interrupt_depth: None,
        },
    },
    ]
}

fn semaphore_priority_steps() -> (r: Vec<Step>)
    ensures
        r@ == semaphore_priority_script(),
{
    vec![
    Step {
        action: Action::Reset {
            profile: ExecutionProfile::Cooperative,
            main_priority: TaskPriority::LOWEST(),
        },
        expected: ExpectedObservation::ANY(),
    },
    Step {
        action: Action::Spawn {
            actor: ActorId::WORKER_A(),
            priority: priority(10),
        },
        expected: ExpectedObservation::ANY(),
    },
    Step {
        action: Action::Yield,
        expected: ExpectedObservation {
            running: Some(ActorId::WORKER_A()),
            subject: None,
            outcome: None,
            scheduler_lock_depth: None,
            interrupt_depth: None,
        },
    },
    Step {
        action: Action::Spawn {
            actor: ActorId::WORKER_B(),
            priority: priority(2),
        },
        expected: ExpectedObservation {
            running: Some(ActorId::WORKER_A()),
            subject: None,
            outcome: None,
            scheduler_lock_depth: None,
            interrupt_depth: None,
        },
    },
    Step {
        action: Action::SemaphoreWait {
            timeout: Wait::Forever,
        },
        expected: ExpectedObservation {
            running: Some(ActorId::WORKER_B()),
            subject: None,
            outcome: None,
            scheduler_lock_depth: None,
            interrupt_depth: None,
        },
    },
    Step {
        action: Action::SemaphoreWait {
            timeout: Wait::Forever,
        },
        expected: ExpectedObservation {
            running: Some(ActorId::MAIN()),
            subject: None,
            outcome: None,
            scheduler_lock_depth: None,
            interrupt_depth: None,
        },
    },
    Step {
        action: Action::SemaphorePost,
        expected: ExpectedObservation {
            subject: Some((ActorId::WORKER_B(), ActorState::Ready)),
            outcome: Some(ActionOutcome::Granted),
            running: None,
            scheduler_lock_depth: None,
            interrupt_depth: None,
        },
    },
    Step {
        action: Action::ObserveGrant {
            actor: ActorId::WORKER_B(),
        },
        expected: ExpectedObservation {
            outcome: Some(ActionOutcome::Acquired),
            running: None,
            subject: None,
            scheduler_lock_depth: None,
            interrupt_depth: None,
        },
    },
    ]
}

/// The unbalanced scheduler unlock script: each action with the observation it must produce.
pub open spec fn unbalanced_scheduler_unlock_script() -> Seq<Step> {
    seq![
    Step {
        action: Action::Reset {
            profile: ExecutionProfile::Cooperative,
            main_priority: TaskPriority::LOWEST(),
        },
        expected: ExpectedObservation {
            running: Some(ActorId::MAIN()),
            outcome: Some(ActionOutcome::Completed),
            scheduler_lock_depth: Some(0),
            subject: None,
            interrupt_depth: None,
        },
    },
    Step {
        action: Action::UnlockScheduler,
        expected: ExpectedObservation {
            running: Some(ActorId::MAIN()),
            outcome: Some(ActionOutcome::Rejected(Error::InvalidContext)),
            scheduler_lock_depth: Some(0),
            subject: None,
            interrupt_depth: None,
        },
    },
    ]
}

fn unbalanced_scheduler_unlock_steps() -> (r: Vec<Step>)
    ensures
        r@ == unbalanced_scheduler_unlock_script(),
{
    vec![
    Step {
        action: Action::Reset {
            profile: ExecutionProfile::Cooperative,
            main_priority: TaskPriority::LOWEST(),
        },
        expected: ExpectedObservation {
            running: Some(ActorId::MAIN()),
            outcome: Some(ActionOutcome::Completed),
            scheduler_lock_depth: Some(0),
            subject: None,
            interrupt_depth: None,
        },
    },
    Step {
        action: Action::UnlockScheduler,
        expected: ExpectedObservation {
            running: Some(ActorId::MAIN()),
            outcome: Some(ActionOutcome::Rejected(Error::InvalidContext)),
            scheduler_lock_depth: Some(0),
            subject: None,
            interrupt_depth: None,
        },
    },
    ]
}

/// The unbalanced interrupt exit script: each action with the observation it must produce.
pub open spec fn unbalanced_interrupt_exit_script() -> Seq<Step> {
    seq![
    Step {
        action: Action::Reset {
            profile: ExecutionProfile::Cooperative,
            main_priority: TaskPriority::LOWEST(),
        },
        expected: ExpectedObservation {
            running: Some(ActorId::MAIN()),
            outcome: Some(ActionOutcome::Completed),
            interrupt_depth: Some(0),
            subject: None,
            scheduler_lock_depth: None,
        },
    },
    Step {
        action: Action::ExitInterrupt,
        expected: ExpectedObservation {
            running: Some(ActorId::MAIN()),
            outcome: Some(ActionOutcome::Rejected(Error::InvalidContext)),
            interrupt_depth: Some(0),
            subject: None,
            scheduler_lock_depth: None,
        },
    },
    ]
}

fn unbalanced_interrupt_exit_steps() -> (r: Vec<Step>)
    ensures
        r@ == unbalanced_interrupt_exit_script(),
{
    vec![
    Step {
        action: Action::Reset {
            profile: ExecutionProfile::Cooperative,
            main_priority: TaskPriority::LOWEST(),
        },
        expected: ExpectedObservation {
            running: Some(ActorId::MAIN()),
            outcome: Some(ActionOutcome::Completed),
            interrupt_depth: Some(0),
            subject: None,
            scheduler_lock_depth: None,
        },
    },
    Step {
        action: Action::ExitInterrupt,
        expected: ExpectedObservation {
            running: Some(ActorId::MAIN()),
            outcome: Some(ActionOutcome::Rejected(Error::InvalidContext)),
            interrupt_depth: Some(0),
            subject: None,
            scheduler_lock_depth: None,
        },
    },
    ]
}

/// The blocking in scheduler lock script: each action with the observation it must produce.
pub open spec fn blocking_in_scheduler_lock_script() -> Seq<Step> {
    seq![
    Step {
        action: Action::Reset {
            profile: ExecutionProfile::Cooperative,
            main_priority: TaskPriority::LOWEST(),
        },
        expected: ExpectedObservation {
            running: Some(ActorId::MAIN()),
            outcome: Some(ActionOutcome::Completed),
            subject: None,
            scheduler_lock_depth: None,
            interrupt_depth: None,
        },
    },
    Step {
        action: Action::MutexLock {
            timeout: Wait::NoWait,
        },
        expected: ExpectedObservation {
            running: Some(ActorId::MAIN()),
            outcome: Some(ActionOutcome::Acquired),
            subject: None,
            scheduler_lock_depth: None,
            interrupt_depth: None,
        },
    },
    Step {
        action: Action::Spawn {
            actor: ActorId::WORKER_A(),
            priority: TaskPriority::LOWEST(),
        },
        expected: ExpectedObservation {
            running: Some(ActorId::MAIN()),
            outcome: Some(ActionOutcome::Spawned),
            subject: None,
            scheduler_lock_depth: None,
            interrupt_depth: None,
        },
    },
    Step {
        action: Action::Yield,
        expected: ExpectedObservation {
            running: Some(ActorId::WORKER_A()),
            outcome: Some(ActionOutcome::ContextSwitched),
            subject: None,
            scheduler_lock_depth: None,
            interrupt_depth: None,
        },
    },
    Step {
        action: Action::LockScheduler,
        expected: ExpectedObservation {
            running: Some(ActorId::WORKER_A()),
            outcome: Some(ActionOutcome::Completed),
            scheduler_lock_depth: Some(1),
            subject: None,
            interrupt_depth: None,
        },
    },
    Step {
        action: Action::Sleep { milliseconds: 1 },
        expected: ExpectedObservation {
            running: Some(ActorId::WORKER_A()),
            outcome: Some(ActionOutcome::Rejected(Error::InvalidContext)),
            scheduler_lock_depth: Some(1),
            subject: None,
            interrupt_depth: None,
        },
    },
    Step {
        action: Action::SemaphoreWait {
            timeout: Wait::Forever,
        },
        expected: ExpectedObservation {
            running: Some(ActorId::WORKER_A()),
            outcome: Some(ActionOutcome::Rejected(Error::InvalidContext)),
            scheduler_lock_depth: Some(1),
            subject: None,
            interrupt_depth: None,
        },
    },
    Step {
        action: Action::MutexLock {
            timeout: Wait::Forever,
        },
        expected: ExpectedObservation {
            running: Some(ActorId::WORKER_A()),
            outcome: Some(ActionOutcome::Rejected(Error::InvalidContext)),
            scheduler_lock_depth: Some(1),
            subject: None,
            interrupt_depth: None,
        },
    },
    Step {
        action: Action::UnlockScheduler,
        expected: ExpectedObservation {
            running: Some(ActorId::WORKER_A()),
            outcome: Some(ActionOutcome::Completed),
            scheduler_lock_depth: Some(0),
            subject: None,
            interrupt_depth: None,
        },
    },
    ]
}

fn blocking_in_scheduler_lock_steps() -> (r: Vec<Step>)
    ensures
        r@ == blocking_in_scheduler_lock_script(),
{
    vec![
    Step {
        action: Action::Reset {
            profile: ExecutionProfile::Cooperative,
            main_priority: TaskPriority::LOWEST(),
        },
        expected: ExpectedObservation {
            running: Some(ActorId::MAIN()),
            outcome: Some(ActionOutcome::Completed),
            subject: None,
            scheduler_lock_depth: None,
            interrupt_depth: None,
        },
    },
    Step {
        action: Action::MutexLock {
            timeout: Wait::NoWait,
        },
        expected: ExpectedObservation {
            running: Some(ActorId::MAIN()),
            outcome: Some(ActionOutcome::Acquired),
            subject: None,
            scheduler_lock_depth: None,
            interrupt_depth: None,
        },
    },
    Step {
        action: Action::Spawn {
            actor: ActorId::WORKER_A(),
            priority: TaskPriority::LOWEST(),
        },
        expected: ExpectedObservation {
            running: Some(ActorId::MAIN()),
            outcome: Some(ActionOutcome::Spawned),
            subject: None,
            scheduler_lock_depth: None,
            interrupt_depth: None,
        },
    },
    Step {
        action: Action::Yield,
        expected: ExpectedObservation {
            running: Some(ActorId::WORKER_A()),
            outcome: Some(ActionOutcome::ContextSwitched),
            subject: None,
            scheduler_lock_depth: None,
            interrupt_depth: None,
        },
    },
    Step {
        action: Action::LockScheduler,
        expected: ExpectedObservation {
            running: Some(ActorId::WORKER_A()),
            outcome: Some(ActionOutcome::Completed),
            scheduler_lock_depth: Some(1),
            subject: None,
            interrupt_depth: None,
        },
    },
    Step {
        action: Action::Sleep { milliseconds: 1 },
        expected: ExpectedObservation {
            running: Some(ActorId::WORKER_A()),
            outcome: Some(ActionOutcome::Rejected(Error::InvalidContext)),
            scheduler_lock_depth: Some(1),
            subject: None,
            interrupt_depth: None,
        },
    },
    Step {
        action: Action::SemaphoreWait {
            timeout: Wait::Forever,
        },
        expected: ExpectedObservation {
            running: Some(ActorId::WORKER_A()),
            outcome: Some(ActionOutcome::Rejected(Error::InvalidContext)),
            scheduler_lock_depth: Some(1),
            subject: None,
            interrupt_depth: None,
        },
    },
    Step {
        action: Action::MutexLock {
            timeout: Wait::Forever,
        },
        expected: ExpectedObservation {
            running: Some(ActorId::WORKER_A()),
            outcome: Some(ActionOutcome::Rejected(Error::InvalidContext)),
            scheduler_lock_depth: Some(1),
            subject: None,
            interrupt_depth: None,
        },
    },
    Step {
        action: Action::UnlockScheduler,
        expected: ExpectedObservation {
            running: Some(ActorId::WORKER_A()),
            outcome: Some(ActionOutcome::Completed),
            scheduler_lock_depth: Some(0),
            subject: None,
            interrupt_depth: None,
        },
    },
    ]
}

/// The duplicate resource destroy script: each action with the observation it must produce.
pub open spec fn duplicate_resource_destroy_script() -> Seq<Step> {
    seq![
    Step {
        action: Action::Reset {
            profile: ExecutionProfile::Cooperative,
            main_priority: TaskPriority::LOWEST(),
        },
        expected: ExpectedObservation::ANY(),
    },
    Step {
        action: Action::CreateResource {
            kind: ResourceKind::Semaphore,
        },
        expected: ExpectedObservation {
            outcome: Some(ActionOutcome::ResourceCreated),
            running: None,
            subject: None,
            scheduler_lock_depth: None,
            interrupt_depth: None,
        },
    },
    Step {
        action: Action::RememberResourceHandle {
            kind: ResourceKind::Semaphore,
        },
        expected: ExpectedObservation {
            outcome: Some(ActionOutcome::ResourceHandleRemembered),
            running: None,
            subject: None,
            scheduler_lock_depth: None,
            interrupt_depth: None,
        },
    },
    Step {
        action: Action::DestroyResource {
            kind: ResourceKind::Semaphore,
            handle: ResourceHandleRef::Current,
        },
        expected: ExpectedObservation {
            outcome: Some(ActionOutcome::ResourceDestroyed),
            running: None,
            subject: None,
            scheduler_lock_depth: None,
            interrupt_depth: None,
        },
    },
    Step {
        action: Action::DestroyResource {
            kind: ResourceKind::Semaphore,
            handle: ResourceHandleRef::Remembered,
        },
        expected: ExpectedObservation {
            outcome: Some(ActionOutcome::Rejected(Error::InvalidHandle)),
            running: None,
            subject: None,
            scheduler_lock_depth: None,
            interrupt_depth: None,
        },
    },
    ]
}

fn duplicate_resource_destroy_steps() -> (r: Vec<Step>)
    ensures
        r@ == duplicate_resource_destroy_script(),
{
    vec![
    Step {
        action: Action::Reset {
            profile: ExecutionProfile::Cooperative,
            main_priority: TaskPriority::LOWEST(),
        },
        expected: ExpectedObservation::ANY(),
    },
    Step {
        action: Action::CreateResource {
            kind: ResourceKind::Semaphore,
        },
        expected: ExpectedObservation {
            outcome: Some(ActionOutcome::ResourceCreated),
            running: None,
            subject: None,
            scheduler_lock_depth: None,
            interrupt_depth: None,
        },
    },
    Step {
        action: Action::RememberResourceHandle {
            kind: ResourceKind::Semaphore,
        },
        expected: ExpectedObservation {
            outcome: Some(ActionOutcome::ResourceHandleRemembered),
            running: None,
            subject: None,
            scheduler_lock_depth: None,
            interrupt_depth: None,
        },
    },
    Step {
        action: Action::DestroyResource {
            kind: ResourceKind::Semaphore,
            handle: ResourceHandleRef::Current,
        },
        expected: ExpectedObservation {
            outcome: Some(ActionOutcome::ResourceDestroyed),
            running: None,
            subject: None,
            scheduler_lock_depth: None,
            interrupt_depth: None,
        },
    },
    Step {
        action: Action::DestroyResource {
            kind: ResourceKind::Semaphore,
            handle: ResourceHandleRef::Remembered,
        },
        expected: ExpectedObservation {
            outcome: Some(ActionOutcome::Rejected(Error::InvalidHandle)),
            running: None,
            subject: None,
            scheduler_lock_depth: None,
            interrupt_depth: None,
        },
    },
    ]
}

/// The stale resource handle script: each action with the observation it must produce.
pub open spec fn stale_resource_handle_script() -> Seq<Step> {
    seq![
    Step {
        action: Action::Reset {
            profile: ExecutionProfile::Cooperative,
            main_priority: TaskPriority::LOWEST(),
        },
        expected: ExpectedObservation::ANY(),
    },
    Step {
        action: Action::CreateResource {
            kind: ResourceKind::Semaphore,
        },
        expected: ExpectedObservation::ANY(),
    },
    Step {
        action: Action::RememberResourceHandle {
            kind: ResourceKind::Semaphore,
        },
        expected: ExpectedObservation::ANY(),
    },
    Step {
        action: Action::DestroyResource {
            kind: ResourceKind::Semaphore,
            handle: ResourceHandleRef::Current,
        },
        expected: ExpectedObservation::ANY(),
    },
    Step {
        action: Action::CreateResource {
            kind: ResourceKind::Semaphore,
        },
        expected: ExpectedObservation {
            outcome: Some(ActionOutcome::ResourceCreated),
            running: None,
            subject: None,
            scheduler_lock_depth: None,
            interrupt_depth: None,
        },
    },
    Step {
        action: Action::DestroyResource {
            kind: ResourceKind::Semaphore,
            handle: ResourceHandleRef::Remembered,
        },
        expected: ExpectedObservation {
            outcome: Some(ActionOutcome::Rejected(Error::InvalidHandle)),
            running: None,
            subject: None,
            scheduler_lock_depth: None,
            interrupt_depth: None,
        },
    },
    Step {
        action: Action::DestroyResource {
            kind: ResourceKind::Semaphore,
            handle: ResourceHandleRef::Current,
        },
        expected: ExpectedObservation {
            outcome: Some(ActionOutcome::ResourceDestroyed),
            running: None,
            subject: None,
            scheduler_lock_depth: None,
            interrupt_depth: None,
        },
    },
    ]
}

fn stale_resource_handle_steps() -> (r: Vec<Step>)
    ensures
        r@ == stale_resource_handle_script(),
{
    vec![
    Step {
        action: Action::Reset {
            profile: ExecutionProfile::Cooperative,
            main_priority: TaskPriority::LOWEST(),
        },
        expected: ExpectedObservation::ANY(),
    },
    Step {
        action: Action::CreateResource {
            kind: ResourceKind::Semaphore,
        },
        expected: ExpectedObservation::ANY(),
    },
    Step {
        action: Action::RememberResourceHandle {
            kind: ResourceKind::Semaphore,
        },
        expected: ExpectedObservation::ANY(),
    },
    Step {
        action: Action::DestroyResource {
            kind: ResourceKind::Semaphore,
            handle: ResourceHandleRef::Current,
        },
        expected: ExpectedObservation::ANY(),
    },
    Step {
        action: Action::CreateResource {
            kind: ResourceKind::Semaphore,
        },
        expected: ExpectedObservation {
            outcome: Some(ActionOutcome::ResourceCreated),
            running: None,
            subject: None,
            scheduler_lock_depth: None,
            interrupt_depth: None,
        },
    },
    Step {
        action: Action::DestroyResource {
            kind: ResourceKind::Semaphore,
            handle: ResourceHandleRef::Remembered,
        },
        expected: ExpectedObservation {
            outcome: Some(ActionOutcome::Rejected(Error::InvalidHandle)),
            running: None,
            subject: None,
            scheduler_lock_depth: None,
            interrupt_depth: None,
        },
    },
    Step {
        action: Action::DestroyResource {
            kind: ResourceKind::Semaphore,
            handle: ResourceHandleRef::Current,
        },
        expected: ExpectedObservation {
            outcome: Some(ActionOutcome::ResourceDestroyed),
            running: None,
            subject: None,
            scheduler_lock_depth: None,
            interrupt_depth: None,
        },
    },
    ]
}

/// The semaphore busy destroy script: each action with the observation it must produce.
pub open spec fn semaphore_busy_destroy_script() -> Seq<Step> {
    seq![
    Step {
        action: Action::Reset {
            profile: ExecutionProfile::Preemptive,
            main_priority: TaskPriority::LOWEST(),
        },
        expected: ExpectedObservation::ANY(),
    },
    Step {
        action: Action::CreateResource {
            kind: ResourceKind::Semaphore,
        },
        expected: ExpectedObservation::ANY(),
    },
    Step {
        action: Action::Spawn {
            actor: ActorId::WORKER_A(),
            priority: TaskPriority::spec_from_raw(4),
        },
        expected: ExpectedObservation {
            running: Some(ActorId::WORKER_A()),
            subject: None,
            outcome: None,
            scheduler_lock_depth: None,
            interrupt_depth: None,
        },
    },
    Step {
        action: Action::SemaphoreWait {
            timeout: Wait::Forever,
        },
        expected: ExpectedObservation {
            running: Some(ActorId::MAIN()),
            subject: Some((ActorId::WORKER_A(), ActorState::Blocked)),
            outcome: None,
            scheduler_lock_depth: None,
            interrupt_depth: None,
        },
    },
    Step {
        action: Action::DestroyResource {
            kind: ResourceKind::Semaphore,
            handle: ResourceHandleRef::Current,
        },
        expected: ExpectedObservation {
            outcome: Some(ActionOutcome::Rejected(Error::InvalidContext)),
            running: None,
            subject: None,
            scheduler_lock_depth: None,
            interrupt_depth: None,
        },
    },
    ]
}

fn semaphore_busy_destroy_steps() -> (r: Vec<Step>)
    ensures
        r@ == semaphore_busy_destroy_script(),
{
    vec![
    Step {
        action: Action::Reset {
            profile: ExecutionProfile::Preemptive,
            main_priority: TaskPriority::LOWEST(),
        },
        expected: ExpectedObservation::ANY(),
    },
    Step {
        action: Action::CreateResource {
            kind: ResourceKind::Semaphore,
        },
        expected: ExpectedObservation::ANY(),
    },
    Step {
        action: Action::Spawn {
            actor: ActorId::WORKER_A(),
            priority: priority(4),
        },
        expected: ExpectedObservation {
            running: Some(ActorId::WORKER_A()),
            subject: None,
            outcome: None,
            scheduler_lock_depth: None,
            interrupt_depth: None,
        },
    },
    Step {
        action: Action::SemaphoreWait {
            timeout: Wait::Forever,
        },
        expected: ExpectedObservation {
            running: Some(ActorId::MAIN()),
            subject: Some((ActorId::WORKER_A(), ActorState::Blocked)),
            outcome: None,
            scheduler_lock_depth: None,
            interrupt_depth: None,
        },
    },
    Step {
        action: Action::DestroyResource {
            kind: ResourceKind::Semaphore,
            handle: ResourceHandleRef::Current,
        },
        expected: ExpectedObservation {
            outcome: Some(ActionOutcome::Rejected(Error::InvalidContext)),
            running: None,
            subject: None,
            scheduler_lock_depth: None,
            interrupt_depth: None,
        },
    },
    ]
}

/// The mutex busy destroy script: each action with the observation it must produce.
pub open spec fn mutex_busy_destroy_script() -> Seq<Step> {
    seq![
    Step {
        action: Action::Reset {
            profile: ExecutionProfile::Cooperative,
            main_priority: TaskPriority::LOWEST(),
        },
        expected: ExpectedObservation::ANY(),
    },
    Step {
        action: Action::CreateResource {
            kind: ResourceKind::Mutex,
        },
        expected: ExpectedObservation::ANY(),
    },
    Step {
        action: Action::MutexLock {
            timeout: Wait::NoWait,
        },
        expected: ExpectedObservation {
            outcome: Some(ActionOutcome::Acquired),
            running: None,
            subject: None,
            scheduler_lock_depth: None,
            interrupt_depth: None,
        },
    },
    Step {
        action: Action::DestroyResource {
            kind: ResourceKind::Mutex,
            handle: ResourceHandleRef::Current,
        },
        expected: ExpectedObservation {
            outcome: Some(ActionOutcome::Rejected(Error::InvalidContext)),
            running: None,
            subject: None,
            scheduler_lock_depth: None,
            interrupt_depth: None,
        },
    },
    ]
}

fn mutex_busy_destroy_steps() -> (r: Vec<Step>)
    ensures
        r@ == mutex_busy_destroy_script(),
{
    vec![
    Step {
        action: Action::Reset {
            profile: ExecutionProfile::Cooperative,
            main_priority: TaskPriority::LOWEST(),
        },
        expected: ExpectedObservation::ANY(),
    },
    Step {
        action: Action::CreateResource {
            kind: ResourceKind::Mutex,
        },
        expected: ExpectedObservation::ANY(),
    },
    Step {
        action: Action::MutexLock {
            timeout: Wait::NoWait,
        },
        expected: ExpectedObservation {
            outcome: Some(ActionOutcome::Acquired),
            running: None,
            subject: None,
            scheduler_lock_depth: None,
            interrupt_depth: None,
        },
    },
    Step {
        action: Action::DestroyResource {
            kind: ResourceKind::Mutex,
            handle: ResourceHandleRef::Current,
        },
        expected: ExpectedObservation {
            outcome: Some(ActionOutcome::Rejected(Error::InvalidContext)),
            running: None,
            subject: None,
            scheduler_lock_depth: None,
            interrupt_depth: None,
        },
    },
    ]
}

/// The semaphore cancel after grant script: each action with the observation it must produce.
pub open spec fn semaphore_cancel_after_grant_script() -> Seq<Step> {
    seq![
    Step {
        action: Action::Reset {
            profile: ExecutionProfile::Preemptive,
            main_priority: TaskPriority::LOWEST(),
        },
        expected: ExpectedObservation::ANY(),
    },
    Step {
        action: Action::CreateResource {
            kind: ResourceKind::Semaphore,
        },
        expected: ExpectedObservation::ANY(),
    },
    Step {
        action: Action::Spawn {
            actor: ActorId::WORKER_A(),
            priority: TaskPriority::spec_from_raw(4),
        },
        expected: ExpectedObservation::ANY(),
    },
    Step {
        action: Action::SemaphoreWait {
            timeout: Wait::Forever,
        },
        expected: ExpectedObservation::ANY(),
    },
    Step {
        action: Action::SemaphorePost,
        expected: ExpectedObservation {
            subject: Some((ActorId::WORKER_A(), ActorState::Ready)),
            outcome: Some(ActionOutcome::Granted),
            running: None,
            scheduler_lock_depth: None,
            interrupt_depth: None,
        },
    },
    Step {
        action: Action::DestroyResource {
            kind: ResourceKind::Semaphore,
            handle: ResourceHandleRef::Current,
        },
        expected: ExpectedObservation {
            outcome: Some(ActionOutcome::Rejected(Error::InvalidContext)),
            running: None,
            subject: None,
            scheduler_lock_depth: None,
            interrupt_depth: None,
        },
    },
    Step {
        action: Action::CancelWait {
            actor: ActorId::WORKER_A(),
        },
        expected: ExpectedObservation {
            subject: Some((ActorId::WORKER_A(), ActorState::Ready)),
            outcome: Some(ActionOutcome::WaitCancelled),
            running: None,
            scheduler_lock_depth: None,
            interrupt_depth: None,
        },
    },
    Step {
        action: Action::SemaphoreWait {
            timeout: Wait::NoWait,
        },
        expected: ExpectedObservation {
            outcome: Some(ActionOutcome::Acquired),
            running: None,
            subject: None,
            scheduler_lock_depth: None,
            interrupt_depth: None,
        },
    },
    ]
}

fn semaphore_cancel_after_grant_steps() -> (r: Vec<Step>)
    ensures
        r@ == semaphore_cancel_after_grant_script(),
{
    vec![
    Step {
        action: Action::Reset {
            profile: ExecutionProfile::Preemptive,
            main_priority: TaskPriority::LOWEST(),
        },
        expected: ExpectedObservation::ANY(),
    },
    Step {
        action: Action::CreateResource {
            kind: ResourceKind::Semaphore,
        },
        expected: ExpectedObservation::ANY(),
    },
    Step {
        action: Action::Spawn {
            actor: ActorId::WORKER_A(),
            priority: priority(4),
        },
        expected: ExpectedObservation::ANY(),
    },
    Step {
        action: Action::SemaphoreWait {
            timeout: Wait::Forever,
        },
        expected: ExpectedObservation::ANY(),
    },
    Step {
        action: Action::SemaphorePost,
        expected: ExpectedObservation {
            subject: Some((ActorId::WORKER_A(), ActorState::Ready)),
            outcome: Some(ActionOutcome::Granted),
            running: None,
            scheduler_lock_depth: None,
            interrupt_depth: None,
        },
    },
    Step {
        action: Action::DestroyResource {
            kind: ResourceKind::Semaphore,
            handle: ResourceHandleRef::Current,
        },
        expected: ExpectedObservation {
            outcome: Some(ActionOutcome::Rejected(Error::InvalidContext)),
            running: None,
            subject: None,
            scheduler_lock_depth: None,
            interrupt_depth: None,
        },
    },
    Step {
        action: Action::CancelWait {
            actor: ActorId::WORKER_A(),
        },
        expected: ExpectedObservation {
            subject: Some((ActorId::WORKER_A(), ActorState::Ready)),
            outcome: Some(ActionOutcome::WaitCancelled),
            running: None,
            scheduler_lock_depth: None,
            interrupt_depth: None,
        },
    },
    Step {
        action: Action::SemaphoreWait {
            timeout: Wait::NoWait,
        },
        expected: ExpectedObservation {
            outcome: Some(ActionOutcome::Acquired),
            running: None,
            subject: None,
            scheduler_lock_depth: None,
            interrupt_depth: None,
        },
    },
    ]
}

/// The mutex cancel after grant script: each action with the observation it must produce.
pub open spec fn mutex_cancel_after_grant_script() -> Seq<Step> {
    seq![
    Step {
        action: Action::Reset {
            profile: ExecutionProfile::Cooperative,
            main_priority: TaskPriority::spec_from_raw(10),
        },
        expected: ExpectedObservation::ANY(),
    },
    Step {
        action: Action::CreateResource {
            kind: ResourceKind::Mutex,
        },
        expected: ExpectedObservation::ANY(),
    },
    Step {
        action: Action::MutexLock {
            timeout: Wait::NoWait,
        },
        expected: ExpectedObservation {
            outcome: Some(ActionOutcome::Acquired),
            running: None,
            subject: None,
            scheduler_lock_depth: None,
            interrupt_depth: None,
        },
    },
    Step {
        action: Action::Spawn {
            actor: ActorId::WORKER_A(),
            priority: TaskPriority::spec_from_raw(4),
        },
        expected: ExpectedObservation::ANY(),
    },
    Step {
        action: Action::Yield,
        expected: ExpectedObservation {
            running: Some(ActorId::WORKER_A()),
            subject: None,
            outcome: None,
            scheduler_lock_depth: None,
            interrupt_depth: None,
        },
    },
    Step {
        action: Action::MutexLock {
            timeout: Wait::Forever,
        },
        expected: ExpectedObservation {
            running: Some(ActorId::MAIN()),
            subject: Some((ActorId::WORKER_A(), ActorState::Blocked)),
            outcome: None,
            scheduler_lock_depth: None,
            interrupt_depth: None,
        },
    },
    Step {
        action: Action::MutexUnlock,
        expected: ExpectedObservation {
            subject: Some((ActorId::WORKER_A(), ActorState::Ready)),
            outcome: Some(ActionOutcome::Granted),
            running: None,
            scheduler_lock_depth: None,
            interrupt_depth: None,
        },
    },
    Step {
        action: Action::CancelWait {
            actor: ActorId::WORKER_A(),
        },
        expected: ExpectedObservation {
            subject: Some((ActorId::WORKER_A(), ActorState::Ready)),
            outcome: Some(ActionOutcome::WaitCancelled),
            running: None,
            scheduler_lock_depth: None,
            interrupt_depth: None,
        },
    },
    Step {
        action: Action::MutexLock {
            timeout: Wait::NoWait,
        },
        expected: ExpectedObservation {
            outcome: Some(ActionOutcome::Acquired),
            running: None,
            subject: None,
            scheduler_lock_depth: None,
            interrupt_depth: None,
        },
    },
    ]
}

fn mutex_cancel_after_grant_steps() -> (r: Vec<Step>)
    ensures
        r@ == mutex_cancel_after_grant_script(),
{
    vec![
    Step {
        action: Action::Reset {
            profile: ExecutionProfile::Cooperative,
            main_priority: priority(10),
        },
        expected: ExpectedObservation::ANY(),
    },
    Step {
        action: Action::CreateResource {
            kind: ResourceKind::Mutex,
        },
        expected: ExpectedObservation::ANY(),
    },
    Step {
        action: Action::MutexLock {
            timeout: Wait::NoWait,
        },
        expected: ExpectedObservation {
            outcome: Some(ActionOutcome::Acquired),
            running: None,
            subject: None,
            scheduler_lock_depth: None,
            interrupt_depth: None,
        },
    },
    Step {
        action: Action::Spawn {
            actor: ActorId::WORKER_A(),
            priority: priority(4),
        },
        expected: ExpectedObservation::ANY(),
    },
    Step {
        action: Action::Yield,
        expected: ExpectedObservation {
            running: Some(ActorId::WORKER_A()),
            subject: None,
            outcome: None,
            scheduler_lock_depth: None,
            interrupt_depth: None,
        },
    },
    Step {
        action: Action::MutexLock {
            timeout: Wait::Forever,
        },
        expected: ExpectedObservation {
            running: Some(ActorId::MAIN()),
            subject: Some((ActorId::WORKER_A(), ActorState::Blocked)),
            outcome: None,
            scheduler_lock_depth: None,
            interrupt_depth: None,
        },
    },
    Step {
        action: Action::MutexUnlock,
        expected: ExpectedObservation {
            subject: Some((ActorId::WORKER_A(), ActorState::Ready)),
            outcome: Some(ActionOutcome::Granted),
            running: None,
            scheduler_lock_depth: None,
            interrupt_depth: None,
        },
    },
    Step {
        action: Action::CancelWait {
            actor: ActorId::WORKER_A(),
        },
        expected: ExpectedObservation {
            subject: Some((ActorId::WORKER_A(), ActorState::Ready)),
            outcome: Some(ActionOutcome::WaitCancelled),
            running: None,
            scheduler_lock_depth: None,
            interrupt_depth: None,
        },
    },
    Step {
        action: Action::MutexLock {
            timeout: Wait::NoWait,
        },
        expected: ExpectedObservation {
            outcome: Some(ActionOutcome::Acquired),
            running: None,
            subject: None,
            scheduler_lock_depth: None,
            interrupt_depth: None,
        },
    },
    ]
}

/// Shared scheduler and synchronization semantics required by contract V1.
/// The contract-v1 scenario suite, in report order.
#[allow(non_snake_case)]
pub fn V1_SCENARIOS() -> (r: [Scenario; 22])
    ensures
        r@.len() == 22,
        r@[0].id == ScenarioId::PriorityThenFifo,
        r@[1].id == ScenarioId::NestedSchedulerLock,
        r@[2].id == ScenarioId::SleepDeadline,
        r@[3].id == ScenarioId::NestedInterruptExit,
        r@[4].id == ScenarioId::TaskExitAndReuse,
        r@[5].id == ScenarioId::SemaphoreDirectHandoff,
        r@[6].id == ScenarioId::SemaphoreTimeoutCleanup,
        r@[7].id == ScenarioId::MutexPriorityInheritance,
        r@[8].id == ScenarioId::StaleTaskIdentity,
        r@[9].id == ScenarioId::ZeroDelayYields,
        r@[10].id == ScenarioId::WaitForever,
        r@[11].id == ScenarioId::SameDeadlineFifo,
        r@[12].id == ScenarioId::SemaphoreHighestPriorityWaiter,
        r@[13].id == ScenarioId::UnbalancedSchedulerUnlock,
        r@[14].id == ScenarioId::UnbalancedInterruptExit,
        r@[15].id == ScenarioId::BlockingInSchedulerLock,
        r@[16].id == ScenarioId::DuplicateResourceDestroy,
        r@[17].id == ScenarioId::StaleResourceHandle,
        r@[18].id == ScenarioId::SemaphoreBusyDestroy,
        r@[19].id == ScenarioId::MutexBusyDestroy,
        r@[20].id == ScenarioId::SemaphoreCancelAfterGrant,
        r@[21].id == ScenarioId::MutexCancelAfterGrant,
        r@[0].steps@ == priority_fifo_script(),
        r@[1].steps@ == nested_lock_script(),
        r@[2].steps@ == sleep_deadline_script(),
        r@[3].steps@ == nested_interrupt_script(),
        r@[4].steps@ == task_exit_script(),
        r@[5].steps@ == semaphore_handoff_script(),
        r@[6].steps@ == semaphore_timeout_script(),
        r@[7].steps@ == mutex_pi_script(),
        r@[8].steps@ == stale_identity_script(),
        r@[9].steps@ == zero_delay_script(),
        r@[10].steps@ == wait_forever_script(),
        r@[11].steps@ == same_deadline_script(),
        r@[12].steps@ == semaphore_priority_script(),
        r@[13].steps@ == unbalanced_scheduler_unlock_script(),
        r@[14].steps@ == unbalanced_interrupt_exit_script(),
        r@[15].steps@ == blocking_in_scheduler_lock_script(),
        r@[16].steps@ == duplicate_resource_destroy_script(),
        r@[17].steps@ == stale_resource_handle_script(),
        r@[18].steps@ == semaphore_busy_destroy_script(),
        r@[19].steps@ == mutex_busy_destroy_script(),
        r@[20].steps@ == semaphore_cancel_after_grant_script(),
        r@[21].steps@ == mutex_cancel_after_grant_script(),
{
    [
    Scenario {
        id: ScenarioId::PriorityThenFifo,
        steps: priority_fifo_steps(),
    },
    Scenario {
        id: ScenarioId::NestedSchedulerLock,
        steps: nested_lock_steps(),
    },
    Scenario {
        id: ScenarioId::SleepDeadline,
        steps: sleep_deadline_steps(),
    },
    Scenario {
        id: ScenarioId::NestedInterruptExit,
        steps: nested_interrupt_steps(),
    },
    Scenario {
        id: ScenarioId::TaskExitAndReuse,
        steps: task_exit_steps(),
    },
    Scenario {
        id: ScenarioId::SemaphoreDirectHandoff,
        steps: semaphore_handoff_steps(),
    },
    Scenario {
        id: ScenarioId::SemaphoreTimeoutCleanup,
        steps: semaphore_timeout_steps(),
    },
    Scenario {
        id: ScenarioId::MutexPriorityInheritance,
        steps: mutex_pi_steps(),
    },
    Scenario {
        id: ScenarioId::StaleTaskIdentity,
        steps: stale_identity_steps(),
    },
    Scenario {
        id: ScenarioId::ZeroDelayYields,
        steps: zero_delay_steps(),
    },
    Scenario {
        id: ScenarioId::WaitForever,
        steps: wait_forever_steps(),
    },
    Scenario {
        id: ScenarioId::SameDeadlineFifo,
        steps: same_deadline_steps(),
    },
    Scenario {
        id: ScenarioId::SemaphoreHighestPriorityWaiter,
        steps: semaphore_priority_steps(),
    },
    Scenario {
        id: ScenarioId::UnbalancedSchedulerUnlock,
        steps: unbalanced_scheduler_unlock_steps(),
    },
    Scenario {
        id: ScenarioId::UnbalancedInterruptExit,
        steps: unbalanced_interrupt_exit_steps(),
    },
    Scenario {
        id: ScenarioId::BlockingInSchedulerLock,
        steps: blocking_in_scheduler_lock_steps(),
    },
    Scenario {
        id: ScenarioId::DuplicateResourceDestroy,
        steps: duplicate_resource_destroy_steps(),
    },
    Scenario {
        id: ScenarioId::StaleResourceHandle,
        steps: stale_resource_handle_steps(),
    },
    Scenario {
        id: ScenarioId::SemaphoreBusyDestroy,
        steps: semaphore_busy_destroy_steps(),
    },
    Scenario {
        id: ScenarioId::MutexBusyDestroy,
        steps: mutex_busy_destroy_steps(),
    },
    Scenario {
        id: ScenarioId::SemaphoreCancelAfterGrant,
        steps: semaphore_cancel_after_grant_steps(),
    },
    Scenario {
        id: ScenarioId::MutexCancelAfterGrant,
        steps: mutex_cancel_after_grant_steps(),
    },
    ]
}

} // verus!

//! Runtime-neutral executable semantics for radio backends.
//!
//! The production [`crate::Runtime`] trait intentionally stays small. This
//! module provides a separate deterministic harness for proving the behavior
//! behind that trait without adding test controls to the production ABI.
use vstd::prelude::*;

use crate::contract::{RuntimeContract, RuntimeExecutionProfile, TaskPriority};
use crate::services::Error;

mod json;
mod scenarios;

pub use json::{
    decimal_text, digit_text, escaped_char, escaped_text, hex_digit_text, is_control,
    is_plain_char, json_string, lemma_escapes, lemma_plain_text_unescaped, push_decimal,
    push_json_string,
    unicode_escape,
};
pub use scenarios::{
    blocking_in_scheduler_lock_script, duplicate_resource_destroy_script,
    mutex_busy_destroy_script, mutex_cancel_after_grant_script, mutex_pi_script,
    nested_interrupt_script, nested_lock_script, priority_fifo_script, same_deadline_script,
    semaphore_busy_destroy_script, semaphore_cancel_after_grant_script,
    semaphore_handoff_script, semaphore_priority_script, semaphore_timeout_script,
    sleep_deadline_script, stale_identity_script, stale_resource_handle_script,
    task_exit_script, unbalanced_interrupt_exit_script, unbalanced_scheduler_unlock_script,
    wait_forever_script, zero_delay_script, V1_SCENARIOS,
};

verus! {

/// Version of the conformance scenario and report schema.
pub const SCHEMA_VERSION: u16 = 6;

/// Logical task identity used only inside deterministic scenarios.
#[derive(Clone, Copy, Debug, PartialEq, Eq, Structural)]
pub struct ActorId(u8);

impl ActorId {
    /// The stable report representation.
    pub closed spec fn raw(self) -> u8 {
        self.0
    }

    /// The value with this raw number.
    pub closed spec fn spec_from_raw(raw: u8) -> Self {
        ActorId(raw)
    }

    /// Building an actor from its raw number reads back that number.
    pub broadcast proof fn lemma_raw(raw: u8)
        ensures
            #[trigger] Self::spec_from_raw(raw).raw() == raw,
    {
    }

    /// Two actors with the same raw number are equal.
    pub broadcast proof fn lemma_raw_determines(a: Self, b: Self)
        ensures
            #[trigger] a.raw() == #[trigger] b.raw() ==> a == b,
    {
    }

    /// Task adopted when a scenario starts.
    #[allow(non_snake_case)]
    #[verifier::allow_in_spec]
    pub fn MAIN() -> Self
        returns
            Self::spec_from_raw(0),
    {
        ActorId(0)
    }

    /// First dynamic task.
    #[allow(non_snake_case)]
    #[verifier::allow_in_spec]
    pub fn WORKER_A() -> Self
        returns
            Self::spec_from_raw(1),
    {
        ActorId(1)
    }

    /// Second dynamic task.
    #[allow(non_snake_case)]
    #[verifier::allow_in_spec]
    pub fn WORKER_B() -> Self
        returns
            Self::spec_from_raw(2),
    {
        ActorId(2)
    }

    /// Returns the stable report representation.
    pub fn into_raw(self) -> (r: u8)
        ensures
            r == self.raw(),
    {
        self.0
    }
}

/// Scheduling mode required by one scenario.
#[derive(Clone, Copy, Debug, PartialEq, Eq, Structural)]
pub enum ExecutionProfile {
    /// Switching occurs only at explicit scheduling points.
    Cooperative,
    /// Higher-priority ready tasks may preempt outside scheduler locks.
    Preemptive,
}

/// Observable task state used by the shared scenarios.
#[derive(Clone, Copy, Debug, PartialEq, Eq, Structural)]
pub enum ActorState {
    /// Eligible but not currently executing.
    Ready,
    /// Currently executing.
    Running,
    /// Waiting for a resource or deadline.
    Blocked,
    /// Waiting for a monotonic sleep deadline.
    Sleeping,
    /// Task has exited and its identity is no longer live.
    Exited,
}

/// Result associated with one scenario action.
#[derive(Clone, Copy, Debug, PartialEq, Eq, Structural)]
pub enum ActionOutcome {
    /// No externally visible scheduling transition occurred.
    Completed,
    /// A task was created.
    Spawned,
    /// A switch occurred before the action returned.
    ContextSwitched,
    /// A ready task could not preempt while the scheduler lock was held.
    PreemptionDeferred,
    /// A wait acquired its resource.
    Acquired,
    /// A wait deadline elapsed.
    TimedOut,
    /// A resource grant was handed directly to a waiter.
    Granted,
    /// A task identity was retained for a later liveness check.
    IdentityRemembered,
    /// A retained identity was correctly rejected after slot reuse.
    StaleIdentityRejected,
    /// A synchronization resource was created.
    ResourceCreated,
    /// A synchronization resource handle was retained for a later operation.
    ResourceHandleRemembered,
    /// A synchronization resource was destroyed.
    ResourceDestroyed,
    /// A queued wait or unconsumed direct handoff was cancelled.
    WaitCancelled,
    /// The selected live task had no cancellable wait or pending grant.
    NoPendingWait,
    /// Effective priority observed for one actor.
    PriorityObserved(TaskPriority),
    /// The backend rejected an operation before changing observable state.
    Rejected(Error),
}

/// Synchronization resource selected by a lifecycle scenario.
#[derive(Clone, Copy, Debug, PartialEq, Eq, Structural)]
pub enum ResourceKind {
    /// Counting semaphore.
    Semaphore,
    /// Recursive priority-inheritance mutex.
    Mutex,
}

/// Which generation-bearing resource handle an action uses.
#[derive(Clone, Copy, Debug, PartialEq, Eq, Structural)]
pub enum ResourceHandleRef {
    /// The most recently created live handle.
    Current,
    /// A handle retained by [`Action::RememberResourceHandle`].
    Remembered,
}

/// Timeout mode used by deterministic wait scenarios.
#[derive(Clone, Copy, Debug, PartialEq, Eq, Structural)]
pub enum Wait {
    /// Return immediately when the resource is unavailable.
    NoWait,
    /// Wait until a finite monotonic deadline of a non-zero number of
    /// milliseconds.
    Milliseconds(u32),
    /// Wait without a deadline.
    Forever,
}

/// One operation in a deterministic runtime scenario.
#[derive(Clone, Copy, Debug, PartialEq, Eq, Structural)]
pub enum Action {
    /// Reset the harness with `MAIN` running at `main_priority`.
    Reset {
        /// Scheduling profile under test.
        profile: ExecutionProfile,
        /// Initial task priority.
        main_priority: TaskPriority,
    },
    /// Create a ready task.
    Spawn {
        /// Logical task identity.
        actor: ActorId,
        /// Requested priority.
        priority: TaskPriority,
    },
    /// Yield from the current task.
    Yield,
    /// Apply the vendor delay convention: zero yields, non-zero sleeps.
    Delay {
        /// Delay in milliseconds. Zero is an explicit scheduling point.
        milliseconds: u32,
    },
    /// Enter one scheduler-lock nesting level.
    LockScheduler,
    /// Leave one scheduler-lock nesting level.
    UnlockScheduler,
    /// Enter one interrupt nesting level.
    EnterInterrupt,
    /// Leave one interrupt nesting level.
    ExitInterrupt,
    /// Advance the deterministic monotonic clock.
    AdvanceTime {
        /// Milliseconds to advance.
        milliseconds: u32,
    },
    /// Block the current task until a monotonic deadline.
    Sleep {
        /// Non-zero sleep duration in milliseconds.
        milliseconds: u32,
    },
    /// Observe one actor without changing scheduler state.
    Observe {
        /// Actor whose state is returned as the observation subject.
        actor: ActorId,
    },
    /// Exit the current task.
    ExitTask,
    /// Wait on the scenario counting semaphore.
    SemaphoreWait {
        /// Wait mode.
        timeout: Wait,
    },
    /// Release the scenario counting semaphore.
    SemaphorePost,
    /// Observe whether an actor owns a direct resource grant.
    ObserveGrant {
        /// Actor whose pending grant is inspected.
        actor: ActorId,
    },
    /// Acquire the scenario recursive mutex.
    MutexLock {
        /// Wait mode.
        timeout: Wait,
    },
    /// Release one recursion level of the scenario mutex.
    MutexUnlock,
    /// Observe an actor's effective scheduling priority.
    ObservePriority {
        /// Actor whose effective priority is inspected.
        actor: ActorId,
    },
    /// Retain an actor's current generation-bearing identity.
    RememberIdentity {
        /// Actor whose identity is retained.
        actor: ActorId,
    },
    /// Validate that the retained identity no longer names a live task.
    ValidateRememberedIdentity,
    /// Create one synchronization resource for lifecycle checks.
    CreateResource {
        /// Resource type to create.
        kind: ResourceKind,
    },
    /// Retain the current resource handle and its identity generation.
    RememberResourceHandle {
        /// Resource type whose handle is retained.
        kind: ResourceKind,
    },
    /// Destroy the selected synchronization resource handle.
    DestroyResource {
        /// Resource type to destroy.
        kind: ResourceKind,
        /// Current or previously retained handle.
        handle: ResourceHandleRef,
    },
    /// Cancel one actor's queued wait or unconsumed direct handoff.
    CancelWait {
        /// Actor whose pending synchronization operation is cancelled.
        actor: ActorId,
    },
}

/// State returned after applying one action.
#[derive(Clone, Copy, Debug, PartialEq, Eq)]
pub struct Observation {
    /// Task running when the action finishes.
    pub running: ActorId,
    /// Optional task whose state is relevant to this step.
    pub subject: Option<(ActorId, ActorState)>,
    /// Action result.
    pub outcome: ActionOutcome,
    /// Current task's scheduler-lock nesting depth.
    pub scheduler_lock_depth: u16,
    /// Current interrupt nesting depth.
    pub interrupt_depth: u16,
}

/// A partial observation used as a scenario assertion.
#[derive(Clone, Copy, Debug, PartialEq, Eq)]
pub struct ExpectedObservation {
    /// Required running task, or any task when absent.
    pub running: Option<ActorId>,
    /// Required subject state, or no subject assertion when absent.
    pub subject: Option<(ActorId, ActorState)>,
    /// Required action outcome, or any outcome when absent.
    pub outcome: Option<ActionOutcome>,
    /// Required scheduler-lock depth, or any depth when absent.
    pub scheduler_lock_depth: Option<u16>,
    /// Required interrupt depth, or any depth when absent.
    pub interrupt_depth: Option<u16>,
}

impl ExpectedObservation {
    /// The assertion that accepts every observation.
    #[allow(non_snake_case)]
    #[verifier::allow_in_spec]
    pub fn ANY() -> Self
        returns
            (ExpectedObservation {
                running: None,
                subject: None,
                outcome: None,
                scheduler_lock_depth: None,
                interrupt_depth: None,
            }),
    {
        ExpectedObservation {
            running: None,
            subject: None,
            outcome: None,
            scheduler_lock_depth: None,
            interrupt_depth: None,
        }
    }

    /// Returns whether an observation satisfies every populated field.
    #[verifier::allow_in_spec]
    pub fn matches(self, observed: Observation) -> bool
        returns
            (self.running is None || self.running == Some(observed.running)) && (
            self.subject is None || self.subject == observed.subject) && (self.outcome is None
                || self.outcome == Some(observed.outcome)) && (self.scheduler_lock_depth is None
                || self.scheduler_lock_depth == Some(observed.scheduler_lock_depth)) && (
            self.interrupt_depth is None || self.interrupt_depth == Some(
                observed.interrupt_depth,
            )),
    {
        let running = match self.running {
            None => true,
            Some(actor) => actor == observed.running,
        };
        let subject = match self.subject {
            None => true,
            Some((actor, state)) => match observed.subject {
                None => false,
                Some((observed_actor, observed_state)) => actor == observed_actor && state
                    == observed_state,
            },
        };
        let outcome = match self.outcome {
            None => true,
            Some(outcome) => outcome == observed.outcome,
        };
        let lock_depth = match self.scheduler_lock_depth {
            None => true,
            Some(depth) => depth == observed.scheduler_lock_depth,
        };
        let interrupt_depth = match self.interrupt_depth {
            None => true,
            Some(depth) => depth == observed.interrupt_depth,
        };
        running && subject && outcome && lock_depth && interrupt_depth
    }
}

/// The assertion that populates every field from `observed`.
pub open spec fn exact_expectation(observed: Observation) -> ExpectedObservation {
    ExpectedObservation {
        running: Some(observed.running),
        subject: observed.subject,
        outcome: Some(observed.outcome),
        scheduler_lock_depth: Some(observed.scheduler_lock_depth),
        interrupt_depth: Some(observed.interrupt_depth),
    }
}

/// The empty assertion accepts every observation; an assertion that
/// populates every field from an observation accepts that observation and
/// only observations that agree with it on every asserted field; and
/// clearing any field of an accepting assertion keeps it accepting.
pub proof fn lemma_expectation_matching(
    expected: ExpectedObservation,
    observed: Observation,
    other: Observation,
)
    ensures
        ExpectedObservation::ANY().matches(observed),
        exact_expectation(observed).matches(observed),
        exact_expectation(observed).matches(other) ==> other.running == observed.running
            && other.outcome == observed.outcome && other.scheduler_lock_depth
            == observed.scheduler_lock_depth && other.interrupt_depth == observed.interrupt_depth,
        expected.matches(observed) ==> (ExpectedObservation { running: None, ..expected }).matches(
            observed,
        ) && (ExpectedObservation { subject: None, ..expected }).matches(observed)
            && (ExpectedObservation { outcome: None, ..expected }).matches(observed)
            && (ExpectedObservation { scheduler_lock_depth: None, ..expected }).matches(observed)
            && (ExpectedObservation { interrupt_depth: None, ..expected }).matches(observed),
{
}

/// One executable action and its required observation.
#[derive(Clone, Copy, Debug, PartialEq, Eq)]
pub struct Step {
    /// Operation sent to the backend.
    pub action: Action,
    /// Observable contract after the operation.
    pub expected: ExpectedObservation,
}

impl Step {
    /// Failure, if any, of this step when it ran as step `index` and the
    /// backend answered `outcome`: a backend error fails with that error,
    /// an observation that does not satisfy the expectation fails closed,
    /// and a matching observation passes.
    pub open spec fn verdict(self, index: u16, outcome: Result<Observation, Error>) -> Option<
        Failure,
    > {
        match outcome {
            Err(error) => Some(Failure { step: index, kind: FailureKind::Backend(error) }),
            Ok(observed) => if self.expected.matches(observed) {
                None
            } else {
                Some(Failure { step: index, kind: FailureKind::UnexpectedObservation })
            },
        }
    }

    /// Judges the backend's answer to this step.
    pub fn evaluate(self, index: u16, outcome: Result<Observation, Error>) -> (r: Option<Failure>)
        ensures
            r == self.verdict(index, outcome),
            outcome matches Err(error) ==> r == Some(
                Failure { step: index, kind: FailureKind::Backend(error) },
            ),
            outcome matches Ok(observed) ==> (r is None <==> self.expected.matches(observed)),
            outcome is Ok ==> (r is None || r == Some(
                Failure { step: index, kind: FailureKind::UnexpectedObservation },
            )),
    {
        match outcome {
            Err(error) => Some(Failure { step: index, kind: FailureKind::Backend(error) }),
            Ok(observed) => if self.expected.matches(observed) {
                None
            } else {
                Some(Failure { step: index, kind: FailureKind::UnexpectedObservation })
            },
        }
    }
}

/// A step passes a completed action exactly when the observation meets the
/// step's expectation; otherwise it fails with an unexpected observation at
/// that step, and a backend error always fails the step with that error.
pub proof fn lemma_step_verdict(step: Step, index: u16, outcome: Result<Observation, Error>)
    ensures
        outcome matches Ok(observed) ==> (step.verdict(index, outcome) is None
            <==> step.expected.matches(observed)),
        outcome matches Ok(observed) && !step.expected.matches(observed) ==> step.verdict(
            index,
            outcome,
        ) == Some(Failure { step: index, kind: FailureKind::UnexpectedObservation }),
        outcome matches Err(error) ==> step.verdict(index, outcome) == Some(
            Failure { step: index, kind: FailureKind::Backend(error) },
        ),
{
}

/// An expected subject is checked: an observation whose subject differs
/// from the one a step expects fails that step, whatever else it reports.
pub proof fn lemma_expected_subject_is_checked(step: Step, index: u16, observed: Observation)
    requires
        step.expected.subject is Some,
        observed.subject != step.expected.subject,
    ensures
        step.verdict(index, Ok(observed)) == Some(
            Failure { step: index, kind: FailureKind::UnexpectedObservation },
        ),
{
}

/// Each field a step expects is checked: an observation that differs from
/// the expectation in any populated field fails the step.
pub proof fn lemma_expected_fields_are_checked(step: Step, index: u16, observed: Observation)
    requires
        (step.expected.running matches Some(actor) && actor != observed.running)
            || (step.expected.subject is Some && step.expected.subject != observed.subject)
            || (step.expected.outcome matches Some(outcome) && outcome != observed.outcome)
            || (step.expected.scheduler_lock_depth matches Some(depth) && depth
            != observed.scheduler_lock_depth) || (step.expected.interrupt_depth matches Some(depth)
            && depth != observed.interrupt_depth),
    ensures
        step.verdict(index, Ok(observed)) == Some(
            Failure { step: index, kind: FailureKind::UnexpectedObservation },
        ),
{
}

/// An observation that agrees with every field a step expects passes the
/// step; fields the step leaves open are not looked at.
pub proof fn lemma_agreeing_observation_passes(step: Step, index: u16, observed: Observation)
    requires
        step.expected.running is None || step.expected.running == Some(observed.running),
        step.expected.subject is None || step.expected.subject == observed.subject,
        step.expected.outcome is None || step.expected.outcome == Some(observed.outcome),
        step.expected.scheduler_lock_depth is None || step.expected.scheduler_lock_depth == Some(
            observed.scheduler_lock_depth,
        ),
        step.expected.interrupt_depth is None || step.expected.interrupt_depth == Some(
            observed.interrupt_depth,
        ),
    ensures
        step.verdict(index, Ok(observed)) is None,
{
}

/// Stable scenario identity used by reports and CI.
#[derive(Clone, Copy, Debug, PartialEq, Eq, Structural)]
pub enum ScenarioId {
    /// Lower numeric priority wins and equal priorities remain FIFO.
    PriorityThenFifo,
    /// Nested scheduler locks defer preemption until the outermost unlock.
    NestedSchedulerLock,
    /// Sleeping tasks become ready only at their monotonic deadline.
    SleepDeadline,
    /// A higher-priority ready task runs only after the outermost IRQ exits.
    NestedInterruptExit,
    /// Task exit switches away and permits later slot reuse.
    TaskExitAndReuse,
    /// Semaphore post transfers a grant directly to the first waiter.
    SemaphoreDirectHandoff,
    /// Timed-out semaphore waiters are removed before a later post.
    SemaphoreTimeoutCleanup,
    /// Recursive ownership, direct handoff and priority inheritance compose.
    MutexPriorityInheritance,
    /// A generation-bearing task identity becomes stale after slot reuse.
    StaleTaskIdentity,
    /// A zero-duration delay has exactly the same scheduling effect as yield.
    ZeroDelayYields,
    /// A wait-forever request cannot expire as monotonic time advances.
    WaitForever,
    /// Equal deadlines become ready in deterministic FIFO order.
    SameDeadlineFifo,
    /// A semaphore grant selects the highest-priority FIFO waiter.
    SemaphoreHighestPriorityWaiter,
    /// Releasing an unlocked scheduler fails without changing lock depth.
    UnbalancedSchedulerUnlock,
    /// Leaving task context as though it were an interrupt fails closed.
    UnbalancedInterruptExit,
    /// Blocking operations are rejected while the scheduler is locked.
    BlockingInSchedulerLock,
    /// Destroying the same resource handle twice fails closed.
    DuplicateResourceDestroy,
    /// A resource handle is stale after its slot is reused by a new generation.
    StaleResourceHandle,
    /// A semaphore with a queued waiter cannot be destroyed.
    SemaphoreBusyDestroy,
    /// A mutex with a live owner cannot be destroyed.
    MutexBusyDestroy,
    /// Cancelling an unconsumed semaphore handoff preserves its count.
    SemaphoreCancelAfterGrant,
    /// Cancelling an unconsumed mutex handoff preserves ownership transfer.
    MutexCancelAfterGrant,
}

impl ScenarioId {
    /// The stable machine-readable scenario name.
    pub open spec fn name(self) -> Seq<char> {
        match self {
            ScenarioId::PriorityThenFifo => "priority_then_fifo"@,
            ScenarioId::NestedSchedulerLock => "nested_scheduler_lock"@,
            ScenarioId::SleepDeadline => "sleep_deadline"@,
            ScenarioId::NestedInterruptExit => "nested_interrupt_exit"@,
            ScenarioId::TaskExitAndReuse => "task_exit_and_reuse"@,
            ScenarioId::SemaphoreDirectHandoff => "semaphore_direct_handoff"@,
            ScenarioId::SemaphoreTimeoutCleanup => "semaphore_timeout_cleanup"@,
            ScenarioId::MutexPriorityInheritance => "mutex_priority_inheritance"@,
            ScenarioId::StaleTaskIdentity => "stale_task_identity"@,
            ScenarioId::ZeroDelayYields => "zero_delay_yields"@,
            ScenarioId::WaitForever => "wait_forever"@,
            ScenarioId::SameDeadlineFifo => "same_deadline_fifo"@,
            ScenarioId::SemaphoreHighestPriorityWaiter => "semaphore_highest_priority_waiter"@,
            ScenarioId::UnbalancedSchedulerUnlock => "unbalanced_scheduler_unlock"@,
            ScenarioId::UnbalancedInterruptExit => "unbalanced_interrupt_exit"@,
            ScenarioId::BlockingInSchedulerLock => "blocking_in_scheduler_lock"@,
            ScenarioId::DuplicateResourceDestroy => "duplicate_resource_destroy"@,
            ScenarioId::StaleResourceHandle => "stale_resource_handle"@,
            ScenarioId::SemaphoreBusyDestroy => "semaphore_busy_destroy"@,
            ScenarioId::MutexBusyDestroy => "mutex_busy_destroy"@,
            ScenarioId::SemaphoreCancelAfterGrant => "semaphore_cancel_after_grant"@,
            ScenarioId::MutexCancelAfterGrant => "mutex_cancel_after_grant"@,
        }
    }

    /// Returns the stable machine-readable scenario name.
    pub fn as_str(self) -> (r: &'static str)
        ensures
            r@ == self.name(),
    {
        match self {
            ScenarioId::PriorityThenFifo => "priority_then_fifo",
            ScenarioId::NestedSchedulerLock => "nested_scheduler_lock",
            ScenarioId::SleepDeadline => "sleep_deadline",
            ScenarioId::NestedInterruptExit => "nested_interrupt_exit",
            ScenarioId::TaskExitAndReuse => "task_exit_and_reuse",
            ScenarioId::SemaphoreDirectHandoff => "semaphore_direct_handoff",
            ScenarioId::SemaphoreTimeoutCleanup => "semaphore_timeout_cleanup",
            ScenarioId::MutexPriorityInheritance => "mutex_priority_inheritance",
            ScenarioId::StaleTaskIdentity => "stale_task_identity",
            ScenarioId::ZeroDelayYields => "zero_delay_yields",
            ScenarioId::WaitForever => "wait_forever",
            ScenarioId::SameDeadlineFifo => "same_deadline_fifo",
            ScenarioId::SemaphoreHighestPriorityWaiter => "semaphore_highest_priority_waiter",
            ScenarioId::UnbalancedSchedulerUnlock => "unbalanced_scheduler_unlock",
            ScenarioId::UnbalancedInterruptExit => "unbalanced_interrupt_exit",
            ScenarioId::BlockingInSchedulerLock => "blocking_in_scheduler_lock",
            ScenarioId::DuplicateResourceDestroy => "duplicate_resource_destroy",
            ScenarioId::StaleResourceHandle => "stale_resource_handle",
            ScenarioId::SemaphoreBusyDestroy => "semaphore_busy_destroy",
            ScenarioId::MutexBusyDestroy => "mutex_busy_destroy",
            ScenarioId::SemaphoreCancelAfterGrant => "semaphore_cancel_after_grant",
            ScenarioId::MutexCancelAfterGrant => "mutex_cancel_after_grant",
        }
    }
}

/// Actor identities report the raw numbers 0, 1 and 2.
pub proof fn lemma_actor_numbers()
    ensures
        ActorId::MAIN().raw() == 0,
        ActorId::WORKER_A().raw() == 1,
        ActorId::WORKER_B().raw() == 2,
{
}

/// Length, first and last character of a scenario's name.
spec fn name_key(id: ScenarioId) -> (int, char, char) {
    match id {
        ScenarioId::PriorityThenFifo => (18, 'p', 'o'),
        ScenarioId::NestedSchedulerLock => (21, 'n', 'k'),
        ScenarioId::SleepDeadline => (14, 's', 'e'),
        ScenarioId::NestedInterruptExit => (21, 'n', 't'),
        ScenarioId::TaskExitAndReuse => (19, 't', 'e'),
        ScenarioId::SemaphoreDirectHandoff => (24, 's', 'f'),
        ScenarioId::SemaphoreTimeoutCleanup => (25, 's', 'p'),
        ScenarioId::MutexPriorityInheritance => (26, 'm', 'e'),
        ScenarioId::StaleTaskIdentity => (19, 's', 'y'),
        ScenarioId::ZeroDelayYields => (17, 'z', 's'),
        ScenarioId::WaitForever => (12, 'w', 'r'),
        ScenarioId::SameDeadlineFifo => (18, 's', 'o'),
        ScenarioId::SemaphoreHighestPriorityWaiter => (33, 's', 'r'),
        ScenarioId::UnbalancedSchedulerUnlock => (27, 'u', 'k'),
        ScenarioId::UnbalancedInterruptExit => (25, 'u', 't'),
        ScenarioId::BlockingInSchedulerLock => (26, 'b', 'k'),
        ScenarioId::DuplicateResourceDestroy => (26, 'd', 'y'),
        ScenarioId::StaleResourceHandle => (21, 's', 'e'),
        ScenarioId::SemaphoreBusyDestroy => (22, 's', 'y'),
        ScenarioId::MutexBusyDestroy => (18, 'm', 'y'),
        ScenarioId::SemaphoreCancelAfterGrant => (28, 's', 't'),
        ScenarioId::MutexCancelAfterGrant => (24, 'm', 't'),
    }
}

proof fn lemma_name_key(id: ScenarioId)
    ensures
        forall|i: int| 0 <= i < id.name().len() ==> is_plain_char(#[trigger] id.name()[i]),
        id.name().len() == name_key(id).0,
        id.name()[0] == name_key(id).1,
        id.name()[id.name().len() - 1] == name_key(id).2,
{
    match id {
        ScenarioId::PriorityThenFifo => {
            reveal_strlit("priority_then_fifo");
        },
        ScenarioId::NestedSchedulerLock => {
            reveal_strlit("nested_scheduler_lock");
        },
        ScenarioId::SleepDeadline => {
            reveal_strlit("sleep_deadline");
        },
        ScenarioId::NestedInterruptExit => {
            reveal_strlit("nested_interrupt_exit");
        },
        ScenarioId::TaskExitAndReuse => {
            reveal_strlit("task_exit_and_reuse");
        },
        ScenarioId::SemaphoreDirectHandoff => {
            reveal_strlit("semaphore_direct_handoff");
        },
        ScenarioId::SemaphoreTimeoutCleanup => {
            reveal_strlit("semaphore_timeout_cleanup");
        },
        ScenarioId::MutexPriorityInheritance => {
            reveal_strlit("mutex_priority_inheritance");
        },
        ScenarioId::StaleTaskIdentity => {
            reveal_strlit("stale_task_identity");
        },
        ScenarioId::ZeroDelayYields => {
            reveal_strlit("zero_delay_yields");
        },
        ScenarioId::WaitForever => {
            reveal_strlit("wait_forever");
        },
        ScenarioId::SameDeadlineFifo => {
            reveal_strlit("same_deadline_fifo");
        },
        ScenarioId::SemaphoreHighestPriorityWaiter => {
            reveal_strlit("semaphore_highest_priority_waiter");
        },
        ScenarioId::UnbalancedSchedulerUnlock => {
            reveal_strlit("unbalanced_scheduler_unlock");
        },
        ScenarioId::UnbalancedInterruptExit => {
            reveal_strlit("unbalanced_interrupt_exit");
        },
        ScenarioId::BlockingInSchedulerLock => {
            reveal_strlit("blocking_in_scheduler_lock");
        },
        ScenarioId::DuplicateResourceDestroy => {
            reveal_strlit("duplicate_resource_destroy");
        },
        ScenarioId::StaleResourceHandle => {
            reveal_strlit("stale_resource_handle");
        },
        ScenarioId::SemaphoreBusyDestroy => {
            reveal_strlit("semaphore_busy_destroy");
        },
        ScenarioId::MutexBusyDestroy => {
            reveal_strlit("mutex_busy_destroy");
        },
        ScenarioId::SemaphoreCancelAfterGrant => {
            reveal_strlit("semaphore_cancel_after_grant");
        },
        ScenarioId::MutexCancelAfterGrant => {
            reveal_strlit("mutex_cancel_after_grant");
        },
    }
}

/// Scenario names are stable identifiers: distinct scenarios have distinct
/// names, every name is non-empty and made of lowercase letters and
/// underscores, so a report writes it without escaping.
pub proof fn lemma_scenario_names_distinct(a: ScenarioId, b: ScenarioId)
    ensures
        a != b ==> a.name() != b.name(),
        a.name().len() > 0,
        forall|i: int| 0 <= i < a.name().len() ==> is_plain_char(#[trigger] a.name()[i]),
        json_string(a.name()) == "\""@ + a.name() + "\""@,
{
    lemma_name_key(a);
    lemma_plain_text_unescaped(a.name());
    lemma_name_key(b);
    assert(a.name() == b.name() ==> name_key(a) == name_key(b));
}

/// One shared executable runtime scenario.
#[derive(Clone, Debug, PartialEq, Eq)]
pub struct Scenario {
    /// Stable scenario identity.
    pub id: ScenarioId,
    /// Action/observation sequence.
    pub steps: Vec<Step>,
}

/// Backend interface used only by deterministic conformance tests.
pub trait Backend {
    /// Every action applied to this backend so far, oldest first, each with
    /// the answer the backend gave. Proofs read this record; the harness
    /// never reads it at run time.
    spec fn history(&self) -> Vec<(Action, Result<Observation, Error>)>;

    /// The contract this backend advertises, as proofs see it.
    spec fn spec_contract(&self) -> RuntimeContract;

    /// The execution profile this backend advertises, as proofs see it.
    spec fn spec_execution_profile(&self) -> RuntimeExecutionProfile;

    /// The revision this backend reports, as proofs see it.
    spec fn spec_revision(&self) -> &'static str;

    /// Contract advertised by the backend under test.
    fn contract(&self) -> (r: RuntimeContract)
        ensures
            r == self.spec_contract(),
    ;

    /// Scheduling guarantees backed by the deterministic backend.
    fn execution_profile(&self) -> (r: RuntimeExecutionProfile)
        ensures
            r == self.spec_execution_profile(),
    ;

    /// Stable backend revision included in reports.
    fn revision(&self) -> (r: &'static str)
        ensures
            r == self.spec_revision(),
    ;

    /// Applies one scenario action and returns the resulting state.
    fn apply(&mut self, action: Action) -> (r: Result<Observation, Error>)
        ensures
            final(self).history()@ == old(self).history()@.push((action, r)),
    ;
}

/// Reason a scenario failed.
#[derive(Clone, Copy, Debug, PartialEq, Eq, Structural)]
pub enum FailureKind {
    /// Backend returned a runtime error.
    Backend(Error),
    /// Backend completed the action but produced the wrong state.
    UnexpectedObservation,
}

/// Failure details for one scenario.
#[derive(Clone, Copy, Debug, PartialEq, Eq, Structural)]
pub struct Failure {
    /// Zero-based failing step.
    pub step: u16,
    /// Failure category.
    pub kind: FailureKind,
}

/// Result of one scenario.
#[derive(Clone, Copy, Debug, PartialEq, Eq, Structural)]
pub struct ScenarioResult {
    /// Stable scenario identity.
    pub id: ScenarioId,
    /// `None` means every step passed.
    pub failure: Option<Failure>,
}

/// The result reported for `scenario` is about that scenario, and a failure
/// names one of its steps.
pub open spec fn result_describes(scenario: Scenario, result: ScenarioResult) -> bool {
    &&& result.id == scenario.id
    &&& result.failure matches Some(failure) ==> failure.step < scenario.steps@.len()
}

/// Fixed-capacity conformance report suitable for CI and no-heap targets.
#[derive(Clone, Copy, Debug, PartialEq, Eq)]
pub struct Report<const N: usize> {
    /// Schema used by scenarios and JSON output.
    pub schema_version: u16,
    /// Contract advertised by the backend.
    pub contract: RuntimeContract,
    /// Scheduling guarantees exercised by this report.
    pub execution_profile: RuntimeExecutionProfile,
    /// Stable backend revision.
    pub backend_revision: &'static str,
    /// One result per requested scenario.
    pub results: [ScenarioResult; N],
}

/// JSON object describing one scenario result.
pub open spec fn result_json(result: ScenarioResult) -> Seq<char> {
    "{\"id\":"@ + json_string(result.id.name()) + match result.failure {
        None => ",\"status\":\"passed\"}"@,
        Some(failure) => ",\"status\":\"failed\",\"step\":"@ + decimal_text(failure.step as nat)
            + ",\"kind\":"@ + json_string(
            match failure.kind {
                FailureKind::Backend(_) => "backend"@,
                FailureKind::UnexpectedObservation => "observation"@,
            },
        ) + "}"@,
    }
}

/// A failed scenario's JSON names its failure kind: `"backend"` for a
/// backend error and `"observation"` for an unexpected observation, so the
/// two kinds never give the same text.
pub proof fn lemma_failure_kind_json(id: ScenarioId, step: u16, error: Error)
    ensures
        ({
            let text = result_json(
                ScenarioResult {
                    id,
                    failure: Some(Failure { step, kind: FailureKind::Backend(error) }),
                },
            );
            text.len() >= 18 && text.skip(text.len() - 18) == ",\"kind\":\"backend\"}"@
        }),
        ({
            let text = result_json(
                ScenarioResult {
                    id,
                    failure: Some(Failure { step, kind: FailureKind::UnexpectedObservation }),
                },
            );
            text.len() >= 22 && text.skip(text.len() - 22) == ",\"kind\":\"observation\"}"@
        }),
        result_json(
            ScenarioResult { id, failure: Some(Failure { step, kind: FailureKind::Backend(error) }) },
        ) != result_json(
            ScenarioResult {
                id,
                failure: Some(Failure { step, kind: FailureKind::UnexpectedObservation }),
            },
        ),
{
    reveal_strlit("backend");
    reveal_strlit("observation");
    reveal_strlit("\"");
    reveal_strlit("}");
    reveal_strlit(",\"kind\":");
    reveal_strlit(",\"kind\":\"backend\"}");
    reveal_strlit(",\"kind\":\"observation\"}");
    lemma_plain_text_unescaped("backend"@);
    lemma_plain_text_unescaped("observation"@);
    let head = "{\"id\":"@ + json_string(id.name()) + ",\"status\":\"failed\",\"step\":"@
        + decimal_text(step as nat);
    let backend = result_json(
        ScenarioResult { id, failure: Some(Failure { step, kind: FailureKind::Backend(error) }) },
    );
    let observation = result_json(
        ScenarioResult {
            id,
            failure: Some(Failure { step, kind: FailureKind::UnexpectedObservation }),
        },
    );
    assert(backend =~= head + ",\"kind\":\"backend\"}"@);
    assert(observation =~= head + ",\"kind\":\"observation\"}"@);
    assert(backend.skip(backend.len() - 18) =~= ",\"kind\":\"backend\"}"@);
    assert(observation.skip(observation.len() - 22) =~= ",\"kind\":\"observation\"}"@);
    assert(backend.len() != observation.len());
}

/// Comma-separated JSON objects of a sequence of scenario results.
pub open spec fn results_json(results: Seq<ScenarioResult>) -> Seq<char>
    decreases results.len(),
{
    if results.len() == 0 {
        Seq::empty()
    } else if results.len() == 1 {
        result_json(results[0])
    } else {
        results_json(results.drop_last()) + ","@ + result_json(results.last())
    }
}

/// Opening of a report's JSON document, up to the backend revision's value.
pub open spec fn report_header_json(
    schema_version: u16,
    contract: RuntimeContract,
    execution_profile: RuntimeExecutionProfile,
) -> Seq<char> {
    "{\"schema_version\":"@ + decimal_text(schema_version as nat)
        + ",\"contract\":{\"major\":"@ + decimal_text(contract.version.major as nat)
        + ",\"minor\":"@ + decimal_text(contract.version.minor as nat)
        + ",\"capabilities\":"@ + decimal_text(contract.capabilities.bits() as nat)
        + "},\"execution_profile\":{\"revision\":"@ + decimal_text(
        execution_profile.revision as nat,
    ) + ",\"modes\":"@ + decimal_text(execution_profile.modes.bits() as nat)
        + "},\"backend_revision\":"@
}

/// The JSON document of a report.
pub open spec fn report_json<const N: usize>(report: Report<N>) -> Seq<char> {
    report_header_json(report.schema_version, report.contract, report.execution_profile)
        + json_string(report.backend_revision@) + ",\"scenarios\":["@ + results_json(
        report.results@,
    ) + "]}"@
}

fn push_report_header(
    output: &mut String,
    schema_version: u16,
    contract: RuntimeContract,
    execution_profile: RuntimeExecutionProfile,
)
    ensures
        final(output)@ == old(output)@ + report_header_json(
            schema_version,
            contract,
            execution_profile,
        ),
{
    let ghost start = output@;
    output.append("{\"schema_version\":");
    push_decimal(output, schema_version as u32);
    output.append(",\"contract\":{\"major\":");
    let ghost part1 = "{\"schema_version\":"@ + decimal_text(schema_version as nat)
        + ",\"contract\":{\"major\":"@;
    assert(output@ =~= start + part1);
    push_decimal(output, contract.version.major as u32);
    output.append(",\"minor\":");
    push_decimal(output, contract.version.minor as u32);
    let ghost part2 = part1 + decimal_text(contract.version.major as nat) + ",\"minor\":"@
        + decimal_text(contract.version.minor as nat);
    assert(output@ =~= start + part2);
    output.append(",\"capabilities\":");
    push_decimal(output, contract.capabilities.bits());
    output.append("},\"execution_profile\":{\"revision\":");
    let ghost part3 = part2 + ",\"capabilities\":"@ + decimal_text(
        contract.capabilities.bits() as nat,
    ) + "},\"execution_profile\":{\"revision\":"@;
    assert(output@ =~= start + part3);
    push_decimal(output, execution_profile.revision as u32);
    output.append(",\"modes\":");
    push_decimal(output, execution_profile.modes.bits());
    output.append("},\"backend_revision\":");
    let ghost part4 = part3 + decimal_text(execution_profile.revision as nat) + ",\"modes\":"@
        + decimal_text(execution_profile.modes.bits() as nat) + "},\"backend_revision\":"@;
    assert(output@ =~= start + part4);
    assert(part4 =~= report_header_json(schema_version, contract, execution_profile));
}

fn push_result(output: &mut String, result: ScenarioResult)
    ensures
        final(output)@ == old(output)@ + result_json(result),
{
    output.append("{\"id\":");
    push_json_string(output, result.id.as_str());
    match result.failure {
        None => {
            output.append(",\"status\":\"passed\"}");
        },
        Some(failure) => {
            output.append(",\"status\":\"failed\",\"step\":");
            push_decimal(output, failure.step as u32);
            output.append(",\"kind\":");
            let kind = match failure.kind {
                FailureKind::Backend(_) => "backend",
                FailureKind::UnexpectedObservation => "observation",
            };
            push_json_string(output, kind);
            output.append("}");
        },
    }
    assert(output@ =~= old(output)@ + result_json(result));
}

#[verifier::external_type_specification]
#[verifier::external_body]
pub struct ExFormatError(core::fmt::Error);

impl<const N: usize> Report<N> {
    /// Returns true only when every requested scenario passed.
    pub fn all_passed(&self) -> (r: bool)
        ensures
            r == forall|i: int| 0 <= i < N ==> (#[trigger] self.results@[i]).failure is None,
    {
        let mut index: usize = 0;
        while index < N
            invariant
                index <= N,
                self.results@.len() == N,
                forall|i: int| 0 <= i < index ==> (#[trigger] self.results@[i]).failure is None,
            decreases N - index,
        {
            if self.results[index].failure.is_some() {
                return false;
            }
            index += 1;
        }
        true
    }

    /// Writes deterministic JSON without requiring `serde`.
    pub fn write_json(&self, output: &mut String) -> (r: core::fmt::Result)
        ensures
            r is Ok,
            final(output)@ == old(output)@ + report_json(*self),
    {
        push_report_header(output, self.schema_version, self.contract, self.execution_profile);
        push_json_string(output, self.backend_revision);
        output.append(",\"scenarios\":[");
        let ghost header = output@;
        let mut index: usize = 0;
        while index < N
            invariant
                index <= N,
                self.results@.len() == N,
                output@ == header + results_json(self.results@.take(index as int)),
            decreases N - index,
        {
            let ghost before = output@;
            if index != 0 {
                output.append(",");
            }
            let result = self.results[index];
            push_result(output, result);
            let ghost taken = self.results@.take(index + 1);
            assert(taken.drop_last() =~= self.results@.take(index as int));
            assert(taken.last() == result);
            if index == 0 {
                assert(taken =~= seq![result]);
            }
            assert(output@ =~= header + results_json(taken));
            index += 1;
        }
        assert(self.results@.take(N as int) =~= self.results@);
        output.append("]}");
        assert(output@ =~= old(output)@ + report_json(*self));
        Ok(())
    }
}

/// Failure of a run of `steps` whose first steps the backend answered with
/// `answers`, looking from step `from` on: the verdict of the first step
/// whose answer fails it, or none when every answered step passed.
pub open spec fn first_failure(
    steps: Seq<Step>,
    answers: Seq<Result<Observation, Error>>,
    from: int,
) -> Option<Failure>
    decreases answers.len() - from,
{
    if from < 0 || from >= answers.len() || from >= steps.len() {
        None
    } else {
        match steps[from].verdict(from as u16, answers[from]) {
            Some(failure) => Some(failure),
            None => first_failure(steps, answers, from + 1),
        }
    }
}

/// `answers` are the backend's answers to a run of `steps` that stops at the
/// first failing step: no more answers than steps, and fewer only when a
/// step failed.
pub open spec fn run_answers(steps: Seq<Step>, answers: Seq<Result<Observation, Error>>) -> bool {
    &&& answers.len() <= steps.len()
    &&& answers.len() < steps.len() ==> first_failure(steps, answers, 0) is Some
    &&& first_failure(steps, answers, 0) matches Some(failure) ==> answers.len() == failure.step
        + 1 || answers.len() > u16::MAX
}

/// The answers recorded in `exchanges`, in order.
pub open spec fn answers_of(exchanges: Seq<(Action, Result<Observation, Error>)>) -> Seq<
    Result<Observation, Error>,
> {
    exchanges.map_values(|exchange: (Action, Result<Observation, Error>)| exchange.1)
}

/// `exchanges` is a run of `scenario`: the actions of its first steps,
/// applied once each and in order, stopping after the first step whose
/// answer fails it.
pub open spec fn scenario_run(
    scenario: Scenario,
    exchanges: Seq<(Action, Result<Observation, Error>)>,
) -> bool {
    &&& forall|i: int|
        0 <= i < exchanges.len() ==> (#[trigger] exchanges[i]).0 == scenario.steps@[i].action
    &&& run_answers(scenario.steps@, answers_of(exchanges))
}

/// The result a run of `scenario` reports: the scenario's identity and the
/// verdict of its first failing step, if any.
pub open spec fn run_result(
    scenario: Scenario,
    exchanges: Seq<(Action, Result<Observation, Error>)>,
) -> ScenarioResult {
    ScenarioResult { id: scenario.id, failure: first_failure(scenario.steps@, answers_of(exchanges), 0) }
}

/// A backend whose record was `before` holds `after` once it ran
/// `scenario`: the old record is kept, and what was added is one run of the
/// scenario.
pub open spec fn ran(
    scenario: Scenario,
    before: Seq<(Action, Result<Observation, Error>)>,
    after: Seq<(Action, Result<Observation, Error>)>,
) -> bool {
    &&& before.len() <= after.len()
    &&& after.take(before.len() as int) == before
    &&& scenario_run(scenario, after.skip(before.len() as int))
}

/// `cuts` splits the part of `history` from `cuts[0]` on into one run per
/// scenario, in order, and each result is the one its run reports.
pub open spec fn suite_runs(
    scenarios: Seq<Scenario>,
    results: Seq<ScenarioResult>,
    history: Seq<(Action, Result<Observation, Error>)>,
    cuts: Seq<int>,
) -> bool {
    &&& cuts.len() == scenarios.len() + 1
    &&& results.len() == scenarios.len()
    &&& cuts.last() == history.len()
    &&& forall|i: int|
        0 <= i < scenarios.len() ==> 0 <= #[trigger] cuts[i] <= cuts[i + 1] <= history.len()
    &&& forall|i: int|
        0 <= i < scenarios.len() ==> scenario_run(
            scenarios[i],
            history.subrange(cuts[i], cuts[i + 1]),
        ) && #[trigger] results[i] == run_result(
            scenarios[i],
            history.subrange(cuts[i], cuts[i + 1]),
        )
}

/// A record that kept `before` as its beginning, and then kept `middle`,
/// still begins with `before`.
proof fn lemma_record_extends(
    before: Seq<(Action, Result<Observation, Error>)>,
    middle: Seq<(Action, Result<Observation, Error>)>,
    after: Seq<(Action, Result<Observation, Error>)>,
)
    requires
        before.len() <= middle.len() <= after.len(),
        middle.take(before.len() as int) == before,
        after.take(middle.len() as int) == middle,
    ensures
        after.take(before.len() as int) == before,
{
    assert(after.take(before.len() as int) =~= middle.take(before.len() as int));
}

/// Running one more scenario extends a suite's runs by that scenario's run.
proof fn lemma_suite_runs_extend(
    scenarios: Seq<Scenario>,
    results: Seq<ScenarioResult>,
    before: Seq<(Action, Result<Observation, Error>)>,
    after: Seq<(Action, Result<Observation, Error>)>,
    cuts: Seq<int>,
    scenario: Scenario,
    result: ScenarioResult,
)
    requires
        suite_runs(scenarios, results, before, cuts),
        ran(scenario, before, after),
        result == run_result(scenario, after.skip(before.len() as int)),
    ensures
        suite_runs(
            scenarios.push(scenario),
            results.push(result),
            after,
            cuts.push(after.len() as int),
        ),
{
    let extended = cuts.push(after.len() as int);
    let count = scenarios.len();
    assert forall|i: int| 0 <= i < count + 1 implies 0 <= #[trigger] extended[i] <= extended[i + 1]
        <= after.len() by {
        if i < count {
            assert(extended[i] == cuts[i]);
        }
    }
    assert forall|i: int| 0 <= i < count + 1 implies scenario_run(
        scenarios.push(scenario)[i],
        after.subrange(extended[i], extended[i + 1]),
    ) && #[trigger] results.push(result)[i] == run_result(
        scenarios.push(scenario)[i],
        after.subrange(extended[i], extended[i + 1]),
    ) by {
        if i < count {
            assert(results[i] == run_result(scenarios[i], before.subrange(cuts[i], cuts[i + 1])));
            assert(after.subrange(extended[i], extended[i + 1]) =~= before.subrange(
                cuts[i],
                cuts[i + 1],
            )) by {
                assert(after.take(before.len() as int) == before);
                assert forall|k: int| 0 <= k < cuts[i + 1] - cuts[i] implies #[trigger] after.subrange(
                    cuts[i],
                    cuts[i + 1],
                )[k] == before.subrange(cuts[i], cuts[i + 1])[k] by {
                    assert(after.take(before.len() as int)[cuts[i] + k] == after[cuts[i] + k]);
                }
            }
        } else {
            assert(after.subrange(extended[i], extended[i + 1]) =~= after.skip(before.len() as int));
        }
    }
}

/// Runs the same fixed scenario suite against any deterministic backend.
///
/// The scenarios run once each, in order, on the same backend; the report
/// carries the backend's contract, profile and revision as read after the
/// last scenario.
pub fn run_suite<B: Backend, const N: usize>(backend: &mut B, scenarios: &[Scenario; N]) -> (r:
    Report<N>)
    ensures
        r.schema_version == SCHEMA_VERSION,
        r.contract == final(backend).spec_contract(),
        r.execution_profile == final(backend).spec_execution_profile(),
        r.backend_revision == final(backend).spec_revision(),
        old(backend).history()@.len() <= final(backend).history()@.len(),
        final(backend).history()@.take(old(backend).history()@.len() as int) == old(
            backend,
        ).history()@,
        exists|cuts: Seq<int>|
            #[trigger] suite_runs(scenarios@, r.results@, final(backend).history()@, cuts)
                && cuts[0] == old(backend).history()@.len(),
        forall|i: int| 0 <= i < N ==> result_describes(scenarios@[i], #[trigger] r.results@[i]),
{
    let ghost start = backend.history()@;
    let placeholder = ScenarioResult { id: ScenarioId::PriorityThenFifo, failure: None };
    let mut results: [ScenarioResult; N] = vstd::array::array_fill_for_copy_types(placeholder);
    let ghost mut cuts: Seq<int> = seq![start.len() as int];
    let mut index: usize = 0;
    while index < N
        invariant
            index <= N,
            results@.len() == N,
            scenarios@.len() == N,
            start.len() <= backend.history()@.len(),
            backend.history()@.take(start.len() as int) == start,
            cuts.len() == index + 1,
            cuts[0] == start.len(),
            suite_runs(
                scenarios@.take(index as int),
                results@.take(index as int),
                backend.history()@,
                cuts,
            ),
            forall|i: int|
                0 <= i < index ==> result_describes(scenarios@[i], #[trigger] results@[i]),
        decreases N - index,
    {
        let ghost before = backend.history()@;
        let result = run_scenario(backend, &scenarios[index]);
        let ghost after = backend.history()@;
        proof {
            lemma_record_extends(start, before, after);
            lemma_suite_runs_extend(
                scenarios@.take(index as int),
                results@.take(index as int),
                before,
                after,
                cuts,
                scenarios@[index as int],
                result,
            );
        }
        let ghost results_before = results@;
        results[index] = result;
        proof {
            assert(scenarios@.take(index + 1) =~= scenarios@.take(index as int).push(
                scenarios@[index as int],
            ));
            assert(results@.take(index + 1) =~= results_before.take(index as int).push(result));
            cuts = cuts.push(after.len() as int);
        }
        index += 1;
    }
    assert(scenarios@.take(N as int) =~= scenarios@);
    assert(results@.take(N as int) =~= results@);
    let report = Report {
        schema_version: SCHEMA_VERSION,
        contract: backend.contract(),
        execution_profile: backend.execution_profile(),
        backend_revision: backend.revision(),
        results,
    };
    assert(suite_runs(scenarios@, report.results@, backend.history()@, cuts));
    report
}

/// The failure of a run is the verdict of its earliest failing step: steps
/// before it passed, and nothing after it is looked at.
pub proof fn lemma_first_failure_is_earliest(
    steps: Seq<Step>,
    answers: Seq<Result<Observation, Error>>,
    from: int,
    k: int,
)
    requires
        0 <= from <= k,
        k < answers.len(),
        k < steps.len(),
        forall|i: int| from <= i < k ==> (#[trigger] steps[i]).verdict(i as u16, answers[i]) is None,
        steps[k].verdict(k as u16, answers[k]) is Some,
    ensures
        first_failure(steps, answers, from) == steps[k].verdict(k as u16, answers[k]),
    decreases k - from,
{
    if from < k {
        assert(steps[from].verdict(from as u16, answers[from]) is None);
        lemma_first_failure_is_earliest(steps, answers, from + 1, k);
    }
}

/// A run whose every answered step passed has no failure.
pub proof fn lemma_passing_run_has_no_failure(
    steps: Seq<Step>,
    answers: Seq<Result<Observation, Error>>,
    from: int,
)
    requires
        0 <= from,
        forall|i: int|
            from <= i < answers.len() && i < steps.len() ==> (#[trigger] steps[i]).verdict(
                i as u16,
                answers[i],
            ) is None,
    ensures
        first_failure(steps, answers, from) is None,
    decreases answers.len() - from,
{
    if from < answers.len() && from < steps.len() {
        assert(steps[from].verdict(from as u16, answers[from]) is None);
        lemma_passing_run_has_no_failure(steps, answers, from + 1);
    }
}

proof fn lemma_first_failure_in_range(
    steps: Seq<Step>,
    answers: Seq<Result<Observation, Error>>,
    from: int,
)
    requires
        0 <= from,
    ensures
        first_failure(steps, answers, from) matches Some(failure) ==> failure.step < steps.len()
            && failure.step < answers.len(),
    decreases answers.len() - from,
{
    if from < answers.len() && from < steps.len() {
        let index = from as u16;
        assert(index <= from) by {
            let f: u64 = from as u64;
            assert(f as u16 <= f) by (bit_vector);
        }
        lemma_first_failure_in_range(steps, answers, from + 1);
    }
}

/// Applies the steps of `scenario` in order and stops at the first step the
/// backend fails or answers with an unexpected observation.
fn run_scenario<B: Backend>(backend: &mut B, scenario: &Scenario) -> (r: ScenarioResult)
    ensures
        ran(*scenario, old(backend).history()@, final(backend).history()@),
        r == run_result(*scenario, final(backend).history()@.skip(old(backend).history()@.len() as int)),
        result_describes(*scenario, r),
{
    let ghost start = backend.history()@;
    let count = scenario.steps.len();
    let mut index: usize = 0;
    while index < count
        invariant
            index <= count,
            count == scenario.steps@.len(),
            start == old(backend).history()@,
            backend.history()@.len() == start.len() + index,
            backend.history()@.take(start.len() as int) == start,
            forall|i: int|
                0 <= i < index ==> (#[trigger] backend.history()@.skip(start.len() as int)[i]).0
                    == scenario.steps@[i].action,
            first_failure(scenario.steps@, answers_of(backend.history()@.skip(start.len() as int)), 0)
                is None,
        decreases count - index,
    {
        let step = scenario.steps[index];
        let ghost before = backend.history()@;
        let outcome = backend.apply(step.action);
        let verdict = step.evaluate(index as u16, outcome);
        proof {
            let added = backend.history()@.skip(start.len() as int);
            let earlier = before.skip(start.len() as int);
            assert(added =~= earlier.push((step.action, outcome)));
            assert(answers_of(added) =~= answers_of(earlier).push(outcome));
            assert(backend.history()@.take(start.len() as int) =~= before.take(start.len() as int));
            lemma_first_failure_extend(scenario.steps@, answers_of(earlier), outcome, 0);
            lemma_first_failure_in_range(scenario.steps@, answers_of(added), 0);
        }
        if verdict.is_some() {
            return ScenarioResult { id: scenario.id, failure: verdict };
        }
        index += 1;
    }
    ScenarioResult { id: scenario.id, failure: None }
}

proof fn lemma_first_failure_extend(
    steps: Seq<Step>,
    answers: Seq<Result<Observation, Error>>,
    answer: Result<Observation, Error>,
    from: int,
)
    requires
        0 <= from <= answers.len() < steps.len(),
        first_failure(steps, answers, from) is None,
    ensures
        first_failure(steps, answers.push(answer), from) == steps[answers.len() as int].verdict(
            answers.len() as u16,
            answer,
        ),
    decreases answers.len() - from,
{
    let extended = answers.push(answer);
    if from < answers.len() {
        assert(extended[from] == answers[from]);
        lemma_first_failure_extend(steps, answers, answer, from + 1);
    } else {
        assert(extended[from] == answer);
        assert(first_failure(steps, extended, from + 1) is None);
    }
}

} // verus!

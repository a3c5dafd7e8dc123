//! Identities, scheduling parameters, wait requests and failures exchanged
//! with the installed runtime.
use vstd::prelude::*;

use crate::contract::TaskPriority;

verus! {

/// Runtime service failure.
#[derive(Clone, Copy, Debug, PartialEq, Eq, Structural)]
pub enum Error {
    /// No runtime has been installed for this firmware.
    NotInstalled,
    /// A different runtime was already installed.
    AlreadyInstalled,
    /// The runtime's version or capabilities cannot satisfy contract v1.
    IncompatibleContract,
    /// The installed scheduler cannot provide the required execution modes.
    IncompatibleExecutionProfile,
    /// A task, semaphore, stack, or internal control block could not be allocated.
    ResourceExhausted,
    /// The runtime has no dynamic task slot available for another task.
    NoTaskSlots,
    /// The supplied opaque handle is no longer valid.
    InvalidHandle,
    /// The operation is not legal in the current execution context.
    InvalidContext,
    /// A runtime-specific bounded operation timed out.
    TimedOut,
    /// The runtime reported an implementation-specific failure.
    Runtime,
}

/// Opaque task identity owned by the installed runtime.
#[derive(Clone, Copy, Debug, PartialEq, Eq, Structural)]
pub struct TaskId(u32);

impl TaskId {
    /// The runtime-owned raw value.
    pub closed spec fn raw(self) -> u32 {
        self.0
    }

    /// Creates an identity from a runtime-owned raw value.
    pub fn from_raw(raw: u32) -> (r: Self)
        ensures
            r.raw() == raw,
    {
        TaskId(raw)
    }

    /// Returns the runtime-owned raw value.
    pub fn into_raw(self) -> (r: u32)
        ensures
            r == self.raw(),
    {
        self.0
    }
}

/// Opaque semaphore identity owned by the installed runtime. Never zero.
#[derive(Clone, Copy, Debug, PartialEq, Eq, Structural)]
pub struct SemaphoreHandle(usize);

impl SemaphoreHandle {
    #[verifier::type_invariant]
    spec fn non_zero(self) -> bool {
        self.0 != 0
    }

    /// The runtime-owned opaque value.
    pub closed spec fn raw(self) -> usize {
        self.0
    }

    /// Creates a handle after a runtime allocated the corresponding object.
    ///
    /// `raw` must uniquely identify a live semaphore in that runtime until the
    /// matching destroy operation completes.
    pub fn from_raw(raw: usize) -> (r: Self)
        requires
            raw != 0,
        ensures
            r.raw() == raw,
    {
        SemaphoreHandle(raw)
    }

    /// Returns the runtime-owned opaque value.
    pub fn into_raw(self) -> (r: usize)
        ensures
            r == self.raw(),
            r != 0,
    {
        proof {
            use_type_invariant(&self);
        }
        self.0
    }
}

/// Opaque recursive-mutex identity owned by the installed runtime. Never zero.
#[derive(Clone, Copy, Debug, PartialEq, Eq, Structural)]
pub struct MutexHandle(usize);

impl MutexHandle {
    #[verifier::type_invariant]
    spec fn non_zero(self) -> bool {
        self.0 != 0
    }

    /// The runtime-owned opaque value.
    pub closed spec fn raw(self) -> usize {
        self.0
    }

    /// Creates a handle after a runtime allocated the corresponding object.
    ///
    /// `raw` must uniquely identify a live mutex until destroy completes.
    pub fn from_raw(raw: usize) -> (r: Self)
        requires
            raw != 0,
        ensures
            r.raw() == raw,
    {
        MutexHandle(raw)
    }

    /// Returns the runtime-owned opaque value.
    pub fn into_raw(self) -> (r: usize)
        ensures
            r == self.raw(),
            r != 0,
    {
        proof {
            use_type_invariant(&self);
        }
        self.0
    }
}

/// A task's scheduling parameters.
#[derive(Clone, Copy, Debug, PartialEq, Eq, Structural)]
pub struct TaskConfig {
    /// Requested stack allocation in bytes; never zero.
    pub stack_size: usize,
    /// Validated contract-v1 priority. Lower numeric values run first.
    pub priority: TaskPriority,
}

/// Periodic CPU quota for one runtime task, expressed in milliseconds.
///
/// This is an upper bound enforced by a target-backed scheduler. It does not
/// promise that the task receives `capacity_ms` in every period.
#[derive(Clone, Copy, Debug, PartialEq, Eq, Structural)]
pub struct TaskBudget {
    capacity_ms: u32,
    replenishment_period_ms: u32,
}

impl TaskBudget {
    #[verifier::type_invariant]
    spec fn well_formed(self) -> bool {
        0 < self.capacity_ms <= self.replenishment_period_ms
    }

    /// Maximum CPU time available in one replenishment period.
    pub closed spec fn capacity(self) -> u32 {
        self.capacity_ms
    }

    /// Period at which the CPU quota is replenished.
    pub closed spec fn period(self) -> u32 {
        self.replenishment_period_ms
    }

    /// Creates a quota whose capacity does not exceed its replenishment period.
    pub fn try_new(capacity_ms: u32, replenishment_period_ms: u32) -> (r: Option<Self>)
        requires
            capacity_ms != 0,
            replenishment_period_ms != 0,
        ensures
            r is Some <==> capacity_ms <= replenishment_period_ms,
            r matches Some(b) ==> b.capacity() == capacity_ms && b.period()
                == replenishment_period_ms,
    {
        if capacity_ms <= replenishment_period_ms {
            Some(TaskBudget { capacity_ms, replenishment_period_ms })
        } else {
            None
        }
    }

    /// Maximum CPU time available in one replenishment period.
    pub fn capacity_ms(self) -> (r: u32)
        ensures
            r == self.capacity(),
            0 < r <= self.period(),
    {
        proof {
            use_type_invariant(&self);
        }
        self.capacity_ms
    }

    /// Period at which the CPU quota is replenished.
    pub fn replenishment_period_ms(self) -> (r: u32)
        ensures
            r == self.period(),
            self.capacity() <= r,
    {
        proof {
            use_type_invariant(&self);
        }
        self.replenishment_period_ms
    }
}

/// Execution policy assigned atomically when a runtime task is created.
#[derive(Clone, Copy, Debug, Default, PartialEq, Eq, Structural)]
pub enum TaskExecutionPolicy {
    /// Runs until it yields, blocks, or exits.
    #[default]
    Cooperative,
    /// Runs cooperatively until its periodic CPU quota is exhausted.
    Budgeted(TaskBudget),
    /// Allows timer-driven equal-priority round-robin preemption.
    Preemptive {
        /// Non-zero time slice in milliseconds.
        time_slice_ms: u32,
    },
}

/// A bounded or unbounded wait request.
#[derive(Clone, Copy, Debug, PartialEq, Eq, Structural)]
pub enum WaitTimeout {
    /// Return immediately if the resource is unavailable.
    NoWait,
    /// Wait for the given non-zero number of milliseconds.
    Milliseconds(u32),
    /// Wait without a deadline.
    Forever,
}

impl WaitTimeout {
    /// Converts the vendor-compatible millisecond convention (`0` no-wait,
    /// `u32::MAX` forever) into the typed contract.
    pub fn from_millis(milliseconds: u32) -> (r: Self)
        ensures
            milliseconds == 0 ==> r == WaitTimeout::NoWait,
            milliseconds == u32::MAX ==> r == WaitTimeout::Forever,
            0 < milliseconds < u32::MAX ==> r == WaitTimeout::Milliseconds(milliseconds),
    {
        if milliseconds == 0 {
            WaitTimeout::NoWait
        } else if milliseconds == u32::MAX {
            WaitTimeout::Forever
        } else {
            WaitTimeout::Milliseconds(milliseconds)
        }
    }
}

/// Result of a successful wait operation.
#[derive(Clone, Copy, Debug, PartialEq, Eq, Structural)]
pub enum WaitOutcome {
    /// The resource was acquired.
    Acquired,
    /// The deadline expired before acquisition.
    TimedOut,
}

/// Result of cancelling a task's pending synchronization wait.
#[derive(Clone, Copy, Debug, PartialEq, Eq, Structural)]
pub enum WaitCancellationOutcome {
    /// A queued wait or an unconsumed direct handoff was cancelled.
    Cancelled,
    /// The task was live but had no cancellable wait or pending grant.
    NotWaiting,
}

} // verus!

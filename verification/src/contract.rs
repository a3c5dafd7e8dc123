//! Versioned runtime contract: priorities, capability sets, execution
//! profiles and the compatibility relations between them.
use vstd::prelude::*;

verus! {

/// Number of priority levels required by runtime contract v1.
pub const TASK_PRIORITY_LEVELS: u8 = 32;

/// A validated runtime task priority.
///
/// Contract v1 has 32 levels. Lower numeric values outrank higher values;
/// priority 0 is highest and priority 31 is lowest.
#[derive(Clone, Copy, Debug, PartialEq, Eq, Structural)]
pub struct TaskPriority(u8);

/// A numeric priority outside the contract-v1 range.
#[derive(Clone, Copy, Debug, PartialEq, Eq, Structural)]
pub struct InvalidTaskPriority {
    value: u8,
}

impl InvalidTaskPriority {
    /// The rejected numeric value.
    pub closed spec fn rejected(self) -> u8 {
        self.value
    }

    /// The rejection of `value`.
    pub closed spec fn spec_new(value: u8) -> Self {
        InvalidTaskPriority { value }
    }

    /// The rejection error reports the value it was built from.
    pub broadcast proof fn lemma_rejected(value: u8)
        ensures
            #[trigger] Self::spec_new(value).rejected() == value,
    {
    }

    /// Returns the rejected numeric value.
    pub fn value(self) -> (r: u8)
        ensures
            r == self.rejected(),
    {
        self.value
    }
}

impl TaskPriority {
    #[verifier::type_invariant]
    spec fn in_range(self) -> bool {
        self.0 < TASK_PRIORITY_LEVELS
    }

    /// The contract-v1 numeric value.
    pub closed spec fn raw(self) -> u8 {
        self.0
    }

    /// The value with this raw number.
    pub closed spec fn spec_from_raw(value: u8) -> Self {
        TaskPriority(value)
    }

    /// Building a value from its raw number reads back that number.
    pub broadcast proof fn lemma_raw(value: u8)
        ensures
            #[trigger] Self::spec_from_raw(value).raw() == value,
    {
    }

    /// Two values with the same raw number are equal.
    pub broadcast proof fn lemma_raw_determines(a: Self, b: Self)
        ensures
            #[trigger] a.raw() == #[trigger] b.raw() ==> a == b,
    {
    }

    /// Highest priority accepted by contract v1.
    #[allow(non_snake_case)]
    #[verifier::allow_in_spec]
    pub fn HIGHEST() -> Self
        returns
            Self::spec_from_raw(0),
    {
        TaskPriority(0)
    }

    /// Lowest priority accepted by contract v1.
    #[allow(non_snake_case)]
    #[verifier::allow_in_spec]
    pub fn LOWEST() -> Self
        returns
            Self::spec_from_raw(31),
    {
        TaskPriority(TASK_PRIORITY_LEVELS - 1)
    }

    /// Validates one contract-v1 priority value.
    pub fn new(value: u8) -> (r: Option<Self>)
        ensures
            r is Some <==> value < TASK_PRIORITY_LEVELS,
            r matches Some(p) ==> p.raw() == value,
    {
        if value < TASK_PRIORITY_LEVELS {
            Some(TaskPriority(value))
        } else {
            None
        }
    }

    /// Returns the contract-v1 numeric value.
    pub fn into_raw(self) -> (r: u8)
        ensures
            r == self.raw(),
            r < TASK_PRIORITY_LEVELS,
    {
        proof {
            use_type_invariant(&self);
        }
        self.0
    }

    /// Returns true when this priority must run before `other` when both are
    /// eligible. Equal priorities are ordered by the runtime's FIFO policy.
    #[verifier::allow_in_spec]
    pub fn outranks(self, other: Self) -> bool
        returns
            self.raw() < other.raw(),
    {
        self.0 < other.0
    }
}

impl TryFrom<u8> for TaskPriority {
    type Error = InvalidTaskPriority;

    fn try_from(value: u8) -> (r: Result<Self, Self::Error>) {
        match Self::new(value) {
            Some(priority) => Ok(priority),
            None => Err(InvalidTaskPriority { value }),
        }
    }
}

impl vstd::std_specs::convert::TryFromSpecImpl<u8> for TaskPriority {
    open spec fn obeys_try_from_spec() -> bool {
        true
    }

    open spec fn try_from_spec(value: u8) -> Result<Self, Self::Error> {
        if value < TASK_PRIORITY_LEVELS {
            Ok(TaskPriority::spec_from_raw(value))
        } else {
            Err(InvalidTaskPriority::spec_new(value))
        }
    }
}

impl From<TaskPriority> for u8 {
    fn from(value: TaskPriority) -> (r: u8) {
        value.into_raw()
    }
}

impl vstd::std_specs::convert::FromSpecImpl<TaskPriority> for u8 {
    open spec fn obeys_from_spec() -> bool {
        true
    }

    open spec fn from_spec(value: TaskPriority) -> u8 {
        value.raw()
    }
}

/// Version of the runtime-neutral radio contract.
///
/// A backend is compatible with a requirement when the major versions match
/// and the backend minor version is at least the required minor version.
#[derive(Clone, Copy, Debug, PartialEq, Eq, Structural)]
pub struct RuntimeContractVersion {
    /// Breaking-contract generation.
    pub major: u16,
    /// Backward-compatible capability generation.
    pub minor: u16,
}

impl RuntimeContractVersion {
    /// Contract implemented by the first crate release.
    #[allow(non_snake_case)]
    #[verifier::allow_in_spec]
    pub fn V1_0() -> Self
        returns
            (RuntimeContractVersion { major: 1, minor: 0 }),
    {
        RuntimeContractVersion { major: 1, minor: 0 }
    }

    /// Adds generation-bearing resource handles and cancellable waits.
    #[allow(non_snake_case)]
    #[verifier::allow_in_spec]
    pub fn V1_1() -> Self
        returns
            (RuntimeContractVersion { major: 1, minor: 1 }),
    {
        RuntimeContractVersion { major: 1, minor: 1 }
    }

    /// Adds an advisory dynamic-task capacity snapshot.
    #[allow(non_snake_case)]
    #[verifier::allow_in_spec]
    pub fn V1_2() -> Self
        returns
            (RuntimeContractVersion { major: 1, minor: 2 }),
    {
        RuntimeContractVersion { major: 1, minor: 2 }
    }

    /// Adds owner-bound dynamic-task reservations consumed by task creation.
    #[allow(non_snake_case)]
    #[verifier::allow_in_spec]
    pub fn V1_3() -> Self
        returns
            (RuntimeContractVersion { major: 1, minor: 3 }),
    {
        RuntimeContractVersion { major: 1, minor: 3 }
    }

    /// Adds atomic task-slot and stack-memory reservations.
    #[allow(non_snake_case)]
    #[verifier::allow_in_spec]
    pub fn V1_4() -> Self
        returns
            (RuntimeContractVersion { major: 1, minor: 4 }),
    {
        RuntimeContractVersion { major: 1, minor: 4 }
    }

    /// Returns whether this backend version can satisfy `required`.
    #[verifier::allow_in_spec]
    pub fn satisfies(self, required: Self) -> bool
        returns
            self.major == required.major && self.minor >= required.minor,
    {
        self.major == required.major && self.minor >= required.minor
    }
}

/// Runtime capabilities advertised before a radio adapter starts.
#[derive(Clone, Copy, Debug, PartialEq, Eq, Structural)]
pub struct RuntimeCapabilities(u32);

impl RuntimeCapabilities {
    /// The stable bit representation.
    pub closed spec fn spec_bits(self) -> u32 {
        self.0
    }

    /// The set with exactly these bits.
    pub closed spec fn spec_from_bits(bits: u32) -> Self {
        RuntimeCapabilities(bits)
    }

    /// Building a set from bits reads back the same bits.
    pub broadcast proof fn lemma_bits(bits: u32)
        ensures
            #[trigger] Self::spec_from_bits(bits).spec_bits() == bits,
    {
    }

    /// Two sets with the same bits are equal.
    pub broadcast proof fn lemma_bits_determine(a: Self, b: Self)
        ensures
            #[trigger] a.spec_bits() == #[trigger] b.spec_bits() ==> a == b,
    {
    }

    /// No runtime service is available.
    #[allow(non_snake_case)]
    #[verifier::allow_in_spec]
    pub fn NONE() -> Self
        returns
            Self::spec_from_bits(0),
    {
        RuntimeCapabilities(0)
    }

    /// Spawn, yield, sleep, current-task, and task-priority operations.
    #[allow(non_snake_case)]
    #[verifier::allow_in_spec]
    pub fn TASKS() -> Self
        returns
            Self::spec_from_bits(0x1),
    {
        RuntimeCapabilities(0x1)
    }

    /// Nested scheduler lock with deferred rescheduling.
    #[allow(non_snake_case)]
    #[verifier::allow_in_spec]
    pub fn SCHEDULER_LOCK() -> Self
        returns
            Self::spec_from_bits(0x2),
    {
        RuntimeCapabilities(0x2)
    }

    /// Interrupt enter/exit tracking and ISR-safe wake delivery.
    #[allow(non_snake_case)]
    #[verifier::allow_in_spec]
    pub fn INTERRUPT_WAKE() -> Self
        returns
            Self::spec_from_bits(0x4),
    {
        RuntimeCapabilities(0x4)
    }

    /// Counting semaphores with no-wait, timed, and forever waits.
    #[allow(non_snake_case)]
    #[verifier::allow_in_spec]
    pub fn SEMAPHORE() -> Self
        returns
            Self::spec_from_bits(0x8),
    {
        RuntimeCapabilities(0x8)
    }

    /// Recursive mutexes with priority inheritance.
    #[allow(non_snake_case)]
    #[verifier::allow_in_spec]
    pub fn RECURSIVE_PI_MUTEX() -> Self
        returns
            Self::spec_from_bits(0x10),
    {
        RuntimeCapabilities(0x10)
    }

    /// Opaque synchronization handles reject stale generations and reuse.
    #[allow(non_snake_case)]
    #[verifier::allow_in_spec]
    pub fn RESOURCE_HANDLE_GENERATIONS() -> Self
        returns
            Self::spec_from_bits(0x20),
    {
        RuntimeCapabilities(0x20)
    }

    /// Queued waits and unconsumed direct handoffs can be cancelled safely.
    #[allow(non_snake_case)]
    #[verifier::allow_in_spec]
    pub fn WAIT_CANCELLATION() -> Self
        returns
            Self::spec_from_bits(0x40),
    {
        RuntimeCapabilities(0x40)
    }

    /// Dynamic task capacity can be queried before radio initialization.
    #[allow(non_snake_case)]
    #[verifier::allow_in_spec]
    pub fn TASK_CAPACITY_QUERY() -> Self
        returns
            Self::spec_from_bits(0x80),
    {
        RuntimeCapabilities(0x80)
    }

    /// Dynamic task slots can be reserved before radio initialization.
    #[allow(non_snake_case)]
    #[verifier::allow_in_spec]
    pub fn TASK_RESERVATION() -> Self
        returns
            Self::spec_from_bits(0x100),
    {
        RuntimeCapabilities(0x100)
    }

    /// Task stacks can be allocated atomically with dynamic-slot admission.
    #[allow(non_snake_case)]
    #[verifier::allow_in_spec]
    pub fn TASK_STACK_RESERVATION() -> Self
        returns
            Self::spec_from_bits(0x200),
    {
        RuntimeCapabilities(0x200)
    }

    /// Several independently owned task groups can be admitted as one
    /// atomic plan.
    ///
    /// This capability takes the bit after [`Self::TASK_STACK_RESERVATION`].
    /// No contract revision requires it, so it is in none of the required
    /// sets (`V1_0_REQUIRED` through `V1_4_REQUIRED`): a backend opts in by
    /// advertising it on top of its revision's required set, and
    /// [`crate::reserve_task_resource_plan`] refuses a plan for any backend
    /// that does not.
    #[allow(non_snake_case)]
    #[verifier::allow_in_spec]
    pub fn TASK_RESOURCE_PLAN_RESERVATION() -> Self
        returns
            Self::spec_from_bits(0x400),
    {
        RuntimeCapabilities(0x400)
    }

    /// Complete capability set required by runtime contract v1.0.
    #[allow(non_snake_case)]
    #[verifier::allow_in_spec]
    pub fn V1_0_REQUIRED() -> Self
        returns
            Self::spec_from_bits(0x1f),
    {
        RuntimeCapabilities(0x1f)
    }

    /// Complete capability set required by runtime contract v1.1.
    #[allow(non_snake_case)]
    #[verifier::allow_in_spec]
    pub fn V1_1_REQUIRED() -> Self
        returns
            Self::spec_from_bits(0x7f),
    {
        RuntimeCapabilities(0x7f)
    }

    /// Complete capability set required by runtime contract v1.2.
    #[allow(non_snake_case)]
    #[verifier::allow_in_spec]
    pub fn V1_2_REQUIRED() -> Self
        returns
            Self::spec_from_bits(0xff),
    {
        RuntimeCapabilities(0xff)
    }

    /// Complete capability set required by runtime contract v1.3.
    #[allow(non_snake_case)]
    #[verifier::allow_in_spec]
    pub fn V1_3_REQUIRED() -> Self
        returns
            Self::spec_from_bits(0x1ff),
    {
        RuntimeCapabilities(0x1ff)
    }

    /// Complete capability set required by runtime contract v1.4.
    #[allow(non_snake_case)]
    #[verifier::allow_in_spec]
    pub fn V1_4_REQUIRED() -> Self
        returns
            Self::spec_from_bits(0x3ff),
    {
        RuntimeCapabilities(0x3ff)
    }

    /// Minimum capability set accepted when installing a runtime.
    #[allow(non_snake_case)]
    #[verifier::allow_in_spec]
    pub fn V1_MINIMUM() -> Self
        returns
            Self::V1_1_REQUIRED(),
    {
        Self::V1_1_REQUIRED()
    }

    /// Complete capability set implemented by the current native backend.
    #[allow(non_snake_case)]
    #[verifier::allow_in_spec]
    pub fn V1_CURRENT() -> Self
        returns
            Self::V1_4_REQUIRED(),
    {
        Self::V1_4_REQUIRED()
    }

    /// Creates a capability set from its stable bit representation.
    #[verifier::allow_in_spec]
    pub fn from_bits(bits: u32) -> Self
        returns
            Self::spec_from_bits(bits),
    {
        RuntimeCapabilities(bits)
    }

    /// Returns the stable bit representation.
    #[verifier::allow_in_spec]
    pub fn bits(self) -> u32
        returns
            self.spec_bits(),
    {
        self.0
    }

    /// Returns true when every bit in `required` is present.
    #[verifier::allow_in_spec]
    pub fn contains(self, required: Self) -> bool
        returns
            self.spec_bits() & required.spec_bits() == required.spec_bits(),
    {
        self.0 & required.0 == required.0
    }
}

impl core::ops::BitOr for RuntimeCapabilities {
    type Output = Self;

    fn bitor(self, rhs: Self) -> (r: Self) {
        RuntimeCapabilities(self.0 | rhs.0)
    }
}

impl vstd::std_specs::ops::BitOrSpecImpl for RuntimeCapabilities {
    open spec fn obeys_bitor_spec() -> bool {
        true
    }

    open spec fn bitor_req(self, rhs: Self) -> bool {
        true
    }

    open spec fn bitor_spec(self, rhs: Self) -> Self {
        RuntimeCapabilities::spec_from_bits(self.spec_bits() | rhs.spec_bits())
    }
}

impl core::ops::BitOrAssign for RuntimeCapabilities {
    fn bitor_assign(&mut self, rhs: Self)
        ensures
            final(self).spec_bits() == old(self).spec_bits() | rhs.spec_bits(),
    {
        self.0 = self.0 | rhs.0;
    }
}

/// Versioned capabilities offered by one runtime backend.
#[derive(Clone, Copy, Debug, PartialEq, Eq, Structural)]
pub struct RuntimeContract {
    /// Contract version implemented by the backend.
    pub version: RuntimeContractVersion,
    /// Runtime services implemented with contract-v1 semantics.
    pub capabilities: RuntimeCapabilities,
}

impl RuntimeContract {
    /// Original runtime contract without resource generations or cancellation.
    #[allow(non_snake_case)]
    #[verifier::allow_in_spec]
    pub fn V1_0() -> Self
        returns
            (RuntimeContract {
                version: RuntimeContractVersion::V1_0(),
                capabilities: RuntimeCapabilities::V1_0_REQUIRED(),
            }),
    {
        RuntimeContract {
            version: RuntimeContractVersion::V1_0(),
            capabilities: RuntimeCapabilities::V1_0_REQUIRED(),
        }
    }

    /// Runtime contract v1.1, retained for compatibility with existing adapters.
    #[allow(non_snake_case)]
    #[verifier::allow_in_spec]
    pub fn V1() -> Self
        returns
            (RuntimeContract {
                version: RuntimeContractVersion::V1_1(),
                capabilities: RuntimeCapabilities::V1_1_REQUIRED(),
            }),
    {
        RuntimeContract {
            version: RuntimeContractVersion::V1_1(),
            capabilities: RuntimeCapabilities::V1_1_REQUIRED(),
        }
    }

    /// Runtime contract v1.2 with advisory task-capacity queries.
    #[allow(non_snake_case)]
    #[verifier::allow_in_spec]
    pub fn V1_2() -> Self
        returns
            (RuntimeContract {
                version: RuntimeContractVersion::V1_2(),
                capabilities: RuntimeCapabilities::V1_2_REQUIRED(),
            }),
    {
        RuntimeContract {
            version: RuntimeContractVersion::V1_2(),
            capabilities: RuntimeCapabilities::V1_2_REQUIRED(),
        }
    }

    /// Runtime contract v1.3 with owner-bound task reservations.
    #[allow(non_snake_case)]
    #[verifier::allow_in_spec]
    pub fn V1_3() -> Self
        returns
            (RuntimeContract {
                version: RuntimeContractVersion::V1_3(),
                capabilities: RuntimeCapabilities::V1_3_REQUIRED(),
            }),
    {
        RuntimeContract {
            version: RuntimeContractVersion::V1_3(),
            capabilities: RuntimeCapabilities::V1_3_REQUIRED(),
        }
    }

    /// Runtime contract v1.4 with owner-bound task-stack reservations.
    #[allow(non_snake_case)]
    #[verifier::allow_in_spec]
    pub fn V1_4() -> Self
        returns
            (RuntimeContract {
                version: RuntimeContractVersion::V1_4(),
                capabilities: RuntimeCapabilities::V1_4_REQUIRED(),
            }),
    {
        RuntimeContract {
            version: RuntimeContractVersion::V1_4(),
            capabilities: RuntimeCapabilities::V1_4_REQUIRED(),
        }
    }

    /// Returns whether this backend satisfies `required`.
    #[verifier::allow_in_spec]
    pub fn satisfies(self, required: Self) -> bool
        returns
            self.version.satisfies(required.version) && self.capabilities.contains(
                required.capabilities,
            ),
    {
        self.version.satisfies(required.version) && self.capabilities.contains(
            required.capabilities,
        )
    }
}

/// Scheduling modes a runtime can execute with its installed target support.
#[derive(Clone, Copy, Debug, PartialEq, Eq, Structural)]
pub struct RuntimeExecutionModes(u32);

impl RuntimeExecutionModes {
    /// The stable bit representation.
    pub closed spec fn spec_bits(self) -> u32 {
        self.0
    }

    /// The set with exactly these bits.
    pub closed spec fn spec_from_bits(bits: u32) -> Self {
        RuntimeExecutionModes(bits)
    }

    /// Building a set from bits reads back the same bits.
    pub broadcast proof fn lemma_bits(bits: u32)
        ensures
            #[trigger] Self::spec_from_bits(bits).spec_bits() == bits,
    {
    }

    /// Two sets with the same bits are equal.
    pub broadcast proof fn lemma_bits_determine(a: Self, b: Self)
        ensures
            #[trigger] a.spec_bits() == #[trigger] b.spec_bits() ==> a == b,
    {
    }

    /// No executable scheduling mode is available.
    #[allow(non_snake_case)]
    #[verifier::allow_in_spec]
    pub fn NONE() -> Self
        returns
            Self::spec_from_bits(0),
    {
        RuntimeExecutionModes(0)
    }

    /// Port-less cooperative scheduling at explicit scheduling points only.
    #[allow(non_snake_case)]
    #[verifier::allow_in_spec]
    pub fn PORTLESS_COOPERATIVE() -> Self
        returns
            Self::spec_from_bits(0x1),
    {
        RuntimeExecutionModes(0x1)
    }

    /// Cooperative tasks backed by timer/SWI switch delivery.
    #[allow(non_snake_case)]
    #[verifier::allow_in_spec]
    pub fn PORTED_COOPERATIVE() -> Self
        returns
            Self::spec_from_bits(0x2),
    {
        RuntimeExecutionModes(0x2)
    }

    /// Periodic CPU quota with timer-enforced throttling.
    #[allow(non_snake_case)]
    #[verifier::allow_in_spec]
    pub fn BUDGETED() -> Self
        returns
            Self::spec_from_bits(0x4),
    {
        RuntimeExecutionModes(0x4)
    }

    /// Priority preemption and equal-priority time slicing.
    #[allow(non_snake_case)]
    #[verifier::allow_in_spec]
    pub fn PREEMPTIVE() -> Self
        returns
            Self::spec_from_bits(0x8),
    {
        RuntimeExecutionModes(0x8)
    }

    /// Creates a mode set from its stable bit representation.
    #[verifier::allow_in_spec]
    pub fn from_bits(bits: u32) -> Self
        returns
            Self::spec_from_bits(bits),
    {
        RuntimeExecutionModes(bits)
    }

    /// Returns the stable bit representation.
    #[verifier::allow_in_spec]
    pub fn bits(self) -> u32
        returns
            self.spec_bits(),
    {
        self.0
    }

    /// Returns true when every required mode is implemented.
    #[verifier::allow_in_spec]
    pub fn contains(self, required: Self) -> bool
        returns
            self.spec_bits() & required.spec_bits() == required.spec_bits(),
    {
        self.0 & required.0 == required.0
    }
}

impl core::ops::BitOr for RuntimeExecutionModes {
    type Output = Self;

    fn bitor(self, rhs: Self) -> (r: Self) {
        RuntimeExecutionModes(self.0 | rhs.0)
    }
}

impl vstd::std_specs::ops::BitOrSpecImpl for RuntimeExecutionModes {
    open spec fn obeys_bitor_spec() -> bool {
        true
    }

    open spec fn bitor_req(self, rhs: Self) -> bool {
        true
    }

    open spec fn bitor_spec(self, rhs: Self) -> Self {
        RuntimeExecutionModes::spec_from_bits(self.spec_bits() | rhs.spec_bits())
    }
}

impl core::ops::BitOrAssign for RuntimeExecutionModes {
    fn bitor_assign(&mut self, rhs: Self)
        ensures
            final(self).spec_bits() == old(self).spec_bits() | rhs.spec_bits(),
    {
        self.0 = self.0 | rhs.0;
    }
}

/// Versioned scheduling guarantees offered by one installed runtime.
#[derive(Clone, Copy, Debug, PartialEq, Eq, Structural)]
pub struct RuntimeExecutionProfile {
    /// Profile schema revision. Revisions are compared exactly.
    pub revision: u16,
    /// Scheduling modes backed by the installed target resources.
    pub modes: RuntimeExecutionModes,
}

impl RuntimeExecutionProfile {
    /// Port-less runtime that can switch only at explicit cooperative points.
    #[allow(non_snake_case)]
    #[verifier::allow_in_spec]
    pub fn V1_PORTLESS_COOPERATIVE() -> Self
        returns
            (RuntimeExecutionProfile {
                revision: 1,
                modes: RuntimeExecutionModes::PORTLESS_COOPERATIVE(),
            }),
    {
        RuntimeExecutionProfile { revision: 1, modes: RuntimeExecutionModes::PORTLESS_COOPERATIVE() }
    }

    /// Runtime with timer and deferred-reschedule delivery installed.
    #[allow(non_snake_case)]
    #[verifier::allow_in_spec]
    pub fn V1_PORTED() -> Self
        returns
            (RuntimeExecutionProfile { revision: 1, modes: RuntimeExecutionModes::spec_from_bits(0xe) }),
    {
        RuntimeExecutionProfile { revision: 1, modes: RuntimeExecutionModes(0xe) }
    }

    /// Minimum profile required by the timer-backed radio compatibility path.
    #[allow(non_snake_case)]
    #[verifier::allow_in_spec]
    pub fn V1_PORTED_COOPERATIVE() -> Self
        returns
            (RuntimeExecutionProfile {
                revision: 1,
                modes: RuntimeExecutionModes::PORTED_COOPERATIVE(),
            }),
    {
        RuntimeExecutionProfile { revision: 1, modes: RuntimeExecutionModes::PORTED_COOPERATIVE() }
    }

    /// Returns whether this profile satisfies one adapter requirement.
    #[verifier::allow_in_spec]
    pub fn satisfies(self, required: Self) -> bool
        returns
            self.revision == required.revision && self.modes.contains(required.modes),
    {
        self.revision == required.revision && self.modes.contains(required.modes)
    }
}

/// Versioned semantic and execution requirements of one radio adapter.
#[derive(Clone, Copy, Debug, PartialEq, Eq, Structural)]
pub struct RuntimeRequirements {
    /// Required task and synchronization contract.
    pub contract: RuntimeContract,
    /// Required scheduling guarantees.
    pub execution_profile: RuntimeExecutionProfile,
}

impl RuntimeRequirements {
    /// Contract v1 with timer/SWI-backed cooperative execution.
    #[allow(non_snake_case)]
    #[verifier::allow_in_spec]
    pub fn V1_PORTED_COOPERATIVE() -> Self
        returns
            (RuntimeRequirements {
                contract: RuntimeContract::V1(),
                execution_profile: RuntimeExecutionProfile::V1_PORTED_COOPERATIVE(),
            }),
    {
        RuntimeRequirements {
            contract: RuntimeContract::V1(),
            execution_profile: RuntimeExecutionProfile::V1_PORTED_COOPERATIVE(),
        }
    }

    /// Contract v1.3 with atomic task reservation and ported cooperative execution.
    #[allow(non_snake_case)]
    #[verifier::allow_in_spec]
    pub fn V1_3_PORTED_COOPERATIVE() -> Self
        returns
            (RuntimeRequirements {
                contract: RuntimeContract::V1_3(),
                execution_profile: RuntimeExecutionProfile::V1_PORTED_COOPERATIVE(),
            }),
    {
        RuntimeRequirements {
            contract: RuntimeContract::V1_3(),
            execution_profile: RuntimeExecutionProfile::V1_PORTED_COOPERATIVE(),
        }
    }

    /// Contract v1.4 with atomic task-stack admission and ported cooperative execution.
    #[allow(non_snake_case)]
    #[verifier::allow_in_spec]
    pub fn V1_4_PORTED_COOPERATIVE() -> Self
        returns
            (RuntimeRequirements {
                contract: RuntimeContract::V1_4(),
                execution_profile: RuntimeExecutionProfile::V1_PORTED_COOPERATIVE(),
            }),
    {
        RuntimeRequirements {
            contract: RuntimeContract::V1_4(),
            execution_profile: RuntimeExecutionProfile::V1_PORTED_COOPERATIVE(),
        }
    }
}

/// Facts relating the contract types to their raw representations.
pub broadcast group group_contract_bits {
    InvalidTaskPriority::lemma_rejected,
    TaskPriority::lemma_raw,
    TaskPriority::lemma_raw_determines,
    RuntimeCapabilities::lemma_bits,
    RuntimeCapabilities::lemma_bits_determine,
    RuntimeExecutionModes::lemma_bits,
    RuntimeExecutionModes::lemma_bits_determine,
}

/// Version compatibility is a preorder: every version satisfies itself,
/// satisfaction composes, and versions of different major generations never
/// satisfy one another.
pub proof fn lemma_version_compatibility(
    a: RuntimeContractVersion,
    b: RuntimeContractVersion,
    c: RuntimeContractVersion,
)
    ensures
        a.satisfies(a),
        a.satisfies(b) && b.satisfies(c) ==> a.satisfies(c),
        a.major != b.major ==> !a.satisfies(b),
{
}

/// Capability containment is a preorder on bit sets: every set contains
/// itself and the empty set, containment composes, and a union contains both
/// of its operands.
pub proof fn lemma_capability_containment(
    a: RuntimeCapabilities,
    b: RuntimeCapabilities,
    c: RuntimeCapabilities,
)
    ensures
        a.contains(a),
        a.contains(RuntimeCapabilities::NONE()),
        a.contains(b) && b.contains(c) ==> a.contains(c),
        RuntimeCapabilities::from_bits(a.bits() | b.bits()).contains(a),
        RuntimeCapabilities::from_bits(a.bits() | b.bits()).contains(b),
{
    broadcast use group_contract_bits;

    let (x, y, z) = (a.spec_bits(), b.spec_bits(), c.spec_bits());
    assert(x & x == x) by (bit_vector);
    assert(x & 0u32 == 0u32) by (bit_vector);
    assert((x & y == y && y & z == z) ==> x & z == z) by (bit_vector);
    assert((x | y) & x == x) by (bit_vector);
    assert((x | y) & y == y) by (bit_vector);
}

/// Execution-mode containment is a preorder with the same shape as
/// capability containment.
pub proof fn lemma_mode_containment(
    a: RuntimeExecutionModes,
    b: RuntimeExecutionModes,
    c: RuntimeExecutionModes,
)
    ensures
        a.contains(a),
        a.contains(RuntimeExecutionModes::NONE()),
        a.contains(b) && b.contains(c) ==> a.contains(c),
        RuntimeExecutionModes::from_bits(a.bits() | b.bits()).contains(a),
        RuntimeExecutionModes::from_bits(a.bits() | b.bits()).contains(b),
{
    broadcast use group_contract_bits;

    let (x, y, z) = (a.spec_bits(), b.spec_bits(), c.spec_bits());
    assert(x & x == x) by (bit_vector);
    assert(x & 0u32 == 0u32) by (bit_vector);
    assert((x & y == y && y & z == z) ==> x & z == z) by (bit_vector);
    assert((x | y) & x == x) by (bit_vector);
    assert((x | y) & y == y) by (bit_vector);
}

/// Contract compatibility is a preorder: a backend satisfies its own
/// contract, and satisfaction composes through an intermediate contract.
pub proof fn lemma_contract_compatibility(a: RuntimeContract, b: RuntimeContract, c: RuntimeContract)
    ensures
        a.satisfies(a),
        a.satisfies(b) && b.satisfies(c) ==> a.satisfies(c),
        a.version.major != b.version.major ==> !a.satisfies(b),
{
    lemma_capability_containment(a.capabilities, b.capabilities, c.capabilities);
}

/// Execution-profile compatibility is a preorder, and profiles of different
/// revisions never satisfy one another.
pub proof fn lemma_profile_compatibility(
    a: RuntimeExecutionProfile,
    b: RuntimeExecutionProfile,
    c: RuntimeExecutionProfile,
)
    ensures
        a.satisfies(a),
        a.satisfies(b) && b.satisfies(c) ==> a.satisfies(c),
        a.revision != b.revision ==> !a.satisfies(b),
{
    lemma_mode_containment(a.modes, b.modes, c.modes);
}

/// Each contract revision satisfies every earlier one and none of the later
/// ones: revisions only ever add capabilities.
pub proof fn lemma_contract_revisions_are_cumulative()
    ensures
        RuntimeContract::V1().satisfies(RuntimeContract::V1_0()),
        RuntimeContract::V1_2().satisfies(RuntimeContract::V1()),
        RuntimeContract::V1_3().satisfies(RuntimeContract::V1_2()),
        RuntimeContract::V1_4().satisfies(RuntimeContract::V1_3()),
        !RuntimeContract::V1_0().satisfies(RuntimeContract::V1()),
        !RuntimeContract::V1().satisfies(RuntimeContract::V1_2()),
        !RuntimeContract::V1_2().satisfies(RuntimeContract::V1_3()),
        !RuntimeContract::V1_3().satisfies(RuntimeContract::V1_4()),
{
    broadcast use group_contract_bits;

    assert(0x7fu32 & 0x1fu32 == 0x1fu32) by (bit_vector);
    assert(0xffu32 & 0x7fu32 == 0x7fu32) by (bit_vector);
    assert(0x1ffu32 & 0xffu32 == 0xffu32) by (bit_vector);
    assert(0x3ffu32 & 0x1ffu32 == 0x1ffu32) by (bit_vector);
}

/// The ported profile provides ported cooperative execution, while the
/// port-less cooperative profile does not.
pub proof fn lemma_portless_is_not_ported()
    ensures
        RuntimeExecutionProfile::V1_PORTED().satisfies(
            RuntimeExecutionProfile::V1_PORTED_COOPERATIVE(),
        ),
        !RuntimeExecutionProfile::V1_PORTLESS_COOPERATIVE().satisfies(
            RuntimeExecutionProfile::V1_PORTED_COOPERATIVE(),
        ),
{
    broadcast use group_contract_bits;

    assert(0xeu32 & 0x2u32 == 0x2u32) by (bit_vector);
    assert(0x1u32 & 0x2u32 == 0u32) by (bit_vector);
}

/// `outranks` is a strict total order on valid priorities: irreflexive,
/// asymmetric, transitive and total on distinct priorities. The highest
/// priority outranks every other one and is outranked by none; the lowest
/// outranks none.
pub proof fn lemma_priority_order(p: TaskPriority, q: TaskPriority, r: TaskPriority)
    requires
        p.raw() < TASK_PRIORITY_LEVELS,
        q.raw() < TASK_PRIORITY_LEVELS,
        r.raw() < TASK_PRIORITY_LEVELS,
    ensures
        !p.outranks(p),
        p.outranks(q) ==> !q.outranks(p),
        p.outranks(q) && q.outranks(r) ==> p.outranks(r),
        p != q ==> (p.outranks(q) || q.outranks(p)),
        p != TaskPriority::HIGHEST() ==> TaskPriority::HIGHEST().outranks(p),
        !p.outranks(TaskPriority::HIGHEST()),
        !TaskPriority::LOWEST().outranks(p),
{
    broadcast use group_contract_bits;

}

} // verus!

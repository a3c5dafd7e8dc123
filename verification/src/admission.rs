//! Task admission: capacity snapshots, owner-bound reservations, per-owner
//! resource requirements and atomic multi-owner resource plans.
use vstd::prelude::*;

use crate::services::Error;

verus! {

/// Snapshot of dynamic task slots owned by the installed runtime.
///
/// This is a preflight observation, not a reservation. Another subsystem may
/// consume slots after the snapshot is returned. Race-free admission uses an
/// owner-bound reservation token consumed by corresponding spawn operations.
#[derive(Clone, Copy, Debug, PartialEq, Eq, Structural)]
pub struct TaskCapacity {
    dynamic_capacity: usize,
    dynamic_used: usize,
    dynamic_reserved: usize,
}

impl TaskCapacity {
    #[verifier::type_invariant]
    spec fn consistent(self) -> bool {
        &&& self.dynamic_used <= self.dynamic_capacity
        &&& self.dynamic_reserved <= self.dynamic_capacity - self.dynamic_used
    }

    /// Total number of dynamic slots in the runtime instance.
    pub closed spec fn total(self) -> usize {
        self.dynamic_capacity
    }

    /// Dynamic slots occupied by live tasks.
    pub closed spec fn used(self) -> usize {
        self.dynamic_used
    }

    /// Dynamic slots promised to live reservations but not yet consumed.
    pub closed spec fn reserved(self) -> usize {
        self.dynamic_reserved
    }

    /// Two snapshots with the same capacity, used and reserved slots are
    /// the same snapshot.
    pub broadcast proof fn lemma_fields_determine(a: Self, b: Self)
        ensures
            #[trigger] a.total() == #[trigger] b.total() && a.used() == b.used() && a.reserved()
                == b.reserved() ==> a == b,
    {
    }

    /// Dynamic slots neither occupied nor promised.
    pub open spec fn available(self) -> int {
        self.total() - self.used() - self.reserved()
    }

    /// Builds a valid capacity snapshot.
    pub fn new(dynamic_capacity: usize, dynamic_used: usize) -> (r: Option<Self>)
        ensures
            r is Some <==> dynamic_used <= dynamic_capacity,
            r matches Some(c) ==> c.total() == dynamic_capacity && c.used() == dynamic_used
                && c.reserved() == 0,
    {
        if dynamic_used <= dynamic_capacity {
            Some(TaskCapacity { dynamic_capacity, dynamic_used, dynamic_reserved: 0 })
        } else {
            None
        }
    }

    /// Builds a snapshot that also accounts for unconsumed reservations.
    pub fn new_with_reserved(
        dynamic_capacity: usize,
        dynamic_used: usize,
        dynamic_reserved: usize,
    ) -> (r: Option<Self>)
        ensures
            r is Some <==> dynamic_used <= dynamic_capacity && dynamic_reserved <= dynamic_capacity
                - dynamic_used,
            r matches Some(c) ==> c.total() == dynamic_capacity && c.used() == dynamic_used
                && c.reserved() == dynamic_reserved,
    {
        if dynamic_used <= dynamic_capacity && dynamic_reserved <= dynamic_capacity - dynamic_used {
            Some(TaskCapacity { dynamic_capacity, dynamic_used, dynamic_reserved })
        } else {
            None
        }
    }

    /// Total number of dynamic slots in this runtime instance.
    pub fn dynamic_capacity(self) -> (r: usize)
        ensures
            r == self.total(),
    {
        self.dynamic_capacity
    }

    /// Dynamic slots occupied by live tasks at snapshot time.
    pub fn dynamic_used(self) -> (r: usize)
        ensures
            r == self.used(),
            r <= self.total(),
    {
        proof {
            use_type_invariant(&self);
        }
        self.dynamic_used
    }

    /// Dynamic slots promised to live reservation tokens but not yet consumed.
    pub fn dynamic_reserved(self) -> (r: usize)
        ensures
            r == self.reserved(),
            self.used() + r <= self.total(),
    {
        proof {
            use_type_invariant(&self);
        }
        self.dynamic_reserved
    }

    /// Dynamic slots available at snapshot time. Available, used and reserved
    /// slots always add up to the capacity.
    pub fn dynamic_available(self) -> (r: usize)
        ensures
            r == self.available(),
            r + self.used() + self.reserved() == self.total(),
    {
        proof {
            use_type_invariant(&self);
        }
        self.dynamic_capacity - self.dynamic_used - self.dynamic_reserved
    }
}

/// Opaque owner-bound reservation for dynamic task slots.
///
/// The token is intentionally not `Copy` or `Clone`. A runtime validates its
/// generation on every operation; releasing it invalidates subsequent spawns.
#[derive(Debug, PartialEq, Eq, Structural)]
pub struct TaskReservation(u32);

impl TaskReservation {
    #[verifier::type_invariant]
    spec fn non_zero(self) -> bool {
        self.0 != 0
    }

    /// The runtime-owned opaque identity.
    pub closed spec fn raw(self) -> u32 {
        self.0
    }

    /// Creates a token from a runtime-owned generation-bearing identity.
    ///
    /// `raw` must identify a live reservation owned by the implementing runtime.
    pub fn from_raw(raw: u32) -> (r: Self)
        requires
            raw != 0,
        ensures
            r.raw() == raw,
    {
        TaskReservation(raw)
    }

    /// Returns the runtime-owned opaque identity.
    pub fn into_raw(&self) -> (r: u32)
        ensures
            r == self.raw(),
            r != 0,
    {
        proof {
            use_type_invariant(self);
        }
        self.0
    }
}

/// Atomic task-slot and stack-memory requirements for one subsystem owner.
#[derive(Clone, Copy, Debug, PartialEq, Eq, Structural)]
pub struct TaskResourceRequirements {
    task_slots: usize,
    stack_bytes_per_task: usize,
}

impl TaskResourceRequirements {
    #[verifier::type_invariant]
    spec fn well_formed(self) -> bool {
        &&& self.task_slots != 0
        &&& self.stack_bytes_per_task != 0
        &&& self.task_slots * self.stack_bytes_per_task <= usize::MAX
    }

    /// Dynamic task slots required by the owner.
    pub closed spec fn slots(self) -> usize {
        self.task_slots
    }

    /// Stack bytes reserved for each task.
    pub closed spec fn bytes_per_task(self) -> usize {
        self.stack_bytes_per_task
    }

    /// Total task-stack bytes reserved by this request.
    pub open spec fn total_bytes(self) -> int {
        self.slots() * self.bytes_per_task()
    }

    /// Construct a checked task-resource request. It exists exactly when the
    /// total stack size fits in a `usize`.
    pub fn new(task_slots: usize, stack_bytes_per_task: usize) -> (r: Option<Self>)
        requires
            task_slots != 0,
            stack_bytes_per_task != 0,
        ensures
            r is Some <==> task_slots * stack_bytes_per_task <= usize::MAX,
            r matches Some(q) ==> q.slots() == task_slots && q.bytes_per_task()
                == stack_bytes_per_task,
    {
        if task_slots.checked_mul(stack_bytes_per_task).is_none() {
            return None;
        }
        Some(TaskResourceRequirements { task_slots, stack_bytes_per_task })
    }

    /// Dynamic task slots required by the owner.
    pub fn task_slots(self) -> (r: usize)
        ensures
            r == self.slots(),
            r != 0,
    {
        proof {
            use_type_invariant(&self);
        }
        self.task_slots
    }

    /// Stack bytes reserved for each task.
    pub fn stack_bytes_per_task(self) -> (r: usize)
        ensures
            r == self.bytes_per_task(),
            r != 0,
    {
        proof {
            use_type_invariant(&self);
        }
        self.stack_bytes_per_task
    }

    /// Total task-stack bytes reserved by this request.
    pub fn total_stack_bytes(self) -> (r: usize)
        ensures
            r == self.total_bytes(),
    {
        proof {
            use_type_invariant(&self);
        }
        self.task_slots * self.stack_bytes_per_task
    }
}

/// Maximum number of independently owned task groups admitted atomically.
///
/// This is a contract bound, not a chip task limit. A composition with more
/// groups must aggregate adjacent owners before crossing the runtime boundary.
pub const TASK_RESOURCE_GROUP_CAPACITY: usize = 4;

/// Stable, runtime-opaque identity for one task-resource owner. Never zero.
#[derive(Clone, Copy, Debug, PartialEq, Eq, Structural)]
pub struct TaskResourceOwner(u32);

impl TaskResourceOwner {
    #[verifier::type_invariant]
    spec fn non_zero(self) -> bool {
        self.0 != 0
    }

    /// The stable numeric identity.
    pub closed spec fn raw(self) -> u32 {
        self.0
    }

    /// Two values with the same raw number are equal.
    pub broadcast proof fn lemma_raw_determines(a: Self, b: Self)
        ensures
            #[trigger] a.raw() == #[trigger] b.raw() ==> a == b,
    {
    }

    /// Construct an owner identity from a composition-defined non-zero value.
    pub fn new(raw: u32) -> (r: Self)
        requires
            raw != 0,
        ensures
            r.raw() == raw,
    {
        TaskResourceOwner(raw)
    }

    /// Return the stable numeric identity used in diagnostics and reports.
    pub fn into_raw(self) -> (r: u32)
        ensures
            r == self.raw(),
            r != 0,
    {
        proof {
            use_type_invariant(&self);
        }
        self.0
    }
}

/// One independently owned task group within an atomic resource plan.
#[derive(Clone, Copy, Debug, PartialEq, Eq, Structural)]
pub struct TaskResourceGroupRequirements {
    owner: TaskResourceOwner,
    resources: TaskResourceRequirements,
}

impl TaskResourceGroupRequirements {
    /// Owner receiving the resulting reservation token.
    pub closed spec fn spec_owner(self) -> TaskResourceOwner {
        self.owner
    }

    /// Slot and stack requirements for this group.
    pub closed spec fn spec_resources(self) -> TaskResourceRequirements {
        self.resources
    }

    /// Bind one uniform-stack task group to its owner identity.
    pub fn new(owner: TaskResourceOwner, resources: TaskResourceRequirements) -> (r: Self)
        ensures
            r.spec_owner() == owner,
            r.spec_resources() == resources,
    {
        TaskResourceGroupRequirements { owner, resources }
    }

    /// Owner receiving the resulting reservation token.
    pub fn owner(self) -> (r: TaskResourceOwner)
        ensures
            r == self.spec_owner(),
    {
        self.owner
    }

    /// Slot and stack requirements for this group.
    pub fn resources(self) -> (r: TaskResourceRequirements)
        ensures
            r == self.spec_resources(),
    {
        self.resources
    }
}

/// Dynamic slots requested by all groups of a plan.
pub open spec fn plan_slots(groups: Seq<TaskResourceGroupRequirements>) -> int
    decreases groups.len(),
{
    if groups.len() == 0 {
        0
    } else {
        plan_slots(groups.drop_last()) + groups.last().spec_resources().slots()
    }
}

/// Task-stack bytes requested by all groups of a plan.
pub open spec fn plan_stack_bytes(groups: Seq<TaskResourceGroupRequirements>) -> int
    decreases groups.len(),
{
    if groups.len() == 0 {
        0
    } else {
        plan_stack_bytes(groups.drop_last()) + groups.last().spec_resources().total_bytes()
    }
}

/// No two groups of a plan share an owner.
pub open spec fn owners_distinct(groups: Seq<TaskResourceGroupRequirements>) -> bool {
    forall|i: int, j: int|
        0 <= i < j < groups.len() ==> #[trigger] groups[i].spec_owner()
            != #[trigger] groups[j].spec_owner()
}

/// A plan is admissible when it has between one and
/// [`TASK_RESOURCE_GROUP_CAPACITY`] groups, distinct owners, and totals that
/// fit in a `usize`.
pub open spec fn plan_admissible(groups: Seq<TaskResourceGroupRequirements>) -> bool {
    &&& 1 <= groups.len() <= TASK_RESOURCE_GROUP_CAPACITY
    &&& owners_distinct(groups)
    &&& plan_slots(groups) <= usize::MAX
    &&& plan_stack_bytes(groups) <= usize::MAX
}

/// A plan's totals add up over its groups: an empty list of groups asks for
/// nothing, and appending a group adds its slots and its slots times its
/// stack size to the totals.
pub proof fn lemma_plan_totals_push(
    groups: Seq<TaskResourceGroupRequirements>,
    group: TaskResourceGroupRequirements,
)
    ensures
        plan_slots(Seq::<TaskResourceGroupRequirements>::empty()) == 0,
        plan_stack_bytes(Seq::<TaskResourceGroupRequirements>::empty()) == 0,
        plan_slots(groups.push(group)) == plan_slots(groups) + group.spec_resources().slots(),
        plan_stack_bytes(groups.push(group)) == plan_stack_bytes(groups)
            + group.spec_resources().slots() * group.spec_resources().bytes_per_task(),
{
    assert(groups.push(group).drop_last() =~= groups);
    assert(groups.push(group).last() == group);
}

/// Every two groups of an admissible plan belong to different owners,
/// whether they stand next to each other or not.
pub proof fn lemma_admissible_owners_pairwise_distinct(
    groups: Seq<TaskResourceGroupRequirements>,
    i: int,
    j: int,
)
    requires
        plan_admissible(groups),
        0 <= i < j < groups.len(),
    ensures
        groups[i].spec_owner() != groups[j].spec_owner(),
{
}

/// An owner that comes back after another group's owner makes a plan
/// inadmissible, whatever the groups ask for.
pub proof fn lemma_returning_owner_refused(
    first: TaskResourceGroupRequirements,
    other: TaskResourceGroupRequirements,
)
    ensures
        !plan_admissible(seq![first, other, first]),
{
    let groups = seq![first, other, first];
    assert(groups[0].spec_owner() == groups[2].spec_owner());
}

proof fn lemma_plan_sums_grow(groups: Seq<TaskResourceGroupRequirements>, k: int)
    requires
        0 <= k <= groups.len(),
    ensures
        0 <= plan_slots(groups.take(k)) <= plan_slots(groups),
        0 <= plan_stack_bytes(groups.take(k)) <= plan_stack_bytes(groups),
    decreases groups.len(),
{
    if k == groups.len() {
        assert(groups.take(k) =~= groups);
        lemma_plan_sums_nonnegative(groups);
    } else {
        let shorter = groups.drop_last();
        assert(groups.take(k) =~= shorter.take(k));
        lemma_plan_sums_grow(shorter, k);
        broadcast use vstd::arithmetic::mul::group_mul_properties;
    }
}

proof fn lemma_plan_sums_nonnegative(groups: Seq<TaskResourceGroupRequirements>)
    ensures
        0 <= plan_slots(groups),
        0 <= plan_stack_bytes(groups),
    decreases groups.len(),
{
    if groups.len() != 0 {
        lemma_plan_sums_nonnegative(groups.drop_last());
        broadcast use vstd::arithmetic::mul::group_mul_properties;
    }
}

/// Checked, heterogeneous task-resource plan admitted as one transaction.
#[derive(Clone, Copy, Debug, PartialEq, Eq)]
pub struct TaskResourcePlan<'a> {
    groups: &'a [TaskResourceGroupRequirements],
    total_task_slots: usize,
    total_stack_bytes: usize,
}

impl<'a> TaskResourcePlan<'a> {
    #[verifier::type_invariant]
    spec fn consistent(self) -> bool {
        &&& plan_admissible(self.groups@)
        &&& self.total_task_slots == plan_slots(self.groups@)
        &&& self.total_stack_bytes == plan_stack_bytes(self.groups@)
    }

    /// Ordered owner groups.
    pub closed spec fn spec_groups(self) -> Seq<TaskResourceGroupRequirements> {
        self.groups@
    }

    /// Validate group count, owner uniqueness, and checked totals.
    pub fn new(groups: &'a [TaskResourceGroupRequirements]) -> (r: Option<Self>)
        ensures
            r is Some <==> plan_admissible(groups@),
            r matches Some(plan) ==> plan.spec_groups() == groups@,
            r is Some ==> 1 <= groups@.len() <= TASK_RESOURCE_GROUP_CAPACITY,
            r is Some ==> forall|i: int, j: int|
                0 <= i < j < groups@.len() ==> groups@[i].spec_owner() != groups@[j].spec_owner(),
    {
        if groups.len() == 0 || groups.len() > TASK_RESOURCE_GROUP_CAPACITY {
            return None;
        }
        let mut total_task_slots: usize = 0;
        let mut total_stack_bytes: usize = 0;
        let mut index: usize = 0;
        while index < groups.len()
            invariant
                1 <= groups@.len() <= TASK_RESOURCE_GROUP_CAPACITY,
                index <= groups@.len(),
                total_task_slots == plan_slots(groups@.take(index as int)),
                total_stack_bytes == plan_stack_bytes(groups@.take(index as int)),
                owners_distinct(groups@.take(index as int)),
            decreases groups@.len() - index,
        {
            let group = groups[index];
            let mut previous: usize = 0;
            while previous < index
                invariant
                    previous <= index < groups@.len(),
                    group == groups@[index as int],
                    forall|k: int|
                        0 <= k < previous ==> #[trigger] groups@[k].spec_owner()
                            != group.spec_owner(),
                decreases index - previous,
            {
                if groups[previous].owner.into_raw() == group.owner.into_raw() {
                    proof {
                        TaskResourceOwner::lemma_raw_determines(
                            groups@[previous as int].spec_owner(),
                            group.spec_owner(),
                        );
                        assert(groups@[previous as int].spec_owner() == groups@[index as int].spec_owner());
                    }
                    return None;
                }
                previous += 1;
            }
            let ghost prefix = groups@.take(index as int);
            let ghost extended = groups@.take(index + 1);
            assert(extended.drop_last() =~= prefix);
            assert(extended.last() == group);
            proof {
                lemma_plan_sums_grow(groups@, index + 1);
                assert(groups@.take(groups@.len() as int) =~= groups@);
            }
            total_task_slots = match total_task_slots.checked_add(group.resources.task_slots()) {
                Some(value) => value,
                None => {
                    return None;
                },
            };
            total_stack_bytes = match total_stack_bytes.checked_add(
                group.resources.total_stack_bytes(),
            ) {
                Some(value) => value,
                None => {
                    return None;
                },
            };
            assert forall|i: int, j: int| 0 <= i < j < extended.len() implies #[trigger] extended[i].spec_owner()
                != #[trigger] extended[j].spec_owner() by {
                if j < index {
                    assert(extended[i] == prefix[i]);
                    assert(extended[j] == prefix[j]);
                }
            }
            index += 1;
        }
        assert(groups@.take(index as int) =~= groups@);
        Some(TaskResourcePlan { groups, total_task_slots, total_stack_bytes })
    }

    /// Ordered owner groups. Reservation results use this same order.
    pub fn groups(self) -> (r: &'a [TaskResourceGroupRequirements])
        ensures
            r@ == self.spec_groups(),
            plan_admissible(r@),
    {
        proof {
            use_type_invariant(&self);
        }
        self.groups
    }

    /// Total dynamic slots derived from all child groups.
    pub fn total_task_slots(self) -> (r: usize)
        ensures
            r == plan_slots(self.spec_groups()),
    {
        proof {
            use_type_invariant(&self);
        }
        self.total_task_slots
    }

    /// Total task-stack payload derived from all child groups.
    pub fn total_stack_bytes(self) -> (r: usize)
        ensures
            r == plan_stack_bytes(self.spec_groups()),
    {
        proof {
            use_type_invariant(&self);
        }
        self.total_stack_bytes
    }
}

/// Number of populated entries in a sequence of reservations.
pub open spec fn live_reservations(entries: Seq<Option<TaskReservation>>) -> nat
    decreases entries.len(),
{
    if entries.len() == 0 {
        0
    } else {
        live_reservations(entries.drop_last()) + if entries.last() is Some {
            1nat
        } else {
            0nat
        }
    }
}

/// Owner-bound reservations returned by one atomic resource-plan admission.
#[derive(Debug)]
pub struct TaskReservationBatch {
    reservations: [Option<TaskReservation>; 4],
    len: usize,
}

impl TaskReservationBatch {
    #[verifier::type_invariant]
    spec fn consistent(self) -> bool {
        &&& self.len <= TASK_RESOURCE_GROUP_CAPACITY
        &&& forall|i: int| self.len <= i < 4 ==> #[trigger] self.reservations@[i] is None
    }

    /// Child reservations in plan order; removed children read as `None`.
    pub closed spec fn entries(self) -> Seq<Option<TaskReservation>> {
        self.reservations@
    }

    /// Number of children the batch was created with.
    pub closed spec fn children(self) -> usize {
        self.len
    }

    /// A batch always has one slot per group a plan may hold.
    pub broadcast proof fn lemma_entries_len(batch: Self)
        ensures
            #[trigger] batch.entries().len() == TASK_RESOURCE_GROUP_CAPACITY,
    {
        vstd::array::array_len_matches_n(&batch.reservations);
    }

    /// Construct a batch from runtime-owned reservation identities.
    ///
    /// Every populated entry must be a distinct live reservation created by
    /// the implementing runtime, and `len` must cover exactly those entries.
    pub fn from_reservations(reservations: [Option<TaskReservation>; 4], len: usize) -> (r: Self)
        requires
            len <= TASK_RESOURCE_GROUP_CAPACITY,
            forall|i: int| 0 <= i < len ==> #[trigger] reservations@[i] is Some,
            forall|i: int| len <= i < 4 ==> #[trigger] reservations@[i] is None,
        ensures
            r.entries() == reservations@,
            r.children() == len,
    {
        TaskReservationBatch { reservations, len }
    }

    /// Number of child reservations in plan order.
    pub fn len(&self) -> (r: usize)
        ensures
            r == self.children(),
            r <= TASK_RESOURCE_GROUP_CAPACITY,
    {
        proof {
            use_type_invariant(self);
        }
        self.len
    }

    /// Whether the batch contains no child reservation.
    pub fn is_empty(&self) -> (r: bool)
        ensures
            r == (self.children() == 0),
    {
        self.len == 0
    }

    /// Remove one child reservation by its plan-order index.
    pub fn take(&mut self, index: usize) -> (r: Option<TaskReservation>)
        ensures
            final(self).children() == old(self).children(),
            index < 4 ==> r == old(self).entries()[index as int] && final(self).entries()
                == old(self).entries().update(index as int, None),
            index >= 4 ==> r is None && final(self).entries() == old(self).entries(),
    {
        proof {
            use_type_invariant(&*self);
        }
        if index < 4 {
            let mut taken = None;
            core::mem::swap(&mut taken, &mut self.reservations[index]);
            taken
        } else {
            None
        }
    }

    /// Number of reservations not yet removed from this batch.
    pub fn remaining(&self) -> (r: usize)
        ensures
            r == live_reservations(self.entries().take(self.children() as int)),
    {
        proof {
            use_type_invariant(self);
        }
        let mut count: usize = 0;
        let mut index: usize = 0;
        while index < self.len
            invariant
                index <= self.len <= 4,
                count == live_reservations(self.reservations@.take(index as int)),
                count <= index,
            decreases self.len - index,
        {
            assert(self.reservations@.take(index + 1).drop_last() =~= self.reservations@.take(
                index as int,
            ));
            if self.reservations[index].is_some() {
                count += 1;
            }
            index += 1;
        }
        count
    }
}

proof fn lemma_live_update(entries: Seq<Option<TaskReservation>>, index: int)
    requires
        0 <= index < entries.len(),
    ensures
        live_reservations(entries.update(index, None)) + (if entries[index] is Some {
            1nat
        } else {
            0nat
        }) == live_reservations(entries),
    decreases entries.len(),
{
    let updated = entries.update(index, None);
    if index == entries.len() - 1 {
        assert(updated.drop_last() =~= entries.drop_last());
    } else {
        assert(updated.drop_last() =~= entries.drop_last().update(index, None));
        lemma_live_update(entries.drop_last(), index);
    }
}

/// Taking a child out of a batch transfers it exactly once: the taken index
/// reads as empty afterwards, so a second `take` yields `None`; the number
/// of remaining reservations drops by one exactly when a child reservation
/// was present, and clearing a slot past the children leaves it unchanged.
pub proof fn lemma_take_transfers_once(
    entries: Seq<Option<TaskReservation>>,
    children: int,
    index: int,
)
    requires
        0 <= index < entries.len(),
        0 <= children <= entries.len(),
    ensures
        entries.update(index, None)[index] is None,
        index < children ==> live_reservations(entries.update(index, None).take(children)) + (
        if entries[index] is Some {
            1nat
        } else {
            0nat
        }) == live_reservations(entries.take(children)),
        index >= children ==> live_reservations(entries.update(index, None).take(children))
            == live_reservations(entries.take(children)),
{
    if index < children {
        assert(entries.update(index, None).take(children) =~= entries.take(children).update(
            index,
            None,
        ));
        lemma_live_update(entries.take(children), index);
    } else {
        assert(entries.update(index, None).take(children) =~= entries.take(children));
    }
}

/// `batch` is the admission of `plan`: one child per group of the plan, in
/// plan order, each one a live reservation.
pub open spec fn batch_admits_plan(batch: TaskReservationBatch, plan: TaskResourcePlan) -> bool {
    &&& batch.children() == plan.spec_groups().len()
    &&& forall|i: int| 0 <= i < batch.children() ==> #[trigger] batch.entries()[i] is Some
}

/// Facts relating admission types to their fields.
pub broadcast group group_admission_facts {
    TaskCapacity::lemma_fields_determine,
    TaskResourceOwner::lemma_raw_determines,
    TaskReservationBatch::lemma_entries_len,
}

/// Failure to satisfy task-resource admission.
#[derive(Clone, Copy, Debug, PartialEq, Eq, Structural)]
pub enum TaskAdmissionError {
    /// Runtime discovery or capacity reporting failed.
    Runtime(Error),
    /// The snapshot did not contain enough free dynamic slots.
    InsufficientTaskSlots {
        /// Slots required by the selected radio profile.
        required: usize,
        /// Slots free when the snapshot was taken.
        available: usize,
    },
    /// The runtime could not reserve every requested task stack.
    InsufficientTaskStackMemory {
        /// Total stack bytes required by the selected profile.
        required: usize,
        /// Bytes successfully reserved before allocation failed.
        available: usize,
    },
    /// One child group could not reserve all of its task slots.
    InsufficientTaskGroupSlots {
        /// Composition-defined owner of the failing group.
        owner: TaskResourceOwner,
        /// Slots required by this child group.
        required: usize,
        /// Slots available to the complete atomic transaction.
        available: usize,
    },
    /// One child group could not reserve every requested stack.
    InsufficientTaskGroupStackMemory {
        /// Composition-defined owner of the failing group.
        owner: TaskResourceOwner,
        /// Stack bytes required by this child group.
        required: usize,
        /// Stack payload successfully allocated before rollback.
        available: usize,
        /// Largest payload allocation possible at the failure point.
        largest_contiguous: usize,
    },
}

} // verus!

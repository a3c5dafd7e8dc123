use hisi_rf_rtos_driver::{
    TaskBudget, TaskCapacity, TaskReservation, TaskReservationBatch,
    TaskResourceGroupRequirements, TaskResourceOwner, TaskResourcePlan,
    TaskResourceRequirements, TASK_RESOURCE_GROUP_CAPACITY,
};

#[test]
fn task_capacity_rejects_invalid_snapshots() {
    assert_eq!(TaskCapacity::new(2, 3), None);
    let empty = TaskCapacity::new(0, 0).unwrap();
    assert_eq!(empty.dynamic_available(), 0);
    let reserved = TaskCapacity::new_with_reserved(15, 2, 5).unwrap();
    assert_eq!(reserved.dynamic_reserved(), 5);
    assert_eq!(reserved.dynamic_available(), 8);
    assert_eq!(TaskCapacity::new_with_reserved(15, 12, 4), None);
}

#[test]
fn task_budget_rejects_capacity_larger_than_period() {
    let ten = 10;
    let twenty = 20;
    let budget = TaskBudget::try_new(ten, twenty).unwrap();
    assert_eq!(budget.capacity_ms(), ten);
    assert_eq!(budget.replenishment_period_ms(), twenty);
    assert_eq!(TaskBudget::try_new(twenty, ten), None);
}

#[test]
fn task_resource_requirements_reject_overflow_and_report_exact_bytes() {
    let requirements = TaskResourceRequirements::new(6, 24 * 1024).unwrap();
    assert_eq!(requirements.task_slots(), 6);
    assert_eq!(requirements.stack_bytes_per_task(), 24 * 1024);
    assert_eq!(requirements.total_stack_bytes(), 144 * 1024);
    assert_eq!(TaskResourceRequirements::new(usize::MAX, 2), None);
}

#[test]
fn heterogeneous_resource_plan_derives_totals_and_rejects_bad_shapes() {
    let vendor = TaskResourceGroupRequirements::new(
        TaskResourceOwner::new(1),
        TaskResourceRequirements::new(7, 24 * 1024).unwrap(),
    );
    let worker = TaskResourceGroupRequirements::new(
        TaskResourceOwner::new(2),
        TaskResourceRequirements::new(1, 8 * 1024).unwrap(),
    );
    let groups = [vendor, worker];
    let plan = TaskResourcePlan::new(&groups).unwrap();
    assert_eq!(plan.total_task_slots(), 8);
    assert_eq!(plan.total_stack_bytes(), 7 * 24 * 1024 + 8 * 1024);
    assert_eq!(plan.groups(), &groups);

    assert_eq!(TaskResourcePlan::new(&[]), None);
    assert_eq!(TaskResourcePlan::new(&[vendor, vendor]), None);
    assert_eq!(
        TaskResourcePlan::new(&[vendor, worker, vendor, worker, vendor]),
        None
    );
}

#[test]
fn reservation_batch_transfers_each_child_once() {
    let first = TaskReservation::from_raw(0x101);
    let second = TaskReservation::from_raw(0x102);
    let mut reservations = [const { None }; TASK_RESOURCE_GROUP_CAPACITY];
    reservations[0] = Some(first);
    reservations[1] = Some(second);
    let mut batch = TaskReservationBatch::from_reservations(reservations, 2);
    assert_eq!(batch.len(), 2);
    assert_eq!(batch.remaining(), 2);
    assert_eq!(batch.take(0).unwrap().into_raw(), 0x101);
    assert_eq!(batch.remaining(), 1);
    assert!(batch.take(0).is_none());
    assert_eq!(batch.take(1).unwrap().into_raw(), 0x102);
    assert_eq!(batch.remaining(), 0);
}

#[test]
fn capacity_snapshot_accounts_for_every_slot() {
    let snapshot = TaskCapacity::new_with_reserved(15, 2, 13).unwrap();
    assert_eq!(snapshot.dynamic_capacity(), 15);
    assert_eq!(snapshot.dynamic_used(), 2);
    assert_eq!(snapshot.dynamic_available(), 0);
    assert_eq!(
        snapshot.dynamic_available() + snapshot.dynamic_used() + snapshot.dynamic_reserved(),
        snapshot.dynamic_capacity()
    );
    assert_eq!(TaskCapacity::new(3, 3).unwrap().dynamic_available(), 0);
    assert_eq!(TaskCapacity::new_with_reserved(15, 2, 14), None);
    assert_eq!(TaskCapacity::new(usize::MAX, 0).unwrap().dynamic_available(), usize::MAX);
}

#[test]
fn resource_requirements_accept_the_largest_fitting_product() {
    let half = usize::MAX / 2;
    let exact = TaskResourceRequirements::new(half, 2).unwrap();
    assert_eq!(exact.total_stack_bytes(), half * 2);
    assert_eq!(TaskResourceRequirements::new(half + 1, 2), None);
    assert_eq!(TaskResourceRequirements::new(1, usize::MAX).unwrap().total_stack_bytes(), usize::MAX);
    let budget = TaskBudget::try_new(7, 7).unwrap();
    assert_eq!(budget.capacity_ms(), budget.replenishment_period_ms());
}

#[test]
fn resource_plan_rejects_overflowing_totals_and_accepts_capacity() {
    let owner = |raw| TaskResourceOwner::new(raw);
    let huge = TaskResourceRequirements::new(usize::MAX / 2 + 1, 1).unwrap();
    let overflow = [
        TaskResourceGroupRequirements::new(owner(1), huge),
        TaskResourceGroupRequirements::new(owner(2), huge),
    ];
    assert_eq!(TaskResourcePlan::new(&overflow), None);

    let one = TaskResourceRequirements::new(1, 1024).unwrap();
    let full: [TaskResourceGroupRequirements; TASK_RESOURCE_GROUP_CAPACITY] = [
        TaskResourceGroupRequirements::new(owner(1), one),
        TaskResourceGroupRequirements::new(owner(2), one),
        TaskResourceGroupRequirements::new(owner(3), one),
        TaskResourceGroupRequirements::new(owner(4), one),
    ];
    let plan = TaskResourcePlan::new(&full).unwrap();
    assert_eq!(plan.total_task_slots(), 4);
    assert_eq!(plan.total_stack_bytes(), 4096);
    assert_eq!(plan.groups()[2].owner().into_raw(), 3);
    assert_eq!(plan.groups()[3].resources(), one);
}

#[test]
fn batch_take_beyond_capacity_is_empty() {
    let mut reservations = [const { None }; TASK_RESOURCE_GROUP_CAPACITY];
    reservations[0] = Some(TaskReservation::from_raw(9));
    let mut batch = TaskReservationBatch::from_reservations(reservations, 1);
    assert!(!batch.is_empty());
    assert!(batch.take(7).is_none());
    assert!(batch.take(3).is_none());
    assert_eq!(batch.remaining(), 1);
    let empty = TaskReservationBatch::from_reservations([const { None }; 4], 0);
    assert!(empty.is_empty());
    assert_eq!(empty.remaining(), 0);
}

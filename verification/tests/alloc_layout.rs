use woi::future::ReadyFuture;
use woi::layout::{FieldLayout, TaskLayout};
use woi::raw::RawTask;
use woi::sched::NoopScheduler;

#[test]
fn layout_compute_exact_offsets() {
    let header = FieldLayout { size: 10, align: 4 };
    let schedule = FieldLayout { size: 8, align: 8 };
    let status = FieldLayout { size: 5, align: 2 };
    let l = TaskLayout::compute(header, schedule, status).unwrap();
    // 10 rounded up to 8 is 16; 16 + 8 = 24 is already 2-aligned; 24 + 5 = 29.
    assert_eq!(l.offset_schedule, 16);
    assert_eq!(l.offset_status, 24);
    assert_eq!(l.size, 29);
    assert_eq!(l.align, 8);
}

#[test]
fn layout_zero_sized_fields_collapse() {
    let header = FieldLayout { size: 16, align: 8 };
    let schedule = FieldLayout { size: 0, align: 1 };
    let status = FieldLayout { size: 0, align: 1 };
    let l = TaskLayout::compute(header, schedule, status).unwrap();
    assert_eq!(l.offset_schedule, 16);
    assert_eq!(l.offset_status, 16);
    assert_eq!(l.size, 16);
    assert_eq!(l.align, 8);
}

#[test]
fn layout_overflow_is_rejected() {
    let huge = FieldLayout { size: isize::MAX as usize, align: 1 };
    assert_eq!(TaskLayout::compute(huge, huge, huge), None);
}

#[test]
fn layout_same_fields_same_result() {
    let header = FieldLayout { size: 24, align: 8 };
    let schedule = FieldLayout { size: 12, align: 4 };
    let status = FieldLayout { size: 40, align: 16 };
    let a = TaskLayout::compute(header, schedule, status);
    let b = TaskLayout::compute(header, schedule, status);
    assert_eq!(a, b);
    assert!(a.is_some());
}

#[test]
fn layout_of_instantiation_is_deterministic() {
    type T = RawTask<ReadyFuture<u64>, NoopScheduler>;
    let a = T::layout();
    let b = T::layout();
    assert_eq!(a, b);
    let l = a.unwrap();
    assert!(l.offset_schedule <= l.offset_status);
    assert!(l.offset_status <= l.size);
    assert!(l.align >= 1);
    assert!(l.align.is_power_of_two());
    assert!(l.align >= core::mem::align_of::<woi::header::Header>());
}

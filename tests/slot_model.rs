use ecmascript_atomics::RacyBox;
use ecmascript_futex::condvar_table::{notify_all, notify_many, wait};
use ecmascript_futex::native::{
    futex_wait_outcome, futex_wake_count, futex_woken, wasm_timeout_nanos, wasm_wait_outcome,
    WaitErrnos,
};
use ecmascript_futex::slot::{entry_for_ptr, Wake, WaitMetadata};
use ecmascript_futex::{Cell64, ECMAScriptAtomicWait, FutexError, WaitTable};
use std::time::Duration;

#[test]
fn slot_index_folds_address_bits() {
    assert_eq!(entry_for_ptr(0), 0);
    assert_eq!(entry_for_ptr(0x100), 65);
    assert_eq!(entry_for_ptr(0xff), 63);
    assert_eq!(entry_for_ptr(0x7ffd_1234_5678), 215);
    assert_eq!(entry_for_ptr(0xdead_beef), 112);
}

#[test]
fn slot_index_collides_for_mirrored_halves() {
    assert_eq!(entry_for_ptr(0x1234_5678_9abc_def0), 0);
}

#[test]
fn fresh_slot_is_empty_and_mixed() {
    let m = WaitMetadata::new();
    assert_eq!(m.waiting_count, 0);
    assert_eq!(m.address, None);
}

#[test]
fn first_waiter_sets_tracked_address() {
    let mut m = WaitMetadata::new();
    m.register(0x1000);
    assert_eq!(m, WaitMetadata { address: Some(0x1000), waiting_count: 1 });
    m.register(0x1000);
    assert_eq!(m, WaitMetadata { address: Some(0x1000), waiting_count: 2 });
}

#[test]
fn second_address_marks_slot_mixed_until_empty() {
    let mut m = WaitMetadata::new();
    m.register(0x1000);
    m.register(0x2000);
    assert_eq!(m, WaitMetadata { address: None, waiting_count: 2 });
    m.register(0x1000);
    assert_eq!(m.address, None);
    m.unregister();
    m.unregister();
    m.unregister();
    assert_eq!(m.waiting_count, 0);
    m.register(0x3000);
    assert_eq!(m, WaitMetadata { address: Some(0x3000), waiting_count: 1 });
}

#[test]
fn notify_plans_on_idle_slot() {
    let m = WaitMetadata::new();
    assert_eq!(m.plan_notify_all(), (Wake::Nobody, 0));
    assert_eq!(m.plan_notify_many(1), (Wake::Nobody, 0));
    assert_eq!(m.plan_notify_many(usize::MAX), (Wake::Nobody, 0));
}

#[test]
fn notify_all_plan_reports_every_waiter() {
    let m = WaitMetadata { address: None, waiting_count: 7 };
    assert_eq!(m.plan_notify_all(), (Wake::Everyone, 7));
    let m = WaitMetadata { address: Some(0x40), waiting_count: 3 };
    assert_eq!(m.plan_notify_all(), (Wake::Everyone, 3));
}

#[test]
fn notify_many_plan_targets_tracked_waiters() {
    let m = WaitMetadata { address: Some(0x40), waiting_count: 5 };
    assert_eq!(m.plan_notify_many(2), (Wake::Count(2), 2));
    assert_eq!(m.plan_notify_many(4), (Wake::Count(4), 4));
}

#[test]
fn notify_many_plan_wakes_all_when_few_or_mixed() {
    let m = WaitMetadata { address: Some(0x40), waiting_count: 5 };
    assert_eq!(m.plan_notify_many(5), (Wake::Everyone, 5));
    assert_eq!(m.plan_notify_many(9), (Wake::Everyone, 5));
    let mixed = WaitMetadata { address: None, waiting_count: 5 };
    assert_eq!(mixed.plan_notify_many(1), (Wake::Everyone, 5));
}

#[test]
fn table_wait_false_condition_is_not_equal() {
    let table = WaitTable::new();
    assert_eq!(wait(&table, 0x1000, || false, None), Err(FutexError::NotEqual));
    assert_eq!(notify_all(&table, 0x1000), 0);
}

#[test]
fn table_wait_times_out_without_notifier() {
    let table = WaitTable::new();
    let r = wait(&table, 0x1000, || true, Some(Duration::from_millis(5)));
    assert_eq!(r, Err(FutexError::Timeout));
    assert_eq!(notify_many(&table, 0x1000, 3), 0);
}

#[test]
fn table_notify_on_null_address_is_zero() {
    let table = WaitTable::new();
    assert_eq!(notify_all(&table, 0), 0);
    assert_eq!(notify_many(&table, 0, 4), 0);
}

#[test]
fn wide_cell_wait_and_notify() {
    let table = WaitTable::new();
    let a = RacyBox::new(0x1_0000_0000u64).unwrap();
    let a = Cell64 { cell: a.as_slice().get(0).unwrap() };
    assert_eq!(a.wait(&table, 0), Err(FutexError::NotEqual));
    assert_eq!(
        a.wait_timeout(&table, 0x1_0000_0000, Duration::from_millis(2)),
        Err(FutexError::Timeout)
    );
    assert_eq!(a.notify_all(&table), 0);
    assert_eq!(a.notify_many(&table, 2), 0);
}

#[test]
fn futex_results_map_to_outcomes() {
    let codes = WaitErrnos { would_block: 11, timed_out: 110, interrupted: 4 };
    assert_eq!(futex_wait_outcome(0, 11, codes), Ok(()));
    assert_eq!(futex_wait_outcome(-1, 11, codes), Err(FutexError::NotEqual));
    assert_eq!(futex_wait_outcome(-1, 110, codes), Err(FutexError::Timeout));
    assert_eq!(futex_wait_outcome(-1, 4, codes), Ok(()));
    assert_eq!(futex_wait_outcome(-1, 22, codes), Err(FutexError::Unknown));
}

#[test]
fn futex_wake_counts_are_clamped() {
    assert_eq!(futex_wake_count(0), 0);
    assert_eq!(futex_wake_count(3), 3);
    assert_eq!(futex_wake_count(i32::MAX as usize), i32::MAX);
    assert_eq!(futex_wake_count(usize::MAX), i32::MAX);
    assert_eq!(futex_woken(2), 2);
    assert_eq!(futex_woken(-3), 3);
    assert_eq!(futex_woken(i64::MIN), 1u64 << 63);
}

#[test]
fn wasm_results_map_to_outcomes() {
    assert_eq!(wasm_wait_outcome(0), Ok(()));
    assert_eq!(wasm_wait_outcome(1), Err(FutexError::NotEqual));
    assert_eq!(wasm_wait_outcome(2), Err(FutexError::Timeout));
    assert_eq!(wasm_wait_outcome(3), Err(FutexError::Unknown));
    assert_eq!(wasm_timeout_nanos(None), i64::MAX);
    assert_eq!(wasm_timeout_nanos(Some(1_000)), 1_000);
    assert_eq!(wasm_timeout_nanos(Some(u128::MAX)), i64::MAX);
}

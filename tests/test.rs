use ecmascript_atomics::RacyBox;
use ecmascript_futex::{Cell32, ECMAScriptAtomicWait, FutexError, WaitTable};
use std::time::{Duration, Instant};

#[test]
fn wake_nothing() {
    let table = WaitTable::new();
    let a = RacyBox::new(0u32).unwrap();
    let a = Cell32 { cell: a.as_slice().get(0).unwrap() };
    assert_eq!(a.notify_many(&table, 1), 0);
    assert_eq!(a.notify_all(&table), 0);
}

#[test]
fn wait_unexpected() {
    let table = WaitTable::new();
    let t = Instant::now();
    let a = RacyBox::new(0u32).unwrap();
    let a = Cell32 { cell: a.as_slice().get(0).unwrap() };
    assert_eq!(a.wait(&table, 1), Err(FutexError::NotEqual));
    assert!(t.elapsed().as_millis() < 100);
}

#[test]
fn wait_timeout() {
    let table = WaitTable::new();
    let a = RacyBox::new(0u32).unwrap();
    let a = Cell32 { cell: a.as_slice().get(0).unwrap() };
    assert_eq!(
        a.wait_timeout(&table, 0, Duration::from_millis(1)),
        Err(FutexError::Timeout)
    );
}

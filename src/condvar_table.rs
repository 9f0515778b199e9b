//! A table of mutex and condition-variable slots that emulates futex wait and
//! notify for any address.
//!
//! An address picks its slot by [`entry_for_ptr`]. A waiter takes the slot's
//! lock, checks its condition, registers in the slot's metadata and sleeps on
//! the condition variable, which releases the lock; a notifier takes the same
//! lock to read the metadata, so a change made before the notify is seen by
//! the check or the waiter is registered in time to be woken.

use std::sync::{Condvar, Mutex, MutexGuard, WaitTimeoutResult};
use std::time::Duration;

use vstd::prelude::*;

use crate::slot::{entry_for_ptr, Wake, WaitMetadata};
use crate::FutexError;

verus! {

/// std's `Mutex`, opaque here: it carries the metadata of a slot.
#[verifier::external_type_specification]
#[verifier::external_body]
#[verifier::reject_recursive_types(T)]
pub struct ExMutex<T: ?Sized>(Mutex<T>);

/// std's `MutexGuard`, opaque here: proof that a slot is locked.
#[verifier::external_type_specification]
#[verifier::external_body]
#[verifier::reject_recursive_types(T)]
pub struct ExMutexGuard<'a, T: ?Sized + 'a>(MutexGuard<'a, T>);

/// std's `Condvar`, opaque here: what the waiters of a slot sleep on.
#[verifier::external_type_specification]
#[verifier::external_body]
pub struct ExCondvar(Condvar);

/// std's `WaitTimeoutResult`, opaque here: how a bounded sleep ended.
#[verifier::external_type_specification]
#[verifier::external_body]
pub struct ExWaitTimeoutResult(WaitTimeoutResult);

/// Relies on std's `WaitTimeoutResult::timed_out`: whether a bounded wait
/// returned because its time ran out.
pub assume_specification[ WaitTimeoutResult::timed_out ](r: &WaitTimeoutResult) -> bool;

/// Relies on `core::hint::spin_loop`: a processor hint inside a busy-wait.
pub assume_specification[ core::hint::spin_loop ]();

/// The number of slots in a table.
pub const TABLE_SIZE: usize = 256;

/// How many times a lock is tried without blocking before the thread blocks
/// on it. The lock of a slot is held only for a few reads and writes, so in
/// practice it is always taken long before this.
const SPIN_LIMIT: u64 = 0xffff_ffff_ffff_ffff;

/// One slot: the condition variable its waiters sleep on, and the lock over
/// its metadata.
struct TableEntry {
    /// The condition variable on which to wait.
    condvar: Condvar,
    /// The mutex for locking before sleep.
    mutex: Mutex<WaitMetadata>,
}

/// A fixed table of [`TABLE_SIZE`] slots shared by all addresses.
pub struct WaitTable {
    entries: Vec<TableEntry>,
}

impl WaitTable {
    #[verifier::type_invariant]
    spec fn has_all_slots(self) -> bool {
        self.entries@.len() == TABLE_SIZE
    }

    /// A table whose slots all start empty.
    pub fn new() -> (r: WaitTable) {
        let mut entries: Vec<TableEntry> = Vec::new();
        let mut i: usize = 0;
        while i < TABLE_SIZE
            invariant
                i <= TABLE_SIZE,
                entries@.len() == i,
            decreases TABLE_SIZE - i,
        {
            entries.push(TableEntry { condvar: new_condvar(), mutex: new_slot_lock(WaitMetadata::new()) });
            i = i + 1;
        }
        WaitTable { entries }
    }

    /// The slot of `addr`.
    fn entry(&self, addr: usize) -> &TableEntry {
        proof {
            use_type_invariant(self);
        }
        &self.entries[entry_for_ptr(addr) as usize]
    }
}

/// Relies on std's `Mutex::new`: an unlocked mutex holding `m`.
#[verifier::external_body]
fn new_slot_lock(m: WaitMetadata) -> Mutex<WaitMetadata> {
    Mutex::new(m)
}

/// Relies on std's `Condvar::new`: a condition variable nobody waits on.
#[verifier::external_body]
fn new_condvar() -> Condvar {
    Condvar::new()
}

/// Relies on std's `Mutex::try_lock`: the guard if the lock was free, else
/// `None` (also for a poisoned lock, which stays unusable).
#[verifier::external_body]
fn try_lock<'a>(mutex: &'a Mutex<WaitMetadata>) -> Option<MutexGuard<'a, WaitMetadata>> {
    mutex.try_lock().ok()
}

/// Relies on std's `Mutex::lock`: blocks until the lock is taken. A poisoned
/// lock is taken as it stands; nothing in this crate panics while holding one.
#[verifier::external_body]
fn lock<'a>(mutex: &'a Mutex<WaitMetadata>) -> MutexGuard<'a, WaitMetadata> {
    mutex.lock().unwrap_or_else(std::sync::PoisonError::into_inner)
}

/// Relies on std's `Deref` of `MutexGuard`: the metadata behind the lock.
#[verifier::external_body]
fn read_metadata(guard: &MutexGuard<'_, WaitMetadata>) -> WaitMetadata {
    **guard
}

/// Relies on std's `DerefMut` of `MutexGuard`: replaces the metadata behind
/// the lock.
#[verifier::external_body]
fn write_metadata(guard: &mut MutexGuard<'_, WaitMetadata>, m: WaitMetadata) {
    **guard = m;
}

/// Relies on std's `Condvar::wait`: releases the lock, sleeps until woken
/// (possibly spuriously) and takes the lock again.
#[verifier::external_body]
fn sleep_on<'a>(cv: &Condvar, guard: MutexGuard<'a, WaitMetadata>) -> MutexGuard<'a, WaitMetadata> {
    cv.wait(guard).unwrap_or_else(std::sync::PoisonError::into_inner)
}

/// Relies on std's `Condvar::wait_timeout`: as [`sleep_on`], but gives up
/// after `timeout`, which the second result reports.
#[verifier::external_body]
fn sleep_on_timeout<'a>(
    cv: &Condvar,
    guard: MutexGuard<'a, WaitMetadata>,
    timeout: Duration,
) -> (MutexGuard<'a, WaitMetadata>, WaitTimeoutResult) {
    cv.wait_timeout(guard, timeout).unwrap_or_else(std::sync::PoisonError::into_inner)
}

/// Relies on std's `Condvar::notify_one`: wakes one thread blocked on the
/// condition variable, if any.
#[verifier::external_body]
fn wake_one(cv: &Condvar) {
    cv.notify_one()
}

/// Relies on std's `Condvar::notify_all`: wakes every thread blocked on the
/// condition variable.
#[verifier::external_body]
fn wake_every(cv: &Condvar) {
    cv.notify_all()
}

/// Locks `mutex` without letting the thread sleep.
/// Assumes that `mutex` is not poisoned.
fn spin_lock<'a>(mutex: &'a Mutex<WaitMetadata>) -> MutexGuard<'a, WaitMetadata> {
    let mut spins: u64 = 0;
    while spins < SPIN_LIMIT
        decreases SPIN_LIMIT - spins,
    {
        if let Some(guard) = try_lock(mutex) {
            return guard;
        }
        core::hint::spin_loop();
        spins = spins + 1;
    }
    lock(mutex)
}

/// Carries out `wake` on a condition variable.
fn signal(cv: &Condvar, wake: Wake) {
    match wake {
        Wake::Nobody => {},
        Wake::Everyone => wake_every(cv),
        Wake::Count(n) => {
            let mut i: usize = 0;
            while i < n
                invariant
                    i <= n,
                decreases n - i,
            {
                wake_one(cv);
                i = i + 1;
            }
        },
    }
}

/// Puts the current thread to sleep on the slot of `addr` if `condition`
/// evaluates to `true` once the slot is locked. The thread is woken by a
/// notify on the slot, spuriously, or after `timeout` if one is given.
///
/// `NotEqual` comes exactly when the condition was false, and then nothing
/// was registered; `Timeout` only for a bounded wait; `Unknown` never.
pub fn wait(
    table: &WaitTable,
    addr: usize,
    condition: impl Fn() -> bool,
    timeout: Option<Duration>,
) -> (r: Result<(), FutexError>)
    requires
        condition.requires(()),
    ensures
        r == Err::<(), FutexError>(FutexError::NotEqual) ==> condition.ensures((), false),
        r != Err::<(), FutexError>(FutexError::NotEqual) ==> condition.ensures((), true),
        r != Err::<(), FutexError>(FutexError::Unknown),
        timeout is None ==> r != Err::<(), FutexError>(FutexError::Timeout),
{
    let entry = table.entry(addr);
    let mut guard = spin_lock(&entry.mutex);
    if !condition() {
        return Err(FutexError::NotEqual);
    }
    let mut meta = read_metadata(&guard);
    if meta.waiting_count == usize::MAX {
        // No room to count one more sleeper: return at once, as a spurious
        // wakeup, which callers already handle.
        return Ok(());
    }
    meta.register(addr);
    write_metadata(&mut guard, meta);
    let mut timed_out = false;
    guard = match timeout {
        Some(time) => {
            let (g, result) = sleep_on_timeout(&entry.condvar, guard, time);
            timed_out = result.timed_out();
            g
        },
        None => sleep_on(&entry.condvar, guard),
    };
    let mut after = read_metadata(&guard);
    if after.waiting_count > 0 {
        after.unregister();
        write_metadata(&mut guard, after);
    }
    if timed_out {
        Err(FutexError::Timeout)
    } else {
        Ok(())
    }
}

/// Wakes all threads waiting on `addr`, and any other sleepers of its slot.
/// Returns the number of threads registered on the slot: 0 when nobody
/// waits, and always 0 for the null address.
pub fn notify_all(table: &WaitTable, addr: usize) -> (r: usize)
    ensures
        addr == 0 ==> r == 0,
{
    if addr == 0 {
        return 0;
    }
    let entry = table.entry(addr);
    let meta = {
        let guard = spin_lock(&entry.mutex);
        read_metadata(&guard)
    };
    let (wake, woken) = meta.plan_notify_all();
    signal(&entry.condvar, wake);
    woken
}

/// Wakes at least `count` threads waiting on `addr`, or all of them where
/// fewer wait; see [`WaitMetadata::plan_notify_many`] for the choice. Returns
/// the number it counts as woken: 0 when nobody waits, and always 0 for the
/// null address.
pub fn notify_many(table: &WaitTable, addr: usize, count: usize) -> (r: usize)
    ensures
        addr == 0 ==> r == 0,
{
    if addr == 0 {
        return 0;
    }
    let entry = table.entry(addr);
    let meta = {
        let guard = spin_lock(&entry.mutex);
        read_metadata(&guard)
    };
    let (wake, woken) = meta.plan_notify_many(count);
    signal(&entry.condvar, wake);
    woken
}

} // verus!

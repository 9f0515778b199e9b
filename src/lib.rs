//! Futex-style "wait while a cell holds a value, notify on change" for
//! 32-bit and 64-bit racy atomic cells.
//!
//! Waits and notifies go through a [`WaitTable`] of mutex and
//! condition-variable slots keyed by the cell's address; one table serves a
//! whole process. The bookkeeping of
//! each slot (which address its waiters sleep on, how many there are, and
//! whom a notify must wake) is stated and proved in [`slot`].

use vstd::prelude::*;

pub mod condvar_table;
pub mod fallback;
pub mod native;
mod private;
pub mod slot;

use std::time::Duration;

pub use crate::condvar_table::WaitTable;
pub use crate::fallback::{Cell32, Cell64};

verus! {

/// Why a wait returned without being woken.
#[derive(Debug, Clone, Copy, PartialEq, Eq, Structural)]
pub enum FutexError {
    /// The value was not equal and no sleep was performed.
    NotEqual,
    /// Timeout fired.
    Timeout,
    /// An unknown error occurred.
    Unknown,
}

/// A type that supports atomic waits. Waits and notifies meet in the slots of
/// the [`WaitTable`] they are given, so the threads that share a cell must
/// share a table too.
pub trait ECMAScriptAtomicWait: private::ECMAScriptAtomicWaitImpl {
    /// If the value is `value`, wait until woken up.
    ///
    /// This function might also return spuriously,
    /// without a corresponding wake operation.
    fn wait(
        &self,
        table: &WaitTable,
        value: Self::ECMAScriptAtomicInner,
    ) -> (r: Result<(), FutexError>)
        ensures
            r != Err::<(), FutexError>(FutexError::Unknown),
            r != Err::<(), FutexError>(FutexError::Timeout),
    {
        private::ECMAScriptAtomicWaitImpl::wait_with_timeout(self, table, value, None)
    }

    /// If the value is `value`, wait until timeout elapses
    /// or notify is called.
    ///
    /// This function might also return spuriously,
    /// without a corresponding wake operation.
    fn wait_timeout(
        &self,
        table: &WaitTable,
        value: Self::ECMAScriptAtomicInner,
        timeout: Duration,
    ) -> (r: Result<(), FutexError>)
        ensures
            r != Err::<(), FutexError>(FutexError::Unknown),
    {
        private::ECMAScriptAtomicWaitImpl::wait_with_timeout(self, table, value, Some(timeout))
    }

    /// Wake up to `count` threads that are waiting on this atomic.
    fn notify_many(&self, table: &WaitTable, count: usize) -> usize {
        private::ECMAScriptAtomicWaitImpl::notify_bounded(self, table, count)
    }

    /// Wake all threads that are waiting on this atomic.
    fn notify_all(&self, table: &WaitTable) -> usize {
        private::ECMAScriptAtomicWaitImpl::notify_all(self, table)
    }
}

} // verus!

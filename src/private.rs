//! The backend contract that each supported cell type implements. It lives in
//! a private module so that no other crate can implement it.

use std::time::Duration;

use vstd::prelude::*;

use crate::condvar_table::WaitTable;
use crate::FutexError;

verus! {

/// A trait that cannot be implemented by other crates.
pub trait ECMAScriptAtomicWaitImpl {
    /// The underlying integer type for the atomic.
    type ECMAScriptAtomicInner;

    /// Wake all threads that are waiting on this atomic.
    fn notify_all(&self, table: &WaitTable) -> usize;

    /// Wake up to `count` threads that are waiting on this atomic.
    fn notify_bounded(&self, table: &WaitTable, count: usize) -> usize;

    /// If the value is `value`, wait until woken up, or until `timeout`
    /// elapses if one is given.
    ///
    /// This function might also return spuriously,
    /// without a corresponding wake operation.
    fn wait_with_timeout(
        &self,
        table: &WaitTable,
        value: Self::ECMAScriptAtomicInner,
        timeout: Option<Duration>,
    ) -> (r: Result<(), FutexError>)
        ensures
            r != Err::<(), FutexError>(FutexError::Unknown),
            timeout is None ==> r != Err::<(), FutexError>(FutexError::Timeout),
    ;
}

} // verus!

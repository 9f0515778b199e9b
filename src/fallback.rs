//! Racy atomic cells of 32 and 64 bits wait and notify through a [`WaitTable`].

use std::time::Duration;

use ecmascript_atomics::{Ordering, Racy};
use vstd::prelude::*;

use crate::condvar_table::{self, WaitTable};
use crate::private::ECMAScriptAtomicWaitImpl;
use crate::{ECMAScriptAtomicWait, FutexError};

verus! {

/// A 32-bit racy atomic cell that threads wait on and notify.
///
/// `Racy` is generic over a trait of ecmascript_atomics that Verus cannot be
/// told of, so the cell is held in a struct whose insides Verus does not see.
#[verifier::external_body]
pub struct Cell32<'a> {
    pub cell: Racy<'a, u32>,
}

/// A 64-bit racy atomic cell that threads wait on and notify; see [`Cell32`].
#[verifier::external_body]
pub struct Cell64<'a> {
    pub cell: Racy<'a, u64>,
}

impl Cell32<'_> {
    /// Relies on ecmascript_atomics' `Racy::addr`: the address of the cell,
    /// used only as the key of its slot, never to reach memory.
    #[verifier::external_body]
    fn addr(&self) -> usize {
        self.cell.addr() as usize
    }

    /// Relies on ecmascript_atomics' `Racy::load` with sequentially
    /// consistent ordering: the current value of the cell.
    #[verifier::external_body]
    fn load(&self) -> u32 {
        self.cell.load(Ordering::SeqCst)
    }
}

impl Cell64<'_> {
    /// Relies on ecmascript_atomics' `Racy::addr`, as [`Cell32`] does.
    #[verifier::external_body]
    fn addr(&self) -> usize {
        self.cell.addr() as usize
    }

    /// Relies on ecmascript_atomics' `Racy::load` with sequentially
    /// consistent ordering: the current value of the cell.
    #[verifier::external_body]
    fn load(&self) -> u64 {
        self.cell.load(Ordering::SeqCst)
    }
}

impl ECMAScriptAtomicWaitImpl for Cell32<'_> {
    type ECMAScriptAtomicInner = u32;

    fn wait_with_timeout(
        &self,
        table: &WaitTable,
        value: u32,
        timeout: Option<Duration>,
    ) -> (r: Result<(), FutexError>) {
        condvar_table::wait(table, self.addr(), || self.load() == value, timeout)
    }

    fn notify_all(&self, table: &WaitTable) -> usize {
        condvar_table::notify_all(table, self.addr())
    }

    fn notify_bounded(&self, table: &WaitTable, count: usize) -> usize {
        condvar_table::notify_many(table, self.addr(), count)
    }
}

impl ECMAScriptAtomicWaitImpl for Cell64<'_> {
    type ECMAScriptAtomicInner = u64;

    fn wait_with_timeout(
        &self,
        table: &WaitTable,
        value: u64,
        timeout: Option<Duration>,
    ) -> (r: Result<(), FutexError>) {
        condvar_table::wait(table, self.addr(), || self.load() == value, timeout)
    }

    fn notify_all(&self, table: &WaitTable) -> usize {
        condvar_table::notify_all(table, self.addr())
    }

    fn notify_bounded(&self, table: &WaitTable, count: usize) -> usize {
        condvar_table::notify_many(table, self.addr(), count)
    }
}

impl ECMAScriptAtomicWait for Cell32<'_> {}

impl ECMAScriptAtomicWait for Cell64<'_> {}

} // verus!

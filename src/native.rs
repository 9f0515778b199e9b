//! The decisions of the native wait primitives: what a platform's result means
//! as an outcome, and how a request is clamped to what the platform takes.
//! The calls themselves are foreign functions and are made outside this
//! library.

use vstd::prelude::*;

use crate::FutexError;

verus! {

/// The `errno` values that a Linux futex wait tells apart, as the platform
/// defines them.
#[derive(Debug, Clone, Copy, PartialEq, Eq, Structural)]
pub struct WaitErrnos {
    /// The value at the address was not the expected one (`EAGAIN`).
    pub would_block: i32,
    /// The timeout expired (`ETIMEDOUT`).
    pub timed_out: i32,
    /// A signal interrupted the sleep (`EINTR`).
    pub interrupted: i32,
}

/// The outcome of a futex wait that returned `ret` and left `errno`. An
/// interrupted sleep counts as a wakeup: callers re-check in any case.
pub open spec fn futex_wait_result(ret: i64, errno: i32, codes: WaitErrnos) -> Result<
    (),
    FutexError,
> {
    if ret == 0 {
        Ok(())
    } else if errno == codes.would_block {
        Err(FutexError::NotEqual)
    } else if errno == codes.timed_out {
        Err(FutexError::Timeout)
    } else if errno == codes.interrupted {
        Ok(())
    } else {
        Err(FutexError::Unknown)
    }
}

/// Maps the result of a futex wait to its outcome.
pub fn futex_wait_outcome(ret: i64, errno: i32, codes: WaitErrnos) -> (r: Result<(), FutexError>)
    ensures
        r == futex_wait_result(ret, errno, codes),
{
    if ret == 0 {
        Ok(())
    } else if errno == codes.would_block {
        Err(FutexError::NotEqual)
    } else if errno == codes.timed_out {
        Err(FutexError::Timeout)
    } else if errno == codes.interrupted {
        Ok(())
    } else {
        Err(FutexError::Unknown)
    }
}

/// The number of waiters a futex wake is asked for: `count`, capped at the
/// largest `i32`.
pub fn futex_wake_count(count: usize) -> (r: i32)
    ensures
        r >= 0,
        r as int == if count <= i32::MAX as usize { count as int } else { i32::MAX as int },
{
    if count <= i32::MAX as usize {
        count as i32
    } else {
        i32::MAX
    }
}

/// The number of waiters a futex wake reports, from the syscall's result.
pub fn futex_woken(ret: i64) -> (r: u64)
    ensures
        r as int == if ret < 0 { -(ret as int) } else { ret as int },
{
    if ret >= 0 {
        ret as u64
    } else if ret == i64::MIN {
        0x8000_0000_0000_0000u64
    } else {
        (-ret) as u64
    }
}

/// The outcome of a WebAssembly `memory.atomic.wait`: 0 woken, 1 not equal,
/// 2 timed out.
pub open spec fn wasm_wait_result(code: i32) -> Result<(), FutexError> {
    if code == 0 {
        Ok(())
    } else if code == 1 {
        Err(FutexError::NotEqual)
    } else if code == 2 {
        Err(FutexError::Timeout)
    } else {
        Err(FutexError::Unknown)
    }
}

/// Maps the result of a WebAssembly wait to its outcome.
pub fn wasm_wait_outcome(code: i32) -> (r: Result<(), FutexError>)
    ensures
        r == wasm_wait_result(code),
{
    if code == 0 {
        Ok(())
    } else if code == 1 {
        Err(FutexError::NotEqual)
    } else if code == 2 {
        Err(FutexError::Timeout)
    } else {
        Err(FutexError::Unknown)
    }
}

/// The timeout in nanoseconds that a WebAssembly wait is given: the
/// requested one capped at the largest `i64`, or that largest value for an
/// unbounded wait.
pub fn wasm_timeout_nanos(nanos: Option<u128>) -> (r: i64)
    ensures
        r as int == match nanos {
            Some(n) => if n <= i64::MAX as u128 { n as int } else { i64::MAX as int },
            None => i64::MAX as int,
        },
{
    match nanos {
        Some(n) => if n <= i64::MAX as u128 {
            n as i64
        } else {
            i64::MAX
        },
        None => i64::MAX,
    }
}

} // verus!

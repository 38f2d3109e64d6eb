//! The decoded outcome of one failed hardware transaction: a bit set of
//! independent abort reasons, each queryable on its own.

use vstd::prelude::*;

use crate::status::_XABORT_CAPACITY;
use crate::status::_XABORT_CODE;
use crate::status::_XABORT_CONFLICT;
use crate::status::_XABORT_DEBUG;
use crate::status::_XABORT_EXPLICIT;
use crate::status::_XABORT_NESTED;
use crate::status::_XABORT_RETRY;
use crate::status::_XBEGIN_STARTED;
use crate::status::spec_abort_code;
use crate::status::spec_flag_set;

verus! {

/// Wraps the status word of an aborted transaction.  The reasons are not
/// mutually exclusive: the hardware may report several at once, and every
/// one of them is preserved.  A committed transaction produces no value of
/// this type at all: success is the absence of an outcome.
#[derive(Debug, Copy, Clone, Ord, PartialOrd, Eq, PartialEq, Hash)]
pub struct HardwareMemoryTransactionResult {
    /// The raw status word the begin operation produced after the abort.
    pub bits: u32,
}

impl HardwareMemoryTransactionResult {
    /// Return this from a transaction callback when the transaction fails
    /// because a lock it depends on was observed busy.  A convention for
    /// cooperating with lock-aware transactional code, not enforced by the
    /// hardware.
    #[allow(non_upper_case_globals)]
    pub const TransactionFailedDueToBusyLock: u8 = 0xFF;

    /// The callback deliberately aborted the transaction.
    pub open spec fn spec_explicitly_aborted(self) -> bool {
        spec_flag_set(self.bits, _XABORT_EXPLICIT)
    }

    /// The hardware hints that retrying may succeed.
    pub open spec fn spec_retry_possible(self) -> bool {
        spec_flag_set(self.bits, _XABORT_RETRY)
    }

    /// Another logical CPU touched overlapping memory.
    pub open spec fn spec_conflict(self) -> bool {
        spec_flag_set(self.bits, _XABORT_CONFLICT)
    }

    /// The working set overflowed the hardware's tracking buffer.
    pub open spec fn spec_capacity_exceeded(self) -> bool {
        spec_flag_set(self.bits, _XABORT_CAPACITY)
    }

    /// A debug trap was hit.
    pub open spec fn spec_debug_trap(self) -> bool {
        spec_flag_set(self.bits, _XABORT_DEBUG)
    }

    /// A transaction was begun from inside a running one.
    pub open spec fn spec_nested_attempt(self) -> bool {
        spec_flag_set(self.bits, _XABORT_NESTED)
    }

    /// Wraps an abort status word.  The sentinel means that no abort
    /// happened, so it is refused here.
    pub fn new(status: u32) -> (result: Self)
        requires
            status != _XBEGIN_STARTED,
        ensures
            result.bits == status,
    {
        HardwareMemoryTransactionResult { bits: status }
    }

    /// Returns the reason code the callback aborted with, or `None` when the
    /// abort was not requested by the callback.
    pub fn transaction_was_explicitly_aborted_by_callback(self) -> (code: Option<u8>)
        ensures
            code == (if self.spec_explicitly_aborted() {
                Some(spec_abort_code(self.bits))
            } else {
                None
            }),
    {
        if self.bits & _XABORT_EXPLICIT == _XABORT_EXPLICIT {
            Some(_XABORT_CODE(self.bits))
        } else {
            None
        }
    }

    /// The abort is of a class that is often transient: a bounded retry may
    /// succeed.
    pub fn transaction_retry_is_possible(self) -> (retry: bool)
        ensures
            retry == self.spec_retry_possible(),
    {
        self.bits & _XABORT_RETRY == _XABORT_RETRY
    }

    /// The abort was caused by a memory conflict with another thread.
    pub fn transaction_was_aborted_due_to_conflict_with_another_thread(self) -> (conflict: bool)
        ensures
            conflict == self.spec_conflict(),
    {
        self.bits & _XABORT_CONFLICT == _XABORT_CONFLICT
    }

    /// The transaction read or wrote more memory than the hardware can track.
    pub fn transaction_was_aborted_due_to_using_too_much_memory(self) -> (capacity: bool)
        ensures
            capacity == self.spec_capacity_exceeded(),
    {
        self.bits & _XABORT_CAPACITY == _XABORT_CAPACITY
    }

    /// The abort was caused by a debug trap.
    pub fn transaction_was_aborted_due_to_a_debug_trap(self) -> (trapped: bool)
        ensures
            trapped == self.spec_debug_trap(),
    {
        self.bits & _XABORT_DEBUG == _XABORT_DEBUG
    }

    /// The abort was caused by an attempt to nest transactions, which is a
    /// logic error of the caller and no candidate for a retry.
    pub fn transaction_was_aborted_due_to_issuing_a_nested_transaction(self) -> (nested: bool)
        ensures
            nested == self.spec_nested_attempt(),
    {
        self.bits & _XABORT_NESTED == _XABORT_NESTED
    }
}

} // verus!

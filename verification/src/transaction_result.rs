//! An earlier shape of the decoded outcome that also represents success:
//! here the whole result of one attempt is a single bit set, and an empty
//! set means the transaction committed.

use vstd::prelude::*;

use crate::status::_XABORT_CAPACITY;
use crate::status::_XABORT_CONFLICT;
use crate::status::_XABORT_DEBUG;
use crate::status::_XABORT_EXPLICIT;
use crate::status::_XABORT_NESTED;
use crate::status::_XABORT_RETRY;
use crate::status::spec_abort_code;
use crate::status::spec_flag_set;

verus! {

/// Wraps the status word of one transaction attempt.  An empty bit set means
/// the attempt committed; otherwise the set bits are the abort reasons, not
/// mutually exclusive and each queryable on its own.
#[derive(Debug, Copy, Clone, Ord, PartialOrd, Eq, PartialEq, Hash)]
pub struct TransactionResult {
    /// The raw status word of the attempt: zero on success.
    pub bits: u32,
}

impl TransactionResult {
    /// Return this from a transaction callback when the transaction is
    /// successful.
    #[allow(non_upper_case_globals)]
    pub const TransactionIsSuccessful: u8 = 0;

    /// Return this from a transaction callback when the transaction fails
    /// because a lock it depends on was observed busy.  A convention for
    /// cooperating with lock-aware transactional code, not enforced by the
    /// hardware.
    #[allow(non_upper_case_globals)]
    pub const TransactionFailedDueToBusyLock: u8 = 0xFF;

    /// The attempt committed: no abort reason at all is set.
    pub open spec fn spec_successful(self) -> bool {
        self.bits == 0
    }

    /// The callback deliberately aborted the transaction.
    pub open spec fn spec_explicitly_aborted(self) -> bool {
        spec_flag_set(self.bits, _XABORT_EXPLICIT)
    }

    /// The hardware hints that retrying may succeed.
    pub open spec fn spec_retry_possible(self) -> bool {
        spec_flag_set(self.bits, _XABORT_RETRY)
    }

    /// Another logical CPU touched overlapping memory.
    pub open spec fn spec_conflict(self) -> bool {
        spec_flag_set(self.bits, _XABORT_CONFLICT)
    }

    /// The working set overflowed the hardware's tracking buffer.
    pub open spec fn spec_capacity_exceeded(self) -> bool {
        spec_flag_set(self.bits, _XABORT_CAPACITY)
    }

    /// A debug trap was hit.
    pub open spec fn spec_debug_trap(self) -> bool {
        spec_flag_set(self.bits, _XABORT_DEBUG)
    }

    /// A transaction was begun from inside a running one.
    pub open spec fn spec_nested_attempt(self) -> bool {
        spec_flag_set(self.bits, _XABORT_NESTED)
    }

    /// Wraps the status word of a finished attempt; zero stands for success.
    pub fn new(status: u32) -> (result: Self)
        ensures
            result.bits == status,
    {
        TransactionResult { bits: status }
    }

    /// The transaction committed and its effects are visible.
    pub fn transaction_was_successful(self) -> (successful: bool)
        ensures
            successful == self.spec_successful(),
    {
        self.bits == 0
    }

    /// Returns the reason code the callback aborted with, or `None` when the
    /// abort was not requested by the callback.  The code is never returned
    /// for a committed attempt, whose bit set is empty.
    pub fn transaction_was_explicitly_aborted_by_callback(self) -> (code: Option<u8>)
        ensures
            code == (if self.spec_explicitly_aborted() {
                Some(spec_abort_code(self.bits))
            } else {
                None
            }),
    {
        if self.bits & _XABORT_EXPLICIT == _XABORT_EXPLICIT {
            let bits: u32 = self.bits;
            let status: u32 = (bits >> 24) & 0xFF;
            assert(((bits >> 24) & 0xFF) as u8 == (bits >> 24) as u8) by (bit_vector);
            Some(status as u8)
        } else {
            None
        }
    }

    /// The abort is of a class that is often transient: a bounded retry may
    /// succeed.
    pub fn transaction_retry_is_possible(self) -> (retry: bool)
        ensures
            retry == self.spec_retry_possible(),
    {
        self.bits & _XABORT_RETRY == _XABORT_RETRY
    }

    /// The abort was caused by a memory conflict with another thread.
    pub fn transaction_was_aborted_due_to_conflict_with_another_thread(self) -> (conflict: bool)
        ensures
            conflict == self.spec_conflict(),
    {
        self.bits & _XABORT_CONFLICT == _XABORT_CONFLICT
    }

    /// The transaction read or wrote more memory than the hardware can track.
    pub fn transaction_was_aborted_due_to_using_too_much_memory(self) -> (capacity: bool)
        ensures
            capacity == self.spec_capacity_exceeded(),
    {
        self.bits & _XABORT_CAPACITY == _XABORT_CAPACITY
    }

    /// The abort was caused by a debug trap.
    pub fn transaction_was_aborted_due_to_a_debug_trap(self) -> (trapped: bool)
        ensures
            trapped == self.spec_debug_trap(),
    {
        self.bits & _XABORT_DEBUG == _XABORT_DEBUG
    }

    /// The abort was caused by an attempt to nest transactions, which is a
    /// logic error of the caller and no candidate for a retry.
    pub fn transaction_was_aborted_due_to_issuing_a_nested_transaction(self) -> (nested: bool)
        ensures
            nested == self.spec_nested_attempt(),
    {
        self.bits & _XABORT_NESTED == _XABORT_NESTED
    }
}

} // verus!

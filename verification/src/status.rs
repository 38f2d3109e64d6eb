//! The status word of the hardware begin operation: its sentinel, its flag
//! bits and the reason code embedded in its high byte.

use vstd::prelude::*;

verus! {

/// Value the begin operation hands back when a transaction has just started.
/// It is never an abort status: decoding it is a logic error.
pub const _XBEGIN_STARTED: u32 = 0xFFFF_FFFF;

/// The transaction logic requested the abort itself and supplied a reason
/// code, carried in bits 24-31 of the status word.
pub const _XABORT_EXPLICIT: u32 = 1 << 0;

/// The hardware hints that this class of abort is often transient, so a
/// bounded number of retries may succeed.
pub const _XABORT_RETRY: u32 = 1 << 1;

/// Another logical CPU read or wrote memory that overlaps this transaction's
/// read or write set.
pub const _XABORT_CONFLICT: u32 = 1 << 2;

/// The transaction's working set overflowed the hardware's tracking buffer.
pub const _XABORT_CAPACITY: u32 = 1 << 3;

/// A debug trap was hit while the transaction was running.
pub const _XABORT_DEBUG: u32 = 1 << 4;

/// A transaction was begun from inside a running transaction; nesting is
/// never executed, only reported.
pub const _XABORT_NESTED: u32 = 1 << 5;

/// A status word carries a flag when every bit of the flag is set in it.
pub open spec fn spec_flag_set(status_word: u32, flag: u32) -> bool {
    status_word & flag == flag
}

/// The 8-bit reason code embedded in bits 24-31 of a status word.  It is
/// meaningful only when the word carries `_XABORT_EXPLICIT`.
pub open spec fn spec_abort_code(status_word: u32) -> u8 {
    (status_word >> 24) as u8
}

/// Extracts the reason code a transaction was explicitly aborted with, given
/// the status word the begin operation returned after that abort.
#[allow(non_snake_case)]
pub fn _XABORT_CODE(_xbegin_return_code: u32) -> (code: u8)
    ensures
        code == spec_abort_code(_xbegin_return_code),
{
    (_xbegin_return_code >> 24) as u8
}

/// Decoding is bit-exact: each abort predicate of a status word other than
/// the sentinel holds exactly when the single documented bit is set, and the
/// embedded reason code is exactly the high byte of the word.
pub proof fn lemma_decoding_is_bit_exact(status_word: u32)
    requires
        status_word != _XBEGIN_STARTED,
    ensures
        spec_flag_set(status_word, _XABORT_EXPLICIT) == ((status_word >> 0) & 1 == 1),
        spec_flag_set(status_word, _XABORT_RETRY) == ((status_word >> 1) & 1 == 1),
        spec_flag_set(status_word, _XABORT_CONFLICT) == ((status_word >> 2) & 1 == 1),
        spec_flag_set(status_word, _XABORT_CAPACITY) == ((status_word >> 3) & 1 == 1),
        spec_flag_set(status_word, _XABORT_DEBUG) == ((status_word >> 4) & 1 == 1),
        spec_flag_set(status_word, _XABORT_NESTED) == ((status_word >> 5) & 1 == 1),
        spec_abort_code(status_word) as u32 == status_word >> 24,
{
    assert(spec_flag_set(status_word, _XABORT_EXPLICIT) == ((status_word >> 0) & 1 == 1))
        by (bit_vector);
    assert(spec_flag_set(status_word, _XABORT_RETRY) == ((status_word >> 1) & 1 == 1))
        by (bit_vector);
    assert(spec_flag_set(status_word, _XABORT_CONFLICT) == ((status_word >> 2) & 1 == 1))
        by (bit_vector);
    assert(spec_flag_set(status_word, _XABORT_CAPACITY) == ((status_word >> 3) & 1 == 1))
        by (bit_vector);
    assert(spec_flag_set(status_word, _XABORT_DEBUG) == ((status_word >> 4) & 1 == 1))
        by (bit_vector);
    assert(spec_flag_set(status_word, _XABORT_NESTED) == ((status_word >> 5) & 1 == 1))
        by (bit_vector);
    assert(spec_abort_code(status_word) as u32 == status_word >> 24) by (bit_vector);
}

} // verus!

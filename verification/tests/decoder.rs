//! The outcome decoder: every flag bit of a status word must surface as
//! exactly its documented predicate, and the embedded reason code as the
//! high byte.

use intel_tsx_rtm::HardwareMemoryTransactionResult;
use intel_tsx_rtm::TransactionResult;
use intel_tsx_rtm::status::_XABORT_CODE;

fn all_flags(result: HardwareMemoryTransactionResult) -> [bool; 5] {
    [
        result.transaction_retry_is_possible(),
        result.transaction_was_aborted_due_to_conflict_with_another_thread(),
        result.transaction_was_aborted_due_to_using_too_much_memory(),
        result.transaction_was_aborted_due_to_a_debug_trap(),
        result.transaction_was_aborted_due_to_issuing_a_nested_transaction(),
    ]
}

#[test]
fn each_flag_bit_yields_exactly_its_predicate() {
    for bit in 0..6u32 {
        let word = 1u32 << bit;
        let result = HardwareMemoryTransactionResult::new(word);
        assert_eq!(
            result.transaction_was_explicitly_aborted_by_callback().is_some(),
            bit == 0
        );
        assert_eq!(result.transaction_retry_is_possible(), bit == 1);
        assert_eq!(
            result.transaction_was_aborted_due_to_conflict_with_another_thread(),
            bit == 2
        );
        assert_eq!(
            result.transaction_was_aborted_due_to_using_too_much_memory(),
            bit == 3
        );
        assert_eq!(result.transaction_was_aborted_due_to_a_debug_trap(), bit == 4);
        assert_eq!(
            result.transaction_was_aborted_due_to_issuing_a_nested_transaction(),
            bit == 5
        );
    }
}

#[test]
fn simultaneous_flags_are_all_preserved() {
    let result = HardwareMemoryTransactionResult::new(0b111110);
    assert!(result.transaction_was_explicitly_aborted_by_callback().is_none());
    assert_eq!(all_flags(result), [true; 5]);
}

#[test]
fn empty_status_word_sets_no_predicate() {
    let result = HardwareMemoryTransactionResult::new(0);
    assert!(result.transaction_was_explicitly_aborted_by_callback().is_none());
    assert_eq!(all_flags(result), [false; 5]);
}

#[test]
fn explicit_abort_code_is_the_high_byte() {
    for code in [1u8, 2, 127, 128, 254, 255] {
        let word = ((code as u32) << 24) | 1;
        let result = HardwareMemoryTransactionResult::new(word);
        assert_eq!(
            result.transaction_was_explicitly_aborted_by_callback(),
            Some(code)
        );
    }
}

#[test]
fn explicit_code_is_hidden_when_explicit_bit_is_clear() {
    // The high byte alone, without bit 0, exposes no reason code.
    let result = HardwareMemoryTransactionResult::new(77u32 << 24);
    assert_eq!(result.transaction_was_explicitly_aborted_by_callback(), None);
}

#[test]
fn busy_lock_abort_decodes_to_reason_255_and_nothing_else() {
    let code = HardwareMemoryTransactionResult::TransactionFailedDueToBusyLock;
    assert_eq!(code, 255);
    let word = ((code as u32) << 24) | 1;
    let result = HardwareMemoryTransactionResult::new(word);
    assert_eq!(
        result.transaction_was_explicitly_aborted_by_callback(),
        Some(255)
    );
    assert_eq!(all_flags(result), [false; 5]);
}

#[test]
fn retry_and_nested_word_decodes_to_those_two_flags_only() {
    let result = HardwareMemoryTransactionResult::new(0b100010);
    assert!(result.transaction_retry_is_possible());
    assert!(result.transaction_was_aborted_due_to_issuing_a_nested_transaction());
    assert!(!result.transaction_was_aborted_due_to_conflict_with_another_thread());
    assert!(!result.transaction_was_aborted_due_to_using_too_much_memory());
    assert!(!result.transaction_was_aborted_due_to_a_debug_trap());
    assert_eq!(result.transaction_was_explicitly_aborted_by_callback(), None);
}

#[test]
fn xabort_code_extracts_the_high_byte() {
    assert_eq!(_XABORT_CODE(0xAB00_0001), 0xAB);
    assert_eq!(_XABORT_CODE(0xFF00_0000), 0xFF);
    assert_eq!(_XABORT_CODE(0x0000_003F), 0);
    assert_eq!(_XABORT_CODE(0x0100_0000), 1);
}

#[test]
fn transaction_result_success_is_the_empty_bit_set() {
    assert!(TransactionResult::new(0).transaction_was_successful());
    assert!(!TransactionResult::new(1).transaction_was_successful());
    assert!(!TransactionResult::new(0b100).transaction_was_successful());
    assert_eq!(TransactionResult::TransactionIsSuccessful, 0);
    assert_eq!(TransactionResult::TransactionFailedDueToBusyLock, 255);
}

#[test]
fn transaction_result_decodes_the_same_bit_layout() {
    for bit in 0..6u32 {
        let result = TransactionResult::new(1u32 << bit);
        assert!(!result.transaction_was_successful());
        assert_eq!(
            result.transaction_was_explicitly_aborted_by_callback().is_some(),
            bit == 0
        );
        assert_eq!(result.transaction_retry_is_possible(), bit == 1);
        assert_eq!(
            result.transaction_was_aborted_due_to_conflict_with_another_thread(),
            bit == 2
        );
        assert_eq!(
            result.transaction_was_aborted_due_to_using_too_much_memory(),
            bit == 3
        );
        assert_eq!(result.transaction_was_aborted_due_to_a_debug_trap(), bit == 4);
        assert_eq!(
            result.transaction_was_aborted_due_to_issuing_a_nested_transaction(),
            bit == 5
        );
    }
}

#[test]
fn transaction_result_embeds_the_reason_code_the_same_way() {
    let word = ((200u32) << 24) | 1;
    assert_eq!(
        TransactionResult::new(word).transaction_was_explicitly_aborted_by_callback(),
        Some(200)
    );
    assert_eq!(
        TransactionResult::new(2).transaction_was_explicitly_aborted_by_callback(),
        None
    );
}

//! The manager: capability gating of the two execution paths, with the
//! hardware attempt stood in for by a routine that follows the protocol.

use std::cell::Cell;

use intel_tsx_rtm::HardwareMemoryTransactionManager;
use intel_tsx_rtm::HardwareMemoryTransactionResult;

/// Runs one attempt the way the low-level routine would on hardware that
/// never aborts on its own: the callback's code decides everything.
fn attempt_without_interference<F: FnOnce() -> u8>(
    callback: F,
) -> Result<(), HardwareMemoryTransactionResult> {
    let code = callback();
    if code == 0 {
        Ok(())
    } else {
        let status_word = ((code as u32) << 24) | 1;
        Err(HardwareMemoryTransactionResult::new(status_word))
    }
}

#[test]
fn gracefully_reports_feature_not_available_without_capability() {
    let manager = HardwareMemoryTransactionManager::with_capability(false);
    let invocations = Cell::new(0u32);
    let outcome = manager.execute_transaction_once_gracefully(
        || {
            invocations.set(invocations.get() + 1);
            0u8
        },
        |_callback| panic!("the attempt must not run without the capability"),
    );
    assert_eq!(outcome, Err(None));
    assert_eq!(invocations.get(), 0);
}

#[test]
fn gracefully_never_touches_the_callback_without_capability() {
    let manager = HardwareMemoryTransactionManager::with_capability(false);
    let outcome = manager.execute_transaction_once_gracefully(
        || -> u8 { panic!("the callback must not run without the capability") },
        |_callback| panic!("the attempt must not run without the capability"),
    );
    assert_eq!(outcome, Err(None));
}

#[test]
fn committing_callback_succeeds_and_runs_exactly_once() {
    let manager = HardwareMemoryTransactionManager::with_capability(true);
    let invocations = Cell::new(0u32);
    let outcome = manager.execute_transaction_once(
        || {
            invocations.set(invocations.get() + 1);
            0u8
        },
        attempt_without_interference,
    );
    assert_eq!(outcome, Ok(()));
    assert_eq!(invocations.get(), 1);
}

#[test]
fn aborting_callback_surfaces_its_reason_code() {
    for code in [1u8, 200, 255] {
        let manager = HardwareMemoryTransactionManager::with_capability(true);
        let outcome = manager.execute_transaction_once(|| code, attempt_without_interference);
        let result = outcome.expect_err("a nonzero code must abort");
        assert_eq!(
            result.transaction_was_explicitly_aborted_by_callback(),
            Some(code)
        );
        assert!(!result.transaction_retry_is_possible());
        assert!(!result.transaction_was_aborted_due_to_conflict_with_another_thread());
    }
}

#[test]
fn gracefully_wraps_the_attempt_answer_when_capable() {
    let manager = HardwareMemoryTransactionManager::with_capability(true);
    let committed =
        manager.execute_transaction_once_gracefully(|| 0u8, attempt_without_interference);
    assert_eq!(committed, Ok(()));
    let aborted =
        manager.execute_transaction_once_gracefully(|| 9u8, attempt_without_interference);
    match aborted {
        Err(Some(result)) => {
            assert_eq!(
                result.transaction_was_explicitly_aborted_by_callback(),
                Some(9)
            );
        }
        other => panic!("expected an abort outcome, got {:?}", other),
    }
}

#[test]
fn capability_getter_reports_the_injected_answer() {
    assert!(
        HardwareMemoryTransactionManager::with_capability(true)
            .cpu_supports_hardware_transactions()
    );
    assert!(
        !HardwareMemoryTransactionManager::with_capability(false)
            .cpu_supports_hardware_transactions()
    );
}

#[test]
fn host_probe_is_stable_across_constructions() {
    let first = HardwareMemoryTransactionManager::new();
    let second = HardwareMemoryTransactionManager::new();
    assert_eq!(
        first.cpu_supports_hardware_transactions(),
        second.cpu_supports_hardware_transactions()
    );
}

#[test]
fn probed_manager_degrades_gracefully_either_way() {
    let manager = HardwareMemoryTransactionManager::new();
    let outcome = manager.execute_transaction_once_gracefully(|| 0u8, attempt_without_interference);
    if manager.cpu_supports_hardware_transactions() {
        assert_eq!(outcome, Ok(()));
    } else {
        assert_eq!(outcome, Err(None));
    }
}

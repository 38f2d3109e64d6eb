//! The long-lived handle callers hold: it probes the host CPU for the
//! transaction capability once, caches the answer, and gates every
//! execution path on it.

use vstd::prelude::*;

use crate::hardware_memory_transaction_result::HardwareMemoryTransactionResult;

verus! {

/// raw_cpuid's decoded view of the processor's extended-feature
/// identification; opaque here, only queried through the items below.
#[verifier::external_type_specification]
#[verifier::external_body]
pub struct ExExtendedFeatures(raw_cpuid::ExtendedFeatures);

/// Relies on raw_cpuid::CpuId::get_extended_feature_info: reads the host
/// processor's extended-feature identification, or `None` when the
/// processor does not offer that identification at all.  The answer is a
/// fact about the machine, so nothing is promised of it.
#[verifier::external_body]
fn read_extended_features() -> Option<raw_cpuid::ExtendedFeatures> {
    raw_cpuid::CpuId::new().get_extended_feature_info()
}

/// Relies on raw_cpuid::ExtendedFeatures::has_rtm: the bit that announces
/// restricted-transactional-memory support.  The answer is a fact about the
/// machine, so nothing is promised of it.
#[verifier::external_body]
fn extended_features_have_rtm(features: &raw_cpuid::ExtendedFeatures) -> bool {
    features.has_rtm()
}

/// A wrapper that saves callers from checking for hardware-transaction
/// support on every call.  It carries nothing but the capability answer,
/// fixed at construction: sharing it read-only across threads is safe,
/// because what the host CPU supports does not change at runtime.
#[derive(Debug, Copy, Clone, Ord, PartialOrd, Eq, PartialEq, Hash)]
pub struct HardwareMemoryTransactionManager {
    cpu_supports_hardware_transactions: bool,
}

impl HardwareMemoryTransactionManager {
    /// The capability answer this manager was constructed with.
    pub closed spec fn spec_cpu_supports_hardware_transactions(self) -> bool {
        self.cpu_supports_hardware_transactions
    }

    /// Builds a manager that trusts the given capability answer.  Lets a
    /// test force either answer, and lets a caller that probed the host
    /// itself inject the answer.
    pub fn with_capability(cpu_supports_hardware_transactions: bool) -> (manager: Self)
        ensures
            manager.spec_cpu_supports_hardware_transactions()
                == cpu_supports_hardware_transactions,
    {
        HardwareMemoryTransactionManager { cpu_supports_hardware_transactions }
    }

    /// Probes the host CPU once and caches the answer: true only when the
    /// extended-feature identification is available and announces
    /// restricted-transactional-memory support.  Absence of the
    /// identification counts as absence of support, never as an error.
    pub fn new() -> Self {
        let cpu_supports_hardware_transactions: bool = match read_extended_features() {
            Some(features) => extended_features_have_rtm(&features),
            None => false,
        };
        Self::with_capability(cpu_supports_hardware_transactions)
    }

    /// Whether this host can run hardware transactions at all.
    pub fn cpu_supports_hardware_transactions(&self) -> (supported: bool)
        ensures
            supported == self.spec_cpu_supports_hardware_transactions(),
    {
        self.cpu_supports_hardware_transactions
    }

    /// Executes the transaction once, unconditionally.
    ///
    /// Calling this without the capability is a caller error, excluded by
    /// precondition; use the graceful variant to degrade automatically.
    /// The hardware instruction sequence cannot be written as a structured
    /// function body, so the caller hands it in as `attempt`: the routine
    /// that runs one attempt around the callback, driving the protocol of
    /// [`crate::protocol`].  Whatever `attempt` reports for this callback is
    /// returned unchanged; nothing is swallowed and nothing is retried.
    pub fn execute_transaction_once<TransactionCallback, Attempt>(
        &self,
        transaction_callback: TransactionCallback,
        attempt: Attempt,
    ) -> (outcome: Result<(), HardwareMemoryTransactionResult>) where
        TransactionCallback: FnOnce() -> u8,
        Attempt: FnOnce(TransactionCallback) -> Result<(), HardwareMemoryTransactionResult>,

        requires
            self.spec_cpu_supports_hardware_transactions(),
            call_requires(attempt, (transaction_callback,)),
        ensures
            call_ensures(attempt, (transaction_callback,), outcome),
    {
        attempt(transaction_callback)
    }

    /// Executes the transaction once if the capability is there, and
    /// otherwise reports `Err(None)`, the distinguishable
    /// feature-not-available answer, without touching the callback.
    ///
    /// On a capability-absent host the result is always `Err(None)` and the
    /// callback is never invoked: no path below passes it on, and none may
    /// call it, since nothing is required of it here.  On a capability-
    /// present host the result is exactly what `attempt` reported, with an
    /// abort outcome wrapped in `Some`.
    pub fn execute_transaction_once_gracefully<TransactionCallback, Attempt>(
        &self,
        transaction_callback: TransactionCallback,
        attempt: Attempt,
    ) -> (outcome: Result<(), Option<HardwareMemoryTransactionResult>>) where
        TransactionCallback: FnOnce() -> u8,
        Attempt: FnOnce(TransactionCallback) -> Result<(), HardwareMemoryTransactionResult>,

        requires
            self.spec_cpu_supports_hardware_transactions() ==> call_requires(
                attempt,
                (transaction_callback,),
            ),
        ensures
            outcome matches Err(None) <==> !self.spec_cpu_supports_hardware_transactions(),
            outcome matches Ok(success) ==> call_ensures(
                attempt,
                (transaction_callback,),
                Ok(success),
            ),
            outcome matches Err(Some(result)) ==> call_ensures(
                attempt,
                (transaction_callback,),
                Err(result),
            ),
    {
        if self.cpu_supports_hardware_transactions() {
            match self.execute_transaction_once(transaction_callback, attempt) {
                Ok(success) => Ok(success),
                Err(abort) => Err(Some(abort)),
            }
        } else {
            Err(None)
        }
    }
}

} // verus!

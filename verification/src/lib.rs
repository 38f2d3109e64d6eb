//! A safe envelope around a CPU's restricted-transactional-memory facility.
//!
//! A hardware transaction speculatively executes a block of memory operations
//! so that either every effect commits atomically or every effect is rolled
//! back together with a status word explaining why.  This crate provides the
//! envelope around caller-supplied transaction logic: runtime detection of the
//! capability, the begin/commit/abort protocol modelled as an explicit state
//! machine, and the decoding of the hardware status word into independently
//! queryable abort reasons.  The instruction sequence itself cannot be written
//! in safe structured code; callers inject it as the attempt routine that the
//! manager drives, and every decision taken around it lives here.

pub mod hardware_memory_transaction_manager;
pub mod hardware_memory_transaction_result;
pub mod protocol;
pub mod status;
pub mod transaction_result;

pub use hardware_memory_transaction_manager::HardwareMemoryTransactionManager;
pub use hardware_memory_transaction_result::HardwareMemoryTransactionResult;
pub use transaction_result::TransactionResult;

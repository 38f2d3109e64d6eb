//! The begin/commit/abort protocol as an explicit state machine.
//!
//! The hardware begin operation behaves like a checkpoint: the same program
//! point can be reached twice, once when the transaction starts and once
//! more after a rollback, told apart by the returned status word.  Such
//! control flow cannot be written as a structured function body, so the
//! low-level routine that issues the instructions stays outside this crate
//! and consults the machine below at every branch: each step maps the state
//! of one attempt and the event just observed to the next state and the one
//! action the routine must perform.

use vstd::prelude::*;

use crate::hardware_memory_transaction_result::HardwareMemoryTransactionResult;
use crate::status::_XABORT_CAPACITY;
use crate::status::_XABORT_CONFLICT;
use crate::status::_XABORT_DEBUG;
use crate::status::_XABORT_EXPLICIT;
use crate::status::_XABORT_NESTED;
use crate::status::_XABORT_RETRY;
use crate::status::_XBEGIN_STARTED;
use crate::status::spec_abort_code;
use crate::status::spec_flag_set;

verus! {

/// The phase one transaction attempt is in, as seen by the routine driving
/// it.  An aborted attempt leaves no trace in software: the rollback
/// restores the checkpoint, and the driver observes the abort only as a
/// fresh begin event carrying a status word instead of the sentinel.
#[derive(Debug, Copy, Clone, PartialEq, Eq)]
pub enum TransactionState {
    /// The begin operation has not come back yet.
    NotStarted,
    /// The begin operation returned the sentinel: speculative execution is
    /// under way and the callback is due to run.
    Running,
    /// The callback asked to commit; the commit operation is due.
    CommitPending,
    /// The callback asked to abort; the abort operation is due and control
    /// will reappear at the begin point.
    AbortPending {
        /// The 8-bit reason the callback supplied; by convention not zero,
        /// which is reserved for commit.
        reason_code: u8,
    },
    /// The commit operation completed: every effect is visible at once.
    Committed,
    /// The hardware rolled the attempt back and reported this outcome.
    Aborted {
        /// The decoded abort status handed to the caller.
        outcome: HardwareMemoryTransactionResult,
    },
}

/// What the routine driving an attempt just observed.
#[derive(Debug, Copy, Clone, PartialEq, Eq)]
pub enum TransactionEvent {
    /// The begin operation returned: either the sentinel on a fresh start,
    /// or the status word of an abort that rolled the attempt back here.
    BeginReturned {
        /// The value in the begin operation's result register.
        status_word: u32,
    },
    /// The callback returned this code: zero to commit, any other value to
    /// abort with that value as the reason.
    CallbackReturned {
        /// The code the callback answered with.
        code: u8,
    },
    /// The commit operation returned, so no conflicting access intervened.
    CommitCompleted,
}

/// The single action the driving routine must perform after a step.
#[derive(Debug, Copy, Clone, PartialEq, Eq)]
pub enum TransactionAction {
    /// Invoke the caller's transaction callback, exactly once.
    InvokeCallback,
    /// Issue the hardware commit operation.
    IssueCommit,
    /// Issue the hardware abort operation with this reason code; control
    /// never proceeds past it.
    IssueAbort {
        /// The code to embed in the abort, surfaced later in bits 24-31 of
        /// the status word.
        reason_code: u8,
    },
    /// Hand success to the caller: the attempt committed.
    ReportSuccess,
    /// Hand this decoded outcome to the caller: the attempt aborted.
    ReportOutcome {
        /// The decoded abort status.
        outcome: HardwareMemoryTransactionResult,
    },
}

/// The transition relation of one attempt: `Some((next, action))` when the
/// event is one the protocol expects in the given state, `None` when the
/// pair signals a logic error of the driving routine.
pub open spec fn spec_step(
    state: TransactionState,
    event: TransactionEvent,
) -> Option<(TransactionState, TransactionAction)> {
    match (state, event) {
        (
            TransactionState::NotStarted,
            TransactionEvent::BeginReturned { status_word },
        ) => if status_word == _XBEGIN_STARTED {
            Some((TransactionState::Running, TransactionAction::InvokeCallback))
        } else {
            let outcome = HardwareMemoryTransactionResult { bits: status_word };
            Some((
                TransactionState::Aborted { outcome },
                TransactionAction::ReportOutcome { outcome },
            ))
        },
        (
            TransactionState::Running,
            TransactionEvent::CallbackReturned { code },
        ) => if code == 0 {
            Some((TransactionState::CommitPending, TransactionAction::IssueCommit))
        } else {
            Some((
                TransactionState::AbortPending { reason_code: code },
                TransactionAction::IssueAbort { reason_code: code },
            ))
        },
        (TransactionState::CommitPending, TransactionEvent::CommitCompleted) => Some(
            (TransactionState::Committed, TransactionAction::ReportSuccess),
        ),
        _ => None,
    }
}

/// Performs one step of the protocol.  `None` tells the driving routine
/// that the event is not one the protocol expects in this state.
pub fn transaction_step(
    state: TransactionState,
    event: TransactionEvent,
) -> (step: Option<(TransactionState, TransactionAction)>)
    ensures
        step == spec_step(state, event),
{
    match (state, event) {
        (
            TransactionState::NotStarted,
            TransactionEvent::BeginReturned { status_word },
        ) => if status_word == _XBEGIN_STARTED {
            Some((TransactionState::Running, TransactionAction::InvokeCallback))
        } else {
            let outcome = HardwareMemoryTransactionResult::new(status_word);
            Some((
                TransactionState::Aborted { outcome },
                TransactionAction::ReportOutcome { outcome },
            ))
        },
        (
            TransactionState::Running,
            TransactionEvent::CallbackReturned { code },
        ) => if code == 0 {
            Some((TransactionState::CommitPending, TransactionAction::IssueCommit))
        } else {
            Some((
                TransactionState::AbortPending { reason_code: code },
                TransactionAction::IssueAbort { reason_code: code },
            ))
        },
        (TransactionState::CommitPending, TransactionEvent::CommitCompleted) => Some(
            (TransactionState::Committed, TransactionAction::ReportSuccess),
        ),
        _ => None,
    }
}

/// Every step of the trace is one the protocol expects, starting from the
/// given state.
pub open spec fn trace_runs(state: TransactionState, events: Seq<TransactionEvent>) -> bool
    decreases events.len(),
{
    events.len() == 0 || (spec_step(state, events[0]) matches Some(step) && trace_runs(
        step.0,
        events.drop_first(),
    ))
}

/// The state an attempt is left in after the trace; an event the protocol
/// does not expect leaves the state unchanged.
pub open spec fn final_state(
    state: TransactionState,
    events: Seq<TransactionEvent>,
) -> TransactionState
    decreases events.len(),
{
    if events.len() == 0 {
        state
    } else {
        match spec_step(state, events[0]) {
            Some(step) => final_state(step.0, events.drop_first()),
            None => state,
        }
    }
}

/// How many steps of the trace demand that the callback be invoked.
pub open spec fn callback_invocations(
    state: TransactionState,
    events: Seq<TransactionEvent>,
) -> nat
    decreases events.len(),
{
    if events.len() == 0 {
        0
    } else {
        match spec_step(state, events[0]) {
            Some(step) => (if step.1 == TransactionAction::InvokeCallback {
                1nat
            } else {
                0nat
            }) + callback_invocations(step.0, events.drop_first()),
            None => 0,
        }
    }
}

/// The callback is demanded only by the step that observes a fresh start:
/// the begin operation returning the sentinel in an attempt not yet begun.
pub proof fn lemma_callback_invoked_only_on_fresh_start(
    state: TransactionState,
    event: TransactionEvent,
)
    ensures
        (spec_step(state, event) matches Some(step) && step.1
            == TransactionAction::InvokeCallback) <==> (state == TransactionState::NotStarted
            && event == (TransactionEvent::BeginReturned { status_word: _XBEGIN_STARTED })),
{
}

/// No expected step leads back to the initial state: an attempt that has
/// begun never presents a fresh start again.
pub proof fn lemma_attempt_never_restarts(state: TransactionState, event: TransactionEvent)
    ensures
        spec_step(state, event) matches Some(step) ==> step.0 != TransactionState::NotStarted,
{
}

/// Once an attempt has begun, no later step of a run demands the callback
/// again.
proof fn lemma_no_invocation_once_started(
    state: TransactionState,
    events: Seq<TransactionEvent>,
)
    requires
        state != TransactionState::NotStarted,
    ensures
        callback_invocations(state, events) == 0,
    decreases events.len(),
{
    if events.len() > 0 {
        match spec_step(state, events[0]) {
            Some(step) => {
                lemma_attempt_never_restarts(state, events[0]);
                lemma_no_invocation_once_started(step.0, events.drop_first());
            },
            None => {},
        }
    }
}

/// Along any trace of one attempt, the callback is invoked at most once.
pub proof fn lemma_callback_invoked_at_most_once(events: Seq<TransactionEvent>)
    ensures
        callback_invocations(TransactionState::NotStarted, events) <= 1,
{
    if events.len() > 0 {
        match spec_step(TransactionState::NotStarted, events[0]) {
            Some(step) => {
                lemma_attempt_never_restarts(TransactionState::NotStarted, events[0]);
                lemma_no_invocation_once_started(step.0, events.drop_first());
            },
            None => {},
        }
    }
}

/// An attempt that runs to a commit has invoked the callback exactly once:
/// the only road to the committed state starts with the fresh-start step,
/// and no later step demands the callback again.
pub proof fn lemma_committed_attempt_invoked_callback_exactly_once(
    events: Seq<TransactionEvent>,
)
    requires
        trace_runs(TransactionState::NotStarted, events),
        final_state(TransactionState::NotStarted, events) == TransactionState::Committed,
    ensures
        callback_invocations(TransactionState::NotStarted, events) == 1,
{
    match spec_step(TransactionState::NotStarted, events[0]) {
        Some(step) => {
            if step.0 == TransactionState::Running {
                lemma_no_invocation_once_started(step.0, events.drop_first());
            } else {
                lemma_terminal_state_ends_the_trace(step.0, events.drop_first());
                assert(false);
            }
        },
        None => {
            assert(false);
        },
    }
}

/// No event at all is expected in this state: the attempt is settled, or
/// control is about to leave the structured code for good.
pub open spec fn is_terminal(state: TransactionState) -> bool {
    match state {
        TransactionState::AbortPending { .. } => true,
        TransactionState::Committed => true,
        TransactionState::Aborted { .. } => true,
        _ => false,
    }
}

/// A run from a terminal state holds no step at all and goes nowhere.
proof fn lemma_terminal_state_ends_the_trace(
    state: TransactionState,
    events: Seq<TransactionEvent>,
)
    requires
        is_terminal(state),
        trace_runs(state, events),
    ensures
        events.len() == 0,
        final_state(state, events) == state,
{
    if events.len() > 0 {
        assert(spec_step(state, events[0]) is None);
        assert(false);
    }
}

/// Once an attempt has begun, no later step of a run reaches the aborted
/// state: only the begin point reports an abort, and no step returns
/// there.
proof fn lemma_started_attempt_never_aborts_later(
    state: TransactionState,
    events: Seq<TransactionEvent>,
)
    requires
        state != TransactionState::NotStarted,
        !(state matches TransactionState::Aborted { .. }),
        trace_runs(state, events),
    ensures
        !(final_state(state, events) matches TransactionState::Aborted { .. }),
    decreases events.len(),
{
    if events.len() > 0 {
        match spec_step(state, events[0]) {
            Some(step) => {
                lemma_attempt_never_restarts(state, events[0]);
                lemma_started_attempt_never_aborts_later(step.0, events.drop_first());
            },
            None => {},
        }
    }
}

/// An attempt reaches the committed state in exactly one way: the begin
/// operation returned the sentinel, the single callback invocation
/// answered zero, and the commit operation completed.
pub proof fn lemma_committed_attempt_ran_the_clean_commit_trace(events: Seq<TransactionEvent>)
    requires
        trace_runs(TransactionState::NotStarted, events),
        final_state(TransactionState::NotStarted, events) == TransactionState::Committed,
    ensures
        events == seq![
            TransactionEvent::BeginReturned { status_word: _XBEGIN_STARTED },
            TransactionEvent::CallbackReturned { code: 0 },
            TransactionEvent::CommitCompleted,
        ],
{
    assert(events.len() > 0);
    match events[0] {
        TransactionEvent::BeginReturned { status_word } => {
            if status_word == _XBEGIN_STARTED {
                let rest1 = events.drop_first();
                assert(trace_runs(TransactionState::Running, rest1));
                if rest1.len() == 0 {
                    assert(final_state(TransactionState::Running, rest1)
                        == TransactionState::Running);
                    assert(false);
                }
                match rest1[0] {
                    TransactionEvent::CallbackReturned { code } => {
                        let rest2 = rest1.drop_first();
                        if code == 0 {
                            assert(trace_runs(TransactionState::CommitPending, rest2));
                            if rest2.len() == 0 {
                                assert(final_state(TransactionState::CommitPending, rest2)
                                    == TransactionState::CommitPending);
                                assert(false);
                            }
                            match rest2[0] {
                                TransactionEvent::CommitCompleted => {
                                    assert(trace_runs(
                                        TransactionState::Committed,
                                        rest2.drop_first(),
                                    ));
                                    lemma_terminal_state_ends_the_trace(
                                        TransactionState::Committed,
                                        rest2.drop_first(),
                                    );
                                    assert(events =~= seq![
                                        TransactionEvent::BeginReturned {
                                            status_word: _XBEGIN_STARTED,
                                        },
                                        TransactionEvent::CallbackReturned { code: 0 },
                                        TransactionEvent::CommitCompleted,
                                    ]);
                                },
                                _ => {
                                    assert(false);
                                },
                            }
                        } else {
                            lemma_terminal_state_ends_the_trace(
                                TransactionState::AbortPending { reason_code: code },
                                rest2,
                            );
                            assert(false);
                        }
                    },
                    _ => {
                        assert(false);
                    },
                }
            } else {
                lemma_terminal_state_ends_the_trace(
                    TransactionState::Aborted {
                        outcome: HardwareMemoryTransactionResult { bits: status_word },
                    },
                    events.drop_first(),
                );
                assert(false);
            }
        },
        _ => {
            assert(false);
        },
    }
}

/// An attempt reaches an aborted state in exactly one way: the begin
/// operation returned, as its very first answer, the abort status word
/// that the reported outcome wraps, and that word is not the sentinel.
pub proof fn lemma_aborted_attempt_reported_the_status_word(
    events: Seq<TransactionEvent>,
    outcome: HardwareMemoryTransactionResult,
)
    requires
        trace_runs(TransactionState::NotStarted, events),
        final_state(TransactionState::NotStarted, events) == (TransactionState::Aborted {
            outcome,
        }),
    ensures
        outcome.bits != _XBEGIN_STARTED,
        events == seq![TransactionEvent::BeginReturned { status_word: outcome.bits }],
{
    assert(events.len() > 0);
    match events[0] {
        TransactionEvent::BeginReturned { status_word } => {
            if status_word == _XBEGIN_STARTED {
                lemma_started_attempt_never_aborts_later(
                    TransactionState::Running,
                    events.drop_first(),
                );
                assert(false);
            } else {
                lemma_terminal_state_ends_the_trace(
                    TransactionState::Aborted {
                        outcome: HardwareMemoryTransactionResult { bits: status_word },
                    },
                    events.drop_first(),
                );
                assert(events =~= seq![
                    TransactionEvent::BeginReturned { status_word: outcome.bits },
                ]);
            }
        },
        _ => {
            assert(false);
        },
    }
}

/// A callback that answers a nonzero code has the attempt aborted with
/// exactly that code, and any status word that carries the explicit-abort
/// flag together with that code in its high byte decodes back to it: the
/// reason a callback gives survives the round trip through the hardware.
pub proof fn lemma_explicit_abort_code_survives_decoding(reason_code: u8)
    ensures
        reason_code != 0 ==> spec_step(
            TransactionState::Running,
            TransactionEvent::CallbackReturned { code: reason_code },
        ) == Some(
            (
                TransactionState::AbortPending { reason_code },
                TransactionAction::IssueAbort { reason_code },
            ),
        ),
        forall|status_word: u32|
            spec_flag_set(status_word, _XABORT_EXPLICIT) && status_word >> 24 == reason_code
                ==> (HardwareMemoryTransactionResult {
                bits: status_word,
            }).spec_explicitly_aborted() && spec_abort_code(status_word) == reason_code,
{
    assert forall|status_word: u32|
        spec_flag_set(status_word, _XABORT_EXPLICIT) && status_word >> 24 == reason_code
            implies (HardwareMemoryTransactionResult {
            bits: status_word,
        }).spec_explicitly_aborted() && spec_abort_code(status_word) == reason_code by {
        assert(status_word >> 24 == reason_code ==> spec_abort_code(status_word) == reason_code)
            by (bit_vector);
    }
}

/// The status word the hardware builds for an explicit abort with the given
/// reason code decodes to exactly that: the explicit flag, the code, and no
/// other reason.
pub proof fn lemma_encoded_explicit_status_decodes_exactly(reason_code: u8)
    ensures
        ({
            let status_word: u32 = ((reason_code as u32) << 24) | _XABORT_EXPLICIT;
            &&& status_word != _XBEGIN_STARTED
            &&& spec_flag_set(status_word, _XABORT_EXPLICIT)
            &&& spec_abort_code(status_word) == reason_code
            &&& !spec_flag_set(status_word, _XABORT_RETRY)
            &&& !spec_flag_set(status_word, _XABORT_CONFLICT)
            &&& !spec_flag_set(status_word, _XABORT_CAPACITY)
            &&& !spec_flag_set(status_word, _XABORT_DEBUG)
            &&& !spec_flag_set(status_word, _XABORT_NESTED)
        }),
{
    assert(((reason_code as u32) << 24) | _XABORT_EXPLICIT != _XBEGIN_STARTED) by (bit_vector);
    assert(spec_flag_set(((reason_code as u32) << 24) | _XABORT_EXPLICIT, _XABORT_EXPLICIT))
        by (bit_vector);
    assert(spec_abort_code(((reason_code as u32) << 24) | _XABORT_EXPLICIT) == reason_code)
        by (bit_vector);
    assert(!spec_flag_set(
        ((reason_code as u32) << 24) | _XABORT_EXPLICIT,
        _XABORT_RETRY,
    )) by (bit_vector);
    assert(!spec_flag_set(
        ((reason_code as u32) << 24) | _XABORT_EXPLICIT,
        _XABORT_CONFLICT,
    )) by (bit_vector);
    assert(!spec_flag_set(
        ((reason_code as u32) << 24) | _XABORT_EXPLICIT,
        _XABORT_CAPACITY,
    )) by (bit_vector);
    assert(!spec_flag_set(
        ((reason_code as u32) << 24) | _XABORT_EXPLICIT,
        _XABORT_DEBUG,
    )) by (bit_vector);
    assert(!spec_flag_set(
        ((reason_code as u32) << 24) | _XABORT_EXPLICIT,
        _XABORT_NESTED,
    )) by (bit_vector);
}

} // verus!

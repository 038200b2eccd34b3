//! The submission state machine.
//!
//! One submission moves from assembly through signing and dispatch to a
//! terminal outcome. Signing is synchronous and cannot fail for a well-formed
//! batch; everything after dispatch is driven by what the node reports. The
//! terminal outcomes keep the chain's verdict (success or a dispatch error,
//! which carries the failing module) apart from transport loss, where the
//! caller cannot tell "not applied" from "applied but unconfirmed".

use vstd::prelude::*;
use crate::calls::Call;

verus! {

/// Identifies which module and error the chain reported when it rejected an
/// operation.
#[derive(Clone, Copy, Debug, PartialEq, Eq)]
pub struct DispatchFailure {
    /// The index of the module whose operation failed.
    pub pallet_index: u8,
    /// The module's own error number.
    pub error_index: u8,
}

/// Where one submission stands.
#[derive(Clone, Copy, Debug, PartialEq, Eq)]
pub enum SubmissionState {
    /// Batch assembled, not yet signed.
    Built,
    /// Signed, not yet handed to the node.
    Signed,
    /// Accepted by the node, not yet in a block.
    Submitted,
    /// Included in a block; not yet irreversible.
    InBlock,
    /// Finalized and every operation applied.
    FinalizedSuccess,
    /// Finalized, but the chain rejected an operation; nothing was applied.
    FinalizedDispatchError(DispatchFailure),
    /// The connection was lost before a terminal on-chain outcome was seen.
    TransportError,
    /// The node discarded the submission before inclusion.
    Dropped,
}

/// What the node reports about an in-flight submission.
#[derive(Clone, Copy, Debug, PartialEq, Eq)]
pub enum NodeEvent {
    /// The submission entered a block.
    InBlockSeen,
    /// The enclosing block became irreversible and every operation applied.
    FinalizedOk,
    /// The enclosing block became irreversible but an operation was rejected.
    FinalizedWith(DispatchFailure),
    /// The connection was lost.
    ConnectionLost,
    /// The node discarded the submission from its pool.
    DroppedFromPool,
}

/// A terminal state never changes again.
pub open spec fn spec_is_terminal(s: SubmissionState) -> bool {
    match s {
        SubmissionState::FinalizedSuccess => true,
        SubmissionState::FinalizedDispatchError(_) => true,
        SubmissionState::TransportError => true,
        SubmissionState::Dropped => true,
        _ => false,
    }
}

/// The transition table: how one node report moves a submission. Reports that
/// make no sense for the current state — a finalization before inclusion was
/// observed, anything before dispatch, anything after a terminal state — leave
/// the state unchanged.
pub open spec fn spec_step(s: SubmissionState, e: NodeEvent) -> SubmissionState {
    match s {
        SubmissionState::Submitted => match e {
            NodeEvent::InBlockSeen => SubmissionState::InBlock,
            NodeEvent::ConnectionLost => SubmissionState::TransportError,
            NodeEvent::DroppedFromPool => SubmissionState::Dropped,
            _ => s,
        },
        SubmissionState::InBlock => match e {
            NodeEvent::FinalizedOk => SubmissionState::FinalizedSuccess,
            NodeEvent::FinalizedWith(d) => SubmissionState::FinalizedDispatchError(d),
            NodeEvent::ConnectionLost => SubmissionState::TransportError,
            NodeEvent::DroppedFromPool => SubmissionState::Dropped,
            _ => s,
        },
        _ => s,
    }
}

/// The state after a whole sequence of node reports.
pub open spec fn spec_run(s: SubmissionState, events: Seq<NodeEvent>) -> SubmissionState
    decreases events.len(),
{
    if events.len() == 0 {
        s
    } else {
        spec_run(spec_step(s, events[0]), events.drop_first())
    }
}

/// How a batch submission ends for the caller.
#[derive(Clone, Copy, Debug, PartialEq, Eq)]
pub enum SubmissionError {
    /// The chain rejected an operation; carries the failing module.
    Dispatch(DispatchFailure),
    /// The connection was lost before a terminal outcome; the caller must
    /// treat the submission as of unknown effect.
    Transport,
    /// The node discarded the submission before inclusion.
    Dropped,
}

/// The verdict a state yields: nothing while in flight, the outcome once
/// terminal.
pub open spec fn spec_outcome(s: SubmissionState) -> Option<Result<(), SubmissionError>> {
    match s {
        SubmissionState::FinalizedSuccess => Some(Ok(())),
        SubmissionState::FinalizedDispatchError(d) => Some(
            Err(SubmissionError::Dispatch(d)),
        ),
        SubmissionState::TransportError => Some(Err(SubmissionError::Transport)),
        SubmissionState::Dropped => Some(Err(SubmissionError::Dropped)),
        _ => None,
    }
}

/// Whether `s` is terminal.
pub fn is_terminal(s: &SubmissionState) -> (r: bool)
    ensures
        r == spec_is_terminal(*s),
{
    match s {
        SubmissionState::FinalizedSuccess => true,
        SubmissionState::FinalizedDispatchError(_) => true,
        SubmissionState::TransportError => true,
        SubmissionState::Dropped => true,
        _ => false,
    }
}

/// Signing is synchronous and must not fail for a well-formed batch: it takes
/// an assembled submission straight to the signed state.
pub fn sign(s: SubmissionState) -> (t: SubmissionState)
    requires
        s is Built,
    ensures
        t is Signed,
{
    SubmissionState::Signed
}

/// Marks a signed submission as handed to the node; the request itself is the
/// transport's business.
pub fn dispatch(s: SubmissionState) -> (t: SubmissionState)
    requires
        s is Signed,
    ensures
        t is Submitted,
{
    SubmissionState::Submitted
}

/// Applies one node report.
pub fn observe(s: SubmissionState, e: NodeEvent) -> (t: SubmissionState)
    ensures
        t == spec_step(s, e),
{
    match s {
        SubmissionState::Submitted => match e {
            NodeEvent::InBlockSeen => SubmissionState::InBlock,
            NodeEvent::ConnectionLost => SubmissionState::TransportError,
            NodeEvent::DroppedFromPool => SubmissionState::Dropped,
            _ => s,
        },
        SubmissionState::InBlock => match e {
            NodeEvent::FinalizedOk => SubmissionState::FinalizedSuccess,
            NodeEvent::FinalizedWith(d) => SubmissionState::FinalizedDispatchError(d),
            NodeEvent::ConnectionLost => SubmissionState::TransportError,
            NodeEvent::DroppedFromPool => SubmissionState::Dropped,
            _ => s,
        },
        _ => s,
    }
}

/// Applies a whole sequence of node reports in order.
pub fn observe_all(s: SubmissionState, events: &Vec<NodeEvent>) -> (t: SubmissionState)
    ensures
        t == spec_run(s, events@),
{
    let mut cur = s;
    let mut i: usize = 0;
    let n = events.len();
    proof {
        assert(events@.skip(0) =~= events@);
    }
    while i < n
        invariant
            i <= n,
            n == events@.len(),
            spec_run(s, events@) == spec_run(cur, events@.skip(i as int)),
        decreases n - i,
    {
        proof {
            assert(events@.skip(i as int)[0] == events@[i as int]);
            assert(events@.skip(i as int).drop_first() =~= events@.skip(i + 1));
        }
        cur = observe(cur, events[i]);
        i = i + 1;
    }
    proof {
        assert(events@.skip(n as int) =~= Seq::<NodeEvent>::empty());
    }
    cur
}

/// The verdict a state yields, if it is terminal.
pub fn outcome(s: &SubmissionState) -> (r: Option<Result<(), SubmissionError>>)
    ensures
        r == spec_outcome(*s),
{
    match s {
        SubmissionState::FinalizedSuccess => Some(Ok(())),
        SubmissionState::FinalizedDispatchError(d) => Some(Err(SubmissionError::Dispatch(*d))),
        SubmissionState::TransportError => Some(Err(SubmissionError::Transport)),
        SubmissionState::Dropped => Some(Err(SubmissionError::Dropped)),
        _ => None,
    }
}

/// What a batch left on chain: batches are atomic, so a successful submission
/// applied every operation and any other terminal outcome applied none.
pub open spec fn spec_batch_effects(ops: Seq<Call>, s: SubmissionState) -> Seq<Call> {
    if s is FinalizedSuccess {
        ops
    } else {
        Seq::empty()
    }
}

/// Terminal states absorb every further report.
pub proof fn lemma_terminal_absorbs(s: SubmissionState, e: NodeEvent)
    ensures
        spec_is_terminal(s) ==> spec_step(s, e) == s,
{
}

/// Finalization implies inclusion: a step only reaches a finalized state from
/// the in-block state, or was there already. In particular a finalization
/// report arriving before inclusion was observed does not finalize.
pub proof fn lemma_finalized_implies_inclusion(s: SubmissionState, e: NodeEvent)
    ensures
        spec_step(s, e) is FinalizedSuccess ==> s is InBlock || s is FinalizedSuccess,
        spec_step(s, e) matches SubmissionState::FinalizedDispatchError(d) ==> s is InBlock || s
            == SubmissionState::FinalizedDispatchError(d),
{
}

/// A run of reports never leaves a terminal state.
pub proof fn lemma_run_from_terminal_stays(s: SubmissionState, events: Seq<NodeEvent>)
    requires
        spec_is_terminal(s),
    ensures
        spec_run(s, events) == s,
    decreases events.len(),
{
    if events.len() > 0 {
        lemma_run_from_terminal_stays(s, events.drop_first());
    }
}

proof fn lemma_inblock_success_saw_finalization(events: Seq<NodeEvent>)
    requires
        spec_run(SubmissionState::InBlock, events) is FinalizedSuccess,
    ensures
        exists|j: int| 0 <= j < events.len() && events[j] is FinalizedOk,
    decreases events.len(),
{
    if events.len() == 0 {
        assert(false);
    } else {
        match events[0] {
            NodeEvent::FinalizedOk => {
                assert(events[0] is FinalizedOk);
            },
            NodeEvent::InBlockSeen => {
                lemma_inblock_success_saw_finalization(events.drop_first());
                let j = choose|j: int|
                    0 <= j < events.drop_first().len() && events.drop_first()[j] is FinalizedOk;
                assert(events[j + 1] == events.drop_first()[j]);
                assert(events[j + 1] is FinalizedOk);
            },
            NodeEvent::FinalizedWith(d) => {
                lemma_run_from_terminal_stays(
                    SubmissionState::FinalizedDispatchError(d),
                    events.drop_first(),
                );
                assert(false);
            },
            NodeEvent::ConnectionLost => {
                lemma_run_from_terminal_stays(SubmissionState::TransportError, events.drop_first());
                assert(false);
            },
            NodeEvent::DroppedFromPool => {
                lemma_run_from_terminal_stays(SubmissionState::Dropped, events.drop_first());
                assert(false);
            },
        }
    }
}

/// A dispatched submission whose run of reports ends in finalized success
/// really went through inclusion first: the reports hold an inclusion
/// strictly before a successful finalization.
pub proof fn lemma_success_saw_inclusion_then_finalization(events: Seq<NodeEvent>)
    requires
        spec_run(SubmissionState::Submitted, events) is FinalizedSuccess,
    ensures
        exists|i: int, j: int|
            0 <= i < j < events.len() && events[i] is InBlockSeen && events[j] is FinalizedOk,
    decreases events.len(),
{
    if events.len() == 0 {
        assert(false);
    } else {
        match events[0] {
            NodeEvent::InBlockSeen => {
                lemma_inblock_success_saw_finalization(events.drop_first());
                let j = choose|j: int|
                    0 <= j < events.drop_first().len() && events.drop_first()[j] is FinalizedOk;
                assert(events[j + 1] == events.drop_first()[j]);
                assert(0 <= 0 < j + 1 < events.len() && events[0] is InBlockSeen && events[j
                    + 1] is FinalizedOk);
            },
            NodeEvent::ConnectionLost => {
                lemma_run_from_terminal_stays(SubmissionState::TransportError, events.drop_first());
                assert(false);
            },
            NodeEvent::DroppedFromPool => {
                lemma_run_from_terminal_stays(SubmissionState::Dropped, events.drop_first());
                assert(false);
            },
            _ => {
                lemma_success_saw_inclusion_then_finalization(events.drop_first());
                let (i, j) = choose|i: int, j: int|
                    0 <= i < j < events.drop_first().len() && events.drop_first()[i] is InBlockSeen
                        && events.drop_first()[j] is FinalizedOk;
                assert(events[i + 1] == events.drop_first()[i]);
                assert(events[j + 1] == events.drop_first()[j]);
                assert(0 <= i + 1 < j + 1 < events.len() && events[i + 1] is InBlockSeen && events[j
                    + 1] is FinalizedOk);
            },
        }
    }
}

/// All-or-nothing batches: however a run of node reports ends, if the chain
/// rejected some member the batch had no observable effect at all, and only a
/// successful finalization applied anything — then it applied every member.
pub proof fn lemma_batch_all_or_nothing(
    ops: Seq<Call>,
    s: SubmissionState,
    events: Seq<NodeEvent>,
)
    ensures
        spec_run(s, events) matches SubmissionState::FinalizedDispatchError(d) ==> spec_outcome(
            spec_run(s, events),
        ) == Some(Err::<(), SubmissionError>(SubmissionError::Dispatch(d)))
            && spec_batch_effects(ops, spec_run(s, events)) == Seq::<Call>::empty(),
        spec_batch_effects(ops, spec_run(s, events)) == if spec_run(s, events)
            is FinalizedSuccess {
            ops
        } else {
            Seq::<Call>::empty()
        },
{
}

} // verus!

//! The tip-paid transfer: plan, wait for finalization, verify the fee event.
//!
//! The transfer sends native currency while settling its fee in a named
//! asset: the attached tip carries a zero native amount and the asset's
//! location, and the chain's fee-charging extension does the rest. The caller
//! waits for finalization — stronger than inclusion — and then demands the
//! fee-settlement event in the finalized block's log; a finalized transfer
//! without that event is its own failure, distinct from a dispatch error.

use vstd::prelude::*;
use crate::calls::{AccountId, Call, spec_transfer_keep_alive_call, transfer_keep_alive_call};
use crate::location::AssetLocation;
use crate::submission::{DispatchFailure, SubmissionState, spec_is_terminal};
use crate::tip::AssetTip;

verus! {

/// How a tip-paid transfer fails.
#[derive(Clone, Copy, Debug, PartialEq, Eq)]
pub enum TransferError {
    /// The connection was lost before a terminal outcome was seen.
    Transport,
    /// The node discarded the submission before inclusion.
    Dropped,
    /// The chain rejected the transfer; carries the failing module.
    Dispatch(DispatchFailure),
    /// The transfer finalized, but the fee was not settled in the expected
    /// asset: the fee-settlement event is absent from the block's log.
    FeeEventMissing,
}

/// One entry of a finalized block's event log, as the workflow reads it:
/// either the fee-settlement event this transfer must produce, or anything
/// else.
#[derive(Clone, Copy, Debug, PartialEq, Eq)]
pub enum ChainEventKind {
    /// The fee-charging extension settled a transaction's fee in an asset.
    AssetTxFeePaid,
    /// Any other event.
    Other,
}

/// A transfer ready to sign and submit: the call and the tip that rides with
/// it.
#[derive(Clone, Debug, PartialEq, Eq)]
pub struct TransferPlan {
    /// The transfer operation itself.
    pub call: Call,
    /// The attached tip: zero native amount, fee settled in the named asset.
    pub tip: AssetTip,
}

/// Whether the log holds the fee-settlement event.
pub open spec fn spec_contains_fee_settlement(events: Seq<ChainEventKind>) -> bool {
    exists|i: int| 0 <= i < events.len() && events[i] is AssetTxFeePaid
}

/// Plans the tip-paid transfer: a transfer with an existence guarantee, and a
/// tip whose native amount is zero — the fee is settled entirely in the named
/// asset — naming that asset.
pub fn plan_transfer_with_asset_tip(dest: AccountId, amount: u128, tip_asset: AssetLocation) -> (p:
    TransferPlan)
    ensures
        p.call == spec_transfer_keep_alive_call(dest, amount),
        p.tip == (AssetTip { tip: 0, asset: Some(tip_asset) }),
{
    TransferPlan {
        call: transfer_keep_alive_call(dest, amount),
        tip: AssetTip::new(0).of_asset(tip_asset),
    }
}

/// Scans a finalized block's log for the fee-settlement event.
pub fn contains_fee_settlement(events: &Vec<ChainEventKind>) -> (r: bool)
    ensures
        r == spec_contains_fee_settlement(events@),
{
    let mut i: usize = 0;
    let n = events.len();
    while i < n
        invariant
            i <= n,
            n == events@.len(),
            forall|j: int| 0 <= j < i ==> !(events@[j] is AssetTxFeePaid),
        decreases n - i,
    {
        if matches!(events[i], ChainEventKind::AssetTxFeePaid) {
            return true;
        }
        i = i + 1;
    }
    false
}

/// The verdict on a finished tip-paid transfer: success exactly when the
/// submission finalized successfully and the block's log holds the
/// fee-settlement event. A finalized transfer without the event fails with
/// its own error kind; a dispatch error keeps the failing module; transport
/// loss and a dropped submission keep theirs.
pub fn verify_fee_settlement(final_state: &SubmissionState, events: &Vec<ChainEventKind>) -> (r:
    Result<(), TransferError>)
    requires
        spec_is_terminal(*final_state),
    ensures
        r == Ok::<(), TransferError>(()) <==> *final_state is FinalizedSuccess
            && spec_contains_fee_settlement(events@),
        *final_state is FinalizedSuccess && !spec_contains_fee_settlement(events@) ==> r == Err::<
            (),
            TransferError,
        >(TransferError::FeeEventMissing),
        *final_state matches SubmissionState::FinalizedDispatchError(d) ==> r == Err::<
            (),
            TransferError,
        >(TransferError::Dispatch(d)),
        *final_state is TransportError ==> r == Err::<(), TransferError>(TransferError::Transport),
        *final_state is Dropped ==> r == Err::<(), TransferError>(TransferError::Dropped),
{
    match final_state {
        SubmissionState::FinalizedSuccess => {
            if contains_fee_settlement(events) {
                Ok(())
            } else {
                Err(TransferError::FeeEventMissing)
            }
        },
        SubmissionState::FinalizedDispatchError(d) => Err(TransferError::Dispatch(*d)),
        SubmissionState::TransportError => Err(TransferError::Transport),
        SubmissionState::Dropped => Err(TransferError::Dropped),
        _ => {
            proof {
                assert(false);
            }
            vstd::pervasive::unreached()
        },
    }
}

} // verus!

use asset_tip_flow::calls::{
    custom_asset_location, native_location, AccountId, AssetConversionCall, AssetsCall, Call,
};
use asset_tip_flow::fees::{ConversionError, ConvertedFeeQuote, EstimationError, FeeQuote};
use asset_tip_flow::submission::{
    dispatch, observe_all, outcome, sign, DispatchFailure, NodeEvent, SubmissionError,
    SubmissionState,
};
use asset_tip_flow::tip::AssetTip;
use asset_tip_flow::transfer::{
    plan_transfer_with_asset_tip, verify_fee_settlement, ChainEventKind, TransferError,
};
use asset_tip_flow::workflow::{
    advance, build_setup_batch, prepare_setup_batch, StepOutcome, WorkflowFailure, WorkflowPhase,
};

fn alice() -> AccountId {
    AccountId { key: subxt_signer::sr25519::dev::alice().public_key().0 }
}

fn bob() -> AccountId {
    AccountId { key: subxt_signer::sr25519::dev::bob().public_key().0 }
}

#[test]
fn setup_batch_holds_the_five_calls_in_order() {
    let admin = AccountId { key: [7u8; 32] };
    let batch = build_setup_batch(admin);
    assert_eq!(batch.len(), 5);
    assert_eq!(
        batch[0],
        Call::Assets(AssetsCall::Create { id: 1, admin, min_balance: 1 })
    );
    assert_eq!(
        batch[1],
        Call::Assets(AssetsCall::SetMetadata {
            id: 1,
            name: "Asset1".as_bytes().to_vec(),
            symbol: "A1".as_bytes().to_vec(),
            decimals: 0,
        })
    );
    assert_eq!(
        batch[2],
        Call::Assets(AssetsCall::Mint { id: 1, beneficiary: admin, amount: 100000000000000 })
    );
    assert_eq!(
        batch[3],
        Call::AssetConversion(AssetConversionCall::CreatePool {
            asset1: native_location(),
            asset2: custom_asset_location(1),
        })
    );
    assert_eq!(
        batch[4],
        Call::AssetConversion(AssetConversionCall::AddLiquidity {
            asset1: native_location(),
            asset2: custom_asset_location(1),
            amount1_desired: 10000000000,
            amount2_desired: 10000000,
            amount1_min: 0,
            amount2_min: 0,
            mint_to: admin,
        })
    );
}

#[test]
fn prepared_setup_signs_as_the_alice_dev_identity() {
    let (batch, admin) = prepare_setup_batch();
    assert_eq!(admin, alice());
    assert_eq!(batch, build_setup_batch(alice()));
}

#[test]
fn end_to_end_scenario_finalizes_with_the_fee_settled() {
    // Setup: asset 1 named "Asset1"/"A1" with 0 decimals, minted, pooled
    // against the native currency, liquidity provided — one atomic batch,
    // finalized with success.
    let (batch, _admin) = prepare_setup_batch();
    assert_eq!(batch.len(), 5);
    let setup_events = vec![NodeEvent::InBlockSeen, NodeEvent::FinalizedOk];
    let setup_state = observe_all(dispatch(sign(SubmissionState::Built)), &setup_events);
    assert_eq!(setup_state, SubmissionState::FinalizedSuccess);
    assert_eq!(outcome(&setup_state), Some(Ok(())));

    // The transfer: 100000 native units from alice to bob, fee paid in
    // asset 1 through the attached tip.
    let plan = plan_transfer_with_asset_tip(bob(), 100000, custom_asset_location(1));
    assert_eq!(plan.tip, AssetTip::new(0).of_asset(custom_asset_location(1)));

    let transfer_events = vec![NodeEvent::InBlockSeen, NodeEvent::FinalizedOk];
    let final_state = observe_all(dispatch(sign(SubmissionState::Built)), &transfer_events);
    assert_eq!(final_state, SubmissionState::FinalizedSuccess);

    // The finalized block's log carries the fee-settlement event.
    let log = vec![ChainEventKind::Other, ChainEventKind::AssetTxFeePaid, ChainEventKind::Other];
    assert_eq!(verify_fee_settlement(&final_state, &log), Ok(()));

    // The workflow walks its phases to completion.
    let mut phase = WorkflowPhase::SettingUp;
    phase = advance(phase, StepOutcome::SetupFinished(Ok(())));
    assert_eq!(phase, WorkflowPhase::EstimatingFee);
    phase = advance(
        phase,
        StepOutcome::FeeEstimated(Ok(FeeQuote { estimated_native_fee: 1537 })),
    );
    assert_eq!(phase, WorkflowPhase::ConvertingFee);
    phase = advance(
        phase,
        StepOutcome::FeeConverted(Ok(ConvertedFeeQuote { equivalent_asset_amount: 250000 })),
    );
    assert_eq!(phase, WorkflowPhase::Transferring);
    phase = advance(phase, StepOutcome::TransferFinished(Ok(())));
    assert_eq!(phase, WorkflowPhase::Completed);
}

#[test]
fn finalizing_without_the_fee_event_is_a_verification_error() {
    // A connection that finalizes the transfer but never emits the
    // fee-settlement event must surface the distinct verification failure.
    let final_state = SubmissionState::FinalizedSuccess;
    let log = vec![ChainEventKind::Other, ChainEventKind::Other];
    assert_eq!(
        verify_fee_settlement(&final_state, &log),
        Err(TransferError::FeeEventMissing)
    );
    let empty: Vec<ChainEventKind> = Vec::new();
    assert_eq!(
        verify_fee_settlement(&final_state, &empty),
        Err(TransferError::FeeEventMissing)
    );
}

#[test]
fn transfer_failures_keep_their_kinds() {
    let failure = DispatchFailure { pallet_index: 10, error_index: 2 };
    let log = vec![ChainEventKind::AssetTxFeePaid];
    assert_eq!(
        verify_fee_settlement(&SubmissionState::FinalizedDispatchError(failure), &log),
        Err(TransferError::Dispatch(failure))
    );
    assert_eq!(
        verify_fee_settlement(&SubmissionState::TransportError, &log),
        Err(TransferError::Transport)
    );
    assert_eq!(
        verify_fee_settlement(&SubmissionState::Dropped, &log),
        Err(TransferError::Dropped)
    );
}

#[test]
fn setup_dispatch_error_degrades_and_continues() {
    let failure = DispatchFailure { pallet_index: 50, error_index: 3 };
    let phase = advance(
        WorkflowPhase::SettingUp,
        StepOutcome::SetupFinished(Err(SubmissionError::Dispatch(failure))),
    );
    assert_eq!(phase, WorkflowPhase::EstimatingFee);
}

#[test]
fn failed_estimation_conversion_or_transfer_ends_the_run() {
    assert_eq!(
        advance(
            WorkflowPhase::EstimatingFee,
            StepOutcome::FeeEstimated(Err(EstimationError::Transport)),
        ),
        WorkflowPhase::Failed(WorkflowFailure::Estimation(EstimationError::Transport))
    );
    assert_eq!(
        advance(
            WorkflowPhase::ConvertingFee,
            StepOutcome::FeeConverted(Err(ConversionError::NoRoute)),
        ),
        WorkflowPhase::Failed(WorkflowFailure::Conversion(ConversionError::NoRoute))
    );
    assert_eq!(
        advance(
            WorkflowPhase::Transferring,
            StepOutcome::TransferFinished(Err(TransferError::FeeEventMissing)),
        ),
        WorkflowPhase::Failed(WorkflowFailure::Transfer(TransferError::FeeEventMissing))
    );
}

//! The setup orchestrator and the top-level workflow.
//!
//! Setup sequences five calls into one atomic batch, in an order that
//! matters: the asset must exist before its metadata is set and before units
//! are minted, and the pool must exist before liquidity is provided. The
//! top-level workflow then runs estimate, convert and the tip-paid transfer
//! in that order, each step gated on the one before. A dispatch error during
//! setup is reported and deliberately not fatal — the run degrades and
//! continues — while a failed estimate, conversion or transfer ends the run.

use vstd::prelude::*;
use crate::calls::{ASSET_ID, AccountId, AssetConversionCall, AssetsCall, Call, CallError,
    create_asset_call, create_pool_with_native_call, mint_token_call,
    provide_liquidity_to_token_native_pool_call, set_asset_metadata_call, spec_native_location,
    spec_custom_asset_location};
use crate::fees::{ConversionError, ConvertedFeeQuote, EstimationError, FeeQuote};
use crate::submission::SubmissionError;
use crate::transfer::TransferError;

verus! {

/// How many units of the custom asset the setup batch mints to the admin.
pub const AMOUNT_TO_MINT: u128 = 100000000000000;

/// The native-side deposit the setup batch provides as liquidity.
pub const LIQUIDITY_NATIVE_DESIRED: u128 = 10000000000;

/// The asset-side deposit the setup batch provides as liquidity.
pub const LIQUIDITY_ASSET_DESIRED: u128 = 10000000;

/// The minimum balance below which accounts holding the asset are reaped.
pub const ASSET_MIN_BALANCE: u128 = 1;

/// The bytes of the asset's display name, "Asset1".
pub open spec fn spec_asset_name() -> Seq<u8> {
    seq![65u8, 115u8, 115u8, 101u8, 116u8, 49u8]
}

/// The bytes of the asset's symbol, "A1".
pub open spec fn spec_asset_symbol() -> Seq<u8> {
    seq![65u8, 49u8]
}

/// Builds the asset's display name bytes.
pub fn asset_name_bytes() -> (r: Vec<u8>)
    ensures
        r@ == spec_asset_name(),
{
    let mut v: Vec<u8> = Vec::new();
    v.push(65);
    v.push(115);
    v.push(115);
    v.push(101);
    v.push(116);
    v.push(49);
    proof {
        assert(v@ =~= spec_asset_name());
    }
    v
}

/// Builds the asset's symbol bytes.
pub fn asset_symbol_bytes() -> (r: Vec<u8>)
    ensures
        r@ == spec_asset_symbol(),
{
    let mut v: Vec<u8> = Vec::new();
    v.push(65);
    v.push(49);
    proof {
        assert(v@ =~= spec_asset_symbol());
    }
    v
}

/// The exact shape of the setup batch for a given admin: create the asset,
/// set its metadata, mint to the admin, open the native pool, and provide
/// liquidity — in that order and nothing else.
pub open spec fn spec_is_setup_batch(calls: Seq<Call>, admin: AccountId) -> bool {
    &&& calls.len() == 5
    &&& calls[0] == Call::Assets(
        AssetsCall::Create { id: ASSET_ID, admin, min_balance: ASSET_MIN_BALANCE },
    )
    &&& calls[1] matches Call::Assets(AssetsCall::SetMetadata { id, name, symbol, decimals })
        && id == ASSET_ID && name@ == spec_asset_name() && symbol@ == spec_asset_symbol()
        && decimals == 0
    &&& calls[2] == Call::Assets(
        AssetsCall::Mint { id: ASSET_ID, beneficiary: admin, amount: AMOUNT_TO_MINT },
    )
    &&& calls[3] == Call::AssetConversion(
        AssetConversionCall::CreatePool {
            asset1: spec_native_location(),
            asset2: spec_custom_asset_location(ASSET_ID as u128),
        },
    )
    &&& calls[4] == Call::AssetConversion(
        AssetConversionCall::AddLiquidity {
            asset1: spec_native_location(),
            asset2: spec_custom_asset_location(ASSET_ID as u128),
            amount1_desired: LIQUIDITY_NATIVE_DESIRED,
            amount2_desired: LIQUIDITY_ASSET_DESIRED,
            amount1_min: 0,
            amount2_min: 0,
            mint_to: admin,
        },
    )
}

/// Assembles the setup batch for the given admin account.
pub fn build_setup_batch(admin: AccountId) -> (r: Vec<Call>)
    ensures
        spec_is_setup_batch(r@, admin),
{
    let mut buffer: Vec<Call> = Vec::new();
    let created: Result<Call, CallError> = create_asset_call(admin, ASSET_MIN_BALANCE);
    match created {
        Ok(c) => buffer.push(c),
        Err(_) => {
            proof {
                assert(false);
            }
        },
    }
    let metadata: Result<Call, CallError> = set_asset_metadata_call(
        ASSET_ID,
        asset_name_bytes(),
        asset_symbol_bytes(),
        0,
    );
    match metadata {
        Ok(c) => buffer.push(c),
        Err(_) => {
            proof {
                assert(false);
            }
        },
    }
    let minted: Result<Call, CallError> = mint_token_call(admin, AMOUNT_TO_MINT);
    match minted {
        Ok(c) => buffer.push(c),
        Err(_) => {
            proof {
                assert(false);
            }
        },
    }
    let pool: Result<Call, CallError> = create_pool_with_native_call();
    match pool {
        Ok(c) => buffer.push(c),
        Err(_) => {
            proof {
                assert(false);
            }
        },
    }
    let liquidity: Result<Call, CallError> = provide_liquidity_to_token_native_pool_call(
        LIQUIDITY_NATIVE_DESIRED,
        LIQUIDITY_ASSET_DESIRED,
        0,
        0,
        admin,
    );
    match liquidity {
        Ok(c) => buffer.push(c),
        Err(_) => {
            proof {
                assert(false);
            }
        },
    }
    buffer
}

/// Relies on `subxt_signer::sr25519::dev::alice`: it derives the well-known
/// "alice" development keypair from the fixed development phrase, and
/// `Keypair::public_key` yields the keypair's 32 public key bytes.
#[verifier::external_body]
fn dev_alice_public_key() -> (r: [u8; 32])
    ensures
        r@.len() == 32,
{
    subxt_signer::sr25519::dev::alice().public_key().0
}

/// Assembles the setup batch with the development admin identity the
/// workflow signs as: the batch has the required shape for the returned
/// account.
pub fn prepare_setup_batch() -> (r: (Vec<Call>, AccountId))
    ensures
        spec_is_setup_batch(r.0@, r.1),
{
    let admin = AccountId { key: dev_alice_public_key() };
    let batch = build_setup_batch(admin);
    (batch, admin)
}

/// Which step the workflow is on, or how it ended.
#[derive(Clone, Copy, Debug, PartialEq, Eq)]
pub enum WorkflowPhase {
    /// Submitting the setup batch.
    SettingUp,
    /// Simulating the transfer for a native fee estimate.
    EstimatingFee,
    /// Asking the oracle for the estimate's worth in the custom asset.
    ConvertingFee,
    /// Running the tip-paid transfer.
    Transferring,
    /// The tip-paid transfer finalized with the fee settled in the asset.
    Completed,
    /// A fatal step failure ended the run.
    Failed(WorkflowFailure),
}

/// The fatal failures a run can end with. Setup failures are absent by
/// design: they are reported and the run continues.
#[derive(Clone, Copy, Debug, PartialEq, Eq)]
pub enum WorkflowFailure {
    Estimation(EstimationError),
    Conversion(ConversionError),
    Transfer(TransferError),
}

/// The result of the step that just ran.
#[derive(Clone, Copy, Debug, PartialEq, Eq)]
pub enum StepOutcome {
    SetupFinished(Result<(), SubmissionError>),
    FeeEstimated(Result<FeeQuote, EstimationError>),
    FeeConverted(Result<ConvertedFeeQuote, ConversionError>),
    TransferFinished(Result<(), TransferError>),
}

/// The workflow's transition table. Setup always advances to estimation —
/// a setup dispatch error is surfaced to the caller but deliberately does
/// not abort the run — while a failed estimate, conversion or transfer is
/// fatal. An outcome that does not belong to the current phase changes
/// nothing, and the two final phases absorb everything.
pub open spec fn spec_advance(phase: WorkflowPhase, outcome: StepOutcome) -> WorkflowPhase {
    match (phase, outcome) {
        (WorkflowPhase::SettingUp, StepOutcome::SetupFinished(_)) => WorkflowPhase::EstimatingFee,
        (WorkflowPhase::EstimatingFee, StepOutcome::FeeEstimated(res)) => match res {
            Ok(_) => WorkflowPhase::ConvertingFee,
            Err(e) => WorkflowPhase::Failed(WorkflowFailure::Estimation(e)),
        },
        (WorkflowPhase::ConvertingFee, StepOutcome::FeeConverted(res)) => match res {
            Ok(_) => WorkflowPhase::Transferring,
            Err(e) => WorkflowPhase::Failed(WorkflowFailure::Conversion(e)),
        },
        (WorkflowPhase::Transferring, StepOutcome::TransferFinished(res)) => match res {
            Ok(_) => WorkflowPhase::Completed,
            Err(e) => WorkflowPhase::Failed(WorkflowFailure::Transfer(e)),
        },
        _ => phase,
    }
}

/// Advances the workflow by the step outcome that just arrived.
pub fn advance(phase: WorkflowPhase, outcome: StepOutcome) -> (next: WorkflowPhase)
    ensures
        next == spec_advance(phase, outcome),
{
    match (phase, outcome) {
        (WorkflowPhase::SettingUp, StepOutcome::SetupFinished(_)) => WorkflowPhase::EstimatingFee,
        (WorkflowPhase::EstimatingFee, StepOutcome::FeeEstimated(res)) => match res {
            Ok(_) => WorkflowPhase::ConvertingFee,
            Err(e) => WorkflowPhase::Failed(WorkflowFailure::Estimation(e)),
        },
        (WorkflowPhase::ConvertingFee, StepOutcome::FeeConverted(res)) => match res {
            Ok(_) => WorkflowPhase::Transferring,
            Err(e) => WorkflowPhase::Failed(WorkflowFailure::Conversion(e)),
        },
        (WorkflowPhase::Transferring, StepOutcome::TransferFinished(res)) => match res {
            Ok(_) => WorkflowPhase::Completed,
            Err(e) => WorkflowPhase::Failed(WorkflowFailure::Transfer(e)),
        },
        (p, _) => p,
    }
}

/// A setup dispatch error never ends the run: whatever the setup submission
/// reported, the workflow moves on to fee estimation.
pub proof fn lemma_setup_degrades_and_continues(res: Result<(), SubmissionError>)
    ensures
        spec_advance(WorkflowPhase::SettingUp, StepOutcome::SetupFinished(res))
            == WorkflowPhase::EstimatingFee,
{
}

} // verus!

//! Pure builders for the chain calls the workflow submits.
//!
//! Each builder takes already-validated parameters and returns the operation
//! descriptor for a specific module and operation of the chain's runtime. The
//! builders are total: for these fixed call shapes the descriptor always
//! exists, so the error leg of the result — kept for the shape the callers
//! expect — is never taken, and the contracts say so.

use vstd::prelude::*;
use crate::location::{AssetLocation, Junction, Junctions};

verus! {

/// The identifier under which the workflow's custom asset is created.
pub const ASSET_ID: u32 = 1;

/// The instance index of the assets module on the chain.
pub const ASSETS_PALLET_INSTANCE: u8 = 50;

/// A 32-byte account identifier.
#[derive(Clone, Copy, Debug, PartialEq, Eq)]
pub struct AccountId {
    /// The account's public key bytes.
    pub key: [u8; 32],
}

/// Operations of the chain's assets module used by this workflow.
#[derive(Clone, Debug, PartialEq, Eq)]
pub enum AssetsCall {
    /// Register a new asset class.
    Create { id: u32, admin: AccountId, min_balance: u128 },
    /// Attach a display name, symbol and decimal count to an asset class.
    SetMetadata { id: u32, name: Vec<u8>, symbol: Vec<u8>, decimals: u8 },
    /// Issue units of an asset class to a beneficiary.
    Mint { id: u32, beneficiary: AccountId, amount: u128 },
}

/// Operations of the chain's asset-conversion module used by this workflow.
#[derive(Clone, Copy, Debug, PartialEq, Eq)]
pub enum AssetConversionCall {
    /// Open a liquidity pool between two assets.
    CreatePool { asset1: AssetLocation, asset2: AssetLocation },
    /// Deposit liquidity into an existing pool.
    AddLiquidity {
        asset1: AssetLocation,
        asset2: AssetLocation,
        amount1_desired: u128,
        amount2_desired: u128,
        amount1_min: u128,
        amount2_min: u128,
        mint_to: AccountId,
    },
}

/// Operations of the chain's balances module used by this workflow.
#[derive(Clone, Copy, Debug, PartialEq, Eq)]
pub enum BalancesCall {
    /// Move native currency while guaranteeing the sender stays alive.
    TransferKeepAlive { dest: AccountId, amount: u128 },
}

/// One state-transition request, tagged with the module it addresses.
#[derive(Clone, Debug, PartialEq, Eq)]
pub enum Call {
    Assets(AssetsCall),
    AssetConversion(AssetConversionCall),
    Balances(BalancesCall),
}

/// A builder could not produce a descriptor; never actually raised by the
/// builders below, which their contracts record.
#[derive(Clone, Copy, Debug, PartialEq, Eq)]
pub enum CallError {
    Encoding,
}

/// The location of the chain's native currency: one scope up, empty path.
pub open spec fn spec_native_location() -> AssetLocation {
    AssetLocation { parents: 1, interior: Junctions::Here }
}

/// The location of an asset held by the local assets module instance.
pub open spec fn spec_custom_asset_location(asset_id: u128) -> AssetLocation {
    AssetLocation {
        parents: 0,
        interior: Junctions::X2(
            Junction::PalletInstance(ASSETS_PALLET_INSTANCE),
            Junction::GeneralIndex(asset_id),
        ),
    }
}

/// Builds the native currency's location.
pub fn native_location() -> (l: AssetLocation)
    ensures
        l == spec_native_location(),
{
    AssetLocation { parents: 1, interior: Junctions::Here }
}

/// Builds the location of the asset with the given index in the local assets
/// module.
pub fn custom_asset_location(asset_id: u128) -> (l: AssetLocation)
    ensures
        l == spec_custom_asset_location(asset_id),
{
    AssetLocation {
        parents: 0,
        interior: Junctions::X2(
            Junction::PalletInstance(ASSETS_PALLET_INSTANCE),
            Junction::GeneralIndex(asset_id),
        ),
    }
}

/// The assets-module create call for the workflow's asset identifier.
pub fn create_asset_call(admin: AccountId, min_balance: u128) -> (r: Result<Call, CallError>)
    ensures
        r == Ok::<Call, CallError>(
            Call::Assets((AssetsCall::Create { id: ASSET_ID, admin, min_balance })),
        ),
{
    Ok(Call::Assets(AssetsCall::Create { id: ASSET_ID, admin, min_balance }))
}

/// The assets-module metadata call: name, symbol and decimals for an asset.
pub fn set_asset_metadata_call(asset_id: u32, name: Vec<u8>, symbol: Vec<u8>, decimals: u8) -> (r:
    Result<Call, CallError>)
    ensures
        r == Ok::<Call, CallError>(
            Call::Assets((AssetsCall::SetMetadata { id: asset_id, name, symbol, decimals })),
        ),
{
    Ok(Call::Assets(AssetsCall::SetMetadata { id: asset_id, name, symbol, decimals }))
}

/// The assets-module mint call for the workflow's asset identifier.
pub fn mint_token_call(beneficiary: AccountId, amount: u128) -> (r: Result<Call, CallError>)
    ensures
        r == Ok::<Call, CallError>(
            Call::Assets((AssetsCall::Mint { id: ASSET_ID, beneficiary, amount })),
        ),
{
    Ok(Call::Assets(AssetsCall::Mint { id: ASSET_ID, beneficiary, amount }))
}

/// The pool-creation call between the native currency and the workflow's
/// asset: both legs are fixed by contract, callers choose nothing.
pub fn create_pool_with_native_call() -> (r: Result<Call, CallError>)
    ensures
        r == Ok::<Call, CallError>(
            Call::AssetConversion(
                (AssetConversionCall::CreatePool {
                    asset1: spec_native_location(),
                    asset2: spec_custom_asset_location(ASSET_ID as u128),
                }),
            ),
        ),
{
    Ok(
        Call::AssetConversion(
            AssetConversionCall::CreatePool {
                asset1: native_location(),
                asset2: custom_asset_location(ASSET_ID as u128),
            },
        ),
    )
}

/// The liquidity-provision call for the native-to-custom-asset pool: the two
/// legs are fixed, callers supply only the amounts and the recipient of the
/// pool shares.
pub fn provide_liquidity_to_token_native_pool_call(
    amount1_desired: u128,
    amount2_desired: u128,
    amount1_min: u128,
    amount2_min: u128,
    mint_to: AccountId,
) -> (r: Result<Call, CallError>)
    ensures
        r == Ok::<Call, CallError>(
            Call::AssetConversion(
                (AssetConversionCall::AddLiquidity {
                    asset1: spec_native_location(),
                    asset2: spec_custom_asset_location(ASSET_ID as u128),
                    amount1_desired,
                    amount2_desired,
                    amount1_min,
                    amount2_min,
                    mint_to,
                }),
            ),
        ),
{
    Ok(
        Call::AssetConversion(
            AssetConversionCall::AddLiquidity {
                asset1: native_location(),
                asset2: custom_asset_location(ASSET_ID as u128),
                amount1_desired,
                amount2_desired,
                amount1_min,
                amount2_min,
                mint_to,
            },
        ),
    )
}

/// The spec-level shape of a native transfer with an existence guarantee.
pub open spec fn spec_transfer_keep_alive_call(dest: AccountId, amount: u128) -> Call {
    Call::Balances(BalancesCall::TransferKeepAlive { dest, amount })
}

/// The balances-module transfer call with an existence guarantee for the
/// sender; the shape both fee estimation and the tip-paid transfer submit.
pub fn transfer_keep_alive_call(dest: AccountId, amount: u128) -> (r: Call)
    ensures
        r == spec_transfer_keep_alive_call(dest, amount),
{
    Call::Balances(BalancesCall::TransferKeepAlive { dest, amount })
}

} // verus!

//! Fee estimation and fee conversion.
//!
//! Estimation simulates a transfer without submitting it and yields the
//! node's reported partial fee in the chain's base unit. Conversion asks the
//! chain's price oracle what that native amount is worth in the workflow's
//! custom asset. Both are read-only round trips; this module holds what is
//! decided on each side of them: which query is made, and what each possible
//! reply means for the caller. A query failure is fatal to its step and never
//! replaced by a fabricated value.

use vstd::prelude::*;
use crate::calls::{ASSET_ID, AccountId, Call, spec_native_location, spec_custom_asset_location,
    spec_transfer_keep_alive_call, native_location, custom_asset_location,
    transfer_keep_alive_call};
use crate::location::AssetLocation;

verus! {

/// A native-currency fee estimate, produced by simulation and consumed at
/// once by the converter.
#[derive(Clone, Copy, Debug, PartialEq, Eq)]
pub struct FeeQuote {
    /// The node's reported partial fee, in the chain's base unit.
    pub estimated_native_fee: u128,
}

/// The price oracle's answer: how much of the target asset the native amount
/// is worth.
#[derive(Clone, Copy, Debug, PartialEq, Eq)]
pub struct ConvertedFeeQuote {
    /// The equivalent amount of the target asset.
    pub equivalent_asset_amount: u128,
}

/// Why fee estimation failed; fatal to the step either way.
#[derive(Clone, Copy, Debug, PartialEq, Eq)]
pub enum EstimationError {
    /// The connection failed before the node answered.
    Transport,
    /// The node refused to simulate the transfer.
    SimulationRejected,
}

/// Why fee conversion failed. A missing route is the oracle's own verdict and
/// is kept apart from transport loss.
#[derive(Clone, Copy, Debug, PartialEq, Eq)]
pub enum ConversionError {
    /// The oracle reported no route or liquidity between the two assets.
    NoRoute,
    /// The connection failed before the oracle answered.
    Transport,
}

/// What the node's read-only simulation of a transfer came back with.
#[derive(Clone, Copy, Debug, PartialEq, Eq)]
pub enum SimulationReply {
    /// The simulation ran; this is the reported partial fee.
    PartialFee(u128),
    /// The node rejected the simulation.
    Rejected,
    /// The connection failed first.
    TransportFailed,
}

/// What the price-oracle query came back with.
#[derive(Clone, Copy, Debug, PartialEq, Eq)]
pub enum OracleReply {
    /// The oracle answered: the converted amount, or nothing where no route
    /// or liquidity exists between the pair.
    Quote(Option<u128>),
    /// The connection failed first.
    TransportFailed,
}

/// A read-only price-oracle query, ready for the transport to carry.
#[derive(Clone, Copy, Debug, PartialEq, Eq)]
pub struct QuotePriceRequest {
    /// The asset the amount is denominated in.
    pub asset1: AssetLocation,
    /// The asset the quote is wanted in.
    pub asset2: AssetLocation,
    /// The amount to convert.
    pub amount: u128,
    /// Whether the oracle should account for its own fee when quoting.
    pub include_fee: bool,
}

/// The call whose simulation estimates the fee: a transfer with an existence
/// guarantee to the given destination.
pub fn estimation_call(dest: AccountId, amount: u128) -> (r: Call)
    ensures
        r == spec_transfer_keep_alive_call(dest, amount),
{
    transfer_keep_alive_call(dest, amount)
}

/// Turns the simulation's reply into the estimate the workflow consumes:
/// exactly a reported fee succeeds, and each failure keeps its kind.
pub fn estimate_fee(reply: SimulationReply) -> (r: Result<FeeQuote, EstimationError>)
    ensures
        reply matches SimulationReply::PartialFee(f) ==> r == Ok::<FeeQuote, EstimationError>(
            (FeeQuote { estimated_native_fee: f }),
        ),
        reply is Rejected ==> r == Err::<FeeQuote, EstimationError>(
            EstimationError::SimulationRejected,
        ),
        reply is TransportFailed ==> r == Err::<FeeQuote, EstimationError>(
            EstimationError::Transport,
        ),
{
    match reply {
        SimulationReply::PartialFee(f) => Ok(FeeQuote { estimated_native_fee: f }),
        SimulationReply::Rejected => Err(EstimationError::SimulationRejected),
        SimulationReply::TransportFailed => Err(EstimationError::Transport),
    }
}

/// The oracle query the converter makes: from the native currency into the
/// workflow's custom asset, for the given amount.
pub fn quote_price_request(amount: u128, include_fee: bool) -> (r: QuotePriceRequest)
    ensures
        r == (QuotePriceRequest {
            asset1: spec_native_location(),
            asset2: spec_custom_asset_location(ASSET_ID as u128),
            amount,
            include_fee,
        }),
{
    QuotePriceRequest {
        asset1: native_location(),
        asset2: custom_asset_location(ASSET_ID as u128),
        amount,
        include_fee,
    }
}

/// Turns the oracle's reply into the converted fee: exactly an answered quote
/// succeeds, a missing route is its own error kind, and transport loss stays
/// distinct.
pub fn convert_fee(reply: OracleReply) -> (r: Result<ConvertedFeeQuote, ConversionError>)
    ensures
        reply matches OracleReply::Quote(Some(v)) ==> r == Ok::<ConvertedFeeQuote, ConversionError>(
            (ConvertedFeeQuote { equivalent_asset_amount: v }),
        ),
        reply == OracleReply::Quote(None::<u128>) ==> r == Err::<ConvertedFeeQuote, ConversionError>(
            ConversionError::NoRoute,
        ),
        reply is TransportFailed ==> r == Err::<ConvertedFeeQuote, ConversionError>(
            ConversionError::Transport,
        ),
{
    match reply {
        OracleReply::Quote(Some(v)) => Ok(ConvertedFeeQuote { equivalent_asset_amount: v }),
        OracleReply::Quote(None) => Err(ConversionError::NoRoute),
        OracleReply::TransportFailed => Err(ConversionError::Transport),
    }
}

/// The boundary check for the documented monotonicity of the price oracle:
/// quoting with the oracle's own fee included never yields less of the target
/// asset than quoting without it. The oracle is outside this library, so the
/// property is asserted of its replies, not proved of it.
pub fn quote_monotonic_holds(with_fee: u128, without_fee: u128) -> (r: bool)
    ensures
        r == (with_fee >= without_fee),
{
    with_fee >= without_fee
}

} // verus!

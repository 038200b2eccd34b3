use asset_tip_flow::calls::{custom_asset_location, native_location, AccountId, BalancesCall, Call};
use asset_tip_flow::fees::{
    convert_fee, estimate_fee, estimation_call, quote_monotonic_holds, quote_price_request,
    ConversionError, ConvertedFeeQuote, EstimationError, FeeQuote, OracleReply, SimulationReply,
};

fn bob() -> AccountId {
    AccountId { key: [2u8; 32] }
}

#[test]
fn estimation_simulates_a_transfer_keep_alive() {
    let call = estimation_call(bob(), 100000);
    assert_eq!(
        call,
        Call::Balances(BalancesCall::TransferKeepAlive { dest: bob(), amount: 100000 })
    );
}

#[test]
fn estimate_fee_returns_the_reported_partial_fee() {
    assert_eq!(
        estimate_fee(SimulationReply::PartialFee(1537)),
        Ok(FeeQuote { estimated_native_fee: 1537 })
    );
}

#[test]
fn estimate_fee_surfaces_each_failure() {
    assert_eq!(
        estimate_fee(SimulationReply::Rejected),
        Err(EstimationError::SimulationRejected)
    );
    assert_eq!(
        estimate_fee(SimulationReply::TransportFailed),
        Err(EstimationError::Transport)
    );
}

#[test]
fn conversion_queries_native_into_the_custom_asset() {
    let req = quote_price_request(1537, true);
    assert_eq!(req.asset1, native_location());
    assert_eq!(req.asset2, custom_asset_location(1));
    assert_eq!(req.amount, 1537);
    assert!(req.include_fee);
}

#[test]
fn convert_fee_returns_the_quoted_amount() {
    assert_eq!(
        convert_fee(OracleReply::Quote(Some(250000))),
        Ok(ConvertedFeeQuote { equivalent_asset_amount: 250000 })
    );
}

#[test]
fn missing_route_is_distinct_from_transport_failure() {
    assert_eq!(convert_fee(OracleReply::Quote(None)), Err(ConversionError::NoRoute));
    assert_eq!(
        convert_fee(OracleReply::TransportFailed),
        Err(ConversionError::Transport)
    );
}

// A mock of the price oracle: a fixed linear price, with the oracle's own fee
// added to the input amount before quoting when asked to include it.
fn mock_oracle_quote(amount: u128, include_fee: bool) -> Option<u128> {
    let charged = if include_fee { amount + 25 } else { amount };
    Some(charged * 3)
}

#[test]
fn including_the_oracle_fee_never_quotes_less() {
    // The documented monotonicity of the oracle, asserted at the boundary
    // against a mock: for the same amount, quoting with `include_fee` never
    // yields a smaller converted amount than quoting without it.
    for amount in [0u128, 1, 1537, 1_000_000] {
        let with_fee = mock_oracle_quote(amount, true).unwrap();
        let without_fee = mock_oracle_quote(amount, false).unwrap();
        assert!(quote_monotonic_holds(with_fee, without_fee), "amount {amount}");

        let converted_with = convert_fee(OracleReply::Quote(Some(with_fee))).unwrap();
        let converted_without = convert_fee(OracleReply::Quote(Some(without_fee))).unwrap();
        assert!(
            converted_with.equivalent_asset_amount >= converted_without.equivalent_asset_amount
        );
    }
}

#[test]
fn the_monotonicity_check_rejects_a_shrinking_quote() {
    assert!(!quote_monotonic_holds(99, 100));
}

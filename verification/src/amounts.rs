use vstd::prelude::*;

use crate::errors::RevertError;

verus! {

/// The weight of the collaborative revert transaction in weight units. The
/// transaction is expected to have 1 input (the funding output) and 2
/// outputs, one per party. If either party were to not have an output, the
/// weight would be overestimated and the fee higher than necessary.
pub const COLLABORATIVE_REVERT_TX_WEIGHT: u64 = 672;

/// Convert a millisatoshi amount to whole satoshis, dropping any fractional
/// remainder.
pub fn msat_to_sat(msat: u64) -> (sat: u64)
    ensures
        sat == msat / 1000,
{
    msat / 1000
}

/// Whether every subtraction of the reserved-fee estimate stays
/// non-negative.
pub open spec fn reserved_fee_in_range(
    fund_txo_sat: int,
    inbound_capacity: int,
    outbound_capacity: int,
    reserve: int,
    trader_margin: int,
    coordinator_margin: int,
) -> bool {
    fund_txo_sat
        >= inbound_capacity + outbound_capacity + 2 * reserve + trader_margin + coordinator_margin
}

/// The satoshis set aside for future transaction fees when the subchannel
/// was created.
pub open spec fn spec_reserved_fee(
    fund_txo_sat: int,
    inbound_capacity: int,
    outbound_capacity: int,
    reserve: int,
    trader_margin: int,
    coordinator_margin: int,
) -> int {
    fund_txo_sat - inbound_capacity - outbound_capacity - 2 * reserve - trader_margin
        - coordinator_margin
}

/// Estimate how many sats were reserved to pay for potential transaction
/// fees when creating the subchannel.
///
/// This fee was meant to be split evenly between both parties.
///
/// Every subtraction is checked: if any intermediate result would be
/// negative the call fails with an arithmetic-underflow error instead of
/// wrapping or panicking, and that is the only way this estimator fails.
pub fn estimate_subchannel_reserved_tx_fees(
    fund_txo_sat: u64,
    inbound_capacity: u64,
    outbound_capacity: u64,
    reserve: u64,
    trader_margin: u64,
    coordinator_margin: u64,
) -> (r: Result<u64, RevertError>)
    ensures
        r is Ok <==> reserved_fee_in_range(
            fund_txo_sat as int,
            inbound_capacity as int,
            outbound_capacity as int,
            reserve as int,
            trader_margin as int,
            coordinator_margin as int,
        ),
        r matches Ok(fee) ==> fee == spec_reserved_fee(
            fund_txo_sat as int,
            inbound_capacity as int,
            outbound_capacity as int,
            reserve as int,
            trader_margin as int,
            coordinator_margin as int,
        ),
        r matches Err(e) ==> e == RevertError::ArithmeticUnderflow,
{
    let after_inbound = match fund_txo_sat.checked_sub(inbound_capacity) {
        Some(v) => v,
        None => {
            return Err(RevertError::ArithmeticUnderflow);
        },
    };
    let after_outbound = match after_inbound.checked_sub(outbound_capacity) {
        Some(v) => v,
        None => {
            return Err(RevertError::ArithmeticUnderflow);
        },
    };
    // The reserve is held by both parties, so it is subtracted twice; doing
    // so in two checked steps reports the doubled reserve exceeding the
    // remainder as the same underflow.
    let after_first_reserve = match after_outbound.checked_sub(reserve) {
        Some(v) => v,
        None => {
            return Err(RevertError::ArithmeticUnderflow);
        },
    };
    let after_reserve = match after_first_reserve.checked_sub(reserve) {
        Some(v) => v,
        None => {
            return Err(RevertError::ArithmeticUnderflow);
        },
    };
    let after_trader_margin = match after_reserve.checked_sub(trader_margin) {
        Some(v) => v,
        None => {
            return Err(RevertError::ArithmeticUnderflow);
        },
    };
    let dlc_tx_fee = match after_trader_margin.checked_sub(coordinator_margin) {
        Some(v) => v,
        None => {
            return Err(RevertError::ArithmeticUnderflow);
        },
    };
    Ok(dlc_tx_fee)
}

/// The absolute fee, in satoshi, for a transaction of the given weight at
/// the given fee rate: the weight is converted to virtual size (weight
/// units divided by four, rounded up) and multiplied by the rate.
pub open spec fn spec_weight_to_fee(weight: int, fee_rate: int) -> int {
    ((weight + 3) / 4) * fee_rate
}

/// Convert a transaction weight and a fee rate in satoshi per virtual byte
/// to an absolute fee. Returns `None` if the multiplication overflows.
pub fn weight_to_fee(weight: u64, fee_rate: u64) -> (r: Option<u64>)
    ensures
        r is Some <==> spec_weight_to_fee(weight as int, fee_rate as int) <= u64::MAX,
        r matches Some(fee) ==> fee == spec_weight_to_fee(weight as int, fee_rate as int),
{
    let vsize: u64 = weight / 4 + (if weight % 4 != 0 {
        1u64
    } else {
        0u64
    });
    assert(vsize == (weight + 3) / 4);
    vsize.checked_mul(fee_rate)
}

/// The coordinator's raw payout when the channel is not split: the funding
/// value less the counterparty's inbound liquidity and unspendable reserve.
pub open spec fn spec_coordinator_raw_not_split(
    fund_value: int,
    inbound_sat: int,
    reserve: int,
) -> int {
    fund_value - inbound_sat - reserve
}

/// The coordinator's raw payout when the channel is split: the not-split
/// amount less the counterparty's contract entitlement at the settlement
/// price and the coordinator's half of the reserved subchannel fee.
pub open spec fn spec_coordinator_raw_split(
    fund_value: int,
    inbound_sat: int,
    reserve: int,
    entitlement: int,
    reserved_fee: int,
) -> int {
    fund_value - inbound_sat - reserve - entitlement - reserved_fee / 2
}

/// Compute the coordinator's raw payout for a channel that is not split. A
/// negative result is reported as an arithmetic-underflow error rather than
/// being cast to unsigned.
pub fn coordinator_raw_not_split(fund_value: u64, inbound_sat: u64, reserve: u64) -> (r: Result<
    u64,
    RevertError,
>)
    ensures
        r is Ok <==> spec_coordinator_raw_not_split(
            fund_value as int,
            inbound_sat as int,
            reserve as int,
        ) >= 0,
        r matches Ok(amount) ==> amount == spec_coordinator_raw_not_split(
            fund_value as int,
            inbound_sat as int,
            reserve as int,
        ),
        r matches Err(e) ==> e == RevertError::ArithmeticUnderflow,
{
    let after_inbound = match fund_value.checked_sub(inbound_sat) {
        Some(v) => v,
        None => {
            return Err(RevertError::ArithmeticUnderflow);
        },
    };
    match after_inbound.checked_sub(reserve) {
        Some(v) => Ok(v),
        None => Err(RevertError::ArithmeticUnderflow),
    }
}

/// Compute the coordinator's raw payout for a split channel, given the
/// counterparty's entitlement at the settlement price and the reserved
/// subchannel fee (of which each party bears half, rounded down). A
/// negative result is reported as an arithmetic-underflow error rather than
/// being cast to unsigned.
pub fn coordinator_raw_split(
    fund_value: u64,
    inbound_sat: u64,
    reserve: u64,
    entitlement: u64,
    reserved_fee: u64,
) -> (r: Result<u64, RevertError>)
    ensures
        r is Ok <==> spec_coordinator_raw_split(
            fund_value as int,
            inbound_sat as int,
            reserve as int,
            entitlement as int,
            reserved_fee as int,
        ) >= 0,
        r matches Ok(amount) ==> amount == spec_coordinator_raw_split(
            fund_value as int,
            inbound_sat as int,
            reserve as int,
            entitlement as int,
            reserved_fee as int,
        ),
        r matches Err(e) ==> e == RevertError::ArithmeticUnderflow,
{
    let half_reserved = reserved_fee / 2;
    let after_inbound = match fund_value.checked_sub(inbound_sat) {
        Some(v) => v,
        None => {
            return Err(RevertError::ArithmeticUnderflow);
        },
    };
    let after_reserve = match after_inbound.checked_sub(reserve) {
        Some(v) => v,
        None => {
            return Err(RevertError::ArithmeticUnderflow);
        },
    };
    let after_entitlement = match after_reserve.checked_sub(entitlement) {
        Some(v) => v,
        None => {
            return Err(RevertError::ArithmeticUnderflow);
        },
    };
    match after_entitlement.checked_sub(half_reserved) {
        Some(v) => Ok(v),
        None => Err(RevertError::ArithmeticUnderflow),
    }
}

/// Both parties' final payout amounts: each party's share of the network
/// fee (half, rounded down) is subtracted from its raw amount.
pub open spec fn spec_coordinator_final(coordinator_raw: int, fee: int) -> int {
    coordinator_raw - fee / 2
}

pub open spec fn spec_trader_final(fund_value: int, coordinator_raw: int, fee: int) -> int {
    fund_value - coordinator_raw - fee / 2
}

/// Whether the raw coordinator amount and the fee leave both parties with a
/// non-negative final payout.
pub open spec fn final_amounts_in_range(fund_value: int, coordinator_raw: int, fee: int) -> bool {
    &&& 0 <= coordinator_raw <= fund_value
    &&& coordinator_raw >= fee / 2
    &&& fund_value - coordinator_raw >= fee / 2
}

/// Subtract each party's half of the network fee from its raw amount. The
/// trader's raw amount is whatever of the funding value the coordinator's
/// raw amount leaves. Any subtraction that would go negative fails with an
/// arithmetic-underflow error.
pub fn apply_network_fee(fund_value: u64, coordinator_raw: u64, fee: u64) -> (r: Result<
    (u64, u64),
    RevertError,
>)
    requires
        coordinator_raw <= fund_value,
    ensures
        r is Ok <==> final_amounts_in_range(fund_value as int, coordinator_raw as int, fee as int),
        r matches Ok(amounts) ==> {
            &&& amounts.0 == spec_coordinator_final(coordinator_raw as int, fee as int)
            &&& amounts.1 == spec_trader_final(
                fund_value as int,
                coordinator_raw as int,
                fee as int,
            )
        },
        r matches Err(e) ==> e == RevertError::ArithmeticUnderflow,
{
    let trader_raw = fund_value - coordinator_raw;
    let half_fee = fee / 2;
    let coordinator_amount = match coordinator_raw.checked_sub(half_fee) {
        Some(v) => v,
        None => {
            return Err(RevertError::ArithmeticUnderflow);
        },
    };
    let trader_amount = match trader_raw.checked_sub(half_fee) {
        Some(v) => v,
        None => {
            return Err(RevertError::ArithmeticUnderflow);
        },
    };
    Ok((coordinator_amount, trader_amount))
}

/// The two final amounts and the fee conserve the funding value: together
/// the payouts and both fee halves add back up to the funding value, so
/// with an even fee `coordinator + trader == funding − fee` exactly. Each
/// party bears half the fee rounded down; an odd fee's remaining satoshi is
/// charged to neither party. The revert transaction's fee is always even
/// (its virtual size, 168, is even), so the exact equation holds on every
/// path of this crate.
pub proof fn lemma_final_amounts_conserve_funding(fund_value: int, coordinator_raw: int, fee: int)
    requires
        fee >= 0,
    ensures
        spec_coordinator_final(coordinator_raw, fee) + spec_trader_final(
            fund_value,
            coordinator_raw,
            fee,
        ) + 2 * (fee / 2) == fund_value,
        fee % 2 == 0 ==> spec_coordinator_final(coordinator_raw, fee) + spec_trader_final(
            fund_value,
            coordinator_raw,
            fee,
        ) == fund_value - fee,
{
    assert(fee % 2 == 0 ==> 2 * (fee / 2) == fee);
}

} // verus!

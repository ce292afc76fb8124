use vstd::prelude::*;

use crate::amounts::apply_network_fee;
use crate::amounts::coordinator_raw_not_split;
use crate::amounts::coordinator_raw_split;
use crate::amounts::estimate_subchannel_reserved_tx_fees;
use crate::amounts::final_amounts_in_range;
use crate::amounts::msat_to_sat;
use crate::amounts::reserved_fee_in_range;
use crate::amounts::spec_coordinator_final;
use crate::amounts::spec_coordinator_raw_not_split;
use crate::amounts::spec_coordinator_raw_split;
use crate::amounts::spec_reserved_fee;
use crate::amounts::spec_trader_final;
use crate::amounts::spec_weight_to_fee;
use crate::amounts::weight_to_fee;
use crate::amounts::COLLABORATIVE_REVERT_TX_WEIGHT;
use crate::errors::RevertError;
use crate::model::ChannelFacts;
use crate::model::CollaborativeRevert;
use crate::model::NotificationKind;
use crate::model::OutboundProposal;
use crate::model::Outpoint;
use crate::model::outpoint_eq;
use crate::model::outpoint_same;
use crate::model::PositionFacts;
use crate::model::Price;
use crate::model::RevertProposalMessage;
use crate::model::Subchannel;

verus! {

/// What a successful propose hands back: the durable proposal record, to be
/// persisted first, and the message to dispatch to the counterparty
/// strictly afterwards. A crash after persisting but before dispatch
/// leaves a recoverable record; a crash before persisting leaves no trace.
pub struct ProposalOutcome {
    pub record: CollaborativeRevert,
    pub outbound: OutboundProposal,
}

/// The channel is split when both the current and the original funding
/// outpoint are present and differ.
pub open spec fn split_decision(facts: ChannelFacts) -> bool {
    &&& facts.funding_txo is Some
    &&& facts.original_funding_outpoint is Some
    &&& !outpoint_same(facts.original_funding_outpoint->0, facts.funding_txo->0)
}

/// Decide whether the channel has been split: the original funding outpoint
/// has been superseded by a different current one. Without a current
/// funding outpoint no revert is possible at all.
pub fn is_channel_split(facts: &ChannelFacts) -> (r: Result<bool, RevertError>)
    ensures
        r is Ok <==> facts.funding_txo is Some,
        r matches Ok(split) ==> split == split_decision(*facts),
        r matches Err(e) ==> e == RevertError::MissingFundingOutpoint,
{
    match (&facts.funding_txo, &facts.original_funding_outpoint) {
        (Some(current), Some(original)) => Ok(!outpoint_eq(original, current)),
        (Some(_), None) => Ok(false),
        (None, _) => Err(RevertError::MissingFundingOutpoint),
    }
}

/// Relies on `time::OffsetDateTime::now_utc`: the creation timestamp of a
/// proposal record is read from the system clock, so nothing is promised
/// of the value.
#[verifier::external_body]
fn unix_timestamp_now() -> (t: i64) {
    time::OffsetDateTime::now_utc().unix_timestamp()
}

/// The coordinator's raw payout chosen by the split decision.
pub open spec fn spec_propose_coordinator_raw(
    facts: ChannelFacts,
    subchannel: Subchannel,
    position: PositionFacts,
    entitlement: int,
) -> int {
    let fund = subchannel.fund_value_satoshis as int;
    let inbound_sat = facts.inbound_capacity_msat as int / 1000;
    let reserve = facts.counterparty_unspendable_reserve_sat as int;
    if split_decision(facts) {
        spec_coordinator_raw_split(
            fund,
            inbound_sat,
            reserve,
            entitlement,
            spec_reserved_fee(
                fund,
                inbound_sat,
                facts.outbound_capacity_msat as int / 1000,
                reserve,
                position.trader_margin_sats as int,
                position.coordinator_margin_sats as int,
            ),
        )
    } else {
        spec_coordinator_raw_not_split(fund, inbound_sat, reserve)
    }
}

/// Whether every satoshi amount of the proposal can be computed without any
/// checked subtraction going negative.
pub open spec fn propose_amounts_ok(
    facts: ChannelFacts,
    subchannel: Subchannel,
    position: Option<PositionFacts>,
    entitlement: int,
    fee: int,
) -> bool {
    let fund = subchannel.fund_value_satoshis as int;
    let inbound_sat = facts.inbound_capacity_msat as int / 1000;
    let reserve = facts.counterparty_unspendable_reserve_sat as int;
    if split_decision(facts) {
        position matches Some(p) && {
            let raw = spec_propose_coordinator_raw(facts, subchannel, p, entitlement);
            &&& reserved_fee_in_range(
                fund,
                inbound_sat,
                facts.outbound_capacity_msat as int / 1000,
                reserve,
                p.trader_margin_sats as int,
                p.coordinator_margin_sats as int,
            )
            &&& raw >= 0
            &&& final_amounts_in_range(fund, raw, fee)
        }
    } else {
        let raw = spec_coordinator_raw_not_split(fund, inbound_sat, reserve);
        raw >= 0 && final_amounts_in_range(fund, raw, fee)
    }
}

/// Propose collaboratively reverting the channel identified by
/// `channel_id`.
///
/// A collaborative revert spends the channel's funding output directly
/// into one fresh address per party, splitting funds according to the
/// settlement price. This entry point requires the channel runtime's live
/// channel detail (`channel_facts`); without it, use
/// `propose_collaborative_revert_without_channel_details` instead.
///
/// The caller supplies the facts it gathered: the live channel detail, the
/// subchannel record for the channel id, the counterparty's open position
/// and its contract entitlement at the settlement price (consulted only in
/// the split case), and a fresh coordinator receiving address. On success
/// the returned record must be persisted before the returned message is
/// dispatched; on failure there is nothing to persist or dispatch.
pub fn propose_collaborative_revert(
    channel_id: [u8; 32],
    settlement_price: Price,
    fee_rate_sats_vb: u64,
    funding_txo: Outpoint,
    channel_facts: Option<&ChannelFacts>,
    subchannel: Option<&Subchannel>,
    position: Option<&PositionFacts>,
    counterparty_settlement_amount: u64,
    coordinator_address: String,
) -> (r: Result<ProposalOutcome, RevertError>)
    requires
        1 <= fee_rate_sats_vb <= u64::MAX / 168,
    ensures
        channel_facts is None ==> r == Err::<ProposalOutcome, RevertError>(
            RevertError::MissingChannelDetails,
        ),
        channel_facts is Some && subchannel is None ==> r == Err::<ProposalOutcome, RevertError>(
            RevertError::MissingSubchannel,
        ),
        (channel_facts matches Some(facts) && subchannel is Some && facts.funding_txo is None)
            ==> r == Err::<ProposalOutcome, RevertError>(RevertError::MissingFundingOutpoint),
        (channel_facts matches Some(facts) && subchannel is Some && split_decision(*facts)
            && position is None) ==> r == Err::<ProposalOutcome, RevertError>(
            RevertError::MissingPosition,
        ),
        r is Ok <==> (channel_facts matches Some(facts) && subchannel matches Some(sub) && {
            &&& facts.funding_txo is Some
            &&& (split_decision(*facts) ==> position is Some)
            &&& propose_amounts_ok(
                *facts,
                *sub,
                match position {
                    Some(p) => Some(*p),
                    None => None,
                },
                counterparty_settlement_amount as int,
                spec_weight_to_fee(
                    COLLABORATIVE_REVERT_TX_WEIGHT as int,
                    fee_rate_sats_vb as int,
                ),
            )
        }),
        (channel_facts matches Some(facts) && subchannel is Some && facts.funding_txo is Some && (
        split_decision(*facts) ==> position is Some) && r is Err) ==> r == Err::<
            ProposalOutcome,
            RevertError,
        >(RevertError::ArithmeticUnderflow),
        r matches Ok(out) ==> channel_facts matches Some(facts)
            ==> subchannel matches Some(sub) ==> {
            let fee = spec_weight_to_fee(COLLABORATIVE_REVERT_TX_WEIGHT as int, fee_rate_sats_vb as int);
            let raw = spec_propose_coordinator_raw(
                *facts,
                *sub,
                match position {
                    Some(p) => *p,
                    None => (PositionFacts { id: 0, trader_margin_sats: 0, coordinator_margin_sats: 0 }),
                },
                counterparty_settlement_amount as int,
            );
            &&& out.record.channel_id@ == channel_id@
            &&& out.record.trader_pubkey@ == sub.counter_party@
            &&& out.record.price == settlement_price
            &&& out.record.coordinator_address@ == coordinator_address@
            &&& out.record.coordinator_amount_sats == spec_coordinator_final(raw, fee)
            &&& out.record.trader_amount_sats == spec_trader_final(
                sub.fund_value_satoshis as int,
                raw,
                fee,
            )
            &&& out.record.coordinator_amount_sats + out.record.trader_amount_sats
                == sub.fund_value_satoshis - fee
            &&& out.record.txid@ == funding_txo.txid@
            &&& out.record.vout == funding_txo.vout
            &&& out.outbound.trader_id@ == sub.counter_party@
            &&& out.outbound.notification == NotificationKind::CollaborativeRevert
            &&& out.outbound.message.channel_id@ == channel_id@
            &&& out.outbound.message.coordinator_address@ == coordinator_address@
            &&& out.outbound.message.coordinator_amount == out.record.coordinator_amount_sats
            &&& out.outbound.message.trader_amount == out.record.trader_amount_sats
            &&& out.outbound.message.execution_price == settlement_price
            &&& outpoint_same(out.outbound.message.funding_txo, funding_txo)
        },
{
    let facts = match channel_facts {
        Some(facts) => facts,
        None => {
            return Err(RevertError::MissingChannelDetails);
        },
    };
    let sub = match subchannel {
        Some(sub) => sub,
        None => {
            return Err(RevertError::MissingSubchannel);
        },
    };

    let fund_value = sub.fund_value_satoshis;
    let inbound_sat = msat_to_sat(facts.inbound_capacity_msat);
    let outbound_sat = msat_to_sat(facts.outbound_capacity_msat);
    let reserve = facts.counterparty_unspendable_reserve_sat;

    let split = match is_channel_split(facts) {
        Ok(split) => split,
        Err(e) => {
            return Err(e);
        },
    };

    let coordinator_raw = if split {
        let pos = match position {
            Some(pos) => pos,
            None => {
                return Err(RevertError::MissingPosition);
            },
        };
        let reserved_fee = match estimate_subchannel_reserved_tx_fees(
            fund_value,
            inbound_sat,
            outbound_sat,
            reserve,
            pos.trader_margin_sats,
            pos.coordinator_margin_sats,
        ) {
            Ok(reserved_fee) => reserved_fee,
            Err(e) => {
                return Err(e);
            },
        };
        match coordinator_raw_split(
            fund_value,
            inbound_sat,
            reserve,
            counterparty_settlement_amount,
            reserved_fee,
        ) {
            Ok(raw) => raw,
            Err(e) => {
                return Err(e);
            },
        }
    } else {
        match coordinator_raw_not_split(fund_value, inbound_sat, reserve) {
            Ok(raw) => raw,
            Err(e) => {
                return Err(e);
            },
        }
    };

    let fee = match weight_to_fee(COLLABORATIVE_REVERT_TX_WEIGHT, fee_rate_sats_vb) {
        Some(fee) => fee,
        None => {
            // Unreachable: the fee-rate bound keeps 168 virtual bytes
            // times the rate within range.
            return Err(RevertError::ArithmeticUnderflow);
        },
    };

    let (coordinator_amount, trader_amount) = match apply_network_fee(
        fund_value,
        coordinator_raw,
        fee,
    ) {
        Ok(amounts) => amounts,
        Err(e) => {
            return Err(e);
        },
    };

    proof {
        assert(fee == 168 * fee_rate_sats_vb);
        assert(fee % 2 == 0) by {
            assert(fee == 2 * (84 * fee_rate_sats_vb));
        };
        assert(coordinator_amount + trader_amount == fund_value - fee);
    }

    let timestamp = unix_timestamp_now();

    let record = CollaborativeRevert {
        channel_id,
        trader_pubkey: sub.counter_party,
        price: settlement_price,
        coordinator_address: coordinator_address.clone(),
        coordinator_amount_sats: coordinator_amount,
        trader_amount_sats: trader_amount,
        timestamp,
        txid: funding_txo.txid,
        vout: funding_txo.vout,
    };
    let outbound = OutboundProposal {
        trader_id: sub.counter_party,
        message: RevertProposalMessage {
            channel_id,
            coordinator_address,
            coordinator_amount,
            trader_amount,
            execution_price: settlement_price,
            funding_txo,
        },
        notification: NotificationKind::CollaborativeRevert,
    };
    Ok(ProposalOutcome { record, outbound })
}

/// Propose collaboratively reverting the channel identified by
/// `channel_id` without the channel runtime's live channel detail.
///
/// The caller supplies the coordinator's raw amount directly, already net
/// of channel facts; the settlement price is carried only for
/// informational display to the counterparty.
pub fn propose_collaborative_revert_without_channel_details(
    channel_id: [u8; 32],
    funding_txo: Outpoint,
    coordinator_amount: u64,
    fee_rate_sats_vb: u64,
    settlement_price: Price,
    subchannel: Option<&Subchannel>,
    coordinator_address: String,
) -> (r: Result<ProposalOutcome, RevertError>)
    requires
        1 <= fee_rate_sats_vb <= u64::MAX / 168,
    ensures
        subchannel is None ==> r == Err::<ProposalOutcome, RevertError>(
            RevertError::MissingSubchannel,
        ),
        r is Ok <==> (subchannel matches Some(sub) && coordinator_amount
            <= sub.fund_value_satoshis && final_amounts_in_range(
            sub.fund_value_satoshis as int,
            coordinator_amount as int,
            spec_weight_to_fee(COLLABORATIVE_REVERT_TX_WEIGHT as int, fee_rate_sats_vb as int),
        )),
        (subchannel is Some && r is Err) ==> r == Err::<ProposalOutcome, RevertError>(
            RevertError::ArithmeticUnderflow,
        ),
        r matches Ok(out) ==> subchannel matches Some(sub) ==> {
            let fee = spec_weight_to_fee(COLLABORATIVE_REVERT_TX_WEIGHT as int, fee_rate_sats_vb as int);
            &&& out.record.channel_id@ == channel_id@
            &&& out.record.trader_pubkey@ == sub.counter_party@
            &&& out.record.price == settlement_price
            &&& out.record.coordinator_address@ == coordinator_address@
            &&& out.record.coordinator_amount_sats == spec_coordinator_final(
                coordinator_amount as int,
                fee,
            )
            &&& out.record.trader_amount_sats == spec_trader_final(
                sub.fund_value_satoshis as int,
                coordinator_amount as int,
                fee,
            )
            &&& out.record.coordinator_amount_sats + out.record.trader_amount_sats
                == sub.fund_value_satoshis - fee
            &&& out.record.txid@ == funding_txo.txid@
            &&& out.record.vout == funding_txo.vout
            &&& out.outbound.trader_id@ == sub.counter_party@
            &&& out.outbound.notification == NotificationKind::CollaborativeRevert
            &&& out.outbound.message.channel_id@ == channel_id@
            &&& out.outbound.message.coordinator_address@ == coordinator_address@
            &&& out.outbound.message.coordinator_amount == out.record.coordinator_amount_sats
            &&& out.outbound.message.trader_amount == out.record.trader_amount_sats
            &&& out.outbound.message.execution_price == settlement_price
            &&& outpoint_same(out.outbound.message.funding_txo, funding_txo)
        },
{
    let sub = match subchannel {
        Some(sub) => sub,
        None => {
            return Err(RevertError::MissingSubchannel);
        },
    };

    let fund_value = sub.fund_value_satoshis;
    if coordinator_amount > fund_value {
        return Err(RevertError::ArithmeticUnderflow);
    }

    let fee = match weight_to_fee(COLLABORATIVE_REVERT_TX_WEIGHT, fee_rate_sats_vb) {
        Some(fee) => fee,
        None => {
            // Unreachable: the fee-rate bound keeps 168 virtual bytes
            // times the rate within range.
            return Err(RevertError::ArithmeticUnderflow);
        },
    };

    let (coordinator_final, trader_final) = match apply_network_fee(
        fund_value,
        coordinator_amount,
        fee,
    ) {
        Ok(amounts) => amounts,
        Err(e) => {
            return Err(e);
        },
    };

    proof {
        assert(fee == 168 * fee_rate_sats_vb);
        assert(fee % 2 == 0) by {
            assert(fee == 2 * (84 * fee_rate_sats_vb));
        };
        assert(coordinator_final + trader_final == fund_value - fee);
    }

    let timestamp = unix_timestamp_now();

    let record = CollaborativeRevert {
        channel_id,
        trader_pubkey: sub.counter_party,
        price: settlement_price,
        coordinator_address: coordinator_address.clone(),
        coordinator_amount_sats: coordinator_final,
        trader_amount_sats: trader_final,
        timestamp,
        txid: funding_txo.txid,
        vout: funding_txo.vout,
    };
    let outbound = OutboundProposal {
        trader_id: sub.counter_party,
        message: RevertProposalMessage {
            channel_id,
            coordinator_address,
            coordinator_amount: coordinator_final,
            trader_amount: trader_final,
            execution_price: settlement_price,
            funding_txo,
        },
        notification: NotificationKind::CollaborativeRevert,
    };
    Ok(ProposalOutcome { record, outbound })
}

} // verus!

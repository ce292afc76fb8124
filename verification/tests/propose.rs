use collab_revert::errors::RevertError;
use collab_revert::model::ChannelFacts;
use collab_revert::model::NotificationKind;
use collab_revert::model::Outpoint;
use collab_revert::model::PositionFacts;
use collab_revert::model::Price;
use collab_revert::model::Subchannel;
use collab_revert::propose::is_channel_split;
use collab_revert::propose::propose_collaborative_revert;
use collab_revert::propose::propose_collaborative_revert_without_channel_details;

fn outpoint(tag: u8, vout: u32) -> Outpoint {
    Outpoint {
        txid: [tag; 32],
        vout,
    }
}

fn facts_not_split() -> ChannelFacts {
    ChannelFacts {
        inbound_capacity_msat: 65_450_000,
        outbound_capacity_msat: 85_673_000,
        counterparty_unspendable_reserve_sat: 1_000,
        funding_txo: Some(outpoint(7, 0)),
        original_funding_outpoint: None,
    }
}

fn facts_split() -> ChannelFacts {
    ChannelFacts {
        original_funding_outpoint: Some(outpoint(8, 1)),
        ..facts_not_split()
    }
}

fn subchannel() -> Subchannel {
    Subchannel {
        channel_id: [1; 32],
        counter_party: [3; 33],
        fund_value_satoshis: 200_000,
        channel_keys_id: Some([4; 32]),
        own_fund_pk: [2; 33],
        counter_fund_pk: [3; 33],
        original_funding_redeemscript: vec![0x52, 0xae],
    }
}

fn position() -> PositionFacts {
    PositionFacts {
        id: 42,
        trader_margin_sats: 18_690,
        coordinator_margin_sats: 18_690,
    }
}

fn price() -> Price {
    Price {
        mantissa: 42_000_5,
        scale: 1,
    }
}

#[test]
fn split_selected_iff_original_outpoint_differs() {
    // No original outpoint: not split.
    assert_eq!(is_channel_split(&facts_not_split()), Ok(false));
    // Original present and different: split.
    assert_eq!(is_channel_split(&facts_split()), Ok(true));
    // Original present and equal to the current outpoint: not split.
    let equal = ChannelFacts {
        original_funding_outpoint: Some(outpoint(7, 0)),
        ..facts_not_split()
    };
    assert_eq!(is_channel_split(&equal), Ok(false));
    // No current funding outpoint: no revert possible.
    let missing = ChannelFacts {
        funding_txo: None,
        ..facts_not_split()
    };
    assert_eq!(is_channel_split(&missing), Err(RevertError::MissingFundingOutpoint));
}

#[test]
fn propose_not_split_amounts() {
    let sub = subchannel();
    let out = propose_collaborative_revert(
        [1; 32],
        price(),
        4,
        outpoint(7, 0),
        Some(&facts_not_split()),
        Some(&sub),
        Some(&position()),
        0,
        String::from("bcrt1qcoordinator"),
    )
    .unwrap();

    // coordinator raw: 200_000 - 65_450 - 1_000 = 133_550; fee 168 * 4 = 672.
    assert_eq!(out.record.coordinator_amount_sats, 133_550 - 336);
    assert_eq!(out.record.trader_amount_sats, 200_000 - 133_550 - 336);
    // Conservation: payouts plus the fee give back the funding value.
    assert_eq!(
        out.record.coordinator_amount_sats + out.record.trader_amount_sats + 672,
        200_000
    );
    assert_eq!(out.record.channel_id, [1; 32]);
    assert_eq!(out.record.trader_pubkey, [3; 33]);
    assert_eq!(out.record.price, price());
    assert_eq!(out.record.coordinator_address, "bcrt1qcoordinator");
    assert_eq!(out.record.txid, [7; 32]);
    assert_eq!(out.record.vout, 0);

    assert_eq!(out.outbound.trader_id, [3; 33]);
    assert_eq!(out.outbound.notification, NotificationKind::CollaborativeRevert);
    assert_eq!(out.outbound.message.channel_id, [1; 32]);
    assert_eq!(out.outbound.message.coordinator_address, "bcrt1qcoordinator");
    assert_eq!(out.outbound.message.coordinator_amount, out.record.coordinator_amount_sats);
    assert_eq!(out.outbound.message.trader_amount, out.record.trader_amount_sats);
    assert_eq!(out.outbound.message.execution_price, price());
    assert_eq!(out.outbound.message.funding_txo, outpoint(7, 0));
}

#[test]
fn propose_split_amounts() {
    let sub = subchannel();
    let out = propose_collaborative_revert(
        [1; 32],
        price(),
        1,
        outpoint(7, 0),
        Some(&facts_split()),
        Some(&sub),
        Some(&position()),
        10_000,
        String::from("bcrt1qcoordinator"),
    )
    .unwrap();

    // reserved fee: 200_000 - 65_450 - 85_673 - 2_000 - 18_690 - 18_690 = 9_497;
    // raw: 200_000 - 65_450 - 1_000 - 10_000 - 4_748 = 118_802; fee 168.
    assert_eq!(out.record.coordinator_amount_sats, 118_802 - 84);
    assert_eq!(out.record.trader_amount_sats, 200_000 - 118_802 - 84);
    assert_eq!(
        out.record.coordinator_amount_sats + out.record.trader_amount_sats + 168,
        200_000
    );
}

#[test]
fn propose_fails_without_channel_facts() {
    let sub = subchannel();
    let r = propose_collaborative_revert(
        [1; 32],
        price(),
        4,
        outpoint(7, 0),
        None,
        Some(&sub),
        Some(&position()),
        0,
        String::from("bcrt1qcoordinator"),
    );
    assert_eq!(r.err(), Some(RevertError::MissingChannelDetails));
}

#[test]
fn propose_fails_without_subchannel() {
    let r = propose_collaborative_revert(
        [1; 32],
        price(),
        4,
        outpoint(7, 0),
        Some(&facts_not_split()),
        None,
        Some(&position()),
        0,
        String::from("bcrt1qcoordinator"),
    );
    assert_eq!(r.err(), Some(RevertError::MissingSubchannel));
}

#[test]
fn propose_fails_without_funding_outpoint() {
    let sub = subchannel();
    let missing = ChannelFacts {
        funding_txo: None,
        ..facts_not_split()
    };
    let r = propose_collaborative_revert(
        [1; 32],
        price(),
        4,
        outpoint(7, 0),
        Some(&missing),
        Some(&sub),
        Some(&position()),
        0,
        String::from("bcrt1qcoordinator"),
    );
    assert_eq!(r.err(), Some(RevertError::MissingFundingOutpoint));
}

#[test]
fn propose_split_fails_without_position() {
    let sub = subchannel();
    let r = propose_collaborative_revert(
        [1; 32],
        price(),
        4,
        outpoint(7, 0),
        Some(&facts_split()),
        Some(&sub),
        None,
        10_000,
        String::from("bcrt1qcoordinator"),
    );
    assert_eq!(r.err(), Some(RevertError::MissingPosition));
}

#[test]
fn propose_split_fails_on_fee_estimation_underflow() {
    let sub = subchannel();
    let inconsistent = ChannelFacts {
        inbound_capacity_msat: 84_140_000,
        outbound_capacity_msat: 104_363_000,
        ..facts_split()
    };
    let r = propose_collaborative_revert(
        [1; 32],
        price(),
        4,
        outpoint(7, 0),
        Some(&inconsistent),
        Some(&sub),
        Some(&position()),
        10_000,
        String::from("bcrt1qcoordinator"),
    );
    assert_eq!(r.err(), Some(RevertError::ArithmeticUnderflow));
}

#[test]
fn propose_without_details_amounts() {
    let sub = subchannel();
    let out = propose_collaborative_revert_without_channel_details(
        [1; 32],
        outpoint(9, 2),
        150_000,
        4,
        price(),
        Some(&sub),
        String::from("bcrt1qcoordinator"),
    )
    .unwrap();
    assert_eq!(out.record.coordinator_amount_sats, 150_000 - 336);
    assert_eq!(out.record.trader_amount_sats, 50_000 - 336);
    assert_eq!(
        out.record.coordinator_amount_sats + out.record.trader_amount_sats + 672,
        200_000
    );
    assert_eq!(out.record.txid, [9; 32]);
    assert_eq!(out.record.vout, 2);
    assert_eq!(out.outbound.message.funding_txo, outpoint(9, 2));
}

#[test]
fn propose_without_details_fails_without_subchannel() {
    let r = propose_collaborative_revert_without_channel_details(
        [1; 32],
        outpoint(9, 2),
        150_000,
        4,
        price(),
        None,
        String::from("bcrt1qcoordinator"),
    );
    assert_eq!(r.err(), Some(RevertError::MissingSubchannel));
}

#[test]
fn propose_without_details_fails_on_excessive_amount() {
    let sub = subchannel();
    let r = propose_collaborative_revert_without_channel_details(
        [1; 32],
        outpoint(9, 2),
        200_001,
        4,
        price(),
        Some(&sub),
        String::from("bcrt1qcoordinator"),
    );
    assert_eq!(r.err(), Some(RevertError::ArithmeticUnderflow));
}

use collab_revert::confirm::build_revert_witness;
use collab_revert::confirm::confirm_collaborative_revert;
use collab_revert::confirm::prepare_collaborative_revert_signing;
use collab_revert::confirm::ConfirmAction;
use collab_revert::errors::RevertError;
use collab_revert::model::PositionFacts;
use collab_revert::model::Subchannel;

fn subchannel() -> Subchannel {
    Subchannel {
        channel_id: [1; 32],
        counter_party: [3; 33],
        fund_value_satoshis: 200_000,
        channel_keys_id: Some([4; 32]),
        own_fund_pk: [2; 33],
        counter_fund_pk: [3; 33],
        original_funding_redeemscript: vec![0x52, 0x21, 0x02, 0x21, 0x03, 0x52, 0xae],
    }
}

fn position() -> PositionFacts {
    PositionFacts {
        id: 42,
        trader_margin_sats: 18_690,
        coordinator_margin_sats: 18_690,
    }
}

fn own_signature() -> Option<Vec<u8>> {
    Some(vec![0x30, 0x05, 0x01])
}

#[test]
fn witness_orders_signatures_by_serialized_key() {
    // The coordinator's key is lexicographically smaller: its signature
    // comes first, each signature gains the sighash flag, and the redeem
    // script closes the stack below an initial empty item.
    let w = build_revert_witness(&[2; 33], vec![0xaa], &[3; 33], vec![0xbb], vec![0x52, 0xae]);
    assert_eq!(
        w,
        vec![vec![], vec![0xaa, 0x01], vec![0xbb, 0x01], vec![0x52, 0xae]]
    );

    // With the keys the other way round the counterparty's signature
    // comes first.
    let w = build_revert_witness(&[9; 33], vec![0xaa], &[3; 33], vec![0xbb], vec![0x52, 0xae]);
    assert_eq!(
        w,
        vec![vec![], vec![0xbb, 0x01], vec![0xaa, 0x01], vec![0x52, 0xae]]
    );
}

#[test]
fn prepare_pins_the_signing_request() {
    // The request carries exactly what the signer must be bound to: the
    // subchannel's funding value, its recorded key handle, and the
    // original funding redeem script.
    let sub = subchannel();
    let req = prepare_collaborative_revert_signing(&vec![false, true], Some(&sub), None).unwrap();
    assert_eq!(req.fund_value_satoshis, 200_000);
    assert_eq!(req.channel_keys_id, [4; 32]);
    assert_eq!(req.redeem_script, vec![0x52, 0x21, 0x02, 0x21, 0x03, 0x52, 0xae]);
}

#[test]
fn prepare_falls_back_to_live_channel_keys_id() {
    // The record carries no key handle: the live channel detail's handle
    // is used instead.
    let sub = Subchannel {
        channel_keys_id: None,
        ..subchannel()
    };
    let req = prepare_collaborative_revert_signing(&vec![true], Some(&sub), Some([5; 32])).unwrap();
    assert_eq!(req.channel_keys_id, [5; 32]);
}

#[test]
fn prepare_fails_when_no_output_pays_coordinator() {
    let sub = subchannel();
    let r = prepare_collaborative_revert_signing(&vec![false, false], Some(&sub), None);
    assert_eq!(r.err(), Some(RevertError::NotPayingCoordinator));
    let r = prepare_collaborative_revert_signing(&vec![], Some(&sub), None);
    assert_eq!(r.err(), Some(RevertError::NotPayingCoordinator));
}

#[test]
fn prepare_fails_without_subchannel() {
    let r = prepare_collaborative_revert_signing(&vec![true], None, None);
    assert_eq!(r.err(), Some(RevertError::MissingSubchannel));
}

#[test]
fn prepare_fails_without_any_channel_keys_id() {
    let sub = Subchannel {
        channel_keys_id: None,
        ..subchannel()
    };
    let r = prepare_collaborative_revert_signing(&vec![true], Some(&sub), None);
    assert_eq!(r.err(), Some(RevertError::MissingChannelKeysId));
}

#[test]
fn confirm_succeeds_end_to_end() {
    let sub = subchannel();
    let request =
        prepare_collaborative_revert_signing(&vec![false, true], Some(&sub), None).unwrap();
    assert_eq!(request.fund_value_satoshis, 200_000);

    let out = confirm_collaborative_revert(
        &[1; 32],
        &vec![false, true],
        Some(&sub),
        own_signature(),
        vec![0x30, 0x06, 0x02],
        Some(&position()),
    )
    .unwrap();

    // Both signatures in funding-key order, sighash-flagged, under the
    // redeem script.
    assert_eq!(out.own_signature, vec![0x30, 0x05, 0x01, 0x01]);
    assert_eq!(
        out.witness,
        vec![
            vec![],
            vec![0x30, 0x05, 0x01, 0x01],
            vec![0x30, 0x06, 0x02, 0x01],
            vec![0x52, 0x21, 0x02, 0x21, 0x03, 0x52, 0xae],
        ]
    );
    assert_eq!(out.position_id, 42);
    // The four effects, in order: broadcast, close the position, mark the
    // subchannel closed on chain, delete the proposal record.
    assert_eq!(
        out.actions,
        vec![
            ConfirmAction::Broadcast,
            ConfirmAction::ClosePosition { position_id: 42 },
            ConfirmAction::MarkSubchannelOnChainClosed { channel_id: [1; 32] },
            ConfirmAction::DeleteProposal { channel_id: [1; 32] },
        ]
    );
}

#[test]
fn confirm_fails_when_no_output_pays_coordinator() {
    let sub = subchannel();
    let r = confirm_collaborative_revert(
        &[1; 32],
        &vec![false, false],
        Some(&sub),
        own_signature(),
        vec![0x30],
        Some(&position()),
    );
    assert_eq!(r.err(), Some(RevertError::NotPayingCoordinator));
}

#[test]
fn confirm_fails_on_transaction_without_outputs() {
    let sub = subchannel();
    let r = confirm_collaborative_revert(
        &[1; 32],
        &vec![],
        Some(&sub),
        own_signature(),
        vec![0x30],
        Some(&position()),
    );
    assert_eq!(r.err(), Some(RevertError::NotPayingCoordinator));
}

#[test]
fn confirm_fails_without_subchannel() {
    let r = confirm_collaborative_revert(
        &[1; 32],
        &vec![true],
        None,
        own_signature(),
        vec![0x30],
        Some(&position()),
    );
    assert_eq!(r.err(), Some(RevertError::MissingSubchannel));
}

#[test]
fn confirm_fails_when_signer_fails() {
    let sub = subchannel();
    let r = confirm_collaborative_revert(
        &[1; 32],
        &vec![true],
        Some(&sub),
        None,
        vec![0x30],
        Some(&position()),
    );
    assert_eq!(r.err(), Some(RevertError::SigningFailed));
}

#[test]
fn confirm_fails_without_position() {
    let sub = subchannel();
    let r = confirm_collaborative_revert(
        &[1; 32],
        &vec![true],
        Some(&sub),
        own_signature(),
        vec![0x30],
        None,
    );
    assert_eq!(r.err(), Some(RevertError::MissingPosition));
}

#[test]
fn confirm_is_not_rerunnable_after_commit() {
    // First confirm: succeeds, and its commits close the position and
    // delete the proposal record.
    let sub = subchannel();
    let first = confirm_collaborative_revert(
        &[1; 32],
        &vec![true],
        Some(&sub),
        own_signature(),
        vec![0x30, 0x06, 0x02],
        Some(&position()),
    )
    .unwrap();
    assert_eq!(first.actions[0], ConfirmAction::Broadcast);

    // Re-invoking for the same channel id now finds no open position, so
    // the attempt fails with a missing-precondition error instead of
    // re-broadcasting.
    let again = confirm_collaborative_revert(
        &[1; 32],
        &vec![true],
        Some(&sub),
        own_signature(),
        vec![0x30, 0x06, 0x02],
        None,
    );
    assert_eq!(again.err(), Some(RevertError::MissingPosition));
}

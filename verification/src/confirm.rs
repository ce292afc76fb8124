use vstd::prelude::*;

use crate::errors::RevertError;
use crate::model::PositionFacts;
use crate::model::Subchannel;

verus! {

/// The sighash flag appended to each DER-encoded signature placed in the
/// witness: every output of the revert transaction is committed to.
pub const SIGHASH_ALL: u8 = 1;

/// Lexicographic order on byte sequences: `a` comes strictly before `b`.
pub open spec fn lex_lt(a: Seq<u8>, b: Seq<u8>) -> bool
    decreases a.len(),
{
    if b.len() == 0 {
        false
    } else if a.len() == 0 {
        true
    } else if a[0] != b[0] {
        a[0] < b[0]
    } else {
        lex_lt(a.drop_first(), b.drop_first())
    }
}

/// Compare two compressed public keys lexicographically by their serialized
/// bytes. Funding redeem scripts list the lexicographically smaller key
/// first, so this order is the order of the keys in the script.
pub fn pubkey_lex_lt(a: &[u8; 33], b: &[u8; 33]) -> (r: bool)
    ensures
        r == lex_lt(a@, b@),
{
    proof {
        assert(a@.skip(0) =~= a@);
        assert(b@.skip(0) =~= b@);
    }
    let mut i: usize = 0;
    while i < 33
        invariant
            i <= 33,
            lex_lt(a@, b@) == lex_lt(a@.skip(i as int), b@.skip(i as int)),
        decreases 33 - i,
    {
        let ghost sa = a@.skip(i as int);
        let ghost sb = b@.skip(i as int);
        proof {
            assert(sa[0] == a@[i as int]);
            assert(sb[0] == b@[i as int]);
        }
        if a[i] < b[i] {
            return true;
        }
        if a[i] > b[i] {
            return false;
        }
        proof {
            assert(sa.drop_first() =~= a@.skip(i as int + 1));
            assert(sb.drop_first() =~= b@.skip(i as int + 1));
        }
        i += 1;
    }
    proof {
        assert(a@.skip(33) =~= Seq::<u8>::empty());
        assert(b@.skip(33) =~= Seq::<u8>::empty());
    }
    false
}

/// Append the sighash flag to a DER-encoded signature, finalizing it for
/// placement in a witness.
pub fn finalize_signature(signature_der: Vec<u8>) -> (r: Vec<u8>)
    ensures
        r@ == signature_der@ + seq![SIGHASH_ALL],
{
    let mut out = signature_der;
    out.push(SIGHASH_ALL);
    out
}

/// The witness stack spending a 2-of-2 multisig funding output: an empty
/// item (consumed by the extra pop of the multisig check), the two
/// finalized signatures in the order of their keys in the redeem script,
/// and the redeem script itself. The script lists the lexicographically
/// smaller serialized key first, so the signatures sort by serialized key.
pub open spec fn spec_revert_witness(
    own_pk: Seq<u8>,
    own_sig: Seq<u8>,
    counter_pk: Seq<u8>,
    counter_sig: Seq<u8>,
    redeem_script: Seq<u8>,
) -> Seq<Seq<u8>> {
    if lex_lt(own_pk, counter_pk) {
        seq![Seq::<u8>::empty(), own_sig, counter_sig, redeem_script]
    } else {
        seq![Seq::<u8>::empty(), counter_sig, own_sig, redeem_script]
    }
}

/// Assemble the witness stack that spends the original funding output,
/// placing the coordinator's and the counterparty's finalized signatures
/// in the order dictated by the redeem script's two public keys. The order
/// is structural, not a free choice: multisig script evaluation is
/// key-order-sensitive.
pub fn build_revert_witness(
    own_fund_pk: &[u8; 33],
    own_signature_der: Vec<u8>,
    counter_fund_pk: &[u8; 33],
    counter_signature_der: Vec<u8>,
    redeem_script: Vec<u8>,
) -> (w: Vec<Vec<u8>>)
    ensures
        w@.map_values(|item: Vec<u8>| item@) == spec_revert_witness(
            own_fund_pk@,
            own_signature_der@ + seq![SIGHASH_ALL],
            counter_fund_pk@,
            counter_signature_der@ + seq![SIGHASH_ALL],
            redeem_script@,
        ),
{
    let own_sig = finalize_signature(own_signature_der);
    let counter_sig = finalize_signature(counter_signature_der);
    let own_first = pubkey_lex_lt(own_fund_pk, counter_fund_pk);
    let mut w: Vec<Vec<u8>> = Vec::new();
    w.push(Vec::new());
    if own_first {
        w.push(own_sig);
        w.push(counter_sig);
    } else {
        w.push(counter_sig);
        w.push(own_sig);
    }
    w.push(redeem_script);
    proof {
        assert(w@.map_values(|item: Vec<u8>| item@) =~~= spec_revert_witness(
            own_fund_pk@,
            own_signature_der@ + seq![SIGHASH_ALL],
            counter_fund_pk@,
            counter_signature_der@ + seq![SIGHASH_ALL],
            redeem_script@,
        ));
    }
    w
}

/// Whether some output of the proposed revert transaction pays into an
/// address owned by the coordinator's wallet, given one ownership flag per
/// output.
pub open spec fn pays_coordinator(outputs_owned: Seq<bool>) -> bool {
    exists|i: int| 0 <= i < outputs_owned.len() && outputs_owned[i]
}

/// Check the per-output wallet-ownership flags: at least one output must
/// pay the coordinator.
pub fn any_output_owned(outputs_owned: &Vec<bool>) -> (r: bool)
    ensures
        r == pays_coordinator(outputs_owned@),
{
    let mut i: usize = 0;
    while i < outputs_owned.len()
        invariant
            i <= outputs_owned@.len(),
            forall|j: int| 0 <= j < i ==> !outputs_owned@[j],
        decreases outputs_owned@.len() - i,
    {
        if outputs_owned[i] {
            return true;
        }
        i += 1;
    }
    false
}

/// The signing-key handle used to derive the per-channel signer: the one
/// recorded in the subchannel, or, failing that, the one the channel
/// runtime's live channel detail carries.
pub open spec fn resolved_keys_id(
    subchannel: Subchannel,
    fallback: Option<[u8; 32]>,
) -> Option<[u8; 32]> {
    if subchannel.channel_keys_id is Some {
        subchannel.channel_keys_id
    } else {
        fallback
    }
}

/// Whether a subchannel record is present and a signing-key handle can be
/// resolved from it or from the fallback.
pub open spec fn has_resolvable_keys(
    subchannel: Option<&Subchannel>,
    fallback: Option<[u8; 32]>,
) -> bool {
    subchannel matches Some(sub) && resolved_keys_id(*sub, fallback) is Some
}

/// What the coordinator's signature must be produced over: the per-channel
/// signer is derived from the channel's funding value and its signing-key
/// handle, and signs the spend of the *original* funding output — never a
/// later, restructured one, even for split channels — under the original
/// funding redeem script.
pub struct SigningRequest {
    /// The value locked in the funding output, in satoshi.
    pub fund_value_satoshis: u64,
    /// The signing-key handle: the subchannel record's, or the live
    /// channel detail's where the record carries none.
    pub channel_keys_id: [u8; 32],
    /// The redeem script of the original funding output.
    pub redeem_script: Vec<u8>,
}

/// The step outcome of a confirm attempt: the first failing step decides
/// the error, and only when no step fails is the revert finalized and
/// broadcast.
pub open spec fn confirm_step_result(
    pays: bool,
    has_subchannel: bool,
    has_keys_id: bool,
    signing_ok: bool,
    has_position: bool,
) -> Option<RevertError> {
    if !pays {
        Some(RevertError::NotPayingCoordinator)
    } else if !has_subchannel {
        Some(RevertError::MissingSubchannel)
    } else if !has_keys_id {
        Some(RevertError::MissingChannelKeysId)
    } else if !signing_ok {
        Some(RevertError::SigningFailed)
    } else if !has_position {
        Some(RevertError::MissingPosition)
    } else {
        None
    }
}

/// Open the confirm half of the protocol: check that the proposed
/// transaction pays the coordinator, look up the subchannel, and resolve
/// the signing-key handle. On success the returned request says exactly
/// what the runtime must sign with: the subchannel's funding value, the
/// resolved key handle, and the original funding redeem script. On
/// failure there is nothing to sign and no effect to run.
pub fn prepare_collaborative_revert_signing(
    outputs_owned: &Vec<bool>,
    subchannel: Option<&Subchannel>,
    fallback_channel_keys_id: Option<[u8; 32]>,
) -> (r: Result<SigningRequest, RevertError>)
    ensures
        r is Ok <==> pays_coordinator(outputs_owned@) && has_resolvable_keys(
            subchannel,
            fallback_channel_keys_id,
        ),
        !pays_coordinator(outputs_owned@) ==> r == Err::<SigningRequest, RevertError>(
            RevertError::NotPayingCoordinator,
        ),
        pays_coordinator(outputs_owned@) && subchannel is None ==> r == Err::<
            SigningRequest,
            RevertError,
        >(RevertError::MissingSubchannel),
        ({
            &&& pays_coordinator(outputs_owned@)
            &&& subchannel matches Some(sub)
            &&& resolved_keys_id(*sub, fallback_channel_keys_id) is None
        }) ==> r == Err::<SigningRequest, RevertError>(RevertError::MissingChannelKeysId),
        r matches Err(e) ==> confirm_step_result(
            pays_coordinator(outputs_owned@),
            subchannel is Some,
            has_resolvable_keys(subchannel, fallback_channel_keys_id),
            true,
            true,
        ) == Some(e),
        r matches Ok(req) ==> subchannel matches Some(sub) ==> {
            &&& req.fund_value_satoshis == sub.fund_value_satoshis
            &&& Some(req.channel_keys_id) == resolved_keys_id(*sub, fallback_channel_keys_id)
            &&& req.redeem_script@ == sub.original_funding_redeemscript@
        },
{
    if !any_output_owned(outputs_owned) {
        return Err(RevertError::NotPayingCoordinator);
    }

    let sub = match subchannel {
        Some(sub) => sub,
        None => {
            return Err(RevertError::MissingSubchannel);
        },
    };

    let channel_keys_id: [u8; 32] = match &sub.channel_keys_id {
        Some(keys_id) => *keys_id,
        None => match fallback_channel_keys_id {
            Some(keys_id) => keys_id,
            None => {
                return Err(RevertError::MissingChannelKeysId);
            },
        },
    };

    Ok(SigningRequest {
        fund_value_satoshis: sub.fund_value_satoshis,
        channel_keys_id,
        redeem_script: copy_bytes(&sub.original_funding_redeemscript),
    })
}

/// Complete the collaborative revert protocol, given the coordinator's
/// signature produced for the request that
/// `prepare_collaborative_revert_signing` handed out (`None` where the
/// signer failed): re-check the payee flags, finalize the witness, and
/// hand back the ordered effects — broadcast, close the position, mark
/// the subchannel closed on chain, delete the proposal record.
///
/// No step proceeds past a failure: each failure reports its distinct
/// error and no effect is produced at all. The caller supplies the facts
/// it gathered: one wallet-ownership flag per transaction output, the
/// subchannel record for the channel id, both signatures as DER bytes,
/// and the counterparty's open position.
///
/// The commits deliberately follow the broadcast without waiting for
/// on-chain confirmation; if the broadcast transaction is later replaced
/// or dropped, the recorded state diverges from chain reality. This
/// ordering is an accepted simplification, preserved as observable
/// behavior.
pub fn confirm_collaborative_revert(
    channel_id: &[u8; 32],
    outputs_owned: &Vec<bool>,
    subchannel: Option<&Subchannel>,
    own_signature_der: Option<Vec<u8>>,
    counterparty_signature_der: Vec<u8>,
    position: Option<&PositionFacts>,
) -> (r: Result<ConfirmOutcome, RevertError>)
    requires
        subchannel matches Some(sub) ==> sub.channel_id@ == channel_id@,
    ensures
        r is Ok <==> pays_coordinator(outputs_owned@) && subchannel is Some
            && own_signature_der is Some && position is Some,
        !pays_coordinator(outputs_owned@) ==> r == Err::<ConfirmOutcome, RevertError>(
            RevertError::NotPayingCoordinator,
        ),
        pays_coordinator(outputs_owned@) && subchannel is None ==> r == Err::<
            ConfirmOutcome,
            RevertError,
        >(RevertError::MissingSubchannel),
        ({
            &&& pays_coordinator(outputs_owned@)
            &&& subchannel is Some
            &&& own_signature_der is None
        }) ==> r == Err::<ConfirmOutcome, RevertError>(RevertError::SigningFailed),
        ({
            &&& pays_coordinator(outputs_owned@)
            &&& subchannel is Some
            &&& own_signature_der is Some
            &&& position is None
        }) ==> r == Err::<ConfirmOutcome, RevertError>(RevertError::MissingPosition),
        r matches Err(e) ==> confirm_step_result(
            pays_coordinator(outputs_owned@),
            subchannel is Some,
            true,
            own_signature_der is Some,
            position is Some,
        ) == Some(e),
        r matches Ok(out) ==> subchannel matches Some(sub) ==> own_signature_der matches Some(
            own_der,
        ) ==> position matches Some(p) ==> {
            &&& out.position_id == p.id
            &&& out.actions@ == seq![
                ConfirmAction::Broadcast,
                (ConfirmAction::ClosePosition { position_id: p.id }),
                (ConfirmAction::MarkSubchannelOnChainClosed { channel_id: *channel_id }),
                (ConfirmAction::DeleteProposal { channel_id: *channel_id }),
            ]
            &&& out.own_signature@ == own_der@ + seq![SIGHASH_ALL]
            &&& out.witness@.map_values(|item: Vec<u8>| item@) == spec_revert_witness(
                sub.own_fund_pk@,
                own_der@ + seq![SIGHASH_ALL],
                sub.counter_fund_pk@,
                counterparty_signature_der@ + seq![SIGHASH_ALL],
                sub.original_funding_redeemscript@,
            )
        },
{
    if !any_output_owned(outputs_owned) {
        return Err(RevertError::NotPayingCoordinator);
    }

    let sub = match subchannel {
        Some(sub) => sub,
        None => {
            return Err(RevertError::MissingSubchannel);
        },
    };

    let own_der = match own_signature_der {
        Some(own_der) => own_der,
        None => {
            return Err(RevertError::SigningFailed);
        },
    };

    let pos = match position {
        Some(pos) => pos,
        None => {
            return Err(RevertError::MissingPosition);
        },
    };

    let own_signature = finalize_signature(copy_bytes(&own_der));
    let witness = build_revert_witness(
        &sub.own_fund_pk,
        own_der,
        &sub.counter_fund_pk,
        counterparty_signature_der,
        copy_bytes(&sub.original_funding_redeemscript),
    );

    let mut actions: Vec<ConfirmAction> = Vec::new();
    actions.push(ConfirmAction::Broadcast);
    actions.push(ConfirmAction::ClosePosition { position_id: pos.id });
    actions.push(ConfirmAction::MarkSubchannelOnChainClosed { channel_id: *channel_id });
    actions.push(ConfirmAction::DeleteProposal { channel_id: *channel_id });
    proof {
        assert(actions@ =~= seq![
            ConfirmAction::Broadcast,
            (ConfirmAction::ClosePosition { position_id: pos.id }),
            (ConfirmAction::MarkSubchannelOnChainClosed { channel_id: *channel_id }),
            (ConfirmAction::DeleteProposal { channel_id: *channel_id }),
        ]);
    }

    Ok(ConfirmOutcome { witness, own_signature, position_id: pos.id, actions })
}

/// One of the ordered effects of a confirmed revert. The surrounding
/// runtime carries them out in sequence, stopping at the first failure,
/// so a failed broadcast leaves no state committed.
#[derive(Clone, Debug, PartialEq, Eq)]
pub enum ConfirmAction {
    /// Broadcast the finalized revert transaction.
    Broadcast,
    /// Mark the open position closed.
    ClosePosition { position_id: i64 },
    /// Set the subchannel's lifecycle state to the terminal on-chain-closed
    /// value and persist it through the channel runtime's store.
    MarkSubchannelOnChainClosed { channel_id: [u8; 32] },
    /// Delete the pending proposal record for the channel id.
    DeleteProposal { channel_id: [u8; 32] },
}

/// What a successful confirm hands back: the witness finalizing the revert
/// transaction's single input, the coordinator's own finalized signature,
/// and the state commits to run, in order, after the witness is applied.
pub struct ConfirmOutcome {
    /// The witness stack for the transaction's single input.
    pub witness: Vec<Vec<u8>>,
    /// The coordinator's DER-encoded signature with the sighash flag
    /// appended.
    pub own_signature: Vec<u8>,
    /// The identifier of the open position being closed.
    pub position_id: i64,
    /// Broadcast first, then the three state commits; in this order.
    pub actions: Vec<ConfirmAction>,
}

/// Copy a byte vector, so that one value can both enter the witness and
/// stay available on its own.
fn copy_bytes(bytes: &Vec<u8>) -> (r: Vec<u8>)
    ensures
        r@ == bytes@,
{
    let mut out: Vec<u8> = Vec::new();
    let mut i: usize = 0;
    while i < bytes.len()
        invariant
            i <= bytes@.len(),
            out@ == bytes@.take(i as int),
        decreases bytes@.len() - i,
    {
        out.push(bytes[i]);
        proof {
            assert(out@ =~= bytes@.take(i as int + 1));
        }
        i += 1;
    }
    proof {
        assert(bytes@.take(bytes@.len() as int) =~= bytes@);
    }
    out
}

/// Re-invoking confirm for a channel whose revert has already been
/// committed finds no open position for the counterparty — the position
/// was marked closed and the proposal record deleted — so whatever the
/// signer does, the attempt fails with a missing-precondition error and
/// never reaches the broadcast: confirm is not re-runnable once its
/// effects are committed.
pub proof fn lemma_confirm_without_open_position_never_broadcasts(signing_ok: bool)
    ensures
        confirm_step_result(true, true, true, signing_ok, false) is Some,
        signing_ok ==> confirm_step_result(true, true, true, signing_ok, false) == Some(
            RevertError::MissingPosition,
        ),
{
}

} // verus!

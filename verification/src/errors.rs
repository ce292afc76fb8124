use vstd::prelude::*;

verus! {

/// The distinct failure surfaces of the collaborative revert protocol.
///
/// Missing-precondition errors (`MissingChannelDetails`, `MissingSubchannel`,
/// `MissingFundingOutpoint`, `MissingPosition`, `MissingChannelKeysId`)
/// terminate the call and are never retried internally. `ArithmeticUnderflow`
/// signals channel data whose recorded margins and liquidity are inconsistent
/// with its funding value. `NotPayingCoordinator` rejects a confirm attempt
/// whose proposed transaction has no coordinator-owned output. `SigningFailed`
/// reports that the per-channel signer could not produce the coordinator's
/// signature.
#[derive(Clone, Copy, Debug, PartialEq, Eq, Structural)]
pub enum RevertError {
    /// The channel runtime no longer holds live channel detail for the
    /// channel id; the caller must use the entry point that supplies the
    /// coordinator amount directly.
    MissingChannelDetails,
    /// No subchannel record exists for the channel id.
    MissingSubchannel,
    /// The channel detail carries no current funding outpoint, so the split
    /// decision cannot be made.
    MissingFundingOutpoint,
    /// No open position exists for the counterparty.
    MissingPosition,
    /// A checked subtraction of satoshi amounts would have gone negative.
    ArithmeticUnderflow,
    /// Neither the subchannel record nor the live channel detail carries a
    /// signing-key handle.
    MissingChannelKeysId,
    /// The per-channel signer did not return the coordinator's signature.
    SigningFailed,
    /// No output of the proposed revert transaction pays into an address
    /// owned by the coordinator's wallet.
    NotPayingCoordinator,
}

} // verus!

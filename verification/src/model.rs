use vstd::prelude::*;

verus! {

/// An on-chain transaction output reference: the funding output that backs a
/// channel's locked funds is identified this way.
#[derive(Clone, Copy, Debug, PartialEq, Eq)]
pub struct Outpoint {
    pub txid: [u8; 32],
    pub vout: u32,
}

/// A non-negative decimal settlement price, `mantissa / 10^scale`. The price
/// is informational for the counterparty: no arithmetic in this crate depends
/// on it, the counterparty's entitlement at the price is computed by the
/// position store.
#[derive(Clone, Copy, Debug, PartialEq, Eq, Structural)]
pub struct Price {
    pub mantissa: u64,
    pub scale: u32,
}

/// Live channel liquidity facts queried from the channel runtime. Capacities
/// are in millisatoshi; the counterparty's unspendable punishment reserve is
/// in satoshi.
#[derive(Clone, Debug)]
pub struct ChannelFacts {
    pub inbound_capacity_msat: u64,
    pub outbound_capacity_msat: u64,
    pub counterparty_unspendable_reserve_sat: u64,
    /// The current funding outpoint of the channel, if one exists.
    pub funding_txo: Option<Outpoint>,
    /// The original funding outpoint; present only if the channel has been
    /// restructured at least once.
    pub original_funding_outpoint: Option<Outpoint>,
}

/// The subchannel record: a bilateral channel carrying an embedded contract.
/// Public keys are held in 33-byte compressed serialized form; the funding
/// redeem script is held as raw script bytes.
#[derive(Clone, Debug)]
pub struct Subchannel {
    pub channel_id: [u8; 32],
    /// The counterparty's identity key.
    pub counter_party: [u8; 33],
    /// The value locked in the funding output, in satoshi.
    pub fund_value_satoshis: u64,
    /// The signing-key handle, if the record carries one.
    pub channel_keys_id: Option<[u8; 32]>,
    /// The coordinator's funding public key.
    pub own_fund_pk: [u8; 33],
    /// The counterparty's funding public key.
    pub counter_fund_pk: [u8; 33],
    /// The redeem script of the original funding output; it defines the
    /// multisig spend conditions and the signature order.
    pub original_funding_redeemscript: Vec<u8>,
}

/// The open financial position tied to a channel's counterparty: each
/// party's capital at risk, in satoshi.
#[derive(Clone, Copy, Debug, PartialEq, Eq, Structural)]
pub struct PositionFacts {
    pub id: i64,
    pub trader_margin_sats: u64,
    pub coordinator_margin_sats: u64,
}

/// The durable record of an in-flight revert, keyed by channel id. Created
/// on propose, deleted on successful confirm; there is no update-in-place
/// and no expiry.
#[derive(Clone, Debug)]
pub struct CollaborativeRevert {
    pub channel_id: [u8; 32],
    pub trader_pubkey: [u8; 33],
    pub price: Price,
    pub coordinator_address: String,
    pub coordinator_amount_sats: u64,
    pub trader_amount_sats: u64,
    /// Creation time, seconds since the Unix epoch.
    pub timestamp: i64,
    /// The funding transaction output being spent.
    pub txid: [u8; 32],
    pub vout: u32,
}

/// The proposal message delivered to the counterparty.
#[derive(Clone, Debug)]
pub struct RevertProposalMessage {
    pub channel_id: [u8; 32],
    pub coordinator_address: String,
    pub coordinator_amount: u64,
    pub trader_amount: u64,
    pub execution_price: Price,
    pub funding_txo: Outpoint,
}

/// The notification attached to a dispatched message.
#[derive(Clone, Copy, Debug, PartialEq, Eq, Structural)]
pub enum NotificationKind {
    CollaborativeRevert,
}

/// A proposal message addressed to a specific counterparty, together with
/// its notification tag.
#[derive(Clone, Debug)]
pub struct OutboundProposal {
    pub trader_id: [u8; 33],
    pub message: RevertProposalMessage,
    pub notification: NotificationKind,
}

/// Byte-wise equality of two 32-byte identifiers.
pub fn bytes32_eq(a: &[u8; 32], b: &[u8; 32]) -> (r: bool)
    ensures
        r == (a@ == b@),
{
    let mut i: usize = 0;
    while i < 32
        invariant
            i <= 32,
            forall|j: int| 0 <= j < i ==> a@[j] == b@[j],
        decreases 32 - i,
    {
        if a[i] != b[i] {
            assert(a@[i as int] != b@[i as int]);
            return false;
        }
        i += 1;
    }
    proof {
        assert(a@ =~= b@);
    }
    true
}

/// Two outpoints refer to the same output: same transaction id and same
/// output index.
pub open spec fn outpoint_same(a: Outpoint, b: Outpoint) -> bool {
    a.txid@ == b.txid@ && a.vout == b.vout
}

/// Equality of two outpoints: same transaction id and same output index.
pub fn outpoint_eq(a: &Outpoint, b: &Outpoint) -> (r: bool)
    ensures
        r == outpoint_same(*a, *b),
{
    bytes32_eq(&a.txid, &b.txid) && a.vout == b.vout
}

} // verus!

//! Collaborative channel revert: a recovery protocol in which the
//! coordinator of a trading platform and a channel counterparty jointly
//! abandon the normal contract-settlement path and spend the channel's
//! funding output directly into two fresh addresses, splitting funds
//! according to an agreed settlement price.
//!
//! The crate holds the protocol's decision logic: the settlement amount
//! calculator, the propose orchestrator and the confirm engine. The
//! surrounding runtime gathers channel, position and wallet facts, hands
//! them in as plain values, and carries out the returned records, messages
//! and ordered commit actions.

pub mod amounts;
pub mod confirm;
pub mod errors;
pub mod model;
pub mod propose;

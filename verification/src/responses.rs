//! What the exporter keeps of the node's answers.
//!
//! Each type holds the fields that the exported gauges are computed from and
//! nothing else. Amounts are in millisatoshi.

use vstd::prelude::*;

verus! {

/// The node's description of itself.
#[derive(Debug, Clone, PartialEq, Eq)]
pub struct GetInfo {
    pub id: String,
    pub alias: String,
    pub color: String,
    pub version: String,
    pub blockheight: u64,
    pub fees_collected_msat: u64,
    pub network: String,
}

/// One on-chain output that the node's wallet owns.
#[derive(Debug, Clone, PartialEq, Eq)]
pub struct ListFundsOutput {
    pub amount_msat: u64,
}

/// The node's share of one channel.
#[derive(Debug, Clone, PartialEq, Eq)]
pub struct ListFundsChannel {
    pub our_amount_msat: u64,
}

/// The funds at the node's disposal, on chain and in channels.
#[derive(Debug, Clone, PartialEq, Eq)]
pub struct ListFunds {
    pub outputs: Vec<ListFundsOutput>,
    pub channels: Vec<ListFundsChannel>,
}

/// One channel with a peer.
#[derive(Debug, Clone, PartialEq, Eq)]
pub struct Channel {
    /// Absent until the funding transaction is confirmed.
    pub short_channel_id: Option<String>,
    pub to_us_msat: u64,
    pub total_msat: u64,
    pub spendable_msat: u64,
    pub in_payments_offered: u64,
    pub in_offered_msat: u64,
    pub in_payments_fulfilled: u64,
    pub in_fulfilled_msat: u64,
    pub out_payments_offered: u64,
    pub out_offered_msat: u64,
    pub out_payments_fulfilled: u64,
    pub out_fulfilled_msat: u64,
    /// How many HTLCs are in flight on the channel.
    pub htlcs: u64,
}

/// A peer and the channels held with it.
#[derive(Debug, Clone, PartialEq, Eq)]
pub struct Peer {
    pub id: String,
    pub connected: bool,
    pub channels: Vec<Channel>,
}

} // verus!

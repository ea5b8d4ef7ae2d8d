//! Unvalidated bridge-account query responses.

use vstd::prelude::*;

use crate::raw::primitive::{Address, RollupId};

verus! {

/// The view of a byte vector that may be missing.
pub open spec fn optional_bytes_view(bytes: Option<Vec<u8>>) -> Option<Seq<u8>> {
    match bytes {
        Some(b) => Some(b@),
        None => None,
    }
}

/// The view of a rollup id that may be missing.
pub open spec fn optional_rollup_id_view(id: Option<RollupId>) -> Option<Seq<u8>> {
    match id {
        Some(r) => Some(r@),
        None => None,
    }
}

/// The view of an address that may be missing.
pub open spec fn optional_address_view(address: Option<Address>) -> Option<Seq<u8>> {
    match address {
        Some(a) => Some(a@),
        None => None,
    }
}

/// The hash of the last transaction a bridge account submitted, if any,
/// as received.
#[derive(Clone, Debug, PartialEq)]
pub struct BridgeAccountLastTxHashResponse {
    pub height: u64,
    pub tx_hash: Option<Vec<u8>>,
}

/// What a received [`BridgeAccountLastTxHashResponse`] says.
pub struct BridgeAccountLastTxHashResponseView {
    pub height: u64,
    pub tx_hash: Option<Seq<u8>>,
}

impl View for BridgeAccountLastTxHashResponse {
    type V = BridgeAccountLastTxHashResponseView;

    open spec fn view(&self) -> BridgeAccountLastTxHashResponseView {
        BridgeAccountLastTxHashResponseView {
            height: self.height,
            tx_hash: optional_bytes_view(self.tx_hash),
        }
    }
}

/// The registration of a bridge account, if any, as received.
#[derive(Clone, Debug, PartialEq)]
pub struct BridgeAccountInfoResponse {
    pub height: u64,
    pub rollup_id: Option<RollupId>,
    pub asset_id: Option<Vec<u8>>,
    pub sudo_address: Option<Address>,
    pub withdrawer_address: Option<Address>,
}

/// What a received [`BridgeAccountInfoResponse`] says.
pub struct BridgeAccountInfoResponseView {
    pub height: u64,
    pub rollup_id: Option<Seq<u8>>,
    pub asset_id: Option<Seq<u8>>,
    pub sudo_address: Option<Seq<u8>>,
    pub withdrawer_address: Option<Seq<u8>>,
}

impl View for BridgeAccountInfoResponse {
    type V = BridgeAccountInfoResponseView;

    open spec fn view(&self) -> BridgeAccountInfoResponseView {
        BridgeAccountInfoResponseView {
            height: self.height,
            rollup_id: optional_rollup_id_view(self.rollup_id),
            asset_id: optional_bytes_view(self.asset_id),
            sudo_address: optional_address_view(self.sudo_address),
            withdrawer_address: optional_address_view(self.withdrawer_address),
        }
    }
}

} // verus!

//! Unvalidated execution-layer messages.

use bytes::Bytes;
use vstd::prelude::*;

use crate::buffer::bytes_contents;
use crate::primitive::Timestamp;

verus! {

/// Genesis parameters as received from a rollup.
#[derive(Clone, Debug, PartialEq)]
pub struct GenesisInfo {
    pub rollup_id: Bytes,
    pub celestia_block_variance: u32,
}

/// What a received [`GenesisInfo`] says, with buffers read out.
pub struct GenesisInfoView {
    pub rollup_id: Seq<u8>,
    pub celestia_block_variance: u32,
}

impl View for GenesisInfo {
    type V = GenesisInfoView;

    open spec fn view(&self) -> GenesisInfoView {
        GenesisInfoView {
            rollup_id: bytes_contents(self.rollup_id),
            celestia_block_variance: self.celestia_block_variance,
        }
    }
}

/// A block reference as received; the timestamp may be missing.
#[derive(Clone, Debug, PartialEq)]
pub struct Block {
    pub number: u32,
    pub hash: Bytes,
    pub parent_block_hash: Bytes,
    pub timestamp: Option<Timestamp>,
}

/// What a received [`Block`] says, with buffers read out.
pub struct BlockView {
    pub number: u32,
    pub hash: Seq<u8>,
    pub parent_block_hash: Seq<u8>,
    pub timestamp: Option<Timestamp>,
}

impl View for Block {
    type V = BlockView;

    open spec fn view(&self) -> BlockView {
        BlockView {
            number: self.number,
            hash: bytes_contents(self.hash),
            parent_block_hash: bytes_contents(self.parent_block_hash),
            timestamp: self.timestamp,
        }
    }
}

/// A commitment state as received; either block may be missing.
#[derive(Clone, Debug, PartialEq)]
pub struct CommitmentState {
    pub soft: Option<Block>,
    pub firm: Option<Block>,
    pub next_sequencer_height: u32,
    pub base_celestia_height: u32,
}

/// What a received [`CommitmentState`] says, with buffers read out.
pub struct CommitmentStateView {
    pub soft: Option<BlockView>,
    pub firm: Option<BlockView>,
    pub next_sequencer_height: u32,
    pub base_celestia_height: u32,
}

/// The view of a block that may be missing.
pub open spec fn optional_block_view(block: Option<Block>) -> Option<BlockView> {
    match block {
        Some(b) => Some(b@),
        None => None,
    }
}

impl View for CommitmentState {
    type V = CommitmentStateView;

    open spec fn view(&self) -> CommitmentStateView {
        CommitmentStateView {
            soft: optional_block_view(self.soft),
            firm: optional_block_view(self.firm),
            next_sequencer_height: self.next_sequencer_height,
            base_celestia_height: self.base_celestia_height,
        }
    }
}

} // verus!

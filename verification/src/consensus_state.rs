//! The consensus state of a Tendermint client: what a verified header
//! leaves behind.

use vstd::prelude::*;
use crate::commitment::{bytes_equal, CommitmentRoot};
use crate::timestamp::Timestamp;

verus! {

/// The checkpoint that the client keeps of one block of the counterparty:
/// the time of the block, the root of its application state, and the hash of
/// the validators of the next block.
#[derive(Debug, PartialEq, Eq)]
pub struct ConsensusState {
    pub timestamp: Timestamp,
    pub root: CommitmentRoot,
    pub next_validators_hash: Vec<u8>,
}

/// A consensus state as plain values.
pub struct ConsensusStateView {
    pub timestamp: Timestamp,
    pub root: Seq<u8>,
    pub next_validators_hash: Seq<u8>,
}

impl View for ConsensusState {
    type V = ConsensusStateView;

    open spec fn view(&self) -> ConsensusStateView {
        ConsensusStateView {
            timestamp: self.timestamp,
            root: self.root@,
            next_validators_hash: self.next_validators_hash@,
        }
    }
}

impl Clone for ConsensusState {
    fn clone(&self) -> (r: ConsensusState)
        ensures
            r@ == self@,
    {
        ConsensusState {
            timestamp: self.timestamp,
            root: CommitmentRoot::from_bytes(self.root.as_bytes()),
            next_validators_hash: self.next_validators_hash.clone(),
        }
    }
}

impl ConsensusState {
    pub fn new(root: CommitmentRoot, timestamp: Timestamp, next_validators_hash: Vec<u8>) -> (r:
        ConsensusState)
        ensures
            r == (ConsensusState { timestamp, root, next_validators_hash }),
    {
        ConsensusState { timestamp, root, next_validators_hash }
    }

    pub fn timestamp(&self) -> (r: Timestamp)
        ensures
            r == self.timestamp,
    {
        self.timestamp
    }

    pub fn root(&self) -> (r: &CommitmentRoot)
        ensures
            r == self.root,
    {
        &self.root
    }

    /// Whether both states hold the same values.
    pub fn same(&self, other: &ConsensusState) -> (r: bool)
        ensures
            r == (self@ == other@),
    {
        self.timestamp == other.timestamp && self.root.same_bytes(&other.root) && bytes_equal(
            self.next_validators_hash.as_slice(),
            other.next_validators_hash.as_slice(),
        )
    }
}

} // verus!

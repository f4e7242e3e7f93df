//! Packets, sequences, timeouts and what the host stores about them.

use vstd::prelude::*;
use crate::commitment::CommitmentProofBytes;
use crate::height::Height;
use crate::identifier::{ChannelId, PortId};
use crate::timestamp::Timestamp;

verus! {

/// The number of a packet on its channel, counted from one.
#[derive(Clone, Copy, Debug, PartialEq, Eq, Structural, PartialOrd, Ord, Hash)]
pub struct Sequence(pub u64);

impl Sequence {
    pub fn new(value: u64) -> (r: Sequence)
        ensures
            r == Sequence(value),
    {
        Sequence(value)
    }

    pub fn value(&self) -> (r: u64)
        ensures
            r == self.0,
    {
        self.0
    }

    pub fn is_zero(&self) -> (r: bool)
        ensures
            r == (self.0 == 0),
    {
        self.0 == 0
    }

    /// The next sequence number.
    pub fn increment(&self) -> (r: Sequence)
        requires
            self.0 < u64::MAX,
        ensures
            r == Sequence((self.0 + 1) as u64),
    {
        Sequence(self.0 + 1)
    }
}

/// The height on the receiving chain at which a packet times out.
#[derive(Clone, Copy, Debug, PartialEq, Eq, Structural)]
pub enum TimeoutHeight {
    /// The packet never times out by height.
    Never,
    /// The packet times out once the chain has passed this height.
    At(Height),
}

impl TimeoutHeight {
    /// Whether a chain at `height` is past the timeout: at the timeout
    /// height itself a packet can still be received.
    pub open spec fn spec_has_expired(self, height: Height) -> bool {
        match self {
            TimeoutHeight::Never => false,
            TimeoutHeight::At(timeout) => timeout.spec_lt(height),
        }
    }

    /// The timeout that a height on the wire stands for: a height of zero
    /// in revision zero means that the packet never times out by height.
    pub fn from_parts(revision_number: u64, revision_height: u64) -> (r: Result<
        TimeoutHeight,
        crate::error::ClientError,
    >)
        ensures
            r == if revision_number == 0 && revision_height == 0 {
                Ok::<TimeoutHeight, crate::error::ClientError>(TimeoutHeight::Never)
            } else if revision_height == 0 {
                Err(crate::error::ClientError::InvalidHeight)
            } else {
                Ok(TimeoutHeight::At(Height::of(revision_number, revision_height)))
            },
    {
        if revision_number == 0 && revision_height == 0 {
            return Ok(TimeoutHeight::Never);
        }
        match Height::new(revision_number, revision_height) {
            Ok(h) => Ok(TimeoutHeight::At(h)),
            Err(e) => Err(e),
        }
    }

    pub fn no_timeout() -> (r: TimeoutHeight)
        ensures
            r == TimeoutHeight::Never,
    {
        TimeoutHeight::Never
    }

    /// Whether a chain at `height` is past the timeout.
    pub fn has_expired(&self, height: Height) -> (r: bool)
        ensures
            r == self.spec_has_expired(height),
    {
        match self {
            TimeoutHeight::Never => false,
            TimeoutHeight::At(timeout) => timeout.lt(&height),
        }
    }
}

/// A packet sent from chain A to chain B.
#[derive(Debug, PartialEq, Eq)]
pub struct Packet {
    pub sequence: Sequence,
    pub port_on_a: PortId,
    pub chan_on_a: ChannelId,
    pub port_on_b: PortId,
    pub chan_on_b: ChannelId,
    pub data: Vec<u8>,
    pub timeout_height_on_b: TimeoutHeight,
    pub timeout_timestamp_on_b: Timestamp,
}

impl Clone for Packet {
    fn clone(&self) -> (r: Packet)
        ensures
            r.sequence == self.sequence,
            r.port_on_a == self.port_on_a,
            r.chan_on_a == self.chan_on_a,
            r.port_on_b == self.port_on_b,
            r.chan_on_b == self.chan_on_b,
            r.data@ == self.data@,
            r.timeout_height_on_b == self.timeout_height_on_b,
            r.timeout_timestamp_on_b == self.timeout_timestamp_on_b,
    {
        Packet {
            sequence: self.sequence,
            port_on_a: self.port_on_a.clone(),
            chan_on_a: self.chan_on_a.clone(),
            port_on_b: self.port_on_b.clone(),
            chan_on_b: self.chan_on_b.clone(),
            data: self.data.clone(),
            timeout_height_on_b: self.timeout_height_on_b,
            timeout_timestamp_on_b: self.timeout_timestamp_on_b,
        }
    }
}

/// The mark that the host keeps for a packet it has received on an
/// unordered channel.
#[derive(Clone, Copy, Debug, PartialEq, Eq, Structural)]
pub enum Receipt {
    /// The packet has been received.
    Received,
}

/// The commitment to a packet that the sending chain stores.
#[derive(Clone, Debug, PartialEq, Eq)]
pub struct PacketCommitment {
    pub bytes: Vec<u8>,
}

impl PacketCommitment {
    pub fn into_vec(self) -> (r: Vec<u8>)
        ensures
            r == self.bytes,
    {
        self.bytes
    }
}

/// The commitment to an acknowledgement that the receiving chain stores.
#[derive(Clone, Debug, PartialEq, Eq)]
pub struct AcknowledgementCommitment {
    pub bytes: Vec<u8>,
}

impl AcknowledgementCommitment {
    pub fn into_vec(self) -> (r: Vec<u8>)
        ensures
            r == self.bytes,
    {
        self.bytes
    }
}

/// The account that submitted a message.
#[derive(Clone, Debug, PartialEq, Eq)]
pub struct Signer {
    pub account: String,
}

/// The message that delivers a packet to the receiving chain, with the
/// proof that the sending chain committed to it.
#[derive(Clone, Debug, PartialEq, Eq)]
pub struct MsgRecvPacket {
    pub packet: Packet,
    pub proof_commitment_on_a: CommitmentProofBytes,
    pub proof_height_on_a: Height,
    pub signer: Signer,
}

} // verus!

//! The errors of the client, channel and packet flows.

use vstd::prelude::*;
use crate::channel::State;
use crate::commitment::CommitmentError;
use crate::height::Height;
use crate::identifier::{ChainId, ChannelId, ClientId, ClientType, ConnectionId, PortId};
use crate::packet::{Sequence, TimeoutHeight};
use crate::timestamp::{Duration, Timestamp};

verus! {

/// What the Tendermint light client reports.
#[derive(Clone, Debug, PartialEq, Eq)]
pub enum Error {
    /// The chain identifier is longer than the limit.
    ChainIdTooLong { chain_id: ChainId, len: usize, max_len: usize },
    /// The trust level or one of the two periods is not acceptable.
    InvalidTrustThreshold { reason: String },
    /// The trust level is no fraction between one third and one.
    InvalidTendermintTrustThreshold { numerator: u64, denominator: u64 },
    /// The allowed clock drift is not positive.
    InvalidMaxClockDrift { reason: String },
    /// The latest height does not belong to the chain's revision.
    InvalidLatestHeight { reason: String },
    /// Another rule of the client state is broken.
    Validation { reason: String },
    /// The encoded state has no trust level or no trusting period.
    MissingTrustingPeriod,
    /// The encoded state has no unbonding period.
    MissingUnbondingPeriod,
    /// The encoded state has no clock drift, or a negative one.
    NegativeMaxClockDrift,
    /// The encoded state has no latest height, or the height zero.
    MissingLatestHeight,
    /// The bytes are no encoded message of the expected kind.
    Decode,
    /// The encoded consensus state lacks a part, or a part is out of range.
    InvalidRawConsensusState,
    /// The encoded header lacks its signed header.
    MissingSignedHeader,
    /// The encoded header lacks its validator set.
    MissingValidatorSet,
    /// The encoded header lacks its trusted validator set.
    MissingTrustedValidatorSet,
    /// The encoded header lacks its trusted height, or has the height zero.
    MissingTrustedHeight,
    /// A part of the encoded header is not well formed.
    InvalidRawHeader,
    /// The time of the header cannot be held as a timestamp.
    InvalidHeaderTime,
    /// The two headers of a misbehaviour report name different chains.
    MisbehaviourHeadersDifferentChains,
    /// The first header of a misbehaviour report is below the second.
    MisbehaviourHeadersOutOfOrder { height1: Height, height2: Height },
    /// The encoded misbehaviour report lacks one of its headers.
    MissingRawHeader,
    /// A header at block zero, or above the largest block number.
    InvalidHeaderHeight { height: u64 },
    /// The host gave no time.
    MissingHostTimestamp,
    /// The sum of a timestamp and a delay does not fit.
    TimestampOverflow,
    /// The delay period in time has not passed yet.
    NotEnoughTimeElapsed { current_time: Timestamp, earliest_time: Timestamp },
    /// The delay period in blocks leads beyond the largest block number of
    /// a revision that the host has not left yet.
    DelayHeightOverflow { processed_height: Height, delay_period_blocks: u64 },
    /// The delay period in blocks has not passed yet.
    NotEnoughBlocksElapsed { current_height: Height, earliest_height: Height },
    /// The client has not reached the height that the proof speaks of.
    InsufficientHeight { latest_height: Height, target_height: Height },
    /// The client is frozen at or below the height that the proof speaks of.
    ClientFrozen { frozen_height: Height, target_height: Height },
    /// The header belongs to another revision than the client.
    MismatchedRevisions { current_revision: u64, update_revision: u64 },
    /// The header is later than the consensus state that follows it.
    HeaderTimestampTooHigh { actual: Timestamp, max: Timestamp },
    /// The header is earlier than the consensus state that precedes it.
    HeaderTimestampTooLow { actual: Timestamp, min: Timestamp },
    /// The trusted consensus state is older than the trusting period.
    ConsensusStateTimestampGteTrustingPeriod {
        duration_since_consensus_state: Duration,
        trusting_period: Duration,
    },
    /// Two headers at one height that commit to the same block.
    MisbehaviourHeadersBlockHashesEqual,
    /// Two headers at different heights whose times are in order.
    MisbehaviourHeadersNotAtSameHeight,
    /// The headers were made for another chain than the client follows.
    MisbehaviourHeadersChainIdMismatch { header_chain_id: String, chain_id: String },
    /// The trusted validators of a header are not those that the trusted
    /// consensus state names.
    MisbehaviourTrustedValidatorHashMismatch,
    /// The host holds no processed time for the client at this height.
    ProcessedTimeNotFound { client_id: ClientId, height: Height },
    /// The host holds no processed height for the client at this height.
    ProcessedHeightNotFound { client_id: ClientId, height: Height },
    /// The verifier found the header invalid.
    VerificationError { detail: String },
    /// Too little of the trusted voting power signed the header.
    NotEnoughTrustedValsSigned { reason: String },
    /// The values at hand cannot be given to the verifier.
    InvalidVerifierInput,
    /// The client does not check proofs of an upgrade.
    UpgradeNotSupported,
}

/// What the generic client layer reports.
#[derive(Clone, Debug, PartialEq, Eq)]
pub enum ClientError {
    /// A height with a block number of zero.
    InvalidHeight,
    /// A subtraction that would leave a height below block one.
    InvalidHeightResult,
    /// A fraction of one or more, or a zero denominator.
    InvalidTrustThreshold { numerator: u64, denominator: u64 },
    /// A client or consensus state of another client type than expected.
    ClientArgsTypeMismatch { client_type: ClientType },
    /// The host holds no such client.
    ClientNotFound { client_id: ClientId },
    /// The host holds no consensus state of the client at this height.
    ConsensusStateNotFound { client_id: ClientId, height: Height },
    /// An encoded client state of an unknown type.
    UnknownClientStateType { client_state_type: String },
    /// An encoded header of an unknown type.
    UnknownHeaderType { header_type: String },
    /// An encoded misbehaviour report of an unknown type.
    UnknownMisbehaviourType { misbehaviour_type: String },
    /// An encoded consensus state of an unknown type.
    UnknownConsensusStateType { consensus_state_type: String },
    /// An error of the Tendermint client.
    ClientSpecific { cause: Error },
    /// The trusted consensus state is later than the host's time.
    InvalidConsensusStateTimestamp { time1: Timestamp, time2: Timestamp },
    /// A header that is not above the latest height of the client.
    LowHeaderHeight { header_height: Height, latest_height: Height },
    /// The proof bytes are no encoded Merkle proof.
    InvalidCommitmentProof { cause: CommitmentError },
    /// The proof does not show what it should.
    Ics23Verification { cause: CommitmentError },
    /// The bytes are no encoded message of the expected kind.
    Decode,
    /// The encoded mock header lacks its height.
    MissingRawHeader,
    /// The host gave no time.
    MissingHostTimestamp,
    /// The host gave no height.
    MissingHostHeight,
    /// An error of the host.
    Other { description: String },
}

/// What the channel layer and the host's channel store report.
#[derive(Clone, Debug, PartialEq, Eq)]
pub enum ChannelError {
    /// The host holds no such channel.
    ChannelNotFound { port_id: PortId, channel_id: ChannelId },
    /// The host holds no such connection.
    ConnectionNotFound { connection_id: ConnectionId },
    /// A channel that does not run over exactly one connection.
    InvalidConnectionHopsLength { expected: usize, actual: usize },
    /// An error of the client layer.
    Client { cause: ClientError },
    /// The client refused the proof of the packet.
    PacketVerificationFailed { sequence: Sequence, client_error: ClientError },
    /// The host holds no processed time for the client at this height.
    ProcessedTimeNotFound { client_id: ClientId, height: Height },
    /// The host holds no processed height for the client at this height.
    ProcessedHeightNotFound { client_id: ClientId, height: Height },
    /// An error of the host.
    Other { description: String },
}

/// What the packet handlers report.
#[derive(Clone, Debug, PartialEq, Eq)]
pub enum PacketError {
    /// An error of the channel layer.
    Channel { cause: ChannelError },
    /// The channel is not open.
    InvalidChannelState { channel_id: ChannelId, state: State },
    /// The packet names another counterparty than the channel has.
    InvalidPacketCounterparty { port_id: PortId, channel_id: ChannelId },
    /// The connection under the channel is not open.
    ConnectionNotOpen { connection_id: ConnectionId },
    /// The host has reached the timeout height of the packet.
    LowPacketHeight { chain_height: Height, timeout_height: TimeoutHeight },
    /// The host has reached the timeout time of the packet.
    LowPacketTimestamp,
    /// The client of the sending chain is frozen.
    FrozenClient { client_id: ClientId },
    /// The packet is ahead of the sequence that the channel expects.
    InvalidPacketSequence { given_sequence: Sequence, next_sequence: Sequence },
    /// The host holds no receipt for this packet.
    PacketReceiptNotFound { sequence: Sequence },
    /// The host holds no receive sequence for this channel.
    MissingNextRecvSeq { port_id: PortId, channel_id: ChannelId },
    /// The receive sequence of the channel cannot grow further.
    SequenceOverflow,
    /// Another error of the host's store.
    ImplementationSpecific,
}

} // verus!

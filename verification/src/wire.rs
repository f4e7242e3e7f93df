//! The encoded forms of what proofs are checked against: the values as the
//! counterparty chain stores them.

use vstd::prelude::*;
use ibc_proto::ibc as raw;
use crate::channel::{ChannelEnd, Order};
use crate::client::AnyConsensusState;
use crate::connection::ConnectionEnd;
use crate::commitment::CommitmentRoot;
use crate::consensus_state::ConsensusState;
use crate::error::{ClientError, Error};
use crate::header::Any;
use crate::text::same_text;
use crate::timestamp::Timestamp;
use crate::mock::MockConsensusState;

verus! {

broadcast use {
    crate::height::Height::lemma_parts,
    crate::height::Height::lemma_of,
    crate::timestamp::Timestamp::lemma_parts,
    crate::timestamp::Timestamp::lemma_of,
    crate::commitment::CommitmentRoot::lemma_of,
};

/// The type URL of an encoded Tendermint consensus state.
pub const TENDERMINT_CONSENSUS_STATE_TYPE_URL: &'static str =
    "/ibc.lightclients.tendermint.v1.ConsensusState";

/// The type URL of an encoded mock consensus state.
pub const MOCK_CONSENSUS_STATE_TYPE_URL: &'static str = "/ibc.mock.ConsensusState";

/// The encoding of a message of any kind with the URL of its type.
pub uninterp spec fn any_bytes(type_url: Seq<char>, value: Seq<u8>) -> Seq<u8>;

/// The encoding of a connection end whose state has the given number and
/// whose delay period has the given length in nanoseconds.
pub uninterp spec fn connection_end_bytes(end: ConnectionEnd, state: i32, delay_nanos: u64) -> Seq<
    u8,
>;

/// The encoding of a channel end whose state and ordering have the given
/// numbers.
pub uninterp spec fn channel_end_bytes(end: ChannelEnd, state: i32, ordering: i32) -> Seq<u8>;

/// The encoding of a Tendermint consensus state with the time given in
/// seconds and nanoseconds.
pub uninterp spec fn tendermint_consensus_state_bytes(
    seconds: i64,
    nanos: i32,
    root: Seq<u8>,
    next_validators_hash: Seq<u8>,
) -> Seq<u8>;

/// The encoding of a mock consensus state.
pub uninterp spec fn mock_consensus_state_bytes(
    revision_number: u64,
    revision_height: u64,
    timestamp: u64,
) -> Seq<u8>;

/// Encodes the message `google.protobuf.Any` of `ibc_proto` with `prost`.
#[verifier::external_body]
fn encode_any(type_url: &str, value: &[u8]) -> (r: Vec<u8>)
    ensures
        r@ == any_bytes(type_url@, value@),
{
    prost::Message::encode_to_vec(&ibc_proto::google::protobuf::Any {
        type_url: type_url.to_string(),
        value: value.to_vec(),
    })
}

/// Encodes the message `ibc.core.connection.v1.ConnectionEnd` of
/// `ibc_proto` with `prost`: a missing counterparty connection is written as
/// the empty string.
#[verifier::external_body]
fn encode_connection_end(end: &ConnectionEnd, state: i32, delay_nanos: u64) -> (r: Vec<u8>)
    ensures
        r@ == connection_end_bytes(*end, state, delay_nanos),
{
    prost::Message::encode_to_vec(&raw::core::connection::v1::ConnectionEnd {
        client_id: end.client_id.as_str().to_string(),
        versions: end.versions.iter().map(|v| raw::core::connection::v1::Version {
            identifier: v.identifier.clone(), features: v.features.clone() }).collect(),
        state,
        counterparty: Some(raw::core::connection::v1::Counterparty {
            client_id: end.counterparty.client_id.as_str().to_string(),
            connection_id: end.counterparty.connection_id.as_ref().map(|c| c.as_str().to_string()).unwrap_or_default(),
            prefix: Some(raw::core::commitment::v1::MerklePrefix { key_prefix: end.counterparty.prefix.as_bytes().to_vec() }),
        }),
        delay_period: delay_nanos,
    })
}

/// Encodes the message `ibc.core.channel.v1.Channel` of `ibc_proto` with
/// `prost`: a missing counterparty channel is written as the empty string.
#[verifier::external_body]
fn encode_channel_end(end: &ChannelEnd, state: i32, ordering: i32) -> (r: Vec<u8>)
    ensures
        r@ == channel_end_bytes(*end, state, ordering),
{
    prost::Message::encode_to_vec(&raw::core::channel::v1::Channel {
        state,
        ordering,
        counterparty: Some(raw::core::channel::v1::Counterparty {
            port_id: end.remote.port_id.as_str().to_string(),
            channel_id: end.remote.channel_id.as_ref().map(|c| c.as_str().to_string()).unwrap_or_default(),
        }),
        connection_hops: end.connection_hops.iter().map(|c| c.as_str().to_string()).collect(),
        version: end.version.text.clone(),
    })
}

/// Encodes the message `ibc.lightclients.tendermint.v1.ConsensusState` of
/// `ibc_proto` with `prost`.
#[verifier::external_body]
fn encode_tendermint_consensus_state(seconds: i64, nanos: i32, root: &[u8], hash: &[u8]) -> (r: Vec<
    u8,
>)
    ensures
        r@ == tendermint_consensus_state_bytes(seconds, nanos, root@, hash@),
{
    prost::Message::encode_to_vec(&raw::lightclients::tendermint::v1::ConsensusState {
        timestamp: Some(ibc_proto::google::protobuf::Timestamp { seconds, nanos }),
        root: Some(raw::core::commitment::v1::MerkleRoot { hash: root.to_vec() }),
        next_validators_hash: hash.to_vec(),
    })
}

/// Encodes the message `ibc.mock.ConsensusState` of `ibc_proto` with
/// `prost`.
#[verifier::external_body]
fn encode_mock_consensus_state(revision_number: u64, revision_height: u64, timestamp: u64) -> (r:
    Vec<u8>)
    ensures
        r@ == mock_consensus_state_bytes(revision_number, revision_height, timestamp),
{
    prost::Message::encode_to_vec(&raw::mock::ConsensusState {
        header: Some(raw::mock::Header {
            height: Some(raw::core::client::v1::Height { revision_number, revision_height }),
            timestamp,
        }),
    })
}

impl Any {
    /// The bytes of the encoded message.
    pub open spec fn spec_bytes(&self) -> Seq<u8> {
        any_bytes(self.type_url@, self.value@)
    }

    /// Encodes the message.
    pub fn encode_vec(&self) -> (r: Vec<u8>)
        ensures
            r@ == self.spec_bytes(),
    {
        encode_any(self.type_url.as_str(), self.value.as_slice())
    }
}

impl crate::connection::State {
    /// The number of the state on the wire.
    pub open spec fn spec_code(self) -> i32 {
        match self {
            crate::connection::State::Uninitialized => 0,
            crate::connection::State::Init => 1,
            crate::connection::State::TryOpen => 2,
            crate::connection::State::Open => 3,
        }
    }

    /// The number of the state on the wire.
    pub fn code(&self) -> (r: i32)
        ensures
            r == self.spec_code(),
    {
        match self {
            crate::connection::State::Uninitialized => 0,
            crate::connection::State::Init => 1,
            crate::connection::State::TryOpen => 2,
            crate::connection::State::Open => 3,
        }
    }
}

impl crate::channel::State {
    /// The number of the state on the wire.
    pub open spec fn spec_code(self) -> i32 {
        match self {
            crate::channel::State::Uninitialized => 0,
            crate::channel::State::Init => 1,
            crate::channel::State::TryOpen => 2,
            crate::channel::State::Open => 3,
            crate::channel::State::Closed => 4,
        }
    }

    /// The number of the state on the wire.
    pub fn code(&self) -> (r: i32)
        ensures
            r == self.spec_code(),
    {
        match self {
            crate::channel::State::Uninitialized => 0,
            crate::channel::State::Init => 1,
            crate::channel::State::TryOpen => 2,
            crate::channel::State::Open => 3,
            crate::channel::State::Closed => 4,
        }
    }
}

impl Order {
    /// The number of the ordering on the wire.
    pub open spec fn spec_code(self) -> i32 {
        match self {
            Order::Unspecified => 0,
            Order::Unordered => 1,
            Order::Ordered => 2,
        }
    }

    /// The number of the ordering on the wire.
    pub fn code(&self) -> (r: i32)
        ensures
            r == self.spec_code(),
    {
        match self {
            Order::Unspecified => 0,
            Order::Unordered => 1,
            Order::Ordered => 2,
        }
    }
}

impl ConnectionEnd {
    /// The bytes of the encoded connection end. The delay period is written
    /// in nanoseconds, cut to 64 bits.
    pub open spec fn spec_bytes(&self) -> Seq<u8> {
        connection_end_bytes(
            *self,
            self.state.spec_code(),
            (self.delay_period.total_nanos() % 0x1_0000_0000_0000_0000) as u64,
        )
    }

    /// Encodes the connection end.
    pub fn encode_vec(&self) -> (r: Vec<u8>)
        ensures
            r@ == self.spec_bytes(),
    {
        let nanos: u128 = self.delay_period.as_nanos() % 0x1_0000_0000_0000_0000;
        encode_connection_end(self, self.state.code(), nanos as u64)
    }
}

impl ChannelEnd {
    /// The bytes of the encoded channel end.
    pub open spec fn spec_bytes(&self) -> Seq<u8> {
        channel_end_bytes(*self, self.state.spec_code(), self.ordering.spec_code())
    }

    /// Encodes the channel end.
    pub fn encode_vec(&self) -> (r: Vec<u8>)
        ensures
            r@ == self.spec_bytes(),
    {
        encode_channel_end(self, self.state.code(), self.ordering.code())
    }
}

impl ConsensusState {
    /// The bytes of the encoded consensus state, without the URL of its
    /// type.
    pub open spec fn spec_bytes(&self) -> Seq<u8> {
        tendermint_consensus_state_bytes(
            (self.timestamp.spec_nanos() / 1_000_000_000) as i64,
            (self.timestamp.spec_nanos() % 1_000_000_000) as i32,
            self.root@,
            self.next_validators_hash@,
        )
    }

    /// Encodes the consensus state, without the URL of its type.
    pub fn encode_vec(&self) -> (r: Vec<u8>)
        ensures
            r@ == self.spec_bytes(),
    {
        let nanos = self.timestamp.nanoseconds();
        encode_tendermint_consensus_state(
            (nanos / 1_000_000_000) as i64,
            (nanos % 1_000_000_000) as i32,
            self.root.as_bytes(),
            self.next_validators_hash.as_slice(),
        )
    }
}

impl MockConsensusState {
    /// The bytes of the encoded consensus state, without the URL of its
    /// type.
    pub open spec fn spec_bytes(&self) -> Seq<u8> {
        mock_consensus_state_bytes(
            self.header.height.rev(),
            self.header.height.num(),
            self.header.timestamp.spec_nanos(),
        )
    }

    /// Encodes the consensus state, without the URL of its type.
    pub fn encode_vec(&self) -> (r: Vec<u8>)
        ensures
            r@ == self.spec_bytes(),
    {
        encode_mock_consensus_state(
            self.header.height.revision_number(),
            self.header.height.revision_height(),
            self.header.timestamp.nanoseconds(),
        )
    }
}

impl AnyConsensusState {
    /// The bytes of the consensus state as a chain stores it: the encoded
    /// state, wrapped with the URL of its type and encoded again.
    pub open spec fn spec_bytes(&self) -> Seq<u8> {
        match self {
            AnyConsensusState::Tendermint(cs) => any_bytes(
                TENDERMINT_CONSENSUS_STATE_TYPE_URL@,
                cs.spec_bytes(),
            ),
            AnyConsensusState::Mock(cs) => any_bytes(
                MOCK_CONSENSUS_STATE_TYPE_URL@,
                cs.spec_bytes(),
            ),
        }
    }

    /// Encodes the consensus state as a chain stores it.
    pub fn encode_vec(&self) -> (r: Vec<u8>)
        ensures
            r@ == self.spec_bytes(),
    {
        match self {
            AnyConsensusState::Tendermint(cs) => {
                let value = cs.encode_vec();
                encode_any(TENDERMINT_CONSENSUS_STATE_TYPE_URL, value.as_slice())
            },
            AnyConsensusState::Mock(cs) => {
                let value = cs.encode_vec();
                encode_any(MOCK_CONSENSUS_STATE_TYPE_URL, value.as_slice())
            },
        }
    }
}

/// A Tendermint consensus state on the wire: the time in seconds and
/// nanoseconds and the root, where they are there, and the hash of the next
/// validators.
pub struct RawConsensusState {
    pub timestamp: Option<(i64, i32)>,
    pub root: Option<Vec<u8>>,
    pub next_validators_hash: Vec<u8>,
}

/// What the outside decoder makes of the bytes of a Tendermint consensus
/// state.
pub uninterp spec fn raw_consensus_state(bytes: Seq<u8>) -> Result<RawConsensusState, Error>;

/// Decodes the message `ibc.lightclients.tendermint.v1.ConsensusState` of
/// `ibc_proto` with `prost`.
#[verifier::external_body]
fn decode_consensus_state(bytes: &[u8]) -> (r: Result<RawConsensusState, Error>)
    ensures
        r == raw_consensus_state(bytes@),
{
    let m: raw::lightclients::tendermint::v1::ConsensusState =
        prost::Message::decode(bytes).map_err(|_| Error::Decode)?;
    Ok(RawConsensusState {
        timestamp: m.timestamp.map(|t| (t.seconds, t.nanos)),
        root: m.root.map(|r| r.hash),
        next_validators_hash: m.next_validators_hash,
    })
}

/// The consensus state that a message holds: it needs a time after the Unix
/// epoch that can be counted in nanoseconds, a root, and a hash of 32 bytes or
/// none.
pub open spec fn consensus_state_of_raw(raw: RawConsensusState) -> Result<ConsensusState, Error> {
    match (raw.timestamp, raw.root) {
        (Some((seconds, nanos)), Some(root)) => if 0 <= seconds && 0 <= nanos < 1_000_000_000
            && 0 < seconds * 1_000_000_000 + nanos <= u64::MAX && (raw.next_validators_hash@.len()
            == 32 || raw.next_validators_hash@.len() == 0) {
            Ok(
                ConsensusState {
                    timestamp: Timestamp::of((seconds * 1_000_000_000 + nanos) as u64),
                    root: CommitmentRoot::of(root),
                    next_validators_hash: raw.next_validators_hash,
                },
            )
        } else {
            Err(Error::InvalidRawConsensusState)
        },
        _ => Err(Error::InvalidRawConsensusState),
    }
}

/// The Tendermint consensus state in an encoded message.
pub open spec fn consensus_state_of_any(raw: &Any) -> Result<ConsensusState, ClientError> {
    if raw.type_url@ != TENDERMINT_CONSENSUS_STATE_TYPE_URL@ {
        Err(ClientError::UnknownConsensusStateType { consensus_state_type: raw.type_url })
    } else {
        match raw_consensus_state(raw.value@) {
            Err(cause) => Err(ClientError::ClientSpecific { cause }),
            Ok(m) => match consensus_state_of_raw(m) {
                Err(cause) => Err(ClientError::ClientSpecific { cause }),
                Ok(cs) => Ok(cs),
            },
        }
    }
}

impl ConsensusState {
    /// The consensus state that a message holds.
    pub fn try_from_raw(raw: RawConsensusState) -> (r: Result<ConsensusState, Error>)
        ensures
            r == consensus_state_of_raw(raw),
    {
        let (seconds, nanos) = match raw.timestamp {
            Some(t) => t,
            None => {
                return Err(Error::InvalidRawConsensusState);
            },
        };
        let root = match raw.root {
            Some(r) => r,
            None => {
                return Err(Error::InvalidRawConsensusState);
            },
        };
        if seconds < 0 || nanos < 0 || nanos >= 1_000_000_000 || seconds > 18_446_744_073 {
            return Err(Error::InvalidRawConsensusState);
        }
        let total: u128 = (seconds as u128) * 1_000_000_000 + (nanos as u128);
        if total == 0 || total > u64::MAX as u128 {
            return Err(Error::InvalidRawConsensusState);
        }
        if raw.next_validators_hash.len() != 32 && raw.next_validators_hash.len() != 0 {
            return Err(Error::InvalidRawConsensusState);
        }
        let timestamp = match Timestamp::from_nanoseconds(total as u64) {
            Ok(t) => t,
            Err(_) => {
                return Err(Error::InvalidRawConsensusState);
            },
        };
        Ok(
            ConsensusState {
                timestamp,
                root: CommitmentRoot::from(root),
                next_validators_hash: raw.next_validators_hash,
            },
        )
    }

    /// The consensus state in an encoded message, which must be of the type
    /// of Tendermint consensus states.
    pub fn try_from_any(raw: Any) -> (r: Result<ConsensusState, ClientError>)
        ensures
            r == consensus_state_of_any(&raw),
    {
        if !same_text(raw.type_url.as_str(), TENDERMINT_CONSENSUS_STATE_TYPE_URL) {
            return Err(
                ClientError::UnknownConsensusStateType { consensus_state_type: raw.type_url },
            );
        }
        let m = match decode_consensus_state(raw.value.as_slice()) {
            Ok(m) => m,
            Err(cause) => {
                return Err(ClientError::ClientSpecific { cause });
            },
        };
        match ConsensusState::try_from_raw(m) {
            Ok(cs) => Ok(cs),
            Err(cause) => Err(ClientError::ClientSpecific { cause }),
        }
    }
}

impl crate::client_state::ClientState {
    /// The first consensus state of a client: the one that the encoded
    /// message holds.
    pub fn initialise(&self, consensus_state: Any) -> (r: Result<AnyConsensusState, ClientError>)
        ensures
            r == match consensus_state_of_any(&consensus_state) {
                Ok(cs) => Ok::<AnyConsensusState, ClientError>(AnyConsensusState::Tendermint(cs)),
                Err(e) => Err(e),
            },
    {
        match ConsensusState::try_from_any(consensus_state) {
            Ok(cs) => Ok(AnyConsensusState::Tendermint(cs)),
            Err(e) => Err(e),
        }
    }
}

} // verus!

//! What the handlers read from the host chain.
//!
//! A handler runs inside one transaction and sees the host's store as it
//! was when the transaction began. Each reading method therefore answers as
//! a function of the reader and the arguments: that function is the method's
//! spec twin, and an implementation defines it as the reading itself.

use vstd::prelude::*;
use crate::channel::ChannelEnd;
use crate::client::{AnyClientState, AnyConsensusState};
use crate::connection::ConnectionEnd;
use crate::error::{ChannelError, ClientError, PacketError};
use crate::height::Height;
use crate::identifier::{ChannelId, ClientId, ConnectionId, PortId};
use crate::packet::{PacketCommitment, Receipt, Sequence, TimeoutHeight};
use crate::timestamp::{Duration, Timestamp};

verus! {

/// The host's store of clients, as the client handlers read it.
pub trait ClientReader {
    spec fn client_state_of(&self, client_id: &ClientId) -> Result<AnyClientState, ClientError>;

    spec fn consensus_state_of(&self, client_id: &ClientId, height: &Height) -> Result<
        AnyConsensusState,
        ClientError,
    >;

    spec fn next_consensus_state_of(&self, client_id: &ClientId, height: &Height) -> Result<
        Option<AnyConsensusState>,
        ClientError,
    >;

    spec fn prev_consensus_state_of(&self, client_id: &ClientId, height: &Height) -> Result<
        Option<AnyConsensusState>,
        ClientError,
    >;

    spec fn host_height_of(&self) -> Result<Height, ClientError>;

    spec fn host_timestamp_of(&self) -> Result<Timestamp, ClientError>;

    /// The state of the client.
    fn client_state(&self, client_id: &ClientId) -> (r: Result<AnyClientState, ClientError>)
        ensures
            r == self.client_state_of(client_id),
    ;

    /// The consensus state of the client at `height`. Where the host holds
    /// none, the error is `ConsensusStateNotFound`.
    fn consensus_state(&self, client_id: &ClientId, height: &Height) -> (r: Result<
        AnyConsensusState,
        ClientError,
    >)
        ensures
            r == self.consensus_state_of(client_id, height),
    ;

    /// The consensus state of the client at the lowest height above
    /// `height`, if the host holds one there.
    fn next_consensus_state(&self, client_id: &ClientId, height: &Height) -> (r: Result<
        Option<AnyConsensusState>,
        ClientError,
    >)
        ensures
            r == self.next_consensus_state_of(client_id, height),
    ;

    /// The consensus state of the client at the highest height below
    /// `height`, if the host holds one there.
    fn prev_consensus_state(&self, client_id: &ClientId, height: &Height) -> (r: Result<
        Option<AnyConsensusState>,
        ClientError,
    >)
        ensures
            r == self.prev_consensus_state_of(client_id, height),
    ;

    /// The height of the host chain.
    fn host_height(&self) -> (r: Result<Height, ClientError>)
        ensures
            r == self.host_height_of(),
    ;

    /// The time of the host chain.
    fn host_timestamp(&self) -> (r: Result<Timestamp, ClientError>)
        ensures
            r == self.host_timestamp_of(),
    ;
}

/// The host's store of channels, connections and packets, as the packet
/// handlers read it.
pub trait ChannelReader {
    spec fn channel_end_of(&self, port_id: &PortId, channel_id: &ChannelId) -> Result<
        ChannelEnd,
        ChannelError,
    >;

    spec fn connection_end_of(&self, connection_id: &ConnectionId) -> Result<
        ConnectionEnd,
        ChannelError,
    >;

    spec fn client_state_of(&self, client_id: &ClientId) -> Result<AnyClientState, ChannelError>;

    spec fn client_consensus_state_of(&self, client_id: &ClientId, height: &Height) -> Result<
        AnyConsensusState,
        ChannelError,
    >;

    spec fn next_sequence_recv_of(&self, port_id: &PortId, channel_id: &ChannelId) -> Result<
        Sequence,
        PacketError,
    >;

    spec fn packet_receipt_of(
        &self,
        port_id: &PortId,
        channel_id: &ChannelId,
        sequence: &Sequence,
    ) -> Result<Receipt, PacketError>;

    spec fn packet_commitment_of(
        &self,
        data: &Vec<u8>,
        timeout_height: &TimeoutHeight,
        timeout_timestamp: &Timestamp,
    ) -> PacketCommitment;

    spec fn host_height_of(&self) -> Result<Height, ChannelError>;

    spec fn host_timestamp_of(&self) -> Result<Timestamp, ChannelError>;

    spec fn client_update_time_of(&self, client_id: &ClientId, height: &Height) -> Result<
        Timestamp,
        ChannelError,
    >;

    spec fn client_update_height_of(&self, client_id: &ClientId, height: &Height) -> Result<
        Height,
        ChannelError,
    >;

    spec fn block_delay_of(&self, delay_period_time: &Duration) -> u64;

    /// The end of the channel on the host.
    fn channel_end(&self, port_id: &PortId, channel_id: &ChannelId) -> (r: Result<
        ChannelEnd,
        ChannelError,
    >)
        ensures
            r == self.channel_end_of(port_id, channel_id),
    ;

    /// The end of the connection on the host.
    fn connection_end(&self, connection_id: &ConnectionId) -> (r: Result<
        ConnectionEnd,
        ChannelError,
    >)
        ensures
            r == self.connection_end_of(connection_id),
    ;

    /// The state of the client.
    fn client_state(&self, client_id: &ClientId) -> (r: Result<AnyClientState, ChannelError>)
        ensures
            r == self.client_state_of(client_id),
    ;

    /// The consensus state of the client at `height`.
    fn client_consensus_state(&self, client_id: &ClientId, height: &Height) -> (r: Result<
        AnyConsensusState,
        ChannelError,
    >)
        ensures
            r == self.client_consensus_state_of(client_id, height),
    ;

    /// The sequence number of the packet that an ordered channel expects
    /// next.
    fn get_next_sequence_recv(&self, port_id: &PortId, channel_id: &ChannelId) -> (r: Result<
        Sequence,
        PacketError,
    >)
        ensures
            r == self.next_sequence_recv_of(port_id, channel_id),
    ;

    /// The receipt of a packet on an unordered channel. Where the host holds
    /// none, the error is `PacketReceiptNotFound` with the sequence asked for.
    fn get_packet_receipt(
        &self,
        port_id: &PortId,
        channel_id: &ChannelId,
        sequence: &Sequence,
    ) -> (r: Result<Receipt, PacketError>)
        ensures
            r == self.packet_receipt_of(port_id, channel_id, sequence),
    ;

    /// The commitment that the sending chain stores for a packet with this
    /// data and these timeouts.
    fn packet_commitment(
        &self,
        data: &Vec<u8>,
        timeout_height: &TimeoutHeight,
        timeout_timestamp: &Timestamp,
    ) -> (r: PacketCommitment)
        ensures
            r == self.packet_commitment_of(data, timeout_height, timeout_timestamp),
    ;

    /// The height of the host chain.
    fn host_height(&self) -> (r: Result<Height, ChannelError>)
        ensures
            r == self.host_height_of(),
    ;

    /// The time of the host chain.
    fn host_timestamp(&self) -> (r: Result<Timestamp, ChannelError>)
        ensures
            r == self.host_timestamp_of(),
    ;

    /// The host's time when it stored the consensus state of the client at
    /// `height`.
    fn client_update_time(&self, client_id: &ClientId, height: &Height) -> (r: Result<
        Timestamp,
        ChannelError,
    >)
        ensures
            r == self.client_update_time_of(client_id, height),
    ;

    /// The host's height when it stored the consensus state of the client
    /// at `height`.
    fn client_update_height(&self, client_id: &ClientId, height: &Height) -> (r: Result<
        Height,
        ChannelError,
    >)
        ensures
            r == self.client_update_height_of(client_id, height),
    ;

    /// The number of blocks that the host produces in `delay_period_time`,
    /// rounded up.
    fn block_delay(&self, delay_period_time: &Duration) -> (r: u64)
        ensures
            r == self.block_delay_of(delay_period_time),
    ;
}

} // verus!

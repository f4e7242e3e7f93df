use std::collections::HashMap;

use ibc_tendermint::channel::{ChannelEnd, Counterparty, Order, State, Version};
use ibc_tendermint::client::{AnyClientState, AnyConsensusState};
use ibc_tendermint::commitment::{CommitmentPrefix, CommitmentProofBytes};
use ibc_tendermint::connection::{
    ConnectionEnd, Counterparty as ConnectionCounterparty, State as ConnectionState,
};
use ibc_tendermint::context::ChannelReader;
use ibc_tendermint::error::{ChannelError, ClientError, PacketError};
use ibc_tendermint::height::Height;
use ibc_tendermint::identifier::{ChannelId, ClientId, ConnectionId, PortId};
use ibc_tendermint::mock::{MockClientState, MockConsensusState, MockHeader};
use ibc_tendermint::packet::{
    MsgRecvPacket, Packet, PacketCommitment, Receipt, Sequence, Signer, TimeoutHeight,
};
use ibc_tendermint::recv_packet::{
    ordered_recv, process, unordered_recv, IbcEvent, PacketResult, RecvPacketResult,
};
use ibc_tendermint::timestamp::{Duration, Timestamp};

const NOW: u64 = 1_700_000_000_000_000_000;

/// A host chain in memory.
#[derive(Clone, Default)]
struct MockContext {
    height: u64,
    timestamp: u64,
    clients: HashMap<String, MockClientState>,
    consensus_states: HashMap<(String, Height), MockConsensusState>,
    connections: HashMap<String, ConnectionEnd>,
    channels: HashMap<(String, String), ChannelEnd>,
    recv_sequences: HashMap<(String, String), Sequence>,
    receipts: HashMap<(String, String, u64), Receipt>,
    receipt_failure: bool,
}

impl MockContext {
    fn new() -> Self {
        MockContext { height: 5, timestamp: NOW, ..Default::default() }
    }

    fn query_latest_height(&self) -> Height {
        Height::new(0, self.height).unwrap()
    }

    fn with_client(mut self, client_id: &ClientId, height: Height) -> Self {
        let header = MockHeader::new(height).with_timestamp(Timestamp::from_nanoseconds(NOW).unwrap());
        self.clients.insert(client_id.as_str().to_string(), MockClientState::new(header));
        self.consensus_states
            .insert((client_id.as_str().to_string(), height), MockConsensusState::new(header));
        self
    }

    fn with_frozen_client(mut self, client_id: &ClientId, height: Height) -> Self {
        let header = MockHeader::new(height);
        self.clients.insert(
            client_id.as_str().to_string(),
            MockClientState::new(header).with_frozen_height(Height::new(0, 1).unwrap()),
        );
        self.consensus_states
            .insert((client_id.as_str().to_string(), height), MockConsensusState::new(header));
        self
    }

    fn with_connection(mut self, id: ConnectionId, end: ConnectionEnd) -> Self {
        self.connections.insert(id.as_str().to_string(), end);
        self
    }

    fn with_channel(mut self, port: PortId, chan: ChannelId, end: ChannelEnd) -> Self {
        self.channels.insert((port.as_str().to_string(), chan.as_str().to_string()), end);
        self
    }

    fn with_recv_sequence(mut self, port: PortId, chan: ChannelId, seq: Sequence) -> Self {
        self.recv_sequences.insert((port.as_str().to_string(), chan.as_str().to_string()), seq);
        self
    }

    fn with_receipt(mut self, port: PortId, chan: ChannelId, seq: Sequence) -> Self {
        self.receipts.insert(
            (port.as_str().to_string(), chan.as_str().to_string(), seq.value()),
            Receipt::Received,
        );
        self
    }

    fn with_height(mut self, height: Height) -> Self {
        self.height = height.revision_height();
        self
    }
}

impl ChannelReader for MockContext {
    fn channel_end_of(&self, port_id: &PortId, channel_id: &ChannelId) -> Result<ChannelEnd, ChannelError> {
        self.channel_end(port_id, channel_id)
    }

    fn connection_end_of(&self, connection_id: &ConnectionId) -> Result<ConnectionEnd, ChannelError> {
        self.connection_end(connection_id)
    }

    fn client_state_of(&self, client_id: &ClientId) -> Result<AnyClientState, ChannelError> {
        self.client_state(client_id)
    }

    fn client_consensus_state_of(
        &self,
        client_id: &ClientId,
        height: &Height,
    ) -> Result<AnyConsensusState, ChannelError> {
        self.client_consensus_state(client_id, height)
    }

    fn next_sequence_recv_of(&self, port_id: &PortId, channel_id: &ChannelId) -> Result<Sequence, PacketError> {
        self.get_next_sequence_recv(port_id, channel_id)
    }

    fn packet_receipt_of(
        &self,
        port_id: &PortId,
        channel_id: &ChannelId,
        sequence: &Sequence,
    ) -> Result<Receipt, PacketError> {
        self.get_packet_receipt(port_id, channel_id, sequence)
    }

    fn packet_commitment_of(
        &self,
        data: &Vec<u8>,
        timeout_height: &TimeoutHeight,
        timeout_timestamp: &Timestamp,
    ) -> PacketCommitment {
        self.packet_commitment(data, timeout_height, timeout_timestamp)
    }

    fn host_height_of(&self) -> Result<Height, ChannelError> {
        self.host_height()
    }

    fn host_timestamp_of(&self) -> Result<Timestamp, ChannelError> {
        self.host_timestamp()
    }

    fn client_update_time_of(&self, client_id: &ClientId, height: &Height) -> Result<Timestamp, ChannelError> {
        self.client_update_time(client_id, height)
    }

    fn client_update_height_of(&self, client_id: &ClientId, height: &Height) -> Result<Height, ChannelError> {
        self.client_update_height(client_id, height)
    }

    fn block_delay_of(&self, delay_period_time: &Duration) -> u64 {
        self.block_delay(delay_period_time)
    }

    fn channel_end(&self, port_id: &PortId, channel_id: &ChannelId) -> Result<ChannelEnd, ChannelError> {
        self.channels
            .get(&(port_id.as_str().to_string(), channel_id.as_str().to_string()))
            .cloned()
            .ok_or(ChannelError::ChannelNotFound {
                port_id: port_id.clone(),
                channel_id: channel_id.clone(),
            })
    }

    fn connection_end(&self, connection_id: &ConnectionId) -> Result<ConnectionEnd, ChannelError> {
        self.connections
            .get(connection_id.as_str())
            .cloned()
            .ok_or(ChannelError::ConnectionNotFound { connection_id: connection_id.clone() })
    }

    fn client_state(&self, client_id: &ClientId) -> Result<AnyClientState, ChannelError> {
        self.clients.get(client_id.as_str()).map(|cs| AnyClientState::Mock(*cs)).ok_or(
            ChannelError::Client { cause: ClientError::ClientNotFound { client_id: client_id.clone() } },
        )
    }

    fn client_consensus_state(
        &self,
        client_id: &ClientId,
        height: &Height,
    ) -> Result<AnyConsensusState, ChannelError> {
        self.consensus_states
            .get(&(client_id.as_str().to_string(), *height))
            .map(|cs| AnyConsensusState::Mock(*cs))
            .ok_or(ChannelError::Client {
                cause: ClientError::ConsensusStateNotFound {
                    client_id: client_id.clone(),
                    height: *height,
                },
            })
    }

    fn get_next_sequence_recv(&self, port_id: &PortId, channel_id: &ChannelId) -> Result<Sequence, PacketError> {
        self.recv_sequences
            .get(&(port_id.as_str().to_string(), channel_id.as_str().to_string()))
            .copied()
            .ok_or(PacketError::MissingNextRecvSeq {
                port_id: port_id.clone(),
                channel_id: channel_id.clone(),
            })
    }

    fn get_packet_receipt(
        &self,
        port_id: &PortId,
        channel_id: &ChannelId,
        sequence: &Sequence,
    ) -> Result<Receipt, PacketError> {
        if self.receipt_failure {
            return Err(PacketError::ImplementationSpecific);
        }
        self.receipts
            .get(&(port_id.as_str().to_string(), channel_id.as_str().to_string(), sequence.value()))
            .copied()
            .ok_or(PacketError::PacketReceiptNotFound { sequence: *sequence })
    }

    fn packet_commitment(
        &self,
        data: &Vec<u8>,
        _timeout_height: &TimeoutHeight,
        timeout_timestamp: &Timestamp,
    ) -> PacketCommitment {
        let mut bytes = timeout_timestamp.nanoseconds().to_be_bytes().to_vec();
        bytes.extend_from_slice(data);
        PacketCommitment { bytes }
    }

    fn host_height(&self) -> Result<Height, ChannelError> {
        Ok(Height::new(0, self.height).unwrap())
    }

    fn host_timestamp(&self) -> Result<Timestamp, ChannelError> {
        Ok(Timestamp::from_nanoseconds(self.timestamp).unwrap())
    }

    fn client_update_time(&self, _client_id: &ClientId, _height: &Height) -> Result<Timestamp, ChannelError> {
        Ok(Timestamp::from_nanoseconds(self.timestamp).unwrap())
    }

    fn client_update_height(&self, _client_id: &ClientId, _height: &Height) -> Result<Height, ChannelError> {
        Ok(Height::new(0, self.height).unwrap())
    }

    fn block_delay(&self, delay_period_time: &Duration) -> u64 {
        (delay_period_time.as_nanos() / 1_000_000_000) as u64
    }
}

fn dummy_packet(timeout_height: u64, timeout_timestamp: u64) -> Packet {
    Packet {
        sequence: Sequence::new(1),
        port_on_a: PortId::default(),
        chan_on_a: ChannelId::default(),
        port_on_b: PortId::default(),
        chan_on_b: ChannelId::default(),
        data: vec![0],
        timeout_height_on_b: TimeoutHeight::At(Height::new(0, timeout_height).unwrap()),
        timeout_timestamp_on_b: Timestamp::from_nanoseconds(timeout_timestamp).unwrap(),
    }
}

fn dummy_msg_recv_packet(height: u64) -> MsgRecvPacket {
    MsgRecvPacket {
        packet: dummy_packet(height, NOW + 9_000_000_000),
        proof_commitment_on_a: CommitmentProofBytes::try_from(vec![1u8, 2, 3]).unwrap(),
        proof_height_on_a: Height::new(0, height).unwrap(),
        signer: Signer { account: "cosmos1wxeyh7zgn4tctjzs0vtqpc6p5cxq5t2muzl7ng".to_string() },
    }
}

fn open_channel(order: Order, packet: &Packet) -> ChannelEnd {
    ChannelEnd::new(
        State::Open,
        order,
        Counterparty::new(packet.port_on_a.clone(), Some(packet.chan_on_a.clone())),
        vec![ConnectionId::default()],
        Version::new("ics20-1".to_string()),
    )
}

fn open_connection() -> ConnectionEnd {
    ConnectionEnd::new(
        ConnectionState::Open,
        ClientId::default(),
        ConnectionCounterparty::new(
            ClientId::default(),
            Some(ConnectionId::default()),
            CommitmentPrefix::default(),
        ),
        Vec::new(),
        Duration::zero(),
    )
}

fn good_context(order: Order) -> (MockContext, MsgRecvPacket) {
    let context = MockContext::new();
    let host_height = context.query_latest_height().increment();
    let client_height = host_height.increment();
    let msg = dummy_msg_recv_packet(client_height.revision_height());
    let ctx = context
        .with_client(&ClientId::default(), client_height)
        .with_connection(ConnectionId::default(), open_connection())
        .with_channel(
            msg.packet.port_on_b.clone(),
            msg.packet.chan_on_b.clone(),
            open_channel(order, &msg.packet),
        )
        .with_height(host_height)
        .with_recv_sequence(
            msg.packet.port_on_b.clone(),
            msg.packet.chan_on_b.clone(),
            msg.packet.sequence,
        );
    (ctx, msg)
}

#[test]
fn recv_packet_processing() {
    struct Test {
        name: String,
        ctx: MockContext,
        msg: MsgRecvPacket,
        want_pass: bool,
    }

    let context = MockContext::new();
    let host_height = context.query_latest_height().increment();
    let client_height = host_height.increment();
    let msg = dummy_msg_recv_packet(client_height.revision_height());
    let packet = msg.packet.clone();

    let packet_old = Packet {
        sequence: Sequence::new(1),
        port_on_a: PortId::default(),
        chan_on_a: ChannelId::default(),
        port_on_b: PortId::default(),
        chan_on_b: ChannelId::default(),
        data: Vec::new(),
        timeout_height_on_b: TimeoutHeight::At(client_height),
        timeout_timestamp_on_b: Timestamp::from_nanoseconds(1).unwrap(),
    };

    let msg_packet_old = MsgRecvPacket {
        packet: packet_old,
        proof_commitment_on_a: msg.proof_commitment_on_a.clone(),
        proof_height_on_a: msg.proof_height_on_a,
        signer: Signer { account: "cosmos1wxeyh7zgn4tctjzs0vtqpc6p5cxq5t2muzl7ng".to_string() },
    };

    let chan_end_on_b = ChannelEnd::new(
        State::Open,
        Order::default(),
        Counterparty::new(packet.port_on_a.clone(), Some(packet.chan_on_a.clone())),
        vec![ConnectionId::default()],
        Version::new("ics20-1".to_string()),
    );

    let conn_end_on_b = open_connection();

    let tests: Vec<Test> = vec![
        Test {
            name: "Processing fails because no channel exists in the context".to_string(),
            ctx: context.clone(),
            msg: msg.clone(),
            want_pass: false,
        },
        Test {
            name: "Good parameters".to_string(),
            ctx: context
                .clone()
                .with_client(&ClientId::default(), client_height)
                .with_connection(ConnectionId::default(), conn_end_on_b.clone())
                .with_channel(
                    packet.port_on_b.clone(),
                    packet.chan_on_b.clone(),
                    chan_end_on_b.clone(),
                )
                .with_height(host_height)
                // This `with_recv_sequence` is required for ordered channels
                .with_recv_sequence(
                    packet.port_on_b.clone(),
                    packet.chan_on_b.clone(),
                    packet.sequence,
                ),
            msg,
            want_pass: true,
        },
        Test {
            name: "Packet timeout expired".to_string(),
            ctx: context
                .with_client(&ClientId::default(), client_height)
                .with_connection(ConnectionId::default(), conn_end_on_b)
                .with_channel(PortId::default(), ChannelId::default(), chan_end_on_b)
                .with_height(host_height),
            msg: msg_packet_old,
            want_pass: false,
        },
    ];

    for test in tests {
        let res = process(&test.ctx, &test.msg);
        // Additionally check the events and the output objects in the result.
        match res {
            Ok(proto_output) => {
                assert!(
                    test.want_pass,
                    "recv_packet: test passed but was supposed to fail for test: {}, \nparams \n msg={:?}",
                    test.name,
                    test.msg.clone(),
                );

                assert!(!proto_output.events.is_empty()); // Some events must exist.

                for e in proto_output.events.iter() {
                    assert!(matches!(e, &IbcEvent::ReceivePacket(_)));
                }
            }
            Err(e) => {
                assert!(
                    !test.want_pass,
                    "recv_packet: did not pass test: {}, \nparams \nmsg={:?}\nerror={:?}",
                    test.name,
                    test.msg.clone(),
                    e,
                );
            }
        }
    }
}

#[test]
fn recv_packet_happy_path_on_unordered_channel() {
    let (ctx, msg) = good_context(Order::Unordered);
    let out = process(&ctx, &msg).unwrap();
    assert_eq!(
        out.result,
        PacketResult::Recv(RecvPacketResult::Unordered {
            port_id: PortId::default(),
            channel_id: ChannelId::default(),
            sequence: Sequence::new(1),
            receipt: Receipt::Received,
        })
    );
    assert_eq!(out.log, vec!["success: packet receive".to_string()]);
    assert_eq!(out.events.len(), 1);
    match &out.events[0] {
        IbcEvent::ReceivePacket(event) => {
            assert_eq!(event.packet, msg.packet);
            assert_eq!(event.ordering, Order::Unordered);
            assert_eq!(event.connection_id, ConnectionId::default());
        }
    }
}

#[test]
fn recv_packet_expired_timeout() {
    let (ctx, mut msg) = good_context(Order::Unordered);
    msg.packet.timeout_timestamp_on_b = Timestamp::from_nanoseconds(1).unwrap();
    assert_eq!(process(&ctx, &msg), Err(PacketError::LowPacketTimestamp));
    // the host has reached the timeout
    msg.packet.timeout_timestamp_on_b = Timestamp::from_nanoseconds(NOW).unwrap();
    assert_eq!(process(&ctx, &msg), Err(PacketError::LowPacketTimestamp));
    // no timeout by time at all
    msg.packet.timeout_timestamp_on_b = Timestamp::none();
    assert!(process(&ctx, &msg).is_ok());
}

#[test]
fn recv_packet_expired_height() {
    let (ctx, mut msg) = good_context(Order::Unordered);
    msg.packet.timeout_height_on_b = TimeoutHeight::At(Height::new(0, 5).unwrap());
    assert_eq!(
        process(&ctx, &msg),
        Err(PacketError::LowPacketHeight {
            chain_height: Height::new(0, 6).unwrap(),
            timeout_height: TimeoutHeight::At(Height::new(0, 5).unwrap()),
        })
    );
    // at the timeout height itself the packet is still received
    msg.packet.timeout_height_on_b = TimeoutHeight::At(Height::new(0, 6).unwrap());
    assert!(process(&ctx, &msg).is_ok());
    msg.packet.timeout_height_on_b = TimeoutHeight::Never;
    assert!(process(&ctx, &msg).is_ok());
}

#[test]
fn recv_packet_refuses_what_does_not_fit_the_channel() {
    let (ctx, msg) = good_context(Order::Unordered);
    assert_eq!(
        process(&MockContext::new(), &msg),
        Err(PacketError::Channel {
            cause: ChannelError::ChannelNotFound {
                port_id: PortId::default(),
                channel_id: ChannelId::default(),
            }
        })
    );

    let mut closed = open_channel(Order::Unordered, &msg.packet);
    closed.state = State::Closed;
    let c = ctx.clone().with_channel(PortId::default(), ChannelId::default(), closed);
    assert_eq!(
        process(&c, &msg),
        Err(PacketError::InvalidChannelState {
            channel_id: ChannelId::default(),
            state: State::Closed
        })
    );

    let mut other = open_channel(Order::Unordered, &msg.packet);
    other.remote = Counterparty::new(PortId::default(), None);
    let c = ctx.clone().with_channel(PortId::default(), ChannelId::default(), other);
    assert_eq!(
        process(&c, &msg),
        Err(PacketError::InvalidPacketCounterparty {
            port_id: PortId::default(),
            channel_id: ChannelId::default(),
        })
    );

    let mut hopless = open_channel(Order::Unordered, &msg.packet);
    hopless.connection_hops = Vec::new();
    let c = ctx.clone().with_channel(PortId::default(), ChannelId::default(), hopless);
    assert_eq!(
        process(&c, &msg),
        Err(PacketError::Channel {
            cause: ChannelError::InvalidConnectionHopsLength { expected: 1, actual: 0 }
        })
    );

    let mut init = open_connection();
    init.state = ConnectionState::Init;
    let c = ctx.clone().with_connection(ConnectionId::default(), init);
    assert_eq!(
        process(&c, &msg),
        Err(PacketError::ConnectionNotOpen { connection_id: ConnectionId::default() })
    );

    let c = ctx.clone().with_frozen_client(&ClientId::default(), Height::new(0, 7).unwrap());
    assert_eq!(
        process(&c, &msg),
        Err(PacketError::FrozenClient { client_id: ClientId::default() })
    );

    let mut late = msg.clone();
    late.proof_height_on_a = Height::new(0, 9).unwrap();
    assert_eq!(
        process(&ctx, &late),
        Err(PacketError::Channel {
            cause: ChannelError::Client {
                cause: ClientError::ConsensusStateNotFound {
                    client_id: ClientId::default(),
                    height: Height::new(0, 9).unwrap(),
                }
            }
        })
    );
}

#[test]
fn recv_packet_on_ordered_channel() {
    let (ctx, msg) = good_context(Order::Ordered);
    let out = process(&ctx, &msg).unwrap();
    assert_eq!(
        out.result,
        PacketResult::Recv(RecvPacketResult::Ordered {
            port_id: PortId::default(),
            channel_id: ChannelId::default(),
            next_seq_recv: Sequence::new(2),
        })
    );
    match &out.events[0] {
        IbcEvent::ReceivePacket(event) => assert_eq!(event.ordering, Order::Ordered),
    }

    let behind = ctx.clone().with_recv_sequence(PortId::default(), ChannelId::default(), Sequence::new(5));
    assert_eq!(process(&behind, &msg).unwrap().result, PacketResult::Recv(RecvPacketResult::NoOp));

    let mut ahead = msg.clone();
    ahead.packet.sequence = Sequence::new(3);
    assert_eq!(
        process(&ctx, &ahead),
        Err(PacketError::InvalidPacketSequence {
            given_sequence: Sequence::new(3),
            next_sequence: Sequence::new(1),
        })
    );

    let mut unknown = ctx.clone();
    unknown.recv_sequences.clear();
    assert_eq!(
        process(&unknown, &msg),
        Err(PacketError::MissingNextRecvSeq {
            port_id: PortId::default(),
            channel_id: ChannelId::default(),
        })
    );
}

#[test]
fn recv_packet_with_a_receipt_changes_nothing() {
    let (ctx, msg) = good_context(Order::Unordered);
    let seen = ctx.clone().with_receipt(PortId::default(), ChannelId::default(), Sequence::new(1));
    let out = process(&seen, &msg).unwrap();
    assert_eq!(out.result, PacketResult::Recv(RecvPacketResult::NoOp));
    assert_eq!(out.events.len(), 1);
    // delivering the same message again gives the same again
    assert_eq!(process(&seen, &msg).unwrap(), out);

    let mut broken = ctx.clone();
    broken.receipt_failure = true;
    assert_eq!(process(&broken, &msg), Err(PacketError::ImplementationSpecific));
}

#[test]
fn bookkeeping_by_given_values() {
    let packet = dummy_packet(10, 0);
    assert_eq!(
        ordered_recv(&packet, Sequence::new(1)),
        Ok(RecvPacketResult::Ordered {
            port_id: PortId::default(),
            channel_id: ChannelId::default(),
            next_seq_recv: Sequence::new(2),
        })
    );
    assert_eq!(ordered_recv(&packet, Sequence::new(2)), Ok(RecvPacketResult::NoOp));
    assert_eq!(
        ordered_recv(&packet, Sequence::new(0)),
        Err(PacketError::InvalidPacketSequence {
            given_sequence: Sequence::new(1),
            next_sequence: Sequence::new(0),
        })
    );
    let mut last = dummy_packet(10, 0);
    last.sequence = Sequence::new(u64::MAX);
    assert_eq!(ordered_recv(&last, Sequence::new(u64::MAX)), Err(PacketError::SequenceOverflow));

    assert_eq!(unordered_recv(&packet, Ok(Receipt::Received)), Ok(RecvPacketResult::NoOp));
    assert_eq!(
        unordered_recv(&packet, Err(PacketError::PacketReceiptNotFound { sequence: Sequence::new(1) })),
        Ok(RecvPacketResult::Unordered {
            port_id: PortId::default(),
            channel_id: ChannelId::default(),
            sequence: Sequence::new(1),
            receipt: Receipt::Received,
        })
    );
    assert_eq!(
        unordered_recv(&packet, Err(PacketError::PacketReceiptNotFound { sequence: Sequence::new(2) })),
        Err(PacketError::ImplementationSpecific)
    );
    assert_eq!(
        unordered_recv(&packet, Err(PacketError::LowPacketTimestamp)),
        Err(PacketError::ImplementationSpecific)
    );
}

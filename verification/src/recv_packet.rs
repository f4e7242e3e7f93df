//! The handler that receives a packet on chain B: it holds the packet
//! against the channel, the connection, the timeouts and the client of chain
//! A, and tells the host what to store.

use vstd::prelude::*;
use vstd::string::*;
use crate::channel::{ChannelEnd, Counterparty, Order, State};
use crate::client::{AnyClientState, AnyConsensusState};
use crate::commitment::{CommitmentProofBytes, CommitmentRoot};
use crate::connection::ConnectionEnd;
use crate::context::ChannelReader;
use crate::error::{ChannelError, ClientError, PacketError};
use crate::height::Height;
use crate::identifier::{ChannelId, ConnectionId, PortId};
use crate::packet::{MsgRecvPacket, Packet, PacketCommitment, Receipt, Sequence};
use crate::path::commitments_path;
use crate::timestamp::Expiry;

verus! {

broadcast use {
    crate::height::Height::lemma_parts,
    crate::height::Height::lemma_of,
    crate::timestamp::Timestamp::lemma_parts,
    crate::timestamp::Timestamp::lemma_of,
};

/// What the host is to store for a received packet.
#[derive(Clone, Debug, PartialEq, Eq)]
pub enum RecvPacketResult {
    /// Nothing: the packet was received before.
    NoOp,
    /// A receipt for the packet on an unordered channel.
    Unordered { port_id: PortId, channel_id: ChannelId, sequence: Sequence, receipt: Receipt },
    /// The next sequence number that the ordered channel expects.
    Ordered { port_id: PortId, channel_id: ChannelId, next_seq_recv: Sequence },
}

/// The result of a packet handler.
#[derive(Clone, Debug, PartialEq, Eq)]
pub enum PacketResult {
    Recv(RecvPacketResult),
}

/// The event that a packet was received.
#[derive(Clone, Debug, PartialEq, Eq)]
pub struct ReceivePacket {
    pub packet: Packet,
    pub ordering: Order,
    pub connection_id: ConnectionId,
}

/// An event of the handlers.
#[derive(Clone, Debug, PartialEq, Eq)]
pub enum IbcEvent {
    ReceivePacket(ReceivePacket),
}

/// What a handler hands back: its result, its log and its events.
#[derive(Clone, Debug, PartialEq, Eq)]
pub struct HandlerOutput<T> {
    pub result: T,
    pub log: Vec<String>,
    pub events: Vec<IbcEvent>,
}

impl AnyClientState {
    /// Why the proof of a packet commitment fails, if it fails. A mock
    /// client accepts every proof.
    pub open spec fn packet_data_fault<Ctx: ChannelReader>(
        &self,
        ctx: &Ctx,
        height: Height,
        connection_end: &ConnectionEnd,
        proof: Seq<u8>,
        root: Seq<u8>,
        port_id: &PortId,
        channel_id: &ChannelId,
        sequence: Sequence,
        commitment: Seq<u8>,
    ) -> Option<ClientError> {
        match self {
            AnyClientState::Tendermint(cs) => cs.delayed_value_fault(
                ctx,
                height,
                connection_end,
                proof,
                root,
                commitments_path(port_id@, channel_id@, sequence.0),
                commitment,
            ),
            AnyClientState::Mock(_) => None,
        }
    }

    /// Checks a proof that the counterparty committed to a packet.
    pub fn verify_packet_data<Ctx: ChannelReader>(
        &self,
        ctx: &Ctx,
        height: Height,
        connection_end: &ConnectionEnd,
        proof: &CommitmentProofBytes,
        root: &CommitmentRoot,
        port_id: &PortId,
        channel_id: &ChannelId,
        sequence: Sequence,
        commitment: PacketCommitment,
    ) -> (r: Result<(), ClientError>)
        ensures
            r == crate::proofs::outcome(
                self.packet_data_fault(
                    ctx,
                    height,
                    connection_end,
                    proof@,
                    root@,
                    port_id,
                    channel_id,
                    sequence,
                    commitment.bytes@,
                ),
            ),
    {
        match self {
            AnyClientState::Tendermint(cs) => cs.verify_packet_data(
                ctx,
                height,
                connection_end,
                proof,
                root,
                port_id,
                channel_id,
                sequence,
                commitment,
            ),
            AnyClientState::Mock(_) => Ok(()),
        }
    }
}

/// Why a channel end does not take the packet, if it does not: it is not
/// open, or the packet names another counterparty.
pub open spec fn channel_fault(chan_end: &ChannelEnd, packet: &Packet) -> Option<PacketError> {
    if chan_end.state != State::Open {
        Some(
            PacketError::InvalidChannelState {
                channel_id: packet.chan_on_a,
                state: chan_end.state,
            },
        )
    } else if !(chan_end.remote.port_id@ == packet.port_on_a@ && chan_end.remote.channel_text()
        == Some(packet.chan_on_a@)) {
        Some(
            PacketError::InvalidPacketCounterparty {
                port_id: packet.port_on_a,
                channel_id: packet.chan_on_a,
            },
        )
    } else if chan_end.connection_hops@.len() == 0 {
        Some(
            PacketError::Channel {
                cause: ChannelError::InvalidConnectionHopsLength { expected: 1, actual: 0 },
            },
        )
    } else {
        None
    }
}

/// Why the host's time and height do not take the packet, if they do not:
/// the host is past the timeout height or has reached the timeout time.
pub open spec fn timeout_fault<Ctx: ChannelReader>(ctx: &Ctx, packet: &Packet) -> Option<
    PacketError,
> {
    match ctx.host_height_of() {
        Err(cause) => Some(PacketError::Channel { cause }),
        Ok(latest_height) => if packet.timeout_height_on_b.spec_has_expired(latest_height) {
            Some(
                PacketError::LowPacketHeight {
                    chain_height: latest_height,
                    timeout_height: packet.timeout_height_on_b,
                },
            )
        } else {
            match ctx.host_timestamp_of() {
                Err(cause) => Some(PacketError::Channel { cause }),
                Ok(latest_timestamp) => if latest_timestamp.is_set()
                    && packet.timeout_timestamp_on_b.is_set() && latest_timestamp.spec_nanos()
                    >= packet.timeout_timestamp_on_b.spec_nanos() {
                    Some(PacketError::LowPacketTimestamp)
                } else {
                    None
                },
            }
        },
    }
}

/// Why the client of chain A does not vouch for the packet, if it does
/// not: the host lacks the client or the consensus state at the height of the
/// proof, the client is frozen, or the proof of the packet commitment fails.
pub open spec fn proof_fault<Ctx: ChannelReader>(
    ctx: &Ctx,
    msg: &MsgRecvPacket,
    conn_end: &ConnectionEnd,
) -> Option<PacketError> {
    let client_id = &conn_end.client_id;
    match ctx.client_state_of(client_id) {
        Err(cause) => Some(PacketError::Channel { cause }),
        Ok(client_state) => if client_state.spec_frozen_height() is Some {
            Some(PacketError::FrozenClient { client_id: *client_id })
        } else {
            match ctx.client_consensus_state_of(client_id, &msg.proof_height_on_a) {
                Err(cause) => Some(PacketError::Channel { cause }),
                Ok(consensus_state) => match verified_packet_fault(
                    ctx,
                    msg,
                    conn_end,
                    &client_state,
                    &consensus_state,
                ) {
                    Some(client_error) => Some(
                        PacketError::Channel {
                            cause: ChannelError::PacketVerificationFailed {
                                sequence: msg.packet.sequence,
                                client_error,
                            },
                        },
                    ),
                    None => None,
                },
            }
        },
    }
}

/// Why the proof of the packet commitment fails against a client and a
/// consensus state, if it fails. The commitment is the one that the host
/// computes for the packet, and the root is that of the consensus state.
pub open spec fn verified_packet_fault<Ctx: ChannelReader>(
    ctx: &Ctx,
    msg: &MsgRecvPacket,
    conn_end: &ConnectionEnd,
    client_state: &AnyClientState,
    consensus_state: &AnyConsensusState,
) -> Option<ClientError> {
    client_state.packet_data_fault(
        ctx,
        msg.proof_height_on_a,
        conn_end,
        msg.proof_commitment_on_a@,
        consensus_state.spec_root(),
        &msg.packet.port_on_a,
        &msg.packet.chan_on_a,
        msg.packet.sequence,
        ctx.packet_commitment_of(
            &msg.packet.data,
            &msg.packet.timeout_height_on_b,
            &msg.packet.timeout_timestamp_on_b,
        ).bytes@,
    )
}

/// What the sequence bookkeeping makes of the packet: the result for the
/// host, or the error.
///
/// On an ordered channel the packet must not be ahead of the sequence that
/// the channel expects; a packet behind it changes nothing, and the expected
/// packet moves the sequence on. On any other channel a packet with a receipt
/// changes nothing, and a packet without one gets a receipt.
pub open spec fn bookkeeping<Ctx: ChannelReader>(
    ctx: &Ctx,
    packet: &Packet,
    ordering: Order,
) -> Result<RecvPacketResult, PacketError> {
    if ordering == Order::Ordered {
        match ctx.next_sequence_recv_of(&packet.port_on_b, &packet.chan_on_b) {
            Err(e) => Err(e),
            Ok(next_seq_recv) => ordered_result(packet, next_seq_recv),
        }
    } else {
        unordered_result(
            packet,
            ctx.packet_receipt_of(&packet.port_on_b, &packet.chan_on_b, &packet.sequence),
        )
    }
}

/// The result on an ordered channel that expects `next_seq_recv`.
pub open spec fn ordered_result(packet: &Packet, next_seq_recv: Sequence) -> Result<
    RecvPacketResult,
    PacketError,
> {
    if packet.sequence.0 > next_seq_recv.0 {
        Err(
            PacketError::InvalidPacketSequence {
                given_sequence: packet.sequence,
                next_sequence: next_seq_recv,
            },
        )
    } else if packet.sequence.0 < next_seq_recv.0 {
        Ok(RecvPacketResult::NoOp)
    } else if next_seq_recv.0 == u64::MAX {
        Err(PacketError::SequenceOverflow)
    } else {
        Ok(
            RecvPacketResult::Ordered {
                port_id: packet.port_on_b,
                channel_id: packet.chan_on_b,
                next_seq_recv: Sequence((next_seq_recv.0 + 1) as u64),
            },
        )
    }
}

/// The result on an unordered channel, given the host's answer for the
/// receipt of the packet.
pub open spec fn unordered_result(packet: &Packet, answer: Result<Receipt, PacketError>) -> Result<
    RecvPacketResult,
    PacketError,
> {
    match answer {
        Ok(_) => Ok(RecvPacketResult::NoOp),
        Err(PacketError::PacketReceiptNotFound { sequence }) => if sequence == packet.sequence {
            Ok(
                RecvPacketResult::Unordered {
                    port_id: packet.port_on_b,
                    channel_id: packet.chan_on_b,
                    sequence: packet.sequence,
                    receipt: Receipt::Received,
                },
            )
        } else {
            Err(PacketError::ImplementationSpecific)
        },
        Err(_) => Err(PacketError::ImplementationSpecific),
    }
}

/// Decides the result on an ordered channel that expects `next_seq_recv`.
pub fn ordered_recv(packet: &Packet, next_seq_recv: Sequence) -> (r: Result<
    RecvPacketResult,
    PacketError,
>)
    ensures
        r == ordered_result(packet, next_seq_recv),
{
    if packet.sequence.value() > next_seq_recv.value() {
        return Err(
            PacketError::InvalidPacketSequence {
                given_sequence: packet.sequence,
                next_sequence: next_seq_recv,
            },
        );
    }
    if packet.sequence.value() < next_seq_recv.value() {
        return Ok(RecvPacketResult::NoOp);
    }
    if next_seq_recv.value() == u64::MAX {
        return Err(PacketError::SequenceOverflow);
    }
    Ok(
        RecvPacketResult::Ordered {
            port_id: packet.port_on_b.clone(),
            channel_id: packet.chan_on_b.clone(),
            next_seq_recv: next_seq_recv.increment(),
        },
    )
}

/// Decides the result on an unordered channel, given the host's answer
/// for the receipt of the packet.
pub fn unordered_recv(packet: &Packet, answer: Result<Receipt, PacketError>) -> (r: Result<
    RecvPacketResult,
    PacketError,
>)
    ensures
        r == unordered_result(packet, answer),
{
    match answer {
        Ok(_) => Ok(RecvPacketResult::NoOp),
        Err(PacketError::PacketReceiptNotFound { sequence }) => {
            if sequence == packet.sequence {
                Ok(
                    RecvPacketResult::Unordered {
                        port_id: packet.port_on_b.clone(),
                        channel_id: packet.chan_on_b.clone(),
                        sequence: packet.sequence,
                        receipt: Receipt::Received,
                    },
                )
            } else {
                Err(PacketError::ImplementationSpecific)
            }
        },
        Err(_) => Err(PacketError::ImplementationSpecific),
    }
}

/// What the handler returns for a message, as a function of what the host
/// holds: the first error among those of the channel, the connection, the
/// timeouts, the proof and the bookkeeping, or the result of the bookkeeping.
pub open spec fn received<Ctx: ChannelReader>(ctx: &Ctx, msg: &MsgRecvPacket) -> Result<
    RecvPacketResult,
    PacketError,
> {
    let packet = &msg.packet;
    match ctx.channel_end_of(&packet.port_on_b, &packet.chan_on_b) {
        Err(cause) => Err(PacketError::Channel { cause }),
        Ok(chan_end) => if let Some(e) = channel_fault(&chan_end, packet) {
            Err(e)
        } else {
            match ctx.connection_end_of(&chan_end.connection_hops@[0]) {
                Err(cause) => Err(PacketError::Channel { cause }),
                Ok(conn_end) => if conn_end.state != crate::connection::State::Open {
                    Err(
                        PacketError::ConnectionNotOpen {
                            connection_id: chan_end.connection_hops@[0],
                        },
                    )
                } else if let Some(e) = timeout_fault(ctx, packet) {
                    Err(e)
                } else if let Some(e) = proof_fault(ctx, msg, &conn_end) {
                    Err(e)
                } else {
                    bookkeeping(ctx, packet, chan_end.ordering)
                },
            }
        },
    }
}

/// The output of a successful receive: the result, one line of log, and
/// the one event that the packet was received on the channel's connection.
pub open spec fn output_of<Ctx: ChannelReader>(
    ctx: &Ctx,
    msg: &MsgRecvPacket,
    output: HandlerOutput<PacketResult>,
) -> bool {
    let chan_end = ctx.channel_end_of(&msg.packet.port_on_b, &msg.packet.chan_on_b)->Ok_0;
    &&& output.result == PacketResult::Recv(received(ctx, msg)->Ok_0)
    &&& output.log@.len() == 1
    &&& output.log@[0]@ == "success: packet receive"@
    &&& output.events@.len() == 1
    &&& output.events@[0] matches IbcEvent::ReceivePacket(event)
    &&& same_packet(&event.packet, &msg.packet)
    &&& event.ordering == chan_end.ordering
    &&& event.connection_id == chan_end.connection_hops@[0]
}

/// Both packets hold the same values.
pub open spec fn same_packet(a: &Packet, b: &Packet) -> bool {
    &&& a.sequence == b.sequence
    &&& a.port_on_a == b.port_on_a
    &&& a.chan_on_a == b.chan_on_a
    &&& a.port_on_b == b.port_on_b
    &&& a.chan_on_b == b.chan_on_b
    &&& a.data@ == b.data@
    &&& a.timeout_height_on_b == b.timeout_height_on_b
    &&& a.timeout_timestamp_on_b == b.timeout_timestamp_on_b
}

/// Receives a packet on chain B: see [`received`] for the result and
/// [`output_of`] for what comes with it.
pub fn process<Ctx: ChannelReader>(ctx_b: &Ctx, msg: &MsgRecvPacket) -> (r: Result<
    HandlerOutput<PacketResult>,
    PacketError,
>)
    ensures
        match received(ctx_b, msg) {
            Err(e) => r == Err::<HandlerOutput<PacketResult>, PacketError>(e),
            Ok(_) => r is Ok && output_of(ctx_b, msg, r->Ok_0),
        },
{
    let packet = &msg.packet;
    let chan_end_on_b = match ctx_b.channel_end(&packet.port_on_b, &packet.chan_on_b) {
        Ok(end) => end,
        Err(cause) => {
            return Err(PacketError::Channel { cause });
        },
    };
    if !chan_end_on_b.state_matches(&State::Open) {
        return Err(
            PacketError::InvalidChannelState {
                channel_id: packet.chan_on_a.clone(),
                state: chan_end_on_b.state,
            },
        );
    }
    let counterparty = Counterparty::new(packet.port_on_a.clone(), Some(packet.chan_on_a.clone()));
    if !chan_end_on_b.counterparty_matches(&counterparty) {
        return Err(
            PacketError::InvalidPacketCounterparty {
                port_id: packet.port_on_a.clone(),
                channel_id: packet.chan_on_a.clone(),
            },
        );
    }
    if chan_end_on_b.connection_hops().len() == 0 {
        return Err(
            PacketError::Channel {
                cause: ChannelError::InvalidConnectionHopsLength { expected: 1, actual: 0 },
            },
        );
    }
    let conn_id_on_b = &chan_end_on_b.connection_hops()[0];
    let conn_end_on_b = match ctx_b.connection_end(conn_id_on_b) {
        Ok(end) => end,
        Err(cause) => {
            return Err(PacketError::Channel { cause });
        },
    };
    if !conn_end_on_b.state_matches(&crate::connection::State::Open) {
        return Err(PacketError::ConnectionNotOpen { connection_id: conn_id_on_b.clone() });
    }
    let latest_height = match ctx_b.host_height() {
        Ok(h) => h,
        Err(cause) => {
            return Err(PacketError::Channel { cause });
        },
    };
    if packet.timeout_height_on_b.has_expired(latest_height) {
        return Err(
            PacketError::LowPacketHeight {
                chain_height: latest_height,
                timeout_height: packet.timeout_height_on_b,
            },
        );
    }
    let latest_timestamp = match ctx_b.host_timestamp() {
        Ok(t) => t,
        Err(cause) => {
            return Err(PacketError::Channel { cause });
        },
    };
    if let Expiry::Expired = latest_timestamp.check_expiry(&packet.timeout_timestamp_on_b) {
        return Err(PacketError::LowPacketTimestamp);
    }
    let client_id_on_b = conn_end_on_b.client_id();
    let client_state_of_a_on_b = match ctx_b.client_state(client_id_on_b) {
        Ok(cs) => cs,
        Err(cause) => {
            return Err(PacketError::Channel { cause });
        },
    };
    if client_state_of_a_on_b.is_frozen() {
        return Err(PacketError::FrozenClient { client_id: client_id_on_b.clone() });
    }
    let consensus_state_of_a_on_b = match ctx_b.client_consensus_state(
        client_id_on_b,
        &msg.proof_height_on_a,
    ) {
        Ok(cs) => cs,
        Err(cause) => {
            return Err(PacketError::Channel { cause });
        },
    };
    let expected_commitment_on_a = ctx_b.packet_commitment(
        &packet.data,
        &packet.timeout_height_on_b,
        &packet.timeout_timestamp_on_b,
    );
    let root = consensus_state_of_a_on_b.root();
    if let Err(client_error) = client_state_of_a_on_b.verify_packet_data(
        ctx_b,
        msg.proof_height_on_a,
        &conn_end_on_b,
        &msg.proof_commitment_on_a,
        &root,
        &packet.port_on_a,
        &packet.chan_on_a,
        packet.sequence,
        expected_commitment_on_a,
    ) {
        return Err(
            PacketError::Channel {
                cause: ChannelError::PacketVerificationFailed {
                    sequence: packet.sequence,
                    client_error,
                },
            },
        );
    }
    let result = if chan_end_on_b.order_matches(&Order::Ordered) {
        let next_seq_recv = ctx_b.get_next_sequence_recv(&packet.port_on_b, &packet.chan_on_b)?;
        ordered_recv(packet, next_seq_recv)?
    } else {
        let packet_rec = ctx_b.get_packet_receipt(
            &packet.port_on_b,
            &packet.chan_on_b,
            &packet.sequence,
        );
        unordered_recv(packet, packet_rec)?
    };
    let mut log: Vec<String> = Vec::new();
    log.push(String::from_str("success: packet receive"));
    let mut events: Vec<IbcEvent> = Vec::new();
    events.push(
        IbcEvent::ReceivePacket(
            ReceivePacket {
                packet: packet.clone(),
                ordering: chan_end_on_b.ordering,
                connection_id: conn_id_on_b.clone(),
            },
        ),
    );
    Ok(HandlerOutput { result: PacketResult::Recv(result), log, events })
}

} // verus!

//! What a Tendermint client vouches for: that the counterparty chain holds
//! a value under a path, or nothing.

use vstd::prelude::*;
use crate::channel::ChannelEnd;
use crate::client::{AnyClientState, AnyConsensusState};
use crate::client_state::{delay_error, ClientState};
use crate::commitment::{prefix_text, CommitmentPrefix, CommitmentProofBytes, CommitmentRoot};
use crate::connection::ConnectionEnd;
use crate::context::ChannelReader;
use crate::error::{ClientError, Error};
use crate::header::Any;
use crate::height::Height;
use crate::identifier::{ChannelId, ClientId, ConnectionId, PortId};
use crate::merkle::{
    apply_prefix, key_bytes, membership_fault, merkle_steps, non_membership_fault, MerkleProof,
};
use crate::packet::{AcknowledgementCommitment, PacketCommitment, Sequence};
use crate::path::{
    acks_path, channel_ends_path, client_consensus_state_path, client_state_path,
    commitments_path, connections_path, receipts_path, seq_recvs_path,
};
use crate::specs::TreeSpec;
use crate::text::texts;

verus! {

broadcast use {
    crate::height::Height::lemma_parts,
    crate::height::Height::lemma_of,
    crate::timestamp::Timestamp::lemma_parts,
    crate::timestamp::Timestamp::lemma_of,
};

/// The keys of a path in the store under a prefix, as bytes: the prefix as
/// text, then the path.
pub open spec fn proof_keys(prefix: Seq<u8>, path: Seq<char>) -> Seq<Seq<u8>> {
    seq![vstd::utf8::encode_utf8(prefix_text(prefix)), vstd::utf8::encode_utf8(path)]
}

/// Why the proof does not show `value` at `path` under `root`, if it does
/// not: the proof bytes are no proof, or the proof does not hold.
pub open spec fn membership_error(
    specs: Seq<TreeSpec>,
    prefix: Seq<u8>,
    proof: Seq<u8>,
    root: Seq<u8>,
    path: Seq<char>,
    value: Seq<u8>,
) -> Option<ClientError> {
    match merkle_steps(proof) {
        Err(cause) => Some(ClientError::InvalidCommitmentProof { cause }),
        Ok(steps) => match membership_fault(
            steps,
            specs,
            root,
            proof_keys(prefix, path),
            value,
            0,
        ) {
            Some(cause) => Some(ClientError::Ics23Verification { cause }),
            None => None,
        },
    }
}

/// Why the proof does not show that nothing stands at `path` under `root`,
/// if it does not.
pub open spec fn non_membership_error(
    specs: Seq<TreeSpec>,
    prefix: Seq<u8>,
    proof: Seq<u8>,
    root: Seq<u8>,
    path: Seq<char>,
) -> Option<ClientError> {
    match merkle_steps(proof) {
        Err(cause) => Some(ClientError::InvalidCommitmentProof { cause }),
        Ok(steps) => match non_membership_fault(steps, specs, root, proof_keys(prefix, path)) {
            Some(cause) => Some(ClientError::Ics23Verification { cause }),
            None => None,
        },
    }
}

/// The result that stands for an error or for none.
pub open spec fn outcome(fault: Option<ClientError>) -> Result<(), ClientError> {
    match fault {
        Some(e) => Err(e),
        None => Ok(()),
    }
}

/// Checks that the proof shows `value` at `path` in the counterparty's
/// store under `prefix`, against the root of a consensus state.
pub fn verify_membership(
    client_state: &ClientState,
    prefix: &CommitmentPrefix,
    proof: &CommitmentProofBytes,
    root: &CommitmentRoot,
    path: String,
    value: Vec<u8>,
) -> (r: Result<(), ClientError>)
    ensures
        r == outcome(
            membership_error(client_state.proof_specs@, prefix@, proof@, root@, path@, value@),
        ),
{
    let mut keys: Vec<String> = Vec::new();
    keys.push(path);
    let merkle_path = apply_prefix(prefix, keys);
    proof {
        let texts = texts(merkle_path.key_path@);
        assert(texts =~= seq![prefix_text(prefix@), path@]);
        assert(texts[0] == merkle_path.key_path@[0]@);
        assert(texts[1] == merkle_path.key_path@[1]@);
        assert(key_bytes(merkle_path.key_path@) =~= proof_keys(prefix@, path@));
    }
    let merkle_proof = match MerkleProof::decode(proof.as_bytes()) {
        Ok(p) => p,
        Err(cause) => {
            return Err(ClientError::InvalidCommitmentProof { cause });
        },
    };
    match merkle_proof.verify_membership(
        &client_state.proof_specs,
        root.as_bytes(),
        &merkle_path,
        value,
        0,
    ) {
        Ok(()) => Ok(()),
        Err(cause) => Err(ClientError::Ics23Verification { cause }),
    }
}

/// Checks that the proof shows that nothing stands at `path` in the
/// counterparty's store under `prefix`, against the root of a consensus
/// state.
pub fn verify_non_membership(
    client_state: &ClientState,
    prefix: &CommitmentPrefix,
    proof: &CommitmentProofBytes,
    root: &CommitmentRoot,
    path: String,
) -> (r: Result<(), ClientError>)
    ensures
        r == outcome(
            non_membership_error(client_state.proof_specs@, prefix@, proof@, root@, path@),
        ),
{
    let mut keys: Vec<String> = Vec::new();
    keys.push(path);
    let merkle_path = apply_prefix(prefix, keys);
    proof {
        let texts = texts(merkle_path.key_path@);
        assert(texts =~= seq![prefix_text(prefix@), path@]);
        assert(texts[0] == merkle_path.key_path@[0]@);
        assert(texts[1] == merkle_path.key_path@[1]@);
        assert(key_bytes(merkle_path.key_path@) =~= proof_keys(prefix@, path@));
    }
    let merkle_proof = match MerkleProof::decode(proof.as_bytes()) {
        Ok(p) => p,
        Err(cause) => {
            return Err(ClientError::InvalidCommitmentProof { cause });
        },
    };
    match merkle_proof.verify_non_membership(
        &client_state.proof_specs,
        root.as_bytes(),
        &merkle_path,
    ) {
        Ok(()) => Ok(()),
        Err(cause) => Err(ClientError::Ics23Verification { cause }),
    }
}

/// Why the delay period of a connection has not passed at the host for a
/// proof at `height`, if it has not, as a function of what the host holds:
/// the host has no time or height, it has not recorded when it processed the
/// consensus state at `height`, or too little time or too few blocks have
/// passed since.
pub open spec fn delay_fault<Ctx: ChannelReader>(
    ctx: &Ctx,
    height: Height,
    connection_end: &ConnectionEnd,
) -> Option<ClientError> {
    let client_id = &connection_end.client_id;
    if ctx.host_timestamp_of() is Err {
        Some(ClientError::MissingHostTimestamp)
    } else if ctx.host_height_of() is Err {
        Some(ClientError::MissingHostHeight)
    } else if ctx.client_update_time_of(client_id, &height) is Err {
        Some(
            ClientError::ClientSpecific {
                cause: Error::ProcessedTimeNotFound { client_id: *client_id, height },
            },
        )
    } else if ctx.client_update_height_of(client_id, &height) is Err {
        Some(
            ClientError::ClientSpecific {
                cause: Error::ProcessedHeightNotFound { client_id: *client_id, height },
            },
        )
    } else {
        match delay_error(
            ctx.host_timestamp_of()->Ok_0,
            ctx.host_height_of()->Ok_0,
            ctx.client_update_time_of(client_id, &height)->Ok_0,
            ctx.client_update_height_of(client_id, &height)->Ok_0,
            connection_end.delay_period,
            ctx.block_delay_of(&connection_end.delay_period),
        ) {
            Some(cause) => Some(ClientError::ClientSpecific { cause }),
            None => None,
        }
    }
}

/// Checks that the delay period of the connection has passed since the host
/// processed the consensus state at `height`.
pub fn verify_delay_passed<Ctx: ChannelReader>(
    ctx: &Ctx,
    height: Height,
    connection_end: &ConnectionEnd,
) -> (r: Result<(), ClientError>)
    ensures
        r == outcome(delay_fault(ctx, height, connection_end)),
{
    let current_timestamp = match ctx.host_timestamp() {
        Ok(t) => t,
        Err(_) => {
            return Err(ClientError::MissingHostTimestamp);
        },
    };
    let current_height = match ctx.host_height() {
        Ok(h) => h,
        Err(_) => {
            return Err(ClientError::MissingHostHeight);
        },
    };
    let client_id = connection_end.client_id();
    let processed_time = match ctx.client_update_time(client_id, &height) {
        Ok(t) => t,
        Err(_) => {
            return Err(
                ClientError::ClientSpecific {
                    cause: Error::ProcessedTimeNotFound { client_id: client_id.clone(), height },
                },
            );
        },
    };
    let processed_height = match ctx.client_update_height(client_id, &height) {
        Ok(h) => h,
        Err(_) => {
            return Err(
                ClientError::ClientSpecific {
                    cause: Error::ProcessedHeightNotFound { client_id: client_id.clone(), height },
                },
            );
        },
    };
    let delay_period_time = connection_end.delay_period();
    let delay_period_height = ctx.block_delay(&delay_period_time);
    match ClientState::verify_delay_passed(
        current_timestamp,
        current_height,
        processed_time,
        processed_height,
        delay_period_time,
        delay_period_height,
    ) {
        Ok(()) => Ok(()),
        Err(cause) => Err(ClientError::ClientSpecific { cause }),
    }
}

/// The sequence number as eight bytes, the most significant first.
pub open spec fn sequence_bytes(sequence: u64) -> Seq<u8> {
    Seq::new(8, |i: int| ((sequence as int / vstd::arithmetic::power2::pow2((8 * (7 - i)) as nat) as int) % 256) as u8)
}

impl ClientState {
    /// The error of a proof at `height` that the client cannot vouch for.
    pub open spec fn height_fault(&self, height: Height) -> Option<ClientError> {
        match self.height_error(height) {
            Some(cause) => Some(ClientError::ClientSpecific { cause }),
            None => None,
        }
    }

    /// Checks the height of a proof.
    fn check_height(&self, height: Height) -> (r: Result<(), ClientError>)
        ensures
            r == outcome(self.height_fault(height)),
    {
        match self.verify_height(height) {
            Ok(()) => Ok(()),
            Err(cause) => Err(ClientError::ClientSpecific { cause }),
        }
    }

    /// Why the proof of a value fails, if it fails: the client cannot vouch
    /// for the height, or the proof does not show the value at the path.
    pub open spec fn value_fault(
        &self,
        height: Height,
        prefix: Seq<u8>,
        proof: Seq<u8>,
        root: Seq<u8>,
        path: Seq<char>,
        value: Seq<u8>,
    ) -> Option<ClientError> {
        if let Some(e) = self.height_fault(height) {
            Some(e)
        } else {
            membership_error(self.proof_specs@, prefix, proof, root, path, value)
        }
    }

    /// Why the proof of a value on a connection with a delay period fails,
    /// if it fails: the client cannot vouch for the height, the delay period
    /// has not passed, or the proof does not show the value at the path.
    pub open spec fn delayed_value_fault<Ctx: ChannelReader>(
        &self,
        ctx: &Ctx,
        height: Height,
        connection_end: &ConnectionEnd,
        proof: Seq<u8>,
        root: Seq<u8>,
        path: Seq<char>,
        value: Seq<u8>,
    ) -> Option<ClientError> {
        if let Some(e) = self.height_fault(height) {
            Some(e)
        } else if let Some(e) = delay_fault(ctx, height, connection_end) {
            Some(e)
        } else {
            membership_error(
                self.proof_specs@,
                connection_end.counterparty.prefix@,
                proof,
                root,
                path,
                value,
            )
        }
    }

    /// Why the proof that a path holds nothing fails on a connection with a
    /// delay period, if it fails: the client cannot vouch for the height, the
    /// delay period has not passed, or the proof does not show that nothing
    /// stands at the path.
    pub open spec fn absence_fault<Ctx: ChannelReader>(
        &self,
        ctx: &Ctx,
        height: Height,
        connection_end: &ConnectionEnd,
        proof: Seq<u8>,
        root: Seq<u8>,
        path: Seq<char>,
    ) -> Option<ClientError> {
        if let Some(e) = self.height_fault(height) {
            Some(e)
        } else if let Some(e) = delay_fault(ctx, height, connection_end) {
            Some(e)
        } else {
            non_membership_error(
                self.proof_specs@,
                connection_end.counterparty.prefix@,
                proof,
                root,
                path,
            )
        }
    }

    /// Checks a proof that the counterparty holds the consensus state
    /// `expected_consensus_state` for the client `client_id` at
    /// `consensus_height`.
    pub fn verify_client_consensus_state(
        &self,
        height: Height,
        prefix: &CommitmentPrefix,
        proof: &CommitmentProofBytes,
        root: &CommitmentRoot,
        client_id: &ClientId,
        consensus_height: Height,
        expected_consensus_state: &AnyConsensusState,
    ) -> (r: Result<(), ClientError>)
        ensures
            r == outcome(
                self.value_fault(
                    height,
                    prefix@,
                    proof@,
                    root@,
                    client_consensus_state_path(
                        client_id@,
                        consensus_height.rev(),
                        consensus_height.num(),
                    ),
                    expected_consensus_state.spec_bytes(),
                ),
            ),
    {
        self.check_height(height)?;
        let path = crate::path::client_consensus_state(
            client_id,
            consensus_height.revision_number(),
            consensus_height.revision_height(),
        );
        let value = expected_consensus_state.encode_vec();
        verify_membership(self, prefix, proof, root, path, value)
    }

    /// Checks a proof that the counterparty holds the connection end
    /// `expected_connection_end` under `connection_id`.
    pub fn verify_connection_state(
        &self,
        height: Height,
        prefix: &CommitmentPrefix,
        proof: &CommitmentProofBytes,
        root: &CommitmentRoot,
        connection_id: &ConnectionId,
        expected_connection_end: &ConnectionEnd,
    ) -> (r: Result<(), ClientError>)
        ensures
            r == outcome(
                self.value_fault(
                    height,
                    prefix@,
                    proof@,
                    root@,
                    connections_path(connection_id@),
                    expected_connection_end.spec_bytes(),
                ),
            ),
    {
        self.check_height(height)?;
        let path = crate::path::connections(connection_id);
        let value = expected_connection_end.encode_vec();
        verify_membership(self, prefix, proof, root, path, value)
    }

    /// Checks a proof that the counterparty holds the channel end
    /// `expected_channel_end` under the port and the channel.
    pub fn verify_channel_state(
        &self,
        height: Height,
        prefix: &CommitmentPrefix,
        proof: &CommitmentProofBytes,
        root: &CommitmentRoot,
        port_id: &PortId,
        channel_id: &ChannelId,
        expected_channel_end: &ChannelEnd,
    ) -> (r: Result<(), ClientError>)
        ensures
            r == outcome(
                self.value_fault(
                    height,
                    prefix@,
                    proof@,
                    root@,
                    channel_ends_path(port_id@, channel_id@),
                    expected_channel_end.spec_bytes(),
                ),
            ),
    {
        self.check_height(height)?;
        let path = crate::path::channel_ends(port_id, channel_id);
        let value = expected_channel_end.encode_vec();
        verify_membership(self, prefix, proof, root, path, value)
    }

    /// Checks a proof that the counterparty holds the client state
    /// `expected_client_state` for the client `client_id`.
    pub fn verify_client_full_state(
        &self,
        height: Height,
        prefix: &CommitmentPrefix,
        proof: &CommitmentProofBytes,
        root: &CommitmentRoot,
        client_id: &ClientId,
        expected_client_state: Any,
    ) -> (r: Result<(), ClientError>)
        ensures
            r == outcome(
                self.value_fault(
                    height,
                    prefix@,
                    proof@,
                    root@,
                    client_state_path(client_id@),
                    expected_client_state.spec_bytes(),
                ),
            ),
    {
        self.check_height(height)?;
        let path = crate::path::client_state(client_id);
        let value = expected_client_state.encode_vec();
        verify_membership(self, prefix, proof, root, path, value)
    }

    /// Checks a proof that the counterparty committed to a packet: that it
    /// holds `commitment` under the path of the packet.
    pub fn verify_packet_data<Ctx: ChannelReader>(
        &self,
        ctx: &Ctx,
        height: Height,
        connection_end: &ConnectionEnd,
        proof: &CommitmentProofBytes,
        root: &CommitmentRoot,
        port_id: &PortId,
        channel_id: &ChannelId,
        sequence: Sequence,
        commitment: PacketCommitment,
    ) -> (r: Result<(), ClientError>)
        ensures
            r == outcome(
                self.delayed_value_fault(
                    ctx,
                    height,
                    connection_end,
                    proof@,
                    root@,
                    commitments_path(port_id@, channel_id@, sequence.0),
                    commitment.bytes@,
                ),
            ),
    {
        self.check_height(height)?;
        verify_delay_passed(ctx, height, connection_end)?;
        let path = crate::path::commitments(port_id, channel_id, sequence);
        verify_membership(
            self,
            connection_end.counterparty().prefix(),
            proof,
            root,
            path,
            commitment.into_vec(),
        )
    }

    /// Checks a proof that the counterparty acknowledged a packet: that it
    /// holds `ack_commitment` under the path of the acknowledgement.
    pub fn verify_packet_acknowledgement<Ctx: ChannelReader>(
        &self,
        ctx: &Ctx,
        height: Height,
        connection_end: &ConnectionEnd,
        proof: &CommitmentProofBytes,
        root: &CommitmentRoot,
        port_id: &PortId,
        channel_id: &ChannelId,
        sequence: Sequence,
        ack_commitment: AcknowledgementCommitment,
    ) -> (r: Result<(), ClientError>)
        ensures
            r == outcome(
                self.delayed_value_fault(
                    ctx,
                    height,
                    connection_end,
                    proof@,
                    root@,
                    acks_path(port_id@, channel_id@, sequence.0),
                    ack_commitment.bytes@,
                ),
            ),
    {
        self.check_height(height)?;
        verify_delay_passed(ctx, height, connection_end)?;
        let path = crate::path::acks(port_id, channel_id, sequence);
        verify_membership(
            self,
            connection_end.counterparty().prefix(),
            proof,
            root,
            path,
            ack_commitment.into_vec(),
        )
    }

    /// Checks a proof that the counterparty expects `sequence` as the next
    /// packet on an ordered channel.
    pub fn verify_next_sequence_recv<Ctx: ChannelReader>(
        &self,
        ctx: &Ctx,
        height: Height,
        connection_end: &ConnectionEnd,
        proof: &CommitmentProofBytes,
        root: &CommitmentRoot,
        port_id: &PortId,
        channel_id: &ChannelId,
        sequence: Sequence,
    ) -> (r: Result<(), ClientError>)
        ensures
            r == outcome(
                self.delayed_value_fault(
                    ctx,
                    height,
                    connection_end,
                    proof@,
                    root@,
                    seq_recvs_path(port_id@, channel_id@),
                    sequence_bytes(sequence.0),
                ),
            ),
    {
        self.check_height(height)?;
        verify_delay_passed(ctx, height, connection_end)?;
        let seq_bytes = big_endian(sequence.value());
        let path = crate::path::seq_recvs(port_id, channel_id);
        verify_membership(
            self,
            connection_end.counterparty().prefix(),
            proof,
            root,
            path,
            seq_bytes,
        )
    }

    /// Checks a proof that the counterparty holds no receipt for a packet.
    pub fn verify_packet_receipt_absence<Ctx: ChannelReader>(
        &self,
        ctx: &Ctx,
        height: Height,
        connection_end: &ConnectionEnd,
        proof: &CommitmentProofBytes,
        root: &CommitmentRoot,
        port_id: &PortId,
        channel_id: &ChannelId,
        sequence: Sequence,
    ) -> (r: Result<(), ClientError>)
        ensures
            r == outcome(
                self.absence_fault(
                    ctx,
                    height,
                    connection_end,
                    proof@,
                    root@,
                    receipts_path(port_id@, channel_id@, sequence.0),
                ),
            ),
    {
        self.check_height(height)?;
        verify_delay_passed(ctx, height, connection_end)?;
        let path = crate::path::receipts(port_id, channel_id, sequence);
        verify_non_membership(self, connection_end.counterparty().prefix(), proof, root, path)
    }
}

/// The number as eight bytes, the most significant first.
pub fn big_endian(n: u64) -> (r: Vec<u8>)
    ensures
        r@ == sequence_bytes(n),
{
    let mut out: Vec<u8> = Vec::new();
    let mut i: usize = 0;
    while i < 8
        invariant
            i <= 8,
            out@.len() == i,
            forall|j: int| 0 <= j < i ==> out@[j] == sequence_bytes(n)[j],
        decreases 8 - i,
    {
        let shift: u32 = (8 * (7 - i)) as u32;
        let byte: u8 = ((n >> shift) & 0xff) as u8;
        proof {
            lemma_shifted_byte(n, shift);
        }
        out.push(byte);
        i += 1;
    }
    assert(out@ =~= sequence_bytes(n));
    out
}

/// A byte of a number taken by shifting and masking is the same byte taken
/// by dividing.
proof fn lemma_shifted_byte(n: u64, shift: u32)
    requires
        shift < 64,
    ensures
        ((n >> shift) & 0xff) as int == (n as int / vstd::arithmetic::power2::pow2(shift as nat) as int) % 256,
{
    let shifted: u64 = n >> shift;
    assert(shifted & 0xff == shifted % 256) by (bit_vector);
    vstd::bits::lemma_u64_shr_is_div(n, shift as u64);
}

impl AnyClientState {
    /// Checks a proof that the counterparty holds a consensus state for a client. A mock client accepts every proof.
    pub fn verify_client_consensus_state(
        &self,
        height: Height,
        prefix: &CommitmentPrefix,
        proof: &CommitmentProofBytes,
        root: &CommitmentRoot,
        client_id: &ClientId,
        consensus_height: Height,
        expected_consensus_state: &AnyConsensusState,
    ) -> (r: Result<(), ClientError>)
        ensures
            r == outcome(
                match self {
                    AnyClientState::Tendermint(cs) => cs.value_fault(
                        height,
                        prefix@,
                        proof@,
                        root@,
                        client_consensus_state_path(
                            client_id@,
                            consensus_height.rev(),
                            consensus_height.num(),
                        ),
                        expected_consensus_state.spec_bytes(),
                    ),
                    AnyClientState::Mock(_) => None,
                },
            ),
    {
        match self {
            AnyClientState::Tendermint(cs) => cs.verify_client_consensus_state(height, prefix, proof, root, client_id, consensus_height, expected_consensus_state),
            AnyClientState::Mock(_) => Ok(()),
        }
    }

    /// Checks a proof that the counterparty holds a connection end. A mock client accepts every proof.
    pub fn verify_connection_state(
        &self,
        height: Height,
        prefix: &CommitmentPrefix,
        proof: &CommitmentProofBytes,
        root: &CommitmentRoot,
        connection_id: &ConnectionId,
        expected_connection_end: &ConnectionEnd,
    ) -> (r: Result<(), ClientError>)
        ensures
            r == outcome(
                match self {
                    AnyClientState::Tendermint(cs) => cs.value_fault(
                        height,
                        prefix@,
                        proof@,
                        root@,
                        connections_path(connection_id@),
                        expected_connection_end.spec_bytes(),
                    ),
                    AnyClientState::Mock(_) => None,
                },
            ),
    {
        match self {
            AnyClientState::Tendermint(cs) => cs.verify_connection_state(height, prefix, proof, root, connection_id, expected_connection_end),
            AnyClientState::Mock(_) => Ok(()),
        }
    }

    /// Checks a proof that the counterparty holds a channel end. A mock client accepts every proof.
    pub fn verify_channel_state(
        &self,
        height: Height,
        prefix: &CommitmentPrefix,
        proof: &CommitmentProofBytes,
        root: &CommitmentRoot,
        port_id: &PortId,
        channel_id: &ChannelId,
        expected_channel_end: &ChannelEnd,
    ) -> (r: Result<(), ClientError>)
        ensures
            r == outcome(
                match self {
                    AnyClientState::Tendermint(cs) => cs.value_fault(
                        height,
                        prefix@,
                        proof@,
                        root@,
                        channel_ends_path(port_id@, channel_id@),
                        expected_channel_end.spec_bytes(),
                    ),
                    AnyClientState::Mock(_) => None,
                },
            ),
    {
        match self {
            AnyClientState::Tendermint(cs) => cs.verify_channel_state(height, prefix, proof, root, port_id, channel_id, expected_channel_end),
            AnyClientState::Mock(_) => Ok(()),
        }
    }

    /// Checks a proof that the counterparty holds a client state. A mock client accepts every proof.
    pub fn verify_client_full_state(
        &self,
        height: Height,
        prefix: &CommitmentPrefix,
        proof: &CommitmentProofBytes,
        root: &CommitmentRoot,
        client_id: &ClientId,
        expected_client_state: Any,
    ) -> (r: Result<(), ClientError>)
        ensures
            r == outcome(
                match self {
                    AnyClientState::Tendermint(cs) => cs.value_fault(
                        height,
                        prefix@,
                        proof@,
                        root@,
                        client_state_path(client_id@),
                        expected_client_state.spec_bytes(),
                    ),
                    AnyClientState::Mock(_) => None,
                },
            ),
    {
        match self {
            AnyClientState::Tendermint(cs) => cs.verify_client_full_state(height, prefix, proof, root, client_id, expected_client_state),
            AnyClientState::Mock(_) => Ok(()),
        }
    }

    /// Checks a proof that the counterparty acknowledged a packet. A mock client accepts every proof.
    pub fn verify_packet_acknowledgement<Ctx: ChannelReader>(
        &self,
        ctx: &Ctx,
        height: Height,
        connection_end: &ConnectionEnd,
        proof: &CommitmentProofBytes,
        root: &CommitmentRoot,
        port_id: &PortId,
        channel_id: &ChannelId,
        sequence: Sequence,
        ack_commitment: AcknowledgementCommitment,
    ) -> (r: Result<(), ClientError>)
        ensures
            r == outcome(
                match self {
                    AnyClientState::Tendermint(cs) => cs.delayed_value_fault(
                        ctx,
                        height,
                        connection_end,
                        proof@,
                        root@,
                        acks_path(port_id@, channel_id@, sequence.0),
                        ack_commitment.bytes@,
                    ),
                    AnyClientState::Mock(_) => None,
                },
            ),
    {
        match self {
            AnyClientState::Tendermint(cs) => cs.verify_packet_acknowledgement(ctx, height, connection_end, proof, root, port_id, channel_id, sequence, ack_commitment),
            AnyClientState::Mock(_) => Ok(()),
        }
    }

    /// Checks a proof that the counterparty expects `sequence` as the next packet on an ordered channel. A mock client accepts every proof.
    pub fn verify_next_sequence_recv<Ctx: ChannelReader>(
        &self,
        ctx: &Ctx,
        height: Height,
        connection_end: &ConnectionEnd,
        proof: &CommitmentProofBytes,
        root: &CommitmentRoot,
        port_id: &PortId,
        channel_id: &ChannelId,
        sequence: Sequence,
    ) -> (r: Result<(), ClientError>)
        ensures
            r == outcome(
                match self {
                    AnyClientState::Tendermint(cs) => cs.delayed_value_fault(
                        ctx,
                        height,
                        connection_end,
                        proof@,
                        root@,
                        seq_recvs_path(port_id@, channel_id@),
                        sequence_bytes(sequence.0),
                    ),
                    AnyClientState::Mock(_) => None,
                },
            ),
    {
        match self {
            AnyClientState::Tendermint(cs) => cs.verify_next_sequence_recv(ctx, height, connection_end, proof, root, port_id, channel_id, sequence),
            AnyClientState::Mock(_) => Ok(()),
        }
    }

    /// Checks a proof that the counterparty holds no receipt for a packet. A mock client accepts every proof.
    pub fn verify_packet_receipt_absence<Ctx: ChannelReader>(
        &self,
        ctx: &Ctx,
        height: Height,
        connection_end: &ConnectionEnd,
        proof: &CommitmentProofBytes,
        root: &CommitmentRoot,
        port_id: &PortId,
        channel_id: &ChannelId,
        sequence: Sequence,
    ) -> (r: Result<(), ClientError>)
        ensures
            r == outcome(
                match self {
                    AnyClientState::Tendermint(cs) => cs.absence_fault(
                        ctx,
                        height,
                        connection_end,
                        proof@,
                        root@,
                        receipts_path(port_id@, channel_id@, sequence.0),
                    ),
                    AnyClientState::Mock(_) => None,
                },
            ),
    {
        match self {
            AnyClientState::Tendermint(cs) => cs.verify_packet_receipt_absence(ctx, height, connection_end, proof, root, port_id, channel_id, sequence),
            AnyClientState::Mock(_) => Ok(()),
        }
    }
}

} // verus!

use ibc_tendermint::channel::{ChannelEnd, Counterparty, Order, State, Version};
use ibc_tendermint::client::{AnyClientState, AnyConsensusState};
use ibc_tendermint::client_state::{AllowUpdate, ClientState};
use ibc_tendermint::commitment::{
    CommitmentError, CommitmentPrefix, CommitmentProofBytes, CommitmentRoot,
};
use ibc_tendermint::connection::{
    ConnectionEnd, Counterparty as ConnectionCounterparty, State as ConnectionState,
    Version as ConnectionVersion,
};
use ibc_tendermint::consensus_state::ConsensusState;
use ibc_tendermint::context::ChannelReader;
use ibc_tendermint::error::{ChannelError, ClientError, Error, PacketError};
use ibc_tendermint::header::Any;
use ibc_tendermint::height::Height;
use ibc_tendermint::identifier::{ChainId, ChannelId, ClientId, ConnectionId, PortId};
use ibc_tendermint::merkle::{apply_prefix, MerklePath, MerkleProof};
use ibc_tendermint::mock::{MockClientState, MockConsensusState, MockHeader};
use ibc_tendermint::packet::{
    AcknowledgementCommitment, MsgRecvPacket, Packet, PacketCommitment, Receipt, Sequence, Signer,
    TimeoutHeight,
};
use ibc_tendermint::proofs::{verify_delay_passed, verify_membership, verify_non_membership};
use ibc_tendermint::recv_packet::{process, PacketResult, RecvPacketResult};
use ibc_tendermint::specs::{ProofSpecs, TreeSpec};
use ibc_tendermint::timestamp::{Duration, Timestamp};
use ibc_tendermint::trust_threshold::TrustThreshold;

const NOW: u64 = 1_700_000_000_000_000_000;

fn leaf(prefix: Vec<u8>) -> ics23::LeafOp {
    ics23::LeafOp { prefix, ..ics23::iavl_spec().leaf_spec.unwrap() }
}

fn existence(key: &[u8], value: &[u8], prefix: Vec<u8>) -> ics23::ExistenceProof {
    ics23::ExistenceProof {
        key: key.to_vec(),
        value: value.to_vec(),
        leaf: Some(leaf(prefix)),
        path: Vec::new(),
    }
}

fn root_of(proof: &ics23::ExistenceProof) -> Vec<u8> {
    ics23::calculate_existence_root::<ics23::HostFunctionsManager>(proof).unwrap()
}

fn step(proof: ics23::commitment_proof::Proof) -> ics23::CommitmentProof {
    ics23::CommitmentProof { proof: Some(proof) }
}

/// The encoded Merkle proof with these steps.
fn proof_bytes(steps: &[ics23::CommitmentProof]) -> Vec<u8> {
    let raw = ibc_proto::ibc::core::commitment::v1::MerkleProof {
        proofs: steps
            .iter()
            .map(|s| prost::Message::decode(prost::Message::encode_to_vec(s).as_slice()).unwrap())
            .collect(),
    };
    prost::Message::encode_to_vec(&raw)
}

/// A store `ibc` that holds `value` under `key` and nothing else, in a chain
/// that holds this store and nothing else: the proof of the value, and the
/// application hash.
fn membership(key: &str, value: &[u8]) -> (CommitmentProofBytes, CommitmentRoot) {
    let in_store = existence(key.as_bytes(), value, vec![0, 2, 2]);
    let store_root = root_of(&in_store);
    let in_chain = existence(b"ibc", &store_root, vec![0]);
    let app_hash = root_of(&in_chain);
    let bytes = proof_bytes(&[
        step(ics23::commitment_proof::Proof::Exist(in_store)),
        step(ics23::commitment_proof::Proof::Exist(in_chain)),
    ]);
    (CommitmentProofBytes::try_from(bytes).unwrap(), CommitmentRoot::from(app_hash))
}

/// A store `ibc` that holds one value under `neighbour`, which is below
/// `key`: the proof that it holds nothing under `key`, and the application
/// hash.
fn absence(key: &str, neighbour: &str) -> (CommitmentProofBytes, CommitmentRoot) {
    let left = existence(neighbour.as_bytes(), b"value", vec![0, 2, 2]);
    let store_root = root_of(&left);
    let missing = ics23::NonExistenceProof { key: key.as_bytes().to_vec(), left: Some(left), right: None };
    let in_chain = existence(b"ibc", &store_root, vec![0]);
    let app_hash = root_of(&in_chain);
    let bytes = proof_bytes(&[
        step(ics23::commitment_proof::Proof::Nonexist(missing)),
        step(ics23::commitment_proof::Proof::Exist(in_chain)),
    ]);
    (CommitmentProofBytes::try_from(bytes).unwrap(), CommitmentRoot::from(app_hash))
}

fn prefix() -> CommitmentPrefix {
    CommitmentPrefix::try_from(b"ibc".to_vec()).unwrap()
}

fn client() -> ClientState {
    ClientState::new(
        ChainId::from_string("chain-1"),
        TrustThreshold::one_third(),
        Duration::new(64000, 0),
        Duration::new(128000, 0),
        Duration::new(3, 0),
        Height::new(1, 10).unwrap(),
        ProofSpecs::default(),
        Vec::new(),
        AllowUpdate { after_expiry: false, after_misbehaviour: false },
        None,
    )
    .unwrap()
}

fn ics23_failure() -> Result<(), ClientError> {
    Err(ClientError::Ics23Verification { cause: CommitmentError::VerificationFailure })
}

#[test]
fn membership_proof_through_two_stores() {
    let (proof, root) = membership("some/key", b"some value");
    let cs = client();
    assert_eq!(
        verify_membership(&cs, &prefix(), &proof, &root, "some/key".to_string(), b"some value".to_vec()),
        Ok(())
    );
    assert_eq!(
        verify_membership(&cs, &prefix(), &proof, &root, "some/key".to_string(), b"another value".to_vec()),
        ics23_failure()
    );
    assert_eq!(
        verify_membership(&cs, &prefix(), &proof, &root, "some/other".to_string(), b"some value".to_vec()),
        ics23_failure()
    );
    assert_eq!(
        verify_membership(
            &cs,
            &CommitmentPrefix::try_from(b"bank".to_vec()).unwrap(),
            &proof,
            &root,
            "some/key".to_string(),
            b"some value".to_vec()
        ),
        ics23_failure()
    );
    assert_eq!(
        verify_membership(
            &cs,
            &prefix(),
            &proof,
            &CommitmentRoot::from_bytes(&[7; 32]),
            "some/key".to_string(),
            b"some value".to_vec()
        ),
        ics23_failure()
    );
}

#[test]
fn membership_proof_is_held_to_its_shape() {
    let (proof, root) = membership("some/key", b"some value");
    let cs = client();
    let fails = |cause| Err(ClientError::Ics23Verification { cause });
    let key = || "some/key".to_string();

    assert_eq!(
        verify_membership(&cs, &prefix(), &proof, &root, key(), Vec::new()),
        fails(CommitmentError::EmptyVerifiedValue)
    );
    assert_eq!(
        verify_membership(&cs, &prefix(), &proof, &CommitmentRoot::from_bytes(&[]), key(), vec![1]),
        fails(CommitmentError::EmptyMerkleRoot)
    );
    let garbage = CommitmentProofBytes::try_from(vec![0xff, 0xff]).unwrap();
    assert_eq!(
        verify_membership(&cs, &prefix(), &garbage, &root, key(), vec![1]),
        Err(ClientError::InvalidCommitmentProof { cause: CommitmentError::InvalidRawMerkleProof })
    );

    let one_step = CommitmentProofBytes::try_from(proof_bytes(&[step(
        ics23::commitment_proof::Proof::Exist(existence(b"some/key", b"some value", vec![0, 2, 2])),
    )]))
    .unwrap();
    assert_eq!(
        verify_membership(&cs, &prefix(), &one_step, &root, key(), vec![1]),
        fails(CommitmentError::NumberOfSpecsMismatch)
    );

    let mut one_spec = client();
    one_spec.proof_specs = ProofSpecs::from_vec(vec![ProofSpecs::cosmos().get(0).clone()]);
    assert_eq!(
        verify_membership(&one_spec, &prefix(), &one_step, &root, key(), vec![1]),
        fails(CommitmentError::NumberOfKeysMismatch)
    );

    let mut divided = client();
    let mut spec = ics23::iavl_spec();
    spec.inner_spec.as_mut().unwrap().child_size = 0;
    divided.proof_specs =
        ProofSpecs::from_vec(vec![TreeSpec::from_ics23(spec), ProofSpecs::cosmos().get(1).clone()]);
    assert_eq!(
        verify_membership(&divided, &prefix(), &proof, &root, key(), vec![1]),
        fails(CommitmentError::InvalidProofSpec)
    );

    // an empty proof message decodes to a proof without steps
    let decoded = MerkleProof::decode(&[]).unwrap();
    assert!(decoded.proofs.is_empty());
    assert_eq!(decoded.into_proof_bytes(), Err(CommitmentError::EmptyMerkleProof));
    let keys = apply_prefix(&prefix(), vec![key()]);
    assert_eq!(
        decoded.verify_membership(&cs.proof_specs, root.as_bytes(), &keys, vec![1], 0),
        Err(CommitmentError::EmptyMerkleProof)
    );

    // a step without a proof in it, and a step of the wrong kind
    let hollow = MerkleProof::decode(&proof_bytes(&[
        ics23::CommitmentProof { proof: None },
        ics23::CommitmentProof { proof: None },
    ]))
    .unwrap();
    assert_eq!(
        hollow.verify_membership(&cs.proof_specs, root.as_bytes(), &keys, vec![1], 0),
        Err(CommitmentError::InvalidMerkleProof)
    );
    let (missing, _) = absence("some/key", "a");
    assert_eq!(
        verify_membership(&cs, &prefix(), &missing, &root, key(), vec![1]),
        fails(CommitmentError::InvalidMerkleProof)
    );
}

#[test]
fn merkle_proof_bytes_round_trip() {
    let (proof, root) = membership("some/key", b"some value");
    let decoded = MerkleProof::decode(proof.as_bytes()).unwrap();
    assert_eq!(decoded.proofs.len(), 2);
    assert_eq!(decoded.encode_vec(), proof.as_bytes().to_vec());
    assert_eq!(decoded.into_proof_bytes(), Ok(proof.clone()));
    let keys = MerklePath { key_path: vec!["ibc".to_string(), "some/key".to_string()] };
    assert_eq!(apply_prefix(&prefix(), vec!["some/key".to_string()]), keys);
    assert_eq!(
        decoded.verify_membership(&ProofSpecs::cosmos(), root.as_bytes(), &keys, b"some value".to_vec(), 0),
        Ok(())
    );
    // from the second step on, the value is the root of the store
    let store_root = root_of(&existence(b"some/key", b"some value", vec![0, 2, 2]));
    assert_eq!(
        decoded.verify_membership(&ProofSpecs::cosmos(), root.as_bytes(), &keys, store_root.clone(), 1),
        Ok(())
    );
    // with no step left, the value must be the root itself
    assert_eq!(
        decoded.verify_membership(&ProofSpecs::cosmos(), root.as_bytes(), &keys, root.as_bytes().to_vec(), 2),
        Ok(())
    );
    assert_eq!(
        decoded.verify_membership(&ProofSpecs::cosmos(), root.as_bytes(), &keys, store_root, 2),
        Err(CommitmentError::VerificationFailure)
    );
    let specs = ProofSpecs::cosmos();
    let spec: &TreeSpec = specs.get(1);
    assert_eq!(spec.as_ics23(), &ics23::tendermint_spec());
    assert_eq!(ProofSpecs::cosmos().get(0).as_ics23(), &ics23::iavl_spec());
    assert_eq!(TreeSpec::from_ics23(ics23::iavl_spec()), ProofSpecs::default().get(0).clone());
}

/// As `absence`, with the one value of the store above `key`.
fn absence_below(key: &str, neighbour: &str) -> (CommitmentProofBytes, CommitmentRoot) {
    let right = existence(neighbour.as_bytes(), b"value", vec![0, 2, 2]);
    let store_root = root_of(&right);
    let missing = ics23::NonExistenceProof { key: key.as_bytes().to_vec(), left: None, right: Some(right) };
    let in_chain = existence(b"ibc", &store_root, vec![0]);
    let app_hash = root_of(&in_chain);
    let bytes = proof_bytes(&[
        step(ics23::commitment_proof::Proof::Nonexist(missing)),
        step(ics23::commitment_proof::Proof::Exist(in_chain)),
    ]);
    (CommitmentProofBytes::try_from(bytes).unwrap(), CommitmentRoot::from(app_hash))
}

#[test]
fn non_membership_proof_with_a_neighbour_above() {
    let (proof, root) = absence_below("receipts/a", "receipts/b");
    let cs = client();
    assert_eq!(verify_non_membership(&cs, &prefix(), &proof, &root, "receipts/a".to_string()), Ok(()));
    assert_eq!(
        verify_non_membership(&cs, &prefix(), &proof, &root, "receipts/c".to_string()),
        ics23_failure()
    );
    // a proof of absence without a neighbour proves nothing
    let missing = ics23::NonExistenceProof { key: b"receipts/a".to_vec(), left: None, right: None };
    let in_chain = existence(b"ibc", &[1; 32], vec![0]);
    let bytes = proof_bytes(&[
        step(ics23::commitment_proof::Proof::Nonexist(missing)),
        step(ics23::commitment_proof::Proof::Exist(in_chain)),
    ]);
    assert_eq!(
        verify_non_membership(
            &cs,
            &prefix(),
            &CommitmentProofBytes::try_from(bytes).unwrap(),
            &root,
            "receipts/a".to_string()
        ),
        Err(ClientError::Ics23Verification { cause: CommitmentError::InvalidMerkleProof })
    );
}

fn inner(prefix: Vec<u8>, suffix: Vec<u8>) -> ics23::InnerOp {
    ics23::InnerOp { hash: ics23::iavl_spec().inner_spec.unwrap().hash, prefix, suffix }
}

/// The proof that a store holds nothing under `key`, with these two
/// neighbours, in a chain that holds the store with the root of the left one.
fn absence_between(
    key: &str,
    left: ics23::ExistenceProof,
    right: ics23::ExistenceProof,
) -> (CommitmentProofBytes, CommitmentRoot) {
    let store_root = root_of(&left);
    let missing =
        ics23::NonExistenceProof { key: key.as_bytes().to_vec(), left: Some(left), right: Some(right) };
    let in_chain = existence(b"ibc", &store_root, vec![0]);
    let app_hash = root_of(&in_chain);
    let bytes = proof_bytes(&[
        step(ics23::commitment_proof::Proof::Nonexist(missing)),
        step(ics23::commitment_proof::Proof::Exist(in_chain)),
    ]);
    (CommitmentProofBytes::try_from(bytes).unwrap(), CommitmentRoot::from(app_hash))
}

#[test]
fn non_membership_proof_between_two_neighbours() {
    let cs = client();
    let mut left = existence(b"receipts/a", b"value", vec![0, 2, 2]);
    let mut right = existence(b"receipts/c", b"value", vec![0, 2, 2]);
    let left_leaf = root_of(&left);
    let right_leaf = root_of(&right);
    // a node of two children: the left one, and the right one
    let head = vec![2, 4, 2, 32];
    left.path = vec![inner(head.clone(), [vec![32], right_leaf.clone()].concat())];
    right.path = vec![inner([head.clone(), left_leaf.clone(), vec![32]].concat(), Vec::new())];
    assert_eq!(root_of(&left), root_of(&right));
    let (proof, root) = absence_between("receipts/b", left.clone(), right.clone());
    assert_eq!(verify_non_membership(&cs, &prefix(), &proof, &root, "receipts/b".to_string()), Ok(()));
    assert_eq!(
        verify_non_membership(&cs, &prefix(), &proof, &root, "receipts/d".to_string()),
        ics23_failure()
    );
    // the neighbours the wrong way round
    let (proof, root) = absence_between("receipts/b", right.clone(), left.clone());
    assert_eq!(
        verify_non_membership(&cs, &prefix(), &proof, &root, "receipts/b".to_string()),
        ics23_failure()
    );
}

#[test]
fn neighbours_whose_paths_do_not_part_prove_nothing() {
    let cs = client();
    // two neighbours without a path
    let left = existence(b"receipts/a", b"value", vec![0, 2, 2]);
    let right = existence(b"receipts/c", b"value", vec![0, 2, 2]);
    let (proof, root) = absence_between("receipts/b", left.clone(), right.clone());
    assert_eq!(
        verify_non_membership(&cs, &prefix(), &proof, &root, "receipts/b".to_string()),
        ics23_failure()
    );
    // two neighbours with the same path
    let step_up = inner(vec![2, 4, 2, 32], [vec![32], vec![9; 32]].concat());
    let mut left_up = left.clone();
    left_up.path = vec![step_up.clone(), step_up.clone()];
    let mut right_up = right.clone();
    right_up.path = vec![step_up.clone()];
    let (proof, root) = absence_between("receipts/b", left_up.clone(), right_up.clone());
    assert_eq!(
        verify_non_membership(&cs, &prefix(), &proof, &root, "receipts/b".to_string()),
        ics23_failure()
    );
    // one neighbour with a path, one without
    let (proof, root) = absence_between("receipts/b", left_up, right);
    assert_eq!(
        verify_non_membership(&cs, &prefix(), &proof, &root, "receipts/b".to_string()),
        ics23_failure()
    );
    let (proof, root) = absence_between("receipts/b", left, right_up);
    assert_eq!(
        verify_non_membership(&cs, &prefix(), &proof, &root, "receipts/b".to_string()),
        ics23_failure()
    );
}

#[test]
fn non_membership_proof_through_two_stores() {
    let (proof, root) = absence("receipts/b", "receipts/a");
    let cs = client();
    assert_eq!(verify_non_membership(&cs, &prefix(), &proof, &root, "receipts/b".to_string()), Ok(()));
    // the neighbour itself is there
    assert_eq!(
        verify_non_membership(&cs, &prefix(), &proof, &root, "receipts/a".to_string()),
        ics23_failure()
    );
    assert_eq!(
        verify_non_membership(
            &cs,
            &prefix(),
            &proof,
            &CommitmentRoot::from_bytes(&[7; 32]),
            "receipts/b".to_string()
        ),
        ics23_failure()
    );
    let (present, present_root) = membership("receipts/b", b"value");
    assert_eq!(
        verify_non_membership(&cs, &prefix(), &present, &present_root, "receipts/b".to_string()),
        Err(ClientError::Ics23Verification { cause: CommitmentError::InvalidMerkleProof })
    );
}

/// A host chain in memory, for the delay period and the packet handler.
#[derive(Clone)]
struct Host {
    no_height: bool,
    height: Height,
    timestamp: Timestamp,
    processed: Option<(Timestamp, Height)>,
    blocks_per_second: u64,
    client: AnyClientState,
    consensus_state: AnyConsensusState,
    connection: ConnectionEnd,
    channel: ChannelEnd,
}

impl ChannelReader for Host {
    fn channel_end_of(&self, p: &PortId, c: &ChannelId) -> Result<ChannelEnd, ChannelError> {
        self.channel_end(p, c)
    }

    fn connection_end_of(&self, c: &ConnectionId) -> Result<ConnectionEnd, ChannelError> {
        self.connection_end(c)
    }

    fn client_state_of(&self, c: &ClientId) -> Result<AnyClientState, ChannelError> {
        self.client_state(c)
    }

    fn client_consensus_state_of(&self, c: &ClientId, h: &Height) -> Result<AnyConsensusState, ChannelError> {
        self.client_consensus_state(c, h)
    }

    fn next_sequence_recv_of(&self, p: &PortId, c: &ChannelId) -> Result<Sequence, PacketError> {
        self.get_next_sequence_recv(p, c)
    }

    fn packet_receipt_of(&self, p: &PortId, c: &ChannelId, s: &Sequence) -> Result<Receipt, PacketError> {
        self.get_packet_receipt(p, c, s)
    }

    fn packet_commitment_of(&self, d: &Vec<u8>, h: &TimeoutHeight, t: &Timestamp) -> PacketCommitment {
        self.packet_commitment(d, h, t)
    }

    fn host_height_of(&self) -> Result<Height, ChannelError> {
        self.host_height()
    }

    fn host_timestamp_of(&self) -> Result<Timestamp, ChannelError> {
        self.host_timestamp()
    }

    fn client_update_time_of(&self, c: &ClientId, h: &Height) -> Result<Timestamp, ChannelError> {
        self.client_update_time(c, h)
    }

    fn client_update_height_of(&self, c: &ClientId, h: &Height) -> Result<Height, ChannelError> {
        self.client_update_height(c, h)
    }

    fn block_delay_of(&self, d: &Duration) -> u64 {
        self.block_delay(d)
    }

    fn channel_end(&self, _: &PortId, _: &ChannelId) -> Result<ChannelEnd, ChannelError> {
        Ok(self.channel.clone())
    }

    fn connection_end(&self, _: &ConnectionId) -> Result<ConnectionEnd, ChannelError> {
        Ok(self.connection.clone())
    }

    fn client_state(&self, _: &ClientId) -> Result<AnyClientState, ChannelError> {
        Ok(self.client.clone())
    }

    fn client_consensus_state(&self, _: &ClientId, _: &Height) -> Result<AnyConsensusState, ChannelError> {
        Ok(self.consensus_state.clone())
    }

    fn get_next_sequence_recv(&self, _: &PortId, _: &ChannelId) -> Result<Sequence, PacketError> {
        Ok(Sequence::new(1))
    }

    fn get_packet_receipt(&self, _: &PortId, _: &ChannelId, s: &Sequence) -> Result<Receipt, PacketError> {
        Err(PacketError::PacketReceiptNotFound { sequence: *s })
    }

    fn packet_commitment(&self, data: &Vec<u8>, _: &TimeoutHeight, _: &Timestamp) -> PacketCommitment {
        let mut bytes = b"commitment to ".to_vec();
        bytes.extend_from_slice(data);
        PacketCommitment { bytes }
    }

    fn host_height(&self) -> Result<Height, ChannelError> {
        if self.no_height {
            return Err(ChannelError::Other { description: "no height".to_string() });
        }
        Ok(self.height)
    }

    fn host_timestamp(&self) -> Result<Timestamp, ChannelError> {
        if self.timestamp.nanoseconds() == 0 {
            return Err(ChannelError::Other { description: "no time".to_string() });
        }
        Ok(self.timestamp)
    }

    fn client_update_time(&self, client_id: &ClientId, height: &Height) -> Result<Timestamp, ChannelError> {
        self.processed.map(|p| p.0).ok_or(ChannelError::ProcessedTimeNotFound {
            client_id: client_id.clone(),
            height: *height,
        })
    }

    fn client_update_height(&self, client_id: &ClientId, height: &Height) -> Result<Height, ChannelError> {
        self.processed.map(|p| p.1).ok_or(ChannelError::ProcessedHeightNotFound {
            client_id: client_id.clone(),
            height: *height,
        })
    }

    fn block_delay(&self, delay_period_time: &Duration) -> u64 {
        delay_period_time.as_secs() * self.blocks_per_second
    }
}

fn connection(delay: Duration) -> ConnectionEnd {
    ConnectionEnd::new(
        ConnectionState::Open,
        ClientId::default(),
        ConnectionCounterparty::new(ClientId::default(), Some(ConnectionId::default()), prefix()),
        vec![ConnectionVersion { identifier: "1".to_string(), features: vec!["ORDER_ORDERED".to_string()] }],
        delay,
    )
}

fn channel() -> ChannelEnd {
    ChannelEnd::new(
        State::Open,
        Order::Unordered,
        Counterparty::new(PortId::default(), Some(ChannelId::default())),
        vec![ConnectionId::default()],
        Version::new("ics20-1".to_string()),
    )
}

fn host(root: &CommitmentRoot) -> Host {
    Host {
        no_height: false,
        height: Height::new(0, 20).unwrap(),
        timestamp: Timestamp::from_nanoseconds(NOW).unwrap(),
        processed: Some((Timestamp::from_nanoseconds(NOW - 10_000_000_000).unwrap(), Height::new(0, 10).unwrap())),
        blocks_per_second: 1,
        client: AnyClientState::Tendermint(client()),
        consensus_state: AnyConsensusState::Tendermint(ConsensusState::new(
            root.clone(),
            Timestamp::from_nanoseconds(NOW - 20_000_000_000).unwrap(),
            vec![1; 32],
        )),
        connection: connection(Duration::zero()),
        channel: channel(),
    }
}

#[test]
fn delay_period_of_a_connection() {
    let h = host(&CommitmentRoot::from_bytes(&[1]));
    let at = Height::new(1, 5).unwrap();
    let specific = |cause| Err(ClientError::ClientSpecific { cause });
    assert_eq!(verify_delay_passed(&h, at, &connection(Duration::zero())), Ok(()));
    assert_eq!(verify_delay_passed(&h, at, &connection(Duration::from_secs(10))), Ok(()));
    assert_eq!(
        verify_delay_passed(&h, at, &connection(Duration::from_secs(11))),
        specific(Error::NotEnoughTimeElapsed {
            current_time: Timestamp::from_nanoseconds(NOW).unwrap(),
            earliest_time: Timestamp::from_nanoseconds(NOW + 1_000_000_000).unwrap(),
        })
    );
    let mut fast = h.clone();
    fast.blocks_per_second = 2;
    assert_eq!(
        verify_delay_passed(&fast, at, &connection(Duration::from_secs(6))),
        specific(Error::NotEnoughBlocksElapsed {
            current_height: Height::new(0, 20).unwrap(),
            earliest_height: Height::new(0, 22).unwrap(),
        })
    );
    let mut unknown = h.clone();
    unknown.processed = None;
    assert_eq!(
        verify_delay_passed(&unknown, at, &connection(Duration::zero())),
        specific(Error::ProcessedTimeNotFound { client_id: ClientId::default(), height: at })
    );
    let mut timeless = h.clone();
    timeless.timestamp = Timestamp::none();
    assert_eq!(
        verify_delay_passed(&timeless, at, &connection(Duration::zero())),
        Err(ClientError::MissingHostTimestamp)
    );
    let mut lost = h.clone();
    lost.no_height = true;
    assert_eq!(
        verify_delay_passed(&lost, at, &connection(Duration::zero())),
        Err(ClientError::MissingHostHeight)
    );
    let mut half = h.clone();
    half.processed = Some((Timestamp::from_nanoseconds(NOW).unwrap(), Height::new(0, u64::MAX).unwrap()));
    assert_eq!(
        verify_delay_passed(&half, at, &connection(Duration::from_secs(0))),
        specific(Error::NotEnoughBlocksElapsed {
            current_height: Height::new(0, 20).unwrap(),
            earliest_height: Height::new(0, u64::MAX).unwrap(),
        })
    );
}

#[test]
fn packet_proofs() {
    let port = PortId::default();
    let chan = ChannelId::default();
    let seq = Sequence::new(3);
    let at = Height::new(1, 5).unwrap();
    let conn = connection(Duration::from_secs(5));
    let cs = client();

    let (proof, root) =
        membership("commitments/ports/defaultPort/channels/channel-0/sequences/3", b"commitment");
    let h = host(&root);
    let commitment = || PacketCommitment { bytes: b"commitment".to_vec() };
    assert_eq!(cs.verify_packet_data(&h, at, &conn, &proof, &root, &port, &chan, seq, commitment()), Ok(()));
    assert_eq!(
        cs.verify_packet_data(&h, at, &conn, &proof, &root, &port, &chan, Sequence::new(4), commitment()),
        ics23_failure()
    );
    assert_eq!(
        cs.verify_packet_data(&h, Height::new(1, 11).unwrap(), &conn, &proof, &root, &port, &chan, seq, commitment()),
        Err(ClientError::ClientSpecific {
            cause: Error::InsufficientHeight {
                latest_height: Height::new(1, 10).unwrap(),
                target_height: Height::new(1, 11).unwrap(),
            }
        })
    );
    let slow = connection(Duration::from_secs(50));
    assert!(matches!(
        cs.verify_packet_data(&h, at, &slow, &proof, &root, &port, &chan, seq, commitment()),
        Err(ClientError::ClientSpecific { cause: Error::NotEnoughTimeElapsed { .. } })
    ));
    let frozen = client().with_frozen_height(Height::new(1, 5).unwrap());
    assert!(matches!(
        frozen.verify_packet_data(&h, at, &conn, &proof, &root, &port, &chan, seq, commitment()),
        Err(ClientError::ClientSpecific { cause: Error::ClientFrozen { .. } })
    ));
    assert_eq!(
        AnyClientState::Tendermint(client())
            .verify_packet_data(&h, at, &conn, &proof, &root, &port, &chan, seq, commitment()),
        Ok(())
    );
    let mock = AnyClientState::Mock(MockClientState::new(MockHeader::new(at)));
    assert_eq!(
        mock.verify_packet_data(&h, at, &conn, &proof, &CommitmentRoot::from_bytes(&[]), &port, &chan, seq, commitment()),
        Ok(())
    );

    let (proof, root) = membership("acks/ports/defaultPort/channels/channel-0/sequences/3", b"ack");
    let ack = AcknowledgementCommitment { bytes: b"ack".to_vec() };
    assert_eq!(cs.verify_packet_acknowledgement(&h, at, &conn, &proof, &root, &port, &chan, seq, ack), Ok(()));

    let (proof, root) = membership(
        "nextSequenceRecv/ports/defaultPort/channels/channel-0",
        &[0, 0, 0, 0, 0, 0, 0, 3],
    );
    assert_eq!(cs.verify_next_sequence_recv(&h, at, &conn, &proof, &root, &port, &chan, seq), Ok(()));
    assert_eq!(
        cs.verify_next_sequence_recv(&h, at, &conn, &proof, &root, &port, &chan, Sequence::new(4)),
        ics23_failure()
    );

    let (proof, root) = absence(
        "receipts/ports/defaultPort/channels/channel-0/sequences/3",
        "receipts/ports/defaultPort/channels/channel-0/sequences/2",
    );
    assert_eq!(cs.verify_packet_receipt_absence(&h, at, &conn, &proof, &root, &port, &chan, seq), Ok(()));
    assert_eq!(
        cs.verify_packet_receipt_absence(&h, at, &conn, &proof, &root, &port, &chan, Sequence::new(2)),
        ics23_failure()
    );
}

#[test]
fn state_proofs() {
    let at = Height::new(1, 5).unwrap();
    let cs = client();
    let client_id = ClientId::default();

    let expected = AnyConsensusState::Tendermint(ConsensusState::new(
        CommitmentRoot::from_bytes(&[9; 32]),
        Timestamp::from_nanoseconds(NOW + 5).unwrap(),
        vec![3; 32],
    ));
    let raw = ibc_proto::ibc::lightclients::tendermint::v1::ConsensusState {
        timestamp: Some(ibc_proto::google::protobuf::Timestamp { seconds: 1_700_000_000, nanos: 5 }),
        root: Some(ibc_proto::ibc::core::commitment::v1::MerkleRoot { hash: vec![9; 32] }),
        next_validators_hash: vec![3; 32],
    };
    let wrapped = ibc_proto::google::protobuf::Any {
        type_url: "/ibc.lightclients.tendermint.v1.ConsensusState".to_string(),
        value: prost::Message::encode_to_vec(&raw),
    };
    let value = prost::Message::encode_to_vec(&wrapped);
    assert_eq!(expected.encode_vec(), value);
    let (proof, root) = membership("clients/07-tendermint-0/consensusStates/1-7", &value);
    assert_eq!(
        cs.verify_client_consensus_state(at, &prefix(), &proof, &root, &client_id, Height::new(1, 7).unwrap(), &expected),
        Ok(())
    );
    assert_eq!(
        cs.verify_client_consensus_state(at, &prefix(), &proof, &root, &client_id, Height::new(1, 8).unwrap(), &expected),
        ics23_failure()
    );

    let mock = AnyConsensusState::Mock(MockConsensusState::new(
        MockHeader::new(Height::new(2, 3).unwrap()).with_timestamp(Timestamp::from_nanoseconds(44).unwrap()),
    ));
    let raw = ibc_proto::ibc::mock::ConsensusState {
        header: Some(ibc_proto::ibc::mock::Header {
            height: Some(ibc_proto::ibc::core::client::v1::Height { revision_number: 2, revision_height: 3 }),
            timestamp: 44,
        }),
    };
    let wrapped = ibc_proto::google::protobuf::Any {
        type_url: "/ibc.mock.ConsensusState".to_string(),
        value: prost::Message::encode_to_vec(&raw),
    };
    assert_eq!(mock.encode_vec(), prost::Message::encode_to_vec(&wrapped));

    let end = connection(Duration::new(3, 7));
    let raw = ibc_proto::ibc::core::connection::v1::ConnectionEnd {
        client_id: "07-tendermint-0".to_string(),
        versions: vec![ibc_proto::ibc::core::connection::v1::Version {
            identifier: "1".to_string(),
            features: vec!["ORDER_ORDERED".to_string()],
        }],
        state: 3,
        counterparty: Some(ibc_proto::ibc::core::connection::v1::Counterparty {
            client_id: "07-tendermint-0".to_string(),
            connection_id: "connection-0".to_string(),
            prefix: Some(ibc_proto::ibc::core::commitment::v1::MerklePrefix { key_prefix: b"ibc".to_vec() }),
        }),
        delay_period: 3_000_000_007,
    };
    let value = prost::Message::encode_to_vec(&raw);
    assert_eq!(end.encode_vec(), value);
    let (proof, root) = membership("connections/connection-0", &value);
    assert_eq!(
        cs.verify_connection_state(at, &prefix(), &proof, &root, &ConnectionId::default(), &end),
        Ok(())
    );
    assert_eq!(
        cs.verify_connection_state(at, &prefix(), &proof, &root, &ConnectionId::default(), &connection(Duration::zero())),
        ics23_failure()
    );

    let end = channel();
    let raw = ibc_proto::ibc::core::channel::v1::Channel {
        state: 3,
        ordering: 1,
        counterparty: Some(ibc_proto::ibc::core::channel::v1::Counterparty {
            port_id: "defaultPort".to_string(),
            channel_id: "channel-0".to_string(),
        }),
        connection_hops: vec!["connection-0".to_string()],
        version: "ics20-1".to_string(),
    };
    let value = prost::Message::encode_to_vec(&raw);
    assert_eq!(end.encode_vec(), value);
    let (proof, root) = membership("channelEnds/ports/defaultPort/channels/channel-0", &value);
    assert_eq!(
        cs.verify_channel_state(at, &prefix(), &proof, &root, &PortId::default(), &ChannelId::default(), &end),
        Ok(())
    );
    let mut closed = channel();
    closed.state = State::Closed;
    closed.ordering = Order::Ordered;
    closed.remote.channel_id = None;
    let raw = ibc_proto::ibc::core::channel::v1::Channel {
        state: 4,
        ordering: 2,
        counterparty: Some(ibc_proto::ibc::core::channel::v1::Counterparty {
            port_id: "defaultPort".to_string(),
            channel_id: String::new(),
        }),
        connection_hops: vec!["connection-0".to_string()],
        version: "ics20-1".to_string(),
    };
    assert_eq!(closed.encode_vec(), prost::Message::encode_to_vec(&raw));

    let state = Any { type_url: "/ibc.mock.ClientState".to_string(), value: vec![1, 2, 3] };
    let wrapped = ibc_proto::google::protobuf::Any {
        type_url: "/ibc.mock.ClientState".to_string(),
        value: vec![1, 2, 3],
    };
    let value = prost::Message::encode_to_vec(&wrapped);
    assert_eq!(state.encode_vec(), value);
    let (proof, root) = membership("clients/07-tendermint-0/clientState", &value);
    assert_eq!(
        cs.verify_client_full_state(at, &prefix(), &proof, &root, &client_id, state.clone()),
        Ok(())
    );
    assert_eq!(
        cs.verify_client_full_state(Height::new(1, 50).unwrap(), &prefix(), &proof, &root, &client_id, state),
        Err(ClientError::ClientSpecific {
            cause: Error::InsufficientHeight {
                latest_height: Height::new(1, 10).unwrap(),
                target_height: Height::new(1, 50).unwrap(),
            }
        })
    );
}

#[test]
fn recv_packet_with_a_tendermint_client() {
    let packet = Packet {
        sequence: Sequence::new(1),
        port_on_a: PortId::default(),
        chan_on_a: ChannelId::default(),
        port_on_b: PortId::default(),
        chan_on_b: ChannelId::default(),
        data: b"hello".to_vec(),
        timeout_height_on_b: TimeoutHeight::Never,
        timeout_timestamp_on_b: Timestamp::none(),
    };
    let (proof, root) = membership(
        "commitments/ports/defaultPort/channels/channel-0/sequences/1",
        b"commitment to hello",
    );
    let msg = MsgRecvPacket {
        packet,
        proof_commitment_on_a: proof,
        proof_height_on_a: Height::new(1, 5).unwrap(),
        signer: Signer { account: "relayer".to_string() },
    };
    let h = host(&root);
    let out = process(&h, &msg).unwrap();
    assert_eq!(
        out.result,
        PacketResult::Recv(RecvPacketResult::Unordered {
            port_id: PortId::default(),
            channel_id: ChannelId::default(),
            sequence: Sequence::new(1),
            receipt: Receipt::Received,
        })
    );
    assert_eq!(out.events.len(), 1);

    let mut forged = msg.clone();
    forged.packet.data = b"hullo".to_vec();
    assert_eq!(
        process(&h, &forged),
        Err(PacketError::Channel {
            cause: ChannelError::PacketVerificationFailed {
                sequence: Sequence::new(1),
                client_error: ClientError::Ics23Verification {
                    cause: CommitmentError::VerificationFailure
                },
            }
        })
    );
}

#[test]
fn proofs_by_kind_of_client() {
    let at = Height::new(1, 5).unwrap();
    let port = PortId::default();
    let chan = ChannelId::default();
    let seq = Sequence::new(3);
    let conn = connection(Duration::zero());
    let end = connection(Duration::new(3, 7));
    let value = end.encode_vec();
    let (proof, root) = membership("connections/connection-0", &value);
    let h = host(&root);
    let real = AnyClientState::Tendermint(client());
    let mock = AnyClientState::Mock(MockClientState::new(MockHeader::new(at)));
    let nothing = CommitmentRoot::from_bytes(&[]);

    assert_eq!(real.verify_connection_state(at, &prefix(), &proof, &root, &ConnectionId::default(), &end), Ok(()));
    assert_eq!(
        real.verify_connection_state(at, &prefix(), &proof, &nothing, &ConnectionId::default(), &end),
        Err(ClientError::Ics23Verification { cause: CommitmentError::EmptyMerkleRoot })
    );
    assert_eq!(mock.verify_connection_state(at, &prefix(), &proof, &nothing, &ConnectionId::default(), &end), Ok(()));

    let cs = AnyConsensusState::Mock(MockConsensusState::new(MockHeader::new(at)));
    assert!(real
        .verify_client_consensus_state(at, &prefix(), &proof, &root, &ClientId::default(), at, &cs)
        .is_err());
    assert_eq!(
        mock.verify_client_consensus_state(at, &prefix(), &proof, &nothing, &ClientId::default(), at, &cs),
        Ok(())
    );
    assert!(real
        .verify_channel_state(at, &prefix(), &proof, &root, &port, &chan, &channel())
        .is_err());
    assert_eq!(mock.verify_channel_state(at, &prefix(), &proof, &nothing, &port, &chan, &channel()), Ok(()));
    let any = Any { type_url: "/x".to_string(), value: vec![1] };
    assert!(real
        .verify_client_full_state(at, &prefix(), &proof, &root, &ClientId::default(), any.clone())
        .is_err());
    assert_eq!(
        mock.verify_client_full_state(at, &prefix(), &proof, &nothing, &ClientId::default(), any),
        Ok(())
    );
    let ack = || AcknowledgementCommitment { bytes: vec![1] };
    assert!(real
        .verify_packet_acknowledgement(&h, at, &conn, &proof, &root, &port, &chan, seq, ack())
        .is_err());
    assert_eq!(
        mock.verify_packet_acknowledgement(&h, at, &conn, &proof, &nothing, &port, &chan, seq, ack()),
        Ok(())
    );
    assert!(real
        .verify_next_sequence_recv(&h, at, &conn, &proof, &root, &port, &chan, seq)
        .is_err());
    assert_eq!(mock.verify_next_sequence_recv(&h, at, &conn, &proof, &nothing, &port, &chan, seq), Ok(()));
    assert!(real
        .verify_packet_receipt_absence(&h, at, &conn, &proof, &root, &port, &chan, seq)
        .is_err());
    assert_eq!(
        mock.verify_packet_receipt_absence(&h, at, &conn, &proof, &nothing, &port, &chan, seq),
        Ok(())
    );
    let (proof, root) = absence(
        "receipts/ports/defaultPort/channels/channel-0/sequences/3",
        "receipts/ports/defaultPort/channels/channel-0/sequences/2",
    );
    assert_eq!(real.verify_packet_receipt_absence(&h, at, &conn, &proof, &root, &port, &chan, seq), Ok(()));
}

use std::collections::BTreeMap;

use ibc_tendermint::client::{
    downcast_tm_client_state, downcast_tm_consensus_state, AnyClientState, AnyConsensusState,
    UpdatedState,
};
use ibc_tendermint::client_state::{AllowUpdate, ClientState};
use ibc_tendermint::commitment::CommitmentRoot;
use ibc_tendermint::consensus_state::ConsensusState;
use ibc_tendermint::context::ClientReader;
use ibc_tendermint::error::{ClientError, Error};
use ibc_tendermint::header::{
    do_powers_fit, Any, Header, HeaderInfo, TENDERMINT_HEADER_TYPE_URL,
};
use ibc_tendermint::height::Height;
use ibc_tendermint::identifier::{ChainId, ClientId, ClientType};
use ibc_tendermint::light_client::{
    do_tally_fits, run_check, sum_powers, Check, Verdict, VotingPowers,
};
use ibc_tendermint::misbehaviour::{Misbehaviour, TENDERMINT_MISBEHAVIOUR_TYPE_URL};
use ibc_tendermint::mock::{MockConsensusState, MockHeader};
use ibc_tendermint::specs::ProofSpecs;
use ibc_tendermint::timestamp::{Duration, Timestamp};
use ibc_tendermint::trust_threshold::TrustThreshold;
use tendermint_testgen::light_block::TmLightBlock;
use tendermint_testgen::{Commit, Generator, Header as TestgenHeader, LightBlock, Validator};

const T0: i64 = 1_700_000_000;
const SECOND: u64 = 1_000_000_000;

/// A host chain in memory.
#[derive(Clone)]
struct Host {
    now: Timestamp,
    states: BTreeMap<Height, AnyConsensusState>,
    failing: bool,
}

impl Host {
    fn new(now_secs: i64) -> Self {
        Host {
            now: Timestamp::from_nanoseconds(now_secs as u64 * SECOND).unwrap(),
            states: BTreeMap::new(),
            failing: false,
        }
    }

    fn with_state(mut self, height: Height, cs: ConsensusState) -> Self {
        self.states.insert(height, AnyConsensusState::Tendermint(cs));
        self
    }
}

impl ClientReader for Host {
    fn client_state_of(&self, client_id: &ClientId) -> Result<AnyClientState, ClientError> {
        self.client_state(client_id)
    }

    fn consensus_state_of(&self, client_id: &ClientId, height: &Height) -> Result<AnyConsensusState, ClientError> {
        self.consensus_state(client_id, height)
    }

    fn next_consensus_state_of(
        &self,
        client_id: &ClientId,
        height: &Height,
    ) -> Result<Option<AnyConsensusState>, ClientError> {
        self.next_consensus_state(client_id, height)
    }

    fn prev_consensus_state_of(
        &self,
        client_id: &ClientId,
        height: &Height,
    ) -> Result<Option<AnyConsensusState>, ClientError> {
        self.prev_consensus_state(client_id, height)
    }

    fn host_height_of(&self) -> Result<Height, ClientError> {
        self.host_height()
    }

    fn host_timestamp_of(&self) -> Result<Timestamp, ClientError> {
        self.host_timestamp()
    }

    fn client_state(&self, client_id: &ClientId) -> Result<AnyClientState, ClientError> {
        Err(ClientError::ClientNotFound { client_id: client_id.clone() })
    }

    fn consensus_state(&self, client_id: &ClientId, height: &Height) -> Result<AnyConsensusState, ClientError> {
        if self.failing {
            return Err(ClientError::Other { description: "store is down".to_string() });
        }
        self.states.get(height).cloned().ok_or(ClientError::ConsensusStateNotFound {
            client_id: client_id.clone(),
            height: *height,
        })
    }

    fn next_consensus_state(
        &self,
        _client_id: &ClientId,
        height: &Height,
    ) -> Result<Option<AnyConsensusState>, ClientError> {
        Ok(self.states.iter().find(|(h, _)| *h > height).map(|(_, cs)| cs.clone()))
    }

    fn prev_consensus_state(
        &self,
        _client_id: &ClientId,
        height: &Height,
    ) -> Result<Option<AnyConsensusState>, ClientError> {
        Ok(self.states.iter().rev().find(|(h, _)| *h < height).map(|(_, cs)| cs.clone()))
    }

    fn host_height(&self) -> Result<Height, ClientError> {
        Ok(Height::new(0, 100).unwrap())
    }

    fn host_timestamp(&self) -> Result<Timestamp, ClientError> {
        Ok(self.now)
    }
}

fn time(secs: i64) -> tendermint::Time {
    tendermint::Time::from_unix_timestamp(secs, 0).unwrap()
}

/// Blocks 1, 2, 3, ... of the chain `chain-1`, one second apart.
fn chain(n: usize) -> Vec<TmLightBlock> {
    let mut block = LightBlock::new_default_with_time_and_chain_id("chain-1".to_string(), time(T0), 1);
    let mut out = Vec::new();
    for _ in 0..n {
        out.push(block.generate().unwrap());
        block = block.next();
    }
    out
}

/// A block at `height` and `secs` that other validators signed.
fn foreign_block(height: u64, secs: i64) -> TmLightBlock {
    let validators = [Validator::new("a").voting_power(50), Validator::new("b").voting_power(50)];
    let header = TestgenHeader::new(&validators)
        .height(height)
        .chain_id("chain-1")
        .next_validators(&validators)
        .time(time(secs));
    let commit = Commit::new(header.clone(), 1);
    LightBlock::new(header, commit)
        .validators(&validators)
        .next_validators(&validators)
        .generate()
        .unwrap()
}

fn consensus_state_of(block: &TmLightBlock) -> ConsensusState {
    ConsensusState::new(
        CommitmentRoot::from_bytes(block.signed_header.header.app_hash.as_bytes()),
        Timestamp::from_nanoseconds(
            block.signed_header.header.time.unix_timestamp_nanos() as u64
        )
        .unwrap(),
        block.signed_header.header.next_validators_hash.as_bytes().to_vec(),
    )
}

fn header_of(block: &TmLightBlock, trusted: &TmLightBlock) -> Header {
    Header {
        signed_header: block.signed_header.clone(),
        validator_set: block.validators.clone(),
        trusted_height: Height::new(1, trusted.signed_header.header.height.value()).unwrap(),
        trusted_validator_set: trusted.next_validators.clone(),
    }
}

fn raw_header_of(header: &Header) -> ibc_proto::ibc::lightclients::tendermint::v1::Header {
    ibc_proto::ibc::lightclients::tendermint::v1::Header {
        signed_header: Some(header.signed_header.clone().into()),
        validator_set: Some(header.validator_set.clone().into()),
        trusted_height: Some(ibc_proto::ibc::core::client::v1::Height {
            revision_number: header.trusted_height.revision_number(),
            revision_height: header.trusted_height.revision_height(),
        }),
        trusted_validators: Some(header.trusted_validator_set.clone().into()),
    }
}

fn encoded(header: &Header) -> Any {
    Any {
        type_url: TENDERMINT_HEADER_TYPE_URL.to_string(),
        value: prost::Message::encode_to_vec(&raw_header_of(header)),
    }
}

fn client_at(height: u64) -> ClientState {
    ClientState::new(
        ChainId::from_string("chain-1"),
        TrustThreshold::one_third(),
        Duration::new(64000, 0),
        Duration::new(128000, 0),
        Duration::new(3, 0),
        Height::new(1, height).unwrap(),
        ProofSpecs::default(),
        Vec::new(),
        AllowUpdate { after_expiry: false, after_misbehaviour: false },
        None,
    )
    .unwrap()
}

fn tendermint(state: &AnyClientState) -> &ClientState {
    downcast_tm_client_state(state).unwrap()
}

#[test]
fn header_info_reads_the_signed_header() {
    let blocks = chain(2);
    let header = header_of(&blocks[1], &blocks[0]);
    let info = header.info().unwrap();
    assert_eq!(info.chain_id, "chain-1");
    assert_eq!(info.height, Height::new(1, 2).unwrap());
    assert_eq!(info.trusted_height, Height::new(1, 1).unwrap());
    assert_eq!(info.time, Timestamp::from_nanoseconds((T0 as u64 + 1) * SECOND).unwrap());
    assert_eq!(info.app_hash, blocks[1].signed_header.header.app_hash.as_bytes().to_vec());
    assert_eq!(
        info.next_validators_hash,
        blocks[1].signed_header.header.next_validators_hash.as_bytes().to_vec()
    );
    assert_eq!(info.commit_hash, blocks[1].signed_header.commit.block_id.hash.as_bytes().to_vec());
    assert_eq!(info.commit_hash.len(), 32);
    assert_eq!(
        header.trusted_validators_hash(),
        blocks[0].next_validators.hash().as_bytes().to_vec()
    );
    assert_eq!(info.into_consensus_state(), consensus_state_of(&blocks[1]));
}

#[test]
fn header_decoding() {
    let blocks = chain(2);
    let header = header_of(&blocks[1], &blocks[0]);
    let any = encoded(&header);
    assert_eq!(Header::decode(&any.value), Ok(header_of(&blocks[1], &blocks[0])));
    assert_eq!(Header::try_from_any(any.clone()), Ok(header_of(&blocks[1], &blocks[0])));
    assert_eq!(
        Header::try_from_any(Any { type_url: "/ibc.mock.Header".to_string(), value: any.value.clone() }),
        Err(ClientError::UnknownHeaderType { header_type: "/ibc.mock.Header".to_string() })
    );
    assert_eq!(Header::decode(&[0xff, 0xff, 0xff]), Err(Error::Decode));
    assert_eq!(Header::decode(&[]), Err(Error::MissingSignedHeader));

    let mut raw = raw_header_of(&header);
    raw.validator_set = None;
    assert_eq!(Header::decode(&prost::Message::encode_to_vec(&raw)), Err(Error::MissingValidatorSet));
    let mut raw = raw_header_of(&header);
    raw.trusted_height = None;
    assert_eq!(Header::decode(&prost::Message::encode_to_vec(&raw)), Err(Error::MissingTrustedHeight));
    let mut raw = raw_header_of(&header);
    raw.trusted_validators = None;
    assert_eq!(
        Header::decode(&prost::Message::encode_to_vec(&raw)),
        Err(Error::MissingTrustedValidatorSet)
    );
    let mut raw = raw_header_of(&header);
    raw.trusted_height =
        Some(ibc_proto::ibc::core::client::v1::Height { revision_number: 1, revision_height: 0 });
    assert_eq!(Header::decode(&prost::Message::encode_to_vec(&raw)), Err(Error::MissingTrustedHeight));
    let mut raw = raw_header_of(&header);
    raw.trusted_height =
        Some(ibc_proto::ibc::core::client::v1::Height { revision_number: 4, revision_height: 1 });
    assert_eq!(
        Header::decode(&prost::Message::encode_to_vec(&raw)),
        Err(Error::MismatchedRevisions { current_revision: 4, update_revision: 1 })
    );
    let mut raw = raw_header_of(&header);
    raw.signed_header.as_mut().unwrap().commit = None;
    assert_eq!(Header::decode(&prost::Message::encode_to_vec(&raw)), Err(Error::InvalidRawHeader));
}

#[test]
fn update_with_valid_header_moves_the_client_on() {
    let blocks = chain(2);
    let host = Host::new(T0 + 5).with_state(Height::new(1, 1).unwrap(), consensus_state_of(&blocks[0]));
    let client = client_at(1);
    let header = header_of(&blocks[1], &blocks[0]);
    let updated = client.update_with_header(&host, &ClientId::default(), &header).unwrap();
    let after = tendermint(&updated.client_state);
    assert_eq!(after.latest_height(), Height::new(1, 2).unwrap());
    assert_eq!(after.frozen_height(), None);
    assert_eq!(after.chain_id, client.chain_id);
    assert_eq!(after.trusting_period, client.trusting_period);
    assert_eq!(
        updated.consensus_state,
        AnyConsensusState::Tendermint(consensus_state_of(&blocks[1]))
    );
    assert_eq!(updated.consensus_state.client_type(), ClientType::Tendermint);

    let through_bytes =
        client.check_header_and_update_state(&host, ClientId::default(), encoded(&header)).unwrap();
    assert_eq!(through_bytes, updated);
    let dispatched = AnyClientState::Tendermint(client.clone())
        .check_header_and_update_state(&host, ClientId::default(), encoded(&header))
        .unwrap();
    assert_eq!(dispatched, updated);
}

#[test]
fn update_skips_blocks_that_the_trusted_validators_signed() {
    let blocks = chain(5);
    let host = Host::new(T0 + 10).with_state(Height::new(1, 1).unwrap(), consensus_state_of(&blocks[0]));
    let header = header_of(&blocks[4], &blocks[0]);
    let updated = client_at(1).update_with_header(&host, &ClientId::default(), &header).unwrap();
    assert_eq!(tendermint(&updated.client_state).latest_height(), Height::new(1, 5).unwrap());
}

#[test]
fn applying_the_same_header_twice_gives_the_same() {
    let blocks = chain(2);
    let host = Host::new(T0 + 5).with_state(Height::new(1, 1).unwrap(), consensus_state_of(&blocks[0]));
    let header = header_of(&blocks[1], &blocks[0]);
    let first = client_at(1).update_with_header(&host, &ClientId::default(), &header).unwrap();

    let stored = downcast_tm_consensus_state(&first.consensus_state).unwrap().clone();
    let later = host.clone().with_state(Height::new(1, 2).unwrap(), stored);
    let second = tendermint(&first.client_state)
        .update_with_header(&later, &ClientId::default(), &header)
        .unwrap();
    assert_eq!(second, first);

    // the stored state is found before anything is verified
    let mut expired = later.clone();
    expired.now = Timestamp::from_nanoseconds((T0 as u64 + 1_000_000) * SECOND).unwrap();
    let third = tendermint(&first.client_state)
        .update_with_header(&expired, &ClientId::default(), &header)
        .unwrap();
    assert_eq!(third, first);
}

#[test]
fn conflicting_header_freezes_the_client() {
    let blocks = chain(2);
    let mut other = consensus_state_of(&blocks[1]);
    other.root = CommitmentRoot::from_bytes(b"another root");
    let host = Host::new(T0 + 5)
        .with_state(Height::new(1, 1).unwrap(), consensus_state_of(&blocks[0]))
        .with_state(Height::new(1, 2).unwrap(), other.clone());
    let header = header_of(&blocks[1], &blocks[0]);
    let client = client_at(2);
    let updated = client.update_with_header(&host, &ClientId::default(), &header).unwrap();
    let after = tendermint(&updated.client_state);
    assert_eq!(after.frozen_height(), Some(Height::new(1, 2).unwrap()));
    assert_eq!(after.latest_height(), Height::new(1, 2).unwrap());
    assert_eq!(updated.consensus_state, AnyConsensusState::Tendermint(other));

    // once more on the frozen client: the same again
    let again = after.update_with_header(&host, &ClientId::default(), &header).unwrap();
    assert_eq!(again, updated);

    // a header that does not verify freezes nothing
    let mut expired = host.clone();
    expired.now = Timestamp::from_nanoseconds((T0 as u64 + 1_000_000) * SECOND).unwrap();
    assert!(client.update_with_header(&expired, &ClientId::default(), &header).is_err());
}

#[test]
fn update_errors() {
    let blocks = chain(3);
    let trusted = Height::new(1, 1).unwrap();
    let host = Host::new(T0 + 5).with_state(trusted, consensus_state_of(&blocks[0]));
    let header = header_of(&blocks[1], &blocks[0]);
    let id = ClientId::default();

    let mut other_revision = client_at(1);
    other_revision.chain_id = ChainId::from_string("chain-2");
    assert_eq!(
        other_revision.update_with_header(&host, &id, &header),
        Err(ClientError::ClientSpecific {
            cause: Error::MismatchedRevisions { current_revision: 2, update_revision: 1 }
        })
    );

    assert_eq!(
        client_at(1).update_with_header(&Host::new(T0 + 5), &id, &header),
        Err(ClientError::ConsensusStateNotFound { client_id: id.clone(), height: trusted })
    );

    let mut down = host.clone();
    down.failing = true;
    assert_eq!(
        client_at(1).update_with_header(&down, &id, &header),
        Err(ClientError::Other { description: "store is down".to_string() })
    );

    let mut mocked = host.clone();
    mocked.states.insert(
        trusted,
        AnyConsensusState::Mock(MockConsensusState::new(MockHeader::new(trusted))),
    );
    assert_eq!(
        client_at(1).update_with_header(&mocked, &id, &header),
        Err(ClientError::ClientArgsTypeMismatch { client_type: ClientType::Tendermint })
    );

    let mut no_time = host.clone();
    no_time.now = Timestamp::none();
    assert_eq!(
        client_at(1).update_with_header(&no_time, &id, &header),
        Err(ClientError::ClientSpecific { cause: Error::MissingHostTimestamp })
    );

    let mut upgraded = client_at(1);
    upgraded.trust_level = TrustThreshold::zero();
    assert_eq!(
        upgraded.update_with_header(&host, &id, &header),
        Err(ClientError::ClientSpecific {
            cause: Error::InvalidTendermintTrustThreshold { numerator: 0, denominator: 0 }
        })
    );

    let mut odd = client_at(1);
    odd.chain_id = ChainId::from_string("chain 1-1");
    assert_eq!(
        odd.update_with_header(&host, &id, &header),
        Err(ClientError::ClientSpecific { cause: Error::InvalidVerifierInput })
    );

    assert_eq!(
        client_at(1).check_header_and_update_state(
            &host,
            id.clone(),
            Any { type_url: TENDERMINT_HEADER_TYPE_URL.to_string(), value: vec![0xff] }
        ),
        Err(ClientError::ClientSpecific { cause: Error::Decode })
    );
}

#[test]
fn verifier_refuses_bad_headers() {
    let blocks = chain(3);
    let id = ClientId::default();
    let trusted = Height::new(1, 1).unwrap();
    let header = header_of(&blocks[1], &blocks[0]);

    // the trusted state is older than the trusting period
    let late = Host::new(T0 + 64001).with_state(trusted, consensus_state_of(&blocks[0]));
    match client_at(1).update_with_header(&late, &id, &header) {
        Err(ClientError::ClientSpecific { cause: Error::VerificationError { detail } }) => {
            assert!(detail.contains("trusting period"), "{}", detail)
        }
        other => panic!("unexpected result {:?}", other),
    }

    // the header is from the future
    let early = Host::new(T0 - 100).with_state(trusted, consensus_state_of(&blocks[0]));
    match client_at(1).update_with_header(&early, &id, &header) {
        Err(ClientError::ClientSpecific { cause: Error::VerificationError { detail } }) => {
            assert!(detail.contains("header from the future"), "{}", detail)
        }
        other => panic!("unexpected result {:?}", other),
    }

    // the validators of the header are not the ones it names
    let host = Host::new(T0 + 5).with_state(trusted, consensus_state_of(&blocks[0]));
    let mut wrong = header_of(&blocks[1], &blocks[0]);
    wrong.validator_set = foreign_block(2, T0 + 1).validators;
    match client_at(1).update_with_header(&host, &id, &wrong) {
        Err(ClientError::ClientSpecific { cause: Error::VerificationError { detail } }) => {
            assert!(detail.contains("invalid validator set"), "{}", detail)
        }
        other => panic!("unexpected result {:?}", other),
    }

    // validators that the client does not trust signed the header
    let foreign = foreign_block(3, T0 + 2);
    let untrusted = Header {
        signed_header: foreign.signed_header.clone(),
        validator_set: foreign.validators.clone(),
        trusted_height: trusted,
        trusted_validator_set: blocks[0].next_validators.clone(),
    };
    match client_at(1).update_with_header(&host, &id, &untrusted) {
        Err(ClientError::ClientSpecific { cause: Error::NotEnoughTrustedValsSigned { reason } }) => {
            assert!(!reason.is_empty())
        }
        other => panic!("unexpected result {:?}", other),
    }
}

#[test]
fn header_with_voting_powers_that_do_not_fit_is_refused() {
    assert!(do_powers_fit(&Vec::new()));
    assert!(do_powers_fit(&vec![0, 5, 7]));
    assert!(do_powers_fit(&vec![i64::MAX]));
    assert!(do_powers_fit(&vec![i64::MAX - 5, 2, 3]));
    assert!(!do_powers_fit(&vec![i64::MAX - 5, 2, 4]));
    assert!(!do_powers_fit(&vec![i64::MAX, i64::MAX]));
    assert!(!do_powers_fit(&vec![1, -1, 1]));
    assert!(!do_powers_fit(&vec![i64::MIN]));

    let blocks = chain(2);
    let header = header_of(&blocks[1], &blocks[0]);
    let decode = |raw: &ibc_proto::ibc::lightclients::tendermint::v1::Header| {
        Header::decode(&prost::Message::encode_to_vec(raw))
    };
    assert_eq!(decode(&raw_header_of(&header)), Ok(header_of(&blocks[1], &blocks[0])));
    // two validators whose voting powers add up beyond the largest one
    let mut raw = raw_header_of(&header);
    let validators = &mut raw.validator_set.as_mut().unwrap().validators;
    let first = validators[0].clone();
    validators.push(first);
    for validator in validators.iter_mut() {
        validator.voting_power = i64::MAX;
    }
    assert_eq!(decode(&raw), Err(Error::InvalidRawHeader));
    let mut raw = raw_header_of(&header);
    let validators = &mut raw.trusted_validators.as_mut().unwrap().validators;
    let first = validators[0].clone();
    validators.push(first);
    for validator in validators.iter_mut() {
        validator.voting_power = i64::MAX;
    }
    assert_eq!(decode(&raw), Err(Error::InvalidRawHeader));
    // a negative voting power
    let mut raw = raw_header_of(&header);
    raw.validator_set.as_mut().unwrap().validators[0].voting_power = -1;
    assert_eq!(decode(&raw), Err(Error::InvalidRawHeader));
    // a total that is not the sum
    let mut raw = raw_header_of(&header);
    raw.validator_set.as_mut().unwrap().total_voting_power += 1;
    assert_eq!(decode(&raw), Err(Error::InvalidRawHeader));
    // a validator set is asked for before the trusted height
    let mut raw = raw_header_of(&header);
    raw.validator_set.as_mut().unwrap().validators[0].voting_power = -1;
    raw.trusted_height = None;
    assert_eq!(decode(&raw), Err(Error::InvalidRawHeader));
    // and the trusted height before the trusted validators
    let mut raw = raw_header_of(&header);
    raw.trusted_validators.as_mut().unwrap().validators[0].voting_power = -1;
    raw.trusted_height = None;
    assert_eq!(decode(&raw), Err(Error::MissingTrustedHeight));
}

/// A block at height 2 of `chain-1` that one validator of this voting
/// power signed.
fn heavy_block(power: u64) -> TmLightBlock {
    let validators = [Validator::new("a").voting_power(power)];
    let header = TestgenHeader::new(&validators)
        .height(2)
        .chain_id("chain-1")
        .next_validators(&validators)
        .time(time(T0 + 1));
    let commit = Commit::new(header.clone(), 1);
    LightBlock::new(header, commit)
        .validators(&validators)
        .next_validators(&validators)
        .generate()
        .unwrap()
}

#[test]
fn tally_that_does_not_fit_is_refused() {
    assert_eq!(sum_powers(&Vec::new()), Some(0));
    assert_eq!(sum_powers(&vec![1, 2, 3]), Some(6));
    assert_eq!(sum_powers(&vec![u64::MAX - 1, 1]), Some(u64::MAX));
    assert_eq!(sum_powers(&vec![u64::MAX - 1, 1, 1]), None);
    let powers = |validators: Vec<u64>, trusted_validators: Vec<u64>| VotingPowers {
        validators,
        trusted_validators,
        signatures: 2,
    };
    let third = u64::MAX / 3;
    assert!(do_tally_fits(&powers(vec![third - 1, 1], vec![third]), 3));
    assert!(!do_tally_fits(&powers(vec![third, 1], vec![third]), 3));
    assert!(!do_tally_fits(&powers(vec![third], vec![third, 1]), 3));
    assert!(do_tally_fits(&powers(vec![third], vec![third, third]), 1));
    assert!(!do_tally_fits(&powers(vec![third], vec![u64::MAX, 1]), 0));
    assert!(do_tally_fits(&powers(vec![third], vec![u64::MAX]), 0));
    assert!(do_tally_fits(&powers(Vec::new(), Vec::new()), u64::MAX));
    assert!(!do_tally_fits(&powers(Vec::new(), vec![1, 1]), u64::MAX));
    let mut many = powers(vec![1], vec![1]);
    many.signatures = u32::MAX as usize + 1;
    assert!(!do_tally_fits(&many, 3));

    let client = client_at(1);
    let options = client.as_light_client_options().unwrap();
    let now = Timestamp::from_nanoseconds((T0 as u64 + 5) * SECOND).unwrap();
    let blocks = chain(1);
    let trusted = consensus_state_of(&blocks[0]);
    // three times the voting power of the header's validators is beyond 64 bits
    let heavy = heavy_block(i64::MAX as u64);
    let header = header_of(&heavy, &blocks[0]);
    assert_eq!(
        run_check(Check::Update, &header, &client.chain_id, &options, &trusted, now),
        Err(Error::InvalidVerifierInput)
    );
    assert_eq!(
        run_check(Check::CommitAgainstTrusted, &header, &client.chain_id, &options, &trusted, now),
        Err(Error::InvalidVerifierInput)
    );
    assert!(run_check(Check::AgainstTrusted, &header, &client.chain_id, &options, &trusted, now).is_ok());
    // the trusted voting power times the denominator of the trust level is
    let mut header = header_of(&blocks[0], &blocks[0]);
    header.signed_header = chain(2)[1].signed_header.clone();
    header.trusted_validator_set = heavy.validators.clone();
    assert_eq!(
        run_check(Check::Update, &header, &client.chain_id, &options, &trusted, now),
        Err(Error::InvalidVerifierInput)
    );
    // a voting power that can be tallied
    let light = heavy_block(u64::MAX / 3);
    let header = header_of(&light, &light);
    assert!(matches!(
        run_check(Check::CommitAgainstTrusted, &header, &client.chain_id, &options, &trusted, now),
        Ok(_)
    ));
}

#[test]
fn chain_identifier_that_the_verifier_does_not_take() {
    let blocks = chain(3);
    let client = client_at(1);
    let options = client.as_light_client_options().unwrap();
    let trusted = consensus_state_of(&blocks[0]);
    let header = header_of(&blocks[2], &blocks[0]);
    let now = Timestamp::from_nanoseconds((T0 as u64 + 5) * SECOND).unwrap();
    for id in ["", "chain/1", "chain 1", "châin-1", "x".repeat(51).as_str()] {
        assert_eq!(
            run_check(Check::Update, &header, &ChainId::from_string(id), &options, &trusted, now),
            Err(Error::InvalidVerifierInput),
            "{id}"
        );
    }
    for id in ["a", "A-z_0.9", "x".repeat(50).as_str()] {
        assert!(matches!(
            run_check(Check::Update, &header, &ChainId::from_string(id), &options, &trusted, now),
            Ok(Verdict::Invalid(_))
        ));
    }
    let mut no_hash = consensus_state_of(&blocks[0]);
    no_hash.next_validators_hash = Vec::new();
    assert!(run_check(Check::Update, &header, &client.chain_id, &options, &no_hash, now).is_ok());
}

#[test]
fn verdicts_of_the_single_checks() {
    let blocks = chain(3);
    let client = client_at(1);
    let options = client.as_light_client_options().unwrap();
    let trusted = consensus_state_of(&blocks[0]);
    let header = header_of(&blocks[2], &blocks[0]);
    let now = Timestamp::from_nanoseconds((T0 as u64 + 5) * SECOND).unwrap();
    for check in [Check::Update, Check::AgainstTrusted, Check::CommitAgainstTrusted] {
        assert_eq!(
            run_check(check, &header, &client.chain_id, &options, &trusted, now),
            Ok(Verdict::Success)
        );
    }
    let late = Timestamp::from_nanoseconds((T0 as u64 + 70000) * SECOND).unwrap();
    assert!(matches!(
        run_check(Check::Update, &header, &client.chain_id, &options, &trusted, late),
        Ok(Verdict::Invalid(_))
    ));
    assert!(matches!(
        run_check(Check::AgainstTrusted, &header, &client.chain_id, &options, &trusted, late),
        Ok(Verdict::Invalid(_))
    ));
    assert_eq!(
        run_check(Check::CommitAgainstTrusted, &header, &client.chain_id, &options, &trusted, late),
        Ok(Verdict::Success)
    );
    assert_eq!(
        run_check(Check::Update, &header, &client.chain_id, &options, &trusted, Timestamp::none()),
        Err(Error::MissingHostTimestamp)
    );
    let mut far = header_of(&blocks[2], &blocks[0]);
    far.trusted_height = Height::new(1, i64::MAX as u64).unwrap();
    assert_eq!(
        run_check(Check::Update, &far, &client.chain_id, &options, &trusted, now),
        Err(Error::InvalidHeaderHeight { height: i64::MAX as u64 })
    );
    let mut short_hash = consensus_state_of(&blocks[0]);
    short_hash.next_validators_hash = vec![1, 2, 3];
    assert_eq!(
        run_check(Check::Update, &header, &client.chain_id, &options, &short_hash, now),
        Err(Error::InvalidVerifierInput)
    );
}

#[test]
fn header_between_two_checkpoints() {
    let blocks = chain(3);
    let id = ClientId::default();
    let host = Host::new(T0 + 5)
        .with_state(Height::new(1, 1).unwrap(), consensus_state_of(&blocks[0]))
        .with_state(Height::new(1, 3).unwrap(), consensus_state_of(&blocks[2]));
    let header = header_of(&blocks[1], &blocks[0]);
    let updated = client_at(3).update_with_header(&host, &id, &header).unwrap();
    // the client is set to the height of the header
    assert_eq!(tendermint(&updated.client_state).latest_height(), Height::new(1, 2).unwrap());

    let mut next = consensus_state_of(&blocks[2]);
    next.timestamp = Timestamp::from_nanoseconds(T0 as u64 * SECOND).unwrap();
    let early_next = host.clone().with_state(Height::new(1, 3).unwrap(), next);
    assert_eq!(
        client_at(3).update_with_header(&early_next, &id, &header),
        Err(ClientError::ClientSpecific {
            cause: Error::HeaderTimestampTooHigh {
                actual: Timestamp::from_nanoseconds((T0 as u64 + 1) * SECOND).unwrap(),
                max: Timestamp::from_nanoseconds(T0 as u64 * SECOND).unwrap(),
            }
        })
    );

    // block 3 trusted from block 1, with a later block 2 in between
    let mut prev = consensus_state_of(&blocks[1]);
    prev.timestamp = Timestamp::from_nanoseconds((T0 as u64 + 4) * SECOND).unwrap();
    let late_prev = Host::new(T0 + 5)
        .with_state(Height::new(1, 1).unwrap(), consensus_state_of(&blocks[0]))
        .with_state(Height::new(1, 2).unwrap(), prev);
    assert_eq!(
        client_at(2).update_with_header(&late_prev, &id, &header_of(&blocks[2], &blocks[0])),
        Err(ClientError::ClientSpecific {
            cause: Error::HeaderTimestampTooLow {
                actual: Timestamp::from_nanoseconds((T0 as u64 + 2) * SECOND).unwrap(),
                min: Timestamp::from_nanoseconds((T0 as u64 + 4) * SECOND).unwrap(),
            }
        })
    );
}

fn info(height: u64, secs: u64) -> HeaderInfo {
    HeaderInfo {
        chain_id: "chain-1".to_string(),
        height: Height::new(1, height).unwrap(),
        trusted_height: Height::new(1, 1).unwrap(),
        time: Timestamp::from_nanoseconds(secs * SECOND).unwrap(),
        app_hash: vec![1, 2, 3],
        next_validators_hash: vec![4; 32],
        commit_hash: vec![5; 32],
    }
}

#[test]
fn conclusions_by_given_values() {
    let client = client_at(5);
    let at = |s: u64| Some(Timestamp::from_nanoseconds(s * SECOND).unwrap());
    let moved = |u: &UpdatedState| tendermint(&u.client_state).latest_height();

    let u = client.conclude_update(info(7, 100), None, Verdict::Success, None, None).unwrap();
    assert_eq!(moved(&u), Height::new(1, 7).unwrap());
    assert_eq!(
        u.consensus_state,
        AnyConsensusState::Tendermint(info(7, 100).into_consensus_state())
    );

    assert_eq!(
        client.conclude_update(info(7, 100), None, Verdict::Invalid("bad".to_string()), None, None),
        Err(ClientError::ClientSpecific {
            cause: Error::VerificationError { detail: "bad".to_string() }
        })
    );
    assert_eq!(
        client.conclude_update(
            info(7, 100),
            Some(info(7, 99).into_consensus_state()),
            Verdict::NotEnoughTrust("1/3".to_string()),
            None,
            None
        ),
        Err(ClientError::ClientSpecific {
            cause: Error::NotEnoughTrustedValsSigned { reason: "1/3".to_string() }
        })
    );

    let existing = info(7, 99).into_consensus_state();
    let u = client
        .conclude_update(info(7, 100), Some(existing.clone()), Verdict::Success, at(1), at(1000))
        .unwrap();
    assert_eq!(tendermint(&u.client_state).frozen_height(), Some(Height::new(1, 7).unwrap()));
    assert_eq!(moved(&u), Height::new(1, 5).unwrap());
    assert_eq!(u.consensus_state, AnyConsensusState::Tendermint(existing));

    let same = info(7, 100).into_consensus_state();
    let u = client.conclude_update(info(7, 100), Some(same), Verdict::Success, None, None).unwrap();
    assert_eq!(tendermint(&u.client_state).frozen_height(), None);
    assert_eq!(moved(&u), Height::new(1, 7).unwrap());

    assert!(client.conclude_update(info(3, 100), None, Verdict::Success, at(100), at(100)).is_ok());
    assert_eq!(
        client.conclude_update(info(3, 100), None, Verdict::Success, at(99), at(101)),
        Err(ClientError::ClientSpecific {
            cause: Error::HeaderTimestampTooHigh {
                actual: Timestamp::from_nanoseconds(100 * SECOND).unwrap(),
                max: Timestamp::from_nanoseconds(99 * SECOND).unwrap(),
            }
        })
    );
    assert_eq!(
        client.conclude_update(info(3, 100), None, Verdict::Success, at(100), at(101)),
        Err(ClientError::ClientSpecific {
            cause: Error::HeaderTimestampTooLow {
                actual: Timestamp::from_nanoseconds(100 * SECOND).unwrap(),
                min: Timestamp::from_nanoseconds(101 * SECOND).unwrap(),
            }
        })
    );

    assert_eq!(
        client.clone().with_header(&info(9, 1)).unwrap().latest_height(),
        Height::new(1, 9).unwrap()
    );
}

fn encoded_report(header1: &Header, header2: &Header) -> Any {
    let raw = ibc_proto::ibc::lightclients::tendermint::v1::Misbehaviour {
        client_id: "07-tendermint-0".to_string(),
        header_1: Some(raw_header_of(header1)),
        header_2: Some(raw_header_of(header2)),
    };
    Any {
        type_url: TENDERMINT_MISBEHAVIOUR_TYPE_URL.to_string(),
        value: prost::Message::encode_to_vec(&raw),
    }
}

fn fork_at_2() -> (Vec<TmLightBlock>, TmLightBlock) {
    let blocks = chain(3);
    // another block at height 2, signed by the same validators at another time
    let other = LightBlock::new_default_with_time_and_chain_id("chain-1".to_string(), time(T0 + 2), 2)
        .generate()
        .unwrap();
    (blocks, other)
}

#[test]
fn fork_at_one_height_freezes_the_client() {
    let (blocks, other) = fork_at_2();
    let id = ClientId::default();
    let host = Host::new(T0 + 5).with_state(Height::new(1, 1).unwrap(), consensus_state_of(&blocks[0]));
    let client = client_at(2);
    let report = Misbehaviour::new(
        id.clone(),
        header_of(&blocks[1], &blocks[0]),
        header_of(&other, &blocks[0]),
    )
    .unwrap();
    let frozen = client.check_misbehaviour(&host, &id, &report).unwrap();
    assert_eq!(frozen.frozen_height(), Some(Height::new(0, 1).unwrap()));
    assert_eq!(frozen.latest_height(), Height::new(1, 2).unwrap());
    assert!(frozen.is_frozen());

    let any = encoded_report(&header_of(&blocks[1], &blocks[0]), &header_of(&other, &blocks[0]));
    let decoded = Misbehaviour::try_from_any(any.clone()).unwrap();
    assert_eq!(decoded.client_id, id);
    assert_eq!(decoded.header1(), &header_of(&blocks[1], &blocks[0]));
    assert_eq!(decoded.header2(), &header_of(&other, &blocks[0]));
    assert_eq!(client.check_misbehaviour_and_update_state(&host, id.clone(), any.clone()), Ok(frozen.clone()));
    assert_eq!(
        AnyClientState::Tendermint(client.clone()).check_misbehaviour_and_update_state(&host, id.clone(), any),
        Ok(frozen)
    );
}

#[test]
fn reports_that_are_no_misbehaviour() {
    let (blocks, other) = fork_at_2();
    let id = ClientId::default();
    let host = Host::new(T0 + 5).with_state(Height::new(1, 1).unwrap(), consensus_state_of(&blocks[0]));
    let client = client_at(2);
    let specific = |cause: Error| Err(ClientError::ClientSpecific { cause });

    // the same header twice
    let twice = Misbehaviour::new(
        id.clone(),
        header_of(&blocks[1], &blocks[0]),
        header_of(&blocks[1], &blocks[0]),
    )
    .unwrap();
    assert_eq!(
        client.check_misbehaviour(&host, &id, &twice),
        specific(Error::MisbehaviourHeadersBlockHashesEqual)
    );

    // a higher header that is later: time goes on as it should
    let in_order = Misbehaviour::new(
        id.clone(),
        header_of(&blocks[2], &blocks[0]),
        header_of(&blocks[1], &blocks[0]),
    )
    .unwrap();
    assert_eq!(
        client.check_misbehaviour(&host, &id, &in_order),
        specific(Error::MisbehaviourHeadersNotAtSameHeight)
    );

    // the first header must not be below the second
    assert_eq!(
        Misbehaviour::new(id.clone(), header_of(&blocks[1], &blocks[0]), header_of(&blocks[2], &blocks[0])),
        Err(Error::MisbehaviourHeadersOutOfOrder {
            height1: Height::new(1, 2).unwrap(),
            height2: Height::new(1, 3).unwrap(),
        })
    );
    let elsewhere =
        LightBlock::new_default_with_time_and_chain_id("other-1".to_string(), time(T0 + 2), 2)
            .generate()
            .unwrap();
    assert_eq!(
        Misbehaviour::new(id.clone(), header_of(&blocks[1], &blocks[0]), header_of(&elsewhere, &blocks[0])),
        Err(Error::MisbehaviourHeadersDifferentChains)
    );

    let fork = || {
        Misbehaviour::new(id.clone(), header_of(&blocks[1], &blocks[0]), header_of(&other, &blocks[0]))
            .unwrap()
    };
    assert_eq!(
        client.check_misbehaviour(&Host::new(T0 + 5), &id, &fork()),
        Err(ClientError::ConsensusStateNotFound {
            client_id: id.clone(),
            height: Height::new(1, 1).unwrap()
        })
    );

    let mut renamed = client_at(2);
    renamed.chain_id = ChainId::from_string("house-1");
    assert_eq!(
        renamed.check_misbehaviour(&host, &id, &fork()),
        specific(Error::MisbehaviourHeadersChainIdMismatch {
            header_chain_id: "chain-1".to_string(),
            chain_id: "house-1".to_string(),
        })
    );

    let mut hashed = consensus_state_of(&blocks[0]);
    hashed.next_validators_hash = vec![7; 32];
    let other_validators = Host::new(T0 + 5).with_state(Height::new(1, 1).unwrap(), hashed);
    assert_eq!(
        client.check_misbehaviour(&other_validators, &id, &fork()),
        specific(Error::MisbehaviourTrustedValidatorHashMismatch)
    );

    let before = Host::new(T0 - 1).with_state(Height::new(1, 1).unwrap(), consensus_state_of(&blocks[0]));
    assert_eq!(
        client.check_misbehaviour(&before, &id, &fork()),
        Err(ClientError::InvalidConsensusStateTimestamp {
            time1: Timestamp::from_nanoseconds(T0 as u64 * SECOND).unwrap(),
            time2: Timestamp::from_nanoseconds((T0 as u64 - 1) * SECOND).unwrap(),
        })
    );

    let late = Host::new(T0 + 64000).with_state(Height::new(1, 1).unwrap(), consensus_state_of(&blocks[0]));
    assert_eq!(
        client.check_misbehaviour(&late, &id, &fork()),
        specific(Error::ConsensusStateTimestampGteTrustingPeriod {
            duration_since_consensus_state: Duration::new(64000, 0),
            trusting_period: Duration::new(64000, 0),
        })
    );

    assert_eq!(
        client.check_misbehaviour_and_update_state(
            &host,
            id.clone(),
            Any { type_url: "/ibc.mock.Misbehavior".to_string(), value: Vec::new() }
        ),
        Err(ClientError::UnknownMisbehaviourType {
            misbehaviour_type: "/ibc.mock.Misbehavior".to_string()
        })
    );
    assert_eq!(
        client.check_misbehaviour_and_update_state(
            &host,
            id.clone(),
            Any { type_url: TENDERMINT_MISBEHAVIOUR_TYPE_URL.to_string(), value: Vec::new() }
        ),
        specific(Error::MissingRawHeader)
    );
}

#[test]
fn single_checks_of_a_report() {
    let (blocks, other) = fork_at_2();
    let client = client_at(2);
    let trusted = consensus_state_of(&blocks[0]);
    let header = header_of(&other, &blocks[0]);
    let now = Timestamp::from_nanoseconds((T0 as u64 + 5) * SECOND).unwrap();
    assert_eq!(ClientState::check_header_validator_set(&trusted, &header), Ok(()));
    assert_eq!(client.check_header_and_validator_set(&header, &trusted, now), Ok(()));
    assert_eq!(client.verify_header_commit_against_trusted(&header, &trusted, now), Ok(()));

    let foreign = foreign_block(3, T0 + 2);
    let untrusted = Header {
        signed_header: foreign.signed_header.clone(),
        validator_set: foreign.validators.clone(),
        trusted_height: Height::new(1, 1).unwrap(),
        trusted_validator_set: blocks[0].next_validators.clone(),
    };
    assert!(matches!(
        client.verify_header_commit_against_trusted(&untrusted, &trusted, now),
        Err(ClientError::ClientSpecific { cause: Error::NotEnoughTrustedValsSigned { .. } })
    ));
}

#[test]
fn headers_without_plain_values() {
    let before_epoch =
        LightBlock::new_default_with_time_and_chain_id("chain-1".to_string(), time(-5), 2)
            .generate()
            .unwrap();
    let trusted = chain(1);
    assert_eq!(header_of(&before_epoch, &trusted[0]).info(), Err(Error::InvalidHeaderTime));
    let at_epoch = LightBlock::new_default_with_time_and_chain_id("chain-1".to_string(), time(0), 2)
        .generate()
        .unwrap();
    assert_eq!(header_of(&at_epoch, &trusted[0]).info(), Err(Error::InvalidHeaderTime));
    let host = Host::new(T0 + 5).with_state(Height::new(1, 1).unwrap(), consensus_state_of(&trusted[0]));
    assert_eq!(
        client_at(1).update_with_header(&host, &ClientId::default(), &header_of(&at_epoch, &trusted[0])),
        Err(ClientError::ClientSpecific { cause: Error::InvalidHeaderTime })
    );
    assert_eq!(
        Header::decode(&encoded(&header_of(&at_epoch, &trusted[0])).value),
        Err(Error::InvalidHeaderTime)
    );
    let unrevised = LightBlock::new_default_with_time_and_chain_id("chain".to_string(), time(T0), 2)
        .generate()
        .unwrap();
    assert_eq!(
        header_of(&unrevised, &trusted[0]).info().unwrap().height,
        Height::new(0, 2).unwrap()
    );
    assert_eq!(
        Header::decode(&encoded(&header_of(&unrevised, &trusted[0])).value),
        Err(Error::MismatchedRevisions { current_revision: 1, update_revision: 0 })
    );
}

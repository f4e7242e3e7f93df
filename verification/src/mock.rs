//! A mock light client: a header is a height and a time, and every header
//! above the latest one is accepted.

use vstd::prelude::*;
use vstd::string::*;
use ibc_proto::ibc::mock as raw_mock;
use crate::client::{AnyClientState, AnyConsensusState, UpdatedState};
use crate::commitment::CommitmentPrefix;
use crate::error::ClientError;
use crate::header::Any;
use crate::height::Height;
use crate::identifier::{ClientId, ClientType};
use crate::merkle::{apply_prefix, MerklePath};
use crate::text::same_text;
use crate::timestamp::{Duration, Timestamp};

verus! {

broadcast use {
    crate::height::Height::lemma_parts,
    crate::height::Height::lemma_of,
    crate::timestamp::Timestamp::lemma_parts,
    crate::timestamp::Timestamp::lemma_of,
};

/// The type URL of an encoded mock header.
pub const MOCK_HEADER_TYPE_URL: &'static str = "/ibc.mock.Header";

/// The type URL of an encoded report of mock misbehaviour.
pub const MOCK_MISBEHAVIOUR_TYPE_URL: &'static str = "/ibc.mock.Misbehavior";

/// The type URL of an encoded mock client state.
pub const MOCK_CLIENT_STATE_TYPE_URL: &'static str = "/ibc.mock.ClientState";

/// The client type of the mock client.
pub const MOCK_CLIENT_TYPE: &'static str = "9999-mock";

/// The client type of the mock client.
pub fn client_type() -> (r: ClientType)
    ensures
        r == ClientType::Mock,
{
    ClientType::Mock
}

/// A mock header: a height and the time of the block.
#[derive(Clone, Copy, Debug, PartialEq, Eq, Structural)]
pub struct MockHeader {
    pub height: Height,
    pub timestamp: Timestamp,
}

impl MockHeader {
    /// The header at `height`, with no time set.
    pub fn new(height: Height) -> (r: MockHeader)
        ensures
            r == (MockHeader { height, timestamp: Timestamp::of(0) }),
    {
        MockHeader { height, timestamp: Timestamp::none() }
    }

    pub fn height(&self) -> (r: Height)
        ensures
            r == self.height,
    {
        self.height
    }

    pub fn timestamp(&self) -> (r: Timestamp)
        ensures
            r == self.timestamp,
    {
        self.timestamp
    }

    /// The same header with another time.
    pub fn with_timestamp(self, timestamp: Timestamp) -> (r: MockHeader)
        ensures
            r == (MockHeader { height: self.height, timestamp }),
    {
        MockHeader { height: self.height, timestamp }
    }
}

/// The state of a mock client: the latest header, and the height from
/// which the client is frozen, if it is.
#[derive(Clone, Copy, Debug, PartialEq, Eq, Structural)]
pub struct MockClientState {
    pub header: MockHeader,
    pub frozen_height: Option<Height>,
}

impl MockClientState {
    /// The unfrozen state whose latest header is `header`.
    pub fn new(header: MockHeader) -> (r: MockClientState)
        ensures
            r == (MockClientState { header, frozen_height: None }),
    {
        MockClientState { header, frozen_height: None }
    }

    pub fn latest_height(&self) -> (r: Height)
        ensures
            r == self.header.height,
    {
        self.header.height()
    }

    /// A mock client never needs a refresh.
    pub fn refresh_time(&self) -> (r: Option<Duration>)
        ensures
            r.is_none(),
    {
        None
    }

    /// The same state, frozen from `frozen_height` on.
    pub fn with_frozen_height(self, frozen_height: Height) -> (r: MockClientState)
        ensures
            r == (MockClientState { header: self.header, frozen_height: Some(frozen_height) }),
    {
        MockClientState { header: self.header, frozen_height: Some(frozen_height) }
    }
}

/// The consensus state of a mock client: the header it was made from.
#[derive(Clone, Copy, Debug, PartialEq, Eq, Structural)]
pub struct MockConsensusState {
    pub header: MockHeader,
}

impl MockConsensusState {
    pub fn new(header: MockHeader) -> (r: MockConsensusState)
        ensures
            r == (MockConsensusState { header }),
    {
        MockConsensusState { header }
    }

    pub fn timestamp(&self) -> (r: Timestamp)
        ensures
            r == self.header.timestamp,
    {
        self.header.timestamp
    }
}

/// What a mock host keeps of one client: its type, its state, and its
/// consensus states by height.
#[derive(Clone, Debug, PartialEq, Eq)]
pub struct MockClientRecord {
    /// The type of the client.
    pub client_type: ClientType,
    /// The state of the client, once it has one.
    pub client_state: Option<AnyClientState>,
    /// The consensus states of the client, each with its height.
    pub consensus_states: Vec<(Height, AnyConsensusState)>,
}

/// A mock header on the wire: its height, where it has one, as revision and
/// block number, and its time in nanoseconds.
#[derive(Clone, Copy, Debug, PartialEq, Eq)]
pub struct RawMockHeader {
    pub height: Option<(u64, u64)>,
    pub timestamp: u64,
}

/// A report of mock misbehaviour: two mock headers.
#[derive(Clone, Debug, PartialEq, Eq)]
pub struct MockMisbehaviour {
    pub client_id: ClientId,
    pub header1: MockHeader,
    pub header2: MockHeader,
}

/// The parts of an encoded report of mock misbehaviour.
pub struct RawMockMisbehaviour {
    pub client_id: String,
    pub header1: Option<RawMockHeader>,
    pub header2: Option<RawMockHeader>,
}

/// What the outside decoder makes of the bytes of a mock header.
pub uninterp spec fn raw_mock_header(bytes: Seq<u8>) -> Result<RawMockHeader, ClientError>;

/// What the outside decoder finds as the header of an encoded mock client
/// state or mock consensus state.
pub uninterp spec fn raw_mock_state(bytes: Seq<u8>) -> Result<Option<RawMockHeader>, ClientError>;

/// What the outside decoder makes of the bytes of a report of mock
/// misbehaviour.
pub uninterp spec fn raw_mock_misbehaviour(bytes: Seq<u8>) -> Result<
    RawMockMisbehaviour,
    ClientError,
>;

/// The encoding of a mock client state with this header.
pub uninterp spec fn mock_client_state_bytes(
    revision_number: u64,
    revision_height: u64,
    timestamp: u64,
) -> Seq<u8>;

/// Decodes the message `ibc.mock.Header` of `ibc_proto` with `prost`.
#[verifier::external_body]
fn decode_mock_header(bytes: &[u8]) -> (r: Result<RawMockHeader, ClientError>)
    ensures
        r == raw_mock_header(bytes@),
{
    let m: raw_mock::Header = prost::Message::decode(bytes).map_err(|_| ClientError::Decode)?;
    Ok(RawMockHeader {
        height: m.height.map(|h| (h.revision_number, h.revision_height)),
        timestamp: m.timestamp,
    })
}

/// Decodes the message `ibc.mock.ClientState` of `ibc_proto` with `prost`,
/// which has the same form as `ibc.mock.ConsensusState`, and hands out its
/// header.
#[verifier::external_body]
fn decode_mock_state(bytes: &[u8]) -> (r: Result<Option<RawMockHeader>, ClientError>)
    ensures
        r == raw_mock_state(bytes@),
{
    let m: raw_mock::ClientState = prost::Message::decode(bytes).map_err(|_| ClientError::Decode)?;
    Ok(m.header.map(|h| RawMockHeader {
        height: h.height.map(|h| (h.revision_number, h.revision_height)),
        timestamp: h.timestamp,
    }))
}

/// Decodes the message `ibc.mock.Misbehaviour` of `ibc_proto` with `prost`.
#[verifier::external_body]
fn decode_mock_misbehaviour(bytes: &[u8]) -> (r: Result<RawMockMisbehaviour, ClientError>)
    ensures
        r == raw_mock_misbehaviour(bytes@),
{
    let m: raw_mock::Misbehaviour =
        prost::Message::decode(bytes).map_err(|_| ClientError::Decode)?;
    Ok(RawMockMisbehaviour {
        client_id: m.client_id,
        header1: m.header1.map(|h| RawMockHeader {
            height: h.height.map(|h| (h.revision_number, h.revision_height)),
            timestamp: h.timestamp }),
        header2: m.header2.map(|h| RawMockHeader {
            height: h.height.map(|h| (h.revision_number, h.revision_height)),
            timestamp: h.timestamp }),
    })
}

/// Encodes the message `ibc.mock.ClientState` of `ibc_proto` with `prost`.
#[verifier::external_body]
fn encode_mock_client_state(revision_number: u64, revision_height: u64, timestamp: u64) -> (r: Vec<
    u8,
>)
    ensures
        r@ == mock_client_state_bytes(revision_number, revision_height, timestamp),
{
    prost::Message::encode_to_vec(&raw_mock::ClientState {
        header: Some(raw_mock::Header {
            height: Some(ibc_proto::ibc::core::client::v1::Height {
                revision_number, revision_height }),
            timestamp,
        }),
    })
}

/// The mock header that a header on the wire stands for: it needs a height
/// with a block number.
pub open spec fn mock_header_of(raw: RawMockHeader) -> Result<MockHeader, ClientError> {
    match raw.height {
        Some((revision_number, revision_height)) => if revision_height == 0 {
            Err(ClientError::MissingRawHeader)
        } else {
            Ok(
                MockHeader {
                    height: Height::of(revision_number, revision_height),
                    timestamp: Timestamp::of(raw.timestamp),
                },
            )
        },
        None => Err(ClientError::MissingRawHeader),
    }
}

/// The mock header in an encoded message.
pub open spec fn mock_header_of_any(raw: &Any) -> Result<MockHeader, ClientError> {
    if raw.type_url@ != MOCK_HEADER_TYPE_URL@ {
        Err(ClientError::UnknownHeaderType { header_type: raw.type_url })
    } else {
        match raw_mock_header(raw.value@) {
            Err(e) => Err(e),
            Ok(h) => mock_header_of(h),
        }
    }
}

/// The header of an encoded mock client state or consensus state.
pub open spec fn mock_state_header(bytes: Seq<u8>) -> Result<MockHeader, ClientError> {
    match raw_mock_state(bytes) {
        Err(e) => Err(e),
        Ok(None) => Err(ClientError::MissingRawHeader),
        Ok(Some(h)) => mock_header_of(h),
    }
}

impl MockHeader {
    /// The mock header that a header on the wire stands for.
    pub fn try_from_raw(raw: RawMockHeader) -> (r: Result<MockHeader, ClientError>)
        ensures
            r == mock_header_of(raw),
    {
        let height = match raw.height {
            Some((revision_number, revision_height)) => match Height::new(
                revision_number,
                revision_height,
            ) {
                Ok(h) => h,
                Err(_) => {
                    return Err(ClientError::MissingRawHeader);
                },
            },
            None => {
                return Err(ClientError::MissingRawHeader);
            },
        };
        let timestamp = match Timestamp::from_nanoseconds(raw.timestamp) {
            Ok(t) => t,
            Err(_) => {
                return Err(ClientError::MissingRawHeader);
            },
        };
        Ok(MockHeader { height, timestamp })
    }

    /// The mock header in an encoded message, which must be of the type of
    /// mock headers.
    pub fn try_from_any(raw: Any) -> (r: Result<MockHeader, ClientError>)
        ensures
            r == mock_header_of_any(&raw),
    {
        if !same_text(raw.type_url.as_str(), MOCK_HEADER_TYPE_URL) {
            return Err(ClientError::UnknownHeaderType { header_type: raw.type_url });
        }
        let header = decode_mock_header(raw.value.as_slice())?;
        MockHeader::try_from_raw(header)
    }
}

impl MockConsensusState {
    /// The mock consensus state in an encoded message, which must be of the
    /// type of mock consensus states.
    pub fn try_from_any(raw: Any) -> (r: Result<MockConsensusState, ClientError>)
        ensures
            r == if raw.type_url@ != crate::wire::MOCK_CONSENSUS_STATE_TYPE_URL@ {
                Err::<MockConsensusState, ClientError>(
                    ClientError::UnknownConsensusStateType { consensus_state_type: raw.type_url },
                )
            } else {
                match mock_state_header(raw.value@) {
                    Err(e) => Err(e),
                    Ok(header) => Ok(MockConsensusState { header }),
                }
            },
    {
        if !same_text(raw.type_url.as_str(), crate::wire::MOCK_CONSENSUS_STATE_TYPE_URL) {
            return Err(
                ClientError::UnknownConsensusStateType { consensus_state_type: raw.type_url },
            );
        }
        match decode_mock_state(raw.value.as_slice())? {
            Some(h) => Ok(MockConsensusState { header: MockHeader::try_from_raw(h)? }),
            None => Err(ClientError::MissingRawHeader),
        }
    }
}

/// The report of mock misbehaviour in an encoded message. The client
/// identifier is known by its text only, and no contract here speaks of it.
pub open spec fn mock_report_headers(raw: &Any) -> Result<(MockHeader, MockHeader), ClientError> {
    if raw.type_url@ != MOCK_MISBEHAVIOUR_TYPE_URL@ {
        Err(ClientError::UnknownMisbehaviourType { misbehaviour_type: raw.type_url })
    } else {
        match raw_mock_misbehaviour(raw.value@) {
            Err(e) => Err(e),
            Ok(m) => match (m.header1, m.header2) {
                (Some(h1), Some(h2)) => match (mock_header_of(h1), mock_header_of(h2)) {
                    (Err(e), _) => Err(e),
                    (_, Err(e)) => Err(e),
                    (Ok(header1), Ok(header2)) => Ok((header1, header2)),
                },
                _ => Err(ClientError::MissingRawHeader),
            },
        }
    }
}

impl MockMisbehaviour {
    /// The report in an encoded message, which must be of the type of
    /// reports of mock misbehaviour.
    pub fn try_from_any(raw: Any) -> (r: Result<MockMisbehaviour, ClientError>)
        ensures
            match mock_report_headers(&raw) {
                Err(e) => r == Err::<MockMisbehaviour, ClientError>(e),
                Ok((header1, header2)) => r matches Ok(m) && m.header1 == header1 && m.header2
                    == header2 && m.client_id@ == raw_mock_misbehaviour(raw.value@)->Ok_0.client_id@,
            },
    {
        if !same_text(raw.type_url.as_str(), MOCK_MISBEHAVIOUR_TYPE_URL) {
            return Err(ClientError::UnknownMisbehaviourType { misbehaviour_type: raw.type_url });
        }
        let m = decode_mock_misbehaviour(raw.value.as_slice())?;
        let (h1, h2) = match (m.header1, m.header2) {
            (Some(h1), Some(h2)) => (h1, h2),
            _ => {
                return Err(ClientError::MissingRawHeader);
            },
        };
        let header1 = MockHeader::try_from_raw(h1);
        let header2 = MockHeader::try_from_raw(h2);
        let header1 = header1?;
        let header2 = header2?;
        Ok(MockMisbehaviour { client_id: ClientId::from_string(m.client_id), header1, header2 })
    }
}

impl MockClientState {
    /// The bytes that encode the state, without the URL of its type.
    pub open spec fn spec_bytes(&self) -> Seq<u8> {
        mock_client_state_bytes(
            self.header.height.rev(),
            self.header.height.num(),
            self.header.timestamp.spec_nanos(),
        )
    }

    /// Encodes the state, without the URL of its type. The frozen height is
    /// not part of the encoding.
    pub fn encode_vec(&self) -> (r: Vec<u8>)
        ensures
            r@ == self.spec_bytes(),
    {
        encode_mock_client_state(
            self.header.height.revision_number(),
            self.header.height.revision_height(),
            self.header.timestamp.nanoseconds(),
        )
    }

    /// The encoded message of the state, with the URL of its type.
    pub fn into_any(self) -> (r: Any)
        ensures
            r.type_url@ == MOCK_CLIENT_STATE_TYPE_URL@,
            r.value@ == self.spec_bytes(),
    {
        let value = self.encode_vec();
        Any { type_url: String::from_str(MOCK_CLIENT_STATE_TYPE_URL), value }
    }

    /// The unfrozen state in an encoded message, which must be of the type
    /// of mock client states.
    pub fn try_from_any(raw: Any) -> (r: Result<MockClientState, ClientError>)
        ensures
            r == if raw.type_url@ != MOCK_CLIENT_STATE_TYPE_URL@ {
                Err::<MockClientState, ClientError>(
                    ClientError::UnknownClientStateType { client_state_type: raw.type_url },
                )
            } else {
                match mock_state_header(raw.value@) {
                    Err(e) => Err(e),
                    Ok(header) => Ok(MockClientState { header, frozen_height: None }),
                }
            },
    {
        if !same_text(raw.type_url.as_str(), MOCK_CLIENT_STATE_TYPE_URL) {
            return Err(ClientError::UnknownClientStateType { client_state_type: raw.type_url });
        }
        match decode_mock_state(raw.value.as_slice())? {
            Some(h) => Ok(MockClientState::new(MockHeader::try_from_raw(h)?)),
            None => Err(ClientError::MissingRawHeader),
        }
    }

    /// The unfrozen state whose latest header is that of a consensus state.
    pub fn from_consensus_state(cs: MockConsensusState) -> (r: MockClientState)
        ensures
            r == (MockClientState { header: cs.header, frozen_height: None }),
    {
        MockClientState::new(cs.header)
    }

    /// A mock client never expires.
    pub fn expired(&self, elapsed: Duration) -> (r: bool)
        ensures
            !r,
    {
        false
    }

    /// What an update with a header gives: the header must be above the
    /// latest height, and then becomes the latest header.
    pub open spec fn updated(&self, header: MockHeader) -> Result<UpdatedState, ClientError> {
        if !self.header.height.spec_lt(header.height) {
            Err(
                ClientError::LowHeaderHeight {
                    header_height: header.height,
                    latest_height: self.header.height,
                },
            )
        } else {
            Ok(
                UpdatedState {
                    client_state: AnyClientState::Mock(
                        MockClientState { header, frozen_height: None },
                    ),
                    consensus_state: AnyConsensusState::Mock(MockConsensusState { header }),
                },
            )
        }
    }

    /// Updates the client with a header.
    pub fn update_with_header(&self, header: MockHeader) -> (r: Result<UpdatedState, ClientError>)
        ensures
            r == self.updated(header),
    {
        if !self.latest_height().lt(&header.height()) {
            return Err(
                ClientError::LowHeaderHeight {
                    header_height: header.height(),
                    latest_height: self.latest_height(),
                },
            );
        }
        Ok(
            UpdatedState {
                client_state: AnyClientState::Mock(MockClientState::new(header)),
                consensus_state: AnyConsensusState::Mock(MockConsensusState::new(header)),
            },
        )
    }

    /// Updates the client with an encoded header.
    pub fn check_header_and_update_state(&self, header: Any) -> (r: Result<
        UpdatedState,
        ClientError,
    >)
        ensures
            r == match mock_header_of_any(&header) {
                Err(e) => Err(e),
                Ok(h) => self.updated(h),
            },
    {
        let header = MockHeader::try_from_any(header)?;
        self.update_with_header(header)
    }

    /// What a report of two headers gives: the headers must stand at one
    /// height above the latest one, and the client is then frozen at the
    /// first header.
    pub open spec fn frozen_by(&self, header1: MockHeader, header2: MockHeader) -> Result<
        AnyClientState,
        ClientError,
    > {
        if header1.height != header2.height {
            Err(ClientError::InvalidHeight)
        } else if !self.header.height.spec_lt(header1.height) {
            Err(
                ClientError::LowHeaderHeight {
                    header_height: header1.height,
                    latest_height: self.header.height,
                },
            )
        } else {
            Ok(
                AnyClientState::Mock(
                    MockClientState { header: header1, frozen_height: Some(Height::of(0, 1)) },
                ),
            )
        }
    }

    /// Checks a report of two headers and freezes the client.
    pub fn check_misbehaviour(&self, header1: MockHeader, header2: MockHeader) -> (r: Result<
        AnyClientState,
        ClientError,
    >)
        ensures
            r == self.frozen_by(header1, header2),
    {
        if header1.height() != header2.height() {
            return Err(ClientError::InvalidHeight);
        }
        if !self.latest_height().lt(&header1.height()) {
            return Err(
                ClientError::LowHeaderHeight {
                    header_height: header1.height(),
                    latest_height: self.latest_height(),
                },
            );
        }
        let frozen = Height::new(0, 1)?;
        Ok(AnyClientState::Mock(MockClientState::new(header1).with_frozen_height(frozen)))
    }

    /// Checks an encoded report of misbehaviour and freezes the client.
    pub fn check_misbehaviour_and_update_state(&self, misbehaviour: Any) -> (r: Result<
        AnyClientState,
        ClientError,
    >)
        ensures
            r == match mock_report_headers(&misbehaviour) {
                Err(e) => Err(e),
                Ok((header1, header2)) => self.frozen_by(header1, header2),
            },
    {
        let misbehaviour = MockMisbehaviour::try_from_any(misbehaviour)?;
        self.check_misbehaviour(misbehaviour.header1, misbehaviour.header2)
    }

    /// Takes an upgraded consensus state as it is: the client state stays,
    /// and the encoded consensus state comes back decoded.
    pub fn verify_upgrade_and_update_state(&self, consensus_state: Any) -> (r: Result<
        UpdatedState,
        ClientError,
    >)
        ensures
            r == if consensus_state.type_url@ != crate::wire::MOCK_CONSENSUS_STATE_TYPE_URL@ {
                Err::<UpdatedState, ClientError>(
                    ClientError::UnknownConsensusStateType {
                        consensus_state_type: consensus_state.type_url,
                    },
                )
            } else {
                match mock_state_header(consensus_state.value@) {
                    Err(e) => Err(e),
                    Ok(header) => Ok(
                        UpdatedState {
                            client_state: AnyClientState::Mock(*self),
                            consensus_state: AnyConsensusState::Mock(
                                MockConsensusState { header },
                            ),
                        },
                    ),
                }
            },
    {
        let consensus_state = MockConsensusState::try_from_any(consensus_state)?;
        Ok(
            UpdatedState {
                client_state: AnyClientState::Mock(*self),
                consensus_state: AnyConsensusState::Mock(consensus_state),
            },
        )
    }

    /// Accepts every proof of a consensus state. The path that a real
    /// client would check is built and handed back.
    pub fn verify_client_consensus_state(
        &self,
        prefix: &CommitmentPrefix,
        client_id: &ClientId,
        consensus_height: Height,
    ) -> (r: Result<MerklePath, ClientError>)
        ensures
            r is Ok,
            crate::text::texts(r->Ok_0.key_path@) == seq![
                crate::commitment::prefix_text(prefix@),
                crate::path::client_consensus_state_path(
                    client_id@,
                    consensus_height.rev(),
                    consensus_height.num(),
                ),
            ],
    {
        let client_prefixed_path = crate::path::client_consensus_state(
            client_id,
            consensus_height.revision_number(),
            consensus_height.revision_height(),
        );
        let mut keys: Vec<String> = Vec::new();
        keys.push(client_prefixed_path);
        let path = apply_prefix(prefix, keys);
        proof {
            assert(crate::text::texts(path.key_path@) =~= seq![
                crate::commitment::prefix_text(prefix@),
                crate::path::client_consensus_state_path(
                    client_id@,
                    consensus_height.rev(),
                    consensus_height.num(),
                ),
            ]);
        }
        Ok(path)
    }
}

} // verus!

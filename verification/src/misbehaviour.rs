//! The misbehaviour flow: two headers that cannot both be true freeze the
//! client.

use vstd::prelude::*;
use crate::client::{AnyClientState, AnyConsensusState};
use crate::client_state::ClientState;
use crate::commitment::bytes_equal;
use crate::consensus_state::ConsensusState;
use crate::context::ClientReader;
use crate::error::{ClientError, Error};
use crate::header::{
    header_of_bytes, trusted_validators_hash, Any, Header, HeaderInfo,
};
use crate::height::Height;
use crate::identifier::{with_version_text, ClientId, ClientType};
use crate::light_client::{checked, run_check, Check, Verdict};
use crate::text::same_text;
use crate::timestamp::Timestamp;
use crate::update::{tendermint_state, verdict_error};

verus! {

broadcast use {
    crate::height::Height::lemma_parts,
    crate::height::Height::lemma_of,
    crate::timestamp::Timestamp::lemma_parts,
    crate::timestamp::Timestamp::lemma_of,
    crate::timestamp::Duration::lemma_parts,
    crate::timestamp::Duration::lemma_of,
    crate::identifier::ChainId::lemma_id_string,
};

/// The type URL of an encoded report of Tendermint misbehaviour.
pub const TENDERMINT_MISBEHAVIOUR_TYPE_URL: &'static str =
    "/ibc.lightclients.tendermint.v1.Misbehaviour";

/// A report of misbehaviour: two headers of one chain that the submitter
/// holds to contradict each other.
#[derive(Debug, PartialEq, Eq)]
pub struct Misbehaviour {
    pub client_id: ClientId,
    pub header1: Header,
    pub header2: Header,
}

/// The parts of an encoded report, each header that it holds still
/// encoded.
pub struct MisbehaviourParts {
    pub client_id: String,
    pub header1: Option<Vec<u8>>,
    pub header2: Option<Vec<u8>>,
}

/// The parts of an encoded report as plain values.
pub struct MisbehaviourPartsView {
    pub client_id: Seq<char>,
    pub header1: Option<Seq<u8>>,
    pub header2: Option<Seq<u8>>,
}

/// The bytes of an encoded header, if there is one.
pub open spec fn bytes_view(bytes: Option<Vec<u8>>) -> Option<Seq<u8>> {
    match bytes {
        Some(bytes) => Some(bytes@),
        None => None,
    }
}

impl View for MisbehaviourParts {
    type V = MisbehaviourPartsView;

    open spec fn view(&self) -> MisbehaviourPartsView {
        MisbehaviourPartsView {
            client_id: self.client_id@,
            header1: bytes_view(self.header1),
            header2: bytes_view(self.header2),
        }
    }
}

/// The parts that the bytes of a report decode to, if they decode.
pub uninterp spec fn misbehaviour_parts(bytes: Seq<u8>) -> Option<MisbehaviourPartsView>;

/// Decodes a report with `prost`, as `ibc_proto` describes it, and encodes
/// each header that it holds again. The result is what these outside
/// functions make of the bytes, and nothing where the bytes are no report.
#[verifier::external_body]
fn decode_misbehaviour_parts(bytes: &[u8]) -> (r: Option<MisbehaviourParts>)
    ensures
        match r {
            Some(parts) => misbehaviour_parts(bytes@) == Some(parts@),
            None => misbehaviour_parts(bytes@).is_none(),
        },
{
    let raw: ibc_proto::ibc::lightclients::tendermint::v1::Misbehaviour =
        prost::Message::decode(bytes).ok()?;
    Some(MisbehaviourParts {
        client_id: raw.client_id,
        header1: raw.header_1.map(|h| prost::Message::encode_to_vec(&h)),
        header2: raw.header_2.map(|h| prost::Message::encode_to_vec(&h)),
    })
}

/// Why two headers make no report, if they make none: one of them has no
/// plain values, they name different chains, or the first is below the
/// second.
pub open spec fn report_fault(header1: &Header, header2: &Header) -> Option<Error> {
    match (header1.spec_info(), header2.spec_info()) {
        (Err(e), _) => Some(e),
        (_, Err(e)) => Some(e),
        (Ok(info1), Ok(info2)) => if info1.chain_id@ != info2.chain_id@ {
            Some(Error::MisbehaviourHeadersDifferentChains)
        } else if info1.height.spec_lt(info2.height) {
            Some(
                Error::MisbehaviourHeadersOutOfOrder {
                    height1: info1.height,
                    height2: info2.height,
                },
            )
        } else {
            None
        },
    }
}

/// The header of a report, or why it has none: it is missing, or its
/// bytes decode to none.
pub open spec fn report_header(bytes: Option<Seq<u8>>) -> Result<Header, Error> {
    match bytes {
        None => Err(Error::MissingRawHeader),
        Some(bytes) => header_of_bytes(bytes),
    }
}

/// The two headers of the report that the bytes encode, where they encode
/// one, or the first thing that is wrong: the bytes are no report, the first
/// header is missing or makes none, the second is, or the two make no report.
pub open spec fn report_headers(bytes: Seq<u8>) -> Result<(Header, Header), Error> {
    match misbehaviour_parts(bytes) {
        None => Err(Error::Decode),
        Some(parts) => match (report_header(parts.header1), report_header(parts.header2)) {
            (Err(e), _) => Err(e),
            (_, Err(e)) => Err(e),
            (Ok(header1), Ok(header2)) => match report_fault(&header1, &header2) {
                Some(e) => Err(e),
                None => Ok((header1, header2)),
            },
        },
    }
}

/// `report` is what the bytes decode to: the error of the decoding, or the
/// report with the decoded headers and a client identifier of the decoded
/// text.
pub open spec fn report_of_bytes(bytes: Seq<u8>, report: Result<Misbehaviour, Error>) -> bool {
    match report_headers(bytes) {
        Err(e) => report == Err::<Misbehaviour, Error>(e),
        Ok((header1, header2)) => report matches Ok(m) && m.client_id@ == misbehaviour_parts(
            bytes,
        ).unwrap().client_id && m.header1 == header1 && m.header2 == header2,
    }
}

impl Misbehaviour {
    /// The report of two headers of one chain, the first at or above the
    /// second.
    pub fn new(client_id: ClientId, header1: Header, header2: Header) -> (r: Result<
        Misbehaviour,
        Error,
    >)
        ensures
            r == match report_fault(&header1, &header2) {
                Some(e) => Err::<Misbehaviour, Error>(e),
                None => Ok(Misbehaviour { client_id, header1, header2 }),
            },
    {
        let info1 = header1.info()?;
        let info2 = header2.info()?;
        if !same_text(info1.chain_id.as_str(), info2.chain_id.as_str()) {
            return Err(Error::MisbehaviourHeadersDifferentChains);
        }
        if info1.height.lt(&info2.height) {
            return Err(
                Error::MisbehaviourHeadersOutOfOrder {
                    height1: info1.height,
                    height2: info2.height,
                },
            );
        }
        Ok(Misbehaviour { client_id, header1, header2 })
    }

    /// The report that the bytes encode.
    pub fn decode(bytes: &[u8]) -> (r: Result<Misbehaviour, Error>)
        ensures
            report_of_bytes(bytes@, r),
    {
        let parts = match decode_misbehaviour_parts(bytes) {
            Some(parts) => parts,
            None => {
                return Err(Error::Decode);
            },
        };
        let header1 = match &parts.header1 {
            Some(bytes) => Header::decode(bytes.as_slice())?,
            None => {
                return Err(Error::MissingRawHeader);
            },
        };
        let header2 = match &parts.header2 {
            Some(bytes) => Header::decode(bytes.as_slice())?,
            None => {
                return Err(Error::MissingRawHeader);
            },
        };
        Misbehaviour::new(ClientId::from_string(parts.client_id), header1, header2)
    }

    /// The report in an encoded message, which must be of the type of
    /// Tendermint misbehaviour reports.
    pub fn try_from_any(raw: Any) -> (r: Result<Misbehaviour, ClientError>)
        ensures
            raw.type_url@ != TENDERMINT_MISBEHAVIOUR_TYPE_URL@ ==> r == Err::<
                Misbehaviour,
                ClientError,
            >(ClientError::UnknownMisbehaviourType { misbehaviour_type: raw.type_url }),
            raw.type_url@ == TENDERMINT_MISBEHAVIOUR_TYPE_URL@ ==> match r {
                Ok(m) => report_of_bytes(raw.value@, Ok(m)),
                Err(e) => e matches ClientError::ClientSpecific { cause } && report_of_bytes(
                    raw.value@,
                    Err(cause),
                ),
            },
    {
        if !same_text(raw.type_url.as_str(), TENDERMINT_MISBEHAVIOUR_TYPE_URL) {
            return Err(ClientError::UnknownMisbehaviourType { misbehaviour_type: raw.type_url });
        }
        match Misbehaviour::decode(raw.value.as_slice()) {
            Ok(m) => Ok(m),
            Err(cause) => Err(ClientError::ClientSpecific { cause }),
        }
    }

    pub fn header1(&self) -> (r: &Header)
        ensures
            r == self.header1,
    {
        &self.header1
    }

    pub fn header2(&self) -> (r: &Header)
        ensures
            r == self.header2,
    {
        &self.header2
    }
}

/// Why two headers are no misbehaviour, if they are none: they stand at
/// one height and commit to the same block, or they stand at different
/// heights and the first, which is the higher one, is the later one too.
pub open spec fn no_conflict(info1: &HeaderInfo, info2: &HeaderInfo) -> Option<Error> {
    if info1.height == info2.height {
        if info1.commit_hash@ == info2.commit_hash@ {
            Some(Error::MisbehaviourHeadersBlockHashesEqual)
        } else {
            None
        }
    } else if info1.time.spec_nanos() > info2.time.spec_nanos() {
        Some(Error::MisbehaviourHeadersNotAtSameHeight)
    } else {
        None
    }
}

impl ClientState {
    /// Why a header of a report cannot be held against its trusted
    /// consensus state, if it cannot: its trusted validators are not those
    /// that the consensus state names, the consensus state is later than the
    /// host's time or as old as the trusting period, or the verifier refuses
    /// the header at the host's time.
    pub open spec fn header_fault(
        &self,
        header: &Header,
        consensus_state: &ConsensusState,
        now: Timestamp,
    ) -> Option<ClientError> {
        if consensus_state.next_validators_hash@ != trusted_validators_hash(*header) {
            Some(
                ClientError::ClientSpecific {
                    cause: Error::MisbehaviourTrustedValidatorHashMismatch,
                },
            )
        } else if !(now.is_set() && consensus_state.timestamp.is_set() && now.spec_nanos()
            >= consensus_state.timestamp.spec_nanos()) {
            Some(
                ClientError::InvalidConsensusStateTimestamp {
                    time1: consensus_state.timestamp,
                    time2: now,
                },
            )
        } else if now.spec_nanos() - consensus_state.timestamp.spec_nanos()
            >= self.trusting_period.total_nanos() {
            Some(
                ClientError::ClientSpecific {
                    cause: Error::ConsensusStateTimestampGteTrustingPeriod {
                        duration_since_consensus_state: Timestamp::span(
                            now,
                            consensus_state.timestamp,
                        ),
                        trusting_period: self.trusting_period,
                    },
                },
            )
        } else {
            self.check_fault(Check::AgainstTrusted, header, consensus_state, now)
        }
    }

    /// The error of one of the verifier's checks on a header, if it does
    /// not pass.
    pub open spec fn check_fault(
        &self,
        check: Check,
        header: &Header,
        consensus_state: &ConsensusState,
        now: Timestamp,
    ) -> Option<ClientError> {
        match self.spec_options() {
            Err(cause) => Some(ClientError::ClientSpecific { cause }),
            Ok(options) => match checked(
                check,
                header,
                &self.chain_id,
                &options,
                consensus_state,
                now,
            ) {
                Err(cause) => Some(ClientError::ClientSpecific { cause }),
                Ok(verdict) => match verdict_error(verdict) {
                    Some(cause) => Some(ClientError::ClientSpecific { cause }),
                    None => None,
                },
            },
        }
    }

    /// Runs one of the verifier's checks on a header.
    fn run_header_check(
        &self,
        check: Check,
        header: &Header,
        consensus_state: &ConsensusState,
        now: Timestamp,
    ) -> (r: Result<(), ClientError>)
        ensures
            r == match self.check_fault(check, header, consensus_state, now) {
                Some(e) => Err::<(), ClientError>(e),
                None => Ok(()),
            },
    {
        let options = match self.as_light_client_options() {
            Ok(options) => options,
            Err(cause) => {
                return Err(ClientError::ClientSpecific { cause });
            },
        };
        match run_check(check, header, &self.chain_id, &options, consensus_state, now) {
            Err(cause) => Err(ClientError::ClientSpecific { cause }),
            Ok(Verdict::Success) => Ok(()),
            Ok(Verdict::NotEnoughTrust(reason)) => Err(
                ClientError::ClientSpecific { cause: Error::NotEnoughTrustedValsSigned { reason } },
            ),
            Ok(Verdict::Invalid(detail)) => Err(
                ClientError::ClientSpecific { cause: Error::VerificationError { detail } },
            ),
        }
    }

    /// Checks that the trusted validators of a header are those that the
    /// trusted consensus state names as the next ones.
    pub fn check_header_validator_set(
        trusted_consensus_state: &ConsensusState,
        header: &Header,
    ) -> (r: Result<(), ClientError>)
        ensures
            r == if trusted_consensus_state.next_validators_hash@ == trusted_validators_hash(
                *header,
            ) {
                Ok::<(), ClientError>(())
            } else {
                Err(
                    ClientError::ClientSpecific {
                        cause: Error::MisbehaviourTrustedValidatorHashMismatch,
                    },
                )
            },
    {
        let trusted_val_hash = header.trusted_validators_hash();
        if !bytes_equal(
            trusted_consensus_state.next_validators_hash.as_slice(),
            trusted_val_hash.as_slice(),
        ) {
            return Err(
                ClientError::ClientSpecific {
                    cause: Error::MisbehaviourTrustedValidatorHashMismatch,
                },
            );
        }
        Ok(())
    }

    /// Holds a header of a report against its trusted consensus state: the
    /// validators, the age of the consensus state, and the verifier's checks
    /// of time and height.
    pub fn check_header_and_validator_set(
        &self,
        header: &Header,
        consensus_state: &ConsensusState,
        current_timestamp: Timestamp,
    ) -> (r: Result<(), ClientError>)
        ensures
            r == match self.header_fault(header, consensus_state, current_timestamp) {
                Some(e) => Err::<(), ClientError>(e),
                None => Ok(()),
            },
    {
        ClientState::check_header_validator_set(consensus_state, header)?;
        let duration_since_consensus_state = match current_timestamp.duration_since(
            &consensus_state.timestamp(),
        ) {
            Some(d) => d,
            None => {
                return Err(
                    ClientError::InvalidConsensusStateTimestamp {
                        time1: consensus_state.timestamp(),
                        time2: current_timestamp,
                    },
                );
            },
        };
        if self.trusting_period.le(&duration_since_consensus_state) {
            return Err(
                ClientError::ClientSpecific {
                    cause: Error::ConsensusStateTimestampGteTrustingPeriod {
                        duration_since_consensus_state,
                        trusting_period: self.trusting_period,
                    },
                },
            );
        }
        self.run_header_check(Check::AgainstTrusted, header, consensus_state, current_timestamp)
    }

    /// Checks that enough of the trusted voting power signed the header.
    pub fn verify_header_commit_against_trusted(
        &self,
        header: &Header,
        consensus_state: &ConsensusState,
        current_timestamp: Timestamp,
    ) -> (r: Result<(), ClientError>)
        ensures
            r == match self.check_fault(
                Check::CommitAgainstTrusted,
                header,
                consensus_state,
                current_timestamp,
            ) {
                Some(e) => Err::<(), ClientError>(e),
                None => Ok(()),
            },
    {
        self.run_header_check(
            Check::CommitAgainstTrusted,
            header,
            consensus_state,
            current_timestamp,
        )
    }

    /// Why a report does not freeze the client, if it does not, as a
    /// function of what the host holds: the two headers are no conflict, the
    /// host lacks one of their trusted consensus states, they were made for
    /// another chain, or one of them fails a check against its trusted
    /// consensus state.
    pub open spec fn misbehaviour_fault<Ctx: ClientReader>(
        &self,
        ctx: &Ctx,
        client_id: &ClientId,
        header1: &Header,
        header2: &Header,
    ) -> Option<ClientError> {
        match (header1.spec_info(), header2.spec_info()) {
            (Err(cause), _) => Some(ClientError::ClientSpecific { cause }),
            (_, Err(cause)) => Some(ClientError::ClientSpecific { cause }),
            (Ok(info1), Ok(info2)) => if let Some(cause) = no_conflict(&info1, &info2) {
                Some(ClientError::ClientSpecific { cause })
            } else {
                match (
                    tendermint_state(ctx.consensus_state_of(client_id, &header1.trusted_height)),
                    tendermint_state(ctx.consensus_state_of(client_id, &header2.trusted_height)),
                ) {
                    (Err(e), _) => Some(e),
                    (_, Err(e)) => Some(e),
                    (Ok(state1), Ok(state2)) => if info1.chain_id@ != with_version_text(
                        self.chain_id.text(),
                        info1.height.rev(),
                    ) {
                        Some(
                            ClientError::ClientSpecific {
                                cause: Error::MisbehaviourHeadersChainIdMismatch {
                                    header_chain_id: info1.chain_id,
                                    chain_id: self.chain_id.id_string(),
                                },
                            },
                        )
                    } else {
                        match ctx.host_timestamp_of() {
                            Err(e) => Some(e),
                            Ok(now) => if let Some(e) = self.header_fault(header1, &state1, now) {
                                Some(e)
                            } else if let Some(e) = self.header_fault(header2, &state2, now) {
                                Some(e)
                            } else if let Some(e) = self.check_fault(
                                Check::CommitAgainstTrusted,
                                header1,
                                &state1,
                                now,
                            ) {
                                Some(e)
                            } else {
                                self.check_fault(
                                    Check::CommitAgainstTrusted,
                                    header2,
                                    &state2,
                                    now,
                                )
                            },
                        }
                    },
                }
            },
        }
    }

    /// The client frozen by misbehaviour: frozen from the first block on.
    pub open spec fn frozen_by_misbehaviour(&self) -> ClientState {
        ClientState { frozen_height: Some(Height::of(0, 1)), ..*self }
    }

    /// Checks a report of misbehaviour and freezes the client where the
    /// report holds.
    pub fn check_misbehaviour<Ctx: ClientReader>(
        &self,
        ctx: &Ctx,
        client_id: &ClientId,
        misbehaviour: &Misbehaviour,
    ) -> (r: Result<AnyClientState, ClientError>)
        ensures
            match self.misbehaviour_fault(
                ctx,
                client_id,
                &misbehaviour.header1,
                &misbehaviour.header2,
            ) {
                Some(e) => r == Err::<AnyClientState, ClientError>(e),
                None => r matches Ok(AnyClientState::Tendermint(cs)) && cs@
                    == self.frozen_by_misbehaviour()@,
            },
    {
        let header1 = misbehaviour.header1();
        let header2 = misbehaviour.header2();
        let info1 = match header1.info() {
            Ok(info) => info,
            Err(cause) => {
                return Err(ClientError::ClientSpecific { cause });
            },
        };
        let info2 = match header2.info() {
            Ok(info) => info,
            Err(cause) => {
                return Err(ClientError::ClientSpecific { cause });
            },
        };
        if info1.height == info2.height {
            if bytes_equal(info1.commit_hash.as_slice(), info2.commit_hash.as_slice()) {
                return Err(
                    ClientError::ClientSpecific {
                        cause: Error::MisbehaviourHeadersBlockHashesEqual,
                    },
                );
            }
        } else if info1.time.nanoseconds() > info2.time.nanoseconds() {
            return Err(
                ClientError::ClientSpecific { cause: Error::MisbehaviourHeadersNotAtSameHeight },
            );
        }
        let answer1 = ctx.consensus_state(client_id, &header1.trusted_height);
        let answer2 = ctx.consensus_state(client_id, &header2.trusted_height);
        let state1 = match answer1 {
            Ok(AnyConsensusState::Tendermint(cs)) => cs,
            Ok(_) => {
                return Err(
                    ClientError::ClientArgsTypeMismatch { client_type: ClientType::Tendermint },
                );
            },
            Err(e) => {
                return Err(e);
            },
        };
        let state2 = match answer2 {
            Ok(AnyConsensusState::Tendermint(cs)) => cs,
            Ok(_) => {
                return Err(
                    ClientError::ClientArgsTypeMismatch { client_type: ClientType::Tendermint },
                );
            },
            Err(e) => {
                return Err(e);
            },
        };
        let chain_id = self.chain_id.clone().with_version(info1.height.revision_number());
        if !same_text(info1.chain_id.as_str(), chain_id.as_str()) {
            return Err(
                ClientError::ClientSpecific {
                    cause: Error::MisbehaviourHeadersChainIdMismatch {
                        header_chain_id: info1.chain_id,
                        chain_id: self.chain_id.to_id_string(),
                    },
                },
            );
        }
        let current_timestamp = ctx.host_timestamp()?;
        self.check_header_and_validator_set(header1, &state1, current_timestamp)?;
        self.check_header_and_validator_set(header2, &state2, current_timestamp)?;
        self.verify_header_commit_against_trusted(header1, &state1, current_timestamp)?;
        self.verify_header_commit_against_trusted(header2, &state2, current_timestamp)?;
        let frozen = match Height::new(0, 1) {
            Ok(h) => h,
            Err(e) => {
                return Err(e);
            },
        };
        Ok(AnyClientState::Tendermint(self.clone().with_frozen_height(frozen)))
    }

    /// `r` is what an encoded report of misbehaviour gives: the error of a
    /// message of another type, the error of the decoding, the error of
    /// [`ClientState::misbehaviour_fault`], or the client frozen from the
    /// first block on.
    pub open spec fn reported<Ctx: ClientReader>(
        &self,
        ctx: &Ctx,
        client_id: &ClientId,
        misbehaviour: &Any,
        r: Result<AnyClientState, ClientError>,
    ) -> bool {
        if misbehaviour.type_url@ != TENDERMINT_MISBEHAVIOUR_TYPE_URL@ {
            r == Err::<AnyClientState, ClientError>(
                ClientError::UnknownMisbehaviourType { misbehaviour_type: misbehaviour.type_url },
            )
        } else {
            match report_headers(misbehaviour.value@) {
                Err(cause) => r == Err::<AnyClientState, ClientError>(
                    ClientError::ClientSpecific { cause },
                ),
                Ok((header1, header2)) => match self.misbehaviour_fault(
                    ctx,
                    client_id,
                    &header1,
                    &header2,
                ) {
                    Some(e) => r == Err::<AnyClientState, ClientError>(e),
                    None => r matches Ok(AnyClientState::Tendermint(cs)) && cs@
                        == self.frozen_by_misbehaviour()@,
                },
            }
        }
    }

    /// Checks an encoded report of misbehaviour and freezes the client
    /// where the report holds.
    pub fn check_misbehaviour_and_update_state<Ctx: ClientReader>(
        &self,
        ctx: &Ctx,
        client_id: ClientId,
        misbehaviour: Any,
    ) -> (r: Result<AnyClientState, ClientError>)
        ensures
            self.reported(ctx, &client_id, &misbehaviour, r),
    {
        if !same_text(misbehaviour.type_url.as_str(), TENDERMINT_MISBEHAVIOUR_TYPE_URL) {
            return Err(
                ClientError::UnknownMisbehaviourType { misbehaviour_type: misbehaviour.type_url },
            );
        }
        match Misbehaviour::decode(misbehaviour.value.as_slice()) {
            Err(cause) => Err(ClientError::ClientSpecific { cause }),
            Ok(m) => self.check_misbehaviour(ctx, &client_id, &m),
        }
    }
}

} // verus!

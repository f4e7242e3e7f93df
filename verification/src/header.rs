//! Tendermint headers as a relayer submits them, and what the client reads
//! from them.

use vstd::prelude::*;
use vstd::string::*;
use crate::commitment::CommitmentRoot;
use crate::consensus_state::ConsensusState;
use crate::error::{ClientError, Error};
use crate::height::Height;
use crate::identifier::{chain_version_of, ChainId};
use crate::text::same_text;
use crate::timestamp::Timestamp;

verus! {

broadcast use {
    crate::height::Height::lemma_parts,
    crate::height::Height::lemma_of,
    crate::timestamp::Timestamp::lemma_parts,
    crate::timestamp::Timestamp::lemma_of,
};

/// The type URL of an encoded Tendermint header.
pub const TENDERMINT_HEADER_TYPE_URL: &'static str = "/ibc.lightclients.tendermint.v1.Header";

/// The signed header of `tendermint`: it is carried through as it is.
#[verifier::external_type_specification]
#[verifier::external_body]
pub struct ExSignedHeader(tendermint::block::signed_header::SignedHeader);

/// The validator set of `tendermint`: it is carried through as it is.
#[verifier::external_type_specification]
#[verifier::external_body]
pub struct ExValidatorSet(tendermint::validator::Set);

/// A message of any kind in its encoded form, with the URL of its type.
#[derive(Clone, Debug, PartialEq, Eq)]
pub struct Any {
    pub type_url: String,
    pub value: Vec<u8>,
}

/// A header of the counterparty chain with what is needed to verify it: the
/// validators that signed it, and the height and the validators of the
/// consensus state that the relayer asks the client to trust it from.
#[derive(Debug, PartialEq, Eq)]
pub struct Header {
    pub signed_header: tendermint::block::signed_header::SignedHeader,
    pub validator_set: tendermint::validator::Set,
    pub trusted_height: Height,
    pub trusted_validator_set: tendermint::validator::Set,
}

/// The parts of an encoded header, before the trusted height is checked.
pub struct DecodedHeader {
    pub signed_header: tendermint::block::signed_header::SignedHeader,
    pub validator_set: tendermint::validator::Set,
    pub trusted_revision_number: u64,
    pub trusted_revision_height: u64,
    pub trusted_validator_set: tendermint::validator::Set,
}

/// What the client reads in a signed header.
pub struct HeaderSummary {
    pub chain_id: String,
    pub height: u64,
    pub time_nanos: i128,
    pub app_hash: Vec<u8>,
    pub next_validators_hash: Vec<u8>,
    pub commit_hash: Vec<u8>,
}

/// The signed header of `tendermint_proto`, as `prost` decodes it: it is
/// carried through as it is.
#[verifier::external_type_specification]
#[verifier::external_body]
pub struct ExRawSignedHeader(tendermint_proto::types::SignedHeader);

/// The validator set of `tendermint_proto`, as `prost` decodes it: it is
/// carried through as it is.
#[verifier::external_type_specification]
#[verifier::external_body]
pub struct ExRawValidatorSet(tendermint_proto::types::ValidatorSet);

/// The fields of an encoded header as they were decoded, none of them
/// checked: the trusted height as its revision and its block number.
pub struct RawHeader {
    pub signed_header: Option<tendermint_proto::types::SignedHeader>,
    pub validator_set: Option<tendermint_proto::types::ValidatorSet>,
    pub trusted_height: Option<(u64, u64)>,
    pub trusted_validators: Option<tendermint_proto::types::ValidatorSet>,
}

/// The fields that header bytes decode to, if they decode.
pub uninterp spec fn raw_header(bytes: Seq<u8>) -> Option<RawHeader>;

/// The voting powers of the validators of a decoded set, in their order.
pub uninterp spec fn raw_voting_powers(set: tendermint_proto::types::ValidatorSet) -> Seq<i64>;

/// The signed header that `tendermint` makes of a decoded one, if any.
pub uninterp spec fn signed_header_of(
    signed: tendermint_proto::types::SignedHeader,
) -> Option<tendermint::block::signed_header::SignedHeader>;

/// The validator set that `tendermint` makes of a decoded one, if any.
pub uninterp spec fn validator_set_of(
    set: tendermint_proto::types::ValidatorSet,
) -> Option<tendermint::validator::Set>;

/// What a header holds.
pub uninterp spec fn header_summary(header: Header) -> HeaderSummary;

/// The hash of the trusted validators of a header.
pub uninterp spec fn trusted_validators_hash(header: Header) -> Seq<u8>;

/// Decodes a header with `prost`, as `ibc_proto` describes it, and hands
/// out its four fields as they are.
#[verifier::external_body]
fn split_header(bytes: &[u8]) -> (r: Option<RawHeader>)
    ensures
        r == raw_header(bytes@),
{
    let raw: ibc_proto::ibc::lightclients::tendermint::v1::Header =
        prost::Message::decode(bytes).ok()?;
    Some(RawHeader {
        signed_header: raw.signed_header,
        validator_set: raw.validator_set,
        trusted_height: raw.trusted_height.map(|h| (h.revision_number, h.revision_height)),
        trusted_validators: raw.trusted_validators,
    })
}

/// Reads the voting power of each validator of a decoded set.
#[verifier::external_body]
fn read_voting_powers(set: &tendermint_proto::types::ValidatorSet) -> (r: Vec<i64>)
    ensures
        r@ == raw_voting_powers(*set),
{
    set.validators.iter().map(|v| v.voting_power).collect()
}

/// Turns a decoded signed header into `tendermint`'s, which checks it
/// field by field.
#[verifier::external_body]
fn convert_signed_header(signed: tendermint_proto::types::SignedHeader) -> (r: Option<
    tendermint::block::signed_header::SignedHeader,
>)
    ensures
        r == signed_header_of(signed),
{
    tendermint::block::signed_header::SignedHeader::try_from(signed).ok()
}

/// Turns a decoded validator set into `tendermint`'s, which checks each
/// validator and adds the voting powers up. The powers fit: `tendermint` adds
/// them as unsigned 64-bit numbers and takes the sum for a voting power,
/// which is at most `i64::MAX`.
#[verifier::external_body]
fn convert_validator_set(set: tendermint_proto::types::ValidatorSet) -> (r: Option<
    tendermint::validator::Set,
>)
    requires
        powers_fit(raw_voting_powers(set)),
    ensures
        r == validator_set_of(set),
{
    tendermint::validator::Set::try_from(set).ok()
}

/// The sum of voting powers.
pub open spec fn powers_sum(powers: Seq<i64>) -> int
    decreases powers.len(),
{
    if powers.len() == 0 {
        0
    } else {
        powers_sum(powers.drop_last()) + powers.last()
    }
}

/// Voting powers fit: none is negative, and their sum is a voting power,
/// at most `i64::MAX`.
pub open spec fn powers_fit(powers: Seq<i64>) -> bool {
    &&& forall|i: int| 0 <= i < powers.len() ==> powers[i] >= 0
    &&& powers_sum(powers) <= i64::MAX
}

/// The sum of the first powers is at most the sum of all, where none is
/// negative.
proof fn lemma_powers_sum_grows(powers: Seq<i64>, k: int)
    requires
        forall|i: int| 0 <= i < powers.len() ==> powers[i] >= 0,
        0 <= k <= powers.len(),
    ensures
        0 <= powers_sum(powers.take(k)) <= powers_sum(powers),
    decreases powers.len(),
{
    if k == powers.len() {
        assert(powers.take(k) =~= powers);
        if powers.len() > 0 {
            lemma_powers_sum_grows(powers.drop_last(), k - 1);
            assert(powers.drop_last().take(k - 1) =~= powers.drop_last());
        }
    } else {
        lemma_powers_sum_grows(powers.drop_last(), k);
        assert(powers.drop_last().take(k) =~= powers.take(k));
    }
}

/// Whether voting powers fit.
pub fn do_powers_fit(powers: &Vec<i64>) -> (r: bool)
    ensures
        r == powers_fit(powers@),
{
    let mut total: i64 = 0;
    let mut i: usize = 0;
    while i < powers.len()
        invariant
            i <= powers@.len(),
            forall|j: int| 0 <= j < i ==> powers@[j] >= 0,
            0 <= total,
            total == powers_sum(powers@.take(i as int)),
        decreases powers@.len() - i,
    {
        let power: i64 = powers[i];
        proof {
            assert(powers@.take(i + 1).drop_last() =~= powers@.take(i as int));
            assert(powers@.take(i + 1).last() == power);
        }
        if power < 0 {
            return false;
        }
        if power > i64::MAX - total {
            proof {
                if powers_fit(powers@) {
                    lemma_powers_sum_grows(powers@, i + 1);
                }
            }
            return false;
        }
        total = total + power;
        i += 1;
    }
    proof {
        assert(powers@.take(i as int) =~= powers@);
    }
    true
}

/// The validator set that `tendermint` makes of a decoded one, or why
/// there is none: the field was missing, the voting powers do not fit, or
/// `tendermint` refuses the set.
pub open spec fn converted_set(
    set: Option<tendermint_proto::types::ValidatorSet>,
    missing: Error,
) -> Result<tendermint::validator::Set, Error> {
    match set {
        None => Err(missing),
        Some(set) => if !powers_fit(raw_voting_powers(set)) {
            Err(Error::InvalidRawHeader)
        } else {
            match validator_set_of(set) {
                None => Err(Error::InvalidRawHeader),
                Some(validators) => Ok(validators),
            }
        },
    }
}

/// The parts that the decoded fields make up, or the first thing that is
/// wrong with the fields, in their order: a field is missing, or `tendermint`
/// refuses it, or the trusted height is zero.
pub open spec fn parts_of_raw(raw: RawHeader) -> Result<DecodedHeader, Error> {
    match raw.signed_header {
        None => Err(Error::MissingSignedHeader),
        Some(signed) => match signed_header_of(signed) {
            None => Err(Error::InvalidRawHeader),
            Some(signed_header) => match converted_set(
                raw.validator_set,
                Error::MissingValidatorSet,
            ) {
                Err(e) => Err(e),
                Ok(validator_set) => match raw.trusted_height {
                    None => Err(Error::MissingTrustedHeight),
                    Some(height) => if height.1 == 0 {
                        Err(Error::MissingTrustedHeight)
                    } else {
                        match converted_set(
                            raw.trusted_validators,
                            Error::MissingTrustedValidatorSet,
                        ) {
                            Err(e) => Err(e),
                            Ok(trusted_validator_set) => Ok(
                                DecodedHeader {
                                    signed_header,
                                    validator_set,
                                    trusted_revision_number: height.0,
                                    trusted_revision_height: height.1,
                                    trusted_validator_set,
                                },
                            ),
                        }
                    },
                },
            },
        },
    }
}

/// The validator set that `tendermint` makes of a decoded one, once its
/// voting powers were found to fit.
fn convert_set(set: Option<tendermint_proto::types::ValidatorSet>, missing: Error) -> (r: Result<
    tendermint::validator::Set,
    Error,
>)
    ensures
        r == converted_set(set, missing),
{
    match set {
        None => Err(missing),
        Some(set) => {
            let powers = read_voting_powers(&set);
            if !do_powers_fit(&powers) {
                return Err(Error::InvalidRawHeader);
            }
            match convert_validator_set(set) {
                None => Err(Error::InvalidRawHeader),
                Some(validators) => Ok(validators),
            }
        },
    }
}

/// The parts that the decoded fields make up.
fn convert_parts(raw: RawHeader) -> (r: Result<DecodedHeader, Error>)
    ensures
        r == parts_of_raw(raw),
{
    let RawHeader { signed_header, validator_set, trusted_height, trusted_validators } = raw;
    let signed_header = match signed_header {
        None => {
            return Err(Error::MissingSignedHeader);
        },
        Some(signed) => match convert_signed_header(signed) {
            None => {
                return Err(Error::InvalidRawHeader);
            },
            Some(signed_header) => signed_header,
        },
    };
    let validator_set = convert_set(validator_set, Error::MissingValidatorSet)?;
    let height = match trusted_height {
        None => {
            return Err(Error::MissingTrustedHeight);
        },
        Some(height) => height,
    };
    if height.1 == 0 {
        return Err(Error::MissingTrustedHeight);
    }
    let trusted_validator_set = convert_set(trusted_validators, Error::MissingTrustedValidatorSet)?;
    Ok(
        DecodedHeader {
            signed_header,
            validator_set,
            trusted_revision_number: height.0,
            trusted_revision_height: height.1,
            trusted_validator_set,
        },
    )
}

/// Reads the fields of the `tendermint` header and commit that the client
/// works with: the chain identifier, the height, the time in nanoseconds since
/// the Unix epoch, the application hash, the hash of the next validators, and
/// the block hash that the commit signs.
#[verifier::external_body]
fn read_header(header: &Header) -> (r: HeaderSummary)
    ensures
        r == header_summary(*header),
{
    let h = &header.signed_header.header;
    HeaderSummary {
        chain_id: h.chain_id.to_string(),
        height: h.height.value(),
        time_nanos: h.time.unix_timestamp_nanos(),
        app_hash: h.app_hash.as_bytes().to_vec(),
        next_validators_hash: h.next_validators_hash.as_bytes().to_vec(),
        commit_hash: header.signed_header.commit.block_id.hash.as_bytes().to_vec(),
    }
}

/// Hashes the trusted validators of a header with
/// `tendermint::validator::Set::hash`.
#[verifier::external_body]
fn hash_trusted_validators(header: &Header) -> (r: Vec<u8>)
    ensures
        r@ == trusted_validators_hash(*header),
{
    header.trusted_validator_set.hash().as_bytes().to_vec()
}

/// A header as plain values: what the update and misbehaviour flows decide
/// on.
#[derive(Clone, Debug, PartialEq, Eq)]
pub struct HeaderInfo {
    pub chain_id: String,
    pub height: Height,
    pub trusted_height: Height,
    pub time: Timestamp,
    pub app_hash: Vec<u8>,
    pub next_validators_hash: Vec<u8>,
    pub commit_hash: Vec<u8>,
}

/// The plain values of a header with this summary and trusted height, or
/// why it has none: its block number is zero, or its time is not after the
/// Unix epoch or too late to count in nanoseconds.
pub open spec fn header_info(summary: HeaderSummary, trusted_height: Height) -> Result<
    HeaderInfo,
    Error,
> {
    if summary.height == 0 {
        Err(Error::InvalidHeaderHeight { height: 0 })
    } else if summary.time_nanos <= 0 || summary.time_nanos > u64::MAX {
        Err(Error::InvalidHeaderTime)
    } else {
        Ok(
            HeaderInfo {
                chain_id: summary.chain_id,
                height: Height::of(
                    chain_version_of(vstd::utf8::encode_utf8(summary.chain_id@)),
                    summary.height,
                ),
                trusted_height,
                time: Timestamp::of(summary.time_nanos as u64),
                app_hash: summary.app_hash,
                next_validators_hash: summary.next_validators_hash,
                commit_hash: summary.commit_hash,
            },
        )
    }
}

/// The header that the parts make up, or why they make none: the trusted
/// height is zero, the header has no plain values, or it belongs to another
/// revision than its trusted height.
pub open spec fn header_of_parts(parts: DecodedHeader) -> Result<Header, Error> {
    let header = Header {
        signed_header: parts.signed_header,
        validator_set: parts.validator_set,
        trusted_height: Height::of(parts.trusted_revision_number, parts.trusted_revision_height),
        trusted_validator_set: parts.trusted_validator_set,
    };
    if parts.trusted_revision_height == 0 {
        Err(Error::MissingTrustedHeight)
    } else {
        match header_info(header_summary(header), header.trusted_height) {
            Err(e) => Err(e),
            Ok(info) => if info.height.rev() != parts.trusted_revision_number {
                Err(
                    Error::MismatchedRevisions {
                        current_revision: parts.trusted_revision_number,
                        update_revision: info.height.rev(),
                    },
                )
            } else {
                Ok(header)
            },
        }
    }
}

/// What header bytes decode to: the header that their fields make up, or
/// why there is none.
pub open spec fn header_of_bytes(bytes: Seq<u8>) -> Result<Header, Error> {
    match raw_header(bytes) {
        None => Err(Error::Decode),
        Some(raw) => match parts_of_raw(raw) {
            Err(e) => Err(e),
            Ok(parts) => header_of_parts(parts),
        },
    }
}

impl Header {
    /// The plain values of the header.
    pub open spec fn spec_info(&self) -> Result<HeaderInfo, Error> {
        header_info(header_summary(*self), self.trusted_height)
    }

    /// The plain values of the header: the chain identifier, the height in
    /// the revision that the chain identifier carries, the time, and the
    /// hashes.
    pub fn info(&self) -> (r: Result<HeaderInfo, Error>)
        ensures
            r == self.spec_info(),
    {
        let summary = read_header(self);
        if summary.height == 0 {
            return Err(Error::InvalidHeaderHeight { height: 0 });
        }
        if summary.time_nanos <= 0 || summary.time_nanos > u64::MAX as i128 {
            return Err(Error::InvalidHeaderTime);
        }
        let revision = ChainId::chain_version(summary.chain_id.as_str());
        let height = match Height::new(revision, summary.height) {
            Ok(h) => h,
            Err(_) => {
                return Err(Error::InvalidHeaderHeight { height: 0 });
            },
        };
        let time = match Timestamp::from_nanoseconds(summary.time_nanos as u64) {
            Ok(t) => t,
            Err(_) => {
                return Err(Error::InvalidHeaderTime);
            },
        };
        Ok(
            HeaderInfo {
                chain_id: summary.chain_id,
                height,
                trusted_height: self.trusted_height,
                time,
                app_hash: summary.app_hash,
                next_validators_hash: summary.next_validators_hash,
                commit_hash: summary.commit_hash,
            },
        )
    }

    /// The hash of the trusted validators, as `tendermint` computes it.
    pub fn trusted_validators_hash(&self) -> (r: Vec<u8>)
        ensures
            r@ == trusted_validators_hash(*self),
    {
        hash_trusted_validators(self)
    }

    /// The header that the bytes encode.
    pub fn decode(bytes: &[u8]) -> (r: Result<Header, Error>)
        ensures
            r == header_of_bytes(bytes@),
    {
        let raw = match split_header(bytes) {
            Some(raw) => raw,
            None => {
                return Err(Error::Decode);
            },
        };
        let parts = convert_parts(raw)?;
        Header::from_parts(parts)
    }

    /// The header that the parts make up.
    pub fn from_parts(parts: DecodedHeader) -> (r: Result<Header, Error>)
        ensures
            r == header_of_parts(parts),
    {
        let trusted_revision = parts.trusted_revision_number;
        let trusted_height = match Height::new(
            parts.trusted_revision_number,
            parts.trusted_revision_height,
        ) {
            Ok(h) => h,
            Err(_) => {
                return Err(Error::MissingTrustedHeight);
            },
        };
        let header = Header {
            signed_header: parts.signed_header,
            validator_set: parts.validator_set,
            trusted_height,
            trusted_validator_set: parts.trusted_validator_set,
        };
        let info = header.info()?;
        if info.height.revision_number() != trusted_revision {
            return Err(
                Error::MismatchedRevisions {
                    current_revision: trusted_revision,
                    update_revision: info.height.revision_number(),
                },
            );
        }
        Ok(header)
    }

    /// The header in an encoded message, which must be of the type of
    /// Tendermint headers.
    pub fn try_from_any(raw: Any) -> (r: Result<Header, ClientError>)
        ensures
            raw.type_url@ != TENDERMINT_HEADER_TYPE_URL@ ==> r == Err::<Header, ClientError>(
                ClientError::UnknownHeaderType { header_type: raw.type_url },
            ),
            raw.type_url@ == TENDERMINT_HEADER_TYPE_URL@ ==> match header_of_bytes(raw.value@) {
                Ok(header) => r == Ok::<Header, ClientError>(header),
                Err(cause) => r == Err::<Header, ClientError>(
                    ClientError::ClientSpecific { cause },
                ),
            },
    {
        if !same_text(raw.type_url.as_str(), TENDERMINT_HEADER_TYPE_URL) {
            return Err(ClientError::UnknownHeaderType { header_type: raw.type_url });
        }
        match Header::decode(raw.value.as_slice()) {
            Ok(header) => Ok(header),
            Err(cause) => Err(ClientError::ClientSpecific { cause }),
        }
    }
}

impl HeaderInfo {
    /// The consensus state that the header leaves behind once it is
    /// verified.
    pub open spec fn spec_consensus_state(&self) -> ConsensusState {
        ConsensusState {
            timestamp: self.time,
            root: CommitmentRoot::of(self.app_hash),
            next_validators_hash: self.next_validators_hash,
        }
    }

    /// The consensus state that the header leaves behind once it is
    /// verified: its time, its application hash as the root, and the hash of
    /// the next validators.
    pub fn into_consensus_state(self) -> (r: ConsensusState)
        ensures
            r == self.spec_consensus_state(),
    {
        ConsensusState {
            timestamp: self.time,
            root: CommitmentRoot::from(self.app_hash),
            next_validators_hash: self.next_validators_hash,
        }
    }
}

} // verus!

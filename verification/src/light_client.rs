//! The Tendermint light-client verifier: handing it plain values and
//! reading its verdict.

use vstd::prelude::*;
use tendermint::trust_threshold::TrustThresholdFraction;
use tendermint::Time;
use tendermint_light_client_verifier::types::{TrustedBlockState, UntrustedBlockState};
use tendermint_light_client_verifier::{ProdVerifier, Verdict as Outcome, Verifier};
use crate::client_state::LightClientOptions;
use crate::consensus_state::ConsensusState;
use crate::error::Error;
use crate::header::Header;
use crate::height::Height;
use crate::identifier::ChainId;
use crate::timestamp::{Duration, Timestamp, NANOS_PER_SEC};
use crate::trust_threshold::fraction_accepted;

verus! {

broadcast use {
    crate::height::Height::lemma_parts,
    crate::height::Height::lemma_of,
    crate::timestamp::Timestamp::lemma_parts,
    crate::timestamp::Timestamp::lemma_of,
};

/// The chain identifier of `tendermint`: it is carried through as it is.
#[verifier::external_type_specification]
#[verifier::external_body]
pub struct ExChainId(tendermint::chain::Id);

/// The hash of `tendermint`: it is carried through as it is.
#[verifier::external_type_specification]
#[verifier::external_body]
pub struct ExHash(tendermint::Hash);

/// The parameters of the verifier: they are carried through as they are.
#[verifier::external_type_specification]
#[verifier::external_body]
pub struct ExOptions(tendermint_light_client_verifier::options::Options);

/// What the verifier says of a header.
#[derive(Clone, Debug, PartialEq, Eq)]
pub enum Verdict {
    /// The header is valid and can be trusted.
    Success,
    /// Too little of the trusted voting power signed the header; the text
    /// is the verifier's tally.
    NotEnoughTrust(String),
    /// The header is invalid; the text is the verifier's reason.
    Invalid(String),
}

/// The trusted checkpoint, the parameters and the time that a verification
/// runs with, as plain values.
#[derive(Clone, Debug, PartialEq, Eq)]
pub struct VerifierInput {
    pub chain_id: String,
    pub trusted_height: u64,
    pub trusted_secs: i64,
    pub trusted_nanos: u32,
    pub next_validators_hash: Vec<u8>,
    pub trust_numerator: u64,
    pub trust_denominator: u64,
    pub trusting_period_secs: u64,
    pub trusting_period_nanos: u32,
    pub clock_drift_secs: u64,
    pub clock_drift_nanos: u32,
    pub now_secs: i64,
    pub now_nanos: u32,
}

/// The input of a verification as plain values.
pub struct VerifierInputView {
    pub chain_id: Seq<char>,
    pub trusted_height: u64,
    pub trusted_secs: i64,
    pub trusted_nanos: u32,
    pub next_validators_hash: Seq<u8>,
    pub trust_numerator: u64,
    pub trust_denominator: u64,
    pub trusting_period_secs: u64,
    pub trusting_period_nanos: u32,
    pub clock_drift_secs: u64,
    pub clock_drift_nanos: u32,
    pub now_secs: i64,
    pub now_nanos: u32,
}

impl View for VerifierInput {
    type V = VerifierInputView;

    open spec fn view(&self) -> VerifierInputView {
        VerifierInputView {
            chain_id: self.chain_id@,
            trusted_height: self.trusted_height,
            trusted_secs: self.trusted_secs,
            trusted_nanos: self.trusted_nanos,
            next_validators_hash: self.next_validators_hash@,
            trust_numerator: self.trust_numerator,
            trust_denominator: self.trust_denominator,
            trusting_period_secs: self.trusting_period_secs,
            trusting_period_nanos: self.trusting_period_nanos,
            clock_drift_secs: self.clock_drift_secs,
            clock_drift_nanos: self.clock_drift_nanos,
            now_secs: self.now_secs,
            now_nanos: self.now_nanos,
        }
    }
}

impl VerifierInput {
    /// The values are in the ranges in which the outside constructors may
    /// be called.
    pub open spec fn wf(&self) -> bool {
        &&& 3 * self.trust_numerator <= u64::MAX
        &&& self.trusting_period_nanos < NANOS_PER_SEC
        &&& self.clock_drift_nanos < NANOS_PER_SEC
    }
}

/// A character that `tendermint` takes in a chain identifier: a letter or
/// a digit of ASCII, a hyphen, an underscore or a full stop.
pub open spec fn chain_id_char(c: char) -> bool {
    let code = c as u32;
    ||| 0x61 <= code <= 0x7a
    ||| 0x41 <= code <= 0x5a
    ||| 0x30 <= code <= 0x39
    ||| code == 0x2d
    ||| code == 0x5f
    ||| code == 0x2e
}

/// What the outside constructors take: a chain identifier of one to fifty
/// characters that `tendermint` takes, a hash of 32 bytes or none, and a
/// trust threshold between one third and one.
pub open spec fn input_accepted(input: VerifierInputView) -> bool {
    &&& 1 <= input.chain_id.len() <= 50
    &&& forall|k: int| 0 <= k < input.chain_id.len() ==> chain_id_char(#[trigger] input.chain_id[k])
    &&& (input.next_validators_hash.len() == 0 || input.next_validators_hash.len() == 32)
    &&& fraction_accepted(input.trust_numerator, input.trust_denominator)
}

/// The same values with the chain identifier, the hash and the parameters
/// in the types of `tendermint` and of its verifier.
pub struct VerifierArgs {
    pub chain_id: tendermint::chain::Id,
    pub trusted_height: u64,
    pub trusted_secs: i64,
    pub trusted_nanos: u32,
    pub trusted_hash: tendermint::Hash,
    pub options: tendermint_light_client_verifier::options::Options,
    pub now_secs: i64,
    pub now_nanos: u32,
}

/// The largest number of whole seconds in a timestamp.
pub open spec fn max_timestamp_secs() -> int {
    18_446_744_073
}

impl VerifierArgs {
    /// The trusted height can be incremented, and both times are times
    /// that a timestamp can hold.
    pub open spec fn wf(&self) -> bool {
        &&& self.trusted_height < i64::MAX
        &&& 0 <= self.trusted_secs <= max_timestamp_secs()
        &&& self.trusted_nanos < NANOS_PER_SEC
        &&& 0 <= self.now_secs <= max_timestamp_secs()
        &&& self.now_nanos < NANOS_PER_SEC
    }
}

/// The outside values that plain values convert to, where all of them do.
pub uninterp spec fn verifier_args_of(input: VerifierInputView) -> Option<VerifierArgs>;

/// The trust threshold that parameters of the verifier hold, as its
/// numerator and its denominator.
pub uninterp spec fn threshold_of(
    options: tendermint_light_client_verifier::options::Options,
) -> (u64, u64);

/// What the verifier counts when it tallies the votes for a header: the
/// voting power of each validator of the header and of each trusted
/// validator, and the number of signatures in the commit.
pub struct VotingPowers {
    pub validators: Vec<u64>,
    pub trusted_validators: Vec<u64>,
    pub signatures: usize,
}

/// What the verifier counts for a header.
pub uninterp spec fn voting_powers(header: Header) -> VotingPowers;

/// The sum of voting powers.
pub open spec fn total_power(powers: Seq<u64>) -> int
    decreases powers.len(),
{
    if powers.len() == 0 {
        0
    } else {
        total_power(powers.drop_last()) + powers.last()
    }
}

/// The verifier can tally the votes within 64 bits: it numbers the
/// signatures in 32 bits, holds three times the voting power of the header's
/// validators against twice their total, and the trusted voting power times
/// the denominator of the trust threshold against the total times the
/// numerator.
pub open spec fn tally_fits(powers: VotingPowers, denominator: u64) -> bool {
    &&& powers.signatures <= u32::MAX
    &&& 3 * total_power(powers.validators@) <= u64::MAX
    &&& total_power(powers.trusted_validators@) <= u64::MAX
    &&& total_power(powers.trusted_validators@) * denominator <= u64::MAX
}

/// The sum of the first powers is at most the sum of all.
proof fn lemma_total_power_grows(powers: Seq<u64>, k: int)
    requires
        0 <= k <= powers.len(),
    ensures
        0 <= total_power(powers.take(k)) <= total_power(powers),
    decreases powers.len(),
{
    if k == powers.len() {
        assert(powers.take(k) =~= powers);
        if powers.len() > 0 {
            lemma_total_power_grows(powers.drop_last(), k - 1);
            assert(powers.drop_last().take(k - 1) =~= powers.drop_last());
        }
    } else {
        lemma_total_power_grows(powers.drop_last(), k);
        assert(powers.drop_last().take(k) =~= powers.take(k));
    }
}

/// The sum of voting powers, where it fits in 64 bits.
pub fn sum_powers(powers: &Vec<u64>) -> (r: Option<u64>)
    ensures
        r matches Some(total) ==> total == total_power(powers@),
        r.is_none() ==> total_power(powers@) > u64::MAX,
{
    let mut total: u64 = 0;
    let mut i: usize = 0;
    while i < powers.len()
        invariant
            i <= powers@.len(),
            total == total_power(powers@.take(i as int)),
        decreases powers@.len() - i,
    {
        let power: u64 = powers[i];
        proof {
            assert(powers@.take(i + 1).drop_last() =~= powers@.take(i as int));
            assert(powers@.take(i + 1).last() == power);
        }
        if power > u64::MAX - total {
            proof {
                lemma_total_power_grows(powers@, i + 1);
            }
            return None;
        }
        total = total + power;
        i += 1;
    }
    proof {
        assert(powers@.take(i as int) =~= powers@);
    }
    Some(total)
}

/// Whether the verifier can tally the votes within 64 bits.
pub fn do_tally_fits(powers: &VotingPowers, denominator: u64) -> (r: bool)
    ensures
        r == tally_fits(*powers, denominator),
{
    if powers.signatures > u32::MAX as usize {
        return false;
    }
    let total = match sum_powers(&powers.validators) {
        Some(total) => total,
        None => {
            return false;
        },
    };
    if total > u64::MAX / 3 {
        return false;
    }
    let trusted = match sum_powers(&powers.trusted_validators) {
        Some(trusted) => trusted,
        None => {
            return false;
        },
    };
    proof {
        assert(0 <= trusted * denominator <= u64::MAX * u64::MAX) by (nonlinear_arith)
            requires
                0 <= trusted <= u64::MAX,
                0 <= denominator <= u64::MAX,
        ;
    }
    (trusted as u128) * (denominator as u128) <= u64::MAX as u128
}

/// Reads what the verifier counts: `Info::power` of each validator of both
/// sets of the header, and the length of the commit's list of signatures.
#[verifier::external_body]
fn read_powers(h: &Header) -> (r: VotingPowers)
    ensures
        r == voting_powers(*h),
{
    VotingPowers {
        validators: h.validator_set.validators().iter().map(|v| v.power()).collect(),
        trusted_validators: h.trusted_validator_set.validators().iter().map(|v| v.power()).collect(),
        signatures: h.signed_header.commit.signatures.len(),
    }
}

/// The verdict of the full verification of a header.
pub uninterp spec fn update_verdict(header: Header, args: VerifierArgs) -> Verdict;

/// The verdict of the time and height checks of a header against its
/// trusted checkpoint.
pub uninterp spec fn validation_verdict(header: Header, args: VerifierArgs) -> Verdict;

/// The verdict of the check that enough trusted voting power signed a
/// header.
pub uninterp spec fn commit_verdict(header: Header, args: VerifierArgs) -> Verdict;

/// Converts plain values with the constructors of `tendermint`: the chain
/// identifier by parsing, the hash from its bytes, the trust threshold from
/// its fraction, the two periods from seconds and nanoseconds. The result is
/// what they give, with the height and the times as they were and the trust
/// threshold of the fraction, and nothing where one of them refuses its
/// input: `tendermint::chain::Id` an identifier that is empty, longer than
/// 50 bytes or holds another byte than it takes, `tendermint::Hash` a length
/// other than 0 and 32, and `TrustThresholdFraction::new` a fraction
/// outside of `1/3 <= n/d <= 1`.
#[verifier::external_body]
fn verifier_args(i: &VerifierInput) -> (r: Option<VerifierArgs>)
    requires
        i.wf(),
    ensures
        r == verifier_args_of(i@),
        r.is_some() == input_accepted(i@),
        r.is_some() ==> r.unwrap().trusted_height == i.trusted_height && r.unwrap().trusted_secs
            == i.trusted_secs && r.unwrap().trusted_nanos == i.trusted_nanos && r.unwrap().now_secs
            == i.now_secs && r.unwrap().now_nanos == i.now_nanos,
        r.is_some() ==> threshold_of(r.unwrap().options) == (
            i.trust_numerator,
            i.trust_denominator,
        ),
{
    Some(VerifierArgs {
        chain_id: i.chain_id.parse().ok()?,
        trusted_height: i.trusted_height,
        trusted_secs: i.trusted_secs,
        trusted_nanos: i.trusted_nanos,
        trusted_hash: tendermint::Hash::try_from(i.next_validators_hash.clone()).ok()?,
        options: tendermint_light_client_verifier::options::Options {
            trust_threshold: TrustThresholdFraction::new(i.trust_numerator, i.trust_denominator).ok()?,
            trusting_period: core::time::Duration::new(i.trusting_period_secs, i.trusting_period_nanos),
            clock_drift: core::time::Duration::new(i.clock_drift_secs, i.clock_drift_nanos),
        },
        now_secs: i.now_secs,
        now_nanos: i.now_nanos,
    })
}

/// Runs `Verifier::verify` of the production verifier on the header, with
/// its trusted validators as the next validators of the trusted state and
/// without next validators of its own. The result is the verdict of that
/// call, its tally or reason as text. The trusted height is below the
/// largest block number, since the verifier increments it, the times are in
/// the range of `tendermint::Time`, and the tally fits, since the verifier
/// adds and multiplies voting powers in 64 bits.
#[verifier::external_body]
fn run_verify(h: &Header, a: &VerifierArgs) -> (v: Verdict)
    requires
        a.wf(),
        tally_fits(voting_powers(*h), threshold_of(a.options).1),
    ensures
        v == update_verdict(*h, *a),
{
    let now = Time::from_unix_timestamp(a.now_secs, a.now_nanos).unwrap();
    let trusted = TrustedBlockState {
        chain_id: &a.chain_id, height: a.trusted_height.try_into().unwrap(),
        header_time: Time::from_unix_timestamp(a.trusted_secs, a.trusted_nanos).unwrap(),
        next_validators: &h.trusted_validator_set, next_validators_hash: a.trusted_hash };
    let untrusted = UntrustedBlockState {
        signed_header: &h.signed_header, validators: &h.validator_set, next_validators: None };
    match ProdVerifier::default().verify(untrusted, trusted, &a.options, now) {
        Outcome::Success => Verdict::Success,
        Outcome::NotEnoughTrust(tally) => Verdict::NotEnoughTrust(tally.to_string()),
        Outcome::Invalid(detail) => Verdict::Invalid(detail.to_string()),
    }
}

/// Runs `validate_against_trusted` of the production verifier on the
/// header, with the same trusted and untrusted states as the full
/// verification. The result is the verdict of that call.
#[verifier::external_body]
fn run_validate_against_trusted(h: &Header, a: &VerifierArgs) -> (v: Verdict)
    requires
        a.wf(),
    ensures
        v == validation_verdict(*h, *a),
{
    let now = Time::from_unix_timestamp(a.now_secs, a.now_nanos).unwrap();
    let trusted = TrustedBlockState {
        chain_id: &a.chain_id, height: a.trusted_height.try_into().unwrap(),
        header_time: Time::from_unix_timestamp(a.trusted_secs, a.trusted_nanos).unwrap(),
        next_validators: &h.trusted_validator_set, next_validators_hash: a.trusted_hash };
    let untrusted = UntrustedBlockState {
        signed_header: &h.signed_header, validators: &h.validator_set, next_validators: None };
    match ProdVerifier::default().validate_against_trusted(&untrusted, &trusted, &a.options, now) {
        Outcome::Success => Verdict::Success,
        Outcome::NotEnoughTrust(tally) => Verdict::NotEnoughTrust(tally.to_string()),
        Outcome::Invalid(detail) => Verdict::Invalid(detail.to_string()),
    }
}

/// Runs `verify_commit_against_trusted` of the production verifier on the
/// header, with the same trusted and untrusted states as the full
/// verification, and under the same conditions. The result is the verdict of
/// that call.
#[verifier::external_body]
fn run_verify_commit_against_trusted(h: &Header, a: &VerifierArgs) -> (v: Verdict)
    requires
        a.wf(),
        tally_fits(voting_powers(*h), threshold_of(a.options).1),
    ensures
        v == commit_verdict(*h, *a),
{
    let trusted = TrustedBlockState {
        chain_id: &a.chain_id, height: a.trusted_height.try_into().unwrap(),
        header_time: Time::from_unix_timestamp(a.trusted_secs, a.trusted_nanos).unwrap(),
        next_validators: &h.trusted_validator_set, next_validators_hash: a.trusted_hash };
    let untrusted = UntrustedBlockState {
        signed_header: &h.signed_header, validators: &h.validator_set, next_validators: None };
    match ProdVerifier::default().verify_commit_against_trusted(&untrusted, &trusted, &a.options) {
        Outcome::Success => Verdict::Success,
        Outcome::NotEnoughTrust(tally) => Verdict::NotEnoughTrust(tally.to_string()),
        Outcome::Invalid(detail) => Verdict::Invalid(detail.to_string()),
    }
}

/// Which of the verifier's checks to run.
#[derive(Clone, Copy, Debug, PartialEq, Eq, Structural)]
pub enum Check {
    /// The full verification of an update.
    Update,
    /// The time and height checks against the trusted checkpoint.
    AgainstTrusted,
    /// The check that enough trusted voting power signed.
    CommitAgainstTrusted,
}

/// The verdict of a check.
pub open spec fn verdict_of(check: Check, header: Header, args: VerifierArgs) -> Verdict {
    match check {
        Check::Update => update_verdict(header, args),
        Check::AgainstTrusted => validation_verdict(header, args),
        Check::CommitAgainstTrusted => commit_verdict(header, args),
    }
}

/// The plain values that a verification runs with, or why there are none:
/// the trusted height is at or above the largest block number, the host has
/// no time, or three times the numerator of the trust threshold is beyond 64
/// bits.
pub open spec fn verifier_input(
    chain_id: &ChainId,
    options: &LightClientOptions,
    trusted: &ConsensusState,
    trusted_height: Height,
    now: Timestamp,
) -> Result<VerifierInputView, Error> {
    if trusted_height.num() >= i64::MAX {
        Err(Error::InvalidHeaderHeight { height: trusted_height.num() })
    } else if !now.is_set() {
        Err(Error::MissingHostTimestamp)
    } else if 3 * options.trust_threshold.num() > u64::MAX {
        Err(Error::InvalidVerifierInput)
    } else {
        Ok(
            VerifierInputView {
                chain_id: chain_id.text(),
                trusted_height: trusted_height.num(),
                trusted_secs: (trusted.timestamp.spec_nanos() / 1_000_000_000) as i64,
                trusted_nanos: (trusted.timestamp.spec_nanos() % 1_000_000_000) as u32,
                next_validators_hash: trusted.next_validators_hash@,
                trust_numerator: options.trust_threshold.num(),
                trust_denominator: options.trust_threshold.den(),
                trusting_period_secs: options.trusting_period.spec_secs(),
                trusting_period_nanos: options.trusting_period.spec_subsec_nanos(),
                clock_drift_secs: options.clock_drift.spec_secs(),
                clock_drift_nanos: options.clock_drift.spec_subsec_nanos(),
                now_secs: (now.spec_nanos() / 1_000_000_000) as i64,
                now_nanos: (now.spec_nanos() % 1_000_000_000) as u32,
            },
        )
    }
}

/// Whether a check tallies votes.
pub open spec fn tallies(check: Check) -> bool {
    check != Check::AgainstTrusted
}

/// What a check says of a header that is held against a trusted
/// consensus state, or the error that keeps the check from running: there are
/// no plain values to run it with, the outside constructors do not take them,
/// or the check tallies votes and the tally does not fit.
pub open spec fn checked(
    check: Check,
    header: &Header,
    chain_id: &ChainId,
    options: &LightClientOptions,
    trusted: &ConsensusState,
    now: Timestamp,
) -> Result<Verdict, Error> {
    match verifier_input(chain_id, options, trusted, header.trusted_height, now) {
        Err(e) => Err(e),
        Ok(input) => if !input_accepted(input) {
            Err(Error::InvalidVerifierInput)
        } else if tallies(check) && !tally_fits(voting_powers(*header), input.trust_denominator) {
            Err(Error::InvalidVerifierInput)
        } else {
            Ok(verdict_of(check, *header, verifier_args_of(input).unwrap()))
        },
    }
}

/// Runs one of the verifier's checks on a header, with the consensus state
/// at its trusted height as the trusted checkpoint.
pub fn run_check(
    check: Check,
    header: &Header,
    chain_id: &ChainId,
    options: &LightClientOptions,
    trusted: &ConsensusState,
    now: Timestamp,
) -> (r: Result<Verdict, Error>)
    ensures
        r == checked(check, header, chain_id, options, trusted, now),
{
    let trusted_height = header.trusted_height.revision_height();
    if trusted_height >= i64::MAX as u64 {
        return Err(Error::InvalidHeaderHeight { height: trusted_height });
    }
    if now.nanoseconds() == 0 {
        return Err(Error::MissingHostTimestamp);
    }
    if options.trust_threshold.numerator() > u64::MAX / 3 {
        return Err(Error::InvalidVerifierInput);
    }
    let input = VerifierInput {
        chain_id: chain_id.as_str().to_owned(),
        trusted_height,
        trusted_secs: (trusted.timestamp.nanoseconds() / 1_000_000_000) as i64,
        trusted_nanos: (trusted.timestamp.nanoseconds() % 1_000_000_000) as u32,
        next_validators_hash: trusted.next_validators_hash.clone(),
        trust_numerator: options.trust_threshold.numerator(),
        trust_denominator: options.trust_threshold.denominator(),
        trusting_period_secs: options.trusting_period.as_secs(),
        trusting_period_nanos: options.trusting_period.subsec_nanos(),
        clock_drift_secs: options.clock_drift.as_secs(),
        clock_drift_nanos: options.clock_drift.subsec_nanos(),
        now_secs: (now.nanoseconds() / 1_000_000_000) as i64,
        now_nanos: (now.nanoseconds() % 1_000_000_000) as u32,
    };
    let args = match verifier_args(&input) {
        None => {
            return Err(Error::InvalidVerifierInput);
        },
        Some(args) => args,
    };
    match check {
        Check::AgainstTrusted => Ok(run_validate_against_trusted(header, &args)),
        Check::Update => {
            let powers = read_powers(header);
            if !do_tally_fits(&powers, input.trust_denominator) {
                return Err(Error::InvalidVerifierInput);
            }
            Ok(run_verify(header, &args))
        },
        Check::CommitAgainstTrusted => {
            let powers = read_powers(header);
            if !do_tally_fits(&powers, input.trust_denominator) {
                return Err(Error::InvalidVerifierInput);
            }
            Ok(run_verify_commit_against_trusted(header, &args))
        },
    }
}

/// The result that a verdict stands for: success, or the error that
/// carries the verifier's text.
pub fn verdict_result(verdict: Verdict) -> (r: Result<(), Error>)
    ensures
        r == match verdict {
            Verdict::Success => Ok::<(), Error>(()),
            Verdict::NotEnoughTrust(reason) => Err(Error::NotEnoughTrustedValsSigned { reason }),
            Verdict::Invalid(detail) => Err(Error::VerificationError { detail }),
        },
{
    match verdict {
        Verdict::Success => Ok(()),
        Verdict::NotEnoughTrust(reason) => Err(Error::NotEnoughTrustedValsSigned { reason }),
        Verdict::Invalid(detail) => Err(Error::VerificationError { detail }),
    }
}

} // verus!

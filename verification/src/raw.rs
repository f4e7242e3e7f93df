//! The client state on the wire: the message that encodes it, and the way
//! there and back.

use vstd::prelude::*;
use vstd::string::*;
use vstd::std_specs::convert::FromSpecImpl;
use vstd::std_specs::convert::TryFromSpecImpl;
use ibc_proto::google::protobuf as pb;
use ibc_proto::ibc as raw;
use ibc_proto::ibc::lightclients::tendermint::v1 as raw_tm;
use crate::client_state::{
    fault_reported, AllowUpdate, ClientState, ClientStateView, TENDERMINT_CLIENT_STATE_TYPE_URL,
};
use crate::error::{ClientError, Error};
use crate::header::Any;
use crate::height::Height;
use crate::identifier::{chain_version_of, ChainId};
use crate::specs::{ProofSpecs, TreeSpec};
use crate::text::{same_text, texts};
use crate::timestamp::{Duration, NANOS_PER_SEC};
use crate::trust_threshold::TrustThreshold;

verus! {

broadcast use {
    crate::height::Height::lemma_parts,
    crate::height::Height::lemma_of,
    crate::timestamp::Duration::lemma_parts,
    crate::timestamp::Duration::lemma_of,
    crate::trust_threshold::TrustThreshold::lemma_parts,
    crate::trust_threshold::TrustThreshold::lemma_of,
    crate::identifier::ChainId::lemma_id_string,
};

/// A fraction on the wire.
#[derive(Clone, Copy, Debug, PartialEq, Eq, Structural)]
pub struct RawFraction {
    pub numerator: u64,
    pub denominator: u64,
}

/// A span of time on the wire: seconds and nanoseconds, either of which may
/// be negative.
#[derive(Clone, Copy, Debug, PartialEq, Eq, Structural)]
pub struct RawDuration {
    pub seconds: i64,
    pub nanos: i32,
}

/// A height on the wire; both parts may be zero.
#[derive(Clone, Copy, Debug, PartialEq, Eq, Structural)]
pub struct RawHeight {
    pub revision_number: u64,
    pub revision_height: u64,
}

/// The message that encodes a Tendermint client state.
#[derive(Clone, Debug, PartialEq, Eq)]
pub struct RawClientState {
    pub chain_id: String,
    pub trust_level: Option<RawFraction>,
    pub trusting_period: Option<RawDuration>,
    pub unbonding_period: Option<RawDuration>,
    pub max_clock_drift: Option<RawDuration>,
    pub frozen_height: Option<RawHeight>,
    pub latest_height: Option<RawHeight>,
    pub proof_specs: ProofSpecs,
    pub upgrade_path: Vec<String>,
    pub allow_update_after_expiry: bool,
    pub allow_update_after_misbehaviour: bool,
}

/// The message as plain values.
pub struct RawClientStateView {
    pub chain_id: Seq<char>,
    pub trust_level: Option<RawFraction>,
    pub trusting_period: Option<RawDuration>,
    pub unbonding_period: Option<RawDuration>,
    pub max_clock_drift: Option<RawDuration>,
    pub frozen_height: Option<RawHeight>,
    pub latest_height: Option<RawHeight>,
    pub proof_specs: Seq<TreeSpec>,
    pub upgrade_path: Seq<Seq<char>>,
    pub allow_update_after_expiry: bool,
    pub allow_update_after_misbehaviour: bool,
}

impl View for RawClientState {
    type V = RawClientStateView;

    open spec fn view(&self) -> RawClientStateView {
        RawClientStateView {
            chain_id: self.chain_id@,
            trust_level: self.trust_level,
            trusting_period: self.trusting_period,
            unbonding_period: self.unbonding_period,
            max_clock_drift: self.max_clock_drift,
            frozen_height: self.frozen_height,
            latest_height: self.latest_height,
            proof_specs: self.proof_specs@,
            upgrade_path: texts(self.upgrade_path@),
            allow_update_after_expiry: self.allow_update_after_expiry,
            allow_update_after_misbehaviour: self.allow_update_after_misbehaviour,
        }
    }
}

/// The span of time that a span on the wire stands for in its canonical
/// form, in seconds and nanoseconds, where the conversion finds it not
/// negative.
pub uninterp spec fn normalized_duration(seconds: i64, nanos: i32) -> Option<(u64, u32)>;

/// Brings a span on the wire into canonical form with the conversion of
/// `ibc_proto` from its `Duration` to `core::time::Duration`. The result is
/// what that conversion gives, and nothing where it gives a negative span. A
/// span whose parts are not negative, with less than a second of nanoseconds,
/// comes back unchanged. A span without whole seconds and with negative
/// nanoseconds is not found negative there: it comes back as a positive span.
/// The nanoseconds of the result are always less than a second. The seconds
/// are more than two above the least number: the conversion first carries
/// the whole seconds of the nanoseconds over, two at most, and then negates
/// the seconds of a negative span.
#[verifier::external_body]
fn normalize_duration(seconds: i64, nanos: i32) -> (r: Option<(u64, u32)>)
    requires
        seconds > LEAST_SECONDS,
    ensures
        r == normalized_duration(seconds, nanos),
        0 <= seconds && 0 <= nanos < NANOS_PER_SEC ==> r == Some((seconds as u64, nanos as u32)),
        r matches Some(d) ==> d.1 < NANOS_PER_SEC,
{
    core::time::Duration::try_from(pb::Duration { seconds, nanos })
        .ok()
        .map(|d| (d.as_secs(), d.subsec_nanos()))
}

/// Writes a span of time for the wire with the conversion of `ibc_proto`
/// from `core::time::Duration` to its `Duration`: seconds beyond the largest
/// number of the wire are written as that number, and the nanoseconds are
/// kept.
#[verifier::external_body]
fn denormalize_duration(secs: u64, nanos: u32) -> (r: (i64, i32))
    requires
        nanos < NANOS_PER_SEC,
    ensures
        r.0 == (if secs > i64::MAX { i64::MAX } else { secs as i64 }),
        r.1 == nanos as i32,
{
    let d = pb::Duration::from(core::time::Duration::new(secs, nanos));
    (d.seconds, d.nanos)
}

/// A span on the wire with at most this many seconds is negative whatever
/// its nanoseconds are. It is not handed to the conversion, which may not be
/// able to negate it.
pub const LEAST_SECONDS: i64 = -0x7fff_ffff_ffff_fffe;

/// The span of time that a span on the wire stands for: itself where its
/// parts are not negative and its nanoseconds are less than a second; nothing
/// where its seconds are within two of the least number, which is a negative
/// span; and its canonical form otherwise, if that is not negative.
pub open spec fn duration_of_raw(d: RawDuration) -> Option<Duration> {
    if 0 <= d.seconds && 0 <= d.nanos < NANOS_PER_SEC {
        Some(Duration::of(d.seconds as u64, d.nanos as u32))
    } else if d.seconds <= LEAST_SECONDS {
        None
    } else {
        match normalized_duration(d.seconds, d.nanos) {
            Some((secs, nanos)) => Some(Duration::of(secs, nanos)),
            None => None,
        }
    }
}

/// The span on the wire that stands for a span of time: seconds beyond the
/// largest number of the wire are written as that number.
pub open spec fn raw_of_duration(d: Duration) -> RawDuration {
    RawDuration {
        seconds: if d.spec_secs() > i64::MAX {
            i64::MAX
        } else {
            d.spec_secs() as i64
        },
        nanos: d.spec_subsec_nanos() as i32,
    }
}

/// The height that a height on the wire stands for: none where its block
/// number is zero.
pub open spec fn height_of_raw(h: RawHeight) -> Option<Height> {
    if h.revision_height == 0 {
        None
    } else {
        Some(Height::of(h.revision_number, h.revision_height))
    }
}

impl RawClientStateView {
    /// The values that the message holds, or what it lacks.
    pub open spec fn values(self) -> Result<ClientStateView, Error> {
        if self.trust_level is None {
            Err(Error::MissingTrustingPeriod)
        } else if !TrustThreshold::of(
            self.trust_level.unwrap().numerator,
            self.trust_level.unwrap().denominator,
        ).wf() {
            Err(
                Error::InvalidTendermintTrustThreshold {
                    numerator: self.trust_level.unwrap().numerator,
                    denominator: self.trust_level.unwrap().denominator,
                },
            )
        } else if self.trusting_period is None || duration_of_raw(self.trusting_period.unwrap())
            is None {
            Err(Error::MissingTrustingPeriod)
        } else if self.unbonding_period is None || duration_of_raw(self.unbonding_period.unwrap())
            is None {
            Err(Error::MissingUnbondingPeriod)
        } else if self.max_clock_drift is None || duration_of_raw(self.max_clock_drift.unwrap())
            is None {
            Err(Error::NegativeMaxClockDrift)
        } else if self.latest_height is None || height_of_raw(self.latest_height.unwrap())
            is None {
            Err(Error::MissingLatestHeight)
        } else {
            Ok(
                ClientStateView {
                    chain_id: self.chain_id,
                    version: chain_version_of(vstd::utf8::encode_utf8(self.chain_id)),
                    trust_level: TrustThreshold::of(
                        self.trust_level.unwrap().numerator,
                        self.trust_level.unwrap().denominator,
                    ),
                    trusting_period: duration_of_raw(self.trusting_period.unwrap()).unwrap(),
                    unbonding_period: duration_of_raw(self.unbonding_period.unwrap()).unwrap(),
                    max_clock_drift: duration_of_raw(self.max_clock_drift.unwrap()).unwrap(),
                    latest_height: height_of_raw(self.latest_height.unwrap()).unwrap(),
                    proof_specs: self.proof_specs,
                    upgrade_path: self.upgrade_path,
                    allow_update: AllowUpdate {
                        after_expiry: self.allow_update_after_expiry,
                        after_misbehaviour: self.allow_update_after_misbehaviour,
                    },
                    frozen_height: match self.frozen_height {
                        Some(h) => height_of_raw(h),
                        None => None,
                    },
                },
            )
        }
    }
}

/// `r` is what a message decodes to: the client state with the values of
/// the message where they keep every rule, and the error of what the message
/// lacks or of the first rule that its values break otherwise.
pub open spec fn state_of_raw(raw: RawClientStateView, r: Result<ClientState, Error>) -> bool {
    match raw.values() {
        Err(e) => r == Err::<ClientState, Error>(e),
        Ok(values) => match values.fault() {
            None => r is Ok && r->Ok_0@ == values,
            Some(fault) => r is Err && fault_reported(r->Err_0, fault, values),
        },
    }
}

/// Reads a span of time from the wire.
fn duration_from_raw(d: RawDuration) -> (r: Option<Duration>)
    ensures
        r == duration_of_raw(d),
{
    if d.seconds <= LEAST_SECONDS {
        return None;
    }
    match normalize_duration(d.seconds, d.nanos) {
        Some((secs, nanos)) => Some(Duration::new(secs, nanos)),
        None => None,
    }
}

/// Reads a height from the wire.
fn height_from_raw(h: RawHeight) -> (r: Option<Height>)
    ensures
        r == height_of_raw(h),
{
    match Height::new(h.revision_number, h.revision_height) {
        Ok(h) => Some(h),
        Err(_) => None,
    }
}

/// Writes a span of time for the wire.
fn duration_to_raw(d: Duration) -> (r: RawDuration)
    ensures
        r == raw_of_duration(d),
{
    let nanos = d.subsec_nanos();
    let (seconds, nanos) = denormalize_duration(d.as_secs(), nanos);
    RawDuration { seconds, nanos }
}

impl TryFrom<RawClientState> for ClientState {
    type Error = Error;

    /// The client state that a message encodes: see [`state_of_raw`].
    fn try_from(raw: RawClientState) -> (r: Result<ClientState, Error>)
        ensures
            state_of_raw(raw@, r),
    {
        let chain_id = ChainId::from_string(raw.chain_id.as_str());
        let trust_level = match raw.trust_level {
            Some(f) => match TrustThreshold::new(f.numerator, f.denominator) {
                Ok(t) => t,
                Err(_) => {
                    return Err(
                        Error::InvalidTendermintTrustThreshold {
                            numerator: f.numerator,
                            denominator: f.denominator,
                        },
                    );
                },
            },
            None => {
                return Err(Error::MissingTrustingPeriod);
            },
        };
        let trusting_period = match raw.trusting_period {
            Some(d) => match duration_from_raw(d) {
                Some(d) => d,
                None => {
                    return Err(Error::MissingTrustingPeriod);
                },
            },
            None => {
                return Err(Error::MissingTrustingPeriod);
            },
        };
        let unbonding_period = match raw.unbonding_period {
            Some(d) => match duration_from_raw(d) {
                Some(d) => d,
                None => {
                    return Err(Error::MissingUnbondingPeriod);
                },
            },
            None => {
                return Err(Error::MissingUnbondingPeriod);
            },
        };
        let max_clock_drift = match raw.max_clock_drift {
            Some(d) => match duration_from_raw(d) {
                Some(d) => d,
                None => {
                    return Err(Error::NegativeMaxClockDrift);
                },
            },
            None => {
                return Err(Error::NegativeMaxClockDrift);
            },
        };
        let latest_height = match raw.latest_height {
            Some(h) => match height_from_raw(h) {
                Some(h) => h,
                None => {
                    return Err(Error::MissingLatestHeight);
                },
            },
            None => {
                return Err(Error::MissingLatestHeight);
            },
        };
        let frozen_height = match raw.frozen_height {
            Some(h) => height_from_raw(h),
            None => None,
        };
        let allow_update = AllowUpdate {
            after_expiry: raw.allow_update_after_expiry,
            after_misbehaviour: raw.allow_update_after_misbehaviour,
        };
        ClientState::new(
            chain_id,
            trust_level,
            trusting_period,
            unbonding_period,
            max_clock_drift,
            latest_height,
            raw.proof_specs,
            raw.upgrade_path,
            allow_update,
            frozen_height,
        )
    }
}

impl TryFromSpecImpl<RawClientState> for ClientState {
    /// The errors of the rules carry texts that are made when they arise, so
    /// the result is described by [`state_of_raw`] instead.
    open spec fn obeys_try_from_spec() -> bool {
        false
    }

    open spec fn try_from_spec(raw: RawClientState) -> Result<ClientState, Error> {
        arbitrary()
    }
}

impl ClientState {
    /// The message that encodes the client state. A client that is not
    /// frozen is written with a frozen height of zero.
    pub open spec fn spec_raw(&self) -> RawClientStateView {
        RawClientStateView {
            chain_id: self.chain_id.text(),
            trust_level: Some(
                RawFraction {
                    numerator: self.trust_level.num(),
                    denominator: self.trust_level.den(),
                },
            ),
            trusting_period: Some(raw_of_duration(self.trusting_period)),
            unbonding_period: Some(raw_of_duration(self.unbonding_period)),
            max_clock_drift: Some(raw_of_duration(self.max_clock_drift)),
            frozen_height: Some(
                match self.frozen_height {
                    Some(h) => RawHeight { revision_number: h.rev(), revision_height: h.num() },
                    None => RawHeight { revision_number: 0, revision_height: 0 },
                },
            ),
            latest_height: Some(
                RawHeight {
                    revision_number: self.latest_height.rev(),
                    revision_height: self.latest_height.num(),
                },
            ),
            proof_specs: self.proof_specs@,
            upgrade_path: texts(self.upgrade_path@),
            allow_update_after_expiry: self.allow_update.after_expiry,
            allow_update_after_misbehaviour: self.allow_update.after_misbehaviour,
        }
    }

    /// The seconds of the periods are numbers that the wire can hold.
    pub open spec fn periods_fit(&self) -> bool {
        &&& self.trusting_period.spec_secs() <= i64::MAX
        &&& self.unbonding_period.spec_secs() <= i64::MAX
        &&& self.max_clock_drift.spec_secs() <= i64::MAX
    }
}

impl From<ClientState> for RawClientState {
    /// The message that encodes the client state.
    fn from(value: ClientState) -> (r: RawClientState) {
        let frozen_height = match value.frozen_height {
            Some(h) => RawHeight {
                revision_number: h.revision_number(),
                revision_height: h.revision_height(),
            },
            None => RawHeight { revision_number: 0, revision_height: 0 },
        };
        RawClientState {
            chain_id: value.chain_id.to_id_string(),
            trust_level: Some(
                RawFraction {
                    numerator: value.trust_level.numerator(),
                    denominator: value.trust_level.denominator(),
                },
            ),
            trusting_period: Some(duration_to_raw(value.trusting_period)),
            unbonding_period: Some(duration_to_raw(value.unbonding_period)),
            max_clock_drift: Some(duration_to_raw(value.max_clock_drift)),
            frozen_height: Some(frozen_height),
            latest_height: Some(
                RawHeight {
                    revision_number: value.latest_height.revision_number(),
                    revision_height: value.latest_height.revision_height(),
                },
            ),
            proof_specs: value.proof_specs,
            upgrade_path: value.upgrade_path,
            allow_update_after_expiry: value.allow_update.after_expiry,
            allow_update_after_misbehaviour: value.allow_update.after_misbehaviour,
        }
    }
}

impl FromSpecImpl<ClientState> for RawClientState {
    open spec fn obeys_from_spec() -> bool {
        true
    }

    open spec fn from_spec(value: ClientState) -> RawClientState {
        RawClientState::of(value)
    }
}

impl RawClientState {
    /// The message that encodes a client state. Every field of the message
    /// is there. The frozen height of a client that is not frozen is zero, the
    /// two flags are kept, and seconds beyond the largest number of the wire
    /// are written as that number.
    pub open spec fn of(value: ClientState) -> RawClientState {
        RawClientState {
            chain_id: value.chain_id.id_string(),
            trust_level: Some(
                RawFraction {
                    numerator: value.trust_level.num(),
                    denominator: value.trust_level.den(),
                },
            ),
            trusting_period: Some(raw_of_duration(value.trusting_period)),
            unbonding_period: Some(raw_of_duration(value.unbonding_period)),
            max_clock_drift: Some(raw_of_duration(value.max_clock_drift)),
            frozen_height: Some(
                match value.frozen_height {
                    Some(h) => RawHeight { revision_number: h.rev(), revision_height: h.num() },
                    None => RawHeight { revision_number: 0, revision_height: 0 },
                },
            ),
            latest_height: Some(
                RawHeight {
                    revision_number: value.latest_height.rev(),
                    revision_height: value.latest_height.num(),
                },
            ),
            proof_specs: value.proof_specs,
            upgrade_path: value.upgrade_path,
            allow_update_after_expiry: value.allow_update.after_expiry,
            allow_update_after_misbehaviour: value.allow_update.after_misbehaviour,
        }
    }
}

/// The message of a client state, as plain values, is its
/// [`ClientState::spec_raw`].
pub proof fn lemma_from_spec_view(cs: ClientState)
    ensures
        RawClientState::of(cs)@ == cs.spec_raw(),
{
}

/// A valid client state that is written as a message and read back is the
/// same client state. In the message a client that is not frozen has the
/// frozen height zero, which is read back as not frozen.
///
/// The state keeps the rules of [`ClientStateView::valid`], as every state
/// does that [`ClientState::new`] returned. Left out are the states whose
/// chain identifier does not carry the revision it is held with, and those
/// with a period of more seconds than the wire can hold.
pub proof fn lemma_raw_round_trip(cs: ClientState, back: Result<ClientState, Error>)
    requires
        cs@.valid(),
        cs.chain_id.consistent(),
        cs.periods_fit(),
        state_of_raw(cs.spec_raw(), back),
    ensures
        back is Ok,
        back->Ok_0@ == cs@,
        cs.frozen_height is None ==> cs.spec_raw().frozen_height == Some(
            RawHeight { revision_number: 0, revision_height: 0 },
        ) && back->Ok_0.frozen_height is None,
{
    let raw = cs.spec_raw();
    let values = raw.values()->Ok_0;
    assert(values == cs@);
    crate::client_state::lemma_valid_iff_no_fault(cs@);
}

/// A message without a frozen height, or with the frozen height zero, whose
/// values keep every rule, is read as a client that is not frozen.
pub proof fn lemma_zero_frozen_height_is_unfrozen(
    raw: RawClientStateView,
    r: Result<ClientState, Error>,
)
    requires
        raw.frozen_height is None || raw.frozen_height == Some(
            RawHeight { revision_number: 0, revision_height: 0 },
        ),
        raw.values() matches Ok(values) && values.fault() is None,
        state_of_raw(raw, r),
    ensures
        r is Ok,
        r->Ok_0.frozen_height is None,
{
}

/// The first fields of an encoded client state.
pub struct RawHead {
    pub chain_id: String,
    pub trust_level: Option<(u64, u64)>,
    pub trusting_period: Option<(i64, i32)>,
    pub unbonding_period: Option<(i64, i32)>,
    pub max_clock_drift: Option<(i64, i32)>,
    pub frozen_height: Option<(u64, u64)>,
    pub latest_height: Option<(u64, u64)>,
}

/// The last fields of an encoded client state.
pub struct RawTail {
    pub proof_specs: Vec<TreeSpec>,
    pub upgrade_path: Vec<String>,
    pub allow_update_after_expiry: bool,
    pub allow_update_after_misbehaviour: bool,
}

/// What the outside decoder finds in the first fields of the bytes of a
/// client state.
pub uninterp spec fn client_state_head(bytes: Seq<u8>) -> Result<RawHead, Error>;

/// What the outside decoder finds in the last fields of the bytes of a
/// client state.
pub uninterp spec fn client_state_tail(bytes: Seq<u8>) -> Result<RawTail, Error>;

/// The encoding of the chain identifier, the trust level, the trusting
/// period and the unbonding period of a message.
pub uninterp spec fn client_state_head_bytes(raw: RawClientStateView) -> Seq<u8>;

/// The encoding of the other fields of a message.
pub uninterp spec fn client_state_tail_bytes(raw: RawClientStateView) -> Seq<u8>;

/// Decodes a Tendermint client state with `prost`, as `ibc_proto` describes
/// it, and hands out its fields up to the latest height as they stand in the
/// message.
#[verifier::external_body]
fn decode_head(bytes: &[u8]) -> (r: Result<RawHead, Error>)
    ensures
        r == client_state_head(bytes@),
{
    let m: raw_tm::ClientState = prost::Message::decode(bytes).map_err(|_| Error::Decode)?;
    Ok(RawHead {
        chain_id: m.chain_id,
        trust_level: m.trust_level.map(|f| (f.numerator, f.denominator)),
        trusting_period: m.trusting_period.map(|d| (d.seconds, d.nanos)),
        unbonding_period: m.unbonding_period.map(|d| (d.seconds, d.nanos)),
        max_clock_drift: m.max_clock_drift.map(|d| (d.seconds, d.nanos)),
        frozen_height: m.frozen_height.map(|h| (h.revision_number, h.revision_height)),
        latest_height: m.latest_height.map(|h| (h.revision_number, h.revision_height)),
    })
}

/// Decodes a Tendermint client state with `prost`, as `ibc_proto` describes
/// it, and hands out its fields from the proof specs on; each proof spec is
/// encoded and decoded again as `ics23` describes it.
#[verifier::external_body]
#[allow(deprecated)]
fn decode_tail(bytes: &[u8]) -> (r: Result<RawTail, Error>)
    ensures
        r == client_state_tail(bytes@),
{
    let m: raw_tm::ClientState = prost::Message::decode(bytes).map_err(|_| Error::Decode)?;
    Ok(RawTail {
        proof_specs: m.proof_specs.iter().map(|s| TreeSpec::from_ics23(
            prost::Message::decode(prost::Message::encode_to_vec(s).as_slice()).unwrap_or_default(),
        )).collect(),
        upgrade_path: m.upgrade_path,
        allow_update_after_expiry: m.allow_update_after_expiry,
        allow_update_after_misbehaviour: m.allow_update_after_misbehaviour,
    })
}

/// Encodes the first four fields of a Tendermint client state with `prost`,
/// as `ibc_proto` describes it, and leaves the other fields out.
#[verifier::external_body]
fn encode_head(m: &RawClientState) -> (r: Vec<u8>)
    ensures
        r@ == client_state_head_bytes(m@),
{
    prost::Message::encode_to_vec(&raw_tm::ClientState {
        chain_id: m.chain_id.clone(),
        trust_level: m.trust_level.map(|f| raw_tm::Fraction {
            numerator: f.numerator, denominator: f.denominator }),
        trusting_period: m.trusting_period.map(|d| pb::Duration {
            seconds: d.seconds, nanos: d.nanos }),
        unbonding_period: m.unbonding_period.map(|d| pb::Duration {
            seconds: d.seconds, nanos: d.nanos }),
        ..Default::default()
    })
}

/// Encodes the fields of a Tendermint client state from the clock drift on
/// with `prost`, as `ibc_proto` describes it, and leaves the first four
/// fields out; each proof spec is encoded and decoded again as `ibc_proto`
/// describes it.
#[verifier::external_body]
#[allow(deprecated)]
fn encode_tail(m: &RawClientState) -> (r: Vec<u8>)
    ensures
        r@ == client_state_tail_bytes(m@),
{
    prost::Message::encode_to_vec(&raw_tm::ClientState {
        max_clock_drift: m.max_clock_drift.map(|d| pb::Duration { seconds: d.seconds, nanos: d.nanos }),
        frozen_height: m.frozen_height.map(|h| raw::core::client::v1::Height {
            revision_number: h.revision_number, revision_height: h.revision_height }),
        latest_height: m.latest_height.map(|h| raw::core::client::v1::Height {
            revision_number: h.revision_number, revision_height: h.revision_height }),
        proof_specs: m.proof_specs.as_slice().iter().map(|s| prost::Message::decode(
            prost::Message::encode_to_vec(s.as_ics23()).as_slice()).unwrap_or_default()).collect(),
        upgrade_path: m.upgrade_path.clone(),
        allow_update_after_expiry: m.allow_update_after_expiry,
        allow_update_after_misbehaviour: m.allow_update_after_misbehaviour,
        ..Default::default()
    })
}

/// The message that the two halves of the decoder's findings make up.
pub open spec fn raw_of_parts(head: RawHead, tail: RawTail) -> RawClientStateView {
    RawClientStateView {
        chain_id: head.chain_id@,
        trust_level: match head.trust_level {
            Some((numerator, denominator)) => Some(RawFraction { numerator, denominator }),
            None => None,
        },
        trusting_period: pair_duration(head.trusting_period),
        unbonding_period: pair_duration(head.unbonding_period),
        max_clock_drift: pair_duration(head.max_clock_drift),
        frozen_height: pair_height(head.frozen_height),
        latest_height: pair_height(head.latest_height),
        proof_specs: tail.proof_specs@,
        upgrade_path: texts(tail.upgrade_path@),
        allow_update_after_expiry: tail.allow_update_after_expiry,
        allow_update_after_misbehaviour: tail.allow_update_after_misbehaviour,
    }
}

/// A pair of seconds and nanoseconds as a span on the wire.
pub open spec fn pair_duration(pair: Option<(i64, i32)>) -> Option<RawDuration> {
    match pair {
        Some((seconds, nanos)) => Some(RawDuration { seconds, nanos }),
        None => None,
    }
}

/// A pair of revision and block number as a height on the wire.
pub open spec fn pair_height(pair: Option<(u64, u64)>) -> Option<RawHeight> {
    match pair {
        Some((revision_number, revision_height)) => Some(
            RawHeight { revision_number, revision_height },
        ),
        None => None,
    }
}

/// The message that bytes decode to.
pub open spec fn raw_of_bytes(bytes: Seq<u8>) -> Result<RawClientStateView, Error> {
    match (client_state_head(bytes), client_state_tail(bytes)) {
        (Err(e), _) => Err(e),
        (_, Err(e)) => Err(e),
        (Ok(head), Ok(tail)) => Ok(raw_of_parts(head, tail)),
    }
}

/// `r` is what bytes decode to.
pub open spec fn state_of_bytes(bytes: Seq<u8>, r: Result<ClientState, Error>) -> bool {
    match raw_of_bytes(bytes) {
        Err(e) => r == Err::<ClientState, Error>(e),
        Ok(raw) => state_of_raw(raw, r),
    }
}

/// The bytes that encode a message: its first four fields, then the
/// others.
pub open spec fn raw_bytes(raw: RawClientStateView) -> Seq<u8> {
    client_state_head_bytes(raw) + client_state_tail_bytes(raw)
}

impl RawClientState {
    /// The bytes that encode the message.
    pub open spec fn spec_bytes(&self) -> Seq<u8> {
        raw_bytes(self@)
    }

    /// Encodes the message.
    pub fn encode_vec(&self) -> (r: Vec<u8>)
        ensures
            r@ == self.spec_bytes(),
    {
        let mut bytes = encode_head(self);
        let mut rest = encode_tail(self);
        bytes.append(&mut rest);
        bytes
    }

    /// The message that the bytes encode.
    pub fn decode(bytes: &[u8]) -> (r: Result<RawClientState, Error>)
        ensures
            match raw_of_bytes(bytes@) {
                Err(e) => r == Err::<RawClientState, Error>(e),
                Ok(raw) => r is Ok && r->Ok_0@ == raw,
            },
    {
        let head = decode_head(bytes)?;
        let tail = decode_tail(bytes)?;
        Ok(
            RawClientState {
                chain_id: head.chain_id,
                trust_level: match head.trust_level {
                    Some((numerator, denominator)) => Some(RawFraction { numerator, denominator }),
                    None => None,
                },
                trusting_period: pair_to_duration(head.trusting_period),
                unbonding_period: pair_to_duration(head.unbonding_period),
                max_clock_drift: pair_to_duration(head.max_clock_drift),
                frozen_height: pair_to_height(head.frozen_height),
                latest_height: pair_to_height(head.latest_height),
                proof_specs: ProofSpecs::from_vec(tail.proof_specs),
                upgrade_path: tail.upgrade_path,
                allow_update_after_expiry: tail.allow_update_after_expiry,
                allow_update_after_misbehaviour: tail.allow_update_after_misbehaviour,
            },
        )
    }
}

fn pair_to_duration(pair: Option<(i64, i32)>) -> (r: Option<RawDuration>)
    ensures
        r == pair_duration(pair),
{
    match pair {
        Some((seconds, nanos)) => Some(RawDuration { seconds, nanos }),
        None => None,
    }
}

fn pair_to_height(pair: Option<(u64, u64)>) -> (r: Option<RawHeight>)
    ensures
        r == pair_height(pair),
{
    match pair {
        Some((revision_number, revision_height)) => Some(
            RawHeight { revision_number, revision_height },
        ),
        None => None,
    }
}

impl ClientState {
    /// The client state that the bytes encode.
    pub fn decode(bytes: &[u8]) -> (r: Result<ClientState, Error>)
        ensures
            state_of_bytes(bytes@, r),
    {
        let raw = RawClientState::decode(bytes)?;
        ClientState::try_from(raw)
    }

    /// The client state in an encoded message, which must be of the type of
    /// Tendermint client states.
    pub fn try_from_any(raw: Any) -> (r: Result<ClientState, ClientError>)
        ensures
            raw.type_url@ != TENDERMINT_CLIENT_STATE_TYPE_URL@ ==> r == Err::<
                ClientState,
                ClientError,
            >(ClientError::UnknownClientStateType { client_state_type: raw.type_url }),
            raw.type_url@ == TENDERMINT_CLIENT_STATE_TYPE_URL@ ==> match r {
                Ok(cs) => state_of_bytes(raw.value@, Ok(cs)),
                Err(e) => e matches ClientError::ClientSpecific { cause } && state_of_bytes(
                    raw.value@,
                    Err(cause),
                ),
            },
    {
        if !same_text(raw.type_url.as_str(), TENDERMINT_CLIENT_STATE_TYPE_URL) {
            return Err(ClientError::UnknownClientStateType { client_state_type: raw.type_url });
        }
        match ClientState::decode(raw.value.as_slice()) {
            Ok(cs) => Ok(cs),
            Err(cause) => Err(ClientError::ClientSpecific { cause }),
        }
    }

    /// The encoded message of the client state, with the URL of its type.
    pub fn into_any(self) -> (r: Any)
        ensures
            r.type_url@ == TENDERMINT_CLIENT_STATE_TYPE_URL@,
            r.value@ == raw_bytes(self.spec_raw()),
    {
        let raw = RawClientState::from(self);
        let value = raw.encode_vec();
        Any { type_url: String::from_str(TENDERMINT_CLIENT_STATE_TYPE_URL), value }
    }
}

} // verus!

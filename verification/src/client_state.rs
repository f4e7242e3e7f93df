//! The state of a Tendermint light client and the checks that it makes.

use vstd::prelude::*;
use vstd::string::*;
use crate::error::Error;
use crate::height::Height;
use crate::identifier::{ChainId, ClientType};
use crate::specs::{ProofSpecs, TreeSpec};
use crate::text::{append_decimal, decimal_digits, texts};
use crate::timestamp::{Duration, Timestamp};
use crate::trust_threshold::TrustThreshold;

verus! {

broadcast use {
    crate::height::Height::lemma_parts,
    crate::height::Height::lemma_of,
    crate::timestamp::Timestamp::lemma_parts,
    crate::timestamp::Timestamp::lemma_of,
};

/// The type URL of an encoded Tendermint client state.
pub const TENDERMINT_CLIENT_STATE_TYPE_URL: &'static str =
    "/ibc.lightclients.tendermint.v1.ClientState";

/// The longest chain identifier that Tendermint takes, in bytes.
pub open spec fn max_chain_id_len() -> usize {
    50
}

/// The limit `tendermint::chain::id::MAX_LENGTH`, which is 50.
#[verifier::external_body]
fn tendermint_max_chain_id_len() -> (r: usize)
    ensures
        r == max_chain_id_len(),
{
    tendermint::chain::id::MAX_LENGTH
}

/// The characters with the Unicode property `White_Space`.
pub open spec fn white_space(c: char) -> bool {
    let u = c as u32;
    ||| 0x09 <= u <= 0x0d
    ||| u == 0x20
    ||| u == 0x85
    ||| u == 0xa0
    ||| u == 0x1680
    ||| 0x2000 <= u <= 0x200a
    ||| u == 0x2028
    ||| u == 0x2029
    ||| u == 0x202f
    ||| u == 0x205f
    ||| u == 0x3000
}

/// A text of white space only, the empty text among them.
pub open spec fn blank(s: Seq<char>) -> bool {
    forall|i: int| 0 <= i < s.len() ==> white_space(#[trigger] s[i])
}

/// Takes leading and trailing white space off with `str::trim`. Nothing is
/// left exactly when the text holds white space only.
#[verifier::external_body]
fn trimmed(s: &str) -> (r: &str)
    ensures
        (r@.len() == 0) == blank(s@),
{
    s.trim()
}

/// Whether updates were once allowed after expiry and after misbehaviour.
/// The two flags are kept as they were given and decide nothing.
#[derive(Clone, Copy, Debug, PartialEq, Eq, Structural)]
pub struct AllowUpdate {
    pub after_expiry: bool,
    pub after_misbehaviour: bool,
}

/// What an upgrade of the chain passes on to the client.
#[derive(Clone, Copy, Debug, PartialEq, Eq, Structural)]
pub struct UpgradeOptions {
    pub unbonding_period: Duration,
}

/// The parameters that the verifier works with.
#[derive(Clone, Copy, Debug, PartialEq, Eq, Structural)]
pub struct LightClientOptions {
    pub trust_threshold: TrustThreshold,
    pub trusting_period: Duration,
    pub clock_drift: Duration,
}

/// The state of a Tendermint light client.
#[derive(Debug, PartialEq, Eq)]
pub struct ClientState {
    pub chain_id: ChainId,
    pub trust_level: TrustThreshold,
    pub trusting_period: Duration,
    pub unbonding_period: Duration,
    pub max_clock_drift: Duration,
    pub latest_height: Height,
    pub proof_specs: ProofSpecs,
    pub upgrade_path: Vec<String>,
    pub allow_update: AllowUpdate,
    pub frozen_height: Option<Height>,
}

/// A client state as plain values.
pub struct ClientStateView {
    pub chain_id: Seq<char>,
    pub version: u64,
    pub trust_level: TrustThreshold,
    pub trusting_period: Duration,
    pub unbonding_period: Duration,
    pub max_clock_drift: Duration,
    pub latest_height: Height,
    pub proof_specs: Seq<TreeSpec>,
    pub upgrade_path: Seq<Seq<char>>,
    pub allow_update: AllowUpdate,
    pub frozen_height: Option<Height>,
}

impl View for ClientState {
    type V = ClientStateView;

    open spec fn view(&self) -> ClientStateView {
        ClientStateView {
            chain_id: self.chain_id.text(),
            version: self.chain_id.spec_version(),
            trust_level: self.trust_level,
            trusting_period: self.trusting_period,
            unbonding_period: self.unbonding_period,
            max_clock_drift: self.max_clock_drift,
            latest_height: self.latest_height,
            proof_specs: self.proof_specs@,
            upgrade_path: texts(self.upgrade_path@),
            allow_update: self.allow_update,
            frozen_height: self.frozen_height,
        }
    }
}

/// The first rule that the parameters of a client state break.
pub enum Fault {
    ChainIdTooLong,
    ZeroTrustLevel,
    TrustLevelOutOfRange,
    ZeroTrustingPeriod,
    ZeroUnbondingPeriod,
    TrustingPeriodTooLong,
    ZeroClockDrift,
    RevisionMismatch,
    NoProofSpecs,
    MalformedProofSpec { index: int },
    BlankUpgradeKey { index: int },
}

/// The position of the first blank key in an upgrade path, if there is one.
pub open spec fn first_blank(path: Seq<Seq<char>>) -> Option<int> {
    if exists|i: int| 0 <= i < path.len() && blank(#[trigger] path[i]) {
        let i = choose|i: int|
            0 <= i < path.len() && blank(#[trigger] path[i]) && forall|j: int|
                0 <= j < i ==> !blank(#[trigger] path[j]);
        Some(i)
    } else {
        None
    }
}

impl ClientStateView {
    /// What the types of the values give: the trust level is a threshold,
    /// the periods have less than a second of nanoseconds, and the heights have
    /// a block number.
    pub open spec fn well_typed(self) -> bool {
        &&& self.trust_level.wf()
        &&& self.trusting_period.wf()
        &&& self.unbonding_period.wf()
        &&& self.max_clock_drift.wf()
        &&& self.latest_height.num() != 0
        &&& self.frozen_height matches Some(h) ==> h.num() != 0
    }

    /// The rules that every client state made by [`ClientState::new`] keeps.
    pub open spec fn valid(self) -> bool {
        &&& self.well_typed()
        &&& vstd::utf8::encode_utf8(self.chain_id).len() <= max_chain_id_len()
        &&& self.trust_level.in_range()
        &&& 0 < self.trusting_period.total_nanos() < self.unbonding_period.total_nanos()
        &&& self.max_clock_drift.total_nanos() > 0
        &&& self.latest_height.rev() == self.version
        &&& self.proof_specs.len() > 0
        &&& forall|i: int|
            0 <= i < self.proof_specs.len() ==> (#[trigger] self.proof_specs[i]).well_formed()
        &&& forall|i: int| 0 <= i < self.upgrade_path.len() ==> !blank(#[trigger] self.upgrade_path[i])
    }

    /// The first rule that these values break, in the order in which the
    /// rules are checked.
    pub open spec fn fault(self) -> Option<Fault> {
        if vstd::utf8::encode_utf8(self.chain_id).len() > max_chain_id_len() {
            Some(Fault::ChainIdTooLong)
        } else if self.trust_level.is_zero() {
            Some(Fault::ZeroTrustLevel)
        } else if !self.trust_level.in_range() {
            Some(Fault::TrustLevelOutOfRange)
        } else if self.trusting_period.total_nanos() == 0 {
            Some(Fault::ZeroTrustingPeriod)
        } else if self.unbonding_period.total_nanos() == 0 {
            Some(Fault::ZeroUnbondingPeriod)
        } else if self.trusting_period.total_nanos() >= self.unbonding_period.total_nanos() {
            Some(Fault::TrustingPeriodTooLong)
        } else if self.max_clock_drift.total_nanos() == 0 {
            Some(Fault::ZeroClockDrift)
        } else if self.latest_height.rev() != self.version {
            Some(Fault::RevisionMismatch)
        } else if self.proof_specs.len() == 0 {
            Some(Fault::NoProofSpecs)
        } else if let Some(index) = ProofSpecs::first_malformed(self.proof_specs) {
            Some(Fault::MalformedProofSpec { index })
        } else {
            match first_blank(self.upgrade_path) {
                Some(index) => Some(Fault::BlankUpgradeKey { index }),
                None => None,
            }
        }
    }
}

/// Values of their types are valid exactly when they break no rule.
pub proof fn lemma_valid_iff_no_fault(v: ClientStateView)
    requires
        v.well_typed(),
    ensures
        v.valid() <==> v.fault().is_none(),
{
    lemma_first_blank(v.upgrade_path);
    ProofSpecs::lemma_first_malformed(v.proof_specs);
}

/// The first blank key is blank, and no key before it is.
pub proof fn lemma_first_blank(path: Seq<Seq<char>>)
    ensures
        match first_blank(path) {
            Some(i) => 0 <= i < path.len() && blank(path[i]) && forall|j: int|
                0 <= j < i ==> !blank(#[trigger] path[j]),
            None => forall|j: int| 0 <= j < path.len() ==> !blank(#[trigger] path[j]),
        },
{
    if exists|i: int| 0 <= i < path.len() && blank(#[trigger] path[i]) {
        let w = choose|i: int| 0 <= i < path.len() && blank(#[trigger] path[i]);
        lemma_least_blank(path, w);
    }
}

/// Below a blank key there is a first blank key.
proof fn lemma_least_blank(path: Seq<Seq<char>>, w: int)
    requires
        0 <= w < path.len(),
        blank(path[w]),
    ensures
        exists|i: int|
            0 <= i < path.len() && blank(#[trigger] path[i]) && forall|j: int|
                0 <= j < i ==> !blank(#[trigger] path[j]),
    decreases w,
{
    if exists|k: int| 0 <= k < w && blank(#[trigger] path[k]) {
        let k = choose|k: int| 0 <= k < w && blank(#[trigger] path[k]);
        lemma_least_blank(path, k);
    } else {
        assert(0 <= w < path.len() && blank(path[w]) && forall|j: int|
            0 <= j < w ==> !blank(#[trigger] path[j]));
    }
}

/// How the text of an error speaks of a span of time: the seconds, and
/// the nanoseconds beyond them where there are any.
pub open spec fn duration_text(d: Duration) -> Seq<char> {
    if d.spec_subsec_nanos() == 0 {
        decimal_digits(d.spec_secs() as nat) + "s"@
    } else {
        decimal_digits(d.spec_secs() as nat) + "s "@ + decimal_digits(d.spec_subsec_nanos() as nat)
            + "ns"@
    }
}

/// Appends the text of a span of time.
fn append_duration(out: &mut String, d: Duration)
    ensures
        final(out)@ == old(out)@ + duration_text(d),
{
    append_decimal(out, d.as_secs());
    if d.subsec_nanos() == 0 {
        out.append("s");
    } else {
        out.append("s ");
        append_decimal(out, d.subsec_nanos() as u64);
        out.append("ns");
    }
    assert(out@ =~= old(out)@ + duration_text(d));
}

/// What the error says that reports the fault.
pub open spec fn fault_reported(e: Error, fault: Fault, v: ClientStateView) -> bool {
    match fault {
        Fault::ChainIdTooLong => e matches Error::ChainIdTooLong { chain_id, len, max_len }
            && chain_id.text() == v.chain_id && chain_id.spec_version() == v.version && len
            == vstd::utf8::encode_utf8(v.chain_id).len() && max_len == max_chain_id_len(),
        Fault::ZeroTrustLevel => e matches Error::InvalidTrustThreshold { reason } && reason@
            == "ClientState trust-level cannot be zero"@,
        Fault::TrustLevelOutOfRange => e == (Error::InvalidTendermintTrustThreshold {
            numerator: v.trust_level.num(),
            denominator: v.trust_level.den(),
        }),
        Fault::ZeroTrustingPeriod => e matches Error::InvalidTrustThreshold { reason } && reason@
            == "ClientState trusting period ("@ + duration_text(v.trusting_period)
            + ") must be greater than zero"@,
        Fault::ZeroUnbondingPeriod => e matches Error::InvalidTrustThreshold { reason }
            && reason@ == "ClientState unbonding period ("@ + duration_text(v.unbonding_period)
            + ") must be greater than zero"@,
        Fault::TrustingPeriodTooLong => e matches Error::InvalidTrustThreshold { reason }
            && reason@ == "ClientState trusting period ("@ + duration_text(v.trusting_period)
            + ") must be smaller than unbonding period ("@ + duration_text(v.unbonding_period)
            + ")"@,
        Fault::ZeroClockDrift => e matches Error::InvalidMaxClockDrift { reason } && reason@
            == "ClientState max-clock-drift must be greater than zero"@,
        Fault::RevisionMismatch => e matches Error::InvalidLatestHeight { reason } && reason@
            == "ClientState latest-height revision number must match chain-id version"@,
        Fault::NoProofSpecs => e matches Error::Validation { reason } && reason@
            == "ClientState proof-specs cannot be empty"@,
        Fault::MalformedProofSpec { index } => e matches Error::Validation { reason } && reason@
            == "ClientState proof-spec at index "@ + decimal_digits(index as nat)
            + " is not well formed"@,
        Fault::BlankUpgradeKey { index } => e matches Error::Validation { reason } && reason@
            == "ClientState upgrade-path key at index "@ + decimal_digits(index as nat)
            + " cannot be empty"@,
    }
}

/// The position of the first key that holds white space only.
fn first_blank_key(path: &Vec<String>) -> (r: Option<usize>)
    ensures
        match r {
            Some(i) => first_blank(texts(path@)) == Some(i as int),
            None => first_blank(texts(path@)).is_none(),
        },
{
    let mut idx: usize = 0;
    while idx < path.len()
        invariant
            idx <= path@.len(),
            forall|j: int| 0 <= j < idx ==> !blank(#[trigger] texts(path@)[j]),
        decreases path@.len() - idx,
    {
        if trimmed(path[idx].as_str()).is_empty() {
            proof {
                let keys = texts(path@);
                assert(keys[idx as int] == path@[idx as int]@);
                lemma_first_blank(keys);
                let first = first_blank(keys).unwrap();
                if first < idx {
                    assert(!blank(keys[first]));
                }
                if first > idx {
                    assert(!blank(keys[idx as int]));
                }
            }
            return Some(idx);
        }
        proof {
            assert(texts(path@)[idx as int] == path@[idx as int]@);
        }
        idx += 1;
    }
    proof {
        lemma_first_blank(texts(path@));
    }
    None
}

impl ClientState {
    /// The client state with these parameters, where they keep every rule;
    /// otherwise the error of the first rule that they break. The rules are
    /// those of [`ClientStateView::valid`], and the frozen height is taken
    /// as it is.
    pub fn new(
        chain_id: ChainId,
        trust_level: TrustThreshold,
        trusting_period: Duration,
        unbonding_period: Duration,
        max_clock_drift: Duration,
        latest_height: Height,
        proof_specs: ProofSpecs,
        upgrade_path: Vec<String>,
        allow_update: AllowUpdate,
        frozen_height: Option<Height>,
    ) -> (r: Result<ClientState, Error>)
        ensures
            ({
                let cs = ClientState {
                    chain_id,
                    trust_level,
                    trusting_period,
                    unbonding_period,
                    max_clock_drift,
                    latest_height,
                    proof_specs,
                    upgrade_path,
                    allow_update,
                    frozen_height,
                };
                match cs@.fault() {
                    None => r == Ok::<ClientState, Error>(cs) && cs@.valid(),
                    Some(fault) => r is Err && fault_reported(r->Err_0, fault, cs@),
                }
            }),
    {
        let _trusting: u32 = trusting_period.subsec_nanos();
        let _unbonding: u32 = unbonding_period.subsec_nanos();
        let _drift: u32 = max_clock_drift.subsec_nanos();
        let _latest: u64 = latest_height.revision_height();
        match &frozen_height {
            Some(h) => {
                let _frozen: u64 = h.revision_height();
            },
            None => {},
        }
        let len = chain_id.len();
        let max_len = tendermint_max_chain_id_len();
        if len > max_len {
            return Err(Error::ChainIdTooLong { chain_id: chain_id.clone(), len, max_len });
        }
        if trust_level.numerator() == 0 && trust_level.denominator() == 0 {
            return Err(
                Error::InvalidTrustThreshold {
                    reason: String::from_str("ClientState trust-level cannot be zero"),
                },
            );
        }
        if !trust_level.accepted_by_verifier() {
            return Err(
                Error::InvalidTendermintTrustThreshold {
                    numerator: trust_level.numerator(),
                    denominator: trust_level.denominator(),
                },
            );
        }
        if trusting_period.is_zero() {
            let mut reason = String::from_str("ClientState trusting period (");
            append_duration(&mut reason, trusting_period);
            reason.append(") must be greater than zero");
            return Err(Error::InvalidTrustThreshold { reason });
        }
        if unbonding_period.is_zero() {
            let mut reason = String::from_str("ClientState unbonding period (");
            append_duration(&mut reason, unbonding_period);
            reason.append(") must be greater than zero");
            return Err(Error::InvalidTrustThreshold { reason });
        }
        if !trusting_period.lt(&unbonding_period) {
            let mut reason = String::from_str("ClientState trusting period (");
            append_duration(&mut reason, trusting_period);
            reason.append(") must be smaller than unbonding period (");
            append_duration(&mut reason, unbonding_period);
            reason.append(")");
            return Err(Error::InvalidTrustThreshold { reason });
        }
        if max_clock_drift.is_zero() {
            return Err(
                Error::InvalidMaxClockDrift {
                    reason: String::from_str(
                        "ClientState max-clock-drift must be greater than zero",
                    ),
                },
            );
        }
        if latest_height.revision_number() != chain_id.version() {
            return Err(
                Error::InvalidLatestHeight {
                    reason: String::from_str(
                        "ClientState latest-height revision number must match chain-id version",
                    ),
                },
            );
        }
        if proof_specs.is_empty() {
            return Err(
                Error::Validation {
                    reason: String::from_str("ClientState proof-specs cannot be empty"),
                },
            );
        }
        match proof_specs.find_malformed() {
            Some(idx) => {
                let mut reason = String::from_str("ClientState proof-spec at index ");
                append_decimal(&mut reason, idx as u64);
                reason.append(" is not well formed");
                return Err(Error::Validation { reason });
            },
            None => {},
        }
        proof {
            ProofSpecs::lemma_first_malformed(proof_specs@);
        }
        match first_blank_key(&upgrade_path) {
            Some(idx) => {
                let mut reason = String::from_str("ClientState upgrade-path key at index ");
                append_decimal(&mut reason, idx as u64);
                reason.append(" cannot be empty");
                return Err(Error::Validation { reason });
            },
            None => {},
        }
        proof {
            lemma_first_blank(texts(upgrade_path@));
        }
        Ok(
            ClientState {
                chain_id,
                trust_level,
                trusting_period,
                unbonding_period,
                max_clock_drift,
                latest_height,
                proof_specs,
                upgrade_path,
                allow_update,
                frozen_height,
            },
        )
    }
}

/// Whether the delay in time has passed at `current`: the current time is
/// the earliest one, or both are set and the current one is later.
pub open spec fn time_delay_passed(current: Timestamp, processed: Timestamp, delay: Duration) -> bool {
    if !processed.is_set() {
        current == processed
    } else {
        &&& processed.spec_nanos() + delay.total_nanos() <= u64::MAX
        &&& current.spec_nanos() >= processed.spec_nanos() + delay.total_nanos()
    }
}

/// Whether the delay in blocks has passed at `current`: the current height
/// is at or above the processed height moved on by the delay, in the order
/// of heights.
pub open spec fn block_delay_passed(current: Height, processed: Height, delay: u64) -> bool {
    current.rev() > processed.rev() || (current.rev() == processed.rev() && current.num()
        >= processed.num() + delay)
}

/// Whether both delays have passed.
pub open spec fn delay_passed(
    current_time: Timestamp,
    current_height: Height,
    processed_time: Timestamp,
    processed_height: Height,
    delay_period_time: Duration,
    delay_period_blocks: u64,
) -> bool {
    time_delay_passed(current_time, processed_time, delay_period_time) && block_delay_passed(
        current_height,
        processed_height,
        delay_period_blocks,
    )
}

/// The error of a delay that has not passed, where there is one.
pub open spec fn delay_error(
    current_time: Timestamp,
    current_height: Height,
    processed_time: Timestamp,
    processed_height: Height,
    delay_period_time: Duration,
    delay_period_blocks: u64,
) -> Option<Error> {
    if processed_time.is_set() && processed_time.spec_nanos() + delay_period_time.total_nanos()
        > u64::MAX {
        Some(Error::TimestampOverflow)
    } else if !time_delay_passed(current_time, processed_time, delay_period_time) {
        Some(
            Error::NotEnoughTimeElapsed {
                current_time,
                earliest_time: if processed_time.is_set() {
                    Timestamp::of(
                        (processed_time.spec_nanos() + delay_period_time.total_nanos()) as u64,
                    )
                } else {
                    processed_time
                },
            },
        )
    } else if block_delay_passed(current_height, processed_height, delay_period_blocks) {
        None
    } else if processed_height.num() + delay_period_blocks > u64::MAX {
        Some(Error::DelayHeightOverflow { processed_height, delay_period_blocks })
    } else {
        Some(
            Error::NotEnoughBlocksElapsed {
                current_height,
                earliest_height: Height::of(
                    processed_height.rev(),
                    (processed_height.num() + delay_period_blocks) as u64,
                ),
            },
        )
    }
}

/// With both timestamps set, the delays have passed exactly when the
/// current time is at or after the processed time plus the delay in time,
/// and the current height is at or above the processed height plus the delay
/// in blocks.
pub proof fn lemma_delay_passed_iff(
    current_time: Timestamp,
    current_height: Height,
    processed_time: Timestamp,
    processed_height: Height,
    delay_period_time: Duration,
    delay_period_blocks: u64,
)
    requires
        current_time.is_set(),
        processed_time.is_set(),
    ensures
        delay_passed(
            current_time,
            current_height,
            processed_time,
            processed_height,
            delay_period_time,
            delay_period_blocks,
        ) <==> (current_time.spec_nanos() >= processed_time.spec_nanos()
            + delay_period_time.total_nanos() && (current_height.rev() > processed_height.rev() || (
        current_height.rev() == processed_height.rev() && current_height.num()
            >= processed_height.num() + delay_period_blocks))),
{
}

/// Delays that have passed stay passed as time and height go on.
pub proof fn lemma_delay_passed_monotone(
    current_time: Timestamp,
    current_height: Height,
    later_time: Timestamp,
    later_height: Height,
    processed_time: Timestamp,
    processed_height: Height,
    delay_period_time: Duration,
    delay_period_blocks: u64,
)
    requires
        current_time.is_set(),
        processed_time.is_set(),
        current_time.spec_nanos() <= later_time.spec_nanos(),
        current_height.spec_le(later_height),
        delay_passed(
            current_time,
            current_height,
            processed_time,
            processed_height,
            delay_period_time,
            delay_period_blocks,
        ),
    ensures
        delay_passed(
            later_time,
            later_height,
            processed_time,
            processed_height,
            delay_period_time,
            delay_period_blocks,
        ),
{
}

impl ClientState {
    /// The error of a proof at `height`, where the client cannot vouch for
    /// that height.
    pub open spec fn height_error(&self, height: Height) -> Option<Error> {
        if self.latest_height.spec_lt(height) {
            Some(
                Error::InsufficientHeight {
                    latest_height: self.latest_height,
                    target_height: height,
                },
            )
        } else {
            match self.frozen_height {
                Some(frozen_height) => if frozen_height.spec_le(height) {
                    Some(Error::ClientFrozen { frozen_height, target_height: height })
                } else {
                    None
                },
                None => None,
            }
        }
    }

    /// A height is vouched for exactly when it is not above the latest
    /// height and, where the client is frozen, below the frozen height.
    pub proof fn lemma_height_error_iff(&self, height: Height)
        ensures
            self.height_error(height).is_none() <==> (height.spec_le(self.latest_height) && (
            self.frozen_height.is_none() || height.spec_lt(self.frozen_height.unwrap()))),
    {
    }

    pub fn latest_height(&self) -> (r: Height)
        ensures
            r == self.latest_height,
    {
        self.latest_height
    }

    pub fn chain_id(&self) -> (r: ChainId)
        ensures
            r == self.chain_id,
    {
        self.chain_id.clone()
    }

    /// The client type of every Tendermint client.
    pub fn client_type(&self) -> (r: ClientType)
        ensures
            r == ClientType::Tendermint,
    {
        ClientType::Tendermint
    }

    pub fn frozen_height(&self) -> (r: Option<Height>)
        ensures
            r == self.frozen_height,
    {
        self.frozen_height
    }

    pub fn is_frozen(&self) -> (r: bool)
        ensures
            r == self.frozen_height.is_some(),
    {
        self.frozen_height.is_some()
    }

    /// The same state, frozen from `h` on.
    pub fn with_frozen_height(self, h: Height) -> (r: ClientState)
        ensures
            r == (ClientState { frozen_height: Some(h), ..self }),
    {
        ClientState { frozen_height: Some(h), ..self }
    }

    /// The same state with another latest height.
    pub fn with_latest_height(self, h: Height) -> (r: ClientState)
        ensures
            r == (ClientState { latest_height: h, ..self }),
    {
        ClientState { latest_height: h, ..self }
    }

    /// After how long the client should be updated so that it does not
    /// expire: two thirds of the trusting period.
    pub fn refresh_time(&self) -> (r: Option<Duration>)
        ensures
            r.is_some(),
            r.unwrap().wf(),
            r.unwrap().total_nanos() == (2 * self.trusting_period.total_nanos()) / 3,
    {
        Some(self.trusting_period.two_thirds())
    }

    /// Whether a client that was last updated `elapsed` ago has expired.
    pub fn expired(&self, elapsed: Duration) -> (r: bool)
        ensures
            r == (elapsed.total_nanos() > self.trusting_period.total_nanos()),
    {
        self.trusting_period.lt(&elapsed)
    }

    /// The parameters for the verifier, where the trust level is one that
    /// the verifier takes.
    pub open spec fn spec_options(&self) -> Result<LightClientOptions, Error> {
        if self.trust_level.in_range() {
            Ok(
                LightClientOptions {
                    trust_threshold: self.trust_level,
                    trusting_period: self.trusting_period,
                    clock_drift: self.max_clock_drift,
                },
            )
        } else {
            Err(
                Error::InvalidTendermintTrustThreshold {
                    numerator: self.trust_level.num(),
                    denominator: self.trust_level.den(),
                },
            )
        }
    }

    /// The parameters for the verifier, where the trust level is one that
    /// the verifier takes: at least one third and below one.
    pub fn as_light_client_options(&self) -> (r: Result<LightClientOptions, Error>)
        ensures
            r == self.spec_options(),
    {
        if !self.trust_level.accepted_by_verifier() {
            return Err(
                Error::InvalidTendermintTrustThreshold {
                    numerator: self.trust_level.numerator(),
                    denominator: self.trust_level.denominator(),
                },
            );
        }
        Ok(
            LightClientOptions {
                trust_threshold: self.trust_level,
                trusting_period: self.trusting_period,
                clock_drift: self.max_clock_drift,
            },
        )
    }

    /// Checks that the delay period of a connection has passed since the
    /// host processed the consensus state: in time and in blocks.
    pub fn verify_delay_passed(
        current_time: Timestamp,
        current_height: Height,
        processed_time: Timestamp,
        processed_height: Height,
        delay_period_time: Duration,
        delay_period_blocks: u64,
    ) -> (r: Result<(), Error>)
        ensures
            match delay_error(
                current_time,
                current_height,
                processed_time,
                processed_height,
                delay_period_time,
                delay_period_blocks,
            ) {
                Some(e) => r == Err::<(), Error>(e),
                None => r == Ok::<(), Error>(()),
            },
            r.is_ok() <==> delay_passed(
                current_time,
                current_height,
                processed_time,
                processed_height,
                delay_period_time,
                delay_period_blocks,
            ),
    {
        let earliest_time = match processed_time.add(delay_period_time) {
            Ok(t) => t,
            Err(_) => {
                return Err(Error::TimestampOverflow);
            },
        };
        if !(current_time == earliest_time || current_time.after(&earliest_time)) {
            return Err(Error::NotEnoughTimeElapsed { current_time, earliest_time });
        }
        if current_height.revision_number() > processed_height.revision_number() {
            return Ok(());
        }
        let earliest_number = match processed_height.revision_height().checked_add(
            delay_period_blocks,
        ) {
            Some(n) => n,
            None => {
                return Err(
                    Error::DelayHeightOverflow { processed_height, delay_period_blocks },
                );
            },
        };
        let earliest_height = processed_height.add(delay_period_blocks);
        if current_height.lt(&earliest_height) {
            return Err(Error::NotEnoughBlocksElapsed { current_height, earliest_height });
        }
        Ok(())
    }

    /// Checks that the client can vouch for `height`: it has reached that
    /// height, and it is not frozen at or below it.
    pub fn verify_height(&self, height: Height) -> (r: Result<(), Error>)
        ensures
            match self.height_error(height) {
                Some(e) => r == Err::<(), Error>(e),
                None => r == Ok::<(), Error>(()),
            },
    {
        if self.latest_height.lt(&height) {
            return Err(
                Error::InsufficientHeight {
                    latest_height: self.latest_height(),
                    target_height: height,
                },
            );
        }
        match self.frozen_height {
            Some(frozen_height) => {
                if frozen_height.le(&height) {
                    Err(Error::ClientFrozen { frozen_height, target_height: height })
                } else {
                    Ok(())
                }
            },
            None => Ok(()),
        }
    }

    /// The proofs of an upgrade are not checked by this client: every
    /// upgrade is refused.
    pub fn verify_upgrade_and_update_state(
        &self,
        consensus_state: crate::header::Any,
        proof_upgrade_client: crate::merkle::MerkleProof,
        proof_upgrade_consensus_state: crate::merkle::MerkleProof,
    ) -> (r: Result<crate::client::UpdatedState, crate::error::ClientError>)
        ensures
            r == Err::<crate::client::UpdatedState, crate::error::ClientError>(
                crate::error::ClientError::ClientSpecific { cause: Error::UpgradeNotSupported },
            ),
    {
        Err(crate::error::ClientError::ClientSpecific { cause: Error::UpgradeNotSupported })
    }

    /// Takes the client over to an upgraded chain: the parameters that the
    /// chain chooses are kept, those that the client's owner chose are
    /// reset, and the client is no longer frozen. The state is not valid
    /// again until the owner has set the trust parameters anew.
    pub fn upgrade(
        &mut self,
        upgrade_height: Height,
        upgrade_options: &UpgradeOptions,
        chain_id: ChainId,
    )
        ensures
            *final(self) == (ClientState {
                chain_id,
                trust_level: TrustThreshold::of(0, 0),
                trusting_period: Duration::of(0, 0),
                unbonding_period: upgrade_options.unbonding_period,
                max_clock_drift: Duration::of(0, 0),
                latest_height: upgrade_height,
                allow_update: AllowUpdate { after_expiry: false, after_misbehaviour: false },
                frozen_height: None,
                ..*old(self)
            }),
    {
        self.trusting_period = Duration::zero();
        self.trust_level = TrustThreshold::zero();
        self.allow_update.after_expiry = false;
        self.allow_update.after_misbehaviour = false;
        self.frozen_height = None;
        self.max_clock_drift = Duration::zero();
        self.latest_height = upgrade_height;
        self.unbonding_period = upgrade_options.unbonding_period;
        self.chain_id = chain_id;
    }
}

impl Clone for ClientState {
    fn clone(&self) -> (r: ClientState)
        ensures
            r@ == self@,
    {
        let mut upgrade_path: Vec<String> = Vec::new();
        let mut i: usize = 0;
        while i < self.upgrade_path.len()
            invariant
                i <= self.upgrade_path@.len(),
                upgrade_path@ == self.upgrade_path@.take(i as int),
            decreases self.upgrade_path@.len() - i,
        {
            upgrade_path.push(self.upgrade_path[i].clone());
            assert(upgrade_path@ =~= self.upgrade_path@.take(i + 1));
            i += 1;
        }
        assert(upgrade_path@ =~= self.upgrade_path@);
        ClientState {
            chain_id: self.chain_id.clone(),
            trust_level: self.trust_level,
            trusting_period: self.trusting_period,
            unbonding_period: self.unbonding_period,
            max_clock_drift: self.max_clock_drift,
            latest_height: self.latest_height,
            proof_specs: self.proof_specs.clone(),
            upgrade_path,
            allow_update: self.allow_update,
            frozen_height: self.frozen_height,
        }
    }
}

} // verus!

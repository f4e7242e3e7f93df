//! Trust thresholds: the fraction of trusted voting power that must sign a header.

use vstd::prelude::*;
use crate::error::ClientError;

verus! {

/// What `tendermint`'s fraction constructor accepts: `1/3 <= n/d <= 1`.
pub open spec fn fraction_accepted(numerator: u64, denominator: u64) -> bool {
    &&& numerator <= denominator
    &&& denominator != 0
    &&& 3 * numerator >= denominator
}

/// Asks `tendermint::trust_threshold::TrustThresholdFraction::new` whether it
/// accepts the fraction. It rejects a numerator above the denominator, a zero
/// denominator, and a fraction under one third. The product `3 * numerator`
/// is computed in `u64` there, so the caller keeps it in range.
#[verifier::external_body]
pub(crate) fn tendermint_accepts(numerator: u64, denominator: u64) -> (ok: bool)
    requires
        3 * numerator <= u64::MAX,
    ensures
        ok == fraction_accepted(numerator, denominator),
{
    tendermint::trust_threshold::TrustThresholdFraction::new(numerator, denominator).is_ok()
}

/// A fraction below one, or the fraction `0/0` that stands for "no trust
/// level set".
#[derive(Clone, Copy, Debug, PartialEq, Eq, Structural)]
pub struct TrustThreshold {
    numerator: u64,
    denominator: u64,
}

impl TrustThreshold {
    #[verifier::type_invariant]
    spec fn below_one(self) -> bool {
        (self.numerator == 0 && self.denominator == 0) || self.numerator < self.denominator
    }

    pub closed spec fn num(self) -> u64 {
        self.numerator
    }

    pub closed spec fn den(self) -> u64 {
        self.denominator
    }

    /// The fraction with the given parts, whatever they are.
    pub closed spec fn of(numerator: u64, denominator: u64) -> TrustThreshold {
        TrustThreshold { numerator, denominator }
    }

    /// The fraction is `0/0`.
    pub open spec fn is_zero(self) -> bool {
        self.num() == 0 && self.den() == 0
    }

    /// What a threshold may be: `0/0`, or a fraction below one.
    pub open spec fn wf(self) -> bool {
        self.is_zero() || self.num() < self.den()
    }

    /// At least one third and below one.
    pub open spec fn in_range(self) -> bool {
        self.num() < self.den() && 3 * self.num() >= self.den()
    }

    /// A threshold is its two parts.
    pub broadcast proof fn lemma_parts(self, other: TrustThreshold)
        ensures
            #![trigger self.num(), other.num()]
            #![trigger self.den(), other.den()]
            (self == other) <==> (self.num() == other.num() && self.den() == other.den()),
    {
    }

    /// What `of` builds has the parts it was given.
    pub broadcast proof fn lemma_of(numerator: u64, denominator: u64)
        ensures
            (#[trigger] TrustThreshold::of(numerator, denominator)).num() == numerator,
            TrustThreshold::of(numerator, denominator).den() == denominator,
    {
    }

    /// The threshold `numerator / denominator`. A fraction of one or more is
    /// refused, and so is a zero denominator under a numerator that is not zero.
    pub fn new(numerator: u64, denominator: u64) -> (r: Result<TrustThreshold, ClientError>)
        ensures
            TrustThreshold::of(numerator, denominator).wf() ==> r == Ok::<
                TrustThreshold,
                ClientError,
            >(TrustThreshold::of(numerator, denominator)),
            !TrustThreshold::of(numerator, denominator).wf() ==> r == Err::<
                TrustThreshold,
                ClientError,
            >(ClientError::InvalidTrustThreshold { numerator, denominator }),
    {
        if numerator > denominator || (denominator == 0 && numerator != 0) || (numerator
            == denominator && numerator != 0) {
            return Err(ClientError::InvalidTrustThreshold { numerator, denominator });
        }
        Ok(TrustThreshold { numerator, denominator })
    }

    /// One third.
    pub fn one_third() -> (r: TrustThreshold)
        ensures
            r == TrustThreshold::of(1, 3),
    {
        TrustThreshold { numerator: 1, denominator: 3 }
    }

    /// Two thirds.
    pub fn two_thirds() -> (r: TrustThreshold)
        ensures
            r == TrustThreshold::of(2, 3),
    {
        TrustThreshold { numerator: 2, denominator: 3 }
    }

    /// The fraction `0/0`: no trust level.
    pub fn zero() -> (r: TrustThreshold)
        ensures
            r == TrustThreshold::of(0, 0),
    {
        TrustThreshold { numerator: 0, denominator: 0 }
    }

    pub fn numerator(&self) -> (r: u64)
        ensures
            r == self.num(),
    {
        self.numerator
    }

    pub fn denominator(&self) -> (r: u64)
        ensures
            r == self.den(),
    {
        self.denominator
    }

    /// Whether the verifier takes this threshold: it is its own judgement
    /// where the numerator can be tripled, and follows from the threshold
    /// being below one where it cannot.
    pub fn accepted_by_verifier(&self) -> (r: bool)
        ensures
            r == fraction_accepted(self.num(), self.den()),
            self.wf(),
            r == self.in_range(),
    {
        proof {
            use_type_invariant(self);
        }
        if self.numerator <= u64::MAX / 3 {
            tendermint_accepts(self.numerator, self.denominator)
        } else {
            true
        }
    }
}

impl Default for TrustThreshold {
    /// One third.
    fn default() -> (r: TrustThreshold)
        ensures
            r == TrustThreshold::of(1, 3),
    {
        TrustThreshold::one_third()
    }
}

} // verus!

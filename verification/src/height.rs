//! Block heights, ordered by revision and then by height within the revision.

use vstd::prelude::*;
use crate::error::ClientError;

verus! {

/// A position on a chain: the revision of the chain and the block number in it.
///
/// Every height has a block number of at least one: that is the invariant of
/// the type. The derived order compares the revision first and the block
/// number second, as [`Height::spec_lt`] does.
#[derive(Clone, Copy, Debug, PartialEq, Eq, Structural, PartialOrd, Ord, Hash)]
pub struct Height {
    revision_number: u64,
    revision_height: u64,
}

impl Height {
    #[verifier::type_invariant]
    spec fn has_block(self) -> bool {
        self.revision_height != 0
    }

    /// The revision this height belongs to.
    pub closed spec fn rev(self) -> u64 {
        self.revision_number
    }

    /// The block number within the revision.
    pub closed spec fn num(self) -> u64 {
        self.revision_height
    }

    /// The height with the given parts, whatever they are.
    pub closed spec fn of(revision_number: u64, revision_height: u64) -> Height {
        Height { revision_number, revision_height }
    }

    /// Strictly below `other`: an earlier revision, or the same revision and a
    /// smaller block number.
    pub open spec fn spec_lt(self, other: Height) -> bool {
        self.rev() < other.rev() || (self.rev() == other.rev() && self.num() < other.num())
    }

    /// Below or equal to `other`.
    pub open spec fn spec_le(self, other: Height) -> bool {
        self.spec_lt(other) || self == other
    }

    /// Two heights are the same exactly when both parts agree.
    pub broadcast proof fn lemma_parts(self, other: Height)
        ensures
            #![trigger self.rev(), other.rev()]
            #![trigger self.num(), other.num()]
            (self == other) <==> (self.rev() == other.rev() && self.num() == other.num()),
    {
    }

    /// What `of` builds has the parts it was given.
    pub broadcast proof fn lemma_of(revision_number: u64, revision_height: u64)
        ensures
            (#[trigger] Height::of(revision_number, revision_height)).rev() == revision_number,
            Height::of(revision_number, revision_height).num() == revision_height,
    {
    }

    /// A height in the given revision. A block number of zero is refused.
    pub fn new(revision_number: u64, revision_height: u64) -> (r: Result<Height, ClientError>)
        ensures
            revision_height == 0 ==> r == Err::<Height, ClientError>(ClientError::InvalidHeight),
            revision_height != 0 ==> r == Ok::<Height, ClientError>(
                Height::of(revision_number, revision_height),
            ),
    {
        if revision_height == 0 {
            return Err(ClientError::InvalidHeight);
        }
        Ok(Height { revision_number, revision_height })
    }

    pub fn revision_number(&self) -> (r: u64)
        ensures
            r == self.rev(),
    {
        self.revision_number
    }

    pub fn revision_height(&self) -> (r: u64)
        ensures
            r == self.num(),
            r != 0,
    {
        proof {
            use_type_invariant(self);
        }
        self.revision_height
    }

    /// The height `delta` blocks further in the same revision.
    pub fn add(&self, delta: u64) -> (r: Height)
        requires
            self.num() + delta <= u64::MAX,
        ensures
            r == Height::of(self.rev(), (self.num() + delta) as u64),
    {
        proof {
            use_type_invariant(self);
        }
        Height { revision_number: self.revision_number, revision_height: self.revision_height + delta }
    }

    /// The next height in the same revision.
    pub fn increment(&self) -> (r: Height)
        requires
            self.num() < u64::MAX,
        ensures
            r == Height::of(self.rev(), (self.num() + 1) as u64),
    {
        self.add(1)
    }

    /// The height `delta` blocks back in the same revision, which must stay
    /// at block one or above.
    pub fn sub(&self, delta: u64) -> (r: Result<Height, ClientError>)
        ensures
            self.num() <= delta ==> r == Err::<Height, ClientError>(
                ClientError::InvalidHeightResult,
            ),
            self.num() > delta ==> r == Ok::<Height, ClientError>(
                Height::of(self.rev(), (self.num() - delta) as u64),
            ),
    {
        if self.revision_height <= delta {
            return Err(ClientError::InvalidHeightResult);
        }
        Ok(Height { revision_number: self.revision_number, revision_height: self.revision_height - delta })
    }

    /// The previous height in the same revision.
    pub fn decrement(&self) -> (r: Result<Height, ClientError>)
        ensures
            self.num() <= 1 ==> r == Err::<Height, ClientError>(ClientError::InvalidHeightResult),
            self.num() > 1 ==> r == Ok::<Height, ClientError>(
                Height::of(self.rev(), (self.num() - 1) as u64),
            ),
    {
        self.sub(1)
    }

    /// Whether this height is strictly below `other`.
    pub fn lt(&self, other: &Height) -> (r: bool)
        ensures
            r == self.spec_lt(*other),
    {
        self.revision_number < other.revision_number || (self.revision_number
            == other.revision_number && self.revision_height < other.revision_height)
    }

    /// Whether this height is below or equal to `other`.
    pub fn le(&self, other: &Height) -> (r: bool)
        ensures
            r == self.spec_le(*other),
    {
        self.revision_number < other.revision_number || (self.revision_number
            == other.revision_number && self.revision_height <= other.revision_height)
    }
}

} // verus!

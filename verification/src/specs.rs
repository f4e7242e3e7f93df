//! Proof specs: the description of a commitment tree that a proof is held to.

use vstd::prelude::*;

verus! {

/// The proof spec of `ics23`: it is carried through as it is.
#[verifier::external_type_specification]
#[verifier::external_body]
pub struct ExProofSpec(ics23::ProofSpec);

/// `ics23::ProofSpec` derives `Clone`: the copy has the same fields.
pub assume_specification[ <ics23::ProofSpec as Clone>::clone ](spec: &ics23::ProofSpec) -> (r:
    ics23::ProofSpec)
    ensures
        r == *spec,
;

/// The spec of one commitment tree, as `ics23` defines it.
#[derive(Debug, PartialEq, Eq)]
pub struct TreeSpec {
    inner: ics23::ProofSpec,
}

impl Clone for TreeSpec {
    fn clone(&self) -> (r: TreeSpec)
        ensures
            r == *self,
    {
        TreeSpec { inner: self.inner.clone() }
    }
}

impl TreeSpec {
    /// The spec as `ics23` holds it.
    pub fn as_ics23(&self) -> (r: &ics23::ProofSpec)
        ensures
            *self == TreeSpec::of(*r),
    {
        &self.inner
    }

    /// The spec that holds this `ics23` value.
    pub closed spec fn of(inner: ics23::ProofSpec) -> TreeSpec {
        TreeSpec { inner }
    }

    pub fn from_ics23(inner: ics23::ProofSpec) -> (r: TreeSpec)
        ensures
            r == TreeSpec::of(inner),
    {
        TreeSpec { inner }
    }
}

/// The numbers of a spec that decide whether proofs can be held to it:
/// the range of depths and, where the spec speaks of inner nodes, the size and
/// the order of their children and the least and largest length of their
/// prefix. Without an inner spec the last four are zero and empty.
#[derive(Clone, Debug, PartialEq, Eq)]
pub struct SpecShape {
    pub min_depth: i32,
    pub max_depth: i32,
    pub has_inner: bool,
    pub child_size: i32,
    pub child_order: Vec<i32>,
    pub min_prefix_length: i32,
    pub max_prefix_length: i32,
}

/// The numbers of a spec as plain values.
pub struct SpecShapeView {
    pub min_depth: i32,
    pub max_depth: i32,
    pub has_inner: bool,
    pub child_size: i32,
    pub child_order: Seq<i32>,
    pub min_prefix_length: i32,
    pub max_prefix_length: i32,
}

impl View for SpecShape {
    type V = SpecShapeView;

    open spec fn view(&self) -> SpecShapeView {
        SpecShapeView {
            min_depth: self.min_depth,
            max_depth: self.max_depth,
            has_inner: self.has_inner,
            child_size: self.child_size,
            child_order: self.child_order@,
            min_prefix_length: self.min_prefix_length,
            max_prefix_length: self.max_prefix_length,
        }
    }
}

/// The numbers of a spec.
pub uninterp spec fn spec_shape(spec: TreeSpec) -> SpecShapeView;

/// Reads the depths of an `ics23::ProofSpec` and the numbers of its inner
/// spec, where it has one.
#[verifier::external_body]
fn read_shape(spec: &TreeSpec) -> (r: SpecShape)
    ensures
        r@ == spec_shape(*spec),
{
    let inner = spec.inner.inner_spec.clone().unwrap_or_default();
    SpecShape {
        min_depth: spec.inner.min_depth,
        max_depth: spec.inner.max_depth,
        has_inner: spec.inner.inner_spec.is_some(),
        child_size: inner.child_size,
        child_order: inner.child_order,
        min_prefix_length: inner.min_prefix_length,
        max_prefix_length: inner.max_prefix_length,
    }
}

/// The most children that an inner node may have.
pub const MAX_CHILDREN: usize = 256;

impl SpecShapeView {
    /// The depths are not negative, and the largest depth is zero, which
    /// stands for no limit, or not below the least one.
    pub open spec fn depths_fit(self) -> bool {
        &&& self.min_depth >= 0
        &&& self.max_depth >= 0
        &&& (self.max_depth == 0 || self.max_depth >= self.min_depth)
    }

    /// Every position of a child occurs in the order of the children.
    pub open spec fn order_complete(self) -> bool {
        forall|i: int|
            0 <= i < self.child_order.len() ==> #[trigger] self.child_order.contains(i as i32)
    }

    /// An inner node has between one and [`MAX_CHILDREN`] children of at
    /// least one byte, in an order that names every position; the lengths of
    /// its prefix are not negative; and the children before the last one,
    /// together with the longest prefix, are no longer than the outside checks
    /// can count.
    pub open spec fn inner_fits(self) -> bool {
        &&& 1 <= self.child_order.len() <= MAX_CHILDREN
        &&& self.child_size >= 1
        &&& self.min_prefix_length >= 0
        &&& self.max_prefix_length >= 0
        &&& (self.child_order.len() - 1) * self.child_size + self.min_prefix_length <= i32::MAX
        &&& (self.child_order.len() - 1) * self.child_size + self.max_prefix_length <= i32::MAX
        &&& self.order_complete()
    }

    /// Proofs can be held to a spec with these numbers.
    pub open spec fn well_formed(self) -> bool {
        self.depths_fit() && (self.has_inner ==> self.inner_fits())
    }
}

/// Whether `value` occurs in `order`.
fn order_has(order: &Vec<i32>, value: i32) -> (r: bool)
    ensures
        r == order@.contains(value),
{
    let mut j: usize = 0;
    while j < order.len()
        invariant
            j <= order@.len(),
            forall|k: int| 0 <= k < j ==> order@[k] != value,
        decreases order@.len() - j,
    {
        if order[j] == value {
            return true;
        }
        j += 1;
    }
    false
}

impl SpecShape {
    /// Whether every position of a child occurs in the order of the
    /// children, of which there are at most [`MAX_CHILDREN`].
    fn order_is_complete(&self) -> (r: bool)
        requires
            self.child_order@.len() <= MAX_CHILDREN,
        ensures
            r == self@.order_complete(),
    {
        let mut i: usize = 0;
        while i < self.child_order.len()
            invariant
                i <= self.child_order@.len(),
                self.child_order@.len() <= MAX_CHILDREN,
                forall|m: int| 0 <= m < i ==> #[trigger] self.child_order@.contains(m as i32),
            decreases self.child_order@.len() - i,
        {
            if !order_has(&self.child_order, i as i32) {
                proof {
                    let missing = i as int;
                    assert(!self@.child_order.contains(missing as i32));
                }
                return false;
            }
            i += 1;
        }
        true
    }

    /// Whether proofs can be held to a spec with these numbers.
    pub fn is_well_formed(&self) -> (r: bool)
        ensures
            r == self@.well_formed(),
    {
        if self.min_depth < 0 || self.max_depth < 0 || (self.max_depth != 0 && self.max_depth
            < self.min_depth) {
            return false;
        }
        if !self.has_inner {
            return true;
        }
        let children = self.child_order.len();
        if children < 1 || children > MAX_CHILDREN || self.child_size < 1 || self.min_prefix_length
            < 0 || self.max_prefix_length < 0 {
            return false;
        }
        let siblings: i64 = children as i64 - 1;
        let size: i64 = self.child_size as i64;
        assert(0 <= siblings * size <= 255 * 0x7fff_ffff) by (nonlinear_arith)
            requires
                0 <= siblings <= 255,
                1 <= size <= 0x7fff_ffff,
        ;
        let before: i64 = siblings * size;
        if before + self.min_prefix_length as i64 > i32::MAX as i64 || before
            + self.max_prefix_length as i64 > i32::MAX as i64 {
            return false;
        }
        self.order_is_complete()
    }
}

impl TreeSpec {
    /// Whether proofs can be held to the spec.
    pub open spec fn well_formed(&self) -> bool {
        spec_shape(*self).well_formed()
    }

    /// The numbers of the spec.
    pub fn shape(&self) -> (r: SpecShape)
        ensures
            r@ == spec_shape(*self),
    {
        read_shape(self)
    }

    /// Whether proofs can be held to the spec.
    pub fn is_well_formed(&self) -> (r: bool)
        ensures
            r == self.well_formed(),
    {
        read_shape(self).is_well_formed()
    }
}

/// The numbers of the spec of an IAVL tree: no limits of depth, and inner
/// nodes of two children of 33 bytes with a prefix of 4 to 12 bytes.
pub open spec fn iavl_shape() -> SpecShapeView {
    SpecShapeView {
        min_depth: 0,
        max_depth: 0,
        has_inner: true,
        child_size: 33,
        child_order: seq![0i32, 1i32],
        min_prefix_length: 4,
        max_prefix_length: 12,
    }
}

/// The numbers of the spec of a Tendermint tree: no limits of depth, and
/// inner nodes of two children of 32 bytes with a prefix of one byte.
pub open spec fn tendermint_shape() -> SpecShapeView {
    SpecShapeView {
        min_depth: 0,
        max_depth: 0,
        has_inner: true,
        child_size: 32,
        child_order: seq![0i32, 1i32],
        min_prefix_length: 1,
        max_prefix_length: 1,
    }
}

/// Both standard shapes are well formed.
pub proof fn lemma_standard_shapes()
    ensures
        iavl_shape().well_formed(),
        tendermint_shape().well_formed(),
{
    let order = seq![0i32, 1i32];
    assert(order[0] == 0 && order[1] == 1);
    assert(order.contains(0i32));
    assert(order.contains(1i32));
    assert forall|i: int| 0 <= i < order.len() implies #[trigger] order.contains(i as i32) by {
        if i == 0 {
            assert(order.contains(0i32));
        } else {
            assert(order.contains(1i32));
        }
    }
}

/// The spec of an IAVL tree, from `ics23::iavl_spec`: it sets both depths
/// to zero, the child size to 33, the child order to 0 and 1, and the prefix
/// lengths to 4 and 12.
#[verifier::external_body]
fn iavl_spec() -> (r: TreeSpec)
    ensures
        spec_shape(r) == iavl_shape(),
{
    TreeSpec { inner: ics23::iavl_spec() }
}

/// The spec of a Tendermint simple Merkle tree, from
/// `ics23::tendermint_spec`: it sets both depths to zero, the child size to
/// 32, the child order to 0 and 1, and both prefix lengths to 1.
#[verifier::external_body]
fn tendermint_spec() -> (r: TreeSpec)
    ensures
        spec_shape(r) == tendermint_shape(),
{
    TreeSpec { inner: ics23::tendermint_spec() }
}

/// The specs of the trees that a proof passes through, from the leaf store
/// up to the root.
#[derive(Debug, PartialEq, Eq)]
pub struct ProofSpecs {
    specs: Vec<TreeSpec>,
}

impl View for ProofSpecs {
    type V = Seq<TreeSpec>;

    closed spec fn view(&self) -> Seq<TreeSpec> {
        self.specs@
    }
}

impl Clone for ProofSpecs {
    fn clone(&self) -> (r: ProofSpecs)
        ensures
            r@ == self@,
    {
        let mut specs: Vec<TreeSpec> = Vec::new();
        let mut i: usize = 0;
        while i < self.specs.len()
            invariant
                i <= self.specs@.len(),
                specs@ == self.specs@.take(i as int),
            decreases self.specs@.len() - i,
        {
            specs.push(self.specs[i].clone());
            assert(specs@ =~= self.specs@.take(i + 1));
            i += 1;
        }
        assert(specs@ =~= self.specs@);
        ProofSpecs { specs }
    }
}

impl ProofSpecs {
    /// The specs of a Cosmos chain: an IAVL store under a Tendermint tree.
    pub fn cosmos() -> (r: ProofSpecs)
        ensures
            r@.len() == 2,
            spec_shape(r@[0]) == iavl_shape(),
            spec_shape(r@[1]) == tendermint_shape(),
            ProofSpecs::first_malformed(r@).is_none(),
    {
        let mut specs: Vec<TreeSpec> = Vec::new();
        specs.push(iavl_spec());
        specs.push(tendermint_spec());
        proof {
            lemma_standard_shapes();
            ProofSpecs::lemma_first_malformed(specs@);
        }
        ProofSpecs { specs }
    }

    pub fn from_vec(specs: Vec<TreeSpec>) -> (r: ProofSpecs)
        ensures
            r@ == specs@,
    {
        ProofSpecs { specs }
    }

    pub fn into_vec(self) -> (r: Vec<TreeSpec>)
        ensures
            r@ == self@,
    {
        self.specs
    }

    /// The position of the first spec that is not well formed.
    pub open spec fn first_malformed(specs: Seq<TreeSpec>) -> Option<int> {
        if exists|i: int| 0 <= i < specs.len() && !(#[trigger] specs[i]).well_formed() {
            Some(
                choose|i: int|
                    0 <= i < specs.len() && !(#[trigger] specs[i]).well_formed() && forall|j: int|
                        0 <= j < i ==> (#[trigger] specs[j]).well_formed(),
            )
        } else {
            None
        }
    }

    /// The first spec that is not well formed is not, and every spec before
    /// it is.
    pub proof fn lemma_first_malformed(specs: Seq<TreeSpec>)
        ensures
            match ProofSpecs::first_malformed(specs) {
                Some(i) => 0 <= i < specs.len() && !specs[i].well_formed() && forall|j: int|
                    0 <= j < i ==> (#[trigger] specs[j]).well_formed(),
                None => forall|j: int| 0 <= j < specs.len() ==> (#[trigger] specs[j]).well_formed(),
            },
    {
        if exists|i: int| 0 <= i < specs.len() && !(#[trigger] specs[i]).well_formed() {
            let w = choose|i: int| 0 <= i < specs.len() && !(#[trigger] specs[i]).well_formed();
            ProofSpecs::lemma_least_malformed(specs, w);
        }
    }

    proof fn lemma_least_malformed(specs: Seq<TreeSpec>, w: int)
        requires
            0 <= w < specs.len(),
            !specs[w].well_formed(),
        ensures
            exists|i: int|
                0 <= i < specs.len() && !(#[trigger] specs[i]).well_formed() && forall|j: int|
                    0 <= j < i ==> (#[trigger] specs[j]).well_formed(),
        decreases w,
    {
        if exists|k: int| 0 <= k < w && !(#[trigger] specs[k]).well_formed() {
            let k = choose|k: int| 0 <= k < w && !(#[trigger] specs[k]).well_formed();
            ProofSpecs::lemma_least_malformed(specs, k);
        } else {
            assert(0 <= w < specs.len() && !specs[w].well_formed() && forall|j: int|
                0 <= j < w ==> (#[trigger] specs[j]).well_formed());
        }
    }

    /// The position of the first spec that is not well formed, if there is
    /// one.
    pub fn find_malformed(&self) -> (r: Option<usize>)
        ensures
            match r {
                Some(i) => ProofSpecs::first_malformed(self@) == Some(i as int),
                None => ProofSpecs::first_malformed(self@).is_none(),
            },
    {
        let mut idx: usize = 0;
        while idx < self.specs.len()
            invariant
                idx <= self.specs@.len(),
                forall|j: int| 0 <= j < idx ==> (#[trigger] self.specs@[j]).well_formed(),
            decreases self.specs@.len() - idx,
        {
            if !self.specs[idx].is_well_formed() {
                proof {
                    ProofSpecs::lemma_first_malformed(self.specs@);
                    let first = ProofSpecs::first_malformed(self.specs@).unwrap();
                    if first < idx {
                        assert(self.specs@[first].well_formed());
                    }
                    if first > idx {
                        assert(self.specs@[idx as int].well_formed());
                    }
                }
                return Some(idx);
            }
            idx += 1;
        }
        proof {
            ProofSpecs::lemma_first_malformed(self.specs@);
        }
        None
    }

    pub fn as_slice(&self) -> (r: &[TreeSpec])
        ensures
            r@ == self@,
    {
        self.specs.as_slice()
    }

    pub fn is_empty(&self) -> (r: bool)
        ensures
            r == (self@.len() == 0),
    {
        self.specs.len() == 0
    }

    pub fn len(&self) -> (r: usize)
        ensures
            r == self@.len(),
    {
        self.specs.len()
    }

    /// The spec at position `i`.
    pub fn get(&self, i: usize) -> (r: &TreeSpec)
        requires
            i < self@.len(),
        ensures
            *r == self@[i as int],
    {
        &self.specs[i]
    }
}

impl Default for ProofSpecs {
    /// The specs of a Cosmos chain.
    fn default() -> (r: ProofSpecs)
        ensures
            r@.len() == 2,
            spec_shape(r@[0]) == iavl_shape(),
            spec_shape(r@[1]) == tendermint_shape(),
            ProofSpecs::first_malformed(r@).is_none(),
    {
        ProofSpecs::cosmos()
    }
}

} // verus!

//! Merkle proofs through the stores of a chain: from a value in the leaf
//! store up to the application hash.

use vstd::prelude::*;
use vstd::string::*;
use crate::commitment::{
    bytes_equal, prefix_text, CommitmentError, CommitmentPrefix, CommitmentProofBytes,
};
use crate::specs::{ProofSpecs, TreeSpec};
use crate::text::texts;

verus! {

/// The commitment proof of `ics23`: it is carried through as it is.
#[verifier::external_type_specification]
#[verifier::external_body]
pub struct ExCommitmentProof(ics23::CommitmentProof);

/// One step of a Merkle proof: the proof for one store, as `ics23` holds
/// it.
#[derive(Debug, PartialEq, Eq)]
pub struct ProofStep {
    inner: ics23::CommitmentProof,
}

/// A Merkle proof: one step for each store, from the leaf store up.
#[derive(Debug, PartialEq, Eq)]
pub struct MerkleProof {
    pub proofs: Vec<ProofStep>,
}

/// The keys of a value in the stores of a chain, from the root store down.
#[derive(Clone, Debug, PartialEq, Eq)]
pub struct MerklePath {
    pub key_path: Vec<String>,
}

/// The path of keys under a store prefix: the prefix as text, then the
/// keys.
pub fn apply_prefix(prefix: &CommitmentPrefix, path: Vec<String>) -> (r: MerklePath)
    ensures
        texts(r.key_path@) == seq![prefix_text(prefix@)] + texts(path@),
{
    let mut key_path = path;
    key_path.insert(0, prefix.to_text());
    assert(texts(key_path@) =~= seq![prefix_text(prefix@)] + texts(path@));
    MerklePath { key_path }
}

/// What the outside decoder makes of the bytes of a proof.
pub uninterp spec fn merkle_steps(bytes: Seq<u8>) -> Result<Seq<ProofStep>, CommitmentError>;

/// The root that an existence proof leads to, where the step is one and the
/// root can be computed.
pub uninterp spec fn existence_root(step: ProofStep) -> Option<Seq<u8>>;

/// The existence proof of the left neighbour in a non-existence proof, as a
/// step of its own, where the step is such a proof and has that neighbour.
pub uninterp spec fn left_neighbour(step: ProofStep) -> Option<ProofStep>;

/// The existence proof of the right neighbour in a non-existence proof, as a
/// step of its own, where the step is such a proof and has that neighbour.
pub uninterp spec fn right_neighbour(step: ProofStep) -> Option<ProofStep>;

/// The root that a non-existence proof leads to: the root of its left
/// neighbour where it has one, and of its right neighbour otherwise. There is
/// none where the step is no non-existence proof, it has no neighbour, or the
/// root cannot be computed.
pub open spec fn absence_root(step: ProofStep) -> Option<Seq<u8>> {
    match left_neighbour(step) {
        Some(left) => existence_root(left),
        None => match right_neighbour(step) {
            Some(right) => existence_root(right),
            None => None,
        },
    }
}

/// Whether the step proves that `key` holds `value` in a store with this
/// spec and root.
pub uninterp spec fn membership_holds(
    step: ProofStep,
    spec: TreeSpec,
    root: Seq<u8>,
    key: Seq<u8>,
    value: Seq<u8>,
) -> bool;

/// Whether the step proves that `key` holds nothing in a store with this
/// spec and root.
pub uninterp spec fn absence_holds(step: ProofStep, spec: TreeSpec, root: Seq<u8>, key: Seq<u8>) -> bool;

/// Decodes a Merkle proof with `prost`, as `ibc_proto` describes it, and
/// each of its steps again as `ics23` describes it. The result is what these
/// outside functions make of the bytes.
#[verifier::external_body]
fn decode_steps(bytes: &[u8]) -> (r: Result<Vec<ProofStep>, CommitmentError>)
    ensures
        match r {
            Ok(steps) => merkle_steps(bytes@) == Ok::<Seq<ProofStep>, CommitmentError>(steps@),
            Err(e) => merkle_steps(bytes@) == Err::<Seq<ProofStep>, CommitmentError>(e),
        },
{
    let raw: ibc_proto::ibc::core::commitment::v1::MerkleProof =
        prost::Message::decode(bytes).map_err(|_| CommitmentError::InvalidRawMerkleProof)?;
    raw.proofs.iter().map(|p| {
        prost::Message::decode(prost::Message::encode_to_vec(p).as_slice())
            .map(|inner| ProofStep { inner })
            .map_err(|_| CommitmentError::InvalidRawMerkleProof)
    }).collect()
}

/// The encoding of the steps of a proof.
pub uninterp spec fn merkle_proof_bytes(steps: Seq<ProofStep>) -> Seq<u8>;

/// Encodes a Merkle proof with `prost`, as `ibc_proto` describes it; each
/// step is encoded and decoded again as `ibc_proto` describes it.
#[verifier::external_body]
fn encode_steps(steps: &[ProofStep]) -> (r: Vec<u8>)
    ensures
        r@ == merkle_proof_bytes(steps@),
{
    prost::Message::encode_to_vec(&ibc_proto::ibc::core::commitment::v1::MerkleProof {
        proofs: steps.iter().map(|s| {
            prost::Message::decode(prost::Message::encode_to_vec(&s.inner).as_slice())
                .unwrap_or_default()
        }).collect(),
    })
}

/// Computes the root of an existence proof with
/// `ics23::calculate_existence_root`. There is none where the step is no
/// existence proof or the computation fails.
#[verifier::external_body]
fn compute_existence_root(step: &ProofStep) -> (r: Option<Vec<u8>>)
    ensures
        match r {
            Some(root) => existence_root(*step) == Some(root@),
            None => existence_root(*step).is_none(),
        },
{
    match &step.inner.proof {
        Some(ics23::commitment_proof::Proof::Exist(proof)) => {
            ics23::calculate_existence_root::<ics23::HostFunctionsManager>(proof).ok()
        },
        _ => None,
    }
}

/// Takes the left neighbour out of a non-existence proof of `ics23`, as a
/// commitment proof of its own.
#[verifier::external_body]
fn take_left_neighbour(step: &ProofStep) -> (r: Option<ProofStep>)
    ensures
        r == left_neighbour(*step),
{
    match &step.inner.proof {
        Some(ics23::commitment_proof::Proof::Nonexist(proof)) => {
            let left = proof.left.clone()?;
            let proof = Some(ics23::commitment_proof::Proof::Exist(left));
            Some(ProofStep { inner: ics23::CommitmentProof { proof } })
        },
        _ => None,
    }
}

/// Takes the right neighbour out of a non-existence proof of `ics23`, as a
/// commitment proof of its own.
#[verifier::external_body]
fn take_right_neighbour(step: &ProofStep) -> (r: Option<ProofStep>)
    ensures
        r == right_neighbour(*step),
{
    match &step.inner.proof {
        Some(ics23::commitment_proof::Proof::Nonexist(proof)) => {
            let right = proof.right.clone()?;
            let proof = Some(ics23::commitment_proof::Proof::Exist(right));
            Some(ProofStep { inner: ics23::CommitmentProof { proof } })
        },
        _ => None,
    }
}

/// Computes the root of a non-existence proof from one of its neighbours.
fn compute_absence_root(step: &ProofStep) -> (r: Option<Vec<u8>>)
    ensures
        match r {
            Some(root) => absence_root(*step) == Some(root@),
            None => absence_root(*step).is_none(),
        },
{
    match take_left_neighbour(step) {
        Some(left) => compute_existence_root(&left),
        None => match take_right_neighbour(step) {
            Some(right) => compute_existence_root(&right),
            None => None,
        },
    }
}

/// The inner steps of an existence proof, from the leaf up, each as its
/// prefix and its suffix; none where the step is no existence proof.
pub uninterp spec fn path_ops(step: ProofStep) -> Seq<(Seq<u8>, Seq<u8>)>;

/// The prefixes and suffixes of a list of inner steps as plain values.
pub open spec fn ops_view(ops: Seq<(Vec<u8>, Vec<u8>)>) -> Seq<(Seq<u8>, Seq<u8>)> {
    Seq::new(ops.len(), |i: int| (ops[i].0@, ops[i].1@))
}

/// Reads the prefix and the suffix of each inner step of an existence
/// proof of `ics23`.
#[verifier::external_body]
fn read_path(step: &ProofStep) -> (r: Vec<(Vec<u8>, Vec<u8>)>)
    ensures
        ops_view(r@) == path_ops(*step),
{
    match &step.inner.proof {
        Some(ics23::commitment_proof::Proof::Exist(proof)) => {
            proof.path.iter().map(|op| (op.prefix.clone(), op.suffix.clone())).collect()
        },
        _ => Vec::new(),
    }
}

/// Two paths part: neither is empty, and counted from the top, some step of
/// the one differs from the step of the other at the same place.
pub open spec fn paths_part(left: Seq<(Seq<u8>, Seq<u8>)>, right: Seq<(Seq<u8>, Seq<u8>)>) -> bool {
    &&& left.len() >= 1
    &&& right.len() >= 1
    &&& exists|k: int|
        0 <= k < left.len() && k < right.len() && #[trigger] left[left.len() - 1 - k]
            != right[right.len() - 1 - k]
}

/// Whether two paths part.
fn do_paths_part(left: &Vec<(Vec<u8>, Vec<u8>)>, right: &Vec<(Vec<u8>, Vec<u8>)>) -> (r: bool)
    ensures
        r == paths_part(ops_view(left@), ops_view(right@)),
{
    let ghost l = ops_view(left@);
    let ghost r = ops_view(right@);
    if left.len() == 0 || right.len() == 0 {
        return false;
    }
    let mut k: usize = 0;
    while k < left.len() && k < right.len()
        invariant
            l == ops_view(left@),
            r == ops_view(right@),
            left@.len() >= 1,
            right@.len() >= 1,
            k <= left@.len(),
            k <= right@.len(),
            forall|m: int| 0 <= m < k ==> #[trigger] l[l.len() - 1 - m] == r[r.len() - 1 - m],
        decreases left@.len() - k,
    {
        let a = &left[left.len() - 1 - k];
        let b = &right[right.len() - 1 - k];
        let same = bytes_equal(a.0.as_slice(), b.0.as_slice()) && bytes_equal(
            a.1.as_slice(),
            b.1.as_slice(),
        );
        proof {
            assert(l[l.len() - 1 - k] == (a.0@, a.1@));
            assert(r[r.len() - 1 - k] == (b.0@, b.1@));
        }
        if !same {
            return true;
        }
        k += 1;
    }
    false
}

/// The neighbours of a proof of absence fit: where it has both, their
/// paths part.
pub open spec fn neighbours_fit(step: ProofStep) -> bool {
    match (left_neighbour(step), right_neighbour(step)) {
        (Some(left), Some(right)) => paths_part(path_ops(left), path_ops(right)),
        _ => true,
    }
}

/// Whether the neighbours of a proof of absence fit.
fn do_neighbours_fit(step: &ProofStep) -> (r: bool)
    ensures
        r == neighbours_fit(*step),
{
    match (take_left_neighbour(step), take_right_neighbour(step)) {
        (Some(left), Some(right)) => {
            let left_path = read_path(&left);
            let right_path = read_path(&right);
            do_paths_part(&left_path, &right_path)
        },
        _ => true,
    }
}

/// Asks `ics23::verify_membership` whether the step proves that `key`
/// holds `value` under `root`. The step is an existence proof whose root can
/// be computed, and the spec is well formed: `ics23` divides by the child size
/// of the inner spec, looks every position up in its child order, and adds its
/// sizes and lengths in 32 bits.
#[verifier::external_body]
fn check_membership(step: &ProofStep, spec: &TreeSpec, root: &Vec<u8>, key: &[u8], value: &[u8]) -> (r:
    bool)
    requires
        spec.well_formed(),
        existence_root(*step) is Some,
    ensures
        r == membership_holds(*step, *spec, root@, key@, value@),
{
    ics23::verify_membership::<ics23::HostFunctionsManager>(
        &step.inner,
        spec.as_ics23(),
        root,
        key,
        value,
    )
}

/// Asks `ics23::verify_non_membership` whether the step proves that `key`
/// holds nothing under `root`. The step is a proof of absence with a
/// neighbour whose root can be computed; the spec is well formed; and where
/// the proof has both neighbours their paths part, since `ics23` walks both
/// down from the top until they differ.
#[verifier::external_body]
fn check_absence(step: &ProofStep, spec: &TreeSpec, root: &Vec<u8>, key: &[u8]) -> (r: bool)
    requires
        spec.well_formed(),
        absence_root(*step) is Some,
        neighbours_fit(*step),
    ensures
        r == absence_holds(*step, *spec, root@, key@),
{
    ics23::verify_non_membership::<ics23::HostFunctionsManager>(
        &step.inner,
        spec.as_ics23(),
        root,
        key,
    )
}

/// The keys of a path as bytes.
pub open spec fn key_bytes(keys: Seq<String>) -> Seq<Seq<u8>> {
    Seq::new(keys.len(), |i: int| vstd::utf8::encode_utf8(keys[i]@))
}

/// Where the steps from `index` on lead, starting from `value`: each step
/// must be an existence proof of the value before it under the key of its
/// store, and its root is the value of the step after it. The keys are given
/// from the root store down, the steps from the leaf store up.
pub open spec fn chain_root(
    steps: Seq<ProofStep>,
    specs: Seq<TreeSpec>,
    keys: Seq<Seq<u8>>,
    value: Seq<u8>,
    index: int,
) -> Result<Seq<u8>, CommitmentError>
    decreases steps.len() - index,
{
    if index < 0 || index >= steps.len() {
        Ok(value)
    } else {
        match existence_root(steps[index]) {
            None => Err(CommitmentError::InvalidMerkleProof),
            Some(subroot) => if !membership_holds(
                steps[index],
                specs[index],
                subroot,
                keys[steps.len() - 1 - index],
                value,
            ) {
                Err(CommitmentError::VerificationFailure)
            } else {
                chain_root(steps, specs, keys, subroot, index + 1)
            },
        }
    }
}

/// Why the arguments of a verification are refused before any step is
/// looked at, if they are: there is no step or no root, the numbers of steps,
/// specs and keys differ, or a spec is not well formed.
pub open spec fn shape_fault(
    steps: Seq<ProofStep>,
    specs: Seq<TreeSpec>,
    root: Seq<u8>,
    keys: Seq<Seq<u8>>,
) -> Option<CommitmentError> {
    if steps.len() == 0 {
        Some(CommitmentError::EmptyMerkleProof)
    } else if root.len() == 0 {
        Some(CommitmentError::EmptyMerkleRoot)
    } else if specs.len() != steps.len() {
        Some(CommitmentError::NumberOfSpecsMismatch)
    } else if keys.len() != steps.len() {
        Some(CommitmentError::NumberOfKeysMismatch)
    } else if ProofSpecs::first_malformed(specs) is Some {
        Some(CommitmentError::InvalidProofSpec)
    } else {
        None
    }
}

/// Why the steps do not prove that the path holds `value` under `root`, if
/// they do not. The steps before `start_index` are passed over.
pub open spec fn membership_fault(
    steps: Seq<ProofStep>,
    specs: Seq<TreeSpec>,
    root: Seq<u8>,
    keys: Seq<Seq<u8>>,
    value: Seq<u8>,
    start_index: int,
) -> Option<CommitmentError> {
    if let Some(e) = shape_fault(steps, specs, root, keys) {
        Some(e)
    } else if value.len() == 0 {
        Some(CommitmentError::EmptyVerifiedValue)
    } else {
        match chain_root(steps, specs, keys, value, start_index) {
            Err(e) => Some(e),
            Ok(last) => if last != root {
                Some(CommitmentError::VerificationFailure)
            } else {
                None
            },
        }
    }
}

/// Why the steps do not prove that the path holds nothing under `root`, if
/// they do not: the first step must prove the absence of the last key in the
/// leaf store, and the other steps the membership of the leaf store's root.
/// Where the proof of absence has both neighbours, their paths must part.
pub open spec fn non_membership_fault(
    steps: Seq<ProofStep>,
    specs: Seq<TreeSpec>,
    root: Seq<u8>,
    keys: Seq<Seq<u8>>,
) -> Option<CommitmentError> {
    if let Some(e) = shape_fault(steps, specs, root, keys) {
        Some(e)
    } else {
        match absence_root(steps[0]) {
            None => Some(CommitmentError::InvalidMerkleProof),
            Some(subroot) => if !neighbours_fit(steps[0]) {
                Some(CommitmentError::VerificationFailure)
            } else if !absence_holds(steps[0], specs[0], subroot, keys[keys.len() - 1]) {
                Some(CommitmentError::VerificationFailure)
            } else {
                membership_fault(steps, specs, root, keys, subroot, 1)
            },
        }
    }
}

impl MerkleProof {
    /// The proof that the bytes encode.
    pub fn decode(bytes: &[u8]) -> (r: Result<MerkleProof, CommitmentError>)
        ensures
            match r {
                Ok(proof) => merkle_steps(bytes@) == Ok::<Seq<ProofStep>, CommitmentError>(
                    proof.proofs@,
                ),
                Err(e) => merkle_steps(bytes@) == Err::<Seq<ProofStep>, CommitmentError>(e),
            },
    {
        match decode_steps(bytes) {
            Ok(proofs) => Ok(MerkleProof { proofs }),
            Err(e) => Err(e),
        }
    }

    /// The bytes that encode the proof.
    pub fn encode_vec(&self) -> (r: Vec<u8>)
        ensures
            r@ == merkle_proof_bytes(self.proofs@),
    {
        encode_steps(self.proofs.as_slice())
    }

    /// The proof in its encoded form, which must not be empty.
    pub fn into_proof_bytes(&self) -> (r: Result<CommitmentProofBytes, CommitmentError>)
        ensures
            merkle_proof_bytes(self.proofs@).len() == 0 ==> r == Err::<
                CommitmentProofBytes,
                CommitmentError,
            >(CommitmentError::EmptyMerkleProof),
            merkle_proof_bytes(self.proofs@).len() != 0 ==> r is Ok && r->Ok_0@
                == merkle_proof_bytes(self.proofs@),
    {
        let bytes = self.encode_vec();
        let r = CommitmentProofBytes::try_from(bytes);
        proof {
            broadcast use crate::commitment::CommitmentProofBytes::lemma_of;

        }
        r
    }

    /// Checks the shape of the arguments of a verification.
    fn check_shape(&self, specs: &ProofSpecs, root: &[u8], keys: &MerklePath) -> (r: Result<
        (),
        CommitmentError,
    >)
        ensures
            r == match shape_fault(self.proofs@, specs@, root@, key_bytes(keys.key_path@)) {
                Some(e) => Err::<(), CommitmentError>(e),
                None => Ok(()),
            },
    {
        if self.proofs.len() == 0 {
            return Err(CommitmentError::EmptyMerkleProof);
        }
        if root.len() == 0 {
            return Err(CommitmentError::EmptyMerkleRoot);
        }
        if specs.len() != self.proofs.len() {
            return Err(CommitmentError::NumberOfSpecsMismatch);
        }
        if keys.key_path.len() != self.proofs.len() {
            return Err(CommitmentError::NumberOfKeysMismatch);
        }
        if specs.find_malformed().is_some() {
            return Err(CommitmentError::InvalidProofSpec);
        }
        proof {
            ProofSpecs::lemma_first_malformed(specs@);
        }
        Ok(())
    }

    /// Checks that the proof shows `value` at the path of `keys` under
    /// `root`, in stores with these specs. The steps before `start_index` are
    /// passed over.
    pub fn verify_membership(
        &self,
        specs: &ProofSpecs,
        root: &[u8],
        keys: &MerklePath,
        value: Vec<u8>,
        start_index: usize,
    ) -> (r: Result<(), CommitmentError>)
        ensures
            r == match membership_fault(
                self.proofs@,
                specs@,
                root@,
                key_bytes(keys.key_path@),
                value@,
                start_index as int,
            ) {
                Some(e) => Err::<(), CommitmentError>(e),
                None => Ok(()),
            },
    {
        self.check_shape(specs, root, keys)?;
        if value.len() == 0 {
            return Err(CommitmentError::EmptyVerifiedValue);
        }
        let num = self.proofs.len();
        let ghost steps = self.proofs@;
        let ghost all_keys = key_bytes(keys.key_path@);
        proof {
            ProofSpecs::lemma_first_malformed(specs@);
        }
        let ghost first = value@;
        let mut current = value;
        let mut index: usize = start_index;
        while index < num
            invariant
                num == self.proofs@.len(),
                steps == self.proofs@,
                specs@.len() == num,
                keys.key_path@.len() == num,
                all_keys == key_bytes(keys.key_path@),
                index >= start_index,
                root@.len() != 0,
                first == value@,
                first.len() != 0,
                shape_fault(steps, specs@, root@, all_keys).is_none(),
                forall|j: int| 0 <= j < specs@.len() ==> (#[trigger] specs@[j]).well_formed(),
                chain_root(steps, specs@, all_keys, first, start_index as int) == chain_root(
                    steps,
                    specs@,
                    all_keys,
                    current@,
                    index as int,
                ),
            decreases num - index,
        {
            let step = &self.proofs[index];
            let subroot = match compute_existence_root(step) {
                Some(subroot) => subroot,
                None => {
                    return Err(CommitmentError::InvalidMerkleProof);
                },
            };
            let key = keys.key_path[num - 1 - index].as_str().as_bytes();
            proof {
                assert(all_keys[num - 1 - index] == vstd::utf8::encode_utf8(
                    keys.key_path@[num - 1 - index]@,
                ));
            }
            if !check_membership(step, specs.get(index), &subroot, key, current.as_slice()) {
                return Err(CommitmentError::VerificationFailure);
            }
            current = subroot;
            index += 1;
        }
        if !bytes_equal(root, current.as_slice()) {
            return Err(CommitmentError::VerificationFailure);
        }
        Ok(())
    }

    /// Checks that the proof shows that nothing stands at the path of
    /// `keys` under `root`, in stores with these specs.
    pub fn verify_non_membership(&self, specs: &ProofSpecs, root: &[u8], keys: &MerklePath) -> (r:
        Result<(), CommitmentError>)
        ensures
            r == match non_membership_fault(
                self.proofs@,
                specs@,
                root@,
                key_bytes(keys.key_path@),
            ) {
                Some(e) => Err::<(), CommitmentError>(e),
                None => Ok(()),
            },
    {
        self.check_shape(specs, root, keys)?;
        proof {
            ProofSpecs::lemma_first_malformed(specs@);
        }
        let num = self.proofs.len();
        let step = &self.proofs[0];
        let subroot = match compute_absence_root(step) {
            Some(subroot) => subroot,
            None => {
                return Err(CommitmentError::InvalidMerkleProof);
            },
        };
        if !do_neighbours_fit(step) {
            return Err(CommitmentError::VerificationFailure);
        }
        let key = keys.key_path[num - 1].as_str().as_bytes();
        proof {
            let all_keys = key_bytes(keys.key_path@);
            assert(all_keys[num - 1] == vstd::utf8::encode_utf8(keys.key_path@[num - 1]@));
        }
        if !check_absence(step, specs.get(0), &subroot, key) {
            return Err(CommitmentError::VerificationFailure);
        }
        self.verify_membership(specs, root, keys, subroot, 1)
    }
}

} // verus!

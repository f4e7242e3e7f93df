//! Commitment primitives: roots, prefixes and proofs as byte strings.

use vstd::prelude::*;
use vstd::string::*;
use vstd::utf8::*;
use vstd::std_specs::convert::TryFromSpecImpl;
use vstd::std_specs::convert::FromSpecImpl;
use crate::text::{append_decimal, decimal_digits};

verus! {

/// What can be wrong with a commitment value or a proof.
#[derive(Clone, Copy, Debug, PartialEq, Eq, Structural)]
pub enum CommitmentError {
    /// A commitment prefix without bytes.
    EmptyCommitmentPrefix,
    /// A proof without bytes or without steps.
    EmptyMerkleProof,
    /// A root without bytes.
    EmptyMerkleRoot,
    /// Membership of an empty value.
    EmptyVerifiedValue,
    /// The proof has another number of steps than there are proof specs.
    NumberOfSpecsMismatch,
    /// The proof has another number of steps than the path has keys.
    NumberOfKeysMismatch,
    /// A step of the proof is of the wrong kind or cannot be evaluated.
    InvalidMerkleProof,
    /// The proof does not lead to the root.
    VerificationFailure,
    /// The proof bytes are no encoded Merkle proof.
    InvalidRawMerkleProof,
    /// A proof spec is not well formed.
    InvalidProofSpec,
}

/// The root of a commitment tree: the application hash of a block.
#[derive(Clone, Debug, PartialEq, Eq)]
pub struct CommitmentRoot {
    bytes: Vec<u8>,
}

impl View for CommitmentRoot {
    type V = Seq<u8>;

    closed spec fn view(&self) -> Seq<u8> {
        self.bytes@
    }
}

impl CommitmentRoot {
    /// The root that holds exactly this vector.
    pub closed spec fn of(bytes: Vec<u8>) -> CommitmentRoot {
        CommitmentRoot { bytes }
    }

    /// What `of` builds has the bytes it was given.
    pub broadcast proof fn lemma_of(bytes: Vec<u8>)
        ensures
            (#[trigger] CommitmentRoot::of(bytes))@ == bytes@,
    {
    }

    pub fn from_bytes(bytes: &[u8]) -> (r: CommitmentRoot)
        ensures
            r@ == bytes@,
    {
        CommitmentRoot { bytes: vstd::slice::slice_to_vec(bytes) }
    }

    pub fn as_bytes(&self) -> (r: &[u8])
        ensures
            r@ == self@,
    {
        self.bytes.as_slice()
    }

    pub fn into_vec(self) -> (r: Vec<u8>)
        ensures
            r@ == self@,
            self == CommitmentRoot::of(r),
    {
        self.bytes
    }

    /// Whether two roots hold the same bytes.
    pub fn same_bytes(&self, other: &CommitmentRoot) -> (r: bool)
        ensures
            r == (self@ == other@),
    {
        bytes_equal(self.bytes.as_slice(), other.bytes.as_slice())
    }
}

impl From<Vec<u8>> for CommitmentRoot {
    fn from(bytes: Vec<u8>) -> (r: CommitmentRoot) {
        CommitmentRoot { bytes }
    }
}

impl FromSpecImpl<Vec<u8>> for CommitmentRoot {
    open spec fn obeys_from_spec() -> bool {
        true
    }

    open spec fn from_spec(bytes: Vec<u8>) -> CommitmentRoot {
        CommitmentRoot::of(bytes)
    }
}

/// Whether two byte strings are the same, byte for byte.
pub fn bytes_equal(a: &[u8], b: &[u8]) -> (r: bool)
    ensures
        r == (a@ == b@),
{
    if a.len() != b.len() {
        return false;
    }
    let mut i: usize = 0;
    while i < a.len()
        invariant
            a@.len() == b@.len(),
            i <= a@.len(),
            forall|j: int| 0 <= j < i ==> a@[j] == b@[j],
        decreases a@.len() - i,
    {
        if a[i] != b[i] {
            return false;
        }
        i += 1;
    }
    assert(a@ =~= b@);
    true
}

/// The path of a commitment within a store. It holds nothing.
#[derive(Clone, Copy, Debug, PartialEq, Eq, Structural)]
pub struct CommitmentPath;

/// A Merkle proof in its encoded form. It is never empty.
#[derive(Clone, Debug, PartialEq, Eq)]
pub struct CommitmentProofBytes {
    bytes: Vec<u8>,
}

impl View for CommitmentProofBytes {
    type V = Seq<u8>;

    closed spec fn view(&self) -> Seq<u8> {
        self.bytes@
    }
}

impl CommitmentProofBytes {
    /// The proof that holds exactly this vector.
    pub closed spec fn of(bytes: Vec<u8>) -> CommitmentProofBytes {
        CommitmentProofBytes { bytes }
    }

    /// What `of` builds has the bytes it was given.
    pub broadcast proof fn lemma_of(bytes: Vec<u8>)
        ensures
            (#[trigger] CommitmentProofBytes::of(bytes))@ == bytes@,
    {
    }

    pub fn as_bytes(&self) -> (r: &[u8])
        ensures
            r@ == self@,
    {
        self.bytes.as_slice()
    }

    pub fn into_vec(self) -> (r: Vec<u8>)
        ensures
            r@ == self@,
            self == CommitmentProofBytes::of(r),
    {
        self.bytes
    }
}

impl TryFrom<Vec<u8>> for CommitmentProofBytes {
    type Error = CommitmentError;

    fn try_from(bytes: Vec<u8>) -> (r: Result<CommitmentProofBytes, CommitmentError>) {
        if bytes.len() == 0 {
            Err(CommitmentError::EmptyMerkleProof)
        } else {
            Ok(CommitmentProofBytes { bytes })
        }
    }
}

impl TryFromSpecImpl<Vec<u8>> for CommitmentProofBytes {
    open spec fn obeys_try_from_spec() -> bool {
        true
    }

    open spec fn try_from_spec(bytes: Vec<u8>) -> Result<CommitmentProofBytes, CommitmentError> {
        if bytes@.len() == 0 {
            Err(CommitmentError::EmptyMerkleProof)
        } else {
            Ok(CommitmentProofBytes::of(bytes))
        }
    }
}

/// The prefix under which a chain keeps its IBC store. It is never empty,
/// but for the default prefix.
#[derive(Clone, Debug, PartialEq, Eq, Hash)]
pub struct CommitmentPrefix {
    bytes: Vec<u8>,
}

impl View for CommitmentPrefix {
    type V = Seq<u8>;

    closed spec fn view(&self) -> Seq<u8> {
        self.bytes@
    }
}

/// The bytes of a list written as text: decimal numbers, separated by a
/// comma and a blank.
pub open spec fn byte_list_text(bytes: Seq<u8>) -> Seq<char>
    decreases bytes.len(),
{
    if bytes.len() == 0 {
        Seq::empty()
    } else if bytes.len() == 1 {
        decimal_digits(bytes[0] as nat)
    } else {
        byte_list_text(bytes.drop_last()) + seq![',', ' '] + decimal_digits(bytes.last() as nat)
    }
}

/// A prefix as text: the string it encodes where it is UTF-8, and a note
/// with its bytes where it is not.
pub open spec fn prefix_text(bytes: Seq<u8>) -> Seq<char> {
    if valid_utf8(bytes) {
        decode_utf8(bytes)
    } else {
        "<not valid UTF8: ["@ + byte_list_text(bytes) + "]>"@
    }
}

/// Reads bytes as UTF-8 with `String::from_utf8`, which gives the string
/// whose encoding the bytes are, and nothing where they are no UTF-8.
#[verifier::external_body]
pub(crate) fn utf8_string(bytes: Vec<u8>) -> (r: Option<String>)
    ensures
        r.is_some() == valid_utf8(bytes@),
        r.is_some() ==> r.unwrap()@ == decode_utf8(bytes@),
{
    String::from_utf8(bytes).ok()
}

impl CommitmentPrefix {
    /// The prefix that holds exactly this vector.
    pub closed spec fn of(bytes: Vec<u8>) -> CommitmentPrefix {
        CommitmentPrefix { bytes }
    }

    /// What `of` builds has the bytes it was given.
    pub broadcast proof fn lemma_of(bytes: Vec<u8>)
        ensures
            (#[trigger] CommitmentPrefix::of(bytes))@ == bytes@,
    {
    }

    pub fn as_bytes(&self) -> (r: &[u8])
        ensures
            r@ == self@,
    {
        self.bytes.as_slice()
    }

    pub fn into_vec(self) -> (r: Vec<u8>)
        ensures
            r@ == self@,
            self == CommitmentPrefix::of(r),
    {
        self.bytes
    }

    /// The prefix as text, as it stands at the head of a Merkle path.
    pub fn to_text(&self) -> (s: String)
        ensures
            s@ == prefix_text(self@),
    {
        let copy = vstd::slice::slice_to_vec(self.bytes.as_slice());
        match utf8_string(copy) {
            Some(s) => s,
            None => {
                let mut out = String::from_str("<not valid UTF8: [");
                let ghost head = out@;
                let mut i: usize = 0;
                while i < self.bytes.len()
                    invariant
                        i <= self.bytes@.len(),
                        out@ == head + byte_list_text(self.bytes@.take(i as int)),
                    decreases self.bytes@.len() - i,
                {
                    let ghost before = out@;
                    if i > 0 {
                        out.append(", ");
                        proof {
                            reveal_strlit(", ");
                            assert(", "@ =~= seq![',', ' ']);
                        }
                    }
                    append_decimal(&mut out, self.bytes[i] as u64);
                    proof {
                        let next = self.bytes@.take(i + 1);
                        assert(next.drop_last() =~= self.bytes@.take(i as int));
                        assert(next.last() == self.bytes@[i as int]);
                        if i == 0 {
                            assert(byte_list_text(self.bytes@.take(0)) =~= Seq::<char>::empty());
                            assert(out@ =~= head + byte_list_text(next));
                        } else {
                            assert(out@ =~= head + byte_list_text(next));
                        }
                    }
                    i += 1;
                }
                out.append("]>");
                proof {
                    assert(self.bytes@.take(i as int) =~= self.bytes@);
                    assert(out@ =~= prefix_text(self@));
                }
                out
            },
        }
    }
}

impl Default for CommitmentPrefix {
    fn default() -> (r: CommitmentPrefix)
        ensures
            r@ == Seq::<u8>::empty(),
    {
        CommitmentPrefix { bytes: Vec::new() }
    }
}

impl TryFrom<Vec<u8>> for CommitmentPrefix {
    type Error = CommitmentError;

    fn try_from(bytes: Vec<u8>) -> (r: Result<CommitmentPrefix, CommitmentError>) {
        if bytes.len() == 0 {
            Err(CommitmentError::EmptyCommitmentPrefix)
        } else {
            Ok(CommitmentPrefix { bytes })
        }
    }
}

impl TryFromSpecImpl<Vec<u8>> for CommitmentPrefix {
    open spec fn obeys_try_from_spec() -> bool {
        true
    }

    open spec fn try_from_spec(bytes: Vec<u8>) -> Result<CommitmentPrefix, CommitmentError> {
        if bytes@.len() == 0 {
            Err(CommitmentError::EmptyCommitmentPrefix)
        } else {
            Ok(CommitmentPrefix::of(bytes))
        }
    }
}

} // verus!

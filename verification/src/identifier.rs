//! Identifiers of chains, clients, connections, ports and channels.

use vstd::prelude::*;
use vstd::string::*;
use vstd::utf8::*;
use crate::text::{all_digits, append_decimal, decimal_digits, digits_value};

verus! {

/// The position of the last dash in `bytes`, or -1 where there is none.
pub open spec fn last_dash(bytes: Seq<u8>) -> int
    decreases bytes.len(),
{
    if bytes.len() == 0 {
        -1
    } else if bytes.last() == 45 {
        bytes.len() - 1
    } else {
        last_dash(bytes.drop_last())
    }
}

/// What follows the last dash of `bytes`.
pub open spec fn after_last_dash(bytes: Seq<u8>) -> Seq<u8> {
    bytes.subrange(last_dash(bytes) + 1, bytes.len() as int)
}

/// A chain identifier carries a revision when it ends in a dash and a
/// decimal number without a leading zero, and at least two bytes stand before
/// that dash, the last of them no dash itself.
pub open spec fn epoch_format(bytes: Seq<u8>) -> bool {
    let i = last_dash(bytes);
    let digits = after_last_dash(bytes);
    &&& i >= 2
    &&& bytes[i - 1] != 45
    &&& digits.len() >= 1
    &&& 49 <= digits[0] <= 57
    &&& all_digits(digits)
}

/// The revision that an identifier carries: the number after its last dash
/// where it has the revision format and the number fits, zero otherwise.
pub open spec fn chain_version_of(bytes: Seq<u8>) -> u64 {
    if epoch_format(bytes) && digits_value(after_last_dash(bytes)) <= u64::MAX {
        digits_value(after_last_dash(bytes)) as u64
    } else {
        0
    }
}

/// Where the last dash stands: nothing after it is a dash.
pub proof fn lemma_last_dash(bytes: Seq<u8>)
    ensures
        -1 <= last_dash(bytes) < bytes.len(),
        last_dash(bytes) >= 0 ==> bytes[last_dash(bytes)] == 45,
        forall|j: int| last_dash(bytes) < j < bytes.len() ==> bytes[j] != 45,
    decreases bytes.len(),
{
    if bytes.len() > 0 && bytes.last() != 45 {
        let head = bytes.drop_last();
        lemma_last_dash(head);
        assert forall|j: int| last_dash(bytes) < j < bytes.len() implies bytes[j] != 45 by {
            if j < head.len() {
                assert(head[j] == bytes[j]);
            }
        }
    }
}

/// The last dash is at `i` where a dash stands at `i` and none after it.
pub proof fn lemma_last_dash_is(bytes: Seq<u8>, i: int)
    requires
        -1 <= i < bytes.len(),
        i >= 0 ==> bytes[i] == 45,
        forall|j: int| i < j < bytes.len() ==> bytes[j] != 45,
    ensures
        last_dash(bytes) == i,
    decreases bytes.len(),
{
    if bytes.len() > 0 && bytes.last() != 45 {
        lemma_last_dash_is(bytes.drop_last(), i);
    }
}

/// A longer run of digits stands for a number that is no smaller.
pub proof fn lemma_digits_value_prefix(s: Seq<u8>, k: int)
    requires
        all_digits(s),
        0 <= k <= s.len(),
    ensures
        digits_value(s.take(k)) <= digits_value(s),
    decreases s.len() - k,
{
    if k < s.len() {
        lemma_digits_value_prefix(s, k + 1);
        assert(s.take(k + 1).drop_last() =~= s.take(k));
        assert(s.take(k + 1).last() == s[k]);
    } else {
        assert(s.take(k) =~= s);
    }
}

/// Reads a run of decimal digits as a number, where it fits.
fn parse_digits(bytes: &[u8], start: usize) -> (r: Option<u64>)
    requires
        start <= bytes@.len(),
        all_digits(bytes@.subrange(start as int, bytes@.len() as int)),
    ensures
        r.is_some() == (digits_value(bytes@.subrange(start as int, bytes@.len() as int))
            <= u64::MAX),
        r.is_some() ==> r.unwrap() == digits_value(
            bytes@.subrange(start as int, bytes@.len() as int),
        ),
{
    let ghost digits = bytes@.subrange(start as int, bytes@.len() as int);
    let mut acc: u64 = 0;
    let mut i: usize = start;
    proof {
        assert(digits.take(0) =~= Seq::<u8>::empty());
    }
    while i < bytes.len()
        invariant
            start <= i <= bytes@.len(),
            digits == bytes@.subrange(start as int, bytes@.len() as int),
            all_digits(digits),
            acc == digits_value(digits.take(i - start)),
        decreases bytes@.len() - i,
    {
        let b = bytes[i];
        let ghost k = i - start;
        proof {
            assert(digits[k] == b);
            assert(digits.take(k + 1).drop_last() =~= digits.take(k));
            assert(digits.take(k + 1).last() == b);
            lemma_digits_value_prefix(digits, k + 1);
        }
        let d: u64 = (b - 48) as u64;
        if acc > (u64::MAX - d) / 10 {
            return None;
        }
        acc = acc * 10 + d;
        i += 1;
    }
    proof {
        assert(digits.take(i - start) =~= digits);
    }
    Some(acc)
}

/// The position of the last dash, if there is one.
fn find_last_dash(bytes: &[u8]) -> (r: Option<usize>)
    ensures
        r.is_none() <==> last_dash(bytes@) == -1,
        r.is_some() ==> r.unwrap() == last_dash(bytes@),
{
    let mut i: usize = bytes.len();
    while i > 0
        invariant
            i <= bytes@.len(),
            forall|j: int| i <= j < bytes@.len() ==> bytes@[j] != 45,
        decreases i,
    {
        if bytes[i - 1] == 45 {
            proof {
                lemma_last_dash_is(bytes@, i - 1);
            }
            return Some(i - 1);
        }
        i -= 1;
    }
    proof {
        lemma_last_dash_is(bytes@, -1);
    }
    None
}

/// Whether every byte from `start` on is a decimal digit.
fn digits_from(bytes: &[u8], start: usize) -> (r: bool)
    requires
        start <= bytes@.len(),
    ensures
        r == all_digits(bytes@.subrange(start as int, bytes@.len() as int)),
{
    let ghost digits = bytes@.subrange(start as int, bytes@.len() as int);
    let mut i: usize = start;
    while i < bytes.len()
        invariant
            start <= i <= bytes@.len(),
            digits == bytes@.subrange(start as int, bytes@.len() as int),
            forall|j: int| 0 <= j < i - start ==> 48 <= #[trigger] digits[j] <= 57,
        decreases bytes@.len() - i,
    {
        if bytes[i] < 48 || bytes[i] > 57 {
            proof {
                assert(digits[i - start] == bytes@[i as int]);
            }
            return false;
        }
        proof {
            assert(digits[i - start] == bytes@[i as int]);
        }
        i += 1;
    }
    true
}

/// How far the text reaches up to and including its last dash: zero where
/// it has none.
pub open spec fn dash_prefix_len(text: Seq<char>) -> int
    decreases text.len(),
{
    if text.len() == 0 {
        0
    } else if text.last() == '-' {
        text.len() as int
    } else {
        dash_prefix_len(text.drop_last())
    }
}

/// The text with what follows its last dash replaced by `version`; a text
/// without a dash is replaced as a whole.
pub open spec fn with_version_text(text: Seq<char>, version: u64) -> Seq<char> {
    text.take(dash_prefix_len(text)) + decimal_digits(version as nat)
}

/// The prefix ends at `n` where a dash stands before `n` and none after.
pub proof fn lemma_dash_prefix_is(text: Seq<char>, n: int)
    requires
        0 <= n <= text.len(),
        n > 0 ==> text[n - 1] == '-',
        forall|j: int| n <= j < text.len() ==> text[j] != '-',
    ensures
        dash_prefix_len(text) == n,
    decreases text.len(),
{
    if text.len() > 0 && text.last() != '-' {
        lemma_dash_prefix_is(text.drop_last(), n);
    }
}

/// The encoding of two texts in a row is the two encodings in a row.
pub proof fn lemma_encode_concat(a: Seq<char>, b: Seq<char>)
    ensures
        encode_utf8(a + b) == encode_utf8(a) + encode_utf8(b),
    decreases a.len(),
{
    if a.len() == 0 {
        assert(a + b =~= b);
        assert(encode_utf8(a) =~= Seq::<u8>::empty());
        assert(encode_utf8(a) + encode_utf8(b) =~= encode_utf8(b));
    } else {
        lemma_encode_concat(a.drop_first(), b);
        assert((a + b).drop_first() =~= a.drop_first() + b);
        assert((a + b)[0] == a[0]);
        assert(encode_utf8(a + b) =~= encode_utf8(a) + encode_utf8(b));
    }
}

/// The decimal digits of a number, encoded, are digit bytes that stand for
/// the number; they begin with a zero only for zero.
pub proof fn lemma_decimal_bytes(n: nat)
    ensures
        is_ascii_chars(decimal_digits(n)),
        encode_utf8(decimal_digits(n)).len() == decimal_digits(n).len(),
        encode_utf8(decimal_digits(n)).len() >= 1,
        all_digits(encode_utf8(decimal_digits(n))),
        digits_value(encode_utf8(decimal_digits(n))) == n,
        n >= 1 ==> encode_utf8(decimal_digits(n))[0] >= 49,
        n == 0 ==> encode_utf8(decimal_digits(n))[0] == 48,
    decreases n,
{
    let d = crate::text::digit_char((n % 10) as int);
    assert(d as u8 == 48 + n % 10);
    if n < 10 {
        let digits = decimal_digits(n);
        assert(digits =~= seq![d]);
        assert(is_ascii_chars(digits));
        is_ascii_chars_encode_utf8(digits);
        let bytes = encode_utf8(digits);
        assert(bytes[0] == digits[0] as u8);
        assert(bytes.len() == 1);
        assert(bytes.last() == 48 + n);
        assert(bytes.drop_last() =~= Seq::<u8>::empty());
        assert(digits_value(bytes.drop_last()) == 0);
        assert(digits_value(bytes) == n);
    } else {
        lemma_decimal_bytes(n / 10);
        let head = decimal_digits(n / 10);
        let digits = decimal_digits(n);
        assert(digits =~= head + seq![d]);
        assert(is_ascii_chars(seq![d]));
        is_ascii_chars_concat(digits, head, seq![d]);
        is_ascii_chars_encode_utf8(digits);
        is_ascii_chars_encode_utf8(head);
        is_ascii_chars_encode_utf8(seq![d]);
        lemma_encode_concat(head, seq![d]);
        let bytes = encode_utf8(digits);
        let head_bytes = encode_utf8(head);
        assert(encode_utf8(seq![d])[0] == d as u8);
        assert(bytes =~= head_bytes.push(d as u8));
        assert(bytes.drop_last() =~= head_bytes);
        assert(bytes.last() == d as u8);
        assert(digits_value(bytes) == n);
        assert(bytes[0] == head_bytes[0]);
        assert forall|i: int| 0 <= i < bytes.len() implies 48 <= #[trigger] bytes[i] <= 57 by {
            if i < head_bytes.len() {
                assert(bytes[i] == head_bytes[i]);
            }
        }
    }
}

/// The text `name`, a dash and the digits of `version` carries the revision
/// `version` where `version` is zero, or where the name has at least two bytes
/// and does not end in a dash.
pub proof fn lemma_version_of_new(name: Seq<char>, version: u64)
    requires
        version == 0 || (encode_utf8(name).len() >= 2 && encode_utf8(name).last() != 45),
    ensures
        chain_version_of(encode_utf8(name + seq!['-'] + decimal_digits(version as nat))) == version,
{
    let digits = decimal_digits(version as nat);
    let head = encode_utf8(name);
    let tail = encode_utf8(digits);
    lemma_decimal_bytes(version as nat);
    lemma_encode_concat(name + seq!['-'], digits);
    lemma_encode_concat(name, seq!['-']);
    assert(is_ascii_chars(seq!['-']));
    is_ascii_chars_encode_utf8(seq!['-']);
    assert(encode_utf8(seq!['-']) =~= seq![45u8]);
    let bytes = encode_utf8(name + seq!['-'] + digits);
    assert(bytes =~= head + seq![45u8] + tail);
    let i = head.len() as int;
    assert(bytes[i] == 45);
    assert forall|j: int| i < j < bytes.len() implies bytes[j] != 45 by {
        assert(bytes[j] == tail[j - i - 1]);
    }
    lemma_last_dash_is(bytes, i);
    assert(after_last_dash(bytes) =~= tail);
    if version != 0 {
        assert(bytes[i - 1] == head.last());
    }
}

/// The identifier of a chain, with the revision that it carries.
#[derive(Debug, PartialEq, Eq, Hash)]
pub struct ChainId {
    id: String,
    version: u64,
}

impl Clone for ChainId {
    fn clone(&self) -> (r: ChainId)
        ensures
            r == *self,
    {
        ChainId { id: self.id.clone(), version: self.version }
    }
}

impl ChainId {
    /// The identifier as text.
    pub closed spec fn text(&self) -> Seq<char> {
        self.id@
    }

    /// The revision held beside the text.
    pub closed spec fn spec_version(&self) -> u64 {
        self.version
    }

    /// The identifier as bytes.
    pub open spec fn bytes(&self) -> Seq<u8> {
        encode_utf8(self.text())
    }

    /// The revision held is the one that the text carries.
    pub open spec fn consistent(&self) -> bool {
        self.spec_version() == chain_version_of(self.bytes())
    }

    /// The identifier `name`, a dash and `version`. It carries the revision
    /// it is held with where the revision is zero, or where the name has at
    /// least two bytes and does not end in a dash.
    pub fn new(name: String, version: u64) -> (r: ChainId)
        ensures
            r.text() == name@ + seq!['-'] + decimal_digits(version as nat),
            r.spec_version() == version,
            version == 0 || (encode_utf8(name@).len() >= 2 && encode_utf8(name@).last() != 45)
                ==> r.consistent(),
    {
        let mut id = name;
        id.append("-");
        append_decimal(&mut id, version);
        proof {
            reveal_strlit("-");
            assert("-"@ =~= seq!['-']);
            if version == 0 || (encode_utf8(name@).len() >= 2 && encode_utf8(name@).last()
                != 45) {
                lemma_version_of_new(name@, version);
            }
        }
        ChainId { id, version }
    }

    /// The identifier with this text; the revision is read from the text.
    pub fn from_string(id: &str) -> (r: ChainId)
        ensures
            r.text() == id@,
            r.consistent(),
    {
        let version = ChainId::chain_version(id);
        ChainId { id: id.to_owned(), version }
    }

    pub fn as_str(&self) -> (r: &str)
        ensures
            r@ == self.text(),
    {
        self.id.as_str()
    }

    pub fn version(&self) -> (r: u64)
        ensures
            r == self.spec_version(),
    {
        self.version
    }

    /// The length of the identifier in bytes.
    pub fn len(&self) -> (r: usize)
        ensures
            r == self.bytes().len(),
    {
        self.id.as_str().as_bytes().len()
    }

    /// Whether `chain_id` has the form that carries a revision.
    pub fn is_epoch_format(chain_id: &str) -> (r: bool)
        ensures
            r == epoch_format(chain_id.spec_bytes()),
    {
        let bytes = chain_id.as_bytes();
        match find_last_dash(bytes) {
            None => false,
            Some(i) => {
                proof {
                    lemma_last_dash(bytes@);
                }
                if i < 2 || bytes[i - 1] == 45 || i + 1 >= bytes.len() {
                    return false;
                }
                let first = bytes[i + 1];
                proof {
                    assert(after_last_dash(bytes@)[0] == first);
                }
                49 <= first && first <= 57 && digits_from(bytes, i + 1)
            },
        }
    }

    /// The revision that `chain_id` carries, zero where it carries none.
    pub fn chain_version(chain_id: &str) -> (r: u64)
        ensures
            r == chain_version_of(chain_id.spec_bytes()),
    {
        if !ChainId::is_epoch_format(chain_id) {
            return 0;
        }
        let bytes = chain_id.as_bytes();
        match find_last_dash(bytes) {
            None => 0,
            Some(i) => {
                proof {
                    lemma_last_dash(bytes@);
                }
                assert(i < bytes.len());
                match parse_digits(bytes, i + 1) {
                    Some(v) => v,
                    None => 0,
                }
            },
        }
    }

    /// Whether both identifiers have the same text.
    pub fn same_text(&self, other: &ChainId) -> (r: bool)
        ensures
            r == (self.text() == other.text()),
    {
        self.id == other.id
    }

    /// The identifier as a string of its own.
    pub closed spec fn id_string(&self) -> String {
        self.id
    }

    /// The string of an identifier has its text.
    pub broadcast proof fn lemma_id_string(&self)
        ensures
            #[trigger] self.id_string()@ == self.text(),
    {
    }

    /// The identifier as a string of its own.
    pub fn to_id_string(&self) -> (r: String)
        ensures
            r == self.id_string(),
    {
        self.id.clone()
    }

    /// The identifier of the same chain in another revision: what follows
    /// the last dash is replaced by `version`.
    pub fn with_version(self, version: u64) -> (r: ChainId)
        ensures
            r.text() == with_version_text(self.text(), version),
            r.spec_version() == version,
    {
        let text = self.id.as_str();
        let mut end: usize = text.unicode_len();
        let mut found = false;
        while end > 0 && !found
            invariant
                end <= text@.len(),
                found ==> end > 0 && text@[end - 1] == '-',
                forall|j: int| end <= j < text@.len() ==> text@[j] != '-',
            decreases end - (if found { 1int } else { 0int }),
        {
            if text.get_char(end - 1) == '-' {
                found = true;
            } else {
                end -= 1;
            }
        }
        proof {
            lemma_dash_prefix_is(text@, end as int);
        }
        let mut id = String::from_str(text.substring_char(0, end));
        append_decimal(&mut id, version);
        assert(id@ =~= with_version_text(self.text(), version));
        ChainId { id, version }
    }
}

/// The kind of a light client.
#[derive(Clone, Copy, Debug, PartialEq, Eq, Structural, Hash, PartialOrd, Ord)]
pub enum ClientType {
    /// The Tendermint light client, `07-tendermint`.
    Tendermint,
    /// The mock client, `9999-mock`.
    Mock,
}

impl ClientType {
    /// The name of the client type.
    pub open spec fn text(self) -> Seq<char> {
        match self {
            ClientType::Tendermint => "07-tendermint"@,
            ClientType::Mock => "9999-mock"@,
        }
    }

    /// The name of the client type.
    pub fn as_str(&self) -> (r: &'static str)
        ensures
            r@ == self.text(),
    {
        match self {
            ClientType::Tendermint => "07-tendermint",
            ClientType::Mock => "9999-mock",
        }
    }
}

/// The identifier of a light client on the host chain.
#[derive(Debug, PartialEq, Eq, Hash, PartialOrd, Ord)]
pub struct ClientId {
    id: String,
}

impl View for ClientId {
    type V = Seq<char>;

    closed spec fn view(&self) -> Seq<char> {
        self.id@
    }
}

impl Clone for ClientId {
    fn clone(&self) -> (r: ClientId)
        ensures
            r == *self,
    {
        ClientId { id: self.id.clone() }
    }
}

impl Default for ClientId {
    /// The first Tendermint client.
    fn default() -> (r: ClientId)
        ensures
            r@ == "07-tendermint-0"@,
    {
        ClientId { id: String::from_str("07-tendermint-0") }
    }
}

impl ClientId {
    /// The identifier with this text. The text is taken as it is.
    pub fn from_string(id: String) -> (r: ClientId)
        ensures
            r@ == id@,
    {
        ClientId { id }
    }

    pub fn as_str(&self) -> (r: &str)
        ensures
            r@ == self@,
    {
        self.id.as_str()
    }

    /// Whether both identifiers have the same text.
    pub fn same(&self, other: &ClientId) -> (r: bool)
        ensures
            r == (self@ == other@),
    {
        self.id == other.id
    }
}

/// The identifier of a connection on the host chain.
#[derive(Debug, PartialEq, Eq, Hash, PartialOrd, Ord)]
pub struct ConnectionId {
    id: String,
}

impl View for ConnectionId {
    type V = Seq<char>;

    closed spec fn view(&self) -> Seq<char> {
        self.id@
    }
}

impl Clone for ConnectionId {
    fn clone(&self) -> (r: ConnectionId)
        ensures
            r == *self,
    {
        ConnectionId { id: self.id.clone() }
    }
}

impl Default for ConnectionId {
    /// The first connection.
    fn default() -> (r: ConnectionId)
        ensures
            r@ == "connection-0"@,
    {
        ConnectionId { id: String::from_str("connection-0") }
    }
}

impl ConnectionId {
    /// The identifier with this text. The text is taken as it is.
    pub fn from_string(id: String) -> (r: ConnectionId)
        ensures
            r@ == id@,
    {
        ConnectionId { id }
    }

    pub fn as_str(&self) -> (r: &str)
        ensures
            r@ == self@,
    {
        self.id.as_str()
    }

    /// Whether both identifiers have the same text.
    pub fn same(&self, other: &ConnectionId) -> (r: bool)
        ensures
            r == (self@ == other@),
    {
        self.id == other.id
    }
}

/// The identifier of a port on the host chain.
#[derive(Debug, PartialEq, Eq, Hash, PartialOrd, Ord)]
pub struct PortId {
    id: String,
}

impl View for PortId {
    type V = Seq<char>;

    closed spec fn view(&self) -> Seq<char> {
        self.id@
    }
}

impl Clone for PortId {
    fn clone(&self) -> (r: PortId)
        ensures
            r == *self,
    {
        PortId { id: self.id.clone() }
    }
}

impl Default for PortId {
    /// The default port.
    fn default() -> (r: PortId)
        ensures
            r@ == "defaultPort"@,
    {
        PortId { id: String::from_str("defaultPort") }
    }
}

impl PortId {
    /// The identifier with this text. The text is taken as it is.
    pub fn from_string(id: String) -> (r: PortId)
        ensures
            r@ == id@,
    {
        PortId { id }
    }

    pub fn as_str(&self) -> (r: &str)
        ensures
            r@ == self@,
    {
        self.id.as_str()
    }

    /// Whether both identifiers have the same text.
    pub fn same(&self, other: &PortId) -> (r: bool)
        ensures
            r == (self@ == other@),
    {
        self.id == other.id
    }
}

/// The identifier of a channel on the host chain.
#[derive(Debug, PartialEq, Eq, Hash, PartialOrd, Ord)]
pub struct ChannelId {
    id: String,
}

impl View for ChannelId {
    type V = Seq<char>;

    closed spec fn view(&self) -> Seq<char> {
        self.id@
    }
}

impl Clone for ChannelId {
    fn clone(&self) -> (r: ChannelId)
        ensures
            r == *self,
    {
        ChannelId { id: self.id.clone() }
    }
}

impl Default for ChannelId {
    /// The first channel.
    fn default() -> (r: ChannelId)
        ensures
            r@ == "channel-0"@,
    {
        ChannelId { id: String::from_str("channel-0") }
    }
}

impl ChannelId {
    /// The identifier with this text. The text is taken as it is.
    pub fn from_string(id: String) -> (r: ChannelId)
        ensures
            r@ == id@,
    {
        ChannelId { id }
    }

    pub fn as_str(&self) -> (r: &str)
        ensures
            r@ == self@,
    {
        self.id.as_str()
    }

    /// Whether both identifiers have the same text.
    pub fn same(&self, other: &ChannelId) -> (r: bool)
        ensures
            r == (self@ == other@),
    {
        self.id == other.id
    }
}

impl Default for ChainId {
    /// The chain identifier `defaultChainId`, which carries no revision.
    fn default() -> (r: ChainId)
        ensures
            r.text() == "defaultChainId"@,
            r.consistent(),
    {
        ChainId::from_string("defaultChainId")
    }
}

} // verus!

//! Agent keys and cell ids, as their raw bytes.

use vstd::prelude::*;

verus! {

/// An agent's public key in its full form: three bytes that mark it as an agent key, the key
/// itself, and four bytes that place it in the DHT.
#[derive(Debug, Clone, Copy, PartialEq, Eq)]
pub struct AgentPubKey {
    pub raw: [u8; 39],
}

impl View for AgentPubKey {
    type V = Seq<u8>;

    open spec fn view(&self) -> Seq<u8> {
        self.raw@
    }
}

/// The hash of a DNA in its full form.
#[derive(Debug, Clone, Copy, PartialEq, Eq)]
pub struct DnaHash {
    pub raw: [u8; 39],
}

/// A cell: a DNA run by an agent.
#[derive(Debug, Clone, Copy, PartialEq, Eq)]
pub struct CellId {
    pub dna_hash: DnaHash,
    pub agent_pubkey: AgentPubKey,
}

impl AgentPubKey {
    /// Whether two keys are the same key.
    pub fn same_as(&self, other: &AgentPubKey) -> (same: bool)
        ensures
            same == (self@ == other@),
            same == (*self == *other),
    {
        let mut i: usize = 0;
        while i < 39
            invariant
                i <= 39,
                forall|j: int| 0 <= j < i ==> self.raw@[j] == other.raw@[j],
            decreases 39 - i,
        {
            if self.raw[i] != other.raw[i] {
                assert(self.raw@[i as int] != other.raw@[i as int]);
                return false;
            }
            i = i + 1;
        }
        assert(self.raw@ =~= other.raw@);
        assert(self.raw =~= other.raw);
        true
    }
}

/// The character that base64 for URLs has for six bits.
pub open spec fn base64_char(sextet: nat) -> char {
    if sextet < 26 {
        ('A' as nat + sextet) as char
    } else if sextet < 52 {
        ('a' as nat + (sextet - 26)) as char
    } else if sextet < 62 {
        ('0' as nat + (sextet - 52)) as char
    } else if sextet == 62 {
        '-'
    } else {
        '_'
    }
}

/// The number that three bytes from `at` on make up, most significant byte first.
pub open spec fn three_bytes(bytes: Seq<u8>, at: int) -> nat {
    (bytes[at] * 65536 + bytes[at + 1] * 256 + bytes[at + 2]) as nat
}

/// The six bits that character `i` of the base64 text stands for: every three bytes make four
/// characters.
pub open spec fn sextet(bytes: Seq<u8>, i: int) -> nat {
    let group = three_bytes(bytes, i / 4 * 3);
    if i % 4 == 0 {
        group / 262144
    } else if i % 4 == 1 {
        group / 4096 % 64
    } else if i % 4 == 2 {
        group / 64 % 64
    } else {
        group % 64
    }
}

/// The text of a key: a `u`, then its bytes in base64 for URLs. A key has a multiple of three bytes,
/// so there is nothing to pad.
pub open spec fn key_text(key: Seq<u8>) -> Seq<char> {
    seq!['u'] + Seq::new(
        (key.len() / 3 * 4) as nat,
        |i: int| base64_char(sextet(key, i)),
    )
}

/// Calls [`holo_hash::encode::holo_hash_encode`], by which a hash is displayed. The contract claims
/// that the text is a `u` followed by the bytes of the key in base64 for URLs.
#[verifier::external_body]
pub(crate) fn encode_key(key: &AgentPubKey) -> (text: String)
    ensures
        text@ == key_text(key@),
{
    holo_hash::encode::holo_hash_encode(&key.raw)
}

/// Characters tell sextets apart.
proof fn lemma_base64_char(a: nat, b: nat)
    requires
        a < 64,
        b < 64,
        base64_char(a) == base64_char(b),
    ensures
        a == b,
{
}

/// Four sextets make up a number of 24 bits.
pub proof fn lemma_sextets_make_up(n: nat)
    requires
        n < 16777216,
    ensures
        n == (n / 262144) * 262144 + (n / 4096 % 64) * 4096 + (n / 64 % 64) * 64 + n % 64,
        n / 262144 < 64,
{
    let a = n / 64;
    let b = a / 64;
    assert(n == 64 * a + n % 64);
    assert(a == 64 * b + a % 64);
    assert(b == 64 * (b / 64) + b % 64);
    assert(b == n / 4096);
    assert(b / 64 == n / 262144);
}

/// The sextets of a group of three bytes.
pub proof fn lemma_sextets_of_group(bytes: Seq<u8>, group: int)
    requires
        0 <= group,
    ensures
        three_bytes(bytes, 3 * group) < 16777216,
        sextet(bytes, 4 * group) == three_bytes(bytes, 3 * group) / 262144,
        sextet(bytes, 4 * group + 1) == three_bytes(bytes, 3 * group) / 4096 % 64,
        sextet(bytes, 4 * group + 2) == three_bytes(bytes, 3 * group) / 64 % 64,
        sextet(bytes, 4 * group + 3) == three_bytes(bytes, 3 * group) % 64,
{
    assert((4 * group) / 4 == group && (4 * group) % 4 == 0);
    assert((4 * group + 1) / 4 == group && (4 * group + 1) % 4 == 1);
    assert((4 * group + 2) / 4 == group && (4 * group + 2) % 4 == 2);
    assert((4 * group + 3) / 4 == group && (4 * group + 3) % 4 == 3);
}

/// Numbers of 24 bits with the same sextets are the same.
proof fn lemma_sextets_tell_apart(m: nat, n: nat)
    requires
        m < 16777216,
        n < 16777216,
        m / 262144 == n / 262144,
        m / 4096 % 64 == n / 4096 % 64,
        m / 64 % 64 == n / 64 % 64,
        m % 64 == n % 64,
    ensures
        m == n,
{
    lemma_sextets_make_up(m);
    lemma_sextets_make_up(n);
}

/// Three bytes that make up the same number are the same.
proof fn lemma_bytes_tell_apart(a: u8, b: u8, c: u8, x: u8, y: u8, z: u8)
    requires
        a * 65536 + b * 256 + c == x * 65536 + y * 256 + z,
    ensures
        a == x,
        b == y,
        c == z,
{
}

/// Four sextets tell groups of three bytes apart.
proof fn lemma_three_bytes(a: Seq<u8>, b: Seq<u8>, group: int)
    requires
        0 <= group,
        sextet(a, 4 * group) == sextet(b, 4 * group),
        sextet(a, 4 * group + 1) == sextet(b, 4 * group + 1),
        sextet(a, 4 * group + 2) == sextet(b, 4 * group + 2),
        sextet(a, 4 * group + 3) == sextet(b, 4 * group + 3),
    ensures
        a[3 * group] == b[3 * group],
        a[3 * group + 1] == b[3 * group + 1],
        a[3 * group + 2] == b[3 * group + 2],
{
    lemma_sextets_of_group(a, group);
    lemma_sextets_of_group(b, group);
    lemma_sextets_tell_apart(three_bytes(a, 3 * group), three_bytes(b, 3 * group));
    lemma_bytes_tell_apart(
        a[3 * group],
        a[3 * group + 1],
        a[3 * group + 2],
        b[3 * group],
        b[3 * group + 1],
        b[3 * group + 2],
    );
}

/// Keys are told apart by their texts.
pub proof fn law_texts_tell_keys_apart(a: AgentPubKey, b: AgentPubKey)
    ensures
        key_text(a@) == key_text(b@) <==> a@ == b@,
{
    if key_text(a@) == key_text(b@) {
        assert forall|i: int| 0 <= i < 52 implies sextet(a@, i) == #[trigger] sextet(b@, i) by {
            assert(key_text(a@)[i + 1] == base64_char(sextet(a@, i)));
            assert(key_text(b@)[i + 1] == base64_char(sextet(b@, i)));
            lemma_base64_char(sextet(a@, i), sextet(b@, i));
        }
        assert forall|j: int| 0 <= j < 39 implies #[trigger] a@[j] == b@[j] by {
            lemma_three_bytes(a@, b@, j / 3);
        }
        assert(a@ =~= b@);
    }
}

} // verus!

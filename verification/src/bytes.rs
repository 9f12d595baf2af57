//! Addresses, digests and the byte strings that are hashed.

use vstd::prelude::*;

verus! {

/// The 32 bytes that identify an account, a token or a program.
#[derive(Clone, Copy, Debug, PartialEq, Eq)]
pub struct Address {
    pub bytes: [u8; 32],
}

impl View for Address {
    type V = Seq<u8>;

    open spec fn view(&self) -> Seq<u8> {
        self.bytes@
    }
}

impl Address {
    /// The address made of `bytes`.
    pub fn new(bytes: [u8; 32]) -> (a: Address)
        ensures
            a@ == bytes@,
            a.bytes == bytes,
    {
        Address { bytes }
    }

    /// The bytes of the address.
    pub fn to_bytes(&self) -> (bytes: [u8; 32])
        ensures
            bytes@ == self@,
            bytes == self.bytes,
    {
        self.bytes
    }

    /// Whether two addresses are the same 32 bytes.
    pub fn same_as(&self, other: &Address) -> (same: bool)
        ensures
            same == (self@ == other@),
            same == (*self == *other),
    {
        let same = digest_eq(&self.bytes, &other.bytes);
        proof {
            if same {
                assert(self.bytes =~= other.bytes);
            }
        }
        same
    }
}

/// `a` comes before `b`, or equals it, in lexicographic order: `a` is the
/// start of `b`, or at the first position where they differ `a` holds the
/// smaller byte.
pub open spec fn lex_le(a: Seq<u8>, b: Seq<u8>) -> bool {
    starts(b, a) || exists|k: int| first_smaller_at(a, b, k)
}

/// `whole` begins with `start`.
pub open spec fn starts(whole: Seq<u8>, start: Seq<u8>) -> bool {
    &&& start.len() <= whole.len()
    &&& forall|j: int| 0 <= j < start.len() ==> start[j] == whole[j]
}

/// `a` and `b` agree before position `k`, and there `a` holds the smaller byte.
pub open spec fn first_smaller_at(a: Seq<u8>, b: Seq<u8>, k: int) -> bool {
    &&& 0 <= k < a.len()
    &&& k < b.len()
    &&& a[k] < b[k]
    &&& forall|j: int| 0 <= j < k ==> a[j] == b[j]
}

/// The eight bytes of `value`, least significant first.
pub open spec fn le_bytes(value: u64) -> Seq<u8> {
    Seq::new(8, |i: int| le_byte(value, i))
}

/// Byte `i` of `value`, counted from the least significant.
pub open spec fn le_byte(value: u64, i: int) -> u8 {
    ((value as int / pow256(i)) % 256) as u8
}

/// 256 to the power `i`, for `i` from 0 to 8.
pub open spec fn pow256(i: int) -> int {
    if i <= 0 {
        1
    } else if i == 1 {
        0x100
    } else if i == 2 {
        0x1_0000
    } else if i == 3 {
        0x100_0000
    } else if i == 4 {
        0x1_0000_0000
    } else if i == 5 {
        0x100_0000_0000
    } else if i == 6 {
        0x1_0000_0000_0000
    } else if i == 7 {
        0x100_0000_0000_0000
    } else {
        0x1_0000_0000_0000_0000
    }
}

/// Whether two digests are the same 32 bytes.
pub fn digest_eq(a: &[u8; 32], b: &[u8; 32]) -> (same: bool)
    ensures
        same == (a@ == b@),
{
    let mut i: usize = 0;
    while i < 32
        invariant
            0 <= i <= 32,
            forall|j: int| 0 <= j < i ==> a@[j] == b@[j],
        decreases 32 - i,
    {
        if a[i] != b[i] {
            return false;
        }
        i += 1;
    }
    assert(a@ =~= b@);
    true
}

/// Whether `a` comes before `b`, or equals it, in lexicographic order.
pub fn digest_le(a: &[u8; 32], b: &[u8; 32]) -> (le: bool)
    ensures
        le == lex_le(a@, b@),
{
    let mut i: usize = 0;
    while i < 32
        invariant
            0 <= i <= 32,
            forall|j: int| 0 <= j < i ==> a@[j] == b@[j],
        decreases 32 - i,
    {
        if a[i] < b[i] {
            assert(first_smaller_at(a@, b@, i as int));
            return true;
        }
        if a[i] > b[i] {
            assert(!starts(b@, a@)) by {
                if starts(b@, a@) {
                    assert(a@[i as int] == b@[i as int]);
                }
            }
            assert forall|k: int| !first_smaller_at(a@, b@, k) by {
                if first_smaller_at(a@, b@, k) {
                    if k > i {
                        assert(a@[i as int] == b@[i as int]);
                    }
                }
            }
            return false;
        }
        i += 1;
    }
    assert(starts(b@, a@));
    true
}

/// The eight bytes of `value`, least significant first.
pub fn u64_to_le_bytes(value: u64) -> (out: [u8; 8])
    ensures
        out@ == le_bytes(value),
{
    let mut out: [u8; 8] = [0u8; 8];
    let mut rest: u64 = value;
    let mut i: usize = 0;
    while i < 8
        invariant
            0 <= i <= 8,
            rest as int == value as int / pow256(i as int),
            forall|j: int| 0 <= j < i ==> out@[j] == le_byte(value, j),
        decreases 8 - i,
    {
        let low: u8 = (rest % 256) as u8;
        out[i] = low;
        proof {
            lemma_pow256_step(value as int, i as int);
        }
        rest = rest / 256;
        i += 1;
    }
    assert(out@ =~= le_bytes(value));
    out
}

/// Dividing by one more power of 256 is dividing once more by 256.
proof fn lemma_pow256_step(v: int, i: int)
    requires
        0 <= v,
        0 <= i < 8,
    ensures
        (v / pow256(i)) / 256 == v / (pow256(i) * 256),
        pow256(i + 1) == pow256(i) * 256,
{
    vstd::arithmetic::div_mod::lemma_div_denominator(v, pow256(i), 256);
}

/// Of two byte strings, one comes before the other or equals it.
pub proof fn lemma_lex_le_total(a: Seq<u8>, b: Seq<u8>)
    ensures
        lex_le(a, b) || lex_le(b, a),
{
    lemma_first_difference(a, b, 0);
}

/// Two byte strings that agree before position `from` are such that one is
/// the start of the other, or one holds the smaller byte at the first
/// position where they differ.
proof fn lemma_first_difference(a: Seq<u8>, b: Seq<u8>, from: int)
    requires
        0 <= from <= a.len(),
        from <= b.len(),
        forall|j: int| 0 <= j < from ==> a[j] == b[j],
    ensures
        starts(b, a) || starts(a, b) || (exists|k: int| first_smaller_at(a, b, k)) || (exists|
            k: int,
        | first_smaller_at(b, a, k)),
    decreases a.len() - from,
{
    if from == a.len() {
        assert(starts(b, a));
    } else if from == b.len() {
        assert(starts(a, b));
    } else if a[from] < b[from] {
        assert(first_smaller_at(a, b, from));
    } else if a[from] > b[from] {
        assert(first_smaller_at(b, a, from));
    } else {
        lemma_first_difference(a, b, from + 1);
    }
}

/// Two byte strings each of which comes before or equals the other are equal.
pub proof fn lemma_lex_le_antisymmetric(a: Seq<u8>, b: Seq<u8>)
    requires
        lex_le(a, b),
        lex_le(b, a),
    ensures
        a == b,
{
    if starts(b, a) {
        if starts(a, b) {
            assert(a =~= b);
        } else {
            let k = choose|k: int| first_smaller_at(b, a, k);
            assert(a[k] == b[k]);
        }
    } else {
        let k1 = choose|k: int| first_smaller_at(a, b, k);
        if starts(a, b) {
            assert(b[k1] == a[k1]);
        } else {
            let k2 = choose|k: int| first_smaller_at(b, a, k);
            if k1 < k2 {
                assert(b[k1] == a[k1]);
            } else if k2 < k1 {
                assert(a[k2] == b[k2]);
            }
        }
    }
}

} // verus!

use vstd::prelude::*;
use vstd::std_specs::cmp::PartialOrdSpec;
use vstd::string::StringSliceAdditionalSpecFns;

use crate::error::FmodError;

verus! {

/// Holds of a byte that spells a lowercase hexadecimal digit.
pub open spec fn is_hex_lower(b: u8) -> bool {
    (48 <= b && b <= 57)  // '0' ..= '9'
    || (97 <= b && b <= 102)  // 'a' ..= 'f'
}

/// The numeric value of a lowercase hexadecimal digit byte; bytes outside
/// that range count as zero, and `is_hex_lower` rules them out wherever the
/// value matters.
pub open spec fn hex_value(b: u8) -> nat {
    if 48 <= b && b <= 57 {
        (b - 48) as nat
    } else if 97 <= b && b <= 102 {
        (b - 97 + 10) as nat
    } else {
        0
    }
}

/// Holds of a run of `count` bytes from `start` that are all lowercase
/// hexadecimal digits.
pub open spec fn is_hex_run(s: Seq<u8>, start: int, count: int) -> bool {
    forall|i: int| start <= i < start + count ==> is_hex_lower(#[trigger] s[i])
}

/// The number spelled by the run of `count` hexadecimal digit bytes of `s`
/// that starts at `start`, most significant digit first.
pub open spec fn hex_run_value(s: Seq<u8>, start: int, count: nat) -> nat
    decreases count,
{
    if count == 0 {
        0
    } else {
        hex_run_value(s, start, (count - 1) as nat) * 16 + hex_value(s[start + count - 1])
    }
}

/// Sixteen to the `n`th power: the number of values a run of `n` hexadecimal
/// digits can spell.
pub open spec fn pow16(n: nat) -> nat
    decreases n,
{
    if n == 0 {
        1
    } else {
        16 * pow16((n - 1) as nat)
    }
}

proof fn lemma_pow16_increases(m: nat, n: nat)
    requires
        m <= n,
    ensures
        pow16(m) <= pow16(n),
    decreases n,
{
    if m < n {
        lemma_pow16_increases(m, (n - 1) as nat);
    }
}

proof fn lemma_hex_run_value_bound(s: Seq<u8>, start: int, count: nat)
    ensures
        hex_run_value(s, start, count) < pow16(count),
    decreases count,
{
    if count > 0 {
        lemma_hex_run_value_bound(s, start, (count - 1) as nat);
    }
}

/// The canonical textual interchange form of an identifier: braced,
/// hyphen-separated groups of 8, 4, 4, 4 and 12 lowercase hexadecimal
/// digits, 38 bytes in all.
pub open spec fn is_canonical_guid(s: Seq<u8>) -> bool {
    &&& s.len() == 38
    &&& s[0] == 123u8  // '{'
    &&& s[37] == 125u8  // '}'
    &&& s[9] == 45u8 && s[14] == 45u8 && s[19] == 45u8 && s[24] == 45u8  // '-'
    &&& is_hex_run(s, 1, 8)
    &&& is_hex_run(s, 10, 4)
    &&& is_hex_run(s, 15, 4)
    &&& is_hex_run(s, 20, 4)
    &&& is_hex_run(s, 25, 12)
}

/// The high half of the identifier a canonical string spells: its first
/// sixteen hexadecimal digits, read big-endian.
pub open spec fn guid_hi_of(s: Seq<u8>) -> nat {
    hex_run_value(s, 1, 8) * 0x1_0000_0000 + hex_run_value(s, 10, 4) * 0x1_0000 + hex_run_value(
        s,
        15,
        4,
    )
}

/// The low half of the identifier a canonical string spells: its last
/// sixteen hexadecimal digits, read big-endian.
pub open spec fn guid_lo_of(s: Seq<u8>) -> nat {
    hex_run_value(s, 20, 4) * 0x1_0000_0000_0000 + hex_run_value(s, 25, 12)
}

/// A 128-bit identifier: an opaque value type addressing banks and events
/// independent of path. The two fields hold the halves of the canonical
/// sixteen-byte representation, each big-endian, so that the numeric order
/// of the pair `(hi, lo)` is exactly the byte-wise lexicographic order of
/// that representation. The all-zero value is the "no identifier" sentinel.
#[derive(Clone, Copy, Debug, PartialEq, Eq, Structural, Hash, Ord)]
pub struct Guid {
    /// The first eight canonical bytes, big-endian.
    pub hi: u64,
    /// The last eight canonical bytes, big-endian.
    pub lo: u64,
}

/// The defined total order on identifiers: byte-wise lexicographic
/// comparison of the canonical sixteen-byte representation, which is the
/// numeric order of the big-endian halves.
pub open spec fn guid_le(a: Guid, b: Guid) -> bool {
    a.hi < b.hi || (a.hi == b.hi && a.lo <= b.lo)
}

/// Byte `i` (big-endian: byte 0 is the most significant) of a 64-bit value.
pub open spec fn be_byte(x: u64, i: int) -> u8
    recommends
        0 <= i < 8,
{
    if i == 0 {
        ((x >> 56) & 0xff) as u8
    } else if i == 1 {
        ((x >> 48) & 0xff) as u8
    } else if i == 2 {
        ((x >> 40) & 0xff) as u8
    } else if i == 3 {
        ((x >> 32) & 0xff) as u8
    } else if i == 4 {
        ((x >> 24) & 0xff) as u8
    } else if i == 5 {
        ((x >> 16) & 0xff) as u8
    } else if i == 6 {
        ((x >> 8) & 0xff) as u8
    } else {
        (x & 0xff) as u8
    }
}

/// Byte `i` of the canonical sixteen-byte representation of an identifier.
pub open spec fn guid_byte(g: Guid, i: int) -> u8
    recommends
        0 <= i < 16,
{
    if i < 8 {
        be_byte(g.hi, i)
    } else {
        be_byte(g.lo, i - 8)
    }
}

/// The canonical sixteen-byte representation of an identifier: the raw byte
/// sequence that the defined total order compares.
pub open spec fn guid_bytes(g: Guid) -> Seq<u8> {
    Seq::new(16, |i: int| guid_byte(g, i))
}

/// Strict byte-wise lexicographic order on equal-length byte sequences: at
/// some position the left sequence holds the smaller byte, and every earlier
/// position agrees.
pub open spec fn lex_lt(a: Seq<u8>, b: Seq<u8>) -> bool
    recommends
        a.len() == b.len(),
{
    exists|i: int|
        #![auto]
        0 <= i < a.len() && i < b.len() && a[i] < b[i] && (forall|j: int|
            0 <= j < i ==> a[j] == b[j])
}

/// Byte-wise lexicographic order, allowing equality.
pub open spec fn lex_le(a: Seq<u8>, b: Seq<u8>) -> bool
    recommends
        a.len() == b.len(),
{
    lex_lt(a, b) || a == b
}

proof fn lemma_be_bytes_equal(x: u64, y: u64)
    requires
        forall|i: int| 0 <= i < 8 ==> be_byte(x, i) == be_byte(y, i),
    ensures
        x == y,
{
    assert(be_byte(x, 0) == be_byte(y, 0) && be_byte(x, 1) == be_byte(y, 1) && be_byte(x, 2)
        == be_byte(y, 2) && be_byte(x, 3) == be_byte(y, 3) && be_byte(x, 4) == be_byte(y, 4)
        && be_byte(x, 5) == be_byte(y, 5) && be_byte(x, 6) == be_byte(y, 6) && be_byte(x, 7)
        == be_byte(y, 7));
    assert((((x >> 56) & 0xff) as u8 == ((y >> 56) & 0xff) as u8 && ((x >> 48) & 0xff) as u8 == ((y
        >> 48) & 0xff) as u8 && ((x >> 40) & 0xff) as u8 == ((y >> 40) & 0xff) as u8 && ((x >> 32)
        & 0xff) as u8 == ((y >> 32) & 0xff) as u8 && ((x >> 24) & 0xff) as u8 == ((y >> 24)
        & 0xff) as u8 && ((x >> 16) & 0xff) as u8 == ((y >> 16) & 0xff) as u8 && ((x >> 8)
        & 0xff) as u8 == ((y >> 8) & 0xff) as u8 && (x & 0xff) as u8 == (y & 0xff) as u8) ==> x
        == y) by (bit_vector);
}

proof fn lemma_be_lt(x: u64, y: u64, k: int)
    requires
        0 <= k < 8,
        forall|j: int| 0 <= j < k ==> be_byte(x, j) == be_byte(y, j),
        be_byte(x, k) < be_byte(y, k),
    ensures
        x < y,
{
    if k == 0 {
        assert((((((x >> 56) & 0xff)) as u8) < ((((y >> 56) & 0xff)) as u8)) ==> x < y) by (bit_vector);
    } else if k == 1 {
        assert(be_byte(x, 0) == be_byte(y, 0));
        assert((((((x >> 56) & 0xff)) as u8) == ((((y >> 56) & 0xff)) as u8) && ((((x >> 48) & 0xff)) as u8) < ((((y >> 48) & 0xff)) as u8)) ==> x < y) by (bit_vector);
    } else if k == 2 {
        assert(be_byte(x, 0) == be_byte(y, 0));
        assert(be_byte(x, 1) == be_byte(y, 1));
        assert((((((x >> 56) & 0xff)) as u8) == ((((y >> 56) & 0xff)) as u8) && ((((x >> 48) & 0xff)) as u8) == ((((y >> 48) & 0xff)) as u8) && ((((x >> 40) & 0xff)) as u8) < ((((y >> 40) & 0xff)) as u8)) ==> x < y) by (bit_vector);
    } else if k == 3 {
        assert(be_byte(x, 0) == be_byte(y, 0));
        assert(be_byte(x, 1) == be_byte(y, 1));
        assert(be_byte(x, 2) == be_byte(y, 2));
        assert((((((x >> 56) & 0xff)) as u8) == ((((y >> 56) & 0xff)) as u8) && ((((x >> 48) & 0xff)) as u8) == ((((y >> 48) & 0xff)) as u8) && ((((x >> 40) & 0xff)) as u8) == ((((y >> 40) & 0xff)) as u8) && ((((x >> 32) & 0xff)) as u8) < ((((y >> 32) & 0xff)) as u8)) ==> x < y) by (bit_vector);
    } else if k == 4 {
        assert(be_byte(x, 0) == be_byte(y, 0));
        assert(be_byte(x, 1) == be_byte(y, 1));
        assert(be_byte(x, 2) == be_byte(y, 2));
        assert(be_byte(x, 3) == be_byte(y, 3));
        assert((((((x >> 56) & 0xff)) as u8) == ((((y >> 56) & 0xff)) as u8) && ((((x >> 48) & 0xff)) as u8) == ((((y >> 48) & 0xff)) as u8) && ((((x >> 40) & 0xff)) as u8) == ((((y >> 40) & 0xff)) as u8) && ((((x >> 32) & 0xff)) as u8) == ((((y >> 32) & 0xff)) as u8) && ((((x >> 24) & 0xff)) as u8) < ((((y >> 24) & 0xff)) as u8)) ==> x < y) by (bit_vector);
    } else if k == 5 {
        assert(be_byte(x, 0) == be_byte(y, 0));
        assert(be_byte(x, 1) == be_byte(y, 1));
        assert(be_byte(x, 2) == be_byte(y, 2));
        assert(be_byte(x, 3) == be_byte(y, 3));
        assert(be_byte(x, 4) == be_byte(y, 4));
        assert((((((x >> 56) & 0xff)) as u8) == ((((y >> 56) & 0xff)) as u8) && ((((x >> 48) & 0xff)) as u8) == ((((y >> 48) & 0xff)) as u8) && ((((x >> 40) & 0xff)) as u8) == ((((y >> 40) & 0xff)) as u8) && ((((x >> 32) & 0xff)) as u8) == ((((y >> 32) & 0xff)) as u8) && ((((x >> 24) & 0xff)) as u8) == ((((y >> 24) & 0xff)) as u8) && ((((x >> 16) & 0xff)) as u8) < ((((y >> 16) & 0xff)) as u8)) ==> x < y) by (bit_vector);
    } else if k == 6 {
        assert(be_byte(x, 0) == be_byte(y, 0));
        assert(be_byte(x, 1) == be_byte(y, 1));
        assert(be_byte(x, 2) == be_byte(y, 2));
        assert(be_byte(x, 3) == be_byte(y, 3));
        assert(be_byte(x, 4) == be_byte(y, 4));
        assert(be_byte(x, 5) == be_byte(y, 5));
        assert((((((x >> 56) & 0xff)) as u8) == ((((y >> 56) & 0xff)) as u8) && ((((x >> 48) & 0xff)) as u8) == ((((y >> 48) & 0xff)) as u8) && ((((x >> 40) & 0xff)) as u8) == ((((y >> 40) & 0xff)) as u8) && ((((x >> 32) & 0xff)) as u8) == ((((y >> 32) & 0xff)) as u8) && ((((x >> 24) & 0xff)) as u8) == ((((y >> 24) & 0xff)) as u8) && ((((x >> 16) & 0xff)) as u8) == ((((y >> 16) & 0xff)) as u8) && ((((x >> 8) & 0xff)) as u8) < ((((y >> 8) & 0xff)) as u8)) ==> x < y) by (bit_vector);
    } else if k == 7 {
        assert(be_byte(x, 0) == be_byte(y, 0));
        assert(be_byte(x, 1) == be_byte(y, 1));
        assert(be_byte(x, 2) == be_byte(y, 2));
        assert(be_byte(x, 3) == be_byte(y, 3));
        assert(be_byte(x, 4) == be_byte(y, 4));
        assert(be_byte(x, 5) == be_byte(y, 5));
        assert(be_byte(x, 6) == be_byte(y, 6));
        assert((((((x >> 56) & 0xff)) as u8) == ((((y >> 56) & 0xff)) as u8) && ((((x >> 48) & 0xff)) as u8) == ((((y >> 48) & 0xff)) as u8) && ((((x >> 40) & 0xff)) as u8) == ((((y >> 40) & 0xff)) as u8) && ((((x >> 32) & 0xff)) as u8) == ((((y >> 32) & 0xff)) as u8) && ((((x >> 24) & 0xff)) as u8) == ((((y >> 24) & 0xff)) as u8) && ((((x >> 16) & 0xff)) as u8) == ((((y >> 16) & 0xff)) as u8) && ((((x >> 8) & 0xff)) as u8) == ((((y >> 8) & 0xff)) as u8) && (((x & 0xff)) as u8) < (((y & 0xff)) as u8)) ==> x < y) by (bit_vector);
    }
}

proof fn first_diff_be(x: u64, y: u64) -> (k: int)
    requires
        x != y,
    ensures
        0 <= k < 8,
        forall|j: int| 0 <= j < k ==> be_byte(x, j) == be_byte(y, j),
        be_byte(x, k) != be_byte(y, k),
{
    if be_byte(x, 0) != be_byte(y, 0) {
        0
    } else if be_byte(x, 1) != be_byte(y, 1) {
        1
    } else if be_byte(x, 2) != be_byte(y, 2) {
        2
    } else if be_byte(x, 3) != be_byte(y, 3) {
        3
    } else if be_byte(x, 4) != be_byte(y, 4) {
        4
    } else if be_byte(x, 5) != be_byte(y, 5) {
        5
    } else if be_byte(x, 6) != be_byte(y, 6) {
        6
    } else if be_byte(x, 7) != be_byte(y, 7) {
        7
    } else {
        lemma_be_bytes_equal(x, y);
        0
    }
}

/// Reads the `count` bytes of `s` from `start` as one lowercase hexadecimal
/// number, most significant digit first; `None` when any byte of the run is
/// not a lowercase hexadecimal digit.
fn read_hex_run(s: &[u8], start: usize, count: usize) -> (r: Option<u64>)
    requires
        start + count <= s@.len(),
        count <= 12,
    ensures
        r is Some ==> is_hex_run(s@, start as int, count as int) && r->0 as nat == hex_run_value(
            s@,
            start as int,
            count as nat,
        ),
        r is None ==> !is_hex_run(s@, start as int, count as int),
{
    let n = s.len();
    let mut value: u64 = 0;
    let mut i: usize = 0;
    while i < count
        invariant
            start + count <= n,
            n == s@.len(),
            count <= 12,
            i <= count,
            is_hex_run(s@, start as int, i as int),
            value as nat == hex_run_value(s@, start as int, i as nat),
        decreases count - i,
    {
        let b = s[start + i];
        let digit: u64 = if 48 <= b && b <= 57 {
            (b - 48) as u64
        } else if 97 <= b && b <= 102 {
            (b - 97 + 10) as u64
        } else {
            return None;
        };
        proof {
            assert(digit as nat == hex_value(s@[start + i as int]));
            lemma_hex_run_value_bound(s@, start as int, i as nat);
            lemma_pow16_increases(i as nat, 11);
            reveal_with_fuel(pow16, 13);
            assert(value < 0x1000_0000_0000) by {
                assert(pow16(11) == 0x1000_0000_0000);
            }
        }
        value = value * 16 + digit;
        i = i + 1;
    }
    Some(value)
}

impl Guid {
    /// Parses the canonical textual interchange form, the only accepted one:
    /// exactly `{xxxxxxxx-xxxx-xxxx-xxxx-xxxxxxxxxxxx}` with lowercase
    /// hexadecimal digits and mandatory braces. Any other input fails with
    /// the invalid-string error kind.
    pub fn parse(id: &str) -> (r: Result<Guid, FmodError>)
        ensures
            r is Ok <==> is_canonical_guid(id.spec_bytes()),
            r is Ok ==> r->Ok_0.hi as nat == guid_hi_of(id.spec_bytes()) && r->Ok_0.lo as nat
                == guid_lo_of(id.spec_bytes()),
            r is Err ==> r->Err_0 == FmodError::InvalidString,
    {
        let s: &[u8] = id.as_bytes();
        if s.len() != 38 {
            return Err(FmodError::InvalidString);
        }
        // '{' and '}' around the digits, '-' between the groups.
        if !(s[0] == 123 && s[37] == 125 && s[9] == 45 && s[14] == 45 && s[19] == 45 && s[24]
            == 45) {
            return Err(FmodError::InvalidString);
        }
        let g1 = match read_hex_run(s, 1, 8) {
            Some(v) => v,
            None => {
                return Err(FmodError::InvalidString);
            },
        };
        let g2 = match read_hex_run(s, 10, 4) {
            Some(v) => v,
            None => {
                return Err(FmodError::InvalidString);
            },
        };
        let g3 = match read_hex_run(s, 15, 4) {
            Some(v) => v,
            None => {
                return Err(FmodError::InvalidString);
            },
        };
        let g4 = match read_hex_run(s, 20, 4) {
            Some(v) => v,
            None => {
                return Err(FmodError::InvalidString);
            },
        };
        let g5 = match read_hex_run(s, 25, 12) {
            Some(v) => v,
            None => {
                return Err(FmodError::InvalidString);
            },
        };
        proof {
            lemma_hex_run_value_bound(s@, 1, 8);
            lemma_hex_run_value_bound(s@, 10, 4);
            lemma_hex_run_value_bound(s@, 15, 4);
            lemma_hex_run_value_bound(s@, 20, 4);
            lemma_hex_run_value_bound(s@, 25, 12);
            reveal_with_fuel(pow16, 13);
            assert(pow16(8) == 0x1_0000_0000 && pow16(4) == 0x1_0000 && pow16(12)
                == 0x1_0000_0000_0000);
        }
        let hi = g1 * 0x1_0000_0000 + g2 * 0x1_0000 + g3;
        let lo = g4 * 0x1_0000_0000_0000 + g5;
        Ok(Guid { hi, lo })
    }
}

impl Default for Guid {
    /// The all-zero sentinel that stands for "no identifier".
    fn default() -> (g: Guid)
        ensures
            g.hi == 0 && g.lo == 0,
    {
        Guid { hi: 0, lo: 0 }
    }
}

impl PartialOrd for Guid {
    fn partial_cmp(&self, other: &Guid) -> (r: Option<core::cmp::Ordering>) {
        if self.hi < other.hi {
            Some(core::cmp::Ordering::Less)
        } else if self.hi > other.hi {
            Some(core::cmp::Ordering::Greater)
        } else if self.lo < other.lo {
            Some(core::cmp::Ordering::Less)
        } else if self.lo > other.lo {
            Some(core::cmp::Ordering::Greater)
        } else {
            Some(core::cmp::Ordering::Equal)
        }
    }
}

impl vstd::std_specs::cmp::PartialOrdSpecImpl for Guid {
    open spec fn obeys_partial_cmp_spec() -> bool {
        true
    }

    open spec fn partial_cmp_spec(&self, other: &Guid) -> Option<core::cmp::Ordering> {
        if self.hi < other.hi {
            Some(core::cmp::Ordering::Less)
        } else if self.hi > other.hi {
            Some(core::cmp::Ordering::Greater)
        } else if self.lo < other.lo {
            Some(core::cmp::Ordering::Less)
        } else if self.lo > other.lo {
            Some(core::cmp::Ordering::Greater)
        } else {
            Some(core::cmp::Ordering::Equal)
        }
    }
}

/// Law: the defined total order on identifiers is exactly byte-wise
/// lexicographic comparison of the canonical sixteen-byte representation.
pub proof fn lemma_order_is_byte_lexicographic(a: Guid, b: Guid)
    ensures
        guid_le(a, b) <==> lex_le(guid_bytes(a), guid_bytes(b)),
{
    let sa = guid_bytes(a);
    let sb = guid_bytes(b);
    assert(forall|i: int|
        0 <= i < 16 ==> #[trigger] sa[i] == guid_byte(a, i) && #[trigger] sb[i] == guid_byte(
            b,
            i,
        ));
    if guid_le(a, b) {
        if a.hi == b.hi && a.lo == b.lo {
            assert(sa =~= sb);
        } else if a.hi == b.hi {
            let k = first_diff_be(a.lo, b.lo);
            if be_byte(a.lo, k) > be_byte(b.lo, k) {
                lemma_be_lt(b.lo, a.lo, k);
            }
            let i = k + 8;
            assert(sa[i] < sb[i]);
            assert(forall|j: int| 0 <= j < i ==> sa[j] == sb[j]);
            assert(lex_lt(sa, sb));
        } else {
            let k = first_diff_be(a.hi, b.hi);
            if be_byte(a.hi, k) > be_byte(b.hi, k) {
                lemma_be_lt(b.hi, a.hi, k);
            }
            assert(sa[k] < sb[k]);
            assert(forall|j: int| 0 <= j < k ==> sa[j] == sb[j]);
            assert(lex_lt(sa, sb));
        }
    }
    if lex_le(sa, sb) {
        if sa == sb {
            assert forall|i: int| 0 <= i < 8 implies be_byte(a.hi, i) == be_byte(b.hi, i) by {
                assert(sa[i] == sb[i]);
            };
            assert forall|i: int| 0 <= i < 8 implies be_byte(a.lo, i) == be_byte(b.lo, i) by {
                assert(sa[i + 8] == sb[i + 8]);
            };
            lemma_be_bytes_equal(a.hi, b.hi);
            lemma_be_bytes_equal(a.lo, b.lo);
        } else {
            let i = choose|i: int|
                #![auto]
                0 <= i < sa.len() && i < sb.len() && sa[i] < sb[i] && (forall|j: int|
                    0 <= j < i ==> sa[j] == sb[j]);
            if i < 8 {
                assert forall|j: int| 0 <= j < i implies be_byte(a.hi, j) == be_byte(b.hi, j) by {
                    assert(sa[j] == sb[j]);
                };
                lemma_be_lt(a.hi, b.hi, i);
            } else {
                assert forall|j: int| 0 <= j < 8 implies be_byte(a.hi, j) == be_byte(b.hi, j) by {
                    assert(sa[j] == sb[j]);
                };
                lemma_be_bytes_equal(a.hi, b.hi);
                assert forall|j: int| 0 <= j < i - 8 implies be_byte(a.lo, j) == be_byte(
                    b.lo,
                    j,
                ) by {
                    assert(sa[j + 8] == sb[j + 8]);
                };
                lemma_be_lt(a.lo, b.lo, i - 8);
            }
        }
    }
}

/// Law: the comparison operators on identifiers decide exactly the defined
/// total order, and equality derives from that order.
pub proof fn lemma_comparison_decides_order(a: Guid, b: Guid)
    ensures
        a.partial_cmp_spec(&b) == Some(core::cmp::Ordering::Equal) <==> a == b,
        a.partial_cmp_spec(&b) == Some(core::cmp::Ordering::Less) <==> guid_le(a, b) && a != b,
        a.partial_cmp_spec(&b) == Some(core::cmp::Ordering::Greater) <==> !guid_le(a, b),
{
}

/// Position in the canonical string of hexadecimal digit `k` of its
/// thirty-two: the braces and hyphens are skipped.
pub open spec fn digit_pos(k: int) -> int
    recommends
        0 <= k < 32,
{
    if k < 8 {
        k + 1
    } else if k < 12 {
        k + 2
    } else if k < 16 {
        k + 3
    } else if k < 20 {
        k + 4
    } else {
        k + 5
    }
}

/// Law: the canonical sixteen-byte representation of a parsed identifier
/// spells the thirty-two hexadecimal digits of the string it was parsed
/// from, two digits per byte, in textual order: parsing loses nothing.
#[verifier::rlimit(60)]
pub proof fn lemma_parsed_bytes_spell_the_string(g: Guid, s: Seq<u8>, k: int)
    requires
        g.hi as nat == guid_hi_of(s),
        g.lo as nat == guid_lo_of(s),
        0 <= k < 16,
    ensures
        guid_byte(g, k) as nat == 16 * hex_value(s[digit_pos(2 * k)]) + hex_value(
            s[digit_pos(2 * k + 1)],
        ),
{
    reveal_with_fuel(hex_run_value, 13);
    let x: u64 = g.hi;
    let y: u64 = g.lo;
    let e0: u64 = hex_value(s[1]) as u64;
    let e1: u64 = hex_value(s[2]) as u64;
    let e2: u64 = hex_value(s[3]) as u64;
    let e3: u64 = hex_value(s[4]) as u64;
    let e4: u64 = hex_value(s[5]) as u64;
    let e5: u64 = hex_value(s[6]) as u64;
    let e6: u64 = hex_value(s[7]) as u64;
    let e7: u64 = hex_value(s[8]) as u64;
    let e8: u64 = hex_value(s[10]) as u64;
    let e9: u64 = hex_value(s[11]) as u64;
    let e10: u64 = hex_value(s[12]) as u64;
    let e11: u64 = hex_value(s[13]) as u64;
    let e12: u64 = hex_value(s[15]) as u64;
    let e13: u64 = hex_value(s[16]) as u64;
    let e14: u64 = hex_value(s[17]) as u64;
    let e15: u64 = hex_value(s[18]) as u64;
    let f0: u64 = hex_value(s[20]) as u64;
    let f1: u64 = hex_value(s[21]) as u64;
    let f2: u64 = hex_value(s[22]) as u64;
    let f3: u64 = hex_value(s[23]) as u64;
    let f4: u64 = hex_value(s[25]) as u64;
    let f5: u64 = hex_value(s[26]) as u64;
    let f6: u64 = hex_value(s[27]) as u64;
    let f7: u64 = hex_value(s[28]) as u64;
    let f8: u64 = hex_value(s[29]) as u64;
    let f9: u64 = hex_value(s[30]) as u64;
    let f10: u64 = hex_value(s[31]) as u64;
    let f11: u64 = hex_value(s[32]) as u64;
    let f12: u64 = hex_value(s[33]) as u64;
    let f13: u64 = hex_value(s[34]) as u64;
    let f14: u64 = hex_value(s[35]) as u64;
    let f15: u64 = hex_value(s[36]) as u64;
    assert(x == e0 * 0x1000000000000000 + e1 * 0x100000000000000 + e2 * 0x10000000000000 + e3 * 0x1000000000000 + e4 * 0x100000000000 + e5 * 0x10000000000 + e6 * 0x1000000000 + e7 * 0x100000000 + e8 * 0x10000000 + e9 * 0x1000000 + e10 * 0x100000 + e11 * 0x10000 + e12 * 0x1000 + e13 * 0x100 + e14 * 0x10 + e15);
    assert(y == f0 * 0x1000000000000000 + f1 * 0x100000000000000 + f2 * 0x10000000000000 + f3 * 0x1000000000000 + f4 * 0x100000000000 + f5 * 0x10000000000 + f6 * 0x1000000000 + f7 * 0x100000000 + f8 * 0x10000000 + f9 * 0x1000000 + f10 * 0x100000 + f11 * 0x10000 + f12 * 0x1000 + f13 * 0x100 + f14 * 0x10 + f15);
    assert(((x >> 56) & 0xff) == e0 * 16 + e1 && ((x >> 48) & 0xff) == e2 * 16 + e3 && ((x >> 40) & 0xff) == e4 * 16 + e5 && ((x >> 32) & 0xff) == e6 * 16 + e7 && ((x >> 24) & 0xff) == e8 * 16 + e9 && ((x >> 16) & 0xff) == e10 * 16 + e11 && ((x >> 8) & 0xff) == e12 * 16 + e13 && (x & 0xff) == e14 * 16 + e15) by (bit_vector)
        requires
            e0 < 16,
            e1 < 16,
            e2 < 16,
            e3 < 16,
            e4 < 16,
            e5 < 16,
            e6 < 16,
            e7 < 16,
            e8 < 16,
            e9 < 16,
            e10 < 16,
            e11 < 16,
            e12 < 16,
            e13 < 16,
            e14 < 16,
            e15 < 16,
            x == e0 * 0x1000000000000000 + e1 * 0x100000000000000 + e2 * 0x10000000000000 + e3 * 0x1000000000000 + e4 * 0x100000000000 + e5 * 0x10000000000 + e6 * 0x1000000000 + e7 * 0x100000000 + e8 * 0x10000000 + e9 * 0x1000000 + e10 * 0x100000 + e11 * 0x10000 + e12 * 0x1000 + e13 * 0x100 + e14 * 0x10 + e15,
    ;
    assert(((y >> 56) & 0xff) == f0 * 16 + f1 && ((y >> 48) & 0xff) == f2 * 16 + f3 && ((y >> 40) & 0xff) == f4 * 16 + f5 && ((y >> 32) & 0xff) == f6 * 16 + f7 && ((y >> 24) & 0xff) == f8 * 16 + f9 && ((y >> 16) & 0xff) == f10 * 16 + f11 && ((y >> 8) & 0xff) == f12 * 16 + f13 && (y & 0xff) == f14 * 16 + f15) by (bit_vector)
        requires
            f0 < 16,
            f1 < 16,
            f2 < 16,
            f3 < 16,
            f4 < 16,
            f5 < 16,
            f6 < 16,
            f7 < 16,
            f8 < 16,
            f9 < 16,
            f10 < 16,
            f11 < 16,
            f12 < 16,
            f13 < 16,
            f14 < 16,
            f15 < 16,
            y == f0 * 0x1000000000000000 + f1 * 0x100000000000000 + f2 * 0x10000000000000 + f3 * 0x1000000000000 + f4 * 0x100000000000 + f5 * 0x10000000000 + f6 * 0x1000000000 + f7 * 0x100000000 + f8 * 0x10000000 + f9 * 0x1000000 + f10 * 0x100000 + f11 * 0x10000 + f12 * 0x1000 + f13 * 0x100 + f14 * 0x10 + f15,
    ;
}

/// Law: one canonical string determines one identifier, so parsing it twice
/// yields identifiers that the defined total order deems equal.
pub proof fn lemma_parse_deterministic(a: Guid, b: Guid, s: Seq<u8>)
    requires
        a.hi as nat == guid_hi_of(s),
        a.lo as nat == guid_lo_of(s),
        b.hi as nat == guid_hi_of(s),
        b.lo as nat == guid_lo_of(s),
    ensures
        a == b,
        guid_le(a, b) && guid_le(b, a),
{
}

/// Law: the all-zero default identifier is the minimum element of the
/// defined total order, so in particular it precedes every parsed one.
pub proof fn lemma_default_is_minimum(g: Guid)
    ensures
        guid_le((Guid { hi: 0, lo: 0 }), g),
{
}

/// Law: `guid_le` is a total order, and equality derives from it: two
/// identifiers are equal exactly when each precedes the other.
pub proof fn lemma_guid_order_total(a: Guid, b: Guid)
    ensures
        guid_le(a, b) || guid_le(b, a),
        (guid_le(a, b) && guid_le(b, a)) <==> a == b,
{
}

/// Law: `guid_le` is transitive.
pub proof fn lemma_guid_order_transitive(a: Guid, b: Guid, c: Guid)
    requires
        guid_le(a, b),
        guid_le(b, c),
    ensures
        guid_le(a, c),
{
}

} // verus!

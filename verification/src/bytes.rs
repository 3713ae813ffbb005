use vstd::prelude::*;

verus! {

/// `needle` occurs in `hay` starting at position `i`.
pub open spec fn contains_at(hay: Seq<u8>, needle: Seq<u8>, i: int) -> bool {
    0 <= i && i + needle.len() <= hay.len() && hay.subrange(i, i + needle.len()) == needle
}

/// `needle` occurs somewhere in `hay`.
pub open spec fn contains_seq(hay: Seq<u8>, needle: Seq<u8>) -> bool {
    exists|i: int| contains_at(hay, needle, i)
}

fn match_at(hay: &[u8], needle: &[u8], i: usize) -> (r: bool)
    requires
        i + needle@.len() <= hay@.len(),
    ensures
        r == contains_at(hay@, needle@, i as int),
{
    let n = hay.len();
    let mut j: usize = 0;
    while j < needle.len()
        invariant
            i + needle@.len() <= hay@.len(),
            n == hay@.len(),
            j <= needle@.len(),
            forall|k: int| 0 <= k < j ==> hay@[i + k] == needle@[k],
        decreases needle@.len() - j,
    {
        if hay[i + j] != needle[j] {
            proof {
                if contains_at(hay@, needle@, i as int) {
                    assert(hay@.subrange(i as int, i + needle@.len())[j as int] == needle@[
                        j as int
                    ]);
                }
            }
            return false;
        }
        j = j + 1;
    }
    proof {
        assert(hay@.subrange(i as int, i + needle@.len()) =~= needle@);
    }
    true
}

/// Substring search: whether `needle` occurs anywhere in `hay`.
pub fn contains_bytes(hay: &[u8], needle: &[u8]) -> (r: bool)
    ensures
        r == contains_seq(hay@, needle@),
{
    if needle.len() > hay.len() {
        proof {
            assert forall|i: int| !contains_at(hay@, needle@, i) by {}
        }
        return false;
    }
    if needle.len() == 0 {
        proof {
            assert(hay@.subrange(0, 0) =~= needle@);
            assert(contains_at(hay@, needle@, 0));
        }
        return true;
    }
    let last = hay.len() - needle.len();
    let mut i: usize = 0;
    while i <= last
        invariant
            1 <= needle@.len() <= hay@.len(),
            hay@.len() <= usize::MAX,
            last == hay@.len() - needle@.len(),
            i <= last + 1,
            forall|k: int| 0 <= k < i ==> !contains_at(hay@, needle@, k),
        decreases last + 1 - i,
    {
        if match_at(hay, needle, i) {
            return true;
        }
        i = i + 1;
    }
    proof {
        assert forall|k: int| !contains_at(hay@, needle@, k) by {
            if k > last {
                assert(k + needle@.len() > hay@.len());
            }
        }
    }
    false
}

/// Whole-slice equality.
pub fn bytes_eq(a: &[u8], b: &[u8]) -> (r: bool)
    ensures
        r == (a@ == b@),
{
    if a.len() != b.len() {
        return false;
    }
    let mut i: usize = 0;
    while i < a.len()
        invariant
            a@.len() == b@.len(),
            i <= a@.len(),
            forall|k: int| 0 <= k < i ==> a@[k] == b@[k],
        decreases a@.len() - i,
    {
        if a[i] != b[i] {
            return false;
        }
        i = i + 1;
    }
    proof {
        assert(a@ =~= b@);
    }
    true
}

/// The position of the first occurrence of `b` in `s`, or `s.len()` when `b`
/// does not occur.
pub open spec fn first_byte_idx(s: Seq<u8>, b: u8) -> int
    decreases s.len(),
{
    if s.len() == 0 {
        0
    } else if s[0] == b {
        0
    } else {
        1 + first_byte_idx(s.drop_first(), b)
    }
}

pub proof fn lemma_first_byte_idx(s: Seq<u8>, b: u8)
    ensures
        0 <= first_byte_idx(s, b) <= s.len(),
        forall|k: int| 0 <= k < first_byte_idx(s, b) ==> s[k] != b,
        first_byte_idx(s, b) < s.len() ==> s[first_byte_idx(s, b)] == b,
    decreases s.len(),
{
    if s.len() == 0 {
    } else if s[0] == b {
    } else {
        lemma_first_byte_idx(s.drop_first(), b);
        assert forall|k: int| 0 <= k < first_byte_idx(s, b) implies s[k] != b by {
            if k >= 1 {
                assert(s.drop_first()[k - 1] == s[k]);
            }
        }
        if first_byte_idx(s, b) < s.len() {
            assert(s.drop_first()[first_byte_idx(s.drop_first(), b)] == s[first_byte_idx(s, b)]);
        }
    }
}

/// Find the first occurrence of `b` in `s`; the result is `s.len()` when `b`
/// does not occur.
pub fn find_byte(s: &[u8], b: u8) -> (r: usize)
    ensures
        r == first_byte_idx(s@, b),
{
    proof {
        lemma_first_byte_idx(s@, b);
    }
    let mut i: usize = 0;
    while i < s.len()
        invariant
            i <= s@.len(),
            forall|k: int| 0 <= k < i ==> s@[k] != b,
            0 <= first_byte_idx(s@, b) <= s@.len(),
            forall|k: int| 0 <= k < first_byte_idx(s@, b) ==> s@[k] != b,
            first_byte_idx(s@, b) < s@.len() ==> s@[first_byte_idx(s@, b)] == b,
        decreases s@.len() - i,
    {
        if s[i] == b {
            proof {
                let fbi = first_byte_idx(s@, b);
                if fbi < i {
                    assert(s@[fbi] != b);
                } else if fbi > i {
                    assert(s@[i as int] != b);
                }
            }
            return i;
        }
        i = i + 1;
    }
    proof {
        if first_byte_idx(s@, b) < s@.len() {
            assert(s@[first_byte_idx(s@, b)] != b);
        }
    }
    i
}

pub open spec fn is_hex_digit(b: u8) -> bool {
    ('0' as u8 <= b <= '9' as u8) || ('a' as u8 <= b <= 'f' as u8) || (
    'A' as u8 <= b <= 'F' as u8)
}

/// The numeric value of a hexadecimal digit (0 for a non-digit).
pub open spec fn hex_val(b: u8) -> int {
    if '0' as u8 <= b <= '9' as u8 {
        b - ('0' as u8)
    } else if 'a' as u8 <= b <= 'f' as u8 {
        b - ('a' as u8) + 10
    } else if 'A' as u8 <= b <= 'F' as u8 {
        b - ('A' as u8) + 10
    } else {
        0
    }
}

pub open spec fn all_hex(s: Seq<u8>) -> bool {
    forall|k: int| 0 <= k < s.len() ==> is_hex_digit(s[k])
}

/// The value of a string of hexadecimal digits, most significant first.
pub open spec fn hex_value(s: Seq<u8>) -> int
    decreases s.len(),
{
    if s.len() == 0 {
        0
    } else {
        16 * hex_value(s.drop_last()) + hex_val(s.last())
    }
}

pub proof fn lemma_hex_value_nonneg(s: Seq<u8>)
    ensures
        hex_value(s) >= 0,
    decreases s.len(),
{
    if s.len() > 0 {
        lemma_hex_value_nonneg(s.drop_last());
    }
}

/// A digit string is worth at least any of its prefixes.
pub proof fn lemma_hex_prefix_le(s: Seq<u8>, i: int)
    requires
        0 <= i <= s.len(),
    ensures
        hex_value(s.take(i)) <= hex_value(s),
    decreases s.len() - i,
{
    if i == s.len() {
        assert(s.take(i) =~= s);
    } else {
        lemma_hex_prefix_le(s, i + 1);
        assert(s.take(i + 1).drop_last() =~= s.take(i));
        lemma_hex_value_nonneg(s.take(i));
    }
}

/// `s` with one leading "0x" removed, if it has one.
pub open spec fn spec_strip_0x(s: Seq<u8>) -> Seq<u8> {
    if s.len() >= 2 && s[0] == '0' as u8 && s[1] == 'x' as u8 {
        s.skip(2)
    } else {
        s
    }
}

/// Strip one leading "0x" prefix, if present.
pub fn strip_0x(s: &[u8]) -> (r: &[u8])
    ensures
        r@ == spec_strip_0x(s@),
{
    if s.len() >= 2 && s[0] == '0' as u8 && s[1] == 'x' as u8 {
        vstd::slice::slice_subrange(s, 2, s.len())
    } else {
        s
    }
}

/// What parsing `s` as a base-16 number yields: an optional leading '+',
/// then at least one hexadecimal digit, and a value that fits in 64 bits;
/// anything else is rejected.
pub open spec fn spec_strip_plus(s: Seq<u8>) -> Seq<u8> {
    if s.len() > 0 && s[0] == '+' as u8 {
        s.drop_first()
    } else {
        s
    }
}

pub open spec fn parse_hex_spec(s: Seq<u8>) -> Option<u64> {
    let d = spec_strip_plus(s);
    if d.len() > 0 && all_hex(d) && hex_value(d) <= u64::MAX {
        Some(hex_value(d) as u64)
    } else {
        None
    }
}

fn hex_digit_value(b: u8) -> (r: Option<u8>)
    ensures
        r is Some <==> is_hex_digit(b),
        r is Some ==> r->Some_0 == hex_val(b),
{
    if b >= '0' as u8 && b <= '9' as u8 {
        Some(b - '0' as u8)
    } else if b >= 'a' as u8 && b <= 'f' as u8 {
        Some(b - 'a' as u8 + 10)
    } else if b >= 'A' as u8 && b <= 'F' as u8 {
        Some(b - 'A' as u8 + 10)
    } else {
        None
    }
}

/// Parse a base-16 number: an optional leading '+', then hexadecimal digits.
/// Rejects an empty digit string, a non-digit, and a value over 64 bits.
pub fn parse_hex_u64(s: &[u8]) -> (r: Option<u64>)
    ensures
        r == parse_hex_spec(s@),
{
    let start: usize = if s.len() > 0 && s[0] == '+' as u8 {
        1
    } else {
        0
    };
    let ghost d = spec_strip_plus(s@);
    assert(d =~= s@.skip(start as int));
    if s.len() == start {
        return None;
    }
    let mut acc: u64 = 0;
    let mut i: usize = start;
    while i < s.len()
        invariant
            start <= i <= s@.len(),
            start <= 1,
            d == spec_strip_plus(s@),
            d == s@.skip(start as int),
            d.len() == s@.len() - start,
            acc == hex_value(d.take(i - start)),
            all_hex(d.take(i - start)),
        decreases s@.len() - i,
    {
        let b = s[i];
        assert(d[i - start] == s@[i as int]);
        let v = match hex_digit_value(b) {
            Some(v) => v,
            None => {
                proof {
                    assert(0 <= i - start < d.len());
                    assert(!is_hex_digit(d[i - start]));
                    assert(!all_hex(d));
                }
                return None;
            },
        };
        proof {
            assert(d.take(i - start + 1).drop_last() =~= d.take(i - start));
        }
        if acc > (u64::MAX - v as u64) / 16 {
            proof {
                vstd::arithmetic::div_mod::lemma_fundamental_div_mod(
                    (u64::MAX - v as u64) as int,
                    16,
                );
                assert(hex_value(d.take(i - start + 1)) > u64::MAX);
                lemma_hex_prefix_le(d, i - start + 1);
            }
            return None;
        }
        acc = acc * 16 + v as u64;
        i = i + 1;
        proof {
            assert(d.take(i - start) =~= d.take(i - 1 - start).push(d[i - 1 - start]));
        }
    }
    proof {
        assert(d.take(i - start) =~= d);
    }
    Some(acc)
}

} // verus!

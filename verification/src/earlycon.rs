use vstd::prelude::*;
use vstd::slice::slice_subrange;

use crate::bytes::{
    contains_bytes, contains_seq, find_byte, first_byte_idx, parse_hex_spec, parse_hex_u64,
    spec_strip_0x, strip_0x,
};
use crate::io::{spec_kind_from_name, IoKind};

verus! {

/// ASCII whitespace, the separator between boot-argument tokens.
pub open spec fn is_ws(b: u8) -> bool {
    b == 32 || b == 9 || b == 10 || b == 12 || b == 13
}

fn is_ws_byte(b: u8) -> (r: bool)
    ensures
        r == is_ws(b),
{
    b == 32 || b == 9 || b == 10 || b == 12 || b == 13
}

/// The position of the first whitespace byte of `s`, or `s.len()` when `s`
/// holds none.
pub open spec fn first_ws_idx(s: Seq<u8>) -> int
    decreases s.len(),
{
    if s.len() == 0 {
        0
    } else if is_ws(s[0]) {
        0
    } else {
        1 + first_ws_idx(s.drop_first())
    }
}

pub proof fn lemma_first_ws_idx(s: Seq<u8>)
    ensures
        0 <= first_ws_idx(s) <= s.len(),
        forall|k: int| 0 <= k < first_ws_idx(s) ==> !is_ws(s[k]),
        first_ws_idx(s) < s.len() ==> is_ws(s[first_ws_idx(s)]),
    decreases s.len(),
{
    if s.len() == 0 {
    } else if is_ws(s[0]) {
    } else {
        lemma_first_ws_idx(s.drop_first());
        assert forall|k: int| 0 <= k < first_ws_idx(s) implies !is_ws(s[k]) by {
            if k >= 1 {
                assert(s.drop_first()[k - 1] == s[k]);
            }
        }
        if first_ws_idx(s) < s.len() {
            assert(s.drop_first()[first_ws_idx(s.drop_first())] == s[first_ws_idx(s)]);
        }
    }
}

/// The early-console keyword that selects a boot-argument token: "earlycon".
pub open spec fn kw_earlycon() -> Seq<u8> {
    seq![
        'e' as u8,
        'a' as u8,
        'r' as u8,
        'l' as u8,
        'y' as u8,
        'c' as u8,
        'o' as u8,
        'n' as u8,
    ]
}

/// The substring a console name must carry to be accepted: "uart".
pub open spec fn kw_uart() -> Seq<u8> {
    seq!['u' as u8, 'a' as u8, 'r' as u8, 't' as u8]
}

/// The hexadecimal marker "0x" that tells an address from an access-kind
/// name.
pub open spec fn kw_0x() -> Seq<u8> {
    seq!['0' as u8, 'x' as u8]
}

fn kw_earlycon_bytes() -> (r: [u8; 8])
    ensures
        r@ == kw_earlycon(),
{
    let a: [u8; 8] = [
        'e' as u8,
        'a' as u8,
        'r' as u8,
        'l' as u8,
        'y' as u8,
        'c' as u8,
        'o' as u8,
        'n' as u8,
    ];
    proof {
        assert(a@ =~= kw_earlycon());
    }
    a
}

fn kw_uart_bytes() -> (r: [u8; 4])
    ensures
        r@ == kw_uart(),
{
    let a: [u8; 4] = ['u' as u8, 'a' as u8, 'r' as u8, 't' as u8];
    proof {
        assert(a@ =~= kw_uart());
    }
    a
}

fn kw_0x_bytes() -> (r: [u8; 2])
    ensures
        r@ == kw_0x(),
{
    let a: [u8; 2] = ['0' as u8, 'x' as u8];
    proof {
        assert(a@ =~= kw_0x());
    }
    a
}

/// The first whitespace-separated token of `s` that contains `needle`.
pub open spec fn first_token_containing(s: Seq<u8>, needle: Seq<u8>) -> Option<Seq<u8>>
    decreases s.len(),
    via first_token_containing_dec
{
    if s.len() == 0 {
        None
    } else if is_ws(s[0]) {
        first_token_containing(s.drop_first(), needle)
    } else if contains_seq(s.take(first_ws_idx(s)), needle) {
        Some(s.take(first_ws_idx(s)))
    } else {
        first_token_containing(s.skip(first_ws_idx(s)), needle)
    }
}

#[via_fn]
proof fn first_token_containing_dec(s: Seq<u8>, needle: Seq<u8>) {
    if s.len() > 0 && !is_ws(s[0]) {
        lemma_first_ws_idx(s.drop_first());
    }
}

/// The end of the token starting at `i`: the position of the next
/// whitespace byte, or the end of `s`.
fn token_end(s: &[u8], i: usize) -> (j: usize)
    requires
        i <= s@.len(),
    ensures
        i <= j <= s@.len(),
        forall|k: int| i <= k < j ==> !is_ws(s@[k]),
        j < s@.len() ==> is_ws(s@[j as int]),
{
    let mut j = i;
    while j < s.len()
        invariant
            i <= j <= s@.len(),
            forall|k: int| i <= k < j ==> !is_ws(s@[k]),
        decreases s@.len() - j,
    {
        if is_ws_byte(s[j]) {
            return j;
        }
        j = j + 1;
    }
    j
}

/// Find the first whitespace-separated boot-argument token that contains
/// the early-console keyword.
pub fn find_earlycon_token<'a>(s: &'a [u8]) -> (r: Option<&'a [u8]>)
    ensures
        match r {
            Some(t) => first_token_containing(s@, kw_earlycon()) == Some(t@),
            None => first_token_containing(s@, kw_earlycon()) is None,
        },
{
    let needle = kw_earlycon_bytes();
    let mut i: usize = 0;
    proof {
        assert(s@.skip(0) =~= s@);
    }
    while i < s.len()
        invariant
            i <= s@.len(),
            needle@ == kw_earlycon(),
            first_token_containing(s@, kw_earlycon()) == first_token_containing(
                s@.skip(i as int),
                kw_earlycon(),
            ),
        decreases s@.len() - i,
    {
        if is_ws_byte(s[i]) {
            proof {
                assert(s@.skip(i as int)[0] == s@[i as int]);
                assert(s@.skip(i as int).drop_first() =~= s@.skip(i + 1));
            }
            i = i + 1;
        } else {
            let j = token_end(s, i);
            proof {
                let suf = s@.skip(i as int);
                assert(suf[0] == s@[i as int]);
                lemma_first_ws_idx(suf);
                let fwi = first_ws_idx(suf);
                if fwi < j - i {
                    assert(suf[fwi] == s@[i + fwi]);
                } else if fwi > j - i {
                    assert(suf[j - i] == s@[j as int]);
                }
                assert(fwi == j - i);
            }
            let t = slice_subrange(s, i, j);
            proof {
                assert(t@ =~= s@.skip(i as int).take(j - i));
            }
            let hit = contains_bytes(t, needle.as_slice());
            if hit {
                proof {
                    let suf = s@.skip(i as int);
                    assert(suf.len() > 0 && !is_ws(suf[0]));
                    assert(t@ == suf.take(first_ws_idx(suf)));
                    assert(contains_seq(suf.take(first_ws_idx(suf)), kw_earlycon()));
                    assert(first_token_containing(suf, kw_earlycon()) == Some(
                        suf.take(first_ws_idx(suf)),
                    ));
                }
                return Some(t);
            }
            proof {
                let suf = s@.skip(i as int);
                assert(suf.len() > 0 && !is_ws(suf[0]));
                assert(t@ == suf.take(first_ws_idx(suf)));
                assert(!contains_seq(suf.take(first_ws_idx(suf)), kw_earlycon()));
                assert(suf.skip(first_ws_idx(suf)) =~= s@.skip(j as int));
                assert(first_token_containing(suf, kw_earlycon()) == first_token_containing(
                    s@.skip(j as int),
                    kw_earlycon(),
                ));
            }
            i = j;
        }
    }
    proof {
        assert(s@.skip(i as int) =~= Seq::<u8>::empty());
    }
    None
}

/// What parsing one early-console token yields: the access kind and the
/// device address, following the grammar
/// `earlycon=<name>,<hexaddr>` or `earlycon=<name>,<kind>,<hexaddr>`.
/// The part before the first `=` is ignored; the value list is what stands
/// between the first `=` and the next `=` or the end; the name must contain
/// "uart"; a second value containing "0x" is the address itself and selects
/// generic memory-mapped access, otherwise it names the access kind and the
/// third value is the address.
pub open spec fn parse_earlycon_token_spec(t: Seq<u8>) -> Option<(IoKind, u64)> {
    let e1 = first_byte_idx(t, '=' as u8);
    if e1 == t.len() {
        None
    } else {
        let rest = t.skip(e1 + 1);
        let v = rest.take(first_byte_idx(rest, '=' as u8));
        let c1 = first_byte_idx(v, ',' as u8);
        let name = v.take(c1);
        if !contains_seq(name, kw_uart()) {
            None
        } else if c1 == v.len() {
            None
        } else {
            let v2 = v.skip(c1 + 1);
            let c2 = first_byte_idx(v2, ',' as u8);
            let param2 = v2.take(c2);
            if contains_seq(param2, kw_0x()) {
                match parse_hex_spec(spec_strip_0x(param2)) {
                    Some(a) => Some((IoKind::Mmio, a)),
                    None => None,
                }
            } else if c2 == v2.len() {
                None
            } else {
                let v3 = v2.skip(c2 + 1);
                let param3 = v3.take(first_byte_idx(v3, ',' as u8));
                match parse_hex_spec(spec_strip_0x(param3)) {
                    Some(a) => Some((spec_kind_from_name(param2), a)),
                    None => None,
                }
            }
        }
    }
}

/// Parse one early-console token.
pub fn parse_earlycon_token(t: &[u8]) -> (r: Option<(IoKind, u64)>)
    ensures
        r == parse_earlycon_token_spec(t@),
{
    proof {
        crate::bytes::lemma_first_byte_idx(t@, '=' as u8);
    }
    let e1 = find_byte(t, '=' as u8);
    if e1 == t.len() {
        return None;
    }
    let rest = slice_subrange(t, e1 + 1, t.len());
    proof {
        assert(rest@ =~= t@.skip(e1 + 1));
        crate::bytes::lemma_first_byte_idx(rest@, '=' as u8);
    }
    let e2 = find_byte(rest, '=' as u8);
    let v = slice_subrange(rest, 0, e2);
    proof {
        assert(v@ =~= rest@.take(e2 as int));
        crate::bytes::lemma_first_byte_idx(v@, ',' as u8);
    }
    let c1 = find_byte(v, ',' as u8);
    let name = slice_subrange(v, 0, c1);
    proof {
        assert(name@ =~= v@.take(c1 as int));
    }
    let uart = kw_uart_bytes();
    if !contains_bytes(name, uart.as_slice()) {
        return None;
    }
    if c1 == v.len() {
        return None;
    }
    let v2 = slice_subrange(v, c1 + 1, v.len());
    proof {
        assert(v2@ =~= v@.skip(c1 + 1));
        crate::bytes::lemma_first_byte_idx(v2@, ',' as u8);
    }
    let c2 = find_byte(v2, ',' as u8);
    let param2 = slice_subrange(v2, 0, c2);
    proof {
        assert(param2@ =~= v2@.take(c2 as int));
    }
    let marker = kw_0x_bytes();
    if contains_bytes(param2, marker.as_slice()) {
        return match parse_hex_u64(strip_0x(param2)) {
            Some(a) => Some((IoKind::Mmio, a)),
            None => None,
        };
    }
    if c2 == v2.len() {
        return None;
    }
    let v3 = slice_subrange(v2, c2 + 1, v2.len());
    proof {
        assert(v3@ =~= v2@.skip(c2 + 1));
        crate::bytes::lemma_first_byte_idx(v3@, ',' as u8);
    }
    let c3 = find_byte(v3, ',' as u8);
    let param3 = slice_subrange(v3, 0, c3);
    proof {
        assert(param3@ =~= v3@.take(c3 as int));
    }
    let kind = IoKind::from_name(param2);
    match parse_hex_u64(strip_0x(param3)) {
        Some(a) => Some((kind, a)),
        None => None,
    }
}

/// What the boot-argument fallback yields from a whole boot-argument string:
/// the parse of the first token containing the early-console keyword, or
/// nothing when no token carries it.
pub open spec fn parse_bootargs_spec(s: Seq<u8>) -> Option<(IoKind, u64)> {
    match first_token_containing(s, kw_earlycon()) {
        Some(t) => parse_earlycon_token_spec(t),
        None => None,
    }
}

/// Parse a boot-argument string for an early-console specification.
pub fn parse_bootargs(s: &[u8]) -> (r: Option<(IoKind, u64)>)
    ensures
        r == parse_bootargs_spec(s@),
{
    match find_earlycon_token(s) {
        Some(t) => parse_earlycon_token(t),
        None => None,
    }
}

/// An early-console token parses only when its name part — the first
/// comma-separated value after the `=` — contains "uart": a token whose
/// name lacks that substring always fails this discovery path.
pub proof fn lemma_earlycon_name_needs_uart(t: Seq<u8>)
    ensures
        parse_earlycon_token_spec(t) is Some ==> {
            let e1 = first_byte_idx(t, '=' as u8);
            let rest = t.skip(e1 + 1);
            let v = rest.take(first_byte_idx(rest, '=' as u8));
            let name = v.take(first_byte_idx(v, ',' as u8));
            e1 < t.len() && contains_seq(name, kw_uart())
        },
{
    crate::bytes::lemma_first_byte_idx(t, '=' as u8);
}

} // verus!

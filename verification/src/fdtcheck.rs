use vstd::prelude::*;
use vstd::slice::slice_subrange;
use vstd::string::StringSliceAdditionalSpecFns;

use crate::bytes::{bytes_eq, find_byte, first_byte_idx, lemma_first_byte_idx};

verus! {

/// The 32-bit big-endian value at position `i` of `s`, as flattened device
/// tree headers, tokens and cells are stored.
pub open spec fn be32_of(s: Seq<u8>, i: int) -> u32 {
    (16777216 * s[i] + 65536 * s[i + 1] + 256 * s[i + 2] + s[i + 3]) as u32
}

fn read_be32(s: &[u8], i: usize) -> (r: u32)
    requires
        i + 4 <= s@.len(),
    ensures
        r == be32_of(s@, i as int),
{
    let n = s.len();
    16777216 * (s[i] as u32) + 65536 * (s[i + 1] as u32) + 256 * (s[i + 2] as u32) + (s[i
        + 3] as u32)
}

/// `n` rounded up to the next multiple of four, the alignment of the
/// structure block's tokens.
pub open spec fn round4(n: int) -> int {
    ((n + 3) / 4) * 4
}

proof fn lemma_round4(n: int)
    requires
        n >= 0,
    ensures
        n <= round4(n) <= n + 3,
{
    vstd::arithmetic::div_mod::lemma_fundamental_div_mod(n + 3, 4);
}

/// Every byte is ASCII, so the region is valid UTF-8.
pub open spec fn all_ascii(s: Seq<u8>) -> bool {
    forall|k: int| 0 <= k < s.len() ==> s[k] < 128
}

fn check_all_ascii(s: &[u8]) -> (r: bool)
    ensures
        r == all_ascii(s@),
{
    let mut i: usize = 0;
    while i < s.len()
        invariant
            i <= s@.len(),
            forall|k: int| 0 <= k < i ==> s@[k] < 128,
        decreases s@.len() - i,
    {
        if s[i] >= 128 {
            return false;
        }
        i = i + 1;
    }
    true
}

/// A string-valued property the parser reads with a NUL-scan: the value
/// must hold a NUL terminator and the text before it must be ASCII.
pub open spec fn nul_str_ok(val: Seq<u8>) -> bool {
    first_byte_idx(val, 0) < val.len() && all_ascii(val.take(first_byte_idx(val, 0)))
}

fn check_nul_str(val: &[u8]) -> (r: bool)
    ensures
        r == nul_str_ok(val@),
{
    proof {
        lemma_first_byte_idx(val@, 0);
    }
    let k = find_byte(val, 0);
    if k == val.len() {
        return false;
    }
    check_all_ascii(slice_subrange(val, 0, k))
}

/// The property name stored at `off` of the strings block: the bytes up to
/// the first NUL (the whole tail when no NUL follows, in which case the
/// parser reports a placeholder name instead).
pub open spec fn name_at(strs: Seq<u8>, off: int) -> Seq<u8> {
    strs.skip(off).take(first_byte_idx(strs.skip(off), 0))
}

/// Property names whose value the parser reads as a 32-bit cell with an
/// unchecked unwrap.
pub open spec fn is_cells_name(n: Seq<u8>) -> bool {
    ||| n == ("#address-cells").spec_bytes()
    ||| n == ("#size-cells").spec_bytes()
    ||| n == ("#clock-cells").spec_bytes()
    ||| n == ("#interrupt-cells").spec_bytes()
    ||| n == ("#gpio-cells").spec_bytes()
    ||| n == ("#dma-cells").spec_bytes()
    ||| n == ("#cooling-cells").spec_bytes()
    ||| n == ("interrupt-parent").spec_bytes()
}

fn check_cells_name(n: &[u8]) -> (r: bool)
    ensures
        r == is_cells_name(n@),
{
    bytes_eq(n, "#address-cells".as_bytes()) || bytes_eq(n, "#size-cells".as_bytes()) || bytes_eq(
        n,
        "#clock-cells".as_bytes(),
    ) || bytes_eq(n, "#interrupt-cells".as_bytes()) || bytes_eq(n, "#gpio-cells".as_bytes())
        || bytes_eq(n, "#dma-cells".as_bytes()) || bytes_eq(n, "#cooling-cells".as_bytes())
        || bytes_eq(n, "interrupt-parent".as_bytes())
}

/// The constraints one property must meet for the parser's walk and the
/// discovery calls to stay panic-free:
/// - a cell-valued property holds at least one 32-bit cell;
/// - `#address-cells` is 1 or 2 and `#size-cells` 0, 1 or 2, the widths the
///   register reader accepts;
/// - `reg` stands only below the root, so an enclosing node supplies cell
///   counts;
/// - a `ranges` property must be empty (the identity translation): the
///   parser's translation through a non-empty window does unchecked
///   arithmetic on its row values, which this check does not bound, so such
///   trees fail discovery;
/// - `stdout-path` must be a NUL-terminated ASCII absolute path (aliases
///   are not resolved here, so alias-form trees fail discovery);
/// - `bootargs` must be NUL-terminated ASCII.
pub open spec fn prop_rules(pname: Seq<u8>, val: Seq<u8>, depth: int) -> bool {
    &&& (is_cells_name(pname) ==> val.len() >= 4)
    &&& (pname == ("#address-cells").spec_bytes() ==> val.len() >= 4 && (be32_of(val, 0) == 1
        || be32_of(val, 0) == 2))
    &&& (pname == ("#size-cells").spec_bytes() ==> val.len() >= 4 && be32_of(val, 0) <= 2)
    &&& (pname == ("reg").spec_bytes() ==> depth >= 2)
    &&& (pname == ("ranges").spec_bytes() ==> val.len() == 0)
    &&& (pname == ("stdout-path").spec_bytes() ==> nul_str_ok(val) && val.len() > 0 && val[0]
        == '/' as u8)
    &&& (pname == ("bootargs").spec_bytes() ==> nul_str_ok(val))
}

fn check_prop_rules(pname: &[u8], val: &[u8], depth: usize) -> (r: bool)
    ensures
        r == prop_rules(pname@, val@, depth as int),
{
    if check_cells_name(pname) && val.len() < 4 {
        return false;
    }
    if bytes_eq(pname, "#address-cells".as_bytes()) {
        if val.len() < 4 {
            return false;
        }
        let v = read_be32(val, 0);
        if !(v == 1 || v == 2) {
            return false;
        }
    }
    if bytes_eq(pname, "#size-cells".as_bytes()) {
        if val.len() < 4 {
            return false;
        }
        if read_be32(val, 0) > 2 {
            return false;
        }
    }
    if bytes_eq(pname, "reg".as_bytes()) && depth < 2 {
        return false;
    }
    if bytes_eq(pname, "ranges".as_bytes()) && val.len() != 0 {
        return false;
    }
    if bytes_eq(pname, "stdout-path".as_bytes()) {
        if !check_nul_str(val) {
            return false;
        }
        if val.len() == 0 || val[0] != '/' as u8 {
            return false;
        }
    }
    if bytes_eq(pname, "bootargs".as_bytes()) {
        if !check_nul_str(val) {
            return false;
        }
    }
    true
}

/// When a begun node is finished (at its first child, its end-of-node
/// token, or an end-of-block token), the parser materialises its metadata;
/// a node carrying a `ranges` property then unwraps its own cell counts and
/// an ancestor's, so it must have declared both and sit below the root.
pub open spec fn finish_ok(depth: int, pend_ac: bool, pend_sc: bool, pend_ranges: bool) -> bool {
    pend_ranges ==> (pend_ac && pend_sc && depth >= 2)
}

/// The walk over the structure block, mirroring the parser's iterator step
/// for step: the same token reads, the same name and padding advances. It
/// holds exactly when every step the parser would take is in bounds and
/// every unchecked read it would perform is satisfied:
/// - nodes nest at most 12 deep (the parser's fixed metadata stack), and an
///   end-of-node token never appears at the top level;
/// - every node name is NUL-terminated ASCII inside the block, and its
///   padded length stays inside the block;
/// - every property stands inside a node (the parser's per-level metadata
///   update underflows on a top-level property), its header, value and
///   padded advance stay inside the block, its name offset stays inside the
///   strings block, and the name is NUL-terminated there, so this walk
///   reads the same property name the parser does;
/// - every property meets `prop_rules`;
/// - before the first child of a root is entered, that root has declared
///   `#address-cells` and `#size-cells` (`root_ac`/`root_sc`), so every
///   deeper node — the only place `reg` is allowed — finds cell counts; the
///   flags reset at each new top-level node, as the parser resets that
///   node's metadata slot;
/// - an end-of-block token is accepted only when no begun node is still
///   pending (the parser then stops) or when the token is the block's last
///   word: with a node pending, the parser yields it — so the pending
///   node's finish conditions must hold — and then reads on past the
///   token;
/// - only the five defined token values occur, keeping this walk and the
///   parser's aligned.
pub open spec fn walk_ok(
    s: Seq<u8>,
    strs: Seq<u8>,
    pos: int,
    depth: int,
    root_ac: bool,
    root_sc: bool,
    open: bool,
    pend_ac: bool,
    pend_sc: bool,
    pend_ranges: bool,
) -> bool
    decreases s.len() - pos,
    via walk_ok_dec
{
    if pos + 4 > s.len() {
        true
    } else {
        let tok = be32_of(s, pos);
        if tok == 9 {
            !open || (finish_ok(depth, pend_ac, pend_sc, pend_ranges) && pos + 4 == s.len())
        } else if tok == 4 {
            walk_ok(s, strs, pos + 4, depth, root_ac, root_sc, open, pend_ac, pend_sc, pend_ranges)
        } else if tok == 2 {
            &&& depth >= 1
            &&& (open ==> finish_ok(depth, pend_ac, pend_sc, pend_ranges))
            &&& walk_ok(s, strs, pos + 4, depth - 1, root_ac, root_sc, false, false, false, false)
        } else if tok == 1 {
            let nl = first_byte_idx(s.skip(pos + 4), 0);
            let adv = pos + 4 + round4(nl + 1);
            &&& depth < 12
            &&& nl < s.len() - (pos + 4)
            &&& all_ascii(s.skip(pos + 4).take(nl))
            &&& adv <= s.len()
            &&& (depth == 1 ==> root_ac && root_sc)
            &&& (open ==> finish_ok(depth, pend_ac, pend_sc, pend_ranges))
            &&& walk_ok(
                s,
                strs,
                adv,
                depth + 1,
                root_ac && depth != 0,
                root_sc && depth != 0,
                true,
                false,
                false,
                false,
            )
        } else if tok == 3 {
            &&& depth >= 1
            &&& pos + 12 <= s.len()
            &&& {
                let plen = be32_of(s, pos + 4) as int;
                let noff = be32_of(s, pos + 8) as int;
                let adv = pos + 12 + round4(plen);
                let pname = name_at(strs, noff);
                &&& pos + 12 + plen <= s.len()
                &&& adv <= s.len()
                &&& noff <= strs.len()
                &&& first_byte_idx(strs.skip(noff), 0) < strs.len() - noff
                &&& prop_rules(pname, s.subrange(pos + 12, pos + 12 + plen), depth)
                &&& walk_ok(
                    s,
                    strs,
                    adv,
                    depth,
                    root_ac || (depth == 1 && pname == ("#address-cells").spec_bytes()),
                    root_sc || (depth == 1 && pname == ("#size-cells").spec_bytes()),
                    open,
                    pend_ac || (open && pname == ("#address-cells").spec_bytes()),
                    pend_sc || (open && pname == ("#size-cells").spec_bytes()),
                    pend_ranges || (open && pname == ("ranges").spec_bytes()),
                )
            }
        } else {
            false
        }
    }
}

#[via_fn]
proof fn walk_ok_dec(
    s: Seq<u8>,
    strs: Seq<u8>,
    pos: int,
    depth: int,
    root_ac: bool,
    root_sc: bool,
    open: bool,
    pend_ac: bool,
    pend_sc: bool,
    pend_ranges: bool,
) {
    if pos + 4 <= s.len() {
        let tok = be32_of(s, pos);
        if tok == 1 {
            lemma_first_byte_idx(s.skip(pos + 4), 0);
            lemma_round4(first_byte_idx(s.skip(pos + 4), 0) + 1);
        } else if tok == 3 {
            if pos + 12 <= s.len() {
                lemma_round4(be32_of(s, pos + 4) as int);
            }
        }
    }
}

/// The largest blob this check accepts. A flattened tree records its total
/// size in a 32-bit field, so nothing is lost, and every position the walk
/// computes then fits the platform's word.
pub const FDT_MAX_SIZE: usize = 0xFFFF0000;

/// The panic-free domain of the tree parser, for the calls discovery makes:
/// a header of at least 40 bytes with the tree magic, structure and strings
/// blocks inside the blob, and a structure walk satisfying `walk_ok`.
/// Blobs outside this set — including any using `ranges` translation or an
/// alias-form `stdout-path` — fail discovery cleanly instead of being
/// handed to the parser.
pub open spec fn fdt_ok(b: Seq<u8>) -> bool {
    &&& b.len() >= 40
    &&& b.len() <= FDT_MAX_SIZE
    &&& be32_of(b, 0) == 0xD00DFEED
    &&& {
        let off_s = be32_of(b, 8) as int;
        let off_t = be32_of(b, 12) as int;
        let size_t = be32_of(b, 32) as int;
        let size_s = be32_of(b, 36) as int;
        &&& off_s + size_s <= b.len()
        &&& off_t + size_t <= b.len()
        &&& walk_ok(
            b.subrange(off_s, off_s + size_s),
            b.subrange(off_t, off_t + size_t),
            0,
            0,
            false,
            false,
            false,
            false,
            false,
            false,
        )
    }
}

/// Decide `fdt_ok` for a blob: the structure walk below mirrors the
/// parser's iterator, one token per loop step.
#[verifier::rlimit(100)]
pub fn check_fdt(blob: &[u8]) -> (r: bool)
    ensures
        r == fdt_ok(blob@),
{
    let n = blob.len();
    if n < 40 || n > FDT_MAX_SIZE {
        return false;
    }
    if read_be32(blob, 0) != 0xD00DFEED {
        return false;
    }
    let off_s = read_be32(blob, 8) as usize;
    let off_t = read_be32(blob, 12) as usize;
    let size_t = read_be32(blob, 32) as usize;
    let size_s = read_be32(blob, 36) as usize;
    if off_s > n || size_s > n - off_s {
        return false;
    }
    if off_t > n || size_t > n - off_t {
        return false;
    }
    let sb = slice_subrange(blob, off_s, off_s + size_s);
    let st = slice_subrange(blob, off_t, off_t + size_t);
    let mut pos: usize = 0;
    let mut depth: usize = 0;
    let mut root_ac = false;
    let mut root_sc = false;
    let mut open = false;
    let mut pend_ac = false;
    let mut pend_sc = false;
    let mut pend_ranges = false;
    loop
        invariant
            sb@ == blob@.subrange(be32_of(blob@, 8) as int, be32_of(blob@, 8) + be32_of(blob@, 36)),
            st@ == blob@.subrange(
                be32_of(blob@, 12) as int,
                be32_of(blob@, 12) + be32_of(blob@, 32),
            ),
            blob@.len() >= 40,
            blob@.len() <= FDT_MAX_SIZE,
            be32_of(blob@, 0) == 0xD00DFEED,
            be32_of(blob@, 8) + be32_of(blob@, 36) <= blob@.len(),
            be32_of(blob@, 12) + be32_of(blob@, 32) <= blob@.len(),
            pos <= sb@.len(),
            fdt_ok(blob@) == walk_ok(
                sb@,
                st@,
                pos as int,
                depth as int,
                root_ac,
                root_sc,
                open,
                pend_ac,
                pend_sc,
                pend_ranges,
            ),
        decreases sb@.len() - pos,
    {
        if sb.len() - pos < 4 {
            return true;
        }
        let tok = read_be32(sb, pos);
        let pend_fine = !pend_ranges || (pend_ac && pend_sc && depth >= 2);
        if tok == 9 {
            return !open || (pend_fine && pos + 4 == sb.len());
        } else if tok == 4 {
            pos = pos + 4;
        } else if tok == 2 {
            if depth == 0 {
                return false;
            }
            if open && !pend_fine {
                return false;
            }
            depth = depth - 1;
            pos = pos + 4;
            open = false;
            pend_ac = false;
            pend_sc = false;
            pend_ranges = false;
        } else if tok == 1 {
            if depth >= 12 {
                return false;
            }
            if open && !pend_fine {
                return false;
            }
            let name_region = slice_subrange(sb, pos + 4, sb.len());
            proof {
                assert(name_region@ =~= sb@.skip(pos + 4));
                lemma_first_byte_idx(name_region@, 0);
            }
            let nl = find_byte(name_region, 0);
            if nl == name_region.len() {
                return false;
            }
            let name = slice_subrange(name_region, 0, nl);
            proof {
                assert(name@ =~= sb@.skip(pos + 4).take(nl as int));
            }
            if !check_all_ascii(name) {
                return false;
            }
            let pad = (nl + 1 + 3) / 4 * 4;
            proof {
                lemma_round4(nl + 1);
            }
            if pad > sb.len() - (pos + 4) {
                return false;
            }
            if depth == 1 && !(root_ac && root_sc) {
                return false;
            }
            if depth == 0 {
                root_ac = false;
                root_sc = false;
            }
            pos = pos + 4 + pad;
            depth = depth + 1;
            open = true;
            pend_ac = false;
            pend_sc = false;
            pend_ranges = false;
        } else if tok == 3 {
            if depth == 0 {
                return false;
            }
            if sb.len() - pos < 12 {
                return false;
            }
            let plen = read_be32(sb, pos + 4) as usize;
            let noff = read_be32(sb, pos + 8) as usize;
            if plen > sb.len() - (pos + 12) {
                return false;
            }
            let pad = (plen + 3) / 4 * 4;
            proof {
                lemma_round4(plen as int);
            }
            if pad > sb.len() - (pos + 12) {
                return false;
            }
            if noff > st.len() {
                return false;
            }
            let name_region = slice_subrange(st, noff, st.len());
            proof {
                assert(name_region@ =~= st@.skip(noff as int));
                lemma_first_byte_idx(name_region@, 0);
            }
            let nl = find_byte(name_region, 0);
            if nl == name_region.len() {
                return false;
            }
            let pname = slice_subrange(name_region, 0, nl);
            proof {
                assert(pname@ =~= name_at(st@, noff as int));
            }
            let val = slice_subrange(sb, pos + 12, pos + 12 + plen);
            proof {
                assert(val@ =~= sb@.subrange(pos + 12, pos + 12 + plen as int));
            }
            if !check_prop_rules(pname, val, depth) {
                return false;
            }
            let is_ac = bytes_eq(pname, "#address-cells".as_bytes());
            let is_sc = bytes_eq(pname, "#size-cells".as_bytes());
            let is_ranges = bytes_eq(pname, "ranges".as_bytes());
            if depth == 1 && is_ac {
                root_ac = true;
            }
            if depth == 1 && is_sc {
                root_sc = true;
            }
            if open && is_ac {
                pend_ac = true;
            }
            if open && is_sc {
                pend_sc = true;
            }
            if open && is_ranges {
                pend_ranges = true;
            }
            pos = pos + 12 + pad;
        } else {
            return false;
        }
    }
}

} // verus!

use vstd::prelude::*;

use crate::bytes::{contains_bytes, contains_seq};
use crate::earlycon::{parse_bootargs, parse_bootargs_spec};
use crate::fdtcheck::{check_fdt, fdt_ok};
use crate::io::{IoKind, UartData};
use crate::uart::{ControllerFamily, Uart};

verus! {

/// What discovery reads of one device node, as plain values: its
/// compatibility strings and, when the node has a reg property, its
/// register-range addresses.
#[derive(Debug)]
pub struct NodeModel {
    pub compatibles: Vec<Vec<u8>>,
    pub reg_addrs: Option<Vec<u64>>,
}

/// What discovery reads of a whole tree, as plain values: the node the
/// chosen stdout reference resolves to, the boot-argument string, and every
/// node in traversal order.
#[derive(Debug)]
pub struct TreeModel {
    pub stdout: Option<NodeModel>,
    pub bootargs: Option<Vec<u8>>,
    pub nodes: Vec<NodeModel>,
}

/// The name of what the tree parser reads from a blob: extraction is a
/// function of the blob's bytes alone, so the same blob always yields the
/// same model.
pub uninterp spec fn tree_model_of(blob: Seq<u8>) -> Option<TreeModel>;

/// Relies on fdt_parser's Fdt::from_bytes, Fdt::chosen, Chosen::stdout,
/// Chosen::bootargs, Fdt::all_nodes, Node::compatibles and Node::reg: one
/// pass that reduces the tree to plain values, converting each node's
/// compatibility strings and register addresses field by field. All of
/// these read the blob's bytes and nothing else. The precondition keeps to
/// the parser's panic-free domain (see `fdt_ok`): in it, the header and
/// both block ranges are in bounds, node names and the walked string
/// properties are NUL-terminated ASCII, nesting stays within the parser's
/// fixed stack, every cell-valued property holds a full cell with widths
/// the register reader accepts, reg appears only where enclosing nodes
/// supply cell counts, a node carrying the empty identity ranges declares
/// the cell counts its metadata unwraps, and non-empty ranges translation
/// windows and alias-form stdout paths are excluded.
#[verifier::external_body]
fn extract_tree(blob: &[u8]) -> (r: Option<TreeModel>)
    requires
        fdt_ok(blob@),
    ensures
        r == tree_model_of(blob@),
{
    let to_model = |n: fdt_parser::Node<'_>| NodeModel {
        compatibles: n.compatibles().map(|c| c.as_bytes().to_vec()).collect(),
        reg_addrs: n.reg().map(|regs| regs.map(|reg| reg.address).collect()),
    };
    let fdt = fdt_parser::Fdt::from_bytes(blob).ok()?;
    let chosen = fdt.chosen();
    Some(TreeModel {
        stdout: chosen.as_ref().and_then(|c| c.stdout()).map(|s| to_model(s.node)),
        bootargs: chosen.as_ref().and_then(|c| c.bootargs()).map(|s| s.as_bytes().to_vec()),
        nodes: fdt.all_nodes().map(to_model).collect(),
    })
}

/// The compatibility identifier of the simple FIFO family.
pub open spec fn compat_aux() -> Seq<u8> {
    seq![
        'b' as u8,
        'r' as u8,
        'c' as u8,
        'm' as u8,
        ',' as u8,
        'b' as u8,
        'c' as u8,
        'm' as u8,
        '2' as u8,
        '8' as u8,
        '3' as u8,
        '5' as u8,
        '-' as u8,
        'a' as u8,
        'u' as u8,
        'x' as u8,
        '-' as u8,
        'u' as u8,
        'a' as u8,
        'r' as u8,
        't' as u8,
    ]
}

/// The first accepted spelling of the PL011 family's identifier.
pub open spec fn compat_pl011_a() -> Seq<u8> {
    seq!['a' as u8, 'r' as u8, 'm' as u8, ',' as u8, 'p' as u8, 'l' as u8, '0' as u8, '1' as u8, '1' as u8]
}

/// The second accepted spelling of the PL011 family's identifier.
pub open spec fn compat_pl011_b() -> Seq<u8> {
    seq![
        'a' as u8,
        'r' as u8,
        'm' as u8,
        ',' as u8,
        'p' as u8,
        'r' as u8,
        'i' as u8,
        'm' as u8,
        'e' as u8,
        'c' as u8,
        'e' as u8,
        'l' as u8,
        'l' as u8,
    ]
}

/// The compatibility identifier of the 16550 family.
pub open spec fn compat_ns16550() -> Seq<u8> {
    seq![
        's' as u8,
        'n' as u8,
        'p' as u8,
        's' as u8,
        ',' as u8,
        'd' as u8,
        'w' as u8,
        '-' as u8,
        'a' as u8,
        'p' as u8,
        'b' as u8,
        '-' as u8,
        'u' as u8,
        'a' as u8,
        'r' as u8,
        't' as u8,
    ]
}

/// The family one compatibility string selects, by the fixed priority
/// order: the simple FIFO identifier first, then the two PL011 spellings,
/// then the 16550 identifier. Matching is containment, not equality, so
/// vendor-prefixed variants are tolerated.
pub open spec fn compat_family_spec(c: Seq<u8>) -> Option<ControllerFamily> {
    if contains_seq(c, compat_aux()) {
        Some(ControllerFamily::AuxMini)
    } else if contains_seq(c, compat_pl011_a()) || contains_seq(c, compat_pl011_b()) {
        Some(ControllerFamily::Pl011)
    } else if contains_seq(c, compat_ns16550()) {
        Some(ControllerFamily::Ns16550)
    } else {
        None
    }
}

/// The family a whole compatibility list selects: the first string that
/// matches any family identifier decides, so a match need not stand in the
/// list's first entry.
pub open spec fn match_family_spec(list: Seq<Seq<u8>>) -> Option<ControllerFamily>
    decreases list.len(),
{
    if list.len() == 0 {
        None
    } else if compat_family_spec(list[0]) is Some {
        compat_family_spec(list[0])
    } else {
        match_family_spec(list.drop_first())
    }
}

/// The views of a list of byte vectors.
pub open spec fn views_of(list: Seq<Vec<u8>>) -> Seq<Seq<u8>> {
    list.map_values(|v: Vec<u8>| v@)
}

/// The family one compatibility string selects.
pub fn compat_family(c: &[u8]) -> (r: Option<ControllerFamily>)
    ensures
        r == compat_family_spec(c@),
{
    let aux: [u8; 21] = [
        'b' as u8,
        'r' as u8,
        'c' as u8,
        'm' as u8,
        ',' as u8,
        'b' as u8,
        'c' as u8,
        'm' as u8,
        '2' as u8,
        '8' as u8,
        '3' as u8,
        '5' as u8,
        '-' as u8,
        'a' as u8,
        'u' as u8,
        'x' as u8,
        '-' as u8,
        'u' as u8,
        'a' as u8,
        'r' as u8,
        't' as u8,
    ];
    let pl_a: [u8; 9] = [
        'a' as u8,
        'r' as u8,
        'm' as u8,
        ',' as u8,
        'p' as u8,
        'l' as u8,
        '0' as u8,
        '1' as u8,
        '1' as u8,
    ];
    let pl_b: [u8; 13] = [
        'a' as u8,
        'r' as u8,
        'm' as u8,
        ',' as u8,
        'p' as u8,
        'r' as u8,
        'i' as u8,
        'm' as u8,
        'e' as u8,
        'c' as u8,
        'e' as u8,
        'l' as u8,
        'l' as u8,
    ];
    let ns: [u8; 16] = [
        's' as u8,
        'n' as u8,
        'p' as u8,
        's' as u8,
        ',' as u8,
        'd' as u8,
        'w' as u8,
        '-' as u8,
        'a' as u8,
        'p' as u8,
        'b' as u8,
        '-' as u8,
        'u' as u8,
        'a' as u8,
        'r' as u8,
        't' as u8,
    ];
    proof {
        assert(aux@ =~= compat_aux());
        assert(pl_a@ =~= compat_pl011_a());
        assert(pl_b@ =~= compat_pl011_b());
        assert(ns@ =~= compat_ns16550());
    }
    if contains_bytes(c, aux.as_slice()) {
        Some(ControllerFamily::AuxMini)
    } else if contains_bytes(c, pl_a.as_slice()) || contains_bytes(c, pl_b.as_slice()) {
        Some(ControllerFamily::Pl011)
    } else if contains_bytes(c, ns.as_slice()) {
        Some(ControllerFamily::Ns16550)
    } else {
        None
    }
}

/// The family a compatibility list selects: the first matching string wins.
pub fn match_family(list: &Vec<Vec<u8>>) -> (r: Option<ControllerFamily>)
    ensures
        r == match_family_spec(views_of(list@)),
{
    let ghost full = views_of(list@);
    let mut i: usize = 0;
    proof {
        assert(full.skip(0) =~= full);
    }
    while i < list.len()
        invariant
            i <= list@.len(),
            full == views_of(list@),
            full.len() == list@.len(),
            match_family_spec(full) == match_family_spec(full.skip(i as int)),
        decreases list@.len() - i,
    {
        let r = compat_family(list[i].as_slice());
        proof {
            assert(full.skip(i as int)[0] == full[i as int]);
            assert(full[i as int] == list@[i as int]@);
        }
        if let Some(f) = r {
            return Some(f);
        }
        proof {
            assert(full.skip(i as int).drop_first() =~= full.skip(i + 1));
        }
        i = i + 1;
    }
    proof {
        assert(full.skip(i as int) =~= Seq::<Seq<u8>>::empty());
    }
    None
}

/// The product of discovery: the console's register address as the tree or
/// boot argument reports it (not yet translated to the caller's address
/// space), the access kind, and the matched controller family.
#[derive(Clone, Copy, Debug, PartialEq, Eq, Structural)]
pub struct DiscoveredConsole {
    pub addr: u64,
    pub io_kind: IoKind,
    pub family: ControllerFamily,
}

/// What one node resolves to (the explicit-reference path): its first
/// register address, the default 32-bit memory-mapped access kind, and the
/// family its compatibility list selects; nothing, when it has no register
/// range or no known family.
pub open spec fn node_console_spec(n: NodeModel) -> Option<DiscoveredConsole> {
    match n.reg_addrs {
        Some(a) => if a@.len() > 0 {
            match match_family_spec(views_of(n.compatibles@)) {
                Some(f) => Some(
                    DiscoveredConsole { addr: a@[0], io_kind: IoKind::Mmio32, family: f },
                ),
                None => None,
            }
        } else {
            None
        },
        None => None,
    }
}

/// Whether one of the node's register addresses equals `addr`.
pub open spec fn node_has_reg(n: NodeModel, addr: u64) -> bool {
    match n.reg_addrs {
        Some(a) => a@.contains(addr),
        None => false,
    }
}

/// The position of the first node whose register ranges cover `addr`.
pub open spec fn find_reg_index_spec(nodes: Seq<NodeModel>, addr: u64) -> Option<int>
    decreases nodes.len(),
{
    if nodes.len() == 0 {
        None
    } else if node_has_reg(nodes[0], addr) {
        Some(0)
    } else {
        match find_reg_index_spec(nodes.drop_first(), addr) {
            Some(i) => Some(i + 1),
            None => None,
        }
    }
}

pub proof fn lemma_find_reg_index(nodes: Seq<NodeModel>, addr: u64)
    ensures
        match find_reg_index_spec(nodes, addr) {
            Some(i) => 0 <= i < nodes.len() && node_has_reg(nodes[i], addr) && forall|k: int|
                0 <= k < i ==> !node_has_reg(nodes[k], addr),
            None => forall|k: int| 0 <= k < nodes.len() ==> !node_has_reg(nodes[k], addr),
        },
    decreases nodes.len(),
{
    if nodes.len() > 0 && !node_has_reg(nodes[0], addr) {
        lemma_find_reg_index(nodes.drop_first(), addr);
        match find_reg_index_spec(nodes.drop_first(), addr) {
            Some(i) => {
                assert(nodes.drop_first()[i] == nodes[i + 1]);
                assert forall|k: int| 0 <= k < i + 1 implies !node_has_reg(nodes[k], addr) by {
                    if k >= 1 {
                        assert(nodes.drop_first()[k - 1] == nodes[k]);
                    }
                }
            },
            None => {
                assert forall|k: int|
                    0 <= k < nodes.len() implies !node_has_reg(nodes[k], addr) by {
                    if k >= 1 {
                        assert(nodes.drop_first()[k - 1] == nodes[k]);
                    }
                }
            },
        }
    }
}

/// What the boot-argument fallback resolves to: the parse of the
/// early-console token gives the access kind and an address; the first node
/// with a matching register address is the console, its first register
/// address is taken, and the family is always the 16550, the one early
/// consoles name in practice.
pub open spec fn fallback_spec(t: TreeModel) -> Option<DiscoveredConsole> {
    match t.bootargs {
        Some(args) => match parse_bootargs_spec(args@) {
            Some((kind, addr)) => match find_reg_index_spec(t.nodes@, addr) {
                Some(i) => match t.nodes@[i].reg_addrs {
                    Some(a) => if a@.len() > 0 {
                        Some(
                            DiscoveredConsole {
                                addr: a@[0],
                                io_kind: kind,
                                family: ControllerFamily::Ns16550,
                            },
                        )
                    } else {
                        None
                    },
                    None => None,
                },
                None => None,
            },
            None => None,
        },
        None => None,
    }
}

/// What a whole blob resolves to: a blob outside the
/// validated domain resolves to nothing; otherwise the explicit
/// chosen-stdout reference decides when present (first success wins, the
/// boot arguments are not consulted), and only a tree without one falls
/// back to the boot-argument parse.
pub open spec fn console_spec(blob: Seq<u8>) -> Option<DiscoveredConsole> {
    if !fdt_ok(blob) {
        None
    } else {
        match tree_model_of(blob) {
            Some(t) => match t.stdout {
                Some(n) => node_console_spec(n),
                None => fallback_spec(t),
            },
            None => None,
        }
    }
}

/// An address fits the platform's pointer width, or discovery fails.
fn addr_to_usize(a: u64) -> (r: Option<usize>)
    ensures
        a <= usize::MAX ==> r == Some(a as usize),
        a > usize::MAX ==> r is None,
{
    if a <= usize::MAX as u64 {
        Some(a as usize)
    } else {
        None
    }
}

/// Resolve one device node: its first register address, the default 32-bit
/// memory-mapped access kind, and the family its compatibility list
/// selects.
pub fn console_of_node(n: &NodeModel) -> (r: Option<DiscoveredConsole>)
    ensures
        r == node_console_spec(*n),
{
    let addrs = match &n.reg_addrs {
        Some(a) => a,
        None => {
            return None;
        },
    };
    if addrs.len() == 0 {
        return None;
    }
    let family = match match_family(&n.compatibles) {
        Some(f) => f,
        None => {
            return None;
        },
    };
    Some(DiscoveredConsole { addr: addrs[0], io_kind: IoKind::Mmio32, family })
}

fn has_reg_addr(n: &NodeModel, addr: u64) -> (r: bool)
    ensures
        r == node_has_reg(*n, addr),
{
    let a = match &n.reg_addrs {
        Some(a) => a,
        None => {
            return false;
        },
    };
    let mut j: usize = 0;
    while j < a.len()
        invariant
            j <= a@.len(),
            n.reg_addrs matches Some(v) && v@ == a@,
            forall|k: int| 0 <= k < j ==> a@[k] != addr,
        decreases a@.len() - j,
    {
        if a[j] == addr {
            assert(a@.contains(addr));
            return true;
        }
        j = j + 1;
    }
    proof {
        if a@.contains(addr) {
            let w = choose|w: int| 0 <= w < a@.len() && a@[w] == addr;
            assert(a@[w] != addr);
        }
    }
    false
}

/// Scan the nodes, in traversal order, for the first one of whose register
/// addresses equals `addr`.
fn find_reg_index(nodes: &Vec<NodeModel>, addr: u64) -> (r: Option<usize>)
    ensures
        match r {
            Some(i) => find_reg_index_spec(nodes@, addr) == Some(i as int),
            None => find_reg_index_spec(nodes@, addr) is None,
        },
{
    proof {
        lemma_find_reg_index(nodes@, addr);
    }
    let mut i: usize = 0;
    while i < nodes.len()
        invariant
            i <= nodes@.len(),
            forall|k: int| 0 <= k < i ==> !node_has_reg(nodes@[k], addr),
            match find_reg_index_spec(nodes@, addr) {
                Some(j) => 0 <= j < nodes@.len() && node_has_reg(nodes@[j], addr) && forall|
                    k: int,
                |
                    0 <= k < j ==> !node_has_reg(nodes@[k], addr),
                None => forall|k: int| 0 <= k < nodes@.len() ==> !node_has_reg(nodes@[k], addr),
            },
        decreases nodes@.len() - i,
    {
        if has_reg_addr(&nodes[i], addr) {
            return Some(i);
        }
        i = i + 1;
    }
    None
}

impl Uart {
    /// Resolve one device node into a ready console handle: the explicit
    /// node path of discovery. Succeeds exactly when the node has a
    /// register range, its compatibility list selects a family, and the
    /// address fits the platform's pointer width; the handle then carries
    /// that address, the default 32-bit memory-mapped access kind, and the
    /// matched family.
    pub fn new_by_fdt_node(n: &NodeModel) -> (r: Option<Uart>)
        ensures
            r is Some <==> (node_console_spec(*n) matches Some(c) && c.addr <= usize::MAX),
            r matches Some(u) ==> u.wf() && node_console_spec(*n) == Some(
                DiscoveredConsole {
                    addr: u.data.base as u64,
                    io_kind: u.data.io_kind,
                    family: u.family,
                },
            ),
    {
        let c = match console_of_node(n) {
            Some(c) => c,
            None => {
                return None;
            },
        };
        let base = match addr_to_usize(c.addr) {
            Some(b) => b,
            None => {
                return None;
            },
        };
        Some(Uart::new(UartData::new(base, c.io_kind), c.family))
    }
}

/// Locate the platform's console in a device tree blob, per `console_spec`:
/// the blob must pass the panic-domain check, the explicit chosen-stdout
/// reference is tried first, and only a tree without one falls back to the
/// boot-argument parse, whose console is always given the 16550 driver. The
/// returned handle carries the address as the tree reports it; a caller
/// running at a translated address rebuilds the handle with `Uart::new`
/// after translating.
pub fn init(fdt_bytes: &[u8]) -> (r: Option<Uart>)
    ensures
        r is Some <==> (console_spec(fdt_bytes@) matches Some(c) && c.addr <= usize::MAX),
        r matches Some(u) ==> u.wf() && console_spec(fdt_bytes@) == Some(
            DiscoveredConsole {
                addr: u.data.base as u64,
                io_kind: u.data.io_kind,
                family: u.family,
            },
        ),
{
    if !check_fdt(fdt_bytes) {
        return None;
    }
    let t = match extract_tree(fdt_bytes) {
        Some(t) => t,
        None => {
            return None;
        },
    };
    let TreeModel { stdout, bootargs, nodes } = t;
    match stdout {
        Some(n) => Uart::new_by_fdt_node(&n),
        None => {
            let args = match bootargs {
                Some(a) => a,
                None => {
                    return None;
                },
            };
            let parsed = match parse_bootargs(args.as_slice()) {
                Some(p) => p,
                None => {
                    return None;
                },
            };
            let (io_kind, addr) = parsed;
            let i = match find_reg_index(&nodes, addr) {
                Some(i) => i,
                None => {
                    return None;
                },
            };
            proof {
                lemma_find_reg_index(nodes@, addr);
            }
            let first = match &nodes[i].reg_addrs {
                Some(a) => {
                    if a.len() == 0 {
                        return None;
                    }
                    a[0]
                },
                None => {
                    return None;
                },
            };
            let base = match addr_to_usize(first) {
                Some(b) => b,
                None => {
                    return None;
                },
            };
            Some(Uart::new(UartData::new(base, io_kind), ControllerFamily::Ns16550))
        },
    }
}

} // verus!
